use geometric_algebra::combinatorics::{
    exclusive_combinations, inclusive_combinations, progression, unique_combinations,
};

#[test]
fn progression_counts_up() {
    assert_eq!(progression(4), vec![0, 1, 2, 3]);
    assert!(progression(0).is_empty());
}

#[test]
fn unique_combinations_three() {
    assert_eq!(unique_combinations(3), vec![(0, 1), (0, 2), (1, 2)]);
}

#[test]
fn unique_combinations_four() {
    assert_eq!(
        unique_combinations(4),
        vec![(0, 1), (0, 2), (0, 3), (1, 2), (1, 3), (2, 3)]
    );
}

#[test]
fn unique_combinations_small_dimensions_are_empty() {
    assert!(unique_combinations(0).is_empty());
    assert!(unique_combinations(1).is_empty());
}

#[test]
fn inclusive_combinations_two() {
    assert_eq!(inclusive_combinations(2), vec![(0, 0), (0, 1), (1, 0), (1, 1)]);
    assert!(inclusive_combinations(0).is_empty());
}

#[test]
fn exclusive_combinations_three() {
    assert_eq!(
        exclusive_combinations(3),
        vec![(0, 1), (0, 2), (1, 0), (1, 2), (2, 0), (2, 1)]
    );
    assert!(exclusive_combinations(1).is_empty());
}
