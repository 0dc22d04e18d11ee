//! Multivectors: any combination of a scalar, vector, bivector and trivector
//! part.
//!
//! A part that is absent is not an implicit zero of the value: sums and
//! differences keep the union of the parts present, and a product keeps the
//! parts of its right operand.

use vstd::prelude::*;

use crate::bivector::BiVector;
use crate::components::{add_seq, all_in_i64, in_i64, neg_seq, scale_seq, sub_seq};
use crate::ops::{GeometricAdd, GeometricProduct, GeometricSub};
use crate::traits::{
    BiVectorComponent,
    BiVectorComponentMut,
    ScalarComponent,
    ScalarComponentMut,
    TriVectorComponent,
    TriVectorComponentMut,
    VectorComponent,
    VectorComponentMut,
};
use crate::trivector::TriVector;
use crate::vector::Vector;

verus! {

/// A part of a sum: added where both sides have it, carried where one has it.
pub open spec fn sum_part(l: Option<int>, r: Option<int>) -> Option<int> {
    match (l, r) {
        (Some(a), Some(b)) => Some(a + b),
        (Some(a), None) => Some(a),
        (None, Some(b)) => Some(b),
        (None, None) => None,
    }
}

/// A coefficient-sequence part of a sum.
pub open spec fn sum_part_seq(l: Option<Seq<int>>, r: Option<Seq<int>>) -> Option<Seq<int>> {
    match (l, r) {
        (Some(a), Some(b)) => Some(add_seq(a, b)),
        (Some(a), None) => Some(a),
        (None, Some(b)) => Some(b),
        (None, None) => None,
    }
}

/// A part of a difference: subtracted where both sides have it, carried from
/// the left, negated from the right.
pub open spec fn diff_part(l: Option<int>, r: Option<int>) -> Option<int> {
    match (l, r) {
        (Some(a), Some(b)) => Some(a - b),
        (Some(a), None) => Some(a),
        (None, Some(b)) => Some(-b),
        (None, None) => None,
    }
}

/// A coefficient-sequence part of a difference.
pub open spec fn diff_part_seq(l: Option<Seq<int>>, r: Option<Seq<int>>) -> Option<Seq<int>> {
    match (l, r) {
        (Some(a), Some(b)) => Some(sub_seq(a, b)),
        (Some(a), None) => Some(a),
        (None, Some(b)) => Some(neg_seq(b)),
        (None, None) => None,
    }
}

/// A part scaled by `s`.
pub open spec fn scale_part(s: int, r: Option<int>) -> Option<int> {
    match r {
        Some(b) => Some(b * s),
        None => None,
    }
}

/// A coefficient-sequence part scaled by `s`.
pub open spec fn scale_part_seq(s: int, r: Option<Seq<int>>) -> Option<Seq<int>> {
    match r {
        Some(b) => Some(scale_seq(b, s)),
        None => None,
    }
}

/// The part is absent or representable.
pub open spec fn part_fits(o: Option<int>) -> bool {
    o matches Some(x) ==> in_i64(x)
}

/// The part is absent or every coefficient is representable.
pub open spec fn part_fits_seq(o: Option<Seq<int>>) -> bool {
    o matches Some(x) ==> all_in_i64(x)
}

/// The coefficients of a multivector, grade by grade.
pub type MultiVectorView = (Option<int>, Option<Seq<int>>, Option<Seq<int>>, Option<int>);

/// A multivector of dimension `N`: each grade part present or absent.
#[derive(Debug)]
pub struct MultiVector<const N: usize> {
    pub scalar: Option<i64>,
    pub vector: Option<Vector<N>>,
    pub bivector: Option<BiVector<N>>,
    pub trivector: Option<TriVector<N>>,
}

/// The view of an optional scalar part.
pub open spec fn scalar_view(o: Option<i64>) -> Option<int> {
    match o {
        Some(x) => Some(x as int),
        None => None,
    }
}

/// The view of an optional vector part.
pub open spec fn vector_view<const N: usize>(o: Option<Vector<N>>) -> Option<Seq<int>> {
    match o {
        Some(x) => Some(x@),
        None => None,
    }
}

/// The view of an optional bivector part.
pub open spec fn bivector_view<const N: usize>(o: Option<BiVector<N>>) -> Option<Seq<int>> {
    match o {
        Some(x) => Some(x@),
        None => None,
    }
}

/// The view of an optional trivector part.
pub open spec fn trivector_view<const N: usize>(o: Option<TriVector<N>>) -> Option<int> {
    match o {
        Some(x) => Some(x@),
        None => None,
    }
}

/// The grade-wise sum of two multivector views.
pub open spec fn sum_view(l: MultiVectorView, r: MultiVectorView) -> MultiVectorView {
    (sum_part(l.0, r.0), sum_part_seq(l.1, r.1), sum_part_seq(l.2, r.2), sum_part(l.3, r.3))
}

/// The grade-wise difference of two multivector views.
pub open spec fn diff_view(l: MultiVectorView, r: MultiVectorView) -> MultiVectorView {
    (diff_part(l.0, r.0), diff_part_seq(l.1, r.1), diff_part_seq(l.2, r.2), diff_part(l.3, r.3))
}

/// Every part of a multivector view scaled by `s`.
pub open spec fn scale_view(s: int, r: MultiVectorView) -> MultiVectorView {
    (scale_part(s, r.0), scale_part_seq(s, r.1), scale_part_seq(s, r.2), scale_part(s, r.3))
}

/// Every present part of a multivector view is representable.
pub open spec fn view_fits(v: MultiVectorView) -> bool {
    part_fits(v.0) && part_fits_seq(v.1) && part_fits_seq(v.2) && part_fits(v.3)
}

impl<const N: usize> MultiVector<N> {
    pub open spec fn view(&self) -> MultiVectorView {
        (
            scalar_view(self.scalar),
            vector_view(self.vector),
            bivector_view(self.bivector),
            trivector_view(self.trivector),
        )
    }

    /// Every bivector part present has the length of dimension `N`.
    pub open spec fn wf(&self) -> bool {
        self.bivector matches Some(b) ==> b.wf()
    }

    /// A multivector with the given parts.
    pub fn new(
        scalar: Option<i64>,
        vector: Option<Vector<N>>,
        bivector: Option<BiVector<N>>,
        trivector: Option<TriVector<N>>,
    ) -> (r: Self)
        ensures
            r.scalar == scalar,
            r.vector == vector,
            r.bivector == bivector,
            r.trivector == trivector,
    {
        MultiVector { scalar, vector, bivector, trivector }
    }
}

fn add_scalar_part(l: Option<i64>, r: Option<i64>) -> (o: Option<i64>)
    requires
        part_fits(sum_part(scalar_view(l), scalar_view(r))),
    ensures
        scalar_view(o) == sum_part(scalar_view(l), scalar_view(r)),
{
    match (l, r) {
        (Some(a), Some(b)) => Some(a + b),
        (Some(a), None) => Some(a),
        (None, Some(b)) => Some(b),
        (None, None) => None,
    }
}

fn sub_scalar_part(l: Option<i64>, r: Option<i64>) -> (o: Option<i64>)
    requires
        part_fits(diff_part(scalar_view(l), scalar_view(r))),
    ensures
        scalar_view(o) == diff_part(scalar_view(l), scalar_view(r)),
{
    match (l, r) {
        (Some(a), Some(b)) => Some(a - b),
        (Some(a), None) => Some(a),
        (None, Some(b)) => Some(-b),
        (None, None) => None,
    }
}

fn add_vector_part<const N: usize>(l: Option<Vector<N>>, r: Option<Vector<N>>) -> (o: Option<
    Vector<N>,
>)
    requires
        part_fits_seq(sum_part_seq(vector_view(l), vector_view(r))),
    ensures
        vector_view(o) == sum_part_seq(vector_view(l), vector_view(r)),
{
    match (l, r) {
        (Some(a), Some(b)) => Some(a.add(b)),
        (Some(a), None) => Some(a),
        (None, Some(b)) => Some(b),
        (None, None) => None,
    }
}

fn sub_vector_part<const N: usize>(l: Option<Vector<N>>, r: Option<Vector<N>>) -> (o: Option<
    Vector<N>,
>)
    requires
        part_fits_seq(diff_part_seq(vector_view(l), vector_view(r))),
    ensures
        vector_view(o) == diff_part_seq(vector_view(l), vector_view(r)),
{
    match (l, r) {
        (Some(a), Some(b)) => Some(a.sub(b)),
        (Some(a), None) => Some(a),
        (None, Some(b)) => Some(b.neg()),
        (None, None) => None,
    }
}

fn add_bivector_part<const N: usize>(l: Option<BiVector<N>>, r: Option<BiVector<N>>) -> (o: Option<
    BiVector<N>,
>)
    requires
        l matches Some(a) ==> a.wf(),
        r matches Some(b) ==> b.wf(),
        part_fits_seq(sum_part_seq(bivector_view(l), bivector_view(r))),
    ensures
        bivector_view(o) == sum_part_seq(bivector_view(l), bivector_view(r)),
{
    match (l, r) {
        (Some(a), Some(b)) => Some(a.add(b)),
        (Some(a), None) => Some(a),
        (None, Some(b)) => Some(b),
        (None, None) => None,
    }
}

fn sub_bivector_part<const N: usize>(l: Option<BiVector<N>>, r: Option<BiVector<N>>) -> (o: Option<
    BiVector<N>,
>)
    requires
        l matches Some(a) ==> a.wf(),
        r matches Some(b) ==> b.wf(),
        part_fits_seq(diff_part_seq(bivector_view(l), bivector_view(r))),
    ensures
        bivector_view(o) == diff_part_seq(bivector_view(l), bivector_view(r)),
{
    match (l, r) {
        (Some(a), Some(b)) => Some(a.sub(b)),
        (Some(a), None) => Some(a),
        (None, Some(b)) => Some(b.neg()),
        (None, None) => None,
    }
}

fn add_trivector_part<const N: usize>(l: Option<TriVector<N>>, r: Option<TriVector<N>>) -> (o:
    Option<TriVector<N>>)
    requires
        part_fits(sum_part(trivector_view(l), trivector_view(r))),
    ensures
        trivector_view(o) == sum_part(trivector_view(l), trivector_view(r)),
{
    match (l, r) {
        (Some(a), Some(b)) => Some(a.add(b)),
        (Some(a), None) => Some(a),
        (None, Some(b)) => Some(b),
        (None, None) => None,
    }
}

fn sub_trivector_part<const N: usize>(l: Option<TriVector<N>>, r: Option<TriVector<N>>) -> (o:
    Option<TriVector<N>>)
    requires
        part_fits(diff_part(trivector_view(l), trivector_view(r))),
    ensures
        trivector_view(o) == diff_part(trivector_view(l), trivector_view(r)),
{
    match (l, r) {
        (Some(a), Some(b)) => Some(a.sub(b)),
        (Some(a), None) => Some(a),
        (None, Some(b)) => Some(b.neg()),
        (None, None) => None,
    }
}

impl<const N: usize> GeometricAdd<MultiVector<N>> for MultiVector<N> {
    type Output = MultiVector<N>;

    open spec fn geometric_add_defined(self, rhs: MultiVector<N>) -> bool {
        &&& self.wf()
        &&& rhs.wf()
        &&& view_fits(sum_view(self@, rhs@))
    }

    /// The grade-wise sum: the parts of both operands, added where both have
    /// one.
    fn geometric_add(self, rhs: MultiVector<N>) -> (r: MultiVector<N>)
        ensures
            r@ == sum_view(self@, rhs@),
    {
        MultiVector {
            scalar: add_scalar_part(self.scalar, rhs.scalar),
            vector: add_vector_part(self.vector, rhs.vector),
            bivector: add_bivector_part(self.bivector, rhs.bivector),
            trivector: add_trivector_part(self.trivector, rhs.trivector),
        }
    }
}

impl<const N: usize> GeometricSub<MultiVector<N>> for MultiVector<N> {
    type Output = MultiVector<N>;

    open spec fn geometric_sub_defined(self, rhs: MultiVector<N>) -> bool {
        &&& self.wf()
        &&& rhs.wf()
        &&& view_fits(diff_view(self@, rhs@))
    }

    /// The grade-wise difference: the parts of both operands, subtracted
    /// where both have one and negated where only `rhs` has one.
    fn geometric_sub(self, rhs: MultiVector<N>) -> (r: MultiVector<N>)
        ensures
            r@ == diff_view(self@, rhs@),
    {
        MultiVector {
            scalar: sub_scalar_part(self.scalar, rhs.scalar),
            vector: sub_vector_part(self.vector, rhs.vector),
            bivector: sub_bivector_part(self.bivector, rhs.bivector),
            trivector: sub_trivector_part(self.trivector, rhs.trivector),
        }
    }
}

impl<const N: usize> GeometricProduct<MultiVector<N>> for i64 {
    type Output = MultiVector<N>;

    open spec fn geometric_product_defined(self, rhs: MultiVector<N>) -> bool {
        view_fits(scale_view(self as int, rhs@))
    }

    /// `s M`: every part of `rhs` scaled by `s`; the result has exactly the
    /// parts of `rhs`.
    fn geometric_product(self, rhs: MultiVector<N>) -> (r: MultiVector<N>)
        ensures
            r@ == scale_view(self as int, rhs@),
    {
        let scalar = match rhs.scalar {
            Some(b) => Some(b * self),
            None => None,
        };
        let vector = match rhs.vector {
            Some(b) => Some(b.mul(self)),
            None => None,
        };
        let bivector = match rhs.bivector {
            Some(b) => Some(b.mul(self)),
            None => None,
        };
        let trivector = match rhs.trivector {
            Some(b) => Some(b.mul(self)),
            None => None,
        };
        MultiVector { scalar, vector, bivector, trivector }
    }
}

impl<const N: usize> ScalarComponent<i64> for (i64, Vector<N>) {
    open spec fn spec_scalar(&self) -> i64 {
        self.0
    }

    fn scalar(&self) -> (r: &i64) {
        &self.0
    }
}

impl<const N: usize> ScalarComponentMut<i64> for (i64, Vector<N>) {
    open spec fn spec_scalar_mut(&self) -> i64 {
        self.0
    }

    open spec fn scalar_updated(&self, new: Self, v: i64) -> bool {
        new.0 == v && new.1 == self.1
    }

    fn scalar_mut(&mut self) -> (r: &mut i64) {
        &mut self.0
    }
}

impl<const N: usize> VectorComponent<N> for (i64, Vector<N>) {
    open spec fn spec_vector(&self) -> Vector<N> {
        self.1
    }

    fn vector(&self) -> (r: &Vector<N>) {
        &self.1
    }
}

impl<const N: usize> VectorComponentMut<N> for (i64, Vector<N>) {
    open spec fn spec_vector_mut(&self) -> Vector<N> {
        self.1
    }

    open spec fn vector_updated(&self, new: Self, v: Vector<N>) -> bool {
        new.1 == v && new.0 == self.0
    }

    fn vector_mut(&mut self) -> (r: &mut Vector<N>) {
        &mut self.1
    }
}

impl<const N: usize> VectorComponent<N> for (Vector<N>, BiVector<N>) {
    open spec fn spec_vector(&self) -> Vector<N> {
        self.0
    }

    fn vector(&self) -> (r: &Vector<N>) {
        &self.0
    }
}

impl<const N: usize> VectorComponentMut<N> for (Vector<N>, BiVector<N>) {
    open spec fn spec_vector_mut(&self) -> Vector<N> {
        self.0
    }

    open spec fn vector_updated(&self, new: Self, v: Vector<N>) -> bool {
        new.0 == v && new.1 == self.1
    }

    fn vector_mut(&mut self) -> (r: &mut Vector<N>) {
        &mut self.0
    }
}

impl<const N: usize> BiVectorComponent<N> for (Vector<N>, BiVector<N>) {
    open spec fn spec_bivector(&self) -> BiVector<N> {
        self.1
    }

    fn bivector(&self) -> (r: &BiVector<N>) {
        &self.1
    }
}

impl<const N: usize> BiVectorComponentMut<N> for (Vector<N>, BiVector<N>) {
    open spec fn spec_bivector_mut(&self) -> BiVector<N> {
        self.1
    }

    open spec fn bivector_updated(&self, new: Self, v: BiVector<N>) -> bool {
        new.1 == v && new.0 == self.0
    }

    fn bivector_mut(&mut self) -> (r: &mut BiVector<N>) {
        &mut self.1
    }
}

impl<const N: usize> VectorComponent<N> for (Vector<N>, TriVector<N>) {
    open spec fn spec_vector(&self) -> Vector<N> {
        self.0
    }

    fn vector(&self) -> (r: &Vector<N>) {
        &self.0
    }
}

impl<const N: usize> VectorComponentMut<N> for (Vector<N>, TriVector<N>) {
    open spec fn spec_vector_mut(&self) -> Vector<N> {
        self.0
    }

    open spec fn vector_updated(&self, new: Self, v: Vector<N>) -> bool {
        new.0 == v && new.1 == self.1
    }

    fn vector_mut(&mut self) -> (r: &mut Vector<N>) {
        &mut self.0
    }
}

impl<const N: usize> TriVectorComponent<N> for (Vector<N>, TriVector<N>) {
    open spec fn spec_trivector(&self) -> TriVector<N> {
        self.1
    }

    fn trivector(&self) -> (r: &TriVector<N>) {
        &self.1
    }
}

impl<const N: usize> TriVectorComponentMut<N> for (Vector<N>, TriVector<N>) {
    open spec fn spec_trivector_mut(&self) -> TriVector<N> {
        self.1
    }

    open spec fn trivector_updated(&self, new: Self, v: TriVector<N>) -> bool {
        new.1 == v && new.0 == self.0
    }

    fn trivector_mut(&mut self) -> (r: &mut TriVector<N>) {
        &mut self.1
    }
}

impl<const N: usize> BiVectorComponent<N> for (BiVector<N>, TriVector<N>) {
    open spec fn spec_bivector(&self) -> BiVector<N> {
        self.0
    }

    fn bivector(&self) -> (r: &BiVector<N>) {
        &self.0
    }
}

impl<const N: usize> BiVectorComponentMut<N> for (BiVector<N>, TriVector<N>) {
    open spec fn spec_bivector_mut(&self) -> BiVector<N> {
        self.0
    }

    open spec fn bivector_updated(&self, new: Self, v: BiVector<N>) -> bool {
        new.0 == v && new.1 == self.1
    }

    fn bivector_mut(&mut self) -> (r: &mut BiVector<N>) {
        &mut self.0
    }
}

impl<const N: usize> TriVectorComponent<N> for (BiVector<N>, TriVector<N>) {
    open spec fn spec_trivector(&self) -> TriVector<N> {
        self.1
    }

    fn trivector(&self) -> (r: &TriVector<N>) {
        &self.1
    }
}

impl<const N: usize> TriVectorComponentMut<N> for (BiVector<N>, TriVector<N>) {
    open spec fn spec_trivector_mut(&self) -> TriVector<N> {
        self.1
    }

    open spec fn trivector_updated(&self, new: Self, v: TriVector<N>) -> bool {
        new.1 == v && new.0 == self.0
    }

    fn trivector_mut(&mut self) -> (r: &mut TriVector<N>) {
        &mut self.1
    }
}

} // verus!
