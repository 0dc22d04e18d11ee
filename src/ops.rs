//! The product and sum operators between graded elements.
//!
//! Each operator is a trait over the right-hand operand, so one name covers
//! every pair of grades. An implementation states its own result in its
//! `ensures`; `*_defined` says on which operands the result is representable.

use vstd::prelude::*;

verus! {

/// Inverse under the geometric product.
pub trait GeometricInverse: Sized {
    type Output;

    spec fn geometric_inverse_defined(self) -> bool;

    fn geometric_inverse(self) -> Self::Output
        requires
            self.geometric_inverse_defined(),
    ;
}

/// Interior (contraction) product.
pub trait InteriorProduct<Rhs>: Sized {
    type Output;

    spec fn interior_product_defined(self, rhs: Rhs) -> bool;

    fn interior_product(self, rhs: Rhs) -> Self::Output
        requires
            self.interior_product_defined(rhs),
    ;
}

/// Exterior (wedge) product.
pub trait ExteriorProduct<Rhs>: Sized {
    type Output;

    spec fn exterior_product_defined(self, rhs: Rhs) -> bool;

    fn exterior_product(self, rhs: Rhs) -> Self::Output
        requires
            self.exterior_product_defined(rhs),
    ;
}

/// Sum of two elements that may differ in grade.
pub trait GeometricAdd<Rhs>: Sized {
    type Output;

    spec fn geometric_add_defined(self, rhs: Rhs) -> bool;

    fn geometric_add(self, rhs: Rhs) -> Self::Output
        requires
            self.geometric_add_defined(rhs),
    ;
}

/// Difference of two elements that may differ in grade.
pub trait GeometricSub<Rhs>: Sized {
    type Output;

    spec fn geometric_sub_defined(self, rhs: Rhs) -> bool;

    fn geometric_sub(self, rhs: Rhs) -> Self::Output
        requires
            self.geometric_sub_defined(rhs),
    ;
}

/// Geometric product.
pub trait GeometricProduct<Rhs>: Sized {
    type Output;

    spec fn geometric_product_defined(self, rhs: Rhs) -> bool;

    fn geometric_product(self, rhs: Rhs) -> Self::Output
        requires
            self.geometric_product_defined(rhs),
    ;
}

} // verus!
