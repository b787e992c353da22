//! The numbers a network computes with.
//!
//! Every layer, loss and optimizer is generic over a [`Scalar`]: a copyable
//! value with a zero, a one, the four arithmetic operations and a partial
//! order. Each operation comes with a specification function of the same
//! shape, and the executable operation returns exactly what that function
//! says. Nothing is assumed about the arithmetic itself (it need not be
//! associative, and two values need not be comparable), so the contracts of
//! the library fix the order in which every sum and product is formed.

use vstd::prelude::*;

verus! {

/// A number that the network can compute with.
pub trait Scalar: Copy {
    /// The additive identity that sums start from.
    spec fn zero_spec() -> Self;

    /// The multiplicative identity.
    spec fn one_spec() -> Self;

    /// The scalar that stands for a count of rows or columns.
    spec fn from_count_spec(n: usize) -> Self;

    spec fn add_spec(self, rhs: Self) -> Self;

    spec fn sub_spec(self, rhs: Self) -> Self;

    spec fn mul_spec(self, rhs: Self) -> Self;

    spec fn div_spec(self, rhs: Self) -> Self;

    /// `self <= rhs`; false where the two values cannot be compared.
    spec fn le_spec(self, rhs: Self) -> bool;

    fn zero() -> (r: Self)
        ensures
            r == Self::zero_spec(),
    ;

    fn one() -> (r: Self)
        ensures
            r == Self::one_spec(),
    ;

    fn from_count(n: usize) -> (r: Self)
        ensures
            r == Self::from_count_spec(n),
    ;

    fn add(self, rhs: Self) -> (r: Self)
        ensures
            r == self.add_spec(rhs),
    ;

    fn sub(self, rhs: Self) -> (r: Self)
        ensures
            r == self.sub_spec(rhs),
    ;

    fn mul(self, rhs: Self) -> (r: Self)
        ensures
            r == self.mul_spec(rhs),
    ;

    fn div(self, rhs: Self) -> (r: Self)
        ensures
            r == self.div_spec(rhs),
    ;

    fn le(self, rhs: Self) -> (r: bool)
        ensures
            r == self.le_spec(rhs),
    ;
}

} // verus!
