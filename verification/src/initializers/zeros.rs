use super::Initializer;
use crate::scalar::Scalar;
use vstd::prelude::*;

verus! {

/// Fills with zeros.
pub struct Zeros;

impl<T: Scalar> Initializer<T> for Zeros {
    open spec fn admits(&self, x: T) -> bool {
        x == T::zero_spec()
    }

    fn gen(&self, len: usize) -> (r: Vec<T>) {
        let mut r: Vec<T> = Vec::new();
        let mut i: usize = 0;
        while i < len
            invariant
                i <= len,
                r@.len() == i,
                forall|k: int| 0 <= k < i ==> #[trigger] r@[k] == T::zero_spec(),
            decreases len - i,
        {
            r.push(T::zero());
            i += 1;
        }
        r
    }
}

impl Default for Zeros {
    fn default() -> (r: Self)
        ensures
            r == Zeros,
    {
        Self
    }
}

} // verus!
