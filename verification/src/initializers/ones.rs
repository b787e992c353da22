use super::Initializer;
use crate::scalar::Scalar;
use vstd::prelude::*;

verus! {

/// Fills with ones.
pub struct Ones;

impl<T: Scalar> Initializer<T> for Ones {
    open spec fn admits(&self, x: T) -> bool {
        x == T::one_spec()
    }

    fn gen(&self, len: usize) -> (r: Vec<T>) {
        let mut r: Vec<T> = Vec::new();
        let mut i: usize = 0;
        while i < len
            invariant
                i <= len,
                r@.len() == i,
                forall|k: int| 0 <= k < i ==> #[trigger] r@[k] == T::one_spec(),
            decreases len - i,
        {
            r.push(T::one());
            i += 1;
        }
        r
    }
}

impl Default for Ones {
    fn default() -> (r: Self)
        ensures
            r == Ones,
    {
        Self
    }
}

} // verus!
