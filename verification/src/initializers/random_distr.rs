use super::Initializer;
use crate::fixed::Fixed;
use crate::scalar::Scalar;
use core::marker::PhantomData;
use vstd::prelude::*;

verus! {

/// A source of random scalars.
pub trait Distribution<T: Scalar> {
    /// Whether `x` is a value that the distribution may produce.
    spec fn admits(&self, x: T) -> bool;

    /// One value drawn from the distribution.
    fn sample(&self) -> (x: T)
        ensures
            self.admits(x),
    ;
}

/// The uniform distribution over the fixed-point values from `low` up to,
/// not including, `high`.
#[derive(Clone, Copy, Debug, PartialEq, Eq)]
pub struct Uniform {
    low: Fixed,
    high: Fixed,
}

impl Uniform {
    #[verifier::type_invariant]
    spec fn inv(self) -> bool {
        self.low.raw < self.high.raw
    }

    /// The least value of the range.
    pub closed spec fn low_spec(self) -> Fixed {
        self.low
    }

    /// The end of the range, which is not part of it.
    pub closed spec fn high_spec(self) -> Fixed {
        self.high
    }

    pub fn new(low: Fixed, high: Fixed) -> (r: Self)
        requires
            low.raw < high.raw,
        ensures
            r.low_spec() == low,
            r.high_spec() == high,
    {
        Uniform { low, high }
    }

    pub fn low(&self) -> (r: Fixed)
        ensures
            r == self.low_spec(),
    {
        self.low
    }

    pub fn high(&self) -> (r: Fixed)
        ensures
            r == self.high_spec(),
    {
        self.high
    }
}

/// Builds `rand_distr::Uniform::new(low, high)` and samples it once, through
/// `rand_distr::Distribution::sample`, with the generator that
/// `rand::thread_rng` hands out. Taken on trust: `Uniform::new` panics unless
/// `low < high`, and a sample of the integer distribution that it builds is
/// at least `low` and less than `high`. Nothing is said of which value comes,
/// nor of how the values are distributed.
#[verifier::external_body]
fn draw_uniform(low: i64, high: i64) -> (r: i64)
    requires
        low < high,
    ensures
        low <= r < high,
{
    rand_distr::Distribution::sample(&rand_distr::Uniform::new(low, high), &mut rand::thread_rng())
}

impl Distribution<Fixed> for Uniform {
    open spec fn admits(&self, x: Fixed) -> bool {
        self.low_spec().raw <= x.raw < self.high_spec().raw
    }

    fn sample(&self) -> (x: Fixed) {
        proof {
            use_type_invariant(self);
        }
        Fixed { raw: draw_uniform(self.low.raw, self.high.raw) }
    }
}

/// Fills with values drawn from a distribution, each draw on its own.
pub struct RandomDistr<D, T = Fixed> {
    dist: D,
    _phantom: PhantomData<T>,
}

impl<D, T> RandomDistr<D, T> where D: Distribution<T>, T: Scalar {
    /// The distribution that the values are drawn from.
    pub closed spec fn dist_spec(&self) -> D {
        self.dist
    }

    /// An initializer that draws from `dist`.
    pub fn new(dist: D) -> (r: Self)
        ensures
            r.dist_spec() == dist,
    {
        Self { dist, _phantom: PhantomData }
    }

    /// The distribution that the values are drawn from.
    pub fn dist(&self) -> (r: &D)
        ensures
            *r == self.dist_spec(),
    {
        &self.dist
    }
}

impl RandomDistr<Uniform, Fixed> {
    /// An initializer that draws uniformly from -0.05 up to, not including,
    /// 0.05.
    pub fn uniform() -> (r: Self)
        ensures
            r.dist_spec().low_spec().raw == -50_000,
            r.dist_spec().high_spec().raw == 50_000,
    {
        Self {
            dist: Uniform::new(Fixed { raw: -50_000 }, Fixed { raw: 50_000 }),
            _phantom: PhantomData,
        }
    }

    /// An initializer that draws uniformly from `low` up to, not including,
    /// `high`.
    pub fn uniform_with(low: Fixed, high: Fixed) -> (r: Self)
        requires
            low.raw < high.raw,
        ensures
            r.dist_spec().low_spec() == low,
            r.dist_spec().high_spec() == high,
    {
        Self { dist: Uniform::new(low, high), _phantom: PhantomData }
    }
}

impl<D, T> Initializer<T> for RandomDistr<D, T> where D: Distribution<T>, T: Scalar {
    open spec fn admits(&self, x: T) -> bool {
        self.dist_spec().admits(x)
    }

    fn gen(&self, len: usize) -> (r: Vec<T>) {
        let mut r: Vec<T> = Vec::new();
        let mut i: usize = 0;
        while i < len
            invariant
                i <= len,
                r@.len() == i,
                forall|k: int| 0 <= k < i ==> self.dist_spec().admits(#[trigger] r@[k]),
            decreases len - i,
        {
            r.push(self.dist.sample());
            i += 1;
        }
        r
    }
}

} // verus!
