//! Reproducible sources of randomness.
//!
//! A generator is a plain value: its next output and its next state are spec
//! functions of the current state, so every draw is a function of the seed.
use vstd::prelude::*;

verus! {

/// A deterministic source of pseudo-random numbers.
pub trait Rand: Sized {
    /// The generator after one draw.
    spec fn advanced(&self) -> Self;

    /// The value handed out by the next draw.
    spec fn output(&self) -> u64;

    /// The generator as freshly seeded with `seed`.
    spec fn seeded(seed: u64) -> Self;

    /// Creates a generator from a seed.
    fn with_seed(seed: u64) -> (r: Self)
        ensures
            r == Self::seeded(seed),
    ;

    /// Re-seeds the generator.
    fn set_seed(&mut self, seed: u64)
        ensures
            *final(self) == Self::seeded(seed),
    ;

    /// Draws the next number.
    fn next(&mut self) -> (r: u64)
        ensures
            r == old(self).output(),
            *final(self) == old(self).advanced(),
    ;
}

/// The result of `below(bound)`: a number in `[0, bound)`, or 0 without a draw
/// when the bound leaves a single choice.
pub open spec fn below_spec<R: Rand>(r: R, bound: u64) -> (R, u64) {
    if bound <= 1 {
        (r, 0)
    } else {
        (r.advanced(), r.output() % bound)
    }
}

/// The result of `between(lo, hi)`: a number in `[lo, hi]`.
pub open spec fn between_spec<R: Rand>(r: R, lo: u64, hi: u64) -> (R, u64)
    recommends
        lo <= hi,
{
    let (r1, v) = below_spec(r, (hi - lo + 1) as u64);
    (r1, (lo + v) as u64)
}

/// Draws a number in `[0, bound)`; a bound of 0 or 1 gives 0 without a draw.
pub fn below<R: Rand>(rand: &mut R, bound: u64) -> (r: u64)
    ensures
        (*final(rand), r) == below_spec(*old(rand), bound),
        bound >= 1 ==> r < bound,
{
    if bound <= 1 {
        0
    } else {
        let v = rand.next();
        v % bound
    }
}

/// Draws a number in `[lo, hi]`.
pub fn between<R: Rand>(rand: &mut R, lo: u64, hi: u64) -> (r: u64)
    requires
        lo <= hi,
        hi - lo < u64::MAX,
    ensures
        (*final(rand), r) == between_spec(*old(rand), lo, hi),
        lo <= r <= hi,
{
    let v = below(rand, hi - lo + 1);
    lo + v
}

/// The increment of the SplitMix64 sequence.
pub const SPLITMIX_GAMMA: u64 = 0x9e3779b97f4a7c15;

/// The SplitMix64 finaliser, applied to each state of the sequence.
pub open spec fn splitmix_mix(z: u64) -> u64 {
    let a = (z ^ (z >> 30u64)).wrapping_mul(0xbf58476d1ce4e5b9u64);
    let b = (a ^ (a >> 27u64)).wrapping_mul(0x94d049bb133111ebu64);
    b ^ (b >> 31u64)
}

/// The standard generator: SplitMix64, whose every seed (0 included) gives a
/// full-period sequence.
#[derive(Clone, Copy, Debug, PartialEq, Eq, Structural)]
pub struct StdRand {
    pub state: u64,
}

impl Rand for StdRand {
    open spec fn advanced(&self) -> StdRand {
        StdRand { state: self.state.wrapping_add(SPLITMIX_GAMMA) }
    }

    open spec fn output(&self) -> u64 {
        splitmix_mix(self.state.wrapping_add(SPLITMIX_GAMMA))
    }

    open spec fn seeded(seed: u64) -> StdRand {
        StdRand { state: seed }
    }

    fn with_seed(seed: u64) -> (r: StdRand) {
        StdRand { state: seed }
    }

    fn set_seed(&mut self, seed: u64) {
        self.state = seed;
    }

    fn next(&mut self) -> (r: u64) {
        self.state = self.state.wrapping_add(SPLITMIX_GAMMA);
        let z = self.state;
        let a = (z ^ (z >> 30u64)).wrapping_mul(0xbf58476d1ce4e5b9u64);
        let b = (a ^ (a >> 27u64)).wrapping_mul(0x94d049bb133111ebu64);
        b ^ (b >> 31u64)
    }
}

/// A generator that always hands out its seed: the fixed input that regression
/// tests use to force one path through a mutation.
#[derive(Clone, Copy, Debug, PartialEq, Eq, Structural)]
pub struct XKCDRand {
    pub val: u64,
}

impl Rand for XKCDRand {
    open spec fn advanced(&self) -> XKCDRand {
        *self
    }

    open spec fn output(&self) -> u64 {
        self.val
    }

    open spec fn seeded(seed: u64) -> XKCDRand {
        XKCDRand { val: seed }
    }

    fn with_seed(seed: u64) -> (r: XKCDRand) {
        XKCDRand { val: seed }
    }

    fn set_seed(&mut self, seed: u64) {
        self.val = seed;
    }

    fn next(&mut self) -> (r: u64) {
        self.val
    }
}

impl StdRand {
    /// Draws a number in `[0, bound)`.
    pub fn below(&mut self, bound: u64) -> (r: u64)
        ensures
            (*final(self), r) == below_spec(*old(self), bound),
            bound >= 1 ==> r < bound,
    {
        below(self, bound)
    }

    /// Draws a number in `[lo, hi]`.
    pub fn between(&mut self, lo: u64, hi: u64) -> (r: u64)
        requires
            lo <= hi,
            hi - lo < u64::MAX,
        ensures
            (*final(self), r) == between_spec(*old(self), lo, hi),
            lo <= r <= hi,
    {
        between(self, lo, hi)
    }
}

} // verus!
