//! A small seedable pseudo-random generator: a 64-bit linear congruential
//! generator whose draws are the upper 48 bits of each new state.
use vstd::prelude::*;

verus! {

pub const LCG_MUL: u64 = 6364136223846793005;

pub const LCG_INC: u64 = 1442695040888963407;

/// The state that follows `s`.
pub open spec fn lcg_next(s: u64) -> u64 {
    ((s as int * LCG_MUL as int + LCG_INC as int) % 0x1_0000_0000_0000_0000) as u64
}

/// The draw that a generator in state `s` yields next.
pub open spec fn draw_of(s: u64) -> int {
    lcg_next(s) as int / 0x1_0000
}

/// The value in `[0, n)` that a generator in state `s` yields next.
pub open spec fn below_of(s: u64, n: int) -> int {
    draw_of(s) % n
}

pub struct Rng {
    state: u64,
}

impl View for Rng {
    type V = u64;

    closed spec fn view(&self) -> u64 {
        self.state
    }
}

impl Rng {
    /// A generator started from `seed`.
    pub fn new(seed: u64) -> (r: Rng)
        ensures
            r@ == seed,
    {
        Rng { state: seed }
    }

    /// Advances the generator and returns its next draw, below 2^48.
    pub fn next_draw(&mut self) -> (r: u64)
        ensures
            final(self)@ == lcg_next(old(self)@),
            r == draw_of(old(self)@),
            r < 0x1_0000_0000_0000,
    {
        let s = self.state as u128;
        assert(s * (LCG_MUL as u128) <= 0xFFFF_FFFF_FFFF_FFFF * 0x7FFF_FFFF_FFFF_FFFF) by (nonlinear_arith)
            requires
                s <= 0xFFFF_FFFF_FFFF_FFFF,
        ;
        let next = ((s * (LCG_MUL as u128) + (LCG_INC as u128)) % 0x1_0000_0000_0000_0000u128) as u64;
        self.state = next;
        next / 0x1_0000
    }

    /// Advances the generator and returns a value in `[0, n)`.
    pub fn below(&mut self, n: u64) -> (r: u64)
        requires
            n > 0,
        ensures
            final(self)@ == lcg_next(old(self)@),
            r == below_of(old(self)@, n as int),
            r < n,
    {
        let d = self.next_draw();
        d % n
    }
}

} // verus!
