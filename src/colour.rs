//! RGB colours.
use vstd::prelude::*;

use crate::rng::{below_of, lcg_next, Rng};

verus! {

pub type Colour = (u8, u8, u8);

pub const YELLOW: Colour = (200, 200, 0);

pub const ORANGE: Colour = (255, 200, 0);

/// Largest denominator accepted by `colour_mul`.
pub const MAX_SCALE_DEN: u64 = 0xFFFF_FFFF_FFFF;

/// Whether `c` is a colour that `random_colour` can give.
pub open spec fn is_random_colour(c: Colour) -> bool {
    c.0 < 255 && c.1 < 255 && c.2 < 255
}

/// `a * num / den`, rounded down.
pub open spec fn scale_component(a: u8, num: u64, den: u64) -> u8 {
    (a as int * num as int / den as int) as u8
}

/// A colour drawn from `rng`, each component below 255.
pub fn random_colour(rng: &mut Rng) -> (r: Colour)
    ensures
        is_random_colour(r),
        r.0 == below_of(old(rng)@, 255),
        r.1 == below_of(lcg_next(old(rng)@), 255),
        r.2 == below_of(lcg_next(lcg_next(old(rng)@)), 255),
        final(rng)@ == lcg_next(lcg_next(lcg_next(old(rng)@))),
{
    let r = rng.below(255) as u8;
    let g = rng.below(255) as u8;
    let b = rng.below(255) as u8;
    (r, g, b)
}

/// The componentwise sum of two colours, wrapping at 256.
pub fn colour_add(c1: &Colour, c2: &Colour) -> (r: Colour)
    ensures
        r.0 == (c1.0 + c2.0) % 256,
        r.1 == (c1.1 + c2.1) % 256,
        r.2 == (c1.2 + c2.2) % 256,
{
    (c1.0.wrapping_add(c2.0), c1.1.wrapping_add(c2.1), c1.2.wrapping_add(c2.2))
}

fn mul_component(a: u8, num: u64, den: u64) -> (r: u8)
    requires
        0 < den <= MAX_SCALE_DEN,
        num <= den,
    ensures
        r == scale_component(a, num, den),
        r <= a,
{
    assert(a as u64 * num <= 255 * MAX_SCALE_DEN) by (nonlinear_arith)
        requires
            a <= 255,
            num <= MAX_SCALE_DEN,
    ;
    assert((a as int) * (num as int) / (den as int) <= a as int) by (nonlinear_arith)
        requires
            num <= den,
            0 < den,
            0 <= a,
            0 <= num,
    ;
    (a as u64 * num / den) as u8
}

/// The colour scaled by the fraction `num / den`, each component rounded down.
pub fn colour_mul(colour: &Colour, num: u64, den: u64) -> (r: Colour)
    requires
        0 < den <= MAX_SCALE_DEN,
        num <= den,
    ensures
        r.0 == scale_component(colour.0, num, den),
        r.1 == scale_component(colour.1, num, den),
        r.2 == scale_component(colour.2, num, den),
{
    (mul_component(colour.0, num, den), mul_component(colour.1, num, den), mul_component(colour.2, num, den))
}

} // verus!
