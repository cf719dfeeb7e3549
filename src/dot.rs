//! What the simulation asks a drawing surface to paint.
use vstd::prelude::*;

use crate::colour::Colour;

verus! {

/// How opaque a dot is.
#[derive(Clone, Copy, PartialEq, Eq, Structural, Debug)]
pub enum Alpha {
    /// A fixed opacity, in thousandths.
    Permille(u32),
    /// An opacity that twinkles: `permille` thousandths times
    /// `(cos(lifetime / 5 + phase / 1000) + 1) / 2`.
    Twinkle { permille: u32, lifetime: u32, phase: u64 },
}

/// A filled circle at `(x, y)` in fixed-point units, with a radius in tenths
/// of a pixel.
#[derive(Clone, Copy, PartialEq, Eq, Debug)]
pub struct Dot {
    pub x: i64,
    pub y: i64,
    pub colour: Colour,
    pub alpha: Alpha,
    pub radius: u32,
}

} // verus!
