//! Vectors and particles. Lengths are fixed-point: `SCALE` units make one
//! pixel, so positions, velocities and forces are exact integers.
use vstd::prelude::*;

use crate::colour::Colour;
use crate::dot::{Alpha, Dot};
use crate::rng::{below_of, lcg_next, Rng};

verus! {

/// Units per pixel.
pub const SCALE: i64 = 1000;

/// Number of directions that a random vector can point in.
pub const DIRECTIONS: u64 = 32;

/// Largest magnitude accepted for a random vector.
pub const MAX_MAGNITUDE: i64 = 1_000_000_000_000_000;

/// Whether `v` fits in an `i64`.
pub open spec fn fits(v: int) -> bool {
    i64::MIN <= v <= i64::MAX
}

#[derive(Clone, Copy, PartialEq, Eq, Structural, Debug)]
pub struct TwoVec {
    pub x: i64,
    pub y: i64,
}

/// Cosine and sine, times `SCALE`, of the angles `j * 2π / 32` for `j < 8`.
pub open spec fn first_quadrant(j: int) -> (int, int) {
    if j == 0 {
        (1000, 0)
    } else if j == 1 {
        (981, 195)
    } else if j == 2 {
        (924, 383)
    } else if j == 3 {
        (831, 556)
    } else if j == 4 {
        (707, 707)
    } else if j == 5 {
        (556, 831)
    } else if j == 6 {
        (383, 924)
    } else {
        (195, 981)
    }
}

/// Cosine and sine, times `SCALE`, of the angle `k * 2π / 32`: the first
/// quadrant turned by a quarter turn `k / 8` times.
pub open spec fn unit_direction(k: int) -> (int, int) {
    let (c, s) = first_quadrant(k % 8);
    let q = k / 8;
    if q == 0 {
        (c, s)
    } else if q == 1 {
        (-s, c)
    } else if q == 2 {
        (-c, -s)
    } else {
        (s, -c)
    }
}

/// `c * magnitude / SCALE`, rounded toward zero.
pub open spec fn scaled(c: int, magnitude: int) -> int {
    if c >= 0 {
        c * magnitude / 1000
    } else {
        -((-c) * magnitude / 1000)
    }
}

/// The vector of the given magnitude in direction `k`.
pub open spec fn polar(magnitude: int, k: int) -> TwoVec {
    TwoVec {
        x: scaled(unit_direction(k).0, magnitude) as i64,
        y: scaled(unit_direction(k).1, magnitude) as i64,
    }
}

proof fn lemma_scaled_bound(c: int, m: int)
    requires
        -1000 <= c <= 1000,
        0 <= m,
    ensures
        -m <= scaled(c, m) <= m,
{
    if c >= 0 {
        assert(c * m <= 1000 * m) by (nonlinear_arith)
            requires
                0 <= c <= 1000,
                0 <= m,
        ;
        assert(0 <= c * m) by (nonlinear_arith)
            requires
                0 <= c,
                0 <= m,
        ;
    } else {
        assert((-c) * m <= 1000 * m) by (nonlinear_arith)
            requires
                0 <= -c <= 1000,
                0 <= m,
        ;
        assert(0 <= (-c) * m) by (nonlinear_arith)
            requires
                0 <= -c,
                0 <= m,
        ;
    }
}

/// Each component of a polar vector lies within its magnitude.
pub proof fn lemma_polar_bound(magnitude: int, k: int)
    requires
        0 <= magnitude <= MAX_MAGNITUDE,
        0 <= k < DIRECTIONS,
    ensures
        -magnitude <= polar(magnitude, k).x <= magnitude,
        -magnitude <= polar(magnitude, k).y <= magnitude,
{
    let (c, s) = unit_direction(k);
    assert(-1000 <= c <= 1000 && -1000 <= s <= 1000);
    lemma_scaled_bound(c, magnitude);
    lemma_scaled_bound(s, magnitude);
}

fn first_quadrant_exec(j: u64) -> (r: (i64, i64))
    requires
        j < 8,
    ensures
        r.0 as int == first_quadrant(j as int).0,
        r.1 as int == first_quadrant(j as int).1,
{
    if j == 0 {
        (1000, 0)
    } else if j == 1 {
        (981, 195)
    } else if j == 2 {
        (924, 383)
    } else if j == 3 {
        (831, 556)
    } else if j == 4 {
        (707, 707)
    } else if j == 5 {
        (556, 831)
    } else if j == 6 {
        (383, 924)
    } else {
        (195, 981)
    }
}

fn scale_component(c: i64, magnitude: i64) -> (r: i64)
    requires
        -1000 <= c <= 1000,
        0 <= magnitude <= MAX_MAGNITUDE,
    ensures
        r == scaled(c as int, magnitude as int),
{
    proof {
        lemma_scaled_bound(c as int, magnitude as int);
    }
    if c >= 0 {
        assert(c * magnitude <= 1000 * MAX_MAGNITUDE) by (nonlinear_arith)
            requires
                0 <= c <= 1000,
                0 <= magnitude <= MAX_MAGNITUDE,
        ;
        c * magnitude / 1000
    } else {
        assert((-c) * magnitude <= 1000 * MAX_MAGNITUDE) by (nonlinear_arith)
            requires
                0 <= -c <= 1000,
                0 <= magnitude <= MAX_MAGNITUDE,
        ;
        -((-c) * magnitude / 1000)
    }
}

impl TwoVec {
    /// The vector `(x, y)`.
    pub fn new(x: i64, y: i64) -> (r: TwoVec)
        ensures
            r == (TwoVec { x, y }),
    {
        TwoVec { x, y }
    }

    /// The vector of the given magnitude in direction `k` (see `unit_direction`).
    pub fn polar(magnitude: i64, k: u64) -> (r: TwoVec)
        requires
            0 <= magnitude <= MAX_MAGNITUDE,
            k < DIRECTIONS,
        ensures
            r == polar(magnitude as int, k as int),
    {
        let (c, s) = first_quadrant_exec(k % 8);
        let q = k / 8;
        let (ux, uy) = if q == 0 {
            (c, s)
        } else if q == 1 {
            (-s, c)
        } else if q == 2 {
            (-c, -s)
        } else {
            (s, -c)
        };
        TwoVec { x: scale_component(ux, magnitude), y: scale_component(uy, magnitude) }
    }

    /// A vector of the given magnitude in a direction drawn from `rng`.
    pub fn random(magnitude: i64, rng: &mut Rng) -> (r: TwoVec)
        requires
            0 <= magnitude <= MAX_MAGNITUDE,
        ensures
            r == polar(magnitude as int, below_of(old(rng)@, DIRECTIONS as int)),
            final(rng)@ == lcg_next(old(rng)@),
    {
        let k = rng.below(DIRECTIONS);
        TwoVec::polar(magnitude, k)
    }

    /// The x coordinate.
    pub fn x(&self) -> (r: i64)
        ensures
            r == self.x,
    {
        self.x
    }

    /// The y coordinate.
    pub fn y(&self) -> (r: i64)
        ensures
            r == self.y,
    {
        self.y
    }

    /// The zero vector.
    pub fn zero() -> (r: TwoVec)
        ensures
            r == TwoVec::zero_spec(),
    {
        TwoVec { x: 0, y: 0 }
    }

    pub open spec fn zero_spec() -> TwoVec {
        TwoVec { x: 0, y: 0 }
    }

    pub open spec fn plus(self, o: TwoVec) -> TwoVec {
        TwoVec { x: (self.x + o.x) as i64, y: (self.y + o.y) as i64 }
    }

    pub open spec fn minus(self, o: TwoVec) -> TwoVec {
        TwoVec { x: (self.x - o.x) as i64, y: (self.y - o.y) as i64 }
    }

    /// Whether `self + o` fits.
    pub open spec fn can_add(self, o: TwoVec) -> bool {
        fits(self.x + o.x) && fits(self.y + o.y)
    }

    /// The sum `self + o`.
    pub fn add(&self, o: &TwoVec) -> (r: TwoVec)
        requires
            self.can_add(*o),
        ensures
            r == self.plus(*o),
            r.x == self.x + o.x,
            r.y == self.y + o.y,
    {
        TwoVec { x: self.x + o.x, y: self.y + o.y }
    }

    /// Adds `o` to `self` in place.
    pub fn add_assign(&mut self, o: &TwoVec)
        requires
            old(self).can_add(*o),
        ensures
            *final(self) == old(self).plus(*o),
    {
        *self = self.add(o);
    }

    /// The difference `self - o`.
    pub fn sub(&self, o: &TwoVec) -> (r: TwoVec)
        requires
            fits(self.x - o.x),
            fits(self.y - o.y),
        ensures
            r == self.minus(*o),
            r.x == self.x - o.x,
            r.y == self.y - o.y,
    {
        TwoVec { x: self.x - o.x, y: self.y - o.y }
    }

    /// The vector scaled by `k`.
    pub fn mul(&self, k: i64) -> (r: TwoVec)
        requires
            fits(self.x * k),
            fits(self.y * k),
        ensures
            r.x == self.x * k,
            r.y == self.y * k,
    {
        TwoVec { x: self.x * k, y: self.y * k }
    }

    /// The coordinates as a pair.
    pub fn into_pair(&self) -> (r: (i64, i64))
        ensures
            r == (self.x, self.y),
    {
        (self.x, self.y)
    }
}

/// `a` with its opacity held to at most one.
pub open spec fn clamped(a: Alpha) -> Alpha {
    match a {
        Alpha::Permille(p) => Alpha::Permille(if p > 1000 { 1000 } else { p }),
        Alpha::Twinkle { permille, lifetime, phase } => Alpha::Twinkle {
            permille: if permille > 1000 { 1000 } else { permille },
            lifetime,
            phase,
        },
    }
}

/// A point with position, velocity and accumulated acceleration.
#[derive(Clone, Copy, PartialEq, Eq, Structural, Debug)]
pub struct Particle {
    pub pos: TwoVec,
    pub vel: TwoVec,
    pub acc: TwoVec,
}

impl Particle {
    /// The particle after `apply_force(f)`.
    pub open spec fn pushed(self, f: TwoVec) -> Particle {
        Particle { acc: self.acc.plus(f), ..self }
    }

    /// The particle after `step()`: semi-implicit Euler.
    pub open spec fn stepped(self) -> Particle {
        let vel = self.vel.plus(self.acc);
        Particle { pos: self.pos.plus(vel), vel, acc: TwoVec::zero_spec() }
    }

    /// Whether `step()` stays within machine integers.
    pub open spec fn can_step(self) -> bool {
        self.vel.can_add(self.acc) && self.pos.can_add(self.vel.plus(self.acc))
    }

    /// A particle at `pos` with velocity `vel` and no acceleration.
    pub fn new(pos: TwoVec, vel: TwoVec) -> (r: Particle)
        ensures
            r == (Particle { pos, vel, acc: TwoVec::zero_spec() }),
    {
        Particle { pos, vel, acc: TwoVec::zero() }
    }

    /// A particle at `pos` moving at `speed` in a direction drawn from `rng`.
    pub fn random_at(pos: TwoVec, speed: i64, rng: &mut Rng) -> (r: Particle)
        requires
            0 <= speed <= MAX_MAGNITUDE,
        ensures
            r == (Particle {
                pos,
                vel: polar(speed as int, below_of(old(rng)@, DIRECTIONS as int)),
                acc: TwoVec::zero_spec(),
            }),
            final(rng)@ == lcg_next(old(rng)@),
    {
        Particle { pos, vel: TwoVec::random(speed, rng), acc: TwoVec::zero() }
    }

    /// Accumulates the force `f` into the acceleration.
    pub fn apply_force(&mut self, f: TwoVec)
        requires
            old(self).acc.can_add(f),
        ensures
            *final(self) == old(self).pushed(f),
    {
        self.acc.add_assign(&f);
    }

    /// Integrates velocity, then position, then clears the acceleration.
    pub fn step(&mut self)
        requires
            old(self).can_step(),
        ensures
            *final(self) == old(self).stepped(),
    {
        let acc = self.acc;
        self.vel.add_assign(&acc);
        let vel = self.vel;
        self.pos.add_assign(&vel);
        self.acc = TwoVec::zero();
    }

    /// Appends to `out` a dot of the given colour and radius at the
    /// particle, fully opaque.
    pub fn draw(&self, colour: Colour, radius: u32, out: &mut Vec<Dot>)
        ensures
            final(out)@ == old(out)@.push(
                Dot { x: self.pos.x, y: self.pos.y, colour, alpha: Alpha::Permille(1000), radius },
            ),
    {
        self.draw_rgba(colour, Alpha::Permille(1000), radius, out);
    }

    /// Appends to `out` a dot of the given colour, opacity and radius at the
    /// particle; an opacity above one is held to one.
    pub fn draw_rgba(&self, colour: Colour, alpha: Alpha, radius: u32, out: &mut Vec<Dot>)
        ensures
            final(out)@ == old(out)@.push(
                Dot { x: self.pos.x, y: self.pos.y, colour, alpha: clamped(alpha), radius },
            ),
    {
        let alpha = match alpha {
            Alpha::Permille(p) => Alpha::Permille(if p > 1000 { 1000 } else { p }),
            Alpha::Twinkle { permille, lifetime, phase } => Alpha::Twinkle {
                permille: if permille > 1000 { 1000 } else { permille },
                lifetime,
                phase,
            },
        };
        out.push(Dot { x: self.pos.x, y: self.pos.y, colour, alpha, radius });
    }

    pub fn pos(&self) -> (r: TwoVec)
        ensures
            r == self.pos,
    {
        self.pos
    }

    pub fn set_pos(&mut self, new_pos: TwoVec)
        ensures
            *final(self) == (Particle { pos: new_pos, ..*old(self) }),
    {
        self.pos = new_pos;
    }

    pub fn vel(&self) -> (r: TwoVec)
        ensures
            r == self.vel,
    {
        self.vel
    }

    pub fn set_vel(&mut self, new_vel: TwoVec)
        ensures
            *final(self) == (Particle { vel: new_vel, ..*old(self) }),
    {
        self.vel = new_vel;
    }

    pub fn acc(&self) -> (r: TwoVec)
        ensures
            r == self.acc,
    {
        self.acc
    }
}

/// Applying a force to a particle at rest in its acceleration and then
/// stepping it leaves no acceleration, adds the force to the velocity, and
/// moves the particle by the new velocity.
pub proof fn lemma_force_then_step(p: Particle, f: TwoVec)
    requires
        p.acc == TwoVec::zero_spec(),
        p.acc.can_add(f),
        p.pushed(f).can_step(),
    ensures
        p.pushed(f).stepped().acc == TwoVec::zero_spec(),
        p.pushed(f).stepped().vel.x == p.vel.x + f.x,
        p.pushed(f).stepped().vel.y == p.vel.y + f.y,
        p.pushed(f).stepped().pos.x == p.pos.x + p.pushed(f).stepped().vel.x,
        p.pushed(f).stepped().pos.y == p.pos.y + p.pushed(f).stepped().vel.y,
{
}

} // verus!
