//! Fireworks: a rocket that climbs under gravity, bursts at the top of its arc
//! into a style-specific field of particles, and launches again once the burst
//! has burnt out.
use vstd::prelude::*;

use crate::colour::{
    colour_add, colour_mul, is_random_colour, random_colour, scale_component, Colour, ORANGE,
};
use crate::dot::{Alpha, Dot};
use crate::rng::Rng;
use crate::sim::{lemma_polar_bound, polar, Particle, TwoVec, DIRECTIONS, SCALE};

verus! {

/// Particles in a standard or colour-shifting burst.
pub const PARTICLE_COUNT: u64 = 20;

/// Particles in a sparkling burst: ten times the base count.
pub const SPARKLE_COUNT: u64 = 200;

/// Steps that a burst lasts.
pub const PARTICLE_LIFETIME: u32 = 70;

/// A climbing rocket bursts once its vertical velocity rises above this.
pub const ROCKET_EXPLODE_SPEED: i64 = -500;

/// Downward pull per step.
pub const GRAVITY_Y: i64 = 70;

/// Largest coordinate of a point on a canvas of `u32` pixels.
pub const MAX_EXTENT: i64 = 4_294_967_295_000;

/// Bound on the launch speed of a rocket on any canvas.
pub const MAX_LAUNCH_SPEED: i64 = 22_000_000;

/// How far above the canvas's top edge a rocket can burst.
pub const APEX_DEPTH: i64 = 7_000_000_000_000;

/// Bound on each velocity component of a fresh burst particle.
pub const BURST_SPEED: i64 = 5000;

/// Bound on each position component of a fresh burst particle.
pub const BURST_REACH: i64 = 8_000_000_000_000;

/// Bound on how far a burst particle moves, per component, in one step.
pub const DRIFT: i64 = 10_000;

/// Radius, in fixed-point units, within which a sparkling burst scatters.
pub const SPARKLE_SPREAD: i64 = 70_000;

/// Phases of sparkling particles lie below this, in thousandths of a radian.
pub const PHASE_RANGE: u64 = 10_000;

/// Colour of a sparkling burst.
pub const SPARKLE_COLOUR: Colour = (255, 238, 150);

/// `PARTICLE_LIFETIME` to the sixth power.
pub const LIFETIME_POW6: u64 = 117_649_000_000;

/// The kinds of firework.
#[derive(Clone, Copy, PartialEq, Eq, Structural, Debug)]
pub enum Style {
    /// One random colour, fading linearly.
    Standard,
    /// Blends from a second colour to a first; the burst keeps the rocket's momentum.
    ColourShift,
    /// A dense, motionless field of twinkling points.
    Sparkle,
}

/// `r` is the integer square root of `n`.
pub open spec fn is_root(r: int, n: int) -> bool {
    0 <= r && r * r <= n && n < (r + 1) * (r + 1)
}

/// `sqrt(height)` in fixed-point units, rounded down.
pub open spec fn launch_root(height: u32) -> int {
    choose|r: int| #[trigger] is_root(r, height as int * 1_000_000)
}

/// The gravity force.
pub open spec fn gravity_spec() -> TwoVec {
    TwoVec { x: 0, y: GRAVITY_Y }
}

/// The gravity force.
pub fn gravity() -> (r: TwoVec)
    ensures
        r == gravity_spec(),
{
    TwoVec::new(0, GRAVITY_Y)
}

proof fn lemma_root_unique(a: int, b: int, n: int)
    requires
        is_root(a, n),
        is_root(b, n),
    ensures
        a == b,
{
    if a < b {
        assert((a + 1) * (a + 1) <= b * b) by (nonlinear_arith)
            requires
                0 <= a,
                a + 1 <= b,
        ;
    } else if b < a {
        assert((b + 1) * (b + 1) <= a * a) by (nonlinear_arith)
            requires
                0 <= b,
                b + 1 <= a,
        ;
    }
}

/// The integer square root of `n`.
pub fn isqrt(n: u64) -> (r: u64)
    ensures
        is_root(r as int, n as int),
{
    let mut lo: u64 = 0;
    let mut hi: u64 = 0x1_0000_0000;
    assert(hi * hi > n);
    while hi - lo > 1
        invariant
            lo < hi <= 0x1_0000_0000,
            lo * lo <= n,
            n < hi * hi,
        decreases hi - lo,
    {
        let mid = lo + (hi - lo) / 2;
        assert(mid * mid <= 0xFFFF_FFFF * 0xFFFF_FFFF) by (nonlinear_arith)
            requires
                mid < 0x1_0000_0000,
        ;
        if mid * mid <= n {
            lo = mid;
        } else {
            hi = mid;
        }
    }
    lo
}

/// The slowest and the fastest launch velocity on a canvas of the given
/// height: `-sqrt(height) / 4` and `-sqrt(height) / 3` pixels per step.
pub fn vel_min_max(height: u32) -> (r: (i64, i64))
    ensures
        r.0 == -(launch_root(height) / 4),
        r.1 == -(launch_root(height) / 3),
        -MAX_LAUNCH_SPEED <= r.1 <= r.0 <= 0,
{
    let n = height as u64 * 1_000_000;
    let root = isqrt(n);
    proof {
        let w = choose|r: int| #[trigger] is_root(r, n as int);
        assert(is_root(root as int, n as int));
        lemma_root_unique(w, root as int, n as int);
        if root >= 65_536_000 {
            assert(root * root >= 65_536_000 * 65_536_000) by (nonlinear_arith)
                requires
                    root >= 65_536_000,
            ;
        }
    }
    (-((root / 4) as i64), -((root / 3) as i64))
}

/// A rocket in flight: it moves straight up, no faster than any launch, and
/// has not climbed further than its speed allows.
pub open spec fn rocket_ok(r: Particle) -> bool {
    &&& r.acc == TwoVec::zero_spec()
    &&& r.vel.x == 0
    &&& -MAX_LAUNCH_SPEED <= r.vel.y <= 0
    &&& 0 <= r.pos.x <= MAX_EXTENT
    &&& r.pos.y <= MAX_EXTENT
    &&& r.pos.y * GRAVITY_Y + MAX_LAUNCH_SPEED * r.vel.y >= -(MAX_LAUNCH_SPEED * MAX_LAUNCH_SPEED)
}

/// A rocket at the top of its arc, about to burst.
pub open spec fn at_apex(r: Particle) -> bool {
    &&& r.acc == TwoVec::zero_spec()
    &&& r.vel.x == 0
    &&& ROCKET_EXPLODE_SPEED < r.vel.y <= GRAVITY_Y
    &&& 0 <= r.pos.x <= MAX_EXTENT
    &&& -APEX_DEPTH <= r.pos.y <= MAX_EXTENT + GRAVITY_Y
}

/// Bounds on a burst particle `age` steps after the burst.
pub open spec fn spark_ok(p: Particle, age: int) -> bool {
    &&& p.acc == TwoVec::zero_spec()
    &&& -(BURST_SPEED + age * GRAVITY_Y) <= p.vel.x <= BURST_SPEED + age * GRAVITY_Y
    &&& -(BURST_SPEED + age * GRAVITY_Y) <= p.vel.y <= BURST_SPEED + age * GRAVITY_Y
    &&& -(BURST_REACH + age * DRIFT) <= p.pos.x <= BURST_REACH + age * DRIFT
    &&& -(BURST_REACH + age * DRIFT) <= p.pos.y <= BURST_REACH + age * DRIFT
}

/// Number of particles in a burst of the given style.
pub open spec fn burst_size(style: Style) -> int {
    if style == Style::Sparkle {
        SPARKLE_COUNT as int
    } else {
        PARTICLE_COUNT as int
    }
}

/// A particle that moves at a speed in `[lo, hi)` in one of the directions,
/// plus the velocity `base`.
pub open spec fn flung(p: Particle, lo: int, hi: int, base: TwoVec) -> bool {
    exists|s: int, k: int|
        lo <= s < hi && 0 <= k < DIRECTIONS && p.vel == #[trigger] polar(s, k).plus(base)
}

/// `p` is a particle that a burst of the given style spawns from `rocket`.
///
/// A standard burst starts at the rocket at a speed of 2 to 2.5 pixels per
/// step. A colour-shifting burst moves at 1.5 to 3.5 and keeps the rocket's
/// velocity. A sparkling one does too, and starts scattered within the spread
/// around the rocket.
pub open spec fn born(style: Style, rocket: Particle, p: Particle) -> bool {
    &&& p.acc == TwoVec::zero_spec()
    &&& match style {
        Style::Standard => p.pos == rocket.pos && flung(p, 2000, 2500, TwoVec::zero_spec()),
        Style::ColourShift => p.pos == rocket.pos && flung(p, 1500, 3500, rocket.vel),
        Style::Sparkle => {
            &&& flung(p, 1500, 3500, rocket.vel)
            &&& exists|m: int, k: int|
                0 <= m < SPARKLE_SPREAD && 0 <= k < DIRECTIONS && p.pos == #[trigger] rocket.pos.plus(
                    polar(m, k),
                )
        },
    }
}

/// How one step changes a firework on a `width` by `height` canvas.
///
/// A climbing rocket feels gravity and moves; it bursts exactly when its
/// vertical velocity rises above `ROCKET_EXPLODE_SPEED`. A burst feels
/// gravity and moves, except a sparkling one, which stays still; its lifetime
/// falls by one, and when it reaches zero the firework is launched again.
pub open spec fn step_post(old: FireworkView, new: FireworkView, width: u32, height: u32) -> bool {
    &&& new.style == old.style
    &&& !old.exploded ==> {
        let r = old.rocket.pushed(gravity_spec()).stepped();
        &&& new.rocket == r
        &&& new.lifetime == old.lifetime
        &&& new.first_colour == old.first_colour
        &&& new.second_colour == old.second_colour
        &&& new.exploded == (r.vel.y > ROCKET_EXPLODE_SPEED)
        &&& !new.exploded ==> new.particles == old.particles && new.phases == old.phases
        &&& new.exploded ==> {
            &&& new.particles.len() == burst_size(old.style)
            &&& forall|i: int|
                0 <= i < new.particles.len() ==> born(old.style, r, #[trigger] new.particles[i])
        }
    }
    &&& old.exploded && old.lifetime > 1 ==> {
        &&& new.exploded
        &&& new.lifetime == old.lifetime - 1
        &&& new.rocket == old.rocket
        &&& new.first_colour == old.first_colour
        &&& new.second_colour == old.second_colour
        &&& new.phases == old.phases
        &&& new.particles.len() == old.particles.len()
        &&& old.style == Style::Sparkle ==> new.particles == old.particles
        &&& old.style != Style::Sparkle ==> forall|i: int|
            0 <= i < old.particles.len() ==> #[trigger] new.particles[i]
                == old.particles[i].pushed(gravity_spec()).stepped()
    }
    &&& old.exploded && old.lifetime <= 1 ==> launched(new, width, height)
}

/// The share of a burst's lifetime that is left, in thousandths.
pub open spec fn fade_permille(lifetime: int) -> int {
    lifetime * 1000 / PARTICLE_LIFETIME as int
}

/// The square of the share of lifetime left, in thousandths.
pub open spec fn square_fade_permille(lifetime: int) -> int {
    lifetime * lifetime * 1000 / (PARTICLE_LIFETIME as int * PARTICLE_LIFETIME as int)
}

/// `l` to the sixth power.
pub open spec fn pow6(l: int) -> int {
    l * l * l * l * l * l
}

/// The colour of a colour-shifting burst with `lifetime` steps left: with
/// `f` the share of lifetime left, `first` weighted by `1 - f^6` plus
/// `second` weighted by `f^6`, each product rounded down, each sum wrapping.
/// The blend stays near `second` for most of the burst and turns to `first`
/// at its end.
pub open spec fn mixed_colour(first: Colour, second: Colour, lifetime: int) -> Colour {
    let shift = (LIFETIME_POW6 - pow6(lifetime)) as u64;
    let keep = pow6(lifetime) as u64;
    (
        ((scale_component(first.0, shift, LIFETIME_POW6) + scale_component(second.0, keep, LIFETIME_POW6)) % 256) as u8,
        ((scale_component(first.1, shift, LIFETIME_POW6) + scale_component(second.1, keep, LIFETIME_POW6)) % 256) as u8,
        ((scale_component(first.2, shift, LIFETIME_POW6) + scale_component(second.2, keep, LIFETIME_POW6)) % 256) as u8,
    )
}

/// The dot that paints particle `i` of a burst.
pub open spec fn burst_dot(v: FireworkView, i: int) -> Dot {
    let p = v.particles[i];
    let l = v.lifetime as int;
    match v.style {
        Style::Standard => Dot {
            x: p.pos.x,
            y: p.pos.y,
            colour: v.first_colour,
            alpha: Alpha::Permille(fade_permille(l) as u32),
            radius: 24,
        },
        Style::ColourShift => Dot {
            x: p.pos.x,
            y: p.pos.y,
            colour: mixed_colour(v.first_colour, v.second_colour, l),
            alpha: Alpha::Permille(square_fade_permille(l) as u32),
            radius: 24,
        },
        Style::Sparkle => Dot {
            x: p.pos.x,
            y: p.pos.y,
            colour: SPARKLE_COLOUR,
            alpha: Alpha::Twinkle {
                permille: fade_permille(l) as u32,
                lifetime: v.lifetime,
                phase: v.phases[i],
            },
            radius: 15,
        },
    }
}

/// What a firework paints: its rocket while it climbs, its burst after.
pub open spec fn firework_dots(v: FireworkView) -> Seq<Dot> {
    if !v.exploded {
        seq![
            Dot {
                x: v.rocket.pos.x,
                y: v.rocket.pos.y,
                colour: ORANGE,
                alpha: Alpha::Permille(1000),
                radius: 23,
            },
        ]
    } else {
        Seq::new(v.particles.len(), |i: int| burst_dot(v, i))
    }
}

/// The blend of a colour-shifting burst with `lifetime` steps left.
pub fn colour_shift_mix(first: &Colour, second: &Colour, lifetime: u32) -> (r: Colour)
    requires
        lifetime <= PARTICLE_LIFETIME,
    ensures
        r == mixed_colour(*first, *second, lifetime as int),
{
    let l = lifetime as u64;
    assert(l * l <= 4900) by (nonlinear_arith)
        requires
            l <= 70,
    ;
    let l2 = l * l;
    assert(l2 * l <= 343_000) by (nonlinear_arith)
        requires
            l2 <= 4900,
            l <= 70,
    ;
    let l3 = l2 * l;
    assert(l3 * l3 <= LIFETIME_POW6) by (nonlinear_arith)
        requires
            l3 <= 343_000,
    ;
    let keep = l3 * l3;
    assert(keep == pow6(lifetime as int)) by (nonlinear_arith)
        requires
            l2 == l * l,
            l3 == l2 * l,
            keep == l3 * l3,
            l == lifetime,
    ;
    colour_add(
        &colour_mul(first, LIFETIME_POW6 - keep, LIFETIME_POW6),
        &colour_mul(second, keep, LIFETIME_POW6),
    )
}

/// At the start of a burst the blend is the second colour; at its end, the first.
pub proof fn lemma_colour_shift_ends(first: Colour, second: Colour)
    ensures
        mixed_colour(first, second, PARTICLE_LIFETIME as int) == second,
        mixed_colour(first, second, 0) == first,
{
    assert(pow6(PARTICLE_LIFETIME as int) == LIFETIME_POW6);
    assert(pow6(0) == 0);
    assert forall|c: u8| scale_component(c, LIFETIME_POW6, LIFETIME_POW6) == c by {
        assert((c as int * LIFETIME_POW6 as int) / LIFETIME_POW6 as int == c as int) by (nonlinear_arith);
    }
    assert forall|c: u8| scale_component(c, 0, LIFETIME_POW6) == 0 by {}
}

/// What a firework is, as seen by contracts.
pub struct FireworkView {
    pub style: Style,
    pub rocket: Particle,
    pub exploded: bool,
    pub particles: Seq<Particle>,
    pub phases: Seq<u64>,
    pub first_colour: Colour,
    pub second_colour: Colour,
    pub lifetime: u32,
}

/// Steps since the burst.
pub open spec fn age(v: FireworkView) -> int {
    PARTICLE_LIFETIME - v.lifetime
}

/// The invariant of a firework.
pub open spec fn firework_wf(v: FireworkView) -> bool {
    &&& v.lifetime <= PARTICLE_LIFETIME
    &&& !v.exploded ==> {
        &&& v.lifetime == PARTICLE_LIFETIME
        &&& v.particles.len() == 0
        &&& v.phases.len() == 0
        &&& rocket_ok(v.rocket)
    }
    &&& v.exploded ==> {
        &&& 1 <= v.lifetime
        &&& forall|i: int| 0 <= i < v.particles.len() ==> spark_ok(#[trigger] v.particles[i], age(v))
    }
    &&& v.style == Style::Sparkle ==> {
        &&& v.phases.len() == v.particles.len()
        &&& forall|i: int| 0 <= i < v.phases.len() ==> #[trigger] v.phases[i] < PHASE_RANGE
    }
    &&& v.style != Style::Sparkle ==> v.phases.len() == 0
}

/// A firework freshly launched on a `width` by `height` canvas: the rocket
/// stands on the bottom edge and climbs at a launch speed for that height.
pub open spec fn launched(v: FireworkView, width: u32, height: u32) -> bool {
    &&& !v.exploded
    &&& v.lifetime == PARTICLE_LIFETIME
    &&& v.particles.len() == 0
    &&& v.phases.len() == 0
    &&& v.rocket.acc == TwoVec::zero_spec()
    &&& v.rocket.vel.x == 0
    &&& -(launch_root(height) / 3) <= v.rocket.vel.y <= -(launch_root(height) / 4)
    &&& v.rocket.pos.y == height as int * SCALE
    &&& 0 <= v.rocket.pos.x <= width as int * SCALE
    &&& (width > 0 ==> v.rocket.pos.x < width as int * SCALE)
    &&& v.style != Style::Sparkle ==> is_random_colour(v.first_colour)
    &&& v.style == Style::ColourShift ==> is_random_colour(v.second_colour)
    &&& firework_wf(v)
}

/// A particle of a standard burst from `rocket`.
fn spawn_still(rocket: Particle, rng: &mut Rng) -> (p: Particle)
    requires
        at_apex(rocket),
    ensures
        p.acc == TwoVec::zero_spec(),
        p.pos == rocket.pos,
        flung(p, 2000, 2500, TwoVec::zero_spec()),
        spark_ok(p, 0),
{
    let speed: i64 = 2000 + rng.below(500) as i64;
    let ghost s1 = rng@;
    let p = Particle::random_at(rocket.pos, speed, rng);
    proof {
        let k = crate::rng::below_of(s1, DIRECTIONS as int);
        lemma_polar_bound(speed as int, k);
        assert(p.vel == polar(speed as int, k).plus(TwoVec::zero_spec()));
    }
    p
}

/// A point within `SPARKLE_SPREAD` of `rocket`, at a distance of
/// `SPARKLE_SPREAD * sqrt(u)` for a draw `u` in `[0, 1)`, so that the points
/// gather towards the rocket.
fn scatter(rocket: Particle, rng: &mut Rng) -> (r: TwoVec)
    requires
        at_apex(rocket),
    ensures
        exists|m: int, k: int|
            0 <= m < SPARKLE_SPREAD && 0 <= k < DIRECTIONS && r == #[trigger] rocket.pos.plus(
                polar(m, k),
            ),
        -(APEX_DEPTH + SPARKLE_SPREAD) <= r.x <= MAX_EXTENT + SPARKLE_SPREAD,
        -(APEX_DEPTH + SPARKLE_SPREAD) <= r.y <= MAX_EXTENT + GRAVITY_Y + SPARKLE_SPREAD,
{
    let d = rng.below(4_900_000_000);
    let root = isqrt(d);
    assert(root < 70_000) by (nonlinear_arith)
        requires
            root * root <= d,
            d < 4_900_000_000,
    ;
    let m = root as i64;
    let ghost s0 = rng@;
    let offset = TwoVec::random(m, rng);
    let ghost k = crate::rng::below_of(s0, DIRECTIONS as int);
    proof {
        lemma_polar_bound(m as int, k);
    }
    let r = rocket.pos.add(&offset);
    assert(r == rocket.pos.plus(polar(m as int, k)));
    r
}

/// A particle at `origin` moving at a speed of `radius` to `radius + 0.5`
/// pixels per step, plus the rocket's velocity.
fn spawn_moving(rocket: Particle, origin: TwoVec, radius: i64, rng: &mut Rng) -> (p: Particle)
    requires
        at_apex(rocket),
        1500 <= radius < 3000,
        -(APEX_DEPTH + SPARKLE_SPREAD) <= origin.x <= MAX_EXTENT + SPARKLE_SPREAD,
        -(APEX_DEPTH + SPARKLE_SPREAD) <= origin.y <= MAX_EXTENT + GRAVITY_Y + SPARKLE_SPREAD,
    ensures
        p.acc == TwoVec::zero_spec(),
        p.pos == origin,
        flung(p, 1500, 3500, rocket.vel),
        spark_ok(p, 0),
{
    let speed: i64 = radius + rng.below(500) as i64;
    let ghost s1 = rng@;
    let mut p = Particle::random_at(origin, speed, rng);
    let ghost k = crate::rng::below_of(s1, DIRECTIONS as int);
    proof {
        lemma_polar_bound(speed as int, k);
    }
    let v = p.vel.add(&rocket.vel);
    p.set_vel(v);
    assert(p.vel == polar(speed as int, k).plus(rocket.vel));
    p
}

pub struct Firework {
    style: Style,
    rocket: Particle,
    exploded: bool,
    particles: Vec<Particle>,
    phases: Vec<u64>,
    first_colour: Colour,
    second_colour: Colour,
    lifetime: u32,
}

impl View for Firework {
    type V = FireworkView;

    closed spec fn view(&self) -> FireworkView {
        FireworkView {
            style: self.style,
            rocket: self.rocket,
            exploded: self.exploded,
            particles: self.particles@,
            phases: self.phases@,
            first_colour: self.first_colour,
            second_colour: self.second_colour,
            lifetime: self.lifetime,
        }
    }
}

impl Firework {
    /// A firework of the given style, launched from a random point of the
    /// bottom edge of a `width` by `height` canvas.
    pub fn new(style: Style, width: u32, height: u32, rng: &mut Rng) -> (r: Firework)
        ensures
            r@.style == style,
            launched(r@, width, height),
    {
        let mut f = Firework {
            style,
            rocket: Particle::new(TwoVec::zero(), TwoVec::zero()),
            exploded: false,
            particles: Vec::new(),
            phases: Vec::new(),
            first_colour: (0, 0, 0),
            second_colour: (0, 0, 0),
            lifetime: PARTICLE_LIFETIME,
        };
        f.reset(width, height, rng);
        f
    }

    /// Launches the firework again: a new rocket on the bottom edge, no
    /// burst, new colours, and a full lifetime.
    pub fn reset(&mut self, width: u32, height: u32, rng: &mut Rng)
        ensures
            final(self)@.style == old(self)@.style,
            launched(final(self)@, width, height),
    {
        let (vel_min, vel_max) = vel_min_max(height);
        let x: i64 = if width > 0 {
            rng.below(width as u64 * 1000) as i64
        } else {
            0
        };
        let spread = (vel_min - vel_max) as u64;
        let vy = vel_min - rng.below(spread + 1) as i64;
        self.rocket = Particle::new(TwoVec::new(x, height as i64 * SCALE), TwoVec::new(0, vy));
        self.reset_explosion(rng);
        proof {
            assert(rocket_ok(self.rocket));
        }
    }

    /// Bursts the rocket into the style's field of particles.
    fn explode(&mut self, rng: &mut Rng)
        requires
            !old(self).exploded,
            old(self).lifetime == PARTICLE_LIFETIME,
            old(self).particles@.len() == 0,
            old(self).phases@.len() == 0,
            at_apex(old(self).rocket),
        ensures
            final(self)@ == (FireworkView {
                exploded: true,
                particles: final(self)@.particles,
                phases: final(self)@.phases,
                ..old(self)@
            }),
            final(self)@.particles.len() == burst_size(old(self).style),
            forall|i: int|
                0 <= i < final(self)@.particles.len() ==> born(
                    old(self).style,
                    old(self).rocket,
                    #[trigger] final(self)@.particles[i],
                ),
            firework_wf(final(self)@),
    {
        let rocket = self.rocket;
        let style = self.style;
        let count = if style == Style::Sparkle {
            SPARKLE_COUNT
        } else {
            PARTICLE_COUNT
        };
        let radius: i64 = 1500 + rng.below(1500) as i64;
        let mut particles: Vec<Particle> = Vec::new();
        let mut i: u64 = 0;
        while i < count
            invariant
                rocket == self.rocket,
                at_apex(rocket),
                style == self.style,
                count == burst_size(style),
                1500 <= radius < 3000,
                i <= count,
                particles@.len() == i,
                forall|j: int|
                    0 <= j < i ==> born(style, rocket, #[trigger] particles@[j]) && spark_ok(
                        particles@[j],
                        0,
                    ),
            decreases count - i,
        {
            let p = self.spawn(rocket, radius, rng);
            particles.push(p);
            i = i + 1;
        }
        let mut phases: Vec<u64> = Vec::new();
        if style == Style::Sparkle {
            let mut j: u64 = 0;
            while j < count
                invariant
                    j <= count,
                    phases@.len() == j,
                    forall|k: int| 0 <= k < j ==> #[trigger] phases@[k] < PHASE_RANGE,
                decreases count - j,
            {
                phases.push(rng.below(PHASE_RANGE));
                j = j + 1;
            }
        }
        self.particles = particles;
        self.phases = phases;
        self.exploded = true;
    }

    /// One particle of this firework's burst from `rocket`.
    fn spawn(&self, rocket: Particle, radius: i64, rng: &mut Rng) -> (p: Particle)
        requires
            at_apex(rocket),
            1500 <= radius < 3000,
        ensures
            born(self.style, rocket, p),
            spark_ok(p, 0),
    {
        match self.style {
            Style::Standard => spawn_still(rocket, rng),
            Style::ColourShift => spawn_moving(rocket, rocket.pos, radius, rng),
            Style::Sparkle => {
                let origin = scatter(rocket, rng);
                spawn_moving(rocket, origin, radius, rng)
            },
        }
    }

    /// Moves the burst on by one step and launches again when it has burnt out.
    fn sim_explosion(&mut self, width: u32, height: u32, rng: &mut Rng)
        requires
            firework_wf(old(self)@),
            old(self).exploded,
        ensures
            step_post(old(self)@, final(self)@, width, height),
            firework_wf(final(self)@),
    {
        assert(1 <= self.lifetime);
        if self.style != Style::Sparkle {
            let mut ps: Vec<Particle> = Vec::new();
            std::mem::swap(&mut ps, &mut self.particles);
            let ghost before = ps@;
            let ghost a = age(old(self)@);
            assert forall|j: int| 0 <= j < before.len() implies spark_ok(#[trigger] before[j], a) by {
                assert(old(self)@.particles[j] == before[j]);
            }
            let n = ps.len();
            let mut i: usize = 0;
            while i < n
                invariant
                    n == ps@.len(),
                    n == before.len(),
                    i <= n,
                    0 <= a < PARTICLE_LIFETIME,
                    forall|j: int| 0 <= j < n ==> spark_ok(#[trigger] before[j], a),
                    forall|j: int|
                        0 <= j < i ==> #[trigger] ps@[j] == before[j].pushed(gravity_spec()).stepped()
                            && spark_ok(ps@[j], a + 1),
                    forall|j: int| i <= j < n ==> #[trigger] ps@[j] == before[j],
                decreases n - i,
            {
                let mut p = ps[i];
                assert(spark_ok(before[i as int], a));
                p.apply_force(gravity());
                p.step();
                ps.set(i, p);
                i = i + 1;
            }
            self.particles = ps;
        }
        self.lifetime = self.lifetime - 1;
        if self.lifetime == 0 {
            self.reset(width, height, rng);
        }
    }

    /// Advances the firework by one step on a `width` by `height` canvas.
    pub fn step(&mut self, width: u32, height: u32, rng: &mut Rng)
        requires
            firework_wf(old(self)@),
        ensures
            step_post(old(self)@, final(self)@, width, height),
            firework_wf(final(self)@),
    {
        if !self.exploded {
            self.rocket.apply_force(gravity());
            self.rocket.step();
            if self.rocket.vel.y > ROCKET_EXPLODE_SPEED {
                self.explode(rng);
            }
        } else {
            self.sim_explosion(width, height, rng);
        }
    }

    /// Appends to `out` the dots that paint this firework.
    pub fn draw(&self, out: &mut Vec<Dot>)
        requires
            firework_wf(self@),
        ensures
            final(out)@ == old(out)@ + firework_dots(self@),
    {
        if !self.exploded {
            self.rocket.draw(ORANGE, 23, out);
            proof {
                assert(final(out)@ =~= old(out)@ + firework_dots(self@));
            }
            return;
        }
        let ghost start = out@;
        let l = self.lifetime;
        let l64 = l as u64;
        assert(l64 * l64 <= 4900) by (nonlinear_arith)
            requires
                l64 <= 70,
        ;
        assert(l64 * l64 * 1000 / 4900 <= 1000) by (nonlinear_arith)
            requires
                l64 * l64 <= 4900,
        ;
        let fade = (l64 * 1000 / 70) as u32;
        let square_fade = (l64 * l64 * 1000 / 4900) as u32;
        let colour = match self.style {
            Style::Standard => self.first_colour,
            Style::ColourShift => colour_shift_mix(&self.first_colour, &self.second_colour, l),
            Style::Sparkle => SPARKLE_COLOUR,
        };
        let n = self.particles.len();
        let mut i: usize = 0;
        while i < n
            invariant
                firework_wf(self@),
                self.exploded,
                n == self@.particles.len(),
                i <= n,
                l == self.lifetime,
                fade <= 1000,
                square_fade <= 1000,
                fade as int == fade_permille(self.lifetime as int),
                square_fade as int == square_fade_permille(self.lifetime as int),
                self.style == Style::Standard ==> colour == self.first_colour,
                self.style == Style::ColourShift ==> colour == mixed_colour(
                    self.first_colour,
                    self.second_colour,
                    self.lifetime as int,
                ),
                self.style == Style::Sparkle ==> colour == SPARKLE_COLOUR,
                out@ =~= start + Seq::new(i as nat, |j: int| burst_dot(self@, j)),
            decreases n - i,
        {
            let p = self.particles[i];
            let ghost pre = out@;
            match self.style {
                Style::Standard => p.draw_rgba(colour, Alpha::Permille(fade), 24, out),
                Style::ColourShift => p.draw_rgba(colour, Alpha::Permille(square_fade), 24, out),
                Style::Sparkle => p.draw_rgba(
                    colour,
                    Alpha::Twinkle { permille: fade, lifetime: l, phase: self.phases[i] },
                    15,
                    out,
                ),
            }
            assert(p == self@.particles[i as int]);
            assert(self.style == Style::Sparkle ==> i < self@.phases.len());
            assert(out@.last() == burst_dot(self@, i as int));
            assert(out@ =~= pre.push(burst_dot(self@, i as int)));
            i = i + 1;
        }
    }

    pub fn style(&self) -> (r: Style)
        ensures
            r == self@.style,
    {
        self.style
    }

    pub fn rocket(&self) -> (r: &Particle)
        ensures
            *r == self@.rocket,
    {
        &self.rocket
    }

    pub fn exploded(&self) -> (r: bool)
        ensures
            r == self@.exploded,
    {
        self.exploded
    }

    pub fn particles(&self) -> (r: &Vec<Particle>)
        ensures
            r@ == self@.particles,
    {
        &self.particles
    }

    pub fn phases(&self) -> (r: &Vec<u64>)
        ensures
            r@ == self@.phases,
    {
        &self.phases
    }

    pub fn lifetime(&self) -> (r: u32)
        ensures
            r == self@.lifetime,
    {
        self.lifetime
    }

    pub fn colours(&self) -> (r: (Colour, Colour))
        ensures
            r == (self@.first_colour, self@.second_colour),
    {
        (self.first_colour, self.second_colour)
    }

    /// Clears the burst and draws the style's colours anew.
    fn reset_explosion(&mut self, rng: &mut Rng)
        ensures
            final(self).rocket == old(self).rocket,
            final(self).style == old(self).style,
            !final(self).exploded,
            final(self).particles@.len() == 0,
            final(self).phases@.len() == 0,
            final(self).lifetime == PARTICLE_LIFETIME,
            final(self).style != Style::Sparkle ==> is_random_colour(final(self).first_colour),
            final(self).style == Style::ColourShift ==> is_random_colour(final(self).second_colour),
    {
        self.exploded = false;
        self.particles = Vec::new();
        self.phases = Vec::new();
        match self.style {
            Style::Standard => {
                self.first_colour = random_colour(rng);
            },
            Style::ColourShift => {
                self.first_colour = random_colour(rng);
                self.second_colour = random_colour(rng);
            },
            Style::Sparkle => {},
        }
        self.lifetime = PARTICLE_LIFETIME;
    }
}

} // verus!

verus! {

/// While a rocket climbs its lifetime stays full; once it has burst, each
/// step takes one off the lifetime, and the step that takes the last one
/// launches the firework again with the full lifetime.
pub proof fn lemma_lifetime_counts_down(old: FireworkView, new: FireworkView, width: u32, height: u32)
    requires
        firework_wf(old),
        step_post(old, new, width, height),
    ensures
        !old.exploded ==> new.lifetime == old.lifetime && old.lifetime == PARTICLE_LIFETIME,
        old.exploded ==> old.lifetime >= 1,
        old.exploded && old.lifetime > 1 ==> new.exploded && new.lifetime == old.lifetime - 1,
        old.exploded && old.lifetime == 1 ==> !new.exploded && new.lifetime == PARTICLE_LIFETIME,
{
}

/// A climbing rocket that is at or below the burst threshold bursts in a
/// step exactly when gravity lifts its vertical velocity above the threshold.
pub proof fn lemma_bursts_at_apex(old: FireworkView, new: FireworkView, width: u32, height: u32)
    requires
        firework_wf(old),
        step_post(old, new, width, height),
        !old.exploded,
        old.rocket.vel.y <= ROCKET_EXPLODE_SPEED,
    ensures
        new.rocket.vel.y == old.rocket.vel.y + GRAVITY_Y,
        new.exploded <==> new.rocket.vel.y > ROCKET_EXPLODE_SPEED,
{
}

/// A burst firework never bursts anew: it stays burst or is launched again.
pub proof fn lemma_no_burst_after_burst(old: FireworkView, new: FireworkView, width: u32, height: u32)
    requires
        firework_wf(old),
        step_post(old, new, width, height),
        old.exploded,
        new.exploded,
    ensures
        new.lifetime == old.lifetime - 1,
        new.rocket == old.rocket,
{
}

/// When a burst burns out the firework is left as a fresh launch leaves one
/// of its style: not burst, no particles, the full lifetime.
pub proof fn lemma_reset_is_fresh(
    old: FireworkView,
    new: FireworkView,
    fresh: FireworkView,
    width: u32,
    height: u32,
)
    requires
        firework_wf(old),
        step_post(old, new, width, height),
        old.exploded,
        old.lifetime == 1,
        launched(fresh, width, height),
        fresh.style == old.style,
    ensures
        launched(new, width, height),
        firework_wf(new),
        !new.exploded,
        new.particles.len() == 0,
        new.style == fresh.style,
        new.exploded == fresh.exploded,
        new.particles == fresh.particles,
        new.phases == fresh.phases,
        new.lifetime == fresh.lifetime,
{
    assert(new.particles =~= fresh.particles);
    assert(new.phases =~= fresh.phases);
}

/// A sparkling burst does not move: a step that keeps it burning leaves every
/// particle where it was.
pub proof fn lemma_sparkle_stays(old: FireworkView, new: FireworkView, width: u32, height: u32)
    requires
        firework_wf(old),
        step_post(old, new, width, height),
        old.style == Style::Sparkle,
        old.exploded,
        new.exploded,
    ensures
        new.particles.len() == old.particles.len(),
        forall|i: int| 0 <= i < old.particles.len() ==> #[trigger] new.particles[i].pos == old.particles[i].pos,
{
}

} // verus!
