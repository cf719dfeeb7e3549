//! The scene: background stars and a growing set of fireworks on a canvas.
use vstd::prelude::*;

use crate::colour::YELLOW;
use crate::dot::{Alpha, Dot};
use crate::firework::{
    firework_dots, firework_wf, launched, step_post, Firework, FireworkView, Style,
};
use crate::rng::Rng;
use crate::sim::{Particle, TwoVec, SCALE};

verus! {

/// Stars made by `init`.
pub const STAR_COUNT: u32 = 20;

/// Radius of a star, in tenths of a pixel.
pub const STAR_RADIUS: u32 = 20;

/// What a scene is, as seen by contracts.
pub struct GraphicsView {
    pub width: u32,
    pub height: u32,
    pub stars: Seq<Particle>,
    pub fireworks: Seq<FireworkView>,
}

/// A star: a still point on the canvas.
pub open spec fn star_ok(p: Particle, width: u32, height: u32) -> bool {
    &&& p.vel == TwoVec::zero_spec()
    &&& p.acc == TwoVec::zero_spec()
    &&& 0 <= p.pos.x <= width as int * SCALE
    &&& 0 <= p.pos.y <= height as int * SCALE
}

/// The invariant of a scene.
pub open spec fn graphics_wf(v: GraphicsView) -> bool {
    &&& forall|i: int| 0 <= i < v.stars.len() ==> star_ok(#[trigger] v.stars[i], v.width, v.height)
    &&& forall|i: int| 0 <= i < v.fireworks.len() ==> firework_wf(#[trigger] v.fireworks[i])
}

/// The style of the firework spawned when `n` are already there: the styles
/// take turns.
pub open spec fn style_for(n: int) -> Style {
    if n % 3 == 0 {
        Style::Standard
    } else if n % 3 == 1 {
        Style::ColourShift
    } else {
        Style::Sparkle
    }
}

/// A coordinate scaled by `new / old`, rounded down; zero where `old` is zero.
pub open spec fn rescaled(c: int, new: int, old: int) -> int {
    if old == 0 {
        0
    } else {
        c * new / old
    }
}

/// The dot that paints a star.
pub open spec fn star_dot(p: Particle) -> Dot {
    Dot { x: p.pos.x, y: p.pos.y, colour: YELLOW, alpha: Alpha::Permille(1000), radius: STAR_RADIUS }
}

/// The dots of the fireworks, in order.
pub open spec fn fireworks_dots(fs: Seq<FireworkView>) -> Seq<Dot>
    decreases fs.len(),
{
    if fs.len() == 0 {
        Seq::empty()
    } else {
        fireworks_dots(fs.drop_last()) + firework_dots(fs.last())
    }
}

/// What a scene paints: the stars, then each firework in turn.
pub open spec fn scene_dots(v: GraphicsView) -> Seq<Dot> {
    Seq::new(v.stars.len(), |i: int| star_dot(v.stars[i])) + fireworks_dots(v.fireworks)
}

pub struct Graphics {
    width: u32,
    height: u32,
    stars: Vec<Particle>,
    fireworks: Vec<Firework>,
    rng: Rng,
}

impl View for Graphics {
    type V = GraphicsView;

    closed spec fn view(&self) -> GraphicsView {
        GraphicsView {
            width: self.width,
            height: self.height,
            stars: self.stars@,
            fireworks: self.fireworks@.map_values(|f: Firework| f@),
        }
    }
}

fn rescale(c: i64, new: u32, old: u32) -> (r: i64)
    requires
        0 <= c <= old as int * SCALE,
    ensures
        r == rescaled(c as int, new as int, old as int),
        0 <= r <= new as int * SCALE,
{
    if old == 0 {
        return 0;
    }
    let ghost cc = c as int;
    let ghost n = new as int;
    let ghost o = old as int;
    assert(cc * n <= (n * 1000) * o) by (nonlinear_arith)
        requires
            0 <= cc <= o * 1000,
            0 <= n,
    ;
    assert(cc * n / o <= n * 1000) by (nonlinear_arith)
        requires
            cc * n <= (n * 1000) * o,
            0 < o,
            0 <= cc * n,
    ;
    assert(0 <= cc * n / o) by (nonlinear_arith)
        requires
            0 <= cc,
            0 <= n,
            0 < o,
    ;
    assert(c as u128 * new as u128 <= 0xFFFF_FFFF_FFFF_FFFF * 0xFFFF_FFFF) by (nonlinear_arith)
        requires
            0 <= c <= 0xFFFF_FFFF_FFFF_FFFF,
            new <= 0xFFFF_FFFF,
    ;
    (c as u128 * new as u128 / old as u128) as i64
}

impl Graphics {
    /// An empty scene on a `width` by `height` canvas, its random draws
    /// starting from `seed`.
    pub fn new(width: u32, height: u32, seed: u64) -> (r: Graphics)
        ensures
            r@.width == width,
            r@.height == height,
            r@.stars.len() == 0,
            r@.fireworks.len() == 0,
            graphics_wf(r@),
    {
        let r = Graphics { width, height, stars: Vec::new(), fireworks: Vec::new(), rng: Rng::new(seed) };
        assert(r@.fireworks.len() == 0);
        r
    }

    /// Takes on a new canvas size: each star's coordinates are scaled by the
    /// ratio of the new size to the old; fireworks keep their coordinates.
    pub fn resize(&mut self, width: u32, height: u32)
        requires
            graphics_wf(old(self)@),
        ensures
            final(self)@.width == width,
            final(self)@.height == height,
            final(self)@.fireworks == old(self)@.fireworks,
            final(self)@.stars.len() == old(self)@.stars.len(),
            forall|i: int|
                0 <= i < old(self)@.stars.len() ==> #[trigger] final(self)@.stars[i] == (Particle {
                    pos: TwoVec {
                        x: rescaled(old(self)@.stars[i].pos.x as int, width as int, old(self)@.width as int) as i64,
                        y: rescaled(old(self)@.stars[i].pos.y as int, height as int, old(self)@.height as int) as i64,
                    },
                    ..old(self)@.stars[i]
                }),
            graphics_wf(final(self)@),
    {
        let mut stars: Vec<Particle> = Vec::new();
        std::mem::swap(&mut stars, &mut self.stars);
        let ghost before = stars@;
        let (ow, oh) = (self.width, self.height);
        let n = stars.len();
        let mut i: usize = 0;
        while i < n
            invariant
                n == stars@.len(),
                n == before.len(),
                i <= n,
                forall|j: int| 0 <= j < n ==> star_ok(#[trigger] before[j], ow, oh),
                forall|j: int| i <= j < n ==> #[trigger] stars@[j] == before[j],
                forall|j: int|
                    0 <= j < i ==> #[trigger] stars@[j] == (Particle {
                        pos: TwoVec {
                            x: rescaled(before[j].pos.x as int, width as int, ow as int) as i64,
                            y: rescaled(before[j].pos.y as int, height as int, oh as int) as i64,
                        },
                        ..before[j]
                    }) && star_ok(stars@[j], width, height),
            decreases n - i,
        {
            let mut p = stars[i];
            assert(star_ok(before[i as int], ow, oh));
            let x = rescale(p.pos.x, width, ow);
            let y = rescale(p.pos.y, height, oh);
            p.set_pos(TwoVec::new(x, y));
            stars.set(i, p);
            i = i + 1;
        }
        self.stars = stars;
        self.width = width;
        self.height = height;
        assert forall|j: int| 0 <= j < self@.fireworks.len() implies firework_wf(#[trigger] self@.fireworks[j]) by {
            assert(self@.fireworks[j] == old(self)@.fireworks[j]);
        }
    }

    /// Scatters `STAR_COUNT` stars over the canvas.
    pub fn init(&mut self)
        requires
            graphics_wf(old(self)@),
        ensures
            final(self)@.width == old(self)@.width,
            final(self)@.height == old(self)@.height,
            final(self)@.fireworks == old(self)@.fireworks,
            final(self)@.stars.len() == old(self)@.stars.len() + STAR_COUNT,
            final(self)@.stars.subrange(0, old(self)@.stars.len() as int) == old(self)@.stars,
            graphics_wf(final(self)@),
    {
        self.create_stars(STAR_COUNT);
    }

    /// Adds `count` stars at random points of the canvas.
    fn create_stars(&mut self, count: u32)
        requires
            graphics_wf(old(self)@),
        ensures
            final(self)@.width == old(self)@.width,
            final(self)@.height == old(self)@.height,
            final(self)@.fireworks == old(self)@.fireworks,
            final(self)@.stars.len() == old(self)@.stars.len() + count,
            final(self)@.stars.subrange(0, old(self)@.stars.len() as int) == old(self)@.stars,
            graphics_wf(final(self)@),
    {
        let mut stars: Vec<Particle> = Vec::new();
        std::mem::swap(&mut stars, &mut self.stars);
        let ghost before = stars@;
        let (w, h) = (self.width as u64 * 1000, self.height as u64 * 1000);
        assert forall|j: int| 0 <= j < stars@.len() implies star_ok(#[trigger] stars@[j], self.width, self.height) by {
            assert(old(self)@.stars[j] == stars@[j]);
        }
        let mut k: u32 = 0;
        while k < count
            invariant
                self.width == old(self).width,
                self.height == old(self).height,
                self.fireworks == old(self).fireworks,
                w == self.width as int * SCALE,
                h == self.height as int * SCALE,
                k <= count,
                stars@.len() == before.len() + k,
                stars@.subrange(0, before.len() as int) == before,
                forall|j: int|
                    0 <= j < stars@.len() ==> star_ok(#[trigger] stars@[j], self.width, self.height),
            decreases count - k,
        {
            let x = if w > 0 {
                self.rng.below(w)
            } else {
                0
            };
            let y = if h > 0 {
                self.rng.below(h)
            } else {
                0
            };
            let star = Particle::new(TwoVec::new(x as i64, y as i64), TwoVec::zero());
            let ghost prev = stars@;
            stars.push(star);
            assert(stars@.subrange(0, before.len() as int) =~= prev.subrange(0, before.len() as int));
            k = k + 1;
        }
        self.stars = stars;
    }

    /// Adds a freshly launched firework; the styles take turns.
    pub fn spawn_firework(&mut self)
        requires
            graphics_wf(old(self)@),
        ensures
            final(self)@.width == old(self)@.width,
            final(self)@.height == old(self)@.height,
            final(self)@.stars == old(self)@.stars,
            final(self)@.fireworks.len() == old(self)@.fireworks.len() + 1,
            final(self)@.fireworks.drop_last() == old(self)@.fireworks,
            final(self)@.fireworks.last().style == style_for(old(self)@.fireworks.len() as int),
            launched(final(self)@.fireworks.last(), old(self)@.width, old(self)@.height),
            graphics_wf(final(self)@),
    {
        let n = self.fireworks.len();
        let style = if n % 3 == 0 {
            Style::Standard
        } else if n % 3 == 1 {
            Style::ColourShift
        } else {
            Style::Sparkle
        };
        let f = Firework::new(style, self.width, self.height, &mut self.rng);
        self.fireworks.push(f);
        assert(self@.fireworks.drop_last() =~= old(self)@.fireworks);
        assert forall|j: int| 0 <= j < self@.fireworks.len() implies firework_wf(#[trigger] self@.fireworks[j]) by {
            if j < n {
                assert(self@.fireworks[j] == old(self)@.fireworks[j]);
            }
        }
        assert forall|j: int| 0 <= j < self@.stars.len() implies star_ok(#[trigger] self@.stars[j], self.width, self.height) by {
            assert(self@.stars[j] == old(self)@.stars[j]);
        }
    }

    /// Advances every firework by one step.
    pub fn step(&mut self)
        requires
            graphics_wf(old(self)@),
        ensures
            final(self)@.width == old(self)@.width,
            final(self)@.height == old(self)@.height,
            final(self)@.stars == old(self)@.stars,
            final(self)@.fireworks.len() == old(self)@.fireworks.len(),
            forall|i: int|
                0 <= i < old(self)@.fireworks.len() ==> step_post(
                    old(self)@.fireworks[i],
                    #[trigger] final(self)@.fireworks[i],
                    old(self)@.width,
                    old(self)@.height,
                ),
            graphics_wf(final(self)@),
    {
        let mut fs: Vec<Firework> = Vec::new();
        std::mem::swap(&mut fs, &mut self.fireworks);
        let ghost before = fs@.map_values(|f: Firework| f@);
        let (w, h) = (self.width, self.height);
        let n = fs.len();
        let mut i: usize = 0;
        while i < n
            invariant
                w == self.width,
                h == self.height,
                self.stars == old(self).stars,
                n == fs@.len(),
                n == before.len(),
                i <= n,
                forall|j: int| 0 <= j < n ==> firework_wf(#[trigger] before[j]),
                forall|j: int| i <= j < n ==> #[trigger] fs@[j]@ == before[j],
                forall|j: int|
                    0 <= j < i ==> step_post(before[j], #[trigger] fs@[j]@, w, h) && firework_wf(
                        fs@[j]@,
                    ),
            decreases n - i,
        {
            assert(fs@[i as int]@ == before[i as int]);
            fs[i].step(w, h, &mut self.rng);
            i = i + 1;
        }
        self.fireworks = fs;
        assert(self@.fireworks.len() == n);
    }

    /// The dots that paint the scene: the stars, then the fireworks.
    pub fn draw(&self) -> (r: Vec<Dot>)
        requires
            graphics_wf(self@),
        ensures
            r@ == scene_dots(self@),
    {
        let mut out: Vec<Dot> = Vec::new();
        let ns = self.stars.len();
        let mut i: usize = 0;
        while i < ns
            invariant
                ns == self@.stars.len(),
                i <= ns,
                out@ =~= Seq::new(i as nat, |j: int| star_dot(self@.stars[j])),
            decreases ns - i,
        {
            let p = self.stars[i];
            p.draw(YELLOW, STAR_RADIUS, &mut out);
            i = i + 1;
        }
        let ghost star_part = out@;
        let ghost fs = self@.fireworks;
        let nf = self.fireworks.len();
        let mut k: usize = 0;
        while k < nf
            invariant
                graphics_wf(self@),
                fs == self@.fireworks,
                nf == fs.len(),
                k <= nf,
                out@ == star_part + fireworks_dots(fs.subrange(0, k as int)),
            decreases nf - k,
        {
            assert(fs.subrange(0, k as int + 1).drop_last() =~= fs.subrange(0, k as int));
            assert(firework_wf(fs[k as int]));
            self.fireworks[k].draw(&mut out);
            k = k + 1;
            assert(out@ =~= star_part + fireworks_dots(fs.subrange(0, k as int)));
        }
        assert(fs.subrange(0, nf as int) =~= fs);
        out
    }

    pub fn width(&self) -> (r: u32)
        ensures
            r == self@.width,
    {
        self.width
    }

    pub fn height(&self) -> (r: u32)
        ensures
            r == self@.height,
    {
        self.height
    }

    pub fn stars(&self) -> (r: &Vec<Particle>)
        ensures
            r@ == self@.stars,
    {
        &self.stars
    }

    pub fn fireworks(&self) -> (r: &Vec<Firework>)
        ensures
            r@.map_values(|f: Firework| f@) == self@.fireworks,
    {
        &self.fireworks
    }
}

} // verus!
