use fireworks::colour::YELLOW;
use fireworks::dot::Alpha;
use fireworks::firework::Style;
use fireworks::graphics::{Graphics, STAR_COUNT, STAR_RADIUS};
use fireworks::sim::TwoVec;

#[test]
fn init_scatters_still_stars() {
    let mut g = Graphics::new(800, 600, 1);
    g.init();
    assert_eq!(g.stars().len(), STAR_COUNT as usize);
    for s in g.stars() {
        assert!(s.pos().x() >= 0 && s.pos().x() < 800_000);
        assert!(s.pos().y() >= 0 && s.pos().y() < 600_000);
        assert_eq!(s.vel(), TwoVec::zero());
    }
}

#[test]
fn spawn_rotates_styles() {
    let mut g = Graphics::new(800, 600, 2);
    for _ in 0..6 {
        g.spawn_firework();
    }
    let styles: Vec<Style> = g.fireworks().iter().map(|f| f.style()).collect();
    assert_eq!(
        styles,
        vec![
            Style::Standard,
            Style::ColourShift,
            Style::Sparkle,
            Style::Standard,
            Style::ColourShift,
            Style::Sparkle
        ]
    );
}

#[test]
fn resize_scales_stars() {
    let mut g = Graphics::new(800, 600, 3);
    g.init();
    let before: Vec<_> = g.stars().iter().map(|s| s.pos()).collect();
    g.resize(400, 1200);
    assert_eq!((g.width(), g.height()), (400, 1200));
    for (old, s) in before.iter().zip(g.stars()) {
        assert_eq!(s.pos().x(), old.x() / 2);
        assert_eq!(s.pos().y(), old.y() * 2);
    }
}

#[test]
fn resize_from_empty_canvas() {
    let mut g = Graphics::new(0, 0, 3);
    g.init();
    g.resize(100, 100);
    for s in g.stars() {
        assert_eq!(s.pos(), TwoVec::zero());
    }
}

#[test]
fn draw_paints_stars_then_fireworks() {
    let mut g = Graphics::new(800, 600, 4);
    g.init();
    g.spawn_firework();
    g.spawn_firework();
    let dots = g.draw();
    assert_eq!(dots.len(), STAR_COUNT as usize + 2);
    for (d, s) in dots.iter().zip(g.stars()) {
        assert_eq!((d.x, d.y), (s.pos().x(), s.pos().y()));
        assert_eq!(d.colour, YELLOW);
        assert_eq!(d.radius, STAR_RADIUS);
        assert_eq!(d.alpha, Alpha::Permille(1000));
    }
}

#[test]
fn scene_runs_through_many_cycles() {
    let mut g = Graphics::new(1280, 720, 5);
    g.init();
    for _ in 0..3 {
        g.spawn_firework();
    }
    let mut bursts = 0;
    for _ in 0..2000 {
        let was: Vec<bool> = g.fireworks().iter().map(|f| f.exploded()).collect();
        g.step();
        for (w, f) in was.iter().zip(g.fireworks()) {
            if !w && f.exploded() {
                bursts += 1;
            }
        }
        let dots = g.draw();
        let expected: usize = STAR_COUNT as usize
            + g
                .fireworks()
                .iter()
                .map(|f| if f.exploded() { f.particles().len() } else { 1 })
                .sum::<usize>();
        assert_eq!(dots.len(), expected);
    }
    assert!(bursts >= 3);
}
