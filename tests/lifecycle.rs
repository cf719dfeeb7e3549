use fireworks::firework::{
    colour_shift_mix, isqrt, vel_min_max, Firework, Style, GRAVITY_Y, PARTICLE_COUNT,
    PARTICLE_LIFETIME, ROCKET_EXPLODE_SPEED, SPARKLE_COLOUR, SPARKLE_COUNT,
};
use fireworks::colour::ORANGE;
use fireworks::dot::Alpha;
use fireworks::rng::Rng;

fn climb_to_burst(f: &mut Firework, w: u32, h: u32, rng: &mut Rng) -> usize {
    let mut steps = 0;
    while !f.exploded() {
        f.step(w, h, rng);
        steps += 1;
        assert!(steps < 100_000);
    }
    steps
}

#[test]
fn standard_burst_on_800_by_600() {
    let mut rng = Rng::new(2024);
    let mut f = Firework::new(Style::Standard, 800, 600, &mut rng);
    assert!(!f.exploded());
    assert!(f.particles().is_empty());
    let mut vy = f.rocket().vel().y();
    while !f.exploded() {
        f.step(800, 600, &mut rng);
        assert_eq!(f.rocket().vel().y(), vy + GRAVITY_Y);
        vy = f.rocket().vel().y();
    }
    assert!(vy > ROCKET_EXPLODE_SPEED);
    assert_eq!(f.particles().len(), PARTICLE_COUNT as usize);
    assert_eq!(f.particles().len(), 20);
    for p in f.particles() {
        assert_eq!(p.pos(), f.rocket().pos());
    }
}

#[test]
fn launch_stands_on_bottom_edge() {
    let mut rng = Rng::new(5);
    let (slow, fast) = vel_min_max(600);
    assert_eq!((slow, fast), (-6123, -8164));
    for style in [Style::Standard, Style::ColourShift, Style::Sparkle] {
        let f = Firework::new(style, 800, 600, &mut rng);
        assert_eq!(f.style(), style);
        assert_eq!(f.lifetime(), PARTICLE_LIFETIME);
        let r = f.rocket();
        assert_eq!(r.pos().y(), 600_000);
        assert!(r.pos().x() >= 0 && r.pos().x() < 800_000);
        assert_eq!(r.vel().x(), 0);
        assert!(r.vel().y() <= slow && r.vel().y() >= fast);
    }
}

#[test]
fn integer_square_root() {
    assert_eq!(isqrt(0), 0);
    assert_eq!(isqrt(15), 3);
    assert_eq!(isqrt(16), 4);
    assert_eq!(isqrt(600_000_000), 24494);
    assert_eq!(isqrt(u64::MAX), 4294967295);
}

#[test]
fn lifetime_counts_down_then_resets() {
    let mut rng = Rng::new(11);
    let mut f = Firework::new(Style::ColourShift, 1024, 768, &mut rng);
    climb_to_burst(&mut f, 1024, 768, &mut rng);
    assert_eq!(f.lifetime(), PARTICLE_LIFETIME);
    for k in 1..PARTICLE_LIFETIME {
        f.step(1024, 768, &mut rng);
        assert!(f.exploded());
        assert_eq!(f.lifetime(), PARTICLE_LIFETIME - k);
    }
    assert_eq!(f.lifetime(), 1);
    f.step(1024, 768, &mut rng);
    assert!(!f.exploded());
    assert!(f.particles().is_empty());
    assert_eq!(f.lifetime(), PARTICLE_LIFETIME);
    assert_eq!(f.rocket().pos().y(), 768_000);
}

#[test]
fn reset_matches_a_fresh_firework() {
    let mut rng = Rng::new(99);
    let mut f = Firework::new(Style::Sparkle, 640, 480, &mut rng);
    climb_to_burst(&mut f, 640, 480, &mut rng);
    f.reset(640, 480, &mut rng);
    let fresh = Firework::new(Style::Sparkle, 640, 480, &mut rng);
    assert_eq!(f.exploded(), fresh.exploded());
    assert_eq!(f.particles().len(), fresh.particles().len());
    assert_eq!(f.phases().len(), 0);
    assert_eq!(f.lifetime(), fresh.lifetime());
    assert_eq!(f.style(), fresh.style());
}

#[test]
fn sparkle_burst_stays_still() {
    let mut rng = Rng::new(1);
    let mut f = Firework::new(Style::Sparkle, 800, 600, &mut rng);
    climb_to_burst(&mut f, 800, 600, &mut rng);
    assert_eq!(f.particles().len(), SPARKLE_COUNT as usize);
    assert_eq!(f.phases().len(), SPARKLE_COUNT as usize);
    let before: Vec<_> = f.particles().iter().map(|p| p.pos()).collect();
    for _ in 0..10 {
        f.step(800, 600, &mut rng);
        let now: Vec<_> = f.particles().iter().map(|p| p.pos()).collect();
        assert_eq!(now, before);
    }
    let origin = f.rocket().pos();
    for p in f.particles() {
        let dx = p.pos().x() - origin.x();
        let dy = p.pos().y() - origin.y();
        assert!(dx.abs() <= 70_000 && dy.abs() <= 70_000);
    }
}

#[test]
fn standard_burst_falls_under_gravity() {
    let mut rng = Rng::new(8);
    let mut f = Firework::new(Style::Standard, 800, 600, &mut rng);
    climb_to_burst(&mut f, 800, 600, &mut rng);
    let before: Vec<_> = f.particles().to_vec();
    f.step(800, 600, &mut rng);
    for (old, new) in before.iter().zip(f.particles()) {
        assert_eq!(new.vel().y(), old.vel().y() + GRAVITY_Y);
        assert_eq!(new.vel().x(), old.vel().x());
        assert_eq!(new.pos().x(), old.pos().x() + new.vel().x());
        assert_eq!(new.pos().y(), old.pos().y() + new.vel().y());
    }
}

#[test]
fn colour_shift_blend_endpoints() {
    let first = (10, 200, 30);
    let second = (250, 0, 90);
    assert_eq!(colour_shift_mix(&first, &second, PARTICLE_LIFETIME), second);
    assert_eq!(colour_shift_mix(&first, &second, 0), first);
    let halfway = colour_shift_mix(&first, &second, 35);
    assert_eq!(halfway, (12, 196, 30));
}

#[test]
fn climbing_rocket_draws_one_orange_dot() {
    let mut rng = Rng::new(4);
    let f = Firework::new(Style::Standard, 800, 600, &mut rng);
    let mut out = Vec::new();
    f.draw(&mut out);
    assert_eq!(out.len(), 1);
    assert_eq!(out[0].colour, ORANGE);
    assert_eq!(out[0].radius, 23);
    assert_eq!(out[0].alpha, Alpha::Permille(1000));
    assert_eq!((out[0].x, out[0].y), (f.rocket().pos().x(), f.rocket().pos().y()));
}

#[test]
fn burst_dots_fade_with_lifetime() {
    let mut rng = Rng::new(12);
    let mut f = Firework::new(Style::Standard, 800, 600, &mut rng);
    climb_to_burst(&mut f, 800, 600, &mut rng);
    for _ in 0..35 {
        f.step(800, 600, &mut rng);
    }
    assert_eq!(f.lifetime(), 35);
    let mut out = Vec::new();
    f.draw(&mut out);
    assert_eq!(out.len(), 20);
    for (d, p) in out.iter().zip(f.particles()) {
        assert_eq!(d.alpha, Alpha::Permille(500));
        assert_eq!(d.colour, f.colours().0);
        assert_eq!(d.radius, 24);
        assert_eq!((d.x, d.y), (p.pos().x(), p.pos().y()));
    }
}

#[test]
fn colour_shift_alpha_is_squared_fade() {
    let mut rng = Rng::new(13);
    let mut f = Firework::new(Style::ColourShift, 800, 600, &mut rng);
    climb_to_burst(&mut f, 800, 600, &mut rng);
    for _ in 0..35 {
        f.step(800, 600, &mut rng);
    }
    let mut out = Vec::new();
    f.draw(&mut out);
    let (first, second) = f.colours();
    assert_eq!(out[0].alpha, Alpha::Permille(250));
    assert_eq!(out[0].colour, colour_shift_mix(&first, &second, 35));
}

#[test]
fn sparkle_dots_twinkle() {
    let mut rng = Rng::new(14);
    let mut f = Firework::new(Style::Sparkle, 800, 600, &mut rng);
    climb_to_burst(&mut f, 800, 600, &mut rng);
    let mut out = Vec::new();
    f.draw(&mut out);
    assert_eq!(out.len(), 200);
    for (i, d) in out.iter().enumerate() {
        assert_eq!(d.colour, SPARKLE_COLOUR);
        assert_eq!(d.radius, 15);
        assert_eq!(
            d.alpha,
            Alpha::Twinkle { permille: 1000, lifetime: PARTICLE_LIFETIME, phase: f.phases()[i] }
        );
        assert!(f.phases()[i] < 10_000);
    }
}

#[test]
fn tiny_canvas_bursts_at_once() {
    let mut rng = Rng::new(6);
    let mut f = Firework::new(Style::Standard, 1, 1, &mut rng);
    f.step(1, 1, &mut rng);
    assert!(f.exploded());
    let mut g = Firework::new(Style::Standard, 0, 0, &mut rng);
    assert_eq!(g.rocket().pos().x(), 0);
    g.step(0, 0, &mut rng);
    assert!(g.exploded());
}
