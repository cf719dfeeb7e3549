use fireworks::colour::{colour_add, colour_mul, random_colour};
use fireworks::dot::{Alpha, Dot};
use fireworks::rng::Rng;
use fireworks::sim::{Particle, TwoVec};

#[test]
fn force_then_step_is_semi_implicit_euler() {
    let mut p = Particle::new(TwoVec::new(100, -40), TwoVec::new(3, -7));
    p.apply_force(TwoVec::new(5, 70));
    p.step();
    assert_eq!(p.acc(), TwoVec::zero());
    assert_eq!(p.vel(), TwoVec::new(8, 63));
    assert_eq!(p.pos(), TwoVec::new(108, 23));
}

#[test]
fn forces_accumulate_before_a_step() {
    let mut p = Particle::new(TwoVec::zero(), TwoVec::zero());
    p.apply_force(TwoVec::new(1, 2));
    p.apply_force(TwoVec::new(10, 20));
    assert_eq!(p.acc(), TwoVec::new(11, 22));
    p.step();
    assert_eq!(p.vel(), TwoVec::new(11, 22));
    assert_eq!(p.pos(), TwoVec::new(11, 22));
    assert_eq!(p.acc(), TwoVec::zero());
}

#[test]
fn vector_arithmetic() {
    let a = TwoVec::new(3, -4);
    let b = TwoVec::new(-10, 6);
    assert_eq!(a.add(&b), TwoVec::new(-7, 2));
    assert_eq!(a.sub(&b), TwoVec::new(13, -10));
    assert_eq!(a.mul(-3), TwoVec::new(-9, 12));
    assert_eq!(a.into_pair(), (3, -4));
    assert_eq!((a.x(), a.y()), (3, -4));
    let mut c = a;
    c.add_assign(&b);
    assert_eq!(c, TwoVec::new(-7, 2));
}

#[test]
fn polar_vectors_point_round_the_circle() {
    assert_eq!(TwoVec::polar(2000, 0), TwoVec::new(2000, 0));
    assert_eq!(TwoVec::polar(2000, 8), TwoVec::new(0, 2000));
    assert_eq!(TwoVec::polar(2000, 16), TwoVec::new(-2000, 0));
    assert_eq!(TwoVec::polar(2000, 24), TwoVec::new(0, -2000));
    assert_eq!(TwoVec::polar(1000, 4), TwoVec::new(707, 707));
    assert_eq!(TwoVec::polar(2000, 20), TwoVec::new(-1414, -1414));
}

#[test]
fn random_at_keeps_position_and_speed() {
    let mut rng = Rng::new(7);
    let pos = TwoVec::new(5000, 6000);
    for _ in 0..50 {
        let p = Particle::random_at(pos, 1000, &mut rng);
        assert_eq!(p.pos(), pos);
        assert_eq!(p.acc(), TwoVec::zero());
        let v = p.vel();
        let len2 = v.x() * v.x() + v.y() * v.y();
        assert!(len2 >= 990 * 990 && len2 <= 1001 * 1001, "{:?}", v);
    }
}

#[test]
fn setters_replace_one_field() {
    let mut p = Particle::new(TwoVec::new(1, 2), TwoVec::new(3, 4));
    p.set_pos(TwoVec::new(9, 9));
    p.set_vel(TwoVec::new(-1, -1));
    assert_eq!(p.pos(), TwoVec::new(9, 9));
    assert_eq!(p.vel(), TwoVec::new(-1, -1));
    assert_eq!(p.acc(), TwoVec::zero());
}

#[test]
fn generator_is_deterministic_and_bounded() {
    let mut a = Rng::new(42);
    let mut b = Rng::new(42);
    for _ in 0..100 {
        let x = a.below(17);
        assert_eq!(x, b.below(17));
        assert!(x < 17);
    }
    let mut c = Rng::new(0);
    let d = c.next_draw();
    assert_eq!(d, 1442695040888963407u64 >> 16);
}

#[test]
fn colour_add_wraps() {
    assert_eq!(colour_add(&(200, 10, 0), &(100, 10, 255)), (44, 20, 255));
}

#[test]
fn colour_mul_rounds_down() {
    assert_eq!(colour_mul(&(255, 100, 3), 1, 2), (127, 50, 1));
    assert_eq!(colour_mul(&(255, 100, 3), 0, 9), (0, 0, 0));
    assert_eq!(colour_mul(&(255, 100, 3), 9, 9), (255, 100, 3));
}

#[test]
fn random_colours_stay_below_255() {
    let mut rng = Rng::new(3);
    for _ in 0..200 {
        let c = random_colour(&mut rng);
        assert!(c.0 < 255 && c.1 < 255 && c.2 < 255);
    }
}

#[test]
fn random_colour_uses_three_draws() {
    let mut a = Rng::new(77);
    let c = random_colour(&mut a);
    let mut b = Rng::new(77);
    let expected = (b.below(255) as u8, b.below(255) as u8, b.below(255) as u8);
    assert_eq!(c, expected);
    assert_eq!(a.below(1000), b.below(1000));
}

#[test]
fn draw_rgba_holds_opacity_to_one() {
    let p = Particle::new(TwoVec::new(1500, 2500), TwoVec::zero());
    let mut out = Vec::new();
    p.draw_rgba((1, 2, 3), Alpha::Permille(1700), 24, &mut out);
    p.draw_rgba((1, 2, 3), Alpha::Permille(400), 24, &mut out);
    p.draw_rgba((1, 2, 3), Alpha::Twinkle { permille: 5000, lifetime: 3, phase: 9 }, 15, &mut out);
    p.draw((9, 9, 9), 20, &mut out);
    assert_eq!(
        out,
        vec![
            Dot { x: 1500, y: 2500, colour: (1, 2, 3), alpha: Alpha::Permille(1000), radius: 24 },
            Dot { x: 1500, y: 2500, colour: (1, 2, 3), alpha: Alpha::Permille(400), radius: 24 },
            Dot {
                x: 1500,
                y: 2500,
                colour: (1, 2, 3),
                alpha: Alpha::Twinkle { permille: 1000, lifetime: 3, phase: 9 },
                radius: 15
            },
            Dot { x: 1500, y: 2500, colour: (9, 9, 9), alpha: Alpha::Permille(1000), radius: 20 },
        ]
    );
}
