use lunar_lander::game::{
    fall_speed, floor_sqrt, nearest_sqrt, Game, Moon, BILLION, FAR, G_SCALED, HALF_BILLION, MODIFIER,
};
use lunar_lander::lander::Lander;
use lunar_lander::palette::Shade;
use lunar_lander::particle::{Direction, Particle};
use lunar_lander::particles::Particles;
use lunar_lander::random::Spark;

const STEP: f64 = 1e-6;

fn game(point: (i64, i64), radius: u64) -> Game {
    Game {
        lander: Lander {
            delta: (0, 0),
            thrusters: (0, 0),
            size: (18_000_000, 15_000_000),
            point,
            color: Shade::White,
            mass: 15_103_000,
            fuel: 10_000_000_000,
            particles: Particles::new(),
        },
        moon: Moon { mass: 7_511_964, radius },
    }
}

#[test]
fn constants_are_newtons_and_the_tuning_factor() {
    assert_eq!(G_SCALED, 6673);
    assert_eq!(MODIFIER, 500_000_000);
    assert_eq!(FAR, 1i128 << 60);
}

#[test]
fn gravity_at_the_start_position_over_a_moon_without_radius() {
    let mut g = game((452_000_000, 100_000_000), 0);
    g.lunar_gravity(1_024_000_000, 768_000_000);
    assert_eq!(g.lander.delta, (0, 8_415_215));
}

#[test]
fn gravity_matches_the_closed_form() {
    let m1 = 15103.0f64;
    let m2 = 7511.964f64;
    let a = 1024.0f64 / 2.0 - 452.0;
    let b = 768.0f64 + 0.0 - 100.0;
    let d = (a * a + b * b).sqrt();
    let f_grav = 6.673e-11 * m1 * m2 / (d * d);
    let expected = f_grav * 5e8;
    let speed = fall_speed(15_103_000, 7_511_964, 60_000_000, 668_000_000);
    // The speed is the closed form, counted in steps and rounded down.
    assert_eq!(speed, 8_415_215);
    assert_eq!((expected / STEP).floor(), 8_415_215.0);
    let got = speed as f64 * STEP;
    assert!(got <= expected);
    assert!(expected - got < STEP);
}

#[test]
fn gravity_over_the_moon_of_the_game() {
    let mut g = game((452_000_000, 100_000_000), 1_737_400_000);
    g.moon.mass = 7_503_524;
    g.lunar_gravity(1_024_000_000, 768_000_000);
    assert_eq!(g.lander.delta.1, 653_092);
    let d2 = 60.0f64 * 60.0 + 2405.4 * 2405.4;
    let expected = 6.673e-11 * 15103.0 * 7503.524 / d2 * 5e8;
    let got = g.lander.delta.1 as f64 * STEP;
    assert!(got <= expected + 1e-9);
    assert!(expected - got < STEP + 1e-9);
}

#[test]
fn gravity_replaces_the_vertical_velocity() {
    let mut g = game((452_000_000, 100_000_000), 0);
    g.lander.delta = (77, -5_000_000);
    g.lunar_gravity(1_024_000_000, 768_000_000);
    assert_eq!(g.lander.delta, (77, 8_415_215));
    g.lunar_gravity(1_024_000_000, 768_000_000);
    assert_eq!(g.lander.delta, (77, 8_415_215));
}

#[test]
fn gravity_leaves_everything_else_alone() {
    let mut g = game((452_000_000, 100_000_000), 0);
    g.lander.thrusters = (3, 4);
    g.lander.particles.particles.push(Particle::with_spark(
        1,
        2,
        Direction::Down,
        Shade::Red,
        Spark { speed: 1, halflife: 2, radius: 3 },
    ));
    let mut expected = game((452_000_000, 100_000_000), 0);
    expected.lander.thrusters = (3, 4);
    expected.lander.particles.particles.push(Particle::with_spark(
        1,
        2,
        Direction::Down,
        Shade::Red,
        Spark { speed: 1, halflife: 2, radius: 3 },
    ));
    expected.lander.delta.1 = 8_415_215;
    g.lunar_gravity(1_024_000_000, 768_000_000);
    assert_eq!(g, expected);
}

#[test]
fn gravity_halves_an_odd_width_downwards() {
    let mut g = game((0, 0), 0);
    g.lander.mass = 1;
    g.moon.mass = 1;
    g.lunar_gravity(7, 0);
    // offsets 3 and 0: 3 336 500 000 000 / (100 * 9) = 3 707 222 222.2...
    assert_eq!(g.lander.delta.1, 3_707_222_222);
}

#[test]
fn fall_speed_is_the_rounded_down_quotient() {
    // 3 336 500 000 000 * 1 * 1 / (100 * 10^2) = 333 650 000
    assert_eq!(fall_speed(1, 1, 10, 0), 333_650_000);
    assert_eq!(fall_speed(1, 1, 0, -10), 333_650_000);
    // 3 336 500 000 000 * 6 / (100 * (3^2 + 4^2)) = 8 007 600 000
    assert_eq!(fall_speed(2, 3, 3, 4), 8_007_600_000);
    assert_eq!(fall_speed(2, 3, -3, -4), 8_007_600_000);
    // 3 336 500 000 000 / (100 * 7^2) = 680 918 367.3...
    assert_eq!(fall_speed(1, 1, 7, 0), 680_918_367);
}

#[test]
fn fall_speed_falls_with_the_square_of_the_distance() {
    let near = fall_speed(1000, 1000, 1_000_000, 0);
    let far = fall_speed(1000, 1000, 2_000_000, 0);
    assert_eq!(near, 33_365);
    assert_eq!(far, 8_341);
}

#[test]
fn fall_speed_without_mass_is_zero() {
    assert_eq!(fall_speed(0, 7_511_964, 60_000_000, 668_000_000), 0);
    assert_eq!(fall_speed(15_103_000, 0, 60_000_000, 668_000_000), 0);
}

#[test]
fn fall_speed_at_distance_zero_is_the_largest_speed() {
    assert_eq!(fall_speed(15_103_000, 7_511_964, 0, 0), i64::MAX);
    assert_eq!(fall_speed(0, 0, 0, 0), i64::MAX);
    let mut g = game((512_000_000, 768_000_000), 0);
    g.lunar_gravity(1_024_000_000, 768_000_000);
    assert_eq!(g.lander.delta.1, i64::MAX);
}

#[test]
fn fall_speed_stops_at_the_largest_speed() {
    assert_eq!(fall_speed(u32::MAX, u32::MAX, 1, 0), i64::MAX);
    // 3 336 500 000 000 * 4 000 000 000^2 / 100 is above the 64-bit range
    assert_eq!(fall_speed(4_000_000_000, 4_000_000_000, 0, 1), i64::MAX);
}

#[test]
fn fall_speed_far_away_is_zero() {
    assert_eq!(fall_speed(u32::MAX, u32::MAX, FAR, 0), 0);
    assert_eq!(fall_speed(u32::MAX, u32::MAX, 0, -FAR), 0);
    assert_eq!(fall_speed(u32::MAX, u32::MAX, FAR - 1, FAR - 1), 0);
    assert_eq!(fall_speed(u32::MAX, u32::MAX, i128::MAX, i128::MIN), 0);
    let mut g = game((i64::MIN, i64::MIN), u64::MAX);
    g.lunar_gravity(u64::MAX, u64::MAX);
    assert_eq!(g.lander.delta.1, 0);
}

#[test]
fn floor_sqrt_of_small_numbers() {
    let expected = [0u64, 1, 1, 1, 2, 2, 2, 2, 2, 3, 3, 3, 3, 3, 3, 3, 4, 4];
    for (n, root) in expected.iter().enumerate() {
        assert_eq!(floor_sqrt(n as u128), *root);
    }
}

#[test]
fn floor_sqrt_around_squares() {
    for root in [1u128, 2, 3, 10, 999, 1 << 20, 670_689_197, (1 << 32) - 1, 1 << 32, (1 << 60) + 7] {
        assert_eq!(floor_sqrt(root * root) as u128, root);
        assert_eq!(floor_sqrt(root * root - 1) as u128, root - 1);
        assert_eq!(floor_sqrt(root * root + 2 * root) as u128, root);
        assert_eq!(floor_sqrt(root * root + 2 * root + 1) as u128, root + 1);
    }
}

#[test]
fn floor_sqrt_at_the_upper_end() {
    let top = u64::MAX as u128;
    assert_eq!(floor_sqrt(u128::MAX), u64::MAX);
    assert_eq!(floor_sqrt(top * top), u64::MAX);
    assert_eq!(floor_sqrt(top * top - 1), u64::MAX - 1);
}

#[test]
fn distance_at_the_start_position_over_a_moon_without_radius() {
    let g = game((452_000_000, 100_000_000), 0);
    assert_eq!(g.offsets(1_024_000_000, 768_000_000), (60_000_000, 668_000_000));
    let d = g.distance(1_024_000_000, 768_000_000);
    assert_eq!(d, Some(670_689_198));
    let expected = (60.0f64 * 60.0 + 668.0 * 668.0).sqrt();
    let got = 670_689_198.0 * STEP;
    assert!((got - expected).abs() <= 1e-9 * expected);
    assert!((got - expected).abs() <= STEP / 2.0);
}

#[test]
fn distance_rounded_down_would_miss_a_billionth() {
    let expected = (60.0f64 * 60.0 + 668.0 * 668.0).sqrt();
    let below = 670_689_197.0 * STEP;
    assert!((below - expected).abs() > 1e-9 * expected);
}

#[test]
fn distance_over_the_moon_of_the_game() {
    let g = game((452_000_000, 100_000_000), 1_737_400_000);
    assert_eq!(g.distance(1_024_000_000, 768_000_000), Some(2_406_148_200));
    let expected = (60.0f64 * 60.0 + 2405.4 * 2405.4).sqrt();
    let got = 2_406_148_200.0 * STEP;
    assert!((got - expected).abs() <= 1e-9 * expected);
}

#[test]
fn distance_is_within_a_billionth_from_five_hundred_units_on() {
    assert_eq!(BILLION, 1_000_000_000);
    assert_eq!(HALF_BILLION, 500_000_000);
    for (x, y) in [
        (500_000_000i64, 0i64),
        (0, 500_000_001),
        (353_553_391, 353_553_391),
        (60_000_000, 668_000_000),
        (123_456_789, 987_654_321),
        (1_000_000_000_000, 3),
        (777_777_777_777, 333_333_333_333),
    ] {
        let g = game((-x, -y), 0);
        let d = g.distance(0, 0).unwrap() as f64;
        let expected = ((x as f64) * (x as f64) + (y as f64) * (y as f64)).sqrt();
        assert!(expected >= 499_999_999.0);
        assert!((d - expected).abs() <= 1e-9 * expected);
    }
}

#[test]
fn short_distance_is_within_half_a_step() {
    // offsets 1 and 1: 1.41 is nearer to 1; offsets 2 and 3: 3.61 is nearer to 4
    assert_eq!(game((-1, -1), 0).distance(0, 0), Some(1));
    assert_eq!(game((-2, -3), 0).distance(0, 0), Some(4));
    assert_eq!(game((-3, -3), 0).distance(0, 0), Some(4));
    assert_eq!(game((0, -1), 0).distance(0, 0), Some(1));
    for x in 0..60i64 {
        for y in 0..60i64 {
            let d = game((-x, -y), 0).distance(0, 0).unwrap() as f64;
            let expected = ((x * x + y * y) as f64).sqrt();
            assert!((d - expected).abs() < 0.5);
        }
    }
}

#[test]
fn nearest_sqrt_of_small_numbers() {
    let expected = [0u128, 1, 1, 2, 2, 2, 2, 3, 3, 3, 3, 3, 3, 4, 4, 4, 4, 4, 4, 4, 4, 5];
    for (n, root) in expected.iter().enumerate() {
        assert_eq!(nearest_sqrt(n as u128), *root);
    }
}

#[test]
fn nearest_sqrt_turns_between_two_squares() {
    for root in [1u128, 2, 3, 10, 999, 1 << 20, 670_689_198, (1 << 32) - 1, 1 << 32, (1 << 60) + 7] {
        // (root - 1/2)^2 = root^2 - root + 1/4 and (root + 1/2)^2 = root^2 + root + 1/4
        assert_eq!(nearest_sqrt(root * root), root);
        assert_eq!(nearest_sqrt(root * root - root + 1), root);
        assert_eq!(nearest_sqrt(root * root - root), root - 1);
        assert_eq!(nearest_sqrt(root * root + root), root);
        assert_eq!(nearest_sqrt(root * root + root + 1), root + 1);
    }
}

#[test]
fn nearest_sqrt_at_the_upper_end() {
    let top = u64::MAX as u128;
    assert_eq!(nearest_sqrt(u128::MAX), 1u128 << 64);
    assert_eq!(nearest_sqrt(top * top + top + 1), 1u128 << 64);
    assert_eq!(nearest_sqrt(top * top + top), top);
    assert_eq!(nearest_sqrt(top * top), top);
}

#[test]
fn nearest_sqrt_of_the_start_position() {
    assert_eq!(floor_sqrt(449_824_000_000_000_000), 670_689_197);
    assert_eq!(nearest_sqrt(449_824_000_000_000_000), 670_689_198);
}

#[test]
fn distance_of_a_right_triangle() {
    let g = game((-3_000_000, -4_000_000), 0);
    assert_eq!(g.distance(0, 0), Some(5_000_000));
    let h = game((3_000_000, 4_000_000), 0);
    assert_eq!(h.distance(0, 0), Some(5_000_000));
}

#[test]
fn distance_at_the_centre_is_zero() {
    let g = game((512_000_000, 768_000_000 + 5), 5);
    assert_eq!(g.distance(1_024_000_000, 768_000_000), Some(0));
}

#[test]
fn distance_ends_where_an_offset_is_far() {
    let far = 1i64 << 60;
    assert_eq!(game((-(far - 1), 0), 0).distance(0, 0), Some((far - 1) as u64));
    assert_eq!(game((-far, 0), 0).distance(0, 0), None);
    assert_eq!(game((far - 1, 0), 0).distance(0, 0), Some((far - 1) as u64));
    assert_eq!(game((far, 0), 0).distance(0, 0), None);
    assert_eq!(game((0, -(far - 1)), 0).distance(0, 0), Some((far - 1) as u64));
    assert_eq!(game((0, -far), 0).distance(0, 0), None);
    assert_eq!(game((0, 0), far as u64).distance(0, 0), None);
    assert_eq!(game((i64::MIN, i64::MIN), u64::MAX).distance(u64::MAX, u64::MAX), None);
}

#[test]
fn distance_changes_nothing() {
    let g = game((452_000_000, 100_000_000), 0);
    let _ = g.distance(1_024_000_000, 768_000_000);
    assert_eq!(g, game((452_000_000, 100_000_000), 0));
}

#[test]
fn offsets_are_taken_from_the_middle_and_from_below_the_screen() {
    let g = game((452_000_000, 100_000_000), 1_737_400_000);
    assert_eq!(g.offsets(1_024_000_000, 768_000_000), (60_000_000, 2_405_400_000));
    let h = game((600_000_000, 900_000_000), 0);
    assert_eq!(h.offsets(1_024_000_000, 768_000_000), (-88_000_000, -132_000_000));
    let wide = game((i64::MIN, i64::MIN), u64::MAX);
    assert_eq!(
        wide.offsets(u64::MAX, u64::MAX),
        ((u64::MAX / 2) as i128 + (1i128 << 63), 2 * (u64::MAX as i128) + (1i128 << 63))
    );
}
