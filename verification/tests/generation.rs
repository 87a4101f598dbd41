use starfield::HEIGHT;
use starfield::UNIT;
use starfield::WIDTH;
use starfield::color::star_color;
use starfield::gen::build_scene;
use starfield::gen::object_for_roll;
use starfield::gen::random_object;
use starfield::gen::star;
use starfield::gen::stretchy_star;
use starfield::gen::swirl;
use starfield::gen::swirl_arm;
use starfield::rng::Rng;
use starfield::scene::Color;
use starfield::scene::Point;
use starfield::scene::Shape;

#[test]
fn color_rare_band_is_near_white_hot() {
    // Replay the byte draws to know the exact channels.
    let mut probe = Rng::seeded(1);
    let g_byte = probe.next_byte();
    let b_byte = probe.next_byte();
    let r_byte = probe.next_byte();

    let mut rng = Rng::seeded(1);
    let c = star_color(&mut rng, Some(0));
    assert_eq!(c.g, g_byte.max(215));
    assert_eq!(c.b, b_byte.max(215));
    assert_eq!(c.r, r_byte.max(210));
    assert!(c.r >= 210 && c.g >= 215 && c.b >= 215);
    assert_eq!(rng.state, probe.state);
}

#[test]
fn color_uncommon_band_is_blue_white_exactly() {
    // 0.025 lies in [0.0025, 0.05): the fixed blue-white pair.
    let roll = UNIT / 40;
    let mut probe = Rng::seeded(2);
    let r_byte = probe.next_byte();

    let mut rng = Rng::seeded(2);
    let c = star_color(&mut rng, Some(roll));
    assert_eq!(c.g, 235);
    assert_eq!(c.b, 255);
    assert_eq!(c.r, r_byte.max(210));
    assert_eq!(rng.state, probe.state);
}

#[test]
fn color_default_band_is_near_white() {
    let mut probe = Rng::seeded(3);
    let g_byte = probe.next_byte();
    let b_byte = probe.next_byte();
    let r_byte = probe.next_byte();

    let mut rng = Rng::seeded(3);
    let c = star_color(&mut rng, Some(UNIT / 2));
    assert_eq!(c.g, g_byte.max(245));
    assert_eq!(c.b, b_byte.max(245));
    assert_eq!(c.r, r_byte.max(210));
    assert!(c.g >= 245 && c.b >= 245);
}

#[test]
fn color_bias_holds_for_fresh_rolls() {
    for seed in 0..200u64 {
        let mut rng = Rng::seeded(seed);
        let c = star_color(&mut rng, None);
        assert!(c.r >= 210);
        assert!((c.g, c.b) == (235, 255) || (c.g >= 215 && c.b >= 215));
    }
}

fn radius_band(roll: u64) -> u8 {
    if 400 * roll < UNIT {
        3
    } else if 20 * roll < UNIT {
        2
    } else {
        1
    }
}

#[test]
fn star_radius_follows_rarity_band() {
    let mut seen = [false; 3];
    for seed in 0..200000u64 {
        let mut probe = Rng::seeded(seed);
        let roll = probe.next_roll();
        let expected = radius_band(roll);
        if seen[(expected - 1) as usize] {
            continue;
        }
        let mut rng = Rng::seeded(seed);
        let p = star(&mut rng, Some(Point::At { x: 0, y: 0 }));
        match p.shape {
            Shape::Circle { radius } => {
                assert_eq!(radius, expected);
                assert!((1..=3).contains(&radius));
            }
            _ => panic!("a star must be a circle"),
        }
        seen[(expected - 1) as usize] = true;
        if seen == [true; 3] {
            return;
        }
    }
    panic!("no seed hit every rarity band");
}

#[test]
fn stretchy_star_is_single_one_pixel_circle() {
    let mut probe = Rng::seeded(11);
    let rx = probe.next_roll();
    let ry = probe.next_roll();

    let mut rng = Rng::seeded(11);
    let p = stretchy_star(&mut rng);
    match p.shape {
        Shape::Circle { radius } => assert_eq!(radius, 1),
        _ => panic!("a stretchy star degenerates to a circle"),
    }
    match p.pos {
        Point::At { x, y } => {
            assert_eq!(x as u64, rx * WIDTH as u64);
            assert_eq!(y as u64, ry * HEIGHT as u64);
            assert!((x as u64) < WIDTH as u64 * UNIT);
            assert!((y as u64) < HEIGHT as u64 * UNIT);
        }
        _ => panic!("a stretchy star sits at a direct position"),
    }
}

#[test]
fn swirl_cardinality_matches_drawn_step_count() {
    for seed in 100..110u64 {
        // Replay the parameter draws to know the exact spiral data.
        let mut probe = Rng::seeded(seed);
        let rxo = probe.next_roll();
        let ryo = probe.next_roll();
        let rv = probe.next_roll();
        let nv = probe.next_sign();
        let rw = probe.next_roll();
        let nw = probe.next_sign();
        let ru = probe.next_roll();
        let raw = probe.next_u64();
        let steps = 18 + raw % 37;
        let vmag = (29 * rv).min(UNIT) as i64;
        let wmag = (29 * rw).min(UNIT) as i64;
        let v = if nv { -vmag } else { vmag };
        let w = if nw { -wmag } else { wmag };

        let mut rng = Rng::seeded(seed);
        let out = swirl(&mut rng);
        assert_eq!(out.len() as u64, steps);
        assert!((18..=54).contains(&out.len()));
        for (i, p) in out.iter().enumerate() {
            match p.pos {
                Point::OnSpiral { xo, yo, v_num, w_num, t_num, t_den } => {
                    assert_eq!(xo as u64, rxo * WIDTH as u64);
                    assert_eq!(yo as u64, ryo * HEIGHT as u64);
                    assert_eq!(v_num, v);
                    assert_eq!(w_num, w);
                    assert_eq!(t_num as u64, i as u64 * 96 * ru);
                    assert_eq!(t_den as u64, steps * UNIT);
                }
                _ => panic!("a swirl star carries spiral data"),
            }
        }
    }
}

#[test]
fn swirl_points_stay_within_spatial_bound() {
    for seed in 0..40u64 {
        let mut rng = Rng::seeded(seed);
        let out = swirl(&mut rng);
        for p in out.iter() {
            match p.pos {
                Point::OnSpiral { xo, yo, v_num, w_num, t_num, t_den } => {
                    let unit = UNIT as f64;
                    let v = v_num as f64 / (10.0 * unit);
                    let w = w_num as f64 / (10.0 * unit);
                    let t = std::f64::consts::PI * t_num as f64 / t_den as f64;
                    let x = (v * t) * (w * t).cos() + xo as f64 / unit;
                    let y = (v * t) * (w * t).sin() + yo as f64 / unit;
                    let dx = x - xo as f64 / unit;
                    let dy = y - yo as f64 / unit;
                    let dist = (dx * dx + dy * dy).sqrt();
                    assert!(dist <= 0.1 * 96.0 * std::f64::consts::PI + 1e-6);
                }
                _ => panic!("a swirl star carries spiral data"),
            }
        }
    }
}

#[test]
fn scene_opens_with_background_and_grows_per_object() {
    let mut rng = Rng::seeded(42);
    let cv = build_scene(&mut rng, 25);
    assert_eq!(cv.width, WIDTH);
    assert_eq!(cv.height, HEIGHT);
    assert!(cv.list.len() >= 26);
    let bg = &cv.list[0];
    assert_eq!(
        bg.shape,
        Shape::Rectangle { width: WIDTH, height: HEIGHT }
    );
    assert_eq!(bg.pos, Point::At { x: 0, y: 0 });
    assert_eq!(bg.color, Color { r: 0, g: 0, b: 0 });
    for p in cv.list.iter().skip(1) {
        match p.shape {
            Shape::Circle { radius } => assert!((1..=3).contains(&radius)),
            _ => panic!("only the background is a rectangle"),
        }
    }
}

#[test]
fn equal_seeds_build_identical_scenes() {
    let mut a = Rng::seeded(123);
    let mut b = Rng::seeded(123);
    let cva = build_scene(&mut a, 50);
    let cvb = build_scene(&mut b, 50);
    assert_eq!(cva.list, cvb.list);
    assert_eq!(a.state, b.state);
}

#[test]
fn different_seeds_usually_differ() {
    let mut a = Rng::seeded(1);
    let mut b = Rng::seeded(2);
    let cva = build_scene(&mut a, 10);
    let cvb = build_scene(&mut b, 10);
    assert_ne!(cva.list, cvb.list);
}

#[test]
fn forced_half_roll_yields_one_plain_star() {
    // A kind roll of 0.5 lands in the plain-star band.
    let mut rng = Rng::seeded(6);
    let out = object_for_roll(&mut rng, UNIT / 2);
    assert_eq!(out.len(), 1);
    match out[0].shape {
        Shape::Circle { radius } => assert!((1..=3).contains(&radius)),
        _ => panic!("the plain-star band emits a circle"),
    }
    assert!(out[0].color.r >= 210);
}

#[test]
fn single_plain_star_scene_has_two_entries() {
    // Find a seed whose kind roll lands in the plain band and whose
    // radius roll lands in the default band, then build a 1-object
    // scene: background plus one 1-pixel near-white star.
    for seed in 0..100000u64 {
        let mut probe = Rng::seeded(seed);
        let kind = probe.next_roll();
        if 25 * kind < 4 * UNIT {
            continue;
        }
        let _x = probe.next_roll();
        let _y = probe.next_roll();
        let r2 = probe.next_roll();
        if 20 * r2 < UNIT {
            continue;
        }
        let mut rng = Rng::seeded(seed);
        let cv = build_scene(&mut rng, 1);
        assert_eq!(cv.list.len(), 2);
        assert_eq!(
            cv.list[0].shape,
            Shape::Rectangle { width: WIDTH, height: HEIGHT }
        );
        let s = &cv.list[1];
        assert_eq!(s.shape, Shape::Circle { radius: 1 });
        assert!(s.color.r >= 210 && s.color.g >= 245 && s.color.b >= 245);
        return;
    }
    panic!("no seed hit the plain default band");
}

#[test]
fn forced_swirl_arm_traces_exact_spiral_samples() {
    // v = w = 0.1, sweep = pi (u_num = UNIT), 18 steps.
    let mut rng = Rng::seeded(9);
    let out = swirl_arm(&mut rng, 0, 0, UNIT as i64, UNIT as i64, UNIT as i64, 18);
    assert_eq!(out.len(), 18);
    for (i, p) in out.iter().enumerate() {
        match p.pos {
            Point::OnSpiral { xo, yo, v_num, w_num, t_num, t_den } => {
                assert_eq!(xo, 0);
                assert_eq!(yo, 0);
                assert_eq!(v_num, UNIT as i64);
                assert_eq!(w_num, UNIT as i64);
                assert_eq!(t_num, i as i64 * UNIT as i64);
                assert_eq!(t_den, 18 * UNIT as i64);
                // t_i = pi * i / 18, exactly, as a rational in pi.
                assert_eq!(t_num * 18, i as i64 * t_den);
                // The sample satisfies x_i = (0.1 t_i) cos(0.1 t_i) + xo.
                let unit = UNIT as f64;
                let t_i = std::f64::consts::PI * i as f64 / 18.0;
                let t_stored = std::f64::consts::PI * t_num as f64 / t_den as f64;
                assert!((t_stored - t_i).abs() < 1e-12);
                let v = v_num as f64 / (10.0 * unit);
                let x = (v * t_stored) * (v * t_stored).cos();
                let expect = (0.1 * t_i) * (0.1 * t_i).cos();
                assert!((x - expect).abs() < 1e-9);
            }
            _ => panic!("a swirl star carries spiral data"),
        }
    }
}

#[test]
fn full_object_count_scene_builds() {
    // The production run's object count.
    let mut rng = Rng::seeded(2024);
    let cv = build_scene(&mut rng, 110_000);
    assert!(cv.list.len() >= 110_001);
    assert_eq!(
        cv.list[0].shape,
        Shape::Rectangle { width: WIDTH, height: HEIGHT }
    );
}

#[test]
fn random_objects_always_emit_something() {
    let mut rng = Rng::from_entropy();
    for _ in 0..200 {
        let out = random_object(&mut rng);
        assert!(!out.is_empty());
        for p in out.iter() {
            assert!(p.color.r >= 210);
        }
    }
}
