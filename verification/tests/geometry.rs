use wave_formation::{
    steps, Draws, Formation, FormationMaker, WinSize, BASE_SPEED, PIVOT_INSET, RADIUS_X_MAX,
    RADIUS_X_MIN, RADIUS_Y, SPAWN_MARGIN, STEPS_PER_PIXEL,
};

fn in_pixels(length: i64) -> f64 {
    length as f64 / STEPS_PER_PIXEL as f64
}

#[test]
fn twelve_steps_to_the_pixel() {
    assert_eq!(STEPS_PER_PIXEL, 12);
    assert_eq!(steps(0), 0);
    assert_eq!(steps(1), 12);
    assert_eq!(steps(800), 9600);
    assert_eq!(steps(u32::MAX), 51_539_607_540);
}

#[test]
fn fixed_lengths_in_steps() {
    assert_eq!(SPAWN_MARGIN, 1200);
    assert_eq!(PIVOT_INSET, 600);
    assert_eq!(RADIUS_X_MIN, 960);
    assert_eq!(RADIUS_X_MAX, 1800);
    assert_eq!(RADIUS_Y, 1200);
    assert_eq!(BASE_SPEED, 6000);
}

#[test]
fn reaches_of_800_by_600() {
    let win = WinSize { w: 800, h: 600 };
    assert_eq!(win.spawn_x(), 6000);
    assert_eq!(win.spawn_y(), 4800);
    assert_eq!(win.pivot_x(), 2400);
    assert_eq!(win.pivot_y(), 1800);
    assert_eq!(in_pixels(win.spawn_x()), 500.0);
    assert_eq!(in_pixels(win.spawn_y()), 400.0);
    assert_eq!(in_pixels(win.pivot_x()), 200.0);
    assert_eq!(in_pixels(win.pivot_y()), 150.0);
}

#[test]
fn reaches_of_odd_sizes_do_not_round() {
    let win = WinSize { w: 801, h: 599 };
    assert_eq!(win.spawn_x(), 6006);
    assert_eq!(win.spawn_y(), 4794);
    assert_eq!(win.pivot_x(), 2403);
    assert_eq!(win.pivot_y(), 1796);
    assert_eq!(in_pixels(win.spawn_x()), 801.0 / 2.0 + 100.0);
    assert_eq!(in_pixels(win.spawn_y()), 599.0 / 2.0 + 100.0);
    assert_eq!(in_pixels(win.pivot_x()), 801.0 / 4.0);
    assert_eq!(4 * win.pivot_x(), steps(801));
    assert_eq!(3 * (win.pivot_y() + PIVOT_INSET), steps(599));
}

#[test]
fn reaches_of_the_largest_viewport() {
    let win = WinSize { w: u32::MAX, h: u32::MAX };
    assert_eq!(win.spawn_x(), 25_769_804_970);
    assert_eq!(win.spawn_y(), 25_769_804_970);
    assert_eq!(win.pivot_x(), 12_884_901_885);
    assert_eq!(win.pivot_y(), 17_179_868_580);
    assert!(win.can_place_pivot());
}

#[test]
fn reaches_of_the_empty_viewport() {
    let win = WinSize { w: 0, h: 0 };
    assert_eq!(win.spawn_x(), 1200);
    assert_eq!(win.spawn_y(), 1200);
    assert_eq!(win.pivot_x(), 0);
    assert_eq!(win.pivot_y(), -600);
    assert!(!win.can_place_pivot());
}

#[test]
fn pivot_band_begins_at_150_pixels() {
    assert!(!WinSize { w: 800, h: 1 }.can_place_pivot());
    assert!(!WinSize { w: 800, h: 149 }.can_place_pivot());
    assert!(WinSize { w: 800, h: 150 }.can_place_pivot());
    assert!(WinSize { w: 800, h: 151 }.can_place_pivot());
    assert_eq!(WinSize { w: 800, h: 149 }.pivot_y(), -4);
    assert_eq!(WinSize { w: 800, h: 150 }.pivot_y(), 0);
}

#[test]
fn lowest_viewport_pins_the_pivot_height() {
    let win = WinSize { w: 800, h: 150 };
    for _ in 0..50 {
        let mut maker = FormationMaker::default();
        let out = maker.make(&win);
        assert_eq!(out.pivot.1, 0);
        assert!(-1200 - 900 <= out.start.1 && out.start.1 <= 1200 + 900);
    }
}

#[test]
fn zero_width_pins_the_pivot_column() {
    let win = WinSize { w: 0, h: 600 };
    for _ in 0..50 {
        let mut maker = FormationMaker::default();
        let out = maker.make(&win);
        assert_eq!(out.pivot.0, 0);
        assert!(out.start.0 == 1200 || out.start.0 == -1200);
    }
}

#[test]
fn from_draws_on_the_right() {
    let win = WinSize { w: 800, h: 600 };
    let draws = Draws { from_right: true, start_y: 17, pivot_x: -5, pivot_y: 23, radius_x: 1234 };
    assert_eq!(
        Formation::from_draws(&win, &draws),
        Formation { start: (6000, 17), radius: (1234, 1200), pivot: (-5, 23), speed: 6000 }
    );
}

#[test]
fn from_draws_on_the_left() {
    let win = WinSize { w: 1280, h: 720 };
    let draws = Draws { from_right: false, start_y: -17, pivot_x: 5, pivot_y: 0, radius_x: 960 };
    assert_eq!(
        Formation::from_draws(&win, &draws),
        Formation { start: (-8880, -17), radius: (960, 1200), pivot: (5, 0), speed: 6000 }
    );
}

#[test]
fn heading_points_from_pivot_to_start() {
    let formation =
        Formation { start: (6000, -1234), radius: (1000, 1200), pivot: (600, 900), speed: 6000 };
    assert_eq!(formation.heading(), (5400, -2134));
    let angle = (formation.heading().1 as f64).atan2(formation.heading().0 as f64);
    let distance = (5400.0f64 * 5400.0 + 2134.0 * 2134.0).sqrt();
    assert!((600.0 + distance * angle.cos() - 6000.0).abs() < 1e-6);
    assert!((900.0 + distance * angle.sin() + 1234.0).abs() < 1e-6);
}

#[test]
fn heading_of_extreme_fields_is_exact() {
    let formation = Formation {
        start: (i64::MAX, i64::MIN),
        radius: (0, 0),
        pivot: (i64::MIN, i64::MAX),
        speed: 0,
    };
    assert_eq!(
        formation.heading(),
        (i64::MAX as i128 - i64::MIN as i128, i64::MIN as i128 - i64::MAX as i128)
    );
    assert_eq!(formation.heading().0, 18_446_744_073_709_551_615);
}

#[test]
fn synthesized_formations_keep_to_the_bounds() {
    let sizes = [(800u32, 600u32), (1, 150), (801, 599), (1920, 1080), (3, 100_000)];
    for (w, h) in sizes {
        let win = WinSize { w, h };
        for _ in 0..200 {
            let mut maker = FormationMaker::default();
            let out = maker.make(&win);
            let span_x = w as f64 / 2.0 + 100.0;
            assert!(in_pixels(out.start.0) == span_x || in_pixels(out.start.0) == -span_x);
            assert!(in_pixels(out.start.1).abs() <= h as f64 / 2.0 + 100.0);
            assert!(in_pixels(out.pivot.0).abs() <= w as f64 / 4.0);
            assert!(0.0 <= in_pixels(out.pivot.1));
            assert!(in_pixels(out.pivot.1) <= h as f64 / 3.0 - 50.0);
            assert!(80.0 <= in_pixels(out.radius.0) && in_pixels(out.radius.0) <= 150.0);
            assert_eq!(in_pixels(out.radius.1), 100.0);
            assert_eq!(in_pixels(out.speed), 500.0);
            assert_eq!(out.heading().0 > 0, out.start.0 > 0);
            assert!(out.heading().0.abs() >= (win.pivot_x() + SPAWN_MARGIN) as i128);
            assert_eq!(out.start.0.abs(), win.spawn_x());
            assert!(out.start.1.abs() <= win.spawn_y());
            assert!(out.pivot.0.abs() <= win.pivot_x());
            assert!(0 <= out.pivot.1 && out.pivot.1 <= win.pivot_y());
        }
    }
}

#[test]
fn sampled_draws_keep_to_their_intervals() {
    let win = WinSize { w: 640, h: 480 };
    for _ in 0..500 {
        let draws = Draws::sample(&win);
        assert!(-4080 <= draws.start_y && draws.start_y <= 4080);
        assert!(-1920 <= draws.pivot_x && draws.pivot_x <= 1920);
        assert!(0 <= draws.pivot_y && draws.pivot_y <= 1320);
        assert!(960 <= draws.radius_x && draws.radius_x <= 1800);
    }
}

#[test]
fn sampled_draws_vary() {
    let win = WinSize { w: 800, h: 600 };
    let first = Draws::sample(&win);
    let mut from_right = 0;
    let mut other_start_y = false;
    let mut other_pivot_x = false;
    let mut other_pivot_y = false;
    let mut other_radius_x = false;
    for _ in 0..400 {
        let draws = Draws::sample(&win);
        if draws.from_right {
            from_right += 1;
        }
        other_start_y |= draws.start_y != first.start_y;
        other_pivot_x |= draws.pivot_x != first.pivot_x;
        other_pivot_y |= draws.pivot_y != first.pivot_y;
        other_radius_x |= draws.radius_x != first.radius_x;
    }
    assert!(0 < from_right && from_right < 400);
    assert!(other_start_y && other_pivot_x && other_pivot_y && other_radius_x);
}

#[test]
fn both_spawn_lines_are_used() {
    let win = WinSize { w: 800, h: 600 };
    let mut left = false;
    let mut right = false;
    for _ in 0..400 {
        let mut maker = FormationMaker::default();
        let out = maker.make(&win);
        left |= out.start.0 == -6000;
        right |= out.start.0 == 6000;
    }
    assert!(left && right);
}
