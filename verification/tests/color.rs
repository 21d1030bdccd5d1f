use waybar_tapo::color::{color_hex, nearest_color, PALETTE, TIED_TO_WHITE};

fn hex_in_doubles(h: u16, s: u16) -> String {
    let h = f64::from(h % 360) / 60.;
    let s = f64::from(s.min(100)) / 100.;
    let x = s * (1. - (h % 2. - 1.).abs());
    let (r, g, b) = match h as u8 {
        0 => (s, x, 0.),
        1 => (x, s, 0.),
        2 => (0., s, x),
        3 => (0., x, s),
        4 => (x, 0., s),
        _ => (s, 0., x),
    };
    let channel = |c: f64| ((c + 1. - s) * 255.).round() as u8;
    format!("#{:02x}{:02x}{:02x}", channel(r), channel(g), channel(b))
}

fn nearest_in_doubles(h: u16, s: u16) -> usize {
    let point = |h: u16, s: u16| {
        let a = f64::from(h).to_radians();
        (f64::from(s) * a.cos(), f64::from(s) * a.sin())
    };
    let (x, y) = point(h, s);
    let distance = |i: usize| {
        let (px, py) = point(PALETTE[i].1, u16::from(PALETTE[i].2));
        (px - x).powi(2) + (py - y).powi(2)
    };
    if distance(0) <= distance(1) {
        0
    } else {
        1
    }
}

#[test]
fn colors_agree_with_double_precision() {
    for h in 0..=361 {
        for s in 0..=102 {
            assert_eq!(color_hex(h, s), hex_in_doubles(h, s), "{h} {s}");
        }
    }
    assert_eq!(color_hex(65535, 65535), hex_in_doubles(65535, 65535));
}

#[test]
fn nearest_agrees_with_double_precision() {
    for h in 0..=360 {
        for s in 0..=100 {
            assert_eq!(nearest_color(h, s), nearest_in_doubles(h, s), "{h} {s}");
        }
        for s in (101..3000).chain([10_000, 65_535]) {
            assert_eq!(nearest_color(h, s), nearest_in_doubles(h, s), "{h} {s}");
        }
    }
    for h in (361..65_535).step_by(7) {
        for s in [0, 20, 49, 50, 51, 75, 99, 101, 2_864, 2_865] {
            assert_eq!(nearest_color(h, s), nearest_in_doubles(h, s), "{h} {s}");
        }
    }
}

#[test]
fn ties_are_decided_as_in_double_precision() {
    let mut to_white = Vec::new();
    for h in 0..=u16::MAX {
        for s in [50, 100] {
            assert_eq!(nearest_color(h, s), nearest_in_doubles(h, s), "{h} {s}");
        }
        if matches!(h % 360, 84 | 324) && nearest_in_doubles(h, 100) == 1 {
            to_white.push(h);
        }
    }
    assert_eq!(to_white, TIED_TO_WHITE);
    assert!((24..=u16::MAX).step_by(360).all(|h| nearest_color(h, 50) == 0));
}

#[test]
fn halves_round_as_in_double_precision() {
    assert_eq!(color_hex(10, 100), "#ff2a00");
    assert_eq!(color_hex(110, 100), "#2bff00");
    assert_eq!(color_hex(0, 90), "#ff1919");
    assert_eq!(color_hex(0, 70), "#ff4d4d");
}

#[test]
fn equidistant_colors() {
    assert_eq!(nearest_color(24, 50), 0);
    assert_eq!(nearest_color(84, 100), 0);
    assert_eq!(nearest_color(324, 100), 1);
    assert_eq!(nearest_color(24, 49), 1);
    assert_eq!(nearest_color(83, 100), 0);
    assert_eq!(nearest_color(85, 100), 1);
}

#[test]
fn palette_entries_are_nearest_to_themselves() {
    assert_eq!(PALETTE[0], ("1800K", 24, 100));
    assert_eq!(PALETTE[1], ("White", 0, 0));
    for (i, (_, h, s)) in PALETTE.iter().enumerate() {
        assert_eq!(nearest_color(*h, u16::from(*s)), i);
    }
}

#[test]
fn hues_wrap_and_saturations_saturate() {
    assert_eq!(color_hex(384, 80), color_hex(24, 80));
    assert_eq!(color_hex(24, 1000), color_hex(24, 100));
    assert_eq!(color_hex(24, 100), "#ff6600");
    assert_eq!(color_hex(300, 0), "#ffffff");
}
