//! Color arithmetic: the palette, the nearest palette entry and the RGB rendering of a hue and a
//! saturation. Hues are degrees, saturations are percentages.
use vstd::arithmetic::div_mod::lemma_fundamental_div_mod_converse_mod;
use vstd::prelude::*;
use crate::text::push_hex_pair;

verus! {

/// The colors the `color` action alternates between: label, hue and saturation.
///
/// The strip accepts no color temperature as low as 1800 K, so a warm orange stands in for it.
pub const PALETTE: [(&'static str, u16, u8); 2] = [("1800K", 24, 100), ("White", 0, 0)];

/// The half-way points that round down, each as `hue * 1000 + saturation`.
///
/// At some hues and saturations the middle channel lies exactly between two levels. Evaluated in
/// double precision, its brightness times 255 comes out just below the half at the points listed
/// here, and on the half or above it at all others.
pub const ROUNDED_DOWN: [u32; 163] = [
    10_004, 110_004, 130_004, 230_004, 250_004, 350_004, 20_005, 100_005, 140_005, 220_005,
    260_005, 340_005, 10_020, 130_020, 230_020, 290_020, 310_020, 85_024, 275_024, 325_024,
    4_025, 20_025, 36_025, 84_025, 100_025, 116_025, 124_025, 156_025, 204_025, 236_025,
    244_025, 260_025, 276_025, 292_025, 308_025, 324_025, 340_025, 356_025, 10_028, 110_028,
    130_028, 230_028, 40_030, 80_030, 160_030, 200_030, 260_035, 340_035, 115_040, 145_040,
    215_040, 245_040, 275_040, 325_040, 355_040, 32_050, 40_050, 48_050, 72_050, 88_050,
    152_050, 160_050, 168_050, 176_050, 184_050, 192_050, 200_050, 208_050, 272_050, 288_050,
    312_050, 328_050, 260_055, 340_055, 35_056, 85_056, 155_056, 205_056, 275_056, 325_056,
    130_060, 230_060, 290_060, 310_060, 20_065, 100_065, 260_065, 340_065, 10_068, 110_068,
    130_068, 230_068, 40_070, 160_070, 200_070, 275_072, 325_072, 52_075, 68_075, 172_075,
    188_075, 244_075, 260_075, 276_075, 292_075, 308_075, 324_075, 340_075, 356_075, 130_076,
    230_076, 10_084, 130_084, 230_084, 20_085, 100_085, 260_085, 340_085, 85_088, 275_088,
    325_088, 160_090, 200_090, 10_092, 110_092, 130_092, 230_092, 260_095, 340_095, 2_100,
    10_100, 46_100, 54_100, 62_100, 66_100, 70_100, 74_100, 122_100, 130_100, 138_100, 146_100,
    166_100, 174_100, 186_100, 194_100, 214_100, 222_100, 230_100, 238_100, 242_100, 246_100,
    258_100, 262_100, 274_100, 286_100, 290_100, 310_100, 314_100, 326_100, 338_100, 342_100,
    354_100, 358_100,
];

/// The hues at which full saturation lies exactly between the two palette entries and counts as
/// nearer to white.
///
/// Evaluated in double precision, the squared distance to white comes out smaller at these hues.
/// At all other points between the two entries it comes out no smaller than that to the warm
/// color.
pub const TIED_TO_WHITE: [u16; 184] = [
    324, 684, 804, 1_044, 1_164, 1_404, 1_524, 1_764, 3_684, 4_284, 4_404, 5_004, 5_124, 5_364,
    5_724, 5_844, 6_084, 6_444, 6_564, 6_804, 7_164, 7_284, 7_524, 7_644, 8_244, 8_604, 8_724,
    8_964, 9_084, 10_044, 10_164, 10_404, 10_524, 11_484, 11_604, 11_844, 11_964, 12_924, 13_284,
    13_404, 14_364, 14_724, 14_844, 15_084, 15_564, 15_804, 16_524, 16_644, 16_884, 17_604, 17_724,
    17_964, 18_444, 18_684, 19_404, 19_524, 19_764, 20_484, 20_604, 20_844, 21_324, 21_564, 22_284,
    22_404, 22_644, 23_124, 23_364, 23_724, 24_204, 24_444, 25_164, 25_284, 25_524, 26_004, 26_244,
    26_604, 26_964, 27_084, 27_324, 28_044, 28_164, 28_404, 28_884, 29_124, 29_484, 29_604, 29_844,
    29_964, 30_924, 31_284, 31_404, 31_644, 31_764, 32_724, 33_084, 33_204, 33_444, 33_564, 34_884,
    35_244, 35_364, 35_604, 35_724, 36_684, 37_044, 37_164, 37_404, 37_524, 38_484, 38_844, 38_964,
    39_204, 39_324, 40_284, 40_644, 40_764, 41_004, 41_124, 41_364, 41_484, 42_444, 42_804, 42_924,
    43_164, 43_284, 44_244, 44_604, 44_724, 44_964, 45_084, 46_044, 46_404, 46_524, 46_764, 46_884,
    47_844, 48_204, 48_564, 48_684, 48_924, 49_044, 50_004, 50_364, 50_484, 50_724, 50_844, 51_804,
    52_164, 52_284, 52_524, 52_644, 53_604, 53_964, 54_324, 54_444, 54_684, 55_764, 56_124, 56_244,
    56_484, 56_604, 57_564, 57_924, 58_044, 58_284, 58_404, 59_004, 59_364, 60_924, 61_164, 61_284,
    61_524, 61_644, 61_884, 62_004, 62_244, 62_364, 62_604, 62_964, 63_324, 64_884, 65_124, 65_244,
    65_484,
];

/// The cosines of 0 to 90 degrees, in units of 10^-9.
pub const COSINES: [i64; 91] = [
    1_000_000_000, 999_847_695, 999_390_827, 998_629_535, 997_564_050, 996_194_698,
    994_521_895, 992_546_152, 990_268_069, 987_688_341, 984_807_753, 981_627_183, 978_147_601,
    974_370_065, 970_295_726, 965_925_826, 961_261_696, 956_304_756, 951_056_516, 945_518_576,
    939_692_621, 933_580_426, 927_183_855, 920_504_853, 913_545_458, 906_307_787, 898_794_046,
    891_006_524, 882_947_593, 874_619_707, 866_025_404, 857_167_301, 848_048_096, 838_670_568,
    829_037_573, 819_152_044, 809_016_994, 798_635_510, 788_010_754, 777_145_961, 766_044_443,
    754_709_580, 743_144_825, 731_353_702, 719_339_800, 707_106_781, 694_658_370, 681_998_360,
    669_130_606, 656_059_029, 642_787_610, 629_320_391, 615_661_475, 601_815_023, 587_785_252,
    573_576_436, 559_192_903, 544_639_035, 529_919_264, 515_038_075, 500_000_000, 484_809_620,
    469_471_563, 453_990_500, 438_371_147, 422_618_262, 406_736_643, 390_731_128, 374_606_593,
    358_367_950, 342_020_143, 325_568_154, 309_016_994, 292_371_705, 275_637_356, 258_819_045,
    241_921_896, 224_951_054, 207_911_691, 190_808_995, 173_648_178, 156_434_465, 139_173_101,
    121_869_343, 104_528_463, 87_155_743, 69_756_474, 52_335_956, 34_899_497, 17_452_406, 0,
];

/// How far the middle channel has risen at `hue`, in sixtieths.
pub open spec fn ramp(hue: nat) -> nat {
    let m = hue % 120;
    if m <= 60 {
        m
    } else {
        (120 - m) as nat
    }
}

/// 6000 times the brightness of a channel that has risen by `part` sixtieths.
pub open spec fn brightness_6000(saturation: nat, part: nat) -> nat {
    (saturation * part + 60 * (100 - saturation)) as nat
}

/// Whether the half-way level of a channel rounds down.
pub open spec fn rounds_down(hue: nat, saturation: nat, part: nat) -> bool {
    if part == 0 {
        saturation == 90
    } else {
        exists|i: int|
            0 <= i < ROUNDED_DOWN@.len() && #[trigger] ROUNDED_DOWN@[i] == hue * 1000 + saturation
    }
}

/// The level, 0 to 255, of a channel that has risen by `part` sixtieths: the nearest one.
pub open spec fn level(hue: nat, saturation: nat, part: nat) -> nat {
    let scaled = 17 * brightness_6000(saturation, part);
    if scaled % 400 == 200 && rounds_down(hue, saturation, part) {
        scaled / 400
    } else {
        (scaled + 200) / 400
    }
}

/// How far red, green and blue have risen at `hue`, in sixtieths.
pub open spec fn parts(hue: nat) -> (nat, nat, nat) {
    let x = ramp(hue);
    if hue < 60 {
        (60, x, 0)
    } else if hue < 120 {
        (x, 60, 0)
    } else if hue < 180 {
        (0, 60, x)
    } else if hue < 240 {
        (0, x, 60)
    } else if hue < 300 {
        (x, 0, 60)
    } else {
        (60, 0, x)
    }
}

/// A saturation, no more than full.
pub open spec fn saturated(s: nat) -> nat {
    if s <= 100 {
        s
    } else {
        100
    }
}

/// The levels of red, green and blue at hue `h` and saturation `s`, at full brightness.
pub open spec fn rgb(h: nat, s: nat) -> (nat, nat, nat) {
    let hue = h % 360;
    let sat = saturated(s);
    let p = parts(hue);
    (level(hue, sat, p.0), level(hue, sat, p.1), level(hue, sat, p.2))
}

/// The color at hue `h` and saturation `s` in the form `#rrggbb`.
pub open spec fn hex_color(h: nat, s: nat) -> Seq<char> {
    let c = rgb(h, s);
    seq!['#'] + crate::text::hex_pair(c.0) + crate::text::hex_pair(c.1) + crate::text::hex_pair(
        c.2,
    )
}

/// A level differs from the exact value of its channel by at most one half.
pub proof fn level_is_nearest(hue: nat, saturation: nat, part: nat)
    requires
        saturation <= 100,
        part <= 60,
    ensures
        level(hue, saturation, part) <= 255,
        -200 <= 400 * level(hue, saturation, part) - 17 * brightness_6000(saturation, part) <= 200,
{
    assert(saturation * part <= saturation * 60) by (nonlinear_arith)
        requires
            part <= 60,
    ;
    assert(saturation * part >= 0) by (nonlinear_arith);
}

/// Hues repeat after a full turn.
pub proof fn hue_wraps(h: nat, s: nat)
    ensures
        hex_color(h + 360, s) == hex_color(h, s),
{
    assert((h + 360) % 360 == h % 360);
    assert(rgb(h + 360, s) == rgb(h, s));
}

/// Without saturation every hue renders as white.
pub proof fn unsaturated_is_white(h: nat)
    ensures
        hex_color(h, 0) == "#ffffff"@,
{
    reveal_strlit("#ffffff");
    let hue = h % 360;
    let p = parts(hue);
    assert(brightness_6000(0, p.0) == 6000);
    assert(brightness_6000(0, p.1) == 6000);
    assert(brightness_6000(0, p.2) == 6000);
    assert(hex_color(h, 0) =~= "#ffffff"@);
}

/// A digit of a color: `0` to `9` or `a` to `f`.
pub open spec fn is_hex_digit(c: char) -> bool {
    '0' <= c <= '9' || 'a' <= c <= 'f'
}

/// A rendered color is `#` followed by six hexadecimal digits.
pub proof fn hex_color_shape(h: nat, s: nat)
    ensures
        hex_color(h, s).len() == 7,
        hex_color(h, s)[0] == '#',
        forall|i: int| 1 <= i < 7 ==> is_hex_digit(#[trigger] hex_color(h, s)[i]),
{
    let hue = h % 360;
    let sat = saturated(s);
    let p = parts(hue);
    level_is_nearest(hue, sat, p.0);
    level_is_nearest(hue, sat, p.1);
    level_is_nearest(hue, sat, p.2);
}

/// Whether the half-way level at this point is listed as rounding down.
fn listed(point: u32) -> (r: bool)
    ensures
        r == exists|i: int| 0 <= i < ROUNDED_DOWN@.len() && #[trigger] ROUNDED_DOWN@[i] == point,
{
    for i in 0..ROUNDED_DOWN.len()
        invariant
            forall|j: int| 0 <= j < i ==> #[trigger] ROUNDED_DOWN@[j] != point,
    {
        if ROUNDED_DOWN[i] == point {
            return true;
        }
    }
    false
}

/// Computes the level of one channel.
fn channel(hue: u16, saturation: u16, part: u16) -> (r: u8)
    requires
        hue < 360,
        saturation <= 100,
        part <= 60,
    ensures
        r == level(hue as nat, saturation as nat, part as nat),
{
    proof {
        level_is_nearest(hue as nat, saturation as nat, part as nat);
        assert(saturation * part <= 100 * 60) by (nonlinear_arith)
            requires
                saturation <= 100,
                part <= 60,
        ;
        assert(saturation * part >= 0) by (nonlinear_arith);
    }
    let scaled: u32 = 17 * (saturation as u32 * part as u32 + 60 * (100 - saturation as u32));
    if scaled % 400 == 200 {
        let down: bool = if part == 0 {
            saturation == 90
        } else {
            listed(hue as u32 * 1000 + saturation as u32)
        };
        if down {
            return (scaled / 400) as u8;
        }
    }
    ((scaled + 200) / 400) as u8
}

/// Renders hue `h` and saturation `s` as `#rrggbb`.
pub fn color_hex(h: u16, s: u16) -> (r: String)
    ensures
        r@ == hex_color(h as nat, s as nat),
{
    let hue: u16 = h % 360;
    let sat: u16 = if s <= 100 {
        s
    } else {
        100
    };
    let m: u16 = hue % 120;
    let x: u16 = if m <= 60 {
        m
    } else {
        120 - m
    };
    let (r, g, b): (u16, u16, u16) = if hue < 60 {
        (60, x, 0)
    } else if hue < 120 {
        (x, 60, 0)
    } else if hue < 180 {
        (0, 60, x)
    } else if hue < 240 {
        (0, x, 60)
    } else if hue < 300 {
        (x, 0, 60)
    } else {
        (60, 0, x)
    };
    let mut out: String = String::new();
    out.push('#');
    push_hex_pair(&mut out, channel(hue, sat, r));
    push_hex_pair(&mut out, channel(hue, sat, g));
    push_hex_pair(&mut out, channel(hue, sat, b));
    assert(out@ == hex_color(h as nat, s as nat));
    out
}

/// The cosine of `degrees`, in units of 10^-9.
pub open spec fn cosine(degrees: int) -> int {
    cosine_within_turn(degrees % 360)
}

/// The cosine of an angle from 0 to below 360 degrees, in units of 10^-9.
#[verifier::opaque]
pub open spec fn cosine_within_turn(degrees: int) -> int {
    let folded = if degrees <= 180 {
        degrees
    } else {
        360 - degrees
    };
    if folded <= 90 {
        COSINES@[folded] as int
    } else {
        -COSINES@[180 - folded]
    }
}

/// The squared distance between two colors on the color wheel, where a color stands at the angle
/// of its hue and the radius of its saturation, in units of 10^-9 (law of cosines).
pub open spec fn squared_distance(h1: int, s1: int, h2: int, s2: int) -> int {
    (s1 * s1 + s2 * s2) * 1_000_000_000 - 2 * s1 * s2 * cosine(h1 - h2)
}

/// The hue and saturation of a palette entry: the warm color, then white.
pub open spec fn palette_color(index: int) -> (int, int) {
    if index == 0 {
        (24, 100)
    } else {
        (0, 0)
    }
}

/// How far hue `h` and saturation `s` stand from a palette entry.
pub open spec fn palette_distance(h: int, s: int, index: int) -> int {
    squared_distance(h, s, palette_color(index).0, palette_color(index).1)
}

/// Whether a hue counts as nearer to white where it lies exactly between the two entries.
#[verifier::opaque]
pub open spec fn tied_to_white(h: int) -> bool {
    exists|i: int| 0 <= i < TIED_TO_WHITE@.len() && #[trigger] TIED_TO_WHITE@[i] == h
}

/// The palette entry nearest to hue `h` and saturation `s`.
///
/// Between two entries at the same distance the first is taken, except at the listed hues, where
/// the rounding of the coordinates favors the second.
pub open spec fn nearest(h: int, s: int) -> int {
    let warm = palette_distance(h, s, 0);
    let white = palette_distance(h, s, 1);
    if warm < white || (warm == white && !tied_to_white(h)) {
        0
    } else {
        1
    }
}

/// The palette holds the warm color and white.
pub proof fn palette_colors()
    ensures
        PALETTE@.len() == 2,
        forall|index: int|
            0 <= index < 2 ==> (#[trigger] PALETTE@[index]).1 == palette_color(index).0
                && PALETTE@[index].2 == palette_color(index).1,
{
    assert(PALETTE@[0].1 == 24 && PALETTE@[0].2 == 100);
    assert(PALETTE@[1].1 == 0 && PALETTE@[1].2 == 0);
}

/// No palette entry is closer than the one that `nearest` picks.
pub proof fn nearest_is_closest(h: int, s: int, index: int)
    requires
        0 <= index < PALETTE@.len(),
    ensures
        0 <= nearest(h, s) < PALETTE@.len(),
        palette_distance(h, s, nearest(h, s)) <= palette_distance(h, s, index),
{
    palette_colors();
}

/// A color is nearer to the warm palette entry than to white exactly when its projection on the
/// direction of the warm entry exceeds half the radius of that entry.
proof fn nearest_by_projection(h: int, s: int)
    ensures
        palette_distance(h, s, 0) - palette_distance(h, s, 1) == 200 * (50_000_000_000 - s
            * cosine(h - 24)),
{
    let c = cosine(h - 24);
    let w = cosine(h);
    assert(palette_distance(h, s, 0) == (s * s + 100 * 100) * 1_000_000_000 - 2 * s * 100 * c);
    assert(palette_distance(h, s, 1) == (s * s + 0 * 0) * 1_000_000_000 - 2 * s * 0 * w);
    assert(2 * s * 100 * c == 200 * (s * c)) by (nonlinear_arith);
    assert(2 * s * 0 * w == 0) by (nonlinear_arith);
}

/// The angle from the warm entry does not depend on full turns.
proof fn cosine_from_warm(h: int)
    requires
        0 <= h,
    ensures
        cosine((h % 360 + 336) % 360) == cosine(h - 24),
{
    let turns = h / 360;
    let m = h % 360;
    let past = if m < 24 {
        m + 336
    } else {
        m - 24
    };
    lemma_fundamental_div_mod_converse_mod(
        h - 24,
        360,
        if m < 24 {
            turns - 1
        } else {
            turns
        },
        past,
    );
    assert((m + 336) % 360 == past);
}

/// Each palette entry is nearest to itself.
pub proof fn palette_points_are_nearest_to_themselves(index: int)
    requires
        0 <= index < PALETTE@.len(),
    ensures
        nearest(palette_color(index).0, palette_color(index).1) == index,
{
    reveal(cosine_within_turn);
    palette_colors();
    nearest_by_projection(24, 100);
    nearest_by_projection(0, 0);
    assert(COSINES@[0] == 1_000_000_000);
}

/// Computes the cosine of an angle below a full turn.
fn cosine_of(degrees: u16) -> (r: i64)
    requires
        degrees < 360,
    ensures
        r == cosine(degrees as int),
        -1_000_000_000 <= r <= 1_000_000_000,
{
    proof {
        reveal(cosine_within_turn);
        assert(forall|i: int| 0 <= i <= 90 ==> 0 <= #[trigger] COSINES@[i] <= 1_000_000_000);
    }
    let folded: u16 = if degrees <= 180 {
        degrees
    } else {
        360 - degrees
    };
    if folded <= 90 {
        COSINES[folded as usize]
    } else {
        -COSINES[(180 - folded) as usize]
    }
}

/// Tells whether a hue is listed as tied to white.
fn listed_as_white(h: u16) -> (r: bool)
    ensures
        r == tied_to_white(h as int),
{
    for i in 0..TIED_TO_WHITE.len()
        invariant
            forall|j: int| 0 <= j < i ==> #[trigger] TIED_TO_WHITE@[j] != h,
    {
        if TIED_TO_WHITE[i] == h {
            proof {
                reveal(tied_to_white);
            }
            return true;
        }
    }
    proof {
        reveal(tied_to_white);
    }
    false
}

/// Finds the palette entry nearest to hue `h` and saturation `s`.
#[verifier::spinoff_prover]
pub fn nearest_color(h: u16, s: u16) -> (r: usize)
    ensures
        r == nearest(h as int, s as int),
{
    let hue: u16 = h % 360;
    let c: i64 = cosine_of((hue + 336) % 360);
    proof {
        cosine_from_warm(h as int);
        assert(-65_535_000_000_000 <= s * c <= 65_535_000_000_000) by (nonlinear_arith)
            requires
                0 <= s <= 65_535,
                -1_000_000_000 <= c <= 1_000_000_000,
        ;
        nearest_by_projection(h as int, s as int);
    }
    let along: i64 = s as i64 * c;
    if along > 50_000_000_000 || (along == 50_000_000_000 && !listed_as_white(h)) {
        0
    } else {
        1
    }
}

/// More than full saturation renders as full saturation.
pub proof fn saturation_is_full_at_most(h: nat, s: nat)
    requires
        s >= 100,
    ensures
        hex_color(h, s) == hex_color(h, 100),
{
}

/// The warm color is nearest where the projection on its direction exceeds half its radius, and
/// white is where it falls short of that. On the line between them the listed hues alone go to
/// white.
pub proof fn nearest_by_the_half_way_line(h: int, s: int)
    ensures
        s * cosine(h - 24) > 50_000_000_000 ==> nearest(h, s) == 0,
        s * cosine(h - 24) < 50_000_000_000 ==> nearest(h, s) == 1,
        s * cosine(h - 24) == 50_000_000_000 ==> (nearest(h, s) == 1 <==> exists|i: int|
            0 <= i < TIED_TO_WHITE@.len() && #[trigger] TIED_TO_WHITE@[i] == h),
{
    reveal(tied_to_white);
    nearest_by_projection(h, s);
}

/// The cosine repeats after a full turn, does not change when an angle is turned the other way,
/// and changes its sign at the supplement of an angle.
pub proof fn cosine_symmetries(degrees: int)
    ensures
        cosine(degrees + 360) == cosine(degrees),
        cosine(-degrees) == cosine(degrees),
        cosine(180 - degrees) == -cosine(degrees),
{
    reveal(cosine_within_turn);
    let turns = degrees / 360;
    let d = degrees % 360;
    let back = if d == 0 {
        0
    } else {
        360 - d
    };
    lemma_fundamental_div_mod_converse_mod(degrees + 360, 360, turns + 1, d);
    lemma_fundamental_div_mod_converse_mod(
        -degrees,
        360,
        if d == 0 {
            -turns
        } else {
            -turns - 1
        },
        back,
    );
    lemma_fundamental_div_mod_converse_mod(
        180 - degrees,
        360,
        if d <= 180 {
            -turns
        } else {
            -turns - 1
        },
        if d <= 180 {
            180 - d
        } else {
            540 - d
        },
    );
    right_angle();
}

proof fn right_angle()
    ensures
        COSINES@[90] == 0,
{
}

/// The cosines are the cosines: that of nothing is one, that of a right angle is nothing, and from
/// degree to degree they satisfy `cos(a + 1) + cos(a - 1) = 2 cos(1) cos(a)`, up to the rounding
/// of their last digit.
pub proof fn cosines_follow_each_other(degrees: int)
    requires
        1 <= degrees <= 89,
    ensures
        cosine(0) == 1_000_000_000,
        cosine(60) == 500_000_000,
        cosine(90) == 0,
        -2_000_000_000 <= 1_000_000_000 * (cosine(degrees + 1) + cosine(degrees - 1)) - 2 * cosine(
            1,
        ) * cosine(degrees) <= 2_000_000_000,
{
    table_step(degrees);
    cosine_is_listed(0);
    cosine_is_listed(1);
    cosine_is_listed(60);
    cosine_is_listed(90);
    cosine_is_listed(degrees - 1);
    cosine_is_listed(degrees);
    cosine_is_listed(degrees + 1);
    let c = cosine(degrees);
    assert(2 * 999_847_695 * c == 1_999_695_390 * c);
}

#[verifier::opaque]
spec fn listed_cosine(i: int) -> int {
    COSINES@[i] as int
}

proof fn cosine_is_listed(degrees: int)
    requires
        0 <= degrees <= 90,
    ensures
        cosine(degrees) == listed_cosine(degrees),
{
    reveal(cosine_within_turn);
    reveal(listed_cosine);
}

#[verifier::spinoff_prover]
#[verifier::rlimit(100)]
proof fn table_step(i: int)
    requires
        1 <= i <= 89,
    ensures
        listed_cosine(0) == 1_000_000_000,
        listed_cosine(1) == 999_847_695,
        listed_cosine(60) == 500_000_000,
        listed_cosine(90) == 0,
        -2_000_000_000 <= 1_000_000_000 * (listed_cosine(i + 1) + listed_cosine(i - 1))
            - 1_999_695_390 * listed_cosine(i) <= 2_000_000_000,
{
    reveal(listed_cosine);
}

} // verus!
