//! Rounding and decimal rendering on scaled integers.

use aviation_calculator::numeric::{div_round_half_away, hundredths_string, millionths_string};

#[test]
fn rounding_is_half_away_from_zero() {
    assert_eq!(div_round_half_away(5, 10), 1);
    assert_eq!(div_round_half_away(-5, 10), -1);
    assert_eq!(div_round_half_away(4, 10), 0);
    assert_eq!(div_round_half_away(-4, 10), 0);
    assert_eq!(div_round_half_away(15, 10), 2);
    assert_eq!(div_round_half_away(-15, 10), -2);
    assert_eq!(div_round_half_away(5555500, 100000), 56);
}

#[test]
fn hundredths_render_like_plain_decimals() {
    assert_eq!(hundredths_string(47200), "472");
    assert_eq!(hundredths_string(47250), "472.5");
    assert_eq!(hundredths_string(60010), "600.1");
    assert_eq!(hundredths_string(-9000), "-90");
    assert_eq!(hundredths_string(-9010), "-90.1");
    assert_eq!(hundredths_string(0), "0");
    assert_eq!(hundredths_string(-5), "-0.05");
    assert_eq!(hundredths_string(101), "1.01");
}

#[test]
fn millionths_render_like_plain_decimals() {
    assert_eq!(millionths_string(-1_524_000_000), "-1524");
    assert_eq!(millionths_string(-1_000_000_000), "-1000");
    assert_eq!(millionths_string(80_000_000_000), "80000");
    assert_eq!(millionths_string(113_700_000), "113.7");
    assert_eq!(millionths_string(123_456), "0.123456");
}
