use pong::fixed::{Fixed, LIMIT_RAW, ONE_RAW};

fn raw(v: i64) -> Fixed {
    Fixed::from_raw(v).unwrap()
}

#[test]
fn from_raw_accepts_the_whole_range() {
    assert_eq!(Fixed::from_raw(0).unwrap().raw(), 0);
    assert_eq!(Fixed::from_raw(LIMIT_RAW).unwrap().raw(), LIMIT_RAW);
    assert_eq!(Fixed::from_raw(-LIMIT_RAW).unwrap().raw(), -LIMIT_RAW);
    assert_eq!(Fixed::from_raw(-12345).unwrap().raw(), -12345);
}

#[test]
fn from_raw_rejects_what_lies_beyond() {
    assert!(Fixed::from_raw(LIMIT_RAW + 1).is_none());
    assert!(Fixed::from_raw(-LIMIT_RAW - 1).is_none());
    assert!(Fixed::from_raw(i64::MAX).is_none());
    assert!(Fixed::from_raw(i64::MIN).is_none());
}

#[test]
fn constants_have_their_documented_values() {
    assert_eq!(ONE_RAW, 1 << 16);
    assert_eq!(LIMIT_RAW, 1 << 47);
}

#[test]
fn from_int_scales_by_one() {
    assert_eq!(Fixed::from_int(0).raw(), 0);
    assert_eq!(Fixed::from_int(1).raw(), 65536);
    assert_eq!(Fixed::from_int(-3).raw(), -196608);
    assert_eq!(Fixed::from_int(1920).raw(), 125829120);
    assert_eq!(Fixed::from_int(i32::MIN).raw(), -LIMIT_RAW);
    assert_eq!(Fixed::from_int(i32::MAX).raw(), LIMIT_RAW - 65536);
}

#[test]
fn from_parts_adds_the_fraction() {
    assert_eq!(Fixed::from_parts(0, 32768).raw(), 32768);
    assert_eq!(Fixed::from_parts(10, 32768).raw(), 688128);
    assert_eq!(Fixed::from_parts(-1, 32768).raw(), -32768);
    assert_eq!(Fixed::from_parts(7, 0), Fixed::from_int(7));
    assert_eq!(Fixed::from_parts(i32::MAX, 65535).raw(), LIMIT_RAW - 1);
    assert_eq!(Fixed::from_parts(i32::MIN, 0).raw(), -LIMIT_RAW);
}

#[test]
fn zero_is_zero() {
    assert_eq!(Fixed::zero().raw(), 0);
    assert_eq!(Fixed::zero(), Fixed::from_int(0));
}

#[test]
fn plus_adds_raw_values() {
    assert_eq!(raw(5).plus(raw(7)).raw(), 12);
    assert_eq!(raw(5).plus(raw(-7)).raw(), -2);
    assert_eq!(Fixed::from_int(952).plus(Fixed::from_int(-10)), Fixed::from_int(942));
}

#[test]
fn plus_clamps_at_both_ends() {
    assert_eq!(raw(LIMIT_RAW).plus(raw(1)).raw(), LIMIT_RAW);
    assert_eq!(raw(LIMIT_RAW).plus(raw(LIMIT_RAW)).raw(), LIMIT_RAW);
    assert_eq!(raw(-LIMIT_RAW).plus(raw(-1)).raw(), -LIMIT_RAW);
    assert_eq!(raw(-LIMIT_RAW).plus(raw(-LIMIT_RAW)).raw(), -LIMIT_RAW);
    assert_eq!(raw(LIMIT_RAW - 1).plus(raw(1)).raw(), LIMIT_RAW);
    assert_eq!(raw(LIMIT_RAW).plus(raw(-LIMIT_RAW)).raw(), 0);
}

#[test]
fn minus_subtracts_raw_values() {
    assert_eq!(raw(5).minus(raw(7)).raw(), -2);
    assert_eq!(raw(5).minus(raw(-7)).raw(), 12);
    assert_eq!(Fixed::from_int(960).minus(Fixed::from_int(8)), Fixed::from_int(952));
}

#[test]
fn minus_clamps_at_both_ends() {
    assert_eq!(raw(-LIMIT_RAW).minus(raw(1)).raw(), -LIMIT_RAW);
    assert_eq!(raw(LIMIT_RAW).minus(raw(-1)).raw(), LIMIT_RAW);
    assert_eq!(raw(LIMIT_RAW).minus(raw(-LIMIT_RAW)).raw(), LIMIT_RAW);
    assert_eq!(raw(-LIMIT_RAW).minus(raw(LIMIT_RAW)).raw(), -LIMIT_RAW);
    assert_eq!(raw(LIMIT_RAW).minus(raw(LIMIT_RAW)).raw(), 0);
}

#[test]
fn negated_is_exact_over_the_whole_range() {
    assert_eq!(raw(5).negated().raw(), -5);
    assert_eq!(raw(0).negated().raw(), 0);
    assert_eq!(raw(LIMIT_RAW).negated().raw(), -LIMIT_RAW);
    assert_eq!(raw(-LIMIT_RAW).negated().raw(), LIMIT_RAW);
    assert_eq!(raw(-LIMIT_RAW).negated().negated().raw(), -LIMIT_RAW);
}

#[test]
fn halved_rounds_towards_zero() {
    assert_eq!(raw(4).halved().raw(), 2);
    assert_eq!(raw(3).halved().raw(), 1);
    assert_eq!(raw(1).halved().raw(), 0);
    assert_eq!(raw(0).halved().raw(), 0);
    assert_eq!(raw(-1).halved().raw(), 0);
    assert_eq!(raw(-3).halved().raw(), -1);
    assert_eq!(raw(-4).halved().raw(), -2);
    assert_eq!(Fixed::from_int(15).halved(), Fixed::from_parts(7, 32768));
    assert_eq!(raw(LIMIT_RAW).halved().raw(), LIMIT_RAW / 2);
    assert_eq!(raw(-LIMIT_RAW).halved().raw(), -LIMIT_RAW / 2);
}

#[test]
fn times_multiplies_numbers() {
    let one_and_a_half = Fixed::from_parts(1, 32768);
    let two_and_a_half = Fixed::from_parts(2, 32768);
    assert_eq!(one_and_a_half.times(two_and_a_half), Fixed::from_parts(3, 49152));
    assert_eq!(Fixed::from_int(4).times(Fixed::from_int(-3)), Fixed::from_int(-12));
    assert_eq!(Fixed::from_int(-4).times(Fixed::from_int(-3)), Fixed::from_int(12));
    assert_eq!(Fixed::from_int(7).times(Fixed::zero()), Fixed::zero());
    assert_eq!(Fixed::from_int(7).times(Fixed::from_int(1)), Fixed::from_int(7));
}

#[test]
fn times_rounds_towards_zero() {
    let half = Fixed::from_parts(0, 32768);
    assert_eq!(raw(3).times(half).raw(), 1);
    assert_eq!(raw(-3).times(half).raw(), -1);
    assert_eq!(raw(3).times(half.negated()).raw(), -1);
    assert_eq!(raw(-3).times(half.negated()).raw(), 1);
    assert_eq!(raw(1).times(raw(1)).raw(), 0);
    assert_eq!(raw(-1).times(raw(65535)).raw(), 0);
}

#[test]
fn times_clamps_at_both_ends() {
    let big = Fixed::from_int(65536);
    assert_eq!(big.times(big).raw(), LIMIT_RAW);
    assert_eq!(big.times(big.negated()).raw(), -LIMIT_RAW);
    assert_eq!(big.negated().times(big.negated()).raw(), LIMIT_RAW);
    assert_eq!(raw(LIMIT_RAW).times(raw(LIMIT_RAW)).raw(), LIMIT_RAW);
    assert_eq!(raw(LIMIT_RAW).times(raw(-LIMIT_RAW)).raw(), -LIMIT_RAW);
    assert_eq!(Fixed::from_int(32768).times(Fixed::from_int(65536)).raw(), LIMIT_RAW);
    assert_eq!(Fixed::from_int(32768).times(Fixed::from_int(32768)).raw(), 1 << 46);
}

#[test]
fn over_divides_numbers() {
    assert_eq!(Fixed::from_int(32).over(Fixed::from_int(128)).raw(), 16384);
    assert_eq!(Fixed::from_int(12).over(Fixed::from_int(-3)), Fixed::from_int(-4));
    assert_eq!(Fixed::from_int(-12).over(Fixed::from_int(-3)), Fixed::from_int(4));
    assert_eq!(Fixed::zero().over(Fixed::from_int(5)), Fixed::zero());
    assert_eq!(Fixed::from_int(5).over(Fixed::from_int(1)), Fixed::from_int(5));
    assert_eq!(Fixed::from_int(1).over(raw(1)).raw(), 1 << 32);
}

#[test]
fn over_rounds_towards_zero() {
    assert_eq!(Fixed::from_int(1).over(Fixed::from_int(3)).raw(), 21845);
    assert_eq!(Fixed::from_int(-1).over(Fixed::from_int(3)).raw(), -21845);
    assert_eq!(Fixed::from_int(1).over(Fixed::from_int(-3)).raw(), -21845);
    assert_eq!(Fixed::from_int(-1).over(Fixed::from_int(-3)).raw(), 21845);
    assert_eq!(Fixed::from_int(2).over(Fixed::from_int(3)).raw(), 43690);
    assert_eq!(raw(1).over(Fixed::from_int(2)).raw(), 0);
    assert_eq!(raw(-1).over(Fixed::from_int(2)).raw(), 0);
}

#[test]
fn over_clamps_at_both_ends() {
    assert_eq!(Fixed::from_int(i32::MAX).over(raw(1)).raw(), LIMIT_RAW);
    assert_eq!(Fixed::from_int(i32::MIN).over(raw(1)).raw(), -LIMIT_RAW);
    assert_eq!(Fixed::from_int(i32::MAX).over(raw(-1)).raw(), -LIMIT_RAW);
    assert_eq!(raw(LIMIT_RAW).over(Fixed::from_parts(0, 32768)).raw(), LIMIT_RAW);
    assert_eq!(raw(LIMIT_RAW).over(raw(LIMIT_RAW)), Fixed::from_int(1));
    assert_eq!(raw(-LIMIT_RAW).over(raw(LIMIT_RAW)), Fixed::from_int(-1));
}

#[test]
fn signum_is_one_minus_one_or_zero() {
    assert_eq!(Fixed::from_int(10).signum(), Fixed::from_int(1));
    assert_eq!(raw(1).signum(), Fixed::from_int(1));
    assert_eq!(Fixed::from_int(-10).signum(), Fixed::from_int(-1));
    assert_eq!(raw(-1).signum(), Fixed::from_int(-1));
    assert_eq!(Fixed::zero().signum(), Fixed::zero());
    assert_eq!(raw(LIMIT_RAW).signum().raw(), 65536);
    assert_eq!(raw(-LIMIT_RAW).signum().raw(), -65536);
}

#[test]
fn lt_and_le_compare_numbers() {
    assert!(raw(1).lt(raw(2)));
    assert!(!raw(2).lt(raw(2)));
    assert!(!raw(3).lt(raw(2)));
    assert!(raw(-5).lt(raw(0)));
    assert!(raw(1).le(raw(2)));
    assert!(raw(2).le(raw(2)));
    assert!(!raw(3).le(raw(2)));
    assert!(raw(-LIMIT_RAW).lt(raw(LIMIT_RAW)));
    assert!(!raw(LIMIT_RAW).le(raw(-LIMIT_RAW)));
}

#[test]
fn fixed_point_agrees_with_floating_point_on_halves() {
    let cases: [(f32, f32); 4] = [(10.0, 0.5), (-10.0, -0.5), (1920.0, -8.0), (0.5, 0.5)];
    for (a, b) in cases {
        let fa = raw((a * 65536.0) as i64);
        let fb = raw((b * 65536.0) as i64);
        assert_eq!(fa.plus(fb).raw() as f32 / 65536.0, a + b);
        assert_eq!(fa.minus(fb).raw() as f32 / 65536.0, a - b);
        assert_eq!(fa.times(fb).raw() as f32 / 65536.0, a * b);
        assert_eq!(fa.halved().raw() as f32 / 65536.0, a / 2.0);
    }
}
