use hydrolox_pga3d::scalar::{Scalar, FRACTION_BITS, HALF_RAW, MAX_RAW, ONE_RAW, ONE_SQUARED};

#[test]
fn scalar_constants_agree() {
    assert_eq!(FRACTION_BITS, 20);
    assert_eq!(ONE_RAW, 1 << FRACTION_BITS);
    assert_eq!(HALF_RAW * 2, ONE_RAW);
    assert_eq!(ONE_SQUARED, (ONE_RAW as i64) * (ONE_RAW as i64));
    assert_eq!(MAX_RAW, i32::MAX);
    assert_eq!(Scalar::one().raw, 1048576);
    assert_eq!(Scalar::zero().raw, 0);
}

#[test]
fn scalar_from_int_scales_by_one() {
    assert_eq!(Scalar::from_int(3).raw, 3145728);
    assert_eq!(Scalar::from_int(-2).raw, -2097152);
    assert_eq!(Scalar::from_int(2047).raw, 2047 * 1048576);
    assert_eq!(Scalar::from_int(-2047).raw, -2047 * 1048576);
}

#[test]
fn scalar_from_int_clamps() {
    assert_eq!(Scalar::from_int(2048).raw, i32::MAX);
    assert_eq!(Scalar::from_int(-2048).raw, -i32::MAX);
    assert_eq!(Scalar::from_int(i16::MAX).raw, i32::MAX);
    assert_eq!(Scalar::from_int(i16::MIN).raw, -i32::MAX);
}

#[test]
fn scalar_from_raw_keeps_the_raw_value() {
    assert_eq!(Scalar::from_raw(-7).raw, -7);
    assert_eq!(Scalar::from_raw(i32::MAX).raw, i32::MAX);
    assert_eq!(Scalar::from_raw(-i32::MAX).raw, -i32::MAX);
}

#[test]
fn scalar_from_raw_gives_valid_scalars() {
    assert_eq!(Scalar::from_raw(i32::MIN).raw, -i32::MAX);
}

#[test]
fn scalar_negated_is_symmetric() {
    assert_eq!(Scalar::from_raw(5).negated().raw, -5);
    assert_eq!(Scalar::from_raw(-5).negated().raw, 5);
    assert_eq!(Scalar::from_raw(0).negated().raw, 0);
    assert_eq!(Scalar::from_raw(i32::MAX).negated().raw, -i32::MAX);
    assert_eq!(Scalar::from_raw(i32::MAX).negated().negated().raw, i32::MAX);
}

#[test]
fn scalar_negated_saturates_at_the_least_value() {
    let least = Scalar { raw: i32::MIN };
    assert_eq!(least.negated().raw, i32::MAX);
}

#[test]
fn scalar_round_goes_to_the_nearest_whole_number() {
    // 1.25 and 1.75
    assert_eq!(Scalar::from_raw(1310720).round(), Scalar::from_int(1));
    assert_eq!(Scalar::from_raw(1835008).round(), Scalar::from_int(2));
    assert_eq!(Scalar::from_raw(-1310720).round(), Scalar::from_int(-1));
    assert_eq!(Scalar::from_raw(-1835008).round(), Scalar::from_int(-2));
    assert_eq!(Scalar::from_int(7).round(), Scalar::from_int(7));
}

#[test]
fn scalar_round_takes_halves_away_from_zero() {
    assert_eq!(Scalar::from_raw(524288).round(), Scalar::from_int(1));
    assert_eq!(Scalar::from_raw(-524288).round(), Scalar::from_int(-1));
    assert_eq!(Scalar::from_raw(524287).round(), Scalar::from_int(0));
    assert_eq!(Scalar::from_raw(-524287).round(), Scalar::from_int(0));
    assert_eq!(Scalar::from_raw(1572864).round(), Scalar::from_int(2));
    assert_eq!(Scalar::from_raw(-1572864).round(), Scalar::from_int(-2));
}

#[test]
fn scalar_round_clamps_at_the_ends() {
    assert_eq!(Scalar::from_raw(i32::MAX).round().raw, i32::MAX);
    assert_eq!(Scalar::from_raw(-i32::MAX).round().raw, -i32::MAX);
    assert_eq!(Scalar::from_raw(i32::MAX - 524288).round().raw, 2047 * 1048576);
}

#[test]
fn scalar_sqrt_of_squares_is_exact() {
    assert_eq!(Scalar::from_int(4).sqrt(), Scalar::from_int(2));
    assert_eq!(Scalar::from_int(1).sqrt(), Scalar::from_int(1));
    assert_eq!(Scalar::from_int(144).sqrt(), Scalar::from_int(12));
    // the root of a quarter is a half
    assert_eq!(Scalar::from_raw(262144).sqrt().raw, 524288);
}

#[test]
fn scalar_sqrt_rounds_down() {
    assert_eq!(Scalar::from_int(2).sqrt().raw, 1482910);
    assert_eq!(Scalar::from_int(26).sqrt().raw, 5346709);
    // the smallest positive scalar
    assert_eq!(Scalar::from_raw(1).sqrt().raw, 1024);
    let top = Scalar::from_raw(i32::MAX).sqrt().raw as i64;
    let n = (i32::MAX as i64) * 1048576;
    assert_eq!(top, 47453132);
    assert!(top * top <= n && n < (top + 1) * (top + 1));
}

#[test]
fn scalar_sqrt_of_what_is_not_positive_is_zero() {
    assert_eq!(Scalar::zero().sqrt().raw, 0);
    assert_eq!(Scalar::from_int(-4).sqrt().raw, 0);
    assert_eq!(Scalar::from_raw(-i32::MAX).sqrt().raw, 0);
}
