use blobber::fixed::{minus, plus, reciprocal, round, scale, FRAC_PI_2, HALF, LIMIT, PI, UNIT};

#[test]
fn constants_have_their_values() {
    assert_eq!(UNIT, 65536);
    assert_eq!(HALF * 2, UNIT);
    assert_eq!(LIMIT, 1i64 << 46);
    assert_eq!(LIMIT % UNIT, 0);
    assert_eq!(FRAC_PI_2, 102944);
    assert_eq!(PI, 205887);
    assert_eq!(blobber::TILE_SIZE, UNIT);
}

#[test]
fn plus_adds_within_the_limit() {
    assert_eq!(plus(3, 4), 7);
    assert_eq!(plus(-UNIT, UNIT), 0);
    assert_eq!(plus(LIMIT - 1, 1), LIMIT);
}

#[test]
fn plus_saturates_at_both_ends() {
    assert_eq!(plus(LIMIT, 1), LIMIT);
    assert_eq!(plus(i64::MAX, i64::MAX), LIMIT);
    assert_eq!(plus(-LIMIT, -1), -LIMIT);
    assert_eq!(plus(i64::MIN, i64::MIN), -LIMIT);
    assert_eq!(plus(i64::MAX, 0), LIMIT);
}

#[test]
fn minus_subtracts_and_saturates() {
    assert_eq!(minus(10, 4), 6);
    assert_eq!(minus(0, UNIT), -UNIT);
    assert_eq!(minus(0, i64::MIN), LIMIT);
    assert_eq!(minus(-LIMIT, 1), -LIMIT);
    assert_eq!(minus(i64::MIN, i64::MAX), -LIMIT);
}

#[test]
fn round_goes_to_the_nearest_whole() {
    assert_eq!(round(0), 0);
    assert_eq!(round(UNIT), UNIT);
    assert_eq!(round(HALF - 1), 0);
    assert_eq!(round(UNIT + HALF - 1), UNIT);
    assert_eq!(round(65520), UNIT);
    assert_eq!(round(-65520), -UNIT);
    assert_eq!(round(-(HALF - 1)), 0);
}

#[test]
fn round_takes_a_tie_away_from_zero() {
    assert_eq!(round(HALF), UNIT);
    assert_eq!(round(-HALF), -UNIT);
    assert_eq!(round(UNIT + HALF), 2 * UNIT);
    assert_eq!(round(-UNIT - HALF), -2 * UNIT);
}

#[test]
fn round_stays_within_the_limit() {
    assert_eq!(round(LIMIT), LIMIT);
    assert_eq!(round(i64::MAX), LIMIT);
    assert_eq!(round(i64::MIN), -LIMIT);
    assert_eq!(round(LIMIT - 1), LIMIT);
}

#[test]
fn scale_multiplies_fixed_point() {
    assert_eq!(scale(UNIT, UNIT), UNIT);
    assert_eq!(scale(2 * UNIT, 3 * UNIT), 6 * UNIT);
    assert_eq!(scale(HALF, HALF), UNIT / 4);
    assert_eq!(scale(UNIT, FRAC_PI_2), FRAC_PI_2);
    assert_eq!(scale(0, 12345), 0);
    assert_eq!(scale(2184, FRAC_PI_2), 3430);
}

#[test]
fn scale_drops_the_fraction_towards_zero() {
    assert_eq!(scale(1, 1), 0);
    assert_eq!(scale(-1, 1), 0);
    assert_eq!(scale(3, HALF), 1);
    assert_eq!(scale(-3, HALF), -1);
    assert_eq!(scale(3, -HALF), -1);
    assert_eq!(scale(-3, -HALF), 1);
}

#[test]
fn scale_saturates() {
    assert_eq!(scale(i64::MAX, i64::MAX), LIMIT);
    assert_eq!(scale(i64::MIN, i64::MIN), LIMIT);
    assert_eq!(scale(i64::MIN, i64::MAX), -LIMIT);
    assert_eq!(scale(LIMIT, 2 * UNIT), LIMIT);
}

#[test]
fn reciprocal_divides_the_unit() {
    assert_eq!(reciprocal(1), UNIT);
    assert_eq!(reciprocal(2), HALF);
    assert_eq!(reciprocal(30), 2184);
    assert_eq!(reciprocal(65536), 1);
    assert_eq!(reciprocal(65537), 0);
    assert_eq!(reciprocal(u32::MAX), 0);
}

#[test]
fn reciprocal_of_zero_is_the_limit() {
    assert_eq!(reciprocal(0), LIMIT);
}
