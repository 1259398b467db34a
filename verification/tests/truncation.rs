use iced_baseview::binary::Binary64;

fn cut(value: f64) -> u32 {
    Binary64 { bits: value.to_bits() }.to_u32()
}

#[test]
fn truncation_drops_the_fraction() {
    assert_eq!(cut(800.4), 800);
    assert_eq!(cut(600.9), 600);
    assert_eq!(cut(0.999_999), 0);
    assert_eq!(cut(1.0), 1);
    assert_eq!(cut(1.5), 1);
    assert_eq!(cut(2.999), 2);
    assert_eq!(cut(1920.0), 1920);
}

#[test]
fn truncation_of_zero_and_tiny_numbers_is_zero() {
    assert_eq!(cut(0.0), 0);
    assert_eq!(cut(-0.0), 0);
    assert_eq!(cut(f64::MIN_POSITIVE), 0);
    assert_eq!(cut(f64::from_bits(1)), 0);
    assert_eq!(cut(f64::from_bits(0x000f_ffff_ffff_ffff)), 0);
    assert_eq!(cut(f64::EPSILON), 0);
}

#[test]
fn truncation_of_negative_numbers_is_zero() {
    assert_eq!(cut(-0.5), 0);
    assert_eq!(cut(-1.0), 0);
    assert_eq!(cut(-800.4), 0);
    assert_eq!(cut(f64::MIN), 0);
    assert_eq!(cut(f64::NEG_INFINITY), 0);
}

#[test]
fn truncation_saturates_at_the_top() {
    assert_eq!(cut(4_294_967_294.5), 4_294_967_294);
    assert_eq!(cut(4_294_967_295.0), u32::MAX);
    assert_eq!(cut(4_294_967_295.9), u32::MAX);
    assert_eq!(cut(4_294_967_296.0), u32::MAX);
    assert_eq!(cut(1.0e10), u32::MAX);
    assert_eq!(cut(9_007_199_254_740_992.0), u32::MAX);
    assert_eq!(cut(1.0e300), u32::MAX);
    assert_eq!(cut(f64::MAX), u32::MAX);
    assert_eq!(cut(f64::INFINITY), u32::MAX);
}

#[test]
fn truncation_of_not_a_number_is_zero() {
    assert_eq!(cut(f64::NAN), 0);
    assert_eq!(Binary64 { bits: 0x7ff0_0000_0000_0001 }.to_u32(), 0);
    assert_eq!(Binary64 { bits: 0xfff8_0000_0000_0000 }.to_u32(), 0);
    assert_eq!(Binary64 { bits: 0x7fff_ffff_ffff_ffff }.to_u32(), 0);
}

#[test]
fn truncation_is_exact_at_powers_of_two() {
    let mut power: f64 = 1.0;
    let mut expected: u64 = 1;
    while expected <= u32::MAX as u64 {
        assert_eq!(cut(power), expected as u32);
        assert_eq!(cut(power - 0.25), (expected - 1) as u32);
        assert_eq!(cut(power + 0.75), expected as u32);
        power *= 2.0;
        expected *= 2;
    }
}

#[test]
fn truncation_agrees_with_the_cast_of_the_language() {
    let mut state: u64 = 0x9e37_79b9_7f4a_7c15;
    let mut checked: u32 = 0;
    while checked < 200_000 {
        state = state.wrapping_mul(6_364_136_223_846_793_005).wrapping_add(1_442_695_040_888_963_407);
        let bits = state ^ (state >> 29);
        let value = f64::from_bits(bits);
        assert_eq!(Binary64 { bits }.to_u32(), value as u32);
        // The same fraction with an exponent near the range of `u32`.
        let near = (bits & 0x800f_ffff_ffff_ffff) | ((1000 + (bits >> 52) % 80) << 52);
        assert_eq!(Binary64 { bits: near }.to_u32(), f64::from_bits(near) as u32);
        checked += 1;
    }
}

#[test]
fn truncation_agrees_with_the_cast_on_whole_numbers() {
    let mut whole: u64 = 0;
    while whole <= u32::MAX as u64 {
        let value = whole as f64;
        assert_eq!(cut(value), whole as u32);
        assert_eq!(cut(value + 0.5), whole as u32);
        whole += 65_521;
    }
}
