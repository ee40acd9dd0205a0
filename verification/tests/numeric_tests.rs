use simdb::numeric::BigNumber;

#[test]
fn integral_widens_exactly() {
    assert_eq!(f64::from_bits(BigNumber::Int(7).covnvert_to_float()), 7.0);
    assert_eq!(f64::from_bits(BigNumber::Int(0).covnvert_to_float()), 0.0);
    assert_eq!(f64::from_bits(BigNumber::Int(-3).covnvert_to_float()), -3.0);
    assert_eq!(f64::from_bits(BigNumber::Int(1).covnvert_to_float()), 1.0);
    assert_eq!(
        f64::from_bits(BigNumber::Int(9007199254740992).covnvert_to_float()),
        9007199254740992.0
    );
    assert_eq!(
        f64::from_bits(BigNumber::Int(-9007199254740992).covnvert_to_float()),
        -9007199254740992.0
    );
}

#[test]
fn integral_widening_rounds_to_nearest_even() {
    // Beyond 2^53 the conversion agrees with Rust's own `as f64` cast.
    for &v in &[
        9007199254740993i64,
        9007199254740995i64,
        36028797018963971i64,
        i64::MAX,
        i64::MIN,
        i64::MAX - 1024,
        -36028797018963971i64,
    ] {
        assert_eq!(f64::from_bits(BigNumber::Int(v).covnvert_to_float()), v as f64);
    }
}

#[test]
fn fractional_truncates_toward_zero() {
    assert_eq!(BigNumber::Float(7.9f64.to_bits()).covnvert_to_int(), 7);
    assert_eq!(BigNumber::Float((-7.9f64).to_bits()).covnvert_to_int(), -7);
    assert_eq!(BigNumber::Float(0.5f64.to_bits()).covnvert_to_int(), 0);
    assert_eq!(BigNumber::Float((-0.5f64).to_bits()).covnvert_to_int(), 0);
    assert_eq!(BigNumber::Float(42.0f64.to_bits()).covnvert_to_int(), 42);
    assert_eq!(BigNumber::Float((-0.0f64).to_bits()).covnvert_to_int(), 0);
    assert_eq!(BigNumber::Float(1e-308f64.to_bits()).covnvert_to_int(), 0);
}

#[test]
fn fractional_conversion_saturates_like_a_cast() {
    assert_eq!(BigNumber::Float(f64::NAN.to_bits()).covnvert_to_int(), 0);
    assert_eq!(BigNumber::Float(f64::INFINITY.to_bits()).covnvert_to_int(), i64::MAX);
    assert_eq!(BigNumber::Float(f64::NEG_INFINITY.to_bits()).covnvert_to_int(), i64::MIN);
    assert_eq!(BigNumber::Float(1e300f64.to_bits()).covnvert_to_int(), i64::MAX);
    assert_eq!(BigNumber::Float((-1e300f64).to_bits()).covnvert_to_int(), i64::MIN);
    assert_eq!(BigNumber::Float((-9.223372036854776e18f64).to_bits()).covnvert_to_int(), i64::MIN);
    // A sweep against the reference semantics of `as i64`.
    for &f in &[3.7f64, -123456.99, 2.0f64.powi(52) + 0.5, -(2.0f64.powi(62)), 1.0e15 + 0.25] {
        assert_eq!(BigNumber::Float(f.to_bits()).covnvert_to_int(), f as i64);
    }
}

#[test]
fn integral_conversion_is_identity() {
    assert_eq!(BigNumber::Int(7).covnvert_to_int(), 7);
    assert_eq!(BigNumber::Int(i64::MIN).covnvert_to_int(), i64::MIN);
    assert_eq!(BigNumber::Int(i64::MAX).covnvert_to_int(), i64::MAX);
}

#[test]
fn fractional_widening_is_identity() {
    let bits = 7.9f64.to_bits();
    assert_eq!(BigNumber::Float(bits).covnvert_to_float(), bits);
}

#[test]
fn roundtrip_within_exact_range() {
    for &v in &[0i64, 7, -7, 1 << 52, -(1 << 53), (1 << 53), 999999999999] {
        let widened = BigNumber::Int(v).covnvert_to_float();
        assert_eq!(BigNumber::Float(widened).covnvert_to_int(), v);
    }
}

#[test]
fn host_number_coercion_prefers_integral() {
    assert_eq!(
        BigNumber::from_host_number(Some(4), None),
        Some(BigNumber::Int(4))
    );
    let bits = 4.5f64.to_bits();
    assert_eq!(
        BigNumber::from_host_number(Some(4), Some(bits)),
        Some(BigNumber::Int(4))
    );
    assert_eq!(
        BigNumber::from_host_number(None, Some(bits)),
        Some(BigNumber::Float(bits))
    );
    assert_eq!(BigNumber::from_host_number(None, None), None);
}
