use stake_service::PipelineError;
use stake_service::parse_amount;

#[test]
fn parse_one_ether_round_trip() {
    let a = parse_amount("1000000000000000000").unwrap();
    assert_eq!(a.w0, 1000000000000000000u64);
    assert_eq!(a.w1, 0);
    assert_eq!(a.w2, 0);
    assert_eq!(a.w3, 0);
    assert_eq!(a.to_dec_string(), "1000000000000000000");
}

#[test]
fn parse_max_256_bit_value() {
    let max = "115792089237316195423570985008687907853269984665640564039457584007913129639935";
    let a = parse_amount(max).unwrap();
    assert_eq!(a.w0, u64::MAX);
    assert_eq!(a.w1, u64::MAX);
    assert_eq!(a.w2, u64::MAX);
    assert_eq!(a.w3, u64::MAX);
    assert_eq!(a.to_dec_string(), max);
}

#[test]
fn parse_rejects_one_past_the_bound() {
    let too_big =
        "115792089237316195423570985008687907853269984665640564039457584007913129639936";
    match parse_amount(too_big) {
        Err(PipelineError::ParseError(m)) => {
            assert_eq!(m, "amount does not fit in 256 bits");
        }
        _ => panic!("a 257-bit amount must be rejected"),
    }
}

#[test]
fn parse_rejects_non_decimal_text() {
    for bad in ["", "12a3", "0x10", "-5", " 1", "1 ", "1.5", "⅒"] {
        match parse_amount(bad) {
            Err(PipelineError::ParseError(m)) => {
                assert_eq!(m, "amount is not a decimal string");
            }
            _ => panic!("non-decimal input must be rejected"),
        }
    }
}

#[test]
fn parse_accepts_leading_zeros_and_formats_canonically() {
    let a = parse_amount("007").unwrap();
    assert_eq!(a.w0, 7);
    assert_eq!(a.to_dec_string(), "7");
}

#[test]
fn zero_parses_and_formats_as_zero() {
    let a = parse_amount("0").unwrap();
    assert!(a.is_zero());
    assert_eq!(a.to_dec_string(), "0");
    let b = parse_amount("000").unwrap();
    assert_eq!(b.to_dec_string(), "0");
}

#[test]
fn limb_boundaries_round_trip() {
    // 2^64 and 2^128: the values where a carry crosses limbs.
    let two64 = "18446744073709551616";
    let a = parse_amount(two64).unwrap();
    assert_eq!((a.w0, a.w1, a.w2, a.w3), (0, 1, 0, 0));
    assert_eq!(a.to_dec_string(), two64);
    let two128 = "340282366920938463463374607431768211456";
    let b = parse_amount(two128).unwrap();
    assert_eq!((b.w0, b.w1, b.w2, b.w3), (0, 0, 1, 0));
    assert_eq!(b.to_dec_string(), two128);
}
