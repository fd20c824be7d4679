use dialog_engine::float_bits::{
    bits_eq, bits_is_finite, bits_is_nan, bits_is_negative, bits_is_zero, bits_le, bits_lt,
    bits_negate, bits_round, bits_truncate, INFINITY_BITS, NAN_BITS, NEG_INFINITY_BITS, ONE_BITS,
    ZERO_BITS,
};
use dialog_engine::float_table::{FloatOp, FloatQuery, FloatReply, FloatTable};

fn samples() -> Vec<f64> {
    vec![
        0.0,
        -0.0,
        0.25,
        0.49999999999999994,
        0.5,
        0.75,
        1.0,
        1.5,
        2.5,
        -0.5,
        -1.5,
        -2.5,
        42.42,
        -42.42,
        4503599627370495.5,
        4503599627370496.0,
        4503599627370497.0,
        9007199254740993.0,
        9.2e18,
        9223372036854775807.0,
        -9223372036854775808.0,
        -9223372036854777856.0,
        1.0e19,
        -1.0e19,
        1.0e300,
        f64::MIN_POSITIVE,
        5.0e-324,
        f64::MAX,
        f64::MIN,
        f64::INFINITY,
        f64::NEG_INFINITY,
        f64::NAN,
        -f64::NAN,
    ]
}

#[test]
fn named_patterns_are_the_doubles_they_name() {
    assert_eq!(ZERO_BITS, 0.0_f64.to_bits());
    assert_eq!(ONE_BITS, 1.0_f64.to_bits());
    assert_eq!(INFINITY_BITS, f64::INFINITY.to_bits());
    assert_eq!(NEG_INFINITY_BITS, f64::NEG_INFINITY.to_bits());
    assert_eq!(NAN_BITS, f64::NAN.to_bits());
    assert!(f64::from_bits(NAN_BITS).is_nan());
}

#[test]
fn truncation_is_the_cast_to_i64() {
    for x in samples() {
        assert_eq!(bits_truncate(x.to_bits()), x as i64, "truncating {:?}", x);
    }
    assert_eq!(bits_truncate(42.42_f64.to_bits()), 42);
    assert_eq!(bits_truncate((-42.99_f64).to_bits()), -42);
    assert_eq!(bits_truncate(f64::NAN.to_bits()), 0);
    assert_eq!(bits_truncate(f64::INFINITY.to_bits()), i64::MAX);
    assert_eq!(bits_truncate(f64::NEG_INFINITY.to_bits()), i64::MIN);
}

#[test]
fn rounding_is_round_and_then_the_cast() {
    for x in samples() {
        assert_eq!(bits_round(x.to_bits()), x.round() as i64, "rounding {:?}", x);
    }
    assert_eq!(bits_round(0.5_f64.to_bits()), 1);
    assert_eq!(bits_round((-0.5_f64).to_bits()), -1);
    assert_eq!(bits_round(0.49999999999999994_f64.to_bits()), 0);
    assert_eq!(bits_round(2.5_f64.to_bits()), 3);
    assert_eq!(bits_round((-2.5_f64).to_bits()), -3);
}

#[test]
fn classification_follows_ieee() {
    for x in samples() {
        let bits = x.to_bits();
        assert_eq!(bits_is_nan(bits), x.is_nan(), "{:?}", x);
        assert_eq!(bits_is_zero(bits), x == 0.0, "{:?}", x);
        assert_eq!(bits_is_finite(bits), x.is_finite(), "{:?}", x);
        assert_eq!(bits_is_negative(bits), x.is_sign_negative(), "{:?}", x);
        assert_eq!(bits_negate(bits), (-x).to_bits(), "{:?}", x);
    }
}

#[test]
fn comparisons_follow_ieee() {
    for x in samples() {
        for y in samples() {
            let (a, b) = (x.to_bits(), y.to_bits());
            assert_eq!(bits_eq(a, b), x == y, "{:?} == {:?}", x, y);
            assert_eq!(bits_lt(a, b), x < y, "{:?} < {:?}", x, y);
            assert_eq!(bits_le(a, b), x <= y, "{:?} <= {:?}", x, y);
        }
    }
    assert!(!bits_eq(NAN_BITS, NAN_BITS));
    assert!(bits_eq(0.0_f64.to_bits(), (-0.0_f64).to_bits()));
}

#[test]
fn a_new_table_answers_nothing() {
    let table = FloatTable::new();
    assert!(table.find(&FloatQuery::Show(ONE_BITS)).is_none());
    assert_eq!(table.bits_for(&FloatQuery::FromInt(1)), None);
    assert_eq!(table.text_for(&FloatQuery::Show(ONE_BITS)), None);
    assert_eq!(table.parse_for(&FloatQuery::Parse("1".to_owned())), None);
}

#[test]
fn a_table_keeps_the_first_answer_of_the_right_shape() {
    let mut table = FloatTable::new();
    assert!(table.record(FloatQuery::FromInt(1), FloatReply::Bits(ONE_BITS)));
    assert!(!table.record(FloatQuery::FromInt(1), FloatReply::Bits(ZERO_BITS)));
    assert_eq!(table.bits_for(&FloatQuery::FromInt(1)), Some(ONE_BITS));
    assert_eq!(table.bits_for(&FloatQuery::FromInt(2)), None);

    assert!(!table.record(FloatQuery::Show(ONE_BITS), FloatReply::Bits(ONE_BITS)));
    assert!(!table.record(FloatQuery::Show(ONE_BITS), FloatReply::Invalid));
    assert!(table.record(FloatQuery::Show(ONE_BITS), FloatReply::Text("1".to_owned())));
    assert_eq!(table.text_for(&FloatQuery::Show(ONE_BITS)), Some("1".to_owned()));
    assert_eq!(table.text_for(&FloatQuery::JsonShow(ONE_BITS)), None);

    assert!(!table.record(FloatQuery::Parse("x".to_owned()), FloatReply::Text("x".to_owned())));
    assert!(table.record(FloatQuery::Parse("x".to_owned()), FloatReply::Invalid));
    assert!(table.record(FloatQuery::Parse("1".to_owned()), FloatReply::Bits(ONE_BITS)));
    assert_eq!(table.parse_for(&FloatQuery::Parse("x".to_owned())), Some(None));
    assert_eq!(table.parse_for(&FloatQuery::Parse("1".to_owned())), Some(Some(ONE_BITS)));
    assert_eq!(table.parse_for(&FloatQuery::Parse("2".to_owned())), None);

    assert!(!table.record(
        FloatQuery::Arith(FloatOp::Add, ONE_BITS, ONE_BITS),
        FloatReply::Text("2".to_owned())
    ));
    assert!(table.record(
        FloatQuery::Arith(FloatOp::Add, ONE_BITS, ONE_BITS),
        FloatReply::Bits(2.0_f64.to_bits())
    ));
    assert_eq!(
        table.bits_for(&FloatQuery::Arith(FloatOp::Add, ONE_BITS, ONE_BITS)),
        Some(2.0_f64.to_bits())
    );
    assert_eq!(table.bits_for(&FloatQuery::Arith(FloatOp::Sub, ONE_BITS, ONE_BITS)), None);
    assert_eq!(
        table.find(&FloatQuery::FromInt(1)),
        Some(&FloatReply::Bits(ONE_BITS))
    );
}
