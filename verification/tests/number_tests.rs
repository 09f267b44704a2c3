use microwave_gui::number::classify;
use microwave_gui::{Field, Sign};

#[test]
fn plain_integers() {
    assert_eq!(classify("0"), Some(Sign::Zero));
    assert_eq!(classify("7"), Some(Sign::Positive));
    assert_eq!(classify("50"), Some(Sign::Positive));
    assert_eq!(classify("000"), Some(Sign::Zero));
    assert_eq!(classify("007"), Some(Sign::Positive));
    assert_eq!(classify("100"), Some(Sign::Positive));
}

#[test]
fn signs() {
    assert_eq!(classify("+5"), Some(Sign::Positive));
    assert_eq!(classify("-5"), Some(Sign::Negative));
    assert_eq!(classify("-0"), Some(Sign::Zero));
    assert_eq!(classify("+0"), Some(Sign::Zero));
    assert_eq!(classify("-0.0"), Some(Sign::Zero));
    assert_eq!(classify("-0.001"), Some(Sign::Negative));
    assert_eq!(classify("+"), None);
    assert_eq!(classify("-"), None);
    assert_eq!(classify("--1"), None);
    assert_eq!(classify("+-1"), None);
    assert_eq!(classify("1-"), None);
}

#[test]
fn decimal_point() {
    assert_eq!(classify("2.4"), Some(Sign::Positive));
    assert_eq!(classify("5."), Some(Sign::Positive));
    assert_eq!(classify(".5"), Some(Sign::Positive));
    assert_eq!(classify("0.0"), Some(Sign::Zero));
    assert_eq!(classify("0."), Some(Sign::Zero));
    assert_eq!(classify(".0"), Some(Sign::Zero));
    assert_eq!(classify("0.000001"), Some(Sign::Positive));
    assert_eq!(classify("-.5"), Some(Sign::Negative));
    assert_eq!(classify("."), None);
    assert_eq!(classify("-."), None);
    assert_eq!(classify("1.2.3"), None);
    assert_eq!(classify("1..2"), None);
    assert_eq!(classify(".."), None);
}

#[test]
fn exponents() {
    assert_eq!(classify("2.4e9"), Some(Sign::Positive));
    assert_eq!(classify("2.4E9"), Some(Sign::Positive));
    assert_eq!(classify("1e20"), Some(Sign::Positive));
    assert_eq!(classify("1e-20"), Some(Sign::Positive));
    assert_eq!(classify("1e+20"), Some(Sign::Positive));
    assert_eq!(classify("-1e9"), Some(Sign::Negative));
    assert_eq!(classify("0e9"), Some(Sign::Zero));
    assert_eq!(classify("0.0e-9"), Some(Sign::Zero));
    assert_eq!(classify("5.e3"), Some(Sign::Positive));
    assert_eq!(classify(".5e3"), Some(Sign::Positive));
    assert_eq!(classify("1e0"), Some(Sign::Positive));
    assert_eq!(classify("1e"), None);
    assert_eq!(classify("1e+"), None);
    assert_eq!(classify("1e-"), None);
    assert_eq!(classify("e5"), None);
    assert_eq!(classify(".e5"), None);
    assert_eq!(classify("1e5e5"), None);
    assert_eq!(classify("1e5.5"), None);
    assert_eq!(classify("1e 5"), None);
    assert_eq!(classify("1e++5"), None);
}

#[test]
fn the_number_counts_not_its_size() {
    // Too small for a machine float, yet more than zero.
    assert_eq!(classify("1e-400"), Some(Sign::Positive));
    // Too large for one, yet a number.
    assert_eq!(classify("1e400"), Some(Sign::Positive));
    let long = "0".repeat(500) + "." + &"0".repeat(500) + "1";
    assert_eq!(classify(&long), Some(Sign::Positive));
    let zeros = "-".to_string() + &"0".repeat(500) + "." + &"0".repeat(500);
    assert_eq!(classify(&zeros), Some(Sign::Zero));
}

#[test]
fn what_is_no_literal() {
    for text in [
        "", " ", "\t", "\n", " 5", "5 ", " 5 ", "5\n", "invalid", "2.4e9!", "2.4e9测试",
        "<script>2.4e9</script>", "1,000", "1_000", "1 000", "0x10", "1f", "2.4GHz", "inf",
        "-inf", "infinity", "NaN", "nan", "١٢٣", "５０", "1/2", "(5)", "5%", "\u{0}",
    ] {
        assert_eq!(classify(text), None, "{:?}", text);
    }
}

#[test]
fn frequency_takes_zero_and_more() {
    assert!(Field::Frequency.admits("0"));
    assert!(Field::Frequency.admits("-0"));
    assert!(Field::Frequency.admits("0.0e9"));
    assert!(Field::Frequency.admits("2.4e9"));
    assert!(!Field::Frequency.admits("-2.4e9"));
    assert!(!Field::Frequency.admits("-1e-30"));
    assert!(!Field::Frequency.admits(""));
    assert!(!Field::Frequency.admits("two"));
}

#[test]
fn impedances_take_more_than_zero() {
    for field in [Field::Z0, Field::Load] {
        assert!(field.admits("50"));
        assert!(field.admits("1e-20"));
        assert!(field.admits("+75.0"));
        assert!(!field.admits("0"));
        assert!(!field.admits("0.000"));
        assert!(!field.admits("-0"));
        assert!(!field.admits("-50"));
        assert!(!field.admits(""));
        assert!(!field.admits("fifty"));
    }
}

#[test]
fn load_components_are_kept_as_typed() {
    for field in [Field::ZLoadReal, Field::ZLoadImag] {
        assert!(field.admits("75"));
        assert!(field.admits("-12.5"));
        assert!(field.admits(""));
        assert!(field.admits("j5"));
    }
}

#[test]
fn field_names() {
    assert_eq!(Field::Frequency.name(), "frequency");
    assert_eq!(Field::Z0.name(), "z0");
    assert_eq!(Field::Load.name(), "load");
    assert_eq!(Field::ZLoadReal.name(), "z_load_real");
    assert_eq!(Field::ZLoadImag.name(), "z_load_imag");
}
