use finfo::decimal::{append_int, append_nat, Decimal};

fn text(mantissa: i128, scale: u32) -> String {
    Decimal::new(mantissa, scale).to_text()
}

#[test]
fn whole_numbers_have_no_point() {
    assert_eq!(text(0, 0), "0");
    assert_eq!(text(7, 0), "7");
    assert_eq!(text(150, 0), "150");
    assert_eq!(text(150000000, 0), "150000000");
}

#[test]
fn trailing_zeros_of_the_fraction_are_dropped() {
    assert_eq!(text(1500, 1), "150");
    assert_eq!(text(15000, 2), "150");
    assert_eq!(text(1475, 1), "147.5");
    assert_eq!(text(14750, 2), "147.5");
    assert_eq!(text(1234500, 4), "123.45");
}

#[test]
fn zeros_of_the_whole_part_are_kept() {
    assert_eq!(text(100, 0), "100");
    assert_eq!(text(1000, 1), "100");
    assert_eq!(text(10050, 2), "100.5");
}

#[test]
fn small_fractions_are_padded_with_zeros() {
    assert_eq!(text(5, 1), "0.5");
    assert_eq!(text(5, 3), "0.005");
    assert_eq!(text(123, 6), "0.000123");
    assert_eq!(text(1, 28), "0.0000000000000000000000000001");
}

#[test]
fn zero_is_written_as_one_digit_at_any_scale() {
    assert_eq!(text(0, 1), "0");
    assert_eq!(text(0, 28), "0");
}

#[test]
fn negative_numbers_carry_a_sign() {
    assert_eq!(text(-1, 0), "-1");
    assert_eq!(text(-5, 1), "-0.5");
    assert_eq!(text(-1475, 1), "-147.5");
    assert_eq!(text(-1500, 1), "-150");
}

#[test]
fn large_numbers_are_written_without_an_exponent() {
    assert_eq!(text(79228162514264337593543950335, 0), "79228162514264337593543950335");
    assert_eq!(text(79228162514264337593543950335, 28), "7.9228162514264337593543950335");
    assert_eq!(
        text(i128::MAX, 0),
        "170141183460469231731687303715884105727"
    );
    assert_eq!(
        text(i128::MIN, 0),
        "-170141183460469231731687303715884105728"
    );
    assert_eq!(
        text(i128::MIN, 3),
        "-170141183460469231731687303715884105.728"
    );
}

#[test]
fn from_int_is_a_whole_number() {
    let d = Decimal::from_int(-42);
    assert_eq!(d.mantissa, -42);
    assert_eq!(d.scale, 0);
    assert_eq!(d.to_text(), "-42");
}

#[test]
fn append_to_keeps_what_was_there() {
    let mut out = String::from("low=");
    Decimal::new(1475, 1).append_to(&mut out);
    assert_eq!(out, "low=147.5");
}

#[test]
fn integers_are_written_in_full() {
    let mut out = String::new();
    append_int(&mut out, 0);
    out.push(' ');
    append_int(&mut out, 1700000000);
    out.push(' ');
    append_int(&mut out, -1);
    out.push(' ');
    append_int(&mut out, i64::MIN);
    out.push(' ');
    append_int(&mut out, i64::MAX);
    assert_eq!(out, "0 1700000000 -1 -9223372036854775808 9223372036854775807");
}

#[test]
fn naturals_are_written_in_full() {
    let mut out = String::from("n=");
    append_nat(&mut out, 0);
    append_nat(&mut out, 10);
    append_nat(&mut out, u128::MAX);
    assert_eq!(out, "n=010340282366920938463463374607431768211455");
}

#[test]
fn equal_values_have_equal_text() {
    assert_eq!(text(15, 1), text(150, 2));
    assert_eq!(text(15, 1), text(1500000, 6));
    assert_eq!(text(-2, 0), text(-2000, 3));
}

#[test]
fn different_values_have_different_text() {
    assert_ne!(text(15, 1), text(15, 2));
    assert_ne!(text(15, 1), text(-15, 1));
    assert_ne!(text(1, 0), text(10, 0));
    assert_ne!(text(105, 2), text(15, 1));
    assert_ne!(text(1, 1), text(1, 2));
}
