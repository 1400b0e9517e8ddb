use swift_rust::text::hello_swift;
use swift_rust::text::sum_as_string;

#[test]
fn sum_small() {
    assert_eq!(sum_as_string(5, 20), "25");
}

#[test]
fn sum_zero() {
    assert_eq!(sum_as_string(0, 0), "0");
}

#[test]
fn sum_negative() {
    assert_eq!(sum_as_string(2, -7), "-5");
}

#[test]
fn sum_round_decimal() {
    assert_eq!(sum_as_string(90, 10), "100");
}

#[test]
fn sum_extremes() {
    assert_eq!(sum_as_string(i64::MIN, 0), "-9223372036854775808");
    assert_eq!(sum_as_string(i64::MAX, 0), "9223372036854775807");
}

#[test]
fn greeting() {
    assert_eq!(hello_swift(), "Hello Swift!");
}
