use taylor_trig::factorial::factorial;

#[test]
fn factorial_of_zero_is_one() {
    assert_eq!(factorial(0), 1);
}

#[test]
fn factorial_small_values() {
    assert_eq!(factorial(1), 1);
    assert_eq!(factorial(2), 2);
    assert_eq!(factorial(3), 6);
    assert_eq!(factorial(5), 120);
    assert_eq!(factorial(10), 3628800);
}

#[test]
fn factorial_recurrence_at_concrete_points() {
    assert_eq!(factorial(1), 1 * factorial(0));
    assert_eq!(factorial(6), 6 * factorial(5));
    assert_eq!(factorial(13), 13 * factorial(12));
    assert_eq!(factorial(20), 20 * factorial(19));
}

#[test]
fn factorial_at_the_u64_bound() {
    assert_eq!(factorial(20), 2432902008176640000);
}
