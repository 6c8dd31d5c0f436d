use taylor_trig::series::clamp_term_count;
use taylor_trig::series::classify_tan;
use taylor_trig::series::term_plan;
use taylor_trig::series::TanValue;
use taylor_trig::series::MAX_TERMS;
use taylor_trig::series::MIN_TERMS;

#[test]
fn term_plan_has_one_shape_per_term() {
    assert_eq!(term_plan(1).len(), 1);
    assert_eq!(term_plan(10).len(), 10);
    assert_eq!(term_plan(50).len(), 50);
}

#[test]
fn term_plan_first_term_is_positive_with_powers_one_and_zero() {
    let plan = term_plan(10);
    assert_eq!(plan[0].index, 0);
    assert_eq!(plan[0].sin_power, 1);
    assert_eq!(plan[0].cos_power, 0);
    assert!(plan[0].positive);
}

#[test]
fn term_plan_alternates_signs_and_steps_powers_by_two() {
    let plan = term_plan(10);
    assert_eq!(plan[1].index, 1);
    assert_eq!(plan[1].sin_power, 3);
    assert_eq!(plan[1].cos_power, 2);
    assert!(!plan[1].positive);
    assert_eq!(plan[2].sin_power, 5);
    assert_eq!(plan[2].cos_power, 4);
    assert!(plan[2].positive);
    assert_eq!(plan[9].index, 9);
    assert_eq!(plan[9].sin_power, 19);
    assert_eq!(plan[9].cos_power, 18);
    assert!(!plan[9].positive);
}

#[test]
fn term_counts_are_clamped_into_the_accepted_range() {
    assert_eq!(MIN_TERMS, 1);
    assert_eq!(MAX_TERMS, 50);
    assert_eq!(clamp_term_count(0), 1);
    assert_eq!(clamp_term_count(1), 1);
    assert_eq!(clamp_term_count(25), 25);
    assert_eq!(clamp_term_count(50), 50);
    assert_eq!(clamp_term_count(51), 50);
    assert_eq!(clamp_term_count(u64::MAX), 50);
}

#[test]
fn tangent_near_the_singularity_takes_the_sign_of_the_sine() {
    assert!(matches!(classify_tan(true, true), TanValue::PositiveInfinite));
    assert!(matches!(classify_tan(true, false), TanValue::NegativeInfinite));
}

#[test]
fn tangent_away_from_the_singularity_is_the_quotient() {
    assert!(matches!(classify_tan(false, true), TanValue::Quotient));
    assert!(matches!(classify_tan(false, false), TanValue::Quotient));
}
