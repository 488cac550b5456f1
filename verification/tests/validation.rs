use ladrc_no_std::validation::{
    validate_b0, validate_limit, validate_positive, validate_sample_period, validate_time,
    FirstOrderConfigFacts, GainFacts, LimitFacts, ParamFacts, SecondOrderConfigFacts,
};
use ladrc_no_std::ConfigError;

const MIN_ABS_B0: f32 = 1.0e-9;

fn param(x: f32) -> ParamFacts {
    ParamFacts { finite: x.is_finite(), non_positive: x <= 0.0 }
}

fn gain(b0: f32) -> GainFacts {
    GainFacts { finite: b0.is_finite(), near_zero: b0.abs() <= MIN_ABS_B0 }
}

fn limit(min: f32, max: f32) -> LimitFacts {
    LimitFacts { min_finite: min.is_finite(), max_finite: max.is_finite(), inverted: min > max }
}

fn first_order(
    sample_period: f32,
    b0: f32,
    wc: f32,
    wo: f32,
    output_limit: Option<(f32, f32)>,
) -> FirstOrderConfigFacts {
    FirstOrderConfigFacts {
        sample_period: param(sample_period),
        b0: gain(b0),
        kp: param(wc),
        observer_beta1: param(2.0 * wo),
        observer_beta2: param(wo * wo),
        output_limit: output_limit.map(|(lo, hi)| limit(lo, hi)),
    }
}

fn second_order(
    sample_period: f32,
    b0: f32,
    wc: f32,
    wo: f32,
    output_limit: Option<(f32, f32)>,
) -> SecondOrderConfigFacts {
    SecondOrderConfigFacts {
        sample_period: param(sample_period),
        b0: gain(b0),
        kp: param(wc * wc),
        kd: param(2.0 * wc),
        observer_beta1: param(3.0 * wo),
        observer_beta2: param(3.0 * wo * wo),
        observer_beta3: param(wo * wo * wo),
        output_limit: output_limit.map(|(lo, hi)| limit(lo, hi)),
    }
}

#[test]
fn validates_bad_configurations() {
    let bad_b0 = second_order(0.001, 0.0, 10.0, 50.0, None);
    assert_eq!(bad_b0.validate().unwrap_err(), ConfigError::ZeroPlantGain);

    let bad_h = first_order(0.0, 1.0, 10.0, 50.0, None);
    assert_eq!(bad_h.validate().unwrap_err(), ConfigError::NonPositiveSamplePeriod);

    let bad_limit = first_order(0.001, 1.0, 10.0, 50.0, Some((1.0, -1.0)));
    assert_eq!(bad_limit.validate().unwrap_err(), ConfigError::InvalidOutputLimit);
}

#[test]
fn good_configurations_pass() {
    assert_eq!(first_order(0.01, 0.8, 2.0, 10.0, Some((0.0, 1.0))).validate(), Ok(()));
    assert_eq!(second_order(0.001, 1.0, 12.0, 60.0, Some((-1.0, 1.0))).validate(), Ok(()));
    assert_eq!(second_order(0.001, -2.0, 12.0, 60.0, None).validate(), Ok(()));
}

#[test]
fn first_failing_field_decides_the_error() {
    // Both the sample period and b0 are bad: the sample period is checked first.
    assert_eq!(
        first_order(-1.0, 0.0, 10.0, 50.0, None).validate(),
        Err(ConfigError::NonPositiveSamplePeriod)
    );
    // b0 and the clamp are bad: b0 is checked first.
    assert_eq!(
        second_order(0.001, 0.0, 10.0, 50.0, Some((1.0, -1.0))).validate(),
        Err(ConfigError::ZeroPlantGain)
    );
    // A non-positive bandwidth fails the feedback gain.
    assert_eq!(
        first_order(0.001, 1.0, 0.0, 50.0, None).validate(),
        Err(ConfigError::NonPositiveParameter)
    );
    // A negative controller bandwidth gives a negative kd in second order.
    assert_eq!(
        second_order(0.001, 1.0, -3.0, 50.0, None).validate(),
        Err(ConfigError::NonPositiveParameter)
    );
    // Zero observer bandwidth fails the first observer gain.
    assert_eq!(
        second_order(0.001, 1.0, 3.0, 0.0, None).validate(),
        Err(ConfigError::NonPositiveParameter)
    );
}

#[test]
fn non_finite_values_are_refused_first() {
    assert_eq!(validate_sample_period(param(f32::NAN)), Err(ConfigError::NonFinite));
    assert_eq!(validate_sample_period(param(f32::NEG_INFINITY)), Err(ConfigError::NonFinite));
    assert_eq!(validate_positive(param(f32::INFINITY)), Err(ConfigError::NonFinite));
    assert_eq!(validate_b0(gain(f32::NAN)), Err(ConfigError::NonFinite));
    assert_eq!(validate_limit(Some(limit(f32::NAN, 1.0))), Err(ConfigError::NonFinite));
    assert_eq!(validate_limit(Some(limit(2.0, f32::INFINITY))), Err(ConfigError::NonFinite));
    assert_eq!(validate_time(f32::NAN.is_finite()), Err(ConfigError::NonFinite));
    assert_eq!(validate_time(12.5f32.is_finite()), Ok(()));
    assert_eq!(
        first_order(0.001, f32::INFINITY, 10.0, 50.0, None).validate(),
        Err(ConfigError::NonFinite)
    );
}

#[test]
fn single_checks_give_their_own_errors() {
    assert_eq!(validate_sample_period(param(0.0)), Err(ConfigError::NonPositiveSamplePeriod));
    assert_eq!(validate_sample_period(param(0.001)), Ok(()));
    assert_eq!(validate_positive(param(-4.0)), Err(ConfigError::NonPositiveParameter));
    assert_eq!(validate_positive(param(4.0)), Ok(()));
    assert_eq!(validate_b0(gain(1.0e-10)), Err(ConfigError::ZeroPlantGain));
    assert_eq!(validate_b0(gain(-1.0e-10)), Err(ConfigError::ZeroPlantGain));
    assert_eq!(validate_b0(gain(-0.5)), Ok(()));
    assert_eq!(limit(1.0, -1.0).validate(), Err(ConfigError::InvalidOutputLimit));
    assert_eq!(limit(-1.0, -1.0).validate(), Ok(()));
    assert_eq!(validate_limit(None), Ok(()));
}
