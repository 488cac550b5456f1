//! The order in which a configuration is checked, and the error each check
//! gives.
//!
//! Validation reads a few facts of each real-valued parameter: whether it is
//! finite, and whether it lies outside the range its role allows. Those facts
//! are plain booleans here; the checks decide, in a fixed order, which error a
//! configuration is refused with.
use vstd::prelude::*;

use crate::error::ConfigError;

verus! {

/// What validation reads of a parameter that must be positive: a sample
/// period, a feedback gain or an observer gain.
#[derive(Debug, Clone, Copy, PartialEq, Eq, Structural)]
pub struct ParamFacts {
    /// The value is finite (neither infinite nor NaN).
    pub finite: bool,
    /// The value compares less than or equal to zero.
    pub non_positive: bool,
}

/// What validation reads of the plant input gain `b0`.
#[derive(Debug, Clone, Copy, PartialEq, Eq, Structural)]
pub struct GainFacts {
    /// The value is finite.
    pub finite: bool,
    /// The magnitude of the value is at most the smallest usable gain.
    pub near_zero: bool,
}

/// What validation reads of an output clamp.
#[derive(Debug, Clone, Copy, PartialEq, Eq, Structural)]
pub struct LimitFacts {
    /// The lower bound is finite.
    pub min_finite: bool,
    /// The upper bound is finite.
    pub max_finite: bool,
    /// The lower bound compares greater than the upper bound.
    pub inverted: bool,
}

/// What validation reads of a first-order configuration, field by field.
#[derive(Debug, Clone, Copy, PartialEq, Eq, Structural)]
pub struct FirstOrderConfigFacts {
    pub sample_period: ParamFacts,
    pub b0: GainFacts,
    pub kp: ParamFacts,
    pub observer_beta1: ParamFacts,
    pub observer_beta2: ParamFacts,
    pub output_limit: Option<LimitFacts>,
}

/// What validation reads of a second-order configuration, field by field.
#[derive(Debug, Clone, Copy, PartialEq, Eq, Structural)]
pub struct SecondOrderConfigFacts {
    pub sample_period: ParamFacts,
    pub b0: GainFacts,
    pub kp: ParamFacts,
    pub kd: ParamFacts,
    pub observer_beta1: ParamFacts,
    pub observer_beta2: ParamFacts,
    pub observer_beta3: ParamFacts,
    pub output_limit: Option<LimitFacts>,
}

/// The outcome of checking a timestamp.
pub open spec fn time_verdict(finite: bool) -> Result<(), ConfigError> {
    if !finite {
        Err(ConfigError::NonFinite)
    } else {
        Ok(())
    }
}

/// The outcome of checking a sample period.
pub open spec fn sample_period_verdict(p: ParamFacts) -> Result<(), ConfigError> {
    if !p.finite {
        Err(ConfigError::NonFinite)
    } else if p.non_positive {
        Err(ConfigError::NonPositiveSamplePeriod)
    } else {
        Ok(())
    }
}

/// The outcome of checking a parameter that must be positive.
pub open spec fn positive_verdict(p: ParamFacts) -> Result<(), ConfigError> {
    if !p.finite {
        Err(ConfigError::NonFinite)
    } else if p.non_positive {
        Err(ConfigError::NonPositiveParameter)
    } else {
        Ok(())
    }
}

/// The outcome of checking the plant input gain.
pub open spec fn gain_verdict(g: GainFacts) -> Result<(), ConfigError> {
    if !g.finite {
        Err(ConfigError::NonFinite)
    } else if g.near_zero {
        Err(ConfigError::ZeroPlantGain)
    } else {
        Ok(())
    }
}

/// The outcome of checking an output clamp.
pub open spec fn output_limit_verdict(l: LimitFacts) -> Result<(), ConfigError> {
    if !l.min_finite || !l.max_finite {
        Err(ConfigError::NonFinite)
    } else if l.inverted {
        Err(ConfigError::InvalidOutputLimit)
    } else {
        Ok(())
    }
}

/// The outcome of checking an optional output clamp: no clamp always passes.
pub open spec fn limit_verdict(l: Option<LimitFacts>) -> Result<(), ConfigError> {
    match l {
        Some(l) => output_limit_verdict(l),
        None => Ok(()),
    }
}

/// The first of two outcomes that is an error, or success when neither is.
pub open spec fn first_failure(
    first: Result<(), ConfigError>,
    rest: Result<(), ConfigError>,
) -> Result<(), ConfigError> {
    match first {
        Err(e) => Err(e),
        Ok(()) => rest,
    }
}

/// The outcome of checking a first-order configuration: its fields are
/// checked in the order sample period, `b0`, `kp`, `observer_beta1`,
/// `observer_beta2`, output clamp, and the first failing check decides.
pub open spec fn first_order_verdict(f: FirstOrderConfigFacts) -> Result<(), ConfigError> {
    first_failure(
        sample_period_verdict(f.sample_period),
        first_failure(
            gain_verdict(f.b0),
            first_failure(
                positive_verdict(f.kp),
                first_failure(
                    positive_verdict(f.observer_beta1),
                    first_failure(
                        positive_verdict(f.observer_beta2),
                        limit_verdict(f.output_limit),
                    ),
                ),
            ),
        ),
    )
}

/// The outcome of checking a second-order configuration: its fields are
/// checked in the order sample period, `b0`, `kp`, `kd`, `observer_beta1`,
/// `observer_beta2`, `observer_beta3`, output clamp, and the first failing
/// check decides.
pub open spec fn second_order_verdict(f: SecondOrderConfigFacts) -> Result<(), ConfigError> {
    first_failure(
        sample_period_verdict(f.sample_period),
        first_failure(
            gain_verdict(f.b0),
            first_failure(
                positive_verdict(f.kp),
                first_failure(
                    positive_verdict(f.kd),
                    first_failure(
                        positive_verdict(f.observer_beta1),
                        first_failure(
                            positive_verdict(f.observer_beta2),
                            first_failure(
                                positive_verdict(f.observer_beta3),
                                limit_verdict(f.output_limit),
                            ),
                        ),
                    ),
                ),
            ),
        ),
    )
}

/// Checks a timestamp: it must be finite.
pub fn validate_time(finite: bool) -> (r: Result<(), ConfigError>)
    ensures
        r == time_verdict(finite),
{
    if !finite {
        return Err(ConfigError::NonFinite);
    }
    Ok(())
}

/// Checks a sample period: it must be finite, then positive.
pub fn validate_sample_period(p: ParamFacts) -> (r: Result<(), ConfigError>)
    ensures
        r == sample_period_verdict(p),
{
    if !p.finite {
        return Err(ConfigError::NonFinite);
    }
    if p.non_positive {
        return Err(ConfigError::NonPositiveSamplePeriod);
    }
    Ok(())
}

/// Checks a bandwidth-derived gain: it must be finite, then positive.
pub fn validate_positive(p: ParamFacts) -> (r: Result<(), ConfigError>)
    ensures
        r == positive_verdict(p),
{
    if !p.finite {
        return Err(ConfigError::NonFinite);
    }
    if p.non_positive {
        return Err(ConfigError::NonPositiveParameter);
    }
    Ok(())
}

/// Checks the plant input gain: it must be finite, then clearly away from zero.
pub fn validate_b0(g: GainFacts) -> (r: Result<(), ConfigError>)
    ensures
        r == gain_verdict(g),
{
    if !g.finite {
        return Err(ConfigError::NonFinite);
    }
    if g.near_zero {
        return Err(ConfigError::ZeroPlantGain);
    }
    Ok(())
}

impl LimitFacts {
    /// Checks an output clamp: both bounds must be finite, then ordered.
    pub fn validate(self) -> (r: Result<(), ConfigError>)
        ensures
            r == output_limit_verdict(self),
    {
        if !self.min_finite || !self.max_finite {
            return Err(ConfigError::NonFinite);
        }
        if self.inverted {
            return Err(ConfigError::InvalidOutputLimit);
        }
        Ok(())
    }
}

/// Checks an optional output clamp; having none always passes.
pub fn validate_limit(l: Option<LimitFacts>) -> (r: Result<(), ConfigError>)
    ensures
        r == limit_verdict(l),
{
    match l {
        Some(l) => l.validate(),
        None => Ok(()),
    }
}

impl FirstOrderConfigFacts {
    /// Validates all parameters of a first-order configuration, in field
    /// order, and returns the error of the first one that fails.
    pub fn validate(&self) -> (r: Result<(), ConfigError>)
        ensures
            r == first_order_verdict(*self),
            r is Ok <==> {
                &&& sample_period_verdict(self.sample_period) is Ok
                &&& gain_verdict(self.b0) is Ok
                &&& positive_verdict(self.kp) is Ok
                &&& positive_verdict(self.observer_beta1) is Ok
                &&& positive_verdict(self.observer_beta2) is Ok
                &&& limit_verdict(self.output_limit) is Ok
            },
    {
        validate_sample_period(self.sample_period)?;
        validate_b0(self.b0)?;
        validate_positive(self.kp)?;
        validate_positive(self.observer_beta1)?;
        validate_positive(self.observer_beta2)?;
        validate_limit(self.output_limit)
    }
}

impl SecondOrderConfigFacts {
    /// Validates all parameters of a second-order configuration, in field
    /// order, and returns the error of the first one that fails.
    pub fn validate(&self) -> (r: Result<(), ConfigError>)
        ensures
            r == second_order_verdict(*self),
            r is Ok <==> {
                &&& sample_period_verdict(self.sample_period) is Ok
                &&& gain_verdict(self.b0) is Ok
                &&& positive_verdict(self.kp) is Ok
                &&& positive_verdict(self.kd) is Ok
                &&& positive_verdict(self.observer_beta1) is Ok
                &&& positive_verdict(self.observer_beta2) is Ok
                &&& positive_verdict(self.observer_beta3) is Ok
                &&& limit_verdict(self.output_limit) is Ok
            },
    {
        validate_sample_period(self.sample_period)?;
        validate_b0(self.b0)?;
        validate_positive(self.kp)?;
        validate_positive(self.kd)?;
        validate_positive(self.observer_beta1)?;
        validate_positive(self.observer_beta2)?;
        validate_positive(self.observer_beta3)?;
        validate_limit(self.output_limit)
    }
}

/// A timestamp is refused with `NonFinite` exactly when it is not finite, and
/// accepted otherwise.
pub proof fn lemma_time_check(finite: bool)
    ensures
        time_verdict(finite) == Err::<(), ConfigError>(ConfigError::NonFinite) <==> !finite,
        time_verdict(finite) == Ok::<(), ConfigError>(()) <==> finite,
{
}

/// A sample period is refused with `NonFinite` exactly when it is not finite,
/// with `NonPositiveSamplePeriod` exactly when it is finite and not positive,
/// and accepted exactly when it is finite and positive. No other error comes
/// out.
pub proof fn lemma_sample_period_check(p: ParamFacts)
    ensures
        sample_period_verdict(p) == Err::<(), ConfigError>(ConfigError::NonFinite) <==> !p.finite,
        sample_period_verdict(p) == Err::<(), ConfigError>(ConfigError::NonPositiveSamplePeriod)
            <==> p.finite && p.non_positive,
        sample_period_verdict(p) == Ok::<(), ConfigError>(()) <==> p.finite && !p.non_positive,
{
}

/// A gain that must be positive is refused with `NonFinite` exactly when it
/// is not finite, with `NonPositiveParameter` exactly when it is finite and
/// not positive, and accepted exactly when it is finite and positive. No other
/// error comes out.
pub proof fn lemma_positive_check(p: ParamFacts)
    ensures
        positive_verdict(p) == Err::<(), ConfigError>(ConfigError::NonFinite) <==> !p.finite,
        positive_verdict(p) == Err::<(), ConfigError>(ConfigError::NonPositiveParameter)
            <==> p.finite && p.non_positive,
        positive_verdict(p) == Ok::<(), ConfigError>(()) <==> p.finite && !p.non_positive,
{
}

/// The plant input gain is refused with `NonFinite` exactly when it is not
/// finite, with `ZeroPlantGain` exactly when it is finite and near zero, and
/// accepted exactly when it is finite and clearly away from zero. No other
/// error comes out.
pub proof fn lemma_gain_check(g: GainFacts)
    ensures
        gain_verdict(g) == Err::<(), ConfigError>(ConfigError::NonFinite) <==> !g.finite,
        gain_verdict(g) == Err::<(), ConfigError>(ConfigError::ZeroPlantGain) <==> g.finite
            && g.near_zero,
        gain_verdict(g) == Ok::<(), ConfigError>(()) <==> g.finite && !g.near_zero,
{
}

/// A clamp is refused with `NonFinite` exactly when a bound is not finite,
/// with `InvalidOutputLimit` exactly when both bounds are finite and the lower
/// one is above the upper one, and accepted exactly otherwise. Having no clamp
/// always passes.
pub proof fn lemma_limit_check(l: Option<LimitFacts>)
    ensures
        l is None ==> limit_verdict(l) == Ok::<(), ConfigError>(()),
        l matches Some(c) ==> (limit_verdict(l) == Err::<(), ConfigError>(ConfigError::NonFinite)
            <==> !c.min_finite || !c.max_finite),
        l matches Some(c) ==> (limit_verdict(l) == Err::<(), ConfigError>(
            ConfigError::InvalidOutputLimit,
        ) <==> c.min_finite && c.max_finite && c.inverted),
        l matches Some(c) ==> (limit_verdict(l) == Ok::<(), ConfigError>(()) <==> c.min_finite
            && c.max_finite && !c.inverted),
{
}

/// How a first-order configuration is refused, field by field in the order
/// sample period, `b0`, `kp`, `observer_beta1`, `observer_beta2`, clamp: the
/// first field that fails decides, and it fails with `NonFinite` when it is
/// not finite, and otherwise with its own error (`NonPositiveSamplePeriod` for
/// the sample period, `ZeroPlantGain` for `b0`, `NonPositiveParameter` for a
/// gain, `InvalidOutputLimit` for an inverted clamp). Each error comes out
/// only when a field fails in that way, and the configuration is accepted
/// exactly when every field passes.
pub proof fn lemma_first_order_validation(f: FirstOrderConfigFacts)
    ensures
        // The sample period is checked first.
        !f.sample_period.finite ==> first_order_verdict(f) == Err::<(), ConfigError>(
            ConfigError::NonFinite,
        ),
        f.sample_period.finite && f.sample_period.non_positive ==> first_order_verdict(f) == Err::<
            (),
            ConfigError,
        >(ConfigError::NonPositiveSamplePeriod),
        // Then b0.
        f.sample_period.finite && !f.sample_period.non_positive ==> (!f.b0.finite
            ==> first_order_verdict(f) == Err::<(), ConfigError>(ConfigError::NonFinite)),
        f.sample_period.finite && !f.sample_period.non_positive ==> (f.b0.finite && f.b0.near_zero
            ==> first_order_verdict(f) == Err::<(), ConfigError>(ConfigError::ZeroPlantGain)),
        // Then kp.
        f.sample_period.finite && !f.sample_period.non_positive && f.b0.finite && !f.b0.near_zero
            ==> (!f.kp.finite ==> first_order_verdict(f) == Err::<(), ConfigError>(
            ConfigError::NonFinite,
        )),
        f.sample_period.finite && !f.sample_period.non_positive && f.b0.finite && !f.b0.near_zero
            ==> (f.kp.finite && f.kp.non_positive ==> first_order_verdict(f) == Err::<
            (),
            ConfigError,
        >(ConfigError::NonPositiveParameter)),
        // Then the observer gains.
        f.sample_period.finite && !f.sample_period.non_positive && f.b0.finite && !f.b0.near_zero
            && f.kp.finite && !f.kp.non_positive ==> (!f.observer_beta1.finite
            ==> first_order_verdict(f) == Err::<(), ConfigError>(ConfigError::NonFinite)),
        f.sample_period.finite && !f.sample_period.non_positive && f.b0.finite && !f.b0.near_zero
            && f.kp.finite && !f.kp.non_positive ==> (f.observer_beta1.finite
            && f.observer_beta1.non_positive ==> first_order_verdict(f) == Err::<(), ConfigError>(
            ConfigError::NonPositiveParameter,
        )),
        f.sample_period.finite && !f.sample_period.non_positive && f.b0.finite && !f.b0.near_zero
            && f.kp.finite && !f.kp.non_positive && f.observer_beta1.finite
            && !f.observer_beta1.non_positive ==> (!f.observer_beta2.finite
            ==> first_order_verdict(f) == Err::<(), ConfigError>(ConfigError::NonFinite)),
        f.sample_period.finite && !f.sample_period.non_positive && f.b0.finite && !f.b0.near_zero
            && f.kp.finite && !f.kp.non_positive && f.observer_beta1.finite
            && !f.observer_beta1.non_positive ==> (f.observer_beta2.finite
            && f.observer_beta2.non_positive ==> first_order_verdict(f) == Err::<(), ConfigError>(
            ConfigError::NonPositiveParameter,
        )),
        // Then the clamp, last.
        f.sample_period.finite && !f.sample_period.non_positive && f.b0.finite && !f.b0.near_zero
            && f.kp.finite && !f.kp.non_positive && f.observer_beta1.finite
            && !f.observer_beta1.non_positive && f.observer_beta2.finite
            && !f.observer_beta2.non_positive ==> (f.output_limit matches Some(c) ==> (
        !c.min_finite || !c.max_finite ==> first_order_verdict(f) == Err::<(), ConfigError>(
            ConfigError::NonFinite,
        ))),
        f.sample_period.finite && !f.sample_period.non_positive && f.b0.finite && !f.b0.near_zero
            && f.kp.finite && !f.kp.non_positive && f.observer_beta1.finite
            && !f.observer_beta1.non_positive && f.observer_beta2.finite
            && !f.observer_beta2.non_positive ==> (f.output_limit matches Some(c) ==> (c.min_finite
            && c.max_finite && c.inverted ==> first_order_verdict(f) == Err::<(), ConfigError>(
            ConfigError::InvalidOutputLimit,
        ))),
        // Accepted exactly when every field passes.
        first_order_verdict(f) == Ok::<(), ConfigError>(()) <==> {
            &&& f.sample_period.finite && !f.sample_period.non_positive
            &&& f.b0.finite && !f.b0.near_zero
            &&& f.kp.finite && !f.kp.non_positive
            &&& f.observer_beta1.finite && !f.observer_beta1.non_positive
            &&& f.observer_beta2.finite && !f.observer_beta2.non_positive
            &&& f.output_limit matches Some(c) ==> c.min_finite && c.max_finite && !c.inverted
        },
        // Each error only for its own kind of failure.
        first_order_verdict(f) == Err::<(), ConfigError>(ConfigError::NonPositiveSamplePeriod)
            ==> f.sample_period.finite && f.sample_period.non_positive,
        first_order_verdict(f) == Err::<(), ConfigError>(ConfigError::ZeroPlantGain) ==> f.b0.finite
            && f.b0.near_zero,
        first_order_verdict(f) == Err::<(), ConfigError>(ConfigError::NonPositiveParameter) ==> (
        f.kp.finite && f.kp.non_positive) || (f.observer_beta1.finite
            && f.observer_beta1.non_positive) || (f.observer_beta2.finite
            && f.observer_beta2.non_positive),
        first_order_verdict(f) == Err::<(), ConfigError>(ConfigError::InvalidOutputLimit) ==> (
        f.output_limit matches Some(c) && c.inverted),
        first_order_verdict(f) == Err::<(), ConfigError>(ConfigError::NonFinite) ==> {
            ||| !f.sample_period.finite
            ||| !f.b0.finite
            ||| !f.kp.finite
            ||| !f.observer_beta1.finite
            ||| !f.observer_beta2.finite
            ||| (f.output_limit matches Some(c) && (!c.min_finite || !c.max_finite))
        },
{
}

/// How a second-order configuration is refused, field by field in the order
/// sample period, `b0`, `kp`, `kd`, `observer_beta1`, `observer_beta2`,
/// `observer_beta3`, clamp: the first field that fails decides, and it fails
/// with `NonFinite` when it is not finite, and otherwise with its own error
/// (`NonPositiveSamplePeriod` for the sample period, `ZeroPlantGain` for `b0`,
/// `NonPositiveParameter` for a gain, `InvalidOutputLimit` for an inverted
/// clamp). Each error comes out only when a field fails in that way, and the
/// configuration is accepted exactly when every field passes.
pub proof fn lemma_second_order_validation(f: SecondOrderConfigFacts)
    ensures
        // The sample period is checked first.
        !f.sample_period.finite ==> second_order_verdict(f) == Err::<(), ConfigError>(
            ConfigError::NonFinite,
        ),
        f.sample_period.finite && f.sample_period.non_positive ==> second_order_verdict(f)
            == Err::<(), ConfigError>(ConfigError::NonPositiveSamplePeriod),
        // Then b0.
        f.sample_period.finite && !f.sample_period.non_positive ==> (!f.b0.finite
            ==> second_order_verdict(f) == Err::<(), ConfigError>(ConfigError::NonFinite)),
        f.sample_period.finite && !f.sample_period.non_positive ==> (f.b0.finite && f.b0.near_zero
            ==> second_order_verdict(f) == Err::<(), ConfigError>(ConfigError::ZeroPlantGain)),
        // Then kp.
        f.sample_period.finite && !f.sample_period.non_positive && f.b0.finite && !f.b0.near_zero
            ==> (!f.kp.finite ==> second_order_verdict(f) == Err::<(), ConfigError>(
            ConfigError::NonFinite,
        )),
        f.sample_period.finite && !f.sample_period.non_positive && f.b0.finite && !f.b0.near_zero
            ==> (f.kp.finite && f.kp.non_positive ==> second_order_verdict(f) == Err::<
            (),
            ConfigError,
        >(ConfigError::NonPositiveParameter)),
        // Then kd.
        f.sample_period.finite && !f.sample_period.non_positive && f.b0.finite && !f.b0.near_zero
            && f.kp.finite && !f.kp.non_positive ==> (!f.kd.finite ==> second_order_verdict(f)
            == Err::<(), ConfigError>(ConfigError::NonFinite)),
        f.sample_period.finite && !f.sample_period.non_positive && f.b0.finite && !f.b0.near_zero
            && f.kp.finite && !f.kp.non_positive ==> (f.kd.finite && f.kd.non_positive
            ==> second_order_verdict(f) == Err::<(), ConfigError>(
            ConfigError::NonPositiveParameter,
        )),
        // Then the observer gains.
        f.sample_period.finite && !f.sample_period.non_positive && f.b0.finite && !f.b0.near_zero
            && f.kp.finite && !f.kp.non_positive && f.kd.finite && !f.kd.non_positive ==> (
        !f.observer_beta1.finite ==> second_order_verdict(f) == Err::<(), ConfigError>(
            ConfigError::NonFinite,
        )),
        f.sample_period.finite && !f.sample_period.non_positive && f.b0.finite && !f.b0.near_zero
            && f.kp.finite && !f.kp.non_positive && f.kd.finite && !f.kd.non_positive ==> (
        f.observer_beta1.finite && f.observer_beta1.non_positive ==> second_order_verdict(f)
            == Err::<(), ConfigError>(ConfigError::NonPositiveParameter)),
        f.sample_period.finite && !f.sample_period.non_positive && f.b0.finite && !f.b0.near_zero
            && f.kp.finite && !f.kp.non_positive && f.kd.finite && !f.kd.non_positive
            && f.observer_beta1.finite && !f.observer_beta1.non_positive ==> (
        !f.observer_beta2.finite ==> second_order_verdict(f) == Err::<(), ConfigError>(
            ConfigError::NonFinite,
        )),
        f.sample_period.finite && !f.sample_period.non_positive && f.b0.finite && !f.b0.near_zero
            && f.kp.finite && !f.kp.non_positive && f.kd.finite && !f.kd.non_positive
            && f.observer_beta1.finite && !f.observer_beta1.non_positive ==> (
        f.observer_beta2.finite && f.observer_beta2.non_positive ==> second_order_verdict(f)
            == Err::<(), ConfigError>(ConfigError::NonPositiveParameter)),
        f.sample_period.finite && !f.sample_period.non_positive && f.b0.finite && !f.b0.near_zero
            && f.kp.finite && !f.kp.non_positive && f.kd.finite && !f.kd.non_positive
            && f.observer_beta1.finite && !f.observer_beta1.non_positive && f.observer_beta2.finite
            && !f.observer_beta2.non_positive ==> (!f.observer_beta3.finite
            ==> second_order_verdict(f) == Err::<(), ConfigError>(ConfigError::NonFinite)),
        f.sample_period.finite && !f.sample_period.non_positive && f.b0.finite && !f.b0.near_zero
            && f.kp.finite && !f.kp.non_positive && f.kd.finite && !f.kd.non_positive
            && f.observer_beta1.finite && !f.observer_beta1.non_positive && f.observer_beta2.finite
            && !f.observer_beta2.non_positive ==> (f.observer_beta3.finite
            && f.observer_beta3.non_positive ==> second_order_verdict(f) == Err::<(), ConfigError>(
            ConfigError::NonPositiveParameter,
        )),
        // Then the clamp, last.
        f.sample_period.finite && !f.sample_period.non_positive && f.b0.finite && !f.b0.near_zero
            && f.kp.finite && !f.kp.non_positive && f.kd.finite && !f.kd.non_positive
            && f.observer_beta1.finite && !f.observer_beta1.non_positive && f.observer_beta2.finite
            && !f.observer_beta2.non_positive && f.observer_beta3.finite
            && !f.observer_beta3.non_positive ==> (f.output_limit matches Some(c) ==> (
        !c.min_finite || !c.max_finite ==> second_order_verdict(f) == Err::<(), ConfigError>(
            ConfigError::NonFinite,
        ))),
        f.sample_period.finite && !f.sample_period.non_positive && f.b0.finite && !f.b0.near_zero
            && f.kp.finite && !f.kp.non_positive && f.kd.finite && !f.kd.non_positive
            && f.observer_beta1.finite && !f.observer_beta1.non_positive && f.observer_beta2.finite
            && !f.observer_beta2.non_positive && f.observer_beta3.finite
            && !f.observer_beta3.non_positive ==> (f.output_limit matches Some(c) ==> (c.min_finite
            && c.max_finite && c.inverted ==> second_order_verdict(f) == Err::<(), ConfigError>(
            ConfigError::InvalidOutputLimit,
        ))),
        // Accepted exactly when every field passes.
        second_order_verdict(f) == Ok::<(), ConfigError>(()) <==> {
            &&& f.sample_period.finite && !f.sample_period.non_positive
            &&& f.b0.finite && !f.b0.near_zero
            &&& f.kp.finite && !f.kp.non_positive
            &&& f.kd.finite && !f.kd.non_positive
            &&& f.observer_beta1.finite && !f.observer_beta1.non_positive
            &&& f.observer_beta2.finite && !f.observer_beta2.non_positive
            &&& f.observer_beta3.finite && !f.observer_beta3.non_positive
            &&& f.output_limit matches Some(c) ==> c.min_finite && c.max_finite && !c.inverted
        },
        // Each error only for its own kind of failure.
        second_order_verdict(f) == Err::<(), ConfigError>(ConfigError::NonPositiveSamplePeriod)
            ==> f.sample_period.finite && f.sample_period.non_positive,
        second_order_verdict(f) == Err::<(), ConfigError>(ConfigError::ZeroPlantGain)
            ==> f.b0.finite && f.b0.near_zero,
        second_order_verdict(f) == Err::<(), ConfigError>(ConfigError::NonPositiveParameter) ==> {
            ||| f.kp.finite && f.kp.non_positive
            ||| f.kd.finite && f.kd.non_positive
            ||| f.observer_beta1.finite && f.observer_beta1.non_positive
            ||| f.observer_beta2.finite && f.observer_beta2.non_positive
            ||| f.observer_beta3.finite && f.observer_beta3.non_positive
        },
        second_order_verdict(f) == Err::<(), ConfigError>(ConfigError::InvalidOutputLimit) ==> (
        f.output_limit matches Some(c) && c.inverted),
        second_order_verdict(f) == Err::<(), ConfigError>(ConfigError::NonFinite) ==> {
            ||| !f.sample_period.finite
            ||| !f.b0.finite
            ||| !f.kp.finite
            ||| !f.kd.finite
            ||| !f.observer_beta1.finite
            ||| !f.observer_beta2.finite
            ||| !f.observer_beta3.finite
            ||| (f.output_limit matches Some(c) && (!c.min_finite || !c.max_finite))
        },
{
}

} // verus!
