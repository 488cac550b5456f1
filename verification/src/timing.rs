//! Timestamps a controller remembers between updates, and how each update
//! turns a timestamp into a sample period.
//!
//! A controller keeps two independent timestamps: one in seconds, set by the
//! seconds-based calls, and one in integer milliseconds, set by the
//! millisecond-based calls. The millisecond path subtracts timestamps as
//! integers, so the elapsed interval it reports is exact however long the
//! clock has been running.
use vstd::prelude::*;

use crate::error::ConfigError;
use crate::validation::{
    ParamFacts, sample_period_verdict, time_verdict, validate_sample_period, validate_time,
};

verus! {

/// Which sample period a seconds-based update uses.
#[derive(Debug, Clone, Copy, PartialEq, Eq, Structural)]
pub enum SecondsPeriod {
    /// No earlier timestamp is known: use the configured nominal period.
    Nominal,
    /// Use the time elapsed since the stored timestamp in seconds.
    Elapsed,
}

/// Which sample period a millisecond-based update uses.
#[derive(Debug, Clone, Copy, PartialEq, Eq, Structural)]
pub enum MillisPeriod {
    /// No earlier timestamp is known: use the configured nominal period.
    Nominal,
    /// Use this many milliseconds, elapsed since the stored millisecond
    /// timestamp.
    Elapsed(u64),
}

/// The timestamps remembered by a controller. `S` is the type of a timestamp
/// in seconds; the logic here stores and hands it back, and never reads it.
#[derive(Debug, Clone, Copy, PartialEq)]
pub struct UpdateTimestamps<S> {
    last_update_at: Option<S>,
    last_update_at_millis: Option<u64>,
}

/// The result of a millisecond update that found `previous` stored and was
/// called at `now_millis`.
pub open spec fn millis_verdict(now_millis: u64, previous: Option<u64>) -> Result<
    MillisPeriod,
    ConfigError,
> {
    match previous {
        Some(p) => if now_millis > p {
            Ok(MillisPeriod::Elapsed((now_millis - p) as u64))
        } else {
            Err(ConfigError::NonPositiveSamplePeriod)
        },
        None => Ok(MillisPeriod::Nominal),
    }
}

/// The result of a seconds update: the timestamp is checked first, then the
/// elapsed interval, when an earlier timestamp exists.
pub open spec fn seconds_verdict(now_finite: bool, elapsed: Option<ParamFacts>) -> Result<
    SecondsPeriod,
    ConfigError,
> {
    match time_verdict(now_finite) {
        Err(e) => Err(e),
        Ok(()) => match elapsed {
            Some(p) => match sample_period_verdict(p) {
                Err(e) => Err(e),
                Ok(()) => Ok(SecondsPeriod::Elapsed),
            },
            None => Ok(SecondsPeriod::Nominal),
        },
    }
}

/// The millisecond timestamp stored after one millisecond update at
/// `now_millis` that found `previous` stored.
pub open spec fn millis_after(previous: Option<u64>, now_millis: u64) -> Option<u64> {
    match millis_verdict(now_millis, previous) {
        Ok(_) => Some(now_millis),
        Err(_) => previous,
    }
}

/// The millisecond timestamp stored after millisecond updates at each of
/// `stamps` in turn, starting from `previous`.
pub open spec fn millis_after_run(previous: Option<u64>, stamps: Seq<u64>) -> Option<u64>
    decreases stamps.len(),
{
    if stamps.len() == 0 {
        previous
    } else {
        millis_after_run(millis_after(previous, stamps[0]), stamps.drop_first())
    }
}

/// The milliseconds reported as elapsed by one millisecond update: the
/// interval it was accepted with, or nothing when it used the nominal period
/// or was refused.
pub open spec fn millis_reported(previous: Option<u64>, now_millis: u64) -> nat {
    match millis_verdict(now_millis, previous) {
        Ok(MillisPeriod::Elapsed(d)) => d as nat,
        _ => 0,
    }
}

/// The milliseconds reported as elapsed, summed over millisecond updates at
/// each of `stamps` in turn, starting from `previous`.
pub open spec fn millis_reported_run(previous: Option<u64>, stamps: Seq<u64>) -> nat
    decreases stamps.len(),
{
    if stamps.len() == 0 {
        0
    } else {
        millis_reported(previous, stamps[0]) + millis_reported_run(
            millis_after(previous, stamps[0]),
            stamps.drop_first(),
        )
    }
}

/// The largest of `start` and every element of `stamps`.
pub open spec fn latest(start: u64, stamps: Seq<u64>) -> u64
    decreases stamps.len(),
{
    if stamps.len() == 0 {
        start
    } else if stamps[0] > start {
        latest(stamps[0], stamps.drop_first())
    } else {
        latest(start, stamps.drop_first())
    }
}

/// A millisecond update is accepted exactly when the clock moved forward
/// since the stored timestamp, and then it reports exactly the difference;
/// otherwise it is refused as a non-positive sample period and the stored
/// timestamp stays. Without a stored timestamp it always uses the nominal
/// period.
pub proof fn lemma_millis_accepts_only_forward_time(previous: Option<u64>, now_millis: u64)
    ensures
        previous is None ==> millis_verdict(now_millis, previous) == Ok::<
            MillisPeriod,
            ConfigError,
        >(MillisPeriod::Nominal),
        previous matches Some(p) ==> (now_millis > p ==> millis_verdict(now_millis, previous)
            == Ok::<MillisPeriod, ConfigError>(
            MillisPeriod::Elapsed((now_millis - p) as u64),
        )),
        previous matches Some(p) ==> (now_millis <= p ==> millis_verdict(now_millis, previous)
            == Err::<MillisPeriod, ConfigError>(ConfigError::NonPositiveSamplePeriod)
            && millis_after(previous, now_millis) == previous),
{
}

/// After a millisecond timestamp `start` is stored, whatever millisecond
/// updates follow, accepted or refused, the stored timestamp is the latest
/// time seen, and the intervals reported by the accepted updates add up
/// exactly to the time from `start` to it: no millisecond is lost or counted
/// twice, however long the clock has been running.
pub proof fn lemma_millis_intervals_add_up(start: u64, stamps: Seq<u64>)
    ensures
        millis_after_run(Some(start), stamps) == Some(latest(start, stamps)),
        latest(start, stamps) >= start,
        millis_reported_run(Some(start), stamps) == latest(start, stamps) - start,
    decreases stamps.len(),
{
    if stamps.len() > 0 {
        let next = millis_after(Some(start), stamps[0]);
        if stamps[0] > start {
            assert(next == Some(stamps[0]));
            lemma_millis_intervals_add_up(stamps[0], stamps.drop_first());
        } else {
            assert(next == Some(start));
            lemma_millis_intervals_add_up(start, stamps.drop_first());
        }
    }
}

/// A seconds update is refused with `NonFinite` when its timestamp is not
/// finite, whatever else holds. With a finite timestamp and none stored it
/// uses the nominal period. With one stored, the elapsed interval decides: not
/// finite is `NonFinite`, not positive is `NonPositiveSamplePeriod` (the clock
/// did not move forward), and positive is accepted as the elapsed period.
pub proof fn lemma_seconds_accepts_only_forward_time(now_finite: bool, elapsed: Option<ParamFacts>)
    ensures
        !now_finite ==> seconds_verdict(now_finite, elapsed) == Err::<SecondsPeriod, ConfigError>(
            ConfigError::NonFinite,
        ),
        now_finite && elapsed is None ==> seconds_verdict(now_finite, elapsed) == Ok::<
            SecondsPeriod,
            ConfigError,
        >(SecondsPeriod::Nominal),
        now_finite ==> (elapsed matches Some(p) ==> (!p.finite ==> seconds_verdict(
            now_finite,
            elapsed,
        ) == Err::<SecondsPeriod, ConfigError>(ConfigError::NonFinite))),
        now_finite ==> (elapsed matches Some(p) ==> (p.finite && p.non_positive
            ==> seconds_verdict(now_finite, elapsed) == Err::<SecondsPeriod, ConfigError>(
            ConfigError::NonPositiveSamplePeriod,
        ))),
        now_finite ==> (elapsed matches Some(p) ==> (p.finite && !p.non_positive
            ==> seconds_verdict(now_finite, elapsed) == Ok::<SecondsPeriod, ConfigError>(
            SecondsPeriod::Elapsed,
        ))),
{
}

impl<S> UpdateTimestamps<S> {
    /// The stored timestamp in seconds.
    pub closed spec fn stamp_seconds(&self) -> Option<S> {
        self.last_update_at
    }

    /// The stored timestamp in milliseconds.
    pub closed spec fn stamp_millis(&self) -> Option<u64> {
        self.last_update_at_millis
    }

    /// No timestamp is known.
    pub fn new() -> (r: Self)
        ensures
            r.stamp_seconds() is None,
            r.stamp_millis() is None,
    {
        UpdateTimestamps { last_update_at: None, last_update_at_millis: None }
    }

    /// Forgets both timestamps, as a full reset of the controller does.
    pub fn clear(&mut self)
        ensures
            final(self).stamp_seconds() is None,
            final(self).stamp_millis() is None,
    {
        self.last_update_at = None;
        self.last_update_at_millis = None;
    }

    /// Starts a seconds-based loop at `now_seconds`: stores it and forgets
    /// the millisecond timestamp.
    pub fn mark_seconds(&mut self, now_seconds: S)
        ensures
            final(self).stamp_seconds() == Some(now_seconds),
            final(self).stamp_millis() is None,
    {
        self.last_update_at = Some(now_seconds);
        self.last_update_at_millis = None;
    }

    /// Starts a millisecond-based loop at `now_millis`: stores it and forgets
    /// the timestamp in seconds.
    pub fn mark_millis(&mut self, now_millis: u64)
        ensures
            final(self).stamp_millis() == Some(now_millis),
            final(self).stamp_seconds() is None,
    {
        self.last_update_at_millis = Some(now_millis);
        self.last_update_at = None;
    }

    /// The millisecond timestamp stored by the last millisecond update.
    pub fn last_update_at_millis(&self) -> (r: Option<u64>)
        ensures
            r == self.stamp_millis(),
    {
        self.last_update_at_millis
    }

    /// Turns a millisecond timestamp into the sample period of this update.
    ///
    /// With no stored millisecond timestamp the nominal period is used. With
    /// one, the elapsed interval is `now_millis` minus it, computed exactly in
    /// integers; a clock that did not move forward is refused. On success
    /// `now_millis` is stored; on failure nothing changes. The timestamp in
    /// seconds is left as it is either way.
    pub fn advance_millis(&mut self, now_millis: u64) -> (r: Result<MillisPeriod, ConfigError>)
        ensures
            r == millis_verdict(now_millis, old(self).stamp_millis()),
            r is Ok ==> final(self).stamp_millis() == Some(now_millis),
            r is Err ==> final(self).stamp_millis() == old(self).stamp_millis(),
            final(self).stamp_millis() == millis_after(old(self).stamp_millis(), now_millis),
            final(self).stamp_seconds() == old(self).stamp_seconds(),
    {
        let period = match self.last_update_at_millis {
            Some(previous) => {
                let elapsed_millis = match now_millis.checked_sub(previous) {
                    Some(d) => d,
                    None => return Err(ConfigError::NonPositiveSamplePeriod),
                };
                if elapsed_millis == 0 {
                    return Err(ConfigError::NonPositiveSamplePeriod);
                }
                MillisPeriod::Elapsed(elapsed_millis)
            },
            None => MillisPeriod::Nominal,
        };
        self.last_update_at_millis = Some(now_millis);
        Ok(period)
    }
}

impl<S: Copy> UpdateTimestamps<S> {
    /// The timestamp in seconds stored by the last seconds-based update.
    pub fn last_update_at(&self) -> (r: Option<S>)
        ensures
            r == self.stamp_seconds(),
    {
        self.last_update_at
    }

    /// Turns a timestamp in seconds into the sample period of this update.
    ///
    /// `now_finite` says whether `now_seconds` is finite; `elapsed` holds what
    /// validation reads of `now_seconds` minus the stored timestamp, and is
    /// present exactly when a timestamp is stored. The timestamp is checked
    /// first, then the elapsed interval as a sample period. On success
    /// `now_seconds` is stored; on failure nothing changes. The millisecond
    /// timestamp is left as it is either way.
    pub fn advance_seconds(
        &mut self,
        now_seconds: S,
        now_finite: bool,
        elapsed: Option<ParamFacts>,
    ) -> (r: Result<SecondsPeriod, ConfigError>)
        requires
            elapsed is Some <==> old(self).stamp_seconds() is Some,
        ensures
            r == seconds_verdict(now_finite, elapsed),
            r is Ok ==> final(self).stamp_seconds() == Some(now_seconds),
            r is Err ==> final(self).stamp_seconds() == old(self).stamp_seconds(),
            final(self).stamp_millis() == old(self).stamp_millis(),
    {
        validate_time(now_finite)?;
        let period = match elapsed {
            Some(p) => {
                validate_sample_period(p)?;
                SecondsPeriod::Elapsed
            },
            None => SecondsPeriod::Nominal,
        };
        self.last_update_at = Some(now_seconds);
        Ok(period)
    }
}

} // verus!
