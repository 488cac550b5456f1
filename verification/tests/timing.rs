use ladrc_no_std::timing::{MillisPeriod, SecondsPeriod, UpdateTimestamps};
use ladrc_no_std::validation::ParamFacts;
use ladrc_no_std::ConfigError;

fn param(x: f32) -> ParamFacts {
    ParamFacts { finite: x.is_finite(), non_positive: x <= 0.0 }
}

/// What a seconds-based update hands to the timestamps: whether `now` is
/// finite and what validation reads of the elapsed interval.
fn advance_seconds(
    stamps: &mut UpdateTimestamps<f32>,
    now: f32,
) -> Result<SecondsPeriod, ConfigError> {
    let elapsed = stamps.last_update_at().map(|previous| param(now - previous));
    stamps.advance_seconds(now, now.is_finite(), elapsed)
}

#[test]
fn update_at_rejects_non_monotonic_time() {
    let mut stamps = UpdateTimestamps::<f32>::new();
    stamps.mark_seconds(1.0);

    assert_eq!(
        advance_seconds(&mut stamps, 1.0).unwrap_err(),
        ConfigError::NonPositiveSamplePeriod
    );
    assert_eq!(
        advance_seconds(&mut stamps, 0.9).unwrap_err(),
        ConfigError::NonPositiveSamplePeriod
    );
    assert_eq!(stamps.last_update_at(), Some(1.0));
}

#[test]
fn update_at_millis_rejects_non_monotonic_time() {
    let mut stamps = UpdateTimestamps::<f32>::new();
    stamps.mark_millis(1_000);

    assert_eq!(
        stamps.advance_millis(1_000).unwrap_err(),
        ConfigError::NonPositiveSamplePeriod
    );
    assert_eq!(
        stamps.advance_millis(999).unwrap_err(),
        ConfigError::NonPositiveSamplePeriod
    );
    assert_eq!(stamps.last_update_at_millis(), Some(1_000));
}

#[test]
fn millis_timestamps_survive_large_uptime() {
    let mut stamps = UpdateTimestamps::<f32>::new();
    let periods_ms = [1_u64, 2, 1, 1, 2];
    let mut now_ms = 50_000_000_u64;
    stamps.mark_millis(now_ms);

    let mut total = 0_u64;
    for step in 0..6_000 {
        let dt_ms = periods_ms[step % periods_ms.len()];
        now_ms += dt_ms;
        assert_eq!(stamps.advance_millis(now_ms), Ok(MillisPeriod::Elapsed(dt_ms)));
        total += dt_ms;
    }

    assert_eq!(stamps.last_update_at_millis(), Some(now_ms));
    assert_eq!(total, now_ms - 50_000_000);
    assert_eq!(stamps.last_update_at(), None);
}

#[test]
fn refused_millis_updates_do_not_lose_time() {
    let mut stamps = UpdateTimestamps::<f32>::new();
    stamps.mark_millis(100);
    let mut total = 0_u64;
    for now in [105_u64, 103, 105, 110, 0, 111] {
        if let Ok(MillisPeriod::Elapsed(d)) = stamps.advance_millis(now) {
            total += d;
        }
    }
    assert_eq!(total, 11);
    assert_eq!(stamps.last_update_at_millis(), Some(111));
}

#[test]
fn first_update_without_timestamp_uses_nominal_period() {
    let mut stamps = UpdateTimestamps::<f32>::new();
    assert_eq!(stamps.advance_millis(7), Ok(MillisPeriod::Nominal));
    assert_eq!(stamps.last_update_at_millis(), Some(7));
    assert_eq!(stamps.advance_millis(9), Ok(MillisPeriod::Elapsed(2)));

    let mut stamps = UpdateTimestamps::<f32>::new();
    assert_eq!(advance_seconds(&mut stamps, 3.0), Ok(SecondsPeriod::Nominal));
    assert_eq!(stamps.last_update_at(), Some(3.0));
    assert_eq!(advance_seconds(&mut stamps, 3.5), Ok(SecondsPeriod::Elapsed));
    assert_eq!(stamps.last_update_at(), Some(3.5));
}

#[test]
fn non_finite_time_is_refused_before_anything_else() {
    let mut stamps = UpdateTimestamps::<f32>::new();
    assert_eq!(advance_seconds(&mut stamps, f32::NAN), Err(ConfigError::NonFinite));
    assert_eq!(stamps.last_update_at(), None);
    stamps.mark_seconds(1.0);
    assert_eq!(advance_seconds(&mut stamps, f32::INFINITY), Err(ConfigError::NonFinite));
    assert_eq!(stamps.last_update_at(), Some(1.0));
}

#[test]
fn the_two_clocks_are_independent() {
    let mut stamps = UpdateTimestamps::<f32>::new();
    stamps.mark_seconds(2.0);
    assert_eq!(stamps.last_update_at_millis(), None);
    // A millisecond update leaves the seconds timestamp alone.
    assert_eq!(stamps.advance_millis(40), Ok(MillisPeriod::Nominal));
    assert_eq!(stamps.last_update_at(), Some(2.0));
    // A seconds update leaves the millisecond timestamp alone.
    assert_eq!(advance_seconds(&mut stamps, 2.25), Ok(SecondsPeriod::Elapsed));
    assert_eq!(stamps.last_update_at_millis(), Some(40));
    // Starting a millisecond loop forgets the seconds timestamp, and back.
    stamps.mark_millis(50);
    assert_eq!(stamps.last_update_at(), None);
    stamps.mark_seconds(9.0);
    assert_eq!(stamps.last_update_at_millis(), None);
    stamps.clear();
    assert_eq!(stamps.last_update_at(), None);
    assert_eq!(stamps.last_update_at_millis(), None);
}
