use vstd::prelude::*;

verus! {

/// Configuration validation error.
///
/// Constructors validate parameters before a controller is created. This
/// avoids silently running a loop with a zero sample time, zero plant gain,
/// inverted output limit, or non-finite coefficient.
#[derive(Debug, Clone, Copy, PartialEq, Eq, Structural)]
pub enum ConfigError {
    /// A value must be finite.
    NonFinite,
    /// The sample period must be positive.
    NonPositiveSamplePeriod,
    /// A bandwidth, gain, tracking speed, or delta must be positive.
    NonPositiveParameter,
    /// The plant input gain estimate `b0` is zero or too close to zero.
    ZeroPlantGain,
    /// The lower output limit is greater than the upper output limit.
    InvalidOutputLimit,
}

} // verus!
