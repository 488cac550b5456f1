//! Verified decision logic of a linear active disturbance rejection
//! controller (LADRC): the configuration error type, the order in which a
//! configuration is checked, and the bookkeeping of update timestamps.
use vstd::prelude::*;

pub mod error;
pub mod timing;
pub mod validation;

pub use error::ConfigError;
