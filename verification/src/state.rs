//! What every request handler shares.

use crate::config::AppConfig;
use std::time::Instant;
use vstd::prelude::*;

verus! {

/// `std::time::Instant`, a reading of the monotonic clock. Nothing is known
/// of what a value holds.
#[verifier::external_type_specification]
#[verifier::external_body]
pub struct ExInstant(Instant);

/// `Clone::clone` of `std::time::Instant`. An instant is `Copy`: the clone is
/// the instant itself.
pub assume_specification[ <Instant as Clone>::clone ](instant: &Instant) -> (r: Instant)
    ensures
        r == *instant,
;

/// The settings and the time the service came up.
#[derive(Clone)]
pub struct AppState {
    pub config: AppConfig,
    pub start_time: Instant,
}

impl AppState {
    /// The state of a service that came up at `start_time`.
    pub fn new(config: AppConfig, start_time: Instant) -> (r: AppState)
        ensures
            r.config == config,
            r.start_time == start_time,
    {
        AppState { config, start_time }
    }
}

} // verus!
