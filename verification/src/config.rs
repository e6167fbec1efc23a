//! The parameters of a scan, and what makes them usable.

use crate::entropy::{EntropySample, DEFAULT_THRESHOLD_BITS};
use crate::store::DEFAULT_START;
use vstd::prelude::*;

verus! {

/// The parameters of a scan.
#[derive(Clone, Copy, Debug, PartialEq, Eq, Structural)]
pub struct ScanConfig {
    /// Digits per window.
    pub window_length: u64,
    /// A window whose entropy lies strictly between zero and this is an
    /// anomaly.
    pub threshold: EntropySample,
    /// The cursor is saved once in this many completed cycles.
    pub persist_interval: u64,
    /// Seconds to wait when the source asks for a pause.
    pub rate_limit_cooldown_secs: u64,
    /// Seconds to wait after a transient error.
    pub transient_cooldown_secs: u64,
    /// Seconds after which an attempt to fetch is given up.
    pub fetch_timeout_secs: u64,
    /// Where to start when neither an argument nor a saved state says where.
    pub default_start: u64,
    /// Slots in the rolling history.
    pub history_len: usize,
}

impl ScanConfig {
    /// A scan needs windows that hold a digit and a save interval that
    /// comes round.
    pub open spec fn valid(&self) -> bool {
        &&& self.window_length >= 1
        &&& self.persist_interval >= 1
    }

    /// The standard parameters: windows of 1000 digits, a threshold of nine
    /// tenths, a save every 100 cycles, 30 and 5 seconds of cooldown, 5
    /// seconds of timeout, and a history of 100 samples.
    pub fn standard() -> (config: ScanConfig)
        ensures
            config == (ScanConfig {
                window_length: 1000,
                threshold: EntropySample::of_bits(DEFAULT_THRESHOLD_BITS),
                persist_interval: 100,
                rate_limit_cooldown_secs: 30,
                transient_cooldown_secs: 5,
                fetch_timeout_secs: 5,
                default_start: DEFAULT_START,
                history_len: 100,
            }),
            config.valid(),
    {
        ScanConfig {
            window_length: 1000,
            threshold: EntropySample::default_threshold(),
            persist_interval: 100,
            rate_limit_cooldown_secs: 30,
            transient_cooldown_secs: 5,
            fetch_timeout_secs: 5,
            default_start: DEFAULT_START,
            history_len: 100,
        }
    }
}

/// Why a scan cannot be set up.
#[derive(Clone, Copy, Debug, PartialEq, Eq, Structural)]
pub enum SetupError {
    /// The window length is zero.
    EmptyWindow,
    /// The save interval is zero.
    NoPersistInterval,
    /// A window at the start offset would end beyond the largest offset.
    StartTooLarge,
}

/// Whether a scan with `config` can start at `start`.
pub open spec fn setup_check(config: ScanConfig, start: u64) -> Result<(), SetupError> {
    if config.window_length == 0 {
        Err(SetupError::EmptyWindow)
    } else if config.persist_interval == 0 {
        Err(SetupError::NoPersistInterval)
    } else if start + config.window_length > u64::MAX {
        Err(SetupError::StartTooLarge)
    } else {
        Ok(())
    }
}

} // verus!
