//! The tracking engine: owns the configuration and the platform tracker
//! implementation that the loop drivers run.

use vstd::prelude::*;
use crate::config::{FocusTrackerConfig, duration_ns, tracker_config_wf};
use crate::source::ImplFocusTracker;

verus! {

/// A focus tracker: a platform implementation plus a configuration.
#[derive(Debug, Clone)]
pub struct FocusTracker {
    impl_focus_tracker: ImplFocusTracker,
    config: FocusTrackerConfig,
}

impl FocusTracker {
    /// The tracker's configuration, as a model value.
    pub closed spec fn spec_config(&self) -> FocusTrackerConfig {
        self.config
    }

    /// Create a tracker with the default configuration.
    pub fn new() -> (r: Self)
        ensures
            duration_ns(r.spec_config().poll_interval) == 100_000_000,
            r.spec_config().icon.size is None,
            tracker_config_wf(r.spec_config()),
    {
        Self::with_config(FocusTrackerConfig::default())
    }

    /// Create a tracker with the given configuration.
    pub fn with_config(config: FocusTrackerConfig) -> (r: Self)
        ensures
            r.spec_config() == config,
    {
        FocusTracker { impl_focus_tracker: ImplFocusTracker::new(), config }
    }

    /// Borrow the configuration, for the loop driver that runs the tracker.
    pub fn config(&self) -> (r: &FocusTrackerConfig)
        ensures
            *r == self.spec_config(),
    {
        &self.config
    }
}

impl Default for FocusTracker {
    /// Same as `FocusTracker::new`.
    fn default() -> (r: Self)
        ensures
            duration_ns(r.spec_config().poll_interval) == 100_000_000,
            r.spec_config().icon.size is None,
            tracker_config_wf(r.spec_config()),
    {
        Self::new()
    }
}

} // verus!
