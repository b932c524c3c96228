//! Configuration for focus tracking and icon processing.
//!
//! `poll_interval` must lie in (0, 10s] and an icon `size`, when present, in
//! (0, 512]; both bounds are enforced at construction time by the builders'
//! preconditions.

use vstd::prelude::*;
use core::time::Duration;

verus! {

/// The length of a `Duration` in nanoseconds. `Duration::as_nanos` observes
/// it; the constructors below are specified through it.
pub uninterp spec fn duration_ns(d: Duration) -> u128;

/// Relies on `core::time::Duration::as_nanos`: returns the total length of
/// the duration in nanoseconds, a function of the duration value alone.
pub assume_specification[ Duration::as_nanos ](d: &Duration) -> (r: u128)
    ensures
        r == duration_ns(*d),
;

/// Relies on `core::time::Duration::from_millis`: a duration of exactly
/// `ms` milliseconds, that is `ms * 1_000_000` nanoseconds.
pub assume_specification[ Duration::from_millis ](ms: u64) -> (r: Duration)
    ensures
        duration_ns(r) == ms as u128 * 1_000_000,
;

/// Relies on `core::time::Duration::from_secs`: a duration of exactly
/// `secs` seconds, that is `secs * 1_000_000_000` nanoseconds.
pub assume_specification[ Duration::from_secs ](secs: u64) -> (r: Duration)
    ensures
        duration_ns(r) == secs as u128 * 1_000_000_000,
;

/// Relies on `core::time::Duration::is_zero`: true exactly when the duration
/// spans no time at all.
pub assume_specification[ Duration::is_zero ](d: &Duration) -> (r: bool)
    ensures
        r == (duration_ns(*d) == 0),
;

/// Relies on `<core::time::Duration as Clone>::clone`: `Duration` is `Copy`,
/// so a clone is the same duration.
pub assume_specification[ <Duration as Clone>::clone ](d: &Duration) -> (r: Duration)
    ensures
        r == *d,
;

/// Upper bound for a configured poll interval: 10 seconds, in nanoseconds.
pub const MAX_POLL_INTERVAL_NS: u128 = 10_000_000_000;

/// Largest accepted icon edge length, in pixels.
pub const MAX_ICON_SIZE: u32 = 512;

/// Configuration for icon processing behavior.
#[derive(Debug, Clone)]
pub struct IconConfig {
    /// Target size for icons (width and height will be equal).
    /// `None` means: keep the platform-native size, no resize.
    pub size: Option<u32>,
}

/// A well-formed icon configuration: the target size, when present, is
/// nonzero and at most `MAX_ICON_SIZE`.
pub open spec fn icon_config_wf(c: IconConfig) -> bool {
    c.size matches Some(s) ==> 0 < s <= MAX_ICON_SIZE
}

impl Default for IconConfig {
    /// The default icon configuration requests no resize.
    fn default() -> (r: Self)
        ensures
            r.size is None,
    {
        IconConfig { size: None }
    }
}

impl IconConfig {
    /// Create a new icon configuration with default settings.
    pub fn new() -> (r: Self)
        ensures
            r.size is None,
    {
        Self::default()
    }

    /// Set the icon size (width and height will be equal).
    pub fn with_size(self, size: u32) -> (r: Self)
        requires
            0 < size <= MAX_ICON_SIZE,
        ensures
            r.size == Some(size),
    {
        IconConfig { size: Some(size) }
    }

    /// Get the icon size, using the 128-pixel default if none is configured.
    pub fn get_size_or_default(&self) -> (r: u32)
        ensures
            r == match self.size {
                Some(s) => s,
                None => 128u32,
            },
    {
        match self.size {
            Some(s) => s,
            None => 128,
        }
    }

    /// Whether `size` is an acceptable icon size: nonzero and at most
    /// `MAX_ICON_SIZE` pixels.
    pub fn validate_size(&self, size: u32) -> (r: bool)
        ensures
            r == (0 < size <= MAX_ICON_SIZE),
    {
        size != 0 && size <= MAX_ICON_SIZE
    }
}

/// Configuration for focus tracking behavior.
#[derive(Debug, Clone)]
pub struct FocusTrackerConfig {
    /// Polling interval for focus change detection. Default: 100ms.
    pub poll_interval: Duration,
    /// Icon processing configuration.
    pub icon: IconConfig,
}

/// A well-formed tracker configuration: the poll interval lies in
/// (0, 10s] and the icon configuration is itself well formed.
pub open spec fn tracker_config_wf(c: FocusTrackerConfig) -> bool {
    &&& 0 < duration_ns(c.poll_interval) <= MAX_POLL_INTERVAL_NS
    &&& icon_config_wf(c.icon)
}

impl Default for FocusTrackerConfig {
    /// The default configuration polls every 100 milliseconds and requests
    /// no icon resize.
    fn default() -> (r: Self)
        ensures
            duration_ns(r.poll_interval) == 100_000_000,
            r.icon.size is None,
            tracker_config_wf(r),
    {
        FocusTrackerConfig { poll_interval: Duration::from_millis(100), icon: IconConfig::new() }
    }
}

impl FocusTrackerConfig {
    /// Create a new configuration with default settings.
    pub fn new() -> (r: Self)
        ensures
            duration_ns(r.poll_interval) == 100_000_000,
            r.icon.size is None,
            tracker_config_wf(r),
    {
        Self::default()
    }

    /// Set the icon configuration.
    pub fn with_icon_config(self, icon: IconConfig) -> (r: Self)
        ensures
            r.icon == icon,
            r.poll_interval == self.poll_interval,
    {
        FocusTrackerConfig { poll_interval: self.poll_interval, icon }
    }

    /// Set the icon size (convenience method).
    pub fn with_icon_size(self, size: u32) -> (r: Self)
        requires
            0 < size <= MAX_ICON_SIZE,
        ensures
            r.icon.size == Some(size),
            r.poll_interval == self.poll_interval,
    {
        let icon = self.icon.with_size(size);
        FocusTrackerConfig { poll_interval: self.poll_interval, icon }
    }

    /// Set the polling interval for focus change detection.
    pub fn with_poll_interval(self, interval: Duration) -> (r: Self)
        requires
            0 < duration_ns(interval) <= MAX_POLL_INTERVAL_NS,
        ensures
            r.poll_interval == interval,
            r.icon == self.icon,
    {
        FocusTrackerConfig { poll_interval: interval, icon: self.icon }
    }

    /// Set the polling interval in milliseconds.
    pub fn with_poll_interval_ms(self, ms: u64) -> (r: Self)
        requires
            0 < ms <= 10_000,
        ensures
            duration_ns(r.poll_interval) == ms as u128 * 1_000_000,
            r.icon == self.icon,
    {
        self.with_poll_interval(Duration::from_millis(ms))
    }

    /// Whether `interval` is an acceptable polling interval: nonzero and at
    /// most 10 seconds.
    pub fn validate_poll_interval(&self, interval: Duration) -> (r: bool)
        ensures
            r == (0 < duration_ns(interval) <= MAX_POLL_INTERVAL_NS),
    {
        !interval.is_zero() && interval.as_nanos() <= MAX_POLL_INTERVAL_NS
    }
}

} // verus!
