use ferrous_focus::{FerrousFocusError, FocusTracker, FocusTrackerConfig, IconConfig};
use std::time::Duration;

#[test]
fn test_default_config() {
    let config = FocusTrackerConfig::default();
    assert_eq!(config.poll_interval, Duration::from_millis(100));
}

#[test]
fn test_default_icon_config() {
    let config = FocusTrackerConfig::default();
    assert_eq!(config.icon.size, None);
}

#[test]
fn test_builder_pattern() {
    let config = FocusTrackerConfig::new().with_poll_interval_ms(250);
    assert_eq!(config.poll_interval, Duration::from_millis(250));
}

#[test]
fn test_icon_config_builder() {
    let config = FocusTrackerConfig::new().with_icon_size(64);
    assert_eq!(config.icon.size, Some(64));
}

#[test]
fn test_icon_config_default_size() {
    let icon_config = IconConfig::new();
    assert_eq!(icon_config.get_size_or_default(), 128);
}

#[test]
fn test_icon_config_with_size() {
    let icon_config = IconConfig::new().with_size(256);
    assert_eq!(icon_config.size, Some(256));
    assert_eq!(icon_config.get_size_or_default(), 256);
}

#[test]
fn test_with_poll_interval() {
    let config = FocusTrackerConfig::new().with_poll_interval(Duration::from_millis(500));
    assert_eq!(config.poll_interval, Duration::from_millis(500));
}

#[test]
fn test_largest_icon_size_accepted() {
    let icon_config = IconConfig::new().with_size(512);
    assert_eq!(icon_config.size, Some(512));
    let config = FocusTrackerConfig::new().with_poll_interval(Duration::from_secs(10));
    assert_eq!(config.poll_interval, Duration::from_secs(10));
}

#[test]
fn test_with_icon_config() {
    let config = FocusTrackerConfig::new().with_icon_config(IconConfig::new().with_size(32));
    assert_eq!(config.icon.size, Some(32));
    assert_eq!(config.poll_interval, Duration::from_millis(100));
}

#[test]
fn test_validate_size_bounds() {
    let icon_config = IconConfig::new();
    assert!(!icon_config.validate_size(0));
    assert!(icon_config.validate_size(1));
    assert!(icon_config.validate_size(512));
    assert!(!icon_config.validate_size(513));
    assert!(!icon_config.validate_size(1024));
}

#[test]
fn test_validate_poll_interval_bounds() {
    let config = FocusTrackerConfig::new();
    assert!(!config.validate_poll_interval(Duration::from_millis(0)));
    assert!(config.validate_poll_interval(Duration::from_millis(1)));
    assert!(config.validate_poll_interval(Duration::from_secs(10)));
    assert!(!config.validate_poll_interval(Duration::from_secs(11)));
    assert!(!config.validate_poll_interval(Duration::new(10, 1)));
}

#[test]
fn test_error_types() {
    println!("Testing all error types");

    let errors = vec![
        FerrousFocusError::Error("Test error".to_string()),
        FerrousFocusError::StdSyncPoisonError("Test poison".to_string()),
        FerrousFocusError::Unsupported,
        FerrousFocusError::PermissionDenied,
        FerrousFocusError::NoDisplay,
        FerrousFocusError::NotInteractiveSession,
        FerrousFocusError::Platform("Test platform error".to_string()),
    ];

    for error in errors {
        println!("Error: {}", error.message());
        println!("Debug: {:?}", error);
    }

    println!("All error types tested successfully");
}

#[test]
fn test_error_messages_exact() {
    assert_eq!(FerrousFocusError::new("Test error").message(), "Test error");
    assert_eq!(
        FerrousFocusError::StdSyncPoisonError("Test poison".to_string()).message(),
        "StdSyncPoisonError Test poison"
    );
    assert_eq!(FerrousFocusError::Unsupported.message(), "Unsupported");
    assert_eq!(FerrousFocusError::PermissionDenied.message(), "Permission denied");
    assert_eq!(
        FerrousFocusError::NoPermission.message(),
        "No permission for accessibility features"
    );
    assert_eq!(FerrousFocusError::NoDisplay.message(), "No display available");
    assert_eq!(
        FerrousFocusError::NotInteractiveSession.message(),
        "Not running in interactive session"
    );
    assert_eq!(
        FerrousFocusError::Platform("Test platform error".to_string()).message(),
        "Platform error: Test platform error"
    );
}

#[test]
fn test_tracker_holds_its_config() {
    let tracker = FocusTracker::new();
    assert_eq!(tracker.config().poll_interval, Duration::from_millis(100));
    assert_eq!(tracker.config().icon.size, None);

    let config = FocusTrackerConfig::new().with_poll_interval_ms(250).with_icon_size(64);
    let tracker = FocusTracker::with_config(config);
    assert_eq!(tracker.config().poll_interval, Duration::from_millis(250));
    assert_eq!(tracker.config().icon.size, Some(64));

    let cloned = tracker.clone();
    assert_eq!(cloned.config().poll_interval, Duration::from_millis(250));

    let defaulted = FocusTracker::default();
    assert_eq!(defaulted.config().poll_interval, Duration::from_millis(100));
}
