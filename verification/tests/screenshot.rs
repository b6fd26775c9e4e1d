use iago::screenshot::{expand, instant_enabled, resolve_dir, show_thumbnail_value};
use std::path::PathBuf;

/// A stale `com.apple.screencapture location` pointing at a folder that no
/// longer exists must not leave the watcher pointed at nothing — macOS
/// itself saves to the Desktop in that case, and so must we.
#[test]
fn missing_configured_dir_falls_back_to_desktop() {
    let home = PathBuf::from("/Users/oleg");
    let resolved = resolve_dir(Some("/Users/oleg/Documents/screenshots".into()), home.to_str().unwrap(), |_| false);
    assert_eq!(PathBuf::from(resolved), home.join("Desktop"));
}

#[test]
fn existing_configured_dir_is_used_as_is() {
    let home = PathBuf::from("/Users/oleg");
    let configured = home.join("Pictures/Screenshots");
    let resolved = resolve_dir(Some("~/Pictures/Screenshots".into()), home.to_str().unwrap(), |p| {
        PathBuf::from(p) == configured
    });
    assert_eq!(PathBuf::from(resolved), configured);
}

#[test]
fn unset_pref_defaults_to_desktop() {
    let home = PathBuf::from("/Users/oleg");
    let resolved = resolve_dir(None, home.to_str().unwrap(), |_| true);
    assert_eq!(PathBuf::from(resolved), home.join("Desktop"));
}

#[test]
fn an_empty_pref_is_unset() {
    assert_eq!(expand(Some(String::new()), "/Users/oleg"), "/Users/oleg/Desktop");
}

#[test]
fn an_absolute_pref_is_taken_as_is() {
    assert_eq!(expand(Some("/Volumes/Shots".into()), "/Users/oleg"), "/Volumes/Shots");
}

#[test]
fn only_a_zero_turns_the_thumbnail_off() {
    assert!(instant_enabled(Some("0".into())));
    assert!(!instant_enabled(Some("1".into())));
    assert!(!instant_enabled(None), "absent means the thumbnail is on");
    assert!(!instant_enabled(Some("00".into())));
}

#[test]
fn instant_mode_writes_no_thumbnail() {
    assert_eq!(show_thumbnail_value(true), "false");
    assert_eq!(show_thumbnail_value(false), "true");
}

#[test]
fn a_capture_is_read_once_however_many_events_it_arrives_as() {
    let mut handled = iago::screenshot::Handled::new();
    let shot = "/Users/oleg/Desktop/Screenshot 2026-08-06 at 10.00.00.png";
    assert!(handled.should_read(shot));
    assert!(!handled.should_read(shot));
    assert!(!handled.should_read("/Users/oleg/Desktop/.screencapture-1.png"));
    assert!(handled.should_read("/Users/oleg/Desktop/Screenshot 2.png"));
}
