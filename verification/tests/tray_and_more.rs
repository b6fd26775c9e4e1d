use iago::control::is_toggle_request;
use iago::secure_input::{blocked_hint, holder_name, HolderWatch, TOOLTIP};
use iago::source_app::{edited_source, frontmost, icon_data_url, screenshot_source, IconCache, SourceApp};
use iago::tray::{just_auto_hid, note_auto_hide, toggle_panel, within_grace, AutoHide, PanelAction};
use iago::{hides_on_close, update_item_text, version_item_text};
use std::cell::Cell;

#[test]
fn the_hint_names_the_holder_and_the_way_around() {
    assert_eq!(blocked_hint("Ghostty"), "Ghostty holds secure input: ⌥V is blocked, ⌃⌥V still works");
    assert_eq!(TOOLTIP, "Iago — clipboard history (⌥V)");
}

#[test]
fn a_holder_with_no_app_is_named_by_its_process() {
    assert_eq!(holder_name(812, String::new()), "process 812");
    assert_eq!(holder_name(-3, String::new()), "process -3");
    assert_eq!(holder_name(812, "Terminal".into()), "Terminal");
}

#[test]
fn only_a_change_of_holder_is_reported() {
    let mut w = HolderWatch::new();
    assert!(!w.observe(None));
    assert!(w.observe(Some("Ghostty".into())));
    assert!(!w.observe(Some("Ghostty".into())));
    assert!(w.observe(Some("loginwindow".into())));
    assert!(w.observe(None));
}

#[test]
fn only_the_word_toggle_toggles() {
    assert!(is_toggle_request("toggle"));
    assert!(is_toggle_request("  toggle\n"));
    assert!(is_toggle_request("\u{a0}toggle\u{3000}"));
    assert!(!is_toggle_request("toggles"));
    assert!(!is_toggle_request(""));
    assert!(!is_toggle_request("quit"));
}

#[test]
fn the_synthetic_sources_have_buckets_of_their_own() {
    let shot = screenshot_source();
    let edit = edited_source();
    assert_eq!((shot.name.as_str(), shot.bundle.as_str()), ("Screenshot", "system.screenshot"));
    assert_eq!((edit.name.as_str(), edit.bundle.as_str()), ("Edited", "system.edited"));
    assert!(shot.icon.is_empty() && edit.icon.is_empty());
}

fn icon_png() -> Vec<u8> {
    let img = image::RgbaImage::from_pixel(128, 128, image::Rgba([0, 120, 255, 255]));
    let mut out = std::io::Cursor::new(Vec::new());
    image::DynamicImage::ImageRgba8(img).write_to(&mut out, image::ImageFormat::Png).unwrap();
    out.into_inner()
}

#[test]
fn an_icon_becomes_a_png_data_url_of_its_thumbnail() {
    let url = icon_data_url(&icon_png());
    assert!(url.starts_with("data:image/png;base64,iVBORw0KGgo"), "{}", url);
    let encoded = url.strip_prefix("data:image/png;base64,").unwrap();
    let png = base64::Engine::decode(&base64::engine::general_purpose::STANDARD, encoded).unwrap();
    let small = image::load_from_memory(&png).unwrap();
    assert_eq!((small.width(), small.height()), (64, 64), "the icon is scaled down to the card's size");
    assert_eq!(icon_data_url(b"not a picture"), "");
}

#[test]
fn the_icon_is_rasterised_once_per_bundle() {
    let mut cache = IconCache::new();
    let calls = Cell::new(0);
    let raw = || SourceApp { name: "Notes".into(), bundle: "com.apple.Notes".into(), icon: String::new() };
    let rasterise = |_: &str| {
        calls.set(calls.get() + 1);
        Some(icon_png())
    };
    let first = frontmost(raw(), &mut cache, &rasterise);
    let second = frontmost(raw(), &mut cache, &rasterise);
    assert_eq!(calls.get(), 1);
    assert!(first.icon.starts_with("data:image/png;base64,"));
    assert_eq!(first.icon, second.icon);
    assert_eq!((second.name.as_str(), second.bundle.as_str()), ("Notes", "com.apple.Notes"));
}

#[test]
fn an_app_without_a_bundle_gets_no_icon_lookup() {
    let mut cache = IconCache::new();
    let app = frontmost(SourceApp::default(), &mut cache, |_: &str| -> Option<Vec<u8>> {
        panic!("no bundle id, no lookup")
    });
    assert!(app.icon.is_empty() && app.bundle.is_empty());
}

#[test]
fn a_failed_icon_is_cached_as_none() {
    let mut cache = IconCache::new();
    let calls = Cell::new(0);
    let raw = || SourceApp { name: "Helper".into(), bundle: "com.example.helper".into(), icon: String::new() };
    let none = |_: &str| {
        calls.set(calls.get() + 1);
        None
    };
    assert!(frontmost(raw(), &mut cache, &none).icon.is_empty());
    assert!(frontmost(raw(), &mut cache, &none).icon.is_empty());
    assert_eq!(calls.get(), 1);
}

#[test]
fn the_click_that_hid_the_panel_does_not_bring_it_back() {
    assert_eq!(toggle_panel(true, true, false), PanelAction::Hide);
    assert_eq!(toggle_panel(true, false, true), PanelAction::Hide);
    assert_eq!(toggle_panel(true, false, false), PanelAction::Show);
    assert_eq!(toggle_panel(false, false, false), PanelAction::Missing);
}

#[test]
fn the_grace_period_is_short() {
    assert!(within_grace(0));
    assert!(within_grace(399));
    assert!(!within_grace(400));
    let mut state = AutoHide::new();
    assert!(!just_auto_hid(&state), "nothing hid yet");
    note_auto_hide(&mut state);
    assert!(just_auto_hid(&state), "a moment ago is within the grace period");
}

#[test]
fn the_tray_windows_are_hidden_not_destroyed() {
    assert!(hides_on_close("settings"));
    assert!(hides_on_close("shortcuts"));
    assert!(!hides_on_close("main"));
}

#[test]
fn the_menu_lines() {
    assert_eq!(update_item_text("0.2.0"), "Update to v0.2.0");
    assert_eq!(version_item_text("0.1.9"), "Iago v0.1.9");
}
