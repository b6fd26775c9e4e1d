//! Clipboard history in the menu bar: the rules behind the watchers, the
//! edit round trip, the tray and the screenshot folder.
//!
//! A clipboard watcher and a screenshot watcher feed a history of clips;
//! Option+V raises a panel showing them as cards; picking one puts it back on
//! the clipboard and pastes it into the app the user came from. What is
//! decided along the way — which files are pictures, which are ours, when a
//! file has finished being written, what an edit is, where screenshots go,
//! what the tray says — is decided here; watching folders, reading files and
//! talking to the window server is the caller's.

pub mod control;
pub mod edit;
pub mod intake;
pub mod paths;
pub mod popup;
pub mod screenshot;
pub mod secure_input;
pub mod source_app;
pub mod text;
pub mod tray;

use vstd::prelude::*;
use crate::text::same_text;
use vstd::string::*;

verus! {

/// The hotkey that raises the popup.
pub const HOTKEY: &'static str = "alt+v";

/// How often the hotkey is claimed again, in seconds. macOS hands out
/// Option+V once, at registration, and can take it back without telling
/// anyone, so the claim is renewed on a timer.
pub const HOTKEY_RENEWAL_SECS: u64 = 5 * 60;

/// The label of the popup window.
pub const POPUP: &'static str = "main";

/// The windows the tray menu opens, by label.
pub open spec fn tray_windows() -> Seq<Seq<char>> {
    seq!["settings"@, "shortcuts"@]
}

/// Whether closing the window labelled `label` only hides it. The windows
/// the tray opens are hidden on close, never destroyed, so the same window
/// answers every time its menu item is pressed.
pub fn hides_on_close(label: &str) -> (r: bool)
    ensures
        r == tray_windows().contains(label@),
{
    let settings = "settings";
    let shortcuts = "shortcuts";
    let a = same_text(label, settings);
    let b = same_text(label, shortcuts);
    proof {
        assert(tray_windows()[0] == settings@);
        assert(tray_windows()[1] == shortcuts@);
        if tray_windows().contains(label@) {
            let k = choose|k: int| 0 <= k < 2 && tray_windows()[k] == label@;
            assert(k == 0 || k == 1);
        }
    }
    a || b
}

/// The tray menu's first line once a release is waiting: it turns from
/// "Check for updates" into the install action.
pub fn update_item_text(version: &str) -> (t: String)
    ensures
        t@ == "Update to v"@ + version@,
{
    let mut t = String::from_str("Update to v");
    t.append(version);
    t
}

/// The tray menu's version line.
pub fn version_item_text(version: &str) -> (t: String)
    ensures
        t@ == "Iago v"@ + version@,
{
    let mut t = String::from_str("Iago v");
    t.append(version);
    t
}

} // verus!
