//! The menu-bar icon and what a click on it does.
//!
//! Left click drops the panel down under the icon, or puts it away. Clicking
//! the icon also takes focus away from an open panel, which hides it before
//! the click is handled; without a grace period the click would then find a
//! hidden panel and put it straight back up, and the icon could never close
//! it.

use vstd::prelude::*;

verus! {

/// The label of the panel window.
pub const PANEL: &'static str = "panel";

/// How long after an auto-hide a tray click still counts as "the click that
/// hid it", in milliseconds.
pub const AUTO_HIDE_GRACE_MS: u128 = 400;

#[verifier::external_type_specification]
#[verifier::external_body]
pub struct ExInstant(std::time::Instant);

/// Calls `std::time::Instant::now`. The time it reads is not stated.
#[verifier::external_body]
fn now() -> std::time::Instant {
    std::time::Instant::now()
}

/// Calls `std::time::Instant::elapsed` and reads the duration in whole
/// milliseconds. How much time has passed is not stated.
#[verifier::external_body]
fn millis_since(t: &std::time::Instant) -> u128 {
    t.elapsed().as_millis()
}

/// When the panel last hid itself because it lost the focus.
pub struct AutoHide {
    hidden_at: Option<std::time::Instant>,
}

impl AutoHide {
    /// The panel has not hidden itself yet.
    pub fn new() -> (a: AutoHide)
        ensures
            a.hidden_at() is None,
    {
        AutoHide { hidden_at: None }
    }

    /// The moment of the last auto-hide, if there was one.
    pub closed spec fn hidden_at(&self) -> Option<std::time::Instant> {
        self.hidden_at
    }
}

/// Notes that the panel just hid itself because it lost the focus. Noted
/// before hiding: the same click that takes the focus away may be the one on
/// the tray icon.
pub fn note_auto_hide(state: &mut AutoHide)
    ensures
        final(state).hidden_at() is Some,
{
    state.hidden_at = Some(now());
}

/// Whether `elapsed_ms` milliseconds after an auto-hide is still within the
/// grace period.
pub fn within_grace(elapsed_ms: u128) -> (r: bool)
    ensures
        r == (elapsed_ms < AUTO_HIDE_GRACE_MS),
{
    elapsed_ms < AUTO_HIDE_GRACE_MS
}

/// Whether the panel hid itself a moment ago. Never, before any auto-hide.
pub fn just_auto_hid(state: &AutoHide) -> (r: bool)
    ensures
        state.hidden_at() is None ==> !r,
{
    match &state.hidden_at {
        Some(t) => within_grace(millis_since(t)),
        None => false,
    }
}

/// What a left click on the tray icon does.
#[derive(PartialEq, Eq, Structural, Debug, Clone, Copy)]
pub enum PanelAction {
    /// The panel window is gone; there is nothing to show.
    Missing,
    /// Put the panel away.
    Hide,
    /// Size the panel, hang it under the icon and show it.
    Show,
}

/// The click on the icon: with no panel window there is nothing to do; a
/// panel that is up, or that hid itself a moment ago on this same click,
/// goes away; otherwise it comes up.
pub fn toggle_panel(panel_exists: bool, visible: bool, just_hid: bool) -> (a: PanelAction)
    ensures
        !panel_exists ==> a == PanelAction::Missing,
        panel_exists && (visible || just_hid) ==> a == PanelAction::Hide,
        panel_exists && !visible && !just_hid ==> a == PanelAction::Show,
{
    if !panel_exists {
        PanelAction::Missing
    } else if visible || just_hid {
        PanelAction::Hide
    } else {
        PanelAction::Show
    }
}

} // verus!
