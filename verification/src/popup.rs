//! The popup and the app it pastes into.
//!
//! Option+V raises the popup over whatever the user is working in; picking a
//! card pastes into that app, and Esc hands the keyboard back to it. So the
//! app in front is remembered at the moment the popup opens — by the time a
//! card is picked, the frontmost app is this one. Raising and hiding the
//! panel and activating an app by its process id are the caller's.

use vstd::prelude::*;

verus! {

/// What the hotkey does.
#[derive(PartialEq, Eq, Structural, Debug, Clone, Copy)]
pub enum PopupToggle {
    /// Put the popup away and hand the keyboard back to this app, if any.
    Hide(Option<i32>),
    /// Park the popup at the bottom of the screen and show it.
    Show,
}

/// Where the paste goes: the process id of the app that was in front when
/// the popup last opened.
pub struct Popup {
    pub target_pid: Option<i32>,
}

impl Popup {
    /// The popup has not opened yet: there is nowhere to paste.
    pub fn new() -> (p: Popup)
        ensures
            p.target_pid is None,
    {
        Popup { target_pid: None }
    }

    /// Option+V. With the popup up, it goes away and whoever the keyboard was
    /// taken from gets it back; with it down, the app in front now (process
    /// `frontmost_pid`) is remembered *before* the popup goes up.
    pub fn toggle_popup(&mut self, visible: bool, frontmost_pid: Option<i32>) -> (t: PopupToggle)
        ensures
            visible ==> t == PopupToggle::Hide(old(self).target_pid),
            !visible ==> t == PopupToggle::Show,
            final(self).target_pid == target_after_toggle(old(self).target_pid, visible, frontmost_pid),
    {
        if visible {
            PopupToggle::Hide(self.target_pid)
        } else {
            self.target_pid = frontmost_pid;
            PopupToggle::Show
        }
    }

    /// Esc, or a click past the popup: the app to hand the keyboard back to,
    /// exactly as a paste would have done.
    pub fn close_popup(&self) -> (pid: Option<i32>)
        ensures
            pid == self.target_pid,
    {
        self.target_pid
    }

    /// A card picked: the app the paste goes into.
    pub fn pick(&self) -> (pid: Option<i32>)
        ensures
            pid == self.target_pid,
    {
        self.target_pid
    }
}

/// The target after a toggle of the popup, `visible` before the press, with
/// `frontmost` the app in front at the press.
pub open spec fn target_after_toggle(target: Option<i32>, visible: bool, frontmost: Option<i32>) -> Option<i32> {
    if visible {
        target
    } else {
        frontmost
    }
}

/// Law: the paste lands in the window the user came from — a popup opened
/// over the app `frontmost` pastes into it, and closing it hands the keyboard
/// back to it, however many times the popup is closed and reopened over that
/// same app.
pub proof fn law_paste_goes_where_the_user_was(target: Option<i32>, frontmost: Option<i32>)
    ensures
        target_after_toggle(target, false, frontmost) == frontmost,
        target_after_toggle(target_after_toggle(target, false, frontmost), true, None) == frontmost,
{
}

} // verus!
