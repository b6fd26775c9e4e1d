//! Which folder macOS saves screenshots into, and whether a capture reaches
//! the clipboard at once.
//!
//! Shift-Cmd-4 does not copy anything: it writes a PNG into the screenshot
//! folder, which the app watches. The folder and the thumbnail setting are
//! macOS preferences; reading and writing them is the caller's, and what is
//! decided on what was read is here.

use crate::intake::{is_png, spec_is_png};
use crate::paths::{join, joined};
use crate::paths::file_name_of;
use crate::text::{has_png_suffix, starts_with_text, text_of};
use vstd::hash_set::StringHashSet;
use vstd::prelude::*;
use vstd::string::*;

verus! {

/// System-wide default when the user never moved the screenshot folder.
pub const DEFAULT_DIR: &'static str = "Desktop";

/// The folder name `Desktop`.
pub open spec fn desktop_name() -> Seq<char> {
    seq!['D', 'e', 's', 'k', 't', 'o', 'p']
}

/// The `~/` that starts a path inside the home folder.
pub open spec fn tilde_slash() -> Seq<char> {
    seq!['~', '/']
}

/// The Desktop inside `home`.
pub open spec fn desktop_of(home: Seq<char>) -> Seq<char> {
    joined(home, desktop_name())
}

/// The folder that the `location` preference `loc` names, `~/` taken as the
/// home folder `home`; the Desktop when the preference is unset or empty.
pub open spec fn spec_expand(loc: Option<Seq<char>>, home: Seq<char>) -> Seq<char> {
    match loc {
        Some(l) => if l.len() == 0 {
            desktop_of(home)
        } else if tilde_slash().is_prefix_of(l) {
            joined(home, l.skip(2))
        } else {
            l
        },
        None => desktop_of(home),
    }
}

/// The Desktop inside `home`.
fn desktop(home: &str) -> (r: String)
    ensures
        r@ == desktop_of(home@),
{
    let name = DEFAULT_DIR;
    proof {
        reveal_strlit("Desktop");
        assert(name@ =~= desktop_name());
    }
    join(home, name)
}

/// The folder the `location` preference names: `~/` is the home folder, and
/// an unset or empty preference means the Desktop.
pub fn expand(loc: Option<String>, home: &str) -> (r: String)
    ensures
        r@ == spec_expand(text_of(loc), home@),
{
    match loc {
        Some(loc) => {
            if loc.as_str().unicode_len() == 0 {
                return desktop(home);
            }
            let tilde = "~/";
            proof {
                reveal_strlit("~/");
                assert(tilde@ =~= tilde_slash());
            }
            if starts_with_text(loc.as_str(), tilde) {
                let len = loc.as_str().unicode_len();
                let rest = loc.as_str().substring_char(2, len);
                proof {
                    assert(rest@ =~= loc@.skip(2));
                }
                join(home, rest)
            } else {
                loc
            }
        },
        None => desktop(home),
    }
}

/// macOS itself falls back to the Desktop when the configured location has
/// gone missing (moved, deleted, a drive that is not mounted) — it never
/// fails to save a screenshot over a stale preference. The same here: a
/// configured folder that `is_dir` does not find is as good as unset.
pub fn resolve_dir<F>(loc: Option<String>, home: &str, is_dir: F) -> (r: String)
    where
        F: Fn(&str) -> bool,
    requires
        forall|p: &str| is_dir.requires((p,)),
    ensures
        exists|p: &str, found: bool|
            {
                &&& p@ == spec_expand(text_of(loc), home@)
                &&& is_dir.ensures((p,), found)
                &&& r@ == (if found {
                    spec_expand(text_of(loc), home@)
                } else {
                    desktop_of(home@)
                })
            },
{
    let expanded = expand(loc, home);
    let found = is_dir(expanded.as_str());
    if found {
        expanded
    } else {
        desktop(home)
    }
}

/// Law: an unset or empty `location` preference means the Desktop — and so
/// does a configured folder that is gone (see `resolve_dir`).
pub proof fn law_unset_location_is_desktop(home: Seq<char>)
    ensures
        spec_expand(None, home) == desktop_of(home),
        spec_expand(Some(Seq::<char>::empty()), home) == desktop_of(home),
{
}

/// Calls `dirs::home_dir`. The answer depends on the user's account, so
/// nothing is stated of it.
#[verifier::external_body]
fn home_dir() -> Option<String> {
    dirs::home_dir().map(|d| d.to_string_lossy().into_owned())
}

/// The home folder to work from: the one the system reported, or `/` when
/// it reported none.
pub open spec fn spec_home_or_root(home: Option<Seq<char>>) -> Seq<char> {
    match home {
        Some(h) => h,
        None => seq!['/'],
    }
}

/// The home folder the system reported, or `/` when there is none.
pub fn home_or_root(home: Option<String>) -> (r: String)
    ensures
        r@ == spec_home_or_root(text_of(home)),
{
    match home {
        Some(h) => h,
        None => {
            let root = "/";
            proof {
                reveal_strlit("/");
            }
            String::from_str(root)
        },
    }
}

/// The folder macOS saves screenshots into (Cmd+Shift+5 → Options), given
/// the `location` preference `loc`: the configured folder when `is_dir`
/// finds it, else the Desktop — both under the home folder the system
/// reports (`dirs::home_dir`), or `/` when it reports none. Which home that
/// is depends on the user's account and is not stated.
pub fn screenshot_dir<F>(loc: Option<String>, is_dir: F) -> (r: String)
    where
        F: Fn(&str) -> bool,
    requires
        forall|p: &str| is_dir.requires((p,)),
    ensures
        exists|home: Option<Seq<char>>, p: &str, found: bool|
            {
                &&& p@ == spec_expand(text_of(loc), spec_home_or_root(home))
                &&& is_dir.ensures((p,), found)
                &&& r@ == (if found {
                    spec_expand(text_of(loc), spec_home_or_root(home))
                } else {
                    desktop_of(spec_home_or_root(home))
                })
            },
{
    let reported = home_dir();
    let ghost reported_text = text_of(reported);
    let home = home_or_root(reported);
    let r = resolve_dir(loc, home.as_str(), is_dir);
    proof {
        assert(home@ == spec_home_or_root(reported_text));
    }
    r
}

/// Whether macOS hides the floating thumbnail after a capture, given the
/// `show-thumbnail` preference as read. That thumbnail is why a screenshot
/// takes seconds to reach the clipboard: the file is only written once it
/// fades. The key is absent by default, and absent means the thumbnail is
/// on; only `0` turns it off.
pub fn instant_enabled(pref: Option<String>) -> (r: bool)
    ensures
        r == (text_of(pref) == Some(seq!['0'])),
{
    match pref {
        Some(p) => {
            let r = p.as_str().unicode_len() == 1 && p.as_str().get_char(0) == '0';
            proof {
                if r {
                    assert(p@ =~= seq!['0']);
                }
            }
            r
        },
        None => false,
    }
}

/// The value written to the `show-thumbnail` preference for instant mode
/// `on`: instant means no thumbnail.
pub fn show_thumbnail_value(on: bool) -> (v: &'static str)
    ensures
        on ==> v@ == seq!['f', 'a', 'l', 's', 'e'],
        !on ==> v@ == seq!['t', 'r', 'u', 'e'],
{
    proof {
        reveal_strlit("false");
        reveal_strlit("true");
    }
    if on {
        "false"
    } else {
        "true"
    }
}

/// The screenshot paths already read. One capture arrives as a burst of
/// events (create, then several modifies as macOS writes and renames the
/// file); without this, each one would re-read and re-decode the same PNG.
pub struct Handled {
    paths: StringHashSet,
}

impl View for Handled {
    type V = Set<Seq<char>>;

    closed spec fn view(&self) -> Set<Seq<char>> {
        self.paths@
    }
}

/// The paths handled after an event names `path`, and whether to read it:
/// a picture not read before is read, and from then on it has been.
pub open spec fn handled_step(handled: Set<Seq<char>>, path: Seq<char>) -> (Set<Seq<char>>, bool) {
    if spec_is_png(path) && !handled.contains(path) {
        (handled.insert(path), true)
    } else {
        (handled, false)
    }
}

impl Handled {
    /// No screenshot read yet.
    pub fn new() -> (h: Handled)
        ensures
            h@ == Set::<Seq<char>>::empty(),
    {
        Handled { paths: StringHashSet::new() }
    }

    /// An event named `path`: whether to read it — a picture, and one not
    /// read before.
    pub fn should_read(&mut self, path: &str) -> (r: bool)
        ensures
            (final(self)@, r) == handled_step(old(self)@, path@),
            r ==> spec_is_png(path@) && !old(self)@.contains(path@) && final(self)@ == old(self)@.insert(
                path@,
            ),
            !spec_is_png(path@) ==> !r && final(self)@ == old(self)@,
            old(self)@.contains(path@) ==> !r && final(self)@ == old(self)@,
    {
        if !is_png(path) {
            return false;
        }
        self.paths.insert(path.to_owned())
    }
}

/// Law: a screenshot is read once — whatever events follow for the same
/// path, none of them reads it again.
pub proof fn law_screenshot_read_once(handled: Set<Seq<char>>, path: Seq<char>)
    ensures
        handled_step(handled_step(handled, path).0, path).1 == false,
        handled_step(handled, path).0.contains(path) || !spec_is_png(path),
{
}

/// Law: only pictures are read from the screenshot folder. A path is read
/// only when its file name is visible (it does not start with `.`, like the
/// temp file a capture is written into) and ends in `.png`; any other file
/// landing there — a screen recording, a document — is never read and is
/// not even remembered.
pub proof fn law_only_pictures_are_read(handled: Set<Seq<char>>, path: Seq<char>)
    ensures
        handled_step(handled, path).1 ==> exists|name: Seq<char>|
            {
                &&& file_name_of(path) == Some(name)
                &&& !(name.len() > 0 && name[0] == '.')
                &&& has_png_suffix(name)
            },
        !(file_name_of(path) matches Some(name) && has_png_suffix(name)) ==> !handled_step(handled, path).1
            && handled_step(handled, path).0 == handled,
{
    if handled_step(handled, path).1 {
        let name = file_name_of(path)->0;
        assert(file_name_of(path) == Some(name));
    }
}

} // verus!
