//! Turning a PNG file on disk into a clip.
//!
//! Two folders feed the history this way — the one macOS drops screenshots
//! into and the one an edited picture comes back from — and what lies between
//! the file and the card is the same for both: wait for the write to finish,
//! read the size out of the image, file it.

use crate::paths::{file_name, file_name_of};
use crate::source_app::SourceApp;
use crate::text::{ends_with_png, has_png_suffix};
use vstd::prelude::*;

verus! {

/// A file name worth reading: a PNG, and not the hidden temp file macOS
/// writes a capture into before renaming it into place.
pub open spec fn is_png_name(name: Seq<char>) -> bool {
    &&& !(name.len() > 0 && name[0] == '.')
    &&& has_png_suffix(name)
}

/// A path worth reading: its file name is a PNG's.
pub open spec fn spec_is_png(path: Seq<char>) -> bool {
    match file_name_of(path) {
        Some(name) => is_png_name(name),
        None => false,
    }
}

/// Whether a file name is a picture to read.
pub fn is_png_file_name(name: &str) -> (r: bool)
    ensures
        r == is_png_name(name@),
{
    if name.unicode_len() > 0 && name.get_char(0) == '.' {
        return false;
    }
    ends_with_png(name)
}

/// A file worth reading: a PNG that is not the hidden temp file macOS writes
/// a capture into before renaming it into place — that one is half a picture.
pub fn is_png(path: &str) -> (r: bool)
    ensures
        r == spec_is_png(path@),
{
    match file_name(path) {
        Some(name) => is_png_file_name(name.as_str()),
        None => false,
    }
}

/// How many times a file's size is looked at before the file is given up
/// on — about a second, at the pace the caller polls.
pub const SETTLE_POLLS: u32 = 40;

/// What to do after looking at the size of a file that is being written.
#[derive(PartialEq, Eq, Structural, Debug, Clone, Copy)]
pub enum Settling {
    /// The size held still: read the file now.
    Read,
    /// Still growing: wait a moment and look again.
    Wait,
    /// The file's size could not be read: it is gone, or not ours to read.
    Gone,
    /// It never stopped growing in all the polls allowed.
    NeverSettled,
}

/// A filesystem event fires while the file is still being written. The file
/// is read only once its size stops growing, or the history would be handed
/// a truncated PNG. This is the bookkeeping of that wait; the caller looks at
/// the file and sleeps between looks.
#[derive(Debug, Clone, Copy)]
pub struct Settle {
    /// The size seen at the previous look; 0 before the first.
    pub last: u64,
    /// How many looks have been taken without the size holding still.
    pub polls: u32,
}

/// The answer to one look at the file: `size` is `None` when its size could
/// not be read.
pub open spec fn settle_step(s: Settle, size: Option<u64>) -> (Settle, Settling) {
    if s.polls >= SETTLE_POLLS {
        (s, Settling::NeverSettled)
    } else {
        match size {
            None => (s, Settling::Gone),
            Some(n) => if n > 0 && n == s.last {
                (s, Settling::Read)
            } else {
                let next = Settle { last: n, polls: (s.polls + 1) as u32 };
                if next.polls >= SETTLE_POLLS {
                    (next, Settling::NeverSettled)
                } else {
                    (next, Settling::Wait)
                }
            },
        }
    }
}

impl Settle {
    /// Nothing seen yet.
    pub fn new() -> (s: Settle)
        ensures
            s.last == 0,
            s.polls == 0,
    {
        Settle { last: 0, polls: 0 }
    }

    /// Takes one look at the file, whose size is `size` (`None` when it
    /// could not be read), and says what to do next.
    pub fn observe(&mut self, size: Option<u64>) -> (r: Settling)
        ensures
            (*final(self), r) == settle_step(*old(self), size),
    {
        if self.polls >= SETTLE_POLLS {
            return Settling::NeverSettled;
        }
        match size {
            None => Settling::Gone,
            Some(n) => {
                if n > 0 && n == self.last {
                    Settling::Read
                } else {
                    self.last = n;
                    self.polls = self.polls + 1;
                    if self.polls >= SETTLE_POLLS {
                        Settling::NeverSettled
                    } else {
                        Settling::Wait
                    }
                }
            },
        }
    }
}

/// Law: the first look never reads — there is no earlier size yet to hold
/// still against.
pub proof fn law_first_look_waits(size: Option<u64>)
    ensures
        settle_step(Settle { last: 0, polls: 0 }, size).1 != Settling::Read,
{
}

/// Law: a file is read only once its size has held still: the size seen is
/// nonzero and the same as at the previous look.
pub proof fn law_read_only_when_settled(s: Settle, size: Option<u64>)
    requires
        settle_step(s, size).1 == Settling::Read,
    ensures
        size == Some(s.last),
        s.last > 0,
{
}

/// Law: the wait is bounded — every look that does not end it counts, and
/// after `SETTLE_POLLS` of them the file is given up on.
pub proof fn law_wait_is_bounded(s: Settle, size: Option<u64>)
    requires
        settle_step(s, size).1 == Settling::Wait,
    ensures
        settle_step(s, size).0.polls == s.polls + 1,
        settle_step(s, size).0.polls < SETTLE_POLLS,
{
}

/// The width and height of the picture that the `image` crate decodes
/// `bytes` into, or `None` where it decodes none.
pub uninterp spec fn decoded_size(bytes: Seq<u8>) -> Option<(u32, u32)>;

/// Calls `image::load_from_memory` and reads the decoded picture's width and
/// height. Trusted to give back exactly that size, named by `decoded_size`,
/// and `None` where the crate returns an error.
#[verifier::external_body]
fn decode_size(bytes: &[u8]) -> (r: Option<(u32, u32)>)
    ensures
        r == decoded_size(bytes@),
{
    image::load_from_memory(bytes).ok().map(|img| (img.width(), img.height()))
}

/// A picture ready to be filed: the PNG as it was read and its size.
#[derive(Debug)]
pub struct Picture {
    pub png: Vec<u8>,
    pub width: u32,
    pub height: u32,
}

/// The first half of filing a PNG from disk: decode it for its size. `None`
/// when the bytes are not a picture, which files nothing. Putting the
/// picture on the clipboard and in the history is the caller's.
pub fn ingest(bytes: Vec<u8>) -> (r: Option<Picture>)
    ensures
        r is Some <==> decoded_size(bytes@) is Some,
        r matches Some(p) ==> p.png@ == bytes@ && decoded_size(bytes@) == Some((p.width, p.height)),
{
    match decode_size(bytes.as_slice()) {
        Some((width, height)) => Some(Picture { png: bytes, width, height }),
        None => None,
    }
}

/// Puts a picture read from disk on the clipboard with `write_clipboard`,
/// before it goes into the history, so that a plain Cmd+V straight after the
/// capture or the save pastes it. Our own clipboard write must not bounce
/// back through the clipboard watcher as a second copy of the same picture:
/// `skip_next` is raised before the write, and lowered again when the write
/// fails. Hands back what the write gave.
pub fn put_on_clipboard<W>(picture: &Picture, skip_next: &mut bool, write_clipboard: W) -> (r: Result<(), String>)
    where
        W: Fn(&Picture) -> Result<(), String>,
    requires
        forall|p: &Picture| write_clipboard.requires((p,)),
    ensures
        write_clipboard.ensures((picture,), r),
        *final(skip_next) == (r is Ok),
{
    *skip_next = true;
    let written = write_clipboard(picture);
    if written.is_err() {
        *skip_next = false;
    }
    written
}

/// Turns a PNG read from disk into a clip: decodes it for its size, puts it
/// on the clipboard with `write_clipboard` first — so a plain Cmd+V straight
/// after the capture or the save pastes it, and with `skip_next` raised so
/// that our own write does not come back through the clipboard watcher —
/// then files it in the history with `file_in_history`. Returns whether the
/// history changed, as that callback says; bytes that are not a picture touch neither the
/// clipboard nor the history.
pub fn file_picture<W, H>(
    bytes: Vec<u8>,
    app: SourceApp,
    skip_next: &mut bool,
    write_clipboard: W,
    file_in_history: H,
) -> (added: bool)
    where
        W: Fn(&Picture) -> Result<(), String>,
        H: FnOnce(Picture, SourceApp) -> bool,
    requires
        forall|p: &Picture| write_clipboard.requires((p,)),
        forall|p: Picture, a: SourceApp| file_in_history.requires((p, a)),
    ensures
        decoded_size(bytes@) is None ==> !added && *final(skip_next) == *old(skip_next),
        decoded_size(bytes@) matches Some((w, h)) ==> exists|p: Picture, written: Result<(), String>|
            {
                &&& p.png@ == bytes@ && p.width == w && p.height == h
                &&& write_clipboard.ensures((&p,), written)
                &&& *final(skip_next) == (written is Ok)
                &&& file_in_history.ensures((p, app), added)
            },
{
    let ghost original = bytes@;
    let picture = match ingest(bytes) {
        Some(p) => p,
        None => return false,
    };
    let written = put_on_clipboard(&picture, skip_next, write_clipboard);
    let ghost filed = picture;
    let added = file_in_history(picture, app);
    proof {
        assert(filed.png@ == original);
    }
    added
}

} // verus!
