//! A way into the popup that does not depend on macOS handing out hotkeys.
//!
//! A remapper working at the keyboard-driver level sees ⌥V before the window
//! server can mute it, and passes the press on through a socket in the app's
//! own data folder. The one word the socket takes can do nothing but toggle
//! the popup; listening on it is the caller's, judging what came in is here.

use crate::text::same_text;
use vstd::prelude::*;
use vstd::string::*;

verus! {

/// The socket's file name inside the app's data folder.
pub const SOCKET: &'static str = "control.sock";

/// Longer than any command taken, in bytes; a client sending more is not
/// ours, and no more than this is read.
pub const MAX_REQUEST: u64 = 64;

/// The only thing a client may say.
pub open spec fn toggle_word() -> Seq<char> {
    seq!['t', 'o', 'g', 'g', 'l', 'e']
}

/// Whether `c` has the Unicode property `White_Space`, which is what
/// `char::is_whitespace` and `str::trim` go by.
pub open spec fn is_white_space(c: char) -> bool {
    ||| '\u{9}' <= c <= '\u{d}'
    ||| c == ' '
    ||| c == '\u{85}'
    ||| c == '\u{a0}'
    ||| c == '\u{1680}'
    ||| '\u{2000}' <= c <= '\u{200a}'
    ||| c == '\u{2028}'
    ||| c == '\u{2029}'
    ||| c == '\u{202f}'
    ||| c == '\u{205f}'
    ||| c == '\u{3000}'
}

/// `s` without the whitespace that leads it.
pub open spec fn trimmed_start(s: Seq<char>) -> Seq<char>
    decreases s.len(),
{
    if s.len() > 0 && is_white_space(s[0]) {
        trimmed_start(s.drop_first())
    } else {
        s
    }
}

/// `s` without the whitespace that trails it.
pub open spec fn trimmed_end(s: Seq<char>) -> Seq<char>
    decreases s.len(),
{
    if s.len() > 0 && is_white_space(s.last()) {
        trimmed_end(s.drop_last())
    } else {
        s
    }
}

/// What `str::trim` leaves of `s`: the text without the whitespace that
/// leads and trails it.
pub open spec fn trimmed(s: Seq<char>) -> Seq<char> {
    trimmed_end(trimmed_start(s))
}

/// Whether `c` is whitespace in the sense of `is_white_space`.
fn is_white_space_char(c: char) -> (r: bool)
    ensures
        r == is_white_space(c),
{
    ('\u{9}' <= c && c <= '\u{d}') || c == ' ' || c == '\u{85}' || c == '\u{a0}' || c == '\u{1680}'
        || ('\u{2000}' <= c && c <= '\u{200a}') || c == '\u{2028}' || c == '\u{2029}' || c == '\u{202f}'
        || c == '\u{205f}' || c == '\u{3000}'
}

/// `s` with the leading and trailing whitespace dropped, as `str::trim`
/// drops it.
fn trim(s: &str) -> (r: &str)
    ensures
        r@ == trimmed(s@),
{
    let n = s.unicode_len();
    let mut i: usize = 0;
    assert(s@.skip(0) =~= s@);
    while i < n && is_white_space_char(s.get_char(i))
        invariant
            n == s@.len(),
            i <= n,
            trimmed_start(s@) == trimmed_start(s@.skip(i as int)),
        decreases n - i,
    {
        assert(s@.skip(i as int).drop_first() =~= s@.skip(i + 1));
        i = i + 1;
    }
    assert(trimmed_start(s@) == s@.skip(i as int));
    let mut j: usize = n;
    while j > i && is_white_space_char(s.get_char(j - 1))
        invariant
            n == s@.len(),
            i <= j <= n,
            trimmed(s@) == trimmed_end(s@.subrange(i as int, j as int)),
        decreases j,
    {
        assert(s@.subrange(i as int, j as int).drop_last() =~= s@.subrange(i as int, j - 1));
        j = j - 1;
    }
    proof {
        assert(s@.skip(i as int) =~= s@.subrange(i as int, n as int));
    }
    s.substring_char(i, j)
}

/// Whether a client's request asks to toggle the popup: the word `toggle`,
/// with any whitespace around it.
pub fn is_toggle_request(request: &str) -> (r: bool)
    ensures
        r == (trimmed(request@) == toggle_word()),
{
    let word = "toggle";
    proof {
        reveal_strlit("toggle");
        assert(word@ =~= toggle_word());
    }
    same_text(trim(request), word)
}

} // verus!
