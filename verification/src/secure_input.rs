//! Who is holding secure keyboard entry, and what the tray says about it.
//!
//! Any app can switch on macOS's secure event input — a terminal at a
//! password prompt, a browser inside a password field. While it is on, the
//! system swallows every hotkey made of Option alone, ⌥V included, and tells
//! nobody. ⌃⌥V still gets through, and the tray names the holder, so the user
//! knows both the way around and whom to blame. Looking the holder up is the
//! caller's; naming it and noticing a change is here.

use crate::text::{law_signed_decimal_reads_back, signed_decimal, signed_decimal_text, signed_value, text_of};
use vstd::prelude::*;
use vstd::string::*;

verus! {

/// How often the holder is looked up, in seconds.
pub const POLL_SECS: u64 = 2;

/// Tray tooltip while nothing gets in the way of ⌥V.
pub const TOOLTIP: &'static str = "Iago — clipboard history (⌥V)";

/// What follows the holder's name in the tray while it blocks ⌥V.
pub open spec fn blocked_tail() -> Seq<char> {
    " holds secure input: ⌥V is blocked, ⌃⌥V still works"@
}

/// The tooltip and the top line of the tray menu while `holder` blocks ⌥V.
pub fn blocked_hint(holder: &str) -> (hint: String)
    ensures
        hint@ == holder@ + blocked_tail(),
{
    let tail = " holds secure input: ⌥V is blocked, ⌃⌥V still works";
    let mut hint = String::from_str(holder);
    hint.append(tail);
    hint
}

/// The words `process ` that name a holder with no app behind it.
pub open spec fn process_word() -> Seq<char> {
    seq!['p', 'r', 'o', 'c', 'e', 's', 's', ' ']
}

/// The name to show for the holder with process id `pid`, whose app is
/// called `name` (empty when there is no app behind it — a helper process is
/// still a holder).
pub fn holder_name(pid: i32, name: String) -> (r: String)
    ensures
        name@.len() > 0 ==> r@ == name@,
        name@.len() == 0 ==> r@ == process_word() + signed_decimal(pid as int),
        name@.len() == 0 ==> r@.take(8) == process_word() && signed_value(r@.skip(8)) == pid as int,
{
    if name.as_str().unicode_len() > 0 {
        return name;
    }
    let word = "process ";
    proof {
        reveal_strlit("process ");
        assert(word@ =~= process_word());
    }
    let mut r = String::from_str(word);
    let digits = signed_decimal_text(pid);
    r.append(digits.as_str());
    proof {
        law_signed_decimal_reads_back(pid as int);
        assert(r@.take(8) =~= process_word());
        assert(r@.skip(8) =~= signed_decimal(pid as int));
    }
    r
}

/// The holder last reported, so that only a change reaches the tray and the
/// log: when ⌥V "stops working" the log says who took it and when.
pub struct HolderWatch {
    pub last: Option<String>,
}

impl HolderWatch {
    /// Nobody reported yet.
    pub fn new() -> (w: HolderWatch)
        ensures
            w.last is None,
    {
        HolderWatch { last: None }
    }

    /// Takes the holder as looked up now (`None` while nobody holds secure
    /// input) and says whether it changed since the last look — a change is
    /// what the tray is told.
    pub fn observe(&mut self, now: Option<String>) -> (changed: bool)
        ensures
            changed == (text_of(now) != text_of(old(self).last)),
            text_of(final(self).last) == text_of(now),
    {
        let changed = match (&now, &self.last) {
            (Some(a), Some(b)) => !(*a == *b),
            (None, None) => false,
            _ => true,
        };
        self.last = now;
        changed
    }
}

} // verus!
