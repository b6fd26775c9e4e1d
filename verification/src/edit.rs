//! Editing a picture from the history in the Mac's own markup tools.
//!
//! The clip's own file is never the one that opens: the history owns it. A
//! copy goes out instead, into a folder of ours inside Downloads (the only
//! folder the sandboxed editor may save into unasked), and every save there
//! comes back as a *new* clip — so the original stays as the card below the
//! edited one.
//!
//! Two things would otherwise come back as clips that are not edits: the copy
//! we hand the editor, which is byte-for-byte a clip the history already
//! holds, and the burst of filesystem events one save arrives as. Both are
//! kept out by remembering the pictures already accounted for, by content.

use crate::intake::{is_png, is_png_name, spec_is_png};
use crate::paths::{file_name, file_name_of, is_plain_name, join, joined};
use crate::text::{
    decimal, decimal_text, ends_with_png, has_png_suffix, lemma_decimal_digits, lemma_decimal_injective,
    lemma_decimal_len,
    starts_with_text,
};
use std::collections::VecDeque;
use vstd::prelude::*;
use vstd::string::*;

verus! {

/// Our folder inside Downloads.
pub const EDIT_DIR: &'static str = "Iago";

/// How many recent pictures stay remembered: the copy handed out plus a run
/// of saves.
pub const KNOWN_MAX: usize = 16;

/// A copy is useless once the editor is done with it, and there is no way to
/// know when that is; so copies go by age. A day, in seconds.
pub const KEEP_SECS: u64 = 24 * 60 * 60;

/// Prefix on every copy we write. The folder is the user's, in the open, and
/// anything they drop in it is theirs.
pub open spec fn edit_prefix() -> Seq<char> {
    seq!['i', 'a', 'g', 'o', '-']
}

/// The folder name `Iago`.
pub open spec fn edit_dir_name() -> Seq<char> {
    seq!['I', 'a', 'g', 'o']
}

/// The extension `.png`.
pub open spec fn png_extension() -> Seq<char> {
    seq!['.', 'p', 'n', 'g']
}

/// The hash that the standard library's `DefaultHasher` gives `bytes`.
pub uninterp spec fn content_hash(bytes: Seq<u8>) -> u64;

/// Hashes `bytes` with `std::collections::hash_map::DefaultHasher::new()`.
/// Trusted to give the value named by `content_hash`: the standard library
/// documents every hasher made by `new` as the same hasher, so equal bytes
/// hash equal; which value comes out is not restated.
#[verifier::external_body]
fn hash(bytes: &[u8]) -> (h: u64)
    ensures
        h == content_hash(bytes@),
{
    let mut h = std::collections::hash_map::DefaultHasher::new();
    std::hash::Hash::hash(bytes, &mut h);
    std::hash::Hasher::finish(&h)
}

/// The pictures already accounted for, by the hash of their bytes, oldest
/// first. Never more than `KNOWN_MAX` of them, and none twice.
pub struct Known {
    seen: VecDeque<u64>,
}

/// The remembered hashes after `h` is remembered: a hash already there
/// changes nothing; a new one goes to the back, and the oldest fall off the
/// front while there are more than `KNOWN_MAX`.
pub open spec fn remembered(seen: Seq<u64>, h: u64) -> Seq<u64> {
    if seen.contains(h) {
        seen
    } else {
        let grown = seen.push(h);
        if grown.len() > KNOWN_MAX {
            grown.skip(grown.len() - KNOWN_MAX)
        } else {
            grown
        }
    }
}

impl View for Known {
    type V = Seq<u64>;

    closed spec fn view(&self) -> Seq<u64> {
        self.seen@
    }
}

impl Known {
    #[verifier::type_invariant]
    spec fn well_formed(self) -> bool {
        &&& self.seen@.len() <= KNOWN_MAX
        &&& self.seen@.no_duplicates()
    }

    /// Nothing remembered yet.
    pub fn new() -> (k: Known)
        ensures
            k@ == Seq::<u64>::empty(),
    {
        Known { seen: VecDeque::new() }
    }

    /// How many pictures are remembered.
    pub fn len(&self) -> (n: usize)
        ensures
            n == self@.len(),
    {
        self.seen.len()
    }
}

/// Whether `h` is among `seen`.
fn holds(seen: &VecDeque<u64>, h: u64) -> (r: bool)
    ensures
        r == seen@.contains(h),
{
    let n = seen.len();
    let mut i: usize = 0;
    while i < n
        invariant
            n == seen@.len(),
            i <= n,
            forall|j: int| 0 <= j < i ==> seen@[j] != h,
        decreases n - i,
    {
        if seen[i] == h {
            assert(seen@[i as int] == h);
            return true;
        }
        i = i + 1;
    }
    false
}

/// Remembering keeps the hashes bounded and free of repeats.
proof fn lemma_remembered_well_formed(seen: Seq<u64>, h: u64)
    requires
        seen.len() <= KNOWN_MAX,
        seen.no_duplicates(),
    ensures
        remembered(seen, h).len() <= KNOWN_MAX,
        remembered(seen, h).no_duplicates(),
        remembered(seen, h).contains(h),
{
    if !seen.contains(h) {
        let grown = seen.push(h);
        assert(grown.no_duplicates()) by {
            assert forall|i: int, j: int| 0 <= i < j < grown.len() implies grown[i] != grown[j] by {
                if j == grown.len() - 1 {
                    assert(seen.contains(seen[i]));
                }
            }
        }
        assert(grown[grown.len() - 1] == h);
        if grown.len() > KNOWN_MAX {
            let kept = grown.skip(grown.len() - KNOWN_MAX);
            assert(kept[kept.len() - 1] == h);
        }
    }
}

/// Remembers the picture `bytes`, so that it is known from now on.
pub fn remember(known: &mut Known, bytes: &[u8])
    ensures
        final(known)@ == remembered(old(known)@, content_hash(bytes@)),
        final(known)@.len() <= KNOWN_MAX,
        final(known)@.no_duplicates(),
{
    proof {
        use_type_invariant(&*known);
    }
    let h = hash(bytes);
    if holds(&known.seen, h) {
        return;
    }
    let mut seen: VecDeque<u64> = VecDeque::new();
    std::mem::swap(&mut seen, &mut known.seen);
    let ghost before = seen@;
    seen.push_back(h);
    while seen.len() > KNOWN_MAX
        invariant
            before.len() <= KNOWN_MAX,
            seen@ == before.push(h) || (before.len() == KNOWN_MAX && seen@ == before.push(h).skip(1)),
        decreases seen@.len(),
    {
        seen.pop_front();
    }
    proof {
        lemma_remembered_well_formed(before, h);
        assert(seen@ =~= remembered(before, h));
    }
    known.seen = seen;
}

/// Whether the picture `bytes` is one already accounted for.
pub fn is_known(known: &Known, bytes: &[u8]) -> (r: bool)
    ensures
        r == known@.contains(content_hash(bytes@)),
{
    holds(&known.seen, hash(bytes))
}

/// A file name this app put in the folder, rather than something the user
/// dropped there.
pub open spec fn is_our_name(name: Seq<char>) -> bool {
    &&& edit_prefix().is_prefix_of(name)
    &&& has_png_suffix(name)
}

/// A path whose file name is one of ours.
pub open spec fn spec_ours(path: Seq<char>) -> bool {
    match file_name_of(path) {
        Some(name) => is_our_name(name),
        None => false,
    }
}

/// Whether a file name is one this app writes.
pub fn is_our_file_name(name: &str) -> (r: bool)
    ensures
        r == is_our_name(name@),
{
    let prefix = "iago-";
    proof {
        reveal_strlit("iago-");
        assert(prefix@ =~= edit_prefix());
    }
    starts_with_text(name, prefix) && ends_with_png(name)
}

/// A file this app put in the folder, rather than something the user dropped
/// there — the folder is in plain sight, so both happen.
pub fn ours(path: &str) -> (r: bool)
    ensures
        r == spec_ours(path@),
{
    match file_name(path) {
        Some(name) => is_our_file_name(name.as_str()),
        None => false,
    }
}

/// The name of the copy of clip `id`: `iago-<id>.png`.
pub open spec fn copy_name(id: u64) -> Seq<char> {
    edit_prefix() + decimal(id as nat) + png_extension()
}

/// The name of a copy is a single plain file name: the copy lands inside
/// the edit folder, under that name.
proof fn lemma_copy_name_plain(id: u64)
    ensures
        is_plain_name(copy_name(id)),
{
    let name = copy_name(id);
    let digits = decimal(id as nat);
    lemma_decimal_len(id as nat);
    lemma_decimal_digits(id as nat);
    assert(name.len() == 9 + digits.len());
    assert forall|i: int| 0 <= i < name.len() implies name[i] != '/' && name[i] != '\\' && name[i] != ':' by {
        if 5 <= i < 5 + digits.len() {
            assert(name[i] == digits[i - 5]);
        }
    }
    assert(name[0] == 'i');
}

/// The file name of the copy of clip `id`. The id names the file, so editing
/// the same clip twice reuses the document the editor already has open.
pub fn copy_file_name(id: u64) -> (name: String)
    ensures
        name@ == copy_name(id),
{
    let prefix = "iago-";
    let extension = ".png";
    proof {
        reveal_strlit("iago-");
        reveal_strlit(".png");
    }
    let mut name = String::from_str(prefix);
    let digits = decimal_text(id);
    name.append(digits.as_str());
    name.append(extension);
    proof {
        assert(name@ =~= copy_name(id));
    }
    name
}

/// Calls `dirs::download_dir`. The answer depends on the user's account and
/// platform, so nothing is stated of it.
#[verifier::external_body]
fn download_dir() -> Option<String> {
    dirs::download_dir().map(|d| d.to_string_lossy().into_owned())
}

/// The edit folder inside the Downloads folder `downloads`.
pub fn dir_in(downloads: Option<String>) -> (r: Option<String>)
    ensures
        r matches Some(d) ==> downloads matches Some(dl) && d@ == joined(dl@, edit_dir_name()),
        r is None <==> downloads is None,
{
    match downloads {
        Some(dl) => {
            let name = EDIT_DIR;
            proof {
                reveal_strlit("Iago");
                assert(name@ =~= edit_dir_name());
            }
            Some(join(dl.as_str(), name))
        },
        None => None,
    }
}

/// Our folder inside Downloads; `None` when the OS will not say where
/// Downloads is — editing is off rather than quietly writing somewhere the
/// editor cannot save.
pub fn dir() -> (r: Option<String>)
    ensures
        r matches Some(d) ==> exists|dl: Seq<char>| d@ == joined(dl, edit_dir_name()),
{
    dir_in(download_dir())
}

/// Where the copy handed to the editor goes.
#[derive(Debug)]
pub struct EditCopy {
    /// The edit folder.
    pub dir: String,
    /// The copy's path inside it.
    pub path: String,
}

/// The error when the edit folder `dir` cannot be created, for the reason
/// `why`.
pub open spec fn cannot_create(dir: Seq<char>, why: Seq<char>) -> Seq<char> {
    "cannot create "@ + dir + ": "@ + why
}

/// Hands a copy of clip `id`, whose picture is `png`, to the editor: creates
/// the edit folder `dir` (what `dir()` gave) with `create_dir`, decides where
/// the copy goes, and remembers the picture before anything is written — the
/// watcher is already running, and the copy must not come back as an edit.
/// Writing the copy and launching the editor are the caller's.
pub fn open<C>(
    id: u64,
    png: &[u8],
    known: &mut Known,
    dir: Option<String>,
    create_dir: C,
) -> (r: Result<EditCopy, String>)
    where
        C: Fn(&str) -> Result<(), String>,
    requires
        forall|p: &str| create_dir.requires((p,)),
    ensures
        final(known)@.len() <= KNOWN_MAX,
        dir is None ==> final(known)@ == old(known)@
            && (r matches Err(e) && e@ == "no Downloads folder to put the picture in"@),
        dir matches Some(d) ==> exists|p: &str, made: Result<(), String>|
            {
                &&& p@ == d@
                &&& create_dir.ensures((p,), made)
                &&& made matches Err(why) ==> final(known)@ == old(known)@
                    && (r matches Err(e) && e@ == cannot_create(d@, why@))
                &&& made is Ok ==> final(known)@ == remembered(old(known)@, content_hash(png@))
                    && (r matches Ok(c) && c.dir@ == d@ && c.path@ == joined(d@, copy_name(id))
                    && file_name_of(c.path@) == Some(copy_name(id)))
            },
{
    proof {
        use_type_invariant(&*known);
    }
    match dir {
        None => Err(String::from_str("no Downloads folder to put the picture in")),
        Some(d) => {
            let made = create_dir(d.as_str());
            match made {
                Err(why) => {
                    let mut e = String::from_str("cannot create ");
                    e.append(d.as_str());
                    e.append(": ");
                    e.append(why.as_str());
                    Err(e)
                },
                Ok(()) => {
                    let name = copy_file_name(id);
                    proof {
                        lemma_copy_name_plain(id);
                    }
                    let path = join(d.as_str(), name.as_str());
                    remember(known, png);
                    Ok(EditCopy { dir: d, path })
                },
            }
        },
    }
}

/// A file in the edit folder that may be an edit: a picture, and one of ours.
pub fn is_edit_candidate(path: &str) -> (r: bool)
    ensures
        r == (spec_is_png(path@) && spec_ours(path@)),
{
    is_png(path) && ours(path)
}

/// Decides on a picture read from the edit folder: `true` — file it — when
/// it is not one already accounted for, and from then on it is. Unlike a
/// screenshot, the same path legitimately comes back again and again: every
/// save is another version the user wants. What must not come back is the
/// version we already have.
pub fn accept_save(known: &mut Known, bytes: &[u8]) -> (r: bool)
    ensures
        r == !old(known)@.contains(content_hash(bytes@)),
        final(known)@ == remembered(old(known)@, content_hash(bytes@)),
        final(known)@.len() <= KNOWN_MAX,
{
    proof {
        use_type_invariant(&*known);
    }
    if is_known(known, bytes) {
        return false;
    }
    remember(known, bytes);
    true
}

/// Whether the sweep removes the file at `path`, written `age_secs` seconds
/// ago (`None` when its age cannot be read): only our own copies, and only
/// those older than a day. A file whose age cannot be read is left alone.
pub fn sweepable(path: &str, age_secs: Option<u64>) -> (r: bool)
    ensures
        r == (spec_ours(path@) && (age_secs matches Some(age) && age > KEEP_SECS)),
{
    if !ours(path) {
        return false;
    }
    match age_secs {
        Some(age) => age > KEEP_SECS,
        None => false,
    }
}

/// Law: every copy handed to the editor is named as one of ours, and ours
/// are pictures the edit watcher reads — a save over the copy is never
/// filtered out by its name.
pub proof fn law_copies_are_ours(id: u64)
    ensures
        is_our_name(copy_name(id)),
        is_png_name(copy_name(id)),
{
    let name = copy_name(id);
    let digits = decimal(id as nat);
    lemma_decimal_len(id as nat);
    assert(name.len() == 5 + digits.len() + 4);
    assert(name[name.len() - 4] == '.');
    assert(name[name.len() - 3] == 'p');
    assert(name[name.len() - 2] == 'n');
    assert(name[name.len() - 1] == 'g');
    assert(edit_prefix() =~= name.subrange(0, 5));
    assert(name[0] == 'i');
}

/// Law: a file name of ours is always a picture's, never the hidden temp
/// file of a capture.
pub proof fn law_ours_are_pictures(name: Seq<char>)
    requires
        is_our_name(name),
    ensures
        is_png_name(name),
{
    assert(name[0] == edit_prefix()[0]);
}

/// Law: distinct clips get distinct copies — editing one clip never opens
/// the document of another.
pub proof fn law_copy_names_distinct(a: u64, b: u64)
    requires
        copy_name(a) == copy_name(b),
    ensures
        a == b,
{
    let na = copy_name(a);
    let nb = copy_name(b);
    let da = decimal(a as nat);
    let db = decimal(b as nat);
    assert(na.len() == 9 + da.len());
    assert(nb.len() == 9 + db.len());
    assert(na.subrange(5, 5 + da.len() as int) =~= da);
    assert(nb.subrange(5, 5 + db.len() as int) =~= db);
    lemma_decimal_injective(a as nat, b as nat);
}

/// Law: the clip id alone decides which file a copy is written to inside
/// the edit folder `dir`: editing the same clip twice writes the same file
/// (the document the editor already has open), and copies of different
/// clips are different files. `open` hands back a path `joined(dir,
/// copy_name(id))` whose file name is `copy_name(id)`, which is what this
/// law takes.
pub proof fn law_copy_paths_follow_the_id(dir: Seq<char>, a: u64, b: u64)
    requires
        file_name_of(joined(dir, copy_name(a))) == Some(copy_name(a)),
        file_name_of(joined(dir, copy_name(b))) == Some(copy_name(b)),
    ensures
        (joined(dir, copy_name(a)) == joined(dir, copy_name(b))) <==> a == b,
{
    if joined(dir, copy_name(a)) == joined(dir, copy_name(b)) {
        law_copy_names_distinct(a, b);
    }
}

/// Law: a picture just remembered is known — so the copy handed to the
/// editor, remembered by `open`, is refused by `accept_save` and does not
/// come back as an edit; and a save once filed is not filed again by the
/// burst of events that follows it.
pub proof fn law_remembered_is_known(seen: Seq<u64>, h: u64)
    requires
        seen.len() <= KNOWN_MAX,
        seen.no_duplicates(),
    ensures
        remembered(seen, h).contains(h),
        remembered(seen, h).len() <= KNOWN_MAX,
        remembered(seen, h).no_duplicates(),
{
    lemma_remembered_well_formed(seen, h);
}

/// Law: remembering the same picture twice is remembering it once.
pub proof fn law_remember_idempotent(seen: Seq<u64>, h: u64)
    requires
        seen.len() <= KNOWN_MAX,
        seen.no_duplicates(),
    ensures
        remembered(remembered(seen, h), h) == remembered(seen, h),
{
    lemma_remembered_well_formed(seen, h);
}

/// The hashes after remembering each of `later` in turn.
pub open spec fn remember_all(seen: Seq<u64>, later: Seq<u64>) -> Seq<u64>
    decreases later.len(),
{
    if later.len() == 0 {
        seen
    } else {
        remember_all(remembered(seen, later[0]), later.drop_first())
    }
}

/// One more picture remembered moves a remembered one at most one place
/// further from the newest end.
proof fn lemma_step_keeps(seen: Seq<u64>, h: u64, i: int, x: u64, d: int) -> (j: int)
    requires
        seen.len() <= KNOWN_MAX,
        seen.no_duplicates(),
        0 <= i < seen.len(),
        seen[i] == h,
        seen.len() - 1 - i <= d,
        d + 2 <= KNOWN_MAX,
    ensures
        0 <= j < remembered(seen, x).len(),
        remembered(seen, x)[j] == h,
        remembered(seen, x).len() - 1 - j <= d + 1,
{
    if seen.contains(x) {
        i
    } else {
        let grown = seen.push(x);
        assert(grown[i] == h);
        if grown.len() > KNOWN_MAX {
            let kept = grown.skip(grown.len() - KNOWN_MAX);
            assert(grown.len() - KNOWN_MAX == 1);
            assert(kept[i - 1] == grown[i]);
            i - 1
        } else {
            i
        }
    }
}

proof fn lemma_run_keeps(seen: Seq<u64>, h: u64, i: int, later: Seq<u64>, d: int)
    requires
        seen.len() <= KNOWN_MAX,
        seen.no_duplicates(),
        0 <= i < seen.len(),
        seen[i] == h,
        seen.len() - 1 - i <= d,
        d + later.len() < KNOWN_MAX,
    ensures
        remember_all(seen, later).contains(h),
    decreases later.len(),
{
    if later.len() == 0 {
        assert(seen[i] == h);
    } else {
        let next = remembered(seen, later[0]);
        lemma_remembered_well_formed(seen, later[0]);
        let j = lemma_step_keeps(seen, h, i, later[0], d);
        lemma_run_keeps(next, h, j, later.drop_first(), d + 1);
    }
}

/// Law: the list is bounded, but what is recent stays: a picture newly
/// remembered is still known after fewer than `KNOWN_MAX` further pictures
/// are remembered, whatever they are. (A picture remembered again while still
/// known keeps its old place, so this is stated of a new one.)
pub proof fn law_recent_pictures_stay(seen: Seq<u64>, h: u64, later: Seq<u64>)
    requires
        seen.len() <= KNOWN_MAX,
        seen.no_duplicates(),
        !seen.contains(h),
        later.len() < KNOWN_MAX,
    ensures
        remember_all(remembered(seen, h), later).contains(h),
{
    lemma_remembered_well_formed(seen, h);
    let after = remembered(seen, h);
    let i = choose|i: int| 0 <= i < after.len() && after[i] == h;
    assert(after.no_duplicates());
    assert(after.last() == h);
    assert(i == after.len() - 1);
    lemma_run_keeps(after, h, i, later, after.len() - 1 - i);
}

/// Law: the list does not grow for as long as the app runs — when it is
/// full, a new picture pushes out the oldest one.
pub proof fn law_oldest_is_forgotten(seen: Seq<u64>, h: u64)
    requires
        seen.len() == KNOWN_MAX,
        seen.no_duplicates(),
        !seen.contains(h),
    ensures
        remembered(seen, h).len() == KNOWN_MAX,
        !remembered(seen, h).contains(seen[0]),
{
    let after = remembered(seen, h);
    assert(after =~= seen.skip(1).push(h));
    if after.contains(seen[0]) {
        let k = choose|k: int| 0 <= k < after.len() && after[k] == seen[0];
        if k < after.len() - 1 {
            assert(after[k] == seen[k + 1]);
        } else {
            assert(seen.contains(h));
        }
    }
}

} // verus!
