//! Which app a clip came from.
//!
//! Read at the moment the clipboard changes, not when the popup opens — by
//! then the frontmost app is this one. The name is the card header, the
//! bundle id is the filter key, and the icon is cached per bundle id because
//! rasterising an app icon on every copy is pure waste. Asking the system
//! which app is in front, and for its icon, is the caller's; the icon's
//! encoding and the cache are here.

use vstd::hash_map::StringHashMap;
use vstd::prelude::*;
use vstd::string::*;

verus! {

/// Longest side of a cached app icon. The card header draws it at 16 px.
pub const ICON_SIDE: u32 = 64;

/// An app a clip came from: its name, its bundle id (the filter key; empty
/// when unknown) and its icon as a PNG data URL (empty when there is none).
#[derive(Debug)]
pub struct SourceApp {
    pub name: String,
    pub bundle: String,
    pub icon: String,
}

impl Default for SourceApp {
    /// No app: every field empty.
    fn default() -> (app: SourceApp)
        ensures
            app.name@.len() == 0,
            app.bundle@.len() == 0,
            app.icon@.len() == 0,
    {
        SourceApp { name: String::new(), bundle: String::new(), icon: String::new() }
    }
}

/// The character that stands for the six-bit value `v` in the standard
/// base64 alphabet.
pub open spec fn base64_digit(v: int) -> char {
    if v < 26 {
        (('A' as u32) + v) as char
    } else if v < 52 {
        (('a' as u32) + (v - 26)) as char
    } else if v < 62 {
        (('0' as u32) + (v - 52)) as char
    } else if v == 62 {
        '+'
    } else {
        '/'
    }
}

/// The standard base64 encoding of `b`, padded with `=`, as RFC 4648 §4
/// defines it: each three bytes become four characters.
pub open spec fn base64_of(b: Seq<u8>) -> Seq<char>
    decreases b.len(),
{
    if b.len() == 0 {
        seq![]
    } else {
        let x = b[0] as int;
        if b.len() == 1 {
            seq![base64_digit(x / 4), base64_digit((x % 4) * 16), '=', '=']
        } else {
            let y = b[1] as int;
            if b.len() == 2 {
                seq![
                    base64_digit(x / 4),
                    base64_digit((x % 4) * 16 + y / 16),
                    base64_digit((y % 16) * 4),
                    '=',
                ]
            } else {
                let z = b[2] as int;
                seq![
                    base64_digit(x / 4),
                    base64_digit((x % 4) * 16 + y / 16),
                    base64_digit((y % 16) * 4 + z / 64),
                    base64_digit(z % 64),
                ] + base64_of(b.skip(3))
            }
        }
    }
}

/// Calls `base64::Engine::encode` on the `STANDARD` engine. Trusted to
/// produce the padded standard encoding, as the crate documents. The crate
/// panics only when the encoded length overflows `usize`, which no slice of
/// at most `isize::MAX` bytes reaches.
#[verifier::external_body]
fn base64_encode(bytes: &[u8]) -> (r: String)
    requires
        bytes@.len() <= isize::MAX,
    ensures
        r@ == base64_of(bytes@),
{
    base64::Engine::encode(&base64::engine::general_purpose::STANDARD, bytes)
}

/// The PNG that the `image` crate makes of the picture `png` scaled down to
/// fit within `width` by `height`, or `None` where it cannot decode or
/// encode it.
pub uninterp spec fn thumbnail_of(png: Seq<u8>, width: u32, height: u32) -> Option<Seq<u8>>;

/// Calls `image::load_from_memory`, `DynamicImage::thumbnail` and
/// `DynamicImage::write_to` with the PNG format: a picture in, a scaled-down
/// PNG out. Trusted to give the bytes named by `thumbnail_of`, and — as any
/// `Vec` — no more than `isize::MAX` of them.
#[verifier::external_body]
fn thumbnail_png(png: &[u8], width: u32, height: u32) -> (r: Option<Vec<u8>>)
    ensures
        r matches Some(t) ==> thumbnail_of(png@, width, height) == Some(t@) && t@.len() <= isize::MAX,
        r is None ==> thumbnail_of(png@, width, height) is None,
{
    let img = image::load_from_memory(png).ok()?;
    let small = img.thumbnail(width, height);
    let mut buf = std::io::Cursor::new(Vec::new());
    small.write_to(&mut buf, image::ImageFormat::Png).ok()?;
    Some(buf.into_inner())
}

/// The start of a PNG data URL.
pub open spec fn data_url_prefix() -> Seq<char> {
    "data:image/png;base64,"@
}

/// The icon text for the rasterised app icon `png`: a PNG data URL of its
/// thumbnail, or empty when there is no icon or it cannot be decoded.
pub open spec fn icon_text(png: Option<Seq<u8>>) -> Seq<char> {
    match png {
        Some(p) => match thumbnail_of(p, ICON_SIDE, ICON_SIDE) {
            Some(t) => data_url_prefix() + base64_of(t),
            None => Seq::empty(),
        },
        None => Seq::empty(),
    }
}

/// The icon of an app, rasterised to `png` by the system, as a downscaled
/// PNG data URL — empty when the picture cannot be decoded.
pub fn icon_data_url(png: &[u8]) -> (url: String)
    ensures
        url@ == icon_text(Some(png@)),
{
    match thumbnail_png(png, ICON_SIDE, ICON_SIDE) {
        Some(small) => {
            let prefix = "data:image/png;base64,";
            let mut url = String::from_str(prefix);
            let encoded = base64_encode(small.as_slice());
            url.append(encoded.as_str());
            url
        },
        None => String::new(),
    }
}

/// App icons already encoded, by bundle id.
pub struct IconCache {
    icons: StringHashMap<String>,
}

impl View for IconCache {
    type V = Map<Seq<char>, String>;

    closed spec fn view(&self) -> Map<Seq<char>, String> {
        self.icons@
    }
}

impl IconCache {
    /// No icon cached yet.
    pub fn new() -> (c: IconCache)
        ensures
            c@ == Map::<Seq<char>, String>::empty(),
    {
        IconCache { icons: StringHashMap::new() }
    }
}

/// The app in front, `raw` as the system reported it, with its icon: from
/// the cache when the bundle id is in it, else rasterised by `rasterise`
/// (handed the bundle id; `None` when the system has no icon for it),
/// encoded, and cached — an empty icon too, so a failure is not retried on
/// every copy. An app with no bundle id is handed back as it is.
pub fn frontmost<F>(raw: SourceApp, cache: &mut IconCache, rasterise: F) -> (app: SourceApp)
    where
        F: Fn(&str) -> Option<Vec<u8>>,
    requires
        forall|b: &str| rasterise.requires((b,)),
    ensures
        app.name@ == raw.name@,
        app.bundle@ == raw.bundle@,
        raw.bundle@.len() == 0 ==> app.icon@ == raw.icon@ && final(cache)@ == old(cache)@,
        raw.bundle@.len() > 0 && old(cache)@.contains_key(raw.bundle@) ==> {
            &&& app.icon@ == old(cache)@[raw.bundle@]@
            &&& final(cache)@ == old(cache)@
        },
        raw.bundle@.len() > 0 && !old(cache)@.contains_key(raw.bundle@) ==> {
            &&& final(cache)@ == old(cache)@.insert(raw.bundle@, app.icon)
            &&& exists|b: &str, png: Option<Vec<u8>>|
                {
                    &&& b@ == raw.bundle@
                    &&& rasterise.ensures((b,), png)
                    &&& app.icon@ == icon_text(
                        match png {
                            Some(p) => Some(p@),
                            None => None,
                        },
                    )
                }
        },
        raw.bundle@.len() > 0 ==> final(cache)@.contains_key(raw.bundle@) && final(cache)@[raw.bundle@]@
            == app.icon@,
{
    let mut app = raw;
    if app.bundle.as_str().unicode_len() == 0 {
        return app;
    }
    match cache.icons.get(app.bundle.as_str()) {
        Some(cached) => {
            app.icon = cached.clone();
            return app;
        },
        None => {},
    }
    let png = rasterise(app.bundle.as_str());
    let icon = match &png {
        Some(p) => icon_data_url(p.as_slice()),
        None => String::new(),
    };
    cache.icons.insert(app.bundle.clone(), icon.clone());
    app.icon = icon;
    app
}

/// The name on a screenshot card. Screenshots have no source app — they come
/// from the system, and grouping them under whatever window happened to be in
/// front would put them in the wrong filter bucket.
pub fn screenshot_source() -> (app: SourceApp)
    ensures
        app.name@ == "Screenshot"@,
        app.bundle@ == "system.screenshot"@,
        app.icon@.len() == 0,
{
    SourceApp {
        name: String::from_str("Screenshot"),
        bundle: String::from_str("system.screenshot"),
        icon: String::new(),
    }
}

/// The name on a picture that came back from the editor. Synthetic for the
/// same reason: the editor that happened to be in front when the file landed
/// is a guess. A bucket of its own also lets the app row filter down to just
/// the edits.
pub fn edited_source() -> (app: SourceApp)
    ensures
        app.name@ == "Edited"@,
        app.bundle@ == "system.edited"@,
        app.icon@.len() == 0,
{
    SourceApp {
        name: String::from_str("Edited"),
        bundle: String::from_str("system.edited"),
        icon: String::new(),
    }
}

/// Law: screenshots and edits each have a filter bucket of their own — their
/// bundle ids differ from each other, and are never empty, so they are never
/// mistaken for an app with no bundle id.
pub proof fn law_synthetic_buckets_apart()
    ensures
        "system.screenshot"@ != "system.edited"@,
        "system.screenshot"@.len() > 0,
        "system.edited"@.len() > 0,
{
    reveal_strlit("system.screenshot");
    reveal_strlit("system.edited");
    assert("system.screenshot"@[7] != "system.edited"@[7]);
}

} // verus!
