//! What a request's `Content-Type` header declares.
//!
//! A header value is text only when every byte of it is visible ASCII or a
//! tab; anything else counts as no declaration at all. The text is parsed as a
//! media type by the `mime` crate, which reports its type, subtype and
//! `+suffix` in lower case.
use vstd::prelude::*;
use vstd::string::*;

verus! {

/// A media type as type, subtype and optional `+suffix`.
pub type MediaView = (Seq<char>, Seq<char>, Option<Seq<char>>);

/// The media type that the `mime` crate parses out of a text, if it parses one.
pub uninterp spec fn mime_parse(text: Seq<char>) -> Option<MediaView>;

/// A parsed media type.
pub struct MediaType {
    pub type_: String,
    pub subtype: String,
    pub suffix: Option<String>,
}

/// The view of a parsed media type.
pub open spec fn media_view(m: MediaType) -> MediaView {
    (
        m.type_@,
        m.subtype@,
        match m.suffix {
            Some(s) => Some(s@),
            None => None,
        },
    )
}

/// The view of an optional parsed media type.
pub open spec fn opt_media_view(m: Option<MediaType>) -> Option<MediaView> {
    match m {
        Some(m) => Some(media_view(m)),
        None => None,
    }
}

/// Parses `text` with `mime::Mime`'s `FromStr`. The contract claims only that
/// the parts handed back are those of the crate's parse, named `mime_parse`,
/// and that a failed parse gives `None`.
#[verifier::external_body]
fn parse_media_type(text: &str) -> (r: Option<MediaType>)
    ensures
        opt_media_view(r) == mime_parse(text@),
{
    match text.parse::<mime::Mime>() {
        Ok(m) => Some(MediaType {
            type_: m.type_().as_str().to_string(),
            subtype: m.subtype().as_str().to_string(),
            suffix: match m.suffix() {
                Some(n) => Some(n.as_str().to_string()),
                None => None,
            },
        }),
        Err(_) => None,
    }
}

/// Appends one character. `String::push`: the string grows by exactly `c`.
#[verifier::external_body]
pub(crate) fn push_char(s: &mut String, c: char)
    ensures
        final(s)@ == old(s)@.push(c),
{
    s.push(c)
}

/// A byte that may stand in a header value read as text.
pub open spec fn visible_ascii(b: u8) -> bool {
    (32 <= b && b < 127) || b == 9
}

/// A header value read as text: its bytes as characters when each of them is
/// visible ASCII or a tab, nothing otherwise.
pub open spec fn spec_header_text(bytes: Seq<u8>) -> Option<Seq<char>> {
    if forall|i: int| 0 <= i < bytes.len() ==> visible_ascii(#[trigger] bytes[i]) {
        Some(bytes.map_values(|b: u8| b as char))
    } else {
        None
    }
}

/// A header value is text exactly when each of its bytes is a printable
/// ASCII character (space through `~`) or a tab, and the text is then those
/// bytes, character for character.
pub proof fn law_header_text_is_its_bytes(bytes: Seq<u8>)
    ensures
        spec_header_text(bytes) is Some <==> forall|i: int|
            0 <= i < bytes.len() ==> ((32 <= #[trigger] bytes[i] && bytes[i] <= 126) || bytes[i] == 9),
        spec_header_text(bytes) matches Some(t) ==> t.len() == bytes.len() && forall|i: int|
            0 <= i < bytes.len() ==> #[trigger] t[i] as u32 == bytes[i] as u32,
{
}

/// Reads a header value as text.
pub fn header_text(bytes: &[u8]) -> (r: Option<String>)
    ensures
        match r {
            Some(s) => spec_header_text(bytes@) == Some(s@),
            None => spec_header_text(bytes@) is None,
        },
{
    let mut s = String::new();
    let mut i: usize = 0;
    while i < bytes.len()
        invariant
            i <= bytes@.len(),
            s@.len() == i,
            forall|j: int| 0 <= j < i ==> visible_ascii(#[trigger] bytes@[j]),
            forall|j: int| 0 <= j < i ==> #[trigger] s@[j] == bytes@[j] as char,
        decreases bytes@.len() - i,
    {
        let b = bytes[i];
        if !((32 <= b && b < 127) || b == 9) {
            return None;
        }
        push_char(&mut s, b as char);
        i = i + 1;
    }
    assert(s@ =~= bytes@.map_values(|b: u8| b as char));
    Some(s)
}

/// Whether two texts are equal.
pub fn same_text(a: &str, b: &str) -> (r: bool)
    ensures
        r == (a@ == b@),
{
    let n = a.unicode_len();
    if n != b.unicode_len() {
        return false;
    }
    let mut i: usize = 0;
    while i < n
        invariant
            n == a@.len(),
            n == b@.len(),
            i <= n,
            forall|j: int| 0 <= j < i ==> a@[j] == b@[j],
        decreases n - i,
    {
        if a.get_char(i) != b.get_char(i) {
            return false;
        }
        i = i + 1;
    }
    assert(a@ =~= b@);
    true
}

/// The media type a `Content-Type` header declares, if there is a header whose
/// value is text and parses as one.
pub open spec fn spec_declared(content_type: Option<Seq<u8>>) -> Option<MediaView> {
    match content_type {
        None => None,
        Some(bytes) => match spec_header_text(bytes) {
            None => None,
            Some(text) => mime_parse(text),
        },
    }
}

/// A JSON media type: `application/json`, or any `application/*+json`.
pub open spec fn spec_is_json(m: MediaView) -> bool {
    m.0 == "application"@ && (m.1 == "json"@ || m.2 == Some("json"@))
}

/// The urlencoded form media type, `application/x-www-form-urlencoded`.
pub open spec fn spec_is_urlencoded(m: MediaView) -> bool {
    m.0 == "application"@ && m.1 == "x-www-form-urlencoded"@
}

/// Only `application/x-www-form-urlencoded` counts as a form: its type must be
/// `application` and its subtype `x-www-form-urlencoded`, whatever its suffix.
pub proof fn law_only_the_form_type_is_urlencoded(m: MediaView)
    ensures
        spec_is_urlencoded(m) <==> (m.0 == "application"@ && m.1 == "x-www-form-urlencoded"@),
{
}

/// Only `application/json` and `application/*+json` count as JSON.
pub proof fn law_only_json_types_are_json(m: MediaView)
    ensures
        spec_is_json(m) <==> (m.0 == "application"@ && (m.1 == "json"@ || m.2 == Some("json"@))),
{
}

/// The view of an optional header value.
pub open spec fn header_view(h: Option<&[u8]>) -> Option<Seq<u8>> {
    match h {
        Some(b) => Some(b@),
        None => None,
    }
}

/// The media type a `Content-Type` header declares.
pub fn declared_media_type(content_type: Option<&[u8]>) -> (r: Option<MediaType>)
    ensures
        opt_media_view(r) == spec_declared(header_view(content_type)),
{
    match content_type {
        None => None,
        Some(bytes) => match header_text(bytes) {
            None => None,
            Some(text) => parse_media_type(text.as_str()),
        },
    }
}

/// Whether a parsed media type is a JSON one.
pub fn is_json_media(m: &MediaType) -> (r: bool)
    ensures
        r == spec_is_json(media_view(*m)),
        r == (m.type_@ == "application"@ && (m.subtype@ == "json"@ || (m.suffix matches Some(x) && x@
            == "json"@))),
{
    same_text(m.type_.as_str(), "application") && (same_text(m.subtype.as_str(), "json")
        || match &m.suffix {
        Some(s) => same_text(s.as_str(), "json"),
        None => false,
    })
}

/// Whether a parsed media type is the urlencoded form one.
pub fn is_urlencoded_media(m: &MediaType) -> (r: bool)
    ensures
        r == spec_is_urlencoded(media_view(*m)),
        r == (m.type_@ == "application"@ && m.subtype@ == "x-www-form-urlencoded"@),
{
    same_text(m.type_.as_str(), "application") && same_text(m.subtype.as_str(), "x-www-form-urlencoded")
}

/// Whether a `Content-Type` header declares a JSON body.
pub fn declares_json(content_type: Option<&[u8]>) -> (r: bool)
    ensures
        r == (spec_declared(header_view(content_type)) matches Some(m) && spec_is_json(m)),
{
    match declared_media_type(content_type) {
        None => false,
        Some(m) => is_json_media(&m),
    }
}

/// Whether a `Content-Type` header declares a urlencoded form body.
pub fn declares_urlencoded(content_type: Option<&[u8]>) -> (r: bool)
    ensures
        r == (spec_declared(header_view(content_type)) matches Some(m) && spec_is_urlencoded(m)),
{
    match declared_media_type(content_type) {
        None => false,
        Some(m) => is_urlencoded_media(&m),
    }
}

} // verus!
