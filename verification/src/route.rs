//! Links of the site: its pages below the path that the site is served
//! from, and the link by which the picker selects a zone.

use vstd::prelude::*;
use vstd::utf8::encode_utf8;

verus! {

/// The path below which the published site is served.
pub open spec fn site_base() -> Seq<char> {
    "/time-bank-progress"@
}

/// The route of the page at `path`: the path itself in a debug build, which
/// is served from the root, and the path below the site's base otherwise.
pub open spec fn routed(path: Seq<char>, debug_build: bool) -> Seq<char> {
    if debug_build {
        path
    } else {
        site_base() + path
    }
}

/// The route of the page at `path` for a debug build or a published one.
pub fn github_pages_route(path: &str, debug_build: bool) -> (route: String)
    ensures
        route@ == routed(path@, debug_build),
{
    if debug_build {
        path.to_owned()
    } else {
        let mut route = "/time-bank-progress".to_owned();
        route.append(path);
        route
    }
}

/// Whether form encoding leaves `byte` as it is: the ASCII letters and
/// digits and the four marks `*`, `-`, `.` and `_`.
pub open spec fn is_unreserved(byte: u8) -> bool {
    ||| 0x30 <= byte <= 0x39
    ||| 0x41 <= byte <= 0x5a
    ||| 0x61 <= byte <= 0x7a
    ||| byte == 0x2a
    ||| byte == 0x2d
    ||| byte == 0x2e
    ||| byte == 0x5f
}

/// The upper-case hexadecimal digit for `nibble`.
pub open spec fn hex_digit(nibble: int) -> char {
    if nibble < 10 {
        (0x30 + nibble) as u8 as char
    } else {
        (0x41 + nibble - 10) as u8 as char
    }
}

/// One byte in `application/x-www-form-urlencoded` form: itself where it is
/// unreserved, `+` for a space, otherwise `%` and its two hexadecimal digits.
pub open spec fn encoded_byte(byte: u8) -> Seq<char> {
    if is_unreserved(byte) {
        seq![byte as char]
    } else if byte == 0x20 {
        seq!['+']
    } else {
        seq!['%', hex_digit(byte as int / 16), hex_digit(byte as int % 16)]
    }
}

/// A byte string in `application/x-www-form-urlencoded` form, byte by byte.
pub open spec fn form_urlencoded(bytes: Seq<u8>) -> Seq<char>
    decreases bytes.len(),
{
    if bytes.len() == 0 {
        Seq::empty()
    } else {
        form_urlencoded(bytes.drop_last()) + encoded_byte(bytes.last())
    }
}

/// Calls `url::form_urlencoded::byte_serialize` and joins the pieces that it
/// yields.
/// Trusted: the result is the input in form-encoded form, byte by byte, as
/// `form_urlencoded` states it.
#[verifier::external_body]
fn byte_serialize(input: &[u8]) -> (encoded: String)
    ensures
        encoded@ == form_urlencoded(input@),
{
    url::form_urlencoded::byte_serialize(input).collect()
}

/// The query that selects `zone`: the parameter `tz` with the identifier in
/// form-encoded form.
pub open spec fn zone_query(zone: Seq<char>) -> Seq<char> {
    "/?tz="@ + form_urlencoded(encode_utf8(zone))
}

/// The link by which the picker selects `zone`: the clock page with the
/// query parameter `tz` set to the identifier.
pub fn timezone_link(zone: &str, debug_build: bool) -> (link: String)
    ensures
        link@ == routed(zone_query(zone@), debug_build),
{
    let mut query = "/?tz=".to_owned();
    let encoded = byte_serialize(zone.as_bytes());
    query.append(encoded.as_str());
    github_pages_route(query.as_str(), debug_build)
}

} // verus!
