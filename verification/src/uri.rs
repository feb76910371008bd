//! URLs, as the `url` crate parses, resolves and rewrites them.
//!
//! A `Url` is opaque here. What is said of one is said of its serialization. That rests on
//! one property of a URL: that it is what its serialization parses to. The property holds
//! of the URLs that `Url::parse` and `Url::join` return, and `Url::set_query` keeps it.
//! `Url::set_path` does not keep it for every path, so only one use of it is admitted here,
//! which keeps it: to add a slash to a path that does not end in one. Every URL in this
//! library comes from these calls.

use url::ParseError;
use url::Url;
use crate::text::ends_in;
use crate::text::ends_with;
use vstd::prelude::*;
use vstd::string::StringExecFns;
use vstd::utf8::encode_utf8;

verus! {

/// Declares `url::Url`, a parsed URL, as a type whose fields are not looked into.
#[verifier::external_type_specification]
#[verifier::external_body]
pub struct ExUrl(Url);

/// Declares `url::ParseError`, the reason why a text is no URL, as a type whose variants are
/// not looked into.
#[verifier::external_type_specification]
#[verifier::external_body]
pub struct ExParseError(ParseError);

/// What a `Url` holds: its serialization, the text that `Url::as_str` returns.
pub uninterp spec fn url_text(url: Url) -> Seq<char>;

/// The serialization of the URL that `Url::parse` reads from `input`; `None` where it
/// reads none.
pub uninterp spec fn parsed(input: Seq<char>) -> Option<Seq<char>>;

/// The serialization of the URL that `Url::join` resolves `reference` to against the URL
/// serialized as `base`; `None` where it resolves to none.
pub uninterp spec fn joined(base: Seq<char>, reference: Seq<char>) -> Option<Seq<char>>;

/// The serialization that `Url::set_query` leaves when it gives the URL serialized as `url`
/// the query `query`.
pub uninterp spec fn with_query(url: Seq<char>, query: Seq<char>) -> Seq<char>;

/// The path of the URL serialized as `url`: the text that `Url::path` returns.
pub uninterp spec fn path_of(url: Seq<char>) -> Seq<char>;

/// The serialization that `Url::set_path` leaves when it gives the URL serialized as `url`
/// the path `path`.
pub uninterp spec fn with_path(url: Seq<char>, path: Seq<char>) -> Seq<char>;

/// The longest serialization, in bytes, whose positions the `url` crate can hold.
pub open spec fn max_url_bytes() -> int {
    0xffff_ffff
}

/// Whether the URL serialized as `url` has room for `query`, however the query is escaped:
/// a question mark, and up to three bytes for each byte of the query.
pub open spec fn has_room(url: Seq<char>, query: Seq<char>) -> bool {
    encode_utf8(url).len() + 1 + 3 * encode_utf8(query).len() <= max_url_bytes()
}

/// Whether the URL serialized as `url` has room for `path` in place of its own path,
/// however the path is escaped: up to three bytes for each byte of the path, and four for
/// the slashes that the crate may add.
pub open spec fn has_room_for_path(url: Seq<char>, path: Seq<char>) -> bool {
    encode_utf8(url).len() + 4 + 3 * encode_utf8(path).len() <= max_url_bytes()
}

/// The URL serialized as `url`, with its path closed by a slash, so that what is resolved
/// against it stands below its whole path: the URL itself where its path ends in a slash,
/// else the URL with a slash added to its path; `None` where there is no room for that.
pub open spec fn as_directory(url: Seq<char>) -> Option<Seq<char>> {
    if ends_in(path_of(url), '/') {
        Some(url)
    } else if has_room_for_path(url, path_of(url).push('/')) {
        Some(with_path(url, path_of(url).push('/')))
    } else {
        None
    }
}

/// Whether a URL of `url_bytes` bytes has room for a path of `path_bytes` bytes.
pub fn room_for_path(url_bytes: usize, path_bytes: usize) -> (r: bool)
    ensures
        r == (url_bytes + 4 + 3 * path_bytes <= max_url_bytes()),
{
    if url_bytes > 0xffff_ffff || path_bytes > 0x5555_5555 {
        false
    } else {
        url_bytes as u64 + 4 + 3 * (path_bytes as u64) <= 0xffff_ffff
    }
}

/// Closes the path of `url` by a slash, unless it ends in one. The URL must be one that
/// `Url::parse` or `Url::join` returned, or one that this function or `Url::set_query`
/// made of such a URL: of no other URL is it known that it is what its text parses to.
pub(crate) fn directory(url: &Url) -> (r: Option<Url>)
    ensures
        match as_directory(url_text(*url)) {
            Some(text) => r matches Some(closed) && url_text(closed) == text,
            None => r is None,
        },
{
    let path = url.path();
    if ends_with(path, '/') {
        return Some(url.clone());
    }
    let mut longer = String::from_str(path);
    longer.push('/');
    if !room_for_path(url.as_str().as_bytes().len(), longer.as_str().as_bytes().len()) {
        return None;
    }
    let mut closed = url.clone();
    closed.set_path(longer.as_str());
    Some(closed)
}

/// Whether a URL of `url_bytes` bytes has room for a query of `query_bytes` bytes.
pub fn room_for(url_bytes: usize, query_bytes: usize) -> (r: bool)
    ensures
        r == (url_bytes + 1 + 3 * query_bytes <= max_url_bytes()),
{
    if url_bytes > 0xffff_ffff || query_bytes > 0x5555_5555 {
        false
    } else {
        url_bytes as u64 + 1 + 3 * (query_bytes as u64) <= 0xffff_ffff
    }
}

/// `Url::parse` returns a URL exactly where `parsed` names one, and then that one.
pub assume_specification[ Url::parse ](input: &str) -> (r: Result<Url, ParseError>)
    ensures
        r matches Ok(url) ==> parsed(input@) == Some(url_text(url)),
        r is Err ==> parsed(input@) is None,
;

/// `Url::join` returns a URL exactly where `joined` names one, and then that one. What it
/// returns depends on the base's serialization alone, as the base is what that parses to.
pub assume_specification[ Url::join ](base: &Url, input: &str) -> (r: Result<Url, ParseError>)
    ensures
        r matches Ok(url) ==> joined(url_text(*base), input@) == Some(url_text(url)),
        r is Err ==> joined(url_text(*base), input@) is None,
;

/// `Url::as_str` returns the serialization.
pub assume_specification[ Url::as_str ](url: &Url) -> (text: &str)
    ensures
        text@ == url_text(*url),
;

/// `Url::set_query`, given a query, leaves the URL that `with_query` names. It drops the
/// old query, writes a question mark and the new query, each byte of it as it is or as a
/// percent sign and two digits, and records where the query ends as a 32-bit number,
/// which fails on a longer serialization: the URL must have room for the query.
pub assume_specification[ Url::set_query ](url: &mut Url, query: Option<&str>)
    requires
        query is Some,
        has_room(url_text(*old(url)), query->0@),
    ensures
        url_text(*final(url)) == with_query(url_text(*old(url)), query->0@),
;

/// `Url::path` returns the path that `path_of` names: the part of the serialization from
/// where the path begins to where the query or the fragment begins. Where the path begins
/// depends on the serialization alone, as the URL is what that parses to.
pub assume_specification[ Url::path ](url: &Url) -> (text: &str)
    ensures
        text@ == path_of(url_text(*url)),
;

/// `Url::set_path`, given the URL's own path with a slash added, where that path does not
/// end in one, leaves the URL that `with_path` names. It writes the new path in place of
/// the old, each byte of it as it is or as a percent sign and two digits, after a slash
/// where the path must begin with one, and records where the path ends as a 32-bit number,
/// which fails on a longer serialization: the URL must have room for the path. No other
/// path is admitted: a path that begins with two slashes can leave a URL that is not what
/// its serialization parses to.
pub assume_specification[ Url::set_path ](url: &mut Url, path: &str)
    requires
        !ends_in(path_of(url_text(*old(url))), '/'),
        path@ == path_of(url_text(*old(url))).push('/'),
        has_room_for_path(url_text(*old(url)), path@),
    ensures
        url_text(*final(url)) == with_path(url_text(*old(url)), path@),
;

/// The derived `clone` of a `Url` copies every field, the serialization among them.
pub assume_specification[ <Url as Clone>::clone ](url: &Url) -> (copy: Url)
    ensures
        url_text(copy) == url_text(*url),
;

} // verus!
