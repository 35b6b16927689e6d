//! Addresses of blobs, parsed and rewritten by the `url` crate.

use url::{ParseError, Url};
use vstd::prelude::*;
use vstd::utf8::encode_utf8;

verus! {

/// `url::Url`, carried as it comes.
#[verifier::external_type_specification]
#[verifier::external_body]
pub struct ExUrl(url::Url);

/// `url::ParseError`, carried as it comes.
#[verifier::external_type_specification]
#[verifier::external_body]
pub struct ExParseError(url::ParseError);

/// Longest part of an address, in bytes, that the library accepts: the host
/// address as written out, the owner, the repository, the path prefix and a
/// path. It keeps every address far below the 4 GB that `url` supports.
pub const MAX_PART: usize = 0x0100_0000;

/// The absolute URL that `text` spells, or `None` where it spells none.
pub uninterp spec fn parsed_url(text: Seq<char>) -> Option<Url>;

/// `base` with its path replaced by `path`.
pub uninterp spec fn url_with_path(base: Url, path: Seq<char>) -> Url;

/// The length in bytes of `url` written out.
pub uninterp spec fn url_length(url: Url) -> nat;

/// Calls `Url::parse`. Trusted: it succeeds exactly where the named URL
/// exists and then returns it.
#[verifier::external_body]
pub(crate) fn parse(text: &str) -> (r: Result<Url, ParseError>)
    ensures
        match r {
            Ok(url) => parsed_url(text@) == Some(url),
            Err(_) => parsed_url(text@) is None,
        },
{
    Url::parse(text)
}

/// `Url::clone` returns an equal URL.
pub assume_specification[ <Url as Clone>::clone ](url: &Url) -> (copy: Url)
    ensures
        copy == *url,
;

/// Calls `Url::as_str` and takes the length. Trusted: the result is the named
/// length.
#[verifier::external_body]
pub(crate) fn length(url: &Url) -> (n: usize)
    ensures
        n == url_length(*url),
{
    url.as_str().len()
}

/// Calls `Url::set_path` on a copy of `base`. Trusted: the result is the
/// named URL. `set_path` panics where the rewritten address passes 4 GB; it
/// writes at most twelve bytes for each character of `path` after what
/// `base` holds, which the precondition keeps below that.
#[verifier::external_body]
pub(crate) fn with_path(base: &Url, path: &str) -> (url: Url)
    requires
        url_length(*base) <= MAX_PART,
        path@.len() <= 8 * MAX_PART,
    ensures
        url == url_with_path(*base, path@),
{
    let mut url = base.clone();
    url.set_path(path);
    url
}

/// A text has at least one byte and at most four for each character.
pub proof fn lemma_text_size(chars: Seq<char>)
    ensures
        chars.len() <= encode_utf8(chars).len() <= 4 * chars.len(),
    decreases chars.len(),
{
    if chars.len() > 0 {
        lemma_text_size(chars.drop_first());
    }
}

/// The words in which `url` reports `error`.
pub uninterp spec fn parse_error_text(error: ParseError) -> Seq<char>;

/// Calls `to_string` on a `url::ParseError`. Trusted: the result is the
/// named text.
#[verifier::external_body]
pub(crate) fn describe(error: &ParseError) -> (text: String)
    ensures
        text@ == parse_error_text(*error),
{
    error.to_string()
}

} // verus!
