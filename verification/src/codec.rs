//! The content codec: between a sequence of records and the wrapped base64
//! text in which a blob carries it.
//!
//! Content read from the backend arrives as the JSON rendering of a string:
//! it may hold escaped newlines (a backslash and an `n`) anywhere, and it
//! stands between two delimiters. Decoding removes the escaped newlines,
//! drops one byte at each end, reads the rest as base64 and the result as a
//! JSON array. Encoding writes the JSON array and its base64 text; it adds no
//! delimiters.

use serde_json::Value;
use vstd::prelude::*;

use crate::b64::{
    base64_bytes, base64_text, decode_text, encode_bytes, is_base64_alphabet, MAX_PLAIN, MAX_TEXT,
};
use crate::error::{ClientError, ErrorKind};
use crate::json::{json_records, json_rendering, json_text, parse_records, render, write_records};

verus! {

pub const BACKSLASH: u8 = 0x5c;

pub const LETTER_N: u8 = 0x6e;

pub const QUOTE: u8 = 0x22;

/// `text` without its escaped newlines, found from left to right.
pub open spec fn without_escaped_newlines(text: Seq<u8>) -> Seq<u8>
    decreases text.len(),
{
    if text.len() == 0 {
        text
    } else if text.len() >= 2 && text[0] == BACKSLASH && text[1] == LETTER_N {
        without_escaped_newlines(text.skip(2))
    } else {
        seq![text[0]] + without_escaped_newlines(text.skip(1))
    }
}

/// `text` without its first and its last byte; empty where it has fewer than
/// two.
pub open spec fn without_ends(text: Seq<u8>) -> Seq<u8> {
    if text.len() >= 2 {
        text.subrange(1, text.len() - 1)
    } else {
        Seq::empty()
    }
}

/// The base64 text inside the wrapped content `raw`.
pub open spec fn unwrapped(raw: Seq<u8>) -> Seq<u8> {
    without_ends(without_escaped_newlines(raw))
}

/// `content` between two quotes, as the backend's envelope hands it out.
pub open spec fn wrapped(content: Seq<u8>) -> Seq<u8> {
    seq![QUOTE] + content + seq![QUOTE]
}

/// The content that stands for `records`, or why there is none.
pub open spec fn encoded(records: Seq<Value>) -> Result<Seq<u8>, ErrorKind> {
    match json_text(records) {
        None => Err(ErrorKind::Json),
        Some(text) => if text.len() > MAX_PLAIN {
            Err(ErrorKind::TooLarge)
        } else {
            Ok(base64_text(text))
        },
    }
}

/// The records that the wrapped content `raw` stands for, or why there are
/// none.
pub open spec fn decoded(raw: Seq<u8>) -> Result<Seq<Value>, ErrorKind> {
    let text = unwrapped(raw);
    if text.len() > MAX_TEXT {
        Err(ErrorKind::TooLarge)
    } else {
        match base64_bytes(text) {
            None => Err(ErrorKind::BadEncoding),
            Some(bytes) => match json_records(bytes) {
                None => Err(ErrorKind::Json),
                Some(records) => Ok(records),
            },
        }
    }
}

/// Whether writing `records` as JSON and reading that JSON gives `records`
/// again.
pub open spec fn survives_json(records: Seq<Value>) -> bool {
    match json_text(records) {
        None => false,
        Some(text) => json_records(text) == Some(records),
    }
}

/// A text without a backslash holds no escaped newline.
pub proof fn lemma_plain_text_keeps(text: Seq<u8>)
    requires
        forall|i: int| 0 <= i < text.len() ==> text[i] != BACKSLASH,
    ensures
        without_escaped_newlines(text) == text,
    decreases text.len(),
{
    if text.len() > 0 {
        lemma_plain_text_keeps(text.skip(1));
    }
}

/// Unwrapping undoes wrapping for every content made of base64 symbols.
pub proof fn lemma_unwrap_wrapped(content: Seq<u8>)
    requires
        is_base64_alphabet(content),
    ensures
        unwrapped(wrapped(content)) == content,
{
    lemma_plain_text_keeps(wrapped(content));
}

/// Removes every escaped newline from `text`.
pub fn strip_escaped_newlines(text: &[u8]) -> (out: Vec<u8>)
    ensures
        out@ == without_escaped_newlines(text@),
{
    let mut out: Vec<u8> = Vec::new();
    let mut i: usize = 0;
    assert(text@.skip(0) =~= text@);
    while i < text.len()
        invariant
            i <= text.len(),
            out@ + without_escaped_newlines(text@.skip(i as int)) == without_escaped_newlines(
                text@,
            ),
        decreases text.len() - i,
    {
        let ghost rest = text@.skip(i as int);
        if text[i] == BACKSLASH && i + 1 < text.len() && text[i + 1] == LETTER_N {
            assert(rest.skip(2) =~= text@.skip(i + 2));
            i += 2;
        } else {
            let ghost before = out@;
            out.push(text[i]);
            assert(rest.skip(1) =~= text@.skip(i + 1));
            assert(out@ + without_escaped_newlines(rest.skip(1)) =~= before
                + without_escaped_newlines(rest));
            i += 1;
        }
    }
    out
}

/// Drops the first and the last byte of `text`.
pub fn strip_ends(text: &[u8]) -> (out: Vec<u8>)
    ensures
        out@ == without_ends(text@),
{
    let mut out: Vec<u8> = Vec::new();
    if text.len() >= 2 {
        let mut i: usize = 1;
        while i < text.len() - 1
            invariant
                2 <= text.len(),
                1 <= i <= text.len() - 1,
                out@ == text@.subrange(1, i as int),
            decreases text.len() - i,
        {
            out.push(text[i]);
            i += 1;
        }
    }
    out
}

/// Puts `content` between two quotes.
pub fn wrap(content: &[u8]) -> (out: Vec<u8>)
    ensures
        out@ == wrapped(content@),
{
    let mut out: Vec<u8> = Vec::new();
    out.push(QUOTE);
    let mut i: usize = 0;
    while i < content.len()
        invariant
            i <= content.len(),
            out@ == seq![QUOTE] + content@.take(i as int),
        decreases content.len() - i,
    {
        out.push(content[i]);
        i += 1;
    }
    out.push(QUOTE);
    out
}

/// Encodes `records` as blob content: their JSON array in base64.
///
/// Fails with `Json` where the records cannot be written as JSON, and with
/// `TooLarge` where the JSON is longer than `MAX_PLAIN`. Decoding the
/// wrapped result gives the records back, provided they survive JSON.
pub fn encode(records: &Vec<Value>) -> (r: Result<Vec<u8>, ClientError>)
    ensures
        match r {
            Ok(content) => encoded(records@) == Ok::<Seq<u8>, ErrorKind>(content@),
            Err(e) => encoded(records@) == Err::<Seq<u8>, ErrorKind>(e.kind()),
        },
        r is Ok && survives_json(records@) ==> decoded(wrapped(r->Ok_0@)) == Ok::<
            Seq<Value>,
            ErrorKind,
        >(records@),
{
    match write_records(records) {
        Err(e) => Err(ClientError::Json(e)),
        Ok(text) => {
            if text.len() > MAX_PLAIN {
                Err(ClientError::TooLarge)
            } else {
                let content = encode_bytes(text.as_slice());
                proof {
                    lemma_unwrap_wrapped(content@);
                }
                Ok(content)
            }
        },
    }
}

/// Decodes the wrapped content `raw` into records.
///
/// Fails with `BadEncoding` where what is left after unwrapping is no valid
/// base64, as it is whenever a byte of it lies outside the alphabet; with
/// `Json` where the decoded bytes are no JSON array; with `TooLarge` where
/// the unwrapped text is longer than `MAX_TEXT`.
pub fn decode(raw: &[u8]) -> (r: Result<Vec<Value>, ClientError>)
    ensures
        match r {
            Ok(records) => decoded(raw@) == Ok::<Seq<Value>, ErrorKind>(records@),
            Err(e) => decoded(raw@) == Err::<Seq<Value>, ErrorKind>(e.kind()),
        },
        unwrapped(raw@).len() <= MAX_TEXT && !is_base64_alphabet(unwrapped(raw@)) ==> r is Err
            && r->Err_0.kind() == ErrorKind::BadEncoding,
{
    let joined = strip_escaped_newlines(raw);
    let text = strip_ends(joined.as_slice());
    if text.len() > MAX_TEXT {
        return Err(ClientError::TooLarge);
    }
    match decode_text(text.as_slice()) {
        Err(e) => Err(ClientError::BadEncoding(e)),
        Ok(bytes) => match parse_records(bytes.as_slice()) {
            Err(e) => Err(ClientError::Json(e)),
            Ok(records) => Ok(records),
        },
    }
}

/// Decodes the content that the JSON value `value` carries: the records that
/// its rendering stands for.
pub fn decode_serde_base64(value: &Value) -> (r: Result<Vec<Value>, ClientError>)
    ensures
        match r {
            Ok(records) => decoded(json_rendering(*value)) == Ok::<Seq<Value>, ErrorKind>(
                records@,
            ),
            Err(e) => decoded(json_rendering(*value)) == Err::<Seq<Value>, ErrorKind>(e.kind()),
        },
{
    let raw = render(value);
    decode(raw.as_slice())
}

} // verus!
