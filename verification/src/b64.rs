//! The textual binary encoding of blob content (standard base64 alphabet,
//! with padding), as provided by the `base64` crate.

use vstd::prelude::*;

verus! {

/// `base64::DecodeError`, carried as it comes.
#[verifier::external_type_specification]
#[verifier::external_body]
pub struct ExDecodeError(base64::DecodeError);

/// Longest base64 text, in bytes, that the codec accepts. No allocation
/// exceeds it, so the bound refuses nothing that can exist; it keeps the size
/// arithmetic of the encoder and decoder within what they can allocate.
pub const MAX_TEXT: usize = usize::MAX / 2;

/// Longest plain text, in bytes, whose base64 text stays within `MAX_TEXT`.
pub const MAX_PLAIN: usize = MAX_TEXT / 4 * 3 - 2;

/// The base64 text of `bytes`.
pub uninterp spec fn base64_text(bytes: Seq<u8>) -> Seq<u8>;

/// The bytes that `text` stands for, or `None` where it is not valid base64.
pub uninterp spec fn base64_bytes(text: Seq<u8>) -> Option<Seq<u8>>;

/// Whether `b` is a symbol of the standard base64 alphabet or the padding sign.
pub open spec fn is_base64_symbol(b: u8) -> bool {
    ||| 0x41 <= b <= 0x5a
    ||| 0x61 <= b <= 0x7a
    ||| 0x30 <= b <= 0x39
    ||| b == 0x2b
    ||| b == 0x2f
    ||| b == 0x3d
}

/// Whether every byte of `text` is a base64 symbol.
pub open spec fn is_base64_alphabet(text: Seq<u8>) -> bool {
    forall|i: int| 0 <= i < text.len() ==> is_base64_symbol(#[trigger] text[i])
}

/// Calls `base64::encode`. Trusted: the result is the named base64 text of
/// the input, four symbols for every started group of three bytes, made of
/// alphabet symbols only, and `base64::decode` maps it back to the input.
/// `encode` panics where it cannot allocate the text, which the precondition
/// leaves out.
#[verifier::external_body]
pub(crate) fn encode_bytes(bytes: &[u8]) -> (text: Vec<u8>)
    requires
        bytes@.len() <= MAX_PLAIN,
    ensures
        text@ == base64_text(bytes@),
        text@.len() == (bytes@.len() + 2) / 3 * 4,
        is_base64_alphabet(text@),
        base64_bytes(text@) == Some(bytes@),
{
    base64::encode(bytes).into_bytes()
}

/// Calls `base64::decode`. Trusted: it succeeds exactly where the named
/// decoding exists and then returns it, and it fails on any text that holds
/// a byte outside the alphabet. `decode` panics where the size of its buffer
/// overflows, which the precondition leaves out.
#[verifier::external_body]
pub(crate) fn decode_text(text: &[u8]) -> (r: Result<Vec<u8>, base64::DecodeError>)
    requires
        text@.len() <= MAX_TEXT,
    ensures
        match r {
            Ok(bytes) => base64_bytes(text@) == Some(bytes@),
            Err(_) => base64_bytes(text@) is None,
        },
        !is_base64_alphabet(text@) ==> r is Err,
{
    base64::decode(text)
}

/// The words in which `base64` reports `error`.
pub uninterp spec fn decode_error_text(error: base64::DecodeError) -> Seq<char>;

/// Calls `to_string` on a `base64::DecodeError`. Trusted: the result is the
/// named text.
#[verifier::external_body]
pub(crate) fn describe(error: &base64::DecodeError) -> (text: String)
    ensures
        text@ == decode_error_text(*error),
{
    error.to_string()
}

} // verus!
