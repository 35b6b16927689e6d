//! What travels between the library and the backend: requests for the
//! transport to send, the replies it brings back, and the envelope in which
//! the backend carries a blob.
//!
//! An envelope is a JSON object. On reads it holds the wrapped content under
//! `content` and the version token under `sha`. On writes it holds a commit
//! `message`, the `content` and, unless the blob is being created, the
//! expected version token under `sha`.

use serde_json::Value;
use url::Url;
use vstd::prelude::*;
use vstd::utf8::encode_utf8;

use crate::codec::{decode_serde_base64, decoded, QUOTE};
use crate::error::{ClientError, ErrorKind};
use crate::json::{
    json_document, json_member, json_object_text, json_rendering, member, parse_document, render,
    write_object,
};

verus! {

/// The status with which the backend reports that a blob does not exist.
pub const NOT_FOUND: u16 = 404;

/// The status with which the backend reports that a blob has changed.
pub const CONFLICT: u16 = 409;

/// The status with which the backend reports that a precondition failed.
pub const PRECONDITION_FAILED: u16 = 412;

/// How a request is to be sent.
#[derive(Clone, Copy, Debug, PartialEq, Eq, Structural)]
pub enum Method {
    Get,
    Put,
}

/// A request for the transport to send. A `Get` has an empty body.
#[derive(Debug)]
pub struct Request {
    pub method: Method,
    pub url: Url,
    pub body: Vec<u8>,
}

/// What the transport brought back for a request.
#[derive(Debug)]
pub enum Reply {
    /// The backend answered.
    Received { status: u16, body: Vec<u8> },
    /// The exchange did not complete.
    Failed { reason: String },
}

impl Clone for Request {
    fn clone(&self) -> (copy: Request)
        ensures
            copy.method == self.method,
            copy.url == self.url,
            copy.body@ == self.body@,
    {
        Request { method: self.method, url: self.url.clone(), body: self.body.clone() }
    }
}

impl Clone for Reply {
    fn clone(&self) -> (copy: Reply)
        ensures
            match (copy, *self) {
                (
                    Reply::Received { status: s, body: b },
                    Reply::Received { status, body },
                ) => s == status && b@ == body@,
                (Reply::Failed { reason: r }, Reply::Failed { reason }) => r@ == reason@,
                _ => false,
            },
    {
        match self {
            Reply::Received { status, body } => Reply::Received {
                status: *status,
                body: body.clone(),
            },
            Reply::Failed { reason } => Reply::Failed { reason: reason.clone() },
        }
    }
}

/// `text` without its quotes.
pub open spec fn without_quotes(text: Seq<u8>) -> Seq<u8> {
    text.filter(|b: u8| b != QUOTE)
}

/// The version token that the envelope `doc` carries.
pub open spec fn token_of(doc: Value) -> Option<Seq<u8>> {
    match json_member(doc, "sha"@) {
        None => None,
        Some(sha) => Some(without_quotes(json_rendering(sha))),
    }
}

/// The records and the version token that the envelope `doc` carries, or
/// why it carries none. The content is looked at before the token.
pub open spec fn envelope(doc: Value) -> Result<(Seq<Value>, Seq<u8>), ErrorKind> {
    match json_member(doc, "content"@) {
        None => Err(ErrorKind::NoContent),
        Some(content) => match decoded(json_rendering(content)) {
            Err(kind) => Err(kind),
            Ok(records) => match token_of(doc) {
                None => Err(ErrorKind::NoSha),
                Some(token) => Ok((records, token)),
            },
        },
    }
}

/// The records and the version token that the envelope spelled by `body`
/// carries, or why it carries none. Both come from this one envelope.
pub open spec fn snapshot(body: Seq<u8>) -> Result<(Seq<Value>, Seq<u8>), ErrorKind> {
    match json_document(body) {
        None => Err(ErrorKind::Json),
        Some(doc) => envelope(doc),
    }
}

/// What a reply to a read brings: the blob's records and version token.
pub open spec fn fetched(reply: Reply) -> Result<(Seq<Value>, Seq<u8>), ErrorKind> {
    match reply {
        Reply::Failed { .. } => Err(ErrorKind::Http),
        Reply::Received { body, .. } => snapshot(body@),
    }
}

/// Whether `status` reports that a conditional write was refused.
pub open spec fn is_refusal(status: u16) -> bool {
    status == CONFLICT || status == PRECONDITION_FAILED
}

/// What a reply to a conditional write brings: the blob's new version token.
pub open spec fn written(reply: Reply) -> Result<Seq<u8>, ErrorKind> {
    match reply {
        Reply::Failed { .. } => Err(ErrorKind::Http),
        Reply::Received { status, body } => if is_refusal(status) {
            Err(ErrorKind::Conflict)
        } else {
            match json_document(body@) {
                None => Err(ErrorKind::Json),
                Some(doc) => match token_of(doc) {
                    None => Err(ErrorKind::NoSha),
                    Some(token) => Ok(token),
                },
            }
        },
    }
}

/// The body of a conditional write: commit message, content and expected
/// version token.
pub open spec fn write_body_text(message: Seq<char>, content: Seq<u8>, token: Seq<u8>) -> Option<
    Seq<u8>,
> {
    json_object_text("message"@, encode_utf8(message), "content"@, content, "sha"@, token)
}

/// The body of the write that creates the blob of the collection `name`.
pub open spec fn creation_body_text(name: Seq<char>, content: Seq<u8>) -> Seq<u8> {
    encode_utf8("{\"message\":\"Creating Collection '"@) + encode_utf8(name) + encode_utf8(
        "'\",\"content\":\""@,
    ) + content + encode_utf8("\"}"@)
}

/// Appends `more` to `out`.
pub fn append_bytes(out: &mut Vec<u8>, more: &[u8])
    ensures
        final(out)@ == old(out)@ + more@,
{
    let mut i: usize = 0;
    while i < more.len()
        invariant
            i <= more.len(),
            out@ == old(out)@ + more@.take(i as int),
        decreases more.len() - i,
    {
        out.push(more[i]);
        assert(old(out)@ + more@.take(i + 1) =~= (old(out)@ + more@.take(i as int)).push(
            more@[i as int],
        ));
        i += 1;
    }
}

/// Removes every quote from `text`.
pub fn strip_quotes(text: &[u8]) -> (out: Vec<u8>)
    ensures
        out@ == without_quotes(text@),
{
    let mut out: Vec<u8> = Vec::new();
    let mut i: usize = 0;
    while i < text.len()
        invariant
            i <= text.len(),
            out@ == without_quotes(text@.take(i as int)),
        decreases text.len() - i,
    {
        let ghost before = text@.take(i as int);
        let ghost after = text@.take(i + 1);
        assert(after.drop_last() =~= before);
        reveal(Seq::filter);
        if text[i] != QUOTE {
            out.push(text[i]);
        }
        i += 1;
    }
    assert(text@.take(i as int) =~= text@);
    out
}

/// Reads the version token out of the envelope `doc`.
pub fn read_token(doc: &Value) -> (token: Option<Vec<u8>>)
    ensures
        match token {
            Some(t) => token_of(*doc) == Some(t@),
            None => token_of(*doc) is None,
        },
{
    match member(doc, "sha") {
        None => None,
        Some(sha) => {
            let text = render(sha);
            Some(strip_quotes(text.as_slice()))
        },
    }
}

/// Reads the envelope `doc`: the records and the version token.
///
/// Fails with `NoContent` where the envelope has no content; with
/// `BadEncoding`, `Json` or `TooLarge` where the content does not decode;
/// and with `NoSha` where the envelope has no version token, looked for in
/// this order.
pub fn read_envelope(doc: &Value) -> (r: Result<(Vec<Value>, Vec<u8>), ClientError>)
    ensures
        match r {
            Ok((records, token)) => envelope(*doc) == Ok::<(Seq<Value>, Seq<u8>), ErrorKind>(
                (records@, token@),
            ),
            Err(e) => envelope(*doc) == Err::<(Seq<Value>, Seq<u8>), ErrorKind>(e.kind()),
        },
{
    let records = match member(doc, "content") {
        None => { return Err(ClientError::NoContent); },
        Some(content) => match decode_serde_base64(content) {
            Err(e) => { return Err(e); },
            Ok(records) => records,
        },
    };
    match read_token(doc) {
        None => Err(ClientError::NoSha),
        Some(token) => Ok((records, token)),
    }
}

/// Reads the envelope spelled by `body`: the records and the version token.
///
/// Fails with `Json` where `body` is no JSON, else as `read_envelope` does.
pub fn read_snapshot(body: &[u8]) -> (r: Result<(Vec<Value>, Vec<u8>), ClientError>)
    ensures
        match r {
            Ok((records, token)) => snapshot(body@) == Ok::<(Seq<Value>, Seq<u8>), ErrorKind>(
                (records@, token@),
            ),
            Err(e) => snapshot(body@) == Err::<(Seq<Value>, Seq<u8>), ErrorKind>(e.kind()),
        },
{
    match parse_document(body) {
        Err(e) => Err(ClientError::Json(e)),
        Ok(doc) => read_envelope(&doc),
    }
}

/// Reads the reply to a read.
///
/// Fails with `Http` where the exchange did not complete, else as
/// `read_snapshot` does on the body; the status plays no part.
pub fn read_fetched(reply: &Reply) -> (r: Result<(Vec<Value>, Vec<u8>), ClientError>)
    ensures
        match r {
            Ok((records, token)) => fetched(*reply) == Ok::<(Seq<Value>, Seq<u8>), ErrorKind>(
                (records@, token@),
            ),
            Err(e) => fetched(*reply) == Err::<(Seq<Value>, Seq<u8>), ErrorKind>(e.kind()),
        },
{
    match reply {
        Reply::Failed { reason } => Err(ClientError::Http(reason.clone())),
        Reply::Received { body, .. } => read_snapshot(body.as_slice()),
    }
}

/// Reads the reply to a conditional write: the blob's new version token.
///
/// Fails with `Http` where the exchange did not complete, `Conflict` where
/// the backend refused the write, `Json` where the body is no JSON and
/// `NoSha` where it carries no version token.
pub fn read_written(reply: &Reply) -> (r: Result<Vec<u8>, ClientError>)
    ensures
        match r {
            Ok(token) => written(*reply) == Ok::<Seq<u8>, ErrorKind>(token@),
            Err(e) => written(*reply) == Err::<Seq<u8>, ErrorKind>(e.kind()),
        },
{
    match reply {
        Reply::Failed { reason } => Err(ClientError::Http(reason.clone())),
        Reply::Received { status, body } => {
            if *status == CONFLICT || *status == PRECONDITION_FAILED {
                return Err(ClientError::Conflict);
            }
            match parse_document(body.as_slice()) {
                Err(e) => Err(ClientError::Json(e)),
                Ok(doc) => match read_token(&doc) {
                    None => Err(ClientError::NoSha),
                    Some(token) => Ok(token),
                },
            }
        },
    }
}

/// Writes the body of a conditional write.
pub fn write_body(message: &str, content: &[u8], token: &[u8]) -> (r: Result<Vec<u8>, ClientError>)
    ensures
        match r {
            Ok(body) => write_body_text(message@, content@, token@) == Some(body@),
            Err(e) => write_body_text(message@, content@, token@) is None && e.kind()
                == ErrorKind::Json,
        },
{
    match write_object("message", message.as_bytes(), "content", content, "sha", token) {
        Err(e) => Err(ClientError::Json(e)),
        Ok(body) => Ok(body),
    }
}

/// Writes the body of the write that creates the blob of the collection
/// `name`. The name goes into the message as it is.
pub fn creation_body(name: &str, content: &[u8]) -> (body: Vec<u8>)
    ensures
        body@ == creation_body_text(name@, content@),
{
    let mut body: Vec<u8> = Vec::new();
    append_bytes(&mut body, "{\"message\":\"Creating Collection '".as_bytes());
    append_bytes(&mut body, name.as_bytes());
    append_bytes(&mut body, "'\",\"content\":\"".as_bytes());
    append_bytes(&mut body, content);
    append_bytes(&mut body, "\"}".as_bytes());
    body
}

} // verus!
