//! A collection: the local view of one blob, and the steps that keep it in
//! line with the backend.
//!
//! A collection holds the records and the version token of one fetch. To
//! synchronize, send `fetch` and hand the reply to `update`. To write, send
//! `fetch`, hand the reply to `insert` or `set_as`, send the request of the
//! write that comes back, and hand its reply to `commit`. A write names the
//! version token of the fetch it rests on; the backend refuses it where the
//! blob has changed since, and `commit` then fails with `Conflict`. Nothing
//! is retried. A step that fails leaves the collection as it was.

use serde_json::Value;
use url::Url;
use vstd::prelude::*;

use crate::codec::{encode, encoded};
use crate::error::{ClientError, ErrorKind};
use crate::exchange::{
    fetched, read_fetched, read_written, write_body, write_body_text, written, Method, Reply,
    Request,
};

verus! {

/// A collection of documents in the database.
#[derive(Debug)]
pub struct Collection {
    pub name: String,
    url: Url,
    sha: Vec<u8>,
    inner: Vec<Value>,
}

/// What a collection is: its name, the address of its blob, and the records
/// and the version token of the last fetch or write.
pub struct CollectionView {
    pub name: Seq<char>,
    pub url: Url,
    pub records: Seq<Value>,
    pub token: Seq<u8>,
}

/// A write that has been prepared and not yet confirmed.
#[derive(Debug)]
pub struct Write {
    /// The request to send.
    pub request: Request,
    /// The records that the blob holds once the write is accepted.
    pub records: Vec<Value>,
    /// The version token that the blob must still have.
    pub expected: Vec<u8>,
}

/// What a prepared write is.
pub struct WriteView {
    pub url: Url,
    pub body: Seq<u8>,
    pub records: Seq<Value>,
    pub expected: Seq<u8>,
}

impl View for Collection {
    type V = CollectionView;

    closed spec fn view(&self) -> CollectionView {
        CollectionView { name: self.name@, url: self.url, records: self.inner@, token: self.sha@ }
    }
}

impl View for Write {
    type V = WriteView;

    open spec fn view(&self) -> WriteView {
        WriteView {
            url: self.request.url,
            body: self.request.body@,
            records: self.records@,
            expected: self.expected@,
        }
    }
}

/// The write of `records` to the blob at `url`, resting on a fetch that
/// brought `token`; or why it cannot be prepared.
pub open spec fn planned(url: Url, message: Seq<char>, records: Seq<Value>, token: Seq<u8>) -> Result<
    WriteView,
    ErrorKind,
> {
    match encoded(records) {
        Err(kind) => Err(kind),
        Ok(content) => match write_body_text(message, content, token) {
            None => Err(ErrorKind::Json),
            Some(body) => Ok(WriteView { url, body, records, expected: token }),
        },
    }
}

/// The collection `c` after the reply to a read.
pub open spec fn updated(c: CollectionView, reply: Reply) -> Result<CollectionView, ErrorKind> {
    match fetched(reply) {
        Err(kind) => Err(kind),
        Ok((records, token)) => Ok(CollectionView { records, token, ..c }),
    }
}

/// The write that appends `data` to what the reply to a read brought.
pub open spec fn insert_plan(c: CollectionView, data: Value, reply: Reply) -> Result<
    WriteView,
    ErrorKind,
> {
    match fetched(reply) {
        Err(kind) => Err(kind),
        Ok((records, token)) => planned(c.url, "Insert"@, records.push(data), token),
    }
}

/// The write that puts `value` in place of what the reply to a read brought.
pub open spec fn set_as_plan(c: CollectionView, value: Seq<Value>, reply: Reply) -> Result<
    WriteView,
    ErrorKind,
> {
    match fetched(reply) {
        Err(kind) => Err(kind),
        Ok((_, token)) => planned(c.url, "Overwrite"@, value, token),
    }
}

/// The collection `c` after the reply to the write `write`.
pub open spec fn committed(c: CollectionView, write: WriteView, reply: Reply) -> Result<
    CollectionView,
    ErrorKind,
> {
    match written(reply) {
        Err(kind) => Err(kind),
        Ok(token) => Ok(CollectionView { records: write.records, token, ..c }),
    }
}

/// Prepares the write of `records` to the blob at `url`.
pub fn plan(url: &Url, message: &str, records: Vec<Value>, token: Vec<u8>) -> (r: Result<
    Write,
    ClientError,
>)
    ensures
        match r {
            Ok(write) => planned(*url, message@, records@, token@) == Ok::<WriteView, ErrorKind>(
                write@,
            ) && write.request.method == Method::Put,
            Err(e) => planned(*url, message@, records@, token@) == Err::<WriteView, ErrorKind>(
                e.kind(),
            ),
        },
{
    let content = match encode(&records) {
        Err(e) => { return Err(e); },
        Ok(content) => content,
    };
    let body = match write_body(message, content.as_slice(), token.as_slice()) {
        Err(e) => { return Err(e); },
        Ok(body) => body,
    };
    Ok(Write { request: Request { method: Method::Put, url: url.clone(), body }, records, expected: token })
}

impl Collection {
    /// A collection of the given name and address that holds `records` and
    /// the version token `sha`, both taken from one answer of the backend.
    pub(crate) fn new(name: String, url: Url, records: Vec<Value>, sha: Vec<u8>) -> (c: Collection)
        ensures
            c@ == (CollectionView { name: name@, url, records: records@, token: sha@ }),
    {
        Collection { name, url, sha, inner: records }
    }

    /// The request that reads the blob.
    pub fn fetch(&self) -> (request: Request)
        ensures
            request.method == Method::Get,
            request.url == self@.url,
            request.body@ == Seq::<u8>::empty(),
    {
        Request { method: Method::Get, url: self.url.clone(), body: Vec::new() }
    }

    /// Brings the collection in line with the backend, from the reply to
    /// `fetch`. On success the records and the version token are those of
    /// this one reply.
    pub fn update(&mut self, reply: &Reply) -> (r: Result<(), ClientError>)
        ensures
            match r {
                Ok(()) => updated(old(self)@, *reply) == Ok::<CollectionView, ErrorKind>(
                    final(self)@,
                ),
                Err(e) => updated(old(self)@, *reply) == Err::<CollectionView, ErrorKind>(
                    e.kind(),
                ) && *final(self) == *old(self),
            },
    {
        match read_fetched(reply) {
            Err(e) => Err(e),
            Ok((records, token)) => {
                self.inner = records;
                self.sha = token;
                Ok(())
            },
        }
    }

    /// Prepares the write that appends `data`, from the reply to `fetch`.
    /// The collection changes only when the write is committed.
    pub fn insert(&self, data: Value, reply: &Reply) -> (r: Result<Write, ClientError>)
        ensures
            match r {
                Ok(write) => insert_plan(self@, data, *reply) == Ok::<WriteView, ErrorKind>(
                    write@,
                ) && write.request.method == Method::Put,
                Err(e) => insert_plan(self@, data, *reply) == Err::<WriteView, ErrorKind>(
                    e.kind(),
                ),
            },
    {
        match read_fetched(reply) {
            Err(e) => Err(e),
            Ok((records, token)) => {
                let mut records = records;
                records.push(data);
                plan(&self.url, "Insert", records, token)
            },
        }
    }

    /// Prepares the write that overwrites the entire collection with
    /// `value`, from the reply to `fetch`. The collection changes only when
    /// the write is committed.
    pub fn set_as(&self, value: Vec<Value>, reply: &Reply) -> (r: Result<Write, ClientError>)
        ensures
            match r {
                Ok(write) => set_as_plan(self@, value@, *reply) == Ok::<WriteView, ErrorKind>(
                    write@,
                ) && write.request.method == Method::Put,
                Err(e) => set_as_plan(self@, value@, *reply) == Err::<WriteView, ErrorKind>(
                    e.kind(),
                ),
            },
    {
        match read_fetched(reply) {
            Err(e) => Err(e),
            Ok((_, token)) => plan(&self.url, "Overwrite", value, token),
        }
    }

    /// Completes `write` from the reply to its request. On success the
    /// collection holds the records of the write and the version token that
    /// the backend gave the blob.
    pub fn commit(&mut self, write: Write, reply: &Reply) -> (r: Result<(), ClientError>)
        ensures
            match r {
                Ok(()) => committed(old(self)@, write@, *reply) == Ok::<
                    CollectionView,
                    ErrorKind,
                >(final(self)@),
                Err(e) => committed(old(self)@, write@, *reply) == Err::<
                    CollectionView,
                    ErrorKind,
                >(e.kind()) && *final(self) == *old(self),
            },
    {
        match read_written(reply) {
            Err(e) => Err(e),
            Ok(token) => {
                self.inner = write.records;
                self.sha = token;
                Ok(())
            },
        }
    }

    /// Synchronizes from the reply to `fetch` and returns all documents.
    pub fn data(&mut self, reply: &Reply) -> (r: Result<&Vec<Value>, ClientError>)
        ensures
            match r {
                Ok(records) => updated(old(self)@, *reply) == Ok::<CollectionView, ErrorKind>(
                    final(self)@,
                ) && records@ == final(self)@.records,
                Err(e) => updated(old(self)@, *reply) == Err::<CollectionView, ErrorKind>(
                    e.kind(),
                ) && *final(self) == *old(self),
            },
    {
        match self.update(reply) {
            Err(e) => Err(e),
            Ok(()) => Ok(&self.inner),
        }
    }

    /// The documents of the last fetch or write.
    pub fn records(&self) -> (records: &Vec<Value>)
        ensures
            records@ == self@.records,
    {
        &self.inner
    }

    /// The version token of the last fetch or write.
    pub fn sha(&self) -> (token: &Vec<u8>)
        ensures
            token@ == self@.token,
    {
        &self.sha
    }

    /// The address of the blob.
    pub fn url(&self) -> (url: &Url)
        ensures
            *url == self@.url,
    {
        &self.url
    }
}

} // verus!
