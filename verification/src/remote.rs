//! The backend as the protocol sees it, and what the protocol guarantees
//! against it.
//!
//! A blob has records and a version token. The backend answers a read with
//! both. It accepts a conditional write exactly where the write names the
//! token that the blob has, gives the blob a different token, and answers
//! with it; it refuses any other write and leaves the blob as it is.

use serde_json::Value;
use vstd::prelude::*;

use crate::collection::{committed, insert_plan, set_as_plan, updated, CollectionView, WriteView};
use crate::error::ErrorKind;
use crate::exchange::{fetched, written, Reply};

verus! {

/// One blob at the backend.
pub struct Blob {
    pub records: Seq<Value>,
    pub token: Seq<u8>,
}

/// Whether `reply` answers a read of `blob`.
pub open spec fn serves(blob: Blob, reply: Reply) -> bool {
    fetched(reply) == Ok::<(Seq<Value>, Seq<u8>), ErrorKind>((blob.records, blob.token))
}

/// Whether the backend, holding `before`, answers the write `write` with
/// `reply` and holds `after` from then on.
pub open spec fn answers(before: Blob, write: WriteView, reply: Reply, after: Blob) -> bool {
    if write.expected == before.token {
        &&& after.records == write.records
        &&& after.token != before.token
        &&& written(reply) == Ok::<Seq<u8>, ErrorKind>(after.token)
    } else {
        &&& after == before
        &&& written(reply) == Err::<Seq<u8>, ErrorKind>(ErrorKind::Conflict)
    }
}

/// A synchronized collection mirrors the blob: its records and its version
/// token are those that the one reply brought, never those of two replies.
pub proof fn law_update_mirrors_blob(c: CollectionView, blob: Blob, reply: Reply)
    requires
        serves(blob, reply),
    ensures
        updated(c, reply) == Ok::<CollectionView, ErrorKind>(
            CollectionView { records: blob.records, token: blob.token, ..c },
        ),
{
}

/// Where nothing else writes the blob between the fetch and the write, an
/// insert is accepted. It leaves the collection with the fetched records
/// followed by the new one, and with the blob's new version token, which
/// differs from the fetched one. The collection then mirrors the blob.
pub proof fn law_insert_appends(
    c: CollectionView,
    blob: Blob,
    data: Value,
    fetch_reply: Reply,
    write: WriteView,
    write_reply: Reply,
    after: Blob,
)
    requires
        serves(blob, fetch_reply),
        insert_plan(c, data, fetch_reply) == Ok::<WriteView, ErrorKind>(write),
        answers(blob, write, write_reply, after),
    ensures
        committed(c, write, write_reply) == Ok::<CollectionView, ErrorKind>(
            CollectionView { records: blob.records.push(data), token: after.token, ..c },
        ),
        after.records == blob.records.push(data),
        after.token != blob.token,
{
}

/// Where nothing else writes the blob between the fetch and the write, a
/// replace is accepted. It leaves the collection with the new records alone,
/// whatever it and the blob held before.
pub proof fn law_replace_discards(
    c: CollectionView,
    blob: Blob,
    value: Seq<Value>,
    fetch_reply: Reply,
    write: WriteView,
    write_reply: Reply,
    after: Blob,
)
    requires
        serves(blob, fetch_reply),
        set_as_plan(c, value, fetch_reply) == Ok::<WriteView, ErrorKind>(write),
        answers(blob, write, write_reply, after),
    ensures
        committed(c, write, write_reply) == Ok::<CollectionView, ErrorKind>(
            CollectionView { records: value, token: after.token, ..c },
        ),
        after.records == value,
{
}

/// Two replaces in a row, with no other write between them, are both
/// accepted: neither ends in `Conflict`.
pub proof fn law_sequential_replaces_succeed(
    c: CollectionView,
    blob: Blob,
    first: Seq<Value>,
    first_fetch: Reply,
    first_write: WriteView,
    first_reply: Reply,
    between: Blob,
    second: Seq<Value>,
    second_fetch: Reply,
    second_write: WriteView,
    second_reply: Reply,
    after: Blob,
)
    requires
        serves(blob, first_fetch),
        set_as_plan(c, first, first_fetch) == Ok::<WriteView, ErrorKind>(first_write),
        answers(blob, first_write, first_reply, between),
        serves(between, second_fetch),
        set_as_plan(committed(c, first_write, first_reply)->Ok_0, second, second_fetch) == Ok::<
            WriteView,
            ErrorKind,
        >(second_write),
        answers(between, second_write, second_reply, after),
    ensures
        committed(c, first_write, first_reply) is Ok,
        committed(committed(c, first_write, first_reply)->Ok_0, second_write, second_reply) == Ok::<
            CollectionView,
            ErrorKind,
        >(CollectionView { records: second, token: after.token, ..c }),
        after.records == second,
{
}

/// Of two collections that fetch the same blob and then both insert, the
/// one whose write reaches the backend first is accepted and the other ends
/// in `Conflict`: the blob holds the first writer's record and not the
/// second's.
pub proof fn law_one_writer_wins(
    winner: CollectionView,
    loser: CollectionView,
    blob: Blob,
    winner_fetch: Reply,
    loser_fetch: Reply,
    winner_data: Value,
    loser_data: Value,
    winner_write: WriteView,
    loser_write: WriteView,
    winner_reply: Reply,
    loser_reply: Reply,
    between: Blob,
    after: Blob,
)
    requires
        serves(blob, winner_fetch),
        serves(blob, loser_fetch),
        insert_plan(winner, winner_data, winner_fetch) == Ok::<WriteView, ErrorKind>(
            winner_write,
        ),
        insert_plan(loser, loser_data, loser_fetch) == Ok::<WriteView, ErrorKind>(loser_write),
        answers(blob, winner_write, winner_reply, between),
        answers(between, loser_write, loser_reply, after),
    ensures
        committed(winner, winner_write, winner_reply) is Ok,
        committed(loser, loser_write, loser_reply) == Err::<CollectionView, ErrorKind>(
            ErrorKind::Conflict,
        ),
        after == between,
        after.records == blob.records.push(winner_data),
{
}

} // verus!
