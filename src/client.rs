//! What each reply means, and the decisions between the two exchanges that add
//! a cloze note: first the deck is ensured, then the note is added.

use vstd::prelude::*;

use crate::request::{add_note_request, is_add_cloze_request, Request};

verus! {

/// Where the automation interface listens.
pub const ENDPOINT: &'static str = "http://localhost:8765";

/// The identifier that the remote side gives a note it has added.
#[derive(Clone, Copy, Debug, PartialEq, Eq, Structural)]
pub struct NoteId(pub u64);

/// The decoded body of a reply: by the protocol, exactly one of a result and
/// an error message.
#[derive(Debug)]
pub struct Reply {
    pub result: Option<u64>,
    pub error: Option<String>,
}

/// A reply body that breaks the protocol.
#[derive(Clone, Copy, Debug, PartialEq, Eq, Structural)]
pub enum Violation {
    BothResultAndError,
    NeitherResultNorError,
}

/// What a reply body means: its result, its error message, or a breach of the
/// protocol.
pub open spec fn reply_meaning(r: Reply) -> Result<Result<u64, String>, Violation> {
    match (r.result, r.error) {
        (Some(n), None) => Ok(Ok(n)),
        (None, Some(e)) => Ok(Err(e)),
        (Some(_), Some(_)) => Err(Violation::BothResultAndError),
        (None, None) => Err(Violation::NeitherResultNorError),
    }
}

/// Reads a reply body: a result gives `Ok(Ok(n))`, an error message
/// `Ok(Err(message))`, and both or neither a violation.
pub fn settle_reply(reply: Reply) -> (o: Result<Result<u64, String>, Violation>)
    ensures
        o == reply_meaning(reply),
{
    match (reply.result, reply.error) {
        (Some(n), None) => Ok(Ok(n)),
        (None, Some(e)) => Ok(Err(e)),
        (Some(_), Some(_)) => Err(Violation::BothResultAndError),
        (None, None) => Err(Violation::NeitherResultNorError),
    }
}

/// The error for an HTTP status that is not a success; `status` is the
/// status as it is displayed (code and reason).
pub fn status_error(status: &str) -> (e: String)
    ensures
        e@ == "Error: Status: "@ + status@,
{
    let mut e = "Error: Status: ".to_string();
    e.append(status);
    e
}

/// What ensuring the deck gives, from the outcome of the `createDeck`
/// exchange: the deck's identifier is dropped.
pub open spec fn deck_result(r: Result<u64, String>) -> Result<(), String> {
    match r {
        Ok(_) => Ok(()),
        Err(e) => Err(e),
    }
}

/// The outcome of ensuring the deck, from the outcome of its exchange.
pub fn deck_outcome(r: Result<u64, String>) -> (o: Result<(), String>)
    ensures
        o == deck_result(r),
{
    match r {
        Ok(_) => Ok(()),
        Err(e) => Err(e),
    }
}

/// What adding the note gives, from the outcome of the `addNote` exchange.
pub open spec fn note_result(r: Result<u64, String>) -> Result<NoteId, String> {
    match r {
        Ok(n) => Ok(NoteId(n)),
        Err(e) => Err(e),
    }
}

/// The outcome of adding the note, from the outcome of its exchange.
pub fn note_outcome(r: Result<u64, String>) -> (o: Result<NoteId, String>)
    ensures
        o == note_result(r),
{
    match r {
        Ok(n) => Ok(NoteId(n)),
        Err(e) => Err(e),
    }
}

/// The step after ensuring the deck: where that failed, its error ends the
/// whole operation and no note request exists; else the request that adds the
/// cloze note.
pub fn after_deck(deck: Result<(), String>, text: String, tags: Vec<String>) -> (r: Result<Request, String>)
    ensures
        deck is Err ==> r == Err::<Request, String>(deck->Err_0),
        deck is Ok ==> r is Ok && is_add_cloze_request(r->Ok_0, text@, tags@),
{
    match deck {
        Ok(()) => Ok(add_note_request(text, tags)),
        Err(e) => Err(e),
    }
}


/// A `createDeck` reply that carries a result, and no error, ensures the deck
/// with success and nothing more.
pub proof fn lemma_deck_created(reply: Reply)
    requires
        reply.result is Some,
        reply.error is None,
    ensures
        reply_meaning(reply) == Ok::<Result<u64, String>, Violation>(Ok(reply.result->Some_0)),
        deck_result(reply_meaning(reply)->Ok_0) == Ok::<(), String>(()),
{
}

/// An `addNote` reply that carries the number `n`, and no error, adds the note
/// with identifier `n`.
pub proof fn lemma_note_added(reply: Reply, n: u64)
    requires
        reply.result == Some(n),
        reply.error is None,
    ensures
        reply_meaning(reply) == Ok::<Result<u64, String>, Violation>(Ok(n)),
        note_result(reply_meaning(reply)->Ok_0) == Ok::<NoteId, String>(NoteId(n)),
{
}

/// An `addNote` reply that carries the error `e`, and no result, fails with
/// exactly the message `e`.
pub proof fn lemma_note_rejected(reply: Reply, e: String)
    requires
        reply.result is None,
        reply.error == Some(e),
    ensures
        reply_meaning(reply) == Ok::<Result<u64, String>, Violation>(Err(e)),
        note_result(reply_meaning(reply)->Ok_0) == Err::<NoteId, String>(e),
{
}

/// A `createDeck` reply that carries the error `e` fails the deck with `e`;
/// `after_deck` then ends with that same error and builds no note request.
pub proof fn lemma_deck_failure_stops(reply: Reply, e: String)
    requires
        reply.result is None,
        reply.error == Some(e),
    ensures
        deck_result(reply_meaning(reply)->Ok_0) == Err::<(), String>(e),
{
}

} // verus!
