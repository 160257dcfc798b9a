use vstd::prelude::*;

use crate::animal::{selector, Animal};
use crate::error::{ErrorKind, ErrorView};

verus! {

/// The status of a successful answer.
pub const STATUS_OK: u16 = 200;

/// The JSON payload of an answer: a fact, or an error message.
#[derive(Debug)]
pub enum Envelope {
    Fact { fact: String, animal: String },
    Error { error: String },
}

/// An HTTP answer: a status code and its payload.
#[derive(Debug)]
pub struct Reply {
    pub status: u16,
    pub body: Envelope,
}

/// The mathematical content of an `Envelope`.
pub enum EnvelopeView {
    Fact { fact: Seq<char>, animal: Seq<char> },
    Error { error: Seq<char> },
}

/// The mathematical content of a `Reply`.
pub struct ReplyView {
    pub status: u16,
    pub body: EnvelopeView,
}

impl View for Envelope {
    type V = EnvelopeView;

    open spec fn view(&self) -> EnvelopeView {
        match self {
            Envelope::Fact { fact, animal } => EnvelopeView::Fact { fact: fact@, animal: animal@ },
            Envelope::Error { error } => EnvelopeView::Error { error: error@ },
        }
    }
}

impl View for Reply {
    type V = ReplyView;

    open spec fn view(&self) -> ReplyView {
        ReplyView { status: self.status, body: self.body@ }
    }
}

/// The answer that carries a fact about an animal.
pub open spec fn ok_reply(fact: Seq<char>, animal: Seq<char>) -> ReplyView {
    ReplyView { status: STATUS_OK, body: EnvelopeView::Fact { fact, animal } }
}

/// The answer that reports a failure.
pub open spec fn error_reply(e: ErrorView) -> ReplyView {
    ReplyView { status: e.status(), body: EnvelopeView::Error { error: e.message() } }
}

/// The mathematical content of a provider outcome.
pub open spec fn outcome_view(o: Result<String, ErrorKind>) -> Result<Seq<char>, ErrorView> {
    match o {
        Ok(f) => Ok(f@),
        Err(e) => Err(e@),
    }
}

/// The answer for a resolved animal, given what its provider yielded: the
/// animal is echoed by its canonical selector.
pub open spec fn answer(animal: Animal, outcome: Result<Seq<char>, ErrorView>) -> ReplyView {
    match outcome {
        Ok(fact) => ok_reply(fact, selector(animal)),
        Err(e) => error_reply(e),
    }
}

/// Answers with a fact about an animal.
pub fn respond_ok(fact: &str, animal: &str) -> (r: Reply)
    ensures
        r@ == ok_reply(fact@, animal@),
{
    Reply {
        status: STATUS_OK,
        body: Envelope::Fact { fact: String::from_str(fact), animal: String::from_str(animal) },
    }
}

/// Answers with a failure, under the status of its tag.
pub fn respond_error(err: &ErrorKind) -> (r: Reply)
    ensures
        r@ == error_reply(err@),
{
    Reply { status: err.status(), body: Envelope::Error { error: err.message() } }
}

/// Answers for a resolved animal, given what its provider yielded.
pub fn respond(animal: Animal, outcome: Result<String, ErrorKind>) -> (r: Reply)
    ensures
        r@ == answer(animal, outcome_view(outcome)),
{
    match outcome {
        Ok(fact) => respond_ok(fact.as_str(), animal.as_str()),
        Err(e) => respond_error(&e),
    }
}

/// The status of the liveness endpoint, which answers with an empty body.
pub fn health_check() -> (r: u16)
    ensures
        r == STATUS_OK,
{
    STATUS_OK
}

} // verus!
