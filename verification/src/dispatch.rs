//! What is done with a request, step by step.
//!
//! Sending is the caller's part. This module decides what comes before and
//! after: `begin` answers a request either with the message to send or with
//! the reply that turns it down, and `finish` turns the outcome of the one
//! attempt into the reply. Neither sends anything, and `finish` has no way
//! to ask for another attempt.

use vstd::prelude::*;
use lettre::Message;
use crate::assemble::{build_message, BuildError};
use crate::compose::{compose, first_failure, planned};
use crate::mail::held;
use crate::request::{ComposeError, EntryShape, SendRequest};
use crate::text::str_of;

verus! {

/// The status of a reply.
#[derive(Debug, Clone, Copy, PartialEq, Eq, Structural)]
pub enum Status {
    Success,
    UnprocessableEntity,
    InternalServerError,
}

/// What the caller of the service is told.
#[derive(Debug, Clone, PartialEq, Eq)]
pub struct Reply {
    pub status: Status,
    pub text: String,
}

/// A reply as contracts see it.
pub struct ReplyView {
    pub status: Status,
    pub text: Seq<char>,
}

impl View for Reply {
    type V = ReplyView;

    open spec fn view(&self) -> ReplyView {
        ReplyView { status: self.status, text: self.text@ }
    }
}

/// What came of one attempt to send.
#[derive(Debug, Clone, PartialEq, Eq)]
pub enum Delivery {
    /// The relay took the message; the first line of its answer.
    Accepted(String),
    /// The message was not delivered; the transport's own words.
    Failed(String),
}

/// What is to be done about a request.
pub enum Step {
    /// Hand this message to the transport, once.
    Send(Message),
    /// Send nothing and answer with this reply.
    Answer(Reply),
}

impl Status {
    /// The number of the status.
    pub open spec fn number(self) -> u16 {
        match self {
            Status::Success => 200,
            Status::UnprocessableEntity => 422,
            Status::InternalServerError => 500,
        }
    }

    /// The number of the status.
    pub fn code(&self) -> (r: u16)
        ensures
            r == self.number(),
    {
        match self {
            Status::Success => 200,
            Status::UnprocessableEntity => 422,
            Status::InternalServerError => 500,
        }
    }
}

/// The reply to a request for something that is not there.
pub fn not_found() -> (text: &'static str)
    ensures
        text@ == "404 not found"@,
{
    "404 not found"
}

/// The reply to a request that is too large.
pub fn payload_too_large() -> (text: &'static str)
    ensures
        text@ == "413 payload too large"@,
{
    "413 payload too large"
}

/// The reply to a request that could not be read.
pub fn unprocessable_entity() -> (text: &'static str)
    ensures
        text@ == "422 unprocessable entity"@,
{
    "422 unprocessable entity"
}

/// The reply when the fault is on this side.
pub fn server_error() -> (text: &'static str)
    ensures
        text@ == "500 server error"@,
{
    "500 server error"
}

/// The reply that turns a request down: the fault by name for a fault of the
/// request, nothing but a server error for a fault of the configuration.
pub open spec fn rejection(error: ComposeError) -> ReplyView {
    if error.is_configuration() {
        ReplyView { status: Status::InternalServerError, text: "500 server error"@ }
    } else {
        ReplyView { status: Status::UnprocessableEntity, text: error.text() }
    }
}

/// The reply when a request without fault still gave no message.
pub open spec fn failure() -> ReplyView {
    ReplyView { status: Status::InternalServerError, text: "500 server error"@ }
}

/// The reply after an attempt to send: the relay's acknowledgement with
/// status `Success`, or the transport's words with status `InternalServerError`.
pub open spec fn report(delivery: Delivery) -> ReplyView {
    match delivery {
        Delivery::Accepted(line) => ReplyView { status: Status::Success, text: line@ },
        Delivery::Failed(text) => ReplyView { status: Status::InternalServerError, text: text@ },
    }
}

/// The reply that turns a request down.
pub fn reject(error: ComposeError) -> (reply: Reply)
    ensures
        reply@ == rejection(error),
{
    if error.configuration() {
        Reply { status: Status::InternalServerError, text: server_error().to_owned() }
    } else {
        Reply { status: Status::UnprocessableEntity, text: error.message() }
    }
}

/// Decides what is done about a request.
///
/// A request with a fault is answered with its rejection and nothing is to
/// be sent. A request without fault yields the message to send, which holds
/// the mail that the request asks for, wherever `lettre` accepts that mail;
/// where it does not, the answer is a server error.
pub fn begin(request: &SendRequest, shape: EntryShape, default_sender: Option<&str>) -> (step:
    Step)
    ensures
        first_failure(request@, shape, str_of(default_sender)) is None && planned(
            request@,
            shape,
            str_of(default_sender),
        ).accepted() ==> step is Send,
        match step {
            Step::Send(message) => {
                &&& first_failure(request@, shape, str_of(default_sender)) is None
                &&& planned(request@, shape, str_of(default_sender)).held_in(held(message))
            },
            Step::Answer(reply) => match first_failure(request@, shape, str_of(default_sender)) {
                Some(error) => reply@ == rejection(error),
                None => reply@ == failure(),
            },
        },
{
    match compose(request, shape, default_sender) {
        Err(error) => Step::Answer(reject(error)),
        Ok(mail) => match build_message(&mail) {
            Ok(message) => Step::Send(message),
            Err(refusal) => {
                assert(refusal == BuildError::Refused);
                Step::Answer(
                    Reply { status: Status::InternalServerError, text: server_error().to_owned() },
                )
            },
        },
    }
}

/// The reply after the one attempt to send.
pub fn finish(delivery: Delivery) -> (reply: Reply)
    ensures
        reply@ == report(delivery),
{
    match delivery {
        Delivery::Accepted(line) => Reply { status: Status::Success, text: line },
        Delivery::Failed(text) => Reply { status: Status::InternalServerError, text },
    }
}

} // verus!
