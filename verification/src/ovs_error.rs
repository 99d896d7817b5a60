//! The errors that every operation of the client reports.

use vstd::prelude::*;

verus! {

/// The kind of a failure.
#[derive(Debug, Clone, Copy, PartialEq, Eq, Structural)]
pub enum OvsErrorType {
    /// The connection could not be made, written to or read from.
    ConnectionError,
    /// A reply arrived whose top-level shape is not that of a transaction reply.
    InvalidResponse,
    /// The bytes of the reply are not JSON text.
    InvalidResponseJson,
    /// The database itself reported an error for the transaction.
    QueryError,
    /// An expected field or column was missing from a reply, or had another shape.
    UnexpectedResponse,
    /// The instruction contradicts the state of the database.
    InconsistentInstruction,
}

/// A failure: its kind, a message for people, and a free-text detail that may be empty.
#[derive(Debug)]
pub struct OvsError {
    pub error_type: OvsErrorType,
    pub error_message: String,
    pub error_detail: String,
}

/// An error as a mathematical value.
pub struct OvsErrorView {
    pub error_type: OvsErrorType,
    pub message: Seq<char>,
    pub detail: Seq<char>,
}

impl View for OvsError {
    type V = OvsErrorView;

    open spec fn view(&self) -> OvsErrorView {
        OvsErrorView {
            error_type: self.error_type,
            message: self.error_message@,
            detail: self.error_detail@,
        }
    }
}

/// An error of kind `t` with the given message and no detail.
pub open spec fn error_of(t: OvsErrorType, message: Seq<char>) -> OvsErrorView {
    OvsErrorView { error_type: t, message, detail: Seq::empty() }
}

/// An error of kind `t` with the given message and detail.
pub open spec fn error_with_detail(
    t: OvsErrorType,
    message: Seq<char>,
    detail: Seq<char>,
) -> OvsErrorView {
    OvsErrorView { error_type: t, message, detail }
}

impl OvsErrorView {
    /// The line, or the two lines, that present the error to a person: the message
    /// behind a fixed tag, and the detail on a line of its own unless it is empty.
    pub open spec fn rendered(self) -> Seq<char> {
        if self.detail.len() == 0 {
            "[OvsError]"@ + self.message
        } else {
            "[OvsError]"@ + self.message + "\n  ->(detail)"@ + self.detail
        }
    }
}

impl OvsError {
    /// Makes an error of kind `t` with a message and an empty detail.
    pub fn new(t: OvsErrorType, message: &str) -> (e: OvsError)
        ensures
            e@ == error_of(t, message@),
    {
        OvsError { error_type: t, error_message: message.to_owned(), error_detail: String::new() }
    }

    /// Replaces the detail and keeps kind and message.
    pub fn detail(self, detail: &str) -> (e: OvsError)
        ensures
            e@ == error_with_detail(self.error_type, self.error_message@, detail@),
    {
        let mut e = self;
        e.error_detail = detail.to_owned();
        e
    }

    /// The fixed name under which errors of this library describe themselves.
    pub fn description(&self) -> (name: &'static str)
        ensures
            name@ == "OvsError"@,
    {
        "OvsError"
    }

    /// The text that presents the error to a person.
    pub fn to_string(&self) -> (text: String)
        ensures
            text@ == self@.rendered(),
    {
        let mut text = "[OvsError]".to_owned();
        text.append(self.error_message.as_str());
        if !self.error_detail.as_str().is_empty() {
            text.append("\n  ->(detail)");
            text.append(self.error_detail.as_str());
        }
        text
    }
}

} // verus!
