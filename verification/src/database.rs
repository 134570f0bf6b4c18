//! What errors of the database mean.
use vstd::prelude::*;

use crate::error::{Failure, RequestError};

verus! {

/// An error that the database or its driver reported, with its description.
#[derive(Debug)]
pub enum DatabaseError {
    /// A command was refused.
    Command { code: i32, code_name: String, message: String },
    /// A single write was refused.
    Write { code: i32, message: String },
    /// Anything else.
    Other { message: String },
}

/// A character with ASCII capitals made small.
pub open spec fn ascii_lower(letter: char) -> char {
    if 'A' <= letter && letter <= 'Z' {
        (letter as u32 + 32) as char
    } else {
        letter
    }
}

/// Whether two texts are the same but for the case of ASCII letters.
pub open spec fn same_ignoring_case(left: Seq<char>, right: Seq<char>) -> bool {
    left.len() == right.len() && forall|i: int|
        0 <= i < left.len() ==> ascii_lower(#[trigger] left[i]) == ascii_lower(right[i])
}

/// Whether `part` stands in `text` at some place.
pub open spec fn contains_text(text: Seq<char>, part: Seq<char>) -> bool {
    exists|at: int|
        0 <= at <= text.len() - part.len() && #[trigger] text.subrange(at, at + part.len()) == part
}

/// `str::eq_ignore_ascii_case`: whether both are the same but for the case of ASCII letters.
#[verifier::external_body]
fn text_eq_ignoring_case(left: &str, right: &str) -> (same: bool)
    ensures
        same == same_ignoring_case(left@, right@),
{
    left.eq_ignore_ascii_case(right)
}

/// `str::contains`, with a string for its pattern: whether the part is found in the text.
#[verifier::external_body]
fn text_contains(text: &str, part: &str) -> (found: bool)
    ensures
        found == contains_text(text@, part@),
{
    text.contains(part)
}

impl DatabaseError {
    /// Whether the error says that the deployment has no change streams.
    pub open spec fn says_unsupported(self) -> bool {
        match self {
            DatabaseError::Command { code, code_name, .. } => {
                ||| code == 40573
                ||| code == 40574
                ||| code == 40615
                ||| same_ignoring_case(code_name@, "ChangeStreamNotSupported"@)
                ||| same_ignoring_case(code_name@, "Location40573"@)
            },
            DatabaseError::Write { message, .. } | DatabaseError::Other { message } => {
                ||| contains_text(message@, "$changeStream stage is only supported"@)
                ||| contains_text(message@, "ChangeStreamNotSupported"@)
            },
        }
    }

    /// The description of the error.
    pub open spec fn text(self) -> Seq<char> {
        match self {
            DatabaseError::Command { message, .. } => message@,
            DatabaseError::Write { message, .. } => message@,
            DatabaseError::Other { message } => message@,
        }
    }

    /// Whether the error says that the deployment has no change streams.
    pub fn is_change_stream_unsupported(&self) -> (unsupported: bool)
        ensures
            unsupported == self.says_unsupported(),
    {
        match self {
            DatabaseError::Command { code, code_name, .. } => {
                *code == 40573 || *code == 40574 || *code == 40615 || text_eq_ignoring_case(
                    code_name.as_str(),
                    "ChangeStreamNotSupported",
                ) || text_eq_ignoring_case(code_name.as_str(), "Location40573")
            },
            DatabaseError::Write { message, .. } | DatabaseError::Other { message } => {
                text_contains(message.as_str(), "$changeStream stage is only supported")
                    || text_contains(message.as_str(), "ChangeStreamNotSupported")
            },
        }
    }

    /// Whether the error says that the collection does not exist.
    pub fn is_namespace_not_found(&self) -> (not_found: bool)
        ensures
            not_found == (self matches DatabaseError::Command { code, .. } && code == 26),
    {
        match self {
            DatabaseError::Command { code, .. } => *code == 26,
            _ => false,
        }
    }

    /// Whether the error says that a unique key is taken.
    pub fn is_duplicate_key(&self) -> (duplicate: bool)
        ensures
            duplicate == (self matches DatabaseError::Write { code, .. } && code == 11000),
    {
        match self {
            DatabaseError::Write { code, .. } => *code == 11000,
            _ => false,
        }
    }

    /// The error as callers see it.
    pub fn into_request_error(self) -> (error: RequestError)
        ensures
            error@ == Failure::Database(self.text()),
    {
        match self {
            DatabaseError::Command { message, .. } => RequestError::Database(message),
            DatabaseError::Write { message, .. } => RequestError::Database(message),
            DatabaseError::Other { message } => RequestError::Database(message),
        }
    }
}

/// What comes of an attempt to open a worker's change stream.
#[derive(Debug)]
pub enum StreamOpening {
    /// The stream is open.
    Open,
    /// It could not be opened this time.
    Retry,
    /// The deployment has no change streams: the worker cannot run.
    Unsupported(RequestError),
}

/// Decides what an attempt to open a worker's change stream means: an error that is not about the
/// deployment is worth another attempt.
pub fn change_stream_opening(result: Result<(), DatabaseError>) -> (opening: StreamOpening)
    ensures
        match result {
            Ok(_) => opening is Open,
            Err(error) => if error.says_unsupported() {
                opening matches StreamOpening::Unsupported(failure) && failure@
                    == Failure::Database(
                    "change streams unsupported; MongoDB must be a replica set or sharded cluster"@,
                )
            } else {
                opening is Retry
            },
        },
{
    match result {
        Ok(_) => StreamOpening::Open,
        Err(error) => if error.is_change_stream_unsupported() {
            StreamOpening::Unsupported(
                RequestError::Database(
                    "change streams unsupported; MongoDB must be a replica set or sharded cluster".to_owned(),
                ),
            )
        } else {
            StreamOpening::Retry
        },
    }
}

} // verus!
