//! How a step can fail.

use std::time::Duration;
use vstd::prelude::*;
use vstd::string::StringExecFns;

verus! {

/// Why a step was given up.
#[derive(Debug)]
pub enum Cause {
    /// The model's function call names no function.
    MissingName,
    /// The argument string of the model's function call is no JSON text; the
    /// text is the parser's complaint.
    InvalidArguments(String),
    /// The function call names no known action, or its arguments do not have
    /// the shape that the action takes.
    UnknownAction,
    /// The transcript is over budget and nothing in it is left to hide.
    TrimExhausted,
    /// The tokenizer could not estimate the transcript; the text is its
    /// complaint.
    Tokenizer(String),
    /// A turn within the window has no query that can be resolved.
    MissingQuery,
    /// A path was referred to that has no alias: a recorded step names it, or
    /// an alias beyond the table was given.
    UnknownPath,
    /// A final answer within the window came without the form in which the
    /// transcript shows it.
    UnencodedAnswer,
    /// The channel on which snapshots are published is closed.
    ChannelClosed,
    /// A tool or the model client failed; the text says how.
    Collaborator(String),
}

/// The two kinds of error that a step reports.
#[derive(Debug)]
pub enum Error {
    /// A deadline set around the step ran out. The driver reports it; nothing
    /// in this crate raises it.
    Timeout(Duration),
    /// Any other failure, with its cause.
    Processing(Cause),
}

impl Cause {
    /// The sentence that names this cause.
    pub fn message(&self) -> (text: String)
        ensures
            self is MissingName ==> text@ == "malformed function call: missing name"@,
            self is InvalidArguments ==> text@ == "malformed function call: invalid arguments"@,
            self is UnknownAction ==> text@ == "unknown action"@,
            self is TrimExhausted ==> text@ == "could not find message to trim"@,
            self is Tokenizer ==> text@ == "could not estimate the transcript"@,
            self is MissingQuery ==> text@ == "query does not have target"@,
            self is UnknownPath ==> text@ == "unknown path"@,
            self is UnencodedAnswer ==> text@ == "answer was not encoded"@,
            self is ChannelClosed ==> text@ == "exchange_tx was closed"@,
            self matches Cause::Collaborator(said) ==> text@ == said@,
    {
        match self {
            Cause::MissingName => String::from_str("malformed function call: missing name"),
            Cause::InvalidArguments(_) => String::from_str(
                "malformed function call: invalid arguments",
            ),
            Cause::UnknownAction => String::from_str("unknown action"),
            Cause::TrimExhausted => String::from_str("could not find message to trim"),
            Cause::Tokenizer(_) => String::from_str("could not estimate the transcript"),
            Cause::MissingQuery => String::from_str("query does not have target"),
            Cause::UnknownPath => String::from_str("unknown path"),
            Cause::UnencodedAnswer => String::from_str("answer was not encoded"),
            Cause::ChannelClosed => String::from_str("exchange_tx was closed"),
            Cause::Collaborator(said) => said.clone(),
        }
    }
}

} // verus!
