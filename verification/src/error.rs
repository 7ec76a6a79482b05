//! The failure taxonomy of the bridge and the typed outcome of one
//! dispatched invocation. Every failure is delivered back to the caller as
//! a `CommandResult::Failure`; none is swallowed and none crashes the
//! process.

use vstd::prelude::*;
use crate::value::{Value, ValueModel};

verus! {

/// Why a dispatched invocation failed. The bridge can diagnose the first,
/// second and fourth variants itself; a `HandlerError` originates inside a
/// handler and its message is opaque to the bridge, which neither
/// interprets it nor retries because of it.
#[derive(PartialEq, Eq, Debug, Clone)]
pub enum ErrorDescriptor {
    /// The invoked name has no registered handler.
    UnknownCommand,
    /// The raw arguments do not deserialize into the handler's expected
    /// argument shape; the handler was never invoked.
    InvalidArguments,
    /// The handler ran and failed, with its own message.
    HandlerError(String),
    /// The handler succeeded but its value could not be serialized for
    /// delivery across the boundary.
    SerializationError,
}

/// The mathematical model of a failure.
pub enum ErrorModel {
    UnknownCommand,
    InvalidArguments,
    HandlerError(Seq<char>),
    SerializationError,
}

impl View for ErrorDescriptor {
    type V = ErrorModel;

    open spec fn view(&self) -> ErrorModel {
        match self {
            ErrorDescriptor::UnknownCommand => ErrorModel::UnknownCommand,
            ErrorDescriptor::InvalidArguments => ErrorModel::InvalidArguments,
            ErrorDescriptor::HandlerError(msg) => ErrorModel::HandlerError(msg@),
            ErrorDescriptor::SerializationError => ErrorModel::SerializationError,
        }
    }
}

/// The typed outcome of one dispatched invocation: a command-specific
/// success payload, or one failure descriptor.
#[derive(PartialEq, Eq, Debug, Clone)]
pub enum CommandResult {
    Success(Value),
    Failure(ErrorDescriptor),
}

/// The mathematical model of an outcome.
pub enum ResultModel {
    Success(ValueModel),
    Failure(ErrorModel),
}

impl View for CommandResult {
    type V = ResultModel;

    open spec fn view(&self) -> ResultModel {
        match self {
            CommandResult::Success(v) => ResultModel::Success(v@),
            CommandResult::Failure(e) => ResultModel::Failure(e@),
        }
    }
}

/// Account for the last step of delivery: serializing the outcome back
/// across the boundary. A result that succeeded internally but could not
/// be serialized must not be dropped silently; it is reported as a
/// serialization failure. Everything else passes through unchanged.
pub fn deliver(result: CommandResult, serialized_ok: bool) -> (r: CommandResult)
    ensures
        serialized_ok ==> r@ == result@,
        result matches CommandResult::Failure(_) ==> r@ == result@,
        result matches CommandResult::Success(_) && !serialized_ok ==> r@ == ResultModel::Failure(
            ErrorModel::SerializationError,
        ),
{
    match result {
        CommandResult::Failure(e) => CommandResult::Failure(e),
        CommandResult::Success(v) => {
            if serialized_ok {
                CommandResult::Success(v)
            } else {
                CommandResult::Failure(ErrorDescriptor::SerializationError)
            }
        },
    }
}

} // verus!
