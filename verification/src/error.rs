//! Error types for engine operations, and the mapping from the engine's raw
//! status codes to them.

use vstd::prelude::*;

use crate::status::VividResult;

verus! {

/// Errors from engine operations.
#[derive(Debug, Clone, PartialEq, Eq)]
pub enum Error {
    /// Invalid argument passed to a function.
    InvalidArgument(String),
    /// Context not initialized.
    NotInitialized,
    /// Failed to load project.
    LoadFailed(String),
    /// Compilation failed.
    CompileFailed(String),
    /// No chain loaded.
    NoChain,
    /// Operator not found.
    OperatorNotFound(String),
    /// Parameter not found.
    ParamNotFound(String),
    /// Internal error.
    Internal(String),
}

impl Error {
    /// The error that a non-success status code, together with the engine's
    /// last error message, denotes.
    pub open spec fn spec_from_result(result: VividResult, message: String) -> Error {
        match result {
            VividResult::Success => Error::Internal(message),
            VividResult::ErrorInvalidArgument => Error::InvalidArgument(message),
            VividResult::ErrorNotInitialized => Error::NotInitialized,
            VividResult::ErrorLoadFailed => Error::LoadFailed(message),
            VividResult::ErrorCompileFailed => Error::CompileFailed(message),
            VividResult::ErrorNoChain => Error::NoChain,
            VividResult::ErrorOperatorNotFound => Error::OperatorNotFound(message),
            VividResult::ErrorParamNotFound => Error::ParamNotFound(message),
            VividResult::ErrorInternal => Error::Internal(message),
        }
    }

    /// Create an error from an engine status code and the engine's last
    /// error message (empty when the engine reported none). `Success`
    /// denotes no error and is excluded.
    pub fn from_result(result: VividResult, message: String) -> (e: Error)
        requires
            result != VividResult::Success,
        ensures
            e == Error::spec_from_result(result, message),
    {
        match result {
            VividResult::Success => Error::Internal(message),
            VividResult::ErrorInvalidArgument => Error::InvalidArgument(message),
            VividResult::ErrorNotInitialized => Error::NotInitialized,
            VividResult::ErrorLoadFailed => Error::LoadFailed(message),
            VividResult::ErrorCompileFailed => Error::CompileFailed(message),
            VividResult::ErrorNoChain => Error::NoChain,
            VividResult::ErrorOperatorNotFound => Error::OperatorNotFound(message),
            VividResult::ErrorParamNotFound => Error::ParamNotFound(message),
            VividResult::ErrorInternal => Error::Internal(message),
        }
    }

    /// The human-readable rendering of this error.
    pub open spec fn spec_message(self) -> Seq<char> {
        match self {
            Error::InvalidArgument(detail) => "Invalid argument: "@ + detail@,
            Error::NotInitialized => "Context not initialized"@,
            Error::LoadFailed(detail) => "Failed to load project: "@ + detail@,
            Error::CompileFailed(detail) => "Compilation failed: "@ + detail@,
            Error::NoChain => "No chain loaded"@,
            Error::OperatorNotFound(detail) => "Operator not found: "@ + detail@,
            Error::ParamNotFound(detail) => "Parameter not found: "@ + detail@,
            Error::Internal(detail) => "Internal error: "@ + detail@,
        }
    }

    /// Render the error as the message string shown to the caller.
    pub fn message(&self) -> (s: String)
        ensures
            s@ == self.spec_message(),
    {
        match self {
            Error::InvalidArgument(detail) => {
                let mut s = String::from_str("Invalid argument: ");
                s.append(detail.as_str());
                s
            },
            Error::NotInitialized => String::from_str("Context not initialized"),
            Error::LoadFailed(detail) => {
                let mut s = String::from_str("Failed to load project: ");
                s.append(detail.as_str());
                s
            },
            Error::CompileFailed(detail) => {
                let mut s = String::from_str("Compilation failed: ");
                s.append(detail.as_str());
                s
            },
            Error::NoChain => String::from_str("No chain loaded"),
            Error::OperatorNotFound(detail) => {
                let mut s = String::from_str("Operator not found: ");
                s.append(detail.as_str());
                s
            },
            Error::ParamNotFound(detail) => {
                let mut s = String::from_str("Parameter not found: ");
                s.append(detail.as_str());
                s
            },
            Error::Internal(detail) => {
                let mut s = String::from_str("Internal error: ");
                s.append(detail.as_str());
                s
            },
        }
    }
}

/// Check an engine status code, with the engine's accompanying error
/// message, and convert it to a result: `Success` and only `Success` is `Ok`.
pub fn check_result(result: VividResult, message: String) -> (r: Result<(), Error>)
    ensures
        match r {
            Ok(_) => result == VividResult::Success,
            Err(e) => result != VividResult::Success && e == Error::spec_from_result(
                result,
                message,
            ),
        },
{
    if result.is_ok() {
        Ok(())
    } else {
        Err(Error::from_result(result, message))
    }
}

} // verus!
