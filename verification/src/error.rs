//! What can go wrong in a reconciliation.

use crate::hpa::ApiError;
use vstd::prelude::*;
use vstd::string::*;

verus! {

/// Text of the error for a time range whose `from` or `to` cannot be read.
pub const UNREADABLE_TIMESTAMP: &'static str = "Failed to parse from ZonedDateTime";

/// Text of the error for a `ServiceScaler` without a namespace.
pub const MISSING_NAMESPACE: &'static str =
    "Expected ServiceScaler resource to be namespaced. Can't deploy to an unknown namespace.";

/// Text reported when the baseline has equal bounds.
pub const SCALING_DISABLED: &'static str = "minReplicas == maxReplicas";

/// All errors that can end a reconciliation.
#[derive(Debug, Clone)]
pub enum Error {
    /// A call to the cluster failed.
    KubeError { source: ApiError },
    /// The `ServiceScaler` is malformed.
    UserInputError(String),
    /// The baseline has equal bounds: scaling is switched off and the autoscaler was removed.
    LogicalSkip,
    /// The status of the `ServiceScaler` could not be written.
    StatusWriteFailure { source: ApiError },
}

/// The value of a result, if it is one.
pub open spec fn answer<T>(r: Result<T, Error>) -> Option<T> {
    match r {
        Ok(v) => Some(v),
        Err(_) => None,
    }
}

/// The error for a time range whose `from` or `to` cannot be read.
pub fn unreadable_timestamp() -> (e: Error)
    ensures
        e matches Error::UserInputError(text) && text@ == UNREADABLE_TIMESTAMP@,
{
    Error::UserInputError(UNREADABLE_TIMESTAMP.to_owned())
}

/// What the message of a failed call to the cluster starts with.
pub const KUBE_ERROR_PREFIX: &'static str = "Kubernetes reported error: ";

/// What the message of a malformed `ServiceScaler` starts with.
pub const USER_INPUT_PREFIX: &'static str = "Invalid ServiceScaler CRD: ";

/// What the message of a status that could not be written starts with.
pub const STATUS_WRITE_PREFIX: &'static str = "Status could not be written: ";

impl Error {
    /// The message of the error.
    pub open spec fn message_text(self) -> Seq<char> {
        match self {
            Error::KubeError { source } => KUBE_ERROR_PREFIX@ + source.message@,
            Error::UserInputError(text) => USER_INPUT_PREFIX@ + text@,
            Error::LogicalSkip => SCALING_DISABLED@,
            Error::StatusWriteFailure { source } => STATUS_WRITE_PREFIX@ + source.message@,
        }
    }

    /// The message of the error, as it is logged.
    pub fn message(&self) -> (text: String)
        ensures
            text@ == self.message_text(),
    {
        match self {
            Error::KubeError { source } => KUBE_ERROR_PREFIX.to_owned().concat(
                source.message.as_str(),
            ),
            Error::UserInputError(text) => USER_INPUT_PREFIX.to_owned().concat(text.as_str()),
            Error::LogicalSkip => SCALING_DISABLED.to_owned(),
            Error::StatusWriteFailure { source } => STATUS_WRITE_PREFIX.to_owned().concat(
                source.message.as_str(),
            ),
        }
    }
}

} // verus!
