//! The error taxonomy of message handling. A filter denial is not here: it
//! is a normal outcome, not an error. These are the per-message failures that
//! are surfaced, logged by the caller, and abandon the current message only.

use vstd::prelude::*;

verus! {

/// Why handling one inbound message failed.
#[derive(Clone, Copy, Debug, PartialEq, Eq, Structural)]
pub enum HandleError {
    /// A response arrived where only requests are expected.
    UnexpectedResponse,
    /// The request body matched neither known request shape.
    UnrecognizedRequest,
    /// A log payload failed to parse as a structured record.
    MalformedPayload,
    /// A control command came from an identity other than the service's own.
    ForeignSender,
}

impl HandleError {
    /// The text a failure is logged with.
    pub open spec fn text_spec(self) -> Seq<char> {
        match self {
            HandleError::UnexpectedResponse => "unexpected Response"@,
            HandleError::UnrecognizedRequest => "request body matched no known Request shape"@,
            HandleError::MalformedPayload => "log payload is not a well-formed record"@,
            HandleError::ForeignSender => "rejecting InternalRequest from remote node"@,
        }
    }

    /// Renders the text a failure is logged with.
    pub fn text(&self) -> (r: String)
        ensures
            r@ == self.text_spec(),
    {
        match self {
            HandleError::UnexpectedResponse => "unexpected Response".to_owned(),
            HandleError::UnrecognizedRequest => "request body matched no known Request shape"
                .to_owned(),
            HandleError::MalformedPayload => "log payload is not a well-formed record".to_owned(),
            HandleError::ForeignSender => "rejecting InternalRequest from remote node".to_owned(),
        }
    }
}

} // verus!
