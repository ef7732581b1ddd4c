//! Dispatch and validation: every inbound unit of work must be a request
//! whose body matches one of the two known shapes. The filter is evaluated
//! before anything else happens; a denial is an informational no-op, while a
//! response, an unrecognized body, a foreign control command or a malformed
//! payload surface as errors that abandon the current message only.

use vstd::prelude::*;
use crate::control::{
    control_applied, handle_internal_request, InternalRequest, InternalRequestView,
};
use crate::errors::HandleError;
use crate::filter::{check_sender, denial, DenyReason};
use crate::identity::{source_text, SenderIdentity, SenderIdentityView};
use crate::router::{
    handle_logging_request, payload_of, routed, stamped_record, AppendAction, LoggingRequest,
    LoggingRequestView,
};
use crate::state::{State, StateView};

verus! {

/// Mathematical image of a `Req`.
pub enum ReqView {
    LoggingRequest(LoggingRequestView),
    InternalRequest(InternalRequestView),
}

/// The two shapes an inbound request body may take: a log-write, or an
/// administrative control command.
pub enum Req {
    LoggingRequest(LoggingRequest),
    InternalRequest(InternalRequest),
}

impl View for Req {
    type V = ReqView;

    open spec fn view(&self) -> ReqView {
        match self {
            Req::LoggingRequest(r) => ReqView::LoggingRequest(r@),
            Req::InternalRequest(r) => ReqView::InternalRequest(r@),
        }
    }
}

/// Mathematical image of an `InboundMessage`.
pub struct InboundMessageView {
    pub is_request: bool,
    pub source: SenderIdentityView,
    pub body: Option<ReqView>,
}

/// One inbound unit of work, as the transport boundary hands it over:
/// whether it is a request (a response is a protocol violation), the
/// identity it came from, and its body matched against the two known
/// request shapes in order — `None` when it matched neither.
pub struct InboundMessage {
    pub is_request: bool,
    pub source: SenderIdentity,
    pub body: Option<Req>,
}

impl View for InboundMessage {
    type V = InboundMessageView;

    open spec fn view(&self) -> InboundMessageView {
        InboundMessageView {
            is_request: self.is_request,
            source: self.source@,
            body: match &self.body {
                Some(r) => Some(r@),
                None => None,
            },
        }
    }
}

/// What handling one message amounted to.
pub enum Outcome {
    /// The filter denied the sender: informational, nothing changed.
    Skipped(DenyReason),
    /// A control command was applied to the filter sets.
    ControlApplied,
    /// An accepted record, and the append the storage substrate must perform.
    Logged(AppendAction),
}

/// Handles one inbound message in the fixed order: reject responses,
/// evaluate the access filter, then dispatch the body to the control
/// handler or the log router. No side effect precedes the filter decision,
/// and a failing message leaves the state exactly as it was.
pub fn handle_message(our: &SenderIdentity, message: InboundMessage, state: &mut State) -> (r:
    Result<Outcome, HandleError>)
    requires
        old(state)@.wf(),
    ensures
        final(state)@.wf(),
        !message@.is_request ==> r == Result::<Outcome, HandleError>::Err(
            HandleError::UnexpectedResponse,
        ) && final(state)@ == old(state)@,
        message@.is_request && denial(old(state)@, message@.source) is Some ==> r == Result::<
            Outcome,
            HandleError,
        >::Ok(Outcome::Skipped(denial(old(state)@, message@.source).unwrap())) && final(state)@
            == old(state)@,
        message@.is_request && denial(old(state)@, message@.source) is None && message@.body
            is None ==> r == Result::<Outcome, HandleError>::Err(HandleError::UnrecognizedRequest)
            && final(state)@ == old(state)@,
        message@.is_request && denial(old(state)@, message@.source) is None ==> (message@.body
            matches Some(ReqView::InternalRequest(cmd)) ==> {
            &&& our@ != message@.source ==> r == Result::<Outcome, HandleError>::Err(
                HandleError::ForeignSender,
            ) && final(state)@ == old(state)@
            &&& our@ == message@.source ==> r == Result::<Outcome, HandleError>::Ok(
                Outcome::ControlApplied,
            ) && final(state)@ == control_applied(old(state)@, cmd)
        }),
        message@.is_request && denial(old(state)@, message@.source) is None ==> (message@.body
            matches Some(ReqView::LoggingRequest(lw)) ==> {
            &&& stamped_record(payload_of(lw), source_text(message@.source)) is None ==> r
                == Result::<Outcome, HandleError>::Err(HandleError::MalformedPayload)
                && final(state)@ == old(state)@
            &&& stamped_record(payload_of(lw), source_text(message@.source)) is Some ==> (r
                matches Ok(Outcome::Logged(act)) && routed(
                old(state)@,
                final(state)@,
                message@.source,
                stamped_record(payload_of(lw), source_text(message@.source)).unwrap(),
                act@,
            ))
        }),
{
    let InboundMessage { is_request, source, body } = message;
    if !is_request {
        return Err(HandleError::UnexpectedResponse);
    }
    if let Some(reason) = check_sender(&source, state) {
        return Ok(Outcome::Skipped(reason));
    }
    match body {
        None => Err(HandleError::UnrecognizedRequest),
        Some(Req::LoggingRequest(request)) => {
            match handle_logging_request(&source, &request, state) {
                Ok(action) => Ok(Outcome::Logged(action)),
                Err(e) => Err(e),
            }
        },
        Some(Req::InternalRequest(request)) => {
            match handle_internal_request(our, &source, request, state) {
                Ok(_) => Ok(Outcome::ControlApplied),
                Err(e) => Err(e),
            }
        },
    }
}

} // verus!
