//! The outbound dispatcher: a bounded-wait exchange through `message.json`
//! and `message_error.txt`.
//!
//! The host checks the session, writes the request document, then polls every
//! [`DISPATCH_POLL_MS`] milliseconds and hands each observation to
//! [`dispatch_poll`], which says whether to wait, succeed or fail, and what
//! to clean up.

use vstd::prelude::*;
use vstd::string::*;
use crate::json::{members_view, pretty_json, pretty_object, JsonField, JsonFieldView};
use crate::status::{is_connected, SessionStatus};
use crate::text::{digits_of, normalize_phone};

verus! {

/// How long a dispatch waits for the external service, in milliseconds.
pub const DISPATCH_DEADLINE_MS: u64 = 5000;

/// The interval between two polls of a dispatch, in milliseconds.
pub const DISPATCH_POLL_MS: u64 = 100;

/// The failures of the bridge's commands.
#[derive(Debug, Clone, PartialEq, Eq)]
pub enum BridgeError {
    /// The application data directory could not be resolved.
    Configuration(String),
    /// A dispatch was attempted while the session was not connected; holds
    /// the status name.
    NotConnected(String),
    /// A mailbox document could not be written or read as JSON.
    Serialization(String),
    /// A file could not be created, read, written or removed.
    Io(String),
    /// The external service did not take the request before the deadline.
    Timeout,
    /// The external service reported an error; holds its text.
    Service(String),
}

/// The message of a not-connected error for the given status name.
pub open spec fn not_connected_message(status: Seq<char>) -> Seq<char> {
    "WhatsApp is not connected (status: "@ + status + "). Please scan the QR code first."@
}

/// The message that a caller sees for each error.
pub open spec fn error_message(e: BridgeError) -> Seq<char> {
    match e {
        BridgeError::Configuration(m) => m@,
        BridgeError::NotConnected(s) => not_connected_message(s@),
        BridgeError::Serialization(m) => m@,
        BridgeError::Io(m) => m@,
        BridgeError::Timeout => "Timeout while sending message"@,
        BridgeError::Service(m) => m@,
    }
}

impl BridgeError {
    /// The text handed back to the caller of a failed command.
    pub fn message(&self) -> (r: String)
        ensures
            r@ == error_message(*self),
    {
        match self {
            BridgeError::Configuration(m) => m.clone(),
            BridgeError::NotConnected(s) => {
                let mut r = String::from_str("WhatsApp is not connected (status: ");
                r.append(s.as_str());
                r.append("). Please scan the QR code first.");
                r
            },
            BridgeError::Serialization(m) => m.clone(),
            BridgeError::Io(m) => m.clone(),
            BridgeError::Timeout => String::from_str("Timeout while sending message"),
            BridgeError::Service(m) => m.clone(),
        }
    }
}

/// An outbound message, its phone number reduced to digits.
pub struct OutboundRequest {
    pub phone_number: String,
    pub message: String,
}

/// The members of the request document.
pub open spec fn request_members(phone: Seq<char>, message: Seq<char>) -> Seq<(Seq<char>, JsonFieldView)> {
    seq![("phoneNumber"@, JsonFieldView::Text(phone)), ("message"@, JsonFieldView::Text(message))]
}

/// Checks that the session can carry a message and prepares the request.
/// On `Err` nothing is to be written to the mailbox.
pub fn prepare_dispatch(session: &SessionStatus, phone_number: &str, message: &str) -> (r: Result<
    OutboundRequest,
    BridgeError,
>)
    ensures
        r is Err <==> !is_connected(session@),
        r is Err ==> r->Err_0 is NotConnected && r->Err_0->NotConnected_0@ == session.status@,
        r is Ok ==> r->Ok_0.phone_number@ == digits_of(phone_number@) && r->Ok_0.message@
            == message@,
{
    if !session.is_connected() {
        return Err(BridgeError::NotConnected(session.status.clone()));
    }
    Ok(OutboundRequest { phone_number: normalize_phone(phone_number), message: String::from_str(message) })
}

impl OutboundRequest {
    /// The pretty JSON text of `message.json`.
    pub fn to_document(&self) -> (r: Result<String, BridgeError>)
        ensures
            r is Ok,
            r is Ok ==> r->Ok_0@ == pretty_object(request_members(self.phone_number@, self.message@)),
    {
        let members = vec![
            (String::from_str("phoneNumber"), JsonField::Text(self.phone_number.clone())),
            (String::from_str("message"), JsonField::Text(self.message.clone())),
        ];
        proof {
            assert(members_view(members@) =~= request_members(self.phone_number@, self.message@));
        }
        match pretty_json(&members) {
            Ok(text) => Ok(text),
            Err(e) => {
                let mut m = String::from_str("Failed to serialize message data: ");
                m.append(e.as_str());
                Err(BridgeError::Serialization(m))
            },
        }
    }
}

/// What a dispatch does after one poll.
#[derive(Debug, Clone, PartialEq, Eq)]
pub enum DispatchStep {
    /// Sleep one interval and poll again.
    Wait,
    /// The service took the request: the dispatch succeeds.
    Delivered,
    /// The service wrote an error: remove `message_error.txt` and fail with
    /// its text.
    Rejected(String),
    /// The deadline passed: remove `message.json` and fail with a timeout.
    TimedOut,
}

/// Whether `step` is the step due after a poll at `elapsed_ms` since the
/// request was written, given whether the request file is still there and
/// what the error artifact holds, if it exists. An error artifact settles the
/// exchange first; then the request file's absence; then the deadline, with
/// the request file still there.
pub open spec fn is_dispatch_step(
    elapsed_ms: u64,
    request_present: bool,
    error_text: Option<Seq<char>>,
    step: DispatchStep,
) -> bool {
    match error_text {
        Some(e) => step is Rejected && step->Rejected_0@ == e,
        None => if !request_present {
            step is Delivered
        } else if elapsed_ms >= DISPATCH_DEADLINE_MS {
            step is TimedOut
        } else {
            step is Wait
        },
    }
}

/// Whether a step removes the request file.
pub open spec fn removes_request(step: DispatchStep) -> bool {
    step is TimedOut
}

/// Whether a step removes the error artifact.
pub open spec fn removes_error_artifact(step: DispatchStep) -> bool {
    step is Rejected
}

/// Whether the request file is there after a step has been carried out.
pub open spec fn request_left_after(request_present: bool, step: DispatchStep) -> bool {
    request_present && !removes_request(step)
}

/// The result of the dispatch once a step settles it.
pub open spec fn step_outcome(step: DispatchStep) -> Option<Result<(), BridgeError>> {
    match step {
        DispatchStep::Wait => None,
        DispatchStep::Delivered => Some(Ok(())),
        DispatchStep::Rejected(e) => Some(Err(BridgeError::Service(e))),
        DispatchStep::TimedOut => Some(Err(BridgeError::Timeout)),
    }
}

/// Decides one poll of a dispatch. `error_text` is the content of
/// `message_error.txt` when that file exists.
pub fn dispatch_poll(elapsed_ms: u64, request_present: bool, error_text: Option<String>) -> (r: DispatchStep)
    ensures
        is_dispatch_step(elapsed_ms, request_present, error_text.deep_view(), r),
{
    match error_text {
        Some(e) => DispatchStep::Rejected(e),
        None => if !request_present {
            DispatchStep::Delivered
        } else if elapsed_ms >= DISPATCH_DEADLINE_MS {
            DispatchStep::TimedOut
        } else {
            DispatchStep::Wait
        },
    }
}

impl DispatchStep {
    /// The result of the dispatch, once this step settles it.
    pub fn outcome(&self) -> (r: Option<Result<(), BridgeError>>)
        ensures
            r == step_outcome(*self),
    {
        match self {
            DispatchStep::Wait => None,
            DispatchStep::Delivered => Some(Ok(())),
            DispatchStep::Rejected(e) => Some(Err(BridgeError::Service(e.clone()))),
            DispatchStep::TimedOut => Some(Err(BridgeError::Timeout)),
        }
    }
}

/// A dispatch settles in exactly one of three ways. Polls go on only while
/// the request file is there and the deadline has not passed, so the first
/// poll that settles the exchange decides it: the dispatch succeeds exactly
/// when that poll finds the request file gone with no error artifact; it
/// fails with the artifact's text exactly when the artifact is there; it
/// times out exactly when the request file is still there at the deadline
/// with no artifact, and then the request file is not left behind.
pub proof fn law_dispatch_settles(
    elapsed_ms: u64,
    request_present: bool,
    error_text: Option<Seq<char>>,
    step: DispatchStep,
)
    requires
        is_dispatch_step(elapsed_ms, request_present, error_text, step),
    ensures
        step_outcome(step) == Some(Ok::<(), BridgeError>(())) <==> (error_text is None
            && !request_present),
        (step_outcome(step) matches Some(Err(BridgeError::Service(m))) && error_text == Some(m@))
            <==> error_text is Some,
        step_outcome(step) == Some(Err::<(), BridgeError>(BridgeError::Timeout)) <==> (
        error_text is None && request_present && elapsed_ms >= DISPATCH_DEADLINE_MS),
        step_outcome(step) == Some(Err::<(), BridgeError>(BridgeError::Timeout))
            ==> !request_left_after(request_present, step),
        step_outcome(step) is None <==> (error_text is None && request_present && elapsed_ms
            < DISPATCH_DEADLINE_MS),
{
}

} // verus!
