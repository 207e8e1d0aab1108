//! Failures of a round trip to the backend, and the text that reports each to
//! the host shell.
//!
//! A failure is kept as a tagged value inside the gateway and becomes a string
//! only at the boundary, through [`GatewayError::message`].

use vstd::prelude::*;
use vstd::string::StringExecFns;

verus! {

/// `tonic::transport::Error`, carried through without a look inside.
#[verifier::external_type_specification]
#[verifier::external_body]
pub struct ExTransportError(tonic::transport::Error);

/// `tonic::Status`, carried through without a look inside.
#[verifier::external_type_specification]
#[verifier::external_body]
pub struct ExStatus(tonic::Status);

/// The descriptions that the transport gives of its failures.
pub open spec fn is_transport_description(text: Seq<char>) -> bool {
    ||| text == "transport error"@
    ||| text == "invalid URI"@
    ||| text == "user agent is not a valid header value"@
}

/// The text that `tonic::transport::Error`'s `Display` gives for an error.
pub uninterp spec fn transport_description(error: tonic::transport::Error) -> Seq<char>;

/// `tonic::transport::Error`'s `Display`, through `to_string`: trusted to give
/// the text that belongs to this error, the same for the same error, and that
/// text to be one of the three fixed descriptions that the transport has for
/// its failures.
#[verifier::external_body]
fn transport_error_text(error: &tonic::transport::Error) -> (text: String)
    ensures
        text@ == transport_description(*error),
        is_transport_description(text@),
{
    error.to_string()
}

/// The text that `tonic::Status`'s `Display` gives for a status: its code,
/// message, details and metadata, written out one after the other.
pub uninterp spec fn status_description(status: tonic::Status) -> Seq<char>;

/// `tonic::Status`'s `Display`, through `to_string`: trusted to give the text
/// that belongs to this status, the same for the same status. Nothing is
/// claimed of what the text holds.
#[verifier::external_body]
fn status_text(status: &tonic::Status) -> (text: String)
    ensures
        text@ == status_description(*status),
{
    status.to_string()
}

/// Why a round trip to the backend gave no answer.
#[derive(Debug, Clone, PartialEq, Eq)]
pub enum GatewayError {
    /// The channel to the backend could not be established.
    Connection { description: String },
    /// The call did not complete, or the backend reported a failure.
    Rpc { description: String },
}

/// The view of a [`GatewayError`].
pub ghost enum GatewayErrorView {
    Connection { description: Seq<char> },
    Rpc { description: Seq<char> },
}

impl View for GatewayError {
    type V = GatewayErrorView;

    open spec fn view(&self) -> GatewayErrorView {
        match self {
            GatewayError::Connection { description } => GatewayErrorView::Connection {
                description: description@,
            },
            GatewayError::Rpc { description } => GatewayErrorView::Rpc {
                description: description@,
            },
        }
    }
}

/// What precedes the description in the message of a failed call.
pub open spec fn rpc_failure_prefix() -> Seq<char> {
    "gRPC 调用失败: "@
}

impl GatewayErrorView {
    /// The description of the underlying failure.
    pub open spec fn description(self) -> Seq<char> {
        match self {
            GatewayErrorView::Connection { description } => description,
            GatewayErrorView::Rpc { description } => description,
        }
    }

    /// The text that reports the failure to the host: a connection failure's
    /// description as it is, a failed call's description after the prefix.
    pub open spec fn message(self) -> Seq<char> {
        match self {
            GatewayErrorView::Connection { description } => description,
            GatewayErrorView::Rpc { description } => rpc_failure_prefix() + description,
        }
    }
}

/// Whether `part` occurs in `whole` as a run of consecutive characters.
pub open spec fn occurs_in(part: Seq<char>, whole: Seq<char>) -> bool {
    exists|start: int|
        0 <= start && start + part.len() <= whole.len()
            && #[trigger] whole.subrange(start, start + part.len()) == part
}

impl GatewayError {
    /// The failure to establish the channel, described as the transport
    /// describes it.
    pub fn from_transport(error: &tonic::transport::Error) -> (failure: GatewayError)
        ensures
            failure@ == (GatewayErrorView::Connection {
                description: transport_description(*error),
            }),
            is_transport_description(failure@.description()),
    {
        GatewayError::Connection { description: transport_error_text(error) }
    }

    /// The failure of a call, described as the status describes it.
    pub fn from_status(status: &tonic::Status) -> (failure: GatewayError)
        ensures
            failure@ == (GatewayErrorView::Rpc { description: status_description(*status) }),
    {
        GatewayError::Rpc { description: status_text(status) }
    }

    /// The text that reports this failure to the host.
    pub fn message(&self) -> (text: String)
        ensures
            text@ == self@.message(),
    {
        match self {
            GatewayError::Connection { description } => description.clone(),
            GatewayError::Rpc { description } => {
                "gRPC 调用失败: ".to_owned().concat(description.as_str())
            },
        }
    }
}

/// Every failure's message holds the description of the underlying failure.
pub proof fn lemma_message_holds_description(failure: GatewayErrorView)
    ensures
        occurs_in(failure.description(), failure.message()),
{
    let part = failure.description();
    let whole = failure.message();
    let start: int = whole.len() - part.len();
    assert(whole.subrange(start, start + part.len()) =~= part);
}

} // verus!
