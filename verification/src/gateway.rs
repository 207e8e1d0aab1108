//! The operations of the gateway.
//!
//! Each operation that needs the backend is one cycle: the host's arguments
//! become a request, the caller performs the round trip, and the outcome
//! becomes the reply. [`query_request`] and [`report_request`] decide what is
//! sent; [`query_reply`] and [`report_reply`] decide what the host receives.
//! [`ping`] needs no backend. Nothing is kept between invocations.

use vstd::prelude::*;
use crate::error::{GatewayError, GatewayErrorView, lemma_message_holds_description, occurs_in};
use crate::messages::{
    QueryRequest, QueryRequestView, QueryResponse, QueryResponseView, ReportRequest,
    ReportRequestView, ReportResponse, ReportResponseView,
};
use crate::payload::{
    json_model, lemma_query_payload_drops_nothing, lemma_report_payload_drops_nothing,
    query_payload, query_payload_model, report_payload, report_payload_model, JsonModel,
};

verus! {

/// The address at which the backend listens.
pub fn backend_endpoint() -> (endpoint: &'static str)
    ensures
        endpoint@ == "http://127.0.0.1:50051"@,
{
    "http://127.0.0.1:50051"
}

/// The request for a query: the three arguments as they were given. An empty
/// session identifier stays empty, for the backend to start a new session.
pub fn query_request(
    video_path: String,
    query: String,
    session_id: String,
) -> (request: QueryRequest)
    ensures
        request@ == (QueryRequestView {
            video_path: video_path@,
            query: query@,
            session_id: session_id@,
        }),
{
    QueryRequest { video_path, query, session_id }
}

/// The request for a report: the two arguments as they were given.
pub fn report_request(session_id: String, fmt: String) -> (request: ReportRequest)
    ensures
        request@ == (ReportRequestView { session_id: session_id@, format: fmt@ }),
{
    ReportRequest { session_id, format: fmt }
}

/// How a round trip for a query ended, by its views.
pub open spec fn query_outcome_view(
    outcome: Result<QueryResponse, GatewayError>,
) -> Result<QueryResponseView, GatewayErrorView> {
    match outcome {
        Ok(response) => Ok(response@),
        Err(failure) => Err(failure@),
    }
}

/// How a round trip for a report ended, by its views.
pub open spec fn report_outcome_view(
    outcome: Result<ReportResponse, GatewayError>,
) -> Result<ReportResponseView, GatewayErrorView> {
    match outcome {
        Ok(response) => Ok(response@),
        Err(failure) => Err(failure@),
    }
}

/// What a reply to the host holds: the model of the payload, or the text of
/// the error.
pub open spec fn reply_view(
    reply: Result<serde_json::Value, String>,
) -> Result<JsonModel, Seq<char>> {
    match reply {
        Ok(payload) => Ok(json_model(payload)),
        Err(text) => Err(text@),
    }
}

/// The reply that a query is owed: the payload of the backend's answer, or
/// the message of the failure.
pub open spec fn query_reply_model(
    outcome: Result<QueryResponseView, GatewayErrorView>,
) -> Result<JsonModel, Seq<char>> {
    match outcome {
        Ok(response) => Ok(query_payload_model(response)),
        Err(failure) => Err(failure.message()),
    }
}

/// The reply that a report request is owed: the payload of the backend's
/// answer, or the message of the failure.
pub open spec fn report_reply_model(
    outcome: Result<ReportResponseView, GatewayErrorView>,
) -> Result<JsonModel, Seq<char>> {
    match outcome {
        Ok(response) => Ok(report_payload_model(response)),
        Err(failure) => Err(failure.message()),
    }
}

/// The host's reply to a query, given how the round trip ended: the payload of
/// the backend's answer, or the message of the failure. There is nothing in
/// between.
pub fn query_reply(
    outcome: Result<QueryResponse, GatewayError>,
) -> (reply: Result<serde_json::Value, String>)
    ensures
        reply_view(reply) == query_reply_model(query_outcome_view(outcome)),
{
    match outcome {
        Ok(response) => Ok(query_payload(response)),
        Err(failure) => Err(failure.message()),
    }
}

/// The host's reply to a report request, given how the round trip ended: the
/// payload of the backend's answer, or the message of the failure.
pub fn report_reply(
    outcome: Result<ReportResponse, GatewayError>,
) -> (reply: Result<serde_json::Value, String>)
    ensures
        reply_view(reply) == report_reply_model(report_outcome_view(outcome)),
{
    match outcome {
        Ok(response) => Ok(report_payload(response)),
        Err(failure) => Err(failure.message()),
    }
}

/// Answers a liveness probe of the gateway itself. The backend has no part in
/// it.
pub fn ping() -> (reply: Result<String, String>)
    ensures
        reply matches Ok(text) && text@ == "pong"@,
{
    Ok("pong".to_owned())
}

/// When the round trip fails, both operations reply with an error, and its
/// text holds the description of the failure.
pub proof fn lemma_failure_is_reported(failure: GatewayErrorView)
    ensures
        query_reply_model(Err(failure)) == Err::<JsonModel, Seq<char>>(failure.message()),
        report_reply_model(Err(failure)) == Err::<JsonModel, Seq<char>>(failure.message()),
        occurs_in(failure.description(), failure.message()),
{
    lemma_message_holds_description(failure);
}

/// A reply is a payload exactly when the backend answered, and then it is the
/// whole answer: two answers with the same reply are the same answer.
pub proof fn lemma_query_reply_is_all_or_nothing(
    first: Result<QueryResponseView, GatewayErrorView>,
    second: Result<QueryResponseView, GatewayErrorView>,
)
    ensures
        query_reply_model(first) is Ok <==> first is Ok,
        first is Ok && query_reply_model(first) == query_reply_model(second) ==> first == second,
{
    if first is Ok && query_reply_model(first) == query_reply_model(second) {
        lemma_query_payload_drops_nothing(first->Ok_0, second->Ok_0);
    }
}

/// A reply is a payload exactly when the backend answered, and then it is the
/// whole answer: two answers with the same reply are the same answer.
pub proof fn lemma_report_reply_is_all_or_nothing(
    first: Result<ReportResponseView, GatewayErrorView>,
    second: Result<ReportResponseView, GatewayErrorView>,
)
    ensures
        report_reply_model(first) is Ok <==> first is Ok,
        first is Ok && report_reply_model(first) == report_reply_model(second) ==> first == second,
{
    if first is Ok && report_reply_model(first) == report_reply_model(second) {
        lemma_report_payload_drops_nothing(first->Ok_0, second->Ok_0);
    }
}

} // verus!
