//! The messages that cross the boundary to the backend, with their
//! mathematical views.

use vstd::prelude::*;

verus! {

/// What the backend needs to answer a query.
#[derive(Debug, Clone, PartialEq, Eq)]
pub struct QueryRequest {
    /// Locator of the media resource; resolved by the backend.
    pub video_path: String,
    /// Free text of the question; may be empty.
    pub query: String,
    /// Session to continue; empty to start a new one.
    pub session_id: String,
}

/// The view of a [`QueryRequest`].
pub ghost struct QueryRequestView {
    pub video_path: Seq<char>,
    pub query: Seq<char>,
    pub session_id: Seq<char>,
}

impl View for QueryRequest {
    type V = QueryRequestView;

    open spec fn view(&self) -> QueryRequestView {
        QueryRequestView {
            video_path: self.video_path@,
            query: self.query@,
            session_id: self.session_id@,
        }
    }
}

/// The backend's answer to a query.
#[derive(Debug, Clone, PartialEq, Eq)]
pub struct QueryResponse {
    /// The session the answer belongs to; may be newly assigned by the backend.
    pub session_id: String,
    /// The answer text.
    pub answer: String,
    /// References to what the backend produced, in the backend's order.
    pub artifacts: Vec<String>,
    /// Whether the backend needs clarification before it can complete the task.
    pub needs_clarification: bool,
    /// The clarification prompt; passed through whatever the flag says.
    pub clarification_prompt: String,
}

/// The view of a [`QueryResponse`].
pub ghost struct QueryResponseView {
    pub session_id: Seq<char>,
    pub answer: Seq<char>,
    pub artifacts: Seq<Seq<char>>,
    pub needs_clarification: bool,
    pub clarification_prompt: Seq<char>,
}

/// The texts that a sequence of strings holds, in order.
pub open spec fn texts_of(strings: Seq<String>) -> Seq<Seq<char>> {
    Seq::new(strings.len(), |i: int| strings[i]@)
}

impl View for QueryResponse {
    type V = QueryResponseView;

    open spec fn view(&self) -> QueryResponseView {
        QueryResponseView {
            session_id: self.session_id@,
            answer: self.answer@,
            artifacts: texts_of(self.artifacts@),
            needs_clarification: self.needs_clarification,
            clarification_prompt: self.clarification_prompt@,
        }
    }
}

/// What the backend needs to generate a report.
#[derive(Debug, Clone, PartialEq, Eq)]
pub struct ReportRequest {
    /// The session to report on.
    pub session_id: String,
    /// Name of the output format; judged by the backend alone.
    pub format: String,
}

/// The view of a [`ReportRequest`].
pub ghost struct ReportRequestView {
    pub session_id: Seq<char>,
    pub format: Seq<char>,
}

impl View for ReportRequest {
    type V = ReportRequestView;

    open spec fn view(&self) -> ReportRequestView {
        ReportRequestView { session_id: self.session_id@, format: self.format@ }
    }
}

/// The backend's answer to a report request.
#[derive(Debug, Clone, PartialEq, Eq)]
pub struct ReportResponse {
    /// The session the report belongs to.
    pub session_id: String,
    /// Where the backend stored the report.
    pub path: String,
}

/// The view of a [`ReportResponse`].
pub ghost struct ReportResponseView {
    pub session_id: Seq<char>,
    pub path: Seq<char>,
}

impl View for ReportResponse {
    type V = ReportResponseView;

    open spec fn view(&self) -> ReportResponseView {
        ReportResponseView { session_id: self.session_id@, path: self.path@ }
    }
}

} // verus!
