use command_gateway::error::GatewayError;
use command_gateway::gateway::{
    backend_endpoint, ping, query_reply, query_request, report_reply, report_request,
};
use command_gateway::messages::{QueryRequest, QueryResponse, ReportRequest, ReportResponse};
use serde_json::Value;

fn text(s: &str) -> Value {
    Value::String(s.to_string())
}

fn object(members: Vec<(&str, Value)>) -> Value {
    let mut map = serde_json::Map::new();
    for (key, value) in members {
        map.insert(key.to_string(), value);
    }
    Value::Object(map)
}

fn answered(
    session_id: &str,
    answer: &str,
    artifacts: Vec<&str>,
    needs_clarification: bool,
    clarification_prompt: &str,
) -> QueryResponse {
    QueryResponse {
        session_id: session_id.to_string(),
        answer: answer.to_string(),
        artifacts: artifacts.into_iter().map(|a| a.to_string()).collect(),
        needs_clarification,
        clarification_prompt: clarification_prompt.to_string(),
    }
}

#[test]
fn ping_answers_pong() {
    assert_eq!(ping(), Ok("pong".to_string()));
}

#[test]
fn ping_answers_the_same_every_time() {
    let first = ping();
    let failed: Result<Value, String> = query_reply(Err(GatewayError::Connection {
        description: "transport error".to_string(),
    }));
    assert!(failed.is_err());
    assert_eq!(ping(), first);
    assert_eq!(ping(), Ok("pong".to_string()));
}

#[test]
fn backend_endpoint_is_the_local_address() {
    assert_eq!(backend_endpoint(), "http://127.0.0.1:50051");
}

#[test]
fn query_request_carries_the_arguments_verbatim() {
    let request = query_request(
        "rtsp://cam1".to_string(),
        "how many people are visible?".to_string(),
        "s1".to_string(),
    );
    assert_eq!(
        request,
        QueryRequest {
            video_path: "rtsp://cam1".to_string(),
            query: "how many people are visible?".to_string(),
            session_id: "s1".to_string(),
        }
    );
}

#[test]
fn query_request_forwards_an_empty_session_unchanged() {
    let request = query_request("rtsp://cam1".to_string(), "anything?".to_string(), String::new());
    assert_eq!(request.session_id, "");
    assert!(request.session_id.is_empty());
}

#[test]
fn query_request_accepts_an_empty_query() {
    let request = query_request("clip.mp4".to_string(), String::new(), "s9".to_string());
    assert_eq!(request.video_path, "clip.mp4");
    assert_eq!(request.query, "");
    assert_eq!(request.session_id, "s9");
}

#[test]
fn query_request_does_not_trim_or_rewrite() {
    let request = query_request(
        "  /videos/a b.mp4 ".to_string(),
        "\tWho is there?\n".to_string(),
        " S-1 ".to_string(),
    );
    assert_eq!(request.video_path, "  /videos/a b.mp4 ");
    assert_eq!(request.query, "\tWho is there?\n");
    assert_eq!(request.session_id, " S-1 ");
}

#[test]
fn query_request_keeps_text_outside_ascii() {
    let request =
        query_request("/视频/一.mp4".to_string(), "画面里有几个人？".to_string(), "会话".to_string());
    assert_eq!(request.video_path, "/视频/一.mp4");
    assert_eq!(request.query, "画面里有几个人？");
    assert_eq!(request.session_id, "会话");
}

#[test]
fn report_request_carries_the_arguments_verbatim() {
    let request = report_request("s1".to_string(), "pdf".to_string());
    assert_eq!(
        request,
        ReportRequest { session_id: "s1".to_string(), format: "pdf".to_string() }
    );
}

#[test]
fn report_request_does_not_judge_the_format() {
    let request = report_request(String::new(), " no such format ".to_string());
    assert_eq!(request.session_id, "");
    assert_eq!(request.format, " no such format ");
}

#[test]
fn query_scenario_yields_the_backend_reply() {
    let request = query_request(
        "rtsp://cam1".to_string(),
        "how many people are visible?".to_string(),
        String::new(),
    );
    assert_eq!(request.video_path, "rtsp://cam1");
    assert_eq!(request.query, "how many people are visible?");
    assert_eq!(request.session_id, "");

    let reply = query_reply(Ok(answered("s1", "3 people", vec![], false, "")));
    let expected = object(vec![
        ("session_id", text("s1")),
        ("answer", text("3 people")),
        ("artifacts", Value::Array(vec![])),
        ("needs_clarification", Value::Bool(false)),
        ("clarification_prompt", text("")),
    ]);
    assert_eq!(reply, Ok(expected));
}

#[test]
fn report_scenario_yields_the_backend_reply() {
    let request = report_request("s1".to_string(), "pdf".to_string());
    assert_eq!(request.session_id, "s1");
    assert_eq!(request.format, "pdf");

    let reply = report_reply(Ok(ReportResponse {
        session_id: "s1".to_string(),
        path: "/tmp/out.pdf".to_string(),
    }));
    let expected = object(vec![("session_id", text("s1")), ("path", text("/tmp/out.pdf"))]);
    assert_eq!(reply, Ok(expected));
}

#[test]
fn query_reply_holds_every_field_of_the_answer() {
    let reply = query_reply(Ok(answered(
        "s2",
        "which camera?",
        vec!["frame-1.png", "clip-7.mp4"],
        true,
        "Please name the camera.",
    )))
    .unwrap();
    let members = reply.as_object().unwrap();
    assert_eq!(members.len(), 5);
    assert_eq!(members.get("session_id"), Some(&text("s2")));
    assert_eq!(members.get("answer"), Some(&text("which camera?")));
    assert_eq!(
        members.get("artifacts"),
        Some(&Value::Array(vec![text("frame-1.png"), text("clip-7.mp4")]))
    );
    assert_eq!(members.get("needs_clarification"), Some(&Value::Bool(true)));
    assert_eq!(members.get("clarification_prompt"), Some(&text("Please name the camera.")));
}

#[test]
fn query_reply_passes_an_inconsistent_prompt_through() {
    let reply = query_reply(Ok(answered("s3", "done", vec![], false, "left over"))).unwrap();
    assert_eq!(reply["needs_clarification"], Value::Bool(false));
    assert_eq!(reply["clarification_prompt"], text("left over"));

    let reply = query_reply(Ok(answered("s3", "", vec![], true, ""))).unwrap();
    assert_eq!(reply["needs_clarification"], Value::Bool(true));
    assert_eq!(reply["clarification_prompt"], text(""));
}

#[test]
fn query_reply_reports_a_connection_failure_verbatim() {
    let reply = query_reply(Err(GatewayError::Connection {
        description: "transport error".to_string(),
    }));
    assert_eq!(reply, Err("transport error".to_string()));
}

#[test]
fn query_reply_reports_a_failed_call_after_the_prefix() {
    let reply = query_reply(Err(GatewayError::Rpc { description: "deadline expired".to_string() }));
    assert_eq!(reply, Err("gRPC 调用失败: deadline expired".to_string()));
}

#[test]
fn report_reply_reports_a_connection_failure_verbatim() {
    let reply = report_reply(Err(GatewayError::Connection {
        description: "transport error".to_string(),
    }));
    assert_eq!(reply, Err("transport error".to_string()));
}

#[test]
fn report_reply_reports_a_failed_call_after_the_prefix() {
    let reply =
        report_reply(Err(GatewayError::Rpc { description: "unsupported format".to_string() }));
    assert_eq!(reply, Err("gRPC 调用失败: unsupported format".to_string()));
}

#[test]
fn report_reply_holds_both_fields_of_the_answer() {
    let reply = report_reply(Ok(ReportResponse {
        session_id: "会话-7".to_string(),
        path: "/var/reports/七.html".to_string(),
    }))
    .unwrap();
    let members = reply.as_object().unwrap();
    assert_eq!(members.len(), 2);
    assert_eq!(members.get("session_id"), Some(&text("会话-7")));
    assert_eq!(members.get("path"), Some(&text("/var/reports/七.html")));
}

#[test]
fn unrelated_invocations_do_not_interfere() {
    let query = query_request("rtsp://cam1".to_string(), "who?".to_string(), "a".to_string());
    let report = report_request("b".to_string(), "pdf".to_string());
    assert_eq!(query.session_id, "a");
    assert_eq!(report.session_id, "b");

    let report_done = report_reply(Ok(ReportResponse {
        session_id: "b".to_string(),
        path: "/tmp/b.pdf".to_string(),
    }));
    let query_done = query_reply(Ok(answered("a", "nobody", vec!["a.png"], false, "")));

    let alone_query = query_reply(Ok(answered("a", "nobody", vec!["a.png"], false, "")));
    let alone_report = report_reply(Ok(ReportResponse {
        session_id: "b".to_string(),
        path: "/tmp/b.pdf".to_string(),
    }));
    assert_eq!(query_done, alone_query);
    assert_eq!(report_done, alone_report);
    assert_eq!(query_done.unwrap()["session_id"], text("a"));
    assert_eq!(report_done.unwrap()["session_id"], text("b"));
}

#[test]
fn a_failure_of_one_invocation_leaves_the_next_intact() {
    let failed =
        query_reply(Err(GatewayError::Rpc { description: "backend down".to_string() }));
    assert!(failed.is_err());
    let next = report_reply(Ok(ReportResponse {
        session_id: "s1".to_string(),
        path: "/tmp/out.pdf".to_string(),
    }));
    assert_eq!(
        next,
        Ok(object(vec![("session_id", text("s1")), ("path", text("/tmp/out.pdf"))]))
    );
    assert_eq!(ping(), Ok("pong".to_string()));
}
