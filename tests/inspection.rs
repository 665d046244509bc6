use inspect_service::capture::{LogLevel, LogRecord};
use inspect_service::inspect::{make_request_response_inspecter, Action, Stage};

fn describe(logs: &[LogRecord]) -> Vec<String> {
    logs.iter()
        .map(|r| match r {
            LogRecord::Body { level, direction, text } => {
                let l = if *level == LogLevel::Info { "info" } else { "debug" };
                format!("{} {} {}", l, direction, text)
            }
            LogRecord::RequestHead => String::from("head"),
        })
        .collect()
}

#[test]
fn request_body_forwarded_unchanged() {
    let ins = make_request_response_inspecter(true);
    let mut x = ins.begin(false);
    let body = vec![7u8, 0, 200, 3];
    let step = x.on_request_body(Ok(body.clone()));
    match step.action {
        Action::Forward(b) => assert_eq!(b, body),
        _ => panic!("expected the request to be forwarded"),
    }
    assert!(x.stage == Stage::Dispatching);
    assert_eq!(describe(&step.logs), vec![String::from("head")]);
}

#[test]
fn gate_closed_passes_response_through_at_debug() {
    let ins = make_request_response_inspecter(false);
    let mut x = ins.begin(true);
    let step = x.on_request_body(Ok(b"ping".to_vec()));
    assert_eq!(describe(&step.logs), vec![String::from("head")]);
    assert!(matches!(x.on_response(), Action::PassThrough));
    assert!(x.stage == Stage::Finished);
}

#[test]
fn gate_closed_passes_response_through_at_info() {
    let ins = make_request_response_inspecter(false);
    let mut x = ins.begin(false);
    x.on_request_body(Ok(Vec::new()));
    assert!(matches!(x.on_response(), Action::PassThrough));
}

#[test]
fn gate_open_without_debug_passes_response_through() {
    let ins = make_request_response_inspecter(true);
    let mut x = ins.begin(false);
    let step = x.on_request_body(Ok(b"ping".to_vec()));
    assert_eq!(describe(&step.logs), vec![String::from("info request ping"), String::from("head")]);
    assert!(matches!(x.on_response(), Action::PassThrough));
}

#[test]
fn gate_open_at_debug_logs_both_bodies_in_order() {
    let ins = make_request_response_inspecter(true);
    let mut x = ins.begin(true);
    let mut all = Vec::new();
    let step = x.on_request_body(Ok(b"ping".to_vec()));
    assert!(matches!(step.action, Action::Forward(_)));
    all.extend(describe(&step.logs));
    assert!(matches!(x.on_response(), Action::DrainResponse));
    assert!(x.stage == Stage::AwaitingResponseBody);
    let step = x.on_response_body(Ok(b"pong".to_vec()));
    match step.action {
        Action::Respond(b) => assert_eq!(b, b"pong".to_vec()),
        _ => panic!("expected the response to be sent"),
    }
    all.extend(describe(&step.logs));
    assert_eq!(
        all,
        vec![
            String::from("info request ping"),
            String::from("head"),
            String::from("debug response pong"),
        ]
    );
    assert!(x.stage == Stage::Finished);
}

#[test]
fn request_drain_failure_never_reaches_handler() {
    let ins = make_request_response_inspecter(true);
    let mut x = ins.begin(true);
    let step = x.on_request_body(Err(String::from("stream truncated")));
    match step.action {
        Action::Reject { status, message } => {
            assert_eq!(status, 400);
            assert!(message.contains("request"));
            assert_eq!(message, "failed to read request body: stream truncated");
        }
        _ => panic!("expected a rejection"),
    }
    assert!(step.logs.is_empty());
    assert!(x.stage == Stage::Finished);
}

#[test]
fn response_drain_failure_is_bad_request() {
    let ins = make_request_response_inspecter(true);
    let mut x = ins.begin(true);
    x.on_request_body(Ok(Vec::new()));
    x.on_response();
    let step = x.on_response_body(Err(String::from("reset")));
    match step.action {
        Action::Reject { status, message } => {
            assert_eq!(status, 400);
            assert_eq!(message, "failed to read response body: reset");
        }
        _ => panic!("expected a rejection"),
    }
    assert!(x.stage == Stage::Finished);
}

#[test]
fn binary_response_body_is_sent_but_not_logged() {
    let ins = make_request_response_inspecter(true);
    let mut x = ins.begin(true);
    x.on_request_body(Ok(Vec::new()));
    x.on_response();
    let body = vec![0x1fu8, 0x8b, 0xff];
    let step = x.on_response_body(Ok(body.clone()));
    assert!(step.logs.is_empty());
    match step.action {
        Action::Respond(b) => assert_eq!(b, body),
        _ => panic!("expected the response to be sent"),
    }
}
