use ms_executor::envelope::Header;
use ms_executor::envelope::HttpResponse;
use ms_executor::gateway::error_envelope;
use ms_executor::gateway::error_response;
use ms_executor::gateway::status_for;
use ms_executor::gateway::Action;
use ms_executor::gateway::BackendFailure;
use ms_executor::gateway::Event;
use ms_executor::gateway::Exchange;
use ms_executor::gateway::GatewayError;
use ms_executor::gateway::Phase;
use ms_executor::handlers::echo;
use ms_executor::handlers::pong;
use ms_executor::request::RequestHead;
use ms_executor::request::WireHeader;
use ms_executor::response::translate_response;
use ms_executor::response::OutboundResponse;
use ms_executor::response::ResponseHeader;
use ms_executor::version::version_from_tag;
use ms_executor::version::version_tag;
use ms_executor::version::HttpVersion;

fn head(version: HttpVersion) -> RequestHead {
    RequestHead {
        method: "POST".to_string(),
        uri: "/things?id=7".to_string(),
        version,
        headers: vec![
            WireHeader { name: "Content-Type".to_string(), value: b"text/plain".to_vec() },
            WireHeader { name: "X-Dup".to_string(), value: b"1".to_vec() },
            WireHeader { name: "X-Dup".to_string(), value: b"2".to_vec() },
        ],
    }
}

fn empty_response(status: u16) -> OutboundResponse {
    OutboundResponse { status, version: HttpVersion::Http11, headers: Vec::new(), body: Vec::new() }
}

#[test]
fn errors_map_to_their_statuses() {
    assert_eq!(status_for(GatewayError::BodyRead), 400);
    assert_eq!(status_for(GatewayError::Backend(BackendFailure::Unavailable)), 502);
    assert_eq!(status_for(GatewayError::Backend(BackendFailure::Failed)), 502);
    assert_eq!(status_for(GatewayError::Backend(BackendFailure::TimedOut)), 504);
    assert_eq!(status_for(GatewayError::ResponseBuild), 500);
}

#[test]
fn error_envelope_is_minimal() {
    let env = error_envelope(GatewayError::Backend(BackendFailure::TimedOut));
    assert_eq!(
        env,
        HttpResponse {
            version: "HTTP/1.1".to_string(),
            status: 504,
            headers: Vec::new(),
            body: Vec::new(),
        }
    );
}

#[test]
fn error_response_has_status_and_empty_body() {
    assert_eq!(error_response(GatewayError::BodyRead), empty_response(400));
    assert_eq!(error_response(GatewayError::Backend(BackendFailure::Unavailable)), empty_response(502));
    assert_eq!(error_response(GatewayError::Backend(BackendFailure::Failed)), empty_response(502));
    assert_eq!(error_response(GatewayError::Backend(BackendFailure::TimedOut)), empty_response(504));
    assert_eq!(error_response(GatewayError::ResponseBuild), empty_response(500));
}

#[test]
fn body_read_leads_to_one_backend_call() {
    let exchange = Exchange::begin(head(HttpVersion::H2));
    assert_eq!(exchange.current_phase(), Phase::ReadingBody);
    let (exchange, action) = exchange.step(Event::BodyRead(vec![0, 1, 2, 0]));
    assert_eq!(exchange.current_phase(), Phase::CallingBackend);
    match action {
        Action::CallBackend(env) => {
            assert_eq!(env.method, "POST");
            assert_eq!(env.uri, "/things?id=7");
            assert_eq!(env.version, "HTTP/2.0");
            assert_eq!(env.body, vec![0, 1, 2, 0]);
            assert_eq!(env.id.len(), 36);
            assert_eq!(
                env.headers,
                vec![
                    Header { key: "Content-Type".to_string(), values: vec!["text/plain".to_string()] },
                    Header { key: "X-Dup".to_string(), values: vec!["1".to_string()] },
                    Header { key: "X-Dup".to_string(), values: vec!["2".to_string()] },
                ]
            );
        }
        other => panic!("expected a backend call, got {:?}", other),
    }
}

#[test]
fn failed_body_is_answered_with_400_and_no_backend_call() {
    let exchange = Exchange::begin(head(HttpVersion::Http11));
    let (exchange, action) = exchange.step(Event::BodyFailed);
    assert_eq!(exchange.current_phase(), Phase::Finished);
    assert_eq!(action, Action::Respond(empty_response(400)));
    let (exchange, action) = exchange.step(Event::BodyRead(Vec::new()));
    assert_eq!(exchange.current_phase(), Phase::Finished);
    assert_eq!(action, Action::Nothing);
}

#[test]
fn backend_reply_is_translated() {
    let exchange = Exchange::begin(head(HttpVersion::Http11));
    let (exchange, _) = exchange.step(Event::BodyRead(Vec::new()));
    let (exchange, action) = exchange.step(Event::BackendReplied(pong()));
    assert_eq!(exchange.current_phase(), Phase::Finished);
    assert_eq!(
        action,
        Action::Respond(OutboundResponse {
            status: 200,
            version: HttpVersion::Http11,
            headers: vec![
                ResponseHeader { name: "test1".to_string(), value: "1234".to_string() },
                ResponseHeader { name: "test2".to_string(), value: "1234".to_string() },
            ],
            body: b"Pong".to_vec(),
        })
    );
}

#[test]
fn backend_unavailable_is_answered_with_502() {
    let exchange = Exchange::begin(head(HttpVersion::Http11));
    let (exchange, _) = exchange.step(Event::BodyRead(Vec::new()));
    let (exchange, action) = exchange.step(Event::BackendFailed(BackendFailure::Unavailable));
    assert_eq!(exchange.current_phase(), Phase::Finished);
    assert_eq!(action, Action::Respond(empty_response(502)));
}

#[test]
fn backend_timeout_is_answered_with_504() {
    let exchange = Exchange::begin(head(HttpVersion::Http11));
    let (exchange, _) = exchange.step(Event::BodyRead(Vec::new()));
    let (_, action) = exchange.step(Event::BackendFailed(BackendFailure::TimedOut));
    assert_eq!(action, Action::Respond(empty_response(504)));
}

#[test]
fn backend_error_is_answered_with_502() {
    let exchange = Exchange::begin(head(HttpVersion::Http11));
    let (exchange, _) = exchange.step(Event::BodyRead(Vec::new()));
    let (_, action) = exchange.step(Event::BackendFailed(BackendFailure::Failed));
    assert_eq!(action, Action::Respond(empty_response(502)));
}

#[test]
fn events_out_of_turn_are_dropped() {
    let exchange = Exchange::begin(head(HttpVersion::Http11));
    let (exchange, action) = exchange.step(Event::BackendReplied(pong()));
    assert_eq!(exchange.current_phase(), Phase::ReadingBody);
    assert_eq!(action, Action::Nothing);
    let (exchange, action) = exchange.step(Event::BackendFailed(BackendFailure::Failed));
    assert_eq!(exchange.current_phase(), Phase::ReadingBody);
    assert_eq!(action, Action::Nothing);
    let (exchange, _) = exchange.step(Event::BodyRead(Vec::new()));
    let (exchange, action) = exchange.step(Event::BodyRead(Vec::new()));
    assert_eq!(exchange.current_phase(), Phase::CallingBackend);
    assert_eq!(action, Action::Nothing);
    let (exchange, action) = exchange.step(Event::BodyFailed);
    assert_eq!(exchange.current_phase(), Phase::CallingBackend);
    assert_eq!(action, Action::Nothing);
    let (exchange, _) = exchange.step(Event::BackendReplied(pong()));
    let (exchange, action) = exchange.step(Event::BackendReplied(pong()));
    assert_eq!(exchange.current_phase(), Phase::Finished);
    assert_eq!(action, Action::Nothing);
}

#[test]
fn a_request_leads_to_at_most_one_call_and_one_response() {
    let events = vec![
        Event::BackendFailed(BackendFailure::Failed),
        Event::BodyRead(vec![1]),
        Event::BodyRead(vec![2]),
        Event::BodyFailed,
        Event::BackendReplied(pong()),
        Event::BackendReplied(pong()),
        Event::BackendFailed(BackendFailure::TimedOut),
        Event::BodyRead(vec![3]),
    ];
    let mut exchange = Exchange::begin(head(HttpVersion::Http11));
    let mut calls = 0;
    let mut responses = 0;
    for event in events {
        let (next, action) = exchange.step(event);
        exchange = next;
        match action {
            Action::CallBackend(_) => calls += 1,
            Action::Respond(_) => responses += 1,
            Action::Nothing => {}
        }
    }
    assert_eq!(calls, 1);
    assert_eq!(responses, 1);
    assert_eq!(exchange.current_phase(), Phase::Finished);
}

#[test]
fn round_trip_through_an_echoing_backend() {
    let versions = [
        (HttpVersion::Http09, HttpVersion::Http09),
        (HttpVersion::Http10, HttpVersion::Http10),
        (HttpVersion::Http11, HttpVersion::Http11),
        (HttpVersion::H2, HttpVersion::H2),
        (HttpVersion::H3, HttpVersion::H3),
        (HttpVersion::Unknown, HttpVersion::Http11),
    ];
    for (inbound, outbound) in versions {
        let exchange = Exchange::begin(head(inbound));
        let body: Vec<u8> = vec![0x00, 0x01, 0xfe, 0xff, 0x00];
        let (exchange, action) = exchange.step(Event::BodyRead(body.clone()));
        let env = match action {
            Action::CallBackend(env) => env,
            other => panic!("expected a backend call, got {:?}", other),
        };
        assert_eq!(env.method, "POST");
        assert_eq!(env.uri, "/things?id=7");
        let (_, action) = exchange.step(Event::BackendReplied(echo(env)));
        assert_eq!(
            action,
            Action::Respond(OutboundResponse {
                status: 200,
                version: outbound,
                headers: vec![
                    ResponseHeader { name: "Content-Type".to_string(), value: "text/plain".to_string() },
                    ResponseHeader { name: "X-Dup".to_string(), value: "1".to_string() },
                    ResponseHeader { name: "X-Dup".to_string(), value: "2".to_string() },
                ],
                body,
            })
        );
    }
}

#[test]
fn echo_sends_back_what_it_got() {
    let exchange = Exchange::begin(head(HttpVersion::H3));
    let (_, action) = exchange.step(Event::BodyRead(b"payload".to_vec()));
    let env = match action {
        Action::CallBackend(env) => env,
        other => panic!("expected a backend call, got {:?}", other),
    };
    let headers = env.headers.clone();
    let response = echo(env);
    assert_eq!(response.status, 200);
    assert_eq!(response.version, "HTTP/3.0");
    assert_eq!(response.headers, headers);
    assert_eq!(response.body, b"payload".to_vec());
}

#[test]
fn pong_is_fixed() {
    let response = pong();
    assert_eq!(
        response,
        HttpResponse {
            version: "HTTP/1.1".to_string(),
            status: 200,
            headers: vec![
                Header { key: "test1".to_string(), values: vec!["1234".to_string()] },
                Header { key: "test2".to_string(), values: vec!["1234".to_string()] },
            ],
            body: "Pong".as_bytes().to_vec(),
        }
    );
    assert_eq!(translate_response(response).version, HttpVersion::Http11);
}

#[test]
fn pong_answers_within_the_envelope_format() {
    let response = pong();
    let tags = ["HTTP/0.9", "HTTP/1.0", "HTTP/1.1", "HTTP/2.0", "HTTP/3.0"];
    assert!(tags.contains(&response.version.as_str()));
    assert!(100 <= response.status && response.status <= 599);
    assert_eq!(version_tag(version_from_tag(&response.version)), response.version);
}
