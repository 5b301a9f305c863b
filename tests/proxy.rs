use paracord_gateway::error::ApiError;
use paracord_gateway::proxy::{
    build_target, forward_headers, prepare_http_request, relay_response, BackendEvent,
    BackendRelay, BackendRelayStep, BackendResponse, ClientRelay, ClientRelayStep, Direction,
    Frame, Header, Tunnel, PROXY_BODY_LIMIT,
};

fn header(name: &str, value: &str) -> Header {
    Header { name: name.to_string(), value: value.as_bytes().to_vec() }
}

#[test]
fn http_target_strips_prefix_and_keeps_query() {
    assert_eq!(
        build_target("http://127.0.0.1:7880", "/livekit/twirp/x", Some("a=1"), false),
        "http://127.0.0.1:7880/twirp/x?a=1"
    );
    assert_eq!(build_target("http://h:1", "/other", None, false), "http://h:1/other");
    assert_eq!(build_target("http://h:1", "/livekit/rtc", Some(""), false), "http://h:1/rtc?");
}

#[test]
fn websocket_target_switches_scheme() {
    assert_eq!(
        build_target("http://127.0.0.1:7880", "/livekit/rtc", Some("access_token=t"), true),
        "ws://127.0.0.1:7880/rtc?access_token=t"
    );
    assert_eq!(build_target("https://lk.example", "/livekit/rtc", None, true), "wss://lk.example/rtc");
    assert_eq!(build_target("unix:/sock", "/livekit", None, true), "unix:/sock");
}

#[test]
fn client_close_half_closes_backend_and_ends_tunnel() {
    let mut relay = ClientRelay::new();
    assert_eq!(
        relay.on_client(Some(Frame::Text("hi".to_string()))),
        ClientRelayStep::Forward(Frame::Text("hi".to_string()))
    );
    assert!(!relay.done);
    assert_eq!(relay.on_client(Some(Frame::Close)), ClientRelayStep::HalfCloseBackend);
    assert!(relay.done);
    let mut tunnel = Tunnel::open();
    assert_eq!(tunnel.complete(Direction::ClientToBackend), Some(Direction::BackendToClient));
    assert_eq!(tunnel, Tunnel { client_to_backend: false, backend_to_client: false });
    assert_eq!(tunnel.complete(Direction::BackendToClient), None);
}

#[test]
fn backend_close_reaches_client_as_close() {
    let mut relay = BackendRelay::new();
    assert_eq!(
        relay.on_backend(BackendEvent::Frame(Frame::Binary(vec![1, 2]))),
        BackendRelayStep::Forward(Frame::Binary(vec![1, 2]))
    );
    assert_eq!(relay.on_backend(BackendEvent::RawFrame), BackendRelayStep::Skip);
    assert_eq!(relay.on_backend(BackendEvent::Frame(Frame::Close)), BackendRelayStep::CloseClient);
    assert!(relay.done);
    let mut tunnel = Tunnel::open();
    assert_eq!(tunnel.complete(Direction::BackendToClient), Some(Direction::ClientToBackend));
}

#[test]
fn keepalive_pings_the_client_only() {
    let mut relay = BackendRelay::new();
    assert_eq!(
        relay.on_backend(BackendEvent::KeepaliveTick),
        BackendRelayStep::Forward(Frame::Ping(vec![]))
    );
    assert!(!relay.done);
}

#[test]
fn stream_end_and_send_failure_end_a_direction() {
    let mut c = ClientRelay::new();
    assert_eq!(c.on_client(None), ClientRelayStep::HalfCloseBackend);
    let mut c = ClientRelay::new();
    assert_eq!(c.on_send_failed(), ClientRelayStep::HalfCloseBackend);
    assert!(c.done);
    let mut b = BackendRelay::new();
    assert_eq!(b.on_backend(BackendEvent::Ended), BackendRelayStep::CloseClient);
    let mut b = BackendRelay::new();
    assert_eq!(b.on_send_failed(), BackendRelayStep::CloseClient);
}

#[test]
fn hop_by_hop_headers_are_dropped() {
    let req = vec![
        header("host", "gw"),
        header("authorization", "a"),
        header("connection", "upgrade"),
        header("upgrade", "websocket"),
        header("transfer-encoding", "chunked"),
    ];
    assert_eq!(
        forward_headers(req.clone(), false),
        vec![header("authorization", "a"), header("transfer-encoding", "chunked")]
    );
    assert_eq!(
        forward_headers(req, true),
        vec![header("host", "gw"), header("authorization", "a"), header("upgrade", "websocket")]
    );
}

#[test]
fn body_at_the_limit_is_forwarded() {
    let body = vec![7u8; PROXY_BODY_LIMIT];
    let r = prepare_http_request(
        "http://127.0.0.1:7880",
        "/livekit/twirp",
        None,
        "POST".to_string(),
        vec![header("host", "gw"), header("content-type", "application/json")],
        Some(body.clone()),
    )
    .unwrap();
    assert_eq!(r.url, "http://127.0.0.1:7880/twirp");
    assert_eq!(r.method, "POST");
    assert_eq!(r.headers, vec![header("content-type", "application/json")]);
    assert_eq!(r.body, body);
}

#[test]
fn body_over_the_limit_is_a_bad_request() {
    let body = vec![7u8; PROXY_BODY_LIMIT + 1];
    let r = prepare_http_request("http://h", "/livekit/x", None, "POST".to_string(), vec![], Some(body));
    assert_eq!(r, Err(ApiError::BadRequest));
    let r = prepare_http_request("http://h", "/livekit/x", None, "POST".to_string(), vec![], None);
    assert_eq!(r, Err(ApiError::BadRequest));
    assert_eq!(PROXY_BODY_LIMIT, 10 * 1024 * 1024);
}

#[test]
fn backend_answer_is_mirrored() {
    let r = relay_response(Some(BackendResponse {
        status: 201,
        headers: vec![header("content-type", "text/plain"), header("connection", "close")],
        body: Some(b"ok".to_vec()),
    }))
    .unwrap();
    assert_eq!(r.status, 201);
    assert_eq!(r.headers, vec![header("content-type", "text/plain")]);
    assert_eq!(r.body, b"ok".to_vec());
}

#[test]
fn unreachable_or_unreadable_backend_is_a_bad_gateway() {
    assert_eq!(relay_response(None), Err(ApiError::BadGateway));
    let r = relay_response(Some(BackendResponse { status: 200, headers: vec![], body: None }));
    assert_eq!(r, Err(ApiError::BadGateway));
    let r = relay_response(Some(BackendResponse { status: 42, headers: vec![], body: Some(vec![]) }));
    assert_eq!(r.unwrap().status, 502);
}
