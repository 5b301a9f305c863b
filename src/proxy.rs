//! Reverse proxy towards the media-signaling backend: where a request goes,
//! how each WebSocket relay direction reacts to what it reads, when a tunnel
//! ends, and how plain HTTP requests and responses are passed through.
use vstd::prelude::*;

use crate::error::ApiError;
use crate::text::{chars_of, has_prefix, opt_chars, slice_chars, string_of, strip_prefix};

verus! {

/// The largest WebSocket message and frame the tunnel accepts, either way.
pub const WS_MAX_MESSAGE_SIZE: usize = 16 * 1024 * 1024;

/// The largest request body forwarded to the backend, in bytes.
pub const PROXY_BODY_LIMIT: usize = 10 * 1024 * 1024;

/// The path prefix under which requests are proxied.
pub open spec fn proxy_prefix() -> Seq<char> {
    seq!['/', 'l', 'i', 'v', 'e', 'k', 'i', 't']
}

pub open spec fn http_scheme() -> Seq<char> {
    seq!['h', 't', 't', 'p', ':', '/', '/']
}

pub open spec fn https_scheme() -> Seq<char> {
    seq!['h', 't', 't', 'p', 's', ':', '/', '/']
}

pub open spec fn ws_scheme() -> Seq<char> {
    seq!['w', 's', ':', '/', '/']
}

pub open spec fn wss_scheme() -> Seq<char> {
    seq!['w', 's', 's', ':', '/', '/']
}

/// The backend base URL, with `http`/`https` turned into `ws`/`wss` for a
/// WebSocket target.
pub open spec fn backend_base(base: Seq<char>, ws: bool) -> Seq<char> {
    if !ws {
        base
    } else if http_scheme().is_prefix_of(base) {
        ws_scheme() + base.skip(7)
    } else if https_scheme().is_prefix_of(base) {
        wss_scheme() + base.skip(8)
    } else {
        base
    }
}

/// `?` and the query string, or nothing where the request has no query.
pub open spec fn query_suffix(query: Option<Seq<char>>) -> Seq<char> {
    match query {
        Some(q) => seq!['?'] + q,
        None => Seq::empty(),
    }
}

/// The backend URL for a request to `path` with `query`.
pub open spec fn target_of(base: Seq<char>, path: Seq<char>, query: Option<Seq<char>>, ws: bool) -> Seq<
    char,
> {
    backend_base(base, ws) + strip_prefix(path, proxy_prefix()) + query_suffix(query)
}

/// The backend URL for an inbound request: the proxy prefix is taken off the
/// path, the query is kept, and a WebSocket target gets a `ws`/`wss` scheme.
pub fn build_target(base_url: &str, path: &str, query: Option<&str>, ws: bool) -> (r: String)
    ensures
        r@ == target_of(base_url@, path@, opt_chars(query), ws),
{
    proof {
        reveal_strlit("/livekit");
        reveal_strlit("http://");
        reveal_strlit("https://");
        reveal_strlit("ws://");
        reveal_strlit("wss://");
    }
    let base = chars_of(base_url);
    let mut out: Vec<char>;
    if ws && has_prefix(&base, &chars_of("http://")) {
        out = chars_of("ws://");
        let mut rest = slice_chars(&base, 7, base.len());
        out.append(&mut rest);
    } else if ws && has_prefix(&base, &chars_of("https://")) {
        out = chars_of("wss://");
        let mut rest = slice_chars(&base, 8, base.len());
        out.append(&mut rest);
    } else {
        out = base;
    }
    assert(out@ == backend_base(base_url@, ws));
    let p = chars_of(path);
    let prefix = chars_of("/livekit");
    let mut rest = if has_prefix(&p, &prefix) {
        slice_chars(&p, prefix.len(), p.len())
    } else {
        p
    };
    out.append(&mut rest);
    match query {
        Some(q) => {
            out.push('?');
            let mut qs = chars_of(q);
            out.append(&mut qs);
        },
        None => {},
    }
    assert(out@ =~= target_of(base_url@, path@, opt_chars(query), ws));
    string_of(&out)
}

// ---------------------------------------------------------------------------
// WebSocket relay
/// One WebSocket frame, independent of the library that carried it.
#[derive(Debug, Clone, PartialEq, Eq)]
pub enum Frame {
    Text(String),
    Binary(Vec<u8>),
    Ping(Vec<u8>),
    Pong(Vec<u8>),
    Close,
}

/// What the relay from the client to the backend does next.
#[derive(Debug, Clone, PartialEq, Eq)]
pub enum ClientRelayStep {
    /// Send this frame to the backend.
    Forward(Frame),
    /// Close the backend's write side and report completion.
    HalfCloseBackend,
}

/// What the relay from the backend to the client reads.
#[derive(Debug, Clone, PartialEq, Eq)]
pub enum BackendEvent {
    /// A frame from the backend.
    Frame(Frame),
    /// A raw frame the client side has no representation for.
    RawFrame,
    /// The backend stream ended or failed.
    Ended,
    /// The keepalive timer fired.
    KeepaliveTick,
}

/// What the relay from the backend to the client does next.
#[derive(Debug, Clone, PartialEq, Eq)]
pub enum BackendRelayStep {
    /// Send this frame to the client and go on.
    Forward(Frame),
    /// Nothing to send; go on.
    Skip,
    /// Send a close frame to the client and report completion.
    CloseClient,
}

/// The relay from the client to the backend. `done` is set once it has
/// half-closed the backend and reported completion.
pub struct ClientRelay {
    pub done: bool,
}

/// The step for a frame read from the client (`None`: its stream ended or
/// failed).
pub open spec fn client_step(frame: Option<Frame>) -> ClientRelayStep {
    match frame {
        Some(Frame::Close) | None => ClientRelayStep::HalfCloseBackend,
        Some(f) => ClientRelayStep::Forward(f),
    }
}

impl ClientRelay {
    pub fn new() -> (r: ClientRelay)
        ensures
            !r.done,
    {
        ClientRelay { done: false }
    }

    /// Reacts to a frame from the client, or to the end of its stream.
    pub fn on_client(&mut self, frame: Option<Frame>) -> (r: ClientRelayStep)
        requires
            !old(self).done,
        ensures
            r == client_step(frame),
            final(self).done == (r == ClientRelayStep::HalfCloseBackend),
    {
        match frame {
            Some(Frame::Close) | None => {
                self.done = true;
                ClientRelayStep::HalfCloseBackend
            },
            Some(f) => ClientRelayStep::Forward(f),
        }
    }

    /// A send to the backend failed: the relay half-closes it and stops.
    pub fn on_send_failed(&mut self) -> (r: ClientRelayStep)
        ensures
            r == ClientRelayStep::HalfCloseBackend,
            final(self).done,
    {
        self.done = true;
        ClientRelayStep::HalfCloseBackend
    }
}

/// The relay from the backend to the client, with its keepalive. `done` is
/// set once it has sent the client a close frame and reported completion.
pub struct BackendRelay {
    pub done: bool,
}

/// A ping with an empty payload, as the keepalive sends it.
pub open spec fn is_keepalive_ping(f: Frame) -> bool {
    match f {
        Frame::Ping(p) => p@.len() == 0,
        _ => false,
    }
}

/// Whether `r` is the step for an event on the backend side.
pub open spec fn is_backend_step(ev: BackendEvent, r: BackendRelayStep) -> bool {
    match ev {
        BackendEvent::Frame(Frame::Close) | BackendEvent::Ended => r == BackendRelayStep::CloseClient,
        BackendEvent::Frame(f) => r == BackendRelayStep::Forward(f),
        BackendEvent::RawFrame => r == BackendRelayStep::Skip,
        BackendEvent::KeepaliveTick => match r {
            BackendRelayStep::Forward(f) => is_keepalive_ping(f),
            _ => false,
        },
    }
}

impl BackendRelay {
    pub fn new() -> (r: BackendRelay)
        ensures
            !r.done,
    {
        BackendRelay { done: false }
    }

    /// Reacts to a backend frame, the end of the backend stream or a
    /// keepalive tick. A tick pings the client; the backend is never pinged.
    pub fn on_backend(&mut self, ev: BackendEvent) -> (r: BackendRelayStep)
        requires
            !old(self).done,
        ensures
            is_backend_step(ev, r),
            final(self).done == (r == BackendRelayStep::CloseClient),
    {
        match ev {
            BackendEvent::Frame(Frame::Close) | BackendEvent::Ended => {
                self.done = true;
                BackendRelayStep::CloseClient
            },
            BackendEvent::Frame(f) => BackendRelayStep::Forward(f),
            BackendEvent::RawFrame => BackendRelayStep::Skip,
            BackendEvent::KeepaliveTick => BackendRelayStep::Forward(Frame::Ping(Vec::new())),
        }
    }

    /// A send to the client failed: the relay closes it and stops.
    pub fn on_send_failed(&mut self) -> (r: BackendRelayStep)
        ensures
            r == BackendRelayStep::CloseClient,
            final(self).done,
    {
        self.done = true;
        BackendRelayStep::CloseClient
    }
}

/// One relay direction of a tunnel.
#[derive(Debug, Clone, Copy, PartialEq, Eq, Structural)]
pub enum Direction {
    ClientToBackend,
    BackendToClient,
}

/// Which relay directions of a tunnel are still running.
#[derive(Debug, Clone, Copy, PartialEq, Eq, Structural)]
pub struct Tunnel {
    pub client_to_backend: bool,
    pub backend_to_client: bool,
}

/// The tunnel after `from` reported completion: the first report ends both
/// directions, later ones change nothing.
pub open spec fn tunnel_after(t: Tunnel, from: Direction) -> Tunnel {
    Tunnel { client_to_backend: false, backend_to_client: false }
}

/// The direction to cancel when `from` reports completion on `t`.
pub open spec fn to_cancel(t: Tunnel, from: Direction) -> Option<Direction> {
    match from {
        Direction::ClientToBackend => if t.backend_to_client {
            Some(Direction::BackendToClient)
        } else {
            None
        },
        Direction::BackendToClient => if t.client_to_backend {
            Some(Direction::ClientToBackend)
        } else {
            None
        },
    }
}

impl Tunnel {
    pub open spec fn is_open(self) -> bool {
        self.client_to_backend && self.backend_to_client
    }

    pub open spec fn is_ended(self) -> bool {
        !self.client_to_backend && !self.backend_to_client
    }

    /// A tunnel whose two directions both run.
    pub fn open() -> (r: Tunnel)
        ensures
            r.is_open(),
    {
        Tunnel { client_to_backend: true, backend_to_client: true }
    }

    /// Records that `from` finished; returns the direction to cancel.
    pub fn complete(&mut self, from: Direction) -> (r: Option<Direction>)
        ensures
            *final(self) == tunnel_after(*old(self), from),
            r == to_cancel(*old(self), from),
    {
        let r = match from {
            Direction::ClientToBackend => if self.backend_to_client {
                Some(Direction::BackendToClient)
            } else {
                None
            },
            Direction::BackendToClient => if self.client_to_backend {
                Some(Direction::ClientToBackend)
            } else {
                None
            },
        };
        self.client_to_backend = false;
        self.backend_to_client = false;
        r
    }
}

} // verus!

verus! {

// ---------------------------------------------------------------------------
// Plain HTTP forwarding
/// One HTTP header: its lower-case name and its raw value.
#[derive(Debug, Clone, PartialEq, Eq)]
pub struct Header {
    pub name: String,
    pub value: Vec<u8>,
}

pub open spec fn host_name() -> Seq<char> {
    seq!['h', 'o', 's', 't']
}

pub open spec fn connection_name() -> Seq<char> {
    seq!['c', 'o', 'n', 'n', 'e', 'c', 't', 'i', 'o', 'n']
}

pub open spec fn upgrade_name() -> Seq<char> {
    seq!['u', 'p', 'g', 'r', 'a', 'd', 'e']
}

pub open spec fn transfer_encoding_name() -> Seq<char> {
    seq!['t', 'r', 'a', 'n', 's', 'f', 'e', 'r', '-', 'e', 'n', 'c', 'o', 'd', 'i', 'n', 'g']
}

/// Headers of an inbound request that are not passed to the backend.
pub open spec fn is_request_hop_header(name: Seq<char>) -> bool {
    name == host_name() || name == connection_name() || name == upgrade_name()
}

/// Headers of a backend response that are not passed to the client.
pub open spec fn is_response_hop_header(name: Seq<char>) -> bool {
    name == transfer_encoding_name() || name == connection_name()
}

/// `hs` without the headers that `response` says are hop-by-hop, in order.
pub open spec fn kept_headers(hs: Seq<Header>, response: bool) -> Seq<Header>
    decreases hs.len(),
{
    if hs.len() == 0 {
        Seq::empty()
    } else {
        let rest = kept_headers(hs.drop_last(), response);
        let name = hs.last().name@;
        let hop = if response {
            is_response_hop_header(name)
        } else {
            is_request_hop_header(name)
        };
        if hop {
            rest
        } else {
            rest.push(hs.last())
        }
    }
}

fn is_hop_header(name: &String, response: bool) -> (r: bool)
    ensures
        r == if response {
            is_response_hop_header(name@)
        } else {
            is_request_hop_header(name@)
        },
{
    proof {
        reveal_strlit("host");
        reveal_strlit("connection");
        reveal_strlit("upgrade");
        reveal_strlit("transfer-encoding");
        assert("host"@ =~= host_name());
        assert("connection"@ =~= connection_name());
        assert("upgrade"@ =~= upgrade_name());
        assert("transfer-encoding"@ =~= transfer_encoding_name());
    }
    let n = chars_of(name.as_str());
    let connection = crate::text::chars_equal(&n, &chars_of("connection"));
    if response {
        connection || crate::text::chars_equal(&n, &chars_of("transfer-encoding"))
    } else {
        connection || crate::text::chars_equal(&n, &chars_of("host"))
            || crate::text::chars_equal(&n, &chars_of("upgrade"))
    }
}

/// The headers to pass on: request headers without `host`, `connection` and
/// `upgrade`; response headers without `transfer-encoding` and `connection`.
pub fn forward_headers(headers: Vec<Header>, response: bool) -> (r: Vec<Header>)
    ensures
        r@ == kept_headers(headers@, response),
{
    let ghost hs = headers@;
    let mut out: Vec<Header> = Vec::new();
    for h in it: headers.into_iter()
        invariant
            it.seq() == hs,
            out@ == kept_headers(hs.take(it.index() as int), response),
    {
        let ghost i = it.index();
        assert(hs.take(i + 1).drop_last() =~= hs.take(i));
        assert(hs.take(i + 1).last() == h);
        if !is_hop_header(&h.name, response) {
            out.push(h);
        }
    }
    assert(hs.take(hs.len() as int) =~= hs);
    out
}

/// The request to send to the backend.
#[derive(Debug, Clone, PartialEq, Eq)]
pub struct BackendRequest {
    pub method: String,
    pub url: String,
    pub headers: Vec<Header>,
    pub body: Vec<u8>,
}

/// Whether a buffered request body may go to the backend: it was read in
/// full and holds at most `PROXY_BODY_LIMIT` bytes.
pub open spec fn accepts_body(body: Option<Vec<u8>>) -> bool {
    match body {
        Some(b) => b@.len() <= PROXY_BODY_LIMIT,
        None => false,
    }
}

/// Builds the backend request for an inbound HTTP request. `body` is what
/// buffering the inbound body gave (`None`: it failed or went past the
/// limit). A body over `PROXY_BODY_LIMIT` bytes is refused before anything
/// reaches the backend.
pub fn prepare_http_request(
    base_url: &str,
    path: &str,
    query: Option<&str>,
    method: String,
    headers: Vec<Header>,
    body: Option<Vec<u8>>,
) -> (r: Result<BackendRequest, ApiError>)
    ensures
        accepts_body(body) ==> r is Ok && r->Ok_0.method == method && r->Ok_0.url@ == target_of(
            base_url@,
            path@,
            opt_chars(query),
            false,
        ) && r->Ok_0.headers@ == kept_headers(headers@, false) && r->Ok_0.body == body->Some_0,
        !accepts_body(body) ==> r == Err::<BackendRequest, ApiError>(ApiError::BadRequest),
{
    let body = match body {
        Some(b) => b,
        None => return Err(ApiError::BadRequest),
    };
    if body.len() > PROXY_BODY_LIMIT {
        return Err(ApiError::BadRequest);
    }
    let url = build_target(base_url, path, query, false);
    let headers = forward_headers(headers, false);
    Ok(BackendRequest { method, url, headers, body })
}

/// What came back from the backend: its status, headers and the body, if it
/// could be read.
pub struct BackendResponse {
    pub status: u16,
    pub headers: Vec<Header>,
    pub body: Option<Vec<u8>>,
}

/// The response handed to the client.
#[derive(Debug, Clone, PartialEq, Eq)]
pub struct ProxyResponse {
    pub status: u16,
    pub headers: Vec<Header>,
    pub body: Vec<u8>,
}

/// The status passed to the client: the backend's own where it is a valid
/// HTTP status code, else 502.
pub open spec fn relayed_status(status: u16) -> u16 {
    if 100 <= status <= 999 {
        status
    } else {
        502
    }
}

/// Maps the backend's answer (`None`: the request could not be sent) to the
/// client's response: status and body mirrored, hop-by-hop headers dropped;
/// an unreachable backend or an unreadable body is a bad gateway.
pub fn relay_response(resp: Option<BackendResponse>) -> (r: Result<ProxyResponse, ApiError>)
    ensures
        match resp {
            None => r == Err::<ProxyResponse, ApiError>(ApiError::BadGateway),
            Some(b) => match b.body {
                None => r == Err::<ProxyResponse, ApiError>(ApiError::BadGateway),
                Some(body) => r is Ok && r->Ok_0.status == relayed_status(b.status)
                    && r->Ok_0.body == body && r->Ok_0.headers@ == kept_headers(b.headers@, true),
            },
        },
{
    let resp = match resp {
        Some(r) => r,
        None => return Err(ApiError::BadGateway),
    };
    let BackendResponse { status, headers, body } = resp;
    let body = match body {
        Some(b) => b,
        None => return Err(ApiError::BadGateway),
    };
    let status = if 100 <= status && status <= 999 {
        status
    } else {
        502
    };
    Ok(ProxyResponse { status, headers: forward_headers(headers, true), body })
}

} // verus!

verus! {

/// A close frame from the client half-closes the backend and ends both relay
/// directions; a close frame from the backend is passed to the client as a
/// close frame and ends both directions too.
pub proof fn lemma_close_ends_tunnel(t: Tunnel)
    requires
        t.is_open(),
    ensures
        client_step(Some(Frame::Close)) == ClientRelayStep::HalfCloseBackend,
        tunnel_after(t, Direction::ClientToBackend).is_ended(),
        to_cancel(t, Direction::ClientToBackend) == Some(Direction::BackendToClient),
        forall|r: BackendRelayStep|
            is_backend_step(BackendEvent::Frame(Frame::Close), r) <==> r
                == BackendRelayStep::CloseClient,
        tunnel_after(t, Direction::BackendToClient).is_ended(),
        to_cancel(t, Direction::BackendToClient) == Some(Direction::ClientToBackend),
{
}

/// A body of exactly `PROXY_BODY_LIMIT` bytes goes to the backend; one byte
/// more is refused, so no backend request is built.
pub proof fn lemma_body_limit(at_limit: Vec<u8>, over_limit: Vec<u8>)
    requires
        at_limit@.len() == PROXY_BODY_LIMIT,
        over_limit@.len() == PROXY_BODY_LIMIT + 1,
    ensures
        accepts_body(Some(at_limit)),
        !accepts_body(Some(over_limit)),
{
}

} // verus!
