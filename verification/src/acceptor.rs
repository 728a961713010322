//! The acceptor: which feed a request path names, and the reply that switches
//! the connection over to the socket protocol.

use crate::constants::{
    endpoint_of, reveal_constants, FIRSTS_ENDPOINT, RECENT_ENDPOINT, TOPS_ENDPOINT, USER_ENDPOINT,
};
use crate::outside::{accept_key, derive_accept_key};
use crate::structs::WsKind;
use crate::text::str_eq;
use vstd::prelude::*;

verus! {

/// The status of the reply that switches protocols.
pub const SWITCHING_PROTOCOLS: u16 = 101;

/// The status that stands for a path that names no feed.
pub const NOT_FOUND: u16 = 404;

/// The status that stands for a request without a key.
pub const BAD_REQUEST: u16 = 400;

/// Why a request gets no subscriber.
#[derive(Clone, Copy, PartialEq, Eq, Debug, Structural)]
pub enum Rejection {
    /// The path names no feed.
    NotFound,
    /// The request carries no `Sec-WebSocket-Key`, so no handshake can be
    /// answered.
    MissingKey,
}

impl Rejection {
    /// The status that stands for this rejection.
    pub fn status(&self) -> (code: u16)
        ensures
            code == match *self {
                Rejection::NotFound => NOT_FOUND,
                Rejection::MissingKey => BAD_REQUEST,
            },
    {
        match self {
            Rejection::NotFound => NOT_FOUND,
            Rejection::MissingKey => BAD_REQUEST,
        }
    }

    /// What to tell about this rejection.
    pub fn message(&self) -> (text: &'static str)
        ensures
            text@ == match *self {
                Rejection::NotFound => "This URI doesn't exist"@,
                Rejection::MissingKey => "The request has no Sec-WebSocket-Key"@,
            },
    {
        match self {
            Rejection::NotFound => "This URI doesn't exist",
            Rejection::MissingKey => "The request has no Sec-WebSocket-Key",
        }
    }
}

/// One header line of a reply.
#[derive(Clone, Debug)]
pub struct Header {
    pub name: String,
    pub value: String,
}

impl View for Header {
    type V = (Seq<char>, Seq<char>);

    open spec fn view(&self) -> (Seq<char>, Seq<char>) {
        (self.name@, self.value@)
    }
}

/// The reply that switches a connection over.
#[derive(Clone, Debug)]
pub struct UpgradeReply {
    pub status: u16,
    pub headers: Vec<Header>,
}

/// A request that becomes a subscriber of `kind` once `reply` has been sent and
/// the connection has switched.
#[derive(Clone, Debug)]
pub struct Accepted {
    pub kind: WsKind,
    pub reply: UpgradeReply,
}

/// What an accepted request says: the feed, the status of the reply and its
/// header lines as texts.
pub struct AcceptedView {
    pub kind: WsKind,
    pub status: u16,
    pub headers: Seq<(Seq<char>, Seq<char>)>,
}

impl View for Accepted {
    type V = AcceptedView;

    open spec fn view(&self) -> AcceptedView {
        AcceptedView {
            kind: self.kind,
            status: self.reply.status,
            headers: self.reply.headers@.map_values(|h: Header| h@),
        }
    }
}

/// The feed that a request path names, if it names one.
pub open spec fn routed(path: Seq<char>) -> Option<WsKind> {
    if path == FIRSTS_ENDPOINT@ {
        Some(WsKind::Firsts)
    } else if path == TOPS_ENDPOINT@ {
        Some(WsKind::Tops)
    } else if path == USER_ENDPOINT@ {
        Some(WsKind::User)
    } else if path == RECENT_ENDPOINT@ {
        Some(WsKind::Recent)
    } else {
        None
    }
}

/// The header lines of the reply that answers a handshake key.
pub open spec fn upgrade_headers(request_key: Seq<u8>) -> Seq<(Seq<char>, Seq<char>)> {
    seq![
        ("connection"@, "Upgrade"@),
        ("upgrade"@, "websocket"@),
        ("sec-websocket-accept"@, accept_key(request_key)),
    ]
}

/// What the acceptor answers to a request for the feed `kind`: the reply that
/// switches protocols, with the headers that answer the key.
pub open spec fn answer_ws(kind: WsKind, request_key: Option<Seq<u8>>) -> Result<
    AcceptedView,
    Rejection,
> {
    match request_key {
        Some(key) => Ok(
            AcceptedView { kind, status: SWITCHING_PROTOCOLS, headers: upgrade_headers(key) },
        ),
        None => Err(Rejection::MissingKey),
    }
}

/// What the acceptor answers to a request: a path that names no feed is turned
/// away whatever else the request holds; a request without a key cannot be
/// answered; every other request is accepted for the feed that its path names.
pub open spec fn answer(path: Seq<char>, request_key: Option<Seq<u8>>) -> Result<
    AcceptedView,
    Rejection,
> {
    match routed(path) {
        Some(kind) => answer_ws(kind, request_key),
        None => Err(Rejection::NotFound),
    }
}

/// The bytes of a key that may be absent.
pub open spec fn key_view(request_key: Option<&[u8]>) -> Option<Seq<u8>> {
    match request_key {
        Some(key) => Some(key@),
        None => None,
    }
}

/// What an outcome says, with the header lines as texts.
pub open spec fn outcome_view(outcome: Result<Accepted, Rejection>) -> Result<
    AcceptedView,
    Rejection,
> {
    match outcome {
        Ok(accepted) => Ok(accepted@),
        Err(rejection) => Err(rejection),
    }
}

/// Finds the feed that a request path names.
pub fn route(path: &str) -> (kind: Option<WsKind>)
    ensures
        kind == routed(path@),
{
    if str_eq(path, FIRSTS_ENDPOINT) {
        Some(WsKind::Firsts)
    } else if str_eq(path, TOPS_ENDPOINT) {
        Some(WsKind::Tops)
    } else if str_eq(path, USER_ENDPOINT) {
        Some(WsKind::User)
    } else if str_eq(path, RECENT_ENDPOINT) {
        Some(WsKind::Recent)
    } else {
        None
    }
}

/// Answers the handshake of a request for the feed `kind`.
pub fn serve_ws(kind: WsKind, request_key: Option<&[u8]>) -> (outcome: Result<Accepted, Rejection>)
    ensures
        outcome_view(outcome) == answer_ws(kind, key_view(request_key)),
{
    match request_key {
        None => Err(Rejection::MissingKey),
        Some(key) => {
            let accept = derive_accept_key(key);
            let mut headers: Vec<Header> = Vec::new();
            headers.push(Header { name: "connection".to_owned(), value: "Upgrade".to_owned() });
            headers.push(Header { name: "upgrade".to_owned(), value: "websocket".to_owned() });
            headers.push(Header { name: "sec-websocket-accept".to_owned(), value: accept });
            assert(headers@.map_values(|h: Header| h@) == upgrade_headers(key@));
            Ok(Accepted { kind, reply: UpgradeReply { status: SWITCHING_PROTOCOLS, headers } })
        },
    }
}

/// Answers a request from its path and its handshake key.
pub fn serve(path: &str, request_key: Option<&[u8]>) -> (outcome: Result<Accepted, Rejection>)
    ensures
        outcome_view(outcome) == answer(path@, key_view(request_key)),
{
    match route(path) {
        Some(kind) => serve_ws(kind, request_key),
        None => Err(Rejection::NotFound),
    }
}

/// Paths and feeds match one to one: the path of a feed names that feed, and a
/// path that names a feed is the path of that feed.
pub proof fn law_paths_match_feeds(kind: WsKind, path: Seq<char>)
    ensures
        routed(endpoint_of(kind)) == Some(kind),
        routed(path) == Some(kind) <==> path == endpoint_of(kind),
{
    reveal_constants();
    assert(USER_ENDPOINT@.len() == 1);
    assert(TOPS_ENDPOINT@.len() == 5);
    assert(FIRSTS_ENDPOINT@.len() == 7);
    assert(RECENT_ENDPOINT@.len() == 7);
    assert(FIRSTS_ENDPOINT@[1] == 'f');
    assert(RECENT_ENDPOINT@[1] == 'r');
}

/// A request is accepted only for a path that names a feed, and then for that
/// feed: a path that names none is turned away, key or no key.
pub proof fn law_unknown_path_is_turned_away(path: Seq<char>, request_key: Option<Seq<u8>>)
    ensures
        routed(path).is_none() ==> answer(path, request_key) == Err::<AcceptedView, Rejection>(
            Rejection::NotFound,
        ),
        answer(path, request_key).is_ok() ==> routed(path) == Some(
            answer(path, request_key).unwrap().kind,
        ),
{
}

} // verus!
