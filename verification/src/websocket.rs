//! WebSocket messages, the context of a connection and the session that wraps it.
use vstd::prelude::*;

use crate::rt::{channel_clone, channel_send, SendError};

verus! {

/// Close code for a normal closure (RFC 6455, 7.4.1).
pub const CLOSE_NORMAL: u16 = 1000;

/// Close code reported when a connection ended abnormally (RFC 6455, 7.4.1).
pub const CLOSE_ABNORMAL: u16 = 1006;

/// The reason and code that accompany a close message.
#[derive(Clone, Debug, PartialEq, Eq)]
pub struct CloseFrame {
    /// The close code, as sent on the wire.
    pub code: u16,
    /// The human readable reason of the closure.
    pub reason: String,
}

/// A WebSocket message, as received from or sent to a client.
#[derive(Clone, Debug, PartialEq, Eq)]
pub enum WebSocketMessage {
    Text(String),
    Binary(Vec<u8>),
    Ping(Vec<u8>),
    Pong(Vec<u8>),
    Close(Option<CloseFrame>),
}

/// The hook of a WebSocket handler that the default `on_message` calls for a
/// message, with the payload that it hands over.
#[derive(Debug, PartialEq, Eq)]
pub enum HandlerCall {
    /// `on_message_text`
    Text(String),
    /// `on_message_binary`
    Binary(Vec<u8>),
    /// `on_message_ping`
    Ping(Vec<u8>),
    /// `on_message_close`
    Close(Option<CloseFrame>),
}

impl WebSocketMessage {
    /// Whether this is a close message.
    pub fn is_close(&self) -> (r: bool)
        ensures
            r == (self is Close),
    {
        match self {
            WebSocketMessage::Close(_) => true,
            _ => false,
        }
    }

    /// The hook that the default message dispatch of a handler calls for this
    /// message. Ping and pong payloads both go to the ping hook.
    pub fn into_handler_call(self) -> (r: HandlerCall)
        ensures
            r == match self {
                WebSocketMessage::Text(s) => HandlerCall::Text(s),
                WebSocketMessage::Binary(b) => HandlerCall::Binary(b),
                WebSocketMessage::Ping(b) => HandlerCall::Ping(b),
                WebSocketMessage::Pong(b) => HandlerCall::Ping(b),
                WebSocketMessage::Close(f) => HandlerCall::Close(f),
            },
    {
        match self {
            WebSocketMessage::Text(s) => HandlerCall::Text(s),
            WebSocketMessage::Binary(b) => HandlerCall::Binary(b),
            WebSocketMessage::Ping(b) => HandlerCall::Ping(b),
            WebSocketMessage::Pong(b) => HandlerCall::Ping(b),
            WebSocketMessage::Close(f) => HandlerCall::Close(f),
        }
    }

    /// The message that stands for a connection whose reading failed: a close
    /// with the abnormal closure code and the given reason.
    pub fn abnormal_close(reason: String) -> (r: WebSocketMessage)
        ensures
            r == WebSocketMessage::Close(Some(CloseFrame { code: CLOSE_ABNORMAL, reason })),
    {
        WebSocketMessage::Close(Some(CloseFrame { code: CLOSE_ABNORMAL, reason }))
    }
}

/// What the reader of a connection does with the outcome of one read: a message
/// read is passed on and reading goes on; a failed read is passed on as an
/// abnormal close that carries the failure's description, and reading stops.
pub fn read_outcome(read: Result<WebSocketMessage, String>) -> (r: (WebSocketMessage, bool))
    ensures
        match read {
            Ok(m) => r == (m, true),
            Err(reason) => r == (WebSocketMessage::Close(Some(CloseFrame { code: CLOSE_ABNORMAL, reason })), false),
        },
{
    match read {
        Ok(m) => (m, true),
        Err(reason) => (WebSocketMessage::abnormal_close(reason), false),
    }
}

/// The address of the peer of a connection.
#[derive(Clone, Copy, Debug, PartialEq, Eq, Structural)]
pub enum PeerAddr {
    /// An IPv4 address (its four octets read as a big-endian integer) and a port.
    V4(u32, u16),
    /// An IPv6 address (its sixteen octets read as a big-endian integer), a port,
    /// the flow information and the scope identifier.
    V6(u128, u16, u32, u32),
}

/// The header map of an HTTP request.
#[verifier::external_type_specification]
#[verifier::external_body]
#[verifier::reject_recursive_types(T)]
pub struct ExHeaderMap<T>(hyper::HeaderMap<T>);

/// The value of an HTTP header: the default type argument of `hyper::HeaderMap`
/// (`HeaderMap<HeaderValue>`), which Verus needs declared for every signature and
/// field that holds a header map.
#[verifier::external_type_specification]
#[verifier::external_body]
pub struct ExHeaderValue(hyper::header::HeaderValue);

/// What a header map holds: its (name, value) pairs in the order in which the map
/// yields them, each name in its lower-case byte form, one pair per value of a
/// repeated header. The values of one name come together, the first value (the
/// one that `HeaderMap::get` returns) first.
pub uninterp spec fn header_entries(headers: hyper::HeaderMap) -> Seq<(Seq<u8>, Seq<u8>)>;

/// Calls `Clone::clone` on a `hyper::HeaderMap` (the map derives `Clone`).
///
/// Claimed: the copy holds the same (name, value) pairs, in the same order (the
/// derived clone copies the map's entries as they are).
#[verifier::external_body]
fn clone_headers(headers: &hyper::HeaderMap) -> (r: hyper::HeaderMap)
    ensures
        header_entries(r) == header_entries(*headers),
{
    headers.clone()
}

/// The abstract contents of a [`ConnectionContext`].
pub struct ContextView {
    pub addr: Option<PeerAddr>,
    pub headers: Seq<(Seq<u8>, Seq<u8>)>,
    pub query: Option<Seq<char>>,
    pub path: Seq<char>,
}

/// The query of a context built from the query string `query`: none when it is empty.
pub open spec fn query_of(query: Seq<char>) -> Option<Seq<char>> {
    if query.len() == 0 {
        None
    } else {
        Some(query)
    }
}

/// A context keeps its query string exactly when it is not empty: every
/// non-empty query string is kept as it is, and only the empty one is dropped.
pub proof fn lemma_query_kept(query: Seq<char>)
    ensures
        query.len() > 0 ==> query_of(query) == Some(query),
        query_of(query) is None <==> query.len() == 0,
        query_of(query) matches Some(q) ==> q == query,
{
}

/// The HTTP request context of a WebSocket connection.
#[derive(Debug)]
pub struct ConnectionContext {
    addr: Option<PeerAddr>,
    headers: hyper::HeaderMap,
    query: Option<String>,
    path: String,
}

impl View for ConnectionContext {
    type V = ContextView;

    closed spec fn view(&self) -> ContextView {
        ContextView {
            addr: self.addr,
            headers: header_entries(self.headers),
            query: match self.query {
                Some(q) => Some(q@),
                None => None,
            },
            path: self.path@,
        }
    }
}

fn clone_string_option(s: &Option<String>) -> (r: Option<String>)
    ensures
        r is Some <==> s is Some,
        r is Some ==> r->0@ == s->0@,
{
    match s {
        Some(q) => Some(q.clone()),
        None => None,
    }
}

impl Clone for ConnectionContext {
    fn clone(&self) -> (r: Self)
        ensures
            r@ == self@,
    {
        ConnectionContext {
            addr: self.addr,
            headers: clone_headers(&self.headers),
            query: clone_string_option(&self.query),
            path: self.path.clone(),
        }
    }
}

impl ConnectionContext {
    /// A context for a connection from `addr` with the request's headers, query
    /// string and path. An empty query string means no query.
    pub fn new(addr: Option<PeerAddr>, headers: hyper::HeaderMap, query: String, path: String) -> (r: Self)
        ensures
            r@ == (ContextView { addr, headers: header_entries(headers), query: query_of(query@), path: path@ }),
            query@.len() > 0 ==> r@.query == Some(query@),
            query@.len() == 0 ==> r@.query is None,
            r@.path == path@,
            r@.addr == addr,
    {
        let query = if query.as_str().is_empty() {
            None
        } else {
            Some(query)
        };
        ConnectionContext { addr, headers, query, path }
    }

    /// A context built from the parts of a request, without the peer's address:
    /// its path, its query (if the URI has one) and its headers.
    pub fn from_parts(path: String, query: Option<String>, headers: hyper::HeaderMap) -> (r: Self)
        ensures
            r@ == (ContextView {
                addr: None,
                headers: header_entries(headers),
                query: match query {
                    Some(q) => query_of(q@),
                    None => None,
                },
                path: path@,
            }),
            (query matches Some(q) && q@.len() > 0) ==> r@.query == Some(query->0@),
            !(query matches Some(q) && q@.len() > 0) ==> r@.query is None,
            r@.path == path@,
            r@.addr is None,
    {
        let query = match query {
            Some(q) => q,
            None => String::new(),
        };
        ConnectionContext::new(None, headers, query, path)
    }

    /// The address of the peer, when it is known.
    pub fn addr(&self) -> (r: Option<PeerAddr>)
        ensures
            r == self@.addr,
    {
        self.addr
    }

    /// A copy of the request's headers.
    pub fn headers(&self) -> (r: hyper::HeaderMap)
        ensures
            header_entries(r) == self@.headers,
    {
        clone_headers(&self.headers)
    }

    /// The path of the request.
    pub fn path(&self) -> (r: String)
        ensures
            r@ == self@.path,
    {
        self.path.clone()
    }

    /// The query string of the request, when there is a non-empty one.
    pub fn query(&self) -> (r: Option<String>)
        ensures
            r is Some <==> self@.query is Some,
            r is Some ==> r->0@ == self@.query->0,
    {
        clone_string_option(&self.query)
    }
}

/// The abstract contents of a [`WebSocketSession`].
pub struct SessionView {
    pub id: u128,
    pub context: ContextView,
    /// The channel that carries the session's messages to its client.
    pub sender: tokio::sync::mpsc::UnboundedSender<WebSocketMessage>,
}

/// A WebSocket session: its identifier, the context of its connection, and the
/// channel that carries messages to the client.
#[derive(Debug)]
pub struct WebSocketSession {
    id: u128,
    ctx: ConnectionContext,
    tx: tokio::sync::mpsc::UnboundedSender<WebSocketMessage>,
}

impl View for WebSocketSession {
    type V = SessionView;

    closed spec fn view(&self) -> SessionView {
        SessionView { id: self.id, context: self.ctx@, sender: self.tx }
    }
}

impl Clone for WebSocketSession {
    fn clone(&self) -> (r: Self)
        ensures
            r@ == self@,
            r.sender() == self.sender(),
    {
        WebSocketSession { id: self.id, ctx: self.ctx.clone(), tx: channel_clone(&self.tx) }
    }
}

impl WebSocketSession {
    /// The channel that this session's messages go through.
    pub open spec fn sender(&self) -> tokio::sync::mpsc::UnboundedSender<WebSocketMessage> {
        self@.sender
    }

    /// A session with the identifier `id` (the bits of the UUID that the caller
    /// drew for it), the context of its connection, and the channel to its client.
    pub fn new(id: u128, ctx: ConnectionContext, tx: tokio::sync::mpsc::UnboundedSender<WebSocketMessage>) -> (r: Self)
        ensures
            r@ == (SessionView { id, context: ctx@, sender: tx }),
            r.sender() == tx,
    {
        WebSocketSession { id, ctx, tx }
    }

    /// The identifier of this session (the bits of its UUID).
    pub fn id(&self) -> (r: u128)
        ensures
            r == self@.id,
    {
        self.id
    }

    /// Sends a message to the client of this session. It fails, and hands the
    /// message back, when the connection's writer is gone.
    pub fn send(&self, message: WebSocketMessage) -> (r: Result<(), SendError<WebSocketMessage>>)
        ensures
            r matches Err(e) ==> e.0 == message,
    {
        channel_send(&self.tx, message)
    }

    /// Another handle to the channel that carries messages to the client.
    pub fn channel(&self) -> (r: tokio::sync::mpsc::UnboundedSender<WebSocketMessage>)
        ensures
            r == self.sender(),
    {
        channel_clone(&self.tx)
    }

    /// The HTTP request context of this session's connection.
    pub fn context(&self) -> (r: &ConnectionContext)
        ensures
            r@ == self@.context,
    {
        &self.ctx
    }
}

} // verus!
