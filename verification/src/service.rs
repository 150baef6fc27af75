//! How an incoming HTTP request is routed, and the service that binds the server.
use vstd::prelude::*;

use crate::endpoints::{ForPath, PathTable};
use crate::websocket::header_entries;

verus! {

/// HTTP status "No Content".
pub const STATUS_NO_CONTENT: u16 = 204;

/// HTTP status "Bad Request".
pub const STATUS_BAD_REQUEST: u16 = 400;

/// HTTP status "Not Found".
pub const STATUS_NOT_FOUND: u16 = 404;

/// What the router does with an HTTP request.
#[derive(Clone, Copy, Debug, PartialEq, Eq, Structural)]
pub enum Route {
    /// The browser's icon request: answered with an empty "No Content".
    NoContent,
    /// No endpoint serves the path: answered with "Not Found".
    NotFound,
    /// A WebSocket endpoint serves the path: the connection is upgraded.
    Upgrade,
    /// A web endpoint serves the path: its handler answers.
    Web,
}

/// The route of a request for `path`, given the table of the server's endpoints.
pub open spec fn route_of(table: Map<Seq<char>, ForPath>, path: Seq<char>) -> Route {
    if path == "/favicon.ico"@ {
        Route::NoContent
    } else if !table.contains_key(path) {
        Route::NotFound
    } else {
        match table[path] {
            ForPath::Socket => Route::Upgrade,
            ForPath::Web => Route::Web,
        }
    }
}

/// The icon request is answered with "No Content", whatever endpoints there are.
pub proof fn lemma_icon_is_no_content(table: Map<Seq<char>, ForPath>)
    ensures
        route_of(table, "/favicon.ico"@) == Route::NoContent,
{
}

/// A request for any path but the icon's that has no endpoint is not found.
pub proof fn lemma_unregistered_path_not_found(table: Map<Seq<char>, ForPath>, path: Seq<char>)
    requires
        path != "/favicon.ico"@,
        !table.contains_key(path),
    ensures
        route_of(table, path) == Route::NotFound,
{
}

/// Only the icon request is answered with "No Content"; every other request is
/// routed by the table: not found without an endpoint, and by the endpoint's
/// kind with one.
pub proof fn lemma_routes_by_table(table: Map<Seq<char>, ForPath>, path: Seq<char>)
    ensures
        route_of(table, path) == Route::NoContent <==> path == "/favicon.ico"@,
        route_of(table, path) == Route::NotFound <==> (path != "/favicon.ico"@ && !table.contains_key(path)),
        route_of(table, path) == Route::Upgrade <==> (path != "/favicon.ico"@ && table.contains_key(path) && table[path] == ForPath::Socket),
        route_of(table, path) == Route::Web <==> (path != "/favicon.ico"@ && table.contains_key(path) && table[path] == ForPath::Web),
{
}

/// Once a path is registered with `Endpoints::register`, requests for it follow
/// the kind it was registered with (the icon path excepted), and requests for
/// every other path are routed as before.
pub proof fn lemma_registered_path_routed<A>(
    endpoints: Map<Seq<char>, (ForPath, tokio::sync::mpsc::UnboundedSender<A>)>,
    path: Seq<char>,
    kind: ForPath,
    tx: tokio::sync::mpsc::UnboundedSender<A>,
    other: Seq<char>,
)
    requires
        other != path,
    ensures
        route_of(endpoints.insert(path, (kind, tx)).map_values(|e: (ForPath, tokio::sync::mpsc::UnboundedSender<A>)| e.0), path)
            == if path == "/favicon.ico"@ {
                Route::NoContent
            } else {
                match kind {
                    ForPath::Socket => Route::Upgrade,
                    ForPath::Web => Route::Web,
                }
            },
        route_of(endpoints.insert(path, (kind, tx)).map_values(|e: (ForPath, tokio::sync::mpsc::UnboundedSender<A>)| e.0), other)
            == route_of(endpoints.map_values(|e: (ForPath, tokio::sync::mpsc::UnboundedSender<A>)| e.0), other),
{
    let before = endpoints.map_values(|e: (ForPath, tokio::sync::mpsc::UnboundedSender<A>)| e.0);
    let after = endpoints.insert(path, (kind, tx)).map_values(|e: (ForPath, tokio::sync::mpsc::UnboundedSender<A>)| e.0);
    assert(after =~= before.insert(path, kind));
}

impl PathTable {
    /// The route of a request for `path`.
    pub fn route(&self, path: &str) -> (r: Route)
        ensures
            r == route_of(self@, path@),
            path@ == "/favicon.ico"@ ==> r == Route::NoContent,
            path@ != "/favicon.ico"@ && !self@.contains_key(path@) ==> r == Route::NotFound,
            path@ != "/favicon.ico"@ && self@.contains_key(path@) && self@[path@] == ForPath::Socket ==> r == Route::Upgrade,
            path@ != "/favicon.ico"@ && self@.contains_key(path@) && self@[path@] == ForPath::Web ==> r == Route::Web,
    {
        let requested = path.to_owned();
        let icon = "/favicon.ico".to_owned();
        if requested == icon {
            return Route::NoContent;
        }
        match self.kind_of(path) {
            None => Route::NotFound,
            Some(ForPath::Socket) => Route::Upgrade,
            Some(ForPath::Web) => Route::Web,
        }
    }
}

/// HTTP status "Switching Protocols".
pub const STATUS_SWITCHING_PROTOCOLS: u16 = 101;

/// The version of an HTTP request.
#[derive(Clone, Copy, Debug, PartialEq, Eq, Structural)]
pub enum HttpVersion {
    Http09,
    Http10,
    Http11,
    Http2,
    Http3,
}

/// Whether a request of this version may open a WebSocket (HTTP/1.1 or later).
pub open spec fn at_least_http11(v: HttpVersion) -> bool {
    !(v is Http09) && !(v is Http10)
}

/// The head of an HTTP request: what the router reads of it.
pub struct RequestHead {
    /// The method, as written in the request.
    pub method: String,
    pub version: HttpVersion,
    /// The path of the request's URI.
    pub path: String,
    pub headers: hyper::HeaderMap,
}

/// The bytes of an ASCII text.
pub open spec fn ascii(s: Seq<char>) -> Seq<u8> {
    s.map_values(|c: char| c as u8)
}

/// The first value of header `name` (in lower case) among `entries`.
pub open spec fn first_header(entries: Seq<(Seq<u8>, Seq<u8>)>, name: Seq<u8>) -> Option<Seq<u8>>
    decreases entries.len(),
{
    if entries.len() == 0 {
        None
    } else if entries[0].0 == name {
        Some(entries[0].1)
    } else {
        first_header(entries.drop_first(), name)
    }
}

/// A byte in lower case, when it is an ASCII capital letter.
pub open spec fn ascii_lower(b: u8) -> u8 {
    if 65 <= b <= 90 {
        (b + 32) as u8
    } else {
        b
    }
}

/// Equality of two byte strings up to ASCII case.
pub open spec fn eq_ignore_ascii_case(a: Seq<u8>, b: Seq<u8>) -> bool {
    &&& a.len() == b.len()
    &&& forall|i: int| 0 <= i < a.len() ==> ascii_lower(a[i]) == ascii_lower(b[i])
}

/// A header value made of visible ASCII characters and tabs only (those that
/// `HeaderValue::to_str` accepts).
pub open spec fn visible_ascii(v: Seq<u8>) -> bool {
    forall|i: int| 0 <= i < v.len() ==> (32 <= v[i] < 127 || v[i] == 9)
}

/// A space or a comma, the separators of the tokens of a `Connection` header.
pub open spec fn is_token_separator(b: u8) -> bool {
    b == 32 || b == 44
}

/// Whether `v`, cut at its spaces and commas, has a piece equal to `token` up to
/// ASCII case.
pub open spec fn has_token(v: Seq<u8>, token: Seq<u8>) -> bool {
    exists|i: int, j: int|
        #![trigger v.subrange(i, j)]
        0 <= i <= j <= v.len() && (i == 0 || is_token_separator(v[i - 1])) && (j == v.len() || is_token_separator(v[j]))
            && (forall|k: int| i <= k < j ==> !is_token_separator(v[k])) && eq_ignore_ascii_case(v.subrange(i, j), token)
}

/// Whether a request with this method, version and headers is a WebSocket
/// handshake that the server accepts: a GET of HTTP/1.1 or later whose first
/// `Connection` value lists `upgrade`, whose first `Upgrade` value is `websocket`
/// (both in any case), whose first `Sec-WebSocket-Version` value is `13`, and that
/// has a `Sec-WebSocket-Key`.
pub open spec fn handshake_accepted(method: Seq<char>, version: HttpVersion, headers: Seq<(Seq<u8>, Seq<u8>)>) -> bool {
    &&& method == "GET"@
    &&& at_least_http11(version)
    &&& (first_header(headers, ascii("connection"@)) matches Some(v) && visible_ascii(v) && has_token(v, ascii("upgrade"@)))
    &&& (first_header(headers, ascii("upgrade"@)) matches Some(v) && visible_ascii(v) && eq_ignore_ascii_case(v, ascii("websocket"@)))
    &&& first_header(headers, ascii("sec-websocket-version"@)) == Some(ascii("13"@))
    &&& first_header(headers, ascii("sec-websocket-key"@)) is Some
}

/// The key of a WebSocket handshake: the first `Sec-WebSocket-Key` value.
pub open spec fn handshake_key(headers: Seq<(Seq<u8>, Seq<u8>)>) -> Seq<u8> {
    first_header(headers, ascii("sec-websocket-key"@))->0
}

/// The `Sec-WebSocket-Accept` value that answers the key `key`: what tungstenite's
/// `derive_accept_key` returns (the base64 form of the SHA-1 of the key followed
/// by the protocol's GUID), as bytes.
pub uninterp spec fn accept_key(key: Seq<u8>) -> Seq<u8>;

/// Calls tungstenite's `handshake::server::create_response` on a request with the
/// method, version and headers of `head`, and reads the `Sec-WebSocket-Accept`
/// header of the response it builds.
///
/// Claimed, from `create_parts` in tungstenite 0.13: the request is accepted
/// exactly when the method is GET, the version is HTTP/1.1 or later, the first
/// `Connection` value is visible ASCII and lists `Upgrade` among its space- or
/// comma-separated pieces (in any case), the first `Upgrade` value is visible ASCII
/// and equals `websocket` in any case, the first `Sec-WebSocket-Version` value is
/// `13`, and a `Sec-WebSocket-Key` is present; the response then carries
/// `derive_accept_key` of the first key's bytes. (A method that is no valid token
/// cannot be GET; building the response cannot fail, its headers being fixed or
/// base64.)
#[verifier::external_body]
fn websocket_handshake(head: &RequestHead) -> (r: Option<Vec<u8>>)
    ensures
        r is Some <==> handshake_accepted(head.method@, head.version, header_entries(head.headers)),
        r matches Some(accept) ==> accept@ == accept_key(handshake_key(header_entries(head.headers))),
{
    let mut request = hyper::Request::new(());
    *request.method_mut() = hyper::Method::from_bytes(head.method.as_bytes()).ok()?;
    *request.version_mut() = match head.version {
        HttpVersion::Http09 => hyper::Version::HTTP_09,
        HttpVersion::Http10 => hyper::Version::HTTP_10,
        HttpVersion::Http11 => hyper::Version::HTTP_11,
        HttpVersion::Http2 => hyper::Version::HTTP_2,
        HttpVersion::Http3 => hyper::Version::HTTP_3,
    };
    *request.headers_mut() = head.headers.clone();
    let response = async_tungstenite::tungstenite::handshake::server::create_response(&request).ok()?;
    response.headers().get("Sec-WebSocket-Accept").map(|v| v.as_bytes().to_vec())
}

/// How the router answers an HTTP request.
#[derive(Debug, PartialEq, Eq)]
pub enum RouterAnswer {
    /// An empty response with this status, at once.
    Status(u16),
    /// "Switching Protocols" with this `Sec-WebSocket-Accept` value; the
    /// connection is then upgraded to a WebSocket.
    SwitchingProtocols(Vec<u8>),
    /// The request goes to the web handler of its path, which answers it.
    Web,
}

impl RouterAnswer {
    /// The status of the answer, unless the web handler gives it.
    pub fn status(&self) -> (r: Option<u16>)
        ensures
            r == match *self {
                RouterAnswer::Status(code) => Some(code),
                RouterAnswer::SwitchingProtocols(_) => Some(STATUS_SWITCHING_PROTOCOLS),
                RouterAnswer::Web => None,
            },
    {
        match self {
            RouterAnswer::Status(code) => Some(*code),
            RouterAnswer::SwitchingProtocols(_) => Some(STATUS_SWITCHING_PROTOCOLS),
            RouterAnswer::Web => None,
        }
    }
}

/// How the router answers `head`, given the table of the server's endpoints:
/// "No Content" for the icon, "Not Found" for a path without endpoint, the web
/// handler for a web path, and for a WebSocket path either "Switching
/// Protocols" with the accept value of the handshake or, when the handshake is
/// refused, "Bad Request".
pub fn answer(table: &PathTable, head: &RequestHead) -> (r: RouterAnswer)
    ensures
        match route_of(table@, head.path@) {
            Route::NoContent => r == RouterAnswer::Status(STATUS_NO_CONTENT),
            Route::NotFound => r == RouterAnswer::Status(STATUS_NOT_FOUND),
            Route::Web => r == RouterAnswer::Web,
            Route::Upgrade => if handshake_accepted(head.method@, head.version, header_entries(head.headers)) {
                r matches RouterAnswer::SwitchingProtocols(a) && a@ == accept_key(handshake_key(header_entries(head.headers)))
            } else {
                r == RouterAnswer::Status(STATUS_BAD_REQUEST)
            },
        },
        head.path@ == "/favicon.ico"@ ==> r == RouterAnswer::Status(STATUS_NO_CONTENT),
        head.path@ != "/favicon.ico"@ && !table@.contains_key(head.path@) ==> r == RouterAnswer::Status(STATUS_NOT_FOUND),
        head.path@ != "/favicon.ico"@ && table@.contains_key(head.path@) && table@[head.path@] == ForPath::Web ==> r == RouterAnswer::Web,
        head.path@ != "/favicon.ico"@ && table@.contains_key(head.path@) && table@[head.path@] == ForPath::Socket ==> (
            r == RouterAnswer::Status(STATUS_BAD_REQUEST) || r is SwitchingProtocols),
{
    match table.route(head.path.as_str()) {
        Route::NoContent => RouterAnswer::Status(STATUS_NO_CONTENT),
        Route::NotFound => RouterAnswer::Status(STATUS_NOT_FOUND),
        Route::Web => RouterAnswer::Web,
        Route::Upgrade => match websocket_handshake(head) {
            Some(accept) => RouterAnswer::SwitchingProtocols(accept),
            None => RouterAnswer::Status(STATUS_BAD_REQUEST),
        },
    }
}

/// The HTTP service that hands each new connection of a server to a router.
pub struct HttpService<E> {
    engine: E,
}

impl<E> HttpService<E> {
    /// The server that this service serves.
    pub closed spec fn spec_engine(&self) -> E {
        self.engine
    }

    /// A service for the server `engine`.
    pub fn new(engine: E) -> (r: Self)
        ensures
            r.spec_engine() == engine,
    {
        HttpService { engine }
    }

    /// The server that this service serves.
    pub fn engine(&self) -> (r: &E)
        ensures
            *r == self.spec_engine(),
    {
        &self.engine
    }
}

} // verus!
