use blunt::endpoints::{Endpoints, ForPath, PathTable, Undelivered};
use blunt::service::{
    answer, HttpService, HttpVersion, RequestHead, Route, RouterAnswer, STATUS_BAD_REQUEST, STATUS_NOT_FOUND,
    STATUS_NO_CONTENT,
};
use hyper::header::HeaderValue;
use hyper::HeaderMap;
use tokio::sync::mpsc::unbounded_channel;

#[test]
fn endpoint_contains_key() {
    let mut e: Endpoints<u32> = Endpoints::default();
    let key = "ws";

    assert_eq!(e.contains_path(key), false);

    let (tx, _rx) = unbounded_channel::<u32>();
    e.register(key.to_string(), ForPath::Socket, tx);

    assert_eq!(e.contains_path(key), true);
}

#[test]
fn register_replaces_the_endpoint_of_a_path() {
    let mut e: Endpoints<u32> = Endpoints::new();
    let (tx1, mut rx1) = unbounded_channel::<u32>();
    let (tx2, mut rx2) = unbounded_channel::<u32>();
    e.register("/a".to_string(), ForPath::Socket, tx1);
    e.register("/a".to_string(), ForPath::Web, tx2);
    assert_eq!(e.len(), 1);
    assert_eq!(e.kind_of("/a"), Some(ForPath::Web));
    assert_eq!(e.handle("/a", 7), Ok(()));
    assert_eq!(rx2.try_recv().ok(), Some(7));
    assert!(rx1.try_recv().is_err());
}

#[test]
fn handle_delivers_to_the_path_handler_only() {
    let mut e: Endpoints<&'static str> = Endpoints::new();
    let (tx1, mut rx1) = unbounded_channel();
    let (tx2, mut rx2) = unbounded_channel();
    e.register("/one".to_string(), ForPath::Socket, tx1);
    e.register("/two".to_string(), ForPath::Web, tx2);
    assert_eq!(e.len(), 2);
    assert_eq!(e.handle("/two", "hello"), Ok(()));
    assert_eq!(rx2.try_recv().ok(), Some("hello"));
    assert!(rx1.try_recv().is_err());
    assert_eq!(e.handle("/three", "lost"), Err(Undelivered::NoEndpoint("lost")));
    assert!(e.sender_for("/three").is_none());
    assert!(e.sender_for("/one").is_some());
}

#[test]
fn handle_fails_when_the_handler_task_is_gone() {
    let mut e: Endpoints<u8> = Endpoints::new();
    let (tx, rx) = unbounded_channel();
    e.register("/gone".to_string(), ForPath::Socket, tx);
    drop(rx);
    assert_eq!(e.handle("/gone", 1), Err(Undelivered::HandlerGone(1)));
}

#[test]
fn get_paths_lists_the_kinds() {
    let mut e: Endpoints<u8> = Endpoints::new();
    let (tx1, _rx1) = unbounded_channel();
    let (tx2, _rx2) = unbounded_channel();
    e.register("/echo".to_string(), ForPath::Socket, tx1);
    e.register("/world".to_string(), ForPath::Web, tx2);
    let table = e.get_paths();
    assert_eq!(table.len(), 2);
    assert_eq!(table.kind_of("/echo"), Some(ForPath::Socket));
    assert_eq!(table.kind_of("/world"), Some(ForPath::Web));
    assert_eq!(table.kind_of("/other"), None);
}

#[test]
fn path_table_insert_replaces() {
    let mut t = PathTable::new();
    assert_eq!(t.len(), 0);
    t.insert("/x".to_string(), ForPath::Web);
    t.insert("/y".to_string(), ForPath::Socket);
    t.insert("/x".to_string(), ForPath::Socket);
    assert_eq!(t.len(), 2);
    assert_eq!(t.kind_of("/x"), Some(ForPath::Socket));
}

#[test]
fn routes_follow_the_table() {
    let mut t = PathTable::new();
    t.insert("/echo".to_string(), ForPath::Socket);
    t.insert("/world".to_string(), ForPath::Web);
    assert_eq!(t.route("/echo"), Route::Upgrade);
    assert_eq!(t.route("/world"), Route::Web);
    assert_eq!(t.route("/nowhere"), Route::NotFound);
    assert_eq!(t.route("/favicon.ico"), Route::NoContent);
}

#[test]
fn icon_is_answered_even_when_registered() {
    let mut t = PathTable::new();
    t.insert("/favicon.ico".to_string(), ForPath::Web);
    assert_eq!(t.route("/favicon.ico"), Route::NoContent);
    let empty = PathTable::new();
    assert_eq!(empty.route("/favicon.ico"), Route::NoContent);
}

fn head(method: &str, version: HttpVersion, path: &str, headers: &[(&'static str, &'static str)]) -> RequestHead {
    let mut map = HeaderMap::new();
    for (k, v) in headers {
        map.append(*k, HeaderValue::from_static(v));
    }
    RequestHead { method: method.to_string(), version, path: path.to_string(), headers: map }
}

const HANDSHAKE: [(&str, &str); 4] = [
    ("Connection", "keep-alive, Upgrade"),
    ("Upgrade", "WebSocket"),
    ("Sec-WebSocket-Version", "13"),
    ("Sec-WebSocket-Key", "dGhlIHNhbXBsZSBub25jZQ=="),
];

fn table() -> PathTable {
    let mut t = PathTable::new();
    t.insert("/echo".to_string(), ForPath::Socket);
    t.insert("/world".to_string(), ForPath::Web);
    t
}

#[test]
fn answer_accepts_a_websocket_handshake() {
    let a = answer(&table(), &head("GET", HttpVersion::Http11, "/echo", &HANDSHAKE));
    assert_eq!(a, RouterAnswer::SwitchingProtocols(b"s3pPLMBiTxaQ9kYGzzhZRbK+xOo=".to_vec()));
    assert_eq!(a.status(), Some(101));
}

#[test]
fn answer_refuses_a_bad_handshake() {
    let t = table();
    assert_eq!(answer(&t, &head("POST", HttpVersion::Http11, "/echo", &HANDSHAKE)), RouterAnswer::Status(400));
    assert_eq!(answer(&t, &head("GET", HttpVersion::Http10, "/echo", &HANDSHAKE)), RouterAnswer::Status(400));
    assert_eq!(answer(&t, &head("GET", HttpVersion::Http11, "/echo", &HANDSHAKE[1..])), RouterAnswer::Status(400));
    assert_eq!(answer(&t, &head("GET", HttpVersion::Http11, "/echo", &HANDSHAKE[..3])), RouterAnswer::Status(400));
    let wrong_version = [HANDSHAKE[0], HANDSHAKE[1], ("Sec-WebSocket-Version", "8"), HANDSHAKE[3]];
    assert_eq!(answer(&t, &head("GET", HttpVersion::Http11, "/echo", &wrong_version)), RouterAnswer::Status(400));
    let no_upgrade_token = [("Connection", "keep-alive, Upgraded"), HANDSHAKE[1], HANDSHAKE[2], HANDSHAKE[3]];
    assert_eq!(answer(&t, &head("GET", HttpVersion::Http11, "/echo", &no_upgrade_token)), RouterAnswer::Status(400));
    assert_eq!(RouterAnswer::Status(400).status(), Some(400));
}

#[test]
fn answer_follows_the_routes() {
    let t = table();
    assert_eq!(answer(&t, &head("GET", HttpVersion::Http11, "/favicon.ico", &[])), RouterAnswer::Status(204));
    assert_eq!(answer(&t, &head("GET", HttpVersion::Http11, "/nowhere", &HANDSHAKE)), RouterAnswer::Status(404));
    assert_eq!(answer(&t, &head("GET", HttpVersion::Http2, "/world", &[])), RouterAnswer::Web);
    assert_eq!(RouterAnswer::Web.status(), None);
    assert_eq!(STATUS_NO_CONTENT, 204);
    assert_eq!(STATUS_NOT_FOUND, 404);
    assert_eq!(STATUS_BAD_REQUEST, 400);
}

#[test]
fn target_gives_the_path_channel() {
    let mut e: Endpoints<u8> = Endpoints::new();
    let (tx1, mut rx1) = unbounded_channel();
    let (tx2, mut rx2) = unbounded_channel();
    e.register("/one".to_string(), ForPath::Socket, tx1);
    e.register("/two".to_string(), ForPath::Web, tx2);
    match e.target("/two", 3) {
        Ok((tx, a)) => tx.send(a).unwrap(),
        Err(_) => panic!("/two is registered"),
    }
    assert_eq!(rx2.try_recv().ok(), Some(3));
    assert!(rx1.try_recv().is_err());
    assert!(matches!(e.target("/three", 4), Err(4)));
}

#[test]
fn http_service_keeps_its_engine() {
    let service = HttpService::new(42u64);
    assert_eq!(*service.engine(), 42);
}
