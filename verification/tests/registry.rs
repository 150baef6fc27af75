use blunt::server::{plan_recv, SessionRegistry, SessionReply, SessionRequest};
use blunt::websocket::{ConnectionContext, WebSocketMessage, WebSocketSession};
use hyper::HeaderMap;
use tokio::sync::mpsc::unbounded_channel;

fn session(id: u128, path: &str) -> WebSocketSession {
    let (tx, _rx) = unbounded_channel();
    let ctx = ConnectionContext::new(None, HeaderMap::new(), String::new(), path.to_string());
    WebSocketSession::new(id, ctx, tx)
}

#[test]
fn add_then_get_and_path() {
    let mut r = SessionRegistry::new();
    assert_eq!(r.len(), 0);
    r.add(session(1, "/echo"));
    assert_eq!(r.len(), 1);
    assert!(r.contains(1));
    assert_eq!(r.get(1).map(|s| s.id()), Some(1));
    assert_eq!(r.path_of(1), Some("/echo".to_string()));
    assert!(r.get(2).is_none());
    assert_eq!(r.path_of(2), None);
}

#[test]
fn a_fetched_session_sends_to_its_own_client() {
    let (tx1, mut rx1) = unbounded_channel();
    let (tx2, mut rx2) = unbounded_channel();
    let ctx = || ConnectionContext::new(None, HeaderMap::new(), String::new(), "/chat".to_string());
    let mut r = SessionRegistry::new();
    r.add(WebSocketSession::new(1, ctx(), tx1));
    r.add(WebSocketSession::new(2, ctx(), tx2));
    let s = r.get(2).expect("session 2 is there");
    assert!(s.send(WebSocketMessage::Text("to two".to_string())).is_ok());
    assert_eq!(rx2.try_recv().ok(), Some(WebSocketMessage::Text("to two".to_string())));
    assert!(rx1.try_recv().is_err());
}

#[test]
fn add_with_same_id_replaces() {
    let mut r = SessionRegistry::new();
    r.add(session(1, "/a"));
    r.add(session(1, "/b"));
    assert_eq!(r.len(), 1);
    assert_eq!(r.path_of(1), Some("/b".to_string()));
}

#[test]
fn remove_hands_back_the_session() {
    let mut r = SessionRegistry::new();
    r.add(session(5, "/chat"));
    r.add(session(6, "/chat"));
    let removed = r.remove(5).expect("session 5 is there");
    assert_eq!(removed.id(), 5);
    assert_eq!(removed.context().path(), "/chat");
    assert!(!r.contains(5));
    assert!(r.remove(5).is_none());
    assert_eq!(r.len(), 1);
}

#[test]
fn metrics_count_sessions_per_path() {
    let mut r = SessionRegistry::new();
    r.add(session(1, "/echo"));
    r.add(session(2, "/echo"));
    r.add(session(3, "/chat"));
    let m = r.metrics();
    assert_eq!(m.total_sessions(), 3);
    assert_eq!(m.paths_len(), 2);
    assert_eq!(m.sessions_on_path("/echo"), 2);
    assert_eq!(m.sessions_on_path("/chat"), 1);
    assert_eq!(m.sessions_on_path("/other"), 0);
    let copy = m.clone();
    assert_eq!(copy.total_sessions(), 3);
    assert_eq!(copy.sessions_on_path("/echo"), 2);
}

#[test]
fn metrics_of_an_empty_registry() {
    let r = SessionRegistry::new();
    let m = r.metrics();
    assert_eq!(m.total_sessions(), 0);
    assert_eq!(m.paths_len(), 0);
}

#[test]
fn metrics_after_last_session_of_a_path_leaves() {
    let mut r = SessionRegistry::new();
    r.add(session(1, "/echo"));
    r.add(session(2, "/chat"));
    r.remove(2);
    let m = r.metrics();
    assert_eq!(m.total_sessions(), 1);
    assert_eq!(m.paths_len(), 1);
    assert_eq!(m.sessions_on_path("/chat"), 0);
}

#[test]
fn counts_add_up_to_the_total() {
    let mut r = SessionRegistry::new();
    let paths = ["/a", "/b", "/a", "/c", "/a", "/b"];
    for (i, p) in paths.iter().enumerate() {
        r.add(session(i as u128 + 10, p));
    }
    let m = r.metrics();
    let sum = m.sessions_on_path("/a") + m.sessions_on_path("/b") + m.sessions_on_path("/c");
    assert_eq!(sum, m.total_sessions());
    assert_eq!(m.sessions_on_path("/a"), 3);
}

#[test]
fn apply_answers_each_request() {
    let mut r = SessionRegistry::new();
    assert!(matches!(r.apply(SessionRequest::Add(session(1, "/x"))), SessionReply::NoReply));
    match r.apply(SessionRequest::GetPath(1)) {
        SessionReply::Path(p) => assert_eq!(p, Some("/x".to_string())),
        _ => panic!("expected a path"),
    }
    match r.apply(SessionRequest::GetPath(2)) {
        SessionReply::Path(p) => assert_eq!(p, None),
        _ => panic!("expected a path"),
    }
    match r.apply(SessionRequest::Get(1)) {
        SessionReply::Session(s) => assert_eq!(s.id(), 1),
        _ => panic!("expected a session"),
    }
    assert!(matches!(r.apply(SessionRequest::Get(2)), SessionReply::NoReply));
    match r.apply(SessionRequest::Metrics) {
        SessionReply::Metrics(m) => assert_eq!(m.total_sessions(), 1),
        _ => panic!("expected metrics"),
    }
    match r.apply(SessionRequest::Remove(1)) {
        SessionReply::Session(s) => assert_eq!(s.id(), 1),
        _ => panic!("expected the removed session"),
    }
    assert!(matches!(r.apply(SessionRequest::Remove(1)), SessionReply::NoReply));
    assert_eq!(r.len(), 0);
}

#[test]
fn close_from_a_known_session_removes_it() {
    let plan = plan_recv(Some("/echo".to_string()), &WebSocketMessage::Close(None));
    assert_eq!(plan.dispatch_to, Some("/echo".to_string()));
    assert!(plan.remove_session);
}

#[test]
fn other_messages_keep_the_session() {
    let plan = plan_recv(Some("/echo".to_string()), &WebSocketMessage::Text("hi".to_string()));
    assert_eq!(plan.dispatch_to, Some("/echo".to_string()));
    assert!(!plan.remove_session);
}

#[test]
fn messages_from_unknown_sessions_are_dropped() {
    let plan = plan_recv(None, &WebSocketMessage::Close(None));
    assert_eq!(plan.dispatch_to, None);
    assert!(!plan.remove_session);
}

fn send_sync<T: Send + Sync>(_: &T) {}

#[test]
fn library_types_are_send_and_sync() {
    let r = SessionRegistry::new();
    send_sync(&r);
    let e: blunt::endpoints::Endpoints<u8> = blunt::endpoints::Endpoints::new();
    send_sync(&e);
    send_sync(&e.get_paths());
    send_sync(&r.metrics());
}
