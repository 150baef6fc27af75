use blunt::websocket::{
    ConnectionContext, HandlerCall, PeerAddr, WebSocketMessage, WebSocketSession, CLOSE_ABNORMAL, CloseFrame,
};
use hyper::header::HeaderValue;
use hyper::HeaderMap;
use tokio::sync::mpsc::unbounded_channel;

fn headers() -> HeaderMap {
    let mut h = HeaderMap::new();
    h.insert("host", HeaderValue::from_static("localhost"));
    h.append("accept", HeaderValue::from_static("a"));
    h.append("accept", HeaderValue::from_static("b"));
    h
}

#[test]
fn empty_query_means_no_query() {
    let ctx = ConnectionContext::new(None, HeaderMap::new(), String::new(), "/echo".to_string());
    assert_eq!(ctx.query(), None);
    assert_eq!(ctx.path(), "/echo");
    assert_eq!(ctx.addr(), None);
}

#[test]
fn non_empty_query_is_kept() {
    let addr = PeerAddr::V4(0x7f000001, 3000);
    let ctx = ConnectionContext::new(Some(addr), HeaderMap::new(), "a=1&b=2".to_string(), "/chat".to_string());
    assert_eq!(ctx.query(), Some("a=1&b=2".to_string()));
    assert_eq!(ctx.addr(), Some(PeerAddr::V4(0x7f000001, 3000)));
    let v6 = PeerAddr::V6(1, 443, 7, 2);
    let ctx = ConnectionContext::new(Some(v6), HeaderMap::new(), String::new(), "/".to_string());
    assert_eq!(ctx.addr(), Some(PeerAddr::V6(1, 443, 7, 2)));
}

#[test]
fn from_parts_reads_path_and_query() {
    let ctx = ConnectionContext::from_parts("/p".to_string(), Some("x=y".to_string()), HeaderMap::new());
    assert_eq!(ctx.path(), "/p");
    assert_eq!(ctx.query(), Some("x=y".to_string()));
    assert_eq!(ctx.addr(), None);
    let ctx = ConnectionContext::from_parts("/p".to_string(), None, HeaderMap::new());
    assert_eq!(ctx.query(), None);
    let ctx = ConnectionContext::from_parts("/p".to_string(), Some(String::new()), HeaderMap::new());
    assert_eq!(ctx.query(), None);
}

#[test]
fn headers_are_copied() {
    let ctx = ConnectionContext::new(None, headers(), String::new(), "/".to_string());
    let h = ctx.headers();
    assert_eq!(h.len(), 3);
    assert_eq!(h.get("host").unwrap(), "localhost");
    assert_eq!(h.get_all("accept").iter().count(), 2);
    let copy = ctx.clone();
    assert_eq!(copy.headers().len(), 3);
    assert_eq!(copy.path(), "/");
}

#[test]
fn close_messages_are_recognised() {
    assert!(WebSocketMessage::Close(None).is_close());
    assert!(WebSocketMessage::Close(Some(CloseFrame { code: 1000, reason: "bye".to_string() })).is_close());
    assert!(!WebSocketMessage::Text("x".to_string()).is_close());
    assert!(!WebSocketMessage::Binary(vec![1]).is_close());
    assert!(!WebSocketMessage::Ping(vec![]).is_close());
    assert!(!WebSocketMessage::Pong(vec![]).is_close());
}

#[test]
fn messages_go_to_their_hooks() {
    assert_eq!(WebSocketMessage::Text("hi".to_string()).into_handler_call(), HandlerCall::Text("hi".to_string()));
    assert_eq!(WebSocketMessage::Binary(vec![1, 2]).into_handler_call(), HandlerCall::Binary(vec![1, 2]));
    assert_eq!(WebSocketMessage::Ping(vec![3]).into_handler_call(), HandlerCall::Ping(vec![3]));
    assert_eq!(WebSocketMessage::Close(None).into_handler_call(), HandlerCall::Close(None));
}

#[test]
fn pong_goes_to_the_ping_hook() {
    assert_eq!(WebSocketMessage::Pong(vec![9]).into_handler_call(), HandlerCall::Ping(vec![9]));
}

#[test]
fn abnormal_close_carries_code_1006() {
    let m = WebSocketMessage::abnormal_close("Receiving from websocket: broken".to_string());
    assert_eq!(
        m,
        WebSocketMessage::Close(Some(CloseFrame { code: 1006, reason: "Receiving from websocket: broken".to_string() }))
    );
    assert_eq!(CLOSE_ABNORMAL, 1006);
}

#[test]
fn session_keeps_id_and_context() {
    let (tx, _rx) = unbounded_channel();
    let ctx = ConnectionContext::new(None, HeaderMap::new(), String::new(), "/echo".to_string());
    let s = WebSocketSession::new(77, ctx, tx);
    assert_eq!(s.id(), 77);
    assert_eq!(s.context().path(), "/echo");
    let c = s.clone();
    assert_eq!(c.id(), 77);
    assert_eq!(c.context().path(), "/echo");
}

#[test]
fn send_reaches_the_channel() {
    let (tx, mut rx) = unbounded_channel();
    let ctx = ConnectionContext::new(None, HeaderMap::new(), String::new(), "/".to_string());
    let s = WebSocketSession::new(1, ctx, tx);
    assert!(s.send(WebSocketMessage::Text("a".to_string())).is_ok());
    let other = s.channel();
    other.send(WebSocketMessage::Text("b".to_string())).unwrap();
    assert_eq!(rx.try_recv().ok(), Some(WebSocketMessage::Text("a".to_string())));
    assert_eq!(rx.try_recv().ok(), Some(WebSocketMessage::Text("b".to_string())));
}

#[test]
fn send_hands_the_message_back_when_closed() {
    let (tx, rx) = unbounded_channel();
    let ctx = ConnectionContext::new(None, HeaderMap::new(), String::new(), "/".to_string());
    let s = WebSocketSession::new(1, ctx, tx);
    drop(rx);
    match s.send(WebSocketMessage::Binary(vec![5, 6])) {
        Err(e) => assert_eq!(e.0, WebSocketMessage::Binary(vec![5, 6])),
        Ok(()) => panic!("the channel is closed"),
    }
}

#[test]
fn a_read_message_is_passed_on() {
    let (m, keep) = blunt::websocket::read_outcome(Ok(WebSocketMessage::Text("x".to_string())));
    assert_eq!(m, WebSocketMessage::Text("x".to_string()));
    assert!(keep);
}

#[test]
fn a_failed_read_closes_abnormally_and_stops() {
    let (m, keep) = blunt::websocket::read_outcome(Err("Receiving from websocket: Io".to_string()));
    assert_eq!(
        m,
        WebSocketMessage::Close(Some(CloseFrame { code: 1006, reason: "Receiving from websocket: Io".to_string() }))
    );
    assert!(!keep);
}
