use hyper_tungstenite::tungstenite::Message;
use wss::hub::{broadcast, Hub};
use wss::registry::Registry;
use wss::session::{classify, frame_for, rejection_status, route, step, Frame, Route,
    SessionAction, SessionEvent, SessionState};

fn text(s: &str) -> Message {
    Message::Text(s.to_string())
}

#[test]
fn three_clients_hello_then_ping() {
    let mut hub = Hub::new();
    let (a, mut rx_a) = hub.connect();
    let (b, mut rx_b) = hub.connect();
    let (c, mut rx_c) = hub.connect();
    assert_eq!((a, b, c), (1, 2, 3));

    // A sends "hello": B and C each receive it exactly once, A receives nothing.
    let peers_of_a = hub.snapshot_excluding(a);
    assert_eq!(peers_of_a.len(), 2);
    let delivered = broadcast(&peers_of_a, &text("hello"));
    assert_eq!(delivered, 2);
    assert_eq!(rx_b.try_recv().unwrap(), text("hello"));
    assert!(rx_b.try_recv().is_err());
    assert_eq!(rx_c.try_recv().unwrap(), text("hello"));
    assert!(rx_c.try_recv().is_err());
    assert!(rx_a.try_recv().is_err());

    // B disconnects; C sends "ping": only A receives it, and no error
    // surfaces from the now-absent B.
    hub.disconnect(b);
    drop(rx_b);
    let peers_of_c = hub.snapshot_excluding(c);
    assert_eq!(peers_of_c.len(), 1);
    let delivered = broadcast(&peers_of_c, &text("ping"));
    assert_eq!(delivered, 1);
    assert_eq!(rx_a.try_recv().unwrap(), text("ping"));
    assert!(rx_a.try_recv().is_err());
    assert!(rx_c.try_recv().is_err());
}

#[test]
fn single_sender_order_is_kept() {
    let mut hub = Hub::new();
    let (a, _rx_a) = hub.connect();
    let (_b, mut rx_b) = hub.connect();

    let peers = hub.snapshot_excluding(a);
    broadcast(&peers, &text("first"));
    let peers = hub.snapshot_excluding(a);
    broadcast(&peers, &text("second"));
    broadcast(&peers, &text("third"));

    assert_eq!(rx_b.try_recv().unwrap(), text("first"));
    assert_eq!(rx_b.try_recv().unwrap(), text("second"));
    assert_eq!(rx_b.try_recv().unwrap(), text("third"));
    assert!(rx_b.try_recv().is_err());
}

#[test]
fn deregister_absent_id_is_a_noop() {
    let (tx, _rx) = tokio::sync::mpsc::unbounded_channel::<Message>();
    let mut reg = Registry::new();
    reg.register(5, tx);
    assert_eq!(reg.len(), 1);

    reg.deregister(7);
    assert_eq!(reg.len(), 1);
    assert!(reg.contains(5));

    reg.deregister(5);
    assert_eq!(reg.len(), 0);
    assert!(!reg.contains(5));

    reg.deregister(5);
    assert_eq!(reg.len(), 0);
}

#[test]
fn snapshot_excludes_only_self() {
    let mut reg = Registry::new();
    let (tx1, mut rx1) = tokio::sync::mpsc::unbounded_channel::<Message>();
    let (tx2, mut rx2) = tokio::sync::mpsc::unbounded_channel::<Message>();
    let (tx3, mut rx3) = tokio::sync::mpsc::unbounded_channel::<Message>();
    reg.register(1, tx1);
    reg.register(2, tx2);
    reg.register(3, tx3);

    let snap = reg.snapshot_excluding(2);
    assert_eq!(snap.len(), 2);
    broadcast(&snap, &text("fan"));
    assert_eq!(rx1.try_recv().unwrap(), text("fan"));
    assert_eq!(rx3.try_recv().unwrap(), text("fan"));
    assert!(rx2.try_recv().is_err());
}

#[test]
fn snapshot_of_empty_registry_is_empty() {
    let reg = Registry::new();
    assert_eq!(reg.snapshot_excluding(1).len(), 0);
    assert_eq!(reg.len(), 0);
    assert!(!reg.contains(1));
}

#[test]
fn ids_are_monotonic_and_never_reused() {
    let mut hub = Hub::new();
    let (a, _rx_a) = hub.connect();
    let (b, _rx_b) = hub.connect();
    assert_eq!(a, 1);
    assert_eq!(b, 2);
    hub.disconnect(a);
    let (c, _rx_c) = hub.connect();
    assert_eq!(c, 3);
    assert_eq!(hub.len(), 2);
    assert!(!hub.contains(a));
    assert!(hub.contains(b));
    assert!(hub.contains(c));
}

#[test]
fn broadcast_skips_a_gone_consumer() {
    let mut reg = Registry::new();
    let (tx1, rx1) = tokio::sync::mpsc::unbounded_channel::<Message>();
    let (tx2, mut rx2) = tokio::sync::mpsc::unbounded_channel::<Message>();
    reg.register(1, tx1);
    reg.register(2, tx2);
    drop(rx1);

    let snap = reg.snapshot_excluding(9);
    assert_eq!(snap.len(), 2);
    let delivered = broadcast(&snap, &text("still going"));
    assert_eq!(delivered, 1);
    assert_eq!(rx2.try_recv().unwrap(), text("still going"));
}

#[test]
fn non_upgrade_request_is_rejected_without_registry_mutation() {
    let hub = Hub::new();
    match route(false) {
        Route::Reject => {
            assert_eq!(rejection_status(), 404);
        }
        Route::OpenSession => unreachable!(),
    }
    assert_eq!(hub.len(), 0);
}

#[test]
fn upgrade_request_opens_a_session() {
    assert_eq!(route(true), Route::OpenSession);
}

#[test]
fn classify_keeps_payload_and_spots_close() {
    match classify(text("hello")) {
        Frame::Data(m) => assert_eq!(m, text("hello")),
        Frame::Close => unreachable!(),
    }
    match classify(Message::Binary(vec![1, 2, 3])) {
        Frame::Data(m) => assert_eq!(m, Message::Binary(vec![1, 2, 3])),
        Frame::Close => unreachable!(),
    }
    match classify(Message::Close(None)) {
        Frame::Close => {}
        Frame::Data(_) => unreachable!(),
    }
}

#[test]
fn frame_for_obeys_the_close_flag() {
    match frame_for(text("x"), false) {
        Frame::Data(m) => assert_eq!(m, text("x")),
        Frame::Close => unreachable!(),
    }
    match frame_for(text("x"), true) {
        Frame::Close => {}
        Frame::Data(_) => unreachable!(),
    }
}

#[test]
fn session_lifecycle_transitions() {
    let (s, a) = step(SessionState::Connecting, SessionEvent::Opened);
    assert_eq!((s, a), (SessionState::Active, SessionAction::Register));

    let (s, a) = step(SessionState::Active, SessionEvent::InboundData);
    assert_eq!((s, a), (SessionState::Active, SessionAction::Broadcast));

    // A close frame ends the inbound loop without broadcasting it.
    let (s, a) = step(SessionState::Active, SessionEvent::InboundClose);
    assert_eq!((s, a), (SessionState::Closing, SessionAction::Deregister));

    // A failed read or stream end is an ordinary disconnect.
    let (s, a) = step(SessionState::Active, SessionEvent::InboundEnded);
    assert_eq!((s, a), (SessionState::Closing, SessionAction::Deregister));

    // The forwarder's own exit never tears down a running inbound loop.
    let (s, a) = step(SessionState::Active, SessionEvent::ForwarderDone);
    assert_eq!((s, a), (SessionState::Active, SessionAction::Idle));

    let (s, a) = step(SessionState::Closing, SessionEvent::ForwarderDone);
    assert_eq!((s, a), (SessionState::Terminated, SessionAction::Idle));

    let (s, a) = step(SessionState::Terminated, SessionEvent::InboundData);
    assert_eq!((s, a), (SessionState::Terminated, SessionAction::Idle));
}
