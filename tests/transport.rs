use flowd::component::{Lifecycle, Phase};
use flowd::edge::{Edge, PushError};
use flowd::signal::{answer_signals, Signal};
use flowd::wakeup::Wakeup;

fn ip(s: &str) -> Vec<u8> {
    s.as_bytes().to_vec()
}

#[test]
fn edge_is_fifo() {
    let mut e = Edge::new(8);
    assert!(e.push(ip("a")).is_ok());
    assert!(e.push(ip("b")).is_ok());
    assert!(e.push(ip("c")).is_ok());
    assert_eq!(e.len(), 3);
    assert_eq!(e.pop(), Some(ip("a")));
    assert_eq!(e.pop(), Some(ip("b")));
    assert_eq!(e.pop(), Some(ip("c")));
    assert_eq!(e.pop(), None);
}

#[test]
fn full_edge_hands_packet_back() {
    let mut e = Edge::new(2);
    assert!(e.push(ip("1")).is_ok());
    assert!(e.push(ip("2")).is_ok());
    assert!(e.is_full());
    match e.push(ip("3")) {
        Err(PushError::Full(back)) => assert_eq!(back, ip("3")),
        Ok(()) => panic!("push into a full edge succeeded"),
    }
    assert_eq!(e.len(), 2);
    assert_eq!(e.pop(), Some(ip("1")));
    assert!(!e.is_full());
    assert!(e.push(ip("3")).is_ok());
    assert_eq!(e.pop(), Some(ip("2")));
    assert_eq!(e.pop(), Some(ip("3")));
}

#[test]
fn zero_capacity_edge_is_always_full() {
    let mut e = Edge::new(0);
    assert!(e.is_full());
    assert!(e.push(ip("x")).is_err());
    assert!(e.is_empty());
}

#[test]
fn abandoned_edge_drains_then_closes() {
    let mut e = Edge::new(4);
    e.push(ip("last")).unwrap();
    e.abandon();
    assert!(e.is_abandoned());
    assert!(!e.is_closed());
    assert_eq!(e.pop(), Some(ip("last")));
    assert!(e.is_closed());
    assert_eq!(e.pop(), None);
    e.abandon();
    assert!(e.is_closed());
}

#[test]
fn pass_through_keeps_bytes() {
    let mut e = Edge::new(1);
    let packet = vec![0u8, 255, 10, 13, 7];
    e.push(packet.clone()).unwrap();
    assert_eq!(e.pop(), Some(packet));
}

#[test]
fn backpressure_delivers_all_in_order() {
    let mut e = Edge::new(4);
    assert_eq!(e.capacity(), 4);
    let mut received: Vec<Vec<u8>> = Vec::new();
    let mut next = 0u8;
    while received.len() < 10 {
        while next < 10 {
            match e.push(vec![next]) {
                Ok(()) => next += 1,
                Err(PushError::Full(_)) => break,
            }
        }
        if let Some(p) = e.pop() {
            received.push(p);
        }
    }
    let expected: Vec<Vec<u8>> = (0u8..10).map(|i| vec![i]).collect();
    assert_eq!(received, expected);
}

#[test]
fn notify_before_block_returns_at_once() {
    let mut w = Wakeup::new();
    assert!(!w.is_pending());
    w.notify();
    w.notify();
    assert!(w.take());
    assert!(!w.take());
}

#[test]
fn signals_parse() {
    assert_eq!(Signal::parse(b"stop"), Signal::Stop);
    assert_eq!(Signal::parse(b"ping"), Signal::Ping);
    assert_eq!(Signal::parse(b"pong"), Signal::Pong);
    assert_eq!(Signal::parse(b"pin"), Signal::Other);
    assert_eq!(Signal::parse(b""), Signal::Other);
    assert_eq!(Signal::Pong.to_bytes(), b"pong".to_vec());
    assert_eq!(Signal::Stop.to_bytes(), b"stop".to_vec());
}

#[test]
fn three_pings_three_pongs() {
    let batch = vec![ip("ping"), ip("ping"), ip("ping")];
    let a = answer_signals(&batch);
    assert_eq!(a.replies, vec![ip("pong"), ip("pong"), ip("pong")]);
    assert!(!a.stop);
}

#[test]
fn stop_ends_the_batch() {
    let batch = vec![ip("ping"), ip("hello"), ip("stop"), ip("ping")];
    let a = answer_signals(&batch);
    assert_eq!(a.replies, vec![ip("pong")]);
    assert!(a.stop);
}

#[test]
fn lifecycle_stops_on_stop() {
    let mut l = Lifecycle::new();
    assert_eq!(l.phase(), Phase::Running);
    let a = l.on_signals(&vec![ip("ping")]);
    assert_eq!(a.replies.len(), 1);
    assert_eq!(l.phase(), Phase::Running);
    let a = l.on_signals(&vec![ip("stop")]);
    assert!(a.stop);
    assert_eq!(l.phase(), Phase::Stopped);
}

#[test]
fn lifecycle_finishes_when_all_inputs_closed() {
    let mut l = Lifecycle::new();
    assert!(!l.on_drained(&vec![true, false]));
    assert_eq!(l.phase(), Phase::Running);
    assert!(l.on_drained(&vec![true, true]));
    assert_eq!(l.phase(), Phase::Finished);
}
