use tcp_exerciser::client::{tuning_plan, SendAction, Sender, TuningPlan};
use tcp_exerciser::gate::{classify, IoFailure, IoOutcome};
use tcp_exerciser::payload::{decimal_bytes, payload};
use tcp_exerciser::reader::{
    decode_lossy, recv_buffer, ConnectionReader, ReaderAction, ReaderEvent, RECV_BUFFER_LEN,
};
use tcp_exerciser::server::{on_accept, AcceptAction};

fn done(n: usize) -> ReaderEvent {
    ReaderEvent::Attempted(IoOutcome::Done(n))
}

fn buffer_with(bytes: &[u8]) -> Vec<u8> {
    let mut buf = recv_buffer();
    buf[..bytes.len()].copy_from_slice(bytes);
    buf
}

#[test]
fn decimal_renders_digits() {
    assert_eq!(decimal_bytes(0), b"0".to_vec());
    assert_eq!(decimal_bytes(7), b"7".to_vec());
    assert_eq!(decimal_bytes(10), b"10".to_vec());
    assert_eq!(decimal_bytes(4096), b"4096".to_vec());
    assert_eq!(decimal_bytes(u64::MAX), b"18446744073709551615".to_vec());
}

#[test]
fn payload_carries_counter() {
    assert_eq!(payload(1), b"hello world! 1".to_vec());
    assert_eq!(payload(42), b"hello world! 42".to_vec());
}

#[test]
fn counter_increases_by_one_per_cycle() {
    let mut s = Sender::new();
    assert_eq!(s.count(), 0);
    for k in 1..=5u64 {
        let p = s.begin_cycle();
        assert_eq!(s.count(), k);
        assert_eq!(p, format!("hello world! {k}").into_bytes());
        // a would-block cycle still counts
        let a = if k % 2 == 0 {
            s.after_attempt(&p, IoOutcome::NotReady)
        } else {
            s.after_attempt(&p, IoOutcome::Done(p.len()))
        };
        assert!(!matches!(a, SendAction::Abort(_)));
    }
    assert_eq!(s.count(), 5);
    assert!(s.can_begin());
}

#[test]
fn send_outcomes() {
    let mut s = Sender::new();
    let p = s.begin_cycle();
    assert!(matches!(s.after_attempt(&p, IoOutcome::Done(3)), SendAction::Sent));
    assert!(matches!(s.after_attempt(&p, IoOutcome::NotReady), SendAction::WouldBlock));
    match s.after_attempt(&p, IoOutcome::Fatal("broken pipe".to_string())) {
        SendAction::Abort(e) => assert_eq!(e, "broken pipe"),
        other => panic!("unexpected {other:?}"),
    }
    assert_eq!(s.count(), 1);
}

#[test]
fn tuning_follows_capability() {
    assert_eq!(
        tuning_plan(true, Some(30)),
        TuningPlan { keepalive: true, idle_timeout_secs: Some(30) }
    );
    assert_eq!(
        tuning_plan(false, Some(30)),
        TuningPlan { keepalive: true, idle_timeout_secs: None }
    );
    assert_eq!(
        tuning_plan(true, None),
        TuningPlan { keepalive: true, idle_timeout_secs: None }
    );
}

#[test]
fn classify_three_ways() {
    assert!(matches!(classify(Ok(5)), IoOutcome::Done(5)));
    assert!(matches!(classify(Ok(0)), IoOutcome::Done(0)));
    let wb = IoFailure { would_block: true, message: "would block".to_string() };
    assert!(matches!(classify(Err(wb)), IoOutcome::NotReady));
    let other = IoFailure { would_block: false, message: "reset".to_string() };
    match classify(Err(other)) {
        IoOutcome::Fatal(m) => assert_eq!(m, "reset"),
        o => panic!("unexpected {o:?}"),
    }
}

#[test]
fn receive_buffer_is_fixed_size() {
    let buf = recv_buffer();
    assert_eq!(buf.len(), RECV_BUFFER_LEN);
    assert_eq!(RECV_BUFFER_LEN, 1024);
    assert!(buf.iter().all(|b| *b == 0));
}

#[test]
fn reader_logs_received_text() {
    let mut r = ConnectionReader::new("10.0.0.1:4000".to_string());
    let buf = buffer_with(b"hello world! 1xyz");
    match r.step(done(14), &buf) {
        ReaderAction::Received(t) => assert_eq!(t, "hello world! 1"),
        o => panic!("unexpected {o:?}"),
    }
    assert!(!r.is_ended());
}

#[test]
fn reader_retries_on_not_ready() {
    let mut r = ConnectionReader::new("p".to_string());
    let buf = recv_buffer();
    assert!(matches!(r.step(ReaderEvent::Attempted(IoOutcome::NotReady), &buf), ReaderAction::Retry));
    assert!(!r.is_ended());
}

#[test]
fn zero_length_read_ends_task() {
    let mut r = ConnectionReader::new("127.0.0.1:5555".to_string());
    let buf = recv_buffer();
    match r.step(done(0), &buf) {
        ReaderAction::Closed { peer, error } => {
            assert_eq!(peer, "127.0.0.1:5555");
            assert!(error.is_none());
        }
        o => panic!("unexpected {o:?}"),
    }
    assert!(r.is_ended());
}

#[test]
fn reader_errors_end_task() {
    let buf = recv_buffer();
    let mut r = ConnectionReader::new("a".to_string());
    match r.step(ReaderEvent::Attempted(IoOutcome::Fatal("reset".to_string())), &buf) {
        ReaderAction::Closed { peer, error } => {
            assert_eq!(peer, "a");
            assert_eq!(error.as_deref(), Some("reset"));
        }
        o => panic!("unexpected {o:?}"),
    }
    let mut r = ConnectionReader::new("b".to_string());
    match r.step(ReaderEvent::WaitFailed("gone".to_string()), &buf) {
        ReaderAction::Closed { peer, error } => {
            assert_eq!(peer, "b");
            assert_eq!(error.as_deref(), Some("gone"));
        }
        o => panic!("unexpected {o:?}"),
    }
    assert!(r.is_ended());
}

#[test]
fn malformed_bytes_are_decoded_lossily() {
    let mut r = ConnectionReader::new("x".to_string());
    let buf = buffer_with(&[0xFF, 0xFE]);
    match r.step(done(2), &buf) {
        ReaderAction::Received(t) => assert_eq!(t, "\u{FFFD}\u{FFFD}"),
        o => panic!("unexpected {o:?}"),
    }
    assert!(!r.is_ended());
}

#[test]
fn decode_lossy_changes_only_invalid_bytes() {
    assert_eq!(decode_lossy(b"abc"), "abc");
    assert_eq!(decode_lossy(&[b'a', 0xFF, b'b']), "a\u{FFFD}b");
    assert_eq!(decode_lossy(&[]), "");
}

#[test]
fn split_stream_is_logged_in_order() {
    let mut r = ConnectionReader::new("p".to_string());
    let mut logged = String::new();
    for chunk in [&b"hello wo"[..], b"rld! 1hello", b" world! 2"] {
        let buf = buffer_with(chunk);
        match r.step(done(chunk.len()), &buf) {
            ReaderAction::Received(t) => logged.push_str(&t),
            o => panic!("unexpected {o:?}"),
        }
    }
    assert_eq!(logged, "hello world! 1hello world! 2");
}

#[test]
fn closing_in_reverse_order_names_each_peer_once() {
    let n = 4;
    let mut tasks: Vec<ConnectionReader> = Vec::new();
    for i in 0..n {
        match on_accept(Ok(format!("10.0.0.{i}:600{i}"))) {
            AcceptAction::Spawn(t) => tasks.push(t),
            AcceptAction::Abort(e) => panic!("unexpected abort {e}"),
        }
    }
    let buf = recv_buffer();
    let mut closed: Vec<String> = Vec::new();
    for i in (0..n).rev() {
        let t = &mut tasks[i];
        assert_eq!(t.peer(), format!("10.0.0.{i}:600{i}"));
        match t.step(done(0), &buf) {
            ReaderAction::Closed { peer, .. } => closed.push(peer),
            o => panic!("unexpected {o:?}"),
        }
        assert!(t.is_ended());
    }
    assert_eq!(closed.len(), n);
    for (k, peer) in closed.iter().enumerate() {
        let i = n - 1 - k;
        assert_eq!(peer, &format!("10.0.0.{i}:600{i}"));
    }
}

#[test]
fn server_without_connections_runs_no_reader() {
    let mut tasks: Vec<ConnectionReader> = Vec::new();
    match on_accept(Err("too many open files".to_string())) {
        AcceptAction::Spawn(t) => tasks.push(t),
        AcceptAction::Abort(e) => assert_eq!(e, "too many open files"),
    }
    assert!(tasks.is_empty());
}
