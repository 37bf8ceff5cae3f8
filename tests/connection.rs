use anymaku::danmaku::{danmaku_from_entries, decode_danmaku};
use anymaku::pump::{LifecycleEvent, PumpInput, StreamPump};
use anymaku::supervisor::{ConnectionError, ConnectionSupervisor};
use anymaku::token::ConnectionToken;

fn feed(pump: &mut StreamPump, inputs: Vec<PumpInput>) -> Vec<LifecycleEvent> {
    let mut out = Vec::new();
    for input in inputs {
        if let Some(e) = pump.step(input) {
            out.push(e);
        }
    }
    out
}

fn text(s: &str) -> PumpInput {
    PumpInput::TextFrame(s.to_string())
}

#[test]
fn decode_valid_payload() {
    let d = decode_danmaku(r#"{"user":"alice","text":"hi"}"#).expect("decodes");
    assert_eq!(d.user, "alice");
    assert_eq!(d.text, "hi");
}

#[test]
fn decode_fields_in_any_order() {
    let d = decode_danmaku(r#"{"text":"hi","user":"bob"}"#).expect("decodes");
    assert_eq!(d.user, "bob");
    assert_eq!(d.text, "hi");
}

#[test]
fn decode_missing_field() {
    assert!(decode_danmaku(r#"{"user":"alice"}"#).is_none());
}

#[test]
fn decode_not_json() {
    assert!(decode_danmaku("not json").is_none());
}

#[test]
fn decode_extra_or_non_string_fields() {
    assert!(decode_danmaku(r#"{"user":"a","text":"b","room":"c"}"#).is_none());
    assert!(decode_danmaku(r#"{"user":"a","text":1}"#).is_none());
    assert!(decode_danmaku(r#"["a","b"]"#).is_none());
}

#[test]
fn entries_with_exact_keys() {
    let e = vec![("text".to_string(), "x".to_string()), ("user".to_string(), "u".to_string())];
    let d = danmaku_from_entries(e).expect("builds");
    assert_eq!(d.user, "u");
    assert_eq!(d.text, "x");
    let wrong = vec![("text".to_string(), "x".to_string()), ("name".to_string(), "u".to_string())];
    assert!(danmaku_from_entries(wrong).is_none());
    assert!(danmaku_from_entries(Vec::new()).is_none());
}

#[test]
fn one_valid_message_gives_one_event() {
    let mut pump = StreamPump::new();
    let ev = feed(
        &mut pump,
        vec![
            PumpInput::HandshakeSucceeded,
            text(r#"{"user":"alice","text":"hi"}"#),
            text(r#"{"user":"alice"}"#),
            text("not json"),
        ],
    );
    assert_eq!(ev.len(), 2);
    assert!(matches!(ev[0], LifecycleEvent::Succeeded));
    match &ev[1] {
        LifecycleEvent::MessageReceived(d) => {
            assert_eq!(d.user, "alice");
            assert_eq!(d.text, "hi");
        }
        _ => panic!("expected a message"),
    }
    assert!(!pump.is_terminated());
}

#[test]
fn lifecycle_in_order() {
    let mut pump = StreamPump::new();
    let ev = feed(
        &mut pump,
        vec![
            PumpInput::HandshakeSucceeded,
            text(r#"{"user":"a","text":"one"}"#),
            text(r#"{"user":"b","text":"two"}"#),
            PumpInput::Cancelled,
        ],
    );
    assert_eq!(ev.len(), 4);
    assert!(matches!(ev[0], LifecycleEvent::Succeeded));
    assert!(matches!(ev[1], LifecycleEvent::MessageReceived(_)));
    assert!(matches!(ev[2], LifecycleEvent::MessageReceived(_)));
    assert!(matches!(ev[3], LifecycleEvent::Closed));
    assert!(pump.is_terminated());
}

#[test]
fn failed_handshake_only_failed() {
    let mut pump = StreamPump::new();
    let ev = feed(
        &mut pump,
        vec![
            PumpInput::HandshakeFailed("unreachable".to_string()),
            PumpInput::HandshakeSucceeded,
            text(r#"{"user":"a","text":"b"}"#),
            PumpInput::Cancelled,
            PumpInput::StreamEnded,
        ],
    );
    assert_eq!(ev.len(), 1);
    match &ev[0] {
        LifecycleEvent::Failed(r) => assert_eq!(r, "unreachable"),
        _ => panic!("expected a failure"),
    }
    assert!(pump.is_terminated());
}

#[test]
fn cancel_twice_closes_once() {
    let mut pump = StreamPump::new();
    let ev = feed(
        &mut pump,
        vec![PumpInput::HandshakeSucceeded, PumpInput::Cancelled, PumpInput::Cancelled],
    );
    assert_eq!(ev.len(), 2);
    assert!(matches!(ev[1], LifecycleEvent::Closed));
}

#[test]
fn stream_end_closes_and_other_frames_are_ignored() {
    let mut pump = StreamPump::new();
    let ev = feed(
        &mut pump,
        vec![
            PumpInput::HandshakeSucceeded,
            PumpInput::OtherFrame,
            PumpInput::StreamEnded,
            text(r#"{"user":"a","text":"b"}"#),
        ],
    );
    assert_eq!(ev.len(), 2);
    assert!(matches!(ev[1], LifecycleEvent::Closed));
}

#[test]
fn cancel_while_connecting_never_streams() {
    let mut pump = StreamPump::new();
    let ev = feed(
        &mut pump,
        vec![
            text(r#"{"user":"a","text":"b"}"#),
            PumpInput::Cancelled,
            PumpInput::HandshakeSucceeded,
            text(r#"{"user":"a","text":"b"}"#),
            PumpInput::StreamEnded,
        ],
    );
    assert!(ev.is_empty());
    assert!(pump.is_terminated());
}

#[test]
fn stop_without_connection() {
    let mut sup = ConnectionSupervisor::new();
    let r = sup.stop();
    assert!(matches!(r, Err(ConnectionError::NoActiveConnection)));
    assert!(!sup.is_active());
    assert_eq!(ConnectionError::NoActiveConnection.message(), "当前没有活跃的连接");
}

#[test]
fn start_then_stop() {
    let mut sup = ConnectionSupervisor::new();
    let token = sup.start();
    assert!(sup.is_active());
    assert!(!token.cancellation().is_cancelled());
    assert!(sup.stop().is_ok());
    assert!(token.cancellation().is_cancelled());
    assert!(!sup.is_active());
    assert!(sup.stop().is_err());
}

#[test]
fn second_start_supersedes_first() {
    let mut sup = ConnectionSupervisor::new();
    let a = sup.start();
    let b = sup.start();
    assert!(a.cancellation().is_cancelled());
    assert!(!b.cancellation().is_cancelled());
    assert!(sup.is_active());
    assert!(sup.stop().is_ok());
    assert!(b.cancellation().is_cancelled());
}

#[test]
fn signal_names() {
    assert_eq!(LifecycleEvent::Succeeded.signal_name(), "connection-succeed");
    assert_eq!(LifecycleEvent::Failed("x".to_string()).signal_name(), "connection-failed");
    let d = decode_danmaku(r#"{"user":"u","text":"t"}"#).expect("decodes");
    assert_eq!(LifecycleEvent::MessageReceived(d).signal_name(), "new-danmaku");
    assert_eq!(LifecycleEvent::Closed.signal_name(), "connection-closed");
}

#[test]
fn cancel_through_one_handle_reaches_the_other() {
    let mut t = ConnectionToken::new();
    let h = t.share();
    assert!(!h.cancellation().is_cancelled());
    t.cancel();
    assert!(h.cancellation().is_cancelled());
    t.cancel();
    assert!(t.cancellation().is_cancelled());
}
