use sidecar_link::transport::{
    json_source, line_message, listener_step, loopback_addr, text_frame_note, ws_url, Frame,
    ListenerAction, ReadEvent, TextNote,
};
use sidecar_link::SupervisorError;

#[test]
fn builds_ws_url() {
    assert_eq!(
        ws_url(9999, "0a1b2c3d-0000-4000-8000-000000000000"),
        "ws://127.0.0.1:9999/ws/0a1b2c3d-0000-4000-8000-000000000000"
    );
    assert_eq!(ws_url(1, ""), "ws://127.0.0.1:1/ws/");
}

#[test]
fn builds_loopback_addr() {
    assert_eq!(loopback_addr(54321), "127.0.0.1:54321");
    assert_eq!(loopback_addr(0), "127.0.0.1:0");
}

#[test]
fn frames_text_lines() {
    assert_eq!(line_message("ping"), b"ping\n".to_vec());
    assert_eq!(line_message(""), b"\n".to_vec());
}

#[test]
fn listener_continues_on_ordinary_frames() {
    assert_eq!(
        listener_step(&ReadEvent::Frame(Frame::Text("hi".to_string()))),
        ListenerAction::Continue
    );
    assert_eq!(
        listener_step(&ReadEvent::Frame(Frame::Binary(vec![1, 2, 3]))),
        ListenerAction::Continue
    );
    assert_eq!(
        listener_step(&ReadEvent::Frame(Frame::Ping(vec![]))),
        ListenerAction::Continue
    );
    assert_eq!(
        listener_step(&ReadEvent::Frame(Frame::Pong(vec![]))),
        ListenerAction::Continue
    );
}

#[test]
fn listener_stops_when_peer_closes() {
    assert_eq!(listener_step(&ReadEvent::Frame(Frame::Close)), ListenerAction::Stop);
    assert_eq!(listener_step(&ReadEvent::Closed), ListenerAction::Stop);
}

#[test]
fn listener_fails_on_read_error() {
    assert_eq!(
        listener_step(&ReadEvent::Failed("reset".to_string())),
        ListenerAction::Fail
    );
}

#[test]
fn classifies_text_frames() {
    assert_eq!(text_frame_note("{\"a\":1}"), TextNote::WellFormedJson);
    assert_eq!(text_frame_note("[1,2,3]"), TextNote::WellFormedJson);
    assert_eq!(text_frame_note("not json"), TextNote::PlainText);
    assert_eq!(text_frame_note("{\"a\":"), TextNote::PlainText);
}

#[test]
fn extracts_json_source_bytes() {
    assert_eq!(
        json_source(Frame::Text("héllo".to_string())),
        Some("héllo".as_bytes().to_vec())
    );
    assert_eq!(json_source(Frame::Binary(vec![4, 5])), Some(vec![4, 5]));
    assert_eq!(json_source(Frame::Ping(vec![1])), None);
    assert_eq!(json_source(Frame::Pong(vec![])), None);
    assert_eq!(json_source(Frame::Close), None);
}

#[test]
fn error_messages_name_each_kind() {
    assert_eq!(
        SupervisorError::PortAllocation.message(),
        "no ephemeral port could be obtained"
    );
    assert_eq!(
        SupervisorError::Spawn.message(),
        "the worker binary could not be spawned"
    );
    assert_eq!(
        SupervisorError::ReadinessTimeout.message(),
        "the worker did not signal readiness in time"
    );
    assert_eq!(
        SupervisorError::Connection.message(),
        "could not connect to the worker after readiness"
    );
    assert_eq!(SupervisorError::Write.message(), "a send to the worker failed");
    assert_eq!(
        SupervisorError::Serialization.message(),
        "the outbound payload could not be encoded"
    );
    assert_eq!(
        SupervisorError::Listen.message(),
        "reading from the worker connection failed"
    );
}
