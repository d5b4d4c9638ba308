use sidecar_link::scanner::{ProcessEvent, Scanner};

#[test]
fn no_publication_without_signal() {
    let mut s = Scanner::awaiting_printed_port();
    let chunks: Vec<&[u8]> = vec![
        b"starting up",
        b"loading model 3 of 4",
        b"",
        b"port soon",
        b"12a4",
        b"65536",
    ];
    for c in chunks {
        assert_eq!(s.on_event(&ProcessEvent::Stdout(c.to_vec())), None);
    }
    assert_eq!(s.on_event(&ProcessEvent::Failure("boom".to_string())), None);
    assert_eq!(s.on_event(&ProcessEvent::Terminated(Some(1))), None);
}

#[test]
fn publishes_printed_port_exactly_once() {
    let mut s = Scanner::awaiting_printed_port();
    assert_eq!(s.on_event(&ProcessEvent::Stdout(b"warming up".to_vec())), None);
    assert_eq!(s.on_event(&ProcessEvent::Stdout(b"54321\n".to_vec())), Some(54321));
    // Further matching chunks arrive afterwards: nothing more is published.
    assert_eq!(s.on_event(&ProcessEvent::Stdout(b"54321\n".to_vec())), None);
    assert_eq!(s.on_event(&ProcessEvent::Stdout(b"9999".to_vec())), None);
}

#[test]
fn publishes_port_from_stderr_chunk_too() {
    let mut s = Scanner::awaiting_printed_port();
    assert_eq!(s.on_event(&ProcessEvent::Stderr(b" 6001 ".to_vec())), Some(6001));
}

#[test]
fn marker_confirms_preassigned_port() {
    let mut s = Scanner::awaiting_marker(9999, b"Uvicorn".to_vec());
    assert_eq!(
        s.on_event(&ProcessEvent::Stderr(b"INFO: something else".to_vec())),
        None
    );
    assert_eq!(
        s.on_event(&ProcessEvent::Stderr(b"INFO: Uvicorn running".to_vec())),
        Some(9999)
    );
    assert_eq!(
        s.on_event(&ProcessEvent::Stderr(b"INFO: Uvicorn running".to_vec())),
        None
    );
}

#[test]
fn marker_inside_invalid_utf8_chunk_does_not_confirm() {
    let mut s = Scanner::awaiting_marker(9999, b"Uvicorn".to_vec());
    let mut chunk = b"Uvicorn".to_vec();
    chunk.push(0xff);
    chunk.push(0xfe);
    assert_eq!(s.on_event(&ProcessEvent::Stderr(chunk)), None);
}

#[test]
fn termination_before_readiness_does_not_publish() {
    let mut s = Scanner::awaiting_marker(4242, b"ready".to_vec());
    assert_eq!(s.on_event(&ProcessEvent::Terminated(Some(2))), None);
    assert_eq!(s.on_event(&ProcessEvent::Terminated(None)), None);
    // The scanner is still scanning: a later signal is accepted.
    assert_eq!(s.on_event(&ProcessEvent::Stdout(b"ready".to_vec())), Some(4242));
}
