//! Transport-side logic around the connection to the worker: building the
//! connection address, framing outbound text for the raw-stream variant, and
//! deciding how the inbound listener loop reacts to what it reads.

use vstd::prelude::*;

use crate::text::dec_chars;
use vstd::string::{StrSliceExecFns, StringExecFns, StringSliceAdditionalSpecFns};

verus! {

/// The websocket address of the worker for the message-framed variant:
/// `ws://127.0.0.1:<port>/ws/<token>`.
pub fn ws_url(port: u16, token: &str) -> (r: String)
    ensures
        r@ == "ws://127.0.0.1:"@ + dec_chars(port as nat) + "/ws/"@ + token@,
{
    let mut s = "ws://127.0.0.1:".to_owned();
    let port_str = crate::text::decimal_string(port);
    s.append(port_str.as_str());
    s.append("/ws/");
    s.append(token);
    s
}

/// The loopback address of the worker for the raw-stream variant:
/// `127.0.0.1:<port>`.
pub fn loopback_addr(port: u16) -> (r: String)
    ensures
        r@ == "127.0.0.1:"@ + dec_chars(port as nat),
{
    let mut s = "127.0.0.1:".to_owned();
    let port_str = crate::text::decimal_string(port);
    s.append(port_str.as_str());
    s
}

/// An outbound text payload framed for the raw-stream variant: the text's
/// bytes terminated by one newline.
pub fn line_message(text: &str) -> (r: Vec<u8>)
    ensures
        r@ == text.spec_bytes() + seq![10u8],
{
    let mut v = text.as_bytes_vec();
    v.push(10);
    v
}

/// One discrete message unit read off the connection.
pub enum Frame {
    Text(String),
    Binary(Vec<u8>),
    Ping(Vec<u8>),
    Pong(Vec<u8>),
    Close,
}

/// What one receive on the read half yielded: a frame, a clean end of
/// stream, or a transport-level read failure.
pub enum ReadEvent {
    Frame(Frame),
    Closed,
    Failed(String),
}

/// What the listener loop does after one receive.
#[derive(Clone, Copy, PartialEq, Eq, Structural, Debug)]
pub enum ListenerAction {
    /// Keep reading: text, binary, ping and pong frames only get logged.
    Continue,
    /// Stop cleanly: the peer sent a close frame or ended the stream.
    Stop,
    /// Stop and surface a listen error: the read itself failed.
    Fail,
}

/// The action the listener loop takes on each read outcome.
pub open spec fn listener_action(ev: ReadEvent) -> ListenerAction {
    match ev {
        ReadEvent::Frame(Frame::Close) => ListenerAction::Stop,
        ReadEvent::Frame(_) => ListenerAction::Continue,
        ReadEvent::Closed => ListenerAction::Stop,
        ReadEvent::Failed(_) => ListenerAction::Fail,
    }
}

/// Decides one iteration of the inbound listener loop. The loop continues on
/// ordinary frames and terminates within this one step once the peer has
/// closed the connection or the read has failed.
pub fn listener_step(ev: &ReadEvent) -> (a: ListenerAction)
    ensures
        a == listener_action(*ev),
{
    match ev {
        ReadEvent::Frame(Frame::Close) => ListenerAction::Stop,
        ReadEvent::Frame(_) => ListenerAction::Continue,
        ReadEvent::Closed => ListenerAction::Stop,
        ReadEvent::Failed(_) => ListenerAction::Fail,
    }
}

/// The listener loop terminates within one receive cycle once the peer has
/// ended the conversation: a close frame or the end of the stream never
/// yields `Continue`, so the loop stops on the very read that observes it.
pub proof fn lemma_listener_stops_when_peer_closes(ev: ReadEvent)
    requires
        ev is Closed || ev matches ReadEvent::Frame(Frame::Close),
    ensures
        listener_action(ev) == ListenerAction::Stop,
{
}

/// Whether a text payload is well-formed JSON; what the listener's default
/// handler notes in the log for each inbound text frame.
pub uninterp spec fn json_parses(s: Seq<char>) -> bool;

/// Relies on `serde_json::from_str` for `serde_json::Value`: whether a
/// string parses as JSON is a function of its characters alone.
#[verifier::external_body]
fn is_well_formed_json(s: &str) -> (r: bool)
    ensures
        r == json_parses(s@),
{
    serde_json::from_str::<serde_json::Value>(s).is_ok()
}

/// How the listener's default handler classifies an inbound text frame.
#[derive(Clone, Copy, PartialEq, Eq, Structural, Debug)]
pub enum TextNote {
    WellFormedJson,
    PlainText,
}

/// Classifies an inbound text frame for logging: whether its payload parses
/// as JSON. A parse failure is only noted, never fatal.
pub fn text_frame_note(t: &str) -> (k: TextNote)
    ensures
        k == TextNote::WellFormedJson <==> json_parses(t@),
{
    if is_well_formed_json(t) {
        TextNote::WellFormedJson
    } else {
        TextNote::PlainText
    }
}

/// The bytes of a frame that a structured message could be decoded from:
/// the encoded text of a text frame, the payload of a binary frame, and
/// nothing for control frames.
pub open spec fn frame_json_bytes(f: Frame) -> Option<Seq<u8>> {
    match f {
        Frame::Text(t) => Some(vstd::utf8::encode_utf8(t@)),
        Frame::Binary(b) => Some(b@),
        _ => None,
    }
}

/// Extracts the bytes a structured message would be decoded from: text and
/// binary frames carry one, control frames are ignored.
pub fn json_source(f: Frame) -> (r: Option<Vec<u8>>)
    ensures
        r is Some <==> frame_json_bytes(f) is Some,
        r is Some ==> r.unwrap()@ == frame_json_bytes(f).unwrap(),
{
    match f {
        Frame::Text(t) => Some(t.as_str().as_bytes_vec()),
        Frame::Binary(b) => Some(b),
        _ => None,
    }
}

} // verus!
