//! Readiness scanner: consumes the worker's output events chunk by chunk
//! while waiting for the readiness signal, publishes the confirmed port on
//! the first match, and from then on only drains further output.

use vstd::prelude::*;

use crate::text::{contains_bytes, contains_seq, parse_port, parse_port_spec, utf8_valid};
use vstd::utf8::valid_utf8;

verus! {

/// One event from the worker's process-event stream: an output chunk from
/// either stream, a runtime error report, or termination with an exit code.
pub enum ProcessEvent {
    Stdout(Vec<u8>),
    Stderr(Vec<u8>),
    Failure(String),
    Terminated(Option<i32>),
}

/// Which readiness signal the scanner looks for.
///
/// `PortFromOutput` is the form used when the worker picks its own port and
/// prints it alone: a chunk whose trimmed text parses as an integer within
/// `u16` confirms that port. `MarkerConfirms` is the form used when the
/// supervisor chose the port beforehand: a chunk containing the marker
/// substring confirms the pre-assigned port.
pub enum ScanMode {
    PortFromOutput,
    MarkerConfirms { port: u16, marker: Vec<u8> },
}

/// The readiness scanner. It starts scanning and switches to draining on the
/// first signalling chunk; while draining it never publishes again.
pub struct Scanner {
    pub mode: ScanMode,
    pub draining: bool,
}

/// The payload bytes of an event, for the two chunk-carrying events.
pub open spec fn chunk_of(ev: ProcessEvent) -> Option<Seq<u8>> {
    match ev {
        ProcessEvent::Stdout(b) => Some(b@),
        ProcessEvent::Stderr(b) => Some(b@),
        ProcessEvent::Failure(_) => None,
        ProcessEvent::Terminated(_) => None,
    }
}

/// The port a chunk confirms under the given mode, if any.
///
/// In `PortFromOutput` mode a chunk signals exactly when its trimmed text is
/// a decimal integer within `u16`; such a chunk is ASCII, hence always
/// survives the decode step (`crate::text::lemma_port_chunk_is_text`). In
/// `MarkerConfirms` mode a chunk signals when it is well-formed UTF-8 and
/// contains the marker bytes.
pub open spec fn chunk_signal(mode: ScanMode, chunk: Seq<u8>) -> Option<u16> {
    match mode {
        ScanMode::PortFromOutput => parse_port_spec(chunk),
        ScanMode::MarkerConfirms { port, marker } => {
            if valid_utf8(chunk) && contains_seq(chunk, marker@) {
                Some(port)
            } else {
                None
            }
        },
    }
}

/// The port an event confirms under the given mode, if any. Error and
/// termination events never confirm readiness.
pub open spec fn event_signal(mode: ScanMode, ev: ProcessEvent) -> Option<u16> {
    match chunk_of(ev) {
        Some(c) => chunk_signal(mode, c),
        None => None,
    }
}

/// One scanner step: the state after consuming the event, and the port
/// published by that step, if any.
pub open spec fn scan_step(s: Scanner, ev: ProcessEvent) -> (Scanner, Option<u16>) {
    if s.draining {
        (s, None)
    } else {
        match event_signal(s.mode, ev) {
            Some(p) => (Scanner { mode: s.mode, draining: true }, Some(p)),
            None => (s, None),
        }
    }
}

/// The scanner run over a whole event sequence: the final state and the
/// ports published along the way, in order.
pub open spec fn scan_run(s: Scanner, evs: Seq<ProcessEvent>) -> (Scanner, Seq<u16>)
    decreases evs.len(),
{
    if evs.len() == 0 {
        (s, Seq::empty())
    } else {
        let (s1, r) = scan_step(s, evs.first());
        let (s2, ps) = scan_run(s1, evs.drop_first());
        match r {
            Some(p) => (s2, seq![p] + ps),
            None => (s2, ps),
        }
    }
}

impl Scanner {
    /// A scanner for a worker that picks its own port and prints it alone.
    pub fn awaiting_printed_port() -> (s: Scanner)
        ensures
            s == (Scanner { mode: ScanMode::PortFromOutput, draining: false }),
    {
        Scanner { mode: ScanMode::PortFromOutput, draining: false }
    }

    /// A scanner for a worker whose port was chosen by the supervisor; a
    /// chunk containing `marker` confirms the pre-assigned `port`.
    pub fn awaiting_marker(port: u16, marker: Vec<u8>) -> (s: Scanner)
        ensures
            s == (Scanner {
                mode: ScanMode::MarkerConfirms { port, marker },
                draining: false,
            }),
    {
        Scanner { mode: ScanMode::MarkerConfirms { port, marker }, draining: false }
    }

    /// Consumes one process event. Returns the confirmed port on the first
    /// signalling chunk and nothing on every other event; once a port has
    /// been published the scanner only drains and never publishes again.
    pub fn on_event(&mut self, ev: &ProcessEvent) -> (r: Option<u16>)
        ensures
            *final(self) == scan_step(*old(self), *ev).0,
            r == scan_step(*old(self), *ev).1,
    {
        if self.draining {
            return None;
        }
        let r: Option<u16> = match ev {
            ProcessEvent::Stdout(b) => self.chunk_signal_exec(b),
            ProcessEvent::Stderr(b) => self.chunk_signal_exec(b),
            ProcessEvent::Failure(_) => None,
            ProcessEvent::Terminated(_) => None,
        };
        if r.is_some() {
            self.draining = true;
        }
        r
    }

    /// The port this chunk confirms under the scanner's mode, if any.
    fn chunk_signal_exec(&self, b: &Vec<u8>) -> (r: Option<u16>)
        ensures
            r == chunk_signal(self.mode, b@),
    {
        match &self.mode {
            ScanMode::PortFromOutput => parse_port(b.as_slice()),
            ScanMode::MarkerConfirms { port, marker } => {
                if utf8_valid(b.as_slice()) && contains_bytes(b.as_slice(), marker.as_slice()) {
                    Some(*port)
                } else {
                    None
                }
            },
        }
    }
}

/// A draining scanner never publishes: whatever events still arrive after
/// confirmation, the run yields no further port.
pub proof fn lemma_draining_publishes_nothing(s: Scanner, evs: Seq<ProcessEvent>)
    requires
        s.draining,
    ensures
        scan_run(s, evs).1 == Seq::<u16>::empty(),
        scan_run(s, evs).0 == s,
    decreases evs.len(),
{
    if evs.len() > 0 {
        lemma_draining_publishes_nothing(s, evs.drop_first());
    }
}

/// No false positives: if none of the fed events carries the readiness
/// signal, the port channel never receives a value.
pub proof fn lemma_no_false_positives(s: Scanner, evs: Seq<ProcessEvent>)
    requires
        forall|i: int| 0 <= i < evs.len() ==> event_signal(s.mode, #[trigger] evs[i]) is None,
    ensures
        scan_run(s, evs).1 == Seq::<u16>::empty(),
        scan_run(s, evs).0 == s,
    decreases evs.len(),
{
    if evs.len() > 0 {
        assert(event_signal(s.mode, evs[0]) is None);
        lemma_no_false_positives(s, evs.drop_first());
    }
}

/// Exactly-once publication: if the first event of a run carries the signal
/// for port `p`, the run publishes `p` and nothing else, even if further
/// signalling chunks arrive afterwards.
pub proof fn lemma_publishes_first_signal_once(s: Scanner, evs: Seq<ProcessEvent>, p: u16)
    requires
        !s.draining,
        evs.len() > 0,
        event_signal(s.mode, evs[0]) == Some(p),
    ensures
        scan_run(s, evs).1 == seq![p],
{
    let (s1, r) = scan_step(s, evs.first());
    lemma_draining_publishes_nothing(s1, evs.drop_first());
    assert(scan_run(s, evs).1 =~= seq![p]);
}

/// A chunk containing a valid integer alone publishes exactly that integer:
/// a scanner waiting for a printed port that first receives a chunk whose
/// trimmed text is the decimal number `p` publishes `p`, once, whatever
/// arrives afterwards.
pub proof fn lemma_printed_port_published_exactly(
    s: Scanner,
    evs: Seq<ProcessEvent>,
    b: Vec<u8>,
    p: u16,
)
    requires
        s.mode is PortFromOutput,
        !s.draining,
        evs.len() > 0,
        evs[0] == ProcessEvent::Stdout(b),
        parse_port_spec(b@) == Some(p),
    ensures
        scan_run(s, evs).1 == seq![p],
{
    lemma_publishes_first_signal_once(s, evs, p);
}

/// At most one publication in any run, from any starting state.
pub proof fn lemma_publishes_at_most_once(s: Scanner, evs: Seq<ProcessEvent>)
    ensures
        scan_run(s, evs).1.len() <= 1,
    decreases evs.len(),
{
    if evs.len() > 0 {
        let (s1, r) = scan_step(s, evs.first());
        if r is Some {
            lemma_draining_publishes_nothing(s1, evs.drop_first());
        } else {
            lemma_publishes_at_most_once(s1, evs.drop_first());
        }
    }
}

} // verus!
