use vstd::prelude::*;

verus! {

/// One event of the child's event stream, as the process layer reports it.
#[derive(Debug, PartialEq, Eq)]
pub enum StreamEvent {
    /// A line the child wrote to standard output.
    Stdout(Vec<u8>),
    /// A line the child wrote to standard error.
    Stderr(Vec<u8>),
    /// The child ended, with its exit code and the signal that ended it, if any.
    Terminated { code: Option<i32>, signal: Option<i32> },
    /// The process layer reported an error about the child.
    Error(String),
    /// Any other event; it is ignored.
    Other,
}

/// One diagnostic line to be written to the diagnostic channel.
#[derive(Debug, PartialEq, Eq)]
pub enum Diagnostic {
    Stdout(Vec<u8>),
    Stderr(Vec<u8>),
    Terminated { code: Option<i32>, signal: Option<i32> },
    Error(String),
}

/// What the drain does with one event: the diagnostic it emits, if any, and
/// whether it goes on waiting for events.
pub struct Step {
    pub diagnostic: Option<Diagnostic>,
    pub keep_draining: bool,
}

/// The diagnostic an event produces: every recognised kind produces one,
/// carrying the event's content; unrecognised events produce none.
pub open spec fn diagnostic_of(e: StreamEvent) -> Option<Diagnostic> {
    match e {
        StreamEvent::Stdout(l) => Some(Diagnostic::Stdout(l)),
        StreamEvent::Stderr(l) => Some(Diagnostic::Stderr(l)),
        StreamEvent::Terminated { code, signal } => Some(Diagnostic::Terminated { code, signal }),
        StreamEvent::Error(m) => Some(Diagnostic::Error(m)),
        StreamEvent::Other => None,
    }
}

/// Termination is the only event after which draining stops.
pub open spec fn is_terminal(e: StreamEvent) -> bool {
    e is Terminated
}

/// The diagnostics, none or one, that a handled event adds to the output.
pub open spec fn emitted(d: Option<Diagnostic>) -> Seq<Diagnostic> {
    match d {
        Some(x) => seq![x],
        None => Seq::empty(),
    }
}

/// Draining a finite stream from its start: the diagnostics emitted, in
/// order, and whether a termination ended the drain.
pub open spec fn drained(events: Seq<StreamEvent>) -> (Seq<Diagnostic>, bool)
    decreases events.len(),
{
    if events.len() == 0 {
        (Seq::empty(), false)
    } else if is_terminal(events[0]) {
        (emitted(diagnostic_of(events[0])), true)
    } else {
        let rest = drained(events.drop_first());
        (emitted(diagnostic_of(events[0])) + rest.0, rest.1)
    }
}

/// Draining ends at the first termination: whatever follows it in the stream
/// emits nothing, and the drain reports that it was terminated.
pub proof fn lemma_drain_ends_at_termination(prefix: Seq<StreamEvent>, t: StreamEvent, rest: Seq<StreamEvent>)
    requires
        is_terminal(t),
        forall|j: int| 0 <= j < prefix.len() ==> !is_terminal(#[trigger] prefix[j]),
    ensures
        drained(prefix.push(t) + rest) == (drained(prefix).0 + emitted(diagnostic_of(t)), true),
    decreases prefix.len(),
{
    let all = prefix.push(t) + rest;
    if prefix.len() == 0 {
        assert(all[0] == t);
        assert(Seq::<Diagnostic>::empty() + emitted(diagnostic_of(t)) =~= emitted(diagnostic_of(t)));
    } else {
        let tail = prefix.drop_first();
        assert(all[0] == prefix[0]);
        assert(all.drop_first() =~= tail.push(t) + rest);
        assert forall|j: int| 0 <= j < tail.len() implies !is_terminal(#[trigger] tail[j]) by {
            assert(tail[j] == prefix[j + 1]);
        }
        lemma_drain_ends_at_termination(tail, t, rest);
        let e0 = emitted(diagnostic_of(prefix[0]));
        assert(e0 + (drained(tail).0 + emitted(diagnostic_of(t))) =~= (e0 + drained(tail).0) + emitted(
            diagnostic_of(t),
        ));
    }
}

/// Decides what to do with one event of the stream.
pub fn handle_event(event: StreamEvent) -> (r: Step)
    ensures
        r.diagnostic == diagnostic_of(event),
        r.keep_draining == !is_terminal(event),
{
    match event {
        StreamEvent::Stdout(l) => Step { diagnostic: Some(Diagnostic::Stdout(l)), keep_draining: true },
        StreamEvent::Stderr(l) => Step { diagnostic: Some(Diagnostic::Stderr(l)), keep_draining: true },
        StreamEvent::Terminated { code, signal } => Step {
            diagnostic: Some(Diagnostic::Terminated { code, signal }),
            keep_draining: false,
        },
        StreamEvent::Error(m) => Step { diagnostic: Some(Diagnostic::Error(m)), keep_draining: true },
        StreamEvent::Other => Step { diagnostic: None, keep_draining: true },
    }
}

/// The outcome of draining a finite stream.
pub struct DrainReport {
    /// The diagnostics emitted, in the order of their events.
    pub diagnostics: Vec<Diagnostic>,
    /// Whether a termination event ended the drain.
    pub terminated: bool,
}

/// Drains a finite stream: handles each event in order until a termination
/// event has been handled or the stream is exhausted.
pub fn drain_events(events: Vec<StreamEvent>) -> (r: DrainReport)
    ensures
        r.diagnostics@ == drained(events@).0,
        r.terminated == drained(events@).1,
{
    let ghost orig = events@;
    let mut events = events;
    let mut out: Vec<Diagnostic> = Vec::new();
    let mut terminated = false;
    while !terminated && events.len() > 0
        invariant
            terminated ==> drained(orig) == (out@, true),
            !terminated ==> drained(orig) == (out@ + drained(events@).0, drained(events@).1),
        decreases events.len(),
    {
        let ghost before = events@;
        let ghost out_before = out@;
        let event = events.remove(0);
        assert(events@ == before.drop_first());
        let step = handle_event(event);
        let ghost d = step.diagnostic;
        match step.diagnostic {
            Some(x) => out.push(x),
            None => {},
        }
        assert(out@ =~= out_before + emitted(d));
        assert(out_before + emitted(d) + drained(events@).0 =~= out_before + (emitted(d) + drained(events@).0));
        if !step.keep_draining {
            terminated = true;
        }
    }
    DrainReport { diagnostics: out, terminated }
}

} // verus!
