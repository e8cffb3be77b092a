//! The consumer loop: its state machine, and the whole run over a stream of
//! events.
use vstd::prelude::*;
use crate::dispatch::{Action, Effect, action_of, dispatch, heartbeat};
use crate::event::{Event, EventRecord, event_of};

verus! {

/// Whether the consumer loop still waits for events.
#[derive(Clone, Copy, Debug, PartialEq, Eq, Structural)]
pub enum Phase {
    Running,
    Terminated,
}

/// The consumer's state and the action answering one read of the queue;
/// `None` stands for a failed read.
pub open spec fn next_state(p: Phase, read: Option<EventRecord>) -> (Phase, Action) {
    match p {
        Phase::Terminated => (Phase::Terminated, Action::Stop),
        Phase::Running => match read {
            None => (Phase::Terminated, Action::Stop),
            Some(rec) => match event_of(rec) {
                None => (Phase::Running, Action::Ignore),
                Some(e) => if action_of(e) == Action::Stop {
                    (Phase::Terminated, Action::Stop)
                } else {
                    (Phase::Running, action_of(e))
                },
            },
        },
    }
}

/// The consumer side of a session.
pub struct Session {
    pub phase: Phase,
}

impl Session {
    /// A session that waits for its first event.
    pub fn new() -> (s: Session)
        ensures
            s.phase == Phase::Running,
    {
        Session { phase: Phase::Running }
    }

    pub fn is_running(&self) -> (r: bool)
        ensures
            r == (self.phase == Phase::Running),
    {
        self.phase == Phase::Running
    }

    /// Takes the result of one blocking read of the queue and says what to do.
    /// A failed read and the Back key both end the session; a record with an
    /// unknown tag is ignored; once ended, the session answers `Stop` to all.
    pub fn handle(&mut self, read: Option<EventRecord>) -> (a: Action)
        ensures
            (final(self).phase, a) == next_state(old(self).phase, read),
    {
        match self.phase {
            Phase::Terminated => Action::Stop,
            Phase::Running => match read {
                None => {
                    self.phase = Phase::Terminated;
                    Action::Stop
                },
                Some(rec) => match Event::decode(&rec) {
                    None => Action::Ignore,
                    Some(e) => {
                        let a = dispatch(e);
                        if a == Action::Stop {
                            self.phase = Phase::Terminated;
                        }
                        a
                    },
                },
            },
        }
    }
}

/// What a run over a stream of events did: the effects triggered in order,
/// how many events were taken from the stream, and whether it ended.
pub ghost struct Trace {
    pub effects: Seq<Effect>,
    pub consumed: nat,
    pub stopped: bool,
}

/// The run over `s`: each event is handled in order until one asks to stop;
/// no event after that one is taken.
pub open spec fn trace(s: Seq<Event>) -> Trace
    decreases s.len(),
{
    if s.len() == 0 {
        Trace { effects: Seq::empty(), consumed: 0, stopped: false }
    } else {
        let t = trace(s.drop_last());
        if t.stopped {
            t
        } else {
            match action_of(s.last()) {
                Action::Stop => Trace { effects: t.effects, consumed: t.consumed + 1, stopped: true },
                Action::Notify(fx) => Trace {
                    effects: t.effects.push(fx),
                    consumed: t.consumed + 1,
                    stopped: false,
                },
                Action::Ignore => Trace { effects: t.effects, consumed: t.consumed + 1, stopped: false },
            }
        }
    }
}

/// The number of ticks in `s`.
pub open spec fn tick_count(s: Seq<Event>) -> nat
    decreases s.len(),
{
    if s.len() == 0 {
        0
    } else {
        tick_count(s.drop_last()) + if s.last() is Tick { 1nat } else { 0nat }
    }
}

/// The number of heartbeat effects in `fx`.
pub open spec fn heartbeat_count(fx: Seq<Effect>) -> nat
    decreases fx.len(),
{
    if fx.len() == 0 {
        0
    } else {
        heartbeat_count(fx.drop_last()) + if fx.last() == heartbeat() { 1nat } else { 0nat }
    }
}

/// The result of running the consumer over a finite stream of events.
pub struct Outcome {
    pub effects: Vec<Effect>,
    pub consumed: usize,
    pub stopped: bool,
}

impl View for Outcome {
    type V = Trace;

    open spec fn view(&self) -> Trace {
        Trace { effects: self.effects@, consumed: self.consumed as nat, stopped: self.stopped }
    }
}

/// A run takes at most every event, and takes all of them unless it stopped.
pub proof fn lemma_trace_consumed(s: Seq<Event>)
    ensures
        trace(s).consumed <= s.len(),
        !trace(s).stopped ==> trace(s).consumed == s.len(),
    decreases s.len(),
{
    if s.len() > 0 {
        lemma_trace_consumed(s.drop_last());
    }
}

/// Once a run has stopped on a prefix, the events after it change nothing.
pub proof fn lemma_stopped_run_is_final(s: Seq<Event>, n: nat)
    requires
        n <= s.len(),
        trace(s.take(n as int)).stopped,
    ensures
        trace(s) == trace(s.take(n as int)),
    decreases s.len() - n,
{
    if n < s.len() {
        let m = (n + 1) as int;
        assert(s.take(m).drop_last() =~= s.take(n as int));
        lemma_stopped_run_is_final(s, n + 1);
    } else {
        assert(s.take(n as int) =~= s);
    }
}

/// On a prefix where no event asks to stop, every event is taken.
proof fn lemma_prefix_without_stop(s: Seq<Event>, n: nat)
    requires
        n <= s.len(),
        forall|j: int| 0 <= j < n ==> action_of(#[trigger] s[j]) != Action::Stop,
    ensures
        trace(s.take(n as int)).consumed == n,
        !trace(s.take(n as int)).stopped,
    decreases n,
{
    if n > 0 {
        assert(s.take(n as int).drop_last() =~= s.take(n - 1));
        lemma_prefix_without_stop(s, (n - 1) as nat);
    }
}

/// A run stops right after the first Back: it takes that event as its last
/// one, and what follows it in the stream has no effect.
pub proof fn lemma_stops_after_back(s: Seq<Event>, k: nat)
    requires
        k < s.len(),
        action_of(s[k as int]) == Action::Stop,
        forall|j: int| 0 <= j < k ==> action_of(#[trigger] s[j]) != Action::Stop,
    ensures
        trace(s).stopped,
        trace(s).consumed == k + 1,
        trace(s) == trace(s.take((k + 1) as int)),
{
    lemma_prefix_without_stop(s, k);
    assert(s.take((k + 1) as int).drop_last() =~= s.take(k as int));
    lemma_stopped_run_is_final(s, k + 1);
}

/// A run triggers exactly one heartbeat per tick it takes, and none else.
pub proof fn lemma_one_heartbeat_per_tick(s: Seq<Event>)
    ensures
        heartbeat_count(trace(s).effects) == tick_count(s.take(trace(s).consumed as int)),
    decreases s.len(),
{
    if s.len() > 0 {
        let p = s.drop_last();
        lemma_one_heartbeat_per_tick(p);
        lemma_trace_consumed(p);
        let t = trace(p);
        if t.stopped {
            assert(s.take(t.consumed as int) =~= p.take(t.consumed as int));
        } else {
            assert(p.take(t.consumed as int) =~= p);
            assert(s.take(s.len() as int) =~= s);
            let tr = trace(s);
            match action_of(s.last()) {
                Action::Notify(fx) => {
                    assert(tr.effects.drop_last() =~= t.effects);
                },
                _ => {},
            }
        }
    }
}

/// Runs the consumer over `events`, in order, until one asks to stop.
pub fn run(events: &Vec<Event>) -> (out: Outcome)
    ensures
        out@ == trace(events@),
{
    let mut out = Outcome { effects: Vec::new(), consumed: 0, stopped: false };
    let mut i: usize = 0;
    while i < events.len()
        invariant
            i <= events.len(),
            out@ == trace(events@.take(i as int)),
            !out.stopped,
            out.consumed == i,
        decreases events.len() - i,
    {
        assert(events@.take(i + 1).drop_last() =~= events@.take(i as int));
        assert(events@.take(i + 1).last() == events@[i as int]);
        let e = events[i];
        match dispatch(e) {
            Action::Stop => {
                out.consumed = out.consumed + 1;
                out.stopped = true;
                proof {
                    lemma_stopped_run_is_final(events@, (i + 1) as nat);
                }
                assert(events@.take(events@.len() as int) =~= events@);
                return out;
            },
            Action::Notify(fx) => {
                out.effects.push(fx);
                out.consumed = out.consumed + 1;
            },
            Action::Ignore => {
                out.consumed = out.consumed + 1;
            },
        }
        i = i + 1;
    }
    assert(events@.take(events@.len() as int) =~= events@);
    out
}

} // verus!
