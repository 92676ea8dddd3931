//! The synchronous-over-asynchronous metadata bridge: a single-use session
//! that turns the server's event-driven protocol into one blocking answer.
//!
//! The session issues a sync barrier (which immediately yields a token),
//! attaches a completion listener and an announcement listener, and lets the
//! loop dispatch events into [`SessionState::step`] until a completion event
//! carrying the issued token arrives. The server will not acknowledge the
//! token before every announcement sent earlier has been delivered, so once
//! the loop stops, any announcement of the target has already been captured.
//!
//! Driving a live connection is outside this crate; the decision logic of the
//! session — what each event does to the shared loop-local state, and when
//! the loop must stop — is verified here over the sequence of delivered
//! events.

use vstd::prelude::*;

use crate::properties::PropertyBag;
use crate::properties::entries_map;

verus! {

/// The identifier of the connection's own core object; barrier
/// acknowledgements are delivered as completion events on it.
pub const CORE_OBJECT_ID: u32 = 0;

/// One event the loop can deliver to the session's listeners.
pub enum SessionEvent {
    /// The registry announced a global object, with its raw property
    /// dictionary when the server attached one.
    Global { id: u32, props: Option<Vec<(String, String)>> },
    /// A completion event on an object, carrying the sequence number it
    /// acknowledges.
    Done { id: u32, seq: u32 },
}

/// What the session asks the loop to do after one event is handled.
#[derive(Clone, Copy, Debug, PartialEq, Eq, Structural)]
pub enum LoopAction {
    KeepRunning,
    Quit,
}

/// The event acknowledges the issued barrier token: a completion event on
/// the core object whose sequence number equals the token.
pub open spec fn is_barrier_ack(e: SessionEvent, pending: u32) -> bool {
    match e {
        SessionEvent::Done { id, seq } => id == CORE_OBJECT_ID && seq == pending,
        SessionEvent::Global { .. } => false,
    }
}

/// The event announces the target object together with a property
/// dictionary.
pub open spec fn is_announcement(e: SessionEvent, target: u32) -> bool {
    match e {
        SessionEvent::Global { id, props } => id == target && props is Some,
        SessionEvent::Done { .. } => false,
    }
}

/// The dictionary carried by an announcement.
pub open spec fn announced_dict(e: SessionEvent) -> Seq<(String, String)> {
    match e {
        SessionEvent::Global { id: _, props } => match props {
            Some(dict) => dict@,
            None => Seq::<(String, String)>::empty(),
        },
        SessionEvent::Done { .. } => Seq::<(String, String)>::empty(),
    }
}

/// Some event of the run acknowledges the issued token.
pub open spec fn barrier_acknowledged(pending: u32, events: Seq<SessionEvent>) -> bool {
    exists|i: int| 0 <= i < events.len() && is_barrier_ack(events[i], pending)
}

/// What a run yields, processing events in order starting from an already
/// captured mapping `acc`: whether the loop was told to stop, and the mapping
/// of the last announcement of the target seen before it stopped.
pub open spec fn session_result(
    target: u32,
    pending: u32,
    events: Seq<SessionEvent>,
    acc: Option<Map<Seq<char>, Seq<char>>>,
) -> (bool, Option<Map<Seq<char>, Seq<char>>>)
    decreases events.len(),
{
    if events.len() == 0 {
        (false, acc)
    } else if is_barrier_ack(events[0], pending) {
        (true, acc)
    } else {
        let next = if is_announcement(events[0], target) {
            Some(entries_map(announced_dict(events[0])))
        } else {
            acc
        };
        session_result(target, pending, events.drop_first(), next)
    }
}

/// The mapping a fresh session captures from a run.
pub open spec fn session_data(target: u32, pending: u32, events: Seq<SessionEvent>) -> Option<
    Map<Seq<char>, Seq<char>>,
> {
    session_result(target, pending, events, None).1
}

/// The loop-local shared state of one metadata query: both listeners write
/// into it while the loop dispatches events, and the driving code reads it
/// once the loop has stopped. All mutation happens synchronously within the
/// loop's own dispatch, on one thread.
pub struct SessionState {
    /// The node whose announcement is awaited.
    pub target: u32,
    /// The barrier token returned when synchronization was requested.
    pub pending: u32,
    /// Set once the barrier is acknowledged; the loop must then stop.
    pub done: bool,
    /// The last property dictionary announced for the target.
    pub data: Option<PropertyBag>,
}

impl SessionState {
    /// Any captured bag has unique keys.
    pub open spec fn wf(self) -> bool {
        self.data matches Some(bag) ==> bag.wf()
    }

    /// The mapping captured so far.
    pub open spec fn data_map(self) -> Option<Map<Seq<char>, Seq<char>>> {
        match self.data {
            Some(bag) => Some(bag.as_map()),
            None => None,
        }
    }

    /// A fresh session: nothing captured, barrier not yet acknowledged.
    pub fn new(target: u32, pending: u32) -> (r: Self)
        ensures
            r.wf(),
            r.target == target,
            r.pending == pending,
            !r.done,
            r.data is None,
    {
        SessionState { target, pending, done: false, data: None }
    }

    /// Handles one event as the two listeners do. An announcement of the
    /// target replaces the captured dictionary (last write wins); a
    /// completion event carrying the issued token marks the session done and
    /// stops the loop; every other event is irrelevant noise and changes
    /// nothing.
    pub fn step(&mut self, event: &SessionEvent) -> (action: LoopAction)
        requires
            old(self).wf(),
        ensures
            final(self).wf(),
            final(self).target == old(self).target,
            final(self).pending == old(self).pending,
            (action is Quit) <==> is_barrier_ack(*event, old(self).pending),
            final(self).done == (old(self).done || is_barrier_ack(*event, old(self).pending)),
            is_announcement(*event, old(self).target) ==> final(self).data_map() == Some(
                entries_map(announced_dict(*event)),
            ),
            !is_announcement(*event, old(self).target) ==> final(self).data == old(self).data,
    {
        match event {
            SessionEvent::Global { id, props } => {
                if *id == self.target {
                    if let Some(dict) = props {
                        let bag = PropertyBag::from_entries(dict);
                        self.data = Some(bag);
                    }
                }
                LoopAction::KeepRunning
            },
            SessionEvent::Done { id, seq } => {
                if *id == CORE_OBJECT_ID && *seq == self.pending {
                    self.done = true;
                    LoopAction::Quit
                } else {
                    LoopAction::KeepRunning
                }
            },
        }
    }
}

/// One step of a session's lifecycle, as recorded by a full run.
#[derive(Clone, Copy, Debug, PartialEq, Eq, Structural)]
pub enum LifecycleStep {
    /// The synchronization request was issued. It comes first: no listener
    /// exists yet, so a fast reply cannot race the listener registration.
    BarrierRequested,
    /// The completion listener was attached to the connection.
    CoreListenerAttached,
    /// The announcement listener was attached to the registry.
    RegistryListenerAttached,
    /// Both listeners were detached.
    ListenersDetached,
    /// The connection was torn down.
    ConnectionClosed,
}

/// The lifecycle every run goes through, whichever way the loop exits.
pub open spec fn full_lifecycle() -> Seq<LifecycleStep> {
    seq![
        LifecycleStep::BarrierRequested,
        LifecycleStep::CoreListenerAttached,
        LifecycleStep::RegistryListenerAttached,
        LifecycleStep::ListenersDetached,
        LifecycleStep::ConnectionClosed,
    ]
}

/// The connection is torn down exactly once, and only after the listeners
/// were detached: no listener outlives the loop it was registered against.
pub open spec fn teardown_once_after_detach(trace: Seq<LifecycleStep>) -> bool {
    exists|c: int|
        0 <= c < trace.len() && #[trigger] trace[c] is ConnectionClosed && (forall|j: int|
            0 <= j < trace.len() && #[trigger] trace[j] is ConnectionClosed ==> j == c) && (
        exists|d: int| 0 <= d < c && #[trigger] trace[d] is ListenersDetached)
}

/// The outcome of one full session: what was captured, whether the barrier
/// was acknowledged, and the lifecycle the run went through.
pub struct SessionRun {
    pub data: Option<PropertyBag>,
    pub acknowledged: bool,
    pub trace: Vec<LifecycleStep>,
}

/// Runs one whole session over the events the loop delivers, in order. The
/// loop stops at the first completion event carrying the issued token;
/// announcements of the target seen up to that point are captured, the last
/// one winning. Whichever way the loop exits — acknowledged, or out of
/// events — the listeners are detached and then the connection is torn
/// down, exactly once.
#[verifier::loop_isolation(false)]
pub fn run_session(target: u32, pending: u32, events: &Vec<SessionEvent>) -> (r: SessionRun)
    ensures
        r.acknowledged == barrier_acknowledged(pending, events@),
        (match session_data(target, pending, events@) {
            Some(m) => r.data matches Some(bag) && bag.wf() && bag.as_map() == m,
            None => r.data is None,
        }),
        r.trace@ == full_lifecycle(),
        teardown_once_after_detach(r.trace@),
{
    let mut trace: Vec<LifecycleStep> = Vec::new();
    trace.push(LifecycleStep::BarrierRequested);
    trace.push(LifecycleStep::CoreListenerAttached);
    trace.push(LifecycleStep::RegistryListenerAttached);
    let mut st = SessionState::new(target, pending);
    proof {
        assert(events@.skip(0) =~= events@);
    }
    let mut i: usize = 0;
    while i < events.len() && !st.done
        invariant
            i <= events@.len(),
            st.wf(),
            st.target == target,
            st.pending == pending,
            !st.done ==> session_result(target, pending, events@, None) == session_result(
                target,
                pending,
                events@.skip(i as int),
                st.data_map(),
            ),
            !st.done ==> forall|j: int| 0 <= j < i ==> !is_barrier_ack(events@[j], pending),
            st.done ==> session_result(target, pending, events@, None) == (
                true,
                st.data_map(),
            ),
            st.done ==> barrier_acknowledged(pending, events@),
        decreases events@.len() - i,
    {
        proof {
            assert(events@.skip(i as int)[0] == events@[i as int]);
            assert(events@.skip(i as int).drop_first() =~= events@.skip(i as int + 1));
        }
        st.step(&events[i]);
        i += 1;
    }
    proof {
        if !st.done {
            assert(events@.skip(i as int) =~= Seq::<SessionEvent>::empty());
        }
    }
    trace.push(LifecycleStep::ListenersDetached);
    trace.push(LifecycleStep::ConnectionClosed);
    let r = SessionRun { data: st.data, acknowledged: st.done, trace };
    proof {
        assert(r.trace@ =~= full_lifecycle());
        assert(teardown_once_after_detach(r.trace@)) by {
            assert(r.trace@[4] is ConnectionClosed);
            assert(r.trace@[3] is ListenersDetached);
        }
    }
    r
}

/// A run that never stops keeps whatever was captured before it.
proof fn lemma_result_keeps_acc(
    target: u32,
    pending: u32,
    events: Seq<SessionEvent>,
    acc: Option<Map<Seq<char>, Seq<char>>>,
)
    requires
        forall|i: int| 0 <= i < events.len() ==> !is_announcement(events[i], target),
    ensures
        session_result(target, pending, events, acc).1 == acc,
    decreases events.len(),
{
    if events.len() > 0 && !is_barrier_ack(events[0], pending) {
        assert forall|i: int|
            0 <= i < events.drop_first().len() implies !is_announcement(
            events.drop_first()[i],
            target,
        ) by {
            assert(events.drop_first()[i] == events[i + 1]);
        }
        lemma_result_keeps_acc(target, pending, events.drop_first(), acc);
    }
}

/// Law: when the target never announces during the run, the session yields
/// no properties — absence of the target is a normal outcome, not an error.
pub proof fn lemma_no_announcement_no_data(target: u32, pending: u32, events: Seq<SessionEvent>)
    requires
        forall|i: int| 0 <= i < events.len() ==> !is_announcement(events[i], target),
    ensures
        session_data(target, pending, events) is None,
{
    lemma_result_keeps_acc(target, pending, events, None);
}

/// Law: completion events whose token does not match the issued one never
/// stop the loop: a run without a matching acknowledgement ends
/// unacknowledged, whatever other completion events were delivered.
pub proof fn lemma_stale_tokens_never_stop(pending: u32, events: Seq<SessionEvent>)
    requires
        forall|i: int| 0 <= i < events.len() ==> !is_barrier_ack(events[i], pending),
    ensures
        !barrier_acknowledged(pending, events),
{
}

/// Helper for the single-announcement law, generalized over what was already
/// captured: `k` bounds the part of the run before the acknowledgement.
proof fn lemma_single_helper(
    target: u32,
    pending: u32,
    events: Seq<SessionEvent>,
    a: int,
    k: int,
    acc: Option<Map<Seq<char>, Seq<char>>>,
)
    requires
        0 <= a < k <= events.len(),
        forall|j: int| 0 <= j < k ==> !is_barrier_ack(events[j], pending),
        k < events.len() ==> is_barrier_ack(events[k], pending),
        is_announcement(events[a], target),
        forall|j: int| 0 <= j < k && j != a ==> !is_announcement(events[j], target),
    ensures
        session_result(target, pending, events, acc).1 == Some(
            entries_map(announced_dict(events[a])),
        ),
    decreases events.len(),
{
    let rest = events.drop_first();
    assert forall|j: int| 0 <= j < rest.len() implies rest[j] == events[j + 1] by {}
    if a == 0 {
        let captured = Some(entries_map(announced_dict(events[0])));
        if k == 1 {
            if events.len() > 1 {
                assert(is_barrier_ack(rest[0], pending));
            } else {
                assert(rest.len() == 0);
            }
        } else {
            lemma_single_no_more(target, pending, rest, k - 1, captured);
        }
    } else {
        lemma_single_helper(target, pending, rest, a - 1, k - 1, acc);
    }
}

/// After the single announcement was captured, nothing before the
/// acknowledgement changes it.
proof fn lemma_single_no_more(
    target: u32,
    pending: u32,
    events: Seq<SessionEvent>,
    k: int,
    acc: Option<Map<Seq<char>, Seq<char>>>,
)
    requires
        0 <= k <= events.len(),
        forall|j: int| 0 <= j < k ==> !is_barrier_ack(events[j], pending),
        k < events.len() ==> is_barrier_ack(events[k], pending),
        forall|j: int| 0 <= j < k ==> !is_announcement(events[j], target),
    ensures
        session_result(target, pending, events, acc).1 == acc,
    decreases events.len(),
{
    if events.len() > 0 {
        if k == 0 {
            assert(is_barrier_ack(events[0], pending));
        } else {
            let rest = events.drop_first();
            assert forall|j: int| 0 <= j < rest.len() implies rest[j] == events[j + 1] by {}
            lemma_single_no_more(target, pending, rest, k - 1, acc);
        }
    }
}

/// Law: when the target announces exactly once before the barrier
/// acknowledgement, the session yields exactly that announcement's mapping.
/// `a` is the position of the announcement; `k` is the position of the first
/// matching acknowledgement, or the run's length when none arrives.
pub proof fn lemma_single_announcement_captured(
    target: u32,
    pending: u32,
    events: Seq<SessionEvent>,
    a: int,
    k: int,
)
    requires
        0 <= a < k <= events.len(),
        forall|j: int| 0 <= j < k ==> !is_barrier_ack(events[j], pending),
        k < events.len() ==> is_barrier_ack(events[k], pending),
        is_announcement(events[a], target),
        forall|j: int| 0 <= j < k && j != a ==> !is_announcement(events[j], target),
    ensures
        session_data(target, pending, events) == Some(entries_map(announced_dict(events[a]))),
{
    lemma_single_helper(target, pending, events, a, k, None);
}

} // verus!
