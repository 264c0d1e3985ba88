//! Receiving frames over ESP-NOW.
//!
//! The worker hands every frame to the network stack, and wakes whoever waits on
//! the state of the interface when a frame has changed it.

use crate::interface::{upstream_net_id, InterfaceState, ROOT_NET_ID};
use crate::trace::{self, Run};
use vstd::prelude::*;

verus! {

/// What the receiving worker is waiting for.
#[derive(Clone, Copy, Debug, PartialEq, Eq, Structural)]
pub enum RxPhase {
    /// A frame from the radio.
    Receiving,
    /// The network stack to take the frame.
    Processing,
    /// The waiting tasks to be woken.
    Waking,
}

/// The receiving worker: the interface it serves, the network id that its frames
/// come from, and what it is waiting for.
#[derive(Clone, Copy, Debug, PartialEq, Eq, Structural)]
pub struct RxWorker {
    pub ident: u8,
    pub net_id: u16,
    pub phase: RxPhase,
}

/// What the outside reports to the receiving worker.
#[derive(Clone, Copy, Debug)]
pub enum RxEvent<'a> {
    /// A frame from the radio.
    Frame(&'a [u8]),
    /// The network stack took the frame; `changed` says whether the state of the
    /// interface is another one now.
    Processed { changed: bool },
    /// The waiting tasks are awake.
    Woken,
}

/// What the receiving worker asks of the outside.
#[derive(Clone, Copy, Debug)]
pub enum RxAction<'a> {
    /// Wait for a frame from the radio.
    Receive,
    /// Hand `frame` to the network stack as one that came in on interface `ident`.
    Process { ident: u8, frame: &'a [u8] },
    /// Wake all tasks that wait on the state of the interface.
    WakeAll,
}

/// The worker's state and request after `event`, or `None` where `event` does not
/// answer what the worker is waiting for.
pub open spec fn next<'a>(state: RxWorker, event: RxEvent<'a>) -> Option<
    (RxWorker, RxAction<'a>),
> {
    match (state.phase, event) {
        (RxPhase::Receiving, RxEvent::Frame(frame)) => Some(
            (
                RxWorker { phase: RxPhase::Processing, ..state },
                RxAction::Process { ident: state.ident, frame },
            ),
        ),
        (RxPhase::Processing, RxEvent::Processed { changed: true }) => Some(
            (RxWorker { phase: RxPhase::Waking, ..state }, RxAction::WakeAll),
        ),
        (RxPhase::Processing, RxEvent::Processed { changed: false }) => Some(
            (RxWorker { phase: RxPhase::Receiving, ..state }, RxAction::Receive),
        ),
        (RxPhase::Waking, RxEvent::Woken) => Some(
            (RxWorker { phase: RxPhase::Receiving, ..state }, RxAction::Receive),
        ),
        _ => None,
    }
}

/// The worker of interface `ident` on network `net_id`, before the first frame.
pub open spec fn listening(ident: u8, net_id: u16) -> RxWorker {
    RxWorker { ident, net_id, phase: RxPhase::Receiving }
}

impl RxWorker {
    /// Starts the worker of interface `ident`, whose frames come from network
    /// `net_id`; the first request is to wait for a frame.
    pub fn start<'a>(ident: u8, net_id: u16) -> (started: (RxWorker, RxAction<'a>))
        ensures
            started.0 == listening(ident, net_id),
            started.1 == RxAction::Receive,
    {
        (RxWorker { ident, net_id, phase: RxPhase::Receiving }, RxAction::Receive)
    }

    /// Starts the bridge's worker of its radio link, which is interface `ident` in
    /// `state`: its frames come from the network of the link, or from the root's
    /// where the link has none.
    pub fn start_upstream<'a>(ident: u8, state: Option<InterfaceState>) -> (started: (
        RxWorker,
        RxAction<'a>,
    ))
        ensures
            started.0 == listening(ident, crate::interface::active_net_id(state).unwrap_or(ROOT_NET_ID)),
            started.1 == RxAction::Receive,
            started.0.ident == ident,
            state matches Some(InterfaceState::Active { net_id, .. }) ==> started.0.net_id
                == net_id,
            !(state matches Some(InterfaceState::Active { .. })) ==> started.0.net_id == 1,
    {
        RxWorker::start(ident, upstream_net_id(state))
    }

    /// Takes `event` and gives the next request. An event that does not answer
    /// the last request is refused and leaves the worker as it was.
    pub fn step<'a>(&mut self, event: RxEvent<'a>) -> (action: Option<RxAction<'a>>)
        ensures
            match next(*old(self), event) {
                Some((state, request)) => *final(self) == state && action == Some(request),
                None => *final(self) == *old(self) && action is None,
            },
    {
        match (self.phase, event) {
            (RxPhase::Receiving, RxEvent::Frame(frame)) => {
                self.phase = RxPhase::Processing;
                Some(RxAction::Process { ident: self.ident, frame })
            },
            (RxPhase::Processing, RxEvent::Processed { changed }) => if changed {
                self.phase = RxPhase::Waking;
                Some(RxAction::WakeAll)
            } else {
                self.phase = RxPhase::Receiving;
                Some(RxAction::Receive)
            },
            (RxPhase::Waking, RxEvent::Woken) => {
                self.phase = RxPhase::Receiving;
                Some(RxAction::Receive)
            },
            _ => None,
        }
    }
}

/// The receiving worker as a machine.
pub open spec fn machine<'a>() -> spec_fn(RxWorker, RxEvent<'a>) -> Option<
    (RxWorker, RxAction<'a>),
> {
    |state: RxWorker, event: RxEvent<'a>| next(state, event)
}

/// The worker of interface `ident` on network `net_id` and its requests, after
/// `events`, or `None` where one of them was refused.
pub open spec fn run<'a>(ident: u8, net_id: u16, events: Seq<RxEvent<'a>>) -> Option<
    Run<RxWorker, RxAction<'a>>,
> {
    trace::run(machine(), trace::started(listening(ident, net_id), RxAction::Receive), events)
}

/// The frames that came from the radio, in order.
pub open spec fn frames_received<'a>(events: Seq<RxEvent<'a>>) -> Seq<Seq<u8>>
    decreases events.len(),
{
    if events.len() == 0 {
        seq![]
    } else {
        match events.last() {
            RxEvent::Frame(frame) => frames_received(events.drop_last()).push(frame@),
            _ => frames_received(events.drop_last()),
        }
    }
}

/// The frames that went to the network stack, in order.
pub open spec fn frames_processed<'a>(requests: Seq<RxAction<'a>>) -> Seq<Seq<u8>>
    decreases requests.len(),
{
    if requests.len() == 0 {
        seq![]
    } else {
        match requests.last() {
            RxAction::Process { frame, .. } => frames_processed(requests.drop_last()).push(frame@),
            _ => frames_processed(requests.drop_last()),
        }
    }
}

/// The worker keeps its interface and its network id.
pub proof fn keeps_its_interface<'a>(ident: u8, net_id: u16, events: Seq<RxEvent<'a>>)
    requires
        run(ident, net_id, events) is Some,
    ensures
        run(ident, net_id, events)->0.state.ident == ident,
        run(ident, net_id, events)->0.state.net_id == net_id,
    decreases events.len(),
{
    if events.len() > 0 {
        keeps_its_interface(ident, net_id, events.drop_last());
    }
}

/// Every frame from the radio goes to the network stack once, unchanged and in
/// order.
pub proof fn processes_what_it_receives<'a>(ident: u8, net_id: u16, events: Seq<RxEvent<'a>>)
    requires
        run(ident, net_id, events) is Some,
    ensures
        frames_processed(run(ident, net_id, events)->0.requests) == frames_received(events),
    decreases events.len(),
{
    reveal_with_fuel(frames_processed, 2);
    if events.len() == 0 {
        assert(seq![RxAction::<'a>::Receive].drop_last().len() == 0);
    } else {
        let before = run(ident, net_id, events.drop_last())->0;
        processes_what_it_receives(ident, net_id, events.drop_last());
        assert(run(ident, net_id, events)->0.requests.drop_last() == before.requests);
    }
}

/// Every frame goes to the network stack as one of the worker's own interface.
pub proof fn processes_for_its_interface<'a>(
    ident: u8,
    net_id: u16,
    events: Seq<RxEvent<'a>>,
    k: int,
)
    requires
        run(ident, net_id, events) is Some,
        0 <= k <= events.len(),
        run(ident, net_id, events)->0.requests[k] is Process,
    ensures
        run(ident, net_id, events)->0.requests[k]->ident == ident,
{
    let start = trace::started(listening(ident, net_id), RxAction::<'a>::Receive);
    trace::run_of_prefix(machine(), start, events, 0);
    assert(start.requests[0] == run(ident, net_id, events)->0.requests.take(1)[0]);
    trace::run_at(machine(), start, events, k - 1);
    keeps_its_interface(ident, net_id, events.take(k - 1));
}

/// The waiting tasks are woken right after a frame that changed the state of the
/// interface, and at no other time.
pub proof fn wakes_exactly_on_change<'a>(
    ident: u8,
    net_id: u16,
    events: Seq<RxEvent<'a>>,
    k: int,
)
    requires
        run(ident, net_id, events) is Some,
        0 <= k <= events.len(),
    ensures
        run(ident, net_id, events)->0.requests[k] is WakeAll <==> k > 0 && (events[k - 1] matches
            RxEvent::Processed { changed } && changed),
{
    let start = trace::started(listening(ident, net_id), RxAction::<'a>::Receive);
    trace::run_of_prefix(machine(), start, events, 0);
    assert(start.requests[0] == run(ident, net_id, events)->0.requests.take(1)[0]);
    if k > 0 {
        trace::run_at(machine(), start, events, k - 1);
    }
}

/// The number of frames after which the state of the interface was another one.
pub open spec fn changes<'a>(events: Seq<RxEvent<'a>>) -> nat
    decreases events.len(),
{
    if events.len() == 0 {
        0
    } else {
        changes(events.drop_last()) + match events.last() {
            RxEvent::Processed { changed: true } => 1nat,
            _ => 0nat,
        }
    }
}

/// The number of times that `requests` woke the waiting tasks.
pub open spec fn wake_ups<'a>(requests: Seq<RxAction<'a>>) -> nat
    decreases requests.len(),
{
    if requests.len() == 0 {
        0
    } else {
        wake_ups(requests.drop_last()) + if requests.last() is WakeAll {
            1nat
        } else {
            0nat
        }
    }
}

/// The waiting tasks are woken once for each frame that changed the state of the
/// interface.
pub proof fn wakes_once_per_change<'a>(ident: u8, net_id: u16, events: Seq<RxEvent<'a>>)
    requires
        run(ident, net_id, events) is Some,
    ensures
        wake_ups(run(ident, net_id, events)->0.requests) == changes(events),
    decreases events.len(),
{
    reveal_with_fuel(wake_ups, 2);
    if events.len() == 0 {
        assert(seq![RxAction::<'a>::Receive].drop_last().len() == 0);
    } else {
        let before = run(ident, net_id, events.drop_last())->0;
        wakes_once_per_change(ident, net_id, events.drop_last());
        assert(run(ident, net_id, events)->0.requests.drop_last() == before.requests);
    }
}

/// The worker never ends: whatever it waits on, every answer to it is accepted.
pub proof fn never_stops<'a>(state: RxWorker, frame: &'a [u8], changed: bool)
    ensures
        state.phase is Receiving ==> next(state, RxEvent::Frame(frame)) is Some,
        state.phase is Processing ==> next(state, RxEvent::Processed { changed }) is Some,
        state.phase is Waking ==> next(state, RxEvent::Woken) is Some,
{
}

/// The worker waits on what it asked for last: on a frame after `Receive`, on the
/// network stack after `Process`, on the waiting tasks after `WakeAll`. The first
/// thing it asks for is a frame.
pub proof fn waits_on_last_request<'a>(ident: u8, net_id: u16, events: Seq<RxEvent<'a>>)
    requires
        run(ident, net_id, events) is Some,
    ensures
        run(ident, net_id, events)->0.requests.len() == events.len() + 1,
        run(ident, net_id, events)->0.requests[0] is Receive,
        run(ident, net_id, events)->0.requests.last() is Receive <==> run(
            ident,
            net_id,
            events,
        )->0.state.phase is Receiving,
        run(ident, net_id, events)->0.requests.last() is Process <==> run(
            ident,
            net_id,
            events,
        )->0.state.phase is Processing,
        run(ident, net_id, events)->0.requests.last() is WakeAll <==> run(
            ident,
            net_id,
            events,
        )->0.state.phase is Waking,
{
    let start = trace::started(listening(ident, net_id), RxAction::<'a>::Receive);
    trace::last_request_at(machine(), start, events, 0);
}

/// After every run the worker takes every answer to its last request, and nothing
/// else: any frame, either verdict of the network stack, the end of the wake-up.
pub proof fn takes_every_answer<'a>(
    ident: u8,
    net_id: u16,
    events: Seq<RxEvent<'a>>,
    event: RxEvent<'a>,
)
    requires
        run(ident, net_id, events) is Some,
    ensures
        run(ident, net_id, events.push(event)) is Some <==> match run(
            ident,
            net_id,
            events,
        )->0.requests.last() {
            RxAction::Receive => event is Frame,
            RxAction::Process { .. } => event is Processed,
            RxAction::WakeAll => event is Woken,
        },
{
    let start = trace::started(listening(ident, net_id), RxAction::<'a>::Receive);
    waits_on_last_request(ident, net_id, events);
    trace::run_of_push(machine(), start, events, event);
}

/// What each answer leads to, in every run: a frame goes to the network stack as it
/// came, for the worker's interface; a change wakes the waiting tasks; and
/// everything else leads back to the radio.
pub proof fn answers_lead_on<'a>(ident: u8, net_id: u16, events: Seq<RxEvent<'a>>, k: int)
    requires
        run(ident, net_id, events) is Some,
        0 <= k < events.len(),
    ensures
        events[k] matches RxEvent::Frame(received) ==> run(
            ident,
            net_id,
            events,
        )->0.requests[k + 1] == (RxAction::Process { ident, frame: received }),
        events[k] matches RxEvent::Processed { changed } ==> (if changed {
            run(ident, net_id, events)->0.requests[k + 1] is WakeAll
        } else {
            run(ident, net_id, events)->0.requests[k + 1] is Receive
        }),
        events[k] is Woken ==> run(ident, net_id, events)->0.requests[k + 1] is Receive,
{
    let start = trace::started(listening(ident, net_id), RxAction::<'a>::Receive);
    trace::run_at(machine(), start, events, k);
    keeps_its_interface(ident, net_id, events.take(k));
}

} // verus!
