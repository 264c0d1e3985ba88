//! Sending queued frames over ESP-NOW.
//!
//! The worker takes the oldest frame of the queue, broadcasts it, and frees its
//! place in the queue whether or not the broadcast went out.

use crate::frame::BROADCAST_ADDRESS;
use crate::trace::{self, Run};
use vstd::prelude::*;

verus! {

/// What the sending worker is waiting for.
#[derive(Clone, Copy, Debug, PartialEq, Eq, Structural)]
pub enum TxWorker {
    /// A frame in the queue.
    Idle,
    /// The end of the broadcast.
    Sending,
    /// The frame's place in the queue to be freed.
    Releasing,
}

/// What the outside reports to the sending worker.
#[derive(Clone, Copy, Debug)]
pub enum TxEvent<'a> {
    /// The oldest frame of the queue.
    Frame(&'a [u8]),
    /// The broadcast is over.
    Sent { failed: bool },
    /// The frame has left the queue.
    Released,
}

/// What the sending worker asks of the outside.
#[derive(Clone, Copy, Debug)]
pub enum TxAction<'a> {
    /// Wait for a frame in the queue.
    WaitRead,
    /// Send `frame` to the station at `destination`.
    Send { destination: [u8; 6], frame: &'a [u8] },
    /// Take the frame out of the queue, and log a failed broadcast where
    /// `report_failure` says so.
    Release { report_failure: bool },
}

/// The worker's state and request after `event`, or `None` where `event` does not
/// answer what the worker is waiting for.
pub open spec fn next<'a>(state: TxWorker, event: TxEvent<'a>) -> Option<
    (TxWorker, TxAction<'a>),
> {
    match (state, event) {
        (TxWorker::Idle, TxEvent::Frame(frame)) => Some(
            (TxWorker::Sending, TxAction::Send { destination: BROADCAST_ADDRESS, frame }),
        ),
        (TxWorker::Sending, TxEvent::Sent { failed }) => Some(
            (TxWorker::Releasing, TxAction::Release { report_failure: failed }),
        ),
        (TxWorker::Releasing, TxEvent::Released) => Some((TxWorker::Idle, TxAction::WaitRead)),
        _ => None,
    }
}

impl TxWorker {
    /// Starts the worker; the first request is to wait for a frame.
    pub fn start<'a>() -> (started: (TxWorker, TxAction<'a>))
        ensures
            started.0 == TxWorker::Idle,
            started.1 == TxAction::WaitRead,
    {
        (TxWorker::Idle, TxAction::WaitRead)
    }

    /// Takes `event` and gives the next request. An event that does not answer
    /// the last request is refused and leaves the worker as it was.
    pub fn step<'a>(&mut self, event: TxEvent<'a>) -> (action: Option<TxAction<'a>>)
        ensures
            match next(*old(self), event) {
                Some((state, request)) => *final(self) == state && action == Some(request),
                None => *final(self) == *old(self) && action is None,
            },
    {
        match (*self, event) {
            (TxWorker::Idle, TxEvent::Frame(frame)) => {
                *self = TxWorker::Sending;
                Some(TxAction::Send { destination: BROADCAST_ADDRESS, frame })
            },
            (TxWorker::Sending, TxEvent::Sent { failed }) => {
                *self = TxWorker::Releasing;
                Some(TxAction::Release { report_failure: failed })
            },
            (TxWorker::Releasing, TxEvent::Released) => {
                *self = TxWorker::Idle;
                Some(TxAction::WaitRead)
            },
            _ => None,
        }
    }
}

/// The sending worker as a machine.
pub open spec fn machine<'a>() -> spec_fn(TxWorker, TxEvent<'a>) -> Option<
    (TxWorker, TxAction<'a>),
> {
    |state: TxWorker, event: TxEvent<'a>| next(state, event)
}

/// The worker and its requests after `events`, or `None` where one of them was
/// refused.
pub open spec fn run<'a>(events: Seq<TxEvent<'a>>) -> Option<Run<TxWorker, TxAction<'a>>> {
    trace::run(machine(), trace::started(TxWorker::Idle, TxAction::WaitRead), events)
}

/// The frames that `events` took from the queue, oldest first.
pub open spec fn frames_read<'a>(events: Seq<TxEvent<'a>>) -> Seq<Seq<u8>>
    decreases events.len(),
{
    if events.len() == 0 {
        seq![]
    } else {
        match events.last() {
            TxEvent::Frame(frame) => frames_read(events.drop_last()).push(frame@),
            _ => frames_read(events.drop_last()),
        }
    }
}

/// The frames that `requests` put on the air, in order.
pub open spec fn frames_sent<'a>(requests: Seq<TxAction<'a>>) -> Seq<Seq<u8>>
    decreases requests.len(),
{
    if requests.len() == 0 {
        seq![]
    } else {
        match requests.last() {
            TxAction::Send { frame, .. } => frames_sent(requests.drop_last()).push(frame@),
            _ => frames_sent(requests.drop_last()),
        }
    }
}

/// The number of frames that `requests` took out of the queue.
pub open spec fn frames_released<'a>(requests: Seq<TxAction<'a>>) -> nat
    decreases requests.len(),
{
    if requests.len() == 0 {
        0
    } else {
        frames_released(requests.drop_last()) + if requests.last() is Release {
            1nat
        } else {
            0nat
        }
    }
}

/// Every frame of the queue is put on the air once, unchanged and in order.
pub proof fn sends_what_it_reads<'a>(events: Seq<TxEvent<'a>>)
    requires
        run(events) is Some,
    ensures
        frames_sent(run(events)->0.requests) == frames_read(events),
    decreases events.len(),
{
    reveal_with_fuel(frames_sent, 2);
    if events.len() == 0 {
        assert(seq![TxAction::<'a>::WaitRead].drop_last().len() == 0);
    } else {
        let before = run(events.drop_last())->0;
        sends_what_it_reads(events.drop_last());
        assert(run(events)->0.requests.drop_last() == before.requests);
    }
}

/// Every send goes to the broadcast address.
pub proof fn sends_to_everyone<'a>(events: Seq<TxEvent<'a>>, k: int)
    requires
        run(events) is Some,
        0 <= k <= events.len(),
        run(events)->0.requests[k] is Send,
    ensures
        run(events)->0.requests[k]->destination == BROADCAST_ADDRESS,
{
    let start = trace::started(TxWorker::Idle, TxAction::<'a>::WaitRead);
    trace::run_of_prefix(machine(), start, events, 0);
    assert(start.requests[0] == run(events)->0.requests.take(1)[0]);
    trace::run_at(machine(), start, events, k - 1);
}

/// A frame leaves the queue right after its broadcast, and no frame is taken
/// before the last one has left: of the frames sent all but at most the last are
/// out of the queue.
pub proof fn releases_what_it_sends<'a>(events: Seq<TxEvent<'a>>)
    requires
        run(events) is Some,
    ensures
        frames_sent(run(events)->0.requests).len() == frames_released(run(events)->0.requests) + (
        if run(events)->0.state is Sending {
            1nat
        } else {
            0nat
        }),
    decreases events.len(),
{
    reveal_with_fuel(frames_sent, 2);
    reveal_with_fuel(frames_released, 2);
    if events.len() == 0 {
        assert(seq![TxAction::<'a>::WaitRead].drop_last().len() == 0);
    } else {
        let before = run(events.drop_last())->0;
        releases_what_it_sends(events.drop_last());
        assert(run(events)->0.requests.drop_last() == before.requests);
    }
}

/// The end of a broadcast is answered by freeing its frame, and a failed one, no
/// other, is reported.
pub proof fn reports_each_failure<'a>(events: Seq<TxEvent<'a>>, k: int)
    requires
        run(events) is Some,
        0 <= k < events.len(),
        events[k] is Sent,
    ensures
        run(events)->0.requests[k + 1] == (TxAction::Release { report_failure: events[k]->failed }),
{
    trace::run_at(machine(), trace::started(TxWorker::Idle, TxAction::WaitRead), events, k);
}

/// The two events are the same, but for whether a broadcast failed.
pub open spec fn same_but_for_failure<'a>(a: TxEvent<'a>, b: TxEvent<'a>) -> bool {
    a == b || a is Sent && b is Sent
}

/// A failed broadcast has no effect but its report: with other outcomes the
/// worker ends in the same state and has sent and freed the same frames.
pub proof fn failure_is_only_reported<'a>(a: Seq<TxEvent<'a>>, b: Seq<TxEvent<'a>>)
    requires
        run(a) is Some,
        a.len() == b.len(),
        forall|i: int| 0 <= i < a.len() ==> #[trigger] same_but_for_failure(a[i], b[i]),
    ensures
        run(b) is Some,
        run(b)->0.state == run(a)->0.state,
        frames_sent(run(b)->0.requests) == frames_sent(run(a)->0.requests),
        frames_released(run(b)->0.requests) == frames_released(run(a)->0.requests),
    decreases a.len(),
{
    if a.len() > 0 {
        let shorter_a = a.drop_last();
        let shorter_b = b.drop_last();
        assert forall|i: int| 0 <= i < shorter_a.len() implies #[trigger] same_but_for_failure(
            shorter_a[i],
            shorter_b[i],
        ) by {
            assert(same_but_for_failure(a[i], b[i]));
        }
        failure_is_only_reported(shorter_a, shorter_b);
        assert(same_but_for_failure(a[a.len() - 1], b[a.len() - 1]));
        assert(run(a)->0.requests.drop_last() == run(shorter_a)->0.requests);
        assert(run(b)->0.requests.drop_last() == run(shorter_b)->0.requests);
    }
}

/// The worker never ends: whatever it waits on, every answer to it is accepted.
pub proof fn never_stops<'a>(state: TxWorker, frame: &'a [u8], failed: bool)
    ensures
        state is Idle ==> next(state, TxEvent::Frame(frame)) is Some,
        state is Sending ==> next(state, TxEvent::Sent { failed }) is Some,
        state is Releasing ==> next(state, TxEvent::Released) is Some,
{
}

/// The worker waits on what it asked for last: on the queue after `WaitRead`, on
/// the broadcast after `Send`, on the place in the queue after `Release`. The first
/// thing it asks for is a frame of the queue.
pub proof fn waits_on_last_request<'a>(events: Seq<TxEvent<'a>>)
    requires
        run(events) is Some,
    ensures
        run(events)->0.requests.len() == events.len() + 1,
        run(events)->0.requests[0] is WaitRead,
        run(events)->0.requests.last() is WaitRead <==> run(events)->0.state is Idle,
        run(events)->0.requests.last() is Send <==> run(events)->0.state is Sending,
        run(events)->0.requests.last() is Release <==> run(events)->0.state is Releasing,
{
    let start = trace::started(TxWorker::Idle, TxAction::<'a>::WaitRead);
    trace::last_request_at(machine(), start, events, 0);
}

/// After every run the worker takes every answer to its last request, and nothing
/// else: any frame, either end of a broadcast, the freed place.
pub proof fn takes_every_answer<'a>(events: Seq<TxEvent<'a>>, event: TxEvent<'a>)
    requires
        run(events) is Some,
    ensures
        run(events.push(event)) is Some <==> match run(events)->0.requests.last() {
            TxAction::WaitRead => event is Frame,
            TxAction::Send { .. } => event is Sent,
            TxAction::Release { .. } => event is Released,
        },
{
    let start = trace::started(TxWorker::Idle, TxAction::<'a>::WaitRead);
    waits_on_last_request(events);
    trace::run_of_push(machine(), start, events, event);
}

/// What each answer leads to, in every run: a frame of the queue is sent as it is,
/// to an address of nothing but ones; the end of the broadcast frees the frame, with
/// a report exactly where it failed; and the freed place leads back to the queue.
pub proof fn answers_lead_on<'a>(events: Seq<TxEvent<'a>>, k: int)
    requires
        run(events) is Some,
        0 <= k < events.len(),
    ensures
        events[k] matches TxEvent::Frame(oldest) ==> (run(
            events,
        )->0.requests[k + 1] matches TxAction::Send { destination, frame } && frame == oldest
            && forall|i: int| 0 <= i < 6 ==> destination[i] == 0xff),
        events[k] matches TxEvent::Sent { failed } ==> run(events)->0.requests[k + 1] == (
        TxAction::Release { report_failure: failed }),
        events[k] is Released ==> run(events)->0.requests[k + 1] is WaitRead,
{
    let start = trace::started(TxWorker::Idle, TxAction::<'a>::WaitRead);
    trace::run_at(machine(), start, events, k);
}

} // verus!
