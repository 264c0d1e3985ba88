//! Keeping a network id that a seed router has lent out.
//!
//! The bridge sleeps, asks the seed router to renew the lease, and starts over
//! with the lease that it got. A refusal costs an extra pause and changes nothing
//! else: the old lease is presented again.

use crate::time::{ticks_from_secs, TICKS_PER_SECOND};
use crate::trace::{self, Run};
use vstd::prelude::*;

verus! {

/// A network id lent out by a seed router, and the terms of the loan.
#[derive(Clone, Copy, Debug, PartialEq, Eq, Structural)]
pub struct SeedLease {
    /// The network id.
    pub net_id: u16,
    /// Seconds from the grant until the loan expires.
    pub expires_seconds: u16,
    /// The router refuses to renew while this many seconds or more remain.
    pub min_refresh_seconds: u16,
    /// The number under which the outside keeps what the router needs to know the
    /// lease again.
    pub handle: u32,
}

/// The shortest pause before a renewal is asked for.
pub const MIN_REFRESH_DELAY_SECONDS: u64 = 5;

/// The extra pause after a refused renewal.
pub const RETRY_DELAY_SECONDS: u64 = 5;

/// The last seconds of `lease`, in which the router renews it: all of them where
/// the router would renew a longer lease as well.
pub open spec fn renewal_window(lease: SeedLease) -> int {
    if lease.min_refresh_seconds < lease.expires_seconds {
        lease.min_refresh_seconds as int
    } else {
        lease.expires_seconds as int
    }
}

/// Seconds to wait before `lease` is renewed: until the middle of the window in
/// which the router renews, and never less than the shortest pause.
pub open spec fn refresh_delay(lease: SeedLease) -> int {
    let middle = lease.expires_seconds - renewal_window(lease) / 2;
    if middle < MIN_REFRESH_DELAY_SECONDS {
        MIN_REFRESH_DELAY_SECONDS as int
    } else {
        middle
    }
}

/// Seconds to wait before `lease` is renewed.
pub fn refresh_delay_seconds(lease: &SeedLease) -> (delay: u64)
    ensures
        delay == refresh_delay(*lease),
{
    let window: u16 = if lease.min_refresh_seconds < lease.expires_seconds {
        lease.min_refresh_seconds
    } else {
        lease.expires_seconds
    };
    let middle: u64 = (lease.expires_seconds - window / 2) as u64;
    if middle < MIN_REFRESH_DELAY_SECONDS {
        MIN_REFRESH_DELAY_SECONDS
    } else {
        middle
    }
}

/// What the renewal task is waiting for.
#[derive(Clone, Copy, Debug, PartialEq, Eq, Structural)]
pub enum SeedPhase {
    /// The pause before the next renewal.
    Waiting,
    /// The seed router's answer.
    Refreshing,
    /// The extra pause after a refusal.
    BackingOff,
}

/// The renewal task: the lease it holds and what it is waiting for.
#[derive(Clone, Copy, Debug, PartialEq, Eq, Structural)]
pub struct SeedRefresher {
    pub lease: SeedLease,
    pub phase: SeedPhase,
}

/// What the outside reports to the renewal task.
#[derive(Clone, Copy, Debug, PartialEq, Eq, Structural)]
pub enum SeedEvent {
    /// The pause is over.
    Elapsed,
    /// The seed router renewed the lease.
    Refreshed(SeedLease),
    /// The renewal failed.
    Failed,
}

/// What the renewal task asks of the outside.
#[derive(Clone, Copy, Debug, PartialEq, Eq, Structural)]
pub enum SeedAction {
    /// Pause for so many ticks of the time driver.
    Sleep { ticks: u64 },
    /// Ask the seed router to renew this lease.
    Refresh { lease: SeedLease },
}

/// The pause of `seconds` seconds.
pub open spec fn sleep(seconds: int) -> SeedAction {
    SeedAction::Sleep { ticks: (seconds * TICKS_PER_SECOND) as u64 }
}

/// The task with a fresh lease, at the start of the pause before its renewal.
pub open spec fn holding(lease: SeedLease) -> SeedRefresher {
    SeedRefresher { lease, phase: SeedPhase::Waiting }
}

/// The task's state and request after `event`, or `None` where `event` does not
/// answer what the task is waiting for.
pub open spec fn next(state: SeedRefresher, event: SeedEvent) -> Option<
    (SeedRefresher, SeedAction),
> {
    match (state.phase, event) {
        (SeedPhase::Waiting, SeedEvent::Elapsed) => Some(
            (
                SeedRefresher { phase: SeedPhase::Refreshing, ..state },
                SeedAction::Refresh { lease: state.lease },
            ),
        ),
        (SeedPhase::Refreshing, SeedEvent::Refreshed(lease)) => Some(
            (holding(lease), sleep(refresh_delay(lease))),
        ),
        (SeedPhase::Refreshing, SeedEvent::Failed) => Some(
            (
                SeedRefresher { phase: SeedPhase::BackingOff, ..state },
                sleep(RETRY_DELAY_SECONDS as int),
            ),
        ),
        (SeedPhase::BackingOff, SeedEvent::Elapsed) => Some(
            (holding(state.lease), sleep(refresh_delay(state.lease))),
        ),
        _ => None,
    }
}

impl SeedRefresher {
    /// Starts the task on `initial_lease`; the first request is the pause before
    /// the renewal.
    pub fn start(initial_lease: SeedLease) -> (started: (SeedRefresher, SeedAction))
        ensures
            started.0 == holding(initial_lease),
            started.1 == sleep(refresh_delay(initial_lease)),
    {
        let delay: u64 = refresh_delay_seconds(&initial_lease);
        (
            SeedRefresher { lease: initial_lease, phase: SeedPhase::Waiting },
            SeedAction::Sleep { ticks: ticks_from_secs(delay) },
        )
    }

    /// Takes `event` and gives the next request. An event that does not answer
    /// the last request is refused and leaves the task as it was.
    pub fn step(&mut self, event: SeedEvent) -> (action: Option<SeedAction>)
        ensures
            match next(*old(self), event) {
                Some((state, request)) => *final(self) == state && action == Some(request),
                None => *final(self) == *old(self) && action is None,
            },
    {
        match (self.phase, event) {
            (SeedPhase::Waiting, SeedEvent::Elapsed) => {
                self.phase = SeedPhase::Refreshing;
                Some(SeedAction::Refresh { lease: self.lease })
            },
            (SeedPhase::Refreshing, SeedEvent::Refreshed(lease)) => {
                self.lease = lease;
                self.phase = SeedPhase::Waiting;
                let delay: u64 = refresh_delay_seconds(&self.lease);
                Some(SeedAction::Sleep { ticks: ticks_from_secs(delay) })
            },
            (SeedPhase::Refreshing, SeedEvent::Failed) => {
                self.phase = SeedPhase::BackingOff;
                Some(SeedAction::Sleep { ticks: ticks_from_secs(RETRY_DELAY_SECONDS) })
            },
            (SeedPhase::BackingOff, SeedEvent::Elapsed) => {
                self.phase = SeedPhase::Waiting;
                let delay: u64 = refresh_delay_seconds(&self.lease);
                Some(SeedAction::Sleep { ticks: ticks_from_secs(delay) })
            },
            _ => None,
        }
    }
}

/// The renewal task as a machine.
pub open spec fn machine() -> spec_fn(SeedRefresher, SeedEvent) -> Option<
    (SeedRefresher, SeedAction),
> {
    |state: SeedRefresher, event: SeedEvent| next(state, event)
}

/// The task that started on `lease` and its requests, after `events`, or `None`
/// where one of them was refused.
pub open spec fn run(lease: SeedLease, events: Seq<SeedEvent>) -> Option<
    Run<SeedRefresher, SeedAction>,
> {
    trace::run(machine(), trace::started(holding(lease), sleep(refresh_delay(lease))), events)
}

/// The lease that was granted last: the first one, where `events` grants none.
pub open spec fn last_granted(lease: SeedLease, events: Seq<SeedEvent>) -> SeedLease
    decreases events.len(),
{
    if events.len() == 0 {
        lease
    } else {
        match events.last() {
            SeedEvent::Refreshed(granted) => granted,
            _ => last_granted(lease, events.drop_last()),
        }
    }
}

/// The request that a task in `state` has made and waits on.
pub open spec fn pending(state: SeedRefresher) -> SeedAction {
    match state.phase {
        SeedPhase::Waiting => sleep(refresh_delay(state.lease)),
        SeedPhase::Refreshing => SeedAction::Refresh { lease: state.lease },
        SeedPhase::BackingOff => sleep(RETRY_DELAY_SECONDS as int),
    }
}

/// The task holds the lease that was granted last, whatever failed since, and
/// its last request is the one that its state says.
pub proof fn holds_last_granted_lease(lease: SeedLease, events: Seq<SeedEvent>)
    requires
        run(lease, events) is Some,
    ensures
        run(lease, events)->0.state.lease == last_granted(lease, events),
        run(lease, events)->0.requests.len() == events.len() + 1,
        run(lease, events)->0.requests.last() == pending(run(lease, events)->0.state),
    decreases events.len(),
{
    if events.len() > 0 {
        holds_last_granted_lease(lease, events.drop_last());
    }
}

/// One step of a longer run: the state before and after event `k`, and the two
/// requests around it.
proof fn run_at(lease: SeedLease, events: Seq<SeedEvent>, k: int)
    requires
        run(lease, events) is Some,
        0 <= k < events.len(),
    ensures
        ({
            let requests = run(lease, events)->0.requests;
            let before = run(lease, events.take(k))->0.state;
            let after = run(lease, events.take(k + 1))->0.state;
            &&& next(before, events[k]) == Some((after, requests[k + 1]))
            &&& requests[k] == pending(before)
            &&& requests[k + 1] == pending(after)
            &&& before.lease == last_granted(lease, events.take(k))
            &&& after.lease == last_granted(lease, events.take(k + 1))
        }),
{
    let requests = run(lease, events)->0.requests;
    let start = trace::started(holding(lease), sleep(refresh_delay(lease)));
    trace::run_at(machine(), start, events, k);
    trace::run_of_prefix(machine(), start, events, k);
    holds_last_granted_lease(lease, events.take(k));
    holds_last_granted_lease(lease, events.take(k + 1));
    assert(requests.take(k + 1).last() == requests[k]);
}

/// Every renewal asks for the lease that was granted last, and comes right after
/// the pause that belongs to that lease: renewals never follow one another
/// without it.
pub proof fn refresh_follows_its_pause(lease: SeedLease, events: Seq<SeedEvent>, k: int)
    requires
        run(lease, events) is Some,
        0 <= k <= events.len(),
        run(lease, events)->0.requests[k] is Refresh,
    ensures
        k > 0,
        run(lease, events)->0.requests[k] == (SeedAction::Refresh {
            lease: last_granted(lease, events.take(k)),
        }),
        run(lease, events)->0.requests[k - 1] == sleep(
            refresh_delay(last_granted(lease, events.take(k))),
        ),
{
    let start = trace::started(holding(lease), sleep(refresh_delay(lease)));
    trace::run_of_prefix(machine(), start, events, 0);
    assert(start.requests[0] == run(lease, events)->0.requests.take(1)[0]);
    run_at(lease, events, k - 1);
}

/// After a failed renewal the task pauses for the extra time, then for the whole
/// delay of the lease it still holds, and presents that same lease again.
pub proof fn failure_pauses_then_retries(lease: SeedLease, events: Seq<SeedEvent>, k: int)
    requires
        run(lease, events) is Some,
        0 <= k < events.len(),
        events[k] is Failed,
    ensures
        ({
            let requests = run(lease, events)->0.requests;
            let held = last_granted(lease, events.take(k));
            &&& requests[k] == (SeedAction::Refresh { lease: held })
            &&& requests[k + 1] == sleep(RETRY_DELAY_SECONDS as int)
            &&& k + 1 < events.len() ==> requests[k + 2] == sleep(refresh_delay(held))
            &&& k + 2 < events.len() ==> requests[k + 3] == (SeedAction::Refresh { lease: held })
        }),
{
    run_at(lease, events, k);
    if k + 1 < events.len() {
        run_at(lease, events, k + 1);
    }
    if k + 2 < events.len() {
        run_at(lease, events, k + 2);
    }
}

/// The task never ends: whatever it waits on, every answer to it is accepted.
pub proof fn never_stops(state: SeedRefresher, granted: SeedLease)
    ensures
        pending(state) is Sleep ==> next(state, SeedEvent::Elapsed) is Some,
        pending(state) is Refresh ==> next(state, SeedEvent::Refreshed(granted)) is Some,
        pending(state) is Refresh ==> next(state, SeedEvent::Failed) is Some,
{
}

/// A lease that grants a window is not renewed before the window opens: when the
/// renewal is asked for, fewer seconds remain than the router demands.
pub proof fn waits_for_the_window(lease: SeedLease)
    requires
        lease.min_refresh_seconds > 0,
    ensures
        lease.expires_seconds - refresh_delay(lease) < lease.min_refresh_seconds,
{
}

/// Half of the lease has passed by the time it is renewed.
pub proof fn waits_half_the_lease(lease: SeedLease)
    ensures
        2 * refresh_delay(lease) >= lease.expires_seconds,
{
}

/// The renewal is asked for before the lease expires exactly where the lease
/// outlasts the shortest pause and its window is two seconds or more.
pub proof fn renews_before_expiry(lease: SeedLease)
    ensures
        refresh_delay(lease) < lease.expires_seconds <==> lease.expires_seconds
            > MIN_REFRESH_DELAY_SECONDS && lease.min_refresh_seconds >= 2,
{
}

/// The pause is never shorter than the shortest one, and longer than the lease
/// only where the lease is shorter than that.
pub proof fn delay_is_bounded(lease: SeedLease)
    ensures
        MIN_REFRESH_DELAY_SECONDS <= refresh_delay(lease),
        refresh_delay(lease) <= lease.expires_seconds || refresh_delay(lease)
            == MIN_REFRESH_DELAY_SECONDS,
{
}

/// The renewal is asked for in the middle of the window: of the seconds in which
/// the router renews, as many are left as have passed, give or take the odd one.
pub proof fn renews_in_the_middle(lease: SeedLease)
    requires
        refresh_delay(lease) > 5,
    ensures
        lease.min_refresh_seconds <= lease.expires_seconds ==> 0 <= lease.min_refresh_seconds - 2
            * (lease.expires_seconds - refresh_delay(lease)) <= 1,
        lease.min_refresh_seconds > lease.expires_seconds ==> 0 <= lease.expires_seconds - 2 * (
        lease.expires_seconds - refresh_delay(lease)) <= 1,
{
}

/// A lease whose window fits into it is renewed half a window before it expires, or
/// after five seconds where that is later.
pub proof fn renews_half_a_window_early(lease: SeedLease)
    requires
        lease.min_refresh_seconds <= lease.expires_seconds,
    ensures
        ({
            let half_window_early = lease.expires_seconds - lease.min_refresh_seconds / 2;
            refresh_delay(lease) == if half_window_early > 5 {
                half_window_early
            } else {
                5
            }
        }),
{
}

/// A lease that can be renewed all the time is renewed after half of it, rounded
/// up, or after five seconds where that is later.
pub proof fn renews_after_half_of_a_short_lease(lease: SeedLease)
    requires
        lease.min_refresh_seconds >= lease.expires_seconds,
    ensures
        refresh_delay(lease) == if lease.expires_seconds > 10 {
            (lease.expires_seconds + 1) / 2
        } else {
            5
        },
{
}

/// The task waits on what it asked for last, and `BackingOff` follows failed
/// renewals only.
pub proof fn waits_on_last_request(lease: SeedLease, events: Seq<SeedEvent>)
    requires
        run(lease, events) is Some,
    ensures
        run(lease, events)->0.state.phase is Refreshing <==> run(
            lease,
            events,
        )->0.requests.last() is Refresh,
        run(lease, events)->0.state.phase is BackingOff <==> events.len() > 0
            && events.last() is Failed,
{
}

/// After every run the task takes every answer to its last request, and nothing
/// else: the end of a pause, any lease in place of the old one, a refusal.
pub proof fn takes_every_answer(lease: SeedLease, events: Seq<SeedEvent>, event: SeedEvent)
    requires
        run(lease, events) is Some,
    ensures
        run(lease, events.push(event)) is Some <==> match run(lease, events)->0.requests.last() {
            SeedAction::Sleep { .. } => event is Elapsed,
            SeedAction::Refresh { .. } => event is Refreshed || event is Failed,
        },
{
    let start = trace::started(holding(lease), sleep(refresh_delay(lease)));
    waits_on_last_request(lease, events);
    trace::run_of_push(machine(), start, events, event);
}

/// What the task asks for at each point of a run, in seconds and in the fields of
/// the lease that was granted last. It asks for a renewal of that lease right after
/// a pause that no failure came before. Everything else is a pause of a million
/// ticks per second: five seconds after a failure, and otherwise half the window
/// less than the lease lasts, or five seconds where that is longer.
pub proof fn keeps_to_the_schedule(lease: SeedLease, events: Seq<SeedEvent>, k: int)
    requires
        run(lease, events) is Some,
        0 <= k <= events.len(),
    ensures
        ({
            let request = run(lease, events)->0.requests[k];
            let held = last_granted(lease, events.take(k));
            let lasts = held.expires_seconds as int;
            let window = if held.min_refresh_seconds <= held.expires_seconds {
                held.min_refresh_seconds as int
            } else {
                lasts
            };
            if k > 0 && events[k - 1] is Elapsed && !(k > 1 && events[k - 2] is Failed) {
                request == (SeedAction::Refresh { lease: held })
            } else {
                request matches SeedAction::Sleep { ticks } && ticks == 1_000_000 * (if k > 0
                    && events[k - 1] is Failed || lasts - window / 2 < 5 {
                    5
                } else {
                    lasts - window / 2
                })
            }
        }),
{
    let start = trace::started(holding(lease), sleep(refresh_delay(lease)));
    let before = events.take(k);
    trace::last_request_at(machine(), start, events, k);
    holds_last_granted_lease(lease, before);
    waits_on_last_request(lease, before);
    if k > 0 {
        assert(before.drop_last() =~= events.take(k - 1));
        waits_on_last_request(lease, events.take(k - 1));
        if k > 1 {
            assert(events.take(k - 1).last() == events[k - 2]);
        }
    }
}

} // verus!
