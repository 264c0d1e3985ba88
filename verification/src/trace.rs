//! Runs of a machine that takes one event at a time and makes one request for
//! each.

use vstd::prelude::*;

verus! {

/// A machine after a number of events, and the requests that it made on the way.
pub struct Run<S, A> {
    pub state: S,
    pub requests: Seq<A>,
}

/// The run of a machine in `state` that has made its `first` request.
pub open spec fn started<S, A>(state: S, first: A) -> Run<S, A> {
    Run { state, requests: seq![first] }
}

/// The run that goes from `start` through `events` as `next` says, or `None` where
/// `next` refuses one of them.
pub open spec fn run<S, E, A>(
    next: spec_fn(S, E) -> Option<(S, A)>,
    start: Run<S, A>,
    events: Seq<E>,
) -> Option<Run<S, A>>
    decreases events.len(),
{
    if events.len() == 0 {
        Some(start)
    } else {
        match run(next, start, events.drop_last()) {
            Some(before) => match next(before.state, events.last()) {
                Some((state, request)) => Some(
                    Run { state, requests: before.requests.push(request) },
                ),
                None => None,
            },
            None => None,
        }
    }
}

/// Each event gives one request.
pub proof fn one_request_per_event<S, E, A>(
    next: spec_fn(S, E) -> Option<(S, A)>,
    start: Run<S, A>,
    events: Seq<E>,
)
    requires
        run(next, start, events) is Some,
    ensures
        run(next, start, events)->0.requests.len() == start.requests.len() + events.len(),
    decreases events.len(),
{
    if events.len() > 0 {
        one_request_per_event(next, start, events.drop_last());
    }
}

/// What happens later does not change what was requested before.
pub proof fn run_of_prefix<S, E, A>(
    next: spec_fn(S, E) -> Option<(S, A)>,
    start: Run<S, A>,
    events: Seq<E>,
    k: int,
)
    requires
        run(next, start, events) is Some,
        0 <= k <= events.len(),
    ensures
        run(next, start, events.take(k)) is Some,
        run(next, start, events.take(k))->0.requests == run(next, start, events)->0.requests.take(
            start.requests.len() + k,
        ),
    decreases events.len(),
{
    let requests = run(next, start, events)->0.requests;
    one_request_per_event(next, start, events);
    if k == events.len() {
        assert(events.take(k) == events);
        assert(requests.take(start.requests.len() + k) == requests);
    } else {
        let earlier = events.drop_last();
        one_request_per_event(next, start, earlier);
        run_of_prefix(next, start, earlier, k);
        assert(earlier.take(k) == events.take(k));
        assert(run(next, start, earlier)->0.requests.take(start.requests.len() + k)
            == requests.take(start.requests.len() + k));
    }
}

/// Event `k` of a run that started with one request takes the machine from where
/// the events before it have brought it, and gives request `k + 1`.
pub proof fn run_at<S, E, A>(
    next: spec_fn(S, E) -> Option<(S, A)>,
    start: Run<S, A>,
    events: Seq<E>,
    k: int,
)
    requires
        run(next, start, events) is Some,
        start.requests.len() == 1,
        0 <= k < events.len(),
    ensures
        run(next, start, events)->0.requests.len() == events.len() + 1,
        run(next, start, events.take(k)) is Some,
        run(next, start, events.take(k + 1)) is Some,
        next(run(next, start, events.take(k))->0.state, events[k]) == Some(
            (
                run(next, start, events.take(k + 1))->0.state,
                run(next, start, events)->0.requests[k + 1],
            ),
        ),
{
    let requests = run(next, start, events)->0.requests;
    one_request_per_event(next, start, events);
    run_of_prefix(next, start, events, k);
    run_of_prefix(next, start, events, k + 1);
    assert(events.take(k + 1).drop_last() == events.take(k));
    assert(requests.take(k + 2).last() == requests[k + 1]);
}

/// A run along given states: where every event leads from one of `states` to the
/// next with the request at its place, the run ends in the last of them and has made
/// those requests.
pub proof fn run_along<S, E, A>(
    next: spec_fn(S, E) -> Option<(S, A)>,
    start: Run<S, A>,
    events: Seq<E>,
    states: Seq<S>,
    requests: Seq<A>,
)
    requires
        states.len() == events.len() + 1,
        requests.len() == events.len(),
        states[0] == start.state,
        forall|i: int| #![trigger events[i]]
            0 <= i < events.len() ==> next(states[i], events[i]) == Some(
                (states[i + 1], requests[i]),
            ),
    ensures
        run(next, start, events) == Some(
            Run { state: states.last(), requests: start.requests + requests },
        ),
    decreases events.len(),
{
    if events.len() == 0 {
        assert(start.requests + requests =~= start.requests);
    } else {
        let shorter = events.drop_last();
        assert forall|i: int| #![trigger shorter[i]] 0 <= i < shorter.len() implies next(
            states.drop_last()[i],
            shorter[i],
        ) == Some((states.drop_last()[i + 1], requests.drop_last()[i])) by {
            assert(shorter[i] == events[i]);
        }
        run_along(next, start, shorter, states.drop_last(), requests.drop_last());
        assert(events[events.len() - 1] == events.last());
        assert((start.requests + requests.drop_last()).push(requests.last()) =~= start.requests
            + requests);
    }
}

/// One event more than `events`: the run goes on exactly where `next` takes it.
pub proof fn run_of_push<S, E, A>(
    next: spec_fn(S, E) -> Option<(S, A)>,
    start: Run<S, A>,
    events: Seq<E>,
    event: E,
)
    requires
        run(next, start, events) is Some,
    ensures
        run(next, start, events.push(event)) is Some <==> next(
            run(next, start, events)->0.state,
            event,
        ) is Some,
{
    assert(events.push(event).drop_last() =~= events);
}

/// Request `k` of a run that started with one request is the last one that the
/// first `k` events have led to.
pub proof fn last_request_at<S, E, A>(
    next: spec_fn(S, E) -> Option<(S, A)>,
    start: Run<S, A>,
    events: Seq<E>,
    k: int,
)
    requires
        run(next, start, events) is Some,
        start.requests.len() == 1,
        0 <= k <= events.len(),
    ensures
        run(next, start, events)->0.requests.len() == events.len() + 1,
        run(next, start, events.take(k)) is Some,
        run(next, start, events.take(k))->0.requests == run(next, start, events)->0.requests.take(
            k + 1,
        ),
        run(next, start, events.take(k))->0.requests.last() == run(
            next,
            start,
            events,
        )->0.requests[k],
{
    one_request_per_event(next, start, events);
    run_of_prefix(next, start, events, k);
}

} // verus!
