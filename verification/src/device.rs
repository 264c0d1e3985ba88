//! Starting the root device.
//!
//! The root device brings up its radio, registers it with its router, which puts
//! it on a network, and then serves: it answers pings and questions, lends out
//! network ids, and moves frames.

use crate::frame::ESP_NOW_MTU;
use crate::trace::{self, Run};
use vstd::prelude::*;

verus! {

/// The number of requests for a network id that may wait.
pub const SEED_REQUEST_DEPTH: usize = 4;

/// Why the root device cannot start.
#[derive(Clone, Copy, Debug, PartialEq, Eq, Structural)]
pub enum DeviceFailure {
    /// The radio did not come up.
    WifiInit,
    /// The radio could not be registered with the router.
    Registration,
    /// The router gave the radio no network id.
    NoNetId,
}

impl DeviceFailure {
    /// What the root device says as it gives up.
    pub fn message(&self) -> (message: &'static str)
        ensures
            message@ == match *self {
                DeviceFailure::WifiInit => "WiFi init failed"@,
                DeviceFailure::Registration => "register failed"@,
                DeviceFailure::NoNetId => "called `Option::unwrap()` on a `None` value"@,
            },
    {
        match self {
            DeviceFailure::WifiInit => "WiFi init failed",
            DeviceFailure::Registration => "register failed",
            DeviceFailure::NoNetId => "called `Option::unwrap()` on a `None` value",
        }
    }
}

/// How far the root device has come: what it is waiting for.
#[derive(Clone, Copy, Debug, PartialEq, Eq, Structural)]
pub enum DeviceBoot {
    StartingRadio,
    Registering,
    QueryingNetId { ident: u8 },
    Serving,
    Failed,
}

/// What the outside reports to the starting root device.
#[derive(Clone, Copy, Debug, PartialEq, Eq, Structural)]
pub enum DeviceEvent {
    /// The radio is up, or failed to come up.
    RadioStarted { ok: bool },
    /// The radio got this identifier, or none.
    Registered(Option<u8>),
    /// The network id of the radio, if it has one.
    NetId(Option<u16>),
}

/// What the starting root device asks of the outside.
#[derive(Clone, Copy, Debug, PartialEq, Eq, Structural)]
pub enum DeviceAction {
    /// Bring up the radio.
    StartRadio,
    /// Register the radio with a new router, with frames of this size.
    Register { mtu: u16 },
    /// Look up the network id of the radio.
    QueryNetId { ident: u8 },
    /// Serve, as `device_info::root_info` says, and move frames from now on, the
    /// radio being interface `ident` on network `net_id`.
    Serve { ident: u8, net_id: u16 },
    /// Give up.
    Fail(DeviceFailure),
}

/// The root device's state and request after `event`, or `None` where `event` does
/// not answer what it is waiting for.
pub open spec fn next(state: DeviceBoot, event: DeviceEvent) -> Option<(DeviceBoot, DeviceAction)> {
    match (state, event) {
        (DeviceBoot::StartingRadio, DeviceEvent::RadioStarted { ok }) => Some(
            if ok {
                (DeviceBoot::Registering, DeviceAction::Register { mtu: ESP_NOW_MTU })
            } else {
                (DeviceBoot::Failed, DeviceAction::Fail(DeviceFailure::WifiInit))
            },
        ),
        (DeviceBoot::Registering, DeviceEvent::Registered(registered)) => Some(
            match registered {
                Some(ident) => (
                    DeviceBoot::QueryingNetId { ident },
                    DeviceAction::QueryNetId { ident },
                ),
                None => (DeviceBoot::Failed, DeviceAction::Fail(DeviceFailure::Registration)),
            },
        ),
        (DeviceBoot::QueryingNetId { ident }, DeviceEvent::NetId(found)) => Some(
            match found {
                Some(net_id) => (DeviceBoot::Serving, DeviceAction::Serve { ident, net_id }),
                None => (DeviceBoot::Failed, DeviceAction::Fail(DeviceFailure::NoNetId)),
            },
        ),
        _ => None,
    }
}

impl DeviceBoot {
    /// Starts the root device; the first request is to bring up the radio.
    pub fn start() -> (started: (DeviceBoot, DeviceAction))
        ensures
            started.0 == DeviceBoot::StartingRadio,
            started.1 == DeviceAction::StartRadio,
    {
        (DeviceBoot::StartingRadio, DeviceAction::StartRadio)
    }

    /// Takes `event` and gives the next request. An event that does not answer
    /// the last request is refused and leaves the root device as it was.
    pub fn step(&mut self, event: DeviceEvent) -> (action: Option<DeviceAction>)
        ensures
            match next(*old(self), event) {
                Some((state, request)) => *final(self) == state && action == Some(request),
                None => *final(self) == *old(self) && action is None,
            },
    {
        let (state, request): (DeviceBoot, DeviceAction) = match (*self, event) {
            (DeviceBoot::StartingRadio, DeviceEvent::RadioStarted { ok }) => if ok {
                (DeviceBoot::Registering, DeviceAction::Register { mtu: ESP_NOW_MTU })
            } else {
                (DeviceBoot::Failed, DeviceAction::Fail(DeviceFailure::WifiInit))
            },
            (DeviceBoot::Registering, DeviceEvent::Registered(Some(ident))) => (
                DeviceBoot::QueryingNetId { ident },
                DeviceAction::QueryNetId { ident },
            ),
            (DeviceBoot::Registering, DeviceEvent::Registered(None)) => (
                DeviceBoot::Failed,
                DeviceAction::Fail(DeviceFailure::Registration),
            ),
            (DeviceBoot::QueryingNetId { ident }, DeviceEvent::NetId(Some(net_id))) => (
                DeviceBoot::Serving,
                DeviceAction::Serve { ident, net_id },
            ),
            (DeviceBoot::QueryingNetId { .. }, DeviceEvent::NetId(None)) => (
                DeviceBoot::Failed,
                DeviceAction::Fail(DeviceFailure::NoNetId),
            ),
            _ => {
                return None;
            },
        };
        *self = state;
        Some(request)
    }
}

/// The starting root device as a machine.
pub open spec fn machine() -> spec_fn(DeviceBoot, DeviceEvent) -> Option<
    (DeviceBoot, DeviceAction),
> {
    |state: DeviceBoot, event: DeviceEvent| next(state, event)
}

/// The root device and its requests after `events`, or `None` where one of them
/// was refused.
pub open spec fn run(events: Seq<DeviceEvent>) -> Option<Run<DeviceBoot, DeviceAction>> {
    trace::run(
        machine(),
        trace::started(DeviceBoot::StartingRadio, DeviceAction::StartRadio),
        events,
    )
}

/// The root device serves exactly where its radio came up, was registered and got
/// a network id, and it serves under that identifier and that network id.
pub proof fn serves_exactly_when_addressed(events: Seq<DeviceEvent>, ident: u8, net_id: u16)
    requires
        run(events) is Some,
    ensures
        run(events)->0.requests.last() == (DeviceAction::Serve { ident, net_id }) <==> events
            == seq![
            DeviceEvent::RadioStarted { ok: true },
            DeviceEvent::Registered(Some(ident)),
            DeviceEvent::NetId(Some(net_id)),
        ],
{
    let start = trace::started(DeviceBoot::StartingRadio, DeviceAction::StartRadio);
    trace::one_request_per_event(machine(), start, events);
    let full = seq![
        DeviceEvent::RadioStarted { ok: true },
        DeviceEvent::Registered(Some(ident)),
        DeviceEvent::NetId(Some(net_id)),
    ];
    let two = events.drop_last();
    let one = two.drop_last();
    let none = one.drop_last();
    reveal_with_fuel(trace::run, 4);
    if run(events)->0.requests.last() == (DeviceAction::Serve { ident, net_id }) {
        assert(events.len() > 0);
        assert(two.len() > 0);
        assert(one.len() > 0);
        if none.len() > 0 {
            assert(trace::run(machine(), start, none) is Some);
            assert(trace::run(machine(), start, none)->0.state is StartingRadio);
            assert(false);
        }
        assert(events =~= full);
    }
}

/// A root device that cannot get an address gives up with the first thing that was
/// missing, and takes no more events.
pub proof fn gives_up_only_on_refusal(events: Seq<DeviceEvent>, k: int)
    requires
        run(events) is Some,
        0 < k <= events.len(),
    ensures
        run(events)->0.requests[k] == DeviceAction::Fail(DeviceFailure::WifiInit) <==> events[k - 1]
            == (DeviceEvent::RadioStarted { ok: false }),
        run(events)->0.requests[k] == DeviceAction::Fail(DeviceFailure::Registration)
            <==> events[k - 1] == DeviceEvent::Registered(None),
        run(events)->0.requests[k] == DeviceAction::Fail(DeviceFailure::NoNetId) <==> events[k - 1]
            == DeviceEvent::NetId(None),
        run(events)->0.requests[k] is Fail ==> k == events.len(),
{
    let start = trace::started(DeviceBoot::StartingRadio, DeviceAction::StartRadio);
    trace::run_at(machine(), start, events, k - 1);
    if run(events)->0.requests[k] is Fail && k < events.len() {
        trace::run_at(machine(), start, events, k);
    }
}

/// The root device waits on what it asked for last, and the first thing it asks for
/// is its radio.
pub proof fn waits_on_last_request(events: Seq<DeviceEvent>)
    requires
        run(events) is Some,
    ensures
        run(events)->0.requests.len() == events.len() + 1,
        run(events)->0.requests[0] == DeviceAction::StartRadio,
        run(events)->0.state == match run(events)->0.requests.last() {
            DeviceAction::StartRadio => DeviceBoot::StartingRadio,
            DeviceAction::Register { .. } => DeviceBoot::Registering,
            DeviceAction::QueryNetId { ident } => DeviceBoot::QueryingNetId { ident },
            DeviceAction::Serve { .. } => DeviceBoot::Serving,
            DeviceAction::Fail(_) => DeviceBoot::Failed,
        },
{
    let start = trace::started(DeviceBoot::StartingRadio, DeviceAction::StartRadio);
    trace::last_request_at(machine(), start, events, 0);
}

/// After every run the root device takes every answer to its last request, good or
/// bad, and nothing else; one that serves or has given up takes none.
pub proof fn takes_every_answer(events: Seq<DeviceEvent>, event: DeviceEvent)
    requires
        run(events) is Some,
    ensures
        run(events.push(event)) is Some <==> match run(events)->0.requests.last() {
            DeviceAction::StartRadio => event is RadioStarted,
            DeviceAction::Register { .. } => event is Registered,
            DeviceAction::QueryNetId { .. } => event is NetId,
            DeviceAction::Serve { .. } => false,
            DeviceAction::Fail(_) => false,
        },
{
    let start = trace::started(DeviceBoot::StartingRadio, DeviceAction::StartRadio);
    waits_on_last_request(events);
    trace::run_of_push(machine(), start, events, event);
}

/// What each good answer leads to, in every run: a radio that came up is registered
/// with frames of 250 bytes; the interface that was registered, and no other, has
/// its network id looked up; and that interface is served under the network id that
/// was found.
pub proof fn answers_lead_on(events: Seq<DeviceEvent>, k: int)
    requires
        run(events) is Some,
        0 <= k < events.len(),
    ensures
        events[k] == (DeviceEvent::RadioStarted { ok: true }) ==> run(events)->0.requests[k + 1]
            == (DeviceAction::Register { mtu: 250 }),
        events[k] matches DeviceEvent::Registered(Some(registered)) ==> run(
            events,
        )->0.requests[k + 1] == (DeviceAction::QueryNetId { ident: registered }),
        events[k] matches DeviceEvent::NetId(Some(found)) ==> k > 0 && (
        events[k - 1] matches DeviceEvent::Registered(Some(registered)) && run(
            events,
        )->0.requests[k + 1] == (DeviceAction::Serve { ident: registered, net_id: found })),
{
    let start = trace::started(DeviceBoot::StartingRadio, DeviceAction::StartRadio);
    trace::run_at(machine(), start, events, k);
    if k > 0 {
        trace::run_at(machine(), start, events, k - 1);
    }
}

/// Whatever identifier and network id the radio gets, the root device comes to
/// serve under them, in four requests.
pub proof fn comes_to_serve(ident: u8, net_id: u16)
    ensures
        run(
            seq![
                DeviceEvent::RadioStarted { ok: true },
                DeviceEvent::Registered(Some(ident)),
                DeviceEvent::NetId(Some(net_id)),
            ],
        ) == Some(
            Run {
                state: DeviceBoot::Serving,
                requests: seq![
                    DeviceAction::StartRadio,
                    DeviceAction::Register { mtu: 250 },
                    DeviceAction::QueryNetId { ident },
                    DeviceAction::Serve { ident, net_id },
                ],
            },
        ),
{
    let start = trace::started(DeviceBoot::StartingRadio, DeviceAction::StartRadio);
    let requests = seq![
        DeviceAction::Register { mtu: 250 },
        DeviceAction::QueryNetId { ident },
        DeviceAction::Serve { ident, net_id },
    ];
    trace::run_along(
        machine(),
        start,
        seq![
            DeviceEvent::RadioStarted { ok: true },
            DeviceEvent::Registered(Some(ident)),
            DeviceEvent::NetId(Some(net_id)),
        ],
        seq![
            DeviceBoot::StartingRadio,
            DeviceBoot::Registering,
            DeviceBoot::QueryingNetId { ident },
            DeviceBoot::Serving,
        ],
        requests,
    );
    assert(start.requests + requests =~= seq![
        DeviceAction::StartRadio,
        DeviceAction::Register { mtu: 250 },
        DeviceAction::QueryNetId { ident },
        DeviceAction::Serve { ident, net_id },
    ]);
}

} // verus!
