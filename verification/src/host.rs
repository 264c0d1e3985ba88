//! A session of the host tool.
//!
//! The host connects to the first bridge it finds, asks the network who is there,
//! and pings everyone who answered, a few times at most each. After that it only
//! keeps the connection up.

use crate::frame::USB_MTU;
use crate::interface::{link_local_activation, Address, InterfaceState, LINK_LOCAL_NET_ID};
use crate::trace::{self, Run};
use vstd::prelude::*;

verus! {

/// The most devices that a discovery waits on at a time.
pub const DISCOVERY_BOUND: usize = 10;

/// How long a discovery lasts.
pub const DISCOVERY_SECONDS: u64 = 3;

/// The number that a ping carries.
pub const PING_PAYLOAD: u32 = 42;

/// How long a ping waits for its reply.
pub const PING_SECONDS: u64 = 3;

/// How often a device is pinged that does not reply.
pub const PING_ATTEMPTS: u8 = 3;

/// The length of a pause of the idle host.
pub const IDLE_SECONDS: u64 = 60;

/// The product name to show for a USB device, which may have none.
pub fn product_label<'a>(product: &'a Option<String>) -> (label: &'a str)
    ensures
        label@ == match *product {
            Some(name) => name@,
            None => "unknown"@,
        },
{
    match product {
        Some(name) => name.as_str(),
        None => "unknown",
    }
}

/// Why a session ends.
#[derive(Clone, Copy, Debug, PartialEq, Eq, Structural)]
pub enum HostFailure {
    /// There is no bridge.
    NoDevice,
    /// The bridge could not be registered.
    Registration,
}

impl HostFailure {
    /// What the host tells its user; `cause` says why a registration failed.
    pub fn message(&self, cause: &str) -> (message: String)
        ensures
            message@ == match *self {
                HostFailure::NoDevice => "No ergot USB device found. Is the bridge plugged in?"@,
                HostFailure::Registration => "USB registration failed: "@ + cause@,
            },
    {
        match self {
            HostFailure::NoDevice => {
                "No ergot USB device found. Is the bridge plugged in?".to_owned()
            },
            HostFailure::Registration => {
                let mut message: String = "USB registration failed: ".to_owned();
                message.append(cause);
                message
            },
        }
    }
}

/// What the host is waiting for.
#[derive(Clone, Copy, Debug, PartialEq, Eq, Structural)]
pub enum HostPhase {
    /// The list of USB devices.
    Searching,
    /// The connection to the bridge.
    Registering,
    /// The answers of the network.
    Discovering,
    /// The reply to a ping.
    Pinging { device: usize, attempt: u8 },
    /// The end of a pause.
    Idle,
    /// Nothing; the session is over.
    Failed,
}

/// How a ping ended.
#[derive(Clone, Copy, Debug, PartialEq, Eq, Structural)]
pub enum PingOutcome {
    /// The device sent this number back.
    Reply(u32),
    /// The ping could not be sent or was refused.
    Error,
    /// No reply came in time.
    Timeout,
}

/// What the outside reports to the host.
#[derive(Debug)]
pub enum HostEvent {
    /// So many bridges are plugged in.
    Found { count: usize },
    /// The bridge is connected, or could not be connected.
    Registered { ok: bool },
    /// The devices that answered, in the order of their answers.
    Discovered(Vec<Address>),
    /// The ping is over.
    Pinged(PingOutcome),
    /// The pause is over.
    Slept,
}

/// What the host asks of the outside.
#[derive(Clone, Copy, Debug, PartialEq, Eq, Structural)]
pub enum HostAction {
    /// List the bridges that are plugged in.
    Search,
    /// Connect to the bridge at place `device` of the list, with frames of this
    /// size, and give the link this state.
    Register { device: usize, mtu: u16, state: InterfaceState },
    /// Ask the network who is there, for so long, with room for `bound` answers.
    Discover { bound: usize, seconds: u64 },
    /// Send `payload` to `address` and wait so long for the reply.
    Ping { address: Address, payload: u32, attempt: u8, seconds: u64 },
    /// Pause.
    Sleep { seconds: u64 },
    /// End the session.
    Fail(HostFailure),
}

/// A session: what the host waits for, and the devices that it knows.
pub struct HostModel {
    pub phase: HostPhase,
    pub devices: Seq<Address>,
}

/// The host asks a device for its reply, attempt number `attempt`.
pub open spec fn ping(devices: Seq<Address>, device: usize, attempt: u8) -> (HostModel, HostAction) {
    (
        HostModel { phase: HostPhase::Pinging { device, attempt }, devices },
        HostAction::Ping {
            address: devices[device as int],
            payload: PING_PAYLOAD,
            attempt,
            seconds: PING_SECONDS,
        },
    )
}

/// The host turns to the device at place `device`, or rests where there is none.
pub open spec fn turn_to(devices: Seq<Address>, device: int) -> (HostModel, HostAction) {
    if device < devices.len() {
        ping(devices, device as usize, 1)
    } else {
        (
            HostModel { phase: HostPhase::Idle, devices },
            HostAction::Sleep { seconds: IDLE_SECONDS },
        )
    }
}

/// The host's state and request after `event`, or `None` where `event` does not
/// answer what it is waiting for.
pub open spec fn next(state: HostModel, event: HostEvent) -> Option<(HostModel, HostAction)> {
    match (state.phase, event) {
        (HostPhase::Searching, HostEvent::Found { count }) => Some(
            if count > 0 {
                (
                    HostModel { phase: HostPhase::Registering, ..state },
                    HostAction::Register {
                        device: 0,
                        mtu: USB_MTU,
                        state: InterfaceState::Active { net_id: LINK_LOCAL_NET_ID, node_id: 2 },
                    },
                )
            } else {
                (
                    HostModel { phase: HostPhase::Failed, ..state },
                    HostAction::Fail(HostFailure::NoDevice),
                )
            },
        ),
        (HostPhase::Registering, HostEvent::Registered { ok }) => Some(
            if ok {
                (
                    HostModel { phase: HostPhase::Discovering, ..state },
                    HostAction::Discover { bound: DISCOVERY_BOUND, seconds: DISCOVERY_SECONDS },
                )
            } else {
                (
                    HostModel { phase: HostPhase::Failed, ..state },
                    HostAction::Fail(HostFailure::Registration),
                )
            },
        ),
        (HostPhase::Discovering, HostEvent::Discovered(devices)) => Some(turn_to(devices@, 0)),
        (HostPhase::Pinging { device, attempt }, HostEvent::Pinged(outcome)) => Some(
            if outcome is Reply || attempt >= PING_ATTEMPTS {
                turn_to(state.devices, device + 1)
            } else {
                ping(state.devices, device, (attempt + 1) as u8)
            },
        ),
        (HostPhase::Idle, HostEvent::Slept) => Some(
            (state, HostAction::Sleep { seconds: IDLE_SECONDS }),
        ),
        _ => None,
    }
}

/// A session of the host tool.
#[derive(Debug)]
pub struct HostSession {
    phase: HostPhase,
    devices: Vec<Address>,
}

impl View for HostSession {
    type V = HostModel;

    closed spec fn view(&self) -> HostModel {
        HostModel { phase: self.phase, devices: self.devices@ }
    }
}

impl HostSession {
    /// A ping goes to a device that the host knows.
    #[verifier::type_invariant]
    spec fn pings_known_device(self) -> bool {
        self.phase matches HostPhase::Pinging { device, .. } ==> device < self.devices@.len()
    }

    /// Starts a session; the first request is to list the bridges.
    pub fn start() -> (started: (HostSession, HostAction))
        ensures
            started.0@ == before_search(),
            started.1 == HostAction::Search,
    {
        (HostSession { phase: HostPhase::Searching, devices: Vec::new() }, HostAction::Search)
    }

    /// Takes `event` and gives the next request. An event that does not answer
    /// the last request is refused and leaves the session as it was.
    pub fn step(&mut self, event: HostEvent) -> (action: Option<HostAction>)
        ensures
            match next(old(self)@, event) {
                Some((state, request)) => final(self)@ == state && action == Some(request),
                None => final(self)@ == old(self)@ && action is None,
            },
    {
        proof {
            use_type_invariant(&*self);
        }
        match (self.phase, event) {
            (HostPhase::Searching, HostEvent::Found { count }) => if count > 0 {
                self.phase = HostPhase::Registering;
                Some(
                    HostAction::Register {
                        device: 0,
                        mtu: USB_MTU,
                        state: link_local_activation(),
                    },
                )
            } else {
                self.phase = HostPhase::Failed;
                Some(HostAction::Fail(HostFailure::NoDevice))
            },
            (HostPhase::Registering, HostEvent::Registered { ok }) => if ok {
                self.phase = HostPhase::Discovering;
                Some(HostAction::Discover { bound: DISCOVERY_BOUND, seconds: DISCOVERY_SECONDS })
            } else {
                self.phase = HostPhase::Failed;
                Some(HostAction::Fail(HostFailure::Registration))
            },
            (HostPhase::Discovering, HostEvent::Discovered(devices)) => {
                self.devices = devices;
                Some(self.turn_to_device(0))
            },
            (HostPhase::Pinging { device, attempt }, HostEvent::Pinged(outcome)) => {
                assert(device < self.devices.len());
                let replied: bool = match outcome {
                    PingOutcome::Reply(_) => true,
                    _ => false,
                };
                if replied || attempt >= PING_ATTEMPTS {
                    Some(self.turn_to_device(device + 1))
                } else {
                    Some(self.ping_device(device, attempt + 1))
                }
            },
            (HostPhase::Idle, HostEvent::Slept) => {
                Some(HostAction::Sleep { seconds: IDLE_SECONDS })
            },
            _ => None,
        }
    }

    /// Asks the device at place `device` for its reply.
    fn ping_device(&mut self, device: usize, attempt: u8) -> (action: HostAction)
        requires
            device < old(self)@.devices.len(),
        ensures
            (final(self)@, action) == ping(old(self)@.devices, device, attempt),
    {
        self.phase = HostPhase::Pinging { device, attempt };
        HostAction::Ping {
            address: self.devices[device],
            payload: PING_PAYLOAD,
            attempt,
            seconds: PING_SECONDS,
        }
    }

    /// Turns to the device at place `device`, or rests where there is none.
    fn turn_to_device(&mut self, device: usize) -> (action: HostAction)
        ensures
            (final(self)@, action) == turn_to(old(self)@.devices, device as int),
    {
        if device < self.devices.len() {
            self.ping_device(device, 1)
        } else {
            self.phase = HostPhase::Idle;
            HostAction::Sleep { seconds: IDLE_SECONDS }
        }
    }
}

/// A session that has found nothing yet.
pub open spec fn before_search() -> HostModel {
    HostModel { phase: HostPhase::Searching, devices: seq![] }
}

/// The session as a machine.
pub open spec fn machine() -> spec_fn(HostModel, HostEvent) -> Option<(HostModel, HostAction)> {
    |state: HostModel, event: HostEvent| next(state, event)
}

/// The session and its requests after `events`, or `None` where one of them was
/// refused.
pub open spec fn run(events: Seq<HostEvent>) -> Option<Run<HostModel, HostAction>> {
    trace::run(machine(), trace::started(before_search(), HostAction::Search), events)
}

/// The addresses that `requests` pinged, each counted where it was pinged for the
/// first time.
pub open spec fn pinged_first(requests: Seq<HostAction>) -> Seq<Address>
    decreases requests.len(),
{
    if requests.len() == 0 {
        seq![]
    } else {
        match requests.last() {
            HostAction::Ping { address, attempt, .. } => if attempt == 1 {
                pinged_first(requests.drop_last()).push(address)
            } else {
                pinged_first(requests.drop_last())
            },
            _ => pinged_first(requests.drop_last()),
        }
    }
}

/// The number of pings among `requests`.
pub open spec fn pings(requests: Seq<HostAction>) -> int
    decreases requests.len(),
{
    if requests.len() == 0 {
        0
    } else {
        pings(requests.drop_last()) + if requests.last() is Ping {
            1int
        } else {
            0int
        }
    }
}

/// What holds of every run: while the host pings, it has turned to the devices up
/// to the present one, in order, and has spent between one and all attempts on each
/// of those before.
proof fn progress(events: Seq<HostEvent>)
    requires
        run(events) is Some,
    ensures
        run(events)->0.state.devices.len() <= usize::MAX,
        ({
            let reached = run(events)->0;
            let devices = reached.state.devices;
            match reached.state.phase {
                HostPhase::Pinging { device, attempt } => {
                    &&& device < devices.len()
                    &&& 1 <= attempt <= PING_ATTEMPTS
                    &&& pinged_first(reached.requests) == devices.take(device + 1)
                    &&& device + attempt <= pings(reached.requests)
                    &&& pings(reached.requests) <= PING_ATTEMPTS * device + attempt
                },
                HostPhase::Idle => {
                    &&& pinged_first(reached.requests) == devices
                    &&& devices.len() <= pings(reached.requests)
                    &&& pings(reached.requests) <= PING_ATTEMPTS * devices.len()
                },
                _ => {
                    &&& devices.len() == 0
                    &&& pinged_first(reached.requests).len() == 0
                    &&& pings(reached.requests) == 0
                },
            }
        }),
    decreases events.len(),
{
    reveal_with_fuel(pinged_first, 2);
    reveal_with_fuel(pings, 2);
    let reached = run(events)->0;
    if events.len() == 0 {
        assert(reached.requests.drop_last().len() == 0);
    } else {
        let before = run(events.drop_last())->0;
        if let HostEvent::Discovered(devices) = events.last() {
            assert(devices.len() == devices@.len());
        }
        progress(events.drop_last());
        assert(reached.requests.drop_last() == before.requests);
        let devices = reached.state.devices;
        match reached.state.phase {
            HostPhase::Pinging { device, attempt } => {
                if attempt == 1 {
                    assert(devices.take(device + 1) =~= devices.take(device as int).push(
                        devices[device as int],
                    ));
                    if device == 0 {
                        assert(devices.take(0) =~= seq![]);
                        assert(pinged_first(before.requests) =~= seq![]);
                    }
                }
            },
            HostPhase::Idle => {
                assert(devices.take(devices.len() as int) =~= devices);
                if before.state.phase is Discovering {
                    assert(pinged_first(before.requests) =~= devices);
                }
            },
            _ => {},
        }
    }
}

/// The host never pings more often than all attempts on all devices allow. By the
/// time it rests it has pinged every device that it discovered, in the order of
/// discovery, at least once each.
pub proof fn pings_everyone_in_order(events: Seq<HostEvent>)
    requires
        run(events) is Some,
    ensures
        pings(run(events)->0.requests) <= PING_ATTEMPTS * run(events)->0.state.devices.len(),
        run(events)->0.state.phase is Idle ==> pinged_first(run(events)->0.requests)
            == run(events)->0.state.devices,
        run(events)->0.state.phase is Idle ==> pings(run(events)->0.requests)
            >= run(events)->0.state.devices.len(),
{
    progress(events);
}

/// The devices that the host knows are those that answered its discovery.
pub proof fn knows_what_it_discovered(events: Seq<HostEvent>, k: int)
    requires
        run(events) is Some,
        0 <= k < events.len(),
        events[k] is Discovered,
    ensures
        run(events)->0.state.devices == events[k]->Discovered_0@,
        run(events)->0.state.phase is Pinging || run(events)->0.state.phase is Idle,
    decreases events.len(),
{
    if k < events.len() - 1 {
        knows_what_it_discovered(events.drop_last(), k);
    }
}

/// Every ping carries the same number, waits equally long, is one of the allowed
/// attempts, and goes to a device that answered the discovery.
pub proof fn pings_are_alike(events: Seq<HostEvent>, k: int)
    requires
        run(events) is Some,
        0 <= k <= events.len(),
        run(events)->0.requests[k] is Ping,
    ensures
        run(events)->0.requests[k] matches HostAction::Ping { address, payload, attempt, seconds }
            && payload == PING_PAYLOAD && seconds == PING_SECONDS && 1 <= attempt <= PING_ATTEMPTS
            && run(events)->0.state.devices.contains(address),
    decreases events.len(),
{
    let start = trace::started(before_search(), HostAction::Search);
    trace::one_request_per_event(machine(), start, events);
    if events.len() > 0 {
        let earlier = events.drop_last();
        trace::one_request_per_event(machine(), start, earlier);
        progress(events);
        progress(earlier);
        if k < events.len() {
            assert(run(events)->0.requests[k] == run(earlier)->0.requests[k]);
            pings_are_alike(earlier, k);
        } else if let HostPhase::Pinging { device, attempt } = run(events)->0.state.phase {
            assert(run(events)->0.state.devices[device as int]
                == run(events)->0.requests[k]->address);
        }
    }
}

/// A device that did not reply is pinged again, with the next attempt, until the
/// attempts are used up; a reply or the last attempt ends its turn, and the host
/// starts on the next device or rests.
pub proof fn retries_until_reply(events: Seq<HostEvent>, k: int)
    requires
        run(events) is Some,
        0 <= k < events.len(),
        events[k] is Pinged,
    ensures
        ({
            let requests = run(events)->0.requests;
            &&& requests[k] is Ping
            &&& if events[k]->Pinged_0 is Reply || requests[k]->attempt == PING_ATTEMPTS {
                requests[k + 1] is Sleep || requests[k + 1] is Ping && requests[k + 1]->attempt == 1
            } else {
                requests[k + 1] == (HostAction::Ping {
                    address: requests[k]->address,
                    payload: PING_PAYLOAD,
                    attempt: (requests[k]->attempt + 1) as u8,
                    seconds: PING_SECONDS,
                })
            }
        }),
{
    let start = trace::started(before_search(), HostAction::Search);
    let requests = run(events)->0.requests;
    trace::run_at(machine(), start, events, k);
    trace::run_of_prefix(machine(), start, events, k);
    progress(events.take(k));
    waits_on_last_request(events.take(k));
    assert(requests.take(k + 1).last() == requests[k]);
}

/// A host that pings has just asked for that ping.
proof fn waits_on_last_request(events: Seq<HostEvent>)
    requires
        run(events) is Some,
        run(events)->0.state.phase is Pinging,
    ensures
        run(events)->0.state.phase matches HostPhase::Pinging { device, attempt }
            && run(events)->0.requests.last() == ping(
            run(events)->0.state.devices,
            device,
            attempt,
        ).1,
{
}

/// The session ends exactly where there is no bridge or it cannot be connected,
/// and takes no more events.
pub proof fn fails_only_without_bridge(events: Seq<HostEvent>, k: int)
    requires
        run(events) is Some,
        0 < k <= events.len(),
    ensures
        run(events)->0.requests[k] == HostAction::Fail(HostFailure::NoDevice) <==> events[k - 1]
            == (HostEvent::Found { count: 0 }),
        run(events)->0.requests[k] == HostAction::Fail(HostFailure::Registration)
            <==> events[k - 1] == (HostEvent::Registered { ok: false }),
        run(events)->0.requests[k] is Fail ==> k == events.len(),
{
    let start = trace::started(before_search(), HostAction::Search);
    trace::run_at(machine(), start, events, k - 1);
    if run(events)->0.requests[k] is Fail && k < events.len() {
        trace::run_at(machine(), start, events, k);
    }
}

/// A host that rests goes on resting, one pause after the other.
pub proof fn rests_forever(state: HostModel)
    requires
        state.phase is Idle,
    ensures
        next(state, HostEvent::Slept) == Some((state, HostAction::Sleep { seconds: IDLE_SECONDS })),
{
}

/// The host waits on what it asked for last, and the first thing it asks for is the
/// list of bridges.
pub proof fn waits_on_what_it_asked_for(events: Seq<HostEvent>)
    requires
        run(events) is Some,
    ensures
        run(events)->0.requests.len() == events.len() + 1,
        run(events)->0.requests[0] == HostAction::Search,
        match run(events)->0.requests.last() {
            HostAction::Search => run(events)->0.state.phase is Searching,
            HostAction::Register { .. } => run(events)->0.state.phase is Registering,
            HostAction::Discover { .. } => run(events)->0.state.phase is Discovering,
            HostAction::Ping { attempt, .. } => run(
                events,
            )->0.state.phase matches HostPhase::Pinging { attempt: current, .. } && current
                == attempt,
            HostAction::Sleep { .. } => run(events)->0.state.phase is Idle,
            HostAction::Fail(_) => run(events)->0.state.phase is Failed,
        },
{
    let start = trace::started(before_search(), HostAction::Search);
    trace::last_request_at(machine(), start, events, 0);
}

/// The session never gets stuck: after every run the host takes every answer to its
/// last request, and nothing else: any number of bridges, any list of devices, any
/// outcome of a ping. Only a session that has ended takes none.
pub proof fn takes_every_answer(events: Seq<HostEvent>, event: HostEvent)
    requires
        run(events) is Some,
    ensures
        run(events.push(event)) is Some <==> match run(events)->0.requests.last() {
            HostAction::Search => event is Found,
            HostAction::Register { .. } => event is Registered,
            HostAction::Discover { .. } => event is Discovered,
            HostAction::Ping { .. } => event is Pinged,
            HostAction::Sleep { .. } => event is Slept,
            HostAction::Fail(_) => false,
        },
{
    let start = trace::started(before_search(), HostAction::Search);
    waits_on_what_it_asked_for(events);
    trace::run_of_push(machine(), start, events, event);
}

/// However many bridges there are, the host connects to the first one, with frames
/// of 2048 bytes and as node 2 of network 0, and then asks for three seconds who is
/// there, with room for ten answers.
pub proof fn connects_link_local(events: Seq<HostEvent>, k: int)
    requires
        run(events) is Some,
        0 <= k < events.len(),
    ensures
        events[k] matches HostEvent::Found { count } ==> (count > 0 ==> run(
            events,
        )->0.requests[k + 1] == (HostAction::Register {
            device: 0,
            mtu: 2048,
            state: InterfaceState::Active { net_id: 0, node_id: 2 },
        })),
        events[k] == (HostEvent::Registered { ok: true }) ==> run(events)->0.requests[k + 1] == (
        HostAction::Discover { bound: 10, seconds: 3 }),
{
    let start = trace::started(before_search(), HostAction::Search);
    trace::run_at(machine(), start, events, k);
}

/// Once the host pings or rests, its third answer was the list of devices, which it
/// still knows.
proof fn discovered_third(events: Seq<HostEvent>)
    requires
        run(events) is Some,
    ensures
        match run(events)->0.state.phase {
            HostPhase::Searching => events.len() == 0,
            HostPhase::Registering => events.len() == 1,
            HostPhase::Discovering => events.len() == 2,
            HostPhase::Failed => true,
            _ => events.len() > 2 && events[2] is Discovered && run(events)->0.state.devices
                == events[2]->Discovered_0@,
        },
    decreases events.len(),
{
    if events.len() > 0 {
        discovered_third(events.drop_last());
    }
}

/// Whom the host turns to, in every run. The discovery leads to the first ping of
/// the first device. A ping without reply is repeated up to the third attempt. After
/// a reply, whatever its number, or a third attempt comes the first ping of the
/// device after those that had their turn. Where no device is left, the host rests
/// for 60 seconds.
pub proof fn turns_to_every_device(events: Seq<HostEvent>, k: int)
    requires
        run(events) is Some,
        0 <= k < events.len(),
    ensures
        ({
            let requests = run(events)->0.requests;
            let devices = events[2]->Discovered_0@;
            let turns = pinged_first(requests.take(k + 1)).len() as int;
            let next_turn = if turns < devices.len() {
                HostAction::Ping { address: devices[turns], payload: 42, attempt: 1, seconds: 3 }
            } else {
                HostAction::Sleep { seconds: 60 }
            };
            match events[k] {
                HostEvent::Discovered(_) => k == 2 && turns == 0 && requests[k + 1] == next_turn,
                HostEvent::Pinged(outcome) => {
                    &&& k > 2 && events[2] is Discovered
                    &&& 0 < turns <= devices.len()
                    &&& requests[k] matches HostAction::Ping { address, attempt, .. } && {
                        &&& address == devices[turns - 1]
                        &&& requests[k + 1] == if outcome !is Reply && attempt < 3 {
                            HostAction::Ping {
                                address,
                                payload: 42,
                                attempt: (attempt + 1) as u8,
                                seconds: 3,
                            }
                        } else {
                            next_turn
                        }
                    }
                },
                HostEvent::Slept => requests[k + 1] == (HostAction::Sleep { seconds: 60 }),
                _ => true,
            }
        }),
{
    let start = trace::started(before_search(), HostAction::Search);
    trace::run_at(machine(), start, events, k);
    trace::last_request_at(machine(), start, events, k);
    progress(events.take(k));
    discovered_third(events.take(k));
    if run(events.take(k))->0.state.phase is Pinging {
        waits_on_last_request(events.take(k));
    }
    if let HostEvent::Discovered(devices) = events[k] {
        assert(devices.len() == devices@.len());
    }
}

/// The answers of an outside with `count` bridges, `devices` behind the first of
/// them, and `outcomes` for the pings, up to ping number `n`.
pub open spec fn answers(
    count: usize,
    devices: Vec<Address>,
    outcomes: spec_fn(int) -> PingOutcome,
    n: nat,
) -> Seq<HostEvent> {
    seq![
        HostEvent::Found { count },
        HostEvent::Registered { ok: true },
        HostEvent::Discovered(devices),
    ] + Seq::new(n, |i: int| HostEvent::Pinged(outcomes(i)))
}

/// The most pings that a host in `state` may still wait on.
spec fn pings_left(state: HostModel) -> int {
    match state.phase {
        HostPhase::Pinging { device, attempt } => PING_ATTEMPTS * (state.devices.len() - device)
            - attempt + 1,
        _ => 0,
    }
}

/// The rest of `comes_to_rest`, once `n` pings have been answered.
proof fn comes_to_rest_after(
    count: usize,
    devices: Vec<Address>,
    outcomes: spec_fn(int) -> PingOutcome,
    n: nat,
) -> (total: nat)
    requires
        run(answers(count, devices, outcomes, n)) is Some,
        ({
            let reached = run(answers(count, devices, outcomes, n))->0;
            ||| reached.state.phase is Pinging && pings(reached.requests) == n + 1
            ||| reached.state.phase is Idle && pings(reached.requests) == n
        }),
    ensures
        ({
            let reached = run(answers(count, devices, outcomes, total));
            &&& reached is Some
            &&& reached->0.state.phase is Idle
            &&& pings(reached->0.requests) == total
        }),
    decreases pings_left(run(answers(count, devices, outcomes, n))->0.state),
{
    let events = answers(count, devices, outcomes, n);
    let reached = run(events)->0;
    if reached.state.phase is Idle {
        n
    } else {
        let event = HostEvent::Pinged(outcomes(n as int));
        let longer = answers(count, devices, outcomes, n + 1);
        assert(longer.drop_last() =~= events);
        assert(longer.last() == event);
        progress(events);
        let after = run(longer)->0;
        progress(longer);
        assert(after.requests.drop_last() =~= reached.requests);
        comes_to_rest_after(count, devices, outcomes, n + 1)
    }
}

/// With a bridge, every session comes to rest: whatever devices are discovered and
/// whatever becomes of each ping, the host gets through all of them, having pinged
/// each device in order, once to three times.
pub proof fn comes_to_rest(
    count: usize,
    devices: Vec<Address>,
    outcomes: spec_fn(int) -> PingOutcome,
) -> (total: nat)
    requires
        count > 0,
    ensures
        run(answers(count, devices, outcomes, total)) is Some,
        run(answers(count, devices, outcomes, total))->0.requests.last() == (HostAction::Sleep {
            seconds: 60,
        }),
        pinged_first(run(answers(count, devices, outcomes, total))->0.requests) == devices@,
        devices@.len() <= total <= 3 * devices@.len(),
{
    let events = answers(count, devices, outcomes, 0);
    let connected = events.drop_last();
    let found = connected.drop_last();
    assert(events.last() == HostEvent::Discovered(devices));
    assert(connected.last() == (HostEvent::Registered { ok: true }));
    assert(found.last() == (HostEvent::Found { count }));
    assert(found.drop_last().len() == 0);
    assert(devices.len() == devices@.len());
    reveal_with_fuel(trace::run, 4);
    progress(connected);
    reveal_with_fuel(pings, 2);
    assert(run(events)->0.requests.drop_last() =~= run(connected)->0.requests);
    let total = comes_to_rest_after(count, devices, outcomes, 0);
    let all = answers(count, devices, outcomes, total);
    progress(all);
    discovered_third(all);
    assert(all[2] == HostEvent::Discovered(devices));
    total
}

} // verus!
