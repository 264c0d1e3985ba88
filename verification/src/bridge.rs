//! Starting the bridge.
//!
//! The bridge brings up its radio and its USB device, puts the radio link on the
//! root's network by hand, starts all tasks that move frames, and only then asks
//! the root for a network id for the USB link. It serves whether or not it gets
//! one.

use crate::frame::{ESP_NOW_MTU, USB_MTU};
use crate::interface::{upstream_activation, InterfaceState, LINK_LOCAL_NET_ID, ROOT_NET_ID};
use crate::seed::SeedLease;
use crate::trace::{self, Run};
use vstd::prelude::*;

verus! {

/// A task that moves frames.
#[derive(Clone, Copy, Debug, PartialEq, Eq, Structural)]
pub enum BridgeTask {
    /// Runs the USB device.
    Usb,
    /// Sends queued frames over USB.
    UsbTx,
    /// Sends queued frames over ESP-NOW.
    EspNowTx,
    /// Takes frames from ESP-NOW.
    EspNowRx,
    /// Takes frames from USB, for interface `ident` on network `net_id`.
    UsbRx { ident: u8, net_id: u16 },
}

/// Why the bridge cannot start.
#[derive(Clone, Copy, Debug, PartialEq, Eq, Structural)]
pub enum BridgeFailure {
    /// The radio did not come up.
    WifiInit,
    /// The USB interface could not be registered.
    UsbRegistration,
    /// The radio link could not be put on the root's network.
    UpstreamActivation,
}

impl BridgeFailure {
    /// What the bridge says as it gives up.
    pub fn message(&self) -> (message: &'static str)
        ensures
            message@ == match *self {
                BridgeFailure::WifiInit => "WiFi init failed"@,
                BridgeFailure::UsbRegistration => "USB interface registration failed"@,
                BridgeFailure::UpstreamActivation => "failed to activate upstream"@,
            },
    {
        match self {
            BridgeFailure::WifiInit => "WiFi init failed",
            BridgeFailure::UsbRegistration => "USB interface registration failed",
            BridgeFailure::UpstreamActivation => "failed to activate upstream",
        }
    }
}

/// How far the bridge has come: what it is waiting for.
#[derive(Clone, Copy, Debug, PartialEq, Eq, Structural)]
pub enum BridgeBoot {
    StartingRadio,
    StartingUsb,
    CreatingRouter,
    RegisteringUsb,
    ActivatingUpstream { usb_ident: u8 },
    Spawning { usb_ident: u8, task: BridgeTask },
    AssigningSeed { usb_ident: u8 },
    SpawningRefresh { usb_ident: u8 },
    QueryingNetId { usb_ident: u8 },
    Serving,
    Failed,
}

/// What the outside reports to the starting bridge.
#[derive(Clone, Copy, Debug, PartialEq, Eq, Structural)]
pub enum BridgeEvent {
    /// The radio is up, or failed to come up.
    RadioStarted { ok: bool },
    /// The USB device is set up.
    UsbStarted,
    /// The router stands.
    RouterCreated,
    /// The USB interface got this identifier, or none.
    UsbRegistered(Option<u8>),
    /// The state of the radio link is set, or could not be set.
    UpstreamActivated { ok: bool },
    /// The task is running.
    Spawned,
    /// The seed router's answer: a lease, or none.
    SeedAssigned(Option<SeedLease>),
    /// The network id of the USB interface, if it has one.
    NetId(Option<u16>),
}

/// What the starting bridge asks of the outside.
#[derive(Clone, Copy, Debug, PartialEq, Eq, Structural)]
pub enum BridgeAction {
    /// Bring up the radio.
    StartRadio,
    /// Set up the USB device, with the fields that `usb::usb_config` gives it.
    StartUsb,
    /// Make the router, its upstream link the radio with frames of this size.
    CreateRouter { upstream_mtu: u16 },
    /// Register the USB interface, with frames of this size and no network id yet.
    RegisterUsb { mtu: u16 },
    /// Give the radio link this state.
    ActivateUpstream { state: InterfaceState },
    /// Start a task.
    Spawn(BridgeTask),
    /// Ask the root, over the radio link, for a network id for the USB interface.
    AssignSeed { usb_ident: u8 },
    /// Start the task that renews this lease.
    SpawnRefresh(SeedLease),
    /// Look up the network id of the USB interface.
    QueryNetId { usb_ident: u8 },
    /// Answer pings and questions from now on, as `device_info::bridge_info` says;
    /// the USB link has this network id, 0 where it has none.
    Serve { usb_net_id: u16 },
    /// Give up.
    Fail(BridgeFailure),
}

/// The task that takes frames from USB.
pub open spec fn usb_rx(usb_ident: u8) -> BridgeTask {
    BridgeTask::UsbRx { ident: usb_ident, net_id: LINK_LOCAL_NET_ID }
}

/// The task to start after `task`.
pub open spec fn task_after(task: BridgeTask, usb_ident: u8) -> Option<BridgeTask> {
    match task {
        BridgeTask::Usb => Some(BridgeTask::UsbTx),
        BridgeTask::UsbTx => Some(BridgeTask::EspNowTx),
        BridgeTask::EspNowTx => Some(BridgeTask::EspNowRx),
        BridgeTask::EspNowRx => Some(usb_rx(usb_ident)),
        BridgeTask::UsbRx { .. } => None,
    }
}

/// The bridge's state and request after `event`, or `None` where `event` does not
/// answer what the bridge is waiting for.
pub open spec fn next(state: BridgeBoot, event: BridgeEvent) -> Option<(BridgeBoot, BridgeAction)> {
    match (state, event) {
        (BridgeBoot::StartingRadio, BridgeEvent::RadioStarted { ok }) => Some(
            if ok {
                (BridgeBoot::StartingUsb, BridgeAction::StartUsb)
            } else {
                (BridgeBoot::Failed, BridgeAction::Fail(BridgeFailure::WifiInit))
            },
        ),
        (BridgeBoot::StartingUsb, BridgeEvent::UsbStarted) => Some(
            (
                BridgeBoot::CreatingRouter,
                BridgeAction::CreateRouter { upstream_mtu: ESP_NOW_MTU },
            ),
        ),
        (BridgeBoot::CreatingRouter, BridgeEvent::RouterCreated) => Some(
            (BridgeBoot::RegisteringUsb, BridgeAction::RegisterUsb { mtu: USB_MTU }),
        ),
        (BridgeBoot::RegisteringUsb, BridgeEvent::UsbRegistered(ident)) => Some(
            match ident {
                Some(usb_ident) => (
                    BridgeBoot::ActivatingUpstream { usb_ident },
                    activation_request(),
                ),
                None => (
                    BridgeBoot::Failed,
                    BridgeAction::Fail(BridgeFailure::UsbRegistration),
                ),
            },
        ),
        (
            BridgeBoot::ActivatingUpstream { usb_ident },
            BridgeEvent::UpstreamActivated { ok },
        ) => Some(
            if ok {
                (
                    BridgeBoot::Spawning { usb_ident, task: BridgeTask::Usb },
                    BridgeAction::Spawn(BridgeTask::Usb),
                )
            } else {
                (BridgeBoot::Failed, BridgeAction::Fail(BridgeFailure::UpstreamActivation))
            },
        ),
        (BridgeBoot::Spawning { usb_ident, task }, BridgeEvent::Spawned) => Some(
            match task_after(task, usb_ident) {
                Some(task) => (
                    BridgeBoot::Spawning { usb_ident, task },
                    BridgeAction::Spawn(task),
                ),
                None => (
                    BridgeBoot::AssigningSeed { usb_ident },
                    BridgeAction::AssignSeed { usb_ident },
                ),
            },
        ),
        (BridgeBoot::AssigningSeed { usb_ident }, BridgeEvent::SeedAssigned(answer)) => Some(
            match answer {
                Some(lease) => (
                    BridgeBoot::SpawningRefresh { usb_ident },
                    BridgeAction::SpawnRefresh(lease),
                ),
                None => (
                    BridgeBoot::QueryingNetId { usb_ident },
                    BridgeAction::QueryNetId { usb_ident },
                ),
            },
        ),
        (BridgeBoot::SpawningRefresh { usb_ident }, BridgeEvent::Spawned) => Some(
            (BridgeBoot::QueryingNetId { usb_ident }, BridgeAction::QueryNetId { usb_ident }),
        ),
        (BridgeBoot::QueryingNetId { .. }, BridgeEvent::NetId(net_id)) => Some(
            (BridgeBoot::Serving, BridgeAction::Serve { usb_net_id: net_id.unwrap_or(0) }),
        ),
        _ => None,
    }
}

/// The request to put the radio link on the root's network.
pub open spec fn activation_request() -> BridgeAction {
    BridgeAction::ActivateUpstream {
        state: InterfaceState::Active { net_id: ROOT_NET_ID, node_id: 2 },
    }
}

impl BridgeBoot {
    /// Starts the bridge; the first request is to bring up the radio.
    pub fn start() -> (started: (BridgeBoot, BridgeAction))
        ensures
            started.0 == BridgeBoot::StartingRadio,
            started.1 == BridgeAction::StartRadio,
    {
        (BridgeBoot::StartingRadio, BridgeAction::StartRadio)
    }

    /// Takes `event` and gives the next request. An event that does not answer
    /// the last request is refused and leaves the bridge as it was.
    pub fn step(&mut self, event: BridgeEvent) -> (action: Option<BridgeAction>)
        ensures
            match next(*old(self), event) {
                Some((state, request)) => *final(self) == state && action == Some(request),
                None => *final(self) == *old(self) && action is None,
            },
    {
        let (state, request): (BridgeBoot, BridgeAction) = match (*self, event) {
            (BridgeBoot::StartingRadio, BridgeEvent::RadioStarted { ok }) => if ok {
                (BridgeBoot::StartingUsb, BridgeAction::StartUsb)
            } else {
                (BridgeBoot::Failed, BridgeAction::Fail(BridgeFailure::WifiInit))
            },
            (BridgeBoot::StartingUsb, BridgeEvent::UsbStarted) => (
                BridgeBoot::CreatingRouter,
                BridgeAction::CreateRouter { upstream_mtu: ESP_NOW_MTU },
            ),
            (BridgeBoot::CreatingRouter, BridgeEvent::RouterCreated) => (
                BridgeBoot::RegisteringUsb,
                BridgeAction::RegisterUsb { mtu: USB_MTU },
            ),
            (BridgeBoot::RegisteringUsb, BridgeEvent::UsbRegistered(Some(usb_ident))) => (
                BridgeBoot::ActivatingUpstream { usb_ident },
                BridgeAction::ActivateUpstream { state: upstream_activation() },
            ),
            (BridgeBoot::RegisteringUsb, BridgeEvent::UsbRegistered(None)) => (
                BridgeBoot::Failed,
                BridgeAction::Fail(BridgeFailure::UsbRegistration),
            ),
            (
                BridgeBoot::ActivatingUpstream { usb_ident },
                BridgeEvent::UpstreamActivated { ok },
            ) => if ok {
                let task = BridgeTask::Usb;
                (BridgeBoot::Spawning { usb_ident, task }, BridgeAction::Spawn(task))
            } else {
                (BridgeBoot::Failed, BridgeAction::Fail(BridgeFailure::UpstreamActivation))
            },
            (BridgeBoot::Spawning { usb_ident, task }, BridgeEvent::Spawned) => match Self::following_task(
                task,
                usb_ident,
            ) {
                Some(task) => (
                    BridgeBoot::Spawning { usb_ident, task },
                    BridgeAction::Spawn(task),
                ),
                None => (
                    BridgeBoot::AssigningSeed { usb_ident },
                    BridgeAction::AssignSeed { usb_ident },
                ),
            },
            (BridgeBoot::AssigningSeed { usb_ident }, BridgeEvent::SeedAssigned(Some(lease))) => (
                BridgeBoot::SpawningRefresh { usb_ident },
                BridgeAction::SpawnRefresh(lease),
            ),
            (BridgeBoot::AssigningSeed { usb_ident }, BridgeEvent::SeedAssigned(None)) => (
                BridgeBoot::QueryingNetId { usb_ident },
                BridgeAction::QueryNetId { usb_ident },
            ),
            (BridgeBoot::SpawningRefresh { usb_ident }, BridgeEvent::Spawned) => (
                BridgeBoot::QueryingNetId { usb_ident },
                BridgeAction::QueryNetId { usb_ident },
            ),
            (BridgeBoot::QueryingNetId { .. }, BridgeEvent::NetId(net_id)) => (
                BridgeBoot::Serving,
                BridgeAction::Serve { usb_net_id: net_id.unwrap_or(0) },
            ),
            _ => {
                return None;
            },
        };
        *self = state;
        Some(request)
    }

    /// The task to start after `task`.
    fn following_task(task: BridgeTask, usb_ident: u8) -> (following: Option<BridgeTask>)
        ensures
            following == task_after(task, usb_ident),
    {
        match task {
            BridgeTask::Usb => Some(BridgeTask::UsbTx),
            BridgeTask::UsbTx => Some(BridgeTask::EspNowTx),
            BridgeTask::EspNowTx => Some(BridgeTask::EspNowRx),
            BridgeTask::EspNowRx => Some(
                BridgeTask::UsbRx { ident: usb_ident, net_id: LINK_LOCAL_NET_ID },
            ),
            BridgeTask::UsbRx { .. } => None,
        }
    }
}

/// The starting bridge as a machine.
pub open spec fn machine() -> spec_fn(BridgeBoot, BridgeEvent) -> Option<
    (BridgeBoot, BridgeAction),
> {
    |state: BridgeBoot, event: BridgeEvent| next(state, event)
}

/// The bridge and its requests after `events`, or `None` where one of them was
/// refused.
pub open spec fn run(events: Seq<BridgeEvent>) -> Option<Run<BridgeBoot, BridgeAction>> {
    trace::run(
        machine(),
        trace::started(BridgeBoot::StartingRadio, BridgeAction::StartRadio),
        events,
    )
}

/// All requests up to and with the one for a seed network id, in order.
pub open spec fn setup(usb_ident: u8) -> Seq<BridgeAction> {
    seq![
        BridgeAction::StartRadio,
        BridgeAction::StartUsb,
        BridgeAction::CreateRouter { upstream_mtu: ESP_NOW_MTU },
        BridgeAction::RegisterUsb { mtu: USB_MTU },
        activation_request(),
        BridgeAction::Spawn(BridgeTask::Usb),
        BridgeAction::Spawn(BridgeTask::UsbTx),
        BridgeAction::Spawn(BridgeTask::EspNowTx),
        BridgeAction::Spawn(BridgeTask::EspNowRx),
        BridgeAction::Spawn(usb_rx(usb_ident)),
        BridgeAction::AssignSeed { usb_ident },
    ]
}

/// How many requests of the setup a bridge in `state` has made, if it is still
/// there.
spec fn setup_done(state: BridgeBoot) -> Option<int> {
    match state {
        BridgeBoot::StartingRadio => Some(1),
        BridgeBoot::StartingUsb => Some(2),
        BridgeBoot::CreatingRouter => Some(3),
        BridgeBoot::RegisteringUsb => Some(4),
        BridgeBoot::ActivatingUpstream { .. } => Some(5),
        BridgeBoot::Spawning { usb_ident, task } => match task {
            BridgeTask::Usb => Some(6),
            BridgeTask::UsbTx => Some(7),
            BridgeTask::EspNowTx => Some(8),
            BridgeTask::EspNowRx => Some(9),
            BridgeTask::UsbRx { .. } => Some(10),
        },
        BridgeBoot::AssigningSeed { .. } => Some(11),
        _ => None,
    }
}

/// The identifier of the USB interface, 0 where it is not known yet.
spec fn ident_of(state: BridgeBoot) -> u8 {
    match state {
        BridgeBoot::ActivatingUpstream { usb_ident } => usb_ident,
        BridgeBoot::Spawning { usb_ident, .. } => usb_ident,
        BridgeBoot::AssigningSeed { usb_ident } => usb_ident,
        _ => 0,
    }
}

/// In the setup, a bridge has made the first requests of it and no others.
proof fn setup_so_far(events: Seq<BridgeEvent>)
    requires
        run(events) is Some,
    ensures
        setup_done(run(events)->0.state) matches Some(n) ==> run(events)->0.requests == setup(
            ident_of(run(events)->0.state),
        ).take(n),
        run(events)->0.state matches BridgeBoot::Spawning { usb_ident, task } ==> (
        task is UsbRx ==> task == usb_rx(usb_ident)),
    decreases events.len(),
{
    let reached = run(events)->0;
    if events.len() == 0 {
        assert(reached.requests == setup(0).take(1));
    } else {
        setup_so_far(events.drop_last());
        let before = run(events.drop_last())->0;
        if let Some(n) = setup_done(reached.state) {
            let ident = ident_of(reached.state);
            assert(setup_done(before.state) == Some(n - 1));
            assert(setup(ident_of(before.state)).take(n - 1) =~= setup(ident).take(n - 1));
            assert(setup(ident).take(n - 1).push(setup(ident)[n - 1]) =~= setup(ident).take(n));
            assert(reached.requests == before.requests.push(setup(ident)[n - 1]));
        }
    }
}

/// The bridge asks for a seed network id only when everything that the answer
/// needs is in place: the radio link is on the root's network and every task that
/// moves frames is running, all in this order and nothing else before it.
pub proof fn asks_for_seed_after_setup(events: Seq<BridgeEvent>, k: int)
    requires
        run(events) is Some,
        0 <= k <= events.len(),
        run(events)->0.requests[k] is AssignSeed,
    ensures
        run(events)->0.requests.take(k + 1) == setup(run(events)->0.requests[k]->AssignSeed_usb_ident),
{
    let start = trace::started(BridgeBoot::StartingRadio, BridgeAction::StartRadio);
    let requests = run(events)->0.requests;
    trace::run_of_prefix(machine(), start, events, 0);
    assert(start.requests[0] == requests.take(1)[0]);
    trace::run_at(machine(), start, events, k - 1);
    trace::run_of_prefix(machine(), start, events, k);
    setup_so_far(events.take(k));
    let ident = requests[k]->AssignSeed_usb_ident;
    assert(setup(ident).take(11) =~= setup(ident));
}

/// The task that renews the lease is started exactly where the seed router gave
/// one, right after its answer, and with that lease.
pub proof fn renews_exactly_what_was_granted(events: Seq<BridgeEvent>, k: int, lease: SeedLease)
    requires
        run(events) is Some,
        0 <= k <= events.len(),
    ensures
        run(events)->0.requests[k] == BridgeAction::SpawnRefresh(lease) <==> k > 0 && events[k - 1]
            == BridgeEvent::SeedAssigned(Some(lease)),
{
    let start = trace::started(BridgeBoot::StartingRadio, BridgeAction::StartRadio);
    trace::run_of_prefix(machine(), start, events, 0);
    assert(start.requests[0] == run(events)->0.requests.take(1)[0]);
    if k > 0 {
        trace::run_at(machine(), start, events, k - 1);
    }
}

/// The bridge gives up exactly where the radio does not come up, the USB interface
/// cannot be registered or the radio link cannot be activated.
pub proof fn gives_up_only_on_refusal(events: Seq<BridgeEvent>, k: int)
    requires
        run(events) is Some,
        0 < k <= events.len(),
    ensures
        run(events)->0.requests[k] == BridgeAction::Fail(BridgeFailure::WifiInit) <==> events[k - 1]
            == (BridgeEvent::RadioStarted { ok: false }),
        run(events)->0.requests[k] == BridgeAction::Fail(BridgeFailure::UsbRegistration)
            <==> events[k - 1] == BridgeEvent::UsbRegistered(None),
        run(events)->0.requests[k] == BridgeAction::Fail(BridgeFailure::UpstreamActivation)
            <==> events[k - 1] == (BridgeEvent::UpstreamActivated { ok: false }),
{
    let start = trace::started(BridgeBoot::StartingRadio, BridgeAction::StartRadio);
    trace::run_at(machine(), start, events, k - 1);
}

/// A bridge that has given up, or serves, takes no more events.
pub proof fn ends_there(state: BridgeBoot, event: BridgeEvent)
    requires
        state is Failed || state is Serving,
    ensures
        next(state, event) is None,
{
}

/// The answers of an outside in which nothing fails but perhaps the seed router.
pub open spec fn answers(
    usb_ident: u8,
    lease: Option<SeedLease>,
    net_id: Option<u16>,
) -> Seq<BridgeEvent> {
    let up_to_seed = seq![
        BridgeEvent::RadioStarted { ok: true },
        BridgeEvent::UsbStarted,
        BridgeEvent::RouterCreated,
        BridgeEvent::UsbRegistered(Some(usb_ident)),
        BridgeEvent::UpstreamActivated { ok: true },
        BridgeEvent::Spawned,
        BridgeEvent::Spawned,
        BridgeEvent::Spawned,
        BridgeEvent::Spawned,
        BridgeEvent::Spawned,
        BridgeEvent::SeedAssigned(lease),
    ];
    if lease is Some {
        up_to_seed.push(BridgeEvent::Spawned).push(BridgeEvent::NetId(net_id))
    } else {
        up_to_seed.push(BridgeEvent::NetId(net_id))
    }
}

/// The bridge ends up serving whatever the seed router answered: the renewal task
/// runs where there is a lease, and the network id that it serves with is the one
/// the USB link has, or 0.
pub proof fn serves_with_or_without_seed(
    usb_ident: u8,
    lease: Option<SeedLease>,
    net_id: Option<u16>,
)
    ensures
        run(answers(usb_ident, lease, net_id)) == Some(
            Run {
                state: BridgeBoot::Serving,
                requests: (if lease is Some {
                    setup(usb_ident).push(BridgeAction::SpawnRefresh(lease->0))
                } else {
                    setup(usb_ident)
                }).push(BridgeAction::QueryNetId { usb_ident }).push(
                    BridgeAction::Serve { usb_net_id: net_id.unwrap_or(0) },
                ),
            },
        ),
{
    let start = trace::started(BridgeBoot::StartingRadio, BridgeAction::StartRadio);
    let spawning = |task: BridgeTask| BridgeBoot::Spawning { usb_ident, task };
    let to_seed = seq![
        BridgeBoot::StartingRadio,
        BridgeBoot::StartingUsb,
        BridgeBoot::CreatingRouter,
        BridgeBoot::RegisteringUsb,
        BridgeBoot::ActivatingUpstream { usb_ident },
        spawning(BridgeTask::Usb),
        spawning(BridgeTask::UsbTx),
        spawning(BridgeTask::EspNowTx),
        spawning(BridgeTask::EspNowRx),
        spawning(usb_rx(usb_ident)),
        BridgeBoot::AssigningSeed { usb_ident },
    ];
    let to_query = if lease is Some {
        to_seed.push(BridgeBoot::SpawningRefresh { usb_ident })
    } else {
        to_seed
    };
    let states = to_query.push(BridgeBoot::QueryingNetId { usb_ident }).push(BridgeBoot::Serving);
    let requests = (if lease is Some {
        setup(usb_ident).push(BridgeAction::SpawnRefresh(lease->0))
    } else {
        setup(usb_ident)
    }).push(BridgeAction::QueryNetId { usb_ident }).push(
        BridgeAction::Serve { usb_net_id: net_id.unwrap_or(0) },
    );
    trace::run_along(
        machine(),
        start,
        answers(usb_ident, lease, net_id),
        states,
        requests.drop_first(),
    );
    assert(start.requests + requests.drop_first() =~= requests);
}

/// The identifier that the USB interface got, which is what the fourth answer to a
/// bridge brings where it is not a refusal.
pub open spec fn registered_ident(events: Seq<BridgeEvent>) -> u8 {
    events[3]->UsbRegistered_0->0
}

/// The bridge waits on what it asked for last, the first thing it asks for is its
/// radio, and from its registration on it keeps to the USB interface that it
/// registered.
pub proof fn waits_on_last_request(events: Seq<BridgeEvent>)
    requires
        run(events) is Some,
    ensures
        run(events)->0.requests.len() == events.len() + 1,
        run(events)->0.requests[0] == BridgeAction::StartRadio,
        ({
            let usb_ident = registered_ident(events);
            run(events)->0.state == match run(events)->0.requests.last() {
                BridgeAction::StartRadio => BridgeBoot::StartingRadio,
                BridgeAction::StartUsb => BridgeBoot::StartingUsb,
                BridgeAction::CreateRouter { .. } => BridgeBoot::CreatingRouter,
                BridgeAction::RegisterUsb { .. } => BridgeBoot::RegisteringUsb,
                BridgeAction::ActivateUpstream { .. } => BridgeBoot::ActivatingUpstream {
                    usb_ident,
                },
                BridgeAction::Spawn(task) => BridgeBoot::Spawning { usb_ident, task },
                BridgeAction::AssignSeed { .. } => BridgeBoot::AssigningSeed { usb_ident },
                BridgeAction::SpawnRefresh(_) => BridgeBoot::SpawningRefresh { usb_ident },
                BridgeAction::QueryNetId { .. } => BridgeBoot::QueryingNetId { usb_ident },
                BridgeAction::Serve { .. } => BridgeBoot::Serving,
                BridgeAction::Fail(_) => BridgeBoot::Failed,
            }
        }),
{
    let start = trace::started(BridgeBoot::StartingRadio, BridgeAction::StartRadio);
    trace::last_request_at(machine(), start, events, 0);
    keeps_its_usb_interface(events);
}

/// How many answers a bridge in `state` has had, and that the fourth of them gave
/// the USB interface the identifier in `state`.
proof fn keeps_its_usb_interface(events: Seq<BridgeEvent>)
    requires
        run(events) is Some,
    ensures
        ({
            let named = |usb_ident: u8|
                events.len() > 3 && events[3] == BridgeEvent::UsbRegistered(Some(usb_ident));
            match run(events)->0.state {
                BridgeBoot::StartingRadio => events.len() == 0,
                BridgeBoot::StartingUsb => events.len() == 1,
                BridgeBoot::CreatingRouter => events.len() == 2,
                BridgeBoot::RegisteringUsb => events.len() == 3,
                BridgeBoot::ActivatingUpstream { usb_ident } => named(usb_ident),
                BridgeBoot::Spawning { usb_ident, .. } => named(usb_ident),
                BridgeBoot::AssigningSeed { usb_ident } => named(usb_ident),
                BridgeBoot::SpawningRefresh { usb_ident } => named(usb_ident),
                BridgeBoot::QueryingNetId { usb_ident } => named(usb_ident),
                BridgeBoot::Serving => true,
                BridgeBoot::Failed => true,
            }
        }),
    decreases events.len(),
{
    if events.len() > 0 {
        keeps_its_usb_interface(events.drop_last());
    }
}

/// After every run the bridge takes every answer to its last request, good or bad,
/// and nothing else; one that serves or has given up takes none.
pub proof fn takes_every_answer(events: Seq<BridgeEvent>, event: BridgeEvent)
    requires
        run(events) is Some,
    ensures
        run(events.push(event)) is Some <==> match run(events)->0.requests.last() {
            BridgeAction::StartRadio => event is RadioStarted,
            BridgeAction::StartUsb => event is UsbStarted,
            BridgeAction::CreateRouter { .. } => event is RouterCreated,
            BridgeAction::RegisterUsb { .. } => event is UsbRegistered,
            BridgeAction::ActivateUpstream { .. } => event is UpstreamActivated,
            BridgeAction::Spawn(_) => event is Spawned,
            BridgeAction::AssignSeed { .. } => event is SeedAssigned,
            BridgeAction::SpawnRefresh(_) => event is Spawned,
            BridgeAction::QueryNetId { .. } => event is NetId,
            BridgeAction::Serve { .. } => false,
            BridgeAction::Fail(_) => false,
        },
{
    let start = trace::started(BridgeBoot::StartingRadio, BridgeAction::StartRadio);
    waits_on_last_request(events);
    trace::run_of_push(machine(), start, events, event);
}

/// What each good answer up to the tasks leads to, in every run: after the radio
/// comes USB, after USB a router whose upstream frames have 250 bytes, after the
/// router a USB interface with frames of 2048 bytes, and once that is registered,
/// whatever its identifier, the radio link becomes node 2 of network 1.
pub proof fn sets_up_both_links(events: Seq<BridgeEvent>, k: int)
    requires
        run(events) is Some,
        0 <= k < events.len(),
    ensures
        events[k] == (BridgeEvent::RadioStarted { ok: true }) ==> run(events)->0.requests[k + 1]
            == BridgeAction::StartUsb,
        events[k] is UsbStarted ==> run(events)->0.requests[k + 1] == (BridgeAction::CreateRouter {
            upstream_mtu: 250,
        }),
        events[k] is RouterCreated ==> run(events)->0.requests[k + 1] == (
        BridgeAction::RegisterUsb { mtu: 2048 }),
        events[k] matches BridgeEvent::UsbRegistered(Some(_)) ==> run(events)->0.requests[k + 1]
            == (BridgeAction::ActivateUpstream {
            state: InterfaceState::Active { net_id: 1, node_id: 2 },
        }),
{
    let start = trace::started(BridgeBoot::StartingRadio, BridgeAction::StartRadio);
    trace::run_at(machine(), start, events, k);
}

/// The tasks start one after the other once the radio link is up, the receiver of
/// USB frames last, for the USB interface that was registered and the network id 0;
/// then that interface gets its network id asked for.
pub proof fn starts_every_task(events: Seq<BridgeEvent>, k: int)
    requires
        run(events) is Some,
        0 <= k < events.len(),
    ensures
        events[k] == (BridgeEvent::UpstreamActivated { ok: true }) ==> run(
            events,
        )->0.requests[k + 1] == BridgeAction::Spawn(BridgeTask::Usb),
        events[k] is Spawned ==> match run(events)->0.requests[k] {
            BridgeAction::Spawn(BridgeTask::Usb) => run(events)->0.requests[k + 1]
                == BridgeAction::Spawn(BridgeTask::UsbTx),
            BridgeAction::Spawn(BridgeTask::UsbTx) => run(events)->0.requests[k + 1]
                == BridgeAction::Spawn(BridgeTask::EspNowTx),
            BridgeAction::Spawn(BridgeTask::EspNowTx) => run(events)->0.requests[k + 1]
                == BridgeAction::Spawn(BridgeTask::EspNowRx),
            BridgeAction::Spawn(BridgeTask::EspNowRx) => run(events)->0.requests[k + 1]
                == BridgeAction::Spawn(
                BridgeTask::UsbRx { ident: registered_ident(events), net_id: 0 },
            ),
            BridgeAction::Spawn(BridgeTask::UsbRx { .. }) => run(events)->0.requests[k + 1] == (
            BridgeAction::AssignSeed { usb_ident: registered_ident(events) }),
            BridgeAction::SpawnRefresh(_) => run(events)->0.requests[k + 1] == (
            BridgeAction::QueryNetId { usb_ident: registered_ident(events) }),
            _ => false,
        },
{
    let start = trace::started(BridgeBoot::StartingRadio, BridgeAction::StartRadio);
    trace::run_at(machine(), start, events, k);
    trace::last_request_at(machine(), start, events, k);
    waits_on_last_request(events.take(k));
    keeps_its_usb_interface(events.take(k));
}

/// The seed router's answer decides only whether the lease is renewed: with any
/// lease its renewal starts, without one the bridge goes straight on to the network
/// id of the registered USB interface, and in the end it serves with the one that
/// was found, or with 0.
pub proof fn serves_with_what_it_got(events: Seq<BridgeEvent>, k: int)
    requires
        run(events) is Some,
        0 <= k < events.len(),
    ensures
        events[k] matches BridgeEvent::SeedAssigned(Some(lease)) ==> run(
            events,
        )->0.requests[k + 1] == BridgeAction::SpawnRefresh(lease),
        events[k] == BridgeEvent::SeedAssigned(None) ==> run(events)->0.requests[k + 1] == (
        BridgeAction::QueryNetId { usb_ident: registered_ident(events) }),
        events[k] matches BridgeEvent::NetId(Some(net_id)) ==> run(events)->0.requests[k + 1] == (
        BridgeAction::Serve { usb_net_id: net_id }),
        events[k] == BridgeEvent::NetId(None) ==> run(events)->0.requests[k + 1] == (
        BridgeAction::Serve { usb_net_id: 0 }),
{
    let start = trace::started(BridgeBoot::StartingRadio, BridgeAction::StartRadio);
    trace::run_at(machine(), start, events, k);
    keeps_its_usb_interface(events.take(k));
}

} // verus!
