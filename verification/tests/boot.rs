use esp_now_bridge::bridge::{BridgeAction, BridgeBoot, BridgeEvent, BridgeFailure, BridgeTask};
use esp_now_bridge::device::{DeviceAction, DeviceBoot, DeviceEvent, DeviceFailure};
use esp_now_bridge::interface::InterfaceState;
use esp_now_bridge::seed::SeedLease;

const LEASE: SeedLease =
    SeedLease { net_id: 12, expires_seconds: 120, min_refresh_seconds: 60, handle: 3 };

fn bridge_run(events: &[BridgeEvent]) -> (BridgeBoot, Vec<BridgeAction>) {
    let (mut boot, first) = BridgeBoot::start();
    let mut requests = vec![first];
    for event in events {
        requests.push(boot.step(*event).unwrap());
    }
    (boot, requests)
}

fn bridge_answers(ident: u8) -> Vec<BridgeEvent> {
    let mut events = vec![
        BridgeEvent::RadioStarted { ok: true },
        BridgeEvent::UsbStarted,
        BridgeEvent::RouterCreated,
        BridgeEvent::UsbRegistered(Some(ident)),
        BridgeEvent::UpstreamActivated { ok: true },
    ];
    events.extend([BridgeEvent::Spawned; 5]);
    events
}

fn bridge_setup(ident: u8) -> Vec<BridgeAction> {
    vec![
        BridgeAction::StartRadio,
        BridgeAction::StartUsb,
        BridgeAction::CreateRouter { upstream_mtu: 250 },
        BridgeAction::RegisterUsb { mtu: 2048 },
        BridgeAction::ActivateUpstream {
            state: InterfaceState::Active { net_id: 1, node_id: 2 },
        },
        BridgeAction::Spawn(BridgeTask::Usb),
        BridgeAction::Spawn(BridgeTask::UsbTx),
        BridgeAction::Spawn(BridgeTask::EspNowTx),
        BridgeAction::Spawn(BridgeTask::EspNowRx),
        BridgeAction::Spawn(BridgeTask::UsbRx { ident, net_id: 0 }),
        BridgeAction::AssignSeed { usb_ident: ident },
    ]
}

#[test]
fn bridge_asks_for_a_seed_after_its_setup() {
    let (boot, requests) = bridge_run(&bridge_answers(4));
    assert_eq!(boot, BridgeBoot::AssigningSeed { usb_ident: 4 });
    assert_eq!(requests, bridge_setup(4));
}

#[test]
fn bridge_with_a_lease_renews_and_serves() {
    let mut events = bridge_answers(4);
    events.push(BridgeEvent::SeedAssigned(Some(LEASE)));
    events.push(BridgeEvent::Spawned);
    events.push(BridgeEvent::NetId(Some(12)));
    let (boot, requests) = bridge_run(&events);
    let mut expected = bridge_setup(4);
    expected.push(BridgeAction::SpawnRefresh(LEASE));
    expected.push(BridgeAction::QueryNetId { usb_ident: 4 });
    expected.push(BridgeAction::Serve { usb_net_id: 12 });
    assert_eq!(requests, expected);
    assert_eq!(boot, BridgeBoot::Serving);
}

#[test]
fn bridge_without_a_lease_serves_all_the_same() {
    let mut events = bridge_answers(4);
    events.push(BridgeEvent::SeedAssigned(None));
    events.push(BridgeEvent::NetId(None));
    let (boot, requests) = bridge_run(&events);
    let mut expected = bridge_setup(4);
    expected.push(BridgeAction::QueryNetId { usb_ident: 4 });
    expected.push(BridgeAction::Serve { usb_net_id: 0 });
    assert_eq!(requests, expected);
    assert_eq!(boot, BridgeBoot::Serving);
}

#[test]
fn bridge_gives_up_without_its_radio() {
    let (mut boot, requests) = bridge_run(&[BridgeEvent::RadioStarted { ok: false }]);
    assert_eq!(requests[1], BridgeAction::Fail(BridgeFailure::WifiInit));
    assert_eq!(BridgeFailure::WifiInit.message(), "WiFi init failed");
    assert_eq!(boot.step(BridgeEvent::UsbStarted), None);
    assert_eq!(boot, BridgeBoot::Failed);
}

#[test]
fn bridge_gives_up_without_its_usb_interface() {
    let mut events = bridge_answers(4);
    events.truncate(3);
    events.push(BridgeEvent::UsbRegistered(None));
    let (_, requests) = bridge_run(&events);
    assert_eq!(requests[4], BridgeAction::Fail(BridgeFailure::UsbRegistration));
    assert_eq!(BridgeFailure::UsbRegistration.message(), "USB interface registration failed");
}

#[test]
fn bridge_gives_up_without_its_upstream_link() {
    let mut events = bridge_answers(4);
    events.truncate(4);
    events.push(BridgeEvent::UpstreamActivated { ok: false });
    let (_, requests) = bridge_run(&events);
    assert_eq!(requests[5], BridgeAction::Fail(BridgeFailure::UpstreamActivation));
    assert_eq!(BridgeFailure::UpstreamActivation.message(), "failed to activate upstream");
}

#[test]
fn bridge_refuses_events_out_of_turn() {
    let (mut boot, _) = BridgeBoot::start();
    assert_eq!(boot.step(BridgeEvent::Spawned), None);
    assert_eq!(boot.step(BridgeEvent::SeedAssigned(Some(LEASE))), None);
    assert_eq!(boot, BridgeBoot::StartingRadio);
}

#[test]
fn root_device_serves_under_its_address() {
    let (mut boot, first) = DeviceBoot::start();
    assert_eq!(first, DeviceAction::StartRadio);
    assert_eq!(
        boot.step(DeviceEvent::RadioStarted { ok: true }),
        Some(DeviceAction::Register { mtu: 250 })
    );
    assert_eq!(
        boot.step(DeviceEvent::Registered(Some(6))),
        Some(DeviceAction::QueryNetId { ident: 6 })
    );
    assert_eq!(
        boot.step(DeviceEvent::NetId(Some(1))),
        Some(DeviceAction::Serve { ident: 6, net_id: 1 })
    );
    assert_eq!(boot.step(DeviceEvent::NetId(Some(1))), None);
}

#[test]
fn root_device_gives_up_without_an_address() {
    let (mut boot, _) = DeviceBoot::start();
    assert_eq!(
        boot.step(DeviceEvent::RadioStarted { ok: false }),
        Some(DeviceAction::Fail(DeviceFailure::WifiInit))
    );
    let (mut boot, _) = DeviceBoot::start();
    boot.step(DeviceEvent::RadioStarted { ok: true });
    assert_eq!(
        boot.step(DeviceEvent::Registered(None)),
        Some(DeviceAction::Fail(DeviceFailure::Registration))
    );
    let (mut boot, _) = DeviceBoot::start();
    boot.step(DeviceEvent::RadioStarted { ok: true });
    boot.step(DeviceEvent::Registered(Some(6)));
    assert_eq!(
        boot.step(DeviceEvent::NetId(None)),
        Some(DeviceAction::Fail(DeviceFailure::NoNetId))
    );
    assert_eq!(boot, DeviceBoot::Failed);
    assert_eq!(DeviceFailure::WifiInit.message(), "WiFi init failed");
    assert_eq!(DeviceFailure::Registration.message(), "register failed");
    assert_eq!(
        DeviceFailure::NoNetId.message(),
        "called `Option::unwrap()` on a `None` value"
    );
}
