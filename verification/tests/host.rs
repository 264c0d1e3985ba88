use esp_now_bridge::host::{
    product_label, HostAction, HostEvent, HostFailure, HostSession, PingOutcome,
};
use esp_now_bridge::interface::{Address, InterfaceState};

fn address(network_id: u16) -> Address {
    Address { network_id, node_id: 1, port_id: 9 }
}

fn ping(network_id: u16, attempt: u8) -> Option<HostAction> {
    Some(HostAction::Ping { address: address(network_id), payload: 42, attempt, seconds: 3 })
}

fn connected() -> HostSession {
    let (mut session, first) = HostSession::start();
    assert_eq!(first, HostAction::Search);
    assert_eq!(
        session.step(HostEvent::Found { count: 2 }),
        Some(HostAction::Register {
            device: 0,
            mtu: 2048,
            state: InterfaceState::Active { net_id: 0, node_id: 2 },
        })
    );
    assert_eq!(
        session.step(HostEvent::Registered { ok: true }),
        Some(HostAction::Discover { bound: 10, seconds: 3 })
    );
    session
}

#[test]
fn pings_every_device_once_where_all_reply() {
    let mut session = connected();
    let devices = vec![address(1), address(2), address(3)];
    assert_eq!(session.step(HostEvent::Discovered(devices)), ping(1, 1));
    assert_eq!(session.step(HostEvent::Pinged(PingOutcome::Reply(42))), ping(2, 1));
    assert_eq!(session.step(HostEvent::Pinged(PingOutcome::Reply(0))), ping(3, 1));
    assert_eq!(
        session.step(HostEvent::Pinged(PingOutcome::Reply(42))),
        Some(HostAction::Sleep { seconds: 60 })
    );
}

#[test]
fn pings_silent_devices_three_times() {
    let mut session = connected();
    assert_eq!(session.step(HostEvent::Discovered(vec![address(1), address(2)])), ping(1, 1));
    assert_eq!(session.step(HostEvent::Pinged(PingOutcome::Timeout)), ping(1, 2));
    assert_eq!(session.step(HostEvent::Pinged(PingOutcome::Error)), ping(1, 3));
    assert_eq!(session.step(HostEvent::Pinged(PingOutcome::Timeout)), ping(2, 1));
    assert_eq!(session.step(HostEvent::Pinged(PingOutcome::Error)), ping(2, 2));
    assert_eq!(
        session.step(HostEvent::Pinged(PingOutcome::Reply(42))),
        Some(HostAction::Sleep { seconds: 60 })
    );
}

#[test]
fn counts_pings_between_one_and_three_per_device() {
    for pattern in 0..64u32 {
        let mut session = connected();
        let mut first = Vec::new();
        let mut pings = 0;
        let mut bits = pattern;
        let mut action =
            session.step(HostEvent::Discovered(vec![address(1), address(2)])).unwrap();
        while let HostAction::Ping { address, attempt, .. } = action {
            pings += 1;
            if attempt == 1 {
                first.push(address);
            }
            let outcome =
                if bits & 1 == 1 { PingOutcome::Reply(42) } else { PingOutcome::Timeout };
            bits >>= 1;
            action = session.step(HostEvent::Pinged(outcome)).unwrap();
        }
        assert_eq!(first, vec![address(1), address(2)]);
        assert!((2..=6).contains(&pings));
    }
}

#[test]
fn rests_at_once_where_nobody_answered() {
    let mut session = connected();
    assert_eq!(
        session.step(HostEvent::Discovered(vec![])),
        Some(HostAction::Sleep { seconds: 60 })
    );
    for _ in 0..5 {
        assert_eq!(session.step(HostEvent::Slept), Some(HostAction::Sleep { seconds: 60 }));
    }
}

#[test]
fn session_ends_without_a_bridge() {
    let (mut session, _) = HostSession::start();
    assert_eq!(
        session.step(HostEvent::Found { count: 0 }),
        Some(HostAction::Fail(HostFailure::NoDevice))
    );
    assert_eq!(session.step(HostEvent::Found { count: 1 }), None);
    assert_eq!(
        HostFailure::NoDevice.message("ignored"),
        "No ergot USB device found. Is the bridge plugged in?"
    );
}

#[test]
fn session_ends_where_the_bridge_cannot_be_connected() {
    let (mut session, _) = HostSession::start();
    session.step(HostEvent::Found { count: 1 });
    assert_eq!(
        session.step(HostEvent::Registered { ok: false }),
        Some(HostAction::Fail(HostFailure::Registration))
    );
    assert_eq!(
        HostFailure::Registration.message("AlreadyActive"),
        "USB registration failed: AlreadyActive"
    );
}

#[test]
fn session_refuses_events_out_of_turn() {
    let (mut session, _) = HostSession::start();
    assert_eq!(session.step(HostEvent::Slept), None);
    assert_eq!(session.step(HostEvent::Discovered(vec![address(1)])), None);
    assert_eq!(session.step(HostEvent::Pinged(PingOutcome::Timeout)), None);
    assert!(session.step(HostEvent::Found { count: 1 }).is_some());
}

#[test]
fn product_name_may_be_missing() {
    assert_eq!(product_label(&Some("ESP-NOW Bridge".to_string())), "ESP-NOW Bridge");
    assert_eq!(product_label(&None), "unknown");
}
