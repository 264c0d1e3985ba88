use esp_now_bridge::frame::{preview, BROADCAST_ADDRESS};
use esp_now_bridge::interface::{
    link_local_activation, upstream_activation, upstream_net_id, InterfaceState,
};
use esp_now_bridge::rx::{RxAction, RxEvent, RxPhase, RxWorker};
use esp_now_bridge::tx::{TxAction, TxEvent, TxWorker};

#[test]
fn preview_shows_short_frames_whole() {
    assert_eq!(preview(&[]), &[] as &[u8]);
    assert_eq!(preview(&[1, 2, 3]), &[1, 2, 3]);
    let exact: Vec<u8> = (0..24).collect();
    assert_eq!(preview(&exact), exact.as_slice());
}

#[test]
fn preview_cuts_long_frames() {
    let long: Vec<u8> = (0..250).collect();
    assert_eq!(preview(&long), &long[..24]);
    assert_eq!(preview(&long[..25]), &long[..24]);
}

#[test]
fn sends_each_frame_to_everyone_and_frees_it() {
    let frames: [&[u8]; 3] = [&[1, 2], &[], &[9; 250]];
    let (mut worker, first) = TxWorker::start();
    assert!(matches!(first, TxAction::WaitRead));
    let mut sent: Vec<Vec<u8>> = Vec::new();
    for frame in frames {
        match worker.step(TxEvent::Frame(frame)) {
            Some(TxAction::Send { destination, frame }) => {
                assert_eq!(destination, [0xff; 6]);
                assert_eq!(destination, BROADCAST_ADDRESS);
                sent.push(frame.to_vec());
            }
            other => panic!("{:?}", other),
        }
        let freed = worker.step(TxEvent::Sent { failed: false });
        assert!(matches!(freed, Some(TxAction::Release { report_failure: false })));
        assert!(matches!(worker.step(TxEvent::Released), Some(TxAction::WaitRead)));
    }
    assert_eq!(sent, vec![vec![1, 2], vec![], vec![9; 250]]);
}

#[test]
fn failed_send_is_reported_and_freed_all_the_same() {
    let (mut worker, _) = TxWorker::start();
    worker.step(TxEvent::Frame(&[5]));
    let freed = worker.step(TxEvent::Sent { failed: true });
    assert!(matches!(freed, Some(TxAction::Release { report_failure: true })));
    assert!(matches!(worker.step(TxEvent::Released), Some(TxAction::WaitRead)));
    assert_eq!(worker, TxWorker::Idle);
}

#[test]
fn sending_worker_refuses_events_out_of_turn() {
    let (mut worker, _) = TxWorker::start();
    assert!(worker.step(TxEvent::Released).is_none());
    assert!(worker.step(TxEvent::Sent { failed: false }).is_none());
    assert_eq!(worker, TxWorker::Idle);
    worker.step(TxEvent::Frame(&[1]));
    assert!(worker.step(TxEvent::Frame(&[2])).is_none());
    assert_eq!(worker, TxWorker::Sending);
}

#[test]
fn hands_each_frame_to_the_stack() {
    let (mut worker, first) = RxWorker::start(3, 1);
    assert!(matches!(first, RxAction::Receive));
    assert_eq!(worker, RxWorker { ident: 3, net_id: 1, phase: RxPhase::Receiving });
    for frame in [&[1u8, 2] as &[u8], &[], &[7; 100]] {
        match worker.step(RxEvent::Frame(frame)) {
            Some(RxAction::Process { ident, frame: handed }) => {
                assert_eq!(ident, 3);
                assert_eq!(handed, frame);
            }
            other => panic!("{:?}", other),
        }
        let after = worker.step(RxEvent::Processed { changed: false });
        assert!(matches!(after, Some(RxAction::Receive)));
    }
    assert_eq!((worker.ident, worker.net_id), (3, 1));
}

#[test]
fn upstream_worker_listens_on_the_net_of_its_link() {
    let (worker, first) = RxWorker::start_upstream(2, Some(upstream_activation()));
    assert!(matches!(first, RxAction::Receive));
    assert_eq!(worker, RxWorker { ident: 2, net_id: 1, phase: RxPhase::Receiving });
    let state = Some(InterfaceState::Active { net_id: 40, node_id: 2 });
    assert_eq!(RxWorker::start_upstream(2, state).0.net_id, 40);
    assert_eq!(RxWorker::start_upstream(2, None).0.net_id, 1);
}

#[test]
fn wakes_waiters_after_a_change_only() {
    let (mut worker, _) = RxWorker::start(0, 1);
    worker.step(RxEvent::Frame(&[1]));
    let after = worker.step(RxEvent::Processed { changed: true });
    assert!(matches!(after, Some(RxAction::WakeAll)));
    assert!(matches!(worker.step(RxEvent::Woken), Some(RxAction::Receive)));
    worker.step(RxEvent::Frame(&[1]));
    let after = worker.step(RxEvent::Processed { changed: false });
    assert!(matches!(after, Some(RxAction::Receive)));
}

#[test]
fn wakes_once_per_change_and_never_stops() {
    let (mut worker, _) = RxWorker::start(0, 1);
    let mut woken = 0;
    for round in 0..30 {
        assert!(matches!(worker.step(RxEvent::Frame(&[1])), Some(RxAction::Process { .. })));
        let changed = round % 3 == 0;
        match worker.step(RxEvent::Processed { changed }) {
            Some(RxAction::WakeAll) => {
                woken += 1;
                assert!(matches!(worker.step(RxEvent::Woken), Some(RxAction::Receive)));
            }
            other => assert!(matches!(other, Some(RxAction::Receive))),
        }
    }
    assert_eq!(woken, 10);
}

#[test]
fn sending_worker_never_stops() {
    let (mut worker, _) = TxWorker::start();
    let mut reported = 0;
    for round in 0..30 {
        assert!(matches!(worker.step(TxEvent::Frame(&[1])), Some(TxAction::Send { .. })));
        match worker.step(TxEvent::Sent { failed: round % 5 == 0 }) {
            Some(TxAction::Release { report_failure }) => reported += report_failure as u32,
            other => panic!("{:?}", other),
        }
        assert!(matches!(worker.step(TxEvent::Released), Some(TxAction::WaitRead)));
    }
    assert_eq!(reported, 6);
}

#[test]
fn receiving_worker_refuses_events_out_of_turn() {
    let (mut worker, _) = RxWorker::start(0, 1);
    let before = worker;
    assert!(worker.step(RxEvent::Woken).is_none());
    assert!(worker.step(RxEvent::Processed { changed: true }).is_none());
    assert_eq!(worker, before);
    worker.step(RxEvent::Frame(&[1]));
    assert!(worker.step(RxEvent::Frame(&[1])).is_none());
}

#[test]
fn links_start_with_their_addresses() {
    assert_eq!(upstream_activation(), InterfaceState::Active { net_id: 1, node_id: 2 });
    assert_eq!(link_local_activation(), InterfaceState::Active { net_id: 0, node_id: 2 });
}

#[test]
fn radio_frames_come_from_the_active_net_or_the_root() {
    assert_eq!(upstream_net_id(Some(InterfaceState::Active { net_id: 9, node_id: 2 })), 9);
    assert_eq!(upstream_net_id(Some(upstream_activation())), 1);
    assert_eq!(upstream_net_id(Some(InterfaceState::ActiveLocal { node_id: 2 })), 1);
    assert_eq!(upstream_net_id(Some(InterfaceState::Inactive)), 1);
    assert_eq!(upstream_net_id(Some(InterfaceState::Down)), 1);
    assert_eq!(upstream_net_id(None), 1);
}
