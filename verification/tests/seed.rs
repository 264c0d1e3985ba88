use esp_now_bridge::seed::{
    refresh_delay_seconds, SeedAction, SeedEvent, SeedLease, SeedPhase, SeedRefresher,
};

fn lease(expires_seconds: u16, min_refresh_seconds: u16) -> SeedLease {
    SeedLease { net_id: 7, expires_seconds, min_refresh_seconds, handle: 0 }
}

#[test]
fn delay_is_the_middle_of_the_window() {
    assert_eq!(refresh_delay_seconds(&lease(120, 60)), 90);
    assert_eq!(refresh_delay_seconds(&lease(30, 62)), 15);
    assert_eq!(refresh_delay_seconds(&lease(100, 0)), 100);
    assert_eq!(refresh_delay_seconds(&lease(100, 61)), 70);
}

#[test]
fn delay_has_a_floor() {
    assert_eq!(refresh_delay_seconds(&lease(0, 0)), 5);
    assert_eq!(refresh_delay_seconds(&lease(10, 20)), 5);
    assert_eq!(refresh_delay_seconds(&lease(4, 0)), 5);
    assert_eq!(refresh_delay_seconds(&lease(6, 0)), 6);
    assert_eq!(refresh_delay_seconds(&lease(0, u16::MAX)), 5);
    assert_eq!(refresh_delay_seconds(&lease(u16::MAX, 0)), 65535);
}

#[test]
fn window_is_no_longer_than_the_lease() {
    assert_eq!(refresh_delay_seconds(&lease(30, 30)), 15);
    assert_eq!(refresh_delay_seconds(&lease(31, 31)), 16);
    assert_eq!(refresh_delay_seconds(&lease(30, u16::MAX)), 15);
    assert_eq!(refresh_delay_seconds(&lease(u16::MAX, u16::MAX)), 32768);
    for expires in 0..200u16 {
        for min_refresh in 0..200u16 {
            let delay = refresh_delay_seconds(&lease(expires, min_refresh));
            assert!(2 * delay >= expires as u64);
        }
    }
}

#[test]
fn renewal_falls_into_the_window_and_before_expiry() {
    let l = lease(120, 60);
    let delay = refresh_delay_seconds(&l);
    assert!(120 - delay < 60);
    assert!(2 * delay >= 120);
    assert!(delay < 120);
    assert!(refresh_delay_seconds(&lease(5, 4)) >= 5);
    assert!(refresh_delay_seconds(&lease(50, 1)) >= 50);
}

#[test]
fn starts_with_the_pause_of_its_lease() {
    let (task, action) = SeedRefresher::start(lease(120, 60));
    assert_eq!(task, SeedRefresher { lease: lease(120, 60), phase: SeedPhase::Waiting });
    assert_eq!(action, SeedAction::Sleep { ticks: 90_000_000 });
}

#[test]
fn renewed_lease_replaces_the_old_one() {
    let (mut task, _) = SeedRefresher::start(lease(120, 60));
    assert_eq!(task.step(SeedEvent::Elapsed), Some(SeedAction::Refresh { lease: lease(120, 60) }));
    let renewed = SeedLease { net_id: 7, expires_seconds: 40, min_refresh_seconds: 20, handle: 1 };
    assert_eq!(
        task.step(SeedEvent::Refreshed(renewed)),
        Some(SeedAction::Sleep { ticks: 30_000_000 })
    );
    assert_eq!(task.lease, renewed);
    assert_eq!(task.step(SeedEvent::Elapsed), Some(SeedAction::Refresh { lease: renewed }));
}

#[test]
fn failed_renewal_pauses_twice_and_presents_the_same_lease() {
    let held = lease(120, 60);
    let (mut task, _) = SeedRefresher::start(held);
    task.step(SeedEvent::Elapsed);
    assert_eq!(task.step(SeedEvent::Failed), Some(SeedAction::Sleep { ticks: 5_000_000 }));
    assert_eq!(task.step(SeedEvent::Elapsed), Some(SeedAction::Sleep { ticks: 90_000_000 }));
    assert_eq!(task.step(SeedEvent::Elapsed), Some(SeedAction::Refresh { lease: held }));
}

#[test]
fn presents_the_lease_of_the_last_handle() {
    let (mut task, mut action) = SeedRefresher::start(lease(120, 60));
    let mut presented = Vec::new();
    let mut granted = 0;
    while presented.len() < 5 {
        let event = match action {
            SeedAction::Sleep { .. } => SeedEvent::Elapsed,
            SeedAction::Refresh { lease } => {
                presented.push(lease.handle);
                if presented.len() == 2 {
                    SeedEvent::Failed
                } else {
                    granted += 1;
                    SeedEvent::Refreshed(SeedLease { handle: granted, ..lease })
                }
            }
        };
        action = task.step(event).unwrap();
    }
    assert_eq!(presented, vec![0, 1, 1, 2, 3]);
    assert_eq!(task.lease.handle, 4);
}

#[test]
fn renewal_task_never_stops() {
    let (mut task, mut action) = SeedRefresher::start(lease(20, 10));
    for round in 0..100 {
        let event = match action {
            SeedAction::Sleep { .. } => SeedEvent::Elapsed,
            SeedAction::Refresh { lease } => {
                if round % 3 == 0 {
                    SeedEvent::Failed
                } else {
                    SeedEvent::Refreshed(lease)
                }
            }
        };
        action = task.step(event).unwrap();
    }
    assert_eq!(task.lease, lease(20, 10));
}

#[test]
fn renewal_task_refuses_events_out_of_turn() {
    let (mut task, _) = SeedRefresher::start(lease(120, 60));
    let before = task;
    assert_eq!(task.step(SeedEvent::Failed), None);
    assert_eq!(task.step(SeedEvent::Refreshed(lease(1, 1))), None);
    assert_eq!(task, before);
    task.step(SeedEvent::Elapsed);
    let before = task;
    assert_eq!(task.step(SeedEvent::Elapsed), None);
    assert_eq!(task, before);
}
