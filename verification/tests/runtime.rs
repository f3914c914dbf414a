use rust_virtual_camera::runtime::{
    connection_check_due, set_runtime, HeartbeatMonitor, RuntimeStatus, RuntimeUpdate,
};

fn status() -> RuntimeStatus {
    RuntimeStatus::default()
}

#[test]
fn starting_and_running() {
    let mut s = status();
    s.last_error = Some("old".into());
    set_runtime(&mut s, RuntimeUpdate::Starting);
    assert!(!s.streaming && !s.connected && s.last_error.is_none());
    assert_eq!(s.message, "가상 카메라를 시작하는 중…");
    set_runtime(&mut s, RuntimeUpdate::Running);
    assert!(s.streaming);
    assert_eq!(s.message, "카메라가 실행 중입니다");
}

#[test]
fn connection_checks() {
    let mut s = status();
    set_runtime(&mut s, RuntimeUpdate::Connection(true));
    assert!(s.connected);
    assert_eq!(s.message, "앱에서 카메라를 사용 중입니다");
    set_runtime(&mut s, RuntimeUpdate::Connection(false));
    assert!(!s.connected);
    assert_eq!(s.message, "카메라가 실행 중이며 연결을 기다립니다");
}

#[test]
fn failure_survives_the_end_of_the_stream() {
    let mut s = status();
    set_runtime(&mut s, RuntimeUpdate::Running);
    set_runtime(&mut s, RuntimeUpdate::Failed("broken".into()));
    set_runtime(&mut s, RuntimeUpdate::Finished);
    assert_eq!(s.message, "broken");
    assert_eq!(s.last_error.as_deref(), Some("broken"));
    assert!(!s.streaming && !s.connected);
}

#[test]
fn clean_end_and_stop() {
    let mut s = status();
    set_runtime(&mut s, RuntimeUpdate::Running);
    set_runtime(&mut s, RuntimeUpdate::Finished);
    assert_eq!(s.message, "카메라가 꺼져 있습니다");
    set_runtime(&mut s, RuntimeUpdate::Failed("x".into()));
    set_runtime(&mut s, RuntimeUpdate::Stopped);
    assert_eq!(s.message, "카메라가 꺼져 있습니다");
    assert!(s.last_error.is_none());
    let mut idle = status();
    set_runtime(&mut idle, RuntimeUpdate::Idle);
    assert_eq!(idle.message, "카메라가 꺼져 있습니다");
    assert!(!idle.streaming);
}

#[test]
fn heartbeat_monitor_counts_fresh_beats() {
    let mut monitor = HeartbeatMonitor::new();
    assert!(!monitor.observe(0, 1000));
    assert!(monitor.observe(5, 1000));
    assert!(monitor.observe(5, 2999));
    assert!(!monitor.observe(5, 3000));
    assert!(monitor.observe(6, 3000));
    assert_eq!(monitor.last_heartbeat, 6);
    assert_eq!(monitor.seen_at_ms, Some(3000));
}

#[test]
fn connection_checked_every_half_second() {
    assert!(connection_check_due(None, 0));
    assert!(!connection_check_due(Some(1000), 1499));
    assert!(connection_check_due(Some(1000), 1500));
    assert!(!connection_check_due(Some(1000), 10));
}
