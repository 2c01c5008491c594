use qingjian_windows::connection::{elapsed, poll_deadline, poll_expired, ConnectionState, EnsureStep, ReconnectTimings};
use qingjian_windows::mismatch::{detected, mark, ClientError, MismatchLatch};

const T: ReconnectTimings = ReconnectTimings { reconnect_interval: 2000, reconnect_after_launch: 200, launch_interval: 5000 };

#[test]
fn elapsed_saturates() {
    assert_eq!(elapsed(100, 350), 250);
    assert_eq!(elapsed(400, 350), 0);
}

#[test]
fn backs_off_after_a_failure_and_retries_later() {
    let mut state = ConnectionState::new();
    assert_eq!(state.ensure_connected(false, 0, T), EnsureStep::Connect);
    state.record_connect(false, 1000);
    assert_eq!(state.ensure_connected(false, 2999, T), EnsureStep::BackingOff);
    assert_eq!(state.ensure_connected(false, 3000, T), EnsureStep::Connect);
    state.record_connect(true, 3000);
    assert_eq!(state.ensure_connected(false, 3001, T), EnsureStep::Connected);
}

#[test]
fn mismatch_blocks_every_connection() {
    let mut state = ConnectionState::new();
    assert_eq!(state.ensure_connected(true, 0, T), EnsureStep::Blocked);
    state.record_connect(true, 0);
    assert_eq!(state.ensure_connected(true, 10, T), EnsureStep::Blocked);
}

#[test]
fn disconnect_reconnects_on_the_next_key() {
    let mut state = ConnectionState::new();
    state.record_connect(false, 500);
    state.record_connect(true, 600);
    assert!(state.disconnect(), "the composition of the dropped session ends");
    assert!(!state.connected);
    assert_eq!(state.ensure_connected(false, 601, T), EnsureStep::Connect);
}

#[test]
fn launching_is_throttled_and_shortens_the_back_off() {
    let mut state = ConnectionState::new();
    assert!(!state.on_pipe_error(false, 0, T));
    assert!(state.on_pipe_error(true, 100, T));
    assert_eq!(state.last_launch, Some(100));
    assert!(!state.on_pipe_error(true, 4000, T));
    assert_eq!(state.last_launch, Some(100));
    assert_eq!(state.reconnect_interval(1000, T), 200);
    assert_eq!(state.reconnect_interval(5100, T), 2000);
    state.record_connect(false, 1000);
    assert_eq!(state.ensure_connected(false, 1150, T), EnsureStep::BackingOff);
    assert_eq!(state.ensure_connected(false, 1200, T), EnsureStep::Connect);
    assert!(state.may_launch(5100, T));
    assert!(state.on_pipe_error(true, 5100, T));
}

#[test]
fn polling_stops_at_the_deadline() {
    let deadline = poll_deadline(1000, 300);
    assert_eq!(deadline, 1300);
    assert!(!poll_expired(1299, deadline));
    assert!(poll_expired(1300, deadline));
}

#[test]
fn mark_logs_only_the_first_time() {
    let mut latch = MismatchLatch::new();
    assert!(!detected(&latch));
    let line = mark(&mut latch, "未知消息").expect("first mark logs");
    assert!(line.contains("（未知消息）"));
    assert!(line.starts_with("与 Server 的协议对不上"));
    assert!(detected(&latch));
    assert_eq!(mark(&mut latch, "again"), None);
    assert!(detected(&latch));
}

#[test]
fn protocol_mismatch_errors() {
    assert!(ClientError::Codec { protocol_mismatch: true }.is_protocol_mismatch());
    assert!(!ClientError::Codec { protocol_mismatch: false }.is_protocol_mismatch());
    assert!(ClientError::Unexpected("Frame".to_owned()).is_protocol_mismatch());
    assert!(!ClientError::Closed.is_protocol_mismatch());
}
