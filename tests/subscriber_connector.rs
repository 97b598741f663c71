use sttp::transport::{ConnectStatus, ReconnectPhase, ReconnectStep, SubscriberConnector};

fn connector(attempt: i32) -> SubscriberConnector {
    let mut c = SubscriberConnector::new();
    c.retry_interval = 1000;
    c.max_retry_interval = 30000;
    c.connect_attempt = attempt;
    c
}

#[test]
fn backoff_scenario() {
    assert_eq!(connector(1).retry_delay(), 1000);
    assert_eq!(connector(5).retry_delay(), 16000);
    assert_eq!(connector(20).retry_delay(), 30000);
}

#[test]
fn first_attempt_is_immediate() {
    assert_eq!(connector(0).retry_delay(), 0);
}

#[test]
fn backoff_never_decreases_and_is_capped() {
    let mut last = 0;
    for a in 1..40 {
        let d = connector(a).retry_delay();
        assert!(d >= last);
        assert!(d <= 30000);
        last = d;
    }
    let mut big = connector(30);
    big.max_retry_interval = i32::MAX;
    assert_eq!(big.retry_delay(), 1000 * 4096);
}

#[test]
fn negative_interval_gives_no_delay() {
    let mut c = connector(3);
    c.retry_interval = -5;
    assert_eq!(c.retry_delay(), 0);
}

#[test]
fn reconnect_task_runs_through_its_steps() {
    let mut c = connector(2);
    assert_eq!(c.begin_auto_reconnect(false), ReconnectStep::Wait(2000));
    assert_eq!(c.phase(), ReconnectPhase::Waiting);
    assert_eq!(c.wait_elapsed(false), ReconnectStep::Connect);
    assert_eq!(c.connect_finished(true, false), ReconnectStep::NotifyReconnected);
    assert_eq!(c.callback_finished(), ReconnectStep::Done(ConnectStatus::Success));
    assert_eq!(c.phase(), ReconnectPhase::Idle);
}

#[test]
fn failed_attempt_increases_backoff() {
    let mut c = connector(0);
    assert_eq!(c.begin_auto_reconnect(false), ReconnectStep::Wait(0));
    c.wait_elapsed(false);
    assert_eq!(c.connect_finished(false, false), ReconnectStep::Done(ConnectStatus::Failed));
    assert_eq!(c.connect_attempt(), 1);
    assert_eq!(c.begin_auto_reconnect(false), ReconnectStep::Wait(1000));
}

#[test]
fn second_request_waits_for_running_task() {
    let mut c = connector(1);
    assert_eq!(c.begin_auto_reconnect(false), ReconnectStep::Wait(1000));
    assert_eq!(c.begin_auto_reconnect(false), ReconnectStep::JoinPrevious);
    assert_eq!(c.phase(), ReconnectPhase::Waiting);
    c.wait_elapsed(false);
    assert_eq!(c.begin_auto_reconnect(false), ReconnectStep::JoinPrevious);
    c.connect_finished(true, false);
    c.callback_finished();
    assert_eq!(c.begin_auto_reconnect(false), ReconnectStep::Wait(1000));
}

#[test]
fn spent_budget_gives_up() {
    let mut c = connector(3);
    c.max_retries = 3;
    assert_eq!(c.begin_auto_reconnect(false), ReconnectStep::GiveUp);
    assert_eq!(c.phase(), ReconnectPhase::Idle);
    assert!(sttp::transport::subscriber_connector::MAX_RETRIES_MESSAGE.starts_with("Maximum"));
    c.reset_connection();
    assert_eq!(c.begin_auto_reconnect(false), ReconnectStep::Wait(0));
}

#[test]
fn cancel_aborts_waiting_task() {
    let mut c = connector(1);
    c.begin_auto_reconnect(false);
    c.cancel();
    assert!(c.is_canceled());
    assert_eq!(c.wait_elapsed(false), ReconnectStep::Done(ConnectStatus::Canceled));
    assert_eq!(c.begin_auto_reconnect(false), ReconnectStep::Skip);
}

#[test]
fn disposing_subscriber_skips_and_cancels() {
    let mut c = connector(1);
    assert_eq!(c.begin_auto_reconnect(true), ReconnectStep::Skip);
    c.begin_auto_reconnect(false);
    c.wait_elapsed(false);
    assert_eq!(c.connect_finished(true, true), ReconnectStep::Done(ConnectStatus::Canceled));
}
