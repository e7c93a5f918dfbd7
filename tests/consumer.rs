use project_struct_base::consumer::{
    on_receive, ConsumerState, PollStep, ReceiveAction, ReceiveEvent, StartAction,
    RECEIVE_ERROR_PAUSE_MS,
};
use project_struct_base::errors::InfrastructureError;

#[test]
fn stop_then_start_resumes_and_second_start_is_no_op() {
    let mut c = ConsumerState::new();
    assert!(!c.is_running());
    assert!(!c.has_live_loop());
    assert_eq!(c.start(), StartAction::SpawnPollLoop);
    assert_eq!(c.start(), StartAction::AlreadyRunning);
    assert!(c.is_running());
    assert_eq!(c.poll_step(), PollStep::Receive);
    c.stop();
    assert_eq!(c.poll_step(), PollStep::Exit);
    assert!(!c.has_live_loop());
    assert_eq!(c.start(), StartAction::SpawnPollLoop);
    assert_eq!(c.poll_step(), PollStep::Receive);
}

#[test]
fn restart_while_loop_blocked_resumes_without_second_loop() {
    let mut c = ConsumerState::new();
    assert_eq!(c.start(), StartAction::SpawnPollLoop);
    assert_eq!(c.poll_step(), PollStep::Receive);
    // The loop is now blocked in a receive; stop and start again meanwhile.
    c.stop();
    assert!(c.has_live_loop());
    assert_eq!(c.start(), StartAction::Resume);
    assert!(c.is_running());
    // The one loop's receive returns and it goes on polling.
    assert_eq!(c.poll_step(), PollStep::Receive);
    assert!(c.has_live_loop());
}

#[test]
fn health_follows_running_flag() {
    let mut c = ConsumerState::new();
    assert_eq!(
        c.health_check(),
        Err(InfrastructureError::Kafka("Consumer not running".to_string()))
    );
    c.start();
    assert_eq!(c.health_check(), Ok(()));
    c.stop();
    assert!(c.health_check().is_err());
}

#[test]
fn receive_events_map_to_actions() {
    assert_eq!(on_receive(ReceiveEvent::Payload), ReceiveAction::Decode);
    assert_eq!(on_receive(ReceiveEvent::Empty), ReceiveAction::Skip);
    assert_eq!(on_receive(ReceiveEvent::BrokerError), ReceiveAction::PauseThenRetry);
    assert_eq!(RECEIVE_ERROR_PAUSE_MS, 1000);
}
