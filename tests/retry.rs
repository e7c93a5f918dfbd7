use project_struct_base::retry::{AttemptOutcome, RetryAction, RetryState};

fn drive(mut s: RetryState, outcomes: &[AttemptOutcome]) -> (RetryState, Vec<RetryAction>) {
    let mut actions = Vec::new();
    let mut next = 0;
    while s.can_attempt() && next < outcomes.len() {
        actions.push(s.record(outcomes[next]));
        next += 1;
    }
    (s, actions)
}

#[test]
fn always_failing_send_is_tried_k_plus_one_times() {
    let outcomes = vec![AttemptOutcome::Failed; 10];
    let (s, actions) = drive(RetryState::for_send(3), &outcomes);
    assert_eq!(actions.len(), 4);
    assert_eq!(s.attempts_made, 4);
    let backoffs = actions.iter().filter(|a| **a == RetryAction::Backoff).count();
    let give_ups = actions.iter().filter(|a| **a == RetryAction::GiveUp).count();
    assert_eq!(backoffs, 3);
    assert_eq!(give_ups, 1);
    assert_eq!(actions[3], RetryAction::GiveUp);
    assert!(!s.can_attempt());
}

#[test]
fn send_with_no_retries_is_tried_once() {
    let outcomes = vec![AttemptOutcome::Failed; 3];
    let (_, actions) = drive(RetryState::for_send(0), &outcomes);
    assert_eq!(actions, vec![RetryAction::GiveUp]);
}

#[test]
fn bootstrap_succeeds_on_third_attempt_after_two_backoffs() {
    let outcomes = [AttemptOutcome::Failed, AttemptOutcome::Failed, AttemptOutcome::Succeeded];
    let mut s = RetryState::for_bootstrap(3);
    let mut sleeps = 0;
    let mut succeeded_on = 0;
    for o in outcomes {
        assert!(s.can_attempt());
        let n = s.next_attempt_number();
        match s.record(o) {
            RetryAction::Backoff => sleeps += 1,
            RetryAction::Done => succeeded_on = n,
            RetryAction::GiveUp => panic!("no attempt should exhaust"),
        }
    }
    assert_eq!(succeeded_on, 3);
    assert_eq!(sleeps, 2);
    assert!(!s.can_attempt());
}

#[test]
fn bootstrap_exhausts_after_max_attempts() {
    let outcomes = vec![AttemptOutcome::Failed; 5];
    let (s, actions) = drive(RetryState::for_bootstrap(3), &outcomes);
    assert_eq!(actions, vec![RetryAction::Backoff, RetryAction::Backoff, RetryAction::GiveUp]);
    assert_eq!(s.attempts_made, 3);
}

#[test]
fn bootstrap_with_zero_attempts_tries_nothing() {
    let s = RetryState::for_bootstrap(0);
    assert!(!s.can_attempt());
}
