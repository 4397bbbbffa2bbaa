use protoc_plugin_by_closure::session::{Action, Event, Failure, Phase, Session};

fn drive(events: &[Event]) -> (Session, Vec<Action>) {
    let mut s = Session::new();
    let actions = events.iter().map(|e| s.step(*e)).collect();
    (s, actions)
}

#[test]
fn successful_exchange() {
    let (s, actions) = drive(&[
        Event::Connected,
        Event::RequestReceived,
        Event::CallbackSucceeded,
        Event::ChildExited(true),
    ]);
    assert_eq!(
        actions,
        vec![Action::AwaitRequest, Action::InvokeCallback, Action::SendResponse, Action::Finish]
    );
    assert_eq!(s.outcome(), Some(Ok(())));
}

#[test]
fn unfinished_session_has_no_outcome() {
    let (s, _) = drive(&[Event::Connected]);
    assert_eq!(s.phase, Phase::AwaitingRequest);
    assert_eq!(s.outcome(), None);
}

#[test]
fn callback_that_never_returns_times_out() {
    let (s, actions) = drive(&[Event::Connected, Event::RequestReceived, Event::DeadlineElapsed]);
    assert_eq!(actions[2], Action::KillChild);
    assert_eq!(s.outcome(), Some(Err(Failure::Timeout)));
}

#[test]
fn deadline_before_connection_times_out() {
    let (s, actions) = drive(&[Event::DeadlineElapsed]);
    assert_eq!(actions, vec![Action::KillChild]);
    assert_eq!(s.outcome(), Some(Err(Failure::Timeout)));
}

#[test]
fn callback_failure_is_the_outcome() {
    let (s, actions) = drive(&[
        Event::Connected,
        Event::RequestReceived,
        Event::CallbackFailed,
        Event::ChildExited(false),
    ]);
    assert_eq!(actions[2], Action::AwaitExit);
    assert_eq!(s.outcome(), Some(Err(Failure::Callback)));
}

#[test]
fn failed_exit_after_response_is_the_outcome() {
    let (s, _) = drive(&[
        Event::Connected,
        Event::RequestReceived,
        Event::CallbackSucceeded,
        Event::ChildExited(false),
    ]);
    assert_eq!(s.outcome(), Some(Err(Failure::ProcessExit)));
}

#[test]
fn compiler_exit_before_connection() {
    let (s, _) = drive(&[Event::ChildExited(false)]);
    assert_eq!(s.outcome(), Some(Err(Failure::ProcessExit)));
    let (s, _) = drive(&[Event::ChildExited(true)]);
    assert_eq!(s.outcome(), Some(Err(Failure::Connection)));
}

#[test]
fn lost_request_is_a_connection_failure() {
    let (s, actions) = drive(&[Event::Connected, Event::RequestLost, Event::DeadlineElapsed]);
    assert_eq!(actions[1], Action::AwaitExit);
    assert_eq!(actions[2], Action::KillChild);
    assert_eq!(s.outcome(), Some(Err(Failure::Connection)));
}

#[test]
fn second_connection_is_refused() {
    let (s, actions) = drive(&[Event::Connected, Event::Connected]);
    assert_eq!(actions[1], Action::KillChild);
    assert_eq!(s.outcome(), Some(Err(Failure::Connection)));
}

#[test]
fn finished_session_ignores_events() {
    let (s, actions) = drive(&[
        Event::DeadlineElapsed,
        Event::Connected,
        Event::CallbackSucceeded,
    ]);
    assert_eq!(actions, vec![Action::KillChild, Action::Finish, Action::Finish]);
    assert_eq!(s.outcome(), Some(Err(Failure::Timeout)));
}

#[test]
fn at_most_one_response_is_sent() {
    let (_, actions) = drive(&[
        Event::Connected,
        Event::RequestReceived,
        Event::CallbackSucceeded,
        Event::CallbackSucceeded,
        Event::RequestReceived,
        Event::ChildExited(true),
    ]);
    assert_eq!(actions.iter().filter(|a| **a == Action::SendResponse).count(), 1);
}
