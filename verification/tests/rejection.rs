use worker_bridge::{Closed, Rejection, SendResultExt, WtError, WtMessage};

#[test]
fn delivered_send_owes_nothing() {
    let outcome: Result<(), Closed<u64, &str>> = Ok(());
    assert!(matches!(outcome.into_rejection(), Rejection::Delivered));
}

#[test]
fn undelivered_work_gives_its_token_back_for_rejection() {
    let outcome: Result<(), Closed<u64, &str>> = Err(Closed(WtMessage::Callback(42, "work")));
    match outcome.into_rejection() {
        Rejection::Reject(token, error) => {
            assert_eq!(token, 42);
            assert!(matches!(error, WtError::ChannelClosed));
        }
        other => panic!("expected the token back, got {:?}", other),
    }
}

#[test]
fn undelivered_close_is_a_plain_error() {
    let outcome: Result<(), Closed<u64, &str>> = Err(Closed(WtMessage::Close));
    match outcome.into_rejection() {
        Rejection::Raise(error) => assert!(matches!(error, WtError::ChannelClosed)),
        other => panic!("expected a plain error, got {:?}", other),
    }
}

#[test]
fn channel_closed_message() {
    assert_eq!(WtError::ChannelClosed.message(), "sending on a closed channel");
}

#[test]
fn spawn_failure_message() {
    assert_eq!(WtError::SpawnFailure.message(), "failed to spawn the worker thread");
}

#[test]
fn work_failure_message_is_its_reason() {
    let error = WtError::WorkFailure(String::from("no stats today"));
    assert_eq!(error.message(), "no stats today");
    assert_eq!(WtError::WorkFailure(String::new()).message(), "");
}

#[test]
fn errors_can_be_cloned_and_printed() {
    let error = WtError::WorkFailure(String::from("no stats today"));
    let copy = error.clone();
    assert_eq!(copy.message(), error.message());
    assert_eq!(format!("{:?}", WtError::ChannelClosed), "ChannelClosed");
    assert_ne!(WtError::ChannelClosed.message(), WtError::SpawnFailure.message());
}
