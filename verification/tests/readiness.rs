use rpc_client::readiness::{settle, Handoff, Readiness};
use rpc_client::service::{handle_text, poll_ready};
use std::io;

#[test]
fn pending_one_shot_is_not_ready() {
    let polled = settle::<u32>(Handoff::Pending);
    assert!(matches!(polled, Ok(Readiness::NotReady)));
}

#[test]
fn resolved_client_is_ready() {
    let polled = settle(Handoff::Resolved(Ok("client")));
    assert!(matches!(polled, Ok(Readiness::Ready("client"))));
}

#[test]
fn resolved_failure_is_the_error_of_the_poll() {
    let refused = io::Error::new(io::ErrorKind::ConnectionRefused, "connection refused");
    let polled = settle::<u32>(Handoff::Resolved(Err(refused)));
    match polled {
        Err(cause) => {
            assert_eq!(cause.kind(), io::ErrorKind::ConnectionRefused);
            assert_eq!(cause.to_string(), "connection refused");
        }
        Ok(readiness) => panic!("unexpected: {:?}", readiness),
    }
}

#[test]
fn client_is_always_ready_for_a_call() {
    assert!(matches!(poll_ready(), Readiness::Ready(())));
    assert!(matches!(poll_ready(), Readiness::Ready(())));
}

#[test]
fn handle_shows_nothing_of_its_channel() {
    assert_eq!(handle_text(), "Client { .. }");
}
