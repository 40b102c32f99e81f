use bincode::serde::DeserializeError;
use rpc_client::error::{flatten, Delivered, Error, WireError};
use std::io;

fn answers(n: u32) -> Vec<Delivered<u32, String>> {
    (0..n).map(|k| Ok(Ok(Ok(k)))).collect()
}

fn resolve_in_order(delivered: Vec<Delivered<u32, String>>) -> Vec<Result<u32, Error<String>>> {
    delivered.into_iter().map(flatten).collect()
}

fn assert_in_submission_order(n: u32) {
    let resolved = resolve_in_order(answers(n));
    assert_eq!(resolved.len(), n as usize);
    for (k, resolution) in resolved.iter().enumerate() {
        match resolution {
            Ok(response) => assert_eq!(*response as usize, k),
            Err(error) => panic!("call {} failed: {:?}", k, error),
        }
    }
}

#[test]
fn one_call_resolves_to_its_response() {
    assert_in_submission_order(1);
}

#[test]
fn five_calls_resolve_in_submission_order() {
    assert_in_submission_order(5);
}

#[test]
fn a_hundred_calls_resolve_in_submission_order() {
    assert_in_submission_order(100);
}

#[test]
fn calls_of_two_handles_resolve_as_submitted() {
    let first: Vec<Delivered<u32, String>> = vec![Ok(Ok(Ok(10))), Ok(Ok(Ok(11)))];
    let second: Vec<Delivered<u32, String>> = vec![Ok(Ok(Ok(20))), Ok(Ok(Ok(21)))];
    let mut submitted = Vec::new();
    let mut first = first.into_iter();
    let mut second = second.into_iter();
    submitted.push(first.next().unwrap());
    submitted.push(second.next().unwrap());
    submitted.push(second.next().unwrap());
    submitted.push(first.next().unwrap());
    let resolved: Vec<u32> = resolve_in_order(submitted)
        .into_iter()
        .map(|resolution| resolution.unwrap())
        .collect();
    assert_eq!(resolved, vec![10, 20, 21, 11]);
}

#[test]
fn application_error_fails_its_own_call_only() {
    let mut delivered = answers(5);
    delivered[2] = Ok(Ok(Err(WireError::App("refused".to_string()))));
    let resolved = resolve_in_order(delivered);
    assert!(matches!(resolved[1], Ok(1)));
    match &resolved[2] {
        Err(Error::App(refusal)) => assert_eq!(refusal, "refused"),
        other => panic!("unexpected: {:?}", other),
    }
    assert!(matches!(resolved[3], Ok(3)));
    assert!(matches!(resolved[0], Ok(0)));
    assert!(matches!(resolved[4], Ok(4)));
}

#[test]
fn corrupted_response_fails_its_own_call_only() {
    let mut delivered = answers(3);
    delivered[0] = Ok(Err(DeserializeError::SizeLimit));
    let resolved = resolve_in_order(delivered);
    assert!(matches!(
        resolved[0],
        Err(Error::ClientDeserialize(DeserializeError::SizeLimit))
    ));
    assert!(matches!(resolved[1], Ok(1)));
    assert!(matches!(resolved[2], Ok(2)));
}

#[test]
fn transport_failure_fails_its_own_call_only() {
    let mut delivered = answers(3);
    delivered[2] = Err(io::Error::new(io::ErrorKind::BrokenPipe, "closed"));
    let resolved = resolve_in_order(delivered);
    assert!(matches!(resolved[0], Ok(0)));
    assert!(matches!(resolved[1], Ok(1)));
    match &resolved[2] {
        Err(Error::Io(cause)) => assert_eq!(cause.kind(), io::ErrorKind::BrokenPipe),
        other => panic!("unexpected: {:?}", other),
    }
}
