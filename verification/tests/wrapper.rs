use std::collections::hash_map::DefaultHasher;
use std::hash::{Hash, Hasher};

use skus::delay::Delay;
use skus::errors::{InternalError, RewardsError};

fn hash_of<T: Hash>(value: &T) -> u64 {
    let mut hasher = DefaultHasher::new();
    value.hash(&mut hasher);
    hasher.finish()
}

fn syntax_failure() -> serde_json::Error {
    match serde_json::from_str::<serde_json::Value>("{ not json") {
        Ok(_) => panic!("the text is not JSON"),
        Err(failure) => failure,
    }
}

fn end_of_input_failure() -> serde_json::Error {
    match serde_json::from_str::<serde_json::Value>("[1, 2") {
        Ok(_) => panic!("the text is cut off"),
        Err(failure) => failure,
    }
}

fn data_failure() -> serde_json::Error {
    match serde_json::from_str::<u8>("300") {
        Ok(_) => panic!("300 is no u8"),
        Err(failure) => failure,
    }
}

#[test]
fn json_failure_becomes_serialization_failed() {
    assert_eq!(InternalError::from(syntax_failure()), InternalError::SerializationFailed);
    assert_eq!(InternalError::from(end_of_input_failure()), InternalError::SerializationFailed);
    assert_eq!(InternalError::from(data_failure()), InternalError::SerializationFailed);
}

#[test]
fn wrapped_json_failure_is_serialization_failed() {
    for failure in [syntax_failure(), end_of_input_failure(), data_failure()] {
        let error = RewardsError::from(failure);
        assert_eq!(error.cause(), &InternalError::SerializationFailed);
        assert_eq!(error.render(), "Could not (de)serialize");
        assert_eq!(error, RewardsError::from(InternalError::SerializationFailed));
    }
}

#[test]
fn attempt_number_is_dropped() {
    let third = RewardsError::from((InternalError::InvalidProof, 3));
    let seventh = RewardsError::from((InternalError::InvalidProof, 7));
    assert_eq!(third, seventh);
    assert_eq!(hash_of(&third), hash_of(&seventh));
    assert_eq!(third, RewardsError::from(InternalError::InvalidProof));
    assert_eq!(third.cause(), &InternalError::InvalidProof);
}

#[test]
fn attempt_number_is_dropped_at_its_limits() {
    let reason = "lock held".to_string();
    let first = RewardsError::from((InternalError::StorageWriteFailed(reason.clone()), 0));
    let last = RewardsError::from((InternalError::StorageWriteFailed(reason.clone()), usize::MAX));
    assert_eq!(first, last);
    assert_eq!(first.cause(), &InternalError::StorageWriteFailed(reason));
}

#[test]
fn different_kinds_stay_different_when_wrapped() {
    let one = RewardsError::from((InternalError::InvalidProof, 3));
    let other = RewardsError::from((InternalError::NotFound, 3));
    assert_ne!(one, other);
    assert_ne!(
        RewardsError::from(InternalError::BadRequest(400)),
        RewardsError::from(InternalError::BadRequest(401))
    );
}

#[test]
fn cause_is_the_wrapped_kind() {
    let kinds = vec![
        InternalError::RequestFailed,
        InternalError::InternalServerError(503),
        InternalError::BadRequest(499),
        InternalError::UnhandledStatus(7),
        InternalError::RetryLater(None),
        InternalError::RetryLater(Some(Delay::from_millis(1500))),
        InternalError::InvalidResponse("empty".to_string()),
        InternalError::StorageWriteFailed("w".to_string()),
        InternalError::StorageReadFailed("r".to_string()),
        InternalError::BorrowFailed,
    ];
    for kind in kinds {
        let error = RewardsError::from(kind.clone());
        assert_eq!(error.cause(), &kind);
        assert_eq!(hash_of(error.cause()), hash_of(&kind));
    }
}

#[test]
fn wrapper_renders_as_its_kind() {
    let kinds = vec![
        InternalError::InternalServerError(503),
        InternalError::BadRequest(499),
        InternalError::RetryLater(Some(Delay::from_millis(1500))),
        InternalError::StorageReadFailed("disk full".to_string()),
        InternalError::OrderUnpaid,
    ];
    for kind in kinds {
        let error = RewardsError::from(kind.clone());
        assert_eq!(error.render(), kind.render());
    }
    assert_eq!(
        RewardsError::from(InternalError::InternalServerError(503)).render(),
        "Server internal error: 503 Service Unavailable"
    );
}

#[test]
fn wrapper_clone_is_equal() {
    let error = RewardsError::from(InternalError::StorageReadFailed("disk full".to_string()));
    let copy = error.clone();
    assert_eq!(copy, error);
    assert_eq!(copy.cause(), error.cause());
    assert_eq!(hash_of(&copy), hash_of(&error));
}
