use mongo_repo::error::{Error, ErrorKind, ResultExtention};

#[test]
fn has_err_keeps_the_success_value() {
    let r: Result<u32, String> = Ok(42);
    let folded = r.has_err(ErrorKind::StoreOperationFailed, "insert failed");
    assert_eq!(folded.unwrap(), 42);
}

#[test]
fn has_err_folds_the_failure_into_the_given_kind_and_tag() {
    let r: Result<u32, String> = Err("socket closed".to_string());
    let e = r.has_err(ErrorKind::StoreOperationFailed, "insert failed").unwrap_err();
    assert_eq!(e.kind, ErrorKind::StoreOperationFailed);
    assert_eq!(e.message(), "insert failed");
}

#[test]
fn error_carries_its_kind_and_message() {
    let e = Error::new(ErrorKind::SerializationFailed, "payload not convertible");
    assert_eq!(e.kind, ErrorKind::SerializationFailed);
    assert_eq!(e.message(), "payload not convertible");
}

#[test]
fn each_kind_is_distinct() {
    assert_ne!(ErrorKind::InvalidInput, ErrorKind::NotFound);
    assert_ne!(ErrorKind::NotFound, ErrorKind::ConnectionUnavailable);
    assert_ne!(ErrorKind::ConnectionUnavailable, ErrorKind::StoreOperationFailed);
    assert_ne!(ErrorKind::StoreOperationFailed, ErrorKind::SerializationFailed);
}
