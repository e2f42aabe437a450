use repo_writer::{failure, AppError, ErrorClass, ErrorKind, ObjectId};

#[test]
fn every_kind_has_its_class() {
    assert_eq!(failure(ErrorKind::Validation, "x").classification(), ErrorClass::ClientFacing);
    assert_eq!(failure(ErrorKind::InvalidPath, "x").classification(), ErrorClass::ClientFacing);
    assert_eq!(failure(ErrorKind::BranchNotFound, "x").classification(), ErrorClass::ClientFacing);
    assert_eq!(failure(ErrorKind::PathNotFound, "x").classification(), ErrorClass::ClientFacing);
    assert_eq!(failure(ErrorKind::RepositoryBusy, "x").classification(), ErrorClass::Retryable);
    assert_eq!(failure(ErrorKind::CommitConflict, "x").classification(), ErrorClass::Retryable);
    assert_eq!(failure(ErrorKind::ObjectStore, "x").classification(), ErrorClass::Internal);
}

#[test]
fn only_contention_is_retryable() {
    assert!(AppError::RepositoryBusyError("r".to_string()).is_retryable());
    assert!(AppError::CommitConflictError("r".to_string()).is_retryable());
    assert!(!AppError::ObjectStoreError("r".to_string()).is_retryable());
    assert!(!AppError::PathNotFoundError("r".to_string()).is_retryable());
    assert!(!AppError::BranchNotFoundError("r".to_string()).is_retryable());
    assert!(!AppError::InvalidPathError("r".to_string()).is_retryable());
    assert!(!AppError::ValidationError("r".to_string()).is_retryable());
}

#[test]
fn failure_builds_the_variant_of_its_kind() {
    assert_eq!(
        failure(ErrorKind::PathNotFound, "nope"),
        AppError::PathNotFoundError("nope".to_string())
    );
    assert_eq!(failure(ErrorKind::RepositoryBusy, "/r").kind(), ErrorKind::RepositoryBusy);
    assert_eq!(failure(ErrorKind::RepositoryBusy, "/r").message(), "/r");
}

#[test]
fn describe_puts_the_heading_before_the_text() {
    assert_eq!(
        AppError::RepositoryBusyError("/srv/r".to_string()).describe(),
        "Repository is locked: /srv/r"
    );
    assert_eq!(AppError::PathNotFoundError("nope".to_string()).describe(), "Path not found: nope");
    assert_eq!(AppError::ValidationError("".to_string()).describe(), "Invalid input: ");
}

#[test]
fn object_id_in_hex() {
    let mut bytes = [0u8; 20];
    bytes[0] = 0xde;
    bytes[1] = 0xad;
    bytes[19] = 0x0f;
    let id = ObjectId::from_bytes(bytes);
    assert_eq!(id.to_hex(), "dead00000000000000000000000000000000000f");
    assert_eq!(ObjectId::zero().to_hex(), "0".repeat(40));
    assert_eq!(ObjectId::zero().bytes, [0u8; 20]);
}

#[test]
fn the_callers_mistakes_are_bad_requests() {
    for kind in [
        ErrorKind::Validation,
        ErrorKind::InvalidPath,
        ErrorKind::BranchNotFound,
        ErrorKind::PathNotFound,
    ] {
        assert_eq!(failure(kind, "x").http_status(), 400);
    }
    for kind in [ErrorKind::RepositoryBusy, ErrorKind::CommitConflict, ErrorKind::ObjectStore] {
        assert_eq!(failure(kind, "x").http_status(), 500);
    }
}

#[test]
fn no_word_of_the_store_leaves_the_process() {
    assert_eq!(
        AppError::ObjectStoreError("odb: cannot read /srv/secret".to_string()).public_text(),
        "Internal server error"
    );
    assert_eq!(
        AppError::RepositoryBusyError("/srv/storage/repositories/ab/abc".to_string()).public_text(),
        "Internal server error"
    );
    assert_eq!(
        AppError::CommitConflictError("tip moved".to_string()).public_text(),
        "Internal server error"
    );
    assert_eq!(
        AppError::BranchNotFoundError("feature".to_string()).public_text(),
        "Branch not found: feature"
    );
    assert_eq!(
        AppError::ValidationError("invalid_git_reference_name".to_string()).public_text(),
        "Invalid input: invalid_git_reference_name"
    );
}
