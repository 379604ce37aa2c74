use ceseal::error::{
    decode_error, from_debug, from_display, to_status, CesealLockError, CesealServiceError, Code,
    Error, Status,
};

#[test]
fn every_service_error_is_internal_with_its_text() {
    let cases = vec![
        (CesealServiceError::DecodeError("short input".to_string()), "short input"),
        (CesealServiceError::AppError("no such thing".to_string()), "no such thing"),
        (CesealServiceError::Anyhow("deep cause".to_string()), "deep cause"),
        (
            CesealServiceError::CesealLock(CesealLockError::RcuDispatching),
            "RCU in progress, please try again later",
        ),
        (
            CesealServiceError::CesealLock(CesealLockError::SafeMode),
            "This RPC is disabled in safe mode",
        ),
    ];
    for (error, text) in cases {
        assert_eq!(
            error.into_status(),
            Status { code: Code::Internal, message: text.to_string() }
        );
    }
}

#[test]
fn lock_errors_are_internal() {
    let status = CesealLockError::SafeMode.into_status();
    assert_eq!(status.code, Code::Internal);
    assert_eq!(status.message, "This RPC is disabled in safe mode");
}

#[test]
fn node_errors_are_internal() {
    assert_eq!(
        Error::Anyhow("bind failed".to_string()).into_status(),
        Status::internal("bind failed".to_string())
    );
    assert_eq!(Error::ExternalServerAlreadyClosed.into_status().code, Code::Internal);
}

#[test]
fn texts_become_errors() {
    assert_eq!(to_status("bad".to_string()), Status::internal("bad".to_string()));
    assert_eq!(
        decode_error("bad".to_string()),
        CesealServiceError::DecodeError("bad".to_string())
    );
    assert_eq!(from_display("a".to_string()), CesealServiceError::AppError("a".to_string()));
    assert_eq!(from_debug("B".to_string()), CesealServiceError::AppError("B".to_string()));
}

#[test]
fn rejected_argument_has_its_own_code() {
    let status = Status::invalid_argument("Invalid challenge".to_string());
    assert_eq!(status.code, Code::InvalidArgument);
    assert_eq!(status.message, "Invalid challenge");
}
