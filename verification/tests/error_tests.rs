use huak::error::{DispatchStepKind, HuakError};

#[test]
fn cleanup_failures_use_a_distinct_exit_code() {
    assert_eq!(HuakError::CleanupFailed { cause: None }.exit_code(), 2);
    assert_eq!(HuakError::InvalidPath.exit_code(), 1);
    assert_eq!(HuakError::VenvNotFound { from: "/p".to_string() }.exit_code(), 1);
    assert_eq!(HuakError::CreationFailed { cause: None }.exit_code(), 1);
    assert_eq!(
        HuakError::ProcessFailed { step: DispatchStepKind::Invoke, cause: None }.exit_code(),
        1
    );
}

#[test]
fn messages_name_the_failure_and_its_cause() {
    assert_eq!(
        HuakError::VenvNotFound { from: "/p/q".to_string() }.message(),
        "could not find venv from /p/q"
    );
    assert_eq!(HuakError::InvalidPath.message(), "invalid venv path");
    assert_eq!(HuakError::CreationFailed { cause: None }.message(), "failed to create venv");
    assert_eq!(
        HuakError::CreationFailed { cause: Some("exit status 1".to_string()) }.message(),
        "failed to create venv: exit status 1"
    );
    assert_eq!(
        HuakError::ProcessFailed { step: DispatchStepKind::Install, cause: None }.message(),
        "failed to install package"
    );
    assert_eq!(
        HuakError::ProcessFailed {
            step: DispatchStepKind::Invoke,
            cause: Some("exit status 2".to_string()),
        }
        .message(),
        "failed to run command: exit status 2"
    );
    assert_eq!(
        HuakError::CleanupFailed { cause: Some("locked".to_string()) }.message(),
        "failed to clean: locked"
    );
    assert_eq!(HuakError::CleanupFailed { cause: None }.message(), "failed to clean");
}
