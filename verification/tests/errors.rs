use recpart::{ErrorCode, RecpartError};

#[test]
fn error_payload_contains_actionable_fields() {
    let err = RecpartError::new(
        ErrorCode::PlanGeneration,
        "plan",
        "layout request is valid",
        "root_a_size_mb=0",
        "Use a positive size value.",
    );

    let payload = err.payload();
    assert_eq!(payload.code, "E003");
    assert_eq!(payload.component, "plan");
    assert!(!payload.expectation.is_empty());
    assert!(!payload.observed.is_empty());
    assert!(!payload.remediation.is_empty());
}

#[test]
fn exit_codes_remain_stable() {
    assert_eq!(ErrorCode::InvalidTargetDisk.exit_code(), 1);
    assert_eq!(ErrorCode::MissingTool.exit_code(), 2);
    assert_eq!(ErrorCode::PlanGeneration.exit_code(), 3);
    assert_eq!(ErrorCode::MissingConfirmation.exit_code(), 4);
}

#[test]
fn every_code_has_its_label_and_exit_status() {
    let all = [
        (ErrorCode::InvalidTargetDisk, "E001", 1),
        (ErrorCode::MissingTool, "E002", 2),
        (ErrorCode::PlanGeneration, "E003", 3),
        (ErrorCode::MissingConfirmation, "E004", 4),
        (ErrorCode::PartitionApplyFailed, "E005", 5),
        (ErrorCode::FormatFailed, "E006", 6),
        (ErrorCode::MountFailed, "E007", 7),
        (ErrorCode::HandoffFailed, "E008", 8),
        (ErrorCode::JsonSerialize, "E009", 9),
        (ErrorCode::NotImplemented, "E010", 10),
        (ErrorCode::NotRoot, "E011", 11),
        (ErrorCode::Internal, "E012", 12),
    ];
    for (code, label, status) in all {
        assert_eq!(code.code(), label);
        assert_eq!(code.to_text(), label);
        assert_eq!(code.exit_code(), status);
    }
}

#[test]
fn error_text_is_one_line_with_all_fields() {
    let err = RecpartError::new(
        ErrorCode::PlanGeneration,
        "plan",
        "layout request is valid",
        "root_a_size_mb=0",
        "Use a positive size value.",
    );
    assert_eq!(
        err.to_text(),
        "E003: [plan] expected layout request is valid, observed root_a_size_mb=0. remediation: Use a positive size value."
    );
    let payload = err.payload();
    assert_eq!(payload.schema_version, 1);
    assert_eq!(payload.expectation, "layout request is valid");
    assert_eq!(payload.observed, "root_a_size_mb=0");
    assert_eq!(payload.remediation, "Use a positive size value.");
}
