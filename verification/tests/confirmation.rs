use recpart::build_plan;
use recpart::execute_plan;
use recpart::types::{ApplyOptions, DiskTarget, InstallMode};
use recpart::{ErrorCode, HostReport};

fn plan() -> recpart::PartitionPlan {
    let disk = DiskTarget {
        path: "/dev/vda".to_string(),
        size_bytes: 250 * 1024 * 1024 * 1024,
        logical_sector_bytes: 512,
        physical_sector_bytes: 4096,
    };
    build_plan(disk, InstallMode::Mutable).expect("plan")
}

#[test]
fn apply_requires_confirmation_token_when_not_dry_run() {
    let plan = plan();

    let err = execute_plan(
        &plan,
        &ApplyOptions {
            dry_run: false,
            confirm_token: None,
            mount_root: "/mnt".to_string(),
        },
        &HostReport {
            mount_root_protected: false,
            events: vec![],
        },
    )
    .expect_err("missing confirmation should fail");

    assert_eq!(err.code.code(), "E004");
}

#[test]
fn missing_confirmation_message_shows_the_token() {
    let plan = plan();
    let host = HostReport {
        mount_root_protected: false,
        events: vec![],
    };

    let err = execute_plan(
        &plan,
        &ApplyOptions {
            dry_run: false,
            confirm_token: None,
            mount_root: "/mnt".to_string(),
        },
        &host,
    )
    .expect_err("missing confirmation should fail");
    assert_eq!(err.code, ErrorCode::MissingConfirmation);
    assert_eq!(err.component, "apply");
    assert_eq!(
        err.expectation,
        "--confirm DESTROY is provided for destructive apply"
    );
    assert_eq!(err.observed, "received token: None");
    assert_eq!(
        err.remediation,
        "Re-run with --confirm DESTROY to acknowledge destructive disk changes."
    );

    let err = execute_plan(
        &plan,
        &ApplyOptions {
            dry_run: false,
            confirm_token: Some("destroy \"it\"".to_string()),
            mount_root: "/mnt".to_string(),
        },
        &host,
    )
    .expect_err("wrong confirmation should fail");
    assert_eq!(err.code, ErrorCode::MissingConfirmation);
    assert_eq!(
        err.observed,
        "received token: Some(\"destroy \\\"it\\\"\")"
    );
}
