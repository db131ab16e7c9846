use recpart::build_plan;
use recpart::execute_plan;
use recpart::report::{
    apply_report, dry_run_summary, handoff_summary, plan_report, plan_summary, progress_line,
};
use recpart::tui::{
    ensure_disk_available, ensure_typed_confirmation, mount_root_or_default, progress_total,
    selected_mode, terminal_failure,
};
use recpart::types::{ApplyOptions, DiskTarget, InstallMode};
use recpart::{ErrorCode, HostReport};

fn plan(mode: InstallMode) -> recpart::PartitionPlan {
    build_plan(
        DiskTarget {
            path: "/dev/vda".to_string(),
            size_bytes: 250 * 1024 * 1024 * 1024,
            logical_sector_bytes: 512,
            physical_sector_bytes: 4096,
        },
        mode,
    )
    .expect("plan")
}

fn dry_run(mode: InstallMode) -> recpart::ApplyResult {
    execute_plan(
        &plan(mode),
        &ApplyOptions {
            dry_run: true,
            confirm_token: None,
            mount_root: "/mnt".to_string(),
        },
        &HostReport {
            mount_root_protected: false,
            events: vec![],
        },
    )
    .expect("dry run")
}

#[test]
fn plan_report_is_exact() {
    assert_eq!(
        plan_report(&plan(InstallMode::Mutable)),
        "recpart plan\n  mode: mutable\n  disk: /dev/vda\n  size: 268435456000 bytes\n\nGenerated sfdisk script:\n\nlabel: gpt\n,1024M,U,*\n,,L\n"
    );
}

#[test]
fn apply_report_is_exact() {
    assert_eq!(
        apply_report(&dry_run(InstallMode::Mutable)),
        "recpart apply\n  mode: mutable\n  disk: /dev/vda\n  dry-run: true\n  steps: 9\n\nHandoff commands:\n  recstrap /mnt/sysroot\n  recfstab /mnt/sysroot >> /mnt/sysroot/etc/fstab\n  recchroot /mnt/sysroot\n"
    );
}

#[test]
fn wizard_summaries_are_exact() {
    assert_eq!(
        plan_summary(&plan(InstallMode::Mutable), "250.0 GiB"),
        "\nPlan summary:\n  Mode: mutable\n  Disk: /dev/vda\n  Disk size: 250.0 GiB\n  Partitions:\n    - 1: label=EFI fs=vfat mount=/boot size=1024MB\n    - 2: label=ROOT fs=ext4 mount=/ size=remaining\n"
    );
    let result = dry_run(InstallMode::Mutable);
    assert_eq!(
        dry_run_summary(&result),
        "\nDry-run command sequence:\n  1. [partition] wipefs -a --force /dev/vda\n  2. [partition] sfdisk /dev/vda\n  3. [partition] udevadm settle --timeout=10\n  4. [format] mkfs.vfat -F 32 -n EFI /dev/vda1\n  5. [format] mkfs.ext4 -F -L ROOT /dev/vda2\n  6. [mount] mkdir -p /mnt/sysroot\n  7. [mount] mount /dev/vda2 /mnt/sysroot\n  8. [mount] mkdir -p /mnt/sysroot/boot\n  9. [mount] mount /dev/vda1 /mnt/sysroot/boot\n\n"
    );
    assert_eq!(
        handoff_summary(&result),
        "\nNext commands:\n  recstrap /mnt/sysroot\n  recfstab /mnt/sysroot >> /mnt/sysroot/etc/fstab\n  recchroot /mnt/sysroot\n\n"
    );
    assert_eq!(
        progress_line(3, 13, &result.steps[2]),
        "  [3/13] [partition] udevadm settle --timeout=10"
    );
    let ab = dry_run(InstallMode::Ab);
    assert!(dry_run_summary(&ab).contains("  13. [mount] mount /dev/vda4 /mnt/sysroot/state\n"));
}

#[test]
fn wizard_decisions() {
    assert!(ensure_disk_available(1).is_ok());
    let err = ensure_disk_available(0).expect_err("no disk");
    assert_eq!(err.code, ErrorCode::InvalidTargetDisk);
    assert_eq!(err.component, "tui");
    assert_eq!(err.observed, "no disk or loop devices found");

    assert_eq!(selected_mode(1), InstallMode::Ab);
    assert_eq!(selected_mode(2), InstallMode::Mutable);
    assert_eq!(selected_mode(3), InstallMode::Ab);

    assert_eq!(mount_root_or_default("\n"), "/mnt");
    assert_eq!(mount_root_or_default("  /target \n"), "/target");

    assert!(ensure_typed_confirmation(" DESTROY\n").is_ok());
    let err = ensure_typed_confirmation("destroy\n").expect_err("mistyped");
    assert_eq!(err.code, ErrorCode::MissingConfirmation);
    assert_eq!(
        err.expectation,
        "confirmation token 'DESTROY' matches exactly"
    );
    assert_eq!(err.observed, "received token 'destroy'");
    assert_eq!(
        err.remediation,
        "Re-run and type 'DESTROY' exactly to proceed."
    );

    assert_eq!(progress_total(Some(13)), 13);
    assert_eq!(progress_total(Some(0)), 1);
    assert_eq!(progress_total(None), 1);

    let err = terminal_failure("stdin read succeeds", "closed", "Ensure terminal input is available.");
    assert_eq!(err.code, ErrorCode::Internal);
    assert_eq!(err.observed, "closed");
    let err = recpart::error::serialize_failure("key must be a string");
    assert_eq!(err.code.code(), "E009");
    assert_eq!(err.component, "json");
    assert_eq!(err.observed, "key must be a string");
}
