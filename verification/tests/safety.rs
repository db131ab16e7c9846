use recpart::build_plan;
use recpart::execute_plan;
use recpart::plan::partition_device;
use recpart::types::{ApplyOptions, DiskTarget, InstallMode};
use recpart::HostReport;

fn fake_disk(path: &str) -> DiskTarget {
    DiskTarget {
        path: path.to_string(),
        size_bytes: 250 * 1024 * 1024 * 1024,
        logical_sector_bytes: 512,
        physical_sector_bytes: 4096,
    }
}

#[test]
fn partition_device_handles_nvme_and_sd_style_names() {
    assert_eq!(partition_device("/dev/sda", 1), "/dev/sda1");
    assert_eq!(partition_device("/dev/nvme0n1", 2), "/dev/nvme0n1p2");
    assert_eq!(partition_device("/dev/mmcblk0", 3), "/dev/mmcblk0p3");
}

#[test]
fn apply_rejects_protected_mount_root_even_in_dry_run() {
    let plan = build_plan(fake_disk("/dev/vda"), InstallMode::Mutable).expect("plan");

    let err = execute_plan(
        &plan,
        &ApplyOptions {
            dry_run: true,
            confirm_token: None,
            mount_root: "/".to_string(),
        },
        &HostReport {
            mount_root_protected: true,
            events: vec![],
        },
    )
    .expect_err("protected mount root should fail");

    assert_eq!(err.code.code(), "E007");
}

#[test]
fn too_small_disk_fails_plan_generation() {
    let tiny = DiskTarget {
        path: "/dev/vda".to_string(),
        size_bytes: 200 * 1024 * 1024,
        logical_sector_bytes: 512,
        physical_sector_bytes: 4096,
    };

    let err = build_plan(tiny, InstallMode::Ab).expect_err("tiny disk must fail");
    assert_eq!(err.code.code(), "E003");
}

#[test]
fn too_small_disk_reports_both_numbers() {
    let tiny = DiskTarget {
        path: "/dev/vda".to_string(),
        size_bytes: 200 * 1024 * 1024,
        logical_sector_bytes: 512,
        physical_sector_bytes: 4096,
    };

    let err = build_plan(tiny, InstallMode::Ab).expect_err("tiny disk must fail");
    assert_eq!(err.component, "plan");
    assert_eq!(
        err.expectation,
        "disk must have at least 46080MB for mode ab"
    );
    assert_eq!(err.observed, "disk has 200MB");
    assert_eq!(
        err.remediation,
        "Choose a larger disk or adjust partition policy defaults."
    );
}

#[test]
fn relative_mount_root_is_refused_even_in_dry_run() {
    let plan = build_plan(fake_disk("/dev/vda"), InstallMode::Mutable).expect("plan");

    let err = execute_plan(
        &plan,
        &ApplyOptions {
            dry_run: true,
            confirm_token: None,
            mount_root: "mnt".to_string(),
        },
        &HostReport {
            mount_root_protected: false,
            events: vec![],
        },
    )
    .expect_err("relative mount root should fail");

    assert_eq!(err.code.code(), "E007");
    assert_eq!(err.expectation, "mount root path is absolute");
    assert_eq!(err.observed, "'mnt' is not absolute");
}

#[test]
fn partition_device_of_large_index_and_empty_disk() {
    assert_eq!(partition_device("/dev/sda", 255), "/dev/sda255");
    assert_eq!(partition_device("/dev/loop0", 10), "/dev/loop0p10");
    assert_eq!(partition_device("", 0), "0");
}
