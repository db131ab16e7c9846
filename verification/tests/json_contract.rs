use recpart::build_plan;
use recpart::execute_plan;
use recpart::types::{ApplyOptions, DiskTarget, InstallMode, LayoutRequest};
use recpart::HostReport;

#[test]
fn plan_and_apply_include_schema_versions() {
    let disk = DiskTarget {
        path: "/dev/vda".to_string(),
        size_bytes: 250 * 1024 * 1024 * 1024,
        logical_sector_bytes: 512,
        physical_sector_bytes: 4096,
    };

    let plan = build_plan(disk, InstallMode::Ab).expect("plan");
    assert_eq!(plan.schema_version, 1);
    assert_eq!(plan.layout_request, LayoutRequest::default());
    assert_eq!(plan.resolved_layout.efi_size_mb, 1024);

    let apply = execute_plan(
        &plan,
        &ApplyOptions {
            dry_run: true,
            confirm_token: None,
            mount_root: "/mnt".to_string(),
        },
        &HostReport {
            mount_root_protected: false,
            events: vec![],
        },
    )
    .expect("apply dry-run");

    assert_eq!(apply.schema_version, 1);
    assert_eq!(apply.layout_request, plan.layout_request);
    assert_eq!(apply.resolved_layout, plan.resolved_layout);
    assert_eq!(apply.partition_map, plan.partitions);
    assert_eq!(apply.handoff.schema_version, 1);
}
