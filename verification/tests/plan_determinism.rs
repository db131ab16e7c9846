use recpart::build_plan;
use recpart::types::{DiskTarget, InstallMode};

#[test]
fn same_input_produces_identical_plan() {
    let disk = DiskTarget {
        path: "/dev/vda".to_string(),
        size_bytes: 250 * 1024 * 1024 * 1024,
        logical_sector_bytes: 512,
        physical_sector_bytes: 4096,
    };

    let plan_a = build_plan(disk.clone(), InstallMode::Ab).expect("first plan");
    let plan_b = build_plan(disk, InstallMode::Ab).expect("second plan");

    assert_eq!(plan_a.sfdisk_script, plan_b.sfdisk_script);
    assert_eq!(plan_a, plan_b);

    let text_a = format!("{:?}", plan_a);
    let text_b = format!("{:?}", plan_b);
    assert_eq!(text_a, text_b);
}
