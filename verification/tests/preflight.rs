use recpart::preflight::{
    ensure_block_device, ensure_disk_not_mounted, ensure_disk_writable, ensure_mount_root_safe,
    ensure_required_tools, ensure_root_for_apply, ensure_whole_disk, geometry_query_args,
    mode_is_executable, parse_disk_geometry, query_disk_target, required_tools,
    resolve_disk_path, split_text_lines, type_query_args, DiskProbe, QueryOutcome, StatReport,
};
use recpart::ErrorCode;

fn finished(stdout: &str) -> QueryOutcome {
    QueryOutcome::Finished {
        success: true,
        stdout: stdout.to_string(),
        stderr: String::new(),
    }
}

#[test]
fn invalid_disk_path_returns_e001() {
    let probe = DiskProbe {
        canonical: Ok("/dev/null".to_string()),
        stat: StatReport::Found { block_device: false },
        kind: finished(""),
        geometry: finished(""),
    };
    let err = query_disk_target("/dev/null", &probe).expect_err("must fail");
    assert_eq!(err.code.code(), "E001");
}

#[test]
fn probe_is_judged_check_by_check() {
    let good = |kind: &str, geometry: &str| DiskProbe {
        canonical: Ok("/dev/sda".to_string()),
        stat: StatReport::Found { block_device: true },
        kind: finished(kind),
        geometry: finished(geometry),
    };
    let disk = query_disk_target("/dev/disk/by-id/x", &good("disk\n", "1000 512 4096\n"))
        .expect("disk");
    assert_eq!(disk.path, "/dev/sda");
    assert_eq!(disk.size_bytes, 1000);
    let err = query_disk_target("/dev/sda1", &good("part\n", "1000 512 4096\n"))
        .expect_err("partition");
    assert_eq!(err.observed, "device type is 'part'");
    let err = query_disk_target(
        "/dev/nope",
        &DiskProbe {
            canonical: Err("No such file or directory (os error 2)".to_string()),
            stat: StatReport::Found { block_device: true },
            kind: finished("disk"),
            geometry: finished("1 2 3"),
        },
    )
    .expect_err("no canonical path");
    assert_eq!(err.expectation, "target disk path can be canonicalized");
    assert!(mode_is_executable(0o755));
    assert!(mode_is_executable(0o001));
    assert!(!mode_is_executable(0o644));
}

#[test]
fn block_device_messages_are_exact() {
    assert!(ensure_block_device("/dev/sda", &StatReport::Found { block_device: true }).is_ok());
    let err = ensure_block_device("/dev/null", &StatReport::Found { block_device: false })
        .expect_err("must fail");
    assert_eq!(err.component, "preflight");
    assert_eq!(err.expectation, "target disk path is a block device");
    assert_eq!(err.observed, "'/dev/null' is not a block device");
    let err = ensure_block_device(
        "/dev/nope",
        &StatReport::Failed {
            reason: "No such file or directory (os error 2)".to_string(),
        },
    )
    .expect_err("must fail");
    assert_eq!(
        err.expectation,
        "target disk path exists and is a block device"
    );
    assert_eq!(
        err.observed,
        "failed to stat '/dev/nope': No such file or directory (os error 2)"
    );
}

#[test]
fn required_tools_are_checked_in_order() {
    assert_eq!(required_tools().len(), 8);
    assert!(ensure_required_tools(&vec![true; 8]).is_ok());
    assert!(ensure_required_tools(&vec![true; 9]).is_ok());
    let err = ensure_required_tools(&vec![true; 7]).expect_err("blkid has no answer");
    assert_eq!(err.code, ErrorCode::MissingTool);
    assert_eq!(err.observed, "'blkid' is missing");
    let err = ensure_required_tools(&vec![]).expect_err("nothing found");
    assert_eq!(err.observed, "'lsblk' is missing");
    let err = ensure_required_tools(&vec![true, false, false, true, true, true, true, true])
        .expect_err("two missing");
    assert_eq!(err.observed, "'sfdisk' is missing");
}

#[test]
fn privilege_is_required() {
    assert!(ensure_root_for_apply(true).is_ok());
    let err = ensure_root_for_apply(false).expect_err("not root");
    assert_eq!(err.code, ErrorCode::NotRoot);
    assert_eq!(err.expectation, "apply runs as root");
    assert_eq!(err.remediation, "Re-run with root privileges (sudo).");
}

#[test]
fn mount_root_must_be_absolute_and_unprotected() {
    assert!(ensure_mount_root_safe("/mnt", false).is_ok());
    let err = ensure_mount_root_safe("/", true).expect_err("protected");
    assert_eq!(err.code, ErrorCode::MountFailed);
    assert_eq!(err.expectation, "mount root is not a protected system path");
    assert_eq!(err.observed, "'/' is protected");
    let err = ensure_mount_root_safe("", true).expect_err("empty");
    assert_eq!(err.expectation, "mount root path is absolute");
    assert_eq!(err.observed, "'' is not absolute");
}

#[test]
fn writable_disk_answers_zero() {
    assert!(ensure_disk_writable(&finished("0")).is_ok());
    assert!(ensure_disk_writable(&finished("  0\n")).is_ok());
    let err = ensure_disk_writable(&finished("1\n")).expect_err("read-only");
    assert_eq!(err.code, ErrorCode::InvalidTargetDisk);
    assert_eq!(err.expectation, "target disk is writable (RO=0)");
    assert_eq!(err.observed, "read-only flag is RO=1");
    let err = ensure_disk_writable(&finished("")).expect_err("no answer");
    assert_eq!(err.observed, "read-only flag is RO=");
    let err = ensure_disk_writable(&QueryOutcome::NotRun {
        reason: "No such file or directory (os error 2)".to_string(),
    })
    .expect_err("not run");
    assert_eq!(err.expectation, "lsblk can query read-only status");
    assert_eq!(
        err.observed,
        "failed to execute lsblk: No such file or directory (os error 2)"
    );
    let err = ensure_disk_writable(&QueryOutcome::Finished {
        success: false,
        stdout: "0".to_string(),
        stderr: " lsblk: /dev/x: not a block device \n".to_string(),
    })
    .expect_err("failed");
    assert_eq!(err.expectation, "disk read-only status query succeeds");
    assert_eq!(err.observed, "lsblk: /dev/x: not a block device");
}

#[test]
fn mounted_disk_is_refused() {
    assert!(ensure_disk_not_mounted(&finished("")).is_ok());
    assert!(ensure_disk_not_mounted(&finished("\n\n  \n-\n - \r\n")).is_ok());
    let err = ensure_disk_not_mounted(&finished("\n/\n/boot/efi\r\n-\n[SWAP]"))
        .expect_err("mounted");
    assert_eq!(
        err.expectation,
        "target disk and child partitions are not mounted"
    );
    assert_eq!(err.observed, "mounted points detected: /, /boot/efi, [SWAP]");
    assert_eq!(
        err.remediation,
        "Unmount all target disk partitions before destructive apply."
    );
}

#[test]
fn lines_are_split_at_line_feeds() {
    assert_eq!(split_text_lines(""), vec![""]);
    assert_eq!(split_text_lines("a"), vec!["a"]);
    assert_eq!(split_text_lines("a\n"), vec!["a", ""]);
    assert_eq!(split_text_lines("\na\n\nbc"), vec!["", "a", "", "bc"]);
}

#[test]
fn whole_disks_and_loop_devices_pass() {
    assert!(ensure_whole_disk(&finished("disk\n")).is_ok());
    assert!(ensure_whole_disk(&finished(" loop ")).is_ok());
    let err = ensure_whole_disk(&finished("part\n")).expect_err("partition");
    assert_eq!(
        err.expectation,
        "target path resolves to whole-disk device type"
    );
    assert_eq!(err.observed, "device type is 'part'");
    assert_eq!(
        type_query_args("/dev/sda"),
        vec!["-dn", "-o", "TYPE", "/dev/sda"]
    );
}

#[test]
fn geometry_is_read_from_the_first_three_words() {
    let disk = parse_disk_geometry("/dev/sda", &finished("268435456000   512    4096\n"))
        .expect("geometry");
    assert_eq!(disk.path, "/dev/sda");
    assert_eq!(disk.size_bytes, 268_435_456_000);
    assert_eq!(disk.logical_sector_bytes, 512);
    assert_eq!(disk.physical_sector_bytes, 4096);
    let disk = parse_disk_geometry("/dev/sda", &finished("\t+1\n2\u{a0}3 junk"))
        .expect("geometry");
    assert_eq!(
        (
            disk.size_bytes,
            disk.logical_sector_bytes,
            disk.physical_sector_bytes
        ),
        (1, 2, 3)
    );
    assert_eq!(
        geometry_query_args("/dev/sda"),
        vec!["-b", "-dn", "-o", "SIZE,LOG-SEC,PHY-SEC", "/dev/sda"]
    );
}

#[test]
fn geometry_failures_name_the_column() {
    let err = parse_disk_geometry("/dev/sda", &finished("  \n")).expect_err("empty");
    assert_eq!(err.code.code(), "E001");
    assert_eq!(err.expectation, "lsblk output contains SIZE");
    assert_eq!(err.observed, "");
    let err = parse_disk_geometry("/dev/sda", &finished(" 100 512 \n")).expect_err("short");
    assert_eq!(err.expectation, "lsblk output contains PHY-SEC");
    assert_eq!(err.observed, "100 512");
    let err = parse_disk_geometry("/dev/sda", &finished("1G 512 512")).expect_err("unit");
    assert_eq!(err.expectation, "SIZE is parseable as integer");
    assert_eq!(
        err.observed,
        "invalid SIZE value: invalid digit found in string"
    );
    let err =
        parse_disk_geometry("/dev/sda", &finished("100 4294967296 512")).expect_err("too large");
    assert_eq!(err.expectation, "LOG-SEC is parseable as integer");
    assert_eq!(
        err.observed,
        "invalid LOG-SEC value: number too large to fit in target type"
    );
    let err = parse_disk_geometry("/dev/sda", &finished("18446744073709551616 1 1"))
        .expect_err("too large");
    assert_eq!(
        err.observed,
        "invalid SIZE value: number too large to fit in target type"
    );
    let disk = parse_disk_geometry("/dev/sda", &finished("18446744073709551615 4294967295 0"))
        .expect("limits");
    assert_eq!(disk.size_bytes, u64::MAX);
    assert_eq!(disk.logical_sector_bytes, u32::MAX);
    let err = parse_disk_geometry("/dev/sda", &finished("1 2 -3")).expect_err("sign");
    assert_eq!(
        err.observed,
        "invalid PHY-SEC value: invalid digit found in string"
    );
    let err = parse_disk_geometry(
        "/dev/sda",
        &QueryOutcome::Finished {
            success: false,
            stdout: String::new(),
            stderr: "lsblk: failed\n".to_string(),
        },
    )
    .expect_err("failed");
    assert_eq!(err.expectation, "lsblk returns disk geometry");
    assert_eq!(err.observed, "lsblk: failed");
}

#[test]
fn canonical_path_is_taken_or_the_failure_named() {
    assert_eq!(
        resolve_disk_path("/dev/disk/by-id/x", &Ok("/dev/sda".to_string())).expect("canonical"),
        "/dev/sda"
    );
    let err = resolve_disk_path(
        "/dev/nope",
        &Err("No such file or directory (os error 2)".to_string()),
    )
    .expect_err("missing");
    assert_eq!(err.code.code(), "E001");
    assert_eq!(err.expectation, "target disk path can be canonicalized");
    assert_eq!(
        err.observed,
        "failed to canonicalize '/dev/nope': No such file or directory (os error 2)"
    );
}
