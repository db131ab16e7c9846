use recpart::engine::{
    advance_apply, begin_apply, finish_apply, is_finished, pending_request, ApplyStage, HostEvent,
    HostRequest,
};
use recpart::exec::{execute_plan_with_reporter, ActionOutcome};
use recpart::preflight::{QueryOutcome, StatReport};
use recpart::types::{ApplyOptions, DiskTarget, InstallMode, PartitionPlan};
use recpart::{build_plan, execute_plan, ErrorCode, HostReport};
use std::cell::RefCell;

fn plan(mode: InstallMode) -> PartitionPlan {
    build_plan(
        DiskTarget {
            path: "/dev/vda".to_string(),
            size_bytes: 250 * 1024 * 1024 * 1024,
            logical_sector_bytes: 512,
            physical_sector_bytes: 4096,
        },
        mode,
    )
    .expect("plan")
}

fn real_opts() -> ApplyOptions {
    ApplyOptions {
        dry_run: false,
        confirm_token: Some("DESTROY".to_string()),
        mount_root: "/mnt".to_string(),
    }
}

fn query(stdout: &str) -> HostEvent {
    HostEvent::Query {
        answer: QueryOutcome::Finished {
            success: true,
            stdout: stdout.to_string(),
            stderr: String::new(),
        },
    }
}

fn exited(status: i32, stdout: &str, stderr: &str) -> HostEvent {
    HostEvent::Performed {
        outcome: ActionOutcome::Exited {
            status: Some(status),
            stdout: stdout.to_string(),
            stderr: stderr.to_string(),
        },
    }
}

fn dir_created() -> HostEvent {
    HostEvent::Performed {
        outcome: ActionOutcome::DirCreated,
    }
}

fn checks() -> Vec<HostEvent> {
    vec![
        HostEvent::Privilege { is_root: true },
        HostEvent::Tools {
            found: vec![true; 8],
        },
        HostEvent::BlockDevice {
            stat: StatReport::Found { block_device: true },
        },
        query("0\n"),
        query("\n-\n\n"),
    ]
}

fn mutable_run() -> Vec<HostEvent> {
    let mut events = checks();
    events.push(exited(0, "", ""));
    events.push(exited(0, " table written \n", ""));
    events.push(exited(0, "", ""));
    events.push(HostEvent::Devices {
        missing: vec!["/dev/vda2".to_string()],
    });
    events.push(HostEvent::Devices { missing: vec![] });
    events.push(exited(0, "", "mkfs.fat 4.2\n"));
    events.push(exited(0, "", ""));
    events.push(dir_created());
    events.push(exited(0, "", ""));
    events.push(dir_created());
    events.push(exited(0, "", ""));
    events
}

#[test]
fn destructive_apply_records_every_step_in_order() {
    let plan = plan(InstallMode::Mutable);
    let result = execute_plan(
        &plan,
        &real_opts(),
        &HostReport {
            mount_root_protected: false,
            events: mutable_run(),
        },
    )
    .expect("apply");

    assert!(!result.dry_run);
    let commands = result
        .steps
        .iter()
        .map(|s| s.command.as_str())
        .collect::<Vec<_>>();
    assert_eq!(
        commands,
        vec![
            "wipefs -a --force /dev/vda",
            "sfdisk /dev/vda",
            "udevadm settle --timeout=10",
            "mkfs.vfat -F 32 -n EFI /dev/vda1",
            "mkfs.ext4 -F -L ROOT /dev/vda2",
            "mkdir -p /mnt/sysroot",
            "mount /dev/vda2 /mnt/sysroot",
            "mkdir -p /mnt/sysroot/boot",
            "mount /dev/vda1 /mnt/sysroot/boot",
        ]
    );
    assert!(result.steps.iter().all(|s| s.status == Some(0)));
    assert!(result.steps.iter().all(|s| !s.dry_run));
    assert_eq!(result.steps[1].stdout.as_deref(), Some("table written"));
    assert_eq!(result.steps[1].stderr, None);
    assert_eq!(result.steps[3].stderr.as_deref(), Some("mkfs.fat 4.2"));
    assert_eq!(result.steps[5].program, "mkdir");
    assert_eq!(result.steps[5].phase, "mount");
    assert!(result.warnings.is_empty());
}

#[test]
fn reporter_sees_each_completed_step_once_and_in_order() {
    let plan = plan(InstallMode::Mutable);
    let seen = RefCell::new(Vec::new());
    let result = execute_plan_with_reporter(
        &plan,
        &real_opts(),
        &HostReport {
            mount_root_protected: false,
            events: mutable_run(),
        },
        |record: &recpart::types::CommandRecord| seen.borrow_mut().push(record.command.clone()),
    )
    .expect("apply");
    let recorded = result
        .steps
        .iter()
        .map(|s| s.command.clone())
        .collect::<Vec<_>>();
    assert_eq!(seen.into_inner(), recorded);

    let seen = RefCell::new(0usize);
    execute_plan_with_reporter(
        &plan,
        &ApplyOptions {
            dry_run: true,
            confirm_token: None,
            mount_root: "/mnt".to_string(),
        },
        &HostReport {
            mount_root_protected: false,
            events: vec![],
        },
        |_record: &recpart::types::CommandRecord| *seen.borrow_mut() += 1,
    )
    .expect("dry run");
    assert_eq!(seen.into_inner(), 0);
}

#[test]
fn non_zero_exit_aborts_with_the_phase_error() {
    let plan = plan(InstallMode::Mutable);
    let mut events = checks();
    events.push(exited(0, "", ""));
    events.push(exited(0, "", ""));
    events.push(exited(0, "", ""));
    events.push(HostEvent::Devices { missing: vec![] });
    events.push(exited(1, "", "  mkfs.vfat: unable to open /dev/vda1\n"));
    events.push(exited(0, "", ""));

    let err = execute_plan(
        &plan,
        &real_opts(),
        &HostReport {
            mount_root_protected: false,
            events,
        },
    )
    .expect_err("format must fail");
    assert_eq!(err.code, ErrorCode::FormatFailed);
    assert_eq!(err.component, "exec");
    assert_eq!(err.expectation, "mkfs.vfat exits with status 0");
    assert_eq!(
        err.observed,
        "exit 1; stderr: mkfs.vfat: unable to open /dev/vda1"
    );
    assert_eq!(
        err.remediation,
        "Fix the reported format failure and retry. Disk: /dev/vda. If partial mounts were created under /mnt, unmount them before retry."
    );
}

#[test]
fn failures_are_classified_by_phase() {
    let plan = plan(InstallMode::Mutable);
    let opts = real_opts();

    let mut events = checks();
    events.push(HostEvent::Performed {
        outcome: ActionOutcome::SpawnFailed {
            reason: "No such file or directory (os error 2)".to_string(),
        },
    });
    let err = execute_plan(
        &plan,
        &opts,
        &HostReport {
            mount_root_protected: false,
            events,
        },
    )
    .expect_err("spawn must fail");
    assert_eq!(err.code, ErrorCode::PartitionApplyFailed);
    assert_eq!(err.expectation, "wipefs starts successfully");
    assert_eq!(err.observed, "No such file or directory (os error 2)");

    let mut events = checks();
    events.push(exited(0, "", ""));
    events.push(HostEvent::Performed {
        outcome: ActionOutcome::StdinFailed {
            reason: "Broken pipe (os error 32)".to_string(),
        },
    });
    let err = execute_plan(
        &plan,
        &opts,
        &HostReport {
            mount_root_protected: false,
            events,
        },
    )
    .expect_err("stdin must fail");
    assert_eq!(err.code, ErrorCode::PartitionApplyFailed);
    assert_eq!(err.expectation, "sfdisk accepts stdin payload");

    let mut events = checks();
    events.push(exited(0, "", ""));
    events.push(exited(0, "", ""));
    events.push(exited(0, "", ""));
    events.push(HostEvent::Devices { missing: vec![] });
    events.push(exited(0, "", ""));
    events.push(exited(0, "", ""));
    events.push(HostEvent::Performed {
        outcome: ActionOutcome::DirFailed {
            reason: "Permission denied (os error 13)".to_string(),
        },
    });
    let err = execute_plan(
        &plan,
        &opts,
        &HostReport {
            mount_root_protected: false,
            events,
        },
    )
    .expect_err("mkdir must fail");
    assert_eq!(err.code, ErrorCode::MountFailed);
    assert_eq!(err.expectation, "directory '/mnt/sysroot' can be created");
    assert_eq!(err.observed, "Permission denied (os error 13)");

    let mut events = checks();
    events.push(exited(0, "", ""));
    events.push(exited(0, "", ""));
    events.push(exited(0, "", ""));
    events.push(HostEvent::Devices { missing: vec![] });
    events.push(exited(0, "", ""));
    events.push(exited(0, "", ""));
    events.push(dir_created());
    events.push(HostEvent::Performed {
        outcome: ActionOutcome::Exited {
            status: None,
            stdout: String::new(),
            stderr: "killed".to_string(),
        },
    });
    let err = execute_plan(
        &plan,
        &opts,
        &HostReport {
            mount_root_protected: false,
            events,
        },
    )
    .expect_err("mount must fail");
    assert_eq!(err.code, ErrorCode::MountFailed);
    assert_eq!(err.observed, "exit -1; stderr: killed");
}

#[test]
fn devices_are_awaited_behind_the_partition_phase_until_the_timeout() {
    let plan = plan(InstallMode::Mutable);
    let opts = real_opts();
    let mut state = begin_apply(&plan, &opts, false).expect("begin");
    for event in checks() {
        state = advance_apply(&plan, &opts, state, &event).expect("check");
    }
    assert_eq!(state.stage, ApplyStage::Action { index: 0 });
    state = advance_apply(&plan, &opts, state, &exited(0, "", "")).expect("wipefs");
    assert_eq!(state.stage, ApplyStage::Action { index: 1 });
    state = advance_apply(&plan, &opts, state, &exited(0, "", "")).expect("sfdisk");
    assert_eq!(state.stage, ApplyStage::Action { index: 2 });
    state = advance_apply(&plan, &opts, state, &exited(0, "", "")).expect("udevadm");
    assert_eq!(
        state.stage,
        ApplyStage::Devices {
            index: 3,
            waited_ms: 0
        }
    );
    match pending_request(&plan, &opts, &state) {
        HostRequest::Devices { devices, pause_ms } => {
            assert_eq!(devices, vec!["/dev/vda1", "/dev/vda2"]);
            assert_eq!(pause_ms, 0);
        }
        other => panic!("unexpected request {:?}", other),
    }

    let missing = HostEvent::Devices {
        missing: vec!["/dev/vda1".to_string(), "/dev/vda2".to_string()],
    };
    let mut looks = 0;
    loop {
        match advance_apply(&plan, &opts, state, &missing) {
            Ok(next) => {
                state = next;
                looks += 1;
                match pending_request(&plan, &opts, &state) {
                    HostRequest::Devices { pause_ms, .. } => assert_eq!(pause_ms, 250),
                    other => panic!("unexpected request {:?}", other),
                }
            }
            Err(err) => {
                assert_eq!(err.code, ErrorCode::PartitionApplyFailed);
                assert_eq!(
                    err.expectation,
                    "partition devices appear after partition table write"
                );
                assert_eq!(
                    err.observed,
                    "missing devices after 8s: /dev/vda1, /dev/vda2"
                );
                break;
            }
        }
    }
    assert_eq!(looks, 32);
}

#[test]
fn checks_come_in_order_and_each_can_refuse() {
    let plan = plan(InstallMode::Ab);
    let opts = real_opts();
    let state = begin_apply(&plan, &opts, false).expect("begin");
    assert_eq!(state.stage, ApplyStage::Privilege);
    assert!(!is_finished(&state));
    assert!(matches!(
        pending_request(&plan, &opts, &state),
        HostRequest::Privilege
    ));

    let err = advance_apply(&plan, &opts, state, &HostEvent::Privilege { is_root: false })
        .expect_err("not root");
    assert_eq!(err.code, ErrorCode::NotRoot);
    assert_eq!(err.code.code(), "E011");
    assert_eq!(err.observed, "effective uid is not root");

    let state = begin_apply(&plan, &opts, false).expect("begin");
    let state = advance_apply(&plan, &opts, state, &HostEvent::Privilege { is_root: true })
        .expect("root");
    assert_eq!(state.stage, ApplyStage::Tools);
    match pending_request(&plan, &opts, &state) {
        HostRequest::Tools { tools } => assert_eq!(
            tools,
            vec![
                "lsblk",
                "sfdisk",
                "wipefs",
                "mkfs.vfat",
                "mkfs.ext4",
                "mount",
                "udevadm",
                "blkid"
            ]
        ),
        other => panic!("unexpected request {:?}", other),
    }
    let err = advance_apply(
        &plan,
        &opts,
        state,
        &HostEvent::Tools {
            found: vec![true, true, false, true, false, true, true, true],
        },
    )
    .expect_err("missing tool");
    assert_eq!(err.code, ErrorCode::MissingTool);
    assert_eq!(err.expectation, "required tool 'wipefs' exists in PATH");
    assert_eq!(err.observed, "'wipefs' is missing");
    assert_eq!(err.remediation, "Install 'wipefs' and re-run recpart.");

    let mut events = checks();
    events.truncate(2);
    let mut state = begin_apply(&plan, &opts, false).expect("begin");
    for event in events {
        state = advance_apply(&plan, &opts, state, &event).expect("check");
    }
    assert_eq!(state.stage, ApplyStage::BlockDevice);
    match pending_request(&plan, &opts, &state) {
        HostRequest::BlockDevice { path } => assert_eq!(path, "/dev/vda"),
        other => panic!("unexpected request {:?}", other),
    }
    let state = advance_apply(
        &plan,
        &opts,
        state,
        &HostEvent::BlockDevice {
            stat: StatReport::Found { block_device: true },
        },
    )
    .expect("block device");
    match pending_request(&plan, &opts, &state) {
        HostRequest::Query { program, args } => {
            assert_eq!(program, "lsblk");
            assert_eq!(args, vec!["-dn", "-o", "RO", "/dev/vda"]);
        }
        other => panic!("unexpected request {:?}", other),
    }
    let state = advance_apply(&plan, &opts, state, &query(" 0 \n")).expect("writable");
    match pending_request(&plan, &opts, &state) {
        HostRequest::Query { program, args } => {
            assert_eq!(program, "lsblk");
            assert_eq!(args, vec!["-nr", "-o", "MOUNTPOINT", "/dev/vda"]);
        }
        other => panic!("unexpected request {:?}", other),
    }
    let err = advance_apply(&plan, &opts, state, &query("\n/boot\n - \n /home \n"))
        .expect_err("mounted");
    assert_eq!(err.code, ErrorCode::InvalidTargetDisk);
    assert_eq!(err.observed, "mounted points detected: /boot, /home");
}

#[test]
fn a_report_that_does_not_fit_or_ends_early_is_an_internal_error() {
    let plan = plan(InstallMode::Ab);
    let opts = real_opts();
    let state = begin_apply(&plan, &opts, false).expect("begin");
    let err = advance_apply(&plan, &opts, state, &query("0")).expect_err("wrong report");
    assert_eq!(err.code, ErrorCode::Internal);
    assert_eq!(err.expectation, "the host answers the pending request");

    let err = execute_plan(
        &plan,
        &opts,
        &HostReport {
            mount_root_protected: false,
            events: checks(),
        },
    )
    .expect_err("report ends early");
    assert_eq!(err.code, ErrorCode::Internal);
    assert_eq!(
        err.expectation,
        "the host reports every step until the apply is finished"
    );

    let state = begin_apply(&plan, &opts, false).expect("begin");
    assert!(finish_apply(&plan, &opts, state).is_none());

    let mut events = checks();
    events.push(dir_created());
    let err = execute_plan(
        &plan,
        &opts,
        &HostReport {
            mount_root_protected: false,
            events,
        },
    )
    .expect_err("a directory report for a command");
    assert_eq!(err.code, ErrorCode::Internal);
    assert_eq!(
        err.observed,
        "a report of another kind for: wipefs -a --force /dev/vda"
    );
}

#[test]
fn ab_apply_performs_thirteen_steps() {
    let plan = plan(InstallMode::Ab);
    let opts = real_opts();
    let mut state = begin_apply(&plan, &opts, false).expect("begin");
    for event in checks() {
        state = advance_apply(&plan, &opts, state, &event).expect("check");
    }
    let mut performed = Vec::new();
    while !is_finished(&state) {
        let event = match pending_request(&plan, &opts, &state) {
            HostRequest::Perform { action } => {
                performed.push(action.rendered());
                match action {
                    recpart::exec::ExecutionAction::Run { .. } => exited(0, "", ""),
                    recpart::exec::ExecutionAction::CreateDir { .. } => dir_created(),
                }
            }
            HostRequest::Devices { .. } => HostEvent::Devices { missing: vec![] },
            other => panic!("unexpected request {:?}", other),
        };
        state = advance_apply(&plan, &opts, state, &event).expect("step");
    }
    assert!(matches!(
        pending_request(&plan, &opts, &state),
        HostRequest::Finished
    ));
    assert_eq!(performed.len(), 13);
    let result = finish_apply(&plan, &opts, state).expect("finished");
    let recorded = result
        .steps
        .iter()
        .map(|s| s.command.clone())
        .collect::<Vec<_>>();
    assert_eq!(recorded, performed);
    assert_eq!(result.mounted.len(), 3);
    assert_eq!(result.handoff.install_target, "/mnt/sysroot");
}
