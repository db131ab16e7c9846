use recpart::cli::{
    ApplyArgs, Cli, Commands, LayoutRequestArgs, ModeArg, PlanArgs,
};
use recpart::inventory::{
    candidate_path, inventory_entry, inventory_output, inventory_query_args,
    list_candidate_disks, unreadable_list, DiskListResult, LsblkDiskRow, LsblkReadOnly,
    DISK_LIST_SCHEMA_VERSION,
};
use recpart::preflight::QueryOutcome;
use recpart::text::{join_path, replace_char, split_text_words, text_ends_with, trim_text};
use recpart::tui::{terminal_size_from_env, terminal_size_from_stty};
use recpart::types::{DiskTarget, InstallMode, LayoutRequest};

fn row(path: Option<&str>, dev_type: Option<&str>) -> LsblkDiskRow {
    LsblkDiskRow {
        path: path.map(str::to_string),
        dev_type: dev_type.map(str::to_string),
        model: None,
        tran: None,
        ro: None,
    }
}

#[test]
fn read_only_flag_in_its_three_forms() {
    assert!(LsblkReadOnly::Bool(true).is_read_only());
    assert!(!LsblkReadOnly::Bool(false).is_read_only());
    assert!(LsblkReadOnly::Num(1).is_read_only());
    assert!(LsblkReadOnly::Num(255).is_read_only());
    assert!(!LsblkReadOnly::Num(0).is_read_only());
    assert!(LsblkReadOnly::Text(" 1 ".to_string()).is_read_only());
    assert!(LsblkReadOnly::Text("TRUE".to_string()).is_read_only());
    assert!(LsblkReadOnly::Text("Yes\n".to_string()).is_read_only());
    assert!(!LsblkReadOnly::Text("0".to_string()).is_read_only());
    assert!(!LsblkReadOnly::Text("".to_string()).is_read_only());
    assert!(!LsblkReadOnly::Text("y".to_string()).is_read_only());
}

#[test]
fn only_disks_and_loop_devices_with_a_path_count() {
    assert_eq!(
        candidate_path(&row(Some("/dev/sda"), Some("disk"))).as_deref(),
        Some("/dev/sda")
    );
    assert_eq!(
        candidate_path(&row(Some("/dev/loop0"), Some("loop"))).as_deref(),
        Some("/dev/loop0")
    );
    assert_eq!(candidate_path(&row(Some("/dev/sda1"), Some("part"))), None);
    assert_eq!(candidate_path(&row(Some("/dev/sda"), Some("Disk"))), None);
    assert_eq!(candidate_path(&row(None, Some("disk"))), None);
    assert_eq!(candidate_path(&row(Some("/dev/sda"), None)), None);
}

#[test]
fn entries_default_to_unknown() {
    let target = DiskTarget {
        path: "/dev/sda".to_string(),
        size_bytes: 10,
        logical_sector_bytes: 512,
        physical_sector_bytes: 4096,
    };
    let entry = inventory_entry(
        target.clone(),
        &LsblkDiskRow {
            path: Some("/dev/sda".to_string()),
            dev_type: Some("disk".to_string()),
            model: Some("  Fast Disk \n".to_string()),
            tran: Some("   ".to_string()),
            ro: Some(LsblkReadOnly::Text("true".to_string())),
        },
    );
    assert_eq!(entry.path, "/dev/sda");
    assert_eq!(entry.size_bytes, 10);
    assert_eq!(entry.logical_sector_bytes, 512);
    assert_eq!(entry.physical_sector_bytes, 4096);
    assert_eq!(entry.model, "Fast Disk");
    assert_eq!(entry.transport, "unknown");
    assert!(entry.read_only);

    let plain = inventory_entry(target.clone(), &row(Some("/dev/sda"), Some("disk")));
    assert_eq!(plain.model, "unknown");
    assert_eq!(plain.transport, "unknown");
    assert!(!plain.read_only);

    let targets = list_candidate_disks(DiskListResult {
        schema_version: DISK_LIST_SCHEMA_VERSION,
        disks: vec![entry, plain],
    });
    assert_eq!(targets, vec![target.clone(), target]);
    assert_eq!(DISK_LIST_SCHEMA_VERSION, 1);
}

#[test]
fn inventory_query_and_failures() {
    assert_eq!(
        inventory_query_args(),
        vec![
            "-J",
            "-b",
            "-d",
            "-o",
            "PATH,TYPE,SIZE,LOG-SEC,PHY-SEC,MODEL,TRAN,RO"
        ]
    );
    let out = inventory_output(&QueryOutcome::Finished {
        success: true,
        stdout: "{}".to_string(),
        stderr: String::new(),
    })
    .expect("output");
    assert_eq!(out, "{}");
    let err = inventory_output(&QueryOutcome::NotRun {
        reason: "gone".to_string(),
    })
    .expect_err("not run");
    assert_eq!(err.expectation, "lsblk can enumerate block devices");
    assert_eq!(err.observed, "failed to execute lsblk: gone");
    let err = unreadable_list("expected value at line 1 column 1");
    assert_eq!(err.code.code(), "E001");
    assert_eq!(
        err.observed,
        "failed to parse lsblk JSON: expected value at line 1 column 1"
    );
}

#[test]
fn command_line_values() {
    let layout = LayoutRequestArgs {
        efi_size_mb: Some(512),
        root_size_mb: None,
        root_a_size_mb: Some(10_240),
        root_b_size_mb: Some(10_240),
        state_size_mb: Some(8_192),
    };
    assert_eq!(
        layout.to_layout_request(),
        LayoutRequest {
            efi_size_mb: Some(512),
            root_size_mb: None,
            root_a_size_mb: Some(10_240),
            root_b_size_mb: Some(10_240),
            state_size_mb: Some(8_192),
        }
    );
    assert_eq!(InstallMode::from(ModeArg::Ab), InstallMode::Ab);
    assert_eq!(InstallMode::from(ModeArg::Mutable), InstallMode::Mutable);
    assert_eq!(ModeArg::Mutable.to_mode(), InstallMode::Mutable);

    let plan = Cli {
        command: Some(Commands::Plan(PlanArgs {
            disk: "/dev/vda".to_string(),
            mode: ModeArg::Ab,
            json: true,
            layout,
        })),
    };
    assert!(plan.json_requested());
    let apply = Cli {
        command: Some(Commands::Apply(ApplyArgs {
            disk: "/dev/vda".to_string(),
            mode: ModeArg::Ab,
            mount_root: "/mnt".to_string(),
            dry_run: true,
            json: false,
            confirm: None,
            layout,
        })),
    };
    assert!(!apply.json_requested());
    assert!(!Cli {
        command: Some(Commands::Tui)
    }
    .json_requested());
    assert!(!Cli { command: None }.json_requested());
}

#[test]
fn terminal_size_sources() {
    assert_eq!(
        terminal_size_from_env(&Some(" 120 ".to_string()), &Some("40\n".to_string())),
        Some((120, 40))
    );
    assert_eq!(
        terminal_size_from_env(&Some("120".to_string()), &None),
        None
    );
    assert_eq!(
        terminal_size_from_env(&Some("65536".to_string()), &Some("40".to_string())),
        None
    );
    assert_eq!(
        terminal_size_from_env(&Some("wide".to_string()), &Some("40".to_string())),
        None
    );
    let stty = |success: bool, stdout: &str| QueryOutcome::Finished {
        success,
        stdout: stdout.to_string(),
        stderr: String::new(),
    };
    assert_eq!(
        terminal_size_from_stty(&stty(true, "24 80\n")),
        Some((80, 24))
    );
    assert_eq!(terminal_size_from_stty(&stty(false, "24 80\n")), None);
    assert_eq!(terminal_size_from_stty(&stty(true, "24\n")), None);
    assert_eq!(terminal_size_from_stty(&stty(true, "x 80\n")), None);
    assert_eq!(
        terminal_size_from_stty(&QueryOutcome::NotRun {
            reason: "no stty".to_string()
        }),
        None
    );
}

#[test]
fn text_helpers() {
    assert_eq!(trim_text(" \t a b \u{3000}\n"), "a b");
    assert_eq!(trim_text("\u{2003}"), "");
    assert_eq!(trim_text("x"), "x");
    assert_eq!(
        split_text_words("  alpha\tbeta\n\ngamma "),
        vec!["alpha", "beta", "gamma"]
    );
    assert!(split_text_words(" \n ").is_empty());
    assert_eq!(replace_char("a_b__c", '_', '-'), "a-b--c");
    assert!(text_ends_with("/mnt/sysroot", "/sysroot"));
    assert!(!text_ends_with("sysroot", "/sysroot"));
    assert!(text_ends_with("abc", ""));
    assert_eq!(join_path("/mnt", "sysroot"), "/mnt/sysroot");
    assert_eq!(join_path("/mnt/", "sysroot"), "/mnt/sysroot");
    assert_eq!(join_path("/", "sysroot"), "/sysroot");
    assert_eq!(join_path("", "sysroot"), "sysroot");
    assert_eq!(join_path("/mnt", "/abs"), "/abs");
}
