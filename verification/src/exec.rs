//! The steps of an apply: which commands run in which phase, what a dry run
//! records for them, and what becomes of a step once the host has reported
//! how it went.

use vstd::prelude::*;
use vstd::string::*;
use crate::error::{ErrorCode, RecpartError, RecpartErrorModel};
use crate::engine::{
    advance_apply, begin_apply, executed, finish_apply, is_finished, replayed,
    report_ended_failure, result_is, HostReport,
};
use crate::plan::{device_name, partition_device};
use crate::text::{
    join_path, join_texts, joined, path_join, same_text, signed_decimal, signed_decimal_text,
    text, trim_text, trimmed,
};
use crate::types::{
    clone_optional_text, clone_texts, ApplyOptions, ApplyResult, CommandRecord,
    CommandRecordModel, InstallMode, MountMapping, MountMappingModel, PartitionPlan,
    PartitionTemplateModel,
};

verus! {

/// The word that confirms a destructive apply.
pub const CONFIRM_TOKEN: &'static str = "DESTROY";

/// Milliseconds between two looks for the new partitions' devices.
pub const DEVICE_POLL_MS: u64 = 250;

/// Milliseconds after which the devices are given up.
pub const DEVICE_TIMEOUT_MS: u64 = 8000;

/// One step of an apply: a command to run, or a directory to create.
#[derive(Debug)]
pub enum ExecutionAction {
    Run { phase: String, program: String, args: Vec<String>, stdin: Option<String> },
    CreateDir { phase: String, path: String },
}

/// A step, with its texts as character sequences.
pub enum ExecutionActionModel {
    Run { phase: Seq<char>, program: Seq<char>, args: Seq<Seq<char>>, stdin: Option<Seq<char>> },
    CreateDir { phase: Seq<char>, path: Seq<char> },
}

impl View for ExecutionAction {
    type V = ExecutionActionModel;

    open spec fn view(&self) -> ExecutionActionModel {
        match self {
            ExecutionAction::Run { phase, program, args, stdin } => ExecutionActionModel::Run {
                phase: phase@,
                program: program@,
                args: args.deep_view(),
                stdin: stdin.deep_view(),
            },
            ExecutionAction::CreateDir { phase, path } => ExecutionActionModel::CreateDir {
                phase: phase@,
                path: path@,
            },
        }
    }
}

impl DeepView for ExecutionAction {
    type V = ExecutionActionModel;

    open spec fn deep_view(&self) -> ExecutionActionModel {
        self@
    }
}

impl Clone for ExecutionAction {
    fn clone(&self) -> (r: Self)
        ensures
            r@ == self@,
    {
        match self {
            ExecutionAction::Run { phase, program, args, stdin } => ExecutionAction::Run {
                phase: phase.clone(),
                program: program.clone(),
                args: clone_texts(args),
                stdin: clone_optional_text(stdin),
            },
            ExecutionAction::CreateDir { phase, path } => ExecutionAction::CreateDir {
                phase: phase.clone(),
                path: path.clone(),
            },
        }
    }
}

impl ExecutionActionModel {
    /// The phase that the step belongs to.
    pub open spec fn phase(self) -> Seq<char> {
        match self {
            ExecutionActionModel::Run { phase, .. } => phase,
            ExecutionActionModel::CreateDir { phase, .. } => phase,
        }
    }

    /// The program that carries the step out.
    pub open spec fn program_name(self) -> Seq<char> {
        match self {
            ExecutionActionModel::Run { program, .. } => program,
            ExecutionActionModel::CreateDir { .. } => "mkdir"@,
        }
    }

    /// The program's arguments.
    pub open spec fn args(self) -> Seq<Seq<char>> {
        match self {
            ExecutionActionModel::Run { args, .. } => args,
            ExecutionActionModel::CreateDir { path, .. } => seq!["-p"@, path],
        }
    }

    /// The step as a command line: the program, then its arguments, with one
    /// blank between neighbours.
    pub open spec fn rendered(self) -> Seq<char> {
        match self {
            ExecutionActionModel::Run { program, args, .. } => {
                if args.len() == 0 {
                    program
                } else {
                    program + " "@ + joined(args, " "@)
                }
            },
            ExecutionActionModel::CreateDir { path, .. } => "mkdir -p "@ + path,
        }
    }
}

impl ExecutionAction {
    /// The phase that the step belongs to.
    pub fn phase(&self) -> (r: &str)
        ensures
            r@ == self@.phase(),
    {
        match self {
            ExecutionAction::Run { phase, .. } => phase.as_str(),
            ExecutionAction::CreateDir { phase, .. } => phase.as_str(),
        }
    }

    /// The step as a command line.
    pub fn rendered(&self) -> (r: String)
        ensures
            r@ == self@.rendered(),
    {
        match self {
            ExecutionAction::Run { program, args, .. } => {
                if args.len() == 0 {
                    assert(args.deep_view().len() == 0);
                    program.clone()
                } else {
                    assert(args.deep_view().len() == args.len());
                    let mut out = program.clone();
                    out.append(" ");
                    out.append(join_texts(args, " ").as_str());
                    out
                }
            },
            ExecutionAction::CreateDir { path, .. } => {
                let mut out = text("mkdir -p ");
                out.append(path.as_str());
                out
            },
        }
    }

    /// The program that carries the step out.
    pub fn program_name(&self) -> (r: &str)
        ensures
            r@ == self@.program_name(),
    {
        match self {
            ExecutionAction::Run { program, .. } => program.as_str(),
            ExecutionAction::CreateDir { .. } => "mkdir",
        }
    }

    /// The program's arguments.
    pub fn args(&self) -> (r: Vec<String>)
        ensures
            r.deep_view() == self@.args(),
    {
        match self {
            ExecutionAction::Run { args, .. } => clone_texts(args),
            ExecutionAction::CreateDir { path, .. } => {
                let mut out: Vec<String> = Vec::new();
                out.push(text("-p"));
                out.push(path.clone());
                assert(out.deep_view() =~= seq!["-p"@, path@]);
                out
            },
        }
    }
}

/// A command of the given phase, without input.
pub open spec fn run_step(
    phase: Seq<char>,
    program: Seq<char>,
    args: Seq<Seq<char>>,
) -> ExecutionActionModel {
    ExecutionActionModel::Run { phase, program, args, stdin: None }
}

/// The partition phase: wipe the signatures on the disk, hand the script to
/// the partitioning tool, wait until the device manager has settled.
pub open spec fn partition_steps(disk: Seq<char>, script: Seq<char>) -> Seq<ExecutionActionModel> {
    seq![
        run_step("partition"@, "wipefs"@, seq!["-a"@, "--force"@, disk]),
        ExecutionActionModel::Run {
            phase: "partition"@,
            program: "sfdisk"@,
            args: seq![disk],
            stdin: Some(script),
        },
        run_step("partition"@, "udevadm"@, seq!["settle"@, "--timeout=10"@]),
    ]
}

/// The command that makes the FAT file system of the EFI system partition.
pub open spec fn format_efi_step(device: Seq<char>) -> ExecutionActionModel {
    run_step("format"@, "mkfs.vfat"@, seq!["-F"@, "32"@, "-n"@, "EFI"@, device])
}

/// The command that makes an ext4 file system with the given label.
pub open spec fn format_ext4_step(label: Seq<char>, device: Seq<char>) -> ExecutionActionModel {
    run_step("format"@, "mkfs.ext4"@, seq!["-F"@, "-L"@, label, device])
}

/// The format phase: one file system per partition, in the partitions'
/// order.
pub open spec fn format_steps(disk: Seq<char>, mode: InstallMode) -> Seq<ExecutionActionModel> {
    match mode {
        InstallMode::Ab => seq![
            format_efi_step(device_name(disk, 1)),
            format_ext4_step("ROOT_A"@, device_name(disk, 2)),
            format_ext4_step("ROOT_B"@, device_name(disk, 3)),
            format_ext4_step("STATE"@, device_name(disk, 4)),
        ],
        InstallMode::Mutable => seq![
            format_efi_step(device_name(disk, 1)),
            format_ext4_step("ROOT"@, device_name(disk, 2)),
        ],
    }
}

/// The directory that the installed system's root is mounted on.
pub open spec fn sysroot_dir(mount_root: Seq<char>) -> Seq<char> {
    path_join(mount_root, "sysroot"@)
}

/// The directory that the EFI system partition is mounted on.
pub open spec fn boot_dir(mount_root: Seq<char>) -> Seq<char> {
    path_join(sysroot_dir(mount_root), "boot"@)
}

/// The directory that the state partition is mounted on.
pub open spec fn state_dir(mount_root: Seq<char>) -> Seq<char> {
    path_join(sysroot_dir(mount_root), "state"@)
}

/// The step that creates a mount point.
pub open spec fn create_dir_step(dir: Seq<char>) -> ExecutionActionModel {
    ExecutionActionModel::CreateDir { phase: "mount"@, path: dir }
}

/// The step that mounts a device on a directory.
pub open spec fn mount_step(device: Seq<char>, dir: Seq<char>) -> ExecutionActionModel {
    run_step("mount"@, "mount"@, seq![device, dir])
}

/// The mount phase: each mount point is created and then mounted on, the
/// root before what lies under it.
pub open spec fn mount_steps(disk: Seq<char>, mode: InstallMode, mount_root: Seq<char>) -> Seq<
    ExecutionActionModel,
> {
    match mode {
        InstallMode::Ab => seq![
            create_dir_step(sysroot_dir(mount_root)),
            mount_step(device_name(disk, 2), sysroot_dir(mount_root)),
            create_dir_step(boot_dir(mount_root)),
            mount_step(device_name(disk, 1), boot_dir(mount_root)),
            create_dir_step(state_dir(mount_root)),
            mount_step(device_name(disk, 4), state_dir(mount_root)),
        ],
        InstallMode::Mutable => seq![
            create_dir_step(sysroot_dir(mount_root)),
            mount_step(device_name(disk, 2), sysroot_dir(mount_root)),
            create_dir_step(boot_dir(mount_root)),
            mount_step(device_name(disk, 1), boot_dir(mount_root)),
        ],
    }
}

/// All steps of an apply: the partition phase, then the format phase, then
/// the mount phase.
pub open spec fn apply_steps(
    disk: Seq<char>,
    mode: InstallMode,
    script: Seq<char>,
    mount_root: Seq<char>,
) -> Seq<ExecutionActionModel> {
    partition_steps(disk, script) + format_steps(disk, mode) + mount_steps(disk, mode, mount_root)
}

/// Where each device is mounted once the apply is done.
pub open spec fn mount_map(disk: Seq<char>, mode: InstallMode, mount_root: Seq<char>) -> Seq<
    MountMappingModel,
> {
    match mode {
        InstallMode::Mutable => seq![
            MountMappingModel { path: sysroot_dir(mount_root), device: device_name(disk, 2) },
            MountMappingModel { path: boot_dir(mount_root), device: device_name(disk, 1) },
        ],
        InstallMode::Ab => seq![
            MountMappingModel { path: sysroot_dir(mount_root), device: device_name(disk, 2) },
            MountMappingModel { path: boot_dir(mount_root), device: device_name(disk, 1) },
            MountMappingModel { path: state_dir(mount_root), device: device_name(disk, 4) },
        ],
    }
}

/// The devices of the partitions, in the partitions' order.
pub open spec fn device_list(
    disk: Seq<char>,
    parts: Seq<PartitionTemplateModel>,
) -> Seq<Seq<char>> {
    Seq::new(parts.len(), |i: int| device_name(disk, parts[i].index))
}

/// What a dry run records for a step: the command as it would run, with no
/// status and no output.
pub open spec fn dry_record(a: ExecutionActionModel) -> CommandRecordModel {
    CommandRecordModel {
        phase: a.phase(),
        command: a.rendered(),
        program: a.program_name(),
        args: a.args(),
        status: None,
        stdout: None,
        stderr: None,
        dry_run: true,
    }
}

/// What a dry run records for a list of steps.
pub open spec fn dry_records(steps: Seq<ExecutionActionModel>) -> Seq<CommandRecordModel> {
    Seq::new(steps.len(), |i: int| dry_record(steps[i]))
}

/// `s`, or nothing when `s` is empty.
pub open spec fn non_empty(s: Seq<char>) -> Option<Seq<char>> {
    if s.len() == 0 {
        None
    } else {
        Some(s)
    }
}

/// What a real run records for a step that succeeded.
pub open spec fn completed_record(
    a: ExecutionActionModel,
    status: i32,
    stdout: Seq<char>,
    stderr: Seq<char>,
) -> CommandRecordModel {
    CommandRecordModel {
        phase: a.phase(),
        command: a.rendered(),
        program: a.program_name(),
        args: a.args(),
        status: Some(status),
        stdout: non_empty(stdout),
        stderr: non_empty(stderr),
        dry_run: false,
    }
}

/// The kind of failure that a phase's name stands for.
pub open spec fn phase_error_code(phase: Seq<char>) -> ErrorCode {
    if phase == "partition"@ {
        ErrorCode::PartitionApplyFailed
    } else if phase == "format"@ {
        ErrorCode::FormatFailed
    } else if phase == "mount"@ {
        ErrorCode::MountFailed
    } else {
        ErrorCode::Internal
    }
}

/// How the host says a step went.
#[derive(Debug)]
pub enum ActionOutcome {
    /// The directory exists now.
    DirCreated,
    /// The directory could not be created.
    DirFailed { reason: String },
    /// The program could not be started.
    SpawnFailed { reason: String },
    /// The program did not take its input.
    StdinFailed { reason: String },
    /// The program's end could not be awaited.
    WaitFailed { reason: String },
    /// The program ended: its exit status, if it has one, and all it wrote.
    Exited { status: Option<i32>, stdout: String, stderr: String },
}

/// How a step went, with its texts as character sequences.
pub enum ActionOutcomeModel {
    DirCreated,
    DirFailed { reason: Seq<char> },
    SpawnFailed { reason: Seq<char> },
    StdinFailed { reason: Seq<char> },
    WaitFailed { reason: Seq<char> },
    Exited { status: Option<i32>, stdout: Seq<char>, stderr: Seq<char> },
}

impl View for ActionOutcome {
    type V = ActionOutcomeModel;

    open spec fn view(&self) -> ActionOutcomeModel {
        match self {
            ActionOutcome::DirCreated => ActionOutcomeModel::DirCreated,
            ActionOutcome::DirFailed { reason } => ActionOutcomeModel::DirFailed { reason: reason@ },
            ActionOutcome::SpawnFailed { reason } => ActionOutcomeModel::SpawnFailed {
                reason: reason@,
            },
            ActionOutcome::StdinFailed { reason } => ActionOutcomeModel::StdinFailed {
                reason: reason@,
            },
            ActionOutcome::WaitFailed { reason } => ActionOutcomeModel::WaitFailed { reason: reason@ },
            ActionOutcome::Exited { status, stdout, stderr } => ActionOutcomeModel::Exited {
                status: *status,
                stdout: stdout@,
                stderr: stderr@,
            },
        }
    }
}

impl Clone for ActionOutcome {
    fn clone(&self) -> (r: Self)
        ensures
            r@ == self@,
    {
        match self {
            ActionOutcome::DirCreated => ActionOutcome::DirCreated,
            ActionOutcome::DirFailed { reason } => ActionOutcome::DirFailed { reason: reason.clone() },
            ActionOutcome::SpawnFailed { reason } => ActionOutcome::SpawnFailed {
                reason: reason.clone(),
            },
            ActionOutcome::StdinFailed { reason } => ActionOutcome::StdinFailed {
                reason: reason.clone(),
            },
            ActionOutcome::WaitFailed { reason } => ActionOutcome::WaitFailed {
                reason: reason.clone(),
            },
            ActionOutcome::Exited { status, stdout, stderr } => ActionOutcome::Exited {
                status: *status,
                stdout: stdout.clone(),
                stderr: stderr.clone(),
            },
        }
    }
}

/// The exit status as a number: the status itself, or -1 where the program
/// ended without one.
pub open spec fn status_number(status: Option<i32>) -> i32 {
    match status {
        Some(v) => v,
        None => -1i32,
    }
}

/// The failure of a directory that could not be created.
pub open spec fn dir_failed_error(path: Seq<char>, reason: Seq<char>) -> RecpartErrorModel {
    RecpartErrorModel {
        code: ErrorCode::MountFailed,
        component: "exec"@,
        expectation: "directory '"@ + path + "' can be created"@,
        observed: reason,
        remediation: "Ensure mount root is writable and path permissions are correct."@,
    }
}

/// The failure of a program that could not be started.
pub open spec fn spawn_failed_error(
    phase: Seq<char>,
    program: Seq<char>,
    reason: Seq<char>,
) -> RecpartErrorModel {
    RecpartErrorModel {
        code: phase_error_code(phase),
        component: "exec"@,
        expectation: program + " starts successfully"@,
        observed: reason,
        remediation: "Verify command exists and permissions are sufficient."@,
    }
}

/// The failure of a program that did not take its input.
pub open spec fn stdin_failed_error(
    phase: Seq<char>,
    program: Seq<char>,
    reason: Seq<char>,
) -> RecpartErrorModel {
    RecpartErrorModel {
        code: phase_error_code(phase),
        component: "exec"@,
        expectation: program + " accepts stdin payload"@,
        observed: reason,
        remediation: "Inspect generated partition script and command compatibility."@,
    }
}

/// The failure of a program whose end could not be awaited.
pub open spec fn wait_failed_error(
    phase: Seq<char>,
    program: Seq<char>,
    reason: Seq<char>,
) -> RecpartErrorModel {
    RecpartErrorModel {
        code: phase_error_code(phase),
        component: "exec"@,
        expectation: program + " exits cleanly"@,
        observed: reason,
        remediation: "Inspect system logs and command invocation."@,
    }
}

/// The failure of a program that ended with another status than zero. It
/// carries the status and what the program wrote to its error stream.
pub open spec fn exit_failed_error(
    phase: Seq<char>,
    program: Seq<char>,
    status: i32,
    stderr: Seq<char>,
    disk: Seq<char>,
    mount_root: Seq<char>,
) -> RecpartErrorModel {
    RecpartErrorModel {
        code: phase_error_code(phase),
        component: "exec"@,
        expectation: program + " exits with status 0"@,
        observed: "exit "@ + signed_decimal(status as int) + "; stderr: "@ + stderr,
        remediation: "Fix the reported "@ + phase + " failure and retry. Disk: "@ + disk
            + ". If partial mounts were created under "@ + mount_root
            + ", unmount them before retry."@,
    }
}

/// The failure of a report that does not fit the step it is given for.
pub open spec fn mismatch_error(a: ExecutionActionModel) -> RecpartErrorModel {
    RecpartErrorModel {
        code: ErrorCode::Internal,
        component: "exec"@,
        expectation: "the host reports how the pending step went"@,
        observed: "a report of another kind for: "@ + a.rendered(),
        remediation: "Report a directory's creation for a directory and a program's end for a command."@,
    }
}

/// What becomes of a step once the host has said how it went: a record
/// where it succeeded, and otherwise the failure that ends the run. Output
/// is recorded without the white space around it; empty output is not
/// recorded.
pub open spec fn action_result(
    a: ExecutionActionModel,
    disk: Seq<char>,
    mount_root: Seq<char>,
    o: ActionOutcomeModel,
) -> Result<CommandRecordModel, RecpartErrorModel> {
    match a {
        ExecutionActionModel::CreateDir { phase, path } => match o {
            ActionOutcomeModel::DirCreated => Ok(
                completed_record(a, 0, Seq::empty(), Seq::empty()),
            ),
            ActionOutcomeModel::DirFailed { reason } => Err(dir_failed_error(path, reason)),
            _ => Err(mismatch_error(a)),
        },
        ExecutionActionModel::Run { phase, program, args, stdin } => match o {
            ActionOutcomeModel::SpawnFailed { reason } => Err(
                spawn_failed_error(phase, program, reason),
            ),
            ActionOutcomeModel::StdinFailed { reason } => Err(
                stdin_failed_error(phase, program, reason),
            ),
            ActionOutcomeModel::WaitFailed { reason } => Err(
                wait_failed_error(phase, program, reason),
            ),
            ActionOutcomeModel::Exited { status, stdout, stderr } => {
                if status == Some(0i32) {
                    Ok(completed_record(a, 0, trimmed(stdout), trimmed(stderr)))
                } else {
                    Err(
                        exit_failed_error(
                            phase,
                            program,
                            status_number(status),
                            trimmed(stderr),
                            disk,
                            mount_root,
                        ),
                    )
                }
            },
            _ => Err(mismatch_error(a)),
        },
    }
}

/// The failure of devices that did not appear in time.
pub open spec fn devices_missing_error(missing: Seq<Seq<char>>) -> RecpartErrorModel {
    RecpartErrorModel {
        code: ErrorCode::PartitionApplyFailed,
        component: "exec"@,
        expectation: "partition devices appear after partition table write"@,
        observed: "missing devices after 8s: "@ + joined(missing, ", "@),
        remediation: "Wait for udev to settle, verify kernel sees the new partition table, then retry."@,
    }
}

/// What follows a look for the partitions' devices.
#[derive(Debug, Clone, Copy, PartialEq, Eq, Structural)]
pub enum WaitVerdict {
    /// Every device is there.
    Ready,
    /// Some are missing and there is time left: pause, then look again.
    Retry,
}

/// The text that Rust's `Debug` formatting writes for a text: the text
/// between double quotes, with the characters escaped that a string literal
/// could not hold as they are.
pub uninterp spec fn quoted_text(s: Seq<char>) -> Seq<char>;

/// How a confirmation token is shown in a message.
pub open spec fn shown_token(token: Option<Seq<char>>) -> Seq<char> {
    match token {
        Some(t) => "Some("@ + quoted_text(t) + ")"@,
        None => "None"@,
    }
}

/// The refusal of a destructive apply that was not confirmed. `shown` is
/// how the token that came is written.
pub open spec fn confirmation_error(shown: Seq<char>) -> RecpartErrorModel {
    RecpartErrorModel {
        code: ErrorCode::MissingConfirmation,
        component: "apply"@,
        expectation: "--confirm "@ + CONFIRM_TOKEN@ + " is provided for destructive apply"@,
        observed: "received token: "@ + shown,
        remediation: "Re-run with --confirm "@ + CONFIRM_TOKEN@
            + " to acknowledge destructive disk changes."@,
    }
}

/// True when the token is the confirming word, letter for letter.
pub open spec fn is_confirmed(token: Option<Seq<char>>) -> bool {
    token == Some(CONFIRM_TOKEN@)
}

/// `<str as Debug>::fmt`, through `format!`: the result is the text as
/// `Debug` writes it, which depends on the text alone.
#[verifier::external_body]
fn quote_text(s: &str) -> (r: String)
    ensures
        r@ == quoted_text(s@),
{
    format!("{:?}", s)
}

/// The refusal of a destructive apply that was not confirmed.
pub fn missing_confirmation(shown: &str) -> (r: RecpartError)
    ensures
        r@ == confirmation_error(shown@),
{
    let mut expectation = text("--confirm ");
    expectation.append(CONFIRM_TOKEN);
    expectation.append(" is provided for destructive apply");
    let mut observed = text("received token: ");
    observed.append(shown);
    let mut remediation = text("Re-run with --confirm ");
    remediation.append(CONFIRM_TOKEN);
    remediation.append(" to acknowledge destructive disk changes.");
    RecpartError::new(
        ErrorCode::MissingConfirmation,
        "apply",
        expectation.as_str(),
        observed.as_str(),
        remediation.as_str(),
    )
}

/// Checks that a destructive apply was confirmed: the token must be the
/// confirming word exactly; any other token, and none, is refused.
pub fn ensure_confirmation(token: &Option<String>) -> (r: Result<(), RecpartError>)
    ensures
        r is Ok <==> is_confirmed(token.deep_view()),
        r is Err ==> r->Err_0@ == confirmation_error(shown_token(token.deep_view())),
        r is Err ==> r->Err_0.code == ErrorCode::MissingConfirmation,
{
    match token {
        Some(t) => {
            if same_text(t.as_str(), CONFIRM_TOKEN) {
                return Ok(());
            }
            let mut shown = text("Some(");
            shown.append(quote_text(t.as_str()).as_str());
            shown.append(")");
            Err(missing_confirmation(shown.as_str()))
        },
        None => Err(missing_confirmation("None")),
    }
}

/// The kind of failure that a phase's name stands for.
pub fn classify_phase_error(phase: &str) -> (r: ErrorCode)
    ensures
        r == phase_error_code(phase@),
{
    if same_text(phase, "partition") {
        ErrorCode::PartitionApplyFailed
    } else if same_text(phase, "format") {
        ErrorCode::FormatFailed
    } else if same_text(phase, "mount") {
        ErrorCode::MountFailed
    } else {
        ErrorCode::Internal
    }
}

/// `s` as an optional text: nothing when it is empty.
pub fn non_empty_text(s: String) -> (r: Option<String>)
    ensures
        r.deep_view() == non_empty(s@),
{
    if s.as_str().unicode_len() == 0 {
        None
    } else {
        Some(s)
    }
}

/// What a dry run records for the step.
pub fn dry_run_record(action: &ExecutionAction) -> (r: CommandRecord)
    ensures
        r@ == dry_record(action@),
{
    CommandRecord {
        phase: text(action.phase()),
        command: action.rendered(),
        program: text(action.program_name()),
        args: action.args(),
        status: None,
        stdout: None,
        stderr: None,
        dry_run: true,
    }
}

/// What a dry run records for the steps, in their order.
pub fn dry_run_records(actions: &Vec<ExecutionAction>) -> (r: Vec<CommandRecord>)
    ensures
        r.deep_view() == dry_records(actions.deep_view()),
{
    let mut out: Vec<CommandRecord> = Vec::new();
    let n: usize = actions.len();
    let mut i: usize = 0;
    while i < n
        invariant
            i <= n,
            n == actions.len(),
            out.len() == i,
            forall|k: int| 0 <= k < i ==> out@[k]@ == dry_record(actions@[k]@),
        decreases n - i,
    {
        out.push(dry_run_record(&actions[i]));
        i += 1;
    }
    assert(out.deep_view() =~= dry_records(actions.deep_view()));
    out
}

fn completed(action: &ExecutionAction, status: i32, stdout: String, stderr: String) -> (r:
    CommandRecord)
    ensures
        r@ == completed_record(action@, status, stdout@, stderr@),
{
    CommandRecord {
        phase: text(action.phase()),
        command: action.rendered(),
        program: text(action.program_name()),
        args: action.args(),
        status: Some(status),
        stdout: non_empty_text(stdout),
        stderr: non_empty_text(stderr),
        dry_run: false,
    }
}

fn mismatch(action: &ExecutionAction) -> (r: RecpartError)
    ensures
        r@ == mismatch_error(action@),
{
    let mut observed = text("a report of another kind for: ");
    observed.append(action.rendered().as_str());
    RecpartError::new(
        ErrorCode::Internal,
        "exec",
        "the host reports how the pending step went",
        observed.as_str(),
        "Report a directory's creation for a directory and a program's end for a command.",
    )
}

fn phase_failure(phase: &str, program: &str, what: &str, reason: &str, remediation: &str) -> (r:
    RecpartError)
    ensures
        r@ == (RecpartErrorModel {
            code: phase_error_code(phase@),
            component: "exec"@,
            expectation: program@ + what@,
            observed: reason@,
            remediation: remediation@,
        }),
{
    let mut expectation = text(program);
    expectation.append(what);
    RecpartError::new(classify_phase_error(phase), "exec", expectation.as_str(), reason, remediation)
}

/// Judges one step by what the host reported for it: the step's record, or
/// the failure that ends the run.
pub fn run_action(
    action: &ExecutionAction,
    plan: &PartitionPlan,
    mount_root: &str,
    outcome: &ActionOutcome,
) -> (r: Result<CommandRecord, RecpartError>)
    ensures
        match r {
            Ok(record) => action_result(action@, plan.disk.path@, mount_root@, outcome@) == Ok::<
                CommandRecordModel,
                RecpartErrorModel,
            >(record@),
            Err(e) => action_result(action@, plan.disk.path@, mount_root@, outcome@) == Err::<
                CommandRecordModel,
                RecpartErrorModel,
            >(e@),
        },
{
    match action {
        ExecutionAction::CreateDir { phase, path } => match outcome {
            ActionOutcome::DirCreated => Ok(completed(action, 0, String::new(), String::new())),
            ActionOutcome::DirFailed { reason } => {
                let mut expectation = text("directory '");
                expectation.append(path.as_str());
                expectation.append("' can be created");
                Err(
                    RecpartError::new(
                        ErrorCode::MountFailed,
                        "exec",
                        expectation.as_str(),
                        reason.as_str(),
                        "Ensure mount root is writable and path permissions are correct.",
                    ),
                )
            },
            _ => Err(mismatch(action)),
        },
        ExecutionAction::Run { phase, program, args, stdin } => match outcome {
            ActionOutcome::SpawnFailed { reason } => Err(
                phase_failure(
                    phase.as_str(),
                    program.as_str(),
                    " starts successfully",
                    reason.as_str(),
                    "Verify command exists and permissions are sufficient.",
                ),
            ),
            ActionOutcome::StdinFailed { reason } => Err(
                phase_failure(
                    phase.as_str(),
                    program.as_str(),
                    " accepts stdin payload",
                    reason.as_str(),
                    "Inspect generated partition script and command compatibility.",
                ),
            ),
            ActionOutcome::WaitFailed { reason } => Err(
                phase_failure(
                    phase.as_str(),
                    program.as_str(),
                    " exits cleanly",
                    reason.as_str(),
                    "Inspect system logs and command invocation.",
                ),
            ),
            ActionOutcome::Exited { status, stdout, stderr } => {
                let shown_out = trim_text(stdout.as_str());
                let shown_err = trim_text(stderr.as_str());
                let succeeded = match status {
                    Some(v) => *v == 0,
                    None => false,
                };
                if succeeded {
                    Ok(completed(action, 0, shown_out, shown_err))
                } else {
                    let number: i32 = match status {
                        Some(v) => *v,
                        None => -1,
                    };
                    let mut observed = text("exit ");
                    observed.append(signed_decimal_text(number).as_str());
                    observed.append("; stderr: ");
                    observed.append(shown_err.as_str());
                    let mut remediation = text("Fix the reported ");
                    remediation.append(phase.as_str());
                    remediation.append(" failure and retry. Disk: ");
                    remediation.append(plan.disk.path.as_str());
                    remediation.append(". If partial mounts were created under ");
                    remediation.append(mount_root);
                    remediation.append(", unmount them before retry.");
                    Err(
                        phase_failure(
                            phase.as_str(),
                            program.as_str(),
                            " exits with status 0",
                            observed.as_str(),
                            remediation.as_str(),
                        ),
                    )
                }
            },
            _ => Err(mismatch(action)),
        },
    }
}

/// Decides what follows a look for the partitions' devices: done when none
/// is missing, a failure that names the missing ones once `waited_ms` has
/// reached the timeout, and another look otherwise.
pub fn wait_for_partition_devices(missing: &Vec<String>, waited_ms: u64) -> (r: Result<
    WaitVerdict,
    RecpartError,
>)
    ensures
        missing.len() == 0 ==> r == Ok::<WaitVerdict, RecpartError>(WaitVerdict::Ready),
        missing.len() > 0 && waited_ms < DEVICE_TIMEOUT_MS ==> r == Ok::<WaitVerdict, RecpartError>(
            WaitVerdict::Retry,
        ),
        missing.len() > 0 && waited_ms >= DEVICE_TIMEOUT_MS ==> r is Err && r->Err_0@
            == devices_missing_error(missing.deep_view()),
{
    if missing.len() == 0 {
        return Ok(WaitVerdict::Ready);
    }
    if waited_ms >= DEVICE_TIMEOUT_MS {
        let mut observed = text("missing devices after 8s: ");
        observed.append(join_texts(missing, ", ").as_str());
        return Err(
            RecpartError::new(
                ErrorCode::PartitionApplyFailed,
                "exec",
                "partition devices appear after partition table write",
                observed.as_str(),
                "Wait for udev to settle, verify kernel sees the new partition table, then retry.",
            ),
        );
    }
    Ok(WaitVerdict::Retry)
}

fn run_without_input(phase: &str, program: &str, args: Vec<String>) -> (r: ExecutionAction)
    ensures
        r@ == run_step(phase@, program@, args.deep_view()),
{
    ExecutionAction::Run { phase: text(phase), program: text(program), args, stdin: None }
}

fn partition_actions(disk: &str, script: &str) -> (r: Vec<ExecutionAction>)
    ensures
        r.deep_view() == partition_steps(disk@, script@),
{
    let mut wipe_args: Vec<String> = Vec::new();
    wipe_args.push(text("-a"));
    wipe_args.push(text("--force"));
    wipe_args.push(text(disk));
    assert(wipe_args.deep_view() =~= seq!["-a"@, "--force"@, disk@]);
    let mut table_args: Vec<String> = Vec::new();
    table_args.push(text(disk));
    assert(table_args.deep_view() =~= seq![disk@]);
    let mut settle_args: Vec<String> = Vec::new();
    settle_args.push(text("settle"));
    settle_args.push(text("--timeout=10"));
    assert(settle_args.deep_view() =~= seq!["settle"@, "--timeout=10"@]);
    let mut out: Vec<ExecutionAction> = Vec::new();
    out.push(run_without_input("partition", "wipefs", wipe_args));
    out.push(
        ExecutionAction::Run {
            phase: text("partition"),
            program: text("sfdisk"),
            args: table_args,
            stdin: Some(text(script)),
        },
    );
    out.push(run_without_input("partition", "udevadm", settle_args));
    assert(out.deep_view() =~= partition_steps(disk@, script@));
    out
}

fn format_efi_action(device: &str) -> (r: ExecutionAction)
    ensures
        r@ == format_efi_step(device@),
{
    let mut args: Vec<String> = Vec::new();
    args.push(text("-F"));
    args.push(text("32"));
    args.push(text("-n"));
    args.push(text("EFI"));
    args.push(text(device));
    assert(args.deep_view() =~= seq!["-F"@, "32"@, "-n"@, "EFI"@, device@]);
    run_without_input("format", "mkfs.vfat", args)
}

fn format_ext4_action(label: &str, device: &str) -> (r: ExecutionAction)
    ensures
        r@ == format_ext4_step(label@, device@),
{
    let mut args: Vec<String> = Vec::new();
    args.push(text("-F"));
    args.push(text("-L"));
    args.push(text(label));
    args.push(text(device));
    assert(args.deep_view() =~= seq!["-F"@, "-L"@, label@, device@]);
    run_without_input("format", "mkfs.ext4", args)
}

fn format_actions(disk: &str, mode: InstallMode) -> (r: Vec<ExecutionAction>)
    ensures
        r.deep_view() == format_steps(disk@, mode),
{
    let mut out: Vec<ExecutionAction> = Vec::new();
    out.push(format_efi_action(partition_device(disk, 1).as_str()));
    match mode {
        InstallMode::Ab => {
            out.push(format_ext4_action("ROOT_A", partition_device(disk, 2).as_str()));
            out.push(format_ext4_action("ROOT_B", partition_device(disk, 3).as_str()));
            out.push(format_ext4_action("STATE", partition_device(disk, 4).as_str()));
        },
        InstallMode::Mutable => {
            out.push(format_ext4_action("ROOT", partition_device(disk, 2).as_str()));
        },
    }
    assert(out.deep_view() =~= format_steps(disk@, mode));
    out
}

fn create_dir_action(dir: &str) -> (r: ExecutionAction)
    ensures
        r@ == create_dir_step(dir@),
{
    ExecutionAction::CreateDir { phase: text("mount"), path: text(dir) }
}

fn mount_action(device: &str, dir: &str) -> (r: ExecutionAction)
    ensures
        r@ == mount_step(device@, dir@),
{
    let mut args: Vec<String> = Vec::new();
    args.push(text(device));
    args.push(text(dir));
    assert(args.deep_view() =~= seq![device@, dir@]);
    run_without_input("mount", "mount", args)
}

fn mount_actions(disk: &str, mode: InstallMode, mount_root: &str) -> (r: Vec<ExecutionAction>)
    ensures
        r.deep_view() == mount_steps(disk@, mode, mount_root@),
{
    let sysroot = join_path(mount_root, "sysroot");
    let boot = join_path(sysroot.as_str(), "boot");
    let mut out: Vec<ExecutionAction> = Vec::new();
    out.push(create_dir_action(sysroot.as_str()));
    out.push(mount_action(partition_device(disk, 2).as_str(), sysroot.as_str()));
    out.push(create_dir_action(boot.as_str()));
    out.push(mount_action(partition_device(disk, 1).as_str(), boot.as_str()));
    match mode {
        InstallMode::Ab => {
            let state = join_path(sysroot.as_str(), "state");
            out.push(create_dir_action(state.as_str()));
            out.push(mount_action(partition_device(disk, 4).as_str(), state.as_str()));
        },
        InstallMode::Mutable => {},
    }
    assert(out.deep_view() =~= mount_steps(disk@, mode, mount_root@));
    out
}

/// The steps of an apply of the plan, in the order in which they run.
pub fn build_apply_actions(plan: &PartitionPlan, mount_root: &str) -> (r: Vec<ExecutionAction>)
    ensures
        r.deep_view() == apply_steps(
            plan.disk.path@,
            plan.mode,
            plan.sfdisk_script@,
            mount_root@,
        ),
{
    let disk = plan.disk.path.as_str();
    let mut out = partition_actions(disk, plan.sfdisk_script.as_str());
    let mut formats = format_actions(disk, plan.mode);
    let mut mounts = mount_actions(disk, plan.mode, mount_root);
    let ghost first = out.deep_view();
    let ghost second = formats.deep_view();
    let ghost third = mounts.deep_view();
    out.append(&mut formats);
    assert(out.deep_view() =~= first + second);
    out.append(&mut mounts);
    assert(out.deep_view() =~= first + second + third);
    out
}

/// The devices of the plan's partitions, in the partitions' order.
pub fn formatted_devices(plan: &PartitionPlan) -> (r: Vec<String>)
    ensures
        r.deep_view() == device_list(plan.disk.path@, plan.partitions.deep_view()),
{
    let mut out: Vec<String> = Vec::new();
    let n: usize = plan.partitions.len();
    let mut i: usize = 0;
    while i < n
        invariant
            i <= n,
            n == plan.partitions.len(),
            out.len() == i,
            forall|k: int|
                0 <= k < i ==> out@[k]@ == device_name(plan.disk.path@, plan.partitions@[k].index),
        decreases n - i,
    {
        out.push(partition_device(plan.disk.path.as_str(), plan.partitions[i].index));
        i += 1;
    }
    assert(out.deep_view() =~= device_list(plan.disk.path@, plan.partitions.deep_view()));
    out
}

/// Where each device of the plan is mounted once the apply is done.
pub fn mount_map_for_plan(plan: &PartitionPlan, mount_root: &str) -> (r: Vec<MountMapping>)
    ensures
        r.deep_view() == mount_map(plan.disk.path@, plan.mode, mount_root@),
{
    let disk = plan.disk.path.as_str();
    let sysroot = join_path(mount_root, "sysroot");
    let boot = join_path(sysroot.as_str(), "boot");
    let mut out: Vec<MountMapping> = Vec::new();
    out.push(MountMapping { path: sysroot.clone(), device: partition_device(disk, 2) });
    out.push(MountMapping { path: boot, device: partition_device(disk, 1) });
    match plan.mode {
        InstallMode::Ab => {
            let state = join_path(sysroot.as_str(), "state");
            out.push(MountMapping { path: state, device: partition_device(disk, 4) });
        },
        InstallMode::Mutable => {},
    }
    assert(out.deep_view() =~= mount_map(plan.disk.path@, plan.mode, mount_root@));
    out
}

/// The place of a phase in the order of an apply: partition, then format,
/// then mount; any other name comes last.
pub open spec fn phase_rank(phase: Seq<char>) -> int {
    if phase == "partition"@ {
        0
    } else if phase == "format"@ {
        1
    } else if phase == "mount"@ {
        2
    } else {
        3
    }
}

/// True when no record of a later phase stands before one of an earlier
/// phase.
pub open spec fn phases_in_order(records: Seq<CommandRecordModel>) -> bool {
    forall|i: int, j: int|
        0 <= i <= j < records.len() ==> phase_rank(#[trigger] records[i].phase) <= phase_rank(
            #[trigger] records[j].phase,
        )
}

/// The three phases have three different names.
pub proof fn lemma_phase_names_differ()
    ensures
        phase_rank("partition"@) == 0,
        phase_rank("format"@) == 1,
        phase_rank("mount"@) == 2,
{
    reveal_strlit("partition");
    reveal_strlit("format");
    reveal_strlit("mount");
    assert("partition"@.len() == 9);
    assert("format"@.len() == 6);
    assert("mount"@.len() == 5);
}

/// The steps of every apply come phase by phase: three steps of the
/// partition phase, which are the signature wipe, the partitioning tool and
/// the settling of the device manager; then the format phase; then the
/// mount phase.
pub proof fn lemma_steps_come_phase_by_phase(
    disk: Seq<char>,
    mode: InstallMode,
    script: Seq<char>,
    mount_root: Seq<char>,
)
    ensures
        ({
            let steps = apply_steps(disk, mode, script, mount_root);
            let formats = format_steps(disk, mode).len();
            &&& steps.len() == 3 + formats + mount_steps(disk, mode, mount_root).len()
            &&& forall|i: int| 0 <= i < 3 ==> (#[trigger] steps[i]).phase() == "partition"@
            &&& forall|i: int| 3 <= i < 3 + formats ==> (#[trigger] steps[i]).phase() == "format"@
            &&& forall|i: int|
                3 + formats <= i < steps.len() ==> (#[trigger] steps[i]).phase() == "mount"@
            &&& steps[0].program_name() == "wipefs"@
            &&& steps[1].program_name() == "sfdisk"@
            &&& steps[2].program_name() == "udevadm"@
        }),
{
    let steps = apply_steps(disk, mode, script, mount_root);
    let first = partition_steps(disk, script);
    let second = format_steps(disk, mode);
    let third = mount_steps(disk, mode, mount_root);
    assert forall|i: int| 0 <= i < 3 implies (#[trigger] steps[i]).phase() == "partition"@ by {
        assert(steps[i] == first[i]);
    }
    assert forall|i: int| 3 <= i < 3 + second.len() implies (#[trigger] steps[i]).phase()
        == "format"@ by {
        assert(steps[i] == second[i - 3]);
    }
    assert forall|i: int| 3 + second.len() <= i < steps.len() implies (#[trigger] steps[i]).phase()
        == "mount"@ by {
        assert(steps[i] == third[i - 3 - second.len()]);
    }
    assert(steps[0] == first[0]);
    assert(steps[1] == first[1]);
    assert(steps[2] == first[2]);
}

/// In the records of a dry run, every record of the partition phase stands
/// before every record of the format phase, and those before every record
/// of the mount phase. The records of the partition phase are the first
/// three, for the signature wipe, the partitioning tool and the settling of
/// the device manager, in this order.
pub proof fn lemma_dry_run_phases_in_order(
    disk: Seq<char>,
    mode: InstallMode,
    script: Seq<char>,
    mount_root: Seq<char>,
)
    ensures
        ({
            let records = dry_records(apply_steps(disk, mode, script, mount_root));
            &&& phases_in_order(records)
            &&& records.len() >= 3
            &&& records[0].program == "wipefs"@
            &&& records[1].program == "sfdisk"@
            &&& records[2].program == "udevadm"@
            &&& forall|i: int|
                0 <= i < records.len() ==> ((#[trigger] records[i]).phase == "partition"@ <==> i
                    < 3)
        }),
{
    lemma_phase_names_differ();
    lemma_steps_come_phase_by_phase(disk, mode, script, mount_root);
    let steps = apply_steps(disk, mode, script, mount_root);
    let records = dry_records(steps);
    let formats = format_steps(disk, mode).len();
    assert forall|i: int| 0 <= i < records.len() implies phase_rank(
        (#[trigger] records[i]).phase,
    ) == (if i < 3 {
        0int
    } else if i < 3 + formats {
        1int
    } else {
        2int
    }) by {
        assert(records[i].phase == steps[i].phase());
    }
    assert forall|i: int| 0 <= i < records.len() implies ((#[trigger] records[i]).phase
        == "partition"@ <==> i < 3) by {
        assert(phase_rank(records[i].phase) == (if i < 3 {
            0int
        } else if i < 3 + formats {
            1int
        } else {
            2int
        }));
    }
}

/// A dry run records no status and no output, and marks every record as
/// dry.
pub proof fn lemma_dry_records_are_dry(steps: Seq<ExecutionActionModel>)
    ensures
        dry_records(steps).len() == steps.len(),
        forall|i: int|
            0 <= i < steps.len() ==> {
                &&& (#[trigger] dry_records(steps)[i]).status is None
                &&& dry_records(steps)[i].stdout is None
                &&& dry_records(steps)[i].stderr is None
                &&& dry_records(steps)[i].dry_run
            },
{
}

/// Under an absolute mount root, the two-slot mode mounts exactly three
/// devices, on paths that end in `/sysroot`, `/sysroot/boot` and
/// `/sysroot/state`; the single-root mode mounts exactly two, on the first
/// two of these, and nothing on a path that ends in `/state`.
pub proof fn lemma_mount_topology(disk: Seq<char>, mode: InstallMode, mount_root: Seq<char>)
    requires
        crate::text::is_absolute(mount_root),
    ensures
        ({
            let map = mount_map(disk, mode, mount_root);
            &&& map.len() == match mode {
                InstallMode::Ab => 3int,
                InstallMode::Mutable => 2int,
            }
            &&& crate::text::ends_with(map[0].path, "/sysroot"@)
            &&& crate::text::ends_with(map[1].path, "/sysroot/boot"@)
            &&& mode == InstallMode::Ab ==> crate::text::ends_with(map[2].path, "/sysroot/state"@)
            &&& mode == InstallMode::Mutable ==> forall|i: int|
                0 <= i < map.len() ==> !crate::text::ends_with(
                    (#[trigger] map[i]).path,
                    "/state"@,
                )
        }),
{
    reveal_strlit("sysroot");
    reveal_strlit("boot");
    reveal_strlit("state");
    reveal_strlit("/sysroot");
    reveal_strlit("/sysroot/boot");
    reveal_strlit("/sysroot/state");
    reveal_strlit("/state");
    let root = sysroot_dir(mount_root);
    let boot = boot_dir(mount_root);
    let state = state_dir(mount_root);
    let n = root.len() as int;
    assert(!crate::text::is_absolute("sysroot"@));
    assert(!crate::text::is_absolute("boot"@));
    assert(!crate::text::is_absolute("state"@));
    assert(root.subrange(n - 8, n) =~= "/sysroot"@);
    assert(root.last() == 't');
    assert(boot =~= root + seq!['/'] + "boot"@);
    assert(state =~= root + seq!['/'] + "state"@);
    let b = boot.len() as int;
    assert(boot.subrange(b - 13, b) =~= "/sysroot/boot"@);
    let s = state.len() as int;
    assert(state.subrange(s - 14, s) =~= "/sysroot/state"@);
    let map = mount_map(disk, mode, mount_root);
    if mode == InstallMode::Mutable {
        assert forall|i: int| 0 <= i < map.len() implies !crate::text::ends_with(
            (#[trigger] map[i]).path,
            "/state"@,
        ) by {
            if i == 0 {
                if crate::text::ends_with(root, "/state"@) {
                    assert(root.subrange(n - 6, n)[5] == root[n - 1]);
                }
            } else {
                if crate::text::ends_with(boot, "/state"@) {
                    assert(boot.subrange(b - 6, b)[5] == boot[b - 1]);
                }
            }
        }
    }
}

/// An apply of a plan that the plan builder made formats every partition
/// of the plan once, in the partitions' order: the step for a partition
/// runs the `mkfs` tool of the partition's file system kind, with the
/// partition's label, on the partition's device. The devices that are
/// awaited behind the partition phase are those of the format phase.
pub proof fn lemma_format_phase_covers_partitions(plan: crate::types::PartitionPlanModel)
    requires
        plan.well_formed(),
    ensures
        ({
            let formats = format_steps(plan.disk.path, plan.mode);
            let devices = device_list(plan.disk.path, plan.partitions);
            &&& formats.len() == plan.partitions.len()
            &&& devices.len() == plan.partitions.len()
            &&& forall|i: int|
                0 <= i < plan.partitions.len() ==> {
                    let args = (#[trigger] formats[i]).args();
                    &&& formats[i].program_name() == "mkfs."@ + plan.partitions[i].filesystem
                    &&& args.len() >= 2
                    &&& args[args.len() - 2] == plan.partitions[i].label
                    &&& args[args.len() - 1] == devices[i]
                    &&& devices[i] == device_name(plan.disk.path, plan.partitions[i].index)
                }
        }),
{
    reveal_strlit("mkfs.");
    reveal_strlit("vfat");
    reveal_strlit("ext4");
    reveal_strlit("mkfs.vfat");
    reveal_strlit("mkfs.ext4");
    assert("mkfs.vfat"@ =~= "mkfs."@ + "vfat"@);
    assert("mkfs.ext4"@ =~= "mkfs."@ + "ext4"@);
    let layout = crate::policy::resolved_layout(plan.mode, plan.layout_request);
    crate::policy::lemma_resolved_layout_is_sound(plan.mode, plan.layout_request);
    crate::plan::lemma_template_order(layout);
    let formats = format_steps(plan.disk.path, plan.mode);
    let devices = device_list(plan.disk.path, plan.partitions);
    assert forall|i: int| 0 <= i < plan.partitions.len() implies {
        let args = (#[trigger] formats[i]).args();
        &&& formats[i].program_name() == "mkfs."@ + plan.partitions[i].filesystem
        &&& args.len() >= 2
        &&& args[args.len() - 2] == plan.partitions[i].label
        &&& args[args.len() - 1] == devices[i]
        &&& devices[i] == device_name(plan.disk.path, plan.partitions[i].index)
    } by {
        assert(plan.partitions[i].index == i + 1);
    }
}

fn ignore_record(record: &CommandRecord) {
}

/// Applies the plan as far as the host's report tells: a dry run gives the
/// full result without any report; a destructive apply is checked and
/// carried out report by report, and fails where the host's report fails
/// or ends too early.
pub fn execute_plan(plan: &PartitionPlan, opts: &ApplyOptions, host: &HostReport) -> (r: Result<
    ApplyResult,
    RecpartError,
>)
    ensures
        result_is(
            r,
            executed(
                plan@,
                opts.dry_run,
                opts.confirm_token.deep_view(),
                opts.mount_root@,
                host.mount_root_protected,
                host.events.deep_view(),
            ),
        ),
{
    execute_plan_with_reporter(plan, opts, host, ignore_record)
}

/// As `execute_plan`, and calls `reporter` with the record of each step of
/// a destructive apply once the step is done, in the steps' order. What the
/// reporter does has no part in the result.
pub fn execute_plan_with_reporter<F: Fn(&CommandRecord)>(
    plan: &PartitionPlan,
    opts: &ApplyOptions,
    host: &HostReport,
    reporter: F,
) -> (r: Result<ApplyResult, RecpartError>)
    requires
        forall|record: &CommandRecord| call_requires(reporter, (record,)),
    ensures
        result_is(
            r,
            executed(
                plan@,
                opts.dry_run,
                opts.confirm_token.deep_view(),
                opts.mount_root@,
                host.mount_root_protected,
                host.events.deep_view(),
            ),
        ),
{
    let mut state = match begin_apply(plan, opts, host.mount_root_protected) {
        Err(e) => {
            return Err(e);
        },
        Ok(s) => s,
    };
    let n: usize = host.events.len();
    let ghost all = host.events.deep_view();
    let ghost start = state@;
    let mut i: usize = 0;
    assert(all.subrange(0, n as int) =~= all);
    while !is_finished(&state)
        invariant
            i <= n,
            n == host.events.len(),
            all == host.events.deep_view(),
            forall|record: &CommandRecord| call_requires(reporter, (record,)),
            crate::engine::begun(
                plan@,
                opts.dry_run,
                opts.confirm_token.deep_view(),
                opts.mount_root@,
                host.mount_root_protected,
            ) == Ok::<crate::engine::ApplyStateModel, RecpartErrorModel>(start),
            replayed(plan@, opts.mount_root@, start, all) == replayed(
                plan@,
                opts.mount_root@,
                state@,
                all.subrange(i as int, n as int),
            ),
        decreases n - i,
    {
        if i >= n {
            return Err(report_ended_failure());
        }
        let ghost rest = all.subrange(i as int, n as int);
        proof {
            assert(rest[0] == host.events@[i as int]@);
            assert(rest.drop_first() =~= all.subrange(i as int + 1, n as int));
        }
        let recorded: usize = state.steps.len();
        let ghost prior = state@;
        assert(replayed(plan@, opts.mount_root@, prior, rest) == match crate::engine::advanced(
            plan@,
            opts.mount_root@,
            prior,
            rest[0],
        ) {
            Err(e) => Err(e),
            Ok(next) => replayed(plan@, opts.mount_root@, next, rest.drop_first()),
        });
        state = match advance_apply(plan, opts, state, &host.events[i]) {
            Err(e) => {
                return Err(e);
            },
            Ok(s) => s,
        };
        let count: usize = state.steps.len();
        if count > recorded {
            reporter(&state.steps[count - 1]);
        }
        i += 1;
    }
    match finish_apply(plan, opts, state) {
        Some(result) => Ok(result),
        None => Err(report_ended_failure()),
    }
}

} // verus!
