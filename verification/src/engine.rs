//! The apply as a state machine. The engine never touches the system: it
//! says what the host has to do next, takes the host's report of it, and
//! moves on or fails. The stages come in one fixed order: the checks of a
//! destructive apply, then the steps of the partition, format and mount
//! phases, with a wait for the new devices behind the partition phase.

use vstd::prelude::*;
use vstd::string::*;
use crate::error::{ErrorCode, RecpartError, RecpartErrorModel};
use crate::exec::{
    action_result, apply_steps, build_apply_actions, confirmation_error, device_list,
    devices_missing_error, dry_records, dry_run_records, ensure_confirmation, formatted_devices,
    is_confirmed, mount_map, mount_map_for_plan, run_action, shown_token,
    wait_for_partition_devices, ActionOutcome, ActionOutcomeModel, ExecutionAction,
    ExecutionActionModel, WaitVerdict, DEVICE_POLL_MS, DEVICE_TIMEOUT_MS,
};
use crate::handoff::{build_handoff, handoff_for};
use crate::preflight::{
    block_device_error, ensure_block_device, ensure_disk_not_mounted, ensure_disk_writable,
    ensure_mount_root_safe, ensure_required_tools, ensure_root_for_apply, mount_root_error,
    mounted_error, not_root_error, required_tool_names, required_tools, tools_error,
    writable_error, QueryOutcome, QueryOutcomeModel, StatReport, StatReportModel,
};
use crate::text::{same_text, text};
use crate::types::{
    clone_mappings, clone_templates, ApplyOptions, ApplyResult, ApplyResultModel, CommandRecord,
    CommandRecordModel, PartitionPlan, PartitionPlanModel, APPLY_SCHEMA_VERSION,
};

verus! {

/// Where an apply stands.
#[derive(Debug, Clone, Copy, PartialEq, Eq, Structural)]
pub enum ApplyStage {
    /// The caller's privilege is asked for.
    Privilege,
    /// The required tools are looked for.
    Tools,
    /// The disk's path is examined.
    BlockDevice,
    /// The disk is asked whether it is read-only.
    Writable,
    /// The disk is asked what is mounted from it.
    Mounted,
    /// The step with this index is to be carried out.
    Action { index: usize },
    /// The partitions' devices are awaited; the step with this index comes
    /// next, and so many milliseconds were spent waiting.
    Devices { index: usize, waited_ms: u64 },
    /// Nothing is left to do.
    Finished,
}

/// An apply in progress: its stage and the records of the steps done.
#[derive(Debug)]
pub struct ApplyState {
    pub stage: ApplyStage,
    pub steps: Vec<CommandRecord>,
}

/// An apply in progress, with its records as models.
pub struct ApplyStateModel {
    pub stage: ApplyStage,
    pub steps: Seq<CommandRecordModel>,
}

impl View for ApplyState {
    type V = ApplyStateModel;

    open spec fn view(&self) -> ApplyStateModel {
        ApplyStateModel { stage: self.stage, steps: self.steps.deep_view() }
    }
}

/// What the host found out and did for an apply: the answer of the
/// protected-path check for the mount root, and the reports of the
/// requests, in the order in which they were made. A dry run asks for
/// nothing, so its reports are empty.
#[derive(Debug)]
pub struct HostReport {
    pub mount_root_protected: bool,
    pub events: Vec<HostEvent>,
}

/// What the host has to do next.
#[derive(Debug)]
pub enum HostRequest {
    /// Say whether the caller is privileged.
    Privilege,
    /// Say of each tool whether it is on the search path and executable.
    Tools { tools: Vec<String> },
    /// Examine the path.
    BlockDevice { path: String },
    /// Run the read-only command and report what it printed.
    Query { program: String, args: Vec<String> },
    /// Carry the step out.
    Perform { action: ExecutionAction },
    /// Pause for so many milliseconds, then say which of the devices are
    /// missing.
    Devices { devices: Vec<String>, pause_ms: u64 },
    /// Nothing: the apply is finished.
    Finished,
}

/// A request to the host, with its texts as character sequences.
pub enum HostRequestModel {
    Privilege,
    Tools { tools: Seq<Seq<char>> },
    BlockDevice { path: Seq<char> },
    Query { program: Seq<char>, args: Seq<Seq<char>> },
    Perform { action: ExecutionActionModel },
    Devices { devices: Seq<Seq<char>>, pause_ms: u64 },
    Finished,
}

impl View for HostRequest {
    type V = HostRequestModel;

    open spec fn view(&self) -> HostRequestModel {
        match self {
            HostRequest::Privilege => HostRequestModel::Privilege,
            HostRequest::Tools { tools } => HostRequestModel::Tools { tools: tools.deep_view() },
            HostRequest::BlockDevice { path } => HostRequestModel::BlockDevice { path: path@ },
            HostRequest::Query { program, args } => HostRequestModel::Query {
                program: program@,
                args: args.deep_view(),
            },
            HostRequest::Perform { action } => HostRequestModel::Perform { action: action@ },
            HostRequest::Devices { devices, pause_ms } => HostRequestModel::Devices {
                devices: devices.deep_view(),
                pause_ms: *pause_ms,
            },
            HostRequest::Finished => HostRequestModel::Finished,
        }
    }
}

/// What the host reports of the last request.
#[derive(Debug)]
pub enum HostEvent {
    Privilege { is_root: bool },
    Tools { found: Vec<bool> },
    BlockDevice { stat: StatReport },
    Query { answer: QueryOutcome },
    Performed { outcome: ActionOutcome },
    Devices { missing: Vec<String> },
}

/// A report of the host, with its texts as character sequences.
pub enum HostEventModel {
    Privilege { is_root: bool },
    Tools { found: Seq<bool> },
    BlockDevice { stat: StatReportModel },
    Query { answer: QueryOutcomeModel },
    Performed { outcome: ActionOutcomeModel },
    Devices { missing: Seq<Seq<char>> },
}

impl View for HostEvent {
    type V = HostEventModel;

    open spec fn view(&self) -> HostEventModel {
        match self {
            HostEvent::Privilege { is_root } => HostEventModel::Privilege { is_root: *is_root },
            HostEvent::Tools { found } => HostEventModel::Tools { found: found@ },
            HostEvent::BlockDevice { stat } => HostEventModel::BlockDevice { stat: stat@ },
            HostEvent::Query { answer } => HostEventModel::Query { answer: answer@ },
            HostEvent::Performed { outcome } => HostEventModel::Performed { outcome: outcome@ },
            HostEvent::Devices { missing } => HostEventModel::Devices {
                missing: missing.deep_view(),
            },
        }
    }
}

impl DeepView for HostEvent {
    type V = HostEventModel;

    open spec fn deep_view(&self) -> HostEventModel {
        self@
    }
}

/// The steps of an apply of the plan under the mount root.
pub open spec fn steps_of(plan: PartitionPlanModel, mount_root: Seq<char>) -> Seq<
    ExecutionActionModel,
> {
    apply_steps(plan.disk.path, plan.mode, plan.sfdisk_script, mount_root)
}

/// The query whether the disk is read-only.
pub open spec fn read_only_query(disk: Seq<char>) -> HostRequestModel {
    HostRequestModel::Query { program: "lsblk"@, args: seq!["-dn"@, "-o"@, "RO"@, disk] }
}

/// The query for what is mounted from the disk.
pub open spec fn mounts_query(disk: Seq<char>) -> HostRequestModel {
    HostRequestModel::Query { program: "lsblk"@, args: seq!["-nr"@, "-o"@, "MOUNTPOINT"@, disk] }
}

/// The stage of the step with the given index, or the end where there is no
/// such step.
pub open spec fn stage_of_step(steps: Seq<ExecutionActionModel>, index: int) -> ApplyStage {
    if 0 <= index < steps.len() {
        ApplyStage::Action { index: index as usize }
    } else {
        ApplyStage::Finished
    }
}

/// True when the step with the given index is the last of the partition
/// phase.
pub open spec fn ends_partition_phase(steps: Seq<ExecutionActionModel>, index: int) -> bool {
    &&& 0 <= index < steps.len()
    &&& steps[index].phase() == "partition"@
    &&& (index + 1 >= steps.len() || steps[index + 1].phase() != "partition"@)
}

/// The stage that follows the step with the given index: the wait for the
/// devices behind the partition phase, the next step otherwise.
pub open spec fn stage_after_step(steps: Seq<ExecutionActionModel>, index: int) -> ApplyStage {
    if ends_partition_phase(steps, index) {
        ApplyStage::Devices { index: (index + 1) as usize, waited_ms: 0 }
    } else {
        stage_of_step(steps, index + 1)
    }
}

/// What the host has to do in a state.
pub open spec fn pending(
    plan: PartitionPlanModel,
    mount_root: Seq<char>,
    state: ApplyStateModel,
) -> HostRequestModel {
    match state.stage {
        ApplyStage::Privilege => HostRequestModel::Privilege,
        ApplyStage::Tools => HostRequestModel::Tools { tools: required_tool_names() },
        ApplyStage::BlockDevice => HostRequestModel::BlockDevice { path: plan.disk.path },
        ApplyStage::Writable => read_only_query(plan.disk.path),
        ApplyStage::Mounted => mounts_query(plan.disk.path),
        ApplyStage::Action { index } => {
            if index < steps_of(plan, mount_root).len() {
                HostRequestModel::Perform { action: steps_of(plan, mount_root)[index as int] }
            } else {
                HostRequestModel::Finished
            }
        },
        ApplyStage::Devices { index, waited_ms } => HostRequestModel::Devices {
            devices: device_list(plan.disk.path, plan.partitions),
            pause_ms: if waited_ms == 0 {
                0
            } else {
                DEVICE_POLL_MS
            },
        },
        ApplyStage::Finished => HostRequestModel::Finished,
    }
}

/// The failure of a report that does not answer the pending request.
pub open spec fn protocol_error() -> RecpartErrorModel {
    RecpartErrorModel {
        code: ErrorCode::Internal,
        component: "apply"@,
        expectation: "the host answers the pending request"@,
        observed: "a report that does not belong to the pending request"@,
        remediation: "Report what was asked for last, and nothing once the apply is finished."@,
    }
}

/// The state with another stage.
pub open spec fn at_stage(state: ApplyStateModel, stage: ApplyStage) -> ApplyStateModel {
    ApplyStateModel { stage, steps: state.steps }
}

/// The state that follows a check: the next stage where the check found no
/// fault, and the fault otherwise.
pub open spec fn after_check(
    state: ApplyStateModel,
    fault: Option<RecpartErrorModel>,
    next: ApplyStage,
) -> Result<ApplyStateModel, RecpartErrorModel> {
    match fault {
        Some(e) => Err(e),
        None => Ok(at_stage(state, next)),
    }
}

/// The state that follows a report of the host, or the failure that ends
/// the apply. The checks come in their order; each step is judged by its
/// report and recorded; the devices are awaited until they are there or the
/// time is up; a report that does not answer the pending request is a
/// failure.
pub open spec fn advanced(
    plan: PartitionPlanModel,
    mount_root: Seq<char>,
    state: ApplyStateModel,
    event: HostEventModel,
) -> Result<ApplyStateModel, RecpartErrorModel> {
    let steps = steps_of(plan, mount_root);
    match (state.stage, event) {
        (ApplyStage::Privilege, HostEventModel::Privilege { is_root }) => after_check(
            state,
            if is_root {
                None
            } else {
                Some(not_root_error())
            },
            ApplyStage::Tools,
        ),
        (ApplyStage::Tools, HostEventModel::Tools { found }) => after_check(
            state,
            tools_error(found),
            ApplyStage::BlockDevice,
        ),
        (ApplyStage::BlockDevice, HostEventModel::BlockDevice { stat }) => after_check(
            state,
            block_device_error(plan.disk.path, stat),
            ApplyStage::Writable,
        ),
        (ApplyStage::Writable, HostEventModel::Query { answer }) => after_check(
            state,
            writable_error(answer),
            ApplyStage::Mounted,
        ),
        (ApplyStage::Mounted, HostEventModel::Query { answer }) => after_check(
            state,
            mounted_error(answer),
            stage_of_step(steps, 0),
        ),
        (ApplyStage::Action { index }, HostEventModel::Performed { outcome }) => {
            if index < steps.len() {
                match action_result(steps[index as int], plan.disk.path, mount_root, outcome) {
                    Ok(record) => Ok(
                        ApplyStateModel {
                            stage: stage_after_step(steps, index as int),
                            steps: state.steps.push(record),
                        },
                    ),
                    Err(e) => Err(e),
                }
            } else {
                Err(protocol_error())
            }
        },
        (ApplyStage::Devices { index, waited_ms }, HostEventModel::Devices { missing }) => {
            if missing.len() == 0 {
                Ok(at_stage(state, stage_of_step(steps, index as int)))
            } else if waited_ms >= DEVICE_TIMEOUT_MS {
                Err(devices_missing_error(missing))
            } else {
                Ok(
                    at_stage(
                        state,
                        ApplyStage::Devices {
                            index,
                            waited_ms: (waited_ms + DEVICE_POLL_MS) as u64,
                        },
                    ),
                )
            }
        },
        _ => Err(protocol_error()),
    }
}

/// The state in which an apply begins, or the failure that refuses it. The
/// mount root is checked for every apply. A dry run is finished at once,
/// with a record for each step. A destructive apply must be confirmed and
/// then begins with its checks.
pub open spec fn begun(
    plan: PartitionPlanModel,
    dry_run: bool,
    token: Option<Seq<char>>,
    mount_root: Seq<char>,
    mount_root_protected: bool,
) -> Result<ApplyStateModel, RecpartErrorModel> {
    match mount_root_error(mount_root, mount_root_protected) {
        Some(e) => Err(e),
        None => {
            if dry_run {
                Ok(
                    ApplyStateModel {
                        stage: ApplyStage::Finished,
                        steps: dry_records(steps_of(plan, mount_root)),
                    },
                )
            } else if !is_confirmed(token) {
                Err(confirmation_error(shown_token(token)))
            } else {
                Ok(ApplyStateModel { stage: ApplyStage::Privilege, steps: Seq::empty() })
            }
        },
    }
}

/// What an apply of the plan came to, given the records of its steps.
pub open spec fn apply_result_of(
    plan: PartitionPlanModel,
    dry_run: bool,
    mount_root: Seq<char>,
    steps: Seq<CommandRecordModel>,
) -> ApplyResultModel {
    ApplyResultModel {
        schema_version: APPLY_SCHEMA_VERSION,
        mode: plan.mode,
        layout_request: plan.layout_request,
        resolved_layout: plan.resolved_layout,
        disk: plan.disk,
        dry_run,
        steps,
        partition_map: plan.partitions,
        formatted_devices: device_list(plan.disk.path, plan.partitions),
        mounted: mount_map(plan.disk.path, plan.mode, mount_root),
        handoff: handoff_for(
            plan.disk.path,
            plan.mode,
            mount_map(plan.disk.path, plan.mode, mount_root),
        ),
        warnings: Seq::empty(),
    }
}

/// The failure of a report that ended before the apply did.
pub open spec fn report_ended_error() -> RecpartErrorModel {
    RecpartErrorModel {
        code: ErrorCode::Internal,
        component: "apply"@,
        expectation: "the host reports every step until the apply is finished"@,
        observed: "the report ended while a request was pending"@,
        remediation: "Report what the host did for every request of the apply."@,
    }
}

/// The state that the reports lead to, taken one by one from the given
/// state until the apply is finished; reports behind the end are not looked
/// at.
pub open spec fn replayed(
    plan: PartitionPlanModel,
    mount_root: Seq<char>,
    state: ApplyStateModel,
    events: Seq<HostEventModel>,
) -> Result<ApplyStateModel, RecpartErrorModel>
    decreases events.len(),
{
    if state.stage is Finished {
        Ok(state)
    } else if events.len() == 0 {
        Err(report_ended_error())
    } else {
        match advanced(plan, mount_root, state, events[0]) {
            Err(e) => Err(e),
            Ok(next) => replayed(plan, mount_root, next, events.drop_first()),
        }
    }
}

/// What an apply comes to when the host reports the given events.
pub open spec fn executed(
    plan: PartitionPlanModel,
    dry_run: bool,
    token: Option<Seq<char>>,
    mount_root: Seq<char>,
    mount_root_protected: bool,
    events: Seq<HostEventModel>,
) -> Result<ApplyResultModel, RecpartErrorModel> {
    match begun(plan, dry_run, token, mount_root, mount_root_protected) {
        Err(e) => Err(e),
        Ok(state) => match replayed(plan, mount_root, state, events) {
            Err(e) => Err(e),
            Ok(last) => Ok(apply_result_of(plan, dry_run, mount_root, last.steps)),
        },
    }
}

/// True when `r` is the state, or the failure, that `expected` names.
pub open spec fn state_is(r: Result<ApplyState, RecpartError>, expected: Result<
    ApplyStateModel,
    RecpartErrorModel,
>) -> bool {
    match r {
        Ok(state) => expected == Ok::<ApplyStateModel, RecpartErrorModel>(state@),
        Err(e) => expected == Err::<ApplyStateModel, RecpartErrorModel>(e@),
    }
}

/// True when `r` is the result, or the failure, that `expected` names.
pub open spec fn result_is(r: Result<ApplyResult, RecpartError>, expected: Result<
    ApplyResultModel,
    RecpartErrorModel,
>) -> bool {
    match r {
        Ok(result) => expected == Ok::<ApplyResultModel, RecpartErrorModel>(result@),
        Err(e) => expected == Err::<ApplyResultModel, RecpartErrorModel>(e@),
    }
}

/// A destructive apply without the confirming word is refused with a
/// missing-confirmation error before anything is asked of the host: no
/// report is looked at.
pub proof fn lemma_unconfirmed_apply_is_refused(
    plan: PartitionPlanModel,
    token: Option<Seq<char>>,
    mount_root: Seq<char>,
    mount_root_protected: bool,
    events: Seq<HostEventModel>,
)
    requires
        mount_root_error(mount_root, mount_root_protected) is None,
        !is_confirmed(token),
    ensures
        executed(plan, false, token, mount_root, mount_root_protected, events) == Err::<
            ApplyResultModel,
            RecpartErrorModel,
        >(confirmation_error(shown_token(token))),
        executed(plan, false, token, mount_root, mount_root_protected, events)->Err_0.code
            == ErrorCode::MissingConfirmation,
{
}

/// A mount root that the protected-path check refuses lets no apply begin,
/// dry run or not: the apply fails with a mount-failure error.
pub proof fn lemma_protected_mount_root_is_refused(
    plan: PartitionPlanModel,
    dry_run: bool,
    token: Option<Seq<char>>,
    mount_root: Seq<char>,
    events: Seq<HostEventModel>,
)
    ensures
        executed(plan, dry_run, token, mount_root, true, events) is Err,
        executed(plan, dry_run, token, mount_root, true, events)->Err_0.code
            == ErrorCode::MountFailed,
{
}

/// A dry run under a safe mount root succeeds whatever the host reports,
/// needs no confirmation, asks nothing of the host (it is finished as soon
/// as it has begun), and gives the records of all steps, each without
/// status and marked as dry.
pub proof fn lemma_dry_run_is_pure(
    plan: PartitionPlanModel,
    token: Option<Seq<char>>,
    mount_root: Seq<char>,
    mount_root_protected: bool,
    events: Seq<HostEventModel>,
)
    requires
        mount_root_error(mount_root, mount_root_protected) is None,
    ensures
        executed(plan, true, token, mount_root, mount_root_protected, events) == Ok::<
            ApplyResultModel,
            RecpartErrorModel,
        >(apply_result_of(plan, true, mount_root, dry_records(steps_of(plan, mount_root)))),
        begun(plan, true, token, mount_root, mount_root_protected) is Ok,
        pending(
            plan,
            mount_root,
            begun(plan, true, token, mount_root, mount_root_protected)->Ok_0,
        ) is Finished,
        forall|i: int|
            0 <= i < steps_of(plan, mount_root).len() ==> {
                &&& (#[trigger] dry_records(steps_of(plan, mount_root))[i]).status is None
                &&& dry_records(steps_of(plan, mount_root))[i].dry_run
            },
{
}

/// In the result of a dry run, every record of the partition phase stands
/// before every record of the format phase, and those before every record
/// of the mount phase; the records of the partition phase are the first
/// three, for the signature wipe, the partitioning tool and the settling of
/// the device manager.
pub proof fn lemma_dry_run_result_is_phased(
    plan: PartitionPlanModel,
    token: Option<Seq<char>>,
    mount_root: Seq<char>,
    mount_root_protected: bool,
    events: Seq<HostEventModel>,
)
    requires
        mount_root_error(mount_root, mount_root_protected) is None,
    ensures
        executed(plan, true, token, mount_root, mount_root_protected, events) is Ok,
        ({
            let records = executed(plan, true, token, mount_root, mount_root_protected, events)->Ok_0.steps;
            &&& crate::exec::phases_in_order(records)
            &&& records.len() >= 3
            &&& records[0].program == "wipefs"@
            &&& records[1].program == "sfdisk"@
            &&& records[2].program == "udevadm"@
            &&& forall|i: int|
                0 <= i < records.len() ==> ((#[trigger] records[i]).phase == "partition"@ <==> i
                    < 3)
        }),
{
    crate::exec::lemma_dry_run_phases_in_order(
        plan.disk.path,
        plan.mode,
        plan.sfdisk_script,
        mount_root,
    );
}

/// In the result of an apply, dry run or not, the two-slot mode has exactly
/// three mounts, on paths that end in `/sysroot`, `/sysroot/boot` and
/// `/sysroot/state`; the single-root mode has exactly two, on the first two
/// of these, and none on a path that ends in `/state`.
pub proof fn lemma_result_mount_topology(
    plan: PartitionPlanModel,
    dry_run: bool,
    token: Option<Seq<char>>,
    mount_root: Seq<char>,
    mount_root_protected: bool,
    events: Seq<HostEventModel>,
)
    requires
        executed(plan, dry_run, token, mount_root, mount_root_protected, events) is Ok,
    ensures
        ({
            let map = executed(plan, dry_run, token, mount_root, mount_root_protected, events)->Ok_0.mounted;
            &&& map.len() == match plan.mode {
                crate::types::InstallMode::Ab => 3int,
                crate::types::InstallMode::Mutable => 2int,
            }
            &&& crate::text::ends_with(map[0].path, "/sysroot"@)
            &&& crate::text::ends_with(map[1].path, "/sysroot/boot"@)
            &&& plan.mode == crate::types::InstallMode::Ab ==> crate::text::ends_with(
                map[2].path,
                "/sysroot/state"@,
            )
            &&& plan.mode == crate::types::InstallMode::Mutable ==> forall|i: int|
                0 <= i < map.len() ==> !crate::text::ends_with(
                    (#[trigger] map[i]).path,
                    "/state"@,
                )
        }),
{
    crate::exec::lemma_mount_topology(plan.disk.path, plan.mode, mount_root);
}

/// The directory that the handoff names as the install target is the
/// `sysroot` directory under the mount root, and the commands that follow
/// are those for that directory.
pub proof fn lemma_install_target_is_sysroot(
    plan: PartitionPlanModel,
    dry_run: bool,
    token: Option<Seq<char>>,
    mount_root: Seq<char>,
    mount_root_protected: bool,
    events: Seq<HostEventModel>,
)
    requires
        executed(plan, dry_run, token, mount_root, mount_root_protected, events) is Ok,
    ensures
        ({
            let result = executed(plan, dry_run, token, mount_root, mount_root_protected, events)->Ok_0;
            &&& result.handoff.install_target == crate::exec::sysroot_dir(mount_root)
            &&& result.handoff.mount_map == result.mounted
            &&& result.handoff.next_commands == crate::handoff::next_commands(
                plan.mode,
                crate::exec::sysroot_dir(mount_root),
            )
        }),
{
    crate::exec::lemma_mount_topology(plan.disk.path, plan.mode, mount_root);
}

/// The same plan, options and reports always give the same outcome.
pub proof fn lemma_apply_is_deterministic(
    plan: &PartitionPlan,
    opts: &ApplyOptions,
    host: &HostReport,
    first: Result<ApplyResult, RecpartError>,
    second: Result<ApplyResult, RecpartError>,
)
    requires
        result_is(
            first,
            executed(
                plan@,
                opts.dry_run,
                opts.confirm_token.deep_view(),
                opts.mount_root@,
                host.mount_root_protected,
                host.events.deep_view(),
            ),
        ),
        result_is(
            second,
            executed(
                plan@,
                opts.dry_run,
                opts.confirm_token.deep_view(),
                opts.mount_root@,
                host.mount_root_protected,
                host.events.deep_view(),
            ),
        ),
    ensures
        first is Ok <==> second is Ok,
        first is Ok ==> first->Ok_0@ == second->Ok_0@,
        first is Err ==> first->Err_0@ == second->Err_0@,
{
}

/// True when the record is that of the step, carried out with success.
pub open spec fn records_step(step: ExecutionActionModel, record: CommandRecordModel) -> bool {
    &&& record.phase == step.phase()
    &&& record.command == step.rendered()
    &&& record.program == step.program_name()
    &&& record.args == step.args()
    &&& record.status == Some(0i32)
    &&& !record.dry_run
}

/// True when the state of a destructive apply is one that the steps allow:
/// nothing is recorded before the checks are through, the records are
/// those of the first steps in the steps' order, and the next step is the
/// one behind the last record.
pub open spec fn in_order(steps: Seq<ExecutionActionModel>, state: ApplyStateModel) -> bool {
    &&& state.steps.len() <= steps.len()
    &&& forall|i: int|
        0 <= i < state.steps.len() ==> records_step(steps[i], #[trigger] state.steps[i])
    &&& match state.stage {
        ApplyStage::Action { index } => state.steps.len() == index && index < steps.len(),
        ApplyStage::Devices { index, waited_ms } => state.steps.len() == index,
        ApplyStage::Finished => state.steps.len() == steps.len(),
        _ => state.steps.len() == 0,
    }
}

/// A report never takes a record away, changes one or lets a step be
/// skipped: a state that the steps allow is followed by one that they
/// allow.
pub proof fn lemma_advance_keeps_order(
    plan: PartitionPlanModel,
    mount_root: Seq<char>,
    state: ApplyStateModel,
    event: HostEventModel,
)
    requires
        in_order(steps_of(plan, mount_root), state),
        advanced(plan, mount_root, state, event) is Ok,
    ensures
        in_order(steps_of(plan, mount_root), advanced(plan, mount_root, state, event)->Ok_0),
{
    let steps = steps_of(plan, mount_root);
    let next = advanced(plan, mount_root, state, event)->Ok_0;
    match (state.stage, event) {
        (ApplyStage::Action { index }, HostEventModel::Performed { outcome }) => {
            let record = action_result(steps[index as int], plan.disk.path, mount_root, outcome)->Ok_0;
            assert(next.steps == state.steps.push(record));
            assert(records_step(steps[index as int], record));
            assert forall|i: int| 0 <= i < next.steps.len() implies records_step(
                steps[i],
                #[trigger] next.steps[i],
            ) by {
                if i < state.steps.len() {
                    assert(next.steps[i] == state.steps[i]);
                }
            }
        },
        _ => {
            assert(next.steps == state.steps);
        },
    }
}

/// Whatever the host reports, the states that follow one that the steps
/// allow are allowed by them too.
pub proof fn lemma_replay_keeps_order(
    plan: PartitionPlanModel,
    mount_root: Seq<char>,
    state: ApplyStateModel,
    events: Seq<HostEventModel>,
)
    requires
        in_order(steps_of(plan, mount_root), state),
        replayed(plan, mount_root, state, events) is Ok,
    ensures
        in_order(steps_of(plan, mount_root), replayed(plan, mount_root, state, events)->Ok_0),
        replayed(plan, mount_root, state, events)->Ok_0.stage is Finished,
    decreases events.len(),
{
    if !(state.stage is Finished) && events.len() > 0 {
        lemma_advance_keeps_order(plan, mount_root, state, events[0]);
        lemma_replay_keeps_order(
            plan,
            mount_root,
            advanced(plan, mount_root, state, events[0])->Ok_0,
            events.drop_first(),
        );
    }
}

/// A destructive apply that succeeds has carried out every step, each with
/// success, in the steps' order and none twice: its records are those of
/// the steps, one for one.
pub proof fn lemma_apply_follows_the_steps(
    plan: PartitionPlanModel,
    token: Option<Seq<char>>,
    mount_root: Seq<char>,
    mount_root_protected: bool,
    events: Seq<HostEventModel>,
)
    requires
        executed(plan, false, token, mount_root, mount_root_protected, events) is Ok,
    ensures
        ({
            let result = executed(plan, false, token, mount_root, mount_root_protected, events)->Ok_0;
            let steps = steps_of(plan, mount_root);
            &&& !result.dry_run
            &&& result.steps.len() == steps.len()
            &&& forall|i: int|
                0 <= i < steps.len() ==> records_step(steps[i], #[trigger] result.steps[i])
            &&& crate::exec::phases_in_order(result.steps)
        }),
{
    let start = begun(plan, false, token, mount_root, mount_root_protected)->Ok_0;
    lemma_replay_keeps_order(plan, mount_root, start, events);
    let result = executed(plan, false, token, mount_root, mount_root_protected, events)->Ok_0;
    let steps = steps_of(plan, mount_root);
    let dry = dry_records(steps);
    crate::exec::lemma_dry_run_phases_in_order(
        plan.disk.path,
        plan.mode,
        plan.sfdisk_script,
        mount_root,
    );
    assert forall|i: int, j: int| 0 <= i <= j < result.steps.len() implies crate::exec::phase_rank(
        #[trigger] result.steps[i].phase,
    ) <= crate::exec::phase_rank(#[trigger] result.steps[j].phase) by {
        assert(records_step(steps[i], result.steps[i]));
        assert(records_step(steps[j], result.steps[j]));
        assert(dry[i].phase == result.steps[i].phase);
        assert(dry[j].phase == result.steps[j].phase);
    }
}

/// A destructive apply that succeeds was confirmed and has passed every
/// check before its first step: the first five reports are those of the
/// checks, in the checks' order, and none of them found a fault.
pub proof fn lemma_apply_passes_every_check(
    plan: PartitionPlanModel,
    token: Option<Seq<char>>,
    mount_root: Seq<char>,
    mount_root_protected: bool,
    events: Seq<HostEventModel>,
)
    requires
        executed(plan, false, token, mount_root, mount_root_protected, events) is Ok,
    ensures
        mount_root_error(mount_root, mount_root_protected) is None,
        is_confirmed(token),
        events.len() >= 5,
        events[0] == (HostEventModel::Privilege { is_root: true }),
        events[1] is Tools && tools_error(events[1]->found) is None,
        events[2] is BlockDevice && block_device_error(plan.disk.path, events[2]->stat) is None,
        events[3] is Query && writable_error(events[3]->answer) is None,
        events[4] is Query && mounted_error(events[4]->answer) is None,
{
    let s0 = begun(plan, false, token, mount_root, mount_root_protected)->Ok_0;
    let e0 = events;
    assert(replayed(plan, mount_root, s0, e0) is Ok);
    let s1 = advanced(plan, mount_root, s0, e0[0])->Ok_0;
    let e1 = e0.drop_first();
    assert(replayed(plan, mount_root, s1, e1) is Ok);
    assert(s1.stage == ApplyStage::Tools);
    let s2 = advanced(plan, mount_root, s1, e1[0])->Ok_0;
    let e2 = e1.drop_first();
    assert(replayed(plan, mount_root, s2, e2) is Ok);
    assert(s2.stage == ApplyStage::BlockDevice);
    let s3 = advanced(plan, mount_root, s2, e2[0])->Ok_0;
    let e3 = e2.drop_first();
    assert(replayed(plan, mount_root, s3, e3) is Ok);
    assert(s3.stage == ApplyStage::Writable);
    let s4 = advanced(plan, mount_root, s3, e3[0])->Ok_0;
    let e4 = e3.drop_first();
    assert(replayed(plan, mount_root, s4, e4) is Ok);
    assert(s4.stage == ApplyStage::Mounted);
    assert(e1[0] == events[1]);
    assert(e2[0] == events[2]);
    assert(e3[0] == events[3]);
    assert(e4[0] == events[4]);
}

fn protocol_failure() -> (r: RecpartError)
    ensures
        r@ == protocol_error(),
{
    RecpartError::new(
        ErrorCode::Internal,
        "apply",
        "the host answers the pending request",
        "a report that does not belong to the pending request",
        "Report what was asked for last, and nothing once the apply is finished.",
    )
}

fn step_stage(count: usize, index: usize) -> (r: ApplyStage)
    ensures
        r == if index < count {
            ApplyStage::Action { index }
        } else {
            ApplyStage::Finished
        },
{
    if index < count {
        ApplyStage::Action { index }
    } else {
        ApplyStage::Finished
    }
}

fn next_stage(actions: &Vec<ExecutionAction>, index: usize) -> (r: ApplyStage)
    requires
        index < actions.len(),
    ensures
        r == stage_after_step(actions.deep_view(), index as int),
{
    let n: usize = actions.len();
    assert(actions.deep_view().len() == n);
    assert(actions.deep_view()[index as int] == actions@[index as int]@);
    let in_partition = same_text(actions[index].phase(), "partition");
    let last_of_phase = if index + 1 >= n {
        true
    } else {
        assert(actions.deep_view()[index as int + 1] == actions@[index as int + 1]@);
        !same_text(actions[index + 1].phase(), "partition")
    };
    if in_partition && last_of_phase {
        ApplyStage::Devices { index: index + 1, waited_ms: 0 }
    } else {
        step_stage(n, index + 1)
    }
}

/// Begins an apply: checks the mount root, finishes a dry run at once and
/// asks for the confirmation of a destructive apply. `mount_root_protected`
/// is what the protected-path check said of the mount root.
pub fn begin_apply(plan: &PartitionPlan, opts: &ApplyOptions, mount_root_protected: bool) -> (r:
    Result<ApplyState, RecpartError>)
    ensures
        state_is(
            r,
            begun(
                plan@,
                opts.dry_run,
                opts.confirm_token.deep_view(),
                opts.mount_root@,
                mount_root_protected,
            ),
        ),
{
    match ensure_mount_root_safe(opts.mount_root.as_str(), mount_root_protected) {
        Err(e) => {
            return Err(e);
        },
        Ok(_) => {},
    }
    if opts.dry_run {
        let actions = build_apply_actions(plan, opts.mount_root.as_str());
        let steps = dry_run_records(&actions);
        return Ok(ApplyState { stage: ApplyStage::Finished, steps });
    }
    match ensure_confirmation(&opts.confirm_token) {
        Err(e) => {
            return Err(e);
        },
        Ok(_) => {},
    }
    let steps: Vec<CommandRecord> = Vec::new();
    assert(steps.deep_view() =~= Seq::<CommandRecordModel>::empty());
    Ok(ApplyState { stage: ApplyStage::Privilege, steps })
}

fn query_request(flags: &str, column: &str, disk: &str) -> (r: HostRequest)
    ensures
        r@ == (HostRequestModel::Query {
            program: "lsblk"@,
            args: seq![flags@, "-o"@, column@, disk@],
        }),
{
    let mut args: Vec<String> = Vec::new();
    args.push(text(flags));
    args.push(text("-o"));
    args.push(text(column));
    args.push(text(disk));
    assert(args.deep_view() =~= seq![flags@, "-o"@, column@, disk@]);
    HostRequest::Query { program: text("lsblk"), args }
}

/// What the host has to do next.
pub fn pending_request(plan: &PartitionPlan, opts: &ApplyOptions, state: &ApplyState) -> (r:
    HostRequest)
    ensures
        r@ == pending(plan@, opts.mount_root@, state@),
{
    match state.stage {
        ApplyStage::Privilege => HostRequest::Privilege,
        ApplyStage::Tools => HostRequest::Tools { tools: required_tools() },
        ApplyStage::BlockDevice => HostRequest::BlockDevice { path: plan.disk.path.clone() },
        ApplyStage::Writable => query_request("-dn", "RO", plan.disk.path.as_str()),
        ApplyStage::Mounted => query_request("-nr", "MOUNTPOINT", plan.disk.path.as_str()),
        ApplyStage::Action { index } => {
            let actions = build_apply_actions(plan, opts.mount_root.as_str());
            assert(actions.deep_view().len() == actions.len());
            if index < actions.len() {
                assert(actions.deep_view()[index as int] == actions@[index as int]@);
                HostRequest::Perform { action: actions[index].clone() }
            } else {
                HostRequest::Finished
            }
        },
        ApplyStage::Devices { index, waited_ms } => HostRequest::Devices {
            devices: formatted_devices(plan),
            pause_ms: if waited_ms == 0 {
                0
            } else {
                DEVICE_POLL_MS
            },
        },
        ApplyStage::Finished => HostRequest::Finished,
    }
}

fn checked(state: ApplyState, verdict: Result<(), RecpartError>, next: ApplyStage) -> (r: Result<
    ApplyState,
    RecpartError,
>)
    ensures
        forall|fault: Option<RecpartErrorModel>|
            crate::preflight::verdict_is(verdict, fault) ==> state_is(
                r,
                after_check(state@, fault, next),
            ),
{
    match verdict {
        Err(e) => Err(e),
        Ok(_) => Ok(ApplyState { stage: next, steps: state.steps }),
    }
}

/// Takes the host's report of the pending request and moves the apply on,
/// or fails.
pub fn advance_apply(
    plan: &PartitionPlan,
    opts: &ApplyOptions,
    state: ApplyState,
    event: &HostEvent,
) -> (r: Result<ApplyState, RecpartError>)
    ensures
        state_is(r, advanced(plan@, opts.mount_root@, state@, event@)),
{
    let ghost steps = steps_of(plan@, opts.mount_root@);
    match state.stage {
        ApplyStage::Privilege => match event {
            HostEvent::Privilege { is_root } => {
                let verdict = ensure_root_for_apply(*is_root);
                assert(crate::preflight::verdict_is(
                    verdict,
                    if *is_root {
                        None
                    } else {
                        Some(not_root_error())
                    },
                ));
                checked(state, verdict, ApplyStage::Tools)
            },
            _ => Err(protocol_failure()),
        },
        ApplyStage::Tools => match event {
            HostEvent::Tools { found } => checked(
                state,
                ensure_required_tools(found),
                ApplyStage::BlockDevice,
            ),
            _ => Err(protocol_failure()),
        },
        ApplyStage::BlockDevice => match event {
            HostEvent::BlockDevice { stat } => checked(
                state,
                ensure_block_device(plan.disk.path.as_str(), stat),
                ApplyStage::Writable,
            ),
            _ => Err(protocol_failure()),
        },
        ApplyStage::Writable => match event {
            HostEvent::Query { answer } => checked(
                state,
                ensure_disk_writable(answer),
                ApplyStage::Mounted,
            ),
            _ => Err(protocol_failure()),
        },
        ApplyStage::Mounted => match event {
            HostEvent::Query { answer } => {
                let actions = build_apply_actions(plan, opts.mount_root.as_str());
                assert(actions.deep_view().len() == actions.len());
                checked(state, ensure_disk_not_mounted(answer), step_stage(actions.len(), 0))
            },
            _ => Err(protocol_failure()),
        },
        ApplyStage::Action { index } => match event {
            HostEvent::Performed { outcome } => {
                let actions = build_apply_actions(plan, opts.mount_root.as_str());
                assert(actions.deep_view().len() == actions.len());
                if index < actions.len() {
                    assert(actions.deep_view()[index as int] == actions@[index as int]@);
                    match run_action(&actions[index], plan, opts.mount_root.as_str(), outcome) {
                        Err(e) => Err(e),
                        Ok(record) => {
                            let stage = next_stage(&actions, index);
                            let mut done = state.steps;
                            let ghost before = done.deep_view();
                            done.push(record);
                            assert(done.deep_view() =~= before.push(record@));
                            Ok(ApplyState { stage, steps: done })
                        },
                    }
                } else {
                    Err(protocol_failure())
                }
            },
            _ => Err(protocol_failure()),
        },
        ApplyStage::Devices { index, waited_ms } => match event {
            HostEvent::Devices { missing } => {
                let actions = build_apply_actions(plan, opts.mount_root.as_str());
                assert(actions.deep_view().len() == actions.len());
                assert(missing.deep_view().len() == missing.len());
                match wait_for_partition_devices(missing, waited_ms) {
                    Err(e) => Err(e),
                    Ok(WaitVerdict::Ready) => Ok(
                        ApplyState { stage: step_stage(actions.len(), index), steps: state.steps },
                    ),
                    Ok(WaitVerdict::Retry) => Ok(
                        ApplyState {
                            stage: ApplyStage::Devices {
                                index,
                                waited_ms: waited_ms + DEVICE_POLL_MS,
                            },
                            steps: state.steps,
                        },
                    ),
                }
            },
            _ => Err(protocol_failure()),
        },
        ApplyStage::Finished => Err(protocol_failure()),
    }
}

pub(crate) fn report_ended_failure() -> (r: RecpartError)
    ensures
        r@ == report_ended_error(),
{
    RecpartError::new(
        ErrorCode::Internal,
        "apply",
        "the host reports every step until the apply is finished",
        "the report ended while a request was pending",
        "Report what the host did for every request of the apply.",
    )
}

/// True when nothing is left to do.
pub fn is_finished(state: &ApplyState) -> (r: bool)
    ensures
        r == (state.stage is Finished),
{
    match state.stage {
        ApplyStage::Finished => true,
        _ => false,
    }
}

/// The result of an apply that is finished; nothing while it is not.
pub fn finish_apply(plan: &PartitionPlan, opts: &ApplyOptions, state: ApplyState) -> (r: Option<
    ApplyResult,
>)
    ensures
        r is Some <==> state.stage is Finished,
        r is Some ==> r->0@ == apply_result_of(
            plan@,
            opts.dry_run,
            opts.mount_root@,
            state.steps.deep_view(),
        ),
{
    if !is_finished(&state) {
        return None;
    }
    let mounted = mount_map_for_plan(plan, opts.mount_root.as_str());
    let handoff = build_handoff(plan, clone_mappings(&mounted));
    let warnings: Vec<String> = Vec::new();
    assert(warnings.deep_view() =~= Seq::<Seq<char>>::empty());
    Some(
        ApplyResult {
            schema_version: APPLY_SCHEMA_VERSION,
            mode: plan.mode,
            layout_request: plan.layout_request,
            resolved_layout: plan.resolved_layout,
            disk: plan.disk.clone(),
            dry_run: opts.dry_run,
            steps: state.steps,
            partition_map: clone_templates(&plan.partitions),
            formatted_devices: formatted_devices(plan),
            mounted,
            handoff,
            warnings,
        },
    )
}

} // verus!
