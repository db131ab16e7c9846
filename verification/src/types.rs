//! The records that plans and apply runs are made of. Each record that holds
//! text has a model: the same record with its texts as character sequences,
//! which is what the contracts speak of.

use vstd::prelude::*;

verus! {

/// The version of a plan's layout.
pub const PLAN_SCHEMA_VERSION: u32 = 1;

/// The version of an apply result's layout.
pub const APPLY_SCHEMA_VERSION: u32 = 1;

/// The version of a handoff's layout.
pub const HANDOFF_SCHEMA_VERSION: u32 = 1;

/// The version of an error payload's layout.
pub const ERROR_SCHEMA_VERSION: u32 = 1;

/// The install topology: two root slots with a shared state partition, or
/// one writable root.
#[derive(Debug, Clone, Copy, PartialEq, Eq, Structural)]
pub enum InstallMode {
    Ab,
    Mutable,
}

impl Default for InstallMode {
    fn default() -> (r: Self)
        ensures
            r == InstallMode::Ab,
    {
        InstallMode::Ab
    }
}

impl InstallMode {
    /// The mode's name as it is written in messages and records.
    pub open spec fn name(self) -> Seq<char> {
        match self {
            InstallMode::Ab => "ab"@,
            InstallMode::Mutable => "mutable"@,
        }
    }

    /// The mode's name as it is written in messages and records.
    pub fn to_text(&self) -> (r: String)
        ensures
            r@ == self.name(),
    {
        match self {
            InstallMode::Ab => crate::text::text("ab"),
            InstallMode::Mutable => crate::text::text("mutable"),
        }
    }
}

/// A whole disk as the disk query reported it.
#[derive(Debug, PartialEq, Eq)]
pub struct DiskTarget {
    pub path: String,
    pub size_bytes: u64,
    pub logical_sector_bytes: u32,
    pub physical_sector_bytes: u32,
}

/// A disk, with its path as a character sequence.
pub struct DiskTargetModel {
    pub path: Seq<char>,
    pub size_bytes: u64,
    pub logical_sector_bytes: u32,
    pub physical_sector_bytes: u32,
}

impl View for DiskTarget {
    type V = DiskTargetModel;

    open spec fn view(&self) -> DiskTargetModel {
        DiskTargetModel {
            path: self.path@,
            size_bytes: self.size_bytes,
            logical_sector_bytes: self.logical_sector_bytes,
            physical_sector_bytes: self.physical_sector_bytes,
        }
    }
}

impl Clone for DiskTarget {
    fn clone(&self) -> (r: Self)
        ensures
            r@ == self@,
    {
        DiskTarget {
            path: self.path.clone(),
            size_bytes: self.size_bytes,
            logical_sector_bytes: self.logical_sector_bytes,
            physical_sector_bytes: self.physical_sector_bytes,
        }
    }
}

/// A partition that is described and not yet created.
#[derive(Debug, PartialEq, Eq)]
pub struct PartitionTemplate {
    pub index: u8,
    pub name: String,
    pub filesystem: String,
    pub label: String,
    pub gpt_type: String,
    pub size_mb: Option<u32>,
    pub mountpoint: String,
}

/// A partition template, with its texts as character sequences.
pub struct PartitionTemplateModel {
    pub index: u8,
    pub name: Seq<char>,
    pub filesystem: Seq<char>,
    pub label: Seq<char>,
    pub gpt_type: Seq<char>,
    pub size_mb: Option<u32>,
    pub mountpoint: Seq<char>,
}

impl View for PartitionTemplate {
    type V = PartitionTemplateModel;

    open spec fn view(&self) -> PartitionTemplateModel {
        PartitionTemplateModel {
            index: self.index,
            name: self.name@,
            filesystem: self.filesystem@,
            label: self.label@,
            gpt_type: self.gpt_type@,
            size_mb: self.size_mb,
            mountpoint: self.mountpoint@,
        }
    }
}

impl DeepView for PartitionTemplate {
    type V = PartitionTemplateModel;

    open spec fn deep_view(&self) -> PartitionTemplateModel {
        self@
    }
}

impl Clone for PartitionTemplate {
    fn clone(&self) -> (r: Self)
        ensures
            r@ == self@,
    {
        PartitionTemplate {
            index: self.index,
            name: self.name.clone(),
            filesystem: self.filesystem.clone(),
            label: self.label.clone(),
            gpt_type: self.gpt_type.clone(),
            size_mb: self.size_mb,
            mountpoint: self.mountpoint.clone(),
        }
    }
}

/// Sizes in MB that the caller asks for; an absent size leaves the choice to
/// the policy.
#[derive(Debug, Clone, Copy, PartialEq, Eq, Structural)]
pub struct LayoutRequest {
    pub efi_size_mb: Option<u32>,
    pub root_size_mb: Option<u32>,
    pub root_a_size_mb: Option<u32>,
    pub root_b_size_mb: Option<u32>,
    pub state_size_mb: Option<u32>,
}

impl Default for LayoutRequest {
    fn default() -> (r: Self)
        ensures
            r == LayoutRequest::empty(),
    {
        LayoutRequest {
            efi_size_mb: None,
            root_size_mb: None,
            root_a_size_mb: None,
            root_b_size_mb: None,
            state_size_mb: None,
        }
    }
}

impl LayoutRequest {
    /// The request that asks for nothing.
    pub open spec fn empty() -> LayoutRequest {
        LayoutRequest {
            efi_size_mb: None,
            root_size_mb: None,
            root_a_size_mb: None,
            root_b_size_mb: None,
            state_size_mb: None,
        }
    }
}

/// Sizes in MB after the policy's defaults were applied. An absent size of
/// the mode's last partition means that it takes the space that is left.
#[derive(Debug, Clone, Copy, PartialEq, Eq, Structural)]
pub struct ResolvedLayout {
    pub mode: InstallMode,
    pub efi_size_mb: u32,
    pub root_size_mb: Option<u32>,
    pub root_a_size_mb: Option<u32>,
    pub root_b_size_mb: Option<u32>,
    pub state_size_mb: Option<u32>,
}

impl ResolvedLayout {
    /// Only the sizes of the layout's own mode are present: both root slots
    /// in the two-slot mode, neither slot nor a state size in the other.
    pub open spec fn well_formed(self) -> bool {
        match self.mode {
            InstallMode::Ab => {
                &&& self.root_size_mb is None
                &&& self.root_a_size_mb is Some
                &&& self.root_b_size_mb is Some
            },
            InstallMode::Mutable => {
                &&& self.root_a_size_mb is None
                &&& self.root_b_size_mb is None
                &&& self.state_size_mb is None
            },
        }
    }
}

/// A layout worked out for one disk: what was asked, what was resolved, the
/// partitions in their order on disk and the partition-table script.
#[derive(Debug, PartialEq, Eq)]
pub struct PartitionPlan {
    pub schema_version: u32,
    pub mode: InstallMode,
    pub layout_request: LayoutRequest,
    pub resolved_layout: ResolvedLayout,
    pub disk: DiskTarget,
    pub partitions: Vec<PartitionTemplate>,
    pub sfdisk_script: String,
}

/// A plan, with its texts as character sequences.
pub struct PartitionPlanModel {
    pub schema_version: u32,
    pub mode: InstallMode,
    pub layout_request: LayoutRequest,
    pub resolved_layout: ResolvedLayout,
    pub disk: DiskTargetModel,
    pub partitions: Seq<PartitionTemplateModel>,
    pub sfdisk_script: Seq<char>,
}

impl View for PartitionPlan {
    type V = PartitionPlanModel;

    open spec fn view(&self) -> PartitionPlanModel {
        PartitionPlanModel {
            schema_version: self.schema_version,
            mode: self.mode,
            layout_request: self.layout_request,
            resolved_layout: self.resolved_layout,
            disk: self.disk@,
            partitions: self.partitions.deep_view(),
            sfdisk_script: self.sfdisk_script@,
        }
    }
}

/// A copy of the templates.
pub fn clone_templates(items: &Vec<PartitionTemplate>) -> (r: Vec<PartitionTemplate>)
    ensures
        r.deep_view() == items.deep_view(),
{
    let mut out: Vec<PartitionTemplate> = Vec::new();
    let n: usize = items.len();
    let mut i: usize = 0;
    while i < n
        invariant
            i <= n,
            n == items.len(),
            out.len() == i,
            forall|k: int| 0 <= k < i ==> out@[k]@ == items@[k]@,
        decreases n - i,
    {
        out.push(items[i].clone());
        i += 1;
    }
    assert(out.deep_view() =~= items.deep_view());
    out
}

/// A copy of the texts.
pub fn clone_texts(items: &Vec<String>) -> (r: Vec<String>)
    ensures
        r.deep_view() == items.deep_view(),
{
    let mut out: Vec<String> = Vec::new();
    let n: usize = items.len();
    let mut i: usize = 0;
    while i < n
        invariant
            i <= n,
            n == items.len(),
            out.len() == i,
            forall|k: int| 0 <= k < i ==> out@[k]@ == items@[k]@,
        decreases n - i,
    {
        out.push(items[i].clone());
        i += 1;
    }
    assert(out.deep_view() =~= items.deep_view());
    out
}

/// A copy of an optional text.
pub fn clone_optional_text(item: &Option<String>) -> (r: Option<String>)
    ensures
        r.deep_view() == item.deep_view(),
{
    match item {
        Some(s) => Some(s.clone()),
        None => None,
    }
}

impl Clone for PartitionPlan {
    fn clone(&self) -> (r: Self)
        ensures
            r@ == self@,
    {
        PartitionPlan {
            schema_version: self.schema_version,
            mode: self.mode,
            layout_request: self.layout_request,
            resolved_layout: self.resolved_layout,
            disk: self.disk.clone(),
            partitions: clone_templates(&self.partitions),
            sfdisk_script: self.sfdisk_script.clone(),
        }
    }
}

/// How an apply is to be carried out.
#[derive(Debug)]
pub struct ApplyOptions {
    pub dry_run: bool,
    pub confirm_token: Option<String>,
    pub mount_root: String,
}

impl Clone for ApplyOptions {
    fn clone(&self) -> (r: Self)
        ensures
            r.dry_run == self.dry_run,
            r.confirm_token.deep_view() == self.confirm_token.deep_view(),
            r.mount_root@ == self.mount_root@,
    {
        ApplyOptions {
            dry_run: self.dry_run,
            confirm_token: clone_optional_text(&self.confirm_token),
            mount_root: self.mount_root.clone(),
        }
    }
}

/// A device and the directory it is mounted on.
#[derive(Debug, PartialEq, Eq)]
pub struct MountMapping {
    pub path: String,
    pub device: String,
}

/// A mount, with its texts as character sequences.
pub struct MountMappingModel {
    pub path: Seq<char>,
    pub device: Seq<char>,
}

impl View for MountMapping {
    type V = MountMappingModel;

    open spec fn view(&self) -> MountMappingModel {
        MountMappingModel { path: self.path@, device: self.device@ }
    }
}

impl DeepView for MountMapping {
    type V = MountMappingModel;

    open spec fn deep_view(&self) -> MountMappingModel {
        self@
    }
}

impl Clone for MountMapping {
    fn clone(&self) -> (r: Self)
        ensures
            r@ == self@,
    {
        MountMapping { path: self.path.clone(), device: self.device.clone() }
    }
}

/// A copy of the mappings.
pub fn clone_mappings(items: &Vec<MountMapping>) -> (r: Vec<MountMapping>)
    ensures
        r.deep_view() == items.deep_view(),
{
    let mut out: Vec<MountMapping> = Vec::new();
    let n: usize = items.len();
    let mut i: usize = 0;
    while i < n
        invariant
            i <= n,
            n == items.len(),
            out.len() == i,
            forall|k: int| 0 <= k < i ==> out@[k]@ == items@[k]@,
        decreases n - i,
    {
        out.push(items[i].clone());
        i += 1;
    }
    assert(out.deep_view() =~= items.deep_view());
    out
}

/// What the next tool needs to know about the slots of a two-slot install.
#[derive(Debug, PartialEq, Eq)]
pub struct ModeContext {
    pub install_target_slot: Option<String>,
    pub inactive_slot_hint: Option<String>,
    pub slot_a_device: Option<String>,
    pub slot_b_device: Option<String>,
    pub notes: Vec<String>,
}

/// The slots' context, with its texts as character sequences.
pub struct ModeContextModel {
    pub install_target_slot: Option<Seq<char>>,
    pub inactive_slot_hint: Option<Seq<char>>,
    pub slot_a_device: Option<Seq<char>>,
    pub slot_b_device: Option<Seq<char>>,
    pub notes: Seq<Seq<char>>,
}

impl View for ModeContext {
    type V = ModeContextModel;

    open spec fn view(&self) -> ModeContextModel {
        ModeContextModel {
            install_target_slot: self.install_target_slot.deep_view(),
            inactive_slot_hint: self.inactive_slot_hint.deep_view(),
            slot_a_device: self.slot_a_device.deep_view(),
            slot_b_device: self.slot_b_device.deep_view(),
            notes: self.notes.deep_view(),
        }
    }
}

impl Clone for ModeContext {
    fn clone(&self) -> (r: Self)
        ensures
            r@ == self@,
    {
        ModeContext {
            install_target_slot: clone_optional_text(&self.install_target_slot),
            inactive_slot_hint: clone_optional_text(&self.inactive_slot_hint),
            slot_a_device: clone_optional_text(&self.slot_a_device),
            slot_b_device: clone_optional_text(&self.slot_b_device),
            notes: clone_texts(&self.notes),
        }
    }
}

/// What follows a successful apply: where the system was mounted and which
/// commands come next.
#[derive(Debug, PartialEq, Eq)]
pub struct HandoffPayload {
    pub schema_version: u32,
    pub mode: InstallMode,
    pub install_target: String,
    pub mount_map: Vec<MountMapping>,
    pub next_commands: Vec<String>,
    pub mode_context: ModeContext,
}

/// A handoff, with its texts as character sequences.
pub struct HandoffPayloadModel {
    pub schema_version: u32,
    pub mode: InstallMode,
    pub install_target: Seq<char>,
    pub mount_map: Seq<MountMappingModel>,
    pub next_commands: Seq<Seq<char>>,
    pub mode_context: ModeContextModel,
}

impl View for HandoffPayload {
    type V = HandoffPayloadModel;

    open spec fn view(&self) -> HandoffPayloadModel {
        HandoffPayloadModel {
            schema_version: self.schema_version,
            mode: self.mode,
            install_target: self.install_target@,
            mount_map: self.mount_map.deep_view(),
            next_commands: self.next_commands.deep_view(),
            mode_context: self.mode_context@,
        }
    }
}

impl Clone for HandoffPayload {
    fn clone(&self) -> (r: Self)
        ensures
            r@ == self@,
    {
        HandoffPayload {
            schema_version: self.schema_version,
            mode: self.mode,
            install_target: self.install_target.clone(),
            mount_map: clone_mappings(&self.mount_map),
            next_commands: clone_texts(&self.next_commands),
            mode_context: self.mode_context.clone(),
        }
    }
}

/// One entry of the audit trail: a command, and what became of it unless the
/// run was a dry run.
#[derive(Debug, PartialEq, Eq)]
pub struct CommandRecord {
    pub phase: String,
    pub command: String,
    pub program: String,
    pub args: Vec<String>,
    pub status: Option<i32>,
    pub stdout: Option<String>,
    pub stderr: Option<String>,
    pub dry_run: bool,
}

/// A record, with its texts as character sequences.
pub struct CommandRecordModel {
    pub phase: Seq<char>,
    pub command: Seq<char>,
    pub program: Seq<char>,
    pub args: Seq<Seq<char>>,
    pub status: Option<i32>,
    pub stdout: Option<Seq<char>>,
    pub stderr: Option<Seq<char>>,
    pub dry_run: bool,
}

impl View for CommandRecord {
    type V = CommandRecordModel;

    open spec fn view(&self) -> CommandRecordModel {
        CommandRecordModel {
            phase: self.phase@,
            command: self.command@,
            program: self.program@,
            args: self.args.deep_view(),
            status: self.status,
            stdout: self.stdout.deep_view(),
            stderr: self.stderr.deep_view(),
            dry_run: self.dry_run,
        }
    }
}

impl DeepView for CommandRecord {
    type V = CommandRecordModel;

    open spec fn deep_view(&self) -> CommandRecordModel {
        self@
    }
}

impl Clone for CommandRecord {
    fn clone(&self) -> (r: Self)
        ensures
            r@ == self@,
    {
        CommandRecord {
            phase: self.phase.clone(),
            command: self.command.clone(),
            program: self.program.clone(),
            args: clone_texts(&self.args),
            status: self.status,
            stdout: clone_optional_text(&self.stdout),
            stderr: clone_optional_text(&self.stderr),
            dry_run: self.dry_run,
        }
    }
}

/// A copy of the records.
pub fn clone_records(items: &Vec<CommandRecord>) -> (r: Vec<CommandRecord>)
    ensures
        r.deep_view() == items.deep_view(),
{
    let mut out: Vec<CommandRecord> = Vec::new();
    let n: usize = items.len();
    let mut i: usize = 0;
    while i < n
        invariant
            i <= n,
            n == items.len(),
            out.len() == i,
            forall|k: int| 0 <= k < i ==> out@[k]@ == items@[k]@,
        decreases n - i,
    {
        out.push(items[i].clone());
        i += 1;
    }
    assert(out.deep_view() =~= items.deep_view());
    out
}

/// What an apply run did, or would do when it was a dry run.
#[derive(Debug, PartialEq, Eq)]
pub struct ApplyResult {
    pub schema_version: u32,
    pub mode: InstallMode,
    pub layout_request: LayoutRequest,
    pub resolved_layout: ResolvedLayout,
    pub disk: DiskTarget,
    pub dry_run: bool,
    pub steps: Vec<CommandRecord>,
    pub partition_map: Vec<PartitionTemplate>,
    pub formatted_devices: Vec<String>,
    pub mounted: Vec<MountMapping>,
    pub handoff: HandoffPayload,
    pub warnings: Vec<String>,
}

/// An apply result, with its texts as character sequences.
pub struct ApplyResultModel {
    pub schema_version: u32,
    pub mode: InstallMode,
    pub layout_request: LayoutRequest,
    pub resolved_layout: ResolvedLayout,
    pub disk: DiskTargetModel,
    pub dry_run: bool,
    pub steps: Seq<CommandRecordModel>,
    pub partition_map: Seq<PartitionTemplateModel>,
    pub formatted_devices: Seq<Seq<char>>,
    pub mounted: Seq<MountMappingModel>,
    pub handoff: HandoffPayloadModel,
    pub warnings: Seq<Seq<char>>,
}

impl View for ApplyResult {
    type V = ApplyResultModel;

    open spec fn view(&self) -> ApplyResultModel {
        ApplyResultModel {
            schema_version: self.schema_version,
            mode: self.mode,
            layout_request: self.layout_request,
            resolved_layout: self.resolved_layout,
            disk: self.disk@,
            dry_run: self.dry_run,
            steps: self.steps.deep_view(),
            partition_map: self.partition_map.deep_view(),
            formatted_devices: self.formatted_devices.deep_view(),
            mounted: self.mounted.deep_view(),
            handoff: self.handoff@,
            warnings: self.warnings.deep_view(),
        }
    }
}

impl Clone for ApplyResult {
    fn clone(&self) -> (r: Self)
        ensures
            r@ == self@,
    {
        ApplyResult {
            schema_version: self.schema_version,
            mode: self.mode,
            layout_request: self.layout_request,
            resolved_layout: self.resolved_layout,
            disk: self.disk.clone(),
            dry_run: self.dry_run,
            steps: clone_records(&self.steps),
            partition_map: clone_templates(&self.partition_map),
            formatted_devices: clone_texts(&self.formatted_devices),
            mounted: clone_mappings(&self.mounted),
            handoff: self.handoff.clone(),
            warnings: clone_texts(&self.warnings),
        }
    }
}

/// An error as it is handed to machines.
#[derive(Debug, PartialEq, Eq)]
pub struct ErrorPayload {
    pub schema_version: u32,
    pub code: String,
    pub component: String,
    pub expectation: String,
    pub observed: String,
    pub remediation: String,
}

/// An error payload, with its texts as character sequences.
pub struct ErrorPayloadModel {
    pub schema_version: u32,
    pub code: Seq<char>,
    pub component: Seq<char>,
    pub expectation: Seq<char>,
    pub observed: Seq<char>,
    pub remediation: Seq<char>,
}

impl View for ErrorPayload {
    type V = ErrorPayloadModel;

    open spec fn view(&self) -> ErrorPayloadModel {
        ErrorPayloadModel {
            schema_version: self.schema_version,
            code: self.code@,
            component: self.component@,
            expectation: self.expectation@,
            observed: self.observed@,
            remediation: self.remediation@,
        }
    }
}

impl Clone for ErrorPayload {
    fn clone(&self) -> (r: Self)
        ensures
            r@ == self@,
    {
        ErrorPayload {
            schema_version: self.schema_version,
            code: self.code.clone(),
            component: self.component.clone(),
            expectation: self.expectation.clone(),
            observed: self.observed.clone(),
            remediation: self.remediation.clone(),
        }
    }
}

} // verus!
