//! The plan builder: a resolved layout and a disk become an ordered list of
//! partitions and the partition-table script that creates them.

use vstd::prelude::*;
use vstd::string::*;
use crate::error::{ErrorCode, RecpartError, RecpartErrorModel};
use crate::policy::{
    build_templates, lemma_resolved_layout_is_sound, min_required_mb, required_min_mb,
    resolve_error, resolve_layout_request, resolved_layout, templates,
};
use crate::text::{
    decimal, decimal_text, is_digit, is_digit_char, last_char, text, wide_decimal_text,
};
use crate::types::{
    DiskTarget, DiskTargetModel, InstallMode, LayoutRequest, PartitionPlan, PartitionPlanModel,
    PartitionTemplate, PartitionTemplateModel, PLAN_SCHEMA_VERSION,
};

verus! {

/// Bytes in one MB.
pub const MB: u64 = 1048576;

/// The disk's capacity in whole MB.
pub open spec fn disk_capacity_mb(size_bytes: u64) -> int {
    size_bytes as int / MB as int
}

/// The refusal of a disk that is smaller than the layout's minimum.
pub open spec fn capacity_error(
    min_required: int,
    mode: InstallMode,
    disk_mb: int,
) -> RecpartErrorModel {
    RecpartErrorModel {
        code: ErrorCode::PlanGeneration,
        component: "plan"@,
        expectation: "disk must have at least "@ + decimal(min_required as nat) + "MB for mode "@
            + mode.name(),
        observed: "disk has "@ + decimal(disk_mb as nat) + "MB"@,
        remediation: "Choose a larger disk or adjust partition policy defaults."@,
    }
}

/// The size that a partition fixes, or zero where it takes what is left.
pub open spec fn fixed_size(t: PartitionTemplateModel) -> int {
    match t.size_mb {
        Some(v) => v as int,
        None => 0,
    }
}

/// The sum of all fixed sizes.
pub open spec fn fixed_sum(parts: Seq<PartitionTemplateModel>) -> int
    decreases parts.len(),
{
    if parts.len() == 0 {
        0
    } else {
        fixed_sum(parts.drop_last()) + fixed_size(parts.last())
    }
}

/// True when some partition takes the space that is left.
pub open spec fn has_remaining(parts: Seq<PartitionTemplateModel>) -> bool {
    exists|i: int| 0 <= i < parts.len() && (#[trigger] parts[i]).size_mb is None
}

/// The refusal of partitions whose fixed sizes exceed the disk.
pub open spec fn oversize_error(fixed_mb: int, disk_mb: int) -> RecpartErrorModel {
    RecpartErrorModel {
        code: ErrorCode::PlanGeneration,
        component: "plan"@,
        expectation: "sum of fixed partition sizes does not exceed disk size"@,
        observed: "fixed partition sum is "@ + decimal(fixed_mb as nat) + "MB, disk is "@ + decimal(
            disk_mb as nat,
        ) + "MB"@,
        remediation: "Reduce fixed partition sizes or select a larger disk."@,
    }
}

/// The refusal of partitions that leave nothing for the one that takes the
/// rest.
pub open spec fn no_space_error(mode: InstallMode) -> RecpartErrorModel {
    RecpartErrorModel {
        code: ErrorCode::PlanGeneration,
        component: "plan"@,
        expectation: "at least one MB remains for remaining-size partition"@,
        observed: "no free space left for remaining partition in mode "@ + mode.name(),
        remediation: "Reduce fixed partition sizes or set explicit sizes for all partitions."@,
    }
}

/// Why the partitions do not fit the disk, if they do not: the fixed sizes
/// exceed it, or they fill it while a partition still waits for the rest.
pub open spec fn fit_error(
    parts: Seq<PartitionTemplateModel>,
    disk_mb: int,
    mode: InstallMode,
) -> Option<RecpartErrorModel> {
    if fixed_sum(parts) > disk_mb {
        Some(oversize_error(fixed_sum(parts), disk_mb))
    } else if has_remaining(parts) && fixed_sum(parts) >= disk_mb {
        Some(no_space_error(mode))
    } else {
        None
    }
}

/// The script line of one partition: a fixed size as `,<MB>M,<TYPE>`, with
/// `,*` behind it for the EFI system partition in first place; the rest of
/// the disk as `,,<TYPE>`.
pub open spec fn script_line(t: PartitionTemplateModel) -> Seq<char> {
    match t.size_mb {
        Some(mb) => {
            if t.index == 1 && t.gpt_type == "U"@ {
                ","@ + decimal(mb as nat) + "M,"@ + t.gpt_type + ",*"@
            } else {
                ","@ + decimal(mb as nat) + "M,"@ + t.gpt_type
            }
        },
        None => ",,"@ + t.gpt_type,
    }
}

/// The partitions' lines in order, each ended by a line feed.
pub open spec fn script_lines(parts: Seq<PartitionTemplateModel>) -> Seq<char>
    decreases parts.len(),
{
    if parts.len() == 0 {
        Seq::empty()
    } else {
        script_lines(parts.drop_last()) + script_line(parts.last()) + "\n"@
    }
}

/// The partition-table script: the label line, then one line per partition.
pub open spec fn script_text(parts: Seq<PartitionTemplateModel>) -> Seq<char> {
    "label: gpt\n"@ + script_lines(parts)
}

/// The device of partition `index` on `disk`: the number follows a `p`
/// where the disk's name ends in a digit, and the name itself otherwise.
pub open spec fn device_name(disk: Seq<char>, index: u8) -> Seq<char> {
    if disk.len() > 0 && is_digit(disk.last()) {
        disk + "p"@ + decimal(index as nat)
    } else {
        disk + decimal(index as nat)
    }
}

/// Why no plan is made, if none is: the policy refuses the request, or the
/// disk is smaller than the layout's minimum.
pub open spec fn plan_error(
    disk: DiskTargetModel,
    mode: InstallMode,
    request: LayoutRequest,
) -> Option<RecpartErrorModel> {
    match resolve_error(mode, request) {
        Some(e) => Some(e),
        None => {
            let layout = resolved_layout(mode, request);
            if disk_capacity_mb(disk.size_bytes) < min_required_mb(layout) {
                Some(
                    capacity_error(min_required_mb(layout), mode, disk_capacity_mb(disk.size_bytes)),
                )
            } else {
                None
            }
        },
    }
}

/// The plan for a disk, a mode and a request.
pub open spec fn planned(
    disk: DiskTargetModel,
    mode: InstallMode,
    request: LayoutRequest,
) -> PartitionPlanModel {
    let layout = resolved_layout(mode, request);
    PartitionPlanModel {
        schema_version: PLAN_SCHEMA_VERSION,
        mode,
        layout_request: request,
        resolved_layout: layout,
        disk,
        partitions: templates(layout),
        sfdisk_script: script_text(templates(layout)),
    }
}

impl PartitionPlanModel {
    /// True for a plan as the plan builder makes it: its disk, mode and
    /// request give a plan, and that plan is this one.
    pub open spec fn well_formed(self) -> bool {
        &&& plan_error(self.disk, self.mode, self.layout_request) is None
        &&& self == planned(self.disk, self.mode, self.layout_request)
    }
}

/// What a call that builds a plan may return for its arguments.
pub open spec fn plan_outcome(
    disk: DiskTargetModel,
    mode: InstallMode,
    request: LayoutRequest,
    r: Result<PartitionPlan, RecpartError>,
) -> bool {
    match r {
        Ok(plan) => plan_error(disk, mode, request) is None && plan@ == planned(disk, mode, request),
        Err(e) => plan_error(disk, mode, request) == Some(e@),
    }
}

/// The fixed sizes of a layout's partitions add up to the layout's sizes.
proof fn lemma_fixed_sum_of_templates(layout: crate::types::ResolvedLayout)
    ensures
        fixed_sum(templates(layout)) == match layout.mode {
            InstallMode::Ab => layout.efi_size_mb + fixed_size(templates(layout)[1]) + fixed_size(
                templates(layout)[2],
            ) + fixed_size(templates(layout)[3]),
            InstallMode::Mutable => layout.efi_size_mb + fixed_size(templates(layout)[1]),
        },
{
    let t = templates(layout);
    match layout.mode {
        InstallMode::Ab => {
            let t3 = t.drop_last();
            let t2 = t3.drop_last();
            let t1 = t2.drop_last();
            assert(fixed_sum(t1.drop_last()) == 0);
            assert(fixed_sum(t1) == fixed_size(t[0]));
            assert(fixed_sum(t2) == fixed_sum(t1) + fixed_size(t[1]));
            assert(fixed_sum(t3) == fixed_sum(t2) + fixed_size(t[2]));
            assert(fixed_sum(t) == fixed_sum(t3) + fixed_size(t[3]));
        },
        InstallMode::Mutable => {
            let t1 = t.drop_last();
            assert(fixed_sum(t1.drop_last()) == 0);
            assert(fixed_sum(t1) == fixed_size(t[0]));
            assert(fixed_sum(t) == fixed_sum(t1) + fixed_size(t[1]));
        },
    }
}

/// A disk that holds the layout's minimum also fits its partitions: the
/// fixed sizes stay under the capacity, with room for the partition that
/// takes the rest.
pub proof fn lemma_capacity_implies_fit(layout: crate::types::ResolvedLayout, disk_mb: int)
    requires
        layout.well_formed(),
        min_required_mb(layout) <= disk_mb,
    ensures
        fit_error(templates(layout), disk_mb, layout.mode) is None,
{
    lemma_fixed_sum_of_templates(layout);
    let t = templates(layout);
    match layout.mode {
        InstallMode::Ab => {
            if layout.state_size_mb is Some {
                assert forall|i: int| 0 <= i < t.len() implies (#[trigger] t[i]).size_mb is Some by {}
            }
        },
        InstallMode::Mutable => {
            if layout.root_size_mb is Some {
                assert forall|i: int| 0 <= i < t.len() implies (#[trigger] t[i]).size_mb is Some by {}
            }
        },
    }
}

/// In the partitions of a sound layout, only the last may take the space
/// that is left, and they are numbered from one in their order.
pub proof fn lemma_template_order(layout: crate::types::ResolvedLayout)
    requires
        layout.well_formed(),
    ensures
        forall|i: int|
            0 <= i < templates(layout).len() - 1 ==> (#[trigger] templates(layout)[i]).size_mb
                is Some,
        forall|i: int|
            0 <= i < templates(layout).len() ==> (#[trigger] templates(layout)[i]).index == i + 1,
        templates(layout).len() == match layout.mode {
            InstallMode::Ab => 4int,
            InstallMode::Mutable => 2int,
        },
{
}

/// The same disk, mode and request always give the same outcome: two
/// results that a plan-building call may return agree on success, on the
/// whole plan (script text and resolved layout among it) and on the error.
pub proof fn lemma_plan_is_deterministic(
    disk: DiskTargetModel,
    mode: InstallMode,
    request: LayoutRequest,
    first: Result<PartitionPlan, RecpartError>,
    second: Result<PartitionPlan, RecpartError>,
)
    requires
        plan_outcome(disk, mode, request, first),
        plan_outcome(disk, mode, request, second),
    ensures
        first is Ok <==> second is Ok,
        first is Ok ==> first->Ok_0@ == second->Ok_0@,
        first is Ok ==> first->Ok_0.sfdisk_script@ == second->Ok_0.sfdisk_script@,
        first is Ok ==> first->Ok_0.resolved_layout == second->Ok_0.resolved_layout,
        first is Err ==> first->Err_0@ == second->Err_0@,
{
}

/// A request that names a size of the other mode never gives a plan.
pub proof fn lemma_plan_refuses_foreign_field(
    disk: DiskTargetModel,
    mode: InstallMode,
    request: LayoutRequest,
)
    requires
        crate::policy::names_foreign_field(mode, request),
    ensures
        plan_error(disk, mode, request) is Some,
        plan_error(disk, mode, request)->0.code == ErrorCode::PlanGeneration,
{
}

/// A disk that is smaller than the minimum of the layout gives no plan,
/// whatever is asked for.
pub proof fn lemma_small_disk_is_refused(
    disk: DiskTargetModel,
    mode: InstallMode,
    request: LayoutRequest,
)
    requires
        disk_capacity_mb(disk.size_bytes) < min_required_mb(resolved_layout(mode, request)),
    ensures
        plan_error(disk, mode, request) is Some,
        plan_error(disk, mode, request)->0.code == ErrorCode::PlanGeneration,
{
    if resolve_error(mode, request) is Some {
        crate::policy::lemma_refusals_are_plan_errors(mode, request);
    }
}

/// Every reason for which no plan is made is a plan-generation error.
pub proof fn lemma_plan_errors_are_plan_generation(
    disk: DiskTargetModel,
    mode: InstallMode,
    request: LayoutRequest,
)
    requires
        plan_error(disk, mode, request) is Some,
    ensures
        plan_error(disk, mode, request)->0.code == ErrorCode::PlanGeneration,
{
    if resolve_error(mode, request) is Some {
        crate::policy::lemma_refusals_are_plan_errors(mode, request);
    }
}

/// Checks that the partitions fit a disk of `disk_mb` MB.
pub fn validate_partition_fit(
    partitions: &[PartitionTemplate],
    disk_mb: u64,
    mode: InstallMode,
) -> (r: Result<(), RecpartError>)
    ensures
        r is Ok <==> fit_error(partitions.deep_view(), disk_mb as int, mode) is None,
        r is Err ==> Some(r->Err_0@) == fit_error(partitions.deep_view(), disk_mb as int, mode),
{
    let n: usize = partitions.len();
    let ghost parts = partitions.deep_view();
    let mut fixed_mb: u128 = 0;
    let mut remaining: bool = false;
    let mut i: usize = 0;
    assert(parts.take(0) =~= Seq::<PartitionTemplateModel>::empty());
    while i < n
        invariant
            i <= n,
            n == partitions.len(),
            parts == partitions.deep_view(),
            fixed_mb == fixed_sum(parts.take(i as int)),
            fixed_mb <= i * 0xFFFF_FFFF,
            remaining == has_remaining(parts.take(i as int)),
        decreases n - i,
    {
        let ghost before = parts.take(i as int);
        let ghost after = parts.take(i as int + 1);
        proof {
            assert(after.drop_last() =~= before);
            assert(after.last() == partitions@[i as int]@);
        }
        match partitions[i].size_mb {
            Some(v) => {
                fixed_mb = fixed_mb + v as u128;
                proof {
                    if has_remaining(after) {
                        let k = choose|k: int| 0 <= k < after.len() && (#[trigger] after[k]).size_mb is None;
                        assert(before[k] == after[k]);
                    }
                    if has_remaining(before) {
                        let k = choose|k: int| 0 <= k < before.len() && (#[trigger] before[k]).size_mb is None;
                        assert(after[k] == before[k]);
                    }
                }
            },
            None => {
                remaining = true;
                assert(after[i as int].size_mb is None);
            },
        }
        i += 1;
    }
    assert(parts.take(n as int) =~= parts);
    if fixed_mb > disk_mb as u128 {
        let mut observed = text("fixed partition sum is ");
        observed.append(wide_decimal_text(fixed_mb).as_str());
        observed.append("MB, disk is ");
        observed.append(decimal_text(disk_mb).as_str());
        observed.append("MB");
        return Err(
            RecpartError::new(
                ErrorCode::PlanGeneration,
                "plan",
                "sum of fixed partition sizes does not exceed disk size",
                observed.as_str(),
                "Reduce fixed partition sizes or select a larger disk.",
            ),
        );
    }
    if remaining && fixed_mb >= disk_mb as u128 {
        let mut observed = text("no free space left for remaining partition in mode ");
        observed.append(mode.to_text().as_str());
        return Err(
            RecpartError::new(
                ErrorCode::PlanGeneration,
                "plan",
                "at least one MB remains for remaining-size partition",
                observed.as_str(),
                "Reduce fixed partition sizes or set explicit sizes for all partitions.",
            ),
        );
    }
    Ok(())
}

/// Renders the partition-table script for the partitions.
pub fn build_sfdisk_script(partitions: &[PartitionTemplate]) -> (r: String)
    ensures
        r@ == script_text(partitions.deep_view()),
{
    let n: usize = partitions.len();
    let ghost parts = partitions.deep_view();
    let mut script = text("label: gpt\n");
    let mut i: usize = 0;
    assert(parts.take(0) =~= Seq::<PartitionTemplateModel>::empty());
    while i < n
        invariant
            i <= n,
            n == partitions.len(),
            parts == partitions.deep_view(),
            script@ == "label: gpt\n"@ + script_lines(parts.take(i as int)),
        decreases n - i,
    {
        let part = &partitions[i];
        let ghost before = script@;
        proof {
            let after = parts.take(i as int + 1);
            assert(after.drop_last() =~= parts.take(i as int));
            assert(after.last() == part@);
        }
        match part.size_mb {
            Some(size_mb) => {
                script.append(",");
                script.append(decimal_text(size_mb as u64).as_str());
                script.append("M,");
                script.append(part.gpt_type.as_str());
                if part.index == 1 && crate::text::same_text(part.gpt_type.as_str(), "U") {
                    script.append(",*");
                }
            },
            None => {
                script.append(",,");
                script.append(part.gpt_type.as_str());
            },
        }
        assert(script@ =~= before + script_line(part@));
        script.append("\n");
        i += 1;
        assert(script@ =~= "label: gpt\n"@ + script_lines(parts.take(i as int)));
    }
    assert(parts.take(n as int) =~= parts);
    script
}

/// The device of partition `index` on `disk`.
pub fn partition_device(disk: &str, index: u8) -> (r: String)
    ensures
        r@ == device_name(disk@, index),
{
    let needs_p = match last_char(disk) {
        Some(c) => is_digit_char(c),
        None => false,
    };
    let mut out = text(disk);
    if needs_p {
        out.append("p");
    }
    out.append(decimal_text(index as u64).as_str());
    out
}

/// Builds the plan for a disk and a mode with the policy's defaults.
pub fn build_plan(disk: DiskTarget, mode: InstallMode) -> (r: Result<PartitionPlan, RecpartError>)
    ensures
        plan_outcome(disk@, mode, LayoutRequest::empty(), r),
        r is Ok ==> r->Ok_0@.well_formed(),
{
    build_plan_with_layout_request(disk, mode, LayoutRequest::default())
}

/// Builds the plan for a disk, a mode and a request: resolves the layout,
/// refuses a disk under the layout's minimum, lists the partitions and
/// renders the script.
pub fn build_plan_with_layout_request(
    disk: DiskTarget,
    mode: InstallMode,
    layout_request: LayoutRequest,
) -> (r: Result<PartitionPlan, RecpartError>)
    ensures
        plan_outcome(disk@, mode, layout_request, r),
        r is Ok <==> plan_error(disk@, mode, layout_request) is None,
        r is Ok ==> r->Ok_0@ == planned(disk@, mode, layout_request),
        r is Ok ==> r->Ok_0@.well_formed(),
        r is Err ==> Some(r->Err_0@) == plan_error(disk@, mode, layout_request),
        r is Err ==> r->Err_0.code == ErrorCode::PlanGeneration,
{
    let resolved = match resolve_layout_request(mode, &layout_request) {
        Err(e) => {
            return Err(e);
        },
        Ok(l) => l,
    };
    let disk_mb: u64 = disk.size_bytes / MB;
    let min_required: u64 = required_min_mb(&resolved);
    if disk_mb < min_required {
        let mut expectation = text("disk must have at least ");
        expectation.append(decimal_text(min_required).as_str());
        expectation.append("MB for mode ");
        expectation.append(mode.to_text().as_str());
        let mut observed = text("disk has ");
        observed.append(decimal_text(disk_mb).as_str());
        observed.append("MB");
        return Err(
            RecpartError::new(
                ErrorCode::PlanGeneration,
                "plan",
                expectation.as_str(),
                observed.as_str(),
                "Choose a larger disk or adjust partition policy defaults.",
            ),
        );
    }
    let partitions = build_templates(&resolved);
    let listed = partitions.as_slice();
    proof {
        lemma_resolved_layout_is_sound(mode, layout_request);
        lemma_capacity_implies_fit(resolved, disk_mb as int);
        assert(listed.deep_view() =~= partitions.deep_view());
    }
    match validate_partition_fit(listed, disk_mb, mode) {
        Err(e) => {
            return Err(e);
        },
        Ok(_) => {},
    }
    let sfdisk_script = build_sfdisk_script(listed);
    Ok(
        PartitionPlan {
            schema_version: PLAN_SCHEMA_VERSION,
            mode,
            layout_request,
            resolved_layout: resolved,
            disk,
            partitions,
            sfdisk_script,
        },
    )
}

} // verus!
