//! The texts that the program shows to people: the summaries of a plan and
//! of an apply, and the lines of the wizard.

use vstd::prelude::*;
use vstd::string::*;
use crate::text::{decimal, decimal_text, text};
use crate::types::{
    ApplyResult, ApplyResultModel, CommandRecord, CommandRecordModel, PartitionPlan,
    PartitionPlanModel, PartitionTemplateModel,
};

verus! {

/// `true` or `false`.
pub open spec fn truth_word(b: bool) -> Seq<char> {
    if b {
        "true"@
    } else {
        "false"@
    }
}

/// Each text on a line of its own, behind two blanks.
pub open spec fn indented_lines(items: Seq<Seq<char>>) -> Seq<char>
    decreases items.len(),
{
    if items.len() == 0 {
        Seq::empty()
    } else {
        indented_lines(items.drop_last()) + "  "@ + items.last() + "\n"@
    }
}

/// What the `plan` command prints for a plan: mode, disk and size, then the
/// script as it is.
pub open spec fn plan_text(plan: PartitionPlanModel) -> Seq<char> {
    "recpart plan\n  mode: "@ + plan.mode.name() + "\n  disk: "@ + plan.disk.path + "\n  size: "@
        + decimal(plan.disk.size_bytes as nat) + " bytes\n\nGenerated sfdisk script:\n\n"@
        + plan.sfdisk_script
}

/// What the `apply` command prints for a result: mode, disk, whether the run
/// was dry and how many steps it has, then the commands that follow.
pub open spec fn apply_text(result: ApplyResultModel) -> Seq<char> {
    "recpart apply\n  mode: "@ + result.mode.name() + "\n  disk: "@ + result.disk.path
        + "\n  dry-run: "@ + truth_word(result.dry_run) + "\n  steps: "@ + decimal(
        result.steps.len(),
    ) + "\n\nHandoff commands:\n"@ + indented_lines(result.handoff.next_commands)
}

/// The size of a partition in words.
pub open spec fn size_words(size_mb: Option<u32>) -> Seq<char> {
    match size_mb {
        Some(v) => decimal(v as nat) + "MB"@,
        None => "remaining"@,
    }
}

/// The line of one partition in the wizard's summary of a plan.
pub open spec fn partition_line(t: PartitionTemplateModel) -> Seq<char> {
    "    - "@ + decimal(t.index as nat) + ": label="@ + t.label + " fs="@ + t.filesystem
        + " mount="@ + t.mountpoint + " size="@ + size_words(t.size_mb) + "\n"@
}

/// The lines of the partitions, in their order.
pub open spec fn partition_lines(parts: Seq<PartitionTemplateModel>) -> Seq<char>
    decreases parts.len(),
{
    if parts.len() == 0 {
        Seq::empty()
    } else {
        partition_lines(parts.drop_last()) + partition_line(parts.last())
    }
}

/// The wizard's summary of a plan. `disk_size` is the disk's size as it is
/// shown to people.
pub open spec fn plan_summary_text(plan: PartitionPlanModel, disk_size: Seq<char>) -> Seq<char> {
    "\nPlan summary:\n  Mode: "@ + plan.mode.name() + "\n  Disk: "@ + plan.disk.path
        + "\n  Disk size: "@ + disk_size + "\n  Partitions:\n"@ + partition_lines(plan.partitions)
}

/// The numbered line of one step: its number, its phase and its command.
pub open spec fn step_line(number: nat, record: CommandRecordModel) -> Seq<char> {
    "  "@ + decimal(number) + ". ["@ + record.phase + "] "@ + record.command + "\n"@
}

/// The numbered lines of the steps, counted from one.
pub open spec fn step_lines(steps: Seq<CommandRecordModel>) -> Seq<char>
    decreases steps.len(),
{
    if steps.len() == 0 {
        Seq::empty()
    } else {
        step_lines(steps.drop_last()) + step_line(steps.len(), steps.last())
    }
}

/// The wizard's list of the commands of a dry run.
pub open spec fn dry_run_summary_text(result: ApplyResultModel) -> Seq<char> {
    "\nDry-run command sequence:\n"@ + step_lines(result.steps) + "\n"@
}

/// The wizard's list of the commands that follow an apply.
pub open spec fn handoff_text(result: ApplyResultModel) -> Seq<char> {
    "\nNext commands:\n"@ + indented_lines(result.handoff.next_commands) + "\n"@
}

/// The wizard's line for a step that is done: how many steps are done, of
/// how many, and the step's phase and command.
pub open spec fn progress_text(completed: usize, total: usize, record: CommandRecordModel) -> Seq<
    char,
> {
    "  ["@ + decimal(completed as nat) + "/"@ + decimal(total as nat) + "] ["@ + record.phase
        + "] "@ + record.command
}

fn push_indented_lines(out: &mut String, items: &Vec<String>)
    ensures
        final(out)@ == old(out)@ + indented_lines(items.deep_view()),
{
    let n: usize = items.len();
    let ghost all = items.deep_view();
    let ghost start = out@;
    let mut i: usize = 0;
    assert(all.take(0) =~= Seq::<Seq<char>>::empty());
    assert(out@ =~= start + indented_lines(all.take(0)));
    while i < n
        invariant
            i <= n,
            n == items.len(),
            all == items.deep_view(),
            out@ == start + indented_lines(all.take(i as int)),
        decreases n - i,
    {
        proof {
            let next = all.take(i as int + 1);
            assert(next.drop_last() =~= all.take(i as int));
            assert(next.last() == items@[i as int]@);
        }
        out.append("  ");
        out.append(items[i].as_str());
        out.append("\n");
        i += 1;
        assert(out@ =~= start + indented_lines(all.take(i as int)));
    }
    assert(all.take(n as int) =~= all);
}

/// What the `plan` command prints for the plan.
pub fn plan_report(plan: &PartitionPlan) -> (r: String)
    ensures
        r@ == plan_text(plan@),
{
    let mut out = text("recpart plan\n  mode: ");
    out.append(plan.mode.to_text().as_str());
    out.append("\n  disk: ");
    out.append(plan.disk.path.as_str());
    out.append("\n  size: ");
    out.append(decimal_text(plan.disk.size_bytes).as_str());
    out.append(" bytes\n\nGenerated sfdisk script:\n\n");
    out.append(plan.sfdisk_script.as_str());
    out
}

/// What the `apply` command prints for the result.
pub fn apply_report(result: &ApplyResult) -> (r: String)
    ensures
        r@ == apply_text(result@),
{
    let mut out = text("recpart apply\n  mode: ");
    out.append(result.mode.to_text().as_str());
    out.append("\n  disk: ");
    out.append(result.disk.path.as_str());
    out.append("\n  dry-run: ");
    if result.dry_run {
        out.append("true");
    } else {
        out.append("false");
    }
    out.append("\n  steps: ");
    assert(result.steps.deep_view().len() == result.steps.len());
    out.append(decimal_text(result.steps.len() as u64).as_str());
    out.append("\n\nHandoff commands:\n");
    push_indented_lines(&mut out, &result.handoff.next_commands);
    out
}

/// The wizard's summary of the plan. `disk_size` is the disk's size as it is
/// shown to people.
pub fn plan_summary(plan: &PartitionPlan, disk_size: &str) -> (r: String)
    ensures
        r@ == plan_summary_text(plan@, disk_size@),
{
    let mut out = text("\nPlan summary:\n  Mode: ");
    out.append(plan.mode.to_text().as_str());
    out.append("\n  Disk: ");
    out.append(plan.disk.path.as_str());
    out.append("\n  Disk size: ");
    out.append(disk_size);
    out.append("\n  Partitions:\n");
    let n: usize = plan.partitions.len();
    let ghost parts = plan.partitions.deep_view();
    let ghost start = out@;
    let mut i: usize = 0;
    assert(parts.take(0) =~= Seq::<PartitionTemplateModel>::empty());
    assert(out@ =~= start + partition_lines(parts.take(0)));
    while i < n
        invariant
            i <= n,
            n == plan.partitions.len(),
            parts == plan.partitions.deep_view(),
            out@ == start + partition_lines(parts.take(i as int)),
        decreases n - i,
    {
        let part = &plan.partitions[i];
        proof {
            let next = parts.take(i as int + 1);
            assert(next.drop_last() =~= parts.take(i as int));
            assert(next.last() == part@);
        }
        let ghost before = out@;
        out.append("    - ");
        out.append(decimal_text(part.index as u64).as_str());
        out.append(": label=");
        out.append(part.label.as_str());
        out.append(" fs=");
        out.append(part.filesystem.as_str());
        out.append(" mount=");
        out.append(part.mountpoint.as_str());
        out.append(" size=");
        match part.size_mb {
            Some(v) => {
                out.append(decimal_text(v as u64).as_str());
                out.append("MB");
            },
            None => {
                out.append("remaining");
            },
        }
        out.append("\n");
        assert(out@ =~= before + partition_line(part@));
        i += 1;
        assert(out@ =~= start + partition_lines(parts.take(i as int)));
    }
    assert(parts.take(n as int) =~= parts);
    out
}

/// The wizard's list of the commands of a dry run.
pub fn dry_run_summary(result: &ApplyResult) -> (r: String)
    ensures
        r@ == dry_run_summary_text(result@),
{
    let mut out = text("\nDry-run command sequence:\n");
    let n: usize = result.steps.len();
    let ghost steps = result.steps.deep_view();
    let ghost start = out@;
    let mut i: usize = 0;
    assert(steps.take(0) =~= Seq::<CommandRecordModel>::empty());
    assert(out@ =~= start + step_lines(steps.take(0)));
    while i < n
        invariant
            i <= n,
            n == result.steps.len(),
            steps == result.steps.deep_view(),
            out@ == start + step_lines(steps.take(i as int)),
        decreases n - i,
    {
        let step = &result.steps[i];
        proof {
            let next = steps.take(i as int + 1);
            assert(next.drop_last() =~= steps.take(i as int));
            assert(next.last() == step@);
            assert(next.len() == i + 1);
        }
        let ghost before = out@;
        out.append("  ");
        out.append(decimal_text(i as u64 + 1).as_str());
        out.append(". [");
        out.append(step.phase.as_str());
        out.append("] ");
        out.append(step.command.as_str());
        out.append("\n");
        assert(out@ =~= before + step_line((i + 1) as nat, step@));
        i += 1;
        assert(out@ =~= start + step_lines(steps.take(i as int)));
    }
    assert(steps.take(n as int) =~= steps);
    out.append("\n");
    out
}

/// The wizard's list of the commands that follow an apply.
pub fn handoff_summary(result: &ApplyResult) -> (r: String)
    ensures
        r@ == handoff_text(result@),
{
    let mut out = text("\nNext commands:\n");
    push_indented_lines(&mut out, &result.handoff.next_commands);
    out.append("\n");
    out
}

/// The wizard's line for a step that is done.
pub fn progress_line(completed: usize, total: usize, record: &CommandRecord) -> (r: String)
    ensures
        r@ == progress_text(completed, total, record@),
{
    let mut out = text("  [");
    out.append(decimal_text(completed as u64).as_str());
    out.append("/");
    out.append(decimal_text(total as u64).as_str());
    out.append("] [");
    out.append(record.phase.as_str());
    out.append("] ");
    out.append(record.command.as_str());
    out
}

} // verus!
