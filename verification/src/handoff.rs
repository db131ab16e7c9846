//! What is handed to the tools that follow an apply: the install target,
//! the mounts, the next commands and the slots of a two-slot install.

use vstd::prelude::*;
use vstd::string::*;
use crate::plan::{device_name, partition_device};
use crate::policy::DEFAULT_AB_TARGET_SLOT;
use crate::text::{ends_with, same_text, text, text_ends_with};
use crate::types::{
    HandoffPayload, HandoffPayloadModel, InstallMode, ModeContext, ModeContextModel,
    MountMapping, MountMappingModel, PartitionPlan, HANDOFF_SCHEMA_VERSION,
};

verus! {

/// The directory that the system is installed into: the first mount whose
/// path ends in `/sysroot`, or `/mnt/sysroot` where there is none.
pub open spec fn install_target(mounted: Seq<MountMappingModel>) -> Seq<char>
    decreases mounted.len(),
{
    if mounted.len() == 0 {
        "/mnt/sysroot"@
    } else if ends_with(mounted[0].path, "/sysroot"@) {
        mounted[0].path
    } else {
        install_target(mounted.drop_first())
    }
}

/// The commands that follow for every mode, in their order.
pub open spec fn common_commands(target: Seq<char>) -> Seq<Seq<char>> {
    seq![
        "recstrap "@ + target,
        "recfstab "@ + target + " >> "@ + target + "/etc/fstab"@,
        "recchroot "@ + target,
    ]
}

/// The commands that follow an apply.
pub open spec fn next_commands(mode: InstallMode, target: Seq<char>) -> Seq<Seq<char>> {
    match mode {
        InstallMode::Ab => common_commands(target) + seq![
            "recab status"@,
            "# after validation, choose slot policy with recab set-next <A|B>"@,
        ],
        InstallMode::Mutable => common_commands(target),
    }
}

/// The slots of an install on `disk`: slot A is the target of a first
/// install and slot B the inactive one; the single-root mode has no slots.
pub open spec fn mode_context(disk: Seq<char>, mode: InstallMode) -> ModeContextModel {
    match mode {
        InstallMode::Ab => ModeContextModel {
            install_target_slot: Some("A"@),
            inactive_slot_hint: Some("B"@),
            slot_a_device: Some(device_name(disk, 2)),
            slot_b_device: Some(device_name(disk, 3)),
            notes: seq![
                "A/B mode defaults install target to slot A for first install run."@,
                "Use recab to manage active/inactive slot transitions after installation."@,
            ],
        },
        InstallMode::Mutable => ModeContextModel {
            install_target_slot: None,
            inactive_slot_hint: None,
            slot_a_device: None,
            slot_b_device: None,
            notes: seq!["Mutable mode uses a single writable root partition."@],
        },
    }
}

/// The handoff for an install on `disk` with the given mounts.
pub open spec fn handoff_for(
    disk: Seq<char>,
    mode: InstallMode,
    mounted: Seq<MountMappingModel>,
) -> HandoffPayloadModel {
    HandoffPayloadModel {
        schema_version: HANDOFF_SCHEMA_VERSION,
        mode,
        install_target: install_target(mounted),
        mount_map: mounted,
        next_commands: next_commands(mode, install_target(mounted)),
        mode_context: mode_context(disk, mode),
    }
}

fn find_install_target(mounted: &Vec<MountMapping>) -> (r: String)
    ensures
        r@ == install_target(mounted.deep_view()),
{
    let n: usize = mounted.len();
    let ghost all = mounted.deep_view();
    let mut i: usize = 0;
    assert(all.subrange(0, n as int) =~= all);
    while i < n
        invariant
            i <= n,
            n == mounted.len(),
            all == mounted.deep_view(),
            install_target(all) == install_target(all.subrange(i as int, n as int)),
        decreases n - i,
    {
        let ghost rest = all.subrange(i as int, n as int);
        assert(rest[0] == mounted@[i as int]@);
        if text_ends_with(mounted[i].path.as_str(), "/sysroot") {
            return mounted[i].path.clone();
        }
        assert(rest.drop_first() =~= all.subrange(i as int + 1, n as int));
        i += 1;
    }
    text("/mnt/sysroot")
}

fn build_mode_context(disk: &str, mode: InstallMode) -> (r: ModeContext)
    ensures
        r@ == mode_context(disk@, mode),
{
    match mode {
        InstallMode::Ab => {
            let install_target_slot = text(DEFAULT_AB_TARGET_SLOT);
            let inactive_slot_hint = if same_text(install_target_slot.as_str(), "A") {
                text("B")
            } else {
                text("A")
            };
            let mut notes: Vec<String> = Vec::new();
            notes.push(text("A/B mode defaults install target to slot A for first install run."));
            notes.push(
                text("Use recab to manage active/inactive slot transitions after installation."),
            );
            assert(notes.deep_view() =~= mode_context(disk@, mode).notes);
            ModeContext {
                install_target_slot: Some(install_target_slot),
                inactive_slot_hint: Some(inactive_slot_hint),
                slot_a_device: Some(partition_device(disk, 2)),
                slot_b_device: Some(partition_device(disk, 3)),
                notes,
            }
        },
        InstallMode::Mutable => {
            let mut notes: Vec<String> = Vec::new();
            notes.push(text("Mutable mode uses a single writable root partition."));
            assert(notes.deep_view() =~= mode_context(disk@, mode).notes);
            ModeContext {
                install_target_slot: None,
                inactive_slot_hint: None,
                slot_a_device: None,
                slot_b_device: None,
                notes,
            }
        },
    }
}

fn build_next_commands(mode: InstallMode, target: &str) -> (r: Vec<String>)
    ensures
        r.deep_view() == next_commands(mode, target@),
{
    let mut strap = text("recstrap ");
    strap.append(target);
    let mut fstab = text("recfstab ");
    fstab.append(target);
    fstab.append(" >> ");
    fstab.append(target);
    fstab.append("/etc/fstab");
    let mut chroot = text("recchroot ");
    chroot.append(target);
    let mut out: Vec<String> = Vec::new();
    out.push(strap);
    out.push(fstab);
    out.push(chroot);
    assert(out.deep_view() =~= common_commands(target@));
    match mode {
        InstallMode::Ab => {
            out.push(text("recab status"));
            out.push(text("# after validation, choose slot policy with recab set-next <A|B>"));
        },
        InstallMode::Mutable => {},
    }
    assert(out.deep_view() =~= next_commands(mode, target@));
    out
}

/// The handoff for the plan with the given mounts.
pub fn build_handoff(plan: &PartitionPlan, mounted: Vec<MountMapping>) -> (r: HandoffPayload)
    ensures
        r@ == handoff_for(plan.disk.path@, plan.mode, mounted.deep_view()),
{
    let install_target = find_install_target(&mounted);
    let next_commands = build_next_commands(plan.mode, install_target.as_str());
    let mode_context = build_mode_context(plan.disk.path.as_str(), plan.mode);
    HandoffPayload {
        schema_version: HANDOFF_SCHEMA_VERSION,
        mode: plan.mode,
        install_target,
        mount_map: mounted,
        next_commands,
        mode_context,
    }
}

} // verus!
