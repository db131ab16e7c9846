//! The layout policy: how a sparse request becomes a complete layout for a
//! mode, which requests are refused, and which partitions a layout stands
//! for.

use vstd::prelude::*;
use vstd::string::*;
use crate::error::{ErrorCode, RecpartError, RecpartErrorModel};
use crate::text::{decimal, decimal_text, join_texts, joined, replace_char, replaced, text};
use crate::types::{
    InstallMode, LayoutRequest, PartitionTemplate, PartitionTemplateModel, ResolvedLayout,
};

verus! {

/// The slot that a first install goes to.
pub const DEFAULT_AB_TARGET_SLOT: &'static str = "A";

/// The size of the EFI system partition in MB, unless another is asked for.
pub const DEFAULT_EFI_SIZE_MB: u32 = 1024;

/// The size of each root slot in MB, unless another is asked for.
pub const DEFAULT_AB_ROOT_SIZE_MB: u32 = 20480;

/// The least size of the state partition in MB.
pub const DEFAULT_AB_MIN_STATE_MB: u32 = 4096;

/// The least size of the single root in MB.
pub const DEFAULT_MUTABLE_MIN_ROOT_MB: u32 = 8192;

/// The layout of a mode when nothing was asked for.
pub open spec fn default_layout(mode: InstallMode) -> ResolvedLayout {
    match mode {
        InstallMode::Ab => ResolvedLayout {
            mode,
            efi_size_mb: DEFAULT_EFI_SIZE_MB,
            root_size_mb: None,
            root_a_size_mb: Some(DEFAULT_AB_ROOT_SIZE_MB),
            root_b_size_mb: Some(DEFAULT_AB_ROOT_SIZE_MB),
            state_size_mb: None,
        },
        InstallMode::Mutable => ResolvedLayout {
            mode,
            efi_size_mb: DEFAULT_EFI_SIZE_MB,
            root_size_mb: None,
            root_a_size_mb: None,
            root_b_size_mb: None,
            state_size_mb: None,
        },
    }
}

/// The value of `size`, or `fallback` when there is none.
pub open spec fn size_or(size: Option<u32>, fallback: u32) -> u32 {
    match size {
        Some(v) => v,
        None => fallback,
    }
}

/// The request laid over the mode's defaults.
pub open spec fn resolved_layout(mode: InstallMode, request: LayoutRequest) -> ResolvedLayout {
    match mode {
        InstallMode::Ab => ResolvedLayout {
            mode,
            efi_size_mb: size_or(request.efi_size_mb, DEFAULT_EFI_SIZE_MB),
            root_size_mb: None,
            root_a_size_mb: Some(size_or(request.root_a_size_mb, DEFAULT_AB_ROOT_SIZE_MB)),
            root_b_size_mb: Some(size_or(request.root_b_size_mb, DEFAULT_AB_ROOT_SIZE_MB)),
            state_size_mb: request.state_size_mb,
        },
        InstallMode::Mutable => ResolvedLayout {
            mode,
            efi_size_mb: size_or(request.efi_size_mb, DEFAULT_EFI_SIZE_MB),
            root_size_mb: request.root_size_mb,
            root_a_size_mb: None,
            root_b_size_mb: None,
            state_size_mb: None,
        },
    }
}

/// True when the request names a size that belongs to the other mode.
pub open spec fn names_foreign_field(mode: InstallMode, request: LayoutRequest) -> bool {
    match mode {
        InstallMode::Ab => request.root_size_mb is Some,
        InstallMode::Mutable => request.root_a_size_mb is Some || request.root_b_size_mb is Some
            || request.state_size_mb is Some,
    }
}

/// The two-slot sizes that the request names, in their fixed order.
pub open spec fn ab_only_fields(request: LayoutRequest) -> Seq<Seq<char>> {
    (if request.root_a_size_mb is Some {
        seq!["root_a_size_mb"@]
    } else {
        Seq::empty()
    }) + (if request.root_b_size_mb is Some {
        seq!["root_b_size_mb"@]
    } else {
        Seq::empty()
    }) + (if request.state_size_mb is Some {
        seq!["state_size_mb"@]
    } else {
        Seq::empty()
    })
}

/// The refusal of a size that belongs to the other mode.
pub open spec fn foreign_field_error(
    mode: InstallMode,
    request: LayoutRequest,
) -> RecpartErrorModel {
    match mode {
        InstallMode::Ab => RecpartErrorModel {
            code: ErrorCode::PlanGeneration,
            component: "policy"@,
            expectation: "mutable-only root_size_mb is not set for ab mode"@,
            observed: "root_size_mb provided with mode=ab"@,
            remediation: "Use --root-a-size-mb/--root-b-size-mb/--state-size-mb for ab mode."@,
        },
        InstallMode::Mutable => RecpartErrorModel {
            code: ErrorCode::PlanGeneration,
            component: "policy"@,
            expectation: "ab-only fields are not set for mutable mode"@,
            observed: "invalid fields for mode=mutable: "@ + joined(
                ab_only_fields(request),
                ", "@,
            ),
            remediation: "Use only --efi-size-mb and --root-size-mb for mutable mode."@,
        },
    }
}

/// The refusal of a size of zero for `field`.
pub open spec fn not_positive_error(field: Seq<char>) -> RecpartErrorModel {
    RecpartErrorModel {
        code: ErrorCode::PlanGeneration,
        component: "policy"@,
        expectation: field + " is greater than 0"@,
        observed: field + "="@ + decimal(0),
        remediation: "Provide a positive value for --"@ + replaced(field, '_', '-') + "."@,
    }
}

/// The refusal of a state size under the floor of the two-slot mode.
pub open spec fn state_floor_error(value: u32) -> RecpartErrorModel {
    RecpartErrorModel {
        code: ErrorCode::PlanGeneration,
        component: "policy"@,
        expectation: "state_size_mb is at least "@ + decimal(DEFAULT_AB_MIN_STATE_MB as nat),
        observed: "state_size_mb="@ + decimal(value as nat),
        remediation: "Use --state-size-mb >= "@ + decimal(DEFAULT_AB_MIN_STATE_MB as nat)
            + " for ab mode."@,
    }
}

/// The refusal of a root size under the floor of the single-root mode.
pub open spec fn root_floor_error(value: u32) -> RecpartErrorModel {
    RecpartErrorModel {
        code: ErrorCode::PlanGeneration,
        component: "policy"@,
        expectation: "root_size_mb is at least "@ + decimal(DEFAULT_MUTABLE_MIN_ROOT_MB as nat),
        observed: "root_size_mb="@ + decimal(value as nat),
        remediation: "Use --root-size-mb >= "@ + decimal(DEFAULT_MUTABLE_MIN_ROOT_MB as nat)
            + " for mutable mode."@,
    }
}

/// Why a request is refused, if it is: a foreign size first, then a size of
/// zero (EFI, then the mode's own sizes in their order), then a size under
/// its floor.
pub open spec fn resolve_error(mode: InstallMode, request: LayoutRequest) -> Option<
    RecpartErrorModel,
> {
    if names_foreign_field(mode, request) {
        Some(foreign_field_error(mode, request))
    } else if request.efi_size_mb == Some(0u32) {
        Some(not_positive_error("efi_size_mb"@))
    } else {
        match mode {
            InstallMode::Ab => {
                if request.root_a_size_mb == Some(0u32) {
                    Some(not_positive_error("root_a_size_mb"@))
                } else if request.root_b_size_mb == Some(0u32) {
                    Some(not_positive_error("root_b_size_mb"@))
                } else {
                    match request.state_size_mb {
                        Some(state) => {
                            if state == 0 {
                                Some(not_positive_error("state_size_mb"@))
                            } else if state < DEFAULT_AB_MIN_STATE_MB {
                                Some(state_floor_error(state))
                            } else {
                                None
                            }
                        },
                        None => None,
                    }
                }
            },
            InstallMode::Mutable => {
                match request.root_size_mb {
                    Some(root) => {
                        if root == 0 {
                            Some(not_positive_error("root_size_mb"@))
                        } else if root < DEFAULT_MUTABLE_MIN_ROOT_MB {
                            Some(root_floor_error(root))
                        } else {
                            None
                        }
                    },
                    None => None,
                }
            },
        }
    }
}

/// The least disk size in MB that a layout is planned for: every size, with
/// the floor of the mode's last partition where that one has no size.
pub open spec fn min_required_mb(layout: ResolvedLayout) -> int {
    match layout.mode {
        InstallMode::Ab => layout.efi_size_mb + size_or(
            layout.root_a_size_mb,
            DEFAULT_AB_ROOT_SIZE_MB,
        ) + size_or(layout.root_b_size_mb, DEFAULT_AB_ROOT_SIZE_MB) + size_or(
            layout.state_size_mb,
            DEFAULT_AB_MIN_STATE_MB,
        ),
        InstallMode::Mutable => layout.efi_size_mb + size_or(
            layout.root_size_mb,
            DEFAULT_MUTABLE_MIN_ROOT_MB,
        ),
    }
}

/// The EFI system partition, always the first.
pub open spec fn efi_template(size_mb: u32) -> PartitionTemplateModel {
    PartitionTemplateModel {
        index: 1,
        name: "efi"@,
        filesystem: "vfat"@,
        label: "EFI"@,
        gpt_type: "U"@,
        size_mb: Some(size_mb),
        mountpoint: "/boot"@,
    }
}

/// A Linux partition with an ext4 file system.
pub open spec fn linux_template(
    index: u8,
    name: Seq<char>,
    label: Seq<char>,
    size_mb: Option<u32>,
    mountpoint: Seq<char>,
) -> PartitionTemplateModel {
    PartitionTemplateModel {
        index,
        name,
        filesystem: "ext4"@,
        label,
        gpt_type: "L"@,
        size_mb,
        mountpoint,
    }
}

/// The partitions of a layout in their order on disk.
pub open spec fn templates(layout: ResolvedLayout) -> Seq<PartitionTemplateModel> {
    match layout.mode {
        InstallMode::Ab => seq![
            efi_template(layout.efi_size_mb),
            linux_template(2, "root_a"@, "ROOT_A"@, layout.root_a_size_mb, "/slots/A"@),
            linux_template(3, "root_b"@, "ROOT_B"@, layout.root_b_size_mb, "/slots/B"@),
            linux_template(4, "state"@, "STATE"@, layout.state_size_mb, "/state"@),
        ],
        InstallMode::Mutable => seq![
            efi_template(layout.efi_size_mb),
            linux_template(2, "root"@, "ROOT"@, layout.root_size_mb, "/"@),
        ],
    }
}

/// The layout of a mode when nothing was asked for.
pub fn policy_defaults(mode: InstallMode) -> (r: ResolvedLayout)
    ensures
        r == default_layout(mode),
        r == resolved_layout(mode, LayoutRequest::empty()),
        r.well_formed(),
{
    match mode {
        InstallMode::Ab => ResolvedLayout {
            mode,
            efi_size_mb: DEFAULT_EFI_SIZE_MB,
            root_size_mb: None,
            root_a_size_mb: Some(DEFAULT_AB_ROOT_SIZE_MB),
            root_b_size_mb: Some(DEFAULT_AB_ROOT_SIZE_MB),
            state_size_mb: None,
        },
        InstallMode::Mutable => ResolvedLayout {
            mode,
            efi_size_mb: DEFAULT_EFI_SIZE_MB,
            root_size_mb: None,
            root_a_size_mb: None,
            root_b_size_mb: None,
            state_size_mb: None,
        },
    }
}

/// Accepts a size that is greater than zero and refuses zero, naming the
/// field.
pub fn validate_positive(field: &str, value: u32) -> (r: Result<u32, RecpartError>)
    ensures
        value > 0 ==> r == Ok::<u32, RecpartError>(value),
        value == 0 ==> r is Err && r->Err_0@ == not_positive_error(field@),
{
    if value > 0 {
        return Ok(value);
    }
    let mut expectation = text(field);
    expectation.append(" is greater than 0");
    let mut observed = text(field);
    observed.append("=");
    observed.append(decimal_text(value as u64).as_str());
    let mut remediation = text("Provide a positive value for --");
    remediation.append(replace_char(field, '_', '-').as_str());
    remediation.append(".");
    Err(
        RecpartError::new(
            ErrorCode::PlanGeneration,
            "policy",
            expectation.as_str(),
            observed.as_str(),
            remediation.as_str(),
        ),
    )
}

/// Refuses a request that names a size of the other mode.
pub fn validate_request_fields(mode: InstallMode, request: &LayoutRequest) -> (r: Result<
    (),
    RecpartError,
>)
    ensures
        r is Ok <==> !names_foreign_field(mode, *request),
        r is Err ==> r->Err_0@ == foreign_field_error(mode, *request),
{
    match mode {
        InstallMode::Ab => {
            if request.root_size_mb.is_some() {
                return Err(
                    RecpartError::new(
                        ErrorCode::PlanGeneration,
                        "policy",
                        "mutable-only root_size_mb is not set for ab mode",
                        "root_size_mb provided with mode=ab",
                        "Use --root-a-size-mb/--root-b-size-mb/--state-size-mb for ab mode.",
                    ),
                );
            }
        },
        InstallMode::Mutable => {
            let mut invalid: Vec<String> = Vec::new();
            assert(invalid.deep_view() =~= Seq::<Seq<char>>::empty());
            if request.root_a_size_mb.is_some() {
                let ghost before = invalid.deep_view();
                invalid.push(text("root_a_size_mb"));
                assert(invalid.deep_view() =~= before + seq!["root_a_size_mb"@]);
            }
            let ghost first = invalid.deep_view();
            if request.root_b_size_mb.is_some() {
                invalid.push(text("root_b_size_mb"));
                assert(invalid.deep_view() =~= first + seq!["root_b_size_mb"@]);
            }
            let ghost second = invalid.deep_view();
            if request.state_size_mb.is_some() {
                invalid.push(text("state_size_mb"));
                assert(invalid.deep_view() =~= second + seq!["state_size_mb"@]);
            }
            assert(invalid.deep_view() =~= ab_only_fields(*request));
            if invalid.len() > 0 {
                let mut observed = text("invalid fields for mode=mutable: ");
                observed.append(join_texts(&invalid, ", ").as_str());
                return Err(
                    RecpartError::new(
                        ErrorCode::PlanGeneration,
                        "policy",
                        "ab-only fields are not set for mutable mode",
                        observed.as_str(),
                        "Use only --efi-size-mb and --root-size-mb for mutable mode.",
                    ),
                );
            }
        },
    }
    Ok(())
}

/// Resolves a request for a mode: the request's sizes over the mode's
/// defaults, or the first rule that the request breaks.
pub fn resolve_layout_request(mode: InstallMode, request: &LayoutRequest) -> (r: Result<
    ResolvedLayout,
    RecpartError,
>)
    ensures
        r is Ok <==> resolve_error(mode, *request) is None,
        r is Ok ==> r->Ok_0 == resolved_layout(mode, *request) && r->Ok_0.well_formed(),
        r is Err ==> Some(r->Err_0@) == resolve_error(mode, *request),
        r is Err ==> r->Err_0.code == ErrorCode::PlanGeneration,
{
    match validate_request_fields(mode, request) {
        Err(e) => {
            return Err(e);
        },
        Ok(_) => {},
    }
    let mut resolved = policy_defaults(mode);
    match request.efi_size_mb {
        Some(efi) => {
            match validate_positive("efi_size_mb", efi) {
                Err(e) => {
                    return Err(e);
                },
                Ok(v) => {
                    resolved.efi_size_mb = v;
                },
            }
        },
        None => {},
    }
    match mode {
        InstallMode::Ab => {
            match request.root_a_size_mb {
                Some(root_a) => {
                    match validate_positive("root_a_size_mb", root_a) {
                        Err(e) => {
                            return Err(e);
                        },
                        Ok(v) => {
                            resolved.root_a_size_mb = Some(v);
                        },
                    }
                },
                None => {},
            }
            match request.root_b_size_mb {
                Some(root_b) => {
                    match validate_positive("root_b_size_mb", root_b) {
                        Err(e) => {
                            return Err(e);
                        },
                        Ok(v) => {
                            resolved.root_b_size_mb = Some(v);
                        },
                    }
                },
                None => {},
            }
            match request.state_size_mb {
                Some(state) => {
                    let state = match validate_positive("state_size_mb", state) {
                        Err(e) => {
                            return Err(e);
                        },
                        Ok(v) => v,
                    };
                    if state < DEFAULT_AB_MIN_STATE_MB {
                        let floor = decimal_text(DEFAULT_AB_MIN_STATE_MB as u64);
                        let mut expectation = text("state_size_mb is at least ");
                        expectation.append(floor.as_str());
                        let mut observed = text("state_size_mb=");
                        observed.append(decimal_text(state as u64).as_str());
                        let mut remediation = text("Use --state-size-mb >= ");
                        remediation.append(floor.as_str());
                        remediation.append(" for ab mode.");
                        return Err(
                            RecpartError::new(
                                ErrorCode::PlanGeneration,
                                "policy",
                                expectation.as_str(),
                                observed.as_str(),
                                remediation.as_str(),
                            ),
                        );
                    }
                    resolved.state_size_mb = Some(state);
                },
                None => {},
            }
        },
        InstallMode::Mutable => {
            match request.root_size_mb {
                Some(root) => {
                    let root = match validate_positive("root_size_mb", root) {
                        Err(e) => {
                            return Err(e);
                        },
                        Ok(v) => v,
                    };
                    if root < DEFAULT_MUTABLE_MIN_ROOT_MB {
                        let floor = decimal_text(DEFAULT_MUTABLE_MIN_ROOT_MB as u64);
                        let mut expectation = text("root_size_mb is at least ");
                        expectation.append(floor.as_str());
                        let mut observed = text("root_size_mb=");
                        observed.append(decimal_text(root as u64).as_str());
                        let mut remediation = text("Use --root-size-mb >= ");
                        remediation.append(floor.as_str());
                        remediation.append(" for mutable mode.");
                        return Err(
                            RecpartError::new(
                                ErrorCode::PlanGeneration,
                                "policy",
                                expectation.as_str(),
                                observed.as_str(),
                                remediation.as_str(),
                            ),
                        );
                    }
                    resolved.root_size_mb = Some(root);
                },
                None => {},
            }
        },
    }
    Ok(resolved)
}

/// The least disk size in MB that the layout is planned for.
pub fn required_min_mb(layout: &ResolvedLayout) -> (r: u64)
    ensures
        r == min_required_mb(*layout),
{
    match layout.mode {
        InstallMode::Ab => {
            let root_a: u32 = match layout.root_a_size_mb {
                Some(v) => v,
                None => DEFAULT_AB_ROOT_SIZE_MB,
            };
            let root_b: u32 = match layout.root_b_size_mb {
                Some(v) => v,
                None => DEFAULT_AB_ROOT_SIZE_MB,
            };
            let state: u32 = match layout.state_size_mb {
                Some(v) => v,
                None => DEFAULT_AB_MIN_STATE_MB,
            };
            layout.efi_size_mb as u64 + root_a as u64 + root_b as u64 + state as u64
        },
        InstallMode::Mutable => {
            let root: u32 = match layout.root_size_mb {
                Some(v) => v,
                None => DEFAULT_MUTABLE_MIN_ROOT_MB,
            };
            layout.efi_size_mb as u64 + root as u64
        },
    }
}

fn efi_partition(size_mb: u32) -> (r: PartitionTemplate)
    ensures
        r@ == efi_template(size_mb),
{
    PartitionTemplate {
        index: 1,
        name: text("efi"),
        filesystem: text("vfat"),
        label: text("EFI"),
        gpt_type: text("U"),
        size_mb: Some(size_mb),
        mountpoint: text("/boot"),
    }
}

fn linux_partition(
    index: u8,
    name: &str,
    label: &str,
    size_mb: Option<u32>,
    mountpoint: &str,
) -> (r: PartitionTemplate)
    ensures
        r@ == linux_template(index, name@, label@, size_mb, mountpoint@),
{
    PartitionTemplate {
        index,
        name: text(name),
        filesystem: text("ext4"),
        label: text(label),
        gpt_type: text("L"),
        size_mb,
        mountpoint: text(mountpoint),
    }
}

/// The partitions of the layout in their order on disk.
pub fn build_templates(layout: &ResolvedLayout) -> (r: Vec<PartitionTemplate>)
    ensures
        r.deep_view() == templates(*layout),
{
    let mut out: Vec<PartitionTemplate> = Vec::new();
    out.push(efi_partition(layout.efi_size_mb));
    match layout.mode {
        InstallMode::Ab => {
            out.push(linux_partition(2, "root_a", "ROOT_A", layout.root_a_size_mb, "/slots/A"));
            out.push(linux_partition(3, "root_b", "ROOT_B", layout.root_b_size_mb, "/slots/B"));
            out.push(linux_partition(4, "state", "STATE", layout.state_size_mb, "/state"));
        },
        InstallMode::Mutable => {
            out.push(linux_partition(2, "root", "ROOT", layout.root_size_mb, "/"));
        },
    }
    assert(out.deep_view() =~= templates(*layout));
    out
}

/// A request that names a size of the other mode is refused, whatever else
/// it holds.
pub proof fn lemma_foreign_field_is_refused(mode: InstallMode, request: LayoutRequest)
    requires
        names_foreign_field(mode, request),
    ensures
        resolve_error(mode, request) is Some,
        resolve_error(mode, request)->0.code == ErrorCode::PlanGeneration,
{
}

/// A state size under 4096 MB in the two-slot mode, and a root size under
/// 8192 MB in the single-root mode, are refused.
pub proof fn lemma_floors_are_enforced(mode: InstallMode, request: LayoutRequest)
    requires
        match mode {
            InstallMode::Ab => request.state_size_mb is Some && request.state_size_mb->0
                < DEFAULT_AB_MIN_STATE_MB,
            InstallMode::Mutable => request.root_size_mb is Some && request.root_size_mb->0
                < DEFAULT_MUTABLE_MIN_ROOT_MB,
        },
    ensures
        resolve_error(mode, request) is Some,
        resolve_error(mode, request)->0.code == ErrorCode::PlanGeneration,
{
}

/// Every refusal of the policy is a plan-generation error raised by the
/// policy.
pub proof fn lemma_refusals_are_plan_errors(mode: InstallMode, request: LayoutRequest)
    requires
        resolve_error(mode, request) is Some,
    ensures
        resolve_error(mode, request)->0.code == ErrorCode::PlanGeneration,
        resolve_error(mode, request)->0.component == "policy"@,
{
}

/// A request that is accepted resolves to a layout that holds the sizes of
/// its own mode only, each of them greater than zero and none under its
/// floor.
pub proof fn lemma_resolved_layout_is_sound(mode: InstallMode, request: LayoutRequest)
    requires
        resolve_error(mode, request) is None,
    ensures
        resolved_layout(mode, request).well_formed(),
        resolved_layout(mode, request).mode == mode,
        resolved_layout(mode, request).efi_size_mb > 0,
        mode == InstallMode::Ab ==> {
            &&& resolved_layout(mode, request).root_a_size_mb->0 > 0
            &&& resolved_layout(mode, request).root_b_size_mb->0 > 0
            &&& resolved_layout(mode, request).state_size_mb is Some ==> resolved_layout(
                mode,
                request,
            ).state_size_mb->0 >= DEFAULT_AB_MIN_STATE_MB
        },
        mode == InstallMode::Mutable ==> (resolved_layout(mode, request).root_size_mb is Some
            ==> resolved_layout(mode, request).root_size_mb->0 >= DEFAULT_MUTABLE_MIN_ROOT_MB),
{
}

} // verus!
