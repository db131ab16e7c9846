//! Planning and applying disk partition layouts for an installer.
//!
//! A layout is planned for one of two install modes: two root slots with a
//! shared state partition, or one writable root. [`policy`] turns a sparse
//! request into a complete layout, [`plan`] turns a layout and a disk into
//! an ordered list of partitions and a partition-table script, and
//! [`engine`] applies a plan in three phases: partition, format, mount.
//!
//! The library never touches the system. Whatever has to be found out or
//! done there is asked of the caller as a [`engine::HostRequest`] and taken
//! back as a [`engine::HostEvent`]; [`exec::execute_plan`] goes through a
//! whole apply with the reports that a host has made. A dry run needs no
//! host at all.
//!
//! Every function comes with a contract that says exactly what it returns,
//! over the models of the records in [`types`] and the text functions of
//! [`text`].

pub mod cli;
pub mod engine;
pub mod error;
pub mod exec;
pub mod handoff;
pub mod inventory;
pub mod number;
pub mod paths;
pub mod plan;
pub mod policy;
pub mod preflight;
pub mod report;
pub mod text;
pub mod tui;
pub mod types;

pub use engine::HostReport;
pub use error::{ErrorCode, RecpartError};
pub use exec::{execute_plan, execute_plan_with_reporter};
pub use plan::{build_plan, build_plan_with_layout_request};
pub use types::{
    ApplyOptions, ApplyResult, DiskTarget, HandoffPayload, InstallMode, LayoutRequest,
    PartitionPlan, ResolvedLayout,
};
