//! The commands and options of the command line, as plain values.

use vstd::prelude::*;
use crate::types::{InstallMode, LayoutRequest};

verus! {

/// The install mode as it is written on the command line.
#[derive(Debug, Clone, Copy, PartialEq, Eq, Structural)]
pub enum ModeArg {
    Ab,
    Mutable,
}

impl ModeArg {
    /// The install mode that the option names.
    pub open spec fn mode(self) -> InstallMode {
        match self {
            ModeArg::Ab => InstallMode::Ab,
            ModeArg::Mutable => InstallMode::Mutable,
        }
    }

    /// The install mode that the option names.
    pub fn to_mode(self) -> (r: InstallMode)
        ensures
            r == self.mode(),
    {
        match self {
            ModeArg::Ab => InstallMode::Ab,
            ModeArg::Mutable => InstallMode::Mutable,
        }
    }
}

impl From<ModeArg> for InstallMode {
    fn from(value: ModeArg) -> (r: InstallMode) {
        value.to_mode()
    }
}

impl vstd::std_specs::convert::FromSpecImpl<ModeArg> for InstallMode {
    open spec fn obeys_from_spec() -> bool {
        true
    }

    open spec fn from_spec(value: ModeArg) -> InstallMode {
        value.mode()
    }
}

/// The sizes that the command line asks for, in MB.
#[derive(Debug, Clone, Copy, PartialEq, Eq, Structural)]
pub struct LayoutRequestArgs {
    pub efi_size_mb: Option<u32>,
    pub root_size_mb: Option<u32>,
    pub root_a_size_mb: Option<u32>,
    pub root_b_size_mb: Option<u32>,
    pub state_size_mb: Option<u32>,
}

impl Default for LayoutRequestArgs {
    fn default() -> (r: Self)
        ensures
            r.request() == LayoutRequest::empty(),
    {
        LayoutRequestArgs {
            efi_size_mb: None,
            root_size_mb: None,
            root_a_size_mb: None,
            root_b_size_mb: None,
            state_size_mb: None,
        }
    }
}

impl LayoutRequestArgs {
    /// The request that holds the same sizes.
    pub open spec fn request(self) -> LayoutRequest {
        LayoutRequest {
            efi_size_mb: self.efi_size_mb,
            root_size_mb: self.root_size_mb,
            root_a_size_mb: self.root_a_size_mb,
            root_b_size_mb: self.root_b_size_mb,
            state_size_mb: self.state_size_mb,
        }
    }

    /// The request that holds the same sizes.
    pub fn to_layout_request(&self) -> (r: LayoutRequest)
        ensures
            r == self.request(),
    {
        LayoutRequest {
            efi_size_mb: self.efi_size_mb,
            root_size_mb: self.root_size_mb,
            root_a_size_mb: self.root_a_size_mb,
            root_b_size_mb: self.root_b_size_mb,
            state_size_mb: self.state_size_mb,
        }
    }
}

/// The options of the `plan` command.
#[derive(Debug)]
pub struct PlanArgs {
    pub disk: String,
    pub mode: ModeArg,
    pub json: bool,
    pub layout: LayoutRequestArgs,
}

/// The options of the `apply` command.
#[derive(Debug)]
pub struct ApplyArgs {
    pub disk: String,
    pub mode: ModeArg,
    pub mount_root: String,
    pub dry_run: bool,
    pub json: bool,
    pub confirm: Option<String>,
    pub layout: LayoutRequestArgs,
}

/// The commands.
#[derive(Debug)]
pub enum Commands {
    /// Work out a plan.
    Plan(PlanArgs),
    /// Apply a plan to the disk.
    Apply(ApplyArgs),
    /// Start the wizard.
    Tui,
}

/// The command line.
#[derive(Debug)]
pub struct Cli {
    pub command: Option<Commands>,
}

impl Cli {
    /// True when the command asks for output for machines.
    pub open spec fn wants_json(self) -> bool {
        match self.command {
            Some(Commands::Plan(args)) => args.json,
            Some(Commands::Apply(args)) => args.json,
            Some(Commands::Tui) => false,
            None => false,
        }
    }

    /// True when the command asks for output for machines.
    pub fn json_requested(&self) -> (r: bool)
        ensures
            r == self.wants_json(),
    {
        match &self.command {
            Some(Commands::Plan(args)) => args.json,
            Some(Commands::Apply(args)) => args.json,
            Some(Commands::Tui) => false,
            None => false,
        }
    }
}

} // verus!
