//! The worker's command-line protocol: one subcommand per operation the
//! orchestration layer exposes. The transport passes the subcommand's wire
//! name, then a serialized payload (for `generate`) or a bare identifier
//! (for `status` and `cancel`).
use vstd::prelude::*;

verus! {

/// The subcommands the worker understands.
#[derive(Clone, Copy, PartialEq, Eq, Debug, Structural)]
pub enum Subcommand {
    Init,
    Generate,
    ListModels,
    ListLoras,
    Status,
    Cancel,
}

/// The wire name of each subcommand.
pub open spec fn spec_subcommand_arg(s: Subcommand) -> Seq<char> {
    match s {
        Subcommand::Init => "init"@,
        Subcommand::Generate => "generate"@,
        Subcommand::ListModels => "list-models"@,
        Subcommand::ListLoras => "list-loras"@,
        Subcommand::Status => "status"@,
        Subcommand::Cancel => "cancel"@,
    }
}

impl Subcommand {
    /// The wire name of this subcommand.
    pub fn arg(&self) -> (r: &'static str)
        ensures
            r@ == spec_subcommand_arg(*self),
    {
        match self {
            Subcommand::Init => "init",
            Subcommand::Generate => "generate",
            Subcommand::ListModels => "list-models",
            Subcommand::ListLoras => "list-loras",
            Subcommand::Status => "status",
            Subcommand::Cancel => "cancel",
        }
    }
}

} // verus!
