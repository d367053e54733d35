//! The subcommands: their arguments, and the command each one plans.
use vstd::prelude::*;

use crate::enums::{PackageManager, PackageManagerOperation};
use crate::errors::{Error, PackageManagerError};
use crate::resolve::{outcome, Outcome};
use crate::strings::owned;

pub mod add;
pub mod complete;
pub mod dlx;
pub mod exec;
pub mod install;
pub mod list;
pub mod pm;
pub mod remove;
pub mod run;
pub mod update;

pub use add::{add, AddArgs};
pub use complete::{complete, CompleteArgs};
pub use dlx::{dlx, DlxArgs};
pub use exec::{exec, ExecArgs};
pub use install::{install, InstallArgs};
pub use list::{list, ListArgs};
pub use pm::{pm, PmArgs};
pub use remove::{remove, RemoveArgs};
pub use run::{run, RunArgs};
pub use update::{update, UpdateArgs};

verus! {

/// A subcommand with its arguments.
#[derive(Debug)]
pub enum Subcommands {
    Pm(PmArgs),
    Install(InstallArgs),
    Add(AddArgs),
    Remove(RemoveArgs),
    List(ListArgs),
    Update(UpdateArgs),
    Dlx(DlxArgs),
    Exec(ExecArgs),
    Run(RunArgs),
    Complete(CompleteArgs),
}

/// The error that `pm` cannot do `op` with `option`.
pub fn unsupported_option(pm: PackageManager, op: PackageManagerOperation, option: &str) -> (r: Error)
    ensures
        outcome(Err(r)) == Outcome::Unsupported(pm, op, Some(option@)),
{
    Error::PackageManager(
        PackageManagerError::Unsupported { package_manager: pm, operation: op, option: Some(owned(option)) },
    )
}

/// `flag` alone when `on` holds, else nothing.
pub open spec fn flag_if(on: bool, flag: Seq<char>) -> Seq<Seq<char>> {
    if on {
        seq![flag]
    } else {
        Seq::empty()
    }
}

/// Whether a package manager spells dependency flags the npm way (`--save-dev`, `--omit=dev`).
pub open spec fn npm_like(pm: PackageManager) -> bool {
    pm is Npm || pm is Pnpm
}

/// Appends `flag` to `v`.
pub fn push_flag(v: &mut Vec<String>, flag: &str)
    ensures
        final(v).deep_view() == old(v).deep_view().push(flag@),
{
    let ghost before = v.deep_view();
    v.push(owned(flag));
    assert(v.deep_view() =~= before.push(flag@));
}

} // verus!
