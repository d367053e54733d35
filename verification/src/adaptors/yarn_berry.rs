//! The Yarn Berry command lines; Yarn Berry is started as `yarn`.
use vstd::prelude::*;

use crate::adaptors::{base_spec, opt_view, words0, words1, words2, CommandAdaptor, CommandSpec};
use crate::enums::{pm_name, PackageManager, PackageManagerOperation};

verus! {

/// The Yarn Berry command for each operation (Yarn Berry is started as `yarn`); `None` where it has none.
pub open spec fn yarn_berry_table(op: PackageManagerOperation) -> Option<CommandSpec> {
    match op {
        PackageManagerOperation::Pm => Some(base_spec(pm_name(PackageManager::Yarn), Seq::empty(), false)),
        PackageManagerOperation::Install => Some(base_spec(pm_name(PackageManager::Yarn), seq!["install"@], false)),
        PackageManagerOperation::FrozenInstall => Some(base_spec(pm_name(PackageManager::Yarn), seq!["install"@, "--immutable"@], false)),
        PackageManagerOperation::Add => Some(base_spec(pm_name(PackageManager::Yarn), seq!["add"@], false)),
        PackageManagerOperation::GlobalAdd => None,
        PackageManagerOperation::Remove => Some(base_spec(pm_name(PackageManager::Yarn), seq!["remove"@], false)),
        PackageManagerOperation::GlobalRemove => None,
        PackageManagerOperation::List => Some(base_spec(pm_name(PackageManager::Yarn), seq!["info"@, "--name-only"@], false)),
        PackageManagerOperation::GlobalList => None,
        PackageManagerOperation::Update => Some(base_spec(pm_name(PackageManager::Yarn), seq!["up"@], false)),
        PackageManagerOperation::GlobalUpdate => None,
        PackageManagerOperation::InteractiveUpdate => Some(base_spec(pm_name(PackageManager::Yarn), seq!["upgrade-interactive"@], false)),
        PackageManagerOperation::GlobalInteractiveUpdate => None,
        PackageManagerOperation::Dlx => Some(base_spec(pm_name(PackageManager::Yarn), seq!["dlx"@], false)),
        PackageManagerOperation::Exec => Some(base_spec(pm_name(PackageManager::Yarn), seq!["exec"@], false)),
        PackageManagerOperation::Run => Some(base_spec(pm_name(PackageManager::Yarn), seq!["run"@], false)),
    }
}

fn new(args: Vec<String>) -> (r: CommandAdaptor)
    ensures
        r@ == base_spec(pm_name(PackageManager::Yarn), args.deep_view(), false),
{
    CommandAdaptor::new().set_program(PackageManager::Yarn.to_string()).set_program_args(args)
}

impl CommandAdaptor {
    /// The command for `op`, or `None` where there is none.
    pub fn for_yarn_berry(op: PackageManagerOperation) -> (r: Option<CommandAdaptor>)
        ensures
            opt_view(r) == yarn_berry_table(op),
    {
        let adaptor = match op {
            PackageManagerOperation::Pm => new(words0()),
            PackageManagerOperation::Install => new(words1("install")),
            PackageManagerOperation::FrozenInstall => new(words2("install", "--immutable")),
            PackageManagerOperation::Add => new(words1("add")),
            PackageManagerOperation::GlobalAdd => return None,
            PackageManagerOperation::Remove => new(words1("remove")),
            PackageManagerOperation::GlobalRemove => return None,
            PackageManagerOperation::List => new(words2("info", "--name-only")),
            PackageManagerOperation::GlobalList => return None,
            PackageManagerOperation::Update => new(words1("up")),
            PackageManagerOperation::GlobalUpdate => return None,
            PackageManagerOperation::InteractiveUpdate => new(words1("upgrade-interactive")),
            PackageManagerOperation::GlobalInteractiveUpdate => return None,
            PackageManagerOperation::Dlx => new(words1("dlx")),
            PackageManagerOperation::Exec => new(words1("exec")),
            PackageManagerOperation::Run => new(words1("run")),
        };
        Some(adaptor)
    }
}

} // verus!
