//! The pnpm command lines.
use vstd::prelude::*;

use crate::adaptors::{base_spec, opt_view, words0, words1, words2, words3, CommandAdaptor, CommandSpec};
use crate::enums::{pm_name, PackageManager, PackageManagerOperation};

verus! {

/// The pnpm command for each operation.
pub open spec fn pnpm_table(op: PackageManagerOperation) -> Option<CommandSpec> {
    match op {
        PackageManagerOperation::Pm => Some(base_spec(pm_name(PackageManager::Pnpm), Seq::empty(), false)),
        PackageManagerOperation::Install => Some(base_spec(pm_name(PackageManager::Pnpm), seq!["install"@], false)),
        PackageManagerOperation::FrozenInstall => Some(base_spec(pm_name(PackageManager::Pnpm), seq!["install"@, "--frozen-lockfile"@], false)),
        PackageManagerOperation::Add => Some(base_spec(pm_name(PackageManager::Pnpm), seq!["add"@], false)),
        PackageManagerOperation::GlobalAdd => Some(base_spec(pm_name(PackageManager::Pnpm), seq!["add"@, "--global"@], false)),
        PackageManagerOperation::Remove => Some(base_spec(pm_name(PackageManager::Pnpm), seq!["remove"@], false)),
        PackageManagerOperation::GlobalRemove => Some(base_spec(pm_name(PackageManager::Pnpm), seq!["remove"@, "--global"@], false)),
        PackageManagerOperation::List => Some(base_spec(pm_name(PackageManager::Pnpm), seq!["list"@], false)),
        PackageManagerOperation::GlobalList => Some(base_spec(pm_name(PackageManager::Pnpm), seq!["list"@, "--global"@], false)),
        PackageManagerOperation::Update => Some(base_spec(pm_name(PackageManager::Pnpm), seq!["update"@], false)),
        PackageManagerOperation::GlobalUpdate => Some(base_spec(pm_name(PackageManager::Pnpm), seq!["update"@, "--global"@], false)),
        PackageManagerOperation::InteractiveUpdate => Some(base_spec(pm_name(PackageManager::Pnpm), seq!["update"@, "--interactive"@], false)),
        PackageManagerOperation::GlobalInteractiveUpdate => Some(base_spec(pm_name(PackageManager::Pnpm), seq!["update"@, "--interactive"@, "--global"@], false)),
        PackageManagerOperation::Dlx => Some(base_spec(pm_name(PackageManager::Pnpm), seq!["dlx"@], false)),
        PackageManagerOperation::Exec => Some(base_spec(pm_name(PackageManager::Pnpm), seq!["exec"@], false)),
        PackageManagerOperation::Run => Some(base_spec(pm_name(PackageManager::Pnpm), seq!["run"@], false)),
    }
}

fn new(args: Vec<String>) -> (r: CommandAdaptor)
    ensures
        r@ == base_spec(pm_name(PackageManager::Pnpm), args.deep_view(), false),
{
    CommandAdaptor::new().set_program(PackageManager::Pnpm.to_string()).set_program_args(args)
}

impl CommandAdaptor {
    /// The command for `op`, or `None` where there is none.
    pub fn for_pnpm(op: PackageManagerOperation) -> (r: Option<CommandAdaptor>)
        ensures
            opt_view(r) == pnpm_table(op),
    {
        let adaptor = match op {
            PackageManagerOperation::Pm => new(words0()),
            PackageManagerOperation::Install => new(words1("install")),
            PackageManagerOperation::FrozenInstall => new(words2("install", "--frozen-lockfile")),
            PackageManagerOperation::Add => new(words1("add")),
            PackageManagerOperation::GlobalAdd => new(words2("add", "--global")),
            PackageManagerOperation::Remove => new(words1("remove")),
            PackageManagerOperation::GlobalRemove => new(words2("remove", "--global")),
            PackageManagerOperation::List => new(words1("list")),
            PackageManagerOperation::GlobalList => new(words2("list", "--global")),
            PackageManagerOperation::Update => new(words1("update")),
            PackageManagerOperation::GlobalUpdate => new(words2("update", "--global")),
            PackageManagerOperation::InteractiveUpdate => new(words2("update", "--interactive")),
            PackageManagerOperation::GlobalInteractiveUpdate => new(words3("update", "--interactive", "--global")),
            PackageManagerOperation::Dlx => new(words1("dlx")),
            PackageManagerOperation::Exec => new(words1("exec")),
            PackageManagerOperation::Run => new(words1("run")),
        };
        Some(adaptor)
    }
}

} // verus!
