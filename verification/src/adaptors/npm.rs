//! The npm command lines.
use vstd::prelude::*;

use crate::adaptors::{base_spec, opt_view, words0, words1, words2, CommandAdaptor, CommandSpec};
use crate::enums::{pm_name, PackageManager, PackageManagerOperation};
use crate::strings::owned;

verus! {

/// The npm command for each operation; `None` where npm has none.
pub open spec fn npm_table(op: PackageManagerOperation) -> Option<CommandSpec> {
    match op {
        PackageManagerOperation::Pm => Some(base_spec(pm_name(PackageManager::Npm), Seq::empty(), false)),
        PackageManagerOperation::Install => Some(base_spec(pm_name(PackageManager::Npm), seq!["install"@], false)),
        PackageManagerOperation::FrozenInstall => Some(base_spec(pm_name(PackageManager::Npm), seq!["ci"@], false)),
        PackageManagerOperation::Add => Some(base_spec(pm_name(PackageManager::Npm), seq!["add"@], false)),
        PackageManagerOperation::GlobalAdd => Some(base_spec(pm_name(PackageManager::Npm), seq!["add"@, "--global"@], false)),
        PackageManagerOperation::Remove => Some(base_spec(pm_name(PackageManager::Npm), seq!["remove"@], false)),
        PackageManagerOperation::GlobalRemove => Some(base_spec(pm_name(PackageManager::Npm), seq!["remove"@, "--global"@], false)),
        PackageManagerOperation::List => Some(base_spec(pm_name(PackageManager::Npm), seq!["list"@], false)),
        PackageManagerOperation::GlobalList => Some(base_spec(pm_name(PackageManager::Npm), seq!["list"@, "--global"@], false)),
        PackageManagerOperation::Update => Some(base_spec(pm_name(PackageManager::Npm), seq!["update"@], false)),
        PackageManagerOperation::GlobalUpdate => Some(base_spec(pm_name(PackageManager::Npm), seq!["update"@, "--global"@], false)),
        PackageManagerOperation::InteractiveUpdate => None,
        PackageManagerOperation::GlobalInteractiveUpdate => None,
        PackageManagerOperation::Dlx => Some(base_spec("npx"@, Seq::empty(), false)),
        PackageManagerOperation::Exec => Some(base_spec(pm_name(PackageManager::Npm), seq!["exec"@], false)),
        PackageManagerOperation::Run => Some(base_spec(pm_name(PackageManager::Npm), seq!["run"@], true)),
    }
}

fn new(args: Vec<String>) -> (r: CommandAdaptor)
    ensures
        r@ == base_spec(pm_name(PackageManager::Npm), args.deep_view(), false),
{
    CommandAdaptor::new().set_program(PackageManager::Npm.to_string()).set_program_args(args)
}

impl CommandAdaptor {
    /// The command for `op`, or `None` where there is none.
    pub fn for_npm(op: PackageManagerOperation) -> (r: Option<CommandAdaptor>)
        ensures
            opt_view(r) == npm_table(op),
    {
        let adaptor = match op {
            PackageManagerOperation::Pm => new(words0()),
            PackageManagerOperation::Install => new(words1("install")),
            PackageManagerOperation::FrozenInstall => new(words1("ci")),
            PackageManagerOperation::Add => new(words1("add")),
            PackageManagerOperation::GlobalAdd => new(words2("add", "--global")),
            PackageManagerOperation::Remove => new(words1("remove")),
            PackageManagerOperation::GlobalRemove => new(words2("remove", "--global")),
            PackageManagerOperation::List => new(words1("list")),
            PackageManagerOperation::GlobalList => new(words2("list", "--global")),
            PackageManagerOperation::Update => new(words1("update")),
            PackageManagerOperation::GlobalUpdate => new(words2("update", "--global")),
            PackageManagerOperation::InteractiveUpdate => return None,
            PackageManagerOperation::GlobalInteractiveUpdate => return None,
            PackageManagerOperation::Dlx => new(words0()).set_program(owned("npx")),
            PackageManagerOperation::Exec => new(words1("exec")),
            PackageManagerOperation::Run => new(words1("run")).set_separate(true),
        };
        Some(adaptor)
    }
}

} // verus!
