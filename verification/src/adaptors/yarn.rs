//! The Yarn Classic command lines.
use vstd::prelude::*;

use crate::adaptors::{base_spec, opt_view, words0, words1, words2, CommandAdaptor, CommandSpec};
use crate::enums::{pm_name, PackageManager, PackageManagerOperation};

verus! {

/// The Yarn Classic command for each operation; `None` where it has none.
pub open spec fn yarn_table(op: PackageManagerOperation) -> Option<CommandSpec> {
    match op {
        PackageManagerOperation::Pm => Some(base_spec(pm_name(PackageManager::Yarn), Seq::empty(), false)),
        PackageManagerOperation::Install => Some(base_spec(pm_name(PackageManager::Yarn), seq!["install"@], false)),
        PackageManagerOperation::FrozenInstall => Some(base_spec(pm_name(PackageManager::Yarn), seq!["install"@, "--frozen-lockfile"@], false)),
        PackageManagerOperation::Add => Some(base_spec(pm_name(PackageManager::Yarn), seq!["add"@], false)),
        PackageManagerOperation::GlobalAdd => Some(base_spec(pm_name(PackageManager::Yarn), seq!["global"@, "add"@], false)),
        PackageManagerOperation::Remove => Some(base_spec(pm_name(PackageManager::Yarn), seq!["remove"@], false)),
        PackageManagerOperation::GlobalRemove => Some(base_spec(pm_name(PackageManager::Yarn), seq!["global"@, "remove"@], false)),
        PackageManagerOperation::List => Some(base_spec(pm_name(PackageManager::Yarn), seq!["list"@], false)),
        PackageManagerOperation::GlobalList => Some(base_spec(pm_name(PackageManager::Yarn), seq!["global"@, "list"@], false)),
        PackageManagerOperation::Update => Some(base_spec(pm_name(PackageManager::Yarn), seq!["upgrade"@], false)),
        PackageManagerOperation::GlobalUpdate => Some(base_spec(pm_name(PackageManager::Yarn), seq!["global"@, "upgrade"@], false)),
        PackageManagerOperation::InteractiveUpdate => Some(base_spec(pm_name(PackageManager::Yarn), seq!["upgrade-interactive"@], false)),
        PackageManagerOperation::GlobalInteractiveUpdate => Some(base_spec(pm_name(PackageManager::Yarn), seq!["global"@, "upgrade-interactive"@], false)),
        PackageManagerOperation::Dlx => None,
        PackageManagerOperation::Exec => Some(base_spec(pm_name(PackageManager::Yarn), seq!["exec"@], true)),
        PackageManagerOperation::Run => Some(base_spec(pm_name(PackageManager::Yarn), seq!["run"@], false)),
    }
}

fn new(args: Vec<String>) -> (r: CommandAdaptor)
    ensures
        r@ == base_spec(pm_name(PackageManager::Yarn), args.deep_view(), false),
{
    CommandAdaptor::new().set_program(PackageManager::Yarn.to_string()).set_program_args(args)
}

impl CommandAdaptor {
    /// The command for `op`, or `None` where there is none.
    pub fn for_yarn(op: PackageManagerOperation) -> (r: Option<CommandAdaptor>)
        ensures
            opt_view(r) == yarn_table(op),
    {
        let adaptor = match op {
            PackageManagerOperation::Pm => new(words0()),
            PackageManagerOperation::Install => new(words1("install")),
            PackageManagerOperation::FrozenInstall => new(words2("install", "--frozen-lockfile")),
            PackageManagerOperation::Add => new(words1("add")),
            PackageManagerOperation::GlobalAdd => new(words2("global", "add")),
            PackageManagerOperation::Remove => new(words1("remove")),
            PackageManagerOperation::GlobalRemove => new(words2("global", "remove")),
            PackageManagerOperation::List => new(words1("list")),
            PackageManagerOperation::GlobalList => new(words2("global", "list")),
            PackageManagerOperation::Update => new(words1("upgrade")),
            PackageManagerOperation::GlobalUpdate => new(words2("global", "upgrade")),
            PackageManagerOperation::InteractiveUpdate => new(words1("upgrade-interactive")),
            PackageManagerOperation::GlobalInteractiveUpdate => new(words2("global", "upgrade-interactive")),
            PackageManagerOperation::Dlx => return None,
            PackageManagerOperation::Exec => new(words1("exec")).set_separate(true),
            PackageManagerOperation::Run => new(words1("run")),
        };
        Some(adaptor)
    }
}

} // verus!
