//! The package managers, script runners, shells and operations the tool knows, with
//! their kebab-case names.
use vstd::prelude::*;

use crate::strings::str_eq;

verus! {

/// A Node.js package manager.
#[derive(Clone, Copy, Debug, PartialEq, Eq, Structural, Hash)]
pub enum PackageManager {
    Npm,
    Pnpm,
    /// Yarn Classic (v1)
    Yarn,
    /// Yarn Berry (v2+)
    YarnBerry,
    Bun,
}

/// A script runner that can run `package.json` scripts without a package manager.
#[derive(Clone, Copy, Debug, PartialEq, Eq, Structural, Hash)]
pub enum ScriptRunner {
    /// Built-in script runner provided by Node.js, requires v22+
    Node,
}

/// What the tool asks a package manager to do.
#[derive(Clone, Copy, Debug, PartialEq, Eq, Structural, Hash)]
pub enum PackageManagerOperation {
    Pm,
    Install,
    FrozenInstall,
    Add,
    GlobalAdd,
    Remove,
    GlobalRemove,
    List,
    GlobalList,
    Update,
    GlobalUpdate,
    InteractiveUpdate,
    GlobalInteractiveUpdate,
    Dlx,
    Exec,
    Run,
}

/// What the tool asks a script runner to do.
#[derive(Clone, Copy, Debug, PartialEq, Eq, Structural, Hash)]
pub enum ScriptRunnerOperation {
    Run,
}

/// A shell for which completion set-up lines can be printed.
#[derive(Clone, Copy, Debug, PartialEq, Eq, Structural, Hash)]
pub enum Shell {
    Bash,
    Elvish,
    Fish,
    PowerShell,
    Zsh,
}

/// The identifier of a package manager on the command line and in config files.
pub open spec fn pm_name(pm: PackageManager) -> Seq<char> {
    match pm {
        PackageManager::Npm => "npm"@,
        PackageManager::Pnpm => "pnpm"@,
        PackageManager::Yarn => "yarn"@,
        PackageManager::YarnBerry => "yarn-berry"@,
        PackageManager::Bun => "bun"@,
    }
}

/// All package managers in declaration order.
pub open spec fn all_pms() -> Seq<PackageManager> {
    seq![
        PackageManager::Npm,
        PackageManager::Pnpm,
        PackageManager::Yarn,
        PackageManager::YarnBerry,
        PackageManager::Bun,
    ]
}

/// The package manager whose name is `s`, if any.
pub open spec fn pm_from_name(s: Seq<char>) -> Option<PackageManager> {
    if s == "npm"@ {
        Some(PackageManager::Npm)
    } else if s == "pnpm"@ {
        Some(PackageManager::Pnpm)
    } else if s == "yarn"@ {
        Some(PackageManager::Yarn)
    } else if s == "yarn-berry"@ {
        Some(PackageManager::YarnBerry)
    } else if s == "bun"@ {
        Some(PackageManager::Bun)
    } else {
        None
    }
}

/// The identifier of a script runner.
pub open spec fn runner_name(r: ScriptRunner) -> Seq<char> {
    match r {
        ScriptRunner::Node => "node"@,
    }
}

/// The script runner whose name is `s`, if any.
pub open spec fn runner_from_name(s: Seq<char>) -> Option<ScriptRunner> {
    if s == "node"@ {
        Some(ScriptRunner::Node)
    } else {
        None
    }
}

/// The name of a shell.
pub open spec fn shell_name(sh: Shell) -> Seq<char> {
    match sh {
        Shell::Bash => "bash"@,
        Shell::Elvish => "elvish"@,
        Shell::Fish => "fish"@,
        Shell::PowerShell => "powershell"@,
        Shell::Zsh => "zsh"@,
    }
}

/// The shell whose name is `s`, if any.
pub open spec fn shell_from_name(s: Seq<char>) -> Option<Shell> {
    if s == "bash"@ {
        Some(Shell::Bash)
    } else if s == "elvish"@ {
        Some(Shell::Elvish)
    } else if s == "fish"@ {
        Some(Shell::Fish)
    } else if s == "powershell"@ {
        Some(Shell::PowerShell)
    } else if s == "zsh"@ {
        Some(Shell::Zsh)
    } else {
        None
    }
}

/// The human description of an operation, used in error messages.
pub open spec fn op_description(op: PackageManagerOperation) -> Seq<char> {
    match op {
        PackageManagerOperation::Pm => "forward to package manager"@,
        PackageManagerOperation::Install => "install dependencies"@,
        PackageManagerOperation::FrozenInstall => "frozen install dependencies"@,
        PackageManagerOperation::Add => "add packages"@,
        PackageManagerOperation::GlobalAdd => "add global packages"@,
        PackageManagerOperation::Remove => "remove packages"@,
        PackageManagerOperation::GlobalRemove => "remove global packages"@,
        PackageManagerOperation::List => "list packages"@,
        PackageManagerOperation::GlobalList => "list global packages"@,
        PackageManagerOperation::Update => "update packages"@,
        PackageManagerOperation::GlobalUpdate => "update global packages"@,
        PackageManagerOperation::InteractiveUpdate => "interactive update packages"@,
        PackageManagerOperation::GlobalInteractiveUpdate => "interactive update global packages"@,
        PackageManagerOperation::Dlx => "execute package commands without install"@,
        PackageManagerOperation::Exec => "execute installed package commands"@,
        PackageManagerOperation::Run => "run scripts"@,
    }
}

/// The human description of a script runner operation.
pub open spec fn runner_op_description(op: ScriptRunnerOperation) -> Seq<char> {
    match op {
        ScriptRunnerOperation::Run => "run scripts"@,
    }
}

impl PackageManager {
    /// The kebab-case identifier of this package manager.
    pub fn as_str(&self) -> (r: &'static str)
        ensures
            r@ == pm_name(*self),
    {
        match self {
            PackageManager::Npm => "npm",
            PackageManager::Pnpm => "pnpm",
            PackageManager::Yarn => "yarn",
            PackageManager::YarnBerry => "yarn-berry",
            PackageManager::Bun => "bun",
        }
    }

    /// The identifier as an owned string.
    pub fn to_string(&self) -> (r: String)
        ensures
            r@ == pm_name(*self),
    {
        String::from_str(self.as_str())
    }

    /// The package manager named `s`; the names are case-sensitive.
    pub fn from_name(s: &str) -> (r: Option<PackageManager>)
        ensures
            r == pm_from_name(s@),
    {
        if str_eq(s, "npm") {
            Some(PackageManager::Npm)
        } else if str_eq(s, "pnpm") {
            Some(PackageManager::Pnpm)
        } else if str_eq(s, "yarn") {
            Some(PackageManager::Yarn)
        } else if str_eq(s, "yarn-berry") {
            Some(PackageManager::YarnBerry)
        } else if str_eq(s, "bun") {
            Some(PackageManager::Bun)
        } else {
            None
        }
    }

    /// All package managers, in the order in which they are offered for selection.
    pub fn all() -> (r: Vec<PackageManager>)
        ensures
            r@ == all_pms(),
    {
        let r = vec![
            PackageManager::Npm,
            PackageManager::Pnpm,
            PackageManager::Yarn,
            PackageManager::YarnBerry,
            PackageManager::Bun,
        ];
        assert(r@ =~= all_pms());
        r
    }

    /// The package manager at position `i` of [`PackageManager::all`].
    pub fn from_index(i: usize) -> (r: Option<PackageManager>)
        ensures
            r == (if i < all_pms().len() {
                Some(all_pms()[i as int])
            } else {
                None
            }),
    {
        let all = PackageManager::all();
        if i < all.len() {
            Some(all[i])
        } else {
            None
        }
    }
}

impl ScriptRunner {
    /// The identifier of this script runner.
    pub fn as_str(&self) -> (r: &'static str)
        ensures
            r@ == runner_name(*self),
    {
        match self {
            ScriptRunner::Node => "node",
        }
    }

    /// The identifier as an owned string.
    pub fn to_string(&self) -> (r: String)
        ensures
            r@ == runner_name(*self),
    {
        String::from_str(self.as_str())
    }

    /// The script runner named `s`.
    pub fn from_name(s: &str) -> (r: Option<ScriptRunner>)
        ensures
            r == runner_from_name(s@),
    {
        if str_eq(s, "node") {
            Some(ScriptRunner::Node)
        } else {
            None
        }
    }
}

impl Shell {
    /// The name of this shell, as the completion engine expects it in `COMPLETE`.
    pub fn as_str(&self) -> (r: &'static str)
        ensures
            r@ == shell_name(*self),
    {
        match self {
            Shell::Bash => "bash",
            Shell::Elvish => "elvish",
            Shell::Fish => "fish",
            Shell::PowerShell => "powershell",
            Shell::Zsh => "zsh",
        }
    }

    /// The shell named `s`.
    pub fn from_name(s: &str) -> (r: Option<Shell>)
        ensures
            r == shell_from_name(s@),
    {
        if str_eq(s, "bash") {
            Some(Shell::Bash)
        } else if str_eq(s, "elvish") {
            Some(Shell::Elvish)
        } else if str_eq(s, "fish") {
            Some(Shell::Fish)
        } else if str_eq(s, "powershell") {
            Some(Shell::PowerShell)
        } else if str_eq(s, "zsh") {
            Some(Shell::Zsh)
        } else {
            None
        }
    }
}

impl PackageManagerOperation {
    /// The description of this operation used in error messages.
    pub fn as_str(&self) -> (r: &'static str)
        ensures
            r@ == op_description(*self),
    {
        match self {
            PackageManagerOperation::Pm => "forward to package manager",
            PackageManagerOperation::Install => "install dependencies",
            PackageManagerOperation::FrozenInstall => "frozen install dependencies",
            PackageManagerOperation::Add => "add packages",
            PackageManagerOperation::GlobalAdd => "add global packages",
            PackageManagerOperation::Remove => "remove packages",
            PackageManagerOperation::GlobalRemove => "remove global packages",
            PackageManagerOperation::List => "list packages",
            PackageManagerOperation::GlobalList => "list global packages",
            PackageManagerOperation::Update => "update packages",
            PackageManagerOperation::GlobalUpdate => "update global packages",
            PackageManagerOperation::InteractiveUpdate => "interactive update packages",
            PackageManagerOperation::GlobalInteractiveUpdate => "interactive update global packages",
            PackageManagerOperation::Dlx => "execute package commands without install",
            PackageManagerOperation::Exec => "execute installed package commands",
            PackageManagerOperation::Run => "run scripts",
        }
    }
}

impl ScriptRunnerOperation {
    /// The description of this operation used in error messages.
    pub fn as_str(&self) -> (r: &'static str)
        ensures
            r@ == runner_op_description(*self),
    {
        match self {
            ScriptRunnerOperation::Run => "run scripts",
        }
    }
}

/// Distinct package managers have distinct names, and a name read back gives the
/// package manager it names.
pub proof fn lemma_pm_name_round_trip(pm: PackageManager)
    ensures
        pm_from_name(pm_name(pm)) == Some(pm),
{
    reveal_strlit("npm");
    reveal_strlit("pnpm");
    reveal_strlit("yarn");
    reveal_strlit("yarn-berry");
    reveal_strlit("bun");
    assert("npm"@.len() == 3);
    assert("pnpm"@.len() == 4);
    assert("yarn"@.len() == 4);
    assert("yarn-berry"@.len() == 10);
    assert("bun"@.len() == 3);
    assert("bun"@[0] != "npm"@[0]);
    assert("yarn"@[0] != "pnpm"@[0]);
    assert("bun"@ != "npm"@);
    assert("yarn"@ != "pnpm"@);
}

/// Reading a name that names a package manager and printing it again gives the name back.
pub proof fn lemma_pm_name_parse_print(s: Seq<char>)
    ensures
        pm_from_name(s) matches Some(pm) ==> pm_name(pm) == s,
{
}

/// Every shell name reads back as the shell it names.
pub proof fn lemma_shell_name_round_trip(sh: Shell)
    ensures
        shell_from_name(shell_name(sh)) == Some(sh),
{
    reveal_strlit("bash");
    reveal_strlit("elvish");
    reveal_strlit("fish");
    reveal_strlit("powershell");
    reveal_strlit("zsh");
    assert("bash"@.len() == 4);
    assert("elvish"@.len() == 6);
    assert("fish"@.len() == 4);
    assert("powershell"@.len() == 10);
    assert("zsh"@.len() == 3);
    assert("fish"@[0] != "bash"@[0]);
    assert("fish"@ != "bash"@);
}

} // verus!
