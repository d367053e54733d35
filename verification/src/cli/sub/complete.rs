//! `complete`: print the lines that set up shell completion for both programs.
use vstd::prelude::*;

use crate::context::Context;
use crate::enums::{shell_name, Shell};
use crate::strings::{concat, owned, strip_suffix};

verus! {

/// Generate shell completions
#[derive(Debug)]
pub struct CompleteArgs {
    /// The shell to generate completions for
    pub shell: Shell,
    /// Override generated binary name for unpm
    pub unpm: Option<String>,
    /// Override generated binary name for unpx
    pub unpx: Option<String>,
}

impl Default for CompleteArgs {
    fn default() -> (r: CompleteArgs)
        ensures
            r.shell == Shell::Bash && r.unpm is None && r.unpx is None,
    {
        CompleteArgs { shell: Shell::Bash, unpm: None, unpx: None }
    }
}

/// The program name used for `unpm`: the one given, else the name this program was
/// started under, else `unpm`.
pub open spec fn unpm_name(given: Option<Seq<char>>, argv0: Option<Seq<char>>) -> Seq<char> {
    match given {
        Some(n) => n,
        None => match argv0 {
            Some(n) => n,
            None => "unpm"@,
        },
    }
}

/// The program name used for `unpx`: the one given, else the `unpm` name with its
/// `unpm` ending replaced by `unpx`, else `unpx`.
pub open spec fn unpx_name(given: Option<Seq<char>>, unpm: Seq<char>) -> Seq<char> {
    match given {
        Some(n) => n,
        None => if "unpm"@.is_suffix_of(unpm) {
            unpm.subrange(0, unpm.len() - 4) + "unpx"@
        } else {
            "unpx"@
        },
    }
}

/// The set-up lines for `shell`, given the two program names.
pub open spec fn completion_script(shell: Shell, unpm: Seq<char>, unpx: Seq<char>) -> Seq<char> {
    let sh = shell_name(shell);
    match shell {
        Shell::Bash | Shell::Zsh => "source <(COMPLETE="@ + sh + " "@ + unpm + ");\nsource <(COMPLETE="@
            + sh + " "@ + unpx + ");"@,
        Shell::Elvish => "eval (E:COMPLETE="@ + sh + " "@ + unpm + " | slurp);\neval (E:COMPLETE="@
            + sh + " "@ + unpx + " | slurp);"@,
        Shell::Fish => "COMPLETE="@ + sh + " "@ + unpm + " | source;\nCOMPLETE="@ + sh + " "@ + unpx
            + " | source;"@,
        Shell::PowerShell => "$env:COMPLETE = \""@ + sh + "\"; "@ + unpm
            + " | Out-String | Invoke-Expression;\n$env:COMPLETE = \""@ + sh + "\"; "@ + unpx
            + " | Out-String | Invoke-Expression;\nRemove-Item Env:\\COMPLETE;"@,
    }
}

/// The view of an optional string.
pub open spec fn opt_str(o: Option<String>) -> Option<Seq<char>> {
    match o {
        Some(s) => Some(s@),
        None => None,
    }
}

/// The completion set-up lines for `args.shell`; `argv0` is the name this program was
/// started under, if known.
pub fn complete(ctx: &Context, args: &CompleteArgs, argv0: Option<String>) -> (r: String)
    ensures
        r@ == completion_script(
            args.shell,
            unpm_name(opt_str(args.unpm), opt_str(argv0)),
            unpx_name(opt_str(args.unpx), unpm_name(opt_str(args.unpm), opt_str(argv0))),
        ),
{
    proof {
        reveal_strlit("unpm");
    }
    let unpm = match &args.unpm {
        Some(n) => owned(n.as_str()),
        None => match argv0 {
            Some(n) => n,
            None => owned("unpm"),
        },
    };
    let unpx = match &args.unpx {
        Some(n) => owned(n.as_str()),
        None => match strip_suffix(unpm.as_str(), "unpm") {
            Some(prefix) => concat(prefix.as_str(), "unpx"),
            None => owned("unpx"),
        },
    };
    let sh = args.shell.as_str();
    let m = unpm.as_str();
    let x = unpx.as_str();
    let r = match args.shell {
        Shell::Bash | Shell::Zsh => {
            let mut t = String::new();
            t.append("source <(COMPLETE=");
            t.append(sh);
            t.append(" ");
            t.append(m);
            t.append(");\nsource <(COMPLETE=");
            t.append(sh);
            t.append(" ");
            t.append(x);
            t.append(");");
            t
        },
        Shell::Elvish => {
            let mut t = String::new();
            t.append("eval (E:COMPLETE=");
            t.append(sh);
            t.append(" ");
            t.append(m);
            t.append(" | slurp);\neval (E:COMPLETE=");
            t.append(sh);
            t.append(" ");
            t.append(x);
            t.append(" | slurp);");
            t
        },
        Shell::Fish => {
            let mut t = String::new();
            t.append("COMPLETE=");
            t.append(sh);
            t.append(" ");
            t.append(m);
            t.append(" | source;\nCOMPLETE=");
            t.append(sh);
            t.append(" ");
            t.append(x);
            t.append(" | source;");
            t
        },
        Shell::PowerShell => {
            let mut t = String::new();
            t.append("$env:COMPLETE = \"");
            t.append(sh);
            t.append("\"; ");
            t.append(m);
            t.append(" | Out-String | Invoke-Expression;\n$env:COMPLETE = \"");
            t.append(sh);
            t.append("\"; ");
            t.append(x);
            t.append(" | Out-String | Invoke-Expression;\nRemove-Item Env:\\COMPLETE;");
            t
        },
    };
    r
}

} // verus!
