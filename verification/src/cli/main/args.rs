//! The options that come before the subcommand.
use vstd::prelude::*;

use crate::enums::{pm_from_name, runner_from_name, PackageManager, ScriptRunner};
use crate::strings::owned;

verus! {

/// The options that come before the subcommand.
#[derive(Debug, Default)]
pub struct MainArgs {
    /// Path to the configuration file
    pub config: Option<String>,
    /// The package manager to use
    pub pm: Option<PackageManager>,
    /// The script runner to use
    pub runner: Option<ScriptRunner>,
    /// Print the command without executing it
    pub dry_run: bool,
}

/// `MainArgs` holds what was parsed with the options, in order, `config`, `pm`,
/// `runner`, `dry-run` at positions `at` to `at + 3` of `present` and `texts`.
pub open spec fn main_args_match(m: MainArgs, present: Seq<bool>, texts: Seq<Seq<char>>, at: int) -> bool {
    &&& (match m.config {
        Some(c) => present[at] && c@ == texts[at],
        None => !present[at],
    })
    &&& m.pm == (if present[at + 1] {
        pm_from_name(texts[at + 1])
    } else {
        None
    })
    &&& m.runner == (if present[at + 2] {
        runner_from_name(texts[at + 2])
    } else {
        None
    })
    &&& m.dry_run == present[at + 3]
}

/// The main arguments from the values parsed with the options `config`, `pm`,
/// `runner`, `dry-run` at positions 0 to 3.
pub fn main_args_from(present: &Vec<bool>, texts: &Vec<String>) -> (r: MainArgs)
    requires
        4 <= present@.len(),
        present@.len() == texts@.len(),
    ensures
        main_args_match(r, present@, texts.deep_view(), 0),
{
    MainArgs {
        config: if present[0] {
            Some(owned(texts[0].as_str()))
        } else {
            None
        },
        pm: if present[1] {
            PackageManager::from_name(texts[1].as_str())
        } else {
            None
        },
        runner: if present[2] {
            ScriptRunner::from_name(texts[2].as_str())
        } else {
            None
        },
        dry_run: present[3],
    }
}

} // verus!
