//! The Node.js script runner command line.
use vstd::prelude::*;

use crate::adaptors::{base_spec, opt_view, words1, CommandAdaptor, CommandSpec};
use crate::enums::{runner_name, ScriptRunner, ScriptRunnerOperation};

verus! {

/// The command Node.js runs for each operation.
pub open spec fn node_table(op: ScriptRunnerOperation) -> Option<CommandSpec> {
    match op {
        ScriptRunnerOperation::Run => Some(base_spec(runner_name(ScriptRunner::Node), seq!["--run"@], true)),
    }
}

impl CommandAdaptor {
    /// The command for `op`.
    pub fn for_node(op: ScriptRunnerOperation) -> (r: Option<CommandAdaptor>)
        ensures
            opt_view(r) == node_table(op),
    {
        let new = CommandAdaptor::new().set_program(ScriptRunner::Node.to_string());
        let adaptor = match op {
            ScriptRunnerOperation::Run => new.set_program_args(words1("--run")).set_separate(true),
        };
        Some(adaptor)
    }
}

} // verus!
