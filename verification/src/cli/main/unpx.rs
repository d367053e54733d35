//! The `unpx` command: the main options and the arguments of `dlx` on one line.
use vstd::prelude::*;

use crate::cli::defs::{unpx_def, unpx_def_spec};
use crate::cli::main::args::{main_args_from, main_args_match, MainArgs};
use crate::cli::main::unpm::{operand_words, operands, words};
use crate::cli::parser::{fail_message, parse_all, parse_words, to_parse_error, ParseError};
use crate::cli::sub::DlxArgs;
use crate::context::{Context, ContextSpec};
use crate::strings::copy_strings;

verus! {

/// The parsed `unpx` command line.
#[derive(Debug)]
pub struct Unpx {
    pub main_args: MainArgs,
    pub dlx_args: DlxArgs,
}

impl Unpx {
    /// Parses a command line, program name first. The options are those of `unpm`
    /// before its subcommand and `-G, --no-global`; the other words are forwarded.
    pub fn try_parse_from(args: &[&str]) -> (r: Result<Unpx, ParseError>)
        ensures
            match parse_all(unpx_def_spec(), operands(words(args@))) {
                Ok(s) => r matches Ok(u) && main_args_match(u.main_args, s.present, s.texts, 0)
                    && u.dlx_args.global == !s.present[4] && u.dlx_args.forward_args.deep_view()
                    == s.positionals,
                Err(f) => r matches Err(e) && e.kind == f.kind && e.message@ == fail_message(f),
            },
    {
        let toks = operand_words(args);
        let def = unpx_def();
        match parse_words(&def, &toks, 0) {
            Ok(s) => {
                assert(toks.deep_view().skip(0) =~= toks.deep_view());
                Ok(
                    Unpx {
                        main_args: main_args_from(&s.present, &s.texts),
                        dlx_args: DlxArgs { global: !s.present[4], forward_args: copy_strings(&s.positionals) },
                    },
                )
            },
            Err(e) => {
                assert(toks.deep_view().skip(0) =~= toks.deep_view());
                Err(to_parse_error(&def, e))
            },
        }
    }

    /// Leaves the context as it is: `unpx` has no subcommand that would change it.
    pub fn extends_ctx(&self, ctx: &mut Context)
        ensures
            final(ctx)@ == old(ctx)@,
    {
    }

    /// The context in which the package manager is resolved: `ctx`, global unless
    /// `-G, --no-global` is given, as for `dlx`.
    pub fn resolution_ctx(&self, ctx: &Context) -> (r: Context)
        ensures
            r@ == (ContextSpec { global: self.dlx_args.global, ..ctx@ }),
    {
        ctx.with_global(self.dlx_args.global)
    }
}

} // verus!
