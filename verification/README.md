# unpm

A unified command-line front end for the Node.js package managers (npm, pnpm, yarn,
yarn-berry, bun), with `unpx` as an alias for `unpm dlx`. The library in `src/` holds
the tool's logic and is verified with Verus; `app/` is the program around it.

## Layout

- `src/cli/parser.rs`, `src/cli/defs.rs`: the command-line grammar and the options of
  each command; `src/cli/main/`: parsing the `unpm` and `unpx` command lines and
  planning what they do; `src/cli/sub/`: the command each subcommand plans.
- `src/adaptors/`: the command line each package manager or script runner is given
  for an operation.
- `src/context.rs`, `src/resolve.rs`: the config file in use, the context of a
  command, and the choice of the package manager and script runner.
- `src/detect.rs`, `src/package.rs`, `src/json.rs`, `src/fs.rs`: detecting the
  package manager of a project from its lockfiles, its `package.json` and what an
  install left behind.
- `src/lists.rs`, `src/search.rs`, `src/order.rs`: what shell completion offers.
- `src/errors.rs`, `src/enums.rs`, `src/strings.rs`, `src/text.rs`, `src/numbers.rs`:
  messages, names, and string helpers.
- `src/laws.rs`: properties of the tool as a whole, proved.
- `app/`: reading files and the environment, walking up directories, running
  commands, the selection prompt, registry search and shell completion.
