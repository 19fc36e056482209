# s2_cli

Library behind the `s2` fleet command line. `src/` holds the logic, verified with
Verus; `app/main.rs` is the program around it (argument parsing, the registry
file, HTTP probes, `git` processes, the webhook listener and terminal styling).

Modules of `src/`:

- `text`: column padding, decimal rendering, prefix/substring tests, path
  segments and line splitting, each with a specification of its result.
- `checks`: verdicts of the liveness, auth-gate and manifest smoke checks, the
  local health ping, and the tally that decides the exit status of `verify`.
- `plan`: which services a `verify` filter selects and what each is probed with.
- `fleet`: the registry model, health-target lookup, gap listing, deployment
  status styling and the status table layout.
- `health`: the status line and body of the `health` command.
- `json`: JSON values and the extraction of deployment and webhook statuses.
- `worktree`: worktree names, `git` argument lists, porcelain listing parsing.
- `locate`: the decisions of the upward registry and fleet-root searches.
- `calls`: the standard-library and serde_json calls behind small wrappers.
