# terraform-wrapper (verified core)

A type-safe Terraform CLI wrapper. The library in `src/` is written in
Verus: every command builder states, as a contract, the exact argument list
it produces, and the decisions around running a command (how the process is
invoked, which exit codes count as success, which result a command yields,
how the binary is found) are verified functions.

Layout:

- `src/commands/` — one module per Terraform subcommand. Each command has a
  model of its options (`XxxOptions`), a spec `args()` over that model, and
  builder methods whose contracts say how they change the model.
- `src/command.rs` — the `TerraformCommand` trait, with `-input=false`
  injection stated over the argument model.
- `src/client.rs` — the `Terraform` client and its builder; the process
  invocation (`-chdir`, the subcommand, global arguments, the rest of the command's arguments, environment).
- `src/exec.rs` — command outputs, exit-status judgement, trimming and line
  splitting.
- `src/config.rs` — the `.tf.json` configuration builder.
- `src/types/` — plain forms of Terraform's JSON reports (outputs,
  validation, version, state, plan), which `app/` fills from JSON.
- `src/streaming.rs` — the log line of Terraform's streamed JSON output.
- `src/keyed.rs`, `src/text.rs` — keyed lists standing for maps, and the
  argument-text building blocks.
- `app/` — plain Rust around the library: starting processes with Tokio,
  timeouts, streaming NDJSON output, serde parsing of Terraform's JSON,
  writing configuration files, and the error type with `Display`.
