# xccute_contract

The traits and value types a generated argv command implements, verified with
Verus. A command is `program + argv`, never a shell string.

- `src/preview.rs`: `CommandPreview` (program, argv and the display line derived
  from them) and `XccuteCommandArrangement`.
- `src/validation.rs`: `CommandValidationError`, its kinds and texts,
  `ValidatedCommand`, `CommandExecutionError`.
- `src/approval.rs`: approvals, receipts, policy errors and the outcome of a
  policy's answer.
- `src/metadata.rs`, `src/roles.rs`: sidecar policy metadata and its merge;
  `src/metadata_laws.rs` proves how merging and the builders relate.
- `src/command.rs`: the command traits; validation runs before a preview is
  materialized or a policy is asked. An implementation of
  `CompositeShellCommand` names its arguments by the spec function
  `arg_texts` (and, if it overrides `ok_codes`, sets `keeps_default_ok_codes`
  to false); an implementation outside Verus writes them as plain functions
  that are never called, as the tests do.
- `app/`: turning previews into `std::process::Command`s and running them.
