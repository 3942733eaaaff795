# geist

The policy and pipeline logic of the geist governed runtime, written in
Verus: access control policies for autonomous agent operations, the
processor pipeline of the edge gateway, access log entries and the client's
report of a check.

## Layout

- `src/` — the verified library.
  - `text`, `string_match`: string matching (exact, prefix, suffix,
    substring; regular expressions through the `regex` crate).
  - `context`, `inputs`, `config`, `compiler`, `decision`, `error`,
    `evaluator`: the policy decision point — agent operations, their
    inputs, match conditions compiled to predicates, and the deny-first
    evaluator with its laws.
  - `access_control`: the simpler per-field policy of the access control
    processor, with its evaluator and laws.
  - `phase`, `processor`, `compositor`, `adapter`: phase results, the
    processor contract, the sequence compositor as a step machine, and the
    answer sent for a pipeline outcome.
  - `acl`, `policy_processor`: the two access control processors, reading
    agent context from the `x-geist-*` request headers.
  - `access_log`, `registry`, `manifest`, `cli`: access log entries, the
    extension registry, component kinds, and the client's URL and report.
- `app/` — the gateway binary and the `check` client: axum serving, the
  asynchronous phase loop, JSON configuration, extension self-registration,
  the access log writer and telemetry.
- `tests/` — tests of the library.
