# rollout_migration

A local thread store keeps the history of each thread in a rollout, a file of JSON lines. This
crate moves legacy rollouts to the paginated format, keeps the legacy source until an operator
releases it, and guards every later write against a source that an older writer still changes.

- `src/` is the verified library. Data and rules are plain functions; work that touches the disk,
  the index or a recorder is a machine that asks for one action at a time and is told what came of
  it. The modules whose names end in `_laws` state what holds of several functions together.
- `tests/` runs the library on concrete values, against a disk in memory and scripted replies.
- `app/` carries out what the machines ask for, with tokio, and takes the index, the recorders and
  the parsers of records from a host.

What the library takes from other crates stands in `src/outside.rs`: identifiers from `uuid`, times
from `chrono` and JSON from `serde_json`.
