# greppy-rift-core

Native copy-on-write snapshots for agent workspaces: `probe`,
`prepare_snapshot_source`, `snapshot_exact` and `remove_snapshot`.

The library in `src/` is written in Verus. Each operation is a decision
machine: it starts from plain values (platform and path bytes), asks for one
filesystem operation at a time (`io::Request`), and is resumed with the answer
(`io::Reply`) until it finishes with a receipt or an error. Every step has an
exact contract over a spec function, and proof functions state what holds over
whole runs, whatever the replies: nothing at or below the source is ever
asked to change (probing included), the destination never lies inside the
source, an existing destination is refused, a failed snapshot removes its
partial destination and nothing else, removal changes nothing outside the
removed path and reports nothing removed for a missing one, each probe works
on files of its own, and a reported capability is honest about constant-time
metadata.

- `src/path.rs`: the Unix path grammar on bytes (components, parent, file
  name, join, prefix stripping) with its laws.
- `src/types.rs`, `src/io.rs`: public types, errors, requests and replies.
- `src/canonical.rs`, `src/btrfs.rs`, `src/linux.rs`, `src/metadata.rs`,
  `src/tree.rs`, `src/apfs.rs`, `src/strategy.rs`: the backends.
- `src/operations.rs`: the four public operations.

`app/` performs the requests with `std::fs`, `libc` and `walkdir`, and offers
the path-based API with serde and thiserror types. `tests/` drives the
machines against an in-memory filesystem.
