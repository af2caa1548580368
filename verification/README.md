# holodekk

Holodekk orchestrates scenes (projectors running `uhura`) and the subroutines
that run inside them. This crate is its core, written in Verus: every function
in `src/` carries a contract that Verus proves.

Layout:

- `src/entity` — entity ids (canonical uuid text), timestamps, repository and
  service errors.
- `src/repositories` — the in-memory repository (stores keyed by id, with
  their laws) and the decisions of the etcd repository.
- `src/scene` — scene entities, queries, the scene repository interface, the
  scene service (create, delete, find, get) and the scene monitor.
- `src/subroutine`, `src/projector` — subroutine and projector entities,
  queries and subroutine definitions.
- `src/process` — pidfile text, sync-pipe messages, daemon arguments and the
  termination procedure as a state machine.
- `src/managers`, `src/servers` — launch plans for projectors and
  subroutines, and the director's reconciliation of recorded and running
  projectors.
- `src/services` — the entity, subroutines, projectors and uhura services.
- `app/` — the runtime around the core: processes, files, signals, channels,
  HTTP and gRPC servers, serialization and the etcd client.
- `tests/` — tests of the library.
