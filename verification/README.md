# unity_project_runtime

A verified registry of the Unity projects that an editor assistant knows
about. Projects are registered lightweight (workspace id, canonical path,
display name, last time seen); a registered project can be activated, which
gives it a project-scoped runtime, and deactivated, which takes that runtime
out again while the registration stays. One project may have the focus of
the user interface; that focus never changes what is activated.

Layout:

- `src/` — the library, verified with Verus.
  - `registry.rs`: the registry, its mathematical model (`RegistryModel`) and
    the well-formedness invariant that every operation keeps.
  - `laws.rs`: properties that span operations (idempotent activation,
    deactivation keeps the registration, per-project isolation, ...).
  - `identity.rs`: canonical path checks, display names, identity resolution.
  - `commands.rs`: request validation, session filtering, registration of
    recently used directories.
  - `status.rs`: the status shown for a project.
  - `error.rs`, `text.rs`: errors and whitespace trimming.
- `tests/` — tests of the library.
- `app/` — the unverified side: the lock around the registry, the clock, the
  file system (via `dunce`), the Unity bridge and serialization (`serde`).
