# kernel_builder

A single-machine Linux kernel build scheduler: a daemon with an SQLite job
queue, container (Podman/Docker) or host-native build workers, a `kbs`
command line and an MCP interface for agents.

## Layout

- `src/` — the verified core, written in Verus. It holds the job model and
  its state machine, job identifiers, configuration and its validation, the
  admission policy for build requests and source trees, build-script and
  container-invocation generation, runtime selection, storage encodings, and
  the decisions behind the command line, the daemon and the MCP tools. Every
  function carries a contract; the laws of the library (the round trips of
  job identifiers, state names and timestamps through their stored text,
  policy containment, the job lifecycle, shell quoting) are proved as proof
  functions or as the contracts of the functions they are about. The store's
  SQL statements themselves live in `app/`; what they write (a state change
  and its event, a timestamp's text) is computed in `src/`.
- `app/` — the `kbs` program around the core: file, process, socket and
  database I/O, the async daemon and worker loop, the MCP server, and the
  serializable forms of the core's types.
- `tests/` — tests of the core on concrete values.
