# nomad

The core of Nomad, a collaborative-editing plugin for Neovim, written in
Verus and verified.

- `src/` is the verified library:
  - `text/`: a buffer's text (a `crop` rope) kept in sync with its CRDT
    replica (`cola`), local and remote edits, the queue of edits whose echo
    from Neovim must not be applied twice, and conversions between byte
    offsets and points;
  - `neovim/`: what the callbacks behind Neovim's buffer, cursor, selection
    and decoration events decide, and how `on_bytes` arguments become edits;
  - `nomad/`: the registry of modules, actions and commands, the routing of
    the `:Mad` command, autocommand outcomes and event ordering;
  - `actor_map.rs`, `log.rs`, `params.rs`, `macros.rs`, `strings.rs`: the
    actors behind buffer events, the log directory, the collaboration
    parameters, the decisions behind the test attribute macros, and string
    comparison;
  - `laws.rs`: properties that span several operations.
- `app/` talks to Neovim, the file system and the compiler: it registers the
  autocommands and callbacks, draws the decorations, writes the logs, and
  expands the test macros, handing plain values to the library.
- `tests/` runs the library on concrete values.
