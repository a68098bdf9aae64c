# relay_core

The logic of a relay that stands between coding agents and the providers of their models, written in Verus: the
functions of the library are executable Rust with contracts, and all of them are proved but for those that only call
other crates.

- `src/` is the library.
  - `hermes/`: installing the relay into the configuration of the Hermes agent, checking and removing it, running
    Hermes through it, and attributing the events of subagents. Laws about installing and removing stand in
    `hermes/laws.rs`.
  - `switchyard/`: routing model calls by the decisions of a service, with retries and a trusted fallback.
  - `otel/`: representing events as traces.
  - `bootstrap`, `locks`, `snapshots`, `sessions`, `gateway`, `commands/`: ownership of the shared gateway, locks,
    backups, idle sessions, requests that are passed on, and the commands.
  - `json`, `json_paths`, `ordered`, `text`, `url`, `ids`, `time`: values, and what is taken from other crates.
- `tests/` runs the library.
- `app/` is ordinary Rust around the library: files, processes, the network and the command line.

What is taken from other crates stands behind functions marked `external_body`, each with a comment that says what its
contract claims.
