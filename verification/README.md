# deport

`deport` gives local dev servers stable `https://<name>.localhost` URLs: a
background daemon runs a TLS-terminating reverse proxy, starts the dev
servers, and keeps a table from hostnames to their ports.

This crate is a Verus project. The library under `src/` holds the logic,
each function with a contract that Verus proves:

- `routes` — the hostname-to-route table (over `dashmap`) and its laws;
- `ipc` — requests and responses, how the daemon handles each request,
  message framing on the socket;
- `commands` — the command line's types and what each command decides and
  prints, including the `--env KEY=value` reader;
- `cli_utils` — framework flags, RFC 1035 hostnames (over `regex`), URLs;
- `process_man`, `launcher` — process supervision and free-port search;
- `proxy`, `certs`, `trust_ca`, `daemon` — forwarding, certificate policy,
  CA installation plans, daemon life cycle;
- `text`, `styled` — character-level helpers and styled terminal text.

`app/` is the program around it: argument parsing with `clap`, sockets and
processes with `tokio`, the proxy and certificates with `rama`, terminal
colours with `colored`, message encoding with `rkyv`.

`tests/` runs the library on concrete values.
