# distant_core

Core data types and decision logic of distant, verified with Verus.

- `src/protocol`: the messages exchanged between clients, servers and plugins — change kinds and
  their sets, errors, metadata, permissions, remote paths, mounts, capabilities, batched
  messages, and the protocol version with its compatibility rule.
- `src/net/manager`: the connection manager — its requests and responses, the bookkeeping of
  connections, channels, tunnels and mounts, how each request is handled, the routing of
  responses back to the channel that asked, authentication relays, reconnection and the per-mount
  monitor.
- `src/net/server`: server configuration, shutdown rules, builders and the reply queue.
- `src/plugin`: plugins, the command line and setup protocol of plugin binaries.
- `src/text.rs`, `src/bitset.rs`: string and bit-mask helpers with their specifications.
- `app/`: the code that talks to the outside world (processes, channels, tasks, JSON, floating
  point text of durations) around the verified library.
- `tests/`: tests run against the compiled library.
