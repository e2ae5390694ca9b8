# aeron-glide

A Rust client for the Aeron messaging system, split in two:

- `src/` — the verified library (Verus). It holds what the client decides on its
  own: the `ChannelBuilder` that writes channel URIs (`aeron:ipc`,
  `aeron:udp?endpoint=...|mtu=...`), the media driver's threading modes and idle
  strategies with their names and codes, the parsing of those names from a
  configuration, the order in which a configuration's settings are applied, the
  flow-control actions of assembled polling, the archive's value types, and
  the sequenced large-message layout used to exercise fragmentation.
- `app/` — the unverified part that talks to the Aeron C++ client through a
  `cxx` bridge (client, publications, subscriptions, images, counters, media
  driver, archive), the YAML configuration file, and the programs
  (`mediadriver`, `ping`, `pong`, `counters`, `throughput`, ...).

Modules of the library: `channel`, `config`, `driver`, `message`, `poll`, `archive`, `text`.
