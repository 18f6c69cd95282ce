# mtrack

Remote control of a multitrack player, verified with Verus.

- `src/config` reads the configuration of the player and collects the song definitions.
- `src/controller` turns typed commands and OSC messages into events for the player.
- `src/osc` is the OSC endpoint: it reads what clients send, keeps track of what the player
  reports, and decides what is told to whom.
- `src/path.rs`, `src/net.rs` and `src/text.rs` hold paths, addresses and text helpers.

The loops of the endpoint and of the driver are step functions from an event to an action.
`app` holds the tasks, sockets, channels and files that run them.
