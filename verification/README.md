# gtty

Versioned IPC v0 messages for GTTY and the `gttyd` daemon that speaks them.

- `src/` is the verified library: the message model (`model`), the
  capability set (`capability_set`), newline-delimited framing (`frame`),
  protocol negotiation (`negotiate`), decimal text (`text`), and the daemon's
  per-connection decisions (`daemon`: `receive_line` and `Daemon::handle`).
- `app/` is the `gttyd` program: the Unix socket, the read/write loop around
  `Daemon::handle`, and the serde shapes of the messages on the wire.
- `tests/` exercises the library on concrete values.
