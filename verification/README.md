# opsd

The rules of a small operations daemon, verified with Verus.

- `src/command.rs`: commands that run in the background, and the answers to requests to
  run, describe and stop them. `src/command_laws.rs` states what holds across requests.
- `src/interrupt.rs`: the channel on which the process of a command is interrupted.
- `src/stream.rs`: a byte stream over the binary messages of a websocket.
  `src/stream_laws.rs` states that nothing of it is lost or reordered.
- `src/server.rs`: who is let into an SSH session, its channels, and its terminal.
- `src/sftp.rs`: the steps and answers of an SFTP session. `src/sftp_laws.rs` states what
  holds across them.
- `src/async_fs_stream.rs`: when reading and writing a descriptor is tried again.
- `src/name_map.rs`: the map from names that tasks and open files are kept in.

`app/` is the daemon itself: sockets, files, processes and locks around these rules.
`tests/` runs the library with the crates it stands on.
