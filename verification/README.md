# quartz_proxy

A proxy that logs the packets between a Minecraft client and server, with a verified core.

The client connects to `localhost:25566`, and the proxy passes everything on to a server at
`localhost:25565` and back. What is logged is decided by a packet filter, which starts as an empty
whitelist: `filter disable` has everything logged. Type `help` at the console for the commands.

## Layout

- `src/` is the library, written in Verus. Nothing in it does input or output.
  - `filter.rs` is the packet filter.
  - `arguments.rs` and `grammar.rs` take a command line apart, `command.rs` and `help.rs` say what
    each command does, and `console.rs` runs and completes lines on the settings in `proxy.rs`.
  - `connection.rs` decides what happens to the bytes of a connection, as a state machine: each
    event is answered with the next action.
  - `util.rs` renders raw packets; `text.rs`, `number.rs`, `order.rs` and `message.rs` hold what
    the others share.
  - `filter_laws.rs`, `console_laws.rs` and `connection_laws.rs` state and prove what holds across
    several of these.
- `tests/` runs the library on concrete values.
- `app/` is the program: it owns the sockets, the threads, the terminal and the timings, performs
  the actions that the library asks for, and uses Quartz (`quartz_net`, `quartz_chat`,
  `quartz_util`) to parse packets and print coloured text. It needs a clone of Quartz to build.
