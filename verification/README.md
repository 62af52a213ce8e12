# tcp_server

A small TCP server library with a verified core.

- `src/rich_text`: ANSI colouring and formatting of text (`color_text`, `format_text`,
  and the `Colorize` / `Formatize` traits on `&str` and `String`).
- `src/logger`: the log (`log`, `Entry`, `Highlight`): `log` records a message newest-first
  and gives the highlighted line to show for it; the `Logger` trait records a message and
  gives back the message and that line.
- `src/network/packet.rs`: the wire format. A packet is its id in two little-endian bytes
  followed by its content; `TestPacket` carries at most one byte of UTF-8 text,
  `KeepAlivePacket` a 32-bit number.
- `src/server.rs`: the decisions of a connection. `reader_step` says what to do with one read
  from the stream, `keep_alive_step` / `keep_alive_tick` what the keep-alive timer does.
  `next_awaited` gives the keep-alive number to await after each step, and `accept_step` what
  the accept loop does. Proof functions there state that a text packet arrives as sent, that
  an echoed keep-alive packet completes its check, and that the awaited number is always 0 or
  the last one sent.
- `src/client.rs`: when the test client stops sending.
- `src/util/number.rs`: a non-zero number drawn from the clock.
- `app/main.rs`: the program around the library: sockets, threads, the process-wide log,
  printing, and a test client.
