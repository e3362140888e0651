# retro_chat

A small chat service in three programs, with its logic in a verified library.

- `src/` (Verus): the text rules (Unicode whitespace, trimming), the `HH:MM:SS`
  clock, the room's messages, the terminal server's per-connection state machine,
  the terminal client's handling of typed lines and display of messages, the
  client's retro look, and the web room's form, broadcast channel and event stream.
- `app/`: the programs that do the I/O: the Rocket web room (`web`), the tokio
  line server (`server`) and the cursive terminal client (`client <name>`).
- `tests/`: tests of the library.
