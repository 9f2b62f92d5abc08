# iroh-live-cli

The decisions of `irl`, which publishes and watches live audio and video over
iroh, as a verified library: every function under `src/` carries a contract that
Verus proves. The laws of the library are public proof functions whose names
start with `law_`.

## Layout

- `src/`: the library. It holds no I/O and no floating point. A figure that is a
  double elsewhere comes in as its bits and its texts.
- `tests/`: what the library does on concrete values, with the outside crates
  linked.
- `app/`: the program around it: the command line, session files, processes, the
  e-paper bus, the QR reader, and what is computed in floating point. The streaming stack is a
  trait that a program supplies.

## What is believed without proof

Calls into other crates stand behind small functions whose contracts are
believed: `qrcode` (`src/qr.rs`), `embedded-graphics` (`src/epaper.rs`),
`postcard` and `rand` (`src/chat.rs`), `bytesize` (`src/record.rs`), and two
functions of the standard library (`src/text.rs`). Each says in its doc comment
what it claims and what it leaves unsaid.
