# falcon_capstone

Rust-friendly access to the Capstone disassembly engine.

- `src/` is the verified library: the engine's enumerations and codes as plain
  values (`engine`), engine errors (`error`), NUL-terminated engine text and
  engine names (`text`), instruction records and their decoding into `Instr`
  (`instr`), instruction buffers and iteration (`buffer`), the state of an open
  handle and what each engine reply means (`handle`), and properties that span
  several operations (`laws`).
- `app/` drives the engine's C interface (through `capstone-sys`), copies the
  engine's replies into the library's plain values, and hands them to the
  library.
