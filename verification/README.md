# mt5_rs

Client library for MetaTrader 5 terminals over their IPC named pipe,
verified with Verus.

`src/` is the verified library:

- `encode` — the command payloads and the 232-byte trade request;
- `decode`, `records` — the terminal's replies (account, terminal, symbol,
  tick, bar, position, order, deal, market depth, check and trade results);
- `reader`, `text` — the little-endian reader and UTF-16 text fields;
- `protocol` — the `Transport` trait, request framing, reply headers, pipe
  names and terminal discovery;
- `client` — `Mt5Client`, which sends commands over a `Transport`;
- `types`, `retcodes`, `error` — the data types.

Numbers the terminal sends as doubles are kept as their IEEE-754 bit
patterns (`f64::from_bits` gives the value back).

`app/` holds what runs outside the proofs: the Windows named pipe, the
process scan that finds running terminals, the floating-point margin and
profit estimates, and an error type with `Display`.
