# logger_lib

Core of an embedded data logger: sensor states, their 12-byte flash/BLE
packet format with a CRC-8, timestamps, and the decoding of BLE
advertisements (Govee climate sensors, our own advertising payload, the
Nordic UART Service).

- `src/` — the library, verified with Verus. Measured values are carried as
  the bit patterns of their `f32`s.
- `tests/` — tests of the library.
- `app/` — glue that works with `f32` values (the state filter, value
  conversions), channels between firmware tasks (`embassy-sync`) and serde
  (MessagePack messages).
