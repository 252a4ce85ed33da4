# Verified IIO channel and device core

A Verus library for the Linux Industrial I/O (IIO) Rust abstractions.

- `src/chan_type.rs` — `ChannelType` and its C `enum iio_chan_type` numbers.
- `src/channels.rs` — `ChanSpec` (the fields of `struct iio_chan_spec` the abstractions use),
  `Specification` builders, `Channel`, `Mask`, `SensorData`, `SensorValue`, and the channel
  table concatenation; with lemmas on the flag bitfield and on masks.
- `src/buffer.rs` — sample layout (`ScanElement`, `Endian`) and the buffer setup callback table.
- `src/device.rs` — the `Driver` trait, the answers to the IIO core's `read_raw` / `write_raw`
  callbacks, the direct-mode claim outcome, and registration as a state machine
  (`Registration`) with lemmas on its runs.
- `src/dummy.rs` — the dummy driver's channel table and read/write behaviour.
- `src/error.rs` — negative-errno error codes and `to_result`.
- `src/trigger.rs` — the check made on a freshly allocated trigger.
- `src/revamp.rs` — the device interface under the names drivers import.
- `app/` — the kernel glue: C pointers, callback tables, the C calls of registration and
  module set-up. It needs the kernel's own `kernel` and `bindings` crates.
