# cc1101

A driver for the Texas Instruments CC1101 sub-1 GHz radio transceiver,
verified with Verus.

The library decides what goes over the SPI bus and what the chip's replies
mean; it does no I/O itself. Each operation of `Cc1101` (set the frequency,
read the machine state, receive a packet, ...) starts a *job*: a list of
register operations (`RegOp`) and a way to finish (`Finish`). The driver hands
out one `Step` at a time: bytes to transfer in place, or the job's result.
The caller transfers the bytes and gives what came back to `Cc1101::resume`.
The contracts state the exact operations of every job and the exact
transition of `resume` (`resume_spec`), so the frames sent, the status kept
and the results returned are all pinned down.

Layout:

- `src/lib.rs`: the high level driver, the job machine and its laws.
- `src/types.rs`: the settings the high level API takes.
- `src/lowlevel.rs`: frames of single accesses and the low level state (the
  chip status byte).
- `src/lowlevel/registers.rs`, `fields.rs`, `access.rs`, `types.rs`: the
  register map, bit fields and field values.
- `src/lowlevel/convert.rs`: frequency, deviation, data rate, bandwidth and
  RSSI conversions.
- `app/`: the driver on an `embedded-hal` 1.0 `SpiDevice`, which runs the jobs
  over the bus, and the low level accessors.
- `tests/`: jobs run against scripted chip replies, and the conversions.
