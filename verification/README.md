# st25r95

A driver for the ST25R95 NFC transceiver, written in Verus: the executable
code carries `requires`/`ensures` contracts that Verus proves.

- `src/driver.rs`: the driver and its type states (field, role, protocol).
  For its contracts the driver keeps ghost logs of the commands handed to
  the SPI implementation, the answers read, the Echo answers read, the
  deadlines it waited with, the polls of the link, the resets, flushes
  and IRQ_IN pulses, and the errors the SPI implementation returned; every command's contract relates these logs before and
  after the call. The pending-answer flag is tied by a type invariant to the
  commands the SPI implementation took, the answers read and the flushes.
- `src/calibration.rs`: the tag detector calibration as a search driven by
  the reported wake-up sources.
- `src/frame.rs`: response frames, the Echo answer, and the fixed-capacity
  buffers (`heapless`) that hold payloads.
- `src/command.rs`, `src/register/`, `src/protocol/`: command codes, Idle
  parameters, registers and ProtocolSelect parameters with their byte
  encodings and round-trip lemmas.
- `src/selection.rs`, `src/analog.rs`: parameter builders and analog
  register values checked against the protocol they are meant for.
- `src/mock.rs`: SPI and GPIO stand-ins that answer every command.
- `app/lib.rs`: timing figures in `f32`, which the verified library does not
  use.
- `tests/`: the behaviour of the library on concrete values.
