# lora_e5

Verified support code for the STM32WLE5-based LoRa-E5 boards:

- `src/bitfield.rs` — register fields (read, write, flags) and their laws.
- `src/rcc.rs` — the reset and clock controller, as a register-file model.
- `src/phclk.rs` — peripheral clock frequencies and enable bits.
- `src/pwr.rs`, `src/device_signature.rs`, `src/subghz_radio.rs` — power
  control, the 64-bit device ID, and the radio's virtual GPIOs.
- `src/hil.rs`, `src/sdi12.rs`, `src/sdi12_ents.rs` — the SDI-12 bus
  interface, its UART driver and the system-call capsule. Command `1` sends
  the address query `?!`; the capsule on the driver hands the driver's
  completions back to itself and keeps "the capsule holds its transmit
  buffer only while the driver is idle".
- `src/board.rs` — board helpers (debug writer, I2C scan, capsule set-up,
  panic blink pattern).

Hardware access (memory-mapped registers, pins, alarms, process memory) lives
in `app/`, which carries out what the library decides.
