# aspeed_ddk

Verified core of an ASPEED AST1060 driver kit.

- `src/spi/aspeed_norflash.rs` — NOR-flash access over any `SpiNorDevice`:
  bounded reads, writes split at 256-byte program pages, sector erases,
  each stated by the calls it makes, as the device's call history records them.
- `src/spi/device.rs` — the chip-select transaction as a state machine
  (with or without a SPI monitor in the path); the bus driver performs
  its actions.
- `src/otp/` — OTP session state machine, DWORD-write checks, strap-region
  packing.
- `src/spimonitor.rs` — SPI monitor configuration types and interfaces.
- `app/` — `embedded-storage` and `embedded-hal` trait implementations and
  the OTP driver that performs the hardware accesses.
