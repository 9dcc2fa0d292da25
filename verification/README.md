# fusb302

Register-level driver core for the FUSB302B family of USB Type-C and USB Power Delivery BMC
PHYs (FUSB302BMPX is the initial hardware target), with machine-checked contracts. It covers PHY
configuration, Type-C electrical controls, VBUS comparator measurement, interrupt and status
snapshots, FIFO handling and USB PD packet transport; USB PD policy stays with the caller.

## Layout

- `src/registers.rs` — register map, bit positions and typed electrical controls.
- `src/types.rs` — configuration, status, threshold and toggle-result types.
- `src/packet.rs` — `PdPacket`, a bounded packet whose payload always matches its header.
- `src/fifo.rs` — transmit ordered sets and tokens, received SOP token decoding.
- `src/fields.rs` — every read-modify-write register edit, with its bit-level laws.
- `src/transfer.rs` — I2C transfers, register-access scripts and their meaning, and `resume`,
  which decides each next step from a transfer's outcome (a failed transfer ends the operation).
- `src/operations.rs` — each driver operation as the exact transfer sequence it performs.
- `src/driver.rs` — the `Fusb302` handle owning the bus and its 7-bit address.
- `app/lib.rs` — carries the operations out on an `embedded-hal` or `embedded-hal-async` bus
  (`Phy` and `AsyncPhy`). Both runners drive the same operation steps, so the two execution
  models issue the same transactions by construction; the runners themselves are not proved.
