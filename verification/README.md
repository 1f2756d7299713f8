# ftdi_nusb

Host-side driver logic for FTDI USB chips (FT232R, FT2232C/H, FT4232H,
FT232H, FT230X), with its contracts proved by Verus.

## Layout

- `src/` — the verified library, all of it checked by Verus: chip
  identification, USB addressing of ports, the vendor control requests, the
  MPSSE command encodings (clock divisors, GPIO,
  3-phase clocking, synchronisation, bad-command detection), the SPI
  transaction planner (chip select held once around a transaction, length
  fields, chunking of long transfers), GPIO pin and group requests, the I2C
  transaction plan, its MPSSE encoding, NACK handling and error
  classification, the JTAG TAP state machine (navigation that never
  resets the TAP unless asked, TMS and TDI/TDO command encoding), the
  recovery-epoch bookkeeping that invalidates stale contexts, and the
  synchronous-FIFO stream framing and progress accounting.
  Laws that span several functions are the public lemmas named `lemma_*`.
- `tests/` — ordinary Rust tests of the library on concrete values.
- `app/` — the unverified shell: USB I/O through `nusb`, timers, async
  plumbing, and the `embedded-hal` / `embedded-io` trait impls. It hands the
  library plain values and performs the commands the library plans.
