# picoprog

The decision logic of a serprog flash programmer for the ESP32-C3, verified
with Verus, and the flash chip that it is tried on.

The firmware serves the serprog protocol over USB Serial/JTAG and over TCP on
WiFi (port 4000). One engine, which owns the SPI bus, is shared by both: exactly
one session runs at a time. Without WiFi credentials the firmware is USB-only.

- `src/` is the verified library: the USB task, the TCP server and the station's
  connection as functions from state and event to next state, the results of
  the transports, the network seed, and a stateful SPI NOR flash chip. The
  `*_laws` modules and the `law_*` functions state what holds of every run.
- `tests/` runs the library, with rflasher as a client of the flash chip.
- `app/` performs what the library decides: on the chip (`firmware.rs`) and on a
  host (`host.rs`).

The firmware is built for `riscv32imc-unknown-none-elf`, with the `esp-*` crates,
which do not build for a host, and the serprog engine crate added to the
manifest. The linker scripts that it needs are named in
`extras/cargo-config.toml`, which goes to `.cargo/config.toml` for such a build.
`PICOPROG_WIFI_SSID` and `PICOPROG_WIFI_PASSWORD`, read at build time, hold the
WiFi credentials.
