# esp_now_bridge

A network of three programs: a root device that speaks ESP-NOW, a bridge between
ESP-NOW and USB, and a host tool that reaches both over USB. This crate holds their
decisions, verified with Verus.

- `src/`: the library. Each task and each program is a machine that makes requests
  and takes events; the module of each states what one step does and what holds of
  whole runs.
  - `seed`: renewing the network id that a seed router has lent out
  - `rx`, `tx`, `frame`: moving frames over ESP-NOW
  - `bridge`, `device`, `host`: the three programs
  - `usb`, `device_info`, `interface`: descriptors and addresses
  - `panic`, `time`, `trace`: the panic handler, clock ticks, runs of machines
- `tests/`: runs of the machines on concrete events.
- `app/`: the programs around the library. `main.rs` is the host tool; `bridge.rs` and
  `device.rs` are the roots of the two firmware images for the ESP32-S3 and share
  `workers.rs` and `radio.rs`; each logs with its own logger. The firmware needs the
  router with bridge support of the network stack's development version, and a target
  with the standard library, which the library links.
