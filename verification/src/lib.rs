//! The decisions of an ESP-NOW to USB bridge, of the root device that it talks to
//! and of the host tool on the far end, free of hardware and of I/O.
//!
//! Each task and each program is a machine: it makes a request of the outside,
//! takes the outside's answer as an event, and makes the next request. What the
//! machines do is stated one step at a time by the `next` function of their
//! module, and for whole runs by the proof functions below it.

pub mod bridge;
pub mod device;
pub mod device_info;
pub mod frame;
pub mod host;
pub mod interface;
pub mod panic;
pub mod rx;
pub mod seed;
pub mod time;
pub mod trace;
pub mod tx;
pub mod usb;
