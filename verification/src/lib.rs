//! Decision logic of a serprog flash programmer for the ESP32-C3, and the
//! flash chip that it is tried on.
//!
//! The firmware serves the serprog protocol over USB Serial/JTAG and over TCP
//! on WiFi. One engine, which owns the SPI bus, is shared by both: exactly one
//! session runs at a time. What the tasks decide is here, as functions from
//! state and event to next state; what they do is left to the program around
//! this library.
//!
//! - [`usb`]: the USB task and the transport of one USB session.
//! - [`wifi`]: the TCP server, the station's connection, the network seed.
//! - [`sessions`]: the engine shared by the two.
//! - [`transport`]: results of byte transports.
//! - [`host`], [`client`]: both ends of a TCP connection on a host.
//! - [`flash`], [`pin`]: a flash chip and a pin to run the engine on.
//! - [`bus_laws`], [`flash_laws`], [`wifi_laws`]: what holds of every command,
//!   every session and every run.

pub mod bus_laws;
pub mod client;
pub mod flash;
pub mod flash_laws;
pub mod host;
pub mod pin;
pub mod sessions;
pub mod transport;
pub mod usb;
pub mod wifi;
pub mod wifi_laws;
