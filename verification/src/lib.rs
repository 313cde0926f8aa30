//! Device-side RPC dispatch and cooperative control core for a USB-attached
//! microcontroller board, together with the host-side rules that mirror it.
//!
//! Everything here is plain data in, plain data out: peripherals, clocks and
//! transports are driven by the caller, which hands their readings in and
//! carries the returned commands out.

pub mod angle;
pub mod channel;
pub mod client;
pub mod clock;
pub mod decoder;
pub mod device;
pub mod dispatch;
pub mod error;
pub mod exchange;
pub mod frame;
pub mod heater;
pub mod laws;
pub mod log;
pub mod message;
pub mod payload;
pub mod pid;
pub mod release;
pub mod server;
pub mod servo;
pub mod stepper;
pub mod transport;
pub mod usb;
pub mod wire;
