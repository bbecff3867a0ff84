//! Verified logic of a family of small LED firmwares: a tri-color LED that blinks and
//! changes color on request (over HTTP and Bluetooth LE), a gesture toggled lamp, a
//! proximity "traffic light", a night light and a WiFi (re)connection state machine.
//!
//! Everything that touches hardware, the network or the async executor lives outside this
//! crate; the functions here take and return plain values.

pub mod color;
pub mod pins;
pub mod tricolor;
pub mod pin_led;
pub mod lamp;
pub mod gesture;
pub mod sensing;
pub mod ble;
pub mod webserver;
pub mod wifi;
