//! Typed messages between a sensing device and its host over a packet link:
//! the wire format, the device-side transport with its two bounded queues,
//! and the host-side bridge.

pub mod formatter;
pub mod host;
pub mod protocol;
pub mod queue;
pub mod text;
pub mod transport;
pub mod usb_device;
pub mod wire;
