//! A USB access layer with one device and interface lifecycle and one
//! transfer contract, whatever the transport underneath.
//!
//! - [`filter`]: device filters and the selection of the devices they match.
//! - [`gated`]: discovery decisions on a permission-gated transport.
//! - [`lifecycle`]: the state machine of an opened device and its claims.
//! - [`transfer`]: the transfer contract and the mapping of transport
//!   outcomes onto the error taxonomy.
//! - [`native`]: the native transport, through `nusb`.
//! - [`usb`]: the error taxonomy, transfer parameters and device traits.
pub mod filter;
pub mod gated;
pub mod lifecycle;
pub mod native;
pub mod transfer;
pub mod usb;

pub use filter::DeviceFilter;
pub use native::{get_device, get_device_list, Descriptor, Device, DeviceInfo, Interface};
pub use transfer::UsbInterface;
pub use usb::{UsbDevice, UsbDeviceInfo};
