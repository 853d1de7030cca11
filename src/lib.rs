//! Creation of Linux tun/tap virtual network devices: the interface name
//! codec, the `TUNSETIFF` request and the device builder's decisions.
pub mod device;
pub mod error;
pub mod name;
pub mod prelude;
pub mod request;

pub use device::{creation_error, open_error, Device, DeviceBuilder, DeviceMode, OpenFailure};
pub use error::{CreationError, StringError};
pub use name::{InterfaceName, IFNAMSIZ};
pub use request::{InterfaceFieldReplaceUnit, InterfaceMap, InterfaceRequest, IFREQ_SIZE};

