//! The items most callers need, for `use tippytap::prelude::*;`.
pub use crate::device::{Device, DeviceBuilder, DeviceMode};
pub use crate::error::{CreationError, StringError};
pub use crate::name::{InterfaceName, IFNAMSIZ};
pub use crate::request::{InterfaceFieldReplaceUnit, InterfaceMap, InterfaceRequest, IFREQ_SIZE};
