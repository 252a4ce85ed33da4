//! Safe, verified core of the Industrial I/O (IIO) abstractions: channel specifications,
//! the driver interface and the answers handed to the IIO core, and device registration.
pub mod buffer;
pub mod chan_type;
pub mod channels;
pub mod device;
pub mod dummy;
pub mod error;
pub mod revamp;
pub mod trigger;

pub use crate::chan_type::ChannelType;
pub use crate::channels::{
    Buffered, Channel, ChannelDefinition, Mask, Sensor, SensorData, SensorValue, Simple,
    Specification,
};
pub use crate::device::{Driver, IioVTableAdapter, Mode, Registration, RegistrationOptions};
pub use crate::error::Error;
