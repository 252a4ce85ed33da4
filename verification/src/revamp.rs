//! The reworked device interface, under the names drivers use for it.
pub use crate::device::{
    claim_direct_result, read_raw_reply, write_raw_reply, DeviceFields, Driver, IioVTableAdapter,
    Mode, ReadReply, RegAction, RegEvent, RegStep, Registration, RegistrationOptions,
};
