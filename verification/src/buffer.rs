//! Buffered capture: how a sample is laid out, and which setup callbacks a buffer installs.
use core::marker::PhantomData;
use vstd::prelude::*;

verus! {

/// `IIO_CPU`: samples in the CPU's byte order.
pub const IIO_CPU: u32 = 0;

/// `IIO_BE`: big-endian samples.
pub const IIO_BE: u32 = 1;

/// `IIO_LE`: little-endian samples.
pub const IIO_LE: u32 = 2;

/// Byte order of a sample in the buffer.
#[derive(Clone, Copy, Debug, PartialEq, Eq, Structural)]
pub enum Endian {
    Big,
    Little,
    Cpu,
}

impl Endian {
    /// The C `enum iio_endian` value.
    pub open spec fn spec_code(self) -> u32 {
        match self {
            Endian::Big => IIO_BE,
            Endian::Little => IIO_LE,
            Endian::Cpu => IIO_CPU,
        }
    }

    /// The C `enum iio_endian` value.
    pub fn code(&self) -> (r: u32)
        ensures
            r == self.spec_code(),
    {
        match self {
            Endian::Big => IIO_BE,
            Endian::Little => IIO_LE,
            Endian::Cpu => IIO_CPU,
        }
    }
}

/// How one channel's sample is stored in a scan.
pub struct ScanElement {
    pub scan_index: i32,
    pub sign: char,
    pub realbits: u8,
    pub storagebits: u8,
    pub shift: u8,
    pub repeat: u8,
    pub endianness: Endian,
}

/// A buffered channel: its sample layout and the buffer callbacks it implements.
pub trait BufferChannel {
    type Data;

    /// Whether the channel implements `preenable`.
    const HAS_PREENABLE: bool;

    /// Whether the channel implements `postenable`.
    const HAS_POSTENABLE: bool;

    /// Whether the channel implements `predisable`.
    const HAS_PREDISABLE: bool;

    /// Whether the channel implements `postdisable`.
    const HAS_POSTDISABLE: bool;

    /// Whether the channel implements `validate_scan_mask`.
    const HAS_VALIDATE_SCAN_MASK: bool;

    /// How a sample is stored.
    const SCAN_TYPE: &'static ScanElement;

    /// The trigger handler thread.
    fn irq_handler();

    fn preenable();

    fn postenable();

    fn predisable();

    fn postdisable();

    fn validate_scan_mask();
}

/// Which of C's `struct iio_buffer_setup_ops` callbacks are installed.
#[derive(Clone, Copy, Debug, PartialEq, Eq, Structural)]
pub struct BufferSetupOps {
    pub preenable: bool,
    pub postenable: bool,
    pub predisable: bool,
    pub postdisable: bool,
    pub validate_scan_mask: bool,
}

/// The setup callbacks of a buffered channel type.
pub struct BufferOpsVtable<T: BufferChannel>(PhantomData<T>);

impl<T: BufferChannel> BufferOpsVtable<T> {
    /// The callback table: a callback is installed exactly when the channel implements it.
    pub fn build() -> (r: BufferSetupOps)
        ensures
            r.preenable == T::HAS_PREENABLE,
            r.postenable == T::HAS_POSTENABLE,
            r.predisable == T::HAS_PREDISABLE,
            r.postdisable == T::HAS_POSTDISABLE,
            r.validate_scan_mask == T::HAS_VALIDATE_SCAN_MASK,
    {
        BufferSetupOps {
            preenable: T::HAS_PREENABLE,
            postenable: T::HAS_POSTENABLE,
            predisable: T::HAS_PREDISABLE,
            postdisable: T::HAS_POSTDISABLE,
            validate_scan_mask: T::HAS_VALIDATE_SCAN_MASK,
        }
    }
}

} // verus!
