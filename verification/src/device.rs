//! IIO devices: the driver interface, the answers handed back to the IIO core,
//! and the order of steps that registers a device.
use core::marker::PhantomData;
use vstd::prelude::*;

use crate::channels::{ChanSpec, Channel, SensorData, SensorValue, Specification};
use crate::error::{errno_or_einval, is_error_errno, spec_to_result, to_result, Error, EBUSY_NUM, EINVAL_NUM, ENOMEM_NUM};

verus! {

/// `INDIO_DIRECT_MODE`: the device is read and written one value at a time.
pub const INDIO_DIRECT_MODE: u32 = 1;

/// The modes a device can run in.
#[derive(Clone, Copy, Debug, PartialEq, Eq, Structural)]
pub enum Mode {
    /// Values are read and written one at a time.
    Direct,
}

impl Mode {
    /// The C `INDIO_*_MODE` value.
    pub open spec fn spec_code(self) -> u32 {
        match self {
            Mode::Direct => INDIO_DIRECT_MODE,
        }
    }

    /// The C `INDIO_*_MODE` value.
    pub fn code(&self) -> (r: u32)
        ensures
            r == self.spec_code(),
    {
        match self {
            Mode::Direct => INDIO_DIRECT_MODE,
        }
    }
}

/// What a device is registered under.
pub struct RegistrationOptions {
    pub name: &'static str,
    pub modes: Mode,
}

/// A driver for an IIO device: its channel table and how it serves reads and writes.
pub trait Driver: Sized {
    /// The driver's private state, kept by the IIO core next to the device.
    type Data;

    /// The channels the device exposes.
    fn channels() -> Vec<Channel>;

    /// What a read of channel `spec` on `data` may answer. It need not pin one outcome:
    /// a driver may depend on its hardware.
    spec fn read_raw_post(data: Self::Data, spec: ChanSpec, r: Result<SensorData<i32>, Error>) -> bool;

    /// Reads a value from a channel.
    fn read_raw(data: &Self::Data, spec: &Specification) -> (r: Result<SensorData<i32>, Error>)
        ensures
            Self::read_raw_post(*data, spec@, r),
    ;

    /// When a write to channel `spec` may be served on `data` without overflowing the
    /// driver's state.
    spec fn write_raw_allowed(data: Self::Data, spec: ChanSpec) -> bool;

    /// Whether a write to channel `spec` may be served on `data` now.
    fn can_write_raw(data: &Self::Data, spec: &Specification) -> (r: bool)
        ensures
            r == Self::write_raw_allowed(*data, spec@),
    ;

    /// What a write of `sdata` to channel `spec` may do: the state before and after it, and
    /// the answer. It need not pin one outcome: a driver may depend on its hardware.
    spec fn write_raw_post(
        before: Self::Data,
        after: Self::Data,
        spec: ChanSpec,
        sdata: SensorData<i32>,
        r: Result<(), Error>,
    ) -> bool;

    /// Writes a value to a channel.
    fn write_raw(data: &mut Self::Data, spec: &Specification, sdata: SensorData<i32>) -> (r: Result<
        (),
        Error,
    >)
        requires
            Self::write_raw_allowed(*old(data), spec@),
        ensures
            Self::write_raw_post(*old(data), *final(data), spec@, sdata, r),
    ;
}

/// The answer to the IIO core's `read_raw` callback: the C return value, and the value
/// to store through the callback's `val` pointer, if any.
#[derive(Clone, Copy, Debug, PartialEq, Eq, Structural)]
pub struct ReadReply {
    pub ret: i32,
    pub val: Option<i32>,
}

/// The reply to a driver's read: on success the `IIO_VAL_INT` code and the value, else the errno.
pub open spec fn spec_read_raw_reply(res: Result<SensorData<i32>, Error>) -> ReadReply {
    match res {
        Ok(d) => ReadReply { ret: SensorValue::Int.spec_code() as i32, val: Some(d.value) },
        Err(e) => ReadReply { ret: e.errno() as i32, val: None },
    }
}

/// The reply to a successful read hands the IIO core exactly the driver's value, with the
/// `IIO_VAL_INT` code 1; the reply to a failed read is the driver's own errno, with no value.
/// Two reads reply alike exactly when the driver gave the same result.
pub proof fn lemma_read_reply_carries_result(
    a: Result<SensorData<i32>, Error>,
    b: Result<SensorData<i32>, Error>,
)
    ensures
        a matches Ok(d) ==> spec_read_raw_reply(a) == (ReadReply { ret: 1, val: Some(d.value) }),
        a matches Err(e) ==> spec_read_raw_reply(a) == (ReadReply {
            ret: e.errno() as i32,
            val: None,
        }),
        spec_read_raw_reply(a) == spec_read_raw_reply(b) <==> a == b,
{
    match (a, b) {
        (Err(ea), Err(eb)) => {
            Error::lemma_errno(ea, eb, 0);
        },
        _ => {},
    }
}

/// What the `read_raw` callback answers for a driver's result.
pub fn read_raw_reply(res: Result<SensorData<i32>, Error>) -> (r: ReadReply)
    ensures
        r == spec_read_raw_reply(res),
        res matches Ok(d) ==> r.ret == 1 && r.val == Some(d.value),
        res matches Err(e) ==> r.ret == e.errno() && r.val is None,
        r.val is Some <==> r.ret > 0,
        r.val is None ==> is_error_errno(r.ret as int),
{
    match res {
        Ok(sdata) => {
            let v = sdata.sensor_value();
            let code = v.code();
            ReadReply { ret: code as i32, val: Some(sdata.inner()) }
        },
        Err(e) => ReadReply { ret: e.to_errno(), val: None },
    }
}

/// The reply to a driver's write: `IIO_VAL_INT` on success, `-EINVAL` on any failure.
pub open spec fn spec_write_raw_reply(res: Result<(), Error>) -> i32 {
    match res {
        Ok(()) => SensorValue::Int.spec_code() as i32,
        Err(_) => (-EINVAL_NUM) as i32,
    }
}

/// What the `write_raw` callback answers for a driver's result: `IIO_VAL_INT` on success,
/// and `-EINVAL` for any failure, whatever error the driver gave.
pub fn write_raw_reply(res: Result<(), Error>) -> (r: i32)
    ensures
        r == spec_write_raw_reply(res),
        res is Ok ==> r == SensorValue::Int.spec_code(),
        res is Err ==> r == -EINVAL_NUM,
{
    match res {
        Ok(()) => SensorValue::Int.code() as i32,
        Err(_) => Error::einval().to_errno(),
    }
}

/// Turns a driver's reads and writes into the answers of the IIO core's callbacks.
pub struct IioVTableAdapter<T: Driver>(PhantomData<T>);

impl<T: Driver> IioVTableAdapter<T> {
    /// Serves the IIO core's `read_raw` callback for channel `spec`.
    pub fn read_raw(data: &T::Data, spec: &Specification) -> (r: ReadReply)
        ensures
            exists|res: Result<SensorData<i32>, Error>|
                T::read_raw_post(*data, spec@, res) && r == #[trigger] spec_read_raw_reply(res)
                    && (res matches Ok(d) ==> r.ret == 1 && r.val == Some(d.value)) && (
                res matches Err(e) ==> r.ret == e.errno() && r.val is None),
            r.val is Some <==> r.ret > 0,
            r.val is Some ==> r.ret == SensorValue::Int.spec_code(),
            r.val is None ==> is_error_errno(r.ret as int),
    {
        let res = T::read_raw(data, spec);
        let r = read_raw_reply(res);
        assert(T::read_raw_post(*data, spec@, res) && r == spec_read_raw_reply(res) && (
        res matches Ok(d) ==> r.ret == 1 && r.val == Some(d.value)) && (res matches Err(e) ==> r.ret
            == e.errno() && r.val is None));
        r
    }

    /// Serves the IIO core's `write_raw` callback: writes `val` to channel `spec`.
    pub fn write_raw(data: &mut T::Data, spec: &Specification, val: i32) -> (r: i32)
        requires
            T::write_raw_allowed(*old(data), spec@),
        ensures
            exists|res: Result<(), Error>|
                T::write_raw_post(*old(data), *final(data), spec@, SensorData { value: val }, res)
                    && r == #[trigger] spec_write_raw_reply(res),
            r == SensorValue::Int.spec_code() || r == -EINVAL_NUM,
    {
        let sdata = SensorData::new_int(val);
        let res = T::write_raw(data, spec, sdata);
        let r = write_raw_reply(res);
        assert(T::write_raw_post(*old(data), *data, spec@, SensorData { value: val }, res)
            && r == spec_write_raw_reply(res));
        r
    }
}

/// The outcome of claiming direct mode: `Ok` when the IIO core granted it, else `-EBUSY`.
pub fn claim_direct_result(claimed: bool) -> (r: Result<(), Error>)
    ensures
        r is Ok <==> claimed,
        r matches Err(e) ==> e.errno() == -EBUSY_NUM,
{
    if claimed {
        Ok(())
    } else {
        Err(Error::ebusy())
    }
}

/// The values registration writes into the C device next to the channel table.
#[derive(Clone, Copy, Debug, PartialEq, Eq, Structural)]
pub struct DeviceFields {
    pub modes: i32,
    pub num_channels: i32,
}

/// Where a registration stands.
#[derive(Clone, Copy, Debug, PartialEq, Eq, Structural)]
pub enum RegStep {
    /// Waiting for the C device to be allocated.
    AwaitAlloc,
    /// Waiting for the driver's private data to be initialised.
    AwaitData,
    /// Waiting for the IIO core to register the device.
    AwaitRegister,
    /// Finished, one way or the other.
    Done,
}

/// What happened to the last action.
#[derive(Clone, Copy, Debug)]
pub enum RegEvent {
    /// `iio_device_alloc` returned; `is_null` when it failed.
    Allocated { is_null: bool },
    /// The driver's private data was initialised, or failed to be.
    DataInit(Result<(), Error>),
    /// `__iio_device_register` returned this value.
    Registered(i32),
}

/// What to do next.
#[derive(Clone, Copy, Debug)]
pub enum RegAction {
    /// Allocate the C device with `priv_size` bytes of private data.
    Alloc { priv_size: i32 },
    /// Initialise the driver's private data inside the device.
    InitData,
    /// Free the C device (allocated, its data not initialised, not registered), then fail
    /// with the error.
    FreeAndFail(Error),
    /// Tear the device down as dropping it does, unregistering it and then freeing it, then
    /// fail with the error.
    UnregisterFreeAndFail(Error),
    /// Write name, modes, channel table, channel count and callbacks, then register the device.
    WriteFieldsAndRegister(DeviceFields),
    /// Stop with this result.
    Finish(Result<(), Error>),
}

/// The steps that register an IIO device, one event at a time.
pub struct Registration {
    step: RegStep,
    fields: DeviceFields,
}

/// The step and action that follow `ev` in step `step`; `None` when `ev` cannot happen there.
pub open spec fn spec_next(step: RegStep, fields: DeviceFields, ev: RegEvent) -> Option<
    (RegStep, RegAction),
> {
    match (step, ev) {
        (RegStep::AwaitAlloc, RegEvent::Allocated { is_null }) => if is_null {
            Some((RegStep::Done, RegAction::Finish(Err(Error::with_errno(-ENOMEM_NUM)))))
        } else {
            Some((RegStep::AwaitData, RegAction::InitData))
        },
        (RegStep::AwaitData, RegEvent::DataInit(res)) => match res {
            Ok(()) => Some((RegStep::AwaitRegister, RegAction::WriteFieldsAndRegister(fields))),
            Err(e) => Some((RegStep::Done, RegAction::FreeAndFail(e))),
        },
        (RegStep::AwaitRegister, RegEvent::Registered(ret)) => match spec_to_result(ret as int) {
            Ok(()) => Some((RegStep::Done, RegAction::Finish(Ok(())))),
            Err(e) => Some((RegStep::Done, RegAction::UnregisterFreeAndFail(e))),
        },
        _ => None,
    }
}

impl View for Registration {
    type V = (RegStep, DeviceFields);

    closed spec fn view(&self) -> (RegStep, DeviceFields) {
        (self.step, self.fields)
    }
}

impl Registration {
    /// Starts registering a device with `options`, `priv_size` bytes of driver data and
    /// `num_channels` channels: the first action allocates the C device.
    pub fn start(options: &RegistrationOptions, priv_size: usize, num_channels: usize) -> (r: (
        Registration,
        RegAction,
    ))
        ensures
            r.0@.0 == RegStep::AwaitAlloc,
            r.0@.1 == (DeviceFields {
                modes: options.modes.spec_code() as i32,
                num_channels: #[verifier::truncate] (num_channels as i32),
            }),
            r.1 == (RegAction::Alloc { priv_size: #[verifier::truncate] (priv_size as i32) }),
    {
        let fields = DeviceFields {
            modes: options.modes.code() as i32,
            num_channels: #[verifier::truncate] (num_channels as i32),
        };
        (
            Registration { step: RegStep::AwaitAlloc, fields },
            RegAction::Alloc { priv_size: #[verifier::truncate] (priv_size as i32) },
        )
    }

    /// Whether `ev` can happen in the current step.
    pub fn expects(&self, ev: &RegEvent) -> (r: bool)
        ensures
            r == spec_next(self@.0, self@.1, *ev) is Some,
    {
        match (self.step, ev) {
            (RegStep::AwaitAlloc, RegEvent::Allocated { .. }) => true,
            (RegStep::AwaitData, RegEvent::DataInit(_)) => true,
            (RegStep::AwaitRegister, RegEvent::Registered(_)) => true,
            _ => false,
        }
    }

    /// Takes in what happened to the last action and gives the next one.
    pub fn on_event(&mut self, ev: RegEvent) -> (a: RegAction)
        requires
            spec_next(old(self)@.0, old(self)@.1, ev) is Some,
        ensures
            (final(self)@.0, a) == spec_next(old(self)@.0, old(self)@.1, ev).unwrap(),
            final(self)@.1 == old(self)@.1,
    {
        match ev {
            RegEvent::Allocated { is_null } => {
                if is_null {
                    self.step = RegStep::Done;
                    RegAction::Finish(Err(Error::enomem()))
                } else {
                    self.step = RegStep::AwaitData;
                    RegAction::InitData
                }
            },
            RegEvent::DataInit(res) => {
                match res {
                    Ok(()) => {
                        self.step = RegStep::AwaitRegister;
                        RegAction::WriteFieldsAndRegister(self.fields)
                    },
                    Err(e) => {
                        self.step = RegStep::Done;
                        RegAction::FreeAndFail(e)
                    },
                }
            },
            RegEvent::Registered(ret) => {
                self.step = RegStep::Done;
                match to_result(ret) {
                    Ok(()) => RegAction::Finish(Ok(())),
                    Err(e) => RegAction::UnregisterFreeAndFail(e),
                }
            },
        }
    }
}

/// Registration only succeeds from the last step, on a non-negative answer from the IIO core;
/// that step is reached only once allocation and data initialisation succeeded; a failed data
/// initialisation frees the device, a refused registration unregisters and frees it; and a
/// finished registration takes no more events.
pub proof fn lemma_registration_transitions(step: RegStep, fields: DeviceFields, ev: RegEvent)
    requires
        spec_next(step, fields, ev) is Some,
    ensures
        ({
            let (next, a) = spec_next(step, fields, ev).unwrap();
            &&& a matches RegAction::Finish(Ok(())) ==> step == RegStep::AwaitRegister && (
            ev matches RegEvent::Registered(ret) && ret >= 0)
            &&& next == RegStep::AwaitRegister ==> step == RegStep::AwaitData && (
            ev matches RegEvent::DataInit(Ok(())))
            &&& a is FreeAndFail <==> (step == RegStep::AwaitData && (ev matches RegEvent::DataInit(
                Err(_),
            )))
            &&& a is UnregisterFreeAndFail <==> (step == RegStep::AwaitRegister && (
            ev matches RegEvent::Registered(ret) && ret < 0))
            &&& a matches RegAction::Finish(Err(_)) ==> step == RegStep::AwaitAlloc
            &&& next == RegStep::Done <==> (a is Finish || a is FreeAndFail
                || a is UnregisterFreeAndFail)
            &&& step != RegStep::Done
        }),
{
}

/// A whole registration: a failed allocation ends in `-ENOMEM` with nothing to free; a failed
/// data initialisation frees the device and passes the driver's error on; otherwise the fields
/// are written and the device registered, and a negative answer from the IIO core unregisters
/// and frees the device and fails with that errno (or `-EINVAL` when it names none).
pub proof fn lemma_registration_run(
    fields: DeviceFields,
    is_null: bool,
    init: Result<(), Error>,
    ret: i32,
)
    ensures
        ({
            let (s1, a1) = spec_next(RegStep::AwaitAlloc, fields, RegEvent::Allocated { is_null }).unwrap();
            &&& is_null ==> s1 == RegStep::Done && a1 == RegAction::Finish(
                Err(Error::with_errno(-ENOMEM_NUM)),
            )
            &&& !is_null ==> s1 == RegStep::AwaitData && a1 == RegAction::InitData
        }),
        ({
            let (s2, a2) = spec_next(RegStep::AwaitData, fields, RegEvent::DataInit(init)).unwrap();
            &&& init matches Err(e) ==> s2 == RegStep::Done && a2 == RegAction::FreeAndFail(e)
            &&& init is Ok ==> s2 == RegStep::AwaitRegister && a2
                == RegAction::WriteFieldsAndRegister(fields)
        }),
        ({
            let (s3, a3) = spec_next(RegStep::AwaitRegister, fields, RegEvent::Registered(ret)).unwrap();
            &&& s3 == RegStep::Done
            &&& ret >= 0 ==> a3 == RegAction::Finish(Ok(()))
            &&& ret < 0 ==> a3 == RegAction::UnregisterFreeAndFail(
                Error::with_errno(errno_or_einval(ret as int)),
            )
        }),
{
}

} // verus!
