//! Channel specifications: what a driver tells the IIO core about each of its channels.
use core::marker::PhantomData;
use vstd::prelude::*;

pub use crate::chan_type::ChannelType;
use crate::chan_type::NUM_CHANNEL_TYPES;

verus! {

/// Bit of `ChanSpec::flags` that holds C's `modified` bitfield.
pub const MODIFIED_BIT: usize = 0;

/// Bit of `ChanSpec::flags` that holds C's `indexed` bitfield.
pub const INDEXED_BIT: usize = 1;

/// Bit of `ChanSpec::flags` that holds C's `output` bitfield.
pub const OUTPUT_BIT: usize = 2;

/// Bit of `ChanSpec::flags` that holds C's `differential` bitfield.
pub const DIFFERENTIAL_BIT: usize = 3;

/// The scan index a new unbuffered channel gets: it takes no part in buffered capture.
pub const NO_SCAN_INDEX: i32 = -1;

/// The scan index a new buffered channel gets.
pub const BUFFERED_SCAN_INDEX: i32 = 7;

/// A channel that is read or written directly.
#[derive(Clone, Copy, Default)]
pub struct Simple;

/// A channel whose samples go through a buffer.
#[derive(Clone, Copy, Default)]
pub struct Buffered;

/// The fields of C's `struct iio_chan_spec` that this library reads and writes.
///
/// `flags` is the first byte of the C bitfield: bit 0 `modified`, bit 1 `indexed`,
/// bit 2 `output`, bit 3 `differential`.
#[derive(Clone, Copy, PartialEq, Eq, Structural)]
pub struct ChanSpec {
    pub type_: u32,
    pub channel: i32,
    pub scan_index: i32,
    pub info_mask_separate: isize,
    pub flags: u8,
}

impl ChanSpec {
    /// A spec with every field zero but the channel type and the scan index.
    pub open spec fn fresh(type_: u32, scan_index: i32) -> ChanSpec {
        ChanSpec { type_, channel: 0, scan_index, info_mask_separate: 0, flags: 0 }
    }

    /// The spec with every field zero, as C's zero-initialisation leaves it.
    pub open spec fn zeroed() -> ChanSpec {
        Self::fresh(0, 0)
    }

    /// The value (0 or 1) of bit `n` of the bitfield byte.
    pub open spec fn bit(self, n: usize) -> u32 {
        ((self.flags >> n) & 1u8) as u32
    }

    /// This spec with bit `n` of the bitfield byte set and nothing else changed.
    pub open spec fn with_bit(self, n: usize) -> ChanSpec {
        ChanSpec { flags: self.flags | (1u8 << n), ..self }
    }

    /// C's `modified` bitfield.
    pub fn modified(&self) -> (r: u32)
        ensures
            r == self.bit(MODIFIED_BIT),
    {
        ((self.flags >> MODIFIED_BIT) & 1u8) as u32
    }

    /// C's `indexed` bitfield.
    pub fn indexed(&self) -> (r: u32)
        ensures
            r == self.bit(INDEXED_BIT),
    {
        ((self.flags >> INDEXED_BIT) & 1u8) as u32
    }

    /// C's `output` bitfield.
    pub fn output(&self) -> (r: u32)
        ensures
            r == self.bit(OUTPUT_BIT),
    {
        ((self.flags >> OUTPUT_BIT) & 1u8) as u32
    }

    /// C's `differential` bitfield.
    pub fn differential(&self) -> (r: u32)
        ensures
            r == self.bit(DIFFERENTIAL_BIT),
    {
        ((self.flags >> DIFFERENTIAL_BIT) & 1u8) as u32
    }
}

impl Default for ChanSpec {
    fn default() -> (r: ChanSpec)
        ensures
            r == ChanSpec::zeroed(),
    {
        ChanSpec { type_: 0, channel: 0, scan_index: 0, info_mask_separate: 0, flags: 0 }
    }
}

/// A bit mask of `enum iio_chan_info_enum` entries: which attributes a channel exposes.
#[derive(Clone, Copy, PartialEq, Eq, Structural)]
pub struct Mask(u32);

/// `IIO_CHAN_INFO_RAW`
pub const IIO_CHAN_INFO_RAW: u32 = 0;

/// `IIO_CHAN_INFO_PROCESSED`
pub const IIO_CHAN_INFO_PROCESSED: u32 = 1;

/// `IIO_CHAN_INFO_SCALE`
pub const IIO_CHAN_INFO_SCALE: u32 = 2;

/// `IIO_CHAN_INFO_OFFSET`
pub const IIO_CHAN_INFO_OFFSET: u32 = 3;

/// `IIO_CHAN_INFO_CALIBSCALE`
pub const IIO_CHAN_INFO_CALIBSCALE: u32 = 4;

/// `IIO_CHAN_INFO_INT_TIME`
pub const IIO_CHAN_INFO_INT_TIME: u32 = 18;

impl View for Mask {
    type V = u32;

    closed spec fn view(&self) -> u32 {
        self.0
    }
}

impl Mask {
    /// The mask with only the bit of `chan_info` set.
    fn new(chan_info: u32) -> (m: Mask)
        requires
            chan_info < 32,
        ensures
            m@ == 1u32 << chan_info,
    {
        Mask(1u32 << chan_info)
    }

    /// The bits of this mask.
    pub fn bits(&self) -> (r: u32)
        ensures
            r == self@,
    {
        self.0
    }

    /// Both masks together.
    pub fn or(self, other: Mask) -> (m: Mask)
        ensures
            m@ == self@ | other@,
    {
        Mask(self.0 | other.0)
    }
}

/// The raw value of a channel.
pub fn raw() -> (m: Mask)
    ensures
        m@ == 1u32 << IIO_CHAN_INFO_RAW,
{
    Mask::new(IIO_CHAN_INFO_RAW)
}

/// The offset to add to a raw value.
pub fn offset() -> (m: Mask)
    ensures
        m@ == 1u32 << IIO_CHAN_INFO_OFFSET,
{
    Mask::new(IIO_CHAN_INFO_OFFSET)
}

/// The scale to apply to a raw value.
pub fn scale() -> (m: Mask)
    ensures
        m@ == 1u32 << IIO_CHAN_INFO_SCALE,
{
    Mask::new(IIO_CHAN_INFO_SCALE)
}

/// A value already converted to standard units.
pub fn processed() -> (m: Mask)
    ensures
        m@ == 1u32 << IIO_CHAN_INFO_PROCESSED,
{
    Mask::new(IIO_CHAN_INFO_PROCESSED)
}

/// The calibration scale.
pub fn calibscale() -> (m: Mask)
    ensures
        m@ == 1u32 << IIO_CHAN_INFO_CALIBSCALE,
{
    Mask::new(IIO_CHAN_INFO_CALIBSCALE)
}

/// The integration time.
pub fn int_time() -> (m: Mask)
    ensures
        m@ == 1u32 << IIO_CHAN_INFO_INT_TIME,
{
    Mask::new(IIO_CHAN_INFO_INT_TIME)
}

/// One builder call on an unbuffered specification: `scan_index`, `channel_idx`,
/// `info_mask_separate`, or a flag setter (`as_output`, `as_differential`, `as_indexed`,
/// `set_offset`) with the bit it sets.
pub enum BuildStep {
    ScanIndex(i32),
    ChannelIdx(i32),
    InfoMaskSeparate(u32),
    SetOffset(usize),
}

/// The spec one builder call leaves.
pub open spec fn apply_step(s: ChanSpec, b: BuildStep) -> ChanSpec {
    match b {
        BuildStep::ScanIndex(idx) => ChanSpec { scan_index: idx, ..s },
        BuildStep::ChannelIdx(idx) => ChanSpec { channel: idx, ..s }.with_bit(INDEXED_BIT),
        BuildStep::InfoMaskSeparate(mask) => ChanSpec {
            info_mask_separate: #[verifier::truncate] (mask as isize),
            ..s
        },
        BuildStep::SetOffset(n) => s.with_bit(n),
    }
}

/// The spec a chain of builder calls leaves, applied first to last.
pub open spec fn apply_steps(s: ChanSpec, steps: Seq<BuildStep>) -> ChanSpec
    decreases steps.len(),
{
    if steps.len() == 0 {
        s
    } else {
        apply_steps(apply_step(s, steps[0]), steps.drop_first())
    }
}

/// A channel specification, tagged by how its samples are delivered.
pub struct Specification<T = Simple> {
    spec: ChanSpec,
    _phantom: PhantomData<T>,
}

/// A channel as the IIO core stores it, whatever its delivery.
pub struct Channel {
    inner: ChanSpec,
}

/// What a driver needs to know about a channel to serve a request on it.
pub struct ChannelDefinition {
    pub ctype: ChannelType,
    pub output: bool,
}

impl<T> View for Specification<T> {
    type V = ChanSpec;

    closed spec fn view(&self) -> ChanSpec {
        self.spec
    }
}

impl View for Channel {
    type V = ChanSpec;

    closed spec fn view(&self) -> ChanSpec {
        self.inner
    }
}

impl<T> Specification<T> {
    #[verifier::type_invariant]
    spec fn inv(self) -> bool {
        self.spec.type_ < NUM_CHANNEL_TYPES
    }

    /// The C-side spec this specification holds.
    pub fn chan_spec(&self) -> (r: ChanSpec)
        ensures
            r == self@,
            r.type_ < NUM_CHANNEL_TYPES,
    {
        proof {
            use_type_invariant(self);
        }
        self.spec
    }

    /// The specification for a C-side spec handed back by the IIO core; `None` when its
    /// channel type is not one C defines.
    pub fn from_chan_spec(spec: ChanSpec) -> (r: Option<Self>)
        ensures
            r is Some <==> spec.type_ < NUM_CHANNEL_TYPES,
            r matches Some(s) ==> s@ == spec,
    {
        if spec.type_ < NUM_CHANNEL_TYPES {
            Some(Specification { spec, _phantom: PhantomData })
        } else {
            None
        }
    }

    /// The channel the IIO core stores for this specification.
    pub fn as_channel(&self) -> (c: Channel)
        ensures
            c@ == self@,
    {
        Channel { inner: self.spec }
    }

    /// The channel's type, and whether it is an output channel.
    pub fn definition(&self) -> (d: ChannelDefinition)
        ensures
            d.ctype.spec_code() == self@.type_,
            d.output == (self@.bit(OUTPUT_BIT) == 1),
    {
        proof {
            use_type_invariant(self);
        }
        let ctype = match ChannelType::from_code(self.spec.type_) {
            Some(t) => t,
            None => ChannelType::Voltage,
        };
        ChannelDefinition { ctype, output: self.spec.output() == 1 }
    }

    /// The channel's type.
    pub fn channel_type(&self) -> (t: ChannelType)
        ensures
            t.spec_code() == self@.type_,
    {
        proof {
            use_type_invariant(self);
        }
        match ChannelType::from_code(self.spec.type_) {
            Some(t) => t,
            None => ChannelType::Voltage,
        }
    }
}

impl<T> Clone for Specification<T> {
    fn clone(&self) -> (r: Self)
        ensures
            r@ == self@,
    {
        proof {
            use_type_invariant(self);
        }
        Specification { spec: self.spec, _phantom: PhantomData }
    }
}

impl<T> Copy for Specification<T> {

}

impl<T> Default for Specification<T> {
    fn default() -> (r: Self)
        ensures
            r@ == ChanSpec::zeroed(),
    {
        Specification {
            spec: ChanSpec { type_: 0, channel: 0, scan_index: 0, info_mask_separate: 0, flags: 0 },
            _phantom: PhantomData,
        }
    }
}

impl Specification<Simple> {
    /// A directly accessed channel of the given type: scan index -1, every other field zero.
    pub fn new(channel_type: ChannelType) -> (s: Self)
        ensures
            s@ == ChanSpec::fresh(channel_type.spec_code(), NO_SCAN_INDEX),
    {
        Specification {
            spec: ChanSpec {
                type_: channel_type.code(),
                channel: 0,
                scan_index: NO_SCAN_INDEX,
                info_mask_separate: 0,
                flags: 0,
            },
            _phantom: PhantomData,
        }
    }

    /// This specification with the given scan index.
    pub fn scan_index(self, idx: i32) -> (s: Self)
        ensures
            s@ == (ChanSpec { scan_index: idx, ..self@ }),
            s@ == apply_step(self@, BuildStep::ScanIndex(idx)),
    {
        proof {
            use_type_invariant(&self);
        }
        let mut this = self;
        this.spec.scan_index = idx;
        this
    }

    /// This specification with the given channel number, marked as indexed.
    pub fn channel_idx(self, idx: i32) -> (s: Self)
        ensures
            s@ == (ChanSpec { channel: idx, ..self@ }).with_bit(INDEXED_BIT),
            s@ == apply_step(self@, BuildStep::ChannelIdx(idx)),
    {
        proof {
            use_type_invariant(&self);
        }
        let mut this = self;
        this.spec.channel = idx;
        this.as_indexed()
    }

    /// Whether the channel is marked differential.
    pub fn is_differential(&self) -> (r: bool)
        ensures
            r == (self@.bit(DIFFERENTIAL_BIT) == 1),
    {
        self.spec.differential() == 1
    }

    /// This specification with the given attributes exposed per channel.
    pub fn info_mask_separate(self, mask: Mask) -> (s: Self)
        ensures
            s@ == (ChanSpec { info_mask_separate: #[verifier::truncate] (mask@ as isize), ..self@ }),
            s@ == apply_step(self@, BuildStep::InfoMaskSeparate(mask@)),
    {
        proof {
            use_type_invariant(&self);
        }
        let mut this = self;
        this.spec.info_mask_separate = #[verifier::truncate] (mask.0 as isize);
        this
    }

    /// This specification marked as an output channel.
    pub fn as_output(self) -> (s: Self)
        ensures
            s@ == self@.with_bit(OUTPUT_BIT),
            s@ == apply_step(self@, BuildStep::SetOffset(OUTPUT_BIT)),
    {
        self.set_offset(OUTPUT_BIT)
    }

    /// This specification marked as differential.
    pub fn as_differential(self) -> (s: Self)
        ensures
            s@ == self@.with_bit(DIFFERENTIAL_BIT),
            s@ == apply_step(self@, BuildStep::SetOffset(DIFFERENTIAL_BIT)),
    {
        self.set_offset(DIFFERENTIAL_BIT)
    }

    /// This specification marked as indexed.
    pub fn as_indexed(self) -> (s: Self)
        ensures
            s@ == self@.with_bit(INDEXED_BIT),
            s@ == apply_step(self@, BuildStep::SetOffset(INDEXED_BIT)),
    {
        self.set_offset(INDEXED_BIT)
    }

    /// This specification with bit `bit_offset` of the bitfield byte set.
    pub fn set_offset(self, bit_offset: usize) -> (s: Self)
        requires
            bit_offset < 8,
        ensures
            s@ == self@.with_bit(bit_offset),
            s@ == apply_step(self@, BuildStep::SetOffset(bit_offset)),
    {
        proof {
            use_type_invariant(&self);
        }
        let mut this = self;
        let mask: u8 = this.spec.flags | (1u8 << bit_offset);
        this.spec.flags = mask;
        this
    }
}

impl Specification<Buffered> {
    /// A buffered channel of the given type: scan index 7, every other field zero.
    pub fn new_buffered(channel_type: ChannelType) -> (s: Self)
        ensures
            s@ == ChanSpec::fresh(channel_type.spec_code(), BUFFERED_SCAN_INDEX),
    {
        Specification {
            spec: ChanSpec {
                type_: channel_type.code(),
                channel: 0,
                scan_index: BUFFERED_SCAN_INDEX,
                info_mask_separate: 0,
                flags: 0,
            },
            _phantom: PhantomData,
        }
    }
}

impl Channel {
    /// The C-side spec this channel holds.
    pub fn chan_spec(&self) -> (r: ChanSpec)
        ensures
            r == self@,
    {
        self.inner
    }

    /// The channel number.
    pub fn channel(&self) -> (r: i32)
        ensures
            r == self@.channel,
    {
        self.inner.channel
    }

    /// C's `modified` bitfield.
    pub fn modified(&self) -> (r: u32)
        ensures
            r == self@.bit(MODIFIED_BIT),
    {
        self.inner.modified()
    }

    /// C's `indexed` bitfield.
    pub fn indexed(&self) -> (r: u32)
        ensures
            r == self@.bit(INDEXED_BIT),
    {
        self.inner.indexed()
    }

    /// C's `output` bitfield.
    pub fn output(&self) -> (r: u32)
        ensures
            r == self@.bit(OUTPUT_BIT),
    {
        self.inner.output()
    }

    /// C's `differential` bitfield.
    pub fn differential(&self) -> (r: u32)
        ensures
            r == self@.bit(DIFFERENTIAL_BIT),
    {
        self.inner.differential()
    }
}

impl Channel {
    /// The fields a channel is logged with, in order: channel number, then the `modified`,
    /// `indexed`, `output` and `differential` bitfields.
    pub fn debug_fields(&self) -> (r: (i32, u32, u32, u32, u32))
        ensures
            r == (
                self@.channel,
                self@.bit(MODIFIED_BIT),
                self@.bit(INDEXED_BIT),
                self@.bit(OUTPUT_BIT),
                self@.bit(DIFFERENTIAL_BIT),
            ),
    {
        (self.channel(), self.modified(), self.indexed(), self.output(), self.differential())
    }
}

impl Clone for Channel {
    fn clone(&self) -> (r: Self)
        ensures
            r@ == self@,
    {
        Channel { inner: self.inner }
    }
}

impl Copy for Channel {

}

impl Default for Channel {
    fn default() -> (r: Self)
        ensures
            r@ == ChanSpec::zeroed(),
    {
        Channel { inner: ChanSpec { type_: 0, channel: 0, scan_index: 0, info_mask_separate: 0, flags: 0 } }
    }
}

/// The channel table a driver hands to the IIO core: the unbuffered channels, then the buffered ones.
pub fn concat_channels(a: &[Specification<Simple>], b: &[Specification<Buffered>]) -> (r: Vec<
    Channel,
>)
    requires
        a@.len() + b@.len() <= usize::MAX,
    ensures
        r@.len() == a@.len() + b@.len(),
        forall|i: int| 0 <= i < a@.len() ==> (#[trigger] r@[i])@ == a@[i]@,
        forall|j: int| 0 <= j < b@.len() ==> (#[trigger] r@[a@.len() + j])@ == b@[j]@,
{
    let mut result: Vec<Channel> = Vec::with_capacity(a.len() + b.len());
    let mut i: usize = 0;
    while i < a.len()
        invariant
            i <= a@.len(),
            result@.len() == i,
            forall|k: int| 0 <= k < i ==> (#[trigger] result@[k])@ == a@[k]@,
        decreases a@.len() - i,
    {
        result.push(a[i].as_channel());
        i += 1;
    }
    let mut j: usize = 0;
    while j < b.len()
        invariant
            i == a@.len(),
            j <= b@.len(),
            result@.len() == i + j,
            forall|k: int| 0 <= k < a@.len() ==> (#[trigger] result@[k])@ == a@[k]@,
            forall|k: int| 0 <= k < j ==> (#[trigger] result@[a@.len() + k])@ == b@[k]@,
        decreases b@.len() - j,
    {
        result.push(b[j].as_channel());
        j += 1;
    }
    result
}

/// How the IIO core is to read a value a driver hands back: the C `IIO_VAL_*` codes.
#[derive(Clone, Copy, Debug, PartialEq, Eq, Structural)]
pub enum SensorValue {
    /// `IIO_VAL_INT`
    Int,
    /// `IIO_VAL_INT_PLUS_MICRO`
    PlusMicro,
    /// `IIO_VAL_INT_PLUS_NANO`
    PlusNano,
    /// `IIO_VAL_INT_PLUS_MICRO_DB`
    PlusMicroDb,
    /// `IIO_VAL_INT_MULTIPLE`
    IntMultiple,
    /// `IIO_VAL_INT_64`
    Int64,
    /// `IIO_VAL_FRACTIONAL`
    Fractional,
    /// `IIO_VAL_FRACTIONAL_LOG2`
    FractionalLog2,
    /// `IIO_VAL_CHAR`
    Char,
}

impl SensorValue {
    /// The C `IIO_VAL_*` value.
    pub open spec fn spec_code(self) -> u32 {
        match self {
            SensorValue::Int => 1,
            SensorValue::PlusMicro => 2,
            SensorValue::PlusNano => 3,
            SensorValue::PlusMicroDb => 4,
            SensorValue::IntMultiple => 5,
            SensorValue::Int64 => 6,
            SensorValue::Fractional => 10,
            SensorValue::FractionalLog2 => 11,
            SensorValue::Char => 12,
        }
    }

    /// The C `IIO_VAL_*` value.
    pub fn code(&self) -> (r: u32)
        ensures
            r == self.spec_code(),
    {
        match self {
            SensorValue::Int => 1,
            SensorValue::PlusMicro => 2,
            SensorValue::PlusNano => 3,
            SensorValue::PlusMicroDb => 4,
            SensorValue::IntMultiple => 5,
            SensorValue::Int64 => 6,
            SensorValue::Fractional => 10,
            SensorValue::FractionalLog2 => 11,
            SensorValue::Char => 12,
        }
    }
}

/// Every `IIO_VAL_*` code is positive, so it never reads as an error.
pub proof fn lemma_sensor_value_code_positive(v: SensorValue)
    ensures
        0 < v.spec_code() <= 12,
{
}

/// A value read from or written to a channel.
pub struct SensorData<T> {
    pub value: T,
}

impl<T> SensorData<T> {
    /// The value itself.
    pub fn inner(self) -> (r: T)
        ensures
            r == self.value,
    {
        self.value
    }
}

impl SensorData<i32> {
    /// An integer reading.
    pub fn new_int(value: i32) -> (d: Self)
        ensures
            d.value == value,
    {
        Self { value }
    }

    /// How the IIO core is to read this value.
    pub fn sensor_value(&self) -> (v: SensorValue)
        ensures
            v == <SensorData<i32> as Sensor>::SENSOR_VALUE,
            v == SensorValue::Int,
    {
        <SensorData<i32> as Sensor>::SENSOR_VALUE
    }
}

/// A kind of reading, and the `IIO_VAL_*` format it travels in.
pub trait Sensor {
    const SENSOR_VALUE: SensorValue;
}

impl Sensor for SensorData<i32> {
    const SENSOR_VALUE: SensorValue = SensorValue::Int;
}

/// Setting a flag bit turns that bit on and leaves every other bit of the bitfield byte as it was.
pub proof fn lemma_with_bit(s: ChanSpec, n: usize, m: usize)
    requires
        n < 8,
        m < 8,
    ensures
        s.with_bit(n).bit(n) == 1,
        m != n ==> s.with_bit(n).bit(m) == s.bit(m),
        s.with_bit(n).type_ == s.type_,
        s.with_bit(n).channel == s.channel,
        s.with_bit(n).scan_index == s.scan_index,
        s.with_bit(n).info_mask_separate == s.info_mask_separate,
{
    let f = s.flags;
    assert(((f | (1u8 << n)) >> n) & 1u8 == 1u8) by (bit_vector)
        requires
            n < 8,
    ;
    assert(m != n ==> ((f | (1u8 << n)) >> m) & 1u8 == (f >> m) & 1u8) by (bit_vector)
        requires
            n < 8,
            m < 8,
    ;
}

/// Every flag bit reads 0 or 1.
pub proof fn lemma_bit_range(s: ChanSpec, n: usize)
    ensures
        s.bit(n) == 0 || s.bit(n) == 1,
{
    let f = s.flags;
    assert((f >> n) & 1u8 == 0u8 || (f >> n) & 1u8 == 1u8) by (bit_vector);
}

/// Setting a flag bit twice is the same as setting it once.
pub proof fn lemma_with_bit_idempotent(s: ChanSpec, n: usize)
    requires
        n < 8,
    ensures
        s.with_bit(n).with_bit(n) == s.with_bit(n),
{
    let f = s.flags;
    assert((f | (1u8 << n)) | (1u8 << n) == f | (1u8 << n)) by (bit_vector);
}

/// Flag bits may be set in either order.
pub proof fn lemma_with_bit_commutes(s: ChanSpec, n: usize, m: usize)
    requires
        n < 8,
        m < 8,
    ensures
        s.with_bit(n).with_bit(m) == s.with_bit(m).with_bit(n),
{
    let f = s.flags;
    assert((f | (1u8 << n)) | (1u8 << m) == (f | (1u8 << m)) | (1u8 << n)) by (bit_vector);
}

/// A freshly made specification has every flag bit off: not modified, indexed, output or differential.
pub proof fn lemma_fresh_flags_clear(type_: u32, scan_index: i32, n: usize)
    requires
        n < 8,
    ensures
        ChanSpec::fresh(type_, scan_index).bit(n) == 0,
{
    assert(((0u8 >> n) & 1u8) == 0u8) by (bit_vector);
}

/// The type a new specification reports is the type it was made with.
pub proof fn lemma_new_channel_type(t: ChannelType, reported: ChannelType, scan_index: i32)
    requires
        reported.spec_code() == ChanSpec::fresh(t.spec_code(), scan_index).type_,
    ensures
        reported == t,
{
}

/// Combining masks is commutative, associative and idempotent.
pub proof fn lemma_mask_or_laws(a: u32, b: u32, c: u32)
    ensures
        a | b == b | a,
        (a | b) | c == a | (b | c),
        a | a == a,
{
    assert(a | b == b | a) by (bit_vector);
    assert((a | b) | c == a | (b | c)) by (bit_vector);
    assert(a | a == a) by (bit_vector);
}

/// The masks of two different attributes share no bit.
pub proof fn lemma_masks_disjoint(i: u32, j: u32)
    requires
        i < 32,
        j < 32,
        i != j,
    ensures
        (1u32 << i) & (1u32 << j) == 0,
        (1u32 << i) != 0,
{
    assert((1u32 << i) & (1u32 << j) == 0) by (bit_vector)
        requires
            i < 32,
            j < 32,
            i != j,
    ;
    assert((1u32 << i) != 0) by (bit_vector)
        requires
            i < 32,
    ;
}

/// No chain of builder calls changes the channel type: a specification made with type `t`
/// reports `t` after any builders.
pub proof fn lemma_builders_keep_type(t: ChannelType, reported: ChannelType, s: ChanSpec, steps: Seq<BuildStep>)
    requires
        s.type_ == t.spec_code(),
        reported.spec_code() == apply_steps(s, steps).type_,
    ensures
        apply_steps(s, steps).type_ == s.type_,
        reported == t,
    decreases steps.len(),
{
    if steps.len() > 0 {
        let next = apply_step(s, steps[0]);
        assert(next.type_ == s.type_);
        lemma_builders_keep_type(t, reported, next, steps.drop_first());
    }
}

} // verus!
