//! A dummy IIO driver: one voltage input channel that reports a counter, and one voltage
//! output channel whose every write bumps that counter.
use vstd::prelude::*;

use crate::chan_type::ChannelType;
use crate::channels::{
    concat_channels, offset, raw, scale, Buffered, ChanSpec, Channel, SensorData, Specification,
    DIFFERENTIAL_BIT, INDEXED_BIT, IIO_CHAN_INFO_OFFSET, MODIFIED_BIT, IIO_CHAN_INFO_RAW, IIO_CHAN_INFO_SCALE, NO_SCAN_INDEX,
    OUTPUT_BIT,
};
use crate::device::Driver;
use crate::error::{Error, EINVAL_NUM};

verus! {

/// Scan index of the input voltage channel.
pub const DUMMY_INDEX_VOLTAGE_0: i32 = 7;

/// The counter's value when the driver starts.
pub const DUMMY_INITIAL_VALUE: i32 = 6704;

/// The driver's state: the counter its channels read and bump.
pub struct DevData {
    pub x: i32,
}

impl DevData {
    /// The state a freshly loaded driver starts in.
    pub fn init() -> (d: DevData)
        ensures
            d.x == DUMMY_INITIAL_VALUE,
    {
        DevData { x: DUMMY_INITIAL_VALUE }
    }
}

/// The input channel's spec: voltage channel 0, exposing raw value, offset and scale.
pub open spec fn spec_input_channel() -> ChanSpec {
    ChanSpec {
        channel: 0,
        scan_index: DUMMY_INDEX_VOLTAGE_0,
        info_mask_separate: ((1u32 << IIO_CHAN_INFO_RAW) | (1u32 << IIO_CHAN_INFO_OFFSET)
            | (1u32 << IIO_CHAN_INFO_SCALE)) as isize,
        ..ChanSpec::fresh(ChannelType::Voltage.spec_code(), NO_SCAN_INDEX)
    }.with_bit(INDEXED_BIT)
}

/// The output channel's spec: voltage channel 0, exposing its raw value.
pub open spec fn spec_output_channel() -> ChanSpec {
    ChanSpec {
        channel: 0,
        info_mask_separate: (1u32 << IIO_CHAN_INFO_RAW) as isize,
        ..ChanSpec::fresh(ChannelType::Voltage.spec_code(), NO_SCAN_INDEX)
    }.with_bit(INDEXED_BIT).with_bit(OUTPUT_BIT)
}

/// The dummy driver's table, field by field: both channels are voltage channel 0 (C type 0,
/// `IIO_VOLTAGE`) and indexed; the input channel has scan index 7, exposes raw, offset and
/// scale (mask 13) and is not an output; the output channel has scan index -1, exposes its
/// raw value (mask 1) and is an output; neither is modified or differential.
pub proof fn lemma_dummy_channel_table()
    ensures
        spec_input_channel().type_ == 0,
        spec_input_channel().channel == 0,
        spec_input_channel().scan_index == 7,
        spec_input_channel().info_mask_separate == 13,
        spec_input_channel().flags == 2,
        spec_input_channel().bit(MODIFIED_BIT) == 0,
        spec_input_channel().bit(INDEXED_BIT) == 1,
        spec_input_channel().bit(OUTPUT_BIT) == 0,
        spec_input_channel().bit(DIFFERENTIAL_BIT) == 0,
        spec_output_channel().type_ == 0,
        spec_output_channel().channel == 0,
        spec_output_channel().scan_index == -1,
        spec_output_channel().info_mask_separate == 1,
        spec_output_channel().flags == 6,
        spec_output_channel().bit(MODIFIED_BIT) == 0,
        spec_output_channel().bit(INDEXED_BIT) == 1,
        spec_output_channel().bit(OUTPUT_BIT) == 1,
        spec_output_channel().bit(DIFFERENTIAL_BIT) == 0,
{
    assert((1u32 << 0u32) | (1u32 << 3u32) | (1u32 << 2u32) == 13u32) by (bit_vector);
    assert((1u32 << 0u32) == 1u32) by (bit_vector);
    assert(0u8 | (1u8 << 1usize) == 2u8) by (bit_vector);
    assert((0u8 | (1u8 << 1usize)) | (1u8 << 2usize) == 6u8) by (bit_vector);
    assert((2u8 >> 0usize) & 1u8 == 0u8) by (bit_vector);
    assert((2u8 >> 1usize) & 1u8 == 1u8) by (bit_vector);
    assert((2u8 >> 2usize) & 1u8 == 0u8) by (bit_vector);
    assert((2u8 >> 3usize) & 1u8 == 0u8) by (bit_vector);
    assert((6u8 >> 0usize) & 1u8 == 0u8) by (bit_vector);
    assert((6u8 >> 1usize) & 1u8 == 1u8) by (bit_vector);
    assert((6u8 >> 2usize) & 1u8 == 1u8) by (bit_vector);
    assert((6u8 >> 3usize) & 1u8 == 0u8) by (bit_vector);
}

/// The driver's directly accessed channels: the input channel, then the output channel.
pub fn dummy_channels() -> (r: Vec<Specification>)
    ensures
        r@.len() == 2,
        r@[0]@ == spec_input_channel(),
        r@[1]@ == spec_output_channel(),
        r@[0]@.type_ == 0,
        r@[0]@.channel == 0,
        r@[0]@.scan_index == 7,
        r@[0]@.info_mask_separate == 13,
        r@[0]@.bit(OUTPUT_BIT) == 0,
        r@[1]@.type_ == 0,
        r@[1]@.channel == 0,
        r@[1]@.scan_index == -1,
        r@[1]@.info_mask_separate == 1,
        r@[1]@.bit(OUTPUT_BIT) == 1,
{
    proof {
        lemma_dummy_channel_table();
    }
    let input = Specification::new(ChannelType::Voltage).info_mask_separate(
        raw().or(offset()).or(scale()),
    ).scan_index(DUMMY_INDEX_VOLTAGE_0).channel_idx(0);
    let output = Specification::new(ChannelType::Voltage).info_mask_separate(raw()).channel_idx(
        0,
    ).as_output();
    let mut v: Vec<Specification> = Vec::new();
    v.push(input);
    v.push(output);
    v
}

/// The driver's buffered channels: none.
pub fn dummy_buffered_channels() -> (r: Vec<Specification<Buffered>>)
    ensures
        r@.len() == 0,
{
    Vec::new()
}

/// What a read of channel `chan` answers when the counter holds `x`.
pub open spec fn spec_dummy_read(x: i32, chan: ChanSpec) -> Result<SensorData<i32>, Error> {
    if chan.bit(OUTPUT_BIT) == 1 {
        Err(Error::with_errno(-EINVAL_NUM))
    } else {
        Ok(SensorData { value: x })
    }
}

/// The counter and the answer after a write to channel `chan` when the counter holds `x`.
pub open spec fn spec_dummy_write(x: i32, chan: ChanSpec) -> (int, Result<(), Error>) {
    if chan.bit(OUTPUT_BIT) == 1 {
        (x + 1, Ok(()))
    } else {
        (x as int, Err(Error::with_errno(-EINVAL_NUM)))
    }
}

/// After a write to an output channel, an input channel reads the counter one higher;
/// a refused write leaves what input channels read unchanged.
pub proof fn lemma_dummy_write_then_read(x: i32, out: ChanSpec, input: ChanSpec)
    requires
        x < i32::MAX,
        input.bit(OUTPUT_BIT) != 1,
    ensures
        out.bit(OUTPUT_BIT) == 1 ==> spec_dummy_read(spec_dummy_write(x, out).0 as i32, input)
            == Ok::<SensorData<i32>, Error>(SensorData { value: (x + 1) as i32 }),
        out.bit(OUTPUT_BIT) != 1 ==> spec_dummy_read(spec_dummy_write(x, out).0 as i32, input)
            == spec_dummy_read(x, input),
{
}

/// How many of `writes` go to an output channel.
pub open spec fn count_outputs(writes: Seq<ChanSpec>) -> nat
    decreases writes.len(),
{
    if writes.len() == 0 {
        0
    } else {
        (if writes[0].bit(OUTPUT_BIT) == 1 {
            1nat
        } else {
            0nat
        }) + count_outputs(writes.drop_first())
    }
}

/// The counter after the writes `writes`, first to last, starting from `x`.
pub open spec fn spec_dummy_run(x: i32, writes: Seq<ChanSpec>) -> int
    decreases writes.len(),
{
    if writes.len() == 0 {
        x as int
    } else {
        spec_dummy_run(spec_dummy_write(x, writes[0]).0 as i32, writes.drop_first())
    }
}

/// A run of writes bumps the counter once per write to an output channel, each of those
/// writes finding room for it; writes to input channels change nothing.
pub proof fn lemma_dummy_run(x: i32, writes: Seq<ChanSpec>)
    requires
        x + count_outputs(writes) <= i32::MAX,
    ensures
        spec_dummy_run(x, writes) == x + count_outputs(writes),
        forall|i: int|
            0 <= i < writes.len() ==> DevData::write_raw_allowed(
                DevData { x: spec_dummy_run(x, writes.take(i)) as i32 },
                #[trigger] writes[i],
            ),
    decreases writes.len(),
{
    if writes.len() > 0 {
        let next = spec_dummy_write(x, writes[0]).0;
        let rest = writes.drop_first();
        lemma_dummy_run(next as i32, rest);
        assert forall|i: int| 0 <= i < writes.len() implies DevData::write_raw_allowed(
            DevData { x: spec_dummy_run(x, writes.take(i)) as i32 },
            #[trigger] writes[i],
        ) by {
            if i == 0 {
                assert(writes.take(0).len() == 0);
            } else {
                assert(writes.take(i).drop_first() =~= rest.take(i - 1));
                assert(writes.take(i)[0] == writes[0]);
                assert(rest[i - 1] == writes[i]);
                lemma_run_bound(next as i32, rest.take(i - 1), rest);
            }
        }
    }
}

/// A prefix of a run never takes the counter past the whole run.
proof fn lemma_run_bound(x: i32, prefix: Seq<ChanSpec>, writes: Seq<ChanSpec>)
    requires
        prefix.len() <= writes.len(),
        prefix =~= writes.take(prefix.len() as int),
        x + count_outputs(writes) <= i32::MAX,
    ensures
        spec_dummy_run(x, prefix) == x + count_outputs(prefix),
        count_outputs(prefix) + (if prefix.len() < writes.len() && writes[prefix.len() as int].bit(
            OUTPUT_BIT,
        ) == 1 {
            1nat
        } else {
            0nat
        }) <= count_outputs(writes),
    decreases prefix.len(),
{
    if prefix.len() > 0 {
        let next = spec_dummy_write(x, prefix[0]).0;
        assert(prefix.drop_first() =~= writes.drop_first().take(prefix.len() - 1));
        lemma_run_bound(next as i32, prefix.drop_first(), writes.drop_first());
    }
}

/// After the driver starts and serves `writes`, an input channel reads the start value plus the
/// number of writes to output channels, and an output channel refuses the read with `-EINVAL`.
pub proof fn lemma_dummy_reads_after_run(writes: Seq<ChanSpec>, chan: ChanSpec)
    requires
        DUMMY_INITIAL_VALUE + count_outputs(writes) <= i32::MAX,
    ensures
        chan.bit(OUTPUT_BIT) != 1 ==> spec_dummy_read(
            spec_dummy_run(DUMMY_INITIAL_VALUE, writes) as i32,
            chan,
        ) == Ok::<SensorData<i32>, Error>(
            SensorData { value: (DUMMY_INITIAL_VALUE + count_outputs(writes)) as i32 },
        ),
        chan.bit(OUTPUT_BIT) == 1 ==> spec_dummy_read(
            spec_dummy_run(DUMMY_INITIAL_VALUE, writes) as i32,
            chan,
        ) == Err::<SensorData<i32>, Error>(Error::with_errno(-EINVAL_NUM)),
{
    lemma_dummy_run(DUMMY_INITIAL_VALUE, writes);
}

impl Driver for DevData {
    type Data = DevData;

    fn channels() -> (r: Vec<Channel>)
        ensures
            r@.len() == 2,
            r@[0]@ == spec_input_channel(),
            r@[1]@ == spec_output_channel(),
            r@[0]@.type_ == 0,
            r@[0]@.channel == 0,
            r@[0]@.scan_index == 7,
            r@[0]@.info_mask_separate == 13,
            r@[0]@.bit(OUTPUT_BIT) == 0,
            r@[1]@.type_ == 0,
            r@[1]@.channel == 0,
            r@[1]@.scan_index == -1,
            r@[1]@.info_mask_separate == 1,
            r@[1]@.bit(OUTPUT_BIT) == 1,
    {
        proof {
            lemma_dummy_channel_table();
        }
        let simple = dummy_channels();
        let buffered = dummy_buffered_channels();
        concat_channels(simple.as_slice(), buffered.as_slice())
    }

    /// Input channels report the counter; a read of an output channel is refused with `-EINVAL`.
    fn read_raw(data: &DevData, spec: &Specification) -> (r: Result<SensorData<i32>, Error>)
        ensures
            r == spec_dummy_read(data.x, spec@),
            spec@.bit(OUTPUT_BIT) == 1 ==> (r matches Err(e) && e.errno() == -EINVAL_NUM),
    {
        let def = spec.definition();
        if !def.output {
            Ok(SensorData::new_int(data.x))
        } else {
            Err(Error::einval())
        }
    }

    open spec fn read_raw_post(data: DevData, spec: ChanSpec, r: Result<SensorData<i32>, Error>) -> bool {
        r == spec_dummy_read(data.x, spec)
    }

    /// Only a write to an output channel bumps the counter, so only there must it have room.
    open spec fn write_raw_allowed(data: DevData, spec: ChanSpec) -> bool {
        spec.bit(OUTPUT_BIT) == 1 ==> data.x < i32::MAX
    }

    open spec fn write_raw_post(
        before: DevData,
        after: DevData,
        spec: ChanSpec,
        sdata: SensorData<i32>,
        r: Result<(), Error>,
    ) -> bool {
        (after.x as int, r) == spec_dummy_write(before.x, spec)
    }

    fn can_write_raw(data: &DevData, spec: &Specification) -> (r: bool) {
        let c = spec.chan_spec();
        c.output() != 1 || data.x < i32::MAX
    }

    /// A write to an output channel bumps the counter, whatever value was written; a write to
    /// an input channel is refused with `-EINVAL` and changes nothing.
    fn write_raw(data: &mut DevData, spec: &Specification, sdata: SensorData<i32>) -> (r: Result<
        (),
        Error,
    >)
        ensures
            (final(data).x as int, r) == spec_dummy_write(old(data).x, spec@),
            spec@.bit(OUTPUT_BIT) == 1 ==> r is Ok && final(data).x == old(data).x + 1,
            spec@.bit(OUTPUT_BIT) != 1 ==> (r matches Err(e) && e.errno() == -EINVAL_NUM)
                && final(data).x == old(data).x,
    {
        let def = spec.definition();
        if def.output {
            data.x = data.x + 1;
            Ok(())
        } else {
            Err(Error::einval())
        }
    }
}

} // verus!
