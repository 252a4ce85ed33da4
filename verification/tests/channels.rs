use lib::chan_type::{ChannelType, NUM_CHANNEL_TYPES};
use lib::channels::{
    calibscale, concat_channels, int_time, offset, processed, raw, scale, Buffered, Channel,
    SensorData, SensorValue, Specification, BUFFERED_SCAN_INDEX, NO_SCAN_INDEX,
};

#[test]
fn test_spec_output() {
    let spec = Specification::new(ChannelType::Voltage).as_output();
    assert_eq!(spec.chan_spec().output(), 1);
}

#[test]
fn channel_type_codes_match_c() {
    assert_eq!(ChannelType::Voltage.code(), 0);
    assert_eq!(ChannelType::Current.code(), 1);
    assert_eq!(ChannelType::Light.code(), 6);
    assert_eq!(ChannelType::Temp.code(), 9);
    assert_eq!(ChannelType::Count.code(), 29);
    assert_eq!(ChannelType::DeltaVelocit.code(), 36);
    assert_eq!(ChannelType::Attention.code(), 39);
    assert_eq!(NUM_CHANNEL_TYPES, 40);
}

#[test]
fn channel_type_from_code_round_trips() {
    for code in 0..NUM_CHANNEL_TYPES {
        let t = ChannelType::from_code(code).expect("every code below the count names a type");
        assert_eq!(t.code(), code);
    }
    assert_eq!(ChannelType::from_code(NUM_CHANNEL_TYPES), None);
    assert_eq!(ChannelType::from_code(u32::MAX), None);
    assert_eq!(ChannelType::from_code(13), Some(ChannelType::Timestamp));
}

#[test]
fn sensor_value_codes_match_c() {
    assert_eq!(SensorValue::Int.code(), 1);
    assert_eq!(SensorValue::PlusMicro.code(), 2);
    assert_eq!(SensorValue::PlusNano.code(), 3);
    assert_eq!(SensorValue::PlusMicroDb.code(), 4);
    assert_eq!(SensorValue::IntMultiple.code(), 5);
    assert_eq!(SensorValue::Int64.code(), 6);
    assert_eq!(SensorValue::Fractional.code(), 10);
    assert_eq!(SensorValue::FractionalLog2.code(), 11);
    assert_eq!(SensorValue::Char.code(), 12);
}

#[test]
fn masks_have_one_bit_per_attribute() {
    assert_eq!(raw().bits(), 1);
    assert_eq!(processed().bits(), 2);
    assert_eq!(scale().bits(), 4);
    assert_eq!(offset().bits(), 8);
    assert_eq!(calibscale().bits(), 16);
    assert_eq!(int_time().bits(), 1 << 18);
}

#[test]
fn mask_or_combines_bits() {
    assert_eq!(raw().or(offset()).or(scale()).bits(), 13);
    assert_eq!(raw().or(raw()).bits(), 1);
    assert!(raw().or(scale()) == scale().or(raw()));
}

#[test]
fn new_specification_is_zeroed_but_type_and_scan_index() {
    let s = Specification::new(ChannelType::Light).chan_spec();
    assert_eq!(s.type_, 6);
    assert_eq!(s.scan_index, NO_SCAN_INDEX);
    assert_eq!(s.scan_index, -1);
    assert_eq!(s.channel, 0);
    assert_eq!(s.info_mask_separate, 0);
    assert_eq!(s.flags, 0);
    assert_eq!(s.modified(), 0);
    assert_eq!(s.indexed(), 0);
    assert_eq!(s.output(), 0);
    assert_eq!(s.differential(), 0);
}

#[test]
fn new_buffered_uses_scan_index_seven() {
    let s = Specification::new_buffered(ChannelType::Accel).chan_spec();
    assert_eq!(s.type_, 3);
    assert_eq!(s.scan_index, BUFFERED_SCAN_INDEX);
    assert_eq!(s.scan_index, 7);
    assert_eq!(s.flags, 0);
}

#[test]
fn default_specification_is_all_zero() {
    let s: Specification = Specification::default();
    let c = s.chan_spec();
    assert_eq!((c.type_, c.channel, c.scan_index, c.info_mask_separate, c.flags), (0, 0, 0, 0, 0));
    let ch = Channel::default();
    assert_eq!(ch.channel(), 0);
    assert_eq!(ch.output(), 0);
}

#[test]
fn builders_set_their_fields() {
    let s = Specification::new(ChannelType::Voltage)
        .info_mask_separate(raw().or(offset()).or(scale()))
        .scan_index(7)
        .channel_idx(3);
    let c = s.chan_spec();
    assert_eq!(c.info_mask_separate, 13);
    assert_eq!(c.scan_index, 7);
    assert_eq!(c.channel, 3);
    assert_eq!(c.indexed(), 1);
    assert_eq!(c.flags, 0b10);
    assert_eq!(c.output(), 0);
}

#[test]
fn flag_builders_set_one_bit_each() {
    let base = Specification::new(ChannelType::Voltage);
    assert_eq!(base.as_indexed().chan_spec().flags, 0b0010);
    assert_eq!(base.as_output().chan_spec().flags, 0b0100);
    assert_eq!(base.as_differential().chan_spec().flags, 0b1000);
    assert_eq!(base.set_offset(0).chan_spec().modified(), 1);
    let all = base.as_output().as_differential().as_indexed().set_offset(0);
    let c = all.chan_spec();
    assert_eq!((c.modified(), c.indexed(), c.output(), c.differential()), (1, 1, 1, 1));
    assert_eq!(c.flags, 0b1111);
    // setting a bit twice changes nothing
    assert_eq!(base.as_output().as_output().chan_spec().flags, 0b0100);
    // and the order does not matter
    assert!(base.as_output().as_indexed().chan_spec() == base.as_indexed().as_output().chan_spec());
}

#[test]
fn channel_type_and_definition_read_back() {
    let s = Specification::new(ChannelType::Pressure);
    assert_eq!(s.channel_type(), ChannelType::Pressure);
    let d = s.definition();
    assert_eq!(d.ctype, ChannelType::Pressure);
    assert!(!d.output);
    let d = s.as_output().definition();
    assert_eq!(d.ctype, ChannelType::Pressure);
    assert!(d.output);
    assert!(!s.is_differential());
    assert!(s.as_differential().is_differential());
    assert!(!s.as_output().is_differential());
}

#[test]
fn as_channel_keeps_the_spec() {
    let s = Specification::new(ChannelType::Voltage).channel_idx(5).as_output();
    let c = s.as_channel();
    assert!(c.chan_spec() == s.chan_spec());
    assert_eq!(c.channel(), 5);
    assert_eq!(c.indexed(), 1);
    assert_eq!(c.output(), 1);
    assert_eq!(c.modified(), 0);
    assert_eq!(c.differential(), 0);
}

#[test]
fn concat_keeps_order_simple_then_buffered() {
    let a = [
        Specification::new(ChannelType::Voltage).channel_idx(0),
        Specification::new(ChannelType::Current).channel_idx(1),
    ];
    let b: [Specification<Buffered>; 1] = [Specification::new_buffered(ChannelType::Temp)];
    let r = concat_channels(&a, &b);
    assert_eq!(r.len(), 3);
    assert_eq!(r[0].chan_spec().type_, 0);
    assert_eq!(r[0].channel(), 0);
    assert_eq!(r[1].chan_spec().type_, 1);
    assert_eq!(r[1].channel(), 1);
    assert_eq!(r[2].chan_spec().type_, 9);
    assert_eq!(r[2].chan_spec().scan_index, 7);
}

#[test]
fn concat_of_nothing_is_empty() {
    let a: [Specification; 0] = [];
    let b: [Specification<Buffered>; 0] = [];
    assert!(concat_channels(&a, &b).is_empty());
}

#[test]
fn sensor_data_holds_its_value() {
    let d = SensorData::new_int(-42);
    assert_eq!(d.value, -42);
    assert_eq!(d.sensor_value(), SensorValue::Int);
    assert_eq!(d.inner(), -42);
}

#[test]
fn from_chan_spec_accepts_known_types_only() {
    let c = Specification::new(ChannelType::Magn).channel_idx(2).chan_spec();
    let back: Specification = Specification::from_chan_spec(c).expect("known type");
    assert!(back.chan_spec() == c);
    assert_eq!(back.channel_type(), ChannelType::Magn);
    let mut bad = c;
    bad.type_ = 40;
    assert!(Specification::<lib::channels::Simple>::from_chan_spec(bad).is_none());
}

#[test]
fn builder_chain_keeps_channel_type() {
    let s = Specification::new(ChannelType::HumidityRelative)
        .scan_index(3)
        .channel_idx(1)
        .info_mask_separate(raw().or(scale()))
        .as_output()
        .as_differential()
        .as_indexed()
        .set_offset(7);
    assert_eq!(s.channel_type(), ChannelType::HumidityRelative);
    assert_eq!(s.definition().ctype, ChannelType::HumidityRelative);
    assert_eq!(s.chan_spec().flags, 0b1000_1110);
}

#[test]
fn channel_debug_fields_in_logged_order() {
    let c = Specification::new(ChannelType::Voltage).channel_idx(4).as_output().as_channel();
    assert_eq!(c.debug_fields(), (4, 0, 1, 1, 0));
}
