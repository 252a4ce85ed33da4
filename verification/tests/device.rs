use lib::buffer::{BufferChannel, BufferOpsVtable, Endian, ScanElement};
use lib::channels::{SensorData, Specification};
use lib::chan_type::ChannelType;
use lib::device::{
    claim_direct_result, read_raw_reply, write_raw_reply, DeviceFields, Driver, IioVTableAdapter,
    Mode, RegAction, RegEvent, Registration, RegistrationOptions,
};
use lib::dummy::{
    dummy_buffered_channels, dummy_channels, DevData, DUMMY_INDEX_VOLTAGE_0, DUMMY_INITIAL_VALUE,
};
use lib::error::{to_result, Error};

#[test]
fn error_codes_are_negative_errnos() {
    assert_eq!(Error::enomem().to_errno(), -12);
    assert_eq!(Error::ebusy().to_errno(), -16);
    assert_eq!(Error::einval().to_errno(), -22);
}

#[test]
fn from_errno_keeps_valid_codes_and_maps_others_to_einval() {
    assert_eq!(Error::from_errno(-5).to_errno(), -5);
    assert_eq!(Error::from_errno(-4095).to_errno(), -4095);
    assert_eq!(Error::from_errno(-4096).to_errno(), -22);
    assert_eq!(Error::from_errno(0).to_errno(), -22);
    assert_eq!(Error::from_errno(7).to_errno(), -22);
    assert_eq!(Error::try_from_errno(-1).map(|e| e.to_errno()), Some(-1));
    assert!(Error::try_from_errno(0).is_none());
    assert!(Error::try_from_errno(i32::MIN).is_none());
}

#[test]
fn to_result_splits_on_sign() {
    assert!(to_result(0).is_ok());
    assert!(to_result(3).is_ok());
    assert_eq!(to_result(-19).unwrap_err().to_errno(), -19);
    assert_eq!(to_result(-10000).unwrap_err().to_errno(), -22);
}

#[test]
fn mode_direct_is_indio_direct_mode() {
    assert_eq!(Mode::Direct.code(), 1);
}

#[test]
fn read_reply_on_success_gives_int_code_and_value() {
    let r = read_raw_reply(Ok(SensorData::new_int(6704)));
    assert_eq!(r.ret, 1);
    assert_eq!(r.val, Some(6704));
}

#[test]
fn read_reply_on_failure_gives_errno_and_no_value() {
    let r = read_raw_reply(Err(Error::ebusy()));
    assert_eq!(r.ret, -16);
    assert_eq!(r.val, None);
}

#[test]
fn write_reply_hides_the_driver_error_behind_einval() {
    assert_eq!(write_raw_reply(Ok(())), 1);
    assert_eq!(write_raw_reply(Err(Error::ebusy())), -22);
    assert_eq!(write_raw_reply(Err(Error::enomem())), -22);
}

#[test]
fn claim_direct_busy_when_refused() {
    assert!(claim_direct_result(true).is_ok());
    assert_eq!(claim_direct_result(false).unwrap_err().to_errno(), -16);
}

fn options() -> RegistrationOptions {
    RegistrationOptions { name: "test2", modes: Mode::Direct }
}

#[test]
fn registration_starts_by_allocating() {
    let (_reg, a) = Registration::start(&options(), 24, 2);
    match a {
        RegAction::Alloc { priv_size } => assert_eq!(priv_size, 24),
        other => panic!("unexpected first action {other:?}"),
    }
}

#[test]
fn registration_fails_with_enomem_when_allocation_fails() {
    let (mut reg, _) = Registration::start(&options(), 8, 2);
    let ev = RegEvent::Allocated { is_null: true };
    assert!(reg.expects(&ev));
    match reg.on_event(ev) {
        RegAction::Finish(Err(e)) => assert_eq!(e.to_errno(), -12),
        other => panic!("unexpected action {other:?}"),
    }
    assert!(!reg.expects(&RegEvent::Registered(0)));
}

#[test]
fn registration_frees_the_device_when_data_init_fails() {
    let (mut reg, _) = Registration::start(&options(), 8, 2);
    match reg.on_event(RegEvent::Allocated { is_null: false }) {
        RegAction::InitData => {},
        other => panic!("unexpected action {other:?}"),
    }
    match reg.on_event(RegEvent::DataInit(Err(Error::enomem()))) {
        RegAction::FreeAndFail(e) => assert_eq!(e.to_errno(), -12),
        other => panic!("unexpected action {other:?}"),
    }
}

#[test]
fn registration_writes_fields_then_follows_the_core_answer() {
    let (mut reg, _) = Registration::start(&options(), 8, 2);
    assert!(!reg.expects(&RegEvent::DataInit(Ok(()))));
    reg.on_event(RegEvent::Allocated { is_null: false });
    match reg.on_event(RegEvent::DataInit(Ok(()))) {
        RegAction::WriteFieldsAndRegister(f) => {
            assert_eq!(f, DeviceFields { modes: 1, num_channels: 2 })
        },
        other => panic!("unexpected action {other:?}"),
    }
    let mut ok = reg;
    match ok.on_event(RegEvent::Registered(0)) {
        RegAction::Finish(Ok(())) => {},
        other => panic!("unexpected action {other:?}"),
    }
    assert!(!ok.expects(&RegEvent::Allocated { is_null: false }));
}

#[test]
fn registration_tears_down_and_reports_the_core_error() {
    let (mut reg, _) = Registration::start(&options(), 8, 2);
    reg.on_event(RegEvent::Allocated { is_null: false });
    reg.on_event(RegEvent::DataInit(Ok(())));
    match reg.on_event(RegEvent::Registered(-17)) {
        RegAction::UnregisterFreeAndFail(e) => assert_eq!(e.to_errno(), -17),
        other => panic!("unexpected action {other:?}"),
    }
}

#[test]
fn dummy_driver_channel_table() {
    let s = dummy_channels();
    assert_eq!(s.len(), 2);
    let input = s[0].chan_spec();
    assert_eq!(input.type_, 0);
    assert_eq!(input.info_mask_separate, 13);
    assert_eq!(input.scan_index, DUMMY_INDEX_VOLTAGE_0);
    assert_eq!(input.channel, 0);
    assert_eq!((input.indexed(), input.output()), (1, 0));
    let output = s[1].chan_spec();
    assert_eq!(output.info_mask_separate, 1);
    assert_eq!(output.scan_index, -1);
    assert_eq!((output.indexed(), output.output()), (1, 1));
    assert!(dummy_buffered_channels().is_empty());
    let all = <DevData as Driver>::channels();
    assert_eq!(all.len(), 2);
    assert!(all[0].chan_spec() == input);
    assert!(all[1].chan_spec() == output);
}

#[test]
fn dummy_driver_reads_input_and_refuses_output() {
    let data = DevData::init();
    assert_eq!(data.x, DUMMY_INITIAL_VALUE);
    let chans = dummy_channels();
    let r = <DevData as Driver>::read_raw(&data, &chans[0]);
    assert_eq!(r.map(|d| d.value).ok(), Some(6704));
    let r = <DevData as Driver>::read_raw(&data, &chans[1]);
    assert_eq!(r.err().map(|e| e.to_errno()), Some(-22));
}

#[test]
fn dummy_driver_write_bumps_counter_on_output_only() {
    let mut data = DevData::init();
    let chans = dummy_channels();
    assert!(<DevData as Driver>::can_write_raw(&data, &chans[1]));
    assert!(<DevData as Driver>::write_raw(&mut data, &chans[1], SensorData::new_int(99)).is_ok());
    assert_eq!(data.x, 6705);
    let r = <DevData as Driver>::write_raw(&mut data, &chans[0], SensorData::new_int(99));
    assert_eq!(r.err().map(|e| e.to_errno()), Some(-22));
    assert_eq!(data.x, 6705);
    let mut full = DevData { x: i32::MAX };
    assert!(!<DevData as Driver>::can_write_raw(&full, &chans[1]));
    assert!(<DevData as Driver>::can_write_raw(&full, &chans[0]));
    assert_eq!(IioVTableAdapter::<DevData>::write_raw(&mut full, &chans[0], 1), -22);
    assert_eq!(full.x, i32::MAX);
}

#[test]
fn adapter_answers_for_the_dummy_driver() {
    let mut data = DevData::init();
    let chans = dummy_channels();
    let r = IioVTableAdapter::<DevData>::read_raw(&data, &chans[0]);
    assert_eq!((r.ret, r.val), (1, Some(6704)));
    let r = IioVTableAdapter::<DevData>::read_raw(&data, &chans[1]);
    assert_eq!((r.ret, r.val), (-22, None));
    assert_eq!(IioVTableAdapter::<DevData>::write_raw(&mut data, &chans[1], 5), 1);
    assert_eq!(data.x, 6705);
    assert_eq!(IioVTableAdapter::<DevData>::write_raw(&mut data, &chans[0], 5), -22);
    let input = Specification::new(ChannelType::Voltage);
    assert_eq!(IioVTableAdapter::<DevData>::read_raw(&data, &input).val, Some(6705));
}

#[test]
fn endian_codes_match_c() {
    assert_eq!(Endian::Cpu.code(), 0);
    assert_eq!(Endian::Big.code(), 1);
    assert_eq!(Endian::Little.code(), 2);
}

struct OnlyEnable;

static ONLY_ENABLE_SCAN: ScanElement = ScanElement {
    scan_index: 0,
    sign: 's',
    realbits: 12,
    storagebits: 16,
    shift: 4,
    repeat: 0,
    endianness: Endian::Little,
};

impl BufferChannel for OnlyEnable {
    type Data = ();
    const HAS_PREENABLE: bool = true;
    const HAS_POSTENABLE: bool = true;
    const HAS_PREDISABLE: bool = false;
    const HAS_POSTDISABLE: bool = false;
    const HAS_VALIDATE_SCAN_MASK: bool = false;
    const SCAN_TYPE: &'static ScanElement = &ONLY_ENABLE_SCAN;
    fn irq_handler() {}
    fn preenable() {}
    fn postenable() {}
    fn predisable() {}
    fn postdisable() {}
    fn validate_scan_mask() {}
}

#[test]
fn buffer_vtable_installs_only_implemented_callbacks() {
    let ops = BufferOpsVtable::<OnlyEnable>::build();
    assert!(ops.preenable);
    assert!(ops.postenable);
    assert!(!ops.predisable);
    assert!(!ops.postdisable);
    assert!(!ops.validate_scan_mask);
    assert_eq!(OnlyEnable::SCAN_TYPE.storagebits, 16);
}

#[test]
fn dummy_write_then_read_sees_the_bump() {
    let mut data = DevData::init();
    let chans = dummy_channels();
    for _ in 0..3 {
        assert_eq!(IioVTableAdapter::<DevData>::write_raw(&mut data, &chans[1], 0), 1);
    }
    assert_eq!(IioVTableAdapter::<DevData>::read_raw(&data, &chans[0]).val, Some(6707));
    assert_eq!(IioVTableAdapter::<DevData>::write_raw(&mut data, &chans[0], 0), -22);
    assert_eq!(IioVTableAdapter::<DevData>::read_raw(&data, &chans[0]).val, Some(6707));
}

#[test]
fn registration_with_out_of_range_core_answer_fails_with_einval() {
    let (mut reg, _) = Registration::start(&options(), 8, 2);
    reg.on_event(RegEvent::Allocated { is_null: false });
    reg.on_event(RegEvent::DataInit(Ok(())));
    match reg.on_event(RegEvent::Registered(-5000)) {
        RegAction::UnregisterFreeAndFail(e) => assert_eq!(e.to_errno(), -22),
        other => panic!("unexpected action {other:?}"),
    }
}

#[test]
fn null_trigger_is_refused_with_einval() {
    assert_eq!(lib::trigger::trigger_alloc_check(true).map(|e| e.to_errno()), Some(-22));
    assert!(lib::trigger::trigger_alloc_check(false).is_none());
}
