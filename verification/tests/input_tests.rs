use tablet_utils::input::{
    decode_stylus_input, parse_stylus_input, EventHolder, StylusAction, StylusCoord, StylusData,
    StylusInput, StylusInputRaw, RAW_EVENT_SIZE,
};

fn raw(tv_sec: i64, tv_usec: i64, type_: u16, code: u16, val: i32) -> StylusInputRaw {
    StylusInputRaw { tv_sec, tv_usec, type_, code, val }
}

fn native_bytes(r: &StylusInputRaw) -> Vec<u8> {
    let mut bytes = Vec::new();
    bytes.extend_from_slice(&r.tv_sec.to_ne_bytes());
    bytes.extend_from_slice(&r.tv_usec.to_ne_bytes());
    bytes.extend_from_slice(&r.type_.to_ne_bytes());
    bytes.extend_from_slice(&r.code.to_ne_bytes());
    bytes.extend_from_slice(&r.val.to_ne_bytes());
    bytes
}

fn data_of(r: StylusInputRaw) -> Option<StylusData> {
    StylusInput::from_raw(r).map(|i| i.data)
}

#[test]
fn parse_rejects_wrong_length() {
    let bytes = vec![0u8; 23];
    assert!(parse_stylus_input(&bytes, 24).is_none());
    let bytes = vec![0u8; 25];
    assert!(parse_stylus_input(&bytes, 24).is_none());
}

#[test]
fn parse_decodes_native_order() {
    let r = raw(1_700_000_123, 654_321, 3, 1, -12_345);
    let bytes = native_bytes(&r);
    assert_eq!(bytes.len(), RAW_EVENT_SIZE);
    let parsed = parse_stylus_input(&bytes, 24).unwrap();
    assert_eq!(parsed.tv_sec, 1_700_000_123);
    assert_eq!(parsed.tv_usec, 654_321);
    assert_eq!(parsed.type_, 3);
    assert_eq!(parsed.code, 1);
    assert_eq!(parsed.val, -12_345);
}

#[test]
fn parse_decodes_extreme_values() {
    let r = raw(i64::MIN, i64::MAX, u16::MAX, 0, i32::MIN);
    let parsed = parse_stylus_input(&native_bytes(&r), 24).unwrap();
    assert_eq!(parsed.tv_sec, i64::MIN);
    assert_eq!(parsed.tv_usec, i64::MAX);
    assert_eq!(parsed.type_, u16::MAX);
    assert_eq!(parsed.code, 0);
    assert_eq!(parsed.val, i32::MIN);
}

#[test]
fn decode_in_both_byte_orders() {
    let mut bytes = vec![0u8; 24];
    bytes[0] = 0x01;
    bytes[7] = 0x02;
    bytes[16] = 0x01;
    bytes[17] = 0x02;
    bytes[20] = 0xff;
    bytes[21] = 0xff;
    bytes[22] = 0xff;
    bytes[23] = 0xfe;
    let little = decode_stylus_input(&bytes, true);
    assert_eq!(little.tv_sec, 0x0200_0000_0000_0001);
    assert_eq!(little.type_, 0x0201);
    assert_eq!(little.val, -0x0100_0001);
    let big = decode_stylus_input(&bytes, false);
    assert_eq!(big.tv_sec, 0x0100_0000_0000_0002);
    assert_eq!(big.type_, 0x0102);
    assert_eq!(big.val, -2);
}

#[test]
fn from_raw_buttons() {
    assert_eq!(
        data_of(raw(100, 0, 1, 320, 1)),
        Some(StylusData::Action(StylusAction::Btn1(true)))
    );
    assert_eq!(
        data_of(raw(100, 0, 1, 320, 0)),
        Some(StylusData::Action(StylusAction::Btn1(false)))
    );
    assert_eq!(
        data_of(raw(100, 0, 1, 331, 7)),
        Some(StylusData::Action(StylusAction::Btn2(true)))
    );
    assert_eq!(
        data_of(raw(100, 0, 1, 331, -1)),
        Some(StylusData::Action(StylusAction::Btn2(false)))
    );
}

#[test]
fn from_raw_tilt_and_coordinates() {
    assert_eq!(
        data_of(raw(100, 0, 1, 26, -40)),
        Some(StylusData::Action(StylusAction::Tilt(StylusCoord::X(-40))))
    );
    assert_eq!(
        data_of(raw(100, 0, 1, 27, 40)),
        Some(StylusData::Action(StylusAction::Tilt(StylusCoord::Y(40))))
    );
    assert_eq!(data_of(raw(100, 0, 3, 0, 1234)), Some(StylusData::Coord(StylusCoord::X(1234))));
    assert_eq!(data_of(raw(100, 0, 3, 1, 4321)), Some(StylusData::Coord(StylusCoord::Y(4321))));
}

#[test]
fn from_raw_other_kinds() {
    assert_eq!(data_of(raw(100, 0, 0, 0, 0)), Some(StylusData::Terminator));
    assert_eq!(data_of(raw(100, 0, 4, 24, 99)), Some(StylusData::Pression));
    assert_eq!(data_of(raw(100, 0, 1, 330, 1)), None);
    assert_eq!(data_of(raw(100, 0, 1, 0, 1)), None);
    assert_eq!(data_of(raw(100, 0, 3, 2, 1)), None);
    assert_eq!(data_of(raw(100, 0, 2, 0, 1)), None);
    assert_eq!(data_of(raw(100, 0, 5, 0, 1)), None);
}

#[test]
fn from_raw_stamps_the_time() {
    let input = StylusInput::from_raw(raw(1_700_000_000, 250_000, 4, 0, 0)).unwrap();
    assert_eq!(input.date.timestamp(), 1_700_000_000);
    assert_eq!(input.date.subsec_nanos(), 250_000_000);
}

#[test]
fn from_raw_cuts_nanos_to_32_bits() {
    // 5_000_000 microseconds are 5e9 nanoseconds, which wraps to 705_032_704.
    let input = StylusInput::from_raw(raw(100, 5_000_000, 0, 0, 0)).unwrap();
    assert_eq!(input.date.subsec_nanos(), 705_032_704);
}

#[test]
fn can_convert_checks_overflow_and_range() {
    assert!(StylusInput::can_convert(&raw(100, 999_999, 0, 0, 0)));
    assert!(!StylusInput::can_convert(&raw(100, i64::MAX, 0, 0, 0)));
    assert!(!StylusInput::can_convert(&raw(i64::MAX, 0, 0, 0, 0)));
    // 1_500_000 microseconds are a leap second: only on second 59.
    assert!(!StylusInput::can_convert(&raw(100, 1_500_000, 0, 0, 0)));
    assert!(StylusInput::can_convert(&raw(119, 1_500_000, 0, 0, 0)));
}

#[test]
fn holder_keeps_order_and_size() {
    let mut h: EventHolder<u32> = EventHolder::new(3);
    assert_eq!(h.len(), 0);
    h.push(1);
    h.push(2);
    h.push(3);
    assert_eq!(h.len(), 3);
    assert_eq!(*h.get_ref(0), 1);
    h.push(4);
    assert_eq!(h.len(), 3);
    assert_eq!(*h.get_ref(0), 2);
    assert_eq!(*h.get_ref(1), 3);
    assert_eq!(*h.last(), 4);
}

#[test]
fn holder_pop_undoes_push() {
    let mut h: EventHolder<u32> = EventHolder::new(5);
    h.push(10);
    h.push(20);
    h.push(30);
    assert_eq!(h.pop(), Some(30));
    assert_eq!(h.len(), 2);
    assert_eq!(*h.last(), 20);
    assert_eq!(h.pop(), Some(20));
    assert_eq!(h.pop(), Some(10));
    assert_eq!(h.pop(), None);
    assert_eq!(h.len(), 0);
}

#[test]
fn holder_last_mut_changes_newest() {
    let mut h: EventHolder<u32> = EventHolder::new(2);
    h.push(1);
    h.push(2);
    *h.last_mut() = 7;
    assert_eq!(*h.get_ref(0), 1);
    assert_eq!(*h.last(), 7);
}

#[test]
fn holder_of_one_keeps_newest() {
    let mut h: EventHolder<u32> = EventHolder::new(1);
    h.push(1);
    h.push(2);
    assert_eq!(h.len(), 1);
    assert_eq!(*h.last(), 2);
}
