use vhost_user_input::config::{
    CFG_ABS_INFO, CFG_EV_BITS, CFG_ID_DEVIDS, CFG_ID_NAME, CFG_ID_SERIAL, CFG_PROP_BITS,
};
use vhost_user_input::{
    AbsAxis, ConfigError, DeviceIdentity, EvBits, VirtioInputAbsInfo, VirtioInputConfig,
    VirtioInputDevIDs,
};

fn identity() -> DeviceIdentity {
    DeviceIdentity {
        name: b"vtest kbd".to_vec(),
        serial: b"SN-1".to_vec(),
        ids: VirtioInputDevIDs { bustype: 0x06, vendor: 0x1234, product: 0xabcd, version: 0x0102 },
        prop_bits: vec![0x01],
        ev_bits: vec![
            EvBits { event_type: 1, bits: vec![0xff, 0x0f, 0x00, 0x80] },
            EvBits { event_type: 3, bits: vec![0x03] },
            EvBits { event_type: 1, bits: vec![0xaa] },
        ],
        abs: vec![AbsAxis {
            code: 0,
            info: VirtioInputAbsInfo { min: 0, max: 0x7fff, fuzz: 1, flat: 2, res: 0x0102_0304 },
        }],
    }
}

fn select(c: &mut VirtioInputConfig, sel: u8, sub: u8) {
    assert_eq!(c.write(0, &[sel, sub]), Ok(()));
}

fn region(c: &VirtioInputConfig) -> Vec<u8> {
    c.read(0, 3 + c.size() as u32).unwrap()
}

#[test]
fn new_register_is_unset() {
    let c = VirtioInputConfig::new(identity());
    assert_eq!(c.read(0, 3), Ok(vec![0, 0, 0]));
    assert_eq!(c.read(0, 4), Err(ConfigError::OutOfRange));
}

#[test]
fn name_selection_lays_out_the_string() {
    let mut c = VirtioInputConfig::new(identity());
    select(&mut c, CFG_ID_NAME, 0);
    let mut want = vec![CFG_ID_NAME, 0, 9];
    want.extend_from_slice(b"vtest kbd");
    assert_eq!(region(&c), want);
    assert_eq!(c.read(3, 5), Ok(b"vtest".to_vec()));
    assert_eq!(c.read(11, 2), Err(ConfigError::OutOfRange));
}

#[test]
fn serial_selection() {
    let mut c = VirtioInputConfig::new(identity());
    select(&mut c, CFG_ID_SERIAL, 0);
    assert_eq!(region(&c), vec![CFG_ID_SERIAL, 0, 4, b'S', b'N', b'-', b'1']);
}

#[test]
fn devids_are_little_endian() {
    let mut c = VirtioInputConfig::new(identity());
    select(&mut c, CFG_ID_DEVIDS, 0);
    assert_eq!(
        region(&c),
        vec![CFG_ID_DEVIDS, 0, 8, 0x06, 0x00, 0x34, 0x12, 0xcd, 0xab, 0x02, 0x01]
    );
}

#[test]
fn abs_info_is_five_little_endian_words() {
    let mut c = VirtioInputConfig::new(identity());
    select(&mut c, CFG_ABS_INFO, 0);
    assert_eq!(
        region(&c),
        vec![
            CFG_ABS_INFO, 0, 20, 0, 0, 0, 0, 0xff, 0x7f, 0, 0, 1, 0, 0, 0, 2, 0, 0, 0, 0x04, 0x03,
            0x02, 0x01
        ]
    );
}

#[test]
fn ev_bits_use_the_first_entry_of_a_type() {
    let mut c = VirtioInputConfig::new(identity());
    select(&mut c, CFG_EV_BITS, 1);
    assert_eq!(region(&c), vec![CFG_EV_BITS, 1, 4, 0xff, 0x0f, 0x00, 0x80]);
    select(&mut c, CFG_EV_BITS, 3);
    assert_eq!(region(&c), vec![CFG_EV_BITS, 3, 1, 0x03]);
}

#[test]
fn prop_bits_selection() {
    let mut c = VirtioInputConfig::new(identity());
    select(&mut c, CFG_PROP_BITS, 0);
    assert_eq!(region(&c), vec![CFG_PROP_BITS, 0, 1, 0x01]);
}

#[test]
fn unknown_selections_read_as_unsupported() {
    let cases: [(u8, u8); 6] = [
        (0x7f, 0),
        (CFG_ID_NAME, 1),
        (CFG_EV_BITS, 2),
        (CFG_ABS_INFO, 5),
        (CFG_PROP_BITS, 9),
        (0, 0),
    ];
    for (sel, sub) in cases {
        let mut c = VirtioInputConfig::new(identity());
        select(&mut c, CFG_ID_NAME, 0);
        select(&mut c, sel, sub);
        assert_eq!(c.size(), 0);
        assert_eq!(c.payload(), &vec![0u8; 128]);
        assert_eq!(c.read(0, 3), Ok(vec![sel, sub, 0]));
        assert_eq!(c.read(3, 1), Err(ConfigError::OutOfRange));
    }
}

#[test]
fn long_strings_are_cut_to_the_payload_area() {
    let mut id = identity();
    id.name = vec![b'x'; 200];
    let mut c = VirtioInputConfig::new(id);
    select(&mut c, CFG_ID_NAME, 0);
    assert_eq!(c.size(), 128);
    assert_eq!(c.read(3, 128), Ok(vec![b'x'; 128]));
    assert_eq!(c.read(3, 129), Err(ConfigError::OutOfRange));
}

#[test]
fn repeated_reads_agree() {
    let mut c = VirtioInputConfig::new(identity());
    select(&mut c, CFG_ABS_INFO, 0);
    let first = region(&c);
    for _ in 0..3 {
        assert_eq!(region(&c), first);
    }
    for sel in [CFG_ID_NAME, CFG_ID_SERIAL, CFG_ID_DEVIDS, CFG_PROP_BITS, CFG_EV_BITS] {
        select(&mut c, sel, if sel == CFG_EV_BITS { 1 } else { 0 });
        assert!(c.size() <= 128);
    }
}

#[test]
fn reselecting_a_pair_gives_the_same_bytes() {
    let mut c = VirtioInputConfig::new(identity());
    select(&mut c, CFG_EV_BITS, 1);
    let once = region(&c);
    select(&mut c, CFG_EV_BITS, 1);
    select(&mut c, CFG_EV_BITS, 1);
    assert_eq!(region(&c), once);
    let mut other = VirtioInputConfig::new(identity());
    select(&mut other, CFG_ABS_INFO, 0);
    select(&mut other, CFG_EV_BITS, 1);
    assert_eq!(region(&other), once);
}

#[test]
fn write_past_the_region_changes_nothing() {
    let mut c = VirtioInputConfig::new(identity());
    assert_eq!(c.write(2, &[CFG_ID_NAME, 0]), Err(ConfigError::OutOfRange));
    assert_eq!(c.write(0, &[CFG_ID_NAME, 0, 0, 0]), Err(ConfigError::OutOfRange));
    assert_eq!(c.read(0, 3), Ok(vec![0, 0, 0]));
}

#[test]
fn single_byte_writes_move_one_field() {
    let mut c = VirtioInputConfig::new(identity());
    assert_eq!(c.write(0, &[CFG_EV_BITS]), Ok(()));
    assert_eq!(c.read(0, 3), Ok(vec![CFG_EV_BITS, 0, 0]));
    assert_eq!(c.write(1, &[3]), Ok(()));
    assert_eq!(region(&c), vec![CFG_EV_BITS, 3, 1, 0x03]);
}
