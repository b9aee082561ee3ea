use vhost_user_input::{HostInputEvent, VirtioInputEvent};


#[test]
fn event_record_is_eight_little_endian_bytes() {
    let e = VirtioInputEvent::new(0x0001, 0x001e, 0x0403_0201);
    assert_eq!(e.to_le_bytes(), vec![0x01, 0x00, 0x1e, 0x00, 0x01, 0x02, 0x03, 0x04]);
}

#[test]
fn host_events_keep_their_fields() {
    let h = HostInputEvent { event_type: 3, code: 0, value: -1 };
    let e = VirtioInputEvent::from_host(h);
    assert_eq!(e, VirtioInputEvent { event_type: 3, code: 0, value: 0xffff_ffff });
    let big = HostInputEvent { event_type: 3, code: 1, value: 70000 };
    assert_eq!(VirtioInputEvent::from_host(big).value, 70000);
}

#[test]
fn evdev_records_decode() {
    let mut rec = vec![0xeeu8; 16];
    rec.extend_from_slice(&[0x03, 0x00, 0x35, 0x00, 0xfe, 0xff, 0xff, 0xff]);
    assert_eq!(
        HostInputEvent::from_evdev(&rec),
        Some(HostInputEvent { event_type: 3, code: 0x35, value: -2 })
    );
    rec[20] = 0x10;
    rec[21] = 0x27;
    rec[22] = 0;
    rec[23] = 0;
    assert_eq!(HostInputEvent::from_evdev(&rec).unwrap().value, 10000);
    assert_eq!(HostInputEvent::from_evdev(&rec[..23]), None);
    assert_eq!(HostInputEvent::from_evdev(&[]), None);
}
