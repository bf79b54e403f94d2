use swan_ag::uinput::uinput_sys::{input_event, input_id, timeval, INPUT_EVENT_SIZE, USER_DEV_SIZE};
use swan_ag::uinput::{Directive, EventType, Key, Stage, UInput};

fn created() -> UInput {
    let mut dev = UInput::new();
    dev.setup();
    dev
}

fn zero_time() -> timeval {
    timeval { tv_sec: 0, tv_usec: 0 }
}

#[test]
fn event_type_codes() {
    assert_eq!(EventType::EV_SYN.code(), 0);
    assert_eq!(EventType::EV_KEY.code(), 1);
    assert_eq!(EventType::EV_REL.code(), 2);
    assert_eq!(EventType::EV_ABS.code(), 3);
}

#[test]
fn key_from_source_code_keeps_the_whole_code() {
    assert_eq!(Key::from_code(1), Some(Key::esc()));
    assert_eq!(Key::from_code(60), Some(Key::f2()));
    assert_eq!(Key::from_code(257), Some(Key { code: 257 }));
    assert_eq!(Key::from_code(300), Some(Key { code: 300 }));
    assert_eq!(Key::from_code(0xffff), Some(Key { code: 0xffff }));
    assert_ne!(Key::from_code(257), Some(Key::esc()));
    assert_ne!(Key::from_code(256 + 60), Some(Key::f2()));
}

#[test]
fn key_codes_beyond_a_record_have_no_key() {
    assert_eq!(Key::from_code(0x1_0000), None);
    assert_eq!(Key::from_code(0x1_0001), None);
    assert_eq!(Key::from_code(0xffff_ff3c), None);
    assert_eq!(Key::from_code(u32::MAX), None);
}

#[test]
fn key_conversions_keep_the_code() {
    assert_eq!(Key::from(30u8).code, 30);
    assert_eq!(Key::from(255u8).code, 255);
    assert_eq!(Key::from(300u16).code, 300);
    assert_eq!(u16::from(Key::f2()), 60);
    assert_eq!(u16::from(Key { code: 0x2ff }), 0x2ff);
}

#[test]
fn wide_key_codes_are_written_whole() {
    let mut dev = created();
    let down = dev.key_press(Key::from(300u16));
    assert_eq!(down, input_event { time: zero_time(), kind: 1, code: 300, value: 1 });
    let up = dev.key_release(Key { code: 0xffff });
    assert_eq!(up, input_event { time: zero_time(), kind: 1, code: 0xffff, value: 0 });
    assert_eq!(&down.to_bytes()[16..], &[1, 0, 0x2c, 0x01, 1, 0, 0, 0]);
}

#[test]
fn key_press_and_release_records() {
    let mut dev = created();
    let down = dev.key_press(Key::from(30u8));
    assert_eq!(down, input_event { time: zero_time(), kind: 1, code: 30, value: 1 });
    let up = dev.key_release(Key::from(30u8));
    assert_eq!(up, input_event { time: zero_time(), kind: 1, code: 30, value: 0 });
    let (a, b) = dev.key_click(Key::esc());
    assert_eq!(a, input_event { time: zero_time(), kind: 1, code: 1, value: 1 });
    assert_eq!(b, input_event { time: zero_time(), kind: 1, code: 1, value: 0 });
}

#[test]
fn button_records() {
    let mut dev = created();
    assert_eq!(
        dev.btn_left_press(),
        input_event { time: zero_time(), kind: 1, code: 0x110, value: 1 }
    );
    assert_eq!(
        dev.btn_left_release(),
        input_event { time: zero_time(), kind: 1, code: 0x110, value: 0 }
    );
    assert_eq!(
        dev.btn_right_press(),
        input_event { time: zero_time(), kind: 1, code: 0x111, value: 1 }
    );
    assert_eq!(
        dev.btn_right_release(),
        input_event { time: zero_time(), kind: 1, code: 0x111, value: 0 }
    );
}

#[test]
fn motion_and_sync_records() {
    let mut dev = created();
    assert_eq!(dev.rel_x(-7), input_event { time: zero_time(), kind: 2, code: 0, value: -7 });
    assert_eq!(dev.rel_y(9), input_event { time: zero_time(), kind: 2, code: 1, value: 9 });
    assert_eq!(dev.abs_x(100), input_event { time: zero_time(), kind: 3, code: 0, value: 100 });
    assert_eq!(dev.abs_y(200), input_event { time: zero_time(), kind: 3, code: 1, value: 200 });
    assert_eq!(dev.sync(), input_event { time: zero_time(), kind: 0, code: 0, value: 0 });
}

#[test]
fn record_bytes_are_little_endian() {
    let rec = input_event { time: zero_time(), kind: 2, code: 1, value: -1 };
    let bytes = rec.to_bytes();
    assert_eq!(bytes.len(), INPUT_EVENT_SIZE);
    let mut expected = vec![0u8; 16];
    expected.extend_from_slice(&[2, 0, 1, 0, 0xff, 0xff, 0xff, 0xff]);
    assert_eq!(bytes, expected);
}

#[test]
fn record_bytes_of_a_button_press() {
    let rec = input_event { time: zero_time(), kind: 1, code: 0x110, value: 1 };
    let mut expected = vec![0u8; 16];
    expected.extend_from_slice(&[1, 0, 0x10, 0x01, 1, 0, 0, 0]);
    assert_eq!(rec.to_bytes(), expected);
}

#[test]
fn record_bytes_carry_a_given_time() {
    let rec = input_event {
        time: timeval { tv_sec: 0x0102_0304_0506_0708, tv_usec: -2 },
        kind: 0x1234,
        code: 0xabcd,
        value: i32::MIN,
    };
    let expected: Vec<u8> = vec![
        8, 7, 6, 5, 4, 3, 2, 1, 0xfe, 0xff, 0xff, 0xff, 0xff, 0xff, 0xff, 0xff, 0x34, 0x12, 0xcd,
        0xab, 0, 0, 0, 0x80,
    ];
    assert_eq!(rec.to_bytes(), expected);
}

#[test]
fn record_bytes_match_the_machine_words() {
    let rec = input_event { time: zero_time(), kind: 1, code: 149, value: 123_456_789 };
    let mut expected = Vec::new();
    expected.extend_from_slice(&0i64.to_le_bytes());
    expected.extend_from_slice(&0i64.to_le_bytes());
    expected.extend_from_slice(&1u16.to_le_bytes());
    expected.extend_from_slice(&149u16.to_le_bytes());
    expected.extend_from_slice(&123_456_789i32.to_le_bytes());
    assert_eq!(rec.to_bytes(), expected);
}

#[test]
fn descriptor_bytes_layout() {
    let dev = UInput::new();
    let bytes = dev.descriptor_bytes();
    assert_eq!(bytes.len(), USER_DEV_SIZE);
    assert_eq!(bytes.len(), 1116);
    assert_eq!(bytes[0], 97);
    assert!(bytes[1..80].iter().all(|b| *b == 0));
    assert_eq!(&bytes[80..88], &[3, 0, 1, 0, 1, 0, 1, 0]);
    assert!(bytes[88..].iter().all(|b| *b == 0));
}

#[test]
fn identity_fields_are_plain() {
    let id = input_id { bustype: 3, vendor: 1, product: 1, version: 1 };
    assert_eq!(id, input_id { bustype: 3, vendor: 1, product: 1, version: 1 });
}

#[test]
fn setup_declares_classes_buttons_keys_and_axes() {
    let mut dev = UInput::new();
    assert_eq!(dev.current_stage(), Stage::Uninitialized);
    let plan = dev.setup();
    assert_eq!(dev.current_stage(), Stage::Created);
    assert_eq!(plan.len(), 157);
    assert_eq!(plan[0], Directive::SetEvBit(EventType::EV_KEY));
    assert_eq!(plan[1], Directive::SetKeyBit(0x110));
    assert_eq!(plan[2], Directive::SetKeyBit(0x111));
    for code in 1u16..=149 {
        assert_eq!(plan[2 + code as usize], Directive::SetKeyBit(code));
    }
    assert_eq!(plan[152], Directive::SetEvBit(EventType::EV_REL));
    assert_eq!(plan[153], Directive::SetRelBit(0));
    assert_eq!(plan[154], Directive::SetRelBit(1));
    assert_eq!(plan[155], Directive::WriteDescriptor);
    assert_eq!(plan[156], Directive::Create);
}

#[test]
fn setup_happens_once() {
    let mut dev = UInput::new();
    assert_eq!(dev.setup().len(), 157);
    assert!(dev.setup().is_empty());
    assert_eq!(dev.current_stage(), Stage::Created);
}

#[test]
fn teardown_destroys_exactly_once() {
    let mut dev = UInput::new();
    assert!(dev.teardown().is_empty());
    assert_eq!(dev.current_stage(), Stage::Uninitialized);
    dev.setup();
    assert_eq!(dev.teardown(), vec![Directive::Destroy]);
    assert_eq!(dev.current_stage(), Stage::Destroyed);
    assert!(dev.teardown().is_empty());
    assert!(dev.setup().is_empty());
    assert_eq!(dev.current_stage(), Stage::Destroyed);
}
