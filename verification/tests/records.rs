use vgp_device::linux_impl::codes::{EV_KEY, FF_RUMBLE};
use vgp_device::linux_impl::text::{
    bad_feedback_message, push_decimal, push_signed_decimal, size_mismatch_message,
};
use vgp_device::linux_impl::types::{
    ABS_SETUP_SIZE, FF_ERASE_SIZE, FF_UPLOAD_SIZE, INPUT_EVENT_SIZE, SETUP_SIZE,
};
use vgp_device::linux_impl::wire::{
    bits_of_i32, get_i16, get_i32, get_i64, get_u16, get_u32, get_u64, put_bytes, put_i32,
    put_i64, put_range, put_u16, put_u32, put_u64, put_zeros,
};
use vgp_device::{
    AbsSetup, ForceFeedbackErase, ForceFeedbackUpload, InputEvent, SafeAbsSetup, SafeInputEvent,
    SafeSetup, Setup, VgpDeviceForceFeedback, VgpDeviceForceFeedbackReplay,
    VgpDeviceForceFeedbackType,
};

fn upload_image(request_id: u32, kind: u16, id: i16, strong: u16, weak: u16) -> Vec<u8> {
    let mut bytes = vec![0u8; FF_UPLOAD_SIZE];
    bytes[0..4].copy_from_slice(&request_id.to_le_bytes());
    bytes[4..8].copy_from_slice(&(-1i32).to_le_bytes());
    bytes[8..10].copy_from_slice(&kind.to_le_bytes());
    bytes[10..12].copy_from_slice(&id.to_le_bytes());
    bytes[12..14].copy_from_slice(&0x4000u16.to_le_bytes());
    bytes[18..20].copy_from_slice(&1000u16.to_le_bytes());
    bytes[20..22].copy_from_slice(&20u16.to_le_bytes());
    bytes[24..26].copy_from_slice(&strong.to_le_bytes());
    bytes[26..28].copy_from_slice(&weak.to_le_bytes());
    bytes
}

#[test]
fn little_endian_numbers_are_laid_down() {
    let mut buf = vec![0xffu8];
    put_u16(&mut buf, 0x1234);
    put_u32(&mut buf, 0x89ab_cdef);
    put_u64(&mut buf, 0x0102_0304_0506_0708);
    put_i32(&mut buf, -2);
    put_i64(&mut buf, -3);
    let mut expected = vec![0xffu8];
    expected.extend_from_slice(&0x1234u16.to_le_bytes());
    expected.extend_from_slice(&0x89ab_cdefu32.to_le_bytes());
    expected.extend_from_slice(&0x0102_0304_0506_0708u64.to_le_bytes());
    expected.extend_from_slice(&(-2i32).to_le_bytes());
    expected.extend_from_slice(&(-3i64).to_le_bytes());
    assert_eq!(buf, expected);
    assert_eq!(&buf[1..3], &[0x34, 0x12]);
    assert_eq!(&buf[3..7], &[0xef, 0xcd, 0xab, 0x89]);
}

#[test]
fn little_endian_numbers_are_read_back() {
    let mut buf = Vec::new();
    put_i64(&mut buf, i64::MIN);
    put_i32(&mut buf, i32::MIN);
    put_u16(&mut buf, 0xfffe);
    put_u64(&mut buf, u64::MAX);
    put_u32(&mut buf, 7);
    assert_eq!(get_i64(&buf, 0), i64::MIN);
    assert_eq!(get_i32(&buf, 8), i32::MIN);
    assert_eq!(get_u16(&buf, 12), 0xfffe);
    assert_eq!(get_i16(&buf, 12), -2);
    assert_eq!(get_u64(&buf, 14), u64::MAX);
    assert_eq!(get_u32(&buf, 22), 7);
    assert_eq!(bits_of_i32(-1), u32::MAX);
    assert_eq!(bits_of_i32(5), 5);
}

#[test]
fn bytes_are_appended() {
    let mut buf = vec![1u8];
    put_zeros(&mut buf, 3);
    put_bytes(&mut buf, &[7, 8]);
    put_range(&mut buf, &[10, 11, 12, 13], 1, 3);
    put_range(&mut buf, &[10, 11, 12, 13], 2, 2);
    assert_eq!(buf, vec![1, 0, 0, 0, 7, 8, 11, 12]);
}

#[test]
fn event_record_has_its_layout() {
    assert_eq!(InputEvent::size(), 24);
    assert_eq!(INPUT_EVENT_SIZE, 24);
    let safe = SafeInputEvent { code: 0x0133, type_: EV_KEY, value: -2, time: (1, 2) };
    let event = InputEvent::from(safe);
    assert_eq!(
        event.c_ptr(),
        &[
            1, 0, 0, 0, 0, 0, 0, 0, 2, 0, 0, 0, 0, 0, 0, 0, 0x01, 0x00, 0x33, 0x01, 0xfe, 0xff,
            0xff, 0xff
        ]
    );
    assert_eq!(SafeInputEvent::from(event), safe);
}

#[test]
fn event_record_round_trips() {
    let cases = [
        SafeInputEvent { code: 0, type_: 0, value: 0, time: (0, 0) },
        SafeInputEvent { code: u16::MAX, type_: u16::MAX, value: i32::MAX, time: (i64::MAX, 999_999) },
        SafeInputEvent { code: 1, type_: 2, value: i32::MIN, time: (i64::MIN, -1) },
    ];
    for safe in cases {
        assert_eq!(SafeInputEvent::from(InputEvent::from(safe)), safe);
    }
}

#[test]
fn empty_event_record_is_zero() {
    assert_eq!(InputEvent::new().c_ptr(), &[0u8; 24]);
    assert_eq!(
        SafeInputEvent::from(InputEvent::new()),
        SafeInputEvent { code: 0, type_: 0, value: 0, time: (0, 0) }
    );
}

#[test]
fn event_record_from_bytes_wants_the_size() {
    assert!(InputEvent::from_bytes(&[0u8; 23]).is_none());
    assert!(InputEvent::from_bytes(&[0u8; 25]).is_none());
    assert!(InputEvent::from_bytes(&[]).is_none());
    let mut bytes = [0u8; 24];
    bytes[16] = 0x15;
    bytes[18] = 3;
    bytes[20] = 1;
    let event = InputEvent::from_bytes(&bytes).unwrap();
    assert_eq!(event.c_ptr(), &bytes);
    assert_eq!(
        SafeInputEvent::from(event),
        SafeInputEvent { code: 3, type_: 0x15, value: 1, time: (0, 0) }
    );
}

#[test]
fn identity_descriptor_has_its_layout() {
    assert_eq!(SETUP_SIZE, 92);
    let safe = SafeSetup {
        bustype: 0x03,
        vendor: 0x1234,
        product: 0x5678,
        version: 0x0102,
        ff_effects_max: 96,
        name: "pad",
    };
    let setup = Setup::from(safe);
    let mut expected = vec![0x03, 0x00, 0x34, 0x12, 0x78, 0x56, 0x02, 0x01, b'p', b'a', b'd'];
    expected.resize(88, 0);
    expected.extend_from_slice(&[96, 0, 0, 0]);
    assert_eq!(setup.const_ptr(), expected.as_slice());
    assert_eq!(setup.const_ptr().len(), 92);
    assert_eq!(Setup::new().const_ptr(), &[0u8; 92]);
}

#[test]
fn identity_descriptor_takes_the_longest_name() {
    let name: &'static str = "0123456789012345678901234567890123456789012345678901234567890123456789012345678";
    assert_eq!(name.len(), 79);
    let safe =
        SafeSetup { bustype: 0, vendor: 0, product: 0, version: 0, ff_effects_max: 0, name };
    let setup = Setup::from(safe);
    assert_eq!(&setup.const_ptr()[8..87], name.as_bytes());
    assert_eq!(setup.const_ptr()[87], 0);
    assert_eq!(setup.const_ptr().len(), 92);
}

#[test]
fn axis_descriptor_has_its_layout() {
    assert_eq!(ABS_SETUP_SIZE, 28);
    let safe = SafeAbsSetup {
        code: 0x0003,
        value: 1,
        minimum: -512,
        maximum: 512,
        fuzz: 2,
        flat: 3,
        resolution: 4,
    };
    let setup = AbsSetup::from(safe);
    assert_eq!(
        setup.const_ptr(),
        &[
            3, 0, 0, 0, 1, 0, 0, 0, 0x00, 0xfe, 0xff, 0xff, 0x00, 0x02, 0, 0, 2, 0, 0, 0, 3, 0, 0,
            0, 4, 0, 0, 0
        ]
    );
    assert_eq!(AbsSetup::new().const_ptr(), &[0u8; 28]);
}

#[test]
fn upload_request_names_its_request() {
    assert_eq!(FF_UPLOAD_SIZE, 104);
    let upload = ForceFeedbackUpload::new(0x0a0b_0c0d);
    let mut expected = vec![0x0d, 0x0c, 0x0b, 0x0a];
    expected.resize(104, 0);
    assert_eq!(upload.mut_ptr(), expected.as_slice());
}

#[test]
fn upload_request_describes_a_rumble() {
    let mut upload = ForceFeedbackUpload::new(9);
    assert!(upload.refill(&upload_image(9, FF_RUMBLE, 3, 200, 50)));
    assert_eq!(
        upload.to_vgp_device_force_feedback(),
        VgpDeviceForceFeedback {
            id: 3,
            direction: 0x4000,
            replay: VgpDeviceForceFeedbackReplay { length: 1000, delay: 20 },
            type_: VgpDeviceForceFeedbackType::Rumble { strong_magnitude: 200, weak_magnitude: 50 },
        }
    );
}

#[test]
fn upload_request_of_another_type_is_unsupported() {
    let mut upload = ForceFeedbackUpload::new(9);
    assert!(upload.refill(&upload_image(9, 0x51, -4, 200, 50)));
    assert_eq!(
        upload.to_vgp_device_force_feedback(),
        VgpDeviceForceFeedback {
            id: -4,
            direction: 0x4000,
            replay: VgpDeviceForceFeedbackReplay { length: 1000, delay: 20 },
            type_: VgpDeviceForceFeedbackType::Unsupported,
        }
    );
}

#[test]
fn upload_request_refuses_another_size() {
    let mut upload = ForceFeedbackUpload::new(9);
    let before = upload.mut_ptr().to_vec();
    assert!(!upload.refill(&[1u8; 103]));
    assert!(!upload.refill(&[1u8; 105]));
    assert_eq!(upload.mut_ptr(), before.as_slice());
}

#[test]
fn upload_request_takes_its_answer() {
    let mut upload = ForceFeedbackUpload::new(9);
    let image = upload_image(9, FF_RUMBLE, 3, 200, 50);
    assert!(upload.refill(&image));
    upload.set_retval(0);
    let mut expected = image.clone();
    expected[4..8].copy_from_slice(&[0, 0, 0, 0]);
    assert_eq!(upload.mut_ptr(), expected.as_slice());
    upload.set_retval(-22);
    expected[4..8].copy_from_slice(&(-22i32).to_le_bytes());
    assert_eq!(upload.mut_ptr(), expected.as_slice());
}

#[test]
fn erase_request_has_its_layout() {
    assert_eq!(FF_ERASE_SIZE, 12);
    let mut erase = ForceFeedbackErase::new(0x0102_0304);
    assert_eq!(erase.mut_ptr(), &[4, 3, 2, 1, 0, 0, 0, 0, 0, 0, 0, 0]);
    assert_eq!(erase.get_effect_id(), 0);
    assert!(erase.refill(&[4, 3, 2, 1, 0xff, 0xff, 0xff, 0xff, 7, 0, 0, 0]));
    assert_eq!(erase.get_effect_id(), 7);
    erase.set_retval(0);
    assert_eq!(erase.mut_ptr(), &[4, 3, 2, 1, 0, 0, 0, 0, 7, 0, 0, 0]);
    assert!(!erase.refill(&[0u8; 11]));
    assert_eq!(erase.mut_ptr(), &[4, 3, 2, 1, 0, 0, 0, 0, 7, 0, 0, 0]);
}

#[test]
fn numerals_are_decimal() {
    let mut text = String::from("n=");
    push_decimal(&mut text, 0);
    text.push(' ');
    push_decimal(&mut text, 9);
    text.push(' ');
    push_decimal(&mut text, 10);
    text.push(' ');
    push_decimal(&mut text, 1_234_567_890);
    text.push(' ');
    push_decimal(&mut text, u64::MAX);
    assert_eq!(text, "n=0 9 10 1234567890 18446744073709551615");
}

#[test]
fn signed_numerals_carry_their_sign() {
    let mut text = String::new();
    push_signed_decimal(&mut text, -1);
    text.push(' ');
    push_signed_decimal(&mut text, 0);
    text.push(' ');
    push_signed_decimal(&mut text, 42);
    text.push(' ');
    push_signed_decimal(&mut text, i64::MIN);
    text.push(' ');
    push_signed_decimal(&mut text, i64::MAX);
    assert_eq!(text, "-1 0 42 -9223372036854775808 9223372036854775807");
}

#[test]
fn size_mismatch_names_both_sizes() {
    assert_eq!(size_mismatch_message(24, 10), "Expected to read 24 bytes but read 10 bytes.");
    assert_eq!(size_mismatch_message(24, 0), "Expected to read 24 bytes but read 0 bytes.");
}

#[test]
fn bad_feedback_names_the_record() {
    let event = SafeInputEvent { code: 3, type_: 0x15, value: -7, time: (100, 25) };
    assert_eq!(
        bad_feedback_message(&event),
        "Unexpected force feedback event: type 21, code 3, value -7, seconds 100, microseconds 25"
    );
    let early = SafeInputEvent { code: 0, type_: 0x15, value: 2, time: (1, 5) };
    assert_eq!(
        bad_feedback_message(&early),
        "Unexpected force feedback event: type 21, code 0, value 2, seconds 1, microseconds 5"
    );
}
