use vgp_device::linux_impl::async_impl::{Forward, Wake, POLL_WAIT_MS};
use vgp_device::linux_impl::codes::{
    ABS_RX, ABS_RY, ABS_X, ABS_Y, EV_ABS, EV_FF, EV_KEY, EV_SYN, EV_UINPUT, FF_MAX_EFFECTS,
    FF_RUMBLE, UI_FF_ERASE, UI_FF_UPLOAD,
};
use vgp_device::linux_impl::registry::Registry;
use vgp_device::linux_impl::shared_impl::{
    axes, buttons, code_of_button, create_uinput_device, device_identity, UInputFDReader,
};
use vgp_device::linux_impl::types::FF_UPLOAD_SIZE;
use nix::errno::Errno;
use vgp_device::{
    map_errno, map_with_vgp_error, Bus, Device, Error, ForceFeedbackErase, ForceFeedbackUpload, InputEvent,
    Output, Request, SafeInputEvent, SetupStep, Setup, VgpDeviceForceFeedback,
    VgpDeviceForceFeedbackReplay, VgpDeviceForceFeedbackType,
};

fn record(type_: u16, code: u16, value: i32) -> Vec<u8> {
    let safe = SafeInputEvent { code, type_, value, time: (1_700_000_000, 1) };
    InputEvent::from(safe).c_ptr().to_vec()
}

fn device() -> Device {
    Bus::new(Ok(())).unwrap().plug_in(Ok(())).unwrap()
}

fn filled_upload(request_id: u32, kind: u16, id: i16, strong: u16, weak: u16) -> ForceFeedbackUpload {
    let mut bytes = vec![0u8; FF_UPLOAD_SIZE];
    bytes[0..4].copy_from_slice(&request_id.to_le_bytes());
    bytes[4..8].copy_from_slice(&(-1i32).to_le_bytes());
    bytes[8..10].copy_from_slice(&kind.to_le_bytes());
    bytes[10..12].copy_from_slice(&id.to_le_bytes());
    bytes[24..26].copy_from_slice(&strong.to_le_bytes());
    bytes[26..28].copy_from_slice(&weak.to_le_bytes());
    let mut upload = ForceFeedbackUpload::new(request_id);
    assert!(upload.refill(&bytes));
    upload
}

fn filled_erase(request_id: u32, effect_id: u32) -> ForceFeedbackErase {
    let mut bytes = Vec::new();
    bytes.extend_from_slice(&request_id.to_le_bytes());
    bytes.extend_from_slice(&(-1i32).to_le_bytes());
    bytes.extend_from_slice(&effect_id.to_le_bytes());
    let mut erase = ForceFeedbackErase::new(request_id);
    assert!(erase.refill(&bytes));
    erase
}

fn rumble(id: i16, strong: u16, weak: u16) -> VgpDeviceForceFeedback {
    VgpDeviceForceFeedback {
        id,
        direction: 0,
        replay: VgpDeviceForceFeedbackReplay { length: 0, delay: 0 },
        type_: VgpDeviceForceFeedbackType::Rumble { strong_magnitude: strong, weak_magnitude: weak },
    }
}

#[test]
fn upload_play_erase_play() {
    let mut device = device();
    assert_eq!(
        device.get_output(Ok(record(EV_UINPUT, UI_FF_UPLOAD, 41))),
        Ok(Request::Upload { request_id: 41 })
    );
    let mut upload = filled_upload(41, FF_RUMBLE, 3, 200, 50);
    assert_eq!(device.upload(&mut upload), Output::Nothing);
    assert_eq!(&upload.mut_ptr()[0..8], &[41, 0, 0, 0, 0, 0, 0, 0]);
    assert_eq!(
        device.get_output(Ok(record(EV_FF, 3, 1))),
        Ok(Request::Done(Output::Rumble { large_motor: 200, small_motor: 50 }))
    );
    assert_eq!(
        device.get_output(Ok(record(EV_UINPUT, UI_FF_ERASE, 42))),
        Ok(Request::Erase { request_id: 42 })
    );
    let mut erase = filled_erase(42, 3);
    assert_eq!(device.erase(&mut erase), Output::Nothing);
    assert_eq!(erase.mut_ptr(), &[42, 0, 0, 0, 0, 0, 0, 0, 3, 0, 0, 0]);
    assert_eq!(device.get_output(Ok(record(EV_FF, 3, 1))), Ok(Request::Done(Output::Nothing)));
}

#[test]
fn upload_overwrites_the_effect() {
    let mut device = device();
    device.upload(&mut filled_upload(1, FF_RUMBLE, 5, 10, 20));
    device.upload(&mut filled_upload(2, FF_RUMBLE, 5, 30, 40));
    assert_eq!(
        device.get_output(Ok(record(EV_FF, 5, 1))),
        Ok(Request::Done(Output::Rumble { large_motor: 30, small_motor: 40 }))
    );
    device.upload(&mut filled_upload(3, 0x52, 5, 30, 40));
    assert_eq!(device.get_output(Ok(record(EV_FF, 5, 1))), Ok(Request::Done(Output::Nothing)));
}

#[test]
fn effects_do_not_disturb_each_other() {
    let mut device = device();
    device.upload(&mut filled_upload(1, FF_RUMBLE, 0, 1, 2));
    device.upload(&mut filled_upload(2, FF_RUMBLE, 1, 3, 4));
    device.erase(&mut filled_erase(3, 0));
    device.erase(&mut filled_erase(4, 77));
    assert_eq!(device.get_output(Ok(record(EV_FF, 0, 1))), Ok(Request::Done(Output::Nothing)));
    assert_eq!(
        device.get_output(Ok(record(EV_FF, 1, 1))),
        Ok(Request::Done(Output::Rumble { large_motor: 3, small_motor: 4 }))
    );
}

#[test]
fn play_of_an_unknown_effect_gives_nothing() {
    let mut device = device();
    assert_eq!(device.get_output(Ok(record(EV_FF, 3, 1))), Ok(Request::Done(Output::Nothing)));
}

#[test]
fn stop_gives_zero_magnitudes() {
    let mut device = device();
    device.upload(&mut filled_upload(1, FF_RUMBLE, 3, 200, 50));
    assert_eq!(
        device.get_output(Ok(record(EV_FF, 3, 0))),
        Ok(Request::Done(Output::Rumble { large_motor: 0, small_motor: 0 }))
    );
}

#[test]
fn other_feedback_values_violate_the_protocol() {
    let mut device = device();
    assert_eq!(
        device.get_output(Ok(record(EV_FF, 3, 2))),
        Err(Error::Unknown(
            "Unexpected force feedback event: type 21, code 3, value 2, seconds 1700000000, \
             microseconds 1"
                .to_string()
        ))
    );
    assert!(matches!(device.get_output(Ok(record(EV_FF, 3, -1))), Err(Error::Unknown(_))));
}

#[test]
fn no_pending_data_is_no_error() {
    let mut device = device();
    for _ in 0..3 {
        assert_eq!(device.get_output(Err(11)), Ok(Request::Done(Output::Nothing)));
    }
    device.upload(&mut filled_upload(1, FF_RUMBLE, 3, 200, 50));
    assert_eq!(device.get_output(Err(11)), Ok(Request::Done(Output::Nothing)));
    device.get_output(Ok(vec![0u8; 3])).unwrap_err();
    assert_eq!(device.get_output(Err(11)), Ok(Request::Done(Output::Nothing)));
}

#[test]
fn short_read_names_both_sizes() {
    let mut device = device();
    let mut bytes = record(EV_FF, 3, 1);
    bytes.truncate(10);
    let step = device.get_output(Ok(bytes));
    assert_eq!(
        step,
        Err(Error::Unknown("Expected to read 24 bytes but read 10 bytes.".to_string()))
    );
    assert_ne!(step, Ok(Request::Done(Output::Nothing)));
    assert_eq!(
        device.get_output(Ok(Vec::new())),
        Err(Error::Unknown("Expected to read 24 bytes but read 0 bytes.".to_string()))
    );
    assert_eq!(
        device.get_output(Ok(vec![0u8; 48])),
        Err(Error::Unknown("Expected to read 24 bytes but read 48 bytes.".to_string()))
    );
}

#[test]
fn failed_reads_carry_their_error_number() {
    let mut device = device();
    assert_eq!(device.get_output(Err(13)), Err(Error::PermissionDenied));
    assert_eq!(device.get_output(Err(5)), Err(Error::Internal(5)));
    assert_eq!(device.get_output(Err(19)), Err(Error::Internal(19)));
}

#[test]
fn other_records_are_unsupported() {
    let mut device = device();
    assert_eq!(
        device.get_output(Ok(record(EV_UINPUT, 3, 0))),
        Ok(Request::Done(Output::Unsupported))
    );
    assert_eq!(device.get_output(Ok(record(EV_KEY, 1, 1))), Ok(Request::Done(Output::Unsupported)));
    assert_eq!(device.get_output(Ok(record(EV_SYN, 0, 0))), Ok(Request::Done(Output::Unsupported)));
    assert_eq!(device.get_output(Ok(record(EV_ABS, 0, 5))), Ok(Request::Done(Output::Unsupported)));
}

#[test]
fn request_numbers_keep_their_bits() {
    let reader = UInputFDReader::new();
    let upload = SafeInputEvent { code: UI_FF_UPLOAD, type_: EV_UINPUT, value: -1, time: (0, 0) };
    assert_eq!(reader.decode(upload), Ok(Request::Upload { request_id: u32::MAX }));
    let erase = SafeInputEvent { code: UI_FF_ERASE, type_: EV_UINPUT, value: 7, time: (0, 0) };
    assert_eq!(reader.decode(erase), Ok(Request::Erase { request_id: 7 }));
}

#[test]
fn registry_keeps_one_effect_per_number() {
    let mut registry = Registry::new();
    assert_eq!(registry.get(3), None);
    registry.store(rumble(3, 200, 50));
    registry.store(rumble(3, 1, 2));
    assert_eq!(registry.get(3), Some(rumble(3, 1, 2)));
    assert_eq!(registry.play(3), Output::Rumble { large_motor: 1, small_motor: 2 });
    registry.erase(3);
    assert_eq!(registry.get(3), None);
    assert_eq!(registry.play(3), Output::Nothing);
    registry.erase(3);
    assert_eq!(registry.get(3), None);
}

#[test]
fn errors_are_classified() {
    assert_eq!(Error::from_errno(13), Error::PermissionDenied);
    assert_eq!(Error::from_errno(1), Error::Internal(1));
    assert_eq!(Error::from_errno(11), Error::Internal(11));
    assert_eq!(map_errno(Ok::<u8, i32>(7)), Ok(7));
    assert_eq!(map_errno(Err::<u8, i32>(13)), Err(Error::PermissionDenied));
    assert_eq!(map_errno(Err::<u8, i32>(2)), Err(Error::Internal(2)));
}

#[test]
fn system_errors_are_classified() {
    assert_eq!(map_with_vgp_error(Ok::<u8, Errno>(7)), Ok(7));
    assert_eq!(map_with_vgp_error(Err::<u8, Errno>(Errno::EACCES)), Err(Error::PermissionDenied));
    assert_eq!(map_with_vgp_error(Err::<u8, Errno>(Errno::ENOENT)), Err(Error::Internal(2)));
    assert_eq!(map_with_vgp_error(Err::<u8, Errno>(Errno::EAGAIN)), Err(Error::Internal(11)));
    assert_eq!(map_with_vgp_error(Err::<u8, Errno>(Errno::EPERM)), Err(Error::Internal(1)));
}

#[test]
fn bus_needs_the_device_node() {
    assert!(Bus::new(Ok(())).is_ok());
    assert!(matches!(Bus::new(Err(13)), Err(Error::PermissionDenied)));
    assert!(matches!(Bus::new(Err(2)), Err(Error::Internal(2))));
    assert!(matches!(Bus::new(Err(11)), Err(Error::Internal(11))));
    assert!(vgp_device::linux_impl::async_impl::Bus::new(Ok(())).is_ok());
    assert!(matches!(
        vgp_device::linux_impl::async_impl::Bus::new(Err(13)),
        Err(Error::PermissionDenied)
    ));
    assert!(matches!(
        vgp_device::linux_impl::async_impl::Bus::new(Err(19)),
        Err(Error::Internal(19))
    ));
}

#[test]
fn plug_in_needs_a_registered_device() {
    let mut bus = Bus::new(Ok(())).unwrap();
    assert!(matches!(bus.plug_in(Err(13)), Err(Error::PermissionDenied)));
    assert!(matches!(bus.plug_in(Err(16)), Err(Error::Internal(16))));
    assert!(bus.plug_in(Ok(())).is_ok());
}

#[test]
fn unplug_passes_the_teardown_on() {
    assert_eq!(device().unplug(Ok(())), Ok(()));
    assert_eq!(device().unplug(Err(9)), Err(Error::Internal(9)));
    assert_eq!(device().unplug(Err(13)), Err(Error::PermissionDenied));
}

#[test]
fn plan_registers_everything_in_order() {
    let plan = Bus::new(Ok(())).unwrap().plan();
    assert_eq!(plan.len(), 30);
    assert!(matches!(plan[0], SetupStep::EventBit(EV_KEY)));
    assert!(matches!(plan[1], SetupStep::EventBit(EV_FF)));
    assert!(matches!(plan[2], SetupStep::EventBit(EV_ABS)));
    for (i, button) in buttons().into_iter().enumerate() {
        match plan[3 + i] {
            SetupStep::KeyBit(code) => assert_eq!(code, code_of_button(button)),
            _ => panic!("step {} enables no key", 3 + i),
        }
    }
    assert!(matches!(plan[19], SetupStep::ForceFeedbackBit(FF_RUMBLE)));
    assert_eq!(axes(), vec![ABS_X, ABS_Y, ABS_RX, ABS_RY]);
    for (i, axis) in axes().into_iter().enumerate() {
        match plan[20 + i] {
            SetupStep::AbsBit(code) => assert_eq!(code, axis),
            _ => panic!("step {} enables no axis", 20 + i),
        }
        match plan[24 + i] {
            SetupStep::AbsSetup(setup) => {
                assert_eq!(setup.code, axis);
                assert_eq!((setup.minimum, setup.maximum), (-512, 512));
                assert_eq!((setup.value, setup.fuzz, setup.flat, setup.resolution), (0, 0, 0, 0));
            }
            _ => panic!("step {} describes no axis", 24 + i),
        }
    }
    match plan[28] {
        SetupStep::DeviceSetup(safe) => {
            assert_eq!(safe.bustype, 3);
            assert_eq!(safe.ff_effects_max, FF_MAX_EFFECTS);
            assert_eq!(safe.name, "Virtual Gamepad Device");
        }
        _ => panic!("step 28 announces no identity"),
    }
    assert!(matches!(plan[29], SetupStep::Create));
    assert_eq!(create_uinput_device().len(), 30);
}

#[test]
fn identity_fits_its_descriptor() {
    let safe = device_identity();
    assert!(safe.name.len() < 80);
    let setup = Setup::from(safe);
    assert_eq!(&setup.const_ptr()[0..8], &[3, 0, 0x34, 0x12, 0x78, 0x56, 1, 0]);
    assert_eq!(&setup.const_ptr()[8..30], b"Virtual Gamepad Device");
    assert_eq!(&setup.const_ptr()[88..92], &[0x60, 0, 0, 0]);
}

#[test]
fn worker_ends_when_the_consumer_is_gone() {
    let mut bus = vgp_device::linux_impl::async_impl::Bus::new(Ok(())).unwrap();
    let (_device, worker) = bus.plug_in(Ok(())).unwrap();
    assert_eq!(POLL_WAIT_MS, 250);
    assert_eq!(worker.on_wake(true, 0), Wake::Exit);
    assert_eq!(worker.on_wake(true, 1), Wake::Exit);
    assert_eq!(worker.on_wake(false, 0), Wake::Wait);
    assert_eq!(worker.on_wake(false, 1), Wake::Read);
}

#[test]
fn worker_hands_on_magnitudes_only() {
    let mut bus = vgp_device::linux_impl::async_impl::Bus::new(Ok(())).unwrap();
    let (_device, mut worker) = bus.plug_in(Ok(())).unwrap();
    assert_eq!(worker.forward(Output::Nothing), Forward::Skip);
    assert_eq!(worker.forward(Output::Unsupported), Forward::Skip);
    let out = Output::Rumble { large_motor: 0, small_motor: 0 };
    assert_eq!(worker.forward(out), Forward::Send(out));
    worker.upload(&mut filled_upload(1, FF_RUMBLE, 3, 200, 50));
    assert_eq!(
        worker.read(Ok(record(EV_FF, 3, 1))),
        Ok(Request::Done(Output::Rumble { large_motor: 200, small_motor: 50 }))
    );
    worker.erase(&mut filled_erase(2, 3));
    assert_eq!(worker.read(Ok(record(EV_FF, 3, 1))), Ok(Request::Done(Output::Nothing)));
    assert_eq!(worker.read(Err(11)), Ok(Request::Done(Output::Nothing)));
    assert_eq!(worker.on_sent(true), Ok(()));
    assert_eq!(
        worker.on_sent(false),
        Err(Error::Unknown("Output tx is already closed.".to_string()))
    );
}

#[test]
fn awaited_device_reports_its_worker() {
    let mut bus = vgp_device::linux_impl::async_impl::Bus::new(Ok(())).unwrap();
    assert!(matches!(bus.plug_in(Err(13)), Err(Error::PermissionDenied)));
    let (device, _worker) = bus.plug_in(Ok(())).unwrap();
    assert_eq!(device.unplug(Some(Ok(())), Ok(())), Ok(()));
    let (device, _worker) = bus.plug_in(Ok(())).unwrap();
    assert_eq!(device.unplug(Some(Err(Error::Internal(5))), Ok(())), Err(Error::Internal(5)));
    let (device, _worker) = bus.plug_in(Ok(())).unwrap();
    assert_eq!(device.unplug(Some(Err(Error::Internal(5))), Err(13)), Err(Error::Internal(5)));
    let (device, _worker) = bus.plug_in(Ok(())).unwrap();
    assert_eq!(device.unplug(Some(Ok(())), Err(13)), Err(Error::PermissionDenied));
    let (device, _worker) = bus.plug_in(Ok(())).unwrap();
    assert_eq!(device.unplug(Some(Ok(())), Err(19)), Err(Error::Internal(19)));
    let (device, _worker) = bus.plug_in(Ok(())).unwrap();
    assert_eq!(
        device.unplug(None, Ok(())),
        Err(Error::Unknown("Child thread panicked!".to_string()))
    );
    let (device, _worker) = bus.plug_in(Ok(())).unwrap();
    assert_eq!(
        device.unplug(None, Err(19)),
        Err(Error::Unknown("Child thread panicked!".to_string()))
    );
}
