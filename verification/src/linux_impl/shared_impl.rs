//! What both flavours of the device share: the capability plan, the frames
//! that carry an input, and the reading of what the device sends back.

use vstd::prelude::*;
use vstd::string::{is_ascii, StringSliceAdditionalSpecFns};
use crate::api::{error_of_errno, Button, Error, ErrorView, Input, Output, ThumbStick, EAGAIN};
use crate::linux_impl::codes::{
    ABS_RX, ABS_RY, ABS_X, ABS_Y, BTN_A, BTN_B, BTN_DPAD_DOWN, BTN_DPAD_LEFT, BTN_DPAD_RIGHT,
    BTN_DPAD_UP, BTN_SELECT, BTN_START, BTN_THUMBL, BTN_THUMBR, BTN_TL, BTN_TL2, BTN_TR, BTN_TR2,
    BTN_X, BTN_Y, BUS_USB, EV_ABS, EV_FF, EV_KEY, EV_SYN, EV_UINPUT, FF_MAX_EFFECTS, FF_RUMBLE,
    SYN_REPORT, UI_FF_ERASE, UI_FF_UPLOAD,
};
use crate::linux_impl::clock::{is_clock_time, wall_clock};
use crate::linux_impl::registry::{play_output, Registry};
use crate::linux_impl::text::{
    bad_feedback_message, bad_feedback_text, clock_message, clock_text, size_mismatch_message,
    size_mismatch_text,
};
use crate::linux_impl::wire::{bits_of_i32, i32_bits};
use crate::linux_impl::types::{
    event_bytes, event_of, upload_effect, with_retval, ForceFeedbackErase, ForceFeedbackUpload,
    InputEvent, SafeAbsSetup, SafeInputEvent, SafeSetup, VgpDeviceForceFeedback,
    VgpDeviceForceFeedbackType, INPUT_EVENT_SIZE,
    NAME_SIZE,
};

verus! {

/// Largest value an axis reports.
pub const AXIS_MAX: i32 = 512;

/// Smallest value an axis reports.
pub const AXIS_MIN: i32 = -512;

/// Vendor number announced for the device.
pub const VENDOR_ID: u16 = 0x1234;

/// Product number announced for the device.
pub const PRODUCT_ID: u16 = 0x5678;

/// Version number announced for the device.
pub const DEVICE_VERSION: u16 = 1;

/// The key code that stands for a button.
pub open spec fn button_code(button: Button) -> u16 {
    match button {
        Button::DpadDown => BTN_DPAD_DOWN,
        Button::DpadUp => BTN_DPAD_UP,
        Button::DpadLeft => BTN_DPAD_LEFT,
        Button::DpadRight => BTN_DPAD_RIGHT,
        Button::North => BTN_X,
        Button::South => BTN_A,
        Button::West => BTN_Y,
        Button::East => BTN_B,
        Button::Start => BTN_START,
        Button::Select => BTN_SELECT,
        Button::TriggerLeft => BTN_TL,
        Button::TriggerRight => BTN_TR,
        Button::TriggerLeft2 => BTN_TL2,
        Button::TriggerRight2 => BTN_TR2,
        Button::ThumbStickLeft => BTN_THUMBL,
        Button::ThumbStickRight => BTN_THUMBR,
    }
}

/// The axis codes of a stick: first the horizontal, then the vertical.
pub open spec fn stick_codes(stick: ThumbStick) -> (u16, u16) {
    match stick {
        ThumbStick::Left => (ABS_X, ABS_Y),
        ThumbStick::Right => (ABS_RX, ABS_RY),
    }
}

/// Gives the key code that stands for a button.
pub fn code_of_button(button: Button) -> (code: u16)
    ensures
        code == button_code(button),
{
    match button {
        Button::DpadDown => BTN_DPAD_DOWN,
        Button::DpadUp => BTN_DPAD_UP,
        Button::DpadLeft => BTN_DPAD_LEFT,
        Button::DpadRight => BTN_DPAD_RIGHT,
        Button::North => BTN_X,
        Button::South => BTN_A,
        Button::West => BTN_Y,
        Button::East => BTN_B,
        Button::Start => BTN_START,
        Button::Select => BTN_SELECT,
        Button::TriggerLeft => BTN_TL,
        Button::TriggerRight => BTN_TR,
        Button::TriggerLeft2 => BTN_TL2,
        Button::TriggerRight2 => BTN_TR2,
        Button::ThumbStickLeft => BTN_THUMBL,
        Button::ThumbStickRight => BTN_THUMBR,
    }
}

/// Gives the axis codes of a stick: first the horizontal, then the vertical.
pub fn codes_of_stick(stick: ThumbStick) -> (codes: (u16, u16))
    ensures
        codes == stick_codes(stick),
{
    match stick {
        ThumbStick::Left => (ABS_X, ABS_Y),
        ThumbStick::Right => (ABS_RX, ABS_RY),
    }
}

/// A button record: value 1 for pressed, 0 for released.
pub open spec fn key_record(code: u16, value: i32, time: (i64, i64)) -> SafeInputEvent {
    SafeInputEvent { code, type_: EV_KEY, value, time }
}

/// An axis record.
pub open spec fn axis_record(code: u16, value: i32, time: (i64, i64)) -> SafeInputEvent {
    SafeInputEvent { code, type_: EV_ABS, value, time }
}

/// The record that commits the records before it.
pub open spec fn sync_record(time: (i64, i64)) -> SafeInputEvent {
    SafeInputEvent { code: SYN_REPORT, type_: EV_SYN, value: 0, time }
}

/// The frame that carries `input`: its records in the order they are
/// written, the last of them the record that commits the frame.
pub open spec fn input_records(input: Input, time: (i64, i64)) -> Seq<SafeInputEvent> {
    match input {
        Input::Press(button) => seq![key_record(button_code(button), 1, time), sync_record(time)],
        Input::Release(button) => seq![
            key_record(button_code(button), 0, time),
            sync_record(time),
        ],
        Input::Move { thumb_stick, x, y } => seq![
            axis_record(stick_codes(thumb_stick).0, x, time),
            axis_record(stick_codes(thumb_stick).1, y, time),
            sync_record(time),
        ],
    }
}

/// Builds the frame that carries `input`, stamped with `time`.
pub fn input_frame(input: Input, time: (i64, i64)) -> (frame: Vec<SafeInputEvent>)
    ensures
        frame@ == input_records(input, time),
{
    let mut frame: Vec<SafeInputEvent> = Vec::new();
    match input {
        Input::Press(button) => {
            frame.push(SafeInputEvent { code: code_of_button(button), type_: EV_KEY, value: 1, time });
        },
        Input::Release(button) => {
            frame.push(SafeInputEvent { code: code_of_button(button), type_: EV_KEY, value: 0, time });
        },
        Input::Move { thumb_stick, x, y } => {
            let codes = codes_of_stick(thumb_stick);
            frame.push(SafeInputEvent { code: codes.0, type_: EV_ABS, value: x, time });
            frame.push(SafeInputEvent { code: codes.1, type_: EV_ABS, value: y, time });
        },
    }
    frame.push(SafeInputEvent { code: SYN_REPORT, type_: EV_SYN, value: 0, time });
    assert(frame@ =~= input_records(input, time));
    frame
}

/// The byte images of a sequence of records, one image per record.
pub open spec fn images_of(records: Seq<SafeInputEvent>) -> Seq<Seq<u8>> {
    Seq::new(records.len(), |i: int| event_bytes(records[i]))
}

/// The bytes that a sequence of images holds, one entry per image.
pub open spec fn image_views(images: Seq<InputEvent>) -> Seq<Seq<u8>> {
    Seq::new(images.len(), |i: int| images[i]@)
}

/// Lays the records of a frame down, in their order.
pub fn frame_images(frame: &Vec<SafeInputEvent>) -> (images: Vec<InputEvent>)
    ensures
        image_views(images@) == images_of(frame@),
{
    let mut images: Vec<InputEvent> = Vec::new();
    let mut i: usize = 0;
    while i < frame.len()
        invariant
            i <= frame@.len(),
            images@.len() == i,
            forall|k: int| 0 <= k < i ==> (#[trigger] images@[k])@ == event_bytes(frame@[k]),
        decreases frame@.len() - i,
    {
        images.push(InputEvent::from(frame[i]));
        i += 1;
    }
    assert(image_views(images@) =~= images_of(frame@));
    images
}

/// One step of registering the device with the kernel.
#[derive(Debug, Clone, Copy)]
pub enum SetupStep {
    /// Enable a type of event.
    EventBit(u16),
    /// Enable a key code.
    KeyBit(u16),
    /// Enable a type of force-feedback effect.
    ForceFeedbackBit(u16),
    /// Enable an axis code.
    AbsBit(u16),
    /// Describe an axis.
    AbsSetup(SafeAbsSetup),
    /// Announce the device's identity.
    DeviceSetup(SafeSetup),
    /// Create the device.
    Create,
}

/// The name announced for the device.
pub open spec fn device_name() -> &'static str {
    "Virtual Gamepad Device"
}

/// The identity announced for the device.
pub open spec fn identity() -> SafeSetup {
    SafeSetup {
        bustype: BUS_USB,
        vendor: VENDOR_ID,
        product: PRODUCT_ID,
        version: DEVICE_VERSION,
        ff_effects_max: FF_MAX_EFFECTS,
        name: device_name(),
    }
}

/// The description of the axis `code`: at rest in the middle of a range
/// that is symmetric about zero.
pub open spec fn axis_setup(code: u16) -> SafeAbsSetup {
    SafeAbsSetup {
        code,
        value: 0,
        minimum: AXIS_MIN,
        maximum: AXIS_MAX,
        fuzz: 0,
        flat: 0,
        resolution: 0,
    }
}

/// Every button, in the order in which the key codes are enabled.
pub open spec fn all_buttons() -> Seq<Button> {
    seq![
        Button::DpadDown,
        Button::DpadUp,
        Button::DpadLeft,
        Button::DpadRight,
        Button::North,
        Button::South,
        Button::West,
        Button::East,
        Button::Start,
        Button::Select,
        Button::TriggerLeft,
        Button::TriggerRight,
        Button::TriggerLeft2,
        Button::TriggerRight2,
        Button::ThumbStickLeft,
        Button::ThumbStickRight,
    ]
}

/// Every axis code, in the order in which the axes are enabled and described.
pub open spec fn all_axes() -> Seq<u16> {
    seq![ABS_X, ABS_Y, ABS_RX, ABS_RY]
}

/// The steps that register the device, in the order in which they are taken.
pub open spec fn capability_plan() -> Seq<SetupStep> {
    seq![SetupStep::EventBit(EV_KEY), SetupStep::EventBit(EV_FF), SetupStep::EventBit(EV_ABS)]
        + Seq::new(all_buttons().len(), |i: int| SetupStep::KeyBit(button_code(all_buttons()[i])))
        + seq![SetupStep::ForceFeedbackBit(FF_RUMBLE)] + Seq::new(
        all_axes().len(),
        |i: int| SetupStep::AbsBit(all_axes()[i]),
    ) + Seq::new(all_axes().len(), |i: int| SetupStep::AbsSetup(axis_setup(all_axes()[i])))
        + seq![SetupStep::DeviceSetup(identity()), SetupStep::Create]
}

/// Lists every button.
pub fn buttons() -> (list: Vec<Button>)
    ensures
        list@ == all_buttons(),
{
    let list = vec![
        Button::DpadDown,
        Button::DpadUp,
        Button::DpadLeft,
        Button::DpadRight,
        Button::North,
        Button::South,
        Button::West,
        Button::East,
        Button::Start,
        Button::Select,
        Button::TriggerLeft,
        Button::TriggerRight,
        Button::TriggerLeft2,
        Button::TriggerRight2,
        Button::ThumbStickLeft,
        Button::ThumbStickRight,
    ];
    assert(list@ =~= all_buttons());
    list
}

/// Lists every axis code.
pub fn axes() -> (list: Vec<u16>)
    ensures
        list@ == all_axes(),
{
    let list = vec![ABS_X, ABS_Y, ABS_RX, ABS_RY];
    assert(list@ =~= all_axes());
    list
}

/// Gives the identity announced for the device. Its name fits the name
/// field of the identity descriptor.
pub fn device_identity() -> (safe: SafeSetup)
    ensures
        safe == identity(),
        safe.name.spec_bytes().len() < NAME_SIZE,
{
    let name: &'static str = "Virtual Gamepad Device";
    proof {
        reveal_strlit("Virtual Gamepad Device");
        assert(is_ascii(name)) by {
            assert(name@.len() == 22);
            assert(forall|i: int| 0 <= i < name@.len() ==> (name@[i] as nat) < 128);
        }
    }
    SafeSetup {
        bustype: BUS_USB,
        vendor: VENDOR_ID,
        product: PRODUCT_ID,
        version: DEVICE_VERSION,
        ff_effects_max: FF_MAX_EFFECTS,
        name,
    }
}

/// Builds the steps that register the device, in the order in which they
/// are taken.
pub fn create_uinput_device() -> (plan: Vec<SetupStep>)
    ensures
        plan@ == capability_plan(),
{
    let mut plan: Vec<SetupStep> = Vec::new();
    plan.push(SetupStep::EventBit(EV_KEY));
    plan.push(SetupStep::EventBit(EV_FF));
    plan.push(SetupStep::EventBit(EV_ABS));
    let ghost head = plan@;
    let buttons = buttons();
    let mut i: usize = 0;
    while i < buttons.len()
        invariant
            i <= buttons@.len(),
            buttons@ == all_buttons(),
            plan@ == head + Seq::new(i as nat, |k: int| SetupStep::KeyBit(button_code(all_buttons()[k]))),
        decreases buttons@.len() - i,
    {
        plan.push(SetupStep::KeyBit(code_of_button(buttons[i])));
        i += 1;
        assert(plan@ =~= head + Seq::new(
            i as nat,
            |k: int| SetupStep::KeyBit(button_code(all_buttons()[k])),
        ));
    }
    plan.push(SetupStep::ForceFeedbackBit(FF_RUMBLE));
    let ghost head = plan@;
    let axes = axes();
    let mut i: usize = 0;
    while i < axes.len()
        invariant
            i <= axes@.len(),
            axes@ == all_axes(),
            plan@ == head + Seq::new(i as nat, |k: int| SetupStep::AbsBit(all_axes()[k])),
        decreases axes@.len() - i,
    {
        plan.push(SetupStep::AbsBit(axes[i]));
        i += 1;
        assert(plan@ =~= head + Seq::new(i as nat, |k: int| SetupStep::AbsBit(all_axes()[k])));
    }
    let ghost head = plan@;
    let mut i: usize = 0;
    while i < axes.len()
        invariant
            i <= axes@.len(),
            axes@ == all_axes(),
            plan@ == head + Seq::new(
                i as nat,
                |k: int| SetupStep::AbsSetup(axis_setup(all_axes()[k])),
            ),
        decreases axes@.len() - i,
    {
        plan.push(
            SetupStep::AbsSetup(
                SafeAbsSetup {
                    code: axes[i],
                    value: 0,
                    minimum: AXIS_MIN,
                    maximum: AXIS_MAX,
                    fuzz: 0,
                    flat: 0,
                    resolution: 0,
                },
            ),
        );
        i += 1;
        assert(plan@ =~= head + Seq::new(
            i as nat,
            |k: int| SetupStep::AbsSetup(axis_setup(all_axes()[k])),
        ));
    }
    plan.push(SetupStep::DeviceSetup(device_identity()));
    plan.push(SetupStep::Create);
    assert(plan@ =~= capability_plan());
    plan
}

/// What is to be done after a read from the device.
#[derive(Debug, Clone, Copy, PartialEq, Eq, Structural)]
pub enum Request {
    /// Nothing more: this is the output for the consumer.
    Done(Output),
    /// The kernel asks to upload an effect: begin the upload under this
    /// request number, hand the request to the reader, then end the upload.
    Upload { request_id: u32 },
    /// The kernel asks to erase an effect: begin the erasure under this
    /// request number, hand the request to the reader, then end the erasure.
    Erase { request_id: u32 },
}

/// What a record read from the device asks for, given the effects `effects`.
pub open spec fn event_step(
    event: SafeInputEvent,
    effects: Map<i64, VgpDeviceForceFeedback>,
) -> Result<Request, ErrorView> {
    if event.type_ == EV_UINPUT {
        if event.code == UI_FF_UPLOAD {
            Ok(Request::Upload { request_id: i32_bits(event.value) })
        } else if event.code == UI_FF_ERASE {
            Ok(Request::Erase { request_id: i32_bits(event.value) })
        } else {
            Ok(Request::Done(Output::Unsupported))
        }
    } else if event.type_ == EV_FF {
        if event.value == 1 {
            Ok(Request::Done(play_output(effects, event.code as i64)))
        } else if event.value == 0 {
            Ok(Request::Done(Output::Rumble { large_motor: 0, small_motor: 0 }))
        } else {
            Err(ErrorView::Unknown(bad_feedback_text(event)))
        }
    } else {
        Ok(Request::Done(Output::Unsupported))
    }
}

/// What the outcome of one read from the device asks for: the bytes that
/// were read, or the error number of the read that failed.
pub open spec fn read_step(
    outcome: Result<Seq<u8>, i32>,
    effects: Map<i64, VgpDeviceForceFeedback>,
) -> Result<Request, ErrorView> {
    match outcome {
        Err(errno) => if errno == EAGAIN {
            Ok(Request::Done(Output::Nothing))
        } else {
            Err(error_of_errno(errno)@)
        },
        Ok(bytes) => if bytes.len() != INPUT_EVENT_SIZE {
            Err(ErrorView::Unknown(size_mismatch_text(INPUT_EVENT_SIZE as nat, bytes.len())))
        } else {
            event_step(event_of(bytes), effects)
        },
    }
}

/// A result as contracts speak of it: an error is taken by its view.
pub open spec fn step_view(step: Result<Request, Error>) -> Result<Request, ErrorView> {
    match step {
        Ok(request) => Ok(request),
        Err(e) => Err(e@),
    }
}

/// The half of the device that reads: it keeps the uploaded effects and
/// decides what each read from the device means.
pub struct UInputFDReader {
    registry: Registry,
}

impl UInputFDReader {
    /// The effects that the kernel has uploaded and not erased.
    pub closed spec fn effects(&self) -> Map<i64, VgpDeviceForceFeedback> {
        self.registry@
    }

    /// A reader that knows no effect.
    pub fn new() -> (reader: UInputFDReader)
        ensures
            reader.effects() == Map::<i64, VgpDeviceForceFeedback>::empty(),
    {
        UInputFDReader { registry: Registry::new() }
    }

    /// Decides what a record from the device asks for. The effects stay as
    /// they are.
    pub fn decode(&self, event: SafeInputEvent) -> (step: Result<Request, Error>)
        ensures
            step_view(step) == event_step(event, self.effects()),
    {
        if event.type_ == EV_UINPUT {
            if event.code == UI_FF_UPLOAD {
                Ok(Request::Upload { request_id: bits_of_i32(event.value) })
            } else if event.code == UI_FF_ERASE {
                Ok(Request::Erase { request_id: bits_of_i32(event.value) })
            } else {
                Ok(Request::Done(Output::Unsupported))
            }
        } else if event.type_ == EV_FF {
            if event.value == 1 {
                Ok(Request::Done(self.registry.play(event.code as i64)))
            } else if event.value == 0 {
                Ok(Request::Done(Output::Rumble { large_motor: 0, small_motor: 0 }))
            } else {
                Err(Error::Unknown(bad_feedback_message(&event)))
            }
        } else {
            Ok(Request::Done(Output::Unsupported))
        }
    }

    /// Decides what the outcome of one read from the device asks for: the
    /// bytes that were read, or the error number of the read that failed.
    /// A read that found nothing to read is no error, and one that returned
    /// another number of bytes than a record has is one. The effects stay as
    /// they are.
    pub fn read(&self, outcome: Result<Vec<u8>, i32>) -> (step: Result<Request, Error>)
        ensures
            step_view(step) == read_step(
                match outcome {
                    Ok(bytes) => Ok(bytes@),
                    Err(errno) => Err(errno),
                },
                self.effects(),
            ),
            outcome == Err::<Vec<u8>, i32>(EAGAIN) ==> step == Ok::<Request, Error>(
                Request::Done(Output::Nothing),
            ),
            outcome is Ok && outcome->Ok_0@.len() != INPUT_EVENT_SIZE ==> step is Err
                && step->Err_0@ == ErrorView::Unknown(
                size_mismatch_text(INPUT_EVENT_SIZE as nat, outcome->Ok_0@.len()),
            ),
    {
        match outcome {
            Err(errno) => {
                if errno == EAGAIN {
                    Ok(Request::Done(Output::Nothing))
                } else {
                    Err(Error::from_errno(errno))
                }
            },
            Ok(bytes) => {
                match InputEvent::from_bytes(bytes.as_slice()) {
                    None => Err(
                        Error::Unknown(size_mismatch_message(INPUT_EVENT_SIZE, bytes.len())),
                    ),
                    Some(event) => self.decode(SafeInputEvent::from(event)),
                }
            },
        }
    }

    /// Takes an upload request as the kernel has filled it in: keeps the
    /// effect it describes under the effect's number, in place of any
    /// effect kept there before, and accepts the request. The consumer
    /// sees nothing of an upload.
    pub fn upload(&mut self, request: &mut ForceFeedbackUpload) -> (output: Output)
        ensures
            final(self).effects() == old(self).effects().insert(
                upload_effect(old(request)@).id as i64,
                upload_effect(old(request)@),
            ),
            final(request)@ == with_retval(old(request)@, 0),
            final(request).retval() == 0,
            final(request).request_id() == old(request).request_id(),
            output == Output::Nothing,
    {
        let effect = request.to_vgp_device_force_feedback();
        self.registry.store(effect);
        request.set_retval(0);
        Output::Nothing
    }

    /// Takes an erase request as the kernel has filled it in: forgets the
    /// effect it names, if there is one, and accepts the request. The
    /// consumer sees nothing of an erasure.
    pub fn erase(&mut self, request: &mut ForceFeedbackErase) -> (output: Output)
        ensures
            final(self).effects() == old(self).effects().remove(old(request).effect_id() as i64),
            final(request)@ == with_retval(old(request)@, 0),
            final(request).retval() == 0,
            final(request).request_id() == old(request).request_id(),
            final(request).effect_id() == old(request).effect_id(),
            output == Output::Nothing,
    {
        let id = request.get_effect_id();
        self.registry.erase(id as i64);
        request.set_retval(0);
        Output::Nothing
    }
}

/// A button that is pressed and then released gives four records and no
/// other: the key record with value one and the record that commits it,
/// then the key record with value zero and the record that commits it.
pub proof fn lemma_press_then_release(button: Button, pressed: (i64, i64), released: (i64, i64))
    ensures
        input_records(Input::Press(button), pressed) + input_records(
            Input::Release(button),
            released,
        ) == seq![
            key_record(button_code(button), 1, pressed),
            sync_record(pressed),
            key_record(button_code(button), 0, released),
            sync_record(released),
        ],
{
    assert(input_records(Input::Press(button), pressed) + input_records(
        Input::Release(button),
        released,
    ) =~= seq![
        key_record(button_code(button), 1, pressed),
        sync_record(pressed),
        key_record(button_code(button), 0, released),
        sync_record(released),
    ]);
}

/// Every frame ends with the record that commits it, and holds no other
/// such record.
pub proof fn lemma_frame_is_committed(input: Input, time: (i64, i64))
    ensures
        input_records(input, time).len() >= 2,
        input_records(input, time).last() == sync_record(time),
        forall|i: int|
            0 <= i < input_records(input, time).len() - 1 ==> (
            #[trigger] input_records(input, time)[i]).type_ != EV_SYN,
{
}

/// Two buttons never share a key code.
pub proof fn lemma_button_codes_differ(a: Button, b: Button)
    ensures
        button_code(a) == button_code(b) <==> a == b,
{
}

/// A record that starts the effect `play.code` gives, once the effect was
/// uploaded, the magnitudes it was uploaded with, whatever was known
/// before; an uploaded effect of another type gives nothing.
pub proof fn lemma_upload_then_play(
    effects: Map<i64, VgpDeviceForceFeedback>,
    effect: VgpDeviceForceFeedback,
    play: SafeInputEvent,
)
    requires
        play.type_ == EV_FF,
        play.value == 1,
        play.code == effect.id,
    ensures
        event_step(play, effects.insert(effect.id as i64, effect)) == Ok::<Request, ErrorView>(
            Request::Done(
                match effect.type_ {
                    VgpDeviceForceFeedbackType::Rumble { strong_magnitude, weak_magnitude } => Output::Rumble {
                        large_motor: strong_magnitude,
                        small_motor: weak_magnitude,
                    },
                    VgpDeviceForceFeedbackType::Unsupported => Output::Nothing,
                },
            ),
        ),
{
}

/// A record that starts the effect `play.code` gives nothing once that
/// effect was erased: no magnitude outlives its effect.
pub proof fn lemma_erase_then_play(
    effects: Map<i64, VgpDeviceForceFeedback>,
    effect_id: u32,
    play: SafeInputEvent,
)
    requires
        play.type_ == EV_FF,
        play.value == 1,
        play.code == effect_id,
    ensures
        event_step(play, effects.remove(effect_id as i64)) == Ok::<Request, ErrorView>(
            Request::Done(Output::Nothing),
        ),
{
}

/// A read that found nothing to read gives no output and no error,
/// whatever effects are known.
pub proof fn lemma_would_block_is_no_error(effects: Map<i64, VgpDeviceForceFeedback>)
    ensures
        read_step(Err(EAGAIN), effects) == Ok::<Request, ErrorView>(Request::Done(Output::Nothing)),
{
}

/// A read that returned fewer bytes than a record has gives an error that
/// names both sizes, whatever effects are known.
pub proof fn lemma_short_read_is_an_error(
    bytes: Seq<u8>,
    effects: Map<i64, VgpDeviceForceFeedback>,
)
    requires
        bytes.len() < INPUT_EVENT_SIZE,
    ensures
        read_step(Ok(bytes), effects) == Err::<Request, ErrorView>(
            ErrorView::Unknown(size_mismatch_text(INPUT_EVENT_SIZE as nat, bytes.len())),
        ),
{
}

/// What writing `input` comes to, for a reading `clock` of the wall clock:
/// the images of the frame stamped with that time, or the report that the
/// clock could not be read.
pub open spec fn write_outcome(input: Input, clock: Option<(i64, i64)>) -> Result<
    Seq<Seq<u8>>,
    ErrorView,
> {
    match clock {
        Some(time) => Ok(images_of(input_records(input, time))),
        None => Err(ErrorView::Unknown(clock_text())),
    }
}

/// The outcome of a write as contracts speak of it.
pub open spec fn write_view(written: Result<Vec<InputEvent>, Error>) -> Result<
    Seq<Seq<u8>>,
    ErrorView,
> {
    match written {
        Ok(images) => Ok(image_views(images@)),
        Err(e) => Err(e@),
    }
}

/// The half of the device that writes: it turns an input into the images
/// that are written to the device, one write per image, in their order.
pub struct UInputFDWriter {}

impl UInputFDWriter {
    /// A writer.
    pub fn new() -> (writer: UInputFDWriter) {
        UInputFDWriter {  }
    }

    /// Builds the images of the frame that carries `input`, for a reading
    /// `clock` of the wall clock. Without a reading there is no frame.
    pub fn write_at(&self, input: Input, clock: Option<(i64, i64)>) -> (written: Result<
        Vec<InputEvent>,
        Error,
    >)
        ensures
            write_view(written) == write_outcome(input, clock),
    {
        match clock {
            Some(time) => {
                let frame = input_frame(input, time);
                Ok(frame_images(&frame))
            },
            None => Err(Error::Unknown(clock_message())),
        }
    }

    /// Reads the wall clock and builds the images of the frame that carries
    /// `input`, stamped with the time that was read. Whatever the clock
    /// gave, the outcome is that of `write_at` for some reading, and a
    /// reading that stamps a frame is a time the clock can give.
    pub fn write(&self, input: Input) -> (written: Result<Vec<InputEvent>, Error>)
        ensures
            exists|clock: Option<(i64, i64)>|
                (clock is Some ==> is_clock_time(clock->0)) && write_view(written)
                    == #[trigger] write_outcome(input, clock),
    {
        let clock = wall_clock();
        self.write_at(input, clock)
    }
}

} // verus!
