//! What both flavours of the device share: the report that is sent to the
//! driver, and the queue that orders what the driver notifies.

use std::collections::VecDeque;
use vstd::prelude::*;
use crate::api::{Button, Input, Output, ThumbStick};

verus! {

pub const XUSB_GAMEPAD_DPAD_UP: u16 = 0x0001;

pub const XUSB_GAMEPAD_DPAD_DOWN: u16 = 0x0002;

pub const XUSB_GAMEPAD_DPAD_LEFT: u16 = 0x0004;

pub const XUSB_GAMEPAD_DPAD_RIGHT: u16 = 0x0008;

pub const XUSB_GAMEPAD_START: u16 = 0x0010;

pub const XUSB_GAMEPAD_LEFT_THUMB: u16 = 0x0040;

pub const XUSB_GAMEPAD_RIGHT_THUMB: u16 = 0x0080;

pub const XUSB_GAMEPAD_LEFT_SHOULDER: u16 = 0x0100;

pub const XUSB_GAMEPAD_RIGHT_SHOULDER: u16 = 0x0200;

pub const XUSB_GAMEPAD_GUIDE: u16 = 0x0400;

pub const XUSB_GAMEPAD_A: u16 = 0x1000;

pub const XUSB_GAMEPAD_B: u16 = 0x2000;

pub const XUSB_GAMEPAD_X: u16 = 0x4000;

pub const XUSB_GAMEPAD_Y: u16 = 0x8000;

/// How far a trigger is pulled while it is pressed.
pub const TRIGGER_PRESSED: u8 = 127;

/// Largest value a stick reports along an axis.
pub const THUMB_MAX: i32 = 32767;

/// Smallest value a stick reports along an axis.
pub const THUMB_MIN: i32 = -32768;

/// What the driver notifies: the state of the two motors and of the light.
#[derive(Debug, Clone, Copy, PartialEq, Eq, Structural)]
pub struct RawOutput {
    pub large_motor: u8,
    pub small_motor: u8,
    pub led_number: u8,
}

/// What is handed out for a notification `raw`, and what stays queued,
/// where `latest` was notified last and `queue` is what was queued then.
///
/// Motors that changed queue their magnitudes behind what waits already;
/// the oldest that waits is handed out, or nothing where none waits. A
/// light that changed is queued last, and so never handed out at once.
pub open spec fn queue_step(latest: RawOutput, queue: Seq<Output>, raw: RawOutput) -> (
    Output,
    Seq<Output>,
) {
    let pending = if raw.large_motor != latest.large_motor || raw.small_motor
        != latest.small_motor {
        queue.push(
            Output::Rumble {
                large_motor: raw.large_motor as u16,
                small_motor: raw.small_motor as u16,
            },
        )
    } else {
        queue
    };
    let rest = if pending.len() > 0 {
        pending.subrange(1, pending.len() as int)
    } else {
        pending
    };
    (
        if pending.len() > 0 {
            pending[0]
        } else {
            Output::Nothing
        },
        if raw.led_number != latest.led_number {
            rest.push(Output::Unsupported)
        } else {
            rest
        },
    )
}

/// The outputs that wait for the consumer, oldest first, and the
/// notification that came last.
pub struct OutputQueue {
    latest_raw_output: RawOutput,
    queue: VecDeque<Output>,
}

impl OutputQueue {
    /// The notification that came last.
    pub closed spec fn latest(&self) -> RawOutput {
        self.latest_raw_output
    }

    /// The outputs that wait, oldest first.
    pub closed spec fn waiting(&self) -> Seq<Output> {
        self.queue@
    }

    /// A queue in which nothing waits, as if the driver had notified that
    /// the motors rest and the light is off.
    pub fn new() -> (queue: OutputQueue)
        ensures
            queue.latest() == (RawOutput { large_motor: 0, small_motor: 0, led_number: 0 }),
            queue.waiting() == Seq::<Output>::empty(),
    {
        OutputQueue {
            latest_raw_output: RawOutput { large_motor: 0, small_motor: 0, led_number: 0 },
            queue: VecDeque::new(),
        }
    }

    /// Hands out the oldest output that waits, if one does.
    pub fn get(&mut self) -> (output: Option<Output>)
        ensures
            final(self).latest() == old(self).latest(),
            match output {
                Some(first) => old(self).waiting().len() > 0 && first == old(self).waiting()[0]
                    && final(self).waiting() == old(self).waiting().subrange(
                    1,
                    old(self).waiting().len() as int,
                ),
                None => old(self).waiting().len() == 0 && final(self).waiting() == old(
                    self,
                ).waiting(),
            },
    {
        self.queue.pop_front()
    }

    /// Takes a notification of the driver and hands out the oldest output
    /// that then waits; where none waits, the output that says so.
    pub fn put_and_get(&mut self, raw_output: RawOutput) -> (output: Option<Output>)
        ensures
            output == Some(queue_step(old(self).latest(), old(self).waiting(), raw_output).0),
            final(self).waiting() == queue_step(
                old(self).latest(),
                old(self).waiting(),
                raw_output,
            ).1,
            final(self).latest() == raw_output,
    {
        let did_large_motor_change = raw_output.large_motor != self.latest_raw_output.large_motor;
        let did_small_motor_change = raw_output.small_motor != self.latest_raw_output.small_motor;
        let did_led_number_change = raw_output.led_number != self.latest_raw_output.led_number;
        let has_queued_output = self.queue.len() > 0;

        self.latest_raw_output = raw_output;

        let output = if did_large_motor_change || did_small_motor_change {
            let rumble_output = Output::Rumble {
                large_motor: raw_output.large_motor as u16,
                small_motor: raw_output.small_motor as u16,
            };
            if has_queued_output {
                self.queue.push_back(rumble_output);
                self.queue.pop_front()
            } else {
                Some(rumble_output)
            }
        } else if has_queued_output {
            self.queue.pop_front()
        } else {
            Some(Output::Nothing)
        };

        if did_led_number_change {
            self.queue.push_back(Output::Unsupported);
        }
        proof {
            let step = queue_step(old(self).latest(), old(self).waiting(), raw_output);
            assert(self.queue@ =~= step.1);
        }
        output
    }
}

/// The state of the controller as the driver is told it.
#[derive(Debug, Clone, Copy, PartialEq, Eq, Structural)]
pub struct XusbReport {
    pub w_buttons: u16,
    pub b_left_trigger: u8,
    pub b_right_trigger: u8,
    pub s_thumb_lx: i16,
    pub s_thumb_ly: i16,
    pub s_thumb_rx: i16,
    pub s_thumb_ry: i16,
}

/// The bit that stands for a button in the report. The second triggers
/// are analog and have none.
pub open spec fn button_mask(button: Button) -> u16 {
    match button {
        Button::DpadDown => XUSB_GAMEPAD_DPAD_DOWN,
        Button::DpadUp => XUSB_GAMEPAD_DPAD_UP,
        Button::DpadLeft => XUSB_GAMEPAD_DPAD_LEFT,
        Button::DpadRight => XUSB_GAMEPAD_DPAD_RIGHT,
        Button::North => XUSB_GAMEPAD_Y,
        Button::South => XUSB_GAMEPAD_A,
        Button::West => XUSB_GAMEPAD_X,
        Button::East => XUSB_GAMEPAD_B,
        Button::Start => XUSB_GAMEPAD_START,
        Button::Select => XUSB_GAMEPAD_GUIDE,
        Button::TriggerLeft => XUSB_GAMEPAD_LEFT_SHOULDER,
        Button::TriggerRight => XUSB_GAMEPAD_RIGHT_SHOULDER,
        Button::ThumbStickLeft => XUSB_GAMEPAD_LEFT_THUMB,
        Button::ThumbStickRight => XUSB_GAMEPAD_RIGHT_THUMB,
        Button::TriggerLeft2 => 0,
        Button::TriggerRight2 => 0,
    }
}

/// The value a stick reports for the coordinate `v`: `v` itself, held to
/// the range of the axis.
pub open spec fn thumb_value(v: i32) -> i16 {
    if v > THUMB_MAX {
        THUMB_MAX as i16
    } else if v < THUMB_MIN {
        THUMB_MIN as i16
    } else {
        v as i16
    }
}

/// The report after `input`, where `report` was the report before.
pub open spec fn report_after(report: XusbReport, input: Input) -> XusbReport {
    match input {
        Input::Press(Button::TriggerLeft2) => XusbReport {
            b_left_trigger: TRIGGER_PRESSED,
            ..report
        },
        Input::Press(Button::TriggerRight2) => XusbReport {
            b_right_trigger: TRIGGER_PRESSED,
            ..report
        },
        Input::Press(button) => XusbReport {
            w_buttons: report.w_buttons | button_mask(button),
            ..report
        },
        Input::Release(Button::TriggerLeft2) => XusbReport { b_left_trigger: 0, ..report },
        Input::Release(Button::TriggerRight2) => XusbReport { b_right_trigger: 0, ..report },
        Input::Release(button) => XusbReport {
            w_buttons: report.w_buttons & !button_mask(button),
            ..report
        },
        Input::Move { thumb_stick: ThumbStick::Left, x, y } => XusbReport {
            s_thumb_lx: thumb_value(x),
            s_thumb_ly: thumb_value(y),
            ..report
        },
        Input::Move { thumb_stick: ThumbStick::Right, x, y } => XusbReport {
            s_thumb_rx: thumb_value(x),
            s_thumb_ry: thumb_value(y),
            ..report
        },
    }
}

/// Gives the bit that stands for a button in the report.
pub fn mask_of_button(button: Button) -> (mask: u16)
    ensures
        mask == button_mask(button),
{
    match button {
        Button::DpadDown => XUSB_GAMEPAD_DPAD_DOWN,
        Button::DpadUp => XUSB_GAMEPAD_DPAD_UP,
        Button::DpadLeft => XUSB_GAMEPAD_DPAD_LEFT,
        Button::DpadRight => XUSB_GAMEPAD_DPAD_RIGHT,
        Button::North => XUSB_GAMEPAD_Y,
        Button::South => XUSB_GAMEPAD_A,
        Button::West => XUSB_GAMEPAD_X,
        Button::East => XUSB_GAMEPAD_B,
        Button::Start => XUSB_GAMEPAD_START,
        Button::Select => XUSB_GAMEPAD_GUIDE,
        Button::TriggerLeft => XUSB_GAMEPAD_LEFT_SHOULDER,
        Button::TriggerRight => XUSB_GAMEPAD_RIGHT_SHOULDER,
        Button::ThumbStickLeft => XUSB_GAMEPAD_LEFT_THUMB,
        Button::ThumbStickRight => XUSB_GAMEPAD_RIGHT_THUMB,
        Button::TriggerLeft2 => 0,
        Button::TriggerRight2 => 0,
    }
}

/// Holds a coordinate to the range of an axis.
pub fn value_of_thumb(v: i32) -> (held: i16)
    ensures
        held == thumb_value(v),
{
    if v > THUMB_MAX {
        THUMB_MAX as i16
    } else if v < THUMB_MIN {
        THUMB_MIN as i16
    } else {
        v as i16
    }
}

/// A controller that was added to the bus, with the report that the
/// driver was sent last.
pub struct AddedTarget {
    report: XusbReport,
}

impl AddedTarget {
    /// The report that the driver was sent last.
    pub closed spec fn report(&self) -> XusbReport {
        self.report
    }

    /// A controller at rest: no button is down, no trigger pulled, and
    /// both sticks stand in the middle.
    pub fn new() -> (target: AddedTarget)
        ensures
            target.report() == (XusbReport {
                w_buttons: 0,
                b_left_trigger: 0,
                b_right_trigger: 0,
                s_thumb_lx: 0,
                s_thumb_ly: 0,
                s_thumb_rx: 0,
                s_thumb_ry: 0,
            }),
    {
        AddedTarget {
            report: XusbReport {
                w_buttons: 0,
                b_left_trigger: 0,
                b_right_trigger: 0,
                s_thumb_lx: 0,
                s_thumb_ly: 0,
                s_thumb_rx: 0,
                s_thumb_ry: 0,
            },
        }
    }

    /// Brings `input` into the report and gives the report that is to be
    /// sent to the driver.
    pub fn send_report(&mut self, input: Input) -> (report: XusbReport)
        ensures
            report == report_after(old(self).report(), input),
            final(self).report() == report,
    {
        match input {
            Input::Press(Button::TriggerLeft2) => {
                self.report.b_left_trigger = TRIGGER_PRESSED;
            },
            Input::Press(Button::TriggerRight2) => {
                self.report.b_right_trigger = TRIGGER_PRESSED;
            },
            Input::Press(button) => {
                self.report.w_buttons = self.report.w_buttons | mask_of_button(button);
            },
            Input::Release(Button::TriggerLeft2) => {
                self.report.b_left_trigger = 0;
            },
            Input::Release(Button::TriggerRight2) => {
                self.report.b_right_trigger = 0;
            },
            Input::Release(button) => {
                self.report.w_buttons = self.report.w_buttons & !mask_of_button(button);
            },
            Input::Move { thumb_stick: ThumbStick::Left, x, y } => {
                self.report.s_thumb_lx = value_of_thumb(x);
                self.report.s_thumb_ly = value_of_thumb(y);
            },
            Input::Move { thumb_stick: ThumbStick::Right, x, y } => {
                self.report.s_thumb_rx = value_of_thumb(x);
                self.report.s_thumb_ry = value_of_thumb(y);
            },
        }
        self.report
    }
}

/// A button that is pressed and then released is up, and no other button
/// has moved: the report is what releasing alone would have given.
pub proof fn lemma_press_then_release(report: XusbReport, button: Button)
    ensures
        report_after(report_after(report, Input::Press(button)), Input::Release(button))
            == report_after(report, Input::Release(button)),
        button_mask(button) != 0 ==> report_after(
            report_after(report, Input::Press(button)),
            Input::Release(button),
        ).w_buttons & button_mask(button) == 0,
{
    let w = report.w_buttons;
    let m = button_mask(button);
    assert((w | m) & !m == w & !m) by (bit_vector);
    assert((w & !m) & m == 0) by (bit_vector);
}

/// A button that is pressed is down, and every button that was down
/// before is still down.
pub proof fn lemma_press_sets_the_bit(report: XusbReport, button: Button)
    requires
        button_mask(button) != 0,
    ensures
        report_after(report, Input::Press(button)).w_buttons & button_mask(button) == button_mask(
            button,
        ),
        report_after(report, Input::Press(button)).w_buttons & report.w_buttons
            == report.w_buttons,
{
    let w = report.w_buttons;
    let m = button_mask(button);
    assert((w | m) & m == m) by (bit_vector);
    assert((w | m) & w == w) by (bit_vector);
}

} // verus!
