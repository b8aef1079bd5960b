//! Numeric codes of the kernel's input subsystem that the device uses.

use vstd::prelude::*;

verus! {

/// Event type of the record that commits a batch of records.
pub const EV_SYN: u16 = 0x00;

/// Event type of button records.
pub const EV_KEY: u16 = 0x01;

/// Event type of absolute-axis records.
pub const EV_ABS: u16 = 0x03;

/// Event type of force-feedback records.
pub const EV_FF: u16 = 0x15;

/// Event type of the control records the facility addresses to the device's owner.
pub const EV_UINPUT: u16 = 0x0101;

/// Code of the report that ends a batch.
pub const SYN_REPORT: u16 = 0;

pub const BTN_A: u16 = 0x130;

pub const BTN_B: u16 = 0x131;

pub const BTN_X: u16 = 0x133;

pub const BTN_Y: u16 = 0x134;

pub const BTN_TL: u16 = 0x136;

pub const BTN_TR: u16 = 0x137;

pub const BTN_TL2: u16 = 0x138;

pub const BTN_TR2: u16 = 0x139;

pub const BTN_SELECT: u16 = 0x13a;

pub const BTN_START: u16 = 0x13b;

pub const BTN_THUMBL: u16 = 0x13d;

pub const BTN_THUMBR: u16 = 0x13e;

pub const BTN_DPAD_UP: u16 = 0x220;

pub const BTN_DPAD_DOWN: u16 = 0x221;

pub const BTN_DPAD_LEFT: u16 = 0x222;

pub const BTN_DPAD_RIGHT: u16 = 0x223;

pub const ABS_X: u16 = 0x00;

pub const ABS_Y: u16 = 0x01;

pub const ABS_RX: u16 = 0x03;

pub const ABS_RY: u16 = 0x04;

/// Effect type of a rumble effect.
pub const FF_RUMBLE: u16 = 0x50;

/// Number of effects a device may hold at most.
pub const FF_MAX_EFFECTS: u32 = 0x60;

/// Control code of a request to upload an effect.
pub const UI_FF_UPLOAD: u16 = 1;

/// Control code of a request to erase an effect.
pub const UI_FF_ERASE: u16 = 2;

/// Bus type announced for the device.
pub const BUS_USB: u16 = 0x03;

} // verus!
