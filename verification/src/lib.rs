//! Protocol core of a virtual game controller.
//!
//! The crate holds the part of a virtual gamepad that can be reasoned about
//! without touching the operating system: the capability plan that registers
//! the device, the binary layout of the records exchanged with the kernel's
//! input-injection facility, the registry of uploaded force-feedback effects,
//! and the decisions taken for every record read back from the device.
//! For the backend that leaves the emulation to a bus driver it holds the
//! report sent to the driver, the queue that orders the driver's
//! notifications, and the meaning of the driver's error codes.
//! Callers perform the system calls and hand the results in as plain values.

pub mod api;
pub mod linux_impl;
pub mod windows_impl;

pub use api::{
    map_errno, map_with_vgp_error, Button, Error, ErrorView, Input, Output, ThumbStick,
};
pub use linux_impl::shared_impl::{Request, SetupStep};
pub use linux_impl::sync_impl::{Bus, Device};
pub use linux_impl::types::{
    AbsSetup, ForceFeedbackErase, ForceFeedbackUpload, InputEvent, SafeAbsSetup, SafeInputEvent,
    SafeSetup, Setup, VgpDeviceForceFeedback, VgpDeviceForceFeedbackReplay,
    VgpDeviceForceFeedbackType,
};
