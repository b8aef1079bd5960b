//! The error codes of the bus driver.

use vstd::prelude::*;

verus! {

/// The driver reports success.
pub const VIGEM_ERROR_NONE: u32 = 0x2000_0000;

pub const VIGEM_ERROR_BUS_NOT_FOUND: u32 = 0xE000_0001;

pub const VIGEM_ERROR_NO_FREE_SLOT: u32 = 0xE000_0002;

pub const VIGEM_ERROR_INVALID_TARGET: u32 = 0xE000_0003;

pub const VIGEM_ERROR_REMOVAL_FAILED: u32 = 0xE000_0004;

pub const VIGEM_ERROR_ALREADY_CONNECTED: u32 = 0xE000_0005;

pub const VIGEM_ERROR_TARGET_UNINITIALIZED: u32 = 0xE000_0006;

pub const VIGEM_ERROR_TARGET_NOT_PLUGGED_IN: u32 = 0xE000_0007;

pub const VIGEM_ERROR_BUS_VERSION_MISMATCH: u32 = 0xE000_0008;

pub const VIGEM_ERROR_BUS_ACCESS_FAILED: u32 = 0xE000_0009;

pub const VIGEM_ERROR_CALLBACK_ALREADY_REGISTERED: u32 = 0xE000_0010;

pub const VIGEM_ERROR_CALLBACK_NOT_FOUND: u32 = 0xE000_0011;

pub const VIGEM_ERROR_BUS_ALREADY_CONNECTED: u32 = 0xE000_0012;

pub const VIGEM_ERROR_BUS_INVALID_HANDLE: u32 = 0xE000_0013;

pub const VIGEM_ERROR_XUSB_USERINDEX_OUT_OF_RANGE: u32 = 0xE000_0014;

pub const VIGEM_ERROR_INVALID_PARAMETER: u32 = 0xE000_0015;

pub const VIGEM_ERROR_NOT_SUPPORTED: u32 = 0xE000_0016;

/// What the driver can object to.
#[derive(Debug, PartialEq, Eq)]
pub enum Error {
    BusNotFound,
    NoFreeSlot,
    InvalidTarget,
    RemovalFailed,
    AlreadyConnected,
    TargetUninitialized,
    TargetNotPluggedIn,
    BusVersionMismatch,
    BusAccessFailed,
    CallbackAlreadyRegistered,
    CallbackNotFound,
    BusAlreadyConnected,
    BusInvalidHandle,
    XUSBUserIndexOutOfRange,
    InvalidParameter,
    NotSupported,
    PlugInError(Box<Error>, Box<Error>),
    Unknown,
}

/// The error that a code of the driver stands for: none for the code of
/// success, and the unknown error for a code that the driver does not
/// document.
pub open spec fn error_of_code(code: u32) -> Option<Error> {
    if code == VIGEM_ERROR_NONE {
        None
    } else if code == VIGEM_ERROR_BUS_NOT_FOUND {
        Some(Error::BusNotFound)
    } else if code == VIGEM_ERROR_NO_FREE_SLOT {
        Some(Error::NoFreeSlot)
    } else if code == VIGEM_ERROR_INVALID_TARGET {
        Some(Error::InvalidTarget)
    } else if code == VIGEM_ERROR_REMOVAL_FAILED {
        Some(Error::RemovalFailed)
    } else if code == VIGEM_ERROR_ALREADY_CONNECTED {
        Some(Error::AlreadyConnected)
    } else if code == VIGEM_ERROR_TARGET_UNINITIALIZED {
        Some(Error::TargetUninitialized)
    } else if code == VIGEM_ERROR_TARGET_NOT_PLUGGED_IN {
        Some(Error::TargetNotPluggedIn)
    } else if code == VIGEM_ERROR_BUS_VERSION_MISMATCH {
        Some(Error::BusVersionMismatch)
    } else if code == VIGEM_ERROR_BUS_ACCESS_FAILED {
        Some(Error::BusAccessFailed)
    } else if code == VIGEM_ERROR_CALLBACK_ALREADY_REGISTERED {
        Some(Error::CallbackAlreadyRegistered)
    } else if code == VIGEM_ERROR_CALLBACK_NOT_FOUND {
        Some(Error::CallbackNotFound)
    } else if code == VIGEM_ERROR_BUS_ALREADY_CONNECTED {
        Some(Error::BusAlreadyConnected)
    } else if code == VIGEM_ERROR_BUS_INVALID_HANDLE {
        Some(Error::BusInvalidHandle)
    } else if code == VIGEM_ERROR_XUSB_USERINDEX_OUT_OF_RANGE {
        Some(Error::XUSBUserIndexOutOfRange)
    } else if code == VIGEM_ERROR_INVALID_PARAMETER {
        Some(Error::InvalidParameter)
    } else if code == VIGEM_ERROR_NOT_SUPPORTED {
        Some(Error::NotSupported)
    } else {
        Some(Error::Unknown)
    }
}

/// A value that names an outcome of the driver.
pub trait ClientErrorConvertable {
    /// The error that the value stands for, if it stands for one.
    spec fn error(&self) -> Option<Error>;

    /// Gives the error that the value stands for, if it stands for one.
    fn to_error(&self) -> (error: Option<Error>)
        ensures
            error == self.error(),
    ;
}

impl ClientErrorConvertable for u32 {
    open spec fn error(&self) -> Option<Error> {
        error_of_code(*self)
    }

    fn to_error(&self) -> (error: Option<Error>) {
        let code: u32 = *self;
        if code == VIGEM_ERROR_NONE {
            None
        } else if code == VIGEM_ERROR_BUS_NOT_FOUND {
            Some(Error::BusNotFound)
        } else if code == VIGEM_ERROR_NO_FREE_SLOT {
            Some(Error::NoFreeSlot)
        } else if code == VIGEM_ERROR_INVALID_TARGET {
            Some(Error::InvalidTarget)
        } else if code == VIGEM_ERROR_REMOVAL_FAILED {
            Some(Error::RemovalFailed)
        } else if code == VIGEM_ERROR_ALREADY_CONNECTED {
            Some(Error::AlreadyConnected)
        } else if code == VIGEM_ERROR_TARGET_UNINITIALIZED {
            Some(Error::TargetUninitialized)
        } else if code == VIGEM_ERROR_TARGET_NOT_PLUGGED_IN {
            Some(Error::TargetNotPluggedIn)
        } else if code == VIGEM_ERROR_BUS_VERSION_MISMATCH {
            Some(Error::BusVersionMismatch)
        } else if code == VIGEM_ERROR_BUS_ACCESS_FAILED {
            Some(Error::BusAccessFailed)
        } else if code == VIGEM_ERROR_CALLBACK_ALREADY_REGISTERED {
            Some(Error::CallbackAlreadyRegistered)
        } else if code == VIGEM_ERROR_CALLBACK_NOT_FOUND {
            Some(Error::CallbackNotFound)
        } else if code == VIGEM_ERROR_BUS_ALREADY_CONNECTED {
            Some(Error::BusAlreadyConnected)
        } else if code == VIGEM_ERROR_BUS_INVALID_HANDLE {
            Some(Error::BusInvalidHandle)
        } else if code == VIGEM_ERROR_XUSB_USERINDEX_OUT_OF_RANGE {
            Some(Error::XUSBUserIndexOutOfRange)
        } else if code == VIGEM_ERROR_INVALID_PARAMETER {
            Some(Error::InvalidParameter)
        } else if code == VIGEM_ERROR_NOT_SUPPORTED {
            Some(Error::NotSupported)
        } else {
            Some(Error::Unknown)
        }
    }
}

/// The outcome that a code of the driver stands for: success for the code
/// of success, and for every other code the error it stands for.
pub open spec fn outcome_of_code(code: u32) -> Result<(), Error> {
    match error_of_code(code) {
        None => Ok(()),
        Some(e) => Err(e),
    }
}

/// Turns a code of the driver into the outcome of the call that gave it.
pub fn check(code: u32) -> (outcome: Result<(), Error>)
    ensures
        outcome == outcome_of_code(code),
{
    match code.to_error() {
        None => Ok(()),
        Some(e) => Err(e),
    }
}

} // verus!
