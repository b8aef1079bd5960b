//! The errors that a consumer of this backend sees.

use vstd::prelude::*;
use crate::windows_impl::errors::{check, error_of_code, Error as DriverError};

verus! {

/// The ways an operation on the bus or on a device can fail.
#[derive(Debug, PartialEq, Eq)]
pub enum Error {
    /// The bus driver is not installed.
    VigemBusNotInstalled,
    /// The bus driver is of a version that the client cannot speak to.
    VigemBusVersionMismatch,
    /// The driver objected.
    Internal(DriverError),
    /// The protocol was violated; the payload describes how.
    Unknown(String),
}

/// An error as contracts speak of it: the text of a protocol violation is
/// taken as the sequence of its characters.
pub enum ErrorView {
    VigemBusNotInstalled,
    VigemBusVersionMismatch,
    Internal(DriverError),
    Unknown(Seq<char>),
}

impl View for Error {
    type V = ErrorView;

    open spec fn view(&self) -> ErrorView {
        match self {
            Error::VigemBusNotInstalled => ErrorView::VigemBusNotInstalled,
            Error::VigemBusVersionMismatch => ErrorView::VigemBusVersionMismatch,
            Error::Internal(e) => ErrorView::Internal(*e),
            Error::Unknown(text) => ErrorView::Unknown(text@),
        }
    }
}

/// The outcome of a call to the driver that gave `code`, as the consumer
/// sees it.
pub open spec fn outcome_of_call(code: u32) -> Result<(), Error> {
    match error_of_code(code) {
        None => Ok(()),
        Some(e) => Err(error_of_driver(e)),
    }
}

/// Turns a code of the driver into the outcome that the consumer sees.
pub fn outcome(code: u32) -> (outcome: Result<(), Error>)
    ensures
        outcome == outcome_of_call(code),
{
    map_with_vgp_error(check(code))
}

/// The error that stands for an objection of the driver: the two that the
/// user can mend are told apart from the rest.
pub open spec fn error_of_driver(e: DriverError) -> Error {
    match e {
        DriverError::BusNotFound => Error::VigemBusNotInstalled,
        DriverError::BusVersionMismatch => Error::VigemBusVersionMismatch,
        _ => Error::Internal(e),
    }
}

/// Carries the outcome of a call to the driver over to the error type that
/// the consumer sees.
pub fn map_with_vgp_error<T>(result: Result<T, DriverError>) -> (mapped: Result<T, Error>)
    ensures
        match result {
            Ok(v) => mapped == Ok::<T, Error>(v),
            Err(e) => mapped == Err::<T, Error>(error_of_driver(e)),
        },
{
    match result {
        Ok(v) => Ok(v),
        Err(e) => match e {
            DriverError::BusNotFound => Err(Error::VigemBusNotInstalled),
            DriverError::BusVersionMismatch => Err(Error::VigemBusVersionMismatch),
            _ => Err(Error::Internal(e)),
        },
    }
}

} // verus!
