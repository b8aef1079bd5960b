//! The values exchanged with a consumer of the virtual controller.

use vstd::prelude::*;

verus! {

/// A digital button of the virtual controller.
#[derive(Debug, Clone, Copy, PartialEq, Eq, Structural)]
pub enum Button {
    DpadDown,
    DpadUp,
    DpadLeft,
    DpadRight,
    North,
    South,
    West,
    East,
    Start,
    Select,
    TriggerLeft,
    TriggerRight,
    TriggerLeft2,
    TriggerRight2,
    ThumbStickLeft,
    ThumbStickRight,
}

/// One of the two analog sticks.
#[derive(Debug, Clone, Copy, PartialEq, Eq, Structural)]
pub enum ThumbStick {
    Left,
    Right,
}

/// An input submitted to the virtual controller.
///
/// A stick position is given in axis units: the coordinate of the stick,
/// a fraction between -1 and 1, scaled by the axis maximum and truncated
/// toward zero.
#[derive(Debug, Clone, Copy, PartialEq, Eq, Structural)]
pub enum Input {
    Press(Button),
    Release(Button),
    Move { thumb_stick: ThumbStick, x: i32, y: i32 },
}

/// What the device hands back to its consumer.
#[derive(Debug, Clone, Copy, PartialEq, Eq, Structural)]
pub enum Output {
    /// Nothing is available.
    Nothing,
    /// Something was decoded that has no representation here.
    Unsupported,
    /// Magnitudes for the two rumble motors.
    Rumble { large_motor: u16, small_motor: u16 },
}

/// The ways an operation on the bus or on a device can fail.
#[derive(Debug, Clone, PartialEq, Eq)]
pub enum Error {
    /// The caller lacks the rights to access the device node.
    PermissionDenied,
    /// The operating system refused a step; the payload is its error number.
    Internal(i32),
    /// The protocol was violated; the payload describes how.
    Unknown(String),
}

/// An error as contracts speak of it: the text of a protocol violation is
/// taken as the sequence of its characters.
pub enum ErrorView {
    PermissionDenied,
    Internal(i32),
    Unknown(Seq<char>),
}

impl View for Error {
    type V = ErrorView;

    open spec fn view(&self) -> ErrorView {
        match self {
            Error::PermissionDenied => ErrorView::PermissionDenied,
            Error::Internal(errno) => ErrorView::Internal(*errno),
            Error::Unknown(text) => ErrorView::Unknown(text@),
        }
    }
}

/// Error number the operating system reports for insufficient access rights.
pub const EACCES: i32 = 13;

/// Error number the operating system reports when a non-blocking operation
/// has nothing to do yet.
pub const EAGAIN: i32 = 11;

/// The error that stands for a failed system call with error number `errno`.
pub open spec fn error_of_errno(errno: i32) -> Error {
    if errno == EACCES {
        Error::PermissionDenied
    } else {
        Error::Internal(errno)
    }
}

impl Error {
    /// Classifies the error number of a failed system call: missing access
    /// rights are told apart from every other failure.
    pub fn from_errno(errno: i32) -> (e: Error)
        ensures
            e == error_of_errno(errno),
    {
        if errno == EACCES {
            Error::PermissionDenied
        } else {
            Error::Internal(errno)
        }
    }
}

/// Carries the outcome of a system call, its failure given by error number,
/// over to the library's error type.
pub fn map_errno<T>(result: Result<T, i32>) -> (mapped: Result<T, Error>)
    ensures
        match result {
            Ok(v) => mapped == Ok::<T, Error>(v),
            Err(errno) => mapped == Err::<T, Error>(error_of_errno(errno)),
        },
{
    match result {
        Ok(v) => Ok(v),
        Err(errno) => Err(Error::from_errno(errno)),
    }
}

/// `nix::errno::Errno`, carried through as it is: nothing is known here of
/// what a value of it holds.
#[verifier::external_type_specification]
#[verifier::external_body]
pub struct ExErrno(nix::errno::Errno);

/// The number that the operating system knows the error `e` by: what the
/// cast of a `nix::errno::Errno` to `i32` gives.
pub uninterp spec fn errno_code(e: nix::errno::Errno) -> i32;

/// The cast of a `nix::errno::Errno` to `i32`: the number that the
/// operating system knows the error by. The cast depends on the error
/// alone; nothing is claimed of which number it is.
#[verifier::external_body]
fn errno_number(e: nix::errno::Errno) -> (errno: i32)
    ensures
        errno == errno_code(e),
{
    e as i32
}

/// Carries the outcome of a system call over to the library's error type.
/// A success is passed on; a failure becomes the error that its error
/// number stands for.
pub fn map_with_vgp_error<T>(result: Result<T, nix::errno::Errno>) -> (mapped: Result<T, Error>)
    ensures
        match result {
            Ok(v) => mapped == Ok::<T, Error>(v),
            Err(e) => mapped == Err::<T, Error>(error_of_errno(errno_code(e))),
        },
{
    match result {
        Ok(v) => Ok(v),
        Err(e) => Err(Error::from_errno(errno_number(e))),
    }
}

} // verus!
