//! The wording of the errors that report a violated protocol.

use vstd::prelude::*;
use crate::linux_impl::types::SafeInputEvent;

verus! {

/// `String::push` appends the character to the end of the string.
pub assume_specification[ String::push ](s: &mut String, ch: char)
    ensures
        final(s)@ == old(s)@.push(ch),
;

/// `String::push_str` appends the string slice to the end of the string.
pub assume_specification[ String::push_str ](s: &mut String, string: &str)
    ensures
        final(s)@ == old(s)@ + string@,
;

/// The character that stands for a single digit.
pub open spec fn digit(d: int) -> char
    recommends
        0 <= d < 10,
{
    if d == 0 {
        '0'
    } else if d == 1 {
        '1'
    } else if d == 2 {
        '2'
    } else if d == 3 {
        '3'
    } else if d == 4 {
        '4'
    } else if d == 5 {
        '5'
    } else if d == 6 {
        '6'
    } else if d == 7 {
        '7'
    } else if d == 8 {
        '8'
    } else {
        '9'
    }
}

/// The decimal numeral of `n`, without leading zeros.
pub open spec fn decimal(n: nat) -> Seq<char>
    decreases n,
{
    if n < 10 {
        seq![digit(n as int)]
    } else {
        decimal(n / 10).push(digit((n % 10) as int))
    }
}

/// The decimal numeral of `v`, with a minus sign where it is negative.
pub open spec fn signed_decimal(v: int) -> Seq<char> {
    if v < 0 {
        seq!['-'] + decimal((-v) as nat)
    } else {
        decimal(v as nat)
    }
}

/// What is said of a read that returned `actual` bytes where a record has
/// `expected`.
pub open spec fn size_mismatch_text(expected: nat, actual: nat) -> Seq<char> {
    "Expected to read "@ + decimal(expected) + " bytes but read "@ + decimal(actual) + " bytes."@
}

/// What is said of a force-feedback record whose value is neither "started"
/// nor "stopped".
pub open spec fn bad_feedback_text(event: SafeInputEvent) -> Seq<char> {
    "Unexpected force feedback event: type "@ + decimal(event.type_ as nat) + ", code "@ + decimal(
        event.code as nat,
    ) + ", value "@ + signed_decimal(event.value as int) + ", seconds "@ + signed_decimal(
        event.time.0 as int,
    ) + ", microseconds "@ + signed_decimal(event.time.1 as int)
}

/// What is said when the wall clock cannot be read.
pub open spec fn clock_text() -> Seq<char> {
    "Failed to read the system time."@
}

/// What is said when the worker that reads the device ended abnormally.
pub open spec fn worker_text() -> Seq<char> {
    "Child thread panicked!"@
}

/// What is said when a decoded output can no longer be handed on.
pub open spec fn closed_text() -> Seq<char> {
    "Output tx is already closed."@
}

fn digit_char(d: u8) -> (c: char)
    requires
        d < 10,
    ensures
        c == digit(d as int),
{
    if d == 0 {
        '0'
    } else if d == 1 {
        '1'
    } else if d == 2 {
        '2'
    } else if d == 3 {
        '3'
    } else if d == 4 {
        '4'
    } else if d == 5 {
        '5'
    } else if d == 6 {
        '6'
    } else if d == 7 {
        '7'
    } else if d == 8 {
        '8'
    } else {
        '9'
    }
}

/// Appends the decimal numeral of `n`.
pub fn push_decimal(s: &mut String, n: u64)
    ensures
        final(s)@ == old(s)@ + decimal(n as nat),
    decreases n,
{
    if n >= 10 {
        push_decimal(s, n / 10);
    }
    s.push(digit_char((n % 10) as u8));
    assert(s@ =~= old(s)@ + decimal(n as nat));
}

/// Appends the decimal numeral of `v`, with a minus sign where it is negative.
pub fn push_signed_decimal(s: &mut String, v: i64)
    ensures
        final(s)@ == old(s)@ + signed_decimal(v as int),
{
    if v < 0 {
        s.push('-');
        let magnitude: u64 = (-(v as i128)) as u64;
        push_decimal(s, magnitude);
        assert(s@ =~= old(s)@ + signed_decimal(v as int));
    } else {
        push_decimal(s, v as u64);
    }
}

/// Words the report of a read of the wrong size.
pub fn size_mismatch_message(expected: usize, actual: usize) -> (text: String)
    ensures
        text@ == size_mismatch_text(expected as nat, actual as nat),
{
    let mut text = String::new();
    text.push_str("Expected to read ");
    push_decimal(&mut text, expected as u64);
    text.push_str(" bytes but read ");
    push_decimal(&mut text, actual as u64);
    text.push_str(" bytes.");
    assert(text@ =~= size_mismatch_text(expected as nat, actual as nat));
    text
}

/// Words the report of a force-feedback record with an unexpected value.
pub fn bad_feedback_message(event: &SafeInputEvent) -> (text: String)
    ensures
        text@ == bad_feedback_text(*event),
{
    let mut text = String::new();
    text.push_str("Unexpected force feedback event: type ");
    push_decimal(&mut text, event.type_ as u64);
    text.push_str(", code ");
    push_decimal(&mut text, event.code as u64);
    text.push_str(", value ");
    push_signed_decimal(&mut text, event.value as i64);
    text.push_str(", seconds ");
    push_signed_decimal(&mut text, event.time.0);
    text.push_str(", microseconds ");
    push_signed_decimal(&mut text, event.time.1);
    assert(text@ =~= bad_feedback_text(*event));
    text
}

/// Words the report of a clock that cannot be read.
pub fn clock_message() -> (text: String)
    ensures
        text@ == clock_text(),
{
    "Failed to read the system time.".to_owned()
}

/// Words the report of a worker that ended abnormally.
pub fn worker_message() -> (text: String)
    ensures
        text@ == worker_text(),
{
    "Child thread panicked!".to_owned()
}

/// Words the report of an output that can no longer be handed on.
pub fn closed_message() -> (text: String)
    ensures
        text@ == closed_text(),
{
    "Output tx is already closed.".to_owned()
}

} // verus!
