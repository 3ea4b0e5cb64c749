//! Arguments as the boundary receives them, and the checks on them.

use crate::error::ErrorCode;
use vstd::prelude::*;

verus! {

/// An argument as it was read at the boundary.
#[derive(Debug)]
pub enum Arg<T> {
    /// Nothing was passed.
    Null,
    /// What was passed could not be read: its bytes are no text.
    Malformed,
    /// What was passed was read and then turned down by the owner of its type:
    /// an identifier that is not valid, a document that does not have the shape
    /// of its type.
    Rejected,
    /// A value.
    Given(T),
}

/// A list that was passed as a document: its text and the number of its items.
#[derive(Debug)]
pub struct Listing {
    pub text: String,
    pub len: usize,
}

/// The value of an argument that may be left out.
pub open spec fn optional<T>(arg: Arg<T>) -> Option<T> {
    match arg {
        Arg::Given(value) => Some(value),
        _ => None,
    }
}

/// Whether an argument that must be a text with something in it is none.
pub open spec fn text_fault(arg: Arg<String>) -> bool {
    match arg {
        Arg::Given(text) => text@.len() == 0,
        _ => true,
    }
}

/// Whether an argument that must be a value is none.
pub open spec fn value_fault<T>(arg: Arg<T>) -> bool {
    !(arg is Given)
}

/// Whether an argument that may be left out was passed and is unusable.
pub open spec fn optional_fault<T>(arg: Arg<T>) -> bool {
    arg is Malformed || arg is Rejected
}

/// The number that a signed argument stands for when `-1` means that none is given.
pub open spec fn spec_opt_u64(value: i64) -> Option<u64> {
    if value == -1 {
        None
    } else if value >= 0 {
        Some(value as u64)
    } else {
        Some((value + 0x1_0000_0000_0000_0000) as u64)
    }
}

/// The timeout that a signed argument stands for when `-1` means that none is given.
pub open spec fn spec_opt_u32(value: i32) -> Option<u32> {
    if value == -1 {
        None
    } else if value >= 0 {
        Some(value as u32)
    } else {
        Some((value + 0x1_0000_0000) as u32)
    }
}

/// Takes a text that must be there and must not be empty.
pub fn check_useful_c_str(arg: Arg<String>, code: ErrorCode) -> (checked: Result<String, ErrorCode>)
    ensures
        checked == if text_fault(arg) {
            Err::<String, ErrorCode>(code)
        } else {
            Ok(arg->0)
        },
{
    match arg {
        Arg::Given(text) => {
            if text.as_str().is_empty() {
                Err(code)
            } else {
                Ok(text)
            }
        },
        _ => Err(code),
    }
}

/// Takes a text that must be there and may be empty.
pub fn check_useful_c_str_empty_accepted(arg: Arg<String>, code: ErrorCode) -> (checked: Result<
    String,
    ErrorCode,
>)
    ensures
        checked == if value_fault(arg) {
            Err::<String, ErrorCode>(code)
        } else {
            Ok(arg->0)
        },
{
    match arg {
        Arg::Given(text) => Ok(text),
        _ => Err(code),
    }
}

/// Takes a value that may be left out.
pub fn check_useful_opt<T>(arg: Arg<T>, code: ErrorCode) -> (checked: Result<Option<T>, ErrorCode>)
    ensures
        checked == if optional_fault(arg) {
            Err::<Option<T>, ErrorCode>(code)
        } else {
            Ok(optional(arg))
        },
{
    match arg {
        Arg::Given(value) => Ok(Some(value)),
        Arg::Null => Ok(None),
        _ => Err(code),
    }
}

/// Takes a value that must be there.
pub fn check_useful<T>(arg: Arg<T>, code: ErrorCode) -> (checked: Result<T, ErrorCode>)
    ensures
        checked == if value_fault(arg) {
            Err::<T, ErrorCode>(code)
        } else {
            Ok(arg->0)
        },
{
    match arg {
        Arg::Given(value) => Ok(value),
        _ => Err(code),
    }
}

/// Checks that a completion routine was passed.
pub fn check_useful_c_callback(passed: bool, code: ErrorCode) -> (checked: Result<(), ErrorCode>)
    ensures
        checked == if passed {
            Ok::<(), ErrorCode>(())
        } else {
            Err(code)
        },
{
    if passed {
        Ok(())
    } else {
        Err(code)
    }
}

/// Reads a signed argument in which `-1` means that no number is given. Any
/// other value is taken as the unsigned number with the same bits.
pub fn check_useful_opt_u64(value: i64) -> (number: Option<u64>)
    ensures
        number == spec_opt_u64(value),
{
    if value == -1 {
        None
    } else if value >= 0 {
        Some(value as u64)
    } else {
        Some((value as i128 + 0x1_0000_0000_0000_0000) as u64)
    }
}

/// Reads a signed timeout in which `-1` means that none is given. Any other
/// value is taken as the unsigned number with the same bits.
pub fn check_useful_opt_u32(value: i32) -> (number: Option<u32>)
    ensures
        number == spec_opt_u32(value),
{
    if value == -1 {
        None
    } else if value >= 0 {
        Some(value as u32)
    } else {
        Some((value as i64 + 0x1_0000_0000) as u32)
    }
}

} // verus!
