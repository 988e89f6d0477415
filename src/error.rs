//! Translation of the platform's status reports into results.
//!
//! Most console calls report failure with a zero return value and leave the
//! reason in the thread's last-error slot. A few report success even when they
//! failed, so for them the slot is cleared before the call and read after it,
//! whatever the call returned.

use vstd::prelude::*;

verus! {

/// The last-error value that means no error.
pub const ERROR_SUCCESS: u32 = 0;

/// The last-error value for a key that does not exist, such as an unknown alias.
pub const ERROR_GEN_FAILURE: u32 = 31;

/// The last-error value for a caller's buffer that is too small.
pub const ERROR_INSUFFICIENT_BUFFER: u32 = 122;

/// An argument rejected before any call is made.
#[derive(Clone, Copy, Debug, PartialEq, Eq, Structural)]
pub enum InvalidInput {
    /// A character above U+FFFF where a single code unit is needed.
    CharacterBeyondUnit,
    /// A buffer coordinate whose x lies beyond the buffer's width.
    CoordXBeyondSize,
    /// A buffer coordinate whose y lies beyond the buffer's height.
    CoordYBeyondSize,
    /// A buffer size with a negative width.
    NegativeWidth,
    /// A buffer size with a negative height.
    NegativeHeight,
    /// A buffer size whose cell count does not fit in `usize`.
    SizeOverflow,
    /// A buffer size larger than the buffer given.
    BufferTooSmall,
}

impl InvalidInput {
    /// A description of the rejected argument.
    pub fn message(&self) -> (r: &'static str)
        ensures
            *self == InvalidInput::CharacterBeyondUnit ==> r@
                == "character exceeds maximum codepoint U+FFFF"@,
            *self == InvalidInput::CoordXBeyondSize ==> r@ == "buffer_coord.X > buffer_size.X"@,
            *self == InvalidInput::CoordYBeyondSize ==> r@ == "buffer_coord.Y > buffer_size.Y"@,
            *self == InvalidInput::NegativeWidth ==> r@ == "buffer_size.X is negative"@,
            *self == InvalidInput::NegativeHeight ==> r@ == "buffer_size.Y is negative"@,
            *self == InvalidInput::SizeOverflow ==> r@ == "buffer_size.X * Y is out of usize bounds"@,
            *self == InvalidInput::BufferTooSmall ==> r@ == "buffer_size is larger than buffer"@,
    {
        match self {
            InvalidInput::CharacterBeyondUnit => "character exceeds maximum codepoint U+FFFF",
            InvalidInput::CoordXBeyondSize => "buffer_coord.X > buffer_size.X",
            InvalidInput::CoordYBeyondSize => "buffer_coord.Y > buffer_size.Y",
            InvalidInput::NegativeWidth => "buffer_size.X is negative",
            InvalidInput::NegativeHeight => "buffer_size.Y is negative",
            InvalidInput::SizeOverflow => "buffer_size.X * Y is out of usize bounds",
            InvalidInput::BufferTooSmall => "buffer_size is larger than buffer",
        }
    }
}

/// Why a console operation failed.
#[derive(Clone, Copy, Debug, PartialEq, Eq, Structural)]
pub enum ConsoleError {
    /// The platform failed, with this last-error code.
    Os(u32),
    /// An argument was rejected before any call.
    InvalidInput(InvalidInput),
}

impl ConsoleError {
    /// The platform's error code, where the platform reported the failure.
    pub fn raw_os_error(&self) -> (r: Option<u32>)
        ensures
            r == match *self {
                ConsoleError::Os(code) => Some(code),
                ConsoleError::InvalidInput(_) => None::<u32>,
            },
    {
        match self {
            ConsoleError::Os(code) => Some(*code),
            ConsoleError::InvalidInput(_) => None,
        }
    }
}

/// The usual convention: a zero return value is failure, with the reason in
/// the last-error slot; any other value is success.
pub fn succeeded_to_result(succeeded: i32, last_error: u32) -> (r: Result<(), ConsoleError>)
    ensures
        succeeded != 0 ==> r is Ok,
        succeeded == 0 ==> r == Err::<(), ConsoleError>(ConsoleError::Os(last_error)),
{
    if succeeded == 0 {
        Err(ConsoleError::Os(last_error))
    } else {
        Ok(())
    }
}

/// The same convention for calls that return a value: zero is failure, any
/// other value is the result.
pub fn nonzero_or_last_error(value: u32, last_error: u32) -> (r: Result<u32, ConsoleError>)
    ensures
        value != 0 ==> r == Ok::<u32, ConsoleError>(value),
        value == 0 ==> r == Err::<u32, ConsoleError>(ConsoleError::Os(last_error)),
{
    if value == 0 {
        Err(ConsoleError::Os(last_error))
    } else {
        Ok(value)
    }
}

/// Success exactly when the last-error slot reads [`ERROR_SUCCESS`].
pub fn last_error_unless_success(last_error: u32) -> (r: Result<(), ConsoleError>)
    ensures
        last_error == ERROR_SUCCESS ==> r is Ok,
        last_error != ERROR_SUCCESS ==> r == Err::<(), ConsoleError>(ConsoleError::Os(last_error)),
{
    if last_error == ERROR_SUCCESS {
        Ok(())
    } else {
        Err(ConsoleError::Os(last_error))
    }
}

/// The double check for calls whose return value cannot be trusted: the slot
/// was cleared before the call, and `value` is kept only if it still reads
/// [`ERROR_SUCCESS`] after it.
pub fn wrap_last_error<R>(value: R, last_error: u32) -> (r: Result<R, ConsoleError>)
    ensures
        last_error == ERROR_SUCCESS ==> r == Ok::<R, ConsoleError>(value),
        last_error != ERROR_SUCCESS ==> r == Err::<R, ConsoleError>(ConsoleError::Os(last_error)),
{
    match last_error_unless_success(last_error) {
        Ok(()) => Ok(value),
        Err(e) => Err(e),
    }
}

} // verus!
