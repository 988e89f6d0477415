//! Checks made on the arguments of screen buffer reads and writes before any
//! call, and the reading of results that signal failure by a zero value.

use vstd::prelude::*;
use crate::error::{ConsoleError, InvalidInput};
use crate::values::coord::Coord;

verus! {

/// The verdict on a rectangle of `buffer_size` cells, read or written from
/// `buffer_coord`, in a buffer of `buffer_len` cells: the first rule broken,
/// in the order checked, or success.
pub open spec fn cell_buffer_verdict(buffer_len: nat, buffer_size: Coord, buffer_coord: Coord) -> Result<
    (),
    ConsoleError,
> {
    if buffer_coord.x > buffer_size.x {
        Err(ConsoleError::InvalidInput(InvalidInput::CoordXBeyondSize))
    } else if buffer_coord.y > buffer_size.y {
        Err(ConsoleError::InvalidInput(InvalidInput::CoordYBeyondSize))
    } else if buffer_size.x < 0 {
        Err(ConsoleError::InvalidInput(InvalidInput::NegativeWidth))
    } else if buffer_size.y < 0 {
        Err(ConsoleError::InvalidInput(InvalidInput::NegativeHeight))
    } else if buffer_size.x * buffer_size.y > usize::MAX {
        Err(ConsoleError::InvalidInput(InvalidInput::SizeOverflow))
    } else if buffer_size.x * buffer_size.y > buffer_len {
        Err(ConsoleError::InvalidInput(InvalidInput::BufferTooSmall))
    } else {
        Ok(())
    }
}

/// Checks a rectangle of cells against the buffer that holds it, before a
/// read or write of screen buffer cells: the coordinate must lie within the
/// size, the size must not be negative, and the buffer must hold the size.
pub fn check_cell_buffer(buffer_len: usize, buffer_size: Coord, buffer_coord: Coord) -> (r: Result<
    (),
    ConsoleError,
>)
    ensures
        r == cell_buffer_verdict(buffer_len as nat, buffer_size, buffer_coord),
{
    if buffer_coord.x > buffer_size.x {
        return Err(ConsoleError::InvalidInput(InvalidInput::CoordXBeyondSize));
    }
    if buffer_coord.y > buffer_size.y {
        return Err(ConsoleError::InvalidInput(InvalidInput::CoordYBeyondSize));
    }
    if buffer_size.x < 0 {
        return Err(ConsoleError::InvalidInput(InvalidInput::NegativeWidth));
    }
    if buffer_size.y < 0 {
        return Err(ConsoleError::InvalidInput(InvalidInput::NegativeHeight));
    }
    let w = buffer_size.x as usize;
    let h = buffer_size.y as usize;
    let total = match w.checked_mul(h) {
        Some(total) => total,
        None => return Err(ConsoleError::InvalidInput(InvalidInput::SizeOverflow)),
    };
    if total > buffer_len {
        return Err(ConsoleError::InvalidInput(InvalidInput::BufferTooSmall));
    }
    Ok(())
}

/// The single code unit of `c`, for calls that take one; characters above
/// U+FFFF need two and are rejected.
pub fn character_unit(c: char) -> (r: Result<u16, ConsoleError>)
    ensures
        (c as u32) <= 0xFFFF ==> r == Ok::<u16, ConsoleError>(c as u32 as u16),
        (c as u32) > 0xFFFF ==> r == Err::<u16, ConsoleError>(
            ConsoleError::InvalidInput(InvalidInput::CharacterBeyondUnit),
        ),
{
    let v = c as u32;
    if v <= 0xFFFF {
        Ok(v as u16)
    } else {
        Err(ConsoleError::InvalidInput(InvalidInput::CharacterBeyondUnit))
    }
}

/// For calls that return a coordinate and signal failure by `(0, 0)`: the
/// coordinate, or the last error.
pub fn coord_or_last_error(c: Coord, last_error: u32) -> (r: Result<Coord, ConsoleError>)
    ensures
        c.x == 0 && c.y == 0 ==> r == Err::<Coord, ConsoleError>(ConsoleError::Os(last_error)),
        !(c.x == 0 && c.y == 0) ==> r == Ok::<Coord, ConsoleError>(c),
{
    if c.x == 0 && c.y == 0 {
        Err(ConsoleError::Os(last_error))
    } else {
        Ok(c)
    }
}

} // verus!
