use console_winapi::{
    character_unit, check_cell_buffer, coord_or_last_error, last_error_unless_success,
    nonzero_or_last_error, succeeded_to_result, wrap_last_error, ConsoleError, Coord,
    InvalidInput, ERROR_GEN_FAILURE, ERROR_INSUFFICIENT_BUFFER,
};

#[test]
fn succeeded_to_result_zero_is_failure() {
    assert_eq!(succeeded_to_result(1, 5), Ok(()));
    assert_eq!(succeeded_to_result(-1, 5), Ok(()));
    assert_eq!(succeeded_to_result(0, 5), Err(ConsoleError::Os(5)));
}

#[test]
fn nonzero_value_or_error() {
    assert_eq!(nonzero_or_last_error(65001, 6), Ok(65001));
    assert_eq!(nonzero_or_last_error(0, 6), Err(ConsoleError::Os(6)));
}

#[test]
fn last_error_slot_checks() {
    assert_eq!(last_error_unless_success(0), Ok(()));
    assert_eq!(last_error_unless_success(ERROR_GEN_FAILURE), Err(ConsoleError::Os(31)));
    assert_eq!(wrap_last_error(24u32, 0), Ok(24));
    assert_eq!(wrap_last_error(24u32, ERROR_INSUFFICIENT_BUFFER), Err(ConsoleError::Os(122)));
    assert_eq!(ConsoleError::Os(122).raw_os_error(), Some(122));
    assert_eq!(ConsoleError::InvalidInput(InvalidInput::BufferTooSmall).raw_os_error(), None);
}

#[test]
fn cell_buffer_checks() {
    let size = Coord::new(4, 3);
    assert_eq!(check_cell_buffer(12, size, Coord::new(0, 0)), Ok(()));
    assert_eq!(check_cell_buffer(12, size, Coord::new(4, 3)), Ok(()));
    assert_eq!(check_cell_buffer(12, size, Coord::new(5, 0)), Err(ConsoleError::InvalidInput(InvalidInput::CoordXBeyondSize)));
    assert_eq!(check_cell_buffer(12, size, Coord::new(0, 4)), Err(ConsoleError::InvalidInput(InvalidInput::CoordYBeyondSize)));
    assert_eq!(check_cell_buffer(12, Coord::new(-1, 3), Coord::new(-2, 0)), Err(ConsoleError::InvalidInput(InvalidInput::NegativeWidth)));
    assert_eq!(check_cell_buffer(12, Coord::new(4, -1), Coord::new(0, -2)), Err(ConsoleError::InvalidInput(InvalidInput::NegativeHeight)));
    assert_eq!(check_cell_buffer(11, size, Coord::new(0, 0)), Err(ConsoleError::InvalidInput(InvalidInput::BufferTooSmall)));
    assert_eq!(check_cell_buffer(usize::MAX, Coord::new(i16::MAX, i16::MAX), Coord::new(0, 0)), Ok(()));
}

#[test]
fn invalid_input_messages() {
    assert_eq!(InvalidInput::CoordXBeyondSize.message(), "buffer_coord.X > buffer_size.X");
    assert_eq!(InvalidInput::SizeOverflow.message(), "buffer_size.X * Y is out of usize bounds");
    assert!(InvalidInput::CharacterBeyondUnit.message().contains("U+FFFF"));
}

#[test]
fn character_units() {
    assert_eq!(character_unit('A'), Ok(0x41));
    assert_eq!(character_unit('\u{FFFF}'), Ok(0xFFFF));
    assert_eq!(character_unit('\u{10000}'), Err(ConsoleError::InvalidInput(InvalidInput::CharacterBeyondUnit)));
}

#[test]
fn zero_coord_is_failure() {
    assert_eq!(coord_or_last_error(Coord::new(0, 0), 6), Err(ConsoleError::Os(6)));
    assert_eq!(coord_or_last_error(Coord::new(8, 16), 6), Ok(Coord::new(8, 16)));
    assert_eq!(coord_or_last_error(Coord::new(0, 16), 6), Ok(Coord::new(0, 16)));
}
