//! Verified building blocks for the Win32 console API: wide-text views and
//! codecs, the grow-and-retry protocol for text that the platform owns,
//! translation of the platform's status reports, argument checks, and the
//! value types exchanged with the console.
//!
//! The calls into the platform itself are made by the caller, who hands this
//! library plain values: what a call returned, what the last-error slot read.

pub mod alias;
pub mod charattrib;
pub mod codepage;
pub mod error;
pub mod fetch;
pub mod handles;
pub mod io;
pub mod mode;
mod sealed;
pub mod text;
pub mod traits;
pub mod values;

pub use alias::{alias_text, alias_values};
pub use charattrib::{
    Attributes, BACKGROUND_BLUE, BACKGROUND_GREEN, BACKGROUND_INTENSITY, BACKGROUND_RED,
    COMMON_LVB_GRID_HORIZONTAL, COMMON_LVB_GRID_LVERTICAL, COMMON_LVB_GRID_RVERTICAL,
    COMMON_LVB_LEADING_BYTE, COMMON_LVB_REVERSE_VIDEO, COMMON_LVB_TRAILING_BYTE,
    COMMON_LVB_UNDERSCORE, FOREGROUND_BLUE, FOREGROUND_GREEN, FOREGROUND_INTENSITY, FOREGROUND_RED,
};
pub use codepage::{CodePage, CP_IBM437, CP_UTF7, CP_UTF8};
pub use error::{
    last_error_unless_success, nonzero_or_last_error, succeeded_to_result, wrap_last_error,
    ConsoleError, InvalidInput, ERROR_GEN_FAILURE, ERROR_INSUFFICIENT_BUFFER, ERROR_SUCCESS,
};
pub use fetch::{buffer_bytes, dword_len, FetchStep, TextFetch, MAX_ANNOUNCED_BYTES};
pub use handles::{AsConsoleHandle, AsConsoleInputHandle, AsConsoleOutputHandle};
pub use io::{character_unit, check_cell_buffer, coord_or_last_error};
pub use mode::{
    InputMode, OutputMode, DISABLE_NEWLINE_AUTO_RETURN, ENABLE_ECHO_INPUT, ENABLE_EXTENDED_FLAGS,
    ENABLE_INSERT_MODE, ENABLE_LINE_INPUT, ENABLE_LVB_GRID_WORLDWIDE, ENABLE_MOUSE_INPUT,
    ENABLE_PROCESSED_INPUT, ENABLE_PROCESSED_OUTPUT, ENABLE_QUICK_EDIT_MODE,
    ENABLE_VIRTUAL_TERMINAL_INPUT, ENABLE_VIRTUAL_TERMINAL_PROCESSING, ENABLE_WINDOW_INPUT,
    ENABLE_WRAP_AT_EOL_OUTPUT,
};
pub use text::{strip0, widen0, TextLength, TextNsvRef, TextRef};
pub use traits::{IntoProcessId, Reserved};
pub use values::ascii_or_unicode_char::AsciiOrUnicodeChar;
pub use values::char_info::CharInfo;
pub use values::color_ref::ColorRef;
pub use values::console_cursor_info::ConsoleCursorInfo;
pub use values::console_font_info::{ConsoleFontInfo, ConsoleFontInfoEx, LF_FACESIZE};
pub use values::console_screen_buffer_info::{ConsoleScreenBufferInfo, ConsoleScreenBufferInfoEx};
pub use values::coord::Coord;
pub use values::input_record::{
    FocusEventRecord, InputEvent, InputRecord, KeyEventRecord, MenuEventRecord, MouseEventRecord,
    WindowBufferSizeRecord,
};
pub use values::input_record_event_type::{
    InputRecordEventType, FOCUS_EVENT, KEY_EVENT, MENU_EVENT, MOUSE_EVENT, WINDOW_BUFFER_SIZE_EVENT,
};
pub use values::small_rect::SmallRect;
