//! The value types exchanged with the console, each holding as plain fields
//! what the platform's structure of the same name holds.

pub mod ascii_or_unicode_char;
pub mod color_ref;
pub mod input_record_event_type;
pub mod coord;
pub mod small_rect;
pub mod char_info;
pub mod console_cursor_info;
pub mod console_font_info;
pub mod console_screen_buffer_info;
pub mod input_record;
