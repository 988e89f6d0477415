use console_winapi::{
    AsciiOrUnicodeChar, Attributes, CharInfo, CodePage, ColorRef, ConsoleCursorInfo, Coord,
    FocusEventRecord, InputEvent, InputMode, InputRecord, InputRecordEventType, KeyEventRecord,
    MenuEventRecord, MouseEventRecord, OutputMode, SmallRect, WindowBufferSizeRecord,
    BACKGROUND_RED, CP_UTF8, ENABLE_ECHO_INPUT, ENABLE_LINE_INPUT, ENABLE_MOUSE_INPUT,
    ENABLE_PROCESSED_OUTPUT, FOCUS_EVENT, FOREGROUND_BLUE, FOREGROUND_GREEN, KEY_EVENT, MENU_EVENT,
    MOUSE_EVENT, WINDOW_BUFFER_SIZE_EVENT,
};

#[test]
fn coord_layout() {
    let a = Coord::new(1, 2);
    assert_eq!(a.x, 1);
    assert_eq!(a.y, 2);
    assert_eq!(Coord::from((1, 2)), a);
    assert_eq!(Coord::from([1, 2]), a);
}

#[test]
fn small_rect_layout() {
    let a = SmallRect::new(1, 2, 3, 4);
    assert_eq!(a.left, 1);
    assert_eq!(a.top, 2);
    assert_eq!(a.right, 3);
    assert_eq!(a.bottom, 4);
    assert_eq!(SmallRect::from(Coord::new(1, 2)..Coord::new(3, 4)), a);
    assert_eq!(SmallRect::from((1, 2)..(3, 4)), a);
    assert_eq!(SmallRect::from((1..3, 2..4)), a);
    assert_eq!(SmallRect::from([1..3, 2..4]), a);
}

#[test]
fn char_info_layout() {
    let a = CharInfo::new(0x1234, Attributes::default());
    assert_eq!(a.char.unicode_char(), 0x1234);
    let ascii = a.char.ascii_char();
    assert!(ascii == 0x34 || ascii == 0x12);
    assert_eq!(a.attributes, Attributes::default());
}

#[test]
fn console_cursor_info_layout() {
    let a = ConsoleCursorInfo::new(100, true);
    assert_eq!(a.size, 100);
    assert!(a.visible);
}

#[test]
fn cursor_info_clamped() {
    assert_eq!(ConsoleCursorInfo::new(0, true).clamped(), ConsoleCursorInfo::new(1, true));
    assert_eq!(ConsoleCursorInfo::new(250, false).clamped(), ConsoleCursorInfo::new(100, false));
    assert_eq!(ConsoleCursorInfo::new(25, true).clamped(), ConsoleCursorInfo::new(25, true));
}

#[test]
fn small_rect_width_and_height() {
    assert_eq!(Some(10), SmallRect::new(-5, 0, 5, 0).width());
    assert_eq!(None, SmallRect::new(5, 0, -5, 0).width());
    assert_eq!(Some(0), SmallRect::new(0, 0, 0, 0).width());
    assert_eq!(Some(10), SmallRect::new(0, -5, 0, 5).height());
    assert_eq!(None, SmallRect::new(0, 5, 0, -5).height());
    assert_eq!(Some(0), SmallRect::new(0, 0, 0, 0).height());
    assert_eq!(Some(65535), SmallRect::new(i16::MIN, 0, i16::MAX, 0).width());
}

#[test]
fn small_rect_size_and_area() {
    assert_eq!(Some((10, 10)), SmallRect::new(-5, -5, 5, 5).size());
    assert_eq!(None, SmallRect::new(-5, 5, 5, -5).size());
    assert_eq!(None, SmallRect::new(5, -5, -5, 5).size());
    assert_eq!(None, SmallRect::new(5, 5, -5, -5).size());
    assert_eq!(Some((0, 0)), SmallRect::new(0, 0, 0, 0).size());
    assert_eq!(Some(100), SmallRect::new(-5, -5, 5, 5).area());
    assert_eq!(None, SmallRect::new(-5, 5, 5, -5).area());
    assert_eq!(None, SmallRect::new(5, -5, -5, 5).area());
    assert_eq!(None, SmallRect::new(5, 5, -5, -5).area());
    assert_eq!(Some(0), SmallRect::new(0, 0, 0, 0).area());
    assert_eq!(Some(65535 * 65535), SmallRect::new(i16::MIN, i16::MIN, i16::MAX, i16::MAX).area());
}

#[test]
fn color_from_rgb() {
    let c = ColorRef::from_rgb([0x12, 0x34, 0x56]);
    assert_eq!(u32::from(c), 0x0012_3456);
    assert_eq!(c.red(), 0x12);
    assert_eq!(c.green(), 0x34);
    assert_eq!(c.blue(), 0x56);
    assert_eq!(c.to_rgb(), [0x12, 0x34, 0x56]);
    assert_eq!(ColorRef::from(0xFF00_FF00).to_rgb(), [0x00, 0xFF, 0x00]);
}

#[test]
fn char_from_bmp_and_astral() {
    let (hi, lo) = AsciiOrUnicodeChar::from_char('A');
    assert!(hi.is_none());
    assert_eq!(lo.unicode_char(), 0x41);
    let (hi, lo) = AsciiOrUnicodeChar::from_char('\u{1F600}');
    assert_eq!(hi.unwrap().unicode_char(), 0xD83D);
    assert_eq!(lo.unicode_char(), 0xDE00);
    let (hi, lo) = AsciiOrUnicodeChar::from_char('\u{10FFFF}');
    assert_eq!(hi.unwrap().unicode_char(), 0xDBFF);
    assert_eq!(lo.unicode_char(), 0xDFFF);
}

#[test]
fn char_try_from() {
    assert_eq!(AsciiOrUnicodeChar::try_from('\u{FFFF}'), Ok(AsciiOrUnicodeChar::from_unicode_char(0xFFFF)));
    assert_eq!(
        AsciiOrUnicodeChar::try_from('\u{10000}'),
        Err([AsciiOrUnicodeChar::from(0xD800u16), AsciiOrUnicodeChar::from(0xDC00u16)])
    );
}

#[test]
fn char_ascii_bytes() {
    let c = AsciiOrUnicodeChar::from_ascii_char(b'!');
    let unit = u16::from(c);
    assert!(unit == 0x21 || unit == 0x2100);
    assert_eq!(c.ascii_char(), b'!');
}

#[test]
fn event_type_names() {
    assert_eq!(InputRecordEventType::from(KEY_EVENT).name(), Some("KEY_EVENT"));
    assert_eq!(InputRecordEventType::from(FOCUS_EVENT).name(), Some("FOCUS_EVENT"));
    assert_eq!(InputRecordEventType::from(0x0020).name(), None);
    assert_eq!(u16::from(InputRecordEventType::from(0x0020)), 0x0020);
}

#[test]
fn input_record_accessors_check_tag() {
    let key = KeyEventRecord { key_down: true, repeat_count: 1, virtual_key_code: 0x41, virtual_scan_code: 0x1E, char: AsciiOrUnicodeChar::from(0x61u16), control_key_state: 0 };
    let r = InputRecord::from(key);
    assert_eq!(u16::from(r.event_type()), KEY_EVENT);
    assert_eq!(r.as_key_event(), Some(&key));
    assert!(r.as_mouse_event().is_none());
    assert!(r.as_focus_event().is_none());

    let mouse = MouseEventRecord { mouse_position: Coord::new(3, 4), button_state: 1, control_key_state: 0, event_flags: 0 };
    let r = InputRecord::from(mouse);
    assert_eq!(u16::from(r.event_type()), MOUSE_EVENT);
    assert_eq!(r.as_mouse_event(), Some(&mouse));
    assert!(r.as_key_event().is_none());

    let size = WindowBufferSizeRecord { size: Coord::new(80, 25) };
    let r = InputRecord::from(size);
    assert_eq!(u16::from(r.event_type()), WINDOW_BUFFER_SIZE_EVENT);
    assert_eq!(r.as_window_buffer_size_event(), Some(&size));
    assert!(r.as_menu_event().is_none());

    let menu = MenuEventRecord { command_id: 7 };
    let r = InputRecord::from(menu);
    assert_eq!(u16::from(r.event_type()), MENU_EVENT);
    assert_eq!(r.as_menu_event(), Some(&menu));

    let focus = FocusEventRecord { set_focus: true };
    let r = InputRecord::from(focus);
    assert_eq!(u16::from(r.event_type()), FOCUS_EVENT);
    assert_eq!(r.as_focus_event(), Some(&focus));
    assert!(r.as_window_buffer_size_event().is_none());
}

#[test]
fn input_record_unknown_kinds() {
    assert!(InputRecord::unknown(InputRecordEventType::from(KEY_EVENT)).is_none());
    let r = InputRecord::unknown(InputRecordEventType::from(0x0040)).unwrap();
    assert_eq!(u16::from(r.event_type()), 0x0040);
    assert!(r.as_key_event().is_none());
    let d = InputRecord::default();
    assert_eq!(u16::from(d.event_type()), 0);
    assert!(d.as_key_event().is_none() && d.as_mouse_event().is_none() && d.as_focus_event().is_none());
    let _ = InputEvent::Other(0x40);
}

#[test]
fn attribute_operators() {
    let a = Attributes::from(FOREGROUND_BLUE) | Attributes::from(FOREGROUND_GREEN);
    assert_eq!(u16::from(a), 0x0003);
    assert_eq!(u16::from(a & Attributes::from(FOREGROUND_GREEN)), 0x0002);
    assert_eq!(u16::from(a ^ Attributes::from(FOREGROUND_BLUE)), 0x0002);
    assert_eq!(u16::from(!a), 0xFFFC);
    let mut b = a;
    b |= Attributes::from(BACKGROUND_RED);
    assert_eq!(u16::from(b), 0x0043);
    b &= Attributes::from(BACKGROUND_RED);
    assert_eq!(u16::from(b), 0x0040);
    b ^= Attributes::from(BACKGROUND_RED);
    assert_eq!(u16::from(b), 0);
}

#[test]
fn mode_operators() {
    let m = InputMode::from(ENABLE_ECHO_INPUT) | InputMode::from(ENABLE_LINE_INPUT);
    assert_eq!(u32::from(m), 0x0006);
    let mut m = m;
    m |= InputMode::from(ENABLE_MOUSE_INPUT);
    assert_eq!(u32::from(m), 0x0016);
    m &= !InputMode::from(ENABLE_ECHO_INPUT);
    assert_eq!(u32::from(m), 0x0012);
    let o = OutputMode::from(ENABLE_PROCESSED_OUTPUT) ^ OutputMode::from(0x3);
    assert_eq!(u32::from(o), 0x0002);
}

#[test]
fn code_page_names() {
    assert_eq!(CodePage::from(CP_UTF8).name(), Some("UTF8"));
    assert_eq!(CodePage::from(437).name(), Some("IBM437"));
    assert_eq!(CodePage::from(1252).name(), None);
    assert_eq!(u32::from(CodePage::from(1252)), 1252);
}
