use console_winapi::{strip0, widen0, TextLength, TextNsvRef, TextRef};

fn units(s: &str) -> Vec<u16> {
    s.encode_utf16().collect()
}

#[test]
fn widen0_appends_terminator() {
    assert_eq!(widen0("abc"), vec![0x61, 0x62, 0x63, 0]);
    assert_eq!(widen0(""), vec![0]);
}

#[test]
fn widen0_encodes_surrogate_pairs() {
    assert_eq!(widen0("a\u{1F600}"), vec![0x61, 0xD83D, 0xDE00, 0]);
    assert_eq!(widen0("\u{FFFF}\u{10000}\u{10FFFF}"), vec![0xFFFF, 0xD800, 0xDC00, 0xDBFF, 0xDFFF, 0]);
}

#[test]
fn strip0_removes_one_terminator() {
    assert_eq!(strip0(&[1, 2, 0]), &[1, 2]);
    assert_eq!(strip0(&[1, 0, 0]), &[1, 0]);
    assert_eq!(strip0(&[1, 2]), &[1, 2]);
    assert_eq!(strip0(&[]), &[] as &[u16]);
}

#[test]
fn wide_round_trip() {
    for s in ["", "alias1target", "value=value", "h\u{e9}llo \u{1F600} \u{4E16}\u{754C}", "tail\0"] {
        let wide = widen0(s);
        let text = TextRef::from_wide0(&wide);
        assert_eq!(text.to_string(), Ok(s.to_string()));
    }
}

#[test]
fn to_string_rejects_unpaired_surrogate() {
    let bad = [0x61u16, 0xD800, 0x62];
    let text = TextRef::from_wide0(&bad);
    assert_eq!(text.to_string(), Err(bad.to_vec()));
    let lone_low = [0xDC00u16];
    assert_eq!(TextRef::from_wide0(&lone_low).to_string(), Err(vec![0xDC00]));
}

#[test]
fn text_ref_as_wchars_strips_terminator() {
    let wide = [0x41u16, 0x42, 0];
    assert_eq!(TextRef::from_wide0(&wide).as_wchars(), &[0x41, 0x42]);
}

#[test]
fn text_length_bytes_and_wchars() {
    assert_eq!(TextLength::from_bytes(10).bytes(), 10);
    assert_eq!(TextLength::from_bytes(10).wchars(), 5);
    assert_eq!(TextLength::from_bytes(11).wchars(), 6);
    assert_eq!(TextLength::from_bytes(0).wchars(), 0);
    assert_eq!(TextLength::from_bytes(1).wchars(), 1);
}

#[test]
fn nsv_decodes_entries_in_order() {
    let buffer = units("a=1\0b=2\0c=x=y\0");
    let mut nsv = TextNsvRef::new(&buffer);
    assert_eq!(nsv.next().unwrap().as_wchars(), &units("a=1")[..]);
    assert_eq!(nsv.next().unwrap().as_wchars(), &units("b=2")[..]);
    assert_eq!(nsv.next().unwrap().as_wchars(), &units("c=x=y")[..]);
    assert!(nsv.next().is_none());
    assert!(nsv.next().is_none());
    assert!(nsv.as_wchars().is_empty());
}

#[test]
fn nsv_last_entry_without_terminator() {
    let buffer = units("one\0two");
    let mut nsv = TextNsvRef::new(&buffer);
    assert_eq!(nsv.next().unwrap().to_string(), Ok("one".to_string()));
    assert_eq!(nsv.next().unwrap().to_string(), Ok("two".to_string()));
    assert!(nsv.next().is_none());
}

#[test]
fn nsv_empty_and_empty_entries() {
    let mut empty = TextNsvRef::new(&[]);
    assert!(empty.next().is_none());
    let buffer = [0u16, 0];
    let entries = TextNsvRef::new(&buffer).to_vec();
    assert_eq!(entries.len(), 2);
    assert!(entries[0].as_wchars().is_empty());
    assert!(entries[1].as_wchars().is_empty());
}

#[test]
fn nsv_to_vec_keeps_view() {
    let buffer = units("x\0yz\0");
    let nsv = TextNsvRef::new(&buffer);
    let entries = nsv.to_vec();
    let strings: Vec<String> = entries.iter().map(|t| t.to_string().unwrap()).collect();
    assert_eq!(strings, vec!["x".to_string(), "yz".to_string()]);
    assert_eq!(nsv.as_wchars().len(), 5);
}
