use console_winapi::{
    alias_text, alias_values, buffer_bytes, dword_len, widen0, ConsoleError, FetchStep, TextFetch,
    TextLength, ERROR_GEN_FAILURE, ERROR_INSUFFICIENT_BUFFER, ERROR_SUCCESS, MAX_ANNOUNCED_BYTES,
};

/// A stand-in for the platform: it holds `data` (terminator included) and
/// answers a fetch the way the alias functions do.
struct Store {
    data: Vec<u16>,
}

impl Store {
    fn answer(&self, buffer: &mut [u16], bytes: u32) -> (u32, u32) {
        assert_eq!(bytes as usize, 2 * buffer.len());
        if self.data.len() <= buffer.len() {
            buffer[..self.data.len()].copy_from_slice(&self.data);
            ((2 * self.data.len()) as u32, ERROR_SUCCESS)
        } else {
            (bytes, ERROR_INSUFFICIENT_BUFFER)
        }
    }
}

fn run(store_at: impl Fn(usize) -> Store, hint: usize) -> (Vec<u16>, usize) {
    let mut fetch = TextFetch::new(hint);
    let mut attempts = 0;
    loop {
        let store = store_at(attempts);
        attempts += 1;
        let bytes = fetch.byte_len();
        let (returned, last_error) = store.answer(fetch.buffer_mut(), bytes);
        match fetch.settle(returned, last_error) {
            FetchStep::Done(units) => return (units, attempts),
            FetchStep::Retry(next) => fetch = next,
            FetchStep::Failed(e) => panic!("unexpected failure {:?}", e),
        }
    }
}

#[test]
fn buffer_bytes_saturates_even() {
    assert_eq!(buffer_bytes(0), 0);
    assert_eq!(buffer_bytes(512), 1024);
    assert_eq!(buffer_bytes(0x7FFF_FFFF), 0xFFFF_FFFE);
    assert_eq!(buffer_bytes(0x8000_0000), MAX_ANNOUNCED_BYTES);
    assert_eq!(MAX_ANNOUNCED_BYTES, 0xFFFF_FFFE);
}

#[test]
fn dword_len_saturates() {
    assert_eq!(dword_len(0), 0);
    assert_eq!(dword_len(32), 32);
    assert_eq!(dword_len(u32::MAX as usize), u32::MAX);
    assert_eq!(dword_len(u32::MAX as usize + 1), u32::MAX);
}

#[test]
fn new_fetch_is_zeroed() {
    let fetch = TextFetch::new(7);
    assert!(fetch.units() >= 7);
    let mut fetch = fetch;
    assert!(fetch.buffer_mut().iter().all(|&u| u == 0));
    assert_eq!(fetch.byte_len() as usize, 2 * fetch.units());
}

#[test]
fn settle_success_keeps_reported_units() {
    let mut fetch = TextFetch::new(4);
    fetch.buffer_mut()[..3].copy_from_slice(&[0x61, 0x62, 0]);
    match fetch.settle(6, ERROR_SUCCESS) {
        FetchStep::Done(units) => assert_eq!(units, vec![0x61, 0x62, 0]),
        _ => panic!("expected done"),
    }
}

#[test]
fn settle_insufficient_grows() {
    let fetch = TextFetch::new(3);
    let before = fetch.units();
    match fetch.settle(6, ERROR_INSUFFICIENT_BUFFER) {
        FetchStep::Retry(next) => assert!(next.units() > before),
        _ => panic!("expected retry"),
    }
}

#[test]
fn settle_other_error_fails() {
    let fetch = TextFetch::new(3);
    match fetch.settle(6, ERROR_GEN_FAILURE) {
        FetchStep::Failed(e) => {
            assert_eq!(e, ConsoleError::Os(31));
            assert_eq!(e.raw_os_error(), Some(31));
        }
        _ => panic!("expected failure"),
    }
}

#[test]
fn store_fetch_from_empty_hint() {
    let data = widen0("a rather long alias target, longer than any first guess");
    let (units, attempts) = run(|_| Store { data: data.clone() }, 0);
    assert_eq!(units, data);
    assert!(attempts > 1);
}

#[test]
fn store_fetch_with_exact_hint_succeeds_at_once() {
    let data = widen0("test-alias1=alias1target\0test-alias2=alias2target");
    let hint = TextLength::from_bytes(2 * data.len()).wchars();
    let (units, attempts) = run(|_| Store { data: data.clone() }, hint);
    assert_eq!(units, data);
    assert_eq!(attempts, 1);
}

#[test]
fn store_fetch_survives_growth_race() {
    // The store grows after the size was queried, and again after each of the
    // first attempts; the fetch still returns the whole of what is stored last.
    let sized = widen0("short");
    let grown: Vec<Vec<u16>> = (1..5).map(|k| widen0(&"grown".repeat(40 * k))).collect();
    let hint = sized.len();
    let last = grown.last().unwrap().clone();
    let (units, attempts) = run(|i| Store { data: grown[i.min(grown.len() - 1)].clone() }, hint);
    assert_eq!(units, last);
    assert!(attempts >= 2);
}

#[test]
fn store_fetch_of_shrunk_data() {
    let data = widen0("x");
    let (units, attempts) = run(|_| Store { data: data.clone() }, 100);
    assert_eq!(units, data);
    assert_eq!(attempts, 1);
}

#[test]
fn alias_text_strips_terminator() {
    let mut buffer = [0u16; 512];
    let stored = widen0("alias1target");
    buffer[..stored.len()].copy_from_slice(&stored);
    let text = alias_text(&buffer, (2 * stored.len()) as u32);
    assert_eq!(text.to_string(), Ok("alias1target".to_string()));
}

#[test]
fn alias_text_in_exact_buffer() {
    let stored = widen0("alias1target");
    assert_eq!(stored.len(), b"alias1target\0".len());
    let text = alias_text(&stored, (2 * stored.len()) as u32);
    assert_eq!(text.to_string(), Ok("alias1target".to_string()));
}

#[test]
fn ambiguous_key_round_trips() {
    // A key holding `=`: looked up by its exact key, the value comes back whole;
    // listed, key and value run together as one entry.
    let value = widen0("value=value");
    let text = alias_text(&value, (2 * value.len()) as u32);
    assert_eq!(text.to_string(), Ok("value=value".to_string()));

    let listing = widen0("test=equal=value=value");
    let mut entries = alias_values(&listing, (2 * listing.len()) as u32);
    assert_eq!(entries.next().unwrap().to_string(), Ok("test=equal=value=value".to_string()));
    assert!(entries.next().is_none());
}

#[test]
fn alias_values_lists_entries() {
    let listing: Vec<u16> = "test-alias1=alias1target\0test-alias2=alias2target\0".encode_utf16().collect();
    let mut buffer = listing.clone();
    buffer.extend_from_slice(&[0x7A; 8]);
    let entries = alias_values(&buffer, (2 * listing.len()) as u32).to_vec();
    let strings: Vec<String> = entries.iter().map(|t| t.to_string().unwrap()).collect();
    assert_eq!(strings, vec!["test-alias1=alias1target".to_string(), "test-alias2=alias2target".to_string()]);
}

#[test]
fn alias_values_of_nothing_is_empty() {
    let buffer = [0u16; 512];
    let mut entries = alias_values(&buffer, 0);
    assert!(entries.next().is_none());
}

#[test]
fn alias_exes_listing_contains_names() {
    let exe = "maulingmonkey-console-winapi-wrappers-test.exe";
    let exe2 = "maulingmonkey-console-winapi-wrappers-test-2.exe";
    let mut listing = widen0(exe);
    listing.extend(widen0(exe2));
    let entries = alias_values(&listing, (2 * listing.len()) as u32).to_vec();
    let first: Vec<u16> = exe.encode_utf16().collect();
    let second: Vec<u16> = exe2.encode_utf16().collect();
    assert!(entries.contains(&console_winapi::TextRef::from_wide0(&first)));
    assert!(entries.contains(&console_winapi::TextRef::from_wide0(&second)));
    assert_eq!(entries.len(), 2);
}
