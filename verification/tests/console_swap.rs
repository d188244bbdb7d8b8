use boot_core::console::{Backend, BackendKind, Console};

fn chars(s: &str) -> Vec<char> {
    s.chars().collect()
}

#[test]
fn writes_are_buffered_until_flushed() {
    let mut c = Console::new();
    c.replace_with(Backend::new(BackendKind::MiniUart, Vec::new()));
    c.write_str("hello");
    assert_eq!(c.active_emitted_chars(), Vec::<char>::new());
    assert_eq!(c.active_buffered_chars(), chars("hello"));
    c.flush();
    assert_eq!(c.active_emitted_chars(), chars("hello"));
    assert_eq!(c.active_buffered_chars(), Vec::<char>::new());
}

#[test]
fn flush_twice_emits_nothing_more() {
    let mut c = Console::new();
    c.replace_with(Backend::new(BackendKind::MiniUart, Vec::new()));
    c.write_char('a');
    c.write_char('b');
    c.flush();
    let after_first = c.active_emitted_chars();
    c.flush();
    assert_eq!(c.active_emitted_chars(), after_first);
    assert_eq!(c.active_emitted_chars(), chars("ab"));
}

#[test]
fn replace_flushes_the_old_backend_before_any_new_write() {
    let mut c = Console::new();
    c.replace_with(Backend::new(BackendKind::MiniUart, Vec::new()));
    c.write_str("old output");
    // the old backend still has everything buffered, nothing emitted
    assert_eq!(c.active_emitted_chars(), Vec::<char>::new());
    let prev = c
        .replace_with(Backend::new(BackendKind::Pl011Uart, Vec::new()))
        .unwrap();
    // the swap itself flushed the retired backend ...
    assert_eq!(prev.emitted_chars().clone(), chars("old output"));
    assert_eq!(prev.buffered_chars().clone(), Vec::<char>::new());
    // ... and the new backend had emitted nothing at that point
    assert_eq!(c.active_emitted_chars(), Vec::<char>::new());
    c.write_str("new output");
    c.flush();
    // flat stream: everything of the old backend, then the new one's
    let mut stream = prev.emitted_chars().clone();
    stream.extend(c.active_emitted_chars());
    assert_eq!(stream, chars("old outputnew output"));
}

#[test]
fn reads_hand_out_input_in_order() {
    let mut c = Console::new();
    c.replace_with(Backend::new(BackendKind::MiniUart, chars("hi")));
    assert_eq!(c.read_char(), Some('h'));
    assert_eq!(c.read_char(), Some('i'));
    assert_eq!(c.read_char(), None);
}

#[test]
fn placeholder_console_discards_writes_and_reads_nothing() {
    let mut c = Console::new();
    c.write_str("lost");
    assert_eq!(c.read_char(), None);
    assert_eq!(c.backend_kind(), None);
    c.replace_with(Backend::new(BackendKind::MiniUart, Vec::new()));
    assert_eq!(c.backend_kind(), Some(BackendKind::MiniUart));
    c.flush();
    // nothing written before a backend existed reaches the stream
    assert_eq!(c.active_emitted_chars(), Vec::<char>::new());
}
