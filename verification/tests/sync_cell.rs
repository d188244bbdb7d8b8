use boot_core::console::{Backend, BackendKind, Console};
use boot_core::sync::ProtectedValue;

#[test]
fn scoped_access_replaces_the_value_and_returns_the_result() {
    let mut cell = ProtectedValue::new(5u64);
    let seen = cell.with_exclusive_access(|v| (v + 1, v));
    assert_eq!(seen, 5);
    let seen = cell.with_exclusive_access(|v| (v, v));
    assert_eq!(seen, 6);
}

#[test]
fn the_console_singleton_is_used_through_the_cell() {
    let mut cell = ProtectedValue::new(Console::new());
    cell.with_exclusive_access(|mut c| {
        c.replace_with(Backend::new(BackendKind::MiniUart, Vec::new()));
        (c, ())
    });
    cell.with_exclusive_access(|mut c| {
        c.write_str("guarded");
        c.flush();
        (c, ())
    });
    let emitted = cell.with_exclusive_access(|c| {
        let e = c.active_emitted_chars();
        (c, e)
    });
    assert_eq!(emitted, "guarded".chars().collect::<Vec<char>>());
}
