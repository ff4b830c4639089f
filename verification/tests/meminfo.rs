use blockcopy::meminfo::{estimated_flushed, find_dirty_line, parse_dirty_kb, parse_field};

#[test]
fn reads_the_dirty_line_of_real_statistics() {
    let text = b"MemTotal:       16308500 kB\nMemFree:         1234567 kB\nDirty:              1432 kB\nWriteback:             0 kB\n";
    assert_eq!(parse_dirty_kb(text), Some(1432));
    assert_eq!(find_dirty_line(text), Some(56));
}

#[test]
fn first_dirty_line_counts() {
    assert_eq!(parse_dirty_kb(b"Dirty: 7 kB\nDirty: 9 kB\n"), Some(7));
    assert_eq!(parse_dirty_kb(b"Dirty: x kB\nDirty: 9 kB\n"), None);
}

#[test]
fn label_must_begin_a_line() {
    assert_eq!(parse_dirty_kb(b"NotDirty: 7 kB\n"), None);
    assert_eq!(parse_dirty_kb(b" Dirty: 7 kB\n"), None);
    assert_eq!(parse_dirty_kb(b"NotDirty: 7 kB\nDirty:\t12kB"), Some(12));
    assert_eq!(find_dirty_line(b"NotDirty: 7 kB\nDirty:\t12kB"), Some(15));
}

#[test]
fn missing_or_malformed_line_gives_none() {
    assert_eq!(parse_dirty_kb(b""), None);
    assert_eq!(parse_dirty_kb(b"MemTotal: 5 kB\n"), None);
    assert_eq!(parse_dirty_kb(b"Dirty"), None);
    assert_eq!(parse_dirty_kb(b"Dirty:"), None);
    assert_eq!(parse_dirty_kb(b"Dirty: kB"), None);
    assert_eq!(parse_dirty_kb(b"Dirty: 12"), None);
    assert_eq!(parse_dirty_kb(b"Dirty: 12 MB"), None);
    assert_eq!(parse_dirty_kb(b"Dirty: 12\nkB"), None);
    assert_eq!(parse_dirty_kb(b"Dirty: -12 kB"), None);
    assert_eq!(find_dirty_line(b"MemTotal: 5 kB\n"), None);
}

#[test]
fn number_must_fit() {
    assert_eq!(parse_dirty_kb(b"Dirty: 0 kB"), Some(0));
    assert_eq!(parse_dirty_kb(b"Dirty: 007 kB"), Some(7));
    let most = format!("Dirty: {} kB", usize::MAX);
    assert_eq!(parse_dirty_kb(most.as_bytes()), Some(usize::MAX));
    let more = format!("Dirty: {}0 kB", usize::MAX);
    assert_eq!(parse_dirty_kb(more.as_bytes()), None);
    assert_eq!(parse_dirty_kb(b"Dirty: 99999999999999999999999999 kB"), None);
}

#[test]
fn field_is_parsed_from_its_start() {
    assert_eq!(parse_field(b"  42 kB", 0), Some(42));
    assert_eq!(parse_field(b"ab 42kB", 2), Some(42));
    assert_eq!(parse_field(b"42 kB", 5), None);
    assert_eq!(parse_field(b"42 k", 0), None);
}

#[test]
fn estimate_is_total_less_dirty_bytes() {
    assert_eq!(estimated_flushed(10_000_000, 100), Some(9_897_600));
    assert_eq!(estimated_flushed(1024, 1), Some(0));
    assert_eq!(estimated_flushed(5000, 0), Some(5000));
    assert_eq!(estimated_flushed(1023, 1), None);
    assert_eq!(estimated_flushed(usize::MAX, usize::MAX), None);
}
