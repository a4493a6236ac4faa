use relibc::c_str::{find_nul, from_bytes_with_nul, Memory};

#[test]
fn find_nul_returns_first_of_several() {
    assert_eq!(find_nul(b"ab\0cd\0"), Some(2));
}

#[test]
fn find_nul_at_start() {
    assert_eq!(find_nul(b"\0abc"), Some(0));
}

#[test]
fn find_nul_none_without_zero_byte() {
    assert_eq!(find_nul(b"abc"), None);
    assert_eq!(find_nul(b""), None);
}

#[test]
fn from_bytes_with_nul_accepts_whole_c_string() {
    assert_eq!(from_bytes_with_nul(b"/lib/ld64.so.1\0"), Some(&b"/lib/ld64.so.1"[..]));
    assert_eq!(from_bytes_with_nul(b"\0"), Some(&b""[..]));
}

#[test]
fn from_bytes_with_nul_rejects_missing_terminator() {
    assert_eq!(from_bytes_with_nul(b"/lib/ld64.so.1"), None);
    assert_eq!(from_bytes_with_nul(b""), None);
}

#[test]
fn from_bytes_with_nul_rejects_interior_nul() {
    assert_eq!(from_bytes_with_nul(b"/lib\0/ld64.so.1\0"), None);
    assert_eq!(from_bytes_with_nul(b"a\0\0"), None);
}

fn image() -> Memory {
    Memory { base: 0x1000, bytes: b"prog\0hello\0X=1\0tail".to_vec() }
}

#[test]
fn memory_strlen_counts_up_to_the_nul() {
    let mem = image();
    assert_eq!(mem.strlen(0x1000), Some(4));
    assert_eq!(mem.strlen(0x1002), Some(2));
    assert_eq!(mem.strlen(0x1004), Some(0));
    assert_eq!(mem.strlen(0x1005), Some(5));
    assert_eq!(mem.strlen(0x100b), Some(3));
}

#[test]
fn memory_strlen_refuses_what_runs_off_the_end() {
    let mem = image();
    // "tail" has no NUL behind it inside the snapshot
    assert_eq!(mem.strlen(0x100f), None);
    // one past the last byte: nothing left to read
    assert_eq!(mem.strlen(0x1000 + 19), None);
}

#[test]
fn memory_strlen_refuses_addresses_outside() {
    let mem = image();
    assert_eq!(mem.strlen(0), None);
    assert_eq!(mem.strlen(0xfff), None);
    assert_eq!(mem.strlen(0x1000 + 20), None);
    assert_eq!(mem.strlen(usize::MAX), None);
}

#[test]
fn memory_at_top_of_address_space() {
    let mem = Memory { base: usize::MAX - 2, bytes: b"ab\0".to_vec() };
    assert_eq!(mem.strlen(usize::MAX - 2), Some(2));
    assert_eq!(mem.strlen(usize::MAX), Some(0));
}

#[test]
fn memory_copy_keeps_the_nul() {
    let mem = image();
    assert_eq!(mem.copy_c_str(0x1005), b"hello\0".to_vec());
    assert_eq!(mem.copy_c_str(0x1004), b"\0".to_vec());
}

#[test]
fn memory_copy_is_independent_of_the_source() {
    let mut mem = image();
    let copy = mem.copy_c_str(0x1000);
    mem.bytes[0] = b'X';
    mem.bytes.clear();
    assert_eq!(copy, b"prog\0".to_vec());
}
