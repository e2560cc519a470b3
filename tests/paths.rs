use rsb::path::{try_bytes_to_cstr, try_wide_to_cstr};
use rsb::Error;

#[test]
fn path_gets_closing_nul() {
    assert_eq!(try_bytes_to_cstr(b"/tmp/m.mtx"), Ok(b"/tmp/m.mtx\0".to_vec()));
    assert_eq!(try_bytes_to_cstr(b""), Ok(vec![0]));
}

#[test]
fn path_with_inner_nul_is_rejected() {
    assert_eq!(try_bytes_to_cstr(b"ab\0c\0"), Err(Error::PathEncoding { position: 2 }));
    assert_eq!(try_bytes_to_cstr(b"\0"), Err(Error::PathEncoding { position: 0 }));
}

#[test]
fn wide_path_is_narrowed() {
    let units: Vec<u16> = "a/b.mtx".encode_utf16().collect();
    assert_eq!(try_wide_to_cstr(&units), Ok(b"a/b.mtx\0".to_vec()));
}

#[test]
fn wide_path_with_non_ascii_is_rejected() {
    let units: Vec<u16> = "ab\u{e9}c".encode_utf16().collect();
    assert_eq!(try_wide_to_cstr(&units), Err(Error::PathEncoding { position: 2 }));
    let units = [0u16, 0x80];
    assert_eq!(try_wide_to_cstr(&units), Err(Error::PathEncoding { position: 1 }));
    let units = [0x7fu16, 0x100];
    assert_eq!(try_wide_to_cstr(&units), Err(Error::PathEncoding { position: 1 }));
}

#[test]
fn wide_path_with_nul_is_rejected() {
    let units = [0x41u16, 0, 0x42];
    assert_eq!(try_wide_to_cstr(&units), Err(Error::PathEncoding { position: 1 }));
}
