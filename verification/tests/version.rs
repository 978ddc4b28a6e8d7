use http_muncher::{callback_return, final_chunk_from, keep_alive_from, version_from_packed};

#[test]
fn library_version_split() {
    assert_eq!((2, 5, 0), version_from_packed(0x020500));
    assert_eq!((2, 7, 1), version_from_packed(2 * 0x10000 + 7 * 0x100 + 1));
}

#[test]
fn version_ignores_high_byte() {
    assert_eq!((0xAB, 0xCD, 0xEF), version_from_packed(0x12AB_CDEF));
}

#[test]
fn callback_values() {
    assert_eq!(callback_return(true), 0);
    assert_eq!(callback_return(false), 1);
}

#[test]
fn library_answers() {
    assert!(keep_alive_from(1));
    assert!(keep_alive_from(-3));
    assert!(!keep_alive_from(0));
    assert!(final_chunk_from(1));
    assert!(!final_chunk_from(0));
    assert!(!final_chunk_from(2));
}
