use random_audit::encoding::be_bytes_to_u64;

#[test]
fn reads_big_endian() {
    assert_eq!(be_bytes_to_u64(&vec![0, 0, 0, 0, 0, 0, 0, 0]), 0);
    assert_eq!(be_bytes_to_u64(&vec![0, 0, 0, 0, 0, 0, 0, 1]), 1);
    assert_eq!(be_bytes_to_u64(&vec![0, 0, 0, 0, 0, 0, 1, 2]), 258);
    assert_eq!(
        be_bytes_to_u64(&vec![0xFF, 0xFF, 0xFF, 0xFF, 0xFF, 0xFF, 0xFF, 0xFF]),
        u64::MAX
    );
    assert_eq!(
        be_bytes_to_u64(&vec![0x01, 0x23, 0x45, 0x67, 0x89, 0xAB, 0xCD, 0xEF]),
        0x0123_4567_89AB_CDEF
    );
}

#[test]
fn bytes_past_the_eighth_do_not_matter() {
    assert_eq!(be_bytes_to_u64(&vec![0, 0, 0, 0, 0, 0, 0, 9, 0xAA, 0xBB]), 9);
}
