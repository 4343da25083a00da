use multisig::bytes::put_u32;
use multisig::bytes::put_u64;
use multisig::bytes::read_u32;
use multisig::bytes::read_u64;

#[test]
fn fields_are_written_lowest_byte_first() {
    let mut out = vec![0xEE];
    put_u32(&mut out, 0x0403_0201);
    assert_eq!(out, vec![0xEE, 1, 2, 3, 4]);
    put_u64(&mut out, 0x0807_0605_0403_0201);
    assert_eq!(out, vec![0xEE, 1, 2, 3, 4, 1, 2, 3, 4, 5, 6, 7, 8]);
}

#[test]
fn fields_agree_with_the_standard_conversions() {
    for x in [0u32, 1, 0xFF, 0x100, 0xDEAD_BEEF, u32::MAX] {
        let mut out = Vec::new();
        put_u32(&mut out, x);
        assert_eq!(out, x.to_le_bytes());
        assert_eq!(read_u32(&out, 0), Some(x));
    }
    for x in [0u64, 1, 0xFF, 0x100, 0xDEAD_BEEF_0BAD_F00D, u64::MAX, 1000.0f64.to_bits()] {
        let mut out = Vec::new();
        put_u64(&mut out, x);
        assert_eq!(out, x.to_le_bytes());
        assert_eq!(read_u64(&out, 0), Some(x));
    }
}

#[test]
fn fields_are_read_at_an_offset() {
    let bytes = [9, 1, 2, 3, 4, 5, 6, 7, 8, 9];
    assert_eq!(read_u32(&bytes, 1), Some(0x0403_0201));
    assert_eq!(read_u32(&bytes, 6), Some(0x0908_0706));
    assert_eq!(read_u64(&bytes, 1), Some(0x0807_0605_0403_0201));
    assert_eq!(read_u64(&bytes, 2), Some(0x0908_0706_0504_0302));
}

#[test]
fn fields_that_do_not_fit_are_not_read() {
    let bytes = [1, 2, 3, 4, 5, 6, 7, 8];
    assert_eq!(read_u32(&bytes, 5), None);
    assert_eq!(read_u32(&bytes, 8), None);
    assert_eq!(read_u32(&bytes, 9), None);
    assert_eq!(read_u32(&bytes, usize::MAX), None);
    assert_eq!(read_u64(&bytes, 1), None);
    assert_eq!(read_u64(&bytes, usize::MAX), None);
    assert_eq!(read_u32(&[], 0), None);
    assert_eq!(read_u64(&[], 0), None);
    assert_eq!(read_u32(&bytes, 4), Some(0x0807_0605));
    assert_eq!(read_u64(&bytes, 0), Some(0x0807_0605_0403_0201));
}
