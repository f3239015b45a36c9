use nt_syscall::image::{read_c_str, read_u16_le, read_u32_le};

#[test]
fn reads_little_endian_integers() {
    let img = [0x01, 0x02, 0x03, 0x04, 0x05];
    assert_eq!(read_u16_le(&img, 0), Some(0x0201));
    assert_eq!(read_u16_le(&img, 3), Some(0x0504));
    assert_eq!(read_u32_le(&img, 1), Some(0x05040302));
}

#[test]
fn reads_past_the_end_fail() {
    let img = [0x01, 0x02, 0x03, 0x04, 0x05];
    assert_eq!(read_u16_le(&img, 4), None);
    assert_eq!(read_u32_le(&img, 2), None);
    assert_eq!(read_u32_le(&img, usize::MAX), None);
}

#[test]
fn reads_c_strings() {
    let img = b"xNtClose\0NtWait\0tail";
    assert_eq!(read_c_str(img, 1), Some(b"NtClose".to_vec()));
    assert_eq!(read_c_str(img, 9), Some(b"NtWait".to_vec()));
    assert_eq!(read_c_str(img, 8), Some(Vec::new()));
    assert_eq!(read_c_str(img, 16), None);
    assert_eq!(read_c_str(img, 100), None);
}
