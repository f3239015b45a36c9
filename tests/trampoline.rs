use nt_syscall::trampoline::{is_trampoline, service_identifier};

fn stub(id: u32) -> Vec<u8> {
    let mut code = vec![0x4C, 0x8B, 0xD1, 0xB8];
    code.extend_from_slice(&id.to_le_bytes());
    code.extend_from_slice(&[0xF6, 0x04, 0x25, 0x08, 0x03, 0xFE, 0x7F, 0x01, 0x75, 0x03]);
    code.extend_from_slice(&[0x0F, 0x05, 0xC3]);
    code
}

#[test]
fn trampoline_is_accepted() {
    let code = stub(0x18);
    assert_eq!(code[0x12], 0x0F);
    assert!(is_trampoline(&code));
    assert_eq!(service_identifier(&code), Some(0x18));
}

#[test]
fn identifier_is_little_endian() {
    assert_eq!(service_identifier(&stub(0x1234)), Some(0x1234));
    assert_eq!(service_identifier(&stub(0xA1B2C3D4)), Some(0xA1B2C3D4));
}

#[test]
fn single_byte_deviation_is_rejected() {
    for off in [0usize, 1, 2, 3, 0x12, 0x13] {
        let mut code = stub(7);
        code[off] ^= 0x01;
        assert!(!is_trampoline(&code), "offset {}", off);
        assert_eq!(service_identifier(&code), None);
    }
}

#[test]
fn bytes_outside_the_checked_fields_do_not_matter() {
    let mut code = stub(7);
    code[0x08] = 0xFF;
    code[0x11] = 0x00;
    assert!(is_trampoline(&code));
}

#[test]
fn short_code_is_rejected() {
    let code = stub(7);
    assert!(is_trampoline(&code[..0x14]));
    assert!(!is_trampoline(&code[..0x13]));
    assert!(!is_trampoline(&[]));
}

#[test]
fn replacing_a_checked_byte_with_any_other_value_is_rejected() {
    for off in [0usize, 1, 2, 3, 0x12, 0x13] {
        for b in 0u8..=255 {
            let mut code = stub(7);
            if code[off] == b {
                continue;
            }
            code[off] = b;
            assert!(!is_trampoline(&code));
        }
    }
}
