use nt_syscall::fingerprint::fnv1a_64_bytes;
use nt_syscall::fnv1a_64;

#[test]
fn fingerprint_of_empty_name_is_offset_basis() {
    assert_eq!(fnv1a_64(""), 0xcbf29ce484222325);
}

#[test]
fn fingerprint_known_values() {
    assert_eq!(fnv1a_64("a"), 0xaf63dc4c8601ec8c);
    assert_eq!(fnv1a_64("foobar"), 0x85944171f73967e8);
}

#[test]
fn fingerprint_is_deterministic() {
    let a = String::from("NtClose");
    let b = String::from("NtClose");
    assert_eq!(fnv1a_64(&a), fnv1a_64(&b));
    assert_ne!(fnv1a_64("NtClose"), fnv1a_64("NtClosE"));
}

#[test]
fn fingerprint_of_str_matches_its_bytes() {
    assert_eq!(fnv1a_64("NtOpenProcess"), fnv1a_64_bytes(b"NtOpenProcess"));
}
