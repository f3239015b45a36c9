use nt_syscall::fnv1a_64;
use nt_syscall::invoke::{marshal, prepare_call, status_from_raw, CallError, SyscallFrame};

#[test]
fn no_arguments_populate_no_registers() {
    let f = marshal(0x55, &[]).unwrap();
    assert_eq!(f, SyscallFrame { rax: 0x55, r10: None, rdx: None, r8: None, r9: None });
}

#[test]
fn four_arguments_go_in_declaration_order() {
    let f = marshal(0x0F, &[11, 22, 33, 44]).unwrap();
    assert_eq!(
        f,
        SyscallFrame { rax: 0x0F, r10: Some(11), rdx: Some(22), r8: Some(33), r9: Some(44) }
    );
}

#[test]
fn two_arguments_fill_the_first_two_registers() {
    let f = marshal(3, &[7, 8]).unwrap();
    assert_eq!(f, SyscallFrame { rax: 3, r10: Some(7), rdx: Some(8), r8: None, r9: None });
}

#[test]
fn five_arguments_are_refused() {
    assert_eq!(marshal(1, &[1, 2, 3, 4, 5]), None);
}

#[test]
fn prepare_call_resolves_then_marshals() {
    let table = vec![(fnv1a_64("Foo"), 10), (fnv1a_64("Bar"), 20)];
    assert_eq!(
        prepare_call(&table, "Bar", &[1]),
        Ok(SyscallFrame { rax: 20, r10: Some(1), rdx: None, r8: None, r9: None })
    );
    assert_eq!(prepare_call(&table, "Baz", &[]), Err(CallError::UnknownRoutine));
    assert_eq!(prepare_call(&table, "Baz", &[1, 2, 3, 4, 5]), Err(CallError::UnknownRoutine));
    assert_eq!(prepare_call(&table, "Foo", &[1, 2, 3, 4, 5]), Err(CallError::TooManyArguments));
}

#[test]
fn zero_status_is_success() {
    assert_eq!(status_from_raw(0), Ok(()));
}

#[test]
fn nonzero_status_is_carried() {
    assert_eq!(status_from_raw(0xC0000001), Err(0xC0000001));
    assert_eq!(status_from_raw(1), Err(1));
}
