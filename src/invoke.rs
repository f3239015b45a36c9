//! What an invoker does around the transition instruction: the registers it
//! loads and how it reads the status that comes back.
use vstd::prelude::*;
use vstd::string::StringSliceAdditionalSpecFns;
use crate::fingerprint::fnv1a_spec;
use crate::table::{lookup, resolve};

verus! {

/// Arguments that fit in the transition's argument registers.
pub const MAX_ARGS: usize = 4;

/// The outcome of a kernel service: `Ok` for status zero, else the nonzero status.
pub type NtStatus = Result<(), usize>;

/// The registers an invoker loads before the transition instruction: the
/// service identifier in the accumulator, and one argument register per
/// declared argument, in order. `None` marks a register left unpopulated.
#[derive(Clone, Copy, Debug, PartialEq, Eq)]
pub struct SyscallFrame {
    pub rax: usize,
    pub r10: Option<usize>,
    pub rdx: Option<usize>,
    pub r8: Option<usize>,
    pub r9: Option<usize>,
}

/// Why no invoker can be made.
#[derive(Clone, Copy, Debug, PartialEq, Eq)]
pub enum CallError {
    /// No table entry carries the routine name's fingerprint.
    UnknownRoutine,
    /// More arguments than argument registers.
    TooManyArguments,
}

/// The `k`-th argument, where one is declared.
pub open spec fn arg_at(args: Seq<usize>, k: int) -> Option<usize> {
    if 0 <= k < args.len() {
        Some(args[k])
    } else {
        None
    }
}

/// The frame for service `id` and the given arguments.
pub open spec fn frame_of(id: usize, args: Seq<usize>) -> SyscallFrame {
    SyscallFrame {
        rax: id,
        r10: arg_at(args, 0),
        rdx: arg_at(args, 1),
        r8: arg_at(args, 2),
        r9: arg_at(args, 3),
    }
}

/// The `k`-th argument as an owned value, where one is declared.
fn arg(args: &[usize], k: usize) -> (r: Option<usize>)
    ensures
        r == arg_at(args@, k as int),
{
    if k < args.len() {
        Some(args[k])
    } else {
        None
    }
}

/// Loads service `id` and up to four arguments: the first into `r10`, then
/// `rdx`, `r8` and `r9`. More than four arguments are refused.
pub fn marshal(id: usize, args: &[usize]) -> (r: Option<SyscallFrame>)
    ensures
        r is None <==> args@.len() > MAX_ARGS,
        r matches Some(f) ==> f == frame_of(id, args@),
{
    if args.len() > MAX_ARGS {
        return None;
    }
    Some(
        SyscallFrame {
            rax: id,
            r10: arg(args, 0),
            rdx: arg(args, 1),
            r8: arg(args, 2),
            r9: arg(args, 3),
        },
    )
}

/// The frame for calling the routine `name` with `args`, its identifier found
/// in `table`. An unknown routine is reported before the argument count.
pub fn prepare_call(table: &[(u64, usize)], name: &str, args: &[usize]) -> (r: Result<
    SyscallFrame,
    CallError,
>)
    ensures
        r == (match lookup(table@, fnv1a_spec(name.spec_bytes())) {
            None => Err(CallError::UnknownRoutine),
            Some(id) => if args@.len() > MAX_ARGS {
                Err(CallError::TooManyArguments)
            } else {
                Ok(frame_of(id, args@))
            },
        }),
{
    match resolve(table, name) {
        None => Err(CallError::UnknownRoutine),
        Some(id) => match marshal(id, args) {
            Some(f) => Ok(f),
            None => Err(CallError::TooManyArguments),
        },
    }
}

/// Reads the accumulator after the transition: zero is success, anything
/// else is carried as the failure code.
pub fn status_from_raw(raw: usize) -> (r: NtStatus)
    ensures
        raw == 0 ==> r == Ok::<(), usize>(()),
        raw != 0 ==> r == Err::<(), usize>(raw),
{
    if raw == 0 {
        Ok(())
    } else {
        Err(raw)
    }
}

} // verus!
