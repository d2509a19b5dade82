use vstd::prelude::*;

verus! {

/// Whether a syscall's return value reports failure: `-1`, with the cause in `errno`.
pub fn syscall_failed(result: i32) -> (failed: bool)
    ensures
        failed == (result == -1),
{
    result == -1
}

/// What a `read` or `write` of a file descriptor came to, and what to do next.
#[derive(Clone, Copy, Debug, PartialEq, Eq, Structural)]
pub enum TransferOutcome {
    /// That many bytes were transferred; done.
    Transferred(usize),
    /// A signal interrupted the call before it transferred anything; call again.
    Retry,
    /// The call failed; report the error in `errno`.
    Failed,
}

/// The outcome of a `read` or `write` that returned `result`, where `interrupted`
/// says whether the error in `errno` is `EINTR` (it is consulted only when `result`
/// is negative).
pub fn transfer_outcome(result: isize, interrupted: bool) -> (outcome: TransferOutcome)
    ensures
        outcome == (if result >= 0 {
            TransferOutcome::Transferred(result as usize)
        } else if interrupted {
            TransferOutcome::Retry
        } else {
            TransferOutcome::Failed
        }),
{
    if result >= 0 {
        TransferOutcome::Transferred(result as usize)
    } else if interrupted {
        TransferOutcome::Retry
    } else {
        TransferOutcome::Failed
    }
}

} // verus!
