use tokio_util::sync::CancellationToken;
use vstd::prelude::*;

verus! {

/// The cancellation handle of `tokio_util`. To proofs a handle is a value of its own
/// that is tripped or not; what stands behind it is not visible. Its methods panic only
/// where a task has panicked while it held the handle's inner lock.
#[verifier::external_type_specification]
#[verifier::external_body]
pub struct ExCancellationToken(CancellationToken);

/// Whether the handle was tripped, as far as its holder knows: a handle is tripped
/// through its holder alone, and a copy taken before that does not tell.
pub uninterp spec fn tripped(handle: CancellationToken) -> bool;

/// `CancellationToken::new`: a handle in the non-cancelled state. It is a handle of its
/// own: where `replaced` names a handle that is still held, the new one is another.
#[verifier::external_body]
pub(crate) fn fresh_handle(replaced: Option<&CancellationToken>) -> (handle: CancellationToken)
    ensures
        !tripped(handle),
        replaced matches Some(old_handle) ==> handle != *old_handle,
{
    CancellationToken::new()
}

/// `CancellationToken::cancel`: cancels the handle, and with it every copy of it.
#[verifier::external_body]
pub(crate) fn trip(handle: &mut CancellationToken)
    ensures
        tripped(*final(handle)),
{
    handle.cancel();
}

/// `Clone` for `CancellationToken`: a copy that is cancelled whenever `handle` is.
pub assume_specification[ <CancellationToken as Clone>::clone ](handle: &CancellationToken) -> (copy:
    CancellationToken)
    ensures
        copy == *handle,
;

/// `CancellationToken::is_cancelled`: whether the handle has been cancelled. A handle
/// that was tripped stays so, and the answer tells it; of a handle that was not, nothing
/// is claimed, since its holder may trip it at any time.
pub assume_specification[ CancellationToken::is_cancelled ](handle: &CancellationToken) -> (answer:
    bool)
    ensures
        tripped(*handle) ==> answer,
;

/// A copy of a transfer's handle that can be asked and cannot be tripped.
pub struct CancelWatch {
    handle: CancellationToken,
}

impl CancelWatch {
    /// The handle as it was when the copy was taken.
    pub closed spec fn source(&self) -> CancellationToken {
        self.handle
    }

    /// A copy of `handle` to ask.
    pub(crate) fn of(handle: &CancellationToken) -> (watch: CancelWatch)
        ensures
            watch.source() == *handle,
    {
        CancelWatch { handle: handle.clone() }
    }

    /// Whether the handle has been tripped by now: it has, where it was tripped already
    /// when the copy was taken.
    pub fn is_tripped(&self) -> (r: bool)
        ensures
            tripped(self.source()) ==> r,
    {
        self.handle.is_cancelled()
    }
}

} // verus!
