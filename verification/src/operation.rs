//! The contract between an operation and whoever drives it.

use core::task::Context;
use core::task::Poll;
use vstd::prelude::*;

verus! {

/// `core::task::Poll`, declared so that the verifier reads its two variants,
/// `Ready` with the output and `Pending`, from the standard library's own
/// definition. Nothing is claimed beyond that definition.
#[verifier::external_type_specification]
#[verifier::reject_recursive_types(T)]
pub struct ExPoll<T>(Poll<T>);

/// `core::task::Context`, declared as an opaque type. An operation receives
/// it from its driver and hands it on to what it drives; no verified code
/// looks inside, and nothing is claimed of it.
#[verifier::external_type_specification]
#[verifier::external_body]
pub struct ExContext<'a>(Context<'a>);

/// Work in progress that is queried without blocking.
///
/// A driver owns the operation and calls [`poll`](Self::poll) until it
/// answers `Ready`. It may poll as often as it likes while the answer is
/// `Pending`; to poll an operation that is not [`pollable`](Self::pollable)
/// is the driver's fault, and this contract leaves that call out.
pub trait PollableOperation: Sized {
    /// What the operation yields when it is finished.
    type Output;

    /// The operation may be polled. An implementation that says nothing
    /// claims that it always may.
    open spec fn pollable(&self) -> bool {
        true
    }

    /// One poll of `self` may leave the operation as `next` and answer `out`.
    /// An implementation that says nothing leaves every outcome open.
    open spec fn step(&self, next: Self, out: Poll<Self::Output>) -> bool {
        true
    }

    /// Asks once whether the work is finished.
    fn poll(&mut self, cx: &mut Context<'_>) -> (out: Poll<Self::Output>)
        requires
            old(self).pollable(),
        ensures
            old(self).step(*final(self), out),
            out is Pending ==> final(self).pollable(),
    ;
}

/// Some poll of `op` answers `Ready`.
pub open spec fn may_finish<Op: PollableOperation>(op: Op) -> bool {
    exists|next: Op, out: Poll<Op::Output>| out is Ready && #[trigger] op.step(next, out)
}

} // verus!
