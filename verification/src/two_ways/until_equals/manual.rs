//! The repeater as a state machine: a slot for the operation in progress,
//! filled from a factory whenever it is found empty.

use crate::operation::PollableOperation;
use crate::two_ways::until_equals::verdict;
use core::task::Context;
use core::task::Poll;
use vstd::prelude::*;

verus! {

/// Repeats the operations that `next` produces until one yields `check`.
pub fn until_equals<NumFut, GetNextFut>(check: u32, next: GetNextFut) -> (rep: UntilEquals<
    NumFut,
    GetNextFut,
>) where NumFut: PollableOperation<Output = u32>, GetNextFut: Fn() -> NumFut
    ensures
        rep.target() == check,
        rep.factory() == next,
        rep.current() is None,
{
    UntilEquals { check, next, num_fut: None }
}

/// A repeater: the number it waits for, the factory of its operations, and
/// the operation in progress, if there is one.
pub struct UntilEquals<NumFut, GetNextFut> {
    check: u32,
    next: GetNextFut,
    num_fut: Option<NumFut>,
}

impl<NumFut, GetNextFut> UntilEquals<NumFut, GetNextFut> where
    NumFut: PollableOperation<Output = u32>,
    GetNextFut: Fn() -> NumFut,
 {
    /// The number that ends the repetition.
    pub closed spec fn target(&self) -> u32 {
        self.check
    }

    /// The factory that produces the operations.
    pub closed spec fn factory(&self) -> GetNextFut {
        self.next
    }

    /// The operation in progress: produced, and not yet finished.
    pub closed spec fn current(&self) -> Option<NumFut> {
        self.num_fut
    }

    /// `op` is what a poll of this repeater drives: the operation in
    /// progress, or, when there is none, one that the factory produces.
    pub open spec fn drives(&self, op: NumFut) -> bool {
        match self.current() {
            Some(held) => op == held,
            None => self.factory().ensures((), op),
        }
    }

    /// The factory may be called, what it produces may be polled, and so may
    /// the operation in progress.
    pub open spec fn may_poll(&self) -> bool {
        &&& self.factory().requires(())
        &&& forall|op: NumFut| self.factory().ensures((), op) ==> op.pollable()
        &&& self.current() matches Some(held) ==> held.pollable()
    }

    /// One poll drives one operation once. `Pending` from it is passed on and
    /// the operation is kept. When it yields a number, the slot is cleared,
    /// and the answer is `Ready` if and only if the number is the target.
    pub open spec fn advances(&self, next: Self, out: Poll<()>) -> bool {
        &&& next.target() == self.target()
        &&& next.factory() == self.factory()
        &&& exists|op: NumFut, after: NumFut, answer: Poll<u32>|
            {
                &&& self.drives(op)
                &&& #[trigger] op.step(after, answer)
                &&& match answer {
                    Poll::Pending => next.current() == Some(after) && out is Pending,
                    Poll::Ready(num) => next.current() is None && (out is Ready <==> num
                        == self.target()),
                }
            }
    }

    /// What [`pollable`](PollableOperation::pollable) and
    /// [`step`](PollableOperation::step) say of a repeater. Inside this
    /// module the verifier sees it by itself; a caller that has settled on a
    /// factory learns it here.
    pub proof fn lemma_contract(self, next: Self, out: Poll<()>)
        ensures
            self.pollable() == self.may_poll(),
            self.step(next, out) == self.advances(next, out),
    {
    }

    /// The number that ends the repetition.
    pub fn check(&self) -> (check: u32)
        ensures
            check == self.target(),
    {
        self.check
    }

    /// Whether the slot is empty, so that the next poll asks the factory.
    pub fn is_idle(&self) -> (idle: bool)
        ensures
            idle == (self.current() is None),
    {
        self.num_fut.is_none()
    }
}

impl<NumFut, GetNextFut> PollableOperation for UntilEquals<NumFut, GetNextFut> where
    NumFut: PollableOperation<Output = u32>,
    GetNextFut: Fn() -> NumFut,
 {
    type Output = ();

    open spec fn pollable(&self) -> bool {
        self.may_poll()
    }

    open spec fn step(&self, next: Self, out: Poll<()>) -> bool {
        self.advances(next, out)
    }

    fn poll(&mut self, cx: &mut Context<'_>) -> (out: Poll<()>)
        ensures
            final(self).pollable(),
            out is Ready ==> final(self).current() is None,
    {
        if self.num_fut.is_none() {
            let fresh = (self.next)();
            self.num_fut = Some(fresh);
        }
        let ghost op = self.num_fut->0;
        assert(old(self).drives(op));
        let answer = match &mut self.num_fut {
            Some(held) => held.poll(cx),
            None => vstd::pervasive::unreached(),
        };
        match answer {
            Poll::Ready(num) => {
                assert(op.step(self.num_fut->0, answer));
                self.num_fut = None;
                verdict(self.check, num)
            },
            Poll::Pending => {
                assert(op.step(self.num_fut->0, answer));
                Poll::Pending
            },
        }
    }
}

/// `Ready` is never answered in vain: the operation that the poll drove
/// yielded the target itself. A repeater whose operations never yield the
/// target therefore answers `Pending` for as long as it is polled.
pub proof fn lemma_ready_needs_target<NumFut, GetNextFut>(
    rep: UntilEquals<NumFut, GetNextFut>,
    next: UntilEquals<NumFut, GetNextFut>,
    out: Poll<()>,
) where NumFut: PollableOperation<Output = u32>, GetNextFut: Fn() -> NumFut
    requires
        rep.step(next, out),
        out is Ready,
    ensures
        exists|op: NumFut, after: NumFut|
            rep.drives(op) && #[trigger] op.step(after, Poll::Ready(rep.target())),
{
    let (op, after, answer) = choose|op: NumFut, after: NumFut, answer: Poll<u32>|
        {
            &&& rep.drives(op)
            &&& #[trigger] op.step(after, answer)
            &&& match answer {
                Poll::Pending => next.current() == Some(after) && out is Pending,
                Poll::Ready(num) => next.current() is None && (out is Ready <==> num
                    == rep.target()),
            }
        };
    assert(answer == Poll::Ready(rep.target()));
    assert(rep.drives(op) && op.step(after, Poll::Ready(rep.target())));
}

/// `reps` and `outs` record a run of a repeater: one poll led from each state
/// to the next, with the answer that `outs` holds at the same place.
pub open spec fn is_run<NumFut, GetNextFut>(
    reps: Seq<UntilEquals<NumFut, GetNextFut>>,
    outs: Seq<Poll<()>>,
) -> bool where NumFut: PollableOperation<Output = u32>, GetNextFut: Fn() -> NumFut {
    &&& reps.len() == outs.len() + 1
    &&& forall|i: int| 0 <= i < outs.len() ==> (#[trigger] reps[i]).step(reps[i + 1], outs[i])
}

/// A run in which no operation that the repeater drives can yield the target
/// holds no `Ready`, however long it is.
pub proof fn lemma_pending_without_target<NumFut, GetNextFut>(
    reps: Seq<UntilEquals<NumFut, GetNextFut>>,
    outs: Seq<Poll<()>>,
    i: int,
) where NumFut: PollableOperation<Output = u32>, GetNextFut: Fn() -> NumFut
    requires
        is_run(reps, outs),
        0 <= i < outs.len(),
        forall|j: int, op: NumFut, after: NumFut|
            #![trigger reps[j].drives(op), op.step(after, Poll::Ready(reps[j].target()))]
            0 <= j < outs.len() && reps[j].drives(op) ==> !op.step(
                after,
                Poll::Ready(reps[j].target()),
            ),
    ensures
        outs[i] is Pending,
{
    assert(reps[i].step(reps[i + 1], outs[i]));
    if outs[i] is Ready {
        lemma_ready_needs_target(reps[i], reps[i + 1], outs[i]);
    }
}

/// An operation that has yielded its number is not polled again: whenever a
/// poll leaves an operation in the slot, that operation has answered
/// `Pending` to this very poll, and in every other case the slot is empty and
/// the next poll asks the factory.
pub proof fn lemma_finished_operation_is_dropped<NumFut, GetNextFut>(
    rep: UntilEquals<NumFut, GetNextFut>,
    next: UntilEquals<NumFut, GetNextFut>,
    out: Poll<()>,
) where NumFut: PollableOperation<Output = u32>, GetNextFut: Fn() -> NumFut
    requires
        rep.step(next, out),
    ensures
        next.current() matches Some(after) ==> out is Pending && exists|op: NumFut|
            rep.drives(op) && #[trigger] op.step(after, Poll::Pending),
        next.current() is None ==> forall|op: NumFut|
            next.drives(op) <==> rep.factory().ensures((), op),
{
    let (op, after, answer) = choose|op: NumFut, after: NumFut, answer: Poll<u32>|
        {
            &&& rep.drives(op)
            &&& #[trigger] op.step(after, answer)
            &&& match answer {
                Poll::Pending => next.current() == Some(after) && out is Pending,
                Poll::Ready(num) => next.current() is None && (out is Ready <==> num
                    == rep.target()),
            }
        };
    if next.current() is Some {
        assert(answer == Poll::<u32>::Pending);
        assert(next.current()->0 == after);
        assert(rep.drives(op) && op.step(next.current()->0, Poll::Pending));
    }
}

} // verus!
