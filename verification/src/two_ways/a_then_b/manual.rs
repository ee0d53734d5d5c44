//! The sequencer with a loop inside `poll`.

use crate::operation::may_finish;
use crate::operation::PollableOperation;
use crate::two_ways::a_then_b::Stage;
use core::task::Context;
use core::task::Poll;
use vstd::prelude::*;

verus! {

/// Runs `a` to its end, then `b`.
pub fn a_then_b<A: PollableOperation<Output = ()>, B: PollableOperation<Output = ()>>(
    a: A,
    b: B,
) -> (seq: DoAThenB<A, B>)
    ensures
        seq@ == (Stage::<A, B>::RunningFirst { first: a, second: b }),
{
    DoAThenB::new(a, b)
}

/// A sequencer over two operations. Exactly one variant is live at a time,
/// and each holds only the operands that are still owned.
pub enum DoAThenB<A, B> {
    DoingA { a: A, b: B },
    DoingB { b: B },
    Done,
}

impl<A, B> View for DoAThenB<A, B> {
    type V = Stage<A, B>;

    open spec fn view(&self) -> Stage<A, B> {
        match *self {
            DoAThenB::DoingA { a, b } => Stage::RunningFirst { first: a, second: b },
            DoAThenB::DoingB { b } => Stage::RunningSecond { second: b },
            DoAThenB::Done => Stage::Done,
        }
    }
}

impl<A, B> DoAThenB<A, B> {
    /// Takes both operands at once; neither is polled yet.
    pub fn new(a: A, b: B) -> (seq: Self)
        ensures
            seq@ == (Stage::<A, B>::RunningFirst { first: a, second: b }),
    {
        Self::DoingA { a, b }
    }

    /// Discards the sequencer and hands back the operands that it still
    /// owned, each once and as it last was.
    pub fn release(self) -> (owned: (Option<A>, Option<B>))
        ensures
            owned == self@.owned(),
    {
        match self {
            DoAThenB::DoingA { a, b } => (Some(a), Some(b)),
            DoAThenB::DoingB { b } => (None, Some(b)),
            DoAThenB::Done => (None, None),
        }
    }

    /// The transition of the state machine. `answer` is what the operand
    /// that the state names has just answered to a poll.
    ///
    /// `Pending` changes nothing and is the sequencer's answer. `Ready` from
    /// the first operand drops it and moves the second from the slot where it
    /// waited into the running state; no answer is due yet, since the second
    /// operand is to be polled next. `Ready` from the second operand leaves
    /// the sequencer done and is its answer.
    pub fn settle(&mut self, answer: Poll<()>) -> (out: Option<Poll<()>>)
        requires
            !(*old(self) is Done),
        ensures
            answer is Pending ==> out == Some(answer) && *final(self) == *old(self),
            answer is Ready && *old(self) is DoingA ==> out is None && *final(self) == (
                DoAThenB::<A, B>::DoingB { b: (*old(self))->DoingA_b }
            ),
            answer is Ready && *old(self) is DoingB ==> out == Some(answer) && *final(self) is Done,
    {
        match answer {
            Poll::Pending => Some(answer),
            Poll::Ready(_) => {
                let mut taken = DoAThenB::Done;
                core::mem::swap(self, &mut taken);
                match taken {
                    DoAThenB::DoingA { a: _, b } => {
                        *self = DoAThenB::DoingB { b };
                        None
                    },
                    _ => Some(answer),
                }
            },
        }
    }
}

impl<A: PollableOperation<Output = ()>, B: PollableOperation<Output = ()>> PollableOperation for DoAThenB<A, B> {
    type Output = ();

    open spec fn pollable(&self) -> bool {
        self@.pollable()
    }

    open spec fn step(&self, next: Self, out: Poll<()>) -> bool {
        self@.step(next@, out)
    }

    /// Polls the operand that the state names and settles its answer, and
    /// does so again where the first operand has just finished, so that the
    /// second is polled within the same call.
    fn poll(&mut self, cx: &mut Context<'_>) -> (out: Poll<()>)
        ensures
            out is Ready <==> *final(self) is Done,
    {
        loop
            invariant
                self@.pollable(),
                *self == *old(self) || (*old(self) is DoingA && may_finish((*old(self))->a)
                    && *self == (DoAThenB::<A, B>::DoingB { b: (*old(self))->DoingA_b })),
            decreases 2 - self@.rank(),
        {
            let ghost before = *self;
            let answer = match self {
                DoAThenB::DoingA { a, b: _ } => a.poll(cx),
                DoAThenB::DoingB { b } => b.poll(cx),
                DoAThenB::Done => vstd::pervasive::unreached(),
            };
            proof {
                if before is DoingA {
                    assert(before->a.step(self->a, answer));
                } else {
                    assert(before->DoingB_b.step(self->DoingB_b, answer));
                }
            }
            match self.settle(answer) {
                Some(out) => {
                    return out;
                },
                None => {},
            }
        }
    }
}

} // verus!
