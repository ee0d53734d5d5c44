//! Sequencing: the second operation begins only after the first has finished.
//!
//! [`manual`] and [`manual_opt`] are two realizations of one state machine.
//! This module holds what they share: the machine's mathematical state,
//! [`Stage`], the relation that one poll may take it through, and what
//! follows from that relation for every run.

use crate::operation::may_finish;
use crate::operation::PollableOperation;
use core::task::Poll;
use vstd::prelude::*;

pub mod manual;
pub mod manual_opt;

verus! {

/// The state of a sequencer, as the contracts of both realizations see it.
pub enum Stage<A, B> {
    /// The first operand is being driven; the second waits, untouched.
    RunningFirst { first: A, second: B },
    /// The first operand has finished and is gone; the second is being driven.
    RunningSecond { second: B },
    /// Both have finished.
    Done,
}

impl<A: PollableOperation<Output = ()>, B: PollableOperation<Output = ()>> Stage<A, B> {
    /// The sequencer may be polled: it is not done, and every operand that it
    /// still has to drive may be polled.
    pub open spec fn pollable(self) -> bool {
        match self {
            Stage::RunningFirst { first, second } => first.pollable() && second.pollable(),
            Stage::RunningSecond { second } => second.pollable(),
            Stage::Done => false,
        }
    }

    /// One poll of the second operand leaves the sequencer as `next` and
    /// answers `out`: the operand's own answer is passed on, and `Ready` ends
    /// the sequence.
    pub open spec fn drives_second(second: B, next: Self, out: Poll<()>) -> bool {
        exists|after: B| #[trigger]
            second.step(after, out) && match out {
                Poll::Pending => next == (Stage::<A, B>::RunningSecond { second: after }),
                Poll::Ready(_) => next is Done,
            }
    }

    /// One poll of the sequencer may leave it as `next` and answer `out`.
    ///
    /// While the first operand answers `Pending`, that is the sequencer's
    /// answer and the second operand stays as it is. When the first operand
    /// answers `Ready`, the second is polled within the same call.
    pub open spec fn step(self, next: Self, out: Poll<()>) -> bool {
        match self {
            Stage::RunningFirst { first, second } => {
                ||| {
                    &&& out is Pending
                    &&& next matches Stage::RunningFirst { first: after, second: kept }
                    &&& first.step(after, Poll::Pending)
                    &&& kept == second
                }
                ||| may_finish(first) && Self::drives_second(second, next, out)
            },
            Stage::RunningSecond { second } => Self::drives_second(second, next, out),
            Stage::Done => false,
        }
    }
}

impl<A, B> Stage<A, B> {
    /// How far the sequence has come: 0 while the first operand runs, 1 while
    /// the second runs, 2 when it is done.
    pub open spec fn rank(self) -> nat {
        match self {
            Stage::RunningFirst { .. } => 0,
            Stage::RunningSecond { .. } => 1,
            Stage::Done => 2,
        }
    }

    /// The operands that a sequencer in this state still owns, which are the
    /// ones that it gives up when it is discarded.
    pub open spec fn owned(self) -> (Option<A>, Option<B>) {
        match self {
            Stage::RunningFirst { first, second } => (Some(first), Some(second)),
            Stage::RunningSecond { second } => (None, Some(second)),
            Stage::Done => (None, None),
        }
    }
}

/// `stages` and `outs` record a run of a sequencer: each state was pollable,
/// and one poll led from it to the next state with the answer that `outs`
/// holds at the same place.
pub open spec fn is_run<A: PollableOperation<Output = ()>, B: PollableOperation<Output = ()>>(
    stages: Seq<Stage<A, B>>,
    outs: Seq<Poll<()>>,
) -> bool {
    &&& stages.len() == outs.len() + 1
    &&& forall|i: int|
        0 <= i < outs.len() ==> (#[trigger] stages[i]).pollable() && stages[i].step(
            stages[i + 1],
            outs[i],
        )
}

/// A poll answers `Ready` exactly when it leaves the sequencer done, and a
/// sequencer that is done can neither be polled nor take a step.
pub proof fn lemma_ready_means_done<
    A: PollableOperation<Output = ()>,
    B: PollableOperation<Output = ()>,
>(stage: Stage<A, B>, next: Stage<A, B>, out: Poll<()>)
    requires
        stage.step(next, out),
    ensures
        out is Ready <==> next is Done,
        next is Done ==> !next.pollable(),
        forall|later: Stage<A, B>, answer: Poll<()>| next is Done ==> !next.step(later, answer),
{
}

/// In every run, `Ready` is answered at most once, and only by the last poll:
/// after it the sequencer cannot be polled again.
pub proof fn lemma_ready_only_at_the_end<
    A: PollableOperation<Output = ()>,
    B: PollableOperation<Output = ()>,
>(stages: Seq<Stage<A, B>>, outs: Seq<Poll<()>>, i: int)
    requires
        is_run(stages, outs),
        0 <= i < outs.len(),
        outs[i] is Ready,
    ensures
        i == outs.len() - 1,
        forall|j: int| 0 <= j < outs.len() && j != i ==> outs[j] is Pending,
{
    assert forall|j: int| 0 <= j < outs.len() - 1 implies outs[j] is Pending by {
        assert(stages[j].step(stages[j + 1], outs[j]));
        assert(stages[j + 1].pollable());
        lemma_ready_means_done(stages[j], stages[j + 1], outs[j]);
    }
}

/// A poll never takes the sequencer back: it stays in its state or moves on
/// towards `Done`, and it leaves `RunningFirst` only when the first operand
/// can answer `Ready`.
pub proof fn lemma_step_moves_forward<
    A: PollableOperation<Output = ()>,
    B: PollableOperation<Output = ()>,
>(stage: Stage<A, B>, next: Stage<A, B>, out: Poll<()>)
    requires
        stage.step(next, out),
    ensures
        stage.rank() <= next.rank(),
        stage is RunningFirst && !(next is RunningFirst) ==> may_finish(stage->first),
        stage is RunningFirst && next is RunningFirst ==> next->RunningFirst_second
            == stage->RunningFirst_second,
{
}

/// In every run the states come in order: first `RunningFirst`, then
/// `RunningSecond`, then `Done`, none of them ever entered again.
pub proof fn lemma_run_is_ordered<
    A: PollableOperation<Output = ()>,
    B: PollableOperation<Output = ()>,
>(stages: Seq<Stage<A, B>>, outs: Seq<Poll<()>>, i: int, j: int)
    requires
        is_run(stages, outs),
        0 <= i <= j < stages.len(),
    ensures
        stages[i].rank() <= stages[j].rank(),
    decreases j - i,
{
    if i < j {
        lemma_run_is_ordered(stages, outs, i, j - 1);
        assert(stages[j - 1].step(stages[j], outs[j - 1]));
        lemma_step_moves_forward(stages[j - 1], stages[j], outs[j - 1]);
    }
}

/// The second operand is not polled before the first has finished: as long as
/// a run that began with `first` and `second` is in `RunningFirst`, it holds
/// `second` exactly as it was handed in.
pub proof fn lemma_second_waits_for_first<
    A: PollableOperation<Output = ()>,
    B: PollableOperation<Output = ()>,
>(stages: Seq<Stage<A, B>>, outs: Seq<Poll<()>>, first: A, second: B, i: int)
    requires
        is_run(stages, outs),
        stages[0] == (Stage::<A, B>::RunningFirst { first, second }),
        0 <= i < stages.len(),
        stages[i] is RunningFirst,
    ensures
        stages[i]->RunningFirst_second == second,
    decreases i,
{
    if i > 0 {
        lemma_run_is_ordered(stages, outs, i - 1, i);
        assert(stages[i - 1].step(stages[i], outs[i - 1]));
        lemma_step_moves_forward(stages[i - 1], stages[i], outs[i - 1]);
        lemma_second_waits_for_first(stages, outs, first, second, i - 1);
    }
}

/// A sequencer that is discarded while its first operand is still pending
/// gives up both operands, and the second one is as it was handed in: it was
/// never polled.
pub proof fn lemma_discard_while_first_pending<
    A: PollableOperation<Output = ()>,
    B: PollableOperation<Output = ()>,
>(stages: Seq<Stage<A, B>>, outs: Seq<Poll<()>>, first: A, second: B)
    requires
        is_run(stages, outs),
        stages[0] == (Stage::<A, B>::RunningFirst { first, second }),
        stages.last() is RunningFirst,
    ensures
        stages.last().owned() == (Some(stages.last()->first), Some(second)),
{
    lemma_second_waits_for_first(stages, outs, first, second, stages.len() - 1);
}

/// The two realizations cannot be told apart from outside: sequencers in the
/// same state may be polled together, and whatever step one of them can take
/// with some answer, the other can take with the same answer.
pub proof fn lemma_realizations_agree<
    A: PollableOperation<Output = ()>,
    B: PollableOperation<Output = ()>,
>(
    looping: manual::DoAThenB<A, B>,
    looping_next: manual::DoAThenB<A, B>,
    delegating: manual_opt::DoAThenB<A, B>,
    delegating_next: manual_opt::DoAThenB<A, B>,
    out: Poll<()>,
)
    requires
        looping@ == delegating@,
        looping_next@ == delegating_next@,
    ensures
        looping.pollable() == delegating.pollable(),
        looping.step(looping_next, out) == delegating.step(delegating_next, out),
{
}

} // verus!
