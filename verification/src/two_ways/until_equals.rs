//! Repetition: operations are produced and driven, one after another, until
//! one of them yields a wanted number.

use core::task::Poll;
use vstd::prelude::*;

pub mod manual;

verus! {

/// What a repetition aimed at `check` answers once a produced operation has
/// yielded `num`: `Ready` on a match, otherwise `Pending`, and the next
/// operation is then due.
pub fn verdict(check: u32, num: u32) -> (out: Poll<()>)
    ensures
        out is Ready <==> num == check,
        out is Pending <==> num != check,
{
    if num == check {
        Poll::Ready(())
    } else {
        Poll::Pending
    }
}

} // verus!
