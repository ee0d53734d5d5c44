use poll_combinators::operation::PollableOperation;
use poll_combinators::two_ways::until_equals::manual::until_equals;
use poll_combinators::two_ways::until_equals::verdict;
use std::cell::{Cell, RefCell};
use std::rc::Rc;
use std::sync::Arc;
use std::task::{Context, Poll, Wake, Waker};

struct Quiet;

impl Wake for Quiet {
    fn wake(self: Arc<Self>) {}
}

fn quiet_waker() -> Waker {
    Waker::from(Arc::new(Quiet))
}

/// Yields `value` after answering `Pending` a given number of times, and
/// keeps a record of every poll under its own serial number.
struct Number {
    serial: u32,
    value: u32,
    pending: u32,
    finished: bool,
    polls: Rc<RefCell<Vec<u32>>>,
}

impl PollableOperation for Number {
    type Output = u32;

    fn poll(&mut self, _cx: &mut Context<'_>) -> Poll<u32> {
        assert!(!self.finished, "operation {} was polled after it had finished", self.serial);
        self.polls.borrow_mut().push(self.serial);
        if self.pending > 0 {
            self.pending -= 1;
            Poll::Pending
        } else {
            self.finished = true;
            Poll::Ready(self.value)
        }
    }
}

#[test]
fn verdict_is_ready_on_a_match_only() {
    assert_eq!(verdict(4, 4), Poll::Ready(()));
    assert_eq!(verdict(4, 3), Poll::Pending);
    assert_eq!(verdict(4, 5), Poll::Pending);
    assert_eq!(verdict(0, 0), Poll::Ready(()));
    assert_eq!(verdict(0, u32::MAX), Poll::Pending);
    assert_eq!(verdict(u32::MAX, u32::MAX), Poll::Ready(()));
}

#[test]
fn counting_factory_reaches_four_after_four_invocations() {
    let calls = Rc::new(Cell::new(0u32));
    let polls = Rc::new(RefCell::new(Vec::new()));
    let factory = {
        let calls = Rc::clone(&calls);
        let polls = Rc::clone(&polls);
        move || {
            calls.set(calls.get() + 1);
            Number {
                serial: calls.get(),
                value: calls.get(),
                pending: 0,
                finished: false,
                polls: Rc::clone(&polls),
            }
        }
    };
    let waker = quiet_waker();
    let mut cx = Context::from_waker(&waker);
    let mut rep = until_equals(4, factory);
    assert_eq!(rep.check(), 4);
    assert!(rep.is_idle());
    assert_eq!(calls.get(), 0);

    for round in 1..4 {
        assert_eq!(rep.poll(&mut cx), Poll::Pending);
        assert_eq!(calls.get(), round);
        assert!(rep.is_idle());
    }
    assert_eq!(rep.poll(&mut cx), Poll::Ready(()));
    assert_eq!(calls.get(), 4);
    assert!(rep.is_idle());
    assert_eq!(*polls.borrow(), vec![1, 2, 3, 4]);
}

#[test]
fn pending_operation_is_kept_and_polled_again() {
    let calls = Rc::new(Cell::new(0u32));
    let polls = Rc::new(RefCell::new(Vec::new()));
    let factory = {
        let calls = Rc::clone(&calls);
        let polls = Rc::clone(&polls);
        move || {
            calls.set(calls.get() + 1);
            Number {
                serial: calls.get(),
                value: calls.get() * 10,
                pending: 2,
                finished: false,
                polls: Rc::clone(&polls),
            }
        }
    };
    let waker = quiet_waker();
    let mut cx = Context::from_waker(&waker);
    let mut rep = until_equals(20, factory);

    assert_eq!(rep.poll(&mut cx), Poll::Pending);
    assert!(!rep.is_idle());
    assert_eq!(rep.poll(&mut cx), Poll::Pending);
    assert_eq!(calls.get(), 1);
    assert_eq!(rep.poll(&mut cx), Poll::Pending);
    assert!(rep.is_idle());
    assert_eq!(calls.get(), 1);

    assert_eq!(rep.poll(&mut cx), Poll::Pending);
    assert_eq!(calls.get(), 2);
    assert_eq!(rep.poll(&mut cx), Poll::Pending);
    assert_eq!(rep.poll(&mut cx), Poll::Ready(()));
    assert_eq!(calls.get(), 2);
    assert_eq!(*polls.borrow(), vec![1, 1, 1, 2, 2, 2]);
}

#[test]
fn without_the_target_the_answer_stays_pending() {
    let calls = Rc::new(Cell::new(0u32));
    let polls = Rc::new(RefCell::new(Vec::new()));
    let factory = {
        let calls = Rc::clone(&calls);
        let polls = Rc::clone(&polls);
        move || {
            calls.set(calls.get() + 1);
            Number {
                serial: calls.get(),
                value: calls.get() % 5 + 1,
                pending: calls.get() % 2,
                finished: false,
                polls: Rc::clone(&polls),
            }
        }
    };
    let waker = quiet_waker();
    let mut cx = Context::from_waker(&waker);
    let mut rep = until_equals(6, factory);
    for _ in 0..1000 {
        assert_eq!(rep.poll(&mut cx), Poll::Pending);
    }
    assert_eq!(rep.check(), 6);
    assert!(calls.get() > 5);
}

#[test]
fn first_operation_may_already_hold_the_target() {
    let polls = Rc::new(RefCell::new(Vec::new()));
    let factory = {
        let polls = Rc::clone(&polls);
        move || Number { serial: 1, value: 0, pending: 0, finished: false, polls: Rc::clone(&polls) }
    };
    let waker = quiet_waker();
    let mut cx = Context::from_waker(&waker);
    let mut rep = until_equals(0, factory);
    assert_eq!(rep.poll(&mut cx), Poll::Ready(()));
    assert_eq!(*polls.borrow(), vec![1]);
}
