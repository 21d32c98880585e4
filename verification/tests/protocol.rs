use std::cell::RefCell;
use std::rc::Rc;

use not_io::{from_async, Buffers, Context, Coroutine, Demand, IoFuture, IoState, Poll, SansIO};

type Log = Rc<RefCell<Vec<&'static str>>>;

fn note(log: &Log, r: Poll<()>) {
    log.borrow_mut().push(match r {
        Poll::Ready(()) => "ready",
        Poll::Pending => "pending",
    });
}

/// A transformer with nothing to do.
struct Finished;

impl Coroutine for Finished {
    type Output = ();

    fn resume(self, _io: IoState) -> (Self, IoState, Poll<()>) {
        unreachable!("a model of a poll, for verification only")
    }

    fn poll(&mut self, _cx: &mut Context<'_>) -> Poll<()> {
        Poll::Ready(())
    }
}

/// Asks once for `many` bytes to be consumed, then completes.
struct ConsumeOnce {
    io: IoFuture,
    many: usize,
    asked: bool,
}

impl Coroutine for ConsumeOnce {
    type Output = ();

    fn resume(self, _io: IoState) -> (Self, IoState, Poll<()>) {
        unreachable!("a model of a poll, for verification only")
    }

    fn poll(&mut self, cx: &mut Context<'_>) -> Poll<()> {
        if self.asked {
            return self.io.poll(cx);
        }
        self.asked = true;
        self.io.consume(self.many).poll(cx)
    }
}

/// Copies as much input as fits into the output, asks for it to be written,
/// then completes.
struct EchoOnce {
    io: IoFuture,
    asked: bool,
}

impl Coroutine for EchoOnce {
    type Output = ();

    fn resume(self, _io: IoState) -> (Self, IoState, Poll<()>) {
        unreachable!("a model of a poll, for verification only")
    }

    fn poll(&mut self, cx: &mut Context<'_>) -> Poll<()> {
        if self.asked {
            return self.io.poll(cx);
        }
        let len = match self.io.get().poll(cx) {
            Poll::Ready(buffers) => {
                let len = buffers.input.len().min(buffers.output.len());
                buffers.output[..len].copy_from_slice(&buffers.input[..len]);
                len
            }
            Poll::Pending => return Poll::Pending,
        };
        self.asked = true;
        self.io.write(len).poll(cx)
    }
}

/// Polls the token, registers a write, polls the token and the write future
/// again within the same poll, and on the next step polls the token once more.
struct TokenProbe {
    io: IoFuture,
    log: Log,
    asked: bool,
}

impl Coroutine for TokenProbe {
    type Output = ();

    fn resume(self, _io: IoState) -> (Self, IoState, Poll<()>) {
        unreachable!("a model of a poll, for verification only")
    }

    fn poll(&mut self, cx: &mut Context<'_>) -> Poll<()> {
        if self.asked {
            let r = self.io.poll(cx);
            note(&self.log, r);
            return Poll::Ready(());
        }
        self.asked = true;
        let r = self.io.poll(cx);
        note(&self.log, r);
        let mut write = self.io.write(1);
        let r = write.poll(cx);
        note(&self.log, r);
        let r = write.poll(cx);
        note(&self.log, r);
        let r = self.io.poll(cx);
        note(&self.log, r);
        Poll::Pending
    }
}

/// Stalls `stalls` times without asking anything, then asks for `then`
/// bytes to be written (or completes, for `None`).
struct Stalling {
    io: IoFuture,
    stalls: usize,
    then: Option<usize>,
    polls: Log,
}

impl Coroutine for Stalling {
    type Output = ();

    fn resume(self, _io: IoState) -> (Self, IoState, Poll<()>) {
        unreachable!("a model of a poll, for verification only")
    }

    fn poll(&mut self, cx: &mut Context<'_>) -> Poll<()> {
        self.polls.borrow_mut().push("poll");
        if self.stalls > 0 {
            self.stalls -= 1;
            return Poll::Pending;
        }
        match self.then.take() {
            Some(many) => self.io.write(many).poll(cx),
            None => Poll::Ready(()),
        }
    }
}

#[test]
fn demand_defaults_to_idle() {
    assert_eq!(Demand::default(), Demand::Idle);
}

#[test]
fn the_token_waits_exactly_while_a_demand_is_pending() {
    let log: Log = Rc::default();
    let probe_log = log.clone();
    let mut t = from_async(move |io| TokenProbe { io, log: probe_log, asked: false });
    let mut obuf = [0u8; 1];
    assert_eq!(SansIO::step(&mut t, Buffers { input: &[1], output: &mut obuf }), Demand::Write(1));
    // Ready before any demand; the write registers and waits, waits again
    // without registering twice, and the token waits behind it.
    assert_eq!(*log.borrow(), vec!["ready", "pending", "pending", "pending"]);
    assert_eq!(SansIO::step(&mut t, Buffers { input: &[1], output: &mut obuf }), Demand::Idle);
    // The next step starts with the demand met.
    assert_eq!(*log.borrow(), vec!["ready", "pending", "pending", "pending", "ready"]);
}

#[test]
fn a_consume_demand_is_reported_and_then_met() {
    let mut t = from_async(|io| ConsumeOnce { io, many: 3, asked: false });
    let input = [1u8, 2, 3, 4];
    let mut obuf = [0u8; 4];
    assert_eq!(SansIO::step(&mut t, Buffers { input: &input, output: &mut obuf }), Demand::Consume(3));
    assert_eq!(SansIO::step(&mut t, Buffers { input: &input[3..], output: &mut obuf }), Demand::Idle);
}

#[test]
fn a_write_demand_is_reported_with_the_output_in_place() {
    let mut t = from_async(|io| EchoOnce { io, asked: false });
    let input = [5u8, 6, 7, 8];
    let mut obuf = [0u8; 3];
    assert_eq!(SansIO::step(&mut t, Buffers { input: &input, output: &mut obuf }), Demand::Write(3));
    assert_eq!(obuf, [5u8, 6, 7]);
    assert_eq!(SansIO::step(&mut t, Buffers { input: &input, output: &mut obuf }), Demand::Idle);
    assert_eq!(obuf, [5u8, 6, 7]);
}

#[test]
fn a_finished_transformer_reports_nothing() {
    let mut t = from_async(|_io| Finished);
    let mut obuf = [0u8; 1];
    assert!(!t.is_finished());
    assert_eq!(SansIO::step(&mut t, Buffers { input: &[], output: &mut obuf }), Demand::Idle);
    assert!(t.is_finished());
}

#[test]
fn from_async_hands_the_token_to_the_constructor() {
    let mut called = 0;
    let mut t = from_async(|io| {
        called += 1;
        ConsumeOnce { io, many: 1, asked: false }
    });
    assert_eq!(called, 1);
    let mut obuf = [0u8; 1];
    assert_eq!(SansIO::step(&mut t, Buffers { input: &[1], output: &mut obuf }), Demand::Consume(1));
}

#[test]
fn a_stall_without_demand_is_polled_again_within_the_step() {
    let polls: Log = Rc::default();
    let counted = polls.clone();
    let mut t = from_async(move |io| Stalling { io, stalls: 2, then: Some(4), polls: counted });
    let mut obuf = [0u8; 4];
    assert_eq!(SansIO::step(&mut t, Buffers { input: &[1], output: &mut obuf }), Demand::Write(4));
    assert_eq!(polls.borrow().len(), 3);
    assert_eq!(SansIO::step(&mut t, Buffers { input: &[1], output: &mut obuf }), Demand::Idle);
    assert_eq!(polls.borrow().len(), 4);
}

#[test]
fn a_stall_before_completing_ends_in_one_step() {
    let polls: Log = Rc::default();
    let counted = polls.clone();
    let mut t = from_async(move |io| Stalling { io, stalls: 1, then: None, polls: counted });
    let mut obuf = [0u8; 1];
    assert_eq!(SansIO::step(&mut t, Buffers { input: &[], output: &mut obuf }), Demand::Idle);
    assert_eq!(polls.borrow().len(), 2);
    assert!(t.is_finished());
}

#[test]
fn completion_is_recorded_by_the_step_that_reports_it() {
    let mut t = from_async(|io| ConsumeOnce { io, many: 1, asked: false });
    assert!(!t.is_finished());
    let mut obuf = [0u8; 1];
    assert_eq!(SansIO::step(&mut t, Buffers { input: &[1], output: &mut obuf }), Demand::Consume(1));
    assert!(!t.is_finished());
    assert_eq!(SansIO::step(&mut t, Buffers { input: &[], output: &mut obuf }), Demand::Idle);
    assert!(t.is_finished());
}
