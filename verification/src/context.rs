use vstd::prelude::*;

use crate::coroutine::Poll;

verus! {

/// What the environment must do before the transformer can make progress.
#[derive(Debug, Clone, Copy, PartialEq, Eq, Structural)]
pub enum Demand {
    /// Nothing is asked of the environment: the transformer has run to completion.
    Idle,
    /// Drop this many bytes from the front of the input.
    Consume(usize),
    /// Emit this many bytes from the front of the output buffer.
    Write(usize),
}

impl Default for Demand {
    fn default() -> (d: Self)
        ensures
            d is Idle,
    {
        Demand::Idle
    }
}

/// The buffers handed to the transformer for one step.
pub struct Buffers<'lt> {
    pub input: &'lt [u8],
    pub output: &'lt mut [u8],
}

/// What a poll can observe of the environment: the input bytes, the output
/// bytes, and the demand registered so far in this step.
pub ghost struct IoState {
    pub input: Seq<u8>,
    pub output: Seq<u8>,
    pub demand: Demand,
}

/// The I/O state a step starts from: the step's buffers, no demand yet.
pub open spec fn step_start(input: Seq<u8>, output: Seq<u8>) -> IoState {
    IoState { input, output, demand: Demand::Idle }
}

/// What a step reports to the environment after the poll that ends it:
/// nothing once the coroutine has completed, else the demand it left behind.
pub open spec fn reported<T>(io: IoState, r: Poll<T>) -> Demand {
    if r is Ready { Demand::Idle } else { io.demand }
}

/// The state through which a transformer and the environment communicate
/// while the transformer is polled.
pub struct Context<'a> {
    buffers: Buffers<'a>,
    demand: Demand,
}

impl<'a> View for Context<'a> {
    type V = IoState;

    closed spec fn view(&self) -> IoState {
        IoState { input: self.buffers.input@, output: self.buffers.output@, demand: self.demand }
    }
}

impl<'a> Context<'a> {
    /// The buffers the context lends out.
    pub closed spec fn lent(&self) -> Buffers<'a> {
        self.buffers
    }

    /// Install the buffers of a step; no demand is pending yet.
    pub(crate) fn new(buffers: Buffers<'a>) -> (cx: Self)
        ensures
            cx@ == (IoState { input: buffers.input@, output: old(buffers.output)@, demand: Demand::Idle }),
            cx.lent() == buffers,
    {
        Context { buffers, demand: Demand::Idle }
    }

    /// Give the buffers back, ending the step.
    pub(crate) fn into_buffers(self) -> (b: Buffers<'a>)
        ensures
            b == self.lent(),
            b.input@ == self@.input,
            b.output@ == self@.output,
    {
        self.buffers
    }

    /// The demand registered so far.
    pub(crate) fn demand(&self) -> (d: Demand)
        ensures
            d == self@.demand,
    {
        self.demand
    }

    /// Hand the registered demand to the environment, leaving none pending.
    pub(crate) fn take_demand(&mut self) -> (d: Demand)
        ensures
            d == old(self)@.demand,
            final(self)@ == (IoState { demand: Demand::Idle, ..old(self)@ }),
            final(self).lent() == old(self).lent(),
    {
        let d = self.demand;
        self.demand = Demand::Idle;
        d
    }

    pub(crate) fn register(&mut self, d: Demand)
        ensures
            final(self)@ == (IoState { demand: d, ..old(self)@ }),
            final(self).lent() == old(self).lent(),
    {
        self.demand = d;
    }

    /// Lend out the step's buffers for as long as the context is borrowed.
    pub(crate) fn lend<'c>(&'c mut self) -> (b: Buffers<'c>)
        ensures
            b.input@ == old(self)@.input,
            b.output@ == old(self)@.output,
            final(self)@ == (IoState { output: final(b.output)@, ..old(self)@ }),
            final(final(self).lent().output)@ == final(old(self).lent().output)@,
    {
        Buffers { input: self.buffers.input, output: &mut *self.buffers.output }
    }
}

} // verus!
