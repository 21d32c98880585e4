use vstd::prelude::*;

use core::marker::PhantomData;

use crate::context::{reported, step_start, Buffers, Context, Demand, IoState};

verus! {

/// The outcome of polling a coroutine once.
#[derive(Debug, PartialEq, Eq)]
pub enum Poll<T> {
    Ready(T),
    Pending,
}

/// A resumable computation that talks to its environment only through a
/// [`Context`].
///
/// `resume` is the model of one poll: the coroutine's next state, the I/O
/// state it leaves behind, and the outcome. Every coroutine states it, and its
/// `poll` keeps to it, leaves the input alone and writes only through the
/// output buffer it was lent.
pub trait Coroutine: Sized {
    type Output;

    /// One poll from this state, seeing `io`.
    spec fn resume(self, io: IoState) -> (Self, IoState, Poll<Self::Output>);

    fn poll(&mut self, cx: &mut Context<'_>) -> (r: Poll<Self::Output>)
        ensures
            (*final(self), final(cx)@, r) == old(self).resume(old(cx)@),
            final(cx)@.input == old(cx)@.input,
            final(cx)@.output.len() == old(cx)@.output.len(),
            final(final(cx).lent().output)@ == final(old(cx).lent().output)@,
    ;
}

/// The token through which a transformer reaches its buffers and registers
/// demands. It is handed out once, by [`crate::from_async`].
pub struct IoFuture {
    token: (),
}

impl IoFuture {
    /// The token that [`crate::from_async`] hands to the transformer it builds.
    pub closed spec fn fresh() -> IoFuture {
        IoFuture { token: () }
    }

    pub(crate) fn new() -> (io: IoFuture)
        ensures
            io == IoFuture::fresh(),
    {
        IoFuture { token: () }
    }

    /// A future that resolves to the buffers of the current step.
    pub fn get(&mut self) -> (g: GetBuffers<'_>)
        ensures
            g.is_unused(),
    {
        GetBuffers(Some(self))
    }

    /// A future that asks the environment to drop `many` input bytes, and
    /// resolves once it has.
    pub fn consume(&mut self, many: usize) -> (c: Consume<'_>)
        ensures
            c.request() == Some(many),
    {
        Consume(PhantomData, Some(many))
    }

    /// A future that asks the environment to emit the first `many` output
    /// bytes, and resolves once it has.
    pub fn write(&mut self, many: usize) -> (w: Write<'_>)
        ensures
            w.request() == Some(many),
    {
        Write(PhantomData, Some(many))
    }
}

impl Coroutine for IoFuture {
    type Output = ();

    /// Ready exactly when no demand is waiting for the environment.
    open spec fn resume(self, io: IoState) -> (IoFuture, IoState, Poll<()>) {
        (self, io, if io.demand is Idle { Poll::Ready(()) } else { Poll::Pending })
    }

    fn poll(&mut self, cx: &mut Context<'_>) -> (r: Poll<()>) {
        wait_for_environment(cx)
    }
}

/// Ready exactly when the environment has met every demand of this step.
fn wait_for_environment(cx: &Context<'_>) -> (r: Poll<()>)
    ensures
        r == (if cx@.demand is Idle { Poll::Ready(()) } else { Poll::<()>::Pending }),
{
    match cx.demand() {
        Demand::Idle => Poll::Ready(()),
        _ => Poll::Pending,
    }
}

/// Resolves to the buffers of the step in which it is polled.
pub struct GetBuffers<'lt>(Option<&'lt mut IoFuture>);

impl<'lt> GetBuffers<'lt> {
    /// Not yet polled to completion.
    pub closed spec fn is_unused(&self) -> bool {
        self.0 is Some
    }

    /// Always ready: lends out the buffers of the current step. A second
    /// poll is refused, the future having completed.
    pub fn poll<'c, 'b>(&mut self, cx: &'c mut Context<'b>) -> (r: Poll<Buffers<'c>>)
        requires
            old(self).is_unused(),
        ensures
            !final(self).is_unused(),
            r matches Poll::Ready(b) && {
                &&& b.input@ == old(cx)@.input
                &&& b.output@ == old(cx)@.output
                &&& final(cx)@ == (IoState { output: final(b.output)@, ..old(cx)@ })
            },
            final(final(cx).lent().output)@ == final(old(cx).lent().output)@,
    {
        self.0 = None;
        Poll::Ready(cx.lend())
    }
}

/// Asks the environment to drop bytes from the front of the input.
pub struct Consume<'lt>(PhantomData<&'lt mut IoFuture>, Option<usize>);

impl<'lt> Consume<'lt> {
    /// The amount still to be registered; `None` once the demand is out.
    pub closed spec fn request(&self) -> Option<usize> {
        self.1
    }

    /// The same future with its demand registered.
    pub closed spec fn cleared(self) -> Consume<'lt> {
        Consume(self.0, None)
    }

    /// Once registered, nothing is left to register.
    pub broadcast proof fn lemma_cleared(self)
        ensures
            #[trigger] self.cleared().request() is None,
    {
    }
}

/// The next state of a demand-registering future: the first poll registers
/// `demand` and stalls; later polls wait for the environment to clear it.
pub open spec fn register_then_wait(
    request: Option<usize>,
    demand: Demand,
    io: IoState,
) -> (IoState, Poll<()>) {
    match request {
        Some(_) => (IoState { demand, ..io }, Poll::Pending),
        None => (io, if io.demand is Idle { Poll::Ready(()) } else { Poll::Pending }),
    }
}

impl<'lt> Coroutine for Consume<'lt> {
    type Output = ();

    open spec fn resume(self, io: IoState) -> (Consume<'lt>, IoState, Poll<()>) {
        let demand = match self.request() {
            Some(n) => Demand::Consume(n),
            None => io.demand,
        };
        let (next_io, r) = register_then_wait(self.request(), demand, io);
        (self.cleared(), next_io, r)
    }

    fn poll(&mut self, cx: &mut Context<'_>) -> (r: Poll<()>) {
        if let Some(many) = self.1.take() {
            cx.register(Demand::Consume(many));
        }
        wait_for_environment(cx)
    }
}

/// Asks the environment to emit bytes from the front of the output buffer.
pub struct Write<'lt>(PhantomData<&'lt mut IoFuture>, Option<usize>);

impl<'lt> Write<'lt> {
    /// The amount still to be registered; `None` once the demand is out.
    pub closed spec fn request(&self) -> Option<usize> {
        self.1
    }

    /// The same future with its demand registered.
    pub closed spec fn cleared(self) -> Write<'lt> {
        Write(self.0, None)
    }

    /// Once registered, nothing is left to register.
    pub broadcast proof fn lemma_cleared(self)
        ensures
            #[trigger] self.cleared().request() is None,
    {
    }
}

/// What holds of the demand-registering futures wherever they are used.
pub broadcast group group_registered {
    Consume::lemma_cleared,
    Write::lemma_cleared,
}

impl<'lt> Coroutine for Write<'lt> {
    type Output = ();

    open spec fn resume(self, io: IoState) -> (Write<'lt>, IoState, Poll<()>) {
        let demand = match self.request() {
            Some(n) => Demand::Write(n),
            None => io.demand,
        };
        let (next_io, r) = register_then_wait(self.request(), demand, io);
        (self.cleared(), next_io, r)
    }

    fn poll(&mut self, cx: &mut Context<'_>) -> (r: Poll<()>) {
        if let Some(many) = self.1.take() {
            cx.register(Demand::Write(many));
        }
        wait_for_environment(cx)
    }
}

/// A consume request is handed to the environment by the step that first polls
/// it, with the buffers left as they were; in any later step the future
/// resolves without touching the buffers, so that step reports nothing on its
/// behalf.
pub proof fn lemma_consume_handshake(
    c: Consume,
    many: usize,
    first: (Seq<u8>, Seq<u8>),
    next: (Seq<u8>, Seq<u8>),
)
    requires
        c.request() == Some(many),
    ensures
        ({
            let (c1, io1, r1) = c.resume(step_start(first.0, first.1));
            let (c2, io2, r2) = c1.resume(step_start(next.0, next.1));
            &&& reported(io1, r1) == Demand::Consume(many)
            &&& io1.input == first.0 && io1.output == first.1
            &&& r2 is Ready
            &&& io2 == step_start(next.0, next.1)
            &&& c2.request() is None
        }),
{
    broadcast use group_registered;
}

/// A write request is handed to the environment by the step that first polls
/// it, with the buffers left as they were; in any later step the future
/// resolves without touching the buffers, so that step reports nothing on its
/// behalf.
pub proof fn lemma_write_handshake(
    w: Write,
    many: usize,
    first: (Seq<u8>, Seq<u8>),
    next: (Seq<u8>, Seq<u8>),
)
    requires
        w.request() == Some(many),
    ensures
        ({
            let (w1, io1, r1) = w.resume(step_start(first.0, first.1));
            let (w2, io2, r2) = w1.resume(step_start(next.0, next.1));
            &&& reported(io1, r1) == Demand::Write(many)
            &&& io1.input == first.0 && io1.output == first.1
            &&& r2 is Ready
            &&& io2 == step_start(next.0, next.1)
            &&& w2.request() is None
        }),
{
    broadcast use group_registered;
}

/// The token never touches the I/O state, and waits exactly while a demand is
/// pending; in particular it is ready at the start of every step.
pub proof fn lemma_token_waits_for_environment(f: IoFuture, io: IoState)
    ensures
        f.resume(io).1 == io,
        f.resume(io).2 is Ready <==> io.demand is Idle,
        f.resume(step_start(io.input, io.output)).2 is Ready,
{
}

} // verus!
