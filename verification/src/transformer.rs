use vstd::prelude::*;

use crate::context::{reported, step_start, Buffers, Context, Demand, IoState};
use crate::coroutine::{Coroutine, IoFuture, Poll};

verus! {

/// Whether a poll ends a step: the coroutine completed, or asked something of
/// the environment.
pub open spec fn ends_step<T>(io: IoState, r: Poll<T>) -> bool {
    r is Ready || !(io.demand is Idle)
}

/// Polling `c` over and over with the same input, each poll starting with no
/// demand and with the output as the previous poll left it, ends the step
/// within `k` polls after the first.
pub open spec fn settles_within<C: Coroutine>(c: C, input: Seq<u8>, output: Seq<u8>, k: nat) -> bool
    decreases k,
{
    let (next, io, r) = c.resume(step_start(input, output));
    if ends_step(io, r) {
        true
    } else if k == 0 {
        false
    } else {
        settles_within(next, input, io.output, (k - 1) as nat)
    }
}

/// The coroutine, the I/O state and the outcome of the poll that ends the
/// step, polling at most `k` times after the first.
pub open spec fn settled<C: Coroutine>(c: C, input: Seq<u8>, output: Seq<u8>, k: nat) -> (C, IoState, Poll<C::Output>)
    decreases k,
{
    let (next, io, r) = c.resume(step_start(input, output));
    if ends_step(io, r) || k == 0 {
        (next, io, r)
    } else {
        settled(next, input, io.output, (k - 1) as nat)
    }
}

/// The step from `c` ends after finitely many polls.
pub open spec fn settles<C: Coroutine>(c: C, input: Seq<u8>, output: Seq<u8>) -> bool {
    exists|k: nat| settles_within(c, input, output, k)
}

/// How the step from `c` ends: the poll after which it stops polling.
pub open spec fn step_end<C: Coroutine>(c: C, input: Seq<u8>, output: Seq<u8>) -> (C, IoState, Poll<C::Output>) {
    settled(c, input, output, choose|k: nat| settles_within(c, input, output, k))
}

/// The poll that ends a step completed or left a demand.
proof fn lemma_settled_ends<C: Coroutine>(c: C, input: Seq<u8>, output: Seq<u8>, k: nat)
    requires
        settles_within(c, input, output, k),
    ensures
        ends_step(settled(c, input, output, k).1, settled(c, input, output, k).2),
    decreases k,
{
    let (next, io, r) = c.resume(step_start(input, output));
    if !ends_step(io, r) {
        lemma_settled_ends(next, input, io.output, (k - 1) as nat);
    }
}

/// Once a step settles within `k` polls, it settles the same way within any
/// larger budget.
proof fn lemma_settled_stable<C: Coroutine>(c: C, input: Seq<u8>, output: Seq<u8>, k: nat, j: nat)
    requires
        settles_within(c, input, output, k),
        k <= j,
    ensures
        settles_within(c, input, output, j),
        settled(c, input, output, j) == settled(c, input, output, k),
    decreases k,
{
    let (next, io, r) = c.resume(step_start(input, output));
    if !(r is Ready || !(io.demand is Idle)) {
        lemma_settled_stable(next, input, io.output, (k - 1) as nat, (j - 1) as nat);
    }
}

/// Any two budgets within which a step settles give the same end.
proof fn lemma_settled_unique<C: Coroutine>(c: C, input: Seq<u8>, output: Seq<u8>, k: nat, j: nat)
    requires
        settles_within(c, input, output, k),
        settles_within(c, input, output, j),
    ensures
        settled(c, input, output, j) == settled(c, input, output, k),
{
    if k <= j {
        lemma_settled_stable(c, input, output, k, j);
    } else {
        lemma_settled_stable(c, input, output, j, k);
    }
}

/// A poll that completes, or that leaves any demand at all, ends the step: the
/// step reports exactly that poll, whatever the buffers and whatever the
/// demand.
pub proof fn lemma_step_ends_at_first_demand<C: Coroutine>(c: C, input: Seq<u8>, output: Seq<u8>)
    requires
        ({
            let (next, io, r) = c.resume(step_start(input, output));
            r is Ready || !(io.demand is Idle)
        }),
    ensures
        settles(c, input, output),
        step_end(c, input, output) == c.resume(step_start(input, output)),
{
    assert(settles_within(c, input, output, 0));
}

/// A poll that stalls without asking anything does not end the step: the
/// step goes on exactly as a step from the stalled state would, with the
/// output as that poll left it.
pub proof fn lemma_stall_carries_output<C: Coroutine>(c: C, input: Seq<u8>, output: Seq<u8>)
    requires
        settles(c, input, output),
        ({
            let (next, io, r) = c.resume(step_start(input, output));
            r is Pending && io.demand is Idle
        }),
    ensures
        ({
            let (next, io, r) = c.resume(step_start(input, output));
            &&& settles(next, input, io.output)
            &&& step_end(c, input, output) == step_end(next, input, io.output)
        }),
{
    let (next, io, r) = c.resume(step_start(input, output));
    let k = choose|k: nat| settles_within(c, input, output, k);
    assert(k > 0);
    assert(settles_within(next, input, io.output, (k - 1) as nat));
    let j = choose|j: nat| settles_within(next, input, io.output, j);
    lemma_settled_unique(next, input, io.output, (k - 1) as nat, j);
}

/// Runs one step of a transformer.
pub trait Sealed: Coroutine<Output = ()> {
    /// Poll with the step's buffers, each poll starting with no demand, until
    /// the transformer completes or asks something of the environment, and
    /// hand back what the environment must do: `Demand::Idle` exactly when
    /// the transformer has completed. The step must end after finitely many
    /// polls.
    fn step(&mut self, buffers: Buffers<'_>) -> (d: Demand)
        requires
            settles(*old(self), buffers.input@, old(buffers.output)@),
        ensures
            ({
                let (next, io, r) = step_end(*old(self), buffers.input@, old(buffers.output)@);
                &&& *final(self) == next
                &&& final(buffers.output)@ == io.output
                &&& io.input == buffers.input@
                &&& d == reported(io, r)
                &&& (r is Ready || !(io.demand is Idle))
                &&& (r is Ready ==> d is Idle)
                &&& (r is Pending ==> d == io.demand)
                &&& (d is Idle <==> r is Ready)
            }),
            ({
                let (n1, io1, r1) = (*old(self)).resume(step_start(buffers.input@, old(buffers.output)@));
                (r1 is Ready || !(io1.demand is Idle)) ==> {
                    &&& *final(self) == n1
                    &&& final(buffers.output)@ == io1.output
                    &&& d == (if r1 is Ready { Demand::Idle } else { io1.demand })
                }
            }),
            ({
                let (n1, io1, r1) = (*old(self)).resume(step_start(buffers.input@, old(buffers.output)@));
                (r1 is Pending && io1.demand is Idle) ==> {
                    &&& settles(n1, buffers.input@, io1.output)
                    &&& step_end(*old(self), buffers.input@, old(buffers.output)@)
                        == step_end(n1, buffers.input@, io1.output)
                }
            }),
    ;
}

impl<F: Coroutine<Output = ()>> Sealed for F {
    fn step(&mut self, buffers: Buffers<'_>) -> (d: Demand) {
        let ghost input = buffers.input@;
        let ghost output = buffers.output@;
        let ghost start = *self;
        let ghost budget = choose|k: nat| settles_within(start, input, output, k);
        let ghost mut k: nat = budget;
        let mut cx = Context::new(buffers);
        let d;
        loop
            invariant_except_break
                cx@ == step_start(input, cx@.output),
                settles_within(*self, input, cx@.output, k),
                settled(*self, input, cx@.output, k) == settled(start, input, output, budget),
            invariant
                cx@.input == input,
                final(cx.lent().output)@ == final(buffers.output)@,
            ensures
                ({
                    let (next, io, r) = settled(start, input, output, budget);
                    &&& *self == next
                    &&& cx@.output == io.output
                    &&& io.input == input
                    &&& d == reported(io, r)
                    &&& ends_step(io, r)
                    &&& (d is Idle <==> r is Ready)
                }),
            decreases k,
        {
            let ghost before = cx@;
            let ghost c = *self;
            let r = self.poll(&mut cx);
            proof {
                lemma_settled_ends(c, input, before.output, k);
            }
            match r {
                Poll::Ready(()) => {
                    d = Demand::Idle;
                    break;
                }
                Poll::Pending => {
                    let demand = cx.take_demand();
                    match demand {
                        Demand::Idle => {
                            proof {
                                k = (k - 1) as nat;
                            }
                        }
                        _ => {
                            d = demand;
                            break;
                        }
                    }
                }
            }
        }
        let _ = cx.into_buffers();
        proof {
            let (n1, io1, r1) = start.resume(step_start(input, output));
            if r1 is Ready || !(io1.demand is Idle) {
                lemma_step_ends_at_first_demand(start, input, output);
            } else {
                lemma_stall_carries_output(start, input, output);
            }
        }
        d
    }
}

/// The transformers a [`SansIO`] can drive.
pub trait Interface: Sealed {}

impl<T: Sealed> Interface for T {}

/// A transformer that consumes input bytes and produces output bytes on
/// demand, without doing any I/O of its own.
///
/// Once a step has reported `Demand::Idle` the transformer has completed and
/// is not stepped again.
pub struct SansIO<T: Interface> {
    inner: T,
    completed: bool,
}

impl<T: Interface> SansIO<T> {
    /// The transformer being driven.
    pub closed spec fn coroutine(&self) -> T {
        self.inner
    }

    /// A step has reported that the transformer completed.
    pub closed spec fn has_completed(&self) -> bool {
        self.completed
    }

    /// Whether a step has reported that the transformer completed; it must
    /// not be stepped again.
    pub fn is_finished(&self) -> (b: bool)
        ensures
            b == self.has_completed(),
    {
        self.completed
    }

    /// Run the transformer on one filling of the buffers until it completes
    /// (`Demand::Idle`) or needs the environment to consume input or emit
    /// output, polling it again while it stalls without asking for anything.
    /// The transformer starts each poll with no demand pending, sees exactly
    /// these buffers, and what it writes to the output buffer stays there. A
    /// completed transformer is not stepped again, and the step must end
    /// after finitely many polls.
    pub fn step(this: &mut Self, buffers: Buffers<'_>) -> (d: Demand)
        requires
            !old(this).has_completed(),
            settles(old(this).coroutine(), buffers.input@, old(buffers.output)@),
        ensures
            final(this).has_completed() == (d is Idle),
            ({
                let (next, io, r) = step_end(old(this).coroutine(), buffers.input@, old(buffers.output)@);
                &&& final(this).coroutine() == next
                &&& final(buffers.output)@ == io.output
                &&& io.input == buffers.input@
                &&& d == reported(io, r)
                &&& (r is Ready || !(io.demand is Idle))
                &&& (r is Ready ==> d is Idle)
                &&& (r is Pending ==> d == io.demand)
                &&& (d is Idle <==> r is Ready)
            }),
            ({
                let (n1, io1, r1) = old(this).coroutine().resume(step_start(buffers.input@, old(buffers.output)@));
                (r1 is Ready || !(io1.demand is Idle)) ==> {
                    &&& final(this).coroutine() == n1
                    &&& final(buffers.output)@ == io1.output
                    &&& d == (if r1 is Ready { Demand::Idle } else { io1.demand })
                }
            }),
            ({
                let (n1, io1, r1) = old(this).coroutine().resume(step_start(buffers.input@, old(buffers.output)@));
                (r1 is Pending && io1.demand is Idle) ==> {
                    &&& settles(n1, buffers.input@, io1.output)
                    &&& step_end(old(this).coroutine(), buffers.input@, old(buffers.output)@)
                        == step_end(n1, buffers.input@, io1.output)
                }
            }),
    {
        let d = this.inner.step(buffers);
        this.completed = match d {
            Demand::Idle => true,
            _ => false,
        };
        d
    }
}

/// Build a transformer from a constructor that receives the I/O token.
pub fn from_async<F: Interface>(mk: impl FnOnce(IoFuture) -> F) -> (t: SansIO<F>)
    requires
        mk.requires((IoFuture::fresh(),)),
    ensures
        mk.ensures((IoFuture::fresh(),), t.coroutine()),
        !t.has_completed(),
{
    let inner = mk(IoFuture::new());
    SansIO { inner, completed: false }
}

} // verus!
