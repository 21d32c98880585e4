//! A sans-IO transformer driven by explicit I/O demands, and the trait table
//! behind readers and writers whose optional traits are chosen at runtime.
//!
//! A transformer is a [`Coroutine`] that reaches its input and output buffers
//! only through the [`IoFuture`] token it is built with. Each
//! [`SansIO::step`] polls it with the buffers of that step, again while it
//! stalls without asking anything, and reports a [`Demand`]: drop input
//! bytes, emit output bytes, or nothing once it has completed. The environment meets the demand and steps again.

mod context;
mod coroutine;
mod transformer;
mod vtable;

pub use context::{reported, step_start, Buffers, Context, Demand, IoState};
pub use coroutine::{
    lemma_consume_handshake, lemma_token_waits_for_environment, lemma_write_handshake, Consume,
    Coroutine, GetBuffers, IoFuture, Poll, Write,
};
pub use transformer::{
    ends_step, from_async, lemma_stall_carries_output, lemma_step_ends_at_first_demand, settled,
    settles, settles_within, step_end, Interface, SansIO, Sealed,
};
pub use vtable::{OptTable, Slots};
