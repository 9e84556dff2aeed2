//! Single-threaded channels for thread-per-core runtimes, as verified state machines.
//!
//! - [`mpsc`]: multi-producer, single-consumer, bounded (a fixed ring) and unbounded (a
//!   segmented block list that never moves its items). Non-blocking `try_send` and
//!   `try_recv`, plus steppable `send` and `recv` futures.
//! - [`mpmc`]: multi-producer, multi-consumer, in the same flavors. Every receiver clone is
//!   another consumer, and a delivered item goes to exactly one of them.
//! - [`oneshot`]: a single value sent once; the receiver is itself the future.
//!
//! A channel is a plain value, and every handle method takes it explicitly: what an
//! operation does is stated as one transition on the channel's model. The models stand in
//! the `model` modules, what each operation is for in the `behaviour` modules, and what
//! holds over every run of operations in the `laws` modules.
//!
//! Waking, cloning or dropping a waker runs foreign code that may use the channel again. So
//! no operation does any of it: wakes and drops that are due are recorded as
//! [`effect::Effect`]s, to be taken from the channel and performed once it is released. An
//! operation that goes on after foreign code comes in steps: a future says by a
//! [`step::Step`] what it needs next, a close is finished by its `Closing`, and ending a
//! receiver by its `Dropping`.

pub mod effect;
pub mod failure;
pub mod queue;
pub mod step;
pub mod wakers;
pub mod mpsc;
pub mod mpmc;
pub mod oneshot;
