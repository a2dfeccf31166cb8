//! Process creation through the raw `clone` system call, with a guarded stack.
//!
//! The library is the deciding half of the primitive. It says which system
//! call comes next, with which arguments, and what each answer of the
//! operating system means; the caller performs the calls. Every decision is
//! a function from plain values to plain values, so the memory mapping, the
//! boxed unit of work and the child process are each accounted for on every
//! path, and none of it depends on state shared between two spawns.
//!
//! * [`layout`]: the geometry of a stack with its guard region.
//! * [`spawn`]: the steps from a requested stack size to a process handle.
//! * [`ledger`]: what the parent holds after each step, and the laws on it.
//! * [`reap`]: the handle of a spawned process and the wait on it.

pub mod layout;
pub mod ledger;
pub mod reap;
pub mod spawn;

