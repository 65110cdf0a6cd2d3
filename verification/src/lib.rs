//! The facade of a kernel-bypass I/O library: the rules by which POSIX-like
//! socket and memory-queue operations are validated, routed to a backend,
//! awaited and reported, as a set of verified decision functions.
//!
//! The backends, the clock and the C pointers stay outside. Every entry point
//! answers with a [`bindings::Step`]: either the call's return, or one request
//! that the caller carries out before handing the reply to
//! [`bindings::demi_resume`].

pub mod bindings;
pub mod errno;
pub mod fail;
pub mod libos;
pub mod net;
pub mod time;
pub mod types;
pub mod wait;
