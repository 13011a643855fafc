//! A coroutine runtime core: the single-producer single-consumer channel
//! protocol, the tagged waiter handle, completion decoding for the I/O
//! selector, and split I/O halves.
pub mod blocker;
pub mod io;
pub mod sync;
