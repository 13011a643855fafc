//! Coroutine-aware synchronisation.
pub mod spsc;
pub mod trace;
pub(crate) mod lock;
