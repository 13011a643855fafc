//! The I/O layer: split I/O halves and the completion selector.
pub mod selector;
pub mod split_io;
pub mod timer;
