//! What the operations are for.
//!
//! Each law speaks of any result that an operation may give, and relates it to the operation's
//! inputs, or the results of two operations to each other. Apart from the operations themselves
//! the laws use characters, numbers and sequences only.
pub mod library;
pub mod names;
pub mod opening;
pub mod packer;
pub mod page;
pub mod playlist;
pub mod region;
pub mod text;
pub mod writer;
