//! Small queries about the operating system, split into the part that asks
//! the system and the part that decides what the answer means. This crate is
//! the second part: it takes what a system call reported as plain values and
//! turns it into a typed result, and it reads text out of fixed byte buffers.
pub mod errno;
pub mod error;
pub mod text;
pub mod utf8;
pub mod utils;
