//! Safe access to the threads of a small embedded kernel.
//!
//! Thread identifiers are small integers that the kernel gives out again once
//! a thread has ended. This crate holds the rules by which such identifiers
//! and the kernel's answers about them are read: which numbers are
//! identifiers at all, what a raw status code means, when a thread counts as
//! gone, and which steps of its own life a running thread may still take.
//!
//! Beside the threads stand a few smaller readers of the same kind: for the
//! kernel's file system layer, for its standard input and output, and for
//! CoAP handlers that are kept behind a lock.
//!
//! The crate itself never talks to a kernel. Its functions take what the
//! kernel answered as plain values and say what that answer means. Every
//! function carries a contract, and Verus proves that the function meets it.

pub mod coap_handler;
pub mod error;
pub mod helpers;
pub mod stdio;
pub mod thread;
pub mod vfs;
