//! A minimal TCP socket abstraction: a typed handle with an explicit
//! lifecycle over an operating-system socket descriptor.
//!
//! The library enforces the handle's state machine
//! (`Created -> Bound -> Listening`, with accepted peers as fresh
//! `Connected` handles and `Closed` as a terminal sink), parses
//! dotted-decimal IPv4 literals, builds the network-byte-order address
//! record handed to the OS bind call, and translates raw OS status codes
//! into typed errors.  The raw syscalls themselves are performed by the
//! caller, which hands each raw result back to the handle.

pub mod addr;
pub mod socket;
