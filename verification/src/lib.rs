//! Acquires a one-time authentication ticket from an out-of-process identity
//! provider and delivers it either to a remote verification endpoint or to a
//! local file.
//!
//! The library holds the verified core: the hex codec for the ticket bytes,
//! the write-once slot the notification handler fills, the bounded budget the
//! acquisition loop spends, the rules the command-line flags must satisfy,
//! and the routing of a received ticket to exactly one destination. The thin
//! binary around it registers the provider callback, performs the network and
//! file I/O, and drives the loops.

pub mod acquire;
pub mod cli;
pub mod dispatch;
pub mod hex;
pub mod slot;
