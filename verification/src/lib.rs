//! Settlement of ecash mint quotes over a Lightning node.
//!
//! The crate holds the decisions of a Lightning backend: what to ask of the node,
//! and what each of its answers means for a quote. It performs no I/O itself. A
//! driver sends the requests that the functions here hand out and feeds the
//! node's answers back in.

pub mod error;
pub mod hex;
pub mod incoming;
pub mod invoice;
pub mod lnd;
pub mod outgoing;
pub mod pay;
pub mod quote;
pub mod types;
pub mod units;
pub mod wait_invoice;
