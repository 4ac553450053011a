//! Readiness watchdog for a freshly created tunnel device.
//!
//! A tunnel interface can be configured and still stay silent until the
//! platform starts routing packets into it. This crate holds the decisions
//! of a watchdog that waits for the first readable signal on the tunnel
//! descriptor and, while waiting, provokes traffic with UDP probes to random
//! addresses that can never belong to a real local recipient.
//!
//! The crate performs no I/O. The caller owns the descriptor, the sockets and
//! the clock; it reports what happened and is told what to do next.

pub mod address;
pub mod error;
pub mod probe;
mod random;
pub mod sampler;
pub mod unroutable;
pub mod watchdog;
