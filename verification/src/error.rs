//! What can go wrong while waiting for the tunnel.
//!
//! Operating-system failures are kept as the raw error number that came with
//! them, which is all that the decisions of this crate read.

use vstd::prelude::*;

verus! {

/// A fatal outcome of one probe burst.
#[derive(Clone, Copy, Debug, PartialEq, Eq)]
pub enum SendRandomDataError {
    /// Failed to bind an UDP socket.
    BindUdpSocket(Option<i32>),
    /// Failed to send random data through UDP socket.
    SendToUdpSocket(Option<i32>),
    /// Every candidate destination of a whole sampling run was turned down by
    /// the filter.
    SamplerExhausted,
}

/// Why the wait for the tunnel device ended without a readable descriptor.
#[derive(Clone, Copy, Debug, PartialEq, Eq)]
pub enum Error {
    /// Failed to verify the tunnel device.
    VerifyTunDevice(SendRandomDataError),
    /// Failed to select() on tunnel device; holds the error number.
    Select(i32),
    /// Timed out while waiting for tunnel device to receive data.
    TunnelDeviceTimeout,
}

} // verus!
