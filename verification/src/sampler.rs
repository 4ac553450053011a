//! Sampling of probe destinations and payloads.
//!
//! A destination is drawn by rejection: random bytes are turned into an
//! address, and the address is thrown away and drawn again as long as the
//! filter of [`crate::unroutable`] turns it down.

use crate::address::{IpAddress, SocketAddress};
use crate::random::{fill_random, random_in_range, random_port};
use crate::unroutable::{is_public, is_public_ip};
use vstd::prelude::*;

verus! {

/// The shortest probe payload, in bytes.
pub const PAYLOAD_MIN_LEN: usize = 17;

/// One more than the longest probe payload, in bytes.
pub const PAYLOAD_END_LEN: usize = 214;

/// How many candidates one call of [`random_socket_addrs`] draws before it
/// gives up. About one IPv4 candidate in eighty is turned down, so a call
/// that runs out of attempts has met a broken generator, not bad luck.
pub const MAX_SAMPLING_ATTEMPTS: u32 = 128;

/// What holds of a pair of addresses that a probe may use: both are of the
/// requested family, the local one leaves interface and port to the system,
/// and the destination passes the filter.
pub open spec fn is_probe_pair(ipv4: bool, local: SocketAddress, dest: SocketAddress) -> bool {
    &&& (local.ip is V4) == ipv4
    &&& (dest.ip is V4) == ipv4
    &&& local.is_unspecified()
    &&& is_public(dest.ip)
}

/// A fresh payload: between [`PAYLOAD_MIN_LEN`] and [`PAYLOAD_END_LEN`] - 1
/// random bytes.
pub fn random_data() -> (data: Vec<u8>)
    ensures
        PAYLOAD_MIN_LEN <= data.len() < PAYLOAD_END_LEN,
{
    let len = random_in_range(PAYLOAD_MIN_LEN, PAYLOAD_END_LEN);
    let mut buf = vec![0u8; len];
    fill_random(buf.as_mut_slice());
    buf
}

/// A random address of the requested family, public or not.
pub fn random_ip(ipv4: bool) -> (addr: IpAddress)
    ensures
        (addr is V4) == ipv4,
{
    if ipv4 {
        let mut ipv4_bytes = [0u8; 4];
        fill_random(&mut ipv4_bytes);
        IpAddress::V4(ipv4_bytes)
    } else {
        let mut ipv6_bytes = [0u8; 16];
        fill_random(&mut ipv6_bytes);
        IpAddress::V6(ipv6_bytes)
    }
}

/// Pairs a candidate destination with the local address that a socket of its
/// family binds to, or turns the candidate down if it is not public.
pub fn socket_addrs_for(candidate: IpAddress, port: u16) -> (pair: Option<
    (SocketAddress, SocketAddress),
>)
    ensures
        pair is Some <==> is_public(candidate),
        pair matches Some((local, dest)) ==> {
            &&& dest == (SocketAddress { ip: candidate, port })
            &&& is_probe_pair(candidate is V4, local, dest)
        },
{
    if !is_public_ip(candidate) {
        return None;
    }
    let local_ip = if candidate.is_ipv4() {
        IpAddress::unspecified_v4()
    } else {
        IpAddress::unspecified_v6()
    };
    Some((SocketAddress::new(local_ip, 0), SocketAddress::new(candidate, port)))
}

/// Returns a random local and public destination socket address, of the IPv4
/// family if `ipv4` is true and of the IPv6 family otherwise.
///
/// Candidates are drawn until one passes the filter. `None` means that
/// [`MAX_SAMPLING_ATTEMPTS`] candidates in a row were turned down.
pub fn random_socket_addrs(ipv4: bool) -> (pair: Option<(SocketAddress, SocketAddress)>)
    ensures
        pair matches Some((local, dest)) ==> is_probe_pair(ipv4, local, dest),
{
    let mut attempts_left: u32 = MAX_SAMPLING_ATTEMPTS;
    while attempts_left > 0
        decreases attempts_left,
    {
        let rand_port = random_port();
        let candidate = random_ip(ipv4);
        match socket_addrs_for(candidate, rand_port) {
            Some(pair) => {
                return Some(pair);
            },
            None => {},
        }
        attempts_left -= 1;
    }
    None
}

} // verus!
