//! One burst of probe traffic.
//!
//! A burst sends UDP datagrams of random bytes to random public addresses
//! until one send succeeds, a fatal error occurs, or the burst's own time
//! budget runs out. The caller owns the socket and the clock: it asks
//! [`ProbeBurst::next_attempt`] what to send, performs the send, and hands the
//! outcome to [`after_send`].

use crate::address::SocketAddress;
use crate::error::SendRandomDataError;
use crate::random::random_bool;
use crate::sampler::{is_probe_pair, random_data, random_socket_addrs, PAYLOAD_END_LEN, PAYLOAD_MIN_LEN};
use vstd::prelude::*;

verus! {

/// How long one burst may keep trying, in nanoseconds (300 ms).
pub const PROBE_BUDGET_NANOS: u128 = 300_000_000;

/// The error number with which the system refuses a destination address as
/// not usable.
pub const OS_ERROR_ADDRESS_NOT_USABLE: i32 = 22;

/// The error number with which the system reports that the destination
/// network is unreachable.
pub const OS_ERROR_NETWORK_UNREACHABLE: i32 = 101;

/// The family rule: IPv4 is chosen when IPv6 is disabled, when IPv6 has
/// already been tried in this burst, or when the coin says so.
pub open spec fn prefers_ipv4(ipv6_enabled: bool, tried_ipv6: bool, coin: bool) -> bool {
    !ipv6_enabled || tried_ipv6 || coin
}

/// Decides the address family of the next attempt; `true` stands for IPv4.
pub fn should_generate_ipv4(ipv6_enabled: bool, tried_ipv6: bool, coin: bool) -> (ipv4: bool)
    ensures
        ipv4 == prefers_ipv4(ipv6_enabled, tried_ipv6, coin),
{
    !ipv6_enabled || tried_ipv6 || coin
}

/// What the caller is to send: bind a fresh UDP socket to `local` and send
/// `payload` to `dest`.
#[derive(Debug, PartialEq, Eq)]
pub struct ProbeAttempt {
    pub local: SocketAddress,
    pub dest: SocketAddress,
    pub payload: Vec<u8>,
}

impl ProbeAttempt {
    /// The destination is public, the local address is the unspecified one
    /// of the same family, and the payload has an admissible length.
    pub open spec fn wf(self) -> bool {
        &&& is_probe_pair(self.dest.ip is V4, self.local, self.dest)
        &&& PAYLOAD_MIN_LEN <= self.payload.len() < PAYLOAD_END_LEN
    }
}

/// What a burst wants next.
#[derive(Debug, PartialEq, Eq)]
pub enum ProbeStep {
    /// Perform this attempt and report its outcome.
    Send(ProbeAttempt),
    /// The burst is over with this result.
    Return(Result<(), SendRandomDataError>),
}

/// How an attempt went, as the caller saw it.
#[derive(Clone, Copy, Debug, PartialEq, Eq)]
pub enum SendOutcome {
    /// The datagram was handed to the network stack.
    Sent,
    /// The socket could not be opened or bound.
    BindFailed(Option<i32>),
    /// The socket was bound, but the send failed.
    SendFailed(Option<i32>),
}

/// What follows from the outcome of an attempt.
#[derive(Clone, Copy, Debug, PartialEq, Eq)]
pub enum ProbeVerdict {
    /// The burst has done its work.
    Done,
    /// The failure is an expected one; try again while the budget lasts.
    Retry,
    /// The burst ends with this error.
    Fatal(SendRandomDataError),
}

/// Send failures that are no reason to give up: any failure towards an IPv6
/// destination, and towards an IPv4 destination the two error numbers with
/// which the network stack turns down a random address.
pub open spec fn is_expected_send_failure(dest_is_ipv6: bool, os_error: Option<i32>) -> bool {
    ||| dest_is_ipv6
    ||| os_error == Some(OS_ERROR_ADDRESS_NOT_USABLE)
    ||| os_error == Some(OS_ERROR_NETWORK_UNREACHABLE)
}

/// The verdict on an outcome.
pub open spec fn verdict_for(dest_is_ipv6: bool, outcome: SendOutcome) -> ProbeVerdict {
    match outcome {
        SendOutcome::Sent => ProbeVerdict::Done,
        SendOutcome::BindFailed(os_error) => ProbeVerdict::Fatal(
            SendRandomDataError::BindUdpSocket(os_error),
        ),
        SendOutcome::SendFailed(os_error) => if is_expected_send_failure(dest_is_ipv6, os_error) {
            ProbeVerdict::Retry
        } else {
            ProbeVerdict::Fatal(SendRandomDataError::SendToUdpSocket(os_error))
        },
    }
}

/// Classifies the outcome of an attempt towards `dest`.
pub fn after_send(dest: &SocketAddress, outcome: SendOutcome) -> (verdict: ProbeVerdict)
    ensures
        verdict == verdict_for(dest.ip is V6, outcome),
{
    match outcome {
        SendOutcome::Sent => ProbeVerdict::Done,
        SendOutcome::BindFailed(os_error) => ProbeVerdict::Fatal(
            SendRandomDataError::BindUdpSocket(os_error),
        ),
        SendOutcome::SendFailed(os_error) => {
            // Always retry on IPv6 errors
            if dest.ip.is_ipv6() {
                return ProbeVerdict::Retry;
            }
            match os_error {
                Some(code) => {
                    if code == OS_ERROR_ADDRESS_NOT_USABLE || code == OS_ERROR_NETWORK_UNREACHABLE {
                        ProbeVerdict::Retry
                    } else {
                        ProbeVerdict::Fatal(SendRandomDataError::SendToUdpSocket(os_error))
                    }
                },
                None => ProbeVerdict::Fatal(SendRandomDataError::SendToUdpSocket(os_error)),
            }
        },
    }
}

/// The memory of one burst.
#[derive(Clone, Copy, Debug, PartialEq, Eq)]
pub struct ProbeBurst {
    /// Whether IPv6 destinations may be probed at all.
    pub ipv6_enabled: bool,
    /// Whether this burst has already chosen the IPv6 family once.
    pub tried_ipv6: bool,
}

impl ProbeBurst {
    /// Whether the burst may choose the given family next (`true` stands for
    /// IPv4): IPv4 always, IPv6 only if it is enabled and was not chosen
    /// before.
    pub open spec fn permits(self, ipv4: bool) -> bool {
        ipv4 || (self.ipv6_enabled && !self.tried_ipv6)
    }

    /// The burst as it is once an attempt of the given family has been
    /// chosen: an IPv6 choice is remembered, nothing else changes.
    pub open spec fn after_choice(self, ipv4: bool) -> ProbeBurst {
        ProbeBurst { ipv6_enabled: self.ipv6_enabled, tried_ipv6: self.tried_ipv6 || !ipv4 }
    }

    /// A burst that has not tried anything yet.
    pub fn new(ipv6_enabled: bool) -> (burst: ProbeBurst)
        ensures
            burst == (ProbeBurst { ipv6_enabled, tried_ipv6: false }),
    {
        ProbeBurst { ipv6_enabled, tried_ipv6: false }
    }

    /// Opens the next attempt, given the time since the burst began and a
    /// coin flip: `None` once the budget is spent, otherwise the family to
    /// probe (`true` for IPv4). A choice of IPv6 is remembered whatever
    /// becomes of the attempt.
    pub fn begin_attempt(&mut self, elapsed_nanos: u128, coin: bool) -> (family: Option<bool>)
        ensures
            elapsed_nanos >= PROBE_BUDGET_NANOS ==> family is None && *final(self) == *old(self),
            elapsed_nanos < PROBE_BUDGET_NANOS ==> {
                let ipv4 = prefers_ipv4(old(self).ipv6_enabled, old(self).tried_ipv6, coin);
                family == Some(ipv4) && *final(self) == old(self).after_choice(ipv4)
            },
    {
        if elapsed_nanos >= PROBE_BUDGET_NANOS {
            return None;
        }
        let ipv4 = should_generate_ipv4(self.ipv6_enabled, self.tried_ipv6, coin);
        self.tried_ipv6 = self.tried_ipv6 || !ipv4;
        Some(ipv4)
    }

    /// Says what the burst does next, given the time since it began.
    ///
    /// Once the budget is spent the burst returns `Ok`: running out of time
    /// is no failure. Before that it flips the coin, draws a destination of
    /// the chosen family and a payload, and asks for them to be sent. The
    /// destination is IPv6 only if IPv6 is enabled and was not chosen before
    /// in this burst.
    pub fn next_attempt(&mut self, elapsed_nanos: u128) -> (step: ProbeStep)
        ensures
            elapsed_nanos >= PROBE_BUDGET_NANOS ==> step == ProbeStep::Return(Ok(()))
                && *final(self) == *old(self),
            elapsed_nanos < PROBE_BUDGET_NANOS ==> match step {
                ProbeStep::Send(attempt) => {
                    &&& attempt.wf()
                    &&& old(self).permits(attempt.dest.ip is V4)
                    &&& *final(self) == old(self).after_choice(attempt.dest.ip is V4)
                },
                ProbeStep::Return(result) => {
                    &&& result == Err::<(), SendRandomDataError>(
                        SendRandomDataError::SamplerExhausted,
                    )
                    &&& exists|ipv4: bool|
                        old(self).permits(ipv4) && *final(self) == old(self).after_choice(ipv4)
                },
            },
    {
        let ipv4 = match self.begin_attempt(elapsed_nanos, random_bool()) {
            None => {
                return ProbeStep::Return(Ok(()));
            },
            Some(ipv4) => ipv4,
        };
        match random_socket_addrs(ipv4) {
            None => ProbeStep::Return(Err(SendRandomDataError::SamplerExhausted)),
            Some((local, dest)) => ProbeStep::Send(
                ProbeAttempt { local, dest, payload: random_data() },
            ),
        }
    }
}


/// The burst after a run of attempts of the given families, first to last
/// (`true` stands for IPv4).
pub open spec fn burst_after(start: ProbeBurst, families: Seq<bool>) -> ProbeBurst
    decreases families.len(),
{
    if families.len() == 0 {
        start
    } else {
        burst_after(start, families.drop_last()).after_choice(families.last())
    }
}

/// A run of attempts that a burst can make: each family was permitted when
/// it was chosen.
pub open spec fn is_burst_run(start: ProbeBurst, families: Seq<bool>) -> bool {
    forall|i: int|
        0 <= i < families.len() ==> (#[trigger] burst_after(start, families.take(i))).permits(
            families[i],
        )
}

/// Whatever the coin shows, the family rule chooses a permitted family.
pub proof fn lemma_rule_chooses_permitted_family(burst: ProbeBurst, coin: bool)
    ensures
        burst.permits(prefers_ipv4(burst.ipv6_enabled, burst.tried_ipv6, coin)),
{
}

/// Attempts change nothing but the memory of IPv6, and that memory is never
/// lost: once set it stays set for the rest of the burst.
pub proof fn lemma_tried_ipv6_is_kept(start: ProbeBurst, families: Seq<bool>, i: int)
    requires
        0 <= i <= families.len(),
    ensures
        burst_after(start, families).ipv6_enabled == start.ipv6_enabled,
        burst_after(start, families.take(i)).tried_ipv6 ==> burst_after(
            start,
            families,
        ).tried_ipv6,
        0 <= i < families.len() && !families[i] ==> burst_after(start, families).tried_ipv6,
    decreases families.len(),
{
    if i == families.len() {
        assert(families.take(i) =~= families);
    }
    if families.len() > 0 {
        let earlier = families.drop_last();
        if i < families.len() {
            assert(earlier.take(i) =~= families.take(i));
            lemma_tried_ipv6_is_kept(start, earlier, i);
        } else {
            lemma_tried_ipv6_is_kept(start, earlier, 0);
        }
    }
}

/// With IPv6 disabled, every attempt of a burst is IPv4.
pub proof fn lemma_ipv6_disabled_means_ipv4(start: ProbeBurst, families: Seq<bool>, i: int)
    requires
        !start.ipv6_enabled,
        is_burst_run(start, families),
        0 <= i < families.len(),
    ensures
        families[i],
{
    let before = burst_after(start, families.take(i));
    lemma_tried_ipv6_is_kept(start, families.take(i), 0);
    assert(before.permits(families[i]));
}

/// A burst attempts IPv6 at most once: of any two attempts, one at least is
/// IPv4.
pub proof fn lemma_ipv6_at_most_once(start: ProbeBurst, families: Seq<bool>, i: int, j: int)
    requires
        is_burst_run(start, families),
        0 <= i < j < families.len(),
    ensures
        families[i] || families[j],
{
    if !families[i] {
        let upto_j = families.take(j);
        assert(upto_j[i] == families[i]);
        lemma_tried_ipv6_is_kept(start, upto_j, i);
        assert(burst_after(start, upto_j).permits(families[j]));
    }
}

} // verus!
