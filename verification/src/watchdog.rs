//! The wait for the tunnel device to become readable.
//!
//! The wait is a state machine. In [`WatchdogState::Polling`] the caller
//! checks the tunnel descriptor for readability, with a timeout of
//! [`POLL_TIMEOUT_MICROS`]; in [`WatchdogState::Probing`] it runs one probe
//! burst (see [`crate::probe`]). Each result goes to
//! [`WatchdogState::step`], which says where the wait stands next. A new
//! round of polling begins only while the time since the start of the wait is
//! below [`TUNNEL_DEADLINE_NANOS`].

use crate::error::{Error, SendRandomDataError};
use vstd::prelude::*;

verus! {

/// How long the tunnel device may take to become readable, in nanoseconds
/// (60 s).
pub const TUNNEL_DEADLINE_NANOS: u128 = 60_000_000_000;

/// The timeout of one readability check, in microseconds.
pub const POLL_TIMEOUT_MICROS: i64 = 300;

/// Where the wait stands.
#[derive(Clone, Copy, Debug, PartialEq, Eq)]
pub enum WatchdogState {
    /// The descriptor is to be put into the watch set and checked for
    /// readability.
    Polling,
    /// One probe burst is to be run.
    Probing,
    /// The descriptor became readable: traffic is routed through the tunnel.
    Done,
    /// The wait is over without a readable descriptor.
    Failed(Error),
}

/// What the caller reports back.
#[derive(Clone, Copy, Debug, PartialEq, Eq)]
pub enum WatchdogEvent {
    /// The readability check returned the number of ready descriptors, or
    /// failed with an error number.
    Polled(Result<i32, i32>),
    /// A probe burst returned; `elapsed_nanos` is the time since the wait
    /// began, read after the burst.
    Probed { result: Result<(), SendRandomDataError>, elapsed_nanos: u128 },
}

/// The state in which a round begins: polling while the deadline has not
/// passed, timed out once it has.
pub open spec fn round_at(elapsed_nanos: u128) -> WatchdogState {
    if elapsed_nanos < TUNNEL_DEADLINE_NANOS {
        WatchdogState::Polling
    } else {
        WatchdogState::Failed(Error::TunnelDeviceTimeout)
    }
}

/// The transition function. An event that does not answer what the state
/// asked for leaves the state as it is; `Done` and `Failed` are final.
pub open spec fn next_state(state: WatchdogState, event: WatchdogEvent) -> WatchdogState {
    match (state, event) {
        (WatchdogState::Polling, WatchdogEvent::Polled(Ok(ready))) => if ready > 0 {
            WatchdogState::Done
        } else {
            WatchdogState::Probing
        },
        (WatchdogState::Polling, WatchdogEvent::Polled(Err(errno))) => WatchdogState::Failed(
            Error::Select(errno),
        ),
        (WatchdogState::Probing, WatchdogEvent::Probed { result: Ok(_), elapsed_nanos }) => round_at(
            elapsed_nanos,
        ),
        (WatchdogState::Probing, WatchdogEvent::Probed { result: Err(error), .. }) =>
            WatchdogState::Failed(Error::VerifyTunDevice(error)),
        _ => state,
    }
}

impl WatchdogState {
    /// Whether the wait is over.
    pub open spec fn is_final(self) -> bool {
        self is Done || self is Failed
    }

    /// Begins the wait, given the time that has passed since the clock was
    /// started.
    pub fn start(elapsed_nanos: u128) -> (state: WatchdogState)
        ensures
            state == round_at(elapsed_nanos),
    {
        if elapsed_nanos < TUNNEL_DEADLINE_NANOS {
            WatchdogState::Polling
        } else {
            WatchdogState::Failed(Error::TunnelDeviceTimeout)
        }
    }

    /// Takes the result of what the state asked for and moves on.
    pub fn step(self, event: WatchdogEvent) -> (next: WatchdogState)
        ensures
            next == next_state(self, event),
    {
        match self {
            WatchdogState::Polling => match event {
                WatchdogEvent::Polled(Ok(ready)) => {
                    // if tunnel device is ready to be read from, traffic is being routed through it
                    if ready > 0 {
                        WatchdogState::Done
                    } else {
                        WatchdogState::Probing
                    }
                },
                WatchdogEvent::Polled(Err(errno)) => WatchdogState::Failed(Error::Select(errno)),
                WatchdogEvent::Probed { .. } => self,
            },
            WatchdogState::Probing => match event {
                WatchdogEvent::Probed { result: Ok(_), elapsed_nanos } => WatchdogState::start(
                    elapsed_nanos,
                ),
                WatchdogEvent::Probed { result: Err(error), .. } => WatchdogState::Failed(
                    Error::VerifyTunDevice(error),
                ),
                WatchdogEvent::Polled(_) => self,
            },
            WatchdogState::Done => self,
            WatchdogState::Failed(_) => self,
        }
    }

    /// The result of the wait, once it is over.
    pub fn outcome(&self) -> (result: Option<Result<(), Error>>)
        ensures
            result == match *self {
                WatchdogState::Done => Some(Ok::<(), Error>(())),
                WatchdogState::Failed(error) => Some(Err::<(), Error>(error)),
                _ => None::<Result<(), Error>>,
            },
    {
        match self {
            WatchdogState::Done => Some(Ok(())),
            WatchdogState::Failed(error) => Some(Err(*error)),
            _ => None,
        }
    }
}


/// The state after a sequence of events, first to last.
pub open spec fn state_after(state: WatchdogState, events: Seq<WatchdogEvent>) -> WatchdogState
    decreases events.len(),
{
    if events.len() == 0 {
        state
    } else {
        next_state(state_after(state, events.drop_last()), events.last())
    }
}

/// The event reports a readable descriptor.
pub open spec fn reports_ready(event: WatchdogEvent) -> bool {
    event matches WatchdogEvent::Polled(Ok(ready)) && ready > 0
}

/// The event carries a clock reading at or past the deadline.
pub open spec fn reports_deadline_passed(event: WatchdogEvent) -> bool {
    event matches WatchdogEvent::Probed { elapsed_nanos, .. } && elapsed_nanos
        >= TUNNEL_DEADLINE_NANOS
}

/// The event reports a failure: of the readability check or of a probe
/// burst.
pub open spec fn reports_failure(event: WatchdogEvent) -> bool {
    ||| event matches WatchdogEvent::Polled(Err(_))
    ||| event matches WatchdogEvent::Probed { result: Err(_), .. }
}

/// A round of polling is entered only on a clock reading below the
/// deadline: past the deadline nothing is polled or probed any more.
pub proof fn lemma_polling_begins_before_deadline(state: WatchdogState, event: WatchdogEvent)
    requires
        !(state is Polling),
        next_state(state, event) is Polling,
    ensures
        state is Probing,
        event matches WatchdogEvent::Probed { result: Ok(_), elapsed_nanos } && elapsed_nanos
            < TUNNEL_DEADLINE_NANOS,
{
}

/// A burst is run only after a readability check that found nothing.
pub proof fn lemma_probing_follows_idle_poll(state: WatchdogState, event: WatchdogEvent)
    requires
        !(state is Probing),
        next_state(state, event) is Probing,
    ensures
        state is Polling,
        event matches WatchdogEvent::Polled(Ok(ready)) && ready <= 0,
{
}

/// Once the wait is over, no event changes its result.
pub proof fn lemma_final_state_stays(state: WatchdogState, events: Seq<WatchdogEvent>)
    requires
        state.is_final(),
    ensures
        state_after(state, events) == state,
    decreases events.len(),
{
    if events.len() > 0 {
        lemma_final_state_stays(state, events.drop_last());
    }
}

/// The wait succeeds only if some readability check reported a ready
/// descriptor.
pub proof fn lemma_done_needs_ready_descriptor(state: WatchdogState, events: Seq<WatchdogEvent>)
    requires
        !(state is Done),
        state_after(state, events) is Done,
    ensures
        exists|i: int| 0 <= i < events.len() && reports_ready(#[trigger] events[i]),
    decreases events.len(),
{
    let earlier = events.drop_last();
    if state_after(state, earlier) is Done {
        lemma_done_needs_ready_descriptor(state, earlier);
        let i = choose|i: int| 0 <= i < earlier.len() && reports_ready(#[trigger] earlier[i]);
        assert(reports_ready(events[i]));
    } else {
        assert(reports_ready(events[events.len() - 1]));
    }
}

/// The wait times out only on a clock reading at or past the deadline.
pub proof fn lemma_timeout_needs_deadline(state: WatchdogState, events: Seq<WatchdogEvent>)
    requires
        state != WatchdogState::Failed(Error::TunnelDeviceTimeout),
        state_after(state, events) == WatchdogState::Failed(Error::TunnelDeviceTimeout),
    ensures
        exists|i: int| 0 <= i < events.len() && reports_deadline_passed(#[trigger] events[i]),
    decreases events.len(),
{
    let earlier = events.drop_last();
    if state_after(state, earlier) == WatchdogState::Failed(Error::TunnelDeviceTimeout) {
        lemma_timeout_needs_deadline(state, earlier);
        let i = choose|i: int|
            0 <= i < earlier.len() && reports_deadline_passed(#[trigger] earlier[i]);
        assert(reports_deadline_passed(events[i]));
    } else {
        assert(reports_deadline_passed(events[events.len() - 1]));
    }
}

/// While no check and no burst fails, the wait never fails for any reason
/// but the deadline.
pub proof fn lemma_no_failure_without_cause(events: Seq<WatchdogEvent>)
    requires
        forall|i: int| 0 <= i < events.len() ==> !reports_failure(#[trigger] events[i]),
    ensures
        match state_after(WatchdogState::Polling, events) {
            WatchdogState::Failed(error) => error == Error::TunnelDeviceTimeout,
            _ => true,
        },
    decreases events.len(),
{
    if events.len() > 0 {
        let earlier = events.drop_last();
        assert forall|i: int| 0 <= i < earlier.len() implies !reports_failure(
            #[trigger] earlier[i],
        ) by {
            assert(earlier[i] == events[i]);
        }
        lemma_no_failure_without_cause(earlier);
        assert(!reports_failure(events[events.len() - 1]));
    }
}

} // verus!
