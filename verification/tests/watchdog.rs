use tunnel_watchdog::error::{Error, SendRandomDataError};
use tunnel_watchdog::watchdog::{
    WatchdogEvent, WatchdogState, POLL_TIMEOUT_MICROS, TUNNEL_DEADLINE_NANOS,
};

const SECOND: u128 = 1_000_000_000;

fn probed_ok(elapsed_nanos: u128) -> WatchdogEvent {
    WatchdogEvent::Probed { result: Ok(()), elapsed_nanos }
}

#[test]
fn deadline_is_60_seconds_and_poll_timeout_300_microseconds() {
    assert_eq!(TUNNEL_DEADLINE_NANOS, 60_000_000_000);
    assert_eq!(POLL_TIMEOUT_MICROS, 300);
}

#[test]
fn wait_begins_with_polling() {
    assert_eq!(WatchdogState::start(0), WatchdogState::Polling);
    assert_eq!(WatchdogState::start(59_999_999_999), WatchdogState::Polling);
}

#[test]
fn wait_begun_past_the_deadline_times_out() {
    assert_eq!(
        WatchdogState::start(60_000_000_000),
        WatchdogState::Failed(Error::TunnelDeviceTimeout)
    );
    assert_eq!(WatchdogState::start(u128::MAX), WatchdogState::Failed(Error::TunnelDeviceTimeout));
}

#[test]
fn readable_on_first_poll_is_success_without_probe() {
    let state = WatchdogState::start(0);
    assert_eq!(state.outcome(), None);
    let state = state.step(WatchdogEvent::Polled(Ok(1)));
    assert_eq!(state, WatchdogState::Done);
    assert_eq!(state.outcome(), Some(Ok(())));
}

#[test]
fn any_positive_ready_count_is_success() {
    for ready in [1, 2, 1024, i32::MAX] {
        assert_eq!(
            WatchdogState::Polling.step(WatchdogEvent::Polled(Ok(ready))),
            WatchdogState::Done
        );
    }
}

#[test]
fn idle_poll_leads_to_a_probe() {
    assert_eq!(WatchdogState::Polling.step(WatchdogEvent::Polled(Ok(0))), WatchdogState::Probing);
    assert_eq!(WatchdogState::Polling.step(WatchdogEvent::Polled(Ok(-1))), WatchdogState::Probing);
    assert_eq!(WatchdogState::Probing.outcome(), None);
}

#[test]
fn failed_poll_is_fatal() {
    // EBADF
    let state = WatchdogState::Polling.step(WatchdogEvent::Polled(Err(9)));
    assert_eq!(state, WatchdogState::Failed(Error::Select(9)));
    assert_eq!(state.outcome(), Some(Err(Error::Select(9))));
    // EINTR is not retried either
    assert_eq!(
        WatchdogState::Polling.step(WatchdogEvent::Polled(Err(4))),
        WatchdogState::Failed(Error::Select(4))
    );
}

#[test]
fn successful_probe_leads_back_to_polling_before_the_deadline() {
    assert_eq!(WatchdogState::Probing.step(probed_ok(0)), WatchdogState::Polling);
    assert_eq!(WatchdogState::Probing.step(probed_ok(59_999_999_999)), WatchdogState::Polling);
}

#[test]
fn successful_probe_at_the_deadline_times_out() {
    assert_eq!(
        WatchdogState::Probing.step(probed_ok(60_000_000_000)),
        WatchdogState::Failed(Error::TunnelDeviceTimeout)
    );
    assert_eq!(
        WatchdogState::Probing.step(probed_ok(61 * SECOND)),
        WatchdogState::Failed(Error::TunnelDeviceTimeout)
    );
}

#[test]
fn bind_failure_in_probe_is_fatal_at_once() {
    let error = SendRandomDataError::BindUdpSocket(Some(13));
    let state = WatchdogState::start(0)
        .step(WatchdogEvent::Polled(Ok(0)))
        .step(WatchdogEvent::Probed { result: Err(error), elapsed_nanos: 1000 });
    assert_eq!(state, WatchdogState::Failed(Error::VerifyTunDevice(error)));
    assert_eq!(state.outcome(), Some(Err(Error::VerifyTunDevice(error))));
}

#[test]
fn probe_failure_wins_over_the_deadline() {
    let error = SendRandomDataError::SendToUdpSocket(Some(1));
    assert_eq!(
        WatchdogState::Probing
            .step(WatchdogEvent::Probed { result: Err(error), elapsed_nanos: 61 * SECOND }),
        WatchdogState::Failed(Error::VerifyTunDevice(error))
    );
    assert_eq!(
        WatchdogState::Probing.step(WatchdogEvent::Probed {
            result: Err(SendRandomDataError::SamplerExhausted),
            elapsed_nanos: 0
        }),
        WatchdogState::Failed(Error::VerifyTunDevice(SendRandomDataError::SamplerExhausted))
    );
}

#[test]
fn final_states_ignore_further_events() {
    let events = [
        WatchdogEvent::Polled(Ok(1)),
        WatchdogEvent::Polled(Ok(0)),
        WatchdogEvent::Polled(Err(9)),
        probed_ok(0),
        probed_ok(61 * SECOND),
        WatchdogEvent::Probed {
            result: Err(SendRandomDataError::BindUdpSocket(None)),
            elapsed_nanos: 0,
        },
    ];
    let finals = [
        WatchdogState::Done,
        WatchdogState::Failed(Error::TunnelDeviceTimeout),
        WatchdogState::Failed(Error::Select(9)),
        WatchdogState::Failed(Error::VerifyTunDevice(SendRandomDataError::SendToUdpSocket(Some(5)))),
    ];
    for state in finals {
        for event in events {
            assert_eq!(state.step(event), state);
        }
    }
}

#[test]
fn events_that_answer_nothing_are_ignored() {
    assert_eq!(WatchdogState::Polling.step(probed_ok(0)), WatchdogState::Polling);
    assert_eq!(WatchdogState::Polling.step(probed_ok(61 * SECOND)), WatchdogState::Polling);
    assert_eq!(
        WatchdogState::Polling.step(WatchdogEvent::Probed {
            result: Err(SendRandomDataError::BindUdpSocket(None)),
            elapsed_nanos: 0
        }),
        WatchdogState::Polling
    );
    assert_eq!(WatchdogState::Probing.step(WatchdogEvent::Polled(Ok(1))), WatchdogState::Probing);
    assert_eq!(WatchdogState::Probing.step(WatchdogEvent::Polled(Err(9))), WatchdogState::Probing);
}

/// Runs the wait against a scripted descriptor and prober. Every poll takes 300 microseconds,
/// every probe `probe_nanos`. Returns the result with the number of polls and probes.
fn run_wait(
    ready_at_poll: Option<usize>,
    probe_nanos: u128,
    probe_result: fn(usize) -> Result<(), SendRandomDataError>,
) -> (Result<(), Error>, usize, usize, u128) {
    let mut clock = 0u128;
    let mut polls = 0usize;
    let mut probes = 0usize;
    let mut state = WatchdogState::start(clock);
    loop {
        state = match state {
            WatchdogState::Polling => {
                assert!(clock < TUNNEL_DEADLINE_NANOS || polls == 0 || probes == polls);
                let ready = if ready_at_poll == Some(polls) { 1 } else { 0 };
                polls += 1;
                clock += POLL_TIMEOUT_MICROS as u128 * 1000;
                state.step(WatchdogEvent::Polled(Ok(ready)))
            },
            WatchdogState::Probing => {
                let result = probe_result(probes);
                probes += 1;
                clock += probe_nanos;
                state.step(WatchdogEvent::Probed { result, elapsed_nanos: clock })
            },
            WatchdogState::Done => return (Ok(()), polls, probes, clock),
            WatchdogState::Failed(error) => return (Err(error), polls, probes, clock),
        };
    }
}

#[test]
fn scripted_wait_succeeds_on_first_poll() {
    let (result, polls, probes, _) = run_wait(Some(0), 1_000_000, |_| Ok(()));
    assert_eq!(result, Ok(()));
    assert_eq!(polls, 1);
    assert_eq!(probes, 0);
}

#[test]
fn scripted_wait_succeeds_after_some_probes() {
    let (result, polls, probes, _) = run_wait(Some(5), 1_000_000, |_| Ok(()));
    assert_eq!(result, Ok(()));
    assert_eq!(polls, 6);
    assert_eq!(probes, 5);
}

#[test]
fn scripted_wait_times_out_when_never_readable() {
    // one round is 300 microseconds of polling and 300 milliseconds of probing
    let (result, polls, probes, clock) = run_wait(None, 300_000_000, |_| Ok(()));
    assert_eq!(result, Err(Error::TunnelDeviceTimeout));
    assert_eq!(polls, 200);
    assert_eq!(probes, 200);
    // the wait is over within one round of the deadline
    assert!(clock >= TUNNEL_DEADLINE_NANOS);
    assert!(clock < TUNNEL_DEADLINE_NANOS + 300_300_000);
}

#[test]
fn scripted_wait_stops_at_first_fatal_probe() {
    let (result, polls, probes, _) = run_wait(None, 1_000_000, |probes_before| {
        if probes_before == 0 {
            Err(SendRandomDataError::BindUdpSocket(Some(13)))
        } else {
            Ok(())
        }
    });
    assert_eq!(
        result,
        Err(Error::VerifyTunDevice(SendRandomDataError::BindUdpSocket(Some(13))))
    );
    assert_eq!(polls, 1);
    assert_eq!(probes, 1);
}
