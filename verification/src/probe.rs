//! The connectivity prober: the steps of one reachability probe. The probe
//! resolves the live site's endpoint, tries one connection to the first
//! address within a fixed time, and reports whether that connection was
//! made. A probe that has no answer when that time has passed since it was
//! asked for is cut short and answers "unreachable". Nothing is retried and
//! nothing is remembered between probes.

use vstd::prelude::*;

verus! {

/// Host and port that a probe resolves and connects to.
pub const PROBE_ENDPOINT: &'static str = "open.musifly.net:443";

/// Seconds a connection attempt may take, and seconds a whole probe may
/// take.
pub const PROBE_TIMEOUT_SECS: u64 = 3;

/// What happened last in a probe.
#[derive(Debug, Clone, Copy, PartialEq, Eq)]
pub enum ProbeEvent {
    /// The probe was asked for.
    Started,
    /// The endpoint could not be resolved.
    ResolveFailed,
    /// The endpoint resolved to this many addresses.
    Resolved { addresses: usize },
    /// The connection was made within the time allowed.
    Connected,
    /// The connection was refused, failed or ran out of time.
    ConnectFailed,
    /// The probe was cut short: it had no answer within the time a whole
    /// probe may take.
    TimedOut,
}

/// What a probe does next.
#[derive(Debug, Clone, Copy, PartialEq, Eq)]
pub enum ProbeStep {
    /// Resolve this host and port.
    Resolve { endpoint: &'static str },
    /// Try to connect to the resolved address with this index, giving up
    /// after this many seconds.
    Connect { address: usize, timeout_secs: u64 },
    /// The probe is over, with this answer.
    Done { reachable: bool },
}

/// The step that follows `event`.
pub open spec fn next_step(event: ProbeEvent) -> ProbeStep {
    match event {
        ProbeEvent::Started => ProbeStep::Resolve { endpoint: PROBE_ENDPOINT },
        ProbeEvent::ResolveFailed => ProbeStep::Done { reachable: false },
        ProbeEvent::Resolved { addresses } => if addresses == 0 {
            ProbeStep::Done { reachable: false }
        } else {
            ProbeStep::Connect { address: 0, timeout_secs: PROBE_TIMEOUT_SECS }
        },
        ProbeEvent::Connected => ProbeStep::Done { reachable: true },
        ProbeEvent::ConnectFailed => ProbeStep::Done { reachable: false },
        ProbeEvent::TimedOut => ProbeStep::Done { reachable: false },
    }
}

/// Decides what a probe does after `event`.
pub fn probe_step(event: ProbeEvent) -> (step: ProbeStep)
    ensures
        step == next_step(event),
{
    match event {
        ProbeEvent::Started => ProbeStep::Resolve { endpoint: PROBE_ENDPOINT },
        ProbeEvent::ResolveFailed => ProbeStep::Done { reachable: false },
        ProbeEvent::Resolved { addresses } => {
            if addresses == 0 {
                ProbeStep::Done { reachable: false }
            } else {
                ProbeStep::Connect { address: 0, timeout_secs: PROBE_TIMEOUT_SECS }
            }
        },
        ProbeEvent::Connected => ProbeStep::Done { reachable: true },
        ProbeEvent::ConnectFailed => ProbeStep::Done { reachable: false },
        ProbeEvent::TimedOut => ProbeStep::Done { reachable: false },
    }
}

/// What the network does to one probe.
pub struct Network {
    /// How many addresses the endpoint resolves to, or `None` where it does
    /// not resolve.
    pub resolved: Option<usize>,
    /// Whether a connection to the first address is made within the time
    /// allowed.
    pub connects: bool,
}

/// The event that a resolution on `network` ends in.
pub open spec fn resolution(network: Network) -> ProbeEvent {
    match network.resolved {
        Some(addresses) => ProbeEvent::Resolved { addresses },
        None => ProbeEvent::ResolveFailed,
    }
}

/// The event that a connection attempt on `network` ends in.
pub open spec fn connection(network: Network) -> ProbeEvent {
    if network.connects {
        ProbeEvent::Connected
    } else {
        ProbeEvent::ConnectFailed
    }
}

/// The answer of a probe that stands at `step` and may still ask `network`
/// for `turns` steps, or `None` where it is not over by then.
pub open spec fn answer_from(step: ProbeStep, network: Network, turns: nat) -> Option<bool>
    decreases turns,
{
    match step {
        ProbeStep::Done { reachable } => Some(reachable),
        ProbeStep::Resolve { .. } => if turns == 0 {
            None
        } else {
            answer_from(next_step(resolution(network)), network, (turns - 1) as nat)
        },
        ProbeStep::Connect { .. } => if turns == 0 {
            None
        } else {
            answer_from(next_step(connection(network)), network, (turns - 1) as nat)
        },
    }
}

/// A probe answers "reachable" after a connection that was made, and after
/// nothing else.
pub proof fn reachable_only_after_connection(event: ProbeEvent)
    ensures
        next_step(event) == (ProbeStep::Done { reachable: true }) <==> event == ProbeEvent::Connected,
{
}

/// A probe connects only where the endpoint resolved to at least one address,
/// and then to the first address, for [`PROBE_TIMEOUT_SECS`] seconds at most.
pub proof fn connects_to_first_address(event: ProbeEvent)
    ensures
        next_step(event) is Connect <==> (event matches ProbeEvent::Resolved { addresses }
            && addresses > 0),
        next_step(event) matches ProbeStep::Connect { address, timeout_secs } ==> address == 0
            && timeout_secs == PROBE_TIMEOUT_SECS,
{
}

/// A whole probe that is not cut short is over after one resolution and at
/// most one connection attempt, and it answers "reachable" exactly where the
/// endpoint resolved to at least one address and the connection to the first
/// was made in time.
pub proof fn probe_answers_after_two_steps(network: Network)
    ensures
        answer_from(next_step(ProbeEvent::Started), network, 2) == Some(
            (network.resolved matches Some(addresses) && addresses > 0) && network.connects,
        ),
{
    reveal_with_fuel(answer_from, 3);
}

} // verus!
