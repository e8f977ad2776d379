//! Joining a network as a station: the decisions between radio requests.
//!
//! The driver asks the radio to connect until it accepts, then queries the
//! link; a link that is down starts over at once, a failed query starts over
//! after a pause. Once the link is up, the network stack is polled until the
//! interface has an address.
use vstd::prelude::*;

verus! {

/// Pause in milliseconds after a failed link query.
pub const LINK_RETRY_PAUSE_MILLIS: u32 = 1000;

/// Where the station stands in joining a network.
#[derive(Debug, Clone, Copy, PartialEq, Eq, Structural)]
pub enum StationPhase {
    /// Waiting for the radio to accept a connect request.
    Associating,
    /// Waiting for the answer to a link query.
    CheckingLink,
    /// Link is up; waiting for the interface to get an address.
    AwaitingAddress,
    /// The interface has an address.
    Online,
}

/// What the radio or the network stack answered.
#[derive(Debug, Clone, Copy, PartialEq, Eq, Structural)]
pub enum StationEvent {
    /// A connect request was accepted (`true`) or refused (`false`).
    ConnectRequested(bool),
    /// The link query answered that the link is up.
    LinkUp,
    /// The link query answered that the link is down.
    LinkDown,
    /// The link query itself failed.
    LinkQueryFailed,
    /// The network stack was polled; the interface is up (`true`) or not.
    NetworkPolled(bool),
}

/// What the driver does next.
#[derive(Debug, Clone, Copy, PartialEq, Eq, Structural)]
pub enum StationAction {
    /// Ask the radio to connect.
    RequestConnect,
    /// Ask the radio whether the link is up.
    QueryLink,
    /// Wait the given milliseconds, then ask the radio to connect.
    PauseThenRequestConnect(u32),
    /// Let the network stack work, then ask whether the interface is up.
    PollNetwork,
    /// The interface just got its address: report it.
    ReportOnline,
    /// Nothing is left to do.
    Finished,
}

/// The action that a phase waits on: what the driver repeats when an event
/// does not belong to the phase.
pub open spec fn awaited_action(phase: StationPhase) -> StationAction {
    match phase {
        StationPhase::Associating => StationAction::RequestConnect,
        StationPhase::CheckingLink => StationAction::QueryLink,
        StationPhase::AwaitingAddress => StationAction::PollNetwork,
        StationPhase::Online => StationAction::Finished,
    }
}

/// The transition table of joining a network.
pub open spec fn station_next(phase: StationPhase, event: StationEvent) -> (StationPhase, StationAction) {
    match (phase, event) {
        (StationPhase::Associating, StationEvent::ConnectRequested(false)) => (
            StationPhase::Associating,
            StationAction::RequestConnect,
        ),
        (StationPhase::Associating, StationEvent::ConnectRequested(true)) => (
            StationPhase::CheckingLink,
            StationAction::QueryLink,
        ),
        (StationPhase::CheckingLink, StationEvent::LinkUp) => (
            StationPhase::AwaitingAddress,
            StationAction::PollNetwork,
        ),
        (StationPhase::CheckingLink, StationEvent::LinkDown) => (
            StationPhase::Associating,
            StationAction::RequestConnect,
        ),
        (StationPhase::CheckingLink, StationEvent::LinkQueryFailed) => (
            StationPhase::Associating,
            StationAction::PauseThenRequestConnect(LINK_RETRY_PAUSE_MILLIS),
        ),
        (StationPhase::AwaitingAddress, StationEvent::NetworkPolled(false)) => (
            StationPhase::AwaitingAddress,
            StationAction::PollNetwork,
        ),
        (StationPhase::AwaitingAddress, StationEvent::NetworkPolled(true)) => (
            StationPhase::Online,
            StationAction::ReportOnline,
        ),
        _ => (phase, awaited_action(phase)),
    }
}

/// The phase reached from `phase` after the events `events`, in order.
pub open spec fn station_run(phase: StationPhase, events: Seq<StationEvent>) -> StationPhase
    decreases events.len(),
{
    if events.len() == 0 {
        phase
    } else {
        station_next(station_run(phase, events.drop_last()), events.last()).0
    }
}

/// Once online, the station stays online whatever is answered afterwards.
pub proof fn lemma_online_is_final(events: Seq<StationEvent>)
    ensures
        station_run(StationPhase::Online, events) == StationPhase::Online,
    decreases events.len(),
{
    if events.len() > 0 {
        lemma_online_is_final(events.drop_last());
    }
}

/// The station gets past the link check only after a link query answered
/// that the link is up.
pub proof fn lemma_link_up_precedes_address(phase: StationPhase, events: Seq<StationEvent>)
    requires
        phase == StationPhase::Associating || phase == StationPhase::CheckingLink,
        station_run(phase, events) == StationPhase::AwaitingAddress || station_run(phase, events)
            == StationPhase::Online,
    ensures
        exists|i: int| 0 <= i < events.len() && #[trigger] events[i] == StationEvent::LinkUp,
    decreases events.len(),
{
    if events.len() == 0 {
    } else {
        let init = events.drop_last();
        let q = station_run(phase, init);
        if q == StationPhase::AwaitingAddress || q == StationPhase::Online {
            lemma_link_up_precedes_address(phase, init);
            let i = choose|i: int| 0 <= i < init.len() && #[trigger] init[i] == StationEvent::LinkUp;
            assert(events[i] == init[i]);
        } else {
            assert(events[events.len() - 1] == StationEvent::LinkUp);
        }
    }
}

/// Joining succeeds only along the whole path: a link query that answered
/// up, and after it a poll that found the interface up.
pub proof fn lemma_online_requires_link_and_address(events: Seq<StationEvent>)
    requires
        station_run(StationPhase::Associating, events) == StationPhase::Online,
    ensures
        exists|i: int, j: int|
            0 <= i < j < events.len() && #[trigger] events[i] == StationEvent::LinkUp
                && #[trigger] events[j] == StationEvent::NetworkPolled(true),
    decreases events.len(),
{
    let init = events.drop_last();
    let q = station_run(StationPhase::Associating, init);
    if q == StationPhase::Online {
        lemma_online_requires_link_and_address(init);
        let (i, j) = choose|i: int, j: int|
            0 <= i < j < init.len() && #[trigger] init[i] == StationEvent::LinkUp
                && #[trigger] init[j] == StationEvent::NetworkPolled(true);
        assert(events[i] == init[i] && events[j] == init[j]);
    } else {
        assert(q == StationPhase::AwaitingAddress);
        lemma_link_up_precedes_address(StationPhase::Associating, init);
        let i = choose|i: int| 0 <= i < init.len() && #[trigger] init[i] == StationEvent::LinkUp;
        let j = events.len() - 1;
        assert(events[i] == init[i]);
        assert(events[j] == StationEvent::NetworkPolled(true));
    }
}

/// The driver's progress in joining a network.
pub struct StationLink {
    phase: StationPhase,
}

impl StationLink {
    pub closed spec fn phase(self) -> StationPhase {
        self.phase
    }

    /// Starts joining: the first step is a connect request.
    pub fn new() -> (r: (StationLink, StationAction))
        ensures
            r.0.phase() == StationPhase::Associating,
            r.1 == StationAction::RequestConnect,
    {
        (StationLink { phase: StationPhase::Associating }, StationAction::RequestConnect)
    }

    /// Starts where the link is already up: the network stack is polled until
    /// the interface has an address.
    pub fn awaiting_address() -> (r: (StationLink, StationAction))
        ensures
            r.0.phase() == StationPhase::AwaitingAddress,
            r.1 == StationAction::PollNetwork,
    {
        (StationLink { phase: StationPhase::AwaitingAddress }, StationAction::PollNetwork)
    }

    pub fn current_phase(&self) -> (r: StationPhase)
        ensures
            r == self.phase(),
    {
        self.phase
    }

    pub fn is_online(&self) -> (r: bool)
        ensures
            r == (self.phase() == StationPhase::Online),
    {
        match self.phase {
            StationPhase::Online => true,
            _ => false,
        }
    }

    /// Takes in what the radio or the stack answered and says what to do next.
    pub fn step(&mut self, event: StationEvent) -> (r: StationAction)
        ensures
            (final(self).phase(), r) == station_next(old(self).phase(), event),
    {
        let (phase, action) = match (self.phase, event) {
            (StationPhase::Associating, StationEvent::ConnectRequested(false)) => (
                StationPhase::Associating,
                StationAction::RequestConnect,
            ),
            (StationPhase::Associating, StationEvent::ConnectRequested(true)) => (
                StationPhase::CheckingLink,
                StationAction::QueryLink,
            ),
            (StationPhase::CheckingLink, StationEvent::LinkUp) => (
                StationPhase::AwaitingAddress,
                StationAction::PollNetwork,
            ),
            (StationPhase::CheckingLink, StationEvent::LinkDown) => (
                StationPhase::Associating,
                StationAction::RequestConnect,
            ),
            (StationPhase::CheckingLink, StationEvent::LinkQueryFailed) => (
                StationPhase::Associating,
                StationAction::PauseThenRequestConnect(LINK_RETRY_PAUSE_MILLIS),
            ),
            (StationPhase::AwaitingAddress, StationEvent::NetworkPolled(false)) => (
                StationPhase::AwaitingAddress,
                StationAction::PollNetwork,
            ),
            (StationPhase::AwaitingAddress, StationEvent::NetworkPolled(true)) => (
                StationPhase::Online,
                StationAction::ReportOnline,
            ),
            (phase, _) => (phase, Self::awaited(phase)),
        };
        self.phase = phase;
        action
    }

    fn awaited(phase: StationPhase) -> (r: StationAction)
        ensures
            r == awaited_action(phase),
    {
        match phase {
            StationPhase::Associating => StationAction::RequestConnect,
            StationPhase::CheckingLink => StationAction::QueryLink,
            StationPhase::AwaitingAddress => StationAction::PollNetwork,
            StationPhase::Online => StationAction::Finished,
        }
    }
}

} // verus!
