//! Card bring-up sequencing.
//!
//! One card-insertion cycle runs from waiting for insertion through the
//! initialization strobe, the reset broadcast, the version probe and the
//! operation-conditions negotiation, then waits for removal and starts
//! over.  The cycle is modelled as an explicit state machine: the runner
//! owns the registers and the delays, asks the machine what to do next,
//! performs that action, and feeds the observation back as an event.  Every
//! protocol decision lives in [`next_phase`], so the choices are verified
//! while the runner stays a thin shell.

use vstd::prelude::*;

verus! {

/// The busy bit of the operation-conditions response: while it is clear
/// the card is still powering up and the negotiation must be retried.
pub const OCR_BUSY_BIT: u32 = 0x8000_0000;

/// The operation-conditions argument offered to a version-2 card: the
/// voltage window with the high-capacity bit set.
pub const OCR_ARGUMENT_VERSION2: u32 = 0x4030_0000;

/// The operation-conditions argument offered to a legacy card: the voltage
/// window alone.
pub const OCR_ARGUMENT_LEGACY: u32 = 0x0030_0000;

/// The check pattern of the version probe; a version-2 card echoes it.
pub const VERSION_PROBE_PATTERN: u32 = 0x1AA;

/// How many times the version probe is dispatched before the card is
/// assumed legacy.
pub const VERSION_PROBE_ATTEMPTS: u8 = 3;

/// The last retry counter value at which the negotiation still accepts
/// the response: one initial attempt plus ten retries, eleven dispatches.
pub const OCR_RETRY_BOUND: u8 = 10;

/// The pause between negotiation attempts, in milliseconds.
pub const OCR_RETRY_DELAY_MS: u32 = 250;

/// What the runner observed while performing the requested action.
#[derive(Clone, Copy, Debug, PartialEq, Eq, Structural)]
pub enum CardEvent {
    /// Whether the presence-state register reports a card.
    Presence { inserted: bool },
    /// The initialization strobe has self-cleared.
    InitDone,
    /// The controller no longer reports the command line busy.
    Ready,
    /// A command was dispatched: whether it completed cleanly, and the
    /// first response word (0 for commands without a response).
    CommandResult { accepted: bool, response: u32 },
    /// The requested pause has elapsed.
    Waited,
}

/// What the runner must do next.
#[derive(Clone, Copy, Debug, PartialEq, Eq, Structural)]
pub enum HostAction {
    /// Read the presence-state register and report card presence.
    CheckPresence,
    /// Assert the initialization strobe and wait for it to self-clear.
    StrobeInitialization,
    /// Poll until the command line is no longer busy.
    AwaitReady,
    /// Dispatch the reset broadcast (argument 0, no response).
    SendGoIdle,
    /// Dispatch the version probe and read its response word.
    SendVersionProbe,
    /// Dispatch the operation-conditions negotiation, prefixed by the
    /// application command, and read the response word.
    SendOcr { argument: u32 },
    /// Pause for the given number of milliseconds.
    Wait { ms: u32 },
    /// Read the presence-state register and report card presence.
    CheckRemoval,
}

/// Where one insertion cycle stands.
#[derive(Clone, Copy, Debug, PartialEq, Eq, Structural)]
pub enum Phase {
    /// No card yet: poll presence until one appears.
    AwaitingCard,
    /// A card appeared: run the initialization strobe.
    Initializing,
    /// Strobe done: wait until the command line is free.
    Settling,
    /// Dispatch the reset broadcast.
    Resetting,
    /// Dispatch the version probe; `attempt` probes have already failed.
    Probing { attempt: u8 },
    /// Dispatch one negotiation attempt; `counter` retries have been used.
    Negotiating { version2: bool, counter: u8 },
    /// Pause before the next negotiation attempt.
    Waiting { version2: bool, counter: u8 },
    /// Negotiation is over: wait for the card to be removed.
    AwaitingRemoval { last_response: u32 },
}

/// The retry counters stay within their bounds.
pub open spec fn phase_wf(p: Phase) -> bool {
    match p {
        Phase::Probing { attempt } => attempt < VERSION_PROBE_ATTEMPTS,
        Phase::Negotiating { counter, .. } => counter <= OCR_RETRY_BOUND,
        Phase::Waiting { counter, .. } => 1 <= counter <= OCR_RETRY_BOUND,
        _ => true,
    }
}

/// The operation-conditions argument offered for a probe verdict.
pub open spec fn spec_ocr_argument(version2: bool) -> u32 {
    if version2 {
        OCR_ARGUMENT_VERSION2
    } else {
        OCR_ARGUMENT_LEGACY
    }
}

/// Whether the negotiation stops with this response: the card reports
/// power-up done (busy bit set), or the retry budget is spent.
pub open spec fn ocr_accepts(response: u32, counter: u8) -> bool {
    response & OCR_BUSY_BIT != 0 || counter >= OCR_RETRY_BOUND
}

/// The action the machine is waiting on in a phase.
pub open spec fn phase_action(p: Phase) -> HostAction {
    match p {
        Phase::AwaitingCard => HostAction::CheckPresence,
        Phase::Initializing => HostAction::StrobeInitialization,
        Phase::Settling => HostAction::AwaitReady,
        Phase::Resetting => HostAction::SendGoIdle,
        Phase::Probing { .. } => HostAction::SendVersionProbe,
        Phase::Negotiating { version2, .. } => HostAction::SendOcr {
            argument: spec_ocr_argument(version2),
        },
        Phase::Waiting { .. } => HostAction::Wait { ms: OCR_RETRY_DELAY_MS },
        Phase::AwaitingRemoval { .. } => HostAction::CheckRemoval,
    }
}

/// Whether an event answers the action the phase is waiting on.
pub open spec fn event_fits(p: Phase, e: CardEvent) -> bool {
    match p {
        Phase::AwaitingCard => e is Presence,
        Phase::Initializing => e is InitDone,
        Phase::Settling => e is Ready,
        Phase::Resetting => e is CommandResult,
        Phase::Probing { .. } => e is CommandResult,
        Phase::Negotiating { .. } => e is CommandResult,
        Phase::Waiting { .. } => e is Waited,
        Phase::AwaitingRemoval { .. } => e is Presence,
    }
}

/// The transition relation of one insertion cycle.
///
/// - Presence polling repeats until a card appears, then the strobe and
///   the busy wait lead to the reset broadcast, whose outcome is only
///   logged.
/// - The version probe accepts the echoed check pattern as the version-2
///   verdict; any other echoed value is a definitive legacy verdict; a
///   dispatch failure is retried until three probes have failed.
/// - Each negotiation attempt stops on the busy bit or a spent retry
///   budget, else pauses and retries with the counter raised.
/// - After negotiation the cycle waits for removal and starts over.
///
/// An event that does not answer the phase's pending action leaves the
/// phase unchanged.
pub open spec fn next_phase(p: Phase, e: CardEvent) -> Phase {
    match p {
        Phase::AwaitingCard => match e {
            CardEvent::Presence { inserted } => if inserted {
                Phase::Initializing
            } else {
                Phase::AwaitingCard
            },
            _ => p,
        },
        Phase::Initializing => match e {
            CardEvent::InitDone => Phase::Settling,
            _ => p,
        },
        Phase::Settling => match e {
            CardEvent::Ready => Phase::Resetting,
            _ => p,
        },
        Phase::Resetting => match e {
            CardEvent::CommandResult { .. } => Phase::Probing { attempt: 0 },
            _ => p,
        },
        Phase::Probing { attempt } => match e {
            CardEvent::CommandResult { accepted, response } => if accepted {
                Phase::Negotiating { version2: response == VERSION_PROBE_PATTERN, counter: 0 }
            } else if attempt + 1 < VERSION_PROBE_ATTEMPTS {
                Phase::Probing { attempt: (attempt + 1) as u8 }
            } else {
                Phase::Negotiating { version2: false, counter: 0 }
            },
            _ => p,
        },
        Phase::Negotiating { version2, counter } => match e {
            CardEvent::CommandResult { response, .. } => if ocr_accepts(response, counter) {
                Phase::AwaitingRemoval { last_response: response }
            } else {
                Phase::Waiting { version2, counter: (counter + 1) as u8 }
            },
            _ => p,
        },
        Phase::Waiting { version2, counter } => match e {
            CardEvent::Waited => Phase::Negotiating { version2, counter },
            _ => p,
        },
        Phase::AwaitingRemoval { last_response } => match e {
            CardEvent::Presence { inserted } => if inserted {
                Phase::AwaitingRemoval { last_response }
            } else {
                Phase::AwaitingCard
            },
            _ => p,
        },
    }
}

/// A transition never leaves the counters' bounds.
pub proof fn lemma_next_phase_wf(p: Phase, e: CardEvent)
    requires
        phase_wf(p),
    ensures
        phase_wf(next_phase(p, e)),
{
}

/// Tests a version-probe response word against the check pattern: the
/// echoed pattern means the card reports version-2 capability, any other
/// value means it does not.
pub fn is_version2_response(response: u32) -> (version2: bool)
    ensures
        version2 == (response == VERSION_PROBE_PATTERN),
{
    response == VERSION_PROBE_PATTERN
}

/// The operation-conditions argument offered for a probe verdict.
pub fn ocr_argument(version2: bool) -> (argument: u32)
    ensures
        argument == spec_ocr_argument(version2),
{
    if version2 {
        OCR_ARGUMENT_VERSION2
    } else {
        OCR_ARGUMENT_LEGACY
    }
}

/// Whether a finished negotiation ran out of retries: the loop exited with
/// a final response whose busy bit never set.  Exhaustion is tolerated,
/// not fatal: the cycle proceeds with the response it last observed.
pub fn negotiation_exhausted(last_response: u32) -> (exhausted: bool)
    ensures
        exhausted == (last_response & OCR_BUSY_BIT == 0),
{
    last_response & OCR_BUSY_BIT == 0
}

/// The bring-up state machine of one insertion cycle, restarted forever.
pub struct CardBringupSequencer {
    /// Where the cycle stands.
    pub phase: Phase,
}

impl CardBringupSequencer {
    /// A sequencer at the start of a cycle, waiting for a card.
    pub fn new() -> (s: Self)
        ensures
            s.phase == Phase::AwaitingCard,
            phase_wf(s.phase),
    {
        Self { phase: Phase::AwaitingCard }
    }

    /// The action the runner must perform next.
    pub fn current_action(&self) -> (action: HostAction)
        ensures
            action == phase_action(self.phase),
    {
        match self.phase {
            Phase::AwaitingCard => HostAction::CheckPresence,
            Phase::Initializing => HostAction::StrobeInitialization,
            Phase::Settling => HostAction::AwaitReady,
            Phase::Resetting => HostAction::SendGoIdle,
            Phase::Probing { .. } => HostAction::SendVersionProbe,
            Phase::Negotiating { version2, .. } => HostAction::SendOcr {
                argument: ocr_argument(version2),
            },
            Phase::Waiting { .. } => HostAction::Wait { ms: OCR_RETRY_DELAY_MS },
            Phase::AwaitingRemoval { .. } => HostAction::CheckRemoval,
        }
    }

    /// Consumes the observation of the pending action and returns the next
    /// action to perform.
    pub fn step(&mut self, event: CardEvent) -> (action: HostAction)
        requires
            phase_wf(old(self).phase),
            event_fits(old(self).phase, event),
        ensures
            final(self).phase == next_phase(old(self).phase, event),
            phase_wf(final(self).phase),
            action == phase_action(final(self).phase),
    {
        let next = match (self.phase, event) {
            (Phase::AwaitingCard, CardEvent::Presence { inserted }) => if inserted {
                Phase::Initializing
            } else {
                Phase::AwaitingCard
            },
            (Phase::Initializing, CardEvent::InitDone) => Phase::Settling,
            (Phase::Settling, CardEvent::Ready) => Phase::Resetting,
            (Phase::Resetting, CardEvent::CommandResult { .. }) => Phase::Probing { attempt: 0 },
            (Phase::Probing { attempt }, CardEvent::CommandResult { accepted, response }) => {
                if accepted {
                    Phase::Negotiating { version2: is_version2_response(response), counter: 0 }
                } else if attempt + 1 < VERSION_PROBE_ATTEMPTS {
                    Phase::Probing { attempt: attempt + 1 }
                } else {
                    Phase::Negotiating { version2: false, counter: 0 }
                }
            },
            (Phase::Negotiating { version2, counter }, CardEvent::CommandResult {
                response,
                ..
            }) => {
                if (response & OCR_BUSY_BIT) != 0 || counter >= OCR_RETRY_BOUND {
                    Phase::AwaitingRemoval { last_response: response }
                } else {
                    Phase::Waiting { version2, counter: counter + 1 }
                }
            },
            (Phase::Waiting { version2, counter }, CardEvent::Waited) => Phase::Negotiating {
                version2,
                counter,
            },
            (Phase::AwaitingRemoval { last_response }, CardEvent::Presence { inserted }) => {
                if inserted {
                    Phase::AwaitingRemoval { last_response }
                } else {
                    Phase::AwaitingCard
                }
            },
            _ => self.phase,
        };
        self.phase = next;
        self.current_action()
    }
}

/// Whether the phase sits inside the negotiation loop.
pub open spec fn in_negotiation(p: Phase) -> bool {
    p is Negotiating || p is Waiting
}

/// The retry counter of a negotiation phase.
pub open spec fn negotiation_counter(p: Phase) -> u8 {
    match p {
        Phase::Negotiating { counter, .. } => counter,
        Phase::Waiting { counter, .. } => counter,
        _ => 0,
    }
}

/// How many negotiation commands the machine dispatches from phase `p`
/// while it consumes `events`, before the negotiation loop is left.  A
/// dispatch is counted when a `Negotiating` phase consumes the event that
/// answers its pending send.
pub open spec fn ocr_dispatches(p: Phase, events: Seq<CardEvent>) -> nat
    decreases events.len(),
{
    if !in_negotiation(p) || events.len() == 0 {
        0
    } else {
        let consumed: nat = if p is Negotiating && event_fits(p, events[0]) {
            1
        } else {
            0
        };
        consumed + ocr_dispatches(next_phase(p, events[0]), events.drop_first())
    }
}

/// The negotiation loop is bounded: however the card answers, a machine
/// inside the loop dispatches at most `11 - counter` further attempts, and
/// never more than 11.  In particular, a negotiation entered fresh (counter
/// 0) performs at most 11 dispatches even if the busy bit never sets.
pub proof fn lemma_ocr_attempts_bounded(p: Phase, events: Seq<CardEvent>)
    requires
        phase_wf(p),
    ensures
        ocr_dispatches(p, events) <= 11 - negotiation_counter(p),
        ocr_dispatches(p, events) <= 11,
    decreases events.len(),
{
    if in_negotiation(p) && events.len() > 0 {
        let e = events[0];
        lemma_next_phase_wf(p, e);
        lemma_ocr_attempts_bounded(next_phase(p, e), events.drop_first());
    }
}

/// The phase after consuming a whole event sequence.
pub open spec fn run_phase(p: Phase, events: Seq<CardEvent>) -> Phase
    decreases events.len(),
{
    if events.len() == 0 {
        p
    } else {
        run_phase(next_phase(p, events[0]), events.drop_first())
    }
}

/// While no card is present the sequencer stays put: a machine waiting for
/// insertion that only ever observes an empty slot remains in
/// `AwaitingCard` after every prefix of the observations, so the only
/// action it ever requests is the presence poll and no command is
/// dispatched before insertion.
pub proof fn lemma_idle_while_card_absent(events: Seq<CardEvent>)
    requires
        forall|i: int|
            0 <= i < events.len() ==> events[i] == (CardEvent::Presence { inserted: false }),
    ensures
        run_phase(Phase::AwaitingCard, events) == Phase::AwaitingCard,
        forall|k: int|
            0 <= k < events.len() ==> #[trigger] run_phase(Phase::AwaitingCard, events.take(k))
                == Phase::AwaitingCard,
    decreases events.len(),
{
    if events.len() > 0 {
        assert(next_phase(Phase::AwaitingCard, events[0]) == Phase::AwaitingCard);
        assert forall|i: int|
            0 <= i < events.drop_first().len() implies events.drop_first()[i] == (
        CardEvent::Presence { inserted: false }) by {
            assert(events.drop_first()[i] == events[i + 1]);
        }
        lemma_idle_while_card_absent(events.drop_first());
        assert forall|k: int| 0 <= k < events.len() implies #[trigger] run_phase(
            Phase::AwaitingCard,
            events.take(k),
        ) == Phase::AwaitingCard by {
            assert forall|i: int|
                0 <= i < events.take(k).len() implies events.take(k)[i] == (CardEvent::Presence {
                inserted: false,
            }) by {
                assert(events.take(k)[i] == events[i]);
            }
            lemma_idle_while_card_absent(events.take(k));
        }
    }
}

} // verus!
