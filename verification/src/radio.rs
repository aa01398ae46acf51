//! The radio link: one packet at a time over a slow one-way channel.
//!
//! A transmission alternates decisions with work that only the outside world
//! can do: waiting, polling the channel's status, handing a command to the
//! channel's controller. The decisions live here. [`Radios::transmit`] checks
//! and frames a packet and says what to do first; the driver does it and
//! reports the result to [`Radios::step`], which says what to do next, until
//! the action is [`LinkAction::Finish`].
//!
//! The protocol on the one-way channel:
//!  1. take exclusive ownership of the channel;
//!  2. poll its status up to [`MAX_POLLS`] times, one second apart, until it
//!     is free, and go on in any case after the last poll;
//!  3. hand the send command to the controller; a refusal ends the
//!     transmission with [`TxError::CommandRejected`];
//!  4. wait [`SETTLE_SECS`], the longest a packet can be on the air;
//!  5. poll the status once more: only `LastGood` is a success;
//!  6. give the channel up, whatever the outcome.
//!
//! Before that the packet is offered to the two-way channel. That send is
//! advisory: its result never changes what happens on the one-way channel.

use crate::command::{
    encode_hex,
    passthrough_of,
    passthrough_request,
    send_command,
    send_command_of,
    CHANNEL_MODULE,
};
use crate::frame::{build_packet, frame_of, MessageType, MAX_PAYLOAD};
use crate::status::ChannelStatus;
use vstd::prelude::*;

verus! {

/// How often the status is polled, at most, before a packet is sent.
pub const MAX_POLLS: u8 = 15;

/// Seconds between two polls before a packet is sent.
pub const POLL_PAUSE_SECS: u64 = 1;

/// Seconds to wait after the send command before the outcome is read.
pub const SETTLE_SECS: u64 = 10;

/// Why a transmission failed.
#[derive(Clone, Copy, Debug, PartialEq, Eq)]
pub enum TxError {
    /// The payload is longer than a packet can carry. Nothing was sent.
    PayloadTooLarge,
    /// The controller did not accept the send command.
    CommandRejected,
    /// After the send the channel reported this status instead of `LastGood`.
    BadTransmissionStatus(ChannelStatus),
}

/// What the driver of a transmission has to do next.
#[derive(Clone, Copy, Debug, PartialEq, Eq)]
pub enum LinkAction {
    /// Nothing: no transmission is in flight.
    Standby,
    /// Offer the packet to the two-way channel, then report `SecondarySent`.
    SendSecondary,
    /// Take exclusive ownership of the one-way channel, waiting for it if
    /// need be, then report `ChannelAcquired`.
    AcquireChannel,
    /// Read the channel's status and report it as `Status`.
    PollStatus,
    /// Wait this long, then report `Elapsed`.
    Wait { seconds: u64 },
    /// Hand the send command to the controller and report its `Ack`.
    SubmitCommand,
    /// Give up the one-way channel, if it is held. The transmission is over
    /// with this outcome.
    Finish(Result<(), TxError>),
}

/// What the driver reports back.
#[derive(Clone, Copy, Debug, PartialEq, Eq)]
pub enum LinkEvent {
    /// The packet was offered to the two-way channel.
    SecondarySent { delivered: bool },
    /// The one-way channel is now owned by this transmission.
    ChannelAcquired,
    /// The channel reported this status.
    Status(ChannelStatus),
    /// The requested wait is over.
    Elapsed,
    /// The controller's answer to the send command: whether it accepted, or
    /// `None` where it gave no usable answer.
    Ack(Option<bool>),
}

/// Where a transmission stands.
#[derive(Clone, Copy, Debug, PartialEq, Eq)]
pub enum Phase {
    /// No transmission is in flight.
    Idle,
    /// The packet is being offered to the two-way channel.
    Secondary,
    /// Waiting for ownership of the one-way channel.
    Acquiring,
    /// A poll before the send is under way; `polls` counts it.
    Draining { polls: u8 },
    /// Pausing after the poll number `polls` found the channel busy.
    Pausing { polls: u8 },
    /// The send command is with the controller.
    Submitting,
    /// The packet is on the air.
    Settling,
    /// The poll after the send is under way.
    Confirming,
}

impl Phase {
    /// Whether the transmission owns the one-way channel in this phase.
    pub open spec fn holds_channel(self) -> bool {
        match self {
            Phase::Idle | Phase::Secondary | Phase::Acquiring => false,
            _ => true,
        }
    }

    /// A phase that a transmission can reach: its poll count lies between one
    /// and [`MAX_POLLS`].
    pub open spec fn wf(self) -> bool {
        match self {
            Phase::Draining { polls } => 1 <= polls <= MAX_POLLS,
            Phase::Pausing { polls } => 1 <= polls <= MAX_POLLS,
            _ => true,
        }
    }

    /// The action that this phase waits on.
    pub open spec fn awaited(self) -> LinkAction {
        match self {
            Phase::Idle => LinkAction::Standby,
            Phase::Secondary => LinkAction::SendSecondary,
            Phase::Acquiring => LinkAction::AcquireChannel,
            Phase::Draining { .. } => LinkAction::PollStatus,
            Phase::Pausing { .. } => LinkAction::Wait { seconds: POLL_PAUSE_SECS },
            Phase::Submitting => LinkAction::SubmitCommand,
            Phase::Settling => LinkAction::Wait { seconds: SETTLE_SECS },
            Phase::Confirming => LinkAction::PollStatus,
        }
    }

    /// Whether an event reports the result of the action that this phase
    /// waits on.
    pub open spec fn answered_by(self, event: LinkEvent) -> bool {
        match (self, event) {
            (Phase::Secondary, LinkEvent::SecondarySent { .. }) => true,
            (Phase::Acquiring, LinkEvent::ChannelAcquired) => true,
            (Phase::Draining { .. }, LinkEvent::Status(_)) => true,
            (Phase::Pausing { .. }, LinkEvent::Elapsed) => true,
            (Phase::Submitting, LinkEvent::Ack(_)) => true,
            (Phase::Settling, LinkEvent::Elapsed) => true,
            (Phase::Confirming, LinkEvent::Status(_)) => true,
            _ => false,
        }
    }
}

/// The outcome of a transmission whose send command was accepted, given the
/// status that the channel reported afterwards.
pub open spec fn outcome_of(after: ChannelStatus) -> Result<(), TxError> {
    if after == ChannelStatus::LastGood {
        Ok(())
    } else {
        Err(TxError::BadTransmissionStatus(after))
    }
}

/// The protocol: the phase that follows a phase on an event, and the action
/// to take on entering it. An event that does not answer the awaited action
/// changes nothing, and the awaited action is asked for again.
pub open spec fn transition(phase: Phase, event: LinkEvent) -> (Phase, LinkAction) {
    match (phase, event) {
        (Phase::Secondary, LinkEvent::SecondarySent { .. }) => (
            Phase::Acquiring,
            LinkAction::AcquireChannel,
        ),
        (Phase::Acquiring, LinkEvent::ChannelAcquired) => (
            Phase::Draining { polls: 1 },
            LinkAction::PollStatus,
        ),
        (Phase::Draining { polls }, LinkEvent::Status(status)) => if status.spec_is_available() {
            (Phase::Submitting, LinkAction::SubmitCommand)
        } else {
            (Phase::Pausing { polls }, LinkAction::Wait { seconds: POLL_PAUSE_SECS })
        },
        (Phase::Pausing { polls }, LinkEvent::Elapsed) => if polls < MAX_POLLS {
            (Phase::Draining { polls: (polls + 1) as u8 }, LinkAction::PollStatus)
        } else {
            (Phase::Submitting, LinkAction::SubmitCommand)
        },
        (Phase::Submitting, LinkEvent::Ack(ack)) => if ack == Some(true) {
            (Phase::Settling, LinkAction::Wait { seconds: SETTLE_SECS })
        } else {
            (Phase::Idle, LinkAction::Finish(Err(TxError::CommandRejected)))
        },
        (Phase::Settling, LinkEvent::Elapsed) => (Phase::Confirming, LinkAction::PollStatus),
        (Phase::Confirming, LinkEvent::Status(status)) => (
            Phase::Idle,
            LinkAction::Finish(outcome_of(status)),
        ),
        _ => (phase, phase.awaited()),
    }
}

/// How many polls before the send are started in the course of a sequence of
/// events: the steps that answer the awaited action and lead into `Draining`.
pub open spec fn polls_started(phase: Phase, events: Seq<LinkEvent>) -> nat
    decreases events.len(),
{
    if events.len() == 0 {
        0
    } else {
        let next = transition(phase, events[0]).0;
        let here: nat = if phase.answered_by(events[0]) && next is Draining {
            1
        } else {
            0
        };
        here + polls_started(next, events.drop_first())
    }
}

/// How many more polls before the send a transmission in this phase can
/// still start.
pub open spec fn polls_left(phase: Phase) -> int {
    match phase {
        Phase::Secondary | Phase::Acquiring => MAX_POLLS as int,
        Phase::Draining { polls } => MAX_POLLS - polls,
        Phase::Pausing { polls } => MAX_POLLS - polls,
        _ => 0,
    }
}

/// Every step leads from a phase that a transmission can reach to another
/// such phase: the poll count never passes [`MAX_POLLS`].
pub proof fn law_step_keeps_bounds(phase: Phase, event: LinkEvent)
    requires
        phase.wf(),
    ensures
        transition(phase, event).0.wf(),
        polls_left(transition(phase, event).0) <= polls_left(phase),
        polls_left(transition(phase, event).0) >= 0,
{
}

/// Whatever the driver reports, a transmission starts at most [`MAX_POLLS`]
/// polls before it sends.
pub proof fn law_poll_bound(phase: Phase, events: Seq<LinkEvent>)
    requires
        phase.wf(),
    ensures
        polls_started(phase, events) <= polls_left(phase),
        polls_started(Phase::Secondary, events) <= MAX_POLLS,
    decreases events.len(),
{
    if events.len() > 0 {
        law_poll_bound(transition(phase, events[0]).0, events.drop_first());
        law_poll_bound(transition(Phase::Secondary, events[0]).0, events.drop_first());
    }
}

/// After the last poll the packet is sent, whatever status any poll found:
/// the pause that follows poll number [`MAX_POLLS`] leads to the send
/// command, not to another poll.
pub proof fn law_send_after_last_poll(status: ChannelStatus)
    ensures
        ({
            let answered = transition(
                Phase::Draining { polls: MAX_POLLS },
                LinkEvent::Status(status),
            );
            let then = transition(answered.0, LinkEvent::Elapsed);
            answered.1 == LinkAction::SubmitCommand || (answered.1 == LinkAction::Wait {
                seconds: POLL_PAUSE_SECS,
            } && then == (Phase::Submitting, LinkAction::SubmitCommand))
        }),
{
}

/// The channel is given up on every way out: a transmission that finishes is
/// idle and owns nothing, and so is ready for the next packet.
pub proof fn law_finish_releases(phase: Phase, event: LinkEvent)
    requires
        transition(phase, event).1 is Finish,
    ensures
        transition(phase, event).0 == Phase::Idle,
        !transition(phase, event).0.holds_channel(),
        phase.holds_channel(),
{
}

/// The channel's status is read and the send command is given only by the
/// transmission that owns the channel, and ownership begins only with the
/// report that the channel was acquired.
pub proof fn law_work_under_ownership(phase: Phase, event: LinkEvent)
    ensures
        ({
            let (next, action) = transition(phase, event);
            &&& (action == LinkAction::PollStatus || action == LinkAction::SubmitCommand)
                ==> next.holds_channel()
            &&& next.holds_channel() && !phase.holds_channel() ==> phase == Phase::Acquiring
                && event == LinkEvent::ChannelAcquired
        }),
{
}

/// How a transmission ends. It succeeds only on the report of `LastGood`
/// after the send, and any other report then fails with that status. It
/// fails with `CommandRejected` only where the controller did not accept the
/// command, and then at once. It never ends with `PayloadTooLarge`: such a
/// payload does not get this far.
pub proof fn law_outcome(phase: Phase, event: LinkEvent)
    ensures
        transition(phase, event).1 == LinkAction::Finish(Ok(())) <==> phase == Phase::Confirming
            && event == LinkEvent::Status(ChannelStatus::LastGood),
        phase == Phase::Confirming ==> forall|status: ChannelStatus|
            status != ChannelStatus::LastGood ==> #[trigger] transition(
                phase,
                LinkEvent::Status(status),
            ).1 == LinkAction::Finish(Err(TxError::BadTransmissionStatus(status))),
        transition(phase, event).1 == LinkAction::Finish(Err(TxError::CommandRejected)) <==> phase
            == Phase::Submitting && event is Ack && event != LinkEvent::Ack(Some(true)),
        transition(phase, event).1 != LinkAction::Finish(Err(TxError::PayloadTooLarge)),
        transition(phase, event).1 is Finish ==> phase == Phase::Confirming || phase
            == Phase::Submitting,
{
}

/// The outcome is read only after the packet had its time on the air, and
/// the packet goes on the air only by a command that the controller
/// accepted.
pub proof fn law_success_path(phase: Phase, event: LinkEvent)
    ensures
        transition(phase, event).0 == Phase::Confirming && phase != Phase::Confirming ==> phase
            == Phase::Settling && event == LinkEvent::Elapsed,
        transition(phase, event).0 == Phase::Settling && phase != Phase::Settling ==> phase
            == Phase::Submitting && event == LinkEvent::Ack(Some(true)),
        transition(phase, event).0 == Phase::Submitting && phase != Phase::Submitting ==> ({
            ||| phase is Draining && (exists|status: ChannelStatus|
                status.spec_is_available() && event == LinkEvent::Status(status))
            ||| event == LinkEvent::Elapsed && (exists|polls: u8|
                polls >= MAX_POLLS && phase == (Phase::Pausing { polls }))
        }),
{
    let next = transition(phase, event).0;
    if next == Phase::Submitting && phase != Phase::Submitting {
        match (phase, event) {
            (Phase::Draining { .. }, LinkEvent::Status(status)) => {
                assert(status.spec_is_available() && event == LinkEvent::Status(status));
            },
            (Phase::Pausing { polls }, LinkEvent::Elapsed) => {
                assert(polls >= MAX_POLLS && phase == (Phase::Pausing { polls }));
            },
            _ => {},
        }
    }
}

/// The send on the two-way channel is advisory: whether it delivered or not,
/// the transmission goes on in the same way.
pub proof fn law_secondary_is_advisory(phase: Phase, a: bool, b: bool)
    ensures
        transition(phase, LinkEvent::SecondarySent { delivered: a }) == transition(
            phase,
            LinkEvent::SecondarySent { delivered: b },
        ),
{
}

/// An event that does not answer the awaited action changes nothing.
pub proof fn law_stray_event_ignored(phase: Phase, event: LinkEvent)
    requires
        !phase.answered_by(event),
    ensures
        transition(phase, event) == (phase, phase.awaited()),
{
}

/// What a faithful driver reports in a phase, in a world where the polls
/// before the send find the statuses `before` in their order, and `Unknown`
/// once these are used up, where the controller answers the send command with
/// `ack`, and where the channel reports `after` once the packet had its time
/// on the air.
pub open spec fn reply_in(
    phase: Phase,
    before: Seq<ChannelStatus>,
    ack: Option<bool>,
    after: ChannelStatus,
) -> LinkEvent {
    match phase {
        Phase::Idle => LinkEvent::Elapsed,
        Phase::Secondary => LinkEvent::SecondarySent { delivered: true },
        Phase::Acquiring => LinkEvent::ChannelAcquired,
        Phase::Draining { polls } => LinkEvent::Status(
            if 1 <= polls <= before.len() {
                before[polls - 1]
            } else {
                ChannelStatus::Unknown
            },
        ),
        Phase::Pausing { .. } => LinkEvent::Elapsed,
        Phase::Submitting => LinkEvent::Ack(ack),
        Phase::Settling => LinkEvent::Elapsed,
        Phase::Confirming => LinkEvent::Status(after),
    }
}

/// How a transmission ends that is driven faithfully from a phase on, if it
/// ends within `steps` steps.
pub open spec fn driven(
    phase: Phase,
    before: Seq<ChannelStatus>,
    ack: Option<bool>,
    after: ChannelStatus,
    steps: nat,
) -> Option<Result<(), TxError>>
    decreases steps,
{
    if steps == 0 {
        None
    } else {
        let (next, action) = transition(phase, reply_in(phase, before, ack, after));
        match action {
            LinkAction::Finish(outcome) => Some(outcome),
            _ => driven(next, before, ack, after, (steps - 1) as nat),
        }
    }
}

/// How a transmission ends once its packet is framed: by the controller's
/// answer to the send command and, where it accepted, by the status after
/// the send.
pub open spec fn end_of(ack: Option<bool>, after: ChannelStatus) -> Result<(), TxError> {
    if ack == Some(true) {
        outcome_of(after)
    } else {
        Err(TxError::CommandRejected)
    }
}

/// The most steps that a transmission still takes from a phase on.
pub open spec fn steps_left(phase: Phase) -> nat {
    match phase {
        Phase::Idle => 0,
        Phase::Secondary => 35,
        Phase::Acquiring => 34,
        Phase::Draining { polls } => (2 * (MAX_POLLS - polls) + 5) as nat,
        Phase::Pausing { polls } => (2 * (MAX_POLLS - polls) + 4) as nat,
        Phase::Submitting => 3,
        Phase::Settling => 2,
        Phase::Confirming => 1,
    }
}

/// A transmission that is driven faithfully ends, and ends as the
/// controller's answer and the status after the send say, whatever the polls
/// before the send found. A transmission that is past the send command got
/// there by the controller's acceptance.
pub proof fn law_driven_from(
    phase: Phase,
    before: Seq<ChannelStatus>,
    ack: Option<bool>,
    after: ChannelStatus,
    steps: nat,
)
    requires
        phase.wf(),
        phase != Phase::Idle,
        phase == Phase::Settling || phase == Phase::Confirming ==> ack == Some(true),
        steps >= steps_left(phase),
    ensures
        driven(phase, before, ack, after, steps) == Some(end_of(ack, after)),
    decreases steps,
{
    let (next, action) = transition(phase, reply_in(phase, before, ack, after));
    if !(action is Finish) {
        law_driven_from(next, before, ack, after, (steps - 1) as nat);
    }
}

/// A transmission that a faithful driver takes up after
/// [`Radios::transmit`] ends within 35 steps. It succeeds exactly if the
/// controller accepted the send command and the channel reported `LastGood`
/// afterwards; what the polls before the send found, and how many there
/// were, makes no difference.
pub proof fn law_transmission_ends(
    before: Seq<ChannelStatus>,
    ack: Option<bool>,
    after: ChannelStatus,
)
    ensures
        driven(Phase::Secondary, before, ack, after, 35) == Some(end_of(ack, after)),
        end_of(ack, after) is Ok <==> ack == Some(true) && after == ChannelStatus::LastGood,
{
    law_driven_from(Phase::Secondary, before, ack, after, 35);
}

/// The radio link and the transmission it has in flight, if any.
#[derive(Clone, Debug)]
pub struct Radios {
    /// Where the transmission in flight stands.
    pub phase: Phase,
    /// The packet in flight, as it goes on the wire.
    pub packet: Vec<u8>,
}

impl Radios {
    /// A link with nothing in flight.
    pub fn new() -> (radios: Radios)
        ensures
            radios.phase == Phase::Idle,
            radios.packet@ == Seq::<u8>::empty(),
    {
        Radios { phase: Phase::Idle, packet: Vec::new() }
    }

    /// Whether nothing is in flight.
    pub fn is_idle(&self) -> (idle: bool)
        ensures
            idle == (self.phase == Phase::Idle),
    {
        match self.phase {
            Phase::Idle => true,
            _ => false,
        }
    }

    /// Whether the transmission in flight owns the one-way channel.
    pub fn holds_channel(&self) -> (held: bool)
        ensures
            held == self.phase.holds_channel(),
    {
        match self.phase {
            Phase::Idle | Phase::Secondary | Phase::Acquiring => false,
            _ => true,
        }
    }

    /// Starts the transmission of one packet.
    ///
    /// A payload of more than [`MAX_PAYLOAD`] bytes is refused with
    /// [`TxError::PayloadTooLarge`] and leaves the link as it was: no action
    /// is asked for. Any other payload is framed and the first action is
    /// returned.
    pub fn transmit(&mut self, msg_type: MessageType, subtype: u8, data: &[u8]) -> (first: Result<
        LinkAction,
        TxError,
    >)
        requires
            old(self).phase == Phase::Idle,
        ensures
            data@.len() > MAX_PAYLOAD ==> first == Err::<LinkAction, TxError>(
                TxError::PayloadTooLarge,
            ) && *final(self) == *old(self),
            data@.len() <= MAX_PAYLOAD ==> first == Ok::<LinkAction, TxError>(
                LinkAction::SendSecondary,
            ) && final(self).phase == Phase::Secondary && final(self).packet@ == frame_of(
                msg_type,
                subtype,
                data@,
            ),
    {
        match build_packet(msg_type, subtype, data) {
            Some(packet) => {
                self.packet = packet;
                self.phase = Phase::Secondary;
                Ok(LinkAction::SendSecondary)
            },
            None => Err(TxError::PayloadTooLarge),
        }
    }

    /// The action that the transmission waits on.
    pub fn pending(&self) -> (action: LinkAction)
        ensures
            action == self.phase.awaited(),
    {
        match self.phase {
            Phase::Idle => LinkAction::Standby,
            Phase::Secondary => LinkAction::SendSecondary,
            Phase::Acquiring => LinkAction::AcquireChannel,
            Phase::Draining { .. } => LinkAction::PollStatus,
            Phase::Pausing { .. } => LinkAction::Wait { seconds: POLL_PAUSE_SECS },
            Phase::Submitting => LinkAction::SubmitCommand,
            Phase::Settling => LinkAction::Wait { seconds: SETTLE_SECS },
            Phase::Confirming => LinkAction::PollStatus,
        }
    }

    /// Takes the result of the last action and returns the next one.
    pub fn step(&mut self, event: LinkEvent) -> (next: LinkAction)
        ensures
            (final(self).phase, next) == transition(old(self).phase, event),
            final(self).packet == old(self).packet,
    {
        let (phase, next) = match (self.phase, event) {
            (Phase::Secondary, LinkEvent::SecondarySent { .. }) => (
                Phase::Acquiring,
                LinkAction::AcquireChannel,
            ),
            (Phase::Acquiring, LinkEvent::ChannelAcquired) => (
                Phase::Draining { polls: 1 },
                LinkAction::PollStatus,
            ),
            (Phase::Draining { polls }, LinkEvent::Status(status)) => if status.is_available() {
                (Phase::Submitting, LinkAction::SubmitCommand)
            } else {
                (Phase::Pausing { polls }, LinkAction::Wait { seconds: POLL_PAUSE_SECS })
            },
            (Phase::Pausing { polls }, LinkEvent::Elapsed) => if polls < MAX_POLLS {
                (Phase::Draining { polls: polls + 1 }, LinkAction::PollStatus)
            } else {
                (Phase::Submitting, LinkAction::SubmitCommand)
            },
            (Phase::Submitting, LinkEvent::Ack(ack)) => {
                let accepted = match ack {
                    Some(a) => a,
                    None => false,
                };
                if accepted {
                    (Phase::Settling, LinkAction::Wait { seconds: SETTLE_SECS })
                } else {
                    (Phase::Idle, LinkAction::Finish(Err(TxError::CommandRejected)))
                }
            },
            (Phase::Settling, LinkEvent::Elapsed) => (Phase::Confirming, LinkAction::PollStatus),
            (Phase::Confirming, LinkEvent::Status(status)) => {
                let outcome = match status {
                    ChannelStatus::LastGood => Ok(()),
                    other => Err(TxError::BadTransmissionStatus(other)),
                };
                (Phase::Idle, LinkAction::Finish(outcome))
            },
            _ => (self.phase, self.pending()),
        };
        self.phase = phase;
        next
    }

    /// The packet in flight as hexadecimal text.
    pub fn packet_hex(&self) -> (hex: String)
        ensures
            hex@ == crate::command::hex_of(self.packet@),
    {
        encode_hex(self.packet.as_slice())
    }

    /// The command that sends the packet in flight.
    pub fn command(&self) -> (command: String)
        ensures
            command@ == send_command_of(self.packet@),
    {
        send_command(self.packet.as_slice())
    }

    /// The passthrough request that hands the send command to the channel's
    /// controller.
    pub fn request(&self) -> (request: String)
        ensures
            request@ == passthrough_of(CHANNEL_MODULE@, send_command_of(self.packet@)),
    {
        let command = self.command();
        passthrough_request(CHANNEL_MODULE, command.as_str())
    }
}

} // verus!
