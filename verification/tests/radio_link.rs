use apollo_fusion::command::{encode_hex, passthrough_request, send_command};
use apollo_fusion::frame::{build_packet, header_byte, MessageType, MAX_PAYLOAD};
use apollo_fusion::radio::{
    LinkAction, LinkEvent, Phase, Radios, TxError, MAX_POLLS, POLL_PAUSE_SECS, SETTLE_SECS,
};
use apollo_fusion::status::ChannelStatus;

/// A channel that answers polls from a script and keeps a log of what the
/// driver did to it.
struct FakeChannel {
    /// Answers to the polls before the send, in order; the last one repeats.
    before: Vec<ChannelStatus>,
    /// What the controller answers to the send command.
    ack: Option<bool>,
    /// The status over the seconds after the send: each entry holds from its
    /// second on.
    after: Vec<(u64, ChannelStatus)>,
    polls: usize,
    commands: Vec<String>,
    secondary: Vec<Vec<u8>>,
    clock: u64,
    sent_at: Option<u64>,
    held: bool,
    acquired: usize,
    released: usize,
}

impl FakeChannel {
    fn new(before: Vec<ChannelStatus>, ack: Option<bool>, after: Vec<(u64, ChannelStatus)>) -> Self {
        FakeChannel {
            before,
            ack,
            after,
            polls: 0,
            commands: Vec::new(),
            secondary: Vec::new(),
            clock: 0,
            sent_at: None,
            held: false,
            acquired: 0,
            released: 0,
        }
    }

    fn poll(&mut self) -> ChannelStatus {
        assert!(self.held, "polled without owning the channel");
        self.polls += 1;
        match self.sent_at {
            None => {
                let i = (self.polls - 1).min(self.before.len() - 1);
                self.before[i]
            }
            Some(t0) => {
                let mut status = ChannelStatus::Unknown;
                for (from, s) in &self.after {
                    if self.clock - t0 >= *from {
                        status = *s;
                    }
                }
                status
            }
        }
    }
}

fn drive(radios: &mut Radios, first: LinkAction, channel: &mut FakeChannel) -> Result<(), TxError> {
    let mut action = first;
    for _ in 0..200 {
        let event = match action {
            LinkAction::Standby => panic!("nothing in flight"),
            LinkAction::SendSecondary => {
                channel.secondary.push(radios.packet.clone());
                LinkEvent::SecondarySent { delivered: true }
            }
            LinkAction::AcquireChannel => {
                assert!(!channel.held);
                channel.held = true;
                channel.acquired += 1;
                LinkEvent::ChannelAcquired
            }
            LinkAction::PollStatus => LinkEvent::Status(channel.poll()),
            LinkAction::Wait { seconds } => {
                channel.clock += seconds;
                LinkEvent::Elapsed
            }
            LinkAction::SubmitCommand => {
                assert!(channel.held, "commanded without owning the channel");
                channel.commands.push(radios.command());
                channel.sent_at = Some(channel.clock);
                LinkEvent::Ack(channel.ack)
            }
            LinkAction::Finish(outcome) => {
                if channel.held {
                    channel.held = false;
                    channel.released += 1;
                }
                return outcome;
            }
        };
        action = radios.step(event);
    }
    panic!("the transmission did not end");
}

#[test]
fn header_combines_kind_and_subtype() {
    assert_eq!(header_byte(MessageType::ADCS, 1), 0x01);
    assert_eq!(header_byte(MessageType::Errors, 2), 0x0a);
    assert_eq!(header_byte(MessageType::GPS, 3), 0x13);
    assert_eq!(header_byte(MessageType::OBC, 0), 0x18);
    assert_eq!(header_byte(MessageType::Power, 7), 0x27);
    assert_eq!(header_byte(MessageType::Radio, 0), 0x28);
    assert_eq!(header_byte(MessageType::SupMCU, 0), 0x30);
    assert_eq!(header_byte(MessageType::Temperature, 5), 0x3d);
}

#[test]
fn header_with_wide_subtype_is_the_plain_or() {
    assert_eq!(header_byte(MessageType::ADCS, 0xff), 0xff);
    assert_eq!(header_byte(MessageType::Errors, 8), 0x08);
}

#[test]
fn message_kinds_have_their_wire_codes() {
    let kinds = [
        MessageType::ADCS,
        MessageType::Errors,
        MessageType::GPS,
        MessageType::OBC,
        MessageType::Power,
        MessageType::Radio,
        MessageType::SupMCU,
        MessageType::Temperature,
    ];
    for (i, kind) in kinds.iter().enumerate() {
        assert_eq!(kind.code() as usize, i);
        assert_eq!(MessageType::from_code(i as u8), Some(*kind));
    }
    assert_eq!(MessageType::from_code(8), None);
    assert_eq!(MessageType::from_code(255), None);
}

#[test]
fn packet_is_header_then_payload() {
    let payload: Vec<u8> = (100..117).collect();
    let packet = build_packet(MessageType::ADCS, 1, &payload).unwrap();
    assert_eq!(packet.len(), 18);
    assert_eq!(packet[0], 0x01);
    assert_eq!(&packet[1..], &payload[..]);
}

#[test]
fn packet_limits() {
    assert_eq!(MAX_PAYLOAD, 34);
    assert_eq!(build_packet(MessageType::OBC, 0, &[]), Some(vec![0x18]));
    let full = vec![7u8; 34];
    assert_eq!(build_packet(MessageType::OBC, 0, &full).unwrap().len(), 35);
    let over = vec![7u8; 35];
    assert_eq!(build_packet(MessageType::OBC, 0, &over), None);
}

#[test]
fn hex_is_lower_case_two_digits_per_byte() {
    assert_eq!(encode_hex(&[]), "");
    assert_eq!(encode_hex(&[0x00, 0x01, 0x0a, 0xff, 0x9c]), "00010aff9c");
    let all: Vec<u8> = (0..=255).collect();
    let expected: String = all.iter().map(|b| format!("{:02x}", b)).collect();
    assert_eq!(encode_hex(&all), expected);
}

#[test]
fn send_command_names_the_verb_and_the_packet() {
    assert_eq!(send_command(&[0x01, 0xab, 0x00]), "RMS:GS:SEND 01ab00");
    assert_eq!(send_command(&[]), "RMS:GS:SEND ");
}

#[test]
fn passthrough_request_wraps_module_and_command() {
    assert_eq!(
        passthrough_request("rhm", "RMS:GS:SEND 01"),
        "mutation { passthrough(module: \"rhm\", command: \"RMS:GS:SEND 01\") { status, command } }"
    );
}

#[test]
fn transmit_frames_an_adcs_packet() {
    let mut radios = Radios::new();
    assert!(radios.is_idle());
    let payload = [0x11u8; 17];
    let first = radios.transmit(MessageType::ADCS, 1, &payload);
    assert_eq!(first, Ok(LinkAction::SendSecondary));
    assert_eq!(radios.packet.len(), 18);
    assert_eq!(radios.packet[0], 0x01);
    assert_eq!(&radios.packet[1..], &payload[..]);
    assert_eq!(radios.phase, Phase::Secondary);
    assert_eq!(radios.packet_hex(), format!("01{}", "11".repeat(17)));
    assert_eq!(radios.command(), format!("RMS:GS:SEND 01{}", "11".repeat(17)));
    assert_eq!(
        radios.request(),
        format!(
            "mutation {{ passthrough(module: \"rhm\", command: \"RMS:GS:SEND 01{}\") {{ status, command }} }}",
            "11".repeat(17)
        )
    );
}

#[test]
fn transmit_refuses_a_long_payload_before_any_action() {
    let mut radios = Radios::new();
    let payload = [0u8; 35];
    let first = radios.transmit(MessageType::Power, 2, &payload);
    assert_eq!(first, Err(TxError::PayloadTooLarge));
    assert!(radios.is_idle());
    assert!(!radios.holds_channel());
    assert_eq!(radios.pending(), LinkAction::Standby);
    assert!(radios.packet.is_empty());
    // The link is still usable.
    let mut channel = FakeChannel::new(
        vec![ChannelStatus::NoTransmissions],
        Some(true),
        vec![(0, ChannelStatus::LastGood)],
    );
    let first = radios.transmit(MessageType::Power, 2, &payload[..34]).unwrap();
    assert_eq!(drive(&mut radios, first, &mut channel), Ok(()));
    assert_eq!(channel.commands.len(), 1);
}

#[test]
fn busy_channel_drains_then_packet_goes_out() {
    let mut radios = Radios::new();
    let mut channel = FakeChannel::new(
        vec![ChannelStatus::Busy, ChannelStatus::Busy, ChannelStatus::NoTransmissions],
        Some(true),
        vec![(0, ChannelStatus::Transmitting), (8, ChannelStatus::LastGood)],
    );
    let first = radios.transmit(MessageType::GPS, 3, &[1, 2, 3]).unwrap();
    let outcome = drive(&mut radios, first, &mut channel);
    assert_eq!(outcome, Ok(()));
    // Three polls before the send, one after.
    assert_eq!(channel.polls, 4);
    // Two pauses of a second, then the settling time.
    assert_eq!(channel.clock, 2 * POLL_PAUSE_SECS + SETTLE_SECS);
    assert_eq!(channel.commands, vec!["RMS:GS:SEND 13010203".to_string()]);
    assert_eq!(channel.secondary, vec![vec![0x13, 1, 2, 3]]);
    assert_eq!((channel.acquired, channel.released), (1, 1));
    assert!(radios.is_idle());
}

#[test]
fn still_transmitting_after_the_wait_is_a_failure() {
    let mut radios = Radios::new();
    let mut channel = FakeChannel::new(
        vec![ChannelStatus::LastGood],
        Some(true),
        vec![(0, ChannelStatus::Transmitting), (11, ChannelStatus::LastGood)],
    );
    let first = radios.transmit(MessageType::GPS, 3, &[1]).unwrap();
    assert_eq!(
        drive(&mut radios, first, &mut channel),
        Err(TxError::BadTransmissionStatus(ChannelStatus::Transmitting))
    );
}

#[test]
fn last_bad_after_send_fails_and_frees_the_channel() {
    let mut radios = Radios::new();
    let mut channel = FakeChannel::new(
        vec![ChannelStatus::NoTransmissions],
        Some(true),
        vec![(0, ChannelStatus::LastBad)],
    );
    let first = radios.transmit(MessageType::Errors, 1, &[9; 34]).unwrap();
    let outcome = drive(&mut radios, first, &mut channel);
    assert_eq!(outcome, Err(TxError::BadTransmissionStatus(ChannelStatus::LastBad)));
    assert!(!channel.held);
    assert_eq!((channel.acquired, channel.released), (1, 1));
    assert!(radios.is_idle());
    assert!(!radios.holds_channel());

    // An unrelated send right after goes through: LastBad counts as free.
    let mut next = FakeChannel::new(
        vec![ChannelStatus::LastBad],
        Some(true),
        vec![(0, ChannelStatus::LastGood)],
    );
    let first = radios.transmit(MessageType::OBC, 0, &[1, 2, 3]).unwrap();
    assert_eq!(drive(&mut radios, first, &mut next), Ok(()));
    assert_eq!(next.polls, 2);
    assert_eq!(next.commands, vec!["RMS:GS:SEND 18010203".to_string()]);
}

#[test]
fn every_other_status_after_send_is_reported() {
    for status in [
        ChannelStatus::NoTransmissions,
        ChannelStatus::Busy,
        ChannelStatus::Prepping,
        ChannelStatus::Transmitting,
        ChannelStatus::LastBad,
        ChannelStatus::Unknown,
    ] {
        let mut radios = Radios::new();
        let mut channel =
            FakeChannel::new(vec![ChannelStatus::LastGood], Some(true), vec![(0, status)]);
        let first = radios.transmit(MessageType::Radio, 0, &[]).unwrap();
        assert_eq!(
            drive(&mut radios, first, &mut channel),
            Err(TxError::BadTransmissionStatus(status))
        );
        assert!(radios.is_idle());
    }
}

#[test]
fn polls_stop_at_fifteen_and_the_packet_is_sent_anyway() {
    for stuck in [
        ChannelStatus::Busy,
        ChannelStatus::Prepping,
        ChannelStatus::Transmitting,
        ChannelStatus::Unknown,
    ] {
        let mut radios = Radios::new();
        let mut channel =
            FakeChannel::new(vec![stuck], Some(true), vec![(0, ChannelStatus::LastGood)]);
        let first = radios.transmit(MessageType::Temperature, 0, &[0; 20]).unwrap();
        assert_eq!(drive(&mut radios, first, &mut channel), Ok(()));
        assert_eq!(MAX_POLLS, 15);
        assert_eq!(channel.polls, 15 + 1);
        assert_eq!(channel.commands.len(), 1);
        assert_eq!(channel.clock, 15 * POLL_PAUSE_SECS + SETTLE_SECS);
    }
}

#[test]
fn free_channel_is_polled_once() {
    for free in [ChannelStatus::NoTransmissions, ChannelStatus::LastGood, ChannelStatus::LastBad] {
        assert!(free.is_available());
        let mut radios = Radios::new();
        let mut channel =
            FakeChannel::new(vec![free], Some(true), vec![(0, ChannelStatus::LastGood)]);
        let first = radios.transmit(MessageType::SupMCU, 0, &[0; 18]).unwrap();
        assert_eq!(drive(&mut radios, first, &mut channel), Ok(()));
        assert_eq!(channel.polls, 2);
        assert_eq!(channel.clock, SETTLE_SECS);
    }
    for taken in [
        ChannelStatus::Busy,
        ChannelStatus::Prepping,
        ChannelStatus::Transmitting,
        ChannelStatus::Unknown,
    ] {
        assert!(!taken.is_available());
    }
}

#[test]
fn rejected_command_ends_without_wait_or_poll() {
    for ack in [Some(false), None] {
        let mut radios = Radios::new();
        let mut channel = FakeChannel::new(
            vec![ChannelStatus::NoTransmissions],
            ack,
            vec![(0, ChannelStatus::LastGood)],
        );
        let first = radios.transmit(MessageType::ADCS, 2, &[0; 32]).unwrap();
        assert_eq!(drive(&mut radios, first, &mut channel), Err(TxError::CommandRejected));
        assert_eq!(channel.polls, 1);
        assert_eq!(channel.clock, 0);
        assert_eq!((channel.acquired, channel.released), (1, 1));
        assert!(radios.is_idle());
    }
}

#[test]
fn secondary_failure_changes_nothing() {
    let mut a = Radios::new();
    let mut b = Radios::new();
    a.transmit(MessageType::ADCS, 1, &[1]).unwrap();
    b.transmit(MessageType::ADCS, 1, &[1]).unwrap();
    let next_a = a.step(LinkEvent::SecondarySent { delivered: true });
    let next_b = b.step(LinkEvent::SecondarySent { delivered: false });
    assert_eq!(next_a, LinkAction::AcquireChannel);
    assert_eq!(next_b, LinkAction::AcquireChannel);
    assert_eq!(a.phase, b.phase);
}

#[test]
fn steps_follow_the_protocol() {
    let mut radios = Radios::new();
    assert_eq!(radios.transmit(MessageType::ADCS, 1, &[1]), Ok(LinkAction::SendSecondary));
    assert_eq!(radios.pending(), LinkAction::SendSecondary);
    assert!(!radios.holds_channel());
    assert_eq!(
        radios.step(LinkEvent::SecondarySent { delivered: true }),
        LinkAction::AcquireChannel
    );
    assert!(!radios.holds_channel());
    assert_eq!(radios.step(LinkEvent::ChannelAcquired), LinkAction::PollStatus);
    assert!(radios.holds_channel());
    assert_eq!(radios.phase, Phase::Draining { polls: 1 });
    assert_eq!(
        radios.step(LinkEvent::Status(ChannelStatus::Busy)),
        LinkAction::Wait { seconds: 1 }
    );
    assert_eq!(radios.phase, Phase::Pausing { polls: 1 });
    assert_eq!(radios.step(LinkEvent::Elapsed), LinkAction::PollStatus);
    assert_eq!(radios.phase, Phase::Draining { polls: 2 });
    assert_eq!(
        radios.step(LinkEvent::Status(ChannelStatus::LastGood)),
        LinkAction::SubmitCommand
    );
    assert_eq!(radios.phase, Phase::Submitting);
    assert_eq!(radios.step(LinkEvent::Ack(Some(true))), LinkAction::Wait { seconds: 10 });
    assert_eq!(radios.phase, Phase::Settling);
    assert_eq!(radios.step(LinkEvent::Elapsed), LinkAction::PollStatus);
    assert_eq!(radios.phase, Phase::Confirming);
    assert!(radios.holds_channel());
    assert_eq!(
        radios.step(LinkEvent::Status(ChannelStatus::LastGood)),
        LinkAction::Finish(Ok(()))
    );
    assert_eq!(radios.phase, Phase::Idle);
    assert!(!radios.holds_channel());
    assert_eq!(radios.packet, vec![0x01, 1]);
}

#[test]
fn stray_reports_to_the_link_are_ignored() {
    let mut radios = Radios::new();
    assert_eq!(radios.step(LinkEvent::Elapsed), LinkAction::Standby);
    assert!(radios.is_idle());
    radios.transmit(MessageType::ADCS, 1, &[1]).unwrap();
    assert_eq!(radios.step(LinkEvent::Elapsed), LinkAction::SendSecondary);
    assert_eq!(radios.step(LinkEvent::Ack(Some(true))), LinkAction::SendSecondary);
    assert_eq!(radios.phase, Phase::Secondary);
    radios.step(LinkEvent::SecondarySent { delivered: false });
    radios.step(LinkEvent::ChannelAcquired);
    assert_eq!(radios.step(LinkEvent::Elapsed), LinkAction::PollStatus);
    assert_eq!(radios.step(LinkEvent::ChannelAcquired), LinkAction::PollStatus);
    assert_eq!(radios.phase, Phase::Draining { polls: 1 });
    radios.step(LinkEvent::Status(ChannelStatus::LastBad));
    assert_eq!(
        radios.step(LinkEvent::Status(ChannelStatus::LastGood)),
        LinkAction::SubmitCommand
    );
    assert_eq!(radios.phase, Phase::Submitting);
}
