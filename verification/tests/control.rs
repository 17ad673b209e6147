//! Settings, the bootstrap and the control frames.

use std::time::Duration;

use runen_net_quic::control::{
    confirm_profile_transport, require_side, reserve_frame_body, terminal_send_outcome,
    validate_inbound_body_length, validate_outbound_body, BootstrapState, ConnectionFailure,
    ControlFrameError, ControlFrameType, ControlSender, DirectionIoState, FrameRead,
    FrameReadState, FrameWrite, HandshakeFacts, InboundGate, LocalControlLimitError,
    LocalControlLimits, ProfileBootstrapError, ProfileReadyParts, ReadFailure, SemanticRole,
    Settings, SettingsError, WriteFailure, MAX_SETTINGS_BODY_BYTES,
    MIN_NEGOTIATION_OFFER_BODY_BYTES, QUIC_MAX_STREAM_COUNT,
};
use runen_net_quic::endpoint::{EndpointResourceLimits, ValidatedEndpointResources};
use runen_net_quic::varint::{VarIntDecodeError, VarIntEncodeError, MAX_VARINT};
use runen_net_quic::wire::WireSide;

fn resources() -> ValidatedEndpointResources {
    EndpointResourceLimits {
        max_connections: 4,
        max_active_incoming_flows: 17,
        udp_payload_ceiling: 1_452,
        stream_receive_window: 64 * 1024,
        connection_receive_window: 256 * 1024,
        send_window: 256 * 1024,
        crypto_buffer_bytes: 32 * 1024,
        datagram_receive_buffer_bytes: 64 * 1024,
        datagram_send_buffer_bytes: 64 * 1024,
        max_idle_timeout: Duration::from_secs(30),
    }
    .validate()
    .unwrap()
}

fn local_limits(role: SemanticRole) -> LocalControlLimits {
    LocalControlLimits {
        semantic_role: role,
        max_control_frame_bytes: 64 * 1024,
        max_negotiation_frame_bytes: 32 * 1024,
        max_incoming_message_bytes: 128 * 1024,
    }
}

fn settings(role: SemanticRole) -> Settings {
    local_limits(role)
        .validate(resources())
        .unwrap()
        .local_settings()
}

#[test]
fn local_profile_reuses_endpoint_flow_limit() {
    let profile = local_limits(SemanticRole::Authority)
        .validate(resources())
        .unwrap();
    assert_eq!(profile.local_settings().max_active_incoming_flows, 17);
    assert_eq!(profile.resources().max_active_incoming_flows(), 17);
}

#[test]
fn local_profile_rejects_invalid_minimums_and_relationships() {
    let mut limits = local_limits(SemanticRole::Authority);
    limits.max_control_frame_bytes = MAX_SETTINGS_BODY_BYTES - 1;
    assert_eq!(
        limits.validate(resources()),
        Err(LocalControlLimitError::ControlFrameTooSmall)
    );

    let mut limits = local_limits(SemanticRole::Authority);
    limits.max_negotiation_frame_bytes = MIN_NEGOTIATION_OFFER_BODY_BYTES - 1;
    assert_eq!(
        limits.validate(resources()),
        Err(LocalControlLimitError::NegotiationFrameTooSmall)
    );

    let mut limits = local_limits(SemanticRole::Authority);
    limits.max_negotiation_frame_bytes = limits.max_control_frame_bytes + 1;
    assert_eq!(
        limits.validate(resources()),
        Err(LocalControlLimitError::NegotiationExceedsControl)
    );

    let mut limits = local_limits(SemanticRole::Authority);
    limits.max_incoming_message_bytes = 0;
    assert_eq!(
        limits.validate(resources()),
        Err(LocalControlLimitError::ZeroIncomingMessageBytes)
    );

    let mut limits = local_limits(SemanticRole::Authority);
    limits.max_incoming_message_bytes = MAX_VARINT + 1;
    assert_eq!(
        limits.validate(resources()),
        Err(LocalControlLimitError::IncomingMessageBytesOutOfRange)
    );
}

#[test]
fn settings_round_trip_and_preserve_boundary_varints() {
    let original = Settings {
        semantic_role: SemanticRole::Authority,
        max_control_frame_bytes: MAX_VARINT,
        max_negotiation_frame_bytes: 1 << 30,
        max_active_incoming_flows: QUIC_MAX_STREAM_COUNT,
        max_incoming_message_bytes: MAX_VARINT,
    };
    let encoded = original.encode();
    assert_eq!(Settings::decode(encoded.as_slice()), Ok(original));
    assert_eq!(encoded.as_slice()[0], 1);
    assert_eq!(encoded.as_slice().len(), MAX_SETTINGS_BODY_BYTES);
}

#[test]
fn settings_reject_unknown_role_zero_invalid_relationships_and_stream_limit() {
    let valid = settings(SemanticRole::Authority).encode();
    let mut unknown = valid.as_slice().to_vec();
    unknown[0] = 2;
    assert_eq!(
        Settings::decode(&unknown),
        Err(SettingsError::UnknownSemanticRole(2))
    );

    let cases = [
        Settings {
            max_control_frame_bytes: 0,
            ..settings(SemanticRole::Authority)
        },
        Settings {
            max_negotiation_frame_bytes: 0,
            ..settings(SemanticRole::Authority)
        },
        Settings {
            max_active_incoming_flows: 0,
            ..settings(SemanticRole::Authority)
        },
        Settings {
            max_incoming_message_bytes: 0,
            ..settings(SemanticRole::Authority)
        },
    ];
    for case in cases {
        assert!(Settings::decode(case.encode().as_slice()).is_err());
    }

    let case = Settings {
        max_negotiation_frame_bytes: 65_536,
        max_control_frame_bytes: 65_535,
        ..settings(SemanticRole::Authority)
    };
    assert_eq!(
        Settings::decode(case.encode().as_slice()),
        Err(SettingsError::NegotiationExceedsControl)
    );

    let case = Settings {
        max_active_incoming_flows: QUIC_MAX_STREAM_COUNT + 1,
        ..settings(SemanticRole::Authority)
    };
    assert_eq!(
        Settings::decode(case.encode().as_slice()),
        Err(SettingsError::ActiveIncomingFlowsExceedQuicStreamLimit)
    );
}

#[test]
fn settings_reject_trailing_truncated_and_non_minimal_data() {
    let encoded = settings(SemanticRole::Authority).encode();
    let mut trailing = encoded.as_slice().to_vec();
    trailing.push(0);
    assert_eq!(
        Settings::decode(&trailing),
        Err(SettingsError::TrailingBytes)
    );

    let truncated = &encoded.as_slice()[..encoded.as_slice().len() - 1];
    assert!(matches!(
        Settings::decode(truncated),
        Err(SettingsError::VarInt(VarIntDecodeError::Incomplete { .. }))
    ));

    let mut non_minimal = Settings {
        max_control_frame_bytes: 35,
        max_negotiation_frame_bytes: 35,
        ..settings(SemanticRole::Authority)
    }
    .encode()
    .as_slice()
    .to_vec();
    non_minimal.splice(1..2, [0x40, 0x23]);
    assert_eq!(
        Settings::decode(&non_minimal),
        Err(SettingsError::VarInt(VarIntDecodeError::NonMinimal))
    );
}

#[test]
fn bootstrap_state_requires_opposite_role_and_exactly_one_settings() {
    let mut state = BootstrapState::new(settings(SemanticRole::Authority));
    assert!(!state.is_ready());
    state.mark_local_settings_sent().unwrap();
    assert!(matches!(
        state.mark_local_settings_sent(),
        Err(ProfileBootstrapError::DuplicateSettings)
    ));
    assert!(matches!(
        state.receive_settings(settings(SemanticRole::Authority)),
        Err(ProfileBootstrapError::PeerRoleMismatch {
            expected: SemanticRole::NonAuthority,
            received: SemanticRole::Authority,
        })
    ));
    state
        .receive_settings(settings(SemanticRole::NonAuthority))
        .unwrap();
    assert!(state.is_ready());
    assert!(matches!(
        state.receive_settings(settings(SemanticRole::NonAuthority)),
        Err(ProfileBootstrapError::DuplicateSettings)
    ));
}

#[test]
fn bootstrap_state_blocks_non_settings_before_ready_and_settings_after_ready() {
    let mut state = BootstrapState::new(settings(SemanticRole::Authority));
    assert!(matches!(
        state.validate_inbound_type(ControlFrameType::NegotiationOffer),
        Err(ProfileBootstrapError::UnexpectedFrameBeforeReady(
            ControlFrameType::NegotiationOffer
        ))
    ));
    assert!(matches!(
        state.validate_outbound_type(ControlFrameType::OpenFlow),
        Err(ProfileBootstrapError::UnexpectedFrameBeforeReady(
            ControlFrameType::OpenFlow
        ))
    ));
    state.mark_local_settings_sent().unwrap();
    state
        .receive_settings(settings(SemanticRole::NonAuthority))
        .unwrap();
    assert!(
        state
            .validate_inbound_type(ControlFrameType::NegotiationOffer)
            .is_ok()
    );
    assert!(
        state
            .validate_outbound_type(ControlFrameType::FlowAccept)
            .is_ok()
    );
    assert!(matches!(
        state.validate_inbound_type(ControlFrameType::Settings),
        Err(ProfileBootstrapError::SettingsAfterReady)
    ));
    assert!(matches!(
        state.validate_outbound_type(ControlFrameType::Settings),
        Err(ProfileBootstrapError::SettingsAfterReady)
    ));
}

#[test]
fn bootstrap_state_rejects_wrong_frame_type_before_body_processing() {
    let state = BootstrapState::new(settings(SemanticRole::Authority));
    assert!(matches!(
        state.validate_inbound_type(ControlFrameType::OpenFlow),
        Err(ProfileBootstrapError::UnexpectedFrameBeforeReady(
            ControlFrameType::OpenFlow
        ))
    ));

    let mut ready = state;
    ready.mark_local_settings_sent().unwrap();
    ready
        .receive_settings(settings(SemanticRole::NonAuthority))
        .unwrap();
    assert!(matches!(
        ready.validate_inbound_type(ControlFrameType::Settings),
        Err(ProfileBootstrapError::SettingsAfterReady)
    ));
}

#[test]
fn frame_types_cover_exact_revision_one_domain() {
    let all = [
        ControlFrameType::Settings,
        ControlFrameType::NegotiationOffer,
        ControlFrameType::NegotiationProposal,
        ControlFrameType::NegotiationValidated,
        ControlFrameType::NegotiationEstablished,
        ControlFrameType::NegotiationFailed,
        ControlFrameType::OpenFlow,
        ControlFrameType::FlowAccept,
        ControlFrameType::FlowReject,
        ControlFrameType::FlowTerminate,
    ];
    for (value, frame_type) in all.into_iter().enumerate() {
        assert_eq!(
            ControlFrameType::from_wire(value as u64).unwrap(),
            frame_type
        );
    }
    assert!(matches!(
        ControlFrameType::from_wire(10),
        Err(ControlFrameError::UnknownFrameType(10))
    ));
}

#[test]
fn inbound_body_limits_are_checked_before_allocation() {
    assert_eq!(
        validate_inbound_body_length(ControlFrameType::FlowAccept, 80, 80, 40).unwrap(),
        80
    );
    assert!(matches!(
        validate_inbound_body_length(ControlFrameType::FlowAccept, 81, 80, 40),
        Err(ControlFrameError::BodyTooLarge {
            received: 81,
            limit: 80
        })
    ));
    assert_eq!(
        validate_inbound_body_length(ControlFrameType::NegotiationOffer, 40, 80, 40).unwrap(),
        40
    );
    assert!(matches!(
        validate_inbound_body_length(ControlFrameType::NegotiationOffer, 41, 80, 40),
        Err(ControlFrameError::NegotiationBodyTooLarge {
            received: 41,
            limit: 40
        })
    ));
    assert_eq!(
        validate_inbound_body_length(ControlFrameType::NegotiationValidated, 0, 80, 40)
            .unwrap(),
        0
    );
}

#[test]
fn cancelled_direction_is_poisoned_without_poisoning_the_other_direction() {
    let mut sender = DirectionIoState::new();
    let mut receiver = DirectionIoState::new();

    sender.begin().unwrap();
    assert!(matches!(
        sender.begin(),
        Err(ProfileBootstrapError::ControlChannelPoisoned)
    ));

    // A sender that was given up does not keep the receiver from running.
    receiver.begin().unwrap();
    receiver.complete();
    assert_eq!(receiver, DirectionIoState::Clean);
    assert!(matches!(
        sender.begin(),
        Err(ProfileBootstrapError::ControlChannelPoisoned)
    ));
}

#[test]
fn completed_direction_operation_restores_clean_state() {
    let mut io = DirectionIoState::new();
    io.begin().unwrap();
    io.complete();
    assert_eq!(io, DirectionIoState::Clean);
    assert!(io.begin().is_ok());
}

#[test]
fn outbound_body_limits_use_both_local_and_peer_settings() {
    let local = settings(SemanticRole::Authority);
    let mut peer = settings(SemanticRole::NonAuthority);
    peer.max_control_frame_bytes = 80;
    peer.max_negotiation_frame_bytes = 40;

    assert!(validate_outbound_body(local, peer, ControlFrameType::FlowAccept, 80).is_ok());
    assert!(matches!(
        validate_outbound_body(local, peer, ControlFrameType::FlowAccept, 81),
        Err(ControlFrameError::BodyTooLarge {
            received: 81,
            limit: 80
        })
    ));
    assert!(
        validate_outbound_body(local, peer, ControlFrameType::NegotiationOffer, 40).is_ok()
    );
    assert!(matches!(
        validate_outbound_body(local, peer, ControlFrameType::NegotiationOffer, 41),
        Err(ControlFrameError::NegotiationBodyTooLarge {
            received: 41,
            limit: 40
        })
    ));
}

#[test]
fn semantic_role_policy_is_independent_of_quic_side() {
    let authority = local_limits(SemanticRole::Authority)
        .validate(resources())
        .unwrap();
    let non_authority = local_limits(SemanticRole::NonAuthority)
        .validate(resources())
        .unwrap();
    let authority_settings = authority.local_settings();
    let non_authority_settings = non_authority.local_settings();

    assert_eq!(authority_settings.semantic_role, SemanticRole::Authority);
    assert_eq!(
        non_authority_settings.semantic_role,
        SemanticRole::NonAuthority
    );
    assert_eq!(
        authority_settings.max_control_frame_bytes,
        non_authority_settings.max_control_frame_bytes
    );
    assert_eq!(
        authority_settings.max_negotiation_frame_bytes,
        non_authority_settings.max_negotiation_frame_bytes
    );
    assert_eq!(
        authority_settings.max_active_incoming_flows,
        non_authority_settings.max_active_incoming_flows
    );
    assert_eq!(
        authority_settings.max_incoming_message_bytes,
        non_authority_settings.max_incoming_message_bytes
    );
}

/// Reads one frame out of a byte string.
fn read_frame(mut read: FrameRead, mut stream: &[u8]) -> Result<(ControlFrameType, Vec<u8>), ProfileBootstrapError> {
    loop {
        let wanted = read.wanted();
        if let FrameReadState::Body(_, _) = read.state {
            let body = stream[..wanted].to_vec();
            let frame = read.finish(body);
            return Ok((frame.frame_type, frame.body));
        }
        if stream.len() < wanted {
            return Err(read.read_failed(ReadFailure::FinishedEarly(stream.len())));
        }
        read.feed(&stream[..wanted])?;
        stream = &stream[wanted..];
    }
}

/// Writes one frame, at most `step` bytes at a time.
fn write_frame(mut write: FrameWrite, step: usize) -> Vec<u8> {
    let mut stream = Vec::new();
    loop {
        let written = match write.next_chunk() {
            None => return stream,
            Some(chunk) => {
                let written = chunk.len().min(step);
                stream.extend_from_slice(&chunk[..written]);
                written
            }
        };
        write.wrote(written).unwrap();
    }
}

fn ready_parts() -> ProfileReadyParts {
    let profile = local_limits(SemanticRole::Authority).validate(resources()).unwrap();
    let mut state = BootstrapState::begin(profile, false).unwrap();
    state.mark_local_settings_sent().unwrap();
    state.receive_settings(settings(SemanticRole::NonAuthority)).unwrap();
    ProfileReadyParts::new(WireSide::Client, profile, state)
}

#[test]
fn frames_survive_the_stream_however_they_are_cut() {
    for length in [0usize, 1, 63, 64, 200, 16_384] {
        let mut parts = ready_parts();
        let body: Vec<u8> = (0..length).map(|i| i as u8).collect();
        for step in [1usize, 3, 1_000_000] {
            let write =
                parts.sender.begin_send(ControlFrameType::OpenFlow, body.clone()).unwrap();
            let stream = write_frame(write, step);
            parts.sender.complete_send();
            assert_eq!(stream[0], 6);
            let read = parts.receiver.begin_receive().unwrap();
            assert_eq!(read_frame(read, &stream), Ok((ControlFrameType::OpenFlow, body.clone())));
            parts.receiver.complete_receive();
        }
    }
}

#[test]
fn two_bootstraps_exchange_settings_and_become_ready() {
    let left = local_limits(SemanticRole::Authority).validate(resources()).unwrap();
    let right = local_limits(SemanticRole::NonAuthority).validate(resources()).unwrap();
    let mut at_left = BootstrapState::begin(left, false).unwrap();
    let mut at_right = BootstrapState::begin(right, false).unwrap();
    let sent = write_frame(at_left.begin_local_settings().unwrap(), 5);
    at_left.mark_local_settings_sent().unwrap();
    let (frame_type, body) = read_frame(at_right.begin_peer_settings(), &sent).unwrap();
    assert_eq!(frame_type, ControlFrameType::Settings);
    at_right.receive_peer_settings(&body).unwrap();
    assert!(!at_right.is_ready());
    let sent = write_frame(at_right.begin_local_settings().unwrap(), 7);
    at_right.mark_local_settings_sent().unwrap();
    let (_, body) = read_frame(at_left.begin_peer_settings(), &sent).unwrap();
    at_left.receive_peer_settings(&body).unwrap();
    assert!(at_left.is_ready() && at_right.is_ready());
    assert_eq!(at_left.peer_settings(), right.local_settings());
    assert!(matches!(
        at_left.begin_local_settings(),
        Err(ProfileBootstrapError::SettingsAfterReady)
    ));
    assert!(matches!(
        BootstrapState::begin(left, true),
        Err(ProfileBootstrapError::ZeroRttControlStream)
    ));
    assert_eq!(
        BootstrapState::begin(left, false).unwrap().receive_peer_settings(&[]),
        Err(ProfileBootstrapError::Settings(SettingsError::EmptyBody))
    );
}

#[test]
fn a_frame_is_judged_by_its_type_before_its_length_is_read() {
    let state = BootstrapState::new(settings(SemanticRole::Authority));
    assert_eq!(
        read_frame(state.begin_peer_settings(), &[1]),
        Err(ProfileBootstrapError::UnexpectedFrameBeforeReady(ControlFrameType::NegotiationOffer))
    );
    let ready = FrameRead {
        gate: InboundGate::Ready,
        max_control_frame_bytes: 80,
        max_negotiation_frame_bytes: 40,
        state: FrameReadState::TypeFirst,
    };
    assert_eq!(read_frame(ready, &[0]), Err(ProfileBootstrapError::SettingsAfterReady));
    assert_eq!(
        read_frame(ready, &[10]),
        Err(ProfileBootstrapError::Frame(ControlFrameError::UnknownFrameType(10)))
    );
    assert_eq!(
        read_frame(ready, &[0x40, 6]),
        Err(ProfileBootstrapError::Frame(ControlFrameError::VarInt(VarIntDecodeError::NonMinimal)))
    );
    assert_eq!(
        read_frame(ready, &[6, 0x40, 81]),
        Err(ProfileBootstrapError::Frame(ControlFrameError::BodyTooLarge {
            received: 81,
            limit: 80
        }))
    );
    assert_eq!(
        read_frame(ready, &[1, 41]),
        Err(ProfileBootstrapError::Frame(ControlFrameError::NegotiationBodyTooLarge {
            received: 41,
            limit: 40
        }))
    );
    assert_eq!(
        read_frame(ready, &[]),
        Err(ProfileBootstrapError::Frame(ControlFrameError::EndOfStream))
    );
    assert_eq!(
        read_frame(ready, &[6]),
        Err(ProfileBootstrapError::Frame(ControlFrameError::Read(ReadFailure::FinishedEarly(0))))
    );
}

#[test]
fn sends_are_refused_for_settings_size_and_a_poisoned_direction() {
    let mut parts = ready_parts();
    assert!(matches!(
        parts.sender.begin_send(ControlFrameType::Settings, vec![]),
        Err(ProfileBootstrapError::SettingsOwnedByBootstrap)
    ));
    assert!(matches!(
        parts.sender.begin_send(ControlFrameType::OpenFlow, vec![0; 64 * 1024 + 1]),
        Err(ProfileBootstrapError::Frame(ControlFrameError::BodyTooLarge { .. }))
    ));
    let mut write = parts.sender.begin_send(ControlFrameType::OpenFlow, vec![1]).unwrap();
    assert_eq!(write.wrote(0), Err(ControlFrameError::ZeroWriteProgress));
    assert!(matches!(
        parts.sender.begin_send(ControlFrameType::OpenFlow, vec![1]),
        Err(ProfileBootstrapError::ControlChannelPoisoned)
    ));
    parts.receiver.begin_receive().unwrap();
    assert!(matches!(
        parts.receiver.begin_receive(),
        Err(ProfileBootstrapError::ControlChannelPoisoned)
    ));
    let sender: ControlSender = parts.sender;
    assert_eq!(sender.io_state, DirectionIoState::InFlightOrPoisoned);
}

#[test]
fn the_handshake_has_to_agree_on_the_profile() {
    let alpn = |name: &[u8]| HandshakeFacts::Protocol(Some(name.to_vec()));
    assert_eq!(
        confirm_profile_transport(&alpn(b"runennet/1"), Some(1_200), WireSide::Server)
            .unwrap()
            .side,
        WireSide::Server
    );
    assert_eq!(
        confirm_profile_transport(&alpn(b"runennet/1"), None, WireSide::Server),
        Err(ProfileBootstrapError::DatagramUnsupported)
    );
    assert_eq!(
        confirm_profile_transport(&alpn(b"runennet/2"), Some(1), WireSide::Client),
        Err(ProfileBootstrapError::WrongAlpn)
    );
    assert_eq!(
        confirm_profile_transport(&HandshakeFacts::Protocol(None), Some(1), WireSide::Client),
        Err(ProfileBootstrapError::WrongAlpn)
    );
    assert_eq!(
        confirm_profile_transport(&HandshakeFacts::Missing, Some(1), WireSide::Client),
        Err(ProfileBootstrapError::MissingHandshakeData)
    );
    assert_eq!(
        confirm_profile_transport(&HandshakeFacts::UnexpectedType, Some(1), WireSide::Client),
        Err(ProfileBootstrapError::UnexpectedHandshakeDataType)
    );
    assert_eq!(require_side(WireSide::Client, WireSide::Client), Ok(()));
    assert_eq!(
        require_side(WireSide::Client, WireSide::Server),
        Err(ProfileBootstrapError::WrongQuicSide {
            expected: WireSide::Server,
            actual: WireSide::Client
        })
    );
}

#[test]
fn the_last_frame_was_received_unless_the_peer_stopped_the_stream() {
    assert_eq!(terminal_send_outcome(Ok(None)), Ok(()));
    assert_eq!(
        terminal_send_outcome(Ok(Some(7))),
        Err(ProfileBootstrapError::Frame(ControlFrameError::Write(WriteFailure::Stopped(7))))
    );
    let lost = WriteFailure::ConnectionLost(ConnectionFailure::Reset);
    assert_eq!(
        terminal_send_outcome(Err(lost)),
        Err(ProfileBootstrapError::Frame(ControlFrameError::Write(lost)))
    );
}

#[test]
fn room_for_a_body_may_be_refused() {
    assert_eq!(reserve_frame_body(3), Ok(vec![0, 0, 0]));
    assert!(matches!(
        reserve_frame_body(usize::MAX),
        Err(ControlFrameError::Allocation(_))
    ));
    assert!(!matches!(VarIntEncodeError::OutOfRange(1), VarIntEncodeError::OutOfRange(0)));
}

#[test]
fn limits_and_settings_are_refused_for_each_number() {
    let mut limits = local_limits(SemanticRole::Authority);
    limits.max_control_frame_bytes = usize::MAX;
    assert_eq!(
        limits.validate(resources()),
        Err(LocalControlLimitError::ControlFrameOutOfRange)
    );
    let good = settings(SemanticRole::Authority);
    for (refused, error) in [
        (Settings { max_control_frame_bytes: 0, ..good }, SettingsError::ZeroControlFrameBytes),
        (Settings { max_control_frame_bytes: 32, ..good }, SettingsError::ControlFrameTooSmall),
        (
            Settings { max_negotiation_frame_bytes: 0, ..good },
            SettingsError::ZeroNegotiationFrameBytes,
        ),
        (
            Settings { max_negotiation_frame_bytes: 34, ..good },
            SettingsError::NegotiationFrameTooSmall,
        ),
        (
            Settings { max_active_incoming_flows: 0, ..good },
            SettingsError::ZeroActiveIncomingFlows,
        ),
        (
            Settings { max_incoming_message_bytes: 0, ..good },
            SettingsError::ZeroIncomingMessageBytes,
        ),
    ] {
        assert_eq!(refused.validate(), Err(error));
        assert_eq!(Settings::decode(refused.encode().as_slice()), Err(error));
    }
}

#[test]
fn a_finished_bootstrap_hands_over_both_directions() {
    let profile = local_limits(SemanticRole::Authority).validate(resources()).unwrap();
    let mut state = BootstrapState::begin(profile, false).unwrap();
    state.mark_local_settings_sent().unwrap();
    let peer = settings(SemanticRole::Authority.opposite());
    state.receive_settings(peer).unwrap();
    let (announced, sender, receiver) = state.into_ready_parts();
    assert_eq!(announced, peer);
    assert_eq!((sender.local_settings, sender.peer_settings), (profile.local_settings(), peer));
    assert_eq!(receiver.local_settings, profile.local_settings());
    for number in 0..10 {
        let frame_type = ControlFrameType::from_wire(number).unwrap();
        assert_eq!(frame_type.is_negotiation(), (1..=5).contains(&number));
    }
}
