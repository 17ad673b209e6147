//! Who may connect, what a failure is closed with, and what is left at the end.

use std::time::Duration;

use runen_net_quic::control::{
    BootstrapState, ConnectionFailure, ControlFrameError, ControlFrameType, LocalControlLimits,
    ProfileBootstrapError, ProfileReadyParts, ReadFailure, SemanticRole, Settings, SettingsError,
    ValidatedControlProfile, WriteFailure,
};
use runen_net_quic::delivery::ConnectionHandle;
use runen_net_quic::endpoint::{
    ConfiguredEndpoint, ConnectionAdmissionError, EndpointResourceLimits,
    ValidatedEndpointResources,
};
use runen_net_quic::flow_control::FlowControlError;
use runen_net_quic::lifecycle::{
    admit_connection, bootstrap_close_code, close_for_bootstrap_error,
    close_for_post_profile_control_error, close_for_received_flow_control_error,
    close_negotiation_failed, close_negotiation_protocol_error, control_frame_close_code,
    finish_teardown, post_profile_close_code, received_flow_control_close_code,
    validate_preflight, CloseOrder, CloseReason, EstablishedIoParts,
    EstablishedNegotiatedConnection, EstablishedTeardown, ProfileConnectionError,
    ProfilePreflightError,
};
use runen_net_quic::negotiation::{NegotiationControlError, NegotiationExchange};
use runen_net_quic::protocol::NegotiationManagerError;
use runen_net_quic::varint::VarIntDecodeError;
use runen_net_quic::wire::{
    ApplicationErrorCode, ControlBodyError, FlowId, FlowIdCursorError, WireSide,
};

fn resources(max_connections: usize) -> ValidatedEndpointResources {
    EndpointResourceLimits {
        max_connections,
        max_active_incoming_flows: 16,
        udp_payload_ceiling: 1_452,
        stream_receive_window: 64 * 1024,
        connection_receive_window: 256 * 1024,
        send_window: 256 * 1024,
        crypto_buffer_bytes: 32 * 1024,
        datagram_receive_buffer_bytes: 64 * 1024,
        datagram_send_buffer_bytes: 64 * 1024,
        max_idle_timeout: Duration::from_secs(30),
    }
    .validate()
    .unwrap()
}

fn profile(resources: ValidatedEndpointResources) -> ValidatedControlProfile {
    LocalControlLimits {
        semantic_role: SemanticRole::Authority,
        max_control_frame_bytes: 64 * 1024,
        max_negotiation_frame_bytes: 32 * 1024,
        max_incoming_message_bytes: 128 * 1024,
    }
    .validate(resources)
    .unwrap()
}

fn assert_static<T: 'static>() {}

#[test]
fn established_io_ownership_is_move_owned() {
    assert_static::<EstablishedIoParts>();
    assert_static::<EstablishedTeardown>();
}

#[test]
fn preflight_requires_expected_side_and_same_resource_authority() {
    let endpoint_resources = resources(4);
    let matching_profile = profile(endpoint_resources);
    assert_eq!(
        validate_preflight(
            WireSide::Client,
            endpoint_resources,
            matching_profile,
            WireSide::Client,
        ),
        Ok(())
    );
    assert_eq!(
        validate_preflight(
            WireSide::Server,
            endpoint_resources,
            matching_profile,
            WireSide::Client,
        ),
        Err(ProfilePreflightError::WrongEndpointSide {
            expected: WireSide::Client,
            actual: WireSide::Server,
        })
    );

    let different_resources = resources(5);
    assert_eq!(
        validate_preflight(
            WireSide::Client,
            endpoint_resources,
            profile(different_resources),
            WireSide::Client,
        ),
        Err(ProfilePreflightError::ResourceAuthorityMismatch)
    );
}

#[test]
fn bootstrap_profile_violations_map_to_profile_protocol_error() {
    let cases = [
        ProfileBootstrapError::WrongAlpn,
        ProfileBootstrapError::DatagramUnsupported,
        ProfileBootstrapError::ZeroRttControlStream,
        ProfileBootstrapError::Settings(SettingsError::EmptyBody),
        ProfileBootstrapError::UnexpectedFrameBeforeReady(ControlFrameType::OpenFlow),
        ProfileBootstrapError::DuplicateSettings,
        ProfileBootstrapError::PeerRoleMismatch {
            expected: SemanticRole::Authority,
            received: SemanticRole::NonAuthority,
        },
    ];
    for error in cases {
        assert_eq!(
            bootstrap_close_code(&error),
            Some(ApplicationErrorCode::ProfileProtocolError)
        );
    }
}

#[test]
fn peer_control_failures_map_to_control_frame_error() {
    let cases = [
        ControlFrameError::VarInt(VarIntDecodeError::NonMinimal),
        ControlFrameError::UnknownFrameType(99),
        ControlFrameError::BodyTooLarge {
            received: 65,
            limit: 64,
        },
        ControlFrameError::Read(ReadFailure::FinishedEarly(0)),
        ControlFrameError::Read(ReadFailure::Reset(2)),
        ControlFrameError::Write(WriteFailure::Stopped(2)),
    ];
    for error in cases {
        assert_eq!(
            control_frame_close_code(&error),
            Some(ApplicationErrorCode::ControlFrameError)
        );
    }
}

#[test]
fn bounded_inbound_allocation_failure_maps_to_resource_limit() {
    let allocation = Vec::<u8>::new().try_reserve(usize::MAX).unwrap_err();
    assert_eq!(
        control_frame_close_code(&ControlFrameError::Allocation(allocation)),
        Some(ApplicationErrorCode::ResourceLimitError)
    );
}

#[test]
fn transport_loss_and_internal_state_are_not_reclassified() {
    assert_eq!(
        bootstrap_close_code(&ProfileBootstrapError::Connection(
            ConnectionFailure::TimedOut
        )),
        None
    );
    assert_eq!(
        bootstrap_close_code(&ProfileBootstrapError::WrongQuicSide {
            expected: WireSide::Client,
            actual: WireSide::Server,
        }),
        None
    );
    assert_eq!(
        bootstrap_close_code(&ProfileBootstrapError::MissingHandshakeData),
        None
    );
    assert_eq!(
        control_frame_close_code(&ControlFrameError::Read(ReadFailure::ConnectionLost(ConnectionFailure::TimedOut))),
        None
    );
    assert_eq!(
        control_frame_close_code(&ControlFrameError::Write(WriteFailure::ConnectionLost(ConnectionFailure::TimedOut))),
        None
    );
    assert_eq!(
        control_frame_close_code(&ControlFrameError::Write(WriteFailure::ZeroRttRejected)),
        None
    );
    assert_eq!(
        control_frame_close_code(&ControlFrameError::ZeroWriteProgress),
        None
    );
}

#[test]
fn post_profile_settings_is_profile_protocol_error() {
    assert_eq!(
        post_profile_close_code(&ProfileBootstrapError::SettingsAfterReady),
        Some(ApplicationErrorCode::ProfileProtocolError)
    );
    assert_eq!(
        post_profile_close_code(&ProfileBootstrapError::Frame(ControlFrameError::VarInt(
            VarIntDecodeError::NonMinimal,
        ))),
        Some(ApplicationErrorCode::ControlFrameError)
    );
}

#[test]
fn received_non_flow_frame_maps_to_profile_protocol_error() {
    assert_eq!(
        received_flow_control_close_code(&FlowControlError::UnexpectedFrame(
            ControlFrameType::NegotiationOffer,
        )),
        Some(ApplicationErrorCode::ProfileProtocolError)
    );
}

#[test]
fn received_flow_wire_and_state_errors_map_to_flow_protocol_error() {
    let flow_id = FlowId::new(WireSide::Client, 0).unwrap();
    let cases = [
        FlowControlError::Body(ControlBodyError::TrailingBytes),
        FlowControlError::FlowId(FlowIdCursorError::UnexpectedSequence {
            expected: 0,
            received: 1,
        }),
        FlowControlError::WrongResponseSide {
            expected: WireSide::Client,
            received: WireSide::Server,
        },
        FlowControlError::UnknownPendingFlow(flow_id),
        FlowControlError::UnknownActiveFlow(flow_id),
        FlowControlError::ReliableNormalUsesFin(flow_id),
    ];
    for error in cases {
        assert_eq!(
            received_flow_control_close_code(&error),
            Some(ApplicationErrorCode::FlowProtocolError)
        );
    }
}

#[test]
fn received_flow_allocation_failure_maps_to_resource_limit() {
    let allocation = Vec::<u8>::new().try_reserve(usize::MAX).unwrap_err();
    assert_eq!(
        received_flow_control_close_code(&FlowControlError::Allocation(allocation)),
        Some(ApplicationErrorCode::ResourceLimitError)
    );
}

#[test]
fn local_inbound_scheduling_state_is_not_reclassified_as_peer_fault() {
    let flow_id = FlowId::new(WireSide::Server, 0).unwrap();
    assert_eq!(
        received_flow_control_close_code(&FlowControlError::InboundDecisionPending(flow_id)),
        None
    );
}

#[test]
fn a_connection_is_taken_while_there_is_capacity_and_given_back() {
    let resources = resources(2);
    let mut endpoint = ConfiguredEndpoint::new(WireSide::Client, resources);
    let profile = profile(resources);
    let first = admit_connection(&mut endpoint, profile, WireSide::Client).unwrap();
    let second = admit_connection(&mut endpoint, profile, WireSide::Client).unwrap();
    assert_eq!(endpoint.connections(), 2);
    assert_eq!(
        admit_connection(&mut endpoint, profile, WireSide::Client),
        Err(ProfileConnectionError::Admission(ConnectionAdmissionError::AtCapacity))
    );
    endpoint.release_connection_slot(first);
    assert_eq!(endpoint.connections(), 1);
    let third = admit_connection(&mut endpoint, profile, WireSide::Client).unwrap();
    endpoint.release_connection_slot(second);
    endpoint.release_connection_slot(third);
    assert_eq!(endpoint.connections(), 0);
    assert_eq!(
        admit_connection(&mut endpoint, profile, WireSide::Server),
        Err(ProfileConnectionError::Preflight(ProfilePreflightError::WrongEndpointSide {
            expected: WireSide::Server,
            actual: WireSide::Client
        }))
    );
    assert_eq!(endpoint.connections(), 0);
}

#[test]
fn close_orders_tell_the_code_and_the_reason() {
    assert_eq!(
        close_for_bootstrap_error(&ProfileBootstrapError::WrongAlpn),
        Some(CloseOrder {
            code: ApplicationErrorCode::ProfileProtocolError,
            reason: CloseReason::ProfileBootstrap
        })
    );
    assert_eq!(close_for_bootstrap_error(&ProfileBootstrapError::SettingsAfterReady), None);
    assert_eq!(
        close_for_post_profile_control_error(&ProfileBootstrapError::SettingsAfterReady),
        Some(CloseOrder {
            code: ApplicationErrorCode::ProfileProtocolError,
            reason: CloseReason::ProfileControl
        })
    );
    assert_eq!(
        close_for_received_flow_control_error(&FlowControlError::Body(
            ControlBodyError::TrailingBytes
        )),
        Some(CloseOrder {
            code: ApplicationErrorCode::FlowProtocolError,
            reason: CloseReason::FlowControl
        })
    );
    assert_eq!(close_negotiation_failed().code, ApplicationErrorCode::NegotiationFailed);
    assert_eq!(
        close_negotiation_protocol_error().code,
        ApplicationErrorCode::ProfileProtocolError
    );
    assert_eq!(CloseReason::ProfileBootstrap.text(), "profile bootstrap failed");
    assert_eq!(CloseReason::ProfileControl.text(), "profile control failed");
    assert_eq!(CloseReason::Negotiation.text(), "negotiation failed");
    assert_eq!(CloseReason::FlowControl.text(), "flow control failed");
    assert_eq!(CloseReason::EstablishedData.text(), "established data failed");
    assert_eq!(CloseReason::EndpointShutdown.text(), "RunenNet endpoint shutdown");
    assert_eq!(ApplicationErrorCode::NoError.wire(), 0);
    assert_eq!(
        control_frame_close_code(&ControlFrameError::EndOfStream),
        Some(ApplicationErrorCode::ControlFrameError)
    );
}

#[test]
fn an_established_connection_is_set_up_and_torn_down() {
    let resources = resources(1);
    let profile = profile(resources);
    let mut endpoint = ConfiguredEndpoint::new(WireSide::Client, resources);
    let permit = endpoint.try_acquire_connection_slot().unwrap();
    let mut bootstrap = BootstrapState::begin(profile, false).unwrap();
    bootstrap.mark_local_settings_sent().unwrap();
    let peer = Settings {
        semantic_role: SemanticRole::NonAuthority,
        ..profile.local_settings()
    };
    bootstrap.receive_settings(peer).unwrap();
    let connection = ConnectionHandle::new(5);
    let exchange = NegotiationExchange::from_profile(connection, profile.local_settings(), peer);
    let parts = ProfileReadyParts::new(WireSide::Client, profile, bootstrap);
    let established =
        EstablishedNegotiatedConnection::from_parts(connection, parts, permit, exchange);
    let controlled = established.into_flow_control().unwrap();
    assert_eq!(controlled.flow_control.connection(), connection);
    let call = controlled.into_established_io().teardown();
    assert_eq!(call.connection, connection);
    assert!(!call.release);
    endpoint.release_connection_slot(call.connection_permit);
    assert_eq!(endpoint.connections(), 0);

    let quiet = finish_teardown(
        connection,
        false,
        vec![],
        Err(NegotiationManagerError::UnknownConnection),
    );
    assert!(quiet.negotiation_cleanup_error.is_none());
    let loud = finish_teardown(
        connection,
        true,
        vec![],
        Err(NegotiationManagerError::UnknownConnection),
    );
    assert_eq!(
        loud.negotiation_cleanup_error,
        Some(NegotiationControlError::ManagerState(NegotiationManagerError::UnknownConnection))
    );
}
