//! What an application configures and sees.

use std::time::Duration;

use rcgen::{generate_simple_self_signed, CertifiedKey};
use runen_net_quic::control::{
    ConnectionFailure, ControlFrameError, ProfileBootstrapError, SemanticRole as WireRole,
    SettingsError,
};
use runen_net_quic::endpoint::{
    ConnectionAdmissionError, EndpointBuildError, EndpointResourceError as ResourceError,
};
use runen_net_quic::lifecycle::{
    CloseOrder, CloseReason, ConnectFailure, ProfileConnectionError as ConnectionError,
    ProfilePreflightError,
};
use runen_net_quic::wire::ApplicationErrorCode;
use runen_net_quic::{
    ClientEndpoint, ClientTrust, EndpointBindError, EndpointConfig, EndpointResourceError,
    EndpointResourceLimits, NonZeroSize, ProfileBootstrapFailure, ProfileConfig, ProfileConfigError,
    ProfileConnectionError, ProfileConnectionErrorKind, ProfileLimits, ReliableReceiveLimits,
    SemanticRole, ServerEndpoint, ServerIdentity, TlsMaterialError,
};
use rustls_pki_types::{CertificateDer, PrivateKeyDer, PrivatePkcs8KeyDer};

fn self_signed() -> (CertificateDer<'static>, PrivateKeyDer<'static>) {
    let CertifiedKey { cert, signing_key } =
        generate_simple_self_signed(vec!["localhost".to_owned()]).unwrap();
    (
        cert.der().clone(),
        PrivatePkcs8KeyDer::from(signing_key.serialize_der()).into(),
    )
}

#[test]
fn the_baseline_endpoint_is_finite_and_shows_its_limits() {
    let config = EndpointConfig::baseline(4, 16).unwrap();
    assert_eq!(
        config.limits(),
        EndpointResourceLimits {
            max_connections: 4,
            max_active_incoming_flows: 16,
            udp_payload_ceiling: 1_452,
            stream_receive_window: 64 * 1024,
            connection_receive_window: 256 * 1024,
            send_window: 256 * 1024,
            crypto_buffer_bytes: 32 * 1024,
            datagram_receive_buffer_bytes: 64 * 1024,
            datagram_send_buffer_bytes: 64 * 1024,
            max_idle_timeout: Duration::from_secs(30),
        }
    );
    assert_eq!(config.resources().max_connections(), 4);
    assert_eq!(EndpointConfig::baseline(0, 16), Err(EndpointResourceError::ZeroConnections));
    assert_eq!(EndpointConfig::baseline(4, 0), Err(EndpointResourceError::ZeroIncomingFlows));
    assert_eq!(
        EndpointConfig::baseline(4, 1 << 62),
        Err(EndpointResourceError::IncomingFlowsExceedQuicStreamLimit)
    );
}

#[test]
fn every_resource_error_is_shown_under_its_name() {
    for (inner, shown) in [
        (ResourceError::ZeroConnections, EndpointResourceError::ZeroConnections),
        (ResourceError::UdpPayloadBelowMinimum, EndpointResourceError::UdpPayloadBelowMinimum),
        (ResourceError::UdpPayloadAboveMaximum, EndpointResourceError::UdpPayloadAboveMaximum),
        (ResourceError::ZeroSendWindow, EndpointResourceError::ZeroSendWindow),
        (ResourceError::ZeroCryptoBuffer, EndpointResourceError::ZeroCryptoBuffer),
        (ResourceError::ZeroIdleTimeout, EndpointResourceError::ZeroIdleTimeout),
        (ResourceError::IdleTimeoutOutOfRange, EndpointResourceError::IdleTimeoutOutOfRange),
        (
            ResourceError::ConnectionReceiveWindowBelowStream,
            EndpointResourceError::ConnectionReceiveWindowBelowStream,
        ),
    ] {
        assert_eq!(EndpointResourceError::from(inner), shown);
    }
}

#[test]
fn the_baseline_profile_can_reassemble_what_it_announces() {
    let endpoint = EndpointConfig::baseline(4, 16).unwrap();
    let profile = ProfileConfig::baseline(endpoint, SemanticRole::Authority, 128 * 1024).unwrap();
    let limits = profile.limits();
    assert_eq!(limits.reliable_receive.max_staging_bytes.get(), 128 * 1024);
    assert_eq!(limits.reliable_receive.scratch_bytes.get(), 4 * 1024);
    assert_eq!(limits.max_control_frame_bytes, 64 * 1024);
    assert_eq!(limits.max_negotiation_frame_bytes, 32 * 1024);
    assert_eq!(profile.reliable_receive_limits(), limits.reliable_receive);
    let settings = profile.profile().local_settings();
    assert_eq!(settings.semantic_role, WireRole::Authority);
    assert_eq!(settings.max_active_incoming_flows, 16);
    assert_eq!(
        ProfileConfig::baseline(endpoint, SemanticRole::NonAuthority, 0),
        Err(ProfileConfigError::ZeroIncomingMessageBytes)
    );
    assert_eq!(
        ProfileConfig::baseline(endpoint, SemanticRole::NonAuthority, 1 << 62),
        Err(ProfileConfigError::IncomingMessageBytesOutOfRange)
    );
}

#[test]
fn receiving_needs_some_bytes() {
    assert_eq!(NonZeroSize::new(0), None);
    assert_eq!(NonZeroSize::new(7).unwrap().get(), 7);
}

#[test]
fn a_profile_is_refused_for_its_frames_and_its_staging() {
    let endpoint = EndpointConfig::baseline(4, 16).unwrap();
    let good = ProfileLimits {
        semantic_role: SemanticRole::NonAuthority,
        max_control_frame_bytes: 1_000,
        max_negotiation_frame_bytes: 500,
        max_incoming_message_bytes: 64,
        reliable_receive: ReliableReceiveLimits {
            scratch_bytes: NonZeroSize::new(1).unwrap(),
            max_staging_bytes: NonZeroSize::new(64).unwrap(),
        },
    };
    assert!(good.validate(endpoint).is_ok());
    for (limits, error) in [
        (
            ProfileLimits { max_control_frame_bytes: 32, ..good },
            ProfileConfigError::ControlFrameTooSmall,
        ),
        (
            ProfileLimits { max_negotiation_frame_bytes: 34, ..good },
            ProfileConfigError::NegotiationFrameTooSmall,
        ),
        (
            ProfileLimits { max_negotiation_frame_bytes: 1_001, ..good },
            ProfileConfigError::NegotiationExceedsControl,
        ),
        (
            ProfileLimits { max_control_frame_bytes: 1 << 62, ..good },
            ProfileConfigError::ControlFrameOutOfRange,
        ),
        (
            ProfileLimits { max_incoming_message_bytes: 65, ..good },
            ProfileConfigError::ReliableStagingBelowIncomingMessageCeiling,
        ),
    ] {
        assert_eq!(limits.validate(endpoint), Err(error));
    }
}

#[test]
fn tls_material_has_to_be_there() {
    assert_eq!(ClientTrust::new(vec![]), Err(TlsMaterialError::EmptyClientTrust));
    let key = || PrivateKeyDer::from(PrivatePkcs8KeyDer::from(vec![0u8]));
    assert!(matches!(
        ServerIdentity::new(vec![], key()),
        Err(TlsMaterialError::EmptyServerCertificateChain)
    ));
    let certificate = CertificateDer::from(vec![1u8, 2, 3]);
    let identity = ServerIdentity::new(vec![certificate.clone()], key()).unwrap();
    let (chain, private_key) = identity.into_parts();
    assert_eq!(chain, vec![certificate]);
    assert_eq!(private_key, key());
}

#[test]
fn a_certificate_without_an_anchor_refuses_the_trust() {
    let (certificate, _) = self_signed();
    let trust =
        ClientTrust::new(vec![certificate.clone(), CertificateDer::from(vec![0u8])]).unwrap();
    assert!(matches!(
        trust.clone().into_root_store(),
        Err(EndpointBindError::TrustCertificateRejected)
    ));
    let config = EndpointConfig::baseline(1, 16).unwrap();
    assert!(matches!(
        ClientEndpoint::bind(config, trust),
        Err(EndpointBindError::TrustCertificateRejected)
    ));

    let (second, _) = self_signed();
    let trust = ClientTrust::new(vec![certificate, second]).unwrap();
    assert_eq!(trust.clone(), trust);
    assert_eq!(trust.into_root_store().unwrap().len(), 2);
}

#[test]
fn endpoints_are_bound_with_the_profile() {
    let config = EndpointConfig::baseline(1, 16).unwrap();
    let (certificate, private_key) = self_signed();
    let trust = ClientTrust::new(vec![certificate.clone()]).unwrap();
    let (_, binding) = ClientEndpoint::bind(config, trust).unwrap();
    assert_eq!(binding.endpoint_config.get_max_udp_payload_size(), 1_452);
    assert!(format!("{:?}", binding.client_config).contains("max_concurrent_bidi_streams: 0,"));

    let identity = ServerIdentity::new(vec![certificate.clone()], private_key).unwrap();
    let (_, binding) = ServerEndpoint::bind(config, identity).unwrap();
    assert_eq!(binding.endpoint_config.get_max_udp_payload_size(), 1_452);
    assert!(format!("{:?}", binding.server_config).contains("max_concurrent_bidi_streams: 1,"));

    let (_, foreign_key) = self_signed();
    let identity = ServerIdentity::new(vec![certificate], foreign_key).unwrap();
    assert!(matches!(
        ServerEndpoint::bind(config, identity),
        Err(EndpointBindError::TlsConfigurationRejected)
    ));
}

#[test]
fn build_errors_are_shown_by_what_was_refused() {
    assert!(matches!(
        EndpointBindError::from(EndpointBuildError::EmptyTrustRoots),
        EndpointBindError::TrustCertificateRejected
    ));
    assert!(matches!(
        EndpointBindError::from(EndpointBuildError::EmptyCertificateChain),
        EndpointBindError::TlsConfigurationRejected
    ));
    assert!(matches!(
        EndpointBindError::from(EndpointBuildError::EndpointConfigRejected),
        EndpointBindError::TransportConfigurationRejected
    ));
    let io = std::io::Error::new(std::io::ErrorKind::AddrInUse, "taken");
    assert!(matches!(
        EndpointBindError::from(EndpointBuildError::Io(io)),
        EndpointBindError::Io(error) if error.kind() == std::io::ErrorKind::AddrInUse
    ));
}

#[test]
fn connection_errors_have_a_kind_and_a_diagnostic() {
    let full = ProfileConnectionError::from(ConnectionError::Admission(
        ConnectionAdmissionError::AtCapacity,
    ));
    assert_eq!(full.kind(), ProfileConnectionErrorKind::AdmissionAtCapacity);
    assert!(full.diagnostic().is_none());
    for (error, kind) in [
        (
            ConnectionError::Preflight(ProfilePreflightError::ResourceAuthorityMismatch),
            ProfileConnectionErrorKind::ConfigurationMismatch,
        ),
        (
            ConnectionError::Connect(ConnectFailure::EndpointStopping),
            ProfileConnectionErrorKind::ConnectSetup,
        ),
        (
            ConnectionError::Handshake(ConnectionFailure::TimedOut),
            ProfileConnectionErrorKind::Handshake,
        ),
        (
            ConnectionError::Bootstrap(ProfileBootstrapError::WrongAlpn),
            ProfileConnectionErrorKind::Bootstrap(ProfileBootstrapFailure::Alpn),
        ),
    ] {
        let shown = ProfileConnectionError::from(error);
        assert_eq!(shown.kind(), kind);
        assert!(shown.diagnostic().is_some());
    }
}

#[test]
fn bootstrap_errors_have_a_kind() {
    for (error, kind) in [
        (
            ProfileBootstrapError::Connection(ConnectionFailure::Reset),
            ProfileBootstrapFailure::Transport,
        ),
        (
            ProfileBootstrapError::MissingHandshakeData,
            ProfileBootstrapFailure::HandshakeMetadata,
        ),
        (
            ProfileBootstrapError::DatagramUnsupported,
            ProfileBootstrapFailure::DatagramUnsupported,
        ),
        (
            ProfileBootstrapError::Frame(ControlFrameError::EndOfStream),
            ProfileBootstrapFailure::Control,
        ),
        (
            ProfileBootstrapError::Settings(SettingsError::EmptyBody),
            ProfileBootstrapFailure::Settings,
        ),
        (
            ProfileBootstrapError::PeerRoleMismatch {
                expected: WireRole::Authority,
                received: WireRole::NonAuthority,
            },
            ProfileBootstrapFailure::RoleMismatch,
        ),
        (
            ProfileBootstrapError::DuplicateSettings,
            ProfileBootstrapFailure::ProtocolState,
        ),
    ] {
        assert_eq!(ProfileBootstrapFailure::from(&error), kind);
    }
}

#[test]
fn endpoints_hold_as_many_connections_as_they_may() {
    let config = EndpointConfig::baseline(1, 16).unwrap();
    let profile = ProfileConfig::baseline(config, SemanticRole::Authority, 64).unwrap();
    let other = EndpointConfig::baseline(2, 16).unwrap();
    let foreign = ProfileConfig::baseline(other, SemanticRole::Authority, 64).unwrap();
    let (certificate, private_key) = self_signed();
    let trust = ClientTrust::new(vec![certificate.clone()]).unwrap();
    let (mut client, _) = ClientEndpoint::bind(config, trust).unwrap();
    assert_eq!(
        client.acquire(foreign).unwrap_err().kind(),
        ProfileConnectionErrorKind::ConfigurationMismatch
    );
    let permit = client.acquire(profile).unwrap();
    assert_eq!(
        client.acquire(profile).unwrap_err().kind(),
        ProfileConnectionErrorKind::AdmissionAtCapacity
    );
    client.release(permit);
    assert!(client.acquire(profile).is_ok());

    let identity = ServerIdentity::new(vec![certificate], private_key).unwrap();
    let (mut server, _) = ServerEndpoint::bind(config, identity).unwrap();
    assert_eq!(server.preflight(profile), Ok(()));
    assert!(server.preflight(foreign).is_err());
    let permit = server.acquire(profile).unwrap();
    assert!(server.acquire(profile).is_err());
    server.release(permit);
    assert!(server.acquire(profile).is_ok());
}

#[test]
fn endpoints_are_closed_without_an_error() {
    let order = CloseOrder {
        code: ApplicationErrorCode::NoError,
        reason: CloseReason::EndpointShutdown,
    };
    let config = EndpointConfig::baseline(1, 16).unwrap();
    let (certificate, private_key) = self_signed();
    let trust = ClientTrust::new(vec![certificate.clone()]).unwrap();
    assert_eq!(ClientEndpoint::bind(config, trust).unwrap().0.close(), order);
    let identity = ServerIdentity::new(vec![certificate], private_key).unwrap();
    assert_eq!(ServerEndpoint::bind(config, identity).unwrap().0.close(), order);
    assert_eq!(order.reason.text(), "RunenNet endpoint shutdown");
}
