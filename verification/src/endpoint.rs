//! Endpoint resources: what they may be, what the QUIC stack is configured with, and how
//! many connections an endpoint holds at once.

use std::sync::Arc;
use std::time::Duration;

use quinn::crypto::rustls::{NoInitialCipherSuite, QuicClientConfig, QuicServerConfig};
use quinn::rustls::{self, RootCertStore};
use quinn::EndpointConfig as QuicEndpointConfig;
use rustls_pki_types::{CertificateDer, PrivateKeyDer};
use vstd::prelude::*;

use crate::varint::MAX_VARINT;
use crate::wire::WireSide;

verus! {

/// The QUIC version that every endpoint speaks.
pub const QUIC_V1: u32 = 0x0000_0001;

/// The smallest UDP payload that QUIC works with.
pub const QUIC_MIN_UDP_PAYLOAD: u16 = 1_200;

/// The largest UDP payload that an endpoint can be given.
pub const QUIC_MAX_UDP_PAYLOAD: u16 = 65_527;

/// The error of `quinn` for a number that no variable-length integer carries.
#[verifier::external_type_specification]
#[verifier::external_body]
pub struct ExVarIntBoundsExceeded(quinn::VarIntBoundsExceeded);

/// The error of `rustls` for TLS material that it does not take.
#[verifier::external_type_specification]
#[verifier::external_body]
pub struct ExTlsError(quinn::rustls::Error);

/// The error of `quinn` for a TLS configuration without an initial cipher suite.
#[verifier::external_type_specification]
#[verifier::external_body]
pub struct ExNoInitialCipherSuite(quinn::crypto::rustls::NoInitialCipherSuite);

/// The error of `quinn` for an endpoint configuration that it does not take.
#[verifier::external_type_specification]
#[verifier::external_body]
pub struct ExConfigError(quinn::ConfigError);

/// The transport configuration of `quinn`.
#[verifier::external_type_specification]
#[verifier::external_body]
pub struct ExTransportConfig(quinn::TransportConfig);

/// The endpoint configuration of `quinn`.
#[verifier::external_type_specification]
#[verifier::external_body]
pub struct ExEndpointConfig(QuicEndpointConfig);

/// The configuration of a client's connections of `quinn`.
#[verifier::external_type_specification]
#[verifier::external_body]
pub struct ExClientConfig(quinn::ClientConfig);

/// The configuration of a server's connections of `quinn`.
#[verifier::external_type_specification]
#[verifier::external_body]
pub struct ExServerConfig(quinn::ServerConfig);

/// The TLS configuration of a client of `rustls`.
#[verifier::external_type_specification]
#[verifier::external_body]
pub struct ExClientTls(quinn::rustls::ClientConfig);

/// The TLS configuration of a server of `rustls`.
#[verifier::external_type_specification]
#[verifier::external_body]
pub struct ExServerTls(quinn::rustls::ServerConfig);

/// A DER certificate of `rustls-pki-types`.
#[verifier::external_type_specification]
#[verifier::external_body]
pub struct ExCertificateDer<'a>(CertificateDer<'a>);

/// A DER private key of `rustls-pki-types`.
#[verifier::external_type_specification]
#[verifier::external_body]
pub struct ExPrivateKeyDer<'a>(PrivateKeyDer<'a>);

/// The trust anchors of a TLS client, as `rustls` keeps them.
#[verifier::external_type_specification]
#[verifier::external_body]
pub struct ExRootCertStore(RootCertStore);

/// An I/O error of the standard library.
#[verifier::external_type_specification]
#[verifier::external_body]
pub struct ExIoError(std::io::Error);

/// The length of a duration in nanoseconds, as `Duration::as_nanos` tells it.
pub uninterp spec fn duration_nanos(duration: Duration) -> u128;

/// `Duration::as_nanos` of the standard library: a duration has one length.
pub assume_specification[ Duration::as_nanos ](duration: &Duration) -> (nanos: u128)
    ensures
        nanos == duration_nanos(*duration),
;

/// The whole milliseconds of a duration.
pub open spec fn duration_millis(duration: Duration) -> u128 {
    duration_nanos(duration) / 1_000_000
}

/// Calls `quinn::VarInt::from_u64`, which takes exactly the numbers below 2^62 and keeps
/// them as they are.
#[verifier::external_body]
fn quic_integer(value: u64) -> (taken: Result<u64, quinn::VarIntBoundsExceeded>)
    ensures
        value <= MAX_VARINT ==> taken is Ok && taken->Ok_0 == value,
        value > MAX_VARINT ==> taken is Err,
{
    quinn::VarInt::from_u64(value).map(quinn::VarInt::into_inner)
}

/// Calls `quinn::IdleTimeout::try_from`, which takes exactly the durations whose whole
/// milliseconds are below 2^62.
#[verifier::external_body]
fn check_idle_timeout(timeout: Duration) -> (taken: Result<(), quinn::VarIntBoundsExceeded>)
    ensures
        taken is Ok <==> duration_millis(timeout) <= MAX_VARINT,
{
    quinn::IdleTimeout::try_from(timeout).map(|_| ())
}

/// What one endpoint may use, as the host asks for it.
#[derive(Debug, Clone, Copy, PartialEq, Eq)]
pub struct EndpointResourceLimits {
    pub max_connections: usize,
    pub max_active_incoming_flows: u64,
    pub udp_payload_ceiling: u16,
    pub stream_receive_window: u64,
    pub connection_receive_window: u64,
    pub send_window: u64,
    pub crypto_buffer_bytes: usize,
    pub datagram_receive_buffer_bytes: usize,
    pub datagram_send_buffer_bytes: usize,
    pub max_idle_timeout: Duration,
}

/// Why resources are refused.
#[derive(Debug, Clone, Copy, PartialEq, Eq, Structural)]
pub enum EndpointResourceError {
    ZeroConnections,
    ZeroIncomingFlows,
    IncomingFlowsOutOfRange,
    UdpPayloadBelowMinimum,
    UdpPayloadAboveMaximum,
    ZeroStreamReceiveWindow,
    StreamReceiveWindowOutOfRange,
    ZeroConnectionReceiveWindow,
    ConnectionReceiveWindowOutOfRange,
    ConnectionReceiveWindowBelowStream,
    ZeroSendWindow,
    ZeroCryptoBuffer,
    ZeroDatagramReceiveBuffer,
    DatagramReceiveBufferBelowUdpCeiling,
    ZeroDatagramSendBuffer,
    DatagramSendBufferBelowUdpCeiling,
    ZeroIdleTimeout,
    IdleTimeoutOutOfRange,
}

/// Resources that passed validation.
#[derive(Debug, Clone, Copy, PartialEq, Eq, Structural)]
pub struct ValidatedEndpointResources {
    pub(crate) max_connections: usize,
    pub(crate) max_active_incoming_flows: u64,
    pub(crate) udp_payload_ceiling: u16,
    pub(crate) stream_receive_window: u64,
    pub(crate) connection_receive_window: u64,
    pub(crate) send_window: u64,
    pub(crate) crypto_buffer_bytes: usize,
    pub(crate) datagram_receive_buffer_bytes: usize,
    pub(crate) datagram_send_buffer_bytes: usize,
    pub(crate) max_idle_timeout_millis: u64,
}

/// A receive window that QUIC can announce.
pub open spec fn window_error(
    window: u64,
    zero: EndpointResourceError,
    out_of_range: EndpointResourceError,
) -> Option<EndpointResourceError> {
    if window == 0 {
        Some(zero)
    } else if window > MAX_VARINT {
        Some(out_of_range)
    } else {
        None
    }
}

/// A datagram buffer has to hold one datagram of the largest size.
pub open spec fn buffer_error(
    bytes: usize,
    ceiling: u16,
    zero: EndpointResourceError,
    below: EndpointResourceError,
) -> Option<EndpointResourceError> {
    if bytes == 0 {
        Some(zero)
    } else if bytes < ceiling {
        Some(below)
    } else {
        None
    }
}

/// The first of two errors.
pub open spec fn first_error<E>(first: Option<E>, second: Option<E>) -> Option<E> {
    if first is Some {
        first
    } else {
        second
    }
}

impl EndpointResourceLimits {
    /// What stands against the capacities and the UDP ceiling.
    pub open spec fn capacity_error(self) -> Option<EndpointResourceError> {
        if self.max_connections == 0 {
            Some(EndpointResourceError::ZeroConnections)
        } else if self.max_active_incoming_flows == 0 {
            Some(EndpointResourceError::ZeroIncomingFlows)
        } else if self.max_active_incoming_flows > MAX_VARINT {
            Some(EndpointResourceError::IncomingFlowsOutOfRange)
        } else if self.udp_payload_ceiling < QUIC_MIN_UDP_PAYLOAD {
            Some(EndpointResourceError::UdpPayloadBelowMinimum)
        } else if self.udp_payload_ceiling > QUIC_MAX_UDP_PAYLOAD {
            Some(EndpointResourceError::UdpPayloadAboveMaximum)
        } else {
            None
        }
    }

    /// What stands against the windows. That the connection window is below the stream
    /// window comes before that it is out of range.
    pub open spec fn windows_error(self) -> Option<EndpointResourceError> {
        let stream = window_error(
            self.stream_receive_window,
            EndpointResourceError::ZeroStreamReceiveWindow,
            EndpointResourceError::StreamReceiveWindowOutOfRange,
        );
        if stream is Some {
            stream
        } else if self.connection_receive_window == 0 {
            Some(EndpointResourceError::ZeroConnectionReceiveWindow)
        } else if self.connection_receive_window < self.stream_receive_window {
            Some(EndpointResourceError::ConnectionReceiveWindowBelowStream)
        } else if self.connection_receive_window > MAX_VARINT {
            Some(EndpointResourceError::ConnectionReceiveWindowOutOfRange)
        } else if self.send_window == 0 {
            Some(EndpointResourceError::ZeroSendWindow)
        } else {
            None
        }
    }

    /// What stands against the buffers.
    pub open spec fn buffers_error(self) -> Option<EndpointResourceError> {
        if self.crypto_buffer_bytes == 0 {
            Some(EndpointResourceError::ZeroCryptoBuffer)
        } else {
            first_error(
                buffer_error(
                    self.datagram_receive_buffer_bytes,
                    self.udp_payload_ceiling,
                    EndpointResourceError::ZeroDatagramReceiveBuffer,
                    EndpointResourceError::DatagramReceiveBufferBelowUdpCeiling,
                ),
                buffer_error(
                    self.datagram_send_buffer_bytes,
                    self.udp_payload_ceiling,
                    EndpointResourceError::ZeroDatagramSendBuffer,
                    EndpointResourceError::DatagramSendBufferBelowUdpCeiling,
                ),
            )
        }
    }

    /// What stands against the idle timeout.
    pub open spec fn timeout_error(self) -> Option<EndpointResourceError> {
        if duration_nanos(self.max_idle_timeout) == 0 {
            Some(EndpointResourceError::ZeroIdleTimeout)
        } else if duration_millis(self.max_idle_timeout) > MAX_VARINT {
            Some(EndpointResourceError::IdleTimeoutOutOfRange)
        } else {
            None
        }
    }

    /// The error that is reported: the first in the order of the fields.
    pub open spec fn error(self) -> Option<EndpointResourceError> {
        first_error(
            self.capacity_error(),
            first_error(
                self.windows_error(),
                first_error(self.buffers_error(), self.timeout_error()),
            ),
        )
    }

    /// The resources that these limits stand for.
    pub open(crate) spec fn validated(self) -> ValidatedEndpointResources {
        ValidatedEndpointResources {
            max_connections: self.max_connections,
            max_active_incoming_flows: self.max_active_incoming_flows,
            udp_payload_ceiling: self.udp_payload_ceiling,
            stream_receive_window: self.stream_receive_window,
            connection_receive_window: self.connection_receive_window,
            send_window: self.send_window,
            crypto_buffer_bytes: self.crypto_buffer_bytes,
            datagram_receive_buffer_bytes: self.datagram_receive_buffer_bytes,
            datagram_send_buffer_bytes: self.datagram_send_buffer_bytes,
            max_idle_timeout_millis: duration_millis(self.max_idle_timeout) as u64,
        }
    }

    /// Checks that all resources are finite, usable and consistent with each other.
    pub fn validate(self) -> (resources: Result<ValidatedEndpointResources, EndpointResourceError>)
        ensures
            match self.error() {
                Some(error) => resources == Err::<ValidatedEndpointResources, _>(error),
                None => resources == Ok::<_, EndpointResourceError>(self.validated()),
            },
            resources matches Ok(resources) ==> resources.wf(),
    {
        if self.max_connections == 0 {
            return Err(EndpointResourceError::ZeroConnections);
        }
        if self.max_active_incoming_flows == 0 {
            return Err(EndpointResourceError::ZeroIncomingFlows);
        }
        let max_active_incoming_flows: u64 = match quic_integer(self.max_active_incoming_flows) {
            Ok(value) => value,
            Err(_) => return Err(EndpointResourceError::IncomingFlowsOutOfRange),
        };
        if self.udp_payload_ceiling < QUIC_MIN_UDP_PAYLOAD {
            return Err(EndpointResourceError::UdpPayloadBelowMinimum);
        }
        if self.udp_payload_ceiling > QUIC_MAX_UDP_PAYLOAD {
            return Err(EndpointResourceError::UdpPayloadAboveMaximum);
        }
        if self.stream_receive_window == 0 {
            return Err(EndpointResourceError::ZeroStreamReceiveWindow);
        }
        let stream_receive_window: u64 = match quic_integer(self.stream_receive_window) {
            Ok(value) => value,
            Err(_) => return Err(EndpointResourceError::StreamReceiveWindowOutOfRange),
        };
        if self.connection_receive_window == 0 {
            return Err(EndpointResourceError::ZeroConnectionReceiveWindow);
        }
        if self.connection_receive_window < self.stream_receive_window {
            return Err(EndpointResourceError::ConnectionReceiveWindowBelowStream);
        }
        let connection_receive_window: u64 = match quic_integer(self.connection_receive_window) {
            Ok(value) => value,
            Err(_) => return Err(EndpointResourceError::ConnectionReceiveWindowOutOfRange),
        };
        if self.send_window == 0 {
            return Err(EndpointResourceError::ZeroSendWindow);
        }
        if self.crypto_buffer_bytes == 0 {
            return Err(EndpointResourceError::ZeroCryptoBuffer);
        }
        let ceiling: usize = self.udp_payload_ceiling as usize;
        if self.datagram_receive_buffer_bytes == 0 {
            return Err(EndpointResourceError::ZeroDatagramReceiveBuffer);
        }
        if self.datagram_receive_buffer_bytes < ceiling {
            return Err(EndpointResourceError::DatagramReceiveBufferBelowUdpCeiling);
        }
        if self.datagram_send_buffer_bytes == 0 {
            return Err(EndpointResourceError::ZeroDatagramSendBuffer);
        }
        if self.datagram_send_buffer_bytes < ceiling {
            return Err(EndpointResourceError::DatagramSendBufferBelowUdpCeiling);
        }
        let nanos: u128 = self.max_idle_timeout.as_nanos();
        if nanos == 0 {
            return Err(EndpointResourceError::ZeroIdleTimeout);
        }
        if check_idle_timeout(self.max_idle_timeout).is_err() {
            return Err(EndpointResourceError::IdleTimeoutOutOfRange);
        }
        Ok(
            ValidatedEndpointResources {
                max_connections: self.max_connections,
                max_active_incoming_flows,
                udp_payload_ceiling: self.udp_payload_ceiling,
                stream_receive_window,
                connection_receive_window,
                send_window: self.send_window,
                crypto_buffer_bytes: self.crypto_buffer_bytes,
                datagram_receive_buffer_bytes: self.datagram_receive_buffer_bytes,
                datagram_send_buffer_bytes: self.datagram_send_buffer_bytes,
                max_idle_timeout_millis: (nanos / 1_000_000) as u64,
            },
        )
    }
}

impl ValidatedEndpointResources {
    #[verifier::type_invariant]
    pub open(crate) spec fn wf(self) -> bool {
        &&& self.max_connections > 0
        &&& 0 < self.max_active_incoming_flows <= MAX_VARINT
        &&& QUIC_MIN_UDP_PAYLOAD <= self.udp_payload_ceiling <= QUIC_MAX_UDP_PAYLOAD
        &&& 0 < self.stream_receive_window <= self.connection_receive_window <= MAX_VARINT
        &&& self.send_window > 0
        &&& self.crypto_buffer_bytes > 0
        &&& self.datagram_receive_buffer_bytes >= self.udp_payload_ceiling
        &&& self.datagram_send_buffer_bytes >= self.udp_payload_ceiling
        &&& self.max_idle_timeout_millis <= MAX_VARINT
    }

    pub open(crate) spec fn spec_max_connections(self) -> usize {
        self.max_connections
    }

    pub open(crate) spec fn spec_max_active_incoming_flows(self) -> u64 {
        self.max_active_incoming_flows
    }

    pub open(crate) spec fn spec_udp_payload_ceiling(self) -> u16 {
        self.udp_payload_ceiling
    }

    pub fn max_connections(self) -> (connections: usize)
        ensures
            connections == self.spec_max_connections(),
            connections > 0,
    {
        proof {
            use_type_invariant(&self);
        }
        self.max_connections
    }

    pub fn max_active_incoming_flows(self) -> (flows: u64)
        ensures
            flows == self.spec_max_active_incoming_flows(),
            0 < flows <= MAX_VARINT,
    {
        proof {
            use_type_invariant(&self);
        }
        self.max_active_incoming_flows
    }

    pub fn udp_payload_ceiling(self) -> (ceiling: u16)
        ensures
            ceiling == self.spec_udp_payload_ceiling(),
            QUIC_MIN_UDP_PAYLOAD <= ceiling <= QUIC_MAX_UDP_PAYLOAD,
    {
        proof {
            use_type_invariant(&self);
        }
        self.udp_payload_ceiling
    }
}

/// Validation refuses exactly the limits that some rule refuses, and each limit that
/// passed is in force as it was given.
pub proof fn law_validation_complete(limits: EndpointResourceLimits)
    ensures
        limits.error() is None <==> {
            &&& limits.capacity_error() is None
            &&& limits.windows_error() is None
            &&& limits.buffers_error() is None
            &&& limits.timeout_error() is None
        },
        limits.error() is None ==> limits.validated().wf(),
{
}

/// How the transport of one side is configured.
#[derive(Debug, Clone, Copy, PartialEq, Eq, Structural)]
pub struct TransportPlan {
    pub max_concurrent_bidi_streams: u64,
    pub max_concurrent_uni_streams: u64,
    pub stream_receive_window: u64,
    pub receive_window: u64,
    pub send_window: u64,
    pub crypto_buffer_size: usize,
    pub datagram_receive_buffer_size: usize,
    pub datagram_send_buffer_size: usize,
    pub max_idle_timeout_millis: u64,
    pub min_mtu: u16,
    pub initial_mtu: u16,
    pub mtu_upper_bound: u16,
}

impl TransportPlan {
    /// What the QUIC stack takes as it is given.
    pub open spec fn wf(self) -> bool {
        &&& self.max_concurrent_bidi_streams <= MAX_VARINT
        &&& self.max_concurrent_uni_streams <= MAX_VARINT
        &&& self.stream_receive_window <= MAX_VARINT
        &&& self.receive_window <= MAX_VARINT
        &&& self.max_idle_timeout_millis <= MAX_VARINT
        &&& QUIC_MIN_UDP_PAYLOAD <= self.min_mtu <= self.initial_mtu <= self.mtu_upper_bound
        &&& self.mtu_upper_bound <= QUIC_MAX_UDP_PAYLOAD
    }
}

/// The settings that a transport configuration holds.
pub uninterp spec fn transport_settings(config: quinn::TransportConfig) -> TransportPlan;

/// Makes a `quinn::TransportConfig` and sets, with one setter each, what the plan names.
/// Each setter keeps its value; those for the sizes of UDP payloads bring a value below
/// 1200 or above 65527 into that range, which the plan never needs. All else stays as
/// `TransportConfig::default` has it.
#[verifier::external_body]
fn transport_config(plan: TransportPlan) -> (config: quinn::TransportConfig)
    requires
        plan.wf(),
    ensures
        transport_settings(config) == plan,
{
    let integer = |value: u64| quinn::VarInt::from_u64(value).expect("in range");
    let mut mtu_discovery = quinn::MtuDiscoveryConfig::default();
    mtu_discovery.upper_bound(plan.mtu_upper_bound);
    let mut config = quinn::TransportConfig::default();
    config.max_concurrent_bidi_streams(integer(plan.max_concurrent_bidi_streams));
    config.max_concurrent_uni_streams(integer(plan.max_concurrent_uni_streams));
    config.stream_receive_window(integer(plan.stream_receive_window));
    config.receive_window(integer(plan.receive_window)).send_window(plan.send_window);
    config.crypto_buffer_size(plan.crypto_buffer_size);
    config.datagram_receive_buffer_size(Some(plan.datagram_receive_buffer_size));
    config.datagram_send_buffer_size(plan.datagram_send_buffer_size);
    config.max_idle_timeout(Some(integer(plan.max_idle_timeout_millis).into()));
    config.min_mtu(plan.min_mtu).initial_mtu(plan.initial_mtu);
    config.mtu_discovery_config(Some(mtu_discovery));
    config
}

/// The bidirectional streams that the peer may open: the control stream is the client's,
/// so a server takes one and a client none.
pub open spec fn incoming_bidi_streams(side: WireSide) -> u64 {
    match side {
        WireSide::Client => 0,
        WireSide::Server => 1,
    }
}

pub fn incoming_bidi_limit(side: WireSide) -> (streams: u64)
    ensures
        streams == incoming_bidi_streams(side),
{
    match side {
        WireSide::Client => 0,
        WireSide::Server => 1,
    }
}

/// What the transport of one side is configured with.
pub open(crate) spec fn transport_plan(
    side: WireSide,
    resources: ValidatedEndpointResources,
) -> TransportPlan {
    TransportPlan {
        max_concurrent_bidi_streams: incoming_bidi_streams(side),
        max_concurrent_uni_streams: resources.max_active_incoming_flows,
        stream_receive_window: resources.stream_receive_window,
        receive_window: resources.connection_receive_window,
        send_window: resources.send_window,
        crypto_buffer_size: resources.crypto_buffer_bytes,
        datagram_receive_buffer_size: resources.datagram_receive_buffer_bytes,
        datagram_send_buffer_size: resources.datagram_send_buffer_bytes,
        max_idle_timeout_millis: resources.max_idle_timeout_millis,
        min_mtu: QUIC_MIN_UDP_PAYLOAD,
        initial_mtu: QUIC_MIN_UDP_PAYLOAD,
        mtu_upper_bound: resources.udp_payload_ceiling,
    }
}

/// The plan that the transport of one side is configured with.
pub fn plan_transport(side: WireSide, resources: ValidatedEndpointResources) -> (plan:
    TransportPlan)
    ensures
        plan == transport_plan(side, resources),
        plan.wf(),
{
    proof {
        use_type_invariant(&resources);
    }
    TransportPlan {
        max_concurrent_bidi_streams: incoming_bidi_limit(side),
        max_concurrent_uni_streams: resources.max_active_incoming_flows,
        stream_receive_window: resources.stream_receive_window,
        receive_window: resources.connection_receive_window,
        send_window: resources.send_window,
        crypto_buffer_size: resources.crypto_buffer_bytes,
        datagram_receive_buffer_size: resources.datagram_receive_buffer_bytes,
        datagram_send_buffer_size: resources.datagram_send_buffer_bytes,
        max_idle_timeout_millis: resources.max_idle_timeout_millis,
        min_mtu: QUIC_MIN_UDP_PAYLOAD,
        initial_mtu: QUIC_MIN_UDP_PAYLOAD,
        mtu_upper_bound: resources.udp_payload_ceiling,
    }
}

/// The transport configuration of one side.
pub fn build_transport_config(side: WireSide, resources: ValidatedEndpointResources) -> (config:
    quinn::TransportConfig)
    ensures
        transport_settings(config) == transport_plan(side, resources),
{
    transport_config(plan_transport(side, resources))
}

/// What an endpoint is configured with, whatever its connections do.
pub struct EndpointSettings {
    pub supported_versions: Seq<u32>,
    pub max_udp_payload_size: u16,
}

/// The settings that an endpoint configuration holds.
pub uninterp spec fn endpoint_settings(config: QuicEndpointConfig) -> EndpointSettings;

/// Makes a `quinn::EndpointConfig` with `EndpointConfig::default`, which draws a random
/// reset key, and sets its versions and the largest UDP payload. Only a payload that is not
/// between 1200 and 65527 is refused.
#[verifier::external_body]
fn endpoint_config(supported_versions: Vec<u32>, max_udp_payload_size: u16) -> (config: Result<
    QuicEndpointConfig,
    quinn::ConfigError,
>)
    ensures
        config is Ok <==> QUIC_MIN_UDP_PAYLOAD <= max_udp_payload_size <= QUIC_MAX_UDP_PAYLOAD,
        config is Ok ==> endpoint_settings(config->Ok_0).supported_versions == supported_versions@,
        config is Ok ==> endpoint_settings(config->Ok_0).max_udp_payload_size
            == max_udp_payload_size,
{
    let mut config = QuicEndpointConfig::default();
    config.supported_versions(supported_versions);
    config.max_udp_payload_size(max_udp_payload_size)?;
    Ok(config)
}

/// What an endpoint with these resources is configured with: one QUIC version, and the UDP
/// ceiling.
pub open(crate) spec fn is_endpoint_plan(
    settings: EndpointSettings,
    resources: ValidatedEndpointResources,
) -> bool {
    &&& settings.supported_versions == seq![QUIC_V1]
    &&& settings.max_udp_payload_size == resources.udp_payload_ceiling
}

/// The configuration of an endpoint.
pub fn build_endpoint_config(resources: ValidatedEndpointResources) -> (config: Result<
    QuicEndpointConfig,
    EndpointBuildError,
>)
    ensures
        config is Ok,
        is_endpoint_plan(endpoint_settings(config->Ok_0), resources),
{
    let versions: Vec<u32> = vec![QUIC_V1];
    proof {
        assert(versions@ =~= seq![QUIC_V1]);
    }
    match endpoint_config(versions, resources.udp_payload_ceiling()) {
        Ok(config) => Ok(config),
        Err(_) => Err(EndpointBuildError::EndpointConfigRejected),
    }
}

/// Why an endpoint is not built.
#[derive(Debug)]
pub enum EndpointBuildError {
    EmptyTrustRoots,
    EmptyCertificateChain,
    Rustls(quinn::rustls::Error),
    MissingInitialCipherSuite(quinn::crypto::rustls::NoInitialCipherSuite),
    EndpointConfigRejected,
    Io(std::io::Error),
}

/// The application protocol that both sides negotiate.
pub open spec fn alpn_bytes() -> Seq<u8> {
    seq![0x72u8, 0x75, 0x6e, 0x65, 0x6e, 0x6e, 0x65, 0x74, 0x2f, 0x31]
}

/// The name of the application protocol, `runennet/1`.
pub fn profile_alpn() -> (alpn: Vec<u8>)
    ensures
        alpn@ == alpn_bytes(),
{
    let alpn: Vec<u8> = vec![0x72u8, 0x75, 0x6e, 0x65, 0x6e, 0x6e, 0x65, 0x74, 0x2f, 0x31];
    proof {
        assert(alpn@ =~= alpn_bytes());
    }
    alpn
}

/// The byte strings of a list.
pub open spec fn byte_strings(list: Seq<Vec<u8>>) -> Seq<Seq<u8>> {
    list.map_values(|entry: Vec<u8>| entry@)
}

fn profile_protocols() -> (protocols: Vec<Vec<u8>>)
    ensures
        byte_strings(protocols@) == seq![alpn_bytes()],
{
    let mut protocols: Vec<Vec<u8>> = Vec::new();
    protocols.push(profile_alpn());
    proof {
        assert(byte_strings(protocols@) =~= seq![alpn_bytes()]);
    }
    protocols
}

/// What the TLS of a client is configured with.
pub struct ClientTlsSettings {
    pub alpn_protocols: Seq<Seq<u8>>,
    pub enable_early_data: bool,
    /// No version of TLS but 1.3 is spoken.
    pub tls13_only: bool,
    /// The client shows a certificate where the server asks for one.
    pub shows_certificate: bool,
    /// The trust anchors that a server's certificate has to lead to.
    pub anchors: Seq<Seq<u8>>,
    /// The cipher suite that QUIC begins with is there.
    pub has_initial_suite: bool,
}

impl ClientTlsSettings {
    /// TLS 1.3, one application protocol, no data before the handshake is over, and no
    /// certificate of the client.
    pub open spec fn is_profile(self) -> bool {
        &&& self.tls13_only
        &&& !self.shows_certificate
        &&& self.alpn_protocols == seq![alpn_bytes()]
        &&& !self.enable_early_data
    }
}

/// The settings that the TLS configuration of a client holds.
pub uninterp spec fn client_tls_settings(config: rustls::ClientConfig) -> ClientTlsSettings;

/// What the TLS of a server is configured with.
pub struct ServerTlsSettings {
    pub alpn_protocols: Seq<Seq<u8>>,
    pub max_early_data_size: u32,
    /// No version of TLS but 1.3 is spoken.
    pub tls13_only: bool,
    /// The server asks the client for a certificate.
    pub asks_for_certificate: bool,
    /// The certificates that a client is shown.
    pub chain: Seq<CertificateDer<'static>>,
    /// The private key that the server signs with.
    pub key: PrivateKeyDer<'static>,
    /// The cipher suite that QUIC begins with is there.
    pub has_initial_suite: bool,
}

impl ServerTlsSettings {
    /// TLS 1.3, one application protocol, no data before the handshake is over, and no
    /// certificate of the client.
    pub open spec fn is_profile(self) -> bool {
        &&& self.tls13_only
        &&& !self.asks_for_certificate
        &&& self.alpn_protocols == seq![alpn_bytes()]
        &&& self.max_early_data_size == 0
    }
}

/// The settings that the TLS configuration of a server holds.
pub uninterp spec fn server_tls_settings(config: rustls::ServerConfig) -> ServerTlsSettings;

/// `rustls` takes the private key, and finds that it does not contradict the first
/// certificate of the chain.
pub uninterp spec fn identity_accepted(
    chain: Seq<CertificateDer<'static>>,
    key: PrivateKeyDer<'static>,
) -> bool;

/// The trust anchors that a store holds, each as a byte string.
pub uninterp spec fn trust_anchors(store: RootCertStore) -> Seq<Seq<u8>>;

/// Calls `RootCertStore::is_empty`: no trust anchor is held.
#[verifier::external_body]
fn has_no_anchor(store: &RootCertStore) -> (empty: bool)
    ensures
        empty == (trust_anchors(*store).len() == 0),
{
    store.is_empty()
}

/// Builds a `rustls::ClientConfig` for TLS 1.3 alone with the *ring* provider, which trusts
/// the anchors and shows no certificate of its own. The provider has what TLS 1.3 needs, the
/// cipher suite that QUIC begins with among it, so that the builder does not fail.
#[verifier::external_body]
fn tls13_client(roots: Arc<RootCertStore>) -> (config: Result<rustls::ClientConfig, rustls::Error>)
    ensures
        config is Ok,
        client_tls_settings(config->Ok_0).anchors == trust_anchors(*roots),
        client_tls_settings(config->Ok_0).has_initial_suite,
        client_tls_settings(config->Ok_0).tls13_only,
        !client_tls_settings(config->Ok_0).shows_certificate,
{
    let provider = Arc::new(rustls::crypto::ring::default_provider());
    let builder = rustls::ClientConfig::builder_with_provider(provider)
        .with_protocol_versions(&[&rustls::version::TLS13])?;
    Ok(builder.with_root_certificates(roots).with_no_client_auth())
}

/// Builds a `rustls::ServerConfig` for TLS 1.3 alone with the *ring* provider, which asks
/// for no certificate, shows this chain and signs with this key. It fails exactly where
/// `with_single_cert` refuses the private key or finds that it contradicts the chain; which
/// error comes is not stated.
#[verifier::external_body]
fn tls13_server(chain: Vec<CertificateDer<'static>>, key: PrivateKeyDer<'static>) -> (config: Result<
    rustls::ServerConfig,
    rustls::Error,
>)
    ensures
        config is Ok <==> identity_accepted(chain@, key),
        config is Ok ==> server_tls_settings(config->Ok_0).chain == chain@,
        config is Ok ==> server_tls_settings(config->Ok_0).key == key,
        config is Ok ==> server_tls_settings(config->Ok_0).has_initial_suite,
        config is Ok ==> server_tls_settings(config->Ok_0).tls13_only,
        config is Ok ==> !server_tls_settings(config->Ok_0).asks_for_certificate,
{
    let provider = Arc::new(rustls::crypto::ring::default_provider());
    let builder = rustls::ServerConfig::builder_with_provider(provider)
        .with_protocol_versions(&[&rustls::version::TLS13])?;
    builder.with_no_client_auth().with_single_cert(chain, key)
}

/// Sets two public fields of a `rustls::ClientConfig`, and leaves the others.
#[verifier::external_body]
fn set_client_profile(
    config: &mut rustls::ClientConfig,
    alpn_protocols: Vec<Vec<u8>>,
    enable_early_data: bool,
)
    ensures
        client_tls_settings(*final(config)) == (ClientTlsSettings {
            alpn_protocols: byte_strings(alpn_protocols@),
            enable_early_data,
            ..client_tls_settings(*old(config))
        }),
{
    config.alpn_protocols = alpn_protocols;
    config.enable_early_data = enable_early_data;
}

/// Sets two public fields of a `rustls::ServerConfig`, and leaves the others.
#[verifier::external_body]
fn set_server_profile(
    config: &mut rustls::ServerConfig,
    alpn_protocols: Vec<Vec<u8>>,
    max_early_data_size: u32,
)
    ensures
        server_tls_settings(*final(config)) == (ServerTlsSettings {
            alpn_protocols: byte_strings(alpn_protocols@),
            max_early_data_size,
            ..server_tls_settings(*old(config))
        }),
{
    config.alpn_protocols = alpn_protocols;
    config.max_early_data_size = max_early_data_size;
}

/// Fixes what the profile says of a client's TLS, and leaves the rest.
pub fn apply_client_profile(config: &mut rustls::ClientConfig)
    ensures
        client_tls_settings(*final(config)) == (ClientTlsSettings {
            alpn_protocols: seq![alpn_bytes()],
            enable_early_data: false,
            ..client_tls_settings(*old(config))
        }),
{
    set_client_profile(config, profile_protocols(), false);
}

/// Fixes what the profile says of a server's TLS, and leaves the rest.
pub fn apply_server_profile(config: &mut rustls::ServerConfig)
    ensures
        server_tls_settings(*final(config)) == (ServerTlsSettings {
            alpn_protocols: seq![alpn_bytes()],
            max_early_data_size: 0,
            ..server_tls_settings(*old(config))
        }),
{
    set_server_profile(config, profile_protocols(), 0);
}

/// The TLS configuration of a client that trusts these anchors.
pub fn build_client_tls(roots: Arc<RootCertStore>) -> (config: Result<
    rustls::ClientConfig,
    EndpointBuildError,
>)
    ensures
        trust_anchors(*roots).len() == 0 ==> config == Err::<rustls::ClientConfig, _>(
            EndpointBuildError::EmptyTrustRoots,
        ),
        trust_anchors(*roots).len() > 0 ==> {
            &&& config is Ok
            &&& client_tls_settings(config->Ok_0).is_profile()
            &&& client_tls_settings(config->Ok_0).anchors == trust_anchors(*roots)
            &&& client_tls_settings(config->Ok_0).has_initial_suite
        },
{
    if has_no_anchor(&roots) {
        return Err(EndpointBuildError::EmptyTrustRoots);
    }
    let mut config = match tls13_client(roots) {
        Ok(config) => config,
        Err(error) => return Err(EndpointBuildError::Rustls(error)),
    };
    apply_client_profile(&mut config);
    Ok(config)
}

/// The TLS configuration of a server that shows this identity.
pub fn build_server_tls(
    certificate_chain: Vec<CertificateDer<'static>>,
    private_key: PrivateKeyDer<'static>,
) -> (config: Result<rustls::ServerConfig, EndpointBuildError>)
    ensures
        certificate_chain@.len() == 0 ==> config == Err::<rustls::ServerConfig, _>(
            EndpointBuildError::EmptyCertificateChain,
        ),
        certificate_chain@.len() > 0 && !identity_accepted(certificate_chain@, private_key)
            ==> config is Err && config->Err_0 is Rustls,
        certificate_chain@.len() > 0 && identity_accepted(certificate_chain@, private_key) ==> {
            &&& config is Ok
            &&& server_tls_settings(config->Ok_0).is_profile()
            &&& server_tls_settings(config->Ok_0).chain == certificate_chain@
            &&& server_tls_settings(config->Ok_0).key == private_key
            &&& server_tls_settings(config->Ok_0).has_initial_suite
        },
{
    if certificate_chain.len() == 0 {
        return Err(EndpointBuildError::EmptyCertificateChain);
    }
    let mut config = match tls13_server(certificate_chain, private_key) {
        Ok(config) => config,
        Err(error) => return Err(EndpointBuildError::Rustls(error)),
    };
    apply_server_profile(&mut config);
    Ok(config)
}

/// What the connections of a client are configured with.
pub struct ClientSettings {
    pub tls: ClientTlsSettings,
    pub version: u32,
    pub transport: TransportPlan,
}

/// The settings that the configuration of a client holds.
pub uninterp spec fn client_settings(config: quinn::ClientConfig) -> ClientSettings;

/// What the connections of a server are configured with.
pub struct ServerSettings {
    pub tls: ServerTlsSettings,
    pub transport: TransportPlan,
}

/// The settings that the configuration of a server holds.
pub uninterp spec fn server_settings(config: quinn::ServerConfig) -> ServerSettings;

/// Wraps TLS with `QuicClientConfig::try_from`, which fails exactly where the initial cipher
/// suite is missing, and makes a `quinn::ClientConfig` of it with this version and transport.
#[verifier::external_body]
fn client_config(
    tls: rustls::ClientConfig,
    version: u32,
    transport: quinn::TransportConfig,
) -> (config: Result<quinn::ClientConfig, NoInitialCipherSuite>)
    ensures
        config is Ok <==> client_tls_settings(tls).has_initial_suite,
        config is Ok ==> client_settings(config->Ok_0) == (ClientSettings {
            tls: client_tls_settings(tls),
            version,
            transport: transport_settings(transport),
        }),
{
    let crypto = QuicClientConfig::try_from(tls)?;
    let mut config = quinn::ClientConfig::new(Arc::new(crypto));
    config.version(version);
    config.transport_config(Arc::new(transport));
    Ok(config)
}

/// Wraps TLS with `QuicServerConfig::try_from`, which fails exactly where the initial cipher
/// suite is missing, and makes a `quinn::ServerConfig` of it, with a random token key and
/// this transport.
#[verifier::external_body]
fn server_config(tls: rustls::ServerConfig, transport: quinn::TransportConfig) -> (config: Result<
    quinn::ServerConfig,
    NoInitialCipherSuite,
>)
    ensures
        config is Ok <==> server_tls_settings(tls).has_initial_suite,
        config is Ok ==> server_settings(config->Ok_0) == (ServerSettings {
            tls: server_tls_settings(tls),
            transport: transport_settings(transport),
        }),
{
    let crypto = QuicServerConfig::try_from(tls)?;
    let mut config = quinn::ServerConfig::with_crypto(Arc::new(crypto));
    config.transport_config(Arc::new(transport));
    Ok(config)
}

/// What a client with these resources and anchors is configured with.
pub open(crate) spec fn is_client_plan(
    settings: ClientSettings,
    resources: ValidatedEndpointResources,
    anchors: Seq<Seq<u8>>,
) -> bool {
    &&& settings.tls.is_profile()
    &&& settings.tls.anchors == anchors
    &&& settings.version == QUIC_V1
    &&& settings.transport == transport_plan(WireSide::Client, resources)
}

/// The configuration of a client's connections.
pub fn build_client_config(resources: ValidatedEndpointResources, roots: Arc<RootCertStore>) -> (config:
    Result<quinn::ClientConfig, EndpointBuildError>)
    ensures
        trust_anchors(*roots).len() == 0 ==> config == Err::<quinn::ClientConfig, _>(
            EndpointBuildError::EmptyTrustRoots,
        ),
        trust_anchors(*roots).len() > 0 ==> config is Ok && is_client_plan(
            client_settings(config->Ok_0),
            resources,
            trust_anchors(*roots),
        ),
{
    let tls = match build_client_tls(roots) {
        Ok(tls) => tls,
        Err(error) => return Err(error),
    };
    match client_config(tls, QUIC_V1, build_transport_config(WireSide::Client, resources)) {
        Ok(config) => Ok(config),
        Err(error) => Err(EndpointBuildError::MissingInitialCipherSuite(error)),
    }
}

/// What a server with these resources and this identity is configured with.
pub open(crate) spec fn is_server_plan(
    settings: ServerSettings,
    resources: ValidatedEndpointResources,
    chain: Seq<CertificateDer<'static>>,
    key: PrivateKeyDer<'static>,
) -> bool {
    &&& settings.tls.is_profile()
    &&& settings.tls.chain == chain
    &&& settings.tls.key == key
    &&& settings.transport == transport_plan(WireSide::Server, resources)
}

/// The configuration of a server's connections.
pub fn build_server_config(
    resources: ValidatedEndpointResources,
    certificate_chain: Vec<CertificateDer<'static>>,
    private_key: PrivateKeyDer<'static>,
) -> (config: Result<quinn::ServerConfig, EndpointBuildError>)
    ensures
        certificate_chain@.len() == 0 ==> config == Err::<quinn::ServerConfig, _>(
            EndpointBuildError::EmptyCertificateChain,
        ),
        certificate_chain@.len() > 0 && !identity_accepted(certificate_chain@, private_key)
            ==> config is Err && config->Err_0 is Rustls,
        certificate_chain@.len() > 0 && identity_accepted(certificate_chain@, private_key)
            ==> config is Ok && is_server_plan(
            server_settings(config->Ok_0),
            resources,
            certificate_chain@,
            private_key,
        ),
{
    let tls = match build_server_tls(certificate_chain, private_key) {
        Ok(tls) => tls,
        Err(error) => return Err(error),
    };
    match server_config(tls, build_transport_config(WireSide::Server, resources)) {
        Ok(config) => Ok(config),
        Err(error) => Err(EndpointBuildError::MissingInitialCipherSuite(error)),
    }
}

/// Why an endpoint takes no further connection.
#[derive(Debug, Clone, Copy, PartialEq, Eq, Structural)]
pub enum ConnectionAdmissionError {
    AtCapacity,
}

/// The right to hold one connection of an endpoint.
#[must_use]
#[derive(Debug, PartialEq, Eq)]
pub struct ConnectionSlotPermit {
    pub(crate) side: WireSide,
}

impl ConnectionSlotPermit {
    pub open(crate) spec fn spec_side(self) -> WireSide {
        self.side
    }
}

/// One side's endpoint: its resources, and how many of its connections are taken.
#[derive(Debug)]
pub struct ConfiguredEndpoint {
    pub(crate) side: WireSide,
    pub(crate) resources: ValidatedEndpointResources,
    pub(crate) connections: usize,
}

impl ConfiguredEndpoint {
    #[verifier::type_invariant]
    pub open(crate) spec fn wf(self) -> bool {
        self.resources.wf() && self.connections <= self.resources.max_connections
    }

    pub open(crate) spec fn spec_side(self) -> WireSide {
        self.side
    }

    pub open(crate) spec fn spec_resources(self) -> ValidatedEndpointResources {
        self.resources
    }

    /// The connections that are taken.
    pub open(crate) spec fn spec_connections(self) -> usize {
        self.connections
    }

    /// The endpoint of one side with these resources, and no connection taken.
    pub open(crate) spec fn is_fresh(
        self,
        side: WireSide,
        resources: ValidatedEndpointResources,
    ) -> bool {
        self.side == side && self.resources == resources && self.connections == 0
    }

    /// The same endpoint with another number of connections taken.
    pub open(crate) spec fn holding(self, connections: int) -> ConfiguredEndpoint {
        ConfiguredEndpoint { connections: connections as usize, ..self }
    }

    pub fn new(side: WireSide, resources: ValidatedEndpointResources) -> (endpoint: Self)
        ensures
            endpoint.wf(),
            endpoint.is_fresh(side, resources),
            endpoint.spec_side() == side,
            endpoint.spec_resources() == resources,
            endpoint.spec_connections() == 0,
    {
        proof {
            use_type_invariant(&resources);
        }
        ConfiguredEndpoint { side, resources, connections: 0 }
    }

    pub fn side(&self) -> (side: WireSide)
        ensures
            side == self.spec_side(),
    {
        self.side
    }

    pub fn resources(&self) -> (resources: ValidatedEndpointResources)
        ensures
            resources == self.spec_resources(),
    {
        self.resources
    }

    pub fn connections(&self) -> (connections: usize)
        ensures
            connections == self.spec_connections(),
            connections <= self.spec_resources().spec_max_connections(),
    {
        proof {
            use_type_invariant(self);
        }
        self.connections
    }

    /// Takes one connection, where the capacity allows it.
    pub fn try_acquire_connection_slot(&mut self) -> (permit: Result<
        ConnectionSlotPermit,
        ConnectionAdmissionError,
    >)
        ensures
            old(self).spec_connections() < old(self).spec_resources().spec_max_connections() ==> {
                &&& permit is Ok
                &&& permit->Ok_0.spec_side() == old(self).spec_side()
                &&& *final(self) == old(self).holding(old(self).spec_connections() + 1)
            },
            old(self).spec_connections() >= old(self).spec_resources().spec_max_connections() ==> {
                &&& permit == Err::<ConnectionSlotPermit, _>(ConnectionAdmissionError::AtCapacity)
                &&& *final(self) == *old(self)
            },
            final(self).wf(),
    {
        proof {
            use_type_invariant(&*self);
        }
        if self.connections < self.resources.max_connections {
            self.connections = self.connections + 1;
            Ok(ConnectionSlotPermit { side: self.side })
        } else {
            Err(ConnectionAdmissionError::AtCapacity)
        }
    }

    /// Gives one connection back.
    pub fn release_connection_slot(&mut self, permit: ConnectionSlotPermit)
        ensures
            *final(self) == old(self).holding(
                if old(self).spec_connections() > 0 && permit.spec_side() == old(self).spec_side() {
                    old(self).spec_connections() - 1
                } else {
                    old(self).spec_connections() as int
                },
            ),
            final(self).wf(),
    {
        proof {
            use_type_invariant(&*self);
        }
        if self.connections > 0 && permit.side == self.side {
            self.connections = self.connections - 1;
        }
    }
}

/// Giving a connection back undoes taking it.
pub proof fn law_slot_acquire_release(endpoint: ConfiguredEndpoint)
    requires
        endpoint.wf(),
        endpoint.spec_connections() < endpoint.spec_resources().spec_max_connections(),
    ensures
        endpoint.holding(endpoint.spec_connections() + 1).holding(
            endpoint.spec_connections() as int,
        ) == endpoint,
{
}

/// A limit is at fault for this reason.
pub open spec fn at_fault(limits: EndpointResourceLimits, error: EndpointResourceError) -> bool {
    let ceiling = limits.udp_payload_ceiling;
    let nanos = duration_nanos(limits.max_idle_timeout);
    match error {
        EndpointResourceError::ZeroConnections => limits.max_connections == 0,
        EndpointResourceError::ZeroIncomingFlows => limits.max_active_incoming_flows == 0,
        EndpointResourceError::IncomingFlowsOutOfRange => limits.max_active_incoming_flows
            >= 0x4000_0000_0000_0000,
        EndpointResourceError::UdpPayloadBelowMinimum => ceiling < 1_200,
        EndpointResourceError::UdpPayloadAboveMaximum => ceiling > 65_527,
        EndpointResourceError::ZeroStreamReceiveWindow => limits.stream_receive_window == 0,
        EndpointResourceError::StreamReceiveWindowOutOfRange => limits.stream_receive_window
            >= 0x4000_0000_0000_0000,
        EndpointResourceError::ZeroConnectionReceiveWindow => limits.connection_receive_window == 0,
        EndpointResourceError::ConnectionReceiveWindowBelowStream => {
            limits.connection_receive_window < limits.stream_receive_window
        },
        EndpointResourceError::ConnectionReceiveWindowOutOfRange => {
            limits.connection_receive_window >= 0x4000_0000_0000_0000
        },
        EndpointResourceError::ZeroSendWindow => limits.send_window == 0,
        EndpointResourceError::ZeroCryptoBuffer => limits.crypto_buffer_bytes == 0,
        EndpointResourceError::ZeroDatagramReceiveBuffer => {
            limits.datagram_receive_buffer_bytes == 0
        },
        EndpointResourceError::DatagramReceiveBufferBelowUdpCeiling => {
            limits.datagram_receive_buffer_bytes < ceiling
        },
        EndpointResourceError::ZeroDatagramSendBuffer => limits.datagram_send_buffer_bytes == 0,
        EndpointResourceError::DatagramSendBufferBelowUdpCeiling => {
            limits.datagram_send_buffer_bytes < ceiling
        },
        EndpointResourceError::ZeroIdleTimeout => nanos == 0,
        EndpointResourceError::IdleTimeoutOutOfRange => nanos / 1_000_000
            >= 0x4000_0000_0000_0000,
    }
}

/// The place of a fault among those that are looked for, one behind the other.
pub open spec fn fault_rank(error: EndpointResourceError) -> int {
    match error {
        EndpointResourceError::ZeroConnections => 0,
        EndpointResourceError::ZeroIncomingFlows => 1,
        EndpointResourceError::IncomingFlowsOutOfRange => 2,
        EndpointResourceError::UdpPayloadBelowMinimum => 3,
        EndpointResourceError::UdpPayloadAboveMaximum => 4,
        EndpointResourceError::ZeroStreamReceiveWindow => 5,
        EndpointResourceError::StreamReceiveWindowOutOfRange => 6,
        EndpointResourceError::ZeroConnectionReceiveWindow => 7,
        EndpointResourceError::ConnectionReceiveWindowBelowStream => 8,
        EndpointResourceError::ConnectionReceiveWindowOutOfRange => 9,
        EndpointResourceError::ZeroSendWindow => 10,
        EndpointResourceError::ZeroCryptoBuffer => 11,
        EndpointResourceError::ZeroDatagramReceiveBuffer => 12,
        EndpointResourceError::DatagramReceiveBufferBelowUdpCeiling => 13,
        EndpointResourceError::ZeroDatagramSendBuffer => 14,
        EndpointResourceError::DatagramSendBufferBelowUdpCeiling => 15,
        EndpointResourceError::ZeroIdleTimeout => 16,
        EndpointResourceError::IdleTimeoutOutOfRange => 17,
    }
}

/// Limits are refused exactly where one of them is at fault, and the fault that is told is
/// the first there is: no other fault comes before it.
pub proof fn law_the_first_fault_is_told(
    limits: EndpointResourceLimits,
    other: EndpointResourceError,
)
    ensures
        limits.error() matches Some(told) ==> {
            &&& at_fault(limits, told)
            &&& at_fault(limits, other) ==> fault_rank(told) <= fault_rank(other)
        },
        at_fault(limits, other) ==> limits.error() is Some,
{
}

/// Each limit that passed validation reaches the transport's setting of the same meaning.
/// The peer of a server may open one bidirectional stream, the peer of a client none; paths
/// are probed from 1200 bytes up to the UDP ceiling.
pub proof fn law_limits_reach_the_transport(
    limits: EndpointResourceLimits,
    side: WireSide,
    config: quinn::TransportConfig,
)
    requires
        limits.error() is None,
        transport_settings(config) == transport_plan(side, limits.validated()),
    ensures
        ({
            let plan = transport_settings(config);
            &&& plan.max_concurrent_bidi_streams == (if side == WireSide::Server {
                1u64
            } else {
                0u64
            })
            &&& plan.max_concurrent_uni_streams == limits.max_active_incoming_flows
            &&& plan.stream_receive_window == limits.stream_receive_window
            &&& plan.receive_window == limits.connection_receive_window
            &&& plan.send_window == limits.send_window
            &&& plan.crypto_buffer_size == limits.crypto_buffer_bytes
            &&& plan.datagram_receive_buffer_size == limits.datagram_receive_buffer_bytes
            &&& plan.datagram_send_buffer_size == limits.datagram_send_buffer_bytes
            &&& plan.max_idle_timeout_millis == duration_nanos(limits.max_idle_timeout)
                / 1_000_000
            &&& plan.min_mtu == 1_200
            &&& plan.initial_mtu == 1_200
            &&& plan.mtu_upper_bound == limits.udp_payload_ceiling
        }),
{
}

/// Each limit that passed validation is kept as it was given.
pub proof fn law_validated_limits_are_kept(limits: EndpointResourceLimits)
    requires
        limits.error() is None,
    ensures
        ({
            let kept = limits.validated();
            &&& kept.spec_max_connections() == limits.max_connections
            &&& kept.spec_max_active_incoming_flows() == limits.max_active_incoming_flows
            &&& kept.spec_udp_payload_ceiling() == limits.udp_payload_ceiling
        }),
{
}

/// An endpoint that was built for limits speaks QUIC version 1 alone and takes UDP payloads
/// up to their ceiling.
pub proof fn law_endpoints_speak_one_version(
    limits: EndpointResourceLimits,
    settings: EndpointSettings,
)
    requires
        limits.error() is None,
        is_endpoint_plan(settings, limits.validated()),
    ensures
        settings.supported_versions.len() == 1,
        settings.supported_versions[0] == 1,
        settings.max_udp_payload_size == limits.udp_payload_ceiling,
{
}

/// A client and a server that were built speak TLS 1.3 with the one application protocol
/// `runennet/1`, without early data and without a certificate of the client. The client
/// trusts the given anchors and no others; the server shows the given chain and signs with
/// the given key.
pub proof fn law_tls_keeps_to_the_profile(
    resources: ValidatedEndpointResources,
    client: ClientSettings,
    anchors: Seq<Seq<u8>>,
    server: ServerSettings,
    chain: Seq<CertificateDer<'static>>,
    key: PrivateKeyDer<'static>,
)
    requires
        is_client_plan(client, resources, anchors),
        is_server_plan(server, resources, chain, key),
    ensures
        ({
            let name = seq![
                0x72u8, 0x75u8, 0x6eu8, 0x65u8, 0x6eu8, 0x6eu8, 0x65u8, 0x74u8, 0x2fu8, 0x31u8,
            ];
            &&& client.tls.alpn_protocols == seq![name]
            &&& server.tls.alpn_protocols == seq![name]
        }),
        client.tls.tls13_only && server.tls.tls13_only,
        !client.tls.enable_early_data && server.tls.max_early_data_size == 0,
        !client.tls.shows_certificate && !server.tls.asks_for_certificate,
        client.tls.anchors == anchors,
        server.tls.chain == chain && server.tls.key == key,
        client.version == 1,
        client.transport == transport_plan(WireSide::Client, resources),
        server.transport == transport_plan(WireSide::Server, resources),
{
}

/// An endpoint that takes or gives back connections stays the same endpoint but for their
/// number.
pub proof fn law_holding_counts(endpoint: ConfiguredEndpoint, connections: int)
    requires
        0 <= connections <= usize::MAX,
    ensures
        endpoint.holding(connections).spec_connections() == connections,
        endpoint.holding(connections).spec_side() == endpoint.spec_side(),
        endpoint.holding(connections).spec_resources() == endpoint.spec_resources(),
{
}

} // verus!
