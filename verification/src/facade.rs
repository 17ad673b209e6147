//! The application's view: endpoint and profile configuration, TLS material, and the
//! endpoints that connections are made on.

use std::sync::Arc;
use std::time::Duration;

use quinn::rustls::RootCertStore;
use quinn::EndpointConfig as QuicEndpointConfig;
use rustls_pki_types::{CertificateDer, PrivateKeyDer};
use vstd::prelude::*;

use crate::control::{
    LocalControlLimitError as ControlLimitError, LocalControlLimits, ProfileBootstrapError,
    SemanticRole as WireRole, Settings, ValidatedControlProfile,
};
use crate::endpoint::{
    build_client_config, build_endpoint_config, build_server_config, client_settings,
    duration_nanos, endpoint_settings, identity_accepted, is_client_plan,
    is_endpoint_plan, is_server_plan, server_settings, trust_anchors, ConfiguredEndpoint,
    ConnectionAdmissionError, ConnectionSlotPermit, EndpointBuildError,
    EndpointResourceError as ResourceError, EndpointResourceLimits as ResourceLimits,
    ValidatedEndpointResources,
};
use crate::lifecycle::{
    admit_connection, preflight_error, AdmittedProfileReadyConnection, CloseOrder, CloseReason,
    ProfileConnectionError as ConnectionError,
};
use crate::varint::MAX_VARINT;
use crate::wire::{ApplicationErrorCode, WireSide};

verus! {

pub const BASELINE_UDP_PAYLOAD_CEILING: u16 = 1_452;

pub const BASELINE_STREAM_RECEIVE_WINDOW: u64 = 65_536;

pub const BASELINE_CONNECTION_RECEIVE_WINDOW: u64 = 262_144;

pub const BASELINE_SEND_WINDOW: u64 = 262_144;

pub const BASELINE_CRYPTO_BUFFER_BYTES: usize = 32_768;

pub const BASELINE_DATAGRAM_RECEIVE_BUFFER_BYTES: usize = 65_536;

pub const BASELINE_DATAGRAM_SEND_BUFFER_BYTES: usize = 65_536;

pub const BASELINE_MAX_IDLE_TIMEOUT_SECONDS: u64 = 30;

pub const BASELINE_MAX_CONTROL_FRAME_BYTES: usize = 65_536;

pub const BASELINE_MAX_NEGOTIATION_FRAME_BYTES: usize = 32_768;

pub const BASELINE_RELIABLE_SCRATCH_BYTES: usize = 4_096;

/// `Duration::from_secs` of the standard library: a duration of so many whole seconds.
pub assume_specification[ Duration::from_secs ](secs: u64) -> (duration: Duration)
    ensures
        duration_nanos(duration) == secs * 1_000_000_000,
;

/// `CertificateDer::clone`: the same certificate once more.
pub assume_specification<'a>[ <CertificateDer<'a> as Clone>::clone ](
    certificate: &CertificateDer<'a>,
) -> (copy: CertificateDer<'a>)
    ensures
        copy == *certificate,
;

/// The trust anchor that `RootCertStore::add` reads from a certificate, if it reads one.
pub uninterp spec fn anchor_of(certificate: CertificateDer<'static>) -> Option<Seq<u8>>;

/// Calls `RootCertStore::empty`, which makes a store without trust anchors.
#[verifier::external_body]
fn empty_root_store() -> (store: RootCertStore)
    ensures
        trust_anchors(store) == Seq::<Seq<u8>>::empty(),
{
    RootCertStore::empty()
}

/// Calls `RootCertStore::add`, which adds the trust anchor of a certificate behind the
/// others, and leaves the store as it is where the certificate has none.
#[verifier::external_body]
fn add_root(store: &mut RootCertStore, certificate: &CertificateDer<'static>) -> (added: Result<
    (),
    quinn::rustls::Error,
>)
    ensures
        added is Ok <==> anchor_of(*certificate) is Some,
        trust_anchors(*final(store)) == match anchor_of(*certificate) {
            Some(anchor) => trust_anchors(*old(store)).push(anchor),
            None => trust_anchors(*old(store)),
        },
{
    store.add(certificate.clone())
}

/// The part that an endpoint plays in a session. It does not depend on which side of QUIC
/// the endpoint is.
#[derive(Debug, Clone, Copy, PartialEq, Eq, Structural)]
pub enum SemanticRole {
    Authority,
    NonAuthority,
}

impl SemanticRole {
    /// The role as it is announced.
    pub open spec fn announced(self) -> WireRole {
        match self {
            SemanticRole::Authority => WireRole::Authority,
            SemanticRole::NonAuthority => WireRole::NonAuthority,
        }
    }
}

impl vstd::std_specs::convert::FromSpecImpl<SemanticRole> for WireRole {
    open spec fn obeys_from_spec() -> bool {
        true
    }

    open spec fn from_spec(role: SemanticRole) -> WireRole {
        role.announced()
    }
}

impl From<SemanticRole> for WireRole {
    fn from(role: SemanticRole) -> Self {
        match role {
            SemanticRole::Authority => WireRole::Authority,
            SemanticRole::NonAuthority => WireRole::NonAuthority,
        }
    }
}

/// A number of bytes that is not zero.
#[derive(Debug, Clone, Copy, PartialEq, Eq, Structural)]
pub struct NonZeroSize {
    pub(crate) bytes: usize,
}

impl NonZeroSize {
    #[verifier::type_invariant]
    pub open(crate) spec fn wf(self) -> bool {
        self.bytes > 0
    }

    pub open(crate) spec fn spec_get(self) -> usize {
        self.bytes
    }

    pub fn new(bytes: usize) -> (size: Option<Self>)
        ensures
            bytes == 0 ==> size is None,
            bytes > 0 ==> size is Some && size->0.spec_get() == bytes,
    {
        if bytes == 0 {
            None
        } else {
            Some(NonZeroSize { bytes })
        }
    }

    pub fn get(self) -> (bytes: usize)
        ensures
            bytes == self.spec_get(),
            bytes > 0,
    {
        proof {
            use_type_invariant(&self);
        }
        self.bytes
    }
}

/// What reliable receiving may use.
#[derive(Debug, Clone, Copy, PartialEq, Eq, Structural)]
pub struct ReliableReceiveLimits {
    pub scratch_bytes: NonZeroSize,
    pub max_staging_bytes: NonZeroSize,
}

impl ReliableReceiveLimits {
    /// Neither is zero.
    pub open(crate) spec fn wf(self) -> bool {
        self.scratch_bytes.spec_get() > 0 && self.max_staging_bytes.spec_get() > 0
    }
}

/// What one endpoint may use.
#[derive(Debug, Clone, Copy, PartialEq, Eq)]
pub struct EndpointResourceLimits {
    pub max_connections: usize,
    pub max_active_incoming_flows: u64,
    pub udp_payload_ceiling: u16,
    pub stream_receive_window: u64,
    pub connection_receive_window: u64,
    pub send_window: u64,
    pub crypto_buffer_bytes: usize,
    pub datagram_receive_buffer_bytes: usize,
    pub datagram_send_buffer_bytes: usize,
    pub max_idle_timeout: Duration,
}

/// Why an endpoint's resources are refused.
#[derive(Debug, Clone, Copy, PartialEq, Eq, Structural)]
pub enum EndpointResourceError {
    ZeroConnections,
    ZeroIncomingFlows,
    IncomingFlowsExceedQuicStreamLimit,
    UdpPayloadBelowMinimum,
    UdpPayloadAboveMaximum,
    ZeroStreamReceiveWindow,
    StreamReceiveWindowOutOfRange,
    ZeroConnectionReceiveWindow,
    ConnectionReceiveWindowOutOfRange,
    ConnectionReceiveWindowBelowStream,
    ZeroSendWindow,
    ZeroCryptoBuffer,
    ZeroDatagramReceiveBuffer,
    DatagramReceiveBufferBelowUdpCeiling,
    ZeroDatagramSendBuffer,
    DatagramSendBufferBelowUdpCeiling,
    ZeroIdleTimeout,
    IdleTimeoutOutOfRange,
}

/// The error that the application sees.
pub open spec fn shown_resource_error(error: ResourceError) -> EndpointResourceError {
    match error {
        ResourceError::ZeroConnections => EndpointResourceError::ZeroConnections,
        ResourceError::ZeroIncomingFlows => EndpointResourceError::ZeroIncomingFlows,
        ResourceError::IncomingFlowsOutOfRange => {
            EndpointResourceError::IncomingFlowsExceedQuicStreamLimit
        },
        ResourceError::UdpPayloadBelowMinimum => EndpointResourceError::UdpPayloadBelowMinimum,
        ResourceError::UdpPayloadAboveMaximum => EndpointResourceError::UdpPayloadAboveMaximum,
        ResourceError::ZeroStreamReceiveWindow => EndpointResourceError::ZeroStreamReceiveWindow,
        ResourceError::StreamReceiveWindowOutOfRange => {
            EndpointResourceError::StreamReceiveWindowOutOfRange
        },
        ResourceError::ZeroConnectionReceiveWindow => {
            EndpointResourceError::ZeroConnectionReceiveWindow
        },
        ResourceError::ConnectionReceiveWindowOutOfRange => {
            EndpointResourceError::ConnectionReceiveWindowOutOfRange
        },
        ResourceError::ConnectionReceiveWindowBelowStream => {
            EndpointResourceError::ConnectionReceiveWindowBelowStream
        },
        ResourceError::ZeroSendWindow => EndpointResourceError::ZeroSendWindow,
        ResourceError::ZeroCryptoBuffer => EndpointResourceError::ZeroCryptoBuffer,
        ResourceError::ZeroDatagramReceiveBuffer => {
            EndpointResourceError::ZeroDatagramReceiveBuffer
        },
        ResourceError::DatagramReceiveBufferBelowUdpCeiling => {
            EndpointResourceError::DatagramReceiveBufferBelowUdpCeiling
        },
        ResourceError::ZeroDatagramSendBuffer => EndpointResourceError::ZeroDatagramSendBuffer,
        ResourceError::DatagramSendBufferBelowUdpCeiling => {
            EndpointResourceError::DatagramSendBufferBelowUdpCeiling
        },
        ResourceError::ZeroIdleTimeout => EndpointResourceError::ZeroIdleTimeout,
        ResourceError::IdleTimeoutOutOfRange => EndpointResourceError::IdleTimeoutOutOfRange,
    }
}

impl vstd::std_specs::convert::FromSpecImpl<ResourceError> for EndpointResourceError {
    open spec fn obeys_from_spec() -> bool {
        true
    }

    open spec fn from_spec(error: ResourceError) -> EndpointResourceError {
        shown_resource_error(error)
    }
}

impl From<ResourceError> for EndpointResourceError {
    fn from(error: ResourceError) -> Self {
        match error {
            ResourceError::ZeroConnections => EndpointResourceError::ZeroConnections,
            ResourceError::ZeroIncomingFlows => EndpointResourceError::ZeroIncomingFlows,
            ResourceError::IncomingFlowsOutOfRange => {
                EndpointResourceError::IncomingFlowsExceedQuicStreamLimit
            },
            ResourceError::UdpPayloadBelowMinimum => EndpointResourceError::UdpPayloadBelowMinimum,
            ResourceError::UdpPayloadAboveMaximum => EndpointResourceError::UdpPayloadAboveMaximum,
            ResourceError::ZeroStreamReceiveWindow => {
                EndpointResourceError::ZeroStreamReceiveWindow
            },
            ResourceError::StreamReceiveWindowOutOfRange => {
                EndpointResourceError::StreamReceiveWindowOutOfRange
            },
            ResourceError::ZeroConnectionReceiveWindow => {
                EndpointResourceError::ZeroConnectionReceiveWindow
            },
            ResourceError::ConnectionReceiveWindowOutOfRange => {
                EndpointResourceError::ConnectionReceiveWindowOutOfRange
            },
            ResourceError::ConnectionReceiveWindowBelowStream => {
                EndpointResourceError::ConnectionReceiveWindowBelowStream
            },
            ResourceError::ZeroSendWindow => EndpointResourceError::ZeroSendWindow,
            ResourceError::ZeroCryptoBuffer => EndpointResourceError::ZeroCryptoBuffer,
            ResourceError::ZeroDatagramReceiveBuffer => {
                EndpointResourceError::ZeroDatagramReceiveBuffer
            },
            ResourceError::DatagramReceiveBufferBelowUdpCeiling => {
                EndpointResourceError::DatagramReceiveBufferBelowUdpCeiling
            },
            ResourceError::ZeroDatagramSendBuffer => EndpointResourceError::ZeroDatagramSendBuffer,
            ResourceError::DatagramSendBufferBelowUdpCeiling => {
                EndpointResourceError::DatagramSendBufferBelowUdpCeiling
            },
            ResourceError::ZeroIdleTimeout => EndpointResourceError::ZeroIdleTimeout,
            ResourceError::IdleTimeoutOutOfRange => EndpointResourceError::IdleTimeoutOutOfRange,
        }
    }
}

impl EndpointResourceLimits {
    /// The limits that are checked.
    pub open spec fn checked(self) -> ResourceLimits {
        ResourceLimits {
            max_connections: self.max_connections,
            max_active_incoming_flows: self.max_active_incoming_flows,
            udp_payload_ceiling: self.udp_payload_ceiling,
            stream_receive_window: self.stream_receive_window,
            connection_receive_window: self.connection_receive_window,
            send_window: self.send_window,
            crypto_buffer_bytes: self.crypto_buffer_bytes,
            datagram_receive_buffer_bytes: self.datagram_receive_buffer_bytes,
            datagram_send_buffer_bytes: self.datagram_send_buffer_bytes,
            max_idle_timeout: self.max_idle_timeout,
        }
    }

    pub fn validate(self) -> (config: Result<EndpointConfig, EndpointResourceError>)
        ensures
            match self.checked().error() {
                Some(error) => config == Err::<EndpointConfig, _>(shown_resource_error(error)),
                None => config is Ok && config->Ok_0.spec_limits() == self
                    && config->Ok_0.spec_resources() == self.checked().validated(),
            },
    {
        let checked = ResourceLimits {
            max_connections: self.max_connections,
            max_active_incoming_flows: self.max_active_incoming_flows,
            udp_payload_ceiling: self.udp_payload_ceiling,
            stream_receive_window: self.stream_receive_window,
            connection_receive_window: self.connection_receive_window,
            send_window: self.send_window,
            crypto_buffer_bytes: self.crypto_buffer_bytes,
            datagram_receive_buffer_bytes: self.datagram_receive_buffer_bytes,
            datagram_send_buffer_bytes: self.datagram_send_buffer_bytes,
            max_idle_timeout: self.max_idle_timeout,
        };
        match checked.validate() {
            Ok(inner) => Ok(EndpointConfig { limits: self, inner }),
            Err(error) => Err(EndpointResourceError::from(error)),
        }
    }
}

/// An endpoint's resources that passed validation.
#[derive(Debug, Clone, Copy, PartialEq, Eq)]
pub struct EndpointConfig {
    pub(crate) limits: EndpointResourceLimits,
    pub(crate) inner: ValidatedEndpointResources,
}

impl EndpointConfig {
    pub open(crate) spec fn spec_limits(self) -> EndpointResourceLimits {
        self.limits
    }

    pub open(crate) spec fn spec_resources(self) -> ValidatedEndpointResources {
        self.inner
    }

    /// The named baseline for ordinary use: the host chooses how many connections and
    /// incoming flows there may be, and no more.
    pub fn baseline(max_connections: usize, max_active_incoming_flows: u64) -> (config: Result<
        Self,
        EndpointResourceError,
    >)
        ensures
            max_connections == 0 ==> config == Err::<EndpointConfig, _>(
                EndpointResourceError::ZeroConnections,
            ),
            max_connections > 0 && max_active_incoming_flows == 0 ==> config == Err::<
                EndpointConfig,
                _,
            >(EndpointResourceError::ZeroIncomingFlows),
            max_connections > 0 && max_active_incoming_flows > MAX_VARINT ==> config == Err::<
                EndpointConfig,
                _,
            >(EndpointResourceError::IncomingFlowsExceedQuicStreamLimit),
            max_connections > 0 && 0 < max_active_incoming_flows <= MAX_VARINT ==> {
                &&& config is Ok
                &&& is_baseline(
                    config->Ok_0.spec_limits(),
                    max_connections,
                    max_active_incoming_flows,
                )
                &&& config->Ok_0.spec_resources()
                    == config->Ok_0.spec_limits().checked().validated()
            },
    {
        EndpointResourceLimits {
            max_connections,
            max_active_incoming_flows,
            udp_payload_ceiling: BASELINE_UDP_PAYLOAD_CEILING,
            stream_receive_window: BASELINE_STREAM_RECEIVE_WINDOW,
            connection_receive_window: BASELINE_CONNECTION_RECEIVE_WINDOW,
            send_window: BASELINE_SEND_WINDOW,
            crypto_buffer_bytes: BASELINE_CRYPTO_BUFFER_BYTES,
            datagram_receive_buffer_bytes: BASELINE_DATAGRAM_RECEIVE_BUFFER_BYTES,
            datagram_send_buffer_bytes: BASELINE_DATAGRAM_SEND_BUFFER_BYTES,
            max_idle_timeout: Duration::from_secs(BASELINE_MAX_IDLE_TIMEOUT_SECONDS),
        }.validate()
    }

    pub fn limits(self) -> (limits: EndpointResourceLimits)
        ensures
            limits == self.spec_limits(),
    {
        self.limits
    }

    /// The resources, as the QUIC stack is configured with them.
    pub fn resources(self) -> (resources: ValidatedEndpointResources)
        ensures
            resources == self.spec_resources(),
    {
        self.inner
    }
}

/// The limits of the baseline.
pub open spec fn is_baseline(
    limits: EndpointResourceLimits,
    max_connections: usize,
    max_active_incoming_flows: u64,
) -> bool {
    &&& limits.max_connections == max_connections
    &&& limits.max_active_incoming_flows == max_active_incoming_flows
    &&& limits.udp_payload_ceiling == BASELINE_UDP_PAYLOAD_CEILING
    &&& limits.stream_receive_window == BASELINE_STREAM_RECEIVE_WINDOW
    &&& limits.connection_receive_window == BASELINE_CONNECTION_RECEIVE_WINDOW
    &&& limits.send_window == BASELINE_SEND_WINDOW
    &&& limits.crypto_buffer_bytes == BASELINE_CRYPTO_BUFFER_BYTES
    &&& limits.datagram_receive_buffer_bytes == BASELINE_DATAGRAM_RECEIVE_BUFFER_BYTES
    &&& limits.datagram_send_buffer_bytes == BASELINE_DATAGRAM_SEND_BUFFER_BYTES
    &&& duration_nanos(limits.max_idle_timeout) == BASELINE_MAX_IDLE_TIMEOUT_SECONDS
        * 1_000_000_000
}

/// What one endpoint announces and accepts.
#[derive(Debug, Clone, Copy, PartialEq, Eq, Structural)]
pub struct ProfileLimits {
    pub semantic_role: SemanticRole,
    pub max_control_frame_bytes: usize,
    pub max_negotiation_frame_bytes: usize,
    pub max_incoming_message_bytes: u64,
    pub reliable_receive: ReliableReceiveLimits,
}

/// Why a profile is refused.
#[derive(Debug, Clone, Copy, PartialEq, Eq, Structural)]
pub enum ProfileConfigError {
    ControlFrameTooSmall,
    ControlFrameOutOfRange,
    NegotiationFrameTooSmall,
    NegotiationFrameOutOfRange,
    NegotiationExceedsControl,
    ZeroIncomingMessageBytes,
    IncomingMessageBytesOutOfRange,
    IncomingMessageBytesDoNotFitPlatform,
    ReliableStagingBelowIncomingMessageCeiling,
}

/// The error that the application sees.
pub open spec fn shown_profile_error(error: ControlLimitError) -> ProfileConfigError {
    match error {
        ControlLimitError::ControlFrameTooSmall => ProfileConfigError::ControlFrameTooSmall,
        ControlLimitError::ControlFrameOutOfRange => ProfileConfigError::ControlFrameOutOfRange,
        ControlLimitError::NegotiationFrameTooSmall => ProfileConfigError::NegotiationFrameTooSmall,
        ControlLimitError::NegotiationFrameOutOfRange => {
            ProfileConfigError::NegotiationFrameOutOfRange
        },
        ControlLimitError::NegotiationExceedsControl => {
            ProfileConfigError::NegotiationExceedsControl
        },
        ControlLimitError::ZeroIncomingMessageBytes => ProfileConfigError::ZeroIncomingMessageBytes,
        ControlLimitError::IncomingMessageBytesOutOfRange => {
            ProfileConfigError::IncomingMessageBytesOutOfRange
        },
    }
}

impl vstd::std_specs::convert::FromSpecImpl<ControlLimitError> for ProfileConfigError {
    open spec fn obeys_from_spec() -> bool {
        true
    }

    open spec fn from_spec(error: ControlLimitError) -> ProfileConfigError {
        shown_profile_error(error)
    }
}

impl From<ControlLimitError> for ProfileConfigError {
    fn from(error: ControlLimitError) -> Self {
        match error {
            ControlLimitError::ControlFrameTooSmall => ProfileConfigError::ControlFrameTooSmall,
            ControlLimitError::ControlFrameOutOfRange => ProfileConfigError::ControlFrameOutOfRange,
            ControlLimitError::NegotiationFrameTooSmall => {
                ProfileConfigError::NegotiationFrameTooSmall
            },
            ControlLimitError::NegotiationFrameOutOfRange => {
                ProfileConfigError::NegotiationFrameOutOfRange
            },
            ControlLimitError::NegotiationExceedsControl => {
                ProfileConfigError::NegotiationExceedsControl
            },
            ControlLimitError::ZeroIncomingMessageBytes => {
                ProfileConfigError::ZeroIncomingMessageBytes
            },
            ControlLimitError::IncomingMessageBytesOutOfRange => {
                ProfileConfigError::IncomingMessageBytesOutOfRange
            },
        }
    }
}

impl ProfileLimits {
    /// The control limits that are checked.
    pub open spec fn checked(self) -> LocalControlLimits {
        LocalControlLimits {
            semantic_role: self.semantic_role.announced(),
            max_control_frame_bytes: self.max_control_frame_bytes,
            max_negotiation_frame_bytes: self.max_negotiation_frame_bytes,
            max_incoming_message_bytes: self.max_incoming_message_bytes,
        }
    }

    /// What stands against the profile, if anything. An incoming message has to fit into
    /// what reliable receiving can reassemble.
    pub open(crate) spec fn error(self) -> Option<ProfileConfigError> {
        match self.checked().error() {
            Some(error) => Some(shown_profile_error(error)),
            None => if self.max_incoming_message_bytes > usize::MAX {
                Some(ProfileConfigError::IncomingMessageBytesDoNotFitPlatform)
            } else if self.reliable_receive.max_staging_bytes.spec_get()
                < self.max_incoming_message_bytes {
                Some(ProfileConfigError::ReliableStagingBelowIncomingMessageCeiling)
            } else {
                None
            },
        }
    }

    pub fn validate(self, endpoint: EndpointConfig) -> (config: Result<
        ProfileConfig,
        ProfileConfigError,
    >)
        ensures
            match self.error() {
                Some(error) => config == Err::<ProfileConfig, _>(error),
                None => {
                    &&& config is Ok
                    &&& config->Ok_0.spec_limits() == self
                    &&& self.reliable_receive.wf()
                    &&& config->Ok_0.spec_profile().spec_resources() == endpoint.spec_resources()
                    &&& config->Ok_0.spec_profile().spec_local_settings()
                        == self.checked().settings(
                        endpoint.spec_resources().spec_max_active_incoming_flows(),
                    )
                },
            },
    {
        proof {
            use_type_invariant(&self.reliable_receive.scratch_bytes);
            use_type_invariant(&self.reliable_receive.max_staging_bytes);
        }
        let checked = LocalControlLimits {
            semantic_role: WireRole::from(self.semantic_role),
            max_control_frame_bytes: self.max_control_frame_bytes,
            max_negotiation_frame_bytes: self.max_negotiation_frame_bytes,
            max_incoming_message_bytes: self.max_incoming_message_bytes,
        };
        let inner = match checked.validate(endpoint.inner) {
            Ok(inner) => inner,
            Err(error) => return Err(ProfileConfigError::from(error)),
        };
        if self.max_incoming_message_bytes > usize::MAX as u64 {
            return Err(ProfileConfigError::IncomingMessageBytesDoNotFitPlatform);
        }
        let incoming_message_bytes: usize = self.max_incoming_message_bytes as usize;
        if self.reliable_receive.max_staging_bytes.get() < incoming_message_bytes {
            return Err(ProfileConfigError::ReliableStagingBelowIncomingMessageCeiling);
        }
        Ok(ProfileConfig { limits: self, inner })
    }
}

/// A profile that passed validation, bound to an endpoint's resources.
#[derive(Debug, Clone, Copy, PartialEq, Eq)]
pub struct ProfileConfig {
    pub(crate) limits: ProfileLimits,
    pub(crate) inner: ValidatedControlProfile,
}

impl ProfileConfig {
    pub open(crate) spec fn spec_limits(self) -> ProfileLimits {
        self.limits
    }

    pub open(crate) spec fn spec_profile(self) -> ValidatedControlProfile {
        self.inner
    }

    /// The limits of the baseline.
    pub open(crate) spec fn baseline_limits(
        semantic_role: SemanticRole,
        max_incoming_message_bytes: u64,
    ) -> ProfileLimits {
        ProfileLimits {
            semantic_role,
            max_control_frame_bytes: BASELINE_MAX_CONTROL_FRAME_BYTES,
            max_negotiation_frame_bytes: BASELINE_MAX_NEGOTIATION_FRAME_BYTES,
            max_incoming_message_bytes,
            reliable_receive: ReliableReceiveLimits {
                scratch_bytes: NonZeroSize { bytes: BASELINE_RELIABLE_SCRATCH_BYTES },
                max_staging_bytes: NonZeroSize { bytes: max_incoming_message_bytes as usize },
            },
        }
    }

    /// The named baseline for ordinary use: what is announced as the largest incoming
    /// message is also what can be reassembled.
    pub fn baseline(
        endpoint: EndpointConfig,
        semantic_role: SemanticRole,
        max_incoming_message_bytes: u64,
    ) -> (config: Result<Self, ProfileConfigError>)
        ensures
            max_incoming_message_bytes == 0 ==> config == Err::<ProfileConfig, _>(
                ProfileConfigError::ZeroIncomingMessageBytes,
            ),
            max_incoming_message_bytes > usize::MAX ==> config == Err::<ProfileConfig, _>(
                ProfileConfigError::IncomingMessageBytesDoNotFitPlatform,
            ),
            MAX_VARINT < max_incoming_message_bytes <= usize::MAX ==> config == Err::<
                ProfileConfig,
                _,
            >(ProfileConfigError::IncomingMessageBytesOutOfRange),
            0 < max_incoming_message_bytes <= MAX_VARINT && max_incoming_message_bytes
                <= usize::MAX ==> {
                let limits = ProfileConfig::baseline_limits(
                    semantic_role,
                    max_incoming_message_bytes,
                );
                &&& config is Ok
                &&& config->Ok_0.spec_limits() == limits
                &&& limits.reliable_receive.wf()
                &&& config->Ok_0.spec_profile().spec_resources() == endpoint.spec_resources()
                &&& config->Ok_0.spec_profile().spec_local_settings() == limits.checked().settings(
                    endpoint.spec_resources().spec_max_active_incoming_flows(),
                )
            },
    {
        if max_incoming_message_bytes == 0 {
            return Err(ProfileConfigError::ZeroIncomingMessageBytes);
        }
        if max_incoming_message_bytes > usize::MAX as u64 {
            return Err(ProfileConfigError::IncomingMessageBytesDoNotFitPlatform);
        }
        ProfileLimits {
            semantic_role,
            max_control_frame_bytes: BASELINE_MAX_CONTROL_FRAME_BYTES,
            max_negotiation_frame_bytes: BASELINE_MAX_NEGOTIATION_FRAME_BYTES,
            max_incoming_message_bytes,
            reliable_receive: ReliableReceiveLimits {
                scratch_bytes: NonZeroSize { bytes: BASELINE_RELIABLE_SCRATCH_BYTES },
                max_staging_bytes: NonZeroSize { bytes: max_incoming_message_bytes as usize },
            },
        }.validate(endpoint)
    }

    pub fn limits(self) -> (limits: ProfileLimits)
        ensures
            limits == self.spec_limits(),
    {
        self.limits
    }

    pub fn reliable_receive_limits(self) -> (limits: ReliableReceiveLimits)
        ensures
            limits == self.spec_limits().reliable_receive,
            limits.wf(),
    {
        proof {
            use_type_invariant(&self.limits.reliable_receive.scratch_bytes);
            use_type_invariant(&self.limits.reliable_receive.max_staging_bytes);
        }
        self.limits.reliable_receive
    }

    /// The profile, as the bootstrap announces it.
    pub fn profile(self) -> (profile: ValidatedControlProfile)
        ensures
            profile == self.spec_profile(),
    {
        self.inner
    }
}

/// A profile never announces a message that could not be reassembled.
pub proof fn law_profile_can_receive_what_it_announces(limits: ProfileLimits, flows: u64)
    requires
        limits.error() is None,
    ensures
        limits.checked().settings(flows).max_incoming_message_bytes
            <= limits.reliable_receive.max_staging_bytes.spec_get(),
        limits.checked().settings(flows).max_incoming_message_bytes > 0,
{
}

/// Why TLS material is refused.
#[derive(Debug, Clone, Copy, PartialEq, Eq, Structural)]
pub enum TlsMaterialError {
    EmptyClientTrust,
    EmptyServerCertificateChain,
}

/// What a client trusts: one certificate, or more.
#[derive(Debug, PartialEq, Eq)]
pub struct ClientTrust {
    pub(crate) certificates: Vec<CertificateDer<'static>>,
}

impl ClientTrust {
    #[verifier::type_invariant]
    pub open(crate) spec fn wf(self) -> bool {
        self.certificates@.len() > 0
    }

    /// Every certificate has a trust anchor.
    pub open(crate) spec fn is_anchored(self) -> bool {
        forall|i: int|
            0 <= i < self.certificates@.len() ==> anchor_of(#[trigger] self.certificates@[i])
                is Some
    }

    /// The anchors are those of the certificates, in their order.
    pub open(crate) spec fn has_anchors(self, anchors: Seq<Seq<u8>>) -> bool {
        &&& anchors.len() == self.certificates@.len()
        &&& anchors.len() > 0
        &&& forall|i: int|
            0 <= i < anchors.len() ==> Some(#[trigger] anchors[i]) == anchor_of(
                self.certificates@[i],
            )
    }

    pub open(crate) spec fn spec_certificates(self) -> Seq<CertificateDer<'static>> {
        self.certificates@
    }

    pub fn new(certificates: Vec<CertificateDer<'static>>) -> (trust: Result<
        Self,
        TlsMaterialError,
    >)
        ensures
            certificates@.len() == 0 ==> trust == Err::<ClientTrust, _>(
                TlsMaterialError::EmptyClientTrust,
            ),
            certificates@.len() > 0 ==> trust is Ok && trust->Ok_0.spec_certificates()
                == certificates@,
    {
        if certificates.len() == 0 {
            return Err(TlsMaterialError::EmptyClientTrust);
        }
        Ok(ClientTrust { certificates })
    }

    /// The trust anchors of all certificates. One certificate without an anchor refuses them
    /// all.
    pub fn into_root_store(self) -> (roots: Result<Arc<RootCertStore>, EndpointBindError>)
        ensures
            !self.is_anchored() ==> roots == Err::<Arc<RootCertStore>, _>(
                EndpointBindError::TrustCertificateRejected,
            ),
            self.is_anchored() ==> roots is Ok && self.has_anchors(trust_anchors(*roots->Ok_0)),
    {
        proof {
            use_type_invariant(&self);
        }
        let certificates = self.certificates;
        let mut roots = empty_root_store();
        let mut index: usize = 0;
        while index < certificates.len()
            invariant
                index <= certificates@.len(),
                certificates@ == self.certificates@,
                trust_anchors(roots).len() == index,
                forall|i: int|
                    0 <= i < index ==> Some(#[trigger] trust_anchors(roots)[i]) == anchor_of(
                        certificates@[i],
                    ),
            decreases certificates@.len() - index,
        {
            if add_root(&mut roots, &certificates[index]).is_err() {
                proof {
                    assert(anchor_of(self.certificates@[index as int]) is None);
                }
                return Err(EndpointBindError::TrustCertificateRejected);
            }
            index = index + 1;
        }
        proof {
            assert forall|i: int| 0 <= i < self.certificates@.len() implies anchor_of(
                #[trigger] self.certificates@[i],
            ) is Some by {
                assert(Some(trust_anchors(roots)[i]) == anchor_of(certificates@[i]));
            }
        }
        Ok(Arc::new(roots))
    }
}

impl Clone for ClientTrust {
    fn clone(&self) -> (copy: Self)
        ensures
            copy.spec_certificates() == self.spec_certificates(),
    {
        proof {
            use_type_invariant(self);
        }
        let certificates = self.certificates.clone();
        proof {
            assert forall|i: int| 0 <= i < certificates@.len() implies certificates@[i]
                == self.certificates@[i] by {
                assert(vstd::pervasive::cloned(self.certificates@[i], certificates@[i]));
            }
            assert(certificates@ =~= self.certificates@);
        }
        ClientTrust { certificates }
    }
}

/// What a server shows: a certificate chain that is not empty, and its private key.
#[derive(Debug)]
pub struct ServerIdentity {
    pub(crate) certificate_chain: Vec<CertificateDer<'static>>,
    pub(crate) private_key: PrivateKeyDer<'static>,
}

impl ServerIdentity {
    #[verifier::type_invariant]
    pub open(crate) spec fn wf(self) -> bool {
        self.certificate_chain@.len() > 0
    }

    pub open(crate) spec fn spec_chain(self) -> Seq<CertificateDer<'static>> {
        self.certificate_chain@
    }

    pub open(crate) spec fn spec_key(self) -> PrivateKeyDer<'static> {
        self.private_key
    }

    pub fn new(
        certificate_chain: Vec<CertificateDer<'static>>,
        private_key: PrivateKeyDer<'static>,
    ) -> (identity: Result<Self, TlsMaterialError>)
        ensures
            certificate_chain@.len() == 0 ==> identity == Err::<ServerIdentity, _>(
                TlsMaterialError::EmptyServerCertificateChain,
            ),
            certificate_chain@.len() > 0 ==> identity is Ok && identity->Ok_0.spec_chain()
                == certificate_chain@ && identity->Ok_0.spec_key() == private_key,
    {
        if certificate_chain.len() == 0 {
            return Err(TlsMaterialError::EmptyServerCertificateChain);
        }
        Ok(ServerIdentity { certificate_chain, private_key })
    }

    /// The certificate chain and the key, to configure TLS with.
    pub fn into_parts(self) -> (parts: (Vec<CertificateDer<'static>>, PrivateKeyDer<'static>))
        ensures
            parts.0@ == self.spec_chain(),
            parts.1 == self.spec_key(),
    {
        (self.certificate_chain, self.private_key)
    }
}

/// Why an endpoint is not bound.
#[derive(Debug)]
pub enum EndpointBindError {
    TrustCertificateRejected,
    TlsConfigurationRejected,
    TransportConfigurationRejected,
    Io(std::io::Error),
}

/// The error that the application sees.
pub open spec fn shown_build_error(error: EndpointBuildError) -> EndpointBindError {
    match error {
        EndpointBuildError::EmptyTrustRoots => EndpointBindError::TrustCertificateRejected,
        EndpointBuildError::EmptyCertificateChain => EndpointBindError::TlsConfigurationRejected,
        EndpointBuildError::Rustls(_) => EndpointBindError::TlsConfigurationRejected,
        EndpointBuildError::MissingInitialCipherSuite(_) => {
            EndpointBindError::TlsConfigurationRejected
        },
        EndpointBuildError::EndpointConfigRejected => {
            EndpointBindError::TransportConfigurationRejected
        },
        EndpointBuildError::Io(error) => EndpointBindError::Io(error),
    }
}

impl vstd::std_specs::convert::FromSpecImpl<EndpointBuildError> for EndpointBindError {
    open spec fn obeys_from_spec() -> bool {
        true
    }

    open spec fn from_spec(error: EndpointBuildError) -> EndpointBindError {
        shown_build_error(error)
    }
}

impl From<EndpointBuildError> for EndpointBindError {
    fn from(error: EndpointBuildError) -> Self {
        match error {
            EndpointBuildError::EmptyTrustRoots => EndpointBindError::TrustCertificateRejected,
            EndpointBuildError::EmptyCertificateChain
            | EndpointBuildError::Rustls(_)
            | EndpointBuildError::MissingInitialCipherSuite(_) => {
                EndpointBindError::TlsConfigurationRejected
            },
            EndpointBuildError::EndpointConfigRejected => {
                EndpointBindError::TransportConfigurationRejected
            },
            EndpointBuildError::Io(error) => EndpointBindError::Io(error),
        }
    }
}

/// How a bootstrap fails, as far as an application tells failures apart.
#[derive(Debug, Clone, Copy, PartialEq, Eq, Structural)]
pub enum ProfileBootstrapFailure {
    Transport,
    HandshakeMetadata,
    Alpn,
    DatagramUnsupported,
    Control,
    Settings,
    RoleMismatch,
    ProtocolState,
}

/// The kind of a failed bootstrap.
pub open spec fn bootstrap_failure(error: ProfileBootstrapError) -> ProfileBootstrapFailure {
    match error {
        ProfileBootstrapError::Connection(_) => ProfileBootstrapFailure::Transport,
        ProfileBootstrapError::MissingHandshakeData => ProfileBootstrapFailure::HandshakeMetadata,
        ProfileBootstrapError::UnexpectedHandshakeDataType => {
            ProfileBootstrapFailure::HandshakeMetadata
        },
        ProfileBootstrapError::WrongAlpn => ProfileBootstrapFailure::Alpn,
        ProfileBootstrapError::DatagramUnsupported => ProfileBootstrapFailure::DatagramUnsupported,
        ProfileBootstrapError::Frame(_) => ProfileBootstrapFailure::Control,
        ProfileBootstrapError::Settings(_) => ProfileBootstrapFailure::Settings,
        ProfileBootstrapError::PeerRoleMismatch { .. } => ProfileBootstrapFailure::RoleMismatch,
        _ => ProfileBootstrapFailure::ProtocolState,
    }
}

impl<'a> vstd::std_specs::convert::FromSpecImpl<&'a ProfileBootstrapError> for ProfileBootstrapFailure {
    open spec fn obeys_from_spec() -> bool {
        true
    }

    open spec fn from_spec(error: &'a ProfileBootstrapError) -> ProfileBootstrapFailure {
        bootstrap_failure(*error)
    }
}

impl<'a> From<&'a ProfileBootstrapError> for ProfileBootstrapFailure {
    fn from(error: &'a ProfileBootstrapError) -> Self {
        match error {
            ProfileBootstrapError::Connection(_) => ProfileBootstrapFailure::Transport,
            ProfileBootstrapError::MissingHandshakeData
            | ProfileBootstrapError::UnexpectedHandshakeDataType => {
                ProfileBootstrapFailure::HandshakeMetadata
            },
            ProfileBootstrapError::WrongAlpn => ProfileBootstrapFailure::Alpn,
            ProfileBootstrapError::DatagramUnsupported => {
                ProfileBootstrapFailure::DatagramUnsupported
            },
            ProfileBootstrapError::Frame(_) => ProfileBootstrapFailure::Control,
            ProfileBootstrapError::Settings(_) => ProfileBootstrapFailure::Settings,
            ProfileBootstrapError::PeerRoleMismatch { .. } => ProfileBootstrapFailure::RoleMismatch,
            ProfileBootstrapError::WrongQuicSide { .. }
            | ProfileBootstrapError::ZeroRttControlStream
            | ProfileBootstrapError::UnexpectedFrameBeforeReady(_)
            | ProfileBootstrapError::DuplicateSettings
            | ProfileBootstrapError::SettingsAfterReady
            | ProfileBootstrapError::SettingsOwnedByBootstrap
            | ProfileBootstrapError::ControlChannelPoisoned => {
                ProfileBootstrapFailure::ProtocolState
            },
        }
    }
}

/// How a connection fails before its profile is ready, as far as an application tells
/// failures apart.
#[derive(Debug, Clone, Copy, PartialEq, Eq, Structural)]
pub enum ProfileConnectionErrorKind {
    ConfigurationMismatch,
    AdmissionAtCapacity,
    ConnectSetup,
    Handshake,
    Bootstrap(ProfileBootstrapFailure),
}

/// A connection that failed before its profile was ready.
#[derive(Debug, PartialEq, Eq)]
pub struct ProfileConnectionError {
    pub(crate) kind: ProfileConnectionErrorKind,
    pub(crate) diagnostic: Option<ConnectionError>,
}

/// The kind of a failed connection.
pub open spec fn connection_error_kind(error: ConnectionError) -> ProfileConnectionErrorKind {
    match error {
        ConnectionError::Admission(_) => ProfileConnectionErrorKind::AdmissionAtCapacity,
        ConnectionError::Preflight(_) => ProfileConnectionErrorKind::ConfigurationMismatch,
        ConnectionError::Connect(_) => ProfileConnectionErrorKind::ConnectSetup,
        ConnectionError::Handshake(_) => ProfileConnectionErrorKind::Handshake,
        ConnectionError::Bootstrap(error) => ProfileConnectionErrorKind::Bootstrap(
            bootstrap_failure(error),
        ),
    }
}

/// The error that the application sees: its kind, and what lies behind it unless the
/// endpoint was merely full.
pub open(crate) spec fn shown_connection_error(error: ConnectionError) -> ProfileConnectionError {
    ProfileConnectionError {
        kind: connection_error_kind(error),
        diagnostic: if error is Admission {
            None
        } else {
            Some(error)
        },
    }
}

impl ProfileConnectionError {
    pub open(crate) spec fn spec_kind(self) -> ProfileConnectionErrorKind {
        self.kind
    }

    pub open(crate) spec fn spec_diagnostic(self) -> Option<ConnectionError> {
        self.diagnostic
    }

    pub fn kind(&self) -> (kind: ProfileConnectionErrorKind)
        ensures
            kind == self.spec_kind(),
    {
        self.kind
    }

    /// What lies behind the error, for diagnostics.
    pub fn diagnostic(&self) -> (diagnostic: Option<&ConnectionError>)
        ensures
            match self.spec_diagnostic() {
                Some(error) => diagnostic is Some && *diagnostic->0 == error,
                None => diagnostic is None,
            },
    {
        self.diagnostic.as_ref()
    }
}

impl vstd::std_specs::convert::FromSpecImpl<ConnectionError> for ProfileConnectionError {
    open(crate) spec fn obeys_from_spec() -> bool {
        true
    }

    open(crate) spec fn from_spec(error: ConnectionError) -> ProfileConnectionError {
        shown_connection_error(error)
    }
}

impl From<ConnectionError> for ProfileConnectionError {
    fn from(error: ConnectionError) -> Self {
        let kind = match &error {
            ConnectionError::Admission(_) => {
                return ProfileConnectionError {
                    kind: ProfileConnectionErrorKind::AdmissionAtCapacity,
                    diagnostic: None,
                }
            },
            ConnectionError::Preflight(_) => ProfileConnectionErrorKind::ConfigurationMismatch,
            ConnectionError::Connect(_) => ProfileConnectionErrorKind::ConnectSetup,
            ConnectionError::Handshake(_) => ProfileConnectionErrorKind::Handshake,
            ConnectionError::Bootstrap(error) => ProfileConnectionErrorKind::Bootstrap(
                ProfileBootstrapFailure::from(error),
            ),
        };
        ProfileConnectionError { kind, diagnostic: Some(error) }
    }
}

/// A connection whose profile is ready, with what reliable receiving may use.
#[derive(Debug)]
pub struct ProfileReadyConnection {
    pub(crate) inner: AdmittedProfileReadyConnection,
    pub(crate) reliable_receive: ReliableReceiveLimits,
}

impl ProfileReadyConnection {
    pub open(crate) spec fn spec_inner(self) -> AdmittedProfileReadyConnection {
        self.inner
    }

    pub open(crate) spec fn spec_reliable_receive(self) -> ReliableReceiveLimits {
        self.reliable_receive
    }

    pub fn from_profile(
        inner: AdmittedProfileReadyConnection,
        reliable_receive: ReliableReceiveLimits,
    ) -> (connection: Self)
        ensures
            connection.spec_inner() == inner,
            connection.spec_reliable_receive() == reliable_receive,
    {
        ProfileReadyConnection { inner, reliable_receive }
    }

    pub fn into_parts(self) -> (parts: (AdmittedProfileReadyConnection, ReliableReceiveLimits))
        ensures
            parts.0 == self.spec_inner(),
            parts.1 == self.spec_reliable_receive(),
    {
        (self.inner, self.reliable_receive)
    }
}

/// What an endpoint is closed with.
pub open spec fn shutdown_order() -> CloseOrder {
    CloseOrder { code: ApplicationErrorCode::NoError, reason: CloseReason::EndpointShutdown }
}

/// What asking an endpoint for a connection comes to.
pub open(crate) spec fn admitted(
    before: ConfiguredEndpoint,
    after: ConfiguredEndpoint,
    profile: ProfileConfig,
    side: WireSide,
    permit: Result<ConnectionSlotPermit, ProfileConnectionError>,
) -> bool {
    match preflight_error(
        before.spec_side(),
        before.spec_resources(),
        profile.spec_profile(),
        side,
    ) {
        Some(error) => {
            &&& permit == Err::<ConnectionSlotPermit, _>(
                shown_connection_error(ConnectionError::Preflight(error)),
            )
            &&& after == before
        },
        None => if before.spec_connections() < before.spec_resources().spec_max_connections() {
            permit is Ok && after == before.holding(before.spec_connections() + 1)
        } else {
            &&& permit == Err::<ConnectionSlotPermit, _>(
                shown_connection_error(
                    ConnectionError::Admission(ConnectionAdmissionError::AtCapacity),
                ),
            )
            &&& after == before
        },
    }
}

/// What the socket of a client is bound with.
pub struct ClientBinding {
    pub endpoint_config: QuicEndpointConfig,
    pub client_config: quinn::ClientConfig,
}

/// What the socket of a server is bound with.
pub struct ServerBinding {
    pub endpoint_config: QuicEndpointConfig,
    pub server_config: quinn::ServerConfig,
}

/// A client's endpoint is there, without connections, and so is what it is bound with.
pub open(crate) spec fn client_bound(
    config: EndpointConfig,
    trust: ClientTrust,
    endpoint: ClientEndpoint,
    binding: ClientBinding,
) -> bool {
    &&& endpoint.inner.is_fresh(WireSide::Client, config.inner)
    &&& is_endpoint_plan(endpoint_settings(binding.endpoint_config), config.inner)
    &&& is_client_plan(
        client_settings(binding.client_config),
        config.inner,
        client_settings(binding.client_config).tls.anchors,
    )
    &&& trust.has_anchors(client_settings(binding.client_config).tls.anchors)
}

/// A server's endpoint is there, without connections, and so is what it is bound with.
pub open(crate) spec fn server_bound(
    config: EndpointConfig,
    identity: ServerIdentity,
    endpoint: ServerEndpoint,
    binding: ServerBinding,
) -> bool {
    &&& endpoint.inner.is_fresh(WireSide::Server, config.inner)
    &&& is_endpoint_plan(endpoint_settings(binding.endpoint_config), config.inner)
    &&& is_server_plan(
        server_settings(binding.server_config),
        config.inner,
        identity.spec_chain(),
        identity.spec_key(),
    )
}

/// The client's endpoint.
#[derive(Debug)]
pub struct ClientEndpoint {
    pub(crate) inner: ConfiguredEndpoint,
}

impl ClientEndpoint {
    pub open(crate) spec fn spec_inner(self) -> ConfiguredEndpoint {
        self.inner
    }

    /// An endpoint without connections, and what its socket is bound with. One certificate
    /// without a trust anchor refuses it.
    pub fn bind(config: EndpointConfig, trust: ClientTrust) -> (bound: Result<
        (Self, ClientBinding),
        EndpointBindError,
    >)
        ensures
            !trust.is_anchored() ==> bound == Err::<(ClientEndpoint, ClientBinding), _>(
                EndpointBindError::TrustCertificateRejected,
            ),
            trust.is_anchored() ==> bound is Ok && client_bound(
                config,
                trust,
                bound->Ok_0.0,
                bound->Ok_0.1,
            ),
    {
        let roots = match trust.into_root_store() {
            Ok(roots) => roots,
            Err(error) => return Err(error),
        };
        let client_config = match build_client_config(config.inner, roots) {
            Ok(client_config) => client_config,
            Err(error) => return Err(EndpointBindError::from(error)),
        };
        let endpoint_config = match build_endpoint_config(config.inner) {
            Ok(endpoint_config) => endpoint_config,
            Err(error) => return Err(EndpointBindError::from(error)),
        };
        let inner = ConfiguredEndpoint::new(WireSide::Client, config.inner);
        Ok((ClientEndpoint { inner }, ClientBinding { endpoint_config, client_config }))
    }

    /// Takes one connection for a profile, before the server is connected to.
    pub fn acquire(&mut self, profile: ProfileConfig) -> (permit: Result<
        ConnectionSlotPermit,
        ProfileConnectionError,
    >)
        ensures
            admitted(
                old(self).spec_inner(),
                final(self).spec_inner(),
                profile,
                WireSide::Client,
                permit,
            ),
    {
        match admit_connection(&mut self.inner, profile.inner, WireSide::Client) {
            Ok(permit) => Ok(permit),
            Err(error) => Err(ProfileConnectionError::from(error)),
        }
    }

    /// Gives a connection back.
    pub fn release(&mut self, permit: ConnectionSlotPermit)
        ensures
            final(self).spec_inner() == old(self).spec_inner().holding(
                if old(self).spec_inner().spec_connections() > 0 && permit.spec_side() == old(
                    self,
                ).spec_inner().spec_side() {
                    old(self).spec_inner().spec_connections() - 1
                } else {
                    old(self).spec_inner().spec_connections() as int
                },
            ),
    {
        self.inner.release_connection_slot(permit);
    }

    /// How the endpoint and its connections are closed.
    pub fn close(&self) -> (order: CloseOrder)
        ensures
            order == shutdown_order(),
    {
        CloseOrder { code: ApplicationErrorCode::NoError, reason: CloseReason::EndpointShutdown }
    }
}

/// The server's endpoint.
#[derive(Debug)]
pub struct ServerEndpoint {
    pub(crate) inner: ConfiguredEndpoint,
}

impl ServerEndpoint {
    pub open(crate) spec fn spec_inner(self) -> ConfiguredEndpoint {
        self.inner
    }

    /// An endpoint without connections, and what its socket is bound with. An identity that
    /// TLS does not take refuses it.
    pub fn bind(config: EndpointConfig, identity: ServerIdentity) -> (bound: Result<
        (Self, ServerBinding),
        EndpointBindError,
    >)
        ensures
            !identity_accepted(identity.spec_chain(), identity.spec_key()) ==> bound == Err::<
                (ServerEndpoint, ServerBinding),
                _,
            >(EndpointBindError::TlsConfigurationRejected),
            identity_accepted(identity.spec_chain(), identity.spec_key()) ==> bound is Ok
                && server_bound(config, identity, bound->Ok_0.0, bound->Ok_0.1),
    {
        proof {
            use_type_invariant(&identity);
        }
        let (certificate_chain, private_key) = identity.into_parts();
        let server_config = match build_server_config(
            config.inner,
            certificate_chain,
            private_key,
        ) {
            Ok(server_config) => server_config,
            Err(error) => return Err(EndpointBindError::from(error)),
        };
        let endpoint_config = match build_endpoint_config(config.inner) {
            Ok(endpoint_config) => endpoint_config,
            Err(error) => return Err(EndpointBindError::from(error)),
        };
        let inner = ConfiguredEndpoint::new(WireSide::Server, config.inner);
        Ok((ServerEndpoint { inner }, ServerBinding { endpoint_config, server_config }))
    }

    /// Checks a profile, before a client is waited for.
    pub fn preflight(&self, profile: ProfileConfig) -> (checked: Result<(), ProfileConnectionError>)
        ensures
            match preflight_error(
                self.spec_inner().spec_side(),
                self.spec_inner().spec_resources(),
                profile.spec_profile(),
                WireSide::Server,
            ) {
                Some(error) => checked == Err::<(), _>(
                    shown_connection_error(ConnectionError::Preflight(error)),
                ),
                None => checked is Ok,
            },
    {
        match crate::lifecycle::validate_preflight(
            self.inner.side(),
            self.inner.resources(),
            profile.inner,
            WireSide::Server,
        ) {
            Ok(()) => Ok(()),
            Err(error) => Err(ProfileConnectionError::from(ConnectionError::Preflight(error))),
        }
    }

    /// Takes one connection for a profile, once a client is there. Where none can be taken,
    /// the client is refused.
    pub fn acquire(&mut self, profile: ProfileConfig) -> (permit: Result<
        ConnectionSlotPermit,
        ProfileConnectionError,
    >)
        ensures
            admitted(
                old(self).spec_inner(),
                final(self).spec_inner(),
                profile,
                WireSide::Server,
                permit,
            ),
    {
        match admit_connection(&mut self.inner, profile.inner, WireSide::Server) {
            Ok(permit) => Ok(permit),
            Err(error) => Err(ProfileConnectionError::from(error)),
        }
    }

    /// Gives a connection back.
    pub fn release(&mut self, permit: ConnectionSlotPermit)
        ensures
            final(self).spec_inner() == old(self).spec_inner().holding(
                if old(self).spec_inner().spec_connections() > 0 && permit.spec_side() == old(
                    self,
                ).spec_inner().spec_side() {
                    old(self).spec_inner().spec_connections() - 1
                } else {
                    old(self).spec_inner().spec_connections() as int
                },
            ),
    {
        self.inner.release_connection_slot(permit);
    }

    /// How the endpoint and its connections are closed.
    pub fn close(&self) -> (order: CloseOrder)
        ensures
            order == shutdown_order(),
    {
        CloseOrder { code: ApplicationErrorCode::NoError, reason: CloseReason::EndpointShutdown }
    }
}

/// Every refusal of resources and of a profile is shown as what it is, and no two as the same.
pub proof fn law_refusals_are_shown_as_they_are(error: ResourceError, profile: ControlLimitError)
    ensures
        shown_resource_error(error) is ZeroConnections <==> error is ZeroConnections,
        shown_resource_error(error) is ZeroIncomingFlows <==> error is ZeroIncomingFlows,
        shown_resource_error(error) is UdpPayloadBelowMinimum <==> error is UdpPayloadBelowMinimum,
        shown_resource_error(error) is UdpPayloadAboveMaximum <==> error is UdpPayloadAboveMaximum,
        shown_resource_error(error) is ZeroStreamReceiveWindow <==> error is ZeroStreamReceiveWindow,
        shown_resource_error(error) is StreamReceiveWindowOutOfRange <==> error is StreamReceiveWindowOutOfRange,
        shown_resource_error(error) is ZeroConnectionReceiveWindow <==> error is ZeroConnectionReceiveWindow,
        shown_resource_error(error) is ConnectionReceiveWindowOutOfRange <==> error is ConnectionReceiveWindowOutOfRange,
        shown_resource_error(error) is ConnectionReceiveWindowBelowStream <==> error is ConnectionReceiveWindowBelowStream,
        shown_resource_error(error) is ZeroSendWindow <==> error is ZeroSendWindow,
        shown_resource_error(error) is ZeroCryptoBuffer <==> error is ZeroCryptoBuffer,
        shown_resource_error(error) is ZeroDatagramReceiveBuffer <==> error is ZeroDatagramReceiveBuffer,
        shown_resource_error(error) is DatagramReceiveBufferBelowUdpCeiling <==> error is DatagramReceiveBufferBelowUdpCeiling,
        shown_resource_error(error) is ZeroDatagramSendBuffer <==> error is ZeroDatagramSendBuffer,
        shown_resource_error(error) is DatagramSendBufferBelowUdpCeiling <==> error is DatagramSendBufferBelowUdpCeiling,
        shown_resource_error(error) is ZeroIdleTimeout <==> error is ZeroIdleTimeout,
        shown_resource_error(error) is IdleTimeoutOutOfRange <==> error is IdleTimeoutOutOfRange,
        shown_resource_error(error) is IncomingFlowsExceedQuicStreamLimit <==> error
            is IncomingFlowsOutOfRange,
        shown_profile_error(profile) is ControlFrameTooSmall <==> profile is ControlFrameTooSmall,
        shown_profile_error(profile) is ControlFrameOutOfRange <==> profile is ControlFrameOutOfRange,
        shown_profile_error(profile) is NegotiationFrameTooSmall <==> profile is NegotiationFrameTooSmall,
        shown_profile_error(profile) is NegotiationFrameOutOfRange <==> profile is NegotiationFrameOutOfRange,
        shown_profile_error(profile) is NegotiationExceedsControl <==> profile is NegotiationExceedsControl,
        shown_profile_error(profile) is ZeroIncomingMessageBytes <==> profile is ZeroIncomingMessageBytes,
        shown_profile_error(profile) is IncomingMessageBytesOutOfRange <==> profile is IncomingMessageBytesOutOfRange,
{
}

/// The limits of an endpoint and of a profile are checked as they were given, one by one; an
/// authority is announced as one, and nobody else is.
pub proof fn law_limits_are_checked_as_given(
    endpoint: EndpointResourceLimits,
    profile: ProfileLimits,
)
    ensures
        endpoint.checked().max_connections == endpoint.max_connections,
        endpoint.checked().max_active_incoming_flows == endpoint.max_active_incoming_flows,
        endpoint.checked().udp_payload_ceiling == endpoint.udp_payload_ceiling,
        endpoint.checked().stream_receive_window == endpoint.stream_receive_window,
        endpoint.checked().connection_receive_window == endpoint.connection_receive_window,
        endpoint.checked().send_window == endpoint.send_window,
        endpoint.checked().crypto_buffer_bytes == endpoint.crypto_buffer_bytes,
        endpoint.checked().datagram_receive_buffer_bytes == endpoint.datagram_receive_buffer_bytes,
        endpoint.checked().datagram_send_buffer_bytes == endpoint.datagram_send_buffer_bytes,
        endpoint.checked().max_idle_timeout == endpoint.max_idle_timeout,
        profile.checked().semantic_role == WireRole::Authority <==> profile.semantic_role
            == SemanticRole::Authority,
        profile.checked().semantic_role == WireRole::NonAuthority <==> profile.semantic_role
            == SemanticRole::NonAuthority,
        profile.checked().max_control_frame_bytes == profile.max_control_frame_bytes,
        profile.checked().max_negotiation_frame_bytes == profile.max_negotiation_frame_bytes,
        profile.checked().max_incoming_message_bytes == profile.max_incoming_message_bytes,
{
}

/// A profile is taken exactly where its control limits are and the largest message that it
/// announces can be reassembled on this machine. A fault of the control limits is told before
/// either of the other two.
pub proof fn law_profiles_are_taken_where_they_can_be_kept(limits: ProfileLimits)
    ensures
        ({
            let bytes = limits.max_incoming_message_bytes;
            let staging = limits.reliable_receive.max_staging_bytes.spec_get();
            let sound = limits.checked().error() is None;
            &&& limits.error() is None <==> sound && bytes <= usize::MAX && bytes <= staging
            &&& limits.error() == Some(ProfileConfigError::IncomingMessageBytesDoNotFitPlatform)
                <==> sound && bytes > usize::MAX
            &&& limits.error() == Some(
                ProfileConfigError::ReliableStagingBelowIncomingMessageCeiling,
            ) <==> sound && staging < bytes <= usize::MAX
            &&& !sound ==> limits.error() == Some(
                shown_profile_error(limits.checked().error()->0),
            )
        }),
{
}

/// The baseline leaves the host its two choices. It passes validation with every choice that
/// is neither nothing nor beyond the range, one stream never takes the whole receive window of
/// its connection, datagram buffers hold many datagrams, and the timeout is half a minute.
pub proof fn law_baseline_passes_validation(
    limits: EndpointResourceLimits,
    max_connections: usize,
    max_active_incoming_flows: u64,
)
    requires
        is_baseline(limits, max_connections, max_active_incoming_flows),
    ensures
        limits.max_connections == max_connections,
        limits.max_active_incoming_flows == max_active_incoming_flows,
        limits.checked().error() is None <==> max_connections > 0 && 0 < max_active_incoming_flows
            <= MAX_VARINT,
        limits.udp_payload_ceiling == 1_452,
        limits.stream_receive_window == 64 * 1_024,
        limits.connection_receive_window == 4 * limits.stream_receive_window,
        limits.send_window == limits.connection_receive_window,
        limits.crypto_buffer_bytes == 32 * 1_024,
        limits.datagram_receive_buffer_bytes == 64 * 1_024,
        limits.datagram_send_buffer_bytes == limits.datagram_receive_buffer_bytes,
        duration_nanos(limits.max_idle_timeout) == 30_000_000_000,
{
}

/// The baseline of a profile announces the role and the largest message that the host chose,
/// can reassemble exactly that message, and passes validation wherever the message can be
/// announced and held.
pub proof fn law_baseline_profile_passes_validation(
    semantic_role: SemanticRole,
    max_incoming_message_bytes: u64,
)
    requires
        max_incoming_message_bytes <= usize::MAX,
    ensures
        ({
            let limits = ProfileConfig::baseline_limits(semantic_role, max_incoming_message_bytes);
            &&& limits.semantic_role == semantic_role
            &&& limits.max_incoming_message_bytes == max_incoming_message_bytes
            &&& limits.reliable_receive.max_staging_bytes.spec_get() == max_incoming_message_bytes
            &&& limits.reliable_receive.scratch_bytes.spec_get() == 4 * 1_024
            &&& limits.max_control_frame_bytes == 64 * 1_024
            &&& limits.max_negotiation_frame_bytes == 32 * 1_024
            &&& limits.error() is None <==> 0 < max_incoming_message_bytes <= MAX_VARINT
        }),
{
}

/// An endpoint that is not bound is told whether its trust, its TLS material, its transport or
/// the system is why.
pub proof fn law_bind_errors_are_told_apart(error: EndpointBuildError)
    ensures
        shown_build_error(error) is TrustCertificateRejected <==> error is EmptyTrustRoots,
        shown_build_error(error) is TlsConfigurationRejected <==> error is EmptyCertificateChain
            || error is Rustls || error is MissingInitialCipherSuite,
        shown_build_error(error) is TransportConfigurationRejected <==> error
            is EndpointConfigRejected,
        error matches EndpointBuildError::Io(cause) ==> shown_build_error(error)
            == EndpointBindError::Io(cause),
{
}

/// A failed connection is told by its kind: each of the five ways to fail has its own, and a
/// failed bootstrap tells which part of it failed. What lies behind it is kept, as it is,
/// unless the endpoint was merely full.
pub proof fn law_connection_errors_are_told_apart(
    error: ConnectionError,
    bootstrap: ProfileBootstrapError,
)
    ensures
        ({
            let shown = shown_connection_error(error);
            &&& shown.spec_kind() is AdmissionAtCapacity <==> error is Admission
            &&& shown.spec_kind() is ConfigurationMismatch <==> error is Preflight
            &&& shown.spec_kind() is ConnectSetup <==> error is Connect
            &&& shown.spec_kind() is Handshake <==> error is Handshake
            &&& error matches ConnectionError::Bootstrap(inner) ==> shown.spec_kind()
                == ProfileConnectionErrorKind::Bootstrap(bootstrap_failure(inner))
            &&& shown.spec_diagnostic() is None <==> error is Admission
            &&& shown.spec_diagnostic() is Some ==> shown.spec_diagnostic()->0 == error
        }),
        bootstrap_failure(bootstrap) is Transport <==> bootstrap is Connection,
        bootstrap_failure(bootstrap) is HandshakeMetadata <==> bootstrap is MissingHandshakeData
            || bootstrap is UnexpectedHandshakeDataType,
        bootstrap_failure(bootstrap) is Alpn <==> bootstrap is WrongAlpn,
        bootstrap_failure(bootstrap) is DatagramUnsupported <==> bootstrap is DatagramUnsupported,
        bootstrap_failure(bootstrap) is Control <==> bootstrap is Frame,
        bootstrap_failure(bootstrap) is Settings <==> bootstrap is Settings,
        bootstrap_failure(bootstrap) is RoleMismatch <==> bootstrap is PeerRoleMismatch,
{
}

/// A connection is taken exactly where the endpoint is on the wanted side, the profile was
/// made for its resources and fewer connections are held than there may be. One more is held
/// then, and otherwise nothing changes; a full endpoint is told from a wrong profile.
pub proof fn law_connections_are_taken_within_the_limit(
    before: ConfiguredEndpoint,
    after: ConfiguredEndpoint,
    profile: ProfileConfig,
    side: WireSide,
    permit: Result<ConnectionSlotPermit, ProfileConnectionError>,
)
    requires
        admitted(before, after, profile, side, permit),
    ensures
        ({
            let own = before.spec_side() == side && before.spec_resources()
                == profile.spec_profile().spec_resources();
            let room = before.spec_connections() < before.spec_resources().spec_max_connections();
            &&& permit is Ok <==> own && room
            &&& permit is Ok ==> after.spec_connections() == before.spec_connections() + 1
                && after.spec_side() == before.spec_side() && after.spec_resources()
                == before.spec_resources()
            &&& permit is Err ==> after == before
            &&& permit matches Err(error) ==> (error.spec_kind() is AdmissionAtCapacity <==> own)
                && (error.spec_kind() is ConfigurationMismatch <==> !own)
        }),
{
}

/// An endpoint is closed without an error, and a close with any other number is one.
pub proof fn law_endpoints_close_without_an_error(code: ApplicationErrorCode)
    ensures
        shutdown_order().code.number() == 0,
        code.number() == 0 <==> code == shutdown_order().code,
        shutdown_order().reason.words() == CloseReason::EndpointShutdown.words(),
{
}

/// A bound endpoint is on its own side, has its resources and holds no connection. The client
/// trusts the anchors of the certificates that it was given, all of them and no others; the
/// server shows the identity that it was given.
pub proof fn law_bound_endpoints_are_what_was_asked_for(
    config: EndpointConfig,
    trust: ClientTrust,
    identity: ServerIdentity,
    client: ClientEndpoint,
    server: ServerEndpoint,
    at_client: ClientBinding,
    at_server: ServerBinding,
)
    requires
        client_bound(config, trust, client, at_client),
        server_bound(config, identity, server, at_server),
    ensures
        client.spec_inner().spec_side() == WireSide::Client,
        client.spec_inner().spec_resources() == config.spec_resources(),
        client.spec_inner().spec_connections() == 0,
        server.spec_inner().spec_side() == WireSide::Server,
        server.spec_inner().spec_resources() == config.spec_resources(),
        server.spec_inner().spec_connections() == 0,
        ({
            let anchors = client_settings(at_client.client_config).tls.anchors;
            &&& anchors.len() == trust.spec_certificates().len()
            &&& forall|i: int|
                0 <= i < anchors.len() ==> anchor_of(trust.spec_certificates()[i]) == Some(
                    #[trigger] anchors[i],
                )
        }),
        is_endpoint_plan(endpoint_settings(at_client.endpoint_config), config.spec_resources()),
        is_endpoint_plan(endpoint_settings(at_server.endpoint_config), config.spec_resources()),
        is_client_plan(
            client_settings(at_client.client_config),
            config.spec_resources(),
            client_settings(at_client.client_config).tls.anchors,
        ),
        is_server_plan(
            server_settings(at_server.server_config),
            config.spec_resources(),
            identity.spec_chain(),
            identity.spec_key(),
        ),
{
}

/// A client's trust is anchored exactly where each of its certificates is an anchor by itself;
/// one that is none spoils it, wherever it stands. There is then one list of anchors, and it is
/// never empty.
pub proof fn law_one_bad_certificate_spoils_the_trust(
    trust: ClientTrust,
    left: Seq<Seq<u8>>,
    right: Seq<Seq<u8>>,
    i: int,
)
    requires
        0 <= i < trust.spec_certificates().len(),
    ensures
        anchor_of(trust.spec_certificates()[i]) is None ==> !trust.is_anchored(),
        (forall|j: int|
            0 <= j < trust.spec_certificates().len() ==> anchor_of(
                #[trigger] trust.spec_certificates()[j],
            ) is Some) ==> trust.is_anchored(),
        trust.has_anchors(left) ==> trust.is_anchored() && left.len() > 0,
        trust.has_anchors(left) && trust.has_anchors(right) ==> left == right,
        left.len() == 0 ==> !trust.has_anchors(left),
{
    if trust.has_anchors(left) {
        assert forall|j: int| 0 <= j < trust.spec_certificates().len() implies anchor_of(
            #[trigger] trust.spec_certificates()[j],
        ) is Some by {
            assert(Some(left[j]) == anchor_of(trust.spec_certificates()[j]));
        }
        if trust.has_anchors(right) {
            assert forall|j: int| 0 <= j < left.len() implies left[j] == right[j] by {
                assert(Some(left[j]) == Some(right[j]));
            }
            assert(left =~= right);
        }
    }
}

} // verus!
