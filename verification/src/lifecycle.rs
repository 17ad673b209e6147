//! The life of a connection: who may connect, what a failure is closed with, and what is
//! left at the end.

use vstd::prelude::*;

use crate::control::{
    ConnectionFailure, ControlFrameError, ControlReceiver, ControlSender, ProfileBootstrapError,
    ProfileReadyParts, ReadFailure, ValidatedControlProfile, WriteFailure,
};
use crate::delivery::{ConnectionHandle, FlowTermination};
use crate::endpoint::{
    ConfiguredEndpoint, ConnectionAdmissionError, ConnectionSlotPermit,
    ValidatedEndpointResources,
};
use crate::flow_control::{config_error, FlowControl, FlowControlConfigError, FlowControlError};
use crate::negotiation::{NegotiationControlError, NegotiationExchange};
use crate::protocol::NegotiationManagerError;
use crate::wire::{ApplicationErrorCode, WireSide};

verus! {

/// What a close tells in words.
#[derive(Debug, Clone, Copy, PartialEq, Eq, Structural)]
pub enum CloseReason {
    ProfileBootstrap,
    ProfileControl,
    Negotiation,
    FlowControl,
    EstablishedData,
    EndpointShutdown,
}

impl CloseReason {
    pub open spec fn words(self) -> Seq<char> {
        match self {
            CloseReason::ProfileBootstrap => "profile bootstrap failed"@,
            CloseReason::ProfileControl => "profile control failed"@,
            CloseReason::Negotiation => "negotiation failed"@,
            CloseReason::FlowControl => "flow control failed"@,
            CloseReason::EstablishedData => "established data failed"@,
            CloseReason::EndpointShutdown => "RunenNet endpoint shutdown"@,
        }
    }

    pub fn text(self) -> (text: &'static str)
        ensures
            text@ == self.words(),
    {
        match self {
            CloseReason::ProfileBootstrap => "profile bootstrap failed",
            CloseReason::ProfileControl => "profile control failed",
            CloseReason::Negotiation => "negotiation failed",
            CloseReason::FlowControl => "flow control failed",
            CloseReason::EstablishedData => "established data failed",
            CloseReason::EndpointShutdown => "RunenNet endpoint shutdown",
        }
    }
}

/// A connection, or a whole endpoint, is to be closed.
#[derive(Debug, Clone, Copy, PartialEq, Eq, Structural)]
pub struct CloseOrder {
    pub code: ApplicationErrorCode,
    pub reason: CloseReason,
}

/// A close with a code, where there is one.
pub open spec fn close_with(code: Option<ApplicationErrorCode>, reason: CloseReason) -> Option<
    CloseOrder,
> {
    match code {
        Some(code) => Some(CloseOrder { code, reason }),
        None => None,
    }
}

fn order_close(code: Option<ApplicationErrorCode>, reason: CloseReason) -> (order: Option<
    CloseOrder,
>)
    ensures
        order == close_with(code, reason),
{
    match code {
        Some(code) => Some(CloseOrder { code, reason }),
        None => None,
    }
}

/// What a frame error is closed with: what the peer did to the stream is told, a want of
/// memory is told, and what the transport or this side lost is not.
pub open spec fn frame_code(error: ControlFrameError) -> Option<ApplicationErrorCode> {
    match error {
        ControlFrameError::VarInt(_) => Some(ApplicationErrorCode::ControlFrameError),
        ControlFrameError::UnknownFrameType(_) => Some(ApplicationErrorCode::ControlFrameError),
        ControlFrameError::BodyTooLarge { .. } => Some(ApplicationErrorCode::ControlFrameError),
        ControlFrameError::NegotiationBodyTooLarge { .. } => Some(
            ApplicationErrorCode::ControlFrameError,
        ),
        ControlFrameError::EndOfStream => Some(ApplicationErrorCode::ControlFrameError),
        ControlFrameError::Read(ReadFailure::FinishedEarly(_)) => Some(
            ApplicationErrorCode::ControlFrameError,
        ),
        ControlFrameError::Read(ReadFailure::Reset(_)) => Some(
            ApplicationErrorCode::ControlFrameError,
        ),
        ControlFrameError::Write(WriteFailure::Stopped(_)) => Some(
            ApplicationErrorCode::ControlFrameError,
        ),
        ControlFrameError::Allocation(_) => Some(ApplicationErrorCode::ResourceLimitError),
        _ => None,
    }
}

pub fn control_frame_close_code(error: &ControlFrameError) -> (code: Option<ApplicationErrorCode>)
    ensures
        code == frame_code(*error),
{
    match error {
        ControlFrameError::VarInt(_)
        | ControlFrameError::UnknownFrameType(_)
        | ControlFrameError::BodyTooLarge { .. }
        | ControlFrameError::NegotiationBodyTooLarge { .. }
        | ControlFrameError::EndOfStream
        | ControlFrameError::Read(ReadFailure::FinishedEarly(_))
        | ControlFrameError::Read(ReadFailure::Reset(_))
        | ControlFrameError::Write(WriteFailure::Stopped(_)) => {
            Some(ApplicationErrorCode::ControlFrameError)
        },
        ControlFrameError::Allocation(_) => Some(ApplicationErrorCode::ResourceLimitError),
        ControlFrameError::Read(_)
        | ControlFrameError::Write(_)
        | ControlFrameError::VarIntEncode(_)
        | ControlFrameError::BodyLengthOutOfRange
        | ControlFrameError::ZeroWriteProgress => None,
    }
}

/// What a failed bootstrap is closed with.
pub open spec fn bootstrap_code(error: ProfileBootstrapError) -> Option<ApplicationErrorCode> {
    match error {
        ProfileBootstrapError::WrongAlpn => Some(ApplicationErrorCode::ProfileProtocolError),
        ProfileBootstrapError::DatagramUnsupported => Some(
            ApplicationErrorCode::ProfileProtocolError,
        ),
        ProfileBootstrapError::ZeroRttControlStream => Some(
            ApplicationErrorCode::ProfileProtocolError,
        ),
        ProfileBootstrapError::Settings(_) => Some(ApplicationErrorCode::ProfileProtocolError),
        ProfileBootstrapError::UnexpectedFrameBeforeReady(_) => Some(
            ApplicationErrorCode::ProfileProtocolError,
        ),
        ProfileBootstrapError::DuplicateSettings => Some(
            ApplicationErrorCode::ProfileProtocolError,
        ),
        ProfileBootstrapError::PeerRoleMismatch { .. } => Some(
            ApplicationErrorCode::ProfileProtocolError,
        ),
        ProfileBootstrapError::Frame(error) => frame_code(error),
        _ => None,
    }
}

pub fn bootstrap_close_code(error: &ProfileBootstrapError) -> (code: Option<ApplicationErrorCode>)
    ensures
        code == bootstrap_code(*error),
{
    match error {
        ProfileBootstrapError::WrongAlpn
        | ProfileBootstrapError::DatagramUnsupported
        | ProfileBootstrapError::ZeroRttControlStream
        | ProfileBootstrapError::Settings(_)
        | ProfileBootstrapError::UnexpectedFrameBeforeReady(_)
        | ProfileBootstrapError::DuplicateSettings
        | ProfileBootstrapError::PeerRoleMismatch { .. } => {
            Some(ApplicationErrorCode::ProfileProtocolError)
        },
        ProfileBootstrapError::Frame(error) => control_frame_close_code(error),
        ProfileBootstrapError::Connection(_)
        | ProfileBootstrapError::MissingHandshakeData
        | ProfileBootstrapError::UnexpectedHandshakeDataType
        | ProfileBootstrapError::WrongQuicSide { .. }
        | ProfileBootstrapError::SettingsAfterReady
        | ProfileBootstrapError::SettingsOwnedByBootstrap
        | ProfileBootstrapError::ControlChannelPoisoned => None,
    }
}

/// What a failed control stream is closed with once the profile is ready: settings are then
/// the peer's fault.
pub open spec fn post_profile_code(error: ProfileBootstrapError) -> Option<ApplicationErrorCode> {
    if error is SettingsAfterReady {
        Some(ApplicationErrorCode::ProfileProtocolError)
    } else {
        bootstrap_code(error)
    }
}

pub fn post_profile_close_code(error: &ProfileBootstrapError) -> (code: Option<
    ApplicationErrorCode,
>)
    ensures
        code == post_profile_code(*error),
{
    match error {
        ProfileBootstrapError::SettingsAfterReady => Some(
            ApplicationErrorCode::ProfileProtocolError,
        ),
        _ => bootstrap_close_code(error),
    }
}

/// What a refused flow frame is closed with.
pub open spec fn flow_control_code(error: FlowControlError) -> Option<ApplicationErrorCode> {
    match error {
        FlowControlError::UnexpectedFrame(_) => Some(ApplicationErrorCode::ProfileProtocolError),
        FlowControlError::Body(_) => Some(ApplicationErrorCode::FlowProtocolError),
        FlowControlError::FlowId(_) => Some(ApplicationErrorCode::FlowProtocolError),
        FlowControlError::WrongResponseSide { .. } => Some(
            ApplicationErrorCode::FlowProtocolError,
        ),
        FlowControlError::UnknownPendingFlow(_) => Some(ApplicationErrorCode::FlowProtocolError),
        FlowControlError::UnknownActiveFlow(_) => Some(ApplicationErrorCode::FlowProtocolError),
        FlowControlError::ReliableNormalUsesFin(_) => Some(ApplicationErrorCode::FlowProtocolError),
        FlowControlError::Allocation(_) => Some(ApplicationErrorCode::ResourceLimitError),
        _ => None,
    }
}

pub fn received_flow_control_close_code(error: &FlowControlError) -> (code: Option<
    ApplicationErrorCode,
>)
    ensures
        code == flow_control_code(*error),
{
    match error {
        FlowControlError::UnexpectedFrame(_) => Some(ApplicationErrorCode::ProfileProtocolError),
        FlowControlError::Body(_)
        | FlowControlError::FlowId(_)
        | FlowControlError::WrongResponseSide { .. }
        | FlowControlError::UnknownPendingFlow(_)
        | FlowControlError::UnknownActiveFlow(_)
        | FlowControlError::ReliableNormalUsesFin(_) => {
            Some(ApplicationErrorCode::FlowProtocolError)
        },
        FlowControlError::Allocation(_) => Some(ApplicationErrorCode::ResourceLimitError),
        FlowControlError::InboundDecisionPending(_)
        | FlowControlError::CoreState(_)
        | FlowControlError::LocalEstablishment(_)
        | FlowControlError::Registry(_) => None,
    }
}

pub fn close_for_bootstrap_error(error: &ProfileBootstrapError) -> (order: Option<CloseOrder>)
    ensures
        order == close_with(bootstrap_code(*error), CloseReason::ProfileBootstrap),
{
    order_close(bootstrap_close_code(error), CloseReason::ProfileBootstrap)
}

pub fn close_for_post_profile_control_error(error: &ProfileBootstrapError) -> (order: Option<
    CloseOrder,
>)
    ensures
        order == close_with(post_profile_code(*error), CloseReason::ProfileControl),
{
    order_close(post_profile_close_code(error), CloseReason::ProfileControl)
}

pub fn close_for_received_flow_control_error(error: &FlowControlError) -> (order: Option<
    CloseOrder,
>)
    ensures
        order == close_with(flow_control_code(*error), CloseReason::FlowControl),
{
    order_close(received_flow_control_close_code(error), CloseReason::FlowControl)
}

pub fn close_negotiation_failed() -> (order: CloseOrder)
    ensures
        order == (CloseOrder {
            code: ApplicationErrorCode::NegotiationFailed,
            reason: CloseReason::Negotiation,
        }),
{
    CloseOrder { code: ApplicationErrorCode::NegotiationFailed, reason: CloseReason::Negotiation }
}

pub fn close_negotiation_protocol_error() -> (order: CloseOrder)
    ensures
        order == (CloseOrder {
            code: ApplicationErrorCode::ProfileProtocolError,
            reason: CloseReason::Negotiation,
        }),
{
    CloseOrder { code: ApplicationErrorCode::ProfileProtocolError, reason: CloseReason::Negotiation }
}

/// A connection that the transport lost is not closed with a code, nor is one closed for
/// what only this side did.
pub proof fn law_losses_are_not_blamed(failure: ConnectionFailure)
    ensures
        bootstrap_code(ProfileBootstrapError::Connection(failure)) is None,
        post_profile_code(ProfileBootstrapError::Connection(failure)) is None,
        frame_code(ControlFrameError::Read(ReadFailure::ConnectionLost(failure))) is None,
        frame_code(ControlFrameError::Write(WriteFailure::ConnectionLost(failure))) is None,
        bootstrap_code(ProfileBootstrapError::SettingsOwnedByBootstrap) is None,
        bootstrap_code(ProfileBootstrapError::ControlChannelPoisoned) is None,
        frame_code(ControlFrameError::ZeroWriteProgress) is None,
{
}

/// Why a connection is not begun.
#[derive(Debug, Clone, Copy, PartialEq, Eq, Structural)]
pub enum ProfilePreflightError {
    WrongEndpointSide { expected: WireSide, actual: WireSide },
    ResourceAuthorityMismatch,
}

/// Why the QUIC stack does not connect.
#[derive(Debug, Clone, Copy, PartialEq, Eq, Structural)]
pub enum ConnectFailure {
    EndpointStopping,
    CidsExhausted,
    InvalidServerName,
    InvalidRemoteAddress,
    NoDefaultClientConfig,
    UnsupportedVersion,
}

/// Why a connection does not become ready.
#[derive(Debug, PartialEq, Eq)]
pub enum ProfileConnectionError {
    Preflight(ProfilePreflightError),
    Admission(ConnectionAdmissionError),
    Connect(ConnectFailure),
    Handshake(ConnectionFailure),
    Bootstrap(ProfileBootstrapError),
}

/// What stands against a profile on an endpoint, if anything: it belongs to the other
/// side, or to an endpoint with other resources.
pub open(crate) spec fn preflight_error(
    actual_side: WireSide,
    endpoint_resources: ValidatedEndpointResources,
    profile: ValidatedControlProfile,
    expected_side: WireSide,
) -> Option<ProfilePreflightError> {
    if actual_side != expected_side {
        Some(
            ProfilePreflightError::WrongEndpointSide {
                expected: expected_side,
                actual: actual_side,
            },
        )
    } else if endpoint_resources != profile.spec_resources() {
        Some(ProfilePreflightError::ResourceAuthorityMismatch)
    } else {
        None
    }
}

pub fn validate_preflight(
    actual_side: WireSide,
    endpoint_resources: ValidatedEndpointResources,
    profile: ValidatedControlProfile,
    expected_side: WireSide,
) -> (checked: Result<(), ProfilePreflightError>)
    ensures
        match preflight_error(actual_side, endpoint_resources, profile, expected_side) {
            Some(error) => checked == Err::<(), _>(error),
            None => checked is Ok,
        },
{
    if actual_side != expected_side {
        return Err(
            ProfilePreflightError::WrongEndpointSide {
                expected: expected_side,
                actual: actual_side,
            },
        );
    }
    if endpoint_resources != profile.resources() {
        return Err(ProfilePreflightError::ResourceAuthorityMismatch);
    }
    Ok(())
}

/// Takes a connection of an endpoint for a profile, where the profile fits and the
/// capacity allows it.
pub fn admit_connection(
    endpoint: &mut ConfiguredEndpoint,
    profile: ValidatedControlProfile,
    expected_side: WireSide,
) -> (permit: Result<ConnectionSlotPermit, ProfileConnectionError>)
    ensures
        final(endpoint).wf(),
        match preflight_error(
            old(endpoint).spec_side(),
            old(endpoint).spec_resources(),
            profile,
            expected_side,
        ) {
            Some(error) => {
                &&& permit == Err::<ConnectionSlotPermit, _>(
                    ProfileConnectionError::Preflight(error),
                )
                &&& *final(endpoint) == *old(endpoint)
            },
            None => if old(endpoint).spec_connections() < old(
                endpoint,
            ).spec_resources().spec_max_connections() {
                &&& permit is Ok
                &&& *final(endpoint) == old(endpoint).holding(
                    old(endpoint).spec_connections() + 1,
                )
            } else {
                &&& permit == Err::<ConnectionSlotPermit, _>(
                    ProfileConnectionError::Admission(ConnectionAdmissionError::AtCapacity),
                )
                &&& *final(endpoint) == *old(endpoint)
            },
        },
{
    proof {
        use_type_invariant(&*endpoint);
    }
    if let Err(error) = validate_preflight(
        endpoint.side(),
        endpoint.resources(),
        profile,
        expected_side,
    ) {
        return Err(ProfileConnectionError::Preflight(error));
    }
    match endpoint.try_acquire_connection_slot() {
        Ok(permit) => Ok(permit),
        Err(error) => Err(ProfileConnectionError::Admission(error)),
    }
}

/// A connection whose profile is ready, and the right to hold it.
#[derive(Debug)]
pub struct AdmittedProfileReadyConnection {
    pub profile_ready: ProfileReadyParts,
    pub connection_permit: ConnectionSlotPermit,
}

/// What an established connection owns next to its transport.
#[derive(Debug)]
pub struct ConnectionCore {
    pub connection: ConnectionHandle,
    pub profile: ProfileReadyParts,
    pub connection_permit: ConnectionSlotPermit,
    pub exchange: NegotiationExchange,
}

/// A connection that both sides negotiated.
#[must_use]
#[derive(Debug)]
pub struct EstablishedNegotiatedConnection {
    pub core: ConnectionCore,
}

/// A negotiated connection with its flow control.
#[must_use]
#[derive(Debug)]
pub struct FlowControlledConnection {
    pub core: ConnectionCore,
    pub flow_control: FlowControl,
}

/// A negotiated connection whose flow control could not be set up.
#[derive(Debug)]
pub struct FlowControlActivationError {
    pub error: FlowControlConfigError,
    pub established: EstablishedNegotiatedConnection,
}

/// The parts that a connection is driven with.
#[must_use]
#[derive(Debug)]
pub struct EstablishedIoParts {
    pub sender: ControlSender,
    pub receiver: ControlReceiver,
    pub flow_control: FlowControl,
    pub teardown: EstablishedTeardown,
}

/// What is left to give back at the end of a connection.
#[must_use]
#[derive(Debug)]
pub struct EstablishedTeardown {
    pub connection: ConnectionHandle,
    pub exchange: NegotiationExchange,
    pub connection_permit: ConnectionSlotPermit,
}

/// What the host has to do at the end of a connection, in this order: have the core end
/// the connection's flows, have the manager let go of it where told so, and give the
/// permit back.
#[must_use]
#[derive(Debug)]
pub struct TeardownCall {
    pub connection: ConnectionHandle,
    pub release: bool,
    pub connection_permit: ConnectionSlotPermit,
}

/// What the end of a connection came to.
#[must_use]
#[derive(Debug)]
pub struct ConnectionTeardown {
    pub connection: ConnectionHandle,
    pub flow_terminations: Vec<FlowTermination>,
    pub negotiation_cleanup_error: Option<NegotiationControlError>,
}

impl ConnectionCore {
    pub fn into_established_io(self, flow_control: FlowControl) -> (parts: EstablishedIoParts)
        ensures
            parts.sender == self.profile.sender,
            parts.receiver == self.profile.receiver,
            parts.flow_control == flow_control,
            parts.teardown.connection == self.connection,
            parts.teardown.exchange == self.exchange,
            parts.teardown.connection_permit == self.connection_permit,
    {
        EstablishedIoParts {
            sender: self.profile.sender,
            receiver: self.profile.receiver,
            flow_control,
            teardown: EstablishedTeardown {
                connection: self.connection,
                exchange: self.exchange,
                connection_permit: self.connection_permit,
            },
        }
    }

    pub fn teardown(self) -> (call: TeardownCall)
        ensures
            call.connection == self.connection,
            call.release == self.exchange@.manager_owned,
            call.connection_permit == self.connection_permit,
    {
        teardown_connection(self.connection, self.exchange, self.connection_permit)
    }
}

impl EstablishedNegotiatedConnection {
    pub fn from_parts(
        connection: ConnectionHandle,
        profile: ProfileReadyParts,
        connection_permit: ConnectionSlotPermit,
        exchange: NegotiationExchange,
    ) -> (established: Self)
        ensures
            established.core == (ConnectionCore {
                connection,
                profile,
                connection_permit,
                exchange,
            }),
    {
        EstablishedNegotiatedConnection {
            core: ConnectionCore { connection, profile, connection_permit, exchange },
        }
    }

    /// Sets up flow control for the two sides' settings, or hands the connection back.
    pub fn into_flow_control(self) -> (controlled: Result<
        FlowControlledConnection,
        FlowControlActivationError,
    >)
        ensures
            match config_error(
                self.core.profile.profile.spec_local_settings(),
                self.core.profile.peer_settings,
            ) {
                Some(error) => controlled == Err::<FlowControlledConnection, _>(
                    (FlowControlActivationError { error, established: self }),
                ),
                None => {
                    &&& controlled is Ok
                    &&& controlled->Ok_0.core == self.core
                    &&& controlled->Ok_0.flow_control.is_new(
                        self.core.connection,
                        self.core.profile.side,
                        self.core.profile.profile.spec_local_settings(),
                        self.core.profile.peer_settings,
                    )
                },
            },
    {
        match FlowControl::from_profile_parts(self.core.connection, &self.core.profile) {
            Ok(flow_control) => Ok(FlowControlledConnection { core: self.core, flow_control }),
            Err(error) => Err(FlowControlActivationError { error, established: self }),
        }
    }

    pub fn teardown(self) -> (call: TeardownCall)
        ensures
            call.connection == self.core.connection,
            call.release == self.core.exchange@.manager_owned,
            call.connection_permit == self.core.connection_permit,
    {
        self.core.teardown()
    }
}

impl FlowControlledConnection {
    pub fn into_established_io(self) -> (parts: EstablishedIoParts)
        ensures
            parts.sender == self.core.profile.sender,
            parts.receiver == self.core.profile.receiver,
            parts.flow_control == self.flow_control,
            parts.teardown.connection == self.core.connection,
            parts.teardown.exchange == self.core.exchange,
            parts.teardown.connection_permit == self.core.connection_permit,
    {
        self.core.into_established_io(self.flow_control)
    }

    pub fn teardown(self) -> (call: TeardownCall)
        ensures
            call.connection == self.core.connection,
            call.release == self.core.exchange@.manager_owned,
            call.connection_permit == self.core.connection_permit,
    {
        self.into_established_io().teardown()
    }
}

impl EstablishedIoParts {
    pub fn teardown(self) -> (call: TeardownCall)
        ensures
            call.connection == self.teardown.connection,
            call.release == self.teardown.exchange@.manager_owned,
            call.connection_permit == self.teardown.connection_permit,
    {
        self.teardown.teardown()
    }
}

impl EstablishedTeardown {
    pub fn teardown(self) -> (call: TeardownCall)
        ensures
            call.connection == self.connection,
            call.release == self.exchange@.manager_owned,
            call.connection_permit == self.connection_permit,
    {
        teardown_connection(self.connection, self.exchange, self.connection_permit)
    }
}

/// Gives a connection up.
pub fn teardown_connection(
    connection: ConnectionHandle,
    exchange: NegotiationExchange,
    connection_permit: ConnectionSlotPermit,
) -> (call: TeardownCall)
    ensures
        call.connection == connection,
        call.release == exchange@.manager_owned,
        call.connection_permit == connection_permit,
{
    let mut exchange = exchange;
    let release: bool = exchange.abort();
    TeardownCall { connection, release, connection_permit }
}

/// Takes what the core and the manager answered at the end of a connection. The manager's
/// answer counts where it had to let go.
pub fn finish_teardown(
    connection: ConnectionHandle,
    release: bool,
    flow_terminations: Vec<FlowTermination>,
    released: Result<(), NegotiationManagerError>,
) -> (teardown: ConnectionTeardown)
    ensures
        teardown.connection == connection,
        teardown.flow_terminations == flow_terminations,
        teardown.negotiation_cleanup_error == (if release && released is Err {
            Some(NegotiationControlError::ManagerState(released->Err_0))
        } else {
            None
        }),
{
    let negotiation_cleanup_error = match released {
        Err(error) => if release {
            Some(NegotiationControlError::ManagerState(error))
        } else {
            None
        },
        Ok(()) => None,
    };
    ConnectionTeardown { connection, flow_terminations, negotiation_cleanup_error }
}

/// What a failure is closed with. What the peer did to the control stream is a control frame
/// error; what it did to the profile is a profile error; a want of memory is told; and for
/// nothing else is the peer told anything.
pub proof fn law_closes_blame_the_peer_for_its_own(
    frame: ControlFrameError,
    error: ProfileBootstrapError,
)
    ensures
        ({
            let cut = frame is EndOfStream || frame matches ControlFrameError::Read(
                ReadFailure::FinishedEarly(_),
            ) || frame matches ControlFrameError::Read(ReadFailure::Reset(_))
                || frame matches ControlFrameError::Write(WriteFailure::Stopped(_));
            let broken = frame is VarInt || frame is UnknownFrameType || frame is BodyTooLarge
                || frame is NegotiationBodyTooLarge;
            &&& frame_code(frame) == Some(ApplicationErrorCode::ControlFrameError) <==> cut
                || broken
            &&& frame_code(frame) == Some(ApplicationErrorCode::ResourceLimitError)
                <==> frame is Allocation
            &&& frame_code(frame) is None <==> !cut && !broken && !(frame is Allocation)
        }),
        ({
            let profile = error is WrongAlpn || error is DatagramUnsupported || error
                is ZeroRttControlStream || error is Settings || error is UnexpectedFrameBeforeReady
                || error is DuplicateSettings || error is PeerRoleMismatch;
            &&& bootstrap_code(error) == Some(ApplicationErrorCode::ProfileProtocolError)
                <==> profile
            &&& error matches ProfileBootstrapError::Frame(inner) ==> bootstrap_code(error)
                == frame_code(inner)
            &&& !profile && !(error is Frame) ==> bootstrap_code(error) is None
            &&& post_profile_code(error) == Some(ApplicationErrorCode::ProfileProtocolError)
                <==> profile || error is SettingsAfterReady
            &&& !(error is SettingsAfterReady) ==> post_profile_code(error) == bootstrap_code(error)
        }),
{
}

/// A flow frame that breaks the flow protocol is closed with a flow error, one that is not due
/// at all with a profile error, and a want of memory is told. What this side or its core lost
/// track of is not blamed on the peer.
pub proof fn law_flow_errors_blame_the_peer_for_its_own(error: FlowControlError)
    ensures
        flow_control_code(error) == Some(ApplicationErrorCode::FlowProtocolError) <==> error is Body
            || error is FlowId || error is WrongResponseSide || error is UnknownPendingFlow || error
            is UnknownActiveFlow || error is ReliableNormalUsesFin,
        flow_control_code(error) == Some(ApplicationErrorCode::ProfileProtocolError) <==> error
            is UnexpectedFrame,
        flow_control_code(error) == Some(ApplicationErrorCode::ResourceLimitError) <==> error
            is Allocation,
        error is InboundDecisionPending || error is CoreState || error is LocalEstablishment || error
            is Registry ==> flow_control_code(error) is None,
{
}

/// A close carries the code and the reason that it is ordered with; without a code there is
/// none.
pub proof fn law_closes_carry_code_and_reason(
    code: Option<ApplicationErrorCode>,
    reason: CloseReason,
)
    ensures
        close_with(code, reason) is Some <==> code is Some,
        close_with(code, reason) matches Some(order) ==> Some(order.code) == code && order.reason
            == reason,
{
}

/// A connection is begun exactly where the endpoint is on the side that is wanted and the
/// profile was made for its resources.
pub proof fn law_profiles_belong_to_their_endpoint(
    actual: WireSide,
    resources: ValidatedEndpointResources,
    profile: ValidatedControlProfile,
    expected: WireSide,
)
    ensures
        preflight_error(actual, resources, profile, expected) is None <==> actual == expected
            && resources == profile.spec_resources(),
        actual != expected ==> preflight_error(actual, resources, profile, expected) == Some(
            ProfilePreflightError::WrongEndpointSide { expected, actual },
        ),
        actual == expected && resources != profile.spec_resources() ==> preflight_error(
            actual,
            resources,
            profile,
            expected,
        ) == Some(ProfilePreflightError::ResourceAuthorityMismatch),
{
}

/// No two closes give the same words.
pub proof fn law_close_words_are_told_apart(left: CloseReason, right: CloseReason)
    ensures
        left.words() == right.words() <==> left == right,
{
    reveal_strlit("profile bootstrap failed");
    assert("profile bootstrap failed"@.len() == 24);
    reveal_strlit("profile control failed");
    assert("profile control failed"@.len() == 22);
    reveal_strlit("negotiation failed");
    assert("negotiation failed"@.len() == 18);
    reveal_strlit("flow control failed");
    assert("flow control failed"@.len() == 19);
    reveal_strlit("established data failed");
    assert("established data failed"@.len() == 23);
    reveal_strlit("RunenNet endpoint shutdown");
    assert("RunenNet endpoint shutdown"@.len() == 26);
}

} // verus!
