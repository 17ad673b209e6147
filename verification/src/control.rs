//! The control stream: its frames, the exchange of settings that makes a profile ready,
//! and the limits that each direction keeps.

use std::collections::TryReserveError;

use vstd::prelude::*;

use crate::endpoint::{alpn_bytes, profile_alpn, ValidatedEndpointResources};
use crate::storage::reserve_bytes;
use crate::varint::{
    announced_len, announced_width, decode_varint, encode_varint, law_varint_round_trip,
    lemma_announces, lemma_split_read, lemma_split_written, parse_varint, read_varint,
    split_varint, varint_bytes, varint_len, FixedBytes, VarIntDecodeError, VarIntEncodeError,
    MAX_VARINT,
};
use crate::wire::{holds_integers, WireSide};

verus! {

/// The most bytes that the body of a settings frame takes.
pub const MAX_SETTINGS_BODY_BYTES: usize = 33;

/// The fewest bytes that the body of a negotiation offer takes.
pub const MIN_NEGOTIATION_OFFER_BODY_BYTES: usize = 35;

/// The most streams of one kind that a QUIC connection has.
pub const QUIC_MAX_STREAM_COUNT: u64 = 0x1000_0000_0000_0000;

/// The part that an endpoint plays in a session, whichever side of QUIC it is on.
#[derive(Debug, Clone, Copy, PartialEq, Eq, Structural)]
pub enum SemanticRole {
    NonAuthority,
    Authority,
}

impl SemanticRole {
    /// The number of a role on the wire.
    pub open spec fn number(self) -> u8 {
        match self {
            SemanticRole::NonAuthority => 0,
            SemanticRole::Authority => 1,
        }
    }

    /// The role with a number, if any.
    pub open spec fn numbered(number: u8) -> Option<SemanticRole> {
        if number == 0 {
            Some(SemanticRole::NonAuthority)
        } else if number == 1 {
            Some(SemanticRole::Authority)
        } else {
            None
        }
    }

    /// The other role.
    pub open spec fn other(self) -> SemanticRole {
        match self {
            SemanticRole::NonAuthority => SemanticRole::Authority,
            SemanticRole::Authority => SemanticRole::NonAuthority,
        }
    }

    pub fn wire(self) -> (number: u8)
        ensures
            number == self.number(),
    {
        match self {
            SemanticRole::NonAuthority => 0,
            SemanticRole::Authority => 1,
        }
    }

    pub fn opposite(self) -> (other: Self)
        ensures
            other == self.other(),
            other != self,
    {
        match self {
            SemanticRole::NonAuthority => SemanticRole::Authority,
            SemanticRole::Authority => SemanticRole::NonAuthority,
        }
    }

    pub fn from_wire(value: u8) -> (role: Result<Self, SettingsError>)
        ensures
            match SemanticRole::numbered(value) {
                Some(found) => role == Ok::<_, SettingsError>(found),
                None => role == Err::<SemanticRole, _>(SettingsError::UnknownSemanticRole(value)),
            },
    {
        if value == 0 {
            Ok(SemanticRole::NonAuthority)
        } else if value == 1 {
            Ok(SemanticRole::Authority)
        } else {
            Err(SettingsError::UnknownSemanticRole(value))
        }
    }
}

/// What one endpoint accepts on its control stream and in messages.
#[derive(Debug, Clone, Copy, PartialEq, Eq, Structural)]
pub struct LocalControlLimits {
    pub semantic_role: SemanticRole,
    pub max_control_frame_bytes: usize,
    pub max_negotiation_frame_bytes: usize,
    pub max_incoming_message_bytes: u64,
}

/// Why control limits are refused.
#[derive(Debug, Clone, Copy, PartialEq, Eq, Structural)]
pub enum LocalControlLimitError {
    ControlFrameTooSmall,
    ControlFrameOutOfRange,
    NegotiationFrameTooSmall,
    NegotiationFrameOutOfRange,
    NegotiationExceedsControl,
    ZeroIncomingMessageBytes,
    IncomingMessageBytesOutOfRange,
}

/// Control limits that passed validation, bound to the endpoint's resources.
#[derive(Debug, Clone, Copy, PartialEq, Eq, Structural)]
pub struct ValidatedControlProfile {
    pub(crate) resources: ValidatedEndpointResources,
    pub(crate) local_settings: Settings,
}

impl LocalControlLimits {
    /// The error that is reported, if any.
    pub open spec fn error(self) -> Option<LocalControlLimitError> {
        if self.max_control_frame_bytes < MAX_SETTINGS_BODY_BYTES {
            Some(LocalControlLimitError::ControlFrameTooSmall)
        } else if self.max_control_frame_bytes > MAX_VARINT {
            Some(LocalControlLimitError::ControlFrameOutOfRange)
        } else if self.max_negotiation_frame_bytes < MIN_NEGOTIATION_OFFER_BODY_BYTES {
            Some(LocalControlLimitError::NegotiationFrameTooSmall)
        } else if self.max_negotiation_frame_bytes > self.max_control_frame_bytes {
            Some(LocalControlLimitError::NegotiationExceedsControl)
        } else if self.max_incoming_message_bytes == 0 {
            Some(LocalControlLimitError::ZeroIncomingMessageBytes)
        } else if self.max_incoming_message_bytes > MAX_VARINT {
            Some(LocalControlLimitError::IncomingMessageBytesOutOfRange)
        } else {
            None
        }
    }

    /// The settings that these limits announce on an endpoint with the given flow limit.
    pub open spec fn settings(self, max_active_incoming_flows: u64) -> Settings {
        Settings {
            semantic_role: self.semantic_role,
            max_control_frame_bytes: self.max_control_frame_bytes as u64,
            max_negotiation_frame_bytes: self.max_negotiation_frame_bytes as u64,
            max_active_incoming_flows,
            max_incoming_message_bytes: self.max_incoming_message_bytes,
        }
    }

    /// Checks the limits and binds them to the endpoint's resources.
    pub fn validate(self, resources: ValidatedEndpointResources) -> (profile: Result<
        ValidatedControlProfile,
        LocalControlLimitError,
    >)
        ensures
            match self.error() {
                Some(error) => profile == Err::<ValidatedControlProfile, _>(error),
                None => {
                    &&& profile is Ok
                    &&& profile->Ok_0.wf()
                    &&& profile->Ok_0.spec_resources() == resources
                    &&& profile->Ok_0.spec_local_settings() == self.settings(
                        resources.spec_max_active_incoming_flows(),
                    )
                },
            },
    {
        proof {
            use_type_invariant(&resources);
        }
        if self.max_control_frame_bytes < MAX_SETTINGS_BODY_BYTES {
            return Err(LocalControlLimitError::ControlFrameTooSmall);
        }
        let max_control_frame_bytes: u64 = match usize_to_wire(
            self.max_control_frame_bytes,
            LocalControlLimitError::ControlFrameOutOfRange,
        ) {
            Ok(value) => value,
            Err(error) => return Err(error),
        };
        if self.max_negotiation_frame_bytes < MIN_NEGOTIATION_OFFER_BODY_BYTES {
            return Err(LocalControlLimitError::NegotiationFrameTooSmall);
        }
        if self.max_negotiation_frame_bytes > self.max_control_frame_bytes {
            return Err(LocalControlLimitError::NegotiationExceedsControl);
        }
        let max_negotiation_frame_bytes: u64 = match usize_to_wire(
            self.max_negotiation_frame_bytes,
            LocalControlLimitError::NegotiationFrameOutOfRange,
        ) {
            Ok(value) => value,
            Err(error) => return Err(error),
        };
        if self.max_incoming_message_bytes == 0 {
            return Err(LocalControlLimitError::ZeroIncomingMessageBytes);
        }
        if self.max_incoming_message_bytes > MAX_VARINT {
            return Err(LocalControlLimitError::IncomingMessageBytesOutOfRange);
        }
        let local_settings = Settings {
            semantic_role: self.semantic_role,
            max_control_frame_bytes,
            max_negotiation_frame_bytes,
            max_active_incoming_flows: resources.max_active_incoming_flows(),
            max_incoming_message_bytes: self.max_incoming_message_bytes,
        };
        Ok(ValidatedControlProfile { resources, local_settings })
    }
}

fn usize_to_wire(value: usize, error: LocalControlLimitError) -> (wire: Result<
    u64,
    LocalControlLimitError,
>)
    ensures
        value <= MAX_VARINT ==> wire == Ok::<_, LocalControlLimitError>(value as u64),
        value > MAX_VARINT ==> wire == Err::<u64, _>(error),
{
    let value: u64 = value as u64;
    if value > MAX_VARINT {
        return Err(error);
    }
    Ok(value)
}

impl ValidatedControlProfile {
    #[verifier::type_invariant]
    pub open(crate) spec fn wf(self) -> bool {
        &&& self.resources.wf()
        &&& self.local_settings.encodable()
        &&& self.local_settings.max_active_incoming_flows
            == self.resources.max_active_incoming_flows
        &&& self.local_settings.max_control_frame_bytes >= MAX_SETTINGS_BODY_BYTES
        &&& MIN_NEGOTIATION_OFFER_BODY_BYTES <= self.local_settings.max_negotiation_frame_bytes
            <= self.local_settings.max_control_frame_bytes
        &&& self.local_settings.max_incoming_message_bytes > 0
    }

    pub open(crate) spec fn spec_resources(self) -> ValidatedEndpointResources {
        self.resources
    }

    pub open(crate) spec fn spec_local_settings(self) -> Settings {
        self.local_settings
    }

    pub fn resources(self) -> (resources: ValidatedEndpointResources)
        ensures
            resources == self.spec_resources(),
    {
        self.resources
    }

    pub fn local_settings(self) -> (settings: Settings)
        ensures
            settings == self.spec_local_settings(),
            settings.encodable(),
    {
        proof {
            use_type_invariant(&self);
        }
        self.local_settings
    }
}

/// What one endpoint announces before anything else.
#[derive(Debug, Clone, Copy, PartialEq, Eq, Structural)]
pub struct Settings {
    pub semantic_role: SemanticRole,
    pub max_control_frame_bytes: u64,
    pub max_negotiation_frame_bytes: u64,
    pub max_active_incoming_flows: u64,
    pub max_incoming_message_bytes: u64,
}

/// Why announced settings are refused.
#[derive(Debug, Clone, Copy, PartialEq, Eq, Structural)]
pub enum SettingsError {
    EmptyBody,
    UnknownSemanticRole(u8),
    VarInt(VarIntDecodeError),
    ZeroControlFrameBytes,
    ControlFrameTooSmall,
    ZeroNegotiationFrameBytes,
    NegotiationFrameTooSmall,
    NegotiationExceedsControl,
    ZeroActiveIncomingFlows,
    ActiveIncomingFlowsExceedQuicStreamLimit,
    ZeroIncomingMessageBytes,
    TrailingBytes,
}

/// The body of a settings frame, held without allocation.
pub type EncodedSettings = FixedBytes<33>;

impl Settings {
    /// Every limit has an encoding.
    pub open spec fn encodable(self) -> bool {
        &&& self.max_control_frame_bytes <= MAX_VARINT
        &&& self.max_negotiation_frame_bytes <= MAX_VARINT
        &&& self.max_active_incoming_flows <= MAX_VARINT
        &&& self.max_incoming_message_bytes <= MAX_VARINT
    }

    /// What stands against these settings, if anything.
    pub open spec fn error(self) -> Option<SettingsError> {
        if self.max_control_frame_bytes == 0 {
            Some(SettingsError::ZeroControlFrameBytes)
        } else if self.max_control_frame_bytes < MAX_SETTINGS_BODY_BYTES {
            Some(SettingsError::ControlFrameTooSmall)
        } else if self.max_negotiation_frame_bytes == 0 {
            Some(SettingsError::ZeroNegotiationFrameBytes)
        } else if self.max_negotiation_frame_bytes < MIN_NEGOTIATION_OFFER_BODY_BYTES {
            Some(SettingsError::NegotiationFrameTooSmall)
        } else if self.max_negotiation_frame_bytes > self.max_control_frame_bytes {
            Some(SettingsError::NegotiationExceedsControl)
        } else if self.max_active_incoming_flows == 0 {
            Some(SettingsError::ZeroActiveIncomingFlows)
        } else if self.max_active_incoming_flows > QUIC_MAX_STREAM_COUNT {
            Some(SettingsError::ActiveIncomingFlowsExceedQuicStreamLimit)
        } else if self.max_incoming_message_bytes == 0 {
            Some(SettingsError::ZeroIncomingMessageBytes)
        } else {
            None
        }
    }

    /// The body of a settings frame: the role, then the four limits.
    pub open spec fn bytes(self) -> Seq<u8> {
        seq![self.semantic_role.number()] + varint_bytes(self.max_control_frame_bytes as nat)
            + varint_bytes(self.max_negotiation_frame_bytes as nat) + varint_bytes(
            self.max_active_incoming_flows as nat,
        ) + varint_bytes(self.max_incoming_message_bytes as nat)
    }

    /// The four limits at the front of `input` and what follows them.
    pub open spec fn split_limits(input: Seq<u8>) -> Result<
        ((u64, u64, u64, u64), Seq<u8>),
        SettingsError,
    > {
        match split_varint(input) {
            Err(error) => Err(SettingsError::VarInt(error)),
            Ok((control, rest)) => match split_varint(rest) {
                Err(error) => Err(SettingsError::VarInt(error)),
                Ok((negotiation, rest)) => match split_varint(rest) {
                    Err(error) => Err(SettingsError::VarInt(error)),
                    Ok((flows, rest)) => match split_varint(rest) {
                        Err(error) => Err(SettingsError::VarInt(error)),
                        Ok((message, rest)) => Ok(((control, negotiation, flows, message), rest)),
                    },
                },
            },
        }
    }

    /// What a body announces.
    pub open spec fn parse(input: Seq<u8>) -> Result<Settings, SettingsError> {
        if input.len() == 0 {
            Err(SettingsError::EmptyBody)
        } else {
            match SemanticRole::numbered(input[0]) {
                None => Err(SettingsError::UnknownSemanticRole(input[0])),
                Some(semantic_role) => match Settings::split_limits(input.skip(1)) {
                    Err(error) => Err(error),
                    Ok(((control, negotiation, flows, message), rest)) => if rest.len() > 0 {
                        Err(SettingsError::TrailingBytes)
                    } else {
                        let settings = Settings {
                            semantic_role,
                            max_control_frame_bytes: control,
                            max_negotiation_frame_bytes: negotiation,
                            max_active_incoming_flows: flows,
                            max_incoming_message_bytes: message,
                        };
                        match settings.error() {
                            Some(error) => Err(error),
                            None => Ok(settings),
                        }
                    },
                },
            }
        }
    }

    pub fn validate(self) -> (settings: Result<Self, SettingsError>)
        ensures
            match self.error() {
                Some(error) => settings == Err::<Settings, _>(error),
                None => settings == Ok::<_, SettingsError>(self),
            },
    {
        if self.max_control_frame_bytes == 0 {
            return Err(SettingsError::ZeroControlFrameBytes);
        }
        if self.max_control_frame_bytes < MAX_SETTINGS_BODY_BYTES as u64 {
            return Err(SettingsError::ControlFrameTooSmall);
        }
        if self.max_negotiation_frame_bytes == 0 {
            return Err(SettingsError::ZeroNegotiationFrameBytes);
        }
        if self.max_negotiation_frame_bytes < MIN_NEGOTIATION_OFFER_BODY_BYTES as u64 {
            return Err(SettingsError::NegotiationFrameTooSmall);
        }
        if self.max_negotiation_frame_bytes > self.max_control_frame_bytes {
            return Err(SettingsError::NegotiationExceedsControl);
        }
        if self.max_active_incoming_flows == 0 {
            return Err(SettingsError::ZeroActiveIncomingFlows);
        }
        if self.max_active_incoming_flows > QUIC_MAX_STREAM_COUNT {
            return Err(SettingsError::ActiveIncomingFlowsExceedQuicStreamLimit);
        }
        if self.max_incoming_message_bytes == 0 {
            return Err(SettingsError::ZeroIncomingMessageBytes);
        }
        Ok(self)
    }

    pub fn encode(self) -> (body: EncodedSettings)
        requires
            self.encodable(),
        ensures
            body@ == self.bytes(),
            body@.len() <= MAX_SETTINGS_BODY_BYTES,
    {
        let body = EncodedSettings::new().with_byte(self.semantic_role.wire());
        let body = body.with_varint(self.max_control_frame_bytes);
        let body = body.with_varint(self.max_negotiation_frame_bytes);
        let body = body.with_varint(self.max_active_incoming_flows);
        let body = body.with_varint(self.max_incoming_message_bytes);
        proof {
            assert(body@ =~= self.bytes());
        }
        body
    }

    pub fn decode(input: &[u8]) -> (settings: Result<Self, SettingsError>)
        ensures
            settings == Settings::parse(input@),
            settings matches Ok(settings) ==> settings.encodable(),
    {
        if input.len() == 0 {
            return Err(SettingsError::EmptyBody);
        }
        let semantic_role = match SemanticRole::from_wire(input[0]) {
            Ok(role) => role,
            Err(error) => return Err(error),
        };
        let (max_control_frame_bytes, offset): (u64, usize) = match read_varint(input, 1) {
            Ok(read) => read,
            Err(error) => return Err(SettingsError::VarInt(error)),
        };
        let (max_negotiation_frame_bytes, offset): (u64, usize) = match read_varint(input, offset) {
            Ok(read) => read,
            Err(error) => return Err(SettingsError::VarInt(error)),
        };
        let (max_active_incoming_flows, offset): (u64, usize) = match read_varint(input, offset) {
            Ok(read) => read,
            Err(error) => return Err(SettingsError::VarInt(error)),
        };
        let (max_incoming_message_bytes, offset): (u64, usize) = match read_varint(input, offset) {
            Ok(read) => read,
            Err(error) => return Err(SettingsError::VarInt(error)),
        };
        if offset < input.len() {
            return Err(SettingsError::TrailingBytes);
        }
        let settings = Settings {
            semantic_role,
            max_control_frame_bytes,
            max_negotiation_frame_bytes,
            max_active_incoming_flows,
            max_incoming_message_bytes,
        };
        settings.validate()
    }
}

/// Settings survive the wire when nothing stands against them, and only their own
/// encoding announces them.
pub proof fn law_settings_round_trip(settings: Settings, input: Seq<u8>)
    requires
        settings.encodable(),
    ensures
        settings.error() is None ==> Settings::parse(settings.bytes()) == Ok::<_, SettingsError>(
            settings,
        ),
        settings.error() matches Some(error) ==> Settings::parse(settings.bytes()) == Err::<
            Settings,
            _,
        >(error),
        Settings::parse(input) == Ok::<_, SettingsError>(settings) ==> input == settings.bytes(),
{
    let a = varint_bytes(settings.max_control_frame_bytes as nat);
    let b = varint_bytes(settings.max_negotiation_frame_bytes as nat);
    let c = varint_bytes(settings.max_active_incoming_flows as nat);
    let d = varint_bytes(settings.max_incoming_message_bytes as nat);
    lemma_split_written(settings.max_control_frame_bytes, b + (c + d));
    lemma_split_written(settings.max_negotiation_frame_bytes, c + d);
    lemma_split_written(settings.max_active_incoming_flows, d);
    lemma_split_written(settings.max_incoming_message_bytes, Seq::empty());
    assert(d + Seq::<u8>::empty() =~= d);
    assert(settings.bytes().skip(1) =~= a + (b + (c + d)));
    assert(settings.bytes()[0] == settings.semantic_role.number());
    if Settings::parse(input) == Ok::<_, SettingsError>(settings) {
        let first = input.skip(1);
        lemma_split_read(first);
        let second = split_varint(first)->Ok_0.1;
        lemma_split_read(second);
        let third = split_varint(second)->Ok_0.1;
        lemma_split_read(third);
        let fourth = split_varint(third)->Ok_0.1;
        lemma_split_read(fourth);
        assert(input =~= seq![input[0]] + first);
        assert(input =~= settings.bytes());
    }
}

/// A peer takes the settings that a validated profile announces, unless the profile
/// allows more flows than QUIC has streams.
pub proof fn law_local_settings_are_accepted(
    limits: LocalControlLimits,
    resources: ValidatedEndpointResources,
)
    requires
        resources.wf(),
        limits.error() is None,
        resources.spec_max_active_incoming_flows() <= QUIC_MAX_STREAM_COUNT,
    ensures
        Settings::parse(
            limits.settings(resources.spec_max_active_incoming_flows()).bytes(),
        ) == Ok::<_, SettingsError>(limits.settings(resources.spec_max_active_incoming_flows())),
{
    law_settings_round_trip(
        limits.settings(resources.spec_max_active_incoming_flows()),
        Seq::empty(),
    );
}

/// The frames of the control stream.
#[derive(Debug, Clone, Copy, PartialEq, Eq, Structural)]
pub enum ControlFrameType {
    Settings,
    NegotiationOffer,
    NegotiationProposal,
    NegotiationValidated,
    NegotiationEstablished,
    NegotiationFailed,
    OpenFlow,
    FlowAccept,
    FlowReject,
    FlowTerminate,
}

impl ControlFrameType {
    /// The number of a frame type on the wire.
    pub open spec fn number(self) -> u64 {
        match self {
            ControlFrameType::Settings => 0,
            ControlFrameType::NegotiationOffer => 1,
            ControlFrameType::NegotiationProposal => 2,
            ControlFrameType::NegotiationValidated => 3,
            ControlFrameType::NegotiationEstablished => 4,
            ControlFrameType::NegotiationFailed => 5,
            ControlFrameType::OpenFlow => 6,
            ControlFrameType::FlowAccept => 7,
            ControlFrameType::FlowReject => 8,
            ControlFrameType::FlowTerminate => 9,
        }
    }

    /// The frame type with a number, if any.
    pub open spec fn numbered(number: u64) -> Option<ControlFrameType> {
        if number == 0 {
            Some(ControlFrameType::Settings)
        } else if number == 1 {
            Some(ControlFrameType::NegotiationOffer)
        } else if number == 2 {
            Some(ControlFrameType::NegotiationProposal)
        } else if number == 3 {
            Some(ControlFrameType::NegotiationValidated)
        } else if number == 4 {
            Some(ControlFrameType::NegotiationEstablished)
        } else if number == 5 {
            Some(ControlFrameType::NegotiationFailed)
        } else if number == 6 {
            Some(ControlFrameType::OpenFlow)
        } else if number == 7 {
            Some(ControlFrameType::FlowAccept)
        } else if number == 8 {
            Some(ControlFrameType::FlowReject)
        } else if number == 9 {
            Some(ControlFrameType::FlowTerminate)
        } else {
            None
        }
    }

    /// The frames that the negotiation limit holds for.
    pub open spec fn negotiates(self) -> bool {
        1 <= self.number() <= 5
    }

    pub fn wire(self) -> (number: u64)
        ensures
            number == self.number(),
            number < 10,
    {
        match self {
            ControlFrameType::Settings => 0,
            ControlFrameType::NegotiationOffer => 1,
            ControlFrameType::NegotiationProposal => 2,
            ControlFrameType::NegotiationValidated => 3,
            ControlFrameType::NegotiationEstablished => 4,
            ControlFrameType::NegotiationFailed => 5,
            ControlFrameType::OpenFlow => 6,
            ControlFrameType::FlowAccept => 7,
            ControlFrameType::FlowReject => 8,
            ControlFrameType::FlowTerminate => 9,
        }
    }

    pub fn from_wire(value: u64) -> (frame_type: Result<Self, ControlFrameError>)
        ensures
            match ControlFrameType::numbered(value) {
                Some(found) => frame_type == Ok::<_, ControlFrameError>(found),
                None => frame_type == Err::<ControlFrameType, _>(
                    ControlFrameError::UnknownFrameType(value),
                ),
            },
    {
        match value {
            0 => Ok(ControlFrameType::Settings),
            1 => Ok(ControlFrameType::NegotiationOffer),
            2 => Ok(ControlFrameType::NegotiationProposal),
            3 => Ok(ControlFrameType::NegotiationValidated),
            4 => Ok(ControlFrameType::NegotiationEstablished),
            5 => Ok(ControlFrameType::NegotiationFailed),
            6 => Ok(ControlFrameType::OpenFlow),
            7 => Ok(ControlFrameType::FlowAccept),
            8 => Ok(ControlFrameType::FlowReject),
            9 => Ok(ControlFrameType::FlowTerminate),
            _ => Err(ControlFrameError::UnknownFrameType(value)),
        }
    }

    pub fn is_negotiation(self) -> (negotiation: bool)
        ensures
            negotiation == self.negotiates(),
    {
        match self {
            ControlFrameType::NegotiationOffer
            | ControlFrameType::NegotiationProposal
            | ControlFrameType::NegotiationValidated
            | ControlFrameType::NegotiationEstablished
            | ControlFrameType::NegotiationFailed => true,
            ControlFrameType::Settings
            | ControlFrameType::OpenFlow
            | ControlFrameType::FlowAccept
            | ControlFrameType::FlowReject
            | ControlFrameType::FlowTerminate => false,
        }
    }
}

/// Frame types and the numbers from 0 to 9 stand for each other.
pub proof fn law_frame_type_numbers(frame_type: ControlFrameType, number: u64)
    ensures
        ControlFrameType::numbered(frame_type.number()) == Some(frame_type),
        ControlFrameType::numbered(number) matches Some(found) ==> found.number() == number,
        ControlFrameType::numbered(number) is None <==> number > 9,
{
}

/// One frame of the control stream.
#[derive(Debug, PartialEq, Eq)]
pub struct ControlFrame {
    pub frame_type: ControlFrameType,
    pub body: Vec<u8>,
}

impl ControlFrame {
    /// The frame has this type and body.
    pub open spec fn holds(self, frame_type: ControlFrameType, body: Seq<u8>) -> bool {
        self.frame_type == frame_type && self.body@ == body
    }
}

/// Why a QUIC connection is gone.
#[derive(Debug, Clone, Copy, PartialEq, Eq, Structural)]
pub enum ConnectionFailure {
    VersionMismatch,
    Transport(u64),
    ConnectionClosed(u64),
    ApplicationClosed(u64),
    Reset,
    TimedOut,
    LocallyClosed,
    CidsExhausted,
}

/// Why the bytes that were asked for were not read.
#[derive(Debug, Clone, Copy, PartialEq, Eq, Structural)]
pub enum ReadFailure {
    /// The stream ended after so many of them.
    FinishedEarly(usize),
    Reset(u64),
    ConnectionLost(ConnectionFailure),
    ClosedStream,
    IllegalOrderedRead,
    ZeroRttRejected,
}

/// Why bytes were not written.
#[derive(Debug, Clone, Copy, PartialEq, Eq, Structural)]
pub enum WriteFailure {
    Stopped(u64),
    ConnectionLost(ConnectionFailure),
    ClosedStream,
    ZeroRttRejected,
}

/// Why a frame was not sent or not received.
#[derive(Debug, PartialEq, Eq)]
pub enum ControlFrameError {
    VarInt(VarIntDecodeError),
    VarIntEncode(VarIntEncodeError),
    UnknownFrameType(u64),
    BodyLengthOutOfRange,
    BodyTooLarge { received: u64, limit: u64 },
    NegotiationBodyTooLarge { received: u64, limit: u64 },
    Allocation(TryReserveError),
    EndOfStream,
    Read(ReadFailure),
    Write(WriteFailure),
    ZeroWriteProgress,
}

/// Why a connection's profile is not ready, or no longer usable.
#[allow(inconsistent_fields)]
#[derive(Debug, PartialEq, Eq)]
pub enum ProfileBootstrapError {
    Connection(ConnectionFailure),
    MissingHandshakeData,
    UnexpectedHandshakeDataType,
    WrongAlpn,
    DatagramUnsupported,
    WrongQuicSide { expected: WireSide, actual: WireSide },
    ZeroRttControlStream,
    Frame(ControlFrameError),
    Settings(SettingsError),
    UnexpectedFrameBeforeReady(ControlFrameType),
    DuplicateSettings,
    SettingsAfterReady,
    SettingsOwnedByBootstrap,
    ControlChannelPoisoned,
    PeerRoleMismatch { expected: SemanticRole, received: SemanticRole },
}

/// What the TLS handshake tells of the application protocol.
#[derive(Debug)]
pub enum HandshakeFacts {
    Missing,
    UnexpectedType,
    Protocol(Option<Vec<u8>>),
}

/// A connection whose handshake agreed on this profile.
#[derive(Debug, Clone, Copy, PartialEq, Eq, Structural)]
pub struct ConfirmedProfileTransport {
    pub side: WireSide,
}

/// What stands against a connection, seen from its handshake.
pub open spec fn transport_error(
    handshake: HandshakeFacts,
    max_datagram_size: Option<usize>,
) -> Option<ProfileBootstrapError> {
    match handshake {
        HandshakeFacts::Missing => Some(ProfileBootstrapError::MissingHandshakeData),
        HandshakeFacts::UnexpectedType => Some(ProfileBootstrapError::UnexpectedHandshakeDataType),
        HandshakeFacts::Protocol(protocol) => if protocol is None || protocol->0@ != alpn_bytes() {
            Some(ProfileBootstrapError::WrongAlpn)
        } else if max_datagram_size is None {
            Some(ProfileBootstrapError::DatagramUnsupported)
        } else {
            None
        },
    }
}

/// Whether two byte strings are the same.
pub fn same_bytes(left: &[u8], right: &[u8]) -> (same: bool)
    ensures
        same == (left@ == right@),
{
    if left.len() != right.len() {
        return false;
    }
    let mut index: usize = 0;
    while index < left.len()
        invariant
            index <= left@.len(),
            left@.len() == right@.len(),
            forall|i: int| 0 <= i < index ==> left@[i] == right@[i],
        decreases left@.len() - index,
    {
        if left[index] != right[index] {
            return false;
        }
        index = index + 1;
    }
    proof {
        assert(left@ =~= right@);
    }
    true
}

/// Checks that the handshake agreed on this profile and that datagrams can be sent.
pub fn confirm_profile_transport(
    handshake: &HandshakeFacts,
    max_datagram_size: Option<usize>,
    side: WireSide,
) -> (transport: Result<ConfirmedProfileTransport, ProfileBootstrapError>)
    ensures
        match transport_error(*handshake, max_datagram_size) {
            Some(error) => transport == Err::<ConfirmedProfileTransport, _>(error),
            None => transport == Ok::<_, ProfileBootstrapError>(
                (ConfirmedProfileTransport { side }),
            ),
        },
{
    let agreed: bool = match handshake {
        HandshakeFacts::Missing => return Err(ProfileBootstrapError::MissingHandshakeData),
        HandshakeFacts::UnexpectedType => {
            return Err(ProfileBootstrapError::UnexpectedHandshakeDataType)
        },
        HandshakeFacts::Protocol(None) => false,
        HandshakeFacts::Protocol(Some(protocol)) => {
            let alpn = profile_alpn();
            same_bytes(protocol.as_slice(), alpn.as_slice())
        },
    };
    if !agreed {
        return Err(ProfileBootstrapError::WrongAlpn);
    }
    if max_datagram_size.is_none() {
        return Err(ProfileBootstrapError::DatagramUnsupported);
    }
    Ok(ConfirmedProfileTransport { side })
}

/// Checks which side of QUIC a connection is on.
pub fn require_side(actual: WireSide, expected: WireSide) -> (checked: Result<
    (),
    ProfileBootstrapError,
>)
    ensures
        actual == expected ==> checked is Ok,
        actual != expected ==> checked == Err::<(), _>(
            (ProfileBootstrapError::WrongQuicSide { expected, actual }),
        ),
{
    if actual == expected {
        Ok(())
    } else {
        Err(ProfileBootstrapError::WrongQuicSide { expected, actual })
    }
}

/// How far the exchange of settings has come.
#[derive(Debug, Clone, Copy, PartialEq, Eq, Structural)]
pub struct BootstrapState {
    pub local_settings: Settings,
    pub local_settings_sent: bool,
    pub peer_settings: Option<Settings>,
}

impl BootstrapState {
    /// Both settings are known to both sides.
    pub open spec fn ready(self) -> bool {
        self.local_settings_sent && self.peer_settings is Some
    }

    /// What stands against the peer's settings, if anything.
    pub open spec fn peer_settings_error(self, settings: Settings) -> Option<
        ProfileBootstrapError,
    > {
        let expected = self.local_settings.semantic_role.other();
        if self.peer_settings is Some {
            Some(ProfileBootstrapError::DuplicateSettings)
        } else if settings.semantic_role != expected {
            Some(
                ProfileBootstrapError::PeerRoleMismatch {
                    expected,
                    received: settings.semantic_role,
                },
            )
        } else {
            None
        }
    }

    /// What stands against receiving a frame of this type, if anything.
    pub open spec fn inbound_type_error(self, frame_type: ControlFrameType) -> Option<
        ProfileBootstrapError,
    > {
        if self.ready() {
            if frame_type == ControlFrameType::Settings {
                Some(ProfileBootstrapError::SettingsAfterReady)
            } else {
                None
            }
        } else if frame_type == ControlFrameType::Settings {
            None
        } else {
            Some(ProfileBootstrapError::UnexpectedFrameBeforeReady(frame_type))
        }
    }

    /// What stands against sending a frame of this type, if anything.
    pub open spec fn outbound_type_error(self, frame_type: ControlFrameType) -> Option<
        ProfileBootstrapError,
    > {
        if !self.ready() && frame_type == ControlFrameType::Settings && self.local_settings_sent {
            Some(ProfileBootstrapError::DuplicateSettings)
        } else {
            self.inbound_type_error(frame_type)
        }
    }

    pub fn new(local_settings: Settings) -> (state: Self)
        ensures
            state == (BootstrapState {
                local_settings,
                local_settings_sent: false,
                peer_settings: None,
            }),
    {
        BootstrapState { local_settings, local_settings_sent: false, peer_settings: None }
    }

    /// Begins the exchange on a fresh control stream.
    pub fn begin(profile: ValidatedControlProfile, is_zero_rtt: bool) -> (state: Result<
        Self,
        ProfileBootstrapError,
    >)
        ensures
            is_zero_rtt ==> state == Err::<BootstrapState, _>(
                ProfileBootstrapError::ZeroRttControlStream,
            ),
            !is_zero_rtt ==> state == Ok::<_, ProfileBootstrapError>(
                (BootstrapState {
                    local_settings: profile.spec_local_settings(),
                    local_settings_sent: false,
                    peer_settings: None,
                }),
            ) && profile.spec_local_settings().encodable(),
    {
        if is_zero_rtt {
            return Err(ProfileBootstrapError::ZeroRttControlStream);
        }
        Ok(BootstrapState::new(profile.local_settings()))
    }

    pub fn mark_local_settings_sent(&mut self) -> (marked: Result<(), ProfileBootstrapError>)
        ensures
            old(self).local_settings_sent ==> {
                &&& marked == Err::<(), _>(ProfileBootstrapError::DuplicateSettings)
                &&& *final(self) == *old(self)
            },
            !old(self).local_settings_sent ==> {
                &&& marked is Ok
                &&& *final(self) == (BootstrapState { local_settings_sent: true, ..*old(self) })
            },
    {
        if self.local_settings_sent {
            return Err(ProfileBootstrapError::DuplicateSettings);
        }
        self.local_settings_sent = true;
        Ok(())
    }

    pub fn receive_settings(&mut self, settings: Settings) -> (received: Result<
        (),
        ProfileBootstrapError,
    >)
        ensures
            match old(self).peer_settings_error(settings) {
                Some(error) => received == Err::<(), _>(error) && *final(self) == *old(self),
                None => received is Ok && *final(self) == (BootstrapState {
                    peer_settings: Some(settings),
                    ..*old(self)
                }),
            },
    {
        if self.peer_settings.is_some() {
            return Err(ProfileBootstrapError::DuplicateSettings);
        }
        let expected = self.local_settings.semantic_role.opposite();
        if settings.semantic_role != expected {
            return Err(
                ProfileBootstrapError::PeerRoleMismatch {
                    expected,
                    received: settings.semantic_role,
                },
            );
        }
        self.peer_settings = Some(settings);
        Ok(())
    }

    /// Takes the body of the peer's settings frame.
    pub fn receive_peer_settings(&mut self, body: &[u8]) -> (received: Result<
        (),
        ProfileBootstrapError,
    >)
        ensures
            match Settings::parse(body@) {
                Err(error) => {
                    &&& received == Err::<(), _>(ProfileBootstrapError::Settings(error))
                    &&& *final(self) == *old(self)
                },
                Ok(settings) => match old(self).peer_settings_error(settings) {
                    Some(error) => received == Err::<(), _>(error) && *final(self) == *old(self),
                    None => received is Ok && *final(self) == (BootstrapState {
                        peer_settings: Some(settings),
                        ..*old(self)
                    }),
                },
            },
    {
        match Settings::decode(body) {
            Err(error) => Err(ProfileBootstrapError::Settings(error)),
            Ok(settings) => self.receive_settings(settings),
        }
    }

    pub fn is_ready(self) -> (ready: bool)
        ensures
            ready == self.ready(),
    {
        self.local_settings_sent && self.peer_settings.is_some()
    }

    pub fn peer_settings(self) -> (settings: Settings)
        requires
            self.peer_settings is Some,
        ensures
            Some(settings) == self.peer_settings,
    {
        self.peer_settings.unwrap()
    }

    pub fn validate_inbound_type(self, frame_type: ControlFrameType) -> (checked: Result<
        (),
        ProfileBootstrapError,
    >)
        ensures
            match self.inbound_type_error(frame_type) {
                Some(error) => checked == Err::<(), _>(error),
                None => checked is Ok,
            },
    {
        if self.is_ready() {
            if frame_type == ControlFrameType::Settings {
                Err(ProfileBootstrapError::SettingsAfterReady)
            } else {
                Ok(())
            }
        } else if frame_type == ControlFrameType::Settings {
            Ok(())
        } else {
            Err(ProfileBootstrapError::UnexpectedFrameBeforeReady(frame_type))
        }
    }

    pub fn validate_outbound_type(self, frame_type: ControlFrameType) -> (checked: Result<
        (),
        ProfileBootstrapError,
    >)
        ensures
            match self.outbound_type_error(frame_type) {
                Some(error) => checked == Err::<(), _>(error),
                None => checked is Ok,
            },
    {
        if self.is_ready() {
            if frame_type == ControlFrameType::Settings {
                Err(ProfileBootstrapError::SettingsAfterReady)
            } else {
                Ok(())
            }
        } else if frame_type == ControlFrameType::Settings && !self.local_settings_sent {
            Ok(())
        } else if frame_type == ControlFrameType::Settings {
            Err(ProfileBootstrapError::DuplicateSettings)
        } else {
            Err(ProfileBootstrapError::UnexpectedFrameBeforeReady(frame_type))
        }
    }

    /// The settings frame to send, where it may be sent.
    pub fn begin_local_settings(self) -> (write: Result<FrameWrite, ProfileBootstrapError>)
        requires
            self.local_settings.encodable(),
        ensures
            match self.outbound_type_error(ControlFrameType::Settings) {
                Some(error) => write == Err::<FrameWrite, _>(error),
                None => write matches Ok(write) && write.remaining() == frame_bytes(
                    ControlFrameType::Settings,
                    self.local_settings.bytes(),
                ),
            },
    {
        if let Err(error) = self.validate_outbound_type(ControlFrameType::Settings) {
            return Err(error);
        }
        let body = self.local_settings.encode();
        let mut owned: Vec<u8> = Vec::new();
        owned.extend_from_slice(body.as_slice());
        proof {
            assert(owned@ =~= self.local_settings.bytes());
        }
        match FrameWrite::new(ControlFrameType::Settings, owned) {
            Ok(write) => Ok(write),
            Err(error) => Err(ProfileBootstrapError::Frame(error)),
        }
    }

    /// The reader of the peer's settings frame.
    pub fn begin_peer_settings(self) -> (read: FrameRead)
        ensures
            read == (FrameRead {
                gate: InboundGate::Bootstrap(self),
                max_control_frame_bytes: self.local_settings.max_control_frame_bytes,
                max_negotiation_frame_bytes: self.local_settings.max_negotiation_frame_bytes,
                state: FrameReadState::TypeFirst,
            }),
    {
        FrameRead {
            gate: InboundGate::Bootstrap(self),
            max_control_frame_bytes: self.local_settings.max_control_frame_bytes,
            max_negotiation_frame_bytes: self.local_settings.max_negotiation_frame_bytes,
            state: FrameReadState::TypeFirst,
        }
    }

    /// Ends the exchange: the peer's settings, and the two directions of the stream.
    pub fn into_ready_parts(self) -> (parts: (Settings, ControlSender, ControlReceiver))
        requires
            self.ready(),
        ensures
            Some(parts.0) == self.peer_settings,
            parts.1 == (ControlSender {
                local_settings: self.local_settings,
                peer_settings: parts.0,
                io_state: DirectionIoState::Clean,
            }),
            parts.2 == (ControlReceiver {
                local_settings: self.local_settings,
                io_state: DirectionIoState::Clean,
            }),
    {
        let peer_settings = self.peer_settings();
        let local_settings = self.local_settings;
        (
            peer_settings,
            ControlSender { local_settings, peer_settings, io_state: DirectionIoState::new() },
            ControlReceiver { local_settings, io_state: DirectionIoState::new() },
        )
    }
}

/// Two endpoints that send each other their settings become ready, both or neither, and
/// they do exactly if their roles differ.
pub proof fn law_bootstrap_needs_opposite_roles(left: Settings, right: Settings)
    requires
        left.encodable(),
        right.encodable(),
        left.error() is None,
        right.error() is None,
    ensures
        ({
            let at_left = BootstrapState {
                local_settings: left,
                local_settings_sent: true,
                peer_settings: None,
            };
            let at_right = BootstrapState {
                local_settings: right,
                local_settings_sent: true,
                peer_settings: None,
            };
            let from_right = Settings::parse(right.bytes());
            let from_left = Settings::parse(left.bytes());
            &&& from_right == Ok::<_, SettingsError>(right)
            &&& from_left == Ok::<_, SettingsError>(left)
            &&& at_left.peer_settings_error(right) is None <==> left.semantic_role
                != right.semantic_role
            &&& at_right.peer_settings_error(left) is None <==> left.semantic_role
                != right.semantic_role
        }),
{
    law_settings_round_trip(left, Seq::empty());
    law_settings_round_trip(right, Seq::empty());
}

/// Once ready, a connection sends and receives no settings; before that it sends and
/// receives nothing else.
pub proof fn law_settings_come_first(state: BootstrapState, frame_type: ControlFrameType)
    ensures
        state.inbound_type_error(frame_type) is None <==> (state.ready() != (frame_type
            == ControlFrameType::Settings)),
        state.outbound_type_error(frame_type) is None ==> state.inbound_type_error(
            frame_type,
        ) is None,
        state.local_settings_sent ==> state.outbound_type_error(ControlFrameType::Settings) is Some,
{
}

/// Whether a direction of the control stream stands between two frames.
#[derive(Debug, Clone, Copy, PartialEq, Eq, Structural)]
pub enum DirectionIoState {
    Clean,
    InFlightOrPoisoned,
}

impl DirectionIoState {
    pub fn new() -> (state: Self)
        ensures
            state == DirectionIoState::Clean,
    {
        DirectionIoState::Clean
    }

    /// Starts a frame. A frame that was started and not completed bars every further one.
    pub fn begin(&mut self) -> (begun: Result<(), ProfileBootstrapError>)
        ensures
            *old(self) == DirectionIoState::Clean ==> begun is Ok,
            *old(self) != DirectionIoState::Clean ==> begun == Err::<(), _>(
                ProfileBootstrapError::ControlChannelPoisoned,
            ),
            *final(self) == DirectionIoState::InFlightOrPoisoned,
    {
        if *self != DirectionIoState::Clean {
            return Err(ProfileBootstrapError::ControlChannelPoisoned);
        }
        *self = DirectionIoState::InFlightOrPoisoned;
        Ok(())
    }

    /// Completes the frame that was started.
    pub fn complete(&mut self)
        requires
            *old(self) == DirectionIoState::InFlightOrPoisoned,
        ensures
            *final(self) == DirectionIoState::Clean,
    {
        *self = DirectionIoState::Clean;
    }
}

/// A frame on the stream: its type, the length of its body, and the body.
pub open spec fn frame_bytes(frame_type: ControlFrameType, body: Seq<u8>) -> Seq<u8> {
    varint_bytes(frame_type.number() as nat) + varint_bytes(body.len()) + body
}

/// A frame on its way out, and how much of it was written: of the header, then of the
/// body.
#[derive(Debug)]
pub struct FrameWrite {
    header: FixedBytes<16>,
    body: Vec<u8>,
    header_offset: usize,
    body_offset: usize,
}

impl FrameWrite {
    #[verifier::type_invariant]
    spec fn wf(&self) -> bool {
        &&& self.header_offset <= self.header@.len() <= 16
        &&& self.body_offset <= self.body@.len()
        &&& self.body_offset > 0 ==> self.header_offset == self.header@.len()
    }

    /// The bytes that are still to be written.
    pub closed spec fn remaining(&self) -> Seq<u8> {
        self.header@.skip(self.header_offset as int) + self.body@.skip(self.body_offset as int)
    }

    /// How many of them are handed out at once.
    pub closed spec fn chunk_len(&self) -> nat {
        if self.header_offset < self.header@.len() {
            (self.header@.len() - self.header_offset) as nat
        } else {
            (self.body@.len() - self.body_offset) as nat
        }
    }

    /// Starts a frame.
    pub fn new(frame_type: ControlFrameType, body: Vec<u8>) -> (write: Result<
        Self,
        ControlFrameError,
    >)
        ensures
            body@.len() > MAX_VARINT ==> write == Err::<FrameWrite, _>(
                ControlFrameError::VarIntEncode(
                    VarIntEncodeError::OutOfRange(body@.len() as u64),
                ),
            ),
            body@.len() <= MAX_VARINT ==> {
                &&& write is Ok
                &&& write->Ok_0.remaining() == frame_bytes(frame_type, body@)
            },
    {
        let body_len: u64 = body.len() as u64;
        if let Err(error) = encode_varint(body_len) {
            return Err(ControlFrameError::VarIntEncode(error));
        }
        let header = FixedBytes::<16>::new().with_varint(frame_type.wire()).with_varint(body_len);
        let ghost whole = body@;
        let write = FrameWrite { header, body, header_offset: 0, body_offset: 0 };
        proof {
            assert(write.remaining() =~= frame_bytes(frame_type, whole));
        }
        Ok(write)
    }

    /// The next bytes to write, or nothing once all are written.
    pub fn next_chunk(&self) -> (chunk: Option<&[u8]>)
        ensures
            chunk is None <==> self.remaining().len() == 0,
            chunk matches Some(chunk) ==> {
                &&& 0 < chunk@.len() <= self.remaining().len()
                &&& chunk@.len() == self.chunk_len()
                &&& chunk@ == self.remaining().take(chunk@.len() as int)
            },
    {
        proof {
            use_type_invariant(self);
        }
        let header = self.header.as_slice();
        let body = self.body.as_slice();
        if self.header_offset < header.len() {
            let chunk = vstd::slice::slice_subrange(header, self.header_offset, header.len());
            proof {
                assert(chunk@ =~= self.remaining().take(chunk@.len() as int));
            }
            Some(chunk)
        } else if self.body_offset < body.len() {
            let chunk = vstd::slice::slice_subrange(body, self.body_offset, body.len());
            proof {
                assert(chunk@ =~= self.remaining().take(chunk@.len() as int));
            }
            Some(chunk)
        } else {
            None
        }
    }

    /// Records that `written` bytes of the chunk were written.
    pub fn wrote(&mut self, written: usize) -> (progress: Result<(), ControlFrameError>)
        requires
            written <= old(self).chunk_len(),
        ensures
            written == 0 ==> progress == Err::<(), _>(ControlFrameError::ZeroWriteProgress),
            written > 0 ==> progress is Ok,
            final(self).remaining() == old(self).remaining().skip(written as int),
    {
        proof {
            use_type_invariant(&*self);
        }
        let ghost before = self.remaining();
        if written == 0 {
            proof {
                assert(before.skip(0) =~= before);
            }
            return Err(ControlFrameError::ZeroWriteProgress);
        }
        let header_len: usize = self.header.as_slice().len();
        if self.header_offset < header_len {
            self.header_offset = self.header_offset + written;
        } else {
            proof {
                assert(self.body_offset + written <= self.body.len());
            }
            self.body_offset = self.body_offset + written;
        }
        proof {
            assert(self.remaining() =~= before.skip(written as int));
        }
        Ok(())
    }
}

/// What a frame that comes in has to pass once its type is known.
#[derive(Debug, Clone, Copy, PartialEq, Eq, Structural)]
pub enum InboundGate {
    /// The exchange of settings is under way.
    Bootstrap(BootstrapState),
    /// The profile is ready.
    Ready,
}

impl InboundGate {
    pub open spec fn error(self, frame_type: ControlFrameType) -> Option<ProfileBootstrapError> {
        match self {
            InboundGate::Bootstrap(state) => state.inbound_type_error(frame_type),
            InboundGate::Ready => if frame_type == ControlFrameType::Settings {
                Some(ProfileBootstrapError::SettingsAfterReady)
            } else {
                None
            },
        }
    }

    fn check(self, frame_type: ControlFrameType) -> (checked: Result<(), ProfileBootstrapError>)
        ensures
            match self.error(frame_type) {
                Some(error) => checked == Err::<(), _>(error),
                None => checked is Ok,
            },
    {
        match self {
            InboundGate::Bootstrap(state) => state.validate_inbound_type(frame_type),
            InboundGate::Ready => if frame_type == ControlFrameType::Settings {
                Err(ProfileBootstrapError::SettingsAfterReady)
            } else {
                Ok(())
            },
        }
    }
}

/// How much of a frame was read.
#[derive(Debug, Clone, Copy, PartialEq, Eq, Structural)]
pub enum FrameReadState {
    TypeFirst,
    TypeRest(u8),
    LengthFirst(ControlFrameType),
    LengthRest(ControlFrameType, u8),
    Body(ControlFrameType, usize),
}

/// A frame on its way in. The type is judged before the length is read, and the length
/// before room is made for the body.
#[derive(Debug, Clone, Copy, PartialEq, Eq, Structural)]
pub struct FrameRead {
    pub gate: InboundGate,
    pub max_control_frame_bytes: u64,
    pub max_negotiation_frame_bytes: u64,
    pub state: FrameReadState,
}

/// What a body length comes to under the local limits.
pub open spec fn inbound_body_length(
    frame_type: ControlFrameType,
    body_len: u64,
    max_control: u64,
    max_negotiation: u64,
) -> Result<usize, ControlFrameError> {
    if body_len > max_control {
        Err(ControlFrameError::BodyTooLarge { received: body_len, limit: max_control })
    } else if frame_type.negotiates() && body_len > max_negotiation {
        Err(
            ControlFrameError::NegotiationBodyTooLarge {
                received: body_len,
                limit: max_negotiation,
            },
        )
    } else if body_len > usize::MAX {
        Err(ControlFrameError::BodyLengthOutOfRange)
    } else {
        Ok(body_len as usize)
    }
}

pub fn validate_inbound_body_length(
    frame_type: ControlFrameType,
    body_len: u64,
    local_max_control_frame_bytes: u64,
    local_max_negotiation_frame_bytes: u64,
) -> (length: Result<usize, ControlFrameError>)
    ensures
        length == inbound_body_length(
            frame_type,
            body_len,
            local_max_control_frame_bytes,
            local_max_negotiation_frame_bytes,
        ),
{
    if body_len > local_max_control_frame_bytes {
        return Err(
            ControlFrameError::BodyTooLarge {
                received: body_len,
                limit: local_max_control_frame_bytes,
            },
        );
    }
    if frame_type.is_negotiation() && body_len > local_max_negotiation_frame_bytes {
        return Err(
            ControlFrameError::NegotiationBodyTooLarge {
                received: body_len,
                limit: local_max_negotiation_frame_bytes,
            },
        );
    }
    if body_len > usize::MAX as u64 {
        return Err(ControlFrameError::BodyLengthOutOfRange);
    }
    Ok(body_len as usize)
}

impl FrameRead {
    /// The bytes that have to be read next.
    pub open spec fn wants(self) -> nat {
        match self.state {
            FrameReadState::TypeFirst => 1,
            FrameReadState::TypeRest(first) => (announced_len(first) - 1) as nat,
            FrameReadState::LengthFirst(_) => 1,
            FrameReadState::LengthRest(_, first) => (announced_len(first) - 1) as nat,
            FrameReadState::Body(_, length) => length as nat,
        }
    }

    /// What the complete encoding of the type leads to.
    pub open spec fn type_read(self, encoded: Seq<u8>) -> Result<
        FrameReadState,
        ProfileBootstrapError,
    > {
        match parse_varint(encoded) {
            Err(error) => Err(ProfileBootstrapError::Frame(ControlFrameError::VarInt(error))),
            Ok((number, _)) => match ControlFrameType::numbered(number) {
                None => Err(
                    ProfileBootstrapError::Frame(ControlFrameError::UnknownFrameType(number)),
                ),
                Some(frame_type) => match self.gate.error(frame_type) {
                    Some(error) => Err(error),
                    None => Ok(FrameReadState::LengthFirst(frame_type)),
                },
            },
        }
    }

    /// What the complete encoding of the length leads to.
    pub open spec fn length_read(self, frame_type: ControlFrameType, encoded: Seq<u8>) -> Result<
        FrameReadState,
        ProfileBootstrapError,
    > {
        match parse_varint(encoded) {
            Err(error) => Err(ProfileBootstrapError::Frame(ControlFrameError::VarInt(error))),
            Ok((length, _)) => match inbound_body_length(
                frame_type,
                length,
                self.max_control_frame_bytes,
                self.max_negotiation_frame_bytes,
            ) {
                Err(error) => Err(ProfileBootstrapError::Frame(error)),
                Ok(length) => Ok(FrameReadState::Body(frame_type, length)),
            },
        }
    }

    /// What the next bytes of the header lead to.
    pub open spec fn fed(self, bytes: Seq<u8>) -> Result<FrameReadState, ProfileBootstrapError> {
        match self.state {
            FrameReadState::TypeFirst => if announced_len(bytes[0]) == 1 {
                self.type_read(bytes)
            } else {
                Ok(FrameReadState::TypeRest(bytes[0]))
            },
            FrameReadState::TypeRest(first) => self.type_read(seq![first] + bytes),
            FrameReadState::LengthFirst(frame_type) => if announced_len(bytes[0]) == 1 {
                self.length_read(frame_type, bytes)
            } else {
                Ok(FrameReadState::LengthRest(frame_type, bytes[0]))
            },
            FrameReadState::LengthRest(frame_type, first) => self.length_read(
                frame_type,
                seq![first] + bytes,
            ),
            FrameReadState::Body(_, _) => Ok(self.state),
        }
    }

    pub fn wanted(&self) -> (bytes: usize)
        ensures
            bytes == self.wants(),
            !(self.state is Body) ==> bytes <= 8,
    {
        match self.state {
            FrameReadState::TypeFirst => 1,
            FrameReadState::TypeRest(first) => announced_width(first) - 1,
            FrameReadState::LengthFirst(_) => 1,
            FrameReadState::LengthRest(_, first) => announced_width(first) - 1,
            FrameReadState::Body(_, length) => length,
        }
    }

    /// Takes the next bytes of the header.
    pub fn feed(&mut self, bytes: &[u8]) -> (fed: Result<(), ProfileBootstrapError>)
        requires
            !(old(self).state is Body),
            bytes@.len() == old(self).wants(),
            old(self).wants() > 0,
        ensures
            match old(self).fed(bytes@) {
                Err(error) => fed == Err::<(), _>(error) && *final(self) == *old(self),
                Ok(state) => fed is Ok && *final(self) == (FrameRead { state, ..*old(self) }),
            },
    {
        let next = match self.state {
            FrameReadState::TypeFirst => if announced_width(bytes[0]) == 1 {
                self.take_type(bytes)
            } else {
                Ok(FrameReadState::TypeRest(bytes[0]))
            },
            FrameReadState::TypeRest(first) => {
                let encoded = prepend(first, bytes);
                self.take_type(encoded.as_slice())
            },
            FrameReadState::LengthFirst(frame_type) => if announced_width(bytes[0]) == 1 {
                self.take_length(frame_type, bytes)
            } else {
                Ok(FrameReadState::LengthRest(frame_type, bytes[0]))
            },
            FrameReadState::LengthRest(frame_type, first) => {
                let encoded = prepend(first, bytes);
                self.take_length(frame_type, encoded.as_slice())
            },
            FrameReadState::Body(_, _) => Ok(self.state),
        };
        match next {
            Ok(state) => {
                self.state = state;
                Ok(())
            },
            Err(error) => Err(error),
        }
    }

    fn take_type(&self, encoded: &[u8]) -> (state: Result<FrameReadState, ProfileBootstrapError>)
        ensures
            state == self.type_read(encoded@),
    {
        let number: u64 = match decode_varint(encoded) {
            Ok((number, _)) => number,
            Err(error) => {
                return Err(ProfileBootstrapError::Frame(ControlFrameError::VarInt(error)))
            },
        };
        let frame_type = match ControlFrameType::from_wire(number) {
            Ok(frame_type) => frame_type,
            Err(error) => return Err(ProfileBootstrapError::Frame(error)),
        };
        match self.gate.check(frame_type) {
            Ok(()) => Ok(FrameReadState::LengthFirst(frame_type)),
            Err(error) => Err(error),
        }
    }

    fn take_length(&self, frame_type: ControlFrameType, encoded: &[u8]) -> (state: Result<
        FrameReadState,
        ProfileBootstrapError,
    >)
        ensures
            state == self.length_read(frame_type, encoded@),
    {
        let length: u64 = match decode_varint(encoded) {
            Ok((length, _)) => length,
            Err(error) => {
                return Err(ProfileBootstrapError::Frame(ControlFrameError::VarInt(error)))
            },
        };
        match validate_inbound_body_length(
            frame_type,
            length,
            self.max_control_frame_bytes,
            self.max_negotiation_frame_bytes,
        ) {
            Ok(length) => Ok(FrameReadState::Body(frame_type, length)),
            Err(error) => Err(ProfileBootstrapError::Frame(error)),
        }
    }

    /// The frame, once its body was read.
    pub fn finish(self, body: Vec<u8>) -> (frame: ControlFrame)
        requires
            self.state matches FrameReadState::Body(_, length) && body@.len() == length,
        ensures
            self.state matches FrameReadState::Body(frame_type, _) && frame.holds(
                frame_type,
                body@,
            ),
    {
        let frame_type = match self.state {
            FrameReadState::Body(frame_type, _) => frame_type,
            _ => ControlFrameType::Settings,
        };
        ControlFrame { frame_type, body }
    }

    /// What it means that the next bytes could not be read: an end before the first byte
    /// of a frame is the end of the stream.
    pub fn read_failed(&self, failure: ReadFailure) -> (error: ProfileBootstrapError)
        ensures
            self.state is TypeFirst && failure == ReadFailure::FinishedEarly(0) ==> error
                == ProfileBootstrapError::Frame(ControlFrameError::EndOfStream),
            !(self.state is TypeFirst && failure == ReadFailure::FinishedEarly(0)) ==> error
                == ProfileBootstrapError::Frame(ControlFrameError::Read(failure)),
    {
        let at_start: bool = match self.state {
            FrameReadState::TypeFirst => true,
            _ => false,
        };
        if at_start && failure == ReadFailure::FinishedEarly(0) {
            ProfileBootstrapError::Frame(ControlFrameError::EndOfStream)
        } else {
            ProfileBootstrapError::Frame(ControlFrameError::Read(failure))
        }
    }
}

fn prepend(first: u8, rest: &[u8]) -> (bytes: Vec<u8>)
    ensures
        bytes@ == seq![first] + rest@,
{
    let mut bytes: Vec<u8> = Vec::new();
    bytes.push(first);
    bytes.extend_from_slice(rest);
    proof {
        assert(bytes@ =~= seq![first] + rest@);
    }
    bytes
}

/// Room for a body of the given length, filled with zeros, where memory allows it. An empty
/// body needs none.
pub fn reserve_frame_body(length: usize) -> (body: Result<Vec<u8>, ControlFrameError>)
    ensures
        match body {
            Ok(body) => body@ == Seq::new(length as nat, |i: int| 0u8),
            Err(error) => error is Allocation && length > 0,
        },
{
    match reserve_bytes(length) {
        Ok(mut body) => {
            body.resize(length, 0);
            proof {
                assert(body@ =~= Seq::new(length as nat, |i: int| 0u8));
            }
            Ok(body)
        },
        Err(error) => Err(ControlFrameError::Allocation(error)),
    }
}

/// Where reading the header of `stream` ends after at most `steps` reads, and what is
/// left of the stream.
pub open spec fn read_header(read: FrameRead, stream: Seq<u8>, steps: nat) -> Result<
    (FrameReadState, Seq<u8>),
    ProfileBootstrapError,
>
    decreases steps,
{
    if steps == 0 || read.state is Body || stream.len() < read.wants() {
        Ok((read.state, stream))
    } else {
        match read.fed(stream.take(read.wants() as int)) {
            Err(error) => Err(error),
            Ok(state) => read_header(
                FrameRead { state, ..read },
                stream.skip(read.wants() as int),
                (steps - 1) as nat,
            ),
        }
    }
}

/// A frame that was written is read back: its header leads to its type and length, and
/// what is left of the stream starts with its body.
pub proof fn law_frame_round_trip(
    read: FrameRead,
    frame_type: ControlFrameType,
    body: Seq<u8>,
    rest: Seq<u8>,
)
    requires
        read.state == FrameReadState::TypeFirst,
        read.gate.error(frame_type) is None,
        body.len() <= MAX_VARINT,
        inbound_body_length(
            frame_type,
            body.len() as u64,
            read.max_control_frame_bytes,
            read.max_negotiation_frame_bytes,
        ) is Ok,
    ensures
        read_header(read, frame_bytes(frame_type, body) + rest, 3) == Ok::<
            _,
            ProfileBootstrapError,
        >((FrameReadState::Body(frame_type, body.len() as usize), body + rest)),
{
    let number = frame_type.number();
    let kind = varint_bytes(number as nat);
    let length = varint_bytes(body.len());
    let stream = frame_bytes(frame_type, body) + rest;
    lemma_announces(number as nat);
    lemma_announces(body.len());
    law_varint_round_trip(number, Seq::empty());
    law_varint_round_trip(body.len() as u64, Seq::empty());
    assert(kind + Seq::<u8>::empty() =~= kind);
    assert(length + Seq::<u8>::empty() =~= length);
    assert(stream.take(1) =~= kind);
    let at_length = FrameRead { state: FrameReadState::LengthFirst(frame_type), ..read };
    assert(read.fed(stream.take(1)) == Ok::<_, ProfileBootstrapError>(at_length.state));
    let after_type = stream.skip(1);
    assert(after_type =~= length + body + rest);
    let first = after_type.take(1);
    assert(first[0] == length[0]);
    let width = varint_len(body.len());
    reveal_with_fuel(read_header, 4);
    if width == 1 {
        assert(first =~= length);
        assert(after_type.skip(1) =~= body + rest);
    } else {
        let after_first = after_type.skip(1);
        let others = after_first.take(width - 1);
        assert(seq![length[0]] + others =~= length);
        assert(after_first.skip(width - 1) =~= body + rest);
        let at_rest = FrameRead {
            state: FrameReadState::LengthRest(frame_type, length[0]),
            ..read
        };
        assert(at_length.fed(first) == Ok::<_, ProfileBootstrapError>(at_rest.state));
        assert(at_rest.wants() == width - 1);
    }
}

/// What stands against sending a body of this length, if anything: both sides' limits
/// hold, and the negotiation limits for negotiation frames.
pub open spec fn outbound_body_error(
    local: Settings,
    peer: Settings,
    frame_type: ControlFrameType,
    body_len: nat,
) -> Option<ControlFrameError> {
    let control_limit = if local.max_control_frame_bytes < peer.max_control_frame_bytes {
        local.max_control_frame_bytes
    } else {
        peer.max_control_frame_bytes
    };
    let negotiation_limit = if local.max_negotiation_frame_bytes
        < peer.max_negotiation_frame_bytes {
        local.max_negotiation_frame_bytes
    } else {
        peer.max_negotiation_frame_bytes
    };
    if body_len > control_limit {
        Some(ControlFrameError::BodyTooLarge { received: body_len as u64, limit: control_limit })
    } else if frame_type.negotiates() && body_len > negotiation_limit {
        Some(
            ControlFrameError::NegotiationBodyTooLarge {
                received: body_len as u64,
                limit: negotiation_limit,
            },
        )
    } else {
        None
    }
}

pub fn validate_outbound_body(
    local: Settings,
    peer: Settings,
    frame_type: ControlFrameType,
    body_len: usize,
) -> (checked: Result<(), ControlFrameError>)
    ensures
        match outbound_body_error(local, peer, frame_type, body_len as nat) {
            Some(error) => checked == Err::<(), _>(error),
            None => checked is Ok,
        },
{
    let body_len: u64 = body_len as u64;
    let control_limit: u64 = if local.max_control_frame_bytes < peer.max_control_frame_bytes {
        local.max_control_frame_bytes
    } else {
        peer.max_control_frame_bytes
    };
    if body_len > control_limit {
        return Err(ControlFrameError::BodyTooLarge { received: body_len, limit: control_limit });
    }
    if frame_type.is_negotiation() {
        let negotiation_limit: u64 = if local.max_negotiation_frame_bytes
            < peer.max_negotiation_frame_bytes {
            local.max_negotiation_frame_bytes
        } else {
            peer.max_negotiation_frame_bytes
        };
        if body_len > negotiation_limit {
            return Err(
                ControlFrameError::NegotiationBodyTooLarge {
                    received: body_len,
                    limit: negotiation_limit,
                },
            );
        }
    }
    Ok(())
}

/// A body that may be sent is one that the peer takes.
pub proof fn law_sent_bodies_are_taken(
    local: Settings,
    peer: Settings,
    frame_type: ControlFrameType,
    body_len: u64,
)
    requires
        body_len <= usize::MAX,
        outbound_body_error(local, peer, frame_type, body_len as nat) is None,
    ensures
        inbound_body_length(
            frame_type,
            body_len,
            peer.max_control_frame_bytes,
            peer.max_negotiation_frame_bytes,
        ) == Ok::<_, ControlFrameError>(body_len as usize),
{
}

/// The sending direction of a ready control stream.
#[derive(Debug, PartialEq, Eq)]
pub struct ControlSender {
    pub local_settings: Settings,
    pub peer_settings: Settings,
    pub io_state: DirectionIoState,
}

impl ControlSender {
    /// What stands against starting a frame, before and after the direction is taken.
    pub open spec fn send_error(self, frame_type: ControlFrameType, body_len: nat) -> Option<
        ProfileBootstrapError,
    > {
        if frame_type == ControlFrameType::Settings {
            Some(ProfileBootstrapError::SettingsOwnedByBootstrap)
        } else {
            match outbound_body_error(
                self.local_settings,
                self.peer_settings,
                frame_type,
                body_len,
            ) {
                Some(error) => Some(ProfileBootstrapError::Frame(error)),
                None => if self.io_state != DirectionIoState::Clean {
                    Some(ProfileBootstrapError::ControlChannelPoisoned)
                } else {
                    None
                },
            }
        }
    }

    /// Starts a frame. From here on the direction is taken until the frame is complete: a
    /// write that is dropped or fails bars every further one.
    pub fn begin_send(&mut self, frame_type: ControlFrameType, body: Vec<u8>) -> (write: Result<
        FrameWrite,
        ProfileBootstrapError,
    >)
        ensures
            final(self).local_settings == old(self).local_settings,
            final(self).peer_settings == old(self).peer_settings,
            match old(self).send_error(frame_type, body@.len()) {
                Some(error) => {
                    &&& write == Err::<FrameWrite, _>(error)
                    &&& final(self).io_state == old(self).io_state
                },
                None => {
                    &&& final(self).io_state == DirectionIoState::InFlightOrPoisoned
                    &&& body@.len() <= MAX_VARINT ==> write is Ok && write->Ok_0.remaining()
                        == frame_bytes(frame_type, body@)
                    &&& body@.len() > MAX_VARINT ==> write == Err::<FrameWrite, _>(
                        ProfileBootstrapError::Frame(
                            ControlFrameError::VarIntEncode(
                                VarIntEncodeError::OutOfRange(body@.len() as u64),
                            ),
                        ),
                    )
                },
            },
    {
        if frame_type == ControlFrameType::Settings {
            return Err(ProfileBootstrapError::SettingsOwnedByBootstrap);
        }
        if let Err(error) = validate_outbound_body(
            self.local_settings,
            self.peer_settings,
            frame_type,
            body.len(),
        ) {
            return Err(ProfileBootstrapError::Frame(error));
        }
        if let Err(error) = self.io_state.begin() {
            return Err(error);
        }
        match FrameWrite::new(frame_type, body) {
            Ok(write) => Ok(write),
            Err(error) => Err(ProfileBootstrapError::Frame(error)),
        }
    }

    /// Completes the frame that was started.
    pub fn complete_send(&mut self)
        requires
            old(self).io_state == DirectionIoState::InFlightOrPoisoned,
        ensures
            *final(self) == (ControlSender { io_state: DirectionIoState::Clean, ..*old(self) }),
    {
        self.io_state.complete();
    }
}

/// What the peer's answer to the end of the stream means, once the last frame was a
/// negotiation failure.
pub fn terminal_send_outcome(stopped: Result<Option<u64>, WriteFailure>) -> (outcome: Result<
    (),
    ProfileBootstrapError,
>)
    ensures
        match stopped {
            Ok(None) => outcome is Ok,
            Ok(Some(code)) => outcome == Err::<(), _>(
                ProfileBootstrapError::Frame(
                    ControlFrameError::Write(WriteFailure::Stopped(code)),
                ),
            ),
            Err(failure) => outcome == Err::<(), _>(
                ProfileBootstrapError::Frame(ControlFrameError::Write(failure)),
            ),
        },
{
    match stopped {
        Ok(None) => Ok(()),
        Ok(Some(code)) => Err(
            ProfileBootstrapError::Frame(ControlFrameError::Write(WriteFailure::Stopped(code))),
        ),
        Err(failure) => Err(ProfileBootstrapError::Frame(ControlFrameError::Write(failure))),
    }
}

/// The receiving direction of a ready control stream.
#[derive(Debug, PartialEq, Eq)]
pub struct ControlReceiver {
    pub local_settings: Settings,
    pub io_state: DirectionIoState,
}

impl ControlReceiver {
    /// Starts a frame. From here on the direction is taken until the frame is complete.
    pub fn begin_receive(&mut self) -> (read: Result<FrameRead, ProfileBootstrapError>)
        ensures
            final(self).local_settings == old(self).local_settings,
            final(self).io_state == DirectionIoState::InFlightOrPoisoned,
            old(self).io_state != DirectionIoState::Clean ==> read == Err::<FrameRead, _>(
                ProfileBootstrapError::ControlChannelPoisoned,
            ),
            old(self).io_state == DirectionIoState::Clean ==> read == Ok::<
                _,
                ProfileBootstrapError,
            >(
                (FrameRead {
                    gate: InboundGate::Ready,
                    max_control_frame_bytes: old(self).local_settings.max_control_frame_bytes,
                    max_negotiation_frame_bytes: old(
                        self,
                    ).local_settings.max_negotiation_frame_bytes,
                    state: FrameReadState::TypeFirst,
                }),
            ),
    {
        if let Err(error) = self.io_state.begin() {
            return Err(error);
        }
        Ok(
            FrameRead {
                gate: InboundGate::Ready,
                max_control_frame_bytes: self.local_settings.max_control_frame_bytes,
                max_negotiation_frame_bytes: self.local_settings.max_negotiation_frame_bytes,
                state: FrameReadState::TypeFirst,
            },
        )
    }

    /// Completes the frame that was started.
    pub fn complete_receive(&mut self)
        requires
            old(self).io_state == DirectionIoState::InFlightOrPoisoned,
        ensures
            *final(self) == (ControlReceiver { io_state: DirectionIoState::Clean, ..*old(self) }),
    {
        self.io_state.complete();
    }
}

/// What a ready profile hands over: each direction of the control stream on its own.
#[derive(Debug)]
pub struct ProfileReadyParts {
    pub side: WireSide,
    pub profile: ValidatedControlProfile,
    pub peer_settings: Settings,
    pub sender: ControlSender,
    pub receiver: ControlReceiver,
}

impl ProfileReadyParts {
    /// Ends the bootstrap of a connection.
    pub fn new(side: WireSide, profile: ValidatedControlProfile, bootstrap: BootstrapState) -> (parts:
        Self)
        requires
            bootstrap.ready(),
            bootstrap.local_settings == profile.spec_local_settings(),
        ensures
            parts.side == side,
            parts.profile == profile,
            Some(parts.peer_settings) == bootstrap.peer_settings,
            parts.sender == (ControlSender {
                local_settings: profile.spec_local_settings(),
                peer_settings: parts.peer_settings,
                io_state: DirectionIoState::Clean,
            }),
            parts.receiver == (ControlReceiver {
                local_settings: profile.spec_local_settings(),
                io_state: DirectionIoState::Clean,
            }),
    {
        let (peer_settings, sender, receiver) = bootstrap.into_ready_parts();
        ProfileReadyParts { side, profile, peer_settings, sender, receiver }
    }
}

/// A local limit is at fault for this reason.
pub open spec fn limit_at_fault(limits: LocalControlLimits, error: LocalControlLimitError) -> bool {
    let control = limits.max_control_frame_bytes;
    let negotiation = limits.max_negotiation_frame_bytes;
    match error {
        LocalControlLimitError::ControlFrameTooSmall => control < 33,
        LocalControlLimitError::ControlFrameOutOfRange => control >= 0x4000_0000_0000_0000,
        LocalControlLimitError::NegotiationFrameTooSmall => negotiation < 35,
        LocalControlLimitError::NegotiationFrameOutOfRange => false,
        LocalControlLimitError::NegotiationExceedsControl => negotiation > control,
        LocalControlLimitError::ZeroIncomingMessageBytes => limits.max_incoming_message_bytes == 0,
        LocalControlLimitError::IncomingMessageBytesOutOfRange => {
            limits.max_incoming_message_bytes >= 0x4000_0000_0000_0000
        },
    }
}

/// The place of a fault among those that are looked for.
pub open spec fn limit_fault_rank(error: LocalControlLimitError) -> int {
    match error {
        LocalControlLimitError::ControlFrameTooSmall => 0,
        LocalControlLimitError::ControlFrameOutOfRange => 1,
        LocalControlLimitError::NegotiationFrameTooSmall => 2,
        LocalControlLimitError::NegotiationFrameOutOfRange => 3,
        LocalControlLimitError::NegotiationExceedsControl => 4,
        LocalControlLimitError::ZeroIncomingMessageBytes => 5,
        LocalControlLimitError::IncomingMessageBytesOutOfRange => 6,
    }
}

/// Local limits are refused exactly where one of them is at fault, for the first fault there
/// is; where none is, each is announced as it was given, with the endpoint's flow limit.
pub proof fn law_local_limits_are_announced(
    limits: LocalControlLimits,
    flows: u64,
    other: LocalControlLimitError,
)
    ensures
        limits.error() matches Some(told) ==> {
            &&& limit_at_fault(limits, told)
            &&& limit_at_fault(limits, other) ==> limit_fault_rank(told) <= limit_fault_rank(other)
        },
        limit_at_fault(limits, other) ==> limits.error() is Some,
        limits.error() is None ==> {
            let settings = limits.settings(flows);
            &&& settings.semantic_role == limits.semantic_role
            &&& settings.max_control_frame_bytes == limits.max_control_frame_bytes
            &&& settings.max_negotiation_frame_bytes == limits.max_negotiation_frame_bytes
            &&& settings.max_active_incoming_flows == flows
            &&& settings.max_incoming_message_bytes == limits.max_incoming_message_bytes
        },
{
}

/// A setting of the peer is at fault for this reason.
pub open spec fn setting_at_fault(settings: Settings, error: SettingsError) -> bool {
    let control = settings.max_control_frame_bytes;
    let negotiation = settings.max_negotiation_frame_bytes;
    match error {
        SettingsError::ZeroControlFrameBytes => control == 0,
        SettingsError::ControlFrameTooSmall => control < 33,
        SettingsError::ZeroNegotiationFrameBytes => negotiation == 0,
        SettingsError::NegotiationFrameTooSmall => negotiation < 35,
        SettingsError::NegotiationExceedsControl => negotiation > control,
        SettingsError::ZeroActiveIncomingFlows => settings.max_active_incoming_flows == 0,
        SettingsError::ActiveIncomingFlowsExceedQuicStreamLimit => {
            settings.max_active_incoming_flows > 0x1000_0000_0000_0000
        },
        SettingsError::ZeroIncomingMessageBytes => settings.max_incoming_message_bytes == 0,
        _ => false,
    }
}

/// The place of a fault among those that are looked for.
pub open spec fn setting_fault_rank(error: SettingsError) -> int {
    match error {
        SettingsError::ZeroControlFrameBytes => 0,
        SettingsError::ControlFrameTooSmall => 1,
        SettingsError::ZeroNegotiationFrameBytes => 2,
        SettingsError::NegotiationFrameTooSmall => 3,
        SettingsError::NegotiationExceedsControl => 4,
        SettingsError::ZeroActiveIncomingFlows => 5,
        SettingsError::ActiveIncomingFlowsExceedQuicStreamLimit => 6,
        SettingsError::ZeroIncomingMessageBytes => 7,
        _ => 8,
    }
}

/// Settings are refused exactly where one of them is at fault, for the first fault there is.
pub proof fn law_settings_are_refused_for_a_fault(settings: Settings, other: SettingsError)
    ensures
        settings.error() matches Some(told) ==> {
            &&& setting_at_fault(settings, told)
            &&& setting_at_fault(settings, other) ==> setting_fault_rank(told)
                <= setting_fault_rank(other)
        },
        setting_at_fault(settings, other) ==> settings.error() is Some,
{
}

/// The body of a settings frame is one byte for the role, 1 for the authority, and behind it
/// the four limits: of control frames, of negotiation frames, of flows and of messages.
pub proof fn law_settings_body_fields(settings: Settings)
    requires
        settings.encodable(),
    ensures
        settings.bytes().len() > 0,
        settings.bytes()[0] == (if settings.semantic_role == SemanticRole::Authority {
            1u8
        } else {
            0u8
        }),
        holds_integers(
            settings.bytes().skip(1),
            seq![
                settings.max_control_frame_bytes,
                settings.max_negotiation_frame_bytes,
                settings.max_active_incoming_flows,
                settings.max_incoming_message_bytes,
            ],
        ),
{
    reveal_with_fuel(holds_integers, 5);
    let a = settings.max_control_frame_bytes;
    let b = settings.max_negotiation_frame_bytes;
    let c = settings.max_active_incoming_flows;
    let d = settings.max_incoming_message_bytes;
    let last = varint_bytes(d as nat);
    let third = varint_bytes(c as nat) + last;
    let second = varint_bytes(b as nat) + third;
    lemma_split_written(a, second);
    lemma_split_written(b, third);
    lemma_split_written(c, last);
    lemma_split_written(d, Seq::empty());
    assert(settings.bytes().skip(1) =~= varint_bytes(a as nat) + second);
    assert(last + Seq::empty() =~= last);
    let fields = seq![a, b, c, d];
    assert(fields.drop_first() =~= seq![b, c, d]);
    assert(fields.drop_first().drop_first() =~= seq![c, d]);
    assert(fields.drop_first().drop_first().drop_first() =~= seq![d]);
    assert(seq![d].drop_first() =~= Seq::<u64>::empty());
}

/// A frame on the stream is the number of its type, the length of its body and the body, and
/// nothing else. The numbers of the types are 0 to 9 in their order.
pub proof fn law_frame_layout(frame_type: ControlFrameType, body: Seq<u8>)
    requires
        body.len() <= MAX_VARINT,
    ensures
        ({
            let number = match frame_type {
                ControlFrameType::Settings => 0u64,
                ControlFrameType::NegotiationOffer => 1u64,
                ControlFrameType::NegotiationProposal => 2u64,
                ControlFrameType::NegotiationValidated => 3u64,
                ControlFrameType::NegotiationEstablished => 4u64,
                ControlFrameType::NegotiationFailed => 5u64,
                ControlFrameType::OpenFlow => 6u64,
                ControlFrameType::FlowAccept => 7u64,
                ControlFrameType::FlowReject => 8u64,
                ControlFrameType::FlowTerminate => 9u64,
            };
            let first = split_varint(frame_bytes(frame_type, body));
            &&& first is Ok
            &&& first->Ok_0.0 == number
            &&& split_varint(first->Ok_0.1) == Ok::<_, VarIntDecodeError>(
                (body.len() as u64, body),
            )
        }),
{
    let rest = varint_bytes(body.len()) + body;
    assert(frame_bytes(frame_type, body) =~= varint_bytes(frame_type.number() as nat) + rest);
    lemma_split_written(frame_type.number(), rest);
    lemma_split_written(body.len() as u64, body);
}

/// A body that comes in is taken exactly where it keeps to the limit of control frames and,
/// in a negotiation frame, to that of negotiation frames, and where the machine can hold it.
/// What is refused is told with the limit that it exceeds.
pub proof fn law_body_limits(
    frame_type: ControlFrameType,
    length: u64,
    control: u64,
    negotiation: u64,
)
    ensures
        ({
            let negotiates = frame_type == ControlFrameType::NegotiationOffer || frame_type
                == ControlFrameType::NegotiationProposal || frame_type
                == ControlFrameType::NegotiationValidated || frame_type
                == ControlFrameType::NegotiationEstablished || frame_type
                == ControlFrameType::NegotiationFailed;
            let taken = inbound_body_length(frame_type, length, control, negotiation);
            &&& frame_type.negotiates() == negotiates
            &&& taken is Ok <==> length <= control && (negotiates ==> length <= negotiation)
                && length <= usize::MAX
            &&& taken is Ok ==> taken->Ok_0 == length
            &&& length > control ==> taken == Err::<usize, _>(
                (ControlFrameError::BodyTooLarge { received: length, limit: control }),
            )
            &&& length <= control && negotiates && length > negotiation ==> taken == Err::<
                usize,
                _,
            >((ControlFrameError::NegotiationBodyTooLarge { received: length, limit: negotiation }))
        }),
{
}

/// A body may be sent exactly where both sides' limits allow it: those of control frames,
/// and in a negotiation frame also those of negotiation frames.
pub proof fn law_sending_keeps_to_both_limits(
    local: Settings,
    peer: Settings,
    frame_type: ControlFrameType,
    length: u64,
)
    ensures
        outbound_body_error(local, peer, frame_type, length as nat) is None <==> {
            &&& length <= local.max_control_frame_bytes
            &&& length <= peer.max_control_frame_bytes
            &&& frame_type.negotiates() ==> length <= local.max_negotiation_frame_bytes && length
                <= peer.max_negotiation_frame_bytes
        },
        outbound_body_error(local, peer, frame_type, length as nat) matches Some(error) ==> {
            ||| error matches ControlFrameError::BodyTooLarge { received, limit } && received
                == length && length > limit && (limit == local.max_control_frame_bytes || limit
                == peer.max_control_frame_bytes) && limit <= local.max_control_frame_bytes && limit
                <= peer.max_control_frame_bytes
            ||| error matches ControlFrameError::NegotiationBodyTooLarge { received, limit }
                && received == length && length > limit && (limit
                == local.max_negotiation_frame_bytes || limit == peer.max_negotiation_frame_bytes)
                && limit <= local.max_negotiation_frame_bytes && limit
                <= peer.max_negotiation_frame_bytes
        },
{
}

/// A ready direction sends every frame but settings that both sides' limits allow, and
/// nothing once a frame was not completed.
pub proof fn law_ready_direction_sends(
    sender: ControlSender,
    frame_type: ControlFrameType,
    length: u64,
)
    ensures
        sender.send_error(frame_type, length as nat) is None <==> {
            &&& frame_type != ControlFrameType::Settings
            &&& outbound_body_error(
                sender.local_settings,
                sender.peer_settings,
                frame_type,
                length as nat,
            ) is None
            &&& sender.io_state == DirectionIoState::Clean
        },
        frame_type == ControlFrameType::Settings ==> sender.send_error(frame_type, length as nat)
            == Some(ProfileBootstrapError::SettingsOwnedByBootstrap),
{
}

/// A connection is confirmed exactly where the handshake agreed on `runennet/1` and datagrams
/// can be sent.
pub proof fn law_handshake_agrees(handshake: HandshakeFacts, max_datagram_size: Option<usize>)
    ensures
        transport_error(handshake, max_datagram_size) is None <==> {
            &&& handshake matches HandshakeFacts::Protocol(Some(protocol)) && protocol@ == seq![
                0x72u8, 0x75u8, 0x6eu8, 0x65u8, 0x6eu8, 0x6eu8, 0x65u8, 0x74u8, 0x2fu8, 0x31u8,
            ]
            &&& max_datagram_size is Some
        },
        handshake is Missing ==> transport_error(handshake, max_datagram_size) == Some(
            ProfileBootstrapError::MissingHandshakeData,
        ),
        handshake is UnexpectedType ==> transport_error(handshake, max_datagram_size) == Some(
            ProfileBootstrapError::UnexpectedHandshakeDataType,
        ),
        transport_error(handshake, max_datagram_size) == Some(
            ProfileBootstrapError::DatagramUnsupported,
        ) ==> max_datagram_size is None,
        transport_error(handshake, max_datagram_size) == Some(ProfileBootstrapError::WrongAlpn)
            ==> handshake is Protocol,
{
}

/// The peer's settings are taken once, and only from the opposite role.
pub proof fn law_settings_are_taken_once(state: BootstrapState, settings: Settings)
    ensures
        state.peer_settings_error(settings) is None <==> state.peer_settings is None
            && settings.semantic_role != state.local_settings.semantic_role,
        state.peer_settings is Some ==> state.peer_settings_error(settings) == Some(
            ProfileBootstrapError::DuplicateSettings,
        ),
        state.peer_settings is None && settings.semantic_role
            == state.local_settings.semantic_role ==> {
            state.peer_settings_error(settings) matches Some(
                ProfileBootstrapError::PeerRoleMismatch { expected, received },
            ) && received == settings.semantic_role && expected != received
        },
        state.ready() <==> state.local_settings_sent && state.peer_settings is Some,
{
}

/// A frame of a type that is not due is refused as soon as its type is read, whatever would
/// follow; once the profile is ready, that is settings alone.
pub proof fn law_type_is_judged_first(read: FrameRead, frame_type: ControlFrameType)
    requires
        read.state == FrameReadState::TypeFirst,
    ensures
        ({
            let number = seq![frame_type.number() as u8];
            &&& read.wants() == 1
            &&& read.gate.error(frame_type) matches Some(error) ==> read.fed(number) == Err::<
                FrameReadState,
                _,
            >(error)
            &&& read.gate.error(frame_type) is None ==> read.fed(number) == Ok::<
                _,
                ProfileBootstrapError,
            >(FrameReadState::LengthFirst(frame_type))
            &&& read.gate is Ready ==> (read.gate.error(frame_type) is Some <==> frame_type
                == ControlFrameType::Settings)
        }),
{
    let number = seq![frame_type.number() as u8];
    law_varint_round_trip(frame_type.number(), Seq::empty());
    crate::varint::law_varint_layout(frame_type.number());
    assert(varint_bytes(frame_type.number() as nat) + Seq::empty() =~= number);
    law_frame_type_numbers(frame_type, frame_type.number());
}

/// Before the profile is ready this side sends its settings, exactly once; from there on it
/// sends everything else. What is refused is told: settings twice before, settings at all
/// afterwards, and any other frame too early.
pub proof fn law_settings_are_sent_once(state: BootstrapState, frame_type: ControlFrameType)
    ensures
        ({
            let error = state.outbound_type_error(frame_type);
            let settings = frame_type == ControlFrameType::Settings;
            let ready = state.local_settings_sent && state.peer_settings is Some;
            &&& state.ready() <==> ready
            &&& error is None <==> (ready && !settings) || (!ready && settings
                && !state.local_settings_sent)
            &&& error == Some(ProfileBootstrapError::DuplicateSettings) <==> !ready && settings
                && state.local_settings_sent
            &&& error == Some(ProfileBootstrapError::SettingsAfterReady) <==> ready && settings
            &&& error == Some(ProfileBootstrapError::UnexpectedFrameBeforeReady(frame_type))
                <==> !ready && !settings
        }),
{
}

} // verus!
