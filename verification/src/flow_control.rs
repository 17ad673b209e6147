//! Flow control: how flows are asked for, granted, refused and ended on the control
//! stream, next to the host's delivery core.
//!
//! Where an operation needs the core, it stops with what the core is to be asked, and a
//! second operation takes the answer.

use std::collections::{HashMap, TryReserveError};

use vstd::prelude::*;
use vstd::std_specs::hash::spec_values_iter;
use vstd::std_specs::iter::IteratorSpec;

use crate::control::{ControlFrame, ControlFrameType, ProfileReadyParts, Settings};
use crate::datagram::{datagram_len, wire_length, DatagramSubmissionError};
use crate::delivery::{
    ConnectionHandle, DeliveryFlowKey, DeliveryMode, DeliveryOperationError, DeliveryPolicyError,
    DeliveryScopeLimits, FlowDirection, FlowEstablishmentError, FlowResourcePolicy,
    FlowTermination,
};
use crate::registry::{
    direction_of, ids_towards, AcceptedFlowRegistry, RegisteredFlow, RegistryError,
};
use crate::storage::{fresh, reserve_bytes, reserve_entry, ByteStorage};
use crate::varint::MAX_VARINT;
use crate::wire::{
    opposite_side, other_side, ControlBodyError, EncodedControlBody, FlowAccept,
    FlowId, FlowIdCursor, FlowIdCursorError, FlowReject, FlowRejectReason, FlowTerminate,
    FlowTerminateReason, OpenFlow, WireSide, MAX_FLOW_BODY_BYTES, MAX_FLOW_SEQUENCE,
};

verus! {

/// Why flow control cannot be set up.
#[derive(Debug, Clone, Copy, PartialEq, Eq, Structural)]
pub enum FlowControlConfigError {
    ActiveRegistryCapacityOverflow,
    ActiveRegistryCapacityOutOfRange,
}

/// Why a flow cannot be asked for.
#[allow(inconsistent_fields)]
#[derive(Debug, PartialEq, Eq)]
pub enum OutboundOpenError {
    WrongConnection { expected: ConnectionHandle, actual: ConnectionHandle },
    WrongDirection(FlowDirection),
    InvalidPolicy(DeliveryPolicyError),
    CoreFlowAlreadyExists(DeliveryFlowKey),
    PendingCoreFlow(DeliveryFlowKey),
    StableMessageLimitMismatch { policy_max: usize, stable_max: usize },
    StableMessageLimitOutOfRange,
    PeerMessageLimit { requested: u64, peer_limit: u64 },
    PeerActiveFlowLimit { in_use: u64, peer_limit: u64 },
    DatagramUnavailable,
    DatagramTooSmall { needed: usize, available: usize },
    DatagramEnvelope(DatagramSubmissionError),
    FlowId(FlowIdCursorError),
    Body(ControlBodyError),
    Allocation(TryReserveError),
}

/// Why a flow frame, or an end of a flow, is refused.
#[derive(Debug, PartialEq, Eq)]
pub enum FlowControlError {
    InboundDecisionPending(FlowId),
    UnexpectedFrame(ControlFrameType),
    Body(ControlBodyError),
    FlowId(FlowIdCursorError),
    WrongResponseSide { expected: WireSide, received: WireSide },
    UnknownPendingFlow(FlowId),
    UnknownActiveFlow(FlowId),
    ReliableNormalUsesFin(FlowId),
    CoreState(DeliveryOperationError),
    LocalEstablishment(FlowEstablishmentError),
    Registry(RegistryError),
    Allocation(TryReserveError),
}

/// Why a decision on an inbound flow fails.
#[derive(Debug, PartialEq, Eq)]
pub enum InboundAdmissionError {
    RequestNotPending(FlowId),
    WrongConnection { expected: ConnectionHandle, actual: ConnectionHandle },
    WrongDirection(FlowDirection),
    InvalidPolicy(DeliveryPolicyError),
    LocalEstablishment(FlowEstablishmentError),
    Registry(RegistryError),
    CoreRollback(DeliveryOperationError),
    Allocation(TryReserveError),
}

/// A flow that was asked for.
#[derive(Debug, Clone, Copy, PartialEq, Eq, Structural)]
pub struct PreparedFlow {
    pub flow_id: FlowId,
    pub key: DeliveryFlowKey,
    pub mode: DeliveryMode,
    pub max_message_bytes: usize,
}

/// A flow that both sides and the core know.
#[derive(Debug, Clone, Copy, PartialEq, Eq, Structural)]
pub struct EstablishedFlow {
    pub flow_id: FlowId,
    pub key: DeliveryFlowKey,
    pub mode: DeliveryMode,
    pub max_message_bytes: usize,
}

/// The host's wish for an outbound flow.
#[derive(Debug, Clone, Copy, PartialEq, Eq, Structural)]
pub struct OutboundOpenRequest {
    pub key: DeliveryFlowKey,
    pub mode: DeliveryMode,
    pub policy: FlowResourcePolicy,
    pub stable_max_message_bytes: usize,
    pub connection_limits: DeliveryScopeLimits,
}

/// What the core knows of an outbound flow that the host wishes for.
#[derive(Debug, Clone, Copy, PartialEq, Eq)]
pub struct OutboundOpenFacts {
    /// The core holds a flow with this key.
    pub core_flow_exists: bool,
    /// The core's judgement of the policy for the mode.
    pub policy_check: Result<(), DeliveryPolicyError>,
}

/// The frame that asks for a flow.
#[derive(Debug)]
pub struct PreparedOutboundOpen {
    pub frame: ControlFrame,
    pub flow: PreparedFlow,
}

/// The peer's wish for a flow, which the host has to decide on once.
#[derive(Debug, PartialEq, Eq, Structural)]
pub struct InboundOpenRequest {
    pub(crate) flow_id: FlowId,
    pub(crate) mode: DeliveryMode,
    pub(crate) max_message_bytes: u64,
}

impl InboundOpenRequest {
    pub open(crate) spec fn spec_flow_id(self) -> FlowId {
        self.flow_id
    }

    pub open(crate) spec fn spec_mode(self) -> DeliveryMode {
        self.mode
    }

    pub open(crate) spec fn spec_max_message_bytes(self) -> u64 {
        self.max_message_bytes
    }

    pub open(crate) spec fn pending(self) -> PendingInboundFlow {
        PendingInboundFlow {
            flow_id: self.flow_id,
            mode: self.mode,
            max_message_bytes: self.max_message_bytes,
        }
    }

    pub fn flow_id(&self) -> (flow_id: FlowId)
        ensures
            flow_id == self.spec_flow_id(),
    {
        self.flow_id
    }

    pub fn mode(&self) -> (mode: DeliveryMode)
        ensures
            mode == self.spec_mode(),
    {
        self.mode
    }

    pub fn max_message_bytes(&self) -> (bytes: u64)
        ensures
            bytes == self.spec_max_message_bytes(),
    {
        self.max_message_bytes
    }
}

/// The host's terms for an inbound flow.
#[derive(Debug, Clone, Copy, PartialEq, Eq, Structural)]
pub struct InboundAdmission {
    pub key: DeliveryFlowKey,
    pub policy: FlowResourcePolicy,
    pub connection_limits: DeliveryScopeLimits,
}

/// What a flow frame comes to.
#[allow(inconsistent_fields)]
#[derive(Debug, PartialEq, Eq)]
pub enum FlowControlProgress {
    InboundOpen(InboundOpenRequest),
    InboundRejected { flow_id: FlowId, reason: FlowRejectReason, frame: ControlFrame },
    OutboundEstablished(EstablishedFlow),
    OutboundRejected { flow_id: FlowId, key: DeliveryFlowKey, reason: FlowRejectReason },
    OutboundFailedAfterAccept {
        flow_id: FlowId,
        key: DeliveryFlowKey,
        reason: FlowTerminateReason,
        termination: Option<FlowTermination>,
        frame: ControlFrame,
    },
    RemoteTerminated {
        flow: EstablishedFlow,
        reason: FlowTerminateReason,
        termination: FlowTermination,
    },
}

/// What a decision on an inbound flow comes to.
#[derive(Debug, PartialEq, Eq)]
pub enum InboundResolution {
    Accepted { flow: EstablishedFlow, frame: ControlFrame },
    Rejected { flow_id: FlowId, reason: FlowRejectReason, frame: ControlFrame },
}

/// The end of a flow from this side.
#[derive(Debug, PartialEq, Eq)]
pub struct LocalTermination {
    pub flow: EstablishedFlow,
    pub reason: FlowTerminateReason,
    pub termination: FlowTermination,
    pub frame: ControlFrame,
}

/// An outbound flow that the peer has not answered for.
#[derive(Debug, Clone, Copy, PartialEq, Eq, Structural)]
pub struct PendingOutboundFlow {
    pub key: DeliveryFlowKey,
    pub mode: DeliveryMode,
    pub policy: FlowResourcePolicy,
    pub connection_limits: DeliveryScopeLimits,
    pub stable_max_message_bytes: usize,
}

/// An inbound flow that the host has not decided on.
#[derive(Debug, Clone, Copy, PartialEq, Eq, Structural)]
pub struct PendingInboundFlow {
    pub flow_id: FlowId,
    pub mode: DeliveryMode,
    pub max_message_bytes: u64,
}

/// Memory for one operation: for one more flow in each table, and for one frame.
#[derive(Debug)]
pub struct FlowStorage {
    pub pending: Result<(), TryReserveError>,
    pub active: Result<(), TryReserveError>,
    pub body: ByteStorage,
}

impl FlowStorage {
    pub open spec fn wf(self) -> bool {
        fresh(self.body)
    }
}

/// The flow control of one connection.
#[derive(Debug)]
pub struct FlowControl {
    pub(crate) connection: ConnectionHandle,
    pub(crate) local_side: WireSide,
    pub(crate) local_settings: Settings,
    pub(crate) peer_settings: Settings,
    pub(crate) local_flow_ids: FlowIdCursor,
    pub(crate) peer_flow_ids: FlowIdCursor,
    pub(crate) pending_outbound: HashMap<u64, PendingOutboundFlow>,
    pub(crate) pending_inbound: Option<PendingInboundFlow>,
    pub(crate) registry: AcceptedFlowRegistry,
}

/// What flow control knows.
pub struct FlowControlView {
    pub connection: ConnectionHandle,
    pub local_side: WireSide,
    pub local_settings: Settings,
    pub peer_settings: Settings,
    pub local_flow_ids: FlowIdCursor,
    pub peer_flow_ids: FlowIdCursor,
    /// The flows that were asked for, by the number of their wire name.
    pub pending_outbound: Map<u64, PendingOutboundFlow>,
    pub pending_inbound: Option<PendingInboundFlow>,
    /// The established flows, by the number of their wire name.
    pub active: Map<u64, RegisteredFlow>,
    pub capacity: usize,
}

impl FlowControlView {
    /// How many flows of one direction are established.
    pub open spec fn active_towards(self, direction: FlowDirection) -> nat {
        ids_towards(self.active, direction).len()
    }

    /// The outbound flows that count against the peer's limit.
    pub open spec fn outbound_in_use(self) -> nat {
        self.active_towards(FlowDirection::Outbound) + self.pending_outbound.len()
    }

    /// A flow that was asked for has this key.
    pub open spec fn awaits(self, key: DeliveryFlowKey) -> bool {
        exists|id: u64| #[trigger]
            self.pending_outbound.contains_key(id) && self.pending_outbound[id].key == key
    }

    /// The wire name was taken by the side that opens such flows.
    pub open(crate) spec fn taken(self, value: u64) -> bool {
        let id = FlowId { value };
        if id.spec_side() == self.local_side {
            id.spec_sequence() < self.local_flow_ids.spec_next()
        } else {
            id.spec_sequence() < self.peer_flow_ids.spec_next()
        }
    }

    /// What holds of every flow that was asked for.
    pub open(crate) spec fn pending_sound(self, id: u64) -> bool {
        &&& self.taken(id)
        &&& FlowId { value: id }.spec_side() == self.local_side
        &&& self.pending_outbound[id].key.direction == FlowDirection::Outbound
        &&& self.pending_outbound[id].key.connection == self.connection
        &&& !self.active.contains_key(id)
    }

    /// What holds of every established flow.
    pub open(crate) spec fn active_sound(self, id: u64) -> bool {
        &&& self.taken(id)
        &&& self.active[id].key.direction == direction_of(
            self.local_side,
            FlowId { value: id }.spec_side(),
        )
        &&& self.active[id].key.connection == self.connection
    }

    /// What always holds of flow control that was set up for its settings: wire names are
    /// taken before they are used, no flow is in two tables, and both sides' limits are
    /// kept.
    pub open(crate) spec fn sound(self) -> bool {
        &&& self.active.dom().finite()
        &&& self.pending_outbound.dom().finite()
        &&& self.capacity == self.local_settings.max_active_incoming_flows
            + self.peer_settings.max_active_incoming_flows
        &&& self.outbound_in_use() <= self.peer_settings.max_active_incoming_flows
        &&& self.active_towards(FlowDirection::Inbound)
            <= self.local_settings.max_active_incoming_flows
        &&& forall|id: u64| #[trigger]
            self.pending_outbound.contains_key(id) ==> self.pending_sound(id)
        &&& forall|id: u64| #[trigger]
            self.active.contains_key(id) ==> self.active_sound(id)
        &&& self.pending_inbound matches Some(pending) ==> {
            &&& self.taken(pending.flow_id.spec_value())
            &&& pending.flow_id.spec_side() != self.local_side
            &&& !self.active.contains_key(pending.flow_id.spec_value())
            &&& 0 < pending.max_message_bytes <= self.local_settings.max_incoming_message_bytes
            &&& self.active_towards(FlowDirection::Inbound)
                < self.local_settings.max_active_incoming_flows
        }
    }
}

/// What stands against a wish, seen from the two sides' limits and the core.
pub open spec fn outbound_wish_error(
    state: FlowControlView,
    request: OutboundOpenRequest,
    facts: OutboundOpenFacts,
) -> Option<OutboundOpenError> {
    let key = request.key;
    let stable_max = request.stable_max_message_bytes;
    let in_use = if state.outbound_in_use() > usize::MAX {
        u64::MAX
    } else {
        state.outbound_in_use() as u64
    };
    if key.connection != state.connection {
        Some(
            OutboundOpenError::WrongConnection {
                expected: state.connection,
                actual: key.connection,
            },
        )
    } else if key.direction != FlowDirection::Outbound {
        Some(OutboundOpenError::WrongDirection(key.direction))
    } else if facts.core_flow_exists {
        Some(OutboundOpenError::CoreFlowAlreadyExists(key))
    } else if state.awaits(key) {
        Some(OutboundOpenError::PendingCoreFlow(key))
    } else if facts.policy_check is Err {
        Some(OutboundOpenError::InvalidPolicy(facts.policy_check->Err_0))
    } else if request.policy.max_message_bytes != stable_max {
        Some(
            OutboundOpenError::StableMessageLimitMismatch {
                policy_max: request.policy.max_message_bytes,
                stable_max,
            },
        )
    } else if stable_max > MAX_VARINT {
        Some(OutboundOpenError::StableMessageLimitOutOfRange)
    } else if stable_max > state.peer_settings.max_incoming_message_bytes {
        Some(
            OutboundOpenError::PeerMessageLimit {
                requested: stable_max as u64,
                peer_limit: state.peer_settings.max_incoming_message_bytes,
            },
        )
    } else if in_use >= state.peer_settings.max_active_incoming_flows {
        Some(
            OutboundOpenError::PeerActiveFlowLimit {
                in_use,
                peer_limit: state.peer_settings.max_active_incoming_flows,
            },
        )
    } else {
        None
    }
}

/// The longest datagram that a flow of this kind sends.
pub open(crate) spec fn worst_case_length(
    flow_id: FlowId,
    mode: DeliveryMode,
    stable_max: usize,
) -> Result<usize, DatagramSubmissionError> {
    wire_length(
        flow_id,
        mode,
        if mode == DeliveryMode::UnreliableSequenced {
            Some(MAX_VARINT)
        } else {
            None
        },
        stable_max as nat,
    )
}

/// What stands against an unreliable flow, seen from the datagrams that it sends.
pub open(crate) spec fn datagram_error(
    flow_id: FlowId,
    mode: DeliveryMode,
    stable_max: usize,
    current_datagram_size: Option<usize>,
) -> Option<OutboundOpenError> {
    if mode == DeliveryMode::ReliableOrdered {
        None
    } else {
        match worst_case_length(flow_id, mode, stable_max) {
            Err(error) => Some(OutboundOpenError::DatagramEnvelope(error)),
            Ok(needed) => match current_datagram_size {
                None => Some(OutboundOpenError::DatagramUnavailable),
                Some(available) => if needed > available {
                    Some(OutboundOpenError::DatagramTooSmall { needed, available })
                } else {
                    None
                },
            },
        }
    }
}

/// What stands against asking for a flow, if anything.
pub open(crate) spec fn outbound_open_error(
    state: FlowControlView,
    request: OutboundOpenRequest,
    facts: OutboundOpenFacts,
    current_datagram_size: Option<usize>,
    storage: FlowStorage,
) -> Option<OutboundOpenError> {
    let stable_max = request.stable_max_message_bytes;
    let wish = outbound_wish_error(state, request, facts);
    if wish is Some {
        wish
    } else if state.local_flow_ids.spec_next() > MAX_FLOW_SEQUENCE {
        Some(OutboundOpenError::FlowId(FlowIdCursorError::Exhausted))
    } else {
        let datagrams = datagram_error(
            state.local_flow_ids.next_id(),
            request.mode,
            stable_max,
            current_datagram_size,
        );
        if datagrams is Some {
            datagrams
        } else if storage.pending is Err {
            Some(OutboundOpenError::Allocation(storage.pending->Err_0))
        } else if stable_max == 0 {
            Some(OutboundOpenError::Body(ControlBodyError::MessageLimitZero))
        } else if storage.body is Err {
            Some(OutboundOpenError::Allocation(storage.body->Err_0))
        } else {
            None
        }
    }
}

/// The request as it is kept until the peer answers.
pub open spec fn kept_request(request: OutboundOpenRequest) -> PendingOutboundFlow {
    PendingOutboundFlow {
        key: request.key,
        mode: request.mode,
        policy: request.policy,
        connection_limits: request.connection_limits,
        stable_max_message_bytes: request.stable_max_message_bytes,
    }
}

/// Flow control once a flow was asked for: the wire name is taken, and the request waits.
pub open(crate) spec fn after_open(state: FlowControlView, request: OutboundOpenRequest) -> FlowControlView {
    FlowControlView {
        local_flow_ids: state.local_flow_ids.advanced(),
        pending_outbound: state.pending_outbound.insert(
            state.local_flow_ids.next_id().spec_value(),
            kept_request(request),
        ),
        ..state
    }
}

/// Puts a body into the room that was made for it.
fn owned_frame(frame_type: ControlFrameType, body: EncodedControlBody, storage: ByteStorage) -> (frame:
    Result<ControlFrame, TryReserveError>)
    requires
        fresh(storage),
    ensures
        match storage {
            Ok(_) => frame is Ok && frame->Ok_0.holds(frame_type, body@),
            Err(error) => frame == Err::<ControlFrame, _>(error),
        },
{
    match storage {
        Ok(bytes) => {
            let mut owned: Vec<u8> = bytes;
            owned.extend_from_slice(body.as_slice());
            proof {
                assert(owned@ =~= body@);
            }
            Ok(ControlFrame { frame_type, body: owned })
        },
        Err(error) => Err(error),
    }
}

fn accept_frame(flow_id: FlowId, storage: ByteStorage) -> (frame: Result<
    ControlFrame,
    TryReserveError,
>)
    requires
        fresh(storage),
    ensures
        match storage {
            Ok(_) => frame is Ok && frame->Ok_0.holds(
                ControlFrameType::FlowAccept,
                (FlowAccept { flow_id }).bytes(),
            ),
            Err(error) => frame == Err::<ControlFrame, _>(error),
        },
{
    owned_frame(ControlFrameType::FlowAccept, FlowAccept { flow_id }.encode(), storage)
}

fn reject_frame(flow_id: FlowId, reason: FlowRejectReason, storage: ByteStorage) -> (frame: Result<
    ControlFrame,
    TryReserveError,
>)
    requires
        fresh(storage),
    ensures
        match storage {
            Ok(_) => frame is Ok && frame->Ok_0.holds(
                ControlFrameType::FlowReject,
                (FlowReject { flow_id, reason }).bytes(),
            ),
            Err(error) => frame == Err::<ControlFrame, _>(error),
        },
{
    owned_frame(ControlFrameType::FlowReject, FlowReject { flow_id, reason }.encode(), storage)
}

fn terminate_frame(flow_id: FlowId, reason: FlowTerminateReason, storage: ByteStorage) -> (frame:
    Result<ControlFrame, TryReserveError>)
    requires
        fresh(storage),
    ensures
        match storage {
            Ok(_) => frame is Ok && frame->Ok_0.holds(
                ControlFrameType::FlowTerminate,
                (FlowTerminate { flow_id, reason }).bytes(),
            ),
            Err(error) => frame == Err::<ControlFrame, _>(error),
        },
{
    owned_frame(
        ControlFrameType::FlowTerminate,
        FlowTerminate { flow_id, reason }.encode(),
        storage,
    )
}

proof fn lemma_open_keeps_sound(state: FlowControlView, request: OutboundOpenRequest)
    requires
        state.sound(),
        state.local_flow_ids.wf(),
        state.local_flow_ids.spec_side() == state.local_side,
        state.local_flow_ids.spec_next() <= MAX_FLOW_SEQUENCE,
        request.key.connection == state.connection,
        request.key.direction == FlowDirection::Outbound,
        state.outbound_in_use() < state.peer_settings.max_active_incoming_flows,
    ensures
        after_open(state, request).sound(),
        !state.pending_outbound.contains_key(state.local_flow_ids.next_id().spec_value()),
        !state.active.contains_key(state.local_flow_ids.next_id().spec_value()),
{
    let id = state.local_flow_ids.next_id();
    assert(id.spec_sequence() == state.local_flow_ids.spec_next());
    assert(id.spec_side() == state.local_side);
    assert(!state.taken(id.spec_value()));
    let after = after_open(state, request);
    assert forall|other: u64| #[trigger] state.taken(other) implies after.taken(other) by {}
    assert(after.pending_outbound.dom() =~= state.pending_outbound.dom().insert(id.spec_value()));
    assert forall|other: u64| #[trigger] after.pending_outbound.contains_key(other) implies after.pending_sound(
        other,
    ) by {
        if other != id.spec_value() {
            assert(state.pending_outbound.contains_key(other));
            assert(state.taken(other));
        }
    }
    assert forall|other: u64| #[trigger] after.active.contains_key(other) implies after.active_sound(other) by {
        assert(state.taken(other));
    }
    if let Some(pending) = state.pending_inbound {
        assert(state.taken(pending.flow_id.spec_value()));
    }
}

impl FlowControl {
    /// What flow control needs to work at all.
    pub open(crate) spec fn wf(self) -> bool {
        &&& self.registry.wf()
        &&& self.registry.spec_side() == self.local_side
        &&& self.local_flow_ids.wf()
        &&& self.peer_flow_ids.wf()
        &&& self.local_flow_ids.spec_side() == self.local_side
        &&& self.peer_flow_ids.spec_side() == other_side(self.local_side)
        &&& self.pending_outbound@.dom().finite()
    }

    pub open(crate) spec fn view(&self) -> FlowControlView {
        FlowControlView {
            connection: self.connection,
            local_side: self.local_side,
            local_settings: self.local_settings,
            peer_settings: self.peer_settings,
            local_flow_ids: self.local_flow_ids,
            peer_flow_ids: self.peer_flow_ids,
            pending_outbound: self.pending_outbound@,
            pending_inbound: self.pending_inbound,
            active: self.registry@,
            capacity: self.registry.spec_capacity(),
        }
    }

    /// Flow control for a ready profile.
    pub fn from_profile_parts(connection: ConnectionHandle, profile: &ProfileReadyParts) -> (control:
        Result<Self, FlowControlConfigError>)
        ensures
            match config_error(
                profile.profile.spec_local_settings(),
                profile.peer_settings,
            ) {
                Some(error) => control == Err::<FlowControl, _>(error),
                None => control is Ok && control->Ok_0.is_new(
                    connection,
                    profile.side,
                    profile.profile.spec_local_settings(),
                    profile.peer_settings,
                ),
            },
    {
        FlowControl::new(
            connection,
            profile.side,
            profile.profile.local_settings(),
            profile.peer_settings,
        )
    }

    /// No flow was asked for in either direction.
    pub open(crate) spec fn is_new(
        self,
        connection: ConnectionHandle,
        local_side: WireSide,
        local_settings: Settings,
        peer_settings: Settings,
    ) -> bool {
        &&& self.wf()
        &&& self@.sound()
        &&& self@.connection == connection
        &&& self@.local_side == local_side
        &&& self@.local_settings == local_settings
        &&& self@.peer_settings == peer_settings
        &&& self@.local_flow_ids.spec_next() == 0
        &&& self@.peer_flow_ids.spec_next() == 0
        &&& self@.pending_outbound == Map::<u64, PendingOutboundFlow>::empty()
        &&& self@.pending_inbound is None
        &&& self@.active == Map::<u64, RegisteredFlow>::empty()
        &&& self@.capacity == local_settings.max_active_incoming_flows
            + peer_settings.max_active_incoming_flows
    }

    pub fn new(
        connection: ConnectionHandle,
        local_side: WireSide,
        local_settings: Settings,
        peer_settings: Settings,
    ) -> (control: Result<Self, FlowControlConfigError>)
        ensures
            match config_error(local_settings, peer_settings) {
                Some(error) => control == Err::<FlowControl, _>(error),
                None => control is Ok && control->Ok_0.is_new(
                    connection,
                    local_side,
                    local_settings,
                    peer_settings,
                ),
            },
    {
        let capacity: u64 = match local_settings.max_active_incoming_flows.checked_add(
            peer_settings.max_active_incoming_flows,
        ) {
            Some(capacity) => capacity,
            None => return Err(FlowControlConfigError::ActiveRegistryCapacityOverflow),
        };
        if capacity > usize::MAX as u64 || capacity == 0 {
            return Err(FlowControlConfigError::ActiveRegistryCapacityOutOfRange);
        }
        let registry = AcceptedFlowRegistry::new(local_side, capacity as usize);
        let control = FlowControl::with_registry(
            connection,
            local_settings,
            peer_settings,
            registry,
        );
        proof {
            assert(ids_towards(control@.active, FlowDirection::Outbound) =~= Set::<u64>::empty());
            assert(ids_towards(control@.active, FlowDirection::Inbound) =~= Set::<u64>::empty());
        }
        Ok(control)
    }

    /// Flow control over a registry of established flows, with no flow asked for.
    pub fn with_registry(
        connection: ConnectionHandle,
        local_settings: Settings,
        peer_settings: Settings,
        registry: AcceptedFlowRegistry,
    ) -> (control: Self)
        requires
            registry.wf(),
        ensures
            control.wf(),
            control@.connection == connection,
            control@.local_side == registry.spec_side(),
            control@.local_settings == local_settings,
            control@.peer_settings == peer_settings,
            control@.local_flow_ids.spec_next() == 0,
            control@.peer_flow_ids.spec_next() == 0,
            control@.pending_outbound == Map::<u64, PendingOutboundFlow>::empty(),
            control@.pending_inbound is None,
            control@.active == registry@,
            control@.capacity == registry.spec_capacity(),
    {
        let local_side = registry.side();
        let pending_outbound: HashMap<u64, PendingOutboundFlow> = HashMap::new();
        proof {
            assert(pending_outbound@ =~= Map::<u64, PendingOutboundFlow>::empty());
        }
        FlowControl {
            connection,
            local_side,
            local_settings,
            peer_settings,
            local_flow_ids: FlowIdCursor::new(local_side),
            peer_flow_ids: FlowIdCursor::new(opposite_side(local_side)),
            pending_outbound,
            pending_inbound: None,
            registry,
        }
    }

    pub fn registry(&self) -> (registry: &AcceptedFlowRegistry)
        ensures
            registry@ == self@.active,
            registry.spec_capacity() == self@.capacity,
            self.wf() ==> registry.wf() && registry.spec_side() == self@.local_side,
    {
        &self.registry
    }

    pub fn connection(&self) -> (connection: ConnectionHandle)
        ensures
            connection == self@.connection,
    {
        self.connection
    }

    pub fn has_pending_inbound(&self) -> (pending: bool)
        ensures
            pending == self@.pending_inbound is Some,
    {
        self.pending_inbound.is_some()
    }

    pub fn pending_outbound_len(&self) -> (pending: usize)
        ensures
            pending == self@.pending_outbound.len(),
    {
        self.pending_outbound.len()
    }

    /// Asks for the memory of one operation.
    pub fn reserve(&mut self) -> (storage: FlowStorage)
        requires
            old(self).wf(),
        ensures
            final(self).wf(),
            final(self)@ == old(self)@,
            storage.wf(),
    {
        let pending = reserve_entry(&mut self.pending_outbound);
        let active = self.registry.reserve_slot();
        FlowStorage { pending, active, body: reserve_bytes(MAX_FLOW_BODY_BYTES) }
    }

    fn awaits_key(&self, key: DeliveryFlowKey) -> (awaits: bool)
        ensures
            awaits == self@.awaits(key),
    {
        let mut found: bool = false;
        for pending in values: self.pending_outbound.values()
            invariant
                found ==> self@.awaits(key),
                !found ==> forall|i: int|
                    0 <= i < values.index() ==> (#[trigger] values.seq()[i]).key != key,
                values.seq() == spec_values_iter(&self.pending_outbound).remaining(),
                values.seq().unref().to_set() == self.pending_outbound@.values(),
        {
            if pending.key == key {
                proof {
                    let all = spec_values_iter(&self.pending_outbound).remaining().unref();
                    assert(all[values.index()] == *pending);
                    assert(all.to_set().contains(*pending));
                    assert(self.pending_outbound@.values().contains(*pending));
                }
                found = true;
            }
        }
        proof {
            let all = spec_values_iter(&self.pending_outbound).remaining();
            if self@.awaits(key) {
                let id = choose|id: u64| #[trigger]
                    self@.pending_outbound.contains_key(id) && self@.pending_outbound[id].key
                        == key;
                let flow = self@.pending_outbound[id];
                assert(self@.pending_outbound.values().contains(flow));
                assert(all.unref().to_set().contains(flow));
                let i = choose|i: int| 0 <= i < all.len() && all.unref()[i] == flow;
                assert(all[i].key == key);
            }
        }
        found
    }

    fn validate_outbound_identity(&self, key: DeliveryFlowKey, core_flow_exists: bool) -> (checked:
        Result<(), OutboundOpenError>)
        ensures
            key.connection != self@.connection ==> checked == Err::<(), _>(
                (OutboundOpenError::WrongConnection {
                    expected: self@.connection,
                    actual: key.connection,
                }),
            ),
            key.connection == self@.connection ==> if key.direction != FlowDirection::Outbound {
                checked == Err::<(), _>(OutboundOpenError::WrongDirection(key.direction))
            } else if core_flow_exists {
                checked == Err::<(), _>(OutboundOpenError::CoreFlowAlreadyExists(key))
            } else if self@.awaits(key) {
                checked == Err::<(), _>(OutboundOpenError::PendingCoreFlow(key))
            } else {
                checked is Ok
            },
    {
        if key.connection != self.connection {
            return Err(
                OutboundOpenError::WrongConnection {
                    expected: self.connection,
                    actual: key.connection,
                },
            );
        }
        if key.direction != FlowDirection::Outbound {
            return Err(OutboundOpenError::WrongDirection(key.direction));
        }
        if core_flow_exists {
            return Err(OutboundOpenError::CoreFlowAlreadyExists(key));
        }
        if self.awaits_key(key) {
            return Err(OutboundOpenError::PendingCoreFlow(key));
        }
        Ok(())
    }

    /// Asks the peer for a flow. Where anything stands against it, no wire name is taken
    /// and nothing waits.
    pub fn prepare_outbound_open(
        &mut self,
        request: OutboundOpenRequest,
        facts: OutboundOpenFacts,
        current_datagram_size: Option<usize>,
        storage: FlowStorage,
    ) -> (prepared: Result<PreparedOutboundOpen, OutboundOpenError>)
        requires
            old(self).wf(),
            storage.wf(),
        ensures
            final(self).wf(),
            old(self)@.sound() ==> final(self)@.sound(),
            match outbound_open_error(
                old(self)@,
                request,
                facts,
                current_datagram_size,
                storage,
            ) {
                Some(error) => {
                    &&& prepared == Err::<PreparedOutboundOpen, _>(error)
                    &&& final(self)@ == old(self)@
                },
                None => {
                    let flow_id = old(self)@.local_flow_ids.next_id();
                    let open = OpenFlow {
                        flow_id,
                        delivery_mode: request.mode,
                        max_message_bytes: request.stable_max_message_bytes as u64,
                    };
                    &&& prepared is Ok
                    &&& prepared->Ok_0.frame.holds(ControlFrameType::OpenFlow, open.bytes())
                    &&& open.wf()
                    &&& prepared->Ok_0.flow == (PreparedFlow {
                        flow_id,
                        key: request.key,
                        mode: request.mode,
                        max_message_bytes: request.stable_max_message_bytes,
                    })
                    &&& final(self)@ == after_open(old(self)@, request)
                },
            },
    {
        let OutboundOpenRequest {
            key,
            mode,
            policy,
            stable_max_message_bytes: stable_max,
            connection_limits,
        } = request;
        if let Err(error) = self.validate_outbound_identity(key, facts.core_flow_exists) {
            return Err(error);
        }
        if let Err(error) = facts.policy_check {
            return Err(OutboundOpenError::InvalidPolicy(error));
        }
        if policy.max_message_bytes != stable_max {
            return Err(
                OutboundOpenError::StableMessageLimitMismatch {
                    policy_max: policy.max_message_bytes,
                    stable_max,
                },
            );
        }
        let stable_wire: u64 = stable_max as u64;
        if stable_wire > MAX_VARINT {
            return Err(OutboundOpenError::StableMessageLimitOutOfRange);
        }
        if stable_wire > self.peer_settings.max_incoming_message_bytes {
            return Err(
                OutboundOpenError::PeerMessageLimit {
                    requested: stable_wire,
                    peer_limit: self.peer_settings.max_incoming_message_bytes,
                },
            );
        }
        let active: usize = self.registry.active_direction_len(FlowDirection::Outbound);
        let in_use: u64 = match active.checked_add(self.pending_outbound.len()) {
            Some(in_use) => in_use as u64,
            None => u64::MAX,
        };
        if in_use >= self.peer_settings.max_active_incoming_flows {
            return Err(
                OutboundOpenError::PeerActiveFlowLimit {
                    in_use,
                    peer_limit: self.peer_settings.max_active_incoming_flows,
                },
            );
        }
        let mut advanced = self.local_flow_ids;
        let flow_id = match advanced.allocate() {
            Ok(flow_id) => flow_id,
            Err(error) => return Err(OutboundOpenError::FlowId(error)),
        };
        if mode != DeliveryMode::ReliableOrdered {
            let sequence: Option<u64> = if mode == DeliveryMode::UnreliableSequenced {
                Some(MAX_VARINT)
            } else {
                None
            };
            let needed: usize = match datagram_len(flow_id, mode, sequence, stable_max) {
                Ok(needed) => needed,
                Err(error) => return Err(OutboundOpenError::DatagramEnvelope(error)),
            };
            let available: usize = match current_datagram_size {
                Some(available) => available,
                None => return Err(OutboundOpenError::DatagramUnavailable),
            };
            if needed > available {
                return Err(OutboundOpenError::DatagramTooSmall { needed, available });
            }
        }
        if let Err(error) = storage.pending {
            return Err(OutboundOpenError::Allocation(error));
        }
        let open = match OpenFlow::new(flow_id, mode, stable_wire) {
            Ok(open) => open,
            Err(error) => return Err(OutboundOpenError::Body(error)),
        };
        let frame = match owned_frame(ControlFrameType::OpenFlow, open.encode(), storage.body) {
            Ok(frame) => frame,
            Err(error) => return Err(OutboundOpenError::Allocation(error)),
        };
        proof {
            if self@.sound() {
                lemma_open_keeps_sound(self@, request);
            }
        }
        self.local_flow_ids = advanced;
        self.pending_outbound.insert(
            flow_id.value(),
            PendingOutboundFlow {
                key,
                mode,
                policy,
                connection_limits,
                stable_max_message_bytes: stable_max,
            },
        );
        Ok(
            PreparedOutboundOpen {
                frame,
                flow: PreparedFlow { flow_id, key, mode, max_message_bytes: stable_max },
            },
        )
    }
}

/// What stands against setting up flow control, if anything.
pub open spec fn config_error(local: Settings, peer: Settings) -> Option<FlowControlConfigError> {
    let capacity = local.max_active_incoming_flows + peer.max_active_incoming_flows;
    if capacity > u64::MAX {
        Some(FlowControlConfigError::ActiveRegistryCapacityOverflow)
    } else if capacity > usize::MAX || capacity == 0 {
        Some(FlowControlConfigError::ActiveRegistryCapacityOutOfRange)
    } else {
        None
    }
}

/// What the core is to establish for an outbound flow that the peer granted.
#[derive(Debug, Clone, Copy, PartialEq, Eq, Structural)]
pub struct OutboundEstablish {
    pub flow_id: FlowId,
    pub key: DeliveryFlowKey,
    pub mode: DeliveryMode,
    pub policy: FlowResourcePolicy,
    pub connection_limits: DeliveryScopeLimits,
}

/// What the core is to end because the peer ended it.
#[derive(Debug, Clone, Copy, PartialEq, Eq, Structural)]
pub struct RemoteTerminate {
    pub flow: EstablishedFlow,
    pub reason: FlowTerminateReason,
}

/// An outbound flow that the core established and that could not be registered.
#[derive(Debug, Clone, Copy, PartialEq, Eq, Structural)]
pub struct OutboundRollback {
    pub flow_id: FlowId,
    pub key: DeliveryFlowKey,
    pub error: RegistryError,
}

/// What comes next for a flow frame.
#[derive(Debug, PartialEq, Eq)]
pub enum FlowControlStep {
    Progress(FlowControlProgress),
    /// Have the core establish the flow.
    Establish(OutboundEstablish),
    /// Have the core end the flow.
    Terminate(RemoteTerminate),
}

/// What comes next for an outbound flow that the core was asked to establish.
#[derive(Debug, PartialEq, Eq)]
pub enum OutboundStep {
    Progress(FlowControlProgress),
    /// Have the core end the flow again.
    RollBack(OutboundRollback),
}

/// What a request for a flow comes to.
#[derive(Debug, Clone, Copy, PartialEq, Eq, Structural)]
pub enum OpenVerdict {
    Reject(FlowId, FlowRejectReason),
    Ask(PendingInboundFlow),
}

/// How a request for a flow is judged.
pub open(crate) spec fn open_verdict(state: FlowControlView, body: Seq<u8>) -> Result<
    OpenVerdict,
    FlowControlError,
> {
    match OpenFlow::parse(body) {
        Err(error) => Err(FlowControlError::Body(error)),
        Ok(open) => match state.peer_flow_ids.refusal(open.flow_id) {
            Some(error) => Err(FlowControlError::FlowId(error)),
            None => if open.max_message_bytes > state.local_settings.max_incoming_message_bytes {
                Ok(OpenVerdict::Reject(open.flow_id, FlowRejectReason::MessageLimit))
            } else if state.active_towards(FlowDirection::Inbound)
                >= state.local_settings.max_active_incoming_flows {
                Ok(OpenVerdict::Reject(open.flow_id, FlowRejectReason::ResourceLimit))
            } else {
                Ok(
                    OpenVerdict::Ask(
                        PendingInboundFlow {
                            flow_id: open.flow_id,
                            mode: open.delivery_mode,
                            max_message_bytes: open.max_message_bytes,
                        },
                    ),
                )
            },
        },
    }
}

/// The flow that an answer of the peer is about.
pub open(crate) spec fn answered_flow(
    state: FlowControlView,
    flow_id: FlowId,
) -> Result<PendingOutboundFlow, FlowControlError> {
    if flow_id.spec_side() != state.local_side {
        Err(
            FlowControlError::WrongResponseSide {
                expected: state.local_side,
                received: flow_id.spec_side(),
            },
        )
    } else if !state.pending_outbound.contains_key(flow_id.spec_value()) {
        Err(FlowControlError::UnknownPendingFlow(flow_id))
    } else {
        Ok(state.pending_outbound[flow_id.spec_value()])
    }
}

/// The flow as both sides know it.
pub open spec fn established(flow_id: FlowId, flow: RegisteredFlow) -> EstablishedFlow {
    EstablishedFlow {
        flow_id,
        key: flow.key,
        mode: flow.mode,
        max_message_bytes: flow.max_message_bytes,
    }
}

/// The flow that is to end, unless it is not there or ends with its stream.
pub open(crate) spec fn ending_flow(
    state: FlowControlView,
    flow_id: FlowId,
    reason: FlowTerminateReason,
) -> Result<EstablishedFlow, FlowControlError> {
    if !state.active.contains_key(flow_id.spec_value()) {
        Err(FlowControlError::UnknownActiveFlow(flow_id))
    } else {
        let flow = state.active[flow_id.spec_value()];
        if flow.mode == DeliveryMode::ReliableOrdered && reason == FlowTerminateReason::Normal {
            Err(FlowControlError::ReliableNormalUsesFin(flow_id))
        } else {
            Ok(established(flow_id, flow))
        }
    }
}

/// What stands against registering a flow, if anything.
pub open(crate) spec fn registration_refusal(
    state: FlowControlView,
    flow_id: FlowId,
    key: DeliveryFlowKey,
    room: Result<(), TryReserveError>,
) -> Option<RegistryError> {
    if key.direction != direction_of(state.local_side, flow_id.spec_side()) {
        Some(RegistryError::DirectionMismatch)
    } else if state.active.contains_key(flow_id.spec_value()) {
        Some(RegistryError::DuplicateFlowId)
    } else if state.active.len() >= state.capacity {
        Some(RegistryError::CapacityExceeded)
    } else if room is Err {
        Some(RegistryError::AllocationFailed)
    } else {
        None
    }
}

/// A want of room, in the registry or in memory.
pub open spec fn resource_shortage(error: RegistryError) -> bool {
    error == RegistryError::CapacityExceeded || error == RegistryError::AllocationFailed
}

/// The peer's request was refused, where there was memory for the frame.
pub open(crate) spec fn is_inbound_rejection(
    step: Result<FlowControlStep, FlowControlError>,
    flow_id: FlowId,
    reason: FlowRejectReason,
    body: ByteStorage,
) -> bool {
    match body {
        Err(error) => step == Err::<FlowControlStep, _>(FlowControlError::Allocation(error)),
        Ok(_) => step matches Ok(
            FlowControlStep::Progress(
                FlowControlProgress::InboundRejected { flow_id: id, reason: why, frame },
            ),
        ) && id == flow_id && why == reason && frame.holds(
            ControlFrameType::FlowReject,
            (FlowReject { flow_id, reason }).bytes(),
        ),
    }
}

/// A granted flow failed for want of room, and the peer is told, where there was memory
/// for the frame.
pub open(crate) spec fn is_outbound_failure(
    progress: Result<FlowControlProgress, FlowControlError>,
    flow_id: FlowId,
    key: DeliveryFlowKey,
    termination: Option<FlowTermination>,
    body: ByteStorage,
) -> bool {
    match body {
        Err(error) => progress == Err::<FlowControlProgress, _>(
            FlowControlError::Allocation(error),
        ),
        Ok(_) => progress matches Ok(
            FlowControlProgress::OutboundFailedAfterAccept {
                flow_id: id,
                key: which,
                reason,
                termination: ended,
                frame,
            },
        ) && id == flow_id && which == key && reason == FlowTerminateReason::ResourceFailure
            && ended == termination && frame.holds(
            ControlFrameType::FlowTerminate,
            (FlowTerminate { flow_id, reason: FlowTerminateReason::ResourceFailure }).bytes(),
        ),
    }
}

/// Flow control once a wire name of the peer was taken.
pub open(crate) spec fn after_peer_open(
    state: FlowControlView,
    pending: Option<PendingInboundFlow>,
) -> FlowControlView {
    FlowControlView {
        peer_flow_ids: state.peer_flow_ids.advanced(),
        pending_inbound: pending,
        ..state
    }
}

/// Flow control without a flow that was asked for.
pub open spec fn without_pending(state: FlowControlView, flow_id: u64) -> FlowControlView {
    FlowControlView { pending_outbound: state.pending_outbound.remove(flow_id), ..state }
}

/// Flow control without an established flow.
pub open spec fn without_active(state: FlowControlView, flow_id: u64) -> FlowControlView {
    FlowControlView { active: state.active.remove(flow_id), ..state }
}

/// Flow control with one more established flow.
pub open spec fn with_active(
    state: FlowControlView,
    flow_id: u64,
    flow: RegisteredFlow,
) -> FlowControlView {
    FlowControlView { active: state.active.insert(flow_id, flow), ..state }
}

/// Flow control with no request of the peer to decide on.
pub open spec fn decided(state: FlowControlView) -> FlowControlView {
    FlowControlView { pending_inbound: None, ..state }
}

proof fn lemma_active_insert(
    state: FlowControlView,
    flow_id: u64,
    flow: RegisteredFlow,
    direction: FlowDirection,
)
    requires
        state.active.dom().finite(),
        !state.active.contains_key(flow_id),
    ensures
        with_active(state, flow_id, flow).active_towards(direction) == state.active_towards(
            direction,
        ) + (if flow.key.direction == direction {
            1nat
        } else {
            0nat
        }),
{
    let before = ids_towards(state.active, direction);
    let after = ids_towards(state.active.insert(flow_id, flow), direction);
    if flow.key.direction == direction {
        assert(after =~= before.insert(flow_id));
    } else {
        assert(after =~= before);
    }
}

proof fn lemma_active_remove(state: FlowControlView, flow_id: u64, direction: FlowDirection)
    requires
        state.active.dom().finite(),
    ensures
        without_active(state, flow_id).active_towards(direction) <= state.active_towards(direction),
{
    let before = ids_towards(state.active, direction);
    let after = ids_towards(state.active.remove(flow_id), direction);
    assert(after.subset_of(before));
    vstd::set_lib::lemma_len_subset(after, before);
}

proof fn lemma_active_total(state: FlowControlView)
    requires
        state.active.dom().finite(),
    ensures
        state.active.len() == state.active_towards(FlowDirection::Outbound) + state.active_towards(
            FlowDirection::Inbound,
        ),
    decreases state.active.len(),
{
    let outbound = ids_towards(state.active, FlowDirection::Outbound);
    let inbound = ids_towards(state.active, FlowDirection::Inbound);
    assert(outbound + inbound =~= state.active.dom());
    assert(outbound.disjoint(inbound));
    vstd::set_lib::lemma_set_disjoint_lens(outbound, inbound);
}

proof fn lemma_taken_monotone(before: FlowControlView, after: FlowControlView)
    requires
        after.local_side == before.local_side,
        after.local_flow_ids.spec_next() >= before.local_flow_ids.spec_next(),
        after.peer_flow_ids.spec_next() >= before.peer_flow_ids.spec_next(),
    ensures
        forall|id: u64| #[trigger] before.taken(id) ==> after.taken(id),
{
}

proof fn lemma_peer_open_keeps_sound(state: FlowControlView, body: Seq<u8>)
    requires
        state.sound(),
        state.peer_flow_ids.wf(),
        state.peer_flow_ids.spec_side() == other_side(state.local_side),
        state.pending_inbound is None,
        open_verdict(state, body) is Ok,
    ensures
        match open_verdict(state, body)->Ok_0 {
            OpenVerdict::Reject(_, _) => after_peer_open(state, None).sound(),
            OpenVerdict::Ask(pending) => after_peer_open(state, Some(pending)).sound(),
        },
{
    let open = OpenFlow::parse(body)->Ok_0;
    let id = open.flow_id;
    assert(!state.taken(id.spec_value()));
    let pending = match open_verdict(state, body)->Ok_0 {
        OpenVerdict::Reject(_, _) => None,
        OpenVerdict::Ask(pending) => Some(pending),
    };
    let after = after_peer_open(state, pending);
    lemma_taken_monotone(state, after);
    assert(FlowId { value: id.spec_value() } == id);
    assert(after.taken(id.spec_value()));
    assert forall|other: u64| #[trigger] after.pending_outbound.contains_key(other) implies after.pending_sound(
        other,
    ) by {
        assert(state.pending_outbound.contains_key(other));
        assert(state.taken(other));
    }
    assert forall|other: u64| #[trigger] after.active.contains_key(other) implies after.active_sound(other) by {
        assert(state.active.contains_key(other));
        assert(state.taken(other));
    }
}

proof fn lemma_without_pending_sound(state: FlowControlView, flow_id: u64)
    requires
        state.sound(),
    ensures
        without_pending(state, flow_id).sound(),
        state.pending_outbound.contains_key(flow_id) ==> without_pending(
            state,
            flow_id,
        ).outbound_in_use() + 1 == state.outbound_in_use(),
{
    let after = without_pending(state, flow_id);
    if state.pending_outbound.contains_key(flow_id) {
        assert(after.pending_outbound.dom() =~= state.pending_outbound.dom().remove(flow_id));
    } else {
        assert(after.pending_outbound =~= state.pending_outbound);
    }
    lemma_taken_monotone(state, after);
    assert forall|other: u64| #[trigger] after.pending_outbound.contains_key(other) implies after.pending_sound(
        other,
    ) by {
        assert(state.pending_outbound.contains_key(other));
        assert(state.taken(other));
    }
    assert forall|other: u64| #[trigger] after.active.contains_key(other) implies after.active_sound(other) by {
        assert(state.active.contains_key(other));
        assert(state.taken(other));
    }
}

proof fn lemma_without_active_sound(state: FlowControlView, flow_id: u64)
    requires
        state.sound(),
    ensures
        without_active(state, flow_id).sound(),
{
    let after = without_active(state, flow_id);
    lemma_active_remove(state, flow_id, FlowDirection::Outbound);
    lemma_active_remove(state, flow_id, FlowDirection::Inbound);
    lemma_taken_monotone(state, after);
    assert forall|other: u64| #[trigger] after.pending_outbound.contains_key(other) implies after.pending_sound(
        other,
    ) by {
        assert(state.pending_outbound.contains_key(other));
        assert(state.taken(other));
    }
    assert forall|other: u64| #[trigger] after.active.contains_key(other) implies after.active_sound(other) by {
        assert(state.active.contains_key(other));
        assert(state.taken(other));
    }
}

proof fn lemma_with_active_sound(state: FlowControlView, flow_id: FlowId, flow: RegisteredFlow)
    requires
        state.sound(),
        state.pending_inbound is None || state.pending_inbound->0.flow_id != flow_id,
        state.pending_inbound is Some ==> flow.key.direction == FlowDirection::Outbound,
        state.taken(flow_id.spec_value()),
        !state.active.contains_key(flow_id.spec_value()),
        !state.pending_outbound.contains_key(flow_id.spec_value()),
        flow.key.direction == direction_of(state.local_side, flow_id.spec_side()),
        flow.key.connection == state.connection,
        flow.key.direction == FlowDirection::Outbound ==> state.outbound_in_use()
            < state.peer_settings.max_active_incoming_flows,
        flow.key.direction == FlowDirection::Inbound ==> state.active_towards(
            FlowDirection::Inbound,
        ) < state.local_settings.max_active_incoming_flows,
    ensures
        with_active(state, flow_id.spec_value(), flow).sound(),
{
    let id = flow_id.spec_value();
    let after = with_active(state, id, flow);
    lemma_active_insert(state, id, flow, FlowDirection::Outbound);
    lemma_active_insert(state, id, flow, FlowDirection::Inbound);
    lemma_taken_monotone(state, after);
    assert(FlowId { value: id } == flow_id);
    assert forall|other: u64| #[trigger] after.pending_outbound.contains_key(other) implies after.pending_sound(
        other,
    ) by {
        assert(state.pending_outbound.contains_key(other));
        assert(state.taken(other));
    }
    assert forall|other: u64| #[trigger] after.active.contains_key(other) implies after.active_sound(other) by {
        if other != id {
            assert(state.active.contains_key(other));
            assert(state.taken(other));
        }
    }
}

impl FlowControl {
    /// Takes a flow frame of the peer.
    pub fn receive(&mut self, frame: ControlFrame, storage: FlowStorage) -> (step: Result<
        FlowControlStep,
        FlowControlError,
    >)
        requires
            old(self).wf(),
            storage.wf(),
        ensures
            final(self).wf(),
            old(self)@.sound() ==> final(self)@.sound(),
            frame_received(
                old(self)@,
                final(self)@,
                frame.frame_type,
                frame.body@,
                storage.body,
                step,
            ),
    {
        match frame.frame_type {
            ControlFrameType::OpenFlow => {
                if let Some(pending) = self.pending_inbound {
                    return Err(FlowControlError::InboundDecisionPending(pending.flow_id));
                }
                self.receive_open(frame.body.as_slice(), storage.body)
            },
            ControlFrameType::FlowAccept => self.receive_accept(frame.body.as_slice()),
            ControlFrameType::FlowReject => self.receive_reject(frame.body.as_slice()),
            ControlFrameType::FlowTerminate => self.receive_terminate(frame.body.as_slice()),
            frame_type => Err(FlowControlError::UnexpectedFrame(frame_type)),
        }
    }

    fn receive_open(&mut self, body: &[u8], storage: ByteStorage) -> (step: Result<
        FlowControlStep,
        FlowControlError,
    >)
        requires
            old(self).wf(),
            fresh(storage),
            old(self)@.pending_inbound is None,
        ensures
            final(self).wf(),
            old(self)@.sound() ==> final(self)@.sound(),
            open_received(old(self)@, final(self)@, body@, storage, step),
    {
        let ghost before = self@;
        let open = match OpenFlow::decode(body) {
            Ok(open) => open,
            Err(error) => return Err(FlowControlError::Body(error)),
        };
        let mut advanced = self.peer_flow_ids;
        if let Err(error) = advanced.validate_and_consume(open.flow_id) {
            return Err(FlowControlError::FlowId(error));
        }
        proof {
            if before.sound() {
                lemma_peer_open_keeps_sound(before, body@);
            }
        }
        self.peer_flow_ids = advanced;
        if open.max_message_bytes > self.local_settings.max_incoming_message_bytes {
            return self.inbound_rejection(open.flow_id, FlowRejectReason::MessageLimit, storage);
        }
        let active: u64 = self.registry.active_direction_len(FlowDirection::Inbound) as u64;
        if active >= self.local_settings.max_active_incoming_flows {
            return self.inbound_rejection(open.flow_id, FlowRejectReason::ResourceLimit, storage);
        }
        self.pending_inbound = Some(
            PendingInboundFlow {
                flow_id: open.flow_id,
                mode: open.delivery_mode,
                max_message_bytes: open.max_message_bytes,
            },
        );
        Ok(
            FlowControlStep::Progress(
                FlowControlProgress::InboundOpen(
                    InboundOpenRequest {
                        flow_id: open.flow_id,
                        mode: open.delivery_mode,
                        max_message_bytes: open.max_message_bytes,
                    },
                ),
            ),
        )
    }

    fn inbound_rejection(&self, flow_id: FlowId, reason: FlowRejectReason, storage: ByteStorage) -> (step:
        Result<FlowControlStep, FlowControlError>)
        requires
            fresh(storage),
        ensures
            is_inbound_rejection(step, flow_id, reason, storage),
    {
        match reject_frame(flow_id, reason, storage) {
            Ok(frame) => Ok(
                FlowControlStep::Progress(
                    FlowControlProgress::InboundRejected { flow_id, reason, frame },
                ),
            ),
            Err(error) => Err(FlowControlError::Allocation(error)),
        }
    }

    fn require_local_response_side(&self, flow_id: FlowId) -> (checked: Result<
        (),
        FlowControlError,
    >)
        ensures
            flow_id.spec_side() == self@.local_side ==> checked is Ok,
            flow_id.spec_side() != self@.local_side ==> checked == Err::<(), _>(
                (FlowControlError::WrongResponseSide {
                    expected: self@.local_side,
                    received: flow_id.spec_side(),
                }),
            ),
    {
        if flow_id.side() == self.local_side {
            Ok(())
        } else {
            Err(
                FlowControlError::WrongResponseSide {
                    expected: self.local_side,
                    received: flow_id.side(),
                },
            )
        }
    }

    fn receive_accept(&self, body: &[u8]) -> (step: Result<FlowControlStep, FlowControlError>)
        ensures
            accept_received(self@, body@, step),
    {
        let accept = match FlowAccept::decode(body) {
            Ok(accept) => accept,
            Err(error) => return Err(FlowControlError::Body(error)),
        };
        if let Err(error) = self.require_local_response_side(accept.flow_id) {
            return Err(error);
        }
        match self.pending_outbound.get(&accept.flow_id.value()) {
            Some(pending) => Ok(
                FlowControlStep::Establish(
                    OutboundEstablish {
                        flow_id: accept.flow_id,
                        key: pending.key,
                        mode: pending.mode,
                        policy: pending.policy,
                        connection_limits: pending.connection_limits,
                    },
                ),
            ),
            None => Err(FlowControlError::UnknownPendingFlow(accept.flow_id)),
        }
    }

    /// Takes the core's answer for a flow that the peer granted. Whatever it is, the flow
    /// waits no longer.
    pub fn outbound_established(
        &mut self,
        flow_id: FlowId,
        answer: Result<(), FlowEstablishmentError>,
        storage: FlowStorage,
    ) -> (step: Result<OutboundStep, FlowControlError>)
        requires
            old(self).wf(),
            storage.wf(),
        ensures
            final(self).wf(),
            old(self)@.sound() ==> final(self)@.sound(),
            outbound_answered(old(self)@, final(self)@, flow_id, answer, storage, step),
    {
        let ghost before = self@;
        let id: u64 = flow_id.value();
        let pending = match self.pending_outbound.remove(&id) {
            Some(pending) => pending,
            None => {
                proof {
                    assert(self@.pending_outbound =~= before.pending_outbound);
                }
                return Err(FlowControlError::UnknownPendingFlow(flow_id));
            },
        };
        proof {
            assert(self@ == without_pending(before, id));
            if before.sound() {
                lemma_without_pending_sound(before, id);
            }
        }
        match answer {
            Ok(()) => {},
            Err(FlowEstablishmentError::ActiveFlowLimitExceeded) => {
                return match self.outbound_resource_failure(
                    flow_id,
                    pending.key,
                    None,
                    storage.body,
                ) {
                    Ok(progress) => Ok(OutboundStep::Progress(progress)),
                    Err(error) => Err(error),
                };
            },
            Err(error) => return Err(FlowControlError::LocalEstablishment(error)),
        }
        let flow = RegisteredFlow {
            key: pending.key,
            mode: pending.mode,
            max_message_bytes: pending.stable_max_message_bytes,
        };
        proof {
            if before.sound() && registration_refusal(
                self@,
                flow_id,
                flow.key,
                storage.active,
            ) is None {
                assert(before.pending_outbound.contains_key(id));
                assert(FlowId { value: id } == flow_id);
                lemma_with_active_sound(self@, flow_id, flow);
            }
        }
        match self.registry.register_consumed_accepted_flow(flow_id, flow, storage.active) {
            Ok(()) => Ok(
                OutboundStep::Progress(
                    FlowControlProgress::OutboundEstablished(
                        EstablishedFlow {
                            flow_id,
                            key: pending.key,
                            mode: pending.mode,
                            max_message_bytes: pending.stable_max_message_bytes,
                        },
                    ),
                ),
            ),
            Err(error) => Ok(
                OutboundStep::RollBack(OutboundRollback { flow_id, key: pending.key, error }),
            ),
        }
    }

    /// Takes the core's answer to ending a flow again that could not be registered.
    pub fn outbound_rolled_back(
        &self,
        rollback: OutboundRollback,
        answer: Result<FlowTermination, DeliveryOperationError>,
        storage: ByteStorage,
    ) -> (progress: Result<FlowControlProgress, FlowControlError>)
        requires
            fresh(storage),
        ensures
            match answer {
                Err(error) => progress == Err::<FlowControlProgress, _>(
                    FlowControlError::CoreState(error),
                ),
                Ok(termination) => if resource_shortage(rollback.error) {
                    is_outbound_failure(
                        progress,
                        rollback.flow_id,
                        rollback.key,
                        Some(termination),
                        storage,
                    )
                } else {
                    progress == Err::<FlowControlProgress, _>(
                        FlowControlError::Registry(rollback.error),
                    )
                },
            },
    {
        let termination = match answer {
            Ok(termination) => termination,
            Err(error) => return Err(FlowControlError::CoreState(error)),
        };
        match rollback.error {
            RegistryError::CapacityExceeded | RegistryError::AllocationFailed => {
                self.outbound_resource_failure(
                    rollback.flow_id,
                    rollback.key,
                    Some(termination),
                    storage,
                )
            },
            error => Err(FlowControlError::Registry(error)),
        }
    }

    fn outbound_resource_failure(
        &self,
        flow_id: FlowId,
        key: DeliveryFlowKey,
        termination: Option<FlowTermination>,
        storage: ByteStorage,
    ) -> (progress: Result<FlowControlProgress, FlowControlError>)
        requires
            fresh(storage),
        ensures
            is_outbound_failure(progress, flow_id, key, termination, storage),
    {
        let reason = FlowTerminateReason::ResourceFailure;
        match terminate_frame(flow_id, reason, storage) {
            Ok(frame) => Ok(
                FlowControlProgress::OutboundFailedAfterAccept {
                    flow_id,
                    key,
                    reason,
                    termination,
                    frame,
                },
            ),
            Err(error) => Err(FlowControlError::Allocation(error)),
        }
    }

    fn receive_reject(&mut self, body: &[u8]) -> (step: Result<FlowControlStep, FlowControlError>)
        requires
            old(self).wf(),
        ensures
            final(self).wf(),
            old(self)@.sound() ==> final(self)@.sound(),
            reject_received(old(self)@, final(self)@, body@, step),
    {
        let ghost before = self@;
        let reject = match FlowReject::decode(body) {
            Ok(reject) => reject,
            Err(error) => return Err(FlowControlError::Body(error)),
        };
        if let Err(error) = self.require_local_response_side(reject.flow_id) {
            return Err(error);
        }
        let id: u64 = reject.flow_id.value();
        match self.pending_outbound.remove(&id) {
            Some(pending) => {
                proof {
                    assert(self@ == without_pending(before, id));
                    if before.sound() {
                        lemma_without_pending_sound(before, id);
                    }
                }
                Ok(
                    FlowControlStep::Progress(
                        FlowControlProgress::OutboundRejected {
                            flow_id: reject.flow_id,
                            key: pending.key,
                            reason: reject.reason,
                        },
                    ),
                )
            },
            None => {
                proof {
                    assert(self@.pending_outbound =~= before.pending_outbound);
                }
                Err(FlowControlError::UnknownPendingFlow(reject.flow_id))
            },
        }
    }

    fn ending(&self, flow_id: FlowId, reason: FlowTerminateReason) -> (flow: Result<
        EstablishedFlow,
        FlowControlError,
    >)
        ensures
            flow == ending_flow(self@, flow_id, reason),
    {
        let registered = match self.registry.registered_flow(flow_id) {
            Some(registered) => registered,
            None => return Err(FlowControlError::UnknownActiveFlow(flow_id)),
        };
        if registered.mode == DeliveryMode::ReliableOrdered && reason
            == FlowTerminateReason::Normal {
            return Err(FlowControlError::ReliableNormalUsesFin(flow_id));
        }
        Ok(established_from_registered(flow_id, registered))
    }

    fn receive_terminate(&self, body: &[u8]) -> (step: Result<FlowControlStep, FlowControlError>)
        ensures
            terminate_received(self@, body@, step),
    {
        let terminate = match FlowTerminate::decode(body) {
            Ok(terminate) => terminate,
            Err(error) => return Err(FlowControlError::Body(error)),
        };
        match self.ending(terminate.flow_id, terminate.reason) {
            Ok(flow) => Ok(
                FlowControlStep::Terminate(RemoteTerminate { flow, reason: terminate.reason }),
            ),
            Err(error) => Err(error),
        }
    }

    /// Takes the core's answer to ending a flow that the peer ended.
    pub fn remote_terminated(
        &mut self,
        call: RemoteTerminate,
        answer: Result<FlowTermination, DeliveryOperationError>,
    ) -> (progress: Result<FlowControlProgress, FlowControlError>)
        requires
            old(self).wf(),
        ensures
            final(self).wf(),
            old(self)@.sound() ==> final(self)@.sound(),
            match answer {
                Err(error) => {
                    &&& progress == Err::<FlowControlProgress, _>(
                        FlowControlError::CoreState(error),
                    )
                    &&& final(self)@ == old(self)@
                },
                Ok(termination) => {
                    &&& progress == Ok::<_, FlowControlError>(
                        (FlowControlProgress::RemoteTerminated {
                            flow: call.flow,
                            reason: call.reason,
                            termination,
                        }),
                    )
                    &&& final(self)@ == without_active(old(self)@, call.flow.flow_id.spec_value())
                },
            },
    {
        match answer {
            Err(error) => Err(FlowControlError::CoreState(error)),
            Ok(termination) => {
                self.release(call.flow.flow_id);
                Ok(
                    FlowControlProgress::RemoteTerminated {
                        flow: call.flow,
                        reason: call.reason,
                        termination,
                    },
                )
            },
        }
    }

    /// Forgets an established flow.
    pub fn release(&mut self, flow_id: FlowId) -> (released: Option<RegisteredFlow>)
        requires
            old(self).wf(),
        ensures
            final(self).wf(),
            old(self)@.sound() ==> final(self)@.sound(),
            final(self)@ == without_active(old(self)@, flow_id.spec_value()),
            released == (if old(self)@.active.contains_key(flow_id.spec_value()) {
                Some(old(self)@.active[flow_id.spec_value()])
            } else {
                None
            }),
    {
        proof {
            if self@.sound() {
                lemma_without_active_sound(self@, flow_id.spec_value());
            }
        }
        self.registry.release(flow_id)
    }
}

fn established_from_registered(flow_id: FlowId, flow: RegisteredFlow) -> (whole: EstablishedFlow)
    ensures
        whole == established(flow_id, flow),
{
    EstablishedFlow {
        flow_id,
        key: flow.key,
        mode: flow.mode,
        max_message_bytes: flow.max_message_bytes,
    }
}

/// A flow frame of the peer was received.
pub open(crate) spec fn frame_received(
    before: FlowControlView,
    after: FlowControlView,
    frame_type: ControlFrameType,
    body: Seq<u8>,
    storage: ByteStorage,
    step: Result<FlowControlStep, FlowControlError>,
) -> bool {
    match frame_type {
        ControlFrameType::OpenFlow => match before.pending_inbound {
            Some(pending) => {
                &&& step == Err::<FlowControlStep, _>(
                    FlowControlError::InboundDecisionPending(pending.flow_id),
                )
                &&& after == before
            },
            None => open_received(before, after, body, storage, step),
        },
        ControlFrameType::FlowAccept => {
            &&& after == before
            &&& accept_received(before, body, step)
        },
        ControlFrameType::FlowReject => reject_received(before, after, body, step),
        ControlFrameType::FlowTerminate => {
            &&& after == before
            &&& terminate_received(before, body, step)
        },
        other => {
            &&& step == Err::<FlowControlStep, _>(FlowControlError::UnexpectedFrame(other))
            &&& after == before
        },
    }
}

/// A request of the peer was received.
pub open(crate) spec fn open_received(
    before: FlowControlView,
    after: FlowControlView,
    body: Seq<u8>,
    storage: ByteStorage,
    step: Result<FlowControlStep, FlowControlError>,
) -> bool {
    match open_verdict(before, body) {
        Err(error) => step == Err::<FlowControlStep, _>(error) && after == before,
        Ok(OpenVerdict::Reject(flow_id, reason)) => {
            &&& is_inbound_rejection(step, flow_id, reason, storage)
            &&& after == after_peer_open(before, None)
        },
        Ok(OpenVerdict::Ask(pending)) => {
            &&& step == Ok::<_, FlowControlError>(
                FlowControlStep::Progress(
                    FlowControlProgress::InboundOpen(
                        InboundOpenRequest {
                            flow_id: pending.flow_id,
                            mode: pending.mode,
                            max_message_bytes: pending.max_message_bytes,
                        },
                    ),
                ),
            )
            &&& after == after_peer_open(before, Some(pending))
        },
    }
}

/// A grant of the peer was received: the core is to establish the flow that was asked for.
pub open(crate) spec fn accept_received(
    state: FlowControlView,
    body: Seq<u8>,
    step: Result<FlowControlStep, FlowControlError>,
) -> bool {
    match FlowAccept::parse(body) {
        Err(error) => step == Err::<FlowControlStep, _>(FlowControlError::Body(error)),
        Ok(accept) => match answered_flow(state, accept.flow_id) {
            Err(error) => step == Err::<FlowControlStep, _>(error),
            Ok(pending) => step == Ok::<_, FlowControlError>(
                FlowControlStep::Establish(
                    OutboundEstablish {
                        flow_id: accept.flow_id,
                        key: pending.key,
                        mode: pending.mode,
                        policy: pending.policy,
                        connection_limits: pending.connection_limits,
                    },
                ),
            ),
        },
    }
}

/// A refusal of the peer was received: the flow that was asked for waits no longer.
pub open(crate) spec fn reject_received(
    before: FlowControlView,
    after: FlowControlView,
    body: Seq<u8>,
    step: Result<FlowControlStep, FlowControlError>,
) -> bool {
    match FlowReject::parse(body) {
        Err(error) => {
            &&& step == Err::<FlowControlStep, _>(FlowControlError::Body(error))
            &&& after == before
        },
        Ok(reject) => match answered_flow(before, reject.flow_id) {
            Err(error) => step == Err::<FlowControlStep, _>(error) && after == before,
            Ok(pending) => {
                &&& step == Ok::<_, FlowControlError>(
                    FlowControlStep::Progress(
                        FlowControlProgress::OutboundRejected {
                            flow_id: reject.flow_id,
                            key: pending.key,
                            reason: reject.reason,
                        },
                    ),
                )
                &&& after == without_pending(before, reject.flow_id.spec_value())
            },
        },
    }
}

/// The end of a flow was received: the core is to end it.
pub open(crate) spec fn terminate_received(
    state: FlowControlView,
    body: Seq<u8>,
    step: Result<FlowControlStep, FlowControlError>,
) -> bool {
    match FlowTerminate::parse(body) {
        Err(error) => step == Err::<FlowControlStep, _>(FlowControlError::Body(error)),
        Ok(terminate) => match ending_flow(state, terminate.flow_id, terminate.reason) {
            Err(error) => step == Err::<FlowControlStep, _>(error),
            Ok(flow) => step == Ok::<_, FlowControlError>(
                FlowControlStep::Terminate(RemoteTerminate { flow, reason: terminate.reason }),
            ),
        },
    }
}

/// The core answered for a flow that the peer granted.
pub open(crate) spec fn outbound_answered(
    before: FlowControlView,
    after: FlowControlView,
    flow_id: FlowId,
    answer: Result<(), FlowEstablishmentError>,
    storage: FlowStorage,
    step: Result<OutboundStep, FlowControlError>,
) -> bool {
    let id = flow_id.spec_value();
    if !before.pending_outbound.contains_key(id) {
        &&& step == Err::<OutboundStep, _>(FlowControlError::UnknownPendingFlow(flow_id))
        &&& after == before
    } else {
        let pending = before.pending_outbound[id];
        let rest = without_pending(before, id);
        let flow = RegisteredFlow {
            key: pending.key,
            mode: pending.mode,
            max_message_bytes: pending.stable_max_message_bytes,
        };
        match answer {
            Err(FlowEstablishmentError::ActiveFlowLimitExceeded) => {
                &&& after == rest
                &&& step matches Ok(step) ==> step is Progress
                &&& is_outbound_failure(
                    match step {
                        Ok(OutboundStep::Progress(progress)) => Ok(progress),
                        Ok(OutboundStep::RollBack(rollback)) => Err(
                            FlowControlError::Registry(rollback.error),
                        ),
                        Err(error) => Err(error),
                    },
                    flow_id,
                    pending.key,
                    None,
                    storage.body,
                )
            },
            Err(error) => {
                &&& after == rest
                &&& step == Err::<OutboundStep, _>(FlowControlError::LocalEstablishment(error))
            },
            Ok(()) => match registration_refusal(rest, flow_id, pending.key, storage.active) {
                Some(error) => {
                    &&& after == rest
                    &&& step == Ok::<_, FlowControlError>(
                        OutboundStep::RollBack(
                            OutboundRollback { flow_id, key: pending.key, error },
                        ),
                    )
                },
                None => {
                    &&& after == with_active(rest, id, flow)
                    &&& step == Ok::<_, FlowControlError>(
                        OutboundStep::Progress(
                            FlowControlProgress::OutboundEstablished(established(flow_id, flow)),
                        ),
                    )
                },
            },
        }
    }
}

/// An inbound flow that the host granted and that the core is to establish.
#[derive(Debug)]
pub struct InboundEstablish {
    pub(crate) request: InboundOpenRequest,
    pub(crate) admission: InboundAdmission,
    pub(crate) frame: ControlFrame,
}

impl InboundEstablish {
    #[verifier::type_invariant]
    pub open(crate) spec fn wf(self) -> bool {
        &&& self.request.max_message_bytes <= self.admission.policy.max_message_bytes
        &&& self.frame.holds(
            ControlFrameType::FlowAccept,
            (FlowAccept { flow_id: self.request.flow_id }).bytes(),
        )
    }

    pub open(crate) spec fn spec_request(self) -> InboundOpenRequest {
        self.request
    }

    pub open(crate) spec fn spec_admission(self) -> InboundAdmission {
        self.admission
    }

    /// The flow as it will be registered.
    pub open(crate) spec fn flow(self) -> RegisteredFlow {
        RegisteredFlow {
            key: self.admission.key,
            mode: self.request.mode,
            max_message_bytes: self.request.max_message_bytes as usize,
        }
    }

    pub fn mode(&self) -> (mode: DeliveryMode)
        ensures
            mode == self.spec_request().spec_mode(),
    {
        self.request.mode
    }

    pub fn admission(&self) -> (admission: InboundAdmission)
        ensures
            admission == self.spec_admission(),
    {
        self.admission
    }
}

/// An inbound flow that the core established and that could not be registered.
#[derive(Debug)]
pub struct InboundRollback {
    pub(crate) request: InboundOpenRequest,
    pub(crate) key: DeliveryFlowKey,
    pub(crate) error: RegistryError,
}

impl InboundRollback {
    pub open(crate) spec fn spec_request(self) -> InboundOpenRequest {
        self.request
    }

    pub open(crate) spec fn spec_key(self) -> DeliveryFlowKey {
        self.key
    }

    pub open(crate) spec fn spec_error(self) -> RegistryError {
        self.error
    }

    pub fn key(&self) -> (key: DeliveryFlowKey)
        ensures
            key == self.spec_key(),
    {
        self.key
    }
}

/// What comes next for an inbound flow that the host granted.
#[derive(Debug)]
pub enum InboundStep {
    Resolved(InboundResolution),
    /// Have the core establish the flow.
    Establish(InboundEstablish),
    /// Have the core end the flow again.
    RollBack(InboundRollback),
}

/// What the host's terms come to before the core is asked.
#[derive(Debug, PartialEq, Eq)]
pub enum AdmissionVerdict {
    /// The terms do not fit the connection: the decision is void, and so is the request.
    Void(InboundAdmissionError),
    Reject(FlowRejectReason),
    Establish,
}

/// How the host's terms for a request are judged.
pub open(crate) spec fn admission_verdict(
    state: FlowControlView,
    request: InboundOpenRequest,
    admission: InboundAdmission,
    policy_check: Result<(), DeliveryPolicyError>,
) -> AdmissionVerdict {
    if admission.key.connection != state.connection {
        AdmissionVerdict::Void(
            InboundAdmissionError::WrongConnection {
                expected: state.connection,
                actual: admission.key.connection,
            },
        )
    } else if admission.key.direction != FlowDirection::Inbound {
        AdmissionVerdict::Void(InboundAdmissionError::WrongDirection(admission.key.direction))
    } else if policy_check is Err {
        AdmissionVerdict::Void(InboundAdmissionError::InvalidPolicy(policy_check->Err_0))
    } else if request.max_message_bytes > admission.policy.max_message_bytes {
        AdmissionVerdict::Reject(FlowRejectReason::MessageLimit)
    } else if state.active_towards(FlowDirection::Inbound)
        >= state.local_settings.max_active_incoming_flows {
        AdmissionVerdict::Reject(FlowRejectReason::ResourceLimit)
    } else {
        AdmissionVerdict::Establish
    }
}

/// The peer's request was refused by the host's decision, where there was memory for the
/// frame.
pub open(crate) spec fn is_resolved_rejection(
    resolution: Result<InboundResolution, InboundAdmissionError>,
    flow_id: FlowId,
    reason: FlowRejectReason,
    body: ByteStorage,
) -> bool {
    match body {
        Err(error) => resolution == Err::<InboundResolution, _>(
            InboundAdmissionError::Allocation(error),
        ),
        Ok(_) => resolution matches Ok(
            InboundResolution::Rejected { flow_id: id, reason: why, frame },
        ) && id == flow_id && why == reason && frame.holds(
            ControlFrameType::FlowReject,
            (FlowReject { flow_id, reason }).bytes(),
        ),
    }
}

/// The resolution that a step holds, where it holds one.
pub open spec fn resolution_of(step: Result<InboundStep, InboundAdmissionError>) -> Option<
    Result<InboundResolution, InboundAdmissionError>,
> {
    match step {
        Ok(InboundStep::Resolved(resolution)) => Some(Ok(resolution)),
        Ok(_) => None,
        Err(error) => Some(Err(error)),
    }
}

/// The host granted a request.
pub open(crate) spec fn admission_received(
    before: FlowControlView,
    after: FlowControlView,
    request: InboundOpenRequest,
    admission: InboundAdmission,
    policy_check: Result<(), DeliveryPolicyError>,
    body: ByteStorage,
    step: Result<InboundStep, InboundAdmissionError>,
) -> bool {
    if before.pending_inbound != Some(request.pending()) {
        &&& step == Err::<InboundStep, _>(
            InboundAdmissionError::RequestNotPending(request.flow_id),
        )
        &&& after == before
    } else {
        match admission_verdict(before, request, admission, policy_check) {
            AdmissionVerdict::Void(error) => {
                &&& step == Err::<InboundStep, _>(error)
                &&& after == decided(before)
            },
            AdmissionVerdict::Reject(reason) => {
                &&& resolution_of(step) is Some
                &&& is_resolved_rejection(resolution_of(step)->0, request.flow_id, reason, body)
                &&& after == decided(before)
            },
            AdmissionVerdict::Establish => match body {
                Err(error) => {
                    &&& step == Err::<InboundStep, _>(InboundAdmissionError::Allocation(error))
                    &&& after == decided(before)
                },
                Ok(_) => {
                    &&& step matches Ok(InboundStep::Establish(establish))
                        && establish.spec_request() == request && establish.spec_admission()
                        == admission && establish.wf()
                    &&& after == before
                },
            },
        }
    }
}

/// The core answered for an inbound flow.
pub open(crate) spec fn inbound_answered(
    before: FlowControlView,
    after: FlowControlView,
    establish: InboundEstablish,
    answer: Result<(), FlowEstablishmentError>,
    storage: FlowStorage,
    step: Result<InboundStep, InboundAdmissionError>,
) -> bool {
    let request = establish.spec_request();
    let flow_id = request.flow_id;
    let key = establish.spec_admission().key;
    if before.pending_inbound != Some(request.pending()) {
        &&& step == Err::<InboundStep, _>(InboundAdmissionError::RequestNotPending(flow_id))
        &&& after == before
    } else {
        match answer {
            Err(FlowEstablishmentError::ActiveFlowLimitExceeded) => {
                &&& resolution_of(step) is Some
                &&& is_resolved_rejection(
                    resolution_of(step)->0,
                    flow_id,
                    FlowRejectReason::ResourceLimit,
                    storage.body,
                )
                &&& after == decided(before)
            },
            Err(error) => {
                &&& step == Err::<InboundStep, _>(InboundAdmissionError::LocalEstablishment(error))
                &&& after == decided(before)
            },
            Ok(()) => match registration_refusal(before, flow_id, key, storage.active) {
                Some(error) => {
                    &&& step matches Ok(InboundStep::RollBack(rollback)) && rollback.spec_request()
                        == request && rollback.spec_key() == key && rollback.spec_error() == error
                    &&& after == before
                },
                None => {
                    &&& step matches Ok(
                        InboundStep::Resolved(InboundResolution::Accepted { flow, frame }),
                    ) && flow == established(flow_id, establish.flow()) && frame.holds(
                        ControlFrameType::FlowAccept,
                        (FlowAccept { flow_id }).bytes(),
                    )
                    &&& after == decided(
                        with_active(before, flow_id.spec_value(), establish.flow()),
                    )
                },
            },
        }
    }
}

proof fn lemma_decided_sound(state: FlowControlView)
    requires
        state.sound(),
    ensures
        decided(state).sound(),
{
    let after = decided(state);
    lemma_taken_monotone(state, after);
    assert forall|other: u64| #[trigger] after.pending_outbound.contains_key(other) implies after.pending_sound(
        other,
    ) by {
        assert(state.pending_outbound.contains_key(other));
        assert(state.taken(other));
    }
    assert forall|other: u64| #[trigger] after.active.contains_key(other) implies after.active_sound(
        other,
    ) by {
        assert(state.active.contains_key(other));
        assert(state.taken(other));
    }
}

impl FlowControl {
    fn require_pending_inbound(&self, request: &InboundOpenRequest) -> (checked: Result<
        (),
        InboundAdmissionError,
    >)
        ensures
            self@.pending_inbound == Some(request.pending()) ==> checked is Ok,
            self@.pending_inbound != Some(request.pending()) ==> checked == Err::<(), _>(
                InboundAdmissionError::RequestNotPending(request.spec_flow_id()),
            ),
    {
        let expected = PendingInboundFlow {
            flow_id: request.flow_id,
            mode: request.mode,
            max_message_bytes: request.max_message_bytes,
        };
        match self.pending_inbound {
            Some(pending) => if pending == expected {
                Ok(())
            } else {
                Err(InboundAdmissionError::RequestNotPending(request.flow_id))
            },
            None => Err(InboundAdmissionError::RequestNotPending(request.flow_id)),
        }
    }

    fn resolve_inbound_rejection(
        &mut self,
        flow_id: FlowId,
        reason: FlowRejectReason,
        storage: ByteStorage,
    ) -> (resolution: Result<InboundResolution, InboundAdmissionError>)
        requires
            old(self).wf(),
            fresh(storage),
        ensures
            final(self).wf(),
            final(self)@ == decided(old(self)@),
            is_resolved_rejection(resolution, flow_id, reason, storage),
    {
        self.pending_inbound = None;
        match reject_frame(flow_id, reason, storage) {
            Ok(frame) => Ok(InboundResolution::Rejected { flow_id, reason, frame }),
            Err(error) => Err(InboundAdmissionError::Allocation(error)),
        }
    }

    /// Takes the host's grant of the peer's request.
    pub fn accept_inbound(
        &mut self,
        request: InboundOpenRequest,
        admission: InboundAdmission,
        policy_check: Result<(), DeliveryPolicyError>,
        storage: ByteStorage,
    ) -> (step: Result<InboundStep, InboundAdmissionError>)
        requires
            old(self).wf(),
            fresh(storage),
        ensures
            final(self).wf(),
            old(self)@.sound() ==> final(self)@.sound(),
            admission_received(
                old(self)@,
                final(self)@,
                request,
                admission,
                policy_check,
                storage,
                step,
            ),
    {
        if let Err(error) = self.require_pending_inbound(&request) {
            return Err(error);
        }
        proof {
            if self@.sound() {
                lemma_decided_sound(self@);
            }
        }
        if admission.key.connection != self.connection {
            self.pending_inbound = None;
            return Err(
                InboundAdmissionError::WrongConnection {
                    expected: self.connection,
                    actual: admission.key.connection,
                },
            );
        }
        if admission.key.direction != FlowDirection::Inbound {
            self.pending_inbound = None;
            return Err(InboundAdmissionError::WrongDirection(admission.key.direction));
        }
        if let Err(error) = policy_check {
            self.pending_inbound = None;
            return Err(InboundAdmissionError::InvalidPolicy(error));
        }
        let policy_max: u64 = admission.policy.max_message_bytes as u64;
        if request.max_message_bytes > policy_max {
            return match self.resolve_inbound_rejection(
                request.flow_id,
                FlowRejectReason::MessageLimit,
                storage,
            ) {
                Ok(resolution) => Ok(InboundStep::Resolved(resolution)),
                Err(error) => Err(error),
            };
        }
        let active: u64 = self.registry.active_direction_len(FlowDirection::Inbound) as u64;
        if active >= self.local_settings.max_active_incoming_flows {
            return match self.resolve_inbound_rejection(
                request.flow_id,
                FlowRejectReason::ResourceLimit,
                storage,
            ) {
                Ok(resolution) => Ok(InboundStep::Resolved(resolution)),
                Err(error) => Err(error),
            };
        }
        match accept_frame(request.flow_id, storage) {
            Ok(frame) => Ok(InboundStep::Establish(InboundEstablish { request, admission, frame })),
            Err(error) => {
                self.pending_inbound = None;
                Err(InboundAdmissionError::Allocation(error))
            },
        }
    }

    /// Takes the core's answer for an inbound flow.
    pub fn inbound_established(
        &mut self,
        establish: InboundEstablish,
        answer: Result<(), FlowEstablishmentError>,
        storage: FlowStorage,
    ) -> (step: Result<InboundStep, InboundAdmissionError>)
        requires
            old(self).wf(),
            storage.wf(),
        ensures
            final(self).wf(),
            old(self)@.sound() && establish.spec_admission().key.connection == old(
                self,
            )@.connection ==> final(self)@.sound(),
            inbound_answered(old(self)@, final(self)@, establish, answer, storage, step),
    {
        proof {
            use_type_invariant(&establish);
        }
        let ghost before = self@;
        let ghost whole = establish.flow();
        let InboundEstablish { request, admission, frame } = establish;
        if let Err(error) = self.require_pending_inbound(&request) {
            return Err(error);
        }
        proof {
            if self@.sound() {
                lemma_decided_sound(self@);
            }
        }
        match answer {
            Ok(()) => {},
            Err(FlowEstablishmentError::ActiveFlowLimitExceeded) => {
                return match self.resolve_inbound_rejection(
                    request.flow_id,
                    FlowRejectReason::ResourceLimit,
                    storage.body,
                ) {
                    Ok(resolution) => Ok(InboundStep::Resolved(resolution)),
                    Err(error) => Err(error),
                };
            },
            Err(error) => {
                self.pending_inbound = None;
                return Err(InboundAdmissionError::LocalEstablishment(error));
            },
        }
        let stable_max: usize = request.max_message_bytes as usize;
        let flow = RegisteredFlow {
            key: admission.key,
            mode: request.mode,
            max_message_bytes: stable_max,
        };
        proof {
            if before.sound() && admission.key.connection == before.connection
                && registration_refusal(
                before,
                request.flow_id,
                flow.key,
                storage.active,
            ) is None {
                let id = request.flow_id.spec_value();
                assert(FlowId { value: id } == request.flow_id);
                if before.pending_outbound.contains_key(id) {
                    assert(before.pending_sound(id));
                }
                lemma_with_active_sound(decided(before), request.flow_id, flow);
            }
        }
        match self.registry.register_consumed_accepted_flow(request.flow_id, flow, storage.active) {
            Ok(()) => {
                self.pending_inbound = None;
                Ok(
                    InboundStep::Resolved(
                        InboundResolution::Accepted {
                            flow: EstablishedFlow {
                                flow_id: request.flow_id,
                                key: admission.key,
                                mode: request.mode,
                                max_message_bytes: stable_max,
                            },
                            frame,
                        },
                    ),
                )
            },
            Err(error) => Ok(
                InboundStep::RollBack(InboundRollback { request, key: admission.key, error }),
            ),
        }
    }

    /// Takes the core's answer to ending an inbound flow again that could not be
    /// registered.
    pub fn inbound_rolled_back(
        &mut self,
        rollback: InboundRollback,
        answer: Result<FlowTermination, DeliveryOperationError>,
        storage: ByteStorage,
    ) -> (resolution: Result<InboundResolution, InboundAdmissionError>)
        requires
            old(self).wf(),
            fresh(storage),
        ensures
            final(self).wf(),
            old(self)@.sound() ==> final(self)@.sound(),
            final(self)@ == decided(old(self)@),
            match answer {
                Err(error) => resolution == Err::<InboundResolution, _>(
                    InboundAdmissionError::CoreRollback(error),
                ),
                Ok(_) => if resource_shortage(rollback.spec_error()) {
                    is_resolved_rejection(
                        resolution,
                        rollback.spec_request().spec_flow_id(),
                        FlowRejectReason::ResourceLimit,
                        storage,
                    )
                } else {
                    resolution == Err::<InboundResolution, _>(
                        InboundAdmissionError::Registry(rollback.spec_error()),
                    )
                },
            },
    {
        proof {
            if self@.sound() {
                lemma_decided_sound(self@);
            }
        }
        if let Err(error) = answer {
            self.pending_inbound = None;
            return Err(InboundAdmissionError::CoreRollback(error));
        }
        match rollback.error {
            RegistryError::CapacityExceeded | RegistryError::AllocationFailed => {
                self.resolve_inbound_rejection(
                    rollback.request.flow_id,
                    FlowRejectReason::ResourceLimit,
                    storage,
                )
            },
            error => {
                self.pending_inbound = None;
                Err(InboundAdmissionError::Registry(error))
            },
        }
    }

    /// Takes the host's refusal of the peer's request.
    pub fn reject_inbound(
        &mut self,
        request: InboundOpenRequest,
        reason: FlowRejectReason,
        storage: ByteStorage,
    ) -> (resolution: Result<InboundResolution, InboundAdmissionError>)
        requires
            old(self).wf(),
            fresh(storage),
        ensures
            final(self).wf(),
            old(self)@.sound() ==> final(self)@.sound(),
            old(self)@.pending_inbound != Some(request.pending()) ==> {
                &&& resolution == Err::<InboundResolution, _>(
                    InboundAdmissionError::RequestNotPending(request.spec_flow_id()),
                )
                &&& final(self)@ == old(self)@
            },
            old(self)@.pending_inbound == Some(request.pending()) ==> {
                &&& is_resolved_rejection(resolution, request.spec_flow_id(), reason, storage)
                &&& final(self)@ == decided(old(self)@)
            },
    {
        if let Err(error) = self.require_pending_inbound(&request) {
            return Err(error);
        }
        proof {
            if self@.sound() {
                lemma_decided_sound(self@);
            }
        }
        self.resolve_inbound_rejection(request.flow_id, reason, storage)
    }

    /// Begins to end a flow from this side.
    pub fn terminate_local(
        &self,
        flow_id: FlowId,
        reason: FlowTerminateReason,
        storage: ByteStorage,
    ) -> (call: Result<LocalTerminate, FlowControlError>)
        requires
            fresh(storage),
        ensures
            match ending_flow(self@, flow_id, reason) {
                Err(error) => call == Err::<LocalTerminate, _>(error),
                Ok(flow) => match storage {
                    Err(error) => call == Err::<LocalTerminate, _>(
                        FlowControlError::Allocation(error),
                    ),
                    Ok(_) => {
                        &&& call is Ok
                        &&& call->Ok_0.flow == flow
                        &&& call->Ok_0.reason == reason
                        &&& call->Ok_0.frame.holds(
                            ControlFrameType::FlowTerminate,
                            (FlowTerminate { flow_id, reason }).bytes(),
                        )
                    },
                },
            },
    {
        let flow = match self.ending(flow_id, reason) {
            Ok(flow) => flow,
            Err(error) => return Err(error),
        };
        match terminate_frame(flow_id, reason, storage) {
            Ok(frame) => Ok(LocalTerminate { flow, reason, frame }),
            Err(error) => Err(FlowControlError::Allocation(error)),
        }
    }

    /// Takes the core's answer to ending a flow from this side.
    pub fn local_terminated(
        &mut self,
        call: LocalTerminate,
        answer: Result<FlowTermination, DeliveryOperationError>,
    ) -> (ended: Result<LocalTermination, FlowControlError>)
        requires
            old(self).wf(),
        ensures
            final(self).wf(),
            old(self)@.sound() ==> final(self)@.sound(),
            match answer {
                Err(error) => {
                    &&& ended == Err::<LocalTermination, _>(FlowControlError::CoreState(error))
                    &&& final(self)@ == old(self)@
                },
                Ok(termination) => {
                    &&& ended == Ok::<_, FlowControlError>(
                        (LocalTermination {
                            flow: call.flow,
                            reason: call.reason,
                            termination,
                            frame: call.frame,
                        }),
                    )
                    &&& final(self)@ == without_active(old(self)@, call.flow.flow_id.spec_value())
                },
            },
    {
        match answer {
            Err(error) => Err(FlowControlError::CoreState(error)),
            Ok(termination) => {
                self.release(call.flow.flow_id);
                Ok(
                    LocalTermination {
                        flow: call.flow,
                        reason: call.reason,
                        termination,
                        frame: call.frame,
                    },
                )
            },
        }
    }
}

/// A flow that the core is to end from this side, with the frame that tells the peer.
#[derive(Debug)]
pub struct LocalTerminate {
    pub flow: EstablishedFlow,
    pub reason: FlowTerminateReason,
    pub frame: ControlFrame,
}

/// Of flow control that was set up for its settings, only a want of memory keeps a granted
/// outbound flow from being registered.
pub proof fn law_granted_flow_has_room(
    state: FlowControlView,
    flow_id: FlowId,
    room: Result<(), TryReserveError>,
)
    requires
        state.sound(),
        state.pending_outbound.contains_key(flow_id.spec_value()),
    ensures
        registration_refusal(
            without_pending(state, flow_id.spec_value()),
            flow_id,
            state.pending_outbound[flow_id.spec_value()].key,
            room,
        ) == (if room is Err {
            Some(RegistryError::AllocationFailed)
        } else {
            None
        }),
{
    let id = flow_id.spec_value();
    assert(FlowId { value: id } == flow_id);
    assert(state.pending_sound(id));
    lemma_without_pending_sound(state, id);
    lemma_active_total(state);
}

/// Of flow control that was set up for its settings, only a want of memory keeps an inbound
/// flow that the host granted from being registered.
pub proof fn law_admitted_flow_has_room(
    state: FlowControlView,
    key: DeliveryFlowKey,
    room: Result<(), TryReserveError>,
)
    requires
        state.sound(),
        state.pending_inbound is Some,
        key.direction == FlowDirection::Inbound,
    ensures
        registration_refusal(state, state.pending_inbound->0.flow_id, key, room) == (if room is Err {
            Some(RegistryError::AllocationFailed)
        } else {
            None
        }),
{
    lemma_active_total(state);
}

/// The peer's requests are taken in order, each name once. A body that is none, a name of
/// the wrong side and a name out of order leave everything as it was. A request under the
/// name that is due takes the name, whether it is refused at once or put before the host;
/// from there on the same request is out of order.
pub proof fn law_peer_requests_are_taken_in_order(
    before: FlowControlView,
    after: FlowControlView,
    body: Seq<u8>,
    storage: ByteStorage,
    step: Result<FlowControlStep, FlowControlError>,
    later: FlowControlView,
    last: FlowControlView,
    again: Result<FlowControlStep, FlowControlError>,
)
    requires
        before.peer_flow_ids.wf(),
        before.pending_inbound is None,
        frame_received(before, after, ControlFrameType::OpenFlow, body, storage, step),
        later.pending_inbound is None,
        later.peer_flow_ids.spec_side() == after.peer_flow_ids.spec_side(),
        later.peer_flow_ids.spec_next() >= after.peer_flow_ids.spec_next(),
        frame_received(later, last, ControlFrameType::OpenFlow, body, storage, again),
    ensures
        match OpenFlow::parse(body) {
            Err(error) => {
                &&& step == Err::<FlowControlStep, _>(FlowControlError::Body(error))
                &&& after == before
            },
            Ok(open) => {
                let cursor = before.peer_flow_ids;
                let due = open.flow_id.spec_side() == cursor.spec_side()
                    && open.flow_id.spec_sequence() == cursor.spec_next() && cursor.spec_next()
                    <= MAX_FLOW_SEQUENCE;
                let rejection = if open.max_message_bytes
                    > before.local_settings.max_incoming_message_bytes {
                    Some(FlowRejectReason::MessageLimit)
                } else if before.active_towards(FlowDirection::Inbound)
                    >= before.local_settings.max_active_incoming_flows {
                    Some(FlowRejectReason::ResourceLimit)
                } else {
                    None
                };
                let pending = PendingInboundFlow {
                    flow_id: open.flow_id,
                    mode: open.delivery_mode,
                    max_message_bytes: open.max_message_bytes,
                };
                if !due {
                    &&& cursor.refusal(open.flow_id) is Some
                    &&& step == Err::<FlowControlStep, _>(
                        FlowControlError::FlowId(cursor.refusal(open.flow_id)->0),
                    )
                    &&& after == before
                } else {
                    &&& after.peer_flow_ids.spec_next() == cursor.spec_next() + 1
                    &&& after.peer_flow_ids.spec_side() == cursor.spec_side()
                    &&& again matches Err(FlowControlError::FlowId(_))
                    &&& last == later
                    &&& match rejection {
                        Some(reason) => {
                            &&& after == after_peer_open(before, None)
                            &&& is_inbound_rejection(step, open.flow_id, reason, storage)
                        },
                        None => {
                            &&& after == after_peer_open(before, Some(pending))
                            &&& step matches Ok(
                                FlowControlStep::Progress(FlowControlProgress::InboundOpen(request)),
                            ) && request.pending() == pending
                        },
                    }
                }
            },
        },
{
}

/// The peer's grant establishes the flow that was asked for, once. The core is to establish
/// it on the terms of the request; once it did, and where there is memory, the flow is
/// registered as both sides know it and waits no longer, so that a second answer of the
/// peer, a grant or a refusal, is about an unknown flow and changes nothing.
pub proof fn law_grant_establishes_once(
    before: FlowControlView,
    asked: FlowControlView,
    after: FlowControlView,
    last: FlowControlView,
    flow_id: FlowId,
    reason: FlowRejectReason,
    storage: FlowStorage,
    granted: Result<FlowControlStep, FlowControlError>,
    established_step: Result<OutboundStep, FlowControlError>,
    again: Result<FlowControlStep, FlowControlError>,
)
    requires
        before.sound(),
        flow_id.wf(),
        before.pending_outbound.contains_key(flow_id.spec_value()),
        storage.active is Ok,
        frame_received(
            before,
            asked,
            ControlFrameType::FlowAccept,
            (FlowAccept { flow_id }).bytes(),
            storage.body,
            granted,
        ),
        outbound_answered(asked, after, flow_id, Ok(()), storage, established_step),
        frame_received(
            after,
            last,
            ControlFrameType::FlowAccept,
            (FlowAccept { flow_id }).bytes(),
            storage.body,
            again,
        ) || frame_received(
            after,
            last,
            ControlFrameType::FlowReject,
            (FlowReject { flow_id, reason }).bytes(),
            storage.body,
            again,
        ),
    ensures
        ({
            let id = flow_id.spec_value();
            let pending = before.pending_outbound[id];
            let flow = RegisteredFlow {
                key: pending.key,
                mode: pending.mode,
                max_message_bytes: pending.stable_max_message_bytes,
            };
            &&& granted == Ok::<_, FlowControlError>(
                FlowControlStep::Establish(
                    OutboundEstablish {
                        flow_id,
                        key: pending.key,
                        mode: pending.mode,
                        policy: pending.policy,
                        connection_limits: pending.connection_limits,
                    },
                ),
            )
            &&& established_step == Ok::<_, FlowControlError>(
                OutboundStep::Progress(
                    FlowControlProgress::OutboundEstablished(established(flow_id, flow)),
                ),
            )
            &&& after == with_active(without_pending(before, id), id, flow)
            &&& after.active.contains_key(id) && after.active[id] == flow
            &&& !after.pending_outbound.contains_key(id)
            &&& again == Err::<FlowControlStep, _>(FlowControlError::UnknownPendingFlow(flow_id))
            &&& last == after
        }),
{
    law_answer_finds_request(before, flow_id, reason);
    law_granted_flow_has_room(before, flow_id, storage.active);
}

/// A flow that one side asks for is put before the other side's host as it was asked for:
/// under the same wire name, in the same mode and with the same message limit, where the
/// two sides' cursors are in step and the other side has a place left. Afterwards the
/// cursors are in step again.
pub proof fn law_open_reaches_peer(
    opener: FlowControlView,
    peer: FlowControlView,
    request: OutboundOpenRequest,
    facts: OutboundOpenFacts,
    current_datagram_size: Option<usize>,
    storage: FlowStorage,
)
    requires
        outbound_open_error(opener, request, facts, current_datagram_size, storage) is None,
        opener.local_flow_ids.wf(),
        opener.local_flow_ids == peer.peer_flow_ids,
        opener.peer_settings == peer.local_settings,
        peer.active_towards(FlowDirection::Inbound)
            < peer.local_settings.max_active_incoming_flows,
    ensures
        ({
            let open = OpenFlow {
                flow_id: opener.local_flow_ids.next_id(),
                delivery_mode: request.mode,
                max_message_bytes: request.stable_max_message_bytes as u64,
            };
            let pending = PendingInboundFlow {
                flow_id: open.flow_id,
                mode: request.mode,
                max_message_bytes: request.stable_max_message_bytes as u64,
            };
            &&& open_verdict(peer, open.bytes()) == Ok::<_, FlowControlError>(
                OpenVerdict::Ask(pending),
            )
            &&& after_open(opener, request).local_flow_ids == after_peer_open(
                peer,
                Some(pending),
            ).peer_flow_ids
        }),
{
    let open = OpenFlow {
        flow_id: opener.local_flow_ids.next_id(),
        delivery_mode: request.mode,
        max_message_bytes: request.stable_max_message_bytes as u64,
    };
    assert(open.wf());
    crate::wire::law_open_flow_round_trip(open, Seq::empty());
}

/// The answer to a request finds the flow that was asked for: the grant leads to that flow
/// being established, and the refusal to that flow being given up for the reason given.
pub proof fn law_answer_finds_request(
    state: FlowControlView,
    flow_id: FlowId,
    reason: FlowRejectReason,
)
    requires
        state.sound(),
        flow_id.wf(),
        state.pending_outbound.contains_key(flow_id.spec_value()),
    ensures
        FlowAccept::parse((FlowAccept { flow_id }).bytes()) == Ok::<_, ControlBodyError>(
            (FlowAccept { flow_id }),
        ),
        FlowReject::parse((FlowReject { flow_id, reason }).bytes()) == Ok::<_, ControlBodyError>(
            (FlowReject { flow_id, reason }),
        ),
        answered_flow(state, flow_id) == Ok::<_, FlowControlError>(
            state.pending_outbound[flow_id.spec_value()],
        ),
        answered_flow(without_pending(state, flow_id.spec_value()), flow_id) == Err::<
            PendingOutboundFlow,
            _,
        >(FlowControlError::UnknownPendingFlow(flow_id)),
{
    crate::wire::law_flow_accept_round_trip(FlowAccept { flow_id }, Seq::empty());
    crate::wire::law_flow_reject_round_trip(FlowReject { flow_id, reason }, Seq::empty());
    assert(state.pending_sound(flow_id.spec_value()));
    assert(FlowId { value: flow_id.spec_value() } == flow_id);
}

/// A reliable flow ends normally with its stream, never by a frame; an unreliable flow ends
/// by a frame for any reason. A flow that ended is unknown afterwards.
pub proof fn law_ending_a_flow(
    state: FlowControlView,
    flow_id: FlowId,
    reason: FlowTerminateReason,
)
    requires
        state.active.contains_key(flow_id.spec_value()),
    ensures
        ending_flow(state, flow_id, reason) is Err <==> state.active[flow_id.spec_value()].mode
            == DeliveryMode::ReliableOrdered && reason == FlowTerminateReason::Normal,
        ending_flow(without_active(state, flow_id.spec_value()), flow_id, reason) == Err::<
            EstablishedFlow,
            _,
        >(FlowControlError::UnknownActiveFlow(flow_id)),
        forall|other: u64|
            other != flow_id.spec_value() && state.active.contains_key(other) ==> #[trigger]
            without_active(state, flow_id.spec_value()).active[other] == state.active[other],
{
}

/// A flow counts for its own direction, and for no other.
pub proof fn law_flows_count_for_their_direction(
    flows: Map<u64, RegisteredFlow>,
    direction: FlowDirection,
    id: u64,
)
    ensures
        ids_towards(flows, direction).contains(id) <==> flows.contains_key(id)
            && flows[id].key.direction == direction,
{
}

/// A flow is asked for exactly where the wish fits the connection, the core, the peer's
/// limits and, for a mode that is not reliable, one datagram: the largest message, behind the
/// longest envelope that the flow will need, is not longer than the datagrams of the moment.
/// What is refused for a size is told with the numbers.
pub proof fn law_flows_are_opened_within_the_limits(
    state: FlowControlView,
    request: OutboundOpenRequest,
    facts: OutboundOpenFacts,
    size: Option<usize>,
    storage: FlowStorage,
)
    requires
        state.local_flow_ids.wf(),
        ids_towards(state.active, FlowDirection::Outbound).len() + state.pending_outbound.len()
            <= usize::MAX,
    ensures
        ({
            let error = outbound_open_error(state, request, facts, size, storage);
            let max = request.stable_max_message_bytes;
            let peer = state.peer_settings;
            let in_use = ids_towards(state.active, FlowDirection::Outbound).len()
                + state.pending_outbound.len();
            let needed = crate::datagram::overhead(
                state.local_flow_ids.next_id(),
                request.mode,
                MAX_VARINT,
            ) + max;
            let carried = request.mode == DeliveryMode::ReliableOrdered || (size is Some && needed
                <= size->0);
            &&& error is None <==> {
                &&& request.key.connection == state.connection
                &&& request.key.direction == FlowDirection::Outbound
                &&& !facts.core_flow_exists
                &&& forall|id: u64| #[trigger]
                    state.pending_outbound.contains_key(id) ==> state.pending_outbound[id].key
                        != request.key
                &&& facts.policy_check is Ok
                &&& request.policy.max_message_bytes == max
                &&& 0 < max <= 0x3fff_ffff_ffff_ffff
                &&& max <= peer.max_incoming_message_bytes
                &&& in_use < peer.max_active_incoming_flows
                &&& state.local_flow_ids.spec_next() <= MAX_FLOW_SEQUENCE
                &&& carried
                &&& storage.pending is Ok
                &&& storage.body is Ok
            }
            &&& error is None && request.mode != DeliveryMode::ReliableOrdered ==> size is Some
                && needed <= size->0
            &&& error matches Some(OutboundOpenError::DatagramTooSmall { needed: told, available })
                ==> told == needed && size == Some(available) && needed > available
            &&& error matches Some(OutboundOpenError::PeerMessageLimit { requested, peer_limit })
                ==> requested == max && peer_limit == peer.max_incoming_message_bytes && requested
                > peer_limit
            &&& error matches Some(OutboundOpenError::PeerActiveFlowLimit { in_use: told, peer_limit })
                ==> told == in_use && peer_limit == peer.max_active_incoming_flows && told
                >= peer_limit
            &&& error == Some(OutboundOpenError::DatagramUnavailable) ==> size is None
                && request.mode != DeliveryMode::ReliableOrdered
        }),
{
    let flow_id = state.local_flow_ids.next_id();
    if state.local_flow_ids.spec_next() <= MAX_FLOW_SEQUENCE {
        crate::varint::lemma_announces(flow_id.spec_value() as nat);
    }
    crate::varint::lemma_announces(MAX_VARINT as nat);
    if !state.awaits(request.key) {
        assert forall|id: u64| #[trigger]
            state.pending_outbound.contains_key(id) implies state.pending_outbound[id].key
            != request.key by {}
    } else {
        let id = choose|id: u64| #[trigger]
            state.pending_outbound.contains_key(id) && state.pending_outbound[id].key
                == request.key;
        assert(state.pending_outbound.contains_key(id));
    }
}

/// To ask for a flow takes the next name of this side and has the request wait under it, on
/// the terms asked for. Nothing else changes.
pub proof fn law_opening_takes_the_next_name(state: FlowControlView, request: OutboundOpenRequest)
    requires
        state.local_flow_ids.wf(),
        state.local_flow_ids.spec_next() <= MAX_FLOW_SEQUENCE,
    ensures
        ({
            let after = after_open(state, request);
            let name = state.local_flow_ids.next_id().spec_value();
            &&& after.pending_outbound.dom() == state.pending_outbound.dom().insert(name)
            &&& forall|other: u64|
                other != name && state.pending_outbound.contains_key(other)
                    ==> #[trigger] after.pending_outbound[other] == state.pending_outbound[other]
            &&& after.pending_outbound[name].key == request.key
            &&& after.pending_outbound[name].mode == request.mode
            &&& after.pending_outbound[name].policy == request.policy
            &&& after.pending_outbound[name].connection_limits == request.connection_limits
            &&& after.pending_outbound[name].stable_max_message_bytes
                == request.stable_max_message_bytes
            &&& after.local_flow_ids.spec_next() == state.local_flow_ids.spec_next() + 1
            &&& after.local_flow_ids.spec_side() == state.local_flow_ids.spec_side()
            &&& after.peer_flow_ids == state.peer_flow_ids
            &&& after.pending_inbound == state.pending_inbound
            &&& after.active == state.active
            &&& after.connection == state.connection
            &&& after.local_side == state.local_side
            &&& after.local_settings == state.local_settings
            &&& after.peer_settings == state.peer_settings
            &&& after.capacity == state.capacity
        }),
{
    assert(after_open(state, request).pending_outbound.dom() =~= state.pending_outbound.dom().insert(
        state.local_flow_ids.next_id().spec_value(),
    ));
}

/// A request of the peer that the host grants on terms that fit goes on to the core exactly
/// where fewer inbound flows are established than this side announced, whatever outbound
/// flows there are. Where the limit is reached it is refused for want of room, which cannot
/// happen to a request that waits in a sound state; where the terms allow only smaller
/// messages it is refused for its messages. Terms that do not fit the connection void it.
pub proof fn law_grants_go_on_to_the_core(
    before: FlowControlView,
    after: FlowControlView,
    request: InboundOpenRequest,
    admission: InboundAdmission,
    policy_check: Result<(), DeliveryPolicyError>,
    body: ByteStorage,
    step: Result<InboundStep, InboundAdmissionError>,
)
    requires
        before.pending_inbound is Some,
        before.pending_inbound->0.flow_id == request.spec_flow_id(),
        before.pending_inbound->0.mode == request.spec_mode(),
        before.pending_inbound->0.max_message_bytes == request.spec_max_message_bytes(),
        body is Ok,
        admission_received(before, after, request, admission, policy_check, body, step),
    ensures
        ({
            let fits = admission.key.connection == before.connection && admission.key.direction
                == FlowDirection::Inbound && policy_check is Ok;
            let sized = request.spec_max_message_bytes() <= admission.policy.max_message_bytes;
            let room = ids_towards(before.active, FlowDirection::Inbound).len()
                < before.local_settings.max_active_incoming_flows;
            let establishes = step is Ok && step->Ok_0 is Establish;
            &&& establishes <==> fits && sized && room
            &&& establishes ==> {
                &&& step->Ok_0->Establish_0.spec_request() == request
                &&& step->Ok_0->Establish_0.spec_admission() == admission
                &&& after == before
            }
            &&& fits && !sized ==> is_resolved_rejection(
                resolution_of(step)->0,
                request.spec_flow_id(),
                FlowRejectReason::MessageLimit,
                body,
            ) && resolution_of(step) is Some
            &&& fits && sized && !room ==> is_resolved_rejection(
                resolution_of(step)->0,
                request.spec_flow_id(),
                FlowRejectReason::ResourceLimit,
                body,
            ) && resolution_of(step) is Some
            &&& before.sound() ==> room
            &&& admission.key.connection != before.connection ==> step == Err::<InboundStep, _>(
                InboundAdmissionError::WrongConnection {
                    expected: before.connection,
                    actual: admission.key.connection,
                },
            )
            &&& admission.key.connection == before.connection && admission.key.direction
                != FlowDirection::Inbound ==> step == Err::<InboundStep, _>(
                InboundAdmissionError::WrongDirection(admission.key.direction),
            )
            &&& admission.key.connection == before.connection && admission.key.direction
                == FlowDirection::Inbound && policy_check is Err ==> step == Err::<InboundStep, _>(
                InboundAdmissionError::InvalidPolicy(policy_check->Err_0),
            )
            &&& !establishes ==> after.pending_inbound is None && after.active == before.active
                && after.pending_outbound == before.pending_outbound && after.peer_flow_ids
                == before.peer_flow_ids && after.local_flow_ids == before.local_flow_ids
        }),
{
}

/// A flow that the core established for the peer is registered under the name that the peer
/// asked with, on the key that the host gave, in the mode and with the message limit that the
/// peer asked for, and the peer is told that it was granted. The request waits no longer.
/// Where the core has no place left, the peer is refused for want of room.
pub proof fn law_admitted_flows_are_registered(
    before: FlowControlView,
    after: FlowControlView,
    establish: InboundEstablish,
    answer: Result<(), FlowEstablishmentError>,
    storage: FlowStorage,
    step: Result<InboundStep, InboundAdmissionError>,
)
    requires
        before.sound(),
        before.pending_inbound is Some,
        before.pending_inbound->0.flow_id == establish.spec_request().spec_flow_id(),
        before.pending_inbound->0.mode == establish.spec_request().spec_mode(),
        before.pending_inbound->0.max_message_bytes
            == establish.spec_request().spec_max_message_bytes(),
        establish.spec_admission().key.direction == FlowDirection::Inbound,
        establish.spec_request().spec_max_message_bytes() <= usize::MAX,
        storage.active is Ok,
        inbound_answered(before, after, establish, answer, storage, step),
    ensures
        ({
            let request = establish.spec_request();
            let id = request.spec_flow_id().spec_value();
            let key = establish.spec_admission().key;
            &&& answer is Ok ==> {
                &&& after.active.dom() == before.active.dom().insert(id)
                &&& after.active[id].key == key
                &&& after.active[id].mode == request.spec_mode()
                &&& after.active[id].max_message_bytes == request.spec_max_message_bytes()
                &&& after.pending_inbound is None
                &&& after.pending_outbound == before.pending_outbound
                &&& step matches Ok(InboundStep::Resolved(InboundResolution::Accepted { flow, frame }))
                    && flow.flow_id == request.spec_flow_id() && flow.key == key && flow.mode
                    == request.spec_mode() && flow.max_message_bytes
                    == request.spec_max_message_bytes() && frame.frame_type
                    == ControlFrameType::FlowAccept && frame.body@ == (FlowAccept {
                    flow_id: request.spec_flow_id(),
                }).bytes()
            }
            &&& answer == Err::<(), _>(FlowEstablishmentError::ActiveFlowLimitExceeded) ==> {
                &&& after.active == before.active
                &&& after.pending_inbound is None
                &&& resolution_of(step) is Some
                &&& is_resolved_rejection(
                    resolution_of(step)->0,
                    request.spec_flow_id(),
                    FlowRejectReason::ResourceLimit,
                    storage.body,
                )
            }
        }),
{
    law_admitted_flow_has_room(before, establish.spec_admission().key, storage.active);
    let id = establish.spec_request().spec_flow_id().spec_value();
    if answer is Ok {
        assert(after.active.dom() =~= before.active.dom().insert(id));
    }
}

/// A refusal that was resolved names the flow and the reason, to the host and on the wire.
pub proof fn law_refusals_name_flow_and_reason(
    resolution: Result<InboundResolution, InboundAdmissionError>,
    step: Result<FlowControlStep, FlowControlError>,
    flow_id: FlowId,
    reason: FlowRejectReason,
    body: ByteStorage,
)
    requires
        body is Ok,
        is_resolved_rejection(resolution, flow_id, reason, body),
        is_inbound_rejection(step, flow_id, reason, body),
    ensures
        resolution matches Ok(InboundResolution::Rejected { flow_id: id, reason: why, frame })
            && id == flow_id && why == reason && frame.frame_type == ControlFrameType::FlowReject
            && frame.body@ == (FlowReject { flow_id, reason }).bytes(),
        step matches Ok(
            FlowControlStep::Progress(
                FlowControlProgress::InboundRejected { flow_id: id, reason: why, frame },
            ),
        ) && id == flow_id && why == reason && frame.frame_type == ControlFrameType::FlowReject
            && frame.body@ == (FlowReject { flow_id, reason }).bytes(),
{
}

/// A refusal of the peer gives up the flow that was asked for under that name, for the reason
/// given, and no other flow.
pub proof fn law_refused_flows_are_given_up(
    before: FlowControlView,
    after: FlowControlView,
    flow_id: FlowId,
    reason: FlowRejectReason,
    storage: ByteStorage,
    step: Result<FlowControlStep, FlowControlError>,
)
    requires
        before.sound(),
        flow_id.wf(),
        before.pending_outbound.contains_key(flow_id.spec_value()),
        frame_received(
            before,
            after,
            ControlFrameType::FlowReject,
            (FlowReject { flow_id, reason }).bytes(),
            storage,
            step,
        ),
    ensures
        step matches Ok(
            FlowControlStep::Progress(
                FlowControlProgress::OutboundRejected { flow_id: id, key, reason: why },
            ),
        ) && id == flow_id && why == reason && key
            == before.pending_outbound[flow_id.spec_value()].key,
        after.pending_outbound == before.pending_outbound.remove(flow_id.spec_value()),
        after.active == before.active,
        after.pending_inbound == before.pending_inbound,
        after.local_flow_ids == before.local_flow_ids,
        after.peer_flow_ids == before.peer_flow_ids,
{
    law_answer_finds_request(before, flow_id, reason);
}

/// The end of an established flow has the core end that very flow for the reason given; an
/// unknown flow, and a reliable flow that would end normally, are not ended.
pub proof fn law_ended_flows_are_the_named_ones(
    before: FlowControlView,
    after: FlowControlView,
    flow_id: FlowId,
    reason: FlowTerminateReason,
    storage: ByteStorage,
    step: Result<FlowControlStep, FlowControlError>,
)
    requires
        flow_id.wf(),
        frame_received(
            before,
            after,
            ControlFrameType::FlowTerminate,
            (FlowTerminate { flow_id, reason }).bytes(),
            storage,
            step,
        ),
    ensures
        ({
            let id = flow_id.spec_value();
            let known = before.active.contains_key(id);
            let flow = before.active[id];
            let by_stream = known && flow.mode == DeliveryMode::ReliableOrdered && reason
                == FlowTerminateReason::Normal;
            &&& after == before
            &&& known && !by_stream ==> {
                step matches Ok(FlowControlStep::Terminate(call)) && call.reason == reason
                    && call.flow.flow_id == flow_id && call.flow.key == flow.key && call.flow.mode
                    == flow.mode && call.flow.max_message_bytes == flow.max_message_bytes
            }
            &&& !known ==> step == Err::<FlowControlStep, _>(
                FlowControlError::UnknownActiveFlow(flow_id),
            )
            &&& by_stream ==> step == Err::<FlowControlStep, _>(
                FlowControlError::ReliableNormalUsesFin(flow_id),
            )
        }),
{
    crate::wire::law_flow_terminate_round_trip(FlowTerminate { flow_id, reason }, Seq::empty());
}

/// A granted flow for which the core has no place left is given up, and the peer is told that
/// it ended for want of room.
pub proof fn law_grants_without_room_are_given_up(
    before: FlowControlView,
    after: FlowControlView,
    flow_id: FlowId,
    storage: FlowStorage,
    step: Result<OutboundStep, FlowControlError>,
)
    requires
        before.pending_outbound.contains_key(flow_id.spec_value()),
        storage.body is Ok,
        outbound_answered(
            before,
            after,
            flow_id,
            Err(FlowEstablishmentError::ActiveFlowLimitExceeded),
            storage,
            step,
        ),
    ensures
        step matches Ok(
            OutboundStep::Progress(
                FlowControlProgress::OutboundFailedAfterAccept {
                    flow_id: id,
                    key,
                    reason,
                    termination,
                    frame,
                },
            ),
        ) && id == flow_id && key == before.pending_outbound[flow_id.spec_value()].key && reason
            == FlowTerminateReason::ResourceFailure && termination is None && frame.frame_type
            == ControlFrameType::FlowTerminate && frame.body@ == (FlowTerminate {
            flow_id,
            reason: FlowTerminateReason::ResourceFailure,
        }).bytes(),
        after.pending_outbound == before.pending_outbound.remove(flow_id.spec_value()),
        after.active == before.active,
{
}

/// Each change of a table leaves the other tables, the names and the settings alone.
pub proof fn law_tables_change_alone(
    state: FlowControlView,
    id: u64,
    flow: RegisteredFlow,
    pending: Option<PendingInboundFlow>,
)
    requires
        state.peer_flow_ids.spec_next() <= MAX_FLOW_SEQUENCE,
    ensures
        ({
            let ended = without_active(state, id);
            let begun = with_active(state, id, flow);
            let answered = without_pending(state, id);
            let free = decided(state);
            let asked = after_peer_open(state, pending);
            &&& ended == (FlowControlView { active: state.active.remove(id), ..state })
            &&& begun == (FlowControlView { active: state.active.insert(id, flow), ..state })
            &&& answered == (FlowControlView {
                pending_outbound: state.pending_outbound.remove(id),
                ..state
            })
            &&& free == (FlowControlView { pending_inbound: None, ..state })
            &&& asked.pending_inbound == pending
            &&& asked.peer_flow_ids.spec_next() == state.peer_flow_ids.spec_next() + 1
            &&& asked.active == state.active
            &&& asked.pending_outbound == state.pending_outbound
            &&& asked.local_flow_ids == state.local_flow_ids
        }),
{
}

/// In a sound state neither side holds more flows than the other announced, and a request of
/// the peer waits only where a place is left for it.
pub proof fn law_limits_are_kept(state: FlowControlView)
    requires
        state.sound(),
    ensures
        ids_towards(state.active, FlowDirection::Outbound).len() + state.pending_outbound.len()
            <= state.peer_settings.max_active_incoming_flows,
        ids_towards(state.active, FlowDirection::Inbound).len()
            <= state.local_settings.max_active_incoming_flows,
        state.pending_inbound matches Some(pending) ==> {
            &&& ids_towards(state.active, FlowDirection::Inbound).len()
                < state.local_settings.max_active_incoming_flows
            &&& 0 < pending.max_message_bytes <= state.local_settings.max_incoming_message_bytes
        },
        forall|id: u64|
            state.pending_outbound.contains_key(id) ==> !#[trigger] state.active.contains_key(id),
        forall|id: u64| #[trigger]
            state.active.contains_key(id) ==> state.active[id].key.connection == state.connection,
{
    assert forall|id: u64| state.pending_outbound.contains_key(id) implies !#[trigger] state.active.contains_key(
        id,
    ) by {
        assert(state.pending_sound(id));
    }
    assert forall|id: u64| #[trigger]
        state.active.contains_key(id) implies state.active[id].key.connection == state.connection by {
        assert(state.active_sound(id));
    }
}

/// Flow control can be set up exactly where the two sides' flow limits together are a number
/// that the machine counts to, and not zero.
pub proof fn law_capacity_is_the_sum(local: Settings, peer: Settings)
    ensures
        config_error(local, peer) is None <==> 0 < local.max_active_incoming_flows
            + peer.max_active_incoming_flows <= usize::MAX,
        config_error(local, peer) == Some(FlowControlConfigError::ActiveRegistryCapacityOverflow)
            <==> local.max_active_incoming_flows + peer.max_active_incoming_flows > u64::MAX,
{
}

/// Only a full registry and refused memory are a want of room.
pub proof fn law_want_of_room(error: RegistryError)
    ensures
        resource_shortage(error) <==> error == RegistryError::CapacityExceeded || error
            == RegistryError::AllocationFailed,
        !resource_shortage(RegistryError::DirectionMismatch),
        !resource_shortage(RegistryError::DuplicateFlowId),
{
}

/// A grant, and the core's answer to it, are for the request that waits: any other changes
/// nothing and is told so. While a request waits no other is taken up, and a frame that is not
/// about flows never is.
pub proof fn law_decisions_are_for_the_waiting_request(
    before: FlowControlView,
    after: FlowControlView,
    request: InboundOpenRequest,
    admission: InboundAdmission,
    policy_check: Result<(), DeliveryPolicyError>,
    establish: InboundEstablish,
    answer: Result<(), FlowEstablishmentError>,
    storage: FlowStorage,
    step: Result<InboundStep, InboundAdmissionError>,
    frame_type: ControlFrameType,
    body: Seq<u8>,
    received: Result<FlowControlStep, FlowControlError>,
)
    ensures
        before.pending_inbound != Some(request.pending()) && admission_received(
            before,
            after,
            request,
            admission,
            policy_check,
            storage.body,
            step,
        ) ==> after == before && step == Err::<InboundStep, _>(
            InboundAdmissionError::RequestNotPending(request.spec_flow_id()),
        ),
        before.pending_inbound != Some(establish.spec_request().pending()) && inbound_answered(
            before,
            after,
            establish,
            answer,
            storage,
            step,
        ) ==> after == before && step == Err::<InboundStep, _>(
            InboundAdmissionError::RequestNotPending(establish.spec_request().spec_flow_id()),
        ),
        before.pending_inbound is Some && frame_received(
            before,
            after,
            ControlFrameType::OpenFlow,
            body,
            storage.body,
            received,
        ) ==> after == before && received == Err::<FlowControlStep, _>(
            FlowControlError::InboundDecisionPending(before.pending_inbound->0.flow_id),
        ),
        frame_type != ControlFrameType::OpenFlow && frame_type != ControlFrameType::FlowAccept
            && frame_type != ControlFrameType::FlowReject && frame_type
            != ControlFrameType::FlowTerminate && frame_received(
            before,
            after,
            frame_type,
            body,
            storage.body,
            received,
        ) ==> after == before && received == Err::<FlowControlStep, _>(
            FlowControlError::UnexpectedFrame(frame_type),
        ),
{
}

/// In a sound state every established flow has a name that was taken on its own side: the
/// flows that this side named run outwards and the peer's run inwards. What was asked for is
/// this side's own.
pub proof fn law_names_tell_the_direction(state: FlowControlView, flow_id: FlowId)
    requires
        state.sound(),
    ensures
        ({
            let number = flow_id.spec_value();
            let own = flow_id.spec_side() == state.local_side;
            let next = if own {
                state.local_flow_ids.spec_next()
            } else {
                state.peer_flow_ids.spec_next()
            };
            &&& state.active.contains_key(number) ==> flow_id.spec_sequence() < next && (
            state.active[number].key.direction == FlowDirection::Outbound <==> own)
            &&& state.pending_outbound.contains_key(number) ==> own && flow_id.spec_sequence()
                < next && state.pending_outbound[number].key.direction == FlowDirection::Outbound
                && state.pending_outbound[number].key.connection == state.connection
        }),
{
}

/// The core's answer to a granted outbound flow. A flow that was not asked for changes
/// nothing. Otherwise it waits no longer: it is registered on the terms of the request, or the
/// core is asked to end it again where it cannot be registered, or the core's refusal is told.
pub proof fn law_answers_settle_the_request(
    before: FlowControlView,
    after: FlowControlView,
    flow_id: FlowId,
    answer: Result<(), FlowEstablishmentError>,
    storage: FlowStorage,
    step: Result<OutboundStep, FlowControlError>,
)
    requires
        outbound_answered(before, after, flow_id, answer, storage, step),
    ensures
        ({
            let number = flow_id.spec_value();
            let known = before.pending_outbound.contains_key(number);
            let pending = before.pending_outbound[number];
            &&& !known ==> after == before && step == Err::<OutboundStep, _>(
                FlowControlError::UnknownPendingFlow(flow_id),
            )
            &&& known ==> after.pending_outbound == before.pending_outbound.remove(number)
                && after.pending_inbound == before.pending_inbound
            &&& known && answer is Ok ==> step is Ok
            &&& known && answer is Ok && step->Ok_0 is RollBack ==> {
                &&& after.active == before.active
                &&& step->Ok_0->RollBack_0.flow_id == flow_id
                &&& step->Ok_0->RollBack_0.key == pending.key
            }
            &&& known && answer is Ok && step->Ok_0 is Progress ==> {
                &&& after.active.dom() == before.active.dom().insert(number)
                &&& after.active[number].key == pending.key
                &&& after.active[number].mode == pending.mode
                &&& after.active[number].max_message_bytes == pending.stable_max_message_bytes
                &&& step->Ok_0->Progress_0 matches FlowControlProgress::OutboundEstablished(flow)
                    && flow.flow_id == flow_id && flow.key == pending.key && flow.mode
                    == pending.mode && flow.max_message_bytes == pending.stable_max_message_bytes
            }
            &&& known ==> {
                answer matches Err(error) ==> {
                    &&& after.active == before.active
                    &&& error != FlowEstablishmentError::ActiveFlowLimitExceeded ==> step == Err::<
                        OutboundStep,
                        _,
                    >(FlowControlError::LocalEstablishment(error))
                }
            }
        }),
{
}

/// The core's answer to a flow that the host granted. Where it cannot be registered the core
/// is asked to end it again, and the request waits until it has. A refusal of the core, but for
/// want of room, is told, and the request is dropped.
pub proof fn law_admissions_are_settled(
    before: FlowControlView,
    after: FlowControlView,
    establish: InboundEstablish,
    answer: Result<(), FlowEstablishmentError>,
    storage: FlowStorage,
    step: Result<InboundStep, InboundAdmissionError>,
)
    requires
        before.pending_inbound == Some(establish.spec_request().pending()),
        inbound_answered(before, after, establish, answer, storage, step),
    ensures
        ({
            let flow_id = establish.spec_request().spec_flow_id();
            let key = establish.spec_admission().key;
            let refusal = registration_refusal(before, flow_id, key, storage.active);
            &&& answer is Ok && refusal is Some ==> {
                &&& after == before
                &&& step matches Ok(InboundStep::RollBack(rollback)) && rollback.spec_request()
                    == establish.spec_request() && rollback.spec_key() == key
                    && rollback.spec_error() == refusal->0
            }
            &&& answer is Ok && refusal is None ==> after.pending_inbound is None
                && after.active.contains_key(flow_id.spec_value())
            &&& answer matches Err(error) ==> {
                &&& after.pending_inbound is None
                &&& after.active == before.active
                &&& error != FlowEstablishmentError::ActiveFlowLimitExceeded ==> step == Err::<
                    InboundStep,
                    _,
                >(InboundAdmissionError::LocalEstablishment(error))
            }
        }),
{
}

/// Where there is no memory for an answer to the peer, that is told, and the request waits no
/// longer.
pub proof fn law_want_of_memory_is_told(
    before: FlowControlView,
    after: FlowControlView,
    request: InboundOpenRequest,
    admission: InboundAdmission,
    error: TryReserveError,
    step: Result<InboundStep, InboundAdmissionError>,
    resolution: Result<InboundResolution, InboundAdmissionError>,
    flow_id: FlowId,
    reason: FlowRejectReason,
)
    requires
        before.pending_inbound == Some(request.pending()),
        admission.key.connection == before.connection,
        admission.key.direction == FlowDirection::Inbound,
        admission_received(before, after, request, admission, Ok(()), Err(error), step),
        is_resolved_rejection(resolution, flow_id, reason, Err(error)),
    ensures
        after.pending_inbound is None,
        after.active == before.active,
        step == Err::<InboundStep, _>(InboundAdmissionError::Allocation(error)),
        resolution == Err::<InboundResolution, _>(InboundAdmissionError::Allocation(error)),
{
}

/// Flow control starts on its own connection and side, with both sides' settings, no name
/// taken and no flow in any table.
pub proof fn law_flow_control_starts_empty(
    control: FlowControl,
    connection: ConnectionHandle,
    local_side: WireSide,
    local: Settings,
    peer: Settings,
    flow_id: FlowId,
)
    requires
        control.is_new(connection, local_side, local, peer),
    ensures
        control@.connection == connection,
        control@.local_side == local_side,
        control@.local_settings == local,
        control@.peer_settings == peer,
        control@.local_flow_ids.spec_next() == 0,
        control@.peer_flow_ids.spec_next() == 0,
        !control@.pending_outbound.contains_key(flow_id.spec_value()),
        !control@.active.contains_key(flow_id.spec_value()),
        control@.pending_inbound is None,
        control@.capacity == local.max_active_incoming_flows + peer.max_active_incoming_flows,
{
}

} // verus!
