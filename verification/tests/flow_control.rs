//! Flow control against a small delivery core.

use runen_net_quic::control::{ControlFrame, ControlFrameType, SemanticRole, Settings};
use runen_net_quic::datagram::{receive_datagram, DatagramReceiveOutcome, DatagramReceiveStep};
use runen_net_quic::delivery::{
    ConnectionHandle, CustodyCommitError, DeliveryFlowHandle, DeliveryFlowKey, DeliveryMode,
    DeliveryOperationError, DeliveryPolicyError, DeliveryScopeLimits, FlowDirection,
    FlowEstablishmentError, FlowResourcePolicy, FlowTermination, FlowTerminationReason,
    OutboundPressureBehavior, OutboundTransfer, ReceiveOutcome, ReceiverPressureBehavior,
    SubmissionOutcome,
};
use runen_net_quic::flow_control::{
    FlowControl, FlowControlConfigError, FlowControlError, FlowControlProgress, FlowControlStep,
    InboundAdmission, InboundAdmissionError, InboundOpenRequest, InboundResolution, InboundStep,
    LocalTermination, OutboundOpenError, OutboundOpenFacts, OutboundOpenRequest, OutboundStep,
    PreparedOutboundOpen,
};
use runen_net_quic::registry::{AcceptedFlowRegistry, RegisteredFlow, RegistryError};
use runen_net_quic::storage::reserve_bytes;
use runen_net_quic::varint::encode_varint;
use runen_net_quic::wire::{
    ControlBodyError, EncodedControlBody, FlowAccept, FlowId, FlowIdCursorError, FlowReject,
    FlowRejectReason, FlowTerminate, FlowTerminateReason, OpenFlow, WireSide,
};

/// A small delivery core: it counts what it holds and keeps what it is given.
#[derive(Debug)]
struct HeldFlow {
    key: DeliveryFlowKey,
    mode: DeliveryMode,
    policy: FlowResourcePolicy,
    next_index: u64,
    outbound: Vec<(u64, Vec<u8>)>,
    inbound: Vec<(u64, Vec<u8>)>,
    newest: Option<u64>,
}

#[derive(Debug)]
struct DeliveryEndpoint {
    limits: DeliveryScopeLimits,
    flows: Vec<HeldFlow>,
    inbound_pressure_drops: usize,
    stale_drops: usize,
}

#[allow(dead_code)]
impl DeliveryEndpoint {
    fn new(limits: DeliveryScopeLimits) -> Self {
        DeliveryEndpoint { limits, flows: Vec::new(), inbound_pressure_drops: 0, stale_drops: 0 }
    }

    fn establish_flow(
        &mut self,
        key: DeliveryFlowKey,
        mode: DeliveryMode,
        policy: FlowResourcePolicy,
        connection_limits: DeliveryScopeLimits,
    ) -> Result<(), FlowEstablishmentError> {
        let on_connection = self.flows.iter().filter(|f| f.key.connection == key.connection).count();
        if self.flows.len() >= self.limits.max_active_flows
            || on_connection >= connection_limits.max_active_flows
        {
            return Err(FlowEstablishmentError::ActiveFlowLimitExceeded);
        }
        if self.flows.iter().any(|f| f.key == key) {
            return Err(FlowEstablishmentError::Other(1));
        }
        self.flows.push(HeldFlow {
            key,
            mode,
            policy,
            next_index: 0,
            outbound: Vec::new(),
            inbound: Vec::new(),
            newest: None,
        });
        Ok(())
    }

    fn terminate_flow(
        &mut self,
        key: DeliveryFlowKey,
        reason: FlowTerminationReason,
    ) -> Result<FlowTermination, DeliveryOperationError> {
        let index = self
            .flows
            .iter()
            .position(|f| f.key == key)
            .ok_or(DeliveryOperationError::UnknownFlow)?;
        let flow = self.flows.remove(index);
        let pending_messages = flow.outbound.len() + flow.inbound.len();
        Ok(FlowTermination {
            key,
            reason,
            pending_messages,
            reliable_obligation_failed: flow.mode == DeliveryMode::ReliableOrdered
                && !flow.outbound.is_empty(),
        })
    }

    fn flow_contract(&self, key: DeliveryFlowKey) -> Option<(DeliveryMode, FlowResourcePolicy)> {
        self.flows.iter().find(|f| f.key == key).map(|f| (f.mode, f.policy))
    }

    fn active_flows(&self) -> usize {
        self.flows.len()
    }

    fn pending_messages(&self) -> usize {
        self.flows.iter().map(|f| f.outbound.len() + f.inbound.len()).sum()
    }

    fn flow(&mut self, key: DeliveryFlowKey) -> Result<&mut HeldFlow, DeliveryOperationError> {
        self.flows.iter_mut().find(|f| f.key == key).ok_or(DeliveryOperationError::UnknownFlow)
    }

    fn next_outbound_accepted_index(
        &mut self,
        key: DeliveryFlowKey,
    ) -> Result<Option<u64>, DeliveryOperationError> {
        self.flow(key).map(|f| Some(f.next_index))
    }

    fn submit(
        &mut self,
        key: DeliveryFlowKey,
        payload: Vec<u8>,
    ) -> Result<SubmissionOutcome, DeliveryOperationError> {
        let flow = self.flow(key)?;
        if payload.len() > flow.policy.max_message_bytes {
            return Ok(SubmissionOutcome::RejectedTooLarge);
        }
        let mut local_pressure_drops = 0;
        while flow.outbound.len() >= flow.policy.max_pending_messages {
            match flow.policy.outbound_pressure {
                OutboundPressureBehavior::RejectNew => {
                    return Ok(SubmissionOutcome::RejectedPressure);
                }
                OutboundPressureBehavior::EvictOldestUnreliable => {
                    flow.outbound.remove(0);
                    local_pressure_drops += 1;
                }
            }
        }
        let accepted_index = flow.next_index;
        flow.next_index += 1;
        flow.outbound.push((accepted_index, payload));
        Ok(SubmissionOutcome::Accepted { accepted_index, local_pressure_drops })
    }

    fn peek_outbound(
        &mut self,
        key: DeliveryFlowKey,
    ) -> Result<Option<(OutboundTransfer, Vec<u8>)>, DeliveryOperationError> {
        let flow = self.flow(key)?;
        let mode = flow.mode;
        Ok(flow.outbound.first().map(|(accepted_index, payload)| {
            (
                OutboundTransfer {
                    mode,
                    accepted_index: *accepted_index,
                    payload_len: payload.len(),
                },
                payload.clone(),
            )
        }))
    }

    fn commit_outbound_custody(
        &mut self,
        key: DeliveryFlowKey,
        accepted_index: u64,
    ) -> Result<(), CustodyCommitError> {
        let flow = self.flow(key).map_err(|_| CustodyCommitError { code: 1 })?;
        if flow.outbound.first().map(|(index, _)| *index) != Some(accepted_index) {
            return Err(CustodyCommitError { code: 2 });
        }
        flow.outbound.remove(0);
        Ok(())
    }

    fn receive_transport_payload(
        &mut self,
        key: DeliveryFlowKey,
        accepted_index: u64,
        payload: Vec<u8>,
    ) -> Result<ReceiveOutcome, DeliveryOperationError> {
        let flow = self.flow(key)?;
        if flow.mode == DeliveryMode::UnreliableSequenced {
            if flow.newest.map_or(false, |newest| accepted_index <= newest) {
                self.stale_drops += 1;
                return Ok(ReceiveOutcome::StaleSequenced);
            }
            flow.newest = Some(accepted_index);
        }
        if flow.inbound.len() >= flow.policy.max_pending_messages {
            self.inbound_pressure_drops += 1;
            return Ok(ReceiveOutcome::DroppedByPressure { local_pressure_drops: 1 });
        }
        flow.inbound.push((accepted_index, payload));
        Ok(ReceiveOutcome::Buffered { local_pressure_drops: 0 })
    }

    fn poll_exposure(&mut self, key: DeliveryFlowKey) -> Option<(u64, Vec<u8>)> {
        let flow = self.flow(key).ok()?;
        if flow.inbound.is_empty() {
            None
        } else {
            Some(flow.inbound.remove(0))
        }
    }
}

/// A policy fits a mode if its receiver pressure does.
fn judge(policy: FlowResourcePolicy, mode: DeliveryMode) -> Result<(), DeliveryPolicyError> {
    let reliable = policy.receiver_pressure == ReceiverPressureBehavior::TerminateReliable;
    if reliable == (mode == DeliveryMode::ReliableOrdered) {
        Ok(())
    } else {
        Err(DeliveryPolicyError { code: 1 })
    }
}

trait Driven {
    fn prepare_with(
        &mut self,
        endpoint: &DeliveryEndpoint,
        request: OutboundOpenRequest,
        current_datagram_size: Option<usize>,
    ) -> Result<PreparedOutboundOpen, OutboundOpenError>;

    fn receive_with(
        &mut self,
        endpoint: &mut DeliveryEndpoint,
        frame: ControlFrame,
    ) -> Result<FlowControlProgress, FlowControlError>;

    fn accept_with(
        &mut self,
        endpoint: &mut DeliveryEndpoint,
        request: InboundOpenRequest,
        admission: InboundAdmission,
    ) -> Result<InboundResolution, InboundAdmissionError>;

    fn terminate_with(
        &mut self,
        endpoint: &mut DeliveryEndpoint,
        flow_id: FlowId,
        reason: FlowTerminateReason,
    ) -> Result<LocalTermination, FlowControlError>;
}

impl Driven for FlowControl {
    fn prepare_with(
        &mut self,
        endpoint: &DeliveryEndpoint,
        request: OutboundOpenRequest,
        current_datagram_size: Option<usize>,
    ) -> Result<PreparedOutboundOpen, OutboundOpenError> {
        let facts = OutboundOpenFacts {
            core_flow_exists: endpoint.flow_contract(request.key).is_some(),
            policy_check: judge(request.policy, request.mode),
        };
        let storage = self.reserve();
        self.prepare_outbound_open(request, facts, current_datagram_size, storage)
    }

    fn receive_with(
        &mut self,
        endpoint: &mut DeliveryEndpoint,
        frame: ControlFrame,
    ) -> Result<FlowControlProgress, FlowControlError> {
        let storage = self.reserve();
        match self.receive(frame, storage)? {
            FlowControlStep::Progress(progress) => Ok(progress),
            FlowControlStep::Establish(call) => {
                let answer = endpoint.establish_flow(
                    call.key,
                    call.mode,
                    call.policy,
                    call.connection_limits,
                );
                let storage = self.reserve();
                match self.outbound_established(call.flow_id, answer, storage)? {
                    OutboundStep::Progress(progress) => Ok(progress),
                    OutboundStep::RollBack(rollback) => {
                        let answer =
                            endpoint.terminate_flow(rollback.key, FlowTerminationReason::Requested);
                        self.outbound_rolled_back(rollback, answer, reserve_bytes(24))
                    }
                }
            }
            FlowControlStep::Terminate(call) => {
                let answer =
                    endpoint.terminate_flow(call.flow.key, FlowTerminationReason::Requested);
                self.remote_terminated(call, answer)
            }
        }
    }

    fn accept_with(
        &mut self,
        endpoint: &mut DeliveryEndpoint,
        request: InboundOpenRequest,
        admission: InboundAdmission,
    ) -> Result<InboundResolution, InboundAdmissionError> {
        let check = judge(admission.policy, request.mode());
        let establish = match self.accept_inbound(request, admission, check, reserve_bytes(24))? {
            InboundStep::Resolved(resolution) => return Ok(resolution),
            InboundStep::Establish(establish) => establish,
            InboundStep::RollBack(_) => panic!("nothing was established yet"),
        };
        let terms = establish.admission();
        let answer = endpoint.establish_flow(
            terms.key,
            establish.mode(),
            terms.policy,
            terms.connection_limits,
        );
        let storage = self.reserve();
        match self.inbound_established(establish, answer, storage)? {
            InboundStep::Resolved(resolution) => Ok(resolution),
            InboundStep::RollBack(rollback) => {
                let answer =
                    endpoint.terminate_flow(rollback.key(), FlowTerminationReason::Requested);
                self.inbound_rolled_back(rollback, answer, reserve_bytes(24))
            }
            InboundStep::Establish(_) => panic!("the flow was established once"),
        }
    }

    fn terminate_with(
        &mut self,
        endpoint: &mut DeliveryEndpoint,
        flow_id: FlowId,
        reason: FlowTerminateReason,
    ) -> Result<LocalTermination, FlowControlError> {
        let call = self.terminate_local(flow_id, reason, reserve_bytes(24))?;
        let answer = endpoint.terminate_flow(call.flow.key, FlowTerminationReason::Requested);
        self.local_terminated(call, answer)
    }
}

fn settings(
    role: SemanticRole,
    max_active_incoming_flows: u64,
    max_incoming_message_bytes: u64,
) -> Settings {
    Settings {
        semantic_role: role,
        max_control_frame_bytes: 256,
        max_negotiation_frame_bytes: 128,
        max_active_incoming_flows,
        max_incoming_message_bytes,
    }
}

fn control(
    connection: ConnectionHandle,
    side: WireSide,
    local_active: u64,
    local_message: u64,
    peer_active: u64,
    peer_message: u64,
) -> FlowControl {
    let (local_role, peer_role) = match side {
        WireSide::Client => (SemanticRole::Authority, SemanticRole::NonAuthority),
        WireSide::Server => (SemanticRole::NonAuthority, SemanticRole::Authority),
    };
    FlowControl::new(
        connection,
        side,
        settings(local_role, local_active, local_message),
        settings(peer_role, peer_active, peer_message),
    )
    .unwrap()
}

fn limits(active: usize) -> DeliveryScopeLimits {
    DeliveryScopeLimits {
        max_active_flows: active,
        max_pending_messages: 16,
        max_pending_payload_bytes: 4096,
    }
}

fn key(connection: ConnectionHandle, direction: FlowDirection, handle: u64) -> DeliveryFlowKey {
    DeliveryFlowKey::new(connection, direction, DeliveryFlowHandle::new(handle))
}

fn policy(mode: DeliveryMode, max_message_bytes: usize) -> FlowResourcePolicy {
    FlowResourcePolicy {
        max_message_bytes,
        max_pending_messages: 8,
        max_pending_payload_bytes: 2048,
        outbound_pressure: OutboundPressureBehavior::RejectNew,
        receiver_pressure: match mode {
            DeliveryMode::ReliableOrdered => ReceiverPressureBehavior::TerminateReliable,
            DeliveryMode::UnreliableUnordered | DeliveryMode::UnreliableSequenced => {
                ReceiverPressureBehavior::DropIncomingUnreliable
            }
        },
    }
}

fn frame(frame_type: ControlFrameType, body: EncodedControlBody) -> ControlFrame {
    ControlFrame {
        frame_type,
        body: body.as_slice().to_vec(),
    }
}

fn accept(flow_id: FlowId) -> ControlFrame {
    frame(
        ControlFrameType::FlowAccept,
        FlowAccept { flow_id }.encode(),
    )
}

fn reject(flow_id: FlowId, reason: FlowRejectReason) -> ControlFrame {
    frame(
        ControlFrameType::FlowReject,
        FlowReject { flow_id, reason }.encode(),
    )
}

fn terminate(flow_id: FlowId, reason: FlowTerminateReason) -> ControlFrame {
    frame(
        ControlFrameType::FlowTerminate,
        FlowTerminate { flow_id, reason }.encode(),
    )
}

fn prepare_reliable(
    control: &mut FlowControl,
    endpoint: &DeliveryEndpoint,
    key: DeliveryFlowKey,
) -> PreparedOutboundOpen {
    control
        .prepare_with(
            endpoint,
            OutboundOpenRequest {
                key,
                mode: DeliveryMode::ReliableOrdered,
                policy: policy(DeliveryMode::ReliableOrdered, 64),
                stable_max_message_bytes: 64,
                connection_limits: limits(8),
            },
            None,
        )
        .unwrap()
}

#[test]
fn outbound_preflight_failures_do_not_consume_flow_id_or_create_core_state() {
    let connection = ConnectionHandle::new(1);
    let mut control = control(connection, WireSide::Client, 4, 256, 4, 64);
    let mut endpoint = DeliveryEndpoint::new(limits(8));
    let outbound = key(connection, FlowDirection::Outbound, 900);
    let reliable = policy(DeliveryMode::ReliableOrdered, 64);

    assert!(matches!(
        control.prepare_with(
            &endpoint,
            OutboundOpenRequest {
                key: outbound,
                mode: DeliveryMode::ReliableOrdered,
                policy: reliable,
                stable_max_message_bytes: 32,
                connection_limits: limits(8),
            },
            None,
        ),
        Err(OutboundOpenError::StableMessageLimitMismatch { .. })
    ));
    assert!(matches!(
        control.prepare_with(
            &endpoint,
            OutboundOpenRequest {
                key: outbound,
                mode: DeliveryMode::ReliableOrdered,
                policy: policy(DeliveryMode::ReliableOrdered, 128),
                stable_max_message_bytes: 128,
                connection_limits: limits(8),
            },
            None,
        ),
        Err(OutboundOpenError::PeerMessageLimit { .. })
    ));

    endpoint
        .establish_flow(outbound, DeliveryMode::ReliableOrdered, reliable, limits(8))
        .unwrap();
    assert!(matches!(
        control.prepare_with(
            &endpoint,
            OutboundOpenRequest {
                key: outbound,
                mode: DeliveryMode::ReliableOrdered,
                policy: reliable,
                stable_max_message_bytes: 64,
                connection_limits: limits(8),
            },
            None,
        ),
        Err(OutboundOpenError::CoreFlowAlreadyExists(key)) if key == outbound
    ));
    endpoint
        .terminate_flow(outbound, FlowTerminationReason::Requested)
        .unwrap();

    let prepared = prepare_reliable(&mut control, &endpoint, outbound);
    assert_eq!(prepared.flow.flow_id.sequence(), 0);
    assert_eq!(endpoint.active_flows(), 0);
    assert_eq!(endpoint.flow_contract(outbound), None);
    assert_eq!(control.pending_outbound_len(), 1);

    assert!(matches!(
        control.prepare_with(
            &endpoint,
            OutboundOpenRequest {
                key: outbound,
                mode: DeliveryMode::ReliableOrdered,
                policy: reliable,
                stable_max_message_bytes: 64,
                connection_limits: limits(8),
            },
            None,
        ),
        Err(OutboundOpenError::PendingCoreFlow(key)) if key == outbound
    ));
    assert_eq!(control.pending_outbound_len(), 1);
}

#[test]
fn sequenced_unreliable_open_uses_worst_case_sequence_envelope_before_consumption() {
    let connection = ConnectionHandle::new(2);
    let mut control = control(connection, WireSide::Client, 4, 256, 4, 256);
    let endpoint = DeliveryEndpoint::new(limits(8));
    let outbound = key(connection, FlowDirection::Outbound, 1);
    let p = policy(DeliveryMode::UnreliableSequenced, 64);

    assert!(matches!(
        control.prepare_with(
            &endpoint,
            OutboundOpenRequest {
                key: outbound,
                mode: DeliveryMode::UnreliableSequenced,
                policy: p,
                stable_max_message_bytes: 64,
                connection_limits: limits(8),
            },
            Some(72),
        ),
        Err(OutboundOpenError::DatagramTooSmall {
            needed: 73,
            available: 72,
        })
    ));
    let prepared = control
        .prepare_with(
            &endpoint,
            OutboundOpenRequest {
                key: outbound,
                mode: DeliveryMode::UnreliableSequenced,
                policy: p,
                stable_max_message_bytes: 64,
                connection_limits: limits(8),
            },
            Some(73),
        )
        .unwrap();
    assert_eq!(prepared.flow.flow_id.sequence(), 0);
}

#[test]
fn peer_active_ceiling_bounds_pending_and_active_outbound_flows() {
    let connection = ConnectionHandle::new(3);
    let mut control = control(connection, WireSide::Client, 4, 256, 1, 256);
    let mut endpoint = DeliveryEndpoint::new(limits(8));
    let first_key = key(connection, FlowDirection::Outbound, 1);
    let first = prepare_reliable(&mut control, &endpoint, first_key);

    assert!(matches!(
        control.prepare_with(
            &endpoint,
            OutboundOpenRequest {
                key: key(connection, FlowDirection::Outbound, 2),
                mode: DeliveryMode::ReliableOrdered,
                policy: policy(DeliveryMode::ReliableOrdered, 64),
                stable_max_message_bytes: 64,
                connection_limits: limits(8),
            },
            None,
        ),
        Err(OutboundOpenError::PeerActiveFlowLimit { .. })
    ));

    assert!(matches!(
        control
            .receive_with(
                &mut endpoint,
                reject(first.flow.flow_id, FlowRejectReason::ResourceLimit),
            )
            .unwrap(),
        FlowControlProgress::OutboundRejected { .. }
    ));
    let second = prepare_reliable(
        &mut control,
        &endpoint,
        key(connection, FlowDirection::Outbound, 2),
    );
    assert_eq!(second.flow.flow_id.sequence(), 1);

    let established = control
        .receive_with(&mut endpoint, accept(second.flow.flow_id))
        .unwrap();
    assert!(matches!(
        established,
        FlowControlProgress::OutboundEstablished(_)
    ));
    assert!(matches!(
        control.prepare_with(
            &endpoint,
            OutboundOpenRequest {
                key: key(connection, FlowDirection::Outbound, 3),
                mode: DeliveryMode::ReliableOrdered,
                policy: policy(DeliveryMode::ReliableOrdered, 64),
                stable_max_message_bytes: 64,
                connection_limits: limits(8),
            },
            None,
        ),
        Err(OutboundOpenError::PeerActiveFlowLimit { .. })
    ));
}

#[test]
fn outbound_flow_is_established_only_after_matching_accept() {
    let connection = ConnectionHandle::new(4);
    let mut control = control(connection, WireSide::Client, 4, 256, 4, 256);
    let mut endpoint = DeliveryEndpoint::new(limits(8));
    let outbound = key(connection, FlowDirection::Outbound, 444);
    let prepared = prepare_reliable(&mut control, &endpoint, outbound);

    assert_eq!(endpoint.flow_contract(outbound), None);
    assert_eq!(
        control.registry().registered_flow(prepared.flow.flow_id),
        None
    );
    let established = control
        .receive_with(&mut endpoint, accept(prepared.flow.flow_id))
        .unwrap();
    let FlowControlProgress::OutboundEstablished(flow) = established else {
        panic!("expected established outbound flow");
    };
    assert_eq!(flow.flow_id, prepared.flow.flow_id);
    assert_eq!(flow.key, outbound);
    assert_eq!(flow.mode, DeliveryMode::ReliableOrdered);
    assert_eq!(flow.max_message_bytes, 64);
    assert_eq!(
        endpoint.flow_contract(outbound),
        Some((
            DeliveryMode::ReliableOrdered,
            policy(DeliveryMode::ReliableOrdered, 64)
        ))
    );
    assert_eq!(
        control
            .registry()
            .registered_flow(prepared.flow.flow_id)
            .unwrap()
            .key,
        outbound
    );
}

#[test]
fn pressure_after_open_before_accept_terminates_peer_accepted_flow() {
    let connection = ConnectionHandle::new(5);
    let mut control = control(connection, WireSide::Client, 4, 256, 4, 256);
    let mut endpoint = DeliveryEndpoint::new(limits(1));
    let requested = key(connection, FlowDirection::Outbound, 1);
    let prepared = control
        .prepare_with(
            &endpoint,
            OutboundOpenRequest {
                key: requested,
                mode: DeliveryMode::ReliableOrdered,
                policy: policy(DeliveryMode::ReliableOrdered, 64),
                stable_max_message_bytes: 64,
                connection_limits: limits(1),
            },
            None,
        )
        .unwrap();

    endpoint
        .establish_flow(
            key(connection, FlowDirection::Inbound, 999),
            DeliveryMode::ReliableOrdered,
            policy(DeliveryMode::ReliableOrdered, 64),
            limits(1),
        )
        .unwrap();
    let progress = control
        .receive_with(&mut endpoint, accept(prepared.flow.flow_id))
        .unwrap();
    let FlowControlProgress::OutboundFailedAfterAccept {
        flow_id,
        key,
        reason,
        termination,
        frame,
    } = progress
    else {
        panic!("expected resource termination after peer accept");
    };
    assert_eq!(flow_id, prepared.flow.flow_id);
    assert_eq!(key, requested);
    assert_eq!(reason, FlowTerminateReason::ResourceFailure);
    assert_eq!(termination, None);
    assert_eq!(frame.frame_type, ControlFrameType::FlowTerminate);
    assert_eq!(endpoint.flow_contract(requested), None);
    assert_eq!(control.registry().registered_flow(flow_id), None);
}

#[test]
fn registry_failure_after_accept_preserves_core_rollback_termination() {
    let connection = ConnectionHandle::new(18);
    let mut registry = AcceptedFlowRegistry::new(WireSide::Client, 1);
    let mut endpoint = DeliveryEndpoint::new(limits(8));

    let occupied_key = key(connection, FlowDirection::Inbound, 99);
    endpoint
        .establish_flow(
            occupied_key,
            DeliveryMode::ReliableOrdered,
            policy(DeliveryMode::ReliableOrdered, 64),
            limits(8),
        )
        .unwrap();
    let occupied_flow = FlowId::new(WireSide::Server, 0).unwrap();
    let room = registry.reserve_slot();
    registry
        .register_consumed_accepted_flow(
            occupied_flow,
            RegisteredFlow {
                key: occupied_key,
                mode: DeliveryMode::ReliableOrdered,
                max_message_bytes: 64,
            },
            room,
        )
        .unwrap();
    let mut control = FlowControl::with_registry(
        connection,
        settings(SemanticRole::Authority, 4, 256),
        settings(SemanticRole::NonAuthority, 4, 256),
        registry,
    );

    let requested = key(connection, FlowDirection::Outbound, 1);
    let prepared = prepare_reliable(&mut control, &endpoint, requested);
    let progress = control
        .receive_with(&mut endpoint, accept(prepared.flow.flow_id))
        .unwrap();
    let FlowControlProgress::OutboundFailedAfterAccept {
        flow_id,
        key,
        reason,
        termination: Some(termination),
        frame,
    } = progress
    else {
        panic!("registry rollback did not preserve Core termination evidence");
    };
    assert_eq!(flow_id, prepared.flow.flow_id);
    assert_eq!(key, requested);
    assert_eq!(reason, FlowTerminateReason::ResourceFailure);
    assert_eq!(termination.key, requested);
    assert_eq!(termination.reason, FlowTerminationReason::Requested);
    assert_eq!(termination.pending_messages, 0);
    assert!(!termination.reliable_obligation_failed);
    assert_eq!(frame.frame_type, ControlFrameType::FlowTerminate);
    assert_eq!(endpoint.flow_contract(requested), None);
    assert_eq!(endpoint.flow_contract(occupied_key).is_some(), true);
    assert_eq!(control.registry().registered_flow(flow_id), None);
    assert_eq!(
        control
            .registry()
            .registered_flow(occupied_flow)
            .unwrap()
            .key,
        occupied_key
    );
}

#[test]
fn malformed_wrong_side_and_out_of_order_inbound_open_do_not_advance_peer_cursor() {
    let connection = ConnectionHandle::new(6);
    let mut control = control(connection, WireSide::Server, 4, 256, 4, 256);
    let mut endpoint = DeliveryEndpoint::new(limits(8));

    let malformed = ControlFrame {
        frame_type: ControlFrameType::OpenFlow,
        body: vec![0, 3, 1],
    };
    assert!(matches!(
        control.receive_with(&mut endpoint, malformed),
        Err(FlowControlError::Body(
            ControlBodyError::UnknownDeliveryMode(3)
        ))
    ));

    let wrong_side = frame(
        ControlFrameType::OpenFlow,
        OpenFlow::new(
            FlowId::new(WireSide::Server, 0).unwrap(),
            DeliveryMode::ReliableOrdered,
            64,
        )
        .unwrap()
        .encode(),
    );
    assert!(matches!(
        control.receive_with(&mut endpoint, wrong_side),
        Err(FlowControlError::FlowId(
            FlowIdCursorError::WrongSide { .. }
        ))
    ));

    let out_of_order = frame(
        ControlFrameType::OpenFlow,
        OpenFlow::new(
            FlowId::new(WireSide::Client, 1).unwrap(),
            DeliveryMode::ReliableOrdered,
            64,
        )
        .unwrap()
        .encode(),
    );
    assert!(matches!(
        control.receive_with(&mut endpoint, out_of_order),
        Err(FlowControlError::FlowId(
            FlowIdCursorError::UnexpectedSequence {
                expected: 0,
                received: 1,
            }
        ))
    ));

    let valid = frame(
        ControlFrameType::OpenFlow,
        OpenFlow::new(
            FlowId::new(WireSide::Client, 0).unwrap(),
            DeliveryMode::ReliableOrdered,
            64,
        )
        .unwrap()
        .encode(),
    );
    let FlowControlProgress::InboundOpen(request) =
        control.receive_with(&mut endpoint, valid).unwrap()
    else {
        panic!("expected inbound request");
    };
    assert_eq!(request.flow_id().sequence(), 0);
}

#[test]
fn valid_rejected_inbound_flow_id_is_consumed() {
    let connection = ConnectionHandle::new(7);
    let mut control = control(connection, WireSide::Server, 4, 32, 4, 256);
    let mut endpoint = DeliveryEndpoint::new(limits(8));
    let first = frame(
        ControlFrameType::OpenFlow,
        OpenFlow::new(
            FlowId::new(WireSide::Client, 0).unwrap(),
            DeliveryMode::ReliableOrdered,
            64,
        )
        .unwrap()
        .encode(),
    );
    assert!(matches!(
        control.receive_with(&mut endpoint, first).unwrap(),
        FlowControlProgress::InboundRejected {
            reason: FlowRejectReason::MessageLimit,
            ..
        }
    ));

    let second = frame(
        ControlFrameType::OpenFlow,
        OpenFlow::new(
            FlowId::new(WireSide::Client, 1).unwrap(),
            DeliveryMode::ReliableOrdered,
            32,
        )
        .unwrap()
        .encode(),
    );
    let FlowControlProgress::InboundOpen(request) =
        control.receive_with(&mut endpoint, second).unwrap()
    else {
        panic!("expected next consumed flow id");
    };
    assert_eq!(request.flow_id().sequence(), 1);
}

#[test]
fn inbound_admission_uses_host_core_identity_and_exact_profile_ceiling() {
    let connection = ConnectionHandle::new(8);
    let mut control = control(connection, WireSide::Server, 4, 256, 4, 256);
    let mut endpoint = DeliveryEndpoint::new(limits(8));
    let wire_flow = FlowId::new(WireSide::Client, 0).unwrap();
    let open = frame(
        ControlFrameType::OpenFlow,
        OpenFlow::new(wire_flow, DeliveryMode::ReliableOrdered, 64)
            .unwrap()
            .encode(),
    );
    let FlowControlProgress::InboundOpen(request) =
        control.receive_with(&mut endpoint, open).unwrap()
    else {
        panic!("expected inbound request");
    };
    let host_key = key(connection, FlowDirection::Inbound, 9_999);
    let resolution = control
        .accept_with(
            &mut endpoint,
            request,
            InboundAdmission {
                key: host_key,
                policy: policy(DeliveryMode::ReliableOrdered, 128),
                connection_limits: limits(8),
            },
        )
        .unwrap();
    let InboundResolution::Accepted { flow, frame } = resolution else {
        panic!("expected accept");
    };
    assert_eq!(flow.flow_id, wire_flow);
    assert_eq!(flow.key, host_key);
    assert_ne!(flow.key.handle.value, wire_flow.value());
    assert_eq!(flow.max_message_bytes, 64);
    assert_eq!(frame.frame_type, ControlFrameType::FlowAccept);
    assert_eq!(
        endpoint
            .flow_contract(host_key)
            .unwrap()
            .1
            .max_message_bytes,
        128
    );
    assert_eq!(
        control
            .registry()
            .registered_flow(wire_flow)
            .unwrap()
            .max_message_bytes,
        64
    );
}

#[test]
fn inbound_policy_message_limit_and_core_pressure_reject_without_state() {
    let connection = ConnectionHandle::new(9);
    let mut control = control(connection, WireSide::Server, 4, 256, 4, 256);
    let mut endpoint = DeliveryEndpoint::new(limits(1));
    let first_id = FlowId::new(WireSide::Client, 0).unwrap();
    let first = frame(
        ControlFrameType::OpenFlow,
        OpenFlow::new(first_id, DeliveryMode::ReliableOrdered, 64)
            .unwrap()
            .encode(),
    );
    let FlowControlProgress::InboundOpen(request) =
        control.receive_with(&mut endpoint, first).unwrap()
    else {
        panic!("expected request");
    };
    let result = control
        .accept_with(
            &mut endpoint,
            request,
            InboundAdmission {
                key: key(connection, FlowDirection::Inbound, 1),
                policy: policy(DeliveryMode::ReliableOrdered, 32),
                connection_limits: limits(1),
            },
        )
        .unwrap();
    assert!(matches!(
        result,
        InboundResolution::Rejected {
            reason: FlowRejectReason::MessageLimit,
            ..
        }
    ));
    assert_eq!(endpoint.active_flows(), 0);

    endpoint
        .establish_flow(
            key(connection, FlowDirection::Outbound, 500),
            DeliveryMode::ReliableOrdered,
            policy(DeliveryMode::ReliableOrdered, 64),
            limits(1),
        )
        .unwrap();
    let second_id = FlowId::new(WireSide::Client, 1).unwrap();
    let second = frame(
        ControlFrameType::OpenFlow,
        OpenFlow::new(second_id, DeliveryMode::ReliableOrdered, 64)
            .unwrap()
            .encode(),
    );
    let FlowControlProgress::InboundOpen(request) =
        control.receive_with(&mut endpoint, second).unwrap()
    else {
        panic!("expected request");
    };
    let result = control
        .accept_with(
            &mut endpoint,
            request,
            InboundAdmission {
                key: key(connection, FlowDirection::Inbound, 2),
                policy: policy(DeliveryMode::ReliableOrdered, 64),
                connection_limits: limits(1),
            },
        )
        .unwrap();
    assert!(matches!(
        result,
        InboundResolution::Rejected {
            reason: FlowRejectReason::ResourceLimit,
            ..
        }
    ));
    assert_eq!(endpoint.active_flows(), 1);
}

#[test]
fn pending_inbound_blocks_only_another_open_not_other_flow_control() {
    let connection = ConnectionHandle::new(10);
    let mut control = control(connection, WireSide::Server, 4, 256, 4, 256);
    let mut endpoint = DeliveryEndpoint::new(limits(8));
    let outbound = key(connection, FlowDirection::Outbound, 700);
    let prepared = prepare_reliable(&mut control, &endpoint, outbound);

    let inbound_open = frame(
        ControlFrameType::OpenFlow,
        OpenFlow::new(
            FlowId::new(WireSide::Client, 0).unwrap(),
            DeliveryMode::ReliableOrdered,
            64,
        )
        .unwrap()
        .encode(),
    );
    let FlowControlProgress::InboundOpen(request) =
        control.receive_with(&mut endpoint, inbound_open).unwrap()
    else {
        panic!("expected pending inbound request");
    };

    assert!(matches!(
        control
            .receive_with(
                &mut endpoint,
                reject(prepared.flow.flow_id, FlowRejectReason::ResourceLimit),
            )
            .unwrap(),
        FlowControlProgress::OutboundRejected { .. }
    ));

    let second_open = frame(
        ControlFrameType::OpenFlow,
        OpenFlow::new(
            FlowId::new(WireSide::Client, 1).unwrap(),
            DeliveryMode::ReliableOrdered,
            64,
        )
        .unwrap()
        .encode(),
    );
    assert!(matches!(
        control.receive_with(&mut endpoint, second_open),
        Err(FlowControlError::InboundDecisionPending(flow_id))
            if flow_id == request.flow_id()
    ));
    control
        .reject_inbound(request, FlowRejectReason::ResourceLimit, reserve_bytes(24))
        .unwrap();
}

#[test]
fn full_two_endpoint_exchange_uses_one_wire_flow_and_independent_core_handles() {
    let client_connection = ConnectionHandle::new(11);
    let server_connection = ConnectionHandle::new(22);
    let mut client = control(client_connection, WireSide::Client, 4, 256, 4, 256);
    let mut server = control(server_connection, WireSide::Server, 4, 256, 4, 256);
    let mut client_endpoint = DeliveryEndpoint::new(limits(8));
    let mut server_endpoint = DeliveryEndpoint::new(limits(8));
    let client_key = key(client_connection, FlowDirection::Outbound, 1001);
    let server_key = key(server_connection, FlowDirection::Inbound, 7007);

    let prepared = prepare_reliable(&mut client, &client_endpoint, client_key);
    let FlowControlProgress::InboundOpen(request) = server
        .receive_with(&mut server_endpoint, prepared.frame)
        .unwrap()
    else {
        panic!("server must receive open");
    };
    let InboundResolution::Accepted {
        flow: server_flow,
        frame: accept,
    } = server
        .accept_with(
            &mut server_endpoint,
            request,
            InboundAdmission {
                key: server_key,
                policy: policy(DeliveryMode::ReliableOrdered, 128),
                connection_limits: limits(8),
            },
        )
        .unwrap()
    else {
        panic!("server must accept");
    };
    let FlowControlProgress::OutboundEstablished(client_flow) =
        client.receive_with(&mut client_endpoint, accept).unwrap()
    else {
        panic!("client must establish");
    };

    assert_eq!(client_flow.flow_id, server_flow.flow_id);
    assert_eq!(client_flow.mode, server_flow.mode);
    assert_eq!(
        client_flow.max_message_bytes,
        server_flow.max_message_bytes
    );
    assert_ne!(client_flow.key.handle, server_flow.key.handle);
    assert_eq!(client_endpoint.active_flows(), 1);
    assert_eq!(server_endpoint.active_flows(), 1);
}

#[test]
fn remote_unreliable_termination_retires_core_registry_and_stale_datagram() {
    let connection = ConnectionHandle::new(12);
    let mut control = control(connection, WireSide::Client, 4, 256, 4, 256);
    let mut endpoint = DeliveryEndpoint::new(limits(8));
    let outbound = key(connection, FlowDirection::Outbound, 1);
    let prepared = control
        .prepare_with(
            &endpoint,
            OutboundOpenRequest {
                key: outbound,
                mode: DeliveryMode::UnreliableUnordered,
                policy: policy(DeliveryMode::UnreliableUnordered, 64),
                stable_max_message_bytes: 64,
                connection_limits: limits(8),
            },
            Some(128),
        )
        .unwrap();
    control
        .receive_with(&mut endpoint, accept(prepared.flow.flow_id))
        .unwrap();

    assert!(matches!(
        control
            .receive_with(
                &mut endpoint,
                terminate(
                    prepared.flow.flow_id,
                    FlowTerminateReason::ResourceFailure,
                ),
            )
            .unwrap(),
        FlowControlProgress::RemoteTerminated {
            reason: FlowTerminateReason::ResourceFailure,
            ..
        }
    ));
    assert_eq!(endpoint.flow_contract(outbound), None);
    assert_eq!(
        control.registry().registered_flow(prepared.flow.flow_id),
        None
    );

    let mut datagram = encode_varint(prepared.flow.flow_id.value())
        .unwrap()
        .as_slice()
        .to_vec();
    datagram.extend_from_slice(b"stale");
    assert_eq!(
        receive_datagram(control.registry(), &datagram, reserve_bytes(datagram.len())).unwrap(),
        DatagramReceiveStep::Done(DatagramReceiveOutcome::DiscardedUnknownFlow)
    );
}

#[test]
fn remote_reliable_exception_preserves_wire_reason_without_redefining_core_reason() {
    let connection = ConnectionHandle::new(13);
    let mut control = control(connection, WireSide::Client, 4, 256, 4, 256);
    let mut endpoint = DeliveryEndpoint::new(limits(8));
    let outbound = key(connection, FlowDirection::Outbound, 1);
    let prepared = prepare_reliable(&mut control, &endpoint, outbound);
    control
        .receive_with(&mut endpoint, accept(prepared.flow.flow_id))
        .unwrap();
    assert!(matches!(
        endpoint.submit(outbound, b"accepted".to_vec()).unwrap(),
        SubmissionOutcome::Accepted {
            accepted_index: 0,
            ..
        }
    ));

    let result = control
        .receive_with(
            &mut endpoint,
            terminate(
                prepared.flow.flow_id,
                FlowTerminateReason::ReliableDeliveryFailure,
            ),
        )
        .unwrap();
    let FlowControlProgress::RemoteTerminated {
        flow,
        reason,
        termination,
    } = result
    else {
        panic!("expected reliable terminal progress");
    };
    assert_eq!(flow.key, outbound);
    assert_eq!(reason, FlowTerminateReason::ReliableDeliveryFailure);
    assert_eq!(termination.reason, FlowTerminationReason::Requested);
    assert_eq!(termination.pending_messages, 1);
    assert!(termination.reliable_obligation_failed);
    assert_eq!(endpoint.flow_contract(outbound), None);
    assert_eq!(
        control.registry().registered_flow(prepared.flow.flow_id),
        None
    );
}

#[test]
fn local_reliable_exception_preserves_wire_reason_without_redefining_core_reason() {
    let connection = ConnectionHandle::new(14);
    let mut control = control(connection, WireSide::Client, 4, 256, 4, 256);
    let mut endpoint = DeliveryEndpoint::new(limits(8));
    let outbound = key(connection, FlowDirection::Outbound, 1);
    let prepared = prepare_reliable(&mut control, &endpoint, outbound);
    control
        .receive_with(&mut endpoint, accept(prepared.flow.flow_id))
        .unwrap();
    endpoint.submit(outbound, b"accepted".to_vec()).unwrap();

    let terminated = control
        .terminate_with(
            &mut endpoint,
            prepared.flow.flow_id,
            FlowTerminateReason::ProtocolFailure,
        )
        .unwrap();
    assert_eq!(terminated.reason, FlowTerminateReason::ProtocolFailure);
    assert_eq!(terminated.frame.frame_type, ControlFrameType::FlowTerminate);
    assert_eq!(
        terminated.termination.reason,
        FlowTerminationReason::Requested
    );
    assert!(terminated.termination.reliable_obligation_failed);
    assert_eq!(endpoint.flow_contract(outbound), None);
}

#[test]
fn duplicate_unknown_wrong_side_and_state_inapplicable_responses_fail_closed() {
    let connection = ConnectionHandle::new(15);
    let mut control = control(connection, WireSide::Client, 4, 256, 4, 256);
    let mut endpoint = DeliveryEndpoint::new(limits(8));
    let prepared = prepare_reliable(
        &mut control,
        &endpoint,
        key(connection, FlowDirection::Outbound, 1),
    );
    let flow_id = prepared.flow.flow_id;

    control
        .receive_with(
            &mut endpoint,
            reject(flow_id, FlowRejectReason::ResourceLimit),
        )
        .unwrap();
    assert!(matches!(
        control.receive_with(
            &mut endpoint,
            reject(flow_id, FlowRejectReason::ResourceLimit),
        ),
        Err(FlowControlError::UnknownPendingFlow(id)) if id == flow_id
    ));

    let wrong = FlowId::new(WireSide::Server, 0).unwrap();
    assert!(matches!(
        control.receive_with(&mut endpoint, accept(wrong)),
        Err(FlowControlError::WrongResponseSide {
            expected: WireSide::Client,
            received: WireSide::Server,
        })
    ));
    assert!(matches!(
        control.receive_with(
            &mut endpoint,
            terminate(flow_id, FlowTerminateReason::ResourceFailure),
        ),
        Err(FlowControlError::UnknownActiveFlow(id)) if id == flow_id
    ));
}

#[test]
fn reliable_normal_control_termination_is_not_a_fin_substitute() {
    let connection = ConnectionHandle::new(16);
    let mut control = control(connection, WireSide::Client, 4, 256, 4, 256);
    let mut endpoint = DeliveryEndpoint::new(limits(8));
    let outbound = key(connection, FlowDirection::Outbound, 1);
    let prepared = prepare_reliable(&mut control, &endpoint, outbound);
    control
        .receive_with(&mut endpoint, accept(prepared.flow.flow_id))
        .unwrap();

    assert!(matches!(
        control.receive_with(
            &mut endpoint,
            terminate(prepared.flow.flow_id, FlowTerminateReason::Normal),
        ),
        Err(FlowControlError::ReliableNormalUsesFin(id))
            if id == prepared.flow.flow_id
    ));
    assert!(matches!(
        control.terminate_with(
            &mut endpoint,
            prepared.flow.flow_id,
            FlowTerminateReason::Normal,
        ),
        Err(FlowControlError::ReliableNormalUsesFin(id))
            if id == prepared.flow.flow_id
    ));
    assert!(endpoint.flow_contract(outbound).is_some());
}

#[test]
fn local_unreliable_normal_termination_retires_active_mapping_once() {
    let connection = ConnectionHandle::new(17);
    let mut control = control(connection, WireSide::Client, 4, 256, 4, 256);
    let mut endpoint = DeliveryEndpoint::new(limits(8));
    let outbound = key(connection, FlowDirection::Outbound, 1);
    let prepared = control
        .prepare_with(
            &endpoint,
            OutboundOpenRequest {
                key: outbound,
                mode: DeliveryMode::UnreliableUnordered,
                policy: policy(DeliveryMode::UnreliableUnordered, 64),
                stable_max_message_bytes: 64,
                connection_limits: limits(8),
            },
            Some(128),
        )
        .unwrap();
    control
        .receive_with(&mut endpoint, accept(prepared.flow.flow_id))
        .unwrap();

    let terminated = control
        .terminate_with(
            &mut endpoint,
            prepared.flow.flow_id,
            FlowTerminateReason::Normal,
        )
        .unwrap();
    assert_eq!(terminated.reason, FlowTerminateReason::Normal);
    assert_eq!(terminated.frame.frame_type, ControlFrameType::FlowTerminate);
    assert_eq!(
        terminated.termination.reason,
        FlowTerminationReason::Requested
    );
    assert_eq!(endpoint.flow_contract(outbound), None);
    assert_eq!(
        control.registry().registered_flow(prepared.flow.flow_id),
        None
    );
    assert!(matches!(
        control.terminate_with(
            &mut endpoint,
            prepared.flow.flow_id,
            FlowTerminateReason::Normal,
        ),
        Err(FlowControlError::UnknownActiveFlow(id))
            if id == prepared.flow.flow_id
    ));
}

#[test]
fn setting_up_flow_control_needs_a_capacity_that_can_be_told() {
    let connection = ConnectionHandle::new(30);
    let none = settings(SemanticRole::Authority, 0, 64);
    let most = settings(SemanticRole::NonAuthority, u64::MAX, 64);
    assert!(matches!(
        FlowControl::new(connection, WireSide::Client, none, none),
        Err(FlowControlConfigError::ActiveRegistryCapacityOutOfRange)
    ));
    assert!(matches!(
        FlowControl::new(
            connection,
            WireSide::Client,
            settings(SemanticRole::Authority, 1, 64),
            most,
        ),
        Err(FlowControlConfigError::ActiveRegistryCapacityOverflow)
    ));
}

#[test]
fn identity_policy_and_range_errors_come_before_the_flow_is_asked_for() {
    let connection = ConnectionHandle::new(31);
    let mut control = control(connection, WireSide::Client, 4, 256, 4, 256);
    let endpoint = DeliveryEndpoint::new(limits(8));
    let good = OutboundOpenRequest {
        key: key(connection, FlowDirection::Outbound, 1),
        mode: DeliveryMode::ReliableOrdered,
        policy: policy(DeliveryMode::ReliableOrdered, 64),
        stable_max_message_bytes: 64,
        connection_limits: limits(8),
    };
    let elsewhere = ConnectionHandle::new(32);
    assert_eq!(
        control
            .prepare_with(
                &endpoint,
                OutboundOpenRequest {
                    key: key(elsewhere, FlowDirection::Outbound, 1),
                    ..good
                },
                None
            )
            .unwrap_err(),
        OutboundOpenError::WrongConnection { expected: connection, actual: elsewhere }
    );
    assert_eq!(
        control
            .prepare_with(
                &endpoint,
                OutboundOpenRequest {
                    key: key(connection, FlowDirection::Inbound, 1),
                    ..good
                },
                None
            )
            .unwrap_err(),
        OutboundOpenError::WrongDirection(FlowDirection::Inbound)
    );
    assert_eq!(
        control
            .prepare_with(
                &endpoint,
                OutboundOpenRequest { mode: DeliveryMode::UnreliableUnordered, ..good },
                None
            )
            .unwrap_err(),
        OutboundOpenError::InvalidPolicy(DeliveryPolicyError { code: 1 })
    );
    let huge = 1usize << 62;
    assert_eq!(
        control
            .prepare_with(
                &endpoint,
                OutboundOpenRequest {
                    policy: policy(DeliveryMode::ReliableOrdered, huge),
                    stable_max_message_bytes: huge,
                    ..good
                },
                None
            )
            .unwrap_err(),
        OutboundOpenError::StableMessageLimitOutOfRange
    );
    let unreliable = OutboundOpenRequest {
        mode: DeliveryMode::UnreliableUnordered,
        policy: policy(DeliveryMode::UnreliableUnordered, 64),
        ..good
    };
    assert_eq!(
        control.prepare_with(&endpoint, unreliable, None).unwrap_err(),
        OutboundOpenError::DatagramUnavailable
    );
    assert_eq!(control.pending_outbound_len(), 0);
    let prepared = control.prepare_with(&endpoint, good, None).unwrap();
    assert_eq!(prepared.frame.body, vec![0, 0, 0x40, 0x40]);
}

#[test]
fn refused_memory_is_an_allocation_error_and_takes_nothing() {
    let connection = ConnectionHandle::new(33);
    let mut control = control(connection, WireSide::Client, 4, 256, 4, 256);
    let refused = Vec::<u8>::new().try_reserve(usize::MAX).unwrap_err();
    let mut storage = control.reserve();
    storage.body = Err(refused.clone());
    let request = OutboundOpenRequest {
        key: key(connection, FlowDirection::Outbound, 1),
        mode: DeliveryMode::ReliableOrdered,
        policy: policy(DeliveryMode::ReliableOrdered, 64),
        stable_max_message_bytes: 64,
        connection_limits: limits(8),
    };
    let facts = OutboundOpenFacts { core_flow_exists: false, policy_check: Ok(()) };
    assert_eq!(
        control.prepare_outbound_open(request, facts, None, storage).unwrap_err(),
        OutboundOpenError::Allocation(refused)
    );
    assert_eq!(control.pending_outbound_len(), 0);
    let endpoint = DeliveryEndpoint::new(limits(8));
    assert_eq!(
        prepare_reliable(&mut control, &endpoint, request.key).flow.flow_id.sequence(),
        0
    );
}

#[test]
fn inbound_decisions_void_the_request_they_do_not_fit() {
    let connection = ConnectionHandle::new(34);
    let mut control = control(connection, WireSide::Server, 4, 256, 4, 256);
    let mut endpoint = DeliveryEndpoint::new(limits(8));
    for (sequence, admission, expected) in [
        (
            0,
            InboundAdmission {
                key: key(ConnectionHandle::new(1), FlowDirection::Inbound, 1),
                policy: policy(DeliveryMode::ReliableOrdered, 64),
                connection_limits: limits(8),
            },
            InboundAdmissionError::WrongConnection {
                expected: connection,
                actual: ConnectionHandle::new(1),
            },
        ),
        (
            1,
            InboundAdmission {
                key: key(connection, FlowDirection::Outbound, 1),
                policy: policy(DeliveryMode::ReliableOrdered, 64),
                connection_limits: limits(8),
            },
            InboundAdmissionError::WrongDirection(FlowDirection::Outbound),
        ),
        (
            2,
            InboundAdmission {
                key: key(connection, FlowDirection::Inbound, 1),
                policy: policy(DeliveryMode::UnreliableUnordered, 64),
                connection_limits: limits(8),
            },
            InboundAdmissionError::InvalidPolicy(DeliveryPolicyError { code: 1 }),
        ),
    ] {
        let open = frame(
            ControlFrameType::OpenFlow,
            OpenFlow::new(
                FlowId::new(WireSide::Client, sequence).unwrap(),
                DeliveryMode::ReliableOrdered,
                64,
            )
            .unwrap()
            .encode(),
        );
        let FlowControlProgress::InboundOpen(request) =
            control.receive_with(&mut endpoint, open).unwrap()
        else {
            panic!("expected inbound request");
        };
        assert!(control.has_pending_inbound());
        assert_eq!(
            control.accept_with(&mut endpoint, request, admission).unwrap_err(),
            expected
        );
        assert!(!control.has_pending_inbound());
    }
    assert_eq!(endpoint.active_flows(), 0);
}

#[test]
fn a_registry_that_knows_the_flow_refuses_it() {
    let connection = ConnectionHandle::new(35);
    let mut registry = AcceptedFlowRegistry::new(WireSide::Client, 4);
    let flow_id = FlowId::new(WireSide::Client, 0).unwrap();
    let flow = RegisteredFlow {
        key: key(connection, FlowDirection::Outbound, 1),
        mode: DeliveryMode::ReliableOrdered,
        max_message_bytes: 64,
    };
    let room = registry.reserve_slot();
    assert_eq!(registry.register_consumed_accepted_flow(flow_id, flow, room), Ok(()));
    assert_eq!(registry.active_direction_len(FlowDirection::Outbound), 1);
    let room = registry.reserve_slot();
    assert_eq!(
        registry.register_consumed_accepted_flow(flow_id, flow, room),
        Err(RegistryError::DuplicateFlowId)
    );
    let room = registry.reserve_slot();
    assert_eq!(
        registry.register_consumed_accepted_flow(
            FlowId::new(WireSide::Server, 0).unwrap(),
            flow,
            room
        ),
        Err(RegistryError::DirectionMismatch)
    );
    let refused = Vec::<u8>::new().try_reserve(usize::MAX).map(|_| ());
    assert_eq!(
        registry.register_consumed_accepted_flow(
            FlowId::new(WireSide::Client, 1).unwrap(),
            flow,
            refused
        ),
        Err(RegistryError::AllocationFailed)
    );
    assert_eq!(registry.release(flow_id), Some(flow));
    assert_eq!(registry.release(flow_id), None);
    assert_eq!(registry.active_direction_len(FlowDirection::Outbound), 0);
}

#[test]
fn failures_of_the_core_end_a_granted_flow() {
    let connection = ConnectionHandle::new(40);
    let mut control = control(connection, WireSide::Client, 4, 256, 4, 256);
    let endpoint = DeliveryEndpoint::new(limits(8));
    let outbound = key(connection, FlowDirection::Outbound, 1);
    let first = prepare_reliable(&mut control, &endpoint, outbound).flow.flow_id;
    let storage = control.reserve();
    assert_eq!(
        control.outbound_established(first, Err(FlowEstablishmentError::Other(7)), storage),
        Err(FlowControlError::LocalEstablishment(FlowEstablishmentError::Other(7)))
    );
    assert_eq!(control.pending_outbound_len(), 0);
    let storage = control.reserve();
    assert_eq!(
        control.outbound_established(first, Ok(()), storage),
        Err(FlowControlError::UnknownPendingFlow(first))
    );

    let second = prepare_reliable(&mut control, &endpoint, outbound).flow.flow_id;
    let mut storage = control.reserve();
    storage.active = Err(Vec::<u8>::new().try_reserve(usize::MAX).unwrap_err());
    let Ok(OutboundStep::RollBack(rollback)) =
        control.outbound_established(second, Ok(()), storage)
    else {
        panic!("there is no room");
    };
    assert_eq!(rollback.error, RegistryError::AllocationFailed);
    assert_eq!(
        control.outbound_rolled_back(
            rollback,
            Err(DeliveryOperationError::UnknownFlow),
            reserve_bytes(24)
        ),
        Err(FlowControlError::CoreState(DeliveryOperationError::UnknownFlow))
    );
    let mut odd = rollback;
    odd.error = RegistryError::DirectionMismatch;
    let ended = FlowTermination {
        key: outbound,
        reason: FlowTerminationReason::Requested,
        pending_messages: 0,
        reliable_obligation_failed: false,
    };
    assert_eq!(
        control.outbound_rolled_back(odd, Ok(ended), reserve_bytes(24)),
        Err(FlowControlError::Registry(RegistryError::DirectionMismatch))
    );
}

#[test]
fn failures_of_the_core_end_an_admitted_flow() {
    let connection = ConnectionHandle::new(41);
    let inbound = key(connection, FlowDirection::Inbound, 1);
    let admission = InboundAdmission {
        key: inbound,
        policy: policy(DeliveryMode::ReliableOrdered, 64),
        connection_limits: limits(8),
    };
    let asked = || {
        let mut control = control(connection, WireSide::Client, 4, 256, 4, 256);
        let flow_id = FlowId::new(WireSide::Server, 0).unwrap();
        let open = OpenFlow::new(flow_id, DeliveryMode::ReliableOrdered, 64).unwrap();
        let storage = control.reserve();
        let step = control.receive(frame(ControlFrameType::OpenFlow, open.encode()), storage);
        let Ok(FlowControlStep::Progress(FlowControlProgress::InboundOpen(request))) = step else {
            panic!("the host decides");
        };
        (control, request)
    };
    let refused = || Vec::<u8>::new().try_reserve(usize::MAX).unwrap_err();

    let (mut control, request) = asked();
    assert!(matches!(
        control.accept_inbound(request, admission, Ok(()), Err(refused())),
        Err(InboundAdmissionError::Allocation(_))
    ));

    let (mut control, request) = asked();
    let Ok(InboundStep::Establish(establish)) =
        control.accept_inbound(request, admission, Ok(()), reserve_bytes(24))
    else {
        panic!("the core is asked");
    };
    let storage = control.reserve();
    assert!(matches!(
        control.inbound_established(establish, Err(FlowEstablishmentError::Other(2)), storage),
        Err(InboundAdmissionError::LocalEstablishment(FlowEstablishmentError::Other(2)))
    ));
    assert!(!control.has_pending_inbound());

    for (answer, granted) in [
        (Err(DeliveryOperationError::UnknownFlow), false),
        (
            Ok(FlowTermination {
                key: inbound,
                reason: FlowTerminationReason::Requested,
                pending_messages: 0,
                reliable_obligation_failed: false,
            }),
            true,
        ),
    ] {
        let (mut control, request) = asked();
        let Ok(InboundStep::Establish(establish)) =
            control.accept_inbound(request, admission, Ok(()), reserve_bytes(24))
        else {
            panic!("the core is asked");
        };
        let mut storage = control.reserve();
        storage.active = Err(refused());
        let Ok(InboundStep::RollBack(rollback)) =
            control.inbound_established(establish, Ok(()), storage)
        else {
            panic!("there is no room");
        };
        assert_eq!(rollback.key(), inbound);
        let resolved = control.inbound_rolled_back(rollback, answer, reserve_bytes(24));
        if granted {
            assert!(matches!(
                resolved,
                Ok(InboundResolution::Rejected { reason: FlowRejectReason::ResourceLimit, .. })
            ));
        } else {
            assert_eq!(
                resolved,
                Err(InboundAdmissionError::CoreRollback(DeliveryOperationError::UnknownFlow))
            );
        }
        assert!(!control.has_pending_inbound());
    }
}

#[test]
fn a_full_registry_takes_no_flow() {
    let connection = ConnectionHandle::new(42);
    let mut registry = AcceptedFlowRegistry::new(WireSide::Client, 1);
    for (sequence, expected) in [(0, Ok(())), (1, Err(RegistryError::CapacityExceeded))] {
        let room = registry.reserve_slot();
        let flow = RegisteredFlow {
            key: key(connection, FlowDirection::Outbound, sequence),
            mode: DeliveryMode::ReliableOrdered,
            max_message_bytes: 64,
        };
        let flow_id = FlowId::new(WireSide::Client, sequence).unwrap();
        assert_eq!(registry.register_consumed_accepted_flow(flow_id, flow, room), expected);
    }
}

#[test]
fn an_outbound_flow_without_messages_is_no_flow() {
    let connection = ConnectionHandle::new(43);
    let mut control = control(connection, WireSide::Client, 4, 256, 4, 256);
    let storage = control.reserve();
    let request = OutboundOpenRequest {
        key: key(connection, FlowDirection::Outbound, 1),
        mode: DeliveryMode::ReliableOrdered,
        policy: policy(DeliveryMode::ReliableOrdered, 0),
        stable_max_message_bytes: 0,
        connection_limits: limits(8),
    };
    let facts = OutboundOpenFacts { core_flow_exists: false, policy_check: Ok(()) };
    assert_eq!(
        control.prepare_outbound_open(request, facts, None, storage).err(),
        Some(OutboundOpenError::Body(ControlBodyError::MessageLimitZero))
    );
    assert_eq!(control.pending_outbound_len(), 0);
}
