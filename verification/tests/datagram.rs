//! Datagrams against a small delivery core and a transport that does as it is told.

use runen_net_quic::datagram::{
    datagram_len, datagram_len_for_send, encode_datagram, receive_datagram, received,
    DatagramReceiveError, DatagramReceiveFailure, DatagramReceiveOutcome, DatagramReceiveStep,
    DatagramSendError, DatagramSendProgress, DatagramSender, DatagramSubmissionError,
    DatagramSubmissionOutcome, DatagramTransportError, SendStep, SubmissionStep,
    SubmissionTicket, TransportWindow, UNORDERED_INGRESS_INDEX,
};
use runen_net_quic::delivery::{
    ConnectionHandle, CustodyCommitError, DeliveryFlowHandle, DeliveryFlowKey, DeliveryMode,
    DeliveryOperationError, DeliveryScopeLimits, FlowDirection, FlowEstablishmentError,
    FlowResourcePolicy, FlowTermination, FlowTerminationReason, OutboundPressureBehavior,
    OutboundTransfer, ReceiveOutcome, ReceiverPressureBehavior, SubmissionOutcome,
};
use runen_net_quic::registry::{AcceptedFlowRegistry, RegisteredFlow};
use runen_net_quic::storage::reserve_bytes;
use runen_net_quic::varint::{encode_varint, VarIntDecodeError, MAX_VARINT};
use runen_net_quic::wire::{FlowId, WireSide};

/// A small delivery core: it counts what it holds and keeps what it is given.
#[derive(Debug)]
struct HeldFlow {
    key: DeliveryFlowKey,
    mode: DeliveryMode,
    policy: FlowResourcePolicy,
    next_index: u64,
    outbound: Vec<(u64, Vec<u8>)>,
    inbound: Vec<(u64, Vec<u8>)>,
    newest: Option<u64>,
}

#[derive(Debug)]
struct DeliveryEndpoint {
    limits: DeliveryScopeLimits,
    flows: Vec<HeldFlow>,
    inbound_pressure_drops: usize,
    stale_drops: usize,
}

#[allow(dead_code)]
impl DeliveryEndpoint {
    fn new(limits: DeliveryScopeLimits) -> Self {
        DeliveryEndpoint { limits, flows: Vec::new(), inbound_pressure_drops: 0, stale_drops: 0 }
    }

    fn establish_flow(
        &mut self,
        key: DeliveryFlowKey,
        mode: DeliveryMode,
        policy: FlowResourcePolicy,
        connection_limits: DeliveryScopeLimits,
    ) -> Result<(), FlowEstablishmentError> {
        let on_connection = self.flows.iter().filter(|f| f.key.connection == key.connection).count();
        if self.flows.len() >= self.limits.max_active_flows
            || on_connection >= connection_limits.max_active_flows
        {
            return Err(FlowEstablishmentError::ActiveFlowLimitExceeded);
        }
        if self.flows.iter().any(|f| f.key == key) {
            return Err(FlowEstablishmentError::Other(1));
        }
        self.flows.push(HeldFlow {
            key,
            mode,
            policy,
            next_index: 0,
            outbound: Vec::new(),
            inbound: Vec::new(),
            newest: None,
        });
        Ok(())
    }

    fn terminate_flow(
        &mut self,
        key: DeliveryFlowKey,
        reason: FlowTerminationReason,
    ) -> Result<FlowTermination, DeliveryOperationError> {
        let index = self
            .flows
            .iter()
            .position(|f| f.key == key)
            .ok_or(DeliveryOperationError::UnknownFlow)?;
        let flow = self.flows.remove(index);
        let pending_messages = flow.outbound.len() + flow.inbound.len();
        Ok(FlowTermination {
            key,
            reason,
            pending_messages,
            reliable_obligation_failed: flow.mode == DeliveryMode::ReliableOrdered
                && !flow.outbound.is_empty(),
        })
    }

    fn flow_contract(&self, key: DeliveryFlowKey) -> Option<(DeliveryMode, FlowResourcePolicy)> {
        self.flows.iter().find(|f| f.key == key).map(|f| (f.mode, f.policy))
    }

    fn active_flows(&self) -> usize {
        self.flows.len()
    }

    fn pending_messages(&self) -> usize {
        self.flows.iter().map(|f| f.outbound.len() + f.inbound.len()).sum()
    }

    fn flow(&mut self, key: DeliveryFlowKey) -> Result<&mut HeldFlow, DeliveryOperationError> {
        self.flows.iter_mut().find(|f| f.key == key).ok_or(DeliveryOperationError::UnknownFlow)
    }

    fn next_outbound_accepted_index(
        &mut self,
        key: DeliveryFlowKey,
    ) -> Result<Option<u64>, DeliveryOperationError> {
        self.flow(key).map(|f| Some(f.next_index))
    }

    fn submit(
        &mut self,
        key: DeliveryFlowKey,
        payload: Vec<u8>,
    ) -> Result<SubmissionOutcome, DeliveryOperationError> {
        let flow = self.flow(key)?;
        if payload.len() > flow.policy.max_message_bytes {
            return Ok(SubmissionOutcome::RejectedTooLarge);
        }
        let mut local_pressure_drops = 0;
        while flow.outbound.len() >= flow.policy.max_pending_messages {
            match flow.policy.outbound_pressure {
                OutboundPressureBehavior::RejectNew => {
                    return Ok(SubmissionOutcome::RejectedPressure);
                }
                OutboundPressureBehavior::EvictOldestUnreliable => {
                    flow.outbound.remove(0);
                    local_pressure_drops += 1;
                }
            }
        }
        let accepted_index = flow.next_index;
        flow.next_index += 1;
        flow.outbound.push((accepted_index, payload));
        Ok(SubmissionOutcome::Accepted { accepted_index, local_pressure_drops })
    }

    fn peek_outbound(
        &mut self,
        key: DeliveryFlowKey,
    ) -> Result<Option<(OutboundTransfer, Vec<u8>)>, DeliveryOperationError> {
        let flow = self.flow(key)?;
        let mode = flow.mode;
        Ok(flow.outbound.first().map(|(accepted_index, payload)| {
            (
                OutboundTransfer {
                    mode,
                    accepted_index: *accepted_index,
                    payload_len: payload.len(),
                },
                payload.clone(),
            )
        }))
    }

    fn commit_outbound_custody(
        &mut self,
        key: DeliveryFlowKey,
        accepted_index: u64,
    ) -> Result<(), CustodyCommitError> {
        let flow = self.flow(key).map_err(|_| CustodyCommitError { code: 1 })?;
        if flow.outbound.first().map(|(index, _)| *index) != Some(accepted_index) {
            return Err(CustodyCommitError { code: 2 });
        }
        flow.outbound.remove(0);
        Ok(())
    }

    fn receive_transport_payload(
        &mut self,
        key: DeliveryFlowKey,
        accepted_index: u64,
        payload: Vec<u8>,
    ) -> Result<ReceiveOutcome, DeliveryOperationError> {
        let flow = self.flow(key)?;
        if flow.mode == DeliveryMode::UnreliableSequenced {
            if flow.newest.map_or(false, |newest| accepted_index <= newest) {
                self.stale_drops += 1;
                return Ok(ReceiveOutcome::StaleSequenced);
            }
            flow.newest = Some(accepted_index);
        }
        if flow.inbound.len() >= flow.policy.max_pending_messages {
            self.inbound_pressure_drops += 1;
            return Ok(ReceiveOutcome::DroppedByPressure { local_pressure_drops: 1 });
        }
        flow.inbound.push((accepted_index, payload));
        Ok(ReceiveOutcome::Buffered { local_pressure_drops: 0 })
    }

    fn flow_pending_usage(&mut self, key: DeliveryFlowKey) -> Option<(usize, usize)> {
        self.flow(key).ok().map(|f| {
            let held = f.outbound.iter().chain(f.inbound.iter());
            (f.outbound.len() + f.inbound.len(), held.map(|(_, payload)| payload.len()).sum())
        })
    }

    fn poll_exposure(&mut self, key: DeliveryFlowKey) -> Option<(u64, Vec<u8>)> {
        let flow = self.flow(key).ok()?;
        if flow.inbound.is_empty() {
            None
        } else {
            Some(flow.inbound.remove(0))
        }
    }
}

fn limits(flows: usize, messages: usize, bytes: usize) -> DeliveryScopeLimits {
    DeliveryScopeLimits {
        max_active_flows: flows,
        max_pending_messages: messages,
        max_pending_payload_bytes: bytes,
    }
}

fn policy(
    max_message_bytes: usize,
    max_pending_messages: usize,
    max_pending_payload_bytes: usize,
    outbound_pressure: OutboundPressureBehavior,
    receiver_pressure: ReceiverPressureBehavior,
) -> FlowResourcePolicy {
    FlowResourcePolicy {
        max_message_bytes,
        max_pending_messages,
        max_pending_payload_bytes,
        outbound_pressure,
        receiver_pressure,
    }
}

fn key(direction: FlowDirection, handle: u64) -> DeliveryFlowKey {
    DeliveryFlowKey::new(
        ConnectionHandle::new(1),
        direction,
        DeliveryFlowHandle::new(handle),
    )
}

fn endpoint_with_registered_flow(
    direction: FlowDirection,
    mode: DeliveryMode,
    handle: u64,
    flow_id: FlowId,
    flow_policy: FlowResourcePolicy,
    stable_max: usize,
) -> (DeliveryEndpoint, AcceptedFlowRegistry, DeliveryFlowKey) {
    let mut endpoint = DeliveryEndpoint::new(limits(16, 32, 4096));
    let key = key(direction, handle);
    endpoint
        .establish_flow(key, mode, flow_policy, limits(16, 32, 4096))
        .unwrap();
    let mut registry = AcceptedFlowRegistry::new(WireSide::Client, 16);
    let room = registry.reserve_slot();
    registry
        .register_consumed_accepted_flow(
            flow_id,
            RegisteredFlow { key, mode, max_message_bytes: stable_max },
            room,
        )
        .unwrap();
    (endpoint, registry, key)
}

#[derive(Debug)]
struct MockTransport {
    max_datagram_size: Option<usize>,
    send_buffer_space: usize,
    sent: Vec<Vec<u8>>,
    next_error: Option<DatagramTransportError>,
}

impl MockTransport {
    fn new(max_datagram_size: Option<usize>, send_buffer_space: usize) -> Self {
        Self {
            max_datagram_size,
            send_buffer_space,
            sent: Vec::new(),
            next_error: None,
        }
    }

    fn window(&self) -> TransportWindow {
        TransportWindow {
            max_datagram_size: self.max_datagram_size,
            send_buffer_space: self.send_buffer_space,
        }
    }

    fn try_send(&mut self, datagram: Vec<u8>) -> Result<(), DatagramTransportError> {
        if let Some(error) = self.next_error.take() {
            return Err(error);
        }
        self.sent.push(datagram);
        Ok(())
    }
}

/// A sender and the transport that it sends on.
struct Sending {
    sender: DatagramSender,
    transport: MockTransport,
}

impl Sending {
    fn new(transport: MockTransport) -> Self {
        Sending { sender: DatagramSender::new(), transport }
    }

    fn submit(
        &mut self,
        endpoint: &mut DeliveryEndpoint,
        registry: &AcceptedFlowRegistry,
        flow_id: FlowId,
        payload: Vec<u8>,
    ) -> Result<DatagramSubmissionOutcome, DatagramSubmissionError> {
        let next_index = match registry.registered_flow(flow_id) {
            Some(flow) => endpoint.next_outbound_accepted_index(flow.key),
            None => Ok(None),
        };
        match self.sender.submit(
            registry,
            flow_id,
            payload.len(),
            next_index,
            self.transport.max_datagram_size,
        )? {
            SubmissionStep::Done(outcome) => Ok(outcome),
            SubmissionStep::Submit(ticket) => {
                self.sender.submitted(ticket, endpoint.submit(ticket.key, payload))
            }
        }
    }

    fn drive_one(
        &mut self,
        endpoint: &mut DeliveryEndpoint,
        registry: &AcceptedFlowRegistry,
        flow_id: FlowId,
    ) -> Result<DatagramSendProgress, DatagramSendError> {
        let peeked = match registry.registered_flow(flow_id) {
            Some(flow) => endpoint.peek_outbound(flow.key),
            None => Ok(None),
        };
        let (transfer, payload) = match peeked {
            Ok(Some((transfer, payload))) => (Ok(Some(transfer)), payload),
            Ok(None) => (Ok(None), Vec::new()),
            Err(error) => (Err(error), Vec::new()),
        };
        let window = self.transport.window();
        let mut step = self.sender.drive_one(registry, flow_id, transfer, window)?;
        let mut datagram = Vec::new();
        loop {
            step = match step {
                SendStep::Done(progress) => return Ok(progress),
                SendStep::Encode(plan) => {
                    datagram = encode_datagram(
                        plan.flow_id,
                        plan.mode,
                        plan.sequence,
                        &payload,
                        reserve_bytes(plan.wire_len),
                    )?;
                    self.sender.recheck(plan, &datagram, self.transport.window())?
                }
                SendStep::Send(plan) => {
                    let answer = self.transport.try_send(std::mem::take(&mut datagram));
                    self.sender.sent(plan, answer)?
                }
                SendStep::Commit(commit) => {
                    let answer =
                        endpoint.commit_outbound_custody(commit.key, commit.accepted_index);
                    return self.sender.committed(commit, answer);
                }
            };
        }
    }
}

fn receive(
    endpoint: &mut DeliveryEndpoint,
    registry: &AcceptedFlowRegistry,
    datagram: &[u8],
) -> Result<DatagramReceiveOutcome, DatagramReceiveFailure> {
    match receive_datagram(registry, datagram, reserve_bytes(datagram.len()))? {
        DatagramReceiveStep::Done(outcome) => Ok(outcome),
        DatagramReceiveStep::Deliver(delivery) => {
            let answer = endpoint.receive_transport_payload(
                delivery.key,
                delivery.accepted_index,
                delivery.payload,
            );
            received(delivery.flow_id, answer)
        }
    }
}

#[test]
fn envelopes_use_minimal_varints_and_sequence_exhaustion_is_explicit() {
    let flow_id = FlowId::new(WireSide::Client, 32).unwrap();
    assert_eq!(
        encode_datagram(flow_id, DeliveryMode::UnreliableUnordered, None, b"x", reserve_bytes(32)).unwrap(),
        vec![0x40, 0x40, b'x']
    );
    assert_eq!(
        encode_datagram(flow_id, DeliveryMode::UnreliableSequenced, Some(64), b"x", reserve_bytes(32)).unwrap(),
        vec![0x40, 0x40, 0x40, 0x40, b'x']
    );
    assert_eq!(
        datagram_len(
            flow_id,
            DeliveryMode::UnreliableSequenced,
            Some(MAX_VARINT + 1),
            0,
        ),
        Err(DatagramSubmissionError::SequenceExhausted)
    );
    assert_eq!(
        datagram_len_for_send(
            flow_id,
            DeliveryMode::UnreliableSequenced,
            Some(MAX_VARINT + 1),
            0,
        ),
        Err(DatagramSendError::SequenceExhausted)
    );
}

#[test]
fn sequenced_preflight_uses_exact_core_candidate_and_mtu_rejection_consumes_nothing() {
    let flow_id = FlowId::new(WireSide::Client, 0).unwrap();
    let (mut endpoint, registry, key) = endpoint_with_registered_flow(
        FlowDirection::Outbound,
        DeliveryMode::UnreliableSequenced,
        1,
        flow_id,
        policy(
            64,
            4,
            256,
            OutboundPressureBehavior::RejectNew,
            ReceiverPressureBehavior::DropIncomingUnreliable,
        ),
        64,
    );
    let mut sender = Sending::new(MockTransport::new(Some(4), 128));

    assert_eq!(endpoint.next_outbound_accepted_index(key).unwrap(), Some(0));
    assert_eq!(
        sender.submit(&mut endpoint, &registry, flow_id, vec![7, 8]),
        Ok(DatagramSubmissionOutcome::Accepted {
            accepted_index: 0,
            local_pressure_drops: 0,
        })
    );
    assert_eq!(endpoint.next_outbound_accepted_index(key).unwrap(), Some(1));
    assert_eq!(endpoint.pending_messages(), 1);

    sender.transport.max_datagram_size = Some(3);
    assert_eq!(
        sender.submit(&mut endpoint, &registry, flow_id, vec![9, 10]),
        Ok(DatagramSubmissionOutcome::RejectedCurrentDatagramSize)
    );
    assert_eq!(endpoint.next_outbound_accepted_index(key).unwrap(), Some(1));
    assert_eq!(endpoint.pending_messages(), 1);
}

#[test]
fn native_buffer_blockage_keeps_core_custody_until_non_evicting_handoff() {
    let flow_id = FlowId::new(WireSide::Client, 1).unwrap();
    let (mut endpoint, registry, key) = endpoint_with_registered_flow(
        FlowDirection::Outbound,
        DeliveryMode::UnreliableUnordered,
        2,
        flow_id,
        policy(
            64,
            4,
            256,
            OutboundPressureBehavior::RejectNew,
            ReceiverPressureBehavior::DropIncomingUnreliable,
        ),
        64,
    );
    let mut sender = Sending::new(MockTransport::new(Some(64), 0));
    assert!(matches!(
        sender.submit(&mut endpoint, &registry, flow_id, b"abc".to_vec()),
        Ok(DatagramSubmissionOutcome::Accepted {
            accepted_index: 0,
            ..
        })
    ));

    assert_eq!(
        sender.drive_one(&mut endpoint, &registry, flow_id),
        Ok(DatagramSendProgress::BlockedNativeBuffer {
            needed: 4,
            available: 0,
        })
    );
    assert_eq!(endpoint.pending_messages(), 1);
    assert!(sender.transport.sent.is_empty());

    sender.transport.send_buffer_space = 64;
    assert_eq!(
        sender.drive_one(&mut endpoint, &registry, flow_id),
        Ok(DatagramSendProgress::Enqueued { accepted_index: 0 })
    );
    assert_eq!(endpoint.pending_messages(), 0);
    assert_eq!(sender.transport.sent, vec![vec![2, b'a', b'b', b'c']]);
    assert_eq!(sender.sender.outbound_transport_drops(), 0);
    assert_eq!(endpoint.flow_pending_usage(key), Some((0, 0)));
}

#[test]
fn core_eviction_cannot_leave_a_stale_adapter_datagram() {
    let flow_id = FlowId::new(WireSide::Client, 2).unwrap();
    let (mut endpoint, registry, _) = endpoint_with_registered_flow(
        FlowDirection::Outbound,
        DeliveryMode::UnreliableSequenced,
        3,
        flow_id,
        policy(
            64,
            1,
            64,
            OutboundPressureBehavior::EvictOldestUnreliable,
            ReceiverPressureBehavior::DropIncomingUnreliable,
        ),
        64,
    );
    let mut sender = Sending::new(MockTransport::new(Some(64), 0));
    assert!(matches!(
        sender.submit(&mut endpoint, &registry, flow_id, b"old".to_vec()),
        Ok(DatagramSubmissionOutcome::Accepted {
            accepted_index: 0,
            ..
        })
    ));
    assert!(matches!(
        sender.drive_one(&mut endpoint, &registry, flow_id),
        Ok(DatagramSendProgress::BlockedNativeBuffer { .. })
    ));
    assert_eq!(
        sender.submit(&mut endpoint, &registry, flow_id, b"new".to_vec()),
        Ok(DatagramSubmissionOutcome::Accepted {
            accepted_index: 1,
            local_pressure_drops: 1,
        })
    );

    sender.transport.send_buffer_space = 64;
    assert_eq!(
        sender.drive_one(&mut endpoint, &registry, flow_id),
        Ok(DatagramSendProgress::Enqueued { accepted_index: 1 })
    );
    assert_eq!(sender.transport.sent, vec![vec![4, 1, b'n', b'e', b'w']]);
}

#[test]
fn mtu_shrink_after_acceptance_drops_only_front_and_is_observable() {
    let flow_id = FlowId::new(WireSide::Client, 3).unwrap();
    let (mut endpoint, registry, _) = endpoint_with_registered_flow(
        FlowDirection::Outbound,
        DeliveryMode::UnreliableUnordered,
        4,
        flow_id,
        policy(
            64,
            4,
            256,
            OutboundPressureBehavior::RejectNew,
            ReceiverPressureBehavior::DropIncomingUnreliable,
        ),
        64,
    );
    let mut sender = Sending::new(MockTransport::new(Some(64), 64));
    sender
        .submit(&mut endpoint, &registry, flow_id, b"abc".to_vec())
        .unwrap();
    sender.transport.max_datagram_size = Some(3);

    assert_eq!(
        sender.drive_one(&mut endpoint, &registry, flow_id),
        Ok(DatagramSendProgress::DroppedTransport { accepted_index: 0 })
    );
    assert_eq!(endpoint.pending_messages(), 0);
    assert_eq!(sender.sender.outbound_transport_drops(), 1);
    assert!(sender.transport.sent.is_empty());
}

#[test]
fn too_large_race_after_checks_is_a_transport_drop_not_fallback() {
    let flow_id = FlowId::new(WireSide::Client, 4).unwrap();
    let (mut endpoint, registry, _) = endpoint_with_registered_flow(
        FlowDirection::Outbound,
        DeliveryMode::UnreliableUnordered,
        5,
        flow_id,
        policy(
            64,
            4,
            256,
            OutboundPressureBehavior::RejectNew,
            ReceiverPressureBehavior::DropIncomingUnreliable,
        ),
        64,
    );
    let mut sender = Sending::new(MockTransport::new(Some(64), 64));
    sender
        .submit(&mut endpoint, &registry, flow_id, b"abc".to_vec())
        .unwrap();
    sender.transport.next_error = Some(DatagramTransportError::TooLarge);

    assert_eq!(
        sender.drive_one(&mut endpoint, &registry, flow_id),
        Ok(DatagramSendProgress::DroppedTransport { accepted_index: 0 })
    );
    assert_eq!(sender.sender.outbound_transport_drops(), 1);
    assert!(sender.transport.sent.is_empty());
}

#[test]
fn inbound_unordered_uses_no_sequence_authority_and_core_owns_pressure() {
    let flow_id = FlowId::new(WireSide::Server, 0).unwrap();
    let (mut endpoint, registry, key) = endpoint_with_registered_flow(
        FlowDirection::Inbound,
        DeliveryMode::UnreliableUnordered,
        6,
        flow_id,
        policy(
            8,
            1,
            8,
            OutboundPressureBehavior::RejectNew,
            ReceiverPressureBehavior::DropIncomingUnreliable,
        ),
        8,
    );

    assert_eq!(
        receive(&mut endpoint, &registry, &[1, b'a']),
        Ok(DatagramReceiveOutcome::Core(ReceiveOutcome::Buffered {
            local_pressure_drops: 0,
        }))
    );
    assert_eq!(
        receive(&mut endpoint, &registry, &[1, b'b']),
        Ok(DatagramReceiveOutcome::Core(
            ReceiveOutcome::DroppedByPressure {
                local_pressure_drops: 1,
            }
        ))
    );
    let exposed = endpoint.poll_exposure(key).unwrap();
    assert_eq!(exposed.0, UNORDERED_INGRESS_INDEX);
    assert_eq!(exposed.1, b"a");
    assert_eq!(endpoint.inbound_pressure_drops, 1);
}

#[test]
fn inbound_sequenced_preserves_wire_sequence_and_core_stale_filtering() {
    let flow_id = FlowId::new(WireSide::Server, 1).unwrap();
    let (mut endpoint, registry, key) = endpoint_with_registered_flow(
        FlowDirection::Inbound,
        DeliveryMode::UnreliableSequenced,
        7,
        flow_id,
        policy(
            8,
            4,
            32,
            OutboundPressureBehavior::RejectNew,
            ReceiverPressureBehavior::DropIncomingUnreliable,
        ),
        8,
    );

    assert_eq!(
        receive(&mut endpoint, &registry, &[3, 2, b'n']),
        Ok(DatagramReceiveOutcome::Core(ReceiveOutcome::Buffered {
            local_pressure_drops: 0,
        }))
    );
    let exposed = endpoint.poll_exposure(key).unwrap();
    assert_eq!(exposed.0, 2);
    assert_eq!(exposed.1, b"n");
    assert_eq!(
        receive(&mut endpoint, &registry, &[3, 1, b'o']),
        Ok(DatagramReceiveOutcome::Core(ReceiveOutcome::StaleSequenced))
    );
    assert_eq!(endpoint.stale_drops, 1);
}

#[test]
fn inbound_rejects_non_minimal_sequence_metadata() {
    let flow_id = FlowId::new(WireSide::Server, 5).unwrap();
    let (mut endpoint, registry, _) = endpoint_with_registered_flow(
        FlowDirection::Inbound,
        DeliveryMode::UnreliableSequenced,
        11,
        flow_id,
        policy(
            8,
            4,
            32,
            OutboundPressureBehavior::RejectNew,
            ReceiverPressureBehavior::DropIncomingUnreliable,
        ),
        8,
    );
    let mut datagram = encode_varint(flow_id.value()).unwrap().as_slice().to_vec();
    datagram.extend_from_slice(&[0x40, 0x01, b'x']);
    assert_eq!(
        receive(&mut endpoint, &registry, &datagram),
        Err(DatagramReceiveFailure {
            flow_id: Some(flow_id),
            error: DatagramReceiveError::VarInt(VarIntDecodeError::NonMinimal),
        })
    );
    assert_eq!(endpoint.pending_messages(), 0);
}

#[test]
fn inbound_rejects_malformed_wrong_mode_direction_and_profile_oversize() {
    let reliable_flow = FlowId::new(WireSide::Server, 2).unwrap();
    let (mut reliable_endpoint, reliable_registry, _) = endpoint_with_registered_flow(
        FlowDirection::Inbound,
        DeliveryMode::ReliableOrdered,
        8,
        reliable_flow,
        policy(
            8,
            4,
            32,
            OutboundPressureBehavior::RejectNew,
            ReceiverPressureBehavior::TerminateReliable,
        ),
        8,
    );
    assert_eq!(
        receive(&mut reliable_endpoint, &reliable_registry, &[5, b'x']),
        Err(DatagramReceiveFailure {
            flow_id: Some(reliable_flow),
            error: DatagramReceiveError::ReliableFlow,
        })
    );

    let outbound_flow = FlowId::new(WireSide::Client, 3).unwrap();
    let (mut outbound_endpoint, outbound_registry, _) = endpoint_with_registered_flow(
        FlowDirection::Outbound,
        DeliveryMode::UnreliableUnordered,
        9,
        outbound_flow,
        policy(
            8,
            4,
            32,
            OutboundPressureBehavior::RejectNew,
            ReceiverPressureBehavior::DropIncomingUnreliable,
        ),
        8,
    );
    assert_eq!(
        receive(&mut outbound_endpoint, &outbound_registry, &[6, b'x']),
        Err(DatagramReceiveFailure {
            flow_id: Some(outbound_flow),
            error: DatagramReceiveError::WrongDirection,
        })
    );

    assert!(matches!(
        receive(&mut outbound_endpoint, &outbound_registry, &[0x40, 0x06]),
        Err(DatagramReceiveFailure {
            flow_id: None,
            error: DatagramReceiveError::VarInt(VarIntDecodeError::NonMinimal),
        })
    ));

    let inbound_flow = FlowId::new(WireSide::Server, 4).unwrap();
    let (mut inbound_endpoint, inbound_registry, _) = endpoint_with_registered_flow(
        FlowDirection::Inbound,
        DeliveryMode::UnreliableUnordered,
        10,
        inbound_flow,
        policy(
            2,
            4,
            16,
            OutboundPressureBehavior::RejectNew,
            ReceiverPressureBehavior::DropIncomingUnreliable,
        ),
        2,
    );
    assert_eq!(
        receive(&mut inbound_endpoint, &inbound_registry, &[9, 1, 2, 3]),
        Err(DatagramReceiveFailure {
            flow_id: Some(inbound_flow),
            error: DatagramReceiveError::PayloadExceedsProfile,
        })
    );

    let unknown_flow = FlowId::new(WireSide::Server, 7).unwrap();
    let encoded = encode_varint(unknown_flow.value()).unwrap();
    assert_eq!(
        receive(&mut inbound_endpoint, &inbound_registry, encoded.as_slice()),
        Ok(DatagramReceiveOutcome::DiscardedUnknownFlow)
    );
}

#[test]
fn a_datagram_that_was_encoded_is_delivered_with_its_content() {
    for mode in [DeliveryMode::UnreliableUnordered, DeliveryMode::UnreliableSequenced] {
        for index in [0u64, 63, 64, 16_384, MAX_VARINT] {
            let flow_id = FlowId::new(WireSide::Server, 1_000).unwrap();
            let (_, registry, key) = endpoint_with_registered_flow(
                FlowDirection::Inbound,
                mode,
                1,
                flow_id,
                policy(
                    64,
                    4,
                    256,
                    OutboundPressureBehavior::RejectNew,
                    ReceiverPressureBehavior::DropIncomingUnreliable,
                ),
                64,
            );
            let sequence =
                if mode == DeliveryMode::UnreliableSequenced { Some(index) } else { None };
            let datagram =
                encode_datagram(flow_id, mode, sequence, b"payload", reserve_bytes(64)).unwrap();
            assert_eq!(datagram_len(flow_id, mode, sequence, 7), Ok(datagram.len()));
            let DatagramReceiveStep::Deliver(delivery) =
                receive_datagram(&registry, &datagram, reserve_bytes(64)).unwrap()
            else {
                panic!("the flow is known");
            };
            assert_eq!(delivery.flow_id, flow_id);
            assert_eq!(delivery.key, key);
            assert_eq!(delivery.accepted_index, sequence.unwrap_or(UNORDERED_INGRESS_INDEX));
            assert_eq!(delivery.payload, b"payload");
        }
    }
}

#[test]
fn refused_memory_is_reported_for_the_flow() {
    let refused = Vec::<u8>::new().try_reserve(usize::MAX).unwrap_err();
    let flow_id = FlowId::new(WireSide::Server, 0).unwrap();
    let (_, registry, _) = endpoint_with_registered_flow(
        FlowDirection::Inbound,
        DeliveryMode::UnreliableUnordered,
        1,
        flow_id,
        policy(
            8,
            1,
            8,
            OutboundPressureBehavior::RejectNew,
            ReceiverPressureBehavior::DropIncomingUnreliable,
        ),
        8,
    );
    assert_eq!(
        receive_datagram(&registry, &[1, 2], Err(refused.clone())),
        Err(DatagramReceiveFailure {
            flow_id: Some(flow_id),
            error: DatagramReceiveError::AllocationFailed,
        })
    );
    assert_eq!(
        encode_datagram(flow_id, DeliveryMode::UnreliableUnordered, None, b"x", Err(refused)),
        Err(DatagramSendError::AllocationFailed)
    );
    assert_eq!(
        received(flow_id, Err(DeliveryOperationError::UnknownFlow)),
        Err(DatagramReceiveFailure {
            flow_id: Some(flow_id),
            error: DatagramReceiveError::Core(DeliveryOperationError::UnknownFlow),
        })
    );
}

#[test]
fn submissions_are_refused_for_flow_size_index_and_transport() {
    let flow_id = FlowId::new(WireSide::Client, 0).unwrap();
    let (_, registry, key) = endpoint_with_registered_flow(
        FlowDirection::Outbound,
        DeliveryMode::UnreliableSequenced,
        1,
        flow_id,
        policy(
            64,
            4,
            256,
            OutboundPressureBehavior::RejectNew,
            ReceiverPressureBehavior::DropIncomingUnreliable,
        ),
        64,
    );
    let sender = DatagramSender::new();
    let unknown = FlowId::new(WireSide::Client, 1).unwrap();
    assert_eq!(
        sender.submit(&registry, unknown, 1, Ok(Some(0)), Some(100)),
        Err(DatagramSubmissionError::UnknownFlowId)
    );
    assert_eq!(
        sender.submit(&registry, flow_id, 65, Ok(Some(0)), Some(100)),
        Ok(SubmissionStep::Done(DatagramSubmissionOutcome::RejectedTooLarge))
    );
    assert_eq!(
        sender.submit(&registry, flow_id, 1, Ok(None), Some(100)),
        Ok(SubmissionStep::Done(DatagramSubmissionOutcome::RejectedCounterExhausted))
    );
    assert_eq!(
        sender.submit(&registry, flow_id, 1, Err(DeliveryOperationError::UnknownFlow), Some(100)),
        Err(DatagramSubmissionError::Core(DeliveryOperationError::UnknownFlow))
    );
    assert_eq!(
        sender.submit(&registry, flow_id, 1, Ok(Some(MAX_VARINT + 1)), Some(100)),
        Err(DatagramSubmissionError::SequenceExhausted)
    );
    assert_eq!(
        sender.submit(&registry, flow_id, 1, Ok(Some(0)), None),
        Ok(SubmissionStep::Done(DatagramSubmissionOutcome::RejectedTransportUnavailable))
    );
    let ticket = SubmissionTicket { key, candidate: Some(0) };
    assert_eq!(
        sender.submit(&registry, flow_id, 1, Ok(Some(0)), Some(3)),
        Ok(SubmissionStep::Submit(ticket))
    );
    assert_eq!(
        sender.submitted(
            ticket,
            Ok(SubmissionOutcome::Accepted { accepted_index: 1, local_pressure_drops: 0 })
        ),
        Err(DatagramSubmissionError::AcceptedIndexMismatch { expected: 0, accepted: 1 })
    );
    assert_eq!(
        sender.submitted(ticket, Ok(SubmissionOutcome::RejectedPressure)),
        Ok(DatagramSubmissionOutcome::RejectedPressure)
    );
}

#[test]
fn sends_fail_for_mode_size_transport_and_custody() {
    let flow_id = FlowId::new(WireSide::Client, 0).unwrap();
    let (mut endpoint, registry, key) = endpoint_with_registered_flow(
        FlowDirection::Outbound,
        DeliveryMode::UnreliableUnordered,
        1,
        flow_id,
        policy(
            64,
            4,
            256,
            OutboundPressureBehavior::RejectNew,
            ReceiverPressureBehavior::DropIncomingUnreliable,
        ),
        64,
    );
    let sender = DatagramSender::new();
    let window = TransportWindow { max_datagram_size: Some(100), send_buffer_space: 100 };
    let transfer = OutboundTransfer {
        mode: DeliveryMode::UnreliableUnordered,
        accepted_index: 0,
        payload_len: 3,
    };
    assert_eq!(
        sender.drive_one(&registry, flow_id, Ok(None), window),
        Ok(SendStep::Done(DatagramSendProgress::Idle))
    );
    assert_eq!(
        sender.drive_one(
            &registry,
            flow_id,
            Ok(Some(OutboundTransfer { mode: DeliveryMode::UnreliableSequenced, ..transfer })),
            window
        ),
        Err(DatagramSendError::ModeMismatch)
    );
    assert_eq!(
        sender.drive_one(
            &registry,
            flow_id,
            Ok(Some(OutboundTransfer { payload_len: 65, ..transfer })),
            window
        ),
        Err(DatagramSendError::PayloadExceedsProfile)
    );
    assert_eq!(
        sender.drive_one(
            &registry,
            flow_id,
            Ok(Some(transfer)),
            TransportWindow { max_datagram_size: None, ..window }
        ),
        Err(DatagramSendError::ProfileUnavailable)
    );
    let mut sending = Sending::new(MockTransport::new(Some(64), 64));
    for (error, expected) in [
        (DatagramTransportError::Disabled, DatagramSendError::ProfileUnavailable),
        (DatagramTransportError::UnsupportedByPeer, DatagramSendError::ProfileUnavailable),
        (DatagramTransportError::ConnectionLost, DatagramSendError::ConnectionLost),
    ] {
        sending.submit(&mut endpoint, &registry, flow_id, b"abc".to_vec()).unwrap();
        sending.transport.next_error = Some(error);
        assert_eq!(sending.drive_one(&mut endpoint, &registry, flow_id), Err(expected));
    }
    assert_eq!(endpoint.pending_messages(), 3);
    let SendStep::Encode(plan) =
        sender.drive_one(&registry, flow_id, Ok(Some(transfer)), window).unwrap()
    else {
        panic!("it fits");
    };
    assert_eq!(plan.key, key);
    let SendStep::Commit(commit) = sender.sent(plan, Ok(())).unwrap() else {
        panic!("it was sent");
    };
    let mut sender = sender;
    assert_eq!(
        sender.committed(commit, Err(CustodyCommitError { code: 7 })),
        Err(DatagramSendError::Custody(CustodyCommitError { code: 7 }))
    );
    assert_eq!(sender.outbound_transport_drops(), 0);
}

#[test]
fn a_flow_of_another_kind_carries_no_datagram() {
    let window = TransportWindow { max_datagram_size: Some(100), send_buffer_space: 100 };
    let sender = DatagramSender::new();
    let inbound = FlowId::new(WireSide::Server, 0).unwrap();
    let outbound = FlowId::new(WireSide::Client, 0).unwrap();
    let quiet = policy(
        8,
        1,
        8,
        OutboundPressureBehavior::RejectNew,
        ReceiverPressureBehavior::DropIncomingUnreliable,
    );
    let (_, registry, _) = endpoint_with_registered_flow(
        FlowDirection::Inbound,
        DeliveryMode::UnreliableUnordered,
        1,
        inbound,
        quiet,
        8,
    );
    assert_eq!(
        sender.drive_one(&registry, inbound, Ok(None), window),
        Err(DatagramSendError::WrongDirection)
    );
    assert_eq!(
        sender.submit(&registry, inbound, 1, Ok(None), Some(100)),
        Err(DatagramSubmissionError::WrongDirection)
    );
    assert_eq!(
        sender.drive_one(&registry, outbound, Ok(None), window),
        Err(DatagramSendError::UnknownFlowId)
    );
    let mut registry = AcceptedFlowRegistry::new(WireSide::Client, 1);
    let room = registry.reserve_slot();
    let flow = RegisteredFlow {
        key: key(FlowDirection::Outbound, 1),
        mode: DeliveryMode::ReliableOrdered,
        max_message_bytes: 8,
    };
    registry.register_consumed_accepted_flow(outbound, flow, room).unwrap();
    assert_eq!(
        sender.drive_one(&registry, outbound, Ok(None), window),
        Err(DatagramSendError::ReliableFlow)
    );
    assert_eq!(
        sender.submit(&registry, outbound, 1, Ok(None), Some(100)),
        Err(DatagramSubmissionError::ReliableFlow)
    );
    assert_eq!(
        encode_datagram(
            outbound,
            DeliveryMode::ReliableOrdered,
            None,
            b"x",
            reserve_bytes(8)
        ),
        Err(DatagramSendError::ReliableFlow)
    );
    assert_eq!(
        datagram_len_for_send(outbound, DeliveryMode::UnreliableUnordered, None, usize::MAX),
        Err(DatagramSendError::LengthOverflow)
    );
    let (_, registry, _) = endpoint_with_registered_flow(
        FlowDirection::Outbound,
        DeliveryMode::UnreliableUnordered,
        1,
        outbound,
        quiet,
        8,
    );
    assert_eq!(
        sender.drive_one(&registry, outbound, Err(DeliveryOperationError::UnknownFlow), window),
        Err(DatagramSendError::Core(DeliveryOperationError::UnknownFlow))
    );
}
