//! The driver of an established connection.

use std::time::Duration;

use runen_net_quic::connection_driver::{
    control_operation_error, datagram_submission_error_is_connection_terminal,
    datagram_submission_outcome_is_connection_terminal,
    inbound_admission_error_is_connection_terminal, next_poll_cursor,
    normalize_peer_no_error_control_end, outbound_open_error_is_connection_terminal,
    outbound_transport_owner, peer_no_error_close_observed,
    reliable_active_error_is_connection_loss, should_defer_received_frame, ConnectionDriverError,
    ConnectionDriverStateError, ControlReceiveState, ControlSendPhase, ControlSendState,
    DRIVER_CATEGORY_COUNT, DriverCall, DriverCategory, DriverOutput, DriverPhase, DriverStep,
    EstablishedConnectionDriver, EstablishedConnectionProgress, FinishStep, InboundDecision,
    InboundDecisionDriverError, KeyedFinish, KeyedFinishError, OutboundTransportOwner, PollNext,
    SendCall, SubmitStep,
};
use runen_net_quic::control::{
    BootstrapState, ConnectionFailure, ControlFrame, ControlFrameError, ControlFrameType,
    ControlReceiver, LocalControlLimits, ProfileBootstrapError, ProfileReadyParts, ReadFailure,
    SemanticRole, Settings, WriteFailure,
};
use runen_net_quic::datagram::{
    DatagramReceiveOutcome, DatagramSendError, DatagramSubmissionError, DatagramSubmissionOutcome,
};
use runen_net_quic::datagram_driver::DatagramIoError;
use runen_net_quic::delivery::{
    ConnectionHandle, DeliveryFlowHandle, DeliveryFlowKey, DeliveryMode, DeliveryOperationError,
    DeliveryScopeLimits, FlowDirection, FlowEstablishmentError, FlowResourcePolicy, FlowTermination,
    FlowTerminationReason, OutboundPressureBehavior, ReceiverPressureBehavior, SubmissionOutcome,
};
use runen_net_quic::endpoint::{ConfiguredEndpoint, EndpointResourceLimits};
use runen_net_quic::flow_control::{
    EstablishedFlow, FlowControl, FlowControlError, InboundAdmission, InboundAdmissionError,
    OutboundOpenError, OutboundOpenFacts, OutboundOpenRequest,
};
use runen_net_quic::flow_driver::{
    EstablishedDataFailureDisposition, FlowControlSendEffect, PendingFlowControlSend,
};
use runen_net_quic::lifecycle::{CloseOrder, CloseReason, EstablishedNegotiatedConnection};
use runen_net_quic::negotiation::NegotiationExchange;
use runen_net_quic::reliable::{
    IoFailure, ReceiveError, ReliableFailureContext, ReliableIoError, ReliableIoStateError,
    SendError,
};
use runen_net_quic::storage::{reserve_bytes, ByteStorage};
use runen_net_quic::wire::{
    ApplicationErrorCode, FlowAccept, FlowId, FlowRejectReason, FlowTerminate, FlowTerminateReason,
    OpenFlow, WireSide,
};

fn assert_static<T: 'static>() {}

fn flow(sequence: u64) -> FlowId {
    FlowId::new(WireSide::Client, sequence).unwrap()
}

#[test]
fn driver_and_control_states_are_move_owned() {
    assert_static::<EstablishedConnectionDriver>();
    assert_static::<ControlSendState>();
    assert_static::<ControlReceiveState>();
}

#[test]
fn reliable_connection_loss_is_connection_terminal_before_flow_failure_routing() {
    let flow_id = flow(1);
    assert!(reliable_active_error_is_connection_loss(
        &ReliableIoError::OutboundActiveBinding {
            context: ReliableFailureContext::Unresolved,
            error: SendError::Io(IoFailure::ConnectionLost),
        }
    ));
    assert!(reliable_active_error_is_connection_loss(
        &ReliableIoError::InboundActiveBinding {
            context: ReliableFailureContext::Unresolved,
            error: ReceiveError::Io(IoFailure::ConnectionLost),
        }
    ));
    assert!(!reliable_active_error_is_connection_loss(
        &ReliableIoError::OutboundActiveBinding {
            context: ReliableFailureContext::ResolvedDetached {
                flow_id,
                key: DeliveryFlowKey::new(
                    ConnectionHandle::new(1),
                    FlowDirection::Outbound,
                    DeliveryFlowHandle::new(1),
                ),
            },
            error: SendError::Io(IoFailure::Write),
        }
    ));
}

#[test]
fn report_capable_operations_require_the_sole_ready_sender() {
    assert_eq!(
        control_operation_error(DriverPhase::Active, ControlSendPhase::Ready),
        None
    );
    assert_eq!(
        control_operation_error(DriverPhase::Active, ControlSendPhase::Pending),
        Some(ConnectionDriverStateError::ControlSendBusy)
    );
    assert_eq!(
        control_operation_error(DriverPhase::Terminal, ControlSendPhase::Ready),
        Some(ConnectionDriverStateError::Terminal)
    );
    assert_eq!(
        control_operation_error(DriverPhase::Active, ControlSendPhase::Terminal),
        Some(ConnectionDriverStateError::Terminal)
    );
}

#[test]
fn control_receive_defers_only_for_sender_backpressure_or_second_open() {
    assert!(should_defer_received_frame(
        ControlFrameType::FlowAccept,
        false,
        ControlSendPhase::Pending,
    ));
    assert!(should_defer_received_frame(
        ControlFrameType::OpenFlow,
        true,
        ControlSendPhase::Ready,
    ));
    assert!(!should_defer_received_frame(
        ControlFrameType::FlowTerminate,
        true,
        ControlSendPhase::Ready,
    ));
    assert!(!should_defer_received_frame(
        ControlFrameType::OpenFlow,
        false,
        ControlSendPhase::Ready,
    ));
}

#[test]
fn outbound_mode_routes_to_exactly_one_transport_owner() {
    assert_eq!(
        outbound_transport_owner(DeliveryMode::ReliableOrdered),
        OutboundTransportOwner::Reliable
    );
    assert_eq!(
        outbound_transport_owner(DeliveryMode::UnreliableUnordered),
        OutboundTransportOwner::Datagram
    );
    assert_eq!(
        outbound_transport_owner(DeliveryMode::UnreliableSequenced),
        OutboundTransportOwner::Datagram
    );
}

#[test]
fn post_profile_datagram_capability_loss_is_connection_terminal() {
    assert!(outbound_open_error_is_connection_terminal(
        &OutboundOpenError::DatagramUnavailable
    ));
    assert!(datagram_submission_outcome_is_connection_terminal(
        DatagramSubmissionOutcome::RejectedTransportUnavailable
    ));
    assert!(!datagram_submission_outcome_is_connection_terminal(
        DatagramSubmissionOutcome::RejectedCurrentDatagramSize
    ));
}

#[test]
fn consumed_inbound_decision_failure_is_terminal_but_stale_request_is_not() {
    let flow_id = flow(0);
    assert!(!inbound_admission_error_is_connection_terminal(
        &InboundAdmissionError::RequestNotPending(flow_id)
    ));
    assert!(inbound_admission_error_is_connection_terminal(
        &InboundAdmissionError::WrongDirection(FlowDirection::Inbound)
    ));
}

#[test]
fn unreliable_submission_distinguishes_host_misuse_from_driver_invariants() {
    assert!(!datagram_submission_error_is_connection_terminal(
        &DatagramSubmissionError::UnknownFlowId
    ));
    assert!(!datagram_submission_error_is_connection_terminal(
        &DatagramSubmissionError::WrongDirection
    ));
    assert!(!datagram_submission_error_is_connection_terminal(
        &DatagramSubmissionError::ReliableFlow
    ));
    assert!(datagram_submission_error_is_connection_terminal(
        &DatagramSubmissionError::Core(DeliveryOperationError::UnknownFlow)
    ));
    assert!(datagram_submission_error_is_connection_terminal(
        &DatagramSubmissionError::LengthOverflow
    ));
    assert!(datagram_submission_error_is_connection_terminal(
        &DatagramSubmissionError::AcceptedIndexMismatch {
            expected: 1,
            accepted: 2,
        }
    ));
}

#[test]
fn cross_direction_cursor_is_finite_and_bounded() {
    for current in 0..DRIVER_CATEGORY_COUNT {
        assert!(next_poll_cursor(current) < DRIVER_CATEGORY_COUNT);
    }
    assert_eq!(next_poll_cursor(DRIVER_CATEGORY_COUNT - 1), 0);
}

fn limits() -> DeliveryScopeLimits {
    DeliveryScopeLimits {
        max_active_flows: 16,
        max_pending_messages: 32,
        max_pending_payload_bytes: 4_096,
    }
}

fn policy(max_message_bytes: usize) -> FlowResourcePolicy {
    FlowResourcePolicy {
        max_message_bytes,
        max_pending_messages: 4,
        max_pending_payload_bytes: 1_024,
        outbound_pressure: OutboundPressureBehavior::RejectNew,
        receiver_pressure: ReceiverPressureBehavior::DropIncomingUnreliable,
    }
}

fn key(direction: FlowDirection, handle: u64) -> DeliveryFlowKey {
    DeliveryFlowKey::new(ConnectionHandle::new(1), direction, DeliveryFlowHandle::new(handle))
}

fn started(max_staging_bytes: usize) -> (EstablishedConnectionDriver, ControlReceiver) {
    let resources = EndpointResourceLimits {
        max_connections: 1,
        max_active_incoming_flows: 16,
        udp_payload_ceiling: 1_452,
        stream_receive_window: 64 * 1024,
        connection_receive_window: 256 * 1024,
        send_window: 256 * 1024,
        crypto_buffer_bytes: 32 * 1024,
        datagram_receive_buffer_bytes: 64 * 1024,
        datagram_send_buffer_bytes: 64 * 1024,
        max_idle_timeout: Duration::from_secs(30),
    }
    .validate()
    .unwrap();
    let profile = LocalControlLimits {
        semantic_role: SemanticRole::Authority,
        max_control_frame_bytes: 64 * 1024,
        max_negotiation_frame_bytes: 32 * 1024,
        max_incoming_message_bytes: 128 * 1024,
    }
    .validate(resources)
    .unwrap();
    let mut endpoint = ConfiguredEndpoint::new(WireSide::Client, resources);
    let permit = endpoint.try_acquire_connection_slot().unwrap();
    let mut bootstrap = BootstrapState::begin(profile, false).unwrap();
    bootstrap.mark_local_settings_sent().unwrap();
    let peer = Settings { semantic_role: SemanticRole::NonAuthority, ..profile.local_settings() };
    bootstrap.receive_settings(peer).unwrap();
    let connection = ConnectionHandle::new(1);
    let exchange = NegotiationExchange::from_profile(connection, profile.local_settings(), peer);
    let parts = ProfileReadyParts::new(WireSide::Client, profile, bootstrap);
    let controlled =
        EstablishedNegotiatedConnection::from_parts(connection, parts, permit, exchange)
            .into_flow_control()
            .unwrap();
    EstablishedConnectionDriver::into_connection_driver(
        controlled.into_established_io(),
        max_staging_bytes,
    )
}

fn open_request(mode: DeliveryMode, handle: u64) -> OutboundOpenRequest {
    OutboundOpenRequest {
        key: key(FlowDirection::Outbound, handle),
        mode,
        policy: policy(64),
        stable_max_message_bytes: 64,
        connection_limits: limits(),
    }
}

const FACTS: OutboundOpenFacts =
    OutboundOpenFacts { core_flow_exists: false, policy_check: Ok(()) };

fn termination(key: DeliveryFlowKey, reason: FlowTerminationReason) -> FlowTermination {
    FlowTermination {
        key,
        reason,
        pending_messages: 0,
        reliable_obligation_failed: false,
    }
}

fn open(
    driver: &mut EstablishedConnectionDriver,
    request: OutboundOpenRequest,
    size: Option<usize>,
) -> Result<SendCall, ConnectionDriverError> {
    let storage = driver.reserve().flow;
    driver.open_outbound(request, FACTS, size, storage)
}

fn complete(driver: &mut EstablishedConnectionDriver, call: SendCall) -> FlowControlSendEffect {
    let output = driver.control_sent(
        call.sender,
        PendingFlowControlSend::completed(call.pending.effect, Ok(())),
    );
    assert!(output.close.is_none() && output.send.is_none() && output.receive.is_none());
    match output.step {
        DriverStep::Progress(EstablishedConnectionProgress::ControlSendCompleted(effect)) => effect,
        other => panic!("the send was completed, got {other:?}"),
    }
}

fn receive(
    driver: &mut EstablishedConnectionDriver,
    receiver: ControlReceiver,
    frame: ControlFrame,
) -> DriverOutput {
    let storage = driver.reserve();
    driver.control_received(receiver, Ok(frame), None, storage)
}

fn accept_frame(flow_id: FlowId) -> ControlFrame {
    ControlFrame {
        frame_type: ControlFrameType::FlowAccept,
        body: FlowAccept { flow_id }.encode().as_slice().to_vec(),
    }
}

fn open_frame(flow_id: FlowId, mode: DeliveryMode, max: u64) -> ControlFrame {
    ControlFrame {
        frame_type: ControlFrameType::OpenFlow,
        body: OpenFlow::new(flow_id, mode, max).unwrap().encode().as_slice().to_vec(),
    }
}

fn report() -> ByteStorage {
    reserve_bytes(24)
}

/// A driver with one established outbound flow.
fn with_outbound(
    mode: DeliveryMode,
) -> (EstablishedConnectionDriver, ControlReceiver, EstablishedFlow) {
    let (mut driver, receiver) = started(128 * 1024);
    let request = open_request(mode, 1);
    let call = open(&mut driver, request, Some(1_200)).unwrap();
    assert_eq!(call.pending.frame.frame_type, ControlFrameType::OpenFlow);
    assert!(matches!(
        complete(&mut driver, call),
        FlowControlSendEffect::OutboundOpenPrepared(flow) if flow.flow_id == flow_id()
    ));
    let output = receive(&mut driver, receiver, accept_frame(flow_id()));
    let receiver = output.receive.unwrap();
    let DriverStep::Ask(DriverCall::Establish(establish)) = output.step else {
        panic!("the core is asked");
    };
    assert_eq!(
        (establish.flow_id, establish.key, establish.mode),
        (flow_id(), request.key, mode)
    );
    let storage = driver.reserve();
    let output = driver.flow_established(flow_id(), Ok(()), storage);
    let flow = EstablishedFlow {
        flow_id: flow_id(),
        key: request.key,
        mode,
        max_message_bytes: 64,
    };
    match output.step {
        DriverStep::Ask(DriverCall::Schedule(scheduled)) => {
            assert_eq!(mode, DeliveryMode::ReliableOrdered);
            assert_eq!(scheduled, flow);
            let output = driver.reliable_scheduled(scheduled, Ok(()), report());
            assert!(matches!(
                output.step,
                DriverStep::Progress(EstablishedConnectionProgress::OutboundEstablished(f))
                    if f == flow
            ));
        }
        DriverStep::Progress(EstablishedConnectionProgress::OutboundEstablished(established)) => {
            assert_ne!(mode, DeliveryMode::ReliableOrdered);
            assert_eq!(established, flow);
        }
        other => panic!("the flow is established, got {other:?}"),
    }
    (driver, receiver, flow)
}

fn flow_id() -> FlowId {
    flow(0)
}

#[test]
fn a_round_polls_every_kind_once_and_starts_behind_what_came_of_it() {
    let (mut driver, _receiver) = started(1);
    let mut turn = driver.control().poll_step().unwrap();
    let mut polled = Vec::new();
    while let PollNext::Poll(category, rest) = driver.next_category(turn) {
        polled.push(category.index());
        turn = rest;
    }
    assert_eq!(polled, vec![0, 1, 2, 3, 4, 5, 6, 7]);
    assert_eq!(driver.control().poll_cursor, 1);
    driver.concluded(DriverCategory::DatagramOutbound);
    assert_eq!(driver.control().poll_cursor, 7);
    let turn = driver.control().poll_step().unwrap();
    let PollNext::Poll(category, rest) = driver.next_category(turn) else {
        panic!("data may be polled");
    };
    assert_eq!(category, DriverCategory::DatagramInbound);
    assert!(matches!(
        driver.next_category(rest),
        PollNext::Poll(DriverCategory::ControlSend, _)
    ));
}

#[test]
fn data_waits_while_a_frame_is_sent() {
    let (mut driver, _receiver) = started(1);
    let call = open(&mut driver, open_request(DeliveryMode::ReliableOrdered, 1), None).unwrap();
    assert!(!driver.control().data_poll_allowed());
    assert_eq!(
        driver.control().require_control_send_ready(),
        Err(ConnectionDriverStateError::ControlSendBusy)
    );
    let mut turn = driver.control().poll_step().unwrap();
    let mut polled = Vec::new();
    while let PollNext::Poll(category, rest) = driver.next_category(turn) {
        polled.push(category);
        turn = rest;
    }
    assert_eq!(polled, vec![DriverCategory::ControlSend, DriverCategory::ControlReceive]);
    assert_eq!(
        open(&mut driver, open_request(DeliveryMode::ReliableOrdered, 2), None),
        Err(ConnectionDriverError::State(ConnectionDriverStateError::ControlSendBusy))
    );
    complete(&mut driver, call);
    assert!(driver.control().data_poll_allowed());
}

#[test]
fn outbound_flows_of_every_mode_are_established() {
    for mode in [
        DeliveryMode::ReliableOrdered,
        DeliveryMode::UnreliableUnordered,
        DeliveryMode::UnreliableSequenced,
    ] {
        let (mut driver, _receiver, flow) = with_outbound(mode);
        assert!(driver.flow_control().registry().registered_flow(flow.flow_id).is_some());
        let datagrams = {
            let (datagrams, flow_control) = driver.datagram_parts();
            datagrams.outbound_flow_id(flow_control, flow.key)
        };
        if mode == DeliveryMode::ReliableOrdered {
            assert_eq!(datagrams, None);
        } else {
            assert_eq!(datagrams, Some(flow.flow_id));
        }
    }
}

#[test]
fn a_frame_waits_while_its_answer_could_not_be_sent() {
    let (mut driver, receiver) = started(1);
    let call = open(&mut driver, open_request(DeliveryMode::ReliableOrdered, 1), None).unwrap();
    let output = receive(&mut driver, receiver, accept_frame(flow_id()));
    assert!(matches!(output.step, DriverStep::Nothing));
    assert!(output.receive.is_none());
    assert!(matches!(driver.control().receiver, ControlReceiveState::Deferred { .. }));
    let storage = driver.reserve();
    assert!(matches!(driver.poll_deferred(storage).step, DriverStep::Nothing));
    complete(&mut driver, call);
    let storage = driver.reserve();
    let output = driver.poll_deferred(storage);
    assert!(matches!(output.step, DriverStep::Ask(DriverCall::Establish(_))));
    assert!(output.receive.is_some());
    assert!(matches!(driver.control().receiver, ControlReceiveState::Pending));
}

#[test]
fn a_second_request_waits_for_the_decision_on_the_first() {
    let (mut driver, receiver) = started(128 * 1024);
    let first = FlowId::new(WireSide::Server, 0).unwrap();
    let second = FlowId::new(WireSide::Server, 1).unwrap();
    let output =
        receive(&mut driver, receiver, open_frame(first, DeliveryMode::UnreliableUnordered, 64));
    let receiver = output.receive.unwrap();
    let DriverStep::Progress(EstablishedConnectionProgress::InboundOpen(request)) = output.step
    else {
        panic!("the host decides");
    };
    assert_eq!(request.flow_id(), first);
    let output =
        receive(&mut driver, receiver, open_frame(second, DeliveryMode::ReliableOrdered, 64));
    assert!(matches!(output.step, DriverStep::Nothing));
    let admission = InboundAdmission {
        key: key(FlowDirection::Inbound, 9),
        policy: policy(64),
        connection_limits: limits(),
    };
    let decision = driver.accept_inbound(request, admission, Ok(()), report()).unwrap();
    let InboundDecision::Establish(establish) = decision else {
        panic!("the core is asked");
    };
    let storage = driver.reserve().flow;
    let InboundDecision::Send(call) =
        driver.inbound_established(establish, Ok(()), storage).unwrap()
    else {
        panic!("the peer is told");
    };
    assert_eq!(call.pending.frame, accept_frame(first));
    assert!(matches!(
        complete(&mut driver, call),
        FlowControlSendEffect::InboundAccepted(flow) if flow.flow_id == first
    ));
    let storage = driver.reserve();
    let output = driver.poll_deferred(storage);
    assert!(matches!(
        output.step,
        DriverStep::Progress(EstablishedConnectionProgress::InboundOpen(request))
            if request.flow_id() == second
    ));
}

#[test]
fn a_reliable_flow_that_cannot_be_staged_is_refused() {
    let (mut driver, receiver) = started(63);
    let first = FlowId::new(WireSide::Server, 0).unwrap();
    let output =
        receive(&mut driver, receiver, open_frame(first, DeliveryMode::ReliableOrdered, 64));
    let DriverStep::Progress(EstablishedConnectionProgress::InboundOpen(request)) = output.step
    else {
        panic!("the host decides");
    };
    let admission = InboundAdmission {
        key: key(FlowDirection::Inbound, 9),
        policy: policy(64),
        connection_limits: limits(),
    };
    let InboundDecision::Send(call) =
        driver.accept_inbound(request, admission, Ok(()), report()).unwrap()
    else {
        panic!("the peer is told");
    };
    assert_eq!(
        complete(&mut driver, call),
        FlowControlSendEffect::InboundRejected {
            flow_id: first,
            reason: FlowRejectReason::ResourceLimit,
        }
    );
}

#[test]
fn a_decision_waits_while_a_frame_is_sent_and_keeps_the_request() {
    let (mut driver, receiver) = started(128 * 1024);
    let first = FlowId::new(WireSide::Server, 0).unwrap();
    let output =
        receive(&mut driver, receiver, open_frame(first, DeliveryMode::UnreliableUnordered, 64));
    let DriverStep::Progress(EstablishedConnectionProgress::InboundOpen(request)) = output.step
    else {
        panic!("the host decides");
    };
    let call = open(&mut driver, open_request(DeliveryMode::ReliableOrdered, 1), None).unwrap();
    let Err(InboundDecisionDriverError::Unavailable { request, error }) =
        driver.reject_inbound(request, FlowRejectReason::MessageLimit, report())
    else {
        panic!("the sender is busy");
    };
    assert_eq!(error, ConnectionDriverStateError::ControlSendBusy);
    complete(&mut driver, call);
    let InboundDecision::Send(call) =
        driver.reject_inbound(request, FlowRejectReason::MessageLimit, report()).unwrap()
    else {
        panic!("the peer is told");
    };
    assert_eq!(
        complete(&mut driver, call),
        FlowControlSendEffect::InboundRejected {
            flow_id: first,
            reason: FlowRejectReason::MessageLimit,
        }
    );
}

#[test]
fn a_flow_that_the_core_refuses_is_ended_towards_the_peer() {
    let (mut driver, receiver) = started(1);
    let call = open(&mut driver, open_request(DeliveryMode::ReliableOrdered, 1), None).unwrap();
    complete(&mut driver, call);
    let output = receive(&mut driver, receiver, accept_frame(flow_id()));
    assert!(matches!(output.step, DriverStep::Ask(DriverCall::Establish(_))));
    let storage = driver.reserve();
    let output = driver.flow_established(
        flow_id(),
        Err(FlowEstablishmentError::ActiveFlowLimitExceeded),
        storage,
    );
    assert!(matches!(
        output.step,
        DriverStep::Progress(EstablishedConnectionProgress::ControlSendStarted)
    ));
    let call = output.send.unwrap();
    assert_eq!(
        FlowTerminate::decode(&call.pending.frame.body),
        Ok(FlowTerminate { flow_id: flow_id(), reason: FlowTerminateReason::ResourceFailure })
    );
    assert!(matches!(
        complete(&mut driver, call),
        FlowControlSendEffect::OutboundFailedAfterAccept { termination: None, .. }
    ));
}

#[test]
fn the_peer_ends_a_flow() {
    let (mut driver, receiver, flow) = with_outbound(DeliveryMode::UnreliableUnordered);
    let frame = ControlFrame {
        frame_type: ControlFrameType::FlowTerminate,
        body: FlowTerminate { flow_id: flow.flow_id, reason: FlowTerminateReason::Normal }
            .encode()
            .as_slice()
            .to_vec(),
    };
    let output = receive(&mut driver, receiver, frame);
    let DriverStep::Ask(DriverCall::TerminateRemote(call)) = output.step else {
        panic!("the core ends the flow");
    };
    assert_eq!(call.flow, flow);
    let ended = termination(flow.key, FlowTerminationReason::Requested);
    let output = driver.flow_terminated_remotely(call, Ok(ended));
    assert!(matches!(
        output.step,
        DriverStep::Progress(EstablishedConnectionProgress::RemoteTerminated {
            flow: f,
            reason: FlowTerminateReason::Normal,
            termination: t,
        }) if f == flow && t == ended
    ));
    assert!(driver.flow_control().registry().registered_flow(flow.flow_id).is_none());
}

#[test]
fn a_frame_that_is_none_closes_the_connection() {
    let (mut driver, receiver) = started(1);
    let output = receive(&mut driver, receiver, accept_frame(flow_id()));
    assert!(matches!(
        output.step,
        DriverStep::Error(ConnectionDriverError::ReceivedFlowControl(_))
    ));
    assert_eq!(
        output.close,
        Some(CloseOrder {
            code: ApplicationErrorCode::FlowProtocolError,
            reason: CloseReason::FlowControl,
        })
    );
    assert_eq!(driver.control().phase, DriverPhase::Terminal);
    assert_eq!(driver.control().sender.phase(), ControlSendPhase::Terminal);
    assert!(matches!(driver.control().receiver, ControlReceiveState::Terminal));
    assert_eq!(
        driver.control().poll_step(),
        Err(ConnectionDriverError::State(ConnectionDriverStateError::Terminal))
    );
    assert_eq!(
        open(&mut driver, open_request(DeliveryMode::ReliableOrdered, 2), None),
        Err(ConnectionDriverError::State(ConnectionDriverStateError::Terminal))
    );
}

#[test]
fn the_end_of_the_control_stream_is_a_failure_unless_the_peer_closed_without_error() {
    let no_error = ConnectionFailure::ApplicationClosed(ApplicationErrorCode::NoError.wire());
    let end = || ProfileBootstrapError::Frame(ControlFrameError::EndOfStream);
    for (reason, expected, closes) in [
        (Some(no_error), ProfileBootstrapError::Connection(no_error), false),
        (None, end(), true),
        (Some(ConnectionFailure::ApplicationClosed(1)), end(), true),
        (Some(ConnectionFailure::TimedOut), end(), true),
    ] {
        let (mut driver, receiver) = started(1);
        let storage = driver.reserve();
        let output = driver.control_received(receiver, Err(end()), reason, storage);
        assert_eq!(output.close.is_some(), closes);
        match output.step {
            DriverStep::Error(ConnectionDriverError::ControlReceive(error)) => {
                assert_eq!(error, expected)
            }
            other => panic!("the connection ended, got {other:?}"),
        }
    }
    let (_driver, mut receiver) = started(1);
    let mut read = receiver.begin_receive().unwrap();
    read.feed(&[0x40]).unwrap();
    let truncated = read.read_failed(ReadFailure::FinishedEarly(0));
    assert_eq!(
        normalize_peer_no_error_control_end(truncated, Some(no_error)),
        ProfileBootstrapError::Frame(ControlFrameError::Read(ReadFailure::FinishedEarly(0)))
    );
    assert!(peer_no_error_close_observed(Some(no_error)));
    assert!(!peer_no_error_close_observed(Some(ConnectionFailure::ApplicationClosed(1))));
    assert!(!peer_no_error_close_observed(Some(ConnectionFailure::TimedOut)));
    assert!(!peer_no_error_close_observed(None));
}

#[test]
fn a_send_that_fails_ends_the_driver() {
    let (mut driver, _receiver) = started(1);
    let call = open(&mut driver, open_request(DeliveryMode::ReliableOrdered, 1), None).unwrap();
    let output = driver.control_sent(
        call.sender,
        PendingFlowControlSend::completed(
            call.pending.effect,
            Err(ProfileBootstrapError::Frame(ControlFrameError::Write(
                WriteFailure::ConnectionLost(ConnectionFailure::TimedOut),
            ))),
        ),
    );
    assert!(matches!(
        output.step,
        DriverStep::Error(ConnectionDriverError::ControlSend(_))
    ));
    assert_eq!(output.close, None);
    assert_eq!(driver.control().phase, DriverPhase::Terminal);
}

#[test]
fn a_failed_reliable_flow_is_ended_and_the_connection_goes_on() {
    let (mut driver, _receiver, flow) = with_outbound(DeliveryMode::ReliableOrdered);
    let output = driver.poll_reliable_outbound(
        Err(ReliableIoError::OutboundActiveBinding {
            context: ReliableFailureContext::ResolvedLive { flow_id: flow.flow_id },
            error: SendError::Io(IoFailure::Write),
        }),
        report(),
    );
    let DriverStep::Ask(DriverCall::TerminateFailed(call)) = output.step else {
        panic!("the core ends the flow");
    };
    assert_eq!(call.flow, flow);
    assert_eq!(call.reason, FlowTerminateReason::ReliableDeliveryFailure);
    let ended = termination(flow.key, FlowTerminationReason::Requested);
    let output = driver.failure_terminated(call, Ok(ended));
    assert!(matches!(
        output.step,
        DriverStep::Progress(EstablishedConnectionProgress::FlowFailureHandled { flow_id })
            if flow_id == flow.flow_id
    ));
    let effect = complete(&mut driver, output.send.unwrap());
    assert!(matches!(effect, FlowControlSendEffect::LocalTerminated { .. }));
    assert_eq!(driver.control().phase, DriverPhase::Active);

    let output = driver.poll_reliable_outbound(
        Err(ReliableIoError::OutboundActiveBinding {
            context: ReliableFailureContext::ResolvedDetached {
                flow_id: flow.flow_id,
                key: flow.key,
            },
            error: SendError::Io(IoFailure::Write),
        }),
        report(),
    );
    assert!(matches!(
        output.step,
        DriverStep::Progress(EstablishedConnectionProgress::FlowFailureHandled { .. })
    ));
    assert_eq!(driver.control().phase, DriverPhase::Active);
}

#[test]
fn the_loss_of_the_connection_under_a_stream_ends_the_driver() {
    let (mut driver, _receiver, flow) = with_outbound(DeliveryMode::ReliableOrdered);
    let output = driver.poll_reliable_inbound(
        Err(ReliableIoError::InboundActiveBinding {
            context: ReliableFailureContext::ResolvedLive { flow_id: flow.flow_id },
            error: ReceiveError::Io(IoFailure::ConnectionLost),
        }),
        report(),
    );
    assert!(matches!(
        output.step,
        DriverStep::Error(ConnectionDriverError::Reliable(_))
    ));
    assert_eq!(output.close, None);
    assert_eq!(driver.control().phase, DriverPhase::Terminal);
    let output = started(1).0.poll_reliable_inbound_acquisition(
        Err(ReliableIoError::Connection(ConnectionFailure::TimedOut)),
        report(),
    );
    assert!(matches!(
        output.step,
        DriverStep::Error(ConnectionDriverError::Reliable(_))
    ));
}

#[test]
fn quiet_polls_come_to_what_they_are() {
    let (mut driver, _receiver) = started(1);
    assert!(matches!(
        driver.poll_reliable_outbound_acquisition(Ok(()), report()).step,
        DriverStep::Progress(EstablishedConnectionProgress::ReliableOutboundAcquisition)
    ));
    assert!(matches!(
        driver.poll_reliable_inbound_acquisition(Ok(()), report()).step,
        DriverStep::Progress(EstablishedConnectionProgress::ReliableInboundAcquired)
    ));
    assert!(matches!(
        driver.poll_reliable_outbound(Ok(()), report()).step,
        DriverStep::Progress(EstablishedConnectionProgress::Reliable)
    ));
    assert!(matches!(
        driver.drive_datagram_outbound(Ok(None), report()).step,
        DriverStep::Nothing
    ));
    assert!(matches!(
        driver.poll_datagram_inbound(Ok(DatagramReceiveOutcome::DiscardedUnknownFlow), report()).step,
        DriverStep::Progress(EstablishedConnectionProgress::DatagramInbound(
            DatagramReceiveOutcome::DiscardedUnknownFlow
        ))
    ));
}

#[test]
fn datagrams_are_submitted_by_flow_and_by_key() {
    let (mut driver, _receiver, flow) = with_outbound(DeliveryMode::UnreliableSequenced);
    let SubmitStep::Submit { flow_id, ticket, payload } = driver.submit_unreliable_by_key(
        flow.key,
        b"abc".to_vec(),
        Ok(Some(0)),
        Some(1_200),
        report(),
    ) else {
        panic!("the core is asked");
    };
    assert_eq!((flow_id, payload), (flow.flow_id, b"abc".to_vec()));
    let step = driver.submitted(
        flow_id,
        ticket,
        Ok(SubmissionOutcome::Accepted { accepted_index: 0, local_pressure_drops: 0 }),
        report(),
    );
    assert!(matches!(step, SubmitStep::Submitted(DatagramSubmissionOutcome::Accepted { .. })));
    let stranger = key(FlowDirection::Outbound, 77);
    assert!(matches!(
        driver.submit_unreliable_by_key(stranger, vec![1], Ok(Some(0)), Some(1_200), report()),
        SubmitStep::UnknownFlow { payload } if payload == vec![1]
    ));
    let SubmitStep::Failed(output) =
        driver.submit_unreliable(flow.flow_id, vec![1], Ok(Some(1)), None, report())
    else {
        panic!("the transport carries no datagrams any more");
    };
    assert!(matches!(
        output.step,
        DriverStep::Error(ConnectionDriverError::DatagramProfileUnavailable)
    ));
    assert!(matches!(
        driver.submit_unreliable(flow.flow_id, vec![2], Ok(Some(1)), Some(1_200), report()),
        SubmitStep::Unavailable { error: ConnectionDriverStateError::Terminal, payload, .. }
            if payload == vec![2]
    ));
}

#[test]
fn an_exhausted_sequence_ends_its_flow_normally() {
    let (mut driver, _receiver, flow) = with_outbound(DeliveryMode::UnreliableSequenced);
    let SubmitStep::Failed(output) =
        driver.submit_unreliable(flow.flow_id, vec![1], Ok(Some(1 << 62)), Some(1_200), report())
    else {
        panic!("no sequence number is left");
    };
    let DriverStep::Ask(DriverCall::TerminateFailed(call)) = output.step else {
        panic!("the flow ends, got {:?}", output.step);
    };
    assert_eq!(call.reason, FlowTerminateReason::Normal);
}

#[test]
fn a_datagram_flow_is_finished_by_its_key() {
    let (mut driver, _receiver, flow) = with_outbound(DeliveryMode::UnreliableUnordered);
    let finish = |driver: &EstablishedConnectionDriver, key| {
        driver.request_outbound_finish_normal_by_key(key, flow.mode, None, report())
    };
    assert!(matches!(
        finish(&driver, key(FlowDirection::Outbound, 77)),
        Err(KeyedFinishError::UnknownFlow)
    ));
    let Ok(KeyedFinish::Terminate(call)) = finish(&driver, flow.key) else {
        panic!("the core ends the flow");
    };
    assert_eq!((call.flow, call.reason), (flow, FlowTerminateReason::Normal));
    let ended = termination(flow.key, FlowTerminationReason::Requested);
    let sent = driver.finish_terminated(call, Ok(ended)).unwrap();
    assert!(matches!(
        finish(&driver, flow.key),
        Err(KeyedFinishError::State(ConnectionDriverStateError::ControlSendBusy))
    ));
    assert_eq!(
        complete(&mut driver, sent),
        FlowControlSendEffect::LocalTerminated {
            flow,
            reason: FlowTerminateReason::Normal,
            termination: ended,
        }
    );
    assert!(matches!(
        finish(&driver, flow.key),
        Err(KeyedFinishError::UnknownFlow)
    ));
}

#[test]
fn a_reliable_finish_starts_or_tells_why_not() {
    let (mut driver, _receiver, flow) = with_outbound(DeliveryMode::ReliableOrdered);
    assert!(matches!(
        driver.request_outbound_finish_normal_by_key(
            flow.key,
            flow.mode,
            Some(flow.flow_id),
            report()
        ),
        Ok(KeyedFinish::EndStream(flow_id)) if flow_id == flow.flow_id
    ));
    assert!(matches!(
        driver.request_outbound_finish_normal_by_key(flow.key, flow.mode, None, report()),
        Err(KeyedFinishError::UnknownFlow)
    ));
    assert!(matches!(
        driver.request_outbound_finish_normal(Ok(()), None, report()),
        FinishStep::Started
    ));
    let FinishStep::Failed(output) = driver.request_outbound_finish_normal(
        Err(ReliableIoError::State(ReliableIoStateError::UnknownOutboundFlow)),
        None,
        report(),
    ) else {
        panic!("the flow is unknown");
    };
    assert!(matches!(
        output.step,
        DriverStep::Error(ConnectionDriverError::Reliable(ReliableIoError::State(
            ReliableIoStateError::UnknownOutboundFlow
        )))
    ));
}

#[test]
fn a_datagram_that_ends_the_profile_ends_the_driver() {
    let (mut driver, _receiver, flow) = with_outbound(DeliveryMode::UnreliableUnordered);
    let output = driver.drive_datagram_outbound(
        Err(DatagramIoError::Send {
            flow_id: flow.flow_id,
            error: DatagramSendError::ProfileUnavailable,
        }),
        report(),
    );
    assert!(matches!(output.step, DriverStep::Error(ConnectionDriverError::Datagram(_))));
    assert_eq!(driver.control().phase, DriverPhase::Terminal);
    let call = driver.teardown();
    assert_eq!(call.connection, ConnectionHandle::new(1));
    assert!(!call.release);
}

#[test]
fn an_outbound_datagram_flow_needs_the_transport() {
    let (mut driver, _receiver) = started(1);
    assert_eq!(
        open(&mut driver, open_request(DeliveryMode::UnreliableUnordered, 1), None),
        Err(ConnectionDriverError::OutboundOpen(OutboundOpenError::DatagramUnavailable))
    );
    assert_eq!(driver.control().phase, DriverPhase::Terminal);
}

#[test]
fn a_granted_flow_without_room_is_ended_again() {
    let (mut driver, receiver) = started(1);
    let call = open(&mut driver, open_request(DeliveryMode::ReliableOrdered, 1), None).unwrap();
    complete(&mut driver, call);
    let output = receive(&mut driver, receiver, accept_frame(flow_id()));
    assert!(matches!(output.step, DriverStep::Ask(DriverCall::Establish(_))));
    let mut storage = driver.reserve();
    storage.flow.active = Err(Vec::<u8>::new().try_reserve(usize::MAX).unwrap_err());
    let output = driver.flow_established(flow_id(), Ok(()), storage);
    let DriverStep::Ask(DriverCall::RollBack(rollback)) = output.step else {
        panic!("the core ends the flow again");
    };
    let ended = termination(rollback.key, FlowTerminationReason::Requested);
    let storage = driver.reserve();
    let output = driver.flow_rolled_back(rollback, Ok(ended), storage);
    assert!(matches!(
        output.step,
        DriverStep::Progress(EstablishedConnectionProgress::ControlSendStarted)
    ));
    assert!(matches!(
        complete(&mut driver, output.send.unwrap()),
        FlowControlSendEffect::OutboundFailedAfterAccept { termination: Some(told), .. }
            if told == ended
    ));
}

#[test]
fn a_report_without_memory_ends_the_driver() {
    let (mut driver, _receiver, flow) = with_outbound(DeliveryMode::UnreliableUnordered);
    let refused = || Vec::<u8>::new().try_reserve(usize::MAX).unwrap_err();
    assert!(matches!(
        driver.request_outbound_finish_normal_by_key(flow.key, flow.mode, None, Err(refused())),
        Err(KeyedFinishError::Driver(ConnectionDriverError::FailurePreparation(
            FlowControlError::Allocation(_)
        )))
    ));
    let output = driver.drive_datagram_outbound(
        Err(DatagramIoError::Send {
            flow_id: flow.flow_id,
            error: DatagramSendError::AllocationFailed,
        }),
        Err(refused()),
    );
    assert!(matches!(
        output.step,
        DriverStep::Error(ConnectionDriverError::FailurePreparation(FlowControlError::Allocation(
            _
        )))
    ));
    assert_eq!(driver.control().phase, DriverPhase::Terminal);
}

#[test]
fn stream_failures_are_told_apart() {
    let (mut driver, _receiver, flow) = with_outbound(DeliveryMode::ReliableOrdered);
    let output = driver.poll_reliable_outbound_acquisition(
        Err(ReliableIoError::OutboundAcquisitionBinding {
            flow_id: flow.flow_id,
            error: SendError::AcceptedIndexExhausted,
        }),
        report(),
    );
    let DriverStep::Ask(DriverCall::TerminateFailed(call)) = output.step else {
        panic!("the flow ends");
    };
    assert_eq!(call.reason, FlowTerminateReason::ProtocolFailure);

    let (mut driver, _receiver) = started(1);
    let output = driver.poll_reliable_inbound_acquisition(
        Err(ReliableIoError::InboundConstruction(ReceiveError::ZeroRtt)),
        report(),
    );
    assert_eq!(
        output.close,
        Some(CloseOrder {
            code: ApplicationErrorCode::ProfileProtocolError,
            reason: CloseReason::EstablishedData,
        })
    );
    assert_eq!(driver.control().phase, DriverPhase::Terminal);

    let (mut driver, _receiver) = started(1);
    let refused = Vec::<u8>::new().try_reserve(usize::MAX).unwrap_err();
    let output = driver
        .poll_reliable_inbound_acquisition(Err(ReliableIoError::Allocation(refused)), report());
    assert_eq!(
        output.close.map(|order| order.code),
        Some(ApplicationErrorCode::ResourceLimitError)
    );

    let (mut driver, _receiver, flow) = with_outbound(DeliveryMode::ReliableOrdered);
    let error = || ReliableIoError::OutboundFinish {
        flow_id: flow.flow_id,
        error: SendError::PendingData,
    };
    assert!(matches!(
        driver.request_outbound_finish_normal(Err(error()), None, report()),
        FinishStep::Failed(DriverOutput {
            step: DriverStep::Error(ConnectionDriverError::Reliable(_)),
            ..
        })
    ));
    assert_eq!(driver.control().phase, DriverPhase::Active);
    let disposition = EstablishedDataFailureDisposition::TerminateAndReport {
        flow_id: flow.flow_id,
        reason: FlowTerminateReason::ReliableDeliveryFailure,
    };
    assert!(matches!(
        driver.request_outbound_finish_normal(Err(error()), Some(disposition), report()),
        FinishStep::Failed(DriverOutput {
            step: DriverStep::Ask(DriverCall::TerminateFailed(_)),
            ..
        })
    ));
}

#[test]
fn a_decision_that_does_not_fit_ends_the_driver() {
    let (mut driver, receiver) = started(128 * 1024);
    let first = FlowId::new(WireSide::Server, 0).unwrap();
    let output =
        receive(&mut driver, receiver, open_frame(first, DeliveryMode::UnreliableUnordered, 64));
    let DriverStep::Progress(EstablishedConnectionProgress::InboundOpen(request)) = output.step
    else {
        panic!("the host decides");
    };
    let admission = InboundAdmission {
        key: key(FlowDirection::Outbound, 9),
        policy: policy(64),
        connection_limits: limits(),
    };
    assert!(matches!(
        driver.accept_inbound(request, admission, Ok(()), report()),
        Err(InboundDecisionDriverError::Driver(ConnectionDriverError::InboundAdmission(
            InboundAdmissionError::WrongDirection(FlowDirection::Outbound)
        )))
    ));
    assert_eq!(driver.control().phase, DriverPhase::Terminal);
}

#[test]
fn a_submission_to_another_flow_fails_and_the_driver_goes_on() {
    let (mut driver, _receiver, flow) = with_outbound(DeliveryMode::ReliableOrdered);
    let SubmitStep::Failed(output) =
        driver.submit_unreliable(flow.flow_id, vec![1], Ok(None), Some(1_200), report())
    else {
        panic!("the flow is reliable");
    };
    assert!(matches!(
        output.step,
        DriverStep::Error(ConnectionDriverError::DatagramSubmission(
            DatagramSubmissionError::ReliableFlow
        ))
    ));
    assert_eq!(driver.control().phase, DriverPhase::Active);
}
