//! The delivery vocabulary that a connection shares with the host's delivery core:
//! what names a flow, how it delivers, what it may hold, and what the core answers.

use vstd::prelude::*;

verus! {

/// One local lifetime of a transport connection. It has no meaning on the wire.
#[derive(Debug, Clone, Copy, PartialEq, Eq, Hash, Structural)]
pub struct ConnectionHandle {
    pub value: u64,
}

impl ConnectionHandle {
    pub fn new(value: u64) -> (handle: Self)
        ensures
            handle.value == value,
    {
        ConnectionHandle { value }
    }
}

/// The host's own number for a flow of one connection and direction.
#[derive(Debug, Clone, Copy, PartialEq, Eq, Hash, Structural)]
pub struct DeliveryFlowHandle {
    pub value: u64,
}

impl DeliveryFlowHandle {
    pub fn new(value: u64) -> (handle: Self)
        ensures
            handle.value == value,
    {
        DeliveryFlowHandle { value }
    }
}

/// Which way messages travel on a flow, seen from this side.
#[derive(Debug, Clone, Copy, PartialEq, Eq, Hash, Structural)]
pub enum FlowDirection {
    Outbound,
    Inbound,
}

/// What names one flow to the host's delivery core.
#[derive(Debug, Clone, Copy, PartialEq, Eq, Hash, Structural)]
pub struct DeliveryFlowKey {
    pub connection: ConnectionHandle,
    pub direction: FlowDirection,
    pub handle: DeliveryFlowHandle,
}

impl DeliveryFlowKey {
    pub fn new(
        connection: ConnectionHandle,
        direction: FlowDirection,
        handle: DeliveryFlowHandle,
    ) -> (key: Self)
        ensures
            key == (DeliveryFlowKey { connection, direction, handle }),
    {
        DeliveryFlowKey { connection, direction, handle }
    }
}

/// How a flow delivers its messages.
#[derive(Debug, Clone, Copy, PartialEq, Eq, Hash, Structural)]
pub enum DeliveryMode {
    /// Every message, once, in the order of submission.
    ReliableOrdered,
    /// Any message may be lost or overtaken.
    UnreliableUnordered,
    /// Any message may be lost, and a message that was overtaken is stale.
    UnreliableSequenced,
}

/// What the core does with a submission that does not fit.
#[derive(Debug, Clone, Copy, PartialEq, Eq, Structural)]
pub enum OutboundPressureBehavior {
    RejectNew,
    EvictOldestUnreliable,
}

/// What the core does with an arrival that does not fit.
#[derive(Debug, Clone, Copy, PartialEq, Eq, Structural)]
pub enum ReceiverPressureBehavior {
    TerminateReliable,
    DropIncomingUnreliable,
}

/// What one flow may hold.
#[derive(Debug, Clone, Copy, PartialEq, Eq, Structural)]
pub struct FlowResourcePolicy {
    pub max_message_bytes: usize,
    pub max_pending_messages: usize,
    pub max_pending_payload_bytes: usize,
    pub outbound_pressure: OutboundPressureBehavior,
    pub receiver_pressure: ReceiverPressureBehavior,
}

/// What all flows of one scope may hold together.
#[derive(Debug, Clone, Copy, PartialEq, Eq, Structural)]
pub struct DeliveryScopeLimits {
    pub max_active_flows: usize,
    pub max_pending_messages: usize,
    pub max_pending_payload_bytes: usize,
}

/// Why the core ended a flow.
#[derive(Debug, Clone, Copy, PartialEq, Eq, Structural)]
pub enum FlowTerminationReason {
    Requested,
    ConnectionEnded,
}

/// What the core reports of a flow that it ended.
#[derive(Debug, Clone, Copy, PartialEq, Eq, Structural)]
pub struct FlowTermination {
    pub key: DeliveryFlowKey,
    pub reason: FlowTerminationReason,
    pub pending_messages: usize,
    pub reliable_obligation_failed: bool,
}

/// The core's refusal of a policy for a delivery mode, by the host's own number.
#[derive(Debug, Clone, Copy, PartialEq, Eq, Structural)]
pub struct DeliveryPolicyError {
    pub code: u32,
}

/// The core's refusal to establish a flow.
#[derive(Debug, Clone, Copy, PartialEq, Eq, Structural)]
pub enum FlowEstablishmentError {
    /// A scope has no room for another active flow.
    ActiveFlowLimitExceeded,
    /// Any other refusal, by the host's own number.
    Other(u32),
}

/// The core's refusal of an operation on a flow.
#[derive(Debug, Clone, Copy, PartialEq, Eq, Structural)]
pub enum DeliveryOperationError {
    UnknownFlow,
    /// Any other refusal, by the host's own number.
    Other(u32),
}

/// The core's refusal to hand over a message that was taken for sending, by the host's
/// own number.
#[derive(Debug, Clone, Copy, PartialEq, Eq, Structural)]
pub struct CustodyCommitError {
    pub code: u32,
}

/// The core's answer to a submission.
#[derive(Debug, Clone, Copy, PartialEq, Eq, Structural)]
pub enum SubmissionOutcome {
    Accepted { accepted_index: u64, local_pressure_drops: usize },
    RejectedTooLarge,
    RejectedPressure,
    RejectedCounterExhausted,
}

/// The core's answer to an arrival.
#[derive(Debug, Clone, Copy, PartialEq, Eq, Structural)]
pub enum ReceiveOutcome {
    Buffered { local_pressure_drops: usize },
    DroppedByPressure { local_pressure_drops: usize },
    StaleSequenced,
    TerminalReliableFailure,
}

/// The message at the front of a flow that waits to be sent.
#[derive(Debug, Clone, Copy, PartialEq, Eq, Structural)]
pub struct OutboundTransfer {
    pub mode: DeliveryMode,
    pub accepted_index: u64,
    pub payload_len: usize,
}

} // verus!
