//! How reliable streams fail: the vocabulary that a connection shares with the host's
//! stream bindings.

use std::collections::TryReserveError;

use vstd::prelude::*;

use crate::control::ConnectionFailure;
use crate::delivery::{
    CustodyCommitError, DeliveryFlowKey, DeliveryOperationError, ReceiveOutcome,
};
use crate::registry::RegistryError;
use crate::varint::VarIntDecodeError;
use crate::wire::{FlowId, FlowIdError};

verus! {

/// Why a stream stopped.
#[derive(Debug, Clone, Copy, PartialEq, Eq, Structural)]
pub enum IoFailure {
    ConnectionLost,
    Write,
    Read,
}

/// Why the start of a stream names no flow.
#[derive(Debug, Clone, Copy, PartialEq, Eq, Structural)]
pub enum PrefixError {
    VarInt(VarIntDecodeError),
    FlowId(FlowIdError),
}

/// Why a message is not framed.
#[derive(Debug, Clone, Copy, PartialEq, Eq, Structural)]
pub enum ReliableFrameError {
    VarInt(VarIntDecodeError),
    StagingLimitExceeded { needed: u64, limit: usize },
    AllocationFailed,
    TruncatedFrame,
}

/// Why a reliable flow does not send on.
#[derive(Debug, Clone, Copy, PartialEq, Eq, Structural)]
pub enum SendError {
    Registry(RegistryError),
    Framing(ReliableFrameError),
    UnexpectedAcceptedIndex { expected: u64, actual: u64 },
    AcceptedIndexExhausted,
    Core(DeliveryOperationError),
    Custody(CustodyCommitError),
    InvalidWriteCount,
    WriteZero,
    Io(IoFailure),
    PendingData,
    AlreadyFinishing,
    Terminal,
}

/// Why a reliable flow does not receive on.
#[derive(Debug, Clone, Copy, PartialEq, Eq, Structural)]
pub enum ReceiveError {
    Registry(RegistryError),
    Prefix(PrefixError),
    ZeroRtt,
    TruncatedAssociation,
    AllocationFailed,
    Framing(ReliableFrameError),
    Core(DeliveryOperationError),
    Io(IoFailure),
    AdapterStagingBelowFlowMaximum { staging: usize, flow_max: usize },
    AcceptedIndexExhausted,
    UnexpectedCoreOutcome(ReceiveOutcome),
    Terminal,
}

/// What was known of a stream's flow when the stream failed.
#[derive(Debug, Clone, Copy, PartialEq, Eq, Structural)]
pub enum ReliableFailureContext {
    /// The stream named no flow yet.
    Unresolved,
    /// The flow was no longer established.
    ResolvedDetached { flow_id: FlowId, key: DeliveryFlowKey },
    /// The flow was established.
    ResolvedLive { flow_id: FlowId },
}

/// Why the host's bindings refused an operation.
#[derive(Debug, Clone, Copy, PartialEq, Eq, Structural)]
pub enum ReliableIoStateError {
    OutboundAcquisitionPending,
    UnknownOutboundFlow,
    /// Any other refusal, by the host's own number.
    Other(u32),
}

/// How the host's bindings failed.
#[allow(inconsistent_fields)]
#[derive(Debug, PartialEq, Eq)]
pub enum ReliableIoError {
    State(ReliableIoStateError),
    Allocation(TryReserveError),
    Connection(ConnectionFailure),
    OutboundFinish { flow_id: FlowId, error: SendError },
    OutboundAcquisitionBinding { flow_id: FlowId, error: SendError },
    OutboundActiveBinding { context: ReliableFailureContext, error: SendError },
    InboundConstruction(ReceiveError),
    InboundActiveBinding { context: ReliableFailureContext, error: ReceiveError },
}

} // verus!
