//! Unreliable messages in QUIC datagrams: the envelope, what may be submitted and sent,
//! and where an arrival goes.

use vstd::prelude::*;

use crate::delivery::{
    CustodyCommitError, DeliveryFlowKey, DeliveryMode, DeliveryOperationError, FlowDirection,
    OutboundTransfer, ReceiveOutcome, SubmissionOutcome,
};
use crate::registry::{AcceptedFlowRegistry, RegisteredFlow};
use crate::storage::{fresh, ByteStorage};
use crate::varint::{
    encode_varint, lemma_split_written, read_varint, split_varint, varint_bytes, varint_len,
    VarIntDecodeError, VarIntEncodeError, MAX_VARINT,
};
use crate::wire::{FlowId, FlowIdError};

verus! {

/// The index of every arrival on a flow without an order.
pub const UNORDERED_INGRESS_INDEX: u64 = 0;

/// Why the transport did not take a datagram.
#[derive(Debug, Clone, Copy, PartialEq, Eq, Structural)]
pub enum DatagramTransportError {
    TooLarge,
    UnsupportedByPeer,
    Disabled,
    ConnectionLost,
}

/// What the transport can take at this moment.
#[derive(Debug, Clone, Copy, PartialEq, Eq, Structural)]
pub struct TransportWindow {
    /// The largest datagram, or nothing where datagrams cannot be sent.
    pub max_datagram_size: Option<usize>,
    /// The room left in the send buffer.
    pub send_buffer_space: usize,
}

/// What became of a submission.
#[derive(Debug, Clone, Copy, PartialEq, Eq, Structural)]
pub enum DatagramSubmissionOutcome {
    Accepted { accepted_index: u64, local_pressure_drops: usize },
    RejectedTooLarge,
    RejectedPressure,
    RejectedCounterExhausted,
    RejectedTransportUnavailable,
    RejectedCurrentDatagramSize,
}

/// Why a submission failed.
#[derive(Debug, Clone, Copy, PartialEq, Eq, Structural)]
pub enum DatagramSubmissionError {
    UnknownFlowId,
    WrongDirection,
    ReliableFlow,
    Core(DeliveryOperationError),
    Wire(VarIntEncodeError),
    LengthOverflow,
    SequenceExhausted,
    AcceptedIndexMismatch { expected: u64, accepted: u64 },
}

/// What became of an attempt to send.
#[derive(Debug, Clone, Copy, PartialEq, Eq, Structural)]
pub enum DatagramSendProgress {
    Idle,
    BlockedNativeBuffer { needed: usize, available: usize },
    Enqueued { accepted_index: u64 },
    DroppedTransport { accepted_index: u64 },
}

/// Why an attempt to send failed.
#[derive(Debug, Clone, Copy, PartialEq, Eq, Structural)]
pub enum DatagramSendError {
    UnknownFlowId,
    WrongDirection,
    ReliableFlow,
    Core(DeliveryOperationError),
    Custody(CustodyCommitError),
    Wire(VarIntEncodeError),
    LengthOverflow,
    SequenceExhausted,
    ModeMismatch,
    PayloadExceedsProfile,
    AllocationFailed,
    ProfileUnavailable,
    ConnectionLost,
}

/// Why a flow cannot be used for outbound datagrams.
#[derive(Debug, Clone, Copy, PartialEq, Eq, Structural)]
pub enum RegistrationUseError {
    UnknownFlowId,
    WrongDirection,
    ReliableFlow,
}

/// The flow, where it is established for outbound datagrams.
pub open spec fn outbound_unreliable(found: Option<RegisteredFlow>) -> Result<
    RegisteredFlow,
    RegistrationUseError,
> {
    match found {
        None => Err(RegistrationUseError::UnknownFlowId),
        Some(flow) => if flow.key.direction != FlowDirection::Outbound {
            Err(RegistrationUseError::WrongDirection)
        } else if flow.mode == DeliveryMode::ReliableOrdered {
            Err(RegistrationUseError::ReliableFlow)
        } else {
            Ok(flow)
        },
    }
}

pub fn registered_outbound_unreliable(registry: &AcceptedFlowRegistry, flow_id: FlowId) -> (flow:
    Result<RegisteredFlow, RegistrationUseError>)
    ensures
        flow == outbound_unreliable(registry.find(flow_id)),
{
    match registry.registered_flow(flow_id) {
        None => Err(RegistrationUseError::UnknownFlowId),
        Some(flow) => if flow.key.direction != FlowDirection::Outbound {
            Err(RegistrationUseError::WrongDirection)
        } else if flow.mode == DeliveryMode::ReliableOrdered {
            Err(RegistrationUseError::ReliableFlow)
        } else {
            Ok(flow)
        },
    }
}

/// What a submission reports for a flow that cannot be used.
pub open spec fn submission_use_error(error: RegistrationUseError) -> DatagramSubmissionError {
    match error {
        RegistrationUseError::UnknownFlowId => DatagramSubmissionError::UnknownFlowId,
        RegistrationUseError::WrongDirection => DatagramSubmissionError::WrongDirection,
        RegistrationUseError::ReliableFlow => DatagramSubmissionError::ReliableFlow,
    }
}

pub fn map_registration_submission_error(error: RegistrationUseError) -> (mapped:
    DatagramSubmissionError)
    ensures
        mapped == submission_use_error(error),
{
    match error {
        RegistrationUseError::UnknownFlowId => DatagramSubmissionError::UnknownFlowId,
        RegistrationUseError::WrongDirection => DatagramSubmissionError::WrongDirection,
        RegistrationUseError::ReliableFlow => DatagramSubmissionError::ReliableFlow,
    }
}

/// What an attempt to send reports for a flow that cannot be used.
pub open spec fn send_use_error(error: RegistrationUseError) -> DatagramSendError {
    match error {
        RegistrationUseError::UnknownFlowId => DatagramSendError::UnknownFlowId,
        RegistrationUseError::WrongDirection => DatagramSendError::WrongDirection,
        RegistrationUseError::ReliableFlow => DatagramSendError::ReliableFlow,
    }
}

pub fn map_registration_send_error(error: RegistrationUseError) -> (mapped: DatagramSendError)
    ensures
        mapped == send_use_error(error),
{
    match error {
        RegistrationUseError::UnknownFlowId => DatagramSendError::UnknownFlowId,
        RegistrationUseError::WrongDirection => DatagramSendError::WrongDirection,
        RegistrationUseError::ReliableFlow => DatagramSendError::ReliableFlow,
    }
}

/// The envelope in front of a payload: the flow, and on a sequenced flow the index.
pub open(crate) spec fn envelope(flow_id: FlowId, mode: DeliveryMode, sequence: Option<u64>) -> Seq<
    u8,
> {
    let flow = varint_bytes(flow_id.spec_value() as nat);
    if mode == DeliveryMode::UnreliableSequenced && sequence is Some {
        flow + varint_bytes(sequence->0 as nat)
    } else {
        flow
    }
}

/// How many bytes the envelope takes.
pub open(crate) spec fn envelope_len(
    flow_id: FlowId,
    mode: DeliveryMode,
    sequence: Option<u64>,
) -> nat {
    if mode == DeliveryMode::UnreliableSequenced && sequence is Some {
        varint_len(flow_id.spec_value() as nat) + varint_len(sequence->0 as nat)
    } else {
        varint_len(flow_id.spec_value() as nat)
    }
}

/// The length of a datagram, or what stands against it.
pub open(crate) spec fn wire_length(
    flow_id: FlowId,
    mode: DeliveryMode,
    sequence: Option<u64>,
    payload_len: nat,
) -> Result<usize, DatagramSubmissionError> {
    if mode == DeliveryMode::ReliableOrdered {
        Err(DatagramSubmissionError::ReliableFlow)
    } else if mode == DeliveryMode::UnreliableSequenced && sequence is None {
        Err(DatagramSubmissionError::LengthOverflow)
    } else if mode == DeliveryMode::UnreliableSequenced && sequence->0 > MAX_VARINT {
        Err(DatagramSubmissionError::SequenceExhausted)
    } else if envelope_len(flow_id, mode, sequence) + payload_len > usize::MAX {
        Err(DatagramSubmissionError::LengthOverflow)
    } else {
        Ok((envelope_len(flow_id, mode, sequence) + payload_len) as usize)
    }
}

/// The same length, with the error that sending reports.
pub open(crate) spec fn send_length(
    flow_id: FlowId,
    mode: DeliveryMode,
    sequence: Option<u64>,
    payload_len: nat,
) -> Result<usize, DatagramSendError> {
    match wire_length(flow_id, mode, sequence, payload_len) {
        Ok(length) => Ok(length),
        Err(DatagramSubmissionError::ReliableFlow) => Err(DatagramSendError::ReliableFlow),
        Err(DatagramSubmissionError::SequenceExhausted) => Err(
            DatagramSendError::SequenceExhausted,
        ),
        Err(_) => Err(DatagramSendError::LengthOverflow),
    }
}

/// The length of the encoding of an integer.
fn encoded_len(value: u64) -> (len: Result<usize, VarIntEncodeError>)
    ensures
        value <= MAX_VARINT ==> len is Ok && len->Ok_0 == varint_len(value as nat),
        value > MAX_VARINT ==> len == Err::<usize, _>(VarIntEncodeError::OutOfRange(value)),
{
    match encode_varint(value) {
        Ok(encoded) => {
            proof {
                lemma_split_written(value, Seq::empty());
            }
            Ok(encoded.len())
        },
        Err(error) => Err(error),
    }
}

/// How long the datagram of a message is.
pub fn datagram_len(
    flow_id: FlowId,
    mode: DeliveryMode,
    sequence: Option<u64>,
    payload_len: usize,
) -> (length: Result<usize, DatagramSubmissionError>)
    ensures
        length == wire_length(flow_id, mode, sequence, payload_len as nat),
        length matches Ok(length) ==> length > 0,
{
    let flow_len: usize = match encoded_len(flow_id.value()) {
        Ok(len) => len,
        Err(error) => return Err(DatagramSubmissionError::Wire(error)),
    };
    let sequence_len: usize = match mode {
        DeliveryMode::UnreliableUnordered => 0,
        DeliveryMode::UnreliableSequenced => {
            let sequence: u64 = match sequence {
                Some(sequence) => sequence,
                None => return Err(DatagramSubmissionError::LengthOverflow),
            };
            if sequence > MAX_VARINT {
                return Err(DatagramSubmissionError::SequenceExhausted);
            }
            match encoded_len(sequence) {
                Ok(len) => len,
                Err(error) => return Err(DatagramSubmissionError::Wire(error)),
            }
        },
        DeliveryMode::ReliableOrdered => return Err(DatagramSubmissionError::ReliableFlow),
    };
    match (flow_len + sequence_len).checked_add(payload_len) {
        Some(length) => Ok(length),
        None => Err(DatagramSubmissionError::LengthOverflow),
    }
}

/// How long the datagram of a message is, where it is about to be sent.
pub fn datagram_len_for_send(
    flow_id: FlowId,
    mode: DeliveryMode,
    sequence: Option<u64>,
    payload_len: usize,
) -> (length: Result<usize, DatagramSendError>)
    ensures
        length == send_length(flow_id, mode, sequence, payload_len as nat),
        length matches Ok(length) ==> length > 0,
{
    match datagram_len(flow_id, mode, sequence, payload_len) {
        Ok(length) => Ok(length),
        Err(DatagramSubmissionError::ReliableFlow) => Err(DatagramSendError::ReliableFlow),
        Err(DatagramSubmissionError::SequenceExhausted) => Err(
            DatagramSendError::SequenceExhausted,
        ),
        Err(_) => Err(DatagramSendError::LengthOverflow),
    }
}

/// Writes a message into the room that was made for its datagram.
pub fn encode_datagram(
    flow_id: FlowId,
    mode: DeliveryMode,
    sequence: Option<u64>,
    payload: &[u8],
    storage: ByteStorage,
) -> (datagram: Result<Vec<u8>, DatagramSendError>)
    requires
        fresh(storage),
    ensures
        match send_length(flow_id, mode, sequence, payload@.len()) {
            Err(error) => datagram == Err::<Vec<u8>, _>(error),
            Ok(length) => match storage {
                Err(_) => datagram == Err::<Vec<u8>, _>(DatagramSendError::AllocationFailed),
                Ok(_) => {
                    &&& datagram is Ok
                    &&& datagram->Ok_0@ == envelope(flow_id, mode, sequence) + payload@
                    &&& datagram->Ok_0@.len() == length
                },
            },
        },
{
    if let Err(error) = datagram_len_for_send(flow_id, mode, sequence, payload.len()) {
        return Err(error);
    }
    let mut datagram: Vec<u8> = match storage {
        Ok(bytes) => bytes,
        Err(_) => return Err(DatagramSendError::AllocationFailed),
    };
    proof {
        use_type_invariant(&flow_id);
        lemma_split_written(flow_id.spec_value(), Seq::empty());
        if sequence is Some && sequence->0 <= MAX_VARINT {
            lemma_split_written(sequence->0, Seq::empty());
        }
    }
    match encode_varint(flow_id.value()) {
        Ok(encoded) => datagram.extend_from_slice(encoded.as_slice()),
        Err(error) => return Err(DatagramSendError::Wire(error)),
    }
    proof {
        assert(datagram@ =~= varint_bytes(flow_id.spec_value() as nat));
    }
    if mode == DeliveryMode::UnreliableSequenced {
        let sequence: u64 = match sequence {
            Some(sequence) => sequence,
            None => return Err(DatagramSendError::LengthOverflow),
        };
        match encode_varint(sequence) {
            Ok(encoded) => datagram.extend_from_slice(encoded.as_slice()),
            Err(error) => return Err(DatagramSendError::Wire(error)),
        }
    }
    proof {
        assert(datagram@ =~= envelope(flow_id, mode, sequence));
    }
    datagram.extend_from_slice(payload);
    proof {
        assert(datagram@ =~= envelope(flow_id, mode, sequence) + payload@);
    }
    Ok(datagram)
}

/// A submission that is ready for the core.
#[derive(Debug, Clone, Copy, PartialEq, Eq, Structural)]
pub struct SubmissionTicket {
    pub key: DeliveryFlowKey,
    /// The index that the core has to give, on a sequenced flow.
    pub candidate: Option<u64>,
}

/// What comes next in a submission.
#[derive(Debug, Clone, Copy, PartialEq, Eq, Structural)]
pub enum SubmissionStep {
    Done(DatagramSubmissionOutcome),
    Submit(SubmissionTicket),
}

/// What a submission comes to before the core is asked. `next_index` is the index that the
/// core would give next; it counts on a sequenced flow only.
pub open(crate) spec fn submission_step(
    found: Option<RegisteredFlow>,
    flow_id: FlowId,
    payload_len: nat,
    next_index: Result<Option<u64>, DeliveryOperationError>,
    max_datagram_size: Option<usize>,
) -> Result<SubmissionStep, DatagramSubmissionError> {
    match outbound_unreliable(found) {
        Err(error) => Err(submission_use_error(error)),
        Ok(flow) => if payload_len > flow.max_message_bytes {
            Ok(SubmissionStep::Done(DatagramSubmissionOutcome::RejectedTooLarge))
        } else if flow.mode == DeliveryMode::UnreliableSequenced {
            match next_index {
                Err(error) => Err(DatagramSubmissionError::Core(error)),
                Ok(None) => Ok(
                    SubmissionStep::Done(DatagramSubmissionOutcome::RejectedCounterExhausted),
                ),
                Ok(Some(index)) => sized_submission(
                    flow,
                    flow_id,
                    Some(index),
                    payload_len,
                    max_datagram_size,
                ),
            }
        } else {
            sized_submission(flow, flow_id, None, payload_len, max_datagram_size)
        },
    }
}

/// What a submission comes to once its index is known.
pub open(crate) spec fn sized_submission(
    flow: RegisteredFlow,
    flow_id: FlowId,
    candidate: Option<u64>,
    payload_len: nat,
    max_datagram_size: Option<usize>,
) -> Result<SubmissionStep, DatagramSubmissionError> {
    match wire_length(flow_id, flow.mode, candidate, payload_len) {
        Err(error) => Err(error),
        Ok(length) => match max_datagram_size {
            None => Ok(
                SubmissionStep::Done(DatagramSubmissionOutcome::RejectedTransportUnavailable),
            ),
            Some(max) => if length > max {
                Ok(SubmissionStep::Done(DatagramSubmissionOutcome::RejectedCurrentDatagramSize))
            } else {
                Ok(SubmissionStep::Submit(SubmissionTicket { key: flow.key, candidate }))
            },
        },
    }
}

/// What the core's answer to a submission comes to.
pub open spec fn submission_outcome(
    ticket: SubmissionTicket,
    answer: Result<SubmissionOutcome, DeliveryOperationError>,
) -> Result<DatagramSubmissionOutcome, DatagramSubmissionError> {
    match answer {
        Err(error) => Err(DatagramSubmissionError::Core(error)),
        Ok(SubmissionOutcome::Accepted { accepted_index, local_pressure_drops }) => {
            if ticket.candidate is Some && ticket.candidate->0 != accepted_index {
                Err(
                    DatagramSubmissionError::AcceptedIndexMismatch {
                        expected: ticket.candidate->0,
                        accepted: accepted_index,
                    },
                )
            } else {
                Ok(DatagramSubmissionOutcome::Accepted { accepted_index, local_pressure_drops })
            }
        },
        Ok(SubmissionOutcome::RejectedTooLarge) => Ok(DatagramSubmissionOutcome::RejectedTooLarge),
        Ok(SubmissionOutcome::RejectedPressure) => Ok(DatagramSubmissionOutcome::RejectedPressure),
        Ok(SubmissionOutcome::RejectedCounterExhausted) => Ok(
            DatagramSubmissionOutcome::RejectedCounterExhausted,
        ),
    }
}

/// Whether a datagram can be handed to the transport.
#[derive(Debug, Clone, Copy, PartialEq, Eq, Structural)]
pub enum Fit {
    Unavailable,
    TooLarge,
    Blocked,
    Fits,
}

impl TransportWindow {
    pub open spec fn fit(self, length: usize) -> Fit {
        match self.max_datagram_size {
            None => Fit::Unavailable,
            Some(max) => if length > max {
                Fit::TooLarge
            } else if length > self.send_buffer_space {
                Fit::Blocked
            } else {
                Fit::Fits
            },
        }
    }

    pub fn judge(&self, length: usize) -> (fit: Fit)
        ensures
            fit == self.fit(length),
    {
        match self.max_datagram_size {
            None => Fit::Unavailable,
            Some(max) => if length > max {
                Fit::TooLarge
            } else if length > self.send_buffer_space {
                Fit::Blocked
            } else {
                Fit::Fits
            },
        }
    }
}

/// A message that is about to be sent.
#[derive(Debug, Clone, Copy, PartialEq, Eq, Structural)]
pub struct SendPlan {
    pub flow_id: FlowId,
    pub key: DeliveryFlowKey,
    pub mode: DeliveryMode,
    pub accepted_index: u64,
    pub sequence: Option<u64>,
    pub wire_len: usize,
}

/// A message that the core is to let go of.
#[derive(Debug, Clone, Copy, PartialEq, Eq, Structural)]
pub struct CustodyCommit {
    pub key: DeliveryFlowKey,
    pub accepted_index: u64,
    /// The message was dropped, not handed to the transport.
    pub dropped: bool,
}

/// What comes next in an attempt to send.
#[derive(Debug, Clone, Copy, PartialEq, Eq, Structural)]
pub enum SendStep {
    Done(DatagramSendProgress),
    /// Write the datagram and judge it again.
    Encode(SendPlan),
    /// Hand the datagram to the transport.
    Send(SendPlan),
    /// Have the core let go of the message.
    Commit(CustodyCommit),
}

impl SendPlan {
    /// What a look at the transport leads to, where `next` follows if the datagram fits.
    pub open spec fn judged(self, length: usize, window: TransportWindow, next: SendStep) -> Result<
        SendStep,
        DatagramSendError,
    > {
        match window.fit(length) {
            Fit::Unavailable => Err(DatagramSendError::ProfileUnavailable),
            Fit::TooLarge => Ok(SendStep::Commit(self.commit(true))),
            Fit::Blocked => Ok(
                SendStep::Done(
                    DatagramSendProgress::BlockedNativeBuffer {
                        needed: length,
                        available: window.send_buffer_space,
                    },
                ),
            ),
            Fit::Fits => Ok(next),
        }
    }

    pub open spec fn commit(self, dropped: bool) -> CustodyCommit {
        CustodyCommit { key: self.key, accepted_index: self.accepted_index, dropped }
    }
}

/// The index that goes into the envelope of a message.
pub open spec fn wire_sequence(mode: DeliveryMode, accepted_index: u64) -> Option<u64> {
    if mode == DeliveryMode::UnreliableSequenced {
        Some(accepted_index)
    } else {
        None
    }
}

/// What an attempt to send comes to before the datagram is written. `transfer` is the
/// message at the front of the flow.
pub open(crate) spec fn send_step(
    found: Option<RegisteredFlow>,
    flow_id: FlowId,
    transfer: Result<Option<OutboundTransfer>, DeliveryOperationError>,
    window: TransportWindow,
) -> Result<SendStep, DatagramSendError> {
    match outbound_unreliable(found) {
        Err(error) => Err(send_use_error(error)),
        Ok(flow) => match transfer {
            Err(error) => Err(DatagramSendError::Core(error)),
            Ok(None) => Ok(SendStep::Done(DatagramSendProgress::Idle)),
            Ok(Some(transfer)) => if transfer.mode != flow.mode {
                Err(DatagramSendError::ModeMismatch)
            } else if transfer.payload_len > flow.max_message_bytes {
                Err(DatagramSendError::PayloadExceedsProfile)
            } else {
                let sequence = wire_sequence(flow.mode, transfer.accepted_index);
                match send_length(flow_id, flow.mode, sequence, transfer.payload_len as nat) {
                    Err(error) => Err(error),
                    Ok(wire_len) => {
                        let plan = SendPlan {
                            flow_id,
                            key: flow.key,
                            mode: flow.mode,
                            accepted_index: transfer.accepted_index,
                            sequence,
                            wire_len,
                        };
                        plan.judged(wire_len, window, SendStep::Encode(plan))
                    },
                }
            },
        },
    }
}

/// What the transport's answer comes to.
pub open spec fn sent_step(plan: SendPlan, answer: Result<(), DatagramTransportError>) -> Result<
    SendStep,
    DatagramSendError,
> {
    match answer {
        Ok(()) => Ok(SendStep::Commit(plan.commit(false))),
        Err(DatagramTransportError::TooLarge) => Ok(SendStep::Commit(plan.commit(true))),
        Err(DatagramTransportError::UnsupportedByPeer) => Err(
            DatagramSendError::ProfileUnavailable,
        ),
        Err(DatagramTransportError::Disabled) => Err(DatagramSendError::ProfileUnavailable),
        Err(DatagramTransportError::ConnectionLost) => Err(DatagramSendError::ConnectionLost),
    }
}

/// The one sender of datagrams of a connection.
#[derive(Debug, Clone, Copy, PartialEq, Eq, Structural)]
pub struct DatagramSender {
    pub(crate) outbound_transport_drops: usize,
}

impl DatagramSender {
    pub open(crate) spec fn drops(self) -> usize {
        self.outbound_transport_drops
    }

    pub fn new() -> (sender: Self)
        ensures
            sender.drops() == 0,
    {
        DatagramSender { outbound_transport_drops: 0 }
    }

    /// How many messages were dropped because they had become too large.
    pub fn outbound_transport_drops(&self) -> (drops: usize)
        ensures
            drops == self.drops(),
    {
        self.outbound_transport_drops
    }

    /// Judges a submission before the core is asked to accept it: nothing is submitted
    /// that could not be sent at once.
    pub fn submit(
        &self,
        registry: &AcceptedFlowRegistry,
        flow_id: FlowId,
        payload_len: usize,
        next_index: Result<Option<u64>, DeliveryOperationError>,
        max_datagram_size: Option<usize>,
    ) -> (step: Result<SubmissionStep, DatagramSubmissionError>)
        ensures
            step == submission_step(
                registry.find(flow_id),
                flow_id,
                payload_len as nat,
                next_index,
                max_datagram_size,
            ),
    {
        let flow = match registered_outbound_unreliable(registry, flow_id) {
            Ok(flow) => flow,
            Err(error) => return Err(map_registration_submission_error(error)),
        };
        if payload_len > flow.max_message_bytes {
            return Ok(SubmissionStep::Done(DatagramSubmissionOutcome::RejectedTooLarge));
        }
        let candidate: Option<u64> = match flow.mode {
            DeliveryMode::UnreliableUnordered => None,
            DeliveryMode::UnreliableSequenced => match next_index {
                Err(error) => return Err(DatagramSubmissionError::Core(error)),
                Ok(None) => {
                    return Ok(
                        SubmissionStep::Done(DatagramSubmissionOutcome::RejectedCounterExhausted),
                    )
                },
                Ok(Some(index)) => Some(index),
            },
            DeliveryMode::ReliableOrdered => return Err(DatagramSubmissionError::ReliableFlow),
        };
        let wire_len: usize = match datagram_len(flow_id, flow.mode, candidate, payload_len) {
            Ok(length) => length,
            Err(error) => return Err(error),
        };
        match max_datagram_size {
            None => Ok(
                SubmissionStep::Done(DatagramSubmissionOutcome::RejectedTransportUnavailable),
            ),
            Some(max) => if wire_len > max {
                Ok(SubmissionStep::Done(DatagramSubmissionOutcome::RejectedCurrentDatagramSize))
            } else {
                Ok(SubmissionStep::Submit(SubmissionTicket { key: flow.key, candidate }))
            },
        }
    }

    /// Takes the core's answer to a submission.
    pub fn submitted(
        &self,
        ticket: SubmissionTicket,
        answer: Result<SubmissionOutcome, DeliveryOperationError>,
    ) -> (outcome: Result<DatagramSubmissionOutcome, DatagramSubmissionError>)
        ensures
            outcome == submission_outcome(ticket, answer),
    {
        match answer {
            Err(error) => Err(DatagramSubmissionError::Core(error)),
            Ok(SubmissionOutcome::Accepted { accepted_index, local_pressure_drops }) => {
                if let Some(expected) = ticket.candidate {
                    if accepted_index != expected {
                        return Err(
                            DatagramSubmissionError::AcceptedIndexMismatch {
                                expected,
                                accepted: accepted_index,
                            },
                        );
                    }
                }
                Ok(DatagramSubmissionOutcome::Accepted { accepted_index, local_pressure_drops })
            },
            Ok(SubmissionOutcome::RejectedTooLarge) => Ok(
                DatagramSubmissionOutcome::RejectedTooLarge,
            ),
            Ok(SubmissionOutcome::RejectedPressure) => Ok(
                DatagramSubmissionOutcome::RejectedPressure,
            ),
            Ok(SubmissionOutcome::RejectedCounterExhausted) => Ok(
                DatagramSubmissionOutcome::RejectedCounterExhausted,
            ),
        }
    }

    /// Judges the message at the front of a flow before its datagram is written.
    pub fn drive_one(
        &self,
        registry: &AcceptedFlowRegistry,
        flow_id: FlowId,
        transfer: Result<Option<OutboundTransfer>, DeliveryOperationError>,
        window: TransportWindow,
    ) -> (step: Result<SendStep, DatagramSendError>)
        ensures
            step == send_step(registry.find(flow_id), flow_id, transfer, window),
    {
        let flow = match registered_outbound_unreliable(registry, flow_id) {
            Ok(flow) => flow,
            Err(error) => return Err(map_registration_send_error(error)),
        };
        let transfer = match transfer {
            Err(error) => return Err(DatagramSendError::Core(error)),
            Ok(None) => return Ok(SendStep::Done(DatagramSendProgress::Idle)),
            Ok(Some(transfer)) => transfer,
        };
        if transfer.mode != flow.mode {
            return Err(DatagramSendError::ModeMismatch);
        }
        if transfer.payload_len > flow.max_message_bytes {
            return Err(DatagramSendError::PayloadExceedsProfile);
        }
        let sequence: Option<u64> = match flow.mode {
            DeliveryMode::UnreliableUnordered => None,
            DeliveryMode::UnreliableSequenced => Some(transfer.accepted_index),
            DeliveryMode::ReliableOrdered => return Err(DatagramSendError::ReliableFlow),
        };
        let wire_len: usize = match datagram_len_for_send(
            flow_id,
            flow.mode,
            sequence,
            transfer.payload_len,
        ) {
            Ok(length) => length,
            Err(error) => return Err(error),
        };
        let plan = SendPlan {
            flow_id,
            key: flow.key,
            mode: flow.mode,
            accepted_index: transfer.accepted_index,
            sequence,
            wire_len,
        };
        self.judge(plan, wire_len, window, SendStep::Encode(plan))
    }

    fn judge(&self, plan: SendPlan, length: usize, window: TransportWindow, next: SendStep) -> (step:
        Result<SendStep, DatagramSendError>)
        ensures
            step == plan.judged(length, window, next),
    {
        match window.judge(length) {
            Fit::Unavailable => Err(DatagramSendError::ProfileUnavailable),
            Fit::TooLarge => Ok(
                SendStep::Commit(
                    CustodyCommit {
                        key: plan.key,
                        accepted_index: plan.accepted_index,
                        dropped: true,
                    },
                ),
            ),
            Fit::Blocked => Ok(
                SendStep::Done(
                    DatagramSendProgress::BlockedNativeBuffer {
                        needed: length,
                        available: window.send_buffer_space,
                    },
                ),
            ),
            Fit::Fits => Ok(next),
        }
    }

    /// Judges the datagram once more, now that it is written: the transport may have
    /// changed meanwhile.
    pub fn recheck(&self, plan: SendPlan, datagram: &[u8], window: TransportWindow) -> (step:
        Result<SendStep, DatagramSendError>)
        ensures
            step == plan.judged(datagram@.len() as usize, window, SendStep::Send(plan)),
    {
        self.judge(plan, datagram.len(), window, SendStep::Send(plan))
    }

    /// Takes the transport's answer.
    pub fn sent(&self, plan: SendPlan, answer: Result<(), DatagramTransportError>) -> (step: Result<
        SendStep,
        DatagramSendError,
    >)
        ensures
            step == sent_step(plan, answer),
    {
        match answer {
            Ok(()) => Ok(
                SendStep::Commit(
                    CustodyCommit {
                        key: plan.key,
                        accepted_index: plan.accepted_index,
                        dropped: false,
                    },
                ),
            ),
            Err(DatagramTransportError::TooLarge) => Ok(
                SendStep::Commit(
                    CustodyCommit {
                        key: plan.key,
                        accepted_index: plan.accepted_index,
                        dropped: true,
                    },
                ),
            ),
            Err(DatagramTransportError::UnsupportedByPeer | DatagramTransportError::Disabled) => {
                Err(DatagramSendError::ProfileUnavailable)
            },
            Err(DatagramTransportError::ConnectionLost) => Err(DatagramSendError::ConnectionLost),
        }
    }

    /// Takes the core's answer to letting go of a message. Only a drop that the core took
    /// note of is counted.
    pub fn committed(&mut self, commit: CustodyCommit, answer: Result<(), CustodyCommitError>) -> (progress:
        Result<DatagramSendProgress, DatagramSendError>)
        ensures
            match answer {
                Err(error) => {
                    &&& progress == Err::<DatagramSendProgress, _>(
                        DatagramSendError::Custody(error),
                    )
                    &&& final(self).drops() == old(self).drops()
                },
                Ok(()) => if commit.dropped {
                    &&& progress == Ok::<_, DatagramSendError>(
                        (DatagramSendProgress::DroppedTransport {
                            accepted_index: commit.accepted_index,
                        }),
                    )
                    &&& final(self).drops() == if old(self).drops() == usize::MAX {
                        usize::MAX
                    } else {
                        (old(self).drops() + 1) as usize
                    }
                } else {
                    &&& progress == Ok::<_, DatagramSendError>(
                        (DatagramSendProgress::Enqueued { accepted_index: commit.accepted_index }),
                    )
                    &&& final(self).drops() == old(self).drops()
                },
            },
    {
        if let Err(error) = answer {
            return Err(DatagramSendError::Custody(error));
        }
        if commit.dropped {
            self.outbound_transport_drops = self.outbound_transport_drops.saturating_add(1);
            Ok(DatagramSendProgress::DroppedTransport { accepted_index: commit.accepted_index })
        } else {
            Ok(DatagramSendProgress::Enqueued { accepted_index: commit.accepted_index })
        }
    }
}

/// While the transport is only short of room, a message stays in the core's custody; it
/// is let go of undelivered only where it exceeds the largest datagram.
pub proof fn law_blocked_keeps_custody(
    plan: SendPlan,
    length: usize,
    window: TransportWindow,
    next: SendStep,
)
    requires
        !(next is Commit),
    ensures
        plan.judged(length, window, next) matches Ok(SendStep::Commit(commit)) ==> {
            &&& commit.dropped
            &&& commit.accepted_index == plan.accepted_index
            &&& window.max_datagram_size is Some
            &&& length > window.max_datagram_size->0
        },
        window.max_datagram_size is Some && window.send_buffer_space < length
            <= window.max_datagram_size->0 ==> plan.judged(length, window, next) == Ok::<
            _,
            DatagramSendError,
        >(
            SendStep::Done(
                DatagramSendProgress::BlockedNativeBuffer {
                    needed: length,
                    available: window.send_buffer_space,
                },
            ),
        ),
{
}

/// What may be submitted could be sent at once, were the send buffer free: its datagram
/// has a length that the transport takes.
pub proof fn law_submission_is_sendable(
    found: Option<RegisteredFlow>,
    flow_id: FlowId,
    payload_len: usize,
    next_index: Result<Option<u64>, DeliveryOperationError>,
    max_datagram_size: Option<usize>,
    send_buffer_space: usize,
)
    requires
        submission_step(
            found,
            flow_id,
            payload_len as nat,
            next_index,
            max_datagram_size,
        ) is Ok,
        submission_step(found, flow_id, payload_len as nat, next_index, max_datagram_size)->Ok_0
            is Submit,
    ensures
        ({
            let index = if next_index is Ok && next_index->Ok_0 is Some {
                next_index->Ok_0->0
            } else {
                0
            };
            let transfer = OutboundTransfer {
                mode: found->0.mode,
                accepted_index: index,
                payload_len,
            };
            let step = send_step(
                found,
                flow_id,
                Ok(Some(transfer)),
                TransportWindow { max_datagram_size, send_buffer_space },
            );
            &&& found is Some
            &&& step is Ok
            &&& step->Ok_0 is Encode || step->Ok_0 is Done
            &&& send_buffer_space >= max_datagram_size->0 ==> step->Ok_0 is Encode
        }),
{
}

/// Where an arrival goes.
#[derive(Debug, Clone, Copy, PartialEq, Eq, Structural)]
pub enum DatagramRoute {
    /// To nobody: the flow is not, or no longer, established.
    Discard,
    Deliver { flow_id: FlowId, key: DeliveryFlowKey, accepted_index: u64, payload_offset: usize },
}

/// What became of an arrival.
#[derive(Debug, Clone, Copy, PartialEq, Eq, Structural)]
pub enum DatagramReceiveOutcome {
    DiscardedUnknownFlow,
    Core(ReceiveOutcome),
}

/// Why an arrival is a failure.
#[derive(Debug, Clone, Copy, PartialEq, Eq, Structural)]
pub enum DatagramReceiveError {
    VarInt(VarIntDecodeError),
    FlowId(FlowIdError),
    WrongDirection,
    ReliableFlow,
    PayloadExceedsProfile,
    AllocationFailed,
    Core(DeliveryOperationError),
}

/// A failed arrival, with its flow where that was known.
#[derive(Debug, Clone, Copy, PartialEq, Eq, Structural)]
pub struct DatagramReceiveFailure {
    pub flow_id: Option<FlowId>,
    pub error: DatagramReceiveError,
}

/// A message that arrived.
#[derive(Debug, PartialEq, Eq)]
pub struct DatagramDelivery {
    pub flow_id: FlowId,
    pub key: DeliveryFlowKey,
    pub accepted_index: u64,
    pub payload: Vec<u8>,
}

/// What comes next for an arrival.
#[derive(Debug, PartialEq, Eq)]
pub enum DatagramReceiveStep {
    Done(DatagramReceiveOutcome),
    Deliver(DatagramDelivery),
}

impl DatagramReceiveFailure {
    pub open spec fn unresolved_spec(error: DatagramReceiveError) -> DatagramReceiveFailure {
        DatagramReceiveFailure { flow_id: None, error }
    }

    pub open spec fn resolved_spec(
        flow_id: FlowId,
        error: DatagramReceiveError,
    ) -> DatagramReceiveFailure {
        DatagramReceiveFailure { flow_id: Some(flow_id), error }
    }

    fn unresolved(error: DatagramReceiveError) -> (failure: Self)
        ensures
            failure == DatagramReceiveFailure::unresolved_spec(error),
    {
        DatagramReceiveFailure { flow_id: None, error }
    }

    fn resolved(flow_id: FlowId, error: DatagramReceiveError) -> (failure: Self)
        ensures
            failure == DatagramReceiveFailure::resolved_spec(flow_id, error),
    {
        DatagramReceiveFailure { flow_id: Some(flow_id), error }
    }
}

/// The index and the payload of an arrival on a flow, or why there are none.
pub open spec fn flow_content(flow: RegisteredFlow, rest: Seq<u8>) -> Result<
    (u64, Seq<u8>),
    DatagramReceiveError,
> {
    let content = if flow.mode == DeliveryMode::UnreliableSequenced {
        match split_varint(rest) {
            Ok((sequence, payload)) => Ok((sequence, payload)),
            Err(error) => Err(DatagramReceiveError::VarInt(error)),
        }
    } else {
        Ok((UNORDERED_INGRESS_INDEX, rest))
    };
    match content {
        Err(error) => Err(error),
        Ok((index, payload)) => if payload.len() > flow.max_message_bytes {
            Err(DatagramReceiveError::PayloadExceedsProfile)
        } else {
            Ok((index, payload))
        },
    }
}

/// Where a datagram goes, given the established flows.
pub open(crate) spec fn routed(flows: Map<u64, RegisteredFlow>, datagram: Seq<u8>) -> Result<
    DatagramRoute,
    DatagramReceiveFailure,
> {
    match split_varint(datagram) {
        Err(error) => Err(
            DatagramReceiveFailure::unresolved_spec(DatagramReceiveError::VarInt(error)),
        ),
        Ok((value, rest)) => {
            let flow_id = FlowId { value };
            if !flows.contains_key(value) {
                Ok(DatagramRoute::Discard)
            } else {
                let flow = flows[value];
                if flow.key.direction != FlowDirection::Inbound {
                    Err(
                        DatagramReceiveFailure::resolved_spec(
                            flow_id,
                            DatagramReceiveError::WrongDirection,
                        ),
                    )
                } else if flow.mode == DeliveryMode::ReliableOrdered {
                    Err(
                        DatagramReceiveFailure::resolved_spec(
                            flow_id,
                            DatagramReceiveError::ReliableFlow,
                        ),
                    )
                } else {
                    match flow_content(flow, rest) {
                        Err(error) => Err(
                            DatagramReceiveFailure::resolved_spec(flow_id, error),
                        ),
                        Ok((accepted_index, payload)) => Ok(
                            DatagramRoute::Deliver {
                                flow_id,
                                key: flow.key,
                                accepted_index,
                                payload_offset: (datagram.len() - payload.len()) as usize,
                            },
                        ),
                    }
                }
            }
        },
    }
}

/// Finds out where a datagram goes.
pub fn route_datagram(registry: &AcceptedFlowRegistry, datagram: &[u8]) -> (route: Result<
    DatagramRoute,
    DatagramReceiveFailure,
>)
    ensures
        route == routed(registry@, datagram@),
        route matches Ok(DatagramRoute::Deliver { payload_offset, .. }) ==> payload_offset
            <= datagram@.len(),
{
    proof {
        assert(datagram@.skip(0) =~= datagram@);
    }
    let (flow_value, flow_bytes): (u64, usize) = match read_varint(datagram, 0) {
        Ok(read) => read,
        Err(error) => {
            return Err(DatagramReceiveFailure::unresolved(DatagramReceiveError::VarInt(error)))
        },
    };
    let flow_id = match FlowId::from_wire(flow_value) {
        Ok(flow_id) => flow_id,
        Err(error) => {
            return Err(DatagramReceiveFailure::unresolved(DatagramReceiveError::FlowId(error)))
        },
    };
    let flow = match registry.registered_flow(flow_id) {
        Some(flow) => flow,
        None => return Ok(DatagramRoute::Discard),
    };
    if flow.key.direction != FlowDirection::Inbound {
        return Err(
            DatagramReceiveFailure::resolved(flow_id, DatagramReceiveError::WrongDirection),
        );
    }
    let (accepted_index, payload_offset): (u64, usize) = match flow.mode {
        DeliveryMode::UnreliableUnordered => (UNORDERED_INGRESS_INDEX, flow_bytes),
        DeliveryMode::UnreliableSequenced => match read_varint(datagram, flow_bytes) {
            Ok(read) => read,
            Err(error) => {
                return Err(
                    DatagramReceiveFailure::resolved(flow_id, DatagramReceiveError::VarInt(error)),
                )
            },
        },
        DeliveryMode::ReliableOrdered => {
            return Err(
                DatagramReceiveFailure::resolved(flow_id, DatagramReceiveError::ReliableFlow),
            )
        },
    };
    if datagram.len() - payload_offset > flow.max_message_bytes {
        return Err(
            DatagramReceiveFailure::resolved(
                flow_id,
                DatagramReceiveError::PayloadExceedsProfile,
            ),
        );
    }
    Ok(DatagramRoute::Deliver { flow_id, key: flow.key, accepted_index, payload_offset })
}

/// Takes a datagram apart and copies its payload into the room that was made for it.
pub fn receive_datagram(
    registry: &AcceptedFlowRegistry,
    datagram: &[u8],
    storage: ByteStorage,
) -> (step: Result<DatagramReceiveStep, DatagramReceiveFailure>)
    requires
        fresh(storage),
    ensures
        match routed(registry@, datagram@) {
            Err(failure) => step == Err::<DatagramReceiveStep, _>(failure),
            Ok(DatagramRoute::Discard) => step == Ok::<_, DatagramReceiveFailure>(
                DatagramReceiveStep::Done(DatagramReceiveOutcome::DiscardedUnknownFlow),
            ),
            Ok(DatagramRoute::Deliver { flow_id, key, accepted_index, payload_offset }) => {
                match storage {
                    Err(_) => step == Err::<DatagramReceiveStep, _>(
                        DatagramReceiveFailure::resolved_spec(
                            flow_id,
                            DatagramReceiveError::AllocationFailed,
                        ),
                    ),
                    Ok(_) => step matches Ok(DatagramReceiveStep::Deliver(delivery)) && {
                        &&& delivery.flow_id == flow_id
                        &&& delivery.key == key
                        &&& delivery.accepted_index == accepted_index
                        &&& delivery.payload@ == datagram@.skip(payload_offset as int)
                    },
                }
            },
        },
{
    match route_datagram(registry, datagram) {
        Err(failure) => Err(failure),
        Ok(DatagramRoute::Discard) => Ok(
            DatagramReceiveStep::Done(DatagramReceiveOutcome::DiscardedUnknownFlow),
        ),
        Ok(DatagramRoute::Deliver { flow_id, key, accepted_index, payload_offset }) => {
            let mut payload: Vec<u8> = match storage {
                Ok(bytes) => bytes,
                Err(_) => {
                    return Err(
                        DatagramReceiveFailure::resolved(
                            flow_id,
                            DatagramReceiveError::AllocationFailed,
                        ),
                    )
                },
            };
            let content = vstd::slice::slice_subrange(datagram, payload_offset, datagram.len());
            payload.extend_from_slice(content);
            proof {
                assert(payload@ =~= datagram@.skip(payload_offset as int));
            }
            Ok(
                DatagramReceiveStep::Deliver(
                    DatagramDelivery { flow_id, key, accepted_index, payload },
                ),
            )
        },
    }
}

/// Takes the core's answer to an arrival.
pub fn received(flow_id: FlowId, answer: Result<ReceiveOutcome, DeliveryOperationError>) -> (outcome:
    Result<DatagramReceiveOutcome, DatagramReceiveFailure>)
    ensures
        match answer {
            Ok(answer) => outcome == Ok::<_, DatagramReceiveFailure>(
                DatagramReceiveOutcome::Core(answer),
            ),
            Err(error) => outcome == Err::<DatagramReceiveOutcome, _>(
                DatagramReceiveFailure::resolved_spec(flow_id, DatagramReceiveError::Core(error)),
            ),
        },
{
    match answer {
        Ok(answer) => Ok(DatagramReceiveOutcome::Core(answer)),
        Err(error) => Err(
            DatagramReceiveFailure::resolved(flow_id, DatagramReceiveError::Core(error)),
        ),
    }
}

/// A datagram that was encoded for a flow is delivered on that flow with its payload and,
/// on a sequenced flow, with its index.
pub proof fn law_datagram_round_trip(
    flows: Map<u64, RegisteredFlow>,
    flow_id: FlowId,
    accepted_index: u64,
    payload: Seq<u8>,
)
    requires
        flow_id.wf(),
        flows.contains_key(flow_id.spec_value()),
        flows[flow_id.spec_value()].key.direction == FlowDirection::Inbound,
        flows[flow_id.spec_value()].mode != DeliveryMode::ReliableOrdered,
        payload.len() <= flows[flow_id.spec_value()].max_message_bytes,
        accepted_index <= MAX_VARINT,
    ensures
        ({
            let flow = flows[flow_id.spec_value()];
            let sequence = wire_sequence(flow.mode, accepted_index);
            let datagram = envelope(flow_id, flow.mode, sequence) + payload;
            let offset = envelope(flow_id, flow.mode, sequence).len();
            &&& routed(flows, datagram) == Ok::<_, DatagramReceiveFailure>(
                (DatagramRoute::Deliver {
                    flow_id,
                    key: flow.key,
                    accepted_index: if flow.mode == DeliveryMode::UnreliableSequenced {
                        accepted_index
                    } else {
                        UNORDERED_INGRESS_INDEX
                    },
                    payload_offset: offset as usize,
                }),
            )
            &&& datagram.skip(offset as int) == payload
        }),
{
    let flow = flows[flow_id.spec_value()];
    let value = flow_id.spec_value();
    let sequence = wire_sequence(flow.mode, accepted_index);
    let head = envelope(flow_id, flow.mode, sequence);
    let datagram = head + payload;
    assert(datagram.skip(head.len() as int) =~= payload);
    if flow.mode == DeliveryMode::UnreliableSequenced {
        let tail = varint_bytes(accepted_index as nat) + payload;
        assert(datagram =~= varint_bytes(value as nat) + tail);
        lemma_split_written(value, tail);
        lemma_split_written(accepted_index, payload);
    } else {
        lemma_split_written(value, payload);
    }
}

/// A datagram for a flow that is not established changes nothing: it is discarded,
/// whatever follows the name of the flow.
pub proof fn law_unknown_flow_is_discarded(
    flows: Map<u64, RegisteredFlow>,
    flow_id: FlowId,
    rest: Seq<u8>,
)
    requires
        flow_id.wf(),
        !flows.contains_key(flow_id.spec_value()),
    ensures
        routed(flows, varint_bytes(flow_id.spec_value() as nat) + rest) == Ok::<
            _,
            DatagramReceiveFailure,
        >(DatagramRoute::Discard),
{
    lemma_split_written(flow_id.spec_value(), rest);
}

/// How many bytes stand in front of a message: the number of the flow, and on a sequenced
/// flow the index, each in as few bytes as it takes.
pub open(crate) spec fn overhead(flow_id: FlowId, mode: DeliveryMode, index: u64) -> nat {
    varint_bytes(flow_id.spec_value() as nat).len() + (if mode
        == DeliveryMode::UnreliableSequenced {
        varint_bytes(index as nat).len()
    } else {
        0nat
    })
}

/// A datagram starts with the number of its flow; on a sequenced flow the index follows; the
/// message is what is left. Its length is told beforehand.
pub proof fn law_datagram_layout(
    flow_id: FlowId,
    mode: DeliveryMode,
    index: u64,
    payload: Seq<u8>,
)
    requires
        flow_id.wf(),
        mode != DeliveryMode::ReliableOrdered,
        index <= MAX_VARINT,
        overhead(flow_id, mode, index) + payload.len() <= usize::MAX,
    ensures
        ({
            let sequence = if mode == DeliveryMode::UnreliableSequenced {
                Some(index)
            } else {
                None
            };
            let datagram = envelope(flow_id, mode, sequence) + payload;
            let rest = split_varint(datagram)->Ok_0.1;
            &&& split_varint(datagram) is Ok
            &&& split_varint(datagram)->Ok_0.0 == flow_id.spec_value()
            &&& mode == DeliveryMode::UnreliableSequenced ==> split_varint(rest) == Ok::<
                _,
                VarIntDecodeError,
            >((index, payload))
            &&& mode == DeliveryMode::UnreliableUnordered ==> rest == payload
            &&& datagram.len() == overhead(flow_id, mode, index) + payload.len()
            &&& wire_length(flow_id, mode, sequence, payload.len()) == Ok::<
                _,
                DatagramSubmissionError,
            >(datagram.len() as usize)
            &&& send_length(flow_id, mode, sequence, payload.len()) == Ok::<_, DatagramSendError>(
                datagram.len() as usize,
            )
        }),
{
    let value = flow_id.spec_value();
    if mode == DeliveryMode::UnreliableSequenced {
        let tail = varint_bytes(index as nat) + payload;
        lemma_split_written(value, tail);
        lemma_split_written(index, payload);
        assert(envelope(flow_id, mode, Some(index)) + payload =~= varint_bytes(value as nat)
            + tail);
    } else {
        lemma_split_written(value, payload);
    }
}

/// What is let out to be sent is the message at the front of the flow, under its own index.
/// It is let out exactly where the flow is an established outbound flow of the message's own
/// unreliable mode, the message keeps to the flow's limit, and its datagram fits the largest
/// datagram and the send buffer. A message too large for any datagram is given up under its
/// own index; one that only has to wait stays.
pub proof fn law_messages_are_sent_as_they_are(
    flow: RegisteredFlow,
    flow_id: FlowId,
    transfer: OutboundTransfer,
    window: TransportWindow,
)
    requires
        flow_id.wf(),
        flow.mode == DeliveryMode::UnreliableSequenced ==> transfer.accepted_index <= MAX_VARINT,
    ensures
        ({
            let step = send_step(Some(flow), flow_id, Ok(Some(transfer)), window);
            let length = overhead(flow_id, flow.mode, transfer.accepted_index)
                + transfer.payload_len;
            let usable = flow.key.direction == FlowDirection::Outbound && flow.mode
                != DeliveryMode::ReliableOrdered && transfer.mode == flow.mode
                && transfer.payload_len <= flow.max_message_bytes && length <= usize::MAX;
            let max = window.max_datagram_size;
            &&& (step is Ok && step->Ok_0 is Encode) <==> usable && max is Some && length <= max->0
                && length <= window.send_buffer_space
            &&& step matches Ok(SendStep::Encode(plan)) ==> {
                &&& plan.flow_id == flow_id
                &&& plan.key == flow.key
                &&& plan.mode == transfer.mode
                &&& plan.accepted_index == transfer.accepted_index
                &&& transfer.mode == DeliveryMode::UnreliableSequenced ==> plan.sequence == Some(
                    transfer.accepted_index,
                )
                &&& transfer.mode != DeliveryMode::UnreliableSequenced ==> plan.sequence is None
                &&& plan.wire_len == length
            }
            &&& (step is Ok && step->Ok_0 is Commit) <==> usable && max is Some && length > max->0
            &&& step matches Ok(SendStep::Commit(commit)) ==> {
                &&& commit.key == flow.key
                &&& commit.accepted_index == transfer.accepted_index
                &&& commit.dropped
            }
            &&& (step is Ok && step->Ok_0 is Done) <==> usable && max is Some && length <= max->0
                && length > window.send_buffer_space
            &&& !(step matches Ok(SendStep::Send(_)))
            &&& usable && max is None ==> step == Err::<SendStep, _>(
                DatagramSendError::ProfileUnavailable,
            )
            &&& flow.key.direction != FlowDirection::Outbound ==> step == Err::<SendStep, _>(
                DatagramSendError::WrongDirection,
            )
        }),
{
    lemma_split_written(flow_id.spec_value(), Seq::empty());
    if transfer.accepted_index <= MAX_VARINT {
        lemma_split_written(transfer.accepted_index, Seq::empty());
    }
}

/// The receiver of a datagram is told the flow, the index and the message that the sender's
/// core had at the front: for every message that is let out, on a flow that the receiver has
/// established as an inbound flow of the same mode and at least the same limit.
pub proof fn law_messages_arrive_as_they_are(
    flow: RegisteredFlow,
    flow_id: FlowId,
    transfer: OutboundTransfer,
    window: TransportWindow,
    payload: Seq<u8>,
    flows: Map<u64, RegisteredFlow>,
)
    requires
        flow_id.wf(),
        flow.mode == DeliveryMode::UnreliableSequenced ==> transfer.accepted_index <= MAX_VARINT,
        payload.len() == transfer.payload_len,
        send_step(Some(flow), flow_id, Ok(Some(transfer)), window) is Ok,
        send_step(Some(flow), flow_id, Ok(Some(transfer)), window)->Ok_0 is Encode,
        flows.contains_key(flow_id.spec_value()),
        flows[flow_id.spec_value()].key.direction == FlowDirection::Inbound,
        flows[flow_id.spec_value()].mode == flow.mode,
        flows[flow_id.spec_value()].max_message_bytes >= transfer.payload_len,
    ensures
        ({
            let plan = send_step(Some(flow), flow_id, Ok(Some(transfer)), window)->Ok_0->Encode_0;
            let datagram = envelope(plan.flow_id, plan.mode, plan.sequence) + payload;
            &&& routed(flows, datagram) matches Ok(
                DatagramRoute::Deliver { flow_id: id, key, accepted_index, payload_offset },
            ) && id == flow_id && key == flows[flow_id.spec_value()].key
                && accepted_index == (if flow.mode == DeliveryMode::UnreliableSequenced {
                transfer.accepted_index
            } else {
                0
            }) && payload_offset <= datagram.len() && datagram.skip(payload_offset as int)
                == payload
        }),
{
    law_messages_are_sent_as_they_are(flow, flow_id, transfer, window);
    let index = if flow.mode == DeliveryMode::UnreliableSequenced {
        transfer.accepted_index
    } else {
        0
    };
    law_datagram_layout(flow_id, flow.mode, index, payload);
    let plan = send_step(Some(flow), flow_id, Ok(Some(transfer)), window)->Ok_0->Encode_0;
    let datagram = envelope(plan.flow_id, plan.mode, plan.sequence) + payload;
    assert(FlowId { value: flow_id.spec_value() } == flow_id);
    assert(datagram.skip(datagram.len() - payload.len()) =~= payload);
}

/// A message may be submitted exactly where its flow is an established outbound flow of an
/// unreliable mode, it keeps to the flow's limit, an index is left for it, and its datagram
/// fits the largest datagram. It is submitted on the flow's own key, and a sequenced flow's
/// message has to get the index that the core would give next.
pub proof fn law_submissions_are_judged_by_what_they_are(
    flow: RegisteredFlow,
    flow_id: FlowId,
    payload_len: usize,
    next_index: Result<Option<u64>, DeliveryOperationError>,
    max_datagram_size: Option<usize>,
)
    requires
        flow_id.wf(),
        flow.key.direction == FlowDirection::Outbound,
        flow.mode != DeliveryMode::ReliableOrdered,
    ensures
        ({
            let step = submission_step(
                Some(flow),
                flow_id,
                payload_len as nat,
                next_index,
                max_datagram_size,
            );
            let sequenced = flow.mode == DeliveryMode::UnreliableSequenced;
            let indexed = next_index is Ok && next_index->Ok_0 is Some;
            let index = if sequenced && indexed {
                next_index->Ok_0->0
            } else {
                0
            };
            let length = overhead(flow_id, flow.mode, index) + payload_len;
            let sized = payload_len <= flow.max_message_bytes;
            let countable = sized && (sequenced ==> indexed && index <= MAX_VARINT) && length
                <= usize::MAX;
            &&& (step is Ok && step->Ok_0 is Submit) <==> countable && max_datagram_size is Some
                && length <= max_datagram_size->0
            &&& step matches Ok(SubmissionStep::Submit(ticket)) ==> {
                &&& ticket.key == flow.key
                &&& sequenced ==> ticket.candidate == Some(index)
                &&& !sequenced ==> ticket.candidate is None
            }
            &&& step == Ok::<_, DatagramSubmissionError>(
                SubmissionStep::Done(DatagramSubmissionOutcome::RejectedTooLarge),
            ) <==> !sized
            &&& step == Ok::<_, DatagramSubmissionError>(
                SubmissionStep::Done(DatagramSubmissionOutcome::RejectedCurrentDatagramSize),
            ) <==> countable && max_datagram_size is Some && length > max_datagram_size->0
            &&& step == Ok::<_, DatagramSubmissionError>(
                SubmissionStep::Done(DatagramSubmissionOutcome::RejectedTransportUnavailable),
            ) <==> countable && max_datagram_size is None
            &&& step == Ok::<_, DatagramSubmissionError>(
                SubmissionStep::Done(DatagramSubmissionOutcome::RejectedCounterExhausted),
            ) <==> sized && sequenced && next_index == Ok::<Option<u64>, DeliveryOperationError>(
                None,
            )
            &&& sized && sequenced && indexed && index > MAX_VARINT ==> step == Err::<
                SubmissionStep,
                _,
            >(DatagramSubmissionError::SequenceExhausted)
            &&& sized && sequenced && next_index is Err ==> step == Err::<SubmissionStep, _>(
                DatagramSubmissionError::Core(next_index->Err_0),
            )
        }),
{
    lemma_split_written(flow_id.spec_value(), Seq::empty());
    if next_index is Ok && next_index->Ok_0 is Some && next_index->Ok_0->0 <= MAX_VARINT {
        lemma_split_written(next_index->Ok_0->0, Seq::empty());
    }
    lemma_split_written(0, Seq::empty());
}

/// A flow that is unknown, inbound or reliable takes no submission and sends nothing.
pub proof fn law_other_flows_send_nothing(
    found: Option<RegisteredFlow>,
    flow_id: FlowId,
    payload_len: nat,
    next_index: Result<Option<u64>, DeliveryOperationError>,
    max_datagram_size: Option<usize>,
    transfer: Result<Option<OutboundTransfer>, DeliveryOperationError>,
    window: TransportWindow,
)
    requires
        found is None || found->0.key.direction != FlowDirection::Outbound || found->0.mode
            == DeliveryMode::ReliableOrdered,
    ensures
        submission_step(found, flow_id, payload_len, next_index, max_datagram_size) is Err,
        send_step(found, flow_id, transfer, window) is Err,
        found is None ==> {
            &&& submission_step(found, flow_id, payload_len, next_index, max_datagram_size) == Err::<
                SubmissionStep,
                _,
            >(DatagramSubmissionError::UnknownFlowId)
            &&& send_step(found, flow_id, transfer, window) == Err::<SendStep, _>(
                DatagramSendError::UnknownFlowId,
            )
        },
{
}

/// What the core accepted is reported as it was accepted, unless a sequenced message got
/// another index than it has to; what the core refused is reported as refused.
pub proof fn law_acceptance_is_reported(
    ticket: SubmissionTicket,
    accepted_index: u64,
    local_pressure_drops: usize,
    error: DeliveryOperationError,
)
    ensures
        ({
            let outcome = submission_outcome(
                ticket,
                Ok(SubmissionOutcome::Accepted { accepted_index, local_pressure_drops }),
            );
            &&& ticket.candidate is None || ticket.candidate == Some(accepted_index) ==> outcome
                == Ok::<_, DatagramSubmissionError>(
                (DatagramSubmissionOutcome::Accepted { accepted_index, local_pressure_drops }),
            )
            &&& ticket.candidate is Some && ticket.candidate != Some(accepted_index) ==> outcome
                == Err::<DatagramSubmissionOutcome, _>(
                (DatagramSubmissionError::AcceptedIndexMismatch {
                    expected: ticket.candidate->0,
                    accepted: accepted_index,
                }),
            )
        }),
        submission_outcome(ticket, Ok(SubmissionOutcome::RejectedPressure)) == Ok::<
            _,
            DatagramSubmissionError,
        >(DatagramSubmissionOutcome::RejectedPressure),
        submission_outcome(ticket, Ok(SubmissionOutcome::RejectedTooLarge)) == Ok::<
            _,
            DatagramSubmissionError,
        >(DatagramSubmissionOutcome::RejectedTooLarge),
        submission_outcome(ticket, Ok(SubmissionOutcome::RejectedCounterExhausted)) == Ok::<
            _,
            DatagramSubmissionError,
        >(DatagramSubmissionOutcome::RejectedCounterExhausted),
        submission_outcome(ticket, Err(error)) == Err::<DatagramSubmissionOutcome, _>(
            DatagramSubmissionError::Core(error),
        ),
{
}

/// Behind the transport's answer a message leaves the core under its own index: sent where
/// the transport took it, dropped where it had become too large. For any other answer it
/// stays.
pub proof fn law_custody_follows_the_transport(
    plan: SendPlan,
    answer: Result<(), DatagramTransportError>,
)
    ensures
        ({
            let step = sent_step(plan, answer);
            &&& step is Ok <==> answer is Ok || answer == Err::<(), _>(
                DatagramTransportError::TooLarge,
            )
            &&& step matches Ok(step) ==> {
                step matches SendStep::Commit(commit) && commit.key == plan.key
                    && commit.accepted_index == plan.accepted_index && commit.dropped
                    == answer is Err
            }
            &&& answer == Err::<(), _>(DatagramTransportError::ConnectionLost) ==> step == Err::<
                SendStep,
                _,
            >(DatagramSendError::ConnectionLost)
            &&& answer == Err::<(), _>(DatagramTransportError::Disabled) || answer == Err::<(), _>(
                DatagramTransportError::UnsupportedByPeer,
            ) ==> step == Err::<SendStep, _>(DatagramSendError::ProfileUnavailable)
        }),
{
}

/// An arrival is delivered exactly where its flow is an established inbound flow of an
/// unreliable mode and its message keeps to the flow's limit; the message is the end of the
/// datagram, and behind it nothing is left.
pub proof fn law_arrivals_keep_to_their_flow(
    flows: Map<u64, RegisteredFlow>,
    datagram: Seq<u8>,
)
    requires
        datagram.len() <= usize::MAX,
    ensures
        routed(flows, datagram) matches Ok(
            DatagramRoute::Deliver { flow_id, key, accepted_index, payload_offset },
        ) ==> {
            let flow = flows[flow_id.spec_value()];
            &&& flows.contains_key(flow_id.spec_value())
            &&& split_varint(datagram) is Ok && split_varint(datagram)->Ok_0.0
                == flow_id.spec_value()
            &&& key == flow.key
            &&& flow.key.direction == FlowDirection::Inbound
            &&& flow.mode != DeliveryMode::ReliableOrdered
            &&& payload_offset <= datagram.len()
            &&& datagram.len() - payload_offset <= flow.max_message_bytes
            &&& flow.mode == DeliveryMode::UnreliableUnordered ==> accepted_index == 0
        },
        split_varint(datagram) matches Ok((value, rest)) ==> {
            &&& routed(flows, datagram) == Ok::<_, DatagramReceiveFailure>(DatagramRoute::Discard)
                <==> !flows.contains_key(value)
            &&& flows.contains_key(value) && routed(flows, datagram) is Err ==> routed(
                flows,
                datagram,
            )->Err_0.flow_id is Some && routed(flows, datagram)->Err_0.flow_id->0.spec_value()
                == value
            &&& flows.contains_key(value) && flows[value].key.direction == FlowDirection::Inbound
                && flows[value].mode == DeliveryMode::UnreliableUnordered ==> {
                &&& routed(flows, datagram) is Ok <==> rest.len() <= flows[value].max_message_bytes
                &&& routed(flows, datagram) is Err ==> routed(flows, datagram)->Err_0.error
                    == DatagramReceiveError::PayloadExceedsProfile
            }
        },
        split_varint(datagram) is Err ==> routed(flows, datagram) is Err && routed(
            flows,
            datagram,
        )->Err_0.flow_id is None,
{
    crate::varint::lemma_split_read(datagram);
    if let Ok((value, rest)) = split_varint(datagram) {
        crate::varint::lemma_split_read(rest);
    }
}

/// A datagram that was written is handed to the transport exactly where it fits the largest
/// datagram and the send buffer as they are now, and it is then the planned one.
pub proof fn law_written_datagrams_are_judged_again(
    plan: SendPlan,
    length: usize,
    window: TransportWindow,
)
    ensures
        ({
            let step = plan.judged(length, window, SendStep::Send(plan));
            let max = window.max_datagram_size;
            &&& step == Ok::<_, DatagramSendError>(SendStep::Send(plan)) <==> max is Some && length
                <= max->0 && length <= window.send_buffer_space
            &&& max is None <==> step == Err::<SendStep, _>(DatagramSendError::ProfileUnavailable)
            &&& max is Some && length > max->0 <==> step is Ok && step->Ok_0 is Commit
            &&& step matches Ok(SendStep::Commit(commit)) ==> commit.key == plan.key
                && commit.accepted_index == plan.accepted_index && commit.dropped
        }),
{
}

/// A sequenced flow sends nothing under an index that the wire does not carry.
pub proof fn law_sequences_run_out(
    flow: RegisteredFlow,
    flow_id: FlowId,
    transfer: OutboundTransfer,
    window: TransportWindow,
)
    requires
        flow.key.direction == FlowDirection::Outbound,
        flow.mode == DeliveryMode::UnreliableSequenced,
        transfer.mode == flow.mode,
        transfer.payload_len <= flow.max_message_bytes,
        transfer.accepted_index > 0x3fff_ffff_ffff_ffff,
    ensures
        send_step(Some(flow), flow_id, Ok(Some(transfer)), window) == Err::<SendStep, _>(
            DatagramSendError::SequenceExhausted,
        ),
{
}

} // verus!
