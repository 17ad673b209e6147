//! The driver of an established connection: what is polled next, what a result means, and
//! when the connection ends.
//!
//! The host polls the streams and datagrams, and asks the delivery core and its stream
//! bindings what it is told to ask. Every result comes back here.

use std::collections::TryReserveError;

use vstd::prelude::*;

use crate::control::{
    ConnectionFailure, ControlFrame, ControlFrameError, ControlFrameType, ControlReceiver,
    ControlSender, ProfileBootstrapError,
};
use crate::datagram::{
    submission_outcome, submission_step, DatagramReceiveOutcome, DatagramSubmissionError,
    DatagramSubmissionOutcome, SubmissionStep, SubmissionTicket,
};
use crate::datagram_driver::{
    drives_key, established_as, is_first_with_key, live_flows, normalized, registration_error,
    DatagramConnectionIo,
    DatagramIoError, DatagramIoView, DatagramOutboundProgress,
};
use crate::delivery::{
    DeliveryFlowKey, DeliveryMode, DeliveryOperationError, DeliveryPolicyError,
    FlowEstablishmentError, FlowTermination, SubmissionOutcome,
};
use crate::flow_control::{
    decided, is_outbound_failure, outbound_answered, outbound_open_error, resource_shortage,
    without_active, EstablishedFlow, FlowControl, FlowControlError, FlowControlProgress,
    FlowControlStep, FlowControlView, FlowStorage, InboundAdmission, InboundAdmissionError,
    InboundEstablish, InboundOpenRequest, InboundRollback, InboundStep, LocalTerminate,
    LocalTermination, OutboundEstablish, OutboundOpenError, OutboundOpenFacts,
    OutboundOpenRequest, OutboundRollback, OutboundStep, PreparedFlow, RemoteTerminate,
};
use crate::flow_driver::{
    classify_datagram_receive_failure, classify_datagram_send_failure,
    classify_datagram_submission_error, classify_inbound_reliable_active_failure,
    classify_inbound_reliable_construction_failure, classify_known_flow_resource_failure,
    classify_outbound_reliable_acquisition_failure, classify_outbound_reliable_active_failure,
    construction_code, context_disposition, datagram_disposition, exhaustion_disposition,
    known_disposition, local_termination_send, pending_inbound_resolution,
    prepare_established_data_failure, prepared_failure, process_received, receive_failure_reason,
    resolution_send, routed_progress, send_disposition, send_failure_reason, termination_send,
    unresolved_code, DataFailureStep, EstablishedDataFailureDisposition,
    FlowControlDriverProgress, FlowControlSendEffect, FlowControlSendError, InboundDriverStep,
    PendingFlowControlSend,
};
use crate::lifecycle::{
    close_for_post_profile_control_error, close_for_received_flow_control_error, close_with,
    flow_control_code, post_profile_code, CloseOrder, CloseReason, EstablishedIoParts,
    EstablishedTeardown, TeardownCall,
};
use crate::reliable::{
    IoFailure, ReceiveError, ReliableIoError, ReliableIoStateError, SendError,
};
use crate::storage::{fresh, ByteStorage};
use crate::wire::{ApplicationErrorCode, FlowId, FlowRejectReason, FlowTerminateReason};

verus! {

/// The kinds of work that a driver polls in turn.
pub const DRIVER_CATEGORY_COUNT: usize = 8;

/// Whether a driver goes on.
#[derive(Debug, Clone, Copy, PartialEq, Eq, Structural)]
pub enum DriverPhase {
    Active,
    Terminal,
}

/// Where the one sender of control frames is.
#[derive(Debug, Clone, Copy, PartialEq, Eq, Structural)]
pub enum ControlSendPhase {
    Ready,
    Pending,
    Terminal,
}

/// The one sender of control frames, or where it is.
#[derive(Debug)]
pub enum ControlSendState {
    Ready(ControlSender),
    /// The host sends a frame with it.
    Pending,
    Terminal,
}

impl ControlSendState {
    pub open spec fn spec_phase(self) -> ControlSendPhase {
        match self {
            ControlSendState::Ready(_) => ControlSendPhase::Ready,
            ControlSendState::Pending => ControlSendPhase::Pending,
            ControlSendState::Terminal => ControlSendPhase::Terminal,
        }
    }

    pub fn phase(&self) -> (phase: ControlSendPhase)
        ensures
            phase == self.spec_phase(),
    {
        match self {
            ControlSendState::Ready(_) => ControlSendPhase::Ready,
            ControlSendState::Pending => ControlSendPhase::Pending,
            ControlSendState::Terminal => ControlSendPhase::Terminal,
        }
    }
}

/// The one receiver of control frames, or where it is.
#[derive(Debug)]
pub enum ControlReceiveState {
    /// The host receives a frame with it.
    Pending,
    /// A frame was received that has to wait.
    Deferred { receiver: ControlReceiver, frame: ControlFrame },
    Terminal,
}

/// Why an operation is not possible now.
#[derive(Debug, Clone, Copy, PartialEq, Eq, Structural)]
pub enum ConnectionDriverStateError {
    Terminal,
    ControlSendBusy,
}

/// How a driver fails.
#[derive(Debug, PartialEq, Eq)]
pub enum ConnectionDriverError {
    State(ConnectionDriverStateError),
    OutboundOpen(OutboundOpenError),
    InboundAdmission(InboundAdmissionError),
    DatagramSubmission(DatagramSubmissionError),
    DatagramProfileUnavailable,
    ControlReceive(ProfileBootstrapError),
    ControlSend(FlowControlSendError),
    ReceivedFlowControl(FlowControlError),
    Reliable(ReliableIoError),
    Datagram(DatagramIoError),
    FailurePreparation(FlowControlError),
}

/// What a driver comes to.
#[allow(inconsistent_fields)]
#[derive(Debug, PartialEq, Eq)]
pub enum EstablishedConnectionProgress {
    ControlSendStarted,
    ControlSendCompleted(FlowControlSendEffect),
    InboundOpen(InboundOpenRequest),
    OutboundEstablished(EstablishedFlow),
    OutboundRejected { flow_id: FlowId, key: DeliveryFlowKey, reason: FlowRejectReason },
    RemoteTerminated {
        flow: EstablishedFlow,
        reason: FlowTerminateReason,
        termination: FlowTermination,
    },
    ReliableOutboundAcquisition,
    ReliableInboundAcquired,
    Reliable,
    DatagramOutbound(DatagramOutboundProgress),
    DatagramInbound(DatagramReceiveOutcome),
    FlowFailureHandled { flow_id: FlowId },
}

/// A frame that the host is to send, with the one sender.
#[derive(Debug, PartialEq, Eq)]
pub struct SendCall {
    pub sender: ControlSender,
    pub pending: PendingFlowControlSend,
}

/// What the host is asked.
#[derive(Debug)]
pub enum DriverCall {
    /// Have the core establish an outbound flow.
    Establish(OutboundEstablish),
    /// Have the core end an outbound flow again.
    RollBack(OutboundRollback),
    /// Have the core end a flow that the peer ended.
    TerminateRemote(RemoteTerminate),
    /// Have the core end a flow that failed.
    TerminateFailed(LocalTerminate),
    /// Open a stream for an outbound flow.
    Schedule(EstablishedFlow),
}

/// What comes next.
#[derive(Debug)]
pub enum DriverStep {
    Nothing,
    Progress(EstablishedConnectionProgress),
    Error(ConnectionDriverError),
    Ask(DriverCall),
}

/// What comes next, and what the host has to do with it.
#[derive(Debug)]
pub struct DriverOutput {
    pub step: DriverStep,
    pub close: Option<CloseOrder>,
    pub send: Option<SendCall>,
    /// Receive the next frame with this receiver.
    pub receive: Option<ControlReceiver>,
}

/// A step that asks nothing else of the host.
pub open spec fn only(step: DriverStep) -> DriverOutput {
    DriverOutput { step, close: None, send: None, receive: None }
}

fn only_step(step: DriverStep) -> (output: DriverOutput)
    ensures
        output == only(step),
{
    DriverOutput { step, close: None, send: None, receive: None }
}

/// The transport of an outbound flow.
#[derive(Debug, Clone, Copy, PartialEq, Eq, Structural)]
pub enum OutboundTransportOwner {
    Reliable,
    Datagram,
}

/// A reliable flow failed because the connection is gone.
pub open spec fn is_connection_loss(error: ReliableIoError) -> bool {
    match error {
        ReliableIoError::OutboundActiveBinding { error, .. } => error == SendError::Io(
            IoFailure::ConnectionLost,
        ),
        ReliableIoError::InboundActiveBinding { error, .. } => error == ReceiveError::Io(
            IoFailure::ConnectionLost,
        ),
        _ => false,
    }
}

pub fn reliable_active_error_is_connection_loss(error: &ReliableIoError) -> (loss: bool)
    ensures
        loss == is_connection_loss(*error),
{
    match error {
        ReliableIoError::OutboundActiveBinding { error, .. } => *error == SendError::Io(
            IoFailure::ConnectionLost,
        ),
        ReliableIoError::InboundActiveBinding { error, .. } => *error == ReceiveError::Io(
            IoFailure::ConnectionLost,
        ),
        _ => false,
    }
}

/// Why an operation that may have to tell the peer is not possible now.
pub open spec fn operation_error(phase: DriverPhase, sender: ControlSendPhase) -> Option<
    ConnectionDriverStateError,
> {
    if phase == DriverPhase::Terminal || sender == ControlSendPhase::Terminal {
        Some(ConnectionDriverStateError::Terminal)
    } else if sender == ControlSendPhase::Pending {
        Some(ConnectionDriverStateError::ControlSendBusy)
    } else {
        None
    }
}

pub fn control_operation_error(phase: DriverPhase, sender: ControlSendPhase) -> (error: Option<
    ConnectionDriverStateError,
>)
    ensures
        error == operation_error(phase, sender),
{
    match (phase, sender) {
        (DriverPhase::Terminal, _) | (_, ControlSendPhase::Terminal) => Some(
            ConnectionDriverStateError::Terminal,
        ),
        (DriverPhase::Active, ControlSendPhase::Pending) => Some(
            ConnectionDriverStateError::ControlSendBusy,
        ),
        (DriverPhase::Active, ControlSendPhase::Ready) => None,
    }
}

/// A frame has to wait: the answer to it could not be sent, or the host has not decided on
/// the request before it.
pub open spec fn defers(
    frame_type: ControlFrameType,
    pending_inbound: bool,
    sender: ControlSendPhase,
) -> bool {
    sender != ControlSendPhase::Ready || (pending_inbound && frame_type
        == ControlFrameType::OpenFlow)
}

pub fn should_defer_received_frame(
    frame_type: ControlFrameType,
    pending_inbound: bool,
    sender: ControlSendPhase,
) -> (defer: bool)
    ensures
        defer == defers(frame_type, pending_inbound, sender),
{
    sender != ControlSendPhase::Ready || (pending_inbound && frame_type
        == ControlFrameType::OpenFlow)
}

/// The transport that carries a mode.
pub open spec fn transport_owner(mode: DeliveryMode) -> OutboundTransportOwner {
    if mode == DeliveryMode::ReliableOrdered {
        OutboundTransportOwner::Reliable
    } else {
        OutboundTransportOwner::Datagram
    }
}

pub fn outbound_transport_owner(mode: DeliveryMode) -> (owner: OutboundTransportOwner)
    ensures
        owner == transport_owner(mode),
{
    match mode {
        DeliveryMode::ReliableOrdered => OutboundTransportOwner::Reliable,
        DeliveryMode::UnreliableUnordered | DeliveryMode::UnreliableSequenced => {
            OutboundTransportOwner::Datagram
        },
    }
}

pub fn outbound_open_error_is_connection_terminal(error: &OutboundOpenError) -> (terminal: bool)
    ensures
        terminal == (*error is DatagramUnavailable),
{
    match error {
        OutboundOpenError::DatagramUnavailable => true,
        _ => false,
    }
}

pub fn inbound_admission_error_is_connection_terminal(error: &InboundAdmissionError) -> (terminal:
    bool)
    ensures
        terminal == !(*error is RequestNotPending),
{
    match error {
        InboundAdmissionError::RequestNotPending(_) => false,
        _ => true,
    }
}

pub fn datagram_submission_outcome_is_connection_terminal(outcome: DatagramSubmissionOutcome) -> (terminal:
    bool)
    ensures
        terminal == (outcome is RejectedTransportUnavailable),
{
    match outcome {
        DatagramSubmissionOutcome::RejectedTransportUnavailable => true,
        _ => false,
    }
}

/// A submission failed for a reason that the host cannot have caused.
pub open spec fn submission_error_is_terminal(error: DatagramSubmissionError) -> bool {
    ||| error is Core
    ||| error is Wire
    ||| error is LengthOverflow
    ||| error is AcceptedIndexMismatch
}

pub fn datagram_submission_error_is_connection_terminal(error: &DatagramSubmissionError) -> (terminal:
    bool)
    ensures
        terminal == submission_error_is_terminal(*error),
{
    match error {
        DatagramSubmissionError::Core(_)
        | DatagramSubmissionError::Wire(_)
        | DatagramSubmissionError::LengthOverflow
        | DatagramSubmissionError::AcceptedIndexMismatch { .. } => true,
        _ => false,
    }
}

pub fn next_poll_cursor(current: usize) -> (next: usize)
    requires
        current < usize::MAX,
    ensures
        next == (current + 1) % 8,
        next < DRIVER_CATEGORY_COUNT,
{
    (current + 1) % DRIVER_CATEGORY_COUNT
}

/// The kinds of work, in the order in which they are polled.
#[derive(Debug, Clone, Copy, PartialEq, Eq, Structural)]
pub enum DriverCategory {
    ControlSend,
    ControlReceive,
    ReliableOutboundAcquisition,
    ReliableInboundAcquisition,
    ReliableOutbound,
    ReliableInbound,
    DatagramOutbound,
    DatagramInbound,
}

impl DriverCategory {
    /// Its place in the order.
    pub open spec fn place(self) -> int {
        match self {
            DriverCategory::ControlSend => 0,
            DriverCategory::ControlReceive => 1,
            DriverCategory::ReliableOutboundAcquisition => 2,
            DriverCategory::ReliableInboundAcquisition => 3,
            DriverCategory::ReliableOutbound => 4,
            DriverCategory::ReliableInbound => 5,
            DriverCategory::DatagramOutbound => 6,
            DriverCategory::DatagramInbound => 7,
        }
    }

    /// Work on data, as opposed to control frames.
    pub open spec fn is_data(self) -> bool {
        self.place() >= 2
    }

    pub fn index(self) -> (index: usize)
        ensures
            index == self.place(),
            index < DRIVER_CATEGORY_COUNT,
    {
        match self {
            DriverCategory::ControlSend => 0,
            DriverCategory::ControlReceive => 1,
            DriverCategory::ReliableOutboundAcquisition => 2,
            DriverCategory::ReliableInboundAcquisition => 3,
            DriverCategory::ReliableOutbound => 4,
            DriverCategory::ReliableInbound => 5,
            DriverCategory::DatagramOutbound => 6,
            DriverCategory::DatagramInbound => 7,
        }
    }

    fn at(index: usize) -> (category: Self)
        requires
            index < DRIVER_CATEGORY_COUNT,
        ensures
            category.place() == index,
    {
        match index {
            0 => DriverCategory::ControlSend,
            1 => DriverCategory::ControlReceive,
            2 => DriverCategory::ReliableOutboundAcquisition,
            3 => DriverCategory::ReliableInboundAcquisition,
            4 => DriverCategory::ReliableOutbound,
            5 => DriverCategory::ReliableInbound,
            6 => DriverCategory::DatagramOutbound,
            _ => DriverCategory::DatagramInbound,
        }
    }
}

/// One round over the kinds of work, and how far it has come.
#[derive(Debug, Clone, Copy, PartialEq, Eq, Structural)]
pub struct PollTurn {
    pub start: usize,
    pub offset: usize,
}

impl PollTurn {
    pub open spec fn wf(self) -> bool {
        self.start < 8 && self.offset <= 8
    }

    /// The kind of work at an offset of the round.
    pub open spec fn place_at(self, offset: int) -> int {
        (self.start + offset) % 8
    }
}

/// What comes next in a round.
#[derive(Debug, Clone, Copy, PartialEq, Eq, Structural)]
pub enum PollNext {
    /// Poll this kind of work, and go on with the turn if nothing came of it.
    Poll(DriverCategory, PollTurn),
    /// The round is over, with nothing done.
    Pending,
}

/// The control side of a driver.
#[derive(Debug)]
pub struct DriverControl {
    pub sender: ControlSendState,
    pub receiver: ControlReceiveState,
    pub phase: DriverPhase,
    pub poll_cursor: usize,
}

impl DriverControl {
    /// A terminal driver has neither a sender nor a receiver, and no other driver is
    /// without its sender.
    pub open spec fn wf(self) -> bool {
        &&& self.poll_cursor < 8
        &&& self.phase == DriverPhase::Terminal <==> self.sender is Terminal
        &&& self.phase == DriverPhase::Terminal ==> self.receiver is Terminal
    }

    /// The driver goes on no longer.
    pub open spec fn terminated(self) -> DriverControl {
        DriverControl {
            sender: ControlSendState::Terminal,
            receiver: ControlReceiveState::Terminal,
            phase: DriverPhase::Terminal,
            poll_cursor: self.poll_cursor,
        }
    }

    /// What stands against an operation that may have to tell the peer.
    pub open spec fn unavailable(self) -> Option<ConnectionDriverStateError> {
        operation_error(self.phase, self.sender.spec_phase())
    }

    /// Work on data may go on: its failure could be told at once.
    pub open spec fn data_allowed(self) -> bool {
        self.phase == DriverPhase::Active && self.sender is Ready
    }

    /// A round passes over the kind of work at an offset: it is data, and data has to wait.
    pub open spec fn passes_over(self, turn: PollTurn, offset: int) -> bool {
        !self.data_allowed() && turn.place_at(offset) >= 2
    }

    /// The driver once a frame is to be sent.
    pub open spec fn after_send(self) -> DriverControl {
        if self.phase == DriverPhase::Terminal {
            self
        } else {
            match self.sender {
                ControlSendState::Ready(_) => DriverControl {
                    sender: ControlSendState::Pending,
                    ..self
                },
                _ => self.terminated(),
            }
        }
    }

    /// What it comes to that a frame is to be sent.
    pub open spec fn send_call(self, pending: PendingFlowControlSend) -> Result<
        SendCall,
        ConnectionDriverError,
    > {
        if self.phase == DriverPhase::Terminal {
            Err(ConnectionDriverError::State(ConnectionDriverStateError::Terminal))
        } else {
            match self.sender {
                ControlSendState::Ready(sender) => Ok(SendCall { sender, pending }),
                ControlSendState::Pending => Err(
                    ConnectionDriverError::State(ConnectionDriverStateError::ControlSendBusy),
                ),
                ControlSendState::Terminal => Err(
                    ConnectionDriverError::State(ConnectionDriverStateError::Terminal),
                ),
            }
        }
    }

    pub fn new(sender: ControlSender) -> (control: Self)
        ensures
            control.wf(),
            control == (DriverControl {
                sender: ControlSendState::Ready(sender),
                receiver: ControlReceiveState::Pending,
                phase: DriverPhase::Active,
                poll_cursor: 0,
            }),
    {
        DriverControl {
            sender: ControlSendState::Ready(sender),
            receiver: ControlReceiveState::Pending,
            phase: DriverPhase::Active,
            poll_cursor: 0,
        }
    }

    pub fn require_control_send_ready(&self) -> (checked: Result<(), ConnectionDriverStateError>)
        ensures
            match self.unavailable() {
                Some(error) => checked == Err::<(), _>(error),
                None => checked is Ok,
            },
    {
        match control_operation_error(self.phase, self.sender.phase()) {
            Some(error) => Err(error),
            None => Ok(()),
        }
    }

    pub fn data_poll_allowed(&self) -> (allowed: bool)
        ensures
            allowed == self.data_allowed(),
    {
        self.phase == DriverPhase::Active && self.sender.phase() == ControlSendPhase::Ready
    }

    /// Ends the driver. Only the first end closes the connection.
    pub fn enter_terminal(&mut self, code: Option<ApplicationErrorCode>) -> (close: Option<
        CloseOrder,
    >)
        requires
            old(self).wf(),
        ensures
            final(self).wf(),
            *final(self) == old(self).terminated(),
            close == (if old(self).phase == DriverPhase::Terminal {
                None
            } else {
                close_with(code, CloseReason::EstablishedData)
            }),
    {
        if self.phase == DriverPhase::Terminal {
            return None;
        }
        self.phase = DriverPhase::Terminal;
        self.sender = ControlSendState::Terminal;
        self.receiver = ControlReceiveState::Terminal;
        match code {
            Some(code) => Some(CloseOrder { code, reason: CloseReason::EstablishedData }),
            None => None,
        }
    }

    /// Has a frame sent. A driver that cannot send it ends.
    pub fn start_prepared_send(&mut self, pending: PendingFlowControlSend) -> (call: Result<
        SendCall,
        ConnectionDriverError,
    >)
        requires
            old(self).wf(),
        ensures
            final(self).wf(),
            call == old(self).send_call(pending),
            *final(self) == old(self).after_send(),
    {
        if self.phase == DriverPhase::Terminal {
            return Err(ConnectionDriverError::State(ConnectionDriverStateError::Terminal));
        }
        let mut state = ControlSendState::Pending;
        std::mem::swap(&mut self.sender, &mut state);
        match state {
            ControlSendState::Ready(sender) => Ok(SendCall { sender, pending }),
            ControlSendState::Pending => {
                self.enter_terminal(None);
                Err(ConnectionDriverError::State(ConnectionDriverStateError::ControlSendBusy))
            },
            ControlSendState::Terminal => {
                self.enter_terminal(None);
                Err(ConnectionDriverError::State(ConnectionDriverStateError::Terminal))
            },
        }
    }

    /// Begins a round of polling.
    pub fn poll_step(&self) -> (turn: Result<PollTurn, ConnectionDriverError>)
        requires
            self.wf(),
        ensures
            self.phase == DriverPhase::Terminal ==> turn == Err::<PollTurn, _>(
                ConnectionDriverError::State(ConnectionDriverStateError::Terminal),
            ),
            self.phase == DriverPhase::Active ==> turn == Ok::<_, ConnectionDriverError>(
                (PollTurn { start: self.poll_cursor, offset: 0 }),
            ),
    {
        if self.phase == DriverPhase::Terminal {
            return Err(ConnectionDriverError::State(ConnectionDriverStateError::Terminal));
        }
        Ok(PollTurn { start: self.poll_cursor, offset: 0 })
    }

    /// The next kind of work of a round: the first at or after the turn's offset that may be
    /// polled. Where none is left, the next round starts one kind further.
    pub fn next_category(&mut self, turn: PollTurn) -> (next: PollNext)
        requires
            old(self).wf(),
            turn.wf(),
        ensures
            final(self).wf(),
            match next {
                PollNext::Poll(category, rest) => {
                    &&& *final(self) == *old(self)
                    &&& rest.start == turn.start
                    &&& turn.offset < rest.offset <= 8
                    &&& category.place() == turn.place_at(rest.offset - 1)
                    &&& category.is_data() ==> old(self).data_allowed()
                    &&& forall|offset: int|
                        turn.offset <= offset < rest.offset - 1 ==> #[trigger] old(
                            self,
                        ).passes_over(turn, offset)
                },
                PollNext::Pending => {
                    &&& *final(self) == (DriverControl {
                        poll_cursor: turn.place_at(1) as usize,
                        ..*old(self)
                    })
                    &&& forall|offset: int|
                        turn.offset <= offset < 8 ==> #[trigger] old(self).passes_over(
                            turn,
                            offset,
                        )
                },
            },
    {
        let allowed: bool = self.data_poll_allowed();
        let mut offset: usize = turn.offset;
        while offset < DRIVER_CATEGORY_COUNT
            invariant
                turn.wf(),
                turn.offset <= offset <= 8,
                allowed == self.data_allowed(),
                *self == *old(self),
                self.wf(),
                forall|passed: int|
                    turn.offset <= passed < offset ==> #[trigger] old(self).passes_over(
                        turn,
                        passed,
                    ),
            decreases 8 - offset,
        {
            let index: usize = (turn.start + offset) % DRIVER_CATEGORY_COUNT;
            proof {
                assert(index == turn.place_at(offset as int));
            }
            if index < 2 || allowed {
                return PollNext::Poll(
                    DriverCategory::at(index),
                    PollTurn { start: turn.start, offset: offset + 1 },
                );
            }
            offset = offset + 1;
        }
        self.poll_cursor = next_poll_cursor(turn.start);
        proof {
            assert(self.poll_cursor == turn.place_at(1));
        }
        PollNext::Pending
    }

    /// Takes note that something came of a kind of work: the next round starts behind it.
    pub fn concluded(&mut self, category: DriverCategory)
        requires
            old(self).wf(),
        ensures
            final(self).wf(),
            *final(self) == (DriverControl {
                poll_cursor: ((category.place() + 1) % 8) as usize,
                ..*old(self)
            }),
    {
        self.poll_cursor = next_poll_cursor(category.index());
    }
}

/// A round comes to every kind of work once.
pub proof fn law_every_category_has_its_turn(turn: PollTurn, place: int)
    requires
        turn.start < 8,
        0 <= place < 8,
    ensures
        exists|offset: int| 0 <= offset < 8 && #[trigger] turn.place_at(offset) == place,
        forall|left: int, right: int|
            0 <= left < 8 && 0 <= right < 8 && #[trigger] turn.place_at(left)
                == #[trigger] turn.place_at(right) ==> left == right,
{
    let offset = if place >= turn.start {
        place - turn.start
    } else {
        place - turn.start + 8
    };
    assert(turn.place_at(offset) == place);
}

/// A terminal driver stays terminal: it polls nothing, sends nothing and closes nothing.
pub proof fn law_terminal_is_final(control: DriverControl, pending: PendingFlowControlSend)
    requires
        control.wf(),
        control.phase == DriverPhase::Terminal,
    ensures
        control.terminated() == control,
        control.after_send() == control,
        control.send_call(pending) == Err::<SendCall, _>(
            ConnectionDriverError::State(ConnectionDriverStateError::Terminal),
        ),
        control.unavailable() == Some(ConnectionDriverStateError::Terminal),
        !control.data_allowed(),
{
}

/// Where an operation is possible, the frame that it may need can be sent.
pub proof fn law_ready_operations_can_report(
    control: DriverControl,
    pending: PendingFlowControlSend,
)
    requires
        control.unavailable() is None,
    ensures
        control.send_call(pending) is Ok,
        control.after_send().sender is Pending,
        control.data_allowed(),
{
}

/// The peer closed the connection without an error.
pub open spec fn is_no_error_close(reason: Option<ConnectionFailure>) -> bool {
    reason == Some(ConnectionFailure::ApplicationClosed(ApplicationErrorCode::NoError.number()))
}

pub fn peer_no_error_close_observed(reason: Option<ConnectionFailure>) -> (observed: bool)
    ensures
        observed == is_no_error_close(reason),
{
    match reason {
        Some(ConnectionFailure::ApplicationClosed(code)) => code
            == ApplicationErrorCode::NoError.wire(),
        _ => false,
    }
}

/// The end of the control stream, where the peer closed the connection without an error, is
/// that close.
pub open spec fn normalized_end(
    error: ProfileBootstrapError,
    reason: Option<ConnectionFailure>,
) -> ProfileBootstrapError {
    if error == ProfileBootstrapError::Frame(ControlFrameError::EndOfStream) && is_no_error_close(
        reason,
    ) {
        ProfileBootstrapError::Connection(reason->0)
    } else {
        error
    }
}

pub fn normalize_peer_no_error_control_end(
    error: ProfileBootstrapError,
    reason: Option<ConnectionFailure>,
) -> (normalized: ProfileBootstrapError)
    ensures
        normalized == normalized_end(error, reason),
{
    let at_end: bool = match &error {
        ProfileBootstrapError::Frame(ControlFrameError::EndOfStream) => true,
        _ => false,
    };
    if !at_end || !peer_no_error_close_observed(reason) {
        return error;
    }
    match reason {
        Some(reason) => ProfileBootstrapError::Connection(reason),
        None => error,
    }
}

/// The peer's close without an error takes the place of the end of the control stream, and
/// of nothing else: a frame that was cut short, another close and a lost connection stay
/// the failures that they are. Such a close is not answered; an end of the stream without
/// it is.
pub proof fn law_only_a_clean_end_is_the_peers_close(
    error: ProfileBootstrapError,
    reason: Option<ConnectionFailure>,
)
    ensures
        normalized_end(error, reason) != error ==> {
            &&& error == ProfileBootstrapError::Frame(ControlFrameError::EndOfStream)
            &&& is_no_error_close(reason)
        },
        error == ProfileBootstrapError::Frame(ControlFrameError::EndOfStream) ==> {
            let end = normalized_end(error, reason);
            if is_no_error_close(reason) {
                end == ProfileBootstrapError::Connection(reason->0) && post_profile_code(end)
                    is None
            } else {
                post_profile_code(end) == Some(ApplicationErrorCode::ControlFrameError)
            }
        },
{
}

/// Memory for one operation of a driver.
#[derive(Debug)]
pub struct DriverStorage {
    pub flow: FlowStorage,
    /// Room for one more flow that datagrams are sent on.
    pub datagram: Result<(), TryReserveError>,
    /// Room for the report of a failure.
    pub report: ByteStorage,
}

impl DriverStorage {
    pub open spec fn wf(self) -> bool {
        self.flow.wf() && fresh(self.report)
    }
}

/// The driver of an established connection.
#[must_use]
#[derive(Debug)]
pub struct EstablishedConnectionDriver {
    pub(crate) control: DriverControl,
    pub(crate) flow_control: FlowControl,
    pub(crate) datagram: DatagramConnectionIo,
    pub(crate) teardown: EstablishedTeardown,
    pub(crate) max_staging_bytes: usize,
}

/// What a driver knows.
pub struct DriverView {
    pub control: DriverControl,
    pub flows: FlowControlView,
    pub datagrams: DatagramIoView,
    /// The largest reliable message that can be reassembled.
    pub max_staging_bytes: usize,
    /// What is left of the connection once it is given up.
    pub teardown: EstablishedTeardown,
}

impl DriverView {
    /// The driver goes on no longer.
    pub open spec fn terminated(self) -> DriverView {
        DriverView { control: self.control.terminated(), ..self }
    }

    /// The close of a connection that still goes on.
    pub open spec fn closes(self, code: Option<ApplicationErrorCode>) -> Option<CloseOrder> {
        if self.control.phase == DriverPhase::Terminal {
            None
        } else {
            close_with(code, CloseReason::EstablishedData)
        }
    }

    /// The driver ends with an error.
    pub open spec fn ends(
        self,
        after: DriverView,
        error: ConnectionDriverError,
        close: Option<CloseOrder>,
        output: DriverOutput,
    ) -> bool {
        &&& after == self.terminated()
        &&& output == (DriverOutput {
            step: DriverStep::Error(error),
            close,
            send: None,
            receive: None,
        })
    }

    /// The driver has a frame sent, and goes on, or ends because it cannot.
    pub open spec fn sends(
        self,
        after: DriverView,
        pending: PendingFlowControlSend,
        progress: EstablishedConnectionProgress,
        output: DriverOutput,
    ) -> bool {
        &&& after == (DriverView { control: self.control.after_send(), ..self })
        &&& match self.control.send_call(pending) {
            Ok(call) => output == (DriverOutput {
                step: DriverStep::Progress(progress),
                close: None,
                send: Some(call),
                receive: None,
            }),
            Err(error) => output == only(DriverStep::Error(error)),
        }
    }
}

/// The flow that a failure is about.
pub open spec fn failed_flow(disposition: EstablishedDataFailureDisposition) -> Option<FlowId> {
    match disposition {
        EstablishedDataFailureDisposition::TerminateAndReport { flow_id, .. } => Some(flow_id),
        EstablishedDataFailureDisposition::ReportOnly { flow_id, .. } => Some(flow_id),
        EstablishedDataFailureDisposition::CleanupOnly { flow_id } => Some(flow_id),
        EstablishedDataFailureDisposition::ConnectionTerminal { .. } => None,
    }
}

/// A failure that was prepared is carried out.
pub open spec fn failure_carried_out(
    before: DriverView,
    after: DriverView,
    disposition: EstablishedDataFailureDisposition,
    step: Result<DataFailureStep, FlowControlError>,
    error: ConnectionDriverError,
    output: DriverOutput,
) -> bool {
    match step {
        Err(refused) => before.ends(
            after,
            ConnectionDriverError::FailurePreparation(refused),
            None,
            output,
        ),
        Ok(DataFailureStep::ConnectionTerminal { code }) => before.ends(
            after,
            error,
            before.closes(code),
            output,
        ),
        Ok(DataFailureStep::Terminate(call)) => {
            &&& after == before
            &&& output == only(DriverStep::Ask(DriverCall::TerminateFailed(call)))
        },
        Ok(DataFailureStep::CleanupOnly { flow_id }) => {
            &&& after == before
            &&& output == only(
                DriverStep::Progress(EstablishedConnectionProgress::FlowFailureHandled { flow_id }),
            )
        },
        Ok(DataFailureStep::PendingSend(pending)) => failed_flow(disposition) is Some
            && before.sends(
            after,
            pending,
            EstablishedConnectionProgress::FlowFailureHandled {
                flow_id: failed_flow(disposition)->0,
            },
            output,
        ),
    }
}

/// A failure was dealt with.
pub open(crate) spec fn failure_handled(
    before: DriverView,
    after: DriverView,
    disposition: EstablishedDataFailureDisposition,
    error: ConnectionDriverError,
    storage: ByteStorage,
    output: DriverOutput,
) -> bool {
    exists|step: Result<DataFailureStep, FlowControlError>| #[trigger]
        prepared_failure(before.flows, disposition, storage, step) && failure_carried_out(
            before,
            after,
            disposition,
            step,
            error,
            output,
        )
}

/// The registration of a flow that datagrams are sent on.
pub open(crate) spec fn datagram_flow_registered(
    before: DriverView,
    after: DriverView,
    flow: EstablishedFlow,
    room: Result<(), TryReserveError>,
    report: ByteStorage,
    output: DriverOutput,
) -> bool {
    let survivors = live_flows(before.flows, before.datagrams.outbound);
    let cleaned = DatagramIoView {
        outbound: survivors,
        cursor: normalized(before.datagrams.cursor as int, survivors.len() as int) as usize,
        ..before.datagrams
    };
    let kept = DriverView { datagrams: cleaned, ..before };
    match registration_error(
        flow.key,
        flow.mode,
        flow.max_message_bytes,
        established_as(before.flows, flow.flow_id),
        survivors.contains(flow.flow_id),
    ) {
        Some(error) => kept.ends(
            after,
            ConnectionDriverError::Datagram(DatagramIoError::State(error)),
            None,
            output,
        ),
        None => match room {
            Err(error) => failure_handled(
                kept,
                after,
                known_disposition(
                    flow.flow_id,
                    FlowTerminateReason::ResourceFailure,
                    before.flows.active.contains_key(flow.flow_id.spec_value()),
                    false,
                ),
                ConnectionDriverError::Datagram(DatagramIoError::Allocation(error)),
                report,
                output,
            ),
            Ok(()) => {
                &&& after == (DriverView {
                    datagrams: DatagramIoView {
                        outbound: survivors.push(flow.flow_id),
                        ..cleaned
                    },
                    ..before
                })
                &&& output == only(
                    DriverStep::Progress(EstablishedConnectionProgress::OutboundEstablished(flow)),
                )
            },
        },
    }
}

/// The progress of flow control was passed on.
pub open(crate) spec fn progress_routed(
    before: DriverView,
    after: DriverView,
    progress: FlowControlProgress,
    room: Result<(), TryReserveError>,
    report: ByteStorage,
    output: DriverOutput,
) -> bool {
    match routed_progress(progress) {
        FlowControlDriverProgress::InboundOpen(request) => {
            &&& after == before
            &&& output == only(
                DriverStep::Progress(EstablishedConnectionProgress::InboundOpen(request)),
            )
        },
        FlowControlDriverProgress::PendingSend(pending) => before.sends(
            after,
            pending,
            EstablishedConnectionProgress::ControlSendStarted,
            output,
        ),
        FlowControlDriverProgress::OutboundEstablished(flow) => match transport_owner(flow.mode) {
            OutboundTransportOwner::Reliable => {
                &&& after == before
                &&& output == only(DriverStep::Ask(DriverCall::Schedule(flow)))
            },
            OutboundTransportOwner::Datagram => datagram_flow_registered(
                before,
                after,
                flow,
                room,
                report,
                output,
            ),
        },
        FlowControlDriverProgress::OutboundRejected { flow_id, key, reason } => {
            &&& after == before
            &&& output == only(
                DriverStep::Progress(
                    EstablishedConnectionProgress::OutboundRejected { flow_id, key, reason },
                ),
            )
        },
        FlowControlDriverProgress::RemoteTerminated { flow, reason, termination } => {
            &&& after == before
            &&& output == only(
                DriverStep::Progress(
                    EstablishedConnectionProgress::RemoteTerminated { flow, reason, termination },
                ),
            )
        },
    }
}

/// A flow frame of the peer was refused.
pub open spec fn frame_refused(
    before: DriverView,
    after: DriverView,
    error: FlowControlError,
    output: DriverOutput,
) -> bool {
    before.ends(
        after,
        ConnectionDriverError::ReceivedFlowControl(error),
        close_with(flow_control_code(error), CloseReason::FlowControl),
        output,
    )
}

impl EstablishedConnectionDriver {
    pub open(crate) spec fn wf(self) -> bool {
        self.control.wf() && self.flow_control.wf()
    }

    pub open(crate) spec fn view(&self) -> DriverView {
        DriverView {
            control: self.control,
            flows: self.flow_control@,
            datagrams: self.datagram@,
            max_staging_bytes: self.max_staging_bytes,
            teardown: self.teardown,
        }
    }

    /// Begins to drive a connection. The host receives the first frame with the receiver.
    pub fn into_connection_driver(parts: EstablishedIoParts, max_staging_bytes: usize) -> (started: (
        Self,
        ControlReceiver,
    ))
        requires
            parts.flow_control.wf(),
        ensures
            started.0.wf(),
            started.0@.control == (DriverControl {
                sender: ControlSendState::Ready(parts.sender),
                receiver: ControlReceiveState::Pending,
                phase: DriverPhase::Active,
                poll_cursor: 0,
            }),
            started.0@.flows == parts.flow_control@,
            started.0@.datagrams == (DatagramIoView {
                drops: 0,
                reading: true,
                outbound: Seq::empty(),
                cursor: 0,
            }),
            started.0@.max_staging_bytes == max_staging_bytes,
            started.0@.teardown == parts.teardown,
            started.1 == parts.receiver,
    {
        let EstablishedIoParts { sender, receiver, flow_control, teardown } = parts;
        (
            EstablishedConnectionDriver {
                control: DriverControl::new(sender),
                flow_control,
                datagram: DatagramConnectionIo::new(),
                teardown,
                max_staging_bytes,
            },
            receiver,
        )
    }

    pub fn control(&self) -> (control: &DriverControl)
        ensures
            *control == self@.control,
            self.wf() ==> control.wf(),
    {
        &self.control
    }

    pub fn flow_control(&self) -> (flow_control: &FlowControl)
        ensures
            flow_control@ == self@.flows,
            self.wf() ==> flow_control.wf(),
    {
        &self.flow_control
    }

    /// The next kind of work of a round.
    pub fn next_category(&mut self, turn: PollTurn) -> (next: PollNext)
        requires
            old(self).wf(),
            turn.wf(),
        ensures
            final(self).wf(),
            old(self)@.flows.sound() ==> final(self)@.flows.sound(),
            match next {
                PollNext::Poll(category, rest) => {
                    &&& final(self)@ == old(self)@
                    &&& rest.start == turn.start
                    &&& turn.offset < rest.offset <= 8
                    &&& category.place() == turn.place_at(rest.offset - 1)
                    &&& category.is_data() ==> old(self)@.control.data_allowed()
                    &&& forall|offset: int|
                        turn.offset <= offset < rest.offset - 1 ==> #[trigger] old(
                            self,
                        )@.control.passes_over(turn, offset)
                },
                PollNext::Pending => {
                    &&& final(self)@ == (DriverView {
                        control: DriverControl {
                            poll_cursor: turn.place_at(1) as usize,
                            ..old(self)@.control
                        },
                        ..old(self)@
                    })
                    &&& forall|offset: int|
                        turn.offset <= offset < 8 ==> #[trigger] old(
                            self,
                        )@.control.passes_over(turn, offset)
                },
            },
    {
        self.control.next_category(turn)
    }

    /// Takes note that something came of a kind of work.
    pub fn concluded(&mut self, category: DriverCategory)
        requires
            old(self).wf(),
        ensures
            final(self).wf(),
            old(self)@.flows.sound() ==> final(self)@.flows.sound(),
            final(self)@ == (DriverView {
                control: DriverControl {
                    poll_cursor: ((category.place() + 1) % 8) as usize,
                    ..old(self)@.control
                },
                ..old(self)@
            }),
    {
        self.control.concluded(category);
    }

    /// Asks for the memory of one operation.
    pub fn reserve(&mut self) -> (storage: DriverStorage)
        requires
            old(self).wf(),
        ensures
            final(self).wf(),
            old(self)@.flows.sound() ==> final(self)@.flows.sound(),
            final(self)@ == old(self)@,
            storage.wf(),
    {
        let flow = self.flow_control.reserve();
        let datagram = self.datagram.reserve_outbound();
        DriverStorage {
            flow,
            datagram,
            report: crate::storage::reserve_bytes(crate::wire::MAX_FLOW_BODY_BYTES),
        }
    }

    fn end_with(&mut self, error: ConnectionDriverError, close: Option<CloseOrder>) -> (output:
        DriverOutput)
        requires
            old(self).wf(),
        ensures
            final(self).wf(),
            old(self)@.flows.sound() ==> final(self)@.flows.sound(),
            old(self)@.ends(final(self)@, error, close, output),
    {
        self.control.enter_terminal(None);
        DriverOutput { step: DriverStep::Error(error), close, send: None, receive: None }
    }

    fn send_and(
        &mut self,
        pending: PendingFlowControlSend,
        progress: EstablishedConnectionProgress,
    ) -> (output: DriverOutput)
        requires
            old(self).wf(),
        ensures
            final(self).wf(),
            old(self)@.flows.sound() ==> final(self)@.flows.sound(),
            old(self)@.sends(final(self)@, pending, progress, output),
    {
        match self.control.start_prepared_send(pending) {
            Ok(call) => DriverOutput {
                step: DriverStep::Progress(progress),
                close: None,
                send: Some(call),
                receive: None,
            },
            Err(error) => only_step(DriverStep::Error(error)),
        }
    }

    /// Takes the end of a send: the sender is back, or the driver ends.
    pub fn control_sent(
        &mut self,
        sender: ControlSender,
        result: Result<FlowControlSendEffect, FlowControlSendError>,
    ) -> (output: DriverOutput)
        requires
            old(self).wf(),
            old(self)@.control.phase == DriverPhase::Active,
        ensures
            final(self).wf(),
            old(self)@.flows.sound() ==> final(self)@.flows.sound(),
            match result {
                Ok(effect) => {
                    &&& final(self)@ == (DriverView {
                        control: DriverControl {
                            sender: ControlSendState::Ready(sender),
                            ..old(self)@.control
                        },
                        ..old(self)@
                    })
                    &&& output == only(
                        DriverStep::Progress(
                            EstablishedConnectionProgress::ControlSendCompleted(effect),
                        ),
                    )
                },
                Err(error) => old(self)@.ends(
                    final(self)@,
                    ConnectionDriverError::ControlSend(error),
                    close_with(post_profile_code(error.error), CloseReason::ProfileControl),
                    output,
                ),
            },
    {
        match result {
            Ok(effect) => {
                self.control.sender = ControlSendState::Ready(sender);
                only_step(
                    DriverStep::Progress(
                        EstablishedConnectionProgress::ControlSendCompleted(effect),
                    ),
                )
            },
            Err(error) => {
                let close = close_for_post_profile_control_error(&error.error);
                self.end_with(ConnectionDriverError::ControlSend(error), close)
            },
        }
    }

    /// Takes a frame of the peer, or why there is none. A frame that cannot be answered yet
    /// waits; `close_reason` is what the transport knows of the end of the connection.
    pub fn control_received(
        &mut self,
        receiver: ControlReceiver,
        result: Result<ControlFrame, ProfileBootstrapError>,
        close_reason: Option<ConnectionFailure>,
        storage: DriverStorage,
    ) -> (output: DriverOutput)
        requires
            old(self).wf(),
            old(self)@.control.phase == DriverPhase::Active,
            old(self)@.control.receiver is Pending,
            storage.wf(),
        ensures
            final(self).wf(),
            old(self)@.flows.sound() ==> final(self)@.flows.sound(),
            match result {
                Err(error) => {
                    let error = normalized_end(error, close_reason);
                    old(self)@.ends(
                        final(self)@,
                        ConnectionDriverError::ControlReceive(error),
                        close_with(post_profile_code(error), CloseReason::ProfileControl),
                        output,
                    )
                },
                Ok(frame) => if defers(
                    frame.frame_type,
                    old(self)@.flows.pending_inbound is Some,
                    old(self)@.control.sender.spec_phase(),
                ) {
                    &&& final(self)@ == (DriverView {
                        control: DriverControl {
                            receiver: ControlReceiveState::Deferred { receiver, frame },
                            ..old(self)@.control
                        },
                        ..old(self)@
                    })
                    &&& output == only(DriverStep::Nothing)
                } else {
                    frame_processed(
                        old(self)@,
                        final(self)@,
                        receiver,
                        frame,
                        storage,
                        output,
                    )
                },
            },
    {
        match result {
            Err(error) => {
                let error = normalize_peer_no_error_control_end(error, close_reason);
                let close = close_for_post_profile_control_error(&error);
                self.end_with(ConnectionDriverError::ControlReceive(error), close)
            },
            Ok(frame) => {
                if should_defer_received_frame(
                    frame.frame_type,
                    self.flow_control.has_pending_inbound(),
                    self.control.sender.phase(),
                ) {
                    self.control.receiver = ControlReceiveState::Deferred { receiver, frame };
                    return only_step(DriverStep::Nothing);
                }
                self.process_received_frame(receiver, frame, storage)
            },
        }
    }

    /// Takes up the frame that waits, if it has to wait no longer.
    pub fn poll_deferred(&mut self, storage: DriverStorage) -> (output: DriverOutput)
        requires
            old(self).wf(),
            old(self)@.control.phase == DriverPhase::Active,
            storage.wf(),
        ensures
            final(self).wf(),
            old(self)@.flows.sound() ==> final(self)@.flows.sound(),
            match old(self)@.control.receiver {
                ControlReceiveState::Deferred { receiver, frame } => if defers(
                    frame.frame_type,
                    old(self)@.flows.pending_inbound is Some,
                    old(self)@.control.sender.spec_phase(),
                ) {
                    final(self)@ == old(self)@ && output == only(DriverStep::Nothing)
                } else {
                    frame_processed(
                        old(self)@,
                        final(self)@,
                        receiver,
                        frame,
                        storage,
                        output,
                    )
                },
                _ => final(self)@ == old(self)@ && output == only(DriverStep::Nothing),
            },
    {
        let ready: bool = match &self.control.receiver {
            ControlReceiveState::Deferred { frame, .. } => !should_defer_received_frame(
                frame.frame_type,
                self.flow_control.has_pending_inbound(),
                self.control.sender.phase(),
            ),
            ControlReceiveState::Pending | ControlReceiveState::Terminal => false,
        };
        if !ready {
            return only_step(DriverStep::Nothing);
        }
        let mut state = ControlReceiveState::Pending;
        std::mem::swap(&mut self.control.receiver, &mut state);
        match state {
            ControlReceiveState::Deferred { receiver, frame } => {
                self.process_received_frame(receiver, frame, storage)
            },
            _ => only_step(DriverStep::Nothing),
        }
    }

    fn process_received_frame(
        &mut self,
        receiver: ControlReceiver,
        frame: ControlFrame,
        storage: DriverStorage,
    ) -> (output: DriverOutput)
        requires
            old(self).wf(),
            old(self)@.control.phase == DriverPhase::Active,
            storage.wf(),
        ensures
            final(self).wf(),
            old(self)@.flows.sound() ==> final(self)@.flows.sound(),
            frame_processed(
                old(self)@,
                final(self)@,
                receiver,
                frame,
                storage,
                output,
            ),
    {
        let ghost before = self@;
        let ghost frame_type = frame.frame_type;
        let ghost body = frame.body@;
        let DriverStorage { flow, datagram, report } = storage;
        let received = self.flow_control.receive(frame, flow);
        let ghost taken = DriverView { flows: self.flow_control@, ..before };
        proof {
            assert(crate::flow_control::frame_received(
                before.flows,
                taken.flows,
                frame_type,
                body,
                storage.flow.body,
                received,
            ));
        }
        let step = match received {
            Ok(step) => step,
            Err(error) => {
                let close = close_for_received_flow_control_error(&error);
                return self.end_with(ConnectionDriverError::ReceivedFlowControl(error), close);
            },
        };
        self.control.receiver = ControlReceiveState::Pending;
        let output = match step {
            FlowControlStep::Progress(progress) => self.route_flow_control_progress(
                progress,
                datagram,
                report,
            ),
            FlowControlStep::Establish(call) => only_step(
                DriverStep::Ask(DriverCall::Establish(call)),
            ),
            FlowControlStep::Terminate(call) => only_step(
                DriverStep::Ask(DriverCall::TerminateRemote(call)),
            ),
        };
        let receive = if self.control.phase == DriverPhase::Active {
            Some(receiver)
        } else {
            None
        };
        DriverOutput { step: output.step, close: output.close, send: output.send, receive }
    }

    fn route_flow_control_progress(
        &mut self,
        progress: FlowControlProgress,
        room: Result<(), TryReserveError>,
        report: ByteStorage,
    ) -> (output: DriverOutput)
        requires
            old(self).wf(),
            fresh(report),
        ensures
            final(self).wf(),
            old(self)@.flows.sound() ==> final(self)@.flows.sound(),
            progress_routed(old(self)@, final(self)@, progress, room, report, output),
            output.receive is None,
    {
        match process_received(progress) {
            FlowControlDriverProgress::InboundOpen(request) => only_step(
                DriverStep::Progress(EstablishedConnectionProgress::InboundOpen(request)),
            ),
            FlowControlDriverProgress::PendingSend(pending) => self.send_and(
                pending,
                EstablishedConnectionProgress::ControlSendStarted,
            ),
            FlowControlDriverProgress::OutboundEstablished(flow) => {
                self.route_outbound_established(flow, room, report)
            },
            FlowControlDriverProgress::OutboundRejected { flow_id, key, reason } => only_step(
                DriverStep::Progress(
                    EstablishedConnectionProgress::OutboundRejected { flow_id, key, reason },
                ),
            ),
            FlowControlDriverProgress::RemoteTerminated { flow, reason, termination } => only_step(
                DriverStep::Progress(
                    EstablishedConnectionProgress::RemoteTerminated { flow, reason, termination },
                ),
            ),
        }
    }

    fn route_outbound_established(
        &mut self,
        flow: EstablishedFlow,
        room: Result<(), TryReserveError>,
        report: ByteStorage,
    ) -> (output: DriverOutput)
        requires
            old(self).wf(),
            fresh(report),
        ensures
            final(self).wf(),
            old(self)@.flows.sound() ==> final(self)@.flows.sound(),
            match transport_owner(flow.mode) {
                OutboundTransportOwner::Reliable => {
                    &&& final(self)@ == old(self)@
                    &&& output == only(DriverStep::Ask(DriverCall::Schedule(flow)))
                },
                OutboundTransportOwner::Datagram => datagram_flow_registered(
                    old(self)@,
                    final(self)@,
                    flow,
                    room,
                    report,
                    output,
                ),
            },
            output.receive is None,
    {
        match outbound_transport_owner(flow.mode) {
            OutboundTransportOwner::Reliable => only_step(
                DriverStep::Ask(DriverCall::Schedule(flow)),
            ),
            OutboundTransportOwner::Datagram => {
                match self.datagram.register_outbound(&self.flow_control, flow, room) {
                    Ok(()) => only_step(
                        DriverStep::Progress(
                            EstablishedConnectionProgress::OutboundEstablished(flow),
                        ),
                    ),
                    Err(DatagramIoError::Allocation(error)) => {
                        let disposition = classify_known_flow_resource_failure(
                            &self.flow_control,
                            flow.flow_id,
                        );
                        self.finish_data_failure(
                            disposition,
                            ConnectionDriverError::Datagram(DatagramIoError::Allocation(error)),
                            report,
                        )
                    },
                    Err(error) => self.end_with(ConnectionDriverError::Datagram(error), None),
                }
            },
        }
    }

    /// Deals with a failure.
    fn finish_data_failure(
        &mut self,
        disposition: EstablishedDataFailureDisposition,
        terminal_error: ConnectionDriverError,
        report: ByteStorage,
    ) -> (output: DriverOutput)
        requires
            old(self).wf(),
            fresh(report),
        ensures
            final(self).wf(),
            old(self)@.flows.sound() ==> final(self)@.flows.sound(),
            failure_handled(
                old(self)@,
                final(self)@,
                disposition,
                terminal_error,
                report,
                output,
            ),
            output.receive is None,
    {
        let prepared = prepare_established_data_failure(&self.flow_control, disposition, report);
        proof {
            assert(prepared_failure(self@.flows, disposition, report, prepared));
        }
        match prepared {
            Err(error) => self.end_with(ConnectionDriverError::FailurePreparation(error), None),
            Ok(DataFailureStep::ConnectionTerminal { code }) => {
                let close = self.control.enter_terminal(code);
                DriverOutput {
                    step: DriverStep::Error(terminal_error),
                    close,
                    send: None,
                    receive: None,
                }
            },
            Ok(DataFailureStep::Terminate(call)) => only_step(
                DriverStep::Ask(DriverCall::TerminateFailed(call)),
            ),
            Ok(DataFailureStep::CleanupOnly { flow_id }) => only_step(
                DriverStep::Progress(EstablishedConnectionProgress::FlowFailureHandled { flow_id }),
            ),
            Ok(DataFailureStep::PendingSend(pending)) => {
                let flow_id = match disposition {
                    EstablishedDataFailureDisposition::TerminateAndReport { flow_id, .. }
                    | EstablishedDataFailureDisposition::ReportOnly { flow_id, .. }
                    | EstablishedDataFailureDisposition::CleanupOnly { flow_id } => flow_id,
                    EstablishedDataFailureDisposition::ConnectionTerminal { .. } => {
                        return only_step(DriverStep::Nothing)
                    },
                };
                self.send_and(
                    pending,
                    EstablishedConnectionProgress::FlowFailureHandled { flow_id },
                )
            },
        }
    }

    /// Takes the core's answer to ending a flow that failed, and tells the peer.
    pub fn failure_terminated(
        &mut self,
        call: LocalTerminate,
        answer: Result<FlowTermination, DeliveryOperationError>,
    ) -> (output: DriverOutput)
        requires
            old(self).wf(),
        ensures
            final(self).wf(),
            old(self)@.flows.sound() ==> final(self)@.flows.sound(),
            match answer {
                Err(error) => old(self)@.ends(
                    final(self)@,
                    ConnectionDriverError::FailurePreparation(FlowControlError::CoreState(error)),
                    None,
                    output,
                ),
                Ok(termination) => (DriverView {
                    flows: without_active(old(self)@.flows, call.flow.flow_id.spec_value()),
                    ..old(self)@
                }).sends(
                    final(self)@,
                    termination_send(
                        LocalTermination {
                            flow: call.flow,
                            reason: call.reason,
                            termination,
                            frame: call.frame,
                        },
                    ),
                    EstablishedConnectionProgress::FlowFailureHandled {
                        flow_id: call.flow.flow_id,
                    },
                    output,
                ),
            },
    {
        let flow_id = call.flow.flow_id;
        match self.flow_control.local_terminated(call, answer) {
            Err(error) => self.end_with(ConnectionDriverError::FailurePreparation(error), None),
            Ok(ended) => self.send_and(
                local_termination_send(ended),
                EstablishedConnectionProgress::FlowFailureHandled { flow_id },
            ),
        }
    }

    /// Takes the core's answer for an outbound flow that the peer granted.
    pub fn flow_established(
        &mut self,
        flow_id: FlowId,
        answer: Result<(), FlowEstablishmentError>,
        storage: DriverStorage,
    ) -> (output: DriverOutput)
        requires
            old(self).wf(),
            storage.wf(),
        ensures
            final(self).wf(),
            old(self)@.flows.sound() ==> final(self)@.flows.sound(),
            core_answered(
                old(self)@,
                final(self)@,
                flow_id,
                answer,
                storage,
                output,
            ),
    {
        let ghost before = self@;
        let DriverStorage { flow, datagram, report } = storage;
        let step = self.flow_control.outbound_established(flow_id, answer, flow);
        let ghost taken = DriverView { flows: self.flow_control@, ..before };
        proof {
            assert(outbound_answered(
                before.flows,
                taken.flows,
                flow_id,
                answer,
                storage.flow,
                step,
            ));
        }
        match step {
            Err(error) => {
                let close = close_for_received_flow_control_error(&error);
                self.end_with(ConnectionDriverError::ReceivedFlowControl(error), close)
            },
            Ok(OutboundStep::RollBack(rollback)) => only_step(
                DriverStep::Ask(DriverCall::RollBack(rollback)),
            ),
            Ok(OutboundStep::Progress(progress)) => self.route_flow_control_progress(
                progress,
                datagram,
                report,
            ),
        }
    }

    /// Takes the core's answer to ending an outbound flow again.
    pub fn flow_rolled_back(
        &mut self,
        rollback: OutboundRollback,
        answer: Result<FlowTermination, DeliveryOperationError>,
        storage: DriverStorage,
    ) -> (output: DriverOutput)
        requires
            old(self).wf(),
            storage.wf(),
        ensures
            final(self).wf(),
            old(self)@.flows.sound() ==> final(self)@.flows.sound(),
            match answer {
                Err(error) => frame_refused(
                    old(self)@,
                    final(self)@,
                    FlowControlError::CoreState(error),
                    output,
                ),
                Ok(termination) => if resource_shortage(rollback.error) {
                    exists|progress: Result<FlowControlProgress, FlowControlError>| #[trigger]
                        is_outbound_failure(
                            progress,
                            rollback.flow_id,
                            rollback.key,
                            Some(termination),
                            storage.flow.body,
                        ) && match progress {
                            Err(error) => frame_refused(old(self)@, final(self)@, error, output),
                            Ok(progress) => progress_routed(
                                old(self)@,
                                final(self)@,
                                progress,
                                storage.datagram,
                                storage.report,
                                output,
                            ),
                        }
                } else {
                    frame_refused(
                        old(self)@,
                        final(self)@,
                        FlowControlError::Registry(rollback.error),
                        output,
                    )
                },
            },
    {
        let DriverStorage { flow, datagram, report } = storage;
        let progress = self.flow_control.outbound_rolled_back(rollback, answer, flow.body);
        proof {
            if answer is Ok && resource_shortage(rollback.error) {
                assert(is_outbound_failure(
                    progress,
                    rollback.flow_id,
                    rollback.key,
                    Some(answer->Ok_0),
                    storage.flow.body,
                ));
            }
        }
        match progress {
            Err(error) => {
                let close = close_for_received_flow_control_error(&error);
                self.end_with(ConnectionDriverError::ReceivedFlowControl(error), close)
            },
            Ok(progress) => self.route_flow_control_progress(progress, datagram, report),
        }
    }

    /// Takes the core's answer to ending a flow that the peer ended.
    pub fn flow_terminated_remotely(
        &mut self,
        call: RemoteTerminate,
        answer: Result<FlowTermination, DeliveryOperationError>,
    ) -> (output: DriverOutput)
        requires
            old(self).wf(),
        ensures
            final(self).wf(),
            old(self)@.flows.sound() ==> final(self)@.flows.sound(),
            match answer {
                Err(error) => frame_refused(
                    old(self)@,
                    final(self)@,
                    FlowControlError::CoreState(error),
                    output,
                ),
                Ok(termination) => {
                    &&& final(self)@ == (DriverView {
                        flows: without_active(old(self)@.flows, call.flow.flow_id.spec_value()),
                        ..old(self)@
                    })
                    &&& output == only(
                        DriverStep::Progress(
                            EstablishedConnectionProgress::RemoteTerminated {
                                flow: call.flow,
                                reason: call.reason,
                                termination,
                            },
                        ),
                    )
                },
            },
    {
        match self.flow_control.remote_terminated(call, answer) {
            Err(error) => {
                let close = close_for_received_flow_control_error(&error);
                self.end_with(ConnectionDriverError::ReceivedFlowControl(error), close)
            },
            Ok(FlowControlProgress::RemoteTerminated { flow, reason, termination }) => only_step(
                DriverStep::Progress(
                    EstablishedConnectionProgress::RemoteTerminated { flow, reason, termination },
                ),
            ),
            Ok(_) => only_step(DriverStep::Nothing),
        }
    }

    /// Takes what came of opening a stream for an outbound flow.
    pub fn reliable_scheduled(
        &mut self,
        flow: EstablishedFlow,
        result: Result<(), ReliableIoError>,
        report: ByteStorage,
    ) -> (output: DriverOutput)
        requires
            old(self).wf(),
            fresh(report),
        ensures
            final(self).wf(),
            old(self)@.flows.sound() ==> final(self)@.flows.sound(),
            match result {
                Ok(()) => {
                    &&& final(self)@ == old(self)@
                    &&& output == only(
                        DriverStep::Progress(
                            EstablishedConnectionProgress::OutboundEstablished(flow),
                        ),
                    )
                },
                Err(error) => if error is Allocation {
                    failure_handled(
                        old(self)@,
                        final(self)@,
                        known_disposition(
                            flow.flow_id,
                            FlowTerminateReason::ResourceFailure,
                            old(self)@.flows.active.contains_key(flow.flow_id.spec_value()),
                            false,
                        ),
                        ConnectionDriverError::Reliable(error),
                        report,
                        output,
                    )
                } else {
                    old(self)@.ends(
                        final(self)@,
                        ConnectionDriverError::Reliable(error),
                        None,
                        output,
                    )
                },
            },
    {
        match result {
            Ok(()) => only_step(
                DriverStep::Progress(EstablishedConnectionProgress::OutboundEstablished(flow)),
            ),
            Err(ReliableIoError::Allocation(error)) => {
                let disposition = classify_known_flow_resource_failure(
                    &self.flow_control,
                    flow.flow_id,
                );
                self.finish_data_failure(
                    disposition,
                    ConnectionDriverError::Reliable(ReliableIoError::Allocation(error)),
                    report,
                )
            },
            Err(error) => self.end_with(ConnectionDriverError::Reliable(error), None),
        }
    }
}

/// The core answered for a flow that the peer granted.
pub open(crate) spec fn core_answered(
    before: DriverView,
    after: DriverView,
    flow_id: FlowId,
    answer: Result<(), FlowEstablishmentError>,
    storage: DriverStorage,
    output: DriverOutput,
) -> bool {
    exists|flows: FlowControlView, step: Result<OutboundStep, FlowControlError>| #[trigger]
        outbound_answered(before.flows, flows, flow_id, answer, storage.flow, step) && {
            let taken = DriverView { flows, ..before };
            match step {
                Err(error) => frame_refused(taken, after, error, output),
                Ok(OutboundStep::RollBack(rollback)) => {
                    &&& after == taken
                    &&& output == only(DriverStep::Ask(DriverCall::RollBack(rollback)))
                },
                Ok(OutboundStep::Progress(progress)) => progress_routed(
                    taken,
                    after,
                    progress,
                    storage.datagram,
                    storage.report,
                    output,
                ),
            }
        }
}

/// A frame of the peer was taken up.
pub open(crate) spec fn frame_processed(
    before: DriverView,
    after: DriverView,
    receiver: ControlReceiver,
    frame: ControlFrame,
    storage: DriverStorage,
    output: DriverOutput,
) -> bool {
    exists|flows: FlowControlView, step: Result<FlowControlStep, FlowControlError>| #[trigger]
        crate::flow_control::frame_received(
            before.flows,
            flows,
            frame.frame_type,
            frame.body@,
            storage.flow.body,
            step,
        ) && {
            let taken = DriverView { flows, ..before };
            let resumed = DriverView {
                control: DriverControl { receiver: ControlReceiveState::Pending, ..before.control },
                ..taken
            };
            match step {
                Err(error) => frame_refused(taken, after, error, output),
                Ok(step) => {
                    &&& output.receive == (if after.control.phase == DriverPhase::Active {
                        Some(receiver)
                    } else {
                        None
                    })
                    &&& step_routed(
                        resumed,
                        after,
                        step,
                        storage,
                        DriverOutput { receive: None, ..output },
                    )
                },
            }
        }
}

/// What flow control came to was passed on.
pub open(crate) spec fn step_routed(
    before: DriverView,
    after: DriverView,
    step: FlowControlStep,
    storage: DriverStorage,
    output: DriverOutput,
) -> bool {
    match step {
        FlowControlStep::Progress(progress) => progress_routed(
            before,
            after,
            progress,
            storage.datagram,
            storage.report,
            output,
        ),
        FlowControlStep::Establish(call) => {
            &&& after == before
            &&& output == only(DriverStep::Ask(DriverCall::Establish(call)))
        },
        FlowControlStep::Terminate(call) => {
            &&& after == before
            &&& output == only(DriverStep::Ask(DriverCall::TerminateRemote(call)))
        },
    }
}

/// What is to be done about a stream that could not be taken up, where anything is.
pub open spec fn acquisition_disposition(error: ReliableIoError) -> Option<
    EstablishedDataFailureDisposition,
> {
    match error {
        ReliableIoError::InboundConstruction(error) => Some(
            EstablishedDataFailureDisposition::ConnectionTerminal {
                code: construction_code(error),
            },
        ),
        ReliableIoError::Allocation(_) => Some(
            EstablishedDataFailureDisposition::ConnectionTerminal {
                code: Some(ApplicationErrorCode::ResourceLimitError),
            },
        ),
        ReliableIoError::Connection(_) => Some(
            EstablishedDataFailureDisposition::ConnectionTerminal { code: None },
        ),
        _ => None,
    }
}

impl EstablishedConnectionDriver {
    /// Takes what came of a stream for an outbound flow.
    pub fn poll_reliable_outbound_acquisition(
        &mut self,
        result: Result<(), ReliableIoError>,
        report: ByteStorage,
    ) -> (output: DriverOutput)
        requires
            old(self).wf(),
            fresh(report),
        ensures
            final(self).wf(),
            old(self)@.flows.sound() ==> final(self)@.flows.sound(),
            match result {
                Ok(()) => {
                    &&& final(self)@ == old(self)@
                    &&& output == only(
                        DriverStep::Progress(
                            EstablishedConnectionProgress::ReliableOutboundAcquisition,
                        ),
                    )
                },
                Err(error) => match error {
                    ReliableIoError::OutboundAcquisitionBinding { flow_id, error: sent } => {
                        failure_handled(
                            old(self)@,
                            final(self)@,
                            known_disposition(
                                flow_id,
                                send_failure_reason(sent),
                                old(self)@.flows.active.contains_key(flow_id.spec_value()),
                                false,
                            ),
                            ConnectionDriverError::Reliable(error),
                            report,
                            output,
                        )
                    },
                    _ => old(self)@.ends(
                        final(self)@,
                        ConnectionDriverError::Reliable(error),
                        None,
                        output,
                    ),
                },
            },
    {
        let error = match result {
            Ok(()) => {
                return only_step(
                    DriverStep::Progress(
                        EstablishedConnectionProgress::ReliableOutboundAcquisition,
                    ),
                )
            },
            Err(error) => error,
        };
        let disposition = match &error {
            ReliableIoError::OutboundAcquisitionBinding { flow_id, error: sent } => Some(
                classify_outbound_reliable_acquisition_failure(&self.flow_control, *flow_id, sent),
            ),
            _ => None,
        };
        match disposition {
            Some(disposition) => self.finish_data_failure(
                disposition,
                ConnectionDriverError::Reliable(error),
                report,
            ),
            None => self.end_with(ConnectionDriverError::Reliable(error), None),
        }
    }

    /// Takes what came of a stream of the peer.
    pub fn poll_reliable_inbound_acquisition(
        &mut self,
        result: Result<(), ReliableIoError>,
        report: ByteStorage,
    ) -> (output: DriverOutput)
        requires
            old(self).wf(),
            fresh(report),
        ensures
            final(self).wf(),
            old(self)@.flows.sound() ==> final(self)@.flows.sound(),
            match result {
                Ok(()) => {
                    &&& final(self)@ == old(self)@
                    &&& output == only(
                        DriverStep::Progress(
                            EstablishedConnectionProgress::ReliableInboundAcquired,
                        ),
                    )
                },
                Err(error) => match acquisition_disposition(error) {
                    Some(disposition) => failure_handled(
                        old(self)@,
                        final(self)@,
                        disposition,
                        ConnectionDriverError::Reliable(error),
                        report,
                        output,
                    ),
                    None => old(self)@.ends(
                        final(self)@,
                        ConnectionDriverError::Reliable(error),
                        None,
                        output,
                    ),
                },
            },
    {
        let error = match result {
            Ok(()) => {
                return only_step(
                    DriverStep::Progress(EstablishedConnectionProgress::ReliableInboundAcquired),
                )
            },
            Err(error) => error,
        };
        let disposition = match &error {
            ReliableIoError::InboundConstruction(received) => Some(
                classify_inbound_reliable_construction_failure(received),
            ),
            ReliableIoError::Allocation(_) => Some(
                EstablishedDataFailureDisposition::ConnectionTerminal {
                    code: Some(ApplicationErrorCode::ResourceLimitError),
                },
            ),
            ReliableIoError::Connection(_) => Some(
                EstablishedDataFailureDisposition::ConnectionTerminal { code: None },
            ),
            _ => None,
        };
        match disposition {
            Some(disposition) => self.finish_data_failure(
                disposition,
                ConnectionDriverError::Reliable(error),
                report,
            ),
            None => self.end_with(ConnectionDriverError::Reliable(error), None),
        }
    }

    /// Takes what came of sending on a stream.
    pub fn poll_reliable_outbound(
        &mut self,
        result: Result<(), ReliableIoError>,
        report: ByteStorage,
    ) -> (output: DriverOutput)
        requires
            old(self).wf(),
            fresh(report),
        ensures
            final(self).wf(),
            old(self)@.flows.sound() ==> final(self)@.flows.sound(),
            match result {
                Ok(()) => {
                    &&& final(self)@ == old(self)@
                    &&& output == only(
                        DriverStep::Progress(EstablishedConnectionProgress::Reliable),
                    )
                },
                Err(error) => if error is OutboundActiveBinding && !is_connection_loss(error) {
                    failure_handled(
                        old(self)@,
                        final(self)@,
                        outbound_disposition(old(self)@.flows, error),
                        ConnectionDriverError::Reliable(error),
                        report,
                        output,
                    )
                } else {
                    old(self)@.ends(
                        final(self)@,
                        ConnectionDriverError::Reliable(error),
                        None,
                        output,
                    )
                },
            },
    {
        let error = match result {
            Ok(()) => {
                return only_step(DriverStep::Progress(EstablishedConnectionProgress::Reliable))
            },
            Err(error) => error,
        };
        if reliable_active_error_is_connection_loss(&error) {
            return self.end_with(ConnectionDriverError::Reliable(error), None);
        }
        let disposition = match &error {
            ReliableIoError::OutboundActiveBinding { context, error: sent } => Some(
                classify_outbound_reliable_active_failure(&self.flow_control, *context, sent),
            ),
            _ => None,
        };
        match disposition {
            Some(disposition) => self.finish_data_failure(
                disposition,
                ConnectionDriverError::Reliable(error),
                report,
            ),
            None => self.end_with(ConnectionDriverError::Reliable(error), None),
        }
    }

    /// Takes what came of receiving on a stream.
    pub fn poll_reliable_inbound(
        &mut self,
        result: Result<(), ReliableIoError>,
        report: ByteStorage,
    ) -> (output: DriverOutput)
        requires
            old(self).wf(),
            fresh(report),
        ensures
            final(self).wf(),
            old(self)@.flows.sound() ==> final(self)@.flows.sound(),
            match result {
                Ok(()) => {
                    &&& final(self)@ == old(self)@
                    &&& output == only(
                        DriverStep::Progress(EstablishedConnectionProgress::Reliable),
                    )
                },
                Err(error) => if error is InboundActiveBinding && !is_connection_loss(error) {
                    failure_handled(
                        old(self)@,
                        final(self)@,
                        inbound_disposition(old(self)@.flows, error),
                        ConnectionDriverError::Reliable(error),
                        report,
                        output,
                    )
                } else {
                    old(self)@.ends(
                        final(self)@,
                        ConnectionDriverError::Reliable(error),
                        None,
                        output,
                    )
                },
            },
    {
        let error = match result {
            Ok(()) => {
                return only_step(DriverStep::Progress(EstablishedConnectionProgress::Reliable))
            },
            Err(error) => error,
        };
        if reliable_active_error_is_connection_loss(&error) {
            return self.end_with(ConnectionDriverError::Reliable(error), None);
        }
        let disposition = match &error {
            ReliableIoError::InboundActiveBinding { context, error: received } => Some(
                classify_inbound_reliable_active_failure(&self.flow_control, *context, received),
            ),
            _ => None,
        };
        match disposition {
            Some(disposition) => self.finish_data_failure(
                disposition,
                ConnectionDriverError::Reliable(error),
                report,
            ),
            None => self.end_with(ConnectionDriverError::Reliable(error), None),
        }
    }

    /// Takes what came of a round over the datagram flows.
    pub fn drive_datagram_outbound(
        &mut self,
        result: Result<Option<DatagramOutboundProgress>, DatagramIoError>,
        report: ByteStorage,
    ) -> (output: DriverOutput)
        requires
            old(self).wf(),
            fresh(report),
        ensures
            final(self).wf(),
            old(self)@.flows.sound() ==> final(self)@.flows.sound(),
            match result {
                Ok(None) => {
                    &&& final(self)@ == old(self)@
                    &&& output == only(DriverStep::Nothing)
                },
                Ok(Some(progress)) => {
                    &&& final(self)@ == old(self)@
                    &&& output == only(
                        DriverStep::Progress(
                            EstablishedConnectionProgress::DatagramOutbound(progress),
                        ),
                    )
                },
                Err(error) => match error {
                    DatagramIoError::Send { flow_id, error: sent } => failure_handled(
                        old(self)@,
                        final(self)@,
                        send_disposition(old(self)@.flows, flow_id, sent),
                        ConnectionDriverError::Datagram(error),
                        report,
                        output,
                    ),
                    _ => old(self)@.ends(
                        final(self)@,
                        ConnectionDriverError::Datagram(error),
                        None,
                        output,
                    ),
                },
            },
    {
        let error = match result {
            Ok(None) => return only_step(DriverStep::Nothing),
            Ok(Some(progress)) => {
                return only_step(
                    DriverStep::Progress(EstablishedConnectionProgress::DatagramOutbound(progress)),
                )
            },
            Err(error) => error,
        };
        let disposition = match &error {
            DatagramIoError::Send { flow_id, error: sent } => Some(
                classify_datagram_send_failure(&self.flow_control, *flow_id, sent),
            ),
            _ => None,
        };
        match disposition {
            Some(disposition) => self.finish_data_failure(
                disposition,
                ConnectionDriverError::Datagram(error),
                report,
            ),
            None => self.end_with(ConnectionDriverError::Datagram(error), None),
        }
    }

    /// Takes what came of a datagram of the peer.
    pub fn poll_datagram_inbound(
        &mut self,
        result: Result<DatagramReceiveOutcome, DatagramIoError>,
        report: ByteStorage,
    ) -> (output: DriverOutput)
        requires
            old(self).wf(),
            fresh(report),
        ensures
            final(self).wf(),
            old(self)@.flows.sound() ==> final(self)@.flows.sound(),
            match result {
                Ok(outcome) => {
                    &&& final(self)@ == old(self)@
                    &&& output == only(
                        DriverStep::Progress(
                            EstablishedConnectionProgress::DatagramInbound(outcome),
                        ),
                    )
                },
                Err(error) => match error {
                    DatagramIoError::Receive(failure) => failure_handled(
                        old(self)@,
                        final(self)@,
                        datagram_disposition(old(self)@.flows, failure),
                        ConnectionDriverError::Datagram(error),
                        report,
                        output,
                    ),
                    _ => old(self)@.ends(
                        final(self)@,
                        ConnectionDriverError::Datagram(error),
                        None,
                        output,
                    ),
                },
            },
    {
        let error = match result {
            Ok(outcome) => {
                return only_step(
                    DriverStep::Progress(EstablishedConnectionProgress::DatagramInbound(outcome)),
                )
            },
            Err(error) => error,
        };
        let disposition = match &error {
            DatagramIoError::Receive(failure) => Some(
                classify_datagram_receive_failure(&self.flow_control, failure),
            ),
            _ => None,
        };
        match disposition {
            Some(disposition) => self.finish_data_failure(
                disposition,
                ConnectionDriverError::Datagram(error),
                report,
            ),
            None => self.end_with(ConnectionDriverError::Datagram(error), None),
        }
    }

    /// The datagram side, and the flow control that its flows belong to.
    pub fn datagram_parts(&mut self) -> (parts: (&mut DatagramConnectionIo, &FlowControl))
        ensures
            parts.0@ == old(self)@.datagrams,
            parts.1@ == old(self)@.flows,
            old(self).wf() ==> parts.1.wf() && final(self).wf(),
            final(self)@ == (DriverView { datagrams: final(parts.0)@, ..old(self)@ }),
    {
        (&mut self.datagram, &self.flow_control)
    }
}

/// What is to be done about a stream that does not send on.
pub open(crate) spec fn outbound_disposition(
    flows: FlowControlView,
    error: ReliableIoError,
) -> EstablishedDataFailureDisposition {
    match error {
        ReliableIoError::OutboundActiveBinding { context, error } => context_disposition(
            flows,
            context,
            send_failure_reason(error),
            None,
        ),
        _ => EstablishedDataFailureDisposition::ConnectionTerminal { code: None },
    }
}

/// What is to be done about a stream that does not receive on.
pub open(crate) spec fn inbound_disposition(
    flows: FlowControlView,
    error: ReliableIoError,
) -> EstablishedDataFailureDisposition {
    match error {
        ReliableIoError::InboundActiveBinding { context, error } => context_disposition(
            flows,
            context,
            receive_failure_reason(error),
            unresolved_code(error),
        ),
        _ => EstablishedDataFailureDisposition::ConnectionTerminal { code: None },
    }
}

/// Why a decision on an inbound flow was not taken.
#[derive(Debug, PartialEq, Eq)]
pub enum InboundDecisionDriverError {
    /// Not now: the request is handed back.
    Unavailable { request: InboundOpenRequest, error: ConnectionDriverStateError },
    Driver(ConnectionDriverError),
}

/// What comes next for a decision on an inbound flow.
#[derive(Debug)]
pub enum InboundDecision {
    Send(SendCall),
    /// Have the core establish the flow.
    Establish(InboundEstablish),
    /// Have the core end the flow again.
    RollBack(InboundRollback),
}

/// How an outbound flow is ended.
#[derive(Debug)]
pub enum KeyedFinish {
    /// Have the stream bindings end the flow with its stream.
    EndStream(FlowId),
    /// Have the core end the flow, and tell the peer.
    Terminate(LocalTerminate),
}

/// Why a flow with a key was not ended.
#[derive(Debug, PartialEq, Eq)]
pub enum KeyedFinishError {
    State(ConnectionDriverStateError),
    UnknownFlow,
    Driver(ConnectionDriverError),
}

/// What comes of a submission, or of the end of a flow, on this connection.
#[derive(Debug)]
pub enum FinishStep {
    Started,
    /// The flow failed; what comes next says how.
    Failed(DriverOutput),
}

/// What comes next for a submission.
#[derive(Debug)]
pub enum SubmitStep {
    /// Not now: the message is handed back.
    Unavailable { flow_id: FlowId, payload: Vec<u8>, error: ConnectionDriverStateError },
    /// No flow of the connection has the key: the message is handed back.
    UnknownFlow { payload: Vec<u8> },
    /// Have the core accept the message.
    Submit { flow_id: FlowId, ticket: SubmissionTicket, payload: Vec<u8> },
    Submitted(DatagramSubmissionOutcome),
    /// The submission failed; what comes next says how.
    Failed(DriverOutput),
}

/// A frame is sent for a decision, or the driver ends because it cannot.
pub open spec fn decision_sent(
    before: DriverView,
    after: DriverView,
    pending: PendingFlowControlSend,
    decision: Result<InboundDecision, InboundDecisionDriverError>,
) -> bool {
    &&& after == (DriverView { control: before.control.after_send(), ..before })
    &&& match before.control.send_call(pending) {
        Ok(call) => decision == Ok::<_, InboundDecisionDriverError>(InboundDecision::Send(call)),
        Err(error) => decision == Err::<InboundDecision, _>(
            InboundDecisionDriverError::Driver(error),
        ),
    }
}

/// A decision failed: the driver ends, unless the request was not the one to decide on.
pub open spec fn decision_failed(
    before: DriverView,
    after: DriverView,
    error: InboundAdmissionError,
    decision: Result<InboundDecision, InboundDecisionDriverError>,
) -> bool {
    &&& after == (if error is RequestNotPending {
        before
    } else {
        before.terminated()
    })
    &&& decision == Err::<InboundDecision, _>(
        InboundDecisionDriverError::Driver(ConnectionDriverError::InboundAdmission(error)),
    )
}

/// A grant was taken.
pub open spec fn grant_taken(
    before: DriverView,
    after: DriverView,
    step: Result<InboundDriverStep, InboundAdmissionError>,
    decision: Result<InboundDecision, InboundDecisionDriverError>,
) -> bool {
    match step {
        Err(error) => decision_failed(before, after, error, decision),
        Ok(InboundDriverStep::PendingSend(pending)) => decision_sent(
            before,
            after,
            pending,
            decision,
        ),
        Ok(InboundDriverStep::Establish(establish)) => {
            &&& after == before
            &&& decision == Ok::<_, InboundDecisionDriverError>(
                InboundDecision::Establish(establish),
            )
        },
    }
}

/// The core's answer for an inbound flow was taken.
pub open spec fn establishment_taken(
    before: DriverView,
    after: DriverView,
    step: Result<InboundStep, InboundAdmissionError>,
    decision: Result<InboundDecision, InboundDecisionDriverError>,
) -> bool {
    match step {
        Err(error) => decision_failed(before, after, error, decision),
        Ok(InboundStep::Resolved(resolution)) => decision_sent(
            before,
            after,
            resolution_send(resolution),
            decision,
        ),
        Ok(InboundStep::RollBack(rollback)) => {
            &&& after == before
            &&& decision == Ok::<_, InboundDecisionDriverError>(InboundDecision::RollBack(rollback))
        },
        Ok(InboundStep::Establish(establish)) => {
            &&& after == before
            &&& decision == Ok::<_, InboundDecisionDriverError>(
                InboundDecision::Establish(establish),
            )
        },
    }
}

/// What a submission came to before or after the core was asked.
pub open(crate) spec fn submission_concluded(
    before: DriverView,
    after: DriverView,
    flow_id: FlowId,
    result: Result<DatagramSubmissionOutcome, DatagramSubmissionError>,
    report: ByteStorage,
    step: SubmitStep,
) -> bool {
    match result {
        Ok(outcome) => if outcome is RejectedTransportUnavailable {
            step matches SubmitStep::Failed(output) && before.ends(
                after,
                ConnectionDriverError::DatagramProfileUnavailable,
                None,
                output,
            )
        } else {
            after == before && step == SubmitStep::Submitted(outcome)
        },
        Err(error) => step matches SubmitStep::Failed(output) && if error is SequenceExhausted {
            failure_handled(
                before,
                after,
                exhaustion_disposition(before.flows, flow_id),
                ConnectionDriverError::DatagramSubmission(error),
                report,
                output,
            )
        } else if submission_error_is_terminal(error) {
            before.ends(
                after,
                ConnectionDriverError::DatagramSubmission(error),
                None,
                output,
            )
        } else {
            after == before && output == only(
                DriverStep::Error(ConnectionDriverError::DatagramSubmission(error)),
            )
        },
    }
}

impl EstablishedConnectionDriver {
    /// Asks the peer for a flow.
    pub fn open_outbound(
        &mut self,
        request: OutboundOpenRequest,
        facts: OutboundOpenFacts,
        current_datagram_size: Option<usize>,
        storage: FlowStorage,
    ) -> (call: Result<SendCall, ConnectionDriverError>)
        requires
            old(self).wf(),
            storage.wf(),
        ensures
            final(self).wf(),
            old(self)@.flows.sound() ==> final(self)@.flows.sound(),
            match old(self)@.control.unavailable() {
                Some(error) => {
                    &&& call == Err::<SendCall, _>(ConnectionDriverError::State(error))
                    &&& final(self)@ == old(self)@
                },
                None => match outbound_open_error(
                    old(self)@.flows,
                    request,
                    facts,
                    current_datagram_size,
                    storage,
                ) {
                    Some(error) => {
                        &&& call == Err::<SendCall, _>(ConnectionDriverError::OutboundOpen(error))
                        &&& final(self)@ == (if error is DatagramUnavailable {
                            old(self)@.terminated()
                        } else {
                            old(self)@
                        })
                    },
                    None => {
                        &&& call is Ok
                        &&& ControlSendState::Ready(call->Ok_0.sender) == old(self)@.control.sender
                        &&& call->Ok_0.pending.frame.holds(
                            ControlFrameType::OpenFlow,
                            (crate::wire::OpenFlow {
                                flow_id: old(self)@.flows.local_flow_ids.next_id(),
                                delivery_mode: request.mode,
                                max_message_bytes: request.stable_max_message_bytes as u64,
                            }).bytes(),
                        )
                        &&& call->Ok_0.pending.effect
                            == FlowControlSendEffect::OutboundOpenPrepared(
                            PreparedFlow {
                                flow_id: old(self)@.flows.local_flow_ids.next_id(),
                                key: request.key,
                                mode: request.mode,
                                max_message_bytes: request.stable_max_message_bytes,
                            },
                        )
                        &&& final(self)@ == (DriverView {
                            control: old(self)@.control.after_send(),
                            flows: crate::flow_control::after_open(old(self)@.flows, request),
                            ..old(self)@
                        })
                    },
                },
            },
    {
        if let Err(error) = self.control.require_control_send_ready() {
            return Err(ConnectionDriverError::State(error));
        }
        let pending = match crate::flow_driver::prepare_outbound_open(
            &mut self.flow_control,
            request,
            facts,
            current_datagram_size,
            storage,
        ) {
            Ok(pending) => pending,
            Err(error) => {
                if outbound_open_error_is_connection_terminal(&error) {
                    self.control.enter_terminal(None);
                }
                return Err(ConnectionDriverError::OutboundOpen(error));
            },
        };
        self.control.start_prepared_send(pending)
    }

    fn fail_decision(&mut self, error: InboundAdmissionError) -> (decision: Result<
        InboundDecision,
        InboundDecisionDriverError,
    >)
        requires
            old(self).wf(),
        ensures
            final(self).wf(),
            old(self)@.flows.sound() ==> final(self)@.flows.sound(),
            decision_failed(old(self)@, final(self)@, error, decision),
    {
        if inbound_admission_error_is_connection_terminal(&error) {
            self.control.enter_terminal(None);
        }
        Err(InboundDecisionDriverError::Driver(ConnectionDriverError::InboundAdmission(error)))
    }

    fn send_decision(&mut self, pending: PendingFlowControlSend) -> (decision: Result<
        InboundDecision,
        InboundDecisionDriverError,
    >)
        requires
            old(self).wf(),
        ensures
            final(self).wf(),
            old(self)@.flows.sound() ==> final(self)@.flows.sound(),
            decision_sent(old(self)@, final(self)@, pending, decision),
    {
        match self.control.start_prepared_send(pending) {
            Ok(call) => Ok(InboundDecision::Send(call)),
            Err(error) => Err(InboundDecisionDriverError::Driver(error)),
        }
    }

    /// Takes the host's grant of the peer's request.
    pub fn accept_inbound(
        &mut self,
        request: InboundOpenRequest,
        admission: InboundAdmission,
        policy_check: Result<(), DeliveryPolicyError>,
        storage: ByteStorage,
    ) -> (decision: Result<InboundDecision, InboundDecisionDriverError>)
        requires
            old(self).wf(),
            fresh(storage),
        ensures
            final(self).wf(),
            old(self)@.flows.sound() ==> final(self)@.flows.sound(),
            match old(self)@.control.unavailable() {
                Some(error) => {
                    &&& decision == Err::<InboundDecision, _>(
                        (InboundDecisionDriverError::Unavailable { request, error }),
                    )
                    &&& final(self)@ == old(self)@
                },
                None => exists|
                    flows: FlowControlView,
                    step: Result<InboundDriverStep, InboundAdmissionError>,
                | #[trigger]
                    crate::flow_driver::inbound_accepted(
                        old(self)@.flows,
                        flows,
                        request,
                        admission,
                        policy_check,
                        old(self)@.max_staging_bytes,
                        storage,
                        step,
                    ) && grant_taken(
                        DriverView { flows, ..old(self)@ },
                        final(self)@,
                        step,
                        decision,
                    ),
            },
    {
        if let Err(error) = self.control.require_control_send_ready() {
            return Err(InboundDecisionDriverError::Unavailable { request, error });
        }
        let ghost before = self@;
        let step = crate::flow_driver::accept_inbound(
            &mut self.flow_control,
            request,
            admission,
            policy_check,
            self.max_staging_bytes,
            storage,
        );
        let ghost taken = self@;
        proof {
            assert(crate::flow_driver::inbound_accepted(
                before.flows,
                taken.flows,
                request,
                admission,
                policy_check,
                old(self)@.max_staging_bytes,
                storage,
                step,
            ));
            assert(taken == DriverView { flows: taken.flows, ..before });
        }
        match step {
            Err(error) => self.fail_decision(error),
            Ok(InboundDriverStep::PendingSend(pending)) => self.send_decision(pending),
            Ok(InboundDriverStep::Establish(establish)) => Ok(
                InboundDecision::Establish(establish),
            ),
        }
    }

    /// Takes the core's answer for an inbound flow.
    pub fn inbound_established(
        &mut self,
        establish: InboundEstablish,
        answer: Result<(), FlowEstablishmentError>,
        storage: FlowStorage,
    ) -> (decision: Result<InboundDecision, InboundDecisionDriverError>)
        requires
            old(self).wf(),
            storage.wf(),
        ensures
            final(self).wf(),
            old(self)@.flows.sound() && establish.spec_admission().key.connection == old(
                self,
            )@.flows.connection ==> final(self)@.flows.sound(),
            exists|flows: FlowControlView, step: Result<InboundStep, InboundAdmissionError>|
             #[trigger]
                crate::flow_control::inbound_answered(
                    old(self)@.flows,
                    flows,
                    establish,
                    answer,
                    storage,
                    step,
                ) && establishment_taken(
                    DriverView { flows, ..old(self)@ },
                    final(self)@,
                    step,
                    decision,
                ),
    {
        let ghost before = self@;
        let step = self.flow_control.inbound_established(establish, answer, storage);
        proof {
            assert(crate::flow_control::inbound_answered(
                before.flows,
                self@.flows,
                establish,
                answer,
                storage,
                step,
            ));
        }
        match step {
            Err(error) => self.fail_decision(error),
            Ok(InboundStep::Resolved(resolution)) => self.send_decision(
                pending_inbound_resolution(resolution),
            ),
            Ok(InboundStep::RollBack(rollback)) => Ok(InboundDecision::RollBack(rollback)),
            Ok(InboundStep::Establish(establish)) => Ok(InboundDecision::Establish(establish)),
        }
    }

    /// Takes the core's answer to ending an inbound flow again.
    pub fn inbound_rolled_back(
        &mut self,
        rollback: InboundRollback,
        answer: Result<FlowTermination, DeliveryOperationError>,
        storage: ByteStorage,
    ) -> (decision: Result<InboundDecision, InboundDecisionDriverError>)
        requires
            old(self).wf(),
            fresh(storage),
        ensures
            final(self).wf(),
            old(self)@.flows.sound() ==> final(self)@.flows.sound(),
            ({
                let taken = DriverView { flows: decided(old(self)@.flows), ..old(self)@ };
                match answer {
                    Err(error) => decision_failed(
                        taken,
                        final(self)@,
                        InboundAdmissionError::CoreRollback(error),
                        decision,
                    ),
                    Ok(_) => if resource_shortage(rollback.spec_error()) {
                        rejection_taken(
                            taken,
                            final(self)@,
                            rollback.spec_request().spec_flow_id(),
                            FlowRejectReason::ResourceLimit,
                            storage,
                            decision,
                        )
                    } else {
                        decision_failed(
                            taken,
                            final(self)@,
                            InboundAdmissionError::Registry(rollback.spec_error()),
                            decision,
                        )
                    },
                }
            }),
    {
        let ghost shortage = resource_shortage(rollback.spec_error());
        let ghost flow_id = rollback.spec_request().spec_flow_id();
        let resolution = self.flow_control.inbound_rolled_back(rollback, answer, storage);
        proof {
            if answer is Ok && shortage {
                assert(crate::flow_control::is_resolved_rejection(
                    resolution,
                    flow_id,
                    FlowRejectReason::ResourceLimit,
                    storage,
                ));
            }
        }
        match resolution {
            Err(error) => self.fail_decision(error),
            Ok(resolution) => self.send_decision(pending_inbound_resolution(resolution)),
        }
    }

    /// Takes the host's refusal of the peer's request.
    pub fn reject_inbound(
        &mut self,
        request: InboundOpenRequest,
        reason: FlowRejectReason,
        storage: ByteStorage,
    ) -> (decision: Result<InboundDecision, InboundDecisionDriverError>)
        requires
            old(self).wf(),
            fresh(storage),
        ensures
            final(self).wf(),
            old(self)@.flows.sound() ==> final(self)@.flows.sound(),
            match old(self)@.control.unavailable() {
                Some(error) => {
                    &&& decision == Err::<InboundDecision, _>(
                        (InboundDecisionDriverError::Unavailable { request, error }),
                    )
                    &&& final(self)@ == old(self)@
                },
                None => if old(self)@.flows.pending_inbound != Some(request.pending()) {
                    decision_failed(
                        old(self)@,
                        final(self)@,
                        InboundAdmissionError::RequestNotPending(request.spec_flow_id()),
                        decision,
                    )
                } else {
                    rejection_taken(
                        DriverView { flows: decided(old(self)@.flows), ..old(self)@ },
                        final(self)@,
                        request.spec_flow_id(),
                        reason,
                        storage,
                        decision,
                    )
                },
            },
    {
        if let Err(error) = self.control.require_control_send_ready() {
            return Err(InboundDecisionDriverError::Unavailable { request, error });
        }
        let ghost flow_id = request.spec_flow_id();
        let ghost was_pending = self@.flows.pending_inbound == Some(request.pending());
        let resolution = self.flow_control.reject_inbound(request, reason, storage);
        proof {
            if was_pending {
                assert(crate::flow_control::is_resolved_rejection(
                    resolution,
                    flow_id,
                    reason,
                    storage,
                ));
            }
        }
        match resolution {
            Err(error) => self.fail_decision(error),
            Ok(resolution) => self.send_decision(pending_inbound_resolution(resolution)),
        }
    }

    /// Takes what came of ending a reliable flow with its stream. `classified` is what the
    /// stream bindings make of a flow that could not be ended, where they make anything of
    /// it.
    pub fn request_outbound_finish_normal(
        &mut self,
        result: Result<(), ReliableIoError>,
        classified: Option<EstablishedDataFailureDisposition>,
        report: ByteStorage,
    ) -> (step: FinishStep)
        requires
            old(self).wf(),
            fresh(report),
        ensures
            final(self).wf(),
            old(self)@.flows.sound() ==> final(self)@.flows.sound(),
            match old(self)@.control.unavailable() {
                Some(error) => {
                    &&& final(self)@ == old(self)@
                    &&& step == FinishStep::Failed(
                        only(DriverStep::Error(ConnectionDriverError::State(error))),
                    )
                },
                None => match result {
                    Ok(()) => final(self)@ == old(self)@ && step == FinishStep::Started,
                    Err(error) => step matches FinishStep::Failed(output)
                        && finish_failed(
                        old(self)@,
                        final(self)@,
                        error,
                        classified,
                        report,
                        output,
                    ),
                },
            },
    {
        if let Err(error) = self.control.require_control_send_ready() {
            return FinishStep::Failed(
                only_step(DriverStep::Error(ConnectionDriverError::State(error))),
            );
        }
        let error = match result {
            Ok(()) => return FinishStep::Started,
            Err(error) => error,
        };
        let (harmless, finishing): (bool, bool) = match &error {
            ReliableIoError::State(ReliableIoStateError::OutboundAcquisitionPending)
            | ReliableIoError::State(ReliableIoStateError::UnknownOutboundFlow) => (true, false),
            ReliableIoError::OutboundFinish { .. } => (false, true),
            _ => (false, false),
        };
        let output = if harmless {
            only_step(DriverStep::Error(ConnectionDriverError::Reliable(error)))
        } else if finishing {
            match classified {
                None => only_step(DriverStep::Error(ConnectionDriverError::Reliable(error))),
                Some(disposition) => self.finish_data_failure(
                    disposition,
                    ConnectionDriverError::Reliable(error),
                    report,
                ),
            }
        } else {
            self.end_with(ConnectionDriverError::Reliable(error), None)
        };
        FinishStep::Failed(output)
    }

    /// Begins to end an outbound flow by its key. `stream_flow` is the flow that the stream
    /// bindings know under the key; only a reliable flow is looked for there.
    pub fn request_outbound_finish_normal_by_key(
        &self,
        key: DeliveryFlowKey,
        mode: DeliveryMode,
        stream_flow: Option<FlowId>,
        storage: ByteStorage,
    ) -> (finish: Result<KeyedFinish, KeyedFinishError>)
        requires
            self.wf(),
            fresh(storage),
        ensures
            match self@.control.unavailable() {
                Some(error) => finish == Err::<KeyedFinish, _>(KeyedFinishError::State(error)),
                None => match transport_owner(mode) {
                    OutboundTransportOwner::Reliable => finish == match stream_flow {
                        Some(flow_id) => Ok(KeyedFinish::EndStream(flow_id)),
                        None => Err(KeyedFinishError::UnknownFlow),
                    },
                    OutboundTransportOwner::Datagram => datagram_finish(
                        self@,
                        key,
                        storage,
                        finish,
                    ),
                },
            },
    {
        if let Err(error) = self.control.require_control_send_ready() {
            return Err(KeyedFinishError::State(error));
        }
        match outbound_transport_owner(mode) {
            OutboundTransportOwner::Reliable => match stream_flow {
                Some(flow_id) => Ok(KeyedFinish::EndStream(flow_id)),
                None => Err(KeyedFinishError::UnknownFlow),
            },
            OutboundTransportOwner::Datagram => {
                let flow_id = match self.datagram.outbound_flow_id(&self.flow_control, key) {
                    Some(flow_id) => flow_id,
                    None => return Err(KeyedFinishError::UnknownFlow),
                };
                let ended = self.flow_control.terminate_local(
                    flow_id,
                    FlowTerminateReason::Normal,
                    storage,
                );
                match ended {
                    Ok(call) => Ok(KeyedFinish::Terminate(call)),
                    Err(error) => Err(
                        KeyedFinishError::Driver(ConnectionDriverError::FailurePreparation(error)),
                    ),
                }
            },
        }
    }

    /// Takes the core's answer to ending a flow by its key, and tells the peer.
    pub fn finish_terminated(
        &mut self,
        call: LocalTerminate,
        answer: Result<FlowTermination, DeliveryOperationError>,
    ) -> (sent: Result<SendCall, KeyedFinishError>)
        requires
            old(self).wf(),
        ensures
            final(self).wf(),
            old(self)@.flows.sound() ==> final(self)@.flows.sound(),
            match answer {
                Err(error) => {
                    &&& final(self)@ == old(self)@
                    &&& sent == Err::<SendCall, _>(
                        KeyedFinishError::Driver(
                            ConnectionDriverError::FailurePreparation(
                                FlowControlError::CoreState(error),
                            ),
                        ),
                    )
                },
                Ok(termination) => {
                    &&& final(self)@ == (DriverView {
                        control: old(self)@.control.after_send(),
                        flows: without_active(old(self)@.flows, call.flow.flow_id.spec_value()),
                        ..old(self)@
                    })
                    &&& match old(self)@.control.send_call(
                        termination_send(
                            LocalTermination {
                                flow: call.flow,
                                reason: call.reason,
                                termination,
                                frame: call.frame,
                            },
                        ),
                    ) {
                        Ok(call) => sent == Ok::<_, KeyedFinishError>(call),
                        Err(error) => sent == Err::<SendCall, _>(KeyedFinishError::Driver(error)),
                    }
                },
            },
    {
        match self.flow_control.local_terminated(call, answer) {
            Err(error) => Err(
                KeyedFinishError::Driver(ConnectionDriverError::FailurePreparation(error)),
            ),
            Ok(ended) => match self.control.start_prepared_send(local_termination_send(ended)) {
                Ok(call) => Ok(call),
                Err(error) => Err(KeyedFinishError::Driver(error)),
            },
        }
    }

    fn conclude_submission(
        &mut self,
        flow_id: FlowId,
        result: Result<DatagramSubmissionOutcome, DatagramSubmissionError>,
        report: ByteStorage,
    ) -> (step: SubmitStep)
        requires
            old(self).wf(),
            fresh(report),
        ensures
            final(self).wf(),
            old(self)@.flows.sound() ==> final(self)@.flows.sound(),
            submission_concluded(old(self)@, final(self)@, flow_id, result, report, step),
    {
        match result {
            Ok(outcome) => {
                if datagram_submission_outcome_is_connection_terminal(outcome) {
                    return SubmitStep::Failed(
                        self.end_with(ConnectionDriverError::DatagramProfileUnavailable, None),
                    );
                }
                SubmitStep::Submitted(outcome)
            },
            Err(error) => {
                let disposition = classify_datagram_submission_error(
                    &self.flow_control,
                    flow_id,
                    &error,
                );
                let output = match disposition {
                    Some(disposition) => self.finish_data_failure(
                        disposition,
                        ConnectionDriverError::DatagramSubmission(error),
                        report,
                    ),
                    None => if datagram_submission_error_is_connection_terminal(&error) {
                        self.end_with(ConnectionDriverError::DatagramSubmission(error), None)
                    } else {
                        only_step(
                            DriverStep::Error(ConnectionDriverError::DatagramSubmission(error)),
                        )
                    },
                };
                SubmitStep::Failed(output)
            },
        }
    }

    /// Begins to submit a message on an unreliable flow. `next_index` is the index that the
    /// core would give next.
    pub fn submit_unreliable(
        &mut self,
        flow_id: FlowId,
        payload: Vec<u8>,
        next_index: Result<Option<u64>, DeliveryOperationError>,
        max_datagram_size: Option<usize>,
        report: ByteStorage,
    ) -> (step: SubmitStep)
        requires
            old(self).wf(),
            fresh(report),
        ensures
            final(self).wf(),
            old(self)@.flows.sound() ==> final(self)@.flows.sound(),
            submission_begun(
                old(self)@,
                final(self)@,
                flow_id,
                payload,
                next_index,
                max_datagram_size,
                report,
                step,
            ),
    {
        if let Err(error) = self.control.require_control_send_ready() {
            return SubmitStep::Unavailable { flow_id, payload, error };
        }
        match self.datagram.sender().submit(
            self.flow_control.registry(),
            flow_id,
            payload.len(),
            next_index,
            max_datagram_size,
        ) {
            Ok(SubmissionStep::Submit(ticket)) => SubmitStep::Submit { flow_id, ticket, payload },
            Ok(SubmissionStep::Done(outcome)) => self.conclude_submission(
                flow_id,
                Ok(outcome),
                report,
            ),
            Err(error) => self.conclude_submission(flow_id, Err(error), report),
        }
    }

    /// Begins to submit a message on an unreliable flow by its key.
    pub fn submit_unreliable_by_key(
        &mut self,
        key: DeliveryFlowKey,
        payload: Vec<u8>,
        next_index: Result<Option<u64>, DeliveryOperationError>,
        max_datagram_size: Option<usize>,
        report: ByteStorage,
    ) -> (step: SubmitStep)
        requires
            old(self).wf(),
            fresh(report),
        ensures
            final(self).wf(),
            old(self)@.flows.sound() ==> final(self)@.flows.sound(),
            if !drives_key(old(self)@.flows, old(self)@.datagrams.outbound, key) {
                final(self)@ == old(self)@ && step == (SubmitStep::UnknownFlow { payload })
            } else {
                exists|flow_id: FlowId| #[trigger]
                    is_first_with_key(
                        old(self)@.flows,
                        old(self)@.datagrams.outbound,
                        key,
                        flow_id,
                    ) && submission_begun(
                        old(self)@,
                        final(self)@,
                        flow_id,
                        payload,
                        next_index,
                        max_datagram_size,
                        report,
                        step,
                    )
            },
    {
        match self.datagram.outbound_flow_id(&self.flow_control, key) {
            None => SubmitStep::UnknownFlow { payload },
            Some(flow_id) => {
                self.submit_unreliable(flow_id, payload, next_index, max_datagram_size, report)
            },
        }
    }

    /// Takes the core's answer to a submission.
    pub fn submitted(
        &mut self,
        flow_id: FlowId,
        ticket: SubmissionTicket,
        answer: Result<SubmissionOutcome, DeliveryOperationError>,
        report: ByteStorage,
    ) -> (step: SubmitStep)
        requires
            old(self).wf(),
            fresh(report),
        ensures
            final(self).wf(),
            old(self)@.flows.sound() ==> final(self)@.flows.sound(),
            submission_concluded(
                old(self)@,
                final(self)@,
                flow_id,
                submission_outcome(ticket, answer),
                report,
                step,
            ),
    {
        let result = self.datagram.sender().submitted(ticket, answer);
        self.conclude_submission(flow_id, result, report)
    }

    /// Gives the connection up.
    pub fn teardown(self) -> (call: TeardownCall)
        ensures
            call.connection == self@.teardown.connection,
            call.release == self@.teardown.exchange@.manager_owned,
            call.connection_permit == self@.teardown.connection_permit,
    {
        self.teardown.teardown()
    }
}

/// What ending a flow that datagrams are sent on comes to.
pub open(crate) spec fn datagram_finish(
    state: DriverView,
    key: DeliveryFlowKey,
    storage: ByteStorage,
    finish: Result<KeyedFinish, KeyedFinishError>,
) -> bool {
    if !drives_key(state.flows, state.datagrams.outbound, key) {
        finish == Err::<KeyedFinish, _>(KeyedFinishError::UnknownFlow)
    } else {
        match storage {
            Err(error) => finish == Err::<KeyedFinish, _>(
                KeyedFinishError::Driver(
                    ConnectionDriverError::FailurePreparation(FlowControlError::Allocation(error)),
                ),
            ),
            Ok(_) => finish matches Ok(KeyedFinish::Terminate(call)) && is_first_with_key(
                state.flows,
                state.datagrams.outbound,
                key,
                call.flow.flow_id,
            ) && ends_normally(state.flows, call),
        }
    }
}

/// The core is to end a flow normally, and the peer is to be told so.
pub open(crate) spec fn ends_normally(state: FlowControlView, call: LocalTerminate) -> bool {
    &&& call.flow == crate::flow_control::established(
        call.flow.flow_id,
        state.active[call.flow.flow_id.spec_value()],
    )
    &&& call.reason == FlowTerminateReason::Normal
    &&& call.frame.holds(
        ControlFrameType::FlowTerminate,
        (crate::wire::FlowTerminate {
            flow_id: call.flow.flow_id,
            reason: FlowTerminateReason::Normal,
        }).bytes(),
    )
}

/// The peer is told that its request is refused, or the decision fails for want of memory.
pub open(crate) spec fn rejection_taken(
    before: DriverView,
    after: DriverView,
    flow_id: FlowId,
    reason: FlowRejectReason,
    storage: ByteStorage,
    decision: Result<InboundDecision, InboundDecisionDriverError>,
) -> bool {
    exists|resolution: Result<crate::flow_control::InboundResolution, InboundAdmissionError>|
     #[trigger]
        crate::flow_control::is_resolved_rejection(resolution, flow_id, reason, storage)
            && match resolution {
            Err(error) => decision_failed(before, after, error, decision),
            Ok(resolution) => decision_sent(before, after, resolution_send(resolution), decision),
        }
}

/// A reliable flow was not ended with its stream.
pub open(crate) spec fn finish_failed(
    before: DriverView,
    after: DriverView,
    error: ReliableIoError,
    classified: Option<EstablishedDataFailureDisposition>,
    report: ByteStorage,
    output: DriverOutput,
) -> bool {
    let misuse = ReliableIoError::State(ReliableIoStateError::OutboundAcquisitionPending) == error
        || ReliableIoError::State(ReliableIoStateError::UnknownOutboundFlow) == error;
    if misuse || (error is OutboundFinish && classified is None) {
        after == before && output == only(
            DriverStep::Error(ConnectionDriverError::Reliable(error)),
        )
    } else if error is OutboundFinish {
        failure_handled(
            before,
            after,
            classified->0,
            ConnectionDriverError::Reliable(error),
            report,
            output,
        )
    } else {
        before.ends(after, ConnectionDriverError::Reliable(error), None, output)
    }
}

/// A submission was begun.
pub open(crate) spec fn submission_begun(
    before: DriverView,
    after: DriverView,
    flow_id: FlowId,
    payload: Vec<u8>,
    next_index: Result<Option<u64>, DeliveryOperationError>,
    max_datagram_size: Option<usize>,
    report: ByteStorage,
    step: SubmitStep,
) -> bool {
    match before.control.unavailable() {
        Some(error) => {
            &&& after == before
            &&& step == (SubmitStep::Unavailable { flow_id, payload, error })
        },
        None => match submission_step(
            established_as(before.flows, flow_id),
            flow_id,
            payload@.len(),
            next_index,
            max_datagram_size,
        ) {
            Ok(SubmissionStep::Submit(ticket)) => {
                &&& after == before
                &&& step == (SubmitStep::Submit { flow_id, ticket, payload })
            },
            Ok(SubmissionStep::Done(outcome)) => submission_concluded(
                before,
                after,
                flow_id,
                Ok(outcome),
                report,
                step,
            ),
            Err(error) => submission_concluded(before, after, flow_id, Err(error), report, step),
        },
    }
}

/// An operation that may have to tell the peer is possible exactly where the driver goes on
/// and its sender is idle; it is told to wait exactly where the sender is under way, and that
/// all is over everywhere else.
pub proof fn law_operations_need_an_idle_sender(
    phase: DriverPhase,
    sender: ControlSendPhase,
    frame_type: ControlFrameType,
    pending_inbound: bool,
)
    ensures
        operation_error(phase, sender) is None <==> phase == DriverPhase::Active && sender
            == ControlSendPhase::Ready,
        operation_error(phase, sender) == Some(ConnectionDriverStateError::ControlSendBusy)
            <==> phase == DriverPhase::Active && sender == ControlSendPhase::Pending,
        operation_error(phase, sender) == Some(ConnectionDriverStateError::Terminal) <==> phase
            == DriverPhase::Terminal || sender == ControlSendPhase::Terminal,
        !defers(frame_type, pending_inbound, sender) <==> sender == ControlSendPhase::Ready && (
        !pending_inbound || frame_type != ControlFrameType::OpenFlow),
{
}

/// Streams carry reliable flows and datagrams the others. A reliable flow lost its connection
/// exactly where its transport says so. A submission ends the connection for what no host can
/// cause, and not for a flow that the host named wrongly or that ran out of indices.
pub proof fn law_failures_are_told_apart(
    mode: DeliveryMode,
    flow_id: FlowId,
    context: crate::reliable::ReliableFailureContext,
    sent: SendError,
    received: ReceiveError,
    other: ReliableIoError,
    submission: DatagramSubmissionError,
)
    ensures
        transport_owner(mode) == OutboundTransportOwner::Reliable <==> mode
            == DeliveryMode::ReliableOrdered,
        transport_owner(mode) == OutboundTransportOwner::Datagram <==> mode
            == DeliveryMode::UnreliableUnordered || mode == DeliveryMode::UnreliableSequenced,
        is_connection_loss(ReliableIoError::OutboundActiveBinding { context, error: sent })
            <==> sent == SendError::Io(IoFailure::ConnectionLost),
        is_connection_loss(ReliableIoError::InboundActiveBinding { context, error: received })
            <==> received == ReceiveError::Io(IoFailure::ConnectionLost),
        is_connection_loss(other) ==> other is OutboundActiveBinding || other
            is InboundActiveBinding,
        !submission_error_is_terminal(submission) <==> submission is UnknownFlowId || submission
            is WrongDirection || submission is ReliableFlow || submission is SequenceExhausted,
{
}

/// The kinds of work have one place each among eight, control frames first, and a round goes
/// from each place to the next and from the last to the first. Data is what is not a control
/// frame.
pub proof fn law_work_is_polled_in_turn(
    left: DriverCategory,
    right: DriverCategory,
    turn: PollTurn,
    offset: int,
)
    requires
        turn.wf(),
        0 <= offset,
    ensures
        0 <= left.place() < 8,
        left.place() == right.place() <==> left == right,
        DriverCategory::ControlSend.place() < DriverCategory::ControlReceive.place(),
        DriverCategory::ControlReceive.place()
            < DriverCategory::ReliableOutboundAcquisition.place(),
        DriverCategory::ReliableOutboundAcquisition.place()
            < DriverCategory::ReliableInboundAcquisition.place(),
        DriverCategory::ReliableInboundAcquisition.place()
            < DriverCategory::ReliableOutbound.place(),
        DriverCategory::ReliableOutbound.place() < DriverCategory::ReliableInbound.place(),
        DriverCategory::ReliableInbound.place() < DriverCategory::DatagramOutbound.place(),
        DriverCategory::DatagramOutbound.place() < DriverCategory::DatagramInbound.place(),
        left.is_data() <==> left != DriverCategory::ControlSend && left
            != DriverCategory::ControlReceive,
        turn.place_at(0) == turn.start,
        turn.place_at(offset) < 7 ==> turn.place_at(offset + 1) == turn.place_at(offset) + 1,
        turn.place_at(offset) == 7 ==> turn.place_at(offset + 1) == 0,
        0 <= turn.place_at(offset) < 8,
{
}

/// A round passes over data exactly while the driver is over or its sender is under way, and
/// never over control frames.
pub proof fn law_data_waits_for_the_sender(
    control: DriverControl,
    turn: PollTurn,
    offset: int,
    category: DriverCategory,
)
    requires
        turn.wf(),
        0 <= offset,
        category.place() == turn.place_at(offset),
    ensures
        control.data_allowed() <==> control.unavailable() is None,
        control.data_allowed() <==> control.phase == DriverPhase::Active && control.sender is Ready,
        control.passes_over(turn, offset) <==> !control.data_allowed() && category
            != DriverCategory::ControlSend && category != DriverCategory::ControlReceive,
{
}

/// A frame goes out with the one sender, exactly where the driver goes on and the sender is
/// idle; the sender is then under way, and nothing else has changed. Otherwise the driver is
/// over, and says whether it was so or the sender was under way.
pub proof fn law_frames_go_out_with_the_one_sender(
    control: DriverControl,
    pending: PendingFlowControlSend,
)
    ensures
        ({
            let call = control.send_call(pending);
            let after = control.after_send();
            let going = control.phase == DriverPhase::Active;
            &&& call is Ok <==> going && control.sender is Ready
            &&& call matches Ok(call) ==> {
                &&& control.sender == ControlSendState::Ready(call.sender)
                &&& call.pending == pending
                &&& after.sender is Pending
                &&& after.receiver == control.receiver
                &&& after.phase == DriverPhase::Active
            }
            &&& call is Err ==> after.phase == DriverPhase::Terminal
            &&& call is Err && going ==> after.sender is Terminal && after.receiver is Terminal
            &&& going && control.sender is Pending ==> call == Err::<SendCall, _>(
                ConnectionDriverError::State(ConnectionDriverStateError::ControlSendBusy),
            )
            &&& !going || control.sender is Terminal ==> call == Err::<SendCall, _>(
                ConnectionDriverError::State(ConnectionDriverStateError::Terminal),
            )
            &&& after.poll_cursor == control.poll_cursor
        }),
{
}

/// A driver that ends has neither sender nor receiver any more, tells its error and what to
/// close with, and leaves its flows, its datagrams and what is to be given up as they were. It
/// is over then: nothing is closed a second time.
pub proof fn law_an_end_changes_nothing_else(
    before: DriverView,
    after: DriverView,
    error: ConnectionDriverError,
    close: Option<CloseOrder>,
    output: DriverOutput,
    code: Option<ApplicationErrorCode>,
)
    requires
        before.ends(after, error, close, output),
    ensures
        after.control.phase == DriverPhase::Terminal,
        after.control.sender is Terminal,
        after.control.receiver is Terminal,
        after.control.poll_cursor == before.control.poll_cursor,
        after.control.wf() <==> before.control.poll_cursor < 8,
        after.flows == before.flows,
        after.datagrams == before.datagrams,
        after.max_staging_bytes == before.max_staging_bytes,
        after.teardown == before.teardown,
        output.step == DriverStep::Error(error),
        output.close == close,
        output.send is None,
        output.receive is None,
        after.closes(code) is None,
        before.control.phase == DriverPhase::Active && code is Some ==> {
            before.closes(code) matches Some(order) && order.code == code->0 && order.reason
                == CloseReason::EstablishedData
        },
        code is None ==> before.closes(code) is None,
{
}

/// Where a frame is to be sent, the host is handed that frame with the one sender and told of
/// the progress; flows and datagrams stay. Where it cannot be sent, the driver ends and says
/// so, and nothing is sent or closed.
pub proof fn law_sends_change_the_sender_alone(
    before: DriverView,
    after: DriverView,
    pending: PendingFlowControlSend,
    progress: EstablishedConnectionProgress,
    output: DriverOutput,
)
    requires
        before.sends(after, pending, progress, output),
    ensures
        ({
            let idle = before.control.phase == DriverPhase::Active && before.control.sender
                is Ready;
            &&& output.send is Some <==> idle
            &&& idle ==> {
                &&& output.step == DriverStep::Progress(progress)
                &&& output.send->0.pending == pending
                &&& before.control.sender == ControlSendState::Ready(output.send->0.sender)
                &&& after.control.sender is Pending
                &&& after.control.receiver == before.control.receiver
                &&& after.control.phase == DriverPhase::Active
            }
            &&& !idle ==> output.step is Error && after.control.phase == DriverPhase::Terminal
            &&& output.close is None
            &&& output.receive is None
            &&& after.control.poll_cursor == before.control.poll_cursor
            &&& after.flows == before.flows
            &&& after.datagrams == before.datagrams
            &&& after.max_staging_bytes == before.max_staging_bytes
            &&& after.teardown == before.teardown
        }),
{
}

/// A failure of one flow leaves the connection going where the sender is idle and there is
/// memory: the core is asked to end an established flow, the peer is told of one that is
/// gone, and one that needs no telling is done with. The failure of the connection ends the
/// driver with that error and closes with its code.
pub proof fn law_failed_flows_do_not_end_the_connection(
    before: DriverView,
    after: DriverView,
    disposition: EstablishedDataFailureDisposition,
    error: ConnectionDriverError,
    storage: ByteStorage,
    output: DriverOutput,
)
    requires
        failure_handled(before, after, disposition, error, storage, output),
        storage is Ok,
    ensures
        after.flows == before.flows,
        after.datagrams == before.datagrams,
        after.teardown == before.teardown,
        disposition matches EstablishedDataFailureDisposition::CleanupOnly { flow_id } ==> {
            &&& after == before
            &&& output == only(
                DriverStep::Progress(EstablishedConnectionProgress::FlowFailureHandled { flow_id }),
            )
        },
        disposition matches EstablishedDataFailureDisposition::ConnectionTerminal { code } ==> {
            &&& after.control.phase == DriverPhase::Terminal
            &&& output.step == DriverStep::Error(error)
            &&& output.send is None
            &&& output.close is Some <==> before.control.phase == DriverPhase::Active && code
                is Some
            &&& output.close is Some ==> Some(output.close->0.code) == code
        },
        disposition matches EstablishedDataFailureDisposition::TerminateAndReport {
            flow_id,
            reason,
        } ==> {
            let known = before.flows.active.contains_key(flow_id.spec_value());
            let by_stream = before.flows.active[flow_id.spec_value()].mode
                == DeliveryMode::ReliableOrdered && reason == FlowTerminateReason::Normal;
            known && !by_stream ==> {
                &&& after == before
                &&& output.step matches DriverStep::Ask(DriverCall::TerminateFailed(call))
                    && call.flow.flow_id == flow_id && call.reason == reason
                &&& output.send is None
                &&& output.close is None
            }
        },
        disposition matches EstablishedDataFailureDisposition::ReportOnly { flow_id, reason } ==> {
            let known = before.flows.active.contains_key(flow_id.spec_value());
            let idle = before.control.phase == DriverPhase::Active && before.control.sender
                is Ready;
            !known && idle ==> {
                &&& after.control.phase == DriverPhase::Active
                &&& output.step == DriverStep::Progress(
                    EstablishedConnectionProgress::FlowFailureHandled { flow_id },
                )
                &&& output.send matches Some(call) && call.pending.effect
                    == (FlowControlSendEffect::ReportOnlyTermination { flow_id, reason })
                &&& output.close is None
            }
        },
{
}

/// What flow control came to reaches the host as it is: a request, a refusal or an end of the
/// peer's is told, a frame is sent, and a granted reliable flow is handed to its stream, with
/// nothing else changed.
pub proof fn law_progress_reaches_the_host(
    before: DriverView,
    after: DriverView,
    progress: FlowControlProgress,
    room: Result<(), TryReserveError>,
    report: ByteStorage,
    output: DriverOutput,
)
    requires
        progress_routed(before, after, progress, room, report, output),
    ensures
        progress matches FlowControlProgress::InboundOpen(request) ==> after == before
            && output.step == DriverStep::Progress(
            EstablishedConnectionProgress::InboundOpen(request),
        ),
        progress matches FlowControlProgress::OutboundRejected { flow_id, key, reason } ==> after
            == before && output.step == DriverStep::Progress(
            EstablishedConnectionProgress::OutboundRejected { flow_id, key, reason },
        ),
        progress matches FlowControlProgress::RemoteTerminated { flow, reason, termination }
            ==> after == before && output.step == DriverStep::Progress(
            EstablishedConnectionProgress::RemoteTerminated { flow, reason, termination },
        ),
        progress matches FlowControlProgress::OutboundEstablished(flow) ==> (flow.mode
            == DeliveryMode::ReliableOrdered ==> after == before && output.step
            == DriverStep::Ask(DriverCall::Schedule(flow))),
        progress matches FlowControlProgress::InboundRejected { flow_id, reason, frame } ==> {
            before.control.phase == DriverPhase::Active && before.control.sender is Ready ==> {
                &&& output.step == DriverStep::Progress(
                    EstablishedConnectionProgress::ControlSendStarted,
                )
                &&& output.send matches Some(call) && call.pending.frame == frame
                    && call.pending.effect == (FlowControlSendEffect::InboundRejected {
                    flow_id,
                    reason,
                })
            }
        },
        progress matches FlowControlProgress::OutboundFailedAfterAccept {
            flow_id,
            key,
            reason,
            termination,
            frame,
        } ==> {
            before.control.phase == DriverPhase::Active && before.control.sender is Ready ==> {
                &&& output.step == DriverStep::Progress(
                    EstablishedConnectionProgress::ControlSendStarted,
                )
                &&& output.send matches Some(call) && call.pending.frame == frame
                    && call.pending.effect == (FlowControlSendEffect::OutboundFailedAfterAccept {
                    flow_id,
                    key,
                    reason,
                    termination,
                })
            }
        },
        after.flows == before.flows,
        after.teardown == before.teardown,
        output.close is None,
        output.receive is None,
{
}

/// A granted flow that datagrams are sent on is driven from now on, behind those that are
/// still live, and the host is told of it. For want of room the core is asked to end it; one
/// that does not fit what is established ends the driver.
pub proof fn law_granted_datagram_flows_are_driven(
    before: DriverView,
    after: DriverView,
    flow: EstablishedFlow,
    room: Result<(), TryReserveError>,
    report: ByteStorage,
    output: DriverOutput,
)
    requires
        datagram_flow_registered(before, after, flow, room, report, output),
        report is Ok,
    ensures
        ({
            let driven = live_flows(before.flows, before.datagrams.outbound);
            let known = before.flows.active.contains_key(flow.flow_id.spec_value());
            let entry = before.flows.active[flow.flow_id.spec_value()];
            let fits = known && entry.key == flow.key && entry.mode == flow.mode
                && entry.max_message_bytes == flow.max_message_bytes && flow.mode
                != DeliveryMode::ReliableOrdered && flow.key.direction
                == crate::delivery::FlowDirection::Outbound && !driven.contains(flow.flow_id);
            &&& fits && room is Ok ==> {
                &&& after.datagrams.outbound == driven.push(flow.flow_id)
                &&& after.control == before.control
                &&& output.step == DriverStep::Progress(
                    EstablishedConnectionProgress::OutboundEstablished(flow),
                )
            }
            &&& fits && room is Err ==> {
                &&& after.datagrams.outbound == driven
                &&& after.control == before.control
                &&& output.step matches DriverStep::Ask(DriverCall::TerminateFailed(call))
                    && call.flow == flow && call.reason == FlowTerminateReason::ResourceFailure
            }
            &&& !fits ==> {
                &&& after.datagrams.outbound == driven
                &&& after.control.phase == DriverPhase::Terminal
                &&& output.step is Error
            }
            &&& after.datagrams.outbound.len() > 0 && driven.len() > 0
                ==> after.datagrams.cursor < after.datagrams.outbound.len()
            &&& after.flows == before.flows
            &&& after.teardown == before.teardown
            &&& output.send is None
            &&& output.close is None
        }),
{
}

/// A frame of the peer that is refused ends the driver, which tells the error and closes with
/// the code of that error for the sake of flow control.
pub proof fn law_refused_frames_end_the_driver(
    before: DriverView,
    after: DriverView,
    error: FlowControlError,
    output: DriverOutput,
)
    requires
        frame_refused(before, after, error, output),
    ensures
        after.control.phase == DriverPhase::Terminal,
        after.flows == before.flows,
        after.datagrams == before.datagrams,
        output.step == DriverStep::Error(ConnectionDriverError::ReceivedFlowControl(error)),
        output.send is None,
        output.receive is None,
        output.close is Some <==> flow_control_code(error) is Some,
        output.close matches Some(order) ==> Some(order.code) == flow_control_code(error)
            && order.reason == CloseReason::FlowControl,
{
}

/// A frame that was taken up is followed by the next one exactly while the driver goes on,
/// and what the core has to be asked about it is asked.
pub proof fn law_taken_frames_are_followed_by_the_next(
    before: DriverView,
    after: DriverView,
    receiver: ControlReceiver,
    frame: ControlFrame,
    storage: DriverStorage,
    output: DriverOutput,
    call: OutboundEstablish,
    remote: RemoteTerminate,
    routed: DriverOutput,
)
    requires
        before.control.phase == DriverPhase::Active,
        frame_processed(before, after, receiver, frame, storage, output),
    ensures
        output.receive is Some <==> after.control.phase == DriverPhase::Active,
        output.receive is Some ==> output.receive == Some(receiver) && after.control.receiver
            is Pending,
        step_routed(before, before, FlowControlStep::Establish(call), storage, routed)
            <==> routed == only(DriverStep::Ask(DriverCall::Establish(call))),
        step_routed(before, before, FlowControlStep::Terminate(remote), storage, routed)
            <==> routed == only(DriverStep::Ask(DriverCall::TerminateRemote(remote))),
{
}

/// What is done about a stream: one that could not be taken up ends the connection, with a
/// code for a want of memory or for what the peer did; one in use fails with its flow, for the
/// reason of its error; and any other failure of a stream in use ends the connection without
/// a word.
pub proof fn law_streams_that_fail(
    flows: FlowControlView,
    error: ReliableIoError,
    flow_id: FlowId,
    sent: SendError,
    received: ReceiveError,
)
    ensures
        acquisition_disposition(error) is Some <==> error is InboundConstruction || error
            is Allocation || error is Connection,
        acquisition_disposition(error) matches Some(disposition) ==> {
            &&& disposition matches EstablishedDataFailureDisposition::ConnectionTerminal { code }
                && (code == Some(ApplicationErrorCode::ResourceLimitError) <==> error is Allocation
                || error == ReliableIoError::InboundConstruction(ReceiveError::AllocationFailed))
                && (code == Some(ApplicationErrorCode::ProfileProtocolError) <==> error
                == ReliableIoError::InboundConstruction(ReceiveError::ZeroRtt))
        },
        outbound_disposition(
            flows,
            ReliableIoError::OutboundActiveBinding {
                context: crate::reliable::ReliableFailureContext::ResolvedLive { flow_id },
                error: sent,
            },
        ) == (if flows.active.contains_key(flow_id.spec_value()) {
            EstablishedDataFailureDisposition::TerminateAndReport {
                flow_id,
                reason: send_failure_reason(sent),
            }
        } else {
            EstablishedDataFailureDisposition::ReportOnly {
                flow_id,
                reason: send_failure_reason(sent),
            }
        }),
        inbound_disposition(
            flows,
            ReliableIoError::InboundActiveBinding {
                context: crate::reliable::ReliableFailureContext::ResolvedLive { flow_id },
                error: received,
            },
        ) == (if flows.active.contains_key(flow_id.spec_value()) {
            EstablishedDataFailureDisposition::TerminateAndReport {
                flow_id,
                reason: receive_failure_reason(received),
            }
        } else {
            EstablishedDataFailureDisposition::ReportOnly {
                flow_id,
                reason: receive_failure_reason(received),
            }
        }),
        inbound_disposition(
            flows,
            ReliableIoError::InboundActiveBinding {
                context: crate::reliable::ReliableFailureContext::Unresolved,
                error: received,
            },
        ) == (EstablishedDataFailureDisposition::ConnectionTerminal {
            code: unresolved_code(received),
        }),
        outbound_disposition(
            flows,
            ReliableIoError::OutboundActiveBinding {
                context: crate::reliable::ReliableFailureContext::Unresolved,
                error: sent,
            },
        ) == (EstablishedDataFailureDisposition::ConnectionTerminal { code: None }),
        !(error is OutboundActiveBinding) ==> outbound_disposition(flows, error)
            == (EstablishedDataFailureDisposition::ConnectionTerminal { code: None }),
        !(error is InboundActiveBinding) ==> inbound_disposition(flows, error)
            == (EstablishedDataFailureDisposition::ConnectionTerminal { code: None }),
{
}

/// A decision that fails ends the driver, unless the request was not the one to decide on: it
/// then changes nothing.
pub proof fn law_wrong_requests_change_nothing(
    before: DriverView,
    after: DriverView,
    error: InboundAdmissionError,
    decision: Result<InboundDecision, InboundDecisionDriverError>,
)
    requires
        decision_failed(before, after, error, decision),
    ensures
        error is RequestNotPending ==> after == before,
        !(error is RequestNotPending) ==> after.control.phase == DriverPhase::Terminal
            && after.flows == before.flows && after.datagrams == before.datagrams
            && after.teardown == before.teardown,
        decision matches Err(InboundDecisionDriverError::Driver(
            ConnectionDriverError::InboundAdmission(told),
        )) && told == error,
{
}

/// A grant that needs the core asks it, in the same words; one that is settled is answered
/// with its frame and the one sender. The same holds of the core's answer, and a grant that
/// the core cannot keep is taken back there.
pub proof fn law_grants_are_carried_out(
    before: DriverView,
    after: DriverView,
    granted: Result<InboundDriverStep, InboundAdmissionError>,
    settled: DriverView,
    answered: Result<InboundStep, InboundAdmissionError>,
    first: Result<InboundDecision, InboundDecisionDriverError>,
    second: Result<InboundDecision, InboundDecisionDriverError>,
)
    requires
        before.control.phase == DriverPhase::Active,
        before.control.sender is Ready,
        grant_taken(before, after, granted, first),
        establishment_taken(before, settled, answered, second),
    ensures
        granted matches Ok(InboundDriverStep::Establish(call)) ==> after == before && first
            == Ok::<_, InboundDecisionDriverError>(InboundDecision::Establish(call)),
        granted matches Ok(InboundDriverStep::PendingSend(pending)) ==> {
            &&& first matches Ok(InboundDecision::Send(call)) && call.pending == pending
                && before.control.sender == ControlSendState::Ready(call.sender)
            &&& after.control.sender is Pending
            &&& after.control.receiver == before.control.receiver
            &&& after.flows == before.flows
        },
        granted matches Err(error) ==> decision_failed(before, after, error, first),
        answered matches Ok(InboundStep::RollBack(call)) ==> settled == before && second
            == Ok::<_, InboundDecisionDriverError>(InboundDecision::RollBack(call)),
        answered matches Ok(InboundStep::Establish(call)) ==> settled == before && second
            == Ok::<_, InboundDecisionDriverError>(InboundDecision::Establish(call)),
        answered matches Ok(InboundStep::Resolved(
            crate::flow_control::InboundResolution::Accepted { flow, frame },
        )) ==> {
            &&& second matches Ok(InboundDecision::Send(call)) && call.pending.frame == frame
                && call.pending.effect == FlowControlSendEffect::InboundAccepted(flow)
            &&& settled.control.sender is Pending
            &&& settled.flows == before.flows
        },
        answered matches Ok(InboundStep::Resolved(
            crate::flow_control::InboundResolution::Rejected { flow_id, reason, frame },
        )) ==> {
            &&& second matches Ok(InboundDecision::Send(call)) && call.pending.frame == frame
                && call.pending.effect == (FlowControlSendEffect::InboundRejected {
                flow_id,
                reason,
            })
            &&& settled.control.sender is Pending
            &&& settled.flows == before.flows
        },
        answered matches Err(error) ==> decision_failed(before, settled, error, second),
{
}

/// A refusal goes to the peer with the flow and the reason that it is about; for want of
/// memory the driver ends.
pub proof fn law_refusals_go_to_the_peer(
    before: DriverView,
    after: DriverView,
    flow_id: FlowId,
    reason: FlowRejectReason,
    storage: ByteStorage,
    decision: Result<InboundDecision, InboundDecisionDriverError>,
)
    requires
        before.control.phase == DriverPhase::Active,
        before.control.sender is Ready,
        rejection_taken(before, after, flow_id, reason, storage, decision),
    ensures
        storage is Ok ==> {
            &&& decision matches Ok(InboundDecision::Send(call)) && call.pending.frame.frame_type
                == ControlFrameType::FlowReject && call.pending.frame.body@
                == (crate::wire::FlowReject { flow_id, reason }).bytes() && call.pending.effect
                == (FlowControlSendEffect::InboundRejected { flow_id, reason })
            &&& after.control.sender is Pending
            &&& after.control.phase == DriverPhase::Active
        },
        storage is Err ==> decision is Err && after.control.phase == DriverPhase::Terminal,
        after.flows == before.flows,
        after.teardown == before.teardown,
{
}

/// A submission is concluded with its outcome, and only a transport without datagrams then
/// ends the driver. An error that the host caused is told and changes nothing; a sequenced
/// flow out of indices is ended normally; any other error ends the driver.
pub proof fn law_submissions_are_concluded(
    before: DriverView,
    after: DriverView,
    flow_id: FlowId,
    result: Result<DatagramSubmissionOutcome, DatagramSubmissionError>,
    report: ByteStorage,
    step: SubmitStep,
)
    requires
        report is Ok,
        submission_concluded(before, after, flow_id, result, report, step),
    ensures
        after.flows == before.flows,
        after.datagrams == before.datagrams,
        after.teardown == before.teardown,
        result matches Ok(outcome) ==> {
            if outcome == DatagramSubmissionOutcome::RejectedTransportUnavailable {
                &&& after.control.phase == DriverPhase::Terminal
                &&& step matches SubmitStep::Failed(output) && output.step == DriverStep::Error(
                    ConnectionDriverError::DatagramProfileUnavailable,
                ) && output.close is None
            } else {
                after == before && step == SubmitStep::Submitted(outcome)
            }
        },
        result matches Err(error) ==> {
            let caused = error is UnknownFlowId || error is WrongDirection || error is ReliableFlow;
            let known = before.flows.active.contains_key(flow_id.spec_value());
            let sequenced = before.flows.active[flow_id.spec_value()].mode
                == DeliveryMode::UnreliableSequenced;
            &&& step is Failed
            &&& caused ==> after == before && step->Failed_0 == only(
                DriverStep::Error(ConnectionDriverError::DatagramSubmission(error)),
            )
            &&& error is SequenceExhausted && known && sequenced ==> {
                &&& after == before
                &&& step->Failed_0.step matches DriverStep::Ask(
                    DriverCall::TerminateFailed(call),
                ) && call.flow.flow_id == flow_id && call.reason == FlowTerminateReason::Normal
            }
            &&& error is SequenceExhausted && !known ==> {
                &&& after == before
                &&& step->Failed_0.step == DriverStep::Progress(
                    EstablishedConnectionProgress::FlowFailureHandled { flow_id },
                )
            }
            &&& !caused && !(error is SequenceExhausted) ==> {
                &&& after.control.phase == DriverPhase::Terminal
                &&& step->Failed_0.step == DriverStep::Error(
                    ConnectionDriverError::DatagramSubmission(error),
                )
                &&& step->Failed_0.close is None
            }
        },
{
}

/// A submission that is not possible now hands the message back and changes nothing. The core
/// is asked about exactly the message that was submitted, on an outbound unreliable flow that
/// it fits, and nothing changes before it answers.
pub proof fn law_submissions_keep_their_message(
    before: DriverView,
    after: DriverView,
    flow_id: FlowId,
    payload: Vec<u8>,
    next_index: Result<Option<u64>, DeliveryOperationError>,
    max_datagram_size: Option<usize>,
    report: ByteStorage,
    step: SubmitStep,
)
    requires
        submission_begun(
            before,
            after,
            flow_id,
            payload,
            next_index,
            max_datagram_size,
            report,
            step,
        ),
    ensures
        ({
            let going = before.control.phase == DriverPhase::Active;
            let idle = going && before.control.sender is Ready;
            let flow = before.flows.active[flow_id.spec_value()];
            &&& step is Unavailable <==> !idle
            &&& step matches SubmitStep::Unavailable { flow_id: id, payload: back, error } ==> id
                == flow_id && back == payload && after == before && (error
                == ConnectionDriverStateError::ControlSendBusy <==> going
                && before.control.sender is Pending)
            &&& step matches SubmitStep::Submit { flow_id: id, ticket, payload: message } ==> {
                &&& after == before
                &&& id == flow_id
                &&& message == payload
                &&& before.flows.active.contains_key(flow_id.spec_value())
                &&& ticket.key == flow.key
                &&& flow.mode != DeliveryMode::ReliableOrdered
                &&& payload@.len() <= flow.max_message_bytes
                &&& max_datagram_size is Some
            }
            &&& idle && payload@.len() > flow.max_message_bytes
                && before.flows.active.contains_key(flow_id.spec_value()) && flow.mode
                != DeliveryMode::ReliableOrdered && flow.key.direction
                == crate::delivery::FlowDirection::Outbound ==> step == SubmitStep::Submitted(
                DatagramSubmissionOutcome::RejectedTooLarge,
            )
            &&& !(step is UnknownFlow)
        }),
{
}

/// A reliable flow that is not ended with its stream: what the host asked too early, twice or
/// of no flow changes nothing; a stream that fails is dealt with as it was classified, with
/// nothing done where it was not; anything else ends the driver.
pub proof fn law_streams_that_do_not_end(
    before: DriverView,
    after: DriverView,
    error: ReliableIoError,
    classified: Option<EstablishedDataFailureDisposition>,
    report: ByteStorage,
    output: DriverOutput,
)
    requires
        finish_failed(before, after, error, classified, report, output),
    ensures
        ({
            let early = error == ReliableIoError::State(
                ReliableIoStateError::OutboundAcquisitionPending,
            );
            let unknown = error == ReliableIoError::State(
                ReliableIoStateError::UnknownOutboundFlow,
            );
            let told = DriverStep::Error(ConnectionDriverError::Reliable(error));
            &&& early || unknown || (error is OutboundFinish && classified is None) ==> after
                == before && output == only(told)
            &&& error is OutboundFinish && classified is Some ==> failure_handled(
                before,
                after,
                classified->0,
                ConnectionDriverError::Reliable(error),
                report,
                output,
            )
            &&& !early && !unknown && !(error is OutboundFinish) ==> after.control.phase
                == DriverPhase::Terminal && output.step == told && output.close is None
                && after.flows == before.flows
        }),
{
}

/// The flow that is ended by its key is a driven one that has the key: an established outbound
/// flow of an unreliable mode. It ends normally, and the peer is told so in a frame that names
/// it.
pub proof fn law_flows_are_ended_by_their_key(
    state: DriverView,
    key: DeliveryFlowKey,
    storage: ByteStorage,
    finish: Result<KeyedFinish, KeyedFinishError>,
)
    requires
        storage is Ok,
        datagram_finish(state, key, storage, finish),
    ensures
        finish is Err <==> forall|i: int|
            0 <= i < state.datagrams.outbound.len() ==> {
                let number = (#[trigger] state.datagrams.outbound[i]).spec_value();
                !crate::datagram_driver::live(state.flows, state.datagrams.outbound[i])
                    || state.flows.active[number].key != key
            },
        finish matches Err(error) ==> error == KeyedFinishError::UnknownFlow,
        finish matches Ok(finish) ==> {
            finish matches KeyedFinish::Terminate(call)
                && state.datagrams.outbound.contains(call.flow.flow_id)
                && state.flows.active.contains_key(call.flow.flow_id.spec_value())
                && call.flow.key == key && call.flow.mode
                == state.flows.active[call.flow.flow_id.spec_value()].mode && call.reason
                == FlowTerminateReason::Normal && call.frame.frame_type
                == ControlFrameType::FlowTerminate && call.frame.body@
                == (crate::wire::FlowTerminate {
                flow_id: call.flow.flow_id,
                reason: FlowTerminateReason::Normal,
            }).bytes()
        },
{
}

/// The peer closed without an error exactly where it closed the connection itself, with the
/// number zero.
pub proof fn law_a_clean_close_has_the_number_zero(reason: Option<ConnectionFailure>)
    ensures
        is_no_error_close(reason) <==> {
            reason matches Some(ConnectionFailure::ApplicationClosed(number)) && number == 0
        },
        reason is None ==> !is_no_error_close(reason),
{
}

/// The core's answer to a granted flow. A flow that was not asked for, and a core that cannot
/// take it for another reason than want of room, end the driver with that error. Otherwise the
/// flow waits no longer; a reliable one that is registered goes to its stream on the terms of
/// the request, and the core is asked to end one that cannot be registered.
pub proof fn law_answers_of_the_core_are_carried_out(
    before: DriverView,
    after: DriverView,
    flow_id: FlowId,
    answer: Result<(), FlowEstablishmentError>,
    storage: DriverStorage,
    output: DriverOutput,
)
    requires
        core_answered(before, after, flow_id, answer, storage, output),
    ensures
        ({
            let number = flow_id.spec_value();
            let known = before.flows.pending_outbound.contains_key(number);
            let pending = before.flows.pending_outbound[number];
            &&& !known ==> {
                &&& after.flows == before.flows
                &&& after.control.phase == DriverPhase::Terminal
                &&& output.step == DriverStep::Error(
                    ConnectionDriverError::ReceivedFlowControl(
                        FlowControlError::UnknownPendingFlow(flow_id),
                    ),
                )
            }
            &&& known ==> {
                answer matches Err(error) ==> (error
                    != FlowEstablishmentError::ActiveFlowLimitExceeded ==> {
                    &&& after.flows.pending_outbound == before.flows.pending_outbound.remove(number)
                    &&& after.flows.active == before.flows.active
                    &&& after.control.phase == DriverPhase::Terminal
                    &&& output.step == DriverStep::Error(
                        ConnectionDriverError::ReceivedFlowControl(
                            FlowControlError::LocalEstablishment(error),
                        ),
                    )
                })
            }
            &&& known && answer is Ok ==> {
                &&& after.flows.pending_outbound == before.flows.pending_outbound.remove(number)
                &&& output.close is None
                &&& pending.mode == DeliveryMode::ReliableOrdered ==> {
                    &&& after.control == before.control
                    &&& after.datagrams == before.datagrams
                    &&& match output.step {
                        DriverStep::Ask(DriverCall::Schedule(flow)) => {
                            &&& flow.flow_id == flow_id
                            &&& flow.key == pending.key
                            &&& flow.mode == pending.mode
                            &&& flow.max_message_bytes == pending.stable_max_message_bytes
                            &&& after.flows.active.contains_key(number)
                        },
                        DriverStep::Ask(DriverCall::RollBack(rollback)) => {
                            &&& rollback.flow_id == flow_id
                            &&& rollback.key == pending.key
                            &&& after.flows.active == before.flows.active
                        },
                        _ => false,
                    }
                }
            }
        }),
{
}

} // verus!
