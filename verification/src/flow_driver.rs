//! Flow control and its sends, and what a failed flow comes to.

use vstd::prelude::*;

use crate::control::{ControlFrame, ControlFrameType, ProfileBootstrapError};
use crate::datagram::{
    DatagramReceiveError, DatagramReceiveFailure, DatagramSendError, DatagramSubmissionError,
};
use crate::delivery::{
    DeliveryFlowKey, DeliveryMode, DeliveryPolicyError, FlowTermination, ReceiveOutcome,
};
use crate::flow_control::{
    admission_received, decided, ending_flow, is_resolved_rejection, outbound_open_error,
    EstablishedFlow, FlowControl, FlowControlError, FlowControlProgress,
    FlowControlView, FlowStorage, InboundAdmission, InboundAdmissionError, InboundEstablish,
    InboundOpenRequest, InboundResolution, InboundStep, LocalTerminate, LocalTermination,
    OutboundOpenError, OutboundOpenFacts, OutboundOpenRequest, PreparedFlow,
    PreparedOutboundOpen,
};
use crate::reliable::{ReceiveError, ReliableFailureContext, ReliableFrameError, SendError};
use crate::storage::{fresh, ByteStorage};
use crate::wire::{
    ApplicationErrorCode, FlowId, FlowRejectReason, FlowTerminate, FlowTerminateReason, OpenFlow,
};

verus! {

/// What a sent frame stands for. The local state was committed before it was sent.
#[allow(inconsistent_fields)]
#[must_use]
#[derive(Debug, Clone, Copy, PartialEq, Eq)]
pub enum FlowControlSendEffect {
    OutboundOpenPrepared(PreparedFlow),
    InboundRejected { flow_id: FlowId, reason: FlowRejectReason },
    InboundAccepted(EstablishedFlow),
    OutboundFailedAfterAccept {
        flow_id: FlowId,
        key: DeliveryFlowKey,
        reason: FlowTerminateReason,
        termination: Option<FlowTermination>,
    },
    LocalTerminated {
        flow: EstablishedFlow,
        reason: FlowTerminateReason,
        termination: FlowTermination,
    },
    ReportOnlyTermination { flow_id: FlowId, reason: FlowTerminateReason },
}

/// A frame that has to be sent.
#[must_use]
#[derive(Debug, PartialEq, Eq)]
pub struct PendingFlowControlSend {
    pub frame: ControlFrame,
    pub effect: FlowControlSendEffect,
}

/// A frame that was not sent, and what it stood for.
#[derive(Debug, PartialEq, Eq)]
pub struct FlowControlSendError {
    pub error: ProfileBootstrapError,
    pub effect: FlowControlSendEffect,
}

/// What a flow frame comes to for a connection.
#[allow(inconsistent_fields)]
#[must_use]
#[derive(Debug, PartialEq, Eq)]
pub enum FlowControlDriverProgress {
    InboundOpen(InboundOpenRequest),
    PendingSend(PendingFlowControlSend),
    OutboundEstablished(EstablishedFlow),
    OutboundRejected { flow_id: FlowId, key: DeliveryFlowKey, reason: FlowRejectReason },
    RemoteTerminated {
        flow: EstablishedFlow,
        reason: FlowTerminateReason,
        termination: FlowTermination,
    },
}

/// What is to be done about a failure.
#[derive(Debug, Clone, Copy, PartialEq, Eq)]
pub enum EstablishedDataFailureDisposition {
    /// End the flow and tell the peer.
    TerminateAndReport { flow_id: FlowId, reason: FlowTerminateReason },
    /// Tell the peer of a flow that is no longer established here.
    ReportOnly { flow_id: FlowId, reason: FlowTerminateReason },
    /// Nothing but the stream is left to clean up.
    CleanupOnly { flow_id: FlowId },
    /// The connection cannot go on.
    ConnectionTerminal { code: Option<ApplicationErrorCode> },
}

/// What comes next for a failure.
#[derive(Debug)]
pub enum DataFailureStep {
    /// Have the core end the flow, then tell the peer.
    Terminate(LocalTerminate),
    PendingSend(PendingFlowControlSend),
    CleanupOnly { flow_id: FlowId },
    ConnectionTerminal { code: Option<ApplicationErrorCode> },
}

/// What comes next for a decision on an inbound flow.
#[derive(Debug)]
pub enum InboundDriverStep {
    PendingSend(PendingFlowControlSend),
    /// Have the core establish the flow.
    Establish(InboundEstablish),
}

impl PendingFlowControlSend {
    pub fn new(frame: ControlFrame, effect: FlowControlSendEffect) -> (pending: Self)
        ensures
            pending == (PendingFlowControlSend { frame, effect }),
    {
        PendingFlowControlSend { frame, effect }
    }

    /// What the frame stood for, once it was sent or was not.
    pub fn completed(
        effect: FlowControlSendEffect,
        sent: Result<(), ProfileBootstrapError>,
    ) -> (completion: Result<FlowControlSendEffect, FlowControlSendError>)
        ensures
            match sent {
                Ok(()) => completion == Ok::<_, FlowControlSendError>(effect),
                Err(error) => completion == Err::<FlowControlSendEffect, _>(
                    (FlowControlSendError { error, effect }),
                ),
            },
    {
        match sent {
            Ok(()) => Ok(effect),
            Err(error) => Err(FlowControlSendError { error, effect }),
        }
    }
}

/// Asks the peer for a flow.
pub fn prepare_outbound_open(
    flow_control: &mut FlowControl,
    request: OutboundOpenRequest,
    facts: OutboundOpenFacts,
    current_datagram_size: Option<usize>,
    storage: FlowStorage,
) -> (pending: Result<PendingFlowControlSend, OutboundOpenError>)
    requires
        old(flow_control).wf(),
        storage.wf(),
    ensures
        final(flow_control).wf(),
        old(flow_control)@.sound() ==> final(flow_control)@.sound(),
        match outbound_open_error(
            old(flow_control)@,
            request,
            facts,
            current_datagram_size,
            storage,
        ) {
            Some(error) => {
                &&& pending == Err::<PendingFlowControlSend, _>(error)
                &&& final(flow_control)@ == old(flow_control)@
            },
            None => {
                let flow_id = old(flow_control)@.local_flow_ids.next_id();
                &&& pending is Ok
                &&& pending->Ok_0.frame.holds(
                    ControlFrameType::OpenFlow,
                    (OpenFlow {
                        flow_id,
                        delivery_mode: request.mode,
                        max_message_bytes: request.stable_max_message_bytes as u64,
                    }).bytes(),
                )
                &&& pending->Ok_0.effect == FlowControlSendEffect::OutboundOpenPrepared(
                    PreparedFlow {
                        flow_id,
                        key: request.key,
                        mode: request.mode,
                        max_message_bytes: request.stable_max_message_bytes,
                    },
                )
                &&& final(flow_control)@ == crate::flow_control::after_open(
                    old(flow_control)@,
                    request,
                )
            },
        },
{
    match flow_control.prepare_outbound_open(request, facts, current_datagram_size, storage) {
        Ok(PreparedOutboundOpen { frame, flow }) => Ok(
            PendingFlowControlSend::new(frame, FlowControlSendEffect::OutboundOpenPrepared(flow)),
        ),
        Err(error) => Err(error),
    }
}

/// What the progress of flow control means for a connection: a frame that has to be sent
/// goes with what it stands for.
pub open spec fn routed_progress(progress: FlowControlProgress) -> FlowControlDriverProgress {
    match progress {
        FlowControlProgress::InboundOpen(request) => FlowControlDriverProgress::InboundOpen(
            request,
        ),
        FlowControlProgress::InboundRejected { flow_id, reason, frame } => {
            FlowControlDriverProgress::PendingSend(
                PendingFlowControlSend {
                    frame,
                    effect: FlowControlSendEffect::InboundRejected { flow_id, reason },
                },
            )
        },
        FlowControlProgress::OutboundEstablished(flow) => {
            FlowControlDriverProgress::OutboundEstablished(flow)
        },
        FlowControlProgress::OutboundRejected { flow_id, key, reason } => {
            FlowControlDriverProgress::OutboundRejected { flow_id, key, reason }
        },
        FlowControlProgress::OutboundFailedAfterAccept {
            flow_id,
            key,
            reason,
            termination,
            frame,
        } => FlowControlDriverProgress::PendingSend(
            PendingFlowControlSend {
                frame,
                effect: FlowControlSendEffect::OutboundFailedAfterAccept {
                    flow_id,
                    key,
                    reason,
                    termination,
                },
            },
        ),
        FlowControlProgress::RemoteTerminated { flow, reason, termination } => {
            FlowControlDriverProgress::RemoteTerminated { flow, reason, termination }
        },
    }
}

/// Takes the progress of flow control on a frame of the peer.
pub fn process_received(progress: FlowControlProgress) -> (routed: FlowControlDriverProgress)
    ensures
        routed == routed_progress(progress),
{
    match progress {
        FlowControlProgress::InboundOpen(request) => FlowControlDriverProgress::InboundOpen(
            request,
        ),
        FlowControlProgress::InboundRejected { flow_id, reason, frame } => {
            FlowControlDriverProgress::PendingSend(
                PendingFlowControlSend::new(
                    frame,
                    FlowControlSendEffect::InboundRejected { flow_id, reason },
                ),
            )
        },
        FlowControlProgress::OutboundEstablished(flow) => {
            FlowControlDriverProgress::OutboundEstablished(flow)
        },
        FlowControlProgress::OutboundRejected { flow_id, key, reason } => {
            FlowControlDriverProgress::OutboundRejected { flow_id, key, reason }
        },
        FlowControlProgress::OutboundFailedAfterAccept {
            flow_id,
            key,
            reason,
            termination,
            frame,
        } => FlowControlDriverProgress::PendingSend(
            PendingFlowControlSend::new(
                frame,
                FlowControlSendEffect::OutboundFailedAfterAccept {
                    flow_id,
                    key,
                    reason,
                    termination,
                },
            ),
        ),
        FlowControlProgress::RemoteTerminated { flow, reason, termination } => {
            FlowControlDriverProgress::RemoteTerminated { flow, reason, termination }
        },
    }
}

/// Why a reliable flow cannot be reassembled here, if it cannot.
pub open spec fn staging_rejection(
    mode: DeliveryMode,
    max_message_bytes: u64,
    max_staging_bytes: usize,
) -> Option<FlowRejectReason> {
    if mode == DeliveryMode::ReliableOrdered && max_message_bytes > max_staging_bytes {
        Some(FlowRejectReason::ResourceLimit)
    } else {
        None
    }
}

pub fn reliable_staging_rejection(
    mode: DeliveryMode,
    max_message_bytes: u64,
    max_staging_bytes: usize,
) -> (rejection: Option<FlowRejectReason>)
    ensures
        rejection == staging_rejection(mode, max_message_bytes, max_staging_bytes),
{
    if mode != DeliveryMode::ReliableOrdered {
        return None;
    }
    if max_message_bytes > max_staging_bytes as u64 {
        Some(FlowRejectReason::ResourceLimit)
    } else {
        None
    }
}

/// The frame and the effect of a resolution.
pub open spec fn resolution_send(resolution: InboundResolution) -> PendingFlowControlSend {
    match resolution {
        InboundResolution::Accepted { flow, frame } => PendingFlowControlSend {
            frame,
            effect: FlowControlSendEffect::InboundAccepted(flow),
        },
        InboundResolution::Rejected { flow_id, reason, frame } => PendingFlowControlSend {
            frame,
            effect: FlowControlSendEffect::InboundRejected { flow_id, reason },
        },
    }
}

pub fn pending_inbound_resolution(resolution: InboundResolution) -> (pending:
    PendingFlowControlSend)
    ensures
        pending == resolution_send(resolution),
{
    match resolution {
        InboundResolution::Accepted { flow, frame } => PendingFlowControlSend::new(
            frame,
            FlowControlSendEffect::InboundAccepted(flow),
        ),
        InboundResolution::Rejected { flow_id, reason, frame } => PendingFlowControlSend::new(
            frame,
            FlowControlSendEffect::InboundRejected { flow_id, reason },
        ),
    }
}

/// The step of flow control behind a step of the driver.
pub open spec fn is_driver_step(
    step: Result<InboundDriverStep, InboundAdmissionError>,
    inner: Result<InboundStep, InboundAdmissionError>,
) -> bool {
    match inner {
        Err(error) => step == Err::<InboundDriverStep, _>(error),
        Ok(InboundStep::Resolved(resolution)) => step == Ok::<_, InboundAdmissionError>(
            InboundDriverStep::PendingSend(resolution_send(resolution)),
        ),
        Ok(InboundStep::Establish(establish)) => step == Ok::<_, InboundAdmissionError>(
            InboundDriverStep::Establish(establish),
        ),
        Ok(InboundStep::RollBack(_)) => false,
    }
}

/// A decision on an inbound flow was refused for good, and the peer is told.
pub open(crate) spec fn is_rejection_send(
    step: Result<PendingFlowControlSend, InboundAdmissionError>,
    flow_id: FlowId,
    reason: FlowRejectReason,
    storage: ByteStorage,
) -> bool {
    exists|resolution: Result<InboundResolution, InboundAdmissionError>| #[trigger]
        is_resolved_rejection(resolution, flow_id, reason, storage) && match resolution {
            Ok(resolution) => step == Ok::<_, InboundAdmissionError>(resolution_send(resolution)),
            Err(error) => step == Err::<PendingFlowControlSend, _>(error),
        }
}

/// The host's grant of a request was taken.
pub open(crate) spec fn inbound_accepted(
    before: FlowControlView,
    after: FlowControlView,
    request: InboundOpenRequest,
    admission: InboundAdmission,
    policy_check: Result<(), DeliveryPolicyError>,
    reliable_max_staging_bytes: usize,
    storage: ByteStorage,
    step: Result<InboundDriverStep, InboundAdmissionError>,
) -> bool {
    match staging_rejection(
        request.spec_mode(),
        request.spec_max_message_bytes(),
        reliable_max_staging_bytes,
    ) {
        Some(reason) => rejection_decided(
            before,
            after,
            request,
            reason,
            storage,
            match step {
                Ok(InboundDriverStep::PendingSend(pending)) => Ok(pending),
                Ok(InboundDriverStep::Establish(_)) => Err(
                    InboundAdmissionError::RequestNotPending(request.spec_flow_id()),
                ),
                Err(error) => Err(error),
            },
        ) && (step matches Ok(step) ==> step is PendingSend),
        None => exists|inner: Result<InboundStep, InboundAdmissionError>| #[trigger]
            is_driver_step(step, inner) && admission_received(
                before,
                after,
                request,
                admission,
                policy_check,
                storage,
                inner,
            ),
    }
}

/// Takes the host's grant of the peer's request. A reliable flow whose messages cannot be
/// reassembled here is refused before the core is asked.
pub fn accept_inbound(
    flow_control: &mut FlowControl,
    request: InboundOpenRequest,
    admission: InboundAdmission,
    policy_check: Result<(), DeliveryPolicyError>,
    reliable_max_staging_bytes: usize,
    storage: ByteStorage,
) -> (step: Result<InboundDriverStep, InboundAdmissionError>)
    requires
        old(flow_control).wf(),
        fresh(storage),
    ensures
        final(flow_control).wf(),
        old(flow_control)@.sound() ==> final(flow_control)@.sound(),
        inbound_accepted(
            old(flow_control)@,
            final(flow_control)@,
            request,
            admission,
            policy_check,
            reliable_max_staging_bytes,
            storage,
            step,
        ),
{
    if let Some(reason) = reliable_staging_rejection(
        request.mode(),
        request.max_message_bytes(),
        reliable_max_staging_bytes,
    ) {
        return match reject_inbound(flow_control, request, reason, storage) {
            Ok(pending) => Ok(InboundDriverStep::PendingSend(pending)),
            Err(error) => Err(error),
        };
    }
    let inner = flow_control.accept_inbound(request, admission, policy_check, storage);
    let ghost held = inner;
    let step = match inner {
        Ok(InboundStep::Resolved(resolution)) => Ok(
            InboundDriverStep::PendingSend(pending_inbound_resolution(resolution)),
        ),
        Ok(InboundStep::Establish(establish)) => Ok(InboundDriverStep::Establish(establish)),
        Ok(InboundStep::RollBack(rollback)) => Err(
            InboundAdmissionError::Registry(rollback.error),
        ),
        Err(error) => Err(error),
    };
    proof {
        assert(is_driver_step(step, held));
    }
    step
}

/// The host's refusal of a request was taken.
pub open(crate) spec fn rejection_decided(
    before: FlowControlView,
    after: FlowControlView,
    request: InboundOpenRequest,
    reason: FlowRejectReason,
    storage: ByteStorage,
    step: Result<PendingFlowControlSend, InboundAdmissionError>,
) -> bool {
    if before.pending_inbound != Some(request.pending()) {
        &&& step == Err::<PendingFlowControlSend, _>(
            InboundAdmissionError::RequestNotPending(request.spec_flow_id()),
        )
        &&& after == before
    } else {
        &&& is_rejection_send(step, request.spec_flow_id(), reason, storage)
        &&& after == decided(before)
    }
}

/// Takes the host's refusal of the peer's request.
pub fn reject_inbound(
    flow_control: &mut FlowControl,
    request: InboundOpenRequest,
    reason: FlowRejectReason,
    storage: ByteStorage,
) -> (pending: Result<PendingFlowControlSend, InboundAdmissionError>)
    requires
        old(flow_control).wf(),
        fresh(storage),
    ensures
        final(flow_control).wf(),
        old(flow_control)@.sound() ==> final(flow_control)@.sound(),
        rejection_decided(
            old(flow_control)@,
            final(flow_control)@,
            request,
            reason,
            storage,
            pending,
        ),
{
    match flow_control.reject_inbound(request, reason, storage) {
        Ok(resolution) => Ok(pending_inbound_resolution(resolution)),
        Err(error) => Err(error),
    }
}

/// The frame and the effect of a flow that was ended from this side.
pub open spec fn termination_send(ended: LocalTermination) -> PendingFlowControlSend {
    PendingFlowControlSend {
        frame: ended.frame,
        effect: FlowControlSendEffect::LocalTerminated {
            flow: ended.flow,
            reason: ended.reason,
            termination: ended.termination,
        },
    }
}

pub fn local_termination_send(ended: LocalTermination) -> (pending: PendingFlowControlSend)
    ensures
        pending == termination_send(ended),
{
    let LocalTermination { flow, reason, termination, frame } = ended;
    PendingFlowControlSend::new(
        frame,
        FlowControlSendEffect::LocalTerminated { flow, reason, termination },
    )
}

/// The report of a flow that is no longer established here, where there is room for it.
pub fn pending_report_only_termination(
    flow_id: FlowId,
    reason: FlowTerminateReason,
    storage: ByteStorage,
) -> (pending: Result<PendingFlowControlSend, FlowControlError>)
    requires
        fresh(storage),
    ensures
        is_report(pending, flow_id, reason, storage),
{
    let encoded = FlowTerminate { flow_id, reason }.encode();
    let mut body: Vec<u8> = match storage {
        Ok(body) => body,
        Err(error) => return Err(FlowControlError::Allocation(error)),
    };
    body.extend_from_slice(encoded.as_slice());
    proof {
        assert(body@ =~= encoded@);
    }
    Ok(
        PendingFlowControlSend::new(
            ControlFrame { frame_type: ControlFrameType::FlowTerminate, body },
            FlowControlSendEffect::ReportOnlyTermination { flow_id, reason },
        ),
    )
}

/// The peer is told of a flow that is no longer established here.
pub open(crate) spec fn is_report(
    pending: Result<PendingFlowControlSend, FlowControlError>,
    flow_id: FlowId,
    reason: FlowTerminateReason,
    storage: ByteStorage,
) -> bool {
    match storage {
        Err(error) => pending == Err::<PendingFlowControlSend, _>(
            FlowControlError::Allocation(error),
        ),
        Ok(_) => pending is Ok && pending->Ok_0.frame.holds(
            ControlFrameType::FlowTerminate,
            (FlowTerminate { flow_id, reason }).bytes(),
        ) && pending->Ok_0.effect == (FlowControlSendEffect::ReportOnlyTermination {
            flow_id,
            reason,
        }),
    }
}

/// The core is to end a flow, and the peer will be told.
pub open(crate) spec fn is_termination(
    step: Result<DataFailureStep, FlowControlError>,
    state: FlowControlView,
    flow_id: FlowId,
    reason: FlowTerminateReason,
    storage: ByteStorage,
) -> bool {
    match ending_flow(state, flow_id, reason) {
        Err(error) => step == Err::<DataFailureStep, _>(error),
        Ok(flow) => match storage {
            Err(error) => step == Err::<DataFailureStep, _>(FlowControlError::Allocation(error)),
            Ok(_) => step matches Ok(DataFailureStep::Terminate(call)) && call.flow == flow
                && call.reason == reason && call.frame.holds(
                ControlFrameType::FlowTerminate,
                (FlowTerminate { flow_id, reason }).bytes(),
            ),
        },
    }
}

/// How a failure begins to be dealt with.
pub open(crate) spec fn prepared_failure(
    state: FlowControlView,
    disposition: EstablishedDataFailureDisposition,
    storage: ByteStorage,
    step: Result<DataFailureStep, FlowControlError>,
) -> bool {
    match disposition {
        EstablishedDataFailureDisposition::TerminateAndReport { flow_id, reason } => {
            is_termination(step, state, flow_id, reason, storage)
        },
        EstablishedDataFailureDisposition::ReportOnly { flow_id, reason } => {
            if state.active.contains_key(flow_id.spec_value()) {
                is_termination(step, state, flow_id, reason, storage)
            } else {
                &&& step matches Ok(step) ==> step is PendingSend
                &&& is_report(
                    match step {
                        Ok(DataFailureStep::PendingSend(pending)) => Ok(pending),
                        Ok(_) => Err(FlowControlError::UnknownActiveFlow(flow_id)),
                        Err(error) => Err(error),
                    },
                    flow_id,
                    reason,
                    storage,
                )
            }
        },
        EstablishedDataFailureDisposition::CleanupOnly { flow_id } => {
            step == Ok::<_, FlowControlError>((DataFailureStep::CleanupOnly { flow_id }))
        },
        EstablishedDataFailureDisposition::ConnectionTerminal { code } => {
            step == Ok::<_, FlowControlError>((DataFailureStep::ConnectionTerminal { code }))
        },
    }
}

/// Begins to deal with a failure.
pub fn prepare_established_data_failure(
    flow_control: &FlowControl,
    disposition: EstablishedDataFailureDisposition,
    storage: ByteStorage,
) -> (step: Result<DataFailureStep, FlowControlError>)
    requires
        fresh(storage),
    ensures
        prepared_failure(flow_control@, disposition, storage, step),
{
    match disposition {
        EstablishedDataFailureDisposition::TerminateAndReport { flow_id, reason } => {
            match flow_control.terminate_local(flow_id, reason, storage) {
                Ok(call) => Ok(DataFailureStep::Terminate(call)),
                Err(error) => Err(error),
            }
        },
        EstablishedDataFailureDisposition::ReportOnly { flow_id, reason } => {
            if is_live(flow_control, flow_id) {
                return match flow_control.terminate_local(flow_id, reason, storage) {
                    Ok(call) => Ok(DataFailureStep::Terminate(call)),
                    Err(error) => Err(error),
                };
            }
            match pending_report_only_termination(flow_id, reason, storage) {
                Ok(pending) => Ok(DataFailureStep::PendingSend(pending)),
                Err(error) => Err(error),
            }
        },
        EstablishedDataFailureDisposition::CleanupOnly { flow_id } => Ok(
            DataFailureStep::CleanupOnly { flow_id },
        ),
        EstablishedDataFailureDisposition::ConnectionTerminal { code } => Ok(
            DataFailureStep::ConnectionTerminal { code },
        ),
    }
}

fn is_live(flow_control: &FlowControl, flow_id: FlowId) -> (live: bool)
    ensures
        live == flow_control@.active.contains_key(flow_id.spec_value()),
{
    flow_control.registry().registered_flow(flow_id).is_some()
}

/// What is to be done about the failure of a known flow.
pub open spec fn known_disposition(
    flow_id: FlowId,
    reason: FlowTerminateReason,
    live_now: bool,
    report_if_detached: bool,
) -> EstablishedDataFailureDisposition {
    if live_now {
        EstablishedDataFailureDisposition::TerminateAndReport { flow_id, reason }
    } else if report_if_detached {
        EstablishedDataFailureDisposition::ReportOnly { flow_id, reason }
    } else {
        EstablishedDataFailureDisposition::CleanupOnly { flow_id }
    }
}

pub fn known_flow_disposition(
    flow_id: FlowId,
    reason: FlowTerminateReason,
    live_now: bool,
    report_if_detached: bool,
) -> (disposition: EstablishedDataFailureDisposition)
    ensures
        disposition == known_disposition(flow_id, reason, live_now, report_if_detached),
{
    if live_now {
        EstablishedDataFailureDisposition::TerminateAndReport { flow_id, reason }
    } else if report_if_detached {
        EstablishedDataFailureDisposition::ReportOnly { flow_id, reason }
    } else {
        EstablishedDataFailureDisposition::CleanupOnly { flow_id }
    }
}

/// Why a reliable flow ends that does not send on.
pub open spec fn send_failure_reason(error: SendError) -> FlowTerminateReason {
    match error {
        SendError::Registry(_) => FlowTerminateReason::ProtocolFailure,
        SendError::Framing(_) => FlowTerminateReason::ProtocolFailure,
        SendError::UnexpectedAcceptedIndex { .. } => FlowTerminateReason::ProtocolFailure,
        SendError::AcceptedIndexExhausted => FlowTerminateReason::ProtocolFailure,
        _ => FlowTerminateReason::ReliableDeliveryFailure,
    }
}

pub fn reliable_send_failure_reason(error: &SendError) -> (reason: FlowTerminateReason)
    ensures
        reason == send_failure_reason(*error),
{
    match error {
        SendError::Registry(_)
        | SendError::Framing(_)
        | SendError::UnexpectedAcceptedIndex { .. }
        | SendError::AcceptedIndexExhausted => FlowTerminateReason::ProtocolFailure,
        SendError::Core(_)
        | SendError::Custody(_)
        | SendError::InvalidWriteCount
        | SendError::WriteZero
        | SendError::Io(_)
        | SendError::PendingData
        | SendError::AlreadyFinishing
        | SendError::Terminal => FlowTerminateReason::ReliableDeliveryFailure,
    }
}

/// Why a reliable flow ends that does not receive on.
pub open spec fn receive_failure_reason(error: ReceiveError) -> FlowTerminateReason {
    match error {
        ReceiveError::Framing(ReliableFrameError::StagingLimitExceeded { .. }) => {
            FlowTerminateReason::ResourceFailure
        },
        ReceiveError::Framing(ReliableFrameError::AllocationFailed) => {
            FlowTerminateReason::ResourceFailure
        },
        ReceiveError::AllocationFailed => FlowTerminateReason::ResourceFailure,
        ReceiveError::AdapterStagingBelowFlowMaximum { .. } => FlowTerminateReason::ResourceFailure,
        ReceiveError::Io(_) => FlowTerminateReason::ReliableDeliveryFailure,
        ReceiveError::UnexpectedCoreOutcome(ReceiveOutcome::TerminalReliableFailure) => {
            FlowTerminateReason::ReliableDeliveryFailure
        },
        _ => FlowTerminateReason::ProtocolFailure,
    }
}

pub fn reliable_receive_failure_reason(error: &ReceiveError) -> (reason: FlowTerminateReason)
    ensures
        reason == receive_failure_reason(*error),
{
    match error {
        ReceiveError::Framing(
            ReliableFrameError::StagingLimitExceeded { .. } | ReliableFrameError::AllocationFailed,
        )
        | ReceiveError::AllocationFailed
        | ReceiveError::AdapterStagingBelowFlowMaximum { .. } => {
            FlowTerminateReason::ResourceFailure
        },
        ReceiveError::Io(_)
        | ReceiveError::UnexpectedCoreOutcome(ReceiveOutcome::TerminalReliableFailure) => {
            FlowTerminateReason::ReliableDeliveryFailure
        },
        ReceiveError::Registry(_)
        | ReceiveError::Prefix(_)
        | ReceiveError::Framing(_)
        | ReceiveError::Core(_)
        | ReceiveError::ZeroRtt
        | ReceiveError::TruncatedAssociation
        | ReceiveError::AcceptedIndexExhausted
        | ReceiveError::UnexpectedCoreOutcome(_)
        | ReceiveError::Terminal => FlowTerminateReason::ProtocolFailure,
    }
}

/// What a stream that names no flow is closed with: the peer's faults are told, a want of
/// memory is told, and what the transport or this side lost is not.
pub open spec fn unresolved_code(error: ReceiveError) -> Option<ApplicationErrorCode> {
    match error {
        ReceiveError::Registry(_) => Some(ApplicationErrorCode::ProfileProtocolError),
        ReceiveError::Prefix(_) => Some(ApplicationErrorCode::ProfileProtocolError),
        ReceiveError::ZeroRtt => Some(ApplicationErrorCode::ProfileProtocolError),
        ReceiveError::TruncatedAssociation => Some(ApplicationErrorCode::ProfileProtocolError),
        ReceiveError::AllocationFailed => Some(ApplicationErrorCode::ResourceLimitError),
        _ => None,
    }
}

pub fn classify_unresolved_reliable_receive(error: &ReceiveError) -> (disposition:
    EstablishedDataFailureDisposition)
    ensures
        disposition == (EstablishedDataFailureDisposition::ConnectionTerminal {
            code: unresolved_code(*error),
        }),
{
    let code = match error {
        ReceiveError::Registry(_)
        | ReceiveError::Prefix(_)
        | ReceiveError::ZeroRtt
        | ReceiveError::TruncatedAssociation => Some(ApplicationErrorCode::ProfileProtocolError),
        ReceiveError::AllocationFailed => Some(ApplicationErrorCode::ResourceLimitError),
        ReceiveError::Framing(_)
        | ReceiveError::Core(_)
        | ReceiveError::Io(_)
        | ReceiveError::AdapterStagingBelowFlowMaximum { .. }
        | ReceiveError::AcceptedIndexExhausted
        | ReceiveError::UnexpectedCoreOutcome(_)
        | ReceiveError::Terminal => None,
    };
    EstablishedDataFailureDisposition::ConnectionTerminal { code }
}

/// What is to be done about a failed stream, by what was known of its flow.
pub open(crate) spec fn context_disposition(
    state: FlowControlView,
    context: ReliableFailureContext,
    reason: FlowTerminateReason,
    unresolved: Option<ApplicationErrorCode>,
) -> EstablishedDataFailureDisposition {
    match context {
        ReliableFailureContext::Unresolved => {
            EstablishedDataFailureDisposition::ConnectionTerminal { code: unresolved }
        },
        ReliableFailureContext::ResolvedDetached { flow_id, .. } => {
            EstablishedDataFailureDisposition::CleanupOnly { flow_id }
        },
        ReliableFailureContext::ResolvedLive { flow_id } => known_disposition(
            flow_id,
            reason,
            state.active.contains_key(flow_id.spec_value()),
            true,
        ),
    }
}

pub fn classify_reliable_active_context(
    flow_control: &FlowControl,
    context: ReliableFailureContext,
    reason: FlowTerminateReason,
    unresolved_code: Option<ApplicationErrorCode>,
) -> (disposition: EstablishedDataFailureDisposition)
    ensures
        disposition == context_disposition(flow_control@, context, reason, unresolved_code),
{
    match context {
        ReliableFailureContext::Unresolved => {
            EstablishedDataFailureDisposition::ConnectionTerminal { code: unresolved_code }
        },
        ReliableFailureContext::ResolvedDetached { flow_id, .. } => {
            EstablishedDataFailureDisposition::CleanupOnly { flow_id }
        },
        ReliableFailureContext::ResolvedLive { flow_id } => known_flow_disposition(
            flow_id,
            reason,
            is_live(flow_control, flow_id),
            true,
        ),
    }
}

pub fn classify_outbound_reliable_active_failure(
    flow_control: &FlowControl,
    context: ReliableFailureContext,
    error: &SendError,
) -> (disposition: EstablishedDataFailureDisposition)
    ensures
        disposition == context_disposition(
            flow_control@,
            context,
            send_failure_reason(*error),
            None,
        ),
{
    let reason = reliable_send_failure_reason(error);
    classify_reliable_active_context(flow_control, context, reason, None)
}

pub fn classify_inbound_reliable_active_failure(
    flow_control: &FlowControl,
    context: ReliableFailureContext,
    error: &ReceiveError,
) -> (disposition: EstablishedDataFailureDisposition)
    ensures
        disposition == context_disposition(
            flow_control@,
            context,
            receive_failure_reason(*error),
            unresolved_code(*error),
        ),
{
    if let ReliableFailureContext::Unresolved = context {
        return classify_unresolved_reliable_receive(error);
    }
    let reason = reliable_receive_failure_reason(error);
    classify_reliable_active_context(flow_control, context, reason, None)
}

/// What a stream that could not be taken up is closed with.
pub open spec fn construction_code(error: ReceiveError) -> Option<ApplicationErrorCode> {
    match error {
        ReceiveError::ZeroRtt => Some(ApplicationErrorCode::ProfileProtocolError),
        ReceiveError::AllocationFailed => Some(ApplicationErrorCode::ResourceLimitError),
        _ => None,
    }
}

pub fn classify_inbound_reliable_construction_failure(error: &ReceiveError) -> (disposition:
    EstablishedDataFailureDisposition)
    ensures
        disposition == (EstablishedDataFailureDisposition::ConnectionTerminal {
            code: construction_code(*error),
        }),
{
    let code = match error {
        ReceiveError::ZeroRtt => Some(ApplicationErrorCode::ProfileProtocolError),
        ReceiveError::AllocationFailed => Some(ApplicationErrorCode::ResourceLimitError),
        _ => None,
    };
    EstablishedDataFailureDisposition::ConnectionTerminal { code }
}

pub fn classify_outbound_reliable_acquisition_failure(
    flow_control: &FlowControl,
    flow_id: FlowId,
    error: &SendError,
) -> (disposition: EstablishedDataFailureDisposition)
    ensures
        disposition == known_disposition(
            flow_id,
            send_failure_reason(*error),
            flow_control@.active.contains_key(flow_id.spec_value()),
            false,
        ),
{
    known_flow_disposition(
        flow_id,
        reliable_send_failure_reason(error),
        is_live(flow_control, flow_id),
        false,
    )
}

pub fn classify_known_flow_resource_failure(flow_control: &FlowControl, flow_id: FlowId) -> (disposition:
    EstablishedDataFailureDisposition)
    ensures
        disposition == known_disposition(
            flow_id,
            FlowTerminateReason::ResourceFailure,
            flow_control@.active.contains_key(flow_id.spec_value()),
            false,
        ),
{
    known_flow_disposition(
        flow_id,
        FlowTerminateReason::ResourceFailure,
        is_live(flow_control, flow_id),
        false,
    )
}

/// Why a flow ends whose datagram failed, where the flow was known.
pub open spec fn receive_reason(error: DatagramReceiveError) -> FlowTerminateReason {
    if error is AllocationFailed {
        FlowTerminateReason::ResourceFailure
    } else {
        FlowTerminateReason::ProtocolFailure
    }
}

/// What is to be done about a failed datagram.
pub open(crate) spec fn datagram_disposition(
    state: FlowControlView,
    failure: DatagramReceiveFailure,
) -> EstablishedDataFailureDisposition {
    match failure.flow_id {
        None => EstablishedDataFailureDisposition::ConnectionTerminal {
            code: match failure.error {
                DatagramReceiveError::VarInt(_) => Some(ApplicationErrorCode::ProfileProtocolError),
                DatagramReceiveError::FlowId(_) => Some(ApplicationErrorCode::ProfileProtocolError),
                DatagramReceiveError::AllocationFailed => Some(
                    ApplicationErrorCode::ResourceLimitError,
                ),
                _ => None,
            },
        },
        Some(flow_id) => known_disposition(
            flow_id,
            receive_reason(failure.error),
            state.active.contains_key(flow_id.spec_value()),
            false,
        ),
    }
}

pub fn classify_datagram_receive_failure(
    flow_control: &FlowControl,
    failure: &DatagramReceiveFailure,
) -> (disposition: EstablishedDataFailureDisposition)
    ensures
        disposition == datagram_disposition(flow_control@, *failure),
{
    let flow_id = match failure.flow_id {
        Some(flow_id) => flow_id,
        None => {
            let code = match failure.error {
                DatagramReceiveError::VarInt(_) | DatagramReceiveError::FlowId(_) => {
                    Some(ApplicationErrorCode::ProfileProtocolError)
                },
                DatagramReceiveError::AllocationFailed => {
                    Some(ApplicationErrorCode::ResourceLimitError)
                },
                DatagramReceiveError::WrongDirection
                | DatagramReceiveError::ReliableFlow
                | DatagramReceiveError::PayloadExceedsProfile
                | DatagramReceiveError::Core(_) => None,
            };
            return EstablishedDataFailureDisposition::ConnectionTerminal { code };
        },
    };
    let reason = match failure.error {
        DatagramReceiveError::AllocationFailed => FlowTerminateReason::ResourceFailure,
        DatagramReceiveError::VarInt(_)
        | DatagramReceiveError::FlowId(_)
        | DatagramReceiveError::WrongDirection
        | DatagramReceiveError::ReliableFlow
        | DatagramReceiveError::PayloadExceedsProfile
        | DatagramReceiveError::Core(_) => FlowTerminateReason::ProtocolFailure,
    };
    known_flow_disposition(flow_id, reason, is_live(flow_control, flow_id), false)
}

/// What is to be done about a flow that ran out of indices: a sequenced flow has come to
/// its normal end.
pub open(crate) spec fn exhaustion_disposition(
    state: FlowControlView,
    flow_id: FlowId,
) -> EstablishedDataFailureDisposition {
    if !state.active.contains_key(flow_id.spec_value()) {
        EstablishedDataFailureDisposition::CleanupOnly { flow_id }
    } else {
        EstablishedDataFailureDisposition::TerminateAndReport {
            flow_id,
            reason: if state.active[flow_id.spec_value()].mode
                == DeliveryMode::UnreliableSequenced {
                FlowTerminateReason::Normal
            } else {
                FlowTerminateReason::ProtocolFailure
            },
        }
    }
}

fn classify_datagram_sequence_exhaustion(flow_control: &FlowControl, flow_id: FlowId) -> (disposition:
    EstablishedDataFailureDisposition)
    ensures
        disposition == exhaustion_disposition(flow_control@, flow_id),
{
    let flow = match flow_control.registry().registered_flow(flow_id) {
        Some(flow) => flow,
        None => return EstablishedDataFailureDisposition::CleanupOnly { flow_id },
    };
    let reason = if flow.mode == DeliveryMode::UnreliableSequenced {
        FlowTerminateReason::Normal
    } else {
        FlowTerminateReason::ProtocolFailure
    };
    EstablishedDataFailureDisposition::TerminateAndReport { flow_id, reason }
}

/// What is to be done about a datagram that was not sent.
pub open(crate) spec fn send_disposition(
    state: FlowControlView,
    flow_id: FlowId,
    error: DatagramSendError,
) -> EstablishedDataFailureDisposition {
    let live = state.active.contains_key(flow_id.spec_value());
    match error {
        DatagramSendError::ProfileUnavailable => {
            EstablishedDataFailureDisposition::ConnectionTerminal { code: None }
        },
        DatagramSendError::ConnectionLost => {
            EstablishedDataFailureDisposition::ConnectionTerminal { code: None }
        },
        DatagramSendError::AllocationFailed => known_disposition(
            flow_id,
            FlowTerminateReason::ResourceFailure,
            live,
            false,
        ),
        DatagramSendError::SequenceExhausted => exhaustion_disposition(state, flow_id),
        _ => known_disposition(flow_id, FlowTerminateReason::ProtocolFailure, live, false),
    }
}

pub fn classify_datagram_send_failure(
    flow_control: &FlowControl,
    flow_id: FlowId,
    error: &DatagramSendError,
) -> (disposition: EstablishedDataFailureDisposition)
    ensures
        disposition == send_disposition(flow_control@, flow_id, *error),
{
    match error {
        DatagramSendError::ProfileUnavailable | DatagramSendError::ConnectionLost => {
            EstablishedDataFailureDisposition::ConnectionTerminal { code: None }
        },
        DatagramSendError::AllocationFailed => known_flow_disposition(
            flow_id,
            FlowTerminateReason::ResourceFailure,
            is_live(flow_control, flow_id),
            false,
        ),
        DatagramSendError::SequenceExhausted => classify_datagram_sequence_exhaustion(
            flow_control,
            flow_id,
        ),
        DatagramSendError::UnknownFlowId
        | DatagramSendError::WrongDirection
        | DatagramSendError::ReliableFlow
        | DatagramSendError::Core(_)
        | DatagramSendError::Custody(_)
        | DatagramSendError::Wire(_)
        | DatagramSendError::LengthOverflow
        | DatagramSendError::ModeMismatch
        | DatagramSendError::PayloadExceedsProfile => known_flow_disposition(
            flow_id,
            FlowTerminateReason::ProtocolFailure,
            is_live(flow_control, flow_id),
            false,
        ),
    }
}

/// What is to be done about a submission that failed, where anything is.
pub fn classify_datagram_submission_error(
    flow_control: &FlowControl,
    flow_id: FlowId,
    error: &DatagramSubmissionError,
) -> (disposition: Option<EstablishedDataFailureDisposition>)
    ensures
        *error is SequenceExhausted ==> disposition == Some(
            exhaustion_disposition(flow_control@, flow_id),
        ),
        !(*error is SequenceExhausted) ==> disposition is None,
{
    match error {
        DatagramSubmissionError::SequenceExhausted => Some(
            classify_datagram_sequence_exhaustion(flow_control, flow_id),
        ),
        DatagramSubmissionError::UnknownFlowId
        | DatagramSubmissionError::WrongDirection
        | DatagramSubmissionError::ReliableFlow
        | DatagramSubmissionError::Core(_)
        | DatagramSubmissionError::Wire(_)
        | DatagramSubmissionError::LengthOverflow
        | DatagramSubmissionError::AcceptedIndexMismatch { .. } => None,
    }
}

/// Of all failures of datagrams, only running out of indices ends a flow normally, and it
/// does so on a sequenced flow only.
pub proof fn law_only_exhaustion_ends_normally(
    state: FlowControlView,
    flow_id: FlowId,
    error: DatagramSendError,
)
    ensures
        send_disposition(state, flow_id, error)
            == (EstablishedDataFailureDisposition::TerminateAndReport {
            flow_id,
            reason: FlowTerminateReason::Normal,
        }) <==> {
            &&& error is SequenceExhausted
            &&& state.active.contains_key(flow_id.spec_value())
            &&& state.active[flow_id.spec_value()].mode == DeliveryMode::UnreliableSequenced
        },
{
}

/// What a failure of an established flow leads to can be carried out: the flow is there
/// and may end for the reason given.
pub proof fn law_dispositions_can_be_carried_out(
    state: FlowControlView,
    flow_id: FlowId,
    error: DatagramSendError,
)
    ensures
        send_disposition(state, flow_id, error)
            matches EstablishedDataFailureDisposition::TerminateAndReport { flow_id: id, reason }
            ==> id == flow_id && ending_flow(state, flow_id, reason) is Ok,
{
}

/// A failed flow that is still established is ended and the peer is told; of one that is not,
/// the peer is told only where it has to be.
pub proof fn law_live_flows_are_ended(
    flow_id: FlowId,
    reason: FlowTerminateReason,
    live: bool,
    report: bool,
)
    ensures
        live ==> known_disposition(flow_id, reason, live, report)
            == (EstablishedDataFailureDisposition::TerminateAndReport { flow_id, reason }),
        !live && report ==> known_disposition(flow_id, reason, live, report)
            == (EstablishedDataFailureDisposition::ReportOnly { flow_id, reason }),
        !live && !report ==> known_disposition(flow_id, reason, live, report)
            == (EstablishedDataFailureDisposition::CleanupOnly { flow_id }),
{
}

/// A stream that fails before it named a flow ends the connection, with a code exactly for
/// what the peer did or for want of memory. One whose flow is gone is only cleaned up. One
/// whose flow is established ends that flow for the reason of its error.
pub proof fn law_streams_fail_with_their_flow(
    state: FlowControlView,
    flow_id: FlowId,
    key: crate::delivery::DeliveryFlowKey,
    sent: SendError,
    received: ReceiveError,
)
    ensures
        ({
            let unresolved = context_disposition(
                state,
                ReliableFailureContext::Unresolved,
                receive_failure_reason(received),
                unresolved_code(received),
            );
            let detached = context_disposition(
                state,
                ReliableFailureContext::ResolvedDetached { flow_id, key },
                receive_failure_reason(received),
                unresolved_code(received),
            );
            let live = context_disposition(
                state,
                ReliableFailureContext::ResolvedLive { flow_id },
                send_failure_reason(sent),
                None,
            );
            let blamed = received is Registry || received is Prefix || received is ZeroRtt
                || received is TruncatedAssociation;
            &&& unresolved matches EstablishedDataFailureDisposition::ConnectionTerminal { code }
                && (code == Some(ApplicationErrorCode::ProfileProtocolError) <==> blamed) && (code
                == Some(ApplicationErrorCode::ResourceLimitError)
                <==> received is AllocationFailed) && (code is None <==> !blamed
                && !(received is AllocationFailed))
            &&& detached == (EstablishedDataFailureDisposition::CleanupOnly { flow_id })
            &&& state.active.contains_key(flow_id.spec_value()) ==> live
                == (EstablishedDataFailureDisposition::TerminateAndReport {
                flow_id,
                reason: send_failure_reason(sent),
            })
            &&& !state.active.contains_key(flow_id.spec_value()) ==> live
                == (EstablishedDataFailureDisposition::ReportOnly {
                flow_id,
                reason: send_failure_reason(sent),
            })
        }),
{
}

/// Why a reliable flow ends: a want of room for what the peer sends is a want of room; what
/// the transport or the core lost is a failed delivery; all else breaks the protocol. It never
/// ends normally for an error.
pub proof fn law_reliable_flows_end_for_a_reason(sent: SendError, received: ReceiveError)
    ensures
        send_failure_reason(sent) == FlowTerminateReason::ProtocolFailure <==> sent is Registry
            || sent is Framing || sent is UnexpectedAcceptedIndex || sent
            is AcceptedIndexExhausted,
        send_failure_reason(sent) == FlowTerminateReason::ProtocolFailure || send_failure_reason(
            sent,
        ) == FlowTerminateReason::ReliableDeliveryFailure,
        receive_failure_reason(received) == FlowTerminateReason::ResourceFailure <==> {
            ||| received is AllocationFailed
            ||| received is AdapterStagingBelowFlowMaximum
            ||| received matches ReceiveError::Framing(error) && (error is StagingLimitExceeded
                || error is AllocationFailed)
        },
        receive_failure_reason(received) == FlowTerminateReason::ReliableDeliveryFailure <==> {
            ||| received is Io
            ||| received == ReceiveError::UnexpectedCoreOutcome(
                ReceiveOutcome::TerminalReliableFailure,
            )
        },
        receive_failure_reason(received) != FlowTerminateReason::Normal,
{
}

/// A stream that could not be taken up ends the connection, blaming the peer for early data
/// and telling of a want of memory.
pub proof fn law_streams_that_are_not_taken_up(received: ReceiveError)
    ensures
        construction_code(received) == Some(ApplicationErrorCode::ProfileProtocolError)
            <==> received is ZeroRtt,
        construction_code(received) == Some(ApplicationErrorCode::ResourceLimitError)
            <==> received is AllocationFailed,
        construction_code(received) is None <==> !(received is ZeroRtt) && !(received
            is AllocationFailed),
{
}

/// A datagram that names no flow ends the connection, blaming the peer for what is not a name
/// and telling of a want of memory. One of a known flow ends that flow, where it is still
/// established, for want of memory or for what it did to the protocol.
pub proof fn law_datagrams_fail_with_their_flow(
    state: FlowControlView,
    flow_id: FlowId,
    error: DatagramReceiveError,
)
    ensures
        ({
            let nameless = datagram_disposition(
                state,
                DatagramReceiveFailure { flow_id: None, error },
            );
            let named = datagram_disposition(
                state,
                DatagramReceiveFailure { flow_id: Some(flow_id), error },
            );
            &&& nameless matches EstablishedDataFailureDisposition::ConnectionTerminal { code }
                && (code == Some(ApplicationErrorCode::ProfileProtocolError) <==> error is VarInt
                || error is FlowId) && (code == Some(ApplicationErrorCode::ResourceLimitError)
                <==> error is AllocationFailed)
            &&& state.active.contains_key(flow_id.spec_value()) ==> named
                == (EstablishedDataFailureDisposition::TerminateAndReport {
                flow_id,
                reason: if error is AllocationFailed {
                    FlowTerminateReason::ResourceFailure
                } else {
                    FlowTerminateReason::ProtocolFailure
                },
            })
            &&& !state.active.contains_key(flow_id.spec_value()) ==> named
                == (EstablishedDataFailureDisposition::CleanupOnly { flow_id })
        }),
{
}

/// A datagram that is not sent ends the connection where the connection or its datagrams are
/// gone; otherwise it ends its flow, where the flow is still established: for want of memory,
/// normally where a sequenced flow ran out of indices, and else for the protocol.
pub proof fn law_sends_fail_with_their_flow(
    state: FlowControlView,
    flow_id: FlowId,
    error: DatagramSendError,
)
    ensures
        ({
            let disposition = send_disposition(state, flow_id, error);
            let known = state.active.contains_key(flow_id.spec_value());
            let gone = error is ProfileUnavailable || error is ConnectionLost;
            let exhausted = error is SequenceExhausted && state.active[flow_id.spec_value()].mode
                == DeliveryMode::UnreliableSequenced;
            &&& disposition == (EstablishedDataFailureDisposition::ConnectionTerminal {
                code: None,
            }) <==> gone
            &&& !gone && !known ==> disposition
                == (EstablishedDataFailureDisposition::CleanupOnly { flow_id })
            &&& !gone && known ==> disposition
                == (EstablishedDataFailureDisposition::TerminateAndReport {
                flow_id,
                reason: if error is AllocationFailed {
                    FlowTerminateReason::ResourceFailure
                } else if exhausted {
                    FlowTerminateReason::Normal
                } else {
                    FlowTerminateReason::ProtocolFailure
                },
            })
        }),
{
}

/// A reliable flow is refused for its size exactly where its largest message could not be
/// reassembled; other flows never are.
pub proof fn law_reliable_flows_can_be_reassembled(
    mode: DeliveryMode,
    max_message_bytes: u64,
    max_staging_bytes: usize,
)
    ensures
        staging_rejection(mode, max_message_bytes, max_staging_bytes) is None <==> mode
            != DeliveryMode::ReliableOrdered || max_message_bytes <= max_staging_bytes,
        staging_rejection(mode, max_message_bytes, max_staging_bytes) matches Some(reason)
            ==> reason == FlowRejectReason::ResourceLimit,
{
}

/// A failure is carried out on the flow that it is about: an established flow is ended for the
/// reason given and the peer told so in the same words; of a flow that is gone the peer is
/// told where it has to be, and else nothing is done. Nothing but the connection's own failure
/// ends the connection.
pub proof fn law_failures_are_carried_out_on_their_flow(
    state: FlowControlView,
    flow_id: FlowId,
    reason: FlowTerminateReason,
    storage: ByteStorage,
    ended: Result<DataFailureStep, FlowControlError>,
    reported: Result<DataFailureStep, FlowControlError>,
)
    requires
        storage is Ok,
        prepared_failure(
            state,
            EstablishedDataFailureDisposition::TerminateAndReport { flow_id, reason },
            storage,
            ended,
        ),
        prepared_failure(
            state,
            EstablishedDataFailureDisposition::ReportOnly { flow_id, reason },
            storage,
            reported,
        ),
    ensures
        ({
            let known = state.active.contains_key(flow_id.spec_value());
            let flow = state.active[flow_id.spec_value()];
            let by_stream = flow.mode == DeliveryMode::ReliableOrdered && reason
                == FlowTerminateReason::Normal;
            let words = (FlowTerminate { flow_id, reason }).bytes();
            &&& known && !by_stream ==> {
                ended matches Ok(DataFailureStep::Terminate(call)) && call.flow.flow_id == flow_id
                    && call.flow.key == flow.key && call.reason == reason && call.frame.frame_type
                    == ControlFrameType::FlowTerminate && call.frame.body@ == words
            }
            &&& !known ==> ended is Err
            &&& !known ==> {
                reported matches Ok(DataFailureStep::PendingSend(pending))
                    && pending.frame.frame_type == ControlFrameType::FlowTerminate
                    && pending.frame.body@ == words && pending.effect
                    == (FlowControlSendEffect::ReportOnlyTermination { flow_id, reason })
            }
            &&& known && !by_stream ==> reported matches Ok(DataFailureStep::Terminate(_))
        }),
{
}

/// A frame that has to be sent goes with what it stands for, and both are those of the
/// progress, the resolution or the end that it comes from.
pub proof fn law_frames_go_with_what_they_stand_for(
    flow_id: FlowId,
    key: crate::delivery::DeliveryFlowKey,
    refused: FlowRejectReason,
    reason: FlowTerminateReason,
    termination: Option<FlowTermination>,
    ended: FlowTermination,
    flow: EstablishedFlow,
    frame: ControlFrame,
)
    ensures
        routed_progress(
            FlowControlProgress::InboundRejected { flow_id, reason: refused, frame },
        ) == FlowControlDriverProgress::PendingSend(
            PendingFlowControlSend {
                frame,
                effect: FlowControlSendEffect::InboundRejected { flow_id, reason: refused },
            },
        ),
        routed_progress(
            FlowControlProgress::OutboundFailedAfterAccept {
                flow_id,
                key,
                reason,
                termination,
                frame,
            },
        ) == FlowControlDriverProgress::PendingSend(
            PendingFlowControlSend {
                frame,
                effect: FlowControlSendEffect::OutboundFailedAfterAccept {
                    flow_id,
                    key,
                    reason,
                    termination,
                },
            },
        ),
        routed_progress(FlowControlProgress::OutboundEstablished(flow))
            == FlowControlDriverProgress::OutboundEstablished(flow),
        routed_progress(FlowControlProgress::OutboundRejected { flow_id, key, reason: refused })
            == (FlowControlDriverProgress::OutboundRejected { flow_id, key, reason: refused }),
        routed_progress(
            FlowControlProgress::RemoteTerminated { flow, reason, termination: ended },
        ) == (FlowControlDriverProgress::RemoteTerminated { flow, reason, termination: ended }),
        resolution_send(InboundResolution::Accepted { flow, frame }) == (PendingFlowControlSend {
            frame,
            effect: FlowControlSendEffect::InboundAccepted(flow),
        }),
        resolution_send(InboundResolution::Rejected { flow_id, reason: refused, frame })
            == (PendingFlowControlSend {
            frame,
            effect: FlowControlSendEffect::InboundRejected { flow_id, reason: refused },
        }),
        termination_send(LocalTermination { flow, reason, termination: ended, frame })
            == (PendingFlowControlSend {
            frame,
            effect: FlowControlSendEffect::LocalTerminated { flow, reason, termination: ended },
        }),
{
}

/// A refusal is taken for the request that waits, and for no other: the request then waits no
/// longer, nothing else changes, and the peer is told the flow and the reason. A request that
/// does not wait changes nothing.
pub proof fn law_refusals_are_for_the_waiting_request(
    before: FlowControlView,
    after: FlowControlView,
    request: InboundOpenRequest,
    reason: FlowRejectReason,
    storage: ByteStorage,
    step: Result<PendingFlowControlSend, InboundAdmissionError>,
)
    requires
        rejection_decided(before, after, request, reason, storage, step),
    ensures
        ({
            let flow_id = request.spec_flow_id();
            let waits = before.pending_inbound matches Some(pending) && pending
                == request.pending();
            &&& !waits ==> after == before && step == Err::<PendingFlowControlSend, _>(
                InboundAdmissionError::RequestNotPending(flow_id),
            )
            &&& waits ==> after.pending_inbound is None && after.active == before.active
                && after.pending_outbound == before.pending_outbound
            &&& waits && storage is Ok ==> {
                step matches Ok(pending) && pending.frame.frame_type
                    == ControlFrameType::FlowReject && pending.frame.body@
                    == (crate::wire::FlowReject { flow_id, reason }).bytes() && pending.effect
                    == (FlowControlSendEffect::InboundRejected { flow_id, reason })
            }
            &&& waits && storage is Err ==> step == Err::<PendingFlowControlSend, _>(
                InboundAdmissionError::Allocation(storage->Err_0),
            )
        }),
{
}

/// A grant of a reliable flow whose messages could not be reassembled refuses the flow for
/// want of room, and the core is not asked. Any other grant goes to flow control.
pub proof fn law_grants_need_room_to_reassemble(
    before: FlowControlView,
    after: FlowControlView,
    request: InboundOpenRequest,
    admission: InboundAdmission,
    policy_check: Result<(), DeliveryPolicyError>,
    reliable_max_staging_bytes: usize,
    storage: ByteStorage,
    step: Result<InboundDriverStep, InboundAdmissionError>,
)
    requires
        storage is Ok,
        before.pending_inbound == Some(request.pending()),
        inbound_accepted(
            before,
            after,
            request,
            admission,
            policy_check,
            reliable_max_staging_bytes,
            storage,
            step,
        ),
    ensures
        ({
            let too_large = request.spec_mode() == DeliveryMode::ReliableOrdered
                && request.spec_max_message_bytes() > reliable_max_staging_bytes;
            &&& too_large ==> {
                &&& after.pending_inbound is None
                &&& after.active == before.active
                &&& step matches Ok(InboundDriverStep::PendingSend(pending)) && pending.effect
                    == (FlowControlSendEffect::InboundRejected {
                    flow_id: request.spec_flow_id(),
                    reason: FlowRejectReason::ResourceLimit,
                })
            }
            &&& !too_large ==> exists|inner: Result<InboundStep, InboundAdmissionError>|
                {
                    &&& admission_received(
                        before,
                        after,
                        request,
                        admission,
                        policy_check,
                        storage,
                        inner,
                    )
                    &&& #[trigger] is_driver_step(step, inner)
                    &&& inner matches Ok(InboundStep::Establish(call)) ==> step == Ok::<
                        _,
                        InboundAdmissionError,
                    >(InboundDriverStep::Establish(call))
                    &&& inner matches Err(error) ==> step == Err::<InboundDriverStep, _>(error)
                    &&& inner matches Ok(InboundStep::Resolved(
                        InboundResolution::Rejected { flow_id, reason, frame },
                    )) ==> {
                        step matches Ok(InboundDriverStep::PendingSend(pending)) && pending.frame
                            == frame && pending.effect == (FlowControlSendEffect::InboundRejected {
                            flow_id,
                            reason,
                        })
                    }
                }
        }),
{
}

/// Where there is no memory for a report, a failed flow is not given up quietly: the want of
/// memory is told in the place of the report.
pub proof fn law_reports_need_memory(
    state: FlowControlView,
    flow_id: FlowId,
    reason: FlowTerminateReason,
    error: std::collections::TryReserveError,
    ended: Result<DataFailureStep, FlowControlError>,
    reported: Result<PendingFlowControlSend, FlowControlError>,
)
    requires
        is_termination(ended, state, flow_id, reason, Err(error)),
        is_report(reported, flow_id, reason, Err(error)),
    ensures
        reported == Err::<PendingFlowControlSend, _>(FlowControlError::Allocation(error)),
        ended is Err,
        !state.active.contains_key(flow_id.spec_value()) ==> ended == Err::<DataFailureStep, _>(
            FlowControlError::UnknownActiveFlow(flow_id),
        ),
        state.active.contains_key(flow_id.spec_value()) && reason != FlowTerminateReason::Normal
            ==> ended == Err::<DataFailureStep, _>(FlowControlError::Allocation(error)),
{
}

} // verus!
