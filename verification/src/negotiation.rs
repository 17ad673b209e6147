//! The negotiation of one connection: which frame is due, what the host's manager is
//! asked, and how it ends.
//!
//! Where an operation needs the manager, it stops with what the manager is to be asked,
//! and a second operation takes the answer.

use vstd::prelude::*;

use crate::control::{ControlFrame, ControlFrameType, SemanticRole, Settings};
use crate::delivery::ConnectionHandle;
use crate::negotiation_codec::{
    body_fits, decode_failure, decode_offer, decode_proposal, encodable_offer, encode_offer,
    encode_proposal, failure_at, law_failure_round_trip, law_offer_round_trip,
    law_proposal_round_trip, memory_kept, offer_at, offer_bytes, offer_needs_room, offer_within,
    proposal_at, proposal_bytes, proposal_needs_room, proposal_within, refusal, BodyDecodeError,
    NegotiationOutcome, NegotiationWireError,
};
use crate::protocol::{
    CompatibilityOffer, NegotiatedContract, NegotiationError, NegotiationManagerError,
    NegotiationStatus, OfferContent, OfferLimits, SelectionContent,
};
use crate::storage::{fresh, ByteStorage, Memory};
use crate::varint::MAX_VARINT;

verus! {

/// How far a negotiation has come.
#[derive(Debug, Clone, Copy, PartialEq, Eq, Structural)]
pub enum NegotiationState {
    Ready,
    AwaitingPeerOffer,
    AwaitingAuthoritySelection,
    AwaitingProposal,
    AwaitingValidated,
    AwaitingEstablished,
    Established,
    Failed,
}

/// What a negotiation comes to next.
#[derive(Debug, PartialEq, Eq)]
pub enum NegotiationProgress {
    Waiting,
    AuthoritySelectionRequired,
    Send(ControlFrame),
    Established,
    RemoteFailed(NegotiationOutcome),
}

/// Why a negotiation failed on this side.
#[derive(Debug, PartialEq, Eq)]
pub enum NegotiationControlError {
    ProfileProtocol(NegotiationProtocolError),
    LocalFailure { outcome: NegotiationOutcome, report: Option<ControlFrame> },
    ManagerState(NegotiationManagerError),
    UnexpectedCoreStatus(NegotiationStatus),
}

/// How the negotiation was violated.
#[derive(Debug, Clone, Copy, PartialEq, Eq, Structural)]
pub enum NegotiationProtocolError {
    UnexpectedFrame { state: NegotiationState, frame_type: ControlFrameType },
    UnexpectedLocalOperation { state: NegotiationState },
    WrongLocalRole { expected: SemanticRole, actual: SemanticRole },
    NonEmptyAcknowledgement(ControlFrameType),
    Wire(NegotiationWireError),
}

/// How a negotiation ended, and whether the manager still holds it.
#[derive(Debug, PartialEq, Eq)]
pub struct NegotiationEnd {
    pub conclusion: Result<NegotiationProgress, NegotiationControlError>,
    /// Have the manager let go of the connection.
    pub release: bool,
}

/// What comes next.
#[derive(Debug, PartialEq, Eq)]
pub enum NegotiationStep {
    Progress(NegotiationProgress),
    /// Have the manager start with the two offers.
    Start { authority_offer: CompatibilityOffer, peer_offer: CompatibilityOffer },
    /// Have the manager take the proposal.
    Propose(NegotiatedContract),
    /// Have the manager note that the authority validated the proposal.
    ValidateAuthority,
    /// Have the manager note that the peer validated the proposal.
    ValidatePeer,
    /// Read the proposal that the manager holds.
    ReadProposal,
    End(NegotiationEnd),
}

impl NegotiationEnd {
    /// What the negotiation ended with, once the manager was told where it had to be.
    pub open spec fn concluded(self, released: Result<(), NegotiationManagerError>) -> Result<
        NegotiationProgress,
        NegotiationControlError,
    > {
        match released {
            Err(error) => if self.release {
                Err(NegotiationControlError::ManagerState(error))
            } else {
                self.conclusion
            },
            Ok(()) => self.conclusion,
        }
    }

    /// Takes the manager's answer to letting go of the connection.
    pub fn conclude(self, released: Result<(), NegotiationManagerError>) -> (conclusion: Result<
        NegotiationProgress,
        NegotiationControlError,
    >)
        ensures
            conclusion == self.concluded(released),
    {
        match released {
            Err(error) => if self.release {
                Err(NegotiationControlError::ManagerState(error))
            } else {
                self.conclusion
            },
            Ok(()) => self.conclusion,
        }
    }
}

/// What a refusal of the manager means for the peer, or the error where it means that this
/// side lost track.
pub open spec fn failure_outcome(error: NegotiationManagerError) -> Result<
    NegotiationOutcome,
    NegotiationManagerError,
> {
    match error {
        NegotiationManagerError::AttemptLimitExceeded => Ok(
            NegotiationOutcome::ResourceLimitExceeded,
        ),
        NegotiationManagerError::AggregateLimitExceeded => Ok(
            NegotiationOutcome::ResourceLimitExceeded,
        ),
        NegotiationManagerError::ConnectionAlreadyKnown => Err(error),
        NegotiationManagerError::UnknownConnection => Err(error),
        NegotiationManagerError::Negotiation(inner) => match inner {
            NegotiationError::AuthorityOfferInvalid(_) => Ok(NegotiationOutcome::MalformedOffer),
            NegotiationError::PeerOfferInvalid(_) => Ok(NegotiationOutcome::MalformedOffer),
            NegotiationError::ProtocolIncompatible => Ok(NegotiationOutcome::ProtocolIncompatible),
            NegotiationError::RequiredCapabilityUnavailable(_) => Ok(
                NegotiationOutcome::RequiredCapabilityUnavailable,
            ),
            NegotiationError::RequiredSchemaUnavailable(_) => Ok(
                NegotiationOutcome::RequiredSchemaUnavailable,
            ),
            NegotiationError::SelectionTooLarge => Ok(NegotiationOutcome::ResourceLimitExceeded),
            NegotiationError::InvalidSelection => Ok(NegotiationOutcome::InvalidSelection),
            NegotiationError::AlreadyProposed => Err(error),
            NegotiationError::NoProposal => Err(error),
            NegotiationError::AlreadyEstablished => Err(error),
        },
    }
}

pub fn manager_failure_outcome(error: NegotiationManagerError) -> (outcome: Result<
    NegotiationOutcome,
    NegotiationManagerError,
>)
    ensures
        outcome == failure_outcome(error),
{
    match error {
        NegotiationManagerError::AttemptLimitExceeded
        | NegotiationManagerError::AggregateLimitExceeded => Ok(
            NegotiationOutcome::ResourceLimitExceeded,
        ),
        NegotiationManagerError::Negotiation(inner) => match inner {
            NegotiationError::AuthorityOfferInvalid(_) | NegotiationError::PeerOfferInvalid(_) => {
                Ok(NegotiationOutcome::MalformedOffer)
            },
            NegotiationError::ProtocolIncompatible => Ok(NegotiationOutcome::ProtocolIncompatible),
            NegotiationError::RequiredCapabilityUnavailable(_) => Ok(
                NegotiationOutcome::RequiredCapabilityUnavailable,
            ),
            NegotiationError::RequiredSchemaUnavailable(_) => Ok(
                NegotiationOutcome::RequiredSchemaUnavailable,
            ),
            NegotiationError::SelectionTooLarge => Ok(NegotiationOutcome::ResourceLimitExceeded),
            NegotiationError::InvalidSelection => Ok(NegotiationOutcome::InvalidSelection),
            NegotiationError::AlreadyProposed
            | NegotiationError::NoProposal
            | NegotiationError::AlreadyEstablished => Err(error),
        },
        NegotiationManagerError::ConnectionAlreadyKnown
        | NegotiationManagerError::UnknownConnection => Err(error),
    }
}

/// The report of a failure, where there was memory for it.
pub open spec fn is_failure_report(
    report: Option<ControlFrame>,
    outcome: NegotiationOutcome,
    storage: ByteStorage,
) -> bool {
    match storage {
        Err(_) => report is None,
        Ok(_) => report is Some && report->0.holds(
            ControlFrameType::NegotiationFailed,
            seq![outcome.number() as u8],
        ),
    }
}

/// The frame that reports a failure, in the room that was made for its one byte.
pub fn failure_frame(outcome: NegotiationOutcome, storage: ByteStorage) -> (report: Option<
    ControlFrame,
>)
    requires
        fresh(storage),
    ensures
        is_failure_report(report, outcome, storage),
{
    match storage {
        Err(_) => None,
        Ok(bytes) => {
            let mut body: Vec<u8> = bytes;
            body.push(outcome.wire() as u8);
            proof {
                assert(body@ =~= seq![outcome.number() as u8]);
            }
            Some(ControlFrame { frame_type: ControlFrameType::NegotiationFailed, body })
        },
    }
}

/// The negotiation of one connection.
#[derive(Debug)]
pub struct NegotiationExchange {
    pub(crate) connection: ConnectionHandle,
    pub(crate) role: SemanticRole,
    pub(crate) max_negotiation_frame_bytes: u64,
    pub(crate) state: NegotiationState,
    pub(crate) local_offer: Option<CompatibilityOffer>,
    pub(crate) manager_owned: bool,
}

/// What a negotiation knows.
pub struct ExchangeView {
    pub connection: ConnectionHandle,
    pub role: SemanticRole,
    pub max_negotiation_frame_bytes: u64,
    pub state: NegotiationState,
    /// The offer of this side, until it is handed to the manager.
    pub local_offer: Option<CompatibilityOffer>,
    /// The manager holds the negotiation of this connection.
    pub manager_owned: bool,
}

impl ExchangeView {
    /// The negotiation failed.
    pub open spec fn failed(self) -> ExchangeView {
        ExchangeView {
            state: NegotiationState::Failed,
            local_offer: None,
            manager_owned: false,
            ..self
        }
    }

    /// The negotiation came to another state.
    pub open spec fn at(self, state: NegotiationState) -> ExchangeView {
        ExchangeView { state, ..self }
    }

    /// The step ends the negotiation with an error.
    pub open spec fn ends(self, step: NegotiationStep, error: NegotiationControlError) -> bool {
        step == NegotiationStep::End(
            NegotiationEnd { conclusion: Err(error), release: self.manager_owned },
        )
    }

    /// The step ends the negotiation with a failure that the peer is told of.
    pub open spec fn ends_locally(
        self,
        step: NegotiationStep,
        outcome: NegotiationOutcome,
        storage: ByteStorage,
    ) -> bool {
        step matches NegotiationStep::End(end) && {
            &&& end.release == self.manager_owned
            &&& end.conclusion matches Err(
                NegotiationControlError::LocalFailure { outcome: told, report },
            ) && told == outcome && is_failure_report(report, outcome, storage)
        }
    }

    /// The step ends the negotiation because of a refusal of the manager.
    pub open spec fn ends_by_manager(
        self,
        step: NegotiationStep,
        error: NegotiationManagerError,
        storage: ByteStorage,
    ) -> bool {
        match failure_outcome(error) {
            Ok(outcome) => self.ends_locally(step, outcome, storage),
            Err(error) => self.ends(step, NegotiationControlError::ManagerState(error)),
        }
    }
}

/// What a frame means for a negotiation.
#[allow(inconsistent_fields)]
pub enum Verdict {
    RemoteFailure(NegotiationOutcome),
    Violation(NegotiationProtocolError),
    LocalFailure(NegotiationOutcome),
    Offer(OfferContent),
    Proposal(SelectionContent),
    Validated,
    Established,
}

/// The frame that a negotiation waits for, where it waits for one.
pub open spec fn awaited_frame(state: NegotiationState) -> Option<ControlFrameType> {
    match state {
        NegotiationState::AwaitingPeerOffer => Some(ControlFrameType::NegotiationOffer),
        NegotiationState::AwaitingProposal => Some(ControlFrameType::NegotiationProposal),
        NegotiationState::AwaitingValidated => Some(ControlFrameType::NegotiationValidated),
        NegotiationState::AwaitingEstablished => Some(ControlFrameType::NegotiationEstablished),
        _ => None,
    }
}

/// What an error of a body means.
pub open spec fn decode_verdict(error: BodyDecodeError) -> Verdict {
    match error {
        BodyDecodeError::Protocol(error) => Verdict::Violation(
            NegotiationProtocolError::Wire(error),
        ),
        BodyDecodeError::Failure(outcome) => Verdict::LocalFailure(outcome),
    }
}

/// What a frame means in a state, where memory is not refused.
pub open spec fn verdict(
    state: NegotiationState,
    frame_type: ControlFrameType,
    body: Seq<u8>,
    limits: OfferLimits,
) -> Verdict {
    if frame_type == ControlFrameType::NegotiationFailed && state != NegotiationState::Established
        && state != NegotiationState::Failed {
        match failure_at(body) {
            Err(error) => Verdict::Violation(NegotiationProtocolError::Wire(error)),
            Ok(outcome) => Verdict::RemoteFailure(outcome),
        }
    } else if state == NegotiationState::AwaitingPeerOffer && frame_type
        == ControlFrameType::NegotiationOffer {
        match offer_at(body, limits) {
            Err(error) => decode_verdict(error),
            Ok(offer) => Verdict::Offer(offer),
        }
    } else if state == NegotiationState::AwaitingProposal && frame_type
        == ControlFrameType::NegotiationProposal {
        match proposal_at(body, limits) {
            Err(error) => decode_verdict(error),
            Ok(contract) => Verdict::Proposal(contract),
        }
    } else if state == NegotiationState::AwaitingValidated && frame_type
        == ControlFrameType::NegotiationValidated {
        if body.len() > 0 {
            Verdict::Violation(NegotiationProtocolError::NonEmptyAcknowledgement(frame_type))
        } else {
            Verdict::Validated
        }
    } else if state == NegotiationState::AwaitingEstablished && frame_type
        == ControlFrameType::NegotiationEstablished {
        if body.len() > 0 {
            Verdict::Violation(NegotiationProtocolError::NonEmptyAcknowledgement(frame_type))
        } else {
            Verdict::Established
        }
    } else {
        Verdict::Violation(NegotiationProtocolError::UnexpectedFrame { state, frame_type })
    }
}

/// Room is asked for to take a frame up: only what an offer or a proposal lists needs any,
/// where such a frame is due.
pub open spec fn frame_needs_room(
    state: NegotiationState,
    frame_type: ControlFrameType,
    body: Seq<u8>,
    limits: OfferLimits,
) -> bool {
    ||| state == NegotiationState::AwaitingPeerOffer && frame_type
        == ControlFrameType::NegotiationOffer && offer_needs_room(body, limits)
    ||| state == NegotiationState::AwaitingProposal && frame_type
        == ControlFrameType::NegotiationProposal && proposal_needs_room(body, limits)
}

/// A frame was received.
pub open spec fn frame_received(
    before: ExchangeView,
    after: ExchangeView,
    found: Verdict,
    report: ByteStorage,
    step: NegotiationStep,
) -> bool {
    match found {
        Verdict::RemoteFailure(outcome) => {
            &&& after == before.failed()
            &&& step == NegotiationStep::End(
                NegotiationEnd {
                    conclusion: Ok(NegotiationProgress::RemoteFailed(outcome)),
                    release: before.manager_owned,
                },
            )
        },
        Verdict::Violation(error) => {
            &&& after == before.failed()
            &&& before.ends(step, NegotiationControlError::ProfileProtocol(error))
        },
        Verdict::LocalFailure(outcome) => {
            &&& after == before.failed()
            &&& before.ends_locally(step, outcome, report)
        },
        Verdict::Offer(offer) => match before.local_offer {
            None => {
                &&& after == before.failed()
                &&& before.ends(
                    step,
                    NegotiationControlError::ProfileProtocol(
                        NegotiationProtocolError::UnexpectedLocalOperation { state: before.state },
                    ),
                )
            },
            Some(local) => {
                &&& after == (ExchangeView { local_offer: None, ..before })
                &&& step matches NegotiationStep::Start { authority_offer, peer_offer }
                    && match before.role {
                    SemanticRole::Authority => authority_offer == local && peer_offer@ == offer,
                    SemanticRole::NonAuthority => peer_offer == local && authority_offer@ == offer,
                }
            },
        },
        Verdict::Proposal(contract) => {
            &&& after == before
            &&& step matches NegotiationStep::Propose(proposed) && proposed@ == contract
        },
        Verdict::Validated => {
            &&& after == before
            &&& step == NegotiationStep::ValidatePeer
        },
        Verdict::Established => {
            &&& after == before
            &&& step == NegotiationStep::ValidateAuthority
        },
    }
}

/// The status that the manager has to be in for a negotiation to go on.
pub open spec fn expected_status(state: NegotiationState) -> NegotiationStatus {
    match state {
        NegotiationState::AwaitingAuthoritySelection => NegotiationStatus::AwaitingValidation {
            authority_validated: true,
            peer_validated: false,
        },
        NegotiationState::AwaitingProposal => NegotiationStatus::AwaitingValidation {
            authority_validated: false,
            peer_validated: true,
        },
        _ => NegotiationStatus::Established,
    }
}

/// A state in which the manager may be asked to validate.
pub open spec fn validates(state: NegotiationState) -> bool {
    ||| state == NegotiationState::AwaitingAuthoritySelection
    ||| state == NegotiationState::AwaitingProposal
    ||| state == NegotiationState::AwaitingValidated
    ||| state == NegotiationState::AwaitingEstablished
}

/// This side's offer was prepared. `refused` tells that there was no memory for it.
pub open spec fn offer_prepared(
    before: ExchangeView,
    after: ExchangeView,
    offer: CompatibilityOffer,
    manager_accepts: bool,
    refused: bool,
    report: ByteStorage,
    step: NegotiationStep,
) -> bool {
    if before.state != NegotiationState::Ready {
        &&& after == before.failed()
        &&& before.ends(
            step,
            NegotiationControlError::ProfileProtocol(
                NegotiationProtocolError::UnexpectedLocalOperation {
                    state: before.state,
                },
            ),
        )
    } else if !manager_accepts || offer.diagnostic_label is Some {
        &&& after == before.failed()
        &&& before.ends_locally(step, NegotiationOutcome::MalformedOffer, report)
    } else if refused || !body_fits(
        offer_bytes(offer@),
        before.max_negotiation_frame_bytes,
    ) {
        &&& after == before.failed()
        &&& before.ends_locally(
            step,
            NegotiationOutcome::ResourceLimitExceeded,
            report,
        )
    } else {
        &&& after == (ExchangeView {
            state: NegotiationState::AwaitingPeerOffer,
            local_offer: Some(offer),
            ..before
        })
        &&& step matches NegotiationStep::Progress(NegotiationProgress::Send(frame))
            && frame.holds(ControlFrameType::NegotiationOffer, offer_bytes(offer@))
    }
}

/// The host's selection was taken.
pub open spec fn selection_taken(
    before: ExchangeView,
    after: ExchangeView,
    contract: NegotiatedContract,
    step: NegotiationStep,
) -> bool {
    if before.role != SemanticRole::Authority {
        &&& after == before.failed()
        &&& before.ends(
            step,
            NegotiationControlError::ProfileProtocol(
                NegotiationProtocolError::WrongLocalRole {
                    expected: SemanticRole::Authority,
                    actual: before.role,
                },
            ),
        )
    } else if before.state != NegotiationState::AwaitingAuthoritySelection {
        &&& after == before.failed()
        &&& before.ends(
            step,
            NegotiationControlError::ProfileProtocol(
                NegotiationProtocolError::UnexpectedLocalOperation {
                    state: before.state,
                },
            ),
        )
    } else {
        &&& after == before
        &&& step == NegotiationStep::Propose(contract)
    }
}

/// The manager answered to starting with the two offers.
pub open spec fn start_answered(
    before: ExchangeView,
    after: ExchangeView,
    answer: Result<(), NegotiationManagerError>,
    report: ByteStorage,
    step: NegotiationStep,
) -> bool {
    if before.state != NegotiationState::AwaitingPeerOffer {
        &&& after == before.failed()
        &&& before.ends(
            step,
            NegotiationControlError::ProfileProtocol(
                NegotiationProtocolError::UnexpectedLocalOperation {
                    state: before.state,
                },
            ),
        )
    } else {
        match answer {
            Err(error) => {
                &&& after == before.failed()
                &&& before.ends_by_manager(step, error, report)
            },
            Ok(()) => {
                &&& after == (ExchangeView {
                    manager_owned: true,
                    state: match before.role {
                        SemanticRole::Authority => {
                            NegotiationState::AwaitingAuthoritySelection
                        },
                        SemanticRole::NonAuthority => NegotiationState::AwaitingProposal,
                    },
                    ..before
                })
                &&& step == NegotiationStep::Progress(
                    match before.role {
                        SemanticRole::Authority => {
                            NegotiationProgress::AuthoritySelectionRequired
                        },
                        SemanticRole::NonAuthority => NegotiationProgress::Waiting,
                    },
                )
            },
        }
    }
}

/// The manager answered to a proposal.
pub open spec fn proposal_answered(
    before: ExchangeView,
    after: ExchangeView,
    answer: Result<(), NegotiationManagerError>,
    report: ByteStorage,
    step: NegotiationStep,
) -> bool {
    if before.state != NegotiationState::AwaitingAuthoritySelection && before.state
        != NegotiationState::AwaitingProposal {
        &&& after == before.failed()
        &&& before.ends(
            step,
            NegotiationControlError::ProfileProtocol(
                NegotiationProtocolError::UnexpectedLocalOperation {
                    state: before.state,
                },
            ),
        )
    } else {
        match answer {
            Err(error) => {
                &&& after == before.failed()
                &&& before.ends_by_manager(step, error, report)
            },
            Ok(()) => {
                &&& after == before
                &&& step == (if before.state
                    == NegotiationState::AwaitingAuthoritySelection {
                    NegotiationStep::ValidateAuthority
                } else {
                    NegotiationStep::ValidatePeer
                })
            },
        }
    }
}

/// The manager answered to a validation.
pub open spec fn validation_answered(
    before: ExchangeView,
    after: ExchangeView,
    answer: Result<NegotiationStatus, NegotiationManagerError>,
    step: NegotiationStep,
) -> bool {
    if !validates(before.state) {
        &&& after == before.failed()
        &&& before.ends(
            step,
            NegotiationControlError::ProfileProtocol(
                NegotiationProtocolError::UnexpectedLocalOperation {
                    state: before.state,
                },
            ),
        )
    } else {
        match answer {
            Err(error) => {
                &&& after == before.failed()
                &&& before.ends(step, NegotiationControlError::ManagerState(error))
            },
            Ok(status) => if status != expected_status(before.state) {
                &&& after == before.failed()
                &&& before.ends(
                    step,
                    NegotiationControlError::UnexpectedCoreStatus(status),
                )
            } else {
                validation_done(before, after, step)
            },
        }
    }
}

/// The proposal that the manager holds was prepared. `refused` tells that there was no memory
/// for it.
pub open spec fn proposal_prepared(
    before: ExchangeView,
    after: ExchangeView,
    answer: Result<NegotiatedContract, NegotiationManagerError>,
    refused: bool,
    report: ByteStorage,
    step: NegotiationStep,
) -> bool {
    if before.state != NegotiationState::AwaitingAuthoritySelection {
        &&& after == before.failed()
        &&& before.ends(
            step,
            NegotiationControlError::ProfileProtocol(
                NegotiationProtocolError::UnexpectedLocalOperation {
                    state: before.state,
                },
            ),
        )
    } else {
        match answer {
            Err(error) => {
                &&& after == before.failed()
                &&& before.ends(step, NegotiationControlError::ManagerState(error))
            },
            Ok(contract) => if refused || !body_fits(
                proposal_bytes(contract@),
                before.max_negotiation_frame_bytes,
            ) {
                &&& after == before.failed()
                &&& before.ends_locally(
                    step,
                    NegotiationOutcome::ResourceLimitExceeded,
                    report,
                )
            } else {
                &&& after == before.at(NegotiationState::AwaitingValidated)
                &&& step matches NegotiationStep::Progress(
                    NegotiationProgress::Send(frame),
                ) && frame.holds(
                    ControlFrameType::NegotiationProposal,
                    proposal_bytes(contract@),
                )
            },
        }
    }
}

impl NegotiationExchange {
    pub open(crate) spec fn view(&self) -> ExchangeView {
        ExchangeView {
            connection: self.connection,
            role: self.role,
            max_negotiation_frame_bytes: self.max_negotiation_frame_bytes,
            state: self.state,
            local_offer: self.local_offer,
            manager_owned: self.manager_owned,
        }
    }

    /// The negotiation of a connection whose profile is ready.
    pub fn from_profile(connection: ConnectionHandle, local: Settings, peer: Settings) -> (exchange:
        Self)
        ensures
            exchange@ == (ExchangeView {
                connection,
                role: local.semantic_role,
                max_negotiation_frame_bytes: if local.max_negotiation_frame_bytes
                    < peer.max_negotiation_frame_bytes {
                    local.max_negotiation_frame_bytes
                } else {
                    peer.max_negotiation_frame_bytes
                },
                state: NegotiationState::Ready,
                local_offer: None,
                manager_owned: false,
            }),
    {
        let max_negotiation_frame_bytes: u64 = if local.max_negotiation_frame_bytes
            < peer.max_negotiation_frame_bytes {
            local.max_negotiation_frame_bytes
        } else {
            peer.max_negotiation_frame_bytes
        };
        NegotiationExchange {
            connection,
            role: local.semantic_role,
            max_negotiation_frame_bytes,
            state: NegotiationState::Ready,
            local_offer: None,
            manager_owned: false,
        }
    }

    pub fn state(&self) -> (state: NegotiationState)
        ensures
            state == self@.state,
    {
        self.state
    }

    pub fn connection(&self) -> (connection: ConnectionHandle)
        ensures
            connection == self@.connection,
    {
        self.connection
    }

    /// The manager holds the negotiation of this connection.
    pub fn manager_owned(&self) -> (owned: bool)
        ensures
            owned == self@.manager_owned,
    {
        self.manager_owned
    }

    fn fail(&mut self, error: NegotiationControlError) -> (step: NegotiationStep)
        ensures
            final(self)@ == old(self)@.failed(),
            old(self)@.ends(step, error),
    {
        let release: bool = self.manager_owned;
        self.local_offer = None;
        self.state = NegotiationState::Failed;
        self.manager_owned = false;
        NegotiationStep::End(NegotiationEnd { conclusion: Err(error), release })
    }

    fn fail_protocol(&mut self, error: NegotiationProtocolError) -> (step: NegotiationStep)
        ensures
            final(self)@ == old(self)@.failed(),
            old(self)@.ends(step, NegotiationControlError::ProfileProtocol(error)),
    {
        self.fail(NegotiationControlError::ProfileProtocol(error))
    }

    fn fail_local(&mut self, outcome: NegotiationOutcome, report: ByteStorage) -> (step:
        NegotiationStep)
        requires
            fresh(report),
        ensures
            final(self)@ == old(self)@.failed(),
            old(self)@.ends_locally(step, outcome, report),
    {
        let report = failure_frame(outcome, report);
        self.fail(NegotiationControlError::LocalFailure { outcome, report })
    }

    fn fail_decode(&mut self, error: BodyDecodeError, report: ByteStorage) -> (step:
        NegotiationStep)
        requires
            fresh(report),
        ensures
            frame_received(old(self)@, final(self)@, decode_verdict(error), report, step),
    {
        match error {
            BodyDecodeError::Protocol(error) => {
                self.fail_protocol(NegotiationProtocolError::Wire(error))
            },
            BodyDecodeError::Failure(outcome) => self.fail_local(outcome, report),
        }
    }

    fn fail_from_manager(&mut self, error: NegotiationManagerError, report: ByteStorage) -> (step:
        NegotiationStep)
        requires
            fresh(report),
        ensures
            final(self)@ == old(self)@.failed(),
            old(self)@.ends_by_manager(step, error, report),
    {
        match manager_failure_outcome(error) {
            Ok(outcome) => self.fail_local(outcome, report),
            Err(error) => self.fail(NegotiationControlError::ManagerState(error)),
        }
    }

    /// Offers what this side can work with. `manager_accepts` is the manager's judgement of
    /// the offer.
    pub fn prepare_offer(
        &mut self,
        offer: CompatibilityOffer,
        manager_accepts: bool,
        memory: &mut Memory,
        report: ByteStorage,
    ) -> (step: NegotiationStep)
        requires
            !old(memory).was_refused(),
            fresh(report),
        ensures
            memory_kept(*old(memory), *final(memory)),
            offer_prepared(
                old(self)@,
                final(self)@,
                offer,
                manager_accepts,
                final(memory).was_refused(),
                report,
                step,
            ),
            old(self)@.state != NegotiationState::Ready || !manager_accepts
                || offer.diagnostic_label is Some || !body_fits(
                offer_bytes(offer@),
                old(self)@.max_negotiation_frame_bytes,
            ) ==> *final(memory) == *old(memory),
    {
        if self.state != NegotiationState::Ready {
            let state = self.state;
            return self.fail_protocol(NegotiationProtocolError::UnexpectedLocalOperation { state });
        }
        if !manager_accepts || offer.diagnostic_label.is_some() {
            return self.fail_local(NegotiationOutcome::MalformedOffer, report);
        }
        let body = match encode_offer(&offer, self.max_negotiation_frame_bytes, memory) {
            Ok(body) => body,
            Err(outcome) => return self.fail_local(outcome, report),
        };
        self.local_offer = Some(offer);
        self.state = NegotiationState::AwaitingPeerOffer;
        NegotiationStep::Progress(
            NegotiationProgress::Send(
                ControlFrame { frame_type: ControlFrameType::NegotiationOffer, body },
            ),
        )
    }

    /// Takes the host's selection on the authority's side.
    pub fn propose_authority(&mut self, contract: NegotiatedContract) -> (step: NegotiationStep)
        ensures
            selection_taken(
                old(self)@,
                final(self)@,
                contract,
                step,
            ),
    {
        if self.role != SemanticRole::Authority {
            let actual = self.role;
            return self.fail_protocol(
                NegotiationProtocolError::WrongLocalRole {
                    expected: SemanticRole::Authority,
                    actual,
                },
            );
        }
        if self.state != NegotiationState::AwaitingAuthoritySelection {
            let state = self.state;
            return self.fail_protocol(NegotiationProtocolError::UnexpectedLocalOperation { state });
        }
        NegotiationStep::Propose(contract)
    }

    /// Takes a negotiation frame of the peer.
    pub fn receive(
        &mut self,
        frame: ControlFrame,
        limits: OfferLimits,
        memory: &mut Memory,
        report: ByteStorage,
    ) -> (step: NegotiationStep)
        requires
            !old(memory).was_refused(),
            fresh(report),
        ensures
            memory_kept(*old(memory), *final(memory)),
            frame_received(
                old(self)@,
                final(self)@,
                if final(memory).was_refused() {
                    decode_verdict(refusal())
                } else {
                    verdict(old(self)@.state, frame.frame_type, frame.body@, limits)
                },
                report,
                step,
            ),
            !frame_needs_room(
                old(self)@.state,
                frame.frame_type,
                frame.body@,
                limits,
            ) ==> *final(memory) == *old(memory),
    {
        let frame_type = frame.frame_type;
        let body = frame.body;
        if frame_type == ControlFrameType::NegotiationFailed && self.state
            != NegotiationState::Established && self.state != NegotiationState::Failed {
            return self.receive_failure(body.as_slice());
        }
        match (self.state, frame_type) {
            (NegotiationState::AwaitingPeerOffer, ControlFrameType::NegotiationOffer) => {
                self.receive_offer(body.as_slice(), limits, memory, report)
            },
            (NegotiationState::AwaitingProposal, ControlFrameType::NegotiationProposal) => {
                match decode_proposal(body.as_slice(), limits, memory) {
                    Ok(contract) => NegotiationStep::Propose(contract),
                    Err(error) => self.fail_decode(error, report),
                }
            },
            (NegotiationState::AwaitingValidated, ControlFrameType::NegotiationValidated) => {
                if body.len() > 0 {
                    return self.fail_protocol(
                        NegotiationProtocolError::NonEmptyAcknowledgement(frame_type),
                    );
                }
                NegotiationStep::ValidatePeer
            },
            (NegotiationState::AwaitingEstablished, ControlFrameType::NegotiationEstablished) => {
                if body.len() > 0 {
                    return self.fail_protocol(
                        NegotiationProtocolError::NonEmptyAcknowledgement(frame_type),
                    );
                }
                NegotiationStep::ValidateAuthority
            },
            (state, frame_type) => self.fail_protocol(
                NegotiationProtocolError::UnexpectedFrame { state, frame_type },
            ),
        }
    }

    fn receive_offer(
        &mut self,
        body: &[u8],
        limits: OfferLimits,
        memory: &mut Memory,
        report: ByteStorage,
    ) -> (step: NegotiationStep)
        requires
            !old(memory).was_refused(),
            fresh(report),
            old(self)@.state == NegotiationState::AwaitingPeerOffer,
        ensures
            memory_kept(*old(memory), *final(memory)),
            frame_received(
                old(self)@,
                final(self)@,
                if final(memory).was_refused() {
                    decode_verdict(refusal())
                } else {
                    match offer_at(body@, limits) {
                        Err(error) => decode_verdict(error),
                        Ok(offer) => Verdict::Offer(offer),
                    }
                },
                report,
                step,
            ),
            !offer_needs_room(body@, limits) ==> *final(memory) == *old(memory),
    {
        let offer = match decode_offer(body, limits, memory) {
            Ok(offer) => offer,
            Err(error) => return self.fail_decode(error, report),
        };
        match self.local_offer.take() {
            None => {
                let state = self.state;
                self.fail_protocol(NegotiationProtocolError::UnexpectedLocalOperation { state })
            },
            Some(local) => match self.role {
                SemanticRole::Authority => NegotiationStep::Start {
                    authority_offer: local,
                    peer_offer: offer,
                },
                SemanticRole::NonAuthority => NegotiationStep::Start {
                    authority_offer: offer,
                    peer_offer: local,
                },
            },
        }
    }

    fn receive_failure(&mut self, body: &[u8]) -> (step: NegotiationStep)
        ensures
            match failure_at(body@) {
                Err(error) => {
                    &&& final(self)@ == old(self)@.failed()
                    &&& old(self)@.ends(
                        step,
                        NegotiationControlError::ProfileProtocol(
                            NegotiationProtocolError::Wire(error),
                        ),
                    )
                },
                Ok(outcome) => {
                    &&& final(self)@ == old(self)@.failed()
                    &&& step == NegotiationStep::End(
                        NegotiationEnd {
                            conclusion: Ok(NegotiationProgress::RemoteFailed(outcome)),
                            release: old(self)@.manager_owned,
                        },
                    )
                },
            },
    {
        let outcome = match decode_failure(body) {
            Ok(outcome) => outcome,
            Err(error) => return self.fail_protocol(NegotiationProtocolError::Wire(error)),
        };
        let release: bool = self.manager_owned;
        self.local_offer = None;
        self.state = NegotiationState::Failed;
        self.manager_owned = false;
        NegotiationStep::End(
            NegotiationEnd { conclusion: Ok(NegotiationProgress::RemoteFailed(outcome)), release },
        )
    }

    /// Takes the manager's answer to starting with the two offers.
    pub fn started(&mut self, answer: Result<(), NegotiationManagerError>, report: ByteStorage) -> (step:
        NegotiationStep)
        requires
            fresh(report),
        ensures
            start_answered(
                old(self)@,
                final(self)@,
                answer,
                report,
                step,
            ),
    {
        if self.state != NegotiationState::AwaitingPeerOffer {
            let state = self.state;
            return self.fail_protocol(NegotiationProtocolError::UnexpectedLocalOperation { state });
        }
        if let Err(error) = answer {
            return self.fail_from_manager(error, report);
        }
        self.manager_owned = true;
        match self.role {
            SemanticRole::Authority => {
                self.state = NegotiationState::AwaitingAuthoritySelection;
                NegotiationStep::Progress(NegotiationProgress::AuthoritySelectionRequired)
            },
            SemanticRole::NonAuthority => {
                self.state = NegotiationState::AwaitingProposal;
                NegotiationStep::Progress(NegotiationProgress::Waiting)
            },
        }
    }

    /// Takes the manager's answer to a proposal, on either side.
    pub fn proposed(&mut self, answer: Result<(), NegotiationManagerError>, report: ByteStorage) -> (step:
        NegotiationStep)
        requires
            fresh(report),
        ensures
            proposal_answered(
                old(self)@,
                final(self)@,
                answer,
                report,
                step,
            ),
    {
        let next = match self.state {
            NegotiationState::AwaitingAuthoritySelection => NegotiationStep::ValidateAuthority,
            NegotiationState::AwaitingProposal => NegotiationStep::ValidatePeer,
            state => {
                return self.fail_protocol(
                    NegotiationProtocolError::UnexpectedLocalOperation { state },
                )
            },
        };
        match answer {
            Ok(()) => next,
            Err(error) => self.fail_from_manager(error, report),
        }
    }

    /// Takes the manager's answer to a validation, on either side.
    pub fn validated(&mut self, answer: Result<NegotiationStatus, NegotiationManagerError>) -> (step:
        NegotiationStep)
        ensures
            validation_answered(
                old(self)@,
                final(self)@,
                answer,
                step,
            ),
    {
        let expected = match self.state {
            NegotiationState::AwaitingAuthoritySelection => NegotiationStatus::AwaitingValidation {
                authority_validated: true,
                peer_validated: false,
            },
            NegotiationState::AwaitingProposal => NegotiationStatus::AwaitingValidation {
                authority_validated: false,
                peer_validated: true,
            },
            NegotiationState::AwaitingValidated | NegotiationState::AwaitingEstablished => {
                NegotiationStatus::Established
            },
            state => {
                return self.fail_protocol(
                    NegotiationProtocolError::UnexpectedLocalOperation { state },
                )
            },
        };
        let status = match answer {
            Ok(status) => status,
            Err(error) => return self.fail(NegotiationControlError::ManagerState(error)),
        };
        if status != expected {
            return self.fail(NegotiationControlError::UnexpectedCoreStatus(status));
        }
        match self.state {
            NegotiationState::AwaitingAuthoritySelection => NegotiationStep::ReadProposal,
            NegotiationState::AwaitingProposal => {
                self.state = NegotiationState::AwaitingEstablished;
                acknowledgement(ControlFrameType::NegotiationValidated)
            },
            NegotiationState::AwaitingValidated => {
                self.state = NegotiationState::Established;
                acknowledgement(ControlFrameType::NegotiationEstablished)
            },
            _ => {
                self.state = NegotiationState::Established;
                NegotiationStep::Progress(NegotiationProgress::Established)
            },
        }
    }

    /// Takes the proposal that the manager holds, and sends it.
    pub fn proposal_read(
        &mut self,
        answer: Result<NegotiatedContract, NegotiationManagerError>,
        memory: &mut Memory,
        report: ByteStorage,
    ) -> (step: NegotiationStep)
        requires
            !old(memory).was_refused(),
            fresh(report),
        ensures
            memory_kept(*old(memory), *final(memory)),
            proposal_prepared(
                old(self)@,
                final(self)@,
                answer,
                final(memory).was_refused(),
                report,
                step,
            ),
            old(self)@.state != NegotiationState::AwaitingAuthoritySelection || answer is Err
                || !body_fits(
                proposal_bytes(answer->Ok_0@),
                old(self)@.max_negotiation_frame_bytes,
            ) ==> *final(memory) == *old(memory),
    {
        if self.state != NegotiationState::AwaitingAuthoritySelection {
            let state = self.state;
            return self.fail_protocol(NegotiationProtocolError::UnexpectedLocalOperation { state });
        }
        let contract = match answer {
            Ok(contract) => contract,
            Err(error) => return self.fail(NegotiationControlError::ManagerState(error)),
        };
        let body = match encode_proposal(&contract, self.max_negotiation_frame_bytes, memory) {
            Ok(body) => body,
            Err(outcome) => return self.fail_local(outcome, report),
        };
        self.state = NegotiationState::AwaitingValidated;
        NegotiationStep::Progress(
            NegotiationProgress::Send(
                ControlFrame { frame_type: ControlFrameType::NegotiationProposal, body },
            ),
        )
    }

    /// Gives the negotiation up. The result tells whether the manager has to let go of the
    /// connection.
    pub fn abort(&mut self) -> (release: bool)
        ensures
            final(self)@ == old(self)@.failed(),
            release == old(self)@.manager_owned,
    {
        let release: bool = self.manager_owned;
        self.local_offer = None;
        self.state = NegotiationState::Failed;
        self.manager_owned = false;
        release
    }
}

/// A validation went through.
pub open spec fn validation_done(
    before: ExchangeView,
    after: ExchangeView,
    step: NegotiationStep,
) -> bool {
    match before.state {
        NegotiationState::AwaitingAuthoritySelection => {
            &&& after == before
            &&& step == NegotiationStep::ReadProposal
        },
        NegotiationState::AwaitingProposal => {
            &&& after == before.at(NegotiationState::AwaitingEstablished)
            &&& is_acknowledgement(step, ControlFrameType::NegotiationValidated)
        },
        NegotiationState::AwaitingValidated => {
            &&& after == before.at(NegotiationState::Established)
            &&& is_acknowledgement(step, ControlFrameType::NegotiationEstablished)
        },
        _ => {
            &&& after == before.at(NegotiationState::Established)
            &&& step == NegotiationStep::Progress(NegotiationProgress::Established)
        },
    }
}

/// The step sends an empty frame.
pub open spec fn is_acknowledgement(step: NegotiationStep, frame_type: ControlFrameType) -> bool {
    step matches NegotiationStep::Progress(NegotiationProgress::Send(frame)) && frame.holds(
        frame_type,
        Seq::empty(),
    )
}

fn acknowledgement(frame_type: ControlFrameType) -> (step: NegotiationStep)
    ensures
        is_acknowledgement(step, frame_type),
{
    let body: Vec<u8> = Vec::new();
    proof {
        assert(body@ =~= Seq::empty());
    }
    NegotiationStep::Progress(NegotiationProgress::Send(ControlFrame { frame_type, body }))
}

/// A failed negotiation stays failed, whatever frame comes, and the manager is not told
/// twice.
pub proof fn law_failure_is_final(
    exchange: ExchangeView,
    frame_type: ControlFrameType,
    body: Seq<u8>,
    limits: OfferLimits,
)
    ensures
        exchange.failed().failed() == exchange.failed(),
        !exchange.failed().manager_owned,
        verdict(NegotiationState::Failed, frame_type, body, limits) == Verdict::Violation(
            NegotiationProtocolError::UnexpectedFrame {
                state: NegotiationState::Failed,
                frame_type,
            },
        ),
{
}

/// While a negotiation is under way, one frame besides a failure is due at most; every
/// other frame is a violation.
pub proof fn law_one_frame_is_due(
    state: NegotiationState,
    first: ControlFrameType,
    second: ControlFrameType,
    body: Seq<u8>,
    limits: OfferLimits,
)
    requires
        first != ControlFrameType::NegotiationFailed,
        second != ControlFrameType::NegotiationFailed,
        first != second,
    ensures
        verdict(state, first, body, limits) == Verdict::Violation(
            NegotiationProtocolError::UnexpectedFrame { state, frame_type: first },
        ) || verdict(state, second, body, limits) == Verdict::Violation(
            NegotiationProtocolError::UnexpectedFrame { state, frame_type: second },
        ),
{
}

/// Whatever ends a negotiation leaves it failed and has the manager let go of what it held.
/// A frame that is not due, an acknowledgement that is not empty and a failure of the peer
/// are told for what they are, and need no room.
pub proof fn law_wrong_frames_fail_closed(
    before: ExchangeView,
    after: ExchangeView,
    frame_type: ControlFrameType,
    body: Seq<u8>,
    limits: OfferLimits,
    report: ByteStorage,
    step: NegotiationStep,
)
    ensures
        ({
            let state = before.state;
            let found = verdict(state, frame_type, body, limits);
            let due = awaited_frame(state) == Some(frame_type);
            let ended = state == NegotiationState::Established || state
                == NegotiationState::Failed;
            let failure = frame_type == ControlFrameType::NegotiationFailed && !ended;
            let acknowledges = frame_type == ControlFrameType::NegotiationValidated || frame_type
                == ControlFrameType::NegotiationEstablished;
            &&& (found is Violation || found is LocalFailure || found is RemoteFailure)
                && frame_received(before, after, found, report, step) ==> {
                &&& after == before.failed()
                &&& step is End
                &&& step->End_0.release == before.manager_owned
            }
            &&& !due && !failure ==> found == Verdict::Violation(
                NegotiationProtocolError::UnexpectedFrame { state, frame_type },
            )
            &&& due && acknowledges && body.len() > 0 ==> found == Verdict::Violation(
                NegotiationProtocolError::NonEmptyAcknowledgement(frame_type),
            )
            &&& failure && failure_at(body) is Ok ==> found == Verdict::RemoteFailure(
                failure_at(body)->Ok_0,
            )
            &&& !due || acknowledges ==> !frame_needs_room(state, frame_type, body, limits)
        }),
{
}

/// What one side sends, the other side takes for what it is: an offer, a proposal and a
/// failure arrive with their content, and the acknowledgements find the state that waits
/// for them.
pub proof fn law_frames_meet(
    offer: OfferContent,
    contract: SelectionContent,
    outcome: NegotiationOutcome,
    state: NegotiationState,
    limits: OfferLimits,
)
    requires
        offer_within(offer, limits),
        encodable_offer(offer),
        contract.wf(),
        proposal_within(contract, limits),
        contract.capabilities.len() <= MAX_VARINT,
        contract.schemas.len() <= MAX_VARINT,
    ensures
        verdict(
            NegotiationState::AwaitingPeerOffer,
            ControlFrameType::NegotiationOffer,
            offer_bytes(offer),
            limits,
        ) == Verdict::Offer(offer),
        verdict(
            NegotiationState::AwaitingProposal,
            ControlFrameType::NegotiationProposal,
            proposal_bytes(contract),
            limits,
        ) == Verdict::Proposal(contract),
        verdict(
            NegotiationState::AwaitingValidated,
            ControlFrameType::NegotiationValidated,
            Seq::empty(),
            limits,
        ) == Verdict::Validated,
        verdict(
            NegotiationState::AwaitingEstablished,
            ControlFrameType::NegotiationEstablished,
            Seq::empty(),
            limits,
        ) == Verdict::Established,
        state != NegotiationState::Established && state != NegotiationState::Failed ==> verdict(
            state,
            ControlFrameType::NegotiationFailed,
            seq![outcome.number() as u8],
            limits,
        ) == Verdict::RemoteFailure(outcome),
{
    law_offer_round_trip(offer, limits);
    law_proposal_round_trip(contract, limits);
    law_failure_round_trip(outcome, Seq::empty());
}

/// The frame that a step sends, where it sends one.
pub open spec fn sent_frame(step: NegotiationStep) -> Option<ControlFrame> {
    match step {
        NegotiationStep::Progress(NegotiationProgress::Send(frame)) => Some(frame),
        _ => None,
    }
}

/// A frame that was sent was received, with memory at hand.
pub open spec fn took_frame(
    before: ExchangeView,
    after: ExchangeView,
    frame: Option<ControlFrame>,
    limits: OfferLimits,
    report: ByteStorage,
    step: NegotiationStep,
) -> bool {
    &&& frame is Some
    &&& frame_received(
        before,
        after,
        verdict(before.state, frame->0.frame_type, frame->0.body@, limits),
        report,
        step,
    )
}

/// One side of a negotiation as it runs: what it knew before and behind each operation, and
/// what each operation came to.
pub struct Run {
    pub views: Seq<ExchangeView>,
    pub steps: Seq<NegotiationStep>,
    pub report: ByteStorage,
}

/// A side offers, takes the other side's offer, and has its manager start.
pub open spec fn offers(
    run: Run,
    offer: CompatibilityOffer,
    other: Option<ControlFrame>,
    limits: OfferLimits,
) -> bool {
    &&& offer_prepared(run.views[0], run.views[1], offer, true, false, run.report, run.steps[0])
    &&& took_frame(run.views[1], run.views[2], other, limits, run.report, run.steps[1])
    &&& start_answered(run.views[2], run.views[3], Ok(()), run.report, run.steps[2])
}

/// The authority proposes a contract, reads it back from its manager, sends it, and takes
/// the peer's acknowledgement. Its manager answers as expected.
pub open spec fn proposes(
    run: Run,
    contract: NegotiatedContract,
    held: NegotiatedContract,
    acknowledgement: Option<ControlFrame>,
    limits: OfferLimits,
) -> bool {
    &&& selection_taken(run.views[0], run.views[1], contract, run.steps[0])
    &&& proposal_answered(run.views[1], run.views[2], Ok(()), run.report, run.steps[1])
    &&& validation_answered(
        run.views[2],
        run.views[3],
        Ok(expected_status(run.views[2].state)),
        run.steps[2],
    )
    &&& proposal_prepared(
        run.views[3],
        run.views[4],
        Ok(held),
        false,
        run.report,
        run.steps[3],
    )
    &&& took_frame(run.views[4], run.views[5], acknowledgement, limits, run.report, run.steps[4])
    &&& validation_answered(
        run.views[5],
        run.views[6],
        Ok(expected_status(run.views[5].state)),
        run.steps[5],
    )
}

/// The peer takes a proposal, acknowledges it, and takes the authority's acknowledgement. Its
/// manager answers as expected.
pub open spec fn follows(
    run: Run,
    proposal: Option<ControlFrame>,
    acknowledgement: Option<ControlFrame>,
    limits: OfferLimits,
) -> bool {
    &&& took_frame(run.views[0], run.views[1], proposal, limits, run.report, run.steps[0])
    &&& proposal_answered(run.views[1], run.views[2], Ok(()), run.report, run.steps[1])
    &&& validation_answered(
        run.views[2],
        run.views[3],
        Ok(expected_status(run.views[2].state)),
        run.steps[2],
    )
    &&& took_frame(run.views[3], run.views[4], acknowledgement, limits, run.report, run.steps[3])
    &&& validation_answered(
        run.views[4],
        run.views[5],
        Ok(expected_status(run.views[4].state)),
        run.steps[4],
    )
}

/// Two sides that offer to each other have their managers start with the same two offers.
/// Then the authority is to select, and the peer waits for the proposal.
pub proof fn law_offers_reach_both_managers(
    authority: Run,
    peer: Run,
    authority_offer: CompatibilityOffer,
    peer_offer: CompatibilityOffer,
    authority_limits: OfferLimits,
    peer_limits: OfferLimits,
)
    requires
        authority.views[0].role == SemanticRole::Authority,
        authority.views[0].state == NegotiationState::Ready,
        peer.views[0].role == SemanticRole::NonAuthority,
        peer.views[0].state == NegotiationState::Ready,
        authority_offer.diagnostic_label is None,
        peer_offer.diagnostic_label is None,
        encodable_offer(authority_offer@),
        encodable_offer(peer_offer@),
        offer_within(authority_offer@, peer_limits),
        offer_within(peer_offer@, authority_limits),
        body_fits(
            offer_bytes(authority_offer@),
            authority.views[0].max_negotiation_frame_bytes,
        ),
        body_fits(offer_bytes(peer_offer@), peer.views[0].max_negotiation_frame_bytes),
        offers(authority, authority_offer, sent_frame(peer.steps[0]), authority_limits),
        offers(peer, peer_offer, sent_frame(authority.steps[0]), peer_limits),
    ensures
        authority.steps[1] matches NegotiationStep::Start {
            authority_offer: mine,
            peer_offer: theirs,
        } && mine == authority_offer && theirs@ == peer_offer@,
        peer.steps[1] matches NegotiationStep::Start {
            authority_offer: theirs,
            peer_offer: mine,
        } && mine == peer_offer && theirs@ == authority_offer@,
        authority.steps[2] == NegotiationStep::Progress(
            NegotiationProgress::AuthoritySelectionRequired,
        ),
        peer.steps[2] == NegotiationStep::Progress(NegotiationProgress::Waiting),
        authority.views[3].state == NegotiationState::AwaitingAuthoritySelection,
        peer.views[3].state == NegotiationState::AwaitingProposal,
        authority.views[3].manager_owned && peer.views[3].manager_owned,
{
    law_offer_round_trip(authority_offer@, peer_limits);
    law_offer_round_trip(peer_offer@, authority_limits);
}

/// Two sides end established on the same contract. What the authority's manager is handed
/// to propose, the peer's manager is handed too; the peer answers with an empty validated
/// frame, the authority with an empty established frame, and behind it both are established.
pub proof fn law_both_sides_establish_the_same_contract(
    authority: Run,
    peer: Run,
    contract: NegotiatedContract,
    held: NegotiatedContract,
    authority_limits: OfferLimits,
    peer_limits: OfferLimits,
)
    requires
        authority.views[0].role == SemanticRole::Authority,
        authority.views[0].state == NegotiationState::AwaitingAuthoritySelection,
        peer.views[0].state == NegotiationState::AwaitingProposal,
        contract@.wf(),
        held@ == contract@,
        proposal_within(contract@, peer_limits),
        body_fits(proposal_bytes(contract@), authority.views[0].max_negotiation_frame_bytes),
        proposes(authority, contract, held, sent_frame(peer.steps[2]), authority_limits),
        follows(peer, sent_frame(authority.steps[3]), sent_frame(authority.steps[5]), peer_limits),
    ensures
        authority.steps[0] == NegotiationStep::Propose(contract),
        peer.steps[0] matches NegotiationStep::Propose(proposed) && proposed@ == contract@,
        is_acknowledgement(peer.steps[2], ControlFrameType::NegotiationValidated),
        is_acknowledgement(authority.steps[5], ControlFrameType::NegotiationEstablished),
        peer.steps[4] == NegotiationStep::Progress(NegotiationProgress::Established),
        authority.views[6] == authority.views[0].at(NegotiationState::Established),
        peer.views[5] == peer.views[0].at(NegotiationState::Established),
{
    assert(contract@.capabilities.len() <= MAX_VARINT && contract@.schemas.len() <= MAX_VARINT)
        by {
        assert(contract@.capabilities.len() * 16 <= usize::MAX);
        assert(contract@.schemas.len() * 48 <= usize::MAX);
    }
    law_proposal_round_trip(contract@, peer_limits);
}

/// An offer that the manager accepts and that has no label is sent exactly where its body is
/// not longer than the limit that both sides share; a proposal likewise. The frame carries
/// the whole body. A longer one ends the negotiation for want of room.
pub proof fn law_offers_are_sent_up_to_the_limit(
    before: ExchangeView,
    after: ExchangeView,
    offer: CompatibilityOffer,
    report: ByteStorage,
    step: NegotiationStep,
)
    requires
        before.state == NegotiationState::Ready,
        offer.diagnostic_label is None,
        offer_bytes(offer@).len() <= usize::MAX,
        offer_prepared(before, after, offer, true, false, report, step),
    ensures
        offer_bytes(offer@).len() <= before.max_negotiation_frame_bytes ==> {
            &&& sent_frame(step) is Some
            &&& sent_frame(step)->0.frame_type == ControlFrameType::NegotiationOffer
            &&& sent_frame(step)->0.body@ == offer_bytes(offer@)
            &&& after.state == NegotiationState::AwaitingPeerOffer
            &&& after.local_offer == Some(offer)
        },
        offer_bytes(offer@).len() > before.max_negotiation_frame_bytes ==> {
            &&& after.state == NegotiationState::Failed
            &&& step matches NegotiationStep::End(end) && end.conclusion matches Err(
                NegotiationControlError::LocalFailure { outcome, .. },
            ) && outcome == NegotiationOutcome::ResourceLimitExceeded
        },
{
}

/// A proposal is sent exactly where its body is not longer than the limit that both sides
/// share.
pub proof fn law_proposals_are_sent_up_to_the_limit(
    before: ExchangeView,
    after: ExchangeView,
    held: NegotiatedContract,
    report: ByteStorage,
    step: NegotiationStep,
)
    requires
        before.state == NegotiationState::AwaitingAuthoritySelection,
        proposal_bytes(held@).len() <= usize::MAX,
        proposal_prepared(before, after, Ok(held), false, report, step),
    ensures
        proposal_bytes(held@).len() <= before.max_negotiation_frame_bytes ==> {
            &&& sent_frame(step) is Some
            &&& sent_frame(step)->0.frame_type == ControlFrameType::NegotiationProposal
            &&& sent_frame(step)->0.body@ == proposal_bytes(held@)
            &&& after.state == NegotiationState::AwaitingValidated
        },
        proposal_bytes(held@).len() > before.max_negotiation_frame_bytes ==> {
            &&& after.state == NegotiationState::Failed
            &&& step matches NegotiationStep::End(end) && end.conclusion matches Err(
                NegotiationControlError::LocalFailure { outcome, .. },
            ) && outcome == NegotiationOutcome::ResourceLimitExceeded
        },
{
}

/// A label, and an offer that the manager does not accept, are never sent: they end the
/// negotiation as malformed.
pub proof fn law_unfit_offers_are_malformed(
    before: ExchangeView,
    after: ExchangeView,
    offer: CompatibilityOffer,
    manager_accepts: bool,
    refused: bool,
    report: ByteStorage,
    step: NegotiationStep,
)
    requires
        before.state == NegotiationState::Ready,
        !manager_accepts || offer.diagnostic_label is Some,
        offer_prepared(before, after, offer, manager_accepts, refused, report, step),
    ensures
        sent_frame(step) is None,
        after.state == NegotiationState::Failed,
        step matches NegotiationStep::End(end) && end.conclusion matches Err(
            NegotiationControlError::LocalFailure { outcome, .. },
        ) && outcome == NegotiationOutcome::MalformedOffer,
{
}

/// What the manager has to answer to a validation: the authority validates first and alone,
/// so does the peer on its side, and the second validation establishes.
pub proof fn law_validation_is_expected_in_turn()
    ensures
        expected_status(NegotiationState::AwaitingAuthoritySelection)
            == (NegotiationStatus::AwaitingValidation {
            authority_validated: true,
            peer_validated: false,
        }),
        expected_status(NegotiationState::AwaitingProposal)
            == (NegotiationStatus::AwaitingValidation {
            authority_validated: false,
            peer_validated: true,
        }),
        expected_status(NegotiationState::AwaitingValidated) == NegotiationStatus::Established,
        expected_status(NegotiationState::AwaitingEstablished) == NegotiationStatus::Established,
{
}

/// A manager that answers a validation otherwise ends the negotiation with what it answered.
pub proof fn law_other_statuses_end_the_negotiation(
    before: ExchangeView,
    after: ExchangeView,
    status: NegotiationStatus,
    step: NegotiationStep,
)
    requires
        validation_answered(before, after, Ok(status), step),
        before.state == NegotiationState::AwaitingValidated || before.state
            == NegotiationState::AwaitingEstablished,
    ensures
        after.state == NegotiationState::Established <==> status == NegotiationStatus::Established,
        status != NegotiationStatus::Established ==> {
            &&& after.state == NegotiationState::Failed
            &&& !after.manager_owned
            &&& step matches NegotiationStep::End(end) && end.release == before.manager_owned
                && end.conclusion == Err::<NegotiationProgress, _>(
                NegotiationControlError::UnexpectedCoreStatus(status),
            )
        },
{
}

/// A negotiation that failed keeps nothing: no offer and no hold on the manager, and it is
/// still that of the same connection, role and limit. A report of a failure is one byte with
/// the number of the outcome.
pub proof fn law_failed_negotiations_keep_nothing(
    exchange: ExchangeView,
    report: Option<ControlFrame>,
    outcome: NegotiationOutcome,
    storage: ByteStorage,
)
    ensures
        ({
            let failed = exchange.failed();
            &&& failed.state == NegotiationState::Failed
            &&& failed.local_offer is None
            &&& !failed.manager_owned
            &&& failed.connection == exchange.connection
            &&& failed.role == exchange.role
            &&& failed.max_negotiation_frame_bytes == exchange.max_negotiation_frame_bytes
        }),
        storage is Ok && is_failure_report(report, outcome, storage) ==> {
            &&& report is Some
            &&& report->0.frame_type == ControlFrameType::NegotiationFailed
            &&& report->0.body@.len() == 1
            &&& report->0.body@[0] == match outcome {
                NegotiationOutcome::MalformedOffer => 0u8,
                NegotiationOutcome::ProtocolIncompatible => 1u8,
                NegotiationOutcome::RequiredCapabilityUnavailable => 2u8,
                NegotiationOutcome::RequiredSchemaUnavailable => 3u8,
                NegotiationOutcome::ResourceLimitExceeded => 4u8,
                NegotiationOutcome::InvalidSelection => 5u8,
            }
        },
{
}

/// A refusal of the manager is told to the peer exactly where it is about the offers or the
/// selection; where this side lost track of the connection it is not.
pub proof fn law_refusals_are_told_where_they_concern_the_peer(error: NegotiationManagerError)
    ensures
        failure_outcome(error) is Err <==> error == NegotiationManagerError::ConnectionAlreadyKnown
            || error == NegotiationManagerError::UnknownConnection || error
            == NegotiationManagerError::Negotiation(NegotiationError::AlreadyProposed) || error
            == NegotiationManagerError::Negotiation(NegotiationError::NoProposal) || error
            == NegotiationManagerError::Negotiation(NegotiationError::AlreadyEstablished),
        failure_outcome(error) matches Err(kept) ==> kept == error,
        failure_outcome(error) == Ok::<_, NegotiationManagerError>(
            NegotiationOutcome::MalformedOffer,
        ) ==> {
            error matches NegotiationManagerError::Negotiation(inner) && (
            inner is AuthorityOfferInvalid || inner is PeerOfferInvalid)
        },
        failure_outcome(error) == Ok::<_, NegotiationManagerError>(
            NegotiationOutcome::ResourceLimitExceeded,
        ) ==> error == NegotiationManagerError::AttemptLimitExceeded || error
            == NegotiationManagerError::AggregateLimitExceeded || error
            == NegotiationManagerError::Negotiation(NegotiationError::SelectionTooLarge),
        failure_outcome(error) == Ok::<_, NegotiationManagerError>(
            NegotiationOutcome::InvalidSelection,
        ) ==> error == NegotiationManagerError::Negotiation(NegotiationError::InvalidSelection),
        failure_outcome(error) == Ok::<_, NegotiationManagerError>(
            NegotiationOutcome::ProtocolIncompatible,
        ) ==> error == NegotiationManagerError::Negotiation(NegotiationError::ProtocolIncompatible),
        failure_outcome(error) == Ok::<_, NegotiationManagerError>(
            NegotiationOutcome::RequiredCapabilityUnavailable,
        ) ==> {
            error matches NegotiationManagerError::Negotiation(inner) && inner is RequiredCapabilityUnavailable
        },
        failure_outcome(error) == Ok::<_, NegotiationManagerError>(
            NegotiationOutcome::RequiredSchemaUnavailable,
        ) ==> {
            error matches NegotiationManagerError::Negotiation(inner) && inner is RequiredSchemaUnavailable
        },
{
}

/// What a negotiation ended with is what it concluded, unless the manager had to let go and
/// did not.
pub proof fn law_conclusions_stand(
    end: NegotiationEnd,
    released: Result<(), NegotiationManagerError>,
)
    ensures
        !end.release || released is Ok ==> end.concluded(released) == end.conclusion,
        end.release && released is Err ==> end.concluded(released) == Err::<
            NegotiationProgress,
            _,
        >(NegotiationControlError::ManagerState(released->Err_0)),
{
}

/// An operation that is not due fails the negotiation, whatever the manager answers: the
/// manager's part is given up, where it holds one, and the state that the operation came in
/// is told. Only the authority selects.
pub proof fn law_operations_out_of_turn_fail(
    before: ExchangeView,
    after: ExchangeView,
    contract: NegotiatedContract,
    offer: CompatibilityOffer,
    manager_accepts: bool,
    refused: bool,
    answer: Result<(), NegotiationManagerError>,
    status: Result<NegotiationStatus, NegotiationManagerError>,
    held: Result<NegotiatedContract, NegotiationManagerError>,
    report: ByteStorage,
    step: NegotiationStep,
)
    ensures
        ({
            let state = before.state;
            let selecting = state == NegotiationState::AwaitingAuthoritySelection;
            let following = state == NegotiationState::AwaitingProposal;
            let validating = selecting || following || state == NegotiationState::AwaitingValidated
                || state == NegotiationState::AwaitingEstablished;
            let out_of_turn = {
                ||| state != NegotiationState::Ready && offer_prepared(
                    before,
                    after,
                    offer,
                    manager_accepts,
                    refused,
                    report,
                    step,
                )
                ||| before.role == SemanticRole::Authority && !selecting && selection_taken(
                    before,
                    after,
                    contract,
                    step,
                )
                ||| state != NegotiationState::AwaitingPeerOffer && start_answered(
                    before,
                    after,
                    answer,
                    report,
                    step,
                )
                ||| !selecting && !following && proposal_answered(
                    before,
                    after,
                    answer,
                    report,
                    step,
                )
                ||| !validating && validation_answered(before, after, status, step)
                ||| !selecting && proposal_prepared(before, after, held, refused, report, step)
            };
            &&& out_of_turn ==> {
                &&& after.state == NegotiationState::Failed
                &&& !after.manager_owned
                &&& step matches NegotiationStep::End(end) && end.release == before.manager_owned
                    && end.conclusion == Err::<NegotiationProgress, _>(
                    NegotiationControlError::ProfileProtocol(
                        NegotiationProtocolError::UnexpectedLocalOperation { state },
                    ),
                )
            }
            &&& before.role == SemanticRole::NonAuthority && selection_taken(
                before,
                after,
                contract,
                step,
            ) ==> {
                &&& after.state == NegotiationState::Failed
                &&& !after.manager_owned
                &&& step matches NegotiationStep::End(end) && end.release == before.manager_owned
                    && end.conclusion == Err::<NegotiationProgress, _>(
                    NegotiationControlError::ProfileProtocol(
                        NegotiationProtocolError::WrongLocalRole {
                            expected: SemanticRole::Authority,
                            actual: SemanticRole::NonAuthority,
                        },
                    ),
                )
            }
            &&& before.role == SemanticRole::Authority && selecting && selection_taken(
                before,
                after,
                contract,
                step,
            ) ==> after == before && step == NegotiationStep::Propose(contract)
        }),
{
}

/// A refusal of the manager fails the negotiation. The peer is told the outcome where the
/// refusal has one, and the host is told the refusal where it has none.
pub proof fn law_manager_refusals_end_the_negotiation(
    before: ExchangeView,
    after: ExchangeView,
    error: NegotiationManagerError,
    refused: bool,
    report: ByteStorage,
    step: NegotiationStep,
)
    requires
        ({
            let selecting = before.state == NegotiationState::AwaitingAuthoritySelection;
            let following = before.state == NegotiationState::AwaitingProposal;
            ||| before.state == NegotiationState::AwaitingPeerOffer && start_answered(
                before,
                after,
                Err(error),
                report,
                step,
            )
            ||| (selecting || following) && proposal_answered(
                before,
                after,
                Err(error),
                report,
                step,
            )
        }),
    ensures
        after.state == NegotiationState::Failed,
        !after.manager_owned,
        after.local_offer is None,
        step matches NegotiationStep::End(end) && end.release == before.manager_owned && (
        end.conclusion matches Err(told) && (failure_outcome(error) is Err ==> told
            == NegotiationControlError::ManagerState(error)) && (failure_outcome(error) is Ok ==> {
            told matches NegotiationControlError::LocalFailure { outcome, report: frame }
                && outcome == failure_outcome(error)->Ok_0 && (frame is Some <==> report is Ok)
        })),
{
}

/// A start that the manager takes leads the authority to its selection and its peer to
/// waiting for the proposal; a proposal that it takes is validated on the side that it is on;
/// and a validation leads on exactly where it left the manager as it has to be. Nothing else
/// of the negotiation changes.
pub proof fn law_negotiations_go_on_in_turn(
    before: ExchangeView,
    started: ExchangeView,
    proposed: ExchangeView,
    validated: ExchangeView,
    status: NegotiationStatus,
    report: ByteStorage,
    first: NegotiationStep,
    second: NegotiationStep,
    third: NegotiationStep,
)
    ensures
        ({
            let authority = before.role == SemanticRole::Authority;
            let selecting = before.state == NegotiationState::AwaitingAuthoritySelection;
            let following = before.state == NegotiationState::AwaitingProposal;
            let due = NegotiationStatus::AwaitingValidation {
                authority_validated: selecting,
                peer_validated: following,
            };
            &&& before.state == NegotiationState::AwaitingPeerOffer && start_answered(
                before,
                started,
                Ok(()),
                report,
                first,
            ) ==> {
                &&& started.manager_owned
                &&& started.role == before.role
                &&& started.connection == before.connection
                &&& started.max_negotiation_frame_bytes == before.max_negotiation_frame_bytes
                &&& started.local_offer == before.local_offer
                &&& authority ==> started.state == NegotiationState::AwaitingAuthoritySelection
                    && first == NegotiationStep::Progress(
                    NegotiationProgress::AuthoritySelectionRequired,
                )
                &&& !authority ==> started.state == NegotiationState::AwaitingProposal && first
                    == NegotiationStep::Progress(NegotiationProgress::Waiting)
            }
            &&& (selecting || following) && proposal_answered(
                before,
                proposed,
                Ok(()),
                report,
                second,
            ) ==> {
                &&& proposed == before
                &&& selecting ==> second == NegotiationStep::ValidateAuthority
                &&& following ==> second == NegotiationStep::ValidatePeer
            }
            &&& (selecting || following) && validation_answered(
                before,
                validated,
                Ok(status),
                third,
            ) ==> {
                &&& status != due ==> {
                    &&& validated.state == NegotiationState::Failed
                    &&& third matches NegotiationStep::End(end) && end.conclusion == Err::<
                        NegotiationProgress,
                        _,
                    >(NegotiationControlError::UnexpectedCoreStatus(status))
                }
                &&& status == due && selecting ==> validated == before && third
                    == NegotiationStep::ReadProposal
                &&& status == due && following ==> {
                    &&& validated.state == NegotiationState::AwaitingEstablished
                    &&& validated.manager_owned == before.manager_owned
                    &&& validated.role == before.role
                    &&& sent_frame(third) matches Some(frame) && frame.frame_type
                        == ControlFrameType::NegotiationValidated && frame.body@.len() == 0
                }
            }
        }),
{
}

/// A body that is no offer or proposal breaks the protocol; one that the limits refuse fails
/// here, with the outcome that the peer is told.
pub proof fn law_bodies_are_judged_as_they_are_read(body: Seq<u8>, limits: OfferLimits)
    ensures
        ({
            let offered = verdict(
                NegotiationState::AwaitingPeerOffer,
                ControlFrameType::NegotiationOffer,
                body,
                limits,
            );
            let proposed = verdict(
                NegotiationState::AwaitingProposal,
                ControlFrameType::NegotiationProposal,
                body,
                limits,
            );
            &&& offer_at(body, limits) matches Err(BodyDecodeError::Protocol(error)) ==> offered
                == Verdict::Violation(NegotiationProtocolError::Wire(error))
            &&& offer_at(body, limits) matches Err(BodyDecodeError::Failure(outcome)) ==> offered
                == Verdict::LocalFailure(outcome)
            &&& proposal_at(body, limits) matches Err(BodyDecodeError::Protocol(error))
                ==> proposed == Verdict::Violation(NegotiationProtocolError::Wire(error))
            &&& proposal_at(body, limits) matches Err(BodyDecodeError::Failure(outcome))
                ==> proposed == Verdict::LocalFailure(outcome)
        }),
{
}

/// A manager that does not validate, or does not hold the proposal, fails the negotiation with
/// its own error, which the host is told as it is; the peer is not told of it.
pub proof fn law_manager_errors_are_told_to_the_host(
    before: ExchangeView,
    after: ExchangeView,
    error: NegotiationManagerError,
    refused: bool,
    report: ByteStorage,
    step: NegotiationStep,
)
    requires
        ({
            let selecting = before.state == NegotiationState::AwaitingAuthoritySelection;
            ||| (selecting || before.state == NegotiationState::AwaitingProposal || before.state
                == NegotiationState::AwaitingValidated || before.state
                == NegotiationState::AwaitingEstablished) && validation_answered(
                before,
                after,
                Err(error),
                step,
            )
            ||| selecting && proposal_prepared(before, after, Err(error), refused, report, step)
        }),
    ensures
        after.state == NegotiationState::Failed,
        !after.manager_owned,
        after.local_offer is None,
        sent_frame(step) is None,
        step matches NegotiationStep::End(end) && end.release == before.manager_owned
            && end.conclusion == Err::<NegotiationProgress, _>(
            NegotiationControlError::ManagerState(error),
        ),
{
}

} // verus!
