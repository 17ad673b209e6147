//! Negotiation bodies, and the exchange of two sides with a small manager each.

use runen_net_quic::control::{ControlFrame, ControlFrameType, SemanticRole, Settings};
use runen_net_quic::delivery::ConnectionHandle;
use runen_net_quic::negotiation::{
    failure_frame, manager_failure_outcome, NegotiationControlError, NegotiationExchange,
    NegotiationProgress, NegotiationProtocolError, NegotiationState, NegotiationStep,
};
use runen_net_quic::negotiation_codec::{
    decode_failure, decode_offer, decode_proposal, encode_offer, encode_proposal, offer_body_len,
    proposal_body_len, BodyDecodeError, NegotiationOutcome, NegotiationWireError,
};
use runen_net_quic::protocol::{
    CapabilityId, CapabilityOffer, CodecId, CompatibilityOffer, NegotiatedContract,
    NegotiationError, NegotiationManagerError, NegotiationStatus, OfferLimits, ProtocolContract,
    ProtocolId, ProtocolRevision, RequirementLevel, SchemaContractId, SchemaContractOffer,
    SchemaId, SchemaOffer, SelectedSchema,
};
use runen_net_quic::storage::{reserve_bytes, Memory};
use runen_net_quic::varint::VarIntDecodeError;

const MAX_FRAME: u64 = 64 * 1024;

fn offer_limits() -> OfferLimits {
    OfferLimits {
        max_protocols: 16,
        max_capabilities: 64,
        max_schemas: 64,
        max_contracts_per_schema: 16,
        max_codecs_per_contract: 16,
        max_offer_accounted_bytes: 16 * 1024,
    }
}

fn protocol(revision: u128) -> ProtocolContract {
    ProtocolContract {
        id: ProtocolId { value: 1 },
        revision: ProtocolRevision { value: revision },
    }
}

fn schema_contract(contract_id: SchemaContractId, codecs: Vec<CodecId>) -> SchemaContractOffer {
    SchemaContractOffer { contract_id, codecs }
}

fn schema_offer(
    id: SchemaId,
    requirement: RequirementLevel,
    contracts: Vec<SchemaContractOffer>,
) -> SchemaOffer {
    SchemaOffer { id, requirement, contracts }
}

fn selected(contract_id: SchemaContractId, codec_id: CodecId) -> SelectedSchema {
    SelectedSchema { contract_id, codec_id }
}

fn schema(id: u128, requirement: RequirementLevel) -> SchemaOffer {
    schema_offer(
        SchemaId { value: id },
        requirement,
        vec![schema_contract(
            SchemaContractId { value: id + 1 },
            vec![CodecId { value: id + 2 }],
        )],
    )
}

fn whole_offer(
    protocols: Vec<ProtocolContract>,
    capabilities: Vec<CapabilityOffer>,
    schemas: Vec<SchemaOffer>,
    diagnostic_label: Option<String>,
) -> CompatibilityOffer {
    CompatibilityOffer { protocols, capabilities, schemas, diagnostic_label }
}

fn offer(label: Option<&str>) -> CompatibilityOffer {
    whole_offer(
        vec![protocol(1), protocol(2)],
        vec![CapabilityOffer {
            id: CapabilityId { value: 7 },
            requirement: RequirementLevel::Optional,
        }],
        vec![schema(9, RequirementLevel::Optional)],
        label.map(str::to_owned),
    )
}

fn compact_offer() -> CompatibilityOffer {
    whole_offer(vec![protocol(1)], vec![], vec![], None)
}

fn contract() -> NegotiatedContract {
    let mut contract = NegotiatedContract::new(protocol(1));
    assert!(contract.enable_capability(CapabilityId { value: 7 }));
    contract
        .bind_schema(
            SchemaId { value: 9 },
            selected(SchemaContractId { value: 10 }, CodecId { value: 11 }),
        )
        .unwrap();
    contract
}

fn copy_of(contract: &NegotiatedContract) -> NegotiatedContract {
    let mut copy = NegotiatedContract::new(contract.protocol());
    for capability in contract.enabled_capabilities() {
        copy.enable_capability(*capability);
    }
    for binding in contract.selected_schemas() {
        copy.bind_schema(binding.schema_id, binding.selected).unwrap();
    }
    copy
}

fn refused(error: NegotiationError) -> NegotiationManagerError {
    NegotiationManagerError::Negotiation(error)
}

struct Attempt {
    connection: ConnectionHandle,
    authority: CompatibilityOffer,
    peer: CompatibilityOffer,
    proposal: Option<NegotiatedContract>,
    authority_validated: bool,
    peer_validated: bool,
}

/// A small negotiation manager: it judges offers and keeps one attempt per connection.
struct NegotiationManager {
    max_attempts: usize,
    attempts: Vec<Attempt>,
}

fn new_manager() -> NegotiationManager {
    NegotiationManager::new(8)
}

fn sensible(offer: &CompatibilityOffer) -> bool {
    let distinct = (0..offer.protocols.len())
        .all(|i| (0..i).all(|j| offer.protocols[i] != offer.protocols[j]));
    let full = offer
        .schemas
        .iter()
        .all(|s| !s.contracts.is_empty() && s.contracts.iter().all(|c| !c.codecs.is_empty()));
    !offer.protocols.is_empty() && distinct && full
}

impl NegotiationManager {
    fn new(max_attempts: usize) -> Self {
        NegotiationManager { max_attempts, attempts: Vec::new() }
    }

    fn reserved_bytes(&self) -> usize {
        self.attempts.len() * 1024
    }

    fn attempt(
        &mut self,
        connection: ConnectionHandle,
    ) -> Result<&mut Attempt, NegotiationManagerError> {
        self.attempts
            .iter_mut()
            .find(|a| a.connection == connection)
            .ok_or(NegotiationManagerError::UnknownConnection)
    }

    fn start(
        &mut self,
        connection: ConnectionHandle,
        authority: CompatibilityOffer,
        peer: CompatibilityOffer,
    ) -> Result<(), NegotiationManagerError> {
        if self.attempts.len() >= self.max_attempts {
            return Err(NegotiationManagerError::AttemptLimitExceeded);
        }
        if !sensible(&authority) {
            return Err(refused(NegotiationError::AuthorityOfferInvalid(1)));
        }
        if !sensible(&peer) {
            return Err(refused(NegotiationError::PeerOfferInvalid(1)));
        }
        self.attempts.push(Attempt {
            connection,
            authority,
            peer,
            proposal: None,
            authority_validated: false,
            peer_validated: false,
        });
        Ok(())
    }

    fn propose(
        &mut self,
        connection: ConnectionHandle,
        contract: NegotiatedContract,
    ) -> Result<(), NegotiationManagerError> {
        let attempt = self.attempt(connection)?;
        if !attempt.authority.protocols.contains(&contract.protocol())
            || !attempt.peer.protocols.contains(&contract.protocol())
        {
            return Err(refused(NegotiationError::InvalidSelection));
        }
        attempt.proposal = Some(contract);
        Ok(())
    }

    fn status(attempt: &Attempt) -> NegotiationStatus {
        if attempt.authority_validated && attempt.peer_validated {
            NegotiationStatus::Established
        } else {
            NegotiationStatus::AwaitingValidation {
                authority_validated: attempt.authority_validated,
                peer_validated: attempt.peer_validated,
            }
        }
    }

    fn validate_authority(
        &mut self,
        connection: ConnectionHandle,
    ) -> Result<NegotiationStatus, NegotiationManagerError> {
        let attempt = self.attempt(connection)?;
        attempt.authority_validated = true;
        Ok(Self::status(attempt))
    }

    fn validate_peer(
        &mut self,
        connection: ConnectionHandle,
    ) -> Result<NegotiationStatus, NegotiationManagerError> {
        let attempt = self.attempt(connection)?;
        attempt.peer_validated = true;
        Ok(Self::status(attempt))
    }

    fn attempt_proposal(
        &mut self,
        connection: ConnectionHandle,
    ) -> Result<NegotiatedContract, NegotiationManagerError> {
        match &self.attempt(connection)?.proposal {
            Some(contract) => Ok(copy_of(contract)),
            None => Err(refused(NegotiationError::NoProposal)),
        }
    }

    fn attempt_offers(
        &self,
        connection: ConnectionHandle,
    ) -> Option<(&CompatibilityOffer, &CompatibilityOffer)> {
        self.attempts
            .iter()
            .find(|a| a.connection == connection)
            .map(|a| (&a.authority, &a.peer))
    }

    fn established(&self, connection: ConnectionHandle) -> Option<&NegotiatedContract> {
        self.attempts
            .iter()
            .find(|a| a.connection == connection && a.authority_validated && a.peer_validated)
            .and_then(|a| a.proposal.as_ref())
    }

    fn terminate(&mut self, connection: ConnectionHandle) -> Result<(), NegotiationManagerError> {
        self.attempt(connection)?;
        self.attempts.retain(|a| a.connection != connection);
        Ok(())
    }
}

trait Driven {
    fn run(
        &mut self,
        manager: &mut NegotiationManager,
        step: NegotiationStep,
    ) -> Result<NegotiationProgress, NegotiationControlError>;

    fn prepare_with(
        &mut self,
        manager: &mut NegotiationManager,
        offer: CompatibilityOffer,
    ) -> Result<ControlFrame, NegotiationControlError>;

    fn receive_with(
        &mut self,
        manager: &mut NegotiationManager,
        frame: ControlFrame,
    ) -> Result<NegotiationProgress, NegotiationControlError>;

    fn propose_with(
        &mut self,
        manager: &mut NegotiationManager,
        contract: NegotiatedContract,
    ) -> Result<ControlFrame, NegotiationControlError>;

    fn abort_with(
        &mut self,
        manager: &mut NegotiationManager,
    ) -> Result<(), NegotiationManagerError>;
}

fn sent(
    progress: Result<NegotiationProgress, NegotiationControlError>,
) -> Result<ControlFrame, NegotiationControlError> {
    match progress? {
        NegotiationProgress::Send(frame) => Ok(frame),
        other => panic!("expected a frame, got {other:?}"),
    }
}

impl Driven for NegotiationExchange {
    fn run(
        &mut self,
        manager: &mut NegotiationManager,
        step: NegotiationStep,
    ) -> Result<NegotiationProgress, NegotiationControlError> {
        let connection = self.connection();
        let mut step = step;
        loop {
            step = match step {
                NegotiationStep::Progress(progress) => return Ok(progress),
                NegotiationStep::Start { authority_offer, peer_offer } => {
                    let answer = manager.start(connection, authority_offer, peer_offer);
                    self.started(answer, reserve_bytes(1))
                }
                NegotiationStep::Propose(contract) => {
                    let answer = manager.propose(connection, contract);
                    self.proposed(answer, reserve_bytes(1))
                }
                NegotiationStep::ValidateAuthority => {
                    let answer = manager.validate_authority(connection);
                    self.validated(answer)
                }
                NegotiationStep::ValidatePeer => {
                    let answer = manager.validate_peer(connection);
                    self.validated(answer)
                }
                NegotiationStep::ReadProposal => {
                    let answer = manager.attempt_proposal(connection);
                    self.proposal_read(answer, &mut Memory::system(), reserve_bytes(1))
                }
                NegotiationStep::End(end) => {
                    let released =
                        if end.release { manager.terminate(connection) } else { Ok(()) };
                    return end.conclude(released);
                }
            };
        }
    }

    fn prepare_with(
        &mut self,
        manager: &mut NegotiationManager,
        offer: CompatibilityOffer,
    ) -> Result<ControlFrame, NegotiationControlError> {
        let accepted = sensible(&offer);
        let step = self.prepare_offer(offer, accepted, &mut Memory::system(), reserve_bytes(1));
        sent(self.run(manager, step))
    }

    fn receive_with(
        &mut self,
        manager: &mut NegotiationManager,
        frame: ControlFrame,
    ) -> Result<NegotiationProgress, NegotiationControlError> {
        let step = self.receive(frame, offer_limits(), &mut Memory::system(), reserve_bytes(1));
        self.run(manager, step)
    }

    fn propose_with(
        &mut self,
        manager: &mut NegotiationManager,
        contract: NegotiatedContract,
    ) -> Result<ControlFrame, NegotiationControlError> {
        let step = self.propose_authority(contract);
        sent(self.run(manager, step))
    }

    fn abort_with(
        &mut self,
        manager: &mut NegotiationManager,
    ) -> Result<(), NegotiationManagerError> {
        if self.abort() {
            manager.terminate(self.connection())
        } else {
            Ok(())
        }
    }
}

fn exchange_with(
    connection: ConnectionHandle,
    role: SemanticRole,
    max_negotiation_frame_bytes: u64,
) -> NegotiationExchange {
    let settings = Settings {
        semantic_role: role,
        max_control_frame_bytes: MAX_FRAME,
        max_negotiation_frame_bytes,
        max_active_incoming_flows: 1,
        max_incoming_message_bytes: 1,
    };
    NegotiationExchange::from_profile(
        connection,
        settings,
        Settings { max_negotiation_frame_bytes: MAX_FRAME, ..settings },
    )
}

fn exchange(role: SemanticRole, connection: ConnectionHandle) -> NegotiationExchange {
    exchange_with(connection, role, MAX_FRAME)
}

fn frame(frame_type: ControlFrameType, body: Vec<u8>) -> ControlFrame {
    ControlFrame { frame_type, body }
}

#[test]
fn offer_codec_round_trips_exact_identity_bytes_without_labels() {
    let original = offer(None);
    let body = encode_offer(&original, MAX_FRAME, &mut Memory::system()).unwrap();
    assert_eq!(body[0], 2);
    assert_eq!(&body[1..17], &ProtocolId { value: 1 }.value.to_be_bytes());
    assert_eq!(&body[17..33], &ProtocolRevision { value: 1 }.value.to_be_bytes());
    assert_eq!(
        decode_offer(&body, offer_limits(), &mut Memory::system()).unwrap(),
        original
    );
}

#[test]
fn proposal_codec_round_trips_sets_without_order_contract() {
    let mut original = contract();
    assert!(original.enable_capability(CapabilityId { value: 8 }));
    original
        .bind_schema(
            SchemaId { value: 12 },
            selected(SchemaContractId { value: 13 }, CodecId { value: 14 }),
        )
        .unwrap();

    let body = encode_proposal(&original, MAX_FRAME, &mut Memory::system()).unwrap();
    let decoded = decode_proposal(&body, offer_limits(), &mut Memory::system()).unwrap();
    assert_eq!(decoded, original);
}

#[test]
fn offer_count_limits_are_checked_before_entry_bytes_are_read() {
    let limits = OfferLimits {
        max_protocols: 1,
        ..offer_limits()
    };
    assert_eq!(
        decode_offer(&[2], limits, &mut Memory::system()),
        Err(BodyDecodeError::Failure(NegotiationOutcome::MalformedOffer))
    );
}

#[test]
fn offer_accounted_budget_is_checked_before_entry_bytes_are_read() {
    let limits = OfferLimits {
        max_offer_accounted_bytes: 31,
        ..offer_limits()
    };
    assert_eq!(
        decode_offer(&[1], limits, &mut Memory::system()),
        Err(BodyDecodeError::Failure(NegotiationOutcome::MalformedOffer))
    );
}

#[test]
fn proposal_limits_are_checked_before_selected_entry_bytes_are_read() {
    let mut body = Vec::new();
    body.extend_from_slice(&1u128.to_be_bytes());
    body.extend_from_slice(&1u128.to_be_bytes());
    body.push(2);
    let limits = OfferLimits {
        max_capabilities: 1,
        ..offer_limits()
    };
    assert_eq!(
        decode_proposal(&body, limits, &mut Memory::system()),
        Err(BodyDecodeError::Failure(
            NegotiationOutcome::ResourceLimitExceeded
        ))
    );

    let mut body = Vec::new();
    body.extend_from_slice(&1u128.to_be_bytes());
    body.extend_from_slice(&1u128.to_be_bytes());
    body.push(0);
    body.push(0);
    let limits = OfferLimits {
        max_offer_accounted_bytes: 31,
        ..offer_limits()
    };
    assert_eq!(
        decode_proposal(&body, limits, &mut Memory::system()),
        Err(BodyDecodeError::Failure(
            NegotiationOutcome::ResourceLimitExceeded
        ))
    );
}

#[test]
fn offer_wire_rejects_non_minimal_truncated_trailing_and_unknown_requirement() {
    assert_eq!(
        decode_offer(&[0x40, 0x01], offer_limits(), &mut Memory::system()),
        Err(BodyDecodeError::Protocol(NegotiationWireError::VarInt(
            VarIntDecodeError::NonMinimal
        )))
    );
    assert_eq!(
        decode_offer(&[1], offer_limits(), &mut Memory::system()),
        Err(BodyDecodeError::Protocol(NegotiationWireError::Truncated))
    );

    let mut valid = encode_offer(&compact_offer(), MAX_FRAME, &mut Memory::system()).unwrap();
    valid.push(0);
    assert_eq!(
        decode_offer(&valid, offer_limits(), &mut Memory::system()),
        Err(BodyDecodeError::Protocol(
            NegotiationWireError::TrailingBytes
        ))
    );

    let mut unknown_requirement = Vec::new();
    unknown_requirement.push(1);
    unknown_requirement.extend_from_slice(&1u128.to_be_bytes());
    unknown_requirement.extend_from_slice(&1u128.to_be_bytes());
    unknown_requirement.push(1);
    unknown_requirement.extend_from_slice(&7u128.to_be_bytes());
    unknown_requirement.push(2);
    unknown_requirement.push(0);
    assert_eq!(
        decode_offer(&unknown_requirement, offer_limits(), &mut Memory::system()),
        Err(BodyDecodeError::Protocol(
            NegotiationWireError::UnknownRequirementLevel(2)
        ))
    );
}

#[test]
fn proposal_decoder_rejects_duplicate_selection_without_normalization() {
    let mut body = Vec::new();
    body.extend_from_slice(&1u128.to_be_bytes());
    body.extend_from_slice(&1u128.to_be_bytes());
    body.push(2);
    body.extend_from_slice(&7u128.to_be_bytes());
    body.extend_from_slice(&7u128.to_be_bytes());
    body.push(0);
    assert_eq!(
        decode_proposal(&body, offer_limits(), &mut Memory::system()),
        Err(BodyDecodeError::Failure(
            NegotiationOutcome::InvalidSelection
        ))
    );

    let mut body = Vec::new();
    body.extend_from_slice(&1u128.to_be_bytes());
    body.extend_from_slice(&1u128.to_be_bytes());
    body.push(0);
    body.push(2);
    for contract_id in [10u128, 12u128] {
        body.extend_from_slice(&9u128.to_be_bytes());
        body.extend_from_slice(&contract_id.to_be_bytes());
        body.extend_from_slice(&(contract_id + 1).to_be_bytes());
    }
    assert_eq!(
        decode_proposal(&body, offer_limits(), &mut Memory::system()),
        Err(BodyDecodeError::Failure(
            NegotiationOutcome::InvalidSelection
        ))
    );
}

#[test]
fn failure_body_is_exact_and_unknown_or_trailing_values_are_protocol_errors() {
    assert_eq!(
        decode_failure(&[NegotiationOutcome::InvalidSelection.wire() as u8]).unwrap(),
        NegotiationOutcome::InvalidSelection
    );
    assert_eq!(
        decode_failure(&[6]),
        Err(NegotiationWireError::UnknownFailureOutcome(6))
    );
    assert_eq!(
        decode_failure(&[0x40, 0x01]),
        Err(NegotiationWireError::VarInt(VarIntDecodeError::NonMinimal))
    );
    assert_eq!(
        decode_failure(&[0, 0]),
        Err(NegotiationWireError::TrailingBytes)
    );
}

#[test]
fn local_diagnostic_label_and_frame_ceiling_fail_before_manager_reservation() {
    let connection = ConnectionHandle::new(1);
    let mut manager = new_manager();
    let mut exchange = exchange(SemanticRole::Authority, connection);
    assert!(matches!(
        exchange.prepare_with(&mut manager, offer(Some("local-only"))),
        Err(NegotiationControlError::LocalFailure {
            outcome: NegotiationOutcome::MalformedOffer,
            ..
        })
    ));
    assert_eq!(manager.reserved_bytes(), 0);

    let mut exchange = exchange_with(connection, SemanticRole::Authority, 34);
    assert!(matches!(
        exchange.prepare_with(&mut manager, compact_offer()),
        Err(NegotiationControlError::LocalFailure {
            outcome: NegotiationOutcome::ResourceLimitExceeded,
            ..
        })
    ));
    assert_eq!(manager.reserved_bytes(), 0);
}

#[test]
fn malformed_peer_offer_reaches_core_and_is_not_normalized() {
    let connection = ConnectionHandle::new(2);
    let mut manager = new_manager();
    let mut exchange = exchange(SemanticRole::Authority, connection);
    exchange
        .prepare_with(&mut manager, compact_offer())
        .unwrap();

    let malformed =
        whole_offer(vec![protocol(1), protocol(1)], vec![], vec![], None);
    let body = encode_offer(&malformed, MAX_FRAME, &mut Memory::system()).unwrap();
    assert!(matches!(
        exchange.receive_with(
            &mut manager,
            frame(ControlFrameType::NegotiationOffer, body)
        ),
        Err(NegotiationControlError::LocalFailure {
            outcome: NegotiationOutcome::MalformedOffer,
            ..
        })
    ));
    assert_eq!(manager.reserved_bytes(), 0);
}

#[test]
fn empty_peer_offer_structures_reach_core_and_are_not_normalized() {
    let malformed_offers = [
        whole_offer(vec![], vec![], vec![], None),
        whole_offer(
            vec![protocol(1)],
            vec![],
            vec![schema_offer(
                SchemaId { value: 9 },
                RequirementLevel::Optional,
                vec![],
            )],
            None,
        ),
        whole_offer(
            vec![protocol(1)],
            vec![],
            vec![schema_offer(
                SchemaId { value: 9 },
                RequirementLevel::Optional,
                vec![schema_contract(SchemaContractId { value: 10 }, vec![])],
            )],
            None,
        ),
    ];

    for (index, malformed) in malformed_offers.into_iter().enumerate() {
        let connection = ConnectionHandle::new(20 + index as u64);
        let mut manager = new_manager();
        let mut exchange = exchange(SemanticRole::Authority, connection);
        exchange
            .prepare_with(&mut manager, compact_offer())
            .unwrap();
        let body = encode_offer(&malformed, MAX_FRAME, &mut Memory::system()).unwrap();
        assert!(matches!(
            exchange.receive_with(
                &mut manager,
                    frame(ControlFrameType::NegotiationOffer, body)
            ),
            Err(NegotiationControlError::LocalFailure {
                outcome: NegotiationOutcome::MalformedOffer,
                ..
            })
        ));
        assert_eq!(manager.reserved_bytes(), 0);
    }
}

#[test]
fn manager_pressure_maps_to_resource_failure_without_new_reservation() {
    let mut manager = NegotiationManager::new(1);
    manager
        .start(ConnectionHandle::new(99), compact_offer(), compact_offer())
        .unwrap();
    let before = manager.reserved_bytes();

    let connection = ConnectionHandle::new(3);
    let mut exchange = exchange(SemanticRole::Authority, connection);
    exchange
        .prepare_with(&mut manager, compact_offer())
        .unwrap();
    let body = encode_offer(&compact_offer(), MAX_FRAME, &mut Memory::system()).unwrap();
    assert!(matches!(
        exchange.receive_with(
            &mut manager,
            frame(ControlFrameType::NegotiationOffer, body)
        ),
        Err(NegotiationControlError::LocalFailure {
            outcome: NegotiationOutcome::ResourceLimitExceeded,
            ..
        })
    ));
    assert_eq!(manager.reserved_bytes(), before);
}

#[test]
fn authority_and_non_authority_reach_the_same_established_contract() {
    let connection = ConnectionHandle::new(4);
    let mut authority_manager = new_manager();
    let mut peer_manager = new_manager();
    let mut authority = exchange(SemanticRole::Authority, connection);
    let mut peer = exchange(SemanticRole::NonAuthority, connection);

    let authority_offer = authority
        .prepare_with(&mut authority_manager, offer(None))
        .unwrap();
    let peer_offer = peer.prepare_with(&mut peer_manager, offer(None)).unwrap();

    assert_eq!(
        authority
            .receive_with(&mut authority_manager, peer_offer)
            .unwrap(),
        NegotiationProgress::AuthoritySelectionRequired
    );
    assert_eq!(
        peer.receive_with(&mut peer_manager, authority_offer)
            .unwrap(),
        NegotiationProgress::Waiting
    );

    let observed = authority_manager.attempt_offers(connection).unwrap();
    assert_eq!(observed.0, &offer(None));
    assert_eq!(observed.1, &offer(None));

    let proposal = authority
        .propose_with(&mut authority_manager, contract())
        .unwrap();
    let validated = match peer
        .receive_with(&mut peer_manager, proposal)
        .unwrap()
    {
        NegotiationProgress::Send(frame) => frame,
        other => panic!("expected validation frame, got {other:?}"),
    };
    let established = match authority
        .receive_with(&mut authority_manager, validated)
        .unwrap()
    {
        NegotiationProgress::Send(frame) => frame,
        other => panic!("expected established frame, got {other:?}"),
    };
    assert_eq!(authority.state(), NegotiationState::Established);
    assert_eq!(
        peer.receive_with(&mut peer_manager, established)
            .unwrap(),
        NegotiationProgress::Established
    );
    assert_eq!(peer.state(), NegotiationState::Established);
    assert_eq!(
        authority_manager.established(connection).unwrap(),
        peer_manager.established(connection).unwrap()
    );
    assert_eq!(
        authority_manager.established(connection).unwrap(),
        &contract()
    );
}

#[test]
fn invalid_proposal_maps_to_invalid_selection_and_releases_attempt() {
    let connection = ConnectionHandle::new(5);
    let mut manager = new_manager();
    let mut peer = exchange(SemanticRole::NonAuthority, connection);
    peer.prepare_with(&mut manager, offer(None)).unwrap();
    let authority_offer = encode_offer(&offer(None), MAX_FRAME, &mut Memory::system()).unwrap();
    assert_eq!(
        peer.receive_with(
            &mut manager,
            frame(ControlFrameType::NegotiationOffer, authority_offer)
        )
        .unwrap(),
        NegotiationProgress::Waiting
    );
    assert!(manager.reserved_bytes() > 0);

    let invalid = NegotiatedContract::new(protocol(99));
    let body = encode_proposal(&invalid, MAX_FRAME, &mut Memory::system()).unwrap();
    assert!(matches!(
        peer.receive_with(
            &mut manager,
            frame(ControlFrameType::NegotiationProposal, body)
        ),
        Err(NegotiationControlError::LocalFailure {
            outcome: NegotiationOutcome::InvalidSelection,
            ..
        })
    ));
    assert_eq!(manager.reserved_bytes(), 0);
}

#[test]
fn wrong_order_and_nonempty_acknowledgement_fail_closed() {
    let connection = ConnectionHandle::new(6);
    let mut manager = new_manager();
    let mut peer = exchange(SemanticRole::NonAuthority, connection);
    peer.prepare_with(&mut manager, offer(None)).unwrap();
    let authority_offer = encode_offer(&offer(None), MAX_FRAME, &mut Memory::system()).unwrap();
    peer.receive_with(
        &mut manager,
        frame(ControlFrameType::NegotiationOffer, authority_offer),
    )
    .unwrap();
    assert!(manager.reserved_bytes() > 0);

    assert!(matches!(
        peer.receive_with(
            &mut manager,
            frame(ControlFrameType::NegotiationValidated, Vec::new())
        ),
        Err(NegotiationControlError::ProfileProtocol(
            NegotiationProtocolError::UnexpectedFrame { .. }
        ))
    ));
    assert_eq!(manager.reserved_bytes(), 0);

    let mut authority_manager = new_manager();
    let mut peer_manager = new_manager();
    let mut authority = exchange(SemanticRole::Authority, connection);
    let mut peer = exchange(SemanticRole::NonAuthority, connection);
    let authority_offer = authority
        .prepare_with(&mut authority_manager, offer(None))
        .unwrap();
    let peer_offer = peer.prepare_with(&mut peer_manager, offer(None)).unwrap();
    authority
        .receive_with(&mut authority_manager, peer_offer)
        .unwrap();
    peer.receive_with(&mut peer_manager, authority_offer)
        .unwrap();
    let proposal = authority
        .propose_with(&mut authority_manager, contract())
        .unwrap();
    peer.receive_with(&mut peer_manager, proposal)
        .unwrap();

    assert!(matches!(
        authority.receive_with(
            &mut authority_manager,
            frame(ControlFrameType::NegotiationValidated, vec![0])
        ),
        Err(NegotiationControlError::ProfileProtocol(
            NegotiationProtocolError::NonEmptyAcknowledgement(
                ControlFrameType::NegotiationValidated
            )
        ))
    ));
    assert_eq!(authority_manager.reserved_bytes(), 0);

    let mut authority_manager = new_manager();
    let mut peer_manager = new_manager();
    let mut authority = exchange(SemanticRole::Authority, connection);
    let mut peer = exchange(SemanticRole::NonAuthority, connection);
    let authority_offer = authority
        .prepare_with(&mut authority_manager, offer(None))
        .unwrap();
    let peer_offer = peer.prepare_with(&mut peer_manager, offer(None)).unwrap();
    authority
        .receive_with(&mut authority_manager, peer_offer)
        .unwrap();
    peer.receive_with(&mut peer_manager, authority_offer)
        .unwrap();
    let proposal = authority
        .propose_with(&mut authority_manager, contract())
        .unwrap();
    let validated = match peer
        .receive_with(&mut peer_manager, proposal)
        .unwrap()
    {
        NegotiationProgress::Send(frame) => frame,
        other => panic!("expected validation frame, got {other:?}"),
    };
    let _established = authority
        .receive_with(&mut authority_manager, validated)
        .unwrap();
    assert!(matches!(
        peer.receive_with(
            &mut peer_manager,
            frame(ControlFrameType::NegotiationEstablished, vec![0])
        ),
        Err(NegotiationControlError::ProfileProtocol(
            NegotiationProtocolError::NonEmptyAcknowledgement(
                ControlFrameType::NegotiationEstablished
            )
        ))
    ));
    assert_eq!(peer_manager.reserved_bytes(), 0);
}

#[test]
fn duplicate_offer_and_proposal_frames_fail_closed_and_release_core_state() {
    let connection = ConnectionHandle::new(61);

    let mut manager = new_manager();
    let mut peer = exchange(SemanticRole::NonAuthority, connection);
    peer.prepare_with(&mut manager, offer(None)).unwrap();
    let authority_offer = encode_offer(&offer(None), MAX_FRAME, &mut Memory::system()).unwrap();
    peer.receive_with(
        &mut manager,
        frame(ControlFrameType::NegotiationOffer, authority_offer.clone()),
    )
    .unwrap();
    assert!(manager.reserved_bytes() > 0);
    assert!(matches!(
        peer.receive_with(
            &mut manager,
            frame(ControlFrameType::NegotiationOffer, authority_offer)
        ),
        Err(NegotiationControlError::ProfileProtocol(
            NegotiationProtocolError::UnexpectedFrame { .. }
        ))
    ));
    assert_eq!(manager.reserved_bytes(), 0);

    let mut manager = new_manager();
    let mut peer = exchange(SemanticRole::NonAuthority, connection);
    peer.prepare_with(&mut manager, offer(None)).unwrap();
    let authority_offer = encode_offer(&offer(None), MAX_FRAME, &mut Memory::system()).unwrap();
    peer.receive_with(
        &mut manager,
        frame(ControlFrameType::NegotiationOffer, authority_offer),
    )
    .unwrap();
    let proposal_body = encode_proposal(&contract(), MAX_FRAME, &mut Memory::system()).unwrap();
    peer.receive_with(
        &mut manager,
        frame(ControlFrameType::NegotiationProposal, proposal_body.clone()),
    )
    .unwrap();
    assert!(manager.reserved_bytes() > 0);
    assert!(matches!(
        peer.receive_with(
            &mut manager,
            frame(ControlFrameType::NegotiationProposal, proposal_body)
        ),
        Err(NegotiationControlError::ProfileProtocol(
            NegotiationProtocolError::UnexpectedFrame { .. }
        ))
    ));
    assert_eq!(manager.reserved_bytes(), 0);
}

#[test]
fn remote_failure_releases_active_attempt_without_reply_loop() {
    let connection = ConnectionHandle::new(7);
    let mut manager = new_manager();
    let mut exchange = exchange(SemanticRole::Authority, connection);
    exchange
        .prepare_with(&mut manager, compact_offer())
        .unwrap();
    let peer_offer = encode_offer(&compact_offer(), MAX_FRAME, &mut Memory::system()).unwrap();
    exchange
        .receive_with(
            &mut manager,
            frame(ControlFrameType::NegotiationOffer, peer_offer),
        )
        .unwrap();
    assert!(manager.reserved_bytes() > 0);

    assert_eq!(
        exchange
            .receive_with(
                &mut manager,
                    frame(ControlFrameType::NegotiationFailed, vec![1])
            )
            .unwrap(),
        NegotiationProgress::RemoteFailed(NegotiationOutcome::ProtocolIncompatible)
    );
    assert_eq!(exchange.state(), NegotiationState::Failed);
    assert_eq!(manager.reserved_bytes(), 0);
}

#[test]
fn abort_releases_attempt_or_established_contract() {
    let connection = ConnectionHandle::new(8);
    let mut manager = new_manager();
    let mut exchange = exchange(SemanticRole::Authority, connection);
    exchange
        .prepare_with(&mut manager, compact_offer())
        .unwrap();
    let peer_offer = encode_offer(&compact_offer(), MAX_FRAME, &mut Memory::system()).unwrap();
    exchange
        .receive_with(
            &mut manager,
            frame(ControlFrameType::NegotiationOffer, peer_offer),
        )
        .unwrap();
    assert!(manager.reserved_bytes() > 0);
    exchange.abort_with(&mut manager).unwrap();
    assert_eq!(manager.reserved_bytes(), 0);
    assert_eq!(exchange.state(), NegotiationState::Failed);
}

#[test]
fn abort_releases_an_established_contract() {
    let connection = ConnectionHandle::new(81);
    let mut authority_manager = new_manager();
    let mut peer_manager = new_manager();
    let mut authority = exchange(SemanticRole::Authority, connection);
    let mut peer = exchange(SemanticRole::NonAuthority, connection);

    let authority_offer = authority
        .prepare_with(&mut authority_manager, offer(None))
        .unwrap();
    let peer_offer = peer.prepare_with(&mut peer_manager, offer(None)).unwrap();
    authority
        .receive_with(&mut authority_manager, peer_offer)
        .unwrap();
    peer.receive_with(&mut peer_manager, authority_offer)
        .unwrap();
    let proposal = authority
        .propose_with(&mut authority_manager, contract())
        .unwrap();
    let validated = match peer
        .receive_with(&mut peer_manager, proposal)
        .unwrap()
    {
        NegotiationProgress::Send(frame) => frame,
        other => panic!("expected validation frame, got {other:?}"),
    };
    let established = match authority
        .receive_with(&mut authority_manager, validated)
        .unwrap()
    {
        NegotiationProgress::Send(frame) => frame,
        other => panic!("expected established frame, got {other:?}"),
    };
    peer.receive_with(&mut peer_manager, established)
        .unwrap();
    assert!(authority_manager.reserved_bytes() > 0);
    assert!(peer_manager.reserved_bytes() > 0);

    authority.abort_with(&mut authority_manager).unwrap();
    peer.abort_with(&mut peer_manager).unwrap();
    assert_eq!(authority_manager.reserved_bytes(), 0);
    assert_eq!(peer_manager.reserved_bytes(), 0);
    assert_eq!(authority.state(), NegotiationState::Failed);
    assert_eq!(peer.state(), NegotiationState::Failed);
}

#[test]
fn manager_failure_mapping_preserves_normative_outcome_classes() {
    assert_eq!(
        manager_failure_outcome(NegotiationManagerError::AttemptLimitExceeded),
        Ok(NegotiationOutcome::ResourceLimitExceeded)
    );
    assert_eq!(
        manager_failure_outcome(refused(NegotiationError::ProtocolIncompatible)),
        Ok(NegotiationOutcome::ProtocolIncompatible)
    );
    assert_eq!(
        manager_failure_outcome(refused(NegotiationError::RequiredCapabilityUnavailable(CapabilityId { value: 1 }))),
        Ok(NegotiationOutcome::RequiredCapabilityUnavailable)
    );
    assert_eq!(
        manager_failure_outcome(refused(NegotiationError::RequiredSchemaUnavailable(SchemaId { value: 1 }))),
        Ok(NegotiationOutcome::RequiredSchemaUnavailable)
    );
    assert_eq!(
        manager_failure_outcome(refused(NegotiationError::SelectionTooLarge)),
        Ok(NegotiationOutcome::ResourceLimitExceeded)
    );
    assert_eq!(
        manager_failure_outcome(refused(NegotiationError::InvalidSelection)),
        Ok(NegotiationOutcome::InvalidSelection)
    );
}

#[test]
fn body_lengths_are_those_of_the_bodies() {
    for whole in [compact_offer(), offer(None)] {
        let body = encode_offer(&whole, MAX_FRAME, &mut Memory::assured()).unwrap();
        assert_eq!(offer_body_len(&whole), Some(body.len()));
        assert_eq!(
            encode_offer(&whole, body.len() as u64 - 1, &mut Memory::assured()),
            Err(NegotiationOutcome::ResourceLimitExceeded)
        );
    }
    assert_eq!(offer_body_len(&compact_offer()), Some(35));
    let body = encode_proposal(&contract(), MAX_FRAME, &mut Memory::assured()).unwrap();
    assert_eq!(proposal_body_len(&contract()), Some(body.len()));
    assert_eq!(body.len(), 32 + 1 + 16 + 1 + 48);
    assert_eq!(
        encode_proposal(&contract(), 97, &mut Memory::assured()),
        Err(NegotiationOutcome::ResourceLimitExceeded)
    );
    assert_eq!(
        encode_offer(&offer(Some("label")), MAX_FRAME, &mut Memory::assured()),
        Err(NegotiationOutcome::MalformedOffer)
    );
}

#[test]
fn a_count_beyond_the_memory_is_refused_before_its_entries_are_read() {
    let limits = OfferLimits {
        max_protocols: usize::MAX,
        max_offer_accounted_bytes: usize::MAX,
        ..offer_limits()
    };
    let many = [0xc4, 0, 0, 0, 0, 0, 0, 0];
    let mut memory = Memory::system();
    assert_eq!(
        decode_offer(&many, limits, &mut memory),
        Err(BodyDecodeError::Failure(NegotiationOutcome::ResourceLimitExceeded))
    );
    assert!(memory.refused());
    let mut assured = Memory::assured();
    assert_eq!(
        decode_offer(&many, limits, &mut assured),
        Err(BodyDecodeError::Protocol(NegotiationWireError::Truncated))
    );
    assert!(!assured.refused());
}

#[test]
fn every_outcome_is_reported_in_one_byte() {
    for (number, outcome) in [
        NegotiationOutcome::MalformedOffer,
        NegotiationOutcome::ProtocolIncompatible,
        NegotiationOutcome::RequiredCapabilityUnavailable,
        NegotiationOutcome::RequiredSchemaUnavailable,
        NegotiationOutcome::ResourceLimitExceeded,
        NegotiationOutcome::InvalidSelection,
    ]
    .into_iter()
    .enumerate()
    {
        let report = failure_frame(outcome, reserve_bytes(1)).unwrap();
        assert_eq!(report.frame_type, ControlFrameType::NegotiationFailed);
        assert_eq!(report.body, vec![number as u8]);
        assert_eq!(decode_failure(&report.body), Ok(outcome));
    }
    let refused = Vec::<u8>::new().try_reserve(usize::MAX).unwrap_err();
    assert_eq!(failure_frame(NegotiationOutcome::InvalidSelection, Err(refused)), None);
}

#[test]
fn a_failed_negotiation_stays_failed_and_releases_the_manager_once() {
    let connection = ConnectionHandle::new(90);
    let mut manager = new_manager();
    let mut peer = exchange(SemanticRole::NonAuthority, connection);
    assert!(matches!(
        peer.propose_with(&mut manager, contract()),
        Err(NegotiationControlError::ProfileProtocol(
            NegotiationProtocolError::WrongLocalRole {
                expected: SemanticRole::Authority,
                actual: SemanticRole::NonAuthority,
            }
        ))
    ));
    assert_eq!(peer.state(), NegotiationState::Failed);
    for frame_type in [ControlFrameType::NegotiationFailed, ControlFrameType::NegotiationOffer] {
        assert!(matches!(
            peer.receive_with(&mut manager, frame(frame_type, vec![0])),
            Err(NegotiationControlError::ProfileProtocol(
                NegotiationProtocolError::UnexpectedFrame { state: NegotiationState::Failed, .. }
            ))
        ));
    }
    assert!(!peer.manager_owned());
    assert!(matches!(
        peer.prepare_with(&mut manager, offer(None)),
        Err(NegotiationControlError::ProfileProtocol(
            NegotiationProtocolError::UnexpectedLocalOperation { state: NegotiationState::Failed }
        ))
    ));
}

#[test]
fn an_unexpected_status_or_a_lost_manager_ends_the_negotiation() {
    let connection = ConnectionHandle::new(91);
    let mut manager = new_manager();
    let mut peer = exchange(SemanticRole::NonAuthority, connection);
    peer.prepare_with(&mut manager, offer(None)).unwrap();
    let body = encode_offer(&offer(None), MAX_FRAME, &mut Memory::system()).unwrap();
    peer.receive_with(&mut manager, frame(ControlFrameType::NegotiationOffer, body)).unwrap();
    assert!(peer.manager_owned());
    let NegotiationStep::End(end) = peer.validated(Ok(NegotiationStatus::AwaitingProposal)) else {
        panic!("the status is not the expected one");
    };
    assert!(end.release);
    assert_eq!(
        end.conclude(manager.terminate(connection)),
        Err(NegotiationControlError::UnexpectedCoreStatus(NegotiationStatus::AwaitingProposal))
    );

    let mut authority = exchange(SemanticRole::Authority, connection);
    authority.prepare_with(&mut manager, offer(None)).unwrap();
    let body = encode_offer(&offer(None), MAX_FRAME, &mut Memory::system()).unwrap();
    authority.receive_with(&mut manager, frame(ControlFrameType::NegotiationOffer, body)).unwrap();
    manager.terminate(connection).unwrap();
    assert_eq!(
        authority.propose_with(&mut manager, contract()),
        Err(NegotiationControlError::ManagerState(NegotiationManagerError::UnknownConnection))
    );
}

#[test]
fn a_manager_that_lost_track_is_not_reported_to_the_peer() {
    for error in [
        NegotiationManagerError::ConnectionAlreadyKnown,
        NegotiationManagerError::UnknownConnection,
        refused(NegotiationError::AlreadyProposed),
        refused(NegotiationError::NoProposal),
        refused(NegotiationError::AlreadyEstablished),
    ] {
        assert_eq!(manager_failure_outcome(error), Err(error));
    }
    assert_eq!(
        manager_failure_outcome(NegotiationManagerError::AggregateLimitExceeded),
        Ok(NegotiationOutcome::ResourceLimitExceeded)
    );
}

#[test]
fn a_body_that_is_none_violates_the_negotiation() {
    for (body, error) in [
        (
            vec![],
            NegotiationWireError::VarInt(VarIntDecodeError::Incomplete { needed: 1, available: 0 }),
        ),
        (vec![1, 0], NegotiationWireError::Truncated),
    ] {
        let mut manager = new_manager();
        let mut peer = exchange(SemanticRole::NonAuthority, ConnectionHandle::new(92));
        peer.prepare_with(&mut manager, offer(None)).unwrap();
        assert_eq!(
            peer.receive_with(&mut manager, frame(ControlFrameType::NegotiationOffer, body)),
            Err(NegotiationControlError::ProfileProtocol(NegotiationProtocolError::Wire(error)))
        );
    }
}

#[test]
fn a_contract_tells_what_it_enables() {
    let mut contract = contract();
    assert!(!contract.enable_capability(CapabilityId { value: 7 }));
    assert!(contract
        .bind_schema(
            SchemaId { value: 9 },
            selected(SchemaContractId { value: 1 }, CodecId { value: 2 }),
        )
        .is_err());
    assert_eq!((contract.capability_count(), contract.schema_count()), (1, 1));
    assert!(contract.enable_capability(CapabilityId { value: 8 }));
    assert_eq!(
        contract.enabled_capabilities(),
        &vec![CapabilityId { value: 7 }, CapabilityId { value: 8 }]
    );
}

#[test]
fn frames_without_lists_need_no_room() {
    let unbounded = OfferLimits {
        max_protocols: usize::MAX,
        max_capabilities: usize::MAX,
        max_schemas: usize::MAX,
        max_offer_accounted_bytes: usize::MAX,
        ..offer_limits()
    };
    let mut peer = exchange(SemanticRole::NonAuthority, ConnectionHandle::new(93));
    peer.prepare_with(&mut new_manager(), offer(None)).unwrap();
    let mut memory = Memory::system();
    let unexpected = frame(ControlFrameType::NegotiationValidated, vec![0xc4; 8]);
    let NegotiationStep::End(end) =
        peer.receive(unexpected, unbounded, &mut memory, reserve_bytes(1))
    else {
        panic!("the frame is not due");
    };
    assert_eq!(
        end.conclude(Ok(())),
        Err(NegotiationControlError::ProfileProtocol(
            NegotiationProtocolError::UnexpectedFrame {
                state: NegotiationState::AwaitingPeerOffer,
                frame_type: ControlFrameType::NegotiationValidated,
            }
        ))
    );
    assert!(!memory.refused());

    assert!(decode_offer(&[0, 0, 0], unbounded, &mut memory).is_ok());
    assert!(decode_offer(&[0xc4], unbounded, &mut memory).is_err());
    assert!(decode_proposal(&[0; 31], unbounded, &mut memory).is_err());
    assert!(decode_proposal(&[0; 34], unbounded, &mut memory).is_ok());
    assert!(!memory.refused());
}

#[test]
fn what_decodes_keeps_to_the_limits() {
    let body = encode_offer(&offer(None), MAX_FRAME, &mut Memory::system()).unwrap();
    let exact = OfferLimits {
        max_protocols: 2,
        max_capabilities: 1,
        max_schemas: 1,
        max_contracts_per_schema: 1,
        max_codecs_per_contract: 1,
        max_offer_accounted_bytes: 2 * 32 + 17 + 17 + 16 + 16,
    };
    assert_eq!(decode_offer(&body, exact, &mut Memory::system()), Ok(offer(None)));
    for short in [
        OfferLimits { max_protocols: 1, ..exact },
        OfferLimits { max_capabilities: 0, ..exact },
        OfferLimits { max_schemas: 0, ..exact },
        OfferLimits { max_contracts_per_schema: 0, ..exact },
        OfferLimits { max_codecs_per_contract: 0, ..exact },
        OfferLimits { max_offer_accounted_bytes: exact.max_offer_accounted_bytes - 1, ..exact },
    ] {
        assert_eq!(
            decode_offer(&body, short, &mut Memory::system()),
            Err(BodyDecodeError::Failure(NegotiationOutcome::MalformedOffer))
        );
    }
    let body = encode_proposal(&contract(), MAX_FRAME, &mut Memory::system()).unwrap();
    let exact = OfferLimits { max_offer_accounted_bytes: 32 + 16 + 48, ..exact };
    assert_eq!(decode_proposal(&body, exact, &mut Memory::system()), Ok(contract()));
    let short = OfferLimits { max_offer_accounted_bytes: 95, ..exact };
    assert_eq!(
        decode_proposal(&body, short, &mut Memory::system()),
        Err(BodyDecodeError::Failure(NegotiationOutcome::ResourceLimitExceeded))
    );
}
