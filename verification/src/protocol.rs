//! The compatibility vocabulary that a connection shares with the host's negotiation
//! manager: what is offered, what is selected, and what the manager answers.

use vstd::prelude::*;

verus! {

/// Names a protocol.
#[derive(Debug, Clone, Copy, PartialEq, Eq, Hash, Structural)]
pub struct ProtocolId {
    pub value: u128,
}

/// Names a revision of a protocol.
#[derive(Debug, Clone, Copy, PartialEq, Eq, Hash, Structural)]
pub struct ProtocolRevision {
    pub value: u128,
}

/// Names a capability.
#[derive(Debug, Clone, Copy, PartialEq, Eq, Hash, Structural)]
pub struct CapabilityId {
    pub value: u128,
}

/// Names a schema.
#[derive(Debug, Clone, Copy, PartialEq, Eq, Hash, Structural)]
pub struct SchemaId {
    pub value: u128,
}

/// Names a contract of a schema.
#[derive(Debug, Clone, Copy, PartialEq, Eq, Hash, Structural)]
pub struct SchemaContractId {
    pub value: u128,
}

/// Names a codec of a contract.
#[derive(Debug, Clone, Copy, PartialEq, Eq, Hash, Structural)]
pub struct CodecId {
    pub value: u128,
}

/// Whether a connection can do without something.
#[derive(Debug, Clone, Copy, PartialEq, Eq, Structural)]
pub enum RequirementLevel {
    Optional,
    Required,
}

/// A protocol in one revision.
#[derive(Debug, Clone, Copy, PartialEq, Eq, Structural)]
pub struct ProtocolContract {
    pub id: ProtocolId,
    pub revision: ProtocolRevision,
}

/// A capability on offer.
#[derive(Debug, Clone, Copy, PartialEq, Eq, Structural)]
pub struct CapabilityOffer {
    pub id: CapabilityId,
    pub requirement: RequirementLevel,
}

/// A contract of a schema on offer, with its codecs.
#[derive(Debug, PartialEq, Eq)]
pub struct SchemaContractOffer {
    pub contract_id: SchemaContractId,
    pub codecs: Vec<CodecId>,
}

/// A schema on offer, with its contracts.
#[derive(Debug, PartialEq, Eq)]
pub struct SchemaOffer {
    pub id: SchemaId,
    pub requirement: RequirementLevel,
    pub contracts: Vec<SchemaContractOffer>,
}

/// What one side can work with.
#[derive(Debug, PartialEq, Eq)]
pub struct CompatibilityOffer {
    pub protocols: Vec<ProtocolContract>,
    pub capabilities: Vec<CapabilityOffer>,
    pub schemas: Vec<SchemaOffer>,
    /// A name for local logs. It never goes on the wire.
    pub diagnostic_label: Option<String>,
}

/// What an offered contract holds.
pub struct ContractContent {
    pub contract_id: SchemaContractId,
    pub codecs: Seq<CodecId>,
}

/// What an offered schema holds.
pub struct SchemaContent {
    pub id: SchemaId,
    pub requirement: RequirementLevel,
    pub contracts: Seq<ContractContent>,
}

/// What an offer holds, without its label.
pub struct OfferContent {
    pub protocols: Seq<ProtocolContract>,
    pub capabilities: Seq<CapabilityOffer>,
    pub schemas: Seq<SchemaContent>,
}

impl SchemaContractOffer {
    pub open spec fn view(&self) -> ContractContent {
        ContractContent { contract_id: self.contract_id, codecs: self.codecs@ }
    }
}

/// What each contract of a list holds.
pub open spec fn contract_contents(contracts: Seq<SchemaContractOffer>) -> Seq<ContractContent> {
    contracts.map_values(|contract: SchemaContractOffer| contract@)
}

impl SchemaOffer {
    pub open spec fn view(&self) -> SchemaContent {
        SchemaContent {
            id: self.id,
            requirement: self.requirement,
            contracts: contract_contents(self.contracts@),
        }
    }
}

/// What each schema of a list holds.
pub open spec fn schema_contents(schemas: Seq<SchemaOffer>) -> Seq<SchemaContent> {
    schemas.map_values(|schema: SchemaOffer| schema@)
}

impl CompatibilityOffer {
    pub open spec fn view(&self) -> OfferContent {
        OfferContent {
            protocols: self.protocols@,
            capabilities: self.capabilities@,
            schemas: schema_contents(self.schemas@),
        }
    }
}

/// The contract and codec that were selected for a schema.
#[derive(Debug, Clone, Copy, PartialEq, Eq, Structural)]
pub struct SelectedSchema {
    pub contract_id: SchemaContractId,
    pub codec_id: CodecId,
}

/// A schema with what was selected for it.
#[derive(Debug, Clone, Copy, PartialEq, Eq, Structural)]
pub struct SchemaBinding {
    pub schema_id: SchemaId,
    pub selected: SelectedSchema,
}

/// A schema is bound already.
#[derive(Debug, Clone, Copy, PartialEq, Eq, Structural)]
pub struct SchemaAlreadyBound;

/// What both sides work with: a protocol, some capabilities and a selection for some
/// schemas, nothing twice.
#[derive(Debug, PartialEq, Eq)]
pub struct NegotiatedContract {
    pub(crate) protocol: ProtocolContract,
    pub(crate) capabilities: Vec<CapabilityId>,
    pub(crate) schemas: Vec<SchemaBinding>,
}

/// What a negotiated contract holds.
pub struct SelectionContent {
    pub protocol: ProtocolContract,
    pub capabilities: Seq<CapabilityId>,
    pub schemas: Seq<SchemaBinding>,
}

/// A schema is bound in a list.
pub open spec fn binds(schemas: Seq<SchemaBinding>, schema_id: SchemaId) -> bool {
    exists|i: int| 0 <= i < schemas.len() && (#[trigger] schemas[i]).schema_id == schema_id
}

/// No schema is bound twice.
pub open spec fn binds_once(schemas: Seq<SchemaBinding>) -> bool {
    forall|i: int, j: int|
        0 <= i < j < schemas.len() ==> (#[trigger] schemas[i]).schema_id != (
        #[trigger] schemas[j]).schema_id
}

impl SelectionContent {
    pub open spec fn wf(self) -> bool {
        self.capabilities.no_duplicates() && binds_once(self.schemas)
    }
}

pub fn has_capability(capabilities: &Vec<CapabilityId>, capability: CapabilityId) -> (found: bool)
    ensures
        found == capabilities@.contains(capability),
{
    let mut index: usize = 0;
    while index < capabilities.len()
        invariant
            index <= capabilities@.len(),
            forall|i: int| 0 <= i < index ==> capabilities@[i] != capability,
        decreases capabilities@.len() - index,
    {
        if capabilities[index] == capability {
            return true;
        }
        index = index + 1;
    }
    false
}

pub fn has_schema(schemas: &Vec<SchemaBinding>, schema_id: SchemaId) -> (found: bool)
    ensures
        found == binds(schemas@, schema_id),
{
    let mut index: usize = 0;
    while index < schemas.len()
        invariant
            index <= schemas@.len(),
            forall|i: int| 0 <= i < index ==> (#[trigger] schemas@[i]).schema_id != schema_id,
        decreases schemas@.len() - index,
    {
        if schemas[index].schema_id == schema_id {
            proof {
                assert(schemas@[index as int].schema_id == schema_id);
            }
            return true;
        }
        index = index + 1;
    }
    false
}

impl NegotiatedContract {
    /// Nothing occurs twice.
    pub open(crate) spec fn wf(&self) -> bool {
        self@.wf()
    }

    pub open(crate) spec fn view(&self) -> SelectionContent {
        SelectionContent {
            protocol: self.protocol,
            capabilities: self.capabilities@,
            schemas: self.schemas@,
        }
    }

    /// A contract with nothing but its protocol.
    pub fn new(protocol: ProtocolContract) -> (contract: Self)
        ensures
            contract@.protocol == protocol,
            contract@.capabilities.len() == 0,
            contract@.schemas.len() == 0,
            contract.wf(),
    {
        NegotiatedContract { protocol, capabilities: Vec::new(), schemas: Vec::new() }
    }

    pub fn protocol(&self) -> (protocol: ProtocolContract)
        ensures
            protocol == self@.protocol,
    {
        self.protocol
    }

    pub fn capability_count(&self) -> (count: usize)
        ensures
            count == self@.capabilities.len(),
    {
        self.capabilities.len()
    }

    pub fn schema_count(&self) -> (count: usize)
        ensures
            count == self@.schemas.len(),
    {
        self.schemas.len()
    }

    pub fn enabled_capabilities(&self) -> (capabilities: &Vec<CapabilityId>)
        ensures
            capabilities@ == self@.capabilities,
    {
        &self.capabilities
    }

    pub fn selected_schemas(&self) -> (schemas: &Vec<SchemaBinding>)
        ensures
            schemas@ == self@.schemas,
    {
        &self.schemas
    }

    /// Enables a capability. One that is enabled already stays enabled once.
    pub fn enable_capability(&mut self, capability: CapabilityId) -> (enabled: bool)
        requires
            old(self).wf(),
        ensures
            enabled == !old(self)@.capabilities.contains(capability),
            final(self)@ == (SelectionContent {
                capabilities: if enabled {
                    old(self)@.capabilities.push(capability)
                } else {
                    old(self)@.capabilities
                },
                ..old(self)@
            }),
            final(self).wf(),
    {
        if has_capability(&self.capabilities, capability) {
            return false;
        }
        self.capabilities.push(capability);
        true
    }

    /// Binds a schema. One that is bound already keeps its selection.
    pub fn bind_schema(&mut self, schema_id: SchemaId, selected: SelectedSchema) -> (bound: Result<
        (),
        SchemaAlreadyBound,
    >)
        requires
            old(self).wf(),
        ensures
            bound is Err <==> binds(old(self)@.schemas, schema_id),
            final(self)@ == (SelectionContent {
                schemas: if bound is Ok {
                    old(self)@.schemas.push(SchemaBinding { schema_id, selected })
                } else {
                    old(self)@.schemas
                },
                ..old(self)@
            }),
            final(self).wf(),
    {
        if has_schema(&self.schemas, schema_id) {
            return Err(SchemaAlreadyBound);
        }
        self.schemas.push(SchemaBinding { schema_id, selected });
        Ok(())
    }
}

/// What an offer or a proposal may hold.
#[derive(Debug, Clone, Copy, PartialEq, Eq, Structural)]
pub struct OfferLimits {
    pub max_protocols: usize,
    pub max_capabilities: usize,
    pub max_schemas: usize,
    pub max_contracts_per_schema: usize,
    pub max_codecs_per_contract: usize,
    pub max_offer_accounted_bytes: usize,
}

/// The manager's refusal in a negotiation.
#[derive(Debug, Clone, Copy, PartialEq, Eq, Structural)]
pub enum NegotiationError {
    /// By the host's own number.
    AuthorityOfferInvalid(u32),
    /// By the host's own number.
    PeerOfferInvalid(u32),
    ProtocolIncompatible,
    RequiredCapabilityUnavailable(CapabilityId),
    RequiredSchemaUnavailable(SchemaId),
    SelectionTooLarge,
    InvalidSelection,
    AlreadyProposed,
    NoProposal,
    AlreadyEstablished,
}

/// The manager's refusal of an operation.
#[derive(Debug, Clone, Copy, PartialEq, Eq, Structural)]
pub enum NegotiationManagerError {
    AttemptLimitExceeded,
    AggregateLimitExceeded,
    Negotiation(NegotiationError),
    ConnectionAlreadyKnown,
    UnknownConnection,
}

/// How far the manager's negotiation of a connection has come.
#[derive(Debug, Clone, Copy, PartialEq, Eq, Structural)]
pub enum NegotiationStatus {
    AwaitingProposal,
    AwaitingValidation { authority_validated: bool, peer_validated: bool },
    Established,
}

/// An offer's content is all that it lists, each entry in its place: nothing is left out and
/// nothing is added.
pub proof fn law_offers_are_all_that_they_list(offer: CompatibilityOffer, schema: int, contract: int)
    requires
        0 <= schema < offer.schemas@.len(),
        0 <= contract < offer.schemas@[schema].contracts@.len(),
    ensures
        offer@.protocols == offer.protocols@,
        offer@.capabilities == offer.capabilities@,
        offer@.schemas.len() == offer.schemas@.len(),
        offer@.schemas[schema].id == offer.schemas@[schema].id,
        offer@.schemas[schema].requirement == offer.schemas@[schema].requirement,
        offer@.schemas[schema].contracts.len() == offer.schemas@[schema].contracts@.len(),
        offer@.schemas[schema].contracts[contract].contract_id
            == offer.schemas@[schema].contracts@[contract].contract_id,
        offer@.schemas[schema].contracts[contract].codecs
            == offer.schemas@[schema].contracts@[contract].codecs@,
{
}

/// A selection is sound exactly where no capability is selected and no schema is bound twice.
pub proof fn law_sound_selections_hold_nothing_twice(
    selection: SelectionContent,
    capability: CapabilityId,
    binding: SchemaBinding,
)
    requires
        selection.wf(),
    ensures
        selection.capabilities.len() == 0 && selection.schemas.len() == 0 ==> selection.wf(),
        (SelectionContent { capabilities: selection.capabilities.push(capability), ..selection }).wf()
            <==> !selection.capabilities.contains(capability),
        (SelectionContent { schemas: selection.schemas.push(binding), ..selection }).wf()
            <==> forall|i: int|
            0 <= i < selection.schemas.len() ==> (#[trigger] selection.schemas[i]).schema_id
                != binding.schema_id,
{
    let capabilities = selection.capabilities.push(capability);
    let schemas = selection.schemas.push(binding);
    let n = selection.capabilities.len() as int;
    let m = selection.schemas.len() as int;
    assert(capabilities[n] == capability);
    assert(schemas[m] == binding);
    if selection.capabilities.contains(capability) {
        let i = choose|i: int| 0 <= i < n && selection.capabilities[i] == capability;
        assert(capabilities[i] == capabilities[n]);
    }
    if binds_once(schemas) {
        assert forall|i: int| 0 <= i < m implies (#[trigger] selection.schemas[i]).schema_id
            != binding.schema_id by {
            assert(schemas[i].schema_id != schemas[m].schema_id);
        }
    }
    if forall|i: int|
        0 <= i < m ==> (#[trigger] selection.schemas[i]).schema_id != binding.schema_id {
        assert forall|i: int, j: int| 0 <= i < j < schemas.len() implies (
        #[trigger] schemas[i]).schema_id != (#[trigger] schemas[j]).schema_id by {
            assert(schemas[i] == selection.schemas[i]);
            if j < m {
                assert(schemas[j] == selection.schemas[j]);
            }
        }
    }
}

} // verus!
