//! The bodies of the negotiation frames: offers, proposals and failures.

use vstd::prelude::*;

use crate::protocol::{
    binds, binds_once, contract_contents, has_capability, has_schema, schema_contents, CapabilityId,
    CapabilityOffer, CodecId, CompatibilityOffer, ContractContent, NegotiatedContract,
    OfferContent, OfferLimits, ProtocolContract, ProtocolId, ProtocolRevision, RequirementLevel,
    SchemaBinding, SchemaContent, SchemaContractId, SchemaContractOffer, SchemaId, SchemaOffer,
    SelectedSchema, SelectionContent,
};
use crate::storage::Memory;
use crate::varint::{
    be_bytes, be_value, byte_space, encode_varint, lemma_be_bytes_len, lemma_be_canonical,
    lemma_be_round_trip, lemma_split_read, lemma_split_written, read_varint, split_varint,
    varint_bytes, VarIntDecodeError, MAX_VARINT,
};

verus! {

/// How a negotiation fails.
#[derive(Debug, Clone, Copy, PartialEq, Eq, Structural)]
pub enum NegotiationOutcome {
    MalformedOffer,
    ProtocolIncompatible,
    RequiredCapabilityUnavailable,
    RequiredSchemaUnavailable,
    ResourceLimitExceeded,
    InvalidSelection,
}

/// Why a negotiation body is not one.
#[derive(Debug, Clone, Copy, PartialEq, Eq, Structural)]
pub enum NegotiationWireError {
    VarInt(VarIntDecodeError),
    Truncated,
    TrailingBytes,
    UnknownRequirementLevel(u8),
    UnknownFailureOutcome(u64),
}

/// Why a body does not decode: it breaks the format, or it holds what is not acceptable.
#[derive(Debug, Clone, Copy, PartialEq, Eq, Structural)]
pub enum BodyDecodeError {
    Protocol(NegotiationWireError),
    Failure(NegotiationOutcome),
}

impl NegotiationOutcome {
    /// The number of an outcome on the wire.
    pub open spec fn number(self) -> u64 {
        match self {
            NegotiationOutcome::MalformedOffer => 0,
            NegotiationOutcome::ProtocolIncompatible => 1,
            NegotiationOutcome::RequiredCapabilityUnavailable => 2,
            NegotiationOutcome::RequiredSchemaUnavailable => 3,
            NegotiationOutcome::ResourceLimitExceeded => 4,
            NegotiationOutcome::InvalidSelection => 5,
        }
    }

    /// The outcome with a number, if any.
    pub open spec fn numbered(number: u64) -> Option<NegotiationOutcome> {
        if number == 0 {
            Some(NegotiationOutcome::MalformedOffer)
        } else if number == 1 {
            Some(NegotiationOutcome::ProtocolIncompatible)
        } else if number == 2 {
            Some(NegotiationOutcome::RequiredCapabilityUnavailable)
        } else if number == 3 {
            Some(NegotiationOutcome::RequiredSchemaUnavailable)
        } else if number == 4 {
            Some(NegotiationOutcome::ResourceLimitExceeded)
        } else if number == 5 {
            Some(NegotiationOutcome::InvalidSelection)
        } else {
            None
        }
    }

    pub fn wire(self) -> (number: u64)
        ensures
            number == self.number(),
            number < 6,
    {
        match self {
            NegotiationOutcome::MalformedOffer => 0,
            NegotiationOutcome::ProtocolIncompatible => 1,
            NegotiationOutcome::RequiredCapabilityUnavailable => 2,
            NegotiationOutcome::RequiredSchemaUnavailable => 3,
            NegotiationOutcome::ResourceLimitExceeded => 4,
            NegotiationOutcome::InvalidSelection => 5,
        }
    }

    pub fn from_wire(value: u64) -> (outcome: Result<Self, NegotiationWireError>)
        ensures
            match NegotiationOutcome::numbered(value) {
                Some(found) => outcome == Ok::<_, NegotiationWireError>(found),
                None => outcome == Err::<NegotiationOutcome, _>(
                    NegotiationWireError::UnknownFailureOutcome(value),
                ),
            },
    {
        match value {
            0 => Ok(NegotiationOutcome::MalformedOffer),
            1 => Ok(NegotiationOutcome::ProtocolIncompatible),
            2 => Ok(NegotiationOutcome::RequiredCapabilityUnavailable),
            3 => Ok(NegotiationOutcome::RequiredSchemaUnavailable),
            4 => Ok(NegotiationOutcome::ResourceLimitExceeded),
            5 => Ok(NegotiationOutcome::InvalidSelection),
            _ => Err(NegotiationWireError::UnknownFailureOutcome(value)),
        }
    }
}

/// What a failure body tells.
pub open spec fn failure_at(input: Seq<u8>) -> Result<NegotiationOutcome, NegotiationWireError> {
    match split_varint(input) {
        Err(error) => Err(NegotiationWireError::VarInt(error)),
        Ok((number, rest)) => match NegotiationOutcome::numbered(number) {
            None => Err(NegotiationWireError::UnknownFailureOutcome(number)),
            Some(outcome) => if rest.len() > 0 {
                Err(NegotiationWireError::TrailingBytes)
            } else {
                Ok(outcome)
            },
        },
    }
}

pub fn decode_failure(input: &[u8]) -> (outcome: Result<NegotiationOutcome, NegotiationWireError>)
    ensures
        outcome == failure_at(input@),
{
    proof {
        assert(input@.skip(0) =~= input@);
    }
    let (number, offset): (u64, usize) = match read_varint(input, 0) {
        Ok(read) => read,
        Err(error) => return Err(NegotiationWireError::VarInt(error)),
    };
    let outcome = match NegotiationOutcome::from_wire(number) {
        Ok(outcome) => outcome,
        Err(error) => return Err(error),
    };
    if offset < input.len() {
        return Err(NegotiationWireError::TrailingBytes);
    }
    Ok(outcome)
}

/// An outcome survives the wire, in one byte, and only that byte tells it.
pub proof fn law_failure_round_trip(outcome: NegotiationOutcome, input: Seq<u8>)
    ensures
        failure_at(seq![outcome.number() as u8]) == Ok::<_, NegotiationWireError>(outcome),
        failure_at(input) == Ok::<_, NegotiationWireError>(outcome) ==> input
            == seq![outcome.number() as u8],
{
    let number = outcome.number();
    lemma_small_varint(number);
    lemma_split_written(number, Seq::empty());
    assert(varint_bytes(number as nat) + Seq::<u8>::empty() =~= varint_bytes(number as nat));
    if failure_at(input) == Ok::<_, NegotiationWireError>(outcome) {
        lemma_split_read(input);
        assert(input =~= varint_bytes(number as nat));
    }
}

/// A small integer is its own encoding.
pub proof fn lemma_small_varint(value: u64)
    requires
        value < 0x40,
    ensures
        varint_bytes(value as nat) == seq![value as u8],
{
    reveal(varint_bytes);
    reveal_with_fuel(be_bytes, 2);
    assert(varint_bytes(value as nat) =~= seq![value as u8]);
}

/// Where a decoder stands: what is left of the body, and how much it has accounted for.
pub struct Cursor {
    pub rest: Seq<u8>,
    pub used: nat,
}

/// A value and where the decoder stands behind it.
pub type Parsed<T> = Result<(T, Cursor), BodyDecodeError>;

pub open spec fn byte_at(at: Cursor) -> Parsed<u8> {
    if at.rest.len() == 0 {
        Err(BodyDecodeError::Protocol(NegotiationWireError::Truncated))
    } else {
        Ok((at.rest[0], Cursor { rest: at.rest.skip(1), used: at.used }))
    }
}

/// An identity takes sixteen bytes, most significant first.
pub open spec fn id_at(at: Cursor) -> Parsed<u128> {
    if at.rest.len() < 16 {
        Err(BodyDecodeError::Protocol(NegotiationWireError::Truncated))
    } else {
        Ok(
            (
                be_value(at.rest.take(16)) as u128,
                Cursor { rest: at.rest.skip(16), used: at.used },
            ),
        )
    }
}

/// The number of a requirement level on the wire.
pub open spec fn requirement_number(requirement: RequirementLevel) -> u8 {
    match requirement {
        RequirementLevel::Optional => 0,
        RequirementLevel::Required => 1,
    }
}

pub open spec fn requirement_at(at: Cursor) -> Parsed<RequirementLevel> {
    match byte_at(at) {
        Err(error) => Err(error),
        Ok((number, next)) => if number == 0 {
            Ok((RequirementLevel::Optional, next))
        } else if number == 1 {
            Ok((RequirementLevel::Required, next))
        } else {
            Err(BodyDecodeError::Protocol(NegotiationWireError::UnknownRequirementLevel(number)))
        },
    }
}

/// A count, which may not exceed `limit`.
pub open spec fn count_at(at: Cursor, limit: usize, exceeded: NegotiationOutcome) -> Parsed<nat> {
    match split_varint(at.rest) {
        Err(error) => Err(BodyDecodeError::Protocol(NegotiationWireError::VarInt(error))),
        Ok((count, rest)) => if count > limit {
            Err(BodyDecodeError::Failure(exceeded))
        } else {
            Ok((count as nat, Cursor { rest, used: at.used }))
        },
    }
}

/// Accounts for `bytes` more, which may not exceed the budget together.
pub open spec fn charged(
    at: Cursor,
    bytes: nat,
    budget: usize,
    exceeded: NegotiationOutcome,
) -> Result<Cursor, BodyDecodeError> {
    if at.used + bytes > budget {
        Err(BodyDecodeError::Failure(exceeded))
    } else {
        Ok(Cursor { rest: at.rest, used: at.used + bytes })
    }
}

/// `count` values, one behind the other. What a value may be can depend on those before it.
pub open spec fn items_at<T>(
    item: spec_fn(Seq<T>, Cursor) -> Parsed<T>,
    at: Cursor,
    count: nat,
) -> Parsed<Seq<T>>
    decreases count,
{
    if count == 0 {
        Ok((Seq::empty(), at))
    } else {
        match items_at(item, at, (count - 1) as nat) {
            Err(error) => Err(error),
            Ok((items, next)) => match item(items, next) {
                Err(error) => Err(error),
                Ok((value, next)) => Ok((items.push(value), next)),
            },
        }
    }
}

/// What bounds a list: how many entries, how much each accounts for, and within what.
pub struct ListBounds {
    pub limit: usize,
    pub width: nat,
    pub budget: usize,
    pub exceeded: NegotiationOutcome,
}

/// A list: its count, which is judged before the entries are read, and its entries.
pub open spec fn list_at<T>(
    item: spec_fn(Seq<T>, Cursor) -> Parsed<T>,
    at: Cursor,
    bounds: ListBounds,
) -> Parsed<Seq<T>> {
    match list_head(at, bounds) {
        Err(error) => Err(error),
        Ok((count, next)) => items_at(item, next, count),
    }
}

/// The count of a list, once it is accounted for.
pub open spec fn list_head(at: Cursor, bounds: ListBounds) -> Parsed<nat> {
    match count_at(at, bounds.limit, bounds.exceeded) {
        Err(error) => Err(error),
        Ok((count, next)) => match charged(
            next,
            count * bounds.width,
            bounds.budget,
            bounds.exceeded,
        ) {
            Err(error) => Err(error),
            Ok(next) => Ok((count, next)),
        },
    }
}

pub open spec fn protocol_at(at: Cursor) -> Parsed<ProtocolContract> {
    match id_at(at) {
        Err(error) => Err(error),
        Ok((id, next)) => match id_at(next) {
            Err(error) => Err(error),
            Ok((revision, next)) => Ok(
                (
                    ProtocolContract {
                        id: ProtocolId { value: id },
                        revision: ProtocolRevision { value: revision },
                    },
                    next,
                ),
            ),
        },
    }
}

pub open spec fn capability_offer_at(at: Cursor) -> Parsed<CapabilityOffer> {
    match id_at(at) {
        Err(error) => Err(error),
        Ok((id, next)) => match requirement_at(next) {
            Err(error) => Err(error),
            Ok((requirement, next)) => Ok(
                (CapabilityOffer { id: CapabilityId { value: id }, requirement }, next),
            ),
        },
    }
}

pub open spec fn codec_at(at: Cursor) -> Parsed<CodecId> {
    match id_at(at) {
        Err(error) => Err(error),
        Ok((id, next)) => Ok((CodecId { value: id }, next)),
    }
}

pub open spec fn protocol_item() -> spec_fn(Seq<ProtocolContract>, Cursor) -> Parsed<ProtocolContract> {
    |seen: Seq<ProtocolContract>, at: Cursor| protocol_at(at)
}

pub open spec fn capability_offer_item() -> spec_fn(Seq<CapabilityOffer>, Cursor) -> Parsed<CapabilityOffer> {
    |seen: Seq<CapabilityOffer>, at: Cursor| capability_offer_at(at)
}

pub open spec fn codec_item() -> spec_fn(Seq<CodecId>, Cursor) -> Parsed<CodecId> {
    |seen: Seq<CodecId>, at: Cursor| codec_at(at)
}

/// What bounds a list of an offer.
pub open spec fn offer_bounds(limits: OfferLimits, limit: usize, width: nat) -> ListBounds {
    ListBounds {
        limit,
        width,
        budget: limits.max_offer_accounted_bytes,
        exceeded: NegotiationOutcome::MalformedOffer,
    }
}

/// What bounds a list of a proposal.
pub open spec fn proposal_bounds(limits: OfferLimits, limit: usize, width: nat) -> ListBounds {
    ListBounds {
        limit,
        width,
        budget: limits.max_offer_accounted_bytes,
        exceeded: NegotiationOutcome::ResourceLimitExceeded,
    }
}

pub open spec fn contract_offer_at(at: Cursor, limits: OfferLimits) -> Parsed<ContractContent> {
    match id_at(at) {
        Err(error) => Err(error),
        Ok((id, next)) => match list_at(
            codec_item(),
            next,
            offer_bounds(limits, limits.max_codecs_per_contract, 16),
        ) {
            Err(error) => Err(error),
            Ok((codecs, next)) => Ok(
                (ContractContent { contract_id: SchemaContractId { value: id }, codecs }, next),
            ),
        },
    }
}

pub open spec fn contract_offer_item(limits: OfferLimits) -> spec_fn(
    Seq<ContractContent>,
    Cursor,
) -> Parsed<ContractContent> {
    |seen: Seq<ContractContent>, at: Cursor| contract_offer_at(at, limits)
}

pub open spec fn schema_offer_at(at: Cursor, limits: OfferLimits) -> Parsed<SchemaContent> {
    match id_at(at) {
        Err(error) => Err(error),
        Ok((id, next)) => match requirement_at(next) {
            Err(error) => Err(error),
            Ok((requirement, next)) => match list_at(
                contract_offer_item(limits),
                next,
                offer_bounds(limits, limits.max_contracts_per_schema, 16),
            ) {
                Err(error) => Err(error),
                Ok((contracts, next)) => Ok(
                    (SchemaContent { id: SchemaId { value: id }, requirement, contracts }, next),
                ),
            },
        },
    }
}

pub open spec fn schema_offer_item(limits: OfferLimits) -> spec_fn(
    Seq<SchemaContent>,
    Cursor,
) -> Parsed<SchemaContent> {
    |seen: Seq<SchemaContent>, at: Cursor| schema_offer_at(at, limits)
}

/// What an offer body holds.
pub open spec fn offer_at(input: Seq<u8>, limits: OfferLimits) -> Result<
    OfferContent,
    BodyDecodeError,
> {
    match list_at(
        protocol_item(),
        Cursor { rest: input, used: 0 },
        offer_bounds(limits, limits.max_protocols, 32),
    ) {
        Err(error) => Err(error),
        Ok((protocols, next)) => match list_at(
            capability_offer_item(),
            next,
            offer_bounds(limits, limits.max_capabilities, 17),
        ) {
            Err(error) => Err(error),
            Ok((capabilities, next)) => match list_at(
                schema_offer_item(limits),
                next,
                offer_bounds(limits, limits.max_schemas, 17),
            ) {
                Err(error) => Err(error),
                Ok((schemas, next)) => if next.rest.len() > 0 {
                    Err(BodyDecodeError::Protocol(NegotiationWireError::TrailingBytes))
                } else {
                    Ok(OfferContent { protocols, capabilities, schemas })
                },
            },
        },
    }
}

/// A selected capability, which was not selected before.
pub open spec fn capability_at(seen: Seq<CapabilityId>, at: Cursor) -> Parsed<CapabilityId> {
    match id_at(at) {
        Err(error) => Err(error),
        Ok((id, next)) => if seen.contains(CapabilityId { value: id }) {
            Err(BodyDecodeError::Failure(NegotiationOutcome::InvalidSelection))
        } else {
            Ok((CapabilityId { value: id }, next))
        },
    }
}

/// A bound schema, which was not bound before, and what is selected for it.
pub open spec fn binding_at(seen: Seq<SchemaBinding>, at: Cursor) -> Parsed<SchemaBinding> {
    match id_at(at) {
        Err(error) => Err(error),
        Ok((schema, next)) => if binds(seen, SchemaId { value: schema }) {
            Err(BodyDecodeError::Failure(NegotiationOutcome::InvalidSelection))
        } else {
            match id_at(next) {
                Err(error) => Err(error),
                Ok((contract, next)) => match id_at(next) {
                    Err(error) => Err(error),
                    Ok((codec, next)) => Ok(
                        (
                            SchemaBinding {
                                schema_id: SchemaId { value: schema },
                                selected: SelectedSchema {
                                    contract_id: SchemaContractId { value: contract },
                                    codec_id: CodecId { value: codec },
                                },
                            },
                            next,
                        ),
                    ),
                },
            }
        },
    }
}

pub open spec fn capability_item() -> spec_fn(Seq<CapabilityId>, Cursor) -> Parsed<CapabilityId> {
    |seen: Seq<CapabilityId>, at: Cursor| capability_at(seen, at)
}

pub open spec fn binding_item() -> spec_fn(Seq<SchemaBinding>, Cursor) -> Parsed<SchemaBinding> {
    |seen: Seq<SchemaBinding>, at: Cursor| binding_at(seen, at)
}

/// What a proposal body holds.
pub open spec fn proposal_at(input: Seq<u8>, limits: OfferLimits) -> Result<
    SelectionContent,
    BodyDecodeError,
> {
    match protocol_at(Cursor { rest: input, used: 0 }) {
        Err(error) => Err(error),
        Ok((protocol, next)) => match charged(
            next,
            32,
            limits.max_offer_accounted_bytes,
            NegotiationOutcome::ResourceLimitExceeded,
        ) {
            Err(error) => Err(error),
            Ok(next) => match list_at(
                capability_item(),
                next,
                proposal_bounds(limits, limits.max_capabilities, 16),
            ) {
                Err(error) => Err(error),
                Ok((capabilities, next)) => match list_at(
                    binding_item(),
                    next,
                    proposal_bounds(limits, limits.max_schemas, 48),
                ) {
                    Err(error) => Err(error),
                    Ok((schemas, next)) => if next.rest.len() > 0 {
                        Err(BodyDecodeError::Protocol(NegotiationWireError::TrailingBytes))
                    } else {
                        Ok(SelectionContent { protocol, capabilities, schemas })
                    },
                },
            },
        },
    }
}

proof fn lemma_items_failed<T>(
    item: spec_fn(Seq<T>, Cursor) -> Parsed<T>,
    at: Cursor,
    failed: nat,
    count: nat,
)
    requires
        failed <= count,
        items_at(item, at, failed) is Err,
    ensures
        items_at(item, at, count) == Err::<(Seq<T>, Cursor), _>(items_at(item, at, failed)->Err_0),
    decreases count,
{
    if failed < count {
        lemma_items_failed(item, at, failed, (count - 1) as nat);
    }
}

/// A body on its way in.
struct BodyReader<'a> {
    input: &'a [u8],
    offset: usize,
    used: usize,
}

impl<'a> BodyReader<'a> {
    spec fn wf(self) -> bool {
        self.offset <= self.input@.len()
    }

    spec fn cursor(self) -> Cursor {
        Cursor { rest: self.input@.skip(self.offset as int), used: self.used as nat }
    }

    /// The reader moved on by one value, or failed.
    spec fn moved<T>(self, next: Self, parsed: Parsed<T>, read: Result<T, BodyDecodeError>) -> bool {
        &&& next.wf()
        &&& next.input == self.input
        &&& match parsed {
            Err(error) => read == Err::<T, _>(error),
            Ok((value, at)) => read == Ok::<_, BodyDecodeError>(value) && next.cursor() == at,
        }
    }

    fn new(input: &'a [u8]) -> (reader: Self)
        ensures
            reader.wf(),
            reader.input == input,
            reader.cursor() == (Cursor { rest: input@, used: 0 }),
    {
        let reader = BodyReader { input, offset: 0, used: 0 };
        proof {
            assert(input@.skip(0) =~= input@);
        }
        reader
    }

    fn read_byte(&mut self) -> (read: Result<u8, BodyDecodeError>)
        requires
            old(self).wf(),
        ensures
            old(self).moved(*final(self), byte_at(old(self).cursor()), read),
    {
        if self.offset >= self.input.len() {
            return Err(BodyDecodeError::Protocol(NegotiationWireError::Truncated));
        }
        let value: u8 = self.input[self.offset];
        let ghost before = self.cursor();
        self.offset = self.offset + 1;
        proof {
            assert(self.cursor().rest =~= before.rest.skip(1));
        }
        Ok(value)
    }

    #[verifier::loop_isolation(false)]
    fn read_id(&mut self) -> (read: Result<u128, BodyDecodeError>)
        requires
            old(self).wf(),
        ensures
            old(self).moved(*final(self), id_at(old(self).cursor()), read),
    {
        if self.input.len() - self.offset < 16 {
            return Err(BodyDecodeError::Protocol(NegotiationWireError::Truncated));
        }
        let ghost rest = self.cursor().rest;
        let mut value: u128 = 0;
        let mut index: usize = 0;
        proof {
            assert(rest.take(0) =~= Seq::empty());
        }
        while index < 16
            invariant
                index <= 16,
                rest.len() >= 16,
                self.wf(),
                rest == self.input@.skip(self.offset as int),
                value == be_value(rest.take(index as int)),
            decreases 16 - index,
        {
            proof {
                let next = rest.take(index + 1);
                assert(next.drop_last() =~= rest.take(index as int));
                lemma_be_canonical(next);
                lemma_id_space((index + 1) as nat);
            }
            value = value * 256 + self.input[self.offset + index] as u128;
            index = index + 1;
        }
        self.offset = self.offset + 16;
        proof {
            assert(self.cursor().rest =~= rest.skip(16));
        }
        Ok(value)
    }

    fn read_requirement(&mut self) -> (read: Result<RequirementLevel, BodyDecodeError>)
        requires
            old(self).wf(),
        ensures
            old(self).moved(*final(self), requirement_at(old(self).cursor()), read),
    {
        match self.read_byte() {
            Err(error) => Err(error),
            Ok(0) => Ok(RequirementLevel::Optional),
            Ok(1) => Ok(RequirementLevel::Required),
            Ok(number) => Err(
                BodyDecodeError::Protocol(NegotiationWireError::UnknownRequirementLevel(number)),
            ),
        }
    }

    fn charge(&mut self, bytes: usize, budget: usize, exceeded: NegotiationOutcome) -> (charge: Result<
        (),
        BodyDecodeError,
    >)
        requires
            old(self).wf(),
        ensures
            final(self).wf(),
            final(self).input == old(self).input,
            match charged(old(self).cursor(), bytes as nat, budget, exceeded) {
                Err(error) => charge == Err::<(), _>(error),
                Ok(at) => charge is Ok && final(self).cursor() == at,
            },
    {
        match self.used.checked_add(bytes) {
            Some(used) => {
                if used > budget {
                    return Err(BodyDecodeError::Failure(exceeded));
                }
                self.used = used;
                Ok(())
            },
            None => Err(BodyDecodeError::Failure(exceeded)),
        }
    }

    /// Reads the count of a list and accounts for its entries.
    fn read_list_head(
        &mut self,
        limit: usize,
        width: usize,
        budget: usize,
        exceeded: NegotiationOutcome,
    ) -> (read: Result<usize, BodyDecodeError>)
        requires
            old(self).wf(),
        ensures
            final(self).wf(),
            final(self).input == old(self).input,
            match list_head(
                old(self).cursor(),
                (ListBounds { limit, width: width as nat, budget, exceeded }),
            ) {
                Err(error) => read == Err::<usize, _>(error),
                Ok((count, at)) => read matches Ok(found) && found == count
                    && final(self).cursor() == at,
            },
    {
        let (count, offset): (u64, usize) = match read_varint(self.input, self.offset) {
            Ok(read) => read,
            Err(error) => {
                return Err(BodyDecodeError::Protocol(NegotiationWireError::VarInt(error)))
            },
        };
        if count > limit as u64 {
            return Err(BodyDecodeError::Failure(exceeded));
        }
        let count: usize = count as usize;
        self.offset = offset;
        match count.checked_mul(width) {
            None => Err(BodyDecodeError::Failure(exceeded)),
            Some(bytes) => match self.charge(bytes, budget, exceeded) {
                Err(error) => Err(error),
                Ok(()) => Ok(count),
            },
        }
    }

    fn read_protocol(&mut self) -> (read: Result<ProtocolContract, BodyDecodeError>)
        requires
            old(self).wf(),
        ensures
            old(self).moved(*final(self), protocol_at(old(self).cursor()), read),
    {
        let id: u128 = match self.read_id() {
            Ok(id) => id,
            Err(error) => return Err(error),
        };
        let revision: u128 = match self.read_id() {
            Ok(revision) => revision,
            Err(error) => return Err(error),
        };
        Ok(
            ProtocolContract {
                id: ProtocolId { value: id },
                revision: ProtocolRevision { value: revision },
            },
        )
    }

    fn read_capability_offer(&mut self) -> (read: Result<CapabilityOffer, BodyDecodeError>)
        requires
            old(self).wf(),
        ensures
            old(self).moved(*final(self), capability_offer_at(old(self).cursor()), read),
    {
        let id: u128 = match self.read_id() {
            Ok(id) => id,
            Err(error) => return Err(error),
        };
        match self.read_requirement() {
            Ok(requirement) => Ok(CapabilityOffer { id: CapabilityId { value: id }, requirement }),
            Err(error) => Err(error),
        }
    }

    /// What a list comes to: refused for want of room, or read, or failed.
    spec fn listed<S, T>(
        self,
        next: Self,
        memory: (Memory, Memory),
        parsed: Parsed<Seq<S>>,
        read: Result<Vec<T>, BodyDecodeError>,
        content: spec_fn(Seq<T>) -> Seq<S>,
    ) -> bool {
        &&& memory_kept(memory.0, memory.1)
        &&& memory.1.was_refused() ==> read == Err::<Vec<T>, _>(refusal())
        &&& !memory.1.was_refused() ==> match parsed {
            Err(error) => read == Err::<Vec<T>, _>(error),
            Ok((items, at)) => read matches Ok(values) && content(values@) == items
                && next.cursor() == at,
        }
        &&& next.wf()
        &&& next.input == self.input
    }

    #[verifier::loop_isolation(false)]
    fn read_protocols(&mut self, limits: OfferLimits, memory: &mut Memory) -> (read: Result<
        Vec<ProtocolContract>,
        BodyDecodeError,
    >)
        requires
            old(self).wf(),
            !old(memory).was_refused(),
        ensures
            old(self).listed(
                *final(self),
                (*old(memory), *final(memory)),
                list_at(
                    protocol_item(),
                    old(self).cursor(),
                    offer_bounds(limits, limits.max_protocols, 32),
                ),
                read,
                |values: Seq<ProtocolContract>| values,
            ),
            final(memory).was_refused() ==> list_needs_room(
                old(self).cursor(),
                offer_bounds(limits, limits.max_protocols, 32),
            ),
    {
        let count: usize = match self.read_list_head(
            limits.max_protocols,
            32,
            limits.max_offer_accounted_bytes,
            NegotiationOutcome::MalformedOffer,
        ) {
            Ok(count) => count,
            Err(error) => return Err(error),
        };
        let mut values: Vec<ProtocolContract> = match memory.reserve(count) {
            Some(values) => values,
            None => {
                return Err(BodyDecodeError::Failure(NegotiationOutcome::ResourceLimitExceeded))
            },
        };
        let ghost start = self.cursor();
        let ghost input = self.input;
        let mut index: usize = 0;
        proof {
            assert(values@ =~= Seq::empty());
        }
        while index < count
            invariant
                index <= count,
                self.wf(),
                self.input == input,
                items_at(protocol_item(), start, index as nat) == Ok::<_, BodyDecodeError>(
                    (values@, self.cursor()),
                ),
            decreases count - index,
        {
            match self.read_protocol() {
                Ok(value) => values.push(value),
                Err(error) => {
                    proof {
                        lemma_items_failed(
                            protocol_item(),
                            start,
                            (index + 1) as nat,
                            count as nat,
                        );
                    }
                    return Err(error);
                },
            }
            index = index + 1;
        }
        Ok(values)
    }

    #[verifier::loop_isolation(false)]
    fn read_capability_offers(&mut self, limits: OfferLimits, memory: &mut Memory) -> (read: Result<
        Vec<CapabilityOffer>,
        BodyDecodeError,
    >)
        requires
            old(self).wf(),
            !old(memory).was_refused(),
        ensures
            old(self).listed(
                *final(self),
                (*old(memory), *final(memory)),
                list_at(
                    capability_offer_item(),
                    old(self).cursor(),
                    offer_bounds(limits, limits.max_capabilities, 17),
                ),
                read,
                |values: Seq<CapabilityOffer>| values,
            ),
            final(memory).was_refused() ==> list_needs_room(
                old(self).cursor(),
                offer_bounds(limits, limits.max_capabilities, 17),
            ),
    {
        let count: usize = match self.read_list_head(
            limits.max_capabilities,
            17,
            limits.max_offer_accounted_bytes,
            NegotiationOutcome::MalformedOffer,
        ) {
            Ok(count) => count,
            Err(error) => return Err(error),
        };
        let mut values: Vec<CapabilityOffer> = match memory.reserve(count) {
            Some(values) => values,
            None => {
                return Err(BodyDecodeError::Failure(NegotiationOutcome::ResourceLimitExceeded))
            },
        };
        let ghost start = self.cursor();
        let ghost input = self.input;
        let mut index: usize = 0;
        proof {
            assert(values@ =~= Seq::empty());
        }
        while index < count
            invariant
                index <= count,
                self.wf(),
                self.input == input,
                items_at(capability_offer_item(), start, index as nat) == Ok::<
                    _,
                    BodyDecodeError,
                >((values@, self.cursor())),
            decreases count - index,
        {
            match self.read_capability_offer() {
                Ok(value) => values.push(value),
                Err(error) => {
                    proof {
                        lemma_items_failed(
                            capability_offer_item(),
                            start,
                            (index + 1) as nat,
                            count as nat,
                        );
                    }
                    return Err(error);
                },
            }
            index = index + 1;
        }
        Ok(values)
    }

    #[verifier::loop_isolation(false)]
    fn read_codecs(&mut self, limits: OfferLimits, memory: &mut Memory) -> (read: Result<
        Vec<CodecId>,
        BodyDecodeError,
    >)
        requires
            old(self).wf(),
            !old(memory).was_refused(),
        ensures
            old(self).listed(
                *final(self),
                (*old(memory), *final(memory)),
                list_at(
                    codec_item(),
                    old(self).cursor(),
                    offer_bounds(limits, limits.max_codecs_per_contract, 16),
                ),
                read,
                |values: Seq<CodecId>| values,
            ),
    {
        let count: usize = match self.read_list_head(
            limits.max_codecs_per_contract,
            16,
            limits.max_offer_accounted_bytes,
            NegotiationOutcome::MalformedOffer,
        ) {
            Ok(count) => count,
            Err(error) => return Err(error),
        };
        let mut values: Vec<CodecId> = match memory.reserve(count) {
            Some(values) => values,
            None => {
                return Err(BodyDecodeError::Failure(NegotiationOutcome::ResourceLimitExceeded))
            },
        };
        let ghost start = self.cursor();
        let ghost input = self.input;
        let mut index: usize = 0;
        proof {
            assert(values@ =~= Seq::empty());
        }
        while index < count
            invariant
                index <= count,
                self.wf(),
                self.input == input,
                items_at(codec_item(), start, index as nat) == Ok::<_, BodyDecodeError>(
                    (values@, self.cursor()),
                ),
            decreases count - index,
        {
            match self.read_id() {
                Ok(value) => values.push(CodecId { value }),
                Err(error) => {
                    proof {
                        lemma_items_failed(codec_item(), start, (index + 1) as nat, count as nat);
                    }
                    return Err(error);
                },
            }
            index = index + 1;
        }
        Ok(values)
    }
}

impl<'a> BodyReader<'a> {
    /// What a nested value comes to: refused for want of room, or read, or failed.
    spec fn nested<S, T>(
        self,
        next: Self,
        memory: (Memory, Memory),
        parsed: Parsed<S>,
        read: Result<T, BodyDecodeError>,
        content: spec_fn(T) -> S,
    ) -> bool {
        &&& memory_kept(memory.0, memory.1)
        &&& memory.1.was_refused() ==> read == Err::<T, _>(refusal())
        &&& !memory.1.was_refused() ==> match parsed {
            Err(error) => read == Err::<T, _>(error),
            Ok((item, at)) => read matches Ok(value) && content(value) == item && next.cursor()
                == at,
        }
        &&& next.wf()
        &&& next.input == self.input
    }

    fn read_contract_offer(&mut self, limits: OfferLimits, memory: &mut Memory) -> (read: Result<
        SchemaContractOffer,
        BodyDecodeError,
    >)
        requires
            old(self).wf(),
            !old(memory).was_refused(),
        ensures
            old(self).nested(
                *final(self),
                (*old(memory), *final(memory)),
                contract_offer_at(old(self).cursor(), limits),
                read,
                |value: SchemaContractOffer| value@,
            ),
    {
        let id: u128 = match self.read_id() {
            Ok(id) => id,
            Err(error) => return Err(error),
        };
        match self.read_codecs(limits, memory) {
            Ok(codecs) => Ok(
                SchemaContractOffer { contract_id: SchemaContractId { value: id }, codecs },
            ),
            Err(error) => Err(error),
        }
    }

    #[verifier::loop_isolation(false)]
    fn read_contract_offers(&mut self, limits: OfferLimits, memory: &mut Memory) -> (read: Result<
        Vec<SchemaContractOffer>,
        BodyDecodeError,
    >)
        requires
            old(self).wf(),
            !old(memory).was_refused(),
        ensures
            old(self).listed(
                *final(self),
                (*old(memory), *final(memory)),
                list_at(
                    contract_offer_item(limits),
                    old(self).cursor(),
                    offer_bounds(limits, limits.max_contracts_per_schema, 16),
                ),
                read,
                |values: Seq<SchemaContractOffer>| contract_contents(values),
            ),
    {
        let count: usize = match self.read_list_head(
            limits.max_contracts_per_schema,
            16,
            limits.max_offer_accounted_bytes,
            NegotiationOutcome::MalformedOffer,
        ) {
            Ok(count) => count,
            Err(error) => return Err(error),
        };
        let mut values: Vec<SchemaContractOffer> = match memory.reserve(count) {
            Some(values) => values,
            None => {
                return Err(BodyDecodeError::Failure(NegotiationOutcome::ResourceLimitExceeded))
            },
        };
        let ghost start = self.cursor();
        let ghost input = self.input;
        let mut index: usize = 0;
        proof {
            assert(contract_contents(values@) =~= Seq::empty());
        }
        while index < count
            invariant
                index <= count,
                self.wf(),
                self.input == input,
                !memory.was_refused(),
                memory_kept(*old(memory), *memory),
                items_at(contract_offer_item(limits), start, index as nat) == Ok::<
                    _,
                    BodyDecodeError,
                >((contract_contents(values@), self.cursor())),
            decreases count - index,
        {
            match self.read_contract_offer(limits, memory) {
                Ok(value) => {
                    let ghost before = values@;
                    let ghost item = value@;
                    values.push(value);
                    proof {
                        assert(contract_contents(values@) =~= contract_contents(before).push(item));
                    }
                },
                Err(error) => {
                    proof {
                        if !memory.was_refused() {
                            lemma_items_failed(
                                contract_offer_item(limits),
                                start,
                                (index + 1) as nat,
                                count as nat,
                            );
                        }
                    }
                    return Err(error);
                },
            }
            index = index + 1;
        }
        Ok(values)
    }

    fn read_schema_offer(&mut self, limits: OfferLimits, memory: &mut Memory) -> (read: Result<
        SchemaOffer,
        BodyDecodeError,
    >)
        requires
            old(self).wf(),
            !old(memory).was_refused(),
        ensures
            old(self).nested(
                *final(self),
                (*old(memory), *final(memory)),
                schema_offer_at(old(self).cursor(), limits),
                read,
                |value: SchemaOffer| value@,
            ),
    {
        let id: u128 = match self.read_id() {
            Ok(id) => id,
            Err(error) => return Err(error),
        };
        let requirement = match self.read_requirement() {
            Ok(requirement) => requirement,
            Err(error) => return Err(error),
        };
        match self.read_contract_offers(limits, memory) {
            Ok(contracts) => Ok(SchemaOffer { id: SchemaId { value: id }, requirement, contracts }),
            Err(error) => Err(error),
        }
    }

    #[verifier::loop_isolation(false)]
    fn read_schema_offers(&mut self, limits: OfferLimits, memory: &mut Memory) -> (read: Result<
        Vec<SchemaOffer>,
        BodyDecodeError,
    >)
        requires
            old(self).wf(),
            !old(memory).was_refused(),
        ensures
            old(self).listed(
                *final(self),
                (*old(memory), *final(memory)),
                list_at(
                    schema_offer_item(limits),
                    old(self).cursor(),
                    offer_bounds(limits, limits.max_schemas, 17),
                ),
                read,
                |values: Seq<SchemaOffer>| schema_contents(values),
            ),
            final(memory).was_refused() ==> list_needs_room(
                old(self).cursor(),
                offer_bounds(limits, limits.max_schemas, 17),
            ),
    {
        let count: usize = match self.read_list_head(
            limits.max_schemas,
            17,
            limits.max_offer_accounted_bytes,
            NegotiationOutcome::MalformedOffer,
        ) {
            Ok(count) => count,
            Err(error) => return Err(error),
        };
        let mut values: Vec<SchemaOffer> = match memory.reserve(count) {
            Some(values) => values,
            None => {
                return Err(BodyDecodeError::Failure(NegotiationOutcome::ResourceLimitExceeded))
            },
        };
        let ghost start = self.cursor();
        let ghost input = self.input;
        let mut index: usize = 0;
        proof {
            assert(schema_contents(values@) =~= Seq::empty());
        }
        while index < count
            invariant
                index <= count,
                self.wf(),
                self.input == input,
                !memory.was_refused(),
                memory_kept(*old(memory), *memory),
                items_at(schema_offer_item(limits), start, index as nat) == Ok::<
                    _,
                    BodyDecodeError,
                >((schema_contents(values@), self.cursor())),
            decreases count - index,
        {
            match self.read_schema_offer(limits, memory) {
                Ok(value) => {
                    let ghost before = values@;
                    let ghost item = value@;
                    values.push(value);
                    proof {
                        assert(schema_contents(values@) =~= schema_contents(before).push(item));
                    }
                },
                Err(error) => {
                    proof {
                        if !memory.was_refused() {
                            lemma_items_failed(
                                schema_offer_item(limits),
                                start,
                                (index + 1) as nat,
                                count as nat,
                            );
                        }
                    }
                    return Err(error);
                },
            }
            index = index + 1;
        }
        Ok(values)
    }

    fn read_capability(&mut self, seen: &Vec<CapabilityId>) -> (read: Result<
        CapabilityId,
        BodyDecodeError,
    >)
        requires
            old(self).wf(),
        ensures
            old(self).moved(*final(self), capability_at(seen@, old(self).cursor()), read),
    {
        let capability = match self.read_id() {
            Ok(value) => CapabilityId { value },
            Err(error) => return Err(error),
        };
        if has_capability(seen, capability) {
            return Err(BodyDecodeError::Failure(NegotiationOutcome::InvalidSelection));
        }
        Ok(capability)
    }

    #[verifier::loop_isolation(false)]
    fn read_capabilities(&mut self, limits: OfferLimits, memory: &mut Memory) -> (read: Result<
        Vec<CapabilityId>,
        BodyDecodeError,
    >)
        requires
            old(self).wf(),
            !old(memory).was_refused(),
        ensures
            old(self).listed(
                *final(self),
                (*old(memory), *final(memory)),
                list_at(
                    capability_item(),
                    old(self).cursor(),
                    proposal_bounds(limits, limits.max_capabilities, 16),
                ),
                read,
                |values: Seq<CapabilityId>| values,
            ),
            final(memory).was_refused() ==> list_needs_room(
                old(self).cursor(),
                proposal_bounds(limits, limits.max_capabilities, 16),
            ),
            read matches Ok(values) ==> values@.no_duplicates(),
    {
        let count: usize = match self.read_list_head(
            limits.max_capabilities,
            16,
            limits.max_offer_accounted_bytes,
            NegotiationOutcome::ResourceLimitExceeded,
        ) {
            Ok(count) => count,
            Err(error) => return Err(error),
        };
        let mut values: Vec<CapabilityId> = match memory.reserve(count) {
            Some(values) => values,
            None => {
                return Err(BodyDecodeError::Failure(NegotiationOutcome::ResourceLimitExceeded))
            },
        };
        let ghost start = self.cursor();
        let ghost input = self.input;
        let mut index: usize = 0;
        proof {
            assert(values@ =~= Seq::empty());
        }
        while index < count
            invariant
                index <= count,
                self.wf(),
                self.input == input,
                values@.no_duplicates(),
                items_at(capability_item(), start, index as nat) == Ok::<_, BodyDecodeError>(
                    (values@, self.cursor()),
                ),
            decreases count - index,
        {
            match self.read_capability(&values) {
                Ok(value) => values.push(value),
                Err(error) => {
                    proof {
                        lemma_items_failed(
                            capability_item(),
                            start,
                            (index + 1) as nat,
                            count as nat,
                        );
                    }
                    return Err(error);
                },
            }
            index = index + 1;
        }
        Ok(values)
    }

    fn read_binding(&mut self, seen: &Vec<SchemaBinding>) -> (read: Result<
        SchemaBinding,
        BodyDecodeError,
    >)
        requires
            old(self).wf(),
        ensures
            old(self).moved(*final(self), binding_at(seen@, old(self).cursor()), read),
    {
        let schema_id = match self.read_id() {
            Ok(value) => SchemaId { value },
            Err(error) => return Err(error),
        };
        if has_schema(seen, schema_id) {
            return Err(BodyDecodeError::Failure(NegotiationOutcome::InvalidSelection));
        }
        let contract_id = match self.read_id() {
            Ok(value) => SchemaContractId { value },
            Err(error) => return Err(error),
        };
        let codec_id = match self.read_id() {
            Ok(value) => CodecId { value },
            Err(error) => return Err(error),
        };
        Ok(SchemaBinding { schema_id, selected: SelectedSchema { contract_id, codec_id } })
    }

    #[verifier::loop_isolation(false)]
    fn read_bindings(&mut self, limits: OfferLimits, memory: &mut Memory) -> (read: Result<
        Vec<SchemaBinding>,
        BodyDecodeError,
    >)
        requires
            old(self).wf(),
            !old(memory).was_refused(),
        ensures
            old(self).listed(
                *final(self),
                (*old(memory), *final(memory)),
                list_at(
                    binding_item(),
                    old(self).cursor(),
                    proposal_bounds(limits, limits.max_schemas, 48),
                ),
                read,
                |values: Seq<SchemaBinding>| values,
            ),
            final(memory).was_refused() ==> list_needs_room(
                old(self).cursor(),
                proposal_bounds(limits, limits.max_schemas, 48),
            ),
            read matches Ok(values) ==> binds_once(values@),
    {
        let count: usize = match self.read_list_head(
            limits.max_schemas,
            48,
            limits.max_offer_accounted_bytes,
            NegotiationOutcome::ResourceLimitExceeded,
        ) {
            Ok(count) => count,
            Err(error) => return Err(error),
        };
        let mut values: Vec<SchemaBinding> = match memory.reserve(count) {
            Some(values) => values,
            None => {
                return Err(BodyDecodeError::Failure(NegotiationOutcome::ResourceLimitExceeded))
            },
        };
        let ghost start = self.cursor();
        let ghost input = self.input;
        let mut index: usize = 0;
        proof {
            assert(values@ =~= Seq::empty());
        }
        while index < count
            invariant
                index <= count,
                self.wf(),
                self.input == input,
                binds_once(values@),
                items_at(binding_item(), start, index as nat) == Ok::<_, BodyDecodeError>(
                    (values@, self.cursor()),
                ),
            decreases count - index,
        {
            match self.read_binding(&values) {
                Ok(value) => values.push(value),
                Err(error) => {
                    proof {
                        lemma_items_failed(
                            binding_item(),
                            start,
                            (index + 1) as nat,
                            count as nat,
                        );
                    }
                    return Err(error);
                },
            }
            index = index + 1;
        }
        Ok(values)
    }

    fn finish(self) -> (done: Result<(), BodyDecodeError>)
        requires
            self.wf(),
        ensures
            self.cursor().rest.len() == 0 ==> done is Ok,
            self.cursor().rest.len() > 0 ==> done == Err::<(), _>(
                BodyDecodeError::Protocol(NegotiationWireError::TrailingBytes),
            ),
    {
        if self.offset == self.input.len() {
            Ok(())
        } else {
            Err(BodyDecodeError::Protocol(NegotiationWireError::TrailingBytes))
        }
    }
}

/// Decodes an offer. Counts and the accounted size are judged before the entries are read.
pub fn decode_offer(input: &[u8], limits: OfferLimits, memory: &mut Memory) -> (offer: Result<
    CompatibilityOffer,
    BodyDecodeError,
>)
    requires
        !old(memory).was_refused(),
    ensures
        memory_kept(*old(memory), *final(memory)),
        final(memory).was_refused() ==> offer == Err::<CompatibilityOffer, _>(refusal()),
        !final(memory).was_refused() ==> match offer_at(input@, limits) {
            Err(error) => offer == Err::<CompatibilityOffer, _>(error),
            Ok(content) => offer is Ok && offer->Ok_0@ == content,
        },
        offer matches Ok(offer) ==> offer.diagnostic_label is None,
        final(memory).was_refused() ==> offer_needs_room(input@, limits),
{
    let mut reader = BodyReader::new(input);
    let protocols = match reader.read_protocols(limits, memory) {
        Ok(protocols) => protocols,
        Err(error) => return Err(error),
    };
    let capabilities = match reader.read_capability_offers(limits, memory) {
        Ok(capabilities) => capabilities,
        Err(error) => return Err(error),
    };
    let schemas = match reader.read_schema_offers(limits, memory) {
        Ok(schemas) => schemas,
        Err(error) => return Err(error),
    };
    match reader.finish() {
        Ok(()) => Ok(
            CompatibilityOffer { protocols, capabilities, schemas, diagnostic_label: None },
        ),
        Err(error) => Err(error),
    }
}

/// Decodes a proposal. What is selected twice is refused, not merged.
pub fn decode_proposal(input: &[u8], limits: OfferLimits, memory: &mut Memory) -> (contract: Result<
    NegotiatedContract,
    BodyDecodeError,
>)
    requires
        !old(memory).was_refused(),
    ensures
        memory_kept(*old(memory), *final(memory)),
        final(memory).was_refused() ==> contract == Err::<NegotiatedContract, _>(refusal()),
        !final(memory).was_refused() ==> match proposal_at(input@, limits) {
            Err(error) => contract == Err::<NegotiatedContract, _>(error),
            Ok(content) => contract is Ok && contract->Ok_0@ == content,
        },
        contract matches Ok(contract) ==> contract.wf(),
        final(memory).was_refused() ==> proposal_needs_room(input@, limits),
{
    let mut reader = BodyReader::new(input);
    let protocol = match reader.read_protocol() {
        Ok(protocol) => protocol,
        Err(error) => return Err(error),
    };
    if let Err(error) = reader.charge(
        32,
        limits.max_offer_accounted_bytes,
        NegotiationOutcome::ResourceLimitExceeded,
    ) {
        return Err(error);
    }
    let capabilities = match reader.read_capabilities(limits, memory) {
        Ok(capabilities) => capabilities,
        Err(error) => return Err(error),
    };
    let schemas = match reader.read_bindings(limits, memory) {
        Ok(schemas) => schemas,
        Err(error) => return Err(error),
    };
    match reader.finish() {
        Ok(()) => Ok(NegotiatedContract { protocol, capabilities, schemas }),
        Err(error) => Err(error),
    }
}

proof fn lemma_id_space(width: nat)
    requires
        width <= 16,
    ensures
        byte_space(width) <= 0x1_0000_0000_0000_0000_0000_0000_0000_0000,
{
    reveal_with_fuel(byte_space, 17);
}

/// What is reported where memory was refused.
pub open spec fn refusal() -> BodyDecodeError {
    BodyDecodeError::Failure(NegotiationOutcome::ResourceLimitExceeded)
}

/// Assured memory stays assured and is not refused, and nothing but a refusal changes
/// memory.
pub open(crate) spec fn memory_kept(before: Memory, after: Memory) -> bool {
    &&& after.is_assured() == before.is_assured()
    &&& before.is_assured() ==> !after.was_refused()
    &&& after.was_refused() == before.was_refused() ==> after == before
}

/// Room is asked for the entries of a list: its count is acceptable, and there are any.
pub open spec fn list_needs_room(at: Cursor, bounds: ListBounds) -> bool {
    list_head(at, bounds) matches Ok((count, _)) && count > 0
}

/// Room is asked for the first list of several that has entries, unless the body is refused
/// before.
pub open spec fn offer_needs_room(input: Seq<u8>, limits: OfferLimits) -> bool {
    let start = Cursor { rest: input, used: 0 };
    let protocols = offer_bounds(limits, limits.max_protocols, 32);
    let capabilities = offer_bounds(limits, limits.max_capabilities, 17);
    let schemas = offer_bounds(limits, limits.max_schemas, 17);
    ||| list_needs_room(start, protocols)
    ||| match list_head(start, protocols) {
        Err(_) => false,
        Ok((_, next)) => {
            ||| list_needs_room(next, capabilities)
            ||| match list_head(next, capabilities) {
                Err(_) => false,
                Ok((_, next)) => list_needs_room(next, schemas),
            }
        },
    }
}

/// Room is asked for the first list of a proposal that has entries, unless the body is
/// refused before.
pub open spec fn proposal_needs_room(input: Seq<u8>, limits: OfferLimits) -> bool {
    let capabilities = proposal_bounds(limits, limits.max_capabilities, 16);
    let schemas = proposal_bounds(limits, limits.max_schemas, 48);
    match protocol_at(Cursor { rest: input, used: 0 }) {
        Err(_) => false,
        Ok((_, next)) => match charged(
            next,
            32,
            limits.max_offer_accounted_bytes,
            NegotiationOutcome::ResourceLimitExceeded,
        ) {
            Err(_) => false,
            Ok(next) => {
                ||| list_needs_room(next, capabilities)
                ||| match list_head(next, capabilities) {
                    Err(_) => false,
                    Ok((_, next)) => list_needs_room(next, schemas),
                }
            },
        },
    }
}

/// Encodings, one behind the other.
pub open spec fn flat<T>(items: Seq<T>, encoding: spec_fn(T) -> Seq<u8>) -> Seq<u8>
    decreases items.len(),
{
    if items.len() == 0 {
        Seq::empty()
    } else {
        flat(items.drop_last(), encoding) + encoding(items.last())
    }
}

/// A list on the wire: its count, then its entries.
pub open spec fn list_bytes<T>(items: Seq<T>, encoding: spec_fn(T) -> Seq<u8>) -> Seq<u8> {
    varint_bytes(items.len()) + flat(items, encoding)
}

pub open spec fn id_bytes(id: u128) -> Seq<u8> {
    be_bytes(id as nat, 16)
}

pub open spec fn protocol_bytes(protocol: ProtocolContract) -> Seq<u8> {
    id_bytes(protocol.id.value) + id_bytes(protocol.revision.value)
}

pub open spec fn capability_offer_bytes(offer: CapabilityOffer) -> Seq<u8> {
    id_bytes(offer.id.value).push(requirement_number(offer.requirement))
}

pub open spec fn codec_encoding() -> spec_fn(CodecId) -> Seq<u8> {
    |codec: CodecId| id_bytes(codec.value)
}

pub open spec fn contract_offer_bytes(contract: ContractContent) -> Seq<u8> {
    id_bytes(contract.contract_id.value) + list_bytes(contract.codecs, codec_encoding())
}

pub open spec fn contract_offer_encoding() -> spec_fn(ContractContent) -> Seq<u8> {
    |contract: ContractContent| contract_offer_bytes(contract)
}

pub open spec fn schema_offer_bytes(schema: SchemaContent) -> Seq<u8> {
    id_bytes(schema.id.value).push(requirement_number(schema.requirement)) + list_bytes(
        schema.contracts,
        contract_offer_encoding(),
    )
}

pub open spec fn protocol_encoding() -> spec_fn(ProtocolContract) -> Seq<u8> {
    |protocol: ProtocolContract| protocol_bytes(protocol)
}

pub open spec fn capability_offer_encoding() -> spec_fn(CapabilityOffer) -> Seq<u8> {
    |offer: CapabilityOffer| capability_offer_bytes(offer)
}

pub open spec fn schema_offer_encoding() -> spec_fn(SchemaContent) -> Seq<u8> {
    |schema: SchemaContent| schema_offer_bytes(schema)
}

/// The body of an offer.
pub open spec fn offer_bytes(offer: OfferContent) -> Seq<u8> {
    list_bytes(offer.protocols, protocol_encoding()) + list_bytes(
        offer.capabilities,
        capability_offer_encoding(),
    ) + list_bytes(offer.schemas, schema_offer_encoding())
}

pub open spec fn capability_encoding() -> spec_fn(CapabilityId) -> Seq<u8> {
    |capability: CapabilityId| id_bytes(capability.value)
}

pub open spec fn binding_bytes(binding: SchemaBinding) -> Seq<u8> {
    id_bytes(binding.schema_id.value) + id_bytes(binding.selected.contract_id.value) + id_bytes(
        binding.selected.codec_id.value,
    )
}

pub open spec fn binding_encoding() -> spec_fn(SchemaBinding) -> Seq<u8> {
    |binding: SchemaBinding| binding_bytes(binding)
}

/// The body of a proposal.
pub open spec fn proposal_bytes(contract: SelectionContent) -> Seq<u8> {
    protocol_bytes(contract.protocol) + list_bytes(contract.capabilities, capability_encoding())
        + list_bytes(contract.schemas, binding_encoding())
}

proof fn lemma_id_len(id: u128)
    ensures
        id_bytes(id).len() == 16,
{
    lemma_be_bytes_len(id as nat, 16);
}

/// Encodings of one width take that width each.
proof fn lemma_flat_len<T>(items: Seq<T>, encoding: spec_fn(T) -> Seq<u8>, width: nat)
    requires
        forall|item: T| (#[trigger] encoding(item)).len() == width,
    ensures
        flat(items, encoding).len() == items.len() * width,
    decreases items.len(),
{
    if items.len() > 0 {
        lemma_flat_len(items.drop_last(), encoding, width);
        let shorter = (items.len() - 1) as int;
        assert(shorter * width + width == (shorter + 1) * width) by (nonlinear_arith);
    } else {
        assert(0 * width == 0) by (nonlinear_arith);
    }
}

/// Encodings of at least one width take at least that width each.
proof fn lemma_flat_len_at_least<T>(items: Seq<T>, encoding: spec_fn(T) -> Seq<u8>, width: nat)
    requires
        forall|item: T| (#[trigger] encoding(item)).len() >= width,
    ensures
        flat(items, encoding).len() >= items.len() * width,
    decreases items.len(),
{
    if items.len() > 0 {
        lemma_flat_len_at_least(items.drop_last(), encoding, width);
        let shorter = (items.len() - 1) as int;
        assert(shorter * width + width == (shorter + 1) * width) by (nonlinear_arith);
    } else {
        assert(0 * width == 0) by (nonlinear_arith);
    }
}

/// A front part of the entries takes no more than all of them.
proof fn lemma_flat_front<T>(items: Seq<T>, encoding: spec_fn(T) -> Seq<u8>, count: int)
    requires
        0 <= count <= items.len(),
    ensures
        flat(items.take(count), encoding).len() <= flat(items, encoding).len(),
    decreases items.len(),
{
    if count < items.len() {
        lemma_flat_front(items.drop_last(), encoding, count);
        assert(items.drop_last().take(count) =~= items.take(count));
    } else {
        assert(items.take(count) =~= items);
    }
}

/// One more entry adds its encoding.
proof fn lemma_flat_next<T>(items: Seq<T>, encoding: spec_fn(T) -> Seq<u8>, index: int)
    requires
        0 <= index < items.len(),
    ensures
        flat(items.take(index + 1), encoding) == flat(items.take(index), encoding) + encoding(
            items[index],
        ),
{
    assert(items.take(index + 1).drop_last() =~= items.take(index));
    assert(items.take(index + 1).last() == items[index]);
}

proof fn lemma_entry_lens()
    ensures
        forall|item: ProtocolContract| (#[trigger] protocol_encoding()(item)).len() == 32,
        forall|item: CapabilityOffer| (#[trigger] capability_offer_encoding()(item)).len() == 17,
        forall|item: CodecId| (#[trigger] codec_encoding()(item)).len() == 16,
        forall|item: CapabilityId| (#[trigger] capability_encoding()(item)).len() == 16,
        forall|item: SchemaBinding| (#[trigger] binding_encoding()(item)).len() == 48,
        forall|item: ContractContent| (#[trigger] contract_offer_encoding()(item)).len() >= 16,
        forall|item: SchemaContent| (#[trigger] schema_offer_encoding()(item)).len() >= 17,
{
    assert forall|item: ProtocolContract| (#[trigger] protocol_encoding()(item)).len() == 32 by {
        lemma_id_len(item.id.value);
        lemma_id_len(item.revision.value);
    }
    assert forall|item: CapabilityOffer| (#[trigger] capability_offer_encoding()(item)).len()
        == 17 by {
        lemma_id_len(item.id.value);
    }
    assert forall|item: CodecId| (#[trigger] codec_encoding()(item)).len() == 16 by {
        lemma_id_len(item.value);
    }
    assert forall|item: CapabilityId| (#[trigger] capability_encoding()(item)).len() == 16 by {
        lemma_id_len(item.value);
    }
    assert forall|item: SchemaBinding| (#[trigger] binding_encoding()(item)).len() == 48 by {
        lemma_id_len(item.schema_id.value);
        lemma_id_len(item.selected.contract_id.value);
        lemma_id_len(item.selected.codec_id.value);
    }
    assert forall|item: ContractContent| (#[trigger] contract_offer_encoding()(item)).len()
        >= 16 by {
        lemma_id_len(item.contract_id.value);
    }
    assert forall|item: SchemaContent| (#[trigger] schema_offer_encoding()(item)).len() >= 17 by {
        lemma_id_len(item.id.value);
    }
}

/// How long the encoding of a count is.
fn count_len(count: usize) -> (len: Option<usize>)
    ensures
        count <= MAX_VARINT ==> len is Some && len->0 == varint_bytes(count as nat).len()
            && len->0 <= 8,
        count > MAX_VARINT ==> len is None,
{
    match encode_varint(count as u64) {
        Ok(encoded) => Some(encoded.len()),
        Err(_) => None,
    }
}

/// `total + count * width`, where it fits.
fn checked_add_mul(total: usize, count: usize, width: usize) -> (sum: Option<usize>)
    ensures
        match sum {
            Some(sum) => sum == total + count * width,
            None => total + count * width > usize::MAX,
        },
{
    match count.checked_mul(width) {
        Some(bytes) => total.checked_add(bytes),
        None => None,
    }
}

/// Adds the length of a list of entries of one width to `total`.
fn add_list_len(total: usize, count: usize, width: usize) -> (sum: Option<usize>)
    requires
        width >= 16,
    ensures
        match sum {
            Some(sum) => {
                &&& count <= MAX_VARINT
                &&& sum == total + varint_bytes(count as nat).len() + count * width
            },
            None => total + varint_bytes(count as nat).len() + count * width > usize::MAX,
        },
{
    match count_len(count) {
        None => {
            proof {
                assert(count * width >= count * 16) by (nonlinear_arith)
                    requires
                        width >= 16,
                ;
            }
            None
        },
        Some(len) => match total.checked_add(len) {
            None => {
                proof {
                    assert(count * width >= 0) by (nonlinear_arith);
                }
                None
            },
            Some(total) => checked_add_mul(total, count, width),
        },
    }
}

/// How long the body of a contract's entry is, on top of `total`.
fn add_contract_len(total: usize, contract: &SchemaContractOffer) -> (sum: Option<usize>)
    ensures
        match sum {
            Some(sum) => sum == total + contract_offer_bytes(contract@).len()
                && contract.codecs@.len() <= MAX_VARINT,
            None => total + contract_offer_bytes(contract@).len() > usize::MAX,
        },
{
    proof {
        lemma_entry_lens();
        lemma_id_len(contract.contract_id.value);
        lemma_flat_len(contract.codecs@, codec_encoding(), 16);
    }
    match total.checked_add(16) {
        None => None,
        Some(total) => add_list_len(total, contract.codecs.len(), 16),
    }
}

/// How long the body of a schema's entry is, on top of `total`.
fn add_schema_len(total: usize, schema: &SchemaOffer) -> (sum: Option<usize>)
    ensures
        match sum {
            Some(sum) => sum == total + schema_offer_bytes(schema@).len() && encodable_schema(
                schema@,
            ),
            None => total + schema_offer_bytes(schema@).len() > usize::MAX,
        },
{
    let ghost contracts = schema@.contracts;
    let ghost encoding = contract_offer_encoding();
    let count: usize = schema.contracts.len();
    proof {
        lemma_entry_lens();
        lemma_id_len(schema.id.value);
        lemma_flat_len_at_least(contracts, encoding, 16);
        assert(contracts.len() == count);
    }
    let mut sum: usize = match total.checked_add(17) {
        None => return None,
        Some(sum) => sum,
    };
    let len: usize = match count_len(count) {
        None => return None,
        Some(len) => len,
    };
    sum = match sum.checked_add(len) {
        None => return None,
        Some(sum) => sum,
    };
    let ghost base = sum;
    let mut index: usize = 0;
    while index < count
        invariant
            index <= count,
            count == schema.contracts@.len(),
            contracts == contract_contents(schema.contracts@),
            contracts == schema@.contracts,
            encoding == contract_offer_encoding(),
            base == total + 17 + varint_bytes(count as nat).len(),
            id_bytes(schema.id.value).len() == 16,
            sum == base + flat(contracts.take(index as int), encoding).len(),
            forall|i: int| 0 <= i < index ==> (#[trigger] contracts[i]).codecs.len() <= MAX_VARINT,
        decreases count - index,
    {
        proof {
            lemma_flat_next(contracts, encoding, index as int);
            lemma_flat_front(contracts, encoding, index + 1);
        }
        sum = match add_contract_len(sum, &schema.contracts[index]) {
            None => return None,
            Some(sum) => sum,
        };
        index = index + 1;
    }
    proof {
        assert(contracts.take(count as int) =~= contracts);
    }
    Some(sum)
}

/// All counts of a schema have an encoding.
pub open spec fn encodable_schema(schema: SchemaContent) -> bool {
    &&& schema.contracts.len() <= MAX_VARINT
    &&& forall|i: int|
        0 <= i < schema.contracts.len() ==> (#[trigger] schema.contracts[i]).codecs.len()
            <= MAX_VARINT
}

/// All counts of an offer have an encoding.
pub open spec fn encodable_offer(offer: OfferContent) -> bool {
    &&& offer.protocols.len() <= MAX_VARINT
    &&& offer.capabilities.len() <= MAX_VARINT
    &&& offer.schemas.len() <= MAX_VARINT
    &&& forall|i: int|
        0 <= i < offer.schemas.len() ==> encodable_schema(#[trigger] offer.schemas[i])
}

/// How long the body of an offer is, where that can be told.
pub fn offer_body_len(offer: &CompatibilityOffer) -> (len: Option<usize>)
    ensures
        match len {
            Some(len) => len == offer_bytes(offer@).len() && encodable_offer(offer@),
            None => offer_bytes(offer@).len() > usize::MAX,
        },
{
    let ghost schemas = offer@.schemas;
    let ghost encoding = schema_offer_encoding();
    let count: usize = offer.schemas.len();
    proof {
        lemma_entry_lens();
        lemma_flat_len(offer.protocols@, protocol_encoding(), 32);
        lemma_flat_len(offer.capabilities@, capability_offer_encoding(), 17);
        lemma_flat_len_at_least(schemas, encoding, 17);
        assert(schemas.len() == count);
    }
    let total: usize = match add_list_len(0, offer.protocols.len(), 32) {
        None => return None,
        Some(total) => total,
    };
    let total: usize = match add_list_len(total, offer.capabilities.len(), 17) {
        None => return None,
        Some(total) => total,
    };
    let len: usize = match count_len(count) {
        None => return None,
        Some(len) => len,
    };
    let mut sum: usize = match total.checked_add(len) {
        None => return None,
        Some(sum) => sum,
    };
    let ghost base = sum;
    let mut index: usize = 0;
    while index < count
        invariant
            index <= count,
            count == offer.schemas@.len(),
            schemas == schema_contents(offer.schemas@),
            schemas == offer@.schemas,
            encoding == schema_offer_encoding(),
            base == list_bytes(offer.protocols@, protocol_encoding()).len() + list_bytes(
                offer.capabilities@,
                capability_offer_encoding(),
            ).len() + varint_bytes(count as nat).len(),
            sum == base + flat(schemas.take(index as int), encoding).len(),
            forall|i: int| 0 <= i < index ==> encodable_schema(#[trigger] schemas[i]),
        decreases count - index,
    {
        proof {
            lemma_flat_next(schemas, encoding, index as int);
            lemma_flat_front(schemas, encoding, index + 1);
        }
        sum = match add_schema_len(sum, &offer.schemas[index]) {
            None => return None,
            Some(sum) => sum,
        };
        index = index + 1;
    }
    proof {
        assert(schemas.take(count as int) =~= schemas);
    }
    Some(sum)
}

/// How long the body of a proposal is, where that can be told.
pub fn proposal_body_len(contract: &NegotiatedContract) -> (len: Option<usize>)
    ensures
        match len {
            Some(len) => {
                &&& len == proposal_bytes(contract@).len()
                &&& contract@.capabilities.len() <= MAX_VARINT
                &&& contract@.schemas.len() <= MAX_VARINT
            },
            None => proposal_bytes(contract@).len() > usize::MAX,
        },
{
    proof {
        lemma_entry_lens();
        lemma_id_len(contract@.protocol.id.value);
        lemma_id_len(contract@.protocol.revision.value);
        lemma_flat_len(contract@.capabilities, capability_encoding(), 16);
        lemma_flat_len(contract@.schemas, binding_encoding(), 48);
    }
    match add_list_len(32, contract.capability_count(), 16) {
        None => None,
        Some(total) => add_list_len(total, contract.schema_count(), 48),
    }
}

fn push_id(body: &mut Vec<u8>, id: u128)
    ensures
        final(body)@ == old(body)@ + id_bytes(id),
{
    let mut bytes: [u8; 16] = [0; 16];
    let mut left: usize = 16;
    let mut high: u128 = id;
    proof {
        lemma_be_bytes_len(id as nat, 16);
        assert(bytes@.subrange(16, 16) =~= Seq::<u8>::empty());
        assert(be_bytes(id as nat, 16) + Seq::<u8>::empty() =~= be_bytes(id as nat, 16));
    }
    while left > 0
        invariant
            left <= 16,
            be_bytes(high as nat, left as nat) + bytes@.subrange(left as int, 16) == be_bytes(
                id as nat,
                16,
            ),
        decreases left,
    {
        let ghost before = bytes@.subrange(left as int, 16);
        left = left - 1;
        bytes[left] = (high % 256) as u8;
        proof {
            let front = be_bytes((high / 256) as nat, left as nat);
            assert(be_bytes(high as nat, (left + 1) as nat) == front.push((high % 256) as u8));
            assert(front.push((high % 256) as u8) + before =~= front + bytes@.subrange(
                left as int,
                16,
            ));
        }
        high = high / 256;
    }
    proof {
        assert(bytes@ =~= be_bytes(high as nat, 0) + bytes@.subrange(0, 16));
    }
    body.extend_from_slice(bytes.as_slice());
    proof {
        assert(body@ =~= old(body)@ + id_bytes(id));
    }
}

fn push_count(body: &mut Vec<u8>, count: usize)
    requires
        count <= MAX_VARINT,
    ensures
        final(body)@ == old(body)@ + varint_bytes(count as nat),
{
    if let Ok(encoded) = encode_varint(count as u64) {
        body.extend_from_slice(encoded.as_slice());
    }
    proof {
        assert(body@ =~= old(body)@ + varint_bytes(count as nat));
    }
}

fn encode_requirement(requirement: RequirementLevel) -> (number: u8)
    ensures
        number == requirement_number(requirement),
{
    match requirement {
        RequirementLevel::Optional => 0,
        RequirementLevel::Required => 1,
    }
}

#[verifier::loop_isolation(false)]
fn push_protocols(body: &mut Vec<u8>, protocols: &Vec<ProtocolContract>)
    requires
        protocols@.len() <= MAX_VARINT,
    ensures
        final(body)@ == old(body)@ + list_bytes(protocols@, protocol_encoding()),
{
    let ghost encoding = protocol_encoding();
    push_count(body, protocols.len());
    let ghost head = body@;
    proof {
        assert(protocols@.take(0) =~= Seq::empty());
        assert(head + flat(protocols@.take(0), encoding) =~= head);
    }
    let mut index: usize = 0;
    while index < protocols.len()
        invariant
            index <= protocols@.len(),
            body@ == head + flat(protocols@.take(index as int), encoding),
        decreases protocols@.len() - index,
    {
        proof {
            lemma_flat_next(protocols@, encoding, index as int);
        }
        push_id(body, protocols[index].id.value);
        push_id(body, protocols[index].revision.value);
        proof {
            assert(body@ =~= head + flat(protocols@.take(index + 1), encoding));
        }
        index = index + 1;
    }
    proof {
        assert(protocols@.take(index as int) =~= protocols@);
        assert(body@ =~= old(body)@ + list_bytes(protocols@, encoding));
    }
}

#[verifier::loop_isolation(false)]
fn push_capability_offers(body: &mut Vec<u8>, capabilities: &Vec<CapabilityOffer>)
    requires
        capabilities@.len() <= MAX_VARINT,
    ensures
        final(body)@ == old(body)@ + list_bytes(capabilities@, capability_offer_encoding()),
{
    let ghost encoding = capability_offer_encoding();
    push_count(body, capabilities.len());
    let ghost head = body@;
    proof {
        assert(capabilities@.take(0) =~= Seq::empty());
        assert(head + flat(capabilities@.take(0), encoding) =~= head);
    }
    let mut index: usize = 0;
    while index < capabilities.len()
        invariant
            index <= capabilities@.len(),
            body@ == head + flat(capabilities@.take(index as int), encoding),
        decreases capabilities@.len() - index,
    {
        proof {
            lemma_flat_next(capabilities@, encoding, index as int);
        }
        push_id(body, capabilities[index].id.value);
        body.push(encode_requirement(capabilities[index].requirement));
        proof {
            assert(body@ =~= head + flat(capabilities@.take(index + 1), encoding));
        }
        index = index + 1;
    }
    proof {
        assert(capabilities@.take(index as int) =~= capabilities@);
        assert(body@ =~= old(body)@ + list_bytes(capabilities@, encoding));
    }
}

#[verifier::loop_isolation(false)]
fn push_contract_offer(body: &mut Vec<u8>, contract: &SchemaContractOffer)
    requires
        contract.codecs@.len() <= MAX_VARINT,
    ensures
        final(body)@ == old(body)@ + contract_offer_bytes(contract@),
{
    let ghost encoding = codec_encoding();
    let codecs = &contract.codecs;
    push_id(body, contract.contract_id.value);
    push_count(body, codecs.len());
    let ghost head = body@;
    proof {
        assert(codecs@.take(0) =~= Seq::empty());
        assert(head + flat(codecs@.take(0), encoding) =~= head);
    }
    let mut index: usize = 0;
    while index < codecs.len()
        invariant
            index <= codecs@.len(),
            body@ == head + flat(codecs@.take(index as int), encoding),
        decreases codecs@.len() - index,
    {
        proof {
            lemma_flat_next(codecs@, encoding, index as int);
        }
        push_id(body, codecs[index].value);
        proof {
            assert(body@ =~= head + flat(codecs@.take(index + 1), encoding));
        }
        index = index + 1;
    }
    proof {
        assert(codecs@.take(index as int) =~= codecs@);
        assert(body@ =~= old(body)@ + contract_offer_bytes(contract@));
    }
}

#[verifier::loop_isolation(false)]
fn push_schema_offer(body: &mut Vec<u8>, schema: &SchemaOffer)
    requires
        encodable_schema(schema@),
    ensures
        final(body)@ == old(body)@ + schema_offer_bytes(schema@),
{
    let ghost encoding = contract_offer_encoding();
    let ghost contents = schema@.contracts;
    let contracts = &schema.contracts;
    push_id(body, schema.id.value);
    body.push(encode_requirement(schema.requirement));
    push_count(body, contracts.len());
    let ghost head = body@;
    proof {
        assert(contents.take(0) =~= Seq::empty());
        assert(head + flat(contents.take(0), encoding) =~= head);
    }
    let mut index: usize = 0;
    while index < contracts.len()
        invariant
            index <= contracts@.len(),
            body@ == head + flat(contents.take(index as int), encoding),
        decreases contracts@.len() - index,
    {
        proof {
            lemma_flat_next(contents, encoding, index as int);
            assert(contents[index as int] == contracts@[index as int]@);
        }
        push_contract_offer(body, &contracts[index]);
        proof {
            assert(body@ =~= head + flat(contents.take(index + 1), encoding));
        }
        index = index + 1;
    }
    proof {
        assert(contents.take(index as int) =~= contents);
        assert(body@ =~= old(body)@ + schema_offer_bytes(schema@));
    }
}

#[verifier::loop_isolation(false)]
fn push_schema_offers(body: &mut Vec<u8>, schemas: &Vec<SchemaOffer>)
    requires
        schemas@.len() <= MAX_VARINT,
        forall|i: int|
            0 <= i < schemas@.len() ==> encodable_schema(#[trigger] schema_contents(schemas@)[i]),
    ensures
        final(body)@ == old(body)@ + list_bytes(
            schema_contents(schemas@),
            schema_offer_encoding(),
        ),
{
    let ghost encoding = schema_offer_encoding();
    let ghost contents = schema_contents(schemas@);
    push_count(body, schemas.len());
    let ghost head = body@;
    proof {
        assert(contents.take(0) =~= Seq::empty());
        assert(head + flat(contents.take(0), encoding) =~= head);
    }
    let mut index: usize = 0;
    while index < schemas.len()
        invariant
            index <= schemas@.len(),
            body@ == head + flat(contents.take(index as int), encoding),
        decreases schemas@.len() - index,
    {
        proof {
            lemma_flat_next(contents, encoding, index as int);
            assert(contents[index as int] == schemas@[index as int]@);
        }
        push_schema_offer(body, &schemas[index]);
        proof {
            assert(body@ =~= head + flat(contents.take(index + 1), encoding));
        }
        index = index + 1;
    }
    proof {
        assert(contents.take(index as int) =~= contents);
        assert(body@ =~= old(body)@ + list_bytes(contents, encoding));
    }
}

/// Whether a body keeps to both sides' limit.
fn ensure_body_fits(body_len: usize, max_body_bytes: u64) -> (fits: Result<(), NegotiationOutcome>)
    ensures
        body_len <= max_body_bytes ==> fits is Ok,
        body_len > max_body_bytes ==> fits == Err::<(), _>(
            NegotiationOutcome::ResourceLimitExceeded,
        ),
{
    if body_len as u64 > max_body_bytes {
        Err(NegotiationOutcome::ResourceLimitExceeded)
    } else {
        Ok(())
    }
}

/// A body may be sent: it fits into memory and keeps to the limit.
pub open spec fn body_fits(body: Seq<u8>, max_body_bytes: u64) -> bool {
    body.len() <= usize::MAX && body.len() <= max_body_bytes
}

/// Encodes an offer. A label never goes on the wire.
pub fn encode_offer(offer: &CompatibilityOffer, max_body_bytes: u64, memory: &mut Memory) -> (body: Result<
    Vec<u8>,
    NegotiationOutcome,
>)
    requires
        !old(memory).was_refused(),
    ensures
        memory_kept(*old(memory), *final(memory)),
        offer.diagnostic_label is Some ==> body == Err::<Vec<u8>, _>(
            NegotiationOutcome::MalformedOffer,
        ),
        offer.diagnostic_label is None && (final(memory).was_refused() || !body_fits(
            offer_bytes(offer@),
            max_body_bytes,
        )) ==> body == Err::<Vec<u8>, _>(NegotiationOutcome::ResourceLimitExceeded),
        offer.diagnostic_label is None && !final(memory).was_refused() && body_fits(
            offer_bytes(offer@),
            max_body_bytes,
        ) ==> body is Ok && body->Ok_0@ == offer_bytes(offer@),
        final(memory).was_refused() ==> offer.diagnostic_label is None && body_fits(
            offer_bytes(offer@),
            max_body_bytes,
        ),
        offer.diagnostic_label is None && !final(memory).was_refused() ==> (body is Ok
            <==> offer_bytes(offer@).len() <= max_body_bytes && offer_bytes(offer@).len()
            <= usize::MAX),
{
    if offer.diagnostic_label.is_some() {
        return Err(NegotiationOutcome::MalformedOffer);
    }
    let body_len: usize = match offer_body_len(offer) {
        Some(body_len) => body_len,
        None => return Err(NegotiationOutcome::ResourceLimitExceeded),
    };
    if let Err(outcome) = ensure_body_fits(body_len, max_body_bytes) {
        return Err(outcome);
    }
    let mut body: Vec<u8> = match memory.reserve(body_len) {
        Some(body) => body,
        None => return Err(NegotiationOutcome::ResourceLimitExceeded),
    };
    push_protocols(&mut body, &offer.protocols);
    push_capability_offers(&mut body, &offer.capabilities);
    push_schema_offers(&mut body, &offer.schemas);
    proof {
        assert(body@ =~= offer_bytes(offer@));
    }
    Ok(body)
}

#[verifier::loop_isolation(false)]
fn push_capabilities(body: &mut Vec<u8>, capabilities: &Vec<CapabilityId>)
    requires
        capabilities@.len() <= MAX_VARINT,
    ensures
        final(body)@ == old(body)@ + list_bytes(capabilities@, capability_encoding()),
{
    let ghost encoding = capability_encoding();
    push_count(body, capabilities.len());
    let ghost head = body@;
    proof {
        assert(capabilities@.take(0) =~= Seq::empty());
        assert(head + flat(capabilities@.take(0), encoding) =~= head);
    }
    let mut index: usize = 0;
    while index < capabilities.len()
        invariant
            index <= capabilities@.len(),
            body@ == head + flat(capabilities@.take(index as int), encoding),
        decreases capabilities@.len() - index,
    {
        proof {
            lemma_flat_next(capabilities@, encoding, index as int);
        }
        push_id(body, capabilities[index].value);
        proof {
            assert(body@ =~= head + flat(capabilities@.take(index + 1), encoding));
        }
        index = index + 1;
    }
    proof {
        assert(capabilities@.take(index as int) =~= capabilities@);
        assert(body@ =~= old(body)@ + list_bytes(capabilities@, encoding));
    }
}

#[verifier::loop_isolation(false)]
fn push_bindings(body: &mut Vec<u8>, schemas: &Vec<SchemaBinding>)
    requires
        schemas@.len() <= MAX_VARINT,
    ensures
        final(body)@ == old(body)@ + list_bytes(schemas@, binding_encoding()),
{
    let ghost encoding = binding_encoding();
    push_count(body, schemas.len());
    let ghost head = body@;
    proof {
        assert(schemas@.take(0) =~= Seq::empty());
        assert(head + flat(schemas@.take(0), encoding) =~= head);
    }
    let mut index: usize = 0;
    while index < schemas.len()
        invariant
            index <= schemas@.len(),
            body@ == head + flat(schemas@.take(index as int), encoding),
        decreases schemas@.len() - index,
    {
        proof {
            lemma_flat_next(schemas@, encoding, index as int);
        }
        push_id(body, schemas[index].schema_id.value);
        push_id(body, schemas[index].selected.contract_id.value);
        push_id(body, schemas[index].selected.codec_id.value);
        proof {
            assert(body@ =~= head + flat(schemas@.take(index + 1), encoding));
        }
        index = index + 1;
    }
    proof {
        assert(schemas@.take(index as int) =~= schemas@);
        assert(body@ =~= old(body)@ + list_bytes(schemas@, encoding));
    }
}

/// Encodes a proposal.
pub fn encode_proposal(contract: &NegotiatedContract, max_body_bytes: u64, memory: &mut Memory) -> (body:
    Result<Vec<u8>, NegotiationOutcome>)
    requires
        !old(memory).was_refused(),
    ensures
        memory_kept(*old(memory), *final(memory)),
        final(memory).was_refused() || !body_fits(proposal_bytes(contract@), max_body_bytes)
            ==> body == Err::<Vec<u8>, _>(NegotiationOutcome::ResourceLimitExceeded),
        !final(memory).was_refused() && body_fits(proposal_bytes(contract@), max_body_bytes)
            ==> body is Ok && body->Ok_0@ == proposal_bytes(contract@),
        final(memory).was_refused() ==> body_fits(proposal_bytes(contract@), max_body_bytes),
        !final(memory).was_refused() ==> (body is Ok <==> proposal_bytes(contract@).len()
            <= max_body_bytes && proposal_bytes(contract@).len() <= usize::MAX),
{
    let body_len: usize = match proposal_body_len(contract) {
        Some(body_len) => body_len,
        None => return Err(NegotiationOutcome::ResourceLimitExceeded),
    };
    if let Err(outcome) = ensure_body_fits(body_len, max_body_bytes) {
        return Err(outcome);
    }
    let mut body: Vec<u8> = match memory.reserve(body_len) {
        Some(body) => body,
        None => return Err(NegotiationOutcome::ResourceLimitExceeded),
    };
    let protocol = contract.protocol();
    push_id(&mut body, protocol.id.value);
    push_id(&mut body, protocol.revision.value);
    push_capabilities(&mut body, contract.enabled_capabilities());
    push_bindings(&mut body, contract.selected_schemas());
    proof {
        assert(body@ =~= proposal_bytes(contract@));
    }
    Ok(body)
}

/// What the entries of a list account for beyond their own width.
pub open spec fn total<T>(items: Seq<T>, cost: spec_fn(T) -> nat) -> nat
    decreases items.len(),
{
    if items.len() == 0 {
        0
    } else {
        total(items.drop_last(), cost) + cost(items.last())
    }
}

/// Nothing beyond the width.
pub open spec fn no_cost<T>() -> spec_fn(T) -> nat {
    |item: T| 0
}

pub open spec fn contract_cost() -> spec_fn(ContractContent) -> nat {
    |contract: ContractContent| contract.codecs.len() * 16
}

pub open spec fn schema_cost() -> spec_fn(SchemaContent) -> nat {
    |schema: SchemaContent|
        schema.contracts.len() * 16 + total(schema.contracts, contract_cost())
}

/// What an offer accounts for.
pub open spec fn offer_cost(offer: OfferContent) -> nat {
    offer.protocols.len() * 32 + offer.capabilities.len() * 17 + offer.schemas.len() * 17 + total(
        offer.schemas,
        schema_cost(),
    )
}

/// A schema keeps to the limits on its counts.
pub open spec fn schema_within(schema: SchemaContent, limits: OfferLimits) -> bool {
    &&& schema.contracts.len() <= limits.max_contracts_per_schema
    &&& forall|i: int|
        0 <= i < schema.contracts.len() ==> (#[trigger] schema.contracts[i]).codecs.len()
            <= limits.max_codecs_per_contract
}

/// An offer keeps to the limits.
pub open spec fn offer_within(offer: OfferContent, limits: OfferLimits) -> bool {
    &&& offer.protocols.len() <= limits.max_protocols
    &&& offer.capabilities.len() <= limits.max_capabilities
    &&& offer.schemas.len() <= limits.max_schemas
    &&& forall|i: int|
        0 <= i < offer.schemas.len() ==> schema_within(#[trigger] offer.schemas[i], limits)
    &&& offer_cost(offer) <= limits.max_offer_accounted_bytes
}

/// A proposal keeps to the limits.
pub open spec fn proposal_within(contract: SelectionContent, limits: OfferLimits) -> bool {
    &&& contract.capabilities.len() <= limits.max_capabilities
    &&& contract.schemas.len() <= limits.max_schemas
    &&& 32 + contract.capabilities.len() * 16 + contract.schemas.len() * 48
        <= limits.max_offer_accounted_bytes
}

/// Entries that were written one behind the other are read back.
proof fn lemma_items_round_trip<T>(
    item: spec_fn(Seq<T>, Cursor) -> Parsed<T>,
    encoding: spec_fn(T) -> Seq<u8>,
    cost: spec_fn(T) -> nat,
    items: Seq<T>,
    tail: Seq<u8>,
    used: nat,
    budget: nat,
)
    requires
        used + total(items, cost) <= budget,
        forall|i: int, rest: Seq<u8>, at: nat|
            0 <= i < items.len() && at + cost(items[i]) <= budget ==> #[trigger] item(
                items.take(i),
                Cursor { rest: encoding(items[i]) + rest, used: at },
            ) == Ok::<_, BodyDecodeError>(
                (items[i], Cursor { rest, used: at + cost(items[i]) }),
            ),
    ensures
        items_at(
            item,
            Cursor { rest: flat(items, encoding) + tail, used },
            items.len(),
        ) == Ok::<_, BodyDecodeError>(
            (items, Cursor { rest: tail, used: used + total(items, cost) }),
        ),
    decreases items.len(),
{
    if items.len() == 0 {
        assert(flat(items, encoding) + tail =~= tail);
        assert(items =~= Seq::empty());
    } else {
        let front = items.drop_last();
        let last = items.last();
        let rest = encoding(last) + tail;
        assert forall|i: int, after: Seq<u8>, at: nat|
            0 <= i < front.len() && at + cost(front[i]) <= budget implies #[trigger] item(
            front.take(i),
            Cursor { rest: encoding(front[i]) + after, used: at },
        ) == Ok::<_, BodyDecodeError>((front[i], Cursor { rest: after, used: at + cost(front[i]) })) by {
            assert(front.take(i) =~= items.take(i));
            assert(front[i] == items[i]);
        }
        lemma_items_round_trip(item, encoding, cost, front, rest, used, budget);
        assert(flat(items, encoding) + tail =~= flat(front, encoding) + rest);
        let index = (items.len() - 1) as int;
        assert(items.take(index) =~= front);
        assert(items[index] == last);
        let at = used + total(front, cost);
        assert(item(items.take(index), Cursor { rest: encoding(items[index]) + tail, used: at })
            == Ok::<_, BodyDecodeError>(
            (items[index], Cursor { rest: tail, used: at + cost(items[index]) }),
        ));
        assert(front.push(last) =~= items);
    }
}

/// A list that was written is read back.
proof fn lemma_list_round_trip<T>(
    item: spec_fn(Seq<T>, Cursor) -> Parsed<T>,
    encoding: spec_fn(T) -> Seq<u8>,
    cost: spec_fn(T) -> nat,
    items: Seq<T>,
    tail: Seq<u8>,
    used: nat,
    bounds: ListBounds,
)
    requires
        items.len() <= bounds.limit,
        items.len() <= MAX_VARINT,
        used + items.len() * bounds.width + total(items, cost) <= bounds.budget,
        forall|i: int, rest: Seq<u8>, at: nat|
            0 <= i < items.len() && at + cost(items[i]) <= bounds.budget ==> #[trigger] item(
                items.take(i),
                Cursor { rest: encoding(items[i]) + rest, used: at },
            ) == Ok::<_, BodyDecodeError>(
                (items[i], Cursor { rest, used: at + cost(items[i]) }),
            ),
    ensures
        list_at(item, Cursor { rest: list_bytes(items, encoding) + tail, used }, bounds) == Ok::<
            _,
            BodyDecodeError,
        >(
            (
                items,
                Cursor {
                    rest: tail,
                    used: used + items.len() * bounds.width + total(items, cost),
                },
            ),
        ),
{
    let entries = flat(items, encoding) + tail;
    lemma_split_written(items.len() as u64, entries);
    assert(list_bytes(items, encoding) + tail =~= varint_bytes(items.len()) + entries);
    lemma_items_round_trip(
        item,
        encoding,
        cost,
        items,
        tail,
        used + items.len() * bounds.width,
        bounds.budget as nat,
    );
}

proof fn lemma_id_round_trip(id: u128, rest: Seq<u8>, used: nat)
    ensures
        id_at(Cursor { rest: id_bytes(id) + rest, used }) == Ok::<_, BodyDecodeError>(
            (id, Cursor { rest, used }),
        ),
{
    lemma_id_len(id);
    reveal_with_fuel(byte_space, 17);
    lemma_be_round_trip(id as nat, 16);
    let whole = id_bytes(id) + rest;
    assert(whole.take(16) =~= id_bytes(id));
    assert(whole.skip(16) =~= rest);
}

proof fn lemma_requirement_round_trip(requirement: RequirementLevel, rest: Seq<u8>, used: nat)
    ensures
        requirement_at(
            Cursor { rest: seq![requirement_number(requirement)] + rest, used },
        ) == Ok::<_, BodyDecodeError>((requirement, Cursor { rest, used })),
{
    let whole = seq![requirement_number(requirement)] + rest;
    assert(whole.skip(1) =~= rest);
}

proof fn lemma_protocol_round_trip(protocol: ProtocolContract, rest: Seq<u8>, used: nat)
    ensures
        protocol_at(Cursor { rest: protocol_bytes(protocol) + rest, used }) == Ok::<
            _,
            BodyDecodeError,
        >((protocol, Cursor { rest, used })),
{
    let revision = id_bytes(protocol.revision.value) + rest;
    assert(protocol_bytes(protocol) + rest =~= id_bytes(protocol.id.value) + revision);
    lemma_id_round_trip(protocol.id.value, revision, used);
    lemma_id_round_trip(protocol.revision.value, rest, used);
}

proof fn lemma_capability_offer_round_trip(offer: CapabilityOffer, rest: Seq<u8>, used: nat)
    ensures
        capability_offer_at(Cursor { rest: capability_offer_bytes(offer) + rest, used }) == Ok::<
            _,
            BodyDecodeError,
        >((offer, Cursor { rest, used })),
{
    let requirement = seq![requirement_number(offer.requirement)] + rest;
    assert(capability_offer_bytes(offer) + rest =~= id_bytes(offer.id.value) + requirement);
    lemma_id_round_trip(offer.id.value, requirement, used);
    lemma_requirement_round_trip(offer.requirement, rest, used);
}

proof fn lemma_no_cost<T>(items: Seq<T>)
    ensures
        total(items, no_cost::<T>()) == 0,
    decreases items.len(),
{
    if items.len() > 0 {
        lemma_no_cost(items.drop_last());
    }
}

proof fn lemma_contract_offer_round_trip(
    contract: ContractContent,
    limits: OfferLimits,
    rest: Seq<u8>,
    used: nat,
)
    requires
        contract.codecs.len() <= limits.max_codecs_per_contract,
        contract.codecs.len() <= MAX_VARINT,
        used + contract_cost()(contract) <= limits.max_offer_accounted_bytes,
    ensures
        contract_offer_at(
            Cursor { rest: contract_offer_bytes(contract) + rest, used },
            limits,
        ) == Ok::<_, BodyDecodeError>(
            (contract, Cursor { rest, used: used + contract_cost()(contract) }),
        ),
{
    let codecs = contract.codecs;
    let listed = list_bytes(codecs, codec_encoding()) + rest;
    assert(contract_offer_bytes(contract) + rest =~= id_bytes(contract.contract_id.value) + listed);
    lemma_id_round_trip(contract.contract_id.value, listed, used);
    lemma_no_cost(codecs);
    let bounds = offer_bounds(limits, limits.max_codecs_per_contract, 16);
    assert forall|i: int, after: Seq<u8>, at: nat|
        0 <= i < codecs.len() && at + no_cost::<CodecId>()(codecs[i])
            <= bounds.budget implies #[trigger] codec_item()(
        codecs.take(i),
        Cursor { rest: codec_encoding()(codecs[i]) + after, used: at },
    ) == Ok::<_, BodyDecodeError>(
        (codecs[i], Cursor { rest: after, used: at + no_cost::<CodecId>()(codecs[i]) }),
    ) by {
        lemma_id_round_trip(codecs[i].value, after, at);
    }
    lemma_list_round_trip(
        codec_item(),
        codec_encoding(),
        no_cost::<CodecId>(),
        codecs,
        rest,
        used,
        bounds,
    );
}

proof fn lemma_schema_offer_round_trip(
    schema: SchemaContent,
    limits: OfferLimits,
    rest: Seq<u8>,
    used: nat,
)
    requires
        schema_within(schema, limits),
        encodable_schema(schema),
        used + schema_cost()(schema) <= limits.max_offer_accounted_bytes,
    ensures
        schema_offer_at(Cursor { rest: schema_offer_bytes(schema) + rest, used }, limits) == Ok::<
            _,
            BodyDecodeError,
        >((schema, Cursor { rest, used: used + schema_cost()(schema) })),
{
    let contracts = schema.contracts;
    let listed = list_bytes(contracts, contract_offer_encoding()) + rest;
    let required = seq![requirement_number(schema.requirement)] + listed;
    assert(schema_offer_bytes(schema) + rest =~= id_bytes(schema.id.value) + required);
    lemma_id_round_trip(schema.id.value, required, used);
    lemma_requirement_round_trip(schema.requirement, listed, used);
    let bounds = offer_bounds(limits, limits.max_contracts_per_schema, 16);
    assert forall|i: int, after: Seq<u8>, at: nat|
        0 <= i < contracts.len() && at + contract_cost()(contracts[i])
            <= bounds.budget implies #[trigger] contract_offer_item(limits)(
        contracts.take(i),
        Cursor { rest: contract_offer_encoding()(contracts[i]) + after, used: at },
    ) == Ok::<_, BodyDecodeError>(
        (contracts[i], Cursor { rest: after, used: at + contract_cost()(contracts[i]) }),
    ) by {
        lemma_contract_offer_round_trip(contracts[i], limits, after, at);
    }
    lemma_list_round_trip(
        contract_offer_item(limits),
        contract_offer_encoding(),
        contract_cost(),
        contracts,
        rest,
        used,
        bounds,
    );
}

/// An offer that keeps to the receiver's limits is read, and what follows it is refused.
proof fn lemma_offer_followed(offer: OfferContent, limits: OfferLimits, tail: Seq<u8>)
    requires
        offer_within(offer, limits),
        encodable_offer(offer),
    ensures
        offer_at(offer_bytes(offer) + tail, limits) == (if tail.len() == 0 {
            Ok::<_, BodyDecodeError>(offer)
        } else {
            Err(BodyDecodeError::Protocol(NegotiationWireError::TrailingBytes))
        }),
{
    let schemas = list_bytes(offer.schemas, schema_offer_encoding()) + tail;
    let capabilities = list_bytes(offer.capabilities, capability_offer_encoding());
    let used_protocols = offer.protocols.len() * 32;
    let used_capabilities = used_protocols + offer.capabilities.len() * 17;
    lemma_no_cost(offer.protocols);
    lemma_no_cost(offer.capabilities);
    assert(offer_bytes(offer) + tail =~= list_bytes(offer.protocols, protocol_encoding()) + (capabilities
        + schemas));
    assert forall|i: int, after: Seq<u8>, at: nat|
        0 <= i < offer.protocols.len() && at + no_cost::<ProtocolContract>()(offer.protocols[i])
            <= limits.max_offer_accounted_bytes implies #[trigger] protocol_item()(
        offer.protocols.take(i),
        Cursor { rest: protocol_encoding()(offer.protocols[i]) + after, used: at },
    ) == Ok::<_, BodyDecodeError>(
        (
            offer.protocols[i],
            Cursor { rest: after, used: at + no_cost::<ProtocolContract>()(offer.protocols[i]) },
        ),
    ) by {
        lemma_protocol_round_trip(offer.protocols[i], after, at);
    }
    lemma_list_round_trip(
        protocol_item(),
        protocol_encoding(),
        no_cost::<ProtocolContract>(),
        offer.protocols,
        capabilities + schemas,
        0,
        offer_bounds(limits, limits.max_protocols, 32),
    );
    assert forall|i: int, after: Seq<u8>, at: nat|
        0 <= i < offer.capabilities.len() && at + no_cost::<CapabilityOffer>()(
            offer.capabilities[i],
        ) <= limits.max_offer_accounted_bytes implies #[trigger] capability_offer_item()(
        offer.capabilities.take(i),
        Cursor { rest: capability_offer_encoding()(offer.capabilities[i]) + after, used: at },
    ) == Ok::<_, BodyDecodeError>(
        (
            offer.capabilities[i],
            Cursor { rest: after, used: at + no_cost::<CapabilityOffer>()(offer.capabilities[i]) },
        ),
    ) by {
        lemma_capability_offer_round_trip(offer.capabilities[i], after, at);
    }
    lemma_list_round_trip(
        capability_offer_item(),
        capability_offer_encoding(),
        no_cost::<CapabilityOffer>(),
        offer.capabilities,
        schemas,
        used_protocols,
        offer_bounds(limits, limits.max_capabilities, 17),
    );
    assert forall|i: int, after: Seq<u8>, at: nat|
        0 <= i < offer.schemas.len() && at + schema_cost()(offer.schemas[i])
            <= limits.max_offer_accounted_bytes implies #[trigger] schema_offer_item(limits)(
        offer.schemas.take(i),
        Cursor { rest: schema_offer_encoding()(offer.schemas[i]) + after, used: at },
    ) == Ok::<_, BodyDecodeError>(
        (offer.schemas[i], Cursor { rest: after, used: at + schema_cost()(offer.schemas[i]) }),
    ) by {
        lemma_schema_offer_round_trip(offer.schemas[i], limits, after, at);
    }
    lemma_list_round_trip(
        schema_offer_item(limits),
        schema_offer_encoding(),
        schema_cost(),
        offer.schemas,
        tail,
        used_capabilities,
        offer_bounds(limits, limits.max_schemas, 17),
    );
}

/// An offer that keeps to the receiver's limits survives the wire.
pub proof fn law_offer_round_trip(offer: OfferContent, limits: OfferLimits)
    requires
        offer_within(offer, limits),
        encodable_offer(offer),
    ensures
        offer_at(offer_bytes(offer), limits) == Ok::<_, BodyDecodeError>(offer),
{
    assert(offer_bytes(offer) + Seq::<u8>::empty() =~= offer_bytes(offer));
    lemma_offer_followed(offer, limits, Seq::empty());
}

/// A proposal that keeps to the receiver's limits and selects nothing twice is read, and what
/// follows it is refused.
proof fn lemma_proposal_followed(contract: SelectionContent, limits: OfferLimits, tail: Seq<u8>)
    requires
        contract.wf(),
        proposal_within(contract, limits),
        contract.capabilities.len() <= MAX_VARINT,
        contract.schemas.len() <= MAX_VARINT,
    ensures
        proposal_at(proposal_bytes(contract) + tail, limits) == (if tail.len() == 0 {
            Ok::<_, BodyDecodeError>(contract)
        } else {
            Err(BodyDecodeError::Protocol(NegotiationWireError::TrailingBytes))
        }),
{
    let capabilities = contract.capabilities;
    let schemas = contract.schemas;
    let listed = list_bytes(schemas, binding_encoding()) + tail;
    let both = list_bytes(capabilities, capability_encoding()) + listed;
    assert(proposal_bytes(contract) + tail =~= protocol_bytes(contract.protocol) + both);
    lemma_protocol_round_trip(contract.protocol, both, 0);
    lemma_no_cost(capabilities);
    lemma_no_cost(schemas);
    assert forall|i: int, after: Seq<u8>, at: nat|
        0 <= i < capabilities.len() && at + no_cost::<CapabilityId>()(capabilities[i])
            <= limits.max_offer_accounted_bytes implies #[trigger] capability_item()(
        capabilities.take(i),
        Cursor { rest: capability_encoding()(capabilities[i]) + after, used: at },
    ) == Ok::<_, BodyDecodeError>(
        (
            capabilities[i],
            Cursor { rest: after, used: at + no_cost::<CapabilityId>()(capabilities[i]) },
        ),
    ) by {
        lemma_id_round_trip(capabilities[i].value, after, at);
        assert(!capabilities.take(i).contains(capabilities[i]));
    }
    lemma_list_round_trip(
        capability_item(),
        capability_encoding(),
        no_cost::<CapabilityId>(),
        capabilities,
        listed,
        32,
        proposal_bounds(limits, limits.max_capabilities, 16),
    );
    assert forall|i: int, after: Seq<u8>, at: nat|
        0 <= i < schemas.len() && at + no_cost::<SchemaBinding>()(schemas[i])
            <= limits.max_offer_accounted_bytes implies #[trigger] binding_item()(
        schemas.take(i),
        Cursor { rest: binding_encoding()(schemas[i]) + after, used: at },
    ) == Ok::<_, BodyDecodeError>(
        (schemas[i], Cursor { rest: after, used: at + no_cost::<SchemaBinding>()(schemas[i]) }),
    ) by {
        let binding = schemas[i];
        let codec = id_bytes(binding.selected.codec_id.value) + after;
        let selected = id_bytes(binding.selected.contract_id.value) + codec;
        assert(binding_encoding()(binding) + after =~= id_bytes(binding.schema_id.value) + selected);
        lemma_id_round_trip(binding.schema_id.value, selected, at);
        lemma_id_round_trip(binding.selected.contract_id.value, codec, at);
        lemma_id_round_trip(binding.selected.codec_id.value, after, at);
        if binds(schemas.take(i), binding.schema_id) {
            let j = choose|j: int|
                0 <= j < schemas.take(i).len() && (#[trigger] schemas.take(i)[j]).schema_id
                    == binding.schema_id;
            assert(schemas[j].schema_id != schemas[i].schema_id);
        }
    }
    lemma_list_round_trip(
        binding_item(),
        binding_encoding(),
        no_cost::<SchemaBinding>(),
        schemas,
        tail,
        32 + capabilities.len() * 16,
        proposal_bounds(limits, limits.max_schemas, 48),
    );
}

/// A proposal that keeps to the receiver's limits and selects nothing twice survives the
/// wire.
pub proof fn law_proposal_round_trip(contract: SelectionContent, limits: OfferLimits)
    requires
        contract.wf(),
        proposal_within(contract, limits),
        contract.capabilities.len() <= MAX_VARINT,
        contract.schemas.len() <= MAX_VARINT,
    ensures
        proposal_at(proposal_bytes(contract), limits) == Ok::<_, BodyDecodeError>(contract),
{
    assert(proposal_bytes(contract) + Seq::<u8>::empty() =~= proposal_bytes(contract));
    lemma_proposal_followed(contract, limits, Seq::empty());
}

/// Entries that were read are their encodings, one behind the other.
proof fn lemma_items_canonical<T>(
    item: spec_fn(Seq<T>, Cursor) -> Parsed<T>,
    encoding: spec_fn(T) -> Seq<u8>,
    at: Cursor,
    count: nat,
)
    requires
        forall|seen: Seq<T>, from: Cursor|
            (#[trigger] item(seen, from)) is Ok ==> from.rest == encoding(
                item(seen, from)->Ok_0.0,
            ) + item(seen, from)->Ok_0.1.rest,
    ensures
        items_at(item, at, count) matches Ok((items, next)) ==> {
            &&& items.len() == count
            &&& at.rest == flat(items, encoding) + next.rest
        },
    decreases count,
{
    if items_at(item, at, count) is Ok {
        if count == 0 {
            assert(flat(Seq::<T>::empty(), encoding) + at.rest =~= at.rest);
        } else {
            lemma_items_canonical(item, encoding, at, (count - 1) as nat);
            let (front, from) = items_at(item, at, (count - 1) as nat)->Ok_0;
            let (value, next) = item(front, from)->Ok_0;
            let items = front.push(value);
            assert(items.drop_last() =~= front);
            assert(at.rest =~= flat(items, encoding) + next.rest);
        }
    }
}

/// A list that was read is its encoding.
proof fn lemma_list_canonical<T>(
    item: spec_fn(Seq<T>, Cursor) -> Parsed<T>,
    encoding: spec_fn(T) -> Seq<u8>,
    at: Cursor,
    bounds: ListBounds,
)
    requires
        forall|seen: Seq<T>, from: Cursor|
            (#[trigger] item(seen, from)) is Ok ==> from.rest == encoding(
                item(seen, from)->Ok_0.0,
            ) + item(seen, from)->Ok_0.1.rest,
    ensures
        list_at(item, at, bounds) matches Ok((items, next)) ==> at.rest == list_bytes(
            items,
            encoding,
        ) + next.rest,
{
    if list_at(item, at, bounds) is Ok {
        let (count, next) = list_head(at, bounds)->Ok_0;
        lemma_split_read(at.rest);
        lemma_items_canonical(item, encoding, next, count);
        let (items, last) = items_at(item, next, count)->Ok_0;
        assert(at.rest =~= list_bytes(items, encoding) + last.rest);
    }
}

proof fn lemma_id_canonical(at: Cursor)
    ensures
        id_at(at) matches Ok((id, next)) ==> at.rest == id_bytes(id) + next.rest,
{
    if id_at(at) is Ok {
        reveal_with_fuel(byte_space, 17);
        lemma_be_canonical(at.rest.take(16));
        assert(at.rest =~= at.rest.take(16) + at.rest.skip(16));
    }
}

proof fn lemma_requirement_canonical(at: Cursor)
    ensures
        requirement_at(at) matches Ok((requirement, next)) ==> at.rest
            == seq![requirement_number(requirement)] + next.rest,
{
    if requirement_at(at) is Ok {
        assert(at.rest =~= seq![at.rest[0]] + at.rest.skip(1));
    }
}

proof fn lemma_protocol_canonical(at: Cursor)
    ensures
        protocol_at(at) matches Ok((protocol, next)) ==> at.rest == protocol_bytes(protocol)
            + next.rest,
{
    lemma_id_canonical(at);
    if id_at(at) is Ok {
        lemma_id_canonical(id_at(at)->Ok_0.1);
        if let Ok((protocol, next)) = protocol_at(at) {
            assert(at.rest =~= protocol_bytes(protocol) + next.rest);
        }
    }
}

proof fn lemma_capability_offer_canonical(at: Cursor)
    ensures
        capability_offer_at(at) matches Ok((offer, next)) ==> at.rest == capability_offer_bytes(
            offer,
        ) + next.rest,
{
    lemma_id_canonical(at);
    if id_at(at) is Ok {
        lemma_requirement_canonical(id_at(at)->Ok_0.1);
        if let Ok((offer, next)) = capability_offer_at(at) {
            assert(at.rest =~= capability_offer_bytes(offer) + next.rest);
        }
    }
}

proof fn lemma_contract_offer_canonical(at: Cursor, limits: OfferLimits)
    ensures
        contract_offer_at(at, limits) matches Ok((contract, next)) ==> at.rest
            == contract_offer_bytes(contract) + next.rest,
{
    lemma_id_canonical(at);
    if id_at(at) is Ok {
        assert forall|seen: Seq<CodecId>, from: Cursor|
            (#[trigger] codec_item()(seen, from)) is Ok implies from.rest == codec_encoding()(
            codec_item()(seen, from)->Ok_0.0,
        ) + codec_item()(seen, from)->Ok_0.1.rest by {
            lemma_id_canonical(from);
        }
        lemma_list_canonical(
            codec_item(),
            codec_encoding(),
            id_at(at)->Ok_0.1,
            offer_bounds(limits, limits.max_codecs_per_contract, 16),
        );
        if let Ok((contract, next)) = contract_offer_at(at, limits) {
            assert(at.rest =~= contract_offer_bytes(contract) + next.rest);
        }
    }
}

proof fn lemma_schema_offer_canonical(at: Cursor, limits: OfferLimits)
    ensures
        schema_offer_at(at, limits) matches Ok((schema, next)) ==> at.rest == schema_offer_bytes(
            schema,
        ) + next.rest,
{
    lemma_id_canonical(at);
    if id_at(at) is Ok {
        let required = id_at(at)->Ok_0.1;
        lemma_requirement_canonical(required);
        if requirement_at(required) is Ok {
            assert forall|seen: Seq<ContractContent>, from: Cursor|
                (#[trigger] contract_offer_item(limits)(seen, from)) is Ok implies from.rest
                == contract_offer_encoding()(
                contract_offer_item(limits)(seen, from)->Ok_0.0,
            ) + contract_offer_item(limits)(seen, from)->Ok_0.1.rest by {
                lemma_contract_offer_canonical(from, limits);
            }
            lemma_list_canonical(
                contract_offer_item(limits),
                contract_offer_encoding(),
                requirement_at(required)->Ok_0.1,
                offer_bounds(limits, limits.max_contracts_per_schema, 16),
            );
            if let Ok((schema, next)) = schema_offer_at(at, limits) {
                assert(at.rest =~= schema_offer_bytes(schema) + next.rest);
            }
        }
    }
}

/// Only its own encoding decodes to an offer.
pub proof fn law_offer_canonical(input: Seq<u8>, limits: OfferLimits)
    ensures
        offer_at(input, limits) matches Ok(offer) ==> input == offer_bytes(offer),
{
    if let Ok(offer) = offer_at(input, limits) {
        assert forall|seen: Seq<ProtocolContract>, from: Cursor|
            (#[trigger] protocol_item()(seen, from)) is Ok implies from.rest == protocol_encoding()(
            protocol_item()(seen, from)->Ok_0.0,
        ) + protocol_item()(seen, from)->Ok_0.1.rest by {
            lemma_protocol_canonical(from);
        }
        assert forall|seen: Seq<CapabilityOffer>, from: Cursor|
            (#[trigger] capability_offer_item()(seen, from)) is Ok implies from.rest
            == capability_offer_encoding()(
            capability_offer_item()(seen, from)->Ok_0.0,
        ) + capability_offer_item()(seen, from)->Ok_0.1.rest by {
            lemma_capability_offer_canonical(from);
        }
        assert forall|seen: Seq<SchemaContent>, from: Cursor|
            (#[trigger] schema_offer_item(limits)(seen, from)) is Ok implies from.rest
            == schema_offer_encoding()(
            schema_offer_item(limits)(seen, from)->Ok_0.0,
        ) + schema_offer_item(limits)(seen, from)->Ok_0.1.rest by {
            lemma_schema_offer_canonical(from, limits);
        }
        let start = Cursor { rest: input, used: 0 };
        let bounds = offer_bounds(limits, limits.max_protocols, 32);
        lemma_list_canonical(protocol_item(), protocol_encoding(), start, bounds);
        let second = list_at(protocol_item(), start, bounds)->Ok_0.1;
        let bounds = offer_bounds(limits, limits.max_capabilities, 17);
        lemma_list_canonical(capability_offer_item(), capability_offer_encoding(), second, bounds);
        let third = list_at(capability_offer_item(), second, bounds)->Ok_0.1;
        lemma_list_canonical(
            schema_offer_item(limits),
            schema_offer_encoding(),
            third,
            offer_bounds(limits, limits.max_schemas, 17),
        );
        assert(input =~= offer_bytes(offer));
    }
}

proof fn lemma_capabilities_distinct(at: Cursor, count: nat)
    ensures
        items_at(capability_item(), at, count) matches Ok((items, _)) ==> items.no_duplicates(),
    decreases count,
{
    if count > 0 {
        lemma_capabilities_distinct(at, (count - 1) as nat);
    }
}

proof fn lemma_bindings_distinct(at: Cursor, count: nat)
    ensures
        items_at(binding_item(), at, count) matches Ok((items, _)) ==> binds_once(items),
    decreases count,
{
    if count > 0 {
        lemma_bindings_distinct(at, (count - 1) as nat);
    }
}

/// Only its own encoding decodes to a proposal, and a proposal that decodes selects nothing
/// twice.
pub proof fn law_proposal_canonical(input: Seq<u8>, limits: OfferLimits)
    ensures
        proposal_at(input, limits) matches Ok(contract) ==> {
            &&& input == proposal_bytes(contract)
            &&& contract.wf()
        },
{
    if let Ok(contract) = proposal_at(input, limits) {
        let start = Cursor { rest: input, used: 0 };
        lemma_protocol_canonical(start);
        assert forall|seen: Seq<CapabilityId>, from: Cursor|
            (#[trigger] capability_item()(seen, from)) is Ok implies from.rest
            == capability_encoding()(capability_item()(seen, from)->Ok_0.0)
            + capability_item()(seen, from)->Ok_0.1.rest by {
            lemma_id_canonical(from);
        }
        assert forall|seen: Seq<SchemaBinding>, from: Cursor|
            (#[trigger] binding_item()(seen, from)) is Ok implies from.rest == binding_encoding()(
            binding_item()(seen, from)->Ok_0.0,
        ) + binding_item()(seen, from)->Ok_0.1.rest by {
            lemma_id_canonical(from);
            let second = id_at(from)->Ok_0.1;
            lemma_id_canonical(second);
            let third = id_at(second)->Ok_0.1;
            lemma_id_canonical(third);
            let (binding, next) = binding_item()(seen, from)->Ok_0;
            assert(from.rest =~= binding_bytes(binding) + next.rest);
        }
        let after = protocol_at(start)->Ok_0.1;
        let next = charged(
            after,
            32,
            limits.max_offer_accounted_bytes,
            NegotiationOutcome::ResourceLimitExceeded,
        )->Ok_0;
        let bounds = proposal_bounds(limits, limits.max_capabilities, 16);
        lemma_list_canonical(capability_item(), capability_encoding(), next, bounds);
        let last = list_at(capability_item(), next, bounds)->Ok_0.1;
        let (count, entries) = list_head(next, bounds)->Ok_0;
        lemma_capabilities_distinct(entries, count);
        let (count, entries) = list_head(
            last,
            proposal_bounds(limits, limits.max_schemas, 48),
        )->Ok_0;
        lemma_bindings_distinct(entries, count);
        lemma_list_canonical(
            binding_item(),
            binding_encoding(),
            last,
            proposal_bounds(limits, limits.max_schemas, 48),
        );
        assert(input =~= proposal_bytes(contract));
    }
}

/// Entries that were read account for what they cost, and stay within the budget.
proof fn lemma_items_accounted<T>(
    item: spec_fn(Seq<T>, Cursor) -> Parsed<T>,
    cost: spec_fn(T) -> nat,
    kept: spec_fn(T) -> bool,
    at: Cursor,
    count: nat,
    budget: nat,
)
    requires
        at.used <= budget,
        forall|seen: Seq<T>, from: Cursor|
            from.used <= budget && (#[trigger] item(seen, from)) is Ok ==> {
                let (value, next) = item(seen, from)->Ok_0;
                &&& next.used == from.used + cost(value)
                &&& next.used <= budget
                &&& kept(value)
            },
    ensures
        items_at(item, at, count) matches Ok((items, next)) ==> {
            &&& items.len() == count
            &&& next.used == at.used + total(items, cost)
            &&& next.used <= budget
            &&& forall|i: int| 0 <= i < items.len() ==> kept(#[trigger] items[i])
        },
    decreases count,
{
    if count > 0 {
        lemma_items_accounted(item, cost, kept, at, (count - 1) as nat, budget);
        if let Ok((items, next)) = items_at(item, at, count) {
            let (front, from) = items_at(item, at, (count - 1) as nat)->Ok_0;
            assert(item(front, from) is Ok);
            assert(items.drop_last() =~= front);
        }
    }
}

/// A list that was read keeps to its bounds.
proof fn lemma_list_accounted<T>(
    item: spec_fn(Seq<T>, Cursor) -> Parsed<T>,
    cost: spec_fn(T) -> nat,
    kept: spec_fn(T) -> bool,
    at: Cursor,
    bounds: ListBounds,
)
    requires
        forall|seen: Seq<T>, from: Cursor|
            from.used <= bounds.budget && (#[trigger] item(seen, from)) is Ok ==> {
                let (value, next) = item(seen, from)->Ok_0;
                &&& next.used == from.used + cost(value)
                &&& next.used <= bounds.budget
                &&& kept(value)
            },
    ensures
        list_at(item, at, bounds) matches Ok((items, next)) ==> {
            &&& items.len() <= bounds.limit
            &&& next.used == at.used + items.len() * bounds.width + total(items, cost)
            &&& next.used <= bounds.budget
            &&& forall|i: int| 0 <= i < items.len() ==> kept(#[trigger] items[i])
        },
{
    if let Ok((count, next)) = list_head(at, bounds) {
        lemma_items_accounted(item, cost, kept, next, count, bounds.budget as nat);
    }
}

proof fn lemma_contract_offer_accounted(at: Cursor, limits: OfferLimits)
    ensures
        at.used <= limits.max_offer_accounted_bytes ==> {
            contract_offer_at(at, limits) matches Ok((contract, next)) ==> {
                &&& next.used == at.used + contract_cost()(contract)
                &&& next.used <= limits.max_offer_accounted_bytes
                &&& contract.codecs.len() <= limits.max_codecs_per_contract
            }
        },
{
    if let Ok((_, next)) = id_at(at) {
        lemma_list_accounted(
            codec_item(),
            no_cost::<CodecId>(),
            |codec: CodecId| true,
            next,
            offer_bounds(limits, limits.max_codecs_per_contract, 16),
        );
        if let Ok((contract, _)) = contract_offer_at(at, limits) {
            lemma_no_cost(contract.codecs);
        }
    }
}

proof fn lemma_schema_offer_accounted(at: Cursor, limits: OfferLimits)
    ensures
        at.used <= limits.max_offer_accounted_bytes ==> {
            schema_offer_at(at, limits) matches Ok((schema, next)) ==> {
                &&& next.used == at.used + schema_cost()(schema)
                &&& next.used <= limits.max_offer_accounted_bytes
                &&& schema_within(schema, limits)
            }
        },
{
    let kept = |contract: ContractContent|
        contract.codecs.len() <= limits.max_codecs_per_contract;
    assert forall|seen: Seq<ContractContent>, from: Cursor|
        from.used <= limits.max_offer_accounted_bytes && (#[trigger] contract_offer_item(limits)(
            seen,
            from,
        )) is Ok implies ({
        let (value, next) = contract_offer_item(limits)(seen, from)->Ok_0;
        &&& next.used == from.used + contract_cost()(value)
        &&& next.used <= limits.max_offer_accounted_bytes
        &&& kept(value)
    }) by {
        lemma_contract_offer_accounted(from, limits);
    }
    if let Ok((_, next)) = id_at(at) {
        if let Ok((_, next)) = requirement_at(next) {
            lemma_list_accounted(
                contract_offer_item(limits),
                contract_cost(),
                kept,
                next,
                offer_bounds(limits, limits.max_contracts_per_schema, 16),
            );
            if let Ok((schema, _)) = schema_offer_at(at, limits) {
                assert forall|i: int| 0 <= i < schema.contracts.len() implies (
                #[trigger] schema.contracts[i]).codecs.len() <= limits.max_codecs_per_contract by {
                    assert(kept(schema.contracts[i]));
                }
            }
        }
    }
}

/// An offer that decodes keeps to the receiver's limits.
pub proof fn law_decoded_offer_is_within(input: Seq<u8>, limits: OfferLimits)
    ensures
        offer_at(input, limits) matches Ok(offer) ==> offer_within(offer, limits),
{
    let budget = limits.max_offer_accounted_bytes;
    let kept = |schema: SchemaContent| schema_within(schema, limits);
    assert forall|seen: Seq<SchemaContent>, from: Cursor|
        from.used <= budget && (#[trigger] schema_offer_item(limits)(seen, from))
            is Ok implies ({
        let (value, next) = schema_offer_item(limits)(seen, from)->Ok_0;
        &&& next.used == from.used + schema_cost()(value)
        &&& next.used <= budget
        &&& kept(value)
    }) by {
        lemma_schema_offer_accounted(from, limits);
    }
    if let Ok(offer) = offer_at(input, limits) {
        let start = Cursor { rest: input, used: 0 };
        let bounds = offer_bounds(limits, limits.max_protocols, 32);
        lemma_list_accounted(
            protocol_item(),
            no_cost::<ProtocolContract>(),
            |protocol: ProtocolContract| true,
            start,
            bounds,
        );
        lemma_no_cost(offer.protocols);
        let second = list_at(protocol_item(), start, bounds)->Ok_0.1;
        let bounds = offer_bounds(limits, limits.max_capabilities, 17);
        lemma_list_accounted(
            capability_offer_item(),
            no_cost::<CapabilityOffer>(),
            |capability: CapabilityOffer| true,
            second,
            bounds,
        );
        lemma_no_cost(offer.capabilities);
        let third = list_at(capability_offer_item(), second, bounds)->Ok_0.1;
        lemma_list_accounted(
            schema_offer_item(limits),
            schema_cost(),
            kept,
            third,
            offer_bounds(limits, limits.max_schemas, 17),
        );
        assert forall|i: int| 0 <= i < offer.schemas.len() implies schema_within(
            #[trigger] offer.schemas[i],
            limits,
        ) by {
            assert(kept(offer.schemas[i]));
        }
    }
}

/// A proposal that decodes keeps to the receiver's limits.
pub proof fn law_decoded_proposal_is_within(input: Seq<u8>, limits: OfferLimits)
    ensures
        proposal_at(input, limits) matches Ok(contract) ==> proposal_within(contract, limits),
{
    if let Ok(contract) = proposal_at(input, limits) {
        let after = protocol_at(Cursor { rest: input, used: 0 })->Ok_0.1;
        let next = charged(
            after,
            32,
            limits.max_offer_accounted_bytes,
            NegotiationOutcome::ResourceLimitExceeded,
        )->Ok_0;
        let bounds = proposal_bounds(limits, limits.max_capabilities, 16);
        lemma_list_accounted(
            capability_item(),
            no_cost::<CapabilityId>(),
            |capability: CapabilityId| true,
            next,
            bounds,
        );
        lemma_no_cost(contract.capabilities);
        let last = list_at(capability_item(), next, bounds)->Ok_0.1;
        lemma_list_accounted(
            binding_item(),
            no_cost::<SchemaBinding>(),
            |binding: SchemaBinding| true,
            last,
            proposal_bounds(limits, limits.max_schemas, 48),
        );
        lemma_no_cost(contract.schemas);
    }
}

/// A body may be sent exactly where it is not longer than the limit, and the machine can
/// hold it: no other length is refused.
pub proof fn law_bodies_fit_up_to_the_limit(body: Seq<u8>, max_body_bytes: u64)
    ensures
        body_fits(body, max_body_bytes) <==> body.len() <= max_body_bytes && body.len()
            <= usize::MAX,
{
}

/// Of encodings of one width, each stands at its own place.
proof fn lemma_flat_at<T>(items: Seq<T>, encoding: spec_fn(T) -> Seq<u8>, width: nat, index: int)
    requires
        0 <= index < items.len(),
        forall|item: T| (#[trigger] encoding(item)).len() == width,
    ensures
        flat(items, encoding).len() == items.len() * width,
        (index + 1) * width <= items.len() * width,
        flat(items, encoding).subrange(index * width, (index + 1) * width) == encoding(
            items[index],
        ),
    decreases items.len(),
{
    lemma_flat_len(items, encoding, width);
    assert((index + 1) * width <= items.len() * width) by (nonlinear_arith)
        requires
            index + 1 <= items.len(),
            width >= 0,
    ;
    assert(index * width + width == (index + 1) * width) by (nonlinear_arith);
    let front = items.drop_last();
    lemma_flat_len(front, encoding, width);
    if index == items.len() - 1 {
        assert(flat(items, encoding).subrange(index * width, (index + 1) * width) =~= encoding(
            items[index],
        ));
    } else {
        lemma_flat_at(front, encoding, width, index);
        assert(front[index] == items[index]);
        assert(flat(items, encoding).subrange(index * width, (index + 1) * width) =~= flat(
            front,
            encoding,
        ).subrange(index * width, (index + 1) * width));
    }
}

/// An identity on the wire is its number in sixteen bytes, most significant first.
pub proof fn law_identities_are_sixteen_bytes(id: u128)
    ensures
        id_bytes(id).len() == 16,
        be_value(id_bytes(id)) == id,
{
    lemma_id_len(id);
    reveal_with_fuel(byte_space, 17);
    lemma_be_round_trip(id as nat, 16);
}

/// An offer's body starts with the number of its protocols and the protocols in their order,
/// thirty-two bytes each, the identity before the revision; behind them stand the number of
/// its capabilities and the capabilities in their order, seventeen bytes each, of which the
/// last is 1 where the capability is required.
pub proof fn law_offer_layout(offer: OfferContent, protocol: int, capability: int)
    requires
        encodable_offer(offer),
        0 <= protocol < offer.protocols.len(),
        0 <= capability < offer.capabilities.len(),
    ensures
        ({
            let count = offer.protocols.len();
            let first = split_varint(offer_bytes(offer));
            let rest = first->Ok_0.1;
            let second = split_varint(rest.skip((count * 32) as int));
            let more = second->Ok_0.1;
            let p = offer.protocols[protocol];
            let c = offer.capabilities[capability];
            &&& first is Ok && first->Ok_0.0 == count
            &&& count * 32 <= rest.len()
            &&& rest.subrange(protocol * 32, protocol * 32 + 32) == id_bytes(p.id.value) + id_bytes(
                p.revision.value,
            )
            &&& second is Ok && second->Ok_0.0 == offer.capabilities.len()
            &&& offer.capabilities.len() * 17 <= more.len()
            &&& more.subrange(capability * 17, capability * 17 + 17) == id_bytes(c.id.value).push(
                if c.requirement == RequirementLevel::Required {
                    1u8
                } else {
                    0u8
                },
            )
        }),
{
    lemma_entry_lens();
    let count = offer.protocols.len();
    let protocols = flat(offer.protocols, protocol_encoding());
    let capabilities = flat(offer.capabilities, capability_offer_encoding());
    let schemas = list_bytes(offer.schemas, schema_offer_encoding());
    let more = capabilities + schemas;
    let rest = protocols + (varint_bytes(offer.capabilities.len()) + more);
    assert(offer_bytes(offer) =~= varint_bytes(count) + rest);
    lemma_split_written(count as u64, rest);
    lemma_flat_at(offer.protocols, protocol_encoding(), 32, protocol);
    lemma_flat_at(offer.capabilities, capability_offer_encoding(), 17, capability);
    lemma_split_written(offer.capabilities.len() as u64, more);
    assert(rest.skip((count * 32) as int) =~= varint_bytes(offer.capabilities.len()) + more);
    assert(rest.subrange(protocol * 32, protocol * 32 + 32) =~= protocols.subrange(
        protocol * 32,
        (protocol + 1) * 32,
    ));
    assert(more.subrange(capability * 17, capability * 17 + 17) =~= capabilities.subrange(
        capability * 17,
        (capability + 1) * 17,
    ));
}

/// How long a body is: its counts, and its entries at their widths.
pub proof fn law_body_lengths(offer: OfferContent, contract: SelectionContent)
    ensures
        offer.schemas.len() == 0 ==> offer_bytes(offer).len() == varint_bytes(
            offer.protocols.len(),
        ).len() + 32 * offer.protocols.len() + varint_bytes(offer.capabilities.len()).len() + 17
            * offer.capabilities.len() + varint_bytes(0).len(),
        offer_bytes(offer).len() >= 32 * offer.protocols.len() + 17 * offer.capabilities.len() + 17
            * offer.schemas.len(),
        proposal_bytes(contract).len() == 32 + varint_bytes(contract.capabilities.len()).len() + 16
            * contract.capabilities.len() + varint_bytes(contract.schemas.len()).len() + 48
            * contract.schemas.len(),
{
    lemma_entry_lens();
    lemma_flat_len(offer.protocols, protocol_encoding(), 32);
    lemma_flat_len(offer.capabilities, capability_offer_encoding(), 17);
    lemma_flat_len_at_least(offer.schemas, schema_offer_encoding(), 17);
    lemma_flat_len(contract.capabilities, capability_encoding(), 16);
    lemma_flat_len(contract.schemas, binding_encoding(), 48);
    lemma_id_len(contract.protocol.id.value);
    lemma_id_len(contract.protocol.revision.value);
}

/// A count beyond its limit refuses the body before any entry is read: an offer as
/// malformed, a proposal for want of room.
pub proof fn law_counts_are_judged_first(
    count: u64,
    rest: Seq<u8>,
    protocol: ProtocolContract,
    limits: OfferLimits,
)
    requires
        count <= MAX_VARINT,
    ensures
        count > limits.max_protocols ==> offer_at(varint_bytes(count as nat) + rest, limits)
            == Err::<OfferContent, _>(BodyDecodeError::Failure(NegotiationOutcome::MalformedOffer)),
        count * 32 > limits.max_offer_accounted_bytes ==> offer_at(
            varint_bytes(count as nat) + rest,
            limits,
        ) == Err::<OfferContent, _>(BodyDecodeError::Failure(NegotiationOutcome::MalformedOffer)),
        count > limits.max_capabilities && limits.max_offer_accounted_bytes >= 32 ==> proposal_at(
            protocol_bytes(protocol) + (varint_bytes(count as nat) + rest),
            limits,
        ) == Err::<SelectionContent, _>(
            BodyDecodeError::Failure(NegotiationOutcome::ResourceLimitExceeded),
        ),
{
    lemma_split_written(count, rest);
    lemma_protocol_round_trip(protocol, varint_bytes(count as nat) + rest, 0);
}

/// What was selected before cannot be selected again: the entry is refused as an invalid
/// selection. What was not is taken as it stands.
pub proof fn law_selections_are_made_once(
    seen: Seq<CapabilityId>,
    bound: Seq<SchemaBinding>,
    capability: CapabilityId,
    binding: SchemaBinding,
    rest: Seq<u8>,
    used: nat,
)
    ensures
        ({
            let at = Cursor { rest: id_bytes(capability.value) + rest, used };
            let next = Cursor { rest, used };
            &&& seen.contains(capability) ==> capability_at(seen, at) == Err::<
                (CapabilityId, Cursor),
                _,
            >(BodyDecodeError::Failure(NegotiationOutcome::InvalidSelection))
            &&& !seen.contains(capability) ==> capability_at(seen, at) == Ok::<_, BodyDecodeError>(
                (capability, next),
            )
        }),
        ({
            let at = Cursor { rest: binding_bytes(binding) + rest, used };
            let next = Cursor { rest, used };
            let before = exists|i: int|
                0 <= i < bound.len() && (#[trigger] bound[i]).schema_id == binding.schema_id;
            &&& before ==> binding_at(bound, at) == Err::<(SchemaBinding, Cursor), _>(
                BodyDecodeError::Failure(NegotiationOutcome::InvalidSelection),
            )
            &&& !before ==> binding_at(bound, at) == Ok::<_, BodyDecodeError>((binding, next))
        }),
{
    lemma_id_round_trip(capability.value, rest, used);
    let third = id_bytes(binding.selected.codec_id.value) + rest;
    let second = id_bytes(binding.selected.contract_id.value) + third;
    lemma_id_round_trip(binding.schema_id.value, second, used);
    lemma_id_round_trip(binding.selected.contract_id.value, third, used);
    lemma_id_round_trip(binding.selected.codec_id.value, rest, used);
    assert(binding_bytes(binding) + rest =~= id_bytes(binding.schema_id.value) + second);
}

/// A proposal's body starts with the identity and the revision of its protocol; behind them
/// stand the number of its capabilities and the capabilities in their order, and the number
/// of its schemas and, for each in its order, the schema, its contract and its codec.
pub proof fn law_proposal_layout(contract: SelectionContent, capability: int, schema: int)
    requires
        contract.capabilities.len() <= MAX_VARINT,
        contract.schemas.len() <= MAX_VARINT,
        0 <= capability < contract.capabilities.len(),
        0 <= schema < contract.schemas.len(),
    ensures
        ({
            let body = proposal_bytes(contract);
            let first = split_varint(body.skip(32));
            let rest = first->Ok_0.1;
            let second = split_varint(rest.skip((contract.capabilities.len() * 16) as int));
            let more = second->Ok_0.1;
            let binding = contract.schemas[schema];
            &&& body.len() >= 32
            &&& body.take(16) == id_bytes(contract.protocol.id.value)
            &&& body.subrange(16, 32) == id_bytes(contract.protocol.revision.value)
            &&& first is Ok && first->Ok_0.0 == contract.capabilities.len()
            &&& contract.capabilities.len() * 16 <= rest.len()
            &&& rest.subrange(capability * 16, capability * 16 + 16) == id_bytes(
                contract.capabilities[capability].value,
            )
            &&& second is Ok && second->Ok_0.0 == contract.schemas.len()
            &&& contract.schemas.len() * 48 == more.len()
            &&& more.subrange(schema * 48, schema * 48 + 48) == id_bytes(binding.schema_id.value)
                + id_bytes(binding.selected.contract_id.value) + id_bytes(
                binding.selected.codec_id.value,
            )
        }),
{
    lemma_entry_lens();
    lemma_id_len(contract.protocol.id.value);
    lemma_id_len(contract.protocol.revision.value);
    let capabilities = flat(contract.capabilities, capability_encoding());
    let schemas = flat(contract.schemas, binding_encoding());
    let rest = capabilities + (varint_bytes(contract.schemas.len()) + schemas);
    let tail = varint_bytes(contract.capabilities.len()) + rest;
    let body = proposal_bytes(contract);
    assert(body =~= protocol_bytes(contract.protocol) + tail);
    assert(body.skip(32) =~= tail);
    assert(body.take(16) =~= id_bytes(contract.protocol.id.value));
    assert(body.subrange(16, 32) =~= id_bytes(contract.protocol.revision.value));
    lemma_split_written(contract.capabilities.len() as u64, rest);
    lemma_flat_at(contract.capabilities, capability_encoding(), 16, capability);
    lemma_flat_at(contract.schemas, binding_encoding(), 48, schema);
    lemma_split_written(contract.schemas.len() as u64, schemas);
    assert(rest.skip((contract.capabilities.len() * 16) as int) =~= varint_bytes(
        contract.schemas.len(),
    ) + schemas);
    assert(rest.subrange(capability * 16, capability * 16 + 16) =~= capabilities.subrange(
        capability * 16,
        (capability + 1) * 16,
    ));
    assert(schemas.subrange(schema * 48, schema * 48 + 48) =~= schemas.subrange(
        schema * 48,
        (schema + 1) * 48,
    ));
}

/// A schema of an offer is its identity, 1 where it is required, and its contracts; a
/// contract is its identity and its codecs in their order, sixteen bytes each.
pub proof fn law_schema_layout(schema: SchemaContent, contract: ContractContent, codec: int)
    requires
        encodable_schema(schema),
        contract.codecs.len() <= MAX_VARINT,
        0 <= codec < contract.codecs.len(),
    ensures
        ({
            let whole = schema_offer_bytes(schema);
            let part = contract_offer_bytes(contract);
            let contracts = split_varint(whole.skip(17));
            let codecs = split_varint(part.skip(16));
            &&& whole.len() >= 17
            &&& whole.take(16) == id_bytes(schema.id.value)
            &&& whole[16] == (if schema.requirement == RequirementLevel::Required {
                1u8
            } else {
                0u8
            })
            &&& contracts is Ok && contracts->Ok_0.0 == schema.contracts.len()
            &&& part.len() >= 16
            &&& part.take(16) == id_bytes(contract.contract_id.value)
            &&& codecs is Ok && codecs->Ok_0.0 == contract.codecs.len()
            &&& codecs->Ok_0.1.len() == contract.codecs.len() * 16
            &&& codecs->Ok_0.1.subrange(codec * 16, codec * 16 + 16) == id_bytes(
                contract.codecs[codec].value,
            )
        }),
{
    lemma_entry_lens();
    lemma_id_len(schema.id.value);
    lemma_id_len(contract.contract_id.value);
    let contracts = flat(schema.contracts, contract_offer_encoding());
    let codecs = flat(contract.codecs, codec_encoding());
    lemma_split_written(schema.contracts.len() as u64, contracts);
    lemma_split_written(contract.codecs.len() as u64, codecs);
    lemma_flat_at(contract.codecs, codec_encoding(), 16, codec);
    let whole = schema_offer_bytes(schema);
    let part = contract_offer_bytes(contract);
    assert(whole.skip(17) =~= varint_bytes(schema.contracts.len()) + contracts);
    assert(part.skip(16) =~= varint_bytes(contract.codecs.len()) + codecs);
    assert(whole.take(16) =~= id_bytes(schema.id.value));
    assert(part.take(16) =~= id_bytes(contract.contract_id.value));
    assert(codecs.subrange(codec * 16, codec * 16 + 16) =~= codecs.subrange(
        codec * 16,
        (codec + 1) * 16,
    ));
}

/// A body that goes on behind an offer or a proposal that would be taken is refused for what
/// follows.
pub proof fn law_trailing_bytes_are_refused(
    offer: OfferContent,
    contract: SelectionContent,
    limits: OfferLimits,
    tail: Seq<u8>,
)
    requires
        offer_within(offer, limits),
        encodable_offer(offer),
        contract.wf(),
        proposal_within(contract, limits),
        contract.capabilities.len() <= MAX_VARINT,
        contract.schemas.len() <= MAX_VARINT,
        tail.len() > 0,
    ensures
        offer_at(offer_bytes(offer) + tail, limits) == Err::<OfferContent, _>(
            BodyDecodeError::Protocol(NegotiationWireError::TrailingBytes),
        ),
        proposal_at(proposal_bytes(contract) + tail, limits) == Err::<SelectionContent, _>(
            BodyDecodeError::Protocol(NegotiationWireError::TrailingBytes),
        ),
{
    lemma_offer_followed(offer, limits, tail);
    lemma_proposal_followed(contract, limits, tail);
}

/// What an offer is accounted for: thirty-two bytes for each protocol, seventeen for each
/// capability and each schema, and sixteen for each contract and each codec. It keeps to the
/// limits exactly where every list does and the account is within the budget.
pub proof fn law_offers_are_accounted_for(
    offer: OfferContent,
    protocol: ProtocolContract,
    capability: CapabilityOffer,
    schema: SchemaContent,
    contract: ContractContent,
    limits: OfferLimits,
)
    ensures
        offer.protocols.len() == 0 && offer.capabilities.len() == 0 && offer.schemas.len() == 0
            ==> offer_cost(offer) == 0,
        offer_cost(OfferContent { protocols: offer.protocols.push(protocol), ..offer })
            == offer_cost(offer) + 32,
        offer_cost(OfferContent { capabilities: offer.capabilities.push(capability), ..offer })
            == offer_cost(offer) + 17,
        offer_cost(OfferContent { schemas: offer.schemas.push(schema), ..offer }) == offer_cost(
            offer,
        ) + 17 + schema_cost()(schema),
        schema.contracts.len() == 0 ==> schema_cost()(schema) == 0,
        schema_cost()(SchemaContent { contracts: schema.contracts.push(contract), ..schema })
            == schema_cost()(schema) + 16 + 16 * contract.codecs.len(),
        offer_within(offer, limits) ==> {
            &&& offer_within(
                OfferContent { protocols: offer.protocols.push(protocol), ..offer },
                limits,
            ) <==> offer.protocols.len() < limits.max_protocols && offer_cost(offer) + 32
                <= limits.max_offer_accounted_bytes
            &&& offer_within(
                OfferContent { capabilities: offer.capabilities.push(capability), ..offer },
                limits,
            ) <==> offer.capabilities.len() < limits.max_capabilities && offer_cost(offer) + 17
                <= limits.max_offer_accounted_bytes
            &&& offer_within(
                OfferContent { schemas: offer.schemas.push(schema), ..offer },
                limits,
            ) <==> offer.schemas.len() < limits.max_schemas && schema_within(schema, limits)
                && offer_cost(offer) + 17 + schema_cost()(schema)
                <= limits.max_offer_accounted_bytes
        },
        offer.protocols.len() == 0 && offer.capabilities.len() == 0 && offer.schemas.len() == 0
            ==> offer_within(offer, limits),
        schema.contracts.len() == 0 ==> schema_within(schema, limits),
        schema_within(schema, limits) ==> {
            schema_within(
                SchemaContent { contracts: schema.contracts.push(contract), ..schema },
                limits,
            ) <==> schema.contracts.len() < limits.max_contracts_per_schema
                && contract.codecs.len() <= limits.max_codecs_per_contract
        },
{
    let schemas = offer.schemas.push(schema);
    let contracts = schema.contracts.push(contract);
    assert(schemas.drop_last() =~= offer.schemas);
    assert(contracts.drop_last() =~= schema.contracts);
    assert(schemas[offer.schemas.len() as int] == schema);
    assert(contracts[schema.contracts.len() as int] == contract);
    if offer_within(offer, limits) && schema_within(schema, limits) {
        assert forall|i: int| 0 <= i < schemas.len() implies schema_within(
            #[trigger] schemas[i],
            limits,
        ) by {
            if i < offer.schemas.len() {
                assert(schemas[i] == offer.schemas[i]);
            }
        }
    }
    if schema_within(schema, limits) && contract.codecs.len() <= limits.max_codecs_per_contract {
        assert forall|i: int| 0 <= i < contracts.len() implies (
        #[trigger] contracts[i]).codecs.len() <= limits.max_codecs_per_contract by {
            if i < schema.contracts.len() {
                assert(contracts[i] == schema.contracts[i]);
            }
        }
    }
}

/// A proposal is accounted for like the wire lays it out: thirty-two bytes for its protocol,
/// sixteen for each capability and forty-eight for each schema.
pub proof fn law_proposals_are_accounted_for(contract: SelectionContent, limits: OfferLimits)
    requires
        contract.capabilities.len() <= MAX_VARINT,
        contract.schemas.len() <= MAX_VARINT,
    ensures
        proposal_within(contract, limits) <==> {
            &&& contract.capabilities.len() <= limits.max_capabilities
            &&& contract.schemas.len() <= limits.max_schemas
            &&& proposal_bytes(contract).len() - varint_bytes(contract.capabilities.len()).len()
                - varint_bytes(contract.schemas.len()).len() <= limits.max_offer_accounted_bytes
        },
{
    lemma_entry_lens();
    lemma_id_len(contract.protocol.id.value);
    lemma_id_len(contract.protocol.revision.value);
    lemma_flat_len(contract.capabilities, capability_encoding(), 16);
    lemma_flat_len(contract.schemas, binding_encoding(), 48);
}

/// An identity takes sixteen bytes and a requirement one; with fewer at hand the body is cut
/// short. A requirement is 0 or 1, and any other byte is told.
pub proof fn law_entries_cut_short_are_refused(at: Cursor)
    ensures
        id_at(at) is Ok <==> at.rest.len() >= 16,
        at.rest.len() < 16 ==> id_at(at) == Err::<(u128, Cursor), _>(
            BodyDecodeError::Protocol(NegotiationWireError::Truncated),
        ),
        protocol_at(at) is Ok <==> at.rest.len() >= 32,
        at.rest.len() < 32 ==> protocol_at(at) == Err::<(ProtocolContract, Cursor), _>(
            BodyDecodeError::Protocol(NegotiationWireError::Truncated),
        ),
        at.rest.len() == 0 ==> requirement_at(at) == Err::<(RequirementLevel, Cursor), _>(
            BodyDecodeError::Protocol(NegotiationWireError::Truncated),
        ),
        at.rest.len() > 0 && at.rest[0] > 1 ==> requirement_at(at) == Err::<
            (RequirementLevel, Cursor),
            _,
        >(
            BodyDecodeError::Protocol(
                NegotiationWireError::UnknownRequirementLevel(at.rest[0]),
            ),
        ),
        at.rest.len() > 0 && at.rest[0] <= 1 ==> {
            requirement_at(at) matches Ok((requirement, next)) && (requirement
                == RequirementLevel::Required <==> at.rest[0] == 1) && next.rest
                == at.rest.skip(1) && next.used == at.used
        },
{
}

/// To take up an offer or a proposal that keeps to the limits, room is needed exactly where it
/// lists anything.
pub proof fn law_room_is_for_what_is_listed(
    offer: OfferContent,
    contract: SelectionContent,
    limits: OfferLimits,
)
    requires
        offer_within(offer, limits),
        encodable_offer(offer),
        proposal_within(contract, limits),
        contract.capabilities.len() <= MAX_VARINT,
        contract.schemas.len() <= MAX_VARINT,
    ensures
        offer_needs_room(offer_bytes(offer), limits) <==> offer.protocols.len() > 0
            || offer.capabilities.len() > 0 || offer.schemas.len() > 0,
        proposal_needs_room(proposal_bytes(contract), limits) <==> contract.capabilities.len() > 0
            || contract.schemas.len() > 0,
{
    let schemas = list_bytes(offer.schemas, schema_offer_encoding());
    let capabilities = list_bytes(offer.capabilities, capability_offer_encoding()) + schemas;
    let last = flat(offer.schemas, schema_offer_encoding());
    let middle = flat(offer.capabilities, capability_offer_encoding()) + schemas;
    let first = flat(offer.protocols, protocol_encoding()) + capabilities;
    assert(offer_bytes(offer) =~= varint_bytes(offer.protocols.len()) + first);
    assert(capabilities =~= varint_bytes(offer.capabilities.len()) + middle);
    lemma_split_written(offer.protocols.len() as u64, first);
    lemma_split_written(offer.capabilities.len() as u64, middle);
    lemma_split_written(offer.schemas.len() as u64, last);
    if offer.protocols.len() == 0 {
        assert(first =~= capabilities);
    }
    if offer.capabilities.len() == 0 {
        assert(middle =~= schemas);
    }
    let bound = list_bytes(contract.schemas, binding_encoding());
    let selected = list_bytes(contract.capabilities, capability_encoding()) + bound;
    let behind = flat(contract.capabilities, capability_encoding()) + bound;
    assert(proposal_bytes(contract) =~= protocol_bytes(contract.protocol) + selected);
    assert(selected =~= varint_bytes(contract.capabilities.len()) + behind);
    lemma_protocol_round_trip(contract.protocol, selected, 0);
    lemma_split_written(contract.capabilities.len() as u64, behind);
    lemma_split_written(
        contract.schemas.len() as u64,
        flat(contract.schemas, binding_encoding()),
    );
    if contract.capabilities.len() == 0 {
        assert(behind =~= bound);
    }
}

} // verus!
