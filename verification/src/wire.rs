//! Flow identifiers and the bodies of the flow frames on the control stream.

use vstd::prelude::*;

use crate::delivery::DeliveryMode;
use crate::varint::{
    lemma_split_read, lemma_split_written, read_varint, split_varint, varint_bytes, FixedBytes,
    VarIntDecodeError, MAX_VARINT,
};

verus! {

/// The largest sequence number of a flow identifier.
pub const MAX_FLOW_SEQUENCE: u64 = 0x1fff_ffff_ffff_ffff;

/// The most bytes that the body of a flow frame takes.
pub const MAX_FLOW_BODY_BYTES: usize = 24;

/// Which end of the QUIC connection this is.
#[derive(Debug, Clone, Copy, PartialEq, Eq, Hash, Structural)]
pub enum WireSide {
    Client,
    Server,
}

/// The other end.
pub open spec fn other_side(side: WireSide) -> WireSide {
    match side {
        WireSide::Client => WireSide::Server,
        WireSide::Server => WireSide::Client,
    }
}

pub fn opposite_side(side: WireSide) -> (other: WireSide)
    ensures
        other == other_side(side),
        other != side,
{
    match side {
        WireSide::Client => WireSide::Server,
        WireSide::Server => WireSide::Client,
    }
}

/// Why a number does not name a flow.
#[derive(Debug, Clone, Copy, PartialEq, Eq, Structural)]
pub enum FlowIdError {
    SequenceOutOfRange(u64),
    ValueOutOfRange(u64),
}

/// The wire name of a flow: the side that opened it and its place among the flows of
/// that side.
#[derive(Debug, Clone, Copy, PartialEq, Eq, Hash, Structural)]
pub struct FlowId {
    pub(crate) value: u64,
}

/// The number that stands for a flow on the wire.
pub open spec fn flow_id_value(side: WireSide, sequence: nat) -> nat {
    sequence * 2 + (if side == WireSide::Client {
        0nat
    } else {
        1nat
    })
}

impl FlowId {
    #[verifier::type_invariant]
    pub open(crate) spec fn wf(self) -> bool {
        self.value <= MAX_VARINT
    }

    pub open(crate) spec fn spec_value(self) -> u64 {
        self.value
    }

    pub open(crate) spec fn spec_side(self) -> WireSide {
        if self.value % 2 == 0 {
            WireSide::Client
        } else {
            WireSide::Server
        }
    }

    pub open(crate) spec fn spec_sequence(self) -> u64 {
        self.value / 2
    }

    /// The flow with the given sequence number among those that `side` opens.
    pub fn new(side: WireSide, sequence: u64) -> (id: Result<Self, FlowIdError>)
        ensures
            sequence > MAX_FLOW_SEQUENCE ==> id == Err::<FlowId, _>(
                FlowIdError::SequenceOutOfRange(sequence),
            ),
            sequence <= MAX_FLOW_SEQUENCE ==> id is Ok,
            id matches Ok(id) ==> {
                &&& id.wf()
                &&& id.spec_side() == side
                &&& id.spec_sequence() == sequence
                &&& id.spec_value() == flow_id_value(side, sequence as nat)
            },
    {
        if sequence > MAX_FLOW_SEQUENCE {
            return Err(FlowIdError::SequenceOutOfRange(sequence));
        }
        let low: u64 = match side {
            WireSide::Client => 0,
            WireSide::Server => 1,
        };
        Ok(FlowId { value: sequence * 2 + low })
    }

    /// The flow that a number on the wire names.
    pub fn from_wire(value: u64) -> (id: Result<Self, FlowIdError>)
        ensures
            value > MAX_VARINT ==> id == Err::<FlowId, _>(FlowIdError::ValueOutOfRange(value)),
            value <= MAX_VARINT ==> id is Ok,
            id matches Ok(id) ==> id.wf() && id.spec_value() == value,
    {
        if value > MAX_VARINT {
            return Err(FlowIdError::ValueOutOfRange(value));
        }
        Ok(FlowId { value })
    }

    pub fn value(self) -> (value: u64)
        ensures
            value == self.spec_value(),
            value <= MAX_VARINT,
    {
        proof {
            use_type_invariant(&self);
        }
        self.value
    }

    pub fn side(self) -> (side: WireSide)
        ensures
            side == self.spec_side(),
    {
        if self.value % 2 == 0 {
            WireSide::Client
        } else {
            WireSide::Server
        }
    }

    pub fn sequence(self) -> (sequence: u64)
        ensures
            sequence == self.spec_sequence(),
            sequence <= MAX_FLOW_SEQUENCE,
    {
        proof {
            use_type_invariant(&self);
        }
        self.value / 2
    }
}

/// A flow identifier is determined by its side and sequence, and by its number: the
/// number gives both back.
pub proof fn law_flow_id_determined(id: FlowId)
    requires
        id.wf(),
    ensures
        id.spec_value() == flow_id_value(id.spec_side(), id.spec_sequence() as nat),
        id.spec_sequence() <= MAX_FLOW_SEQUENCE,
        forall|other: FlowId| #[trigger] other.spec_value() == id.spec_value() ==> other == id,
        forall|other: FlowId| #[trigger]
            other.spec_side() == id.spec_side() && other.spec_sequence() == id.spec_sequence()
                ==> other == id,
{
    assert forall|other: FlowId| #[trigger]
        other.spec_side() == id.spec_side() && other.spec_sequence()
            == id.spec_sequence() implies other == id by {
        assert(other.value % 2 == id.value % 2);
    }
}

/// Why a cursor does not move.
#[allow(inconsistent_fields)]
#[derive(Debug, Clone, Copy, PartialEq, Eq, Structural)]
pub enum FlowIdCursorError {
    WrongSide { expected: WireSide, received: WireSide },
    UnexpectedSequence { expected: u64, received: u64 },
    Exhausted,
}

/// The next flow of one side: flows are taken in sequence, each once.
#[derive(Debug, Clone, Copy, PartialEq, Eq, Structural)]
pub struct FlowIdCursor {
    pub(crate) side: WireSide,
    pub(crate) next: u64,
}

impl FlowIdCursor {
    #[verifier::type_invariant]
    pub open(crate) spec fn wf(self) -> bool {
        self.next <= MAX_FLOW_SEQUENCE + 1
    }

    pub open(crate) spec fn spec_side(self) -> WireSide {
        self.side
    }

    /// The sequence number that comes next. It lies past the last one once all are taken.
    pub open(crate) spec fn spec_next(self) -> u64 {
        self.next
    }

    /// The flow that comes next, where one is left.
    pub open(crate) spec fn next_id(self) -> FlowId {
        FlowId { value: flow_id_value(self.side, self.next as nat) as u64 }
    }

    /// The cursor one flow further.
    pub open(crate) spec fn advanced(self) -> FlowIdCursor {
        FlowIdCursor { side: self.side, next: (self.next + 1) as u64 }
    }

    pub fn new(side: WireSide) -> (cursor: Self)
        ensures
            cursor.wf(),
            cursor.spec_side() == side,
            cursor.spec_next() == 0,
    {
        FlowIdCursor { side, next: 0 }
    }

    /// Takes the next flow.
    pub fn allocate(&mut self) -> (id: Result<FlowId, FlowIdCursorError>)
        ensures
            final(self).wf(),
            old(self).spec_next() > MAX_FLOW_SEQUENCE ==> {
                &&& id == Err::<FlowId, _>(FlowIdCursorError::Exhausted)
                &&& *final(self) == *old(self)
            },
            old(self).spec_next() <= MAX_FLOW_SEQUENCE ==> {
                &&& id == Ok::<_, FlowIdCursorError>(old(self).next_id())
                &&& *final(self) == old(self).advanced()
            },
    {
        let side = self.side;
        let next: u64 = self.next;
        if next > MAX_FLOW_SEQUENCE {
            proof {
                use_type_invariant(&*self);
            }
            return Err(FlowIdCursorError::Exhausted);
        }
        let low: u64 = match side {
            WireSide::Client => 0,
            WireSide::Server => 1,
        };
        *self = FlowIdCursor { side, next: next + 1 };
        Ok(FlowId { value: next * 2 + low })
    }

    /// What stands against taking `id` as the next flow.
    pub open(crate) spec fn refusal(self, id: FlowId) -> Option<FlowIdCursorError> {
        if id.spec_side() != self.side {
            Some(FlowIdCursorError::WrongSide { expected: self.side, received: id.spec_side() })
        } else if self.next > MAX_FLOW_SEQUENCE {
            Some(FlowIdCursorError::Exhausted)
        } else if id.spec_sequence() != self.next {
            Some(
                FlowIdCursorError::UnexpectedSequence {
                    expected: self.next,
                    received: id.spec_sequence(),
                },
            )
        } else {
            None
        }
    }

    /// Takes `id`, which has to be the next flow.
    pub fn validate_and_consume(&mut self, id: FlowId) -> (taken: Result<(), FlowIdCursorError>)
        ensures
            final(self).wf(),
            match old(self).refusal(id) {
                Some(error) => taken == Err::<(), _>(error) && *final(self) == *old(self),
                None => taken == Ok::<_, FlowIdCursorError>(()) && id == old(self).next_id()
                    && *final(self) == old(self).advanced(),
            },
    {
        proof {
            use_type_invariant(&*self);
            use_type_invariant(&id);
        }
        let side = self.side;
        let next: u64 = self.next;
        if id.side() != side {
            return Err(FlowIdCursorError::WrongSide { expected: side, received: id.side() });
        }
        if next > MAX_FLOW_SEQUENCE {
            return Err(FlowIdCursorError::Exhausted);
        }
        if id.sequence() != next {
            return Err(
                FlowIdCursorError::UnexpectedSequence { expected: next, received: id.sequence() },
            );
        }
        *self = FlowIdCursor { side, next: next + 1 };
        Ok(())
    }
}

/// A flow that was taken is behind the cursor for good, and never taken again.
pub proof fn law_cursor_never_repeats(cursor: FlowIdCursor, later: FlowIdCursor)
    requires
        cursor.wf(),
        later.wf(),
        cursor.spec_next() <= MAX_FLOW_SEQUENCE,
        later.spec_side() == cursor.spec_side(),
        later.spec_next() > cursor.spec_next(),
    ensures
        later.refusal(cursor.next_id()) is Some,
        later.next_id() != cursor.next_id() || later.spec_next() > MAX_FLOW_SEQUENCE,
        cursor.refusal(cursor.next_id()) is None,
{
}

/// Why the peer does not get the flow it asked for.
#[derive(Debug, Clone, Copy, PartialEq, Eq, Structural)]
pub enum FlowRejectReason {
    MessageLimit,
    ResourceLimit,
}

/// Why an established flow ends.
#[derive(Debug, Clone, Copy, PartialEq, Eq, Structural)]
pub enum FlowTerminateReason {
    Normal,
    ResourceFailure,
    ProtocolFailure,
    ReliableDeliveryFailure,
}

/// Why a flow frame's body is refused.
#[derive(Debug, Clone, Copy, PartialEq, Eq, Structural)]
pub enum ControlBodyError {
    VarInt(VarIntDecodeError),
    FlowId(FlowIdError),
    UnknownDeliveryMode(u64),
    UnknownRejectReason(u64),
    UnknownTerminateReason(u64),
    MessageLimitZero,
    MessageLimitOutOfRange(u64),
    TrailingBytes,
}

/// The number of a delivery mode on the wire.
pub open spec fn mode_number(mode: DeliveryMode) -> u64 {
    match mode {
        DeliveryMode::ReliableOrdered => 0,
        DeliveryMode::UnreliableUnordered => 1,
        DeliveryMode::UnreliableSequenced => 2,
    }
}

/// The number of a reject reason on the wire.
pub open spec fn reject_number(reason: FlowRejectReason) -> u64 {
    match reason {
        FlowRejectReason::MessageLimit => 0,
        FlowRejectReason::ResourceLimit => 1,
    }
}

/// The number of a terminate reason on the wire.
pub open spec fn terminate_number(reason: FlowTerminateReason) -> u64 {
    match reason {
        FlowTerminateReason::Normal => 0,
        FlowTerminateReason::ResourceFailure => 1,
        FlowTerminateReason::ProtocolFailure => 2,
        FlowTerminateReason::ReliableDeliveryFailure => 3,
    }
}

/// The delivery mode with a number, if any.
pub open spec fn mode_numbered(number: u64) -> Option<DeliveryMode> {
    if number == 0 {
        Some(DeliveryMode::ReliableOrdered)
    } else if number == 1 {
        Some(DeliveryMode::UnreliableUnordered)
    } else if number == 2 {
        Some(DeliveryMode::UnreliableSequenced)
    } else {
        None
    }
}

/// The reject reason with a number, if any.
pub open spec fn reject_numbered(number: u64) -> Option<FlowRejectReason> {
    if number == 0 {
        Some(FlowRejectReason::MessageLimit)
    } else if number == 1 {
        Some(FlowRejectReason::ResourceLimit)
    } else {
        None
    }
}

/// The terminate reason with a number, if any.
pub open spec fn terminate_numbered(number: u64) -> Option<FlowTerminateReason> {
    if number == 0 {
        Some(FlowTerminateReason::Normal)
    } else if number == 1 {
        Some(FlowTerminateReason::ResourceFailure)
    } else if number == 2 {
        Some(FlowTerminateReason::ProtocolFailure)
    } else if number == 3 {
        Some(FlowTerminateReason::ReliableDeliveryFailure)
    } else {
        None
    }
}

/// The body of a flow frame, held without allocation.
pub type EncodedControlBody = FixedBytes<24>;

/// One integer of a body and what follows it.
pub open spec fn split_field(input: Seq<u8>) -> Result<(u64, Seq<u8>), ControlBodyError> {
    match split_varint(input) {
        Ok(split) => Ok(split),
        Err(error) => Err(ControlBodyError::VarInt(error)),
    }
}

/// The flow that starts a body and what follows it.
pub open(crate) spec fn split_flow_id(input: Seq<u8>) -> Result<
    (FlowId, Seq<u8>),
    ControlBodyError,
> {
    match split_field(input) {
        Ok((value, rest)) => Ok((FlowId { value }, rest)),
        Err(error) => Err(error),
    }
}

fn read_field(input: &[u8], offset: usize) -> (read: Result<(u64, usize), ControlBodyError>)
    requires
        offset <= input@.len(),
    ensures
        match split_field(input@.skip(offset as int)) {
            Ok((value, rest)) => read matches Ok((found, next)) && found == value && offset < next
                <= input@.len() && input@.skip(next as int) == rest && value <= MAX_VARINT,
            Err(error) => read == Err::<(u64, usize), _>(error),
        },
{
    match read_varint(input, offset) {
        Ok(read) => Ok(read),
        Err(error) => Err(ControlBodyError::VarInt(error)),
    }
}

/// The request for a new flow.
#[derive(Debug, Clone, Copy, PartialEq, Eq, Structural)]
pub struct OpenFlow {
    pub flow_id: FlowId,
    pub delivery_mode: DeliveryMode,
    pub max_message_bytes: u64,
}

/// What stands against asking for a flow with this message limit.
pub open spec fn open_limit_error(max_message_bytes: u64) -> Option<ControlBodyError> {
    if max_message_bytes == 0 {
        Some(ControlBodyError::MessageLimitZero)
    } else if max_message_bytes > MAX_VARINT {
        Some(ControlBodyError::MessageLimitOutOfRange(max_message_bytes))
    } else {
        None
    }
}

impl OpenFlow {
    pub open(crate) spec fn wf(self) -> bool {
        self.flow_id.wf() && open_limit_error(self.max_message_bytes) is None
    }

    /// The body: the flow, its mode and its message limit.
    pub open(crate) spec fn bytes(self) -> Seq<u8> {
        varint_bytes(self.flow_id.value as nat) + varint_bytes(
            mode_number(self.delivery_mode) as nat,
        ) + varint_bytes(self.max_message_bytes as nat)
    }

    /// What a body asks for.
    pub open(crate) spec fn parse(input: Seq<u8>) -> Result<OpenFlow, ControlBodyError> {
        match split_flow_id(input) {
            Err(error) => Err(error),
            Ok((flow_id, rest)) => match split_field(rest) {
                Err(error) => Err(error),
                Ok((number, rest)) => match mode_numbered(number) {
                    None => Err(ControlBodyError::UnknownDeliveryMode(number)),
                    Some(delivery_mode) => match split_field(rest) {
                        Err(error) => Err(error),
                        Ok((max_message_bytes, rest)) => if rest.len() > 0 {
                            Err(ControlBodyError::TrailingBytes)
                        } else if max_message_bytes == 0 {
                            Err(ControlBodyError::MessageLimitZero)
                        } else {
                            Ok(OpenFlow { flow_id, delivery_mode, max_message_bytes })
                        },
                    },
                },
            },
        }
    }

    pub fn new(flow_id: FlowId, delivery_mode: DeliveryMode, max_message_bytes: u64) -> (open:
        Result<Self, ControlBodyError>)
        ensures
            match open_limit_error(max_message_bytes) {
                Some(error) => open == Err::<OpenFlow, _>(error),
                None => open == Ok::<_, ControlBodyError>(
                    (OpenFlow { flow_id, delivery_mode, max_message_bytes }),
                ) && open->Ok_0.wf(),
            },
    {
        proof {
            use_type_invariant(&flow_id);
        }
        if max_message_bytes == 0 {
            return Err(ControlBodyError::MessageLimitZero);
        }
        if max_message_bytes > MAX_VARINT {
            return Err(ControlBodyError::MessageLimitOutOfRange(max_message_bytes));
        }
        Ok(OpenFlow { flow_id, delivery_mode, max_message_bytes })
    }

    pub fn encode(self) -> (body: EncodedControlBody)
        requires
            self.wf(),
        ensures
            body@ == self.bytes(),
    {
        let number: u64 = match self.delivery_mode {
            DeliveryMode::ReliableOrdered => 0,
            DeliveryMode::UnreliableUnordered => 1,
            DeliveryMode::UnreliableSequenced => 2,
        };
        let body = EncodedControlBody::new().with_varint(self.flow_id.value()).with_varint(
            number,
        ).with_varint(self.max_message_bytes);
        proof {
            assert(body@ =~= self.bytes());
        }
        body
    }

    pub fn decode(input: &[u8]) -> (open: Result<Self, ControlBodyError>)
        ensures
            open == OpenFlow::parse(input@),
            open matches Ok(open) ==> open.wf(),
    {
        proof {
            assert(input@.skip(0) =~= input@);
        }
        let (value, offset): (u64, usize) = match read_field(input, 0) {
            Ok(read) => read,
            Err(error) => return Err(error),
        };
        let (number, offset): (u64, usize) = match read_field(input, offset) {
            Ok(read) => read,
            Err(error) => return Err(error),
        };
        let delivery_mode = if number == 0 {
            DeliveryMode::ReliableOrdered
        } else if number == 1 {
            DeliveryMode::UnreliableUnordered
        } else if number == 2 {
            DeliveryMode::UnreliableSequenced
        } else {
            return Err(ControlBodyError::UnknownDeliveryMode(number));
        };
        let (max_message_bytes, offset): (u64, usize) = match read_field(input, offset) {
            Ok(read) => read,
            Err(error) => return Err(error),
        };
        if offset < input.len() {
            return Err(ControlBodyError::TrailingBytes);
        }
        if max_message_bytes == 0 {
            return Err(ControlBodyError::MessageLimitZero);
        }
        Ok(OpenFlow { flow_id: FlowId { value }, delivery_mode, max_message_bytes })
    }
}

/// A request for a flow survives the wire, and only its own encoding asks for it.
pub proof fn law_open_flow_round_trip(open: OpenFlow, input: Seq<u8>)
    requires
        open.wf(),
    ensures
        OpenFlow::parse(open.bytes()) == Ok::<_, ControlBodyError>(open),
        OpenFlow::parse(input) == Ok::<_, ControlBodyError>(open) ==> input == open.bytes(),
{
    let id = open.flow_id.value;
    let mode = mode_number(open.delivery_mode);
    let max = open.max_message_bytes;
    let tail = varint_bytes(max as nat);
    lemma_split_written(id, varint_bytes(mode as nat) + tail);
    lemma_split_written(mode, tail);
    lemma_split_written(max, Seq::empty());
    assert(open.bytes() =~= varint_bytes(id as nat) + (varint_bytes(mode as nat) + tail));
    assert(tail + Seq::empty() =~= tail);
    if OpenFlow::parse(input) == Ok::<_, ControlBodyError>(open) {
        lemma_split_read(input);
        let rest = split_field(input)->Ok_0.1;
        lemma_split_read(rest);
        let last = split_field(rest)->Ok_0.1;
        lemma_split_read(last);
        assert(input =~= open.bytes());
    }
}

/// The answer that a flow is granted.
#[derive(Debug, Clone, Copy, PartialEq, Eq, Structural)]
pub struct FlowAccept {
    pub flow_id: FlowId,
}

impl FlowAccept {
    pub open(crate) spec fn bytes(self) -> Seq<u8> {
        varint_bytes(self.flow_id.value as nat)
    }

    pub open(crate) spec fn parse(input: Seq<u8>) -> Result<FlowAccept, ControlBodyError> {
        match split_flow_id(input) {
            Err(error) => Err(error),
            Ok((flow_id, rest)) => if rest.len() > 0 {
                Err(ControlBodyError::TrailingBytes)
            } else {
                Ok(FlowAccept { flow_id })
            },
        }
    }

    pub fn encode(self) -> (body: EncodedControlBody)
        ensures
            body@ == self.bytes(),
    {
        let flow_id = self.flow_id;
        let body = EncodedControlBody::new().with_varint(flow_id.value());
        proof {
            assert(body@ =~= self.bytes());
        }
        body
    }

    pub fn decode(input: &[u8]) -> (accept: Result<Self, ControlBodyError>)
        ensures
            accept == FlowAccept::parse(input@),
    {
        proof {
            assert(input@.skip(0) =~= input@);
        }
        let (value, offset): (u64, usize) = match read_field(input, 0) {
            Ok(read) => read,
            Err(error) => return Err(error),
        };
        if offset < input.len() {
            return Err(ControlBodyError::TrailingBytes);
        }
        Ok(FlowAccept { flow_id: FlowId { value } })
    }
}

/// A grant survives the wire, and only its own encoding is one.
pub proof fn law_flow_accept_round_trip(accept: FlowAccept, input: Seq<u8>)
    requires
        accept.flow_id.wf(),
    ensures
        FlowAccept::parse(accept.bytes()) == Ok::<_, ControlBodyError>(accept),
        FlowAccept::parse(input) == Ok::<_, ControlBodyError>(accept) ==> input == accept.bytes(),
{
    lemma_split_written(accept.flow_id.value, Seq::empty());
    assert(accept.bytes() + Seq::empty() =~= accept.bytes());
    if FlowAccept::parse(input) == Ok::<_, ControlBodyError>(accept) {
        lemma_split_read(input);
        assert(input =~= accept.bytes());
    }
}

/// The answer that a flow is not granted.
#[derive(Debug, Clone, Copy, PartialEq, Eq, Structural)]
pub struct FlowReject {
    pub flow_id: FlowId,
    pub reason: FlowRejectReason,
}

impl FlowReject {
    pub open(crate) spec fn bytes(self) -> Seq<u8> {
        varint_bytes(self.flow_id.value as nat) + varint_bytes(reject_number(self.reason) as nat)
    }

    pub open(crate) spec fn parse(input: Seq<u8>) -> Result<FlowReject, ControlBodyError> {
        match split_flow_id(input) {
            Err(error) => Err(error),
            Ok((flow_id, rest)) => match split_field(rest) {
                Err(error) => Err(error),
                Ok((number, rest)) => match reject_numbered(number) {
                    None => Err(ControlBodyError::UnknownRejectReason(number)),
                    Some(reason) => if rest.len() > 0 {
                        Err(ControlBodyError::TrailingBytes)
                    } else {
                        Ok(FlowReject { flow_id, reason })
                    },
                },
            },
        }
    }

    pub fn encode(self) -> (body: EncodedControlBody)
        ensures
            body@ == self.bytes(),
    {
        let flow_id = self.flow_id;
        let number: u64 = match self.reason {
            FlowRejectReason::MessageLimit => 0,
            FlowRejectReason::ResourceLimit => 1,
        };
        let body = EncodedControlBody::new().with_varint(flow_id.value()).with_varint(number);
        proof {
            assert(body@ =~= self.bytes());
        }
        body
    }

    pub fn decode(input: &[u8]) -> (reject: Result<Self, ControlBodyError>)
        ensures
            reject == FlowReject::parse(input@),
    {
        proof {
            assert(input@.skip(0) =~= input@);
        }
        let (value, offset): (u64, usize) = match read_field(input, 0) {
            Ok(read) => read,
            Err(error) => return Err(error),
        };
        let (number, offset): (u64, usize) = match read_field(input, offset) {
            Ok(read) => read,
            Err(error) => return Err(error),
        };
        let reason = if number == 0 {
            FlowRejectReason::MessageLimit
        } else if number == 1 {
            FlowRejectReason::ResourceLimit
        } else {
            return Err(ControlBodyError::UnknownRejectReason(number));
        };
        if offset < input.len() {
            return Err(ControlBodyError::TrailingBytes);
        }
        Ok(FlowReject { flow_id: FlowId { value }, reason })
    }
}

/// A refusal survives the wire, and only its own encoding is one.
pub proof fn law_flow_reject_round_trip(reject: FlowReject, input: Seq<u8>)
    requires
        reject.flow_id.wf(),
    ensures
        FlowReject::parse(reject.bytes()) == Ok::<_, ControlBodyError>(reject),
        FlowReject::parse(input) == Ok::<_, ControlBodyError>(reject) ==> input == reject.bytes(),
{
    let tail = varint_bytes(reject_number(reject.reason) as nat);
    lemma_split_written(reject.flow_id.value, tail);
    lemma_split_written(reject_number(reject.reason), Seq::empty());
    assert(tail + Seq::empty() =~= tail);
    if FlowReject::parse(input) == Ok::<_, ControlBodyError>(reject) {
        lemma_split_read(input);
        lemma_split_read(split_field(input)->Ok_0.1);
        assert(input =~= reject.bytes());
    }
}

/// The end of an established flow.
#[derive(Debug, Clone, Copy, PartialEq, Eq, Structural)]
pub struct FlowTerminate {
    pub flow_id: FlowId,
    pub reason: FlowTerminateReason,
}

impl FlowTerminate {
    pub open(crate) spec fn bytes(self) -> Seq<u8> {
        varint_bytes(self.flow_id.value as nat) + varint_bytes(
            terminate_number(self.reason) as nat,
        )
    }

    pub open(crate) spec fn parse(input: Seq<u8>) -> Result<FlowTerminate, ControlBodyError> {
        match split_flow_id(input) {
            Err(error) => Err(error),
            Ok((flow_id, rest)) => match split_field(rest) {
                Err(error) => Err(error),
                Ok((number, rest)) => match terminate_numbered(number) {
                    None => Err(ControlBodyError::UnknownTerminateReason(number)),
                    Some(reason) => if rest.len() > 0 {
                        Err(ControlBodyError::TrailingBytes)
                    } else {
                        Ok(FlowTerminate { flow_id, reason })
                    },
                },
            },
        }
    }

    pub fn encode(self) -> (body: EncodedControlBody)
        ensures
            body@ == self.bytes(),
    {
        let flow_id = self.flow_id;
        let number: u64 = match self.reason {
            FlowTerminateReason::Normal => 0,
            FlowTerminateReason::ResourceFailure => 1,
            FlowTerminateReason::ProtocolFailure => 2,
            FlowTerminateReason::ReliableDeliveryFailure => 3,
        };
        let body = EncodedControlBody::new().with_varint(flow_id.value()).with_varint(number);
        proof {
            assert(body@ =~= self.bytes());
        }
        body
    }

    pub fn decode(input: &[u8]) -> (terminate: Result<Self, ControlBodyError>)
        ensures
            terminate == FlowTerminate::parse(input@),
    {
        proof {
            assert(input@.skip(0) =~= input@);
        }
        let (value, offset): (u64, usize) = match read_field(input, 0) {
            Ok(read) => read,
            Err(error) => return Err(error),
        };
        let (number, offset): (u64, usize) = match read_field(input, offset) {
            Ok(read) => read,
            Err(error) => return Err(error),
        };
        let reason = if number == 0 {
            FlowTerminateReason::Normal
        } else if number == 1 {
            FlowTerminateReason::ResourceFailure
        } else if number == 2 {
            FlowTerminateReason::ProtocolFailure
        } else if number == 3 {
            FlowTerminateReason::ReliableDeliveryFailure
        } else {
            return Err(ControlBodyError::UnknownTerminateReason(number));
        };
        if offset < input.len() {
            return Err(ControlBodyError::TrailingBytes);
        }
        Ok(FlowTerminate { flow_id: FlowId { value }, reason })
    }
}

/// The end of a flow survives the wire, and only its own encoding is one.
pub proof fn law_flow_terminate_round_trip(terminate: FlowTerminate, input: Seq<u8>)
    requires
        terminate.flow_id.wf(),
    ensures
        FlowTerminate::parse(terminate.bytes()) == Ok::<_, ControlBodyError>(terminate),
        FlowTerminate::parse(input) == Ok::<_, ControlBodyError>(terminate) ==> input
            == terminate.bytes(),
{
    let number = terminate_number(terminate.reason);
    let tail = varint_bytes(number as nat);
    lemma_split_written(terminate.flow_id.value, tail);
    lemma_split_written(number, Seq::empty());
    assert(tail + Seq::empty() =~= tail);
    if FlowTerminate::parse(input) == Ok::<_, ControlBodyError>(terminate) {
        lemma_split_read(input);
        lemma_split_read(split_field(input)->Ok_0.1);
        assert(input =~= terminate.bytes());
    }
}

/// What a connection is closed with.
#[derive(Debug, Clone, Copy, PartialEq, Eq, Structural)]
pub enum ApplicationErrorCode {
    NoError,
    ProfileProtocolError,
    ControlFrameError,
    NegotiationFailed,
    FlowProtocolError,
    ResourceLimitError,
}

impl ApplicationErrorCode {
    /// The QUIC application error code.
    pub open spec fn number(self) -> u64 {
        match self {
            ApplicationErrorCode::NoError => 0,
            ApplicationErrorCode::ProfileProtocolError => 1,
            ApplicationErrorCode::ControlFrameError => 2,
            ApplicationErrorCode::NegotiationFailed => 3,
            ApplicationErrorCode::FlowProtocolError => 4,
            ApplicationErrorCode::ResourceLimitError => 5,
        }
    }

    pub fn wire(self) -> (number: u64)
        ensures
            number == self.number(),
    {
        match self {
            ApplicationErrorCode::NoError => 0,
            ApplicationErrorCode::ProfileProtocolError => 1,
            ApplicationErrorCode::ControlFrameError => 2,
            ApplicationErrorCode::NegotiationFailed => 3,
            ApplicationErrorCode::FlowProtocolError => 4,
            ApplicationErrorCode::ResourceLimitError => 5,
        }
    }
}

/// The client's flows have the even numbers and the server's the odd ones, in sequence. The
/// next flow of a side is the one with its next sequence number, and the one behind it
/// follows.
pub proof fn law_flow_numbers(cursor: FlowIdCursor, id: FlowId)
    requires
        cursor.wf(),
        cursor.spec_next() <= MAX_FLOW_SEQUENCE,
    ensures
        id.spec_value() == 2 * id.spec_sequence() + (if id.spec_side() == WireSide::Server {
            1int
        } else {
            0int
        }),
        cursor.next_id().spec_side() == cursor.spec_side(),
        cursor.next_id().spec_sequence() == cursor.spec_next(),
        cursor.advanced().spec_side() == cursor.spec_side(),
        cursor.advanced().spec_next() == cursor.spec_next() + 1,
        cursor.refusal(id) is None <==> id == cursor.next_id(),
        id.spec_side() != cursor.spec_side() ==> cursor.refusal(id) == Some(
            FlowIdCursorError::WrongSide {
                expected: cursor.spec_side(),
                received: id.spec_side(),
            },
        ),
        id.spec_side() == cursor.spec_side() && id.spec_sequence() != cursor.spec_next()
            ==> cursor.refusal(id) == Some(
            FlowIdCursorError::UnexpectedSequence {
                expected: cursor.spec_next(),
                received: id.spec_sequence(),
            },
        ),
        MAX_FLOW_SEQUENCE == 0x1fff_ffff_ffff_ffff,
{
}

/// The sides are two, and each is the other's other.
pub proof fn law_sides_are_two(side: WireSide)
    ensures
        other_side(side) != side,
        other_side(other_side(side)) == side,
{
}

/// Read one behind the other, the integers of a flow body are the number of the flow and
/// what the body says of it: the mode and the message limit, or the reason.
pub proof fn law_flow_body_fields(
    open: OpenFlow,
    accept: FlowAccept,
    reject: FlowReject,
    terminate: FlowTerminate,
)
    requires
        open.wf(),
        accept.flow_id.wf(),
        reject.flow_id.wf(),
        terminate.flow_id.wf(),
    ensures
        ({
            let mode = match open.delivery_mode {
                DeliveryMode::ReliableOrdered => 0u64,
                DeliveryMode::UnreliableUnordered => 1u64,
                DeliveryMode::UnreliableSequenced => 2u64,
            };
            let refused = match reject.reason {
                FlowRejectReason::MessageLimit => 0u64,
                FlowRejectReason::ResourceLimit => 1u64,
            };
            let ended = match terminate.reason {
                FlowTerminateReason::Normal => 0u64,
                FlowTerminateReason::ResourceFailure => 1u64,
                FlowTerminateReason::ProtocolFailure => 2u64,
                FlowTerminateReason::ReliableDeliveryFailure => 3u64,
            };
            &&& holds_integers(
                open.bytes(),
                seq![open.flow_id.spec_value(), mode, open.max_message_bytes],
            )
            &&& holds_integers(accept.bytes(), seq![accept.flow_id.spec_value()])
            &&& holds_integers(reject.bytes(), seq![reject.flow_id.spec_value(), refused])
            &&& holds_integers(terminate.bytes(), seq![terminate.flow_id.spec_value(), ended])
        }),
{
    reveal_with_fuel(holds_integers, 4);
    let mode = mode_number(open.delivery_mode);
    let max = open.max_message_bytes;
    let tail = varint_bytes(mode as nat) + varint_bytes(max as nat);
    lemma_split_written(open.flow_id.value, tail);
    lemma_split_written(mode, varint_bytes(max as nat));
    lemma_split_written(max, Seq::empty());
    assert(open.bytes() =~= varint_bytes(open.flow_id.value as nat) + tail);
    assert(varint_bytes(max as nat) + Seq::empty() =~= varint_bytes(max as nat));
    let fields = seq![open.flow_id.spec_value(), mode, max];
    assert(fields.drop_first() =~= seq![mode, max]);
    assert(fields.drop_first().drop_first() =~= seq![max]);
    assert(seq![max].drop_first() =~= Seq::<u64>::empty());
    lemma_split_written(accept.flow_id.value, Seq::empty());
    assert(accept.bytes() + Seq::empty() =~= accept.bytes());
    assert(seq![accept.flow_id.spec_value()].drop_first() =~= Seq::<u64>::empty());
    let number = reject_number(reject.reason);
    lemma_split_written(reject.flow_id.value, varint_bytes(number as nat));
    lemma_split_written(number, Seq::empty());
    assert(varint_bytes(number as nat) + Seq::empty() =~= varint_bytes(number as nat));
    assert(seq![reject.flow_id.spec_value(), number].drop_first() =~= seq![number]);
    assert(seq![number].drop_first() =~= Seq::<u64>::empty());
    let number = terminate_number(terminate.reason);
    lemma_split_written(terminate.flow_id.value, varint_bytes(number as nat));
    lemma_split_written(number, Seq::empty());
    assert(varint_bytes(number as nat) + Seq::empty() =~= varint_bytes(number as nat));
    assert(seq![terminate.flow_id.spec_value(), number].drop_first() =~= seq![number]);
    assert(seq![number].drop_first() =~= Seq::<u64>::empty());
}

/// A body consists of these integers, one behind the other.
pub open spec fn holds_integers(body: Seq<u8>, integers: Seq<u64>) -> bool
    decreases integers.len(),
{
    if integers.len() == 0 {
        body.len() == 0
    } else {
        split_varint(body) matches Ok((value, rest)) && value == integers[0] && holds_integers(
            rest,
            integers.drop_first(),
        )
    }
}

/// A request names a message limit that is not zero and that the wire carries.
pub proof fn law_requests_have_a_limit(max_message_bytes: u64)
    ensures
        open_limit_error(max_message_bytes) is None <==> 0 < max_message_bytes
            <= 0x3fff_ffff_ffff_ffff,
        max_message_bytes == 0 ==> open_limit_error(max_message_bytes) == Some(
            ControlBodyError::MessageLimitZero,
        ),
        max_message_bytes > 0x3fff_ffff_ffff_ffff ==> open_limit_error(max_message_bytes) == Some(
            ControlBodyError::MessageLimitOutOfRange(max_message_bytes),
        ),
{
}

/// The application errors are numbered one by one from zero, which stands for none, in the
/// order of what they are about: the profile, its control frames, its negotiation, its flows
/// and its resources.
pub proof fn law_error_numbers(left: ApplicationErrorCode, right: ApplicationErrorCode)
    ensures
        left.number() == right.number() <==> left == right,
        left.number() <= 5,
        ApplicationErrorCode::NoError.number() < ApplicationErrorCode::ProfileProtocolError.number(),
        ApplicationErrorCode::ProfileProtocolError.number()
            < ApplicationErrorCode::ControlFrameError.number(),
        ApplicationErrorCode::ControlFrameError.number()
            < ApplicationErrorCode::NegotiationFailed.number(),
        ApplicationErrorCode::NegotiationFailed.number()
            < ApplicationErrorCode::FlowProtocolError.number(),
        ApplicationErrorCode::FlowProtocolError.number()
            < ApplicationErrorCode::ResourceLimitError.number(),
{
}

} // verus!
