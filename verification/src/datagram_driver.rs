//! Whose turn it is: the outbound datagram flows of a connection, driven in turn.

use std::collections::TryReserveError;

use vstd::prelude::*;

use crate::control::ConnectionFailure;
use crate::datagram::{
    DatagramReceiveFailure, DatagramReceiveOutcome, DatagramSendError, DatagramSendProgress,
    DatagramSender,
};
use crate::delivery::{DeliveryFlowKey, DeliveryMode, FlowDirection};
use crate::flow_control::{EstablishedFlow, FlowControl, FlowControlView};
use crate::registry::RegisteredFlow;
use crate::wire::FlowId;

verus! {

/// Why the driver refuses an operation.
#[derive(Debug, Clone, Copy, PartialEq, Eq, Structural)]
pub enum DatagramIoStateError {
    NotUnreliable,
    WrongDirection(FlowDirection),
    RegistryMismatch,
    DuplicateOutboundFlow,
    ReadTerminated,
}

/// How datagrams fail.
#[derive(Debug, PartialEq, Eq)]
pub enum DatagramIoError {
    State(DatagramIoStateError),
    Allocation(TryReserveError),
    Connection(ConnectionFailure),
    Receive(DatagramReceiveFailure),
    Send { flow_id: FlowId, error: DatagramSendError },
}

/// What a turn comes to.
#[derive(Debug, Clone, Copy, PartialEq, Eq, Structural)]
pub enum DatagramOutboundProgress {
    /// The flow is no longer established, and is driven no longer.
    Cancelled { flow_id: FlowId },
    Driven { flow_id: FlowId, progress: DatagramSendProgress },
}

/// A flow that datagrams are sent on.
pub open spec fn sends_datagrams(direction: FlowDirection, mode: DeliveryMode) -> bool {
    direction == FlowDirection::Outbound && mode != DeliveryMode::ReliableOrdered
}

pub fn is_outbound_unreliable(direction: FlowDirection, mode: DeliveryMode) -> (sends: bool)
    ensures
        sends == sends_datagrams(direction, mode),
{
    direction == FlowDirection::Outbound && mode != DeliveryMode::ReliableOrdered
}

/// The flow is established, and datagrams are sent on it.
pub open(crate) spec fn live(state: FlowControlView, flow_id: FlowId) -> bool {
    &&& state.active.contains_key(flow_id.spec_value())
    &&& sends_datagrams(
        state.active[flow_id.spec_value()].key.direction,
        state.active[flow_id.spec_value()].mode,
    )
}

pub fn registered_outbound_unreliable_is_live(flow_control: &FlowControl, flow_id: FlowId) -> (is_live:
    bool)
    ensures
        is_live == live(flow_control@, flow_id),
{
    match flow_control.registry().registered_flow(flow_id) {
        Some(flow) => is_outbound_unreliable(flow.key.direction, flow.mode),
        None => false,
    }
}

/// A position within a list.
pub open spec fn normalized(cursor: int, len: int) -> int {
    if len == 0 {
        0
    } else {
        cursor % len
    }
}

pub fn normalize_cursor(cursor: usize, len: usize) -> (position: usize)
    ensures
        position == normalized(cursor as int, len as int),
        len > 0 ==> position < len,
{
    if len == 0 {
        0
    } else {
        cursor % len
    }
}

/// The values that are kept, in their order.
pub open spec fn kept_values<T>(values: Seq<T>, kept: Seq<bool>) -> Seq<T>
    decreases values.len(),
{
    if values.len() == 0 || kept.len() != values.len() {
        Seq::empty()
    } else {
        let front = kept_values(values.drop_last(), kept.drop_last());
        if kept.last() {
            front.push(values.last())
        } else {
            front
        }
    }
}

/// Drops the flows that are no longer live, and keeps the cursor within what is left.
pub fn retain_live_outbound<F: Fn(FlowId) -> bool>(
    outbound: &mut Vec<FlowId>,
    cursor: &mut usize,
    is_live: F,
)
    requires
        forall|flow_id: FlowId| is_live.requires((flow_id,)),
    ensures
        exists|kept: Seq<bool>|
            {
                &&& kept.len() == old(outbound)@.len()
                &&& forall|i: int|
                    0 <= i < kept.len() ==> is_live.ensures(
                        (old(outbound)@[i],),
                        #[trigger] kept[i],
                    )
                &&& final(outbound)@ == #[trigger] kept_values(old(outbound)@, kept)
            },
        *final(cursor) == normalized(*old(cursor) as int, final(outbound)@.len() as int),
{
    let mut survivors: Vec<FlowId> = Vec::new();
    let ghost mut kept: Seq<bool> = Seq::empty();
    let mut index: usize = 0;
    while index < outbound.len()
        invariant
            index <= outbound@.len(),
            outbound@ == old(outbound)@,
            kept.len() == index,
            forall|flow_id: FlowId| is_live.requires((flow_id,)),
            forall|i: int|
                0 <= i < index ==> is_live.ensures((old(outbound)@[i],), #[trigger] kept[i]),
            survivors@ == kept_values(outbound@.take(index as int), kept),
        decreases outbound@.len() - index,
    {
        let flow_id = outbound[index];
        let survives: bool = is_live(flow_id);
        proof {
            let next = outbound@.take(index + 1);
            assert(next.drop_last() =~= outbound@.take(index as int));
            assert(kept.push(survives).drop_last() =~= kept);
            kept = kept.push(survives);
        }
        if survives {
            survivors.push(flow_id);
        }
        index = index + 1;
    }
    proof {
        assert(outbound@.take(index as int) =~= outbound@);
    }
    *outbound = survivors;
    *cursor = normalize_cursor(*cursor, outbound.len());
}

/// What stands against driving a flow, if anything.
pub open spec fn registration_error(
    key: DeliveryFlowKey,
    mode: DeliveryMode,
    max_message_bytes: usize,
    registered: Option<RegisteredFlow>,
    duplicate: bool,
) -> Option<DatagramIoStateError> {
    if mode == DeliveryMode::ReliableOrdered {
        Some(DatagramIoStateError::NotUnreliable)
    } else if key.direction != FlowDirection::Outbound {
        Some(DatagramIoStateError::WrongDirection(key.direction))
    } else if registered != Some(RegisteredFlow { key, mode, max_message_bytes }) {
        Some(DatagramIoStateError::RegistryMismatch)
    } else if duplicate {
        Some(DatagramIoStateError::DuplicateOutboundFlow)
    } else {
        None
    }
}

pub fn validate_outbound_registration(
    key: DeliveryFlowKey,
    mode: DeliveryMode,
    max_message_bytes: usize,
    registered: Option<RegisteredFlow>,
    duplicate: bool,
) -> (checked: Result<(), DatagramIoStateError>)
    ensures
        match registration_error(key, mode, max_message_bytes, registered, duplicate) {
            Some(error) => checked == Err::<(), _>(error),
            None => checked is Ok,
        },
{
    if mode == DeliveryMode::ReliableOrdered {
        return Err(DatagramIoStateError::NotUnreliable);
    }
    if key.direction != FlowDirection::Outbound {
        return Err(DatagramIoStateError::WrongDirection(key.direction));
    }
    let matches: bool = match registered {
        Some(flow) => flow == (RegisteredFlow { key, mode, max_message_bytes }),
        None => false,
    };
    if !matches {
        return Err(DatagramIoStateError::RegistryMismatch);
    }
    if duplicate {
        return Err(DatagramIoStateError::DuplicateOutboundFlow);
    }
    Ok(())
}

/// One round over the flows, and how far it has come.
#[derive(Debug, Clone, Copy, PartialEq, Eq, Structural)]
pub struct DriveTurn {
    pub start: usize,
    pub offset: usize,
    pub len: usize,
}

impl DriveTurn {
    /// The flow at an offset of the round.
    pub open spec fn index_at(self, offset: int) -> int {
        (self.start + offset) % (self.len as int)
    }

    /// The flow whose turn it is.
    pub open spec fn index(self) -> int {
        self.index_at(self.offset as int)
    }

    /// The turn one flow further.
    pub open spec fn advanced(self) -> DriveTurn {
        DriveTurn { offset: (self.offset + 1) as usize, ..self }
    }

    /// The turn fits a list of flows.
    pub open spec fn fits(self, flows: nat) -> bool {
        &&& self.len == flows
        &&& self.start < self.len
        &&& self.offset <= self.len
    }
}

/// What comes next in a round.
#[derive(Debug, Clone, Copy, PartialEq, Eq, Structural)]
pub enum DriveNext {
    /// The round is over, with nothing done.
    Idle,
    Progress(DatagramOutboundProgress),
    /// Drive this flow, and tell what came of it.
    Drive(FlowId),
}

/// What came of driving a flow.
#[derive(Debug, PartialEq, Eq)]
pub enum DriveOutcome {
    /// Nothing was there to send: on to the next flow.
    Continue(DriveTurn),
    Progress(DatagramOutboundProgress),
    Failed(DatagramIoError),
}

/// The datagram side of a connection.
#[derive(Debug)]
pub struct DatagramConnectionIo {
    pub(crate) sender: DatagramSender,
    pub(crate) reading: bool,
    pub(crate) outbound: Vec<FlowId>,
    pub(crate) outbound_cursor: usize,
}

/// What the datagram side of a connection knows.
pub struct DatagramIoView {
    pub drops: usize,
    /// Datagrams are still read.
    pub reading: bool,
    /// The flows that are driven.
    pub outbound: Seq<FlowId>,
    pub cursor: usize,
}

/// The flows of a list that are live.
pub open(crate) spec fn live_flows(state: FlowControlView, flows: Seq<FlowId>) -> Seq<FlowId> {
    flows.filter(|flow_id: FlowId| live(state, flow_id))
}

proof fn lemma_kept_is_filter<T>(values: Seq<T>, kept: Seq<bool>, keep: spec_fn(T) -> bool)
    requires
        kept.len() == values.len(),
        forall|i: int| 0 <= i < kept.len() ==> #[trigger] kept[i] == keep(values[i]),
    ensures
        kept_values(values, kept) == values.filter(keep),
    decreases values.len(),
{
    reveal(Seq::filter);
    if values.len() > 0 {
        assert(kept.last() == keep(values.last()));
        assert forall|i: int| 0 <= i < kept.drop_last().len() implies #[trigger] kept.drop_last()[i]
            == keep(values.drop_last()[i]) by {
            assert(kept[i] == keep(values[i]));
        }
        lemma_kept_is_filter(values.drop_last(), kept.drop_last(), keep);
    }
}

/// A round over all flows, from the cursor on.
pub open spec fn round_start(io: DatagramIoView) -> DriveTurn {
    DriveTurn {
        start: normalized(io.cursor as int, io.outbound.len() as int) as usize,
        offset: 0,
        len: io.outbound.len() as usize,
    }
}

/// What comes next in a round, and the datagram side then: the round is over, or a flow is
/// to be driven, or a flow is driven no longer, whose place the last one takes.
pub open(crate) spec fn next_in_round(
    io: DatagramIoView,
    flows: FlowControlView,
    turn: DriveTurn,
) -> (DatagramIoView, DriveNext) {
    let flow_id = io.outbound[turn.index()];
    if turn.offset == turn.len {
        (
            DatagramIoView { cursor: ((turn.start + 1) % (turn.len as int)) as usize, ..io },
            DriveNext::Idle,
        )
    } else if live(flows, flow_id) {
        (io, DriveNext::Drive(flow_id))
    } else {
        (
            DatagramIoView {
                outbound: without(io.outbound, turn.index()),
                cursor: normalized(turn.index(), turn.len - 1) as usize,
                ..io
            },
            DriveNext::Progress(DatagramOutboundProgress::Cancelled { flow_id }),
        )
    }
}

/// What driving the flow whose turn it was comes to, and the datagram side then: on to the
/// next flow where nothing was there to send, or the end of the round, behind this flow.
pub open spec fn after_drive(
    io: DatagramIoView,
    turn: DriveTurn,
    flow_id: FlowId,
    result: Result<DatagramSendProgress, DatagramSendError>,
) -> (DatagramIoView, DriveOutcome) {
    let past = DatagramIoView {
        cursor: ((turn.index() + 1) % (turn.len as int)) as usize,
        ..io
    };
    match result {
        Ok(DatagramSendProgress::Idle) => (io, DriveOutcome::Continue(turn.advanced())),
        Ok(progress) => (
            past,
            DriveOutcome::Progress(DatagramOutboundProgress::Driven { flow_id, progress }),
        ),
        Err(error) => (past, DriveOutcome::Failed(DatagramIoError::Send { flow_id, error })),
    }
}

/// What comes of driving one flow: the result, and how many messages were dropped until
/// then.
pub struct DriveResult {
    pub result: Result<DatagramSendProgress, DatagramSendError>,
    pub drops: usize,
}

/// A whole round, step by step: each flow that is to be driven is driven, with the result
/// that `results` has for its offset.
pub open(crate) spec fn round_from(
    io: DatagramIoView,
    flows: FlowControlView,
    turn: DriveTurn,
    results: spec_fn(int) -> DriveResult,
) -> (DatagramIoView, Result<Option<DatagramOutboundProgress>, DatagramIoError>)
    decreases turn.len - turn.offset,
{
    let (io, next) = next_in_round(io, flows, turn);
    match next {
        DriveNext::Idle => (io, Ok(None)),
        DriveNext::Progress(progress) => (io, Ok(Some(progress))),
        DriveNext::Drive(flow_id) => {
            let driven = results(turn.offset as int);
            let io = DatagramIoView { drops: driven.drops, ..io };
            let (io, outcome) = after_drive(io, turn, flow_id, driven.result);
            match outcome {
                DriveOutcome::Progress(progress) => (io, Ok(Some(progress))),
                DriveOutcome::Failed(error) => (io, Err(error)),
                DriveOutcome::Continue(next) => if turn.offset < turn.len && next
                    == turn.advanced() {
                    round_from(io, flows, next, results)
                } else {
                    (io, Ok(None))
                },
            }
        },
    }
}

/// The flow at an offset of a round is live, and nothing is there to send on it.
pub open(crate) spec fn passes_idle(
    io: DatagramIoView,
    flows: FlowControlView,
    turn: DriveTurn,
    results: spec_fn(int) -> DriveResult,
    offset: int,
) -> bool {
    &&& live(flows, io.outbound[turn.index_at(offset)])
    &&& results(offset).result == Ok::<_, DatagramSendError>(DatagramSendProgress::Idle)
}

impl DatagramConnectionIo {
    pub open(crate) spec fn view(&self) -> DatagramIoView {
        DatagramIoView {
            drops: self.sender.drops(),
            reading: self.reading,
            outbound: self.outbound@,
            cursor: self.outbound_cursor,
        }
    }

    pub fn new() -> (io: Self)
        ensures
            io@ == (DatagramIoView { drops: 0, reading: true, outbound: Seq::empty(), cursor: 0 }),
    {
        let io = DatagramConnectionIo {
            sender: DatagramSender::new(),
            reading: true,
            outbound: Vec::new(),
            outbound_cursor: 0,
        };
        proof {
            assert(io@.outbound =~= Seq::empty());
        }
        io
    }

    pub fn sender(&self) -> (sender: &DatagramSender)
        ensures
            sender.drops() == self@.drops,
    {
        &self.sender
    }

    pub fn sender_mut(&mut self) -> (sender: &mut DatagramSender)
        ensures
            sender.drops() == old(self)@.drops,
            final(self)@ == (DatagramIoView { drops: final(sender).drops(), ..old(self)@ }),
    {
        &mut self.sender
    }

    pub fn outbound_transport_drops(&self) -> (drops: usize)
        ensures
            drops == self@.drops,
    {
        self.sender.outbound_transport_drops()
    }

    /// The driven flow with a key, if it is live: the first of them.
    pub fn outbound_flow_id(&self, flow_control: &FlowControl, key: DeliveryFlowKey) -> (found:
        Option<FlowId>)
        ensures
            found is Some <==> drives_key(flow_control@, self@.outbound, key),
            found matches Some(flow_id) ==> is_first_with_key(
                flow_control@,
                self@.outbound,
                key,
                flow_id,
            ),
    {
        let mut index: usize = 0;
        while index < self.outbound.len()
            invariant
                index <= self@.outbound.len(),
                self@.outbound == self.outbound@,
                forall|j: int|
                    0 <= j < index ==> !has_key(flow_control@, #[trigger] self@.outbound[j], key),
            decreases self@.outbound.len() - index,
        {
            let flow_id = self.outbound[index];
            if let Some(flow) = flow_control.registry().registered_flow(flow_id) {
                if flow.key == key && is_outbound_unreliable(flow.key.direction, flow.mode) {
                    proof {
                        assert(self@.outbound[index as int] == flow_id);
                    }
                    return Some(flow_id);
                }
            }
            index = index + 1;
        }
        None
    }

    /// Asks for room for one more flow.
    pub fn reserve_outbound(&mut self) -> (room: Result<(), TryReserveError>)
        ensures
            final(self)@ == old(self)@,
    {
        self.outbound.try_reserve(1)
    }

    /// Takes up an established flow, after those that are no longer live were dropped.
    pub fn register_outbound(
        &mut self,
        flow_control: &FlowControl,
        flow: EstablishedFlow,
        room: Result<(), TryReserveError>,
    ) -> (registered: Result<(), DatagramIoError>)
        ensures
            ({
                let survivors = live_flows(flow_control@, old(self)@.outbound);
                let cursor = normalized(old(self)@.cursor as int, survivors.len() as int);
                let cleaned = DatagramIoView {
                    outbound: survivors,
                    cursor: cursor as usize,
                    ..old(self)@
                };
                match registration_error(
                    flow.key,
                    flow.mode,
                    flow.max_message_bytes,
                    established_as(flow_control@, flow.flow_id),
                    survivors.contains(flow.flow_id),
                ) {
                    Some(error) => {
                        &&& registered == Err::<(), _>(DatagramIoError::State(error))
                        &&& final(self)@ == cleaned
                    },
                    None => match room {
                        Err(error) => {
                            &&& registered == Err::<(), _>(DatagramIoError::Allocation(error))
                            &&& final(self)@ == cleaned
                        },
                        Ok(()) => {
                            &&& registered is Ok
                            &&& final(self)@ == (DatagramIoView {
                                outbound: survivors.push(flow.flow_id),
                                ..cleaned
                            })
                        },
                    },
                }
            }),
    {
        let ghost before = self.outbound@;
        let is_live = |flow_id: FlowId| -> (is_live: bool)
            ensures
                is_live == live(flow_control@, flow_id),
            { registered_outbound_unreliable_is_live(flow_control, flow_id) };
        retain_live_outbound(&mut self.outbound, &mut self.outbound_cursor, is_live);
        proof {
            let keep = |flow_id: FlowId| live(flow_control@, flow_id);
            let kept = choose|kept: Seq<bool>|
                {
                    &&& kept.len() == before.len()
                    &&& forall|i: int|
                        0 <= i < kept.len() ==> is_live.ensures((before[i],), #[trigger] kept[i])
                    &&& self.outbound@ == #[trigger] kept_values(before, kept)
                };
            lemma_kept_is_filter(before, kept, keep);
            assert(self.outbound@ == live_flows(flow_control@, before));
        }
        let registered = flow_control.registry().registered_flow(flow.flow_id);
        let duplicate: bool = contains_flow(&self.outbound, flow.flow_id);
        if let Err(error) = validate_outbound_registration(
            flow.key,
            flow.mode,
            flow.max_message_bytes,
            registered,
            duplicate,
        ) {
            return Err(DatagramIoError::State(error));
        }
        if let Err(error) = room {
            return Err(DatagramIoError::Allocation(error));
        }
        self.outbound.push(flow.flow_id);
        Ok(())
    }

    /// Begins a round over the flows, if there are any.
    pub fn begin_drive(&self) -> (turn: Option<DriveTurn>)
        ensures
            self@.outbound.len() == 0 ==> turn is None,
            self@.outbound.len() > 0 ==> turn == Some(round_start(self@)) && turn->0.fits(
                self@.outbound.len(),
            ),
    {
        let len: usize = self.outbound.len();
        if len == 0 {
            return None;
        }
        Some(DriveTurn { start: self.outbound_cursor % len, offset: 0, len })
    }

    /// What comes next in a round.
    pub fn drive_outbound(&mut self, flow_control: &FlowControl, turn: DriveTurn) -> (next: DriveNext)
        requires
            turn.fits(old(self)@.outbound.len()),
        ensures
            (final(self)@, next) == next_in_round(old(self)@, flow_control@, turn),
    {
        if turn.offset == turn.len {
            self.outbound_cursor = next_position(turn.start, turn.len);
            return DriveNext::Idle;
        }
        let index: usize = turn_index(turn);
        let flow_id = self.outbound[index];
        if registered_outbound_unreliable_is_live(flow_control, flow_id) {
            return DriveNext::Drive(flow_id);
        }
        let ghost before = self.outbound@;
        self.outbound.swap_remove(index);
        proof {
            assert(self.outbound@ =~= without(before, index as int));
        }
        self.outbound_cursor = normalize_cursor(index, self.outbound.len());
        DriveNext::Progress(DatagramOutboundProgress::Cancelled { flow_id })
    }

    /// Takes what came of driving the flow whose turn it was.
    pub fn driven(
        &mut self,
        turn: DriveTurn,
        flow_id: FlowId,
        result: Result<DatagramSendProgress, DatagramSendError>,
    ) -> (outcome: DriveOutcome)
        requires
            turn.fits(old(self)@.outbound.len()),
            turn.offset < turn.len,
        ensures
            (final(self)@, outcome) == after_drive(old(self)@, turn, flow_id, result),
            outcome matches DriveOutcome::Continue(next) ==> next.fits(final(self)@.outbound.len()),
    {
        let index: usize = turn_index(turn);
        match result {
            Ok(DatagramSendProgress::Idle) => DriveOutcome::Continue(
                DriveTurn { offset: turn.offset + 1, ..turn },
            ),
            Ok(progress) => {
                self.outbound_cursor = next_position(index, turn.len);
                DriveOutcome::Progress(DatagramOutboundProgress::Driven { flow_id, progress })
            },
            Err(error) => {
                self.outbound_cursor = next_position(index, turn.len);
                DriveOutcome::Failed(DatagramIoError::Send { flow_id, error })
            },
        }
    }

    /// Whether datagrams are still read.
    pub fn begin_read(&self) -> (begun: Result<(), DatagramIoError>)
        ensures
            self@.reading ==> begun is Ok,
            !self@.reading ==> begun == Err::<(), _>(
                DatagramIoError::State(DatagramIoStateError::ReadTerminated),
            ),
    {
        if self.reading {
            Ok(())
        } else {
            Err(DatagramIoError::State(DatagramIoStateError::ReadTerminated))
        }
    }

    /// Takes the end of reading: nothing is read any more.
    pub fn read_failed(&mut self, failure: ConnectionFailure) -> (error: DatagramIoError)
        ensures
            final(self)@ == (DatagramIoView { reading: false, ..old(self)@ }),
            error == DatagramIoError::Connection(failure),
    {
        self.reading = false;
        DatagramIoError::Connection(failure)
    }

    /// Takes what became of a datagram that was read.
    pub fn poll_inbound(result: Result<DatagramReceiveOutcome, DatagramReceiveFailure>) -> (polled:
        Result<DatagramReceiveOutcome, DatagramIoError>)
        ensures
            match result {
                Ok(outcome) => polled == Ok::<_, DatagramIoError>(outcome),
                Err(failure) => polled == Err::<DatagramReceiveOutcome, _>(
                    DatagramIoError::Receive(failure),
                ),
            },
    {
        match result {
            Ok(outcome) => Ok(outcome),
            Err(failure) => Err(DatagramIoError::Receive(failure)),
        }
    }
}

/// A live flow has this key.
pub open(crate) spec fn has_key(
    state: FlowControlView,
    flow_id: FlowId,
    key: DeliveryFlowKey,
) -> bool {
    live(state, flow_id) && state.active[flow_id.spec_value()].key == key
}

/// One of these flows is live and has this key.
pub open(crate) spec fn drives_key(
    state: FlowControlView,
    flows: Seq<FlowId>,
    key: DeliveryFlowKey,
) -> bool {
    exists|i: int| 0 <= i < flows.len() && has_key(state, #[trigger] flows[i], key)
}

/// The first of these flows that is live and has this key.
pub open(crate) spec fn is_first_with_key(
    state: FlowControlView,
    flows: Seq<FlowId>,
    key: DeliveryFlowKey,
    flow_id: FlowId,
) -> bool {
    &&& has_key(state, flow_id, key)
    &&& exists|i: int|
        {
            &&& 0 <= i < flows.len()
            &&& flow_id == #[trigger] flows[i]
            &&& forall|j: int| 0 <= j < i ==> !has_key(state, #[trigger] flows[j], key)
        }
}

/// What is established under a wire name.
pub open(crate) spec fn established_as(state: FlowControlView, flow_id: FlowId) -> Option<
    RegisteredFlow,
> {
    if state.active.contains_key(flow_id.spec_value()) {
        Some(state.active[flow_id.spec_value()])
    } else {
        None
    }
}

/// A list without one of its values, whose place the last one takes.
pub open spec fn without<T>(values: Seq<T>, index: int) -> Seq<T> {
    values.update(index, values.last()).drop_last()
}

fn contains_flow(flows: &Vec<FlowId>, flow_id: FlowId) -> (found: bool)
    ensures
        found == flows@.contains(flow_id),
{
    let mut index: usize = 0;
    while index < flows.len()
        invariant
            index <= flows@.len(),
            forall|i: int| 0 <= i < index ==> flows@[i] != flow_id,
        decreases flows@.len() - index,
    {
        if flows[index] == flow_id {
            return true;
        }
        index = index + 1;
    }
    false
}

fn turn_index(turn: DriveTurn) -> (index: usize)
    requires
        turn.start < turn.len,
        turn.offset < turn.len,
    ensures
        index == turn.index(),
        index < turn.len,
{
    if turn.offset < turn.len - turn.start {
        proof {
            assert((turn.start + turn.offset) % (turn.len as int) == turn.start + turn.offset)
                by (nonlinear_arith)
                requires
                    0 <= turn.start + turn.offset < turn.len,
            ;
        }
        turn.start + turn.offset
    } else {
        proof {
            let sum = turn.start + turn.offset;
            let len = turn.len as int;
            assert(sum % len == sum - len) by (nonlinear_arith)
                requires
                    len <= sum < 2 * len,
            ;
        }
        turn.offset - (turn.len - turn.start)
    }
}

fn next_position(index: usize, len: usize) -> (next: usize)
    requires
        index < len,
    ensures
        next == (index + 1) % (len as int),
        next < len,
{
    if index + 1 == len {
        proof {
            assert((len as int) % (len as int) == 0) by (nonlinear_arith)
                requires
                    len > 0,
            ;
        }
        0
    } else {
        proof {
            assert((index + 1) % (len as int) == index + 1) by (nonlinear_arith)
                requires
                    0 <= index + 1 < len,
            ;
        }
        index + 1
    }
}

/// A round comes to every flow once: any flow has its turn at some offset, and no two
/// offsets are the same flow's.
pub proof fn law_round_is_fair(start: usize, len: usize, flow: int)
    requires
        start < len,
        0 <= flow < len,
    ensures
        exists|offset: usize|
            offset < len && (#[trigger] (DriveTurn { start, offset, len }).index()) == flow,
        forall|left: usize, right: usize|
            left < len && right < len && (#[trigger] (DriveTurn {
                start,
                offset: left,
                len,
            }).index()) == (#[trigger] (DriveTurn { start, offset: right, len }).index()) ==> left
                == right,
{
    let total = len as int;
    let offset = if flow >= start {
        flow - start
    } else {
        flow - start + total
    };
    let turn = DriveTurn { start, offset: offset as usize, len };
    if flow >= start {
        assert((start + offset) % total == flow) by (nonlinear_arith)
            requires
                start + offset == flow,
                0 <= flow < total,
        ;
    } else {
        assert((start + offset) % total == flow) by (nonlinear_arith)
            requires
                start + offset == flow + total,
                0 <= flow < total,
        ;
    }
    assert(turn.index() == flow);
    assert forall|left: usize, right: usize|
        left < len && right < len && (#[trigger] (DriveTurn { start, offset: left, len }).index())
            == (#[trigger] (DriveTurn { start, offset: right, len }).index()) implies left
        == right by {
        lemma_wrapped(start as int, left as int, total);
        lemma_wrapped(start as int, right as int, total);
    }
}

proof fn lemma_round_passes(
    io: DatagramIoView,
    flows: FlowControlView,
    turn: DriveTurn,
    results: spec_fn(int) -> DriveResult,
    to: usize,
)
    requires
        turn.fits(io.outbound.len()),
        turn.offset <= to <= turn.len,
        forall|offset: int|
            turn.offset <= offset < to ==> #[trigger] passes_idle(
                io,
                flows,
                turn,
                results,
                offset,
            ),
    ensures
        round_from(io, flows, turn, results) == round_from(
            DatagramIoView {
                drops: if to == turn.offset {
                    io.drops
                } else {
                    results(to - 1).drops
                },
                ..io
            },
            flows,
            DriveTurn { offset: to, ..turn },
            results,
        ),
    decreases to - turn.offset,
{
    if turn.offset < to {
        assert(passes_idle(io, flows, turn, results, turn.offset as int));
        let next = turn.advanced();
        let driven = DatagramIoView { drops: results(turn.offset as int).drops, ..io };
        assert forall|offset: int| next.offset <= offset < to implies #[trigger] passes_idle(
            driven,
            flows,
            next,
            results,
            offset,
        ) by {
            assert(passes_idle(io, flows, turn, results, offset));
        }
        lemma_round_passes(driven, flows, next, results, to);
        assert(DriveTurn { offset: to, ..next } == DriveTurn { offset: to, ..turn });
    } else {
        assert(DriveTurn { offset: to, ..turn } == turn);
    }
}

/// Nothing comes of a round exactly where every flow, visited once from the cursor on, is
/// live and has nothing to send; the next round starts one flow further. Otherwise the round
/// ends at the first flow that is not so, and no flow behind it is driven: a flow that is no
/// longer live is driven no longer and reported as cancelled, and of a live flow what was
/// sent, or why not, is reported, and the next round starts behind it.
pub proof fn law_round_reports_the_first_flow(
    io: DatagramIoView,
    flows: FlowControlView,
    results: spec_fn(int) -> DriveResult,
    first: usize,
)
    requires
        io.outbound.len() > 0,
        io.outbound.len() <= usize::MAX,
        first <= io.outbound.len(),
        forall|offset: int|
            0 <= offset < first ==> #[trigger] passes_idle(
                io,
                flows,
                round_start(io),
                results,
                offset,
            ),
        first < io.outbound.len() ==> !passes_idle(
            io,
            flows,
            round_start(io),
            results,
            first as int,
        ),
    ensures
        ({
            let turn = round_start(io);
            let len = io.outbound.len() as int;
            let index = turn.index_at(first as int);
            let flow_id = io.outbound[index];
            let (after, report) = round_from(io, flows, turn, results);
            &&& report == Ok::<Option<DatagramOutboundProgress>, DatagramIoError>(None) <==> first
                == len
            &&& first == len ==> {
                &&& after.outbound == io.outbound
                &&& after.cursor == (turn.start + 1) % len
            }
            &&& first < len && !live(flows, flow_id) ==> {
                &&& report == Ok::<_, DatagramIoError>(
                    Some(DatagramOutboundProgress::Cancelled { flow_id }),
                )
                &&& after.outbound == without(io.outbound, index)
                &&& after.cursor == normalized(index, len - 1)
            }
            &&& first < len && live(flows, flow_id) ==> {
                &&& after.outbound == io.outbound
                &&& after.cursor == (index + 1) % len
                &&& after.drops == results(first as int).drops
                &&& match results(first as int).result {
                    Ok(progress) => {
                        &&& progress != DatagramSendProgress::Idle
                        &&& report == Ok::<_, DatagramIoError>(
                            Some(DatagramOutboundProgress::Driven { flow_id, progress }),
                        )
                    },
                    Err(error) => report == Err::<Option<DatagramOutboundProgress>, _>(
                        (DatagramIoError::Send { flow_id, error }),
                    ),
                }
            }
        }),
{
    let turn = round_start(io);
    lemma_round_passes(io, flows, turn, results, first);
}

proof fn lemma_wrapped(start: int, offset: int, total: int)
    requires
        0 <= start < total,
        0 <= offset < total,
    ensures
        (start + offset) % total == (if start + offset < total {
            start + offset
        } else {
            start + offset - total
        }),
{
    if start + offset < total {
        assert((start + offset) % total == start + offset) by (nonlinear_arith)
            requires
                0 <= start + offset < total,
        ;
    } else {
        assert((start + offset) % total == start + offset - total) by (nonlinear_arith)
            requires
                total <= start + offset < 2 * total,
        ;
    }
}

/// A flow is taken up to be driven exactly where it is an outbound flow of an unreliable
/// mode, registered under these very terms, and not driven already. Each refusal names what
/// is amiss.
pub proof fn law_flows_are_taken_up_once(
    key: DeliveryFlowKey,
    mode: DeliveryMode,
    max_message_bytes: usize,
    registered: Option<RegisteredFlow>,
    duplicate: bool,
)
    ensures
        ({
            let error = registration_error(key, mode, max_message_bytes, registered, duplicate);
            let same = registered is Some && registered->0.key == key && registered->0.mode == mode
                && registered->0.max_message_bytes == max_message_bytes;
            &&& error is None <==> key.direction == FlowDirection::Outbound && mode
                != DeliveryMode::ReliableOrdered && same && !duplicate
            &&& error == Some(DatagramIoStateError::NotUnreliable) <==> mode
                == DeliveryMode::ReliableOrdered
            &&& error == Some(DatagramIoStateError::DuplicateOutboundFlow) ==> duplicate
            &&& error == Some(DatagramIoStateError::RegistryMismatch) ==> !same
            &&& error matches Some(DatagramIoStateError::WrongDirection(direction)) ==> direction
                == key.direction && direction != FlowDirection::Outbound
            &&& error != Some(DatagramIoStateError::ReadTerminated)
        }),
{
}

/// A flow is live exactly where it is established as an outbound flow of an unreliable mode;
/// of the driven flows, those stay that are live, and a round starts at one of them.
pub proof fn law_live_flows_stay(
    state: FlowControlView,
    flows: Seq<FlowId>,
    flow_id: FlowId,
    cursor: int,
)
    requires
        cursor >= 0,
    ensures
        ({
            let known = state.active.contains_key(flow_id.spec_value());
            let flow = state.active[flow_id.spec_value()];
            live(state, flow_id) <==> known && flow.key.direction == FlowDirection::Outbound
                && flow.mode != DeliveryMode::ReliableOrdered
        }),
        live_flows(state, flows).contains(flow_id) <==> flows.contains(flow_id) && live(
            state,
            flow_id,
        ),
        flows.len() > 0 ==> 0 <= normalized(cursor, flows.len() as int) < flows.len(),
        cursor < flows.len() ==> normalized(cursor, flows.len() as int) == cursor,
{
    broadcast use vstd::seq_lib::group_filter_ensures;

    let keep = |id: FlowId| live(state, id);
    let kept = flows.filter(keep);
    if flows.contains(flow_id) && live(state, flow_id) {
        let i = choose|i: int| 0 <= i < flows.len() && flows[i] == flow_id;
        assert(kept.contains(flows[i]));
    }
    if kept.contains(flow_id) {
        let i = choose|i: int| 0 <= i < kept.len() && kept[i] == flow_id;
        assert(keep(kept[i]));
        flows.lemma_filter_contains_rev(keep, flow_id);
    }
    if cursor < flows.len() {
        vstd::arithmetic::div_mod::lemma_small_mod(cursor as nat, flows.len());
    }
}

/// A flow is found by its key exactly where it is live and established on that key, and of
/// several such flows the first one is found.
pub proof fn law_keys_find_live_flows(
    state: FlowControlView,
    flows: Seq<FlowId>,
    key: DeliveryFlowKey,
    flow_id: FlowId,
    other: FlowId,
    i: int,
)
    requires
        0 <= i < flows.len(),
    ensures
        has_key(state, flow_id, key) <==> live(state, flow_id)
            && state.active[flow_id.spec_value()].key == key,
        live(state, flows[i]) && state.active[flows[i].spec_value()].key == key ==> drives_key(
            state,
            flows,
            key,
        ),
        is_first_with_key(state, flows, key, flow_id) ==> drives_key(state, flows, key)
            && flows.contains(flow_id),
        is_first_with_key(state, flows, key, flow_id) && is_first_with_key(state, flows, key, other)
            ==> flow_id == other,
        is_first_with_key(state, flows, key, flows[0]) <==> has_key(state, flows[0], key),
        established_as(state, flow_id) is Some <==> state.active.contains_key(
            flow_id.spec_value(),
        ),
        established_as(state, flow_id) matches Some(flow) ==> flow
            == state.active[flow_id.spec_value()],
{
    if is_first_with_key(state, flows, key, flow_id) && is_first_with_key(
        state,
        flows,
        key,
        other,
    ) {
        let left = choose|left: int|
            {
                &&& 0 <= left < flows.len()
                &&& flow_id == #[trigger] flows[left]
                &&& forall|j: int| 0 <= j < left ==> !has_key(state, #[trigger] flows[j], key)
            };
        let right = choose|right: int|
            {
                &&& 0 <= right < flows.len()
                &&& other == #[trigger] flows[right]
                &&& forall|j: int| 0 <= j < right ==> !has_key(state, #[trigger] flows[j], key)
            };
        assert(left == right) by {
            if left < right {
                assert(!has_key(state, flows[left], key));
            } else if right < left {
                assert(!has_key(state, flows[right], key));
            }
        }
    }
}

} // verus!
