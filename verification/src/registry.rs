//! The flows that are established on one connection, by their wire names.

use std::collections::{HashMap, TryReserveError};

use vstd::prelude::*;

use crate::delivery::{DeliveryFlowKey, DeliveryMode, FlowDirection};
use crate::storage::reserve_entry;
use crate::wire::{FlowId, WireSide};

verus! {

/// An established flow.
#[derive(Debug, Clone, Copy, PartialEq, Eq, Structural)]
pub struct RegisteredFlow {
    pub key: DeliveryFlowKey,
    pub mode: DeliveryMode,
    pub max_message_bytes: usize,
}

/// Why a flow is not registered, or not found.
#[derive(Debug, Clone, Copy, PartialEq, Eq, Structural)]
pub enum RegistryError {
    /// The side that opened the flow does not fit the direction of its key.
    DirectionMismatch,
    DuplicateFlowId,
    CapacityExceeded,
    AllocationFailed,
    UnknownFlowId,
}

/// The flows of one connection that run in one direction.
pub open spec fn ids_towards(flows: Map<u64, RegisteredFlow>, direction: FlowDirection) -> Set<
    u64,
> {
    flows.dom().filter(|id: u64| flows[id].key.direction == direction)
}

/// The direction of the flows that a side opens, seen from the local side.
pub open spec fn direction_of(local_side: WireSide, opener: WireSide) -> FlowDirection {
    if opener == local_side {
        FlowDirection::Outbound
    } else {
        FlowDirection::Inbound
    }
}

/// The established flows of one connection.
#[derive(Debug)]
pub struct AcceptedFlowRegistry {
    pub(crate) local_side: WireSide,
    pub(crate) capacity: usize,
    pub(crate) flows: HashMap<u64, RegisteredFlow>,
    pub(crate) outbound: usize,
    pub(crate) inbound: usize,
}

proof fn lemma_insert_counts(
    flows: Map<u64, RegisteredFlow>,
    id: u64,
    flow: RegisteredFlow,
    direction: FlowDirection,
)
    requires
        flows.dom().finite(),
        !flows.contains_key(id),
    ensures
        ids_towards(flows.insert(id, flow), direction).len() == ids_towards(flows, direction).len()
            + (if flow.key.direction == direction {
            1nat
        } else {
            0nat
        }),
{
    let before = ids_towards(flows, direction);
    let after = ids_towards(flows.insert(id, flow), direction);
    if flow.key.direction == direction {
        assert(after =~= before.insert(id));
    } else {
        assert(after =~= before);
    }
}

proof fn lemma_remove_counts(
    flows: Map<u64, RegisteredFlow>,
    id: u64,
    direction: FlowDirection,
)
    requires
        flows.dom().finite(),
        flows.contains_key(id),
    ensures
        ids_towards(flows, direction).len() == ids_towards(flows.remove(id), direction).len() + (
        if flows[id].key.direction == direction {
            1nat
        } else {
            0nat
        }),
{
    let rest = flows.remove(id);
    assert(rest.insert(id, flows[id]) =~= flows);
    lemma_insert_counts(rest, id, flows[id], direction);
}

impl AcceptedFlowRegistry {
    /// The counters tell how many flows run in each direction, and the flows keep to the
    /// capacity.
    pub open(crate) spec fn wf(self) -> bool {
        &&& self.flows@.dom().finite()
        &&& self.flows@.len() <= self.capacity
        &&& self.outbound == ids_towards(self.flows@, FlowDirection::Outbound).len()
        &&& self.inbound == ids_towards(self.flows@, FlowDirection::Inbound).len()
        &&& self.outbound + self.inbound == self.flows@.len()
    }

    /// The flows by the number of their wire name.
    pub open(crate) spec fn view(&self) -> Map<u64, RegisteredFlow> {
        self.flows@
    }

    pub open(crate) spec fn spec_side(self) -> WireSide {
        self.local_side
    }

    pub open(crate) spec fn spec_capacity(self) -> usize {
        self.capacity
    }

    /// How many flows run in one direction.
    pub open(crate) spec fn count(self, direction: FlowDirection) -> nat {
        ids_towards(self.flows@, direction).len()
    }

    /// The flow with a wire name, if it is established.
    pub open(crate) spec fn find(self, flow_id: FlowId) -> Option<RegisteredFlow> {
        if self.flows@.contains_key(flow_id.spec_value()) {
            Some(self.flows@[flow_id.spec_value()])
        } else {
            None
        }
    }

    /// What stands against registering a flow, if anything.
    pub open(crate) spec fn refusal(
        self,
        flow_id: FlowId,
        key: DeliveryFlowKey,
        room: Result<(), TryReserveError>,
    ) -> Option<RegistryError> {
        if key.direction != direction_of(self.local_side, flow_id.spec_side()) {
            Some(RegistryError::DirectionMismatch)
        } else if self.flows@.contains_key(flow_id.spec_value()) {
            Some(RegistryError::DuplicateFlowId)
        } else if self.flows@.len() >= self.capacity {
            Some(RegistryError::CapacityExceeded)
        } else if room is Err {
            Some(RegistryError::AllocationFailed)
        } else {
            None
        }
    }

    pub fn new(local_side: WireSide, capacity: usize) -> (registry: Self)
        ensures
            registry.wf(),
            registry.spec_side() == local_side,
            registry.spec_capacity() == capacity,
            registry@ == Map::<u64, RegisteredFlow>::empty(),
    {
        let flows: HashMap<u64, RegisteredFlow> = HashMap::new();
        proof {
            assert(flows@ =~= Map::<u64, RegisteredFlow>::empty());
            assert(ids_towards(flows@, FlowDirection::Outbound) =~= Set::<u64>::empty());
            assert(ids_towards(flows@, FlowDirection::Inbound) =~= Set::<u64>::empty());
        }
        AcceptedFlowRegistry { local_side, capacity, flows, outbound: 0, inbound: 0 }
    }

    pub fn side(&self) -> (side: WireSide)
        ensures
            side == self.spec_side(),
    {
        self.local_side
    }

    /// Asks for room for one more flow.
    pub fn reserve_slot(&mut self) -> (room: Result<(), TryReserveError>)
        requires
            old(self).wf(),
        ensures
            final(self).wf(),
            final(self)@ == old(self)@,
            final(self).spec_side() == old(self).spec_side(),
            final(self).spec_capacity() == old(self).spec_capacity(),
    {
        reserve_entry(&mut self.flows)
    }

    pub fn registered_flow(&self, flow_id: FlowId) -> (flow: Option<RegisteredFlow>)
        ensures
            flow == self.find(flow_id),
    {
        match self.flows.get(&flow_id.value()) {
            Some(flow) => Some(*flow),
            None => None,
        }
    }

    pub fn active_direction_len(&self, direction: FlowDirection) -> (flows: usize)
        requires
            self.wf(),
        ensures
            flows == self.count(direction),
            flows <= self@.len(),
    {
        match direction {
            FlowDirection::Outbound => self.outbound,
            FlowDirection::Inbound => self.inbound,
        }
    }

    /// Registers a flow whose wire name was taken from its cursor and whose opening was
    /// accepted.
    pub fn register_consumed_accepted_flow(
        &mut self,
        flow_id: FlowId,
        flow: RegisteredFlow,
        room: Result<(), TryReserveError>,
    ) -> (registered: Result<(), RegistryError>)
        requires
            old(self).wf(),
        ensures
            final(self).wf(),
            final(self).spec_side() == old(self).spec_side(),
            final(self).spec_capacity() == old(self).spec_capacity(),
            match old(self).refusal(flow_id, flow.key, room) {
                Some(error) => registered == Err::<(), _>(error) && final(self)@ == old(self)@,
                None => registered is Ok && final(self)@ == old(self)@.insert(
                    flow_id.spec_value(),
                    flow,
                ),
            },
    {
        let direction = if flow_id.side() == self.local_side {
            FlowDirection::Outbound
        } else {
            FlowDirection::Inbound
        };
        if flow.key.direction != direction {
            return Err(RegistryError::DirectionMismatch);
        }
        let id: u64 = flow_id.value();
        if self.flows.contains_key(&id) {
            return Err(RegistryError::DuplicateFlowId);
        }
        if self.flows.len() >= self.capacity {
            return Err(RegistryError::CapacityExceeded);
        }
        if room.is_err() {
            return Err(RegistryError::AllocationFailed);
        }
        proof {
            lemma_insert_counts(self.flows@, id, flow, FlowDirection::Outbound);
            lemma_insert_counts(self.flows@, id, flow, FlowDirection::Inbound);
        }
        self.flows.insert(id, flow);
        match direction {
            FlowDirection::Outbound => {
                self.outbound = self.outbound + 1;
            },
            FlowDirection::Inbound => {
                self.inbound = self.inbound + 1;
            },
        }
        Ok(())
    }

    /// Forgets a flow. Of a flow that is not there, nothing changes.
    pub fn release(&mut self, flow_id: FlowId) -> (released: Option<RegisteredFlow>)
        requires
            old(self).wf(),
        ensures
            final(self).wf(),
            final(self).spec_side() == old(self).spec_side(),
            final(self).spec_capacity() == old(self).spec_capacity(),
            released == old(self).find(flow_id),
            final(self)@ == old(self)@.remove(flow_id.spec_value()),
    {
        let id: u64 = flow_id.value();
        proof {
            if self.flows@.contains_key(id) {
                lemma_remove_counts(self.flows@, id, FlowDirection::Outbound);
                lemma_remove_counts(self.flows@, id, FlowDirection::Inbound);
            } else {
                assert(self.flows@.remove(id) =~= self.flows@);
            }
        }
        let released = self.flows.remove(&id);
        if let Some(flow) = released {
            match flow.key.direction {
                FlowDirection::Outbound => {
                    self.outbound = self.outbound - 1;
                },
                FlowDirection::Inbound => {
                    self.inbound = self.inbound - 1;
                },
            }
        }
        released
    }
}

/// A flow is registered exactly where its key runs in the direction of its opener, its name
/// is free, a place is left and there is memory. This side's flows run outwards and the
/// peer's inwards.
pub proof fn law_registration_needs_a_free_name_and_a_place(
    registry: AcceptedFlowRegistry,
    flow_id: FlowId,
    key: DeliveryFlowKey,
    room: Result<(), TryReserveError>,
)
    ensures
        ({
            let refusal = registry.refusal(flow_id, key, room);
            let outwards = flow_id.spec_side() == registry.spec_side();
            let directed = (key.direction == FlowDirection::Outbound) == outwards;
            let free = !registry@.contains_key(flow_id.spec_value());
            let place = registry@.len() < registry.spec_capacity();
            &&& refusal is None <==> directed && free && place && room is Ok
            &&& refusal == Some(RegistryError::DirectionMismatch) <==> !directed
            &&& refusal == Some(RegistryError::DuplicateFlowId) <==> directed && !free
            &&& refusal == Some(RegistryError::CapacityExceeded) <==> directed && free && !place
            &&& refusal == Some(RegistryError::AllocationFailed) <==> directed && free && place
                && room is Err
        }),
        registry.find(flow_id) is Some <==> registry@.contains_key(flow_id.spec_value()),
        registry.find(flow_id) matches Some(flow) ==> flow == registry@[flow_id.spec_value()],
{
}

} // verus!
