//! Memory that may be refused. Room is asked for before an operation begins, and the
//! operation takes the answer: what it does is then settled whether or not there was
//! room.

use std::collections::{HashMap, TryReserveError};

use vstd::prelude::*;

verus! {

/// Room for a byte string, or the refusal.
pub type ByteStorage = Result<Vec<u8>, TryReserveError>;

/// Nothing was written into the room yet.
pub open spec fn fresh(storage: ByteStorage) -> bool {
    storage matches Ok(bytes) ==> bytes@.len() == 0
}

/// Asks for room for `length` bytes. No room is needed for none; for more, the machine
/// decides.
pub fn reserve_bytes(length: usize) -> (storage: ByteStorage)
    ensures
        fresh(storage),
        length == 0 ==> storage is Ok,
{
    let mut bytes: Vec<u8> = Vec::new();
    if length == 0 {
        return Ok(bytes);
    }
    match bytes.try_reserve(length) {
        Ok(()) => Ok(bytes),
        Err(error) => Err(error),
    }
}

/// Calls `HashMap::try_reserve` of the standard library for one more entry: the entries
/// stay as they are. Whether there is room depends on the machine.
#[verifier::external_body]
pub(crate) fn reserve_entry<V>(map: &mut HashMap<u64, V>) -> (room: Result<(), TryReserveError>)
    ensures
        final(map)@ == old(map)@,
{
    map.try_reserve(1)
}

/// Where an operation gets room from that it can only size while it runs.
#[derive(Debug, Clone, Copy, PartialEq, Eq, Structural)]
pub struct Memory {
    pub(crate) assured: bool,
    pub(crate) refused: bool,
}

impl Memory {
    /// Room is never refused.
    pub open(crate) spec fn is_assured(self) -> bool {
        self.assured
    }

    /// Room was refused.
    pub open(crate) spec fn was_refused(self) -> bool {
        self.refused
    }

    /// The memory of the machine, which may refuse.
    pub fn system() -> (memory: Self)
        ensures
            !memory.is_assured(),
            !memory.was_refused(),
    {
        Memory { assured: false, refused: false }
    }

    /// Memory that grows as it is used and is not asked for beforehand.
    pub fn assured() -> (memory: Self)
        ensures
            memory.is_assured(),
            !memory.was_refused(),
    {
        Memory { assured: true, refused: false }
    }

    pub fn refused(&self) -> (refused: bool)
        ensures
            refused == self.was_refused(),
    {
        self.refused
    }

    /// Asks for room for `count` values. No room is needed for none.
    pub fn reserve<T>(&mut self, count: usize) -> (room: Option<Vec<T>>)
        ensures
            final(self).is_assured() == old(self).is_assured(),
            count == 0 ==> room is Some,
            room matches Some(values) ==> values@.len() == 0 && *final(self) == *old(self),
            room is None ==> !old(self).is_assured() && final(self).was_refused(),
    {
        let mut values: Vec<T> = Vec::new();
        if self.assured || count == 0 {
            return Some(values);
        }
        match values.try_reserve(count) {
            Ok(()) => Some(values),
            Err(_) => {
                self.refused = true;
                None
            },
        }
    }
}

} // verus!
