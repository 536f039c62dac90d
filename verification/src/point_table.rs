//! A table keyed by instance, class code and point.

use std::collections::HashMap;
use vstd::prelude::*;

verus! {

/// Instance, class code, point.
pub type PointKey = (u32, u8, u32);

/// What a table of contents `table` answers for `key`.
pub open spec fn lookup<V>(table: Map<PointKey, V>, key: PointKey) -> Option<V> {
    if table.contains_key(key) {
        Some(table[key])
    } else {
        None
    }
}

/// The one number that stands for `key` in the hash table: the three parts
/// side by side.
spec fn packed(key: PointKey) -> int {
    (key.0 as int) * 0x100_0000_0000 + (key.1 as int) * 0x1_0000_0000 + (key.2 as int)
}

proof fn packed_bounds(key: PointKey)
    ensures
        0 <= packed(key) <= u128::MAX,
{
}

/// Different keys are packed into different numbers.
proof fn packed_injective(a: PointKey, b: PointKey)
    requires
        packed(a) == packed(b),
    ensures
        a == b,
{
}

/// Values by instance, class code and point, at most one for each key.
pub struct PointTable<V> {
    entries: HashMap<u128, V>,
}

impl<V> View for PointTable<V> {
    type V = Map<PointKey, V>;

    closed spec fn view(&self) -> Map<PointKey, V> {
        Map::new(
            |key: PointKey| self.entries@.contains_key(packed(key) as u128),
            |key: PointKey| self.entries@[packed(key) as u128],
        )
    }
}

fn pack(key: PointKey) -> (number: u128)
    ensures
        number == packed(key),
{
    proof {
        packed_bounds(key);
    }
    (key.0 as u128) * 0x100_0000_0000 + (key.1 as u128) * 0x1_0000_0000 + (key.2 as u128)
}

impl<V: Copy> PointTable<V> {
    /// Creates an empty table.
    pub fn new() -> (table: Self)
        ensures
            table@ == Map::<PointKey, V>::empty(),
    {
        let table = PointTable { entries: HashMap::new() };
        assert(table@ =~= Map::<PointKey, V>::empty());
        table
    }

    /// Inserts a value, or replaces the one that was there.
    pub fn insert(&mut self, key: PointKey, value: V)
        ensures
            final(self)@ == old(self)@.insert(key, value),
    {
        broadcast use vstd::std_specs::hash::group_hash_axioms;

        let number: u128 = pack(key);
        self.entries.insert(number, value);
        proof {
            assert forall|other: PointKey| other != key implies packed(other) as u128 != number by {
                packed_bounds(other);
                if packed(other) == packed(key) {
                    packed_injective(other, key);
                }
            }
            assert(self@ =~= old(self)@.insert(key, value));
        }
    }

    /// Returns the value for `key`, if there is one.
    pub fn get(&self, key: PointKey) -> (value: Option<V>)
        ensures
            value == lookup(self@, key),
    {
        broadcast use vstd::std_specs::hash::group_hash_axioms;

        let number: u128 = pack(key);
        match self.entries.get(&number) {
            Some(value) => Some(*value),
            None => None,
        }
    }
}

} // verus!
