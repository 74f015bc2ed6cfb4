//! Key-value storage of `u128` cells. An unset cell reads as zero, as a
//! contract storage slot does.

use vstd::prelude::*;
use std::collections::HashMap;
use crate::types::AlkaneId;

verus! {

broadcast use vstd::std_specs::hash::group_hash_axioms;

/// The value of `k` in `m`, or zero when `k` is unset.
pub open spec fn get_or_zero<K>(m: Map<K, u128>, k: K) -> u128 {
    if m.contains_key(k) { m[k] } else { 0 }
}

/// Cells keyed by a `u128` (a day id).
pub struct WordMap {
    pub cells: HashMap<u128, u128>,
}

impl View for WordMap {
    type V = Map<u128, u128>;

    open spec fn view(&self) -> Map<u128, u128> {
        self.cells@
    }
}

impl WordMap {
    /// A map with every cell unset.
    pub fn new() -> (r: WordMap)
        ensures
            r@ == Map::<u128, u128>::empty(),
    {
        WordMap { cells: HashMap::new() }
    }

    /// The value of cell `k` (zero when unset).
    pub fn get(&self, k: u128) -> (r: u128)
        ensures
            r == get_or_zero(self@, k),
    {
        match self.cells.get(&k) {
            Some(v) => *v,
            None => 0,
        }
    }

    /// Set cell `k` to `v`.
    pub fn set(&mut self, k: u128, v: u128)
        ensures
            final(self)@ == old(self)@.insert(k, v),
    {
        self.cells.insert(k, v);
    }
}

/// Cells keyed by an alkane id.
pub struct IdMap {
    /// Cells grouped by the id's block, then keyed by its tx.
    pub cells: HashMap<u128, HashMap<u128, u128>>,
}

impl View for IdMap {
    type V = Map<AlkaneId, u128>;

    closed spec fn view(&self) -> Map<AlkaneId, u128> {
        Map::new(
            |k: AlkaneId| self.cells@.contains_key(k.block) && self.cells@[k.block]@.contains_key(k.tx),
            |k: AlkaneId| self.cells@[k.block]@[k.tx],
        )
    }
}

impl IdMap {
    /// A map with every cell unset.
    pub fn new() -> (r: IdMap)
        ensures
            r@ == Map::<AlkaneId, u128>::empty(),
    {
        let r = IdMap { cells: HashMap::new() };
        assert(r@ =~= Map::<AlkaneId, u128>::empty());
        r
    }

    /// The value of cell `id` (zero when unset).
    pub fn get(&self, id: &AlkaneId) -> (r: u128)
        ensures
            r == get_or_zero(self@, *id),
    {
        match self.cells.get(&id.block) {
            Some(inner) => match inner.get(&id.tx) {
                Some(v) => *v,
                None => 0,
            },
            None => 0,
        }
    }

    /// The value of cell `id`, or `None` when it is unset.
    pub fn get_opt(&self, id: &AlkaneId) -> (r: Option<u128>)
        ensures
            r == (if self@.contains_key(*id) { Some(self@[*id]) } else { None::<u128> }),
    {
        match self.cells.get(&id.block) {
            Some(inner) => match inner.get(&id.tx) {
                Some(v) => Some(*v),
                None => None,
            },
            None => None,
        }
    }

    /// Set cell `id` to `v`.
    pub fn set(&mut self, id: &AlkaneId, v: u128)
        ensures
            final(self)@ == old(self)@.insert(*id, v),
    {
        let ghost old_cells = self.cells@;
        let mut inner = match self.cells.remove(&id.block) {
            Some(m) => m,
            None => HashMap::new(),
        };
        let ghost old_inner = inner@;
        inner.insert(id.tx, v);
        self.cells.insert(id.block, inner);
        assert forall|k: AlkaneId| #![auto] self@.contains_key(k) <==> old(self)@.insert(*id, v).contains_key(k) by {
            if k.block == id.block {
                assert(old_cells.contains_key(id.block) ==> old_inner == old_cells[id.block]@);
            }
        }
        assert forall|k: AlkaneId| #![auto] self@.contains_key(k) implies self@[k] == old(self)@.insert(*id, v)[k] by {
            if k.block == id.block {
                assert(old_cells.contains_key(id.block) ==> old_inner == old_cells[id.block]@);
            }
        }
        assert(self@ =~= old(self)@.insert(*id, v));
    }
}

} // verus!
