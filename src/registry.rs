use std::collections::HashMap;
use vstd::prelude::*;

use crate::event::ObserveId;

verus! {

broadcast use vstd::std_specs::hash::group_hash_axioms;

/// The generation registered for `region`, if any.
pub open spec fn lookup_in(m: Map<u64, ObserveId>, region: u64) -> Option<ObserveId> {
    if m.contains_key(region) {
        Some(m[region])
    } else {
        None
    }
}

/// Whether unsubscribing generation `id` from `region` finds it registered.
pub open spec fn unsubscribe_matches(m: Map<u64, ObserveId>, region: u64, id: ObserveId) -> bool {
    m.contains_key(region) && m[region] == id
}

/// The registry after unsubscribing generation `id` from `region`: the entry
/// goes only if it holds that very generation.
pub open spec fn after_unsubscribe(m: Map<u64, ObserveId>, region: u64, id: ObserveId) -> Map<
    u64,
    ObserveId,
> {
    if unsubscribe_matches(m, region, id) {
        m.remove(region)
    } else {
        m
    }
}

/// What unsubscribing generation `id` from `region` returns.
pub open spec fn unsubscribe_result(m: Map<u64, ObserveId>, region: u64, id: ObserveId) -> Option<
    ObserveId,
> {
    if unsubscribe_matches(m, region, id) {
        Some(id)
    } else {
        None
    }
}

/// Which regions are captured, and under which subscription generation.
///
/// At most one generation is registered per region.
pub struct ObserveRegistry {
    regions: HashMap<u64, ObserveId>,
}

impl View for ObserveRegistry {
    type V = Map<u64, ObserveId>;

    closed spec fn view(&self) -> Map<u64, ObserveId> {
        self.regions@
    }
}

impl ObserveRegistry {
    pub fn new() -> (r: ObserveRegistry)
        ensures
            r@ == Map::<u64, ObserveId>::empty(),
    {
        ObserveRegistry { regions: HashMap::new() }
    }

    /// Registers generation `id` for `region` whatever was there; returns
    /// the generation it replaces.
    pub fn subscribe(&mut self, region: u64, id: ObserveId) -> (r: Option<ObserveId>)
        ensures
            final(self)@ == old(self)@.insert(region, id),
            r == lookup_in(old(self)@, region),
    {
        self.regions.insert(region, id)
    }

    /// Removes the entry of `region` only if it holds generation `id`;
    /// returns the removed generation.
    pub fn unsubscribe(&mut self, region: u64, id: ObserveId) -> (r: Option<ObserveId>)
        ensures
            final(self)@ == after_unsubscribe(old(self)@, region, id),
            r == unsubscribe_result(old(self)@, region, id),
    {
        let matches = match self.regions.get(&region) {
            Some(current) => *current == id,
            None => false,
        };
        if matches {
            self.regions.remove(&region)
        } else {
            None
        }
    }

    /// The generation registered for `region`, if any.
    pub fn lookup(&self, region: u64) -> (r: Option<ObserveId>)
        ensures
            r == lookup_in(self@, region),
    {
        match self.regions.get(&region) {
            Some(current) => Some(*current),
            None => None,
        }
    }
}

/// Unsubscribing a generation other than the registered one changes
/// nothing: it returns none and the registered generation stays.
pub proof fn lemma_unsubscribe_other_generation_is_noop(
    m: Map<u64, ObserveId>,
    region: u64,
    a: ObserveId,
    b: ObserveId,
)
    requires
        a != b,
    ensures
        unsubscribe_result(m.insert(region, a), region, b) == None::<ObserveId>,
        after_unsubscribe(m.insert(region, a), region, b) == m.insert(region, a),
        lookup_in(after_unsubscribe(m.insert(region, a), region, b), region) == Some(a),
{
}

/// Unsubscribing the generation just subscribed returns it, and the region
/// is no longer registered.
pub proof fn lemma_unsubscribe_same_generation_removes(
    m: Map<u64, ObserveId>,
    region: u64,
    a: ObserveId,
)
    ensures
        unsubscribe_result(m.insert(region, a), region, a) == Some(a),
        lookup_in(after_unsubscribe(m.insert(region, a), region, a), region) == None::<ObserveId>,
{
}

} // verus!
