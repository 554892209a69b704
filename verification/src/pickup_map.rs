//! The map that tells which pickup a level releases at which count of
//! remaining blocks.

use vstd::prelude::*;
use crate::pickups::PickupType;

verus! {

/// A `bevy::utils::HashMap`, which is a `hashbrown::HashMap`, from a count
/// of remaining blocks to a pickup. Verus does not look inside; what it
/// holds is `pickup_entries`.
#[verifier::external_body]
pub struct PickupMap {
    entries: bevy::utils::HashMap<usize, PickupType>,
}

/// What a `PickupMap` holds.
pub uninterp spec fn pickup_entries(map: PickupMap) -> Map<usize, PickupType>;

/// The map that holds nothing.
pub open spec fn no_pickups() -> Map<usize, PickupType> {
    Map::empty()
}

impl PickupMap {
    /// `hashbrown::HashMap::default`: a map that holds nothing.
    #[verifier::external_body]
    pub(crate) fn new() -> (map: PickupMap)
        ensures
            pickup_entries(map) == no_pickups(),
    {
        PickupMap { entries: bevy::utils::HashMap::default() }
    }

    /// `hashbrown::HashMap::clear`: afterwards the map holds nothing.
    #[verifier::external_body]
    pub(crate) fn clear(&mut self)
        ensures
            pickup_entries(*final(self)) == no_pickups(),
    {
        self.entries.clear();
    }

    /// `hashbrown::HashMap::insert`, whose result is dropped: afterwards `count` maps
    /// to `pickup`, and every other count to what it mapped to before.
    #[verifier::external_body]
    pub(crate) fn insert(&mut self, count: usize, pickup: PickupType)
        ensures
            pickup_entries(*final(self)) == pickup_entries(*old(self)).insert(count, pickup),
    {
        self.entries.insert(count, pickup);
    }

    /// `hashbrown::HashMap::get`: the pickup that `count` maps to, if it maps to one.
    #[verifier::external_body]
    pub(crate) fn get(&self, count: &usize) -> (pickup: Option<&PickupType>)
        ensures
            pickup == if pickup_entries(*self).contains_key(*count) {
                Some(&pickup_entries(*self)[*count])
            } else {
                None
            },
    {
        self.entries.get(count)
    }
}

} // verus!
