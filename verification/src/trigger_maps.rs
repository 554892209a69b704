//! The two maps in which the state of the trigger groups is kept.

use vstd::prelude::*;
use crate::trigger::{TriggerGroup, TriggerState};

verus! {

/// A `bevy::utils::HashMap`, which is a `hashbrown::HashMap`, from a
/// trigger group to its state. Verus does not look inside; what it holds is
/// `state_entries`.
#[verifier::external_body]
pub struct StateMap {
    entries: bevy::utils::HashMap<TriggerGroup, TriggerState>,
}

/// What a `StateMap` holds.
pub uninterp spec fn state_entries(map: StateMap) -> Map<TriggerGroup, TriggerState>;

/// The state map that holds nothing.
pub open spec fn no_states() -> Map<TriggerGroup, TriggerState> {
    Map::empty()
}

impl StateMap {
    /// `hashbrown::HashMap::new`: a map that holds nothing.
    #[verifier::external_body]
    pub(crate) fn new() -> (map: StateMap)
        ensures
            state_entries(map) == no_states(),
    {
        StateMap { entries: bevy::utils::HashMap::new() }
    }

    /// `hashbrown::HashMap::insert`, whose result is dropped: afterwards `group` maps
    /// to `state`, and every other group to what it mapped to before.
    #[verifier::external_body]
    pub(crate) fn insert(&mut self, group: TriggerGroup, state: TriggerState)
        ensures
            state_entries(*final(self)) == state_entries(*old(self)).insert(group, state),
    {
        self.entries.insert(group, state);
    }

    /// `hashbrown::HashMap::get`: the state that `group` maps to, if it maps to one.
    #[verifier::external_body]
    pub(crate) fn get(&self, group: &TriggerGroup) -> (state: Option<&TriggerState>)
        ensures
            state == if state_entries(*self).contains_key(*group) {
                Some(&state_entries(*self)[*group])
            } else {
                None
            },
    {
        self.entries.get(group)
    }
}

/// A `bevy::utils::HashMap`, which is a `hashbrown::HashMap`, from a
/// trigger group to whether its latest change has been acted on. Verus does
/// not look inside; what it holds is `flag_entries`.
#[verifier::external_body]
pub struct FlagMap {
    entries: bevy::utils::HashMap<TriggerGroup, bool>,
}

/// What a `FlagMap` holds.
pub uninterp spec fn flag_entries(map: FlagMap) -> Map<TriggerGroup, bool>;

/// The flag map that holds nothing.
pub open spec fn no_flags() -> Map<TriggerGroup, bool> {
    Map::empty()
}

impl FlagMap {
    /// `hashbrown::HashMap::new`: a map that holds nothing.
    #[verifier::external_body]
    pub(crate) fn new() -> (map: FlagMap)
        ensures
            flag_entries(map) == no_flags(),
    {
        FlagMap { entries: bevy::utils::HashMap::new() }
    }

    /// `hashbrown::HashMap::insert`, whose result is dropped: afterwards `group` maps
    /// to `flag`, and every other group to what it mapped to before.
    #[verifier::external_body]
    pub(crate) fn insert(&mut self, group: TriggerGroup, flag: bool)
        ensures
            flag_entries(*final(self)) == flag_entries(*old(self)).insert(group, flag),
    {
        self.entries.insert(group, flag);
    }

    /// `hashbrown::HashMap::get`: the flag that `group` maps to, if it maps to one.
    #[verifier::external_body]
    pub(crate) fn get(&self, group: &TriggerGroup) -> (flag: Option<&bool>)
        ensures
            flag == if flag_entries(*self).contains_key(*group) {
                Some(&flag_entries(*self)[*group])
            } else {
                None
            },
    {
        self.entries.get(group)
    }
}

} // verus!
