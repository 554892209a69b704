//! Triggers: blocks that start and stop other blocks when the ball hits them.

use vstd::prelude::*;
use crate::physics::{CollidableKind, Collision};
use crate::trigger_maps::{flag_entries, no_flags, no_states, state_entries, FlagMap, StateMap};

verus! {

/// Identifier that links triggers to the blocks that receive them.
pub type TriggerGroup = u16;

/// The part that a block plays in its trigger group.
#[derive(Debug, Clone, Copy, PartialEq, Eq, Structural)]
pub enum TriggerType {
    Start,
    Stop,
    StartStop,
    ReceiverStartingInactive,
    ReceiverStartingActive,
}

/// A block that acts on its group when the ball hits it.
#[derive(Debug, Clone, Copy, PartialEq, Eq, Structural)]
pub struct BlockTrigger {
    pub group: TriggerGroup,
    pub trigger_type: TriggerType,
}

/// Marks a receiving block that is at rest.
#[derive(Debug, Clone, Copy, PartialEq, Eq, Structural)]
pub struct BlockTriggerTargetInactive;

/// A block that its group's triggers start and stop.
#[derive(Debug, Clone, Copy, PartialEq, Eq, Structural)]
pub struct BlockTriggerTarget {
    pub group: TriggerGroup,
    pub auto_stop: bool,
}

/// Whether a trigger group runs, and if so, the contact that started it.
#[derive(Debug, Clone, Copy, PartialEq, Eq)]
pub enum TriggerState {
    Started(Collision),
    Stopped,
}

/// What a receiving block is to do.
#[derive(Debug, Clone, Copy, PartialEq, Eq, Structural)]
pub enum TargetChange {
    /// Wake up.
    Activate,
    /// Come to rest.
    Deactivate,
    /// Stay as it is.
    Keep,
}

/// The state of every trigger group, and for each whether its latest change
/// has been acted on. A group that was never touched counts as stopped, and
/// its change as not acted on.
pub struct TriggerStates {
    states: StateMap,
    consumed: FlagMap,
}

impl TriggerStates {
    /// The state of each group that has one.
    pub closed spec fn states(&self) -> Map<TriggerGroup, TriggerState> {
        state_entries(self.states)
    }

    /// For each group that was started, stopped or consumed: whether its
    /// latest change has been acted on.
    pub closed spec fn consumed(&self) -> Map<TriggerGroup, bool> {
        flag_entries(self.consumed)
    }

    /// Whether the latest change of `group` has been acted on.
    pub open spec fn consumed_at(&self, group: TriggerGroup) -> bool {
        self.consumed().contains_key(group) && self.consumed()[group]
    }

    /// Whether `group` runs.
    pub open spec fn started_at(&self, group: TriggerGroup) -> bool {
        self.states().contains_key(group) && self.states()[group] is Started
    }

    /// Whether `group` rests.
    pub open spec fn stopped_at(&self, group: TriggerGroup) -> bool {
        !self.started_at(group)
    }

    /// No group has been touched.
    pub fn new() -> (states: TriggerStates)
        ensures
            states.states() == no_states(),
            states.consumed() == no_flags(),
    {
        return TriggerStates { states: StateMap::new(), consumed: FlagMap::new() };
    }

    /// Tells whether the latest change of `group` has been acted on.
    pub fn is_consumed(&self, group: TriggerGroup) -> (consumed: bool)
        ensures
            consumed == self.consumed_at(group),
    {
        match self.consumed.get(&group) {
            None => false,
            Some(c) => *c,
        }
    }

    /// The state of `group`, if it has one.
    pub fn get_state(&self, group: TriggerGroup) -> (state: Option<&TriggerState>)
        ensures
            state == if self.states().contains_key(group) {
                Some(&self.states()[group])
            } else {
                None
            },
    {
        self.states.get(&group)
    }

    /// Notes that the latest change of `group` has been acted on.
    pub fn consume(&mut self, group: TriggerGroup)
        ensures
            final(self).consumed() == old(self).consumed().insert(group, true),
            final(self).states() == old(self).states(),
    {
        self.consumed.insert(group, true);
    }

    fn unconsume(&mut self, group: TriggerGroup)
        ensures
            final(self).consumed() == old(self).consumed().insert(group, false),
            final(self).states() == old(self).states(),
    {
        self.consumed.insert(group, false);
    }

    /// Starts `group` with the contact that caused it. The change waits to
    /// be acted on.
    pub fn start(&mut self, group: TriggerGroup, collision: Collision)
        ensures
            final(self).states() == old(self).states().insert(
                group,
                TriggerState::Started(collision),
            ),
            final(self).consumed() == old(self).consumed().insert(group, false),
    {
        self.states.insert(group, TriggerState::Started(collision));
        self.unconsume(group);
    }

    /// Stops `group`. The change waits to be acted on.
    pub fn stop(&mut self, group: TriggerGroup)
        ensures
            final(self).states() == old(self).states().insert(group, TriggerState::Stopped),
            final(self).consumed() == old(self).consumed().insert(group, false),
    {
        self.states.insert(group, TriggerState::Stopped);
        self.unconsume(group);
    }

    /// Starts `group` if it rests, and stops it if it runs.
    pub fn flip(&mut self, group: TriggerGroup, collision: Collision)
        ensures
            final(self).states() == old(self).states().insert(
                group,
                if old(self).stopped_at(group) {
                    TriggerState::Started(collision)
                } else {
                    TriggerState::Stopped
                },
            ),
            final(self).consumed() == old(self).consumed().insert(group, false),
    {
        if self.is_stopped(group) {
            self.start(group, collision);
        } else {
            self.stop(group);
        }
    }

    /// Tells whether `group` runs.
    pub fn is_started(&self, group: TriggerGroup) -> (started: bool)
        ensures
            started == self.started_at(group),
    {
        match self.states.get(&group) {
            None => false,
            Some(s) => if let TriggerState::Started(_) = *s {
                true
            } else {
                false
            },
        }
    }

    /// Tells whether `group` rests. A group that was never touched does.
    pub fn is_stopped(&self, group: TriggerGroup) -> (stopped: bool)
        ensures
            stopped == self.stopped_at(group),
    {
        match self.states.get(&group) {
            None => true,
            Some(s) => match s {
                TriggerState::Stopped => true,
                TriggerState::Started(_) => false,
            },
        }
    }

    /// Whether a contact makes a trigger act: the ball touched it, and its
    /// part is to start, to stop or to flip its group.
    pub open spec fn fires(trigger: BlockTrigger, collision: Collision) -> bool {
        &&& collision.other is Ball
        &&& trigger.trigger_type is Start || trigger.trigger_type is Stop
            || trigger.trigger_type is StartStop
    }

    /// The state in which a trigger that acts leaves its group.
    pub open spec fn fired_state(
        &self,
        trigger: BlockTrigger,
        collision: Collision,
    ) -> TriggerState {
        if trigger.trigger_type is Start || (trigger.trigger_type is StartStop && self.stopped_at(
            trigger.group,
        )) {
            TriggerState::Started(collision)
        } else {
            TriggerState::Stopped
        }
    }

    /// Lets a trigger act on its group when something touches it. The ball
    /// starts, stops or flips the group, as the trigger's part says, and
    /// the change waits to be acted on. Anything else, and a trigger in a
    /// receiver's part, changes nothing.
    pub fn fire(&mut self, trigger: &BlockTrigger, collision: Collision)
        ensures
            final(self).states() == if TriggerStates::fires(*trigger, collision) {
                old(self).states().insert(
                    trigger.group,
                    old(self).fired_state(*trigger, collision),
                )
            } else {
                old(self).states()
            },
            final(self).consumed() == if TriggerStates::fires(*trigger, collision) {
                old(self).consumed().insert(trigger.group, false)
            } else {
                old(self).consumed()
            },
    {
        match collision.other {
            CollidableKind::Ball => {
                match trigger.trigger_type {
                    TriggerType::Start => self.start(trigger.group, collision),
                    TriggerType::Stop => self.stop(trigger.group),
                    TriggerType::StartStop => self.flip(trigger.group, collision),
                    TriggerType::ReceiverStartingInactive => {},
                    TriggerType::ReceiverStartingActive => {},
                }
            },
            _ => {},
        }
    }

    /// What the latest change of its group asks of a receiving block.
    pub open spec fn change_for(&self, group: TriggerGroup) -> TargetChange {
        if self.consumed_at(group) {
            TargetChange::Keep
        } else if self.started_at(group) {
            TargetChange::Activate
        } else {
            TargetChange::Deactivate
        }
    }

    /// Tells a receiving block of `group` what to do, and notes that the
    /// group's latest change has been acted on: the first receiver to ask
    /// wakes up or comes to rest, and those that ask after it stay as they
    /// are.
    pub fn update_target(&mut self, target: &BlockTriggerTarget) -> (change: TargetChange)
        ensures
            change == old(self).change_for(target.group),
            final(self).states() == old(self).states(),
            final(self).consumed() == if change is Keep {
                old(self).consumed()
            } else {
                old(self).consumed().insert(target.group, true)
            },
    {
        if self.is_started(target.group) && !self.is_consumed(target.group) {
            self.consume(target.group);
            TargetChange::Activate
        } else if self.is_stopped(target.group) && !self.is_consumed(target.group) {
            self.consume(target.group);
            TargetChange::Deactivate
        } else {
            TargetChange::Keep
        }
    }
}

} // verus!
