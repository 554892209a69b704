//! The menu: moving the selection and acting on it.

use vstd::prelude::*;
use crate::events::GameFlowEvent;

verus! {

/// What happened in a menu.
#[derive(Debug, Clone, Copy, PartialEq, Eq, Structural)]
pub enum UIEvents {
    SelectionChange,
    /// The entry of the given number was chosen.
    SelectionActivated(u8),
}

/// The entries of the game menu, top to bottom.
#[derive(Debug, Clone, Copy, PartialEq, Eq, Structural)]
pub enum OptionValues {
    NewGame,
    Settings,
}

impl OptionValues {
    /// The entry's number, counted from the top.
    pub open spec fn number(self) -> u8 {
        match self {
            OptionValues::NewGame => 0,
            OptionValues::Settings => 1,
        }
    }

    /// The entry of the given number, if there is one.
    pub open spec fn of_number(value: u8) -> Option<OptionValues> {
        if value == 0 {
            Some(OptionValues::NewGame)
        } else if value == 1 {
            Some(OptionValues::Settings)
        } else {
            None
        }
    }

    /// The entry's number, counted from the top.
    pub fn index(&self) -> (number: u8)
        ensures
            number == self.number(),
    {
        match self {
            OptionValues::NewGame => 0,
            OptionValues::Settings => 1,
        }
    }

    /// The entry of the given number, or an error if there is none.
    pub fn try_from(value: u8) -> (entry: Result<OptionValues, ()>)
        ensures
            entry is Ok <==> OptionValues::of_number(value) is Some,
            entry matches Ok(option) ==> OptionValues::of_number(value) == Some(option),
    {
        match value {
            0 => Ok(OptionValues::NewGame),
            1 => Ok(OptionValues::Settings),
            _ => Err(()),
        }
    }
}

/// The entry selected after the player has pressed down, up, both or
/// neither: down moves one entry down and up one entry up, down first, and a
/// move that leads off the menu is not made.
pub open spec fn moved_selection(selected: OptionValues, down: bool, up: bool) -> OptionValues {
    let lower = if down {
        selected.number() + 1
    } else {
        selected.number() as int
    };
    let aim = if up && lower > 0 {
        lower - 1
    } else {
        lower
    };
    match OptionValues::of_number(aim as u8) {
        Some(entry) => entry,
        None => selected,
    }
}

/// What the menu reports after the player's input: always that the
/// selection may have changed, and then the entry chosen, if one was.
pub open spec fn menu_events(selected: OptionValues, activate: bool) -> Seq<UIEvents> {
    if activate {
        seq![UIEvents::SelectionChange, UIEvents::SelectionActivated(selected.number())]
    } else {
        seq![UIEvents::SelectionChange]
    }
}

/// Moves the selection as the player asks and reports what happened.
pub fn ui_handle_action(
    selected: &mut OptionValues,
    down: bool,
    up: bool,
    activate: bool,
) -> (events: Vec<UIEvents>)
    ensures
        *final(selected) == moved_selection(*old(selected), down, up),
        events@ == menu_events(*final(selected), activate),
{
    let mut events: Vec<UIEvents> = Vec::new();
    let mut curr: u8 = selected.index();
    if down {
        curr += 1;
    }

    if up && curr > 0 {
        curr -= 1;
    }

    match OptionValues::try_from(curr) {
        Ok(v) => {
            *selected = v;
        },
        Err(_) => {},
    }

    events.push(UIEvents::SelectionChange);

    if activate {
        events.push(UIEvents::SelectionActivated(selected.index()));
    }
    assert(events@ =~= menu_events(*selected, activate));
    events
}

/// What the game does about a report of the menu: choosing the first entry
/// starts a match, and nothing else has an effect on the game.
pub open spec fn menu_effect(event: UIEvents) -> Option<GameFlowEvent> {
    match event {
        UIEvents::SelectionActivated(number) => if number == 0 {
            Some(GameFlowEvent::StartMatch)
        } else {
            None
        },
        UIEvents::SelectionChange => None,
    }
}

/// Acts on a report of the menu. The entry chosen must be one of the menu.
pub fn ui_update(event: &UIEvents) -> (effect: Option<GameFlowEvent>)
    requires
        *event matches UIEvents::SelectionActivated(number) ==> OptionValues::of_number(number)
            is Some,
    ensures
        effect == menu_effect(*event),
{
    match event {
        UIEvents::SelectionChange => None,
        UIEvents::SelectionActivated(num) => {
            match OptionValues::try_from(*num) {
                Ok(OptionValues::NewGame) => Some(GameFlowEvent::StartMatch),
                Ok(OptionValues::Settings) => None,
                Err(_) => None,
            }
        },
    }
}

} // verus!
