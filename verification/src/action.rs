//! Actions, and the mapping from events to actions.

use vstd::prelude::*;
use crate::event::{Event, KeyCode};
use crate::state::App;

verus! {

/// One unit of intended state change, consumed by the update loop.
#[derive(Clone, Copy, Debug, PartialEq, Eq, Structural)]
pub enum Action {
    Tick,
    Increment,
    Decrement,
    /// Start background work that ends in an `Increment`.
    DeferredIncrement,
    /// Start background work that ends in a `Decrement`.
    DeferredDecrement,
    Quit,
    Render,
    /// Nothing to do.
    Noop,
}

/// The action that a character key stands for.
pub open spec fn action_of_char(c: char) -> Action {
    if c == 'j' {
        Action::Increment
    } else if c == 'k' {
        Action::Decrement
    } else if c == 'J' || c == 'K' {
        Action::DeferredIncrement
    } else if c == 'q' {
        Action::Quit
    } else {
        Action::Noop
    }
}

/// The action that an event stands for. Timer events map to the action of
/// the same name, a key to the action of its character, and everything else
/// to `Action::Noop`. The state plays no part.
pub open spec fn action_of(event: Event) -> Action {
    match event {
        Event::Tick => Action::Tick,
        Event::Render => Action::Render,
        Event::Key(key) => match key.code {
            KeyCode::Char(c) => action_of_char(c),
            _ => Action::Noop,
        },
        _ => Action::Noop,
    }
}

/// `action_of`, on a borrowed event.
pub fn dispatch(event: &Event) -> (action: Action)
    ensures
        action == action_of(*event),
{
    match event {
        Event::Tick => Action::Tick,
        Event::Render => Action::Render,
        Event::Key(key) => match key.code {
            KeyCode::Char(c) => {
                if c == 'j' {
                    Action::Increment
                } else if c == 'k' {
                    Action::Decrement
                } else if c == 'J' || c == 'K' {
                    Action::DeferredIncrement
                } else if c == 'q' {
                    Action::Quit
                } else {
                    Action::Noop
                }
            },
            _ => Action::Noop,
        },
        _ => Action::Noop,
    }
}

/// Maps an event to the action that the update loop applies for it.
///
/// `j` increments and `k` decrements; `J` and `K` both start a deferred
/// increment; `q` quits. The mapping has no side effect and does not read
/// the state.
pub fn get_action(_app: &App, event: Event) -> (action: Action)
    ensures
        action == action_of(event),
{
    dispatch(&event)
}

} // verus!
