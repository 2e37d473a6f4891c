//! The application state, and what one action does to it.

use vstd::prelude::*;
use crate::action::Action;

verus! {

/// Seconds that deferred work takes before its follow-up action is sent.
pub const DEFERRED_DELAY_SECS: u64 = 5;

/// The application state: a counter, and whether the loop has been told to
/// stop.
#[derive(Clone, Copy, Debug, PartialEq, Eq, Structural)]
pub struct App {
    pub counter: i64,
    pub should_quit: bool,
}

/// The state as the contracts see it, with an unbounded counter.
pub struct AppState {
    pub counter: int,
    pub should_quit: bool,
}

/// What the caller must do after an action has been applied.
#[derive(Clone, Copy, Debug, PartialEq, Eq, Structural)]
pub enum Effect {
    /// Nothing.
    Nothing,
    /// Start a detached task that waits `delay_secs` seconds and then sends
    /// `follow_up` into the action channel.
    Defer { delay_secs: u64, follow_up: Action },
}

/// The state after `action` has been applied to `s`.
pub open spec fn apply(s: AppState, action: Action) -> AppState {
    match action {
        Action::Increment => AppState { counter: s.counter + 1, ..s },
        Action::Decrement => AppState { counter: s.counter - 1, ..s },
        Action::Quit => AppState { should_quit: true, ..s },
        _ => s,
    }
}

/// What applying `action` asks of the caller.
pub open spec fn effect_of(action: Action) -> Effect {
    match action {
        Action::DeferredIncrement => Effect::Defer {
            delay_secs: DEFERRED_DELAY_SECS,
            follow_up: Action::Increment,
        },
        Action::DeferredDecrement => Effect::Defer {
            delay_secs: DEFERRED_DELAY_SECS,
            follow_up: Action::Decrement,
        },
        _ => Effect::Nothing,
    }
}

/// Whether a counter value fits the machine counter.
pub open spec fn counter_fits(c: int) -> bool {
    i64::MIN <= c <= i64::MAX
}

impl View for App {
    type V = AppState;

    open spec fn view(&self) -> AppState {
        AppState { counter: self.counter as int, should_quit: self.should_quit }
    }
}

impl App {
    /// A fresh state: counter 0, running.
    pub fn new() -> (app: App)
        ensures
            app@ == (AppState { counter: 0, should_quit: false }),
    {
        App { counter: 0, should_quit: false }
    }
}

/// Applies one action to the state and says what the caller has to start.
///
/// `Increment` and `Decrement` move the counter by one, `Quit` raises
/// `should_quit`, a deferred action leaves the state alone and asks for a
/// delayed follow-up, and every other action does nothing.
pub fn update(app: &mut App, action: Action) -> (effect: Effect)
    requires
        counter_fits(apply(old(app)@, action).counter),
    ensures
        final(app)@ == apply(old(app)@, action),
        effect == effect_of(action),
{
    match action {
        Action::Increment => {
            app.counter = app.counter + 1;
            Effect::Nothing
        },
        Action::Decrement => {
            app.counter = app.counter - 1;
            Effect::Nothing
        },
        Action::DeferredIncrement => Effect::Defer {
            delay_secs: DEFERRED_DELAY_SECS,
            follow_up: Action::Increment,
        },
        Action::DeferredDecrement => Effect::Defer {
            delay_secs: DEFERRED_DELAY_SECS,
            follow_up: Action::Decrement,
        },
        Action::Quit => {
            app.should_quit = true;
            Effect::Nothing
        },
        _ => Effect::Nothing,
    }
}

/// Whether the renderer is called, with the state as it then is, once
/// `action` has been applied: exactly for `Action::Render`.
pub fn calls_for_draw(action: Action) -> (draw: bool)
    ensures
        draw == (action == Action::Render),
{
    match action {
        Action::Render => true,
        _ => false,
    }
}

} // verus!
