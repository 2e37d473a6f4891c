//! Laws of the update loop, stated over its model and proved.

use vstd::prelude::*;
use crate::action::{action_of, Action};
use crate::event::{Event, KeyCode, KeyEventKind};
use crate::mux::{event_of, Fired, Notification, Polled};
use crate::state::{counter_fits, AppState, Effect, DEFERRED_DELAY_SECS};
use crate::update_loop::{
    actions_of, applied, lemma_quit_is_terminal, lemma_run_concat, requested, run, stays_in_range,
    step,
};

verus! {

/// `event` is a key notification for the character `c`, of whatever kind
/// and with whatever modifiers.
pub open spec fn is_char_key(event: Event, c: char) -> bool {
    event matches Event::Key(key) && key.code == KeyCode::Char(c)
}

/// `event` comes from one of the two timers.
pub open spec fn is_timer_event(event: Event) -> bool {
    event == Event::Tick || event == Event::Render
}

/// The actions of two queues of events, one after the other, are the
/// actions of the joined queue.
pub proof fn lemma_actions_of_concat(a: Seq<Event>, b: Seq<Event>)
    ensures
        actions_of(a + b) == actions_of(a) + actions_of(b),
{
    assert(actions_of(a + b) =~= actions_of(a) + actions_of(b));
}

/// The loop has two states and one way between them: a running loop
/// terminates exactly on `Quit`, and a terminated loop never runs again.
pub proof fn lemma_loop_transitions(s: AppState, action: Action)
    ensures
        !s.should_quit ==> (step(s, action).should_quit <==> action == Action::Quit),
        s.should_quit ==> step(s, action) == s,
{
}

/// A running loop that is offered only `Increment` or only `Decrement`
/// applies every one: the counter moves by the length of the queue, the
/// loop keeps running and no deferred work is asked for.
pub proof fn lemma_run_uniform(s: AppState, actions: Seq<Action>, action: Action)
    requires
        !s.should_quit,
        action == Action::Increment || action == Action::Decrement,
        forall|i: int| 0 <= i < actions.len() ==> actions[i] == action,
    ensures
        run(s, actions).counter == if action == Action::Increment {
            s.counter + actions.len()
        } else {
            s.counter - actions.len()
        },
        !run(s, actions).should_quit,
        applied(s, actions) == actions.len(),
        requested(s, actions) == Seq::<Effect>::empty(),
    decreases actions.len(),
{
    if actions.len() > 0 {
        lemma_run_uniform(s, actions.drop_last(), action);
    }
}

/// Any number of `j` keys, offered to a running loop, raise the counter by
/// exactly that number, and every one of them is applied.
pub proof fn lemma_increment_keys_add_up(s: AppState, events: Seq<Event>)
    requires
        !s.should_quit,
        forall|i: int| 0 <= i < events.len() ==> is_char_key(#[trigger] events[i], 'j'),
    ensures
        run(s, actions_of(events)).counter == s.counter + events.len(),
        !run(s, actions_of(events)).should_quit,
        applied(s, actions_of(events)) == events.len(),
{
    lemma_run_uniform(s, actions_of(events), Action::Increment);
}

/// Any number of `k` keys, offered to a running loop, lower the counter by
/// exactly that number, and every one of them is applied.
pub proof fn lemma_decrement_keys_add_up(s: AppState, events: Seq<Event>)
    requires
        !s.should_quit,
        forall|i: int| 0 <= i < events.len() ==> is_char_key(#[trigger] events[i], 'k'),
    ensures
        run(s, actions_of(events)).counter == s.counter - events.len(),
        !run(s, actions_of(events)).should_quit,
        applied(s, actions_of(events)) == events.len(),
{
    lemma_run_uniform(s, actions_of(events), Action::Decrement);
}

/// A `q` key ends a running loop: the iteration that applies it is the
/// last. `should_quit` is raised, the counter is as before, and whatever is
/// queued behind the key is neither applied nor allowed to start deferred
/// work.
pub proof fn lemma_quit_key_ends_loop(s: AppState, quit: Event, rest: Seq<Event>)
    requires
        !s.should_quit,
        is_char_key(quit, 'q'),
    ensures
        run(s, actions_of(seq![quit] + rest)) == (AppState { should_quit: true, ..s }),
        applied(s, actions_of(seq![quit] + rest)) == 1,
        requested(s, actions_of(seq![quit] + rest)) == Seq::<Effect>::empty(),
{
    let first = actions_of(seq![quit]);
    let behind = actions_of(rest);
    lemma_actions_of_concat(seq![quit], rest);
    assert(first =~= seq![Action::Quit]);
    assert(first.drop_last() =~= Seq::<Action>::empty());
    reveal_with_fuel(run, 2);
    reveal_with_fuel(applied, 2);
    reveal_with_fuel(requested, 2);
    lemma_run_concat(s, first, behind);
    lemma_quit_is_terminal(run(s, first), behind);
    assert(requested(s, first) + Seq::<Effect>::empty() =~= requested(s, first));
}

/// A tick or a render request changes nothing: a queue with such an event
/// anywhere in it leaves the loop in the state that the queue without it
/// does, and asks for the same deferred work.
pub proof fn lemma_timer_event_changes_nothing(
    s: AppState,
    before: Seq<Event>,
    timer: Event,
    after: Seq<Event>,
)
    requires
        is_timer_event(timer),
    ensures
        run(s, actions_of(before + seq![timer] + after)) == run(s, actions_of(before + after)),
        requested(s, actions_of(before + seq![timer] + after)) == requested(
            s,
            actions_of(before + after),
        ),
{
    let a = actions_of(before);
    let t = actions_of(seq![timer]);
    let b = actions_of(after);
    lemma_actions_of_concat(before, seq![timer]);
    lemma_actions_of_concat(before + seq![timer], after);
    lemma_actions_of_concat(before, after);
    assert(t =~= seq![action_of(timer)]);
    assert((a + t).drop_last() =~= a);
    lemma_run_concat(s, a + t, b);
    lemma_run_concat(s, a, b);
}

/// A deferred increment followed at once by `n` plain increments leaves
/// the counter `n` higher: the deferred action itself changes nothing and
/// asks for one delayed `Increment`. Only when that follow-up arrives on the
/// channel does the counter gain the one more.
pub proof fn lemma_deferred_increment_then_increments(s: AppState, n: nat)
    requires
        !s.should_quit,
    ensures
        ({
            let queue = seq![Action::DeferredIncrement] + Seq::new(n, |i: int| Action::Increment);
            &&& run(s, queue).counter == s.counter + n
            &&& requested(s, queue) == seq![
                Effect::Defer { delay_secs: DEFERRED_DELAY_SECS, follow_up: Action::Increment },
            ]
            &&& run(s, queue.push(Action::Increment)).counter == s.counter + n + 1
        }),
{
    let first = seq![Action::DeferredIncrement];
    let plain = Seq::new(n, |i: int| Action::Increment);
    let queue = first + plain;
    assert(first.drop_last() =~= Seq::<Action>::empty());
    reveal_with_fuel(run, 2);
    reveal_with_fuel(applied, 2);
    reveal_with_fuel(requested, 2);
    assert(run(s, first) == s);
    lemma_run_concat(s, first, plain);
    lemma_run_uniform(s, plain, Action::Increment);
    assert(requested(s, first) =~= seq![
        Effect::Defer { delay_secs: DEFERRED_DELAY_SECS, follow_up: Action::Increment },
    ]);
    assert(requested(s, first) + Seq::<Effect>::empty() =~= requested(s, first));
    assert(queue.push(Action::Increment).drop_last() =~= queue);
}

/// A timer's firing is never dropped: each puts exactly its own event on
/// the channel, whatever the input source does in between.
pub proof fn lemma_timer_firings_are_never_dropped(fired: Fired)
    requires
        fired == Fired::Tick || fired == Fired::Render,
    ensures
        event_of(fired) == Some(
            if fired == Fired::Tick {
                Event::Tick
            } else {
                Event::Render
            },
        ),
        event_of(fired) matches Some(event) && is_timer_event(event),
{
}

/// Only two firings give no event: a key notification that is no press,
/// and the end of the input source. Every other firing gives exactly one.
pub proof fn lemma_only_key_repeats_and_the_end_give_nothing(fired: Fired)
    ensures
        event_of(fired) is None <==> (fired == Fired::Input(Polled::Closed) || (fired matches Fired::Input(
            Polled::Item(Notification::Key(key)),
        ) && key.kind != KeyEventKind::Press)),
{
}

/// Over any queue the counter moves by at most the length of the queue.
pub proof fn lemma_counter_drift_bounded(s: AppState, actions: Seq<Action>)
    ensures
        s.counter - actions.len() <= run(s, actions).counter <= s.counter + actions.len(),
    decreases actions.len(),
{
    if actions.len() > 0 {
        lemma_counter_drift_bounded(s, actions.drop_last());
    }
}

/// A queue short enough that the counter could not leave the machine range
/// even if every action moved it the same way keeps it in range throughout.
pub proof fn lemma_short_queue_stays_in_range(s: AppState, actions: Seq<Action>)
    requires
        counter_fits(s.counter - actions.len()),
        counter_fits(s.counter + actions.len()),
    ensures
        stays_in_range(s, actions),
{
    assert forall|k: int| 0 <= k <= actions.len() implies counter_fits(
        #[trigger] run(s, actions.take(k)).counter,
    ) by {
        lemma_counter_drift_bounded(s, actions.take(k));
    }
}

} // verus!
