//! The update loop: the single consumer, which applies actions in the order
//! in which they arrive until one of them is `Quit`.

use vstd::prelude::*;
use crate::action::{action_of, dispatch, Action};
use crate::event::Event;
use crate::state::{apply, counter_fits, effect_of, update, App, AppState, Effect};

verus! {

/// One iteration of the loop: a running loop applies the action, a
/// terminated one ignores it.
pub open spec fn step(s: AppState, action: Action) -> AppState {
    if s.should_quit {
        s
    } else {
        apply(s, action)
    }
}

/// The state after the loop, started in `s`, has been offered `actions` in
/// order.
pub open spec fn run(s: AppState, actions: Seq<Action>) -> AppState
    decreases actions.len(),
{
    if actions.len() == 0 {
        s
    } else {
        step(run(s, actions.drop_last()), actions.last())
    }
}

/// How many of `actions` the loop applies before it terminates: those that
/// arrive while it is still running.
pub open spec fn applied(s: AppState, actions: Seq<Action>) -> nat
    decreases actions.len(),
{
    if actions.len() == 0 {
        0
    } else if run(s, actions.drop_last()).should_quit {
        applied(s, actions.drop_last())
    } else {
        applied(s, actions.drop_last()) + 1
    }
}

/// The deferred work that the loop asks for while it is offered `actions`,
/// in the order in which it asks.
pub open spec fn requested(s: AppState, actions: Seq<Action>) -> Seq<Effect>
    decreases actions.len(),
{
    if actions.len() == 0 {
        Seq::empty()
    } else if run(s, actions.drop_last()).should_quit || effect_of(actions.last())
        == Effect::Nothing {
        requested(s, actions.drop_last())
    } else {
        requested(s, actions.drop_last()).push(effect_of(actions.last()))
    }
}

/// The counter fits the machine counter after every prefix of `actions`.
pub open spec fn stays_in_range(s: AppState, actions: Seq<Action>) -> bool {
    forall|k: int|
        0 <= k <= actions.len() ==> counter_fits(#[trigger] run(s, actions.take(k)).counter)
}

/// The actions that a sequence of events stands for, one for one.
pub open spec fn actions_of(events: Seq<Event>) -> Seq<Action> {
    Seq::new(events.len(), |i: int| action_of(events[i]))
}

/// What a run of the loop over a queue did besides changing the state.
#[derive(Clone, Debug, PartialEq, Eq)]
pub struct Outcome {
    /// The number of actions applied; the rest of the queue was left
    /// untouched because the loop had terminated.
    pub applied: usize,
    /// The deferred work that the caller has to start, in order.
    pub deferred: Vec<Effect>,
}

/// Offering `a` and then `b` is offering `a + b`.
pub proof fn lemma_run_concat(s: AppState, a: Seq<Action>, b: Seq<Action>)
    ensures
        run(s, a + b) == run(run(s, a), b),
        applied(s, a + b) == applied(s, a) + applied(run(s, a), b),
        requested(s, a + b) == requested(s, a) + requested(run(s, a), b),
    decreases b.len(),
{
    if b.len() == 0 {
        assert(a + b =~= a);
        assert(requested(s, a) + Seq::<Effect>::empty() =~= requested(s, a));
    } else {
        lemma_run_concat(s, a, b.drop_last());
        assert((a + b).drop_last() =~= a + b.drop_last());
        assert((a + b).last() == b.last());
        let r = requested(s, a);
        let t = requested(run(s, a), b.drop_last());
        assert((r + t).push(effect_of(b.last())) =~= r + t.push(effect_of(b.last())));
    }
}

/// A terminated loop stays as it is: whatever is still queued, the state
/// does not change, nothing is applied and no work is asked for.
pub proof fn lemma_quit_is_terminal(s: AppState, actions: Seq<Action>)
    requires
        s.should_quit,
    ensures
        run(s, actions) == s,
        applied(s, actions) == 0,
        requested(s, actions) == Seq::<Effect>::empty(),
    decreases actions.len(),
{
    if actions.len() > 0 {
        lemma_quit_is_terminal(s, actions.drop_last());
    }
}

/// Runs the loop over a queue of actions: each is applied in turn until the
/// queue is empty or a `Quit` has been applied.
pub fn run_actions(app: &mut App, actions: &Vec<Action>) -> (out: Outcome)
    requires
        stays_in_range(old(app)@, actions@),
    ensures
        final(app)@ == run(old(app)@, actions@),
        out.applied == applied(old(app)@, actions@),
        out.applied <= actions@.len(),
        out.deferred@ == requested(old(app)@, actions@),
{
    let ghost s0 = app@;
    let mut cur: App = *app;
    let mut deferred: Vec<Effect> = Vec::new();
    let mut i: usize = 0;
    assert(actions@.take(0) =~= Seq::<Action>::empty());
    while i < actions.len() && !cur.should_quit
        invariant
            0 <= i <= actions.len(),
            stays_in_range(s0, actions@),
            cur@ == run(s0, actions@.take(i as int)),
            i == applied(s0, actions@.take(i as int)),
            deferred@ == requested(s0, actions@.take(i as int)),
        decreases actions.len() - i,
    {
        let action = actions[i];
        proof {
            assert(actions@.take(i + 1).drop_last() =~= actions@.take(i as int));
            assert(actions@.take(i + 1).last() == action);
            assert(counter_fits(run(s0, actions@.take(i + 1)).counter));
        }
        let effect = update(&mut cur, action);
        match effect {
            Effect::Nothing => {},
            Effect::Defer { .. } => {
                deferred.push(effect);
            },
        }
        i = i + 1;
    }
    proof {
        let done = actions@.take(i as int);
        let rest = actions@.skip(i as int);
        assert(done + rest =~= actions@);
        lemma_run_concat(s0, done, rest);
        if cur.should_quit {
            lemma_quit_is_terminal(cur@, rest);
        } else {
            assert(rest =~= Seq::<Action>::empty());
        }
        assert(requested(s0, done) + Seq::<Effect>::empty() =~= requested(s0, done));
    }
    *app = cur;
    Outcome { applied: i, deferred }
}

/// Maps a queue of events to the actions they stand for.
pub fn dispatch_all(events: &Vec<Event>) -> (actions: Vec<Action>)
    ensures
        actions@ == actions_of(events@),
{
    let mut actions: Vec<Action> = Vec::new();
    let mut i: usize = 0;
    while i < events.len()
        invariant
            0 <= i <= events.len(),
            actions@ == actions_of(events@.take(i as int)),
        decreases events.len() - i,
    {
        let action = dispatch(&events[i]);
        actions.push(action);
        i = i + 1;
        assert(actions@ =~= actions_of(events@.take(i as int)));
    }
    assert(events@.take(i as int) =~= events@);
    actions
}

/// Runs the loop over a queue of events: each event is mapped to its action
/// and applied, until the queue is empty or a `Quit` has been applied.
pub fn run_events(app: &mut App, events: &Vec<Event>) -> (out: Outcome)
    requires
        stays_in_range(old(app)@, actions_of(events@)),
    ensures
        final(app)@ == run(old(app)@, actions_of(events@)),
        out.applied == applied(old(app)@, actions_of(events@)),
        out.applied <= events@.len(),
        out.deferred@ == requested(old(app)@, actions_of(events@)),
{
    let actions = dispatch_all(events);
    run_actions(app, &actions)
}

} // verus!
