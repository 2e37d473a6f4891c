//! The producer side of the shared channel.
//!
//! The channel itself is tokio's unbounded queue. Whether a push is
//! delivered depends on whether the consumer still lives, which nothing
//! here can know; the functions below fix what is pushed and what follows
//! from either outcome.

use vstd::prelude::*;
use tokio::sync::mpsc::UnboundedSender;
use crate::action::Action;
use crate::event::Event;
use crate::mux::{after_push, event_of, translate, Fired, MuxState};

verus! {

#[verifier::external_type_specification]
#[verifier::external_body]
#[verifier::reject_recursive_types(T)]
pub struct ExUnboundedSender<T>(UnboundedSender<T>);

/// Calls `tokio::sync::mpsc::UnboundedSender::send` and reports whether the
/// item was queued. Nothing is claimed of the answer: the send fails exactly
/// when the receiving half is closed or dropped, which is outside this
/// function's arguments. The call never blocks and has no panicking path;
/// tokio aborts the process if the count of queued items would overflow
/// `usize`, which no machine's memory allows.
#[verifier::external_body]
fn push<T>(tx: &UnboundedSender<T>, item: T) -> (delivered: bool) {
    tx.send(item).is_ok()
}

/// One iteration of the multiplexer after the wait: translates the firing
/// and pushes the event, if there is one, exactly once.
///
/// A firing that gives no event leaves the multiplexer running. Otherwise
/// the state is that of `after_push` on the outcome of the push: stopped
/// once the consumer is gone.
pub fn forward(tx: &UnboundedSender<Event>, fired: Fired) -> (state: MuxState)
    ensures
        event_of(fired) is None ==> state == MuxState::Running,
{
    match translate(fired) {
        Some(event) => {
            let delivered = push(tx, event);
            after_push(delivered)
        },
        None => MuxState::Running,
    }
}

/// The last step of a deferred task: pushes the follow-up action. A push
/// that fails because the loop has already exited is dropped without a
/// trace: the task's result is simply discarded.
pub fn deliver(tx: &UnboundedSender<Action>, follow_up: Action) {
    let _delivered = push(tx, follow_up);
}

} // verus!
