//! The event multiplexer's decisions: what each firing of one of its three
//! sources puts on the channel, and when the multiplexer stops.
//!
//! The caller waits for whichever source is ready first and reports it as a
//! [`Fired`]; the decisions taken on it are here.

use vstd::prelude::*;
use crate::event::{Event, KeyEvent, KeyEventKind, MouseEvent};

verus! {

/// The tick period, in milliseconds, used where none is chosen.
pub const DEFAULT_TICK_MILLIS: u64 = 250;

/// A low-level notification of the terminal input source.
#[derive(Clone, Debug, PartialEq, Eq)]
pub enum Notification {
    FocusGained,
    FocusLost,
    Key(KeyEvent),
    Mouse(MouseEvent),
    Paste(String),
    Resize(u16, u16),
}

/// What one poll of the input source gave.
#[derive(Clone, Debug, PartialEq, Eq)]
pub enum Polled {
    /// A notification was read.
    Item(Notification),
    /// The read failed.
    Failed,
    /// The source has ended.
    Closed,
}

/// The source that became ready first, with what it produced.
#[derive(Clone, Debug, PartialEq, Eq)]
pub enum Fired {
    Input(Polled),
    Tick,
    Render,
}

/// Whether the multiplexer goes on waiting on its sources.
#[derive(Clone, Copy, Debug, PartialEq, Eq, Structural)]
pub enum MuxState {
    Running,
    /// The consumer is gone; nothing is left to observe further events.
    Stopped,
}

/// The event that a firing puts on the channel, if any.
///
/// Every firing gives exactly one event, with two exceptions. A timer gives
/// its own event, a failed read gives `Event::Error`, and a notification
/// gives the event of the same name with the same contents. Of the key
/// notifications only a press is passed on: a repeat or a release gives
/// nothing, so that one keystroke is one event. The end of the input source
/// gives nothing either.
pub open spec fn event_of(fired: Fired) -> Option<Event> {
    match fired {
        Fired::Tick => Some(Event::Tick),
        Fired::Render => Some(Event::Render),
        Fired::Input(Polled::Failed) => Some(Event::Error),
        Fired::Input(Polled::Closed) => None,
        Fired::Input(Polled::Item(notification)) => match notification {
            Notification::FocusGained => Some(Event::FocusGained),
            Notification::FocusLost => Some(Event::FocusLost),
            Notification::Key(key) => if key.kind == KeyEventKind::Press {
                Some(Event::Key(key))
            } else {
                None
            },
            Notification::Mouse(mouse) => Some(Event::Mouse(mouse)),
            Notification::Paste(text) => Some(Event::Paste(text)),
            Notification::Resize(columns, rows) => Some(Event::Resize(columns, rows)),
        },
    }
}

/// Translates a firing into the event to push, or `None` where the firing
/// gives none.
pub fn translate(fired: Fired) -> (event: Option<Event>)
    ensures
        event == event_of(fired),
{
    match fired {
        Fired::Tick => Some(Event::Tick),
        Fired::Render => Some(Event::Render),
        Fired::Input(polled) => match polled {
            Polled::Failed => Some(Event::Error),
            Polled::Closed => None,
            Polled::Item(notification) => match notification {
                Notification::FocusGained => Some(Event::FocusGained),
                Notification::FocusLost => Some(Event::FocusLost),
                Notification::Key(key) => {
                    match key.kind {
                        KeyEventKind::Press => Some(Event::Key(key)),
                        _ => None,
                    }
                },
                Notification::Mouse(mouse) => Some(Event::Mouse(mouse)),
                Notification::Paste(text) => Some(Event::Paste(text)),
                Notification::Resize(columns, rows) => Some(Event::Resize(columns, rows)),
            },
        },
    }
}

/// The multiplexer's state after a push: it goes on while the push was
/// delivered and stops once the consumer is gone.
pub fn after_push(delivered: bool) -> (state: MuxState)
    ensures
        state == if delivered {
            MuxState::Running
        } else {
            MuxState::Stopped
        },
{
    if delivered {
        MuxState::Running
    } else {
        MuxState::Stopped
    }
}

/// The periods of the two timers, in milliseconds. Both are positive: a
/// timer with period zero cannot be armed.
#[derive(Clone, Copy, Debug, PartialEq, Eq, Structural)]
pub struct Periods {
    tick_millis: u64,
    render_millis: u64,
}

impl Periods {
    /// Both periods are positive.
    pub closed spec fn wf(&self) -> bool {
        self.tick_millis > 0 && self.render_millis > 0
    }

    pub closed spec fn spec_tick_millis(&self) -> u64 {
        self.tick_millis
    }

    pub closed spec fn spec_render_millis(&self) -> u64 {
        self.render_millis
    }

    /// Periods with the given tick period; the render period defaults to
    /// the tick period. `None` exactly when `tick_millis` is zero.
    pub fn new(tick_millis: u64) -> (periods: Option<Periods>)
        ensures
            periods is Some <==> tick_millis > 0,
            periods matches Some(p) ==> p.wf() && p.spec_tick_millis() == tick_millis
                && p.spec_render_millis() == tick_millis,
    {
        if tick_millis > 0 {
            Some(Periods { tick_millis, render_millis: tick_millis })
        } else {
            None
        }
    }

    /// The same periods with another render period. `None` exactly when
    /// `render_millis` is zero.
    pub fn with_render(self, render_millis: u64) -> (periods: Option<Periods>)
        requires
            self.wf(),
        ensures
            periods is Some <==> render_millis > 0,
            periods matches Some(p) ==> p.wf() && p.spec_tick_millis() == self.spec_tick_millis()
                && p.spec_render_millis() == render_millis,
    {
        if render_millis > 0 {
            Some(Periods { tick_millis: self.tick_millis, render_millis })
        } else {
            None
        }
    }

    #[verifier::when_used_as_spec(spec_tick_millis)]
    pub fn tick_millis(&self) -> (millis: u64)
        requires
            self.wf(),
        ensures
            millis == self.spec_tick_millis(),
            millis > 0,
    {
        self.tick_millis
    }

    #[verifier::when_used_as_spec(spec_render_millis)]
    pub fn render_millis(&self) -> (millis: u64)
        requires
            self.wf(),
        ensures
            millis == self.spec_render_millis(),
            millis > 0,
    {
        self.render_millis
    }
}

impl Default for Periods {
    /// The default tick period for both timers.
    fn default() -> (periods: Periods)
        ensures
            periods.wf(),
            periods.spec_tick_millis() == DEFAULT_TICK_MILLIS,
            periods.spec_render_millis() == DEFAULT_TICK_MILLIS,
    {
        Periods { tick_millis: DEFAULT_TICK_MILLIS, render_millis: DEFAULT_TICK_MILLIS }
    }
}

/// The channel has closed: every producer is gone, so the update loop can
/// make no further progress.
#[derive(Clone, Copy, Debug, PartialEq, Eq, Structural)]
pub struct ChannelClosed;

impl ChannelClosed {
    /// The text that this failure is reported with.
    pub fn message(&self) -> (text: String)
        ensures
            text@ == "Unable to get event"@,
    {
        "Unable to get event".to_owned()
    }
}

/// What the update loop makes of one receive: the event, or a hard failure
/// exactly when the channel gave nothing because it has closed.
pub fn next_event(received: Option<Event>) -> (next: Result<Event, ChannelClosed>)
    ensures
        next == match received {
            Some(event) => Ok::<Event, ChannelClosed>(event),
            None => Err::<Event, ChannelClosed>(ChannelClosed),
        },
{
    match received {
        Some(event) => Ok(event),
        None => Err(ChannelClosed),
    }
}

} // verus!
