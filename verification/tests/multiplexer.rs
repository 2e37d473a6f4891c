use async_counter::action::Action;
use async_counter::channel::{deliver, forward};
use async_counter::event::{Event, KeyCode, KeyEvent, KeyEventKind, MouseEvent, MouseEventKind};
use async_counter::mux::{
    after_push, next_event, translate, ChannelClosed, Fired, MuxState, Notification, Periods,
    Polled, DEFAULT_TICK_MILLIS,
};
use tokio::sync::mpsc::unbounded_channel;

fn key_of_kind(kind: KeyEventKind) -> KeyEvent {
    KeyEvent { code: KeyCode::Char('j'), modifiers: 0, kind }
}

fn input(n: Notification) -> Fired {
    Fired::Input(Polled::Item(n))
}

#[test]
fn timers_translate_to_their_events() {
    assert_eq!(translate(Fired::Tick), Some(Event::Tick));
    assert_eq!(translate(Fired::Render), Some(Event::Render));
}

#[test]
fn only_key_presses_pass() {
    let press = key_of_kind(KeyEventKind::Press);
    assert_eq!(translate(input(Notification::Key(press))), Some(Event::Key(press)));
    assert_eq!(translate(input(Notification::Key(key_of_kind(KeyEventKind::Repeat)))), None);
    assert_eq!(translate(input(Notification::Key(key_of_kind(KeyEventKind::Release)))), None);
}

#[test]
fn other_notifications_pass_as_their_own_events() {
    let mouse = MouseEvent { kind: MouseEventKind::ScrollUp, column: 3, row: 4, modifiers: 0 };
    assert_eq!(translate(input(Notification::Mouse(mouse))), Some(Event::Mouse(mouse)));
    assert_eq!(translate(input(Notification::Resize(120, 40))), Some(Event::Resize(120, 40)));
    assert_eq!(translate(input(Notification::FocusGained)), Some(Event::FocusGained));
    assert_eq!(translate(input(Notification::FocusLost)), Some(Event::FocusLost));
    assert_eq!(
        translate(input(Notification::Paste(String::from("text")))),
        Some(Event::Paste(String::from("text")))
    );
}

#[test]
fn forward_pushes_other_notifications() {
    let (tx, mut rx) = unbounded_channel::<Event>();
    let mouse = MouseEvent { kind: MouseEventKind::Moved, column: 7, row: 9, modifiers: 4 };
    assert_eq!(forward(&tx, input(Notification::Resize(10, 20))), MuxState::Running);
    assert_eq!(forward(&tx, input(Notification::Mouse(mouse))), MuxState::Running);
    assert_eq!(forward(&tx, input(Notification::Paste(String::from("jk")))), MuxState::Running);
    assert_eq!(forward(&tx, input(Notification::FocusLost)), MuxState::Running);
    assert_eq!(forward(&tx, input(Notification::FocusGained)), MuxState::Running);
    assert_eq!(rx.try_recv().ok(), Some(Event::Resize(10, 20)));
    assert_eq!(rx.try_recv().ok(), Some(Event::Mouse(mouse)));
    assert_eq!(rx.try_recv().ok(), Some(Event::Paste(String::from("jk"))));
    assert_eq!(rx.try_recv().ok(), Some(Event::FocusLost));
    assert_eq!(rx.try_recv().ok(), Some(Event::FocusGained));
    assert_eq!(rx.try_recv().ok(), None);
}

#[test]
fn failed_read_is_an_error_event_and_closed_input_is_silent() {
    assert_eq!(translate(Fired::Input(Polled::Failed)), Some(Event::Error));
    assert_eq!(translate(Fired::Input(Polled::Closed)), None);
}

#[test]
fn multiplexer_stops_only_when_a_push_fails() {
    assert_eq!(after_push(true), MuxState::Running);
    assert_eq!(after_push(false), MuxState::Stopped);
}

#[test]
fn forward_pushes_one_event_per_firing() {
    let (tx, mut rx) = unbounded_channel::<Event>();
    let press = key_of_kind(KeyEventKind::Press);
    assert_eq!(forward(&tx, Fired::Tick), MuxState::Running);
    assert_eq!(forward(&tx, input(Notification::Key(press))), MuxState::Running);
    assert_eq!(forward(&tx, Fired::Input(Polled::Failed)), MuxState::Running);
    assert_eq!(forward(&tx, Fired::Render), MuxState::Running);
    assert_eq!(rx.try_recv().ok(), Some(Event::Tick));
    assert_eq!(rx.try_recv().ok(), Some(Event::Key(press)));
    assert_eq!(rx.try_recv().ok(), Some(Event::Error));
    assert_eq!(rx.try_recv().ok(), Some(Event::Render));
    assert_eq!(rx.try_recv().ok(), None);
}

#[test]
fn forward_pushes_nothing_for_a_dropped_firing() {
    let (tx, mut rx) = unbounded_channel::<Event>();
    let release = key_of_kind(KeyEventKind::Release);
    assert_eq!(forward(&tx, input(Notification::Key(release))), MuxState::Running);
    assert_eq!(forward(&tx, Fired::Input(Polled::Closed)), MuxState::Running);
    assert_eq!(rx.try_recv().ok(), None);
}

#[test]
fn forward_stops_once_the_consumer_is_gone() {
    let (tx, rx) = unbounded_channel::<Event>();
    drop(rx);
    assert_eq!(forward(&tx, Fired::Tick), MuxState::Stopped);
    let release = key_of_kind(KeyEventKind::Release);
    assert_eq!(forward(&tx, input(Notification::Key(release))), MuxState::Running);
}

#[test]
fn deliver_puts_the_follow_up_on_the_channel() {
    let (tx, mut rx) = unbounded_channel::<Action>();
    deliver(&tx, Action::Increment);
    deliver(&tx, Action::Decrement);
    assert_eq!(rx.try_recv().ok(), Some(Action::Increment));
    assert_eq!(rx.try_recv().ok(), Some(Action::Decrement));
    assert_eq!(rx.try_recv().ok(), None);
}

#[test]
fn deliver_after_the_consumer_is_gone_is_silent() {
    let (tx, rx) = unbounded_channel::<Action>();
    drop(rx);
    deliver(&tx, Action::Increment);
    deliver(&tx, Action::Increment);
}

#[test]
fn periods_default_render_to_tick() {
    let p = Periods::new(100).unwrap();
    assert_eq!(p.tick_millis(), 100);
    assert_eq!(p.render_millis(), 100);
    let q = p.with_render(33).unwrap();
    assert_eq!(q.tick_millis(), 100);
    assert_eq!(q.render_millis(), 33);
}

#[test]
fn zero_periods_are_refused() {
    assert_eq!(Periods::new(0), None);
    assert_eq!(Periods::new(1).unwrap().with_render(0), None);
}

#[test]
fn default_periods_are_a_quarter_second() {
    assert_eq!(DEFAULT_TICK_MILLIS, 250);
    let p = Periods::default();
    assert_eq!(p.tick_millis(), 250);
    assert_eq!(p.render_millis(), 250);
}

#[test]
fn closed_channel_is_a_hard_failure() {
    assert_eq!(next_event(None), Err(ChannelClosed));
    assert_eq!(next_event(Some(Event::Tick)), Ok(Event::Tick));
    assert_eq!(next_event(Some(Event::Resize(2, 3))), Ok(Event::Resize(2, 3)));
    assert_eq!(ChannelClosed.message(), "Unable to get event");
}

#[test]
fn timer_firings_are_never_dropped_between_inputs() {
    let (tx, mut rx) = unbounded_channel::<Event>();
    let release = key_of_kind(KeyEventKind::Release);
    forward(&tx, Fired::Tick);
    forward(&tx, input(Notification::Key(release)));
    forward(&tx, Fired::Render);
    forward(&tx, input(Notification::Resize(10, 10)));
    forward(&tx, Fired::Tick);
    assert_eq!(rx.try_recv().ok(), Some(Event::Tick));
    assert_eq!(rx.try_recv().ok(), Some(Event::Render));
    assert_eq!(rx.try_recv().ok(), Some(Event::Resize(10, 10)));
    assert_eq!(rx.try_recv().ok(), Some(Event::Tick));
    assert_eq!(rx.try_recv().ok(), None);
}
