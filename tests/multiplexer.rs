use haxor::dispatch::{dispatch, Action, Effect};
use haxor::event::{Event, EventRecord, Key, KEY_BACK, KEY_CENTER, KEY_DOWN, KEY_LEFT, KEY_RIGHT, KEY_UP, TAG_INPUT, TAG_TICK};
use haxor::queue::EventQueue;
use haxor::session::{run, Phase, Session};
use haxor::teardown::{Release, Resources};
use haxor::{HEARTBEAT_PERIOD, QUEUE_CAPACITY};

fn input(key: u8) -> Event {
    Event::input(key)
}

#[test]
fn key_codes_classify() {
    assert_eq!(Key::from_code(KEY_UP), Some(Key::Up));
    assert_eq!(Key::from_code(KEY_DOWN), Some(Key::Down));
    assert_eq!(Key::from_code(KEY_RIGHT), Some(Key::Right));
    assert_eq!(Key::from_code(KEY_LEFT), Some(Key::Left));
    assert_eq!(Key::from_code(KEY_CENTER), Some(Key::Center));
    assert_eq!(Key::from_code(KEY_BACK), Some(Key::Back));
    assert_eq!(Key::from_code(6), None);
    assert_eq!(Key::from_code(255), None);
}

#[test]
fn tick_and_input_records_round_trip() {
    let tick = Event::Tick;
    let rec = tick.encode();
    assert_eq!(rec, EventRecord { tag: TAG_TICK, key: 0 });
    assert_eq!(Event::decode(&rec), Some(Event::Tick));
    for key in 0..=255u8 {
        let e = input(key);
        let rec = e.encode();
        assert_eq!(rec, EventRecord { tag: TAG_INPUT, key });
        assert_eq!(Event::decode(&rec), Some(e));
    }
}

#[test]
fn unknown_tag_decodes_to_nothing() {
    assert_eq!(Event::decode(&EventRecord { tag: 2, key: 0 }), None);
    assert_eq!(Event::decode(&EventRecord { tag: 255, key: KEY_BACK }), None);
}

#[test]
fn direction_keys_map_to_distinct_effects() {
    assert_eq!(dispatch(input(KEY_LEFT)), Action::Notify(Effect::BlinkRed));
    assert_eq!(dispatch(input(KEY_RIGHT)), Action::Notify(Effect::BlinkBlue));
    assert_eq!(dispatch(input(KEY_DOWN)), Action::Notify(Effect::BlinkYellow));
    assert_eq!(dispatch(input(KEY_UP)), Action::Notify(Effect::BlinkWhite));
    assert_eq!(dispatch(input(KEY_LEFT)), dispatch(input(KEY_LEFT)));
}

#[test]
fn tick_triggers_heartbeat_and_back_stops() {
    assert_eq!(dispatch(Event::Tick), Action::Notify(Effect::BlinkGreen));
    assert_eq!(dispatch(input(KEY_BACK)), Action::Stop);
}

#[test]
fn other_keys_are_ignored() {
    assert_eq!(dispatch(input(KEY_CENTER)), Action::Ignore);
    assert_eq!(dispatch(input(6)), Action::Ignore);
    assert_eq!(dispatch(input(200)), Action::Ignore);
}

#[test]
fn end_to_end_scenario() {
    let events = vec![input(KEY_LEFT), Event::Tick, input(KEY_BACK)];
    let out = run(&events);
    assert_eq!(out.effects, vec![Effect::BlinkRed, Effect::BlinkGreen]);
    assert_eq!(out.consumed, 3);
    assert!(out.stopped);
    let mut res = Resources::acquired();
    let steps = res.teardown();
    assert_eq!(
        steps,
        vec![
            Release::FreeTimer,
            Release::FreeQueue,
            Release::DisableViewPort,
            Release::RemoveViewPort,
            Release::FreeViewPort,
            Release::CloseGui,
            Release::CloseNotifications,
        ]
    );
}

#[test]
fn nothing_after_back_is_processed() {
    let events = vec![input(KEY_UP), input(KEY_BACK), Event::Tick, input(KEY_DOWN), input(KEY_BACK)];
    let out = run(&events);
    assert_eq!(out.effects, vec![Effect::BlinkWhite]);
    assert_eq!(out.consumed, 2);
    assert!(out.stopped);
}

#[test]
fn stream_without_back_is_consumed_whole() {
    let events = vec![input(KEY_CENTER), Event::Tick, input(KEY_RIGHT), input(9)];
    let out = run(&events);
    assert_eq!(out.effects, vec![Effect::BlinkGreen, Effect::BlinkBlue]);
    assert_eq!(out.consumed, 4);
    assert!(!out.stopped);
}

#[test]
fn empty_stream_does_nothing() {
    let out = run(&Vec::new());
    assert!(out.effects.is_empty());
    assert_eq!(out.consumed, 0);
    assert!(!out.stopped);
}

#[test]
fn simulated_clock_gives_one_heartbeat_per_tick() {
    // A clock that fires every period over ten periods, with key presses in between.
    let mut events = Vec::new();
    let mut now: u32 = 0;
    let mut ticks = 0usize;
    while now < 10 * HEARTBEAT_PERIOD {
        now += 500;
        if now % HEARTBEAT_PERIOD == 0 {
            events.push(Event::Tick);
            ticks += 1;
        } else {
            events.push(input(KEY_CENTER));
        }
    }
    assert_eq!(ticks, 10);
    let out = run(&events);
    assert_eq!(out.effects.len(), 10);
    assert!(out.effects.iter().all(|e| *e == Effect::BlinkGreen));
    assert!(!out.stopped);
}

#[test]
fn session_handles_reads() {
    let mut s = Session::new();
    assert!(s.is_running());
    assert_eq!(s.handle(Some(Event::Tick.encode())), Action::Notify(Effect::BlinkGreen));
    assert_eq!(s.handle(Some(input(KEY_LEFT).encode())), Action::Notify(Effect::BlinkRed));
    assert_eq!(s.handle(Some(EventRecord { tag: 7, key: 0 })), Action::Ignore);
    assert_eq!(s.handle(Some(input(KEY_CENTER).encode())), Action::Ignore);
    assert!(s.is_running());
    assert_eq!(s.handle(Some(input(KEY_BACK).encode())), Action::Stop);
    assert_eq!(s.phase, Phase::Terminated);
    assert_eq!(s.handle(Some(Event::Tick.encode())), Action::Stop);
}

#[test]
fn failed_read_ends_session() {
    let mut s = Session::new();
    assert_eq!(s.handle(None), Action::Stop);
    assert!(!s.is_running());
}

#[test]
fn full_queue_refuses_push_until_drained() {
    let mut q = EventQueue::new(QUEUE_CAPACITY);
    for i in 0..QUEUE_CAPACITY {
        assert!(q.push(input(i as u8)));
    }
    assert!(q.is_full());
    assert!(!q.push(Event::Tick));
    assert_eq!(q.len(), QUEUE_CAPACITY);
    assert_eq!(q.pop(), Some(input(0)));
    assert!(q.push(Event::Tick));
    assert!(!q.push(input(KEY_UP)));
    for i in 1..QUEUE_CAPACITY {
        assert_eq!(q.pop(), Some(input(i as u8)));
    }
    assert_eq!(q.pop(), Some(Event::Tick));
    assert_eq!(q.pop(), None);
    assert_eq!(q.capacity(), 8);
}

#[test]
fn zero_capacity_queue_is_always_full() {
    let mut q = EventQueue::new(0);
    assert!(q.is_full());
    assert!(!q.push(Event::Tick));
    assert_eq!(q.pop(), None);
}

#[test]
fn second_teardown_releases_nothing() {
    let mut res = Resources::acquired();
    let first = res.teardown();
    assert_eq!(first.len(), 7);
    let second = res.teardown();
    assert!(second.is_empty());
}

#[test]
fn partial_teardown_keeps_order() {
    let mut res = Resources { timer: true, queue: false, view_port: true, gui: false, notifications: true };
    let steps = res.teardown();
    assert_eq!(
        steps,
        vec![
            Release::FreeTimer,
            Release::DisableViewPort,
            Release::RemoveViewPort,
            Release::FreeViewPort,
            Release::CloseNotifications,
        ]
    );
}
