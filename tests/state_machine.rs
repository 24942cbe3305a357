use process_overview::{
    Action, App, Event, GaugeColor, Key, KeyEvent, KeyKind, Ticker, FULL, QUIT_KEY, TOGGLE_KEY,
};

fn key(c: char) -> Event {
    Event::Input(KeyEvent::press(c))
}

#[test]
fn starts_running_primary_empty() {
    let app = App::new();
    assert!(!app.exit());
    assert_eq!(app.gauge_color(), GaugeColor::Primary);
    assert_eq!(app.progress(), 0);
    let d = App::default();
    assert!(!d.exit());
    assert_eq!(d.gauge_color(), GaugeColor::Primary);
    assert_eq!(d.progress(), 0);
}

#[test]
fn progress_toggle_quit_scenario() {
    let mut app = App::new();
    assert_eq!(app.handle_event(Event::Progress(35)), Action::Redraw);
    assert_eq!((app.exit(), app.gauge_color(), app.progress()), (false, GaugeColor::Primary, 35));
    assert_eq!(app.handle_event(key('c')), Action::Redraw);
    assert_eq!((app.exit(), app.gauge_color(), app.progress()), (false, GaugeColor::Secondary, 35));
    assert_eq!(app.handle_event(key('q')), Action::Quit);
    assert_eq!((app.exit(), app.gauge_color(), app.progress()), (true, GaugeColor::Secondary, 35));
    // The loop has stopped: a later event is not processed and asks for no draw.
    assert_eq!(app.handle_event(Event::Progress(80)), Action::Stop);
    assert_eq!(app.handle_event(key('c')), Action::Stop);
    assert_eq!((app.exit(), app.gauge_color(), app.progress()), (true, GaugeColor::Secondary, 35));
}

#[test]
fn one_hundred_fifty_ticks_clamp_at_full() {
    let mut ticker = Ticker::new();
    let mut app = App::new();
    let mut last: u32 = 0;
    for _ in 0..150 {
        let v = ticker.tick();
        assert!(v >= last);
        assert!(v <= FULL);
        last = v;
        assert_eq!(app.handle_event(Event::Progress(v)), Action::Redraw);
    }
    assert_eq!(ticker.percent(), 100);
    assert_eq!(app.progress(), 100);
}

#[test]
fn ticks_follow_min_of_count_and_full() {
    let mut ticker = Ticker::default();
    assert_eq!(ticker.percent(), 0);
    for n in 1..=120u32 {
        assert_eq!(ticker.tick(), n.min(100));
    }
    assert_eq!(ticker.tick(), 100);
}

#[test]
fn last_progress_value_wins() {
    let mut app = App::new();
    for v in [0u32, 10, 10, 42, 99, 100] {
        app.handle_event(Event::Progress(v));
    }
    assert_eq!(app.progress(), 100);
    let mut other = App::new();
    for v in [5u32, 17, 63] {
        other.handle_event(Event::Progress(v));
    }
    assert_eq!(other.progress(), 63);
}

#[test]
fn toggle_twice_is_identity() {
    assert_eq!(GaugeColor::Primary.toggled(), GaugeColor::Secondary);
    assert_eq!(GaugeColor::Secondary.toggled(), GaugeColor::Primary);
    for c in [GaugeColor::Primary, GaugeColor::Secondary] {
        assert_eq!(c.toggled().toggled(), c);
    }
    let mut app = App::new();
    app.handle_event(Event::Progress(7));
    app.handle_event(key(TOGGLE_KEY));
    app.handle_event(key(TOGGLE_KEY));
    assert_eq!((app.gauge_color(), app.progress()), (GaugeColor::Primary, 7));
}

#[test]
fn quit_from_any_state() {
    for toggles in 0..2 {
        for p in [0u32, 55, 100] {
            let mut app = App::new();
            app.handle_event(Event::Progress(p));
            for _ in 0..toggles {
                app.handle_event(key('c'));
            }
            let color = app.gauge_color();
            assert_eq!(app.handle_event(key(QUIT_KEY)), Action::Quit);
            assert!(app.exit());
            assert_eq!((app.gauge_color(), app.progress()), (color, p));
        }
    }
}

#[test]
fn other_keys_and_releases_are_ignored() {
    let mut app = App::new();
    app.handle_event(Event::Progress(20));
    assert_eq!(app.handle_event(key('x')), Action::Redraw);
    assert_eq!(app.handle_event(key('Q')), Action::Redraw);
    let other = KeyEvent { code: Key::Other, kind: KeyKind::Press };
    assert_eq!(app.handle_event(Event::Input(other)), Action::Redraw);
    for kind in [KeyKind::Release, KeyKind::Repeat] {
        let c = KeyEvent { code: Key::Char('c'), kind };
        let q = KeyEvent { code: Key::Char('q'), kind };
        assert_eq!(app.handle_event(Event::Input(c)), Action::Redraw);
        assert_eq!(app.handle_event(Event::Input(q)), Action::Redraw);
    }
    assert_eq!((app.exit(), app.gauge_color(), app.progress()), (false, GaugeColor::Primary, 20));
}

#[test]
fn handle_key_directly() {
    let mut app = App::new();
    app.handle_key(KeyEvent::press('c'));
    assert_eq!(app.gauge_color(), GaugeColor::Secondary);
    app.handle_key(KeyEvent { code: Key::Char('q'), kind: KeyKind::Release });
    assert!(!app.exit());
    app.handle_key(KeyEvent::press('q'));
    assert!(app.exit());
    app.handle_key(KeyEvent::press('c'));
    assert_eq!(app.gauge_color(), GaugeColor::Secondary);
    assert!(app.exit());
}
