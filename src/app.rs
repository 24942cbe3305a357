use vstd::prelude::*;
use crate::color::{lemma_toggle_involution, GaugeColor};
use crate::event::{Event, Key, KeyEvent, KeyKind, QUIT_KEY, TOGGLE_KEY};
use crate::ticker::FULL;

verus! {

/// The dashboard's state as a mathematical value: whether it has exited, the
/// gauge's colour, and the progress shown, in percent.
pub struct AppView {
    pub exit: bool,
    pub color: GaugeColor,
    pub progress: nat,
}

/// What the event loop does after an event has been handled.
#[derive(Clone, Copy, Debug, PartialEq, Eq, Structural)]
pub enum Action {
    /// Still running: paint the current state.
    Redraw,
    /// The quit key was pressed: show the exit notice and leave the loop.
    Quit,
    /// The state machine had already exited; the event was not processed.
    Stop,
}

/// The state of a key event that is handled in state `s`.
pub open spec fn key_spec(s: AppView, key: KeyEvent) -> AppView {
    if key.kind != KeyKind::Press {
        s
    } else if key.code == Key::Char(QUIT_KEY) {
        AppView { exit: true, ..s }
    } else if key.code == Key::Char(TOGGLE_KEY) {
        AppView { color: s.color.toggled_spec(), ..s }
    } else {
        s
    }
}

/// One transition of the state machine. An exited machine stays as it is.
pub open spec fn step_spec(s: AppView, e: Event) -> AppView {
    if s.exit {
        s
    } else {
        match e {
            Event::Input(key) => key_spec(s, key),
            Event::Progress(p) => AppView { progress: p as nat, ..s },
        }
    }
}

/// What the loop is told to do after `e` is handled in state `s`.
pub open spec fn action_spec(s: AppView, e: Event) -> Action {
    if s.exit {
        Action::Stop
    } else if step_spec(s, e).exit {
        Action::Quit
    } else {
        Action::Redraw
    }
}

/// The state after the event loop has consumed `events` from state `s`: it
/// handles them in order and processes none once it has exited.
pub open spec fn run_spec(s: AppView, events: Seq<Event>) -> AppView
    decreases events.len(),
{
    if events.len() == 0 || s.exit {
        s
    } else {
        run_spec(step_spec(s, events[0]), events.drop_first())
    }
}

/// The application state, owned and changed by the event loop alone.
pub struct App {
    exit: bool,
    gauge_color: GaugeColor,
    progress: u32,
}

impl View for App {
    type V = AppView;

    closed spec fn view(&self) -> AppView {
        AppView { exit: self.exit, color: self.gauge_color, progress: self.progress as nat }
    }
}

impl App {
    /// Progress never goes beyond a full gauge.
    pub open spec fn wf(&self) -> bool {
        self@.progress <= FULL
    }

    /// The starting state: running, primary colour, empty gauge.
    pub fn new() -> (r: App)
        ensures
            r.wf(),
            r@ == (AppView { exit: false, color: GaugeColor::Primary, progress: 0 }),
    {
        App { exit: false, gauge_color: GaugeColor::Primary, progress: 0 }
    }

    /// Whether the quit key has been pressed.
    pub fn exit(&self) -> (r: bool)
        ensures
            r == self@.exit,
    {
        self.exit
    }

    /// The colour the gauge is painted in.
    pub fn gauge_color(&self) -> (r: GaugeColor)
        ensures
            r == self@.color,
    {
        self.gauge_color
    }

    /// The progress shown, in percent.
    pub fn progress(&self) -> (r: u32)
        ensures
            r as nat == self@.progress,
    {
        self.progress
    }

    /// Handles a key event: a press of the quit key exits, a press of the toggle
    /// key flips the colour, anything else is ignored. An exited state is kept.
    pub fn handle_key(&mut self, key: KeyEvent)
        requires
            old(self).wf(),
        ensures
            final(self).wf(),
            final(self)@ == step_spec(old(self)@, Event::Input(key)),
    {
        if !self.exit && key.kind == KeyKind::Press {
            match key.code {
                Key::Char(c) => {
                    if c == QUIT_KEY {
                        self.exit = true;
                    } else if c == TOGGLE_KEY {
                        self.gauge_color = self.gauge_color.toggled();
                    }
                },
                Key::Other => {},
            }
        }
    }

    /// Handles one event taken from the channel and tells the loop what to do next.
    /// A progress value replaces the shown one as it is.
    pub fn handle_event(&mut self, e: Event) -> (r: Action)
        requires
            old(self).wf(),
            e.valid(),
        ensures
            final(self).wf(),
            final(self)@ == step_spec(old(self)@, e),
            r == action_spec(old(self)@, e),
    {
        if self.exit {
            return Action::Stop;
        }
        match e {
            Event::Input(key) => self.handle_key(key),
            Event::Progress(p) => self.progress = p,
        }
        if self.exit {
            Action::Quit
        } else {
            Action::Redraw
        }
    }
}

impl Default for App {
    fn default() -> (r: App)
        ensures
            r.wf(),
            r@ == (AppView { exit: false, color: GaugeColor::Primary, progress: 0 }),
    {
        App::new()
    }
}

/// The events that carry the progress values `vals`, in order.
pub open spec fn progress_events(vals: Seq<u32>) -> Seq<Event> {
    Seq::new(vals.len(), |i: int| Event::Progress(vals[i]))
}

/// Last write wins: after a running machine has consumed a non-empty sequence of
/// progress values, it shows the last of them, and is otherwise unchanged. This
/// holds whether or not the values increase.
pub proof fn lemma_last_progress_wins(s: AppView, vals: Seq<u32>)
    requires
        !s.exit,
        vals.len() > 0,
    ensures
        run_spec(s, progress_events(vals)) == (AppView { progress: vals.last() as nat, ..s }),
    decreases vals.len(),
{
    let evs = progress_events(vals);
    let next = step_spec(s, evs[0]);
    assert(evs.drop_first() =~= progress_events(vals.drop_first()));
    if vals.len() > 1 {
        lemma_last_progress_wins(next, vals.drop_first());
    } else {
        assert(evs.drop_first().len() == 0);
    }
}

/// A press of the toggle key flips the colour of a running machine and leaves its
/// progress and its exit flag alone; two presses give back the state one started from.
pub proof fn lemma_toggle_key(s: AppView)
    requires
        !s.exit,
    ensures
        step_spec(s, Event::Input(KeyEvent { code: Key::Char(TOGGLE_KEY), kind: KeyKind::Press })) == (
        AppView { color: s.color.toggled_spec(), ..s }),
        s.color == GaugeColor::Primary ==> step_spec(
            s,
            Event::Input(KeyEvent { code: Key::Char(TOGGLE_KEY), kind: KeyKind::Press }),
        ).color == GaugeColor::Secondary,
        s.color == GaugeColor::Secondary ==> step_spec(
            s,
            Event::Input(KeyEvent { code: Key::Char(TOGGLE_KEY), kind: KeyKind::Press }),
        ).color == GaugeColor::Primary,
        run_spec(
            s,
            seq![
                Event::Input(KeyEvent { code: Key::Char(TOGGLE_KEY), kind: KeyKind::Press }),
                Event::Input(KeyEvent { code: Key::Char(TOGGLE_KEY), kind: KeyKind::Press }),
            ],
        ) == s,
{
    let c = Event::Input(KeyEvent { code: Key::Char(TOGGLE_KEY), kind: KeyKind::Press });
    let evs = seq![c, c];
    assert(evs.drop_first() =~= seq![c]);
    assert(evs.drop_first().drop_first() =~= Seq::<Event>::empty());
    let s1 = step_spec(s, c);
    let s2 = step_spec(s1, c);
    lemma_toggle_involution(s.color);
    assert(run_spec(s2, Seq::<Event>::empty()) == s2);
    assert(run_spec(s1, seq![c]) == run_spec(s2, Seq::<Event>::empty()));
    assert(run_spec(s, evs) == run_spec(s1, seq![c]));
}

/// A press of the quit key exits a running machine whatever its colour and
/// progress, and no event after it is processed.
pub proof fn lemma_quit_stops(s: AppView, rest: Seq<Event>)
    requires
        !s.exit,
    ensures
        step_spec(s, Event::Input(KeyEvent { code: Key::Char(QUIT_KEY), kind: KeyKind::Press })) == (
        AppView { exit: true, ..s }),
        action_spec(s, Event::Input(KeyEvent { code: Key::Char(QUIT_KEY), kind: KeyKind::Press }))
            == Action::Quit,
        run_spec(
            s,
            seq![Event::Input(KeyEvent { code: Key::Char(QUIT_KEY), kind: KeyKind::Press })] + rest,
        ) == (AppView { exit: true, ..s }),
{
    let q = Event::Input(KeyEvent { code: Key::Char(QUIT_KEY), kind: KeyKind::Press });
    let evs = seq![q] + rest;
    assert(evs[0] == q);
    assert(evs.drop_first() =~= rest);
    assert(run_spec(s, evs) == run_spec(step_spec(s, q), rest));
}

/// Once exited, the machine stays exited and unchanged whatever comes after.
pub proof fn lemma_exited_is_final(s: AppView, events: Seq<Event>)
    requires
        s.exit,
    ensures
        run_spec(s, events) == s,
        forall|e: Event| #[trigger] step_spec(s, e) == s && action_spec(s, e) == Action::Stop,
{
}

} // verus!
