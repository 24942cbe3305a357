//! Event-driven state machine of a terminal progress dashboard: a gauge that a
//! background ticker fills, a key that toggles the gauge's colour and a key that quits.

mod app;
mod color;
mod event;
mod ticker;

pub use app::{
    action_spec, key_spec, lemma_exited_is_final, lemma_last_progress_wins, lemma_quit_stops,
    lemma_toggle_key, progress_events, run_spec, step_spec, Action, App, AppView,
};
pub use color::{lemma_toggle_involution, GaugeColor};
pub use event::{Event, Key, KeyEvent, KeyKind, QUIT_KEY, TOGGLE_KEY};
pub use ticker::{lemma_ticks_from_zero, tick_spec, ticks_from, Ticker, FULL, STEP};
