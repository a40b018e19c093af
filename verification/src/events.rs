//! Event-loop decisions: the quit state machine and the tick pacing.
//!
//! The loop around the library measures time and polls the terminal; every
//! decision — whether a tick is due, how long the input poll may wait, and
//! what a key event does — is taken here, so the quit behaviour and the
//! redraw cadence are fixed by contracts.

use vstd::prelude::*;
use crate::clock::Clock;

verus! {

/// How often statistics are resampled and the screen redrawn.
pub const TICK_INTERVAL_MS: u64 = 250;

/// The kind of a keyboard event. Terminals also deliver release and repeat
/// events; only a press is actionable.
#[derive(Clone, Copy, PartialEq, Eq, Structural, Debug)]
pub enum KeyKind {
    Press,
    Release,
    Repeat,
}

/// The key a keyboard event names: a printable character, or anything else.
#[derive(Clone, Copy, PartialEq, Eq, Structural, Debug)]
pub enum Key {
    Char(char),
    Other,
}

/// One keyboard event: which key, and whether it was pressed, released or
/// auto-repeated.
#[derive(Clone, Copy, PartialEq, Eq, Structural, Debug)]
pub struct KeyEvent {
    pub key: Key,
    pub kind: KeyKind,
}

/// One input event observed by the loop: a keyboard event, or anything else
/// (resize, mouse, focus), which the loop ignores.
#[derive(Clone, Copy, PartialEq, Eq, Structural, Debug)]
pub enum InputEvent {
    Key(KeyEvent),
    Other,
}

/// The designated quit key: the character `q`, case-sensitive.
pub open spec fn is_quit_key(k: KeyEvent) -> bool {
    k.key == Key::Char('q')
}

/// An input event that requests quitting: a press — not a release or a
/// repeat — of the quit key.
pub open spec fn is_quit_event(e: InputEvent) -> bool {
    match e {
        InputEvent::Key(k) => k.kind == KeyKind::Press && is_quit_key(k),
        InputEvent::Other => false,
    }
}

/// The dashboard application: the host name shown in the header, the clock,
/// and the loop's single run-state flag. `exit == false` is the `Running`
/// state, `exit == true` the terminal `Exiting` state.
#[derive(Debug)]
pub struct App {
    pub name: String,
    pub clock: Clock,
    pub exit: bool,
}

impl App {
    /// A fresh application in the `Running` state.
    pub fn new(name: String) -> (app: App)
        ensures
            app.name == name,
            !app.exit,
    {
        App { name, clock: Clock {}, exit: false }
    }

    /// Handles one keyboard event: the quit key requests exit, every other
    /// key is ignored. Exit is never revoked by a later key.
    pub fn handle_key_event(&mut self, key_event: KeyEvent)
        ensures
            final (self).exit == (old(self).exit || is_quit_key(key_event)),
            final (self).name == old(self).name,
    {
        if let Key::Char(c) = key_event.key {
            if c == 'q' {
                self.exit();
            }
        }
    }

    /// Handles one input event: only a key press is actionable; releases,
    /// repeats and non-key events leave the state untouched. A quit press
    /// moves the loop to `Exiting` the moment it is observed, independent of
    /// the tick timer.
    pub fn handle_events(&mut self, event: InputEvent)
        ensures
            final (self).exit == (old(self).exit || is_quit_event(event)),
            final (self).name == old(self).name,
    {
        match event {
            InputEvent::Key(key_event) => {
                if key_event.kind == KeyKind::Press {
                    self.handle_key_event(key_event);
                }
            },
            InputEvent::Other => {},
        }
    }

    /// Moves the loop to the terminal `Exiting` state.
    pub fn exit(&mut self)
        ensures
            final (self).exit,
            final (self).name == old(self).name,
    {
        self.exit = true;
    }
}

/// Decides whether a full tick interval has elapsed since the last refresh.
/// A due tick is the only trigger for resampling and redrawing.
pub fn tick_due(elapsed_ms: u64, interval_ms: u64) -> (due: bool)
    ensures
        due == (elapsed_ms >= interval_ms),
{
    elapsed_ms >= interval_ms
}

/// How long the input poll may wait: exactly the time remaining until the
/// next tick, and never more than one full interval. This bounds both the
/// redraw drift and the quit latency — a quit press is observed within this
/// timeout, not after a full tick.
pub fn poll_timeout_ms(elapsed_ms: u64, interval_ms: u64) -> (timeout: u64)
    ensures
        timeout == if elapsed_ms >= interval_ms {
            0int
        } else {
            interval_ms - elapsed_ms
        },
        timeout <= interval_ms,
{
    if elapsed_ms >= interval_ms {
        0
    } else {
        interval_ms - elapsed_ms
    }
}

} // verus!
