//! The call and update buttons of the main window.

use vstd::prelude::*;

verus! {

/// Status line shown while the voice engine starts.
pub open spec fn starting_status() -> Seq<char> {
    "Инициализация..."@
}

/// Status line shown after leaving a room.
pub open spec fn stopped_status() -> Seq<char> {
    "Отключено"@
}

/// What pressing the call button does.
pub struct CallStep {
    /// Whether the window is connected afterwards.
    pub connected: bool,
    /// The value the engine's stop flag takes.
    pub stop_engine: bool,
    /// Whether a new voice engine is started.
    pub start_engine: bool,
    /// Whether the peer table is emptied.
    pub clear_peers: bool,
    /// The new status line.
    pub status: &'static str,
}

/// Pressing the call button: while connected it disconnects (stops the
/// engine, empties the peer table, says so in the status line);
/// otherwise it connects (clears the stop flag and starts an engine).
pub fn press_call_button(connected: bool) -> (step: CallStep)
    ensures
        step.connected == !connected,
        step.stop_engine == connected,
        step.start_engine == !connected,
        step.clear_peers == connected,
        step.status@ == if connected {
            stopped_status()
        } else {
            starting_status()
        },
{
    if connected {
        CallStep {
            connected: false,
            stop_engine: true,
            start_engine: false,
            clear_peers: true,
            status: "Отключено",
        }
    } else {
        CallStep {
            connected: true,
            stop_engine: false,
            start_engine: true,
            clear_peers: false,
            status: "Инициализация...",
        }
    }
}

/// Whether a click on the download button starts an update: only when no
/// update is under way already.
pub fn starts_update(clicked: bool, updating: bool) -> (start: bool)
    ensures
        start == (clicked && !updating),
{
    clicked && !updating
}

} // verus!
