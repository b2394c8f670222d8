//! Which screen of the application is in the foreground.
use vstd::prelude::*;
use crate::live_telemetry::LiveTelemetryMessage;
use crate::actions::Screen;

verus! {

/// Whether a telemetry workspace screen is visible: the Telemetry or Car Setup
/// screen is selected and the window is not in the background.
pub fn workspace_is_foreground(screen: Screen, window_is_backgrounded: bool) -> (r: bool)
    ensures
        r == ((screen == Screen::Telemetry || screen == Screen::CarSetup)
            && !window_is_backgrounded),
{
    matches!(screen, Screen::Telemetry | Screen::CarSetup) && !window_is_backgrounded
}

/// Whether the window has just come back from the background.
pub fn window_became_foreground(was_backgrounded: bool, is_backgrounded: bool) -> (r: bool)
    ensures
        r == (was_backgrounded && !is_backgrounded),
{
    was_backgrounded && !is_backgrounded
}

/// Whether `target` is the selected screen and the window is not in the background.
pub fn screen_is_foreground(current: Screen, target: Screen, window_is_backgrounded: bool) -> (r: bool)
    ensures
        r == (current == target && !window_is_backgrounded),
{
    current == target && !window_is_backgrounded
}

/// Whether a live telemetry event brings samples, so that the visible screen
/// must be refreshed.
pub fn telemetry_refreshes_workspace<S, F, I, T>(event: &LiveTelemetryMessage<S, F, I, T>) -> (r: bool)
    ensures
        r == (*event is Batch || *event is Snapshot),
{
    match event {
        LiveTelemetryMessage::Batch(_) | LiveTelemetryMessage::Snapshot { .. } => true,
        _ => false,
    }
}

} // verus!
