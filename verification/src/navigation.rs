//! The navigation rail: the selected screen and the screens it requests.
use vstd::prelude::*;
use crate::actions::Screen;

verus! {

/// The screen selected in the navigation rail.
#[derive(Debug, Clone)]
pub struct Navigation {
    pub current: Screen,
}

impl Default for Navigation {
    fn default() -> (r: Self)
        ensures
            r.current == Screen::Telemetry,
    {
        Navigation { current: Screen::Telemetry }
    }
}

impl Navigation {
    pub fn current(&self) -> (r: Screen)
        ensures
            r == self.current,
    {
        self.current
    }

    pub fn navigate(&mut self, page: Screen)
        ensures
            final(self).current == page,
    {
        self.current = page;
    }
}

/// A message of the navigation rail.
#[derive(Debug, Clone, Copy)]
pub enum NavigationMessage {
    Navigate(Screen),
}

/// The screen that a navigation message requests; the rail itself does not change.
pub fn update(state: &mut Navigation, message: NavigationMessage) -> (r: Option<Screen>)
    ensures
        final(state).current == old(state).current,
        match message {
            NavigationMessage::Navigate(screen) => r == Some(screen),
        },
{
    match message {
        NavigationMessage::Navigate(screen) => Some(screen),
    }
}

} // verus!
