//! Application-level actions, screens and the reference IBT loading state.
use vstd::prelude::*;
use crate::i18n::{Locale, Text, catalog, catalog_text};

verus! {

/// Progress of an IBT file selection and load.
#[derive(Debug, Clone, Copy, PartialEq, Eq, Structural)]
pub enum IbtLoadState {
    Idle,
    Selecting,
    Loading,
}

/// Load progress and last error of the optional reference IBT recording.
#[derive(Debug, Clone, PartialEq, Eq)]
pub struct ReferenceIbtState {
    load_state: IbtLoadState,
    error: Option<String>,
}

impl ReferenceIbtState {
    /// The current load state.
    pub closed spec fn spec_load_state(&self) -> IbtLoadState {
        self.load_state
    }

    /// The last recorded error message, if any.
    pub closed spec fn spec_error(&self) -> Option<Seq<char>> {
        match self.error {
            Some(e) => Some(e@),
            None => None,
        }
    }

    /// The idle state, with no error.
    pub fn new() -> (s: Self)
        ensures
            s.spec_load_state() == IbtLoadState::Idle,
            s.spec_error() == None::<Seq<char>>,
    {
        ReferenceIbtState { load_state: IbtLoadState::Idle, error: None }
    }

    pub fn load_state(&self) -> (r: IbtLoadState)
        ensures
            r == self.spec_load_state(),
    {
        self.load_state
    }

    pub fn error(&self) -> (r: Option<&str>)
        ensures
            match r {
                Some(e) => self.spec_error() == Some(e@),
                None => self.spec_error() == None::<Seq<char>>,
            },
    {
        match &self.error {
            Some(e) => Some(e.as_str()),
            None => None,
        }
    }

    pub fn is_idle(&self) -> (r: bool)
        ensures
            r == (self.spec_load_state() == IbtLoadState::Idle),
    {
        matches!(self.load_state, IbtLoadState::Idle)
    }

    pub fn begin_selection(&mut self)
        ensures
            final(self).spec_load_state() == IbtLoadState::Selecting,
            final(self).spec_error() == None::<Seq<char>>,
    {
        self.load_state = IbtLoadState::Selecting;
        self.error = None;
    }

    pub fn begin_load(&mut self)
        ensures
            final(self).spec_load_state() == IbtLoadState::Loading,
            final(self).spec_error() == None::<Seq<char>>,
    {
        self.load_state = IbtLoadState::Loading;
        self.error = None;
    }

    /// Ends a load; an error recorded during it is kept.
    pub fn finish_load(&mut self)
        ensures
            final(self).spec_load_state() == IbtLoadState::Idle,
            final(self).spec_error() == old(self).spec_error(),
    {
        self.load_state = IbtLoadState::Idle;
    }

    pub fn clear(&mut self)
        ensures
            final(self).spec_load_state() == IbtLoadState::Idle,
            final(self).spec_error() == None::<Seq<char>>,
    {
        self.load_state = IbtLoadState::Idle;
        self.error = None;
    }

    /// Records the error of the last load; the load state is unchanged.
    pub fn mark_error(&mut self, error: String)
        ensures
            final(self).spec_load_state() == old(self).spec_load_state(),
            final(self).spec_error() == Some(error@),
    {
        self.error = Some(error);
    }
}

impl Default for ReferenceIbtState {
    fn default() -> (r: Self)
        ensures
            r.spec_load_state() == IbtLoadState::Idle,
            r.spec_error() == None::<Seq<char>>,
    {
        ReferenceIbtState::new()
    }
}

impl Default for IbtLoadState {
    fn default() -> (r: Self)
        ensures
            r == IbtLoadState::Idle,
    {
        IbtLoadState::Idle
    }
}

/// A top-level screen of the application.
#[derive(Debug, Clone, Copy, PartialEq, Eq, Structural)]
pub enum Screen {
    Telemetry,
    CarSetup,
    Regulations,
    Settings,
}

impl Default for Screen {
    fn default() -> (r: Self)
        ensures
            r == Screen::Telemetry,
    {
        Screen::Telemetry
    }
}

impl Screen {
    /// The catalog key of the screen's title.
    pub open spec fn title_key(self) -> Text {
        match self {
            Screen::Telemetry => Text::Telemetry,
            Screen::CarSetup => Text::CarSetup,
            Screen::Regulations => Text::Regulations,
            Screen::Settings => Text::Settings,
        }
    }

    /// The title of the screen in `locale`.
    pub fn title(self, locale: Locale) -> (r: &'static str)
        ensures
            r@ == catalog(locale, self.title_key()),
    {
        match self {
            Screen::Telemetry => catalog_text(locale, Text::Telemetry),
            Screen::CarSetup => catalog_text(locale, Text::CarSetup),
            Screen::Regulations => catalog_text(locale, Text::Regulations),
            Screen::Settings => catalog_text(locale, Text::Settings),
        }
    }
}

/// A request from a screen to the application.
#[derive(Debug, Clone, Copy, PartialEq, Eq, Structural)]
pub enum Action {
    Navigate(Screen),
    OpenIbt,
    OpenReferenceIbt,
    ClearReferenceIbt,
    SetConnected(bool),
    ShowWindow,
    ExitApplication,
}

} // verus!
