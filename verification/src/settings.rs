//! The Settings screen: diagnostics, language and the dialog preview.
use vstd::prelude::*;
use crate::actions::Action;
use crate::i18n::Locale;

verus! {

/// The preferences edited on the Settings screen.
#[derive(Debug, Clone)]
pub struct SettingsState {
    pub show_diagnostics: bool,
    pub locale: Locale,
    pub dialog_preview_open: bool,
}

impl Default for SettingsState {
    fn default() -> (r: Self)
        ensures
            !r.show_diagnostics,
            r.locale == Locale::English,
            !r.dialog_preview_open,
    {
        SettingsState { show_diagnostics: false, locale: Locale::English, dialog_preview_open: false }
    }
}

impl SettingsState {
    pub fn show_diagnostics(&self) -> (r: bool)
        ensures
            r == self.show_diagnostics,
    {
        self.show_diagnostics
    }

    pub fn set_show_diagnostics(&mut self, show_diagnostics: bool)
        ensures
            final(self).show_diagnostics == show_diagnostics,
            final(self).locale == old(self).locale,
            final(self).dialog_preview_open == old(self).dialog_preview_open,
    {
        self.show_diagnostics = show_diagnostics;
    }

    pub fn locale(&self) -> (r: Locale)
        ensures
            r == self.locale,
    {
        self.locale
    }

    /// Selects the language of the interface.
    pub fn set_locale(&mut self, locale: Locale)
        ensures
            final(self).locale == locale,
            final(self).show_diagnostics == old(self).show_diagnostics,
            final(self).dialog_preview_open == old(self).dialog_preview_open,
    {
        self.locale = locale;
    }

    pub fn is_dialog_preview_open(&self) -> (r: bool)
        ensures
            r == self.dialog_preview_open,
    {
        self.dialog_preview_open
    }
}

/// A message of the Settings screen.
#[derive(Debug, Clone, Copy)]
pub enum SettingsMessage {
    SetDiagnostics(bool),
    SetLocale(Locale),
    OpenDialogPreview,
    CloseDialogPreview,
    ConfirmDialogPreview,
}

impl SettingsMessage {
    /// Whether the message changes a persisted preference.
    pub fn persists_configuration(self) -> (r: bool)
        ensures
            r == (self is SetDiagnostics || self is SetLocale),
    {
        matches!(self, SettingsMessage::SetDiagnostics(_) | SettingsMessage::SetLocale(_))
    }
}

/// Applies a Settings message; the screen never requests an application action.
pub fn update(state: &mut SettingsState, message: SettingsMessage) -> (r: Option<Action>)
    ensures
        r is None,
        match message {
            SettingsMessage::SetDiagnostics(enabled) => final(state).show_diagnostics == enabled
                && final(state).locale == old(state).locale && final(state).dialog_preview_open
                == old(state).dialog_preview_open,
            SettingsMessage::SetLocale(locale) => final(state).locale == locale
                && final(state).show_diagnostics == old(state).show_diagnostics
                && final(state).dialog_preview_open == old(state).dialog_preview_open,
            SettingsMessage::OpenDialogPreview => final(state).dialog_preview_open
                && final(state).show_diagnostics == old(state).show_diagnostics
                && final(state).locale == old(state).locale,
            SettingsMessage::CloseDialogPreview | SettingsMessage::ConfirmDialogPreview =>
                !final(state).dialog_preview_open && final(state).show_diagnostics == old(
                state,
            ).show_diagnostics && final(state).locale == old(state).locale,
        },
{
    match message {
        SettingsMessage::SetDiagnostics(enabled) => {
            state.show_diagnostics = enabled;
            None
        },
        SettingsMessage::SetLocale(locale) => {
            state.set_locale(locale);
            None
        },
        SettingsMessage::OpenDialogPreview => {
            state.dialog_preview_open = true;
            None
        },
        SettingsMessage::CloseDialogPreview | SettingsMessage::ConfirmDialogPreview => {
            state.dialog_preview_open = false;
            None
        },
    }
}

} // verus!
