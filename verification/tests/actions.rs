use chiaro::actions::{Action, IbtLoadState, ReferenceIbtState, Screen};
use chiaro::i18n::Locale;
use chiaro::live_telemetry::{LiveTelemetryBatch, LiveTelemetryMessage};
use chiaro::navigation::{update as navigation_update, Navigation, NavigationMessage};
use chiaro::settings::{update as settings_update, SettingsMessage, SettingsState};
use chiaro::workspace::{
    screen_is_foreground, telemetry_refreshes_workspace, window_became_foreground,
    workspace_is_foreground,
};

#[test]
fn reference_ibt_state_tracks_selection_loading_errors_and_clear() {
    let mut state = ReferenceIbtState::default();
    assert!(state.is_idle());

    state.begin_selection();
    assert_eq!(state.load_state(), IbtLoadState::Selecting);

    state.begin_load();
    assert_eq!(state.load_state(), IbtLoadState::Loading);

    state.finish_load();
    state.mark_error("invalid IBT".to_owned());
    assert!(state.is_idle());
    assert_eq!(state.error(), Some("invalid IBT"));

    state.clear();
    assert!(state.is_idle());
    assert_eq!(state.error(), None);
}

#[test]
fn reference_ibt_selection_clears_an_earlier_error() {
    let mut state = ReferenceIbtState::new();
    state.mark_error("broken".to_owned());
    assert_eq!(state.error(), Some("broken"));
    state.begin_selection();
    assert_eq!(state.error(), None);
    assert!(!state.is_idle());
}

#[test]
fn restoring_a_backgrounded_window_requests_a_workspace_refresh() {
    assert!(window_became_foreground(true, false));
    assert!(!window_became_foreground(false, false));
    assert!(!window_became_foreground(false, true));
    assert!(!window_became_foreground(true, true));
}

#[test]
fn only_the_selected_screen_is_foreground() {
    assert!(screen_is_foreground(Screen::Telemetry, Screen::Telemetry, false));
    assert!(!screen_is_foreground(Screen::CarSetup, Screen::Telemetry, false));
    assert!(!screen_is_foreground(Screen::Telemetry, Screen::Telemetry, true));
    assert!(workspace_is_foreground(Screen::CarSetup, false));
    assert!(!workspace_is_foreground(Screen::Settings, false));
}

type Message = LiveTelemetryMessage<u32, u32, u32, u32>;

#[test]
fn only_telemetry_events_with_samples_refresh_the_visible_screen() {
    let batch: Message = LiveTelemetryMessage::Batch(LiveTelemetryBatch::default());
    assert!(telemetry_refreshes_workspace(&batch));
    let waiting: Message = LiveTelemetryMessage::Waiting;
    assert!(!telemetry_refreshes_workspace(&waiting));
    let connected: Message = LiveTelemetryMessage::Connected;
    assert!(!telemetry_refreshes_workspace(&connected));
    let error: Message = LiveTelemetryMessage::Error("test".to_owned());
    assert!(!telemetry_refreshes_workspace(&error));
    let snapshot: Message = LiveTelemetryMessage::Snapshot { snapshot: 1, session_info: None };
    assert!(telemetry_refreshes_workspace(&snapshot));
}

#[test]
fn navigation_selects_a_page() {
    let mut navigation = Navigation::default();

    navigation.navigate(Screen::Settings);

    assert_eq!(navigation.current(), Screen::Settings);
}

#[test]
fn destination_message_requests_navigation() {
    let mut navigation = Navigation::default();

    assert_eq!(
        navigation_update(&mut navigation, NavigationMessage::Navigate(Screen::Settings)),
        Some(Screen::Settings)
    );
    assert_eq!(navigation.current(), Screen::Telemetry);
}

#[test]
fn diagnostics_setting_is_updated() {
    let mut state = SettingsState::default();

    let _action = settings_update(&mut state, SettingsMessage::SetDiagnostics(true));

    assert!(state.show_diagnostics());
}

#[test]
fn dialog_preview_is_controlled_by_settings_messages() {
    let mut state = SettingsState::default();

    let _action = settings_update(&mut state, SettingsMessage::OpenDialogPreview);
    assert!(state.is_dialog_preview_open());

    let _action = settings_update(&mut state, SettingsMessage::CloseDialogPreview);
    assert!(!state.is_dialog_preview_open());
}

#[test]
fn preview_messages_do_not_persist_configuration() {
    assert!(SettingsMessage::SetDiagnostics(true).persists_configuration());
    assert!(!SettingsMessage::OpenDialogPreview.persists_configuration());
    assert!(!SettingsMessage::CloseDialogPreview.persists_configuration());
    assert!(!SettingsMessage::ConfirmDialogPreview.persists_configuration());
}

#[test]
fn locale_setting_is_updated() {
    let mut state = SettingsState::default();
    assert_eq!(state.locale(), Locale::English);
    let _action = settings_update(&mut state, SettingsMessage::SetLocale(Locale::Japanese));
    assert_eq!(state.locale(), Locale::Japanese);
    assert!(SettingsMessage::SetLocale(Locale::Japanese).persists_configuration());
}

#[test]
fn screen_titles_follow_the_locale() {
    assert_eq!(Screen::Settings.title(Locale::Japanese), "設定");
    assert_eq!(Screen::Telemetry.title(Locale::Japanese), "テレメトリー");
    let _ = Action::OpenIbt;
}
