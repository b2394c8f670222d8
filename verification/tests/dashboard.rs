use chiaro::actions::Action;
use chiaro::dashboard::{ChartId, LapAnalysisCardId, SetupCardId};
use chiaro::dashboard_layout::{
    move_item_to, ChartColumns, DashboardLayout, DashboardLayoutFlag, DashboardTab,
};
use chiaro::dashboard_state::{
    chart_cursors_after_sync, initializes_live_chart, live_update_cursor, connection_action, sync_session_metadata, update, DashboardMessage, DashboardState, SessionSync,
    TelemetrySyncScope,
};
use chiaro::session_metadata::no_session_metadata;
use chiaro::setup::SetupViewData;
use chiaro::dashboard_text::{
    collapse_accessibility_label, format_gear, format_lap_count, format_lap_time,
    format_position, metadata_value, format_chart_time, format_recording_duration,
};

fn flag(key: &str, value: bool) -> DashboardLayoutFlag {
    DashboardLayoutFlag { key: key.to_owned(), value }
}

fn flag_value(flags: &[DashboardLayoutFlag], key: &str) -> Option<bool> {
    flags.iter().find(|f| f.key == key).map(|f| f.value)
}

#[test]
fn collapse_accessibility_labels_remain_based_on_the_plain_title() {
    assert_eq!(collapse_accessibility_label("Speed", false), "Collapse Speed");
    assert_eq!(collapse_accessibility_label("Speed", true), "Expand Speed");
}

#[test]
fn persisted_layout_keys_are_stable_and_round_trip() {
    for chart in ChartId::all() {
        assert_eq!(ChartId::from_key(chart.key()), Some(chart));
    }
    for card in LapAnalysisCardId::all() {
        assert_eq!(LapAnalysisCardId::from_key(card.key()), Some(card));
    }
    for card in SetupCardId::all() {
        assert_eq!(SetupCardId::from_key(card.key()), Some(card));
    }
    assert_eq!(ChartId::from_key("future_chart"), None);
    assert_eq!(LapAnalysisCardId::from_key("future_card"), None);
    assert_eq!(SetupCardId::from_key("future_card"), None);
}

#[test]
fn missing_or_blank_session_metadata_keeps_a_placeholder_value() {
    assert_eq!(metadata_value(None), "--");
    assert_eq!(metadata_value(Some(String::new())), "--");
    assert_eq!(metadata_value(Some("  ".to_owned())), "--");
    assert_eq!(metadata_value(Some("Dynamic".to_owned())), "Dynamic");
}

#[test]
fn formats_irsdk_gears() {
    assert_eq!(format_gear(-1), "R");
    assert_eq!(format_gear(0), "N");
    assert_eq!(format_gear(5), "5");
}

#[test]
fn formats_lap_times() {
    assert_eq!(format_lap_time(91_234), "1:31.234");
    assert_eq!(format_lap_time(0), "--:--.---");
}

#[test]
fn formats_race_position() {
    assert_eq!(format_position(3), "P3");
    assert_eq!(format_position(0), "—");
}

#[test]
fn formats_lap_counts() {
    assert_eq!(format_lap_count(1), "1 lap");
    assert_eq!(format_lap_count(3), "3 laps");
}

#[test]
fn moving_a_chart_up_inserts_it_at_the_target_position() {
    let mut order = ChartId::all();

    assert!(move_item_to(&mut order, ChartId::Fuel, ChartId::Pedal));

    assert_eq!(order[1], ChartId::Fuel);
    assert_eq!(order[2], ChartId::Pedal);
}

#[test]
fn moving_a_chart_onto_itself_changes_nothing() {
    let mut order = ChartId::all();
    assert!(!move_item_to(&mut order, ChartId::Fuel, ChartId::Fuel));
    assert_eq!(order, ChartId::all());
}

#[test]
fn dashboard_starts_on_the_telemetry_tab() {
    let state = DashboardState::default();
    assert_eq!(state.active_tab(), DashboardTab::Telemetry);
    let snapshot = state.layout_snapshot();
    let default_order: Vec<String> =
        ChartId::default_order().iter().map(|chart| chart.key().to_owned()).collect();
    assert_eq!(snapshot.chart_order, default_order);
    assert_eq!(flag_value(&snapshot.chart_visibility, "speed"), Some(true));
    assert_eq!(flag_value(&snapshot.chart_visibility, "pedal"), Some(true));
    assert_eq!(flag_value(&snapshot.chart_visibility, "steering"), Some(true));
    let visible = ChartId::default_visible();
    for chart in ChartId::all() {
        assert_eq!(
            flag_value(&snapshot.chart_visibility, chart.key()),
            Some(visible.contains(&chart))
        );
    }
    assert_eq!(snapshot, DashboardLayout::default());
}

#[test]
fn imported_layout_normalizes_unknown_duplicate_and_missing_values() {
    let mut state = DashboardState::default();
    update(&mut state, DashboardMessage::ToggleChart(ChartId::Speed, false));
    update(&mut state, DashboardMessage::ToggleChartMaximized(ChartId::Speed));
    update(&mut state, DashboardMessage::BeginChartDrag(ChartId::Speed));
    assert!(state.is_dragging_card());
    let revision = state.layout_revision();

    let layout = DashboardLayout {
        chart_order: ["fuel", "future_chart", "fuel", "speed"].map(str::to_owned).to_vec(),
        chart_visibility: vec![
            flag("future_chart", true),
            flag("speed", false),
            flag("speed", true),
            flag("abs", true),
        ],
        chart_collapsed: vec![flag("fuel", true), flag("fuel", false)],
        chart_columns: 99,
        setup_card_order: ["charts", "future_card", "charts"].map(str::to_owned).to_vec(),
        setup_card_collapsed: vec![flag("reference", true)],
        lap_analysis_order: ["wheels", "cursor", "wheels"].map(str::to_owned).to_vec(),
        lap_analysis_collapsed: vec![flag("inputs", true)],
        car_setup_card_order: ["setup:section:Tires", "", "setup:section:Tires"]
            .map(str::to_owned)
            .to_vec(),
        car_setup_card_collapsed: vec![
            flag("setup:section:Tires", true),
            flag("setup:section:Tires", false),
        ],
    };

    state.apply_layout(&layout);
    let snapshot = state.layout_snapshot();

    assert_eq!(state.layout_revision(), revision);
    assert_eq!(&snapshot.chart_order[..4], &["fuel", "speed", "delta", "pedal"]);
    assert_eq!(snapshot.chart_order.len(), 15);
    assert_eq!(flag_value(&snapshot.chart_visibility, "speed"), Some(false));
    assert_eq!(flag_value(&snapshot.chart_visibility, "abs"), Some(true));
    assert_eq!(flag_value(&snapshot.chart_visibility, "pedal"), Some(true));
    assert_eq!(flag_value(&snapshot.chart_visibility, "steering"), Some(true));
    assert_eq!(flag_value(&snapshot.chart_visibility, "fuel"), Some(false));
    assert_eq!(flag_value(&snapshot.chart_collapsed, "fuel"), Some(true));
    assert_eq!(snapshot.chart_columns, 1);
    assert_eq!(snapshot.setup_card_order, ["charts", "session", "reference", "laps"]);
    assert_eq!(flag_value(&snapshot.setup_card_collapsed, "reference"), Some(true));
    assert_eq!(
        snapshot.lap_analysis_order,
        ["wheels", "cursor", "reference_cursor", "vehicle", "inputs", "dynamics", "tyres"]
    );
    assert_eq!(flag_value(&snapshot.lap_analysis_collapsed, "inputs"), Some(true));
    assert_eq!(snapshot.car_setup_card_order, ["setup:section:Tires"]);
    assert_eq!(
        flag_value(&snapshot.car_setup_card_collapsed, "setup:section:Tires"),
        Some(true)
    );
    assert!(!state.is_dragging_card());
}

#[test]
fn a_restored_snapshot_restores_the_same_layout() {
    let mut state = DashboardState::default();
    update(&mut state, DashboardMessage::ToggleChart(ChartId::Yaw, false));
    update(&mut state, DashboardMessage::SetChartColumns(ChartColumns::Two));
    update(&mut state, DashboardMessage::ToggleCarSetupCardCollapsed("summary".to_owned()));
    let snapshot = state.layout_snapshot();
    let mut restored = DashboardState::default();
    restored.apply_layout(&snapshot);
    assert_eq!(restored.layout_snapshot(), snapshot);
    assert_eq!(restored.layout_revision(), 0);
}

#[test]
fn layout_revision_changes_only_for_persisted_edits_and_explicit_reset() {
    let mut state = DashboardState::default();
    let default_layout = state.layout_snapshot();

    update(&mut state, DashboardMessage::ToggleChart(ChartId::Speed, true));
    update(&mut state, DashboardMessage::SetChartColumns(ChartColumns::One));
    update(&mut state, DashboardMessage::BeginChartDrag(ChartId::Speed));
    update(&mut state, DashboardMessage::FinishCardDrag);
    state.apply_layout(&default_layout);
    assert_eq!(state.layout_revision(), 0);

    update(&mut state, DashboardMessage::ToggleChart(ChartId::Speed, false));
    assert_eq!(state.layout_revision(), 1);
    update(&mut state, DashboardMessage::ToggleChart(ChartId::Speed, false));
    assert_eq!(state.layout_revision(), 1);
    update(&mut state, DashboardMessage::SetChartColumns(ChartColumns::Two));
    assert_eq!(state.layout_revision(), 2);
    update(
        &mut state,
        DashboardMessage::ToggleLapAnalysisCardCollapsed(LapAnalysisCardId::Cursor),
    );
    assert_eq!(state.layout_revision(), 3);
    update(&mut state, DashboardMessage::ToggleSetupCardCollapsed(SetupCardId::Session));
    assert_eq!(state.layout_revision(), 4);

    assert!(DashboardMessage::ResetDashboardLayout.resets_layout());
    assert!(!DashboardMessage::CycleTab.resets_layout());
    update(&mut state, DashboardMessage::ResetDashboardLayout);
    assert_eq!(state.layout_revision(), 5);
    assert_eq!(state.layout_snapshot(), DashboardLayout::default());
    update(&mut state, DashboardMessage::ResetDashboardLayout);
    assert_eq!(state.layout_revision(), 6);
}

#[test]
fn dropping_a_dragged_chart_on_a_target_reorders_and_counts_an_edit() {
    let mut state = DashboardState::default();
    update(&mut state, DashboardMessage::BeginChartDrag(ChartId::Fuel));
    state.set_chart_drop_target(Some(ChartId::Speed));
    update(&mut state, DashboardMessage::FinishCardDrag);
    assert_eq!(state.layout_snapshot().chart_order[0], "fuel");
    assert_eq!(state.layout_revision(), 1);
    assert!(!state.is_dragging_card());

    update(&mut state, DashboardMessage::FinishCardDrag);
    assert_eq!(state.layout_revision(), 1);
}

#[test]
fn maximizing_a_collapsed_chart_expands_it() {
    let mut state = DashboardState::default();
    update(&mut state, DashboardMessage::ToggleChartCollapsed(ChartId::Rpm));
    assert_eq!(flag_value(&state.layout_snapshot().chart_collapsed, "rpm"), Some(true));
    update(&mut state, DashboardMessage::ToggleChartMaximized(ChartId::Rpm));
    assert_eq!(flag_value(&state.layout_snapshot().chart_collapsed, "rpm"), Some(false));
    assert_eq!(state.layout_revision(), 2);
    update(&mut state, DashboardMessage::ToggleChartMaximized(ChartId::Rpm));
    assert_eq!(state.layout_revision(), 2);
}

#[test]
fn tabs_cycle_and_file_messages_ask_for_actions() {
    let mut state = DashboardState::default();
    assert_eq!(update(&mut state, DashboardMessage::CycleTab), None);
    assert_eq!(state.active_tab(), DashboardTab::CarSetup);
    assert_eq!(update(&mut state, DashboardMessage::CycleTab), None);
    assert_eq!(state.active_tab(), DashboardTab::Telemetry);
    assert_eq!(update(&mut state, DashboardMessage::OpenIbt), Some(Action::OpenIbt));
    assert_eq!(
        update(&mut state, DashboardMessage::OpenReferenceIbt),
        Some(Action::OpenReferenceIbt)
    );
    assert_eq!(
        update(&mut state, DashboardMessage::ClearReferenceIbt),
        Some(Action::ClearReferenceIbt)
    );
}

#[test]
fn car_setup_collapse_and_maximize_keep_a_single_visible_mode() {
    let mut state = DashboardState::default();

    update(&mut state, DashboardMessage::ToggleCarSetupCardMaximized("summary".to_owned()));
    assert_eq!(state.maximized_car_setup_card().as_deref(), Some("summary"));
    assert_eq!(state.layout_revision(), 0);

    update(&mut state, DashboardMessage::ToggleCarSetupCardCollapsed("summary".to_owned()));
    assert_eq!(state.maximized_car_setup_card(), None);
    assert_eq!(state.car_setup_card_collapsed("summary"), Some(true));
    assert_eq!(state.layout_revision(), 1);

    update(&mut state, DashboardMessage::ToggleCarSetupCardMaximized("summary".to_owned()));
    assert_eq!(state.maximized_car_setup_card().as_deref(), Some("summary"));
    assert_eq!(state.car_setup_card_collapsed("summary"), Some(false));
    assert_eq!(state.layout_revision(), 2);
}

#[test]
fn all_card_drags_are_mutually_exclusive() {
    let mut state = DashboardState::default();

    update(&mut state, DashboardMessage::BeginChartDrag(ChartId::Speed));
    assert_eq!(state.dragging_chart(), Some(ChartId::Speed));
    assert_eq!(state.dragging_chart_list_item(), None);
    assert_eq!(state.dragging_lap_analysis_card(), None);
    assert_eq!(state.dragging_setup_card(), None);
    assert_eq!(state.dragging_car_setup_card(), None);

    update(&mut state, DashboardMessage::BeginChartListDrag(ChartId::Abs));
    assert_eq!(state.dragging_chart(), None);
    assert_eq!(state.dragging_chart_list_item(), Some(ChartId::Abs));
    assert_eq!(state.dragging_lap_analysis_card(), None);
    assert_eq!(state.dragging_setup_card(), None);
    assert_eq!(state.dragging_car_setup_card(), None);

    update(&mut state, DashboardMessage::BeginLapAnalysisDrag(LapAnalysisCardId::Vehicle));
    assert_eq!(state.dragging_chart(), None);
    assert_eq!(state.dragging_chart_list_item(), None);
    assert_eq!(state.dragging_lap_analysis_card(), Some(LapAnalysisCardId::Vehicle));
    assert_eq!(state.dragging_setup_card(), None);
    assert_eq!(state.dragging_car_setup_card(), None);

    update(&mut state, DashboardMessage::BeginSetupCardDrag(SetupCardId::Reference));
    assert_eq!(state.dragging_chart(), None);
    assert_eq!(state.dragging_chart_list_item(), None);
    assert_eq!(state.dragging_lap_analysis_card(), None);
    assert_eq!(state.dragging_setup_card(), Some(SetupCardId::Reference));
    assert_eq!(state.dragging_car_setup_card(), None);

    update(&mut state, DashboardMessage::BeginCarSetupCardDrag("summary".to_owned()));
    assert_eq!(state.dragging_chart(), None);
    assert_eq!(state.dragging_chart_list_item(), None);
    assert_eq!(state.dragging_lap_analysis_card(), None);
    assert_eq!(state.dragging_setup_card(), None);
    assert_eq!(state.dragging_car_setup_card().as_deref(), Some("summary"));

    update(&mut state, DashboardMessage::BeginChartDrag(ChartId::Pedal));
    assert_eq!(state.dragging_chart(), Some(ChartId::Pedal));
    assert_eq!(state.dragging_chart_list_item(), None);
    assert_eq!(state.dragging_lap_analysis_card(), None);
    assert_eq!(state.dragging_setup_card(), None);
    assert_eq!(state.dragging_car_setup_card(), None);
}

#[test]
fn dropping_without_a_target_does_not_reorder_charts() {
    let mut state = DashboardState::default();
    let original_order = state.chart_order();

    update(&mut state, DashboardMessage::BeginChartDrag(ChartId::Speed));
    update(&mut state, DashboardMessage::FinishCardDrag);

    assert_eq!(state.chart_order(), original_order);
}

#[test]
fn chart_maximization_toggles_and_clears_when_hidden() {
    let mut state = DashboardState::default();

    update(&mut state, DashboardMessage::ToggleChartMaximized(ChartId::Speed));
    assert_eq!(state.maximized_chart(), Some(ChartId::Speed));

    update(&mut state, DashboardMessage::ToggleChartMaximized(ChartId::Speed));
    assert_eq!(state.maximized_chart(), None);

    update(&mut state, DashboardMessage::ToggleChartMaximized(ChartId::Pedal));
    update(&mut state, DashboardMessage::ToggleChart(ChartId::Pedal, false));
    assert_eq!(state.maximized_chart(), None);
}

#[test]
fn every_dashboard_card_starts_expanded_and_toggles_independently() {
    let mut state = DashboardState::default();
    let chart_order = state.chart_order();
    let analysis_order = state.lap_analysis_order();
    let setup_order = state.setup_card_order();

    assert!(ChartId::all().into_iter().all(|chart| !state.is_chart_collapsed(chart)));
    assert!(LapAnalysisCardId::all()
        .into_iter()
        .all(|card| !state.is_lap_analysis_card_collapsed(card)));
    assert!(SetupCardId::all().into_iter().all(|card| !state.is_setup_card_collapsed(card)));

    for chart in ChartId::all() {
        update(&mut state, DashboardMessage::ToggleChartCollapsed(chart));
        assert!(state.is_chart_collapsed(chart));
        update(&mut state, DashboardMessage::ToggleChartCollapsed(chart));
        assert!(!state.is_chart_collapsed(chart));
    }
    for card in LapAnalysisCardId::all() {
        update(&mut state, DashboardMessage::ToggleLapAnalysisCardCollapsed(card));
        assert!(state.is_lap_analysis_card_collapsed(card));
        update(&mut state, DashboardMessage::ToggleLapAnalysisCardCollapsed(card));
        assert!(!state.is_lap_analysis_card_collapsed(card));
    }
    for card in SetupCardId::all() {
        update(&mut state, DashboardMessage::ToggleSetupCardCollapsed(card));
        assert!(state.is_setup_card_collapsed(card));
        update(&mut state, DashboardMessage::ToggleSetupCardCollapsed(card));
        assert!(!state.is_setup_card_collapsed(card));
    }

    assert_eq!(state.chart_order(), chart_order);
    assert_eq!(state.lap_analysis_order(), analysis_order);
    assert_eq!(state.setup_card_order(), setup_order);
}

#[test]
fn chart_collapse_and_maximize_keep_a_single_visible_mode() {
    let mut state = DashboardState::default();

    update(&mut state, DashboardMessage::ToggleChartMaximized(ChartId::Speed));
    update(&mut state, DashboardMessage::ToggleChartCollapsed(ChartId::Speed));
    assert!(state.is_chart_collapsed(ChartId::Speed));
    assert_eq!(state.maximized_chart(), None);

    update(&mut state, DashboardMessage::ToggleChartMaximized(ChartId::Speed));
    assert!(!state.is_chart_collapsed(ChartId::Speed));
    assert_eq!(state.maximized_chart(), Some(ChartId::Speed));
}

#[test]
fn collapsing_a_dragged_card_cancels_its_pending_drop() {
    let mut state = DashboardState::default();
    let original_order = state.setup_card_order();

    update(&mut state, DashboardMessage::BeginSetupCardDrag(SetupCardId::Laps));
    state.set_setup_card_drop_target(Some(SetupCardId::Charts));
    assert_eq!(state.setup_card_drop_target(), Some(SetupCardId::Charts));

    update(&mut state, DashboardMessage::ToggleSetupCardCollapsed(SetupCardId::Laps));
    update(&mut state, DashboardMessage::FinishCardDrag);

    assert!(state.is_setup_card_collapsed(SetupCardId::Laps));
    assert_eq!(state.setup_card_order(), original_order);
    assert_eq!(state.dragging_setup_card(), None);
    assert_eq!(state.setup_card_drop_target(), None);
}

#[test]
fn cancelling_pointer_interactions_ends_a_lap_analysis_drag() {
    let mut state = DashboardState::default();
    let original_order = state.lap_analysis_order();

    update(&mut state, DashboardMessage::BeginLapAnalysisDrag(LapAnalysisCardId::Tyres));
    state.set_lap_analysis_drop_target(Some(LapAnalysisCardId::Wheels));
    assert_eq!(state.lap_analysis_drop_target(), Some(LapAnalysisCardId::Wheels));

    update(&mut state, DashboardMessage::CancelPointerInteractions);

    assert_eq!(state.lap_analysis_order(), original_order);
    assert_eq!(state.dragging_lap_analysis_card(), None);
    assert_eq!(state.lap_analysis_drop_target(), None);
    assert_eq!(state.chart_columns(), ChartColumns::One);
    assert!(state.is_chart_visible(ChartId::Speed));
}

#[test]
fn whole_second_times_read_as_seconds_minutes_and_hours() {
    assert_eq!(format_chart_time(5), "5s");
    assert_eq!(format_chart_time(0), "0s");
    assert_eq!(format_chart_time(65), "1:05");
    assert_eq!(format_chart_time(3_600), "1:00:00");
    assert_eq!(format_recording_duration(3_661), "1:01:01");
    assert_eq!(format_recording_duration(59), "0:59");
    assert_eq!(format_recording_duration(36_000 * 3 + 5), "30:00:05");
}

#[test]
fn switching_tabs_asks_to_bring_the_shown_tab_up_to_date() {
    let mut state = DashboardState::default();
    assert_eq!(state.session_sync_for(&DashboardMessage::SelectTab(DashboardTab::Telemetry)), None);
    assert_eq!(
        state.session_sync_for(&DashboardMessage::SelectTab(DashboardTab::CarSetup)),
        Some(SessionSync::SessionMetadata)
    );
    assert_eq!(state.session_sync_for(&DashboardMessage::CycleTab), Some(SessionSync::SessionMetadata));
    assert_eq!(state.session_sync_for(&DashboardMessage::FinishCardDrag), None);
    update(&mut state, DashboardMessage::CycleTab);
    assert_eq!(state.session_sync_for(&DashboardMessage::CycleTab), Some(SessionSync::Telemetry));
}

#[test]
fn a_new_session_information_revision_is_taken_in_once() {
    let mut state = DashboardState::default();
    let mut metadata = no_session_metadata();
    metadata.track_name = Some("Test Circuit".to_owned());
    sync_session_metadata(&mut state, 3, metadata.clone(), SetupViewData::parse_error("bad".to_owned()));
    assert_eq!(state.session_metadata(), &metadata);
    assert_eq!(state.car_setup_view().status, chiaro::setup::SetupDataStatus::ParseError("bad".to_owned()));
    sync_session_metadata(&mut state, 3, no_session_metadata(), SetupViewData::default());
    assert_eq!(state.session_metadata(), &metadata);
    sync_session_metadata(&mut state, 4, no_session_metadata(), SetupViewData::default());
    assert_eq!(state.session_metadata(), &no_session_metadata());
}

#[test]
fn laps_are_selected_only_within_the_session() {
    let mut state = DashboardState::default();
    assert!(!state.select_lap(2, 2));
    assert_eq!(state.selected_lap_index(), None);
    assert!(state.select_lap(1, 2));
    assert_eq!(state.selected_lap_index(), Some(1));
    assert!(!state.select_reference_lap(0, None));
    assert!(!state.select_reference_lap(3, Some(3)));
    assert_eq!(state.selected_reference_lap_index(), None);
    assert!(state.select_reference_lap(0, Some(3)));
    assert_eq!(state.selected_reference_lap_index(), Some(0));
    assert_eq!(state.selected_lap_index(), Some(1));
}

#[test]
fn toggling_the_connection_asks_for_the_other_state() {
    assert_eq!(connection_action(true), Action::SetConnected(false));
    assert_eq!(connection_action(false), Action::SetConnected(true));
}

#[test]
fn live_charts_on_screen_decide_what_syncs() {
    let mut state = DashboardState::default();
    let on_screen = vec![true; 15];
    let mut off_screen = vec![true; 15];
    off_screen[ChartId::Speed.index()] = false;
    assert!(state.live_chart_is_active(ChartId::Speed, &on_screen));
    assert!(!state.live_chart_is_active(ChartId::Speed, &off_screen));
    assert_eq!(state.chart_sync_targets(false, TelemetrySyncScope::LiveVisible, &off_screen), vec![true; 15]);
    assert_eq!(state.chart_sync_targets(true, TelemetrySyncScope::All, &off_screen), vec![true; 15]);
    let targets = state.chart_sync_targets(true, TelemetrySyncScope::LiveVisible, &off_screen);
    assert!(!targets[ChartId::Speed.index()]);
    assert!(targets[ChartId::Pedal.index()]);

    update(&mut state, DashboardMessage::ToggleChartMaximized(ChartId::Pedal));
    assert!(!state.live_chart_is_active(ChartId::Rpm, &on_screen));
    assert!(state.live_chart_is_active(ChartId::Pedal, &on_screen));

    let drawn = vec![Some(7u64); 15];
    assert!(state.telemetry_sync_is_pending(6, 7, true, &drawn, &on_screen));
    assert!(!state.telemetry_sync_is_pending(7, 7, false, &drawn, &on_screen));
    let mut behind = drawn.clone();
    behind[ChartId::Rpm.index()] = Some(6);
    assert!(!state.telemetry_sync_is_pending(7, 7, false, &behind, &on_screen));
    behind[ChartId::Pedal.index()] = None;
    assert!(state.telemetry_sync_is_pending(7, 7, false, &behind, &on_screen));
    assert!(!state.telemetry_sync_is_pending(7, 7, true, &behind, &on_screen));
}

#[test]
fn a_refresh_syncs_the_telemetry_tab_when_it_lags() {
    let mut state = DashboardState::default();
    assert_eq!(state.refresh_sync_scope(true, true), Some(TelemetrySyncScope::All));
    assert_eq!(state.refresh_sync_scope(true, false), Some(TelemetrySyncScope::LiveVisible));
    assert_eq!(state.refresh_sync_scope(false, false), None);
    update(&mut state, DashboardMessage::BeginChartDrag(ChartId::Speed));
    assert_eq!(state.refresh_sync_scope(true, false), None);
    update(&mut state, DashboardMessage::CancelPointerInteractions);
    update(&mut state, DashboardMessage::SelectTab(DashboardTab::CarSetup));
    assert_eq!(state.refresh_sync_scope(true, false), None);
}

#[test]
fn the_snapshot_of_an_edited_layout_restores_it() {
    let mut state = DashboardState::default();
    update(&mut state, DashboardMessage::ToggleChart(ChartId::Rpm, true));
    update(&mut state, DashboardMessage::BeginChartDrag(ChartId::Rpm));
    state.set_chart_drop_target(Some(ChartId::Speed));
    update(&mut state, DashboardMessage::FinishCardDrag);
    update(&mut state, DashboardMessage::ToggleCarSetupCardCollapsed("summary".to_owned()));
    update(&mut state, DashboardMessage::SetChartColumns(ChartColumns::Two));
    let snapshot = state.layout_snapshot();
    let mut restored = DashboardState::default();
    restored.apply_layout(&snapshot);
    assert_eq!(restored.layout_snapshot(), snapshot);
    state.apply_layout(&snapshot);
    assert_eq!(state.layout_snapshot(), snapshot);
}

#[test]
fn a_sync_records_the_packet_each_chart_drew() {
    let cursors = vec![Some(5u64); 15];
    let mut targets = vec![false; 15];
    targets[ChartId::Speed.index()] = true;
    assert_eq!(chart_cursors_after_sync(&cursors, false, TelemetrySyncScope::All, &targets, 9), vec![None; 15]);
    assert_eq!(chart_cursors_after_sync(&cursors, true, TelemetrySyncScope::All, &targets, 9), vec![Some(9); 15]);
    let live = chart_cursors_after_sync(&cursors, true, TelemetrySyncScope::LiveVisible, &targets, 9);
    assert_eq!(live[ChartId::Speed.index()], Some(9));
    assert_eq!(live[ChartId::Pedal.index()], Some(5));
}

#[test]
fn incremental_live_syncs_extend_or_restart_charts() {
    assert!(initializes_live_chart(None, true, 4));
    assert!(initializes_live_chart(Some(5), true, 4));
    assert!(!initializes_live_chart(Some(3), true, 4));
    assert!(!initializes_live_chart(None, false, 4));
    assert_eq!(live_update_cursor(Some(3), true, 4), Some(3));
    assert_eq!(live_update_cursor(Some(5), true, 4), None);
    assert_eq!(live_update_cursor(Some(3), false, 4), None);
    assert_eq!(live_update_cursor(None, true, 4), None);
}

#[test]
fn loading_states_change_nothing_else() {
    let mut state = DashboardState::default();
    update(&mut state, DashboardMessage::ToggleChart(ChartId::Rpm, true));
    state.select_lap(0, 1);
    let snapshot = state.layout_snapshot();
    let revision = state.layout_revision();
    state.begin_ibt_load();
    state.mark_reference_ibt_error("bad".to_owned());
    assert_eq!(state.layout_snapshot(), snapshot);
    assert_eq!(state.layout_revision(), revision);
    assert_eq!(state.selected_lap_index(), Some(0));
}
