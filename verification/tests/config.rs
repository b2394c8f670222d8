use chiaro::config::{
    car_setup_layout_from_config, telemetry_flags_from_config, telemetry_flags_to_config,
    telemetry_layout_from_config, update_persisted_car_setup_layout,
    update_persisted_telemetry_layout, DashboardLayoutConfig, DesktopConfig,
    DASHBOARD_LAYOUT_SCHEMA_VERSION,
};
use chiaro::dashboard_layout::{DashboardLayoutFlag, TelemetryLayout};
use chiaro::layout::{CarSetupLayout, CarSetupLayoutFlag};

fn car_setup_layout() -> CarSetupLayout {
    CarSetupLayout {
        card_order: vec![
            "summary".to_owned(),
            "vehicle:specifications".to_owned(),
            "setup:tires".to_owned(),
        ],
        card_collapsed: vec![CarSetupLayoutFlag { key: "setup:tires".to_owned(), value: true }],
    }
}

fn two_columns() -> TelemetryLayout {
    TelemetryLayout { chart_columns: 2, ..TelemetryLayout::default() }
}

fn sorted(flags: &[DashboardLayoutFlag]) -> Vec<(String, bool)> {
    let mut pairs: Vec<(String, bool)> = flags.iter().map(|f| (f.key.clone(), f.value)).collect();
    pairs.sort();
    pairs
}

fn assert_telemetry_layout_equivalent(actual: Option<TelemetryLayout>, expected: &TelemetryLayout) {
    let actual = actual.expect("known Telemetry layout");
    assert_eq!(actual.chart_order, expected.chart_order);
    assert_eq!(sorted(&actual.chart_visibility), sorted(&expected.chart_visibility));
    assert_eq!(sorted(&actual.chart_collapsed), sorted(&expected.chart_collapsed));
    assert_eq!(actual.chart_columns, expected.chart_columns);
    assert_eq!(actual.setup_card_order, expected.setup_card_order);
    assert_eq!(sorted(&actual.setup_card_collapsed), sorted(&expected.setup_card_collapsed));
    assert_eq!(actual.lap_analysis_order, expected.lap_analysis_order);
    assert_eq!(sorted(&actual.lap_analysis_collapsed), sorted(&expected.lap_analysis_collapsed));
}

#[test]
fn legacy_dashboard_config_restores_both_screen_layouts() {
    let telemetry = two_columns();
    let car_setup = car_setup_layout();
    let mut configuration = DesktopConfig::default();

    assert!(update_persisted_telemetry_layout(&mut configuration, false, Some(telemetry.clone())));
    assert!(update_persisted_car_setup_layout(&mut configuration, false, Some(car_setup.clone())));

    let persisted = configuration.dashboard.as_ref().unwrap();
    assert_telemetry_layout_equivalent(telemetry_layout_from_config(persisted), &telemetry);
    assert_eq!(car_setup_layout_from_config(persisted), Some(car_setup));
}

#[test]
fn layouts_from_an_unknown_schema_are_ignored() {
    let config = DashboardLayoutConfig {
        schema_version: DASHBOARD_LAYOUT_SCHEMA_VERSION + 1,
        ..DashboardLayoutConfig::default()
    };

    assert_eq!(telemetry_layout_from_config(&config), None);
    assert_eq!(car_setup_layout_from_config(&config), None);
}

#[test]
fn telemetry_changes_preserve_car_setup_configuration() {
    let mut configuration = DesktopConfig::default();
    let car_setup = car_setup_layout();
    update_persisted_car_setup_layout(&mut configuration, false, Some(car_setup.clone()));

    update_persisted_telemetry_layout(&mut configuration, false, Some(two_columns()));

    assert_eq!(
        car_setup_layout_from_config(configuration.dashboard.as_ref().unwrap()),
        Some(car_setup)
    );
}

#[test]
fn car_setup_changes_preserve_telemetry_configuration() {
    let mut configuration = DesktopConfig::default();
    let telemetry = two_columns();
    update_persisted_telemetry_layout(&mut configuration, false, Some(telemetry.clone()));

    update_persisted_car_setup_layout(&mut configuration, false, Some(car_setup_layout()));

    assert_telemetry_layout_equivalent(
        telemetry_layout_from_config(configuration.dashboard.as_ref().unwrap()),
        &telemetry,
    );
}

#[test]
fn screen_resets_remove_only_their_own_override() {
    let mut configuration = DesktopConfig::default();
    let car_setup = car_setup_layout();
    update_persisted_telemetry_layout(&mut configuration, false, Some(two_columns()));
    update_persisted_car_setup_layout(&mut configuration, false, Some(car_setup.clone()));

    assert!(update_persisted_telemetry_layout(
        &mut configuration,
        true,
        Some(TelemetryLayout::default()),
    ));
    assert_eq!(
        car_setup_layout_from_config(configuration.dashboard.as_ref().unwrap()),
        Some(car_setup)
    );

    assert!(update_persisted_car_setup_layout(
        &mut configuration,
        true,
        Some(CarSetupLayout::default()),
    ));
    assert!(configuration.dashboard.is_none());
}

#[test]
fn nothing_to_record_leaves_the_configuration_alone() {
    let mut configuration = DesktopConfig::default();
    assert!(!update_persisted_telemetry_layout(&mut configuration, false, None));
    assert!(!update_persisted_car_setup_layout(&mut configuration, false, None));
    assert!(configuration.dashboard.is_none());
    assert!(!configuration.show_diagnostics);
}

#[test]
fn resetting_a_default_configuration_needs_no_save() {
    let mut configuration = DesktopConfig::default();
    assert!(!update_persisted_telemetry_layout(&mut configuration, true, None));
    assert!(configuration.dashboard.is_none());
}

#[test]
fn a_reset_over_an_unknown_schema_starts_from_the_defaults() {
    let mut configuration = DesktopConfig {
        show_diagnostics: true,
        dashboard: Some(DashboardLayoutConfig {
            schema_version: 7,
            chart_columns: 2,
            ..DashboardLayoutConfig::default()
        }),
    };
    assert!(update_persisted_car_setup_layout(&mut configuration, true, None));
    assert!(configuration.dashboard.is_none());
    assert!(configuration.show_diagnostics);
}

#[test]
fn missing_dashboard_fields_use_layout_defaults() {
    let dashboard = DashboardLayoutConfig::default();

    assert_eq!(dashboard.schema_version, DASHBOARD_LAYOUT_SCHEMA_VERSION);
    assert_eq!(dashboard.chart_columns, 1);
    assert!(dashboard.chart_order.is_empty());
    assert_eq!(dashboard.chart_visibility.len(), 0);
    assert!(dashboard.car_setup_card_order.is_empty());
    assert_eq!(dashboard.car_setup_card_collapsed.len(), 0);
}

#[test]
fn later_flags_of_a_key_win_in_the_configuration() {
    let map = telemetry_flags_to_config(vec![
        DashboardLayoutFlag { key: "speed".to_owned(), value: true },
        DashboardLayoutFlag { key: "abs".to_owned(), value: true },
        DashboardLayoutFlag { key: "speed".to_owned(), value: false },
    ]);
    assert_eq!(map.get("speed"), Some(false));
    let flags = telemetry_flags_from_config(&map);
    let keys: Vec<&str> = flags.iter().map(|f| f.key.as_str()).collect();
    assert_eq!(keys, ["abs", "speed"]);
}
