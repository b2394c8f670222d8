use chiaro::setup::{SetupDataStatus, SetupRow, SetupViewData};
use chiaro::setup_value::SetupValue;
use chiaro::session_metadata::{
    find_current_session, find_player_driver, session_metadata, DriverEntry, DriverInfo, SessionDocument,
    SessionEntry, SessionInfoSection, SessionTime, WeekendInfo, WeekendOptions,
};

fn text(value: &str) -> Option<String> {
    Some(value.to_owned())
}

fn empty_weekend() -> WeekendInfo {
    WeekendInfo {
        track_name: None,
        track_display_name: None,
        track_config_name: None,
        track_length: None,
        track_num_turns: None,
        track_type: None,
        track_direction: None,
        event_type: None,
        track_skies: None,
        track_weather_type: None,
        track_air_temp: None,
        track_surface_temp: None,
        track_relative_humidity: None,
        track_wind_vel: None,
        track_wind_dir: None,
        weekend_options: None,
    }
}

fn empty_options() -> WeekendOptions {
    WeekendOptions {
        date: None,
        time_of_day: None,
        skies: None,
        weather_type: None,
        weather_temp: None,
        relative_humidity: None,
        wind_speed: None,
        wind_direction: None,
        is_fixed_setup: None,
    }
}

fn session(num: i32, session_type: &str) -> SessionEntry {
    SessionEntry { session_num: Some(num), session_type: text(session_type), session_name: None, session_time: None }
}

fn driver(car_idx: i32, name: &str) -> DriverEntry {
    DriverEntry {
        car_idx: Some(car_idx),
        car_screen_name: text(name),
        car_screen_name_short: None,
        car_path: None,
        car_class_short_name: None,
    }
}

fn driver_info(driver_car_idx: Option<i32>, drivers: Vec<DriverEntry>) -> DriverInfo {
    DriverInfo {
        driver_car_idx,
        driver_setup_name: None,
        driver_setup_load_type_name: None,
        driver_setup_is_modified: None,
        driver_setup_passed_tech: None,
        drivers,
    }
}

fn empty_document() -> SessionDocument {
    SessionDocument { weekend_info: None, session_info: None, driver_info: None }
}

/// The document of the session information in the dashboard's own test.
fn document() -> SessionDocument {
    let mut weekend = empty_weekend();
    weekend.track_display_name = text("Test Circuit");
    weekend.track_config_name = text("Grand Prix");
    weekend.track_length = text("4.20 km");
    weekend.track_num_turns = Some(12);
    weekend.track_type = text("road course");
    weekend.track_direction = text("clockwise");
    weekend.track_skies = text("Clear");
    weekend.track_air_temp = text("24.0 C");
    weekend.track_surface_temp = text("38.0 C");
    weekend.track_relative_humidity = text("55 %");
    let mut options = empty_options();
    options.date = text("2026-07-16");
    options.time_of_day = text("3:30 pm");
    options.wind_speed = text("12 km/h");
    options.wind_direction = text("NW");
    weekend.weekend_options = Some(options);
    let mut race = session(1, "Race");
    race.session_time = Some(SessionTime::Seconds(3600));
    let mut player = driver(2, "Test GT3");
    player.car_class_short_name = text("GT3");
    SessionDocument {
        weekend_info: Some(weekend),
        session_info: Some(SessionInfoSection {
            current_session_num: Some(1),
            sessions: vec![session(0, "Practice"), race],
        }),
        driver_info: Some(driver_info(Some(2), vec![driver(1, "Other Car"), player])),
    }
}

#[test]
fn extracts_current_session_vehicle_course_and_conditions() {
    let metadata = session_metadata(&document());

    assert_eq!(metadata.track_name.as_deref(), Some("Test Circuit"));
    assert_eq!(metadata.track_config.as_deref(), Some("Grand Prix"));
    assert_eq!(metadata.track_length.as_deref(), Some("4.20 km"));
    assert_eq!(metadata.track_turns, Some(12));
    assert_eq!(metadata.track_type.as_deref(), Some("road course · clockwise"));
    assert_eq!(metadata.car_name.as_deref(), Some("Test GT3"));
    assert_eq!(metadata.car_class.as_deref(), Some("GT3"));
    assert_eq!(metadata.session_type.as_deref(), Some("Race"));
    assert_eq!(metadata.session_time.as_deref(), Some("1:00:00"));
    assert_eq!(metadata.date_time.as_deref(), Some("2026-07-16 · 3:30 pm"));
    assert_eq!(metadata.weather.as_deref(), Some("Clear"));
    assert_eq!(metadata.air_temperature.as_deref(), Some("24.0 C"));
    assert_eq!(metadata.surface_temperature.as_deref(), Some("38.0 C"));
    assert_eq!(metadata.humidity.as_deref(), Some("55 %"));
    assert_eq!(metadata.wind.as_deref(), Some("12 km/h · NW"));
}

#[test]
fn an_empty_document_names_nothing() {
    let metadata = session_metadata(&empty_document());
    assert_eq!(metadata.track_name, None);
    assert_eq!(metadata.track_turns, None);
    assert_eq!(metadata.track_type, None);
    assert_eq!(metadata.car_name, None);
    assert_eq!(metadata.session_type, None);
    assert_eq!(metadata.session_time, None);
    assert_eq!(metadata.date_time, None);
    assert_eq!(metadata.wind, None);
}

#[test]
fn blank_values_give_way_to_the_next_source_and_are_trimmed() {
    let mut weekend = empty_weekend();
    weekend.track_display_name = text("   ");
    weekend.track_name = text("  test  ");
    weekend.track_type = text(" ");
    weekend.track_direction = text(" counterclockwise ");
    weekend.event_type = text("Test");
    weekend.track_wind_vel = text("3 m/s");
    weekend.track_wind_dir = text("N");
    let mut options = empty_options();
    options.wind_direction = text("  ");
    options.weather_temp = text("21 C");
    weekend.weekend_options = Some(options);
    let document = SessionDocument { weekend_info: Some(weekend), session_info: None, driver_info: None };
    let metadata = session_metadata(&document);
    assert_eq!(metadata.track_name.as_deref(), Some("test"));
    assert_eq!(metadata.track_type.as_deref(), Some("counterclockwise"));
    assert_eq!(metadata.session_type.as_deref(), Some("Test"));
    assert_eq!(metadata.air_temperature.as_deref(), Some("21 C"));
    // A present but blank wind direction of the options hides the track's.
    assert_eq!(metadata.wind.as_deref(), Some("3 m/s"));
}

#[test]
fn unmatched_numbers_fall_back_to_the_first_entries() {
    let mut document = document();
    if let Some(sessions) = document.session_info.as_mut() {
        sessions.current_session_num = Some(7);
    }
    if let Some(drivers) = document.driver_info.as_mut() {
        drivers.driver_car_idx = None;
    }
    assert_eq!(find_current_session(&document), Some(&session(0, "Practice")));
    assert_eq!(find_player_driver(&document), Some(&driver(1, "Other Car")));
    let metadata = session_metadata(&document);
    assert_eq!(metadata.session_type.as_deref(), Some("Practice"));
    assert_eq!(metadata.session_time, None);
    assert_eq!(metadata.car_name.as_deref(), Some("Other Car"));
}

#[test]
fn session_times_are_clock_texts_or_kept_texts() {
    let mut document = document();
    if let Some(sessions) = document.session_info.as_mut() {
        sessions.sessions[1].session_time = Some(SessionTime::Seconds(90));
    }
    assert_eq!(session_metadata(&document).session_time.as_deref(), Some("1:30"));
    if let Some(sessions) = document.session_info.as_mut() {
        sessions.sessions[1].session_time = Some(SessionTime::Text("Unlimited".to_owned()));
    }
    assert_eq!(session_metadata(&document).session_time.as_deref(), Some("Unlimited"));
}

fn yaml_text(s: &str) -> SetupValue {
    SetupValue::String(s.to_owned())
}

fn yaml_mapping(entries: Vec<(&str, SetupValue)>) -> SetupValue {
    SetupValue::Mapping(entries.into_iter().map(|(k, v)| (yaml_text(k), v)).collect())
}

#[test]
fn extracts_player_setup_summary_and_car_specific_sections() {
    let mut options = empty_options();
    options.is_fixed_setup = Some(false);
    let mut weekend = empty_weekend();
    weekend.weekend_options = Some(options);
    let mut info = driver_info(Some(2), vec![driver(2, "Porsche 911 GT3 R (992)")]);
    info.driver_setup_name = text("nordschleife_race.sto");
    info.driver_setup_load_type_name = text("disk");
    info.driver_setup_is_modified = Some(true);
    info.driver_setup_passed_tech = Some(true);
    let document = SessionDocument { weekend_info: Some(weekend), session_info: None, driver_info: Some(info) };
    let setup = yaml_mapping(vec![
        ("UpdateCount", SetupValue::Number("11".to_owned())),
        (
            "TiresAero",
            yaml_mapping(vec![(
                "LeftFront",
                yaml_mapping(vec![
                    ("ColdPressure", yaml_text("155 kPa")),
                    (
                        "TreadRemaining",
                        SetupValue::Sequence(vec![yaml_text("100 %"), yaml_text("99 %"), yaml_text("98 %")]),
                    ),
                ]),
            )]),
        ),
        ("Chassis", yaml_mapping(vec![("FrontARB", SetupValue::Number("3".to_owned()))])),
    ]);
    let data = SetupViewData::from_document(&document, Some(&setup), Vec::new());

    assert_eq!(data.status, SetupDataStatus::Available);
    assert_eq!(data.car_name.as_deref(), Some("Porsche 911 GT3 R (992)"));
    assert_eq!(data.setup_name.as_deref(), Some("nordschleife_race.sto"));
    assert_eq!(data.load_type.as_deref(), Some("disk"));
    assert_eq!(data.modified, Some(true));
    assert_eq!(data.passed_tech, Some(true));
    assert_eq!(data.fixed_setup, Some(false));
    assert_eq!(data.update_count.as_deref(), Some("11"));
    assert_eq!(
        data.sections.iter().map(|section| section.title.as_str()).collect::<Vec<_>>(),
        ["Tires Aero", "Chassis"]
    );
    assert_eq!(
        data.sections.iter().map(|section| section.key.as_str()).collect::<Vec<_>>(),
        ["setup:section:TiresAero", "setup:section:Chassis"]
    );
    assert!(data.sections[0].rows.iter().any(|row| matches!(
        row,
        SetupRow::Value { label, value, depth: 1 }
            if label == "Cold Pressure" && value == "155 kPa"
    )));
    assert!(data.sections[0].rows.iter().any(|row| matches!(
        row,
        SetupRow::Value { label, value, depth: 1 }
            if label == "Tread Remaining" && value == "100 %, 99 %, 98 %"
    )));
}

#[test]
fn missing_car_setup_is_distinct_from_invalid_session_information() {
    let document = SessionDocument { weekend_info: Some(empty_weekend()), session_info: None, driver_info: None };
    let data = SetupViewData::from_document(&document, None, Vec::new());
    assert_eq!(data.status, SetupDataStatus::Missing);
    assert!(data.sections.is_empty());

    let invalid = SetupViewData::parse_error("unexpected token".to_owned());
    assert_eq!(invalid.status, SetupDataStatus::ParseError("unexpected token".to_owned()));
}

#[test]
fn player_setup_does_not_fall_back_to_an_unmatched_driver() {
    let document = SessionDocument {
        weekend_info: None,
        session_info: None,
        driver_info: Some(driver_info(Some(99), vec![driver(-1, "Pace car")])),
    };
    let data = SetupViewData::from_document(&document, Some(&SetupValue::Mapping(Vec::new())), Vec::new());
    assert_eq!(data.car_name, None);
    // The dashboard, unlike the Car Setup screen, falls back to the first car.
    assert_eq!(session_metadata(&document).car_name.as_deref(), Some("Pace car"));
}

#[test]
fn setup_names_are_trimmed_and_blank_ones_dropped() {
    let mut info = driver_info(Some(2), vec![driver(2, "Car")]);
    info.driver_setup_name = text("  race.sto ");
    info.driver_setup_load_type_name = text("   ");
    info.drivers[0].car_path = text(" car_path ");
    let document = SessionDocument { weekend_info: None, session_info: None, driver_info: Some(info) };
    let data = SetupViewData::from_document(&document, None, Vec::new());
    assert_eq!(data.setup_name.as_deref(), Some("race.sto"));
    assert_eq!(data.load_type, None);
    assert_eq!(data.car_path.as_deref(), Some("car_path"));
    assert_eq!(data.fixed_setup, None);
    assert_eq!(data.update_count, None);
}
