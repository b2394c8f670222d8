use chiaro::text::{char_is_whitespace, i32_to_string, str_eq, str_trim, u64_to_string};
use chiaro::comparison::{
    cars_are_different, comparison_issue, eq_ignore_ascii_case, tracks_are_compatible,
    RecordingIdentity,
};
use chiaro::setup::{humanize_key, setup_corner, SetupCorner, SetupRow};
use chiaro::setup_value::{
    append_labeled_value, is_collection, scalar_value, setup_sections, setup_update_count,
    SetupValue,
};

fn text(s: &str) -> SetupValue {
    SetupValue::String(s.to_owned())
}

fn number(s: &str) -> SetupValue {
    SetupValue::Number(s.to_owned())
}

fn mapping(entries: Vec<(&str, SetupValue)>) -> SetupValue {
    SetupValue::Mapping(entries.into_iter().map(|(k, v)| (text(k), v)).collect())
}

fn row_value(row: &SetupRow) -> (&str, Option<&str>, usize) {
    match row {
        SetupRow::Group { label, depth } => (label.as_str(), None, *depth),
        SetupRow::Value { label, value, depth } => (label.as_str(), Some(value.as_str()), *depth),
    }
}

#[test]
fn recognizes_only_explicit_corner_group_aliases() {
    assert_eq!(setup_corner("LF"), Some(SetupCorner::LeftFront));
    assert_eq!(setup_corner("front-left"), Some(SetupCorner::LeftFront));
    assert_eq!(setup_corner("Right Front"), Some(SetupCorner::RightFront));
    assert_eq!(setup_corner("rear_left_corner"), Some(SetupCorner::LeftRear));
    assert_eq!(setup_corner("RearRight"), Some(SetupCorner::RightRear));
    assert_eq!(setup_corner("LeftFrontPressure"), None);
}

#[test]
fn sdk_keys_are_humanized_without_breaking_acronyms() {
    assert_eq!(humanize_key("ColdPressure"), "Cold Pressure");
    assert_eq!(humanize_key("FrontARB"), "Front ARB");
    assert_eq!(humanize_key("LF_TirePressure"), "LF Tire Pressure");
}

#[test]
fn top_level_scalars_are_kept_but_update_count_is_only_metadata() {
    let setup = mapping(vec![
        ("UpdateCount", number("7")),
        ("FuelLevel", text("80 L")),
        ("BrakeBias", text("51.2 %")),
    ]);
    let sections = setup_sections(&setup);

    assert_eq!(sections.len(), 1);
    assert_eq!(sections[0].key, "setup:general");
    assert_eq!(sections[0].title, "General");
    assert_eq!(sections[0].rows.len(), 2);
    assert!(sections[0].rows.iter().all(|row| row_value(row).0 != "Update Count"));
    assert_eq!(setup_update_count(&setup), Some("7".to_owned()));
}

#[test]
fn empty_nested_collections_render_an_explicit_placeholder() {
    let setup = mapping(vec![(
        "Section",
        mapping(vec![
            ("EmptyMap", SetupValue::Mapping(Vec::new())),
            ("EmptyList", SetupValue::Sequence(Vec::new())),
        ]),
    )]);
    let sections = setup_sections(&setup);

    assert_eq!(sections[0].rows.len(), 2);
    assert!(sections[0].rows.iter().all(|row| row_value(row).1 == Some("--")));
}

#[test]
fn collections_become_sections_and_nested_values_are_indented() {
    let setup = mapping(vec![
        ("TiresAero", mapping(vec![
            ("LeftFront", mapping(vec![
                ("ColdPressure", text("152 kPa")),
                ("Camber", SetupValue::Tagged(Box::new(text(" -2.5 deg ")))),
            ])),
            ("Wings", SetupValue::Sequence(vec![number("3"), number("4")])),
        ])),
        ("Notes", SetupValue::Null),
        ("Flags", SetupValue::Sequence(vec![SetupValue::Bool(true), mapping(vec![("A", text(""))])])),
    ]);
    let sections = setup_sections(&setup);
    assert_eq!(sections.len(), 3);
    assert_eq!(sections[0].key, "setup:general");
    assert_eq!(row_value(&sections[0].rows[0]), ("Notes", Some("--"), 0));
    assert_eq!(sections[1].key, "setup:section:TiresAero");
    assert_eq!(sections[1].title, "Tires Aero");
    let rows: Vec<_> = sections[1].rows.iter().map(row_value).collect();
    assert_eq!(
        rows,
        vec![
            ("Left Front", None, 0),
            ("Cold Pressure", Some("152 kPa"), 1),
            ("Camber", Some("-2.5 deg"), 1),
            ("Wings", Some("3, 4"), 0),
        ]
    );
    let flags: Vec<_> = sections[2].rows.iter().map(row_value).collect();
    assert_eq!(
        flags,
        vec![("Item 1", Some("Yes"), 0), ("Item 2", None, 0), ("A", Some("--"), 1)]
    );
}

#[test]
fn a_setup_that_is_no_mapping_is_one_value_section() {
    let sections = setup_sections(&SetupValue::Tagged(Box::new(number("12"))));
    assert_eq!(sections.len(), 1);
    assert_eq!(sections[0].key, "setup:value");
    assert_eq!(sections[0].title, "Setup");
    assert_eq!(row_value(&sections[0].rows[0]), ("Value", Some("12"), 0));
    assert_eq!(setup_update_count(&number("12")), None);
}

#[test]
fn scalars_have_display_texts() {
    assert_eq!(scalar_value(&SetupValue::Bool(false)), Some("No".to_owned()));
    assert_eq!(scalar_value(&text("  ")), Some("--".to_owned()));
    assert_eq!(scalar_value(&SetupValue::Sequence(Vec::new())), None);
    assert!(is_collection(&SetupValue::Tagged(Box::new(SetupValue::Sequence(Vec::new())))));
    assert!(!is_collection(&number("1")));
    let mut rows = Vec::new();
    append_labeled_value(&mut rows, "Gear".to_owned(), &number("4"), 2);
    assert_eq!(row_value(&rows[0]), ("Gear", Some("4"), 2));
}

fn identity(track: &str, track_id: Option<i32>, config: Option<&str>, car_id: Option<i32>, car: Option<&str>) -> RecordingIdentity {
    RecordingIdentity {
        track_name: track.to_owned(),
        track_id,
        track_config_name: config.map(str::to_owned),
        car_id,
        car_name: car.map(str::to_owned),
    }
}

#[test]
fn references_must_come_from_the_same_track() {
    let main = identity(" Spa ", None, Some("Grand Prix"), Some(1), Some("GT3"));
    let same = identity("spa", None, Some("grand prix "), Some(2), Some("gt3"));
    let other_config = identity("Spa", None, Some("Endurance"), None, None);
    let by_id = identity("Other name", Some(4), None, None, None);
    let same_id = identity("Name", Some(4), Some("x"), None, None);
    assert!(tracks_are_compatible(Some(&main), Some(&same)));
    assert!(!tracks_are_compatible(Some(&main), Some(&other_config)));
    assert!(tracks_are_compatible(Some(&by_id), Some(&same_id)));
    assert!(!tracks_are_compatible(Some(&main), None));
    assert!(cars_are_different(Some(&main), Some(&same)));
    assert!(!cars_are_different(Some(&other_config), Some(&main)));
    assert!(!cars_are_different(
        Some(&identity("a", None, None, None, Some("GT3"))),
        Some(&identity("a", None, None, None, Some("gt3")))
    ));
    assert_eq!(comparison_issue(None, Some(&main)), Some("Main IBT required"));
    assert_eq!(comparison_issue(Some(&main), None), Some("Reference IBT unavailable"));
    assert_eq!(comparison_issue(Some(&main), Some(&other_config)), Some("Track mismatch"));
    assert_eq!(comparison_issue(Some(&main), Some(&same)), None);
    assert!(eq_ignore_ascii_case("ÉcoLE", "École"));
    assert!(!eq_ignore_ascii_case("é", "É"));
}

#[test]
fn text_is_trimmed_of_unicode_white_space_and_compared_by_characters() {
    assert_eq!(str_trim("  \u{3000}Nürburgring\t\n"), "Nürburgring");
    assert_eq!(str_trim(" \u{A0} "), "");
    assert_eq!(str_trim("a b"), "a b");
    assert!(char_is_whitespace('\u{2009}'));
    assert!(!char_is_whitespace('\u{200B}'));
    assert!(str_eq("Spa", "Spa"));
    assert!(!str_eq("Spa", "Spa "));
    assert_eq!(u64_to_string(0), "0");
    assert_eq!(u64_to_string(18_446_744_073_709_551_615), "18446744073709551615");
    assert_eq!(i32_to_string(i32::MIN), "-2147483648");
}
