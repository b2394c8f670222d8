use chiaro::setup::{SetupCorner, SetupRow, SetupSection};
use chiaro::setup_corners::{
    corner_comparison, root_setup_entries, setup_content_blocks, setup_corner_fields,
    setup_row_depth, ComparisonFieldKey, RootSetupEntry, SetupContentBlock,
};
use chiaro::setup_value::{setup_sections, SetupValue};

fn text(s: &str) -> SetupValue {
    SetupValue::String(s.to_owned())
}

fn number(s: &str) -> SetupValue {
    SetupValue::Number(s.to_owned())
}

fn mapping(entries: Vec<(&str, SetupValue)>) -> SetupValue {
    SetupValue::Mapping(entries.into_iter().map(|(k, v)| (text(k), v)).collect())
}

fn group(label: &str, depth: usize) -> SetupRow {
    SetupRow::Group { label: label.to_owned(), depth }
}

fn value(label: &str, value: &str, depth: usize) -> SetupRow {
    SetupRow::Value { label: label.to_owned(), value: value.to_owned(), depth }
}

fn single_row_label(block: &SetupContentBlock) -> Option<String> {
    match block {
        SetupContentBlock::Rows(rows) if rows.len() == 1 => match &rows[0] {
            SetupRow::Value { label, .. } => Some(label.clone()),
            SetupRow::Group { .. } => None,
        },
        _ => None,
    }
}

#[test]
fn consecutive_corner_groups_become_a_canonical_comparison_in_place() {
    let setup = mapping(vec![(
        "TiresAero",
        mapping(vec![
            ("AeroBalance", text("1.5 %")),
            (
                "RightRear",
                mapping(vec![
                    ("ColdPressure", text("154 kPa")),
                    ("Damper", mapping(vec![("Bump", text("--"))])),
                ]),
            ),
            (
                "LeftFront",
                mapping(vec![
                    ("ColdPressure", text("155 kPa")),
                    ("Damper", mapping(vec![("Bump", text("5 clicks"))])),
                ]),
            ),
            (
                "RightFront",
                mapping(vec![
                    ("ColdPressure", text("156 kPa")),
                    ("Damper", mapping(vec![("Rebound", text("7 clicks"))])),
                ]),
            ),
            (
                "LeftRear",
                mapping(vec![
                    ("ColdPressure", text("153 kPa")),
                    ("Damper", mapping(vec![("Bump", text("6 clicks"))])),
                ]),
            ),
            ("RearWing", number("6")),
        ]),
    )]);
    let sections = setup_sections(&setup);
    let blocks = setup_content_blocks(&sections[0]);

    assert_eq!(blocks.len(), 3);
    assert_eq!(single_row_label(&blocks[0]), Some("Aero Balance".to_owned()));
    let SetupContentBlock::CornerComparison(comparison) = &blocks[1] else {
        panic!("middle block should be the corner comparison");
    };
    assert_eq!(
        comparison.columns,
        vec![
            SetupCorner::LeftFront,
            SetupCorner::RightFront,
            SetupCorner::LeftRear,
            SetupCorner::RightRear,
        ]
    );
    assert_eq!(
        comparison.rows.iter().map(|row| row.key.path.as_str()).collect::<Vec<_>>(),
        ["Cold Pressure", "Damper \u{b7} Bump", "Damper \u{b7} Rebound"]
    );
    assert_eq!(
        comparison.rows[0].values,
        vec![
            Some("155 kPa".to_owned()),
            Some("156 kPa".to_owned()),
            Some("153 kPa".to_owned()),
            Some("154 kPa".to_owned()),
        ]
    );
    assert_eq!(
        comparison.rows[1].values[SetupCorner::RightRear.index()],
        Some("--".to_owned())
    );
    assert_eq!(comparison.rows[2].values[SetupCorner::LeftFront.index()], None);
    assert_eq!(single_row_label(&blocks[2]), Some("Rear Wing".to_owned()));
}

#[test]
fn corner_field_keys_keep_nested_paths_and_duplicate_occurrences_distinct() {
    let rows = [
        group("Damper", 1),
        value("Bump", "4", 2),
        value("Bump", "5", 2),
        value("Bump", "6", 1),
    ];
    let fields = setup_corner_fields(&rows).expect("valid nested fields");

    assert_eq!(
        fields.iter().map(|(key, _)| key).collect::<Vec<_>>(),
        [
            &ComparisonFieldKey { path: "Damper \u{b7} Bump".to_owned(), occurrence: 0 },
            &ComparisonFieldKey { path: "Damper \u{b7} Bump".to_owned(), occurrence: 1 },
            &ComparisonFieldKey { path: "Bump".to_owned(), occurrence: 0 },
        ]
    );
}

#[test]
fn unsafe_corner_shapes_fall_back_to_the_original_rows() {
    let pressure = |v: &str| mapping(vec![("Pressure", text(v))]);
    let fixtures = vec![
        mapping(vec![("Section", mapping(vec![("LeftFront", pressure("155 kPa"))]))]),
        mapping(vec![(
            "Section",
            mapping(vec![("LeftFront", pressure("155 kPa")), ("LF", pressure("156 kPa"))]),
        )]),
        mapping(vec![(
            "Section",
            mapping(vec![
                ("LeftFront", pressure("155 kPa")),
                ("Aero", number("4")),
                ("RightFront", pressure("156 kPa")),
            ]),
        )]),
        mapping(vec![(
            "Section",
            mapping(vec![
                ("LeftFront", pressure("155 kPa")),
                ("RightFront", mapping(vec![("Camber", text("-3 deg"))])),
            ]),
        )]),
    ];
    for setup in fixtures {
        let sections = setup_sections(&setup);
        let blocks = setup_content_blocks(&sections[0]);

        assert!(blocks.iter().all(|block| matches!(block, SetupContentBlock::Rows(_))));
    }
}

#[test]
fn root_entries_cut_at_each_top_level_row() {
    let rows = vec![
        value("Aero", "4", 0),
        group("LeftFront", 0),
        value("Pressure", "155 kPa", 1),
        group("Damper", 1),
        value("Bump", "5", 2),
        value("Wing", "6", 0),
    ];
    let entries = root_setup_entries(&rows).expect("rows nest as a tree");
    assert_eq!(
        entries,
        vec![
            RootSetupEntry { start: 0, end: 1, corner: None },
            RootSetupEntry { start: 1, end: 5, corner: Some(SetupCorner::LeftFront) },
            RootSetupEntry { start: 5, end: 6, corner: None },
        ]
    );
    assert_eq!(root_setup_entries(&[]), Some(Vec::new()));
    assert_eq!(setup_row_depth(&rows[4]), 2);
}

#[test]
fn rows_that_skip_a_level_have_no_root_entries() {
    assert_eq!(root_setup_entries(&[value("Pressure", "1", 1)]), None);
    assert_eq!(root_setup_entries(&[group("A", 0), value("B", "1", 2)]), None);
    assert_eq!(root_setup_entries(&[value("A", "1", 0), value("B", "1", 1)]), None);
    assert_eq!(setup_corner_fields(&[value("B", "1", 0)]), None);
    assert_eq!(setup_corner_fields(&[value("B", "1", 2)]), None);
}

#[test]
fn unparsable_rows_stay_one_block() {
    let section = SetupSection {
        key: "setup:section:x".to_owned(),
        title: "X".to_owned(),
        rows: vec![value("A", "1", 0), value("B", "2", 3)],
    };
    let blocks = setup_content_blocks(&section);
    assert_eq!(blocks, vec![SetupContentBlock::Rows(section.rows.clone())]);
    let empty = SetupSection { key: "k".to_owned(), title: "t".to_owned(), rows: Vec::new() };
    assert!(setup_content_blocks(&empty).is_empty());
}

#[test]
fn a_single_corner_or_no_shared_field_gives_no_comparison() {
    let rows = vec![
        group("LF", 0),
        value("Pressure", "1", 1),
        group("RF", 0),
        value("Camber", "2", 1),
        group("LR", 0),
        value("Pressure", "3", 1),
    ];
    let entries = root_setup_entries(&rows).expect("rows nest as a tree");
    assert_eq!(corner_comparison(&rows, &entries[..1]), None);
    assert_eq!(corner_comparison(&rows, &entries[..2]), None);
    let table = corner_comparison(&rows, &entries).expect("pressure is shared");
    assert_eq!(
        table.columns,
        vec![SetupCorner::LeftFront, SetupCorner::RightFront, SetupCorner::LeftRear]
    );
    assert_eq!(table.rows.len(), 2);
    assert_eq!(
        table.rows[0].values,
        vec![Some("1".to_owned()), None, Some("3".to_owned()), None]
    );
}

#[test]
fn fallback_blocks_hold_every_row_in_order() {
    let section = SetupSection {
        key: "setup:section:Section".to_owned(),
        title: "Section".to_owned(),
        rows: vec![
            group("LeftFront", 0),
            value("Pressure", "155 kPa", 1),
            value("Aero", "4", 0),
            group("RightFront", 0),
            value("Pressure", "156 kPa", 1),
        ],
    };
    let blocks = setup_content_blocks(&section);
    let mut shown = Vec::new();
    for block in &blocks {
        match block {
            SetupContentBlock::Rows(rows) => shown.extend(rows.iter().cloned()),
            SetupContentBlock::CornerComparison(_) => panic!("no comparison is possible here"),
        }
    }
    assert_eq!(shown, section.rows);
}
