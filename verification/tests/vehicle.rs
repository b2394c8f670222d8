use chiaro::vehicle::{format_transmission, format_tyre_compounds, DriverTire};

fn tire(index: Option<i32>, compound: Option<&str>) -> DriverTire {
    DriverTire { tire_index: index, tire_compound_type: compound.map(str::to_owned) }
}

#[test]
fn transmission_lists_forward_gears_then_neutral_and_reverse() {
    assert_eq!(format_transmission(Some(6), Some(1), Some(1)), "6-speed \u{b7} N \u{b7} R");
    assert_eq!(format_transmission(Some(7), Some(0), None), "7-speed");
    assert_eq!(format_transmission(None, Some(1), Some(-1)), "N \u{b7} R");
    assert_eq!(format_transmission(None, None, None), "--");
}

#[test]
fn tyre_compounds_skip_blank_names_and_repeats() {
    let tires = [
        tire(Some(0), Some("Dry")),
        tire(Some(1), Some(" Wet ")),
        tire(Some(0), Some("Dry")),
        tire(None, Some("   ")),
        tire(Some(2), None),
        tire(None, Some("Hard")),
    ];
    assert_eq!(format_tyre_compounds(&tires), "0 Dry \u{b7} 1 Wet \u{b7} Hard");
    assert_eq!(format_tyre_compounds(&[]), "--");
}
