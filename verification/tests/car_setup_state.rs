use chiaro::actions::Action;
use chiaro::car_setup_state::{
    activate, deactivate, refresh, reset_reference, reset_session, update, CarSetupMessage,
    CarSetupState,
};
use chiaro::layout::{CarSetupLayout, CarSetupLayoutFlag};
use chiaro::setup::{SetupDataStatus, SetupViewData};
use chiaro::setup_value::{setup_sections, SetupValue};

fn text(s: &str) -> SetupValue {
    SetupValue::String(s.to_owned())
}

fn mapping(entries: Vec<(&str, SetupValue)>) -> SetupValue {
    SetupValue::Mapping(entries.into_iter().map(|(k, v)| (text(k), v)).collect())
}

fn setup_data(setup: &SetupValue) -> SetupViewData {
    let mut data = SetupViewData::default();
    data.status = SetupDataStatus::Available;
    data.sections = setup_sections(setup);
    data
}

fn chassis(front_arb: Option<&str>) -> SetupValue {
    let mut entries = vec![
        ("LeftFront", mapping(vec![("Camber", text("-3.5 deg"))])),
        ("RightFront", mapping(vec![("Camber", text("-3.4 deg"))])),
    ];
    if let Some(arb) = front_arb {
        entries.push(("FrontARB", text(arb)));
    }
    mapping(vec![("Chassis", mapping(entries))])
}

#[test]
fn resetting_a_reference_cannot_refresh_or_replace_current_cards() {
    let current = setup_data(&chassis(Some("3")));
    let reference = setup_data(&mapping(vec![(
        "Chassis",
        mapping(vec![
            ("LF", mapping(vec![("Camber", text("-3.6 deg"))])),
            ("RF", mapping(vec![("Camber", text("-3.3 deg"))])),
        ]),
    )]));
    let mut state = CarSetupState::default();
    refresh(&mut state, 1, current, None);
    let before_reference = state.current_card_order();

    reset_reference(&mut state, Some((1, reference)), true);

    assert_eq!(state.current_card_order(), before_reference);
    assert!(state.reference_setup.is_some());
}

#[test]
fn persisted_layout_is_normalized_without_marking_an_edit() {
    let mut state = CarSetupState::default();
    state.apply_layout(&CarSetupLayout {
        card_order: vec!["summary".into(), String::new(), "summary".into()],
        card_collapsed: vec![
            CarSetupLayoutFlag { key: "summary".into(), value: true },
            CarSetupLayoutFlag { key: "summary".into(), value: false },
        ],
    });

    assert_eq!(state.layout_revision(), 0);
    assert_eq!(state.card_order, ["summary"]);
    assert_eq!(state.card_collapsed.get("summary"), Some(true));
}

#[test]
fn layout_reset_is_a_persistable_change() {
    let mut state = CarSetupState::default();

    update(&mut state, CarSetupMessage::ResetLayout);

    assert_eq!(state.layout_revision(), 1);
    assert!(CarSetupMessage::ResetLayout.resets_layout());
}

#[test]
fn collapse_and_maximize_keep_a_single_visible_mode() {
    let mut state = CarSetupState::default();

    update(&mut state, CarSetupMessage::ToggleCardMaximized("summary".to_owned()));
    assert_eq!(state.maximized_card.as_deref(), Some("summary"));
    assert_eq!(state.layout_revision(), 0);

    update(&mut state, CarSetupMessage::ToggleCardCollapsed("summary".to_owned()));
    assert_eq!(state.maximized_card, None);
    assert_eq!(state.card_collapsed.get("summary"), Some(true));
    assert_eq!(state.layout_revision(), 1);

    update(&mut state, CarSetupMessage::ToggleCardMaximized("summary".to_owned()));
    assert_eq!(state.maximized_card.as_deref(), Some("summary"));
    assert_eq!(state.card_collapsed.get("summary"), Some(false));
    assert_eq!(state.layout_revision(), 2);
}

#[test]
fn cancelling_pointer_interactions_aborts_dragging() {
    let mut state = CarSetupState::default();
    update(&mut state, CarSetupMessage::BeginCardDrag("summary".to_owned()));
    state.set_drop_target(Some("status".to_owned()));

    update(&mut state, CarSetupMessage::CancelPointerInteractions);

    assert_eq!(state.dragging_card, None);
    assert_eq!(state.drop_target, None);
}

#[test]
fn dropping_a_card_on_another_reorders_and_counts_an_edit() {
    let mut state = CarSetupState::default();
    update(&mut state, CarSetupMessage::BeginCardDrag("summary".to_owned()));
    update(&mut state, CarSetupMessage::FinishCardDrag);
    assert_eq!(state.current_card_order(), ["summary", "status"]);
    assert_eq!(state.layout_revision(), 0);

    update(&mut state, CarSetupMessage::BeginCardDrag("summary".to_owned()));
    state.set_drop_target(Some("status".to_owned()));
    update(&mut state, CarSetupMessage::FinishCardDrag);

    assert_eq!(state.current_card_order(), ["status", "summary"]);
    assert_eq!(state.card_order, ["status", "summary"]);
    assert_eq!(state.layout_revision(), 1);
    assert_eq!(state.dragging_card, None);
    assert_eq!(state.drop_target, None);
}

#[test]
fn a_drop_target_needs_a_dragged_card() {
    let mut state = CarSetupState::default();
    state.set_drop_target(Some("status".to_owned()));
    assert_eq!(state.drop_target, None);
}

#[test]
fn refreshing_again_keeps_the_current_cards_whatever_the_reference() {
    let mut state = CarSetupState::default();
    refresh(&mut state, 4, setup_data(&chassis(Some("3"))), None);
    let without_reference = state.current_card_order();
    assert_eq!(without_reference, ["summary", "setup:section:Chassis"]);

    refresh(
        &mut state,
        4,
        setup_data(&chassis(None)),
        Some((9, setup_data(&chassis(Some("5"))))),
    );

    assert_eq!(state.current_card_order(), without_reference);
    assert_eq!(state.cached_reference_session_info_revision, Some(9));
    assert!(state.reference_setup.is_some());
}

#[test]
fn a_new_session_revision_replaces_the_setup() {
    let mut state = CarSetupState::default();
    refresh(&mut state, 1, SetupViewData::default(), None);
    assert_eq!(state.current_card_order(), ["summary", "status"]);

    refresh(&mut state, 2, setup_data(&chassis(Some("3"))), None);
    assert_eq!(state.cached_session_info_revision, Some(2));
    assert_eq!(
        state.current_card_order(),
        ["summary", "setup:section:Chassis"]
    );
    assert_eq!(state.card_order, ["summary", "status", "setup:section:Chassis"]);
}

#[test]
fn resetting_the_session_forgets_the_setup_until_shown() {
    let mut state = CarSetupState::default();
    refresh(&mut state, 1, setup_data(&chassis(Some("3"))), None);

    reset_session(&mut state, 2, setup_data(&chassis(None)), None, false);
    assert_eq!(state.cached_session_info_revision, None);
    assert_eq!(state.setup, SetupViewData::default());

    reset_session(&mut state, 2, setup_data(&chassis(None)), None, true);
    assert_eq!(state.cached_session_info_revision, Some(2));
    assert_eq!(state.setup.status, SetupDataStatus::Available);
}

#[test]
fn maximized_card_is_let_go_when_it_disappears() {
    let mut state = CarSetupState::default();
    refresh(&mut state, 1, SetupViewData::default(), None);
    update(&mut state, CarSetupMessage::ToggleCardMaximized("status".to_owned()));
    update(&mut state, CarSetupMessage::BeginCardDrag("status".to_owned()));

    activate(&mut state, 2, setup_data(&chassis(Some("3"))), None);

    assert_eq!(state.maximized_card, None);
    assert_eq!(state.dragging_card, None);
    deactivate(&mut state);
    assert_eq!(state.dragging_card, None);
}

#[test]
fn reference_buttons_ask_the_application() {
    let mut state = CarSetupState::default();
    assert_eq!(
        update(&mut state, CarSetupMessage::OpenReferenceIbt),
        Some(Action::OpenReferenceIbt)
    );
    assert_eq!(
        update(&mut state, CarSetupMessage::ClearReferenceIbt),
        Some(Action::ClearReferenceIbt)
    );
    assert_eq!(update(&mut state, CarSetupMessage::SetHoveredCard(Some("x".to_owned()))), None);
    assert_eq!(state.hovered_card.as_deref(), Some("x"));
    let snapshot = state.layout_snapshot();
    assert!(snapshot.card_order.is_empty());
}
