//! State and update logic of the Car Setup screen: the order and collapsed
//! state of its cards, the maximized and dragged card, and the setup data of
//! the current and the reference session.
//!
//! Where the dragged card is dropped is decided from the cards' on-screen
//! bounds by the caller, which hands the result to `set_drop_target`.
use vstd::prelude::*;
use crate::actions::Action;
use crate::dashboard_layout::{append_missing, lemma_append_missing, lemma_append_missing_complete};
use crate::dashboard_state::{
    append_missing_keys, car_setup_move, card_collapsed, current_card_order, filter_absent,
    filter_present, merged_card_order, optional_view,
};
use crate::flags::FlagMap;
use crate::layout::{
    CarSetupLayout, CarSetupLayoutFlag, car_setup_flag_views, first_flags, normalize_flags,
    normalize_order, normalized_order,
};
use crate::setup::SetupViewData;
use crate::text::{clone_strings, str_eq, string_views};

verus! {

/// The layout and interaction state of the Car Setup screen, as plain values.
pub struct CarSetupModel {
    pub card_order: Seq<Seq<char>>,
    pub card_collapsed: Map<Seq<char>, bool>,
    pub maximized_card: Option<Seq<char>>,
    pub hovered_card: Option<Seq<char>>,
    pub dragging_card: Option<Seq<char>>,
    pub drop_target: Option<Seq<char>>,
    pub layout_revision: u64,
}

/// The state of the Car Setup screen.
#[derive(Debug)]
pub struct CarSetupState {
    pub cached_session_info_revision: Option<u64>,
    pub cached_reference_session_info_revision: Option<u64>,
    pub setup: SetupViewData,
    pub reference_setup: Option<SetupViewData>,
    pub layout_revision: u64,
    pub card_order: Vec<String>,
    pub card_collapsed: FlagMap,
    pub maximized_card: Option<String>,
    pub hovered_card: Option<String>,
    pub dragging_card: Option<String>,
    pub drop_target: Option<String>,
}

impl CarSetupState {
    /// The layout and interaction state, as plain values.
    pub open spec fn model(&self) -> CarSetupModel {
        CarSetupModel {
            card_order: string_views(self.card_order@),
            card_collapsed: self.card_collapsed@,
            maximized_card: optional_view(self.maximized_card),
            hovered_card: optional_view(self.hovered_card),
            dragging_card: optional_view(self.dragging_card),
            drop_target: optional_view(self.drop_target),
            layout_revision: self.layout_revision,
        }
    }

    /// The keys of the cards that the current setup has.
    pub open spec fn spec_card_keys(&self) -> Seq<Seq<char>> {
        self.setup.spec_card_keys()
    }

    /// Whether `after` holds the same setup data and revisions as `self`.
    pub open spec fn same_data(&self, after: &CarSetupState) -> bool {
        &&& after.cached_session_info_revision == self.cached_session_info_revision
        &&& after.cached_reference_session_info_revision
            == self.cached_reference_session_info_revision
        &&& after.setup == self.setup
        &&& after.reference_setup == self.reference_setup
    }
}

/// The state of a screen that nobody has used yet.
pub open spec fn initial_model() -> CarSetupModel {
    CarSetupModel {
        card_order: Seq::empty(),
        card_collapsed: Map::empty(),
        maximized_card: None,
        hovered_card: None,
        dragging_card: None,
        drop_target: None,
        layout_revision: 0,
    }
}

impl Default for CarSetupState {
    fn default() -> (r: Self)
        ensures
            r.model() == initial_model(),
            r.cached_session_info_revision is None,
            r.cached_reference_session_info_revision is None,
            r.setup.status == crate::setup::SetupDataStatus::Waiting,
            r.setup.vehicle_sections@.len() == 0,
            r.setup.sections@.len() == 0,
            r.reference_setup is None,
    {
        let r = CarSetupState {
            cached_session_info_revision: None,
            cached_reference_session_info_revision: None,
            setup: SetupViewData::default(),
            reference_setup: None,
            layout_revision: 0,
            card_order: Vec::new(),
            card_collapsed: FlagMap::new(),
            maximized_card: None,
            hovered_card: None,
            dragging_card: None,
            drop_target: None,
        };
        assert(string_views(r.card_order@) =~= Seq::<Seq<char>>::empty());
        r
    }
}

/// The model with no card dragged.
pub open spec fn without_drag(m: CarSetupModel) -> CarSetupModel {
    CarSetupModel { dragging_card: None, drop_target: None, ..m }
}

/// The model after the persisted layout `layout` is restored: its order and
/// flags normalized, nothing maximized or dragged, and no edit counted.
pub open spec fn restored(m: CarSetupModel, layout: CarSetupLayout) -> CarSetupModel {
    CarSetupModel {
        card_order: normalized_order(string_views(layout.card_order@)),
        card_collapsed: first_flags(car_setup_flag_views(layout.card_collapsed@)),
        maximized_card: None,
        dragging_card: None,
        drop_target: None,
        ..m
    }
}

/// The model once the cards are reconciled with the cards that exist: new
/// cards join the order, and a maximized or dragged card that no longer
/// exists is let go.
pub open spec fn reconciled(m: CarSetupModel, keys: Seq<Seq<char>>) -> CarSetupModel {
    let kept_max = match m.maximized_card {
        Some(k) => if keys.contains(k) {
            Some(k)
        } else {
            None
        },
        None => None,
    };
    let base = CarSetupModel {
        card_order: append_missing(m.card_order, keys),
        maximized_card: kept_max,
        ..m
    };
    match m.dragging_card {
        Some(k) => if keys.contains(k) {
            base
        } else {
            without_drag(base)
        },
        None => base,
    }
}

impl CarSetupState {
    /// How many layout edits were made; the caller persists the layout when
    /// this changes.
    pub fn layout_revision(&self) -> (r: u64)
        ensures
            r == self.layout_revision,
    {
        self.layout_revision
    }

    /// The persisted form of the layout: the saved card order and the
    /// collapsed flags in key order.
    pub fn layout_snapshot(&self) -> (r: CarSetupLayout)
        ensures
            string_views(r.card_order@) == self.model().card_order,
            car_setup_flag_views(r.card_collapsed@) == self.card_collapsed.spec_entries(),
            crate::flags::entries_map(car_setup_flag_views(r.card_collapsed@)) == self.card_collapsed@,
    {
        let entries = self.card_collapsed.entries();
        let mut flags: Vec<CarSetupLayoutFlag> = Vec::new();
        let mut i: usize = 0;
        while i < entries.len()
            invariant
                i <= entries@.len(),
                car_setup_flag_views(flags@) == crate::flags::entry_views(entries@).take(i as int),
            decreases entries@.len() - i,
        {
            let ghost prev = flags@;
            flags.push(CarSetupLayoutFlag { key: entries[i].0.clone(), value: entries[i].1 });
            assert(car_setup_flag_views(flags@) =~= car_setup_flag_views(prev).push(
                crate::flags::entry_views(entries@)[i as int],
            ));
            assert(crate::flags::entry_views(entries@).take(i + 1) =~= crate::flags::entry_views(
                entries@,
            ).take(i as int).push(crate::flags::entry_views(entries@)[i as int]));
            i = i + 1;
        }
        assert(crate::flags::entry_views(entries@).take(i as int) =~= crate::flags::entry_views(
            entries@,
        ));
        CarSetupLayout { card_order: clone_strings(&self.card_order), card_collapsed: flags }
    }

    /// Restores a persisted layout without marking it as a user edit.
    pub fn apply_layout(&mut self, layout: &CarSetupLayout)
        ensures
            final(self).model() == restored(old(self).model(), *layout),
            old(self).same_data(&*final(self)),
    {
        self.card_order = normalize_order(layout.card_order.as_slice());
        self.card_collapsed = normalize_flags(layout.card_collapsed.as_slice());
        self.maximized_card = None;
        self.clear_drag();
    }

    fn mark_layout_changed(&mut self)
        ensures
            final(self).model() == (CarSetupModel {
                layout_revision: old(self).layout_revision.wrapping_add(1),
                ..old(self).model()
            }),
            old(self).same_data(&*final(self)),
    {
        self.layout_revision = self.layout_revision.wrapping_add(1);
    }

    /// Ends dragging a card.
    pub fn clear_drag(&mut self)
        ensures
            final(self).model() == without_drag(old(self).model()),
            old(self).same_data(&*final(self)),
    {
        self.dragging_card = None;
        self.drop_target = None;
    }

    /// Sets where the dragged card would be dropped; nothing is a target while
    /// no card is dragged.
    pub fn set_drop_target(&mut self, target: Option<String>)
        ensures
            final(self).model() == (CarSetupModel {
                drop_target: if old(self).dragging_card is Some {
                    optional_view(target)
                } else {
                    None
                },
                ..old(self).model()
            }),
            old(self).same_data(&*final(self)),
    {
        if self.dragging_card.is_some() {
            self.drop_target = target;
        } else {
            self.drop_target = None;
        }
    }

    /// Adds the new cards to the saved order, and lets go of a maximized or
    /// dragged card that no longer exists.
    pub fn reconcile_cards(&mut self)
        ensures
            final(self).model() == reconciled(old(self).model(), old(self).spec_card_keys()),
            old(self).same_data(&*final(self)),
    {
        let available = self.setup.card_keys();
        let mut order = Vec::new();
        std::mem::swap(&mut order, &mut self.card_order);
        append_missing_keys(&mut order, &available);
        self.card_order = order;
        let drop_maximized = match &self.maximized_card {
            Some(key) => !crate::text::contains_string(available.as_slice(), key.as_str()),
            None => false,
        };
        if drop_maximized {
            self.maximized_card = None;
        }
        let drop_drag = match &self.dragging_card {
            Some(key) => !crate::text::contains_string(available.as_slice(), key.as_str()),
            None => false,
        };
        if drop_drag {
            self.clear_drag();
        }
    }

    /// The cards in their current order: the saved order of the cards that
    /// exist now, followed by the new cards in their natural order.
    pub fn current_card_order(&self) -> (r: Vec<String>)
        ensures
            string_views(r@) == current_card_order(self.model().card_order, self.spec_card_keys()),
    {
        let available = self.setup.card_keys();
        let mut order = filter_present(&self.card_order, &available);
        append_missing_keys(&mut order, &available);
        order
    }

    /// Stores the reordered current cards `order` in the saved order.
    pub fn merge_current_order(&mut self, order: Vec<String>)
        ensures
            final(self).model() == (CarSetupModel {
                card_order: merged_card_order(old(self).model().card_order, string_views(order@)),
                ..old(self).model()
            }),
            old(self).same_data(&*final(self)),
    {
        let mut kept = filter_absent(&self.card_order, &order);
        let ghost before = string_views(kept@);
        let mut i: usize = 0;
        while i < order.len()
            invariant
                i <= order@.len(),
                string_views(kept@) == before + string_views(order@).take(i as int),
            decreases order@.len() - i,
        {
            let ghost prev = kept@;
            kept.push(order[i].clone());
            assert(string_views(kept@) =~= string_views(prev).push(order@[i as int]@));
            assert(string_views(order@).take(i + 1) =~= string_views(order@).take(i as int).push(
                order@[i as int]@,
            ));
            i = i + 1;
        }
        assert(string_views(order@).take(i as int) =~= string_views(order@));
        self.card_order = kept;
    }
}

/// What the user does on the Car Setup screen.
#[derive(Debug, Clone)]
pub enum CarSetupMessage {
    ToggleCardCollapsed(String),
    ToggleCardMaximized(String),
    SetHoveredCard(Option<String>),
    BeginCardDrag(String),
    FinishCardDrag,
    CancelPointerInteractions,
    OpenReferenceIbt,
    ClearReferenceIbt,
    ResetLayout,
}

impl CarSetupMessage {
    /// Whether the message restores the default layout.
    pub fn resets_layout(&self) -> (r: bool)
        ensures
            r == (*self is ResetLayout),
    {
        matches!(self, CarSetupMessage::ResetLayout)
    }
}

/// What the application is asked to do for `message`.
pub open spec fn car_setup_action(message: CarSetupMessage) -> Option<Action> {
    match message {
        CarSetupMessage::OpenReferenceIbt => Some(Action::OpenReferenceIbt),
        CarSetupMessage::ClearReferenceIbt => Some(Action::ClearReferenceIbt),
        _ => None,
    }
}

/// The model after `message`, where `keys` are the cards that exist.
pub open spec fn after_message(m: CarSetupModel, keys: Seq<Seq<char>>, message: CarSetupMessage) -> CarSetupModel {
    match message {
        CarSetupMessage::ToggleCardCollapsed(card) => {
            let collapsed = !card_collapsed(m.card_collapsed, card@);
            without_drag(
                CarSetupModel {
                    card_collapsed: m.card_collapsed.insert(card@, collapsed),
                    maximized_card: if collapsed && m.maximized_card == Some(card@) {
                        None
                    } else {
                        m.maximized_card
                    },
                    layout_revision: m.layout_revision.wrapping_add(1),
                    ..m
                },
            )
        },
        CarSetupMessage::ToggleCardMaximized(card) => {
            let maximizing = m.maximized_card != Some(card@);
            let expanded = maximizing && card_collapsed(m.card_collapsed, card@);
            without_drag(
                CarSetupModel {
                    maximized_card: if maximizing {
                        Some(card@)
                    } else {
                        None
                    },
                    card_collapsed: if expanded {
                        m.card_collapsed.insert(card@, false)
                    } else {
                        m.card_collapsed
                    },
                    layout_revision: if expanded {
                        m.layout_revision.wrapping_add(1)
                    } else {
                        m.layout_revision
                    },
                    ..m
                },
            )
        },
        CarSetupMessage::SetHoveredCard(card) => CarSetupModel {
            hovered_card: optional_view(card),
            ..m
        },
        CarSetupMessage::BeginCardDrag(card) => CarSetupModel {
            dragging_card: Some(card@),
            drop_target: None,
            ..m
        },
        CarSetupMessage::FinishCardDrag => {
            let (order, changed) = car_setup_move(
                m.card_order,
                keys,
                m.dragging_card,
                m.drop_target,
            );
            without_drag(
                CarSetupModel {
                    card_order: order,
                    layout_revision: if changed {
                        m.layout_revision.wrapping_add(1)
                    } else {
                        m.layout_revision
                    },
                    ..m
                },
            )
        },
        CarSetupMessage::CancelPointerInteractions => without_drag(m),
        CarSetupMessage::OpenReferenceIbt => m,
        CarSetupMessage::ClearReferenceIbt => m,
        CarSetupMessage::ResetLayout => CarSetupModel {
            card_order: Seq::empty(),
            card_collapsed: Map::empty(),
            maximized_card: None,
            dragging_card: None,
            drop_target: None,
            layout_revision: m.layout_revision.wrapping_add(1),
            ..m
        },
    }
}

impl CarSetupState {
    fn toggle_card_collapsed(&mut self, card: String)
        ensures
            final(self).model() == after_message(
                old(self).model(),
                old(self).spec_card_keys(),
                CarSetupMessage::ToggleCardCollapsed(card),
            ),
            old(self).same_data(&*final(self)),
    {
        let collapsed = match self.card_collapsed.get(card.as_str()) {
            Some(value) => !value,
            None => true,
        };
        let clears_maximized = match &self.maximized_card {
            Some(maximized) => collapsed && str_eq(maximized.as_str(), card.as_str()),
            None => false,
        };
        let mut flags = FlagMap::new();
        std::mem::swap(&mut flags, &mut self.card_collapsed);
        flags.insert(card, collapsed);
        self.card_collapsed = flags;
        if clears_maximized {
            self.maximized_card = None;
        }
        self.clear_drag();
        self.mark_layout_changed();
    }

    fn toggle_card_maximized(&mut self, card: String)
        ensures
            final(self).model() == after_message(
                old(self).model(),
                old(self).spec_card_keys(),
                CarSetupMessage::ToggleCardMaximized(card),
            ),
            old(self).same_data(&*final(self)),
    {
        let maximizing = match &self.maximized_card {
            Some(maximized) => !str_eq(maximized.as_str(), card.as_str()),
            None => true,
        };
        let expanded_collapsed = maximizing && match self.card_collapsed.get(card.as_str()) {
            Some(value) => value,
            None => false,
        };
        if expanded_collapsed {
            let mut flags = FlagMap::new();
            std::mem::swap(&mut flags, &mut self.card_collapsed);
            flags.insert(crate::text::to_owned_string(card.as_str()), false);
            self.card_collapsed = flags;
        }
        self.maximized_card = if maximizing {
            Some(card)
        } else {
            None
        };
        self.clear_drag();
        if expanded_collapsed {
            self.mark_layout_changed();
        }
    }

    /// The saved order after dropping the dragged card on its target, when
    /// that changes the order.
    fn order_after_drop(&self) -> (r: Option<Vec<String>>)
        ensures
            ({
                let (order, changed) = car_setup_move(
                    self.model().card_order,
                    self.spec_card_keys(),
                    self.model().dragging_card,
                    self.model().drop_target,
                );
                &&& r is Some == changed
                &&& r matches Some(v) ==> string_views(v@) == order
            }),
    {
        let (dragging, target) = match (&self.dragging_card, &self.drop_target) {
            (Some(dragging), Some(target)) => (dragging, target),
            _ => {
                return None;
            },
        };
        let mut current = self.current_card_order();
        if !crate::dashboard_layout::move_dynamic_item_to(&mut current, dragging.as_str(), target.as_str()) {
            return None;
        }
        let mut kept = filter_absent(&self.card_order, &current);
        let ghost before = string_views(kept@);
        let mut i: usize = 0;
        while i < current.len()
            invariant
                i <= current@.len(),
                string_views(kept@) == before + string_views(current@).take(i as int),
            decreases current@.len() - i,
        {
            let ghost prev = kept@;
            kept.push(current[i].clone());
            assert(string_views(kept@) =~= string_views(prev).push(current@[i as int]@));
            assert(string_views(current@).take(i + 1) =~= string_views(current@).take(i as int).push(
                current@[i as int]@,
            ));
            i = i + 1;
        }
        assert(string_views(current@).take(i as int) =~= string_views(current@));
        Some(kept)
    }

    fn finish_card_drag(&mut self)
        ensures
            final(self).model() == after_message(
                old(self).model(),
                old(self).spec_card_keys(),
                CarSetupMessage::FinishCardDrag,
            ),
            old(self).same_data(&*final(self)),
    {
        let changed = match self.order_after_drop() {
            Some(order) => {
                self.card_order = order;
                true
            },
            None => false,
        };
        self.clear_drag();
        if changed {
            self.mark_layout_changed();
        }
    }
}

/// Handles a message of the Car Setup screen; returns what the application
/// is asked to do.
pub fn update(state: &mut CarSetupState, message: CarSetupMessage) -> (r: Option<Action>)
    ensures
        final(state).model() == after_message(old(state).model(), old(state).spec_card_keys(), message),
        old(state).same_data(&*final(state)),
        r == car_setup_action(message),
{
    match message {
        CarSetupMessage::ToggleCardCollapsed(card) => {
            state.toggle_card_collapsed(card);
            None
        },
        CarSetupMessage::ToggleCardMaximized(card) => {
            state.toggle_card_maximized(card);
            None
        },
        CarSetupMessage::SetHoveredCard(card) => {
            state.hovered_card = card;
            None
        },
        CarSetupMessage::BeginCardDrag(card) => {
            state.clear_drag();
            state.dragging_card = Some(card);
            None
        },
        CarSetupMessage::FinishCardDrag => {
            state.finish_card_drag();
            None
        },
        CarSetupMessage::CancelPointerInteractions => {
            state.clear_drag();
            None
        },
        CarSetupMessage::OpenReferenceIbt => Some(Action::OpenReferenceIbt),
        CarSetupMessage::ClearReferenceIbt => Some(Action::ClearReferenceIbt),
        CarSetupMessage::ResetLayout => {
            state.apply_layout(&CarSetupLayout::default());
            state.mark_layout_changed();
            None
        },
    }
}

/// The revision of a reference session, when there is one.
pub open spec fn reference_revision(reference: Option<(u64, SetupViewData)>) -> Option<u64> {
    match reference {
        Some((revision, _)) => Some(revision),
        None => None,
    }
}

/// The setup data of a reference session, when there is one.
pub open spec fn reference_data(reference: Option<(u64, SetupViewData)>) -> Option<SetupViewData> {
    match reference {
        Some((_, data)) => Some(data),
        None => None,
    }
}

/// Whether `after` holds the reference setup of `reference` (its revision
/// and setup data), where the data is replaced only when the revision changed.
pub open spec fn takes_reference(
    before: CarSetupState,
    after: CarSetupState,
    reference: Option<(u64, SetupViewData)>,
) -> bool {
    let revision = reference_revision(reference);
    &&& after.cached_reference_session_info_revision == revision
    &&& after.reference_setup == if before.cached_reference_session_info_revision == revision {
        before.reference_setup
    } else {
        reference_data(reference)
    }
}

/// Whether `after` is `before` refreshed from a session at `revision` with
/// setup data `setup` and from the reference session `reference`: the setup
/// data is replaced only when the revision changed, then the cards are
/// reconciled with the cards of the setup.
pub open spec fn refreshes(
    before: CarSetupState,
    after: CarSetupState,
    revision: u64,
    setup: SetupViewData,
    reference: Option<(u64, SetupViewData)>,
) -> bool {
    &&& after.cached_session_info_revision == Some(revision)
    &&& after.setup == if before.cached_session_info_revision == Some(revision) {
        before.setup
    } else {
        setup
    }
    &&& takes_reference(before, after, reference)
    &&& after.model() == reconciled(before.model(), after.spec_card_keys())
}

fn refresh_reference(state: &mut CarSetupState, reference: Option<(u64, SetupViewData)>)
    ensures
        takes_reference(*old(state), *final(state), reference),
        final(state).model() == old(state).model(),
        final(state).cached_session_info_revision == old(state).cached_session_info_revision,
        final(state).setup == old(state).setup,
{
    let revision = match &reference {
        Some((revision, _)) => Some(*revision),
        None => None,
    };
    if state.cached_reference_session_info_revision != revision {
        state.cached_reference_session_info_revision = revision;
        state.reference_setup = match reference {
            Some((_, data)) => Some(data),
            None => None,
        };
    }
}

/// Brings the screen up to date with the session at `revision`, whose setup
/// data is `setup`, and with the reference session `reference`.
pub fn refresh(
    state: &mut CarSetupState,
    revision: u64,
    setup: SetupViewData,
    reference: Option<(u64, SetupViewData)>,
)
    ensures
        refreshes(*old(state), *final(state), revision, setup, reference),
{
    if state.cached_session_info_revision != Some(revision) {
        state.cached_session_info_revision = Some(revision);
        state.setup = setup;
    }
    refresh_reference(state, reference);
    state.reconcile_cards();
}

/// Ends what the pointer was doing when the screen is left.
pub fn deactivate(state: &mut CarSetupState)
    ensures
        final(state).model() == without_drag(old(state).model()),
        old(state).same_data(&*final(state)),
{
    state.clear_drag();
}

/// Shows the screen: ends any drag, then refreshes it.
pub fn activate(
    state: &mut CarSetupState,
    revision: u64,
    setup: SetupViewData,
    reference: Option<(u64, SetupViewData)>,
)
    ensures
        exists|middle: CarSetupState|
            {
                &&& middle.model() == without_drag(old(state).model())
                &&& old(state).same_data(&middle)
                &&& refreshes(middle, *final(state), revision, setup, reference)
            },
{
    deactivate(state);
    let ghost middle = *state;
    refresh(state, revision, setup, reference);
    assert(refreshes(middle, *state, revision, setup, reference));
}

/// Forgets the setup of the current session (a new session began); when the
/// screen is shown, refreshes it at once.
pub fn reset_session(
    state: &mut CarSetupState,
    revision: u64,
    setup: SetupViewData,
    reference: Option<(u64, SetupViewData)>,
    active: bool,
)
    ensures
        !active ==> {
            &&& final(state).model() == old(state).model()
            &&& final(state).cached_session_info_revision is None
            &&& final(state).setup.is_initial()
            &&& final(state).cached_reference_session_info_revision
                == old(state).cached_reference_session_info_revision
            &&& final(state).reference_setup == old(state).reference_setup
        },
        active ==> final(state).cached_session_info_revision == Some(revision)
            && final(state).setup == setup && takes_reference(*old(state), *final(state), reference)
            && final(state).model() == reconciled(old(state).model(), setup.spec_card_keys()),
{
    state.cached_session_info_revision = None;
    state.setup = SetupViewData::default();
    if active {
        refresh(state, revision, setup, reference);
    }
}

/// Forgets the reference setup (the reference was replaced or cleared);
/// when the screen is shown, takes `reference` at once. The current setup
/// is never refreshed here.
pub fn reset_reference(state: &mut CarSetupState, reference: Option<(u64, SetupViewData)>, active: bool)
    ensures
        final(state).cached_session_info_revision == old(state).cached_session_info_revision,
        final(state).setup == old(state).setup,
        final(state).model() == reconciled(old(state).model(), old(state).spec_card_keys()),
        !active ==> final(state).cached_reference_session_info_revision is None
            && final(state).reference_setup is None,
        active ==> final(state).cached_reference_session_info_revision == reference_revision(reference)
            && final(state).reference_setup == reference_data(reference),
{
    state.cached_reference_session_info_revision = None;
    state.reference_setup = None;
    if active {
        refresh_reference(state, reference);
    }
    state.reconcile_cards();
}

/// Whether a maximized card is expanded.
pub open spec fn maximized_is_expanded(m: CarSetupModel) -> bool {
    m.maximized_card matches Some(k) ==> !card_collapsed(m.card_collapsed, k)
}

/// Collapsing and maximizing keep a single visible mode: no message leaves
/// a maximized card collapsed.
pub proof fn lemma_messages_keep_maximized_expanded(
    m: CarSetupModel,
    keys: Seq<Seq<char>>,
    message: CarSetupMessage,
)
    requires
        maximized_is_expanded(m),
    ensures
        maximized_is_expanded(after_message(m, keys, message)),
{
}

/// Restoring a layout or reconciling the cards leaves no maximized card
/// collapsed.
pub proof fn lemma_restore_and_reconcile_keep_maximized_expanded(
    m: CarSetupModel,
    layout: CarSetupLayout,
    keys: Seq<Seq<char>>,
)
    requires
        maximized_is_expanded(m),
    ensures
        maximized_is_expanded(restored(m, layout)),
        maximized_is_expanded(reconciled(m, keys)),
{
}

/// Refreshing from the same session revision again, whatever reference is
/// loaded or cleared meanwhile, leaves the saved order and the current cards
/// as they were.
pub proof fn lemma_refresh_keeps_current_cards(
    s0: CarSetupState,
    s1: CarSetupState,
    s2: CarSetupState,
    revision: u64,
    setup1: SetupViewData,
    setup2: SetupViewData,
    reference1: Option<(u64, SetupViewData)>,
    reference2: Option<(u64, SetupViewData)>,
)
    requires
        refreshes(s0, s1, revision, setup1, reference1),
        refreshes(s1, s2, revision, setup2, reference2),
    ensures
        s2.setup == s1.setup,
        s2.model().card_order == s1.model().card_order,
        current_card_order(s2.model().card_order, s2.spec_card_keys()) == current_card_order(
            s1.model().card_order,
            s1.spec_card_keys(),
        ),
{
    let keys = s1.spec_card_keys();
    let order = s1.model().card_order;
    assert forall|i: int| 0 <= i < keys.len() implies order.contains(#[trigger] keys[i]) by {
        lemma_append_missing(s0.model().card_order, keys, keys[i]);
    }
    lemma_append_missing_complete(order, keys);
}

/// The layout revision counts layout edits only: a message that changes it
/// changes the saved card order or flags, or resets the layout.
pub proof fn lemma_revision_counts_layout_edits(
    m: CarSetupModel,
    keys: Seq<Seq<char>>,
    message: CarSetupMessage,
)
    ensures
        ({
            let after = after_message(m, keys, message);
            after.layout_revision != m.layout_revision ==> (after.card_order != m.card_order
                || after.card_collapsed != m.card_collapsed || message is ResetLayout)
        }),
{
    match message {
        CarSetupMessage::ToggleCardCollapsed(card) => {
            crate::dashboard_state::lemma_flag_flip_changes(m.card_collapsed, card@);
        },
        CarSetupMessage::ToggleCardMaximized(card) => {
            if card_collapsed(m.card_collapsed, card@) {
                crate::dashboard_state::lemma_flag_expand_changes(m.card_collapsed, card@);
            }
        },
        CarSetupMessage::FinishCardDrag => {
            crate::dashboard_state::lemma_car_setup_move_changes_order(
                m.card_order,
                keys,
                m.dragging_card,
                m.drop_target,
            );
        },
        _ => {},
    }
}


/// Maximizing is a toggle: pressing maximize on the maximized card restores
/// it, pressing it on any other card maximizes that card, and pressing it
/// twice on a card gives back what was maximized before, when that was
/// nothing or that card.
pub proof fn lemma_toggle_maximized_is_a_toggle(m: CarSetupModel, keys: Seq<Seq<char>>, card: String)
    ensures
        m.maximized_card == Some(card@) ==> after_message(
            m,
            keys,
            CarSetupMessage::ToggleCardMaximized(card),
        ).maximized_card is None,
        m.maximized_card != Some(card@) ==> after_message(
            m,
            keys,
            CarSetupMessage::ToggleCardMaximized(card),
        ).maximized_card == Some(card@),
        (m.maximized_card is None || m.maximized_card == Some(card@)) ==> after_message(
            after_message(m, keys, CarSetupMessage::ToggleCardMaximized(card)),
            keys,
            CarSetupMessage::ToggleCardMaximized(card),
        ).maximized_card == m.maximized_card,
{
}
} // verus!
