//! The layout state of the Telemetry dashboard: the order, visibility and
//! collapsed state of its cards, the column count, maximized cards and the
//! card being dragged, and how it is persisted and restored.
use vstd::prelude::*;
use crate::actions::{Action, IbtLoadState, ReferenceIbtState};
use crate::dashboard::{ChartId, LapAnalysisCardId, LayoutId, SetupCardId};
use crate::dashboard_layout::{
    ChartColumns, DashboardLayout, DashboardLayoutFlag, DashboardTab, all_false,
    dashboard_flag_views, default_chart_visibility, flags_of, id_flag_views, id_keys, keys_of,
    layout_flags, layout_order, lemma_layout_flags_first_wins, lemma_layout_flags_of_values,
    lemma_layout_order_complete, lemma_layout_order_of_keys, normalize_dynamic_flags,
    normalize_dynamic_order, normalize_layout_flags, normalize_layout_order, moved, moves, first_position,
};
use crate::flags::{FlagMap, entries_map, lemma_entries_map_domain, lemma_sorted_distinct, sorted_keys};
use crate::layout::{
    first_flags, lemma_first_flags_domain, lemma_first_flags_of_entries,
    lemma_normalized_order_distinct, lemma_normalized_order_members,
    lemma_normalized_order_of_normal, normalized_order,
};
use crate::text::{clone_strings, is_blank, string_views};
use crate::session_metadata::{SessionMetadata, empty_session_metadata, no_session_metadata};

verus! {

/// The layout that a dashboard state holds, as plain values.
pub struct LayoutModel {
    pub chart_order: Seq<ChartId>,
    pub chart_visibility: Seq<bool>,
    pub chart_collapsed: Seq<bool>,
    pub chart_columns: ChartColumns,
    pub setup_card_order: Seq<SetupCardId>,
    pub setup_card_collapsed: Seq<bool>,
    pub lap_analysis_order: Seq<LapAnalysisCardId>,
    pub lap_analysis_collapsed: Seq<bool>,
    pub car_setup_card_order: Seq<Seq<char>>,
    pub car_setup_card_collapsed: Map<Seq<char>, bool>,
}

/// Which charts are visible by default, in index order.
pub open spec fn default_visibility() -> Seq<bool> {
    ChartId::spec_all().map_values(|c: ChartId| ChartId::spec_default_visible().contains(c))
}

/// The layout that a persisted layout restores: unknown keys are skipped,
/// the first occurrence of a key wins, and what is missing takes its default.
pub open spec fn normalized_layout(layout: DashboardLayout) -> LayoutModel {
    LayoutModel {
        chart_order: layout_order(string_views(layout.chart_order@), ChartId::spec_default_order()),
        chart_visibility: layout_flags::<ChartId>(
            dashboard_flag_views(layout.chart_visibility@),
            default_visibility(),
        ),
        chart_collapsed: layout_flags::<ChartId>(
            dashboard_flag_views(layout.chart_collapsed@),
            Seq::new(15, |i: int| false),
        ),
        chart_columns: if layout.chart_columns == 2 {
            ChartColumns::Two
        } else {
            ChartColumns::One
        },
        setup_card_order: layout_order(string_views(layout.setup_card_order@), SetupCardId::spec_all()),
        setup_card_collapsed: layout_flags::<SetupCardId>(
            dashboard_flag_views(layout.setup_card_collapsed@),
            Seq::new(4, |i: int| false),
        ),
        lap_analysis_order: layout_order(
            string_views(layout.lap_analysis_order@),
            LapAnalysisCardId::spec_all(),
        ),
        lap_analysis_collapsed: layout_flags::<LapAnalysisCardId>(
            dashboard_flag_views(layout.lap_analysis_collapsed@),
            Seq::new(7, |i: int| false),
        ),
        car_setup_card_order: normalized_order(string_views(layout.car_setup_card_order@)),
        car_setup_card_collapsed: first_flags(dashboard_flag_views(layout.car_setup_card_collapsed@)),
    }
}

/// Whether `layout` is the persisted form of `model`: every id by its key,
/// every flag listed in id order, and the Car Setup flags in key order.
pub open spec fn snapshot_of(layout: DashboardLayout, model: LayoutModel) -> bool {
    &&& string_views(layout.chart_order@) == id_keys(model.chart_order)
    &&& dashboard_flag_views(layout.chart_visibility@) == id_flag_views(
        ChartId::spec_all(),
        model.chart_visibility,
    )
    &&& dashboard_flag_views(layout.chart_collapsed@) == id_flag_views(
        ChartId::spec_all(),
        model.chart_collapsed,
    )
    &&& layout.chart_columns == model.chart_columns.spec_count()
    &&& string_views(layout.setup_card_order@) == id_keys(model.setup_card_order)
    &&& dashboard_flag_views(layout.setup_card_collapsed@) == id_flag_views(
        SetupCardId::spec_all(),
        model.setup_card_collapsed,
    )
    &&& string_views(layout.lap_analysis_order@) == id_keys(model.lap_analysis_order)
    &&& dashboard_flag_views(layout.lap_analysis_collapsed@) == id_flag_views(
        LapAnalysisCardId::spec_all(),
        model.lap_analysis_collapsed,
    )
    &&& string_views(layout.car_setup_card_order@) == model.car_setup_card_order
    &&& sorted_keys(dashboard_flag_views(layout.car_setup_card_collapsed@))
    &&& entries_map(dashboard_flag_views(layout.car_setup_card_collapsed@))
        == model.car_setup_card_collapsed
}

/// Whether an order names every id exactly once.
pub open spec fn is_permutation<Id>(order: Seq<Id>) -> bool {
    order.no_duplicates() && forall|id: Id| #[trigger] order.contains(id)
}

/// Whether each order of `model` names every id once, each list of flags
/// has one per id, and the saved Car Setup order names each key once.
pub open spec fn well_ordered(model: LayoutModel) -> bool {
    &&& is_permutation(model.chart_order)
    &&& model.chart_visibility.len() == 15
    &&& model.chart_collapsed.len() == 15
    &&& is_permutation(model.setup_card_order)
    &&& model.setup_card_collapsed.len() == 4
    &&& is_permutation(model.lap_analysis_order)
    &&& model.lap_analysis_collapsed.len() == 7
    &&& model.car_setup_card_order.no_duplicates()
}

/// Whether no Car Setup key of `model`, in its order or among its flags, is
/// blank.
pub open spec fn car_setup_keys_not_blank(model: LayoutModel) -> bool {
    &&& forall|i: int|
        0 <= i < model.car_setup_card_order.len() ==> !is_blank(#[trigger] model.car_setup_card_order[i])
    &&& forall|k: Seq<char>| #[trigger] model.car_setup_card_collapsed.dom().contains(k) ==> !is_blank(k)
}

/// Whether `model` is a layout that restoring can produce: it is well
/// ordered and its Car Setup keys are not blank.
pub open spec fn is_normal(model: LayoutModel) -> bool {
    well_ordered(model) && car_setup_keys_not_blank(model)
}

/// Restoring a layout always gives a normal one.
pub proof fn lemma_normalized_layout_is_normal(layout: DashboardLayout)
    ensures
        is_normal(normalized_layout(layout)),
{
    let m = normalized_layout(layout);
    ChartId::lemma_default_order_complete();
    lemma_layout_order_complete::<ChartId>(string_views(layout.chart_order@), ChartId::spec_default_order());
    assert forall|id: SetupCardId| #[trigger] SetupCardId::spec_all().contains(id) by {
        SetupCardId::lemma_all(id);
    }
    lemma_layout_order_complete::<SetupCardId>(string_views(layout.setup_card_order@), SetupCardId::spec_all());
    assert forall|id: LapAnalysisCardId| #[trigger] LapAnalysisCardId::spec_all().contains(id) by {
        LapAnalysisCardId::lemma_all(id);
    }
    lemma_layout_order_complete::<LapAnalysisCardId>(
        string_views(layout.lap_analysis_order@),
        LapAnalysisCardId::spec_all(),
    );
    lemma_layout_flags_first_wins::<ChartId>(
        dashboard_flag_views(layout.chart_visibility@),
        default_visibility(),
        ChartId::Speed,
    );
    lemma_layout_flags_first_wins::<ChartId>(
        dashboard_flag_views(layout.chart_collapsed@),
        Seq::new(15, |i: int| false),
        ChartId::Speed,
    );
    lemma_layout_flags_first_wins::<SetupCardId>(
        dashboard_flag_views(layout.setup_card_collapsed@),
        Seq::new(4, |i: int| false),
        SetupCardId::Session,
    );
    lemma_layout_flags_first_wins::<LapAnalysisCardId>(
        dashboard_flag_views(layout.lap_analysis_collapsed@),
        Seq::new(7, |i: int| false),
        LapAnalysisCardId::Cursor,
    );
    let keys = string_views(layout.car_setup_card_order@);
    lemma_normalized_order_distinct(keys);
    assert forall|i: int| 0 <= i < m.car_setup_card_order.len() implies !is_blank(
        #[trigger] m.car_setup_card_order[i],
    ) by {
        lemma_normalized_order_members(keys, m.car_setup_card_order[i]);
    }
    assert forall|k: Seq<char>| #[trigger] m.car_setup_card_collapsed.dom().contains(k) implies !is_blank(k) by {
        lemma_first_flags_domain(dashboard_flag_views(layout.car_setup_card_collapsed@), k);
    }
}

/// Restoring the persisted form of a normal layout gives that layout back.
pub proof fn lemma_layout_round_trip(model: LayoutModel, layout: DashboardLayout)
    requires
        is_normal(model),
        snapshot_of(layout, model),
    ensures
        normalized_layout(layout) == model,
{
    lemma_layout_order_of_keys::<ChartId>(model.chart_order, ChartId::spec_default_order());
    lemma_layout_order_of_keys::<SetupCardId>(model.setup_card_order, SetupCardId::spec_all());
    lemma_layout_order_of_keys::<LapAnalysisCardId>(model.lap_analysis_order, LapAnalysisCardId::spec_all());
    ChartId::lemma_all(ChartId::Speed);
    SetupCardId::lemma_all(SetupCardId::Session);
    LapAnalysisCardId::lemma_all(LapAnalysisCardId::Cursor);
    lemma_layout_flags_of_values::<ChartId>(model.chart_visibility, default_visibility());
    lemma_layout_flags_of_values::<ChartId>(model.chart_collapsed, Seq::new(15, |i: int| false));
    lemma_layout_flags_of_values::<SetupCardId>(model.setup_card_collapsed, Seq::new(4, |i: int| false));
    lemma_layout_flags_of_values::<LapAnalysisCardId>(
        model.lap_analysis_collapsed,
        Seq::new(7, |i: int| false),
    );
    lemma_normalized_order_of_normal(model.car_setup_card_order);
    let flags = dashboard_flag_views(layout.car_setup_card_collapsed@);
    lemma_sorted_distinct(flags);
    assert forall|i: int| 0 <= i < flags.len() implies !is_blank(#[trigger] flags[i].0) by {
        lemma_entries_map_domain(flags, flags[i].0);
    }
    lemma_first_flags_of_entries(flags);
    let columns = if layout.chart_columns == 2 {
        ChartColumns::Two
    } else {
        ChartColumns::One
    };
    model.chart_columns.lemma_persisted_round_trip();
    assert(columns == model.chart_columns);
}

/// Restoring a layout, persisting it and restoring it again gives what the
/// first restore gave.
pub proof fn lemma_restore_snapshot_is_stable(layout: DashboardLayout, persisted: DashboardLayout)
    requires
        snapshot_of(persisted, normalized_layout(layout)),
    ensures
        normalized_layout(persisted) == normalized_layout(layout),
{
    lemma_normalized_layout_is_normal(layout);
    lemma_layout_round_trip(normalized_layout(layout), persisted);
}

/// What a dashboard state holds of the card drags: the card being dragged
/// and the card it would be dropped on, for each kind of card.
pub struct DragModel {
    pub chart: Option<ChartId>,
    pub chart_target: Option<ChartId>,
    pub chart_list_item: Option<ChartId>,
    pub chart_list_target: Option<ChartId>,
    pub lap_analysis_card: Option<LapAnalysisCardId>,
    pub lap_analysis_target: Option<LapAnalysisCardId>,
    pub setup_card: Option<SetupCardId>,
    pub setup_card_target: Option<SetupCardId>,
    pub car_setup_card: Option<Seq<char>>,
    pub car_setup_target: Option<Seq<char>>,
}

/// No card is being dragged.
pub open spec fn no_drag() -> DragModel {
    DragModel {
        chart: None,
        chart_target: None,
        chart_list_item: None,
        chart_list_target: None,
        lap_analysis_card: None,
        lap_analysis_target: None,
        setup_card: None,
        setup_card_target: None,
        car_setup_card: None,
        car_setup_target: None,
    }
}

/// The layout state of the Telemetry dashboard.
#[derive(Debug)]
pub struct DashboardState {
    active_tab: DashboardTab,
    ibt_load_state: IbtLoadState,
    reference_ibt: ReferenceIbtState,
    cached_session_info_revision: Option<u64>,
    car_setup: crate::setup::SetupViewData,
    session_metadata: SessionMetadata,
    selected_lap_index: Option<usize>,
    selected_reference_lap_index: Option<usize>,
    layout_revision: u64,
    chart_order: Vec<ChartId>,
    chart_visibility: Vec<bool>,
    chart_collapsed: Vec<bool>,
    chart_columns: ChartColumns,
    maximized_chart: Option<ChartId>,
    dragging_chart: Option<ChartId>,
    drop_target: Option<ChartId>,
    dragging_chart_list_item: Option<ChartId>,
    chart_list_drop_target: Option<ChartId>,
    lap_analysis_order: Vec<LapAnalysisCardId>,
    lap_analysis_collapsed: Vec<bool>,
    dragging_lap_analysis_card: Option<LapAnalysisCardId>,
    lap_analysis_drop_target: Option<LapAnalysisCardId>,
    setup_card_order: Vec<SetupCardId>,
    setup_card_collapsed: Vec<bool>,
    dragging_setup_card: Option<SetupCardId>,
    setup_card_drop_target: Option<SetupCardId>,
    car_setup_card_order: Vec<String>,
    car_setup_card_collapsed: FlagMap,
    maximized_car_setup_card: Option<String>,
    dragging_car_setup_card: Option<String>,
    car_setup_drop_target: Option<String>,
}

/// The view of an optional string.
pub open spec fn optional_view(s: Option<String>) -> Option<Seq<char>> {
    match s {
        Some(s) => Some(s@),
        None => None,
    }
}

impl DashboardState {
    /// The layout is well ordered: each order names every id once, each list
    /// of flags has one flag per id, and the saved Car Setup order names each
    /// key once.
    #[verifier::type_invariant]
    spec fn inv(self) -> bool {
        well_ordered(self.layout())
    }

    /// The layout held.
    pub closed spec fn layout(&self) -> LayoutModel {
        LayoutModel {
            chart_order: self.chart_order@,
            chart_visibility: self.chart_visibility@,
            chart_collapsed: self.chart_collapsed@,
            chart_columns: self.chart_columns,
            setup_card_order: self.setup_card_order@,
            setup_card_collapsed: self.setup_card_collapsed@,
            lap_analysis_order: self.lap_analysis_order@,
            lap_analysis_collapsed: self.lap_analysis_collapsed@,
            car_setup_card_order: string_views(self.car_setup_card_order@),
            car_setup_card_collapsed: self.car_setup_card_collapsed@,
        }
    }

    /// The card drags in progress.
    pub closed spec fn drags(&self) -> DragModel {
        DragModel {
            chart: self.dragging_chart,
            chart_target: self.drop_target,
            chart_list_item: self.dragging_chart_list_item,
            chart_list_target: self.chart_list_drop_target,
            lap_analysis_card: self.dragging_lap_analysis_card,
            lap_analysis_target: self.lap_analysis_drop_target,
            setup_card: self.dragging_setup_card,
            setup_card_target: self.setup_card_drop_target,
            car_setup_card: optional_view(self.dragging_car_setup_card),
            car_setup_target: optional_view(self.car_setup_drop_target),
        }
    }

    pub closed spec fn spec_active_tab(&self) -> DashboardTab {
        self.active_tab
    }

    pub closed spec fn spec_layout_revision(&self) -> u64 {
        self.layout_revision
    }

    pub closed spec fn spec_maximized_chart(&self) -> Option<ChartId> {
        self.maximized_chart
    }

    pub closed spec fn spec_maximized_car_setup_card(&self) -> Option<Seq<char>> {
        optional_view(self.maximized_car_setup_card)
    }

    pub closed spec fn spec_ibt_load_state(&self) -> IbtLoadState {
        self.ibt_load_state
    }

    pub closed spec fn spec_reference_ibt(&self) -> ReferenceIbtState {
        self.reference_ibt
    }

    pub closed spec fn spec_car_setup_card_keys(&self) -> Seq<Seq<char>> {
        self.car_setup.spec_card_keys()
    }

    /// Whether the state equals `before` but for its layout, drags, revision
    /// and maximized cards.
    pub open spec fn keeps_the_rest_of(&self, before: &DashboardState) -> bool {
        &&& self.spec_active_tab() == before.spec_active_tab()
        &&& self.spec_ibt_load_state() == before.spec_ibt_load_state()
        &&& self.spec_reference_ibt() == before.spec_reference_ibt()
        &&& self.spec_car_setup_card_keys() == before.spec_car_setup_card_keys()
        &&& self.spec_car_setup() == before.spec_car_setup()
        &&& self.spec_session_metadata() == before.spec_session_metadata()
        &&& self.spec_selected_laps() == before.spec_selected_laps()
        &&& self.cached_revision() == before.cached_revision()
    }

    /// The tab shown.
    pub fn active_tab(&self) -> (r: DashboardTab)
        ensures
            r == self.spec_active_tab(),
    {
        self.active_tab
    }

    /// The number of persisted layout edits so far, wrapping around.
    pub fn layout_revision(&self) -> (r: u64)
        ensures
            r == self.spec_layout_revision(),
    {
        self.layout_revision
    }

    /// The persisted form of the layout.
    pub fn layout_snapshot(&self) -> (r: DashboardLayout)
        ensures
            snapshot_of(r, self.layout()),
            well_ordered(self.layout()),
            r.chart_order@.len() == 15,
    {
        proof {
            use_type_invariant(self);
            ChartId::lemma_default_order_complete();
            lemma_permutation_len(self.chart_order@, ChartId::spec_default_order());
            ChartId::lemma_all(ChartId::Speed);
            SetupCardId::lemma_all(SetupCardId::Session);
            LapAnalysisCardId::lemma_all(LapAnalysisCardId::Cursor);
        }
        let charts = ChartId::all();
        let setup_cards = SetupCardId::all();
        let lap_cards = LapAnalysisCardId::all();
        let entries = self.car_setup_card_collapsed.entries();
        let mut car_setup_card_collapsed: Vec<DashboardLayoutFlag> = Vec::new();
        let mut i: usize = 0;
        while i < entries.len()
            invariant
                i <= entries@.len(),
                dashboard_flag_views(car_setup_card_collapsed@) == crate::flags::entry_views(entries@).take(i as int),
            decreases entries@.len() - i,
        {
            let ghost prev = car_setup_card_collapsed@;
            car_setup_card_collapsed.push(DashboardLayoutFlag { key: entries[i].0.clone(), value: entries[i].1 });
            assert(dashboard_flag_views(car_setup_card_collapsed@) =~= dashboard_flag_views(prev).push(
                crate::flags::entry_views(entries@)[i as int],
            ));
            assert(crate::flags::entry_views(entries@).take(i + 1) =~= crate::flags::entry_views(
                entries@,
            ).take(i as int).push(crate::flags::entry_views(entries@)[i as int]));
            i = i + 1;
        }
        assert(crate::flags::entry_views(entries@).take(i as int) =~= crate::flags::entry_views(entries@));
        let chart_order = keys_of(self.chart_order.as_slice());
        assert(string_views(chart_order@).len() == chart_order@.len());
        DashboardLayout {
            chart_order,
            chart_visibility: flags_of(charts.as_slice(), self.chart_visibility.as_slice()),
            chart_collapsed: flags_of(charts.as_slice(), self.chart_collapsed.as_slice()),
            chart_columns: self.chart_columns.persisted_value(),
            setup_card_order: keys_of(self.setup_card_order.as_slice()),
            setup_card_collapsed: flags_of(setup_cards.as_slice(), self.setup_card_collapsed.as_slice()),
            lap_analysis_order: keys_of(self.lap_analysis_order.as_slice()),
            lap_analysis_collapsed: flags_of(lap_cards.as_slice(), self.lap_analysis_collapsed.as_slice()),
            car_setup_card_order: clone_strings(&self.car_setup_card_order),
            car_setup_card_collapsed,
        }
    }
}

/// The layout of a dashboard that nobody has customized.
pub open spec fn default_layout_model() -> LayoutModel {
    LayoutModel {
        chart_order: ChartId::spec_default_order(),
        chart_visibility: default_visibility(),
        chart_collapsed: Seq::new(15, |i: int| false),
        chart_columns: ChartColumns::One,
        setup_card_order: SetupCardId::spec_all(),
        setup_card_collapsed: Seq::new(4, |i: int| false),
        lap_analysis_order: LapAnalysisCardId::spec_all(),
        lap_analysis_collapsed: Seq::new(7, |i: int| false),
        car_setup_card_order: Seq::empty(),
        car_setup_card_collapsed: Map::empty(),
    }
}

impl Default for DashboardState {
    fn default() -> (r: Self)
        ensures
            r.layout() == default_layout_model(),
            r.drags() == no_drag(),
            r.spec_active_tab() == DashboardTab::Telemetry,
            r.spec_layout_revision() == 0,
            r.spec_maximized_chart() is None,
            r.spec_maximized_car_setup_card() is None,
            r.spec_ibt_load_state() == IbtLoadState::Idle,
            r.spec_reference_ibt().spec_load_state() == IbtLoadState::Idle,
            r.spec_reference_ibt().spec_error() is None,
            r.spec_session_metadata() == empty_session_metadata(),
            r.spec_selected_laps() == (None::<usize>, None::<usize>),
            is_normal(r.layout()),
    {
        proof {
            lemma_default_layout_is_normal();
        }
        let r = DashboardState {
            active_tab: DashboardTab::Telemetry,
            ibt_load_state: IbtLoadState::Idle,
            reference_ibt: ReferenceIbtState::new(),
            cached_session_info_revision: None,
            car_setup: crate::setup::SetupViewData::default(),
            session_metadata: no_session_metadata(),
            selected_lap_index: None,
            selected_reference_lap_index: None,
            layout_revision: 0,
            chart_order: ChartId::default_order(),
            chart_visibility: default_chart_visibility(),
            chart_collapsed: all_false(15),
            chart_columns: ChartColumns::One,
            maximized_chart: None,
            dragging_chart: None,
            drop_target: None,
            dragging_chart_list_item: None,
            chart_list_drop_target: None,
            lap_analysis_order: LapAnalysisCardId::all(),
            lap_analysis_collapsed: all_false(7),
            dragging_lap_analysis_card: None,
            lap_analysis_drop_target: None,
            setup_card_order: SetupCardId::all(),
            setup_card_collapsed: all_false(4),
            dragging_setup_card: None,
            setup_card_drop_target: None,
            car_setup_card_order: Vec::new(),
            car_setup_card_collapsed: FlagMap::new(),
            maximized_car_setup_card: None,
            dragging_car_setup_card: None,
            car_setup_drop_target: None,
        };
        assert(string_views(r.car_setup_card_order@) =~= Seq::<Seq<char>>::empty());
        r
    }
}

impl DashboardState {
    /// Restores a persisted layout without counting it as an edit: the layout
    /// becomes its normalized form, and maximized cards and drags end.
    pub fn apply_layout(&mut self, layout: &DashboardLayout)
        ensures
            final(self).layout() == normalized_layout(*layout),
            is_normal(final(self).layout()),
            final(self).drags() == no_drag(),
            final(self).spec_maximized_chart() is None,
            final(self).spec_maximized_car_setup_card() is None,
            final(self).spec_layout_revision() == old(self).spec_layout_revision(),
            final(self).keeps_the_rest_of(&*old(self)),
    {
        proof {
            use_type_invariant(&*self);
            lemma_normalized_layout_is_normal(*layout);
            lemma_layout_flags_first_wins::<ChartId>(
                dashboard_flag_views(layout.chart_visibility@),
                default_visibility(),
                ChartId::Speed,
            );
            lemma_layout_flags_first_wins::<ChartId>(
                dashboard_flag_views(layout.chart_collapsed@),
                Seq::new(15, |i: int| false),
                ChartId::Speed,
            );
            lemma_layout_flags_first_wins::<SetupCardId>(
                dashboard_flag_views(layout.setup_card_collapsed@),
                Seq::new(4, |i: int| false),
                SetupCardId::Session,
            );
            lemma_layout_flags_first_wins::<LapAnalysisCardId>(
                dashboard_flag_views(layout.lap_analysis_collapsed@),
                Seq::new(7, |i: int| false),
                LapAnalysisCardId::Cursor,
            );
        }
        let default_order = ChartId::default_order();
        let setup_cards = SetupCardId::all();
        let lap_cards = LapAnalysisCardId::all();
        let visibility = default_chart_visibility();
        let no_charts_collapsed = all_false(15);
        let no_setup_cards_collapsed = all_false(4);
        let no_lap_cards_collapsed = all_false(7);
        self.chart_order = normalize_layout_order(layout.chart_order.as_slice(), default_order.as_slice());
        self.chart_visibility = normalize_layout_flags::<ChartId>(
            layout.chart_visibility.as_slice(),
            visibility.as_slice(),
        );
        self.chart_collapsed = normalize_layout_flags::<ChartId>(
            layout.chart_collapsed.as_slice(),
            no_charts_collapsed.as_slice(),
        );
        self.chart_columns = ChartColumns::from_persisted_value(layout.chart_columns);
        self.setup_card_order = normalize_layout_order(layout.setup_card_order.as_slice(), setup_cards.as_slice());
        self.setup_card_collapsed = normalize_layout_flags::<SetupCardId>(
            layout.setup_card_collapsed.as_slice(),
            no_setup_cards_collapsed.as_slice(),
        );
        self.lap_analysis_order = normalize_layout_order(layout.lap_analysis_order.as_slice(), lap_cards.as_slice());
        self.lap_analysis_collapsed = normalize_layout_flags::<LapAnalysisCardId>(
            layout.lap_analysis_collapsed.as_slice(),
            no_lap_cards_collapsed.as_slice(),
        );
        self.car_setup_card_order = normalize_dynamic_order(layout.car_setup_card_order.as_slice());
        self.car_setup_card_collapsed = normalize_dynamic_flags(layout.car_setup_card_collapsed.as_slice());
        self.maximized_chart = None;
        self.maximized_car_setup_card = None;
        self.clear_all_drags();
    }

    /// Counts one persisted layout edit.
    fn mark_layout_changed(&mut self)
        ensures
            final(self).spec_layout_revision() == old(self).spec_layout_revision().wrapping_add(1),
            final(self).layout() == old(self).layout(),
            final(self).drags() == old(self).drags(),
            final(self).spec_maximized_chart() == old(self).spec_maximized_chart(),
            final(self).spec_maximized_car_setup_card() == old(self).spec_maximized_car_setup_card(),
            final(self).keeps_the_rest_of(&*old(self)),
    {
        proof {
            use_type_invariant(&*self);
        }
        self.layout_revision = self.layout_revision.wrapping_add(1);
    }

    /// Ends every card drag.
    fn clear_all_drags(&mut self)
        ensures
            final(self).drags() == no_drag(),
            final(self).layout() == old(self).layout(),
            final(self).spec_layout_revision() == old(self).spec_layout_revision(),
            final(self).spec_maximized_chart() == old(self).spec_maximized_chart(),
            final(self).spec_maximized_car_setup_card() == old(self).spec_maximized_car_setup_card(),
            final(self).keeps_the_rest_of(&*old(self)),
    {
        proof {
            use_type_invariant(&*self);
        }
        self.dragging_chart = None;
        self.drop_target = None;
        self.dragging_chart_list_item = None;
        self.chart_list_drop_target = None;
        self.dragging_lap_analysis_card = None;
        self.lap_analysis_drop_target = None;
        self.dragging_setup_card = None;
        self.setup_card_drop_target = None;
        self.dragging_car_setup_card = None;
        self.car_setup_drop_target = None;
    }

    pub fn begin_ibt_selection(&mut self)
        ensures
            final(self).spec_ibt_load_state() == IbtLoadState::Selecting,
            final(self).spec_reference_ibt() == old(self).spec_reference_ibt(),
            final(self).layout() == old(self).layout(),
            keeps_all_but_loads(*old(self), *final(self)),
    {
        proof {
            use_type_invariant(&*self);
        }
        self.ibt_load_state = IbtLoadState::Selecting;
    }

    pub fn begin_ibt_load(&mut self)
        ensures
            final(self).spec_ibt_load_state() == IbtLoadState::Loading,
            final(self).spec_reference_ibt() == old(self).spec_reference_ibt(),
            final(self).layout() == old(self).layout(),
            keeps_all_but_loads(*old(self), *final(self)),
    {
        proof {
            use_type_invariant(&*self);
        }
        self.ibt_load_state = IbtLoadState::Loading;
    }

    pub fn finish_ibt_load(&mut self)
        ensures
            final(self).spec_ibt_load_state() == IbtLoadState::Idle,
            final(self).spec_reference_ibt() == old(self).spec_reference_ibt(),
            final(self).layout() == old(self).layout(),
            keeps_all_but_loads(*old(self), *final(self)),
    {
        proof {
            use_type_invariant(&*self);
        }
        self.ibt_load_state = IbtLoadState::Idle;
    }

    pub fn begin_reference_ibt_selection(&mut self)
        ensures
            final(self).spec_reference_ibt().spec_load_state() == IbtLoadState::Selecting,
            final(self).spec_reference_ibt().spec_error() is None,
            final(self).spec_ibt_load_state() == old(self).spec_ibt_load_state(),
            final(self).layout() == old(self).layout(),
            keeps_all_but_loads(*old(self), *final(self)),
    {
        proof {
            use_type_invariant(&*self);
        }
        let mut reference = ReferenceIbtState::new();
        std::mem::swap(&mut reference, &mut self.reference_ibt);
        reference.begin_selection();
        self.reference_ibt = reference;
    }

    pub fn begin_reference_ibt_load(&mut self)
        ensures
            final(self).spec_reference_ibt().spec_load_state() == IbtLoadState::Loading,
            final(self).spec_reference_ibt().spec_error() is None,
            final(self).spec_ibt_load_state() == old(self).spec_ibt_load_state(),
            final(self).layout() == old(self).layout(),
            keeps_all_but_loads(*old(self), *final(self)),
    {
        proof {
            use_type_invariant(&*self);
        }
        let mut reference = ReferenceIbtState::new();
        std::mem::swap(&mut reference, &mut self.reference_ibt);
        reference.begin_load();
        self.reference_ibt = reference;
    }

    pub fn finish_reference_ibt_load(&mut self)
        ensures
            final(self).spec_reference_ibt().spec_load_state() == IbtLoadState::Idle,
            final(self).spec_reference_ibt().spec_error() == old(self).spec_reference_ibt().spec_error(),
            final(self).spec_ibt_load_state() == old(self).spec_ibt_load_state(),
            final(self).layout() == old(self).layout(),
            keeps_all_but_loads(*old(self), *final(self)),
    {
        proof {
            use_type_invariant(&*self);
        }
        let mut reference = ReferenceIbtState::new();
        std::mem::swap(&mut reference, &mut self.reference_ibt);
        reference.finish_load();
        self.reference_ibt = reference;
    }

    pub fn mark_reference_ibt_error(&mut self, error: String)
        ensures
            final(self).spec_reference_ibt().spec_load_state() == old(self).spec_reference_ibt().spec_load_state(),
            final(self).spec_reference_ibt().spec_error() == Some(error@),
            final(self).spec_ibt_load_state() == old(self).spec_ibt_load_state(),
            final(self).layout() == old(self).layout(),
            keeps_all_but_loads(*old(self), *final(self)),
    {
        proof {
            use_type_invariant(&*self);
        }
        let mut reference = ReferenceIbtState::new();
        std::mem::swap(&mut reference, &mut self.reference_ibt);
        reference.mark_error(error);
        self.reference_ibt = reference;
    }

    /// Whether any card is being dragged.
    pub fn is_dragging_card(&self) -> (r: bool)
        ensures
            r == (self.drags().chart is Some || self.drags().chart_list_item is Some
                || self.drags().lap_analysis_card is Some || self.drags().setup_card is Some
                || self.drags().car_setup_card is Some),
    {
        self.dragging_chart.is_some() || self.dragging_chart_list_item.is_some()
            || self.dragging_lap_analysis_card.is_some() || self.dragging_setup_card.is_some()
            || self.dragging_car_setup_card.is_some()
    }
}

/// The keys of `keys` that `available` holds, in their order.
pub open spec fn keys_in(keys: Seq<Seq<char>>, available: Seq<Seq<char>>) -> Seq<Seq<char>>
    decreases keys.len(),
{
    if keys.len() == 0 {
        Seq::empty()
    } else {
        let prev = keys_in(keys.drop_last(), available);
        if available.contains(keys.last()) {
            prev.push(keys.last())
        } else {
            prev
        }
    }
}

/// The keys of `keys` that `taken` does not hold, in their order.
pub open spec fn keys_not_in(keys: Seq<Seq<char>>, taken: Seq<Seq<char>>) -> Seq<Seq<char>>
    decreases keys.len(),
{
    if keys.len() == 0 {
        Seq::empty()
    } else {
        let prev = keys_not_in(keys.drop_last(), taken);
        if taken.contains(keys.last()) {
            prev
        } else {
            prev.push(keys.last())
        }
    }
}

/// The Car Setup cards in their current order: the saved order of the cards
/// that exist now, followed by the new cards in their natural order.
pub open spec fn current_card_order(order: Seq<Seq<char>>, available: Seq<Seq<char>>) -> Seq<Seq<char>> {
    crate::dashboard_layout::append_missing(keys_in(order, available), available)
}

/// The saved order after reordering the current cards: the saved keys of
/// cards not shown now keep their places, followed by the current order.
pub open spec fn merged_card_order(order: Seq<Seq<char>>, current: Seq<Seq<char>>) -> Seq<Seq<char>> {
    keys_not_in(order, current) + current
}

/// The keys of `keys` that `available` holds.
pub(crate) fn filter_present(keys: &Vec<String>, available: &Vec<String>) -> (r: Vec<String>)
    ensures
        string_views(r@) == keys_in(string_views(keys@), string_views(available@)),
{
    let mut out: Vec<String> = Vec::new();
    let mut i: usize = 0;
    while i < keys.len()
        invariant
            i <= keys@.len(),
            string_views(out@) == keys_in(string_views(keys@).take(i as int), string_views(available@)),
        decreases keys@.len() - i,
    {
        assert(string_views(keys@).take(i + 1).drop_last() =~= string_views(keys@).take(i as int));
        assert(string_views(keys@).take(i + 1).last() == keys@[i as int]@);
        if crate::text::contains_string(available.as_slice(), keys[i].as_str()) {
            let ghost prev = out@;
            out.push(keys[i].clone());
            assert(string_views(out@) =~= string_views(prev).push(keys@[i as int]@));
        }
        i = i + 1;
    }
    assert(string_views(keys@).take(i as int) =~= string_views(keys@));
    out
}

/// The keys of `keys` that `taken` does not hold.
pub(crate) fn filter_absent(keys: &Vec<String>, taken: &Vec<String>) -> (r: Vec<String>)
    ensures
        string_views(r@) == keys_not_in(string_views(keys@), string_views(taken@)),
{
    let mut out: Vec<String> = Vec::new();
    let mut i: usize = 0;
    while i < keys.len()
        invariant
            i <= keys@.len(),
            string_views(out@) == keys_not_in(string_views(keys@).take(i as int), string_views(taken@)),
        decreases keys@.len() - i,
    {
        assert(string_views(keys@).take(i + 1).drop_last() =~= string_views(keys@).take(i as int));
        assert(string_views(keys@).take(i + 1).last() == keys@[i as int]@);
        if !crate::text::contains_string(taken.as_slice(), keys[i].as_str()) {
            let ghost prev = out@;
            out.push(keys[i].clone());
            assert(string_views(out@) =~= string_views(prev).push(keys@[i as int]@));
        }
        i = i + 1;
    }
    assert(string_views(keys@).take(i as int) =~= string_views(keys@));
    out
}

/// Appends to `order` each key of `keys` that it lacks.
pub(crate) fn append_missing_keys(order: &mut Vec<String>, keys: &Vec<String>)
    ensures
        string_views(final(order)@) == crate::dashboard_layout::append_missing(
            string_views(old(order)@),
            string_views(keys@),
        ),
{
    let ghost start = string_views(order@);
    let mut i: usize = 0;
    while i < keys.len()
        invariant
            i <= keys@.len(),
            string_views(order@) == crate::dashboard_layout::append_missing(
                start,
                string_views(keys@).take(i as int),
            ),
        decreases keys@.len() - i,
    {
        assert(string_views(keys@).take(i + 1).drop_last() =~= string_views(keys@).take(i as int));
        assert(string_views(keys@).take(i + 1).last() == keys@[i as int]@);
        if !crate::text::contains_string(order.as_slice(), keys[i].as_str()) {
            let ghost prev = order@;
            order.push(keys[i].clone());
            assert(string_views(order@) =~= string_views(prev).push(keys@[i as int]@));
        }
        i = i + 1;
    }
    assert(string_views(keys@).take(i as int) =~= string_views(keys@));
}

/// The Car Setup cards of `state` in their current order.
pub fn current_car_setup_card_order(state: &DashboardState) -> (r: Vec<String>)
    ensures
        string_views(r@) == current_card_order(
            state.layout().car_setup_card_order,
            state.spec_car_setup_card_keys(),
        ),
{
    let available = state.car_setup.card_keys();
    let mut order = filter_present(&state.car_setup_card_order, &available);
    append_missing_keys(&mut order, &available);
    order
}

/// Stores the reordered current cards `order` in the saved order of `state`.
pub fn merge_current_car_setup_order(state: &mut DashboardState, order: Vec<String>)
    requires
        string_views(order@).no_duplicates(),
    ensures
        final(state).layout() == (LayoutModel {
            car_setup_card_order: merged_card_order(old(state).layout().car_setup_card_order, string_views(order@)),
            ..old(state).layout()
        }),
        final(state).drags() == old(state).drags(),
        final(state).spec_layout_revision() == old(state).spec_layout_revision(),
        final(state).spec_maximized_chart() == old(state).spec_maximized_chart(),
        final(state).spec_maximized_car_setup_card() == old(state).spec_maximized_car_setup_card(),
        final(state).keeps_the_rest_of(&*old(state)),
{
    proof {
        use_type_invariant(&*state);
    }
    let mut kept = filter_absent(&state.car_setup_card_order, &order);
    let ghost before = string_views(kept@);
    proof {
        lemma_keys_not_in_distinct(string_views(state.car_setup_card_order@), string_views(order@));
    }
    let mut i: usize = 0;
    while i < order.len()
        invariant
            i <= order@.len(),
            string_views(kept@) == before + string_views(order@).take(i as int),
        decreases order@.len() - i,
    {
        let ghost prev = kept@;
        kept.push(order[i].clone());
        assert(string_views(kept@) =~= string_views(prev).push(order@[i as int]@));
        assert(string_views(order@).take(i + 1) =~= string_views(order@).take(i as int).push(order@[i as int]@));
        i = i + 1;
    }
    assert(string_views(order@).take(i as int) =~= string_views(order@));
    proof {
        let p = before;
        let m = string_views(order@);
        let merged = p + m;
        assert(string_views(kept@) == merged);
        assert forall|a: int, b: int| 0 <= a < b < merged.len() implies merged[a] != merged[b] by {
            if a < p.len() && b >= p.len() {
                assert(p.contains(merged[a]));
                assert(m[b - p.len()] == merged[b]);
                assert(m.contains(merged[b]));
            } else if a >= p.len() {
                assert(merged[a] == m[a - p.len()]);
                assert(merged[b] == m[b - p.len()]);
            } else {
                assert(merged[a] == p[a]);
                assert(merged[b] == p[b]);
            }
        }
    }
    state.car_setup_card_order = kept;
}

impl DashboardState {
    /// Adds the new Car Setup cards to the saved order, and ends maximizing or
    /// dragging a card that no longer exists.
    pub fn reconcile_car_setup_cards(&mut self)
        ensures
            final(self).layout() == (LayoutModel {
                car_setup_card_order: crate::dashboard_layout::append_missing(
                    old(self).layout().car_setup_card_order,
                    old(self).spec_car_setup_card_keys(),
                ),
                ..old(self).layout()
            }),
            final(self).spec_maximized_car_setup_card() == (match old(self).spec_maximized_car_setup_card() {
                Some(k) => if old(self).spec_car_setup_card_keys().contains(k) { Some(k) } else { None },
                None => None,
            }),
            final(self).drags() == (match old(self).drags().car_setup_card {
                Some(k) => if old(self).spec_car_setup_card_keys().contains(k) {
                    old(self).drags()
                } else {
                    DragModel { car_setup_card: None, car_setup_target: None, ..old(self).drags() }
                },
                None => old(self).drags(),
            }),
            final(self).spec_maximized_chart() == old(self).spec_maximized_chart(),
            final(self).spec_layout_revision() == old(self).spec_layout_revision(),
            final(self).keeps_the_rest_of(&*old(self)),
    {
        proof {
            use_type_invariant(&*self);
        }
        let available = self.car_setup.card_keys();
        let mut order = clone_strings(&self.car_setup_card_order);
        proof {
            crate::dashboard_layout::lemma_append_missing(string_views(order@), string_views(available@), Seq::empty());
        }
        append_missing_keys(&mut order, &available);
        self.car_setup_card_order = order;
        let drop_maximized = match &self.maximized_car_setup_card {
            Some(key) => !crate::text::contains_string(available.as_slice(), key.as_str()),
            None => false,
        };
        if drop_maximized {
            self.maximized_car_setup_card = None;
        }
        let drop_drag = match &self.dragging_car_setup_card {
            Some(key) => !crate::text::contains_string(available.as_slice(), key.as_str()),
            None => false,
        };
        if drop_drag {
            self.dragging_car_setup_card = None;
            self.car_setup_drop_target = None;
        }
    }

    /// Records where the dragged chart would be dropped, as the bounds of the
    /// cards on screen decide it.
    pub fn set_chart_drop_target(&mut self, target: Option<ChartId>)
        ensures
            final(self).drags() == (DragModel { chart_target: target, ..old(self).drags() }),
            final(self).layout() == old(self).layout(),
            final(self).spec_layout_revision() == old(self).spec_layout_revision(),
            final(self).spec_maximized_chart() == old(self).spec_maximized_chart(),
            final(self).spec_maximized_car_setup_card() == old(self).spec_maximized_car_setup_card(),
            final(self).keeps_the_rest_of(&*old(self)),
    {
        proof {
            use_type_invariant(&*self);
        }
        self.drop_target = target;
    }

    /// Records where the dragged chart list item would be dropped.
    pub fn set_chart_list_drop_target(&mut self, target: Option<ChartId>)
        ensures
            final(self).drags() == (DragModel { chart_list_target: target, ..old(self).drags() }),
            final(self).layout() == old(self).layout(),
            final(self).spec_layout_revision() == old(self).spec_layout_revision(),
            final(self).spec_maximized_chart() == old(self).spec_maximized_chart(),
            final(self).spec_maximized_car_setup_card() == old(self).spec_maximized_car_setup_card(),
            final(self).keeps_the_rest_of(&*old(self)),
    {
        proof {
            use_type_invariant(&*self);
        }
        self.chart_list_drop_target = target;
    }

    /// Records where the dragged lap analysis card would be dropped.
    pub fn set_lap_analysis_drop_target(&mut self, target: Option<LapAnalysisCardId>)
        ensures
            final(self).drags() == (DragModel { lap_analysis_target: target, ..old(self).drags() }),
            final(self).layout() == old(self).layout(),
            final(self).spec_layout_revision() == old(self).spec_layout_revision(),
            final(self).spec_maximized_chart() == old(self).spec_maximized_chart(),
            final(self).spec_maximized_car_setup_card() == old(self).spec_maximized_car_setup_card(),
            final(self).keeps_the_rest_of(&*old(self)),
    {
        proof {
            use_type_invariant(&*self);
        }
        self.lap_analysis_drop_target = target;
    }

    /// Records where the dragged setup card would be dropped.
    pub fn set_setup_card_drop_target(&mut self, target: Option<SetupCardId>)
        ensures
            final(self).drags() == (DragModel { setup_card_target: target, ..old(self).drags() }),
            final(self).layout() == old(self).layout(),
            final(self).spec_layout_revision() == old(self).spec_layout_revision(),
            final(self).spec_maximized_chart() == old(self).spec_maximized_chart(),
            final(self).spec_maximized_car_setup_card() == old(self).spec_maximized_car_setup_card(),
            final(self).keeps_the_rest_of(&*old(self)),
    {
        proof {
            use_type_invariant(&*self);
        }
        self.setup_card_drop_target = target;
    }

    /// Records where the dragged Car Setup card would be dropped.
    pub fn set_car_setup_drop_target(&mut self, target: Option<String>)
        ensures
            final(self).drags() == (DragModel { car_setup_target: optional_view(target), ..old(self).drags() }),
            final(self).layout() == old(self).layout(),
            final(self).spec_layout_revision() == old(self).spec_layout_revision(),
            final(self).spec_maximized_chart() == old(self).spec_maximized_chart(),
            final(self).spec_maximized_car_setup_card() == old(self).spec_maximized_car_setup_card(),
            final(self).keeps_the_rest_of(&*old(self)),
    {
        proof {
            use_type_invariant(&*self);
        }
        self.car_setup_drop_target = target;
    }
}

/// Takes in what the dashboard shows of session information revision
/// `revision` (its session metadata and its Car Setup view), unless that
/// revision is already shown, and reconciles the saved card order.
pub fn sync_session_metadata(
    state: &mut DashboardState,
    revision: u64,
    metadata: SessionMetadata,
    car_setup: crate::setup::SetupViewData,
)
    ensures
        old(state).cached_revision() == Some(revision) ==> *final(state) == *old(state),
        old(state).cached_revision() != Some(revision) ==> {
            let keys = car_setup.spec_card_keys();
            &&& final(state).cached_revision() == Some(revision)
            &&& final(state).spec_car_setup() == car_setup
            &&& final(state).spec_session_metadata() == metadata
            &&& final(state).spec_selected_laps() == old(state).spec_selected_laps()
            &&& final(state).layout() == (LayoutModel {
                car_setup_card_order: crate::dashboard_layout::append_missing(
                    old(state).layout().car_setup_card_order,
                    keys,
                ),
                ..old(state).layout()
            })
            &&& final(state).spec_active_tab() == old(state).spec_active_tab()
            &&& final(state).spec_ibt_load_state() == old(state).spec_ibt_load_state()
            &&& final(state).spec_reference_ibt() == old(state).spec_reference_ibt()
            &&& final(state).spec_layout_revision() == old(state).spec_layout_revision()
            &&& final(state).spec_maximized_chart() == old(state).spec_maximized_chart()
            &&& final(state).spec_maximized_car_setup_card() == (match old(state).spec_maximized_car_setup_card() {
                Some(k) => if keys.contains(k) { Some(k) } else { None },
                None => None,
            })
            &&& final(state).drags() == (match old(state).drags().car_setup_card {
                Some(k) => if keys.contains(k) {
                    old(state).drags()
                } else {
                    DragModel { car_setup_card: None, car_setup_target: None, ..old(state).drags() }
                },
                None => old(state).drags(),
            })
        },
        well_ordered(old(state).layout()) ==> well_ordered(final(state).layout()),
{
    proof {
        use_type_invariant(&*state);
        if well_ordered(state.layout()) {
            lemma_reconcile_keeps_well_ordered(state.layout(), car_setup.spec_card_keys());
        }
    }
    if state.cached_session_info_revision == Some(revision) {
        return;
    }
    state.cached_session_info_revision = Some(revision);
    state.car_setup = car_setup;
    state.session_metadata = metadata;
    state.reconcile_car_setup_cards();
}

impl DashboardState {
    /// The session information revision whose Car Setup view is shown.
    pub closed spec fn cached_revision(&self) -> Option<u64> {
        self.cached_session_info_revision
    }

    /// The lap shown and the reference lap it is compared with, by index.
    pub closed spec fn spec_selected_laps(&self) -> (Option<usize>, Option<usize>) {
        (self.selected_lap_index, self.selected_reference_lap_index)
    }

    /// The index of the lap shown.
    pub fn selected_lap_index(&self) -> (r: Option<usize>)
        ensures
            r == self.spec_selected_laps().0,
    {
        self.selected_lap_index
    }

    /// The index of the reference lap.
    pub fn selected_reference_lap_index(&self) -> (r: Option<usize>)
        ensures
            r == self.spec_selected_laps().1,
    {
        self.selected_reference_lap_index
    }

    /// What the dashboard shows of the session.
    pub closed spec fn spec_session_metadata(&self) -> SessionMetadata {
        self.session_metadata
    }

    /// What the dashboard shows of the session.
    pub fn session_metadata(&self) -> (r: &SessionMetadata)
        ensures
            *r == self.spec_session_metadata(),
    {
        &self.session_metadata
    }

    /// The Car Setup view shown.
    pub closed spec fn spec_car_setup(&self) -> crate::setup::SetupViewData {
        self.car_setup
    }

    /// The Car Setup view shown.
    pub fn car_setup_view(&self) -> (r: &crate::setup::SetupViewData)
        ensures
            *r == self.spec_car_setup(),
            r.spec_card_keys() == self.spec_car_setup_card_keys(),
    {
        &self.car_setup
    }
}

/// What a user does on the dashboard's layout.
#[derive(Debug)]
pub enum DashboardMessage {
    SelectTab(DashboardTab),
    CycleTab,
    OpenIbt,
    OpenReferenceIbt,
    ClearReferenceIbt,
    ToggleChart(ChartId, bool),
    ToggleChartCollapsed(ChartId),
    BeginChartDrag(ChartId),
    BeginChartListDrag(ChartId),
    ToggleLapAnalysisCardCollapsed(LapAnalysisCardId),
    BeginLapAnalysisDrag(LapAnalysisCardId),
    ToggleSetupCardCollapsed(SetupCardId),
    BeginSetupCardDrag(SetupCardId),
    ToggleCarSetupCardCollapsed(String),
    ToggleCarSetupCardMaximized(String),
    BeginCarSetupCardDrag(String),
    FinishCardDrag,
    SetChartColumns(ChartColumns),
    ResetDashboardLayout,
    ToggleChartMaximized(ChartId),
    CancelPointerInteractions,
}

impl DashboardMessage {
    /// Whether the message puts the whole layout back at its defaults.
    pub fn resets_layout(&self) -> (r: bool)
        ensures
            r == (*self is ResetDashboardLayout),
    {
        match self {
            DashboardMessage::ResetDashboardLayout => true,
            _ => false,
        }
    }
}

/// The action that a message asks of the application.
pub open spec fn message_action(message: DashboardMessage) -> Option<Action> {
    match message {
        DashboardMessage::OpenIbt => Some(Action::OpenIbt),
        DashboardMessage::OpenReferenceIbt => Some(Action::OpenReferenceIbt),
        DashboardMessage::ClearReferenceIbt => Some(Action::ClearReferenceIbt),
        _ => None,
    }
}

/// `order` with `dragging` moved to `target` when both are set and the move
/// changes something, and whether it did.
pub open spec fn move_if<T>(order: Seq<T>, dragging: Option<T>, target: Option<T>) -> (Seq<T>, bool) {
    match (dragging, target) {
        (Some(d), Some(t)) => if crate::dashboard_layout::moves(order, d, t) {
            (crate::dashboard_layout::moved(order, d, t), true)
        } else {
            (order, false)
        },
        _ => (order, false),
    }
}

/// The saved Car Setup order after dropping `dragging` on `target` among the
/// current cards, and whether it changed.
pub open spec fn car_setup_move(order: Seq<Seq<char>>, available: Seq<Seq<char>>, dragging: Option<Seq<char>>, target: Option<Seq<char>>) -> (Seq<Seq<char>>, bool) {
    let current = current_card_order(order, available);
    let (moved, changed) = move_if(current, dragging, target);
    if changed {
        (merged_card_order(order, moved), true)
    } else {
        (order, false)
    }
}

/// The flag of Car Setup card `key`; a card without one is expanded.
pub open spec fn card_collapsed(flags: Map<Seq<char>, bool>, key: Seq<char>) -> bool {
    flags.dom().contains(key) && flags[key]
}

/// Whether `after` equals `before` in everything but the two load states.
pub open spec fn keeps_all_but_loads(before: DashboardState, after: DashboardState) -> bool {
    &&& after.spec_active_tab() == before.spec_active_tab()
    &&& after.layout() == before.layout()
    &&& after.drags() == before.drags()
    &&& after.spec_layout_revision() == before.spec_layout_revision()
    &&& after.spec_maximized_chart() == before.spec_maximized_chart()
    &&& after.spec_maximized_car_setup_card() == before.spec_maximized_car_setup_card()
    &&& after.spec_car_setup_card_keys() == before.spec_car_setup_card_keys()
    &&& after.spec_car_setup() == before.spec_car_setup()
    &&& after.spec_session_metadata() == before.spec_session_metadata()
    &&& after.spec_selected_laps() == before.spec_selected_laps()
    &&& after.cached_revision() == before.cached_revision()
}

/// Whether `after` keeps what no layout message changes: the load states,
/// the Car Setup view and the session information revision.
pub open spec fn keeps_data(before: DashboardState, after: DashboardState) -> bool {
    &&& after.spec_ibt_load_state() == before.spec_ibt_load_state()
    &&& after.spec_reference_ibt() == before.spec_reference_ibt()
    &&& after.spec_car_setup_card_keys() == before.spec_car_setup_card_keys()
    &&& after.spec_car_setup() == before.spec_car_setup()
    &&& after.spec_session_metadata() == before.spec_session_metadata()
    &&& after.spec_selected_laps() == before.spec_selected_laps()
    &&& after.cached_revision() == before.cached_revision()
}

/// Whether `after` differs from `before` in its layout, drags, revision and
/// maximized cards as given, and in nothing else.
pub open spec fn changes_to(
    before: DashboardState,
    after: DashboardState,
    layout: LayoutModel,
    drags: DragModel,
    revision: u64,
    maximized_chart: Option<ChartId>,
    maximized_car_setup_card: Option<Seq<char>>,
) -> bool {
    &&& keeps_data(before, after)
    &&& after.spec_active_tab() == before.spec_active_tab()
    &&& after.layout() == layout
    &&& after.drags() == drags
    &&& after.spec_layout_revision() == revision
    &&& after.spec_maximized_chart() == maximized_chart
    &&& after.spec_maximized_car_setup_card() == maximized_car_setup_card
}

/// Showing `tab` ends every drag when the tab changes.
pub open spec fn selects_tab(before: DashboardState, after: DashboardState, tab: DashboardTab) -> bool {
    if before.spec_active_tab() == tab {
        after == before
    } else {
        &&& keeps_data(before, after)
        &&& after.spec_active_tab() == tab
        &&& after.layout() == before.layout()
        &&& after.drags() == no_drag()
        &&& after.spec_layout_revision() == before.spec_layout_revision()
        &&& after.spec_maximized_chart() == before.spec_maximized_chart()
        &&& after.spec_maximized_car_setup_card() == before.spec_maximized_car_setup_card()
    }
}

/// The other tab.
pub open spec fn other_tab(tab: DashboardTab) -> DashboardTab {
    match tab {
        DashboardTab::Telemetry => DashboardTab::CarSetup,
        DashboardTab::CarSetup => DashboardTab::Telemetry,
    }
}

/// Showing or hiding a chart: a hidden chart is no longer maximized or dragged.
pub open spec fn toggles_chart(before: DashboardState, after: DashboardState, chart: ChartId, visible: bool) -> bool {
    let l = before.layout();
    let d = before.drags();
    let i = chart.spec_index() as int;
    if l.chart_visibility[i] == visible {
        after == before
    } else {
        changes_to(
            before,
            after,
            LayoutModel { chart_visibility: l.chart_visibility.update(i, visible), ..l },
            if !visible && d.chart == Some(chart) {
                DragModel { chart: None, chart_target: None, ..d }
            } else {
                d
            },
            before.spec_layout_revision().wrapping_add(1),
            if !visible && before.spec_maximized_chart() == Some(chart) {
                None
            } else {
                before.spec_maximized_chart()
            },
            before.spec_maximized_car_setup_card(),
        )
    }
}

/// Collapsing or expanding a chart: a collapsed chart is no longer maximized.
pub open spec fn toggles_chart_collapsed(before: DashboardState, after: DashboardState, chart: ChartId) -> bool {
    let l = before.layout();
    let i = chart.spec_index() as int;
    let collapsed = !l.chart_collapsed[i];
    changes_to(
        before,
        after,
        LayoutModel { chart_collapsed: l.chart_collapsed.update(i, collapsed), ..l },
        no_drag(),
        before.spec_layout_revision().wrapping_add(1),
        if collapsed && before.spec_maximized_chart() == Some(chart) {
            None
        } else {
            before.spec_maximized_chart()
        },
        before.spec_maximized_car_setup_card(),
    )
}

/// Starting to drag: every other drag ends.
pub open spec fn begins_drag(before: DashboardState, after: DashboardState, drags: DragModel) -> bool {
    changes_to(
        before,
        after,
        before.layout(),
        drags,
        before.spec_layout_revision(),
        before.spec_maximized_chart(),
        before.spec_maximized_car_setup_card(),
    )
}

/// Collapsing or expanding a lap analysis card.
pub open spec fn toggles_lap_analysis_card(before: DashboardState, after: DashboardState, card: LapAnalysisCardId) -> bool {
    let l = before.layout();
    let i = card.spec_index() as int;
    changes_to(
        before,
        after,
        LayoutModel { lap_analysis_collapsed: l.lap_analysis_collapsed.update(i, !l.lap_analysis_collapsed[i]), ..l },
        no_drag(),
        before.spec_layout_revision().wrapping_add(1),
        before.spec_maximized_chart(),
        before.spec_maximized_car_setup_card(),
    )
}

/// Collapsing or expanding a setup card.
pub open spec fn toggles_setup_card(before: DashboardState, after: DashboardState, card: SetupCardId) -> bool {
    let l = before.layout();
    let i = card.spec_index() as int;
    changes_to(
        before,
        after,
        LayoutModel { setup_card_collapsed: l.setup_card_collapsed.update(i, !l.setup_card_collapsed[i]), ..l },
        no_drag(),
        before.spec_layout_revision().wrapping_add(1),
        before.spec_maximized_chart(),
        before.spec_maximized_car_setup_card(),
    )
}

/// Collapsing or expanding a Car Setup card: a collapsed card is no longer
/// maximized.
pub open spec fn toggles_car_setup_card(before: DashboardState, after: DashboardState, card: Seq<char>) -> bool {
    let l = before.layout();
    let collapsed = !card_collapsed(l.car_setup_card_collapsed, card);
    changes_to(
        before,
        after,
        LayoutModel { car_setup_card_collapsed: l.car_setup_card_collapsed.insert(card, collapsed), ..l },
        no_drag(),
        before.spec_layout_revision().wrapping_add(1),
        before.spec_maximized_chart(),
        if collapsed && before.spec_maximized_car_setup_card() == Some(card) {
            None
        } else {
            before.spec_maximized_car_setup_card()
        },
    )
}

/// Maximizing a Car Setup card expands it; maximizing it again restores it.
pub open spec fn toggles_car_setup_card_maximized(before: DashboardState, after: DashboardState, card: Seq<char>) -> bool {
    let l = before.layout();
    let maximizing = before.spec_maximized_car_setup_card() != Some(card);
    let expanded = maximizing && card_collapsed(l.car_setup_card_collapsed, card);
    changes_to(
        before,
        after,
        if expanded {
            LayoutModel { car_setup_card_collapsed: l.car_setup_card_collapsed.insert(card, false), ..l }
        } else {
            l
        },
        no_drag(),
        if expanded {
            before.spec_layout_revision().wrapping_add(1)
        } else {
            before.spec_layout_revision()
        },
        before.spec_maximized_chart(),
        if maximizing {
            Some(card)
        } else {
            None
        },
    )
}

/// Dropping the dragged cards on their targets.
#[verifier::opaque]
pub open spec fn finishes_drag(before: DashboardState, after: DashboardState) -> bool {
    let l = before.layout();
    let d = before.drags();
    let (charts, by_chart) = move_if(l.chart_order, d.chart, d.chart_target);
    let (charts2, by_list) = move_if(charts, d.chart_list_item, d.chart_list_target);
    let (laps, by_lap) = move_if(l.lap_analysis_order, d.lap_analysis_card, d.lap_analysis_target);
    let (setups, by_setup) = move_if(l.setup_card_order, d.setup_card, d.setup_card_target);
    let (car, by_car) = car_setup_move(
        l.car_setup_card_order,
        before.spec_car_setup_card_keys(),
        d.car_setup_card,
        d.car_setup_target,
    );
    changes_to(
        before,
        after,
        LayoutModel {
            chart_order: charts2,
            lap_analysis_order: laps,
            setup_card_order: setups,
            car_setup_card_order: car,
            ..l
        },
        no_drag(),
        if by_chart || by_list || by_lap || by_setup || by_car {
            before.spec_layout_revision().wrapping_add(1)
        } else {
            before.spec_layout_revision()
        },
        before.spec_maximized_chart(),
        before.spec_maximized_car_setup_card(),
    )
}

/// Choosing the number of chart columns.
pub open spec fn sets_chart_columns(before: DashboardState, after: DashboardState, columns: ChartColumns) -> bool {
    let l = before.layout();
    if l.chart_columns == columns {
        after == before
    } else {
        changes_to(
            before,
            after,
            LayoutModel { chart_columns: columns, ..l },
            before.drags(),
            before.spec_layout_revision().wrapping_add(1),
            before.spec_maximized_chart(),
            before.spec_maximized_car_setup_card(),
        )
    }
}

/// Resetting the layout restores the defaults, and counts as an edit.
pub open spec fn resets_layout(before: DashboardState, after: DashboardState) -> bool {
    changes_to(
        before,
        after,
        default_layout_model(),
        no_drag(),
        before.spec_layout_revision().wrapping_add(1),
        None,
        None,
    )
}

/// Maximizing a chart expands it; maximizing it again restores it.
pub open spec fn toggles_chart_maximized(before: DashboardState, after: DashboardState, chart: ChartId) -> bool {
    let l = before.layout();
    let i = chart.spec_index() as int;
    let maximizing = before.spec_maximized_chart() != Some(chart);
    let expanded = maximizing && l.chart_collapsed[i];
    changes_to(
        before,
        after,
        if expanded {
            LayoutModel { chart_collapsed: l.chart_collapsed.update(i, false), ..l }
        } else {
            l
        },
        no_drag(),
        if expanded {
            before.spec_layout_revision().wrapping_add(1)
        } else {
            before.spec_layout_revision()
        },
        if maximizing {
            Some(chart)
        } else {
            None
        },
        before.spec_maximized_car_setup_card(),
    )
}

/// Whether `after` is what `message` makes of `before`.
pub open spec fn dashboard_updated(before: DashboardState, after: DashboardState, message: DashboardMessage) -> bool {
    match message {
        DashboardMessage::SelectTab(tab) => selects_tab(before, after, tab),
        DashboardMessage::CycleTab => selects_tab(before, after, other_tab(before.spec_active_tab())),
        DashboardMessage::OpenIbt | DashboardMessage::OpenReferenceIbt
        | DashboardMessage::ClearReferenceIbt => after == before,
        DashboardMessage::ToggleChart(chart, visible) => toggles_chart(before, after, chart, visible),
        DashboardMessage::ToggleChartCollapsed(chart) => toggles_chart_collapsed(before, after, chart),
        DashboardMessage::BeginChartDrag(chart) => begins_drag(
            before,
            after,
            DragModel { chart: Some(chart), ..no_drag() },
        ),
        DashboardMessage::BeginChartListDrag(chart) => begins_drag(
            before,
            after,
            DragModel { chart_list_item: Some(chart), ..no_drag() },
        ),
        DashboardMessage::ToggleLapAnalysisCardCollapsed(card) => toggles_lap_analysis_card(before, after, card),
        DashboardMessage::BeginLapAnalysisDrag(card) => begins_drag(
            before,
            after,
            DragModel { lap_analysis_card: Some(card), ..no_drag() },
        ),
        DashboardMessage::ToggleSetupCardCollapsed(card) => toggles_setup_card(before, after, card),
        DashboardMessage::BeginSetupCardDrag(card) => begins_drag(
            before,
            after,
            DragModel { setup_card: Some(card), ..no_drag() },
        ),
        DashboardMessage::ToggleCarSetupCardCollapsed(card) => toggles_car_setup_card(before, after, card@),
        DashboardMessage::ToggleCarSetupCardMaximized(card) => toggles_car_setup_card_maximized(before, after, card@),
        DashboardMessage::BeginCarSetupCardDrag(card) => begins_drag(
            before,
            after,
            DragModel { car_setup_card: Some(card@), ..no_drag() },
        ),
        DashboardMessage::FinishCardDrag => finishes_drag(before, after),
        DashboardMessage::SetChartColumns(columns) => sets_chart_columns(before, after, columns),
        DashboardMessage::ResetDashboardLayout => resets_layout(before, after),
        DashboardMessage::ToggleChartMaximized(chart) => toggles_chart_maximized(before, after, chart),
        DashboardMessage::CancelPointerInteractions => begins_drag(before, after, no_drag()),
    }
}

impl DashboardState {
    /// Shows `tab`, ending every drag when it changes.
    fn select_tab(&mut self, tab: DashboardTab)
        ensures
            selects_tab(*old(self), *final(self), tab),
    {
        proof {
            use_type_invariant(&*self);
        }
        if self.active_tab == tab {
            return;
        }
        self.clear_all_drags();
        self.active_tab = tab;
    }

    /// `flags` with the flag at `index` set to `value`.
    fn with_flag(flags: &Vec<bool>, index: usize, value: bool) -> (r: Vec<bool>)
        requires
            index < flags@.len(),
        ensures
            r@ == flags@.update(index as int, value),
    {
        let mut out: Vec<bool> = Vec::new();
        let mut i: usize = 0;
        while i < flags.len()
            invariant
                i <= flags@.len(),
                index < flags@.len(),
                out@ == flags@.update(index as int, value).take(i as int),
            decreases flags@.len() - i,
        {
            out.push(if i == index { value } else { flags[i] });
            assert(flags@.update(index as int, value).take(i + 1) =~= flags@.update(index as int, value).take(i as int).push(
                flags@.update(index as int, value)[i as int],
            ));
            i = i + 1;
        }
        assert(flags@.update(index as int, value).take(i as int) =~= flags@.update(index as int, value));
        out
    }

    fn toggle_chart(&mut self, chart: ChartId, visible: bool)
        ensures
            toggles_chart(*old(self), *final(self), chart, visible),
    {
        proof {
            use_type_invariant(&*self);
        }
        let i = chart.index();
        if self.chart_visibility[i] == visible {
            return;
        }
        self.chart_visibility = Self::with_flag(&self.chart_visibility, i, visible);
        if !visible && self.maximized_chart == Some(chart) {
            self.maximized_chart = None;
        }
        if !visible && self.dragging_chart == Some(chart) {
            self.dragging_chart = None;
            self.drop_target = None;
        }
        self.mark_layout_changed();
    }

    fn toggle_chart_collapsed(&mut self, chart: ChartId)
        ensures
            toggles_chart_collapsed(*old(self), *final(self), chart),
    {
        proof {
            use_type_invariant(&*self);
        }
        let i = chart.index();
        let collapsed = !self.chart_collapsed[i];
        self.chart_collapsed = Self::with_flag(&self.chart_collapsed, i, collapsed);
        if collapsed && self.maximized_chart == Some(chart) {
            self.maximized_chart = None;
        }
        self.clear_all_drags();
        self.mark_layout_changed();
    }

    fn toggle_lap_analysis_card_collapsed(&mut self, card: LapAnalysisCardId)
        ensures
            toggles_lap_analysis_card(*old(self), *final(self), card),
    {
        proof {
            use_type_invariant(&*self);
        }
        let i = card.index();
        let collapsed = !self.lap_analysis_collapsed[i];
        self.lap_analysis_collapsed = Self::with_flag(&self.lap_analysis_collapsed, i, collapsed);
        self.clear_all_drags();
        self.mark_layout_changed();
    }

    fn toggle_setup_card_collapsed(&mut self, card: SetupCardId)
        ensures
            toggles_setup_card(*old(self), *final(self), card),
    {
        proof {
            use_type_invariant(&*self);
        }
        let i = card.index();
        let collapsed = !self.setup_card_collapsed[i];
        self.setup_card_collapsed = Self::with_flag(&self.setup_card_collapsed, i, collapsed);
        self.clear_all_drags();
        self.mark_layout_changed();
    }

    fn toggle_car_setup_card_collapsed(&mut self, card: String)
        ensures
            toggles_car_setup_card(*old(self), *final(self), card@),
    {
        proof {
            use_type_invariant(&*self);
        }
        let ghost key = card@;
        let collapsed = match self.car_setup_card_collapsed.get(card.as_str()) {
            Some(value) => !value,
            None => true,
        };
        let clears_maximized = match &self.maximized_car_setup_card {
            Some(maximized) => collapsed && crate::text::str_eq(maximized.as_str(), card.as_str()),
            None => false,
        };
        let mut flags = FlagMap::new();
        std::mem::swap(&mut flags, &mut self.car_setup_card_collapsed);
        flags.insert(card, collapsed);
        self.car_setup_card_collapsed = flags;
        if clears_maximized {
            self.maximized_car_setup_card = None;
        }
        self.clear_all_drags();
        self.mark_layout_changed();
    }

    fn toggle_car_setup_card_maximized(&mut self, card: String)
        ensures
            toggles_car_setup_card_maximized(*old(self), *final(self), card@),
    {
        proof {
            use_type_invariant(&*self);
        }
        let maximizing = match &self.maximized_car_setup_card {
            Some(maximized) => !crate::text::str_eq(maximized.as_str(), card.as_str()),
            None => true,
        };
        let expanded_collapsed = maximizing && match self.car_setup_card_collapsed.get(card.as_str()) {
            Some(value) => value,
            None => false,
        };
        if expanded_collapsed {
            let mut flags = FlagMap::new();
            std::mem::swap(&mut flags, &mut self.car_setup_card_collapsed);
            flags.insert(crate::text::to_owned_string(card.as_str()), false);
            self.car_setup_card_collapsed = flags;
        }
        self.maximized_car_setup_card = if maximizing {
            Some(card)
        } else {
            None
        };
        self.clear_all_drags();
        if expanded_collapsed {
            self.mark_layout_changed();
        }
    }

    /// The saved Car Setup order after dropping the dragged card on its
    /// target, when that changes the order.
    #[verifier::rlimit(40)]
    fn car_setup_order_after_drop(&self) -> (r: Option<Vec<String>>)
        ensures
            ({
                let (order, changed) = car_setup_move(
                    self.layout().car_setup_card_order,
                    self.spec_car_setup_card_keys(),
                    self.drags().car_setup_card,
                    self.drags().car_setup_target,
                );
                &&& r is Some == changed
                &&& r matches Some(v) ==> string_views(v@) == order
            }),
    {
        let (dragging, target) = match (&self.dragging_car_setup_card, &self.car_setup_drop_target) {
            (Some(dragging), Some(target)) => (dragging, target),
            _ => {
                return None;
            },
        };
        let mut current = current_car_setup_card_order(self);
        if !crate::dashboard_layout::move_dynamic_item_to(&mut current, dragging.as_str(), target.as_str()) {
            return None;
        }
        let ghost moved_order = string_views(current@);
        let mut kept = filter_absent(&self.car_setup_card_order, &current);
        let ghost before = string_views(kept@);
        let mut i: usize = 0;
        while i < current.len()
            invariant
                i <= current@.len(),
                string_views(kept@) == before + string_views(current@).take(i as int),
            decreases current@.len() - i,
        {
            let ghost prev = kept@;
            kept.push(current[i].clone());
            assert(string_views(kept@) =~= string_views(prev).push(current@[i as int]@));
            assert(string_views(current@).take(i + 1) =~= string_views(current@).take(i as int).push(current@[i as int]@));
            i = i + 1;
        }
        assert(string_views(current@).take(i as int) =~= string_views(current@));
        Some(kept)
    }

    #[verifier::spinoff_prover]
    #[verifier::rlimit(80)]
    fn finish_card_drag(&mut self)
        ensures
            finishes_drag(*old(self), *final(self)),
    {
        reveal(finishes_drag);
        proof {
            use_type_invariant(&*self);
        }
        let car_setup_order = self.car_setup_order_after_drop();
        let (charts, by_chart) = moved_ids(&self.chart_order, self.dragging_chart, self.drop_target);
        let (charts, by_list) = moved_ids(&charts, self.dragging_chart_list_item, self.chart_list_drop_target);
        self.chart_order = charts;
        let (laps, by_lap) = moved_ids(&self.lap_analysis_order, self.dragging_lap_analysis_card, self.lap_analysis_drop_target);
        self.lap_analysis_order = laps;
        let (setups, by_setup) = moved_ids(&self.setup_card_order, self.dragging_setup_card, self.setup_card_drop_target);
        self.setup_card_order = setups;
        proof {
            lemma_car_setup_move_distinct(
                string_views(self.car_setup_card_order@),
                self.spec_car_setup_card_keys(),
                self.drags().car_setup_card,
                self.drags().car_setup_target,
            );
        }
        let by_car = match car_setup_order {
            Some(order) => {
                self.car_setup_card_order = order;
                true
            },
            None => false,
        };
        self.clear_all_drags();
        if by_chart || by_list || by_lap || by_setup || by_car {
            self.mark_layout_changed();
        }
    }

    fn set_chart_columns(&mut self, columns: ChartColumns)
        ensures
            sets_chart_columns(*old(self), *final(self), columns),
    {
        proof {
            use_type_invariant(&*self);
        }
        if self.chart_columns == columns {
            return;
        }
        self.chart_columns = columns;
        self.mark_layout_changed();
    }

    fn reset_layout(&mut self)
        ensures
            resets_layout(*old(self), *final(self)),
    {
        let defaults = DashboardLayout::default();
        proof {
            lemma_default_layout_restores_defaults(defaults);
        }
        self.apply_layout(&defaults);
        self.mark_layout_changed();
    }

    fn toggle_chart_maximized(&mut self, chart: ChartId)
        ensures
            toggles_chart_maximized(*old(self), *final(self), chart),
    {
        proof {
            use_type_invariant(&*self);
        }
        let maximizing = self.maximized_chart != Some(chart);
        self.maximized_chart = if maximizing {
            Some(chart)
        } else {
            None
        };
        let i = chart.index();
        let expanded_collapsed = maximizing && self.chart_collapsed[i];
        if expanded_collapsed {
            self.chart_collapsed = Self::with_flag(&self.chart_collapsed, i, false);
        }
        self.clear_all_drags();
        if expanded_collapsed {
            self.mark_layout_changed();
        }
    }
}


/// `order` with `dragging` moved to `target` when both are set, and whether
/// it changed; an order that names every id once still does.
fn moved_ids<Id: LayoutId>(order: &Vec<Id>, dragging: Option<Id>, target: Option<Id>) -> (r: (Vec<Id>, bool))
    requires
        is_permutation(order@),
    ensures
        (r.0@, r.1) == move_if(order@, dragging, target),
        is_permutation(r.0@),
{
    let mut out = copy_ids(order);
    proof {
        lemma_move_if_keeps_permutation(order@, dragging, target);
    }
    let changed = move_if_exec(&mut out, dragging, target);
    (out, changed)
}

/// Moves `dragging` to `target` in `order` when both are set; says whether
/// the order changed.
fn move_if_exec<Id: LayoutId>(order: &mut Vec<Id>, dragging: Option<Id>, target: Option<Id>) -> (r: bool)
    ensures
        (final(order)@, r) == move_if(old(order)@, dragging, target),
{
    match (dragging, target) {
        (Some(d), Some(t)) => crate::dashboard_layout::move_item_to(order, d, t),
        _ => false,
    }
}

/// The persisted default layout restores the default layout.
pub proof fn lemma_default_layout_restores_defaults(layout: DashboardLayout)
    requires
        string_views(layout.chart_order@) == id_keys(ChartId::spec_default_order()),
        dashboard_flag_views(layout.chart_visibility@) == id_flag_views(ChartId::spec_all(), default_visibility()),
        dashboard_flag_views(layout.chart_collapsed@) == id_flag_views(ChartId::spec_all(), Seq::new(15, |i: int| false)),
        layout.chart_columns == 1,
        string_views(layout.setup_card_order@) == id_keys(SetupCardId::spec_all()),
        dashboard_flag_views(layout.setup_card_collapsed@) == id_flag_views(
            SetupCardId::spec_all(),
            Seq::new(4, |i: int| false),
        ),
        string_views(layout.lap_analysis_order@) == id_keys(LapAnalysisCardId::spec_all()),
        dashboard_flag_views(layout.lap_analysis_collapsed@) == id_flag_views(
            LapAnalysisCardId::spec_all(),
            Seq::new(7, |i: int| false),
        ),
        layout.car_setup_card_order@.len() == 0,
        layout.car_setup_card_collapsed@.len() == 0,
    ensures
        normalized_layout(layout) == default_layout_model(),
{
    let m = default_layout_model();
    ChartId::lemma_default_order_complete();
    assert forall|id: SetupCardId| #[trigger] SetupCardId::spec_all().contains(id) by {
        SetupCardId::lemma_all(id);
    }
    assert forall|id: LapAnalysisCardId| #[trigger] LapAnalysisCardId::spec_all().contains(id) by {
        LapAnalysisCardId::lemma_all(id);
    }
    assert(SetupCardId::spec_all().no_duplicates());
    assert(LapAnalysisCardId::spec_all().no_duplicates());
    assert(string_views(layout.car_setup_card_order@) =~= Seq::<Seq<char>>::empty());
    assert(dashboard_flag_views(layout.car_setup_card_collapsed@) =~= Seq::<(Seq<char>, bool)>::empty());
    assert(entries_map(dashboard_flag_views(layout.car_setup_card_collapsed@)) =~= Map::<Seq<char>, bool>::empty());
    assert(is_normal(m));
    assert(snapshot_of(layout, m));
    lemma_layout_round_trip(m, layout);
}

/// What the application must bring up to date from its session after a
/// message: the telemetry charts, or the session metadata and Car Setup view.
#[derive(Debug, Clone, Copy, PartialEq, Eq, Structural)]
pub enum SessionSync {
    Telemetry,
    SessionMetadata,
}

/// The session data that switching from tab `active` by `message` asks to
/// bring up to date: that of the tab switched to, or nothing when the tab
/// stays.
pub open spec fn session_sync(active: DashboardTab, message: DashboardMessage) -> Option<SessionSync> {
    let target = match message {
        DashboardMessage::SelectTab(tab) => Some(tab),
        DashboardMessage::CycleTab => Some(other_tab(active)),
        _ => None,
    };
    match target {
        Some(tab) => if tab == active {
            None
        } else if tab == DashboardTab::Telemetry {
            Some(SessionSync::Telemetry)
        } else {
            Some(SessionSync::SessionMetadata)
        },
        None => None,
    }
}

impl DashboardState {
    /// The session data that applying `message` to this state asks the
    /// application to bring up to date.
    pub fn session_sync_for(&self, message: &DashboardMessage) -> (r: Option<SessionSync>)
        ensures
            r == session_sync(self.spec_active_tab(), *message),
    {
        let target = match message {
            DashboardMessage::SelectTab(tab) => Some(*tab),
            DashboardMessage::CycleTab => Some(match self.active_tab {
                DashboardTab::Telemetry => DashboardTab::CarSetup,
                DashboardTab::CarSetup => DashboardTab::Telemetry,
            }),
            _ => None,
        };
        match target {
            Some(tab) => if tab == self.active_tab {
                None
            } else {
                match tab {
                    DashboardTab::Telemetry => Some(SessionSync::Telemetry),
                    DashboardTab::CarSetup => Some(SessionSync::SessionMetadata),
                }
            },
            None => None,
        }
    }
}

/// The action that toggling the connection asks: to connect when the
/// session does not want a connection, and to disconnect when it does.
pub fn connection_action(wants_connection: bool) -> (r: Action)
    ensures
        r == Action::SetConnected(!wants_connection),
{
    Action::SetConnected(!wants_connection)
}

/// Whether `after` equals `before` but for the selected laps.
pub open spec fn changes_laps_only(before: DashboardState, after: DashboardState) -> bool {
    &&& keeps_data_but_laps(before, after)
    &&& after.spec_active_tab() == before.spec_active_tab()
    &&& after.layout() == before.layout()
    &&& after.drags() == before.drags()
    &&& after.spec_layout_revision() == before.spec_layout_revision()
    &&& after.spec_maximized_chart() == before.spec_maximized_chart()
    &&& after.spec_maximized_car_setup_card() == before.spec_maximized_car_setup_card()
}

/// Whether `after` keeps the load states, the Car Setup view, the session
/// metadata and the session information revision of `before`.
pub open spec fn keeps_data_but_laps(before: DashboardState, after: DashboardState) -> bool {
    &&& after.spec_ibt_load_state() == before.spec_ibt_load_state()
    &&& after.spec_reference_ibt() == before.spec_reference_ibt()
    &&& after.spec_car_setup_card_keys() == before.spec_car_setup_card_keys()
    &&& after.spec_car_setup() == before.spec_car_setup()
    &&& after.spec_session_metadata() == before.spec_session_metadata()
    &&& after.cached_revision() == before.cached_revision()
}

/// How much of the telemetry a sync brings up to date: every chart, or the
/// live charts on screen.
#[derive(Debug, Clone, Copy, PartialEq, Eq, Structural)]
pub enum TelemetrySyncScope {
    All,
    LiveVisible,
}

/// Whether live chart `chart` is shown and on screen (`in_viewport`, by chart
/// index): visible, expanded and in the viewport, and the maximized chart
/// when one is maximized.
pub open spec fn live_chart_active(s: DashboardState, chart: ChartId, in_viewport: Seq<bool>) -> bool {
    let i = chart.spec_index() as int;
    let shown = s.layout().chart_visibility[i] && !s.layout().chart_collapsed[i] && in_viewport[i];
    match s.spec_maximized_chart() {
        Some(m) => m == chart && shown,
        None => shown,
    }
}

/// The charts, by index, that a sync of `scope` brings up to date: every
/// chart unless the telemetry is live and only the live charts on screen are
/// synced.
pub open spec fn sync_targets(s: DashboardState, is_live: bool, scope: TelemetrySyncScope, in_viewport: Seq<bool>) -> Seq<bool> {
    if !is_live || scope == TelemetrySyncScope::All {
        Seq::new(15, |i: int| true)
    } else {
        Seq::new(15, |i: int| live_chart_active(s, ChartId::spec_all()[i], in_viewport))
    }
}

/// Whether the telemetry shown lags behind the session: packets arrived since
/// the last render, or, for live telemetry, a live chart on screen has not
/// drawn the latest packet.
pub open spec fn sync_pending(
    s: DashboardState,
    rendered_packets: u64,
    packets_received: u64,
    from_ibt: bool,
    cursors: Seq<Option<u64>>,
    in_viewport: Seq<bool>,
) -> bool {
    ||| rendered_packets != packets_received
    ||| !from_ibt && exists|i: int|
        0 <= i < 15 && live_chart_active(s, ChartId::spec_all()[i], in_viewport) && #[trigger] cursors[i]
            != Some(packets_received)
}

/// Whether a sync of `scope` adds only the new packets of live telemetry
/// to the charts, rather than redrawing them.
pub open spec fn incremental_live(is_live: bool, scope: TelemetrySyncScope) -> bool {
    is_live && scope == TelemetrySyncScope::LiveVisible
}

/// Whether an incremental live sync starts a chart afresh: it has drawn no
/// packet yet, or a packet past the latest (the session restarted).
pub fn initializes_live_chart(cursor: Option<u64>, incremental: bool, packets_received: u64) -> (r: bool)
    ensures
        r == (incremental && match cursor {
            Some(c) => c > packets_received,
            None => true,
        }),
{
    incremental && match cursor {
        Some(c) => c > packets_received,
        None => true,
    }
}

/// The packet from which an incremental live sync extends a chart: the one
/// it last drew, unless that lies past the latest packet.
pub fn live_update_cursor(cursor: Option<u64>, incremental: bool, packets_received: u64) -> (r: Option<u64>)
    ensures
        r == (match cursor {
            Some(c) => if incremental && c <= packets_received {
                cursor
            } else {
                None
            },
            None => None,
        }),
{
    if !incremental {
        return None;
    }
    match cursor {
        Some(c) => if c <= packets_received {
            Some(c)
        } else {
            None
        },
        None => None,
    }
}

/// The packet each chart, by index, has drawn after a sync: none for a
/// recording; for an incremental live sync, the latest packet for the charts
/// synced (`targets`) and the earlier cursor for the others; otherwise the
/// latest packet for every chart.
pub open spec fn cursors_after_sync(
    cursors: Seq<Option<u64>>,
    is_live: bool,
    scope: TelemetrySyncScope,
    targets: Seq<bool>,
    packets_received: u64,
) -> Seq<Option<u64>> {
    Seq::new(
        15,
        |i: int|
            if !is_live {
                None
            } else if incremental_live(is_live, scope) {
                if targets[i] {
                    Some(packets_received)
                } else {
                    cursors[i]
                }
            } else {
                Some(packets_received)
            },
    )
}

/// The chart cursors after a sync; the sync also records `packets_received`
/// as the packets rendered.
pub fn chart_cursors_after_sync(
    cursors: &[Option<u64>],
    is_live: bool,
    scope: TelemetrySyncScope,
    targets: &[bool],
    packets_received: u64,
) -> (r: Vec<Option<u64>>)
    requires
        cursors@.len() == 15,
        targets@.len() == 15,
    ensures
        r@ == cursors_after_sync(cursors@, is_live, scope, targets@, packets_received),
{
    let incremental = is_live && match scope {
        TelemetrySyncScope::LiveVisible => true,
        TelemetrySyncScope::All => false,
    };
    let mut out: Vec<Option<u64>> = Vec::new();
    let mut i: usize = 0;
    while i < 15
        invariant
            i <= 15,
            cursors@.len() == 15,
            targets@.len() == 15,
            incremental == incremental_live(is_live, scope),
            out@ == cursors_after_sync(cursors@, is_live, scope, targets@, packets_received).take(i as int),
        decreases 15 - i,
    {
        let cursor = if !is_live {
            None
        } else if incremental {
            if targets[i] {
                Some(packets_received)
            } else {
                cursors[i]
            }
        } else {
            Some(packets_received)
        };
        out.push(cursor);
        assert(out@ =~= cursors_after_sync(cursors@, is_live, scope, targets@, packets_received).take(i + 1));
        i = i + 1;
    }
    assert(out@ =~= cursors_after_sync(cursors@, is_live, scope, targets@, packets_received));
    out
}

/// The telemetry sync that a refresh asks: on the Telemetry tab, with no card
/// dragged and the telemetry lagging, every chart for a recording and the
/// live charts on screen for live telemetry.
pub open spec fn refresh_scope(s: DashboardState, pending: bool, from_ibt: bool) -> Option<TelemetrySyncScope> {
    let d = s.drags();
    let dragging = d.chart is Some || d.chart_list_item is Some || d.lap_analysis_card is Some
        || d.setup_card is Some || d.car_setup_card is Some;
    if s.spec_active_tab() == DashboardTab::Telemetry && !dragging && pending {
        if from_ibt {
            Some(TelemetrySyncScope::All)
        } else {
            Some(TelemetrySyncScope::LiveVisible)
        }
    } else {
        None
    }
}

impl DashboardState {
    /// Shows lap `index` of a session with `lap_count` laps; returns whether
    /// the telemetry must be synced. An index past the last lap changes
    /// nothing.
    pub fn select_lap(&mut self, index: usize, lap_count: usize) -> (r: bool)
        ensures
            r == (index < lap_count),
            index < lap_count ==> final(self).spec_selected_laps() == (Some(index), old(self).spec_selected_laps().1)
                && changes_laps_only(*old(self), *final(self)),
            index >= lap_count ==> *final(self) == *old(self),
    {
        proof {
            use_type_invariant(&*self);
        }
        if index < lap_count {
            self.selected_lap_index = Some(index);
            true
        } else {
            false
        }
    }

    /// Compares with lap `index` of the reference session, which has
    /// `reference_lap_count` laps when one is loaded; returns whether the
    /// telemetry must be synced. Without a reference session, or with an
    /// index past its last lap, nothing changes.
    pub fn select_reference_lap(&mut self, index: usize, reference_lap_count: Option<usize>) -> (r: bool)
        ensures
            r == (reference_lap_count matches Some(n) && index < n),
            r ==> final(self).spec_selected_laps() == (old(self).spec_selected_laps().0, Some(index))
                && changes_laps_only(*old(self), *final(self)),
            !r ==> *final(self) == *old(self),
    {
        proof {
            use_type_invariant(&*self);
        }
        match reference_lap_count {
            Some(n) => if index < n {
                self.selected_reference_lap_index = Some(index);
                true
            } else {
                false
            },
            None => false,
        }
    }

    /// Whether live chart `chart` is shown and on screen.
    pub fn live_chart_is_active(&self, chart: ChartId, in_viewport: &[bool]) -> (r: bool)
        requires
            in_viewport@.len() == 15,
        ensures
            r == live_chart_active(*self, chart, in_viewport@),
    {
        proof {
            use_type_invariant(self);
        }
        let i = chart.index();
        let shown = self.chart_visibility[i] && !self.chart_collapsed[i] && in_viewport[i];
        match self.maximized_chart {
            Some(m) => m == chart && shown,
            None => shown,
        }
    }

    /// The charts, by index, that a sync of `scope` brings up to date.
    pub fn chart_sync_targets(&self, is_live: bool, scope: TelemetrySyncScope, in_viewport: &[bool]) -> (r: Vec<bool>)
        requires
            in_viewport@.len() == 15,
        ensures
            r@ == sync_targets(*self, is_live, scope, in_viewport@),
    {
        let all = ChartId::all();
        let mut out: Vec<bool> = Vec::new();
        let mut i: usize = 0;
        while i < 15
            invariant
                i <= 15,
                all@ == ChartId::spec_all(),
                in_viewport@.len() == 15,
                out@ == sync_targets(*self, is_live, scope, in_viewport@).take(i as int),
            decreases 15 - i,
        {
            let target = match scope {
                TelemetrySyncScope::All => true,
                TelemetrySyncScope::LiveVisible => !is_live || self.live_chart_is_active(all[i], in_viewport),
            };
            out.push(target);
            assert(out@ =~= sync_targets(*self, is_live, scope, in_viewport@).take(i + 1));
            i = i + 1;
        }
        assert(out@ =~= sync_targets(*self, is_live, scope, in_viewport@));
        out
    }

    /// Whether the telemetry shown lags behind the session, given the packet
    /// count of the last render, the packets received, whether the session
    /// is a recording, the packet each chart last drew (`cursors`, by chart
    /// index) and which charts are in the viewport.
    pub fn telemetry_sync_is_pending(
        &self,
        rendered_packets: u64,
        packets_received: u64,
        from_ibt: bool,
        cursors: &[Option<u64>],
        in_viewport: &[bool],
    ) -> (r: bool)
        requires
            cursors@.len() == 15,
            in_viewport@.len() == 15,
        ensures
            r == sync_pending(*self, rendered_packets, packets_received, from_ibt, cursors@, in_viewport@),
    {
        if rendered_packets != packets_received {
            return true;
        }
        if from_ibt {
            return false;
        }
        let all = ChartId::all();
        let mut i: usize = 0;
        while i < 15
            invariant
                i <= 15,
                all@ == ChartId::spec_all(),
                cursors@.len() == 15,
                in_viewport@.len() == 15,
                !from_ibt,
                rendered_packets == packets_received,
                forall|j: int|
                    0 <= j < i ==> !(live_chart_active(*self, ChartId::spec_all()[j], in_viewport@)
                        && #[trigger] cursors@[j] != Some(packets_received)),
            decreases 15 - i,
        {
            let behind = match cursors[i] {
                Some(c) => c != packets_received,
                None => true,
            };
            if behind && self.live_chart_is_active(all[i], in_viewport) {
                assert(live_chart_active(*self, ChartId::spec_all()[i as int], in_viewport@));
                assert(cursors@[i as int] != Some(packets_received));
                return true;
            }
            i = i + 1;
        }
        false
    }

    /// The telemetry sync that a refresh asks, given whether the telemetry
    /// lags and whether the session is a recording. A refresh also takes in
    /// a new session information revision (`sync_session_metadata`).
    pub fn refresh_sync_scope(&self, pending: bool, from_ibt: bool) -> (r: Option<TelemetrySyncScope>)
        ensures
            r == refresh_scope(*self, pending, from_ibt),
    {
        if self.active_tab == DashboardTab::Telemetry && !self.is_dragging_card() && pending {
            if from_ibt {
                Some(TelemetrySyncScope::All)
            } else {
                Some(TelemetrySyncScope::LiveVisible)
            }
        } else {
            None
        }
    }
}

/// Applies `message` to the dashboard layout state, and returns the action it
/// asks of the application.
pub fn update(state: &mut DashboardState, message: DashboardMessage) -> (r: Option<Action>)
    ensures
        r == message_action(message),
        dashboard_updated(*old(state), *final(state), message),
        maximized_chart_expanded(*old(state)) ==> maximized_chart_expanded(*final(state)),
        maximized_car_setup_card_expanded(*old(state)) ==> maximized_car_setup_card_expanded(*final(state)),
        well_ordered(old(state).layout()) ==> well_ordered(final(state).layout()),
{
    proof {
        use_type_invariant(&*state);
    }
    let ghost before = *state;
    let r = update_layout(state, message);
    proof {
        if well_ordered(before.layout()) {
            lemma_updates_keep_well_ordered(before, *state, message);
        }
        if maximized_chart_expanded(before) {
            lemma_updates_keep_maximized_chart_expanded(before, *state, message);
        }
        if maximized_car_setup_card_expanded(before) {
            lemma_updates_keep_maximized_car_setup_card_expanded(before, *state, message);
        }
    }
    r
}

fn update_layout(state: &mut DashboardState, message: DashboardMessage) -> (r: Option<Action>)
    ensures
        r == message_action(message),
        dashboard_updated(*old(state), *final(state), message),
{
    match message {
        DashboardMessage::SelectTab(tab) => {
            state.select_tab(tab);
            None
        },
        DashboardMessage::CycleTab => {
            let next = match state.active_tab() {
                DashboardTab::Telemetry => DashboardTab::CarSetup,
                DashboardTab::CarSetup => DashboardTab::Telemetry,
            };
            state.select_tab(next);
            None
        },
        DashboardMessage::OpenIbt => Some(Action::OpenIbt),
        DashboardMessage::OpenReferenceIbt => Some(Action::OpenReferenceIbt),
        DashboardMessage::ClearReferenceIbt => Some(Action::ClearReferenceIbt),
        DashboardMessage::ToggleChart(chart, visible) => {
            state.toggle_chart(chart, visible);
            None
        },
        DashboardMessage::ToggleChartCollapsed(chart) => {
            state.toggle_chart_collapsed(chart);
            None
        },
        DashboardMessage::BeginChartDrag(chart) => {
            state.begin_chart_drag(chart);
            None
        },
        DashboardMessage::BeginChartListDrag(chart) => {
            state.begin_chart_list_drag(chart);
            None
        },
        DashboardMessage::ToggleLapAnalysisCardCollapsed(card) => {
            state.toggle_lap_analysis_card_collapsed(card);
            None
        },
        DashboardMessage::BeginLapAnalysisDrag(card) => {
            state.begin_lap_analysis_drag(card);
            None
        },
        DashboardMessage::ToggleSetupCardCollapsed(card) => {
            state.toggle_setup_card_collapsed(card);
            None
        },
        DashboardMessage::BeginSetupCardDrag(card) => {
            state.begin_setup_card_drag(card);
            None
        },
        DashboardMessage::ToggleCarSetupCardCollapsed(card) => {
            state.toggle_car_setup_card_collapsed(card);
            None
        },
        DashboardMessage::ToggleCarSetupCardMaximized(card) => {
            state.toggle_car_setup_card_maximized(card);
            None
        },
        DashboardMessage::BeginCarSetupCardDrag(card) => {
            state.begin_car_setup_card_drag(card);
            None
        },
        DashboardMessage::FinishCardDrag => {
            state.finish_card_drag();
            None
        },
        DashboardMessage::SetChartColumns(columns) => {
            state.set_chart_columns(columns);
            None
        },
        DashboardMessage::ResetDashboardLayout => {
            state.reset_layout();
            None
        },
        DashboardMessage::ToggleChartMaximized(chart) => {
            state.toggle_chart_maximized(chart);
            None
        },
        DashboardMessage::CancelPointerInteractions => {
            state.cancel_pointer_interactions();
            None
        },
    }
}

impl DashboardState {
    fn begin_chart_drag(&mut self, chart: ChartId)
        ensures
            begins_drag(*old(self), *final(self), DragModel { chart: Some(chart), ..no_drag() }),
    {
        proof {
            use_type_invariant(&*self);
        }
        self.clear_all_drags();
        self.dragging_chart = Some(chart);
    }

    fn begin_chart_list_drag(&mut self, chart: ChartId)
        ensures
            begins_drag(*old(self), *final(self), DragModel { chart_list_item: Some(chart), ..no_drag() }),
    {
        proof {
            use_type_invariant(&*self);
        }
        self.clear_all_drags();
        self.dragging_chart_list_item = Some(chart);
    }

    fn begin_lap_analysis_drag(&mut self, card: LapAnalysisCardId)
        ensures
            begins_drag(*old(self), *final(self), DragModel { lap_analysis_card: Some(card), ..no_drag() }),
    {
        proof {
            use_type_invariant(&*self);
        }
        self.clear_all_drags();
        self.dragging_lap_analysis_card = Some(card);
    }

    fn begin_setup_card_drag(&mut self, card: SetupCardId)
        ensures
            begins_drag(*old(self), *final(self), DragModel { setup_card: Some(card), ..no_drag() }),
    {
        proof {
            use_type_invariant(&*self);
        }
        self.clear_all_drags();
        self.dragging_setup_card = Some(card);
    }

    fn begin_car_setup_card_drag(&mut self, card: String)
        ensures
            begins_drag(*old(self), *final(self), DragModel { car_setup_card: Some(card@), ..no_drag() }),
    {
        proof {
            use_type_invariant(&*self);
        }
        self.clear_all_drags();
        self.dragging_car_setup_card = Some(card);
    }

    fn cancel_pointer_interactions(&mut self)
        ensures
            begins_drag(*old(self), *final(self), no_drag()),
    {
        self.clear_all_drags();
    }
}

/// Whether a maximized chart or Car Setup card is expanded.
pub open spec fn maximized_cards_expanded(s: DashboardState) -> bool {
    maximized_chart_expanded(s) && maximized_car_setup_card_expanded(s)
}

/// Whether a maximized chart is expanded.
pub open spec fn maximized_chart_expanded(s: DashboardState) -> bool {
    s.spec_maximized_chart() matches Some(c) ==> !s.layout().chart_collapsed[c.spec_index() as int]
}

/// Whether a maximized Car Setup card is expanded.
pub open spec fn maximized_car_setup_card_expanded(s: DashboardState) -> bool {
    s.spec_maximized_car_setup_card() matches Some(k) ==> !card_collapsed(
        s.layout().car_setup_card_collapsed,
        k,
    )
}

/// Collapsing and maximizing keep a single visible mode for charts: no
/// message leaves a maximized chart collapsed. (The chart flags of every
/// state have one slot per chart, as the state's invariant keeps them.)
pub proof fn lemma_updates_keep_maximized_chart_expanded(
    before: DashboardState,
    after: DashboardState,
    message: DashboardMessage,
)
    requires
        before.layout().chart_collapsed.len() == 15,
        maximized_chart_expanded(before),
        dashboard_updated(before, after, message),
    ensures
        maximized_chart_expanded(after),
{
    if let Some(c) = before.spec_maximized_chart() {
        lemma_chart_index(c);
    }
    match message {
        DashboardMessage::ToggleChartCollapsed(chart) => {
            lemma_chart_index(chart);
            assert(toggles_chart_collapsed(before, after, chart));
        },
        DashboardMessage::ToggleChartMaximized(chart) => {
            lemma_chart_index(chart);
            assert(toggles_chart_maximized(before, after, chart));
        },
        DashboardMessage::ToggleChart(chart, visible) => {
            assert(toggles_chart(before, after, chart, visible));
        },
        DashboardMessage::FinishCardDrag => {
            lemma_finish_drag_keeps_flags(before, after);
        },
        _ => {},
    }
}

/// Collapsing and maximizing keep a single visible mode for Car Setup cards:
/// no message leaves a maximized Car Setup card collapsed.
pub proof fn lemma_updates_keep_maximized_car_setup_card_expanded(
    before: DashboardState,
    after: DashboardState,
    message: DashboardMessage,
)
    requires
        maximized_car_setup_card_expanded(before),
        dashboard_updated(before, after, message),
    ensures
        maximized_car_setup_card_expanded(after),
{
    match message {
        DashboardMessage::ToggleCarSetupCardCollapsed(card) => {
            assert(toggles_car_setup_card(before, after, card@));
        },
        DashboardMessage::ToggleCarSetupCardMaximized(card) => {
            assert(toggles_car_setup_card_maximized(before, after, card@));
        },
        DashboardMessage::FinishCardDrag => {
            lemma_finish_drag_keeps_flags(before, after);
        },
        _ => {},
    }
}

/// Collapsing and maximizing keep a single visible mode: no message leaves
/// a maximized chart or Car Setup card collapsed.
pub proof fn lemma_updates_keep_maximized_cards_expanded(
    before: DashboardState,
    after: DashboardState,
    message: DashboardMessage,
)
    requires
        before.layout().chart_collapsed.len() == 15,
        maximized_cards_expanded(before),
        dashboard_updated(before, after, message),
    ensures
        maximized_cards_expanded(after),
{
    lemma_updates_keep_maximized_chart_expanded(before, after, message);
    lemma_updates_keep_maximized_car_setup_card_expanded(before, after, message);
}

proof fn lemma_finish_drag_keeps_flags(before: DashboardState, after: DashboardState)
    requires
        finishes_drag(before, after),
    ensures
        after.layout().chart_collapsed == before.layout().chart_collapsed,
        after.layout().car_setup_card_collapsed == before.layout().car_setup_card_collapsed,
        after.spec_maximized_chart() == before.spec_maximized_chart(),
        after.spec_maximized_car_setup_card() == before.spec_maximized_car_setup_card(),
        after.drags() == no_drag(),
{
    reveal(finishes_drag);
}

proof fn lemma_chart_index(c: ChartId)
    ensures
        c.spec_index() < 15,
{
}

/// How many cards are being dragged.
pub open spec fn dragged_cards(d: DragModel) -> int {
    (if d.chart is Some { 1int } else { 0int }) + (if d.chart_list_item is Some {
        1int
    } else {
        0int
    }) + (if d.lap_analysis_card is Some { 1int } else { 0int }) + (if d.setup_card is Some {
        1int
    } else {
        0int
    }) + (if d.car_setup_card is Some { 1int } else { 0int })
}

/// All card drags are mutually exclusive: no message leaves two cards
/// dragged at once.
pub proof fn lemma_updates_keep_one_drag(
    before: DashboardState,
    after: DashboardState,
    message: DashboardMessage,
)
    requires
        dragged_cards(before.drags()) <= 1,
        dashboard_updated(before, after, message),
    ensures
        dragged_cards(after.drags()) <= 1,
{
    if message is FinishCardDrag {
        lemma_finish_drag_keeps_flags(before, after);
    }
}

/// A copy of a list of ids.
fn copy_ids<Id: Copy>(v: &Vec<Id>) -> (r: Vec<Id>)
    ensures
        r@ == v@,
{
    let mut out: Vec<Id> = Vec::new();
    let mut i: usize = 0;
    while i < v.len()
        invariant
            i <= v@.len(),
            out@ == v@.take(i as int),
        decreases v@.len() - i,
    {
        out.push(v[i]);
        i = i + 1;
        assert(out@ =~= v@.take(i as int));
    }
    assert(v@.take(v@.len() as int) =~= v@);
    out
}

/// A copy of an optional string.
fn copy_optional(s: &Option<String>) -> (r: Option<String>)
    ensures
        optional_view(r) == optional_view(*s),
{
    match s {
        Some(s) => Some(s.clone()),
        None => None,
    }
}

impl DashboardState {
    /// The chart being dragged.
    pub fn dragging_chart(&self) -> (r: Option<ChartId>)
        ensures
            r == self.drags().chart,
    {
        self.dragging_chart
    }

    /// The chart that the dragged chart would be dropped on.
    pub fn chart_drop_target(&self) -> (r: Option<ChartId>)
        ensures
            r == self.drags().chart_target,
    {
        self.drop_target
    }

    /// The chart list item being dragged.
    pub fn dragging_chart_list_item(&self) -> (r: Option<ChartId>)
        ensures
            r == self.drags().chart_list_item,
    {
        self.dragging_chart_list_item
    }

    /// The lap analysis card being dragged.
    pub fn dragging_lap_analysis_card(&self) -> (r: Option<LapAnalysisCardId>)
        ensures
            r == self.drags().lap_analysis_card,
    {
        self.dragging_lap_analysis_card
    }

    /// The lap analysis card that the dragged card would be dropped on.
    pub fn lap_analysis_drop_target(&self) -> (r: Option<LapAnalysisCardId>)
        ensures
            r == self.drags().lap_analysis_target,
    {
        self.lap_analysis_drop_target
    }

    /// The setup card being dragged.
    pub fn dragging_setup_card(&self) -> (r: Option<SetupCardId>)
        ensures
            r == self.drags().setup_card,
    {
        self.dragging_setup_card
    }

    /// The setup card that the dragged card would be dropped on.
    pub fn setup_card_drop_target(&self) -> (r: Option<SetupCardId>)
        ensures
            r == self.drags().setup_card_target,
    {
        self.setup_card_drop_target
    }

    /// The Car Setup card being dragged.
    pub fn dragging_car_setup_card(&self) -> (r: Option<String>)
        ensures
            optional_view(r) == self.drags().car_setup_card,
    {
        copy_optional(&self.dragging_car_setup_card)
    }

    /// The maximized chart.
    pub fn maximized_chart(&self) -> (r: Option<ChartId>)
        ensures
            r == self.spec_maximized_chart(),
    {
        self.maximized_chart
    }

    /// The maximized Car Setup card.
    pub fn maximized_car_setup_card(&self) -> (r: Option<String>)
        ensures
            optional_view(r) == self.spec_maximized_car_setup_card(),
    {
        copy_optional(&self.maximized_car_setup_card)
    }

    /// The charts in their order.
    pub fn chart_order(&self) -> (r: Vec<ChartId>)
        ensures
            r@ == self.layout().chart_order,
    {
        copy_ids(&self.chart_order)
    }

    /// The lap analysis cards in their order.
    pub fn lap_analysis_order(&self) -> (r: Vec<LapAnalysisCardId>)
        ensures
            r@ == self.layout().lap_analysis_order,
    {
        copy_ids(&self.lap_analysis_order)
    }

    /// The setup cards in their order.
    pub fn setup_card_order(&self) -> (r: Vec<SetupCardId>)
        ensures
            r@ == self.layout().setup_card_order,
    {
        copy_ids(&self.setup_card_order)
    }

    /// The number of chart columns.
    pub fn chart_columns(&self) -> (r: ChartColumns)
        ensures
            r == self.layout().chart_columns,
    {
        self.chart_columns
    }

    /// Whether `chart` is shown.
    pub fn is_chart_visible(&self, chart: ChartId) -> (r: bool)
        ensures
            r == self.layout().chart_visibility[chart.spec_index() as int],
    {
        proof {
            use_type_invariant(self);
            lemma_chart_index(chart);
        }
        self.chart_visibility[chart.index()]
    }

    /// Whether `chart` is collapsed.
    pub fn is_chart_collapsed(&self, chart: ChartId) -> (r: bool)
        ensures
            r == self.layout().chart_collapsed[chart.spec_index() as int],
    {
        proof {
            use_type_invariant(self);
            lemma_chart_index(chart);
        }
        self.chart_collapsed[chart.index()]
    }

    /// Whether the lap analysis card `card` is collapsed.
    pub fn is_lap_analysis_card_collapsed(&self, card: LapAnalysisCardId) -> (r: bool)
        ensures
            r == self.layout().lap_analysis_collapsed[card.spec_index() as int],
    {
        proof {
            use_type_invariant(self);
            LapAnalysisCardId::lemma_index_injective(card, card);
        }
        self.lap_analysis_collapsed[card.index()]
    }

    /// Whether the setup card `card` is collapsed.
    pub fn is_setup_card_collapsed(&self, card: SetupCardId) -> (r: bool)
        ensures
            r == self.layout().setup_card_collapsed[card.spec_index() as int],
    {
        proof {
            use_type_invariant(self);
            SetupCardId::lemma_index_injective(card, card);
        }
        self.setup_card_collapsed[card.index()]
    }

    /// The collapsed flag saved for the Car Setup card `key`.
    pub fn car_setup_card_collapsed(&self, key: &str) -> (r: Option<bool>)
        ensures
            r == (if self.layout().car_setup_card_collapsed.dom().contains(key@) {
                Some(self.layout().car_setup_card_collapsed[key@])
            } else {
                None
            }),
    {
        self.car_setup_card_collapsed.get(key)
    }
}

proof fn lemma_keys_in_concat(a: Seq<Seq<char>>, b: Seq<Seq<char>>, available: Seq<Seq<char>>)
    ensures
        keys_in(a + b, available) == keys_in(a, available) + keys_in(b, available),
    decreases b.len(),
{
    if b.len() == 0 {
        assert(a + b =~= a);
        assert(keys_in(a, available) + keys_in(b, available) =~= keys_in(a, available));
    } else {
        lemma_keys_in_concat(a, b.drop_last(), available);
        assert((a + b).drop_last() =~= a + b.drop_last());
        assert((a + b).last() == b.last());
        let prev = keys_in(a, available) + keys_in(b.drop_last(), available);
        assert(prev.push(b.last()) =~= keys_in(a, available) + keys_in(b.drop_last(), available).push(
            b.last(),
        ));
    }
}

proof fn lemma_keys_in_all(s: Seq<Seq<char>>, available: Seq<Seq<char>>)
    requires
        forall|i: int| 0 <= i < s.len() ==> available.contains(#[trigger] s[i]),
    ensures
        keys_in(s, available) == s,
    decreases s.len(),
{
    if s.len() > 0 {
        lemma_keys_in_all(s.drop_last(), available);
        assert(available.contains(s[s.len() - 1]));
        assert(s.drop_last().push(s.last()) =~= s);
    }
}

proof fn lemma_keys_in_none(s: Seq<Seq<char>>, available: Seq<Seq<char>>)
    requires
        forall|i: int| 0 <= i < s.len() ==> !available.contains(#[trigger] s[i]),
    ensures
        keys_in(s, available) == Seq::<Seq<char>>::empty(),
    decreases s.len(),
{
    if s.len() > 0 {
        lemma_keys_in_none(s.drop_last(), available);
        assert(!available.contains(s[s.len() - 1]));
    }
}

proof fn lemma_keys_in_members(s: Seq<Seq<char>>, available: Seq<Seq<char>>, x: Seq<char>)
    ensures
        keys_in(s, available).contains(x) ==> available.contains(x),
    decreases s.len(),
{
    if s.len() > 0 {
        lemma_keys_in_members(s.drop_last(), available, x);
        let prev = keys_in(s.drop_last(), available);
        if available.contains(s.last()) && prev.push(s.last()).contains(x) && x != s.last() {
            let i = choose|i: int| 0 <= i < prev.push(s.last()).len() && prev.push(s.last())[i] == x;
            assert(prev[i] == x);
        }
    }
}

proof fn lemma_keys_not_in_members(s: Seq<Seq<char>>, taken: Seq<Seq<char>>, x: Seq<char>)
    ensures
        keys_not_in(s, taken).contains(x) ==> !taken.contains(x),
    decreases s.len(),
{
    if s.len() > 0 {
        lemma_keys_not_in_members(s.drop_last(), taken, x);
        let prev = keys_not_in(s.drop_last(), taken);
        if !taken.contains(s.last()) && prev.push(s.last()).contains(x) && x != s.last() {
            let i = choose|i: int| 0 <= i < prev.push(s.last()).len() && prev.push(s.last())[i] == x;
            assert(prev[i] == x);
        }
    }
}

/// A drop that changes the current order of the Car Setup cards changes the
/// saved order too.
pub proof fn lemma_car_setup_move_changes_order(
    order: Seq<Seq<char>>,
    available: Seq<Seq<char>>,
    dragging: Option<Seq<char>>,
    target: Option<Seq<char>>,
)
    ensures
        car_setup_move(order, available, dragging, target).1 ==> car_setup_move(
            order,
            available,
            dragging,
            target,
        ).0 != order,
{
    let current = current_card_order(order, available);
    if car_setup_move(order, available, dragging, target).1 {
        let d = dragging.unwrap();
        let t = target.unwrap();
        let m = crate::dashboard_layout::moved(current, d, t);
        crate::dashboard_layout::lemma_moved_differs(current, d, t);
        let p = keys_not_in(order, m);
        if p + m == order {
            let kept = keys_in(order, available);
            assert forall|x: Seq<char>| current.contains(x) <==> available.contains(x) by {
                crate::dashboard_layout::lemma_append_missing(kept, available, x);
                lemma_keys_in_members(order, available, x);
            }
            assert forall|i: int| 0 <= i < p.len() implies !available.contains(#[trigger] p[i]) by {
                assert(p.contains(p[i]));
                lemma_keys_not_in_members(order, m, p[i]);
            }
            assert forall|i: int| 0 <= i < m.len() implies available.contains(#[trigger] m[i]) by {
                assert(m.contains(m[i]));
            }
            lemma_keys_in_none(p, available);
            lemma_keys_in_all(m, available);
            lemma_keys_in_concat(p, m, available);
            assert(kept == m) by {
                assert(Seq::<Seq<char>>::empty() + m =~= m);
            }
            assert forall|i: int| 0 <= i < available.len() implies m.contains(#[trigger] available[i]) by {
                assert(available.contains(available[i]));
            }
            crate::dashboard_layout::lemma_append_missing_complete(m, available);
            assert(current == m);
        }
    }
}

/// Flipping the collapsed flag of a Car Setup card changes the flags.
pub proof fn lemma_flag_flip_changes(flags: Map<Seq<char>, bool>, key: Seq<char>)
    ensures
        flags.insert(key, !card_collapsed(flags, key)) != flags,
{
    let after = flags.insert(key, !card_collapsed(flags, key));
    assert(after.dom().contains(key));
    if flags.dom().contains(key) {
        assert(after[key] != flags[key]);
    }
}

/// Expanding a collapsed Car Setup card changes the flags.
pub proof fn lemma_flag_expand_changes(flags: Map<Seq<char>, bool>, key: Seq<char>)
    requires
        card_collapsed(flags, key),
    ensures
        flags.insert(key, false) != flags,
{
    assert(flags.insert(key, false)[key] != flags[key]);
}

proof fn lemma_lap_analysis_index(c: LapAnalysisCardId)
    ensures
        c.spec_index() < 7,
{
}

proof fn lemma_setup_card_index(c: SetupCardId)
    ensures
        c.spec_index() < 4,
{
}

proof fn lemma_move_if_changes<T>(order: Seq<T>, dragging: Option<T>, target: Option<T>)
    ensures
        move_if(order, dragging, target).1 ==> move_if(order, dragging, target).0 != order,
        !move_if(order, dragging, target).1 ==> move_if(order, dragging, target).0 == order,
{
    if move_if(order, dragging, target).1 {
        crate::dashboard_layout::lemma_moved_differs(order, dragging.unwrap(), target.unwrap());
    }
}

proof fn lemma_finish_drag_counts_edits(before: DashboardState, after: DashboardState)
    requires
        finishes_drag(before, after),
        dragged_cards(before.drags()) <= 1,
    ensures
        after.spec_layout_revision() != before.spec_layout_revision() ==> after.layout()
            != before.layout(),
{
    reveal(finishes_drag);
    let l = before.layout();
    let d = before.drags();
    lemma_move_if_changes(l.chart_order, d.chart, d.chart_target);
    let (charts, by_chart) = move_if(l.chart_order, d.chart, d.chart_target);
    lemma_move_if_changes(charts, d.chart_list_item, d.chart_list_target);
    lemma_move_if_changes(l.lap_analysis_order, d.lap_analysis_card, d.lap_analysis_target);
    lemma_move_if_changes(l.setup_card_order, d.setup_card, d.setup_card_target);
    lemma_car_setup_move_changes_order(
        l.car_setup_card_order,
        before.spec_car_setup_card_keys(),
        d.car_setup_card,
        d.car_setup_target,
    );
    if after.spec_layout_revision() != before.spec_layout_revision() {
        let a = after.layout();
        if by_chart {
            assert(a.chart_order != l.chart_order);
        }
    }
}

/// The layout revision counts layout edits only: a message that changes it
/// changes the saved layout, or resets it.
pub proof fn lemma_revision_counts_layout_edits(
    before: DashboardState,
    after: DashboardState,
    message: DashboardMessage,
)
    requires
        before.layout().chart_visibility.len() == 15,
        before.layout().chart_collapsed.len() == 15,
        before.layout().lap_analysis_collapsed.len() == 7,
        before.layout().setup_card_collapsed.len() == 4,
        dragged_cards(before.drags()) <= 1,
        dashboard_updated(before, after, message),
    ensures
        after.spec_layout_revision() != before.spec_layout_revision() ==> (after.layout()
            != before.layout() || message is ResetDashboardLayout),
{
    let l = before.layout();
    match message {
        DashboardMessage::ToggleChart(chart, visible) => {
            lemma_chart_index(chart);
            assert(after.spec_layout_revision() != before.spec_layout_revision() ==> after.layout().chart_visibility[chart.spec_index() as int] != l.chart_visibility[chart.spec_index() as int]);
        },
        DashboardMessage::ToggleChartCollapsed(chart) => {
            lemma_chart_index(chart);
            assert(after.layout().chart_collapsed[chart.spec_index() as int] != l.chart_collapsed[chart.spec_index() as int]);
        },
        DashboardMessage::ToggleChartMaximized(chart) => {
            lemma_chart_index(chart);
            assert(after.spec_layout_revision() != before.spec_layout_revision() ==> after.layout().chart_collapsed[chart.spec_index() as int] != l.chart_collapsed[chart.spec_index() as int]);
        },
        DashboardMessage::ToggleLapAnalysisCardCollapsed(card) => {
            lemma_lap_analysis_index(card);
            assert(after.layout().lap_analysis_collapsed[card.spec_index() as int] != l.lap_analysis_collapsed[card.spec_index() as int]);
        },
        DashboardMessage::ToggleSetupCardCollapsed(card) => {
            lemma_setup_card_index(card);
            assert(after.layout().setup_card_collapsed[card.spec_index() as int] != l.setup_card_collapsed[card.spec_index() as int]);
        },
        DashboardMessage::ToggleCarSetupCardCollapsed(card) => {
            lemma_flag_flip_changes(l.car_setup_card_collapsed, card@);
            assert(after.layout().car_setup_card_collapsed != l.car_setup_card_collapsed);
        },
        DashboardMessage::ToggleCarSetupCardMaximized(card) => {
            if card_collapsed(l.car_setup_card_collapsed, card@) {
                lemma_flag_expand_changes(l.car_setup_card_collapsed, card@);
            }
        },
        DashboardMessage::FinishCardDrag => {
            lemma_finish_drag_counts_edits(before, after);
        },
        _ => {},
    }
}


/// Moving an item of an order that names each item once keeps it so.
pub proof fn lemma_moved_distinct<T>(order: Seq<T>, item: T, target: T)
    requires
        moves(order, item, target),
        order.no_duplicates(),
    ensures
        moved(order, item, target).no_duplicates(),
{
    crate::dashboard_layout::lemma_first_position_exists(order, item);
    crate::dashboard_layout::lemma_first_position_exists(order, target);
    let pf = first_position(order, item);
    let pt = first_position(order, target);
    let removed = order.remove(pf);
    let m = removed.insert(pt, item);
    assert forall|i: int, j: int| 0 <= i < j < removed.len() implies removed[i] != removed[j] by {
        let oi = if i < pf { i } else { i + 1 };
        let oj = if j < pf { j } else { j + 1 };
        assert(removed[i] == order[oi]);
        assert(removed[j] == order[oj]);
    }
    assert forall|i: int| 0 <= i < removed.len() implies removed[i] != item by {
        let oi = if i < pf { i } else { i + 1 };
        assert(removed[i] == order[oi]);
        assert(order[pf] == item);
    }
    assert forall|i: int, j: int| 0 <= i < j < m.len() implies m[i] != m[j] by {
        let ri = if i < pt { i } else { i - 1 };
        let rj = if j < pt { j } else { j - 1 };
        if i == pt {
            assert(m[j] == removed[rj]);
        } else if j == pt {
            assert(m[i] == removed[ri]);
        } else {
            assert(m[i] == removed[ri]);
            assert(m[j] == removed[rj]);
        }
    }
}

/// A conditional move keeps an order that names every id once.
pub proof fn lemma_move_if_keeps_permutation<T>(order: Seq<T>, dragging: Option<T>, target: Option<T>)
    requires
        is_permutation(order),
    ensures
        is_permutation(move_if(order, dragging, target).0),
{
    if let (Some(d), Some(t)) = (dragging, target) {
        if crate::dashboard_layout::moves(order, d, t) {
            lemma_moved_distinct(order, d, t);
            crate::dashboard_layout::lemma_moved_differs(order, d, t);
            let m = moved(order, d, t);
            assert forall|id: T| #[trigger] m.contains(id) by {
                assert(order.contains(id));
            }
        }
    }
}

proof fn lemma_keys_in_distinct(s: Seq<Seq<char>>, available: Seq<Seq<char>>)
    requires
        s.no_duplicates(),
    ensures
        keys_in(s, available).no_duplicates(),
        forall|x: Seq<char>| #[trigger] keys_in(s, available).contains(x) ==> s.contains(x),
    decreases s.len(),
{
    if s.len() > 0 {
        let d = s.drop_last();
        assert forall|i: int, j: int| 0 <= i < j < d.len() implies d[i] != d[j] by {
            assert(d[i] == s[i] && d[j] == s[j]);
        }
        lemma_keys_in_distinct(d, available);
        let prev = keys_in(d, available);
        assert forall|x: Seq<char>| #[trigger] keys_in(s, available).contains(x) implies s.contains(x) by {
            if prev.contains(x) {
                let i = choose|i: int| 0 <= i < d.len() && d[i] == x;
                assert(s[i] == x);
            } else {
                assert(x == s.last());
                assert(s[s.len() - 1] == x);
            }
        }
        if available.contains(s.last()) {
            assert(!prev.contains(s.last())) by {
                if prev.contains(s.last()) {
                    let i = choose|i: int| 0 <= i < d.len() && d[i] == s.last();
                    assert(s[i] == s[s.len() - 1]);
                }
            }
            let n = prev.push(s.last());
            assert forall|i: int, j: int| 0 <= i < j < n.len() implies n[i] != n[j] by {
                if j == n.len() - 1 {
                    assert(prev.contains(n[i]));
                }
            }
        }
    }
}

proof fn lemma_keys_not_in_distinct(s: Seq<Seq<char>>, taken: Seq<Seq<char>>)
    requires
        s.no_duplicates(),
    ensures
        keys_not_in(s, taken).no_duplicates(),
        forall|x: Seq<char>| #[trigger] keys_not_in(s, taken).contains(x) ==> !taken.contains(x),
    decreases s.len(),
{
    if s.len() > 0 {
        let d = s.drop_last();
        assert forall|i: int, j: int| 0 <= i < j < d.len() implies d[i] != d[j] by {
            assert(d[i] == s[i] && d[j] == s[j]);
        }
        lemma_keys_not_in_distinct(d, taken);
        let prev = keys_not_in(d, taken);
        assert forall|x: Seq<char>| #[trigger] keys_not_in(s, taken).contains(x) implies !taken.contains(x) by {
            lemma_keys_not_in_members(s, taken, x);
        }
        if !taken.contains(s.last()) {
            assert(!prev.contains(s.last())) by {
                if prev.contains(s.last()) {
                    lemma_keys_not_in_subset(d, taken, s.last());
                    let i = choose|i: int| 0 <= i < d.len() && d[i] == s.last();
                    assert(s[i] == s[s.len() - 1]);
                }
            }
            let n = prev.push(s.last());
            assert forall|i: int, j: int| 0 <= i < j < n.len() implies n[i] != n[j] by {
                if j == n.len() - 1 {
                    assert(prev.contains(n[i]));
                }
            }
        }
    }
}

proof fn lemma_keys_not_in_subset(s: Seq<Seq<char>>, taken: Seq<Seq<char>>, x: Seq<char>)
    ensures
        keys_not_in(s, taken).contains(x) ==> s.contains(x),
    decreases s.len(),
{
    if s.len() > 0 {
        let d = s.drop_last();
        lemma_keys_not_in_subset(d, taken, x);
        if keys_not_in(s, taken).contains(x) {
            if keys_not_in(d, taken).contains(x) {
                let i = choose|i: int| 0 <= i < d.len() && d[i] == x;
                assert(s[i] == x);
            } else {
                assert(s[s.len() - 1] == x);
            }
        }
    }
}

/// Dropping a Car Setup card keeps the saved order free of repeated keys.
pub proof fn lemma_car_setup_move_distinct(
    order: Seq<Seq<char>>,
    available: Seq<Seq<char>>,
    dragging: Option<Seq<char>>,
    target: Option<Seq<char>>,
)
    requires
        order.no_duplicates(),
    ensures
        car_setup_move(order, available, dragging, target).0.no_duplicates(),
{
    let kept = keys_in(order, available);
    lemma_keys_in_distinct(order, available);
    let current = current_card_order(order, available);
    crate::dashboard_layout::lemma_append_missing(kept, available, Seq::empty());
    if let (Some(d), Some(t)) = (dragging, target) {
        if crate::dashboard_layout::moves(current, d, t) {
            lemma_moved_distinct(current, d, t);
            let m = moved(current, d, t);
            lemma_keys_not_in_distinct(order, m);
            let p = keys_not_in(order, m);
            let merged = p + m;
            assert forall|i: int, j: int| 0 <= i < j < merged.len() implies merged[i] != merged[j] by {
                if i < p.len() && j >= p.len() {
                    assert(p.contains(merged[i]));
                    assert(m[j - p.len()] == merged[j]);
                    assert(m.contains(merged[j]));
                } else if i >= p.len() {
                    assert(merged[i] == m[i - p.len()]);
                    assert(merged[j] == m[j - p.len()]);
                } else {
                    assert(merged[i] == p[i]);
                    assert(merged[j] == p[j]);
                }
            }
        }
    }
}

/// The default layout is one that restoring can produce.
pub proof fn lemma_default_layout_is_normal()
    ensures
        is_normal(default_layout_model()),
{
    ChartId::lemma_default_order_complete();
    SetupCardId::lemma_all(SetupCardId::Session);
    LapAnalysisCardId::lemma_all(LapAnalysisCardId::Cursor);
    let s = SetupCardId::spec_all();
    assert forall|id: SetupCardId| #[trigger] s.contains(id) by {
        SetupCardId::lemma_all(id);
    }
    assert forall|i: int, j: int| 0 <= i < j < s.len() implies s[i] != s[j] by {
        SetupCardId::lemma_index_injective(s[i], s[j]);
    }
    let l = LapAnalysisCardId::spec_all();
    assert forall|id: LapAnalysisCardId| #[trigger] l.contains(id) by {
        LapAnalysisCardId::lemma_all(id);
    }
    assert forall|i: int, j: int| 0 <= i < j < l.len() implies l[i] != l[j] by {
        LapAnalysisCardId::lemma_index_injective(l[i], l[j]);
    }
}

/// Adding the new Car Setup cards keeps a layout well ordered.
pub proof fn lemma_reconcile_keeps_well_ordered(model: LayoutModel, keys: Seq<Seq<char>>)
    requires
        well_ordered(model),
    ensures
        well_ordered(
            LayoutModel {
                car_setup_card_order: crate::dashboard_layout::append_missing(model.car_setup_card_order, keys),
                ..model
            },
        ),
{
    crate::dashboard_layout::lemma_append_missing(model.car_setup_card_order, keys, Seq::empty());
}

/// Every dashboard message keeps the layout well ordered: each order still
/// names every id once, each list of flags has one flag per id, and the
/// saved Car Setup order names each key once.
#[verifier::spinoff_prover]
#[verifier::rlimit(40)]
pub proof fn lemma_updates_keep_well_ordered(before: DashboardState, after: DashboardState, message: DashboardMessage)
    requires
        well_ordered(before.layout()),
        dashboard_updated(before, after, message),
    ensures
        well_ordered(after.layout()),
{
    let l = before.layout();
    let d = before.drags();
    match message {
        DashboardMessage::FinishCardDrag => {
            reveal(finishes_drag);
            let (charts, _) = move_if(l.chart_order, d.chart, d.chart_target);
            lemma_move_if_keeps_permutation(l.chart_order, d.chart, d.chart_target);
            lemma_move_if_keeps_permutation(charts, d.chart_list_item, d.chart_list_target);
            lemma_move_if_keeps_permutation(l.lap_analysis_order, d.lap_analysis_card, d.lap_analysis_target);
            lemma_move_if_keeps_permutation(l.setup_card_order, d.setup_card, d.setup_card_target);
            lemma_car_setup_move_distinct(
                l.car_setup_card_order,
                before.spec_car_setup_card_keys(),
                d.car_setup_card,
                d.car_setup_target,
            );
        },
        DashboardMessage::ResetDashboardLayout => {
            lemma_default_layout_is_normal();
        },
        _ => {},
    }
}

/// Every key of the saved Car Setup order after a drop was saved before or is
/// a key of a current card.
pub proof fn lemma_car_setup_move_members(
    order: Seq<Seq<char>>,
    available: Seq<Seq<char>>,
    dragging: Option<Seq<char>>,
    target: Option<Seq<char>>,
    x: Seq<char>,
)
    ensures
        car_setup_move(order, available, dragging, target).0.contains(x) ==> order.contains(x)
            || available.contains(x),
{
    let kept = keys_in(order, available);
    let current = current_card_order(order, available);
    lemma_keys_in_members(order, available, x);
    crate::dashboard_layout::lemma_append_missing(kept, available, x);
    if let (Some(d), Some(t)) = (dragging, target) {
        if crate::dashboard_layout::moves(current, d, t) {
            crate::dashboard_layout::lemma_moved_differs(current, d, t);
            let m = moved(current, d, t);
            let p = keys_not_in(order, m);
            lemma_keys_not_in_subset(order, m, x);
            if (p + m).contains(x) {
                let i = choose|i: int| 0 <= i < (p + m).len() && (p + m)[i] == x;
                if i < p.len() {
                    assert(p[i] == x);
                } else {
                    assert(m[i - p.len()] == x);
                }
            }
        }
    }
}

/// Every dashboard message that names no blank Car Setup card keeps the Car
/// Setup keys of the layout free of blank ones, while the cards shown have no
/// blank key.
pub proof fn lemma_updates_keep_car_setup_keys_not_blank(
    before: DashboardState,
    after: DashboardState,
    message: DashboardMessage,
)
    requires
        car_setup_keys_not_blank(before.layout()),
        forall|i: int|
            0 <= i < before.spec_car_setup_card_keys().len() ==> !is_blank(
                #[trigger] before.spec_car_setup_card_keys()[i],
            ),
        message matches DashboardMessage::ToggleCarSetupCardCollapsed(card) ==> !is_blank(card@),
        dashboard_updated(before, after, message),
    ensures
        car_setup_keys_not_blank(after.layout()),
{
    let l = before.layout();
    let d = before.drags();
    match message {
        DashboardMessage::FinishCardDrag => {
            reveal(finishes_drag);
            let keys = before.spec_car_setup_card_keys();
            let car = car_setup_move(l.car_setup_card_order, keys, d.car_setup_card, d.car_setup_target).0;
            assert forall|i: int| 0 <= i < car.len() implies !is_blank(#[trigger] car[i]) by {
                lemma_car_setup_move_members(
                    l.car_setup_card_order,
                    keys,
                    d.car_setup_card,
                    d.car_setup_target,
                    car[i],
                );
                assert(car.contains(car[i]));
                if l.car_setup_card_order.contains(car[i]) {
                    let j = choose|j: int|
                        0 <= j < l.car_setup_card_order.len() && l.car_setup_card_order[j] == car[i];
                    assert(!is_blank(l.car_setup_card_order[j]));
                } else {
                    let j = choose|j: int| 0 <= j < keys.len() && keys[j] == car[i];
                    assert(!is_blank(keys[j]));
                }
            }
        },
        DashboardMessage::ResetDashboardLayout => {
            lemma_default_layout_is_normal();
        },
        _ => {},
    }
}

/// Adding the new Car Setup cards keeps the Car Setup keys free of blank
/// ones, while the cards shown have no blank key.
pub proof fn lemma_reconcile_keeps_keys_not_blank(model: LayoutModel, keys: Seq<Seq<char>>)
    requires
        car_setup_keys_not_blank(model),
        forall|i: int| 0 <= i < keys.len() ==> !is_blank(#[trigger] keys[i]),
    ensures
        car_setup_keys_not_blank(
            LayoutModel {
                car_setup_card_order: crate::dashboard_layout::append_missing(model.car_setup_card_order, keys),
                ..model
            },
        ),
{
    let order = crate::dashboard_layout::append_missing(model.car_setup_card_order, keys);
    assert forall|i: int| 0 <= i < order.len() implies !is_blank(#[trigger] order[i]) by {
        crate::dashboard_layout::lemma_append_missing(model.car_setup_card_order, keys, order[i]);
        assert(order.contains(order[i]));
        if model.car_setup_card_order.contains(order[i]) {
            let j = choose|j: int|
                0 <= j < model.car_setup_card_order.len() && model.car_setup_card_order[j] == order[i];
            assert(!is_blank(model.car_setup_card_order[j]));
        } else {
            let j = choose|j: int| 0 <= j < keys.len() && keys[j] == order[i];
            assert(!is_blank(keys[j]));
        }
    }
}

/// Restoring the snapshot of a dashboard's layout gives that layout back
/// when no Car Setup key in it is blank. Every dashboard state is well
/// ordered, as its invariant keeps it; `layout_snapshot` states so for the
/// state it persists.
pub proof fn lemma_state_snapshot_round_trip(s: DashboardState, layout: DashboardLayout)
    requires
        well_ordered(s.layout()),
        car_setup_keys_not_blank(s.layout()),
        snapshot_of(layout, s.layout()),
    ensures
        normalized_layout(layout) == s.layout(),
{
    lemma_layout_round_trip(s.layout(), layout);
}

/// An order that names every id once is as long as a list of all the ids.
pub proof fn lemma_permutation_len<T>(order: Seq<T>, all: Seq<T>)
    requires
        is_permutation(order),
        all.no_duplicates(),
        forall|x: T| #[trigger] all.contains(x),
    ensures
        order.len() == all.len(),
{
    assert(order.to_set() =~= all.to_set()) by {
        assert forall|x: T| order.to_set().contains(x) <==> all.to_set().contains(x) by {
            assert(order.contains(x) && all.contains(x));
        }
    }
    order.unique_seq_to_set();
    all.unique_seq_to_set();
}

/// Whether two persisted layouts hold the same keys, flags and column count.
pub open spec fn same_persisted(a: DashboardLayout, b: DashboardLayout) -> bool {
    &&& string_views(a.chart_order@) == string_views(b.chart_order@)
    &&& dashboard_flag_views(a.chart_visibility@) == dashboard_flag_views(b.chart_visibility@)
    &&& dashboard_flag_views(a.chart_collapsed@) == dashboard_flag_views(b.chart_collapsed@)
    &&& a.chart_columns == b.chart_columns
    &&& string_views(a.setup_card_order@) == string_views(b.setup_card_order@)
    &&& dashboard_flag_views(a.setup_card_collapsed@) == dashboard_flag_views(b.setup_card_collapsed@)
    &&& string_views(a.lap_analysis_order@) == string_views(b.lap_analysis_order@)
    &&& dashboard_flag_views(a.lap_analysis_collapsed@) == dashboard_flag_views(b.lap_analysis_collapsed@)
    &&& string_views(a.car_setup_card_order@) == string_views(b.car_setup_card_order@)
    &&& dashboard_flag_views(a.car_setup_card_collapsed@) == dashboard_flag_views(b.car_setup_card_collapsed@)
}

/// Persisting a dashboard's layout, restoring it and persisting it again
/// gives the first snapshot back, when no Car Setup key of the layout is
/// blank (every dashboard layout is well ordered, as `layout_snapshot`
/// states).
pub proof fn lemma_snapshot_restore_snapshot(model: LayoutModel, first: DashboardLayout, second: DashboardLayout)
    requires
        well_ordered(model),
        car_setup_keys_not_blank(model),
        snapshot_of(first, model),
        snapshot_of(second, normalized_layout(first)),
    ensures
        same_persisted(first, second),
{
    lemma_layout_round_trip(model, first);
    crate::flags::lemma_sorted_unique(
        dashboard_flag_views(first.car_setup_card_collapsed@),
        dashboard_flag_views(second.car_setup_card_collapsed@),
    );
}

/// Maximizing a Car Setup card on the dashboard is a toggle: pressing
/// maximize on the maximized card restores it, pressing it on another card
/// maximizes that card, and two presses on a card give back what was
/// maximized before, when that was nothing or that card.
pub proof fn lemma_car_setup_maximize_is_a_toggle(
    before: DashboardState,
    middle: DashboardState,
    after: DashboardState,
    card: String,
)
    requires
        dashboard_updated(before, middle, DashboardMessage::ToggleCarSetupCardMaximized(card)),
        dashboard_updated(middle, after, DashboardMessage::ToggleCarSetupCardMaximized(card)),
    ensures
        before.spec_maximized_car_setup_card() == Some(card@) ==> middle.spec_maximized_car_setup_card() is None,
        before.spec_maximized_car_setup_card() != Some(card@) ==> middle.spec_maximized_car_setup_card() == Some(
            card@,
        ),
        (before.spec_maximized_car_setup_card() is None || before.spec_maximized_car_setup_card() == Some(card@))
            ==> after.spec_maximized_car_setup_card() == before.spec_maximized_car_setup_card(),
{
}

/// Maximizing a chart is a toggle: pressing maximize on the maximized chart
/// restores it, pressing it on another chart maximizes that chart, and two
/// presses on a chart give back what was maximized before, when that was
/// nothing or that chart.
pub proof fn lemma_chart_maximize_is_a_toggle(
    before: DashboardState,
    middle: DashboardState,
    after: DashboardState,
    chart: ChartId,
)
    requires
        dashboard_updated(before, middle, DashboardMessage::ToggleChartMaximized(chart)),
        dashboard_updated(middle, after, DashboardMessage::ToggleChartMaximized(chart)),
    ensures
        before.spec_maximized_chart() == Some(chart) ==> middle.spec_maximized_chart() is None,
        before.spec_maximized_chart() != Some(chart) ==> middle.spec_maximized_chart() == Some(chart),
        (before.spec_maximized_chart() is None || before.spec_maximized_chart() == Some(chart))
            ==> after.spec_maximized_chart() == before.spec_maximized_chart(),
{
}
} // verus!
