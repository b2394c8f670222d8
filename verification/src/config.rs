//! The persisted desktop settings, and how the layouts of the Telemetry and
//! Car Setup screens are kept in them side by side.
use vstd::prelude::*;
use crate::dashboard_layout::{DashboardLayoutFlag, TelemetryLayout, dashboard_flag_views};
use crate::flags::{FlagMap, entries_map, sorted_keys};
use crate::layout::{CarSetupLayout, CarSetupLayoutFlag, car_setup_flag_views};
use crate::text::{clone_strings, string_views, strings_equal};

verus! {

/// The layout schema that this version reads and writes.
pub const DASHBOARD_LAYOUT_SCHEMA_VERSION: u32 = 1;

/// The persisted desktop settings.
#[derive(Debug)]
pub struct DesktopConfig {
    pub show_diagnostics: bool,
    /// The saved screen layouts; absent while both screens use their defaults.
    pub dashboard: Option<DashboardLayoutConfig>,
}

/// The saved layouts of the Telemetry and Car Setup screens.
#[derive(Debug)]
pub struct DashboardLayoutConfig {
    pub schema_version: u32,
    pub chart_order: Vec<String>,
    pub chart_visibility: FlagMap,
    pub chart_collapsed: FlagMap,
    pub chart_columns: u8,
    pub setup_card_order: Vec<String>,
    pub setup_card_collapsed: FlagMap,
    pub lap_analysis_order: Vec<String>,
    pub lap_analysis_collapsed: FlagMap,
    pub car_setup_card_order: Vec<String>,
    pub car_setup_card_collapsed: FlagMap,
}

/// What a [`DashboardLayoutConfig`] holds, as plain values.
pub struct LayoutConfigView {
    pub schema_version: u32,
    pub chart_order: Seq<Seq<char>>,
    pub chart_visibility: Map<Seq<char>, bool>,
    pub chart_collapsed: Map<Seq<char>, bool>,
    pub chart_columns: u8,
    pub setup_card_order: Seq<Seq<char>>,
    pub setup_card_collapsed: Map<Seq<char>, bool>,
    pub lap_analysis_order: Seq<Seq<char>>,
    pub lap_analysis_collapsed: Map<Seq<char>, bool>,
    pub car_setup_card_order: Seq<Seq<char>>,
    pub car_setup_card_collapsed: Map<Seq<char>, bool>,
}

impl View for DashboardLayoutConfig {
    type V = LayoutConfigView;

    open spec fn view(&self) -> LayoutConfigView {
        LayoutConfigView {
            schema_version: self.schema_version,
            chart_order: string_views(self.chart_order@),
            chart_visibility: self.chart_visibility@,
            chart_collapsed: self.chart_collapsed@,
            chart_columns: self.chart_columns,
            setup_card_order: string_views(self.setup_card_order@),
            setup_card_collapsed: self.setup_card_collapsed@,
            lap_analysis_order: string_views(self.lap_analysis_order@),
            lap_analysis_collapsed: self.lap_analysis_collapsed@,
            car_setup_card_order: string_views(self.car_setup_card_order@),
            car_setup_card_collapsed: self.car_setup_card_collapsed@,
        }
    }
}

/// The saved layouts of a configuration, as plain values.
pub open spec fn dashboard_view(dashboard: Option<DashboardLayoutConfig>) -> Option<LayoutConfigView> {
    match dashboard {
        Some(d) => Some(d@),
        None => None,
    }
}

/// The layouts that a configuration holds when nothing has been customized.
pub open spec fn default_layout_config() -> LayoutConfigView {
    LayoutConfigView {
        schema_version: DASHBOARD_LAYOUT_SCHEMA_VERSION,
        chart_order: Seq::empty(),
        chart_visibility: Map::empty(),
        chart_collapsed: Map::empty(),
        chart_columns: 1,
        setup_card_order: Seq::empty(),
        setup_card_collapsed: Map::empty(),
        lap_analysis_order: Seq::empty(),
        lap_analysis_collapsed: Map::empty(),
        car_setup_card_order: Seq::empty(),
        car_setup_card_collapsed: Map::empty(),
    }
}

/// The layouts that an update starts from: the saved ones when their schema
/// is known, the defaults otherwise.
pub open spec fn layouts_in_effect(dashboard: Option<LayoutConfigView>) -> LayoutConfigView {
    match dashboard {
        Some(d) => if d.schema_version == DASHBOARD_LAYOUT_SCHEMA_VERSION {
            d
        } else {
            default_layout_config()
        },
        None => default_layout_config(),
    }
}

/// `config` with the Telemetry screen's part replaced by `layout`, each list
/// of flags stored as the map it denotes (a later flag of a key wins).
pub open spec fn with_telemetry_layout(config: LayoutConfigView, layout: TelemetryLayout) -> LayoutConfigView {
    LayoutConfigView {
        schema_version: config.schema_version,
        chart_order: string_views(layout.chart_order@),
        chart_visibility: entries_map(dashboard_flag_views(layout.chart_visibility@)),
        chart_collapsed: entries_map(dashboard_flag_views(layout.chart_collapsed@)),
        chart_columns: layout.chart_columns,
        setup_card_order: string_views(layout.setup_card_order@),
        setup_card_collapsed: entries_map(dashboard_flag_views(layout.setup_card_collapsed@)),
        lap_analysis_order: string_views(layout.lap_analysis_order@),
        lap_analysis_collapsed: entries_map(dashboard_flag_views(layout.lap_analysis_collapsed@)),
        car_setup_card_order: config.car_setup_card_order,
        car_setup_card_collapsed: config.car_setup_card_collapsed,
    }
}

/// `config` with the Car Setup screen's part replaced by `layout`.
pub open spec fn with_car_setup_layout(config: LayoutConfigView, layout: CarSetupLayout) -> LayoutConfigView {
    LayoutConfigView {
        car_setup_card_order: string_views(layout.card_order@),
        car_setup_card_collapsed: entries_map(car_setup_flag_views(layout.card_collapsed@)),
        ..config
    }
}

/// `config` with the Telemetry screen's part back at its defaults.
pub open spec fn without_telemetry_layout(config: LayoutConfigView) -> LayoutConfigView {
    let d = default_layout_config();
    LayoutConfigView {
        chart_order: d.chart_order,
        chart_visibility: d.chart_visibility,
        chart_collapsed: d.chart_collapsed,
        chart_columns: d.chart_columns,
        setup_card_order: d.setup_card_order,
        setup_card_collapsed: d.setup_card_collapsed,
        lap_analysis_order: d.lap_analysis_order,
        lap_analysis_collapsed: d.lap_analysis_collapsed,
        ..config
    }
}

/// `config` with the Car Setup screen's part back at its defaults.
pub open spec fn without_car_setup_layout(config: LayoutConfigView) -> LayoutConfigView {
    let d = default_layout_config();
    LayoutConfigView {
        car_setup_card_order: d.car_setup_card_order,
        car_setup_card_collapsed: d.car_setup_card_collapsed,
        ..config
    }
}

/// What is stored for `config`: nothing when it equals the defaults.
pub open spec fn stored(config: LayoutConfigView) -> Option<LayoutConfigView> {
    if config == default_layout_config() {
        None
    } else {
        Some(config)
    }
}

/// The Telemetry screen's part of a configuration.
pub open spec fn telemetry_part(c: LayoutConfigView) -> (
    Seq<Seq<char>>,
    Map<Seq<char>, bool>,
    Map<Seq<char>, bool>,
    u8,
    Seq<Seq<char>>,
    Map<Seq<char>, bool>,
    Seq<Seq<char>>,
    Map<Seq<char>, bool>,
) {
    (
        c.chart_order,
        c.chart_visibility,
        c.chart_collapsed,
        c.chart_columns,
        c.setup_card_order,
        c.setup_card_collapsed,
        c.lap_analysis_order,
        c.lap_analysis_collapsed,
    )
}

/// The Car Setup screen's part of a configuration.
pub open spec fn car_setup_part(c: LayoutConfigView) -> (Seq<Seq<char>>, Map<Seq<char>, bool>) {
    (c.car_setup_card_order, c.car_setup_card_collapsed)
}

impl Default for DashboardLayoutConfig {
    fn default() -> (r: Self)
        ensures
            r@ == default_layout_config(),
    {
        let r = DashboardLayoutConfig {
            schema_version: DASHBOARD_LAYOUT_SCHEMA_VERSION,
            chart_order: Vec::new(),
            chart_visibility: FlagMap::new(),
            chart_collapsed: FlagMap::new(),
            chart_columns: 1,
            setup_card_order: Vec::new(),
            setup_card_collapsed: FlagMap::new(),
            lap_analysis_order: Vec::new(),
            lap_analysis_collapsed: FlagMap::new(),
            car_setup_card_order: Vec::new(),
            car_setup_card_collapsed: FlagMap::new(),
        };
        assert(string_views(r.chart_order@) =~= Seq::empty());
        assert(string_views(r.setup_card_order@) =~= Seq::empty());
        assert(string_views(r.lap_analysis_order@) =~= Seq::empty());
        assert(string_views(r.car_setup_card_order@) =~= Seq::empty());
        r
    }
}

impl Default for DesktopConfig {
    fn default() -> (r: Self)
        ensures
            !r.show_diagnostics,
            r.dashboard is None,
    {
        DesktopConfig { show_diagnostics: false, dashboard: None }
    }
}

impl DashboardLayoutConfig {
    /// A copy of this configuration.
    pub fn duplicate(&self) -> (r: Self)
        ensures
            r@ == self@,
    {
        DashboardLayoutConfig {
            schema_version: self.schema_version,
            chart_order: clone_strings(&self.chart_order),
            chart_visibility: self.chart_visibility.duplicate(),
            chart_collapsed: self.chart_collapsed.duplicate(),
            chart_columns: self.chart_columns,
            setup_card_order: clone_strings(&self.setup_card_order),
            setup_card_collapsed: self.setup_card_collapsed.duplicate(),
            lap_analysis_order: clone_strings(&self.lap_analysis_order),
            lap_analysis_collapsed: self.lap_analysis_collapsed.duplicate(),
            car_setup_card_order: clone_strings(&self.car_setup_card_order),
            car_setup_card_collapsed: self.car_setup_card_collapsed.duplicate(),
        }
    }

    /// Whether the two configurations hold the same layouts (the derived `==`).
    pub fn same_as(&self, other: &DashboardLayoutConfig) -> (r: bool)
        ensures
            r == (self@ == other@),
    {
        let r = self.schema_version == other.schema_version
            && strings_equal(&self.chart_order, &other.chart_order)
            && self.chart_visibility.same_entries(&other.chart_visibility)
            && self.chart_collapsed.same_entries(&other.chart_collapsed)
            && self.chart_columns == other.chart_columns
            && strings_equal(&self.setup_card_order, &other.setup_card_order)
            && self.setup_card_collapsed.same_entries(&other.setup_card_collapsed)
            && strings_equal(&self.lap_analysis_order, &other.lap_analysis_order)
            && self.lap_analysis_collapsed.same_entries(&other.lap_analysis_collapsed)
            && strings_equal(&self.car_setup_card_order, &other.car_setup_card_order)
            && self.car_setup_card_collapsed.same_entries(&other.car_setup_card_collapsed);
        proof {
            if !r {
                assert(self@ != other@ ==> true);
                if self@ == other@ {
                    assert(self@.chart_order == other@.chart_order);
                    assert(self@.setup_card_order == other@.setup_card_order);
                    assert(self@.lap_analysis_order == other@.lap_analysis_order);
                    assert(self@.car_setup_card_order == other@.car_setup_card_order);
                }
            }
        }
        r
    }
}

/// Whether the two optional configurations are equal (`Option`'s `==`).
fn same_dashboard(a: &Option<DashboardLayoutConfig>, b: &Option<DashboardLayoutConfig>) -> (r: bool)
    ensures
        r == (dashboard_view(*a) == dashboard_view(*b)),
{
    match (a, b) {
        (Some(x), Some(y)) => x.same_as(y),
        (None, None) => true,
        _ => false,
    }
}

/// The flags of `flags`, in key order.
pub fn telemetry_flags_from_config(flags: &FlagMap) -> (r: Vec<DashboardLayoutFlag>)
    ensures
        dashboard_flag_views(r@) == flags.spec_entries(),
        sorted_keys(dashboard_flag_views(r@)),
        entries_map(dashboard_flag_views(r@)) == flags@,
{
    let entries = flags.entries();
    let mut out: Vec<DashboardLayoutFlag> = Vec::new();
    let mut i: usize = 0;
    while i < entries.len()
        invariant
            i <= entries@.len(),
            dashboard_flag_views(out@) == crate::flags::entry_views(entries@).take(i as int),
        decreases entries@.len() - i,
    {
        let ghost prev = out@;
        out.push(DashboardLayoutFlag { key: entries[i].0.clone(), value: entries[i].1 });
        assert(dashboard_flag_views(out@) =~= dashboard_flag_views(prev).push(
            crate::flags::entry_views(entries@)[i as int],
        ));
        assert(crate::flags::entry_views(entries@).take(i + 1) =~= crate::flags::entry_views(
            entries@,
        ).take(i as int).push(crate::flags::entry_views(entries@)[i as int]));
        i = i + 1;
    }
    assert(crate::flags::entry_views(entries@).take(i as int) =~= crate::flags::entry_views(entries@));
    out
}

/// The map that `flags` denote, a later flag of a key replacing an earlier one.
pub fn telemetry_flags_to_config(flags: Vec<DashboardLayoutFlag>) -> (r: FlagMap)
    ensures
        r@ == entries_map(dashboard_flag_views(flags@)),
{
    let mut out = FlagMap::new();
    let mut i: usize = 0;
    while i < flags.len()
        invariant
            i <= flags@.len(),
            out@ == entries_map(dashboard_flag_views(flags@).take(i as int)),
        decreases flags@.len() - i,
    {
        out.insert(flags[i].key.clone(), flags[i].value);
        assert(dashboard_flag_views(flags@).take(i + 1).drop_last() =~= dashboard_flag_views(
            flags@,
        ).take(i as int));
        i = i + 1;
    }
    assert(dashboard_flag_views(flags@).take(i as int) =~= dashboard_flag_views(flags@));
    out
}

/// The Car Setup flags of `flags`, in key order.
fn car_setup_flags_from_config(flags: &FlagMap) -> (r: Vec<CarSetupLayoutFlag>)
    ensures
        car_setup_flag_views(r@) == flags.spec_entries(),
        sorted_keys(car_setup_flag_views(r@)),
        entries_map(car_setup_flag_views(r@)) == flags@,
{
    let entries = flags.entries();
    let mut out: Vec<CarSetupLayoutFlag> = Vec::new();
    let mut i: usize = 0;
    while i < entries.len()
        invariant
            i <= entries@.len(),
            car_setup_flag_views(out@) == crate::flags::entry_views(entries@).take(i as int),
        decreases entries@.len() - i,
    {
        let ghost prev = out@;
        out.push(CarSetupLayoutFlag { key: entries[i].0.clone(), value: entries[i].1 });
        assert(car_setup_flag_views(out@) =~= car_setup_flag_views(prev).push(
            crate::flags::entry_views(entries@)[i as int],
        ));
        assert(crate::flags::entry_views(entries@).take(i + 1) =~= crate::flags::entry_views(
            entries@,
        ).take(i as int).push(crate::flags::entry_views(entries@)[i as int]));
        i = i + 1;
    }
    assert(crate::flags::entry_views(entries@).take(i as int) =~= crate::flags::entry_views(entries@));
    out
}

/// The map that Car Setup `flags` denote, a later flag of a key winning.
fn car_setup_flags_to_config(flags: &Vec<CarSetupLayoutFlag>) -> (r: FlagMap)
    ensures
        r@ == entries_map(car_setup_flag_views(flags@)),
{
    let mut out = FlagMap::new();
    let mut i: usize = 0;
    while i < flags.len()
        invariant
            i <= flags@.len(),
            out@ == entries_map(car_setup_flag_views(flags@).take(i as int)),
        decreases flags@.len() - i,
    {
        out.insert(flags[i].key.clone(), flags[i].value);
        assert(car_setup_flag_views(flags@).take(i + 1).drop_last() =~= car_setup_flag_views(
            flags@,
        ).take(i as int));
        i = i + 1;
    }
    assert(car_setup_flag_views(flags@).take(i as int) =~= car_setup_flag_views(flags@));
    out
}

/// Whether `layout` is the Telemetry layout saved in `config`, each list of
/// flags in key order.
pub open spec fn reads_telemetry_layout(layout: TelemetryLayout, config: LayoutConfigView) -> bool {
    &&& string_views(layout.chart_order@) == config.chart_order
    &&& sorted_keys(dashboard_flag_views(layout.chart_visibility@))
    &&& entries_map(dashboard_flag_views(layout.chart_visibility@)) == config.chart_visibility
    &&& sorted_keys(dashboard_flag_views(layout.chart_collapsed@))
    &&& entries_map(dashboard_flag_views(layout.chart_collapsed@)) == config.chart_collapsed
    &&& layout.chart_columns == config.chart_columns
    &&& string_views(layout.setup_card_order@) == config.setup_card_order
    &&& sorted_keys(dashboard_flag_views(layout.setup_card_collapsed@))
    &&& entries_map(dashboard_flag_views(layout.setup_card_collapsed@)) == config.setup_card_collapsed
    &&& string_views(layout.lap_analysis_order@) == config.lap_analysis_order
    &&& sorted_keys(dashboard_flag_views(layout.lap_analysis_collapsed@))
    &&& entries_map(dashboard_flag_views(layout.lap_analysis_collapsed@))
        == config.lap_analysis_collapsed
}

/// Whether `layout` is the Car Setup layout saved in `config`, its flags in key order.
pub open spec fn reads_car_setup_layout(layout: CarSetupLayout, config: LayoutConfigView) -> bool {
    &&& string_views(layout.card_order@) == config.car_setup_card_order
    &&& sorted_keys(car_setup_flag_views(layout.card_collapsed@))
    &&& entries_map(car_setup_flag_views(layout.card_collapsed@)) == config.car_setup_card_collapsed
}

/// The Telemetry layout saved in `config`, unless it was written under
/// another schema.
pub fn telemetry_layout_from_config(config: &DashboardLayoutConfig) -> (r: Option<TelemetryLayout>)
    ensures
        r is Some <==> config.schema_version == DASHBOARD_LAYOUT_SCHEMA_VERSION,
        r matches Some(layout) ==> reads_telemetry_layout(layout, config@),
{
    if config.schema_version != DASHBOARD_LAYOUT_SCHEMA_VERSION {
        return None;
    }
    Some(
        TelemetryLayout {
            chart_order: clone_strings(&config.chart_order),
            chart_visibility: telemetry_flags_from_config(&config.chart_visibility),
            chart_collapsed: telemetry_flags_from_config(&config.chart_collapsed),
            chart_columns: config.chart_columns,
            setup_card_order: clone_strings(&config.setup_card_order),
            setup_card_collapsed: telemetry_flags_from_config(&config.setup_card_collapsed),
            lap_analysis_order: clone_strings(&config.lap_analysis_order),
            lap_analysis_collapsed: telemetry_flags_from_config(&config.lap_analysis_collapsed),
        },
    )
}

/// The Car Setup layout saved in `config`, unless it was written under
/// another schema.
pub fn car_setup_layout_from_config(config: &DashboardLayoutConfig) -> (r: Option<CarSetupLayout>)
    ensures
        r is Some <==> config.schema_version == DASHBOARD_LAYOUT_SCHEMA_VERSION,
        r matches Some(layout) ==> reads_car_setup_layout(layout, config@),
{
    if config.schema_version != DASHBOARD_LAYOUT_SCHEMA_VERSION {
        return None;
    }
    Some(
        CarSetupLayout {
            card_order: clone_strings(&config.car_setup_card_order),
            card_collapsed: car_setup_flags_from_config(&config.car_setup_card_collapsed),
        },
    )
}

/// Stores `layout` as the Telemetry part of `config`.
pub fn apply_telemetry_layout(config: &mut DashboardLayoutConfig, layout: TelemetryLayout)
    ensures
        final(config)@ == with_telemetry_layout(old(config)@, layout),
{
    let ghost l = layout;
    config.chart_order = layout.chart_order;
    config.chart_visibility = telemetry_flags_to_config(layout.chart_visibility);
    config.chart_collapsed = telemetry_flags_to_config(layout.chart_collapsed);
    config.chart_columns = layout.chart_columns;
    config.setup_card_order = layout.setup_card_order;
    config.setup_card_collapsed = telemetry_flags_to_config(layout.setup_card_collapsed);
    config.lap_analysis_order = layout.lap_analysis_order;
    config.lap_analysis_collapsed = telemetry_flags_to_config(layout.lap_analysis_collapsed);
}

/// Stores `layout` as the Car Setup part of `config`.
pub fn apply_car_setup_layout(config: &mut DashboardLayoutConfig, layout: CarSetupLayout)
    ensures
        final(config)@ == with_car_setup_layout(old(config)@, layout),
{
    config.car_setup_card_collapsed = car_setup_flags_to_config(&layout.card_collapsed);
    config.car_setup_card_order = layout.card_order;
}

/// Puts the Telemetry part of `config` back at its defaults.
pub fn reset_telemetry_layout(config: &mut DashboardLayoutConfig)
    ensures
        final(config)@ == without_telemetry_layout(old(config)@),
{
    let defaults = DashboardLayoutConfig::default();
    config.chart_order = defaults.chart_order;
    config.chart_visibility = defaults.chart_visibility;
    config.chart_collapsed = defaults.chart_collapsed;
    config.chart_columns = defaults.chart_columns;
    config.setup_card_order = defaults.setup_card_order;
    config.setup_card_collapsed = defaults.setup_card_collapsed;
    config.lap_analysis_order = defaults.lap_analysis_order;
    config.lap_analysis_collapsed = defaults.lap_analysis_collapsed;
}

/// Puts the Car Setup part of `config` back at its defaults.
pub fn reset_car_setup_layout(config: &mut DashboardLayoutConfig)
    ensures
        final(config)@ == without_car_setup_layout(old(config)@),
{
    let defaults = DashboardLayoutConfig::default();
    config.car_setup_card_order = defaults.car_setup_card_order;
    config.car_setup_card_collapsed = defaults.car_setup_card_collapsed;
}

/// The saved layouts to update: those of `configuration` when their schema
/// is known, fresh defaults in their place otherwise.
pub fn dashboard_config_for_update(configuration: &mut DesktopConfig) -> (r: &mut DashboardLayoutConfig)
    ensures
        (*r)@ == layouts_in_effect(dashboard_view(old(configuration).dashboard)),
        final(configuration).dashboard == Some(*final(r)),
        final(configuration).show_diagnostics == old(configuration).show_diagnostics,
{
    let uses_known_schema = match &configuration.dashboard {
        Some(config) => config.schema_version == DASHBOARD_LAYOUT_SCHEMA_VERSION,
        None => true,
    };
    if !uses_known_schema {
        configuration.dashboard = None;
    }
    configuration.dashboard.get_or_insert(DashboardLayoutConfig::default())
}

/// Drops the saved layouts when they are the defaults.
pub fn remove_default_dashboard_config(configuration: &mut DesktopConfig)
    ensures
        dashboard_view(final(configuration).dashboard) == (match dashboard_view(
            old(configuration).dashboard,
        ) {
            Some(d) => stored(d),
            None => None,
        }),
        final(configuration).show_diagnostics == old(configuration).show_diagnostics,
{
    let is_default = match &configuration.dashboard {
        Some(config) => config.same_as(&DashboardLayoutConfig::default()),
        None => false,
    };
    if is_default {
        configuration.dashboard = None;
    }
}

/// The saved layouts after a change on the Telemetry screen: a reset puts its
/// part back at the defaults, a changed layout replaces it, and otherwise
/// nothing changes.
pub open spec fn persisted_telemetry_update(
    dashboard: Option<LayoutConfigView>,
    resets_layout: bool,
    changed_layout: Option<TelemetryLayout>,
) -> Option<LayoutConfigView> {
    if resets_layout {
        stored(without_telemetry_layout(layouts_in_effect(dashboard)))
    } else {
        match changed_layout {
            Some(layout) => stored(with_telemetry_layout(layouts_in_effect(dashboard), layout)),
            None => dashboard,
        }
    }
}

/// The saved layouts after a change on the Car Setup screen.
pub open spec fn persisted_car_setup_update(
    dashboard: Option<LayoutConfigView>,
    resets_layout: bool,
    changed_layout: Option<CarSetupLayout>,
) -> Option<LayoutConfigView> {
    if resets_layout {
        stored(without_car_setup_layout(layouts_in_effect(dashboard)))
    } else {
        match changed_layout {
            Some(layout) => stored(with_car_setup_layout(layouts_in_effect(dashboard), layout)),
            None => dashboard,
        }
    }
}

/// Records a change of the Telemetry screen's layout in `configuration`, and
/// says whether the configuration should be saved.
pub fn update_persisted_telemetry_layout(
    configuration: &mut DesktopConfig,
    resets_layout: bool,
    changed_layout: Option<TelemetryLayout>,
) -> (r: bool)
    ensures
        dashboard_view(final(configuration).dashboard) == persisted_telemetry_update(
            dashboard_view(old(configuration).dashboard),
            resets_layout,
            changed_layout,
        ),
        final(configuration).show_diagnostics == old(configuration).show_diagnostics,
        r == (changed_layout is Some || (resets_layout && dashboard_view(
            final(configuration).dashboard,
        ) != dashboard_view(old(configuration).dashboard))),
{
    let changed = changed_layout.is_some();
    let previous = match &configuration.dashboard {
        Some(config) => Some(config.duplicate()),
        None => None,
    };
    if resets_layout {
        reset_telemetry_layout(dashboard_config_for_update(configuration));
    } else {
        match changed_layout {
            Some(layout) => {
                apply_telemetry_layout(dashboard_config_for_update(configuration), layout);
            },
            None => {
                return false;
            },
        }
    }
    remove_default_dashboard_config(configuration);
    changed || !same_dashboard(&configuration.dashboard, &previous)
}

/// Records a change of the Car Setup screen's layout in `configuration`, and
/// says whether the configuration should be saved.
pub fn update_persisted_car_setup_layout(
    configuration: &mut DesktopConfig,
    resets_layout: bool,
    changed_layout: Option<CarSetupLayout>,
) -> (r: bool)
    ensures
        dashboard_view(final(configuration).dashboard) == persisted_car_setup_update(
            dashboard_view(old(configuration).dashboard),
            resets_layout,
            changed_layout,
        ),
        final(configuration).show_diagnostics == old(configuration).show_diagnostics,
        r == (changed_layout is Some || (resets_layout && dashboard_view(
            final(configuration).dashboard,
        ) != dashboard_view(old(configuration).dashboard))),
{
    let changed = changed_layout.is_some();
    let previous = match &configuration.dashboard {
        Some(config) => Some(config.duplicate()),
        None => None,
    };
    if resets_layout {
        reset_car_setup_layout(dashboard_config_for_update(configuration));
    } else {
        match changed_layout {
            Some(layout) => {
                apply_car_setup_layout(dashboard_config_for_update(configuration), layout);
            },
            None => {
                return false;
            },
        }
    }
    remove_default_dashboard_config(configuration);
    changed || !same_dashboard(&configuration.dashboard, &previous)
}

/// What an update stores is read back as the layouts in effect.
proof fn lemma_stored_in_effect(config: LayoutConfigView)
    requires
        config.schema_version == DASHBOARD_LAYOUT_SCHEMA_VERSION,
    ensures
        layouts_in_effect(stored(config)) == config,
{
}

/// A change on the Telemetry screen, a reset included, leaves the Car Setup
/// screen's saved layout as it was.
pub proof fn lemma_telemetry_update_keeps_car_setup(
    dashboard: Option<LayoutConfigView>,
    resets_layout: bool,
    changed_layout: Option<TelemetryLayout>,
)
    ensures
        car_setup_part(
            layouts_in_effect(persisted_telemetry_update(dashboard, resets_layout, changed_layout)),
        ) == car_setup_part(layouts_in_effect(dashboard)),
{
    let base = layouts_in_effect(dashboard);
    if resets_layout {
        lemma_stored_in_effect(without_telemetry_layout(base));
    } else if let Some(layout) = changed_layout {
        lemma_stored_in_effect(with_telemetry_layout(base, layout));
    }
}

/// A change on the Car Setup screen, a reset included, leaves the Telemetry
/// screen's saved layout as it was.
pub proof fn lemma_car_setup_update_keeps_telemetry(
    dashboard: Option<LayoutConfigView>,
    resets_layout: bool,
    changed_layout: Option<CarSetupLayout>,
)
    ensures
        telemetry_part(
            layouts_in_effect(persisted_car_setup_update(dashboard, resets_layout, changed_layout)),
        ) == telemetry_part(layouts_in_effect(dashboard)),
{
    let base = layouts_in_effect(dashboard);
    if resets_layout {
        lemma_stored_in_effect(without_car_setup_layout(base));
    } else if let Some(layout) = changed_layout {
        lemma_stored_in_effect(with_car_setup_layout(base, layout));
    }
}

/// A Telemetry layout that was saved is what the configuration then holds for
/// that screen: its orders and column count as given, and each list of flags
/// as the map it denotes.
pub proof fn lemma_saved_telemetry_layout_reads_back(dashboard: Option<LayoutConfigView>, layout: TelemetryLayout)
    ensures
        telemetry_part(layouts_in_effect(persisted_telemetry_update(dashboard, false, Some(layout))))
            == telemetry_part(with_telemetry_layout(default_layout_config(), layout)),
{
    lemma_stored_in_effect(with_telemetry_layout(layouts_in_effect(dashboard), layout));
}

/// A Car Setup layout that was saved is what the configuration then holds for
/// that screen.
pub proof fn lemma_saved_car_setup_layout_reads_back(dashboard: Option<LayoutConfigView>, layout: CarSetupLayout)
    ensures
        car_setup_part(layouts_in_effect(persisted_car_setup_update(dashboard, false, Some(layout))))
            == car_setup_part(with_car_setup_layout(default_layout_config(), layout)),
{
    lemma_stored_in_effect(with_car_setup_layout(layouts_in_effect(dashboard), layout));
}

/// Resetting one screen removes only its own override: once the other
/// screen's part is at its defaults too, nothing is stored.
pub proof fn lemma_resets_remove_only_their_own_override(
    dashboard: Option<LayoutConfigView>,
    telemetry_layout: Option<TelemetryLayout>,
    car_setup_layout: Option<CarSetupLayout>,
)
    ensures
        car_setup_part(layouts_in_effect(dashboard)) == car_setup_part(default_layout_config())
            ==> persisted_telemetry_update(dashboard, true, telemetry_layout) is None,
        telemetry_part(layouts_in_effect(dashboard)) == telemetry_part(default_layout_config())
            ==> persisted_car_setup_update(dashboard, true, car_setup_layout) is None,
{
    let base = layouts_in_effect(dashboard);
    if car_setup_part(base) == car_setup_part(default_layout_config()) {
        assert(without_telemetry_layout(base) =~= default_layout_config());
    }
    if telemetry_part(base) == telemetry_part(default_layout_config()) {
        assert(without_car_setup_layout(base) =~= default_layout_config());
    }
}

} // verus!
