//! What the screens show of a session, taken from the parts of the session
//! information document that name it: the course, the player car, the
//! current session and the conditions on the Telemetry dashboard, and the
//! summary and setup sections of the Car Setup screen.
use vstd::prelude::*;
use crate::dashboard_state::optional_view;
use crate::dashboard_text::{clock_text, first_metadata_value, format_recording_duration, join_metadata_values, non_blank_texts};
use crate::setup::{first_non_blank_text, optional_views};
use crate::setup::{non_blank, SetupDataStatus, SetupSection, SetupViewData};
use crate::setup_value::{
    height, sections_view, setup_sections, setup_sections_of, setup_update_count, update_count_of,
    SectionView, SetupValue,
};
use crate::text::{join, to_owned_string, trim};

verus! {

/// The options of a race weekend that the dashboard reads.
#[derive(Debug, Clone, PartialEq, Eq)]
pub struct WeekendOptions {
    pub date: Option<String>,
    pub time_of_day: Option<String>,
    pub skies: Option<String>,
    pub weather_type: Option<String>,
    pub weather_temp: Option<String>,
    pub relative_humidity: Option<String>,
    pub wind_speed: Option<String>,
    pub wind_direction: Option<String>,
    pub is_fixed_setup: Option<bool>,
}

/// The `WeekendInfo` section, as far as the dashboard reads it.
#[derive(Debug, Clone, PartialEq, Eq)]
pub struct WeekendInfo {
    pub track_name: Option<String>,
    pub track_display_name: Option<String>,
    pub track_config_name: Option<String>,
    pub track_length: Option<String>,
    pub track_num_turns: Option<i32>,
    pub track_type: Option<String>,
    pub track_direction: Option<String>,
    pub event_type: Option<String>,
    pub track_skies: Option<String>,
    pub track_weather_type: Option<String>,
    pub track_air_temp: Option<String>,
    pub track_surface_temp: Option<String>,
    pub track_relative_humidity: Option<String>,
    pub track_wind_vel: Option<String>,
    pub track_wind_dir: Option<String>,
    pub weekend_options: Option<WeekendOptions>,
}

/// The configured length of a session: a number of seconds, not negative and
/// rounded to the nearest second, or a text such as `Unlimited` shown as it is.
#[derive(Debug, Clone, PartialEq, Eq)]
pub enum SessionTime {
    Seconds(u64),
    Text(String),
}

/// One session of the `SessionInfo` section.
#[derive(Debug, Clone, PartialEq, Eq)]
pub struct SessionEntry {
    pub session_num: Option<i32>,
    pub session_type: Option<String>,
    pub session_name: Option<String>,
    pub session_time: Option<SessionTime>,
}

/// The `SessionInfo` section: the number of the current session and the
/// sessions of the event.
#[derive(Debug, Clone, PartialEq, Eq)]
pub struct SessionInfoSection {
    pub current_session_num: Option<i32>,
    pub sessions: Vec<SessionEntry>,
}

/// One car of the `DriverInfo` section.
#[derive(Debug, Clone, PartialEq, Eq)]
pub struct DriverEntry {
    pub car_idx: Option<i32>,
    pub car_screen_name: Option<String>,
    pub car_screen_name_short: Option<String>,
    pub car_path: Option<String>,
    pub car_class_short_name: Option<String>,
}

/// The `DriverInfo` section: the car index of the player, the setup loaded
/// in the player car, and the cars.
#[derive(Debug, Clone, PartialEq, Eq)]
pub struct DriverInfo {
    pub driver_car_idx: Option<i32>,
    pub driver_setup_name: Option<String>,
    pub driver_setup_load_type_name: Option<String>,
    pub driver_setup_is_modified: Option<bool>,
    pub driver_setup_passed_tech: Option<bool>,
    pub drivers: Vec<DriverEntry>,
}

/// The sections of a session information document that the dashboard reads.
#[derive(Debug, Clone, PartialEq, Eq)]
pub struct SessionDocument {
    pub weekend_info: Option<WeekendInfo>,
    pub session_info: Option<SessionInfoSection>,
    pub driver_info: Option<DriverInfo>,
}

/// What the dashboard shows of a session; each value is absent when the
/// document does not name it.
#[derive(Debug, Clone, PartialEq, Eq)]
pub struct SessionMetadata {
    pub track_name: Option<String>,
    pub track_config: Option<String>,
    pub track_length: Option<String>,
    pub track_turns: Option<i32>,
    pub track_type: Option<String>,
    pub car_name: Option<String>,
    pub car_class: Option<String>,
    pub session_type: Option<String>,
    pub session_time: Option<String>,
    pub date_time: Option<String>,
    pub weather: Option<String>,
    pub air_temperature: Option<String>,
    pub surface_temperature: Option<String>,
    pub humidity: Option<String>,
    pub wind: Option<String>,
}

/// Session metadata that names nothing.
pub open spec fn empty_session_metadata() -> SessionMetadata {
    SessionMetadata {
        track_name: None,
        track_config: None,
        track_length: None,
        track_turns: None,
        track_type: None,
        car_name: None,
        car_class: None,
        session_type: None,
        session_time: None,
        date_time: None,
        weather: None,
        air_temperature: None,
        surface_temperature: None,
        humidity: None,
        wind: None,
    }
}

/// Session metadata that names nothing, as shown before any session
/// information arrives or when it cannot be read.
pub fn no_session_metadata() -> (r: SessionMetadata)
    ensures
        r == empty_session_metadata(),
{
    SessionMetadata {
        track_name: None,
        track_config: None,
        track_length: None,
        track_turns: None,
        track_type: None,
        car_name: None,
        car_class: None,
        session_type: None,
        session_time: None,
        date_time: None,
        weather: None,
        air_temperature: None,
        surface_temperature: None,
        humidity: None,
        wind: None,
    }
}

/// A weekend section that names nothing.
pub open spec fn empty_weekend() -> WeekendInfo {
    WeekendInfo {
        track_name: None,
        track_display_name: None,
        track_config_name: None,
        track_length: None,
        track_num_turns: None,
        track_type: None,
        track_direction: None,
        event_type: None,
        track_skies: None,
        track_weather_type: None,
        track_air_temp: None,
        track_surface_temp: None,
        track_relative_humidity: None,
        track_wind_vel: None,
        track_wind_dir: None,
        weekend_options: None,
    }
}

/// Weekend options that name nothing.
pub open spec fn empty_options() -> WeekendOptions {
    WeekendOptions {
        date: None,
        time_of_day: None,
        skies: None,
        weather_type: None,
        weather_temp: None,
        relative_humidity: None,
        wind_speed: None,
        wind_direction: None,
        is_fixed_setup: None,
    }
}

/// A session that names nothing.
pub open spec fn empty_session() -> SessionEntry {
    SessionEntry { session_num: None, session_type: None, session_name: None, session_time: None }
}

/// A car that names nothing.
pub open spec fn empty_driver() -> DriverEntry {
    DriverEntry {
        car_idx: None,
        car_screen_name: None,
        car_screen_name_short: None,
        car_path: None,
        car_class_short_name: None,
    }
}

/// The first session numbered `num`.
pub open spec fn session_numbered(sessions: Seq<SessionEntry>, num: i32) -> Option<SessionEntry>
    decreases sessions.len(),
{
    if sessions.len() == 0 {
        None
    } else if sessions[0].session_num == Some(num) {
        Some(sessions[0])
    } else {
        session_numbered(sessions.drop_first(), num)
    }
}

/// The first car with index `idx`.
pub open spec fn driver_with_car(drivers: Seq<DriverEntry>, idx: i32) -> Option<DriverEntry>
    decreases drivers.len(),
{
    if drivers.len() == 0 {
        None
    } else if drivers[0].car_idx == Some(idx) {
        Some(drivers[0])
    } else {
        driver_with_car(drivers.drop_first(), idx)
    }
}

/// The current session: the first one numbered as the current session, or
/// else the first session.
pub open spec fn current_session(d: SessionDocument) -> Option<SessionEntry> {
    match d.session_info {
        None => None,
        Some(si) => {
            let found = match si.current_session_num {
                Some(num) => session_numbered(si.sessions@, num),
                None => None,
            };
            match found {
                Some(s) => Some(s),
                None => if si.sessions@.len() > 0 {
                    Some(si.sessions@[0])
                } else {
                    None
                },
            }
        },
    }
}

/// The player car: the first one with the player's car index, or else the
/// first car.
pub open spec fn player_driver(d: SessionDocument) -> Option<DriverEntry> {
    match d.driver_info {
        None => None,
        Some(di) => {
            let found = match di.driver_car_idx {
                Some(idx) => driver_with_car(di.drivers@, idx),
                None => None,
            };
            match found {
                Some(c) => Some(c),
                None => if di.drivers@.len() > 0 {
                    Some(di.drivers@[0])
                } else {
                    None
                },
            }
        },
    }
}

/// The weekend section, or one that names nothing.
pub open spec fn weekend_of(d: SessionDocument) -> WeekendInfo {
    match d.weekend_info {
        Some(w) => w,
        None => empty_weekend(),
    }
}

/// The weekend options, or options that name nothing.
pub open spec fn options_of(d: SessionDocument) -> WeekendOptions {
    match weekend_of(d).weekend_options {
        Some(o) => o,
        None => empty_options(),
    }
}

/// The current session, or one that names nothing.
pub open spec fn session_of(d: SessionDocument) -> SessionEntry {
    match current_session(d) {
        Some(s) => s,
        None => empty_session(),
    }
}

/// The player car, or one that names nothing.
pub open spec fn driver_of(d: SessionDocument) -> DriverEntry {
    match player_driver(d) {
        Some(c) => c,
        None => empty_driver(),
    }
}

/// The trimmed values that are present and not blank, joined by ` · `, or
/// nothing when there is none.
pub open spec fn joined_values(values: Seq<Option<Seq<char>>>) -> Option<Seq<char>> {
    if non_blank_texts(values).len() == 0 {
        None
    } else {
        Some(join(non_blank_texts(values), " · "@))
    }
}

/// `first`, or `second` when `first` is absent.
pub open spec fn either(first: Option<String>, second: Option<String>) -> Option<String> {
    match first {
        Some(v) => Some(v),
        None => second,
    }
}

/// The text of a configured session length.
pub open spec fn session_time_text(t: Option<SessionTime>) -> Option<Seq<char>> {
    match t {
        Some(SessionTime::Seconds(s)) => Some(clock_text(s as nat)),
        Some(SessionTime::Text(v)) => Some(v@),
        None => None,
    }
}

/// The view of an optional borrowed string.
pub open spec fn str_view(v: Option<&str>) -> Option<Seq<char>> {
    match v {
        Some(s) => Some(s@),
        None => None,
    }
}

fn field(v: &Option<String>) -> (r: Option<&str>)
    ensures
        str_view(r) == optional_view(*v),
{
    match v {
        Some(s) => Some(s.as_str()),
        None => None,
    }
}

fn no_weekend() -> (r: WeekendInfo)
    ensures
        r == empty_weekend(),
{
    WeekendInfo {
        track_name: None,
        track_display_name: None,
        track_config_name: None,
        track_length: None,
        track_num_turns: None,
        track_type: None,
        track_direction: None,
        event_type: None,
        track_skies: None,
        track_weather_type: None,
        track_air_temp: None,
        track_surface_temp: None,
        track_relative_humidity: None,
        track_wind_vel: None,
        track_wind_dir: None,
        weekend_options: None,
    }
}

fn no_options() -> (r: WeekendOptions)
    ensures
        r == empty_options(),
{
    WeekendOptions {
        date: None,
        time_of_day: None,
        skies: None,
        weather_type: None,
        weather_temp: None,
        relative_humidity: None,
        wind_speed: None,
        wind_direction: None,
        is_fixed_setup: None,
    }
}

fn no_session() -> (r: SessionEntry)
    ensures
        r == empty_session(),
{
    SessionEntry { session_num: None, session_type: None, session_name: None, session_time: None }
}

fn no_driver() -> (r: DriverEntry)
    ensures
        r == empty_driver(),
{
    DriverEntry {
        car_idx: None,
        car_screen_name: None,
        car_screen_name_short: None,
        car_path: None,
        car_class_short_name: None,
    }
}

/// The current session of the document, if it lists any.
pub fn find_current_session(d: &SessionDocument) -> (r: Option<&SessionEntry>)
    ensures
        match r {
            Some(s) => current_session(*d) == Some(*s),
            None => current_session(*d) is None,
        },
{
    match &d.session_info {
        None => None,
        Some(si) => {
            if let Some(num) = si.current_session_num {
                let mut i: usize = 0;
                assert(si.sessions@.skip(0) =~= si.sessions@);
                while i < si.sessions.len()
                    invariant
                        i <= si.sessions@.len(),
                        d.session_info == Some(*si),
                        si.current_session_num == Some(num),
                        session_numbered(si.sessions@, num) == session_numbered(si.sessions@.skip(i as int), num),
                    decreases si.sessions@.len() - i,
                {
                    assert(si.sessions@.skip(i as int).drop_first() =~= si.sessions@.skip(i + 1));
                    if si.sessions[i].session_num == Some(num) {
                        return Some(&si.sessions[i]);
                    }
                    i = i + 1;
                }
            }
            if si.sessions.len() > 0 {
                Some(&si.sessions[0])
            } else {
                None
            }
        },
    }
}

fn find_driver_with_car(drivers: &Vec<DriverEntry>, idx: i32) -> (r: Option<&DriverEntry>)
    ensures
        match r {
            Some(c) => driver_with_car(drivers@, idx) == Some(*c),
            None => driver_with_car(drivers@, idx) is None,
        },
{
    let mut i: usize = 0;
    assert(drivers@.skip(0) =~= drivers@);
    while i < drivers.len()
        invariant
            i <= drivers@.len(),
            driver_with_car(drivers@, idx) == driver_with_car(drivers@.skip(i as int), idx),
        decreases drivers@.len() - i,
    {
        assert(drivers@.skip(i as int).drop_first() =~= drivers@.skip(i + 1));
        if drivers[i].car_idx == Some(idx) {
            return Some(&drivers[i]);
        }
        i = i + 1;
    }
    None
}

/// The player car of the document, if it lists any car.
pub fn find_player_driver(d: &SessionDocument) -> (r: Option<&DriverEntry>)
    ensures
        match r {
            Some(c) => player_driver(*d) == Some(*c),
            None => player_driver(*d) is None,
        },
{
    match &d.driver_info {
        None => None,
        Some(di) => {
            if let Some(idx) = di.driver_car_idx {
                if let Some(c) = find_driver_with_car(&di.drivers, idx) {
                    return Some(c);
                }
            }
            if di.drivers.len() > 0 {
                Some(&di.drivers[0])
            } else {
                None
            }
        },
    }
}

/// The car whose setup the Car Setup screen shows: the first with the
/// player's car index. Unlike the dashboard, it does not fall back to another
/// car.
pub open spec fn setup_driver(d: SessionDocument) -> Option<DriverEntry> {
    match d.driver_info {
        Some(di) => match di.driver_car_idx {
            Some(idx) => driver_with_car(di.drivers@, idx),
            None => None,
        },
        None => None,
    }
}

/// The car of `setup_driver`, or one that names nothing.
pub open spec fn setup_driver_of(d: SessionDocument) -> DriverEntry {
    match setup_driver(d) {
        Some(c) => c,
        None => empty_driver(),
    }
}

/// A text trimmed, or nothing when it is absent or blank.
pub open spec fn non_blank_view(v: Option<String>) -> Option<Seq<char>> {
    match v {
        Some(s) => if trim(s@).len() > 0 {
            Some(trim(s@))
        } else {
            None
        },
        None => None,
    }
}

fn non_blank_owned(v: &Option<String>) -> (r: Option<String>)
    ensures
        optional_view(r) == non_blank_view(*v),
{
    match v {
        Some(s) => match non_blank(s.as_str()) {
            Some(t) => Some(to_owned_string(t)),
            None => None,
        },
        None => None,
    }
}

impl SetupViewData {
    /// What the Car Setup screen shows of the session that `d` describes,
    /// whose car setup is `car_setup`, with `vehicle_sections` as the cards
    /// of the vehicle specification.
    pub fn from_document(
        d: &SessionDocument,
        car_setup: Option<&SetupValue>,
        vehicle_sections: Vec<SetupSection>,
    ) -> (r: Self)
        requires
            car_setup matches Some(v) ==> height(*v) <= usize::MAX,
        ensures
            r.status == (if car_setup is Some {
                SetupDataStatus::Available
            } else {
                SetupDataStatus::Missing
            }),
            optional_view(r.car_name) == first_non_blank_text(
                seq![
                    optional_view(setup_driver_of(*d).car_screen_name),
                    optional_view(setup_driver_of(*d).car_screen_name_short),
                    optional_view(setup_driver_of(*d).car_path),
                ],
            ),
            optional_view(r.car_path) == non_blank_view(setup_driver_of(*d).car_path),
            optional_view(r.setup_name) == (match d.driver_info {
                Some(i) => non_blank_view(i.driver_setup_name),
                None => None,
            }),
            optional_view(r.load_type) == (match d.driver_info {
                Some(i) => non_blank_view(i.driver_setup_load_type_name),
                None => None,
            }),
            r.modified == (match d.driver_info {
                Some(i) => i.driver_setup_is_modified,
                None => None,
            }),
            r.passed_tech == (match d.driver_info {
                Some(i) => i.driver_setup_passed_tech,
                None => None,
            }),
            r.fixed_setup == options_of(*d).is_fixed_setup,
            optional_view(r.update_count) == (match car_setup {
                Some(v) => update_count_of(*v),
                None => None,
            }),
            sections_view(r.sections@) == (match car_setup {
                Some(v) => setup_sections_of(*v),
                None => Seq::empty(),
            }),
            r.vehicle_sections == vehicle_sections,
    {
        let none_driver = no_driver();
        let driver: &DriverEntry = match &d.driver_info {
            Some(di) => match di.driver_car_idx {
                Some(idx) => match find_driver_with_car(&di.drivers, idx) {
                    Some(c) => c,
                    None => &none_driver,
                },
                None => &none_driver,
            },
            None => &none_driver,
        };
        let (setup_name, load_type, modified, passed_tech) = match &d.driver_info {
            Some(i) => (
                non_blank_owned(&i.driver_setup_name),
                non_blank_owned(&i.driver_setup_load_type_name),
                i.driver_setup_is_modified,
                i.driver_setup_passed_tech,
            ),
            None => (None, None, None, None),
        };
        let fixed_setup = match &d.weekend_info {
            Some(w) => match &w.weekend_options {
                Some(o) => o.is_fixed_setup,
                None => None,
            },
            None => None,
        };
        let (status, update_count, sections) = match car_setup {
            Some(v) => (SetupDataStatus::Available, setup_update_count(v), setup_sections(v)),
            None => (SetupDataStatus::Missing, None, Vec::new()),
        };
        proof {
            if car_setup is None {
                assert(sections_view(sections@) =~= Seq::<SectionView>::empty());
            }
        }
        SetupViewData {
            status,
            car_name: first_of(
                three(field(&driver.car_screen_name), field(&driver.car_screen_name_short), field(&driver.car_path)),
            ),
            car_path: non_blank_owned(&driver.car_path),
            setup_name,
            load_type,
            modified,
            passed_tech,
            fixed_setup,
            update_count,
            vehicle_sections,
            sections,
        }
    }
}

fn first_of(values: Vec<Option<&str>>) -> (r: Option<String>)
    ensures
        optional_view(r) == first_non_blank_text(optional_views(values@)),
{
    first_metadata_value(values.as_slice())
}

fn joined_of(values: Vec<Option<&str>>) -> (r: Option<String>)
    ensures
        optional_view(r) == joined_values(optional_views(values@)),
{
    join_metadata_values(values.as_slice(), " · ")
}

fn one(a: Option<&str>) -> (r: Vec<Option<&str>>)
    ensures
        optional_views(r@) == seq![str_view(a)],
{
    let mut v: Vec<Option<&str>> = Vec::new();
    v.push(a);
    assert(optional_views(v@) =~= seq![str_view(a)]);
    v
}

fn two<'a>(a: Option<&'a str>, b: Option<&'a str>) -> (r: Vec<Option<&'a str>>)
    ensures
        optional_views(r@) == seq![str_view(a), str_view(b)],
{
    let mut v: Vec<Option<&str>> = Vec::new();
    v.push(a);
    v.push(b);
    assert(optional_views(v@) =~= seq![str_view(a), str_view(b)]);
    v
}

fn three<'a>(a: Option<&'a str>, b: Option<&'a str>, c: Option<&'a str>) -> (r: Vec<Option<&'a str>>)
    ensures
        optional_views(r@) == seq![str_view(a), str_view(b), str_view(c)],
{
    let mut v: Vec<Option<&str>> = Vec::new();
    v.push(a);
    v.push(b);
    v.push(c);
    assert(optional_views(v@) =~= seq![str_view(a), str_view(b), str_view(c)]);
    v
}

fn four<'a>(a: Option<&'a str>, b: Option<&'a str>, c: Option<&'a str>, e: Option<&'a str>) -> (r: Vec<
    Option<&'a str>,
>)
    ensures
        optional_views(r@) == seq![str_view(a), str_view(b), str_view(c), str_view(e)],
{
    let mut v: Vec<Option<&str>> = Vec::new();
    v.push(a);
    v.push(b);
    v.push(c);
    v.push(e);
    assert(optional_views(v@) =~= seq![str_view(a), str_view(b), str_view(c), str_view(e)]);
    v
}

/// What the dashboard shows of the session that `d` describes. A text value
/// is the first of its sources, in the order below, that is present and not
/// blank, trimmed; the joined values list every such source, trimmed, between
/// ` · `. The current session is the first one numbered as the current
/// session, or else the first session; the player car is the first with the
/// player's car index, or else the first car.
pub fn session_metadata(d: &SessionDocument) -> (r: SessionMetadata)
    ensures
        optional_view(r.track_name) == first_non_blank_text(
            seq![optional_view(weekend_of(*d).track_display_name), optional_view(weekend_of(*d).track_name)],
        ),
        optional_view(r.track_config) == first_non_blank_text(seq![optional_view(weekend_of(*d).track_config_name)]),
        optional_view(r.track_length) == first_non_blank_text(seq![optional_view(weekend_of(*d).track_length)]),
        r.track_turns == weekend_of(*d).track_num_turns,
        optional_view(r.track_type) == joined_values(
            seq![optional_view(weekend_of(*d).track_type), optional_view(weekend_of(*d).track_direction)],
        ),
        optional_view(r.car_name) == first_non_blank_text(
            seq![
                optional_view(driver_of(*d).car_screen_name),
                optional_view(driver_of(*d).car_screen_name_short),
                optional_view(driver_of(*d).car_path),
            ],
        ),
        optional_view(r.car_class) == first_non_blank_text(seq![optional_view(driver_of(*d).car_class_short_name)]),
        optional_view(r.session_type) == first_non_blank_text(
            seq![
                optional_view(session_of(*d).session_type),
                optional_view(session_of(*d).session_name),
                optional_view(weekend_of(*d).event_type),
            ],
        ),
        optional_view(r.session_time) == session_time_text(session_of(*d).session_time),
        optional_view(r.date_time) == joined_values(
            seq![optional_view(options_of(*d).date), optional_view(options_of(*d).time_of_day)],
        ),
        optional_view(r.weather) == first_non_blank_text(
            seq![
                optional_view(weekend_of(*d).track_skies),
                optional_view(options_of(*d).skies),
                optional_view(weekend_of(*d).track_weather_type),
                optional_view(options_of(*d).weather_type),
            ],
        ),
        optional_view(r.air_temperature) == first_non_blank_text(
            seq![optional_view(weekend_of(*d).track_air_temp), optional_view(options_of(*d).weather_temp)],
        ),
        optional_view(r.surface_temperature) == first_non_blank_text(
            seq![optional_view(weekend_of(*d).track_surface_temp)],
        ),
        optional_view(r.humidity) == first_non_blank_text(
            seq![
                optional_view(weekend_of(*d).track_relative_humidity),
                optional_view(options_of(*d).relative_humidity),
            ],
        ),
        optional_view(r.wind) == joined_values(
            seq![
                optional_view(either(options_of(*d).wind_speed, weekend_of(*d).track_wind_vel)),
                optional_view(either(options_of(*d).wind_direction, weekend_of(*d).track_wind_dir)),
            ],
        ),
{
    let none_weekend = no_weekend();
    let none_options = no_options();
    let none_session = no_session();
    let none_driver = no_driver();
    let w: &WeekendInfo = match &d.weekend_info {
        Some(w) => w,
        None => &none_weekend,
    };
    let o: &WeekendOptions = match &w.weekend_options {
        Some(o) => o,
        None => &none_options,
    };
    let s: &SessionEntry = match find_current_session(d) {
        Some(s) => s,
        None => &none_session,
    };
    let c: &DriverEntry = match find_player_driver(d) {
        Some(c) => c,
        None => &none_driver,
    };
    let wind_speed = match &o.wind_speed {
        Some(v) => Some(v.as_str()),
        None => field(&w.track_wind_vel),
    };
    let wind_direction = match &o.wind_direction {
        Some(v) => Some(v.as_str()),
        None => field(&w.track_wind_dir),
    };
    let session_time = match &s.session_time {
        Some(SessionTime::Seconds(seconds)) => Some(format_recording_duration(*seconds)),
        Some(SessionTime::Text(text)) => Some(text.clone()),
        None => None,
    };
    SessionMetadata {
        track_name: first_of(two(field(&w.track_display_name), field(&w.track_name))),
        track_config: first_of(one(field(&w.track_config_name))),
        track_length: first_of(one(field(&w.track_length))),
        track_turns: w.track_num_turns,
        track_type: joined_of(two(field(&w.track_type), field(&w.track_direction))),
        car_name: first_of(three(field(&c.car_screen_name), field(&c.car_screen_name_short), field(&c.car_path))),
        car_class: first_of(one(field(&c.car_class_short_name))),
        session_type: first_of(three(field(&s.session_type), field(&s.session_name), field(&w.event_type))),
        session_time,
        date_time: joined_of(two(field(&o.date), field(&o.time_of_day))),
        weather: first_of(
            four(field(&w.track_skies), field(&o.skies), field(&w.track_weather_type), field(&o.weather_type)),
        ),
        air_temperature: first_of(two(field(&w.track_air_temp), field(&o.weather_temp))),
        surface_temperature: first_of(one(field(&w.track_surface_temp))),
        humidity: first_of(two(field(&w.track_relative_humidity), field(&o.relative_humidity))),
        wind: joined_of(two(wind_speed, wind_direction)),
    }
}

} // verus!
