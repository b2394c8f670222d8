//! Car Setup screen helpers: the card set of the setup view, corner aliases,
//! and the display form of SDK keys and optional texts.
use vstd::prelude::*;
use crate::text::{
    ascii_lower, chars_of, concat_str, is_ascii_alphanumeric, is_ascii_digit, is_blank, join,
    join_strings, push_char, str_eq, str_is_blank, str_trim, string_from_chars, string_views,
    to_ascii_lower, to_owned_string, trim,
};

verus! {

broadcast use vstd::string::group_string_axioms;

/// Whether `c` has the Unicode `Uppercase` property.
pub uninterp spec fn char_is_uppercase(c: char) -> bool;

/// Whether `c` has the Unicode `Lowercase` property.
pub uninterp spec fn char_is_lowercase(c: char) -> bool;

/// `char::is_uppercase`; its result is named `char_is_uppercase`.
#[verifier::external_body]
fn is_uppercase(c: char) -> (r: bool)
    ensures
        r == char_is_uppercase(c),
{
    c.is_uppercase()
}

/// `char::is_lowercase`; its result is named `char_is_lowercase`.
#[verifier::external_body]
fn is_lowercase(c: char) -> (r: bool)
    ensures
        r == char_is_lowercase(c),
{
    c.is_lowercase()
}

/// Whether the character at `i` of `cs` starts a new word of a camel-case key:
/// an upper-case letter after a lower-case letter or a digit, or the last
/// upper-case letter of an acronym that a lower-case letter follows.
pub open spec fn starts_word(cs: Seq<char>, i: int) -> bool {
    &&& char_is_uppercase(cs[i])
    &&& i > 0
    &&& {
        let p = cs[i - 1];
        ||| char_is_lowercase(p)
        ||| is_ascii_digit(p)
        ||| (char_is_uppercase(p) && i + 1 < cs.len() && char_is_lowercase(cs[i + 1]))
    }
}

/// Whether `out` ends with a space.
pub open spec fn ends_with_space(out: Seq<char>) -> bool {
    out.len() > 0 && out.last() == ' '
}

/// The output after the character at `i` of `cs` was processed.
pub open spec fn humanize_step(cs: Seq<char>, i: int, out: Seq<char>) -> Seq<char> {
    let c = cs[i];
    if c == '_' || c == '-' {
        if ends_with_space(out) {
            out
        } else {
            out.push(' ')
        }
    } else {
        let spaced = if starts_word(cs, i) && !ends_with_space(out) {
            out.push(' ')
        } else {
            out
        };
        spaced.push(c)
    }
}

/// The output after the first `n` characters of `cs` were processed.
pub open spec fn humanize_prefix(cs: Seq<char>, n: nat) -> Seq<char>
    decreases n,
{
    if n == 0 {
        Seq::empty()
    } else {
        humanize_step(cs, n - 1, humanize_prefix(cs, (n - 1) as nat))
    }
}

/// An SDK key split into words: `_` and `-` become a space, a space precedes
/// each camel-case word, and the result is trimmed.
pub open spec fn humanized(s: Seq<char>) -> Seq<char> {
    trim(humanize_prefix(s, s.len()))
}

/// Splits an SDK key into words without breaking acronyms: `ColdPressure`
/// becomes `Cold Pressure` and `FrontARB` becomes `Front ARB`.
pub fn humanize_key(value: &str) -> (r: String)
    ensures
        r@ == humanized(value@),
{
    let cs = chars_of(value);
    let mut output = String::new();
    let mut index: usize = 0;
    while index < cs.len()
        invariant
            index <= cs@.len(),
            cs@ == value@,
            output@ == humanize_prefix(cs@, index as nat),
        decreases cs@.len() - index,
    {
        let c = cs[index];
        let ends_space = output_ends_with_space(&output);
        if c == '_' || c == '-' {
            if !ends_space {
                push_char(&mut output, ' ');
            }
        } else {
            let starts = if is_uppercase(c) && index > 0 {
                let p = cs[index - 1];
                is_lowercase(p) || ('0' <= p && p <= '9') || (is_uppercase(p) && index + 1
                    < cs.len() && is_lowercase(cs[index + 1]))
            } else {
                false
            };
            if starts && !ends_space {
                push_char(&mut output, ' ');
            }
            push_char(&mut output, c);
        }
        index = index + 1;
    }
    to_owned_string(str_trim(output.as_str()))
}

fn output_ends_with_space(output: &String) -> (r: bool)
    ensures
        r == ends_with_space(output@),
{
    let cs = chars_of(output.as_str());
    cs.len() > 0 && cs[cs.len() - 1] == ' '
}

/// A wheel corner of the car.
#[derive(Debug, Clone, Copy, PartialEq, Eq, Structural)]
pub enum SetupCorner {
    LeftFront,
    RightFront,
    LeftRear,
    RightRear,
}

impl SetupCorner {
    pub open spec fn spec_index(self) -> nat {
        match self {
            SetupCorner::LeftFront => 0,
            SetupCorner::RightFront => 1,
            SetupCorner::LeftRear => 2,
            SetupCorner::RightRear => 3,
        }
    }

    /// The column of the corner in a comparison table.
    pub fn index(self) -> (r: usize)
        ensures
            r == self.spec_index(),
    {
        match self {
            SetupCorner::LeftFront => 0,
            SetupCorner::RightFront => 1,
            SetupCorner::LeftRear => 2,
            SetupCorner::RightRear => 3,
        }
    }

    pub open spec fn spec_short_label(self) -> Seq<char> {
        match self {
            SetupCorner::LeftFront => "LF"@,
            SetupCorner::RightFront => "RF"@,
            SetupCorner::LeftRear => "LR"@,
            SetupCorner::RightRear => "RR"@,
        }
    }

    /// The SDK abbreviation of the corner.
    pub fn short_label(self) -> (r: &'static str)
        ensures
            r@ == self.spec_short_label(),
    {
        match self {
            SetupCorner::LeftFront => "LF",
            SetupCorner::RightFront => "RF",
            SetupCorner::LeftRear => "LR",
            SetupCorner::RightRear => "RR",
        }
    }

    /// Whether the corner is on the front axle.
    pub fn is_front(self) -> (r: bool)
        ensures
            r == (self == SetupCorner::LeftFront || self == SetupCorner::RightFront),
    {
        matches!(self, SetupCorner::LeftFront | SetupCorner::RightFront)
    }
}

/// The ASCII letters and digits of `s`, in lower case.
pub open spec fn alphanumeric_lower(s: Seq<char>) -> Seq<char>
    decreases s.len(),
{
    if s.len() == 0 {
        Seq::empty()
    } else {
        let prev = alphanumeric_lower(s.drop_last());
        if is_ascii_alphanumeric(s.last()) {
            prev.push(ascii_lower(s.last()))
        } else {
            prev
        }
    }
}

/// The corner that a normalized group label names.
pub open spec fn corner_alias(n: Seq<char>) -> Option<SetupCorner> {
    if n == "lf"@ || n == "leftfront"@ || n == "frontleft"@ || n == "leftfrontcorner"@ || n
        == "frontleftcorner"@ {
        Some(SetupCorner::LeftFront)
    } else if n == "rf"@ || n == "rightfront"@ || n == "frontright"@ || n == "rightfrontcorner"@
        || n == "frontrightcorner"@ {
        Some(SetupCorner::RightFront)
    } else if n == "lr"@ || n == "leftrear"@ || n == "rearleft"@ || n == "leftrearcorner"@ || n
        == "rearleftcorner"@ {
        Some(SetupCorner::LeftRear)
    } else if n == "rr"@ || n == "rightrear"@ || n == "rearright"@ || n == "rightrearcorner"@ || n
        == "rearrightcorner"@ {
        Some(SetupCorner::RightRear)
    } else {
        None
    }
}

/// The corner that a setup group label names, ignoring case and punctuation;
/// only the explicit aliases count.
pub fn setup_corner(label: &str) -> (r: Option<SetupCorner>)
    ensures
        r == corner_alias(alphanumeric_lower(label@)),
{
    let cs = chars_of(label);
    let mut normalized: Vec<char> = Vec::new();
    let mut i: usize = 0;
    while i < cs.len()
        invariant
            i <= cs@.len(),
            cs@ == label@,
            normalized@ == alphanumeric_lower(cs@.take(i as int)),
        decreases cs@.len() - i,
    {
        let c = cs[i];
        assert(cs@.take(i + 1).drop_last() =~= cs@.take(i as int));
        if ('a' <= c && c <= 'z') || ('A' <= c && c <= 'Z') || ('0' <= c && c <= '9') {
            normalized.push(to_ascii_lower(c));
        }
        i = i + 1;
    }
    assert(cs@.take(cs@.len() as int) =~= cs@);
    let n = string_from_chars(normalized.as_slice());
    let n = n.as_str();
    if str_eq(n, "lf") || str_eq(n, "leftfront") || str_eq(n, "frontleft") || str_eq(
        n,
        "leftfrontcorner",
    ) || str_eq(n, "frontleftcorner") {
        Some(SetupCorner::LeftFront)
    } else if str_eq(n, "rf") || str_eq(n, "rightfront") || str_eq(n, "frontright") || str_eq(
        n,
        "rightfrontcorner",
    ) || str_eq(n, "frontrightcorner") {
        Some(SetupCorner::RightFront)
    } else if str_eq(n, "lr") || str_eq(n, "leftrear") || str_eq(n, "rearleft") || str_eq(
        n,
        "leftrearcorner",
    ) || str_eq(n, "rearleftcorner") {
        Some(SetupCorner::LeftRear)
    } else if str_eq(n, "rr") || str_eq(n, "rightrear") || str_eq(n, "rearright") || str_eq(
        n,
        "rightrearcorner",
    ) || str_eq(n, "rearrightcorner") {
        Some(SetupCorner::RightRear)
    } else {
        None
    }
}

/// `value` trimmed, unless nothing but whitespace is left.
pub fn non_blank(value: &str) -> (r: Option<&str>)
    ensures
        match r {
            Some(t) => t@ == trim(value@) && trim(value@).len() > 0,
            None => trim(value@).len() == 0,
        },
{
    let t = str_trim(value);
    if t.is_empty() {
        None
    } else {
        Some(t)
    }
}

/// The first value that is present and not blank, trimmed.
pub open spec fn first_non_blank_text(values: Seq<Option<Seq<char>>>) -> Option<Seq<char>>
    decreases values.len(),
{
    if values.len() == 0 {
        None
    } else {
        match values[0] {
            Some(v) => if trim(v).len() > 0 {
                Some(trim(v))
            } else {
                first_non_blank_text(values.drop_first())
            },
            None => first_non_blank_text(values.drop_first()),
        }
    }
}

/// The views of optional strings.
pub open spec fn optional_views(values: Seq<Option<&str>>) -> Seq<Option<Seq<char>>> {
    values.map_values(|v: Option<&str>| match v {
        Some(s) => Some(s@),
        None => None,
    })
}

/// The first value that is present and not blank, trimmed.
pub fn first_non_blank(values: &[Option<&str>]) -> (r: Option<String>)
    ensures
        match r {
            Some(s) => first_non_blank_text(optional_views(values@)) == Some(s@),
            None => first_non_blank_text(optional_views(values@)) is None,
        },
{
    let mut i: usize = 0;
    assert(optional_views(values@).skip(0) =~= optional_views(values@));
    while i < values.len()
        invariant
            i <= values@.len(),
            first_non_blank_text(optional_views(values@)) == first_non_blank_text(
                optional_views(values@).skip(i as int),
            ),
        decreases values@.len() - i,
    {
        let ghost rest = optional_views(values@).skip(i as int);
        assert(rest.drop_first() =~= optional_views(values@).skip(i + 1));
        if let Some(v) = values[i] {
            if let Some(t) = non_blank(v) {
                return Some(to_owned_string(t));
            }
        }
        i = i + 1;
    }
    None
}

/// `value` trimmed, or `--` when it is absent or blank.
pub fn optional_text(value: Option<&str>) -> (r: String)
    ensures
        r@ == (match value {
            Some(v) => if trim(v@).len() > 0 {
                trim(v@)
            } else {
                "--"@
            },
            None => "--"@,
        }),
{
    match value {
        Some(v) => match non_blank(v) {
            Some(t) => to_owned_string(t),
            None => to_owned_string("--"),
        },
        None => to_owned_string("--"),
    }
}

/// The values separated by ` · `, or `--` when there are none.
pub fn joined_or_placeholder(values: Vec<String>) -> (r: String)
    ensures
        r@ == (if values@.len() == 0 {
            "--"@
        } else {
            join(string_views(values@), " · "@)
        }),
{
    if values.len() == 0 {
        to_owned_string("--")
    } else {
        join_strings(values.as_slice(), " · ")
    }
}

} // verus!

verus! {

/// Whether the setup of the player car is known.
#[derive(Debug, Clone, PartialEq, Eq)]
pub enum SetupDataStatus {
    Waiting,
    Missing,
    Available,
    ParseError(String),
}

/// One row of a setup section: a group heading or a labelled value.
#[derive(Debug, Clone, PartialEq, Eq)]
pub enum SetupRow {
    Group { label: String, depth: usize },
    Value { label: String, value: String, depth: usize },
}

/// A titled section of setup rows, shown as one card.
#[derive(Debug, Clone, PartialEq, Eq)]
pub struct SetupSection {
    pub key: String,
    pub title: String,
    pub rows: Vec<SetupRow>,
}

/// What the Car Setup screen shows of the player car.
#[derive(Debug, Clone, PartialEq, Eq)]
pub struct SetupViewData {
    pub status: SetupDataStatus,
    pub car_name: Option<String>,
    pub car_path: Option<String>,
    pub setup_name: Option<String>,
    pub load_type: Option<String>,
    pub modified: Option<bool>,
    pub passed_tech: Option<bool>,
    pub fixed_setup: Option<bool>,
    pub update_count: Option<String>,
    pub vehicle_sections: Vec<SetupSection>,
    pub sections: Vec<SetupSection>,
}

/// The key of the summary card.
pub open spec fn summary_card_key() -> Seq<char> {
    "summary"@
}

/// The key of the setup status card.
pub open spec fn status_card_key() -> Seq<char> {
    "status"@
}

/// The keys of sections.
pub open spec fn section_keys(sections: Seq<SetupSection>) -> Seq<Seq<char>> {
    sections.map_values(|s: SetupSection| s.key@)
}

impl SetupViewData {
    /// Whether nothing is known yet: waiting for the session information.
    pub open spec fn is_initial(self) -> bool {
        &&& self.status == SetupDataStatus::Waiting
        &&& self.car_name is None
        &&& self.car_path is None
        &&& self.setup_name is None
        &&& self.load_type is None
        &&& self.modified is None
        &&& self.passed_tech is None
        &&& self.fixed_setup is None
        &&& self.update_count is None
        &&& self.vehicle_sections@.len() == 0
        &&& self.sections@.len() == 0
    }
}

impl Default for SetupViewData {
    fn default() -> (r: Self)
        ensures
            r.status == SetupDataStatus::Waiting,
            r.vehicle_sections@.len() == 0,
            r.sections@.len() == 0,
            r.is_initial(),
    {
        SetupViewData {
            status: SetupDataStatus::Waiting,
            car_name: None,
            car_path: None,
            setup_name: None,
            load_type: None,
            modified: None,
            passed_tech: None,
            fixed_setup: None,
            update_count: None,
            vehicle_sections: Vec::new(),
            sections: Vec::new(),
        }
    }
}

impl SetupViewData {
    /// The view of a session whose information could not be parsed.
    pub fn parse_error(error: String) -> (r: Self)
        ensures
            r.status matches SetupDataStatus::ParseError(e) && e@ == error@,
            r.vehicle_sections@.len() == 0,
            r.sections@.len() == 0,
    {
        let mut data = SetupViewData::default();
        data.status = SetupDataStatus::ParseError(error);
        data
    }

    /// The keys of the cards of the screen: the summary, the vehicle sections,
    /// then the setup sections when setup data is available, else the status card.
    pub open spec fn spec_card_keys(self) -> Seq<Seq<char>> {
        seq![summary_card_key()] + section_keys(self.vehicle_sections@) + (if self.status
            == SetupDataStatus::Available && self.sections@.len() > 0 {
            section_keys(self.sections@)
        } else {
            seq![status_card_key()]
        })
    }

    /// The keys of the cards of the screen, in their natural order.
    pub fn card_keys(&self) -> (r: Vec<String>)
        ensures
            string_views(r@) == self.spec_card_keys(),
    {
        let mut keys: Vec<String> = Vec::new();
        keys.push(to_owned_string("summary"));
        append_section_keys(&mut keys, &self.vehicle_sections);
        let available = match self.status {
            SetupDataStatus::Available => true,
            _ => false,
        };
        if available && self.sections.len() > 0 {
            append_section_keys(&mut keys, &self.sections);
        } else {
            let ghost prev = keys@;
            keys.push(to_owned_string("status"));
            assert(string_views(keys@) =~= string_views(prev).push("status"@));
        }
        assert(string_views(keys@) =~= self.spec_card_keys());
        keys
    }

    /// All sections, vehicle sections first.
    pub open spec fn all_sections(self) -> Seq<SetupSection> {
        self.vehicle_sections@ + self.sections@
    }

    /// The first section with key `key`.
    pub open spec fn spec_section(self, key: Seq<char>) -> Option<SetupSection> {
        let all = self.all_sections();
        if exists|i: int| 0 <= i < all.len() && (#[trigger] all[i]).key@ == key {
            Some(
                all[choose|i: int|
                    0 <= i < all.len() && (#[trigger] all[i]).key@ == key && forall|j: int|
                        0 <= j < i ==> all[j].key@ != key],
            )
        } else {
            None
        }
    }

    /// The first section with key `key`.
    pub fn section(&self, key: &str) -> (r: Option<&SetupSection>)
        ensures
            match r {
                Some(s) => self.spec_section(key@) == Some(*s),
                None => self.spec_section(key@) is None,
            },
    {
        let ghost all = self.all_sections();
        let mut i: usize = 0;
        while i < self.vehicle_sections.len()
            invariant
                i <= self.vehicle_sections@.len(),
                all == self.all_sections(),
                forall|j: int| 0 <= j < i ==> all[j].key@ != key@,
            decreases self.vehicle_sections@.len() - i,
        {
            if str_eq(self.vehicle_sections[i].key.as_str(), key) {
                proof {
                    assert(all[i as int] == self.vehicle_sections@[i as int]);
                    lemma_first_section(all, i as int, key@);
                }
                return Some(&self.vehicle_sections[i]);
            }
            assert(all[i as int] == self.vehicle_sections@[i as int]);
            i = i + 1;
        }
        let offset = self.vehicle_sections.len();
        let mut k: usize = 0;
        while k < self.sections.len()
            invariant
                k <= self.sections@.len(),
                offset == self.vehicle_sections@.len(),
                all == self.all_sections(),
                forall|j: int| 0 <= j < offset + k ==> all[j].key@ != key@,
            decreases self.sections@.len() - k,
        {
            if str_eq(self.sections[k].key.as_str(), key) {
                proof {
                    assert(all[offset + k] == self.sections@[k as int]);
                    lemma_first_section(all, offset + k, key@);
                }
                return Some(&self.sections[k]);
            }
            assert(all[offset + k] == self.sections@[k as int]);
            k = k + 1;
        }
        None
    }

    /// The relative height of a card: fixed for the summary and status cards,
    /// the row count plus two for a section.
    pub fn card_weight(&self, key: &str) -> (r: usize)
        ensures
            r == (if key@ == summary_card_key() {
                8
            } else if key@ == status_card_key() {
                4
            } else {
                match self.spec_section(key@) {
                    Some(s) => if s.rows@.len() + 2 <= usize::MAX {
                        (s.rows@.len() + 2) as usize
                    } else {
                        usize::MAX
                    },
                    None => 2,
                }
            }),
    {
        if str_eq(key, "summary") {
            8
        } else if str_eq(key, "status") {
            4
        } else {
            match self.section(key) {
                Some(section) => section.rows.len().saturating_add(2),
                None => 2,
            }
        }
    }

    /// Whether the card spans the whole width of the screen.
    pub fn card_is_full_width(key: &str) -> (r: bool)
        ensures
            r == (key@ == summary_card_key() || key@ == status_card_key()),
    {
        str_eq(key, "summary") || str_eq(key, "status")
    }
}

proof fn lemma_first_section(all: Seq<SetupSection>, i: int, key: Seq<char>)
    requires
        0 <= i < all.len(),
        all[i].key@ == key,
        forall|j: int| 0 <= j < i ==> all[j].key@ != key,
    ensures
        (choose|k: int|
            0 <= k < all.len() && (#[trigger] all[k]).key@ == key && forall|j: int|
                0 <= j < k ==> all[j].key@ != key) == i,
{
    let k = choose|k: int|
        0 <= k < all.len() && (#[trigger] all[k]).key@ == key && forall|j: int|
            0 <= j < k ==> all[j].key@ != key;
    assert(0 <= i < all.len() && all[i].key@ == key && forall|j: int| 0 <= j < i ==> all[j].key@ != key);
    if k < i {
        assert(all[k].key@ != key);
    }
    if k > i {
        assert(all[i].key@ != key);
    }
}

fn append_section_keys(keys: &mut Vec<String>, sections: &Vec<SetupSection>)
    ensures
        string_views(final(keys)@) == string_views(old(keys)@) + section_keys(sections@),
{
    let ghost start = string_views(keys@);
    let mut i: usize = 0;
    while i < sections.len()
        invariant
            i <= sections@.len(),
            string_views(keys@) == start + section_keys(sections@).take(i as int),
        decreases sections@.len() - i,
    {
        let key = sections[i].key.clone();
        let ghost prev = keys@;
        let ghost kv = key@;
        keys.push(key);
        assert(string_views(keys@) =~= string_views(prev).push(kv));
        assert(section_keys(sections@).take(i + 1) =~= section_keys(sections@).take(i as int).push(sections@[i as int].key@));
        i = i + 1;
    }
    assert(section_keys(sections@).take(sections@.len() as int) =~= section_keys(sections@));
}

} // verus!
