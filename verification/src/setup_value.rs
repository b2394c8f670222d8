//! The car setup that iRacing publishes in its session information, and how
//! it is laid out as titled sections of labelled rows.
use vstd::prelude::*;
use crate::setup::{SetupRow, SetupSection, humanize_key, humanized, non_blank};
use crate::text::{concat_str, decimal, join, to_owned_string, trim, usize_to_string};

verus! {

broadcast use vstd::std_specs::vec::group_vec_axioms;

/// A YAML value of the car setup, as the session information holds it.
#[derive(Debug)]
pub enum SetupValue {
    Null,
    Bool(bool),
    /// A number, as YAML writes it.
    Number(String),
    String(String),
    Sequence(Vec<SetupValue>),
    Mapping(Vec<(SetupValue, SetupValue)>),
    Tagged(Box<SetupValue>),
}

/// A row of a section, as plain values.
pub enum RowView {
    Group { label: Seq<char>, depth: nat },
    Value { label: Seq<char>, value: Seq<char>, depth: nat },
}

/// The plain form of a row.
pub open spec fn row_view(row: SetupRow) -> RowView {
    match row {
        SetupRow::Group { label, depth } => RowView::Group { label: label@, depth: depth as nat },
        SetupRow::Value { label, value, depth } => RowView::Value {
            label: label@,
            value: value@,
            depth: depth as nat,
        },
    }
}

/// The plain form of rows.
pub open spec fn rows_view(rows: Seq<SetupRow>) -> Seq<RowView> {
    rows.map_values(|r: SetupRow| row_view(r))
}

/// The text shown for a missing or blank value.
pub open spec fn placeholder() -> Seq<char> {
    "--"@
}

/// The text of a scalar value: `--` for null or blank, `Yes`/`No`, the
/// number as written, or the trimmed string; `None` for a collection.
pub open spec fn scalar_text(value: SetupValue) -> Option<Seq<char>>
    decreases value,
{
    match value {
        SetupValue::Null => Some(placeholder()),
        SetupValue::Bool(b) => Some(
            if b {
                "Yes"@
            } else {
                "No"@
            },
        ),
        SetupValue::Number(n) => Some(n@),
        SetupValue::String(s) => Some(
            if trim(s@).len() > 0 {
                trim(s@)
            } else {
                placeholder()
            },
        ),
        SetupValue::Tagged(inner) => scalar_text(*inner),
        _ => None,
    }
}

/// `value` without its tags.
pub open spec fn untagged(value: SetupValue) -> SetupValue
    decreases value,
{
    match value {
        SetupValue::Tagged(inner) => untagged(*inner),
        _ => value,
    }
}

/// The text of a mapping key: its scalar text, or `Value`.
pub open spec fn key_text(key: SetupValue) -> Seq<char> {
    match scalar_text(key) {
        Some(t) => t,
        None => "Value"@,
    }
}

/// The scalar texts of the first `n` values of `values`, when all of them
/// are scalars.
pub open spec fn scalar_texts(values: Seq<SetupValue>, n: nat) -> Option<Seq<Seq<char>>>
    decreases n,
{
    if n == 0 || n > values.len() {
        if n == 0 {
            Some(Seq::empty())
        } else {
            None
        }
    } else {
        match (scalar_texts(values, (n - 1) as nat), scalar_text(values[n - 1])) {
            (Some(prev), Some(t)) => Some(prev.push(t)),
            _ => None,
        }
    }
}

/// The rows of a value labelled `label` at `depth`: one row for a scalar, an
/// empty mapping or a list of scalars; otherwise a group row followed by the
/// rows of its contents one level deeper.
pub open spec fn labeled_rows(label: Seq<char>, value: SetupValue, depth: nat) -> Seq<RowView>
    decreases value, 2nat,
{
    match value {
        SetupValue::Tagged(inner) => labeled_rows(label, *inner, depth),
        SetupValue::Mapping(m) => if m@.len() == 0 {
            seq![RowView::Value { label, value: placeholder(), depth }]
        } else {
            seq![RowView::Group { label, depth }] + collection_rows(value, depth + 1)
        },
        SetupValue::Sequence(s) => match scalar_texts(s@, s@.len()) {
            Some(texts) => seq![RowView::Value {
                label,
                value: if texts.len() == 0 { placeholder() } else { join(texts, ", "@) },
                depth,
            }],
            None => seq![RowView::Group { label, depth }] + collection_rows(value, depth + 1),
        },
        _ => seq![RowView::Value { label, value: scalar_text(value).unwrap(), depth }],
    }
}

/// The rows of the contents of a collection at `depth`: each mapping entry
/// labelled by its humanized key, each list item labelled `Item n`.
pub open spec fn collection_rows(value: SetupValue, depth: nat) -> Seq<RowView>
    decreases value, 1nat,
{
    match value {
        SetupValue::Tagged(inner) => collection_rows(*inner, depth),
        SetupValue::Mapping(m) => mapping_rows(m, m@.len(), depth),
        SetupValue::Sequence(s) => sequence_rows(s, s@.len(), depth),
        _ => seq![RowView::Value { label: "Value"@, value: scalar_text(value).unwrap(), depth }],
    }
}

/// The rows of the first `n` entries of a mapping.
pub open spec fn mapping_rows(m: Vec<(SetupValue, SetupValue)>, n: nat, depth: nat) -> Seq<RowView>
    decreases m, 0nat, n,
{
    if n == 0 || n > m@.len() {
        Seq::empty()
    } else {
        mapping_rows(m, (n - 1) as nat, depth) + labeled_rows(
            humanized(key_text(m[n - 1].0)),
            m[n - 1].1,
            depth,
        )
    }
}

/// The label of list item `i`, counted from 1.
pub open spec fn item_label(i: nat) -> Seq<char> {
    "Item "@ + decimal(i + 1)
}

/// The rows of the first `n` items of a list.
pub open spec fn sequence_rows(s: Vec<SetupValue>, n: nat, depth: nat) -> Seq<RowView>
    decreases s, 0nat, n,
{
    if n == 0 || n > s@.len() {
        Seq::empty()
    } else {
        sequence_rows(s, (n - 1) as nat, depth) + labeled_rows(item_label((n - 1) as nat), s[n - 1], depth)
    }
}

/// How deeply collections nest inside `value`.
pub open spec fn height(value: SetupValue) -> nat
    decreases value, 1nat,
{
    match value {
        SetupValue::Tagged(inner) => height(*inner),
        SetupValue::Mapping(m) => 1 + entries_height(m, m@.len()),
        SetupValue::Sequence(s) => 1 + items_height(s, s@.len()),
        _ => 0,
    }
}

/// The greatest height of the values of the first `n` entries.
pub open spec fn entries_height(m: Vec<(SetupValue, SetupValue)>, n: nat) -> nat
    decreases m, 0nat, n,
{
    if n == 0 || n > m@.len() {
        0
    } else {
        let prev = entries_height(m, (n - 1) as nat);
        let h = height(m[n - 1].1);
        if h > prev {
            h
        } else {
            prev
        }
    }
}

/// The greatest height of the first `n` items.
pub open spec fn items_height(s: Vec<SetupValue>, n: nat) -> nat
    decreases s, 0nat, n,
{
    if n == 0 || n > s@.len() {
        0
    } else {
        let prev = items_height(s, (n - 1) as nat);
        let h = height(s[n - 1]);
        if h > prev {
            h
        } else {
            prev
        }
    }
}

proof fn lemma_entries_height(m: Vec<(SetupValue, SetupValue)>, n: nat, i: int)
    requires
        0 <= i < n <= m@.len(),
    ensures
        height(m[i].1) <= entries_height(m, n),
    decreases n,
{
    if i < n - 1 {
        lemma_entries_height(m, (n - 1) as nat, i);
    }
}

proof fn lemma_items_height(s: Vec<SetupValue>, n: nat, i: int)
    requires
        0 <= i < n <= s@.len(),
    ensures
        height(s[i]) <= items_height(s, n),
    decreases n,
{
    if i < n - 1 {
        lemma_items_height(s, (n - 1) as nat, i);
    }
}

/// The text of a scalar value; `None` for a collection.
pub fn scalar_value(value: &SetupValue) -> (r: Option<String>)
    ensures
        match r {
            Some(t) => scalar_text(*value) == Some(t@),
            None => scalar_text(*value) is None,
        },
    decreases value,
{
    match value {
        SetupValue::Null => Some(to_owned_string("--")),
        SetupValue::Bool(b) => Some(to_owned_string(if *b { "Yes" } else { "No" })),
        SetupValue::Number(n) => Some(to_owned_string(n.as_str())),
        SetupValue::String(s) => match non_blank(s.as_str()) {
            Some(t) => Some(to_owned_string(t)),
            None => Some(to_owned_string("--")),
        },
        SetupValue::Tagged(inner) => scalar_value(inner),
        _ => None,
    }
}

/// The text of a mapping key.
pub fn yaml_key(value: &SetupValue) -> (r: String)
    ensures
        r@ == key_text(*value),
{
    match scalar_value(value) {
        Some(t) => t,
        None => to_owned_string("Value"),
    }
}

/// `value` without its tags.
pub fn untagged_value(value: &SetupValue) -> (r: &SetupValue)
    ensures
        *r == untagged(*value),
    decreases value,
{
    match value {
        SetupValue::Tagged(inner) => untagged_value(inner),
        _ => value,
    }
}

/// Whether `value` is a mapping or a list.
pub fn is_collection(value: &SetupValue) -> (r: bool)
    ensures
        r == (untagged(*value) is Mapping || untagged(*value) is Sequence),
{
    match untagged_value(value) {
        SetupValue::Mapping(_) | SetupValue::Sequence(_) => true,
        _ => false,
    }
}

/// The scalar texts of `values`, when all of them are scalars.
fn all_scalar_values(values: &Vec<SetupValue>) -> (r: Option<Vec<String>>)
    ensures
        match r {
            Some(v) => scalar_texts(values@, values@.len()) == Some(crate::text::string_views(v@)),
            None => scalar_texts(values@, values@.len()) is None,
        },
{
    let mut texts: Vec<String> = Vec::new();
    let mut i: usize = 0;
    while i < values.len()
        invariant
            i <= values@.len(),
            scalar_texts(values@, i as nat) == Some(crate::text::string_views(texts@)),
        decreases values@.len() - i,
    {
        match scalar_value(&values[i]) {
            Some(t) => {
                let ghost prev = texts@;
                texts.push(t);
                assert(crate::text::string_views(texts@) =~= crate::text::string_views(prev).push(t@));
            },
            None => {
                proof {
                    lemma_scalar_texts_stop(values@, i as nat, values@.len());
                }
                return None;
            },
        }
        i = i + 1;
    }
    Some(texts)
}

proof fn lemma_scalar_texts_stop(values: Seq<SetupValue>, i: nat, n: nat)
    requires
        i < n <= values.len(),
        scalar_text(values[i as int]) is None,
    ensures
        scalar_texts(values, n) is None,
    decreases n,
{
    if n > i + 1 {
        lemma_scalar_texts_stop(values, i, (n - 1) as nat);
    }
}

/// Appends the rows of `value` labelled `label` at `depth`.
pub fn append_labeled_value(rows: &mut Vec<SetupRow>, label: String, value: &SetupValue, depth: usize)
    requires
        depth + height(*value) <= usize::MAX,
    ensures
        rows_view(final(rows)@) == rows_view(old(rows)@) + labeled_rows(label@, *value, depth as nat),
    decreases value, 2nat,
{
    let ghost before = rows@;
    match value {
        SetupValue::Tagged(inner) => {
            append_labeled_value(rows, label, inner, depth);
        },
        SetupValue::Mapping(m) => {
            if m.len() == 0 {
                rows.push(SetupRow::Value { label, value: to_owned_string("--"), depth });
                assert(rows_view(rows@) =~= rows_view(before) + labeled_rows(label@, *value, depth as nat));
            } else {
                let ghost l = label@;
                rows.push(SetupRow::Group { label, depth });
                let ghost mid = rows@;
                assert(rows_view(mid) =~= rows_view(before) + seq![RowView::Group { label: l, depth: depth as nat }]);
                append_collection_contents(rows, value, depth + 1);
                assert(rows_view(rows@) =~= rows_view(before) + labeled_rows(l, *value, depth as nat));
            }
        },
        SetupValue::Sequence(s) => {
            match all_scalar_values(s) {
                Some(texts) => {
                    let text = if texts.len() == 0 {
                        to_owned_string("--")
                    } else {
                        crate::text::join_strings(texts.as_slice(), ", ")
                    };
                    rows.push(SetupRow::Value { label, value: text, depth });
                    assert(rows_view(rows@) =~= rows_view(before) + labeled_rows(label@, *value, depth as nat));
                },
                None => {
                    let ghost l = label@;
                    rows.push(SetupRow::Group { label, depth });
                    let ghost mid = rows@;
                    assert(rows_view(mid) =~= rows_view(before) + seq![RowView::Group { label: l, depth: depth as nat }]);
                    append_collection_contents(rows, value, depth + 1);
                    assert(rows_view(rows@) =~= rows_view(before) + labeled_rows(l, *value, depth as nat));
                },
            }
        },
        _ => {
            let text = match scalar_value(value) {
                Some(t) => t,
                None => to_owned_string("--"),
            };
            rows.push(SetupRow::Value { label, value: text, depth });
            assert(rows_view(rows@) =~= rows_view(before) + labeled_rows(label@, *value, depth as nat));
        },
    }
}

/// Appends the rows of the contents of `value` at `depth`.
pub fn append_collection_contents(rows: &mut Vec<SetupRow>, value: &SetupValue, depth: usize)
    requires
        depth + height(*value) <= usize::MAX + 1,
    ensures
        rows_view(final(rows)@) == rows_view(old(rows)@) + collection_rows(*value, depth as nat),
    decreases value, 1nat,
{
    let ghost before = rows@;
    match value {
        SetupValue::Tagged(inner) => {
            append_collection_contents(rows, inner, depth);
        },
        SetupValue::Mapping(m) => {
            let mut i: usize = 0;
            while i < m.len()
                invariant
                    i <= m@.len(),
                    *value == SetupValue::Mapping(*m),
                    depth + height(*value) <= usize::MAX + 1,
                    rows_view(rows@) == rows_view(before) + mapping_rows(*m, i as nat, depth as nat),
                decreases m@.len() - i,
            {
                proof {
                    lemma_entries_height(*m, m@.len(), i as int);
                }
                let label = humanize_key(yaml_key(&m[i].0).as_str());
                append_labeled_value(rows, label, &m[i].1, depth);
                assert(rows_view(before) + mapping_rows(*m, (i + 1) as nat, depth as nat) =~= rows_view(before)
                    + mapping_rows(*m, i as nat, depth as nat) + labeled_rows(
                    humanized(key_text(m[i as int].0)),
                    m[i as int].1,
                    depth as nat,
                ));
                i = i + 1;
            }
        },
        SetupValue::Sequence(s) => {
            let mut i: usize = 0;
            while i < s.len()
                invariant
                    i <= s@.len(),
                    *value == SetupValue::Sequence(*s),
                    depth + height(*value) <= usize::MAX + 1,
                    rows_view(rows@) == rows_view(before) + sequence_rows(*s, i as nat, depth as nat),
                decreases s@.len() - i,
            {
                proof {
                    lemma_items_height(*s, s@.len(), i as int);
                }
                let label = concat_str(to_owned_string("Item "), usize_to_string(i + 1).as_str());
                assert(label@ == item_label(i as nat));
                append_labeled_value(rows, label, &s[i], depth);
                assert(rows_view(before) + sequence_rows(*s, (i + 1) as nat, depth as nat) =~= rows_view(before)
                    + sequence_rows(*s, i as nat, depth as nat) + labeled_rows(item_label(i as nat), s[i as int], depth as nat));
                i = i + 1;
            }
        },
        _ => {
            let text = match scalar_value(value) {
                Some(t) => t,
                None => to_owned_string("--"),
            };
            rows.push(SetupRow::Value { label: to_owned_string("Value"), value: text, depth });
            assert(rows_view(rows@) =~= rows_view(before) + collection_rows(*value, depth as nat));
        },
    }
}

/// A section, as plain values.
pub struct SectionView {
    pub key: Seq<char>,
    pub title: Seq<char>,
    pub rows: Seq<RowView>,
}

/// The plain form of a section.
pub open spec fn section_view(section: SetupSection) -> SectionView {
    SectionView { key: section.key@, title: section.title@, rows: rows_view(section.rows@) }
}

/// The plain form of sections.
pub open spec fn sections_view(sections: Seq<SetupSection>) -> Seq<SectionView> {
    sections.map_values(|s: SetupSection| section_view(s))
}

/// Whether `key` names the update counter of the setup.
pub open spec fn is_update_count_key(key: Seq<char>) -> bool {
    crate::comparison::same_ignoring_case(key, "UpdateCount"@)
}

/// The general rows and the collection sections of the first `n` entries of
/// a setup mapping; the update counter is left out.
pub open spec fn setup_fold(m: Vec<(SetupValue, SetupValue)>, n: nat) -> (Seq<RowView>, Seq<SectionView>)
    decreases n,
{
    if n == 0 || n > m@.len() {
        (Seq::empty(), Seq::empty())
    } else {
        let (general, sections) = setup_fold(m, (n - 1) as nat);
        let raw = key_text(m[n - 1].0);
        let value = m[n - 1].1;
        if is_update_count_key(raw) {
            (general, sections)
        } else if untagged(value) is Mapping || untagged(value) is Sequence {
            (general, sections.push(SectionView {
                key: "setup:section:"@ + raw,
                title: humanized(raw),
                rows: collection_rows(value, 0),
            }))
        } else {
            (general + labeled_rows(humanized(raw), value, 0), sections)
        }
    }
}

/// The sections of a car setup: a setup that is no mapping is one `Setup`
/// section; otherwise each collection is a section of its own, and the
/// scalars before, between and after them form a `General` section first.
pub open spec fn setup_sections_of(setup: SetupValue) -> Seq<SectionView> {
    match untagged(setup) {
        SetupValue::Mapping(m) => {
            let (general, sections) = setup_fold(m, m@.len());
            if general.len() == 0 {
                sections
            } else {
                seq![SectionView { key: "setup:general"@, title: "General"@, rows: general }] + sections
            }
        },
        _ => seq![SectionView {
            key: "setup:value"@,
            title: "Setup"@,
            rows: labeled_rows("Value"@, untagged(setup), 0),
        }],
    }
}

proof fn lemma_untagged_height(value: SetupValue)
    ensures
        height(untagged(value)) == height(value),
    decreases value,
{
    if let SetupValue::Tagged(inner) = value {
        lemma_untagged_height(*inner);
    }
}

/// The sections of a car setup.
pub fn setup_sections(setup: &SetupValue) -> (r: Vec<SetupSection>)
    requires
        height(*setup) <= usize::MAX,
    ensures
        sections_view(r@) == setup_sections_of(*setup),
{
    proof {
        lemma_untagged_height(*setup);
    }
    let value = untagged_value(setup);
    let m = match value {
        SetupValue::Mapping(m) => m,
        _ => {
            let mut rows: Vec<SetupRow> = Vec::new();
            append_labeled_value(&mut rows, to_owned_string("Value"), value, 0);
            assert(rows_view(rows@) =~= labeled_rows("Value"@, *value, 0));
            let sections = vec![SetupSection {
                key: to_owned_string("setup:value"),
                title: to_owned_string("Setup"),
                rows,
            }];
            assert(sections_view(sections@) =~= setup_sections_of(*setup));
            return sections;
        },
    };
    let mut general_rows: Vec<SetupRow> = Vec::new();
    let mut sections: Vec<SetupSection> = Vec::new();
    let mut i: usize = 0;
    while i < m.len()
        invariant
            i <= m@.len(),
            height(SetupValue::Mapping(*m)) <= usize::MAX,
            (rows_view(general_rows@), sections_view(sections@)) == setup_fold(*m, i as nat),
        decreases m@.len() - i,
    {
        proof {
            lemma_entries_height(*m, m@.len(), i as int);
        }
        let raw_key = yaml_key(&m[i].0);
        let value = &m[i].1;
        if crate::comparison::eq_ignore_ascii_case(raw_key.as_str(), "UpdateCount") {
            i = i + 1;
            continue;
        }
        let label = humanize_key(raw_key.as_str());
        if is_collection(value) {
            let mut rows: Vec<SetupRow> = Vec::new();
            append_collection_contents(&mut rows, value, 0);
            assert(rows_view(rows@) =~= collection_rows(*value, 0));
            let ghost prev = sections@;
            sections.push(SetupSection {
                key: concat_str(to_owned_string("setup:section:"), raw_key.as_str()),
                title: label,
                rows,
            });
            assert(sections_view(sections@) =~= sections_view(prev).push(sections_view(sections@).last()));
        } else {
            append_labeled_value(&mut general_rows, label, value, 0);
        }
        i = i + 1;
    }
    if general_rows.len() > 0 {
        let ghost prev = sections@;
        sections.insert(
            0,
            SetupSection {
                key: to_owned_string("setup:general"),
                title: to_owned_string("General"),
                rows: general_rows,
            },
        );
        assert(sections_view(sections@) =~= seq![sections_view(sections@)[0]] + sections_view(prev));
    }
    sections
}

/// The index of the first of the first `n` entries that holds the update
/// counter as a scalar.
pub open spec fn update_count_entry(m: Vec<(SetupValue, SetupValue)>, n: nat) -> Option<int>
    decreases n,
{
    if n == 0 || n > m@.len() {
        None
    } else {
        match update_count_entry(m, (n - 1) as nat) {
            Some(i) => Some(i),
            None => if is_update_count_key(key_text(m[n - 1].0)) && scalar_text(m[n - 1].1) is Some {
                Some(n - 1)
            } else {
                None
            },
        }
    }
}

/// The update counter of a car setup: the scalar text of the first
/// `UpdateCount` entry of the mapping, in any ASCII case.
pub open spec fn update_count_of(setup: SetupValue) -> Option<Seq<char>> {
    match untagged(setup) {
        SetupValue::Mapping(m) => match update_count_entry(m, m@.len()) {
            Some(i) => scalar_text(m[i].1),
            None => None,
        },
        _ => None,
    }
}

/// The update counter of a car setup.
pub fn setup_update_count(setup: &SetupValue) -> (r: Option<String>)
    ensures
        match r {
            Some(t) => update_count_of(*setup) == Some(t@),
            None => update_count_of(*setup) is None,
        },
{
    let value = untagged_value(setup);
    let m = match value {
        SetupValue::Mapping(m) => m,
        _ => {
            return None;
        },
    };
    let mut i: usize = 0;
    while i < m.len()
        invariant
            i <= m@.len(),
            untagged(*setup) == SetupValue::Mapping(*m),
            update_count_entry(*m, i as nat) is None,
        decreases m@.len() - i,
    {
        if crate::comparison::eq_ignore_ascii_case(yaml_key(&m[i].0).as_str(), "UpdateCount") {
            match scalar_value(&m[i].1) {
                Some(t) => {
                    proof {
                        assert(update_count_entry(*m, (i + 1) as nat) == Some(i as int));
                        lemma_update_count_entry_found(*m, i as nat, m@.len());
                        assert(untagged(*setup) == SetupValue::Mapping(*m));
                    }
                    return Some(t);
                },
                None => {},
            }
        }
        i = i + 1;
    }
    None
}

proof fn lemma_update_count_entry_found(m: Vec<(SetupValue, SetupValue)>, i: nat, n: nat)
    requires
        i < n <= m@.len(),
        update_count_entry(m, i) is None,
        update_count_entry(m, i + 1) == Some(i as int),
    ensures
        update_count_entry(m, n) == Some(i as int),
    decreases n,
{
    if n > i + 1 {
        lemma_update_count_entry_found(m, i, (n - 1) as nat);
    }
}

} // verus!
