//! Side-by-side comparison of the four wheel corners in a setup section.
//!
//! A section whose root entries include consecutive groups named after the
//! corners (`LeftFront`, `RF`, ...) is shown with those groups merged into one
//! table, one column per corner, when that can be done without losing rows.
use vstd::prelude::*;
use crate::setup::{SetupCorner, SetupRow, SetupSection, alphanumeric_lower, corner_alias, setup_corner};
use crate::setup_value::{RowView, row_view, rows_view};
use crate::text::{concat_str, join, join_strings, str_eq, string_views};

verus! {

broadcast use vstd::std_specs::vec::group_vec_axioms;

/// The nesting depth of a row.
pub open spec fn row_depth(row: RowView) -> nat {
    match row {
        RowView::Group { depth, .. } => depth,
        RowView::Value { depth, .. } => depth,
    }
}

/// The nesting depth of a setup row.
pub fn setup_row_depth(row: &SetupRow) -> (r: usize)
    ensures
        r == row_depth(row_view(*row)),
{
    match row {
        SetupRow::Group { depth, .. } => *depth,
        SetupRow::Value { depth, .. } => *depth,
    }
}

/// Whether row `i` sits where a tree of rows allows it: a nested row follows
/// another row, at most one level deeper than it, and only a group may be
/// followed by a deeper row.
pub open spec fn nests_at(rows: Seq<RowView>, i: int) -> bool {
    row_depth(rows[i]) > 0 ==> {
        &&& i > 0
        &&& row_depth(rows[i]) <= row_depth(rows[i - 1]) + 1
        &&& row_depth(rows[i]) > row_depth(rows[i - 1]) ==> rows[i - 1] is Group
    }
}

/// Whether the rows form a forest of root entries.
pub open spec fn nests_well(rows: Seq<RowView>) -> bool {
    forall|i: int| 0 <= i < rows.len() ==> nests_at(rows, i)
}

/// A root entry of a section: the rows `start..end`, whose first row is at
/// depth zero and whose other rows are nested below it.
#[derive(Debug, Clone, Copy, PartialEq, Eq)]
pub struct RootSetupEntry {
    pub start: usize,
    pub end: usize,
    pub corner: Option<SetupCorner>,
}

/// The corner that the root row at `start` names, when it is a group.
pub open spec fn entry_corner(rows: Seq<RowView>, start: int) -> Option<SetupCorner> {
    match rows[start] {
        RowView::Group { label, .. } => corner_alias(alphanumeric_lower(label)),
        RowView::Value { .. } => None,
    }
}

/// Whether each entry ends where the next one starts.
pub open spec fn contiguous(entries: Seq<RootSetupEntry>) -> bool {
    forall|k: int|
        #![trigger entries[k]]
        0 < k < entries.len() ==> entries[k - 1].end == entries[k].start
}

/// Whether `entries` cut `rows` at each row of depth zero, in order.
pub open spec fn splits_at_roots(rows: Seq<RowView>, entries: Seq<RootSetupEntry>) -> bool {
    &&& (entries.len() == 0 <==> rows.len() == 0)
    &&& entries.len() > 0 ==> entries[0].start == 0 && entries.last().end == rows.len()
    &&& forall|k: int|
        #![trigger entries[k]]
        0 <= k < entries.len() ==> {
            &&& entries[k].start < entries[k].end <= rows.len()
            &&& row_depth(rows[entries[k].start as int]) == 0
            &&& entries[k].corner == entry_corner(rows, entries[k].start as int)
            &&& forall|i: int| entries[k].start < i < entries[k].end ==> row_depth(rows[i]) > 0
        }
    &&& contiguous(entries)
}

/// The root entries of `rows`, or `None` when the rows do not nest as a tree.
pub fn root_setup_entries(rows: &[SetupRow]) -> (r: Option<Vec<RootSetupEntry>>)
    ensures
        r is Some <==> nests_well(rows_view(rows@)),
        r matches Some(es) ==> splits_at_roots(rows_view(rows@), es@),
{
    let ghost v = rows_view(rows@);
    let mut entries: Vec<RootSetupEntry> = Vec::new();
    let mut i: usize = 0;
    while i < rows.len()
        invariant
            i <= rows@.len(),
            v == rows_view(rows@),
            forall|j: int| 0 <= j < i ==> nests_at(v, j),
            splits_at_roots(v.take(i as int), entries@),
        decreases rows@.len() - i,
    {
        let ghost before = entries@;
        let depth = setup_row_depth(&rows[i]);
        assert(v[i as int] == row_view(rows@[i as int]));
        if depth == 0 {
            let corner = match &rows[i] {
                SetupRow::Group { label, .. } => setup_corner(label.as_str()),
                SetupRow::Value { .. } => None,
            };
            entries.push(RootSetupEntry { start: i, end: i + 1, corner });
            assert(v.take(i + 1).take(i as int) =~= v.take(i as int));
            assert(splits_at_roots(v.take(i + 1), entries@)) by {
                assert forall|k: int| 0 <= k < entries@.len() implies #[trigger] entries@[k].end
                    <= i + 1 by {}
                assert forall|k: int, j: int|
                    #![trigger entries@[k], v.take(i + 1)[j]]
                    0 <= k < entries@.len() && entries@[k].start < j < entries@[k].end implies
                    row_depth(v.take(i + 1)[j]) > 0 by {
                    assert(v.take(i + 1)[j] == v.take(i as int)[j]);
                }
            }
        } else {
            if i == 0 {
                assert(!nests_at(v, i as int));
                return None;
            }
            let previous = setup_row_depth(&rows[i - 1]);
            assert(v[i - 1] == row_view(rows@[i - 1]));
            let previous_is_group = match &rows[i - 1] {
                SetupRow::Group { .. } => true,
                SetupRow::Value { .. } => false,
            };
            if depth - 1 > previous || (depth > previous && !previous_is_group) {
                assert(!nests_at(v, i as int));
                return None;
            }
            let last = entries.len() - 1;
            let e = entries[last];
            entries.set(last, RootSetupEntry { start: e.start, end: i + 1, corner: e.corner });
            assert(splits_at_roots(v.take(i + 1), entries@)) by {
                assert forall|k: int, j: int|
                    #![trigger entries@[k], v.take(i + 1)[j]]
                    0 <= k < entries@.len() && entries@[k].start < j < entries@[k].end implies
                    row_depth(v.take(i + 1)[j]) > 0 by {
                    if j < i {
                        assert(v.take(i + 1)[j] == v.take(i as int)[j]);
                    }
                }
                assert forall|k: int| 0 <= k < entries@.len() implies row_depth(
                    #[trigger] v.take(i + 1)[entries@[k].start as int],
                ) == 0 && entries@[k].corner == entry_corner(
                    v.take(i + 1),
                    entries@[k].start as int,
                ) by {
                    assert(v.take(i + 1)[entries@[k].start as int] == v.take(
                        i as int,
                    )[entries@[k].start as int]);
                }
            }
        }
        i = i + 1;
    }
    assert(v.take(rows@.len() as int) =~= v);
    Some(entries)
}

/// Where a value sits among the fields of one corner: the labels of its
/// groups and its own, and how many earlier fields have the same path.
#[derive(Debug, Clone, PartialEq, Eq)]
pub struct ComparisonFieldKey {
    pub path: String,
    pub occurrence: usize,
}

/// A field of one corner, as plain values.
pub struct CornerField {
    pub path: Seq<char>,
    pub occurrence: nat,
    pub value: Seq<char>,
}

/// The plain form of a field.
pub open spec fn field_view(field: (ComparisonFieldKey, String)) -> CornerField {
    CornerField { path: field.0.path@, occurrence: field.0.occurrence as nat, value: field.1@ }
}

/// The plain form of fields.
pub open spec fn fields_view(fields: Seq<(ComparisonFieldKey, String)>) -> Seq<CornerField> {
    fields.map_values(|f: (ComparisonFieldKey, String)| field_view(f))
}

/// What separates the labels of a field path.
pub open spec fn path_separator() -> Seq<char> {
    " \u{b7} "@
}

/// The path of a value labelled `label` under the groups `parents`.
pub open spec fn field_path(parents: Seq<Seq<char>>, label: Seq<char>) -> Seq<char> {
    if parents.len() == 0 {
        label
    } else {
        join(parents, path_separator()) + path_separator() + label
    }
}

/// How many of `fields` have the path `path`.
pub open spec fn occurrences(fields: Seq<CornerField>, path: Seq<char>) -> nat
    decreases fields.len(),
{
    if fields.len() == 0 {
        0
    } else {
        occurrences(fields.drop_last(), path) + if fields.last().path == path {
            1nat
        } else {
            0nat
        }
    }
}

/// The open groups and the fields after the first `n` rows of a corner,
/// whose rows start at depth one; `None` once a row skips a level.
pub open spec fn corner_fields_from(rows: Seq<RowView>, n: nat) -> Option<
    (Seq<Seq<char>>, Seq<CornerField>),
>
    decreases n,
{
    if n == 0 {
        Some((Seq::empty(), Seq::empty()))
    } else {
        match corner_fields_from(rows, (n - 1) as nat) {
            None => None,
            Some((parents, fields)) => match rows[n - 1] {
                RowView::Group { label, depth } => if depth == 0 || depth - 1 > parents.len() {
                    None
                } else {
                    Some((parents.take(depth - 1).push(label), fields))
                },
                RowView::Value { label, value, depth } => if depth == 0 || depth - 1
                    > parents.len() {
                    None
                } else {
                    let p = parents.take(depth - 1);
                    let path = field_path(p, label);
                    Some(
                        (
                            p,
                            fields.push(
                                CornerField { path, occurrence: occurrences(fields, path), value },
                            ),
                        ),
                    )
                },
            },
        }
    }
}

/// The fields of the rows of one corner.
pub open spec fn corner_fields_of(rows: Seq<RowView>) -> Option<Seq<CornerField>> {
    match corner_fields_from(rows, rows.len()) {
        Some((_, fields)) => Some(fields),
        None => None,
    }
}

proof fn lemma_corner_fields_stop(rows: Seq<RowView>, i: nat, n: nat)
    requires
        i <= n,
        corner_fields_from(rows, i) is None,
    ensures
        corner_fields_from(rows, n) is None,
    decreases n,
{
    if n > i {
        lemma_corner_fields_stop(rows, i, (n - 1) as nat);
    }
}

/// The number of `fields` whose path is `path`.
fn count_path(fields: &Vec<(ComparisonFieldKey, String)>, path: &str) -> (r: usize)
    ensures
        r == occurrences(fields_view(fields@), path@),
{
    let ghost fv = fields_view(fields@);
    let mut count: usize = 0;
    let mut j: usize = 0;
    while j < fields.len()
        invariant
            j <= fields@.len(),
            fv == fields_view(fields@),
            count == occurrences(fv.take(j as int), path@),
            count <= j,
        decreases fields@.len() - j,
    {
        assert(fv.take(j + 1).drop_last() =~= fv.take(j as int));
        if str_eq(fields[j].0.path.as_str(), path) {
            count = count + 1;
        }
        j = j + 1;
    }
    assert(fv.take(fields@.len() as int) =~= fv);
    count
}

/// The fields of the rows of one corner (the rows below its group), each
/// keyed by its path and its occurrence; `None` when a row skips a level.
pub fn setup_corner_fields(rows: &[SetupRow]) -> (r: Option<Vec<(ComparisonFieldKey, String)>>)
    ensures
        match r {
            Some(f) => corner_fields_of(rows_view(rows@)) == Some(fields_view(f@)),
            None => corner_fields_of(rows_view(rows@)) is None,
        },
{
    let ghost v = rows_view(rows@);
    let mut parents: Vec<String> = Vec::new();
    let mut fields: Vec<(ComparisonFieldKey, String)> = Vec::new();
    let mut i: usize = 0;
    while i < rows.len()
        invariant
            i <= rows@.len(),
            v == rows_view(rows@),
            corner_fields_from(v, i as nat) == Some((string_views(parents@), fields_view(fields@))),
            fields@.len() <= i,
        decreases rows@.len() - i,
    {
        assert(v[i as int] == row_view(rows@[i as int]));
        match &rows[i] {
            SetupRow::Group { label, depth } => {
                if *depth == 0 || *depth - 1 > parents.len() {
                    proof {
                        lemma_corner_fields_stop(v, (i + 1) as nat, rows@.len() as nat);
                    }
                    return None;
                }
                let ghost pv = string_views(parents@);
                parents.truncate(*depth - 1);
                parents.push(label.clone());
                assert(string_views(parents@) =~= pv.take(*depth - 1).push(label@));
            },
            SetupRow::Value { label, value, depth } => {
                if *depth == 0 || *depth - 1 > parents.len() {
                    proof {
                        lemma_corner_fields_stop(v, (i + 1) as nat, rows@.len() as nat);
                    }
                    return None;
                }
                let ghost pv = string_views(parents@);
                parents.truncate(*depth - 1);
                assert(string_views(parents@) =~= pv.take(*depth - 1));
                let path = if parents.len() == 0 {
                    label.clone()
                } else {
                    let joined = join_strings(parents.as_slice(), " \u{b7} ");
                    concat_str(concat_str(joined, " \u{b7} "), label.as_str())
                };
                assert(path@ == field_path(string_views(parents@), label@));
                let occurrence = count_path(&fields, path.as_str());
                let ghost fb = fields_view(fields@);
                fields.push((ComparisonFieldKey { path, occurrence }, value.clone()));
                assert(fields_view(fields@) =~= fb.push(
                    CornerField { path: field_path(string_views(parents@), label@), occurrence: occurrence as nat, value: value@ },
                ));
            },
        }
        i = i + 1;
    }
    assert(corner_fields_from(v, v.len()) == corner_fields_from(v, i as nat));
    Some(fields)
}

/// One field of the comparison table: its value at each corner, by column
/// index (`None` where the corner has no such field).
#[derive(Debug, Clone, PartialEq, Eq)]
pub struct CornerComparisonRow {
    pub key: ComparisonFieldKey,
    pub values: Vec<Option<String>>,
}

/// The table that compares the corner groups of a section.
#[derive(Debug, Clone, PartialEq, Eq)]
pub struct CornerComparison {
    pub columns: Vec<SetupCorner>,
    pub rows: Vec<CornerComparisonRow>,
}

/// A row of the comparison table, as plain values.
pub struct ComparisonRowView {
    pub path: Seq<char>,
    pub occurrence: nat,
    pub values: Seq<Option<Seq<char>>>,
}

/// The comparison table, as plain values.
pub struct ComparisonView {
    pub columns: Seq<SetupCorner>,
    pub rows: Seq<ComparisonRowView>,
}

/// The plain form of an optional text.
pub open spec fn option_text(o: Option<String>) -> Option<Seq<char>> {
    match o {
        Some(s) => Some(s@),
        None => None,
    }
}

/// The plain form of the values of a row.
pub open spec fn values_view(values: Seq<Option<String>>) -> Seq<Option<Seq<char>>> {
    values.map_values(|o: Option<String>| option_text(o))
}

/// The plain form of a row of the table.
pub open spec fn comparison_row_view(row: CornerComparisonRow) -> ComparisonRowView {
    ComparisonRowView {
        path: row.key.path@,
        occurrence: row.key.occurrence as nat,
        values: values_view(row.values@),
    }
}

/// The plain form of the rows of the table.
pub open spec fn comparison_rows_view(rows: Seq<CornerComparisonRow>) -> Seq<ComparisonRowView> {
    rows.map_values(|r: CornerComparisonRow| comparison_row_view(r))
}

/// The plain form of the table.
pub open spec fn comparison_view(c: CornerComparison) -> ComparisonView {
    ComparisonView { columns: c.columns@, rows: comparison_rows_view(c.rows@) }
}

/// The first of the first `n` rows that holds the field `path`/`occurrence`.
pub open spec fn first_row_with(
    rows: Seq<ComparisonRowView>,
    path: Seq<char>,
    occurrence: nat,
    n: nat,
) -> Option<int>
    decreases n,
{
    if n == 0 {
        None
    } else {
        match first_row_with(rows, path, occurrence, (n - 1) as nat) {
            Some(k) => Some(k),
            None => if rows[n - 1].path == path && rows[n - 1].occurrence == occurrence {
                Some(n - 1)
            } else {
                None
            },
        }
    }
}

/// No value at any corner.
pub open spec fn no_values() -> Seq<Option<Seq<char>>> {
    seq![None, None, None, None]
}

/// The table after the field `field` of `corner` is entered: in the row of
/// that field, or in a new row at the end.
pub open spec fn merge_field(
    rows: Seq<ComparisonRowView>,
    corner: SetupCorner,
    field: CornerField,
) -> Seq<ComparisonRowView> {
    match first_row_with(rows, field.path, field.occurrence, rows.len()) {
        Some(k) => rows.update(
            k,
            ComparisonRowView {
                path: rows[k].path,
                occurrence: rows[k].occurrence,
                values: rows[k].values.update(corner.spec_index() as int, Some(field.value)),
            },
        ),
        None => rows.push(
            ComparisonRowView {
                path: field.path,
                occurrence: field.occurrence,
                values: no_values().update(corner.spec_index() as int, Some(field.value)),
            },
        ),
    }
}

/// The table after the first `n` fields of `corner` are entered.
pub open spec fn merge_fields(
    rows: Seq<ComparisonRowView>,
    corner: SetupCorner,
    fields: Seq<CornerField>,
    n: nat,
) -> Seq<ComparisonRowView>
    decreases n,
{
    if n == 0 {
        rows
    } else {
        merge_field(merge_fields(rows, corner, fields, (n - 1) as nat), corner, fields[n - 1])
    }
}

/// The table built from the fields of the first `n` corners, in turn.
pub open spec fn merge_corners(corners: Seq<(SetupCorner, Seq<CornerField>)>, n: nat) -> Seq<
    ComparisonRowView,
>
    decreases n,
{
    if n == 0 {
        Seq::empty()
    } else {
        let (corner, fields) = corners[n - 1];
        merge_fields(merge_corners(corners, (n - 1) as nat), corner, fields, fields.len())
    }
}

/// Which corners were seen, and the fields of each, after the first `n`
/// entries; `None` once an entry is not a corner group, repeats a corner, or
/// holds no field or rows that skip a level.
pub open spec fn collect_corners(rows: Seq<RowView>, entries: Seq<RootSetupEntry>, n: nat) -> Option<
    (Seq<bool>, Seq<(SetupCorner, Seq<CornerField>)>),
>
    decreases n,
{
    if n == 0 {
        Some((seq![false, false, false, false], Seq::empty()))
    } else {
        match collect_corners(rows, entries, (n - 1) as nat) {
            None => None,
            Some((present, corners)) => {
                let e = entries[n - 1];
                match e.corner {
                    None => None,
                    Some(c) => if present[c.spec_index() as int] {
                        None
                    } else {
                        match corner_fields_of(rows.subrange(e.start + 1, e.end as int)) {
                            None => None,
                            Some(fields) => if fields.len() == 0 {
                                None
                            } else {
                                Some(
                                    (
                                        present.update(c.spec_index() as int, true),
                                        corners.push((c, fields)),
                                    ),
                                )
                            },
                        }
                    },
                }
            },
        }
    }
}

/// The corners marked in `present`, in the order LF, RF, LR, RR.
pub open spec fn present_columns(present: Seq<bool>) -> Seq<SetupCorner> {
    (if present[0] { seq![SetupCorner::LeftFront] } else { Seq::empty() }) + (if present[1] {
        seq![SetupCorner::RightFront]
    } else {
        Seq::empty()
    }) + (if present[2] { seq![SetupCorner::LeftRear] } else { Seq::empty() }) + (if present[3] {
        seq![SetupCorner::RightRear]
    } else {
        Seq::empty()
    })
}

/// How many corners have a value.
pub open spec fn value_count(values: Seq<Option<Seq<char>>>) -> nat
    decreases values.len(),
{
    if values.len() == 0 {
        0
    } else {
        value_count(values.drop_last()) + if values.last() is Some {
            1nat
        } else {
            0nat
        }
    }
}

/// Whether some field of the table has values at two corners or more.
pub open spec fn compares_corners(rows: Seq<ComparisonRowView>) -> bool {
    exists|k: int| 0 <= k < rows.len() && value_count(#[trigger] rows[k].values) >= 2
}

/// The comparison of the corner entries `entries` of `rows`: there are two or
/// more, each a distinct corner group with fields, and some field is shared.
#[verifier::opaque]
pub open spec fn comparison_of(rows: Seq<RowView>, entries: Seq<RootSetupEntry>) -> Option<
    ComparisonView,
> {
    if entries.len() < 2 {
        None
    } else {
        match collect_corners(rows, entries, entries.len()) {
            None => None,
            Some((present, corners)) => {
                let table = merge_corners(corners, corners.len());
                if compares_corners(table) {
                    Some(ComparisonView { columns: present_columns(present), rows: table })
                } else {
                    None
                }
            },
        }
    }
}

/// Whether each entry is a range of `rows`.
pub open spec fn entries_within(rows: Seq<RowView>, entries: Seq<RootSetupEntry>) -> bool {
    forall|k: int|
        0 <= k < entries.len() ==> #[trigger] entries[k].start < entries[k].end <= rows.len()
}

proof fn lemma_first_row_stays(rows: Seq<ComparisonRowView>, path: Seq<char>, occurrence: nat, k: int, n: nat, m: nat)
    requires
        n <= m,
        first_row_with(rows, path, occurrence, n) == Some(k),
    ensures
        first_row_with(rows, path, occurrence, m) == Some(k),
    decreases m,
{
    if m > n {
        lemma_first_row_stays(rows, path, occurrence, k, n, (m - 1) as nat);
    }
}

proof fn lemma_collect_stop(rows: Seq<RowView>, entries: Seq<RootSetupEntry>, i: nat, n: nat)
    requires
        i <= n,
        collect_corners(rows, entries, i) is None,
    ensures
        collect_corners(rows, entries, n) is None,
    decreases n,
{
    if n > i {
        lemma_collect_stop(rows, entries, i, (n - 1) as nat);
    }
}

/// Whether every row of the table has one value slot per corner.
pub open spec fn four_values(rows: Seq<CornerComparisonRow>) -> bool {
    forall|k: int| 0 <= k < rows.len() ==> (#[trigger] rows[k]).values@.len() == 4
}

/// A copy of the values of a row.
fn copy_values(values: &Vec<Option<String>>) -> (r: Vec<Option<String>>)
    ensures
        r@ == values@,
{
    let mut out: Vec<Option<String>> = Vec::new();
    let mut i: usize = 0;
    while i < values.len()
        invariant
            i <= values@.len(),
            out@ == values@.take(i as int),
        decreases values@.len() - i,
    {
        let v = match &values[i] {
            Some(s) => Some(s.clone()),
            None => None,
        };
        out.push(v);
        i = i + 1;
        assert(out@ =~= values@.take(i as int));
    }
    assert(values@.take(values@.len() as int) =~= values@);
    out
}

/// Enters the field `key` of `corner`, with `value`, in the table.
fn merge_field_into(
    rows: &mut Vec<CornerComparisonRow>,
    corner: SetupCorner,
    key: ComparisonFieldKey,
    value: String,
)
    requires
        four_values(old(rows)@),
    ensures
        four_values(final(rows)@),
        comparison_rows_view(final(rows)@) == merge_field(
            comparison_rows_view(old(rows)@),
            corner,
            CornerField { path: key.path@, occurrence: key.occurrence as nat, value: value@ },
        ),
{
    let ghost rv = comparison_rows_view(rows@);
    let ghost field = CornerField {
        path: key.path@,
        occurrence: key.occurrence as nat,
        value: value@,
    };
    let c = corner.index();
    let mut i: usize = 0;
    while i < rows.len()
        invariant
            i <= rows@.len(),
            rv == comparison_rows_view(rows@),
            four_values(rows@),
            first_row_with(rv, field.path, field.occurrence, i as nat) is None,
            field == (CornerField { path: key.path@, occurrence: key.occurrence as nat, value: value@ }),
            c == corner.spec_index(),
            rows@ == old(rows)@,
        decreases rows@.len() - i,
    {
        if rows[i].key.occurrence == key.occurrence && str_eq(
            rows[i].key.path.as_str(),
            key.path.as_str(),
        ) {
            proof {
                assert(rv[i as int] == comparison_row_view(rows@[i as int]));
                lemma_first_row_stays(rv, field.path, field.occurrence, i as int, (i + 1) as nat, rv.len());
            }
            assert(rows@[i as int].values@.len() == 4);
            let mut values = copy_values(&rows[i].values);
            values.set(c, Some(value));
            let path = rows[i].key.path.clone();
            let occurrence = rows[i].key.occurrence;
            let row = CornerComparisonRow { key: ComparisonFieldKey { path, occurrence }, values };
            rows.set(i, row);
            assert(comparison_rows_view(rows@) =~= merge_field(rv, corner, field)) by {
                assert(values_view(row.values@) =~= rv[i as int].values.update(c as int, Some(field.value)));
            }
            return;
        }
        i = i + 1;
    }
    let mut values: Vec<Option<String>> = Vec::new();
    values.push(None);
    values.push(None);
    values.push(None);
    values.push(None);
    values.set(c, Some(value));
    let row = CornerComparisonRow { key, values };
    rows.push(row);
    assert(comparison_rows_view(rows@) =~= merge_field(rv, corner, field)) by {
        assert(values_view(row.values@) =~= no_values().update(c as int, Some(field.value)));
    }
}

/// How many corners have a value.
fn count_values(values: &Vec<Option<String>>) -> (r: usize)
    ensures
        r == value_count(values_view(values@)),
{
    let ghost vv = values_view(values@);
    let mut count: usize = 0;
    let mut i: usize = 0;
    while i < values.len()
        invariant
            i <= values@.len(),
            vv == values_view(values@),
            count == value_count(vv.take(i as int)),
            count <= i,
        decreases values@.len() - i,
    {
        assert(vv.take(i + 1).drop_last() =~= vv.take(i as int));
        if values[i].is_some() {
            count = count + 1;
        }
        i = i + 1;
    }
    assert(vv.take(values@.len() as int) =~= vv);
    count
}

/// The plain form of the fields collected for each corner.
pub open spec fn corners_view(corners: Seq<(SetupCorner, Vec<(ComparisonFieldKey, String)>)>) -> Seq<
    (SetupCorner, Seq<CornerField>),
> {
    corners.map_values(
        |e: (SetupCorner, Vec<(ComparisonFieldKey, String)>)| (e.0, fields_view(e.1@)),
    )
}

/// The comparison table of the corner entries `entries` of `rows`, when the
/// entries can be merged without losing rows and some field is shared.
pub fn corner_comparison(rows: &[SetupRow], entries: &[RootSetupEntry]) -> (r: Option<
    CornerComparison,
>)
    requires
        entries_within(rows_view(rows@), entries@),
    ensures
        match r {
            Some(c) => comparison_of(rows_view(rows@), entries@) == Some(comparison_view(c)),
            None => comparison_of(rows_view(rows@), entries@) is None,
        },
{
    reveal(comparison_of);
    let ghost v = rows_view(rows@);
    if entries.len() < 2 {
        return None;
    }
    let mut present: Vec<bool> = Vec::new();
    present.push(false);
    present.push(false);
    present.push(false);
    present.push(false);
    let mut corners: Vec<(SetupCorner, Vec<(ComparisonFieldKey, String)>)> = Vec::new();
    let mut n: usize = 0;
    assert(present@ =~= seq![false, false, false, false]);
    while n < entries.len()
        invariant
            n <= entries@.len(),
            v == rows_view(rows@),
            entries_within(v, entries@),
            present@.len() == 4,
            collect_corners(v, entries@, n as nat) == Some((present@, corners_view(corners@))),
        decreases entries@.len() - n,
    {
        reveal(comparison_of);
        let e = entries[n];
        assert(e.start < e.end <= v.len());
        let corner = match e.corner {
            Some(c) => c,
            None => {
                proof {
                    lemma_collect_stop(v, entries@, (n + 1) as nat, entries@.len() as nat);
                }
                return None;
            },
        };
        if present[corner.index()] {
            proof {
                lemma_collect_stop(v, entries@, (n + 1) as nat, entries@.len() as nat);
            }
            return None;
        }
        present.set(corner.index(), true);
        let part = vstd::slice::slice_subrange(rows, e.start + 1, e.end);
        assert(rows_view(part@) =~= v.subrange(e.start + 1, e.end as int));
        let fields = match setup_corner_fields(part) {
            Some(f) => f,
            None => {
                proof {
                    lemma_collect_stop(v, entries@, (n + 1) as nat, entries@.len() as nat);
                }
                return None;
            },
        };
        if fields.len() == 0 {
            proof {
                lemma_collect_stop(v, entries@, (n + 1) as nat, entries@.len() as nat);
            }
            return None;
        }
        let ghost before = corners@;
        corners.push((corner, fields));
        assert(corners_view(corners@) =~= corners_view(before).push((corner, fields_view(fields@))));
        n = n + 1;
    }
    let ghost cv = corners_view(corners@);
    let mut table: Vec<CornerComparisonRow> = Vec::new();
    let mut i: usize = 0;
    while i < corners.len()
        invariant
            i <= corners@.len(),
            cv == corners_view(corners@),
            four_values(table@),
            comparison_rows_view(table@) == merge_corners(cv, i as nat),
        decreases corners@.len() - i,
    {
        let corner = corners[i].0;
        let fields = &corners[i].1;
        let ghost fv = fields_view(fields@);
        let ghost start = comparison_rows_view(table@);
        let mut j: usize = 0;
        while j < fields.len()
            invariant
                j <= fields@.len(),
                fv == fields_view(fields@),
                four_values(table@),
                comparison_rows_view(table@) == merge_fields(start, corner, fv, j as nat),
            decreases fields@.len() - j,
        {
            let key = ComparisonFieldKey {
                path: fields[j].0.path.clone(),
                occurrence: fields[j].0.occurrence,
            };
            let value = fields[j].1.clone();
            merge_field_into(&mut table, corner, key, value);
            j = j + 1;
        }
        i = i + 1;
    }
    let mut shared = false;
    let mut k: usize = 0;
    let ghost tv = comparison_rows_view(table@);
    while k < table.len()
        invariant
            k <= table@.len(),
            tv == comparison_rows_view(table@),
            shared <==> exists|m: int| 0 <= m < k && value_count(#[trigger] tv[m].values) >= 2,
        decreases table@.len() - k,
    {
        assert(tv[k as int] == comparison_row_view(table@[k as int]));
        let count = count_values(&table[k].values);
        assert(value_count(tv[k as int].values) == count);
        if count >= 2 {
            shared = true;
        }
        k = k + 1;
    }
    if !shared {
        return None;
    }
    let mut columns: Vec<SetupCorner> = Vec::new();
    if present[0] {
        columns.push(SetupCorner::LeftFront);
    }
    if present[1] {
        columns.push(SetupCorner::RightFront);
    }
    if present[2] {
        columns.push(SetupCorner::LeftRear);
    }
    if present[3] {
        columns.push(SetupCorner::RightRear);
    }
    assert(columns@ =~= present_columns(present@));
    Some(CornerComparison { columns, rows: table })
}

/// The root entries of `rows`, when they nest as a tree.
pub open spec fn root_entries(rows: Seq<RowView>) -> Seq<RootSetupEntry> {
    choose|entries: Seq<RootSetupEntry>| splits_at_roots(rows, entries)
}

proof fn lemma_entry_ends_agree(rows: Seq<RowView>, a: Seq<RootSetupEntry>, b: Seq<RootSetupEntry>, k: int)
    requires
        splits_at_roots(rows, a),
        splits_at_roots(rows, b),
        0 <= k < a.len(),
        k < b.len(),
        a[k].start == b[k].start,
    ensures
        a[k] == b[k],
{
    let ea = a[k];
    let eb = b[k];
    if ea.end < eb.end {
        if k == a.len() - 1 {
            assert(ea.end == rows.len());
        } else {
            assert(a[k + 1].start == ea.end);
            assert(row_depth(rows[a[k + 1].start as int]) == 0);
            assert(eb.start < ea.end < eb.end);
        }
    } else if eb.end < ea.end {
        if k == b.len() - 1 {
            assert(eb.end == rows.len());
        } else {
            assert(b[k + 1].start == eb.end);
            assert(row_depth(rows[b[k + 1].start as int]) == 0);
            assert(ea.start < eb.end < ea.end);
        }
    }
}

/// Cutting rows at their roots can be done in one way only.
pub proof fn lemma_root_entries_unique(rows: Seq<RowView>, a: Seq<RootSetupEntry>, b: Seq<RootSetupEntry>)
    requires
        splits_at_roots(rows, a),
        splits_at_roots(rows, b),
    ensures
        a == b,
{
    let n = if a.len() < b.len() { a.len() } else { b.len() };
    assert forall|k: int| 0 <= k < n implies a[k] == b[k] by {
        lemma_entries_agree_upto(rows, a, b, k);
    }
    if a.len() < b.len() {
        let m = a.len() as int;
        if m > 0 {
            lemma_entries_agree_upto(rows, a, b, m - 1);
            assert(b[m - 1].end == rows.len());
            assert(b[m - 1].end == b[m].start);
            assert(b[m].start < b[m].end <= rows.len());
        }
    } else if b.len() < a.len() {
        let m = b.len() as int;
        if m > 0 {
            lemma_entries_agree_upto(rows, a, b, m - 1);
            assert(a[m - 1].end == rows.len());
            assert(a[m - 1].end == a[m].start);
            assert(a[m].start < a[m].end <= rows.len());
        }
    }
    assert(a =~= b);
}

proof fn lemma_entries_agree_upto(rows: Seq<RowView>, a: Seq<RootSetupEntry>, b: Seq<RootSetupEntry>, k: int)
    requires
        splits_at_roots(rows, a),
        splits_at_roots(rows, b),
        0 <= k < a.len(),
        k < b.len(),
    ensures
        a[k] == b[k],
    decreases k,
{
    if k > 0 {
        lemma_entries_agree_upto(rows, a, b, k - 1);
        assert(a[k - 1].end == a[k].start);
        assert(b[k - 1].end == b[k].start);
    }
    lemma_entry_ends_agree(rows, a, b, k);
}

/// A part of the content of a setup section: rows shown as they are, or the
/// comparison table of its corner groups.
#[derive(Debug, Clone, PartialEq, Eq)]
pub enum SetupContentBlock {
    Rows(Vec<SetupRow>),
    CornerComparison(CornerComparison),
}

/// A part of the content of a section, as plain values.
pub enum BlockView {
    Rows(Seq<RowView>),
    Comparison(ComparisonView),
}

/// The plain form of a block.
pub open spec fn block_view(block: SetupContentBlock) -> BlockView {
    match block {
        SetupContentBlock::Rows(rows) => BlockView::Rows(rows_view(rows@)),
        SetupContentBlock::CornerComparison(c) => BlockView::Comparison(comparison_view(c)),
    }
}

/// The plain form of blocks.
pub open spec fn blocks_view(blocks: Seq<SetupContentBlock>) -> Seq<BlockView> {
    blocks.map_values(|b: SetupContentBlock| block_view(b))
}

/// `blocks`, followed by the pending rows `plain` when there are any.
pub open spec fn flush(blocks: Seq<BlockView>, plain: Seq<RowView>) -> Seq<BlockView> {
    if plain.len() == 0 {
        blocks
    } else {
        blocks.push(BlockView::Rows(plain))
    }
}

/// The rows of an entry.
pub open spec fn entry_rows(rows: Seq<RowView>, e: RootSetupEntry) -> Seq<RowView> {
    rows.subrange(e.start as int, e.end as int)
}

/// Where the run of corner entries that starts at `i` ends.
pub open spec fn run_end(entries: Seq<RootSetupEntry>, i: int) -> int
    decreases entries.len() - i,
{
    if i + 1 >= entries.len() || entries[i + 1].corner is None {
        i + 1
    } else {
        run_end(entries, i + 1)
    }
}

/// A run of corner entries ends after it starts, within the entries.
pub proof fn lemma_run_end_bounds(entries: Seq<RootSetupEntry>, i: int)
    requires
        0 <= i < entries.len(),
    ensures
        i < run_end(entries, i) <= entries.len(),
    decreases entries.len() - i,
{
    if !(i + 1 >= entries.len() || entries[i + 1].corner is None) {
        lemma_run_end_bounds(entries, i + 1);
    }
}

/// The rows of the entries `i..end`, in turn.
pub open spec fn run_rows(rows: Seq<RowView>, entries: Seq<RootSetupEntry>, i: int, end: int) -> Seq<
    RowView,
>
    decreases end - i,
{
    if end <= i {
        Seq::empty()
    } else {
        run_rows(rows, entries, i, end - 1) + entry_rows(rows, entries[end - 1])
    }
}

/// The blocks that the entries from `i` on add to `blocks`, with the rows
/// `plain` pending: plain entries are gathered, and each run of corner
/// entries becomes a comparison table when it can, else plain rows.
pub open spec fn blocks_from(
    rows: Seq<RowView>,
    entries: Seq<RootSetupEntry>,
    i: int,
    plain: Seq<RowView>,
    blocks: Seq<BlockView>,
) -> Seq<BlockView>
    decreases entries.len() - i,
{
    if i < 0 || i >= entries.len() {
        flush(blocks, plain)
    } else if entries[i].corner is None {
        blocks_from(rows, entries, i + 1, plain + entry_rows(rows, entries[i]), blocks)
    } else {
        let end = run_end(entries, i);
        proof {
            lemma_run_end_bounds(entries, i);
        }
        match comparison_of(rows, entries.subrange(i, end)) {
            Some(c) => blocks_from(
                rows,
                entries,
                end,
                Seq::empty(),
                flush(blocks, plain).push(BlockView::Comparison(c)),
            ),
            None => blocks_from(rows, entries, end, plain + run_rows(rows, entries, i, end), blocks),
        }
    }
}

/// How a section's rows are shown: as they are when they do not nest as a
/// tree, else split into plain rows and corner comparisons.
pub open spec fn content_blocks(rows: Seq<RowView>) -> Seq<BlockView> {
    if nests_well(rows) {
        blocks_from(rows, root_entries(rows), 0, Seq::empty(), Seq::empty())
    } else {
        seq![BlockView::Rows(rows)]
    }
}

/// A copy of a row.
fn copy_row(row: &SetupRow) -> (r: SetupRow)
    ensures
        r == *row,
{
    match row {
        SetupRow::Group { label, depth } => SetupRow::Group { label: label.clone(), depth: *depth },
        SetupRow::Value { label, value, depth } => SetupRow::Value {
            label: label.clone(),
            value: value.clone(),
            depth: *depth,
        },
    }
}

/// Appends copies of `rows[from..to]` to `out`.
fn append_rows(out: &mut Vec<SetupRow>, rows: &[SetupRow], from: usize, to: usize)
    requires
        from <= to <= rows@.len(),
    ensures
        rows_view(final(out)@) == rows_view(old(out)@) + rows_view(rows@).subrange(from as int, to as int),
{
    let ghost start = rows_view(out@);
    let mut i = from;
    while i < to
        invariant
            from <= i <= to <= rows@.len(),
            rows_view(out@) == start + rows_view(rows@).subrange(from as int, i as int),
        decreases to - i,
    {
        let ghost before = out@;
        out.push(copy_row(&rows[i]));
        i = i + 1;
        assert(rows_view(out@) =~= start + rows_view(rows@).subrange(from as int, i as int)) by {
            assert(rows_view(out@) =~= rows_view(before).push(row_view(rows@[i - 1])));
        }
    }
}

/// Moves the pending rows `plain`, if any, into a block of their own.
fn flush_rows(blocks: &mut Vec<SetupContentBlock>, plain: &mut Vec<SetupRow>)
    ensures
        blocks_view(final(blocks)@) == flush(blocks_view(old(blocks)@), rows_view(old(plain)@)),
        final(plain)@.len() == 0,
{
    if plain.len() > 0 {
        let mut taken: Vec<SetupRow> = Vec::new();
        std::mem::swap(&mut taken, plain);
        let ghost before = blocks@;
        blocks.push(SetupContentBlock::Rows(taken));
        assert(blocks_view(blocks@) =~= blocks_view(before).push(BlockView::Rows(rows_view(taken@))));
    } else {
        assert(rows_view(plain@) =~= Seq::<RowView>::empty());
    }
}

/// The blocks in which a section's rows are shown: runs of consecutive corner
/// groups become comparison tables, the other rows stay as they are.
pub fn setup_content_blocks(section: &SetupSection) -> (r: Vec<SetupContentBlock>)
    ensures
        blocks_view(r@) == content_blocks(rows_view(section.rows@)),
{
    let rows = section.rows.as_slice();
    let ghost v = rows_view(rows@);
    let entries = match root_setup_entries(rows) {
        Some(es) => es,
        None => {
            let mut all: Vec<SetupRow> = Vec::new();
            append_rows(&mut all, rows, 0, rows.len());
            let mut blocks: Vec<SetupContentBlock> = Vec::new();
            blocks.push(SetupContentBlock::Rows(all));
            assert(blocks_view(blocks@) =~= seq![BlockView::Rows(v)]) by {
                assert(rows_view(all@) =~= v);
            }
            return blocks;
        },
    };
    proof {
        lemma_root_entries_unique(v, entries@, root_entries(v));
    }
    let ghost ev = entries@;
    let ghost target = blocks_from(v, ev, 0, Seq::empty(), Seq::empty());
    let mut blocks: Vec<SetupContentBlock> = Vec::new();
    let mut plain: Vec<SetupRow> = Vec::new();
    let mut index: usize = 0;
    assert(rows_view(plain@) =~= Seq::<RowView>::empty());
    assert(blocks_view(blocks@) =~= Seq::<BlockView>::empty());
    while index < entries.len()
        invariant
            index <= entries@.len(),
            v == rows_view(rows@),
            ev == entries@,
            splits_at_roots(v, ev),
            blocks_from(v, ev, index as int, rows_view(plain@), blocks_view(blocks@)) == target,
        decreases entries@.len() - index,
    {
        let e = entries[index];
        assert(e == ev[index as int]);
        if e.corner.is_none() {
            append_rows(&mut plain, rows, e.start, e.end);
            index = index + 1;
        } else {
            let mut end = index + 1;
            while end < entries.len() && entries[end].corner.is_some()
                invariant
                    index < end <= entries@.len(),
                    ev == entries@,
                    run_end(ev, index as int) == run_end(ev, end - 1),
                decreases entries@.len() - end,
            {
                end = end + 1;
            }
            assert(run_end(ev, index as int) == end);
            let run = vstd::slice::slice_subrange(entries.as_slice(), index, end);
            assert(entries_within(v, run@)) by {
                assert forall|k: int| 0 <= k < run@.len() implies #[trigger] run@[k].start
                    < run@[k].end <= v.len() by {
                    assert(run@[k] == ev[index + k]);
                }
            }
            match corner_comparison(rows, run) {
                Some(comparison) => {
                    flush_rows(&mut blocks, &mut plain);
                    let ghost before = blocks@;
                    blocks.push(SetupContentBlock::CornerComparison(comparison));
                    assert(blocks_view(blocks@) =~= blocks_view(before).push(
                        BlockView::Comparison(comparison_view(comparison)),
                    ));
                    assert(rows_view(plain@) =~= Seq::<RowView>::empty());
                },
                None => {
                    let mut j = index;
                    let ghost start = rows_view(plain@);
                    while j < end
                        invariant
                            index <= j <= end <= entries@.len(),
                            ev == entries@,
                            v == rows_view(rows@),
                            splits_at_roots(v, ev),
                            rows_view(plain@) == start + run_rows(v, ev, index as int, j as int),
                        decreases end - j,
                    {
                        let f = entries[j];
                        assert(f == ev[j as int]);
                        append_rows(&mut plain, rows, f.start, f.end);
                        j = j + 1;
                        assert(rows_view(plain@) =~= start + run_rows(v, ev, index as int, j as int));
                    }
                },
            }
            index = end;
        }
    }
    flush_rows(&mut blocks, &mut plain);
    blocks
}

/// Whether some block is a comparison table.
pub open spec fn has_comparison(blocks: Seq<BlockView>) -> bool {
    exists|k: int| 0 <= k < blocks.len() && #[trigger] blocks[k] is Comparison
}

/// The rows of the plain blocks, in turn.
pub open spec fn plain_rows(blocks: Seq<BlockView>) -> Seq<RowView>
    decreases blocks.len(),
{
    if blocks.len() == 0 {
        Seq::empty()
    } else {
        plain_rows(blocks.drop_last()) + match blocks.last() {
            BlockView::Rows(r) => r,
            BlockView::Comparison(_) => Seq::empty(),
        }
    }
}

/// Where entry `i` starts; past the last entry, the end of the rows.
pub open spec fn entry_start(rows: Seq<RowView>, entries: Seq<RootSetupEntry>, i: int) -> int {
    if i < entries.len() {
        entries[i].start as int
    } else {
        rows.len() as int
    }
}

/// Rows that nest as a tree can be cut at their roots.
pub proof fn lemma_root_entries_exist(rows: Seq<RowView>)
    requires
        rows.len() <= usize::MAX,
        nests_well(rows),
    ensures
        splits_at_roots(rows, root_entries(rows)),
{
    let es = lemma_entries_of_prefix(rows, rows.len());
    assert(rows.take(rows.len() as int) =~= rows);
}

proof fn lemma_entries_of_prefix(rows: Seq<RowView>, n: nat) -> (es: Seq<RootSetupEntry>)
    requires
        n <= rows.len() <= usize::MAX,
        forall|j: int| 0 <= j < n ==> nests_at(rows, j),
    ensures
        splits_at_roots(rows.take(n as int), es),
    decreases n,
{
    if n == 0 {
        assert(rows.take(0) =~= Seq::<RowView>::empty());
        Seq::empty()
    } else {
        let i = (n - 1) as nat;
        let prev = lemma_entries_of_prefix(rows, i);
        if row_depth(rows[i as int]) == 0 {
            lemma_prefix_new_root(rows, i, prev)
        } else {
            assert(nests_at(rows, i as int));
            lemma_prefix_nested_row(rows, i, prev)
        }
    }
}

proof fn lemma_prefix_new_root(rows: Seq<RowView>, i: nat, prev: Seq<RootSetupEntry>) -> (es: Seq<RootSetupEntry>)
    requires
        i < rows.len() <= usize::MAX,
        splits_at_roots(rows.take(i as int), prev),
        row_depth(rows[i as int]) == 0,
    ensures
        splits_at_roots(rows.take(i as int + 1), es),
{
    let n = i + 1;
    let v = rows;
    assert(v.take(n as int).take(i as int) =~= v.take(i as int));
    let es = prev.push(RootSetupEntry { start: i as usize, end: n as usize, corner: entry_corner(rows, i as int) });
    assert forall|k: int, j: int|
        #![trigger es[k], v.take(n as int)[j]]
        0 <= k < es.len() && es[k].start < j < es[k].end implies row_depth(v.take(n as int)[j]) > 0 by {
        assert(v.take(n as int)[j] == v.take(i as int)[j]);
    }
    assert forall|k: int| 0 <= k < es.len() implies row_depth(
        #[trigger] v.take(n as int)[es[k].start as int],
    ) == 0 && es[k].corner == entry_corner(v.take(n as int), es[k].start as int) by {
        if k < prev.len() {
            assert(v.take(n as int)[es[k].start as int] == v.take(i as int)[es[k].start as int]);
        }
    }
    assert(contiguous(es)) by {
        assert forall|k: int| 0 < k < es.len() implies es[k - 1].end == #[trigger] es[k].start by {
            if k < prev.len() {
                assert(prev[k - 1].end == prev[k].start);
            }
        }
    }
    es
}

proof fn lemma_prefix_nested_row(rows: Seq<RowView>, i: nat, prev: Seq<RootSetupEntry>) -> (es: Seq<RootSetupEntry>)
    requires
        i < rows.len() <= usize::MAX,
        splits_at_roots(rows.take(i as int), prev),
        row_depth(rows[i as int]) > 0,
        nests_at(rows, i as int),
    ensures
        splits_at_roots(rows.take(i as int + 1), es),
{
    let n = i + 1;
    let v = rows;
    assert(v.take(n as int).take(i as int) =~= v.take(i as int));
    let last = prev.len() - 1;
    let e = prev[last];
    let es = prev.update(last, RootSetupEntry { start: e.start, end: n as usize, corner: e.corner });
    assert forall|k: int, j: int|
        #![trigger es[k], v.take(n as int)[j]]
        0 <= k < es.len() && es[k].start < j < es[k].end implies row_depth(v.take(n as int)[j]) > 0 by {
        if j < i {
            assert(v.take(n as int)[j] == v.take(i as int)[j]);
        }
    }
    assert forall|k: int| 0 <= k < es.len() implies row_depth(
        #[trigger] v.take(n as int)[es[k].start as int],
    ) == 0 && es[k].corner == entry_corner(v.take(n as int), es[k].start as int) by {
        assert(es[k].start == prev[k].start);
        assert(v.take(n as int)[es[k].start as int] == v.take(i as int)[es[k].start as int]);
    }
    assert(contiguous(es)) by {
        assert forall|k: int| 0 < k < es.len() implies es[k - 1].end == #[trigger] es[k].start by {
            assert(prev[k - 1].end == prev[k].start);
        }
    }
    es
}

proof fn lemma_blocks_extend(
    rows: Seq<RowView>,
    entries: Seq<RootSetupEntry>,
    i: int,
    plain: Seq<RowView>,
    blocks: Seq<BlockView>,
)
    ensures
        ({
            let r = blocks_from(rows, entries, i, plain, blocks);
            blocks.len() <= r.len() && r.subrange(0, blocks.len() as int) == blocks
        }),
    decreases entries.len() - i,
{
    let r = blocks_from(rows, entries, i, plain, blocks);
    if i < 0 || i >= entries.len() {
        assert(r.subrange(0, blocks.len() as int) =~= blocks);
    } else if entries[i].corner is None {
        lemma_blocks_extend(rows, entries, i + 1, plain + entry_rows(rows, entries[i]), blocks);
    } else {
        let end = run_end(entries, i);
        lemma_run_end_bounds(entries, i);
        match comparison_of(rows, entries.subrange(i, end)) {
            Some(c) => {
                let b2 = flush(blocks, plain).push(BlockView::Comparison(c));
                lemma_blocks_extend(rows, entries, end, Seq::empty(), b2);
                assert(r.subrange(0, b2.len() as int) == b2);
                assert(r.subrange(0, blocks.len() as int) =~= b2.subrange(0, blocks.len() as int));
                assert(b2.subrange(0, blocks.len() as int) =~= blocks);
            },
            None => {
                lemma_blocks_extend(rows, entries, end, plain + run_rows(rows, entries, i, end), blocks);
            },
        }
    }
}

proof fn lemma_run_rows(rows: Seq<RowView>, entries: Seq<RootSetupEntry>, i: int, end: int)
    requires
        contiguous(entries),
        entries_within(rows, entries),
        0 <= i < end <= entries.len(),
    ensures
        run_rows(rows, entries, i, end) == rows.subrange(
            entries[i].start as int,
            entries[end - 1].end as int,
        ),
    decreases end - i,
{
    let e = entries[end - 1];
    if end == i + 1 {
        assert(run_rows(rows, entries, i, i) == Seq::<RowView>::empty());
        assert(run_rows(rows, entries, i, end) =~= entry_rows(rows, e));
    } else {
        lemma_run_rows(rows, entries, i, end - 1);
        assert(entries[end - 2].end == entries[end - 1].start);
        assert(entries[i].start <= entries[end - 2].end) by {
            lemma_entries_ordered(rows, entries, i, end - 2);
        }
        assert(run_rows(rows, entries, i, end) =~= rows.subrange(
            entries[i].start as int,
            e.end as int,
        ));
    }
}

proof fn lemma_entries_ordered(rows: Seq<RowView>, entries: Seq<RootSetupEntry>, i: int, j: int)
    requires
        contiguous(entries),
        entries_within(rows, entries),
        0 <= i <= j < entries.len(),
    ensures
        entries[i].start < entries[j].end,
        entries[i].start <= entries[j].start,
    decreases j - i,
{
    if i < j {
        lemma_entries_ordered(rows, entries, i, j - 1);
        assert(entries[j - 1].end == entries[j].start);
    }
}

proof fn lemma_plain_rows_push(blocks: Seq<BlockView>, b: BlockView)
    ensures
        plain_rows(blocks.push(b)) == plain_rows(blocks) + match b {
            BlockView::Rows(r) => r,
            BlockView::Comparison(_) => Seq::empty(),
        },
{
    assert(blocks.push(b).drop_last() =~= blocks);
}

proof fn lemma_concat_step(pre: Seq<RowView>, plain: Seq<RowView>, rows: Seq<RowView>, s: int, m: int)
    requires
        0 <= s <= m <= rows.len(),
    ensures
        pre + (plain + rows.subrange(s, m)) + rows.subrange(m, rows.len() as int) == pre + plain
            + rows.subrange(s, rows.len() as int),
{
    assert(pre + (plain + rows.subrange(s, m)) + rows.subrange(m, rows.len() as int) =~= pre + plain
        + rows.subrange(s, rows.len() as int));
}

proof fn lemma_keep_rows_at_end(rows: Seq<RowView>, plain: Seq<RowView>, blocks: Seq<BlockView>)
    ensures
        plain_rows(flush(blocks, plain)) == plain_rows(blocks) + plain + rows.subrange(
            rows.len() as int,
            rows.len() as int,
        ),
{
    if plain.len() > 0 {
        lemma_plain_rows_push(blocks, BlockView::Rows(plain));
    }
    assert(plain_rows(blocks) + plain =~= plain_rows(blocks) + plain + rows.subrange(
        rows.len() as int,
        rows.len() as int,
    ));
}

proof fn lemma_comparison_stays(
    rows: Seq<RowView>,
    entries: Seq<RootSetupEntry>,
    end: int,
    b2: Seq<BlockView>,
)
    requires
        b2.len() > 0,
        b2.last() is Comparison,
    ensures
        has_comparison(blocks_from(rows, entries, end, Seq::empty(), b2)),
{
    lemma_blocks_extend(rows, entries, end, Seq::empty(), b2);
    let r = blocks_from(rows, entries, end, Seq::empty(), b2);
    assert(r.subrange(0, b2.len() as int)[b2.len() - 1] == r[b2.len() - 1]);
    assert(r[b2.len() - 1] is Comparison);
}

#[verifier::rlimit(30)]
proof fn lemma_blocks_keep_rows(
    rows: Seq<RowView>,
    entries: Seq<RootSetupEntry>,
    i: int,
    plain: Seq<RowView>,
    blocks: Seq<BlockView>,
)
    requires
        contiguous(entries),
        entries_within(rows, entries),
        entries.len() > 0 ==> entries.last().end == rows.len(),
        0 <= i <= entries.len(),
        !has_comparison(blocks_from(rows, entries, i, plain, blocks)),
    ensures
        plain_rows(blocks_from(rows, entries, i, plain, blocks)) == plain_rows(blocks) + plain
            + rows.subrange(entry_start(rows, entries, i), rows.len() as int),
    decreases entries.len() - i,
{
    if i >= entries.len() {
        lemma_keep_rows_at_end(rows, plain, blocks);
    } else if entries[i].corner is None {
        let e = entries[i];
        lemma_blocks_keep_rows(rows, entries, i + 1, plain + entry_rows(rows, e), blocks);
        if i + 1 < entries.len() {
            assert(entries[i + 1 - 1].end == entries[i + 1].start);
        }
        assert(entry_start(rows, entries, i + 1) == e.end);
        lemma_concat_step(plain_rows(blocks), plain, rows, e.start as int, e.end as int);
    } else {
        let end = run_end(entries, i);
        lemma_run_end_bounds(entries, i);
        match comparison_of(rows, entries.subrange(i, end)) {
            Some(c) => {
                lemma_comparison_stays(rows, entries, end, flush(blocks, plain).push(BlockView::Comparison(c)));
            },
            None => {
                let run = run_rows(rows, entries, i, end);
                lemma_blocks_keep_rows(rows, entries, end, plain + run, blocks);
                lemma_run_rows(rows, entries, i, end);
                if end < entries.len() {
                    assert(entries[end - 1].end == entries[end].start);
                }
                assert(entry_start(rows, entries, end) == entries[end - 1].end);
                lemma_entries_ordered(rows, entries, i, end - 1);
                lemma_concat_step(
                    plain_rows(blocks),
                    plain,
                    rows,
                    entries[i].start as int,
                    entries[end - 1].end as int,
                );
            },
        }
    }
}

/// When no corner table can be built, a section's rows are shown as they
/// are: all of them, in order.
pub proof fn lemma_rows_kept_without_comparison(rows: Seq<RowView>)
    requires
        rows.len() <= usize::MAX,
        !has_comparison(content_blocks(rows)),
    ensures
        plain_rows(content_blocks(rows)) == rows,
{
    if nests_well(rows) {
        lemma_root_entries_exist(rows);
        let es = root_entries(rows);
        lemma_blocks_keep_rows(rows, es, 0, Seq::empty(), Seq::empty());
        assert(plain_rows(Seq::<BlockView>::empty()) == Seq::<RowView>::empty());
        if es.len() == 0 {
            assert(rows.len() == 0);
        }
        assert(entry_start(rows, es, 0) == 0);
        assert(rows.subrange(0, rows.len() as int) =~= rows);
        assert(Seq::<RowView>::empty() + Seq::<RowView>::empty() + rows =~= rows);
    } else {
        let bs = seq![BlockView::Rows(rows)];
        lemma_plain_rows_push(Seq::empty(), BlockView::Rows(rows));
        assert(Seq::<BlockView>::empty().push(BlockView::Rows(rows)) =~= bs);
        assert(Seq::<RowView>::empty() + rows =~= rows);
    }
}

} // verus!
