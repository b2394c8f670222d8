//! The persisted Telemetry dashboard layout and its normalization: unknown keys
//! are dropped, the first occurrence of a key wins and missing ids take their
//! default place or value.
use vstd::prelude::*;
use crate::dashboard::{ChartId, LapAnalysisCardId, LayoutId, SetupCardId};
use crate::flags::FlagMap;
use crate::layout::{first_flags, normalized_order};
use crate::text::{contains_string, position_of_string, str_is_blank, string_views, to_owned_string};

verus! {

/// A stable, UI-independent boolean value in a persisted dashboard layout.
#[derive(Debug, Clone, PartialEq, Eq)]
pub struct DashboardLayoutFlag {
    pub key: String,
    pub value: bool,
}

/// The `(key, value)` views of dashboard flags.
pub open spec fn dashboard_flag_views(flags: Seq<DashboardLayoutFlag>) -> Seq<(Seq<char>, bool)> {
    flags.map_values(|f: DashboardLayoutFlag| (f.key@, f.value))
}

/// The ids named by `keys`, each kept at its first occurrence; unknown keys are skipped.
pub open spec fn known_order<Id: LayoutId>(keys: Seq<Seq<char>>) -> Seq<Id>
    decreases keys.len(),
{
    if keys.len() == 0 {
        Seq::empty()
    } else {
        let prev = known_order::<Id>(keys.drop_last());
        match Id::id_from_key(keys.last()) {
            Some(id) => if prev.contains(id) {
                prev
            } else {
                prev.push(id)
            },
            None => prev,
        }
    }
}

/// `order` followed by the ids of `defaults` that it lacks, in their default order.
pub open spec fn append_missing<Id>(order: Seq<Id>, defaults: Seq<Id>) -> Seq<Id>
    decreases defaults.len(),
{
    if defaults.len() == 0 {
        order
    } else {
        let prev = append_missing(order, defaults.drop_last());
        if prev.contains(defaults.last()) {
            prev
        } else {
            prev.push(defaults.last())
        }
    }
}

/// The normalized order of a persisted id list.
pub open spec fn layout_order<Id: LayoutId>(keys: Seq<Seq<char>>, defaults: Seq<Id>) -> Seq<Id> {
    append_missing(known_order::<Id>(keys), defaults)
}

/// Whether some flag of `flags` names `id`.
pub open spec fn flag_names<Id: LayoutId>(flags: Seq<(Seq<char>, bool)>, id: Id) -> bool {
    exists|j: int| 0 <= j < flags.len() && Id::id_from_key(#[trigger] flags[j].0) == Some(id)
}

/// `defaults` with the value of the first flag naming each id put at that id's index.
pub open spec fn layout_flags<Id: LayoutId>(flags: Seq<(Seq<char>, bool)>, defaults: Seq<bool>) -> Seq<bool>
    decreases flags.len(),
{
    if flags.len() == 0 {
        defaults
    } else {
        let prev = layout_flags::<Id>(flags.drop_last(), defaults);
        match Id::id_from_key(flags.last().0) {
            Some(id) => if flag_names(flags.drop_last(), id) {
                prev
            } else {
                prev.update(id.id_index() as int, flags.last().1)
            },
            None => prev,
        }
    }
}

pub proof fn lemma_known_order_distinct<Id: LayoutId>(keys: Seq<Seq<char>>)
    ensures
        known_order::<Id>(keys).no_duplicates(),
    decreases keys.len(),
{
    if keys.len() > 0 {
        lemma_known_order_distinct::<Id>(keys.drop_last());
    }
}

pub proof fn lemma_append_missing<Id>(order: Seq<Id>, defaults: Seq<Id>, id: Id)
    ensures
        order.no_duplicates() ==> append_missing(order, defaults).no_duplicates(),
        append_missing(order, defaults).contains(id) <==> (order.contains(id) || defaults.contains(id)),
        append_missing(order, defaults).len() >= order.len(),
        append_missing(order, defaults).subrange(0, order.len() as int) == order,
    decreases defaults.len(),
{
    if defaults.len() > 0 {
        let d = defaults.drop_last();
        lemma_append_missing(order, d, id);
        let prev = append_missing(order, d);
        if d.contains(id) {
            let i = choose|i: int| 0 <= i < d.len() && d[i] == id;
            assert(defaults[i] == id);
        }
        if defaults.contains(id) && defaults.last() != id {
            let i = choose|i: int| 0 <= i < defaults.len() && defaults[i] == id;
            assert(d[i] == id);
        }
        if id == defaults.last() {
            assert(defaults[defaults.len() - 1] == id);
            if !prev.contains(id) {
                assert(prev.push(id)[prev.len() as int] == id);
            }
        }
        if !prev.contains(defaults.last()) {
            let n = prev.push(defaults.last());
            assert(n.subrange(0, order.len() as int) =~= prev.subrange(0, order.len() as int));
            if prev.contains(id) {
                let i = choose|i: int| 0 <= i < prev.len() && prev[i] == id;
                assert(n[i] == id);
            }
            if n.contains(id) && id != defaults.last() {
                let i = choose|i: int| 0 <= i < n.len() && n[i] == id;
                assert(prev[i] == id);
            }
        }
    }
}

/// A normalized layout order names no id twice, names exactly the ids of its
/// known keys and of its defaults, and begins with the known keys in their
/// persisted order.
pub proof fn lemma_layout_order<Id: LayoutId>(keys: Seq<Seq<char>>, defaults: Seq<Id>, id: Id)
    ensures
        layout_order(keys, defaults).no_duplicates(),
        layout_order(keys, defaults).contains(id) <==> (known_order::<Id>(keys).contains(id)
            || defaults.contains(id)),
        layout_order(keys, defaults).subrange(0, known_order::<Id>(keys).len() as int)
            == known_order::<Id>(keys),
{
    lemma_known_order_distinct::<Id>(keys);
    lemma_append_missing(known_order::<Id>(keys), defaults, id);
}

/// When the defaults name every id, a normalized layout order names every id exactly once.
pub proof fn lemma_layout_order_complete<Id: LayoutId>(keys: Seq<Seq<char>>, defaults: Seq<Id>)
    requires
        forall|id: Id| #[trigger] defaults.contains(id),
    ensures
        layout_order(keys, defaults).no_duplicates(),
        forall|id: Id| #[trigger] layout_order(keys, defaults).contains(id),
{
    assert forall|id: Id| #[trigger] layout_order(keys, defaults).contains(id) by {
        lemma_layout_order(keys, defaults, id);
    }
    if defaults.len() > 0 {
        lemma_layout_order(keys, defaults, defaults[0]);
    } else {
        lemma_known_order_distinct::<Id>(keys);
    }
}

/// The ids named by `keys`, first occurrence first, followed by the ids of
/// `default_order` that they do not name.
pub fn normalize_layout_order<Id: LayoutId>(keys: &[String], default_order: &[Id]) -> (r: Vec<Id>)
    ensures
        r@ == layout_order(string_views(keys@), default_order@),
{
    let mut normalized: Vec<Id> = Vec::new();
    let mut i: usize = 0;
    while i < keys.len()
        invariant
            i <= keys@.len(),
            normalized@ == known_order::<Id>(string_views(keys@).take(i as int)),
        decreases keys@.len() - i,
    {
        assert(string_views(keys@).take(i + 1).drop_last() =~= string_views(keys@).take(i as int));
        assert(string_views(keys@).take(i + 1).last() == keys@[i as int]@);
        match Id::layout_from_key(keys[i].as_str()) {
            Some(id) => {
                if !contains_id(&normalized, id) {
                    normalized.push(id);
                }
            },
            None => {},
        }
        i = i + 1;
    }
    assert(string_views(keys@).take(keys@.len() as int) =~= string_views(keys@));
    let ghost known = normalized@;
    let mut j: usize = 0;
    while j < default_order.len()
        invariant
            j <= default_order@.len(),
            normalized@ == append_missing(known, default_order@.take(j as int)),
        decreases default_order@.len() - j,
    {
        assert(default_order@.take(j + 1).drop_last() =~= default_order@.take(j as int));
        let id = default_order[j];
        if !contains_id(&normalized, id) {
            normalized.push(id);
        }
        j = j + 1;
    }
    assert(default_order@.take(default_order@.len() as int) =~= default_order@);
    normalized
}

/// The first flag naming `id` sets its value; later flags naming it are ignored,
/// and ids that no flag names keep their default.
pub proof fn lemma_layout_flags_first_wins<Id: LayoutId>(
    flags: Seq<(Seq<char>, bool)>,
    defaults: Seq<bool>,
    id: Id,
)
    requires
        defaults.len() >= Id::id_count(),
    ensures
        layout_flags::<Id>(flags, defaults).len() == defaults.len(),
        !flag_names(flags, id) ==> layout_flags::<Id>(flags, defaults)[id.id_index() as int]
            == defaults[id.id_index() as int],
        forall|j: int|
            0 <= j < flags.len() && Id::id_from_key(#[trigger] flags[j].0) == Some(id) && !flag_names(
                flags.take(j),
                id,
            ) ==> layout_flags::<Id>(flags, defaults)[id.id_index() as int] == flags[j].1,
    decreases flags.len(),
{
    Id::lemma_index_injective(id, id);
    if flags.len() > 0 {
        let prefix = flags.drop_last();
        lemma_layout_flags_first_wins::<Id>(prefix, defaults, id);
        let last = flags.last();
        match Id::id_from_key(last.0) {
            Some(other) => {
                Id::lemma_index_injective(other, id);
            },
            None => {},
        }
        if flag_names(prefix, id) {
            let k = choose|k: int| 0 <= k < prefix.len() && Id::id_from_key(#[trigger] prefix[k].0) == Some(id);
            assert(flags[k] == prefix[k]);
        }
        assert forall|j: int|
            0 <= j < flags.len() && Id::id_from_key(#[trigger] flags[j].0) == Some(id) && !flag_names(
                flags.take(j),
                id,
            ) implies layout_flags::<Id>(flags, defaults)[id.id_index() as int] == flags[j].1 by {
            if j < flags.len() - 1 {
                assert(prefix[j] == flags[j]);
                assert(prefix.take(j) =~= flags.take(j));
                assert(flag_names(prefix, id));
                if Id::id_from_key(last.0) == Some(id) {
                    assert(flags.take(flags.len() - 1) =~= prefix);
                }
            } else {
                assert(flags.take(j) =~= prefix);
            }
        }
        if !flag_names(flags, id) {
            if flag_names(prefix, id) {
                let k = choose|k: int| 0 <= k < prefix.len() && Id::id_from_key(#[trigger] prefix[k].0) == Some(id);
                assert(flags[k] == prefix[k]);
            }
            assert(Id::id_from_key(flags[flags.len() - 1].0) != Some(id));
        }
    }
}

/// `defaults` with the value of the first flag naming each id; `defaults`
/// has a slot for every id and may have more.
pub fn normalize_layout_flags<Id: LayoutId>(flags: &[DashboardLayoutFlag], defaults: &[bool]) -> (r: Vec<bool>)
    requires
        defaults@.len() >= Id::id_count(),
    ensures
        r@ == layout_flags::<Id>(dashboard_flag_views(flags@), defaults@),
{
    let ghost fv = dashboard_flag_views(flags@);
    let mut normalized: Vec<bool> = Vec::new();
    let mut seen: Vec<bool> = Vec::new();
    let mut k: usize = 0;
    while k < defaults.len()
        invariant
            k <= defaults@.len(),
            normalized@ == defaults@.take(k as int),
            seen@.len() == k,
            forall|m: int| 0 <= m < k ==> !seen@[m],
        decreases defaults@.len() - k,
    {
        normalized.push(defaults[k]);
        seen.push(false);
        k = k + 1;
        assert(normalized@ =~= defaults@.take(k as int));
    }
    assert(defaults@.take(defaults@.len() as int) =~= defaults@);
    assert forall|id: Id| #[trigger] seen@[id.id_index() as int] == flag_names(fv.take(0), id) by {
        Id::lemma_index_injective(id, id);
    }
    let mut i: usize = 0;
    while i < flags.len()
        invariant
            i <= flags@.len(),
            fv == dashboard_flag_views(flags@),
            defaults@.len() >= Id::id_count(),
            normalized@ == layout_flags::<Id>(fv.take(i as int), defaults@),
            seen@.len() == defaults@.len(),
            forall|id: Id| #[trigger] seen@[id.id_index() as int] == flag_names(fv.take(i as int), id),
        decreases flags@.len() - i,
    {
        let ghost before = fv.take(i as int);
        assert(fv.take(i + 1).drop_last() =~= before);
        assert(fv.take(i + 1).last() == (flags@[i as int].key@, flags@[i as int].value));
        match Id::layout_from_key(flags[i].key.as_str()) {
            Some(id) => {
                let index = id.layout_index();
                proof {
                    Id::lemma_index_injective(id, id);
                    lemma_layout_flags_first_wins::<Id>(before, defaults@, id);
                }
                if !seen[index] {
                    normalized.set(index, flags[i].value);
                    seen.set(index, true);
                }
                proof {
                    assert forall|other: Id| #[trigger] seen@[other.id_index() as int] == flag_names(fv.take(i + 1), other) by {
                        Id::lemma_index_injective(other, id);
                        Id::lemma_index_injective(other, other);
                        if flag_names(before, other) {
                            let j = choose|j: int| 0 <= j < before.len() && Id::id_from_key(#[trigger] before[j].0) == Some(other);
                            assert(fv.take(i + 1)[j] == before[j]);
                        }
                        if other == id {
                            assert(fv.take(i + 1)[i as int].0 == flags@[i as int].key@);
                        }
                        if flag_names(fv.take(i + 1), other) && other != id {
                            let j = choose|j: int| 0 <= j < i + 1 && Id::id_from_key(#[trigger] fv.take(i + 1)[j].0) == Some(other);
                            assert(before[j] == fv.take(i + 1)[j]);
                        }
                    }
                }
            },
            None => {
                proof {
                    assert forall|other: Id| #[trigger] seen@[other.id_index() as int] == flag_names(fv.take(i + 1), other) by {
                        if flag_names(before, other) {
                            let j = choose|j: int| 0 <= j < before.len() && Id::id_from_key(#[trigger] before[j].0) == Some(other);
                            assert(fv.take(i + 1)[j] == before[j]);
                        }
                        if flag_names(fv.take(i + 1), other) {
                            let j = choose|j: int| 0 <= j < i + 1 && Id::id_from_key(#[trigger] fv.take(i + 1)[j].0) == Some(other);
                            if j < i {
                                assert(before[j] == fv.take(i + 1)[j]);
                            }
                        }
                    }
                }
            },
        }
        i = i + 1;
    }
    assert(fv.take(flags@.len() as int) =~= fv);
    normalized
}

/// The index of the first `x` in `s`.
pub open spec fn first_position<T>(s: Seq<T>, x: T) -> int {
    choose|i: int| 0 <= i < s.len() && s[i] == x && forall|j: int| 0 <= j < i ==> s[j] != x
}

pub proof fn lemma_first_position<T>(s: Seq<T>, i: int)
    requires
        0 <= i < s.len(),
        forall|j: int| 0 <= j < i ==> s[j] != s[i],
    ensures
        first_position(s, s[i]) == i,
{
    let x = s[i];
    assert(0 <= i < s.len() && s[i] == x && forall|j: int| 0 <= j < i ==> s[j] != x);
    let k = first_position(s, x);
    if k < i {
        assert(s[k] != x);
    }
    if k > i {
        assert(s[i] != x);
    }
}

/// An element of a sequence has a first position.
pub proof fn lemma_first_position_exists<T>(s: Seq<T>, x: T)
    requires
        s.contains(x),
    ensures
        0 <= first_position(s, x) < s.len(),
        s[first_position(s, x)] == x,
        forall|j: int| 0 <= j < first_position(s, x) ==> s[j] != x,
{
    let k = choose|k: int| 0 <= k < s.len() && s[k] == x;
    let m = lemma_least_index(s, x, k);
    lemma_first_position(s, m);
}

proof fn lemma_least_index<T>(s: Seq<T>, x: T, k: int) -> (m: int)
    requires
        0 <= k < s.len(),
        s[k] == x,
    ensures
        0 <= m <= k,
        s[m] == x,
        forall|j: int| 0 <= j < m ==> s[j] != x,
    decreases k,
{
    if exists|j: int| 0 <= j < k && s[j] == x {
        let j = choose|j: int| 0 <= j < k && s[j] == x;
        lemma_least_index(s, x, j)
    } else {
        k
    }
}

/// A move that changes something gives another order, with the same items.
pub proof fn lemma_moved_differs<T>(order: Seq<T>, item: T, target: T)
    requires
        moves(order, item, target),
    ensures
        moved(order, item, target) != order,
        forall|x: T| moved(order, item, target).contains(x) <==> order.contains(x),
{
    lemma_first_position_exists(order, item);
    lemma_first_position_exists(order, target);
    let pf = first_position(order, item);
    let pt = first_position(order, target);
    let removed = order.remove(pf);
    let m = removed.insert(pt, item);
    assert(m[pt] == item);
    assert(order[pt] == target);
    if item == target {
        assert(pf == pt);
    }
    assert(m[pt] != order[pt]);
    assert forall|x: T| m.contains(x) <==> order.contains(x) by {
        if m.contains(x) {
            let i = choose|i: int| 0 <= i < m.len() && m[i] == x;
            if i == pt {
                assert(order[pf] == x);
            } else if i < pt {
                if i < pf {
                    assert(order[i] == x);
                } else {
                    assert(order[i + 1] == x);
                }
            } else {
                if i - 1 < pf {
                    assert(order[i - 1] == x);
                } else {
                    assert(order[i] == x);
                }
            }
        }
        if order.contains(x) {
            let i = choose|i: int| 0 <= i < order.len() && order[i] == x;
            if i == pf {
                assert(m[pt] == x);
            } else {
                let r = if i < pf { i } else { i - 1 };
                assert(removed[r] == x);
                if r < pt {
                    assert(m[r] == x);
                } else {
                    assert(m[r + 1] == x);
                }
            }
        }
    }
}

/// Whether moving `item` to the place of `target` changes `order`: both are
/// present and their first occurrences differ.
pub open spec fn moves<T>(order: Seq<T>, item: T, target: T) -> bool {
    order.contains(item) && order.contains(target) && first_position(order, item)
        != first_position(order, target)
}

/// `order` with the first `item` taken out and put back at the index where the
/// first `target` stood.
pub open spec fn moved<T>(order: Seq<T>, item: T, target: T) -> Seq<T> {
    order.remove(first_position(order, item)).insert(first_position(order, target), item)
}

/// Moves the first `item` of `order` to the index of the first `target`;
/// returns whether anything moved.
pub fn move_item_to<Id: LayoutId>(order: &mut Vec<Id>, item: Id, target: Id) -> (r: bool)
    ensures
        r == moves(old(order)@, item, target),
        r ==> final(order)@ == moved(old(order)@, item, target),
        !r ==> final(order)@ == old(order)@,
        final(order)@.to_multiset() == old(order)@.to_multiset(),
        r ==> final(order)@[first_position(old(order)@, target)] == item,
{
    let from = match position_id(order, item) {
        Some(from) => from,
        None => {
            return false;
        },
    };
    let to = match position_id(order, target) {
        Some(to) => to,
        None => {
            return false;
        },
    };
    proof {
        lemma_first_position(old(order)@, from as int);
        lemma_first_position(old(order)@, to as int);
    }
    if from == to {
        return false;
    }
    let ghost before = order@;
    let removed = order.remove(from);
    let len = order.len();
    let at = if to < len { to } else { len };
    order.insert(at, removed);
    proof {
        broadcast use vstd::seq_lib::to_multiset_remove, vstd::seq_lib::to_multiset_insert;
        broadcast use vstd::multiset::group_multiset_axioms;
        assert(before.remove(from as int).to_multiset() == before.to_multiset().remove(before[from as int]));
        assert(before.remove(from as int).insert(to as int, item).to_multiset() == before.remove(from as int).to_multiset().insert(item));
        broadcast use vstd::seq_lib::to_multiset_contains;
        assert(before[from as int] == item);
        assert(before.contains(item));
        assert(before.to_multiset().count(item) > 0);
        assert(before.to_multiset().remove(item).insert(item) =~= before.to_multiset());
    }
    true
}

fn position_id<Id: LayoutId>(v: &Vec<Id>, id: Id) -> (r: Option<usize>)
    ensures
        match r {
            Some(i) => i < v@.len() && v@[i as int] == id && forall|j: int| 0 <= j < i ==> v@[j] != id,
            None => !v@.contains(id),
        },
{
    let mut i: usize = 0;
    while i < v.len()
        invariant
            i <= v@.len(),
            forall|j: int| 0 <= j < i ==> v@[j] != id,
        decreases v@.len() - i,
    {
        if v[i].same(id) {
            return Some(i);
        }
        i = i + 1;
    }
    None
}

/// Moves the first `item` of `order` to the index of the first `target`;
/// returns whether anything moved.
pub fn move_dynamic_item_to(order: &mut Vec<String>, item: &str, target: &str) -> (r: bool)
    ensures
        r == moves(string_views(old(order)@), item@, target@),
        r ==> string_views(final(order)@) == moved(string_views(old(order)@), item@, target@),
        !r ==> final(order)@ == old(order)@,
        string_views(final(order)@).to_multiset() == string_views(old(order)@).to_multiset(),
{
    let ghost views = string_views(order@);
    let from = match position_of_string(order.as_slice(), item) {
        Some(from) => from,
        None => {
            return false;
        },
    };
    let to = match position_of_string(order.as_slice(), target) {
        Some(to) => to,
        None => {
            return false;
        },
    };
    proof {
        assert(views[from as int] == item@);
        assert(views[to as int] == target@);
        assert forall|j: int| 0 <= j < from implies views[j] != views[from as int] by {
            assert(order@[j]@ != item@);
        }
        assert forall|j: int| 0 <= j < to implies views[j] != views[to as int] by {
            assert(order@[j]@ != target@);
        }
        lemma_first_position(views, from as int);
        lemma_first_position(views, to as int);
    }
    if from == to {
        return false;
    }
    let ghost before = order@;
    let removed = order.remove(from);
    let len = order.len();
    let at = if to < len { to } else { len };
    order.insert(at, removed);
    proof {
        assert(string_views(order@) =~= views.remove(from as int).insert(to as int, item@));
        broadcast use vstd::seq_lib::to_multiset_remove, vstd::seq_lib::to_multiset_insert;
        broadcast use vstd::multiset::group_multiset_axioms;
        assert(views.remove(from as int).to_multiset() == views.to_multiset().remove(views[from as int]));
        assert(views.remove(from as int).insert(to as int, item@).to_multiset() == views.remove(from as int).to_multiset().insert(item@));
        broadcast use vstd::seq_lib::to_multiset_contains;
        assert(views.contains(item@));
        assert(views.to_multiset().count(item@) > 0);
        assert(views.to_multiset().remove(item@).insert(item@) =~= views.to_multiset());
    }
    true
}

/// The non-blank keys of `keys`, each at its first occurrence.
pub fn normalize_dynamic_order(keys: &[String]) -> (r: Vec<String>)
    ensures
        string_views(r@) == normalized_order(string_views(keys@)),
{
    crate::layout::normalize_order(keys)
}

/// The flags with a non-blank key, the first flag of each key winning.
pub fn normalize_dynamic_flags(flags: &[DashboardLayoutFlag]) -> (r: FlagMap)
    ensures
        r@ == first_flags(dashboard_flag_views(flags@)),
{
    let mut normalized = FlagMap::new();
    let mut i: usize = 0;
    while i < flags.len()
        invariant
            i <= flags@.len(),
            normalized@ == first_flags(dashboard_flag_views(flags@).take(i as int)),
        decreases flags@.len() - i,
    {
        let flag = &flags[i];
        assert(dashboard_flag_views(flags@).take(i + 1).drop_last() =~= dashboard_flag_views(flags@).take(i as int));
        if !str_is_blank(flag.key.as_str()) {
            normalized.insert_if_absent(flag.key.clone(), flag.value);
        }
        i = i + 1;
    }
    assert(dashboard_flag_views(flags@).take(flags@.len() as int) =~= dashboard_flag_views(flags@));
    normalized
}

fn contains_id<Id: LayoutId>(v: &Vec<Id>, id: Id) -> (r: bool)
    ensures
        r == v@.contains(id),
{
    let mut i: usize = 0;
    while i < v.len()
        invariant
            i <= v@.len(),
            forall|j: int| 0 <= j < i ==> v@[j] != id,
        decreases v@.len() - i,
    {
        if v[i].same(id) {
            return true;
        }
        i = i + 1;
    }
    false
}

} // verus!

verus! {

/// The tab of the Telemetry dashboard.
#[derive(Debug, Clone, Copy, PartialEq, Eq, Structural)]
pub enum DashboardTab {
    Telemetry,
    CarSetup,
}

impl Default for DashboardTab {
    fn default() -> (r: Self)
        ensures
            r == DashboardTab::Telemetry,
    {
        DashboardTab::Telemetry
    }
}

/// The number of chart columns.
#[derive(Debug, Clone, Copy, PartialEq, Eq, Structural)]
pub enum ChartColumns {
    One,
    Two,
}

impl Default for ChartColumns {
    fn default() -> (r: Self)
        ensures
            r == ChartColumns::One,
    {
        ChartColumns::One
    }
}

impl ChartColumns {
    pub open spec fn spec_count(self) -> nat {
        match self {
            ChartColumns::One => 1,
            ChartColumns::Two => 2,
        }
    }

    pub fn count(self) -> (r: usize)
        ensures
            r == self.spec_count(),
    {
        match self {
            ChartColumns::One => 1,
            ChartColumns::Two => 2,
        }
    }

    /// The value under which the column count is persisted.
    pub fn persisted_value(self) -> (r: u8)
        ensures
            r == self.spec_count(),
    {
        match self {
            ChartColumns::One => 1,
            ChartColumns::Two => 2,
        }
    }

    /// The column count persisted as `value`; anything but 2 means one column.
    pub fn from_persisted_value(value: u8) -> (r: Self)
        ensures
            r == (if value == 2 {
                ChartColumns::Two
            } else {
                ChartColumns::One
            }),
    {
        if value == 2 {
            ChartColumns::Two
        } else {
            ChartColumns::One
        }
    }

    /// Persisting a column count and reading it back gives the same count.
    pub proof fn lemma_persisted_round_trip(self)
        ensures
            (if self.spec_count() == 2 {
                ChartColumns::Two
            } else {
                ChartColumns::One
            }) == self,
    {
    }
}

impl ChartId {
    /// The charts in their default order.
    pub open spec fn spec_default_order() -> Seq<ChartId> {
        seq![
            ChartId::Speed,
            ChartId::Delta,
            ChartId::Pedal,
            ChartId::BrakePressure,
            ChartId::Abs,
            ChartId::Steering,
            ChartId::SteeringTorque,
            ChartId::Gear,
            ChartId::Rpm,
            ChartId::Dynamics,
            ChartId::Yaw,
            ChartId::WheelSlip,
            ChartId::Suspension,
            ChartId::Tyre,
            ChartId::Fuel,
        ]
    }

    /// The charts visible by default.
    pub open spec fn spec_default_visible() -> Seq<ChartId> {
        seq![ChartId::Speed, ChartId::Pedal, ChartId::Steering]
    }

    /// The charts in their default order.
    pub fn default_order() -> (r: Vec<ChartId>)
        ensures
            r@ == Self::spec_default_order(),
    {
        let r = vec![
            ChartId::Speed,
            ChartId::Delta,
            ChartId::Pedal,
            ChartId::BrakePressure,
            ChartId::Abs,
            ChartId::Steering,
            ChartId::SteeringTorque,
            ChartId::Gear,
            ChartId::Rpm,
            ChartId::Dynamics,
            ChartId::Yaw,
            ChartId::WheelSlip,
            ChartId::Suspension,
            ChartId::Tyre,
            ChartId::Fuel,
        ];
        assert(r@ =~= Self::spec_default_order());
        r
    }

    /// The charts visible by default.
    pub fn default_visible() -> (r: Vec<ChartId>)
        ensures
            r@ == Self::spec_default_visible(),
    {
        let r = vec![ChartId::Speed, ChartId::Pedal, ChartId::Steering];
        assert(r@ =~= Self::spec_default_visible());
        r
    }

    /// The default order names every chart exactly once.
    pub proof fn lemma_default_order_complete()
        ensures
            Self::spec_default_order().no_duplicates(),
            forall|c: ChartId| #[trigger] Self::spec_default_order().contains(c),
    {
        let o = Self::spec_default_order();
        assert forall|c: ChartId| #[trigger] o.contains(c) by {
            match c {
                ChartId::Speed => assert(o[0] == c),
                ChartId::Delta => assert(o[1] == c),
                ChartId::Pedal => assert(o[2] == c),
                ChartId::BrakePressure => assert(o[3] == c),
                ChartId::Abs => assert(o[4] == c),
                ChartId::Steering => assert(o[5] == c),
                ChartId::SteeringTorque => assert(o[6] == c),
                ChartId::Gear => assert(o[7] == c),
                ChartId::Rpm => assert(o[8] == c),
                ChartId::Dynamics => assert(o[9] == c),
                ChartId::Yaw => assert(o[10] == c),
                ChartId::WheelSlip => assert(o[11] == c),
                ChartId::Suspension => assert(o[12] == c),
                ChartId::Tyre => assert(o[13] == c),
                ChartId::Fuel => assert(o[14] == c),
            }
        }
    }
}

/// The views `(key, value)` of flags built from ids and values.
pub open spec fn id_flag_views<Id: LayoutId>(ids: Seq<Id>, values: Seq<bool>) -> Seq<(Seq<char>, bool)> {
    Seq::new(ids.len(), |i: int| (ids[i].id_key(), values[i]))
}

/// The keys of ids.
pub open spec fn id_keys<Id: LayoutId>(ids: Seq<Id>) -> Seq<Seq<char>> {
    ids.map_values(|id: Id| id.id_key())
}

/// The persisted keys of `ids`.
pub fn keys_of<Id: LayoutId>(ids: &[Id]) -> (r: Vec<String>)
    ensures
        string_views(r@) == id_keys(ids@),
{
    let mut keys: Vec<String> = Vec::new();
    let mut i: usize = 0;
    while i < ids.len()
        invariant
            i <= ids@.len(),
            string_views(keys@) == id_keys(ids@.take(i as int)),
        decreases ids@.len() - i,
    {
        let key = to_owned_string(ids[i].layout_key());
        assert(key@ == ids@[i as int].id_key());
        let ghost prev = keys@;
        keys.push(key);
        assert(string_views(keys@) =~= string_views(prev).push(ids@[i as int].id_key()));
        assert(ids@.take(i + 1) =~= ids@.take(i as int).push(ids@[i as int]));
        i = i + 1;
        assert(string_views(keys@) =~= id_keys(ids@.take(i as int)));
    }
    assert(ids@.take(ids@.len() as int) =~= ids@);
    keys
}

/// Flags pairing each id with the value at the same position.
pub fn flags_of<Id: LayoutId>(ids: &[Id], values: &[bool]) -> (r: Vec<DashboardLayoutFlag>)
    requires
        ids@.len() == values@.len(),
    ensures
        dashboard_flag_views(r@) == id_flag_views(ids@, values@),
{
    let mut flags: Vec<DashboardLayoutFlag> = Vec::new();
    let mut i: usize = 0;
    while i < ids.len()
        invariant
            i <= ids@.len(),
            ids@.len() == values@.len(),
            dashboard_flag_views(flags@) == id_flag_views(ids@.take(i as int), values@),
        decreases ids@.len() - i,
    {
        let key = to_owned_string(ids[i].layout_key());
        assert(key@ == ids@[i as int].id_key());
        let ghost prev = flags@;
        flags.push(DashboardLayoutFlag { key, value: values[i] });
        assert(dashboard_flag_views(flags@) =~= dashboard_flag_views(prev).push((ids@[i as int].id_key(), values@[i as int])));
        i = i + 1;
        assert(dashboard_flag_views(flags@) =~= id_flag_views(ids@.take(i as int), values@));
    }
    assert(ids@.take(ids@.len() as int) =~= ids@);
    flags
}

/// The user-customizable parts of the telemetry dashboard layout.
///
/// Keys are stable across display-name changes. Unknown, duplicate, or missing
/// keys are normalized when a layout is applied.
#[derive(Debug, Clone, PartialEq, Eq)]
pub struct DashboardLayout {
    pub chart_order: Vec<String>,
    pub chart_visibility: Vec<DashboardLayoutFlag>,
    pub chart_collapsed: Vec<DashboardLayoutFlag>,
    pub chart_columns: u8,
    pub setup_card_order: Vec<String>,
    pub setup_card_collapsed: Vec<DashboardLayoutFlag>,
    pub lap_analysis_order: Vec<String>,
    pub lap_analysis_collapsed: Vec<DashboardLayoutFlag>,
    pub car_setup_card_order: Vec<String>,
    pub car_setup_card_collapsed: Vec<DashboardLayoutFlag>,
}

/// `n` copies of `false`.
pub fn all_false(n: usize) -> (r: Vec<bool>)
    ensures
        r@ == Seq::new(n as nat, |i: int| false),
{
    let mut v: Vec<bool> = Vec::new();
    let mut i: usize = 0;
    while i < n
        invariant
            i <= n,
            v@ == Seq::new(i as nat, |k: int| false),
        decreases n - i,
    {
        v.push(false);
        i = i + 1;
        assert(v@ =~= Seq::new(i as nat, |k: int| false));
    }
    v
}

/// The default visibility of every chart, in declaration order.
pub fn default_chart_visibility() -> (r: Vec<bool>)
    ensures
        r@ == ChartId::spec_all().map_values(|c: ChartId| ChartId::spec_default_visible().contains(c)),
{
    let all = ChartId::all();
    let visible = ChartId::default_visible();
    let mut v: Vec<bool> = Vec::new();
    let mut i: usize = 0;
    while i < all.len()
        invariant
            i <= all@.len(),
            all@ == ChartId::spec_all(),
            visible@ == ChartId::spec_default_visible(),
            v@ == all@.take(i as int).map_values(|c: ChartId| visible@.contains(c)),
        decreases all@.len() - i,
    {
        v.push(contains_id(&visible, all[i]));
        i = i + 1;
        assert(v@ =~= all@.take(i as int).map_values(|c: ChartId| visible@.contains(c)));
    }
    assert(all@.take(all@.len() as int) =~= all@);
    v
}

impl Default for DashboardLayout {
    fn default() -> (r: Self)
        ensures
            string_views(r.chart_order@) == id_keys(ChartId::spec_default_order()),
            dashboard_flag_views(r.chart_visibility@) == id_flag_views(
                ChartId::spec_all(),
                ChartId::spec_all().map_values(|c: ChartId| ChartId::spec_default_visible().contains(c)),
            ),
            dashboard_flag_views(r.chart_collapsed@) == id_flag_views(
                ChartId::spec_all(),
                Seq::new(15, |i: int| false),
            ),
            r.chart_columns == 1,
            string_views(r.setup_card_order@) == id_keys(SetupCardId::spec_all()),
            dashboard_flag_views(r.setup_card_collapsed@) == id_flag_views(
                SetupCardId::spec_all(),
                Seq::new(4, |i: int| false),
            ),
            string_views(r.lap_analysis_order@) == id_keys(LapAnalysisCardId::spec_all()),
            dashboard_flag_views(r.lap_analysis_collapsed@) == id_flag_views(
                LapAnalysisCardId::spec_all(),
                Seq::new(7, |i: int| false),
            ),
            r.car_setup_card_order@.len() == 0,
            r.car_setup_card_collapsed@.len() == 0,
    {
        let charts = ChartId::all();
        let setup_cards = SetupCardId::all();
        let lap_cards = LapAnalysisCardId::all();
        DashboardLayout {
            chart_order: keys_of(ChartId::default_order().as_slice()),
            chart_visibility: flags_of(charts.as_slice(), default_chart_visibility().as_slice()),
            chart_collapsed: flags_of(charts.as_slice(), all_false(15).as_slice()),
            chart_columns: ChartColumns::One.persisted_value(),
            setup_card_order: keys_of(setup_cards.as_slice()),
            setup_card_collapsed: flags_of(setup_cards.as_slice(), all_false(4).as_slice()),
            lap_analysis_order: keys_of(lap_cards.as_slice()),
            lap_analysis_collapsed: flags_of(lap_cards.as_slice(), all_false(7).as_slice()),
            car_setup_card_order: Vec::new(),
            car_setup_card_collapsed: Vec::new(),
        }
    }
}

/// The user-customizable layout of the Telemetry screen: the dashboard layout
/// without the Car Setup cards, which the Car Setup screen keeps for itself.
#[derive(Debug, Clone, PartialEq, Eq)]
pub struct TelemetryLayout {
    pub chart_order: Vec<String>,
    pub chart_visibility: Vec<DashboardLayoutFlag>,
    pub chart_collapsed: Vec<DashboardLayoutFlag>,
    pub chart_columns: u8,
    pub setup_card_order: Vec<String>,
    pub setup_card_collapsed: Vec<DashboardLayoutFlag>,
    pub lap_analysis_order: Vec<String>,
    pub lap_analysis_collapsed: Vec<DashboardLayoutFlag>,
}

impl Default for TelemetryLayout {
    fn default() -> (r: Self)
        ensures
            string_views(r.chart_order@) == id_keys(ChartId::spec_default_order()),
            dashboard_flag_views(r.chart_visibility@) == id_flag_views(
                ChartId::spec_all(),
                ChartId::spec_all().map_values(|c: ChartId| ChartId::spec_default_visible().contains(c)),
            ),
            dashboard_flag_views(r.chart_collapsed@) == id_flag_views(
                ChartId::spec_all(),
                Seq::new(15, |i: int| false),
            ),
            r.chart_columns == 1,
            string_views(r.setup_card_order@) == id_keys(SetupCardId::spec_all()),
            dashboard_flag_views(r.setup_card_collapsed@) == id_flag_views(
                SetupCardId::spec_all(),
                Seq::new(4, |i: int| false),
            ),
            string_views(r.lap_analysis_order@) == id_keys(LapAnalysisCardId::spec_all()),
            dashboard_flag_views(r.lap_analysis_collapsed@) == id_flag_views(
                LapAnalysisCardId::spec_all(),
                Seq::new(7, |i: int| false),
            ),
    {
        let d = DashboardLayout::default();
        TelemetryLayout {
            chart_order: d.chart_order,
            chart_visibility: d.chart_visibility,
            chart_collapsed: d.chart_collapsed,
            chart_columns: d.chart_columns,
            setup_card_order: d.setup_card_order,
            setup_card_collapsed: d.setup_card_collapsed,
            lap_analysis_order: d.lap_analysis_order,
            lap_analysis_collapsed: d.lap_analysis_collapsed,
        }
    }
}

/// The keys of distinct ids lead back to the same ids.
pub proof fn lemma_known_order_of_keys<Id: LayoutId>(order: Seq<Id>)
    requires
        order.no_duplicates(),
    ensures
        known_order::<Id>(id_keys(order)) == order,
    decreases order.len(),
{
    if order.len() > 0 {
        let prefix = order.drop_last();
        lemma_known_order_of_keys::<Id>(prefix);
        assert(id_keys(order).drop_last() =~= id_keys(prefix));
        Id::lemma_all(order.last());
        if prefix.contains(order.last()) {
            let i = choose|i: int| 0 <= i < prefix.len() && prefix[i] == order.last();
            assert(order[i] == order[order.len() - 1]);
        }
        assert(prefix.push(order.last()) =~= order);
    }
}

/// An order that already holds every default gains nothing from them.
pub proof fn lemma_append_missing_complete<Id>(order: Seq<Id>, defaults: Seq<Id>)
    requires
        forall|i: int| 0 <= i < defaults.len() ==> order.contains(#[trigger] defaults[i]),
    ensures
        append_missing(order, defaults) == order,
    decreases defaults.len(),
{
    if defaults.len() > 0 {
        let d = defaults.drop_last();
        assert forall|i: int| 0 <= i < d.len() implies order.contains(#[trigger] d[i]) by {
            assert(d[i] == defaults[i]);
        }
        lemma_append_missing_complete(order, d);
        assert(order.contains(defaults[defaults.len() - 1]));
    }
}

/// The keys of an order that names every id once normalize back to it.
pub proof fn lemma_layout_order_of_keys<Id: LayoutId>(order: Seq<Id>, defaults: Seq<Id>)
    requires
        order.no_duplicates(),
        forall|id: Id| #[trigger] order.contains(id),
    ensures
        layout_order(id_keys(order), defaults) == order,
{
    lemma_known_order_of_keys::<Id>(order);
    assert forall|i: int| 0 <= i < defaults.len() implies order.contains(#[trigger] defaults[i]) by {
        assert(order.contains(defaults[i]));
    }
    lemma_append_missing_complete(order, defaults);
}

/// The first `k` flags of every id with its value set the first `k` values.
proof fn lemma_layout_flags_prefix<Id: LayoutId>(values: Seq<bool>, defaults: Seq<bool>, k: int)
    requires
        values.len() == Id::id_count(),
        defaults.len() == Id::id_count(),
        Id::id_all().len() == Id::id_count(),
        forall|i: int| 0 <= i < Id::id_count() ==> (#[trigger] Id::id_all()[i]).id_index() == i,
        0 <= k <= Id::id_count(),
    ensures
        layout_flags::<Id>(id_flag_views(Id::id_all(), values).take(k), defaults) == Seq::new(
            Id::id_count(),
            |i: int| if i < k { values[i] } else { defaults[i] },
        ),
    decreases k,
{
    let all = Id::id_all();
    let flags = id_flag_views(all, values);
    if k == 0 {
        assert(flags.take(0) =~= Seq::<(Seq<char>, bool)>::empty());
        assert(Seq::new(Id::id_count(), |i: int| if i < 0 { values[i] } else { defaults[i] }) =~= defaults);
    } else {
        lemma_layout_flags_prefix::<Id>(values, defaults, k - 1);
        let id = all[k - 1];
        Id::lemma_all(id);
        assert(flags.take(k).drop_last() =~= flags.take(k - 1));
        assert(flags.take(k).last() == (id.id_key(), values[k - 1]));
        if flag_names(flags.take(k - 1), id) {
            let j = choose|j: int| 0 <= j < k - 1 && Id::id_from_key(#[trigger] flags.take(k - 1)[j].0) == Some(id);
            Id::lemma_all(all[j]);
            assert(flags.take(k - 1)[j].0 == all[j].id_key());
            Id::lemma_index_injective(all[j], id);
        }
        assert(layout_flags::<Id>(flags.take(k), defaults) =~= Seq::new(
            Id::id_count(),
            |i: int| if i < k { values[i] } else { defaults[i] },
        ));
    }
}

/// The flags of every id with its value normalize back to those values.
pub proof fn lemma_layout_flags_of_values<Id: LayoutId>(values: Seq<bool>, defaults: Seq<bool>)
    requires
        Id::id_count() > 0,
        values.len() == Id::id_count(),
        defaults.len() == Id::id_count(),
    ensures
        layout_flags::<Id>(id_flag_views(Id::id_all(), values), defaults) == values,
{
    let all = Id::id_all();
    Id::lemma_all(all[0]);
    let n = Id::id_count() as int;
    lemma_layout_flags_prefix::<Id>(values, defaults, n);
    assert(id_flag_views(all, values).take(n) =~= id_flag_views(all, values));
    assert(Seq::new(Id::id_count(), |i: int| if i < n { values[i] } else { defaults[i] }) =~= values);
}

} // verus!
