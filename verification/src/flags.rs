//! An ordered map from layout keys to boolean flags, as persisted layouts store them.
use vstd::prelude::*;
use crate::text::{chars_of, str_eq};

verus! {

/// The map that a list of `(key, value)` entries with distinct keys denotes.
pub open spec fn entries_map(entries: Seq<(Seq<char>, bool)>) -> Map<Seq<char>, bool>
    decreases entries.len(),
{
    if entries.len() == 0 {
        Map::empty()
    } else {
        entries_map(entries.drop_last()).insert(entries.last().0, entries.last().1)
    }
}

/// The views of a list of `(String, bool)` entries.
pub open spec fn entry_views(entries: Seq<(String, bool)>) -> Seq<(Seq<char>, bool)> {
    entries.map_values(|e: (String, bool)| (e.0@, e.1))
}

/// Whether no two entries share a key.
pub open spec fn distinct_keys(entries: Seq<(Seq<char>, bool)>) -> bool {
    forall|i: int, j: int|
        0 <= i < entries.len() && 0 <= j < entries.len() && i != j ==> #[trigger] entries[i].0
            != #[trigger] entries[j].0
}

pub proof fn lemma_entries_map_domain(entries: Seq<(Seq<char>, bool)>, k: Seq<char>)
    ensures
        entries_map(entries).dom().contains(k) <==> exists|i: int|
            0 <= i < entries.len() && (#[trigger] entries[i]).0 == k,
    decreases entries.len(),
{
    if entries.len() > 0 {
        lemma_entries_map_domain(entries.drop_last(), k);
        if entries_map(entries).dom().contains(k) && entries.last().0 != k {
            let i = choose|i: int| 0 <= i < entries.len() - 1 && (#[trigger] entries.drop_last()[i]).0 == k;
            assert(entries[i].0 == k);
        }
        if exists|i: int| 0 <= i < entries.len() && (#[trigger] entries[i]).0 == k {
            let i = choose|i: int| 0 <= i < entries.len() && (#[trigger] entries[i]).0 == k;
            if i < entries.len() - 1 {
                assert(entries.drop_last()[i].0 == k);
            }
        }
    }
}

pub proof fn lemma_entries_map_value(entries: Seq<(Seq<char>, bool)>, i: int)
    requires
        distinct_keys(entries),
        0 <= i < entries.len(),
    ensures
        entries_map(entries).dom().contains(entries[i].0),
        entries_map(entries)[entries[i].0] == entries[i].1,
    decreases entries.len(),
{
    lemma_entries_map_domain(entries, entries[i].0);
    if i < entries.len() - 1 {
        let prefix = entries.drop_last();
        assert(prefix[i] == entries[i]);
        assert forall|a: int, b: int|
            0 <= a < prefix.len() && 0 <= b < prefix.len() && a != b implies #[trigger] prefix[a].0
            != #[trigger] prefix[b].0 by {
            assert(prefix[a] == entries[a] && prefix[b] == entries[b]);
        }
        lemma_entries_map_value(prefix, i);
        assert(entries.last().0 != entries[i].0);
    }
}



pub proof fn lemma_entries_map_len(entries: Seq<(Seq<char>, bool)>)
    requires
        distinct_keys(entries),
    ensures
        entries_map(entries).dom().finite(),
        entries_map(entries).dom().len() == entries.len(),
    decreases entries.len(),
{
    if entries.len() > 0 {
        let prefix = entries.drop_last();
        assert forall|a: int, b: int|
            0 <= a < prefix.len() && 0 <= b < prefix.len() && a != b implies #[trigger] prefix[a].0
            != #[trigger] prefix[b].0 by {
            assert(prefix[a] == entries[a] && prefix[b] == entries[b]);
        }
        lemma_entries_map_len(prefix);
        lemma_entries_map_domain(prefix, entries.last().0);
        if entries_map(prefix).dom().contains(entries.last().0) {
            let i = choose|i: int| 0 <= i < prefix.len() && (#[trigger] prefix[i]).0 == entries.last().0;
            assert(entries[i].0 == entries[entries.len() - 1].0);
        }
    }
}

pub proof fn lemma_entries_map_drop_first(entries: Seq<(Seq<char>, bool)>)
    requires
        distinct_keys(entries),
        entries.len() > 0,
    ensures
        distinct_keys(entries.drop_first()),
        entries_map(entries.drop_first()) == entries_map(entries).remove(entries[0].0),
{
    let rest = entries.drop_first();
    let k = entries[0].0;
    assert forall|a: int, b: int|
        0 <= a < rest.len() && 0 <= b < rest.len() && a != b implies #[trigger] rest[a].0
        != #[trigger] rest[b].0 by {
        assert(rest[a] == entries[a + 1] && rest[b] == entries[b + 1]);
    }
    let m = entries_map(entries).remove(k);
    assert forall|x: Seq<char>| #[trigger] entries_map(rest).dom().contains(x) <==> m.dom().contains(x) by {
        lemma_entries_map_domain(rest, x);
        lemma_entries_map_domain(entries, x);
        if entries_map(rest).dom().contains(x) {
            let j = choose|j: int| 0 <= j < rest.len() && (#[trigger] rest[j]).0 == x;
            assert(entries[j + 1].0 == x);
            assert(entries[0].0 != entries[j + 1].0);
        }
        if m.dom().contains(x) {
            let j = choose|j: int| 0 <= j < entries.len() && (#[trigger] entries[j]).0 == x;
            assert(j != 0);
            assert(rest[j - 1].0 == x);
        }
    }
    assert forall|x: Seq<char>| #[trigger] entries_map(rest).dom().contains(x) implies entries_map(rest)[x] == m[x] by {
        lemma_entries_map_domain(rest, x);
        let j = choose|j: int| 0 <= j < rest.len() && (#[trigger] rest[j]).0 == x;
        lemma_entries_map_value(rest, j);
        assert(rest[j] == entries[j + 1]);
        lemma_entries_map_value(entries, j + 1);
    }
    assert(entries_map(rest) =~= m);
}

/// A map has one sorted listing: sorted entries that denote the same map are
/// the same entries.
pub proof fn lemma_sorted_unique(a: Seq<(Seq<char>, bool)>, b: Seq<(Seq<char>, bool)>)
    requires
        sorted_keys(a),
        sorted_keys(b),
        entries_map(a) == entries_map(b),
    ensures
        a == b,
    decreases a.len(),
{
    lemma_sorted_distinct(a);
    lemma_sorted_distinct(b);
    lemma_entries_map_len(a);
    lemma_entries_map_len(b);
    if a.len() == 0 {
        assert(a =~= b);
    } else {
        let ka = a[0].0;
        let kb = b[0].0;
        lemma_entries_map_domain(a, ka);
        lemma_entries_map_domain(b, ka);
        lemma_entries_map_domain(a, kb);
        lemma_entries_map_domain(b, kb);
        let j = choose|j: int| 0 <= j < b.len() && (#[trigger] b[j]).0 == ka;
        let i = choose|i: int| 0 <= i < a.len() && (#[trigger] a[i]).0 == kb;
        if j != 0 {
            assert(key_lt(b[0].0, b[j].0));
            if i != 0 {
                assert(key_lt(a[0].0, a[i].0));
                lemma_key_lt_transitive(ka, kb, ka);
                lemma_key_lt_irreflexive(ka);
            }
            assert(false);
        }
        lemma_entries_map_value(a, 0);
        lemma_entries_map_value(b, 0);
        assert(a[0] == b[0]);
        lemma_entries_map_drop_first(a);
        lemma_entries_map_drop_first(b);
        assert forall|x: int, y: int| 0 <= x < y < a.drop_first().len() implies key_lt(
            #[trigger] a.drop_first()[x].0,
            #[trigger] a.drop_first()[y].0,
        ) by {
            assert(key_lt(a[x + 1].0, a[y + 1].0));
        }
        assert forall|x: int, y: int| 0 <= x < y < b.drop_first().len() implies key_lt(
            #[trigger] b.drop_first()[x].0,
            #[trigger] b.drop_first()[y].0,
        ) by {
            assert(key_lt(b[x + 1].0, b[y + 1].0));
        }
        lemma_sorted_unique(a.drop_first(), b.drop_first());
        assert(a =~= seq![a[0]] + a.drop_first());
        assert(b =~= seq![b[0]] + b.drop_first());
    }
}
/// The order of `str` and `String`: lexicographic by code point. (They compare
/// their UTF-8 bytes, and UTF-8 keeps the order of code points.)
pub open spec fn key_lt(a: Seq<char>, b: Seq<char>) -> bool
    decreases a.len(),
{
    if a.len() == 0 {
        b.len() > 0
    } else if b.len() == 0 {
        false
    } else if a[0] != b[0] {
        (a[0] as u32) < (b[0] as u32)
    } else {
        key_lt(a.drop_first(), b.drop_first())
    }
}

pub proof fn lemma_key_lt_irreflexive(a: Seq<char>)
    ensures
        !key_lt(a, a),
    decreases a.len(),
{
    if a.len() > 0 {
        lemma_key_lt_irreflexive(a.drop_first());
    }
}

pub proof fn lemma_key_lt_transitive(a: Seq<char>, b: Seq<char>, c: Seq<char>)
    requires
        key_lt(a, b),
        key_lt(b, c),
    ensures
        key_lt(a, c),
    decreases a.len(),
{
    if a.len() > 0 && b.len() > 0 && c.len() > 0 && a[0] == b[0] && b[0] == c[0] {
        lemma_key_lt_transitive(a.drop_first(), b.drop_first(), c.drop_first());
    }
}

pub proof fn lemma_key_lt_total(a: Seq<char>, b: Seq<char>)
    requires
        a != b,
    ensures
        key_lt(a, b) || key_lt(b, a),
    decreases a.len(),
{
    if a.len() == 0 && b.len() == 0 {
        assert(a =~= b);
    } else if a.len() > 0 && b.len() > 0 && a[0] != b[0] {
        vstd::utf8::char_u32_cast(a[0], a[0] as u32);
        vstd::utf8::char_u32_cast(b[0], b[0] as u32);
    } else if a.len() > 0 && b.len() > 0 && a[0] == b[0] {
        if a.drop_first() == b.drop_first() {
            assert(a =~= seq![a[0]] + a.drop_first());
            assert(b =~= seq![b[0]] + b.drop_first());
        }
        lemma_key_lt_total(a.drop_first(), b.drop_first());
    }
}

/// Past a common prefix, the order is decided by what follows it.
pub proof fn lemma_key_lt_skip(a: Seq<char>, b: Seq<char>, i: int)
    requires
        0 <= i <= a.len(),
        i <= b.len(),
        a.take(i) == b.take(i),
    ensures
        key_lt(a, b) == key_lt(a.skip(i), b.skip(i)),
    decreases i,
{
    if i == 0 {
        assert(a.skip(0) =~= a);
        assert(b.skip(0) =~= b);
    } else {
        assert(a[0] == a.take(i)[0] && b[0] == b.take(i)[0]);
        assert(a.drop_first().take(i - 1) =~= a.take(i).drop_first());
        assert(b.drop_first().take(i - 1) =~= b.take(i).drop_first());
        lemma_key_lt_skip(a.drop_first(), b.drop_first(), i - 1);
        assert(a.drop_first().skip(i - 1) =~= a.skip(i));
        assert(b.drop_first().skip(i - 1) =~= b.skip(i));
    }
}

/// `a < b` on strings.
pub fn key_less(a: &str, b: &str) -> (r: bool)
    ensures
        r == key_lt(a@, b@),
{
    let ac = chars_of(a);
    let bc = chars_of(b);
    let mut i: usize = 0;
    while i < ac.len() && i < bc.len()
        invariant
            i <= ac@.len(),
            i <= bc@.len(),
            ac@ == a@,
            bc@ == b@,
            ac@.take(i as int) == bc@.take(i as int),
        decreases ac@.len() - i,
    {
        if ac[i] != bc[i] {
            proof {
                lemma_key_lt_skip(a@, b@, i as int);
                assert(a@.skip(i as int)[0] == ac@[i as int]);
                assert(b@.skip(i as int)[0] == bc@[i as int]);
            }
            return (ac[i] as u32) < (bc[i] as u32);
        }
        proof {
            assert(ac@.take(i + 1) =~= ac@.take(i as int).push(ac@[i as int]));
            assert(bc@.take(i + 1) =~= bc@.take(i as int).push(bc@[i as int]));
        }
        i = i + 1;
    }
    proof {
        lemma_key_lt_skip(a@, b@, i as int);
    }
    i == ac.len() && i < bc.len()
}

/// Whether the keys rise strictly from each entry to the next.
pub open spec fn sorted_keys(entries: Seq<(Seq<char>, bool)>) -> bool {
    forall|i: int, j: int|
        0 <= i < j < entries.len() ==> key_lt(#[trigger] entries[i].0, #[trigger] entries[j].0)
}

pub proof fn lemma_sorted_distinct(entries: Seq<(Seq<char>, bool)>)
    requires
        sorted_keys(entries),
    ensures
        distinct_keys(entries),
{
    assert forall|i: int, j: int|
        0 <= i < entries.len() && 0 <= j < entries.len() && i != j implies #[trigger] entries[i].0
        != #[trigger] entries[j].0 by {
        lemma_key_lt_irreflexive(entries[i].0);
    }
}

/// Where `key` stands among sorted entries: every entry before `pos` is
/// smaller, and no entry from `pos` on is.
pub open spec fn splits_at(entries: Seq<(Seq<char>, bool)>, key: Seq<char>, pos: int) -> bool {
    &&& 0 <= pos <= entries.len()
    &&& forall|j: int| 0 <= j < pos ==> key_lt(#[trigger] entries[j].0, key)
    &&& pos < entries.len() ==> !key_lt(entries[pos].0, key)
}

pub proof fn lemma_split_excludes(entries: Seq<(Seq<char>, bool)>, key: Seq<char>, pos: int)
    requires
        sorted_keys(entries),
        splits_at(entries, key, pos),
        pos < entries.len() ==> entries[pos].0 != key,
    ensures
        forall|j: int| 0 <= j < entries.len() ==> (#[trigger] entries[j]).0 != key,
        forall|j: int| pos <= j < entries.len() ==> key_lt(key, #[trigger] entries[j].0),
{
    if pos < entries.len() {
        lemma_key_lt_total(entries[pos].0, key);
    }
    assert forall|j: int| pos <= j < entries.len() implies key_lt(key, #[trigger] entries[j].0) by {
        if j > pos {
            assert(key_lt(entries[pos].0, entries[j].0));
            lemma_key_lt_transitive(key, entries[pos].0, entries[j].0);
        }
    }
    assert forall|j: int| 0 <= j < entries.len() implies (#[trigger] entries[j]).0 != key by {
        if j < pos {
            assert(key_lt(entries[j].0, key));
        } else {
            assert(key_lt(key, entries[j].0));
        }
        lemma_key_lt_irreflexive(key);
    }
}

pub proof fn lemma_sorted_insert(entries: Seq<(Seq<char>, bool)>, pos: int, key: Seq<char>, value: bool)
    requires
        sorted_keys(entries),
        0 <= pos <= entries.len(),
        forall|j: int| 0 <= j < pos ==> key_lt(#[trigger] entries[j].0, key),
        forall|j: int| pos <= j < entries.len() ==> key_lt(key, #[trigger] entries[j].0),
    ensures
        sorted_keys(entries.insert(pos, (key, value))),
{
    let n = entries.insert(pos, (key, value));
    assert forall|a: int, b: int| 0 <= a < b < n.len() implies key_lt(#[trigger] n[a].0, #[trigger] n[b].0) by {
        if b < pos {
            assert(n[a] == entries[a] && n[b] == entries[b]);
        } else if b == pos {
            assert(n[a] == entries[a]);
        } else if a < pos {
            assert(n[a] == entries[a] && n[b] == entries[b - 1]);
            lemma_key_lt_transitive(entries[a].0, key, entries[b - 1].0);
        } else if a == pos {
            assert(n[b] == entries[b - 1]);
        } else {
            assert(n[a] == entries[a - 1] && n[b] == entries[b - 1]);
        }
    }
}

pub proof fn lemma_map_after_insert(entries: Seq<(Seq<char>, bool)>, pos: int, key: Seq<char>, value: bool)
    requires
        distinct_keys(entries),
        0 <= pos <= entries.len(),
        forall|j: int| 0 <= j < entries.len() ==> (#[trigger] entries[j]).0 != key,
    ensures
        distinct_keys(entries.insert(pos, (key, value))),
        entries_map(entries.insert(pos, (key, value))) == entries_map(entries).insert(key, value),
{
    let n = entries.insert(pos, (key, value));
    assert forall|a: int, b: int|
        0 <= a < n.len() && 0 <= b < n.len() && a != b implies #[trigger] n[a].0 != #[trigger] n[b].0 by {
        let ea = if a < pos { a } else { a - 1 };
        let eb = if b < pos { b } else { b - 1 };
        if a != pos && b != pos {
            assert(n[a] == entries[ea] && n[b] == entries[eb]);
        } else if a == pos {
            assert(n[b] == entries[eb]);
        } else {
            assert(n[a] == entries[ea]);
        }
    }
    let m = entries_map(entries).insert(key, value);
    assert forall|x: Seq<char>| #[trigger] entries_map(n).dom().contains(x) <==> m.dom().contains(x) by {
        lemma_entries_map_domain(n, x);
        lemma_entries_map_domain(entries, x);
        if x == key {
            assert(n[pos].0 == key);
        } else {
            if entries_map(entries).dom().contains(x) {
                let j = choose|j: int| 0 <= j < entries.len() && (#[trigger] entries[j]).0 == x;
                let k = if j < pos { j } else { j + 1 };
                assert(n[k] == entries[j]);
            }
            if entries_map(n).dom().contains(x) {
                let j = choose|j: int| 0 <= j < n.len() && (#[trigger] n[j]).0 == x;
                let k = if j < pos { j } else { j - 1 };
                assert(n[j] == entries[k]);
            }
        }
    }
    assert forall|x: Seq<char>| #[trigger] entries_map(n).dom().contains(x) implies entries_map(n)[x] == m[x] by {
        lemma_entries_map_domain(n, x);
        let j = choose|j: int| 0 <= j < n.len() && (#[trigger] n[j]).0 == x;
        lemma_entries_map_value(n, j);
        if j != pos {
            let k = if j < pos { j } else { j - 1 };
            assert(n[j] == entries[k]);
            lemma_entries_map_value(entries, k);
        }
    }
    assert(entries_map(n) =~= m);
}

pub proof fn lemma_map_after_update(entries: Seq<(Seq<char>, bool)>, pos: int, value: bool)
    requires
        distinct_keys(entries),
        0 <= pos < entries.len(),
    ensures
        distinct_keys(entries.update(pos, (entries[pos].0, value))),
        entries_map(entries.update(pos, (entries[pos].0, value))) == entries_map(entries).insert(
            entries[pos].0,
            value,
        ),
{
    let k = entries[pos].0;
    let e = entries.update(pos, (k, value));
    assert forall|a: int, b: int|
        0 <= a < e.len() && 0 <= b < e.len() && a != b implies #[trigger] e[a].0 != #[trigger] e[b].0 by {
        assert(entries[a].0 != entries[b].0);
    }
    let m = entries_map(entries).insert(k, value);
    assert forall|x: Seq<char>| #[trigger] entries_map(e).dom().contains(x) <==> m.dom().contains(x) by {
        lemma_entries_map_domain(e, x);
        lemma_entries_map_domain(entries, x);
        if x == k {
            assert(e[pos].0 == k);
        }
        if x != k && entries_map(entries).dom().contains(x) {
            let j = choose|j: int| 0 <= j < entries.len() && (#[trigger] entries[j]).0 == x;
            assert(e[j].0 == x);
        }
        if x != k && entries_map(e).dom().contains(x) {
            let j = choose|j: int| 0 <= j < e.len() && (#[trigger] e[j]).0 == x;
            assert(entries[j].0 == x);
        }
    }
    assert forall|x: Seq<char>| #[trigger] entries_map(e).dom().contains(x) implies entries_map(e)[x] == m[x] by {
        lemma_entries_map_domain(e, x);
        let j = choose|j: int| 0 <= j < e.len() && (#[trigger] e[j]).0 == x;
        lemma_entries_map_value(e, j);
        if x != k {
            assert(entries[j] == e[j]);
            lemma_entries_map_value(entries, j);
        }
    }
    assert(entries_map(e) =~= m);
}

/// A map from string keys to flags that keeps its entries sorted by key, as a
/// `BTreeMap<String, bool>` does.
#[derive(Debug)]
pub struct FlagMap {
    entries: Vec<(String, bool)>,
}

impl View for FlagMap {
    type V = Map<Seq<char>, bool>;

    closed spec fn view(&self) -> Map<Seq<char>, bool> {
        entries_map(entry_views(self.entries@))
    }
}

impl FlagMap {
    #[verifier::type_invariant]
    closed spec fn inv(self) -> bool {
        sorted_keys(entry_views(self.entries@))
    }

    /// The entries in key order.
    pub closed spec fn spec_entries(&self) -> Seq<(Seq<char>, bool)> {
        entry_views(self.entries@)
    }

    /// An empty map.
    pub fn new() -> (m: Self)
        ensures
            m@ == Map::<Seq<char>, bool>::empty(),
            m.spec_entries().len() == 0,
    {
        let m = FlagMap { entries: Vec::new() };
        assert(entry_views(m.entries@) =~= Seq::<(Seq<char>, bool)>::empty());
        m
    }

    /// The entries, in key order.
    pub fn entries(&self) -> (r: &Vec<(String, bool)>)
        ensures
            entry_views(r@) == self.spec_entries(),
            entries_map(entry_views(r@)) == self@,
            sorted_keys(entry_views(r@)),
            distinct_keys(entry_views(r@)),
    {
        proof {
            use_type_invariant(self);
            lemma_sorted_distinct(self.spec_entries());
        }
        &self.entries
    }

    /// A copy of this map.
    pub fn duplicate(&self) -> (r: Self)
        ensures
            r.spec_entries() == self.spec_entries(),
            r@ == self@,
    {
        proof {
            use_type_invariant(self);
        }
        let mut entries: Vec<(String, bool)> = Vec::new();
        let mut i: usize = 0;
        while i < self.entries.len()
            invariant
                i <= self.entries@.len(),
                entry_views(entries@) == entry_views(self.entries@).take(i as int),
            decreases self.entries@.len() - i,
        {
            let key = self.entries[i].0.clone();
            let ghost prev = entries@;
            entries.push((key, self.entries[i].1));
            assert(entry_views(entries@) =~= entry_views(prev).push(entry_views(self.entries@)[i as int]));
            assert(entry_views(self.entries@).take(i + 1) =~= entry_views(self.entries@).take(i as int).push(entry_views(self.entries@)[i as int]));
            i = i + 1;
        }
        assert(entry_views(self.entries@).take(i as int) =~= entry_views(self.entries@));
        FlagMap { entries }
    }

    /// The number of keys.
    pub fn len(&self) -> (r: usize)
        ensures
            r == self.spec_entries().len(),
            r == self@.dom().len(),
    {
        proof {
            use_type_invariant(self);
            lemma_sorted_distinct(self.spec_entries());
            lemma_entries_map_len(self.spec_entries());
        }
        self.entries.len()
    }

    /// Whether the two maps list the same entries (`BTreeMap`'s `==`, which
    /// compares the entries in key order).
    pub fn same_entries(&self, other: &FlagMap) -> (r: bool)
        ensures
            r == (self.spec_entries() == other.spec_entries()),
            r == (self@ == other@),
    {
        proof {
            use_type_invariant(self);
            use_type_invariant(other);
            if self@ == other@ {
                lemma_sorted_unique(self.spec_entries(), other.spec_entries());
            }
        }
        if self.entries.len() != other.entries.len() {
            return false;
        }
        let mut i: usize = 0;
        while i < self.entries.len()
            invariant
                i <= self.entries@.len(),
                self.entries@.len() == other.entries@.len(),
                entry_views(self.entries@).take(i as int) == entry_views(other.entries@).take(i as int),
                self@ == other@ ==> self.spec_entries() == other.spec_entries(),
            decreases self.entries@.len() - i,
        {
            if !str_eq(self.entries[i].0.as_str(), other.entries[i].0.as_str())
                || self.entries[i].1 != other.entries[i].1 {
                assert(entry_views(self.entries@)[i as int] != entry_views(other.entries@)[i as int]);
                return false;
            }
            assert(entry_views(self.entries@).take(i + 1) =~= entry_views(self.entries@).take(i as int).push(entry_views(self.entries@)[i as int]));
            assert(entry_views(other.entries@).take(i + 1) =~= entry_views(other.entries@).take(i as int).push(entry_views(other.entries@)[i as int]));
            i = i + 1;
        }
        assert(entry_views(self.entries@).take(i as int) =~= entry_views(self.entries@));
        assert(entry_views(other.entries@).take(i as int) =~= entry_views(other.entries@));
        true
    }

    /// Where `key` stands among the entries, and whether it is there.
    fn position(&self, key: &str) -> (r: (usize, bool))
        ensures
            splits_at(self.spec_entries(), key@, r.0 as int),
            r.1 == (r.0 < self.spec_entries().len() && self.spec_entries()[r.0 as int].0 == key@),
    {
        let mut i: usize = 0;
        while i < self.entries.len()
            invariant
                i <= self.entries@.len(),
                forall|j: int| 0 <= j < i ==> key_lt(#[trigger] entry_views(self.entries@)[j].0, key@),
            decreases self.entries@.len() - i,
        {
            if !key_less(self.entries[i].0.as_str(), key) {
                let found = str_eq(self.entries[i].0.as_str(), key);
                return (i, found);
            }
            i = i + 1;
        }
        (i, false)
    }

    /// The flag stored under `key`.
    pub fn get(&self, key: &str) -> (r: Option<bool>)
        ensures
            r == (if self@.dom().contains(key@) {
                Some(self@[key@])
            } else {
                None
            }),
    {
        proof {
            use_type_invariant(self);
            lemma_sorted_distinct(self.spec_entries());
            lemma_entries_map_domain(self.spec_entries(), key@);
        }
        let (pos, found) = self.position(key);
        if found {
            proof {
                lemma_entries_map_value(self.spec_entries(), pos as int);
            }
            Some(self.entries[pos].1)
        } else {
            proof {
                lemma_split_excludes(self.spec_entries(), key@, pos as int);
            }
            None
        }
    }

    /// Stores `value` under `key` unless `key` already has a flag
    /// (`BTreeMap::entry(key).or_insert(value)`).
    pub fn insert_if_absent(&mut self, key: String, value: bool)
        ensures
            final(self)@ == (if old(self)@.dom().contains(key@) {
                old(self)@
            } else {
                old(self)@.insert(key@, value)
            }),
    {
        proof {
            use_type_invariant(&*self);
            lemma_sorted_distinct(self.spec_entries());
            lemma_entries_map_domain(self.spec_entries(), key@);
        }
        let (pos, found) = self.position(key.as_str());
        if !found {
            let ghost old_entries = self.spec_entries();
            let ghost k = key@;
            proof {
                lemma_split_excludes(old_entries, k, pos as int);
                lemma_sorted_insert(old_entries, pos as int, k, value);
                lemma_map_after_insert(old_entries, pos as int, k, value);
            }
            let mut entries = Vec::new();
            std::mem::swap(&mut entries, &mut self.entries);
            entries.insert(pos, (key, value));
            assert(entry_views(entries@) =~= old_entries.insert(pos as int, (k, value)));
            self.entries = entries;
        } else {
            proof {
                lemma_entries_map_value(self.spec_entries(), pos as int);
            }
        }
    }

    /// Stores `value` under `key`, replacing any earlier flag (`BTreeMap::insert`).
    pub fn insert(&mut self, key: String, value: bool)
        ensures
            final(self)@ == old(self)@.insert(key@, value),
    {
        proof {
            use_type_invariant(&*self);
            lemma_sorted_distinct(self.spec_entries());
        }
        let (pos, found) = self.position(key.as_str());
        let ghost old_entries = self.spec_entries();
        let ghost k = key@;
        let mut entries = Vec::new();
        std::mem::swap(&mut entries, &mut self.entries);
        if found {
            entries.set(pos, (key, value));
            proof {
                lemma_map_after_update(old_entries, pos as int, value);
                let n = entry_views(entries@);
                assert(n =~= old_entries.update(pos as int, (k, value)));
                assert forall|a: int, b: int| 0 <= a < b < n.len() implies key_lt(#[trigger] n[a].0, #[trigger] n[b].0) by {
                    assert(key_lt(old_entries[a].0, old_entries[b].0));
                }
            }
        } else {
            proof {
                lemma_split_excludes(old_entries, k, pos as int);
                lemma_sorted_insert(old_entries, pos as int, k, value);
                lemma_map_after_insert(old_entries, pos as int, k, value);
            }
            entries.insert(pos, (key, value));
            assert(entry_views(entries@) =~= old_entries.insert(pos as int, (k, value)));
        }
        self.entries = entries;
    }
}

} // verus!
