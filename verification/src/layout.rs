//! Persisted layout values for the Car Setup screen, and the normalization of
//! user-editable layout keys: blank keys are dropped and the first occurrence
//! of a key wins.
use vstd::prelude::*;
use crate::flags::FlagMap;
use crate::text::{contains_string, is_blank, str_is_blank, string_views};

verus! {

/// A persisted boolean flag of one Car Setup card.
#[derive(Debug, Clone, PartialEq, Eq)]
pub struct CarSetupLayoutFlag {
    pub key: String,
    pub value: bool,
}

/// The user-customizable layout of the Car Setup screen.
#[derive(Debug, Clone, PartialEq, Eq)]
pub struct CarSetupLayout {
    pub card_order: Vec<String>,
    pub card_collapsed: Vec<CarSetupLayoutFlag>,
}

impl Default for CarSetupLayout {
    fn default() -> (r: Self)
        ensures
            r.card_order@.len() == 0,
            r.card_collapsed@.len() == 0,
    {
        CarSetupLayout { card_order: Vec::new(), card_collapsed: Vec::new() }
    }
}

/// The keys of `keys` that are not blank, each kept at its first occurrence.
pub open spec fn normalized_order(keys: Seq<Seq<char>>) -> Seq<Seq<char>>
    decreases keys.len(),
{
    if keys.len() == 0 {
        Seq::empty()
    } else {
        let prev = normalized_order(keys.drop_last());
        let k = keys.last();
        if !is_blank(k) && !prev.contains(k) {
            prev.push(k)
        } else {
            prev
        }
    }
}

/// The flags of `flags` with a non-blank key, the first flag of each key winning.
pub open spec fn first_flags(flags: Seq<(Seq<char>, bool)>) -> Map<Seq<char>, bool>
    decreases flags.len(),
{
    if flags.len() == 0 {
        Map::empty()
    } else {
        let prev = first_flags(flags.drop_last());
        let f = flags.last();
        if !is_blank(f.0) && !prev.dom().contains(f.0) {
            prev.insert(f.0, f.1)
        } else {
            prev
        }
    }
}

/// The `(key, value)` views of Car Setup flags.
pub open spec fn car_setup_flag_views(flags: Seq<CarSetupLayoutFlag>) -> Seq<(Seq<char>, bool)> {
    flags.map_values(|f: CarSetupLayoutFlag| (f.key@, f.value))
}

/// A normalized order holds no key twice.
pub proof fn lemma_normalized_order_distinct(keys: Seq<Seq<char>>)
    ensures
        normalized_order(keys).no_duplicates(),
    decreases keys.len(),
{
    if keys.len() > 0 {
        lemma_normalized_order_distinct(keys.drop_last());
    }
}

/// A normalized order holds exactly the non-blank keys of its input.
pub proof fn lemma_normalized_order_members(keys: Seq<Seq<char>>, k: Seq<char>)
    ensures
        normalized_order(keys).contains(k) <==> (keys.contains(k) && !is_blank(k)),
    decreases keys.len(),
{
    if keys.len() > 0 {
        let prefix = keys.drop_last();
        lemma_normalized_order_members(prefix, k);
        if prefix.contains(k) {
            let i = choose|i: int| 0 <= i < prefix.len() && prefix[i] == k;
            assert(keys[i] == k);
        }
        if keys.contains(k) && keys.last() != k {
            let i = choose|i: int| 0 <= i < keys.len() && keys[i] == k;
            assert(prefix[i] == k);
        }
        let prev = normalized_order(prefix);
        if !is_blank(keys.last()) && !prev.contains(keys.last()) {
            assert(prev.push(keys.last()).last() == keys.last());
            if prev.contains(k) {
                let i = choose|i: int| 0 <= i < prev.len() && prev[i] == k;
                assert(prev.push(keys.last())[i] == k);
            }
            if prev.push(keys.last()).contains(k) && k != keys.last() {
                let i = choose|i: int| 0 <= i < prev.len() + 1 && prev.push(keys.last())[i] == k;
                assert(prev[i] == k);
            }
        }
    }
}

/// Normalizing an order twice gives what normalizing it once gives.
pub proof fn lemma_normalized_order_idempotent(keys: Seq<Seq<char>>)
    ensures
        normalized_order(normalized_order(keys)) == normalized_order(keys),
    decreases keys.len(),
{
    if keys.len() > 0 {
        let prefix = keys.drop_last();
        lemma_normalized_order_idempotent(prefix);
        let prev = normalized_order(prefix);
        let k = keys.last();
        if !is_blank(k) && !prev.contains(k) {
            let n = prev.push(k);
            assert(n.drop_last() =~= prev);
            lemma_normalized_order_members(prev, k);
            assert(!normalized_order(prev).contains(k));
        }
    }
}

/// Every key that a flag map built by `first_flags` holds is the non-blank key
/// of some flag, and every non-blank key of a flag is held.
pub proof fn lemma_first_flags_domain(flags: Seq<(Seq<char>, bool)>, k: Seq<char>)
    ensures
        first_flags(flags).dom().contains(k) <==> (!is_blank(k) && exists|i: int|
            0 <= i < flags.len() && (#[trigger] flags[i]).0 == k),
    decreases flags.len(),
{
    if flags.len() > 0 {
        let prefix = flags.drop_last();
        lemma_first_flags_domain(prefix, k);
        if exists|i: int| 0 <= i < prefix.len() && (#[trigger] prefix[i]).0 == k {
            let i = choose|i: int| 0 <= i < prefix.len() && (#[trigger] prefix[i]).0 == k;
            assert(flags[i].0 == k);
        }
        if exists|i: int| 0 <= i < flags.len() && (#[trigger] flags[i]).0 == k {
            let i = choose|i: int| 0 <= i < flags.len() && (#[trigger] flags[i]).0 == k;
            if i < flags.len() - 1 {
                assert(prefix[i].0 == k);
            }
        }
    }
}

/// The flag kept for a key is the value of the first flag with that key.
pub proof fn lemma_first_flags_first_wins(flags: Seq<(Seq<char>, bool)>, i: int)
    requires
        0 <= i < flags.len(),
        !is_blank(flags[i].0),
        forall|j: int| 0 <= j < i ==> (#[trigger] flags[j]).0 != flags[i].0,
    ensures
        first_flags(flags).dom().contains(flags[i].0),
        first_flags(flags)[flags[i].0] == flags[i].1,
    decreases flags.len(),
{
    let prefix = flags.drop_last();
    if i < flags.len() - 1 {
        assert forall|j: int| 0 <= j < i implies (#[trigger] prefix[j]).0 != prefix[i].0 by {
            assert(prefix[j] == flags[j]);
        }
        lemma_first_flags_first_wins(prefix, i);
    } else {
        lemma_first_flags_domain(prefix, flags[i].0);
        if first_flags(prefix).dom().contains(flags[i].0) {
            let j = choose|j: int| 0 <= j < prefix.len() && (#[trigger] prefix[j]).0 == flags[i].0;
            assert(flags[j].0 == flags[i].0);
        }
    }
}

/// The non-blank keys of `keys`, each at its first occurrence.
pub fn normalize_order(keys: &[String]) -> (r: Vec<String>)
    ensures
        string_views(r@) == normalized_order(string_views(keys@)),
{
    let mut normalized: Vec<String> = Vec::new();
    let mut i: usize = 0;
    while i < keys.len()
        invariant
            i <= keys@.len(),
            string_views(normalized@) == normalized_order(string_views(keys@).take(i as int)),
        decreases keys@.len() - i,
    {
        let key = &keys[i];
        assert(string_views(keys@).take(i + 1).drop_last() =~= string_views(keys@).take(i as int));
        if !str_is_blank(key.as_str()) && !contains_string(normalized.as_slice(), key.as_str()) {
            let owned = key.clone();
            let ghost prev = normalized@;
            normalized.push(owned);
            assert(string_views(normalized@) =~= string_views(prev).push(key@));
        }
        i = i + 1;
    }
    assert(string_views(keys@).take(keys@.len() as int) =~= string_views(keys@));
    normalized
}

/// The flags with a non-blank key, the first flag of each key winning.
pub fn normalize_flags(flags: &[CarSetupLayoutFlag]) -> (r: FlagMap)
    ensures
        r@ == first_flags(car_setup_flag_views(flags@)),
{
    let mut normalized = FlagMap::new();
    let mut i: usize = 0;
    while i < flags.len()
        invariant
            i <= flags@.len(),
            normalized@ == first_flags(car_setup_flag_views(flags@).take(i as int)),
        decreases flags@.len() - i,
    {
        let flag = &flags[i];
        assert(car_setup_flag_views(flags@).take(i + 1).drop_last() =~= car_setup_flag_views(flags@).take(i as int));
        if !str_is_blank(flag.key.as_str()) {
            normalized.insert_if_absent(flag.key.clone(), flag.value);
        }
        i = i + 1;
    }
    assert(car_setup_flag_views(flags@).take(flags@.len() as int) =~= car_setup_flag_views(flags@));
    normalized
}

/// An order of distinct non-blank keys is already normalized.
pub proof fn lemma_normalized_order_of_normal(keys: Seq<Seq<char>>)
    requires
        keys.no_duplicates(),
        forall|i: int| 0 <= i < keys.len() ==> !is_blank(#[trigger] keys[i]),
    ensures
        normalized_order(keys) == keys,
    decreases keys.len(),
{
    if keys.len() > 0 {
        let prefix = keys.drop_last();
        assert forall|i: int| 0 <= i < prefix.len() implies !is_blank(#[trigger] prefix[i]) by {
            assert(prefix[i] == keys[i]);
        }
        lemma_normalized_order_of_normal(prefix);
        if prefix.contains(keys.last()) {
            let i = choose|i: int| 0 <= i < prefix.len() && prefix[i] == keys.last();
            assert(keys[i] == keys[keys.len() - 1]);
        }
        assert(prefix.push(keys.last()) =~= keys);
    }
}

/// Flags with distinct non-blank keys are taken as they are: the first flag
/// of each key is its only one.
pub proof fn lemma_first_flags_of_entries(flags: Seq<(Seq<char>, bool)>)
    requires
        crate::flags::distinct_keys(flags),
        forall|i: int| 0 <= i < flags.len() ==> !is_blank(#[trigger] flags[i].0),
    ensures
        first_flags(flags) == crate::flags::entries_map(flags),
    decreases flags.len(),
{
    if flags.len() > 0 {
        let prefix = flags.drop_last();
        assert forall|a: int, b: int|
            0 <= a < prefix.len() && 0 <= b < prefix.len() && a != b implies #[trigger] prefix[a].0
            != #[trigger] prefix[b].0 by {
            assert(prefix[a] == flags[a] && prefix[b] == flags[b]);
        }
        assert forall|i: int| 0 <= i < prefix.len() implies !is_blank(#[trigger] prefix[i].0) by {
            assert(prefix[i] == flags[i]);
        }
        lemma_first_flags_of_entries(prefix);
        crate::flags::lemma_entries_map_domain(prefix, flags.last().0);
        if crate::flags::entries_map(prefix).dom().contains(flags.last().0) {
            let i = choose|i: int| 0 <= i < prefix.len() && (#[trigger] prefix[i]).0 == flags.last().0;
            assert(flags[i].0 == flags[flags.len() - 1].0);
        }
        assert(!is_blank(flags[flags.len() - 1].0));
    }
}

} // verus!
