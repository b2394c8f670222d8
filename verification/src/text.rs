//! Character-level text primitives shared by the labelling and layout logic.
use vstd::prelude::*;
use vstd::std_specs::iter::IteratorSpec;

verus! {

broadcast use vstd::string::group_string_axioms;

/// The Unicode `White_Space` property, which `char::is_whitespace` tests.
pub open spec fn is_white_space(c: char) -> bool {
    ||| c == '\t' || c == '\n' || c == '\u{0B}' || c == '\u{0C}' || c == '\r' || c == ' '
    ||| c == '\u{85}' || c == '\u{A0}' || c == '\u{1680}'
    ||| ('\u{2000}' <= c && c <= '\u{200A}')
    ||| c == '\u{2028}' || c == '\u{2029}' || c == '\u{202F}' || c == '\u{205F}' || c == '\u{3000}'
}

/// Whether `c` has the Unicode `White_Space` property, as `char::is_whitespace`
/// tests it.
pub fn char_is_whitespace(c: char) -> (r: bool)
    ensures
        r == is_white_space(c),
{
    c == '\t' || c == '\n' || c == '\u{0B}' || c == '\u{0C}' || c == '\r' || c == ' ' || c == '\u{85}'
        || c == '\u{A0}' || c == '\u{1680}' || ('\u{2000}' <= c && c <= '\u{200A}') || c == '\u{2028}'
        || c == '\u{2029}' || c == '\u{202F}' || c == '\u{205F}' || c == '\u{3000}'
}

/// The characters of `s`, in order.
pub fn chars_of(s: &str) -> (r: Vec<char>)
    ensures
        r@ == s@,
{
    let mut it = s.chars();
    let mut out: Vec<char> = Vec::new();
    loop
        invariant
            it.obeys_prophetic_iter_laws(),
            it.decrease() is Some,
            out@ + it.remaining() == s@,
        ensures
            out@ == s@,
        decreases it.decrease()->0,
    {
        match it.next() {
            Some(c) => {
                out.push(c);
            },
            None => {
                break;
            },
        }
    }
    out
}

} // verus!

verus! {

/// True when `s` holds no character outside the Unicode `White_Space` set,
/// which is what `s.trim().is_empty()` tests.
pub open spec fn is_blank(s: Seq<char>) -> bool {
    forall|i: int| 0 <= i < s.len() ==> is_white_space(#[trigger] s[i])
}

/// The views of a sequence of strings.
pub open spec fn string_views(v: Seq<String>) -> Seq<Seq<char>> {
    v.map_values(|s: String| s@)
}

/// `s` with leading `White_Space` characters removed.
pub open spec fn trim_start(s: Seq<char>) -> Seq<char>
    decreases s.len(),
{
    if s.len() > 0 && is_white_space(s[0]) {
        trim_start(s.drop_first())
    } else {
        s
    }
}

/// `s` with trailing `White_Space` characters removed.
pub open spec fn trim_end(s: Seq<char>) -> Seq<char>
    decreases s.len(),
{
    if s.len() > 0 && is_white_space(s.last()) {
        trim_end(s.drop_last())
    } else {
        s
    }
}

/// `s` with leading and trailing `White_Space` characters removed, as `str::trim` does.
pub open spec fn trim(s: Seq<char>) -> Seq<char> {
    trim_end(trim_start(s))
}

proof fn lemma_trim_start_at(s: Seq<char>, k: int)
    requires
        0 <= k <= s.len(),
        forall|i: int| 0 <= i < k ==> is_white_space(#[trigger] s[i]),
        k == s.len() || !is_white_space(s[k]),
    ensures
        trim_start(s) == s.subrange(k, s.len() as int),
    decreases k,
{
    if k == 0 {
        assert(s.subrange(0, s.len() as int) =~= s);
    } else {
        let d = s.drop_first();
        assert forall|i: int| 0 <= i < k - 1 implies is_white_space(#[trigger] d[i]) by {
            assert(d[i] == s[i + 1]);
        }
        if k - 1 < d.len() {
            assert(d[k - 1] == s[k]);
        }
        lemma_trim_start_at(d, k - 1);
        assert(d.subrange(k - 1, d.len() as int) =~= s.subrange(k, s.len() as int));
    }
}

proof fn lemma_trim_end_at(t: Seq<char>, m: int)
    requires
        0 <= m <= t.len(),
        forall|i: int| m <= i < t.len() ==> is_white_space(#[trigger] t[i]),
        m == 0 || !is_white_space(t[m - 1]),
    ensures
        trim_end(t) == t.subrange(0, m),
    decreases t.len() - m,
{
    if m == t.len() {
        assert(t.subrange(0, m) =~= t);
    } else {
        let d = t.drop_last();
        assert(is_white_space(t[t.len() - 1]));
        assert forall|i: int| m <= i < d.len() implies is_white_space(#[trigger] d[i]) by {
            assert(d[i] == t[i]);
        }
        if m > 0 {
            assert(d[m - 1] == t[m - 1]);
        }
        lemma_trim_end_at(d, m);
        assert(d.subrange(0, m) =~= t.subrange(0, m));
    }
}

/// `s` without its leading and trailing `White_Space` characters, as
/// `str::trim` gives it.
pub fn str_trim(s: &str) -> (r: &str)
    ensures
        r@ == trim(s@),
{
    let cs = chars_of(s);
    let n = cs.len();
    let mut start: usize = 0;
    while start < n && char_is_whitespace(cs[start])
        invariant
            start <= n,
            n == cs@.len(),
            cs@ == s@,
            forall|i: int| 0 <= i < start ==> is_white_space(#[trigger] cs@[i]),
        decreases n - start,
    {
        start = start + 1;
    }
    let mut end: usize = n;
    while end > start && char_is_whitespace(cs[end - 1])
        invariant
            start <= end <= n,
            n == cs@.len(),
            cs@ == s@,
            forall|i: int| end <= i < n ==> is_white_space(#[trigger] cs@[i]),
        decreases end - start,
    {
        end = end - 1;
    }
    proof {
        lemma_trim_start_at(s@, start as int);
        let t = s@.subrange(start as int, n as int);
        assert forall|i: int| end - start <= i < t.len() implies is_white_space(#[trigger] t[i]) by {
            assert(t[i] == s@[start + i]);
        }
        if end > start {
            assert(t[end - start - 1] == s@[end - 1]);
        }
        lemma_trim_end_at(t, end - start);
        assert(t.subrange(0, end - start) =~= s@.subrange(start as int, end as int));
    }
    s.substring_char(start, end)
}

/// `str` equality: the two strings hold the same characters.
pub fn str_eq(a: &str, b: &str) -> (r: bool)
    ensures
        r == (a@ == b@),
{
    let ac = chars_of(a);
    let bc = chars_of(b);
    if ac.len() != bc.len() {
        return false;
    }
    let mut i: usize = 0;
    while i < ac.len()
        invariant
            ac@ == a@,
            bc@ == b@,
            ac@.len() == bc@.len(),
            i <= ac@.len(),
            forall|j: int| 0 <= j < i ==> ac@[j] == bc@[j],
        decreases ac@.len() - i,
    {
        if ac[i] != bc[i] {
            return false;
        }
        i = i + 1;
    }
    assert(a@ =~= b@);
    true
}

/// `String::push`: appends one character.
#[verifier::external_body]
pub fn push_char(s: &mut String, c: char)
    ensures
        final(s)@ == old(s)@.push(c),
{
    s.push(c);
}

/// A `String` holding `cs`.
pub fn string_from_chars(cs: &[char]) -> (r: String)
    ensures
        r@ == cs@,
{
    let mut out = String::new();
    let mut i: usize = 0;
    while i < cs.len()
        invariant
            i <= cs@.len(),
            out@ == cs@.take(i as int),
        decreases cs@.len() - i,
    {
        push_char(&mut out, cs[i]);
        i = i + 1;
        assert(out@ =~= cs@.take(i as int));
    }
    assert(cs@.take(cs@.len() as int) =~= cs@);
    out
}

/// Whether every character of `s` is Unicode `White_Space`.
pub fn str_is_blank(s: &str) -> (r: bool)
    ensures
        r == is_blank(s@),
{
    let cs = chars_of(s);
    let mut i: usize = 0;
    while i < cs.len()
        invariant
            i <= cs@.len(),
            cs@ == s@,
            forall|j: int| 0 <= j < i ==> is_white_space(#[trigger] cs@[j]),
        decreases cs@.len() - i,
    {
        if !char_is_whitespace(cs[i]) {
            return false;
        }
        i = i + 1;
    }
    true
}

/// An owned copy of `s`.
pub fn to_owned_string(s: &str) -> (r: String)
    ensures
        r@ == s@,
{
    s.to_owned()
}

/// Whether `v` holds a string equal to `k`.
pub fn contains_string(v: &[String], k: &str) -> (r: bool)
    ensures
        r == string_views(v@).contains(k@),
{
    let mut i: usize = 0;
    while i < v.len()
        invariant
            i <= v@.len(),
            forall|j: int| 0 <= j < i ==> (#[trigger] v@[j])@ != k@,
        decreases v@.len() - i,
    {
        if str_eq(v[i].as_str(), k) {
            assert(string_views(v@)[i as int] == k@);
            return true;
        }
        i = i + 1;
    }
    assert forall|j: int| 0 <= j < string_views(v@).len() implies string_views(v@)[j] != k@ by {
        assert(v@[j]@ != k@);
    }
    false
}


/// A copy of `v`.
pub fn clone_strings(v: &Vec<String>) -> (r: Vec<String>)
    ensures
        string_views(r@) == string_views(v@),
{
    let mut out: Vec<String> = Vec::new();
    let mut i: usize = 0;
    while i < v.len()
        invariant
            i <= v@.len(),
            string_views(out@) == string_views(v@).take(i as int),
        decreases v@.len() - i,
    {
        let ghost prev = out@;
        out.push(v[i].clone());
        assert(string_views(out@) =~= string_views(prev).push(v@[i as int]@));
        assert(string_views(v@).take(i + 1) =~= string_views(v@).take(i as int).push(v@[i as int]@));
        i = i + 1;
    }
    assert(string_views(v@).take(i as int) =~= string_views(v@));
    out
}

/// Whether `a` and `b` hold equal strings in the same order (`Vec<String>`'s `==`).
pub fn strings_equal(a: &Vec<String>, b: &Vec<String>) -> (r: bool)
    ensures
        r == (string_views(a@) == string_views(b@)),
{
    if a.len() != b.len() {
        assert(string_views(a@).len() != string_views(b@).len());
        return false;
    }
    let mut i: usize = 0;
    while i < a.len()
        invariant
            i <= a@.len(),
            a@.len() == b@.len(),
            string_views(a@).take(i as int) == string_views(b@).take(i as int),
        decreases a@.len() - i,
    {
        if !str_eq(a[i].as_str(), b[i].as_str()) {
            assert(string_views(a@)[i as int] != string_views(b@)[i as int]);
            return false;
        }
        assert(string_views(a@).take(i + 1) =~= string_views(a@).take(i as int).push(a@[i as int]@));
        assert(string_views(b@).take(i + 1) =~= string_views(b@).take(i as int).push(b@[i as int]@));
        i = i + 1;
    }
    assert(string_views(a@).take(i as int) =~= string_views(a@));
    assert(string_views(b@).take(i as int) =~= string_views(b@));
    true
}

/// The index of the first string of `v` equal to `k`, as `Iterator::position` gives it.
pub fn position_of_string(v: &[String], k: &str) -> (r: Option<usize>)
    ensures
        match r {
            Some(i) => i < v@.len() && v@[i as int]@ == k@ && forall|j: int|
                0 <= j < i ==> (#[trigger] v@[j])@ != k@,
            None => !string_views(v@).contains(k@),
        },
{
    let mut i: usize = 0;
    while i < v.len()
        invariant
            i <= v@.len(),
            forall|j: int| 0 <= j < i ==> (#[trigger] v@[j])@ != k@,
        decreases v@.len() - i,
    {
        if str_eq(v[i].as_str(), k) {
            return Some(i);
        }
        i = i + 1;
    }
    assert forall|j: int| 0 <= j < string_views(v@).len() implies string_views(v@)[j] != k@ by {
        assert(v@[j]@ != k@);
    }
    None
}

} // verus!

verus! {

/// The ASCII digit for `d`.
pub open spec fn digit_char(d: nat) -> char {
    (48 + d) as char
}

/// The decimal representation of `n`, without leading zeros.
pub open spec fn decimal(n: nat) -> Seq<char>
    decreases n,
{
    if n < 10 {
        seq![digit_char(n)]
    } else {
        decimal(n / 10).push(digit_char(n % 10))
    }
}

/// The decimal representation of `i`, with a leading `-` when negative.
pub open spec fn signed_decimal(i: int) -> Seq<char> {
    if i < 0 {
        seq!['-'] + decimal((-i) as nat)
    } else {
        decimal(i as nat)
    }
}

/// The character of the decimal digit `d`.
fn digit(d: u64) -> (c: char)
    requires
        d < 10,
    ensures
        c == digit_char(d as nat),
{
    match d {
        0 => '0',
        1 => '1',
        2 => '2',
        3 => '3',
        4 => '4',
        5 => '5',
        6 => '6',
        7 => '7',
        8 => '8',
        _ => '9',
    }
}

/// The decimal representation of `n`, as `u64::to_string` writes it.
pub fn u64_to_string(n: u64) -> (r: String)
    ensures
        r@ == decimal(n as nat),
    decreases n,
{
    if n < 10 {
        let mut s = String::new();
        push_char(&mut s, digit(n));
        assert(s@ =~= decimal(n as nat));
        s
    } else {
        let mut s = u64_to_string(n / 10);
        push_char(&mut s, digit(n % 10));
        s
    }
}

/// The decimal representation of `n`, as `usize::to_string` writes it.
pub fn usize_to_string(n: usize) -> (r: String)
    ensures
        r@ == decimal(n as nat),
{
    u64_to_string(n as u64)
}

/// The decimal representation of `n`, with a leading `-` when negative, as
/// `i32::to_string` writes it.
pub fn i32_to_string(n: i32) -> (r: String)
    ensures
        r@ == signed_decimal(n as int),
{
    if n < 0 {
        let magnitude: i64 = -(n as i64);
        let mut s = String::new();
        push_char(&mut s, '-');
        let digits = u64_to_string(magnitude as u64);
        let r = concat_str(s, digits.as_str());
        assert(r@ =~= signed_decimal(n as int));
        r
    } else {
        u64_to_string(n as u64)
    }
}

/// `s` followed by `t`.
pub fn concat_str(s: String, t: &str) -> (r: String)
    ensures
        r@ == s@ + t@,
{
    let mut s = s;
    let cs = chars_of(t);
    let mut i: usize = 0;
    let ghost start = s@;
    while i < cs.len()
        invariant
            i <= cs@.len(),
            cs@ == t@,
            s@ == start + cs@.take(i as int),
        decreases cs@.len() - i,
    {
        push_char(&mut s, cs[i]);
        i = i + 1;
        assert(s@ =~= start + cs@.take(i as int));
    }
    assert(cs@.take(cs@.len() as int) =~= cs@);
    s
}

/// A `String` holding `a` followed by `b`.
pub fn join2(a: &str, b: &str) -> (r: String)
    ensures
        r@ == a@ + b@,
{
    concat_str(to_owned_string(a), b)
}

/// A `String` holding `a`, `b` and `c` in turn.
pub fn join3(a: &str, b: &str, c: &str) -> (r: String)
    ensures
        r@ == a@ + b@ + c@,
{
    concat_str(join2(a, b), c)
}

/// The ASCII lower-case form of `c`; other characters are unchanged.
pub open spec fn ascii_lower(c: char) -> char {
    if 'A' <= c && c <= 'Z' {
        ((c as u32) + 32) as char
    } else {
        c
    }
}

/// `char::to_ascii_lowercase`: maps `A`..`Z` to `a`..`z`.
pub fn to_ascii_lower(c: char) -> (r: char)
    ensures
        r == ascii_lower(c),
{
    if 'A' <= c && c <= 'Z' {
        let b = c as u8;
        let l = b + 32;
        assert(l as u32 == (c as u32) + 32);
        l as char
    } else {
        c
    }
}

/// Whether `c` is an ASCII letter or digit.
pub open spec fn is_ascii_alphanumeric(c: char) -> bool {
    ('a' <= c && c <= 'z') || ('A' <= c && c <= 'Z') || ('0' <= c && c <= '9')
}

/// Whether `c` is an ASCII digit.
pub open spec fn is_ascii_digit(c: char) -> bool {
    '0' <= c && c <= '9'
}

/// Whether `s` begins with `p`.
pub open spec fn starts_with(s: Seq<char>, p: Seq<char>) -> bool {
    p.len() <= s.len() && s.take(p.len() as int) == p
}

/// Whether `s` ends with `p`.
pub open spec fn ends_with(s: Seq<char>, p: Seq<char>) -> bool {
    p.len() <= s.len() && s.skip(s.len() - p.len()) == p
}

/// Whether `p` occurs in `s`.
pub open spec fn contains_seq(s: Seq<char>, p: Seq<char>) -> bool {
    exists|i: int| 0 <= i && i + p.len() <= s.len() && #[trigger] s.subrange(i, i + p.len()) == p
}

/// `s` with every non-overlapping occurrence of `from`, found from the left,
/// replaced by `to`, as `str::replace` does for a non-empty pattern.
pub open spec fn replace_all(s: Seq<char>, from: Seq<char>, to: Seq<char>) -> Seq<char>
    decreases s.len(),
{
    if from.len() == 0 || s.len() < from.len() {
        s
    } else if s.take(from.len() as int) == from {
        to + replace_all(s.skip(from.len() as int), from, to)
    } else {
        seq![s[0]] + replace_all(s.drop_first(), from, to)
    }
}

/// The whitespace-separated words of `s`, after the partial word `cur`.
pub open spec fn words_from(s: Seq<char>, cur: Seq<char>) -> Seq<Seq<char>>
    decreases s.len(),
{
    if s.len() == 0 {
        if cur.len() > 0 {
            seq![cur]
        } else {
            Seq::empty()
        }
    } else if is_white_space(s[0]) {
        (if cur.len() > 0 {
            seq![cur]
        } else {
            Seq::<Seq<char>>::empty()
        }) + words_from(s.drop_first(), Seq::empty())
    } else {
        words_from(s.drop_first(), cur.push(s[0]))
    }
}

/// The maximal runs of non-`White_Space` characters of `s`, as `str::split_whitespace` yields them.
pub open spec fn words(s: Seq<char>) -> Seq<Seq<char>> {
    words_from(s, Seq::empty())
}

/// The pieces of `ws` separated by `sep`.
pub open spec fn join(ws: Seq<Seq<char>>, sep: Seq<char>) -> Seq<char>
    decreases ws.len(),
{
    if ws.len() == 0 {
        Seq::empty()
    } else if ws.len() == 1 {
        ws[0]
    } else {
        join(ws.drop_last(), sep) + sep + ws.last()
    }
}

/// Whether `cs[at..]` begins with `p`.
pub fn matches_at(cs: &Vec<char>, at: usize, p: &Vec<char>) -> (r: bool)
    requires
        at <= cs@.len(),
    ensures
        r == (at + p@.len() <= cs@.len() && cs@.subrange(at as int, at + p@.len()) == p@),
{
    let n = cs.len();
    if p.len() > n - at {
        return false;
    }
    let mut k: usize = 0;
    while k < p.len()
        invariant
            k <= p@.len(),
            n == cs@.len(),
            at + p@.len() <= n,
            forall|j: int| 0 <= j < k ==> cs@[at + j] == p@[j],
        decreases p@.len() - k,
    {
        if cs[at + k] != p[k] {
            assert(cs@.subrange(at as int, at + p@.len())[k as int] != p@[k as int]);
            return false;
        }
        k = k + 1;
    }
    assert(cs@.subrange(at as int, at + p@.len()) =~= p@);
    true
}

/// `str::split_whitespace`, collected: the words of `s`.
pub fn split_words(s: &str) -> (r: Vec<String>)
    ensures
        string_views(r@) == words(s@),
{
    let cs = chars_of(s);
    let mut out: Vec<String> = Vec::new();
    let mut cur: Vec<char> = Vec::new();
    let mut i: usize = 0;
    assert(cs@.skip(0) =~= cs@);
    assert(string_views(out@) + words_from(cs@.skip(0), cur@) =~= words(s@));
    while i < cs.len()
        invariant
            i <= cs@.len(),
            cs@ == s@,
            string_views(out@) + words_from(cs@.skip(i as int), cur@) == words(s@),
        decreases cs@.len() - i,
    {
        let ghost rest = cs@.skip(i as int);
        assert(rest.drop_first() =~= cs@.skip(i + 1));
        assert(rest[0] == cs@[i as int]);
        if char_is_whitespace(cs[i]) {
            if cur.len() > 0 {
                let ghost prev = out@;
                let word = string_from_chars(cur.as_slice());
                out.push(word);
                assert(string_views(out@) =~= string_views(prev) + seq![cur@]);
                assert(string_views(out@) + words_from(cs@.skip(i + 1), Seq::empty()) =~= string_views(prev) + (seq![cur@] + words_from(cs@.skip(i + 1), Seq::empty())));
            } else {
                assert(Seq::<Seq<char>>::empty() + words_from(cs@.skip(i + 1), Seq::empty()) =~= words_from(cs@.skip(i + 1), Seq::empty()));
            }
            cur = Vec::new();
        } else {
            cur.push(cs[i]);
        }
        i = i + 1;
    }
    assert(cs@.skip(i as int) =~= Seq::<char>::empty());
    if cur.len() > 0 {
        let ghost prev = out@;
        let word = string_from_chars(cur.as_slice());
        out.push(word);
        assert(string_views(out@) =~= string_views(prev) + seq![cur@]);
    } else {
        assert(string_views(out@) + Seq::<Seq<char>>::empty() =~= string_views(out@));
    }
    out
}

/// The strings of `ws` separated by `sep`.
pub fn join_strings(ws: &[String], sep: &str) -> (r: String)
    ensures
        r@ == join(string_views(ws@), sep@),
{
    let mut out = String::new();
    let mut i: usize = 0;
    while i < ws.len()
        invariant
            i <= ws@.len(),
            out@ == join(string_views(ws@).take(i as int), sep@),
        decreases ws@.len() - i,
    {
        let ghost before = string_views(ws@).take(i as int);
        assert(string_views(ws@).take(i + 1).drop_last() =~= before);
        if i == 0 {
            out = concat_str(out, ws[i].as_str());
            assert(out@ =~= ws@[0]@);
        } else {
            out = concat_str(out, sep);
            out = concat_str(out, ws[i].as_str());
        }
        i = i + 1;
    }
    assert(string_views(ws@).take(ws@.len() as int) =~= string_views(ws@));
    out
}

/// `str::replace` for a non-empty pattern: every non-overlapping occurrence of
/// `from`, found from the left, replaced by `to`.
pub fn replace_str(s: &str, from: &str, to: &str) -> (r: String)
    requires
        from@.len() > 0,
    ensures
        r@ == replace_all(s@, from@, to@),
{
    let cs = chars_of(s);
    let pat = chars_of(from);
    let mut out = String::new();
    let mut i: usize = 0;
    assert(cs@.skip(0) =~= cs@);
    assert(out@ + replace_all(cs@.skip(0), from@, to@) =~= replace_all(s@, from@, to@));
    while i < cs.len()
        invariant
            i <= cs@.len(),
            cs@ == s@,
            pat@ == from@,
            pat@.len() > 0,
            out@ + replace_all(cs@.skip(i as int), from@, to@) == replace_all(s@, from@, to@),
        decreases cs@.len() - i,
    {
        let ghost rest = cs@.skip(i as int);
        if matches_at(&cs, i, &pat) {
            assert(rest.take(pat@.len() as int) =~= cs@.subrange(i as int, i + pat@.len()));
            assert(rest.skip(pat@.len() as int) =~= cs@.skip(i + pat@.len()));
            let ghost prev = out@;
            out = concat_str(out, to);
            assert(out@ + replace_all(cs@.skip(i + pat@.len()), from@, to@) =~= prev + (to@ + replace_all(rest.skip(pat@.len() as int), from@, to@)));
            i = i + pat.len();
        } else {
            proof {
                if rest.len() >= pat@.len() {
                    assert(rest.take(pat@.len() as int) =~= cs@.subrange(i as int, i + pat@.len()));
                }
            }
            assert(rest.drop_first() =~= cs@.skip(i + 1));
            let ghost prev = out@;
            push_char(&mut out, cs[i]);
            assert(out@ + replace_all(cs@.skip(i + 1), from@, to@) =~= prev + (seq![rest[0]] + replace_all(rest.drop_first(), from@, to@)));
            i = i + 1;
        }
    }
    assert(cs@.skip(i as int) =~= Seq::<char>::empty());
    assert(out@ + Seq::<char>::empty() =~= out@);
    out
}

} // verus!

verus! {

/// Whether `p` occurs in `cs`.
pub fn find_seq(cs: &Vec<char>, p: &Vec<char>) -> (r: bool)
    ensures
        r == contains_seq(cs@, p@),
{
    if p.len() > cs.len() {
        return false;
    }
    let last = cs.len() - p.len();
    let mut i: usize = 0;
    loop
        invariant
            last + p@.len() == cs@.len(),
            i <= last,
            forall|j: int|
                0 <= j < i && j + p@.len() <= cs@.len() ==> #[trigger] cs@.subrange(j, j + p@.len())
                    != p@,
        decreases last - i,
    {
        if matches_at(cs, i, p) {
            return true;
        }
        if i == last {
            return false;
        }
        i = i + 1;
    }
}

/// Whether `cs` begins with `p`.
pub fn has_prefix(cs: &Vec<char>, p: &Vec<char>) -> (r: bool)
    ensures
        r == starts_with(cs@, p@),
{
    let r = matches_at(cs, 0, p);
    proof {
        if p@.len() <= cs@.len() {
            assert(cs@.subrange(0, p@.len() as int) =~= cs@.take(p@.len() as int));
        }
    }
    r
}

/// Whether `cs` ends with `p`.
pub fn has_suffix(cs: &Vec<char>, p: &Vec<char>) -> (r: bool)
    ensures
        r == ends_with(cs@, p@),
{
    if p.len() > cs.len() {
        return false;
    }
    let at = cs.len() - p.len();
    let r = matches_at(cs, at, p);
    proof {
        assert(cs@.subrange(at as int, at + p@.len()) =~= cs@.skip(cs@.len() - p@.len()));
    }
    r
}

/// The characters `cs[from..to]`.
pub fn chars_range(cs: &Vec<char>, from: usize, to: usize) -> (r: Vec<char>)
    requires
        from <= to <= cs@.len(),
    ensures
        r@ == cs@.subrange(from as int, to as int),
{
    let mut out: Vec<char> = Vec::new();
    let mut i: usize = from;
    while i < to
        invariant
            from <= i <= to,
            to <= cs@.len(),
            out@ == cs@.subrange(from as int, i as int),
        decreases to - i,
    {
        out.push(cs[i]);
        i = i + 1;
        assert(out@ =~= cs@.subrange(from as int, i as int));
    }
    out
}

/// The ASCII lower-case form of every character of `cs`.
pub fn ascii_lowercase_chars(cs: &Vec<char>) -> (r: Vec<char>)
    ensures
        r@ == cs@.map_values(|c: char| ascii_lower(c)),
{
    let mut out: Vec<char> = Vec::new();
    let mut i: usize = 0;
    while i < cs.len()
        invariant
            i <= cs@.len(),
            out@ == cs@.take(i as int).map_values(|c: char| ascii_lower(c)),
        decreases cs@.len() - i,
    {
        out.push(to_ascii_lower(cs[i]));
        i = i + 1;
        assert(out@ =~= cs@.take(i as int).map_values(|c: char| ascii_lower(c)));
    }
    assert(cs@.take(cs@.len() as int) =~= cs@);
    out
}

} // verus!
