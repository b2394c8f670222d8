//! Text shown by the Telemetry dashboard: session metadata values, gears,
//! positions, lap counts, lap times and recording times.
use vstd::prelude::*;
use crate::setup::{first_non_blank, first_non_blank_text, non_blank, optional_views};
use crate::text::{
    digit_char,
    concat_str, decimal, is_blank, join, join2, join_strings, signed_decimal, str_is_blank,
    string_views, to_owned_string, trim, usize_to_string, i32_to_string, u64_to_string,
};

verus! {

/// A metadata value, or `--` when it is absent or blank.
pub fn metadata_value(value: Option<String>) -> (r: String)
    ensures
        r@ == (match value {
            Some(v) => if is_blank(v@) {
                "--"@
            } else {
                v@
            },
            None => "--"@,
        }),
{
    match value {
        Some(v) => if str_is_blank(v.as_str()) {
            to_owned_string("--")
        } else {
            v
        },
        None => to_owned_string("--"),
    }
}

/// The first value that is present and not blank, trimmed.
pub fn first_metadata_value(values: &[Option<&str>]) -> (r: Option<String>)
    ensures
        match r {
            Some(s) => first_non_blank_text(optional_views(values@)) == Some(s@),
            None => first_non_blank_text(optional_views(values@)) is None,
        },
{
    first_non_blank(values)
}

/// The trimmed values that are present and not blank.
pub open spec fn non_blank_texts(values: Seq<Option<Seq<char>>>) -> Seq<Seq<char>>
    decreases values.len(),
{
    if values.len() == 0 {
        Seq::empty()
    } else {
        let prev = non_blank_texts(values.drop_last());
        match values.last() {
            Some(v) => if trim(v).len() > 0 {
                prev.push(trim(v))
            } else {
                prev
            },
            None => prev,
        }
    }
}

/// The trimmed values that are present and not blank, separated by
/// `separator`, or nothing when there is no such value.
pub fn join_metadata_values(values: &[Option<&str>], separator: &str) -> (r: Option<String>)
    ensures
        match r {
            Some(s) => non_blank_texts(optional_views(values@)).len() > 0 && s@ == join(
                non_blank_texts(optional_views(values@)),
                separator@,
            ),
            None => non_blank_texts(optional_views(values@)).len() == 0,
        },
{
    let mut kept: Vec<String> = Vec::new();
    let mut i: usize = 0;
    while i < values.len()
        invariant
            i <= values@.len(),
            string_views(kept@) == non_blank_texts(optional_views(values@).take(i as int)),
        decreases values@.len() - i,
    {
        assert(optional_views(values@).take(i + 1).drop_last() =~= optional_views(values@).take(i as int));
        if let Some(v) = values[i] {
            if let Some(t) = non_blank(v) {
                let ghost prev = kept@;
                let owned = to_owned_string(t);
                let ghost ov = owned@;
                kept.push(owned);
                assert(string_views(kept@) =~= string_views(prev).push(ov));
            }
        }
        i = i + 1;
    }
    assert(optional_views(values@).take(values@.len() as int) =~= optional_views(values@));
    if kept.len() == 0 {
        None
    } else {
        Some(join_strings(kept.as_slice(), separator))
    }
}

/// An iRacing gear: `R` for reverse, `N` for neutral, the number of a forward
/// gear, or a dash for an invalid value.
pub open spec fn gear_text(gear: i32) -> Seq<char> {
    if gear == -1 {
        "R"@
    } else if gear == 0 {
        "N"@
    } else if gear > 0 {
        decimal(gear as nat)
    } else {
        "—"@
    }
}

/// The display form of an iRacing gear.
pub fn format_gear(gear: i32) -> (r: String)
    ensures
        r@ == gear_text(gear),
{
    if gear == -1 {
        to_owned_string("R")
    } else if gear == 0 {
        to_owned_string("N")
    } else if gear > 0 {
        i32_to_string(gear)
    } else {
        to_owned_string("—")
    }
}

/// A race position as `P` and its number, or a dash when unknown.
pub fn format_position(position: i32) -> (r: String)
    ensures
        r@ == (if position > 0 {
            "P"@ + decimal(position as nat)
        } else {
            "—"@
        }),
{
    if position > 0 {
        let n = i32_to_string(position);
        join2("P", n.as_str())
    } else {
        to_owned_string("—")
    }
}

/// "1 lap" or "N laps".
pub fn format_lap_count(lap_count: usize) -> (r: String)
    ensures
        r@ == (if lap_count == 1 {
            "1 lap"@
        } else {
            decimal(lap_count as nat) + " laps"@
        }),
{
    if lap_count == 1 {
        to_owned_string("1 lap")
    } else {
        concat_str(usize_to_string(lap_count), " laps")
    }
}

/// `n` in decimal, left-padded with zeros to `width` digits.
pub open spec fn padded_decimal(n: nat, width: nat) -> Seq<char> {
    let d = decimal(n);
    if d.len() < width {
        Seq::new((width - d.len()) as nat, |i: int| '0') + d
    } else {
        d
    }
}

/// A lap time as minutes, seconds and milliseconds, or a placeholder when no
/// lap time is known.
pub open spec fn lap_time_text(milliseconds: i32) -> Seq<char> {
    if milliseconds <= 0 {
        "--:--.---"@
    } else {
        decimal((milliseconds / 60000) as nat) + ":"@ + padded_decimal(
            ((milliseconds % 60000) / 1000) as nat,
            2,
        ) + "."@ + padded_decimal((milliseconds % 1000) as nat, 3)
    }
}

fn padded(n: usize, width: usize) -> (r: String)
    ensures
        r@ == padded_decimal(n as nat, width as nat),
{
    let d = usize_to_string(n);
    let len = crate::text::chars_of(d.as_str()).len();
    if len < width {
        let mut out = String::new();
        let mut i: usize = 0;
        while i < width - len
            invariant
                i <= width - len,
                out@ == Seq::new(i as nat, |k: int| '0'),
            decreases width - len - i,
        {
            crate::text::push_char(&mut out, '0');
            i = i + 1;
            assert(out@ =~= Seq::new(i as nat, |k: int| '0'));
        }
        concat_str(out, d.as_str())
    } else {
        d
    }
}

/// The display form of a lap time given in milliseconds.
pub fn format_lap_time(milliseconds: i32) -> (r: String)
    ensures
        r@ == lap_time_text(milliseconds),
{
    if milliseconds <= 0 {
        return to_owned_string("--:--.---");
    }
    let ms = milliseconds as usize;
    let minutes = usize_to_string(ms / 60000);
    let seconds = padded((ms % 60000) / 1000, 2);
    let millis = padded(ms % 1000, 3);
    let s = concat_str(minutes, ":");
    let s = concat_str(s, seconds.as_str());
    let s = concat_str(s, ".");
    concat_str(s, millis.as_str())
}

/// The accessible label of the collapse control of a card titled `title`.
pub fn collapse_accessibility_label(title: &str, collapsed: bool) -> (r: String)
    ensures
        r@ == (if collapsed {
            "Expand "@
        } else {
            "Collapse "@
        }) + title@,
{
    if collapsed {
        join2("Expand ", title)
    } else {
        join2("Collapse ", title)
    }
}

/// A duration of `total` whole seconds as `h:mm:ss`, or `m:ss` under an hour.
pub open spec fn clock_text(total: nat) -> Seq<char> {
    let hours = total / 3600;
    let minutes = total % 3600 / 60;
    let seconds = total % 60;
    if hours > 0 {
        decimal(hours) + ":"@ + padded_decimal(minutes, 2) + ":"@ + padded_decimal(seconds, 2)
    } else {
        decimal(minutes) + ":"@ + padded_decimal(seconds, 2)
    }
}

/// A time on a chart axis of `total` whole seconds: as `clock_text`, but
/// `Ns` under a minute.
pub open spec fn chart_time_text(total: nat) -> Seq<char> {
    if total < 60 {
        decimal(total) + "s"@
    } else {
        clock_text(total)
    }
}

/// The length of a recording of `total_seconds` whole seconds (the caller
/// rounds the measured duration first, so that 59.6 s reads `1:00`).
pub fn format_recording_duration(total_seconds: u64) -> (r: String)
    ensures
        r@ == clock_text(total_seconds as nat),
{
    let hours = total_seconds / 3600;
    let minutes = (total_seconds % 3600 / 60) as usize;
    let seconds = (total_seconds % 60) as usize;
    let mm = padded(minutes, 2);
    let ss = padded(seconds, 2);
    if hours > 0 {
        let s = concat_str(u64_to_string(hours), ":");
        let s = concat_str(s, mm.as_str());
        let s = concat_str(s, ":");
        concat_str(s, ss.as_str())
    } else {
        let s = concat_str(usize_to_string(minutes), ":");
        concat_str(s, ss.as_str())
    }
}

/// A time on a chart axis of `total_seconds` whole seconds.
pub fn format_chart_time(total_seconds: u64) -> (r: String)
    ensures
        r@ == chart_time_text(total_seconds as nat),
{
    if total_seconds < 60 {
        concat_str(u64_to_string(total_seconds), "s")
    } else {
        format_recording_duration(total_seconds)
    }
}


/// Whether `c` is an ASCII decimal digit.
pub open spec fn is_digit(c: char) -> bool {
    '0' <= c && c <= '9'
}

/// The number that the ASCII decimal digit `c` stands for.
pub open spec fn digit_value(c: char) -> int {
    c as int - 48
}

proof fn lemma_digit_char(d: nat)
    requires
        d < 10,
    ensures
        is_digit(digit_char(d)),
        digit_value(digit_char(d)) == d,
{
}

proof fn lemma_two_digits(n: nat)
    requires
        n < 100,
    ensures
        padded_decimal(n, 2).len() == 2,
        is_digit(padded_decimal(n, 2)[0]),
        is_digit(padded_decimal(n, 2)[1]),
        digit_value(padded_decimal(n, 2)[0]) * 10 + digit_value(padded_decimal(n, 2)[1]) == n,
{
    reveal_with_fuel(decimal, 3);
    lemma_digit_char(n % 10);
    lemma_digit_char(n / 10);
    if n < 10 {
        lemma_digit_char(0);
        assert(padded_decimal(n, 2) =~= seq!['0', digit_char(n)]);
    } else {
        assert(padded_decimal(n, 2) =~= seq![digit_char(n / 10), digit_char(n % 10)]);
    }
}

proof fn lemma_three_digits(n: nat)
    requires
        n < 1000,
    ensures
        padded_decimal(n, 3).len() == 3,
        is_digit(padded_decimal(n, 3)[0]),
        is_digit(padded_decimal(n, 3)[1]),
        is_digit(padded_decimal(n, 3)[2]),
        digit_value(padded_decimal(n, 3)[0]) * 100 + digit_value(padded_decimal(n, 3)[1]) * 10 + digit_value(
            padded_decimal(n, 3)[2],
        ) == n,
{
    reveal_with_fuel(decimal, 4);
    lemma_digit_char(n % 10);
    lemma_digit_char((n / 10) % 10);
    lemma_digit_char(n / 100);
    if n < 10 {
        assert(padded_decimal(n, 3) =~= seq!['0', '0', digit_char(n)]);
    } else if n < 100 {
        lemma_digit_char(n / 10);
        assert(padded_decimal(n, 3) =~= seq!['0', digit_char(n / 10), digit_char(n % 10)]);
    } else {
        assert(decimal(n) =~= seq![digit_char(n / 100), digit_char((n / 10) % 10), digit_char(n % 10)]);
        assert(padded_decimal(n, 3) =~= seq![digit_char(n / 100), digit_char((n / 10) % 10), digit_char(n % 10)]);
    }
}

/// A known lap time reads as its minutes, a colon, exactly two digits of
/// seconds (under 60), a point and exactly three digits of milliseconds;
/// read back, the fields give the lap time.
pub proof fn lemma_lap_time_reads_back(milliseconds: i32)
    requires
        milliseconds > 0,
    ensures
        ({
            let t = lap_time_text(milliseconds);
            let minutes = decimal((milliseconds / 60000) as nat);
            let k = minutes.len() as int;
            let seconds = digit_value(t[k + 1]) * 10 + digit_value(t[k + 2]);
            let millis = digit_value(t[k + 4]) * 100 + digit_value(t[k + 5]) * 10 + digit_value(t[k + 6]);
            &&& t.len() == k + 7
            &&& t.subrange(0, k) == minutes
            &&& t[k] == ':'
            &&& t[k + 3] == '.'
            &&& is_digit(t[k + 1]) && is_digit(t[k + 2])
            &&& is_digit(t[k + 4]) && is_digit(t[k + 5]) && is_digit(t[k + 6])
            &&& seconds < 60
            &&& milliseconds == (milliseconds / 60000) * 60000 + seconds * 1000 + millis
        }),
{
    let ms = milliseconds as int;
    let sec = ((milliseconds % 60000) / 1000) as nat;
    let mil = (milliseconds % 1000) as nat;
    lemma_two_digits(sec);
    lemma_three_digits(mil);
    let minutes = decimal((milliseconds / 60000) as nat);
    let k = minutes.len() as int;
    let p2 = padded_decimal(sec, 2);
    let p3 = padded_decimal(mil, 3);
    let t = lap_time_text(milliseconds);
    assert(t == minutes + ":"@ + p2 + "."@ + p3);
    reveal_strlit(":");
    reveal_strlit(".");
    assert(t.subrange(0, k) =~= minutes);
    assert(t[k] == ':');
    assert(t[k + 1] == p2[0]);
    assert(t[k + 2] == p2[1]);
    assert(t[k + 3] == '.');
    assert(t[k + 4] == p3[0]);
    assert(t[k + 5] == p3[1]);
    assert(t[k + 6] == p3[2]);
    assert(ms == (ms / 60000) * 60000 + ((ms % 60000) / 1000) * 1000 + ms % 1000) by (nonlinear_arith)
        requires
            ms > 0,
    ;
}

/// A duration reads as its hours and a colon when it lasts an hour or more,
/// then its minutes (two digits after the hours), a colon and exactly two
/// digits of seconds; read back, the fields give the duration.
pub proof fn lemma_clock_text_reads_back(total: nat)
    ensures
        ({
            let t = clock_text(total);
            let n = t.len() as int;
            let seconds = digit_value(t[n - 2]) * 10 + digit_value(t[n - 1]);
            &&& n >= 4
            &&& t[n - 3] == ':'
            &&& is_digit(t[n - 2]) && is_digit(t[n - 1])
            &&& seconds < 60
            &&& total >= 3600 ==> {
                let h = decimal(total / 3600);
                let k = h.len() as int;
                let minutes = digit_value(t[k + 1]) * 10 + digit_value(t[k + 2]);
                &&& n == k + 6
                &&& t.subrange(0, k) == h
                &&& t[k] == ':'
                &&& is_digit(t[k + 1]) && is_digit(t[k + 2])
                &&& minutes < 60
                &&& total == (total / 3600) * 3600 + minutes * 60 + seconds
            }
            &&& total < 3600 ==> {
                let m = decimal(total / 60);
                &&& n == m.len() + 3
                &&& t.subrange(0, n - 3) == m
                &&& total == (total / 60) * 60 + seconds
            }
        }),
{
    let sec = total % 60;
    let min = total % 3600 / 60;
    lemma_two_digits(sec);
    lemma_two_digits(min);
    reveal_strlit(":");
    let t = clock_text(total);
    let p2s = padded_decimal(sec, 2);
    let n = t.len() as int;
    if total >= 3600 {
        let h = decimal(total / 3600);
        let p2m = padded_decimal(min, 2);
        assert(t == h + ":"@ + p2m + ":"@ + p2s);
        let k = h.len() as int;
        assert(t.subrange(0, k) =~= h);
        assert(t[k] == ':');
        assert(t[k + 1] == p2m[0]);
        assert(t[k + 2] == p2m[1]);
        assert(t[k + 3] == ':');
        assert(t[k + 4] == p2s[0]);
        assert(t[k + 5] == p2s[1]);
        assert(h.len() >= 1) by {
            reveal_with_fuel(decimal, 2);
        }
        assert(total == (total / 3600) * 3600 + (total % 3600 / 60) * 60 + total % 60) by (nonlinear_arith);
    } else {
        let m = decimal(total / 60);
        assert(total / 3600 == 0);
        assert(total % 3600 / 60 == total / 60);
        assert(t == m + ":"@ + p2s);
        assert(m.len() >= 1) by {
            reveal_with_fuel(decimal, 2);
        }
        assert(t.subrange(0, n - 3) =~= m);
        assert(t[n - 3] == ':');
        assert(t[n - 2] == p2s[0]);
        assert(t[n - 1] == p2s[1]);
        assert(total == (total / 60) * 60 + total % 60) by (nonlinear_arith);
    }
}
} // verus!
