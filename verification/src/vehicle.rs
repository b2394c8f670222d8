//! Texts of the vehicle specification card that come from whole numbers and
//! names of the session information: the transmission and the tyre compounds.
use vstd::prelude::*;
use crate::setup::{joined_or_placeholder, non_blank};
use crate::text::{
    concat_str, contains_string, i32_to_string, join, signed_decimal, string_views, trim,
};

verus! {

/// The values separated by ` · `, or `--` when there are none.
pub open spec fn joined_or_dashes(parts: Seq<Seq<char>>) -> Seq<char> {
    if parts.len() == 0 {
        "--"@
    } else {
        join(parts, " · "@)
    }
}

/// What the transmission text lists: the number of forward gears, then `N`
/// and `R` when the car has a neutral or a reverse gear.
pub open spec fn transmission_parts(
    gears_forward: Option<i32>,
    gear_neutral: Option<i32>,
    gear_reverse: Option<i32>,
) -> Seq<Seq<char>> {
    (match gears_forward {
        Some(g) => seq![signed_decimal(g as int) + "-speed"@],
        None => Seq::empty(),
    }) + (if gear_neutral matches Some(n) && n != 0 {
        seq!["N"@]
    } else {
        Seq::empty()
    }) + (if gear_reverse matches Some(r) && r != 0 {
        seq!["R"@]
    } else {
        Seq::empty()
    })
}

/// The transmission of the player car, such as `6-speed · N · R`.
pub fn format_transmission(
    gears_forward: Option<i32>,
    gear_neutral: Option<i32>,
    gear_reverse: Option<i32>,
) -> (r: String)
    ensures
        r@ == joined_or_dashes(transmission_parts(gears_forward, gear_neutral, gear_reverse)),
{
    let mut parts: Vec<String> = Vec::new();
    if let Some(gears) = gears_forward {
        parts.push(concat_str(i32_to_string(gears), "-speed"));
    }
    if let Some(available) = gear_neutral {
        if available != 0 {
            parts.push(crate::text::to_owned_string("N"));
        }
    }
    if let Some(available) = gear_reverse {
        if available != 0 {
            parts.push(crate::text::to_owned_string("R"));
        }
    }
    assert(string_views(parts@) =~= transmission_parts(gears_forward, gear_neutral, gear_reverse));
    joined_or_placeholder(parts)
}

/// A tyre compound that the session information lists for the player car.
#[derive(Debug, Clone, PartialEq, Eq)]
pub struct DriverTire {
    pub tire_index: Option<i32>,
    pub tire_compound_type: Option<String>,
}

/// The text of a tyre: its index and its compound, or `None` when the
/// compound is missing or blank.
pub open spec fn tyre_label(tire: DriverTire) -> Option<Seq<char>> {
    match tire.tire_compound_type {
        Some(c) => if trim(c@).len() > 0 {
            Some(
                match tire.tire_index {
                    Some(i) => signed_decimal(i as int) + " "@ + trim(c@),
                    None => trim(c@),
                },
            )
        } else {
            None
        },
        None => None,
    }
}

/// The texts of the tyres, each once, in the order they first appear.
pub open spec fn compound_labels(tires: Seq<DriverTire>) -> Seq<Seq<char>>
    decreases tires.len(),
{
    if tires.len() == 0 {
        Seq::empty()
    } else {
        let prev = compound_labels(tires.drop_last());
        match tyre_label(tires.last()) {
            Some(label) => if prev.contains(label) {
                prev
            } else {
                prev.push(label)
            },
            None => prev,
        }
    }
}

/// The tyre compounds of the player car, such as `0 Dry · 1 Wet`.
pub fn format_tyre_compounds(tires: &[DriverTire]) -> (r: String)
    ensures
        r@ == joined_or_dashes(compound_labels(tires@)),
{
    let mut compounds: Vec<String> = Vec::new();
    let mut i: usize = 0;
    while i < tires.len()
        invariant
            i <= tires@.len(),
            string_views(compounds@) == compound_labels(tires@.take(i as int)),
        decreases tires@.len() - i,
    {
        assert(tires@.take(i + 1).drop_last() =~= tires@.take(i as int));
        let tire = &tires[i];
        let compound = match &tire.tire_compound_type {
            Some(c) => non_blank(c.as_str()),
            None => None,
        };
        if let Some(compound) = compound {
            let value = match tire.tire_index {
                Some(index) => concat_str(concat_str(i32_to_string(index), " "), compound),
                None => crate::text::to_owned_string(compound),
            };
            if !contains_string(compounds.as_slice(), value.as_str()) {
                let ghost prev = compounds@;
                compounds.push(value);
                assert(string_views(compounds@) =~= string_views(prev).push(value@));
            }
        }
        i = i + 1;
    }
    assert(tires@.take(tires@.len() as int) =~= tires@);
    joined_or_placeholder(compounds)
}

} // verus!
