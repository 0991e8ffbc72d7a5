//! Five-row block glyphs for the big session-timer readout.

use vstd::prelude::*;

verus! {

/// The five rows of the big glyph of a digit; anything outside 0..=9 gives
/// five blank rows.
pub open spec fn spec_big_digit(n: int) -> Seq<Seq<char>> {
    if n == 0 {
        seq!["██████"@, "██  ██"@, "██  ██"@, "██  ██"@, "██████"@]
    } else if n == 1 {
        seq!["  ██  "@, "████  "@, "  ██  "@, "  ██  "@, "██████"@]
    } else if n == 2 {
        seq!["██████"@, "    ██"@, "██████"@, "██    "@, "██████"@]
    } else if n == 3 {
        seq!["██████"@, "    ██"@, "██████"@, "    ██"@, "██████"@]
    } else if n == 4 {
        seq!["██  ██"@, "██  ██"@, "██████"@, "    ██"@, "    ██"@]
    } else if n == 5 {
        seq!["██████"@, "██    "@, "██████"@, "    ██"@, "██████"@]
    } else if n == 6 {
        seq!["██████"@, "██    "@, "██████"@, "██  ██"@, "██████"@]
    } else if n == 7 {
        seq!["██████"@, "   ██ "@, "  ██  "@, " ██   "@, "██    "@]
    } else if n == 8 {
        seq!["██████"@, "██  ██"@, "██████"@, "██  ██"@, "██████"@]
    } else if n == 9 {
        seq!["██████"@, "██  ██"@, "██████"@, "    ██"@, "██████"@]
    } else {
        seq![""@, ""@, ""@, ""@, ""@]
    }
}

/// The five rows of the big colon between minutes and seconds.
pub open spec fn spec_big_colon() -> Seq<Seq<char>> {
    seq!["      "@, "  ██  "@, "      "@, "  ██  "@, "      "@]
}

/// The five rows of a big digit glyph.
pub fn get_big_digit(n: i64) -> (r: Vec<&'static str>)
    ensures
        r@.len() == 5,
        forall|k: int| 0 <= k < 5 ==> (#[trigger] r@[k])@ == spec_big_digit(n as int)[k],
{
    let r: Vec<&'static str> = match n {
        0 => vec!["██████", "██  ██", "██  ██", "██  ██", "██████"],
        1 => vec!["  ██  ", "████  ", "  ██  ", "  ██  ", "██████"],
        2 => vec!["██████", "    ██", "██████", "██    ", "██████"],
        3 => vec!["██████", "    ██", "██████", "    ██", "██████"],
        4 => vec!["██  ██", "██  ██", "██████", "    ██", "    ██"],
        5 => vec!["██████", "██    ", "██████", "    ██", "██████"],
        6 => vec!["██████", "██    ", "██████", "██  ██", "██████"],
        7 => vec!["██████", "   ██ ", "  ██  ", " ██   ", "██    "],
        8 => vec!["██████", "██  ██", "██████", "██  ██", "██████"],
        9 => vec!["██████", "██  ██", "██████", "    ██", "██████"],
        _ => vec!["", "", "", "", ""],
    };
    r
}

/// The five rows of the big colon.
pub fn get_big_colon() -> (r: Vec<&'static str>)
    ensures
        r@.len() == 5,
        forall|k: int| 0 <= k < 5 ==> (#[trigger] r@[k])@ == spec_big_colon()[k],
{
    let r: Vec<&'static str> = vec!["      ", "  ██  ", "      ", "  ██  ", "      "];
    r
}

} // verus!
