//! The colour-theme selector. The colour values themselves belong to the
//! renderer; the core only tracks which theme is active and how the themes
//! cycle.

use vstd::prelude::*;

verus! {

/// The available colour themes.
#[derive(PartialEq, Eq, Structural, Clone, Copy, Debug)]
pub enum ThemeType {
    Horizon,
    Nebula,
    Nord,
    Cyberpunk,
}

/// The theme after the given one in the fixed cycle.
pub open spec fn spec_next_theme(t: ThemeType) -> ThemeType {
    match t {
        ThemeType::Horizon => ThemeType::Nebula,
        ThemeType::Nebula => ThemeType::Nord,
        ThemeType::Nord => ThemeType::Cyberpunk,
        ThemeType::Cyberpunk => ThemeType::Horizon,
    }
}

impl ThemeType {
    /// Advances to the next theme in the cycle.
    pub fn next(&self) -> (r: ThemeType)
        ensures
            r == spec_next_theme(*self),
    {
        match self {
            ThemeType::Horizon => ThemeType::Nebula,
            ThemeType::Nebula => ThemeType::Nord,
            ThemeType::Nord => ThemeType::Cyberpunk,
            ThemeType::Cyberpunk => ThemeType::Horizon,
        }
    }
}

/// Four steps through the theme cycle return to the starting theme.
pub proof fn lemma_theme_cycle(t: ThemeType)
    ensures
        spec_next_theme(spec_next_theme(spec_next_theme(spec_next_theme(t)))) == t,
{
}

} // verus!
