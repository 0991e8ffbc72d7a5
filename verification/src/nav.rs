//! Cursor bookkeeping for list-shaped views: circular advance and retreat,
//! and clamping after the underlying list changes shape.

use vstd::prelude::*;

verus! {

/// Where the cursor lands after stepping forward: one down, wrapping from
/// the last entry to the first; a missing cursor lands on the first entry;
/// an empty list leaves the cursor alone.
pub open spec fn spec_advance(sel: Option<usize>, len: usize) -> Option<usize> {
    if len == 0 {
        sel
    } else {
        match sel {
            Some(i) => if i + 1 < len {
                Some((i + 1) as usize)
            } else {
                Some(0usize)
            },
            None => Some(0usize),
        }
    }
}

/// Where the cursor lands after stepping backward: one up, wrapping from
/// the first entry to the last; a missing cursor lands on the first entry;
/// an empty list leaves the cursor alone.
pub open spec fn spec_retreat(sel: Option<usize>, len: usize) -> Option<usize> {
    if len == 0 {
        sel
    } else {
        match sel {
            Some(i) => if i == 0 {
                Some((len - 1) as usize)
            } else {
                Some((i - 1) as usize)
            },
            None => Some(0usize),
        }
    }
}

/// Where the cursor lands after the list changes shape: cleared when the
/// list is empty, pulled back to the new last entry when it points past the
/// end, set to the first entry when it was missing.
pub open spec fn spec_clamp(sel: Option<usize>, len: usize) -> Option<usize> {
    if len == 0 {
        None
    } else {
        match sel {
            Some(i) => if i < len {
                Some(i)
            } else {
                Some((len - 1) as usize)
            },
            None => Some(0usize),
        }
    }
}

/// A cursor that fits its list: missing exactly when the list is empty,
/// otherwise inside the list.
pub open spec fn sel_in_range(sel: Option<usize>, len: nat) -> bool {
    match sel {
        None => len == 0,
        Some(i) => len > 0 && i < len,
    }
}

/// Steps a cursor forward circularly.
pub fn advance(sel: Option<usize>, len: usize) -> (r: Option<usize>)
    ensures
        r == spec_advance(sel, len),
{
    if len == 0 {
        sel
    } else {
        match sel {
            Some(i) => if i >= len - 1 {
                Some(0)
            } else {
                Some(i + 1)
            },
            None => Some(0),
        }
    }
}

/// Steps a cursor backward circularly.
pub fn retreat(sel: Option<usize>, len: usize) -> (r: Option<usize>)
    ensures
        r == spec_retreat(sel, len),
{
    if len == 0 {
        sel
    } else {
        match sel {
            Some(i) => if i == 0 {
                Some(len - 1)
            } else {
                Some(i - 1)
            },
            None => Some(0),
        }
    }
}

/// Clamps a cursor to a list of the given length.
pub fn clamp(sel: Option<usize>, len: usize) -> (r: Option<usize>)
    ensures
        r == spec_clamp(sel, len),
        sel_in_range(r, len as nat),
{
    if len == 0 {
        None
    } else {
        match sel {
            Some(i) => if i < len {
                Some(i)
            } else {
                Some(len - 1)
            },
            None => Some(0),
        }
    }
}

/// Circular navigation: stepping forward from the last entry reaches the
/// first, stepping backward from the first reaches the last, and both leave
/// everything alone on an empty list.
pub proof fn lemma_circular_navigation(sel: Option<usize>, len: usize)
    ensures
        len > 0 ==> spec_advance(Some((len - 1) as usize), len) == Some(0usize),
        len > 0 ==> spec_retreat(Some(0usize), len) == Some((len - 1) as usize),
        len == 0 ==> spec_advance(sel, len) == sel && spec_retreat(sel, len) == sel,
        sel_in_range(sel, len as nat) ==> sel_in_range(spec_advance(sel, len), len as nat)
            && sel_in_range(spec_retreat(sel, len), len as nat),
{
}

/// Cursor clamping after a deletion: when the cursor sat on the last entry
/// and that entry went away, it moves to the new last entry; when the only
/// entry went away, it clears.
pub proof fn lemma_clamp_after_delete(len: usize)
    ensures
        len > 1 ==> spec_clamp(Some((len - 1) as usize), (len - 1) as usize) == Some(
            (len - 2) as usize,
        ),
        len == 1 ==> spec_clamp(Some(0usize), 0usize) is None,
{
}

} // verus!
