//! The crate's view of the outside world: fresh task identifiers, the
//! wall clock, Unicode lowercasing, and single-character edits of a
//! `String`. Each function wraps exactly one call whose contract Verus
//! takes on trust.

use vstd::prelude::*;

use crate::models::Date;

verus! {

/// A reading of the wall clock: the current second since the Unix epoch and
/// the current UTC calendar date.
pub struct NowInfo {
    pub secs: i64,
    pub date: Date,
}

/// Relies on uuid::Uuid::new_v4 and its Display impl: a fresh random
/// identifier in the 36-character hyphenated form. Nothing is assumed about
/// the characters beyond their number.
#[verifier::external_body]
pub fn fresh_task_id() -> (r: String)
    ensures
        r@.len() == 36,
{
    uuid::Uuid::new_v4().to_string()
}

/// Relies on chrono::Utc::now, DateTime::timestamp and the Datelike
/// accessors: the current Unix second together with the current UTC date,
/// which chrono guarantees to be a real calendar date (month 1..=12, day
/// within the month).
#[verifier::external_body]
pub fn now_info() -> (r: NowInfo)
    ensures
        r.date.valid(),
{
    let t = chrono::Utc::now();
    NowInfo {
        secs: t.timestamp(),
        date: Date {
            year: chrono::Datelike::year(&t),
            month: chrono::Datelike::month(&t) as u8,
            day: chrono::Datelike::day(&t) as u8,
        },
    }
}

/// What str::to_lowercase returns: a function of the characters alone.
pub uninterp spec fn lower_of(s: Seq<char>) -> Seq<char>;

/// Relies on str::to_lowercase: Unicode lowercasing, which depends only on
/// the characters of the input; an empty string stays empty.
#[verifier::external_body]
pub fn to_lower(s: &String) -> (r: String)
    ensures
        r@ == lower_of(s@),
        s@.len() == 0 ==> r@.len() == 0,
{
    s.to_lowercase()
}

/// Relies on String::push: appends the character to the end.
#[verifier::external_body]
pub fn push_char(s: &mut String, c: char)
    ensures
        final(s)@ == old(s)@.push(c),
{
    s.push(c);
}

/// Relies on String::pop: removes and returns the last character, or leaves
/// an empty string alone.
#[verifier::external_body]
pub fn pop_char(s: &mut String) -> (r: Option<char>)
    ensures
        old(s)@.len() == 0 ==> final(s)@ == old(s)@ && r is None,
        old(s)@.len() > 0 ==> final(s)@ == old(s)@.drop_last() && r == Some(old(s)@.last()),
{
    s.pop()
}

} // verus!
