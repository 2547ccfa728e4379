//! The filter year: what counts as one, and which dates fall in it.

use crate::calendar::is_digit;
use regex::Regex;
use vstd::prelude::*;
use vstd::std_specs::iter::IteratorSpec;

verus! {

broadcast use vstd::string::group_string_axioms;

/// The expression that a filter year has to match: four digits from `0` to
/// `9`, and nothing before or after them.
pub const YEAR_PATTERN: &'static str = "^[0-9]{4}$";

/// Whether `s` is exactly four ASCII digits.
pub open spec fn is_year_text(s: Seq<char>) -> bool {
    s.len() == 4 && forall|i: int| 0 <= i < 4 ==> is_digit(#[trigger] s[i])
}

/// Whether the first four characters of `date` are exactly `year`. A date of
/// fewer than four characters lies in no year.
pub open spec fn in_year(date: Seq<char>, year: Seq<char>) -> bool {
    date.len() >= 4 && date.subrange(0, 4) == year
}

/// Calls `regex::Regex::new` on `pattern` and `regex::Regex::is_match` on
/// what it builds.
///
/// Trusted: [`YEAR_PATTERN`] is accepted, and is found in exactly the texts
/// that are four ASCII digits: `^` and `$` hold at the two ends of the text
/// only, `[0-9]` is an ASCII digit, and `{4}` asks for exactly four of them.
#[verifier::external_body]
fn regex_is_match(pattern: &str, haystack: &str) -> (r: Option<bool>)
    requires
        pattern@ == YEAR_PATTERN@,
    ensures
        r == Some(is_year_text(haystack@)),
{
    match Regex::new(pattern) {
        Ok(re) => Some(re.is_match(haystack)),
        Err(_) => None,
    }
}

/// Whether `year` can serve as a filter year.
pub fn is_valid_year(year: &str) -> (b: bool)
    ensures
        b == is_year_text(year@),
{
    match regex_is_match(YEAR_PATTERN, year) {
        Some(b) => b,
        None => vstd::pervasive::unreached(),
    }
}

/// Whether `date` lies in `year`, by its first four characters.
pub fn date_in_year(date: &str, year: &str) -> (b: bool)
    ensures
        b == in_year(date@, year@),
{
    let mut d = date.chars();
    let mut y = year.chars();
    let mut k: usize = 0;
    while k < 4
        invariant
            k <= 4,
            d.obeys_prophetic_iter_laws(),
            y.obeys_prophetic_iter_laws(),
            k <= date@.len(),
            k <= year@.len(),
            d.remaining() == date@.skip(k as int),
            y.remaining() == year@.skip(k as int),
            forall|j: int| 0 <= j < k ==> date@[j] == year@[j],
        decreases 4 - k,
    {
        let a = d.next();
        let b = y.next();
        match (a, b) {
            (Some(p), Some(q)) => {
                if p != q {
                    return false;
                }
            },
            _ => {
                return false;
            },
        }
        k = k + 1;
    }
    let rest = y.next();
    assert(rest is None ==> date@.subrange(0, 4) =~= year@);
    rest.is_none()
}

/// A date of fewer than four characters lies in no year.
pub proof fn lemma_short_date_in_no_year(date: Seq<char>, year: Seq<char>)
    requires
        date.len() < 4,
    ensures
        !in_year(date, year),
{
}

/// A date lies in a year exactly when it begins with the year's four
/// characters.
pub proof fn lemma_in_year_is_prefix(date: Seq<char>, year: Seq<char>)
    ensures
        in_year(date, year) <==> year.len() == 4 && year.is_prefix_of(date),
{
}

} // verus!
