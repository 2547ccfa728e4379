//! The normalization of transaction dates.

use crate::calendar::is_iso_shape;
use crate::calendar::iso_text;
use crate::calendar::lemma_iso_text_round_trip;
use crate::calendar::parsed_date;
use crate::calendar::CalendarDate;
use crate::calendar::ISO_FORMAT;
use vstd::prelude::*;
use vstd::std_specs::iter::IteratorSpec;

verus! {

broadcast use vstd::string::group_string_axioms;

/// The position of the first `c` in `s`, or the length of `s` when there is
/// none.
pub open spec fn first_index_of(s: Seq<char>, c: char) -> int
    decreases s.len(),
{
    if s.len() == 0 {
        0
    } else if s[0] == c {
        0
    } else {
        1 + first_index_of(s.skip(1), c)
    }
}

/// `first_index_of` finds the first occurrence, and the end of the text when
/// there is none.
pub proof fn lemma_first_index_of(s: Seq<char>, c: char)
    ensures
        0 <= first_index_of(s, c) <= s.len(),
        first_index_of(s, c) < s.len() ==> s[first_index_of(s, c)] == c,
        forall|j: int| 0 <= j < first_index_of(s, c) ==> s[j] != c,
        first_index_of(s, c) < s.len() <==> s.contains(c),
    decreases s.len(),
{
    if s.len() > 0 && s[0] != c {
        let t = s.skip(1);
        lemma_first_index_of(t, c);
        let f = first_index_of(t, c);
        assert forall|j: int| 0 <= j < 1 + f implies s[j] != c by {
            if j > 0 {
                assert(t[j - 1] == s[j]);
            }
        }
    }
}

/// The first position of `c` among the characters of `s`.
pub fn find_char(s: &str, c: char) -> (r: Option<usize>)
    ensures
        r is Some <==> s@.contains(c),
        r matches Some(i) ==> i == first_index_of(s@, c),
{
    let n: usize = s.unicode_len();
    let mut it = s.chars();
    let mut i: usize = 0;
    proof {
        lemma_first_index_of(s@, c);
    }
    while i < n
        invariant
            n == s@.len(),
            i <= n,
            it.obeys_prophetic_iter_laws(),
            it.remaining() == s@.skip(i as int),
            forall|j: int| 0 <= j < i ==> s@[j] != c,
            0 <= first_index_of(s@, c) <= s@.len(),
            first_index_of(s@, c) < s@.len() ==> s@[first_index_of(s@, c)] == c,
            forall|j: int| 0 <= j < first_index_of(s@, c) ==> s@[j] != c,
            first_index_of(s@, c) < s@.len() <==> s@.contains(c),
        decreases n - i,
    {
        let x = it.next();
        if x == Some(c) {
            return Some(i);
        }
        i = i + 1;
    }
    None
}

/// A transaction date brought to the form year-month-day where that can be
/// done: nothing for an empty text; the part before the first `T` of a date
/// with a time; a text of four digits, two digits and two digits joined by
/// hyphens as it stands; any other text that reads as a date, written anew;
/// and the text itself otherwise.
pub open spec fn normalized_date(raw: Seq<char>) -> Seq<char> {
    if raw.len() == 0 {
        Seq::empty()
    } else if raw.contains('T') {
        raw.subrange(0, first_index_of(raw, 'T'))
    } else if is_iso_shape(raw) {
        raw
    } else {
        match parsed_date(raw, ISO_FORMAT@) {
            Some((year, month, day)) => iso_text(year, month, day),
            None => raw,
        }
    }
}

/// The date written anew where `raw` was read as one, and `raw` where it was
/// not.
pub fn reformat_or_keep(raw: &str, parsed: Option<CalendarDate>) -> (r: String)
    requires
        parsed matches Some(d) ==> d.wf(),
    ensures
        r@ == (match parsed {
            Some(d) => d.iso_text(),
            None => raw@,
        }),
{
    match parsed {
        Some(d) => d.to_iso_text(),
        None => raw.to_owned(),
    }
}

/// Normalizes a transaction date.
pub fn normalize_date(raw: &str) -> (r: String)
    ensures
        r@ == normalized_date(raw@),
{
    if raw.is_empty() {
        return String::new();
    }
    match find_char(raw, 'T') {
        Some(i) => {
            proof {
                lemma_first_index_of(raw@, 'T');
            }
            raw.substring_char(0, i).to_owned()
        },
        None => {
            let parsed = CalendarDate::parse(raw);
            proof {
                if is_iso_shape(raw@) {
                    lemma_iso_text_round_trip(raw@);
                }
            }
            reformat_or_keep(raw, parsed)
        },
    }
}

/// A date with a time is cut strictly before its first `T`.
pub proof fn lemma_date_time_is_cut_at_first_t(raw: Seq<char>)
    requires
        raw.contains('T'),
    ensures
        0 <= first_index_of(raw, 'T') < raw.len(),
        raw[first_index_of(raw, 'T')] == 'T',
        !normalized_date(raw).contains('T'),
        normalized_date(raw) == raw.subrange(0, first_index_of(raw, 'T')),
{
    lemma_first_index_of(raw, 'T');
}

/// A text of four digits, two digits and two digits joined by hyphens is
/// left as it is, whether or not it names a day that exists.
pub proof fn lemma_well_shaped_date_is_kept(raw: Seq<char>)
    requires
        is_iso_shape(raw),
    ensures
        normalized_date(raw) == raw,
{
}

/// A text without `T` that is not four digits, two digits and two digits
/// joined by hyphens is left as it is, unless it reads as a date all the same
/// and that date is written otherwise.
pub proof fn lemma_other_text_is_kept(raw: Seq<char>)
    requires
        !raw.contains('T'),
        !is_iso_shape(raw),
        parsed_date(raw, ISO_FORMAT@) matches Some((year, month, day)) ==> iso_text(
            year,
            month,
            day,
        ) == raw,
    ensures
        normalized_date(raw) == raw,
{
}

} // verus!
