//! What the command line asks for, and what an answer at the prompt means.

use crate::error::ConversionError;
use crate::year::is_valid_year;
use crate::year::is_year_text;
use vstd::prelude::*;

verus! {

/// What a command line asks for.
#[derive(Clone, Debug, PartialEq, Eq)]
pub struct Invocation {
    pub input_file: String,
    pub output_file: String,
    pub filter_year: Option<String>,
}

/// Reads the arguments of the program, its own name first: the input file,
/// the output file and, if there is one, the filter year. Further arguments
/// are not read. The year is taken as it stands: see [`validate_year`].
pub fn parse_arguments(args: &[String]) -> (r: Result<Invocation, ConversionError>)
    ensures
        args@.len() < 3 ==> r == Err::<Invocation, ConversionError>(ConversionError::Usage),
        args@.len() >= 3 ==> r is Ok,
        r matches Ok(invocation) ==> ({
            &&& invocation.input_file@ == args@[1]@
            &&& invocation.output_file@ == args@[2]@
            &&& invocation.filter_year.deep_view() == (if args@.len() > 3 {
                Some(args@[3]@)
            } else {
                None
            })
        }),
{
    if args.len() < 3 {
        return Err(ConversionError::Usage);
    }
    let filter_year = if args.len() > 3 {
        Some(args[3].clone())
    } else {
        None
    };
    Ok(Invocation { input_file: args[1].clone(), output_file: args[2].clone(), filter_year })
}

/// Accepts a filter year of four ASCII digits, and the absence of one.
pub fn validate_year(filter_year: &Option<String>) -> (r: Result<(), ConversionError>)
    ensures
        r is Ok <==> (filter_year matches Some(year) ==> is_year_text(year@)),
        r matches Err(e) ==> e == ConversionError::InvalidYearFormat,
{
    match filter_year {
        Some(year) => {
            if is_valid_year(year.as_str()) {
                Ok(())
            } else {
                Err(ConversionError::InvalidYearFormat)
            }
        },
        None => Ok(()),
    }
}

/// `text` as `str::trim` returns it: without the white space at its two
/// ends.
pub uninterp spec fn trimmed(text: Seq<char>) -> Seq<char>;

/// `text` as `str::to_lowercase` returns it: each character in its lower
/// case.
pub uninterp spec fn lowercased(text: Seq<char>) -> Seq<char>;

/// Calls `str::trim`.
#[verifier::external_body]
fn trim(text: &str) -> (r: &str)
    ensures
        r@ == trimmed(text@),
{
    text.trim()
}

/// Calls `str::to_lowercase`.
#[verifier::external_body]
fn to_lowercase(text: &str) -> (r: String)
    ensures
        r@ == lowercased(text@),
{
    text.to_lowercase()
}

/// Whether an answer, trimmed and in lower case, says yes: it is `o`.
pub open spec fn is_yes(answer: Seq<char>) -> bool {
    answer == seq!['o']
}

/// Whether an answer, trimmed and in lower case, says yes.
pub fn answer_is_yes(answer: &str) -> (b: bool)
    ensures
        b == is_yes(answer@),
{
    let n: usize = answer.unicode_len();
    if n != 1 {
        return false;
    }
    let c = answer.get_char(0);
    assert(c == 'o' ==> answer@ =~= seq!['o']);
    c == 'o'
}

/// Whether the line typed at the prompt allows the output file to be
/// overwritten: it does when, without the white space around it and in
/// lower case, it is `o`.
pub fn confirms_overwrite(response: &str) -> (b: bool)
    ensures
        b == is_yes(lowercased(trimmed(response@))),
{
    let answer = to_lowercase(trim(response));
    answer_is_yes(answer.as_str())
}

} // verus!
