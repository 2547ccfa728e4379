//! Reading the orders out of the text of an export: three ways of reading
//! are tried in turn, and the first that succeeds gives the orders.
//!
//! Turning JSON text into orders is left to the caller. This module says
//! which text to read, in which shape, and what follows from each outcome.

use crate::error::ConversionError;
use crate::order::OrderData;
use vstd::prelude::*;

verus! {

/// A way of reading the text of an export.
#[derive(Clone, Copy, Debug, PartialEq, Eq)]
pub enum Strategy {
    /// The text as it is, as an array of orders.
    Array,
    /// The text as it is, as one order.
    SingleObject,
    /// The text between `[` and `]`, as an array of orders: for a text of
    /// orders separated by commas that lacks its brackets.
    BracketedArray,
}

/// What reading a text gave.
#[derive(Clone, Debug, PartialEq, Eq)]
pub enum Reading {
    /// The text was an array of these orders.
    Records(Vec<OrderData>),
    /// The text was this one order.
    Record(OrderData),
    /// The text was refused, for this reason.
    Refused(String),
}

/// What to do after a reading.
#[derive(Clone, Debug, PartialEq, Eq)]
pub enum LoadStep {
    /// Read again, in this way.
    Try(Strategy),
    /// The orders are read.
    Loaded(Vec<OrderData>),
    /// No way of reading is left.
    Failed(ConversionError),
}

/// The text that is read under a strategy.
pub open spec fn text_to_read(strategy: Strategy, raw: Seq<char>) -> Seq<char> {
    match strategy {
        Strategy::Array => raw,
        Strategy::SingleObject => raw,
        Strategy::BracketedArray => seq!['['] + raw + seq![']'],
    }
}

/// Whether an array of orders is looked for under a strategy, rather than
/// one order.
pub open spec fn looks_for_array(strategy: Strategy) -> bool {
    !(strategy is SingleObject)
}

/// The strategy that is tried after `strategy` has failed, if one is left.
pub open spec fn strategy_after(strategy: Strategy) -> Option<Strategy> {
    match strategy {
        Strategy::Array => Some(Strategy::SingleObject),
        Strategy::SingleObject => Some(Strategy::BracketedArray),
        Strategy::BracketedArray => None,
    }
}

impl Strategy {
    /// The strategy that is tried first.
    pub fn first() -> (s: Strategy)
        ensures
            s == Strategy::Array,
    {
        Strategy::Array
    }

    /// Whether an array of orders is looked for, rather than one order.
    pub fn expects_array(&self) -> (b: bool)
        ensures
            b == looks_for_array(*self),
    {
        match self {
            Strategy::SingleObject => false,
            _ => true,
        }
    }

    /// The text to read under this strategy.
    pub fn text(&self, raw: &str) -> (r: String)
        ensures
            r@ == text_to_read(*self, raw@),
    {
        match self {
            Strategy::BracketedArray => {
                proof {
                    reveal_strlit("[");
                    reveal_strlit("]");
                }
                let mut repaired = String::from_str("[");
                repaired.append(raw);
                repaired.append("]");
                repaired
            },
            _ => raw.to_owned(),
        }
    }

    /// The strategy to try when this one has failed, if one is left.
    pub fn next(&self) -> (r: Option<Strategy>)
        ensures
            r == strategy_after(*self),
    {
        match self {
            Strategy::Array => Some(Strategy::SingleObject),
            Strategy::SingleObject => Some(Strategy::BracketedArray),
            Strategy::BracketedArray => None,
        }
    }
}

/// What follows from a reading under `strategy`: the orders where the text
/// was read, one order alone making a list of one; the next strategy where
/// it was refused and one is left; and else the failure, with the reason of
/// this last refusal.
pub fn after_reading(strategy: Strategy, reading: Reading) -> (step: LoadStep)
    ensures
        reading matches Reading::Records(orders) ==> step == LoadStep::Loaded(orders),
        reading matches Reading::Record(order) ==> (step matches LoadStep::Loaded(orders)
            && orders@ == seq![order]),
        reading matches Reading::Refused(reason) ==> (match strategy_after(strategy) {
            Some(next) => step == LoadStep::Try(next),
            None => step == LoadStep::Failed(ConversionError::MalformedInput(reason)),
        }),
{
    match reading {
        Reading::Records(orders) => LoadStep::Loaded(orders),
        Reading::Record(order) => {
            let mut orders: Vec<OrderData> = Vec::new();
            orders.push(order);
            LoadStep::Loaded(orders)
        },
        Reading::Refused(reason) => match strategy.next() {
            Some(next) => LoadStep::Try(next),
            None => LoadStep::Failed(ConversionError::MalformedInput(reason)),
        },
    }
}

/// The number of strategies that are tried when `strategy` fails.
pub open spec fn strategies_left(strategy: Strategy) -> nat {
    match strategy {
        Strategy::Array => 2,
        Strategy::SingleObject => 1,
        Strategy::BracketedArray => 0,
    }
}

/// Whether `result` can come of reading `raw` with `read`, from `strategy`
/// on: `read` gave a reading of the text of this strategy, and `result` is
/// the orders of that reading, or comes of the next strategy where the
/// reading was a refusal, or is the failure with the reason of that refusal
/// where no strategy is left.
pub open spec fn loads<F: Fn(&str, bool) -> Reading>(
    read: F,
    raw: Seq<char>,
    strategy: Strategy,
    result: Result<Vec<OrderData>, ConversionError>,
) -> bool
    decreases strategies_left(strategy),
{
    exists|text: &str, reading: Reading|
        {
            &&& text@ == text_to_read(strategy, raw)
            &&& #[trigger] call_ensures(read, (text, looks_for_array(strategy)), reading)
            &&& match reading {
                Reading::Records(orders) => result == Ok::<Vec<OrderData>, ConversionError>(orders),
                Reading::Record(order) => result matches Ok(orders) && orders@ == seq![order],
                Reading::Refused(reason) => match strategy_after(strategy) {
                    Some(next) => loads(read, raw, next, result),
                    None => result == Err::<Vec<OrderData>, ConversionError>(
                        ConversionError::MalformedInput(reason),
                    ),
                },
            }
        }
}

/// Reads the orders out of `raw`: `read` is given the text to read and
/// whether an array of orders is looked for, once for each strategy in turn
/// until it does not refuse.
pub fn load<F: Fn(&str, bool) -> Reading>(raw: &str, read: F) -> (r: Result<
    Vec<OrderData>,
    ConversionError,
>)
    requires
        forall|text: &str, as_array: bool| call_requires(read, (text, as_array)),
    ensures
        loads(read, raw@, Strategy::Array, r),
{
    let mut strategy = Strategy::first();
    loop
        invariant
            forall|text: &str, as_array: bool| call_requires(read, (text, as_array)),
            forall|r: Result<Vec<OrderData>, ConversionError>|
                loads(read, raw@, strategy, r) ==> loads(read, raw@, Strategy::Array, r),
        decreases strategies_left(strategy),
    {
        let repaired = strategy.text(raw);
        let text: &str = repaired.as_str();
        let reading = read(text, strategy.expects_array());
        match after_reading(strategy, reading) {
            LoadStep::Try(next) => strategy = next,
            LoadStep::Loaded(orders) => return Ok(orders),
            LoadStep::Failed(error) => return Err(error),
        }
    }
}

/// Whether `read`, given `text` in the shape that `as_array` asks for, can
/// give nothing but a refusal.
pub open spec fn refuses<F: Fn(&str, bool) -> Reading>(
    read: F,
    text: Seq<char>,
    as_array: bool,
) -> bool {
    forall|t: &str, reading: Reading|
        t@ == text && #[trigger] call_ensures(read, (t, as_array), reading) ==> reading is Refused
}

/// Whether `read`, given `text` in the shape that `as_array` asks for, can
/// give nothing but `reading`.
pub open spec fn reads_as<F: Fn(&str, bool) -> Reading>(
    read: F,
    text: Seq<char>,
    as_array: bool,
    reading: Reading,
) -> bool {
    forall|t: &str, given: Reading|
        t@ == text && #[trigger] call_ensures(read, (t, as_array), given) ==> given == reading
}

/// A text that is read as an array of orders gives those orders.
pub proof fn lemma_array_is_loaded<F: Fn(&str, bool) -> Reading>(
    read: F,
    raw: Seq<char>,
    orders: Vec<OrderData>,
    result: Result<Vec<OrderData>, ConversionError>,
)
    requires
        loads(read, raw, Strategy::Array, result),
        reads_as(read, raw, true, Reading::Records(orders)),
    ensures
        result == Ok::<Vec<OrderData>, ConversionError>(orders),
{
}

/// A text that is refused as an array and read as one order gives a list of
/// that order alone.
pub proof fn lemma_single_object_is_loaded_as_list_of_one<F: Fn(&str, bool) -> Reading>(
    read: F,
    raw: Seq<char>,
    order: OrderData,
    result: Result<Vec<OrderData>, ConversionError>,
)
    requires
        loads(read, raw, Strategy::Array, result),
        refuses(read, raw, true),
        reads_as(read, raw, false, Reading::Record(order)),
    ensures
        result matches Ok(orders) && orders@ == seq![order],
{
    assert(loads(read, raw, Strategy::SingleObject, result));
}

/// A text that is refused as an array and as one order, and read as an
/// array once it stands between brackets, gives the orders of that array.
pub proof fn lemma_bracketed_array_is_loaded<F: Fn(&str, bool) -> Reading>(
    read: F,
    raw: Seq<char>,
    orders: Vec<OrderData>,
    result: Result<Vec<OrderData>, ConversionError>,
)
    requires
        loads(read, raw, Strategy::Array, result),
        refuses(read, raw, true),
        refuses(read, raw, false),
        reads_as(read, seq!['['] + raw + seq![']'], true, Reading::Records(orders)),
    ensures
        result == Ok::<Vec<OrderData>, ConversionError>(orders),
{
    assert(loads(read, raw, Strategy::SingleObject, result));
    assert(loads(read, raw, Strategy::BracketedArray, result));
}

/// A text that is refused in all three ways is malformed.
pub proof fn lemma_refused_text_is_malformed<F: Fn(&str, bool) -> Reading>(
    read: F,
    raw: Seq<char>,
    result: Result<Vec<OrderData>, ConversionError>,
)
    requires
        loads(read, raw, Strategy::Array, result),
        refuses(read, raw, true),
        refuses(read, raw, false),
        refuses(read, seq!['['] + raw + seq![']'], true),
    ensures
        result matches Err(ConversionError::MalformedInput(_)),
{
    assert(loads(read, raw, Strategy::SingleObject, result));
    assert(loads(read, raw, Strategy::BracketedArray, result));
}

} // verus!
