//! From the text of an export to the CSV that is written, or to the finding
//! that there is nothing to write.

use crate::converter::extracted;
use crate::converter::TransibaseConverter;
use crate::emitter::document;
use crate::error::ConversionError;
use crate::loader::load;
use crate::loader::loads;
use crate::loader::Reading;
use crate::loader::Strategy;
use crate::order::OrderData;
use crate::order::OrderView;
use vstd::prelude::*;

verus! {

/// How a conversion that did not fail ended.
#[derive(Clone, Debug, PartialEq, Eq)]
pub enum Outcome {
    /// No order gave a row: no file is written.
    NoMatchingRecords,
    /// These bytes are the CSV to write; it holds this many rows.
    Converted { csv: Vec<u8>, rows: usize },
}

/// Whether `outcome` is what the orders come to under the filter: nothing
/// where no order gives a row, and else the CSV of the rows and their number.
pub open spec fn is_outcome_of(
    outcome: Outcome,
    orders: Seq<OrderView>,
    filter: Option<Seq<char>>,
) -> bool {
    match outcome {
        Outcome::NoMatchingRecords => extracted(orders, filter).len() == 0,
        Outcome::Converted { csv, rows } => {
            &&& rows > 0
            &&& rows == extracted(orders, filter).len()
            &&& csv@ == document(extracted(orders, filter))
        },
    }
}

impl TransibaseConverter {
    /// Draws the rows from the orders and writes them as CSV. Where no order
    /// gives a row there is no CSV.
    pub fn process(&self, orders: &[OrderData]) -> (outcome: Outcome)
        ensures
            is_outcome_of(outcome, orders.deep_view(), self@),
    {
        let extracted_data = self.extract_data(orders);
        let rows: usize = extracted_data.len();
        if rows == 0 {
            return Outcome::NoMatchingRecords;
        }
        let csv = self.convert_to_csv(extracted_data.as_slice());
        Outcome::Converted { csv, rows }
    }

    /// Reads the orders out of `raw` with `read`, as [`load`] does, and
    /// processes them. A text that is not read is the only failure.
    pub fn process_text<F: Fn(&str, bool) -> Reading>(&self, raw: &str, read: F) -> (r: Result<
        Outcome,
        ConversionError,
    >)
        requires
            forall|text: &str, as_array: bool| call_requires(read, (text, as_array)),
        ensures
            (match r {
                Ok(outcome) => exists|orders: Vec<OrderData>|
                    #[trigger] loads(read, raw@, Strategy::Array, Ok(orders)) && is_outcome_of(
                        outcome,
                        orders.deep_view(),
                        self@,
                    ),
                Err(error) => loads(read, raw@, Strategy::Array, Err(error)),
            }),
    {
        match load(raw, read) {
            Ok(orders) => {
                let list: &[OrderData] = orders.as_slice();
                let outcome = self.process(list);
                Ok(outcome)
            },
            Err(error) => Err(error),
        }
    }
}

/// The code with which the program ends: 0 where the conversion did not
/// fail, whether or not it found rows, and the error's code where it did.
pub fn exit_code(result: &Result<Outcome, ConversionError>) -> (code: i32)
    ensures
        code == (if result is Ok {
            0i32
        } else {
            1i32
        }),
{
    match result {
        Ok(_) => 0,
        Err(e) => e.exit_code(),
    }
}

} // verus!
