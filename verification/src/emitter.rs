//! Writing rows as CSV in which every field is quoted.

use crate::converter::TransibaseConverter;
use crate::order::ExtractedData;
use crate::order::RowView;
use csv::QuoteStyle;
use csv::WriterBuilder;
use vstd::prelude::*;
use vstd::string::*;
use vstd::utf8::encode_utf8;

verus! {

/// The byte that opens and closes a field: `"`.
pub const QUOTE: u8 = 34;

/// The byte between two fields: `,`.
pub const DELIMITER: u8 = 44;

/// The byte that ends a record: a line feed.
pub const TERMINATOR: u8 = 10;

/// The bytes of a field with each quote among them written twice.
pub open spec fn escaped(field: Seq<u8>) -> Seq<u8>
    decreases field.len(),
{
    if field.len() == 0 {
        Seq::empty()
    } else if field.last() == QUOTE {
        escaped(field.drop_last()).push(QUOTE).push(QUOTE)
    } else {
        escaped(field.drop_last()).push(field.last())
    }
}

/// A field as it is written: between quotes, its own quotes doubled.
pub open spec fn quoted(field: Seq<u8>) -> Seq<u8> {
    seq![QUOTE] + escaped(field) + seq![QUOTE]
}

/// The fields of a record as they are written, a delimiter between each two.
pub open spec fn joined(fields: Seq<Seq<u8>>) -> Seq<u8>
    decreases fields.len(),
{
    if fields.len() == 0 {
        Seq::empty()
    } else if fields.len() == 1 {
        quoted(fields[0])
    } else {
        joined(fields.drop_last()).push(DELIMITER) + quoted(fields.last())
    }
}

/// A record as it is written: its fields and the terminator.
pub open spec fn record(fields: Seq<Seq<u8>>) -> Seq<u8> {
    joined(fields).push(TERMINATOR)
}

/// The columns of a row, in the order in which they are written.
pub open spec fn columns(row: RowView) -> Seq<Seq<char>> {
    seq![
        row.reference,
        row.email,
        row.prenom,
        row.nom,
        row.date_naissance,
        row.donation_amount,
        row.transaction_date,
    ]
}

/// The record of a row: its columns in UTF-8.
pub open spec fn row_record(row: RowView) -> Seq<u8> {
    record(columns(row).map_values(|column: Seq<char>| encode_utf8(column)))
}

/// The records of the rows, one after the other. No header comes first.
pub open spec fn document(rows: Seq<RowView>) -> Seq<u8>
    decreases rows.len(),
{
    if rows.len() == 0 {
        Seq::empty()
    } else {
        document(rows.drop_last()) + row_record(rows.last())
    }
}

/// The UTF-8 bytes of each text.
pub open spec fn field_bytes(fields: Seq<&str>) -> Seq<Seq<u8>> {
    fields.map_values(|field: &str| field.spec_bytes())
}

/// Builds a `csv::Writer` over an empty `Vec<u8>` with
/// `csv::WriterBuilder::quote_style(QuoteStyle::Always)`, hands `fields` to
/// `csv::Writer::write_record`, and takes the bytes with
/// `csv::Writer::into_inner`.
///
/// Trusted: the bytes are each field between quotes with its own quotes
/// doubled, a comma between each two, and a line feed at the end; and the
/// call succeeds, for the writer fails only where its sink does or where a
/// record has another number of fields than the one before it, and here the
/// sink is a `Vec<u8>` and the record is the first.
#[verifier::external_body]
fn write_quoted_record(fields: &Vec<&str>) -> (r: Option<Vec<u8>>)
    requires
        fields@.len() > 0,
    ensures
        r.deep_view() == Some(record(field_bytes(fields@))),
{
    let mut writer = WriterBuilder::new().quote_style(QuoteStyle::Always).from_writer(Vec::new());
    match writer.write_record(fields.iter()) {
        Ok(()) => writer.into_inner().ok(),
        Err(_) => None,
    }
}

impl ExtractedData {
    /// The columns of the row, in the order in which they are written.
    pub fn columns(&self) -> (r: Vec<&str>)
        ensures
            r@.map_values(|field: &str| field@) == columns(self@),
    {
        let mut fields: Vec<&str> = Vec::new();
        fields.push(self.reference.as_str());
        fields.push(self.email.as_str());
        fields.push(self.prenom.as_str());
        fields.push(self.nom.as_str());
        fields.push(self.date_naissance.as_str());
        fields.push(self.donation_amount.as_str());
        fields.push(self.transaction_date.as_str());
        fields
    }

    /// The row as one CSV record.
    pub fn to_csv_record(&self) -> (r: Vec<u8>)
        ensures
            r@ == row_record(self@),
    {
        let fields = self.columns();
        assert(field_bytes(fields@) =~= columns(self@).map_values(
            |column: Seq<char>| encode_utf8(column),
        ));
        match write_quoted_record(&fields) {
            Some(bytes) => bytes,
            None => vstd::pervasive::unreached(),
        }
    }
}

impl TransibaseConverter {
    /// The rows as CSV: one record for each row, in their order, every field
    /// quoted, and no header.
    pub fn convert_to_csv(&self, data: &[ExtractedData]) -> (r: Vec<u8>)
        ensures
            r@ == document(data.deep_view()),
    {
        let mut out: Vec<u8> = Vec::new();
        let n: usize = data.len();
        let mut i: usize = 0;
        while i < n
            invariant
                n == data@.len(),
                i <= n,
                out@ == document(data.deep_view().take(i as int)),
            decreases n - i,
        {
            let ghost rows = data.deep_view();
            assert(rows.take(i + 1).drop_last() =~= rows.take(i as int));
            let mut bytes = data[i].to_csv_record();
            out.append(&mut bytes);
            i = i + 1;
        }
        assert(data.deep_view().take(n as int) =~= data.deep_view());
        out
    }
}

} // verus!
