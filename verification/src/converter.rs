//! Drawing the output rows from the orders.

use crate::date::normalize_date;
use crate::date::normalized_date;
use crate::order::or_empty;
use crate::order::text_or_empty;
use crate::order::ExtractedData;
use crate::order::OptionsView;
use crate::order::OrderData;
use crate::order::OrderView;
use crate::order::RowView;
use crate::order::TransactionView;
use crate::year::date_in_year;
use crate::year::in_year;
use vstd::prelude::*;

verus! {

/// The row that a transaction, an email and the options of a line item make.
pub open spec fn row_from(
    transaction: TransactionView,
    email: Seq<char>,
    options: Option<OptionsView>,
) -> RowView {
    RowView {
        reference: or_empty(transaction.reference),
        email,
        prenom: match options {
            Some(o) => or_empty(o.prenom),
            None => Seq::empty(),
        },
        nom: match options {
            Some(o) => or_empty(o.nom),
            None => Seq::empty(),
        },
        date_naissance: match options {
            Some(o) => or_empty(o.date_naissance),
            None => Seq::empty(),
        },
        donation_amount: match options {
            Some(o) => or_empty(o.donation_amount),
            None => Seq::empty(),
        },
        transaction_date: normalized_date(or_empty(transaction.date_created)),
    }
}

/// The row of an order: none for an order without a transaction, and else the
/// row of its last transaction, its customer's email and the options of its
/// first line item.
pub open spec fn row_of(order: OrderView) -> Option<RowView> {
    match order.last_transaction() {
        Some(t) => Some(row_from(t, order.email(), order.first_options())),
        None => None,
    }
}

/// Whether a row of the date `date` passes the filter: any row where no year
/// is asked for, and else the rows whose date lies in that year.
pub open spec fn passes(filter: Option<Seq<char>>, date: Seq<char>) -> bool {
    match filter {
        Some(year) => in_year(date, year),
        None => true,
    }
}

/// The row that an order gives under a filter, if it gives one.
pub open spec fn extracted_row(order: OrderView, filter: Option<Seq<char>>) -> Option<RowView> {
    match row_of(order) {
        Some(row) => if passes(filter, row.transaction_date) {
            Some(row)
        } else {
            None
        },
        None => None,
    }
}

/// The rows that a list of orders gives under a filter: the row of each
/// order that gives one, in the order of the list.
pub open spec fn extracted(orders: Seq<OrderView>, filter: Option<Seq<char>>) -> Seq<RowView>
    decreases orders.len(),
{
    if orders.len() == 0 {
        Seq::empty()
    } else {
        let before = extracted(orders.drop_last(), filter);
        match extracted_row(orders.last(), filter) {
            Some(row) => before.push(row),
            None => before,
        }
    }
}

/// Draws rows from orders, all of them or those of one year.
pub struct TransibaseConverter {
    filter_year: Option<String>,
}

impl View for TransibaseConverter {
    type V = Option<Seq<char>>;

    /// The year asked for, if any.
    closed spec fn view(&self) -> Option<Seq<char>> {
        self.filter_year.deep_view()
    }
}

impl TransibaseConverter {
    /// A converter that draws the rows of `filter_year`, or all rows where
    /// no year is given. The year is taken as it stands.
    pub fn new(filter_year: Option<String>) -> (c: Self)
        ensures
            c@ == filter_year.deep_view(),
    {
        TransibaseConverter { filter_year }
    }

    /// The year asked for, if any.
    pub fn filter_year(&self) -> (r: Option<&String>)
        ensures
            r.deep_view() == self@,
    {
        self.filter_year.as_ref()
    }

    /// Whether a row of the date `date` passes the filter.
    pub fn accepts(&self, date: &str) -> (b: bool)
        ensures
            b == passes(self@, date@),
    {
        match &self.filter_year {
            Some(year) => date_in_year(date, year.as_str()),
            None => true,
        }
    }

    /// The row that `order` gives, if it gives one.
    pub fn extract_row(&self, order: &OrderData) -> (r: Option<ExtractedData>)
        ensures
            r.deep_view() == extracted_row(order@, self@),
    {
        let last_transaction = match order.last_transaction() {
            Some(t) => t,
            None => {
                return None;
            },
        };
        let transaction_date = match &last_transaction.date_created {
            Some(raw) => normalize_date(raw.as_str()),
            None => String::new(),
        };
        if !self.accepts(transaction_date.as_str()) {
            return None;
        }
        let email = order.customer_email();
        let row = match order.first_options() {
            Some(o) => ExtractedData {
                reference: text_or_empty(&last_transaction.reference),
                email,
                prenom: text_or_empty(&o.prenom),
                nom: text_or_empty(&o.nom),
                date_naissance: text_or_empty(&o.date_naissance),
                donation_amount: text_or_empty(&o.donation_amount),
                transaction_date,
            },
            None => ExtractedData {
                reference: text_or_empty(&last_transaction.reference),
                email,
                prenom: String::new(),
                nom: String::new(),
                date_naissance: String::new(),
                donation_amount: String::new(),
                transaction_date,
            },
        };
        Some(row)
    }

    /// The rows that `json_data` gives, in its order.
    pub fn extract_data(&self, json_data: &[OrderData]) -> (r: Vec<ExtractedData>)
        ensures
            r.deep_view() == extracted(json_data.deep_view(), self@),
    {
        let mut extracted_data: Vec<ExtractedData> = Vec::new();
        let n: usize = json_data.len();
        let mut i: usize = 0;
        while i < n
            invariant
                n == json_data@.len(),
                i <= n,
                extracted_data.deep_view() == extracted(json_data.deep_view().take(i as int), self@),
            decreases n - i,
        {
            let ghost orders = json_data.deep_view();
            assert(orders.take(i + 1).drop_last() =~= orders.take(i as int));
            match self.extract_row(&json_data[i]) {
                Some(row) => extracted_data.push(row),
                None => {},
            }
            i = i + 1;
        }
        assert(json_data.deep_view().take(n as int) =~= json_data.deep_view());
        extracted_data
    }
}

/// The rows of two lists of orders, one after the other, are the rows of the
/// first followed by the rows of the second.
pub proof fn lemma_extracted_concat(
    first: Seq<OrderView>,
    second: Seq<OrderView>,
    filter: Option<Seq<char>>,
)
    ensures
        extracted(first + second, filter) == extracted(first, filter) + extracted(second, filter),
    decreases second.len(),
{
    if second.len() > 0 {
        lemma_extracted_concat(first, second.drop_last(), filter);
        assert((first + second).drop_last() =~= first + second.drop_last());
    }
}

/// An order without a transaction gives no row, whatever the filter: the
/// rows of a list are the same with and without such an order, wherever it
/// stands in the list.
pub proof fn lemma_order_without_transaction_gives_no_row(
    before: Seq<OrderView>,
    order: OrderView,
    after: Seq<OrderView>,
    filter: Option<Seq<char>>,
)
    requires
        order.transactions matches Some(ts) ==> ts.len() == 0,
    ensures
        extracted_row(order, filter) is None,
        extracted(before.push(order) + after, filter) == extracted(before + after, filter),
{
    lemma_extracted_concat(before.push(order), after, filter);
    lemma_extracted_concat(before, after, filter);
    assert(before.push(order).drop_last() =~= before);
}

/// Under a filter year, an order gives a row exactly when it has a
/// transaction and the first four characters of the normalized date of its
/// last transaction are the year. A date of fewer than four characters
/// gives no row.
pub proof fn lemma_year_filter(order: OrderView, year: Seq<char>)
    ensures
        extracted_row(order, Some(year)) is Some <==> (row_of(order) matches Some(row)
            && row.transaction_date.len() >= 4 && row.transaction_date.subrange(0, 4) == year),
        extracted_row(order, Some(year)) matches Some(row) ==> row_of(order) == Some(row),
        row_of(order) matches Some(row) && row.transaction_date.len() < 4 ==> extracted_row(
            order,
            Some(year),
        ) is None,
        extracted_row(order, None) == row_of(order),
{
}

/// Of the line items of an order only the first is read: two orders that
/// differ in their later line items alone give the same row.
pub proof fn lemma_only_first_line_item_is_read(
    a: OrderView,
    b: OrderView,
    filter: Option<Seq<char>>,
)
    requires
        a.transactions == b.transactions,
        a.customer == b.customer,
        a.first_line_item() == b.first_line_item(),
    ensures
        extracted_row(a, filter) == extracted_row(b, filter),
{
}

/// Of the transactions of an order only the last is read: two orders that
/// differ in their earlier transactions alone give the same row.
pub proof fn lemma_only_last_transaction_is_read(
    a: OrderView,
    b: OrderView,
    filter: Option<Seq<char>>,
)
    requires
        a.last_transaction() == b.last_transaction(),
        a.customer == b.customer,
        a.line_items == b.line_items,
    ensures
        extracted_row(a, filter) == extracted_row(b, filter),
{
}

} // verus!
