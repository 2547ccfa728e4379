//! Exported orders, as they are read, and the rows drawn from them.

use vstd::prelude::*;

verus! {

/// A payment recorded for an order.
#[derive(Clone, Debug, PartialEq, Eq)]
pub struct Transaction {
    pub reference: Option<String>,
    pub date_created: Option<String>,
}

/// The person who placed an order.
#[derive(Clone, Debug, PartialEq, Eq)]
pub struct Customer {
    pub email: Option<String>,
}

/// What the donor entered on a line item.
#[derive(Clone, Debug, PartialEq, Eq)]
pub struct Options {
    pub prenom: Option<String>,
    pub nom: Option<String>,
    pub date_naissance: Option<String>,
    pub donation_amount: Option<String>,
}

/// One purchased item of an order.
#[derive(Clone, Debug, PartialEq, Eq)]
pub struct LineItem {
    pub options: Option<Options>,
}

/// One exported order. Any part of it may be absent.
#[derive(Clone, Debug, PartialEq, Eq)]
pub struct OrderData {
    pub transactions: Option<Vec<Transaction>>,
    pub customer: Option<Customer>,
    pub line_items: Option<Vec<LineItem>>,
}

/// One row of the output, its columns in the order in which they are written.
#[derive(Clone, Debug, PartialEq, Eq)]
pub struct ExtractedData {
    pub reference: String,
    pub email: String,
    pub prenom: String,
    pub nom: String,
    pub date_naissance: String,
    pub donation_amount: String,
    pub transaction_date: String,
}

/// A transaction as its texts.
pub struct TransactionView {
    pub reference: Option<Seq<char>>,
    pub date_created: Option<Seq<char>>,
}

/// A customer as its texts.
pub struct CustomerView {
    pub email: Option<Seq<char>>,
}

/// The options of a line item as their texts.
pub struct OptionsView {
    pub prenom: Option<Seq<char>>,
    pub nom: Option<Seq<char>>,
    pub date_naissance: Option<Seq<char>>,
    pub donation_amount: Option<Seq<char>>,
}

/// A line item as its texts.
pub struct LineItemView {
    pub options: Option<OptionsView>,
}

/// An order as its texts.
pub struct OrderView {
    pub transactions: Option<Seq<TransactionView>>,
    pub customer: Option<CustomerView>,
    pub line_items: Option<Seq<LineItemView>>,
}

/// A row as the texts of its columns.
pub struct RowView {
    pub reference: Seq<char>,
    pub email: Seq<char>,
    pub prenom: Seq<char>,
    pub nom: Seq<char>,
    pub date_naissance: Seq<char>,
    pub donation_amount: Seq<char>,
    pub transaction_date: Seq<char>,
}

impl DeepView for Transaction {
    type V = TransactionView;

    open spec fn deep_view(&self) -> TransactionView {
        TransactionView {
            reference: self.reference.deep_view(),
            date_created: self.date_created.deep_view(),
        }
    }
}

impl View for Transaction {
    type V = TransactionView;

    open spec fn view(&self) -> TransactionView {
        self.deep_view()
    }
}

impl DeepView for Customer {
    type V = CustomerView;

    open spec fn deep_view(&self) -> CustomerView {
        CustomerView { email: self.email.deep_view() }
    }
}

impl View for Customer {
    type V = CustomerView;

    open spec fn view(&self) -> CustomerView {
        self.deep_view()
    }
}

impl DeepView for Options {
    type V = OptionsView;

    open spec fn deep_view(&self) -> OptionsView {
        OptionsView {
            prenom: self.prenom.deep_view(),
            nom: self.nom.deep_view(),
            date_naissance: self.date_naissance.deep_view(),
            donation_amount: self.donation_amount.deep_view(),
        }
    }
}

impl View for Options {
    type V = OptionsView;

    open spec fn view(&self) -> OptionsView {
        self.deep_view()
    }
}

impl DeepView for LineItem {
    type V = LineItemView;

    open spec fn deep_view(&self) -> LineItemView {
        LineItemView { options: self.options.deep_view() }
    }
}

impl View for LineItem {
    type V = LineItemView;

    open spec fn view(&self) -> LineItemView {
        self.deep_view()
    }
}

impl DeepView for OrderData {
    type V = OrderView;

    open spec fn deep_view(&self) -> OrderView {
        OrderView {
            transactions: self.transactions.deep_view(),
            customer: self.customer.deep_view(),
            line_items: self.line_items.deep_view(),
        }
    }
}

impl View for OrderData {
    type V = OrderView;

    open spec fn view(&self) -> OrderView {
        self.deep_view()
    }
}

impl DeepView for ExtractedData {
    type V = RowView;

    open spec fn deep_view(&self) -> RowView {
        RowView {
            reference: self.reference@,
            email: self.email@,
            prenom: self.prenom@,
            nom: self.nom@,
            date_naissance: self.date_naissance@,
            donation_amount: self.donation_amount@,
            transaction_date: self.transaction_date@,
        }
    }
}

impl View for ExtractedData {
    type V = RowView;

    open spec fn view(&self) -> RowView {
        self.deep_view()
    }
}

/// The text of a field, empty where the field is absent.
pub open spec fn or_empty(text: Option<Seq<char>>) -> Seq<char> {
    match text {
        Some(t) => t,
        None => Seq::empty(),
    }
}

impl OrderView {
    /// The transaction that speaks for the order: the last of its list.
    pub open spec fn last_transaction(self) -> Option<TransactionView> {
        match self.transactions {
            Some(ts) => if ts.len() > 0 {
                Some(ts.last())
            } else {
                None
            },
            None => None,
        }
    }

    /// The line item that speaks for the order: the first of its list.
    pub open spec fn first_line_item(self) -> Option<LineItemView> {
        match self.line_items {
            Some(items) => if items.len() > 0 {
                Some(items.first())
            } else {
                None
            },
            None => None,
        }
    }

    /// The options of the first line item.
    pub open spec fn first_options(self) -> Option<OptionsView> {
        match self.first_line_item() {
            Some(item) => item.options,
            None => None,
        }
    }

    /// The customer's email, empty where there is none.
    pub open spec fn email(self) -> Seq<char> {
        match self.customer {
            Some(c) => or_empty(c.email),
            None => Seq::empty(),
        }
    }
}

/// A copy of a field's text, empty where the field is absent.
pub fn text_or_empty(text: &Option<String>) -> (r: String)
    ensures
        r@ == or_empty(text.deep_view()),
{
    match text {
        Some(t) => t.clone(),
        None => String::new(),
    }
}

impl OrderData {
    /// The last transaction of the order, if it has any.
    pub fn last_transaction(&self) -> (r: Option<&Transaction>)
        ensures
            r.deep_view() == self@.last_transaction(),
    {
        match &self.transactions {
            Some(ts) => {
                let n: usize = ts.len();
                if n > 0 {
                    Some(&ts[n - 1])
                } else {
                    None
                }
            },
            None => None,
        }
    }

    /// The options of the first line item of the order, if it has any.
    pub fn first_options(&self) -> (r: Option<&Options>)
        ensures
            r.deep_view() == self@.first_options(),
    {
        match &self.line_items {
            Some(items) => {
                if items.len() > 0 {
                    match &items[0].options {
                        Some(o) => Some(o),
                        None => None,
                    }
                } else {
                    None
                }
            },
            None => None,
        }
    }

    /// The customer's email, empty where the order names none.
    pub fn customer_email(&self) -> (r: String)
        ensures
            r@ == self@.email(),
    {
        match &self.customer {
            Some(c) => text_or_empty(&c.email),
            None => String::new(),
        }
    }
}

} // verus!
