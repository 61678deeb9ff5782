//! Orders and sales, and how one is settled against a book's stock.
//!
//! Both kinds ask for a number of copies of one book. Settling takes that
//! many copies off the stock when the stock holds at least as many, and
//! leaves the stock alone otherwise: there is no partial delivery. A
//! transaction keeps a copy of the book as it stood when the request was
//! made; settling never touches that copy.

use vstd::prelude::*;
use crate::book::{Book, BookView};
use crate::date::Date;

verus! {

/// The two kinds of transaction.
#[derive(Clone, Copy, Debug, PartialEq, Eq, Structural)]
pub enum TransactionKind {
    /// Stock accounted for against a supplier.
    Order,
    /// Stock sold to a customer.
    Sale,
}

/// How settling a transaction ended.
#[derive(Clone, Copy, Debug, PartialEq, Eq, Structural)]
pub enum Outcome {
    /// The copies were taken off the stock.
    Processed,
    /// The stock held fewer copies than were asked for and was not changed.
    InsufficientStock,
}

/// The stock left when `requested` copies are asked of `available`: the
/// difference when the stock suffices, the stock as it was when not.
pub open spec fn stock_after(available: int, requested: int) -> int {
    if requested <= available {
        available - requested
    } else {
        available
    }
}

/// What settling reports when `requested` copies are asked of `available`.
pub open spec fn outcome_of(available: int, requested: int) -> Outcome {
    if requested <= available {
        Outcome::Processed
    } else {
        Outcome::InsufficientStock
    }
}

/// Takes `requested` copies off `book`'s stock if it holds that many, and
/// says whether it did. Nothing but the quantity changes.
pub fn deduct_stock(book: &mut Book, requested: i32) -> (outcome: Outcome)
    requires
        old(book).quantity - requested <= i32::MAX,
    ensures
        outcome == outcome_of(old(book).quantity as int, requested as int),
        final(book)@ == old(book)@.with_quantity(
            stock_after(old(book).quantity as int, requested as int),
        ),
{
    if book.quantity >= requested {
        book.quantity = book.quantity - requested;
        Outcome::Processed
    } else {
        Outcome::InsufficientStock
    }
}

impl TransactionKind {
    /// The sentence that tells a person how settling a transaction of this
    /// kind ended.
    pub fn report(self, outcome: Outcome) -> (text: &'static str)
        ensures
            text@ == match (self, outcome) {
                (TransactionKind::Order, Outcome::Processed) => "Order processed successfully."@,
                (TransactionKind::Order, Outcome::InsufficientStock) =>
                    "Insufficient stock for the ordered book."@,
                (TransactionKind::Sale, Outcome::Processed) => "Sale processed successfully."@,
                (TransactionKind::Sale, Outcome::InsufficientStock) =>
                    "Insufficient stock for the sold book."@,
            },
    {
        match (self, outcome) {
            (TransactionKind::Order, Outcome::Processed) => "Order processed successfully.",
            (TransactionKind::Order, Outcome::InsufficientStock) =>
                "Insufficient stock for the ordered book.",
            (TransactionKind::Sale, Outcome::Processed) => "Sale processed successfully.",
            (TransactionKind::Sale, Outcome::InsufficientStock) =>
                "Insufficient stock for the sold book.",
        }
    }
}

/// What a transaction is: its kind, who asked, when, for which book as it
/// stood at the request, and for how many copies.
pub struct TransactionView {
    pub kind: TransactionKind,
    pub transaction_id: Seq<char>,
    pub transaction_date: Date,
    pub customer_id: Seq<char>,
    pub book: BookView,
    pub quantity: int,
}

/// A request for copies of a book, accounted for against a supplier.
#[derive(Debug)]
pub struct Order {
    pub transaction_id: String,
    pub transaction_date: Date,
    pub customer_id: String,
    pub ordered_book: Book,
    pub quantity: i32,
}

impl View for Order {
    type V = TransactionView;

    open spec fn view(&self) -> TransactionView {
        TransactionView {
            kind: TransactionKind::Order,
            transaction_id: self.transaction_id@,
            transaction_date: self.transaction_date,
            customer_id: self.customer_id@,
            book: self.ordered_book@,
            quantity: self.quantity as int,
        }
    }
}

impl Order {
    /// Builds an order from its five fields, unchanged.
    pub fn new(
        transaction_id: String,
        transaction_date: Date,
        customer_id: String,
        ordered_book: Book,
        quantity: i32,
    ) -> (order: Self)
        ensures
            order.transaction_id == transaction_id,
            order.transaction_date == transaction_date,
            order.customer_id == customer_id,
            order.ordered_book == ordered_book,
            order.quantity == quantity,
    {
        Order { transaction_id, transaction_date, customer_id, ordered_book, quantity }
    }

    /// Settles the order against `stock`, the catalog's own entry.
    pub fn process(&self, stock: &mut Book) -> (outcome: Outcome)
        requires
            old(stock).quantity - self.quantity <= i32::MAX,
        ensures
            outcome == outcome_of(old(stock).quantity as int, self.quantity as int),
            final(stock)@ == old(stock)@.with_quantity(
                stock_after(old(stock).quantity as int, self.quantity as int),
            ),
    {
        deduct_stock(stock, self.quantity)
    }

    /// The identifier the order was recorded under.
    pub fn get_transaction_id(&self) -> (id: &str)
        ensures
            id@ == self.transaction_id@,
    {
        self.transaction_id.as_str()
    }

    /// The date the order was recorded with.
    pub fn get_transaction_date(&self) -> (date: Date)
        ensures
            date == self.transaction_date,
    {
        self.transaction_date
    }
}

/// A request for copies of a book, sold to a customer.
#[derive(Debug)]
pub struct Sale {
    pub transaction_id: String,
    pub transaction_date: Date,
    pub customer_id: String,
    pub sold_book: Book,
    pub quantity: i32,
}

impl View for Sale {
    type V = TransactionView;

    open spec fn view(&self) -> TransactionView {
        TransactionView {
            kind: TransactionKind::Sale,
            transaction_id: self.transaction_id@,
            transaction_date: self.transaction_date,
            customer_id: self.customer_id@,
            book: self.sold_book@,
            quantity: self.quantity as int,
        }
    }
}

impl Sale {
    /// Builds a sale from its five fields, unchanged.
    pub fn new(
        transaction_id: String,
        transaction_date: Date,
        customer_id: String,
        sold_book: Book,
        quantity: i32,
    ) -> (sale: Self)
        ensures
            sale.transaction_id == transaction_id,
            sale.transaction_date == transaction_date,
            sale.customer_id == customer_id,
            sale.sold_book == sold_book,
            sale.quantity == quantity,
    {
        Sale { transaction_id, transaction_date, customer_id, sold_book, quantity }
    }

    /// Settles the sale against `stock`, the catalog's own entry.
    pub fn process(&self, stock: &mut Book) -> (outcome: Outcome)
        requires
            old(stock).quantity - self.quantity <= i32::MAX,
        ensures
            outcome == outcome_of(old(stock).quantity as int, self.quantity as int),
            final(stock)@ == old(stock)@.with_quantity(
                stock_after(old(stock).quantity as int, self.quantity as int),
            ),
    {
        deduct_stock(stock, self.quantity)
    }

    /// The identifier the sale was recorded under.
    pub fn get_transaction_id(&self) -> (id: &str)
        ensures
            id@ == self.transaction_id@,
    {
        self.transaction_id.as_str()
    }

    /// The date the sale was recorded with.
    pub fn get_transaction_date(&self) -> (date: Date)
        ensures
            date == self.transaction_date,
    {
        self.transaction_date
    }
}

/// An entry of the ledger: an order or a sale.
#[derive(Debug)]
pub enum Transaction {
    Order(Order),
    Sale(Sale),
}

impl View for Transaction {
    type V = TransactionView;

    open spec fn view(&self) -> TransactionView {
        match self {
            Transaction::Order(order) => order@,
            Transaction::Sale(sale) => sale@,
        }
    }
}

impl Transaction {
    /// Builds the transaction of the given kind from its fields, unchanged.
    pub fn new(
        kind: TransactionKind,
        transaction_id: String,
        transaction_date: Date,
        customer_id: String,
        book: Book,
        quantity: i32,
    ) -> (transaction: Self)
        ensures
            transaction@ == (TransactionView {
                kind,
                transaction_id: transaction_id@,
                transaction_date,
                customer_id: customer_id@,
                book: book@,
                quantity: quantity as int,
            }),
    {
        match kind {
            TransactionKind::Order => Transaction::Order(
                Order::new(transaction_id, transaction_date, customer_id, book, quantity),
            ),
            TransactionKind::Sale => Transaction::Sale(
                Sale::new(transaction_id, transaction_date, customer_id, book, quantity),
            ),
        }
    }

    /// Whether this is an order or a sale.
    pub fn kind(&self) -> (kind: TransactionKind)
        ensures
            kind == self@.kind,
    {
        match self {
            Transaction::Order(_) => TransactionKind::Order,
            Transaction::Sale(_) => TransactionKind::Sale,
        }
    }

    /// Settles the transaction against `stock`, the catalog's own entry. An
    /// order and a sale are settled alike.
    pub fn process(&self, stock: &mut Book) -> (outcome: Outcome)
        requires
            old(stock).quantity - self@.quantity <= i32::MAX,
        ensures
            outcome == outcome_of(old(stock).quantity as int, self@.quantity),
            final(stock)@ == old(stock)@.with_quantity(
                stock_after(old(stock).quantity as int, self@.quantity),
            ),
    {
        match self {
            Transaction::Order(order) => order.process(stock),
            Transaction::Sale(sale) => sale.process(stock),
        }
    }

    /// The identifier the transaction was recorded under.
    pub fn get_transaction_id(&self) -> (id: &str)
        ensures
            id@ == self@.transaction_id,
    {
        match self {
            Transaction::Order(order) => order.get_transaction_id(),
            Transaction::Sale(sale) => sale.get_transaction_id(),
        }
    }

    /// The date the transaction was recorded with.
    pub fn get_transaction_date(&self) -> (date: Date)
        ensures
            date == self@.transaction_date,
    {
        match self {
            Transaction::Order(order) => order.get_transaction_date(),
            Transaction::Sale(sale) => sale.get_transaction_date(),
        }
    }
}

/// Settling never leaves a stock below zero that was not below zero before,
/// and never raises a stock when a non-negative number of copies is asked.
pub proof fn lemma_stock_after_bounds(available: int, requested: int)
    ensures
        0 <= available ==> 0 <= stock_after(available, requested),
        0 <= requested ==> stock_after(available, requested) <= available,
        outcome_of(available, requested) == Outcome::InsufficientStock ==> stock_after(
            available,
            requested,
        ) == available,
{
}

} // verus!
