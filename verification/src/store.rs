//! The store: one catalog and the ledger of what was asked of it.
//!
//! A request names a book by ISBN. When the catalog has it, the request is
//! settled against the catalog's own entry and written to the ledger,
//! whether or not the stock sufficed. When it has not, nothing is written.
//! The ledger only grows, and keeps the order in which requests came.

use vstd::prelude::*;
use crate::book::{Book, BookView};
use crate::catalog::{
    has_isbn,
    is_first_match,
    stock_is_valid,
    views,
    Catalog,
    CatalogError,
};
use crate::date::Date;
use crate::transaction::{
    outcome_of,
    stock_after,
    Outcome,
    Transaction,
    TransactionKind,
    TransactionView,
};

verus! {

/// What a [`Bookstore`] is: the catalog's books and the ledger's entries,
/// each in insertion order.
pub struct BookstoreView {
    pub catalog: Seq<BookView>,
    pub log: Seq<TransactionView>,
}

impl BookstoreView {
    /// The store after `transaction` was settled against entry `i` of the
    /// catalog: that entry's stock is what settling leaves, every other
    /// entry is as it was, and the ledger ends in `transaction`.
    pub open spec fn settled(self, i: int, transaction: TransactionView) -> BookstoreView {
        BookstoreView {
            catalog: self.catalog.update(
                i,
                self.catalog[i].with_quantity(
                    stock_after(self.catalog[i].quantity, transaction.quantity),
                ),
            ),
            log: self.log.push(transaction),
        }
    }
}

/// Taking `requested` copies off the first entry that carries `isbn`, if
/// there is one, gives a number that the stock's machine type can hold. A
/// request that is not negative never fails this: it can only lower a stock.
pub open spec fn deduction_fits(books: Seq<BookView>, isbn: Seq<char>, requested: int) -> bool {
    requested >= 0 || forall|i: int|
        is_first_match(books, isbn, i) ==> (#[trigger] books[i]).quantity - requested <= i32::MAX
}

/// What the ledger shows of one transaction: its identifier and its date.
#[derive(Debug)]
pub struct TransactionEntry {
    pub id: String,
    pub date: Date,
}

/// A ledger entry as a mathematical value.
pub struct TransactionEntryView {
    pub id: Seq<char>,
    pub date: Date,
}

impl View for TransactionEntry {
    type V = TransactionEntryView;

    open spec fn view(&self) -> TransactionEntryView {
        TransactionEntryView { id: self.id@, date: self.date }
    }
}

/// The identifier and date of each transaction of `log`, in the same order.
pub open spec fn entries_of(log: Seq<TransactionView>) -> Seq<TransactionEntryView> {
    log.map_values(
        |transaction: TransactionView|
            TransactionEntryView {
                id: transaction.transaction_id,
                date: transaction.transaction_date,
            },
    )
}

/// The listed entries as mathematical values, in the same order.
pub open spec fn entry_views(entries: Seq<TransactionEntry>) -> Seq<TransactionEntryView> {
    entries.map_values(|entry: TransactionEntry| entry@)
}

/// The ledger's transactions as mathematical values, in the same order.
pub open spec fn transaction_views(log: Seq<Transaction>) -> Seq<TransactionView> {
    log.map_values(|transaction: Transaction| transaction@)
}

/// A catalog together with the ledger of the transactions recorded against
/// it. Both are reached through the store's functions only, so that the
/// ledger can grow and never shrink or be rewritten.
#[derive(Debug)]
pub struct Bookstore {
    catalog: Catalog,
    transactions: Vec<Transaction>,
}

impl View for Bookstore {
    type V = BookstoreView;

    closed spec fn view(&self) -> BookstoreView {
        BookstoreView { catalog: self.catalog@, log: transaction_views(self.transactions@) }
    }
}

impl Bookstore {
    /// The store with no book and no transaction.
    pub fn new() -> (store: Self)
        ensures
            store@.catalog == Seq::<BookView>::empty(),
            store@.log == Seq::<TransactionView>::empty(),
            stock_is_valid(store@.catalog),
    {
        let store = Bookstore { catalog: Catalog::new(), transactions: Vec::new() };
        assert(store@.log =~= Seq::<TransactionView>::empty());
        store
    }

    /// The catalog, to read.
    pub fn catalog(&self) -> (catalog: &Catalog)
        ensures
            catalog@ == self@.catalog,
    {
        &self.catalog
    }

    /// The catalog, to change: what the caller does to it is done to the
    /// store's catalog. The ledger is out of its reach.
    pub fn catalog_mut(&mut self) -> (catalog: &mut Catalog)
        ensures
            catalog@ == old(self)@.catalog,
            final(self)@.catalog == final(catalog)@,
            final(self)@.log == old(self)@.log,
    {
        &mut self.catalog
    }

    /// The ledger's transactions, in the order in which they were recorded.
    pub fn transactions(&self) -> (log: &[Transaction])
        ensures
            transaction_views(log@) == self@.log,
    {
        self.transactions.as_slice()
    }

    /// Adds a book made of the given fields at the end of the catalog. The
    /// ledger is not touched.
    pub fn add_book(
        &mut self,
        title: String,
        author: String,
        genre: String,
        isbn: String,
        publication_date: Date,
        price: i32,
        quantity: i32,
    )
        ensures
            final(self)@.catalog == old(self)@.catalog.push(
                BookView {
                    title: title@,
                    author: author@,
                    genre: genre@,
                    isbn: isbn@,
                    publication_date,
                    price: price as int,
                    quantity: quantity as int,
                },
            ),
            final(self)@.log == old(self)@.log,
            stock_is_valid(old(self)@.catalog) && quantity >= 0 ==> stock_is_valid(
                final(self)@.catalog,
            ),
    {
        let book = Book::new(title, author, genre, isbn, publication_date, price, quantity);
        self.catalog.add_book(book);
    }

    /// The catalog's books, in insertion order.
    pub fn list_books(&self) -> (books: &[Book])
        ensures
            views(books@) == self@.catalog,
    {
        self.catalog.books.as_slice()
    }

    /// The identifier and date of every recorded transaction, in the order
    /// in which they were recorded.
    pub fn list_transactions(&self) -> (entries: Vec<TransactionEntry>)
        ensures
            entry_views(entries@) == entries_of(self@.log),
    {
        let mut entries: Vec<TransactionEntry> = Vec::new();
        let mut i: usize = 0;
        while i < self.transactions.len()
            invariant
                i <= self.transactions.len(),
                entries@.len() == i,
                forall|j: int|
                    0 <= j < i ==> (#[trigger] entries@[j]).id@
                        == self.transactions@[j]@.transaction_id,
                forall|j: int|
                    0 <= j < i ==> (#[trigger] entries@[j]).date
                        == self.transactions@[j]@.transaction_date,
            decreases self.transactions.len() - i,
        {
            let transaction = &self.transactions[i];
            let entry = TransactionEntry {
                id: transaction.get_transaction_id().to_owned(),
                date: transaction.get_transaction_date(),
            };
            entries.push(entry);
            i = i + 1;
        }
        assert(entry_views(entries@) =~= entries_of(self@.log));
        entries
    }

    /// Appends `transaction` to the ledger as it is. The catalog is not
    /// touched.
    pub fn process_transaction(&mut self, transaction: Transaction)
        ensures
            final(self)@.log == old(self)@.log.push(transaction@),
            final(self)@.catalog == old(self)@.catalog,
    {
        self.transactions.push(transaction);
        assert(self@.log =~= old(self)@.log.push(transaction@));
    }

    /// Whether a request for `quantity` copies of `isbn` can be recorded:
    /// the stock that settling would leave is a number the stock's type can
    /// hold. It always can when `quantity` is not negative, and when the
    /// catalog has no such book.
    pub fn can_record(&self, isbn: &str, quantity: i32) -> (fits: bool)
        ensures
            fits == deduction_fits(self@.catalog, isbn@, quantity as int),
            quantity >= 0 ==> fits,
            !has_isbn(self@.catalog, isbn@) ==> fits,
    {
        match self.catalog.position(isbn) {
            Some(i) => {
                let available = self.catalog.books[i].quantity;
                quantity >= 0 || available <= i32::MAX + quantity
            },
            None => true,
        }
    }

    /// Records a request for `quantity` copies of the book `isbn`.
    ///
    /// Without such a book in the catalog the answer is `NotFound` and the
    /// store is unchanged. Otherwise a transaction of the given kind is made
    /// that holds a copy of the first matching entry as it stands, it is
    /// settled against that entry itself, and it is appended to the ledger
    /// whether the stock sufficed or not. The answer says which it was.
    pub fn record_transaction(
        &mut self,
        kind: TransactionKind,
        transaction_id: String,
        transaction_date: Date,
        customer_id: String,
        isbn: &str,
        quantity: i32,
    ) -> (result: Result<Outcome, CatalogError>)
        requires
            deduction_fits(old(self)@.catalog, isbn@, quantity as int),
        ensures
            result is Ok <==> has_isbn(old(self)@.catalog, isbn@),
            match result {
                Ok(outcome) => exists|i: int|
                    {
                        &&& is_first_match(old(self)@.catalog, isbn@, i)
                        &&& outcome == outcome_of(old(self)@.catalog[i].quantity, quantity as int)
                        &&& final(self)@ == old(self)@.settled(
                            i,
                            TransactionView {
                                kind,
                                transaction_id: transaction_id@,
                                transaction_date,
                                customer_id: customer_id@,
                                book: old(self)@.catalog[i],
                                quantity: quantity as int,
                            },
                        )
                    },
                Err(error) => error == CatalogError::NotFound && final(self)@ == old(self)@,
            },
            stock_is_valid(old(self)@.catalog) ==> stock_is_valid(final(self)@.catalog),
    {
        match self.catalog.search_book(isbn) {
            Ok(live) => {
                let snapshot = live.clone();
                let transaction = Transaction::new(
                    kind,
                    transaction_id,
                    transaction_date,
                    customer_id,
                    snapshot,
                    quantity,
                );
                let outcome = transaction.process(live);
                self.process_transaction(transaction);
                Ok(outcome)
            },
            Err(error) => Err(error),
        }
    }
}

/// A settled request shows in the catalog: the entry that a search for
/// `isbn` found before is the one it finds afterwards, and its stock is the
/// old stock less the requested copies when the stock sufficed, and the old
/// stock when not. Either way the ledger is one entry longer and ends in the
/// transaction, and no stock has fallen below zero that was not below zero.
pub proof fn lemma_settled_stock_is_found(
    store: BookstoreView,
    isbn: Seq<char>,
    i: int,
    transaction: TransactionView,
)
    requires
        is_first_match(store.catalog, isbn, i),
    ensures
        is_first_match(store.settled(i, transaction).catalog, isbn, i),
        store.settled(i, transaction).catalog.len() == store.catalog.len(),
        transaction.quantity <= store.catalog[i].quantity ==> store.settled(
            i,
            transaction,
        ).catalog[i].quantity == store.catalog[i].quantity - transaction.quantity,
        transaction.quantity > store.catalog[i].quantity ==> store.settled(
            i,
            transaction,
        ).catalog[i].quantity == store.catalog[i].quantity,
        store.settled(i, transaction).log.len() == store.log.len() + 1,
        store.settled(i, transaction).log.last() == transaction,
        store.settled(i, transaction).log.drop_last() == store.log,
        stock_is_valid(store.catalog) ==> stock_is_valid(store.settled(i, transaction).catalog),
{
    assert(store.settled(i, transaction).log.drop_last() =~= store.log);
}

} // verus!
