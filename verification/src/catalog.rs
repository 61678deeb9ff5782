//! The addressable collection of books.
//!
//! Books stand in the order in which they were added. Nothing stops two
//! entries from sharing an ISBN: a search answers with the first of them, a
//! removal takes them all.

use vstd::prelude::*;
use crate::book::{Book, BookView};

verus! {

/// Why a catalog operation gave no book.
#[derive(Clone, Copy, Debug, PartialEq, Eq, Structural)]
pub enum CatalogError {
    /// No entry carries the ISBN that was asked for.
    NotFound,
}

impl CatalogError {
    /// The sentence shown to a person for this error.
    pub fn message(&self) -> (text: &'static str)
        ensures
            text@ == "Book not found"@,
    {
        "Book not found"
    }
}

/// The books of the store, in insertion order.
#[derive(Debug)]
pub struct Catalog {
    pub books: Vec<Book>,
}

/// The entries as mathematical values, in the same order.
pub open spec fn views(books: Seq<Book>) -> Seq<BookView> {
    books.map_values(|book: Book| book@)
}

/// Some entry of `books` carries `isbn`.
pub open spec fn has_isbn(books: Seq<BookView>, isbn: Seq<char>) -> bool {
    exists|i: int| 0 <= i < books.len() && (#[trigger] books[i]).isbn == isbn
}

/// Entry `i` carries `isbn` and no entry before it does.
pub open spec fn is_first_match(books: Seq<BookView>, isbn: Seq<char>, i: int) -> bool {
    &&& 0 <= i < books.len()
    &&& books[i].isbn == isbn
    &&& forall|j: int| 0 <= j < i ==> (#[trigger] books[j]).isbn != isbn
}

/// No entry has a stock below zero.
pub open spec fn stock_is_valid(books: Seq<BookView>) -> bool {
    forall|i: int| 0 <= i < books.len() ==> (#[trigger] books[i]).quantity >= 0
}

/// The test that a book passes when its ISBN is not `isbn`.
pub open spec fn isbn_differs(isbn: Seq<char>) -> spec_fn(BookView) -> bool {
    |book: BookView| book.isbn != isbn
}

/// `books` with every entry that carries `isbn` taken out; the others keep
/// their order.
pub open spec fn without_isbn(books: Seq<BookView>, isbn: Seq<char>) -> Seq<BookView> {
    books.filter(isbn_differs(isbn))
}

/// `books` after each book of `added` was appended in turn.
pub open spec fn add_all(books: Seq<BookView>, added: Seq<BookView>) -> Seq<BookView>
    decreases added.len(),
{
    if added.len() == 0 {
        books
    } else {
        add_all(books.push(added.first()), added.drop_first())
    }
}

impl View for Catalog {
    type V = Seq<BookView>;

    open spec fn view(&self) -> Seq<BookView> {
        views(self.books@)
    }
}

impl Catalog {
    /// The catalog with no book in it.
    pub fn new() -> (catalog: Self)
        ensures
            catalog@ == Seq::<BookView>::empty(),
            stock_is_valid(catalog@),
    {
        let catalog = Catalog { books: Vec::new() };
        assert(catalog@ =~= Seq::<BookView>::empty());
        catalog
    }

    /// Appends `book` after all present entries, whatever its ISBN. No
    /// stock falls below zero by it unless `book` brings one.
    pub fn add_book(&mut self, book: Book)
        ensures
            final(self)@ == old(self)@.push(book@),
            final(self).books@ == old(self).books@.push(book),
            stock_is_valid(old(self)@) && book.quantity >= 0 ==> stock_is_valid(final(self)@),
    {
        self.books.push(book);
        assert(self@ =~= old(self)@.push(book@));
    }

    /// Takes out every entry whose ISBN is `isbn`; the others stay, in their
    /// order. Nothing changes when no entry matches.
    pub fn remove_book(&mut self, isbn: &str)
        ensures
            final(self)@ == without_isbn(old(self)@, isbn@),
            !has_isbn(final(self)@, isbn@),
            !has_isbn(old(self)@, isbn@) ==> final(self)@ == old(self)@,
            stock_is_valid(old(self)@) ==> stock_is_valid(final(self)@),
    {
        let key = isbn.to_owned();
        let mut rest: Vec<Book> = Vec::new();
        core::mem::swap(&mut self.books, &mut rest);
        let ghost all = views(rest@);
        proof {
            reveal(Seq::filter);
            assert(views(self.books@) =~= without_isbn(all.take(0), isbn@));
        }
        for book in it: rest
            invariant
                key@ == isbn@,
                all == views(it.seq()),
                views(self.books@) == without_isbn(all.take(it.index() as int), isbn@),
        {
            proof {
                lemma_without_isbn_push(all.take(it.index() as int), book@, isbn@);
                assert(all.take(it.index() + 1) =~= all.take(it.index() as int).push(book@));
            }
            if !(book.isbn == key) {
                self.books.push(book);
            }
        }
        proof {
            assert(all.take(all.len() as int) =~= all);
            lemma_removed_isbn_is_absent(old(self)@, isbn@);
            if !has_isbn(old(self)@, isbn@) {
                lemma_absent_isbn_removes_nothing(old(self)@, isbn@);
            }
            if stock_is_valid(old(self)@) {
                lemma_removal_keeps_stock_valid(old(self)@, isbn@);
            }
        }
    }

    /// The place of the first entry whose ISBN is `isbn`, if there is one.
    pub fn position(&self, isbn: &str) -> (place: Option<usize>)
        ensures
            match place {
                Some(i) => is_first_match(self@, isbn@, i as int),
                None => !has_isbn(self@, isbn@),
            },
    {
        let key = isbn.to_owned();
        let mut i: usize = 0;
        while i < self.books.len()
            invariant
                i <= self.books.len(),
                key@ == isbn@,
                forall|j: int| 0 <= j < i ==> (#[trigger] self@[j]).isbn != isbn@,
            decreases self.books.len() - i,
        {
            if self.books[i].isbn == key {
                return Some(i);
            }
            i = i + 1;
        }
        None
    }

    /// Finds the first entry whose ISBN is `isbn` and hands it out for
    /// change: what the caller writes through the handle is written into the
    /// catalog, at that entry's place. Fails with `NotFound` exactly when no
    /// entry carries `isbn`, and then leaves the catalog as it was.
    pub fn search_book(&mut self, isbn: &str) -> (found: Result<&mut Book, CatalogError>)
        ensures
            found is Ok <==> has_isbn(old(self)@, isbn@),
            match found {
                Ok(book) => exists|i: int|
                    {
                        &&& is_first_match(old(self)@, isbn@, i)
                        &&& *book == old(self).books@[i]
                        &&& final(self).books@ == old(self).books@.update(i, *final(book))
                        &&& final(self)@ == old(self)@.update(i, final(book)@)
                    },
                Err(error) => error == CatalogError::NotFound && *final(self) == *old(self),
            },
    {
        match self.position(isbn) {
            Some(i) => Ok(&mut self.books[i]),
            None => Err(CatalogError::NotFound),
        }
    }
}

/// Filtering a sequence that ends in `book` either keeps `book` at the end
/// or drops it.
proof fn lemma_without_isbn_push(books: Seq<BookView>, book: BookView, isbn: Seq<char>)
    ensures
        without_isbn(books.push(book), isbn) == if book.isbn != isbn {
            without_isbn(books, isbn).push(book)
        } else {
            without_isbn(books, isbn)
        },
{
    reveal(Seq::filter);
    assert(books.push(book).drop_last() =~= books);
}

/// After every entry with `isbn` was removed, a search for `isbn` finds
/// nothing: no entry of what is left carries it.
pub proof fn lemma_removed_isbn_is_absent(books: Seq<BookView>, isbn: Seq<char>)
    ensures
        !has_isbn(without_isbn(books, isbn), isbn),
{
    let left = without_isbn(books, isbn);
    assert forall|i: int| 0 <= i < left.len() implies (#[trigger] left[i]).isbn != isbn by {
        books.lemma_filter_pred(isbn_differs(isbn), i);
    }
}

/// Removing an ISBN that no entry carries changes nothing.
pub proof fn lemma_absent_isbn_removes_nothing(books: Seq<BookView>, isbn: Seq<char>)
    requires
        !has_isbn(books, isbn),
    ensures
        without_isbn(books, isbn) == books,
    decreases books.len(),
{
    reveal(Seq::filter);
    if books.len() > 0 {
        let front = books.drop_last();
        assert forall|i: int| 0 <= i < front.len() implies (#[trigger] front[i]).isbn != isbn by {
            assert(front[i] == books[i]);
        }
        lemma_absent_isbn_removes_nothing(front, isbn);
        assert(books.last().isbn != isbn);
        assert(front.push(books.last()) =~= books);
    }
}

/// Removing the entries of an ISBN leaves no stock below zero where none
/// was before.
pub proof fn lemma_removal_keeps_stock_valid(books: Seq<BookView>, isbn: Seq<char>)
    requires
        stock_is_valid(books),
    ensures
        stock_is_valid(without_isbn(books, isbn)),
{
    let left = without_isbn(books, isbn);
    assert forall|i: int| 0 <= i < left.len() implies (#[trigger] left[i]).quantity >= 0 by {
        assert(left.contains(left[i]));
        books.lemma_filter_contains_rev(isbn_differs(isbn), left[i]);
        let j = choose|j: int| 0 <= j < books.len() && books[j] == left[i];
        assert(books[j].quantity >= 0);
    }
}

/// Among the entries that carry an ISBN one stands first: a search has
/// exactly one answer whenever it has any.
pub proof fn lemma_first_match_is_unique(books: Seq<BookView>, isbn: Seq<char>)
    ensures
        has_isbn(books, isbn) <==> exists|i: int| is_first_match(books, isbn, i),
        forall|i: int, j: int|
            is_first_match(books, isbn, i) && is_first_match(books, isbn, j) ==> i == j,
{
    if has_isbn(books, isbn) {
        let k = choose|k: int| 0 <= k < books.len() && (#[trigger] books[k]).isbn == isbn;
        lemma_first_match_before(books, isbn, k);
    }
}

/// An entry that carries `isbn` is the first such entry or has one before it.
proof fn lemma_first_match_before(books: Seq<BookView>, isbn: Seq<char>, k: int)
    requires
        0 <= k < books.len(),
        books[k].isbn == isbn,
    ensures
        exists|i: int| is_first_match(books, isbn, i),
    decreases k,
{
    if exists|j: int| 0 <= j < k && (#[trigger] books[j]).isbn == isbn {
        let j = choose|j: int| 0 <= j < k && (#[trigger] books[j]).isbn == isbn;
        lemma_first_match_before(books, isbn, j);
    } else {
        assert(is_first_match(books, isbn, k));
    }
}

/// Books added one after another stand behind what was there, in the order
/// in which they were added, none lost and none repeated.
pub proof fn lemma_add_all_appends(books: Seq<BookView>, added: Seq<BookView>)
    ensures
        add_all(books, added) == books + added,
    decreases added.len(),
{
    if added.len() == 0 {
        assert(books + added =~= books);
    } else {
        lemma_add_all_appends(books.push(added.first()), added.drop_first());
        assert(books.push(added.first()) + added.drop_first() =~= books + added);
    }
}

} // verus!
