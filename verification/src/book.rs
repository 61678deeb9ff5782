//! One title of the catalog and its stock on hand.

use vstd::prelude::*;
use crate::date::Date;

verus! {

/// What a [`Book`] is, with its texts as sequences of characters and its
/// numbers as mathematical integers.
pub struct BookView {
    pub title: Seq<char>,
    pub author: Seq<char>,
    pub genre: Seq<char>,
    pub isbn: Seq<char>,
    pub publication_date: Date,
    pub price: int,
    pub quantity: int,
}

/// A title on sale: who wrote it, how it is identified, what it costs in the
/// smallest currency unit and how many copies are on hand.
#[derive(Debug)]
pub struct Book {
    pub title: String,
    pub author: String,
    pub genre: String,
    pub isbn: String,
    pub publication_date: Date,
    pub price: i32,
    pub quantity: i32,
}

impl BookView {
    /// The same book with `quantity` copies on hand.
    pub open spec fn with_quantity(self, quantity: int) -> BookView {
        BookView { quantity, ..self }
    }
}

impl View for Book {
    type V = BookView;

    open spec fn view(&self) -> BookView {
        BookView {
            title: self.title@,
            author: self.author@,
            genre: self.genre@,
            isbn: self.isbn@,
            publication_date: self.publication_date,
            price: self.price as int,
            quantity: self.quantity as int,
        }
    }
}

impl Book {
    /// Builds a book from its seven fields, unchanged.
    pub fn new(
        title: String,
        author: String,
        genre: String,
        isbn: String,
        publication_date: Date,
        price: i32,
        quantity: i32,
    ) -> (book: Self)
        ensures
            book.title == title,
            book.author == author,
            book.genre == genre,
            book.isbn == isbn,
            book.publication_date == publication_date,
            book.price == price,
            book.quantity == quantity,
    {
        Book { title, author, genre, isbn, publication_date, price, quantity }
    }
}

impl Clone for Book {
    /// A copy that is equal to the book field by field.
    fn clone(&self) -> (copy: Self)
        ensures
            copy == *self,
    {
        Book {
            title: self.title.clone(),
            author: self.author.clone(),
            genre: self.genre.clone(),
            isbn: self.isbn.clone(),
            publication_date: self.publication_date,
            price: self.price,
            quantity: self.quantity,
        }
    }
}

} // verus!
