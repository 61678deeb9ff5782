//! A bookstore's catalog of titles and its ledger of orders and sales.
//!
//! The catalog keeps books in the order in which they were added and finds
//! them by ISBN. Every order or sale is settled against the catalog's own
//! entry, never against a copy, and is then appended to a ledger that only
//! grows.

pub mod date;
pub mod book;
pub mod catalog;
pub mod transaction;
pub mod store;

pub use crate::book::Book;
pub use crate::catalog::{Catalog, CatalogError};
pub use crate::date::Date;
pub use crate::store::{Bookstore, TransactionEntry};
pub use crate::transaction::{Order, Outcome, Sale, Transaction, TransactionKind};
