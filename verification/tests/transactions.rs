use bookstore::{Book, Date, Order, Outcome, Sale, Transaction, TransactionKind};
use bookstore::transaction::deduct_stock;

fn stocked(quantity: i32) -> Book {
    Book::new(
        "Title".to_string(),
        "Author".to_string(),
        "Genre".to_string(),
        "42".to_string(),
        Date::new(4, 5, 2006),
        700,
        quantity,
    )
}

#[test]
fn deduct_stock_subtracts_when_stock_suffices() {
    let mut book = stocked(5);
    assert_eq!(deduct_stock(&mut book, 3), Outcome::Processed);
    assert_eq!(book.quantity, 2);
    assert_eq!(book.isbn, "42");
    assert_eq!(book.title, "Title");
    assert_eq!(book.price, 700);
}

#[test]
fn deduct_stock_takes_the_whole_stock() {
    let mut book = stocked(5);
    assert_eq!(deduct_stock(&mut book, 5), Outcome::Processed);
    assert_eq!(book.quantity, 0);
}

#[test]
fn deduct_stock_of_nothing_leaves_the_stock() {
    let mut book = stocked(5);
    assert_eq!(deduct_stock(&mut book, 0), Outcome::Processed);
    assert_eq!(book.quantity, 5);
    let mut empty = stocked(0);
    assert_eq!(deduct_stock(&mut empty, 0), Outcome::Processed);
    assert_eq!(empty.quantity, 0);
}

#[test]
fn deduct_stock_refuses_more_than_is_there() {
    let mut book = stocked(5);
    assert_eq!(deduct_stock(&mut book, 6), Outcome::InsufficientStock);
    assert_eq!(book.quantity, 5);
    let mut empty = stocked(0);
    assert_eq!(deduct_stock(&mut empty, 1), Outcome::InsufficientStock);
    assert_eq!(empty.quantity, 0);
}

#[test]
fn deduct_stock_at_the_largest_numbers() {
    let mut book = stocked(i32::MAX);
    assert_eq!(deduct_stock(&mut book, i32::MAX), Outcome::Processed);
    assert_eq!(book.quantity, 0);
    let mut other = stocked(i32::MAX - 1);
    assert_eq!(deduct_stock(&mut other, i32::MAX), Outcome::InsufficientStock);
    assert_eq!(other.quantity, i32::MAX - 1);
}

#[test]
fn order_keeps_its_fields() {
    let order = Order::new("o-1".to_string(), Date::new(1, 1, 2024), "c-9".to_string(), stocked(5), 2);
    assert_eq!(order.transaction_id, "o-1");
    assert_eq!(order.transaction_date, Date::new(1, 1, 2024));
    assert_eq!(order.customer_id, "c-9");
    assert_eq!(order.ordered_book.isbn, "42");
    assert_eq!(order.ordered_book.quantity, 5);
    assert_eq!(order.quantity, 2);
    assert_eq!(order.get_transaction_id(), "o-1");
    assert_eq!(order.get_transaction_date(), Date::new(1, 1, 2024));
}

#[test]
fn sale_keeps_its_fields() {
    let sale = Sale::new("s-1".to_string(), Date::new(2, 3, 2024), "c-3".to_string(), stocked(8), 4);
    assert_eq!(sale.transaction_id, "s-1");
    assert_eq!(sale.transaction_date, Date::new(2, 3, 2024));
    assert_eq!(sale.customer_id, "c-3");
    assert_eq!(sale.sold_book.isbn, "42");
    assert_eq!(sale.sold_book.quantity, 8);
    assert_eq!(sale.quantity, 4);
    assert_eq!(sale.get_transaction_id(), "s-1");
    assert_eq!(sale.get_transaction_date(), Date::new(2, 3, 2024));
}

#[test]
fn order_process_settles_against_the_given_stock_not_its_copy() {
    let mut live = stocked(5);
    let order = Order::new("o".to_string(), Date::new(1, 1, 2024), "c".to_string(), live.clone(), 4);
    assert_eq!(order.process(&mut live), Outcome::Processed);
    assert_eq!(live.quantity, 1);
    assert_eq!(order.ordered_book.quantity, 5);
    assert_eq!(order.process(&mut live), Outcome::InsufficientStock);
    assert_eq!(live.quantity, 1);
}

#[test]
fn sale_process_settles_against_the_given_stock_not_its_copy() {
    let mut live = stocked(5);
    let sale = Sale::new("s".to_string(), Date::new(1, 1, 2024), "c".to_string(), live.clone(), 5);
    assert_eq!(sale.process(&mut live), Outcome::Processed);
    assert_eq!(live.quantity, 0);
    assert_eq!(sale.sold_book.quantity, 5);
    assert_eq!(sale.process(&mut live), Outcome::InsufficientStock);
    assert_eq!(live.quantity, 0);
}

#[test]
fn transaction_new_builds_the_asked_kind() {
    let order = Transaction::new(
        TransactionKind::Order,
        "o".to_string(),
        Date::new(1, 1, 2024),
        "c".to_string(),
        stocked(5),
        1,
    );
    assert_eq!(order.kind(), TransactionKind::Order);
    assert!(matches!(order, Transaction::Order(_)));
    let sale = Transaction::new(
        TransactionKind::Sale,
        "s".to_string(),
        Date::new(2, 2, 2024),
        "d".to_string(),
        stocked(5),
        1,
    );
    assert_eq!(sale.kind(), TransactionKind::Sale);
    match sale {
        Transaction::Sale(inner) => {
            assert_eq!(inner.transaction_id, "s");
            assert_eq!(inner.customer_id, "d");
            assert_eq!(inner.quantity, 1);
        }
        Transaction::Order(_) => panic!("a sale was asked for"),
    }
}

#[test]
fn transaction_answers_id_and_date_for_both_kinds() {
    let order = Transaction::Order(Order::new(
        "o-7".to_string(),
        Date::new(7, 7, 2007),
        "c".to_string(),
        stocked(1),
        1,
    ));
    let sale = Transaction::Sale(Sale::new(
        "s-8".to_string(),
        Date::new(8, 8, 2008),
        "c".to_string(),
        stocked(1),
        1,
    ));
    assert_eq!(order.get_transaction_id(), "o-7");
    assert_eq!(order.get_transaction_date(), Date::new(7, 7, 2007));
    assert_eq!(sale.get_transaction_id(), "s-8");
    assert_eq!(sale.get_transaction_date(), Date::new(8, 8, 2008));
}

#[test]
fn transaction_process_is_the_same_for_both_kinds() {
    for kind in [TransactionKind::Order, TransactionKind::Sale] {
        let mut live = stocked(10);
        let transaction = Transaction::new(
            kind,
            "t".to_string(),
            Date::new(1, 1, 2024),
            "c".to_string(),
            live.clone(),
            4,
        );
        assert_eq!(transaction.process(&mut live), Outcome::Processed);
        assert_eq!(live.quantity, 6);
        assert_eq!(transaction.process(&mut live), Outcome::Processed);
        assert_eq!(live.quantity, 2);
        assert_eq!(transaction.process(&mut live), Outcome::InsufficientStock);
        assert_eq!(live.quantity, 2);
    }
}

#[test]
fn report_names_the_kind_and_the_outcome() {
    assert_eq!(
        TransactionKind::Order.report(Outcome::Processed),
        "Order processed successfully."
    );
    assert_eq!(
        TransactionKind::Order.report(Outcome::InsufficientStock),
        "Insufficient stock for the ordered book."
    );
    assert_eq!(TransactionKind::Sale.report(Outcome::Processed), "Sale processed successfully.");
    assert_eq!(
        TransactionKind::Sale.report(Outcome::InsufficientStock),
        "Insufficient stock for the sold book."
    );
}
