use std::cell::RefCell;
use std::rc::Rc;

use futures_channel::mpsc;
use grsrpc::abort::RequestAbort;
use grsrpc::table::CallTable;

type Table = CallTable<String, u32>;

fn setup() -> (
    Table,
    mpsc::UnboundedReceiver<(usize, String)>,
    mpsc::UnboundedReceiver<usize>,
) {
    let (req_tx, req_rx) = mpsc::unbounded();
    let (abort_tx, abort_rx) = mpsc::unbounded();
    (CallTable::new(req_tx, abort_tx), req_rx, abort_rx)
}

fn drain<T>(rx: &mut mpsc::UnboundedReceiver<T>) -> Vec<T> {
    let mut out = Vec::new();
    while let Ok(v) = rx.try_recv() {
        out.push(v);
    }
    out
}

#[test]
fn issue_sends_request_and_records_entry() {
    let (mut table, mut req_rx, mut abort_rx) = setup();
    let (id, _rx) = table.issue("ping".to_string()).unwrap();
    assert_eq!(id, 0);
    assert!(table.is_pending(0));
    assert_eq!(drain(&mut req_rx), vec![(0, "ping".to_string())]);
    assert!(drain(&mut abort_rx).is_empty());
}

#[test]
fn issued_ids_are_distinct() {
    let (mut table, mut req_rx, _abort_rx) = setup();
    let (a, _ra) = table.issue("a".to_string()).unwrap();
    let (b, _rb) = table.issue("b".to_string()).unwrap();
    let (c, _rc) = table.issue("c".to_string()).unwrap();
    assert_eq!((a, b, c), (0, 1, 2));
    assert!(table.is_pending(a) && table.is_pending(b) && table.is_pending(c));
    let sent: Vec<usize> = drain(&mut req_rx).into_iter().map(|(id, _)| id).collect();
    assert_eq!(sent, vec![0, 1, 2]);
}

#[test]
fn ids_are_not_reused_after_removal() {
    let (mut table, _req_rx, _abort_rx) = setup();
    let (a, _ra) = table.issue("a".to_string()).unwrap();
    assert!(table.deliver(a, 1));
    let (b, _rb) = table.issue("b".to_string()).unwrap();
    assert_ne!(a, b);
    assert_eq!(b, 1);
}

#[test]
fn deliver_before_drop_resolves_without_notice() {
    let (table, _req_rx, mut abort_rx) = setup();
    let table = Rc::new(RefCell::new(table));
    let (id, mut rx) = table.borrow_mut().issue("ping".to_string()).unwrap();
    let t = table.clone();
    let mut guard = RequestAbort::new(move || t.borrow_mut().cancel(id));
    assert!(table.borrow_mut().deliver(id, 42));
    let polled = rx.try_recv().unwrap();
    assert_eq!(guard.settle(polled), Some(42));
    assert!(!guard.is_active());
    assert!(!guard.fire());
    assert!(drain(&mut abort_rx).is_empty());
    assert!(!table.borrow().is_pending(id));
}

#[test]
fn drop_without_poll_sends_one_notice() {
    let (table, _req_rx, mut abort_rx) = setup();
    let table = Rc::new(RefCell::new(table));
    let (id, _rx) = table.borrow_mut().issue("ping".to_string()).unwrap();
    let t = table.clone();
    let mut guard = RequestAbort::new(move || t.borrow_mut().cancel(id));
    assert!(guard.fire());
    assert!(!guard.fire());
    assert_eq!(drain(&mut abort_rx), vec![id]);
    assert!(!table.borrow().is_pending(id));
}

#[test]
fn second_delivery_is_a_no_op() {
    let (mut table, _req_rx, mut abort_rx) = setup();
    let (id, mut rx) = table.issue("ping".to_string()).unwrap();
    assert!(table.deliver(id, 7));
    assert!(!table.deliver(id, 8));
    assert_eq!(rx.try_recv().unwrap(), Some(7));
    assert!(drain(&mut abort_rx).is_empty());
}

#[test]
fn delivery_after_cancel_is_discarded() {
    let (mut table, _req_rx, mut abort_rx) = setup();
    let (id, mut rx) = table.issue("ping".to_string()).unwrap();
    table.cancel(id);
    assert!(!table.is_pending(id));
    assert!(!table.deliver(id, 5));
    assert!(rx.try_recv().is_err());
    assert_eq!(drain(&mut abort_rx), vec![id]);
}

#[test]
fn delivery_for_unknown_id_is_discarded() {
    let (mut table, _req_rx, _abort_rx) = setup();
    assert!(!table.deliver(99, 5));
    assert!(!table.is_pending(99));
}

#[test]
fn cancel_after_delivery_still_notifies_once() {
    let (mut table, _req_rx, mut abort_rx) = setup();
    let (id, mut rx) = table.issue("ping".to_string()).unwrap();
    assert!(table.deliver(id, 3));
    table.cancel(id);
    assert_eq!(drain(&mut abort_rx), vec![id]);
    assert_eq!(rx.try_recv().unwrap(), Some(3));
}

#[test]
fn cancelled_call_does_not_block_later_calls() {
    let (mut table, _req_rx, _abort_rx) = setup();
    let (first, _r1) = table.issue("a".to_string()).unwrap();
    table.cancel(first);
    let (second, mut r2) = table.issue("b".to_string()).unwrap();
    assert_ne!(first, second);
    assert!(table.is_pending(second));
    assert!(table.deliver(second, 11));
    assert_eq!(r2.try_recv().unwrap(), Some(11));
    assert!(!table.is_pending(second));
}

#[test]
fn sends_after_consumer_gone_are_inert() {
    let (mut table, req_rx, abort_rx) = setup();
    drop(req_rx);
    drop(abort_rx);
    let (id, rx) = table.issue("a".to_string()).unwrap();
    drop(rx);
    assert!(table.deliver(id, 1));
    table.cancel(id);
    assert!(!table.is_pending(id));
}

#[test]
fn delivery_for_other_call_leaves_this_one_pending() {
    let (mut table, _req_rx, _abort_rx) = setup();
    let (a, mut ra) = table.issue("a".to_string()).unwrap();
    let (b, mut rb) = table.issue("b".to_string()).unwrap();
    assert!(table.deliver(b, 9));
    assert!(table.is_pending(a));
    assert_eq!(ra.try_recv().unwrap(), None);
    assert_eq!(rb.try_recv().unwrap(), Some(9));
}
