use indxdb::kv::{bytes_eq, key_lt, same_value};
use indxdb::{Error, Transaction, Val, Write, WriteLock};
use std::collections::BTreeMap;

type Store = BTreeMap<Vec<u8>, Vec<u8>>;

fn k(s: &str) -> Vec<u8> {
    s.as_bytes().to_vec()
}

fn run(store: &mut Store, w: Write) {
    match w {
        Write::Put(key, val) => {
            store.insert(key, val);
        }
        Write::Delete(key) => {
            store.remove(&key);
        }
    }
}

fn cur(store: &Store, key: &str) -> Option<Val> {
    store.get(&k(key)).cloned()
}

fn set(tx: &mut Transaction, store: &mut Store, key: &str, val: &str) {
    let w = tx.set(k(key), k(val), cur(store, key)).unwrap();
    run(store, w);
}

fn del(tx: &mut Transaction, store: &mut Store, key: &str) {
    let w = tx.del(k(key), cur(store, key)).unwrap();
    run(store, w);
}

fn rollback(tx: &mut Transaction, store: &mut Store) -> Result<(), Error> {
    for w in tx.rollback_to_savepoint()? {
        run(store, w);
    }
    Ok(())
}

fn abcd() -> Store {
    let mut s = Store::new();
    for (key, val) in [("a", "1"), ("b", "2"), ("c", "3"), ("d", "4")] {
        s.insert(k(key), k(val));
    }
    s
}

fn writer(lock: &mut WriteLock) -> Transaction {
    Transaction::begin(lock, true).unwrap()
}

#[test]
fn set_then_get() {
    let mut lock = WriteLock::new();
    let mut tx = writer(&mut lock);
    let mut store = Store::new();
    set(&mut tx, &mut store, "k", "v");
    assert_eq!(cur(&store, "k"), Some(k("v")));
    set(&mut tx, &mut store, "k", "w");
    assert_eq!(cur(&store, "k"), Some(k("w")));
}

#[test]
fn put_twice_fails() {
    let mut lock = WriteLock::new();
    let mut tx = writer(&mut lock);
    let mut store = Store::new();
    let w = tx.put(k("k"), k("v"), cur(&store, "k")).unwrap();
    run(&mut store, w);
    let r = tx.put(k("k"), k("v2"), cur(&store, "k"));
    assert_eq!(r.unwrap_err(), Error::KeyAlreadyExists);
    assert_eq!(cur(&store, "k"), Some(k("v")));
}

#[test]
fn putc_compares_current_value() {
    let mut lock = WriteLock::new();
    let mut tx = writer(&mut lock);
    let mut store = Store::new();
    // absent key, expected absent: stored
    let w = tx.putc(k("k"), k("v"), cur(&store, "k"), None).unwrap();
    run(&mut store, w);
    assert_eq!(cur(&store, "k"), Some(k("v")));
    // present key, expected absent: refused
    let r = tx.putc(k("k"), k("x"), cur(&store, "k"), None);
    assert_eq!(r.unwrap_err(), Error::ValNotExpectedValue);
    // present key, wrong expected value: refused
    let r = tx.putc(k("k"), k("x"), cur(&store, "k"), Some(k("nope")));
    assert_eq!(r.unwrap_err(), Error::ValNotExpectedValue);
    assert_eq!(cur(&store, "k"), Some(k("v")));
    // present key, right expected value: swapped
    let w = tx.putc(k("k"), k("v2"), cur(&store, "k"), Some(k("v"))).unwrap();
    run(&mut store, w);
    assert_eq!(cur(&store, "k"), Some(k("v2")));
    // absent key, expected present: refused
    let r = tx.putc(k("z"), k("x"), cur(&store, "z"), Some(k("v")));
    assert_eq!(r.unwrap_err(), Error::ValNotExpectedValue);
    assert_eq!(cur(&store, "z"), None);
}

#[test]
fn delc_compares_current_value() {
    let mut lock = WriteLock::new();
    let mut tx = writer(&mut lock);
    let mut store = abcd();
    let r = tx.delc(k("a"), cur(&store, "a"), Some(k("9")));
    assert_eq!(r.unwrap_err(), Error::ValNotExpectedValue);
    let r = tx.delc(k("a"), cur(&store, "a"), None);
    assert_eq!(r.unwrap_err(), Error::ValNotExpectedValue);
    assert_eq!(cur(&store, "a"), Some(k("1")));
    let w = tx.delc(k("a"), cur(&store, "a"), Some(k("1"))).unwrap();
    run(&mut store, w);
    assert_eq!(cur(&store, "a"), None);
    // absent and expected absent: a delete of nothing
    let w = tx.delc(k("q"), cur(&store, "q"), None).unwrap();
    run(&mut store, w);
    assert_eq!(store.len(), 3);
}

#[test]
fn del_of_absent_key_is_no_error() {
    let mut lock = WriteLock::new();
    let mut tx = writer(&mut lock);
    let mut store = abcd();
    del(&mut tx, &mut store, "zz");
    assert_eq!(store, abcd());
}

#[test]
fn rollback_restores_every_touched_key() {
    let mut lock = WriteLock::new();
    let mut tx = writer(&mut lock);
    let mut store = abcd();
    tx.set_savepoint().unwrap();
    set(&mut tx, &mut store, "a", "10");
    set(&mut tx, &mut store, "e", "5");
    del(&mut tx, &mut store, "c");
    set(&mut tx, &mut store, "c", "30");
    del(&mut tx, &mut store, "e");
    del(&mut tx, &mut store, "missing");
    set(&mut tx, &mut store, "a", "11");
    rollback(&mut tx, &mut store).unwrap();
    assert_eq!(store, abcd());
}

#[test]
fn rollback_example_restores_deleted_and_overwritten() {
    let mut lock = WriteLock::new();
    let mut tx = writer(&mut lock);
    let mut store = abcd();
    tx.set_savepoint().unwrap();
    del(&mut tx, &mut store, "b");
    set(&mut tx, &mut store, "a", "9");
    assert_eq!(cur(&store, "b"), None);
    assert_eq!(cur(&store, "a"), Some(k("9")));
    rollback(&mut tx, &mut store).unwrap();
    assert_eq!(cur(&store, "b"), Some(k("2")));
    assert_eq!(cur(&store, "a"), Some(k("1")));
}

#[test]
fn nested_savepoints_undo_inner_segment_only() {
    let mut lock = WriteLock::new();
    let mut tx = writer(&mut lock);
    let mut store = abcd();
    tx.set_savepoint().unwrap();
    set(&mut tx, &mut store, "a", "A");
    let after_a = store.clone();
    tx.set_savepoint().unwrap();
    set(&mut tx, &mut store, "b", "B");
    del(&mut tx, &mut store, "a");
    rollback(&mut tx, &mut store).unwrap();
    assert_eq!(store, after_a);
    // the outer savepoint is still there and undoes the outer segment
    rollback(&mut tx, &mut store).unwrap();
    assert_eq!(store, abcd());
    assert_eq!(rollback(&mut tx, &mut store), Err(Error::NoSavepoint));
}

#[test]
fn recording_continues_after_rollback() {
    let mut lock = WriteLock::new();
    let mut tx = writer(&mut lock);
    let mut store = abcd();
    assert!(!tx.tracking());
    tx.set_savepoint().unwrap();
    assert!(tx.tracking());
    tx.set_savepoint().unwrap();
    set(&mut tx, &mut store, "a", "x");
    rollback(&mut tx, &mut store).unwrap();
    assert!(tx.tracking());
    set(&mut tx, &mut store, "b", "y");
    rollback(&mut tx, &mut store).unwrap();
    assert_eq!(store, abcd());
}

#[test]
fn writes_before_first_savepoint_are_not_undone() {
    let mut lock = WriteLock::new();
    let mut tx = writer(&mut lock);
    let mut store = abcd();
    set(&mut tx, &mut store, "a", "x");
    assert!(!tx.tracking());
    tx.set_savepoint().unwrap();
    set(&mut tx, &mut store, "b", "y");
    rollback(&mut tx, &mut store).unwrap();
    assert_eq!(cur(&store, "a"), Some(k("x")));
    assert_eq!(cur(&store, "b"), Some(k("2")));
}

#[test]
fn rollback_without_savepoint_fails() {
    let mut lock = WriteLock::new();
    let mut tx = writer(&mut lock);
    let mut store = abcd();
    set(&mut tx, &mut store, "a", "x");
    assert_eq!(tx.rollback_to_savepoint().unwrap_err(), Error::NoSavepoint);
    assert_eq!(cur(&store, "a"), Some(k("x")));
    assert!(!tx.closed());
}

#[test]
fn everything_fails_after_commit() {
    let mut lock = WriteLock::new();
    let mut tx = writer(&mut lock);
    assert!(tx.commit().unwrap().is_some());
    assert!(tx.closed());
    assert_eq!(tx.commit().unwrap_err(), Error::TxClosed);
    assert_eq!(tx.cancel().unwrap_err(), Error::TxClosed);
    assert_eq!(tx.check_open(), Err(Error::TxClosed));
    assert_eq!(tx.set(k("a"), k("1"), None).unwrap_err(), Error::TxClosed);
    assert_eq!(tx.put(k("a"), k("1"), None).unwrap_err(), Error::TxClosed);
    assert_eq!(tx.putc(k("a"), k("1"), None, None).unwrap_err(), Error::TxClosed);
    assert_eq!(tx.del(k("a"), None).unwrap_err(), Error::TxClosed);
    assert_eq!(tx.delc(k("a"), None, None).unwrap_err(), Error::TxClosed);
    assert_eq!(tx.set_savepoint(), Err(Error::TxClosed));
    assert_eq!(tx.rollback_to_savepoint().unwrap_err(), Error::TxClosed);
    assert_eq!(tx.scan_range(&k("a"), &k("z"), 10), Err(Error::TxClosed));
}

#[test]
fn everything_fails_after_cancel() {
    let mut lock = WriteLock::new();
    let mut tx = Transaction::begin(&mut lock, false).unwrap();
    assert!(tx.cancel().unwrap().is_none());
    assert!(tx.closed());
    assert_eq!(tx.cancel().unwrap_err(), Error::TxClosed);
    assert_eq!(tx.commit().unwrap_err(), Error::TxClosed);
    assert_eq!(tx.check_open(), Err(Error::TxClosed));
    assert_eq!(tx.set(k("a"), k("1"), None).unwrap_err(), Error::TxClosed);
}

#[test]
fn read_only_refuses_mutation() {
    let mut lock = WriteLock::new();
    let mut tx = Transaction::begin(&mut lock, false).unwrap();
    assert!(!tx.writable());
    assert!(!lock.is_held());
    assert_eq!(tx.check_open(), Ok(()));
    assert_eq!(tx.check_writable(), Err(Error::TxNotWritable));
    assert_eq!(tx.set(k("a"), k("1"), None).unwrap_err(), Error::TxNotWritable);
    assert_eq!(tx.put(k("a"), k("1"), None).unwrap_err(), Error::TxNotWritable);
    assert_eq!(tx.putc(k("a"), k("1"), None, None).unwrap_err(), Error::TxNotWritable);
    assert_eq!(tx.del(k("a"), Some(k("1"))).unwrap_err(), Error::TxNotWritable);
    assert_eq!(tx.delc(k("a"), None, None).unwrap_err(), Error::TxNotWritable);
    assert_eq!(tx.set_savepoint(), Err(Error::TxNotWritable));
    assert_eq!(tx.rollback_to_savepoint().unwrap_err(), Error::TxNotWritable);
    assert_eq!(tx.commit().unwrap_err(), Error::TxNotWritable);
    assert!(!tx.closed());
    assert!(!tx.tracking());
}

#[test]
fn second_writer_waits_for_first() {
    let mut lock = WriteLock::new();
    let mut first = Transaction::begin(&mut lock, true).unwrap();
    assert!(lock.is_held());
    assert!(Transaction::begin(&mut lock, true).is_none());
    // readers are not blocked
    assert!(Transaction::begin(&mut lock, false).is_some());
    let token = first.commit().unwrap().unwrap();
    assert!(Transaction::begin(&mut lock, true).is_none());
    lock.release(token);
    assert!(!lock.is_held());
    let mut second = Transaction::begin(&mut lock, true).unwrap();
    assert!(Transaction::begin(&mut lock, true).is_none());
    let token = second.cancel().unwrap().unwrap();
    lock.release(token);
    assert!(Transaction::begin(&mut lock, true).is_some());
}

#[test]
fn scan_range_plans() {
    let mut lock = WriteLock::new();
    let tx = Transaction::begin(&mut lock, false).unwrap();
    assert_eq!(tx.scan_range(&k("a"), &k("d"), 2), Ok(true));
    assert_eq!(tx.scan_range(&k("a"), &k("d"), 0), Ok(false));
    assert_eq!(tx.scan_range(&k("d"), &k("a"), 2), Ok(false));
    assert_eq!(tx.scan_range(&k("b"), &k("b"), 2), Ok(false));
    assert_eq!(tx.scan_range(&k(""), &k("a"), 1), Ok(true));
    assert_eq!(tx.scan_range(&k("ab"), &k("a"), 1), Ok(false));
    assert_eq!(tx.scan_range(&k("a"), &k("ab"), 1), Ok(true));
    assert_eq!(tx.scan_range(&vec![1, 255], &vec![2], 1), Ok(true));
}

#[test]
fn key_order_is_bytewise() {
    assert!(key_lt(&vec![], &vec![0]));
    assert!(!key_lt(&vec![0], &vec![]));
    assert!(key_lt(&vec![1, 2], &vec![1, 3]));
    assert!(!key_lt(&vec![1, 3], &vec![1, 2, 9]));
    assert!(key_lt(&vec![1, 2], &vec![1, 2, 0]));
    assert!(!key_lt(&vec![7], &vec![7]));
    assert!(bytes_eq(&vec![1, 2], &vec![1, 2]));
    assert!(!bytes_eq(&vec![1, 2], &vec![1, 2, 3]));
    assert!(!bytes_eq(&vec![1, 2], &vec![1, 4]));
    assert!(same_value(&None, &None));
    assert!(!same_value(&Some(vec![]), &None));
    assert!(same_value(&Some(vec![5]), &Some(vec![5])));
}

#[test]
fn rollback_commands_are_newest_first() {
    let mut lock = WriteLock::new();
    let mut tx = writer(&mut lock);
    let mut store = abcd();
    tx.set_savepoint().unwrap();
    set(&mut tx, &mut store, "a", "x");
    set(&mut tx, &mut store, "a", "y");
    set(&mut tx, &mut store, "n", "1");
    let ws = tx.rollback_to_savepoint().unwrap();
    assert_eq!(ws.len(), 3);
    assert!(matches!(&ws[0], Write::Delete(key) if key == &k("n")));
    assert!(matches!(&ws[1], Write::Put(key, val) if key == &k("a") && val == &k("x")));
    assert!(matches!(&ws[2], Write::Put(key, val) if key == &k("a") && val == &k("1")));
}
