use pdf_studio_ops::locks::LockTable;

#[test]
fn lock_twice_keeps_one_entry() {
    let mut table: LockTable<u32> = LockTable::new();
    assert!(!table.is_locked(&String::from("C:\\doc.pdf")));
    let first = table.lock_commit(String::from("C:\\doc.pdf"), 11);
    assert!(first.is_none());
    assert!(table.is_locked(&String::from("C:\\doc.pdf")));
    // Second lock succeeds as a no-op: the new handle is handed back to close
    // and the table still holds exactly one entry under the original handle.
    let second = table.lock_commit(String::from("C:\\doc.pdf"), 22);
    assert_eq!(second, Some(22));
    assert_eq!(table.len(), 1);
    let released = table.unlock(&String::from("C:\\doc.pdf"));
    assert_eq!(released, Some(11));
    assert_eq!(table.len(), 0);
}

#[test]
fn unlock_absent_is_noop_success() {
    let mut table: LockTable<u32> = LockTable::new();
    table.lock_commit(String::from("a.pdf"), 1);
    let released = table.unlock(&String::from("b.pdf"));
    assert!(released.is_none());
    assert_eq!(table.len(), 1);
    assert!(table.is_locked(&String::from("a.pdf")));
}

#[test]
fn lock_then_unlock_releases_entry() {
    let mut table: LockTable<u32> = LockTable::new();
    table.lock_commit(String::from("x.pdf"), 7);
    let released = table.unlock(&String::from("x.pdf"));
    assert_eq!(released, Some(7));
    assert!(!table.is_locked(&String::from("x.pdf")));
    assert_eq!(table.len(), 0);
}

#[test]
fn distinct_paths_do_not_interfere() {
    let mut table: LockTable<u32> = LockTable::new();
    assert!(table.lock_commit(String::from("p1.pdf"), 1).is_none());
    assert!(table.lock_commit(String::from("p2.pdf"), 2).is_none());
    assert_eq!(table.len(), 2);
    let released = table.unlock(&String::from("p1.pdf"));
    assert_eq!(released, Some(1));
    assert!(table.is_locked(&String::from("p2.pdf")));
    assert!(!table.is_locked(&String::from("p1.pdf")));
    let released2 = table.unlock(&String::from("p2.pdf"));
    assert_eq!(released2, Some(2));
    assert_eq!(table.len(), 0);
}

#[test]
fn empty_table_has_no_locks() {
    let table: LockTable<i64> = LockTable::new();
    assert_eq!(table.len(), 0);
    assert!(!table.is_locked(&String::from("")));
}
