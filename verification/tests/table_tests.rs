use thawing::table::Table;

#[test]
fn insert_returns_distinct_handles() {
    let mut t: Table<u64> = Table::new();
    let mut handles = Vec::new();
    for i in 0..100u64 {
        handles.push(t.insert(i));
    }
    for i in 0..handles.len() {
        for j in 0..handles.len() {
            if i != j {
                assert_ne!(handles[i], handles[j]);
            }
        }
    }
}

#[test]
fn get_returns_the_inserted_object() {
    let mut t: Table<u64> = Table::new();
    let a = t.insert(7);
    let b = t.insert(9);
    assert_eq!(t.get(a), Some(&7));
    assert_eq!(t.get(b), Some(&9));
    assert_eq!(t.get(b + 1), None);
}

#[test]
fn take_once() {
    let mut t: Table<u64> = Table::new();
    let h = t.insert(42);
    assert_eq!(t.take(h), Some(42));
    assert_eq!(t.get(h), None);
    assert_eq!(t.take(h), None);
    // a later insert does not revive the taken handle
    let h2 = t.insert(43);
    assert_ne!(h2, h);
    assert_eq!(t.get(h), None);
}

#[test]
fn double_drop_is_a_no_op() {
    let mut t: Table<u64> = Table::new();
    let h = t.insert(1);
    let other = t.insert(2);
    t.drop_handle(h);
    t.drop_handle(h);
    assert_eq!(t.get(h), None);
    assert_eq!(t.get(other), Some(&2));
}

#[test]
fn clear_invalidates_everything_and_never_reuses_handles() {
    let mut t: Table<u64> = Table::new();
    let a = t.insert(1);
    let b = t.insert(2);
    t.clear();
    assert_eq!(t.get(a), None);
    assert_eq!(t.get(b), None);
    let c = t.insert(3);
    assert_ne!(c, a);
    assert_ne!(c, b);
    assert_eq!(t.get(c), Some(&3));
    assert_eq!(t.get(a), None);
}
