use luascope::app_data::AppData;
use luascope::types::VmState;

#[test]
fn insert_get_remove_round_trip() {
    let mut d: AppData<String> = AppData::new();
    assert_eq!(d.insert(1, "a".to_string()), None);
    assert_eq!(d.insert(1, "b".to_string()), Some("a".to_string()));
    let b = d.borrow::<()>(1, None).unwrap();
    assert_eq!(d.get(&b), "b");
    assert_eq!(b.key(), 1);
    d.release(b);
    assert_eq!(d.remove(1), Some("b".to_string()));
    assert_eq!(d.remove(1), None);
    assert!(d.borrow::<()>(1, None).is_none());
}

#[test]
fn shared_borrows_coexist_and_block_insert() {
    let mut d: AppData<i32> = AppData::new();
    d.insert(7, 70);
    assert!(d.can_borrow(7));
    assert!(d.can_borrow_mut(7));
    let a = d.borrow::<()>(7, None).unwrap();
    assert!(d.can_borrow(7));
    assert!(!d.can_borrow_mut(7));
    let b = d.borrow::<()>(7, None).unwrap();
    assert_eq!(*d.get(&a), 70);
    assert_eq!(*d.get(&b), 70);
    assert_eq!(d.borrow_count(), 2);
    assert_eq!(d.try_insert(8, 80), Err(80));
    d.release(a);
    assert_eq!(d.try_insert(8, 80), Err(80));
    d.release(b);
    assert_eq!(d.borrow_count(), 0);
    assert_eq!(d.try_insert(8, 80), Ok(None));
    assert_eq!(d.try_insert(8, 81), Ok(Some(80)));
}

#[test]
fn exclusive_borrow_replaces_value() {
    let mut d: AppData<i32> = AppData::new();
    d.insert(3, 30);
    let m = d.borrow_mut(3, Some("guard")).unwrap();
    assert!(!d.can_borrow(3));
    assert!(!d.can_borrow_mut(3));
    assert!(d.can_borrow(4));
    assert_eq!(m.key(), 3);
    assert_eq!(*d.get_mut_ref(&m), 30);
    assert_eq!(d.replace(&m, 31), 30);
    assert_eq!(d.try_insert(3, 0), Err(0));
    d.release_mut(m);
    let s = d.borrow::<()>(3, None).unwrap();
    assert_eq!(*d.get(&s), 31);
    d.release(s);
    assert!(d.borrow_mut::<()>(4, None).is_none());
}

#[test]
fn vm_state_variants_differ() {
    assert_ne!(VmState::Continue, VmState::Yield);
}
