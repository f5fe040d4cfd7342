use sprite_engine::error::Error;
use sprite_engine::slot::Handle;
use sprite_engine::table::{Column, Singleton};

#[test]
fn column_insert_get_remove() {
    let mut c: Column<String> = Column::new(2);
    let a = c.insert("a".to_string()).unwrap();
    let b = c.insert("b".to_string()).unwrap();
    assert_eq!(c.len(), 2);
    assert_eq!(c.capacity(), 2);
    assert_eq!(c.get(a).unwrap(), "a");
    assert_eq!(c.get(b).unwrap(), "b");
    assert_eq!(c.insert("c".to_string()), Err(Error::CapacityExceeded));
    assert_eq!(c.remove(a), Ok("a".to_string()));
    assert_eq!(c.len(), 1);
    assert_eq!(c.get(a), Err(Error::NotFound));
    assert_eq!(c.remove(a), Err(Error::NotFound));
    assert_eq!(c.get(b).unwrap(), "b");
}

#[test]
fn column_get_mut_changes_one_value() {
    let mut c: Column<u32> = Column::new(4);
    let a = c.insert(1).unwrap();
    let b = c.insert(2).unwrap();
    *c.get_mut(a).unwrap() = 10;
    assert_eq!(c.get(a), Ok(&10));
    assert_eq!(c.get(b), Ok(&2));
    assert!(matches!(c.get_mut(Handle { index: 3, generation: 0 }), Err(Error::NotFound)));
}

#[test]
fn removed_handle_is_not_found_even_after_reuse() {
    let mut c: Column<u32> = Column::new(1);
    let old = c.insert(5).unwrap();
    assert_eq!(c.remove(old), Ok(5));
    let new = c.insert(6).unwrap();
    assert_eq!(new.index, old.index);
    assert_eq!(new.generation, old.generation + 1);
    assert_eq!(c.get(old), Err(Error::NotFound));
    assert!(matches!(c.get_mut(old), Err(Error::NotFound)));
    assert_eq!(c.remove(old), Err(Error::NotFound));
    assert!(!c.contains(old));
    assert_eq!(c.get(new), Ok(&6));
}

#[test]
fn column_iter_visits_live_entries_in_slot_order() {
    let mut c: Column<u32> = Column::new(8);
    let hs: Vec<Handle> = (0..5u32).map(|v| c.insert(v * 10).unwrap()).collect();
    c.remove(hs[1]).unwrap();
    c.remove(hs[3]).unwrap();
    let seen: Vec<(Handle, u32)> = c.iter().into_iter().map(|(h, v)| (h, *v)).collect();
    assert_eq!(seen, vec![(hs[0], 0), (hs[2], 20), (hs[4], 40)]);
    let again: Vec<(Handle, u32)> = c.iter().into_iter().map(|(h, v)| (h, *v)).collect();
    assert_eq!(seen, again);
    let empty: Column<u32> = Column::new(3);
    assert!(empty.iter().is_empty());
}

#[test]
fn column_handle_at_and_vacancies() {
    let mut c: Column<u8> = Column::new(3);
    assert_eq!(c.vacancies(), 3);
    let a = c.insert(1).unwrap();
    assert_eq!(c.touched(), 1);
    assert_eq!(c.handle_at(0), Some(a));
    assert_eq!(c.handle_at(1), None);
    assert_eq!(c.vacancies(), 2);
    c.remove(a).unwrap();
    assert_eq!(c.handle_at(0), None);
    assert_eq!(c.vacancies(), 3);
    assert_eq!(c.touched(), 1);
}

#[test]
fn singleton_lifecycle() {
    let mut s: Singleton<u32> = Singleton::new();
    assert!(!s.is_present());
    assert_eq!(s.peek_state(), Err(Error::NotFound));
    assert!(matches!(s.read_state(), Err(Error::NotFound)));
    assert_eq!(s.remove_state(), Err(Error::NotFound));
    assert_eq!(s.add_state(7), Ok(()));
    assert!(s.is_present());
    assert_eq!(s.add_state(8), Err(Error::AlreadyPresent));
    assert_eq!(s.peek_state(), Ok(&7));
    *s.read_state().unwrap() += 1;
    assert_eq!(s.peek_state(), Ok(&8));
    assert_eq!(s.remove_state(), Ok(8));
    assert!(!s.is_present());
    assert_eq!(s.add_state(9), Ok(()));
    assert_eq!(s.peek_state(), Ok(&9));
}
