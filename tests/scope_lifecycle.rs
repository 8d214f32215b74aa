use luascope::engine::{Access, Engine};
use luascope::error::Error;
use luascope::scope::Scope;
use std::cell::Cell;
use std::rc::Rc;

struct Counted {
    drops: Rc<Cell<usize>>,
}

impl Drop for Counted {
    fn drop(&mut self) {
        self.drops.set(self.drops.get() + 1);
    }
}

#[test]
fn borrowed_getter_expires_with_scope() {
    let five: i32 = 5;
    let mut lua: Engine<&i32> = Engine::new(1);
    let mut scope = Scope::new(&lua);
    let ud = scope.create_userdata_ref(&mut lua, &five);
    assert_eq!(**lua.userdata_ref(&ud.0).unwrap(), 5);
    scope.end(&mut lua);
    assert_eq!(lua.userdata_ref(&ud.0).err(), Some(Error::UserDataDestructed));
    assert_eq!(five, 5);
}

#[test]
fn every_registration_expires_at_scope_end() {
    let mut lua: Engine<i32> = Engine::new(7);
    let mut scope = Scope::new(&lua);
    let f = scope.create_function(&mut lua, 1);
    let g = scope.create_function_mut(&mut lua, 2);
    let a = scope.create_userdata_ref(&mut lua, 3);
    let b = scope.create_userdata_ref_mut(&mut lua, 4);
    let c = scope.create_any_userdata_ref(&mut lua, 5);
    let d = scope.create_any_userdata_ref_mut(&mut lua, 6);
    let e = scope.create_userdata(&mut lua, 7);
    assert_eq!(*lua.callback_ref(&f.0).unwrap(), 1);
    assert_eq!(*lua.userdata_ref(&e.0).unwrap(), 7);
    let thunks = scope.close(&mut lua);
    assert_eq!(thunks, vec![1, 2, 3, 4, 5, 6, 7]);
    assert!(!scope.open());
    assert_eq!(lua.enter_callback(&f.0), Err(Error::CallbackDestructed));
    assert_eq!(lua.enter_callback(&g.0), Err(Error::CallbackDestructed));
    assert_eq!(lua.callback_ref(&f.0).err(), Some(Error::CallbackDestructed));
    for ud in [&a, &b, &c, &d, &e] {
        assert_eq!(lua.userdata_ref(&ud.0).err(), Some(Error::UserDataDestructed));
        assert_eq!(lua.set_userdata(&ud.0, 0), Err(Error::UserDataDestructed));
        assert_eq!(lua.destroy_userdata(&ud.0), Err(Error::UserDataDestructed));
    }
}

#[test]
fn owned_userdata_behaviour_table_is_deregistered() {
    let mut lua: Engine<u8> = Engine::new(3);
    let mut scope = Scope::new(&lua);
    let ud = scope.create_userdata(&mut lua, 9);
    let t = lua.to_pointer(&ud.0);
    assert_eq!(lua.metatable_of(t), Some(0));
    assert!(lua.metatable_registered(0));
    let thunks = scope.close(&mut lua);
    assert_eq!(thunks, vec![9]);
    assert_eq!(lua.metatable_of(t), Some(0));
    assert!(!lua.metatable_registered(0));
    let again = lua.register_metatable();
    assert_eq!(again, 1);
}

#[test]
fn empty_scope_end_releases_nothing() {
    let mut lua: Engine<i32> = Engine::new(2);
    let mut scope = Scope::new(&lua);
    let thunks = scope.close(&mut lua);
    assert!(thunks.is_empty());
}

#[test]
fn already_destroyed_objects_release_nothing() {
    let mut lua: Engine<i32> = Engine::new(2);
    let mut scope = Scope::new(&lua);
    let a = scope.create_userdata(&mut lua, 10);
    let b = scope.create_userdata_ref_mut(&mut lua, 11);
    assert_eq!(lua.destroy_userdata(&a.0), Ok(10));
    assert_eq!(lua.destroy_userdata(&b.0), Ok(11));
    let thunks = scope.close(&mut lua);
    assert!(thunks.is_empty());
}

#[test]
fn torn_down_engine_releases_nothing() {
    let mut lua: Engine<i32> = Engine::new(2);
    let mut scope = Scope::new(&lua);
    let a = scope.create_userdata(&mut lua, 10);
    lua.close();
    assert!(lua.closed());
    let thunks = scope.close(&mut lua);
    assert!(thunks.is_empty());
    assert_eq!(lua.userdata_ref(&a.0).err(), Some(Error::EngineClosed));
    assert_eq!(lua.set_userdata(&a.0, 1), Err(Error::EngineClosed));
    assert_eq!(lua.destroy_userdata(&a.0), Err(Error::EngineClosed));
    assert_eq!(lua.enter_callback(&a.0), Err(Error::EngineClosed));
    assert_eq!(lua.callback_ref(&a.0).err(), Some(Error::EngineClosed));
}

#[test]
fn freeing_the_scope_handle_does_not_stop_expiry() {
    let mut lua: Engine<i32> = Engine::new(9);
    let mut scope = Scope::new(&lua);
    let ud = scope.create_userdata_ref(&mut lua, 5);
    let f = scope.create_function(&mut lua, 6);
    let own = scope.create_userdata(&mut lua, 7);
    // Slots 1, 3 and 5 are the scope's own handles: free them behind its back.
    for index in [1usize, 3, 5] {
        let forged = luascope::engine::ValueRef::new(&lua, index);
        lua.drop_ref(&forged);
        assert!(!lua.is_live(&forged));
    }
    let thunks = scope.close(&mut lua);
    assert_eq!(thunks, vec![5, 6, 7]);
    assert_eq!(lua.userdata_ref(&ud.0).err(), Some(Error::UserDataDestructed));
    assert_eq!(lua.enter_callback(&f.0), Err(Error::CallbackDestructed));
    assert_eq!(lua.userdata_ref(&own.0).err(), Some(Error::UserDataDestructed));
    assert!(!lua.metatable_registered(0));
}

#[test]
fn mutable_callback_reentry_is_refused() {
    let mut lua: Engine<i32> = Engine::new(4);
    let mut scope = Scope::new(&lua);
    let f = scope.create_function_mut(&mut lua, 0);
    assert_eq!(lua.enter_callback(&f.0), Ok(()));
    assert_eq!(lua.enter_callback(&f.0), Err(Error::RecursiveMutCallback));
    lua.leave_callback(&f.0);
    assert_eq!(lua.enter_callback(&f.0), Ok(()));
    lua.leave_callback(&f.0);
    scope.end(&mut lua);
    assert_eq!(lua.enter_callback(&f.0), Err(Error::CallbackDestructed));
}

#[test]
fn shared_callback_may_be_reentered() {
    let mut lua: Engine<i32> = Engine::new(4);
    let mut scope = Scope::new(&lua);
    let f = scope.create_function(&mut lua, 0);
    assert_eq!(lua.enter_callback(&f.0), Ok(()));
    assert_eq!(lua.enter_callback(&f.0), Ok(()));
    lua.leave_callback(&f.0);
    lua.leave_callback(&f.0);
}

#[test]
fn invalidation_precedes_every_release() {
    let drops = Rc::new(Cell::new(0));
    let mut lua: Engine<Counted> = Engine::new(5);
    let mut scope = Scope::new(&lua);
    let mut handles = Vec::new();
    for _ in 0..4 {
        handles.push(scope.create_userdata(&mut lua, Counted { drops: drops.clone() }));
    }
    let thunks = scope.close(&mut lua);
    assert_eq!(thunks.len(), 4);
    assert_eq!(drops.get(), 0);
    for h in &handles {
        assert_eq!(lua.userdata_ref(&h.0).err(), Some(Error::UserDataDestructed));
    }
    drop(thunks);
    assert_eq!(drops.get(), 4);
}

#[test]
fn scope_end_releases_owned_payloads() {
    let drops = Rc::new(Cell::new(0));
    let mut lua: Engine<Counted> = Engine::new(5);
    let mut scope = Scope::new(&lua);
    scope.create_userdata(&mut lua, Counted { drops: drops.clone() });
    scope.create_function(&mut lua, Counted { drops: drops.clone() });
    assert_eq!(drops.get(), 0);
    scope.end(&mut lua);
    assert_eq!(drops.get(), 2);
}

#[test]
fn read_only_binding_refuses_mutation() {
    let mut lua: Engine<i32> = Engine::new(6);
    let mut scope = Scope::new(&lua);
    let ro = scope.create_userdata_ref(&mut lua, 1);
    let rw = scope.create_userdata_ref_mut(&mut lua, 2);
    let f = scope.create_function(&mut lua, 3);
    assert_eq!(lua.set_userdata(&ro.0, 10), Err(Error::UserDataBorrowMutError));
    assert_eq!(lua.set_userdata(&rw.0, 20), Ok(2));
    assert_eq!(*lua.userdata_ref(&rw.0).unwrap(), 20);
    assert_eq!(lua.userdata_ref(&f.0).err(), Some(Error::UserDataTypeMismatch));
    assert_eq!(lua.enter_callback(&ro.0), Err(Error::UserDataTypeMismatch));
    assert_eq!(lua.callback_ref(&ro.0).err(), Some(Error::UserDataTypeMismatch));
    assert_eq!(lua.set_userdata(&f.0, 0), Err(Error::UserDataTypeMismatch));
    let thunks = scope.close(&mut lua);
    assert_eq!(thunks, vec![1, 20, 3]);
}

#[test]
fn value_refs_clone_compare_and_free() {
    let mut lua: Engine<i32> = Engine::new(8);
    let a = lua.create_object(1, Access::ReadWrite, None);
    let b = lua.create_object(1, Access::ReadWrite, None);
    let c = lua.clone_ref(&a);
    assert_ne!(c.index, a.index);
    assert!(lua.raw_equal(&a, &c));
    assert!(!lua.raw_equal(&a, &b));
    assert_eq!(lua.to_pointer(&a), lua.to_pointer(&c));
    assert!(lua.is_live(&c));
    lua.drop_ref(&c);
    assert!(!lua.is_live(&c));
    assert!(lua.is_live(&a));
    let borrowed = lua.borrowed_ref(b.index);
    lua.drop_ref(&borrowed);
    assert!(lua.is_live(&b));
    let fresh = luascope::engine::ValueRef::new(&lua, b.index);
    assert!(fresh.drop);
    assert_eq!(fresh.lua, 8);
    assert_eq!(lua.id(), 8);
}
