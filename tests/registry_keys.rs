use luascope::engine::{Access, Engine};
use luascope::registry::{RegistryKey, UnrefList};

#[test]
fn dropped_key_is_freed_by_sweep() {
    let mut lua: Engine<i32> = Engine::new(1);
    let mut list = UnrefList::new(&lua);
    let r = lua.create_object(42, Access::ReadWrite, None);
    let k0 = lua.create_registry_value(&r, &list);
    let k1 = lua.create_registry_value(&r, &list);
    assert_eq!(k0.id(), 0);
    assert_eq!(k1.id(), 1);
    k0.release(&mut list);
    assert_eq!(list.pending_ids(), Some(vec![0]));
    let probe = RegistryKey::new(0, &list);
    assert!(lua.registry_value(&probe).is_some());
    lua.expire_registry_values(&mut list);
    assert_eq!(list.pending_ids(), Some(vec![]));
    assert!(lua.registry_value(&probe).is_none());
    let v = lua.registry_value(&k1).unwrap();
    assert_eq!(*lua.userdata_ref(&v).unwrap(), 42);
}

#[test]
fn taken_key_is_never_swept() {
    let mut lua: Engine<i32> = Engine::new(1);
    let mut list = UnrefList::new(&lua);
    let r = lua.create_object(1, Access::ReadWrite, None);
    let k = lua.create_registry_value(&r, &list);
    let id = k.take();
    assert_eq!(id, 0);
    assert_eq!(list.pending_ids(), Some(vec![]));
    lua.expire_registry_values(&mut list);
    let probe = RegistryKey::new(id, &list);
    assert!(lua.registry_value(&probe).is_some());
    lua.remove_registry_value(probe);
    let probe = RegistryKey::new(id, &list);
    assert!(lua.registry_value(&probe).is_none());
}

#[test]
fn keys_of_two_engines_never_alias() {
    let a: Engine<i32> = Engine::new(1);
    let b: Engine<i32> = Engine::new(2);
    let la = UnrefList::new(&a);
    let lb = UnrefList::new(&b);
    let ka = RegistryKey::new(0, &la);
    let kb = RegistryKey::new(0, &lb);
    assert!(!ka.equals(&kb));
    assert_ne!(ka, kb);
    let ka2 = RegistryKey::new(0, &la);
    assert!(ka.equals(&ka2));
    assert_eq!(ka, ka2);
}

#[test]
fn nil_key_and_disabled_list_queue_nothing() {
    let lua: Engine<i32> = Engine::new(1);
    let mut list = UnrefList::new(&lua);
    RegistryKey::new(-1, &list).release(&mut list);
    assert_eq!(list.pending_ids(), Some(vec![]));
    list.disable();
    RegistryKey::new(3, &list).release(&mut list);
    assert_eq!(list.pending_ids(), None);
}

#[test]
fn set_id_repoints_key() {
    let lua: Engine<i32> = Engine::new(1);
    let list = UnrefList::new(&lua);
    let mut k = RegistryKey::new(4, &list);
    k.set_id(9);
    assert_eq!(k.id(), 9);
}
