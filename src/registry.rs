//! Registry keys: handles to persistent engine slots that are not freed when
//! the key is dropped. A dropped key queues its id on its engine's pending
//! list; an explicit sweep later frees every queued slot.
use crate::engine::{Engine, ValueRef};
use vstd::prelude::*;

verus! {

/// The id of the nil reference, which never names a slot.
pub const LUA_REFNIL: i32 = -1;

/// An engine's pending-removal list. `None` once the engine is gone: keys
/// dropped after that queue nothing.
pub struct UnrefList {
    id: u64,
    pending: Option<Vec<i32>>,
}

/// A handle to a registry slot, tied to the pending list of its engine.
#[derive(Debug, PartialEq, Eq, Structural, Hash)]
pub struct RegistryKey {
    registry_id: i32,
    unref_list: u64,
}

/// The pending list after a key with id `id` was dropped into it.
pub open spec fn queued(pending: Option<Seq<i32>>, id: i32) -> Option<Seq<i32>> {
    match pending {
        Some(p) => if id > LUA_REFNIL {
            Some(p.push(id))
        } else {
            Some(p)
        },
        None => None,
    }
}

/// Whether slot `i` is named in `ids`.
pub open spec fn names_slot(ids: Seq<i32>, i: int) -> bool {
    exists|k: int| 0 <= k < ids.len() && #[trigger] ids[k] as int == i
}

/// The registry after the slots named in `ids` were freed.
pub open spec fn swept(registry: Seq<Option<usize>>, ids: Seq<i32>) -> Seq<Option<usize>> {
    Seq::new(
        registry.len(),
        |i: int|
            if names_slot(ids, i) {
                None
            } else {
                registry[i]
            },
    )
}

impl UnrefList {
    pub closed spec fn list_id(&self) -> u64 {
        self.id
    }

    pub closed spec fn pending(&self) -> Option<Seq<i32>> {
        match self.pending {
            Some(v) => Some(v@),
            None => None,
        }
    }

    /// The empty pending list of engine `lua`.
    pub fn new<T>(lua: &Engine<T>) -> (l: UnrefList)
        ensures
            l.list_id() == lua.spec_id(),
            l.pending() == Some(Seq::<i32>::empty()),
    {
        UnrefList { id: lua.id(), pending: Some(Vec::new()) }
    }

    /// Marks the engine as gone: nothing is queued from now on.
    pub fn disable(&mut self)
        ensures
            final(self).list_id() == old(self).list_id(),
            final(self).pending() is None,
    {
        self.pending = None;
    }

    /// The ids queued so far, if the engine is still there.
    pub fn pending_ids(&self) -> (r: Option<Vec<i32>>)
        ensures
            match r {
                Some(v) => self.pending() == Some(v@),
                None => self.pending() is None,
            },
    {
        match &self.pending {
            Some(v) => Some(v.clone()),
            None => None,
        }
    }
}

impl RegistryKey {
    pub closed spec fn spec_id(&self) -> i32 {
        self.registry_id
    }

    pub closed spec fn list_id(&self) -> u64 {
        self.unref_list
    }

    /// A key for slot `id` that queues onto `unref_list` when dropped.
    pub fn new(id: i32, unref_list: &UnrefList) -> (k: RegistryKey)
        ensures
            k.spec_id() == id,
            k.list_id() == unref_list.list_id(),
    {
        RegistryKey { registry_id: id, unref_list: unref_list.id }
    }

    /// The registry slot this key names.
    #[verifier::when_used_as_spec(spec_id)]
    pub fn id(&self) -> (r: i32)
        ensures
            r == self.spec_id(),
    {
        self.registry_id
    }

    /// Points the key at another slot.
    pub fn set_id(&mut self, id: i32)
        ensures
            final(self).spec_id() == id,
            final(self).list_id() == old(self).list_id(),
    {
        self.registry_id = id;
    }

    /// Two keys are equal when they name the same slot of the same engine.
    /// Engines are told apart by the id given to `Engine::new`: keys of two
    /// engines created with one id compare equal when their slots match.
    pub fn equals(&self, other: &RegistryKey) -> (r: bool)
        ensures
            r == (self.spec_id() == other.spec_id() && self.list_id() == other.list_id()),
    {
        self.registry_id == other.registry_id && self.unref_list == other.unref_list
    }

    /// Drops the key: its slot id (unless nil) is queued on its pending list
    /// for the next sweep; the slot itself is not touched.
    pub fn release(self, unref_list: &mut UnrefList)
        requires
            old(unref_list).list_id() == self.list_id(),
        ensures
            final(unref_list).list_id() == old(unref_list).list_id(),
            final(unref_list).pending() == queued(old(unref_list).pending(), self.spec_id()),
    {
        let registry_id = self.registry_id;
        if registry_id > LUA_REFNIL {
            match &mut unref_list.pending {
                Some(list) => {
                    list.push(registry_id);
                },
                None => {},
            }
        }
    }

    /// Consumes the key without queueing its id: the caller takes over the
    /// slot.
    pub fn take(self) -> (id: i32)
        ensures
            id == self.spec_id(),
    {
        self.registry_id
    }
}

impl<T> Engine<T> {
    /// Stores the object of `r` in a new registry slot and returns its key.
    pub fn create_registry_value(&mut self, r: &ValueRef, unref_list: &UnrefList) -> (k:
        RegistryKey)
        requires
            old(self).wf(),
            old(self).live(*r),
            old(self).registry().len() < i32::MAX,
        ensures
            final(self).wf(),
            final(self).registry() == old(self).registry().push(
                Some(old(self).target(*r) as usize),
            ),
            final(self).spec_id() == old(self).spec_id(),
            final(self).is_closed() == old(self).is_closed(),
            final(self).objects() == old(self).objects(),
            final(self).refs() == old(self).refs(),
            final(self).metatables() == old(self).metatables(),
            k.spec_id() == old(self).registry().len(),
            k.list_id() == unref_list.list_id(),
    {
        let o = self.to_pointer(r);
        let i = self.registry_push(o);
        RegistryKey::new(i as i32, unref_list)
    }

    /// A fresh handle to the object in the key's slot, if the slot is in use.
    pub fn registry_value(&mut self, key: &RegistryKey) -> (r: Option<ValueRef>)
        requires
            old(self).wf(),
        ensures
            final(self).wf(),
            final(self).same_objects(*old(self)),
            match r {
                Some(v) => {
                    &&& 0 <= key.spec_id() < old(self).registry().len()
                    &&& old(self).registry()[key.spec_id() as int] is Some
                    &&& final(self).live(v)
                    &&& final(self).target(v) == old(self).registry()[key.spec_id() as int].unwrap()
                    &&& final(self).refs() == old(self).refs().push(
                        old(self).registry()[key.spec_id() as int],
                    )
                },
                None => {
                    &&& !(0 <= key.spec_id() < old(self).registry().len()
                        && old(self).registry()[key.spec_id() as int] is Some)
                    &&& final(self).refs() == old(self).refs()
                },
            },
    {
        let id = key.id();
        if id < 0 || id as usize >= self.registry_len() {
            return None;
        }
        match self.registry_get(id as usize) {
            Some(o) => Some(self.push_ref(o)),
            None => None,
        }
    }

    /// Frees the key's slot at once.
    pub fn remove_registry_value(&mut self, key: RegistryKey)
        requires
            old(self).wf(),
        ensures
            final(self).wf(),
            final(self).registry() == if 0 <= key.spec_id() < old(self).registry().len() {
                old(self).registry().update(key.spec_id() as int, None)
            } else {
                old(self).registry()
            },
            final(self).spec_id() == old(self).spec_id(),
            final(self).is_closed() == old(self).is_closed(),
            final(self).objects() == old(self).objects(),
            final(self).refs() == old(self).refs(),
            final(self).metatables() == old(self).metatables(),
    {
        let id = key.take();
        if id >= 0 && (id as usize) < self.registry_len() {
            self.registry_free(id as usize);
        }
    }

    /// The sweep: frees every slot queued on this engine's pending list and
    /// empties the list.
    pub fn expire_registry_values(&mut self, unref_list: &mut UnrefList)
        requires
            old(self).wf(),
            old(unref_list).list_id() == old(self).spec_id(),
        ensures
            final(self).wf(),
            final(unref_list).list_id() == old(unref_list).list_id(),
            final(self).spec_id() == old(self).spec_id(),
            final(self).is_closed() == old(self).is_closed(),
            final(self).objects() == old(self).objects(),
            final(self).refs() == old(self).refs(),
            final(self).metatables() == old(self).metatables(),
            match old(unref_list).pending() {
                Some(ids) => {
                    &&& final(self).registry() == swept(old(self).registry(), ids)
                    &&& final(unref_list).pending() == Some(Seq::<i32>::empty())
                },
                None => {
                    &&& final(self).registry() == old(self).registry()
                    &&& final(unref_list).pending() is None
                },
            },
    {
        let ids = match unref_list.pending_ids() {
            Some(v) => v,
            None => {
                return ;
            },
        };
        unref_list.pending = Some(Vec::new());
        let n = ids.len();
        let len = self.registry_len();
        let mut j: usize = 0;
        while j < n
            invariant
                0 <= j <= n,
                n == ids@.len(),
                len == self.registry().len(),
                len == old(self).registry().len(),
                self.wf(),
                self.spec_id() == old(self).spec_id(),
                self.is_closed() == old(self).is_closed(),
                self.objects() == old(self).objects(),
                self.refs() == old(self).refs(),
                self.metatables() == old(self).metatables(),
                self.registry() == swept(old(self).registry(), ids@.take(j as int)),
            decreases n - j,
        {
            let id = ids[j];
            if id >= 0 && (id as usize) < len {
                self.registry_free(id as usize);
            }
            proof {
                let a = swept(old(self).registry(), ids@.take(j + 1));
                assert forall|i: int| 0 <= i < len implies #[trigger] self.registry()[i] == a[i] by {
                    let t0 = ids@.take(j as int);
                    let t1 = ids@.take(j + 1);
                    if ids@[j as int] as int == i {
                        assert(t1[j as int] as int == i);
                    }
                    if names_slot(t0, i) {
                        let w = choose|w: int| 0 <= w < t0.len() && #[trigger] t0[w] as int == i;
                        assert(t1[w] as int == i);
                    }
                    if names_slot(t1, i) && ids@[j as int] as int != i {
                        let w = choose|w: int| 0 <= w < t1.len() && #[trigger] t1[w] as int == i;
                        assert(t0[w] as int == i);
                    }
                }
                assert(self.registry() =~= a);
            }
            j += 1;
        }
        proof {
            assert(ids@.take(n as int) =~= ids@);
        }
    }
}

} // verus!
