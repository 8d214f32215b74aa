//! A singleton store keyed by host type, with a dynamic shared / exclusive
//! borrow check on each slot and a global count of outstanding borrows that
//! gates insertion and removal.
use rustc_hash::{FxBuildHasher, FxHashMap};
use vstd::prelude::*;

verus! {

#[verifier::external_type_specification]
#[verifier::external_body]
pub struct ExFxBuildHasher(FxBuildHasher);

/// Relies on `FxHashMap::default` (std's `HashMap` with rustc-hash's
/// deterministic hasher): the map starts empty.
#[verifier::external_body]
fn fx_new<V>() -> (m: FxHashMap<u64, V>)
    ensures
        m@.dom() == Set::<u64>::empty(),
{
    FxHashMap::default()
}

/// Relies on `HashMap::insert` under rustc-hash's deterministic hasher:
/// the key maps to the new value, and the previous value comes back.
#[verifier::external_body]
fn fx_insert<V>(m: &mut FxHashMap<u64, V>, k: u64, v: V) -> (r: Option<V>)
    ensures
        final(m)@ == old(m)@.insert(k, v),
        match r {
            Some(p) => old(m)@.contains_key(k) && p == old(m)@[k],
            None => !old(m)@.contains_key(k),
        },
{
    m.insert(k, v)
}

/// Relies on `HashMap::get` under rustc-hash's deterministic hasher.
#[verifier::external_body]
fn fx_get<V>(m: &FxHashMap<u64, V>, k: u64) -> (r: Option<&V>)
    ensures
        match r {
            Some(p) => m@.contains_key(k) && *p == m@[k],
            None => !m@.contains_key(k),
        },
{
    m.get(&k)
}

/// Relies on `HashMap::remove` under rustc-hash's deterministic hasher:
/// the key is gone, and its value comes back.
#[verifier::external_body]
fn fx_remove<V>(m: &mut FxHashMap<u64, V>, k: u64) -> (r: Option<V>)
    ensures
        final(m)@ == old(m)@.remove(k),
        match r {
            Some(p) => old(m)@.contains_key(k) && p == old(m)@[k],
            None => !old(m)@.contains_key(k),
        },
{
    m.remove(&k)
}

/// The value stored for one host type, with its borrow state.
pub struct AppSlot<V> {
    pub value: V,
    /// Outstanding shared borrows of this slot.
    pub readers: usize,
    /// Whether an exclusive borrow of this slot is outstanding.
    pub writer: bool,
}

/// The store: one slot per host type key.
pub struct AppData<V> {
    container: FxHashMap<u64, AppSlot<V>>,
    borrow: usize,
}

/// A shared borrow of the slot for `key`, holding an optional guard (for
/// instance on the engine lock) for as long as it lives.
pub struct AppDataRef<G> {
    key: u64,
    _guard: Option<G>,
}

/// An exclusive borrow of the slot for `key`, holding an optional guard.
pub struct AppDataRefMut<G> {
    key: u64,
    _guard: Option<G>,
}

/// A slot that nobody borrows.
pub open spec fn fresh<V>(value: V) -> AppSlot<V> {
    AppSlot { value, readers: 0, writer: false }
}

impl<G> AppDataRef<G> {
    pub closed spec fn spec_key(&self) -> u64 {
        self.key
    }

    /// The type key of the borrowed slot.
    pub fn key(&self) -> (k: u64)
        ensures
            k == self.spec_key(),
    {
        self.key
    }
}

impl<G> AppDataRefMut<G> {
    pub closed spec fn spec_key(&self) -> u64 {
        self.key
    }

    /// The type key of the borrowed slot.
    pub fn key(&self) -> (k: u64)
        ensures
            k == self.spec_key(),
    {
        self.key
    }
}

impl<V> AppData<V> {
    pub closed spec fn slots(&self) -> Map<u64, AppSlot<V>> {
        self.container@
    }

    /// Outstanding borrows over all slots.
    pub closed spec fn borrows(&self) -> nat {
        self.borrow as nat
    }

    /// An empty store.
    pub fn new() -> (d: AppData<V>)
        ensures
            d.slots() == Map::<u64, AppSlot<V>>::empty(),
            d.borrows() == 0,
    {
        AppData { container: fx_new(), borrow: 0 }
    }

    /// Number of outstanding borrows.
    pub fn borrow_count(&self) -> (n: usize)
        ensures
            n == self.borrows(),
    {
        self.borrow
    }

    /// Stores `data` under `key` unless a borrow is outstanding, in which
    /// case `data` comes back as the error. On success the previous value
    /// for `key`, if any, is returned.
    pub fn try_insert(&mut self, key: u64, data: V) -> (r: Result<Option<V>, V>)
        ensures
            final(self).borrows() == old(self).borrows(),
            match r {
                Ok(prev) => {
                    &&& old(self).borrows() == 0
                    &&& final(self).slots() == old(self).slots().insert(key, fresh(data))
                    &&& prev == if old(self).slots().contains_key(key) {
                        Some(old(self).slots()[key].value)
                    } else {
                        None
                    }
                },
                Err(back) => {
                    &&& old(self).borrows() != 0
                    &&& back == data
                    &&& final(self).slots() == old(self).slots()
                },
            },
    {
        if self.borrow != 0 {
            return Err(data);
        }
        match fx_insert(&mut self.container, key, AppSlot { value: data, readers: 0, writer: false }) {
            Some(slot) => Ok(Some(slot.value)),
            None => Ok(None),
        }
    }

    /// As `try_insert`, for callers that hold no borrow: an outstanding
    /// borrow here is a broken invariant of the caller.
    pub fn insert(&mut self, key: u64, data: V) -> (prev: Option<V>)
        requires
            old(self).borrows() == 0,
        ensures
            final(self).borrows() == 0,
            final(self).slots() == old(self).slots().insert(key, fresh(data)),
            prev == if old(self).slots().contains_key(key) {
                Some(old(self).slots()[key].value)
            } else {
                None
            },
    {
        match self.try_insert(key, data) {
            Ok(prev) => prev,
            Err(_) => vstd::pervasive::unreached(),
        }
    }

    /// Takes the value for `key` out of the store. No borrow may be
    /// outstanding.
    pub fn remove(&mut self, key: u64) -> (r: Option<V>)
        requires
            old(self).borrows() == 0,
        ensures
            final(self).borrows() == 0,
            final(self).slots() == old(self).slots().remove(key),
            r == if old(self).slots().contains_key(key) {
                Some(old(self).slots()[key].value)
            } else {
                None
            },
    {
        if self.borrow != 0 {
            return vstd::pervasive::unreached();
        }
        match fx_remove(&mut self.container, key) {
            Some(slot) => Some(slot.value),
            None => None,
        }
    }

    /// Borrows the slot for `key` shared, if there is one. Shared borrows of
    /// a slot coexist; an exclusive one must not be outstanding.
    pub fn borrow<G>(&mut self, key: u64, guard: Option<G>) -> (r: Option<AppDataRef<G>>)
        requires
            old(self).slots().contains_key(key) ==> !old(self).slots()[key].writer,
            old(self).borrows() < usize::MAX,
            old(self).slots().contains_key(key) ==> old(self).slots()[key].readers < usize::MAX,
        ensures
            match r {
                Some(b) => {
                    &&& old(self).slots().contains_key(key)
                    &&& b.spec_key() == key
                    &&& final(self).borrows() == old(self).borrows() + 1
                    &&& final(self).slots() == old(self).slots().insert(
                        key,
                        AppSlot {
                            readers: (old(self).slots()[key].readers + 1) as usize,
                            ..old(self).slots()[key]
                        },
                    )
                },
                None => {
                    &&& !old(self).slots().contains_key(key)
                    &&& final(self).borrows() == old(self).borrows()
                    &&& final(self).slots() == old(self).slots()
                },
            },
    {
        match fx_remove(&mut self.container, key) {
            Some(slot) => {
                let AppSlot { value, readers, writer } = slot;
                fx_insert(&mut self.container, key, AppSlot { value, readers: readers + 1, writer });
                self.borrow = self.borrow + 1;
                proof {
                    assert(self.container@ =~= old(self).slots().insert(
                        key,
                        AppSlot {
                            readers: (old(self).slots()[key].readers + 1) as usize,
                            ..old(self).slots()[key]
                        },
                    ));
                }
                Some(AppDataRef { key, _guard: guard })
            },
            None => None,
        }
    }

    /// Borrows the slot for `key` exclusively, if there is one. No other
    /// borrow of that slot may be outstanding.
    pub fn borrow_mut<G>(&mut self, key: u64, guard: Option<G>) -> (r: Option<AppDataRefMut<G>>)
        requires
            old(self).slots().contains_key(key) ==> !old(self).slots()[key].writer
                && old(self).slots()[key].readers == 0,
            old(self).borrows() < usize::MAX,
        ensures
            match r {
                Some(b) => {
                    &&& old(self).slots().contains_key(key)
                    &&& b.spec_key() == key
                    &&& final(self).borrows() == old(self).borrows() + 1
                    &&& final(self).slots() == old(self).slots().insert(
                        key,
                        AppSlot { writer: true, ..old(self).slots()[key] },
                    )
                },
                None => {
                    &&& !old(self).slots().contains_key(key)
                    &&& final(self).borrows() == old(self).borrows()
                    &&& final(self).slots() == old(self).slots()
                },
            },
    {
        match fx_remove(&mut self.container, key) {
            Some(slot) => {
                let AppSlot { value, readers, writer } = slot;
                fx_insert(&mut self.container, key, AppSlot { value, readers, writer: true });
                self.borrow = self.borrow + 1;
                proof {
                    assert(self.container@ =~= old(self).slots().insert(
                        key,
                        AppSlot { writer: true, ..old(self).slots()[key] },
                    ));
                }
                Some(AppDataRefMut { key, _guard: guard })
            },
            None => None,
        }
    }

    /// The value a shared borrow gives access to.
    pub fn get<G>(&self, b: &AppDataRef<G>) -> (v: &V)
        requires
            self.slots().contains_key(b.spec_key()),
        ensures
            *v == self.slots()[b.spec_key()].value,
    {
        let slot = fx_get(&self.container, b.key).unwrap();
        &slot.value
    }
    /// The value an exclusive borrow gives access to.
    pub fn get_mut_ref<G>(&self, b: &AppDataRefMut<G>) -> (v: &V)
        requires
            self.slots().contains_key(b.spec_key()),
        ensures
            *v == self.slots()[b.spec_key()].value,
    {
        let slot = fx_get(&self.container, b.key).unwrap();
        &slot.value
    }

    /// Replaces the value under an exclusive borrow and returns the old one.
    pub fn replace<G>(&mut self, b: &AppDataRefMut<G>, value: V) -> (prev: V)
        requires
            old(self).slots().contains_key(b.spec_key()),
        ensures
            prev == old(self).slots()[b.spec_key()].value,
            final(self).borrows() == old(self).borrows(),
            final(self).slots() == old(self).slots().insert(
                b.spec_key(),
                AppSlot { value, ..old(self).slots()[b.spec_key()] },
            ),
    {
        let slot = fx_remove(&mut self.container, b.key).unwrap();
        let AppSlot { value: prev, readers, writer } = slot;
        fx_insert(&mut self.container, b.key, AppSlot { value, readers, writer });
        proof {
            assert(self.container@ =~= old(self).slots().insert(
                b.spec_key(),
                AppSlot { value, ..old(self).slots()[b.spec_key()] },
            ));
        }
        prev
    }

    /// Ends a shared borrow.
    pub fn release<G>(&mut self, b: AppDataRef<G>)
        requires
            old(self).slots().contains_key(b.spec_key()),
            old(self).slots()[b.spec_key()].readers > 0,
            old(self).borrows() > 0,
        ensures
            final(self).borrows() == old(self).borrows() - 1,
            final(self).slots() == old(self).slots().insert(
                b.spec_key(),
                AppSlot {
                    readers: (old(self).slots()[b.spec_key()].readers - 1) as usize,
                    ..old(self).slots()[b.spec_key()]
                },
            ),
    {
        let slot = fx_remove(&mut self.container, b.key).unwrap();
        let AppSlot { value, readers, writer } = slot;
        fx_insert(&mut self.container, b.key, AppSlot { value, readers: readers - 1, writer });
        self.borrow = self.borrow - 1;
        proof {
            assert(self.container@ =~= old(self).slots().insert(
                b.spec_key(),
                AppSlot {
                    readers: (old(self).slots()[b.spec_key()].readers - 1) as usize,
                    ..old(self).slots()[b.spec_key()]
                },
            ));
        }
    }

    /// Ends an exclusive borrow.
    pub fn release_mut<G>(&mut self, b: AppDataRefMut<G>)
        requires
            old(self).slots().contains_key(b.spec_key()),
            old(self).borrows() > 0,
        ensures
            final(self).borrows() == old(self).borrows() - 1,
            final(self).slots() == old(self).slots().insert(
                b.spec_key(),
                AppSlot { writer: false, ..old(self).slots()[b.spec_key()] },
            ),
    {
        let slot = fx_remove(&mut self.container, b.key).unwrap();
        let AppSlot { value, readers, writer: _ } = slot;
        fx_insert(&mut self.container, b.key, AppSlot { value, readers, writer: false });
        self.borrow = self.borrow - 1;
        proof {
            assert(self.container@ =~= old(self).slots().insert(
                b.spec_key(),
                AppSlot { writer: false, ..old(self).slots()[b.spec_key()] },
            ));
        }
    }
    /// Whether `borrow(key, ..)` may be called: no exclusive borrow of the
    /// slot is outstanding and no count is at its limit.
    pub fn can_borrow(&self, key: u64) -> (b: bool)
        ensures
            b == ((self.slots().contains_key(key) ==> !self.slots()[key].writer
                && self.slots()[key].readers < usize::MAX) && self.borrows() < usize::MAX),
    {
        if self.borrow == usize::MAX {
            return false;
        }
        match fx_get(&self.container, key) {
            Some(slot) => !slot.writer && slot.readers < usize::MAX,
            None => true,
        }
    }

    /// Whether `borrow_mut(key, ..)` may be called: no borrow of the slot is
    /// outstanding and the borrow count is below its limit.
    pub fn can_borrow_mut(&self, key: u64) -> (b: bool)
        ensures
            b == ((self.slots().contains_key(key) ==> !self.slots()[key].writer
                && self.slots()[key].readers == 0) && self.borrows() < usize::MAX),
    {
        if self.borrow == usize::MAX {
            return false;
        }
        match fx_get(&self.container, key) {
            Some(slot) => !slot.writer && slot.readers == 0,
            None => true,
        }
    }
}

} // verus!
