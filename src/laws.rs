//! Properties that relate several operations, proved over the models that
//! the operations' contracts use.
use crate::app_data::AppSlot;
use crate::engine::{
    call_error, detached, is_function, userdata_error, Access, Heap, Object,
};
use crate::error::Error;
use crate::registry::{names_slot, queued, swept, RegistryKey};
use crate::scope::{invalidate, teardown, Registration};
use vstd::prelude::*;

verus! {

/// What a teardown keeps: the engine's identity, its object count and its
/// registry; each object either stays as it was or loses its payload; and on
/// a running engine every registered object has lost its payload at the end.
proof fn lemma_teardown<T>(h: Heap<T>, ds: Seq<Registration>)
    ensures
        ({
            let g = teardown(h, ds).0;
            &&& g.id == h.id
            &&& g.closed == h.closed
            &&& g.registry == h.registry
            &&& g.objects.len() == h.objects.len()
            &&& forall|o: int|
                0 <= o < g.objects.len() ==> (#[trigger] g.objects[o] == h.objects[o] || g.objects[o]
                    == detached(h.objects[o]))
            &&& !h.closed ==> forall|j: int|
                0 <= j < ds.len() && #[trigger] ds[j].object < h.objects.len()
                    ==> g.objects[ds[j].object as int].payload is None
        }),
    decreases ds.len(),
{
    if ds.len() > 0 {
        let pre = ds.drop_last();
        lemma_teardown(h, pre);
        let g0 = teardown(h, pre).0;
        let g = teardown(h, ds).0;
        assert(g == invalidate(g0, ds.last()).0);
        if !h.closed {
            assert forall|j: int|
                0 <= j < ds.len() && #[trigger] ds[j].object < h.objects.len() implies g.objects[ds[j].object as int].payload is None by {
                if j < ds.len() - 1 {
                    assert(pre[j] == ds[j]);
                }
            }
        }
    }
}

/// After a scope ends on a running engine, every object it registered has
/// lost its payload, whatever became of the scope's own handles: reads,
/// writes and calls on it all report an error, and none sees the old data.
pub proof fn scope_end_expires_registered<T>(h: Heap<T>, ds: Seq<Registration>)
    requires
        !h.closed,
    ensures
        forall|j: int|
            0 <= j < ds.len() && #[trigger] ds[j].object < h.objects.len() ==> {
                let o = teardown(h, ds).0.objects[ds[j].object as int];
                &&& o.payload is None
                &&& userdata_error(o) is Some
                &&& call_error(o) is Some
                &&& !is_function(o.access) ==> userdata_error(o) == Some(Error::UserDataDestructed)
                &&& is_function(o.access) ==> call_error(o) == Some(Error::CallbackDestructed)
            },
{
    lemma_teardown(h, ds);
}

/// Ending a scope with nothing registered changes nothing and releases
/// nothing.
pub proof fn empty_scope_end_is_noop<T>(h: Heap<T>)
    ensures
        teardown(h, Seq::<Registration>::empty()) == (h, Seq::<T>::empty()),
{
}

/// Ending a scope after the engine's teardown has begun changes nothing and
/// releases nothing.
pub proof fn scope_end_after_engine_teardown<T>(h: Heap<T>, ds: Seq<Registration>)
    requires
        h.closed,
    ensures
        teardown(h, ds) == (h, Seq::<T>::empty()),
    decreases ds.len(),
{
    if ds.len() > 0 {
        scope_end_after_engine_teardown(h, ds.drop_last());
    }
}

/// Ending a scope where every registered object is already gone (its
/// payload detached before, or no such object) releases nothing, leaves
/// every object as it was and deregisters no behaviour table.
pub proof fn scope_end_with_everything_gone<T>(h: Heap<T>, ds: Seq<Registration>)
    requires
        forall|j: int|
            0 <= j < ds.len() ==> #[trigger] ds[j].object >= h.objects.len() || h.objects[ds[j].object as int].payload is None,
    ensures
        teardown(h, ds).1.len() == 0,
        teardown(h, ds).0.objects == h.objects,
        teardown(h, ds).0.metatables == h.metatables,
    decreases ds.len(),
{
    if ds.len() > 0 {
        let pre = ds.drop_last();
        assert forall|j: int| 0 <= j < pre.len() implies #[trigger] pre[j].object >= h.objects.len()
            || h.objects[pre[j].object as int].payload is None by {
            assert(pre[j] == ds[j]);
        }
        scope_end_with_everything_gone(h, pre);
        assert(ds[ds.len() - 1] == ds.last());
        let g0 = teardown(h, pre).0;
        let d = ds.last();
        if !g0.closed && d.object < g0.objects.len() {
            assert(g0.objects.update(d.object as int, detached(g0.objects[d.object as int])) =~= g0.objects);
        }
    }
}

/// A mutable callback that has been entered and not left refuses a second
/// entry with the recursive-callback error; before that, entry succeeds.
pub proof fn reentrant_mut_call_refused<T>(o: Object<T>)
    requires
        o.access == Access::FunctionMut,
        o.payload is Some,
        !o.running,
    ensures
        call_error(o) is None,
        call_error(Object { running: true, ..o }) == Some(Error::RecursiveMutCallback),
{
}

/// Dropping a key into an empty pending list and sweeping frees exactly
/// that key's slot.
pub proof fn sweep_frees_dropped_key(registry: Seq<Option<usize>>, id: i32)
    requires
        0 <= id < registry.len(),
    ensures
        swept(registry, queued(Some(Seq::<i32>::empty()), id).unwrap()) == registry.update(
            id as int,
            None,
        ),
{
    let ids = queued(Some(Seq::<i32>::empty()), id).unwrap();
    assert(ids[0] == id);
    assert forall|i: int| 0 <= i < registry.len() implies #[trigger] swept(registry, ids)[i]
        == registry.update(id as int, None)[i] by {
        if names_slot(ids, i) {
            let k = choose|k: int| 0 <= k < ids.len() && #[trigger] ids[k] as int == i;
            assert(k == 0);
        }
    }
    assert(swept(registry, ids) =~= registry.update(id as int, None));
}

/// A slot whose key was taken is never queued by it, so a sweep of a list
/// that does not already name it leaves the slot alone.
pub proof fn taken_key_never_swept(registry: Seq<Option<usize>>, pending: Seq<i32>, id: i32)
    requires
        0 <= id < registry.len(),
        !names_slot(pending, id as int),
    ensures
        swept(registry, pending)[id as int] == registry[id as int],
{
}

/// Keys of two different engines are never equal, whatever their ids.
pub proof fn keys_of_distinct_engines_differ(a: RegistryKey, b: RegistryKey)
    requires
        a.list_id() != b.list_id(),
    ensures
        a != b,
{
}

/// A shared borrow leaves its slot free of exclusive borrows, so further
/// shared borrows of it succeed, while the outstanding borrow count is no
/// longer zero, so insertion is refused until it is released.
pub proof fn shared_borrows_coexist<V>(
    before: Map<u64, AppSlot<V>>,
    after: Map<u64, AppSlot<V>>,
    key: u64,
    borrows_before: nat,
    borrows_after: nat,
)
    requires
        before.contains_key(key),
        !before[key].writer,
        after == before.insert(
            key,
            AppSlot { readers: (before[key].readers + 1) as usize, ..before[key] },
        ),
        borrows_after == borrows_before + 1,
    ensures
        after.contains_key(key),
        !after[key].writer,
        after[key].value == before[key].value,
        borrows_after != 0,
{
}

} // verus!
