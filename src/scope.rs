//! Scopes: registration contexts whose callbacks and opaque objects are
//! invalidated when the scope ends, before any host payload is released.
use crate::engine::{detached, Access, Engine, Heap, Object, ValueRef};
use vstd::prelude::*;

verus! {

/// What the teardown of one registration does beyond detaching its payload.
#[derive(Debug, Clone, Copy, PartialEq, Eq, Structural)]
pub enum DestructorKind {
    /// A host callback: its closure is detached.
    Callback,
    /// A borrowed object: its storage is detached; the borrowed value is
    /// never dropped by the scope.
    Seal,
    /// An owned object: its storage is detached and its per-instance
    /// behaviour table deregistered.
    Owned,
}

/// Lifecycle of a scope.
#[derive(Debug, Clone, Copy, PartialEq, Eq, Structural)]
pub enum ScopeState {
    Open,
    Draining,
    Closed,
}

/// A callable engine value.
#[derive(Debug)]
pub struct Function(pub ValueRef);

/// An opaque engine object with a host payload.
#[derive(Debug)]
pub struct AnyUserData(pub ValueRef);

/// One registration: the scope's own handle to the object, the object
/// itself, and what its teardown does.
#[derive(Debug)]
pub struct Registration {
    pub handle: ValueRef,
    pub object: usize,
    pub kind: DestructorKind,
}

/// The registrations of a scope, in order.
pub struct Destructors(pub Vec<Registration>);

/// A registration context tied to one engine. Its payloads need not be
/// thread-safe nor live forever: a payload type that borrows host data keeps
/// the engine from outliving that data. The scope is ended with `close` or
/// `end`, which invalidates everything it registered.
pub struct Scope {
    lua: u64,
    destructors: Destructors,
    state: ScopeState,
}

/// Invalidation step of one registration: when the engine is reachable,
/// detach the payload of the registered object (deregistering the behaviour
/// table of an owned object that still had one), then free the scope's
/// handle. The detached payload is the deferred release.
pub open spec fn invalidate<T>(h: Heap<T>, d: Registration) -> (Heap<T>, Option<T>) {
    if h.closed || d.object >= h.objects.len() {
        (h, None)
    } else {
        let t = d.object as int;
        let o = h.objects[t];
        let objects = if o.payload is Some {
            h.objects.update(t, detached(o))
        } else {
            h.objects
        };
        let metatables = if o.payload is Some && d.kind == DestructorKind::Owned
            && o.metatable is Some {
            h.metatables.update(o.metatable.unwrap() as int, false)
        } else {
            h.metatables
        };
        let refs = if h.frees(d.handle) {
            h.refs.update(d.handle.index as int, None)
        } else {
            h.refs
        };
        (Heap { objects, refs, metatables, ..h }, o.payload)
    }
}

/// No registered mutable callback is in the middle of a call.
pub open spec fn idle<T>(h: Heap<T>, ds: Seq<Registration>) -> bool {
    forall|j: int|
        0 <= j < ds.len() && #[trigger] ds[j].object < h.objects.len() ==> !h.objects[ds[j].object as int].running
}

/// Runs the invalidation steps of `ds` in order and collects the deferred
/// releases in the same order.
pub open spec fn teardown<T>(h: Heap<T>, ds: Seq<Registration>) -> (Heap<T>, Seq<T>)
    decreases ds.len(),
{
    if ds.len() == 0 {
        (h, seq![])
    } else {
        let (h1, out) = teardown(h, ds.drop_last());
        let (h2, p) = invalidate(h1, ds.last());
        (h2, if p is Some { out.push(p.unwrap()) } else { out })
    }
}

/// The effect of one registration: `obj` became a new object, a handle `r`
/// to it was handed out, and a second handle to it was recorded with
/// `kind` at the end of the scope's list.
pub open spec fn registers<T>(
    s0: Scope,
    s1: Scope,
    h0: Heap<T>,
    h1: Heap<T>,
    r: ValueRef,
    obj: Object<T>,
    kind: DestructorKind,
) -> bool {
    let n = h0.objects.len() as usize;
    &&& h1.wf()
    &&& s1.is_open()
    &&& s1.lua_id() == s0.lua_id()
    &&& h1.id == h0.id
    &&& h1.closed == h0.closed
    &&& h1.registry == h0.registry
    &&& h1.objects == h0.objects.push(obj)
    &&& h1.refs == h0.refs.push(Some(n)).push(Some(n))
    &&& r == ValueRef { lua: h0.id, index: h0.refs.len() as usize, drop: true }
    &&& s1.registered() == s0.registered().push(
        Registration {
            handle: ValueRef { lua: h0.id, index: (h0.refs.len() + 1) as usize, drop: true },
            object: n,
            kind,
        },
    )
}

impl Scope {
    pub closed spec fn lua_id(&self) -> u64 {
        self.lua
    }

    pub closed spec fn state(&self) -> ScopeState {
        self.state
    }

    /// The registrations so far, in order.
    pub closed spec fn registered(&self) -> Seq<Registration> {
        self.destructors.0@
    }

    pub open spec fn is_open(&self) -> bool {
        self.state() == ScopeState::Open
    }

    /// An open scope over `lua` with nothing registered.
    pub fn new<T>(lua: &Engine<T>) -> (s: Scope)
        ensures
            s.is_open(),
            s.lua_id() == lua.spec_id(),
            s.registered().len() == 0,
    {
        Scope { lua: lua.id(), destructors: Destructors(Vec::new()), state: ScopeState::Open }
    }

    /// Whether the scope still accepts registrations.
    pub fn open(&self) -> (b: bool)
        ensures
            b == self.is_open(),
    {
        self.state == ScopeState::Open
    }

    /// Runs the invalidation step of one registration.
    fn run_destructor<T>(lua: &mut Engine<T>, d: &Registration) -> (p: Option<T>)
        requires
            old(lua).wf(),
        ensures
            final(lua).wf(),
            (final(lua)@, p) == invalidate(old(lua)@, *d),
    {
        if lua.closed() || d.object >= lua.objects_len() {
            return None;
        }
        let meta = lua.metatable_of(d.object);
        let p = lua.take_payload(d.object);
        if p.is_some() && d.kind == DestructorKind::Owned {
            if let Some(m) = meta {
                lua.deregister_metatable(m);
            }
        }
        lua.drop_ref(&d.handle);
        proof {
            let (h, q) = invalidate(old(lua)@, *d);
            assert(lua@.objects =~= h.objects);
            assert(lua@.refs =~= h.refs);
            assert(lua@.metatables =~= h.metatables);
        }
        p
    }

    /// Records the object of `r` for teardown, with a fresh copy of `r`.
    fn push_destructor<T>(&mut self, lua: &mut Engine<T>, r: &ValueRef, kind: DestructorKind)
        requires
            old(lua).wf(),
            old(lua).live(*r),
        ensures
            final(lua).wf(),
            final(lua).same_objects(*old(lua)),
            final(lua).refs() == old(lua).refs().push(old(lua).refs()[r.index as int]),
            final(self).lua_id() == old(self).lua_id(),
            final(self).state() == old(self).state(),
            final(self).registered() == old(self).registered().push(
                Registration {
                    handle: ValueRef { lua: r.lua, index: old(lua).refs().len() as usize, drop: true },
                    object: old(lua).target(*r) as usize,
                    kind,
                },
            ),
    {
        let object = lua.to_pointer(r);
        let handle = lua.clone_ref(r);
        self.destructors.0.push(Registration { handle, object, kind });
    }

    /// Materialises a callback and records its teardown.
    fn create_callback<T>(&mut self, lua: &mut Engine<T>, f: T, access: Access) -> (func: Function)
        requires
            old(self).is_open(),
            old(self).lua_id() == old(lua).spec_id(),
            old(lua).wf(),
        ensures
            registers(
                *old(self),
                *final(self),
                old(lua)@,
                final(lua)@,
                func.0,
                Object { payload: Some(f), access, metatable: None, running: false },
                DestructorKind::Callback,
            ),
            final(lua).metatables() == old(lua).metatables(),
    {
        let r = lua.create_object(f, access, None);
        self.push_destructor(lua, &r, DestructorKind::Callback);
        Function(r)
    }

    /// Shortens the lifetime of an object to that of the scope: at scope
    /// end its storage is detached without dropping what it borrows.
    fn seal_userdata<T>(&mut self, lua: &mut Engine<T>, data: T, access: Access) -> (ud:
        AnyUserData)
        requires
            old(self).is_open(),
            old(self).lua_id() == old(lua).spec_id(),
            old(lua).wf(),
        ensures
            registers(
                *old(self),
                *final(self),
                old(lua)@,
                final(lua)@,
                ud.0,
                Object { payload: Some(data), access, metatable: None, running: false },
                DestructorKind::Seal,
            ),
            final(lua).metatables() == old(lua).metatables(),
    {
        let r = lua.create_object(data, access, None);
        self.push_destructor(lua, &r, DestructorKind::Seal);
        AnyUserData(r)
    }

    /// Wraps a host closure as a callable engine value that expires when the
    /// scope ends. Scripts may re-enter it.
    pub fn create_function<T>(&mut self, lua: &mut Engine<T>, func: T) -> (f: Function)
        requires
            old(self).is_open(),
            old(self).lua_id() == old(lua).spec_id(),
            old(lua).wf(),
        ensures
            registers(
                *old(self),
                *final(self),
                old(lua)@,
                final(lua)@,
                f.0,
                Object { payload: Some(func), access: Access::Function, metatable: None, running: false },
                DestructorKind::Callback,
            ),
            final(lua).metatables() == old(lua).metatables(),
    {
        self.create_callback(lua, func, Access::Function)
    }

    /// As `create_function`, for a closure that needs exclusive access per
    /// call: entering it while it runs reports a recursive-callback error.
    pub fn create_function_mut<T>(&mut self, lua: &mut Engine<T>, func: T) -> (f: Function)
        requires
            old(self).is_open(),
            old(self).lua_id() == old(lua).spec_id(),
            old(lua).wf(),
        ensures
            registers(
                *old(self),
                *final(self),
                old(lua)@,
                final(lua)@,
                f.0,
                Object {
                    payload: Some(func),
                    access: Access::FunctionMut,
                    metatable: None,
                    running: false,
                },
                DestructorKind::Callback,
            ),
            final(lua).metatables() == old(lua).metatables(),
    {
        self.create_callback(lua, func, Access::FunctionMut)
    }

    /// Exposes borrowed data read-only; it expires when the scope ends.
    pub fn create_userdata_ref<T>(&mut self, lua: &mut Engine<T>, data: T) -> (ud: AnyUserData)
        requires
            old(self).is_open(),
            old(self).lua_id() == old(lua).spec_id(),
            old(lua).wf(),
        ensures
            registers(
                *old(self),
                *final(self),
                old(lua)@,
                final(lua)@,
                ud.0,
                Object { payload: Some(data), access: Access::ReadOnly, metatable: None, running: false },
                DestructorKind::Seal,
            ),
            final(lua).metatables() == old(lua).metatables(),
    {
        self.seal_userdata(lua, data, Access::ReadOnly)
    }

    /// Exposes mutably borrowed data; it expires when the scope ends.
    pub fn create_userdata_ref_mut<T>(&mut self, lua: &mut Engine<T>, data: T) -> (ud:
        AnyUserData)
        requires
            old(self).is_open(),
            old(self).lua_id() == old(lua).spec_id(),
            old(lua).wf(),
        ensures
            registers(
                *old(self),
                *final(self),
                old(lua)@,
                final(lua)@,
                ud.0,
                Object { payload: Some(data), access: Access::ReadWrite, metatable: None, running: false },
                DestructorKind::Seal,
            ),
            final(lua).metatables() == old(lua).metatables(),
    {
        self.seal_userdata(lua, data, Access::ReadWrite)
    }

    /// As `create_userdata_ref`, for data without script bindings of its own.
    pub fn create_any_userdata_ref<T>(&mut self, lua: &mut Engine<T>, data: T) -> (ud:
        AnyUserData)
        requires
            old(self).is_open(),
            old(self).lua_id() == old(lua).spec_id(),
            old(lua).wf(),
        ensures
            registers(
                *old(self),
                *final(self),
                old(lua)@,
                final(lua)@,
                ud.0,
                Object { payload: Some(data), access: Access::ReadOnly, metatable: None, running: false },
                DestructorKind::Seal,
            ),
            final(lua).metatables() == old(lua).metatables(),
    {
        self.seal_userdata(lua, data, Access::ReadOnly)
    }

    /// As `create_userdata_ref_mut`, for data without script bindings of its own.
    pub fn create_any_userdata_ref_mut<T>(&mut self, lua: &mut Engine<T>, data: T) -> (ud:
        AnyUserData)
        requires
            old(self).is_open(),
            old(self).lua_id() == old(lua).spec_id(),
            old(lua).wf(),
        ensures
            registers(
                *old(self),
                *final(self),
                old(lua)@,
                final(lua)@,
                ud.0,
                Object { payload: Some(data), access: Access::ReadWrite, metatable: None, running: false },
                DestructorKind::Seal,
            ),
            final(lua).metatables() == old(lua).metatables(),
    {
        self.seal_userdata(lua, data, Access::ReadWrite)
    }

    /// Moves owned data into a new opaque object with a behaviour table of
    /// its own. At scope end the table is deregistered and the data released.
    pub fn create_userdata<T>(&mut self, lua: &mut Engine<T>, data: T) -> (ud: AnyUserData)
        requires
            old(self).is_open(),
            old(self).lua_id() == old(lua).spec_id(),
            old(lua).wf(),
        ensures
            registers(
                *old(self),
                *final(self),
                old(lua)@,
                final(lua)@,
                ud.0,
                Object {
                    payload: Some(data),
                    access: Access::ReadWrite,
                    metatable: Some(old(lua).metatables().len() as usize),
                    running: false,
                },
                DestructorKind::Owned,
            ),
            final(lua).metatables() == old(lua).metatables().push(true),
    {
        let m = lua.register_metatable();
        let r = lua.create_object(data, Access::ReadWrite, Some(m));
        self.push_destructor(lua, &r, DestructorKind::Owned);
        AnyUserData(r)
    }

    /// Ends the scope's engine side: runs every invalidation step in
    /// registration order and hands back the detached payloads, in the same
    /// order, for release afterwards.
    pub fn close<T>(&mut self, lua: &mut Engine<T>) -> (thunks: Vec<T>)
        requires
            old(self).is_open(),
            old(lua).wf(),
            idle(old(lua)@, old(self).registered()),
        ensures
            final(lua).wf(),
            final(self).state() == ScopeState::Closed,
            final(self).lua_id() == old(self).lua_id(),
            final(self).registered().len() == 0,
            (final(lua)@, thunks@) == teardown(old(lua)@, old(self).registered()),
    {
        self.state = ScopeState::Draining;
        let mut ds: Vec<Registration> = Vec::new();
        std::mem::swap(&mut ds, &mut self.destructors.0);
        let ghost h0 = lua@;
        let mut thunks: Vec<T> = Vec::new();
        let n = ds.len();
        let mut i: usize = 0;
        proof {
            assert(ds@.take(0) =~= Seq::<Registration>::empty());
            assert(thunks@ =~= Seq::<T>::empty());
        }
        while i < n
            invariant
                0 <= i <= n,
                n == ds@.len(),
                ds@ == old(self).registered(),
                lua.wf(),
                (lua@, thunks@) == teardown(h0, ds@.take(i as int)),
            decreases n - i,
        {
            let p = Self::run_destructor(lua, &ds[i]);
            if let Some(v) = p {
                thunks.push(v);
            }
            proof {
                assert(ds@.take(i + 1).drop_last() =~= ds@.take(i as int));
            }
            i += 1;
        }
        proof {
            assert(ds@.take(n as int) =~= ds@);
        }
        self.state = ScopeState::Closed;
        thunks
    }

    /// Ends the scope: all invalidation first, then the release of every
    /// detached payload. Should one release panic, the releases after it
    /// still run while the panic unwinds.
    pub fn end<T>(self, lua: &mut Engine<T>)
        requires
            self.is_open(),
            old(lua).wf(),
            idle(old(lua)@, self.registered()),
        ensures
            final(lua).wf(),
            final(lua)@ == teardown(old(lua)@, self.registered()).0,
    {
        let mut scope = self;
        let _released = scope.close(lua);
    }
}

} // verus!
