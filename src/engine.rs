//! The engine's object model, as this library sees it: opaque objects that
//! carry a host payload, an always-alive reference area whose slots name
//! objects, persistent registry slots, and per-instance behaviour tables.
use crate::error::Error;
use vstd::prelude::*;

verus! {

/// Which bindings an opaque object offers to scripts.
#[derive(Debug, Clone, Copy, PartialEq, Eq, Structural)]
pub enum Access {
    /// Borrowed shared data: scripts may read it, never mutate it.
    ReadOnly,
    /// Data that scripts may read and replace.
    ReadWrite,
    /// A host callback that may be re-entered.
    Function,
    /// A host callback that needs exclusive access for each call.
    FunctionMut,
}

/// True for the two callback kinds.
pub open spec fn is_function(a: Access) -> bool {
    a == Access::Function || a == Access::FunctionMut
}

/// The failure a data access on `o` reports, if any.
pub open spec fn userdata_error<T>(o: Object<T>) -> Option<Error> {
    if is_function(o.access) {
        Some(Error::UserDataTypeMismatch)
    } else if o.payload is None {
        Some(Error::UserDataDestructed)
    } else {
        None
    }
}

/// The failure a mutation of `o` reports, if any.
pub open spec fn userdata_mut_error<T>(o: Object<T>) -> Option<Error> {
    if userdata_error(o) is Some {
        userdata_error(o)
    } else if o.access == Access::ReadOnly {
        Some(Error::UserDataBorrowMutError)
    } else {
        None
    }
}

/// The failure that entering the callback `o` reports, if any.
pub open spec fn call_error<T>(o: Object<T>) -> Option<Error> {
    if !is_function(o.access) {
        Some(Error::UserDataTypeMismatch)
    } else if o.payload is None {
        Some(Error::CallbackDestructed)
    } else if o.access == Access::FunctionMut && o.running {
        Some(Error::RecursiveMutCallback)
    } else {
        None
    }
}

/// `o` with its payload detached.
pub open spec fn detached<T>(o: Object<T>) -> Object<T> {
    Object { payload: None, ..o }
}

/// One engine-side object.
pub struct Object<T> {
    /// The host payload; `None` once it has been detached.
    pub payload: Option<T>,
    pub access: Access,
    /// The per-instance behaviour table attached to the object, if any.
    pub metatable: Option<usize>,
    /// Whether a mutable callback is currently executing.
    pub running: bool,
}

/// A handle to one slot of an engine's reference area.
#[derive(Debug)]
pub struct ValueRef {
    /// Identity of the engine the slot belongs to (a weak, non-owning link).
    pub lua: u64,
    /// The slot in the reference area.
    pub index: usize,
    /// Whether dropping the handle frees the slot; false for slots owned elsewhere.
    pub drop: bool,
}

/// The engine state: objects, reference slots, registry slots and
/// behaviour tables, plus the flag that says teardown has begun.
pub struct Engine<T> {
    id: u64,
    closed: bool,
    objects: Vec<Object<T>>,
    refs: Vec<Option<usize>>,
    registry: Vec<Option<usize>>,
    metatables: Vec<bool>,
}

impl ValueRef {
    /// A dropping handle to slot `index` of `lua`.
    pub fn new<T>(lua: &Engine<T>, index: usize) -> (r: ValueRef)
        ensures
            r.lua == lua.spec_id(),
            r.index == index,
            r.drop,
    {
        ValueRef { lua: lua.id(), index, drop: true }
    }
}

/// The mathematical state of an engine.
pub struct Heap<T> {
    pub id: u64,
    /// Teardown has begun.
    pub closed: bool,
    pub objects: Seq<Object<T>>,
    /// Reference area: slot to object, `None` for a freed slot.
    pub refs: Seq<Option<usize>>,
    /// Registry area: slot to object, `None` for a freed slot.
    pub registry: Seq<Option<usize>>,
    /// Behaviour tables: whether each one is still registered.
    pub metatables: Seq<bool>,
}

impl<T> Heap<T> {
    /// Every slot names an existing object, every attached behaviour table
    /// exists, and every area is no longer than a `Vec` can be.
    pub open spec fn wf(self) -> bool {
        &&& self.objects.len() <= usize::MAX
        &&& self.refs.len() <= usize::MAX
        &&& self.registry.len() <= usize::MAX
        &&& self.metatables.len() <= usize::MAX
        &&& forall|i: int|
            0 <= i < self.refs.len() && #[trigger] self.refs[i] is Some ==> self.refs[i].unwrap()
                < self.objects.len()
        &&& forall|i: int|
            0 <= i < self.registry.len() && #[trigger] self.registry[i] is Some
                ==> self.registry[i].unwrap() < self.objects.len()
        &&& forall|o: int|
            0 <= o < self.objects.len() && #[trigger] self.objects[o].metatable is Some
                ==> self.objects[o].metatable.unwrap() < self.metatables.len()
    }

    /// `r` is a handle of this engine to a slot that has not been freed.
    pub open spec fn live(self, r: ValueRef) -> bool {
        &&& r.lua == self.id
        &&& r.index < self.refs.len()
        &&& self.refs[r.index as int] is Some
    }

    /// The object that a live handle names.
    pub open spec fn target(self, r: ValueRef) -> int {
        self.refs[r.index as int].unwrap() as int
    }

    /// Whether dropping `r` frees its slot: it must be a dropping handle of
    /// this engine, and teardown must not have begun.
    pub open spec fn frees(self, r: ValueRef) -> bool {
        r.drop && r.lua == self.id && !self.closed && r.index < self.refs.len()
    }
}

impl<T> View for Engine<T> {
    type V = Heap<T>;

    closed spec fn view(&self) -> Heap<T> {
        Heap {
            id: self.id,
            closed: self.closed,
            objects: self.objects@,
            refs: self.refs@,
            registry: self.registry@,
            metatables: self.metatables@,
        }
    }
}

impl<T> Engine<T> {
    pub open spec fn spec_id(&self) -> u64 {
        self@.id
    }

    pub open spec fn is_closed(&self) -> bool {
        self@.closed
    }

    pub open spec fn objects(&self) -> Seq<Object<T>> {
        self@.objects
    }

    pub open spec fn refs(&self) -> Seq<Option<usize>> {
        self@.refs
    }

    pub open spec fn registry(&self) -> Seq<Option<usize>> {
        self@.registry
    }

    pub open spec fn metatables(&self) -> Seq<bool> {
        self@.metatables
    }

    pub open spec fn wf(&self) -> bool {
        self@.wf()
    }

    pub open spec fn live(&self, r: ValueRef) -> bool {
        self@.live(r)
    }

    pub open spec fn target(&self, r: ValueRef) -> int {
        self@.target(r)
    }

    pub open spec fn object_of(&self, r: ValueRef) -> Object<T> {
        self.objects()[self.target(r)]
    }

    /// `e` differs from `self` at most in its objects.
    pub open spec fn same_slots(&self, e: Engine<T>) -> bool {
        &&& e.spec_id() == self.spec_id()
        &&& e.is_closed() == self.is_closed()
        &&& e.refs() == self.refs()
        &&& e.registry() == self.registry()
        &&& e.metatables() == self.metatables()
    }

    /// `e` differs from `self` at most in its reference slots.
    pub open spec fn same_objects(&self, e: Engine<T>) -> bool {
        &&& e.spec_id() == self.spec_id()
        &&& e.is_closed() == self.is_closed()
        &&& e.objects() == self.objects()
        &&& e.registry() == self.registry()
        &&& e.metatables() == self.metatables()
    }

    /// An engine with nothing in it. The id is the engine's identity: handles
    /// and registry keys of engines made with the same id are not told apart,
    /// so each live engine needs an id of its own.
    pub fn new(id: u64) -> (e: Engine<T>)
        ensures
            e.wf(),
            e.spec_id() == id,
            !e.is_closed(),
            e.objects().len() == 0,
            e.refs().len() == 0,
            e.registry().len() == 0,
            e.metatables().len() == 0,
    {
        Engine {
            id,
            closed: false,
            objects: Vec::new(),
            refs: Vec::new(),
            registry: Vec::new(),
            metatables: Vec::new(),
        }
    }

    #[verifier::when_used_as_spec(spec_id)]
    pub fn id(&self) -> (r: u64)
        ensures
            r == self.spec_id(),
    {
        self.id
    }

    /// Whether teardown has begun.
    #[verifier::when_used_as_spec(is_closed)]
    pub fn closed(&self) -> (r: bool)
        ensures
            r == self.is_closed(),
    {
        self.closed
    }

    /// Begins teardown: from now on slots are no longer freed and
    /// destructors find no engine access.
    pub fn close(&mut self)
        ensures
            final(self).is_closed(),
            final(self).spec_id() == old(self).spec_id(),
            final(self).objects() == old(self).objects(),
            final(self).refs() == old(self).refs(),
            final(self).registry() == old(self).registry(),
            final(self).metatables() == old(self).metatables(),
            old(self).wf() ==> final(self).wf(),
    {
        self.closed = true;
    }
    /// Materialises a new opaque object holding `payload` and hands back a
    /// fresh dropping handle to it.
    pub fn create_object(&mut self, payload: T, access: Access, metatable: Option<usize>) -> (r:
        ValueRef)
        requires
            old(self).wf(),
            metatable is Some ==> metatable.unwrap() < old(self).metatables().len(),
        ensures
            final(self).wf(),
            final(self).spec_id() == old(self).spec_id(),
            final(self).is_closed() == old(self).is_closed(),
            final(self).registry() == old(self).registry(),
            final(self).metatables() == old(self).metatables(),
            final(self).objects() == old(self).objects().push(
                Object { payload: Some(payload), access, metatable, running: false },
            ),
            final(self).refs() == old(self).refs().push(Some(old(self).objects().len() as usize)),
            r.lua == old(self).spec_id(),
            r.index == old(self).refs().len(),
            r.drop,
            final(self).live(r),
            final(self).target(r) == old(self).objects().len(),
    {
        let o = self.objects.len();
        self.objects.push(Object { payload: Some(payload), access, metatable, running: false });
        // A Vec is never longer than usize::MAX; reading the length records that.
        let _objects_len = self.objects.len();
        let index = self.refs.len();
        self.refs.push(Some(o));
        // A Vec is never longer than usize::MAX; reading the length records that.
        let _refs_len = self.refs.len();
        ValueRef { lua: self.id, index, drop: true }
    }

    /// Registers a fresh per-instance behaviour table and returns its id.
    pub fn register_metatable(&mut self) -> (m: usize)
        requires
            old(self).wf(),
        ensures
            final(self).wf(),
            m == old(self).metatables().len(),
            final(self).metatables() == old(self).metatables().push(true),
            final(self).spec_id() == old(self).spec_id(),
            final(self).is_closed() == old(self).is_closed(),
            final(self).objects() == old(self).objects(),
            final(self).refs() == old(self).refs(),
            final(self).registry() == old(self).registry(),
    {
        let m = self.metatables.len();
        self.metatables.push(true);
        // A Vec is never longer than usize::MAX; reading the length records that.
        let _metatables_len = self.metatables.len();
        m
    }

    /// Handle to an existing slot without freeing duty on drop.
    pub fn borrowed_ref(&self, index: usize) -> (r: ValueRef)
        ensures
            r.lua == self.spec_id(),
            r.index == index,
            !r.drop,
    {
        ValueRef { lua: self.id, index, drop: false }
    }

    /// Duplicates the slot of a live handle: the copy names the same object.
    pub fn clone_ref(&mut self, r: &ValueRef) -> (c: ValueRef)
        requires
            old(self).wf(),
            old(self).live(*r),
        ensures
            final(self).wf(),
            final(self).same_objects(*old(self)),
            final(self).refs() == old(self).refs().push(old(self).refs()[r.index as int]),
            c.lua == r.lua,
            c.index == old(self).refs().len(),
            c.drop,
            final(self).live(c),
            final(self).live(*r),
            final(self).target(c) == old(self).target(*r),
    {
        let o = self.refs[r.index];
        let index = self.refs.len();
        self.refs.push(o);
        // A Vec is never longer than usize::MAX; reading the length records that.
        let _refs_len = self.refs.len();
        ValueRef { lua: self.id, index, drop: true }
    }

    pub open spec fn frees(&self, r: ValueRef) -> bool {
        self@.frees(r)
    }

    /// Releases a handle, freeing its slot where `frees` says so.
    pub fn drop_ref(&mut self, r: &ValueRef)
        requires
            old(self).wf(),
        ensures
            final(self).wf(),
            final(self).same_objects(*old(self)),
            final(self).refs() == if old(self).frees(*r) {
                old(self).refs().update(r.index as int, None)
            } else {
                old(self).refs()
            },
    {
        if r.drop && r.lua == self.id && !self.closed && r.index < self.refs.len() {
            self.refs.set(r.index, None);
        }
    }

    /// The opaque identity of the object a live handle names, stable while
    /// the slot is alive.
    pub fn to_pointer(&self, r: &ValueRef) -> (p: usize)
        requires
            self.live(*r),
        ensures
            p == self.target(*r),
    {
        self.refs[r.index].unwrap()
    }

    /// Whether two live handles of this engine name the same object.
    /// Handles of different engines must not be compared.
    pub fn raw_equal(&self, a: &ValueRef, b: &ValueRef) -> (r: bool)
        requires
            a.lua == b.lua,
            self.live(*a),
            self.live(*b),
        ensures
            r == (self.target(*a) == self.target(*b)),
    {
        self.refs[a.index].unwrap() == self.refs[b.index].unwrap()
    }
    /// Reads the payload of a data object, as a script-side getter does.
    /// Fails with `EngineClosed` once teardown has begun.
    pub fn userdata_ref(&self, r: &ValueRef) -> (res: Result<&T, Error>)
        requires
            self.wf(),
            self.live(*r),
        ensures
            self.is_closed() ==> {
                &&& res is Err
                &&& res->Err_0 == Error::EngineClosed
            },
            !self.is_closed() ==> match res {
                Ok(v) => userdata_error(self.object_of(*r)) is None && Some(*v) == self.object_of(
                    *r,
                ).payload,
                Err(e) => userdata_error(self.object_of(*r)) == Some(e),
            },
    {
        if self.closed {
            return Err(Error::EngineClosed);
        }
        let o = self.refs[r.index].unwrap();
        let obj = &self.objects[o];
        if obj.access == Access::Function || obj.access == Access::FunctionMut {
            return Err(Error::UserDataTypeMismatch);
        }
        match &obj.payload {
            Some(v) => Ok(v),
            None => Err(Error::UserDataDestructed),
        }
    }

    /// Replaces the payload of a writable data object, as a script-side
    /// setter does, and returns the previous payload. Fails with
    /// `EngineClosed` once teardown has begun.
    pub fn set_userdata(&mut self, r: &ValueRef, value: T) -> (res: Result<T, Error>)
        requires
            old(self).wf(),
            old(self).live(*r),
        ensures
            final(self).wf(),
            final(self).same_slots(*old(self)),
            old(self).is_closed() ==> {
                &&& res is Err
                &&& res->Err_0 == Error::EngineClosed
                &&& final(self).objects() == old(self).objects()
            },
            !old(self).is_closed() ==> match res {
                Ok(v) => {
                    &&& userdata_mut_error(old(self).object_of(*r)) is None
                    &&& Some(v) == old(self).object_of(*r).payload
                    &&& final(self).objects() == old(self).objects().update(
                        old(self).target(*r),
                        Object { payload: Some(value), ..old(self).object_of(*r) },
                    )
                },
                Err(e) => {
                    &&& userdata_mut_error(old(self).object_of(*r)) == Some(e)
                    &&& final(self).objects() == old(self).objects()
                },
            },
    {
        if self.closed {
            return Err(Error::EngineClosed);
        }
        let o = self.refs[r.index].unwrap();
        let access = self.objects[o].access;
        if access == Access::Function || access == Access::FunctionMut {
            return Err(Error::UserDataTypeMismatch);
        }
        if self.objects[o].payload.is_none() {
            return Err(Error::UserDataDestructed);
        }
        if access == Access::ReadOnly {
            return Err(Error::UserDataBorrowMutError);
        }
        let prev = self.objects[o].payload.take();
        self.objects[o].payload = Some(value);
        Ok(prev.unwrap())
    }

    /// Detaches the payload of a data object ahead of time and hands it back.
    /// Fails with `EngineClosed` once teardown has begun.
    pub fn destroy_userdata(&mut self, r: &ValueRef) -> (res: Result<T, Error>)
        requires
            old(self).wf(),
            old(self).live(*r),
        ensures
            final(self).wf(),
            final(self).same_slots(*old(self)),
            old(self).is_closed() ==> {
                &&& res is Err
                &&& res->Err_0 == Error::EngineClosed
                &&& final(self).objects() == old(self).objects()
            },
            !old(self).is_closed() ==> match res {
                Ok(v) => {
                    &&& userdata_error(old(self).object_of(*r)) is None
                    &&& Some(v) == old(self).object_of(*r).payload
                    &&& final(self).objects() == old(self).objects().update(
                        old(self).target(*r),
                        detached(old(self).object_of(*r)),
                    )
                },
                Err(e) => {
                    &&& userdata_error(old(self).object_of(*r)) == Some(e)
                    &&& final(self).objects() == old(self).objects()
                },
            },
    {
        if self.closed {
            return Err(Error::EngineClosed);
        }
        let o = self.refs[r.index].unwrap();
        let access = self.objects[o].access;
        if access == Access::Function || access == Access::FunctionMut {
            return Err(Error::UserDataTypeMismatch);
        }
        match self.objects[o].payload.take() {
            Some(v) => Ok(v),
            None => Err(Error::UserDataDestructed),
        }
    }

    /// Enters a callback on behalf of a script call. A mutable callback is
    /// marked as running until `leave_callback`; entering it again before
    /// that is refused, as is any entry once teardown has begun.
    pub fn enter_callback(&mut self, r: &ValueRef) -> (res: Result<(), Error>)
        requires
            old(self).wf(),
            old(self).live(*r),
        ensures
            final(self).wf(),
            final(self).same_slots(*old(self)),
            old(self).is_closed() ==> {
                &&& res is Err
                &&& res->Err_0 == Error::EngineClosed
                &&& final(self).objects() == old(self).objects()
            },
            !old(self).is_closed() ==> match res {
                Ok(_) => {
                    &&& call_error(old(self).object_of(*r)) is None
                    &&& final(self).objects() == if old(self).object_of(*r).access
                        == Access::FunctionMut {
                        old(self).objects().update(
                            old(self).target(*r),
                            Object { running: true, ..old(self).object_of(*r) },
                        )
                    } else {
                        old(self).objects()
                    }
                },
                Err(e) => {
                    &&& call_error(old(self).object_of(*r)) == Some(e)
                    &&& final(self).objects() == old(self).objects()
                },
            },
    {
        if self.closed {
            return Err(Error::EngineClosed);
        }
        let o = self.refs[r.index].unwrap();
        let access = self.objects[o].access;
        if access != Access::Function && access != Access::FunctionMut {
            return Err(Error::UserDataTypeMismatch);
        }
        if self.objects[o].payload.is_none() {
            return Err(Error::CallbackDestructed);
        }
        if access == Access::FunctionMut {
            if self.objects[o].running {
                return Err(Error::RecursiveMutCallback);
            }
            self.objects[o].running = true;
        }
        Ok(())
    }

    /// The host closure of a callback that has been entered.
    /// Fails with `EngineClosed` once teardown has begun.
    pub fn callback_ref(&self, r: &ValueRef) -> (res: Result<&T, Error>)
        requires
            self.wf(),
            self.live(*r),
        ensures
            self.is_closed() ==> {
                &&& res is Err
                &&& res->Err_0 == Error::EngineClosed
            },
            !self.is_closed() ==> match res {
                Ok(v) => {
                    &&& is_function(self.object_of(*r).access)
                    &&& Some(*v) == self.object_of(*r).payload
                },
                Err(e) => {
                    &&& e == if is_function(self.object_of(*r).access) {
                        Error::CallbackDestructed
                    } else {
                        Error::UserDataTypeMismatch
                    }
                    &&& (is_function(self.object_of(*r).access) ==> self.object_of(
                        *r,
                    ).payload is None)
                },
            },
    {
        if self.closed {
            return Err(Error::EngineClosed);
        }
        let o = self.refs[r.index].unwrap();
        let obj = &self.objects[o];
        if obj.access != Access::Function && obj.access != Access::FunctionMut {
            return Err(Error::UserDataTypeMismatch);
        }
        match &obj.payload {
            Some(v) => Ok(v),
            None => Err(Error::CallbackDestructed),
        }
    }

    /// Ends a call of a callback: a mutable one may be entered again.
    pub fn leave_callback(&mut self, r: &ValueRef)
        requires
            old(self).wf(),
            old(self).live(*r),
        ensures
            final(self).wf(),
            final(self).same_slots(*old(self)),
            final(self).objects() == old(self).objects().update(
                old(self).target(*r),
                Object { running: false, ..old(self).object_of(*r) },
            ),
    {
        let o = self.refs[r.index].unwrap();
        self.objects[o].running = false;
    }

    /// Detaches the payload of object `o`, whatever its kind.
    pub fn take_payload(&mut self, o: usize) -> (p: Option<T>)
        requires
            old(self).wf(),
            o < old(self).objects().len(),
        ensures
            final(self).wf(),
            final(self).same_slots(*old(self)),
            p == old(self).objects()[o as int].payload,
            final(self).objects() == old(self).objects().update(
                o as int,
                detached(old(self).objects()[o as int]),
            ),
    {
        self.objects[o].payload.take()
    }

    /// Deregisters behaviour table `m`.
    pub fn deregister_metatable(&mut self, m: usize)
        requires
            old(self).wf(),
            m < old(self).metatables().len(),
        ensures
            final(self).wf(),
            final(self).metatables() == old(self).metatables().update(m as int, false),
            final(self).spec_id() == old(self).spec_id(),
            final(self).is_closed() == old(self).is_closed(),
            final(self).objects() == old(self).objects(),
            final(self).refs() == old(self).refs(),
            final(self).registry() == old(self).registry(),
    {
        self.metatables.set(m, false);
    }
    /// Whether `r` is a live handle of this engine.
    pub fn is_live(&self, r: &ValueRef) -> (b: bool)
        ensures
            b == self.live(*r),
    {
        r.lua == self.id && r.index < self.refs.len() && self.refs[r.index].is_some()
    }

    /// The behaviour table attached to object `o`.
    pub fn metatable_of(&self, o: usize) -> (m: Option<usize>)
        requires
            o < self.objects().len(),
        ensures
            m == self.objects()[o as int].metatable,
    {
        self.objects[o].metatable
    }
    /// Stores object `o` in a new registry slot and returns the slot.
    pub fn registry_push(&mut self, o: usize) -> (i: usize)
        requires
            old(self).wf(),
            o < old(self).objects().len(),
        ensures
            final(self).wf(),
            i == old(self).registry().len(),
            final(self).registry() == old(self).registry().push(Some(o)),
            final(self).spec_id() == old(self).spec_id(),
            final(self).is_closed() == old(self).is_closed(),
            final(self).objects() == old(self).objects(),
            final(self).refs() == old(self).refs(),
            final(self).metatables() == old(self).metatables(),
    {
        let i = self.registry.len();
        self.registry.push(Some(o));
        // A Vec is never longer than usize::MAX; reading the length records that.
        let _registry_len = self.registry.len();
        i
    }

    /// Number of registry slots ever allocated.
    pub fn registry_len(&self) -> (n: usize)
        ensures
            n == self.registry().len(),
    {
        self.registry.len()
    }

    /// The object in registry slot `i`, if the slot is in use.
    pub fn registry_get(&self, i: usize) -> (o: Option<usize>)
        requires
            i < self.registry().len(),
        ensures
            o == self.registry()[i as int],
    {
        self.registry[i]
    }

    /// Frees registry slot `i`.
    pub fn registry_free(&mut self, i: usize)
        requires
            old(self).wf(),
            i < old(self).registry().len(),
        ensures
            final(self).wf(),
            final(self).registry() == old(self).registry().update(i as int, None),
            final(self).spec_id() == old(self).spec_id(),
            final(self).is_closed() == old(self).is_closed(),
            final(self).objects() == old(self).objects(),
            final(self).refs() == old(self).refs(),
            final(self).metatables() == old(self).metatables(),
    {
        self.registry.set(i, None);
    }

    /// A fresh dropping handle to object `o`.
    pub fn push_ref(&mut self, o: usize) -> (r: ValueRef)
        requires
            old(self).wf(),
            o < old(self).objects().len(),
        ensures
            final(self).wf(),
            final(self).same_objects(*old(self)),
            final(self).refs() == old(self).refs().push(Some(o)),
            r == (ValueRef { lua: old(self).spec_id(), index: old(self).refs().len() as usize, drop: true }),
            final(self).live(r),
            final(self).target(r) == o,
    {
        let index = self.refs.len();
        self.refs.push(Some(o));
        // A Vec is never longer than usize::MAX; reading the length records that.
        let _refs_len = self.refs.len();
        ValueRef { lua: self.id, index, drop: true }
    }
    /// Number of objects ever created.
    pub fn objects_len(&self) -> (n: usize)
        ensures
            n == self.objects().len(),
    {
        self.objects.len()
    }

    /// Whether behaviour table `m` is still registered.
    pub fn metatable_registered(&self, m: usize) -> (b: bool)
        requires
            m < self.metatables().len(),
        ensures
            b == self.metatables()[m as int],
    {
        self.metatables[m]
    }
}

} // verus!
