//! The arena that owns every object, and the operations that reach an
//! object through its handle.
//!
//! Reading needs the heap; changing an object needs the heap exclusively.
//! That exclusive borrow is the permit to mutate: while it is held nothing
//! else, and no collection pass, can look at the storage.

use vstd::prelude::*;
use crate::function::Executable;
use crate::model::ObjectModel;
use crate::names::QName;
use crate::object::{Object, ScriptObject};
use crate::storage::ScriptObjectData;
use crate::value::{Error, Outcome, ReturnValue, Value};

verus! {

/// The storage of all objects, addressed by handle.
///
/// Objects are only ever added, so a handle that the heap has given out
/// stays valid and keeps its meaning.
#[derive(Debug)]
pub struct Heap {
    objects: Vec<ScriptObjectData>,
}

impl View for Heap {
    type V = Seq<ObjectModel>;

    closed spec fn view(&self) -> Seq<ObjectModel> {
        Seq::new(self.objects@.len(), |i: int| self.objects@[i]@)
    }
}

impl Heap {
    /// Whether `object` refers to storage in this heap.
    pub open spec fn contains(&self, object: ScriptObject) -> bool {
        object.index < self@.len()
    }

    /// A heap without objects.
    pub fn new() -> (heap: Heap)
        ensures
            heap@ == Seq::<ObjectModel>::empty(),
    {
        let heap = Heap { objects: Vec::new() };
        assert(heap@ =~= Seq::<ObjectModel>::empty());
        heap
    }

    /// The number of objects in the heap.
    pub fn len(&self) -> (n: usize)
        ensures
            n == self@.len(),
    {
        self.objects.len()
    }

    /// Whether `object` refers to storage in this heap.
    pub fn holds(&self, object: ScriptObject) -> (b: bool)
        ensures
            b == self.contains(object),
    {
        object.index < self.objects.len()
    }

    /// Moves `data` into the heap and returns the handle to it. No other
    /// object changes.
    pub fn allocate(&mut self, data: ScriptObjectData) -> (object: ScriptObject)
        ensures
            final(self)@ == old(self)@.push(data@),
            object.index == old(self)@.len(),
            final(self).contains(object),
    {
        let index = self.objects.len();
        self.objects.push(data);
        assert(self@ =~= old(self)@.push(data@));
        ScriptObject { index }
    }
}

impl ScriptObject {
    /// The handle as an object of any kind.
    pub fn into_object(self) -> (o: Object)
        ensures
            o == Object::ScriptObject(self),
    {
        Object::ScriptObject(self)
    }

    /// The object behind this handle as `heap` holds it.
    pub open spec fn model(self, heap: &Heap) -> ObjectModel {
        heap@[self.index as int]
    }

    /// Construct a bare object with no base class.
    ///
    /// This is *not* the same thing as an object literal, which actually does
    /// have a base class: `Object`.
    pub fn bare_object(heap: &mut Heap) -> (o: Object)
        ensures
            final(heap)@ == old(heap)@.push(ObjectModel::base(None)),
            o == Object::ScriptObject(ScriptObject { index: old(heap)@.len() as usize }),
            final(heap).contains(o->ScriptObject_0),
    {
        heap.allocate(ScriptObjectData::base_new(None)).into_object()
    }

    /// Construct an object with a base class.
    pub fn object(heap: &mut Heap, proto: Object) -> (o: Object)
        ensures
            final(heap)@ == old(heap)@.push(ObjectModel::base(Some(proto))),
            o == Object::ScriptObject(ScriptObject { index: old(heap)@.len() as usize }),
            final(heap).contains(o->ScriptObject_0),
    {
        heap.allocate(ScriptObjectData::base_new(Some(proto))).into_object()
    }

    /// Reads the property `name` of the object, with the object itself as
    /// the receiver of a getter.
    pub fn get_property(self, heap: &Heap, name: &QName) -> (r: Result<ReturnValue, Error>)
        requires
            heap.contains(self),
        ensures
            match r {
                Ok(v) => self.model(heap).get_property(name@, Object::ScriptObject(self)) == Ok::<
                    Outcome,
                    Error,
                >(v@),
                Err(e) => self.model(heap).get_property(name@, Object::ScriptObject(self)) == Err::<
                    Outcome,
                    Error,
                >(e),
            },
    {
        heap.objects[self.index].get_property(name, self.into_object())
    }

    /// Writes `value` to the property `name` of the object, with the object
    /// itself as the receiver of a setter. No other object changes.
    pub fn set_property(self, heap: &mut Heap, name: &QName, value: Value) -> (r: Result<
        ReturnValue,
        Error,
    >)
        requires
            old(heap).contains(self),
        ensures
            final(heap)@ == old(heap)@.update(self.index as int, self.model(final(heap))),
            match r {
                Ok(v) => self.model(old(heap)).set_property(
                    name@,
                    value,
                    Object::ScriptObject(self),
                ) == Ok::<(ObjectModel, Outcome), Error>((self.model(final(heap)), v@)),
                Err(e) => self.model(old(heap)).set_property(
                    name@,
                    value,
                    Object::ScriptObject(self),
                ) == Err::<(ObjectModel, Outcome), Error>(e) && final(heap)@ == old(heap)@,
            },
    {
        let r = heap.objects[self.index].set_property(name, value, self.into_object());
        assert(heap@ =~= old(heap)@.update(self.index as int, self.model(heap)));
        r
    }

    /// The value in slot `id` of the object.
    pub fn get_slot(self, heap: &Heap, id: u32) -> (r: Result<Value, Error>)
        requires
            heap.contains(self),
        ensures
            r == self.model(heap).get_slot(id),
    {
        heap.objects[self.index].get_slot(id)
    }

    /// Sets slot `id` of the object. No other object changes, and an index
    /// out of bounds changes nothing at all.
    pub fn set_slot(self, heap: &mut Heap, id: u32, value: Value) -> (r: Result<(), Error>)
        requires
            old(heap).contains(self),
        ensures
            final(heap)@ == old(heap)@.update(self.index as int, self.model(final(heap))),
            match r {
                Ok(()) => self.model(old(heap)).set_slot(id, value) == Ok::<ObjectModel, Error>(
                    self.model(final(heap)),
                ),
                Err(e) => self.model(old(heap)).set_slot(id, value) == Err::<ObjectModel, Error>(e)
                    && final(heap)@ == old(heap)@,
            },
    {
        let r = heap.objects[self.index].set_slot(id, value);
        assert(heap@ =~= old(heap)@.update(self.index as int, self.model(heap)));
        r
    }

    /// Whether the object itself holds a property called `name`.
    pub fn has_property(self, heap: &Heap, name: &QName) -> (b: bool)
        requires
            heap.contains(self),
        ensures
            b == self.model(heap).has_property(name@),
    {
        heap.objects[self.index].has_property(name)
    }

    /// The prototype of the object, if it has one.
    pub fn proto(&self, heap: &Heap) -> (p: Option<Object>)
        requires
            heap.contains(*self),
        ensures
            p == self.model(heap).proto,
    {
        heap.objects[self.index].proto()
    }

    /// The identity of the storage behind this handle. Two handles give the
    /// same identity exactly when they refer to the same object.
    pub fn as_ptr(&self) -> (identity: usize)
        ensures
            identity == self.index,
    {
        self.index
    }

    /// Constructs an object with this object as its prototype.
    ///
    /// The new object has no property and no slot. The arguments play no
    /// part, and the construction always succeeds; the result leaves room
    /// for kinds of object that refuse some arguments.
    pub fn construct(&self, heap: &mut Heap, args: &[Value]) -> (r: Result<Object, Error>)
        ensures
            final(heap)@ == old(heap)@.push(ObjectModel::base(Some(Object::ScriptObject(*self)))),
            r == Ok::<Object, Error>(
                Object::ScriptObject(ScriptObject { index: old(heap)@.len() as usize }),
            ),
    {
        let this = Object::ScriptObject(*self);
        Ok(ScriptObject::object(heap, this))
    }

    /// Installs the method `function` under `name`. No other object
    /// changes.
    pub fn install_method(&mut self, heap: &mut Heap, name: QName, function: Object)
        requires
            old(heap).contains(*old(self)),
        ensures
            *final(self) == *old(self),
            final(heap)@ == old(heap)@.update(
                old(self).index as int,
                old(self).model(old(heap)).install_method(name@, function),
            ),
    {
        heap.objects[self.index].install_method(name, function);
        assert(heap@ =~= old(heap)@.update(
            self.index as int,
            self.model(old(heap)).install_method(name@, function),
        ));
    }

    /// Installs `function` as the getter of `name`. No other object
    /// changes, and a refusal changes nothing at all.
    pub fn install_getter(&mut self, heap: &mut Heap, name: QName, function: Executable) -> (r:
        Result<(), Error>)
        requires
            old(heap).contains(*old(self)),
        ensures
            *final(self) == *old(self),
            final(heap)@ == old(heap)@.update(
                old(self).index as int,
                old(self).model(final(heap)),
            ),
            match r {
                Ok(()) => old(self).model(old(heap)).install_getter(name@, function) == Ok::<
                    ObjectModel,
                    Error,
                >(old(self).model(final(heap))),
                Err(e) => old(self).model(old(heap)).install_getter(name@, function) == Err::<
                    ObjectModel,
                    Error,
                >(e) && final(heap)@ == old(heap)@,
            },
    {
        let r = heap.objects[self.index].install_getter(name, function);
        assert(heap@ =~= old(heap)@.update(self.index as int, self.model(heap)));
        r
    }

    /// Installs `function` as the setter of `name`. No other object
    /// changes, and a refusal changes nothing at all.
    pub fn install_setter(&mut self, heap: &mut Heap, name: QName, function: Executable) -> (r:
        Result<(), Error>)
        requires
            old(heap).contains(*old(self)),
        ensures
            *final(self) == *old(self),
            final(heap)@ == old(heap)@.update(
                old(self).index as int,
                old(self).model(final(heap)),
            ),
            match r {
                Ok(()) => old(self).model(old(heap)).install_setter(name@, function) == Ok::<
                    ObjectModel,
                    Error,
                >(old(self).model(final(heap))),
                Err(e) => old(self).model(old(heap)).install_setter(name@, function) == Err::<
                    ObjectModel,
                    Error,
                >(e) && final(heap)@ == old(heap)@,
            },
    {
        let r = heap.objects[self.index].install_setter(name, function);
        assert(heap@ =~= old(heap)@.update(self.index as int, self.model(heap)));
        r
    }

    /// Installs the stored value `value` under `name`. No other object
    /// changes, and this never fails.
    pub fn install_dynamic_property(&mut self, heap: &mut Heap, name: QName, value: Value) -> (r:
        Result<(), Error>)
        requires
            old(heap).contains(*old(self)),
        ensures
            *final(self) == *old(self),
            r is Ok,
            final(heap)@ == old(heap)@.update(
                old(self).index as int,
                old(self).model(old(heap)).install_dynamic_property(name@, value),
            ),
    {
        let r = heap.objects[self.index].install_dynamic_property(name, value);
        assert(heap@ =~= old(heap)@.update(
            self.index as int,
            self.model(old(heap)).install_dynamic_property(name@, value),
        ));
        r
    }
}

} // verus!
