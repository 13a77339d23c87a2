//! What holds of the operations on objects, whatever the object and
//! whatever the arguments.

use vstd::prelude::*;
use crate::function::Executable;
use crate::heap::Heap;
use crate::model::{Name, ObjectModel};
use crate::object::{Object, ScriptObject};
use crate::property::{AccessorState, Property};
use crate::value::{Error, Outcome, Value};

verus! {

/// Installing the getter `g` and then the setter `s` under `name`.
pub open spec fn getter_then_setter(o: ObjectModel, name: Name, g: Executable, s: Executable) -> Result<
    ObjectModel,
    Error,
> {
    match o.install_getter(name, g) {
        Ok(with_getter) => with_getter.install_setter(name, s),
        Err(e) => Err(e),
    }
}

/// Installing the setter `s` and then the getter `g` under `name`.
pub open spec fn setter_then_getter(o: ObjectModel, name: Name, g: Executable, s: Executable) -> Result<
    ObjectModel,
    Error,
> {
    match o.install_setter(name, s) {
        Ok(with_setter) => with_setter.install_getter(name, g),
        Err(e) => Err(e),
    }
}

/// A name that an object does not hold is reported as absent and reads as
/// the undefined value. A fresh object holds no name at all.
pub proof fn law_absent_name_reads_undefined(
    o: ObjectModel,
    proto: Option<Object>,
    name: Name,
    this: Object,
)
    requires
        !o.properties.contains_key(name),
    ensures
        !o.has_property(name),
        o.get_property(name, this) == Ok::<Outcome, Error>(Outcome::Immediate(Value::Undefined)),
        !ObjectModel::base(proto).has_property(name),
        ObjectModel::base(proto).get_property(name, this) == Ok::<Outcome, Error>(
            Outcome::Immediate(Value::Undefined),
        ),
{
}

/// A name stays absent while only other names are written or installed.
pub proof fn law_other_names_stay_absent(
    o: ObjectModel,
    name: Name,
    other: Name,
    value: Value,
    function: Object,
    callable: Executable,
    this: Object,
)
    requires
        !o.has_property(name),
        other != name,
    ensures
        !o.install_dynamic_property(other, value).has_property(name),
        !o.install_method(other, function).has_property(name),
        o.install_getter(other, callable) matches Ok(after) ==> !after.has_property(name),
        o.install_setter(other, callable) matches Ok(after) ==> !after.has_property(name),
        o.set_property(other, value, this) matches Ok((after, _)) ==> !after.has_property(name),
{
}

/// A stored value that was installed under a name is there and is what a
/// read of the name yields.
pub proof fn law_installed_value_is_read(o: ObjectModel, name: Name, value: Value, this: Object)
    ensures
        o.install_dynamic_property(name, value).has_property(name),
        o.install_dynamic_property(name, value).get_property(name, this) == Ok::<Outcome, Error>(
            Outcome::Immediate(value),
        ),
{
}

/// A value written to a slot within bounds is the value read from it, and
/// the other slots keep theirs.
pub proof fn law_slot_written_is_read(o: ObjectModel, id: u32, value: Value, other: u32)
    requires
        id < o.slots.len(),
    ensures
        o.set_slot(id, value) is Ok,
        o.set_slot(id, value)->Ok_0.get_slot(id) == Ok::<Value, Error>(value),
        other != id ==> o.set_slot(id, value)->Ok_0.get_slot(other) == o.get_slot(other),
{
}

/// A slot index at or beyond the number of slots is out of bounds, for
/// reading and for writing.
pub proof fn law_slot_out_of_bounds(o: ObjectModel, id: u32, value: Value)
    requires
        id >= o.slots.len(),
    ensures
        o.get_slot(id) == Err::<Value, Error>(Error::OutOfBounds(id)),
        o.set_slot(id, value) == Err::<ObjectModel, Error>(Error::OutOfBounds(id)),
{
}

/// No operation changes the number of slots, so an index that is out of
/// bounds stays out of bounds.
pub proof fn law_slot_count_is_fixed(
    o: ObjectModel,
    name: Name,
    id: u32,
    value: Value,
    function: Object,
    callable: Executable,
    this: Object,
)
    ensures
        o.set_slot(id, value) matches Ok(after) ==> after.slots.len() == o.slots.len(),
        o.set_property(name, value, this) matches Ok((after, _)) ==> after.slots == o.slots,
        o.install_method(name, function).slots == o.slots,
        o.install_dynamic_property(name, value).slots == o.slots,
        o.install_getter(name, callable) matches Ok(after) ==> after.slots == o.slots,
        o.install_setter(name, callable) matches Ok(after) ==> after.slots == o.slots,
{
}

/// The two halves of an accessor pair can be installed in either order:
/// both orders succeed on the same objects, namely where the name is absent
/// or holds an accessor pair, and they leave the same object. On that
/// object a read of the name is the call of the getter and a write is the
/// call of the setter on the value written, which changes nothing by
/// itself.
pub proof fn law_accessor_order_is_irrelevant(
    o: ObjectModel,
    name: Name,
    g: Executable,
    s: Executable,
    value: Value,
    this: Object,
)
    ensures
        getter_then_setter(o, name, g, s) == setter_then_getter(o, name, g, s),
        getter_then_setter(o, name, g, s) is Ok <==> o.accessor_slot(name) is Virtual,
        getter_then_setter(o, name, g, s) matches Ok(full) ==> {
            &&& full.properties[name] == (Property::Virtual { getter: Some(g), setter: Some(s) })
            &&& full.properties[name].accessor_state() == AccessorState::Full
            &&& full.get_property(name, this) == Ok::<Outcome, Error>(
                Outcome::ResultOf { callable: g, receiver: this, arguments: Seq::empty() },
            )
            &&& full.set_property(name, value, this) == Ok::<(ObjectModel, Outcome), Error>(
                (full, Outcome::ResultOf { callable: s, receiver: this, arguments: seq![value] }),
            )
        },
{
    if o.accessor_slot(name) is Virtual {
        let a = getter_then_setter(o, name, g, s)->Ok_0;
        let b = setter_then_getter(o, name, g, s)->Ok_0;
        assert(a.properties =~= b.properties);
        assert(a.with_property(name, a.properties[name]).properties =~= a.properties);
    }
}

/// Installing an accessor half moves the state of the pair forward and
/// never takes a half away: the other half is kept as it was. A write to
/// the name leaves the pair as it is.
pub proof fn law_accessor_halves_persist(
    o: ObjectModel,
    name: Name,
    function: Executable,
    value: Value,
    this: Object,
)
    ensures
        o.has_property(name) && o.properties[name] is Virtual ==> (o.set_property(
            name,
            value,
            this,
        ) matches Ok((after, _)) ==> after == o),
        o.install_getter(name, function) matches Ok(after) ==> {
            &&& after.properties[name].accessor_state() == o.accessor_slot(
                name,
            ).accessor_state().with_getter()
            &&& after.properties[name]->getter == Some(function)
            &&& after.properties[name]->setter == o.accessor_slot(name)->setter
        },
        o.install_setter(name, function) matches Ok(after) ==> {
            &&& after.properties[name].accessor_state() == o.accessor_slot(
                name,
            ).accessor_state().with_setter()
            &&& after.properties[name]->setter == Some(function)
            &&& after.properties[name]->getter == o.accessor_slot(name)->getter
        },
{
    if o.has_property(name) {
        assert(o.properties.insert(name, o.properties[name]) =~= o.properties);
    }
}

/// Where no setter was installed under a name, installing a getter leaves
/// writes to the name failing for want of an accessor.
pub proof fn law_getter_alone_refuses_writes(
    o: ObjectModel,
    name: Name,
    g: Executable,
    value: Value,
    this: Object,
)
    requires
        o.accessor_slot(name) is Virtual,
        o.accessor_slot(name)->setter is None,
    ensures
        o.install_getter(name, g) is Ok,
        o.install_getter(name, g)->Ok_0.set_property(name, value, this) == Err::<
            (ObjectModel, Outcome),
            Error,
        >(Error::MissingAccessor),
{
}

/// Where no getter was installed under a name, installing a setter leaves
/// reads of the name failing for want of an accessor.
pub proof fn law_setter_alone_refuses_reads(o: ObjectModel, name: Name, s: Executable, this: Object)
    requires
        o.accessor_slot(name) is Virtual,
        o.accessor_slot(name)->getter is None,
    ensures
        o.install_setter(name, s) is Ok,
        o.install_setter(name, s)->Ok_0.get_property(name, this) == Err::<Outcome, Error>(
            Error::MissingAccessor,
        ),
{
}

/// A fresh object has the prototype it was made with, or none, and holds no
/// name.
pub proof fn law_fresh_object(proto: Object, name: Name)
    ensures
        ObjectModel::base(None).proto == None::<Object>,
        ObjectModel::base(Some(proto)).proto == Some(proto),
        !ObjectModel::base(Some(proto)).has_property(name),
        !ObjectModel::base(None).has_property(name),
{
}

/// Two handles with the same identity refer to the same object: whatever a
/// change made through one of them leaves there is what the other one
/// finds, and handles with another identity find what they found before.
pub proof fn law_aliases_see_changes(
    before: &Heap,
    after: &Heap,
    writer: ScriptObject,
    reader: ScriptObject,
)
    requires
        before.contains(writer),
        after@ == before@.update(writer.index as int, writer.model(after)),
    ensures
        reader.index == writer.index ==> reader.model(after) == writer.model(after),
        reader.index != writer.index && before.contains(reader) ==> reader.model(after)
            == reader.model(before),
        after.contains(reader) == before.contains(reader),
{
}

} // verus!
