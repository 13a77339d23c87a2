//! The storage of one object: its property registry, its slots and its
//! prototype link.

use vstd::prelude::*;
use crate::function::Executable;
use crate::model::{Name, ObjectModel};
use crate::names::QName;
use crate::object::Object;
use crate::property::Property;
use crate::value::{Error, Outcome, ReturnValue, Value};

verus! {

/// One entry of the registry.
#[derive(Debug)]
struct Entry {
    name: QName,
    property: Property,
}

/// No name occurs twice among `entries`.
spec fn unique_names(entries: Seq<Entry>) -> bool {
    forall|i: int, j: int|
        0 <= i < j < entries.len() ==> (#[trigger] entries[i]).name@ != (#[trigger] entries[j]).name@
}

/// Some entry of `entries` is called `name`.
spec fn holds_name(entries: Seq<Entry>, name: Name) -> bool {
    exists|i: int| 0 <= i < entries.len() && (#[trigger] entries[i]).name@ == name
}

/// Where `name` stands among `entries`, if it does.
spec fn position_of(entries: Seq<Entry>, name: Name) -> int {
    choose|i: int| 0 <= i < entries.len() && (#[trigger] entries[i]).name@ == name
}

/// The mapping from names to properties that `entries` lists.
spec fn registry_of(entries: Seq<Entry>) -> Map<Name, Property> {
    Map::new(
        |name: Name| holds_name(entries, name),
        |name: Name| entries[position_of(entries, name)].property,
    )
}

/// With unique names, the entry at `i` is the one that the registry has
/// under its name.
proof fn lemma_entry_in_registry(entries: Seq<Entry>, i: int)
    requires
        unique_names(entries),
        0 <= i < entries.len(),
    ensures
        holds_name(entries, entries[i].name@),
        position_of(entries, entries[i].name@) == i,
        registry_of(entries).contains_key(entries[i].name@),
        registry_of(entries)[entries[i].name@] == entries[i].property,
{
    let name = entries[i].name@;
    assert(holds_name(entries, name));
    let p = position_of(entries, name);
    assert(0 <= p < entries.len() && entries[p].name@ == name);
    if p < i {
        assert(entries[p].name@ != entries[i].name@);
    } else if i < p {
        assert(entries[i].name@ != entries[p].name@);
    }
}

/// Replacing the property of the entry at `i` replaces it in the registry.
proof fn lemma_registry_replace(before: Seq<Entry>, after: Seq<Entry>, i: int)
    requires
        unique_names(before),
        0 <= i < before.len(),
        after.len() == before.len(),
        forall|j: int| 0 <= j < before.len() ==> (#[trigger] after[j]).name@ == before[j].name@,
        forall|j: int|
            0 <= j < before.len() && j != i ==> (#[trigger] after[j]).property
                == before[j].property,
    ensures
        unique_names(after),
        registry_of(after) == registry_of(before).insert(before[i].name@, after[i].property),
{
    assert(unique_names(after)) by {
        assert forall|a: int, b: int| 0 <= a < b < after.len() implies (#[trigger] after[a]).name@
            != (#[trigger] after[b]).name@ by {
            assert(before[a].name@ != before[b].name@);
        }
    }
    let target = registry_of(before).insert(before[i].name@, after[i].property);
    assert forall|name: Name| registry_of(after).contains_key(name) implies #[trigger] target.contains_key(name)
        && target[name] == registry_of(after)[name] by {
        let p = position_of(after, name);
        assert(0 <= p < after.len() && after[p].name@ == name);
        lemma_entry_in_registry(after, p);
        lemma_entry_in_registry(before, p);
        assert(before[p].name@ == name);
    }
    assert forall|name: Name| target.contains_key(name) implies #[trigger] registry_of(
        after,
    ).contains_key(name) by {
        if name == before[i].name@ {
            lemma_entry_in_registry(after, i);
        } else {
            let p = position_of(before, name);
            assert(0 <= p < before.len() && before[p].name@ == name);
            lemma_entry_in_registry(after, p);
        }
    }
    assert(registry_of(after) =~= target);
}

/// Appending an entry under a new name inserts it into the registry.
proof fn lemma_registry_push(before: Seq<Entry>, entry: Entry)
    requires
        unique_names(before),
        !holds_name(before, entry.name@),
    ensures
        unique_names(before.push(entry)),
        registry_of(before.push(entry)) == registry_of(before).insert(entry.name@, entry.property),
{
    let after = before.push(entry);
    assert(unique_names(after)) by {
        assert forall|a: int, b: int| 0 <= a < b < after.len() implies (#[trigger] after[a]).name@
            != (#[trigger] after[b]).name@ by {
            if b < before.len() {
                assert(before[a].name@ != before[b].name@);
            } else {
                assert(after[a] == before[a]);
                if before[a].name@ == entry.name@ {
                    assert(holds_name(before, entry.name@));
                }
            }
        }
    }
    let target = registry_of(before).insert(entry.name@, entry.property);
    assert forall|name: Name| registry_of(after).contains_key(name) implies #[trigger] target.contains_key(name)
        && target[name] == registry_of(after)[name] by {
        let p = position_of(after, name);
        assert(0 <= p < after.len() && after[p].name@ == name);
        lemma_entry_in_registry(after, p);
        if p < before.len() {
            assert(after[p] == before[p]);
            lemma_entry_in_registry(before, p);
        }
    }
    assert forall|name: Name| target.contains_key(name) implies #[trigger] registry_of(
        after,
    ).contains_key(name) by {
        if name == entry.name@ {
            assert(after[before.len() as int] == entry);
            lemma_entry_in_registry(after, before.len() as int);
        } else {
            let p = position_of(before, name);
            assert(0 <= p < before.len() && before[p].name@ == name);
            assert(after[p] == before[p]);
            lemma_entry_in_registry(after, p);
        }
    }
    assert(registry_of(after) =~= target);
}

/// The storage behind one object.
///
/// The registry is kept as a list of entries in which no name occurs
/// twice. That is an invariant of the type: every value of it has it.
#[derive(Debug)]
pub struct ScriptObjectData {
    /// Properties stored on this object.
    values: Vec<Entry>,
    /// Slots stored on this object.
    slots: Vec<Value>,
    /// Implicit prototype (or declared base class) of this script object.
    proto: Option<Object>,
}

impl View for ScriptObjectData {
    type V = ObjectModel;

    closed spec fn view(&self) -> ObjectModel {
        ObjectModel { properties: registry_of(self.values@), slots: self.slots@, proto: self.proto }
    }
}

impl ScriptObjectData {
    /// No name is registered twice.
    #[verifier::type_invariant]
    spec fn names_are_unique(&self) -> bool {
        unique_names(self.values@)
    }

    /// Storage without properties and without slots.
    pub fn base_new(proto: Option<Object>) -> (data: ScriptObjectData)
        ensures
            data@ == ObjectModel::base(proto),
    {
        let data = ScriptObjectData { values: Vec::new(), slots: Vec::new(), proto };
        assert(registry_of(data.values@) =~= Map::empty());
        data
    }

    /// Storage without properties whose slots are laid out as `slots`. The
    /// number of slots never changes afterwards.
    pub fn with_slots(proto: Option<Object>, slots: Vec<Value>) -> (data: ScriptObjectData)
        ensures
            data@ == (ObjectModel { slots: slots@, ..ObjectModel::base(proto) }),
    {
        let data = ScriptObjectData { values: Vec::new(), slots, proto };
        assert(registry_of(data.values@) =~= Map::empty());
        data
    }

    /// Where `name` stands in the registry.
    fn find(&self, name: &QName) -> (r: Option<usize>)
        ensures
            match r {
                Some(i) => i < self.values@.len() && self.values@[i as int].name@ == name@
                    && self@.properties.contains_key(name@) && self@.properties[name@]
                    == self.values@[i as int].property,
                None => !self@.properties.contains_key(name@),
            },
    {
        proof {
            use_type_invariant(self);
        }
        let mut i: usize = 0;
        while i < self.values.len()
            invariant
                unique_names(self.values@),
                i <= self.values@.len(),
                forall|j: int| 0 <= j < i ==> (#[trigger] self.values@[j]).name@ != name@,
            decreases self.values@.len() - i,
        {
            if self.values[i].name.same(name) {
                proof {
                    lemma_entry_in_registry(self.values@, i as int);
                }
                return Some(i);
            }
            i += 1;
        }
        None
    }

    /// Puts `property` in the place of the one at position `i`.
    fn replace(&mut self, i: usize, property: Property)
        requires
            i < old(self).values@.len(),
        ensures
            final(self)@ == old(self)@.with_property(old(self).values@[i as int].name@, property),
    {
        proof {
            use_type_invariant(&*self);
        }
        let mut values: Vec<Entry> = Vec::new();
        std::mem::swap(&mut values, &mut self.values);
        values[i].property = property;
        proof {
            lemma_registry_replace(old(self).values@, values@, i as int);
        }
        self.values = values;
    }

    /// Registers `property` under `name`, in the place of what was there.
    fn put(&mut self, name: QName, property: Property)
        ensures
            final(self)@ == old(self)@.with_property(name@, property),
    {
        match self.find(&name) {
            Some(i) => self.replace(i, property),
            None => {
                let entry = Entry { name, property };
                proof {
                    use_type_invariant(&*self);
                    lemma_registry_push(self.values@, entry);
                }
                let mut values: Vec<Entry> = Vec::new();
                std::mem::swap(&mut values, &mut self.values);
                values.push(entry);
                self.values = values;
            },
        }
    }

    /// Reads the property `name` of this object on behalf of `this`.
    ///
    /// Only the object itself is consulted, never its prototype. A name
    /// that it does not hold reads as the undefined value, which is no
    /// error. An accessor pair answers with the call of its getter that the
    /// interpreter has to make, and fails where it has none.
    pub fn get_property(&self, name: &QName, this: Object) -> (r: Result<ReturnValue, Error>)
        ensures
            match r {
                Ok(v) => self@.get_property(name@, this) == Ok::<Outcome, Error>(v@),
                Err(e) => self@.get_property(name@, this) == Err::<Outcome, Error>(e),
            },
    {
        match self.find(name) {
            Some(i) => self.values[i].property.get(this),
            None => Ok(ReturnValue::immediate(Value::Undefined)),
        }
    }

    /// Writes `value` to the property `name` on behalf of `this`.
    ///
    /// A name that the object does not hold is created as a stored value.
    /// A stored value or a method is replaced by the stored `value`. An
    /// accessor pair is left alone and answers with the call of its setter
    /// that the interpreter has to make; without a setter the write fails
    /// and the object is unchanged.
    pub fn set_property(&mut self, name: &QName, value: Value, this: Object) -> (r: Result<
        ReturnValue,
        Error,
    >)
        ensures
            match r {
                Ok(v) => old(self)@.set_property(name@, value, this) == Ok::<
                    (ObjectModel, Outcome),
                    Error,
                >((final(self)@, v@)),
                Err(e) => old(self)@.set_property(name@, value, this) == Err::<
                    (ObjectModel, Outcome),
                    Error,
                >(e) && final(self)@ == old(self)@,
            },
    {
        match self.find(name) {
            Some(i) => {
                let mut property = self.values[i].property;
                match property.set(this, value) {
                    Ok(v) => {
                        self.replace(i, property);
                        Ok(v)
                    },
                    Err(e) => Err(e),
                }
            },
            None => {
                self.put(name.clone(), Property::new_dynamic_property(value));
                Ok(ReturnValue::immediate(Value::Undefined))
            },
        }
    }

    /// The value in slot `id`. An index at or beyond the number of slots is
    /// out of bounds.
    pub fn get_slot(&self, id: u32) -> (r: Result<Value, Error>)
        ensures
            r == self@.get_slot(id),
    {
        let i = id as usize;
        if i < self.slots.len() {
            Ok(self.slots[i])
        } else {
            Err(Error::OutOfBounds(id))
        }
    }

    /// Set a slot by its index. An index at or beyond the number of slots
    /// is out of bounds and changes nothing: slots are never added.
    pub fn set_slot(&mut self, id: u32, value: Value) -> (r: Result<(), Error>)
        ensures
            match r {
                Ok(()) => old(self)@.set_slot(id, value) == Ok::<ObjectModel, Error>(final(self)@),
                Err(e) => old(self)@.set_slot(id, value) == Err::<ObjectModel, Error>(e)
                    && final(self)@ == old(self)@,
            },
    {
        proof {
            use_type_invariant(&*self);
        }
        let i = id as usize;
        if i < self.slots.len() {
            self.slots[i] = value;
            Ok(())
        } else {
            Err(Error::OutOfBounds(id))
        }
    }

    /// Whether the object itself holds a property called `name`. The
    /// prototype is not consulted.
    pub fn has_property(&self, name: &QName) -> (b: bool)
        ensures
            b == self@.has_property(name@),
    {
        self.find(name).is_some()
    }

    /// The prototype of this object, if it has one.
    pub fn proto(&self) -> (p: Option<Object>)
        ensures
            p == self@.proto,
    {
        self.proto
    }

    /// The number of slots.
    pub fn slot_count(&self) -> (n: usize)
        ensures
            n == self@.slots.len(),
    {
        self.slots.len()
    }

    /// Install a method into the object, in the place of whatever the name
    /// held.
    pub fn install_method(&mut self, name: QName, function: Object)
        ensures
            final(self)@ == old(self)@.install_method(name@, function),
    {
        self.put(name, Property::new_method(function));
    }

    /// Install a getter into the object.
    ///
    /// The two halves of an accessor pair arrive one by one and in either
    /// order. A name that the object does not hold becomes an accessor pair
    /// with only the getter; an accessor pair gets the getter and keeps its
    /// setter. A name that holds a stored value or a method refuses, and the
    /// object is unchanged.
    pub fn install_getter(&mut self, name: QName, function: Executable) -> (r: Result<(), Error>)
        ensures
            match r {
                Ok(()) => old(self)@.install_getter(name@, function) == Ok::<ObjectModel, Error>(
                    final(self)@,
                ),
                Err(e) => old(self)@.install_getter(name@, function) == Err::<ObjectModel, Error>(e)
                    && final(self)@ == old(self)@,
            },
    {
        let mut property = match self.find(&name) {
            Some(i) => self.values[i].property,
            None => Property::new_virtual(),
        };
        match property.install_virtual_getter(function) {
            Ok(()) => {
                self.put(name, property);
                Ok(())
            },
            Err(e) => Err(e),
        }
    }

    /// Install a setter into the object.
    ///
    /// The two halves of an accessor pair arrive one by one and in either
    /// order. A name that the object does not hold becomes an accessor pair
    /// with only the setter; an accessor pair gets the setter and keeps its
    /// getter. A name that holds a stored value or a method refuses, and the
    /// object is unchanged.
    pub fn install_setter(&mut self, name: QName, function: Executable) -> (r: Result<(), Error>)
        ensures
            match r {
                Ok(()) => old(self)@.install_setter(name@, function) == Ok::<ObjectModel, Error>(
                    final(self)@,
                ),
                Err(e) => old(self)@.install_setter(name@, function) == Err::<ObjectModel, Error>(e)
                    && final(self)@ == old(self)@,
            },
    {
        let mut property = match self.find(&name) {
            Some(i) => self.values[i].property,
            None => Property::new_virtual(),
        };
        match property.install_virtual_setter(function) {
            Ok(()) => {
                self.put(name, property);
                Ok(())
            },
            Err(e) => Err(e),
        }
    }

    /// Installs the stored value `value` under `name`, in the place of
    /// whatever the name held. This never fails.
    pub fn install_dynamic_property(&mut self, name: QName, value: Value) -> (r: Result<(), Error>)
        ensures
            r is Ok,
            final(self)@ == old(self)@.install_dynamic_property(name@, value),
    {
        self.put(name, Property::new_dynamic_property(value));
        Ok(())
    }
}

} // verus!
