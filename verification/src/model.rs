//! The mathematical model of one object: what each operation on its storage
//! means, independent of how the storage is laid out.

use vstd::prelude::*;
use crate::function::Executable;
use crate::object::Object;
use crate::property::Property;
use crate::value::{Error, Outcome, Value};

verus! {

/// A qualified name as the model sees it: the characters of its namespace
/// and of its local name.
pub type Name = (Seq<char>, Seq<char>);

/// An object as a value: its named properties, its slots and its prototype.
pub struct ObjectModel {
    pub properties: Map<Name, Property>,
    pub slots: Seq<Value>,
    pub proto: Option<Object>,
}

impl ObjectModel {
    /// A fresh object: no property, no slot, the given prototype.
    pub open spec fn base(proto: Option<Object>) -> ObjectModel {
        ObjectModel { properties: Map::empty(), slots: Seq::empty(), proto }
    }

    /// The object with `property` under `name`, whatever was there before.
    pub open spec fn with_property(self, name: Name, property: Property) -> ObjectModel {
        ObjectModel { properties: self.properties.insert(name, property), ..self }
    }

    /// Whether the object itself holds a property called `name`.
    pub open spec fn has_property(self, name: Name) -> bool {
        self.properties.contains_key(name)
    }

    /// What reading `name` on behalf of `this` yields. A name that the
    /// object does not hold reads as the undefined value.
    pub open spec fn get_property(self, name: Name, this: Object) -> Result<Outcome, Error> {
        if self.properties.contains_key(name) {
            self.properties[name].read(this)
        } else {
            Ok(Outcome::Immediate(Value::Undefined))
        }
    }

    /// The object after `value` was written to `name` on behalf of `this`,
    /// and what the writer gets back. A name that the object does not hold
    /// is created as a stored value.
    pub open spec fn set_property(self, name: Name, value: Value, this: Object) -> Result<
        (ObjectModel, Outcome),
        Error,
    > {
        if self.properties.contains_key(name) {
            match self.properties[name].written(this, value) {
                Ok((property, outcome)) => Ok((self.with_property(name, property), outcome)),
                Err(e) => Err(e),
            }
        } else {
            Ok(
                (
                    self.with_property(name, Property::Dynamic(value)),
                    Outcome::Immediate(Value::Undefined),
                ),
            )
        }
    }

    /// The value in slot `id`, if there is such a slot.
    pub open spec fn get_slot(self, id: u32) -> Result<Value, Error> {
        if id < self.slots.len() {
            Ok(self.slots[id as int])
        } else {
            Err(Error::OutOfBounds(id))
        }
    }

    /// The object with `value` in slot `id`, if there is such a slot.
    pub open spec fn set_slot(self, id: u32, value: Value) -> Result<ObjectModel, Error> {
        if id < self.slots.len() {
            Ok(ObjectModel { slots: self.slots.update(id as int, value), ..self })
        } else {
            Err(Error::OutOfBounds(id))
        }
    }

    /// The object with the method `function` under `name`.
    pub open spec fn install_method(self, name: Name, function: Object) -> ObjectModel {
        self.with_property(name, Property::Method(function))
    }

    /// The object with the stored value `value` under `name`.
    pub open spec fn install_dynamic_property(self, name: Name, value: Value) -> ObjectModel {
        self.with_property(name, Property::Dynamic(value))
    }

    /// What `name` holds when an accessor half is about to be installed: the
    /// property that is there, or an accessor pair with no half yet.
    pub open spec fn accessor_slot(self, name: Name) -> Property {
        if self.properties.contains_key(name) {
            self.properties[name]
        } else {
            Property::Virtual { getter: None, setter: None }
        }
    }

    /// The object with `function` as the getter of `name`.
    pub open spec fn install_getter(self, name: Name, function: Executable) -> Result<
        ObjectModel,
        Error,
    > {
        match self.accessor_slot(name).getter_installed(function) {
            Ok(property) => Ok(self.with_property(name, property)),
            Err(e) => Err(e),
        }
    }

    /// The object with `function` as the setter of `name`.
    pub open spec fn install_setter(self, name: Name, function: Executable) -> Result<
        ObjectModel,
        Error,
    > {
        match self.accessor_slot(name).setter_installed(function) {
            Ok(property) => Ok(self.with_property(name, property)),
            Err(e) => Err(e),
        }
    }
}

} // verus!
