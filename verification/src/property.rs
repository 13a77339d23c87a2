//! What one named property of an object holds, and how it answers reads,
//! writes and the installation of accessors.

use vstd::prelude::*;
use crate::function::Executable;
use crate::object::Object;
use crate::value::{Error, Outcome, ReturnValue, Value};

verus! {

/// The content of one named property.
#[derive(Clone, Copy, Debug, PartialEq, Eq, Structural)]
pub enum Property {
    /// A stored value.
    Dynamic(Value),
    /// A function object installed as a method.
    Method(Object),
    /// An accessor pair. Either half may still be missing.
    Virtual { getter: Option<Executable>, setter: Option<Executable> },
}

/// How far the installation of an accessor pair has come.
#[derive(Clone, Copy, Debug, PartialEq, Eq, Structural)]
pub enum AccessorState {
    Absent,
    GetterOnly,
    SetterOnly,
    Full,
}

impl AccessorState {
    /// The state after a getter has been installed.
    pub open spec fn with_getter(self) -> AccessorState {
        match self {
            AccessorState::Absent | AccessorState::GetterOnly => AccessorState::GetterOnly,
            AccessorState::SetterOnly | AccessorState::Full => AccessorState::Full,
        }
    }

    /// The state after a setter has been installed.
    pub open spec fn with_setter(self) -> AccessorState {
        match self {
            AccessorState::Absent | AccessorState::SetterOnly => AccessorState::SetterOnly,
            AccessorState::GetterOnly | AccessorState::Full => AccessorState::Full,
        }
    }
}

impl Property {
    /// Which halves of an accessor pair are in place. A stored value and a
    /// method have none.
    pub open spec fn accessor_state(self) -> AccessorState {
        match self {
            Property::Virtual { getter: Some(_), setter: Some(_) } => AccessorState::Full,
            Property::Virtual { getter: Some(_), setter: None } => AccessorState::GetterOnly,
            Property::Virtual { getter: None, setter: Some(_) } => AccessorState::SetterOnly,
            _ => AccessorState::Absent,
        }
    }

    /// What a read by `this` yields.
    pub open spec fn read(self, this: Object) -> Result<Outcome, Error> {
        match self {
            Property::Dynamic(value) => Ok(Outcome::Immediate(value)),
            Property::Method(function) => Ok(
                Outcome::Immediate(Value::BoundMethod { function, receiver: this }),
            ),
            Property::Virtual { getter: Some(g), .. } => Ok(
                Outcome::ResultOf { callable: g, receiver: this, arguments: Seq::empty() },
            ),
            Property::Virtual { getter: None, .. } => Err(Error::MissingAccessor),
        }
    }

    /// What a write of `value` by `this` leaves in the property, and what
    /// the writer gets back: nothing more to do, or the setter to run.
    pub open spec fn written(self, this: Object, value: Value) -> Result<(Property, Outcome), Error> {
        match self {
            Property::Dynamic(_) | Property::Method(_) => Ok(
                (Property::Dynamic(value), Outcome::Immediate(Value::Undefined)),
            ),
            Property::Virtual { setter: Some(s), .. } => Ok(
                (self, Outcome::ResultOf { callable: s, receiver: this, arguments: seq![value] }),
            ),
            Property::Virtual { setter: None, .. } => Err(Error::MissingAccessor),
        }
    }

    /// The property with `function` as its getter. Only an accessor pair
    /// takes one, and it keeps its setter.
    pub open spec fn getter_installed(self, function: Executable) -> Result<Property, Error> {
        match self {
            Property::Virtual { setter, .. } => Ok(
                Property::Virtual { getter: Some(function), setter },
            ),
            _ => Err(Error::NotVirtual),
        }
    }

    /// The property with `function` as its setter. Only an accessor pair
    /// takes one, and it keeps its getter.
    pub open spec fn setter_installed(self, function: Executable) -> Result<Property, Error> {
        match self {
            Property::Virtual { getter, .. } => Ok(
                Property::Virtual { getter, setter: Some(function) },
            ),
            _ => Err(Error::NotVirtual),
        }
    }

    /// A property that stores `value`.
    pub fn new_dynamic_property(value: Value) -> (p: Property)
        ensures
            p == Property::Dynamic(value),
    {
        Property::Dynamic(value)
    }

    /// A property that holds the method `function`.
    pub fn new_method(function: Object) -> (p: Property)
        ensures
            p == Property::Method(function),
    {
        Property::Method(function)
    }

    /// An accessor pair with neither half installed.
    pub fn new_virtual() -> (p: Property)
        ensures
            p == (Property::Virtual { getter: None, setter: None }),
            p.accessor_state() == AccessorState::Absent,
    {
        Property::Virtual { getter: None, setter: None }
    }

    /// Reads the property on behalf of `this`.
    ///
    /// A stored value comes back at once, a method comes back bound to
    /// `this`, and an accessor pair answers with the call of its getter that
    /// the interpreter has to make. Without a getter the read fails.
    pub fn get(&self, this: Object) -> (r: Result<ReturnValue, Error>)
        ensures
            match r {
                Ok(v) => self.read(this) == Ok::<Outcome, Error>(v@),
                Err(e) => self.read(this) == Err::<Outcome, Error>(e),
            },
    {
        match *self {
            Property::Dynamic(value) => Ok(ReturnValue::immediate(value)),
            Property::Method(function) => Ok(
                ReturnValue::immediate(Value::BoundMethod { function, receiver: this }),
            ),
            Property::Virtual { getter: Some(g), .. } => Ok(ReturnValue::read_through(g, this)),
            Property::Virtual { getter: None, .. } => Err(Error::MissingAccessor),
        }
    }

    /// Writes `value` to the property on behalf of `this`.
    ///
    /// A stored value is overwritten, and so is a method, which becomes a
    /// stored value. An accessor pair is left as it is and answers with the
    /// call of its setter on `value` that the interpreter has to make.
    /// Without a setter the write fails and nothing changes.
    pub fn set(&mut self, this: Object, value: Value) -> (r: Result<ReturnValue, Error>)
        ensures
            match r {
                Ok(v) => old(self).written(this, value) == Ok::<(Property, Outcome), Error>(
                    (*final(self), v@),
                ),
                Err(e) => old(self).written(this, value) == Err::<(Property, Outcome), Error>(e)
                    && *final(self) == *old(self),
            },
    {
        match *self {
            Property::Dynamic(_) | Property::Method(_) => {
                *self = Property::Dynamic(value);
                Ok(ReturnValue::immediate(Value::Undefined))
            },
            Property::Virtual { setter: Some(s), .. } => Ok(
                ReturnValue::write_through(s, this, value),
            ),
            Property::Virtual { setter: None, .. } => Err(Error::MissingAccessor),
        }
    }

    /// Installs `function` as the getter of an accessor pair, keeping the
    /// setter. A stored value or a method refuses it and stays as it is.
    pub fn install_virtual_getter(&mut self, function: Executable) -> (r: Result<(), Error>)
        ensures
            match r {
                Ok(()) => old(self).getter_installed(function) == Ok::<Property, Error>(
                    *final(self),
                ),
                Err(e) => old(self).getter_installed(function) == Err::<Property, Error>(e)
                    && *final(self) == *old(self),
            },
            r is Ok ==> final(self).accessor_state() == old(self).accessor_state().with_getter(),
    {
        match *self {
            Property::Virtual { setter, .. } => {
                *self = Property::Virtual { getter: Some(function), setter };
                Ok(())
            },
            _ => Err(Error::NotVirtual),
        }
    }

    /// Installs `function` as the setter of an accessor pair, keeping the
    /// getter. A stored value or a method refuses it and stays as it is.
    pub fn install_virtual_setter(&mut self, function: Executable) -> (r: Result<(), Error>)
        ensures
            match r {
                Ok(()) => old(self).setter_installed(function) == Ok::<Property, Error>(
                    *final(self),
                ),
                Err(e) => old(self).setter_installed(function) == Err::<Property, Error>(e)
                    && *final(self) == *old(self),
            },
            r is Ok ==> final(self).accessor_state() == old(self).accessor_state().with_setter(),
    {
        match *self {
            Property::Virtual { getter, .. } => {
                *self = Property::Virtual { getter, setter: Some(function) };
                Ok(())
            },
            _ => Err(Error::NotVirtual),
        }
    }
}

} // verus!
