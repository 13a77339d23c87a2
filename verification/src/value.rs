//! Runtime values, deferred results and errors.

use vstd::prelude::*;
use vstd::string::*;
use crate::function::Executable;
use crate::object::Object;

verus! {

/// A value of the scripting language.
#[derive(Clone, Copy, Debug, PartialEq, Eq, Structural)]
pub enum Value {
    /// The distinguished "no value".
    Undefined,
    Null,
    Bool(bool),
    Integer(i32),
    Unsigned(u32),
    Object(Object),
    /// A method read off an object: the function together with the object
    /// it was read from.
    BoundMethod { function: Object, receiver: Object },
}

/// Why an operation on an object failed.
#[derive(Clone, Copy, Debug, PartialEq, Eq, Structural)]
pub enum Error {
    /// A slot index at or beyond the number of slots. Holds the index.
    OutOfBounds(u32),
    /// A read of an accessor without getter, or a write to one without
    /// setter.
    MissingAccessor,
    /// An accessor half was installed under a name that already holds a
    /// stored value or a method.
    NotVirtual,
    /// Code that the interpreter ran for an accessor raised the value held
    /// here.
    Raised(Value),
}

impl Error {
    /// What [`Error::message`] says of this error, given the decimal text
    /// of the slot index where the error holds one.
    pub open spec fn message_text(self, index: Seq<char>) -> Seq<char> {
        match self {
            Error::OutOfBounds(_) => "Slot index "@ + index + " out of bounds!"@,
            Error::MissingAccessor => "Property lacks the accessor for this access"@,
            Error::NotVirtual => "Not a virtual property"@,
            Error::Raised(_) => "Error raised by accessor code"@,
        }
    }

    /// A description of the error for a human reader. For a slot out of
    /// bounds it holds the index, written as the standard library prints a
    /// `u32`.
    pub fn message(&self) -> (m: String)
        ensures
            match *self {
                Error::OutOfBounds(id) => exists|digits: String|
                    #[trigger] to_string_from_display_ensures::<u32>(&id, digits) && m@
                        == self.message_text(digits@),
                _ => m@ == self.message_text(Seq::empty()),
            },
    {
        match *self {
            Error::OutOfBounds(id) => {
                let digits = id.to_string();
                String::from_str("Slot index ").concat(digits.as_str()).concat(" out of bounds!")
            },
            Error::MissingAccessor => String::from_str(
                "Property lacks the accessor for this access",
            ),
            Error::NotVirtual => String::from_str("Not a virtual property"),
            Error::Raised(_) => String::from_str("Error raised by accessor code"),
        }
    }
}

/// The outcome of an operation that may need code to be run.
#[derive(Debug, PartialEq, Eq)]
pub enum ReturnValue {
    /// The value is known now.
    Immediate(Value),
    /// The value is whatever `callable` returns when the interpreter runs
    /// it on `receiver` with `arguments`.
    ResultOf { callable: Executable, receiver: Object, arguments: Vec<Value> },
}

/// What a [`ReturnValue`] stands for, with the arguments as a sequence.
pub enum Outcome {
    Immediate(Value),
    ResultOf { callable: Executable, receiver: Object, arguments: Seq<Value> },
}

impl View for ReturnValue {
    type V = Outcome;

    open spec fn view(&self) -> Outcome {
        match *self {
            ReturnValue::Immediate(v) => Outcome::Immediate(v),
            ReturnValue::ResultOf { callable, receiver, arguments } => Outcome::ResultOf {
                callable,
                receiver,
                arguments: arguments@,
            },
        }
    }
}

impl ReturnValue {
    /// A result that needs no code to be run.
    pub fn immediate(value: Value) -> (r: ReturnValue)
        ensures
            r@ == Outcome::Immediate(value),
    {
        ReturnValue::Immediate(value)
    }

    /// The deferred read through `getter`: a call without arguments.
    pub fn read_through(getter: Executable, receiver: Object) -> (r: ReturnValue)
        ensures
            r@ == (Outcome::ResultOf { callable: getter, receiver, arguments: Seq::empty() }),
    {
        ReturnValue::ResultOf { callable: getter, receiver, arguments: Vec::new() }
    }

    /// The deferred write through `setter`: a call on the one value.
    pub fn write_through(setter: Executable, receiver: Object, value: Value) -> (r: ReturnValue)
        ensures
            r@ == (Outcome::ResultOf { callable: setter, receiver, arguments: seq![value] }),
    {
        let mut arguments: Vec<Value> = Vec::new();
        arguments.push(value);
        ReturnValue::ResultOf { callable: setter, receiver, arguments }
    }

    /// What the result comes to once the interpreter has run the call that
    /// it may stand for.
    ///
    /// A value that is already known is the result, and `ran` plays no part.
    /// Otherwise `ran` is what the call gave: its value, or the error it
    /// raised, handed on as it is.
    pub open spec fn resolved(self, ran: Result<Value, Error>) -> Result<Value, Error> {
        match self {
            ReturnValue::Immediate(value) => Ok(value),
            ReturnValue::ResultOf { .. } => ran,
        }
    }

    /// Settles the result with what the call gave, as [`Self::resolved`]
    /// says.
    pub fn resolve(self, ran: Result<Value, Error>) -> (r: Result<Value, Error>)
        ensures
            r == self.resolved(ran),
    {
        match self {
            ReturnValue::Immediate(value) => Ok(value),
            ReturnValue::ResultOf { .. } => ran,
        }
    }

    /// Whether the value is already known.
    pub fn is_immediate(&self) -> (b: bool)
        ensures
            b == (self@ is Immediate),
    {
        match self {
            ReturnValue::Immediate(_) => true,
            ReturnValue::ResultOf { .. } => false,
        }
    }
}

} // verus!
