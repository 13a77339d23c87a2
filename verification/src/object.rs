//! Handles to objects that live in a [`crate::heap::Heap`].

use vstd::prelude::*;

verus! {

/// A handle to a script object: the position of its storage in the heap.
///
/// Handles are plain copyable values. Two handles alias the same storage
/// exactly when they are equal.
#[derive(Clone, Copy, Debug, PartialEq, Eq, Structural)]
pub struct ScriptObject {
    pub index: usize,
}

/// A handle to an object of any kind.
#[derive(Clone, Copy, Debug, PartialEq, Eq, Structural)]
pub enum Object {
    ScriptObject(ScriptObject),
}

impl Object {
    /// The script object that this handle refers to.
    pub fn as_script_object(self) -> (s: ScriptObject)
        ensures
            self == Object::ScriptObject(s),
    {
        match self {
            Object::ScriptObject(s) => s,
        }
    }
}

} // verus!
