//! Callables, as far as object storage needs to know them.

use vstd::prelude::*;

verus! {

/// The identity of a piece of code that the interpreter can run.
///
/// Object storage never runs code. It keeps these identities for accessors
/// and hands them back, inside a [`crate::value::ReturnValue`], when one
/// has to be run.
#[derive(Clone, Copy, Debug, PartialEq, Eq, Structural)]
pub struct Executable {
    pub id: u32,
}

} // verus!
