//! Qualified property names.

use vstd::prelude::*;

verus! {

/// A property key: a namespace together with a local name.
///
/// Two names denote the same property exactly when both parts hold the same
/// characters, which is what the view compares.
#[derive(Debug)]
pub struct QName {
    pub namespace: String,
    pub name: String,
}

impl View for QName {
    type V = (Seq<char>, Seq<char>);

    open spec fn view(&self) -> (Seq<char>, Seq<char>) {
        (self.namespace@, self.name@)
    }
}

impl QName {
    /// Builds the name `namespace::name`.
    pub fn new(namespace: String, name: String) -> (q: QName)
        ensures
            q@ == (namespace@, name@),
    {
        QName { namespace, name }
    }

    /// Whether `self` and `other` denote the same property.
    pub fn same(&self, other: &QName) -> (b: bool)
        ensures
            b == (self@ == other@),
    {
        self.namespace == other.namespace && self.name == other.name
    }
}

impl Clone for QName {
    fn clone(&self) -> (q: QName)
        ensures
            q@ == self@,
    {
        QName { namespace: self.namespace.clone(), name: self.name.clone() }
    }
}

} // verus!
