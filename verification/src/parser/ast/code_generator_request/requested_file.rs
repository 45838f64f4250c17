//! Imports of a requested file.

use vstd::prelude::*;

verus! {

/// A file that a requested file imports.
#[derive(Debug, PartialEq)]
pub struct Import {
    pub id: u64,
    pub name: String,
}

/// The mathematical value of an [`Import`].
pub struct ImportView {
    pub id: u64,
    pub name: Seq<char>,
}

impl View for Import {
    type V = ImportView;

    open spec fn view(&self) -> ImportView {
        ImportView { id: self.id, name: self.name@ }
    }
}

impl Clone for Import {
    fn clone(&self) -> (r: Self)
        ensures
            r@ == self@,
    {
        Import { id: self.id, name: self.name.clone() }
    }
}

impl Import {
    pub fn new(id: u64, name: String) -> (r: Self)
        ensures
            r.id == id,
            r.name == name,
    {
        Import { id, name }
    }

    pub fn id(&self) -> (r: u64)
        ensures
            r == self.id,
    {
        self.id
    }

    pub fn name(&self) -> (r: &String)
        ensures
            *r == self.name,
    {
        &self.name
    }
}

} // verus!
