//! Files that the schema compiler was asked to generate code for.

use vstd::prelude::*;
use crate::parser::ast::code_generator_request::requested_file::Import;
use crate::parser::ast::code_generator_request::requested_file::ImportView;

pub mod requested_file;

verus! {

/// A file for which code was requested, with the files it imports.
#[derive(Debug, PartialEq)]
pub struct RequestedFile {
    pub id: u64,
    pub filename: String,
    pub imports: Vec<Import>,
}

/// The mathematical value of a [`RequestedFile`].
pub struct RequestedFileView {
    pub id: u64,
    pub filename: Seq<char>,
    pub imports: Seq<ImportView>,
}

impl View for RequestedFile {
    type V = RequestedFileView;

    open spec fn view(&self) -> RequestedFileView {
        RequestedFileView {
            id: self.id,
            filename: self.filename@,
            imports: self.imports@.map_values(|i: Import| i@),
        }
    }
}

impl Clone for RequestedFile {
    fn clone(&self) -> (r: Self)
        ensures
            r@ == self@,
    {
        let imports = self.imports.clone();
        proof {
            assert(imports@.map_values(|x: Import| x@) =~= self.imports@.map_values(
                |x: Import| x@,
            ));
        }
        RequestedFile { id: self.id, filename: self.filename.clone(), imports }
    }
}

impl RequestedFile {
    pub fn new(id: u64, filename: String, imports: Vec<Import>) -> (r: Self)
        ensures
            r.id == id,
            r.filename == filename,
            r.imports == imports,
    {
        RequestedFile { id, filename, imports }
    }

    pub fn id(&self) -> (r: u64)
        ensures
            r == self.id,
    {
        self.id
    }

    pub fn filename(&self) -> (r: &String)
        ensures
            *r == self.filename,
    {
        &self.filename
    }

    pub fn imports(&self) -> (r: &Vec<Import>)
        ensures
            *r == self.imports,
    {
        &self.imports
    }
}

} // verus!
