//! Constructors and accessors of the syntax tree.

use vstd::prelude::*;
use crate::rust::ast::Enum;
use crate::rust::ast::Enumerant;
use crate::rust::ast::EnumOrigin;
use crate::rust::ast::Field;
use crate::rust::ast::FullyQualifiedName;
use crate::rust::ast::Id;
use crate::rust::ast::Impl;
use crate::rust::ast::Module;
use crate::rust::ast::ModuleElement;
use crate::rust::ast::Name;
use crate::rust::ast::RustAst;
use crate::rust::ast::SerdeTrait;
use crate::rust::ast::Struct;
use crate::rust::ast::Type;
use crate::rust::ast::TypeDef;

verus! {

impl Name {
    pub fn tokens(&self) -> (r: &Vec<String>)
        ensures
            *r == self.tokens,
    {
        &self.tokens
    }
}

impl Enum {
    pub fn new(
        id: Id,
        name: Name,
        fully_qualified_type_name: FullyQualifiedName,
        capnp_type_name: FullyQualifiedName,
        enum_origin: EnumOrigin,
        enumerants: Vec<Enumerant>,
    ) -> (r: Self)
        ensures
            r.id == id,
            r.name == name,
            r.fully_qualified_type_name == fully_qualified_type_name,
            r.capnp_type_name == capnp_type_name,
            r.enum_origin == enum_origin,
            r.enumerants == enumerants,
    {
        Enum { id, name, fully_qualified_type_name, capnp_type_name, enum_origin, enumerants }
    }

    pub fn id(&self) -> (r: Id)
        ensures
            r == self.id,
    {
        self.id
    }

    pub fn name(&self) -> (r: &Name)
        ensures
            *r == self.name,
    {
        &self.name
    }

    pub fn fully_qualified_type_name(&self) -> (r: &FullyQualifiedName)
        ensures
            *r == self.fully_qualified_type_name,
    {
        &self.fully_qualified_type_name
    }

    pub fn capnp_type_name(&self) -> (r: &FullyQualifiedName)
        ensures
            *r == self.capnp_type_name,
    {
        &self.capnp_type_name
    }

    pub fn enum_origin(&self) -> (r: EnumOrigin)
        ensures
            r == self.enum_origin,
    {
        self.enum_origin
    }

    pub fn enumerants(&self) -> (r: &Vec<Enumerant>)
        ensures
            *r == self.enumerants,
    {
        &self.enumerants
    }
}

impl Enumerant {
    pub fn new(
        name: Name,
        rust_type: Type,
    ) -> (r: Self)
        ensures
            r.name == name,
            r.rust_type == rust_type,
    {
        Enumerant { name, rust_type }
    }

    pub fn name(&self) -> (r: &Name)
        ensures
            *r == self.name,
    {
        &self.name
    }

    pub fn rust_type(&self) -> (r: &Type)
        ensures
            *r == self.rust_type,
    {
        &self.rust_type
    }
}

impl Struct {
    pub fn new(
        id: Id,
        name: Name,
        fully_qualified_type_name: FullyQualifiedName,
        capnp_type_name: FullyQualifiedName,
        fields: Vec<Field>,
    ) -> (r: Self)
        ensures
            r.id == id,
            r.name == name,
            r.fully_qualified_type_name == fully_qualified_type_name,
            r.capnp_type_name == capnp_type_name,
            r.fields == fields,
    {
        Struct { id, name, fully_qualified_type_name, capnp_type_name, fields }
    }

    pub fn id(&self) -> (r: Id)
        ensures
            r == self.id,
    {
        self.id
    }

    pub fn name(&self) -> (r: &Name)
        ensures
            *r == self.name,
    {
        &self.name
    }

    pub fn fully_qualified_type_name(&self) -> (r: &FullyQualifiedName)
        ensures
            *r == self.fully_qualified_type_name,
    {
        &self.fully_qualified_type_name
    }

    pub fn capnp_type_name(&self) -> (r: &FullyQualifiedName)
        ensures
            *r == self.capnp_type_name,
    {
        &self.capnp_type_name
    }

    pub fn fields(&self) -> (r: &Vec<Field>)
        ensures
            *r == self.fields,
    {
        &self.fields
    }
}

impl Field {
    pub fn new(
        name: Name,
        rust_type: Type,
    ) -> (r: Self)
        ensures
            r.name == name,
            r.rust_type == rust_type,
    {
        Field { name, rust_type }
    }

    pub fn name(&self) -> (r: &Name)
        ensures
            *r == self.name,
    {
        &self.name
    }

    pub fn rust_type(&self) -> (r: &Type)
        ensures
            *r == self.rust_type,
    {
        &self.rust_type
    }
}

impl Impl {
    pub fn new(
        trait_type: SerdeTrait,
        for_type: TypeDef,
    ) -> (r: Self)
        ensures
            r.trait_type == trait_type,
            r.for_type == for_type,
    {
        Impl { trait_type, for_type }
    }

    pub fn trait_type(&self) -> (r: SerdeTrait)
        ensures
            r == self.trait_type,
    {
        self.trait_type
    }

    pub fn for_type(&self) -> (r: &TypeDef)
        ensures
            *r == self.for_type,
    {
        &self.for_type
    }
}

impl Module {
    pub fn new(
        name: Name,
        elements: Vec<ModuleElement>,
    ) -> (r: Self)
        ensures
            r.name == name,
            r.elements == elements,
    {
        Module { name, elements }
    }

    pub fn name(&self) -> (r: &Name)
        ensures
            *r == self.name,
    {
        &self.name
    }

    pub fn elements(&self) -> (r: &Vec<ModuleElement>)
        ensures
            *r == self.elements,
    {
        &self.elements
    }
}

impl RustAst {
    pub fn new(
        external_crate_decls: Vec<String>,
        external_mod_decls: Vec<String>,
        defs: Vec<Module>,
    ) -> (r: Self)
        ensures
            r.external_crate_decls == external_crate_decls,
            r.external_mod_decls == external_mod_decls,
            r.defs == defs,
    {
        RustAst { external_crate_decls, external_mod_decls, defs }
    }

    pub fn external_crate_decls(&self) -> (r: &Vec<String>)
        ensures
            *r == self.external_crate_decls,
    {
        &self.external_crate_decls
    }

    pub fn external_mod_decls(&self) -> (r: &Vec<String>)
        ensures
            *r == self.external_mod_decls,
    {
        &self.external_mod_decls
    }

    pub fn defs(&self) -> (r: &Vec<Module>)
        ensures
            *r == self.defs,
    {
        &self.defs
    }
}

} // verus!
