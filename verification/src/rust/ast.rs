//! The syntax tree of the generated program: names, types, the declarations of
//! structs and enums, and the modules that hold them.
//!
//! Every type has a mathematical value, its view, built from sequences of
//! characters; the contracts of the passes speak of views only.

use vstd::prelude::*;

verus! {

/// Identifies a declared type; the key that joins a schema node to its type.
pub type Id = u64;

/// The value of a [`Name`]: its word tokens, in order.
pub type NameView = Seq<Seq<char>>;

/// The value of a [`FullyQualifiedName`]: the names of a module path and, last,
/// of a type.
pub type PathView = Seq<NameView>;

/// An identifier, held as word tokens so that it can be written in either case.
#[derive(Debug, PartialEq)]
pub struct Name {
    pub tokens: Vec<String>,
}

/// A module path that ends in a type's name.
#[derive(Debug, PartialEq)]
pub struct FullyQualifiedName {
    pub names: Vec<Name>,
}

/// The schema construct that an [`Enum`] stands for.
#[derive(Clone, Copy, Debug, PartialEq, Eq, Structural)]
pub enum EnumOrigin {
    /// A schema enum.
    Enum,
    /// A struct all of whose fields form one union.
    Struct,
    /// The union part of a struct that also has plain fields.
    WhichForPartialUnion,
}

/// The type of a field or of an enumerant's payload.
#[derive(Debug, PartialEq)]
pub enum Type {
    Unit,
    Bool,
    Int8,
    Int16,
    Int32,
    Int64,
    Uint8,
    Uint16,
    Uint32,
    Uint64,
    Float32,
    Float64,
    String,
    List(Box<Type>),
    /// A declared type, known by its id only.
    RefId(Id),
    /// A declared type, with its path and its declaration.
    RefName(FullyQualifiedName, TypeDef),
}

/// The value of a [`Type`].
pub enum TypeView {
    Unit,
    Bool,
    Int8,
    Int16,
    Int32,
    Int64,
    Uint8,
    Uint16,
    Uint32,
    Uint64,
    Float32,
    Float64,
    String,
    List(Box<TypeView>),
    RefId(Id),
    RefName(PathView, TypeDefView),
}

/// An enum of the generated program.
#[derive(Debug, PartialEq)]
pub struct Enum {
    pub id: Id,
    pub name: Name,
    pub fully_qualified_type_name: FullyQualifiedName,
    /// The path of the schema's own type for this enum.
    pub capnp_type_name: FullyQualifiedName,
    pub enum_origin: EnumOrigin,
    pub enumerants: Vec<Enumerant>,
}

/// The value of an [`Enum`].
pub struct EnumView {
    pub id: Id,
    pub name: NameView,
    pub fully_qualified_type_name: PathView,
    pub capnp_type_name: PathView,
    pub enum_origin: EnumOrigin,
    pub enumerants: Seq<EnumerantView>,
}

/// A variant of an [`Enum`]; `rust_type` is `Unit` for a plain tag.
#[derive(Debug, PartialEq)]
pub struct Enumerant {
    pub name: Name,
    pub rust_type: Type,
}

/// The value of an [`Enumerant`].
pub struct EnumerantView {
    pub name: NameView,
    pub rust_type: TypeView,
}

/// A struct of the generated program.
#[derive(Debug, PartialEq)]
pub struct Struct {
    pub id: Id,
    pub name: Name,
    pub fully_qualified_type_name: FullyQualifiedName,
    /// The path of the schema's own type for this struct.
    pub capnp_type_name: FullyQualifiedName,
    pub fields: Vec<Field>,
}

/// The value of a [`Struct`].
pub struct StructView {
    pub id: Id,
    pub name: NameView,
    pub fully_qualified_type_name: PathView,
    pub capnp_type_name: PathView,
    pub fields: Seq<FieldView>,
}

/// A field of a [`Struct`].
#[derive(Debug, PartialEq)]
pub struct Field {
    pub name: Name,
    pub rust_type: Type,
}

/// The value of a [`Field`].
pub struct FieldView {
    pub name: NameView,
    pub rust_type: TypeView,
}

/// A declared type.
#[derive(Debug, PartialEq)]
pub enum TypeDef {
    Enum(Enum),
    Struct(Struct),
}

/// The value of a [`TypeDef`].
pub enum TypeDefView {
    Enum(EnumView),
    Struct(StructView),
}

/// The two conversions between a generated type and the schema's own type.
#[derive(Clone, Copy, Debug, PartialEq, Eq, Structural)]
pub enum SerdeTrait {
    ReadFrom,
    WriteTo,
}

/// The implementation of one conversion for one declared type.
#[derive(Debug, PartialEq)]
pub struct Impl {
    pub trait_type: SerdeTrait,
    pub for_type: TypeDef,
}

/// The value of an [`Impl`].
pub struct ImplView {
    pub trait_type: SerdeTrait,
    pub for_type: TypeDefView,
}

/// What a module may hold.
#[derive(Debug, PartialEq)]
pub enum ModuleElement {
    UseDecl(String),
    TypeDef(TypeDef),
    TraitDef(SerdeTrait),
    Module(Module),
    Impl(Impl),
}

/// The value of a [`ModuleElement`].
pub enum ModuleElementView {
    UseDecl(Seq<char>),
    TypeDef(TypeDefView),
    TraitDef(SerdeTrait),
    Module(ModuleView),
    Impl(ImplView),
}

/// A module of the generated program.
#[derive(Debug, PartialEq)]
pub struct Module {
    pub name: Name,
    pub elements: Vec<ModuleElement>,
}

/// The value of a [`Module`].
pub struct ModuleView {
    pub name: NameView,
    pub elements: Seq<ModuleElementView>,
}

/// One generated file: the crates and sibling modules it declares, and one
/// module for each schema file.
#[derive(Debug, PartialEq)]
pub struct RustAst {
    pub external_crate_decls: Vec<String>,
    pub external_mod_decls: Vec<String>,
    pub defs: Vec<Module>,
}

/// The value of a [`RustAst`].
pub struct RustAstView {
    pub external_crate_decls: Seq<Seq<char>>,
    pub external_mod_decls: Seq<Seq<char>>,
    pub defs: Seq<ModuleView>,
}

//
// Views
//

/// The values of the names in `names`.
pub open spec fn path_view(names: Seq<Name>) -> PathView {
    names.map_values(|n: Name| n@)
}

pub open spec fn type_view(t: Type) -> TypeView
    decreases t,
{
    match t {
        Type::Unit => TypeView::Unit,
        Type::Bool => TypeView::Bool,
        Type::Int8 => TypeView::Int8,
        Type::Int16 => TypeView::Int16,
        Type::Int32 => TypeView::Int32,
        Type::Int64 => TypeView::Int64,
        Type::Uint8 => TypeView::Uint8,
        Type::Uint16 => TypeView::Uint16,
        Type::Uint32 => TypeView::Uint32,
        Type::Uint64 => TypeView::Uint64,
        Type::Float32 => TypeView::Float32,
        Type::Float64 => TypeView::Float64,
        Type::String => TypeView::String,
        Type::List(inner) => TypeView::List(Box::new(type_view(*inner))),
        Type::RefId(id) => TypeView::RefId(id),
        Type::RefName(name, def) => TypeView::RefName(name@, type_def_view(def)),
    }
}

pub open spec fn enumerant_view(e: Enumerant) -> EnumerantView
    decreases e,
{
    EnumerantView { name: e.name@, rust_type: type_view(e.rust_type) }
}

pub open spec fn field_view(f: Field) -> FieldView
    decreases f,
{
    FieldView { name: f.name@, rust_type: type_view(f.rust_type) }
}

pub open spec fn enum_view(e: Enum) -> EnumView
    decreases e,
{
    EnumView {
        id: e.id,
        name: e.name@,
        fully_qualified_type_name: e.fully_qualified_type_name@,
        capnp_type_name: e.capnp_type_name@,
        enum_origin: e.enum_origin,
        enumerants: Seq::new(
            e.enumerants@.len(),
            |i: int|
                if 0 <= i < e.enumerants@.len() {
                    enumerant_view(e.enumerants@[i])
                } else {
                    arbitrary()
                },
        ),
    }
}

pub open spec fn struct_view(s: Struct) -> StructView
    decreases s,
{
    StructView {
        id: s.id,
        name: s.name@,
        fully_qualified_type_name: s.fully_qualified_type_name@,
        capnp_type_name: s.capnp_type_name@,
        fields: Seq::new(
            s.fields@.len(),
            |i: int|
                if 0 <= i < s.fields@.len() {
                    field_view(s.fields@[i])
                } else {
                    arbitrary()
                },
        ),
    }
}

pub open spec fn type_def_view(d: TypeDef) -> TypeDefView
    decreases d,
{
    match d {
        TypeDef::Enum(e) => TypeDefView::Enum(enum_view(e)),
        TypeDef::Struct(s) => TypeDefView::Struct(struct_view(s)),
    }
}

pub open spec fn module_element_view(e: ModuleElement) -> ModuleElementView
    decreases e,
{
    match e {
        ModuleElement::UseDecl(s) => ModuleElementView::UseDecl(s@),
        ModuleElement::TypeDef(d) => ModuleElementView::TypeDef(d@),
        ModuleElement::TraitDef(t) => ModuleElementView::TraitDef(t),
        ModuleElement::Module(m) => ModuleElementView::Module(module_view(m)),
        ModuleElement::Impl(i) => ModuleElementView::Impl(i@),
    }
}

pub open spec fn module_view(m: Module) -> ModuleView
    decreases m,
{
    ModuleView {
        name: m.name@,
        elements: Seq::new(
            m.elements@.len(),
            |i: int|
                if 0 <= i < m.elements@.len() {
                    module_element_view(m.elements@[i])
                } else {
                    arbitrary()
                },
        ),
    }
}

impl View for Name {
    type V = NameView;

    open spec fn view(&self) -> NameView {
        self.tokens@.map_values(|s: String| s@)
    }
}

impl View for FullyQualifiedName {
    type V = PathView;

    open spec fn view(&self) -> PathView {
        path_view(self.names@)
    }
}

impl View for Type {
    type V = TypeView;

    open spec fn view(&self) -> TypeView {
        type_view(*self)
    }
}

impl View for Enumerant {
    type V = EnumerantView;

    open spec fn view(&self) -> EnumerantView {
        enumerant_view(*self)
    }
}

impl View for Field {
    type V = FieldView;

    open spec fn view(&self) -> FieldView {
        field_view(*self)
    }
}

impl View for Enum {
    type V = EnumView;

    open spec fn view(&self) -> EnumView {
        enum_view(*self)
    }
}

impl View for Struct {
    type V = StructView;

    open spec fn view(&self) -> StructView {
        struct_view(*self)
    }
}

impl View for TypeDef {
    type V = TypeDefView;

    open spec fn view(&self) -> TypeDefView {
        type_def_view(*self)
    }
}

impl View for Impl {
    type V = ImplView;

    open spec fn view(&self) -> ImplView {
        ImplView { trait_type: self.trait_type, for_type: self.for_type@ }
    }
}

impl View for ModuleElement {
    type V = ModuleElementView;

    open spec fn view(&self) -> ModuleElementView {
        module_element_view(*self)
    }
}

impl View for Module {
    type V = ModuleView;

    open spec fn view(&self) -> ModuleView {
        module_view(*self)
    }
}

impl View for RustAst {
    type V = RustAstView;

    open spec fn view(&self) -> RustAstView {
        RustAstView {
            external_crate_decls: self.external_crate_decls@.map_values(|s: String| s@),
            external_mod_decls: self.external_mod_decls@.map_values(|s: String| s@),
            defs: self.defs@.map_values(|m: Module| m@),
        }
    }
}

/// The values of the enumerants in `v`.
pub open spec fn enumerant_views(v: Seq<Enumerant>) -> Seq<EnumerantView> {
    v.map_values(|e: Enumerant| e@)
}

/// The values of the fields in `v`.
pub open spec fn field_views(v: Seq<Field>) -> Seq<FieldView> {
    v.map_values(|f: Field| f@)
}

/// The values of the module elements in `v`.
pub open spec fn element_views(v: Seq<ModuleElement>) -> Seq<ModuleElementView> {
    v.map_values(|e: ModuleElement| e@)
}

/// The values of the modules in `v`.
pub open spec fn module_views(v: Seq<Module>) -> Seq<ModuleView> {
    v.map_values(|m: Module| m@)
}

/// An enum's enumerants, seen as values, are the values of its enumerants.
pub broadcast proof fn lemma_enum_view(e: Enum)
    ensures
        #![trigger e@]
        e@.enumerants == enumerant_views(e.enumerants@),
        e@.id == e.id,
        e@.name == e.name@,
        e@.fully_qualified_type_name == e.fully_qualified_type_name@,
        e@.capnp_type_name == e.capnp_type_name@,
        e@.enum_origin == e.enum_origin,
{
    assert(e@.enumerants =~= enumerant_views(e.enumerants@));
}

/// A struct's fields, seen as values, are the values of its fields.
pub broadcast proof fn lemma_struct_view(s: Struct)
    ensures
        #![trigger s@]
        s@.fields == field_views(s.fields@),
        s@.id == s.id,
        s@.name == s.name@,
        s@.fully_qualified_type_name == s.fully_qualified_type_name@,
        s@.capnp_type_name == s.capnp_type_name@,
{
    assert(s@.fields =~= field_views(s.fields@));
}

/// A module's elements, seen as values, are the values of its elements.
pub broadcast proof fn lemma_module_view(m: Module)
    ensures
        #![trigger m@]
        m@.elements == element_views(m.elements@),
        m@.name == m.name@,
{
    assert(m@.elements =~= element_views(m.elements@));
}

pub broadcast group group_ast_views {
    lemma_enum_view,
    lemma_struct_view,
    lemma_module_view,
}

//
// Copies
//

impl Clone for Name {
    fn clone(&self) -> (r: Self)
        ensures
            r@ == self@,
    {
        let tokens = self.tokens.clone();
        proof {
            assert(tokens@.map_values(|s: String| s@) =~= self.tokens@.map_values(|s: String| s@));
        }
        Name { tokens }
    }
}

impl Clone for FullyQualifiedName {
    fn clone(&self) -> (r: Self)
        ensures
            r@ == self@,
    {
        let names = self.names.clone();
        proof {
            assert(path_view(names@) =~= path_view(self.names@));
        }
        FullyQualifiedName { names }
    }
}

fn copy_type(t: &Type) -> (r: Type)
    ensures
        r@ == t@,
    decreases t,
{
    match t {
        Type::Unit => Type::Unit,
        Type::Bool => Type::Bool,
        Type::Int8 => Type::Int8,
        Type::Int16 => Type::Int16,
        Type::Int32 => Type::Int32,
        Type::Int64 => Type::Int64,
        Type::Uint8 => Type::Uint8,
        Type::Uint16 => Type::Uint16,
        Type::Uint32 => Type::Uint32,
        Type::Uint64 => Type::Uint64,
        Type::Float32 => Type::Float32,
        Type::Float64 => Type::Float64,
        Type::String => Type::String,
        Type::List(inner) => Type::List(Box::new(copy_type(inner))),
        Type::RefId(id) => Type::RefId(*id),
        Type::RefName(name, def) => Type::RefName(name.clone(), copy_type_def(def)),
    }
}

fn copy_enumerant(e: &Enumerant) -> (r: Enumerant)
    ensures
        r@ == e@,
    decreases e,
{
    Enumerant { name: e.name.clone(), rust_type: copy_type(&e.rust_type) }
}

fn copy_field(f: &Field) -> (r: Field)
    ensures
        r@ == f@,
    decreases f,
{
    Field { name: f.name.clone(), rust_type: copy_type(&f.rust_type) }
}

fn copy_enum(e: &Enum) -> (r: Enum)
    ensures
        r@ == e@,
    decreases e,
{
    let mut enumerants: Vec<Enumerant> = Vec::new();
    let mut i: usize = 0;
    while i < e.enumerants.len()
        invariant
            i <= e.enumerants.len(),
            enumerants.len() == i,
            forall|j: int| 0 <= j < i ==> enumerants[j]@ == e.enumerants[j]@,
        decreases e.enumerants.len() - i,
    {
        enumerants.push(copy_enumerant(&e.enumerants[i]));
        i += 1;
    }
    let r = Enum {
        id: e.id,
        name: e.name.clone(),
        fully_qualified_type_name: e.fully_qualified_type_name.clone(),
        capnp_type_name: e.capnp_type_name.clone(),
        enum_origin: e.enum_origin,
        enumerants,
    };
    proof {
        assert(r@.enumerants =~= e@.enumerants);
    }
    r
}

fn copy_struct(s: &Struct) -> (r: Struct)
    ensures
        r@ == s@,
    decreases s,
{
    let mut fields: Vec<Field> = Vec::new();
    let mut i: usize = 0;
    while i < s.fields.len()
        invariant
            i <= s.fields.len(),
            fields.len() == i,
            forall|j: int| 0 <= j < i ==> fields[j]@ == s.fields[j]@,
        decreases s.fields.len() - i,
    {
        fields.push(copy_field(&s.fields[i]));
        i += 1;
    }
    let r = Struct {
        id: s.id,
        name: s.name.clone(),
        fully_qualified_type_name: s.fully_qualified_type_name.clone(),
        capnp_type_name: s.capnp_type_name.clone(),
        fields,
    };
    proof {
        assert(r@.fields =~= s@.fields);
    }
    r
}

fn copy_type_def(d: &TypeDef) -> (r: TypeDef)
    ensures
        r@ == d@,
    decreases d,
{
    match d {
        TypeDef::Enum(e) => TypeDef::Enum(copy_enum(e)),
        TypeDef::Struct(s) => TypeDef::Struct(copy_struct(s)),
    }
}

fn copy_module_element(e: &ModuleElement) -> (r: ModuleElement)
    ensures
        r@ == e@,
    decreases e,
{
    match e {
        ModuleElement::UseDecl(s) => ModuleElement::UseDecl(s.clone()),
        ModuleElement::TypeDef(d) => ModuleElement::TypeDef(copy_type_def(d)),
        ModuleElement::TraitDef(t) => ModuleElement::TraitDef(*t),
        ModuleElement::Module(m) => ModuleElement::Module(copy_module(m)),
        ModuleElement::Impl(i) => ModuleElement::Impl(
            Impl { trait_type: i.trait_type, for_type: copy_type_def(&i.for_type) },
        ),
    }
}

fn copy_module(m: &Module) -> (r: Module)
    ensures
        r@ == m@,
    decreases m,
{
    let mut elements: Vec<ModuleElement> = Vec::new();
    let mut i: usize = 0;
    while i < m.elements.len()
        invariant
            i <= m.elements.len(),
            elements.len() == i,
            forall|j: int| 0 <= j < i ==> elements[j]@ == m.elements[j]@,
        decreases m.elements.len() - i,
    {
        elements.push(copy_module_element(&m.elements[i]));
        i += 1;
    }
    let r = Module { name: m.name.clone(), elements };
    proof {
        assert(r@.elements =~= m@.elements);
    }
    r
}

impl Clone for Type {
    fn clone(&self) -> (r: Self)
        ensures
            r@ == self@,
    {
        copy_type(self)
    }
}

impl Clone for Enumerant {
    fn clone(&self) -> (r: Self)
        ensures
            r@ == self@,
    {
        copy_enumerant(self)
    }
}

impl Clone for Field {
    fn clone(&self) -> (r: Self)
        ensures
            r@ == self@,
    {
        copy_field(self)
    }
}

impl Clone for Enum {
    fn clone(&self) -> (r: Self)
        ensures
            r@ == self@,
    {
        copy_enum(self)
    }
}

impl Clone for Struct {
    fn clone(&self) -> (r: Self)
        ensures
            r@ == self@,
    {
        copy_struct(self)
    }
}

impl Clone for TypeDef {
    fn clone(&self) -> (r: Self)
        ensures
            r@ == self@,
    {
        copy_type_def(self)
    }
}

impl Clone for Impl {
    fn clone(&self) -> (r: Self)
        ensures
            r@ == self@,
    {
        Impl { trait_type: self.trait_type, for_type: copy_type_def(&self.for_type) }
    }
}

impl Clone for ModuleElement {
    fn clone(&self) -> (r: Self)
        ensures
            r@ == self@,
    {
        copy_module_element(self)
    }
}

impl Clone for Module {
    fn clone(&self) -> (r: Self)
        ensures
            r@ == self@,
    {
        copy_module(self)
    }
}

impl Clone for RustAst {
    fn clone(&self) -> (r: Self)
        ensures
            r@ == self@,
    {
        let external_crate_decls = self.external_crate_decls.clone();
        let external_mod_decls = self.external_mod_decls.clone();
        let defs = self.defs.clone();
        proof {
            assert(external_crate_decls@.map_values(|s: String| s@)
                =~= self.external_crate_decls@.map_values(|s: String| s@));
            assert(external_mod_decls@.map_values(|s: String| s@)
                =~= self.external_mod_decls@.map_values(|s: String| s@));
            assert(defs@.map_values(|m: Module| m@) =~= self.defs@.map_values(|m: Module| m@));
        }
        RustAst { external_crate_decls, external_mod_decls, defs }
    }
}

} // verus!
