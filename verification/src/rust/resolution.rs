//! Resolution: a symbol table of every declared type is built first, then every
//! reference by id is replaced by the path and the declaration of its type.
//! Types may refer to types declared later, elsewhere, or to themselves.

use std::collections::HashMap;
use vstd::prelude::*;
use vstd::std_specs::hash::*;
use crate::error::Error;
use crate::error::outcome;
use crate::rust::ast::element_views;
use crate::rust::ast::Enum;
use crate::rust::ast::Enumerant;
use crate::rust::ast::enumerant_views;
use crate::rust::ast::EnumerantView;
use crate::rust::ast::EnumView;
use crate::rust::ast::Field;
use crate::rust::ast::field_views;
use crate::rust::ast::FieldView;
use crate::rust::ast::FullyQualifiedName;
use crate::rust::ast::group_ast_views;
use crate::rust::ast::Id;
use crate::rust::ast::Module;
use crate::rust::ast::module_views;
use crate::rust::ast::ModuleElement;
use crate::rust::ast::ModuleElementView;
use crate::rust::ast::ModuleView;
use crate::rust::ast::Name;
use crate::rust::ast::NameView;
use crate::rust::ast::path_view;
use crate::rust::ast::PathView;
use crate::rust::ast::RustAst;
use crate::rust::ast::RustAstView;
use crate::rust::ast::Struct;
use crate::rust::ast::StructView;
use crate::rust::ast::Type;
use crate::rust::ast::TypeDef;
use crate::rust::ast::TypeDefView;
use crate::rust::ast::TypeView;
use crate::sequences::collected;
use crate::sequences::concatenated;
use crate::sequences::lemma_collected_err;
use crate::sequences::lemma_collected_ok;

verus! {

broadcast use {group_ast_views, group_hash_axioms};

//
// The symbol table
//

/// The symbol table: for the id of each declared type, the path of names that
/// leads to it and its declaration.
#[derive(Debug, PartialEq)]
pub struct ResolutionContext {
    pub type_names: HashMap<Id, Vec<Name>>,
    pub types: HashMap<Id, TypeDef>,
}

/// The value of a [`ResolutionContext`].
pub struct SymbolsView {
    pub type_names: Map<Id, PathView>,
    pub types: Map<Id, TypeDefView>,
}

impl View for ResolutionContext {
    type V = SymbolsView;

    open spec fn view(&self) -> SymbolsView {
        SymbolsView {
            type_names: self.type_names@.map_values(|p: Vec<Name>| path_view(p@)),
            types: self.types@.map_values(|d: TypeDef| d@),
        }
    }
}

impl Clone for ResolutionContext {
    fn clone(&self) -> (r: Self)
        ensures
            r@ == self@,
    {
        ResolutionContext { type_names: self.type_names.clone(), types: self.types.clone() }
    }
}

/// One declaration as the symbol table records it.
pub struct DeclarationView {
    pub id: Id,
    pub path: PathView,
    pub def: TypeDefView,
}

/// The table that holds nothing.
pub open spec fn no_symbols() -> SymbolsView {
    SymbolsView { type_names: Map::empty(), types: Map::empty() }
}

/// The id under which a declaration is recorded.
pub open spec fn declared_id(d: TypeDefView) -> Id {
    match d {
        TypeDefView::Enum(e) => e.id,
        TypeDefView::Struct(s) => s.id,
    }
}

/// The name of a declared type.
pub open spec fn declared_name(d: TypeDefView) -> NameView {
    match d {
        TypeDefView::Enum(e) => e.name,
        TypeDefView::Struct(s) => s.name,
    }
}

/// A declaration as it is recorded where it stands: under its own name.
pub open spec fn declaration_of(d: TypeDefView) -> DeclarationView {
    DeclarationView { id: declared_id(d), path: seq![declared_name(d)], def: d }
}

/// How a declaration is recorded one module further out.
pub open spec fn within(name: NameView) -> spec_fn(DeclarationView) -> DeclarationView {
    |d: DeclarationView| DeclarationView { path: seq![name] + d.path, ..d }
}

/// The declarations that a module element holds, in the order of the text.
pub open spec fn element_declarations(e: ModuleElementView) -> Seq<DeclarationView>
    decreases e, 0nat,
{
    match e {
        ModuleElementView::TypeDef(d) => seq![declaration_of(d)],
        ModuleElementView::Module(m) => module_declarations(m),
        _ => Seq::empty(),
    }
}

/// The declarations of each element of a module.
pub open spec fn declarations_by_element(m: ModuleView) -> Seq<Seq<DeclarationView>>
    decreases m, 0nat,
{
    Seq::new(
        m.elements.len(),
        |i: int|
            if 0 <= i < m.elements.len() {
                element_declarations(m.elements[i])
            } else {
                Seq::empty()
            },
    )
}

/// The declarations in a module and in the modules inside it, in the order of
/// the text, each with the path that leads to it from outside the module.
pub open spec fn module_declarations(m: ModuleView) -> Seq<DeclarationView>
    decreases m, 1nat,
{
    concatenated(declarations_by_element(m)).map_values(within(m.name))
}

/// The table with one more declaration, which replaces an earlier one with
/// the same id.
pub open spec fn with_declaration(t: SymbolsView, d: DeclarationView) -> SymbolsView {
    SymbolsView { type_names: t.type_names.insert(d.id, d.path), types: t.types.insert(d.id, d.def) }
}

/// The table with the declarations added in order.
pub open spec fn with_declarations(t: SymbolsView, ds: Seq<DeclarationView>) -> SymbolsView
    decreases ds.len(),
{
    if ds.len() == 0 {
        t
    } else {
        with_declaration(with_declarations(t, ds.drop_last()), ds.last())
    }
}

/// The table with the declarations of the modules added, module by module.
pub open spec fn with_modules(t: SymbolsView, modules: Seq<ModuleView>) -> SymbolsView
    decreases modules.len(),
{
    if modules.len() == 0 {
        t
    } else {
        with_declarations(with_modules(t, modules.drop_last()), module_declarations(modules.last()))
    }
}

/// The table with what a module element declares.
pub open spec fn with_element(t: SymbolsView, e: ModuleElementView) -> SymbolsView {
    with_declarations(t, element_declarations(e))
}

//
// Resolving
//

/// The type with every reference by id replaced by the path and declaration
/// that the table has for the id. A reference whose id the table lacks is
/// broken. What a resolved reference carries is left as it is.
pub open spec fn resolved_type(t: SymbolsView, ty: TypeView) -> Result<TypeView, Error>
    decreases ty,
{
    match ty {
        TypeView::RefId(id) => if t.type_names.contains_key(id) && t.types.contains_key(id) {
            Ok(TypeView::RefName(t.type_names[id], t.types[id]))
        } else {
            Err(Error::BrokenInternalReference(id))
        },
        TypeView::List(inner) => match resolved_type(t, *inner) {
            Ok(element) => Ok(TypeView::List(Box::new(element))),
            Err(e) => Err(e),
        },
        _ => Ok(ty),
    }
}

pub open spec fn resolved_enumerant(t: SymbolsView, e: EnumerantView) -> Result<
    EnumerantView,
    Error,
> {
    match resolved_type(t, e.rust_type) {
        Ok(rust_type) => Ok(EnumerantView { rust_type, ..e }),
        Err(err) => Err(err),
    }
}

pub open spec fn resolved_field(t: SymbolsView, f: FieldView) -> Result<FieldView, Error> {
    match resolved_type(t, f.rust_type) {
        Ok(rust_type) => Ok(FieldView { rust_type, ..f }),
        Err(err) => Err(err),
    }
}

/// The resolution of an enumerant in a given table.
pub open spec fn resolving_enumerant(t: SymbolsView) -> spec_fn(EnumerantView) -> Result<
    EnumerantView,
    Error,
> {
    |e: EnumerantView| resolved_enumerant(t, e)
}

/// The resolution of a field in a given table.
pub open spec fn resolving_field(t: SymbolsView) -> spec_fn(FieldView) -> Result<FieldView, Error> {
    |f: FieldView| resolved_field(t, f)
}

/// The enum with its enumerants resolved, or the first broken reference.
pub open spec fn resolved_enum(t: SymbolsView, e: EnumView) -> Result<EnumView, Error> {
    match collected(e.enumerants.map_values(resolving_enumerant(t))) {
        Ok(enumerants) => Ok(EnumView { enumerants, ..e }),
        Err(err) => Err(err),
    }
}

/// The struct with its fields resolved, or the first broken reference.
pub open spec fn resolved_struct(t: SymbolsView, s: StructView) -> Result<StructView, Error> {
    match collected(s.fields.map_values(resolving_field(t))) {
        Ok(fields) => Ok(StructView { fields, ..s }),
        Err(err) => Err(err),
    }
}

pub open spec fn resolved_type_def(t: SymbolsView, d: TypeDefView) -> Result<TypeDefView, Error> {
    match d {
        TypeDefView::Enum(e) => match resolved_enum(t, e) {
            Ok(x) => Ok(TypeDefView::Enum(x)),
            Err(err) => Err(err),
        },
        TypeDefView::Struct(s) => match resolved_struct(t, s) {
            Ok(x) => Ok(TypeDefView::Struct(x)),
            Err(err) => Err(err),
        },
    }
}

/// The module element with the declarations and modules in it resolved.
/// Imports, trait declarations and conversions are left as they are.
pub open spec fn resolved_element(t: SymbolsView, e: ModuleElementView) -> Result<
    ModuleElementView,
    Error,
>
    decreases e, 0nat,
{
    match e {
        ModuleElementView::TypeDef(d) => match resolved_type_def(t, d) {
            Ok(x) => Ok(ModuleElementView::TypeDef(x)),
            Err(err) => Err(err),
        },
        ModuleElementView::Module(m) => match resolved_module(t, m) {
            Ok(x) => Ok(ModuleElementView::Module(x)),
            Err(err) => Err(err),
        },
        _ => Ok(e),
    }
}

/// The resolution of each element of a module.
pub open spec fn element_resolutions(t: SymbolsView, m: ModuleView) -> Seq<
    Result<ModuleElementView, Error>,
>
    decreases m, 0nat,
{
    Seq::new(
        m.elements.len(),
        |i: int|
            if 0 <= i < m.elements.len() {
                resolved_element(t, m.elements[i])
            } else {
                arbitrary()
            },
    )
}

/// The module with its elements resolved, or the first broken reference.
pub open spec fn resolved_module(t: SymbolsView, m: ModuleView) -> Result<ModuleView, Error>
    decreases m, 1nat,
{
    match collected(element_resolutions(t, m)) {
        Ok(elements) => Ok(ModuleView { elements, ..m }),
        Err(err) => Err(err),
    }
}

/// The resolution of a module in a given table.
pub open spec fn resolving_module(t: SymbolsView) -> spec_fn(ModuleView) -> Result<
    ModuleView,
    Error,
> {
    |m: ModuleView| resolved_module(t, m)
}

/// The file with its modules resolved, or the first broken reference.
pub open spec fn resolved_ast(t: SymbolsView, a: RustAstView) -> Result<RustAstView, Error> {
    match collected(a.defs.map_values(resolving_module(t))) {
        Ok(defs) => Ok(RustAstView { defs, ..a }),
        Err(err) => Err(err),
    }
}

//
// Building the table
//

/// One declaration on its way into the symbol table.
pub struct Declaration {
    pub id: Id,
    pub path: Vec<Name>,
    pub def: TypeDef,
}

impl View for Declaration {
    type V = DeclarationView;

    open spec fn view(&self) -> DeclarationView {
        DeclarationView { id: self.id, path: path_view(self.path@), def: self.def@ }
    }
}

/// The values of the declarations in `v`.
pub open spec fn declaration_views(v: Seq<Declaration>) -> Seq<DeclarationView> {
    v.map_values(|d: Declaration| d@)
}

/// One more part adds its declarations behind those of the parts before it.
proof fn lemma_concatenated_step<T>(parts: Seq<Seq<T>>, i: int)
    requires
        0 <= i < parts.len(),
    ensures
        concatenated(parts.take(i + 1)) == concatenated(parts.take(i)) + parts[i],
{
    assert(parts.take(i + 1).drop_last() =~= parts.take(i));
}

fn type_def_id(d: &TypeDef) -> (r: Id)
    ensures
        r == declared_id(d@),
{
    match d {
        TypeDef::Enum(e) => e.id,
        TypeDef::Struct(s) => s.id,
    }
}

fn type_def_name(d: &TypeDef) -> (r: &Name)
    ensures
        r@ == declared_name(d@),
{
    match d {
        TypeDef::Enum(e) => &e.name,
        TypeDef::Struct(s) => &s.name,
    }
}

fn declare(d: &TypeDef) -> (r: Declaration)
    ensures
        r@ == declaration_of(d@),
{
    let mut path: Vec<Name> = Vec::new();
    path.push(type_def_name(d).clone());
    proof {
        assert(path_view(path@) =~= seq![declared_name(d@)]);
    }
    Declaration { id: type_def_id(d), path, def: d.clone() }
}

fn collect_element(e: &ModuleElement) -> (r: Vec<Declaration>)
    ensures
        declaration_views(r@) == element_declarations(e@),
    decreases e, 0nat,
{
    match e {
        ModuleElement::TypeDef(d) => {
            let mut r: Vec<Declaration> = Vec::new();
            r.push(declare(d));
            proof {
                assert(declaration_views(r@) =~= seq![declaration_of(d@)]);
            }
            r
        },
        ModuleElement::Module(m) => collect_module(m),
        _ => {
            let r: Vec<Declaration> = Vec::new();
            proof {
                assert(declaration_views(r@) =~= Seq::empty());
            }
            r
        },
    }
}

fn collect_module(m: &Module) -> (r: Vec<Declaration>)
    ensures
        declaration_views(r@) == module_declarations(m@),
    decreases m, 1nat,
{
    let ghost parts = declarations_by_element(m@);
    let mut out: Vec<Declaration> = Vec::new();
    proof {
        assert(declaration_views(out@) =~= concatenated(parts.take(0)).map_values(
            within(m.name@),
        ));
    }
    let mut i: usize = 0;
    while i < m.elements.len()
        invariant
            i <= m.elements.len(),
            parts == declarations_by_element(m@),
            declaration_views(out@) == concatenated(parts.take(i as int)).map_values(
                within(m.name@),
            ),
        decreases m.elements.len() - i,
    {
        assert(m@.elements[i as int] == m.elements[i as int]@);
        let inner = collect_element(&m.elements[i]);
        let ghost before = declaration_views(out@);
        let mut j: usize = 0;
        while j < inner.len()
            invariant
                j <= inner.len(),
                declaration_views(out@) == before + declaration_views(inner@).take(
                    j as int,
                ).map_values(within(m.name@)),
            decreases inner.len() - j,
        {
            let entry = &inner[j];
            let mut path: Vec<Name> = Vec::new();
            path.push(m.name.clone());
            let mut k: usize = 0;
            while k < entry.path.len()
                invariant
                    k <= entry.path.len(),
                    path.len() == k + 1,
                    path[0]@ == m.name@,
                    forall|x: int| 0 <= x < k ==> path[x + 1]@ == entry.path[x]@,
                decreases entry.path.len() - k,
            {
                path.push(entry.path[k].clone());
                k += 1;
            }
            proof {
                assert(path_view(path@) =~= seq![m.name@] + path_view(entry.path@));
            }
            let ghost so_far = declaration_views(out@);
            out.push(Declaration { id: entry.id, path, def: entry.def.clone() });
            proof {
                assert(declaration_views(out@) =~= so_far.push(
                    within(m.name@)(inner[j as int]@),
                ));
                assert(declaration_views(out@) =~= before + declaration_views(inner@).take(
                    j + 1,
                ).map_values(within(m.name@)));
            }
            j += 1;
        }
        proof {
            assert(declaration_views(inner@).take(inner.len() as int) =~= declaration_views(
                inner@,
            ));
            lemma_concatenated_step(parts, i as int);
            assert(declaration_views(out@) =~= concatenated(parts.take(i + 1)).map_values(
                within(m.name@),
            ));
        }
        i += 1;
    }
    proof {
        assert(parts.take(m.elements.len() as int) =~= parts);
    }
    out
}

fn record(ctx: &mut ResolutionContext, ds: &Vec<Declaration>)
    ensures
        final(ctx)@ == with_declarations(old(ctx)@, declaration_views(ds@)),
{
    let ghost all = declaration_views(ds@);
    let mut i: usize = 0;
    proof {
        assert(all.take(0) =~= Seq::empty());
    }
    while i < ds.len()
        invariant
            i <= ds.len(),
            all == declaration_views(ds@),
            ctx@ == with_declarations(old(ctx)@, all.take(i as int)),
        decreases ds.len() - i,
    {
        let ghost before = ctx@;
        let path = ds[i].path.clone();
        proof {
            assert(path_view(path@) =~= path_view(ds[i as int].path@));
        }
        ctx.type_names.insert(ds[i].id, path);
        ctx.types.insert(ds[i].id, ds[i].def.clone());
        proof {
            assert(all.take(i + 1).drop_last() =~= all.take(i as int));
            assert(all.take(i + 1).last() == ds[i as int]@);
            assert(ctx@.type_names =~= before.type_names.insert(ds[i as int].id, all[i as int].path));
            assert(ctx@.types =~= before.types.insert(ds[i as int].id, all[i as int].def));
        }
        i += 1;
    }
    proof {
        assert(all.take(ds.len() as int) =~= all);
    }
}

impl ResolutionContext {
    /// A symbol table that holds nothing.
    pub fn new() -> (r: ResolutionContext)
        ensures
            r@ == no_symbols(),
    {
        let r = ResolutionContext { type_names: HashMap::new(), types: HashMap::new() };
        proof {
            assert(r@.type_names =~= Map::empty());
            assert(r@.types =~= Map::empty());
        }
        r
    }

    pub fn type_names(&self) -> (r: &HashMap<Id, Vec<Name>>)
        ensures
            *r == self.type_names,
    {
        &self.type_names
    }

    pub fn types(&self) -> (r: &HashMap<Id, TypeDef>)
        ensures
            *r == self.types,
    {
        &self.types
    }
}

//
// Resolving
//

fn resolve_type(ctx: &ResolutionContext, ty: &Type) -> (r: Result<Type, Error>)
    ensures
        outcome(r) == resolved_type(ctx@, ty@),
    decreases ty,
{
    match ty {
        Type::RefId(id) => {
            match ctx.type_names.get(id) {
                Some(path) => match ctx.types.get(id) {
                    Some(def) => {
                        let names = path.clone();
                        proof {
                            assert(path_view(names@) =~= path_view(path@));
                        }
                        Ok(Type::RefName(FullyQualifiedName { names }, def.clone()))
                    },
                    None => Err(Error::BrokenInternalReference(*id)),
                },
                None => Err(Error::BrokenInternalReference(*id)),
            }
        },
        Type::List(inner) => match resolve_type(ctx, inner) {
            Ok(element) => Ok(Type::List(Box::new(element))),
            Err(e) => Err(e),
        },
        _ => Ok(ty.clone()),
    }
}

fn resolve_enumerant(ctx: &ResolutionContext, e: &Enumerant) -> (r: Result<Enumerant, Error>)
    ensures
        outcome(r) == resolved_enumerant(ctx@, e@),
{
    match resolve_type(ctx, &e.rust_type) {
        Ok(rust_type) => Ok(Enumerant { name: e.name.clone(), rust_type }),
        Err(err) => Err(err),
    }
}

fn resolve_field(ctx: &ResolutionContext, f: &Field) -> (r: Result<Field, Error>)
    ensures
        outcome(r) == resolved_field(ctx@, f@),
{
    match resolve_type(ctx, &f.rust_type) {
        Ok(rust_type) => Ok(Field { name: f.name.clone(), rust_type }),
        Err(err) => Err(err),
    }
}

fn resolve_enum(ctx: &ResolutionContext, e: &Enum) -> (r: Result<Enum, Error>)
    ensures
        outcome(r) == resolved_enum(ctx@, e@),
{
    let ghost outcomes = e@.enumerants.map_values(resolving_enumerant(ctx@));
    let mut enumerants: Vec<Enumerant> = Vec::new();
    let mut i: usize = 0;
    while i < e.enumerants.len()
        invariant
            i <= e.enumerants.len(),
            outcomes == e@.enumerants.map_values(resolving_enumerant(ctx@)),
            enumerants.len() == i,
            forall|j: int| 0 <= j < i ==> outcomes[j] == Ok::<EnumerantView, Error>(enumerants[j]@),
        decreases e.enumerants.len() - i,
    {
        assert(e@.enumerants[i as int] == e.enumerants[i as int]@);
        match resolve_enumerant(ctx, &e.enumerants[i]) {
            Ok(x) => {
                enumerants.push(x);
            },
            Err(err) => {
                proof {
                    lemma_collected_err(outcomes, i as int);
                }
                return Err(err);
            },
        }
        i += 1;
    }
    proof {
        lemma_collected_ok(outcomes, enumerant_views(enumerants@));
    }
    let r = Enum {
        id: e.id,
        name: e.name.clone(),
        fully_qualified_type_name: e.fully_qualified_type_name.clone(),
        capnp_type_name: e.capnp_type_name.clone(),
        enum_origin: e.enum_origin,
        enumerants,
    };
    proof {
        assert(r@.enumerants == enumerant_views(r.enumerants@));
    }
    Ok(r)
}

fn resolve_struct(ctx: &ResolutionContext, s: &Struct) -> (r: Result<Struct, Error>)
    ensures
        outcome(r) == resolved_struct(ctx@, s@),
{
    let ghost outcomes = s@.fields.map_values(resolving_field(ctx@));
    let mut fields: Vec<Field> = Vec::new();
    let mut i: usize = 0;
    while i < s.fields.len()
        invariant
            i <= s.fields.len(),
            outcomes == s@.fields.map_values(resolving_field(ctx@)),
            fields.len() == i,
            forall|j: int| 0 <= j < i ==> outcomes[j] == Ok::<FieldView, Error>(fields[j]@),
        decreases s.fields.len() - i,
    {
        assert(s@.fields[i as int] == s.fields[i as int]@);
        match resolve_field(ctx, &s.fields[i]) {
            Ok(x) => {
                fields.push(x);
            },
            Err(err) => {
                proof {
                    lemma_collected_err(outcomes, i as int);
                }
                return Err(err);
            },
        }
        i += 1;
    }
    proof {
        lemma_collected_ok(outcomes, field_views(fields@));
    }
    let r = Struct {
        id: s.id,
        name: s.name.clone(),
        fully_qualified_type_name: s.fully_qualified_type_name.clone(),
        capnp_type_name: s.capnp_type_name.clone(),
        fields,
    };
    proof {
        assert(r@.fields == field_views(r.fields@));
    }
    Ok(r)
}

fn resolve_type_def(ctx: &ResolutionContext, d: &TypeDef) -> (r: Result<TypeDef, Error>)
    ensures
        outcome(r) == resolved_type_def(ctx@, d@),
{
    match d {
        TypeDef::Enum(e) => match resolve_enum(ctx, e) {
            Ok(x) => Ok(TypeDef::Enum(x)),
            Err(err) => Err(err),
        },
        TypeDef::Struct(s) => match resolve_struct(ctx, s) {
            Ok(x) => Ok(TypeDef::Struct(x)),
            Err(err) => Err(err),
        },
    }
}

fn resolve_element(ctx: &ResolutionContext, e: &ModuleElement) -> (r: Result<ModuleElement, Error>)
    ensures
        outcome(r) == resolved_element(ctx@, e@),
    decreases e, 0nat,
{
    match e {
        ModuleElement::TypeDef(d) => match resolve_type_def(ctx, d) {
            Ok(x) => Ok(ModuleElement::TypeDef(x)),
            Err(err) => Err(err),
        },
        ModuleElement::Module(m) => match resolve_module(ctx, m) {
            Ok(x) => Ok(ModuleElement::Module(x)),
            Err(err) => Err(err),
        },
        _ => Ok(e.clone()),
    }
}

fn resolve_module(ctx: &ResolutionContext, m: &Module) -> (r: Result<Module, Error>)
    ensures
        outcome(r) == resolved_module(ctx@, m@),
    decreases m, 1nat,
{
    let ghost outcomes = element_resolutions(ctx@, m@);
    let mut elements: Vec<ModuleElement> = Vec::new();
    let mut i: usize = 0;
    while i < m.elements.len()
        invariant
            i <= m.elements.len(),
            outcomes == element_resolutions(ctx@, m@),
            elements.len() == i,
            forall|j: int|
                0 <= j < i ==> outcomes[j] == Ok::<ModuleElementView, Error>(elements[j]@),
        decreases m.elements.len() - i,
    {
        assert(m@.elements[i as int] == m.elements[i as int]@);
        match resolve_element(ctx, &m.elements[i]) {
            Ok(x) => {
                elements.push(x);
            },
            Err(err) => {
                proof {
                    lemma_collected_err(outcomes, i as int);
                }
                return Err(err);
            },
        }
        i += 1;
    }
    proof {
        lemma_collected_ok(outcomes, element_views(elements@));
    }
    let r = Module { name: m.name.clone(), elements };
    proof {
        assert(r@.elements == element_views(r.elements@));
    }
    Ok(r)
}

fn resolve_ast(ctx: &ResolutionContext, a: &RustAst) -> (r: Result<RustAst, Error>)
    ensures
        outcome(r) == resolved_ast(ctx@, a@),
{
    let ghost outcomes = a@.defs.map_values(resolving_module(ctx@));
    let mut defs: Vec<Module> = Vec::new();
    let mut i: usize = 0;
    while i < a.defs.len()
        invariant
            i <= a.defs.len(),
            outcomes == a@.defs.map_values(resolving_module(ctx@)),
            defs.len() == i,
            forall|j: int| 0 <= j < i ==> outcomes[j] == Ok::<ModuleView, Error>(defs[j]@),
        decreases a.defs.len() - i,
    {
        assert(a@.defs[i as int] == a.defs[i as int]@);
        match resolve_module(ctx, &a.defs[i]) {
            Ok(x) => {
                defs.push(x);
            },
            Err(err) => {
                proof {
                    lemma_collected_err(outcomes, i as int);
                }
                return Err(err);
            },
        }
        i += 1;
    }
    proof {
        lemma_collected_ok(outcomes, module_views(defs@));
    }
    let external_crate_decls = a.external_crate_decls.clone();
    let external_mod_decls = a.external_mod_decls.clone();
    proof {
        assert(external_crate_decls@.map_values(|s: String| s@)
            =~= a.external_crate_decls@.map_values(|s: String| s@));
        assert(external_mod_decls@.map_values(|s: String| s@) =~= a.external_mod_decls@.map_values(
            |s: String| s@,
        ));
    }
    Ok(RustAst { external_crate_decls, external_mod_decls, defs })
}

//
// The trait
//

/// A part of the generated program that declares types or refers to them.
pub trait Resolver: Sized + View {
    /// The symbol table with what `n` declares.
    spec fn symbols(table: SymbolsView, n: &Self) -> SymbolsView;

    /// `n` with its references resolved in the table, or the first reference
    /// that the table cannot resolve.
    spec fn resolution(table: SymbolsView, n: &Self) -> Result<Self::V, Error>;

    fn build_context(ctx: &mut ResolutionContext, n: &Self)
        ensures
            final(ctx)@ == Self::symbols(old(ctx)@, n),
    ;

    /// Resolves the references in `n`, or names the first that the table
    /// cannot resolve. This is the test to make before [`Resolver::resolve`].
    fn try_resolve(ctx: &ResolutionContext, n: &Self) -> (r: Result<Self, Error>)
        ensures
            outcome(r) == Self::resolution(ctx@, n),
    ;

    /// Resolves the references in `n`, all of which the table must know.
    fn resolve(ctx: &ResolutionContext, n: &Self) -> (r: Self)
        requires
            Self::resolution(ctx@, n) is Ok,
        ensures
            Self::resolution(ctx@, n) == Ok::<Self::V, Error>(r@),
    ;
}

impl Resolver for Type {
    open spec fn symbols(table: SymbolsView, n: &Self) -> SymbolsView {
        table
    }

    open spec fn resolution(table: SymbolsView, n: &Self) -> Result<TypeView, Error> {
        resolved_type(table, n@)
    }

    fn build_context(ctx: &mut ResolutionContext, n: &Self) {
    }

    fn try_resolve(ctx: &ResolutionContext, n: &Self) -> (r: Result<Self, Error>) {
        resolve_type(ctx, n)
    }

    fn resolve(ctx: &ResolutionContext, n: &Self) -> (r: Self) {
        match resolve_type(ctx, n) {
            Ok(x) => x,
            Err(_) => {
                proof {
                    assert(false);
                }
                unreached()
            },
        }
    }
}

impl Resolver for Enumerant {
    open spec fn symbols(table: SymbolsView, n: &Self) -> SymbolsView {
        table
    }

    open spec fn resolution(table: SymbolsView, n: &Self) -> Result<EnumerantView, Error> {
        resolved_enumerant(table, n@)
    }

    fn build_context(ctx: &mut ResolutionContext, n: &Self) {
    }

    fn try_resolve(ctx: &ResolutionContext, n: &Self) -> (r: Result<Self, Error>) {
        resolve_enumerant(ctx, n)
    }

    fn resolve(ctx: &ResolutionContext, n: &Self) -> (r: Self) {
        match resolve_enumerant(ctx, n) {
            Ok(x) => x,
            Err(_) => {
                proof {
                    assert(false);
                }
                unreached()
            },
        }
    }
}

impl Resolver for Field {
    open spec fn symbols(table: SymbolsView, n: &Self) -> SymbolsView {
        table
    }

    open spec fn resolution(table: SymbolsView, n: &Self) -> Result<FieldView, Error> {
        resolved_field(table, n@)
    }

    fn build_context(ctx: &mut ResolutionContext, n: &Self) {
    }

    fn try_resolve(ctx: &ResolutionContext, n: &Self) -> (r: Result<Self, Error>) {
        resolve_field(ctx, n)
    }

    fn resolve(ctx: &ResolutionContext, n: &Self) -> (r: Self) {
        match resolve_field(ctx, n) {
            Ok(x) => x,
            Err(_) => {
                proof {
                    assert(false);
                }
                unreached()
            },
        }
    }
}

impl Resolver for TypeDef {
    open spec fn symbols(table: SymbolsView, n: &Self) -> SymbolsView {
        with_declaration(table, declaration_of(n@))
    }

    open spec fn resolution(table: SymbolsView, n: &Self) -> Result<TypeDefView, Error> {
        resolved_type_def(table, n@)
    }

    fn build_context(ctx: &mut ResolutionContext, n: &Self) {
        let mut ds: Vec<Declaration> = Vec::new();
        ds.push(declare(n));
        proof {
            assert(declaration_views(ds@) =~= seq![declaration_of(n@)]);
            assert(seq![declaration_of(n@)].drop_last() =~= Seq::empty());
            reveal_with_fuel(with_declarations, 2);
        }
        record(ctx, &ds);
    }

    fn try_resolve(ctx: &ResolutionContext, n: &Self) -> (r: Result<Self, Error>) {
        resolve_type_def(ctx, n)
    }

    fn resolve(ctx: &ResolutionContext, n: &Self) -> (r: Self) {
        match resolve_type_def(ctx, n) {
            Ok(x) => x,
            Err(_) => {
                proof {
                    assert(false);
                }
                unreached()
            },
        }
    }
}

impl Resolver for Enum {
    open spec fn symbols(table: SymbolsView, n: &Self) -> SymbolsView {
        with_declaration(table, declaration_of(TypeDefView::Enum(n@)))
    }

    open spec fn resolution(table: SymbolsView, n: &Self) -> Result<EnumView, Error> {
        resolved_enum(table, n@)
    }

    fn build_context(ctx: &mut ResolutionContext, n: &Self) {
        TypeDef::build_context(ctx, &TypeDef::Enum(n.clone()));
    }

    fn try_resolve(ctx: &ResolutionContext, n: &Self) -> (r: Result<Self, Error>) {
        resolve_enum(ctx, n)
    }

    fn resolve(ctx: &ResolutionContext, n: &Self) -> (r: Self) {
        match resolve_enum(ctx, n) {
            Ok(x) => x,
            Err(_) => {
                proof {
                    assert(false);
                }
                unreached()
            },
        }
    }
}

impl Resolver for Struct {
    open spec fn symbols(table: SymbolsView, n: &Self) -> SymbolsView {
        with_declaration(table, declaration_of(TypeDefView::Struct(n@)))
    }

    open spec fn resolution(table: SymbolsView, n: &Self) -> Result<StructView, Error> {
        resolved_struct(table, n@)
    }

    fn build_context(ctx: &mut ResolutionContext, n: &Self) {
        TypeDef::build_context(ctx, &TypeDef::Struct(n.clone()));
    }

    fn try_resolve(ctx: &ResolutionContext, n: &Self) -> (r: Result<Self, Error>) {
        resolve_struct(ctx, n)
    }

    fn resolve(ctx: &ResolutionContext, n: &Self) -> (r: Self) {
        match resolve_struct(ctx, n) {
            Ok(x) => x,
            Err(_) => {
                proof {
                    assert(false);
                }
                unreached()
            },
        }
    }
}

impl Resolver for ModuleElement {
    open spec fn symbols(table: SymbolsView, n: &Self) -> SymbolsView {
        with_element(table, n@)
    }

    open spec fn resolution(table: SymbolsView, n: &Self) -> Result<ModuleElementView, Error> {
        resolved_element(table, n@)
    }

    fn build_context(ctx: &mut ResolutionContext, n: &Self) {
        let ds = collect_element(n);
        record(ctx, &ds);
    }

    fn try_resolve(ctx: &ResolutionContext, n: &Self) -> (r: Result<Self, Error>) {
        resolve_element(ctx, n)
    }

    fn resolve(ctx: &ResolutionContext, n: &Self) -> (r: Self) {
        match resolve_element(ctx, n) {
            Ok(x) => x,
            Err(_) => {
                proof {
                    assert(false);
                }
                unreached()
            },
        }
    }
}

impl Resolver for Module {
    open spec fn symbols(table: SymbolsView, n: &Self) -> SymbolsView {
        with_declarations(table, module_declarations(n@))
    }

    open spec fn resolution(table: SymbolsView, n: &Self) -> Result<ModuleView, Error> {
        resolved_module(table, n@)
    }

    fn build_context(ctx: &mut ResolutionContext, n: &Self) {
        let ds = collect_module(n);
        record(ctx, &ds);
    }

    fn try_resolve(ctx: &ResolutionContext, n: &Self) -> (r: Result<Self, Error>) {
        resolve_module(ctx, n)
    }

    fn resolve(ctx: &ResolutionContext, n: &Self) -> (r: Self) {
        match resolve_module(ctx, n) {
            Ok(x) => x,
            Err(_) => {
                proof {
                    assert(false);
                }
                unreached()
            },
        }
    }
}

impl Resolver for RustAst {
    open spec fn symbols(table: SymbolsView, n: &Self) -> SymbolsView {
        with_modules(table, n@.defs)
    }

    open spec fn resolution(table: SymbolsView, n: &Self) -> Result<RustAstView, Error> {
        resolved_ast(table, n@)
    }

    fn build_context(ctx: &mut ResolutionContext, n: &Self) {
        let mut i: usize = 0;
        proof {
            assert(n@.defs.take(0) =~= Seq::empty());
        }
        while i < n.defs.len()
            invariant
                i <= n.defs.len(),
                ctx@ == with_modules(old(ctx)@, n@.defs.take(i as int)),
            decreases n.defs.len() - i,
        {
            proof {
                assert(n@.defs.take(i + 1).drop_last() =~= n@.defs.take(i as int));
                assert(n@.defs.take(i + 1).last() == n.defs[i as int]@);
            }
            Module::build_context(ctx, &n.defs[i]);
            i += 1;
        }
        proof {
            assert(n@.defs.take(n.defs.len() as int) =~= n@.defs);
        }
    }

    fn try_resolve(ctx: &ResolutionContext, n: &Self) -> (r: Result<Self, Error>) {
        resolve_ast(ctx, n)
    }

    fn resolve(ctx: &ResolutionContext, n: &Self) -> (r: Self) {
        match resolve_ast(ctx, n) {
            Ok(x) => x,
            Err(_) => {
                proof {
                    assert(false);
                }
                unreached()
            },
        }
    }
}

} // verus!
