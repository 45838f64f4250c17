//! What holds of resolution as a whole: when it succeeds, that nothing is left
//! to resolve behind it, and that it changes nothing where nothing is left.

use vstd::prelude::*;
use crate::error::Error;
use crate::rust::ast::EnumerantView;
use crate::rust::ast::EnumView;
use crate::rust::ast::FieldView;
use crate::rust::ast::Id;
use crate::rust::ast::ModuleElementView;
use crate::rust::ast::ModuleView;
use crate::rust::ast::RustAstView;
use crate::rust::ast::StructView;
use crate::rust::ast::TypeDefView;
use crate::rust::ast::TypeView;
use crate::rust::resolution::declaration_of;
use crate::rust::resolution::declarations_by_element;
use crate::rust::resolution::DeclarationView;
use crate::rust::resolution::declared_id;
use crate::rust::resolution::element_declarations;
use crate::rust::resolution::element_resolutions;
use crate::rust::resolution::module_declarations;
use crate::rust::resolution::no_symbols;
use crate::rust::resolution::resolved_ast;
use crate::rust::resolution::resolved_element;
use crate::rust::resolution::resolved_enum;
use crate::rust::resolution::resolved_module;
use crate::rust::resolution::resolved_struct;
use crate::rust::resolution::resolved_type;
use crate::rust::resolution::resolving_enumerant;
use crate::rust::resolution::resolving_field;
use crate::rust::resolution::resolving_module;
use crate::rust::resolution::SymbolsView;
use crate::rust::resolution::with_declarations;
use crate::rust::resolution::with_modules;
use crate::sequences::collected;
use crate::sequences::concatenated;
use crate::sequences::lemma_collected_ok;
use crate::sequences::lemma_collected_values;
use crate::sequences::lemma_concatenated_holds;
use crate::sequences::lemma_concatenated_origin;

verus! {

/// Whether the table has both the path and the declaration for an id.
pub open spec fn knows(t: SymbolsView, id: Id) -> bool {
    t.type_names.contains_key(id) && t.types.contains_key(id)
}

/// Whether a type holds a reference by the id `id`. What a resolved reference
/// carries is not looked at.
pub open spec fn type_refers(ty: TypeView, id: Id) -> bool
    decreases ty,
{
    match ty {
        TypeView::RefId(i) => i == id,
        TypeView::List(inner) => type_refers(*inner, id),
        _ => false,
    }
}

pub open spec fn enum_refers(e: EnumView, id: Id) -> bool {
    exists|i: int| 0 <= i < e.enumerants.len() && type_refers(#[trigger] e.enumerants[i].rust_type, id)
}

pub open spec fn struct_refers(s: StructView, id: Id) -> bool {
    exists|i: int| 0 <= i < s.fields.len() && type_refers(#[trigger] s.fields[i].rust_type, id)
}

pub open spec fn type_def_refers(d: TypeDefView, id: Id) -> bool {
    match d {
        TypeDefView::Enum(e) => enum_refers(e, id),
        TypeDefView::Struct(s) => struct_refers(s, id),
    }
}

/// Whether a declaration in the element, or in a module inside it, refers to
/// the id `id`.
pub open spec fn element_refers(e: ModuleElementView, id: Id) -> bool
    decreases e, 0nat,
{
    match e {
        ModuleElementView::TypeDef(d) => type_def_refers(d, id),
        ModuleElementView::Module(m) => module_refers(m, id),
        _ => false,
    }
}

pub open spec fn module_refers(m: ModuleView, id: Id) -> bool
    decreases m, 1nat,
{
    exists|i: int| 0 <= i < m.elements.len() && element_refers(#[trigger] m.elements[i], id)
}

/// Whether a declaration anywhere in the file refers to the id `id`.
pub open spec fn ast_refers(a: RustAstView, id: Id) -> bool {
    exists|i: int| 0 <= i < a.defs.len() && module_refers(#[trigger] a.defs[i], id)
}

/// Resolution of a type succeeds exactly if the table knows every id that the
/// type refers to; the result refers to no id; and a type that refers to no id
/// is its own resolution.
pub proof fn lemma_type(t: SymbolsView, ty: TypeView)
    ensures
        resolved_type(t, ty) is Ok <==> forall|id: Id| type_refers(ty, id) ==> knows(t, id),
        resolved_type(t, ty) is Ok ==> forall|id: Id| !type_refers(resolved_type(t, ty)->Ok_0, id),
        (forall|id: Id| !type_refers(ty, id)) ==> resolved_type(t, ty) == Ok::<TypeView, Error>(ty),
    decreases ty,
{
    match ty {
        TypeView::RefId(i) => {
            assert(type_refers(ty, i));
            if resolved_type(t, ty) is Ok {
                assert forall|id: Id| !type_refers(resolved_type(t, ty)->Ok_0, id) by {}
            }
        },
        TypeView::List(inner) => {
            lemma_type(t, *inner);
            assert forall|id: Id| type_refers(ty, id) == type_refers(*inner, id) by {}
            if forall|id: Id| !type_refers(ty, id) {
                assert(forall|id: Id| !type_refers(*inner, id));
            }
            if resolved_type(t, ty) is Ok {
                let element = resolved_type(t, *inner)->Ok_0;
                assert forall|id: Id| !type_refers(resolved_type(t, ty)->Ok_0, id) by {
                    assert(!type_refers(element, id));
                }
            }
        },
        _ => {
            assert forall|id: Id| !type_refers(ty, id) by {}
        },
    }
}

/// The law of [`lemma_type`] for an enum.
pub proof fn lemma_enum(t: SymbolsView, e: EnumView)
    ensures
        resolved_enum(t, e) is Ok <==> forall|id: Id| enum_refers(e, id) ==> knows(t, id),
        resolved_enum(t, e) is Ok ==> forall|id: Id| !enum_refers(resolved_enum(t, e)->Ok_0, id),
        (forall|id: Id| !enum_refers(e, id)) ==> resolved_enum(t, e) == Ok::<EnumView, Error>(e),
{
    let outcomes = e.enumerants.map_values(resolving_enumerant(t));
    lemma_collected_values(outcomes);
    assert forall|i: int| 0 <= i < e.enumerants.len() implies {
        &&& (#[trigger] outcomes[i]) is Ok <==> resolved_type(t, e.enumerants[i].rust_type) is Ok
        &&& outcomes[i] is Ok ==> outcomes[i]->Ok_0.rust_type == resolved_type(
            t,
            e.enumerants[i].rust_type,
        )->Ok_0
    } by {
        lemma_type(t, e.enumerants[i].rust_type);
    }
    if forall|id: Id| enum_refers(e, id) ==> knows(t, id) {
        assert forall|i: int| 0 <= i < outcomes.len() implies (#[trigger] outcomes[i]) is Ok by {
            lemma_type(t, e.enumerants[i].rust_type);
            assert forall|id: Id| type_refers(e.enumerants[i].rust_type, id) implies knows(
                t,
                id,
            ) by {
                assert(enum_refers(e, id));
            }
        }
    }
    if resolved_enum(t, e) is Ok {
        let r = resolved_enum(t, e)->Ok_0;
        assert forall|id: Id| enum_refers(e, id) implies knows(t, id) by {
            let i = choose|i: int|
                0 <= i < e.enumerants.len() && type_refers(
                    #[trigger] e.enumerants[i].rust_type,
                    id,
                );
            lemma_type(t, e.enumerants[i].rust_type);
            assert(outcomes[i] is Ok);
        }
        assert forall|id: Id| !enum_refers(r, id) by {
            if enum_refers(r, id) {
                let i = choose|i: int|
                    0 <= i < r.enumerants.len() && type_refers(
                        #[trigger] r.enumerants[i].rust_type,
                        id,
                    );
                lemma_type(t, e.enumerants[i].rust_type);
                assert(outcomes[i] == Ok::<EnumerantView, Error>(r.enumerants[i]));
            }
        }
    }
    if forall|id: Id| !enum_refers(e, id) {
        assert forall|i: int| 0 <= i < outcomes.len() implies outcomes[i] == Ok::<
            EnumerantView,
            Error,
        >(e.enumerants[i]) by {
            lemma_type(t, e.enumerants[i].rust_type);
            assert forall|id: Id| !type_refers(e.enumerants[i].rust_type, id) by {
                assert(!enum_refers(e, id));
            }
        }
        lemma_collected_ok(outcomes, e.enumerants);
    }
}

/// The law of [`lemma_type`] for a struct.
pub proof fn lemma_struct(t: SymbolsView, s: StructView)
    ensures
        resolved_struct(t, s) is Ok <==> forall|id: Id| struct_refers(s, id) ==> knows(t, id),
        resolved_struct(t, s) is Ok ==> forall|id: Id|
            !struct_refers(resolved_struct(t, s)->Ok_0, id),
        (forall|id: Id| !struct_refers(s, id)) ==> resolved_struct(t, s) == Ok::<StructView, Error>(
            s,
        ),
{
    let outcomes = s.fields.map_values(resolving_field(t));
    lemma_collected_values(outcomes);
    assert forall|i: int| 0 <= i < s.fields.len() implies {
        &&& (#[trigger] outcomes[i]) is Ok <==> resolved_type(t, s.fields[i].rust_type) is Ok
        &&& outcomes[i] is Ok ==> outcomes[i]->Ok_0.rust_type == resolved_type(
            t,
            s.fields[i].rust_type,
        )->Ok_0
    } by {
        lemma_type(t, s.fields[i].rust_type);
    }
    if forall|id: Id| struct_refers(s, id) ==> knows(t, id) {
        assert forall|i: int| 0 <= i < outcomes.len() implies (#[trigger] outcomes[i]) is Ok by {
            lemma_type(t, s.fields[i].rust_type);
            assert forall|id: Id| type_refers(s.fields[i].rust_type, id) implies knows(t, id) by {
                assert(struct_refers(s, id));
            }
        }
    }
    if resolved_struct(t, s) is Ok {
        let r = resolved_struct(t, s)->Ok_0;
        assert forall|id: Id| struct_refers(s, id) implies knows(t, id) by {
            let i = choose|i: int|
                0 <= i < s.fields.len() && type_refers(#[trigger] s.fields[i].rust_type, id);
            lemma_type(t, s.fields[i].rust_type);
            assert(outcomes[i] is Ok);
        }
        assert forall|id: Id| !struct_refers(r, id) by {
            if struct_refers(r, id) {
                let i = choose|i: int|
                    0 <= i < r.fields.len() && type_refers(#[trigger] r.fields[i].rust_type, id);
                lemma_type(t, s.fields[i].rust_type);
                assert(outcomes[i] == Ok::<FieldView, Error>(r.fields[i]));
            }
        }
    }
    if forall|id: Id| !struct_refers(s, id) {
        assert forall|i: int| 0 <= i < outcomes.len() implies outcomes[i] == Ok::<FieldView, Error>(
            s.fields[i],
        ) by {
            lemma_type(t, s.fields[i].rust_type);
            assert forall|id: Id| !type_refers(s.fields[i].rust_type, id) by {
                assert(!struct_refers(s, id));
            }
        }
        lemma_collected_ok(outcomes, s.fields);
    }
}

/// The law of [`lemma_type`] for a module element.
pub proof fn lemma_element(t: SymbolsView, e: ModuleElementView)
    ensures
        resolved_element(t, e) is Ok <==> forall|id: Id| element_refers(e, id) ==> knows(t, id),
        resolved_element(t, e) is Ok ==> forall|id: Id|
            !element_refers(resolved_element(t, e)->Ok_0, id),
        (forall|id: Id| !element_refers(e, id)) ==> resolved_element(t, e) == Ok::<
            ModuleElementView,
            Error,
        >(e),
    decreases e, 0nat,
{
    match e {
        ModuleElementView::TypeDef(d) => {
            match d {
                TypeDefView::Enum(x) => {
                    lemma_enum(t, x);
                    assert forall|id: Id| element_refers(e, id) == enum_refers(x, id) by {}
                    if resolved_element(t, e) is Ok {
                        let r = resolved_enum(t, x)->Ok_0;
                        assert(resolved_element(t, e)->Ok_0 == ModuleElementView::TypeDef(
                            TypeDefView::Enum(r),
                        ));
                        assert forall|id: Id| !element_refers(resolved_element(t, e)->Ok_0, id) by {
                            assert(!enum_refers(r, id));
                        }
                    }
                    if forall|id: Id| !element_refers(e, id) {
                        assert(forall|id: Id| !enum_refers(x, id));
                    }
                },
                TypeDefView::Struct(x) => {
                    lemma_struct(t, x);
                    assert forall|id: Id| element_refers(e, id) == struct_refers(x, id) by {}
                    if resolved_element(t, e) is Ok {
                        let r = resolved_struct(t, x)->Ok_0;
                        assert(resolved_element(t, e)->Ok_0 == ModuleElementView::TypeDef(
                            TypeDefView::Struct(r),
                        ));
                        assert forall|id: Id| !element_refers(resolved_element(t, e)->Ok_0, id) by {
                            assert(!struct_refers(r, id));
                        }
                    }
                    if forall|id: Id| !element_refers(e, id) {
                        assert(forall|id: Id| !struct_refers(x, id));
                    }
                },
            }
        },
        ModuleElementView::Module(m) => {
            lemma_module(t, m);
            assert forall|id: Id| element_refers(e, id) == module_refers(m, id) by {}
            if resolved_element(t, e) is Ok {
                let r = resolved_module(t, m)->Ok_0;
                assert forall|id: Id| !element_refers(resolved_element(t, e)->Ok_0, id) by {
                    assert(!module_refers(r, id));
                }
            }
            if forall|id: Id| !element_refers(e, id) {
                assert(forall|id: Id| !module_refers(m, id));
            }
        },
        _ => {
            assert forall|id: Id| !element_refers(e, id) by {}
        },
    }
}

/// The law of [`lemma_type`] for a module.
pub proof fn lemma_module(t: SymbolsView, m: ModuleView)
    ensures
        resolved_module(t, m) is Ok <==> forall|id: Id| module_refers(m, id) ==> knows(t, id),
        resolved_module(t, m) is Ok ==> forall|id: Id|
            !module_refers(resolved_module(t, m)->Ok_0, id),
        (forall|id: Id| !module_refers(m, id)) ==> resolved_module(t, m) == Ok::<ModuleView, Error>(
            m,
        ),
    decreases m, 1nat,
{
    let outcomes = element_resolutions(t, m);
    lemma_collected_values(outcomes);
    assert forall|i: int| 0 <= i < m.elements.len() implies {
        &&& (#[trigger] outcomes[i]) is Ok <==> forall|id: Id|
            element_refers(m.elements[i], id) ==> knows(t, id)
        &&& outcomes[i] is Ok ==> forall|id: Id| !element_refers(outcomes[i]->Ok_0, id)
        &&& (forall|id: Id| !element_refers(m.elements[i], id)) ==> outcomes[i] == Ok::<
            ModuleElementView,
            Error,
        >(m.elements[i])
    } by {
        lemma_element(t, m.elements[i]);
    }
    if forall|id: Id| module_refers(m, id) ==> knows(t, id) {
        assert forall|i: int| 0 <= i < outcomes.len() implies (#[trigger] outcomes[i]) is Ok by {
            assert forall|id: Id| element_refers(m.elements[i], id) implies knows(t, id) by {
                assert(module_refers(m, id));
            }
        }
    }
    if resolved_module(t, m) is Ok {
        let r = resolved_module(t, m)->Ok_0;
        assert forall|id: Id| module_refers(m, id) implies knows(t, id) by {
            let i = choose|i: int|
                0 <= i < m.elements.len() && element_refers(#[trigger] m.elements[i], id);
            assert(outcomes[i] is Ok);
        }
        assert(r.elements == collected(outcomes)->Ok_0);
        assert forall|id: Id| !module_refers(r, id) by {
            if module_refers(r, id) {
                let i = choose|i: int|
                    0 <= i < r.elements.len() && element_refers(#[trigger] r.elements[i], id);
                assert(outcomes[i] == Ok::<ModuleElementView, Error>(r.elements[i]));
                assert(!element_refers(outcomes[i]->Ok_0, id));
            }
        }
    }
    if forall|id: Id| !module_refers(m, id) {
        assert forall|i: int| 0 <= i < outcomes.len() implies outcomes[i] == Ok::<
            ModuleElementView,
            Error,
        >(m.elements[i]) by {
            assert forall|id: Id| !element_refers(m.elements[i], id) by {
                assert(!module_refers(m, id));
            }
        }
        lemma_collected_ok(outcomes, m.elements);
    }
}

/// Resolution of a file succeeds exactly if the table knows every id that a
/// declaration of the file refers to.
pub proof fn law_resolution_succeeds(t: SymbolsView, a: RustAstView)
    ensures
        resolved_ast(t, a) is Ok <==> forall|id: Id| ast_refers(a, id) ==> knows(t, id),
{
    let outcomes = a.defs.map_values(resolving_module(t));
    lemma_collected_values(outcomes);
    assert forall|i: int| 0 <= i < a.defs.len() implies ((#[trigger] outcomes[i]) is Ok
        <==> forall|id: Id| module_refers(a.defs[i], id) ==> knows(t, id)) by {
        lemma_module(t, a.defs[i]);
    }
    if forall|id: Id| ast_refers(a, id) ==> knows(t, id) {
        assert forall|i: int| 0 <= i < outcomes.len() implies (#[trigger] outcomes[i]) is Ok by {
            assert forall|id: Id| module_refers(a.defs[i], id) implies knows(t, id) by {
                assert(ast_refers(a, id));
            }
        }
    }
    if resolved_ast(t, a) is Ok {
        assert forall|id: Id| ast_refers(a, id) implies knows(t, id) by {
            let i = choose|i: int| 0 <= i < a.defs.len() && module_refers(#[trigger] a.defs[i], id);
            assert(outcomes[i] is Ok);
        }
    }
}

/// A resolved file refers to no id: no reference is left to resolve.
pub proof fn law_resolved_refers_to_nothing(t: SymbolsView, a: RustAstView)
    requires
        resolved_ast(t, a) is Ok,
    ensures
        forall|id: Id| !ast_refers(resolved_ast(t, a)->Ok_0, id),
{
    let outcomes = a.defs.map_values(resolving_module(t));
    lemma_collected_values(outcomes);
    let r = resolved_ast(t, a)->Ok_0;
    assert(r.defs == collected(outcomes)->Ok_0);
    assert forall|id: Id| !ast_refers(r, id) by {
        if ast_refers(r, id) {
            let i = choose|i: int| 0 <= i < r.defs.len() && module_refers(#[trigger] r.defs[i], id);
            lemma_module(t, a.defs[i]);
            assert(outcomes[i] == Ok::<ModuleView, Error>(r.defs[i]));
            assert(outcomes[i] == resolved_module(t, a.defs[i]));
            assert(!module_refers(resolved_module(t, a.defs[i])->Ok_0, id));
        }
    }
}

/// Resolving a file that refers to no id changes nothing, whatever the table.
pub proof fn law_resolution_keeps_resolved(t: SymbolsView, a: RustAstView)
    requires
        forall|id: Id| !ast_refers(a, id),
    ensures
        resolved_ast(t, a) == Ok::<RustAstView, Error>(a),
{
    let outcomes = a.defs.map_values(resolving_module(t));
    assert forall|i: int| 0 <= i < outcomes.len() implies outcomes[i] == Ok::<ModuleView, Error>(
        a.defs[i],
    ) by {
        lemma_module(t, a.defs[i]);
        assert forall|id: Id| !module_refers(a.defs[i], id) by {
            assert(!ast_refers(a, id));
        }
    }
    lemma_collected_ok(outcomes, a.defs);
}

/// Resolution is idempotent: resolving a resolved file again, in any table,
/// gives the resolved file.
pub proof fn law_resolution_is_idempotent(t: SymbolsView, again: SymbolsView, a: RustAstView)
    requires
        resolved_ast(t, a) is Ok,
    ensures
        resolved_ast(again, resolved_ast(t, a)->Ok_0) == resolved_ast(t, a),
{
    law_resolved_refers_to_nothing(t, a);
    law_resolution_keeps_resolved(again, resolved_ast(t, a)->Ok_0);
}

//
// The symbol table
//

/// Whether the element, or a module inside it, declares a type with the id
/// `id`.
pub open spec fn element_declares(e: ModuleElementView, id: Id) -> bool
    decreases e, 0nat,
{
    match e {
        ModuleElementView::TypeDef(d) => declared_id(d) == id,
        ModuleElementView::Module(m) => module_declares(m, id),
        _ => false,
    }
}

pub open spec fn module_declares(m: ModuleView, id: Id) -> bool
    decreases m, 1nat,
{
    exists|i: int| 0 <= i < m.elements.len() && element_declares(#[trigger] m.elements[i], id)
}

/// Whether the file declares a type with the id `id`, at any depth.
pub open spec fn ast_declares(a: RustAstView, id: Id) -> bool {
    exists|i: int| 0 <= i < a.defs.len() && module_declares(#[trigger] a.defs[i], id)
}

/// Whether one of the declarations has the id `id`.
pub open spec fn lists(ds: Seq<DeclarationView>, id: Id) -> bool {
    exists|j: int| 0 <= j < ds.len() && (#[trigger] ds[j]).id == id
}

/// The table knows an id after declarations were added exactly if it knew the
/// id before or one of the declarations has it.
pub proof fn lemma_with_declarations_knows(t: SymbolsView, ds: Seq<DeclarationView>, id: Id)
    ensures
        knows(with_declarations(t, ds), id) <==> knows(t, id) || lists(ds, id),
    decreases ds.len(),
{
    if ds.len() > 0 {
        lemma_with_declarations_knows(t, ds.drop_last(), id);
        if lists(ds.drop_last(), id) {
            let j = choose|j: int| 0 <= j < ds.drop_last().len() && (#[trigger] ds.drop_last()[j]).id == id;
            assert(ds[j].id == id);
        }
        if lists(ds, id) {
            let j = choose|j: int| 0 <= j < ds.len() && (#[trigger] ds[j]).id == id;
            if j < ds.len() - 1 {
                assert(ds.drop_last()[j].id == id);
            }
        }
        if ds.last().id == id {
            assert(ds[ds.len() - 1].id == id);
        }
    }
}

/// What an element declares is what its list of declarations holds.
pub proof fn lemma_element_declarations(e: ModuleElementView, id: Id)
    ensures
        lists(element_declarations(e), id) <==> element_declares(e, id),
    decreases e, 0nat,
{
    match e {
        ModuleElementView::TypeDef(d) => {
            let ds = element_declarations(e);
            assert(ds[0] == declaration_of(d));
            if lists(ds, id) {
                let j = choose|j: int| 0 <= j < ds.len() && (#[trigger] ds[j]).id == id;
                assert(j == 0);
            }
        },
        ModuleElementView::Module(m) => {
            lemma_module_declarations(m, id);
        },
        _ => {},
    }
}

/// What a module declares is what its list of declarations holds.
pub proof fn lemma_module_declarations(m: ModuleView, id: Id)
    ensures
        lists(module_declarations(m), id) <==> module_declares(m, id),
    decreases m, 1nat,
{
    let parts = declarations_by_element(m);
    let flat = concatenated(parts);
    let ds = module_declarations(m);
    assert forall|k: int| 0 <= k < ds.len() implies (#[trigger] ds[k]).id == flat[k].id by {}
    if lists(ds, id) {
        let k = choose|k: int| 0 <= k < ds.len() && (#[trigger] ds[k]).id == id;
        let r = lemma_concatenated_origin(parts, k);
        assert(parts[r.0][r.1].id == id);
        assert(lists(element_declarations(m.elements[r.0]), id));
        lemma_element_declarations(m.elements[r.0], id);
        assert(element_declares(m.elements[r.0], id));
    }
    if module_declares(m, id) {
        let i = choose|i: int| 0 <= i < m.elements.len() && element_declares(#[trigger] m.elements[i], id);
        lemma_element_declarations(m.elements[i], id);
        let part = element_declarations(m.elements[i]);
        let j = choose|j: int| 0 <= j < part.len() && (#[trigger] part[j]).id == id;
        assert(parts[i] == part);
        let k = lemma_concatenated_holds(parts, i, j);
        assert(ds[k].id == id);
    }
}

/// The table knows an id after the declarations of modules were added exactly
/// if it knew the id before or one of the modules declares it.
pub proof fn lemma_with_modules_knows(t: SymbolsView, modules: Seq<ModuleView>, id: Id)
    ensures
        knows(with_modules(t, modules), id) <==> knows(t, id) || exists|i: int|
            0 <= i < modules.len() && module_declares(#[trigger] modules[i], id),
    decreases modules.len(),
{
    if modules.len() > 0 {
        let front = modules.drop_last();
        lemma_with_modules_knows(t, front, id);
        lemma_with_declarations_knows(
            with_modules(t, front),
            module_declarations(modules.last()),
            id,
        );
        lemma_module_declarations(modules.last(), id);
        if exists|i: int| 0 <= i < front.len() && module_declares(#[trigger] front[i], id) {
            let i = choose|i: int| 0 <= i < front.len() && module_declares(#[trigger] front[i], id);
            assert(module_declares(modules[i], id));
        }
        if exists|i: int| 0 <= i < modules.len() && module_declares(#[trigger] modules[i], id) {
            let i = choose|i: int|
                0 <= i < modules.len() && module_declares(#[trigger] modules[i], id);
            if i < modules.len() - 1 {
                assert(module_declares(front[i], id));
            }
        }
        if module_declares(modules.last(), id) {
            assert(module_declares(modules[modules.len() - 1], id));
        }
    }
}

/// The symbol table of a file knows exactly the ids of the types that the file
/// declares, at whatever depth of modules.
pub proof fn law_symbol_table_is_complete(a: RustAstView, id: Id)
    ensures
        knows(with_modules(no_symbols(), a.defs), id) <==> ast_declares(a, id),
{
    lemma_with_modules_knows(no_symbols(), a.defs, id);
}

/// Where every id that a file refers to is the id of a type that the file
/// declares, the symbol table of the file knows every id that the file refers
/// to, and the file resolves in it.
pub proof fn law_references_are_known(a: RustAstView)
    requires
        forall|id: Id| ast_refers(a, id) ==> ast_declares(a, id),
    ensures
        forall|id: Id| ast_refers(a, id) ==> knows(with_modules(no_symbols(), a.defs), id),
        resolved_ast(with_modules(no_symbols(), a.defs), a) is Ok,
{
    assert forall|id: Id| ast_refers(a, id) implies knows(
        with_modules(no_symbols(), a.defs),
        id,
    ) by {
        law_symbol_table_is_complete(a, id);
    }
    law_resolution_succeeds(with_modules(no_symbols(), a.defs), a);
}

} // verus!
