//! Completeness of translation: where no type of the schema description dangles,
//! every type that the translated file refers to is declared in the file, so
//! that its symbol table resolves every reference.

use vstd::prelude::*;
use crate::error::Error;
use crate::parser::ast::CodeGeneratorRequestView;
use crate::parser::ast::NodeView;
use crate::parser;
use crate::rust::ast::FieldView;
use crate::rust::ast::EnumOrigin;
use crate::rust::ast::RustAstView;
use crate::rust::ast::TypeDefView;
use crate::rust::ast::Id;
use crate::rust::ast::ModuleElementView;
use crate::rust::ast::ModuleView;
use crate::rust::ast::NameView;
use crate::rust::ast::PathView;
use crate::rust::ast::TypeView;
use crate::rust::context::ContextView;
use crate::rust::context::file_of;
use crate::rust::context::with_nodes;
use crate::rust::laws::ast_declares;
use crate::rust::laws::ast_refers;
use crate::rust::laws::element_declares;
use crate::rust::laws::element_refers;
use crate::rust::laws::enum_refers;
use crate::rust::laws::knows;
use crate::rust::laws::law_references_are_known;
use crate::rust::laws::module_declares;
use crate::rust::laws::module_refers;
use crate::rust::laws::type_def_refers;
use crate::rust::laws::type_refers;
use crate::rust::resolution::declared_id;
use crate::rust::resolution::no_symbols;
use crate::rust::resolution::resolved_ast;
use crate::rust::resolution::with_modules;
use crate::rust::translation::declares_type;
use crate::rust::translation::file_module;
use crate::rust::translation::is_file;
use crate::rust::translation::is_partial_union;
use crate::rust::translation::nested_elements;
use crate::rust::translation::nested_outcomes;
use crate::rust::translation::selected;
use crate::rust::translation::Selection;
use crate::rust::translation::struct_shape;
use crate::rust::translation::StructShape;
use crate::rust::translation::takes;
use crate::rust::translation::taking;
use crate::rust::translation::translated_ast;
use crate::rust::translation::translated_field;
use crate::rust::translation::translated_fields;
use crate::rust::translation::translated_member;
use crate::rust::translation::translated_members;
use crate::rust::translation::translated_module_within;
use crate::rust::translation::translated_type;
use crate::rust::translation::translated_type_def;
use crate::rust::translation::translated_which_enum;
use crate::rust::translation::which_enum_id;
use crate::sequences::collected;
use crate::sequences::concatenated;
use crate::sequences::kept;
use crate::sequences::lemma_collected_values;
use crate::sequences::lemma_concatenated_holds;
use crate::sequences::lemma_concatenated_origin;
use crate::sequences::lemma_kept_holds;
use crate::sequences::lemma_kept_origin;

verus! {

//
// What a schema description refers to and declares
//

/// Whether a schema type refers to the struct or enum with the id `id`.
pub open spec fn schema_type_refers(t: parser::ast::Type, id: Id) -> bool
    decreases t,
{
    match t {
        parser::ast::Type::Struct { type_id } => type_id == id,
        parser::ast::Type::Enum { type_id } => type_id == id,
        parser::ast::Type::List(inner) => schema_type_refers(*inner, id),
        _ => false,
    }
}

/// Whether the type of a field refers to the id `id`.
pub open spec fn field_refers(f: parser::ast::FieldView, id: Id) -> bool {
    match f.which {
        parser::ast::field::Which::Slot(t) => schema_type_refers(t, id),
        parser::ast::field::Which::Group(_) => false,
    }
}

/// Whether one of the fields that the selection takes refers to the id `id`.
pub open spec fn fields_refer(
    fields: Seq<parser::ast::FieldView>,
    selection: Selection,
    id: Id,
) -> bool {
    exists|i: int|
        0 <= i < fields.len() && takes(selection, #[trigger] fields[i]) && field_refers(
            fields[i],
            id,
        )
}

/// Whether the declaration of a node refers to the id `id`: through a field,
/// or, for the struct of a partial union, as the id of the union's enum.
pub open spec fn declaration_refers(n: NodeView, id: Id) -> bool {
    match n.which {
        parser::ast::node::WhichView::Struct { discriminant_count, fields, .. } => {
            match struct_shape(discriminant_count, fields.len()) {
                StructShape::Empty => false,
                StructShape::Union => fields_refer(fields, Selection::All, id),
                StructShape::PartialUnion => fields_refer(fields, Selection::Plain, id) || id
                    == which_enum_id(n.id),
                StructShape::Plain => fields_refer(fields, Selection::All, id),
            }
        },
        _ => false,
    }
}

/// Whether the enum of a node's partial union refers to the id `id`.
pub open spec fn union_refers(n: NodeView, id: Id) -> bool {
    match n.which {
        parser::ast::node::WhichView::Struct { fields, .. } => is_partial_union(n.which)
            && fields_refer(fields, Selection::Union, id),
        _ => false,
    }
}

/// Whether what is nested in `n`, as deep as `budget` allows, refers to the id
/// `id`.
pub open spec fn subtree_refers(ctx: ContextView, n: NodeView, id: Id, budget: nat) -> bool
    decreases budget, 1nat,
{
    exists|j: int|
        0 <= j < n.nested_nodes.len() && nested_refers(
            ctx.in_module(ctx.names[n.id]),
            #[trigger] n.nested_nodes[j],
            id,
            budget,
        )
}

/// Whether a nested declaration, the enum of its partial union, or what is
/// nested in it, refers to the id `id`.
pub open spec fn nested_refers(
    sub: ContextView,
    nested: parser::ast::node::NestedNodeView,
    id: Id,
    budget: nat,
) -> bool
    decreases budget, 0nat,
{
    sub.nodes.contains_key(nested.id) && ((declares_type(sub.nodes[nested.id].which)
        && declaration_refers(sub.nodes[nested.id], id)) || union_refers(
        sub.nodes[nested.id],
        id,
    ) || (budget > 0 && subtree_refers(sub, sub.nodes[nested.id], id, (budget - 1) as nat)))
}

/// Whether what is nested in `n`, as deep as `budget` allows, declares a type
/// with the id `id`.
pub open spec fn subtree_declares(ctx: ContextView, n: NodeView, id: Id, budget: nat) -> bool
    decreases budget, 1nat,
{
    exists|j: int|
        0 <= j < n.nested_nodes.len() && nested_declares(
            ctx.in_module(ctx.names[n.id]),
            #[trigger] n.nested_nodes[j],
            id,
            budget,
        )
}

/// Whether a nested declaration, or what is nested in it, declares a type with
/// the id `id`; a struct with a partial union declares the enum of the union
/// beside itself.
pub open spec fn nested_declares(
    sub: ContextView,
    nested: parser::ast::node::NestedNodeView,
    id: Id,
    budget: nat,
) -> bool
    decreases budget, 0nat,
{
    sub.nodes.contains_key(nested.id) && ((declares_type(sub.nodes[nested.id].which)
        && sub.nodes[nested.id].id == id) || (is_partial_union(sub.nodes[nested.id].which) && id
        == which_enum_id(sub.nodes[nested.id].id)) || (budget > 0 && subtree_declares(
        sub,
        sub.nodes[nested.id],
        id,
        (budget - 1) as nat,
    )))
}

/// Whether the element, or a module inside it, declares the enum of a partial
/// union with the id `id`.
pub open spec fn element_declares_union(e: ModuleElementView, id: Id) -> bool
    decreases e, 0nat,
{
    match e {
        ModuleElementView::TypeDef(TypeDefView::Enum(x)) => x.enum_origin
            == EnumOrigin::WhichForPartialUnion && x.id == id,
        ModuleElementView::Module(m) => module_declares_union(m, id),
        _ => false,
    }
}

pub open spec fn module_declares_union(m: ModuleView, id: Id) -> bool
    decreases m, 1nat,
{
    exists|i: int| 0 <= i < m.elements.len() && element_declares_union(#[trigger] m.elements[i], id)
}

/// Whether the file declares the enum of a partial union with the id `id`.
pub open spec fn ast_declares_union(a: RustAstView, id: Id) -> bool {
    exists|i: int| 0 <= i < a.defs.len() && module_declares_union(#[trigger] a.defs[i], id)
}

/// Whether a file of the description refers to the id `id`.
pub open spec fn schema_refers(index: ContextView, cgr: CodeGeneratorRequestView, id: Id) -> bool {
    exists|i: int|
        0 <= i < cgr.nodes.len() && (#[trigger] cgr.nodes[i]).which is File && subtree_refers(
            index.in_file(file_of(cgr, cgr.nodes[i])),
            cgr.nodes[i],
            id,
            index.nodes.dom().len(),
        )
}

/// Whether a file of the description declares a type with the id `id`.
pub open spec fn schema_declares(index: ContextView, cgr: CodeGeneratorRequestView, id: Id) -> bool {
    exists|i: int|
        0 <= i < cgr.nodes.len() && (#[trigger] cgr.nodes[i]).which is File && subtree_declares(
            index.in_file(file_of(cgr, cgr.nodes[i])),
            cgr.nodes[i],
            id,
            index.nodes.dom().len(),
        )
}

/// Whether no reference of the description dangles: every id that a
/// declaration in a file refers to is the id of a declaration in a file.
pub open spec fn no_dangling_references(index: ContextView, cgr: CodeGeneratorRequestView) -> bool {
    forall|id: Id| schema_refers(index, cgr, id) ==> schema_declares(index, cgr, id)
}

//
// From the translated file back to the description
//

/// A translated type refers to what the schema type refers to.
pub proof fn lemma_translated_type(t: parser::ast::Type, id: Id)
    requires
        translated_type(t) is Ok,
        type_refers(translated_type(t)->Ok_0, id),
    ensures
        schema_type_refers(t, id),
    decreases t,
{
    match t {
        parser::ast::Type::List(inner) => {
            lemma_translated_type(*inner, id);
        },
        _ => {},
    }
}

/// Translated fields refer only to what the selected fields refer to.
pub proof fn lemma_translated_fields(
    fields: Seq<parser::ast::FieldView>,
    selection: Selection,
    id: Id,
    k: int,
)
    requires
        translated_fields(fields, selection) is Ok,
        0 <= k < translated_fields(fields, selection)->Ok_0.len(),
        type_refers(translated_fields(fields, selection)->Ok_0[k].rust_type, id),
    ensures
        fields_refer(fields, selection, id),
{
    let chosen = selected(fields, selection);
    let outcomes = chosen.map_values(|f: parser::ast::FieldView| translated_field(f));
    lemma_collected_values(outcomes);
    assert(outcomes[k] == translated_field(chosen[k]));
    let i = lemma_kept_origin(fields, taking(selection), k);
    match fields[i].which {
        parser::ast::field::Which::Slot(t) => {
            lemma_translated_type(t, id);
        },
        parser::ast::field::Which::Group(_) => {},
    }
    assert(takes(selection, fields[i]) && field_refers(fields[i], id));
}

/// Translated members refer only to what the selected fields refer to.
pub proof fn lemma_translated_members(
    fields: Seq<parser::ast::FieldView>,
    selection: Selection,
    id: Id,
    k: int,
)
    requires
        translated_members(fields, selection) is Ok,
        0 <= k < translated_members(fields, selection)->Ok_0.len(),
        type_refers(translated_members(fields, selection)->Ok_0[k].rust_type, id),
    ensures
        fields_refer(fields, selection, id),
{
    let chosen = selected(fields, selection);
    let outcomes = chosen.map_values(|f: parser::ast::FieldView| translated_member(f));
    lemma_collected_values(outcomes);
    assert(outcomes[k] == translated_member(chosen[k]));
    let i = lemma_kept_origin(fields, taking(selection), k);
    match fields[i].which {
        parser::ast::field::Which::Slot(t) => {
            lemma_translated_type(t, id);
        },
        parser::ast::field::Which::Group(_) => {},
    }
    assert(takes(selection, fields[i]) && field_refers(fields[i], id));
}

/// A translated declaration has the id of its node and refers only to what the
/// node's declaration refers to.
pub proof fn lemma_translated_type_def(
    name: NameView,
    filename: Seq<char>,
    modules: PathView,
    n: NodeView,
    id: Id,
)
    requires
        declares_type(n.which),
        translated_type_def(name, filename, modules, n) is Ok,
    ensures
        declared_id(translated_type_def(name, filename, modules, n)->Ok_0) == n.id,
        !element_declares_union(
            ModuleElementView::TypeDef(translated_type_def(name, filename, modules, n)->Ok_0),
            id,
        ),
        type_def_refers(translated_type_def(name, filename, modules, n)->Ok_0, id)
            ==> declaration_refers(n, id),
{
    let d = translated_type_def(name, filename, modules, n)->Ok_0;
    if type_def_refers(d, id) {
        match n.which {
            parser::ast::node::WhichView::Enum(enumerants) => {
                let e = d->Enum_0;
                let k = choose|k: int|
                    0 <= k < e.enumerants.len() && type_refers(
                        #[trigger] e.enumerants[k].rust_type,
                        id,
                    );
                assert(e.enumerants[k].rust_type == TypeView::Unit);
            },
            parser::ast::node::WhichView::Struct { discriminant_count, fields, .. } => {
                match struct_shape(discriminant_count, fields.len()) {
                    StructShape::Empty => {
                        let s = d->Struct_0;
                        let k = choose|k: int|
                            0 <= k < s.fields.len() && type_refers(
                                #[trigger] s.fields[k].rust_type,
                                id,
                            );
                    },
                    StructShape::Union => {
                        let e = d->Enum_0;
                        let k = choose|k: int|
                            0 <= k < e.enumerants.len() && type_refers(
                                #[trigger] e.enumerants[k].rust_type,
                                id,
                            );
                        lemma_translated_members(fields, Selection::All, id, k);
                    },
                    StructShape::PartialUnion => {
                        let s = d->Struct_0;
                        let k = choose|k: int|
                            0 <= k < s.fields.len() && type_refers(
                                #[trigger] s.fields[k].rust_type,
                                id,
                            );
                        if k < s.fields.len() - 1 {
                            lemma_translated_fields(fields, Selection::Plain, id, k);
                        }
                    },
                    StructShape::Plain => {
                        let s = d->Struct_0;
                        let k = choose|k: int|
                            0 <= k < s.fields.len() && type_refers(
                                #[trigger] s.fields[k].rust_type,
                                id,
                            );
                        lemma_translated_fields(fields, Selection::All, id, k);
                    },
                }
            },
            _ => {},
        }
    }
}

/// The enum of a partial union has the id derived from its node's and refers
/// only to what the members of the union refer to.
pub proof fn lemma_translated_which_enum(
    name: NameView,
    filename: Seq<char>,
    modules: PathView,
    n: NodeView,
    id: Id,
)
    requires
        is_partial_union(n.which),
        translated_which_enum(name, filename, modules, n) is Ok,
    ensures
        translated_which_enum(name, filename, modules, n)->Ok_0.id == which_enum_id(n.id),
        enum_refers(translated_which_enum(name, filename, modules, n)->Ok_0, id) ==> union_refers(
            n,
            id,
        ),
{
    let e = translated_which_enum(name, filename, modules, n)->Ok_0;
    if enum_refers(e, id) {
        let k = choose|k: int|
            0 <= k < e.enumerants.len() && type_refers(#[trigger] e.enumerants[k].rust_type, id);
        lemma_translated_members(n.which->fields, Selection::Union, id, k);
    }
}

/// A translated module refers only to what its node's subtree refers to,
/// declares all that the subtree declares, and declares no enum of a partial
/// union under the id of a node.
pub proof fn lemma_translated_module(ctx: ContextView, n: NodeView, id: Id, budget: nat)
    requires
        translated_module_within(ctx, n, budget) is Ok,
    ensures
        module_refers(translated_module_within(ctx, n, budget)->Ok_0, id) ==> subtree_refers(
            ctx,
            n,
            id,
            budget,
        ),
        subtree_declares(ctx, n, id, budget) ==> module_declares(
            translated_module_within(ctx, n, budget)->Ok_0,
            id,
        ),
        module_declares_union(translated_module_within(ctx, n, budget)->Ok_0, id)
            ==> !ctx.nodes.contains_key(id),
    decreases budget, 1nat,
{
    let m = translated_module_within(ctx, n, budget)->Ok_0;
    let name = ctx.names[n.id];
    let sub = ctx.in_module(name);
    let outcomes = nested_outcomes(sub, n, budget);
    lemma_collected_values(outcomes);
    let parts = collected(outcomes)->Ok_0;
    let flat = concatenated(parts);
    assert forall|k: int| 0 <= k < flat.len() implies #[trigger] m.elements[k + 1] == flat[k] by {}

    if module_refers(m, id) {
        let x = choose|x: int| 0 <= x < m.elements.len() && element_refers(#[trigger] m.elements[x], id);
        assert(x >= 1);
        assert(m.elements[x] == flat[x - 1]);
        let r = lemma_concatenated_origin(parts, x - 1);
        let j = r.0;
        assert(outcomes[j] == Ok::<Seq<ModuleElementView>, Error>(parts[j]));
        assert(outcomes[j] == nested_elements(sub, n, j, budget));
        lemma_nested_elements(sub, n, j, id, budget);
        assert(parts[j] == nested_elements(sub, n, j, budget)->Ok_0);
        assert(element_refers(nested_elements(sub, n, j, budget)->Ok_0[r.1], id));
        assert(nested_refers(sub, n.nested_nodes[j], id, budget));
    }
    if module_declares_union(m, id) {
        let x = choose|x: int|
            0 <= x < m.elements.len() && element_declares_union(#[trigger] m.elements[x], id);
        assert(x >= 1);
        assert(m.elements[x] == flat[x - 1]);
        let r = lemma_concatenated_origin(parts, x - 1);
        let j = r.0;
        assert(outcomes[j] == Ok::<Seq<ModuleElementView>, Error>(parts[j]));
        assert(outcomes[j] == nested_elements(sub, n, j, budget));
        lemma_nested_elements(sub, n, j, id, budget);
        assert(parts[j] == nested_elements(sub, n, j, budget)->Ok_0);
        assert(element_declares_union(nested_elements(sub, n, j, budget)->Ok_0[r.1], id));
    }
    if subtree_declares(ctx, n, id, budget) {
        let j = choose|j: int|
            0 <= j < n.nested_nodes.len() && nested_declares(
                sub,
                #[trigger] n.nested_nodes[j],
                id,
                budget,
            );
        assert(outcomes[j] == Ok::<Seq<ModuleElementView>, Error>(parts[j]));
        assert(outcomes[j] == nested_elements(sub, n, j, budget));
        lemma_nested_elements(sub, n, j, id, budget);
        assert(parts[j] == nested_elements(sub, n, j, budget)->Ok_0);
        let y = choose|y: int|
            0 <= y < nested_elements(sub, n, j, budget)->Ok_0.len() && element_declares(
                #[trigger] nested_elements(sub, n, j, budget)->Ok_0[y],
                id,
            );
        let k = lemma_concatenated_holds(parts, j, y);
        assert(m.elements[k + 1] == flat[k]);
        assert(element_declares(m.elements[k + 1], id));
    }
}

/// What a nested declaration adds to a module refers only to what the nested
/// declaration, its union and its subtree refer to, declares all that they
/// declare, and declares no enum of a partial union under the id of a node.
pub proof fn lemma_nested_elements(sub: ContextView, n: NodeView, j: int, id: Id, budget: nat)
    requires
        0 <= j < n.nested_nodes.len(),
        nested_elements(sub, n, j, budget) is Ok,
    ensures
        (exists|y: int|
            0 <= y < nested_elements(sub, n, j, budget)->Ok_0.len() && element_refers(
                #[trigger] nested_elements(sub, n, j, budget)->Ok_0[y],
                id,
            )) ==> nested_refers(sub, n.nested_nodes[j], id, budget),
        nested_declares(sub, n.nested_nodes[j], id, budget) ==> exists|y: int|
            0 <= y < nested_elements(sub, n, j, budget)->Ok_0.len() && element_declares(
                #[trigger] nested_elements(sub, n, j, budget)->Ok_0[y],
                id,
            ),
        (exists|y: int|
            0 <= y < nested_elements(sub, n, j, budget)->Ok_0.len() && element_declares_union(
                #[trigger] nested_elements(sub, n, j, budget)->Ok_0[y],
                id,
            )) ==> !sub.nodes.contains_key(id),
    decreases budget, 0nat,
{
    let nested = n.nested_nodes[j];
    let added = nested_elements(sub, n, j, budget)->Ok_0;
    if sub.nodes.contains_key(nested.id) {
        let node = sub.nodes[nested.id];
        assert(budget > 0);
        lemma_translated_module(sub, node, id, (budget - 1) as nat);
        let m = translated_module_within(sub, node, (budget - 1) as nat)->Ok_0;
        if declares_type(node.which) {
            lemma_translated_type_def(sub.names[node.id], sub.filename, sub.modules, node, id);
            let d = translated_type_def(sub.names[node.id], sub.filename, sub.modules, node)->Ok_0;
            assert(added[0] == ModuleElementView::TypeDef(d));
            assert(added[1] == ModuleElementView::Module(m));
            if is_partial_union(node.which) {
                lemma_translated_which_enum(
                    sub.names[node.id],
                    sub.filename,
                    sub.modules,
                    node,
                    id,
                );
                let which = translated_which_enum(
                    sub.names[node.id],
                    sub.filename,
                    sub.modules,
                    node,
                )->Ok_0;
                assert(added[2] == ModuleElementView::TypeDef(TypeDefView::Enum(which)));
                assert(added.len() == 3);
            } else {
                assert(added.len() == 2);
            }
            if nested_declares(sub, nested, id, budget) {
                if node.id == id {
                    assert(element_declares(added[0], id));
                } else if is_partial_union(node.which) && id == which_enum_id(node.id) {
                    assert(element_declares(added[2], id));
                } else {
                    assert(element_declares(added[1], id));
                }
            }
        } else {
            assert(added[0] == ModuleElementView::Module(m));
            assert(added.len() == 1);
            if nested_declares(sub, nested, id, budget) {
                assert(element_declares(added[0], id));
            }
        }
    }
}

/// Where no reference of a schema description dangles, every id that the
/// translated file refers to is the id of a type that the file declares; so
/// the symbol table of the file knows the id, and the file resolves.
pub proof fn law_translation_is_complete(ctx: ContextView, cgr: CodeGeneratorRequestView)
    requires
        translated_ast(ctx, cgr) is Ok,
        no_dangling_references(with_nodes(ctx, cgr.nodes)->Ok_0, cgr),
    ensures
        forall|id: Id|
            ast_refers(translated_ast(ctx, cgr)->Ok_0, id) ==> ast_declares(
                translated_ast(ctx, cgr)->Ok_0,
                id,
            ),
        forall|id: Id|
            ast_refers(translated_ast(ctx, cgr)->Ok_0, id) ==> knows(
                with_modules(no_symbols(), translated_ast(ctx, cgr)->Ok_0.defs),
                id,
            ),
        resolved_ast(
            with_modules(no_symbols(), translated_ast(ctx, cgr)->Ok_0.defs),
            translated_ast(ctx, cgr)->Ok_0,
        ) is Ok,
{
    let a = translated_ast(ctx, cgr)->Ok_0;
    let index = with_nodes(ctx, cgr.nodes)->Ok_0;
    let files = kept(cgr.nodes, is_file());
    let outcomes = files.map_values(file_module(index, cgr));
    lemma_collected_values(outcomes);
    assert forall|id: Id| ast_refers(a, id) implies ast_declares(a, id) by {
        let k = choose|k: int| 0 <= k < a.defs.len() && module_refers(#[trigger] a.defs[k], id);
        let i = lemma_kept_origin(cgr.nodes, is_file(), k);
        assert(outcomes[k] == Ok::<ModuleView, Error>(a.defs[k]));
        lemma_translated_module(
            index.in_file(file_of(cgr, cgr.nodes[i])),
            cgr.nodes[i],
            id,
            index.nodes.dom().len(),
        );
        assert(schema_refers(index, cgr, id));
        assert(schema_declares(index, cgr, id));
        let g = choose|g: int|
            0 <= g < cgr.nodes.len() && (#[trigger] cgr.nodes[g]).which is File && subtree_declares(
                index.in_file(file_of(cgr, cgr.nodes[g])),
                cgr.nodes[g],
                id,
                index.nodes.dom().len(),
            );
        let h = lemma_kept_holds(cgr.nodes, is_file(), g);
        assert(outcomes[h] == Ok::<ModuleView, Error>(a.defs[h]));
        lemma_translated_module(
            index.in_file(file_of(cgr, cgr.nodes[g])),
            cgr.nodes[g],
            id,
            index.nodes.dom().len(),
        );
        assert(module_declares(a.defs[h], id));
    }
    law_references_are_known(a);
}

/// In a translated file no enum of a partial union has the id of a node of
/// the description: a translation that would need such an id fails.
pub proof fn law_union_ids_are_free(ctx: ContextView, cgr: CodeGeneratorRequestView)
    requires
        translated_ast(ctx, cgr) is Ok,
    ensures
        forall|id: Id|
            ast_declares_union(translated_ast(ctx, cgr)->Ok_0, id) ==> !with_nodes(
                ctx,
                cgr.nodes,
            )->Ok_0.nodes.contains_key(id),
{
    let a = translated_ast(ctx, cgr)->Ok_0;
    let index = with_nodes(ctx, cgr.nodes)->Ok_0;
    let files = kept(cgr.nodes, is_file());
    let outcomes = files.map_values(file_module(index, cgr));
    lemma_collected_values(outcomes);
    assert forall|id: Id| ast_declares_union(a, id) implies !index.nodes.contains_key(id) by {
        let k = choose|k: int|
            0 <= k < a.defs.len() && module_declares_union(#[trigger] a.defs[k], id);
        let i = lemma_kept_origin(cgr.nodes, is_file(), k);
        assert(outcomes[k] == Ok::<ModuleView, Error>(a.defs[k]));
        lemma_translated_module(
            index.in_file(file_of(cgr, cgr.nodes[i])),
            cgr.nodes[i],
            id,
            index.nodes.dom().len(),
        );
    }
}

} // verus!
