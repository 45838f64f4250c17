//! Translation: from the nodes of a schema description to the modules, structs
//! and enums of the generated program, with references left as ids.

use vstd::prelude::*;
use vstd::std_specs::hash::*;
use vstd::string::*;
use crate::error::Error;
use crate::error::outcome;
use crate::error::Unsupported;
use crate::parser::ast::field::NO_DISCRIMINANT;
use crate::parser::ast::Node;
use crate::parser::ast::NodeView;
use crate::parser;
use crate::rust::ast::element_views;
use crate::rust::ast::Enum;
use crate::rust::ast::Enumerant;
use crate::rust::ast::EnumerantView;
use crate::rust::ast::EnumOrigin;
use crate::rust::ast::EnumView;
use crate::rust::ast::Field;
use crate::rust::ast::FieldView;
use crate::rust::ast::group_ast_views;
use crate::rust::ast::Id;
use crate::rust::ast::Module;
use crate::rust::ast::module_views;
use crate::rust::ast::ModuleElement;
use crate::rust::ast::ModuleElementView;
use crate::rust::ast::ModuleView;
use crate::rust::ast::Name;
use crate::rust::ast::NameView;
use crate::rust::ast::path_view;
use crate::rust::ast::PathView;
use crate::rust::ast::RustAst;
use crate::rust::ast::RustAstView;
use crate::rust::ast::Struct;
use crate::rust::ast::StructView;
use crate::rust::ast::Type;
use crate::rust::ast::TypeDef;
use crate::rust::ast::TypeDefView;
use crate::rust::ast::TypeView;
use crate::rust::code::is_primitive;
use crate::rust::context::build_translation_context_from_cgr;
use crate::rust::context::capnp_mod_name;
use crate::rust::context::capnp_path_at;
use crate::rust::context::capnp_type_name;
use crate::rust::context::ContextView;
use crate::rust::context::file_declared;
use crate::rust::context::files_cut;
use crate::rust::context::indexed_nodes;
use crate::rust::context::law_index_builds;
use crate::rust::context::file_of;
use crate::rust::context::files_named;
use crate::rust::context::get_filename_from_cgr;
use crate::rust::context::is_file_node;
use crate::rust::context::name_of;
use crate::rust::context::qualified_path_at;
use crate::rust::context::qualified_type_name;
use crate::rust::context::TranslationContext;
use crate::rust::context::with_nodes;
use crate::rust::name::normalized;
use crate::rust::name::snake;
use crate::rust::name::snake_text;
use crate::sequences::collected;
use crate::sequences::concatenated;
use crate::sequences::kept;
use crate::sequences::lemma_collected_err;
use crate::sequences::lemma_collected_ok;
use crate::sequences::lemma_kept_holds;
use crate::sequences::lemma_kept_origin;
use crate::sequences::lemma_collected_values;
use crate::sequences::lemma_first_found_some;
use crate::sequences::lemma_kept_all;
use crate::sequences::lemma_kept_prefix;
use crate::sequences::lemma_kept_step;
use crate::text::texts;

verus! {

broadcast use {group_ast_views, group_hash_axioms};

//
// Types, fields and enumerants
//

/// The type that a schema type becomes. The types of declared structs and
/// enums become references by id; untyped pointers, raw data and interfaces
/// have no type.
pub open spec fn translated_type(t: parser::ast::Type) -> Result<TypeView, Error>
    decreases t,
{
    match t {
        parser::ast::Type::Void => Ok(TypeView::Unit),
        parser::ast::Type::Bool => Ok(TypeView::Bool),
        parser::ast::Type::Int8 => Ok(TypeView::Int8),
        parser::ast::Type::Int16 => Ok(TypeView::Int16),
        parser::ast::Type::Int32 => Ok(TypeView::Int32),
        parser::ast::Type::Int64 => Ok(TypeView::Int64),
        parser::ast::Type::Uint8 => Ok(TypeView::Uint8),
        parser::ast::Type::Uint16 => Ok(TypeView::Uint16),
        parser::ast::Type::Uint32 => Ok(TypeView::Uint32),
        parser::ast::Type::Uint64 => Ok(TypeView::Uint64),
        parser::ast::Type::Float32 => Ok(TypeView::Float32),
        parser::ast::Type::Float64 => Ok(TypeView::Float64),
        parser::ast::Type::Text => Ok(TypeView::String),
        parser::ast::Type::Data => Err(Error::UnsupportedConstruct(Unsupported::Data)),
        parser::ast::Type::List(inner) => match translated_type(*inner) {
            Ok(element) => Ok(TypeView::List(Box::new(element))),
            Err(e) => Err(e),
        },
        parser::ast::Type::Enum { type_id } => Ok(TypeView::RefId(type_id)),
        parser::ast::Type::Struct { type_id } => Ok(TypeView::RefId(type_id)),
        parser::ast::Type::Interface { .. } => Err(
            Error::UnsupportedConstruct(Unsupported::Interface),
        ),
        parser::ast::Type::AnyPointer => Err(Error::UnsupportedConstruct(Unsupported::AnyPointer)),
    }
}

/// The field that a schema field becomes. A group has no field.
pub open spec fn translated_field(f: parser::ast::FieldView) -> Result<FieldView, Error> {
    match f.which {
        parser::ast::field::Which::Group(_) => Err(Error::UnsupportedConstruct(Unsupported::Group)),
        parser::ast::field::Which::Slot(t) => match translated_type(t) {
            Ok(rust_type) => Ok(FieldView { name: normalized(f.name), rust_type }),
            Err(e) => Err(e),
        },
    }
}

/// The enumerant that a member of a union becomes: its payload is the field's
/// type.
pub open spec fn translated_member(f: parser::ast::FieldView) -> Result<EnumerantView, Error> {
    match f.which {
        parser::ast::field::Which::Group(_) => Err(Error::UnsupportedConstruct(Unsupported::Group)),
        parser::ast::field::Which::Slot(t) => match translated_type(t) {
            Ok(rust_type) => Ok(EnumerantView { name: normalized(f.name), rust_type }),
            Err(e) => Err(e),
        },
    }
}

/// The enumerant that a value of a schema enum becomes: a plain tag.
pub open spec fn translated_enumerant(e: parser::ast::EnumerantView) -> EnumerantView {
    EnumerantView { name: normalized(e.name), rust_type: TypeView::Unit }
}

/// Whether the generated program has a type for a schema type: it is not an
/// untyped pointer, raw data or an interface, nor a list of such.
pub open spec fn type_supported(t: parser::ast::Type) -> bool
    decreases t,
{
    match t {
        parser::ast::Type::Data => false,
        parser::ast::Type::Interface { .. } => false,
        parser::ast::Type::AnyPointer => false,
        parser::ast::Type::List(inner) => type_supported(*inner),
        _ => true,
    }
}

/// Whether a field can be translated: it is a slot of a supported type.
pub open spec fn field_supported(f: parser::ast::FieldView) -> bool {
    match f.which {
        parser::ast::field::Which::Slot(t) => type_supported(t),
        parser::ast::field::Which::Group(_) => false,
    }
}

/// A schema type has a translation exactly if it is supported.
pub proof fn law_supported_types_translate(t: parser::ast::Type)
    ensures
        translated_type(t) is Ok <==> type_supported(t),
    decreases t,
{
    match t {
        parser::ast::Type::List(inner) => {
            law_supported_types_translate(*inner);
        },
        _ => {},
    }
}

/// A field has a translation, as a field and as a member of a union, exactly
/// if it is supported.
pub proof fn law_supported_fields_translate(f: parser::ast::FieldView)
    ensures
        translated_field(f) is Ok <==> field_supported(f),
        translated_member(f) is Ok <==> field_supported(f),
{
    match f.which {
        parser::ast::field::Which::Slot(t) => {
            law_supported_types_translate(t);
        },
        parser::ast::field::Which::Group(_) => {},
    }
}

/// Whether a schema type is a number or a boolean.
pub open spec fn is_number(t: parser::ast::Type) -> bool {
    match t {
        parser::ast::Type::Bool => true,
        parser::ast::Type::Int8 => true,
        parser::ast::Type::Int16 => true,
        parser::ast::Type::Int32 => true,
        parser::ast::Type::Int64 => true,
        parser::ast::Type::Uint8 => true,
        parser::ast::Type::Uint16 => true,
        parser::ast::Type::Uint32 => true,
        parser::ast::Type::Uint64 => true,
        parser::ast::Type::Float32 => true,
        parser::ast::Type::Float64 => true,
        _ => false,
    }
}

/// A field that holds a number or a boolean becomes a field of a type whose
/// values are copied, under the field's name.
pub proof fn law_number_fields_are_copied(f: parser::ast::FieldView)
    requires
        f.which is Slot,
        is_number(f.which->Slot_0),
    ensures
        translated_field(f) is Ok,
        translated_field(f)->Ok_0.name == normalized(f.name),
        is_primitive(translated_field(f)->Ok_0.rust_type),
        translated_field(f)->Ok_0.rust_type != TypeView::Unit,
{
}

/// Decides whether a schema type is supported.
pub fn is_supported_type(t: &parser::ast::Type) -> (b: bool)
    ensures
        b == type_supported(*t),
    decreases t,
{
    match t {
        parser::ast::Type::Data => false,
        parser::ast::Type::Interface { .. } => false,
        parser::ast::Type::AnyPointer => false,
        parser::ast::Type::List(inner) => is_supported_type(inner),
        _ => true,
    }
}

/// Translates a schema type.
pub fn translate_type(t: &parser::ast::Type) -> (r: Result<Type, Error>)
    ensures
        outcome(r) == translated_type(*t),
    decreases t,
{
    match t {
        parser::ast::Type::AnyPointer => Err(Error::UnsupportedConstruct(Unsupported::AnyPointer)),
        parser::ast::Type::Bool => Ok(Type::Bool),
        parser::ast::Type::Data => Err(Error::UnsupportedConstruct(Unsupported::Data)),
        parser::ast::Type::Enum { type_id } => Ok(Type::RefId(*type_id)),
        parser::ast::Type::Float32 => Ok(Type::Float32),
        parser::ast::Type::Float64 => Ok(Type::Float64),
        parser::ast::Type::Int16 => Ok(Type::Int16),
        parser::ast::Type::Int32 => Ok(Type::Int32),
        parser::ast::Type::Int64 => Ok(Type::Int64),
        parser::ast::Type::Int8 => Ok(Type::Int8),
        parser::ast::Type::Interface { .. } => Err(
            Error::UnsupportedConstruct(Unsupported::Interface),
        ),
        parser::ast::Type::List(inner) => match translate_type(inner) {
            Ok(element) => Ok(Type::List(Box::new(element))),
            Err(e) => Err(e),
        },
        parser::ast::Type::Struct { type_id } => Ok(Type::RefId(*type_id)),
        parser::ast::Type::Text => Ok(Type::String),
        parser::ast::Type::Uint16 => Ok(Type::Uint16),
        parser::ast::Type::Uint32 => Ok(Type::Uint32),
        parser::ast::Type::Uint64 => Ok(Type::Uint64),
        parser::ast::Type::Uint8 => Ok(Type::Uint8),
        parser::ast::Type::Void => Ok(Type::Unit),
    }
}

/// Translates a field of a struct.
pub fn translate_field(f: &parser::ast::Field) -> (r: Result<Field, Error>)
    ensures
        outcome(r) == translated_field(f@),
{
    match &f.which {
        parser::ast::field::Which::Group(_) => Err(Error::UnsupportedConstruct(Unsupported::Group)),
        parser::ast::field::Which::Slot(t) => match translate_type(t) {
            Ok(rust_type) => Ok(Field { name: Name::from(&f.name), rust_type }),
            Err(e) => Err(e),
        },
    }
}

/// Translates a member of a union.
pub fn translate_member(f: &parser::ast::Field) -> (r: Result<Enumerant, Error>)
    ensures
        outcome(r) == translated_member(f@),
{
    match &f.which {
        parser::ast::field::Which::Group(_) => Err(Error::UnsupportedConstruct(Unsupported::Group)),
        parser::ast::field::Which::Slot(t) => match translate_type(t) {
            Ok(rust_type) => Ok(Enumerant { name: Name::from(&f.name), rust_type }),
            Err(e) => Err(e),
        },
    }
}

/// Translates a value of a schema enum.
pub fn translate_enumerant(e: &parser::ast::Enumerant) -> (r: Enumerant)
    ensures
        r@ == translated_enumerant(e@),
{
    Enumerant { name: Name::from(&e.name), rust_type: Type::Unit }
}

//
// Structs and unions
//

/// What a struct node becomes, by how many of its fields belong to its union.
#[derive(Clone, Copy, Debug, PartialEq, Eq, Structural)]
pub enum StructShape {
    /// No fields: a struct without fields.
    Empty,
    /// Every field belongs to the union: an enum, and no struct.
    Union,
    /// Some fields belong to the union and some do not: a struct with the
    /// plain fields and a field for the union, and an enum for the union.
    PartialUnion,
    /// A struct with every field.
    Plain,
}

/// The shape of a struct node with `field_count` fields, `discriminant_count`
/// of them in its union.
pub open spec fn struct_shape(discriminant_count: u16, field_count: nat) -> StructShape {
    if field_count == 0 {
        StructShape::Empty
    } else if discriminant_count == field_count {
        StructShape::Union
    } else if 0 < discriminant_count < field_count {
        StructShape::PartialUnion
    } else {
        StructShape::Plain
    }
}

/// Of the four things that a struct node can become exactly one applies to
/// every count of fields and of union members: each shape has its own
/// condition, and no two conditions hold together.
pub proof fn law_struct_shape_is_total(discriminant_count: u16, field_count: nat)
    requires
        discriminant_count <= field_count,
    ensures
        struct_shape(discriminant_count, field_count) == StructShape::Empty <==> field_count == 0,
        struct_shape(discriminant_count, field_count) == StructShape::Union <==> (
        discriminant_count == field_count && field_count > 0),
        struct_shape(discriminant_count, field_count) == StructShape::PartialUnion <==> (0
            < discriminant_count < field_count),
        struct_shape(discriminant_count, field_count) == StructShape::Plain <==> (
        discriminant_count == 0 && field_count > 0),
{
}

/// Decides what a struct node becomes.
pub fn classify_struct(discriminant_count: u16, field_count: usize) -> (r: StructShape)
    ensures
        r == struct_shape(discriminant_count, field_count as nat),
{
    if field_count == 0 {
        StructShape::Empty
    } else if discriminant_count as usize == field_count {
        StructShape::Union
    } else if discriminant_count > 0 && (discriminant_count as usize) < field_count {
        StructShape::PartialUnion
    } else {
        StructShape::Plain
    }
}

/// The id of the enum that stands for the union of a partly discriminated
/// struct: the id after the struct's own, and the first id after the last. It
/// differs from the struct's id; that no other node has it is up to the schema.
pub open spec fn which_enum_id(id: Id) -> Id {
    if id == u64::MAX {
        0
    } else {
        (id + 1) as u64
    }
}

/// The id of the enum that stands for the union of the struct with this id.
pub fn generate_id_for_which_enum(id: Id) -> (r: Id)
    ensures
        r == which_enum_id(id),
        r != id,
{
    id.wrapping_add(1)
}

/// Which fields of a struct a translation takes.
#[derive(Clone, Copy, Debug, PartialEq, Eq, Structural)]
pub enum Selection {
    /// Every field.
    All,
    /// The fields outside the union.
    Plain,
    /// The members of the union.
    Union,
}

/// Whether the selection takes the field.
pub open spec fn takes(selection: Selection, f: parser::ast::FieldView) -> bool {
    match selection {
        Selection::All => true,
        Selection::Plain => f.discriminant_value == NO_DISCRIMINANT,
        Selection::Union => f.discriminant_value != NO_DISCRIMINANT,
    }
}

/// The test that the selection makes of a field.
pub open spec fn taking(selection: Selection) -> spec_fn(parser::ast::FieldView) -> bool {
    |f: parser::ast::FieldView| takes(selection, f)
}

/// The fields that the selection takes, in order.
pub open spec fn selected(fields: Seq<parser::ast::FieldView>, selection: Selection) -> Seq<
    parser::ast::FieldView,
> {
    kept(fields, taking(selection))
}

/// The selected fields as fields of a struct, or the first failure among them.
pub open spec fn translated_fields(
    fields: Seq<parser::ast::FieldView>,
    selection: Selection,
) -> Result<Seq<FieldView>, Error> {
    collected(selected(fields, selection).map_values(|f: parser::ast::FieldView| translated_field(f)))
}

/// The selected fields as enumerants, or the first failure among them.
pub open spec fn translated_members(
    fields: Seq<parser::ast::FieldView>,
    selection: Selection,
) -> Result<Seq<EnumerantView>, Error> {
    collected(
        selected(fields, selection).map_values(|f: parser::ast::FieldView| translated_member(f)),
    )
}

/// The values of the schema fields in `v`.
pub open spec fn schema_fields(v: Seq<parser::ast::Field>) -> Seq<parser::ast::FieldView> {
    v.map_values(|f: parser::ast::Field| f@)
}

fn is_taken(selection: Selection, f: &parser::ast::Field) -> (b: bool)
    ensures
        b == takes(selection, f@),
{
    match selection {
        Selection::All => true,
        Selection::Plain => f.discriminant_value == NO_DISCRIMINANT,
        Selection::Union => f.discriminant_value != NO_DISCRIMINANT,
    }
}

/// Translates the selected fields of a struct node into fields.
pub fn translate_fields(fields: &Vec<parser::ast::Field>, selection: Selection) -> (r: Result<
    Vec<Field>,
    Error,
>)
    ensures
        match r {
            Ok(v) => translated_fields(schema_fields(fields@), selection) == Ok::<
                Seq<FieldView>,
                Error,
            >(crate::rust::ast::field_views(v@)),
            Err(e) => translated_fields(schema_fields(fields@), selection) == Err::<
                Seq<FieldView>,
                Error,
            >(e),
        },
{
    let ghost all = schema_fields(fields@);
    let ghost keep = taking(selection);
    let ghost outcomes = selected(all, selection).map_values(
        |f: parser::ast::FieldView| translated_field(f),
    );
    let mut out: Vec<Field> = Vec::new();
    let mut i: usize = 0;
    while i < fields.len()
        invariant
            i <= fields.len(),
            all == schema_fields(fields@),
            keep == taking(selection),
            outcomes == selected(all, selection).map_values(
                |f: parser::ast::FieldView| translated_field(f),
            ),
            out.len() == kept(all.take(i as int), keep).len(),
            forall|j: int|
                0 <= j < out.len() ==> translated_field(kept(all.take(i as int), keep)[j]) == Ok::<
                    FieldView,
                    Error,
                >(out[j]@),
        decreases fields.len() - i,
    {
        proof {
            lemma_kept_step(all, keep, i as int);
            lemma_kept_prefix(all, keep, i + 1);
        }
        if is_taken(selection, &fields[i]) {
            match translate_field(&fields[i]) {
                Ok(field) => {
                    out.push(field);
                },
                Err(e) => {
                    proof {
                        let k = out.len() as int;
                        let full = selected(all, selection);
                        let front = kept(all.take(i as int), keep);
                        let next = kept(all.take(i + 1), keep);
                        assert(keep(all[i as int]));
                        assert(next == front.push(all[i as int]));
                        assert(next == full.take(next.len() as int));
                        assert(full[k] == next[k]);
                        assert forall|j: int| 0 <= j < k implies outcomes[j] is Ok by {
                            assert(full[j] == next[j]);
                            assert(next[j] == front[j]);
                        }
                        lemma_collected_err(outcomes, k);
                    }
                    return Err(e);
                },
            }
        }
        i += 1;
    }
    proof {
        assert(all.take(fields.len() as int) =~= all);
        lemma_collected_ok(outcomes, crate::rust::ast::field_views(out@));
    }
    Ok(out)
}

/// Translates the selected fields of a struct node into enumerants.
pub fn translate_members(fields: &Vec<parser::ast::Field>, selection: Selection) -> (r: Result<
    Vec<Enumerant>,
    Error,
>)
    ensures
        match r {
            Ok(v) => translated_members(schema_fields(fields@), selection) == Ok::<
                Seq<EnumerantView>,
                Error,
            >(crate::rust::ast::enumerant_views(v@)),
            Err(e) => translated_members(schema_fields(fields@), selection) == Err::<
                Seq<EnumerantView>,
                Error,
            >(e),
        },
{
    let ghost all = schema_fields(fields@);
    let ghost keep = taking(selection);
    let ghost outcomes = selected(all, selection).map_values(
        |f: parser::ast::FieldView| translated_member(f),
    );
    let mut out: Vec<Enumerant> = Vec::new();
    let mut i: usize = 0;
    while i < fields.len()
        invariant
            i <= fields.len(),
            all == schema_fields(fields@),
            keep == taking(selection),
            outcomes == selected(all, selection).map_values(
                |f: parser::ast::FieldView| translated_member(f),
            ),
            out.len() == kept(all.take(i as int), keep).len(),
            forall|j: int|
                0 <= j < out.len() ==> translated_member(kept(all.take(i as int), keep)[j])
                    == Ok::<EnumerantView, Error>(out[j]@),
        decreases fields.len() - i,
    {
        proof {
            lemma_kept_step(all, keep, i as int);
            lemma_kept_prefix(all, keep, i + 1);
        }
        if is_taken(selection, &fields[i]) {
            match translate_member(&fields[i]) {
                Ok(member) => {
                    out.push(member);
                },
                Err(e) => {
                    proof {
                        let k = out.len() as int;
                        let full = selected(all, selection);
                        let front = kept(all.take(i as int), keep);
                        let next = kept(all.take(i + 1), keep);
                        assert(keep(all[i as int]));
                        assert(next == front.push(all[i as int]));
                        assert(next == full.take(next.len() as int));
                        assert(full[k] == next[k]);
                        assert forall|j: int| 0 <= j < k implies outcomes[j] is Ok by {
                            assert(full[j] == next[j]);
                            assert(next[j] == front[j]);
                        }
                        lemma_collected_err(outcomes, k);
                    }
                    return Err(e);
                },
            }
        }
        i += 1;
    }
    proof {
        assert(all.take(fields.len() as int) =~= all);
        lemma_collected_ok(outcomes, crate::rust::ast::enumerant_views(out@));
    }
    Ok(out)
}

//
// Declarations
//

/// Whether a node declares a type: it is a struct or an enum.
pub open spec fn declares_type(w: parser::ast::node::WhichView) -> bool {
    w is Enum || w is Struct
}

/// Whether a node is a struct only a part of which is a union.
pub open spec fn is_partial_union(w: parser::ast::node::WhichView) -> bool {
    match w {
        parser::ast::node::WhichView::Struct { discriminant_count, fields, .. } => struct_shape(
            discriminant_count,
            fields.len(),
        ) == StructShape::PartialUnion,
        _ => false,
    }
}

/// The text of the name of the field that holds a struct's union.
pub open spec fn union_field_name() -> NameView {
    normalized("which"@)
}

/// The text of the name of the enum that stands for a struct's union.
pub open spec fn union_enum_name() -> NameView {
    normalized("Which"@)
}

/// The declaration that a struct or enum node named `name` becomes in the file
/// `filename`, inside the modules `modules`:
/// - an enum node becomes an enum of plain tags;
/// - a struct node without fields becomes a struct without fields;
/// - a struct node all of whose fields form a union becomes an enum with one
///   enumerant for each field;
/// - a struct node with a union and other fields becomes a struct of the other
///   fields and of one field, named `which`, that refers to the union's enum;
/// - any other struct node becomes a struct of all its fields.
pub open spec fn translated_type_def(
    name: NameView,
    filename: Seq<char>,
    modules: PathView,
    n: NodeView,
) -> Result<TypeDefView, Error> {
    let fully_qualified_type_name = qualified_type_name(modules, name);
    let capnp_type_name = capnp_type_name(filename, modules, name);
    match n.which {
        parser::ast::node::WhichView::Enum(enumerants) => Ok(
            TypeDefView::Enum(
                EnumView {
                    id: n.id,
                    name,
                    fully_qualified_type_name,
                    capnp_type_name,
                    enum_origin: EnumOrigin::Enum,
                    enumerants: enumerants.map_values(
                        |e: parser::ast::EnumerantView| translated_enumerant(e),
                    ),
                },
            ),
        ),
        parser::ast::node::WhichView::Struct { discriminant_count, fields, .. } => {
            match struct_shape(discriminant_count, fields.len()) {
                StructShape::Empty => Ok(
                    TypeDefView::Struct(
                        StructView {
                            id: n.id,
                            name,
                            fully_qualified_type_name,
                            capnp_type_name,
                            fields: Seq::empty(),
                        },
                    ),
                ),
                StructShape::Union => match translated_members(fields, Selection::All) {
                    Ok(enumerants) => Ok(
                        TypeDefView::Enum(
                            EnumView {
                                id: n.id,
                                name,
                                fully_qualified_type_name,
                                capnp_type_name,
                                enum_origin: EnumOrigin::Struct,
                                enumerants,
                            },
                        ),
                    ),
                    Err(e) => Err(e),
                },
                StructShape::PartialUnion => match translated_fields(fields, Selection::Plain) {
                    Ok(plain) => Ok(
                        TypeDefView::Struct(
                            StructView {
                                id: n.id,
                                name,
                                fully_qualified_type_name,
                                capnp_type_name,
                                fields: plain.push(
                                    FieldView {
                                        name: union_field_name(),
                                        rust_type: TypeView::RefId(which_enum_id(n.id)),
                                    },
                                ),
                            },
                        ),
                    ),
                    Err(e) => Err(e),
                },
                StructShape::Plain => match translated_fields(fields, Selection::All) {
                    Ok(all) => Ok(
                        TypeDefView::Struct(
                            StructView {
                                id: n.id,
                                name,
                                fully_qualified_type_name,
                                capnp_type_name,
                                fields: all,
                            },
                        ),
                    ),
                    Err(e) => Err(e),
                },
            }
        },
        _ => arbitrary(),
    }
}

/// The enum that stands for the union of the partly discriminated struct `n`,
/// which is named `name` and declared inside the modules `modules`: one
/// enumerant for each member of the union. The enum is declared beside the
/// struct, so its path is that of the enclosing module and its own name; the
/// schema's own type for it is the struct's. Its id is derived from the
/// struct's.
pub open spec fn translated_which_enum(
    name: NameView,
    filename: Seq<char>,
    modules: PathView,
    n: NodeView,
) -> Result<EnumView, Error> {
    match n.which {
        parser::ast::node::WhichView::Struct { fields, .. } => match translated_members(
            fields,
            Selection::Union,
        ) {
            Ok(enumerants) => Ok(
                EnumView {
                    id: which_enum_id(n.id),
                    name: union_enum_name(),
                    fully_qualified_type_name: qualified_type_name(modules, union_enum_name()),
                    capnp_type_name: capnp_type_name(filename, modules, name),
                    enum_origin: EnumOrigin::WhichForPartialUnion,
                    enumerants,
                },
            ),
            Err(e) => Err(e),
        },
        _ => arbitrary(),
    }
}

/// What a struct node becomes follows its shape:
/// - without fields, a struct without fields;
/// - with every field in the union, an enum that stands for a struct, with one
///   enumerant for each field, in order, named like the field and holding the
///   field's type;
/// - with a union and other fields, a struct with one field for each field
///   outside the union and, last, the field `which` that refers to the enum of
///   the union;
/// - else, a struct with one field for each field, in order, named like the
///   field and of the field's type.
pub proof fn law_struct_translation_follows_shape(
    name: NameView,
    filename: Seq<char>,
    modules: PathView,
    n: NodeView,
)
    requires
        n.which is Struct,
        translated_type_def(name, filename, modules, n) is Ok,
    ensures
        ({
            let d = translated_type_def(name, filename, modules, n)->Ok_0;
            let fields = n.which->fields;
            match struct_shape(n.which->discriminant_count, fields.len()) {
                StructShape::Empty => d is Struct && d->Struct_0.fields.len() == 0,
                StructShape::Union => {
                    &&& d is Enum
                    &&& d->Enum_0.enum_origin == EnumOrigin::Struct
                    &&& d->Enum_0.enumerants.len() == fields.len()
                    &&& forall|i: int|
                        0 <= i < fields.len() ==> translated_member(fields[i]) == Ok::<
                            EnumerantView,
                            Error,
                        >(#[trigger] d->Enum_0.enumerants[i])
                },
                StructShape::PartialUnion => {
                    &&& d is Struct
                    &&& d->Struct_0.fields.len() == selected(fields, Selection::Plain).len() + 1
                    &&& d->Struct_0.fields.last() == (FieldView {
                        name: union_field_name(),
                        rust_type: TypeView::RefId(which_enum_id(n.id)),
                    })
                    &&& forall|i: int|
                        0 <= i < selected(fields, Selection::Plain).len() ==> translated_field(
                            selected(fields, Selection::Plain)[i],
                        ) == Ok::<FieldView, Error>(#[trigger] d->Struct_0.fields[i])
                },
                StructShape::Plain => {
                    &&& d is Struct
                    &&& d->Struct_0.fields.len() == fields.len()
                    &&& forall|i: int|
                        0 <= i < fields.len() ==> translated_field(fields[i]) == Ok::<
                            FieldView,
                            Error,
                        >(#[trigger] d->Struct_0.fields[i])
                },
            }
        }),
{
    let d = translated_type_def(name, filename, modules, n)->Ok_0;
    let fields = n.which->fields;
    lemma_kept_all(fields, taking(Selection::All));
    assert(selected(fields, Selection::All) == fields);
    match struct_shape(n.which->discriminant_count, fields.len()) {
        StructShape::Empty => {},
        StructShape::Union => {
            let outcomes = fields.map_values(|f: parser::ast::FieldView| translated_member(f));
            lemma_collected_values(outcomes);
            let enumerants = d->Enum_0.enumerants;
            assert(enumerants == collected(outcomes)->Ok_0);
            assert forall|i: int| 0 <= i < fields.len() implies translated_member(fields[i])
                == Ok::<EnumerantView, Error>(#[trigger] enumerants[i]) by {
                assert(outcomes[i] == translated_member(fields[i]));
            }
        },
        StructShape::PartialUnion => {
            let plain = selected(fields, Selection::Plain);
            let outcomes = plain.map_values(|f: parser::ast::FieldView| translated_field(f));
            lemma_collected_values(outcomes);
            let front = collected(outcomes)->Ok_0;
            let all = d->Struct_0.fields;
            assert(all == front.push(
                FieldView {
                    name: union_field_name(),
                    rust_type: TypeView::RefId(which_enum_id(n.id)),
                },
            ));
            assert forall|i: int| 0 <= i < plain.len() implies translated_field(plain[i]) == Ok::<
                FieldView,
                Error,
            >(#[trigger] all[i]) by {
                assert(outcomes[i] == translated_field(plain[i]));
                assert(all[i] == front[i]);
            }
        },
        StructShape::Plain => {
            let outcomes = fields.map_values(|f: parser::ast::FieldView| translated_field(f));
            lemma_collected_values(outcomes);
            let all = d->Struct_0.fields;
            assert(all == collected(outcomes)->Ok_0);
            assert forall|i: int| 0 <= i < fields.len() implies translated_field(fields[i])
                == Ok::<FieldView, Error>(#[trigger] all[i]) by {
                assert(outcomes[i] == translated_field(fields[i]));
            }
        },
    }
}

/// Whether every field that the selection takes is supported.
pub open spec fn fields_supported(
    fields: Seq<parser::ast::FieldView>,
    selection: Selection,
) -> bool {
    forall|i: int|
        0 <= i < fields.len() && takes(selection, #[trigger] fields[i]) ==> field_supported(
            fields[i],
        )
}

/// The fields that a selection takes have translations, as fields and as
/// members of a union, exactly if each of them is supported.
pub proof fn law_supported_selections_translate(
    fields: Seq<parser::ast::FieldView>,
    selection: Selection,
)
    ensures
        translated_fields(fields, selection) is Ok <==> fields_supported(fields, selection),
        translated_members(fields, selection) is Ok <==> fields_supported(fields, selection),
{
    let chosen = selected(fields, selection);
    let as_fields = chosen.map_values(|f: parser::ast::FieldView| translated_field(f));
    let as_members = chosen.map_values(|f: parser::ast::FieldView| translated_member(f));
    if fields_supported(fields, selection) {
        assert forall|k: int| 0 <= k < as_fields.len() implies (#[trigger] as_fields[k]) is Ok by {
            let i = lemma_kept_origin(fields, taking(selection), k);
            law_supported_fields_translate(fields[i]);
        }
        assert forall|k: int| 0 <= k < as_members.len() implies (#[trigger] as_members[k]) is Ok by {
            let i = lemma_kept_origin(fields, taking(selection), k);
            law_supported_fields_translate(fields[i]);
        }
    }
    lemma_collected_values(as_fields);
    lemma_collected_values(as_members);
    if translated_fields(fields, selection) is Ok || translated_members(fields, selection) is Ok {
        assert forall|i: int|
            0 <= i < fields.len() && takes(selection, #[trigger] fields[i]) implies field_supported(
            fields[i],
        ) by {
            let k = lemma_kept_holds(fields, taking(selection), i);
            law_supported_fields_translate(fields[i]);
            assert(as_fields[k] == translated_field(fields[i]));
            assert(as_members[k] == translated_member(fields[i]));
        }
    }
}

/// Whether the declaration of a node can be translated: every field that the
/// declaration takes is supported. An enum node has no fields; the struct of
/// a partial union takes the fields outside the union.
pub open spec fn declaration_supported(n: NodeView) -> bool {
    match n.which {
        parser::ast::node::WhichView::Struct { discriminant_count, fields, .. } => {
            match struct_shape(discriminant_count, fields.len()) {
                StructShape::Empty => true,
                StructShape::Union => fields_supported(fields, Selection::All),
                StructShape::PartialUnion => fields_supported(fields, Selection::Plain),
                StructShape::Plain => fields_supported(fields, Selection::All),
            }
        },
        _ => true,
    }
}

/// Whether the enum of a node's union can be translated: every member of the
/// union is supported.
pub open spec fn union_supported(n: NodeView) -> bool {
    match n.which {
        parser::ast::node::WhichView::Struct { fields, .. } => fields_supported(
            fields,
            Selection::Union,
        ),
        _ => true,
    }
}

/// A struct or enum node has a translation exactly if its declaration is
/// supported.
pub proof fn law_supported_declarations_translate(
    name: NameView,
    filename: Seq<char>,
    modules: PathView,
    n: NodeView,
)
    requires
        declares_type(n.which),
    ensures
        translated_type_def(name, filename, modules, n) is Ok <==> declaration_supported(n),
{
    if n.which is Struct {
        let fields = n.which->fields;
        law_supported_selections_translate(fields, Selection::All);
        law_supported_selections_translate(fields, Selection::Plain);
    }
}

/// The enum of a struct's union has a translation exactly if the union is
/// supported.
pub proof fn law_supported_unions_translate(
    name: NameView,
    filename: Seq<char>,
    modules: PathView,
    n: NodeView,
)
    requires
        n.which is Struct,
    ensures
        translated_which_enum(name, filename, modules, n) is Ok <==> union_supported(n),
{
    law_supported_selections_translate(n.which->fields, Selection::Union);
}

/// Decides whether the context names a node that declares a type, as the
/// translation of its declaration asks.
pub fn names_declaration(ctx: &TranslationContext, n: &Node) -> (b: bool)
    ensures
        b == (declares_type(n@.which) && ctx@.names.contains_key(n.id)),
{
    let declares = match &n.which {
        parser::ast::node::Which::Enum(_) => true,
        parser::ast::node::Which::Struct { .. } => true,
        _ => false,
    };
    proof {
        assert(ctx@.names.contains_key(n.id) == ctx.names@.contains_key(n.id));
    }
    declares && ctx.names.contains_key(&n.id)
}

fn translate_type_def_at(name: &Name, filename: &String, modules: &Vec<Name>, n: &Node) -> (r:
    Result<TypeDef, Error>)
    requires
        declares_type(n@.which),
    ensures
        outcome(r) == translated_type_def(name@, filename@, path_view(modules@), n@),
{
    let ghost expected = translated_type_def(name@, filename@, path_view(modules@), n@);
    match &n.which {
        parser::ast::node::Which::Enum(enumerants) => {
            let mut new_enumerants: Vec<Enumerant> = Vec::new();
            let mut i: usize = 0;
            while i < enumerants.len()
                invariant
                    i <= enumerants.len(),
                    new_enumerants.len() == i,
                    forall|j: int|
                        0 <= j < i ==> new_enumerants[j]@ == translated_enumerant(enumerants[j]@),
                decreases enumerants.len() - i,
            {
                new_enumerants.push(translate_enumerant(&enumerants[i]));
                i += 1;
            }
            let r = Enum {
                id: n.id,
                name: name.clone(),
                fully_qualified_type_name: qualified_path_at(modules, name),
                capnp_type_name: capnp_path_at(filename, modules, name),
                enum_origin: EnumOrigin::Enum,
                enumerants: new_enumerants,
            };
            proof {
                assert(r@.enumerants =~= expected->Ok_0->Enum_0.enumerants);
            }
            Ok(TypeDef::Enum(r))
        },
        parser::ast::node::Which::Struct { discriminant_count, fields, .. } => {
            proof {
                lemma_kept_all(schema_fields(fields@), taking(Selection::All));
                assert(n@.which->fields =~= schema_fields(fields@));
            }
            match classify_struct(*discriminant_count, fields.len()) {
                StructShape::Empty => {
                    let r = Struct {
                        id: n.id,
                        name: name.clone(),
                        fully_qualified_type_name: qualified_path_at(modules, name),
                        capnp_type_name: capnp_path_at(filename, modules, name),
                        fields: Vec::new(),
                    };
                    proof {
                        assert(r@.fields =~= Seq::empty());
                    }
                    Ok(TypeDef::Struct(r))
                },
                StructShape::Union => match translate_members(fields, Selection::All) {
                    Ok(enumerants) => {
                        let r = Enum {
                            id: n.id,
                            name: name.clone(),
                            fully_qualified_type_name: qualified_path_at(modules, name),
                            capnp_type_name: capnp_path_at(filename, modules, name),
                            enum_origin: EnumOrigin::Struct,
                            enumerants,
                        };
                        proof {
                            assert(r@.enumerants =~= expected->Ok_0->Enum_0.enumerants);
                        }
                        Ok(TypeDef::Enum(r))
                    },
                    Err(e) => Err(e),
                },
                StructShape::PartialUnion => match translate_fields(fields, Selection::Plain) {
                    Ok(plain) => {
                        let mut new_fields = plain;
                        let ghost before = crate::rust::ast::field_views(new_fields@);
                        new_fields.push(
                            Field {
                                name: Name::from(&String::from_str("which")),
                                rust_type: Type::RefId(generate_id_for_which_enum(n.id)),
                            },
                        );
                        let r = Struct {
                            id: n.id,
                            name: name.clone(),
                            fully_qualified_type_name: qualified_path_at(modules, name),
                            capnp_type_name: capnp_path_at(filename, modules, name),
                            fields: new_fields,
                        };
                        proof {
                            assert(r@.fields =~= before.push(
                                FieldView {
                                    name: union_field_name(),
                                    rust_type: TypeView::RefId(which_enum_id(n.id)),
                                },
                            ));
                        }
                        Ok(TypeDef::Struct(r))
                    },
                    Err(e) => Err(e),
                },
                StructShape::Plain => match translate_fields(fields, Selection::All) {
                    Ok(all) => {
                        let r = Struct {
                            id: n.id,
                            name: name.clone(),
                            fully_qualified_type_name: qualified_path_at(modules, name),
                            capnp_type_name: capnp_path_at(filename, modules, name),
                            fields: all,
                        };
                        proof {
                            assert(r@.fields =~= expected->Ok_0->Struct_0.fields);
                        }
                        Ok(TypeDef::Struct(r))
                    },
                    Err(e) => Err(e),
                },
            }
        },
        _ => {
            proof {
                assert(false);
            }
            unreached()
        },
    }
}

fn translate_which_enum_at(name: &Name, filename: &String, modules: &Vec<Name>, n: &Node) -> (r:
    Result<Enum, Error>)
    requires
        n@.which is Struct,
    ensures
        outcome(r) == translated_which_enum(name@, filename@, path_view(modules@), n@),
{
    match &n.which {
        parser::ast::node::Which::Struct { fields, .. } => {
            proof {
                assert(n@.which->fields =~= schema_fields(fields@));
            }
            match translate_members(fields, Selection::Union) {
                Ok(enumerants) => {
                    let which = Name::from(&String::from_str("Which"));
                    let r = Enum {
                        id: generate_id_for_which_enum(n.id),
                        name: which.clone(),
                        fully_qualified_type_name: qualified_path_at(modules, &which),
                        capnp_type_name: capnp_path_at(filename, modules, name),
                        enum_origin: EnumOrigin::WhichForPartialUnion,
                        enumerants,
                    };
                    proof {
                        assert(r@.enumerants =~= crate::rust::ast::enumerant_views(r.enumerants@));
                    }
                    Ok(r)
                },
                Err(e) => Err(e),
            }
        },
        _ => {
            proof {
                assert(false);
            }
            unreached()
        },
    }
}

//
// Modules
//

/// The import that every translated module starts with.
pub open spec fn accessor_import() -> Seq<char> {
    "crate::getset::{Getters, CopyGetters, MutGetters, Setters}"@
}

/// What the declaration at place `j` among those nested in `n` adds to the
/// module of `n`:
/// - nothing if no node has its id;
/// - for a struct or an enum its declaration, then the module of what is
///   nested in it;
/// - for a struct with a partial union, behind those two, the enum of the
///   union;
/// - for any other node the module of what is nested in it.
///
/// A node is refused where the budget of nesting is used up, and a struct with
/// a partial union where the id derived for its enum is the id of a node.
pub open spec fn nested_elements(sub: ContextView, n: NodeView, j: int, budget: nat) -> Result<
    Seq<ModuleElementView>,
    Error,
>
    decreases budget, 1nat,
{
    let nested = n.nested_nodes[j];
    if !sub.nodes.contains_key(nested.id) {
        Ok(Seq::empty())
    } else {
        let node = sub.nodes[nested.id];
        if budget == 0 {
            Err(Error::CyclicNesting)
        } else if is_partial_union(node.which) && sub.nodes.contains_key(which_enum_id(node.id)) {
            Err(Error::UnionIdTaken(which_enum_id(node.id)))
        } else if declares_type(node.which) {
            match translated_type_def(sub.names[node.id], sub.filename, sub.modules, node) {
                Err(e) => Err(e),
                Ok(d) => match translated_module_within(sub, node, (budget - 1) as nat) {
                    Err(e) => Err(e),
                    Ok(m) => if is_partial_union(node.which) {
                        match translated_which_enum(
                            sub.names[node.id],
                            sub.filename,
                            sub.modules,
                            node,
                        ) {
                            Err(e) => Err(e),
                            Ok(which) => Ok(
                                seq![
                                    ModuleElementView::TypeDef(d),
                                    ModuleElementView::Module(m),
                                    ModuleElementView::TypeDef(TypeDefView::Enum(which)),
                                ],
                            ),
                        }
                    } else {
                        Ok(seq![ModuleElementView::TypeDef(d), ModuleElementView::Module(m)])
                    },
                },
            }
        } else {
            match translated_module_within(sub, node, (budget - 1) as nat) {
                Err(e) => Err(e),
                Ok(m) => Ok(seq![ModuleElementView::Module(m)]),
            }
        }
    }
}

/// Whether what the nested declaration adds to a module can be translated
/// with at most `budget` modules one inside another. A declaration without a
/// node is passed over. One with a node asks that the budget is not used up,
/// that the id derived for the enum of a partial union is no node's id, that
/// the declaration and the union are supported, and that what is nested in the
/// node can be translated.
pub open spec fn nested_translates(
    nodes: Map<Id, NodeView>,
    nested: parser::ast::node::NestedNodeView,
    budget: nat,
) -> bool
    decreases budget, 0nat,
{
    if !nodes.contains_key(nested.id) {
        true
    } else {
        let node = nodes[nested.id];
        &&& budget > 0
        &&& is_partial_union(node.which) ==> !nodes.contains_key(which_enum_id(node.id))
            && union_supported(node)
        &&& declares_type(node.which) ==> declaration_supported(node)
        &&& module_translates(nodes, node, (budget - 1) as nat)
    }
}

/// Whether the module of a node can be translated with at most `budget` more
/// modules one inside another below it: what each nested declaration adds can
/// be translated.
pub open spec fn module_translates(nodes: Map<Id, NodeView>, n: NodeView, budget: nat) -> bool
    decreases budget, 1nat,
{
    forall|j: int|
        0 <= j < n.nested_nodes.len() ==> nested_translates(
            nodes,
            #[trigger] n.nested_nodes[j],
            budget,
        )
}

/// What a nested declaration adds to a module has a translation exactly if it
/// can be translated.
pub proof fn law_nested_translates(sub: ContextView, n: NodeView, j: int, budget: nat)
    requires
        0 <= j < n.nested_nodes.len(),
    ensures
        nested_elements(sub, n, j, budget) is Ok <==> nested_translates(
            sub.nodes,
            n.nested_nodes[j],
            budget,
        ),
    decreases budget, 0nat,
{
    let nested = n.nested_nodes[j];
    if sub.nodes.contains_key(nested.id) && budget > 0 {
        let node = sub.nodes[nested.id];
        law_module_translates(sub, node, (budget - 1) as nat);
        if declares_type(node.which) {
            law_supported_declarations_translate(
                sub.names[node.id],
                sub.filename,
                sub.modules,
                node,
            );
        }
        if is_partial_union(node.which) {
            law_supported_unions_translate(sub.names[node.id], sub.filename, sub.modules, node);
        }
    }
}

/// The module of a node has a translation exactly if it can be translated.
pub proof fn law_module_translates(ctx: ContextView, n: NodeView, budget: nat)
    ensures
        translated_module_within(ctx, n, budget) is Ok <==> module_translates(
            ctx.nodes,
            n,
            budget,
        ),
    decreases budget, 1nat,
{
    let sub = ctx.in_module(ctx.names[n.id]);
    let outcomes = nested_outcomes(sub, n, budget);
    assert forall|j: int| 0 <= j < n.nested_nodes.len() implies ((#[trigger] outcomes[j]) is Ok
        <==> nested_translates(ctx.nodes, n.nested_nodes[j], budget)) by {
        law_nested_translates(sub, n, j, budget);
    }
    lemma_collected_values(outcomes);
    if module_translates(ctx.nodes, n, budget) {
        assert forall|j: int| 0 <= j < outcomes.len() implies (#[trigger] outcomes[j]) is Ok by {
            assert(nested_translates(ctx.nodes, n.nested_nodes[j], budget));
        }
    }
    if translated_module_within(ctx, n, budget) is Ok {
        assert forall|j: int| 0 <= j < n.nested_nodes.len() implies nested_translates(
            ctx.nodes,
            #[trigger] n.nested_nodes[j],
            budget,
        ) by {
            assert(outcomes[j] is Ok);
        }
    }
}

/// A nested struct with a partial union that can be translated adds three
/// elements to the module that it is nested in, whatever else is nested
/// there: the struct, the module of what the struct nests, and
/// last the enum of the union, which has the derived id, the name `Which`, a
/// path in that same module, and one enumerant for each member of the union.
pub proof fn law_union_enum_stands_beside_its_struct(
    sub: ContextView,
    n: NodeView,
    j: int,
    budget: nat,
)
    requires
        0 <= j < n.nested_nodes.len(),
        sub.nodes.contains_key(n.nested_nodes[j].id),
        is_partial_union(sub.nodes[n.nested_nodes[j].id].which),
        nested_translates(sub.nodes, n.nested_nodes[j], budget),
    ensures
        nested_elements(sub, n, j, budget) is Ok,
        ({
            let node = sub.nodes[n.nested_nodes[j].id];
            let added = nested_elements(sub, n, j, budget)->Ok_0;
            &&& added.len() == 3
            &&& added[0] is TypeDef
            &&& added[0]->TypeDef_0 is Struct
            &&& added[1] is Module
            &&& added[2] is TypeDef
            &&& added[2]->TypeDef_0 is Enum
            &&& added[2]->TypeDef_0->Enum_0.enum_origin == EnumOrigin::WhichForPartialUnion
            &&& added[2]->TypeDef_0->Enum_0.id == which_enum_id(node.id)
            &&& added[2]->TypeDef_0->Enum_0.name == union_enum_name()
            &&& added[2]->TypeDef_0->Enum_0.fully_qualified_type_name == sub.modules.push(
                union_enum_name(),
            )
            &&& translated_members(node.which->fields, Selection::Union) == Ok::<
                Seq<EnumerantView>,
                Error,
            >(added[2]->TypeDef_0->Enum_0.enumerants)
            &&& !sub.nodes.contains_key(which_enum_id(node.id))
        }),
{
    law_nested_translates(sub, n, j, budget);
}

/// The module of a node whose only nested declaration is a struct with a
/// partial union that can be translated holds four elements: the import, the
/// struct, the module of what the struct nests, and the enum of the union.
pub proof fn law_module_of_one_union_struct(ctx: ContextView, n: NodeView, budget: nat)
    requires
        n.nested_nodes.len() == 1,
        ctx.nodes.contains_key(n.nested_nodes[0].id),
        is_partial_union(ctx.nodes[n.nested_nodes[0].id].which),
        module_translates(ctx.nodes, n, budget),
    ensures
        translated_module_within(ctx, n, budget) is Ok,
        ({
            let node = ctx.nodes[n.nested_nodes[0].id];
            let elements = translated_module_within(ctx, n, budget)->Ok_0.elements;
            &&& elements.len() == 4
            &&& elements[0] == ModuleElementView::UseDecl(accessor_import())
            &&& elements[1] is TypeDef
            &&& elements[1]->TypeDef_0 is Struct
            &&& elements[2] is Module
            &&& elements[3] is TypeDef
            &&& elements[3]->TypeDef_0 is Enum
            &&& elements[3]->TypeDef_0->Enum_0.enum_origin == EnumOrigin::WhichForPartialUnion
            &&& elements[3]->TypeDef_0->Enum_0.id == which_enum_id(node.id)
            &&& elements[3]->TypeDef_0->Enum_0.name == union_enum_name()
            &&& translated_members(node.which->fields, Selection::Union) == Ok::<
                Seq<EnumerantView>,
                Error,
            >(elements[3]->TypeDef_0->Enum_0.enumerants)
        }),
{
    let sub = ctx.in_module(ctx.names[n.id]);
    let outcomes = nested_outcomes(sub, n, budget);
    law_module_translates(ctx, n, budget);
    lemma_collected_values(outcomes);
    assert(nested_translates(ctx.nodes, n.nested_nodes[0], budget));
    law_union_enum_stands_beside_its_struct(sub, n, 0, budget);
    assert(outcomes[0] == nested_elements(sub, n, 0, budget));
    let parts = collected(outcomes)->Ok_0;
    reveal_with_fuel(concatenated, 3);
    assert(parts.drop_last() =~= Seq::<Seq<ModuleElementView>>::empty());
    assert(concatenated(parts) =~= parts[0]);
}

/// What each declaration nested in `n` adds to the module of `n`.
pub open spec fn nested_outcomes(sub: ContextView, n: NodeView, budget: nat) -> Seq<
    Result<Seq<ModuleElementView>, Error>,
>
    decreases budget, 2nat,
{
    Seq::new(
        n.nested_nodes.len(),
        |j: int|
            if 0 <= j < n.nested_nodes.len() {
                nested_elements(sub, n, j, budget)
            } else {
                Ok(Seq::empty())
            },
    )
}

/// The module of the node `n`, which lies in the modules of `ctx`, with at most
/// `budget` more modules one inside another below it: the import, then what
/// the nested declarations add, in their order. The first failure ends the
/// translation; so does nesting that uses up the budget.
pub open spec fn translated_module_within(
    ctx: ContextView,
    n: NodeView,
    budget: nat,
) -> Result<ModuleView, Error>
    decreases budget, 3nat,
{
    let name = ctx.names[n.id];
    match collected(nested_outcomes(ctx.in_module(name), n, budget)) {
        Err(e) => Err(e),
        Ok(parts) => Ok(
            ModuleView {
                name,
                elements: seq![ModuleElementView::UseDecl(accessor_import())] + concatenated(
                    parts,
                ),
            },
        ),
    }
}

/// The module of the node `n`, which lies in the modules of `ctx`. Below it,
/// modules may lie one inside another as deep as there are nodes: nodes that
/// are nested without repetition need no more, so that deeper nesting is a
/// cycle.
pub open spec fn translated_module(ctx: ContextView, n: NodeView) -> Result<ModuleView, Error> {
    translated_module_within(ctx, n, ctx.nodes.dom().len())
}

fn declares_a_type(n: &Node) -> (b: bool)
    ensures
        b == declares_type(n@.which),
{
    match &n.which {
        parser::ast::node::Which::Enum(_) => true,
        parser::ast::node::Which::Struct { .. } => true,
        _ => false,
    }
}

fn is_partly_union(n: &Node) -> (b: bool)
    ensures
        b == is_partial_union(n@.which),
{
    match &n.which {
        parser::ast::node::Which::Struct { discriminant_count, fields, .. } => {
            match classify_struct(*discriminant_count, fields.len()) {
                StructShape::PartialUnion => true,
                _ => false,
            }
        },
        _ => false,
    }
}

fn translate_module_at(
    ctx: &TranslationContext,
    filename: &String,
    modules: &Vec<Name>,
    n: &Node,
    budget: usize,
) -> (r: Result<Module, Error>)
    requires
        ctx@.names_reached(n@, budget as nat),
    ensures
        outcome(r) == translated_module_within(
            ctx@.at(filename@, path_view(modules@)),
            n@,
            budget as nat,
        ),
    decreases budget,
{
    let ghost here = ctx@.at(filename@, path_view(modules@));
    let module_name = name_of(ctx, n.id).clone();
    let mut inner = modules.clone();
    proof {
        assert(path_view(inner@) =~= path_view(modules@));
    }
    inner.push(module_name.clone());
    proof {
        assert(path_view(inner@) =~= path_view(modules@).push(module_name@));
    }
    let ghost sub = here.in_module(module_name@);
    let ghost outcomes = nested_outcomes(sub, n@, budget as nat);
    let ghost mut parts: Seq<Seq<ModuleElementView>> = Seq::empty();

    let mut defs: Vec<ModuleElement> = Vec::new();
    defs.push(
        ModuleElement::UseDecl(
            String::from_str("crate::getset::{Getters, CopyGetters, MutGetters, Setters}"),
        ),
    );
    proof {
        assert(element_views(defs@) =~= seq![ModuleElementView::UseDecl(accessor_import())]
            + concatenated(parts));
    }
    let mut i: usize = 0;
    while i < n.nested_nodes.len()
        invariant
            i <= n.nested_nodes.len(),
            ctx@.names_reached(n@, budget as nat),
            here == ctx@.at(filename@, path_view(modules@)),
            sub == here.in_module(module_name@),
            sub == ctx@.at(filename@, path_view(inner@)),
            module_name@ == ctx@.names[n@.id],
            outcomes == nested_outcomes(sub, n@, budget as nat),
            parts.len() == i,
            forall|j: int|
                0 <= j < i ==> outcomes[j] == Ok::<Seq<ModuleElementView>, Error>(parts[j]),
            element_views(defs@) == seq![ModuleElementView::UseDecl(accessor_import())]
                + concatenated(parts),
        decreases n.nested_nodes.len() - i,
    {
        let nested = &n.nested_nodes[i];
        let ghost before = element_views(defs@);
        let ghost mut added: Seq<ModuleElementView> = Seq::empty();
        proof {
            assert(n@.nested_nodes[i as int] == nested@);
            assert(outcomes[i as int] == nested_elements(sub, n@, i as int, budget as nat));
        }
        match ctx.nodes.get(&nested.id) {
            None => {
                proof {
                    assert(!ctx.nodes@.contains_key(nested.id));
                    assert(!sub.nodes.contains_key(nested.id));
                }
            },
            Some(node) => {
                proof {
                    assert(ctx@.nodes.contains_key(nested.id));
                    assert(ctx@.nodes[nested.id] == node@);
                }
                if budget == 0 {
                    proof {
                        lemma_collected_err(outcomes, i as int);
                    }
                    return Err(Error::CyclicNesting);
                }
                proof {
                    assert(ctx@.names_reached(node@, (budget - 1) as nat));
                    assert(ctx@.names.contains_key(node@.id));
                }
                let union = is_partly_union(node);
                if union {
                    let id = generate_id_for_which_enum(node.id);
                    proof {
                        assert(ctx@.nodes.contains_key(id) == ctx.nodes@.contains_key(id));
                    }
                    if ctx.nodes.contains_key(&id) {
                        proof {
                            lemma_collected_err(outcomes, i as int);
                        }
                        return Err(Error::UnionIdTaken(id));
                    }
                }
                if declares_a_type(node) {
                    match translate_type_def_at(name_of(ctx, node.id), filename, &inner, node) {
                        Ok(d) => {
                            proof {
                                added = added.push(ModuleElementView::TypeDef(d@));
                            }
                            defs.push(ModuleElement::TypeDef(d));
                        },
                        Err(e) => {
                            proof {
                                assert(outcomes[i as int] == Err::<Seq<ModuleElementView>, Error>(e));
                                lemma_collected_err(outcomes, i as int);
                            }
                            return Err(e);
                        },
                    }
                }
                match translate_module_at(ctx, filename, &inner, node, budget - 1) {
                    Ok(m) => {
                        proof {
                            added = added.push(ModuleElementView::Module(m@));
                        }
                        defs.push(ModuleElement::Module(m));
                    },
                    Err(e) => {
                        proof {
                            assert(outcomes[i as int] == Err::<Seq<ModuleElementView>, Error>(e));
                            lemma_collected_err(outcomes, i as int);
                        }
                        return Err(e);
                    },
                }
                if union {
                    match translate_which_enum_at(name_of(ctx, node.id), filename, &inner, node) {
                        Ok(which) => {
                            proof {
                                added = added.push(
                                    ModuleElementView::TypeDef(TypeDefView::Enum(which@)),
                                );
                                assert(added =~= seq![added[0], added[1], added[2]]);
                            }
                            defs.push(ModuleElement::TypeDef(TypeDef::Enum(which)));
                        },
                        Err(e) => {
                            proof {
                                assert(outcomes[i as int] == Err::<Seq<ModuleElementView>, Error>(e));
                                lemma_collected_err(outcomes, i as int);
                            }
                            return Err(e);
                        },
                    }
                } else {
                    proof {
                        if declares_type(node@.which) {
                            assert(added =~= seq![added[0], added[1]]);
                        } else {
                            assert(added =~= seq![added[0]]);
                        }
                    }
                }
            },
        }
        proof {
            assert(outcomes[i as int] == Ok::<Seq<ModuleElementView>, Error>(added));
            assert(element_views(defs@) =~= before + added);
            assert(parts.push(added).drop_last() =~= parts);
            parts = parts.push(added);
            assert(element_views(defs@) =~= seq![ModuleElementView::UseDecl(accessor_import())]
                + concatenated(parts));
        }
        i += 1;
    }
    proof {
        lemma_collected_ok(outcomes, parts);
    }
    let r = Module { name: module_name, elements: defs };
    proof {
        assert(r@.elements =~= element_views(r.elements@));
    }
    Ok(r)
}

//
// Files
//

/// The test for a file node.
pub open spec fn is_file() -> spec_fn(NodeView) -> bool {
    |n: NodeView| n.which is File
}

/// The module of a file node.
pub open spec fn file_module(ctx: ContextView, cgr: parser::ast::CodeGeneratorRequestView) -> spec_fn(
    NodeView,
) -> Result<ModuleView, Error> {
    |n: NodeView| translated_module(ctx.in_file(file_of(cgr, n)), n)
}

/// The name, as it is written, of the module that the schema's own compiler
/// generates for a file node.
pub open spec fn file_decl(cgr: parser::ast::CodeGeneratorRequestView) -> spec_fn(NodeView) -> Seq<
    char,
> {
    |n: NodeView| snake(capnp_mod_name(file_of(cgr, n)))
}

/// The test for a text that is one of `existing`.
pub open spec fn among(existing: Seq<Seq<char>>) -> spec_fn(Seq<char>) -> bool {
    |s: Seq<char>| existing.contains(s)
}

/// The crates that every generated file declares.
pub open spec fn crate_decls() -> Seq<Seq<char>> {
    seq!["#[macro_use] extern crate derive_more;"@, "extern crate getset;"@]
}

/// The generated file for a schema description: the index is built on top of
/// `ctx`, every file node becomes a module, and of the modules that the
/// schema's own compiler generates those are declared that exist already.
pub open spec fn translated_ast(
    ctx: ContextView,
    cgr: parser::ast::CodeGeneratorRequestView,
) -> Result<RustAstView, Error> {
    match with_nodes(ctx, cgr.nodes) {
        Err(e) => Err(e),
        Ok(index) => {
            let files = kept(cgr.nodes, is_file());
            match collected(files.map_values(file_module(index, cgr))) {
                Err(e) => Err(e),
                Ok(defs) => Ok(
                    RustAstView {
                        external_crate_decls: crate_decls(),
                        external_mod_decls: kept(
                            files.map_values(file_decl(cgr)),
                            among(index.existing_modules_in_out_dir),
                        ),
                        defs,
                    },
                ),
            }
        },
    }
}

/// Whether a description can be translated on top of an index with the nodes
/// `before`: the display name of every file node can be cut, and the module
/// of every file node can be translated in the index of the description.
pub open spec fn description_translates(before: Map<Id, NodeView>, nodes: Seq<NodeView>) -> bool {
    &&& files_cut(nodes)
    &&& forall|i: int|
        0 <= i < nodes.len() && (#[trigger] nodes[i]).which is File ==> module_translates(
            indexed_nodes(before, nodes),
            nodes[i],
            indexed_nodes(before, nodes).dom().len(),
        )
}

/// A description has a translation exactly if it can be translated.
pub proof fn law_description_translates(
    ctx: ContextView,
    cgr: parser::ast::CodeGeneratorRequestView,
)
    ensures
        translated_ast(ctx, cgr) is Ok <==> description_translates(ctx.nodes, cgr.nodes),
{
    law_index_builds(ctx, cgr.nodes);
    if with_nodes(ctx, cgr.nodes) is Ok {
        let index = with_nodes(ctx, cgr.nodes)->Ok_0;
        let files = kept(cgr.nodes, is_file());
        let outcomes = files.map_values(file_module(index, cgr));
        let budget = index.nodes.dom().len();
        assert forall|k: int| 0 <= k < files.len() implies ((#[trigger] outcomes[k]) is Ok
            <==> module_translates(index.nodes, files[k], budget)) by {
            law_module_translates(index.in_file(file_of(cgr, files[k])), files[k], budget);
        }
        lemma_collected_values(outcomes);
        if description_translates(ctx.nodes, cgr.nodes) {
            assert forall|k: int| 0 <= k < outcomes.len() implies (#[trigger] outcomes[k]) is Ok by {
                let i = lemma_kept_origin(cgr.nodes, is_file(), k);
                assert(cgr.nodes[i].which is File);
            }
        }
        if translated_ast(ctx, cgr) is Ok {
            assert forall|i: int|
                0 <= i < cgr.nodes.len() && (#[trigger] cgr.nodes[i]).which is File implies module_translates(
                index.nodes,
                cgr.nodes[i],
                budget,
            ) by {
                let k = lemma_kept_holds(cgr.nodes, is_file(), i);
                assert(outcomes[k] is Ok);
            }
        }
    }
}

fn contains_text(v: &Vec<String>, s: &String) -> (b: bool)
    ensures
        b == texts(v@).contains(s@),
{
    let mut i: usize = 0;
    while i < v.len()
        invariant
            i <= v.len(),
            forall|j: int| 0 <= j < i ==> texts(v@)[j] != s@,
        decreases v.len() - i,
    {
        if v[i].as_str().eq(s.as_str()) {
            proof {
                assert(texts(v@)[i as int] == s@);
            }
            return true;
        }
        i += 1;
    }
    false
}

/// Translates a schema description on top of the index `ctx`.
pub fn translate_ast(ctx: &TranslationContext, cgr: &parser::ast::CodeGeneratorRequest) -> (r:
    Result<RustAst, Error>)
    requires
        files_named(ctx@.names.dom(), ctx@.nodes, cgr@.nodes),
    ensures
        outcome(r) == translated_ast(ctx@, cgr@),
{
    proof {
        law_index_builds(ctx@, cgr@.nodes);
    }
    let index = match build_translation_context_from_cgr(ctx, cgr) {
        Ok(index) => index,
        Err(e) => {
            return Err(e);
        },
    };
    let ghost all = cgr@.nodes;
    let ghost files = kept(all, is_file());
    let ghost outcomes = files.map_values(file_module(index@, cgr@));
    let mut candidates: Vec<String> = Vec::new();
    let mut defs: Vec<Module> = Vec::new();
    let mut i: usize = 0;
    while i < cgr.nodes.len()
        invariant
            i <= cgr.nodes.len(),
            all == cgr@.nodes,
            files == kept(all, is_file()),
            outcomes == files.map_values(file_module(index@, cgr@)),
            with_nodes(ctx@, cgr@.nodes) == Ok::<ContextView, Error>(index@),
            forall|k: int|
                0 <= k < all.len() && (#[trigger] all[k]).which is File ==> index@.names_reached(
                    all[k],
                    index@.nodes.dom().len(),
                ),
            defs.len() == kept(all.take(i as int), is_file()).len(),
            candidates.len() == defs.len(),
            forall|j: int|
                0 <= j < defs.len() ==> file_module(index@, cgr@)(
                    kept(all.take(i as int), is_file())[j],
                ) == Ok::<ModuleView, Error>(defs[j]@),
            forall|j: int|
                0 <= j < defs.len() ==> candidates[j]@ == file_decl(cgr@)(
                    kept(all.take(i as int), is_file())[j],
                ),
        decreases cgr.nodes.len() - i,
    {
        let node = &cgr.nodes[i];
        proof {
            assert(all[i as int] == node@);
            lemma_kept_step(all, is_file(), i as int);
            lemma_kept_prefix(all, is_file(), i + 1);
        }
        if is_file_node(node) {
            proof {
                lemma_first_found_some(all, file_declared(node.id), i as int);
            }
            let filename = get_filename_from_cgr(cgr, node.id);
            let decl = snake_text(&TranslationContext::generate_capnp_mod_from_filename(&filename));
            proof {
                assert(index@.at(filename@, path_view(index.modules@)) == index@.in_file(
                    file_of(cgr@, node@),
                ));
                assert(index@.nodes.dom() =~= index.nodes@.dom());
            }
            match translate_module_at(&index, &filename, &index.modules, node, index.nodes.len()) {
                Ok(m) => {
                    candidates.push(decl);
                    defs.push(m);
                },
                Err(e) => {
                    proof {
                        let k = defs.len() as int;
                        let front = kept(all.take(i as int), is_file());
                        let next = kept(all.take(i + 1), is_file());
                        assert(next == front.push(all[i as int]));
                        assert(next == files.take(next.len() as int));
                        assert(files[k] == next[k]);
                        assert forall|j: int| 0 <= j < k implies outcomes[j] is Ok by {
                            assert(files[j] == next[j]);
                            assert(next[j] == front[j]);
                        }
                        lemma_collected_err(outcomes, k);
                    }
                    return Err(e);
                },
            }
        }
        i += 1;
    }
    proof {
        assert(all.take(cgr.nodes.len() as int) =~= all);
        lemma_collected_ok(outcomes, module_views(defs@));
        assert(texts(candidates@) =~= files.map_values(file_decl(cgr@)));
    }
    let ghost existing = index@.existing_modules_in_out_dir;
    let mut external_mod_decls: Vec<String> = Vec::new();
    let mut k: usize = 0;
    while k < candidates.len()
        invariant
            k <= candidates.len(),
            existing == texts(index.existing_modules_in_out_dir@),
            texts(external_mod_decls@) == kept(texts(candidates@).take(k as int), among(existing)),
        decreases candidates.len() - k,
    {
        proof {
            lemma_kept_step(texts(candidates@), among(existing), k as int);
        }
        if contains_text(&index.existing_modules_in_out_dir, &candidates[k]) {
            let ghost before = texts(external_mod_decls@);
            external_mod_decls.push(candidates[k].clone());
            proof {
                assert(texts(external_mod_decls@) =~= before.push(candidates[k as int]@));
            }
        }
        k += 1;
    }
    proof {
        assert(texts(candidates@).take(candidates.len() as int) =~= texts(candidates@));
    }
    let mut external_crate_decls: Vec<String> = Vec::new();
    external_crate_decls.push(String::from_str("#[macro_use] extern crate derive_more;"));
    external_crate_decls.push(String::from_str("extern crate getset;"));
    proof {
        assert(texts(external_crate_decls@) =~= crate_decls());
    }
    Ok(RustAst { external_crate_decls, external_mod_decls, defs })
}

//
// The trait
//

/// A part of the generated program that a part `AST` of the schema description
/// becomes.
pub trait Translator<AST>: Sized + View {
    /// Whether the context knows what the translation of `n` looks up: the
    /// names of the nodes that it reaches.
    spec fn indexed(ctx: &TranslationContext, n: &AST) -> bool;

    /// What `n` becomes, or why it cannot be translated.
    spec fn translation(ctx: &TranslationContext, n: &AST) -> Result<Self::V, Error>;

    /// Translates `n`, or says why it cannot be translated. This is the test
    /// to make before [`Translator::translate`].
    fn try_translate(ctx: &TranslationContext, n: &AST) -> (r: Result<Self, Error>)
        requires
            Self::indexed(ctx, n),
        ensures
            outcome(r) == Self::translation(ctx, n),
    ;

    /// Whether `n` is free of what translation refuses. This does not depend
    /// on how anything is named.
    spec fn translates(ctx: &TranslationContext, n: &AST) -> bool;

    /// Translates `n`, which must be free of what translation refuses.
    fn translate(ctx: &TranslationContext, n: &AST) -> (r: Self)
        requires
            Self::indexed(ctx, n),
            Self::translates(ctx, n),
        ensures
            Self::translation(ctx, n) == Ok::<Self::V, Error>(r@),
    ;
}

impl Translator<parser::ast::CodeGeneratorRequest> for RustAst {
    open spec fn indexed(ctx: &TranslationContext, n: &parser::ast::CodeGeneratorRequest) -> bool {
        files_named(ctx@.names.dom(), ctx@.nodes, n@.nodes)
    }

    open spec fn translates(ctx: &TranslationContext, n: &parser::ast::CodeGeneratorRequest) -> bool {
        description_translates(ctx@.nodes, n@.nodes)
    }

    open spec fn translation(
        ctx: &TranslationContext,
        n: &parser::ast::CodeGeneratorRequest,
    ) -> Result<RustAstView, Error> {
        translated_ast(ctx@, n@)
    }

    fn try_translate(ctx: &TranslationContext, n: &parser::ast::CodeGeneratorRequest) -> (r: Result<Self, Error>) {
        translate_ast(ctx, n)
    }

    fn translate(ctx: &TranslationContext, n: &parser::ast::CodeGeneratorRequest) -> (r: Self) {
        proof {
            law_description_translates(ctx@, n@);
        }
        match translate_ast(ctx, n) {
            Ok(x) => x,
            Err(_) => {
                proof {
                    assert(false);
                }
                unreached()
            },
        }
    }
}

impl Translator<parser::ast::Type> for Type {
    open spec fn indexed(ctx: &TranslationContext, n: &parser::ast::Type) -> bool {
        true
    }

    open spec fn translates(ctx: &TranslationContext, n: &parser::ast::Type) -> bool {
        type_supported(*n)
    }

    open spec fn translation(ctx: &TranslationContext, n: &parser::ast::Type) -> Result<
        TypeView,
        Error,
    > {
        translated_type(*n)
    }

    fn try_translate(ctx: &TranslationContext, n: &parser::ast::Type) -> (r: Result<Self, Error>) {
        translate_type(n)
    }

    fn translate(ctx: &TranslationContext, n: &parser::ast::Type) -> (r: Self) {
        proof {
            law_supported_types_translate(*n);
        }
        match translate_type(n) {
            Ok(x) => x,
            Err(_) => {
                proof {
                    assert(false);
                }
                unreached()
            },
        }
    }
}

impl Translator<parser::ast::Field> for Field {
    open spec fn indexed(ctx: &TranslationContext, n: &parser::ast::Field) -> bool {
        true
    }

    open spec fn translates(ctx: &TranslationContext, n: &parser::ast::Field) -> bool {
        field_supported(n@)
    }

    open spec fn translation(ctx: &TranslationContext, n: &parser::ast::Field) -> Result<
        FieldView,
        Error,
    > {
        translated_field(n@)
    }

    fn try_translate(ctx: &TranslationContext, n: &parser::ast::Field) -> (r: Result<Self, Error>) {
        translate_field(n)
    }

    fn translate(ctx: &TranslationContext, n: &parser::ast::Field) -> (r: Self) {
        proof {
            law_supported_fields_translate(n@);
        }
        match translate_field(n) {
            Ok(x) => x,
            Err(_) => {
                proof {
                    assert(false);
                }
                unreached()
            },
        }
    }
}

impl Translator<parser::ast::Field> for Enumerant {
    open spec fn indexed(ctx: &TranslationContext, n: &parser::ast::Field) -> bool {
        true
    }

    open spec fn translates(ctx: &TranslationContext, n: &parser::ast::Field) -> bool {
        field_supported(n@)
    }

    open spec fn translation(ctx: &TranslationContext, n: &parser::ast::Field) -> Result<
        EnumerantView,
        Error,
    > {
        translated_member(n@)
    }

    fn try_translate(ctx: &TranslationContext, n: &parser::ast::Field) -> (r: Result<Self, Error>) {
        translate_member(n)
    }

    fn translate(ctx: &TranslationContext, n: &parser::ast::Field) -> (r: Self) {
        proof {
            law_supported_fields_translate(n@);
        }
        match translate_member(n) {
            Ok(x) => x,
            Err(_) => {
                proof {
                    assert(false);
                }
                unreached()
            },
        }
    }
}

impl Translator<parser::ast::Enumerant> for Enumerant {
    open spec fn indexed(ctx: &TranslationContext, n: &parser::ast::Enumerant) -> bool {
        true
    }

    open spec fn translates(ctx: &TranslationContext, n: &parser::ast::Enumerant) -> bool {
        true
    }

    open spec fn translation(ctx: &TranslationContext, n: &parser::ast::Enumerant) -> Result<
        EnumerantView,
        Error,
    > {
        Ok(translated_enumerant(n@))
    }

    fn try_translate(ctx: &TranslationContext, n: &parser::ast::Enumerant) -> (r: Result<Self, Error>) {
        Ok(translate_enumerant(n))
    }

    fn translate(ctx: &TranslationContext, n: &parser::ast::Enumerant) -> (r: Self) {
        translate_enumerant(n)
    }
}

impl Translator<Node> for TypeDef {
    open spec fn indexed(ctx: &TranslationContext, n: &Node) -> bool {
        declares_type(n@.which) && ctx@.names.contains_key(n.id)
    }

    open spec fn translates(ctx: &TranslationContext, n: &Node) -> bool {
        declaration_supported(n@)
    }

    open spec fn translation(ctx: &TranslationContext, n: &Node) -> Result<TypeDefView, Error> {
        translated_type_def(ctx@.names[n.id], ctx@.filename, ctx@.modules, n@)
    }

    fn try_translate(ctx: &TranslationContext, n: &Node) -> (r: Result<Self, Error>) {
        translate_type_def_at(name_of(ctx, n.id), &ctx.filename, &ctx.modules, n)
    }

    fn translate(ctx: &TranslationContext, n: &Node) -> (r: Self) {
        proof {
            law_supported_declarations_translate(
                ctx@.names[n.id],
                ctx@.filename,
                ctx@.modules,
                n@,
            );
        }
        match translate_type_def_at(name_of(ctx, n.id), &ctx.filename, &ctx.modules, n) {
            Ok(x) => x,
            Err(_) => {
                proof {
                    assert(false);
                }
                unreached()
            },
        }
    }
}

impl Translator<Node> for Module {
    open spec fn indexed(ctx: &TranslationContext, n: &Node) -> bool {
        ctx@.names_reached(n@, ctx@.nodes.dom().len())
    }

    open spec fn translates(ctx: &TranslationContext, n: &Node) -> bool {
        module_translates(ctx@.nodes, n@, ctx@.nodes.dom().len())
    }

    open spec fn translation(ctx: &TranslationContext, n: &Node) -> Result<ModuleView, Error> {
        translated_module(ctx@, n@)
    }

    fn try_translate(ctx: &TranslationContext, n: &Node) -> (r: Result<Self, Error>) {
        proof {
            assert(ctx@.at(ctx.filename@, path_view(ctx.modules@)) == ctx@);
            assert(ctx@.nodes.dom() =~= ctx.nodes@.dom());
        }
        translate_module_at(ctx, &ctx.filename, &ctx.modules, n, ctx.nodes.len())
    }

    fn translate(ctx: &TranslationContext, n: &Node) -> (r: Self) {
        proof {
            law_module_translates(ctx@, n@, ctx@.nodes.dom().len());
        }
        proof {
            assert(ctx@.at(ctx.filename@, path_view(ctx.modules@)) == ctx@);
            assert(ctx@.nodes.dom() =~= ctx.nodes@.dom());
        }
        match translate_module_at(ctx, &ctx.filename, &ctx.modules, n, ctx.nodes.len()) {
            Ok(x) => x,
            Err(_) => {
                proof {
                    assert(false);
                }
                unreached()
            },
        }
    }
}

} // verus!
