//! The conversions between a generated type and the schema's own reader and
//! builder: which text each kind of type, field and union member gets.

use vstd::prelude::*;
use vstd::string::*;
use crate::rust::ast::Enum;
use crate::rust::ast::Enumerant;
use crate::rust::ast::EnumerantView;
use crate::rust::ast::EnumOrigin;
use crate::rust::ast::EnumView;
use crate::rust::ast::Field;
use crate::rust::ast::FieldView;
use crate::rust::ast::FullyQualifiedName;
use crate::rust::ast::group_ast_views;
use crate::rust::ast::Impl;
use crate::rust::ast::ImplView;
use crate::rust::ast::Name;
use crate::rust::ast::PathView;
use crate::rust::ast::SerdeTrait;
use crate::rust::ast::Struct;
use crate::rust::ast::StructView;
use crate::rust::ast::Type;
use crate::rust::ast::TypeDef;
use crate::rust::ast::TypeDefView;
use crate::rust::ast::TypeView;
use crate::rust::code::can_emit_type;
use crate::rust::code::emit_path;
use crate::rust::code::emit_type;
use crate::rust::code::field_code;
use crate::rust::code::is_primitive;
use crate::rust::code::is_simple_enum;
use crate::rust::code::path_code;
use crate::rust::code::type_code;
use crate::rust::code::type_renderable;
use crate::rust::fragments::convert_case;
use crate::rust::fragments::convert_impl;
use crate::rust::fragments::enum_converter;
use crate::rust::fragments::enum_field_writer;
use crate::rust::fragments::enum_list_writer;
use crate::rust::fragments::enum_reader;
use crate::rust::fragments::enum_write_case;
use crate::rust::fragments::field_list;
use crate::rust::fragments::field_list_init;
use crate::rust::fragments::list_field_reader;
use crate::rust::fragments::list_read_case;
use crate::rust::fragments::list_write_case;
use crate::rust::fragments::plain_field_reader;
use crate::rust::fragments::plain_field_writer;
use crate::rust::fragments::plain_list_writer;
use crate::rust::fragments::plain_read_case;
use crate::rust::fragments::read_impl;
use crate::rust::fragments::ref_field_reader;
use crate::rust::fragments::ref_field_writer;
use crate::rust::fragments::ref_list_writer;
use crate::rust::fragments::ref_read_case;
use crate::rust::fragments::ref_write_case;
use crate::rust::fragments::struct_reader;
use crate::rust::fragments::struct_writer;
use crate::rust::fragments::text_field_reader;
use crate::rust::fragments::text_read_case;
use crate::rust::fragments::text_write_case;
use crate::rust::fragments::union_field_reader;
use crate::rust::fragments::union_field_writer;
use crate::rust::fragments::union_reader;
use crate::rust::fragments::union_writer;
use crate::rust::fragments::unit_read_case;
use crate::rust::fragments::unit_write_case;
use crate::rust::fragments::write_convert_case;
use crate::rust::fragments::write_convert_impl;
use crate::rust::fragments::write_enum_converter;
use crate::rust::fragments::write_enum_field_writer;
use crate::rust::fragments::write_enum_list_writer;
use crate::rust::fragments::write_enum_reader;
use crate::rust::fragments::write_enum_write_case;
use crate::rust::fragments::write_field_list;
use crate::rust::fragments::write_field_list_init;
use crate::rust::fragments::write_impl;
use crate::rust::fragments::write_list_field_reader;
use crate::rust::fragments::write_list_read_case;
use crate::rust::fragments::write_list_write_case;
use crate::rust::fragments::write_plain_field_reader;
use crate::rust::fragments::write_plain_field_writer;
use crate::rust::fragments::write_plain_list_writer;
use crate::rust::fragments::write_plain_read_case;
use crate::rust::fragments::write_read_impl;
use crate::rust::fragments::write_ref_field_reader;
use crate::rust::fragments::write_ref_field_writer;
use crate::rust::fragments::write_ref_list_writer;
use crate::rust::fragments::write_ref_read_case;
use crate::rust::fragments::write_ref_write_case;
use crate::rust::fragments::write_struct_reader;
use crate::rust::fragments::write_struct_writer;
use crate::rust::fragments::write_text_field_reader;
use crate::rust::fragments::write_text_read_case;
use crate::rust::fragments::write_text_write_case;
use crate::rust::fragments::write_union_field_reader;
use crate::rust::fragments::write_union_field_writer;
use crate::rust::fragments::write_union_reader;
use crate::rust::fragments::write_union_writer;
use crate::rust::fragments::write_unit_read_case;
use crate::rust::fragments::write_unit_write_case;
use crate::rust::fragments::write_write_impl;
use crate::rust::name::camel;
use crate::rust::name::camel_text;
use crate::rust::name::normalized;
use crate::rust::name::snake;
use crate::rust::name::snake_text;
use crate::text::join;
use crate::text::join_strings;
use crate::text::replace_char;
use crate::text::replace_char_in;
use crate::text::texts;

verus! {

broadcast use group_ast_views;

//
// Paths
//

/// The path of the generated type.
pub open spec fn idiomatic_path(d: TypeDefView) -> PathView {
    match d {
        TypeDefView::Enum(e) => e.fully_qualified_type_name,
        TypeDefView::Struct(s) => s.fully_qualified_type_name,
    }
}

/// The path of the schema's own type.
pub open spec fn schema_path(d: TypeDefView) -> PathView {
    match d {
        TypeDefView::Enum(e) => e.capnp_type_name,
        TypeDefView::Struct(s) => s.capnp_type_name,
    }
}

/// Whether the declaration stands for a schema enum, which has neither reader
/// nor builder and is converted by value.
pub open spec fn is_schema_enum(d: TypeDefView) -> bool {
    match d {
        TypeDefView::Enum(e) => e.enum_origin == EnumOrigin::Enum,
        TypeDefView::Struct(_) => false,
    }
}

/// The schema's name for what a conversion reads from or writes to.
pub open spec fn accessor(t: SerdeTrait) -> Seq<char> {
    match t {
        SerdeTrait::ReadFrom => "Reader<'_>"@,
        SerdeTrait::WriteTo => "Builder<'_>"@,
    }
}

/// The path of the schema type that a conversion is made with: the enum itself
/// for a schema enum, else the reader or builder of the schema's type.
pub open spec fn bridge_path(d: TypeDefView, t: SerdeTrait) -> PathView {
    if is_schema_enum(d) {
        schema_path(d)
    } else {
        schema_path(d).push(normalized(accessor(t)))
    }
}

/// The text with every line after the first moved in by `tabs`.
pub open spec fn indented(s: Seq<char>, tabs: Seq<char>) -> Seq<char> {
    replace_char(s, '\n', tabs)
}

//
// Reading
//

/// Whether the type is a reference to an enum without values.
pub open spec fn is_simple_enum_ref(t: TypeView) -> bool {
    match t {
        TypeView::RefName(_, d) => is_simple_enum(d),
        _ => false,
    }
}

/// Whether a union member with this payload can be read.
pub open spec fn union_member_readable(t: TypeView) -> bool {
    match t {
        TypeView::Unit => true,
        TypeView::String => true,
        TypeView::List(inner) => type_renderable(*inner),
        TypeView::RefName(path, _) => path.len() > 0,
        _ => false,
    }
}

/// The arm that reads one member of a union whose schema type is at `schema`.
pub open spec fn union_read_case(e: EnumerantView, schema: PathView, idiomatic: Seq<char>) -> Seq<
    char,
> {
    let which = path_code(schema.push(normalized("Which"@)));
    let name = camel(e.name);
    match e.rust_type {
        TypeView::Unit => unit_read_case(which, name, idiomatic),
        TypeView::List(inner) => list_read_case(which, name, idiomatic, type_code(*inner)),
        TypeView::String => text_read_case(which, name, idiomatic),
        TypeView::RefName(path, _) => ref_read_case(which, name, idiomatic, path_code(path)),
        _ => Seq::empty(),
    }
}

/// The arms that read the values of a schema enum.
pub open spec fn plain_read_cases(e: EnumView, idiomatic: Seq<char>) -> Seq<Seq<char>> {
    e.enumerants.map_values(
        |x: EnumerantView| plain_read_case(path_code(e.capnp_type_name), camel(x.name), idiomatic),
    )
}

/// The arms that read the members of a union.
pub open spec fn union_read_cases(e: EnumView, idiomatic: Seq<char>) -> Seq<Seq<char>> {
    e.enumerants.map_values(|x: EnumerantView| union_read_case(x, e.capnp_type_name, idiomatic))
}

/// Whether a field of this type can be read.
pub open spec fn field_readable(t: TypeView) -> bool {
    match t {
        TypeView::Unit => false,
        TypeView::RefId(_) => false,
        TypeView::List(inner) => type_renderable(*inner),
        TypeView::RefName(path, _) => path.len() > 0,
        _ => true,
    }
}

/// The expression that reads one field of a struct. A field named `which` holds
/// the struct's union and is read from the struct's own reader.
pub open spec fn field_reader(f: FieldView) -> Seq<char> {
    let field = snake(f.name);
    match f.rust_type {
        TypeView::List(inner) => list_field_reader(
            type_code(*inner),
            field,
            if is_simple_enum_ref(*inner) {
                "&i?"@
            } else {
                "&i"@
            },
        ),
        TypeView::String => text_field_reader(field),
        TypeView::RefName(path, _) => if field == "which"@ {
            union_field_reader(path_code(path))
        } else {
            ref_field_reader(path_code(path), snake(seq!["get"@] + f.name))
        },
        TypeView::Unit => Seq::empty(),
        TypeView::RefId(_) => Seq::empty(),
        _ => plain_field_reader(field),
    }
}

/// A field that holds a list is read element by element: the expression
/// declares an owned vector, goes through the schema's list, reads each
/// element through the conversion of the element's type and pushes it.
pub proof fn law_list_fields_are_read_element_by_element(f: FieldView)
    requires
        f.rust_type is List,
    ensures
        field_reader(f) == list_field_reader(
            type_code(*f.rust_type->List_0),
            snake(f.name),
            if is_simple_enum_ref(*f.rust_type->List_0) {
                "&i?"@
            } else {
                "&i"@
            },
        ),
{
}

/// The expressions that read the fields of a struct.
pub open spec fn field_readers(s: StructView) -> Seq<Seq<char>> {
    s.fields.map_values(|f: FieldView| field_reader(f))
}

/// The function that reads a value of the declared type from `source`.
pub open spec fn read_body(d: TypeDefView, source: Seq<char>, idiomatic: Seq<char>) -> Seq<char> {
    match d {
        TypeDefView::Enum(e) => if e.enum_origin == EnumOrigin::Enum {
            enum_reader(
                source,
                idiomatic,
                indented(join(plain_read_cases(e, idiomatic), ",\n"@), "\n\t\t\t"@),
            )
        } else {
            union_reader(
                source,
                idiomatic,
                indented(join(union_read_cases(e, idiomatic), ",\n"@), "\n\t\t\t"@),
            )
        },
        TypeDefView::Struct(s) => struct_reader(
            source,
            idiomatic,
            indented(join(field_readers(s), ",\n"@), "\n\t\t\t"@),
        ),
    }
}

//
// Writing
//

/// Whether a list with this element type can be written.
pub open spec fn list_writable(t: TypeView) -> bool {
    match t {
        TypeView::List(_) => false,
        TypeView::RefId(_) => false,
        TypeView::RefName(path, _) => path.len() > 0,
        _ => true,
    }
}

/// The block that writes the list `list`, with elements of type `t`, into the
/// list that `init` starts.
pub open spec fn list_writer(t: TypeView, list: Seq<char>, init: Seq<char>) -> Seq<char> {
    match t {
        TypeView::RefName(_, d) => if is_simple_enum(d) {
            enum_list_writer(init, list, type_code(t))
        } else {
            ref_list_writer(init, list)
        },
        _ => plain_list_writer(init, list),
    }
}

/// Whether a union member with this payload can be written: like reading,
/// writing has no arm for a member that holds a number or a boolean.
pub open spec fn union_member_writable(t: TypeView) -> bool {
    match t {
        TypeView::Unit => true,
        TypeView::String => true,
        TypeView::List(inner) => list_writable(*inner),
        TypeView::RefName(_, _) => true,
        _ => false,
    }
}

/// The arm that writes one member of a union.
pub open spec fn union_write_case(e: EnumerantView, idiomatic: Seq<char>) -> Seq<char> {
    let name = camel(e.name);
    let setter = snake(seq!["set"@] + e.name);
    let init = snake(seq!["init"@] + e.name);
    match e.rust_type {
        TypeView::Unit => unit_write_case(idiomatic, name, setter),
        TypeView::List(inner) => list_write_case(
            idiomatic,
            name,
            list_writer(*inner, "data"@, init),
        ),
        TypeView::String => text_write_case(idiomatic, name, setter),
        TypeView::RefName(_, d) => if is_simple_enum(d) {
            enum_write_case(idiomatic, name, setter)
        } else {
            ref_write_case(idiomatic, name, init)
        },
        _ => Seq::empty(),
    }
}

/// The arms that convert the values of a schema enum.
pub open spec fn convert_cases(e: EnumView, idiomatic: Seq<char>) -> Seq<Seq<char>> {
    e.enumerants.map_values(
        |x: EnumerantView| convert_case(idiomatic, camel(x.name), path_code(e.capnp_type_name)),
    )
}

/// The arms that write the members of a union.
pub open spec fn union_write_cases(e: EnumView, idiomatic: Seq<char>) -> Seq<Seq<char>> {
    e.enumerants.map_values(|x: EnumerantView| union_write_case(x, idiomatic))
}

/// Whether a field of this type can be written.
pub open spec fn field_writable(t: TypeView) -> bool {
    match t {
        TypeView::Unit => false,
        TypeView::RefId(_) => false,
        TypeView::List(inner) => list_writable(*inner),
        _ => true,
    }
}

/// The statement that writes one field of a struct.
pub open spec fn field_writer(f: FieldView) -> Seq<char> {
    let field = snake(f.name);
    let setter = snake(seq!["set"@] + f.name);
    let init = snake(seq!["init"@] + f.name);
    match f.rust_type {
        TypeView::List(inner) => list_writer(*inner, field_list(field), field_list_init(field)),
        TypeView::RefName(_, d) => match d {
            TypeDefView::Enum(e) => match e.enum_origin {
                EnumOrigin::WhichForPartialUnion => union_field_writer(field),
                EnumOrigin::Enum => enum_field_writer(setter, field),
                EnumOrigin::Struct => ref_field_writer(field, init),
            },
            TypeDefView::Struct(_) => ref_field_writer(field, init),
        },
        TypeView::Unit => Seq::empty(),
        TypeView::RefId(_) => Seq::empty(),
        _ => plain_field_writer(field),
    }
}

/// A field that holds a number or a boolean is copied in both directions: it
/// is read by its getter and written by its setter, and its declaration asks
/// for a getter that copies.
pub proof fn law_copied_fields_are_read_and_written_directly(f: FieldView)
    requires
        is_primitive(f.rust_type),
        f.rust_type != TypeView::Unit,
    ensures
        field_readable(f.rust_type),
        field_writable(f.rust_type),
        field_reader(f) == plain_field_reader(snake(f.name)),
        field_writer(f) == plain_field_writer(snake(f.name)),
        field_code(f) == "#[getset("@ + "get_copy"@ + " = \"pub\", set = \"pub\""@ + ""@ + ")]\n"@
            + snake(f.name) + ": "@ + type_code(f.rust_type),
{
}

/// A struct all of whose fields hold numbers or booleans can be read and
/// written, and each conversion copies each field: the reading one by the
/// field's getter, the writing one by the field's setter.
pub proof fn law_struct_of_copied_fields_converts(s: StructView)
    requires
        forall|i: int|
            0 <= i < s.fields.len() ==> is_primitive((#[trigger] s.fields[i]).rust_type)
                && s.fields[i].rust_type != TypeView::Unit,
    ensures
        readable(TypeDefView::Struct(s)),
        writable(TypeDefView::Struct(s)),
        field_readers(s).len() == s.fields.len(),
        field_writers(s).len() == s.fields.len(),
        forall|i: int|
            0 <= i < s.fields.len() ==> #[trigger] field_readers(s)[i] == plain_field_reader(
                snake(s.fields[i].name),
            ),
        forall|i: int|
            0 <= i < s.fields.len() ==> #[trigger] field_writers(s)[i] == plain_field_writer(
                snake(s.fields[i].name),
            ),
{
    assert forall|i: int| 0 <= i < s.fields.len() implies field_readable(
        (#[trigger] s.fields[i]).rust_type,
    ) && field_writable(s.fields[i].rust_type) by {
        law_copied_fields_are_read_and_written_directly(s.fields[i]);
    }
    assert forall|i: int| 0 <= i < s.fields.len() implies #[trigger] field_readers(s)[i]
        == plain_field_reader(snake(s.fields[i].name)) by {
        law_copied_fields_are_read_and_written_directly(s.fields[i]);
    }
    assert forall|i: int| 0 <= i < s.fields.len() implies #[trigger] field_writers(s)[i]
        == plain_field_writer(snake(s.fields[i].name)) by {
        law_copied_fields_are_read_and_written_directly(s.fields[i]);
    }
}

/// The statements that write the fields of a struct.
pub open spec fn field_writers(s: StructView) -> Seq<Seq<char>> {
    s.fields.map_values(|f: FieldView| field_writer(f))
}

/// The function that writes a value of the declared type to `target`, or, for a
/// schema enum, converts it.
pub open spec fn write_body(d: TypeDefView, target: Seq<char>, idiomatic: Seq<char>) -> Seq<char> {
    match d {
        TypeDefView::Enum(e) => if e.enum_origin == EnumOrigin::Enum {
            enum_converter(target, indented(join(convert_cases(e, idiomatic), ",\n"@), "\n\t\t\t"@))
        } else {
            union_writer(
                target,
                indented(join(union_write_cases(e, idiomatic), ",\n"@), "\n\t\t\t"@),
            )
        },
        TypeDefView::Struct(s) => struct_writer(
            target,
            indented(join(field_writers(s), "\n"@), "\n\t\t"@),
        ),
    }
}

//
// The implementation
//

/// Whether every enumerant is a plain tag.
pub open spec fn all_unit(e: EnumView) -> bool {
    forall|i: int|
        0 <= i < e.enumerants.len() ==> (#[trigger] e.enumerants[i]).rust_type == TypeView::Unit
}

/// Whether a value of the declared type can be read: a schema enum has only
/// plain tags, every member of a union can be read, and so can every field
/// of a struct.
pub open spec fn readable(d: TypeDefView) -> bool {
    match d {
        TypeDefView::Enum(e) => if e.enum_origin == EnumOrigin::Enum {
            all_unit(e)
        } else {
            forall|k: int|
                0 <= k < e.enumerants.len() ==> union_member_readable(
                    (#[trigger] e.enumerants[k]).rust_type,
                )
        },
        TypeDefView::Struct(s) => forall|k: int|
            0 <= k < s.fields.len() ==> field_readable((#[trigger] s.fields[k]).rust_type),
    }
}

/// Whether a value of the declared type can be written: a schema enum has only
/// plain tags, every member of a union can be written, and so can every field
/// of a struct.
pub open spec fn writable(d: TypeDefView) -> bool {
    match d {
        TypeDefView::Enum(e) => if e.enum_origin == EnumOrigin::Enum {
            all_unit(e)
        } else {
            forall|k: int|
                0 <= k < e.enumerants.len() ==> union_member_writable(
                    (#[trigger] e.enumerants[k]).rust_type,
                )
        },
        TypeDefView::Struct(s) => forall|k: int|
            0 <= k < s.fields.len() ==> field_writable((#[trigger] s.fields[k]).rust_type),
    }
}

/// Whether a conversion can be written: both paths of its type are not empty,
/// and a value of the type can be read, or written. That leaves out references
/// that are not resolved, fields of type `Unit`, members of a union that hold a
/// number or a boolean, and lists of lists when writing.
pub open spec fn impl_renderable(i: ImplView) -> bool {
    &&& idiomatic_path(i.for_type).len() > 0
    &&& schema_path(i.for_type).len() > 0
    &&& match i.trait_type {
        SerdeTrait::ReadFrom => readable(i.for_type),
        SerdeTrait::WriteTo => writable(i.for_type),
    }
}

/// The implementation of a conversion for a declared type. A schema enum is
/// written by a conversion by value, every other type into a builder.
pub open spec fn impl_code(i: ImplView) -> Seq<char> {
    let schema = path_code(bridge_path(i.for_type, i.trait_type));
    let idiomatic = path_code(idiomatic_path(i.for_type));
    match i.trait_type {
        SerdeTrait::ReadFrom => read_impl(schema, idiomatic, read_body(i.for_type, schema, idiomatic)),
        SerdeTrait::WriteTo => if is_schema_enum(i.for_type) {
            convert_impl(schema, idiomatic, write_body(i.for_type, schema, idiomatic))
        } else {
            write_impl(schema, idiomatic, write_body(i.for_type, schema, idiomatic))
        },
    }
}

//
// Writing the text
//

fn idiomatic_type_name(d: &TypeDef) -> (r: &FullyQualifiedName)
    ensures
        r@ == idiomatic_path(d@),
{
    match d {
        TypeDef::Enum(e) => &e.fully_qualified_type_name,
        TypeDef::Struct(s) => &s.fully_qualified_type_name,
    }
}

fn schema_type_name(d: &TypeDef) -> (r: &FullyQualifiedName)
    ensures
        r@ == schema_path(d@),
{
    match d {
        TypeDef::Enum(e) => &e.capnp_type_name,
        TypeDef::Struct(s) => &s.capnp_type_name,
    }
}

fn stands_for_schema_enum(d: &TypeDef) -> (b: bool)
    ensures
        b == is_schema_enum(d@),
{
    match d {
        TypeDef::Enum(e) => match e.enum_origin {
            EnumOrigin::Enum => true,
            _ => false,
        },
        TypeDef::Struct(_) => false,
    }
}

/// The path of the schema type that a conversion is made with.
pub fn get_capnp_type(d: &TypeDef, serde_trait: SerdeTrait) -> (r: FullyQualifiedName)
    ensures
        r@ == bridge_path(d@, serde_trait),
{
    if stands_for_schema_enum(d) {
        return schema_type_name(d).clone();
    }
    let reader_or_writer = match serde_trait {
        SerdeTrait::ReadFrom => String::from_str("Reader<'_>"),
        SerdeTrait::WriteTo => String::from_str("Builder<'_>"),
    };
    schema_type_name(d).with(&Name::from(&reader_or_writer))
}

fn is_simple_enum_reference(t: &Type) -> (b: bool)
    ensures
        b == is_simple_enum_ref(t@),
{
    match t {
        Type::RefName(_, d) => d.is_simple_enum(),
        _ => false,
    }
}

fn emit_union_read_case(e: &Enumerant, schema: &FullyQualifiedName, idiomatic: &str) -> (r: String)
    requires
        union_member_readable(e@.rust_type),
    ensures
        r@ == union_read_case(e@, schema@, idiomatic@),
{
    let which_path = schema.with(&Name::from(&String::from_str("Which")));
    let which = emit_path(&which_path);
    let name = camel_text(&e.name);
    match &e.rust_type {
        Type::Unit => write_unit_read_case(which.as_str(), name.as_str(), idiomatic),
        Type::List(inner) => {
            let element = emit_type(inner);
            write_list_read_case(which.as_str(), name.as_str(), idiomatic, element.as_str())
        },
        Type::String => write_text_read_case(which.as_str(), name.as_str(), idiomatic),
        Type::RefName(path, _) => {
            let payload = emit_path(path);
            write_ref_read_case(which.as_str(), name.as_str(), idiomatic, payload.as_str())
        },
        _ => String::new(),
    }
}

fn emit_field_reader(f: &Field) -> (r: String)
    requires
        field_readable(f@.rust_type),
    ensures
        r@ == field_reader(f@),
{
    let field = snake_text(&f.name);
    match &f.rust_type {
        Type::List(inner) => {
            let item = if is_simple_enum_reference(inner) {
                "&i?"
            } else {
                "&i"
            };
            let element = emit_type(inner);
            write_list_field_reader(element.as_str(), field.as_str(), item)
        },
        Type::String => write_text_field_reader(field.as_str()),
        Type::RefName(path, _) => {
            let payload = emit_path(path);
            if field.as_str().eq("which") {
                write_union_field_reader(payload.as_str())
            } else {
                let getter = snake_text(&f.name.with_prepended("get"));
                write_ref_field_reader(payload.as_str(), getter.as_str())
            }
        },
        Type::Unit => String::new(),
        Type::RefId(_) => String::new(),
        _ => write_plain_field_reader(field.as_str()),
    }
}

fn emit_read_body(d: &TypeDef, source: &str, idiomatic: &str) -> (r: String)
    requires
        readable(d@),
        schema_path(d@).len() > 0,
    ensures
        r@ == read_body(d@, source@, idiomatic@),
{
    match d {
        TypeDef::Enum(e) => {
            let plain = match e.enum_origin {
                EnumOrigin::Enum => true,
                _ => false,
            };
            let schema = if plain {
                emit_path(&e.capnp_type_name)
            } else {
                String::new()
            };
            let mut cases: Vec<String> = Vec::new();
            let mut i: usize = 0;
            while i < e.enumerants.len()
                invariant
                    i <= e.enumerants.len(),
                    cases.len() == i,
                    plain == (e@.enum_origin == EnumOrigin::Enum),
                    plain ==> all_unit(e@) && schema@ == path_code(e@.capnp_type_name),
                    !plain ==> forall|k: int|
                        0 <= k < e@.enumerants.len() ==> union_member_readable(
                            (#[trigger] e@.enumerants[k]).rust_type,
                        ),
                    forall|j: int|
                        0 <= j < i ==> cases[j]@ == (if plain {
                            plain_read_cases(e@, idiomatic@)[j]
                        } else {
                            union_read_cases(e@, idiomatic@)[j]
                        }),
                decreases e.enumerants.len() - i,
            {
                assert(e@.enumerants[i as int] == e.enumerants[i as int]@);
                let case = if plain {
                    let name = camel_text(&e.enumerants[i].name);
                    write_plain_read_case(schema.as_str(), name.as_str(), idiomatic)
                } else {
                    emit_union_read_case(&e.enumerants[i], &e.capnp_type_name, idiomatic)
                };
                cases.push(case);
                i += 1;
            }
            proof {
                if plain {
                    assert(texts(cases@) =~= plain_read_cases(e@, idiomatic@));
                } else {
                    assert(texts(cases@) =~= union_read_cases(e@, idiomatic@));
                }
            }
            let joined = join_strings(&cases, ",\n");
            let arms = replace_char_in(joined.as_str(), '\n', "\n\t\t\t");
            if plain {
                write_enum_reader(source, idiomatic, arms.as_str())
            } else {
                write_union_reader(source, idiomatic, arms.as_str())
            }
        },
        TypeDef::Struct(s) => {
            let mut readers: Vec<String> = Vec::new();
            let mut i: usize = 0;
            while i < s.fields.len()
                invariant
                    i <= s.fields.len(),
                    readers.len() == i,
                    forall|k: int|
                        0 <= k < s@.fields.len() ==> field_readable(
                            (#[trigger] s@.fields[k]).rust_type,
                        ),
                    forall|j: int| 0 <= j < i ==> readers[j]@ == field_readers(s@)[j],
                decreases s.fields.len() - i,
            {
                assert(s@.fields[i as int] == s.fields[i as int]@);
                readers.push(emit_field_reader(&s.fields[i]));
                i += 1;
            }
            proof {
                assert(texts(readers@) =~= field_readers(s@));
            }
            let joined = join_strings(&readers, ",\n");
            let expressions = replace_char_in(joined.as_str(), '\n', "\n\t\t\t");
            write_struct_reader(source, idiomatic, expressions.as_str())
        },
    }
}

fn emit_list_writer(t: &Type, list: &str, init: &str) -> (r: String)
    requires
        list_writable(t@),
    ensures
        r@ == list_writer(t@, list@, init@),
{
    match t {
        Type::RefName(_, d) => {
            if d.is_simple_enum() {
                let element = emit_type(t);
                write_enum_list_writer(init, list, element.as_str())
            } else {
                write_ref_list_writer(init, list)
            }
        },
        _ => write_plain_list_writer(init, list),
    }
}

fn emit_union_write_case(e: &Enumerant, idiomatic: &str) -> (r: String)
    requires
        union_member_writable(e@.rust_type),
    ensures
        r@ == union_write_case(e@, idiomatic@),
{
    let name = camel_text(&e.name);
    let setter = snake_text(&e.name.with_prepended("set"));
    let init = snake_text(&e.name.with_prepended("init"));
    match &e.rust_type {
        Type::Unit => write_unit_write_case(idiomatic, name.as_str(), setter.as_str()),
        Type::List(inner) => {
            let block = emit_list_writer(inner, "data", init.as_str());
            write_list_write_case(idiomatic, name.as_str(), block.as_str())
        },
        Type::String => write_text_write_case(idiomatic, name.as_str(), setter.as_str()),
        Type::RefName(_, d) => {
            if d.is_simple_enum() {
                write_enum_write_case(idiomatic, name.as_str(), setter.as_str())
            } else {
                write_ref_write_case(idiomatic, name.as_str(), init.as_str())
            }
        },
        _ => String::new(),
    }
}

fn emit_field_writer(f: &Field) -> (r: String)
    requires
        field_writable(f@.rust_type),
    ensures
        r@ == field_writer(f@),
{
    let field = snake_text(&f.name);
    let setter = snake_text(&f.name.with_prepended("set"));
    let init = snake_text(&f.name.with_prepended("init"));
    match &f.rust_type {
        Type::List(inner) => {
            let list = write_field_list(field.as_str());
            let list_init = write_field_list_init(field.as_str());
            emit_list_writer(inner, list.as_str(), list_init.as_str())
        },
        Type::RefName(_, d) => match d {
            TypeDef::Enum(e) => match e.enum_origin {
                EnumOrigin::WhichForPartialUnion => write_union_field_writer(field.as_str()),
                EnumOrigin::Enum => write_enum_field_writer(setter.as_str(), field.as_str()),
                EnumOrigin::Struct => write_ref_field_writer(field.as_str(), init.as_str()),
            },
            TypeDef::Struct(_) => write_ref_field_writer(field.as_str(), init.as_str()),
        },
        Type::Unit => String::new(),
        Type::RefId(_) => String::new(),
        _ => write_plain_field_writer(field.as_str()),
    }
}

fn emit_write_body(d: &TypeDef, target: &str, idiomatic: &str) -> (r: String)
    requires
        writable(d@),
        schema_path(d@).len() > 0,
    ensures
        r@ == write_body(d@, target@, idiomatic@),
{
    match d {
        TypeDef::Enum(e) => {
            let plain = match e.enum_origin {
                EnumOrigin::Enum => true,
                _ => false,
            };
            let schema = if plain {
                emit_path(&e.capnp_type_name)
            } else {
                String::new()
            };
            let mut cases: Vec<String> = Vec::new();
            let mut i: usize = 0;
            while i < e.enumerants.len()
                invariant
                    i <= e.enumerants.len(),
                    cases.len() == i,
                    plain == (e@.enum_origin == EnumOrigin::Enum),
                    plain ==> all_unit(e@) && schema@ == path_code(e@.capnp_type_name),
                    !plain ==> forall|k: int|
                        0 <= k < e@.enumerants.len() ==> union_member_writable(
                            (#[trigger] e@.enumerants[k]).rust_type,
                        ),
                    forall|j: int|
                        0 <= j < i ==> cases[j]@ == (if plain {
                            convert_cases(e@, idiomatic@)[j]
                        } else {
                            union_write_cases(e@, idiomatic@)[j]
                        }),
                decreases e.enumerants.len() - i,
            {
                assert(e@.enumerants[i as int] == e.enumerants[i as int]@);
                let case = if plain {
                    let name = camel_text(&e.enumerants[i].name);
                    write_convert_case(idiomatic, name.as_str(), schema.as_str())
                } else {
                    emit_union_write_case(&e.enumerants[i], idiomatic)
                };
                cases.push(case);
                i += 1;
            }
            proof {
                if plain {
                    assert(texts(cases@) =~= convert_cases(e@, idiomatic@));
                } else {
                    assert(texts(cases@) =~= union_write_cases(e@, idiomatic@));
                }
            }
            let joined = join_strings(&cases, ",\n");
            let arms = replace_char_in(joined.as_str(), '\n', "\n\t\t\t");
            if plain {
                write_enum_converter(target, arms.as_str())
            } else {
                write_union_writer(target, arms.as_str())
            }
        },
        TypeDef::Struct(s) => {
            let mut writers: Vec<String> = Vec::new();
            let mut i: usize = 0;
            while i < s.fields.len()
                invariant
                    i <= s.fields.len(),
                    writers.len() == i,
                    forall|k: int|
                        0 <= k < s@.fields.len() ==> field_writable(
                            (#[trigger] s@.fields[k]).rust_type,
                        ),
                    forall|j: int| 0 <= j < i ==> writers[j]@ == field_writers(s@)[j],
                decreases s.fields.len() - i,
            {
                assert(s@.fields[i as int] == s.fields[i as int]@);
                writers.push(emit_field_writer(&s.fields[i]));
                i += 1;
            }
            proof {
                assert(texts(writers@) =~= field_writers(s@));
            }
            let joined = join_strings(&writers, "\n");
            let statements = replace_char_in(joined.as_str(), '\n', "\n\t\t");
            write_struct_writer(target, statements.as_str())
        },
    }
}

/// Writes the implementation of a conversion for a declared type.
pub fn emit_impl(i: &Impl) -> (r: String)
    requires
        impl_renderable(i@),
    ensures
        r@ == impl_code(i@),
{
    let schema_type = get_capnp_type(&i.for_type, i.trait_type);
    let schema = emit_path(&schema_type);
    let idiomatic = emit_path(idiomatic_type_name(&i.for_type));
    match i.trait_type {
        SerdeTrait::ReadFrom => {
            let body = emit_read_body(&i.for_type, schema.as_str(), idiomatic.as_str());
            write_read_impl(schema.as_str(), idiomatic.as_str(), body.as_str())
        },
        SerdeTrait::WriteTo => {
            let body = emit_write_body(&i.for_type, schema.as_str(), idiomatic.as_str());
            if stands_for_schema_enum(&i.for_type) {
                write_convert_impl(schema.as_str(), idiomatic.as_str(), body.as_str())
            } else {
                write_write_impl(schema.as_str(), idiomatic.as_str(), body.as_str())
            }
        },
    }
}

//
// Deciding whether the text can be written
//

fn path_is_empty(p: &FullyQualifiedName) -> (b: bool)
    ensures
        b == (p@.len() == 0),
{
    p.names.len() == 0
}

fn can_read_union_member(t: &Type) -> (b: bool)
    ensures
        b == union_member_readable(t@),
{
    match t {
        Type::Unit => true,
        Type::String => true,
        Type::List(inner) => can_emit_type(inner),
        Type::RefName(path, _) => !path_is_empty(path),
        _ => false,
    }
}

fn can_read_field(t: &Type) -> (b: bool)
    ensures
        b == field_readable(t@),
{
    match t {
        Type::Unit => false,
        Type::RefId(_) => false,
        Type::List(inner) => can_emit_type(inner),
        Type::RefName(path, _) => !path_is_empty(path),
        _ => true,
    }
}

fn can_write_list(t: &Type) -> (b: bool)
    ensures
        b == list_writable(t@),
{
    match t {
        Type::List(_) => false,
        Type::RefId(_) => false,
        Type::RefName(path, _) => !path_is_empty(path),
        _ => true,
    }
}

fn can_write_union_member(t: &Type) -> (b: bool)
    ensures
        b == union_member_writable(t@),
{
    match t {
        Type::Unit => true,
        Type::String => true,
        Type::List(inner) => can_write_list(inner),
        Type::RefName(_, _) => true,
        _ => false,
    }
}

fn can_write_field(t: &Type) -> (b: bool)
    ensures
        b == field_writable(t@),
{
    match t {
        Type::Unit => false,
        Type::RefId(_) => false,
        Type::List(inner) => can_write_list(inner),
        _ => true,
    }
}

fn can_read(d: &TypeDef) -> (b: bool)
    ensures
        b == readable(d@),
{
    match d {
        TypeDef::Enum(e) => {
            let plain = match e.enum_origin {
                EnumOrigin::Enum => true,
                _ => false,
            };
            let mut k: usize = 0;
            while k < e.enumerants.len()
                invariant
                    k <= e.enumerants.len(),
                    d@ == TypeDefView::Enum(e@),
                    plain == (e@.enum_origin == EnumOrigin::Enum),
                    forall|j: int|
                        0 <= j < k ==> if plain {
                            (#[trigger] e@.enumerants[j]).rust_type == TypeView::Unit
                        } else {
                            union_member_readable(e@.enumerants[j].rust_type)
                        },
                decreases e.enumerants.len() - k,
            {
                assert(e@.enumerants[k as int] == e.enumerants[k as int]@);
                let fine = if plain {
                    e.enumerants[k].rust_type.is_unit()
                } else {
                    can_read_union_member(&e.enumerants[k].rust_type)
                };
                if !fine {
                    return false;
                }
                k += 1;
            }
            true
        },
        TypeDef::Struct(s) => {
            let mut k: usize = 0;
            while k < s.fields.len()
                invariant
                    k <= s.fields.len(),
                    d@ == TypeDefView::Struct(s@),
                    forall|j: int|
                        0 <= j < k ==> field_readable((#[trigger] s@.fields[j]).rust_type),
                decreases s.fields.len() - k,
            {
                assert(s@.fields[k as int] == s.fields[k as int]@);
                if !can_read_field(&s.fields[k].rust_type) {
                    return false;
                }
                k += 1;
            }
            true
        },
    }
}

fn can_write(d: &TypeDef) -> (b: bool)
    ensures
        b == writable(d@),
{
    match d {
        TypeDef::Enum(e) => {
            let plain = match e.enum_origin {
                EnumOrigin::Enum => true,
                _ => false,
            };
            let mut k: usize = 0;
            while k < e.enumerants.len()
                invariant
                    k <= e.enumerants.len(),
                    d@ == TypeDefView::Enum(e@),
                    plain == (e@.enum_origin == EnumOrigin::Enum),
                    forall|j: int|
                        0 <= j < k ==> if plain {
                            (#[trigger] e@.enumerants[j]).rust_type == TypeView::Unit
                        } else {
                            union_member_writable(e@.enumerants[j].rust_type)
                        },
                decreases e.enumerants.len() - k,
            {
                assert(e@.enumerants[k as int] == e.enumerants[k as int]@);
                let fine = if plain {
                    e.enumerants[k].rust_type.is_unit()
                } else {
                    can_write_union_member(&e.enumerants[k].rust_type)
                };
                if !fine {
                    return false;
                }
                k += 1;
            }
            true
        },
        TypeDef::Struct(s) => {
            let mut k: usize = 0;
            while k < s.fields.len()
                invariant
                    k <= s.fields.len(),
                    d@ == TypeDefView::Struct(s@),
                    forall|j: int|
                        0 <= j < k ==> field_writable((#[trigger] s@.fields[j]).rust_type),
                decreases s.fields.len() - k,
            {
                assert(s@.fields[k as int] == s.fields[k as int]@);
                if !can_write_field(&s.fields[k].rust_type) {
                    return false;
                }
                k += 1;
            }
            true
        },
    }
}

/// Decides whether the implementation of a conversion can be written.
pub fn can_emit_impl(i: &Impl) -> (b: bool)
    ensures
        b == impl_renderable(i@),
{
    if path_is_empty(idiomatic_type_name(&i.for_type)) || path_is_empty(
        schema_type_name(&i.for_type),
    ) {
        return false;
    }
    match i.trait_type {
        SerdeTrait::ReadFrom => can_read(&i.for_type),
        SerdeTrait::WriteTo => can_write(&i.for_type),
    }
}

} // verus!
