//! The text of the generated program: paths, types, declarations and modules.

use vstd::prelude::*;
use vstd::string::*;
use crate::rust::ast::Enum;
use crate::rust::ast::Enumerant;
use crate::rust::ast::EnumerantView;
use crate::rust::ast::EnumView;
use crate::rust::ast::Field;
use crate::rust::ast::FieldView;
use crate::rust::ast::FullyQualifiedName;
use crate::rust::ast::group_ast_views;
use crate::rust::ast::Module;
use crate::rust::ast::ModuleElement;
use crate::rust::ast::ModuleElementView;
use crate::rust::ast::ModuleView;
use crate::rust::ast::PathView;
use crate::rust::ast::RustAst;
use crate::rust::ast::RustAstView;
use crate::rust::ast::SerdeTrait;
use crate::rust::ast::Struct;
use crate::rust::ast::StructView;
use crate::rust::ast::Type;
use crate::rust::ast::TypeDef;
use crate::rust::ast::TypeDefView;
use crate::rust::ast::TypeView;
use crate::rust::bridge::can_emit_impl;
use crate::rust::bridge::emit_impl;
use crate::rust::bridge::impl_code;
use crate::rust::bridge::impl_renderable;
use crate::rust::name::camel;
use crate::rust::name::camel_text;
use crate::rust::name::snake;
use crate::rust::name::snake_text;
use crate::text::join;
use crate::text::join_strings;
use crate::text::replace_char;
use crate::text::replace_char_in;
use crate::text::texts;

verus! {

broadcast use group_ast_views;

//
// What the text is
//

/// The segments of a path as they are written: the last in camel case, the
/// others in snake case.
pub open spec fn path_segments(p: PathView) -> Seq<Seq<char>> {
    Seq::new(
        p.len(),
        |i: int|
            if i == p.len() - 1 {
                camel(p[i])
            } else {
                snake(p[i])
            },
    )
}

/// A path written from the crate's root.
pub open spec fn path_code(p: PathView) -> Seq<char> {
    "crate::"@ + join(path_segments(p), "::"@)
}

/// Whether a type can be written: every reference in it is resolved, and to a
/// path that is not empty. What a resolved reference carries is not looked at.
pub open spec fn type_renderable(t: TypeView) -> bool
    decreases t,
{
    match t {
        TypeView::List(inner) => type_renderable(*inner),
        TypeView::RefId(_) => false,
        TypeView::RefName(path, _) => path.len() > 0,
        _ => true,
    }
}

/// A type as the generated program writes it.
pub open spec fn type_code(t: TypeView) -> Seq<char>
    decreases t,
{
    match t {
        TypeView::Unit => "()"@,
        TypeView::Bool => "bool"@,
        TypeView::Int8 => "i8"@,
        TypeView::Int16 => "i16"@,
        TypeView::Int32 => "i32"@,
        TypeView::Int64 => "i64"@,
        TypeView::Uint8 => "u8"@,
        TypeView::Uint16 => "u16"@,
        TypeView::Uint32 => "u32"@,
        TypeView::Uint64 => "u64"@,
        TypeView::Float32 => "f32"@,
        TypeView::Float64 => "f64"@,
        TypeView::String => "String"@,
        TypeView::List(inner) => "Vec<"@ + type_code(*inner) + ">"@,
        TypeView::RefId(_) => Seq::empty(),
        TypeView::RefName(path, _) => path_code(path),
    }
}

/// Whether values of the type are copied rather than borrowed.
pub open spec fn is_primitive(t: TypeView) -> bool {
    match t {
        TypeView::String => false,
        TypeView::List(_) => false,
        TypeView::RefId(_) => false,
        TypeView::RefName(_, _) => false,
        _ => true,
    }
}

/// Whether a declaration is an enum none of whose enumerants carries a value.
pub open spec fn is_simple_enum(d: TypeDefView) -> bool {
    match d {
        TypeDefView::Enum(e) => forall|i: int|
            0 <= i < e.enumerants.len() ==> (#[trigger] e.enumerants[i]).rust_type
                == TypeView::Unit,
        TypeDefView::Struct(_) => false,
    }
}

/// One variant of an enum: its name, and its payload in brackets if it has one.
pub open spec fn enumerant_code(e: EnumerantView) -> Seq<char> {
    if e.rust_type == TypeView::Unit {
        camel(e.name)
    } else {
        camel(e.name) + "("@ + type_code(e.rust_type) + ")"@
    }
}

pub open spec fn enum_renderable(e: EnumView) -> bool {
    forall|i: int|
        0 <= i < e.enumerants.len() ==> type_renderable((#[trigger] e.enumerants[i]).rust_type)
}

/// The declaration of an enum.
pub open spec fn enum_code(e: EnumView) -> Seq<char> {
    "#[derive(Clone, Debug, PartialEq)]\npub enum "@ + camel(e.name) + " {\n\t"@ + join(
        e.enumerants.map_values(|x: EnumerantView| enumerant_code(x)),
        ",\n\t"@,
    ) + "\n}"@
}

/// One field of a struct, under the attribute that asks for its accessors.
pub open spec fn field_code(f: FieldView) -> Seq<char> {
    "#[getset("@ + (if is_primitive(f.rust_type) {
        "get_copy"@
    } else {
        "get"@
    }) + " = \"pub\", set = \"pub\""@ + (if is_primitive(f.rust_type) {
        ""@
    } else {
        ", get_mut = \"pub\""@
    }) + ")]\n"@ + snake(f.name) + ": "@ + type_code(f.rust_type)
}

pub open spec fn struct_renderable(s: StructView) -> bool {
    forall|i: int| 0 <= i < s.fields.len() ==> type_renderable((#[trigger] s.fields[i]).rust_type)
}

/// The declaration of a struct: its fields one tab in, a blank line between them.
pub open spec fn struct_code(s: StructView) -> Seq<char> {
    "#[derive(Clone, Constructor, Getters, CopyGetters, MutGetters, Setters, Debug, PartialEq)]\npub struct "@
        + camel(s.name) + " {\n\t"@ + replace_char(
        join(s.fields.map_values(|x: FieldView| field_code(x)), ",\n\n"@),
        '\n',
        "\n\t"@,
    ) + "\n}"@
}

pub open spec fn type_def_renderable(d: TypeDefView) -> bool {
    match d {
        TypeDefView::Enum(e) => enum_renderable(e),
        TypeDefView::Struct(s) => struct_renderable(s),
    }
}

pub open spec fn type_def_code(d: TypeDefView) -> Seq<char> {
    match d {
        TypeDefView::Enum(e) => enum_code(e),
        TypeDefView::Struct(s) => struct_code(s),
    }
}

/// The declarations of the conversion traits. The second declares two: the
/// conversion into a builder, and the conversion by value that schema enums use.
pub open spec fn trait_code(t: SerdeTrait) -> Seq<char> {
    match t {
        SerdeTrait::ReadFrom =>
            "pub trait ReadFrom<T>: Sized {\n    fn read_from(src : &T) -> Result<Self, Error>;\n}"@,
        SerdeTrait::WriteTo =>
            "pub trait WriteTo<T> {\n    fn write_to(&self, dst : &mut T);\n}\n\npub trait ConvertTo<T> {\n    fn convert(&self) -> T;\n}\n"@,
    }
}

/// The texts of `parts` that are not empty, in order.
pub open spec fn non_empty(parts: Seq<Seq<char>>) -> Seq<Seq<char>>
    decreases parts.len(),
{
    if parts.len() == 0 {
        parts
    } else if parts.last().len() == 0 {
        non_empty(parts.drop_last())
    } else {
        non_empty(parts.drop_last()).push(parts.last())
    }
}

/// Whether a module declares nothing: it holds only imports and modules that
/// declare nothing.
pub open spec fn trivial(m: ModuleView) -> bool
    decreases m,
{
    forall|i: int|
        0 <= i < m.elements.len() ==> match #[trigger] m.elements[i] {
            ModuleElementView::UseDecl(_) => true,
            ModuleElementView::Module(sub) => trivial(sub),
            _ => false,
        }
}

pub open spec fn element_renderable(e: ModuleElementView) -> bool
    decreases e,
{
    match e {
        ModuleElementView::UseDecl(_) => true,
        ModuleElementView::TypeDef(d) => type_def_renderable(d),
        ModuleElementView::TraitDef(_) => true,
        ModuleElementView::Module(m) => module_renderable(m),
        ModuleElementView::Impl(i) => impl_renderable(i),
    }
}

pub open spec fn module_renderable(m: ModuleView) -> bool
    decreases m,
{
    forall|i: int| 0 <= i < m.elements.len() ==> element_renderable(#[trigger] m.elements[i])
}

pub open spec fn element_code(e: ModuleElementView) -> Seq<char>
    decreases e, 0nat,
{
    match e {
        ModuleElementView::UseDecl(s) => "use "@ + s + ";"@,
        ModuleElementView::TypeDef(d) => type_def_code(d),
        ModuleElementView::TraitDef(t) => trait_code(t),
        ModuleElementView::Module(m) => module_code(m),
        ModuleElementView::Impl(i) => impl_code(i),
    }
}

/// The texts of a module's elements, in order.
pub open spec fn element_codes(m: ModuleView) -> Seq<Seq<char>>
    decreases m, 0nat,
{
    Seq::new(
        m.elements.len(),
        |i: int|
            if 0 <= i < m.elements.len() {
                element_code(m.elements[i])
            } else {
                Seq::empty()
            },
    )
}

/// A module: nothing if it declares nothing, else its elements that have a
/// text, one tab in and a blank line apart.
pub open spec fn module_code(m: ModuleView) -> Seq<char>
    decreases m, 1nat,
{
    if trivial(m) {
        Seq::empty()
    } else {
        "pub mod "@ + snake(m.name) + " {\n\t"@ + replace_char(
            join(non_empty(element_codes(m)), "\n\n"@),
            '\n',
            "\n\t"@,
        ) + "\n}"@
    }
}

pub open spec fn ast_renderable(a: RustAstView) -> bool {
    forall|i: int| 0 <= i < a.defs.len() ==> module_renderable(#[trigger] a.defs[i])
}

/// The whole file: the crates, the sibling modules, then the modules that have
/// a text.
pub open spec fn ast_code(a: RustAstView) -> Seq<char> {
    "#![allow(unused_imports)]\n\n"@ + join(a.external_crate_decls, "\n"@) + "\n\n"@ + join(
        a.external_mod_decls.map_values(|m: Seq<char>| "pub mod "@ + m + ";"@),
        "\n"@,
    ) + "\n\n"@ + join(non_empty(a.defs.map_values(|m: ModuleView| module_code(m))), "\n\n"@)
}

//
// Writing it
//

/// A value that has a text in the generated program.
pub trait ToCode {
    /// Whether the value can be written. It cannot while a reference in it is
    /// unresolved.
    spec fn renderable(&self) -> bool;

    /// The text of the value.
    spec fn code(&self) -> Seq<char>;

    /// Decides whether the value can be written.
    fn is_renderable(&self) -> (b: bool)
        ensures
            b == self.renderable(),
    ;

    fn to_code(&self) -> (r: String)
        requires
            self.renderable(),
        ensures
            r@ == self.code(),
    ;
}

impl Type {
    /// Whether values of the type are copied rather than borrowed.
    pub fn is_primitive(&self) -> (b: bool)
        ensures
            b == is_primitive(self@),
    {
        match self {
            Type::Unit => true,
            Type::Bool => true,
            Type::Int8 => true,
            Type::Int16 => true,
            Type::Int32 => true,
            Type::Int64 => true,
            Type::Uint8 => true,
            Type::Uint16 => true,
            Type::Uint32 => true,
            Type::Uint64 => true,
            Type::Float32 => true,
            Type::Float64 => true,
            Type::String => false,
            Type::List(_) => false,
            Type::RefId(_) => false,
            Type::RefName(_, _) => false,
        }
    }

    /// Whether the type is `Unit`.
    pub fn is_unit(&self) -> (b: bool)
        ensures
            b == (self@ == TypeView::Unit),
    {
        match self {
            Type::Unit => true,
            _ => false,
        }
    }
}

impl TypeDef {
    /// Whether the declaration is an enum none of whose enumerants carries a
    /// value.
    pub fn is_simple_enum(&self) -> (b: bool)
        ensures
            b == is_simple_enum(self@),
    {
        match self {
            TypeDef::Enum(e) => {
                let mut i: usize = 0;
                while i < e.enumerants.len()
                    invariant
                        i <= e.enumerants.len(),
                        self@ == TypeDefView::Enum(e@),
                        forall|j: int| 0 <= j < i ==> e@.enumerants[j].rust_type == TypeView::Unit,
                    decreases e.enumerants.len() - i,
                {
                    assert(e@.enumerants[i as int] == e.enumerants[i as int]@);
                    if !e.enumerants[i].rust_type.is_unit() {
                        return false;
                    }
                    i += 1;
                }
                true
            },
            TypeDef::Struct(_) => false,
        }
    }
}

/// Decides whether a type can be written.
pub fn can_emit_type(t: &Type) -> (b: bool)
    ensures
        b == type_renderable(t@),
    decreases t,
{
    match t {
        Type::List(inner) => can_emit_type(inner),
        Type::RefId(_) => false,
        Type::RefName(path, _) => path.names.len() > 0,
        _ => true,
    }
}

fn can_emit_enum(e: &Enum) -> (b: bool)
    ensures
        b == enum_renderable(e@),
{
    let mut i: usize = 0;
    while i < e.enumerants.len()
        invariant
            i <= e.enumerants.len(),
            forall|j: int| 0 <= j < i ==> type_renderable((#[trigger] e@.enumerants[j]).rust_type),
        decreases e.enumerants.len() - i,
    {
        assert(e@.enumerants[i as int] == e.enumerants[i as int]@);
        if !can_emit_type(&e.enumerants[i].rust_type) {
            return false;
        }
        i += 1;
    }
    true
}

fn can_emit_struct(s: &Struct) -> (b: bool)
    ensures
        b == struct_renderable(s@),
{
    let mut i: usize = 0;
    while i < s.fields.len()
        invariant
            i <= s.fields.len(),
            forall|j: int| 0 <= j < i ==> type_renderable((#[trigger] s@.fields[j]).rust_type),
        decreases s.fields.len() - i,
    {
        assert(s@.fields[i as int] == s.fields[i as int]@);
        if !can_emit_type(&s.fields[i].rust_type) {
            return false;
        }
        i += 1;
    }
    true
}

fn can_emit_type_def(d: &TypeDef) -> (b: bool)
    ensures
        b == type_def_renderable(d@),
{
    match d {
        TypeDef::Enum(e) => can_emit_enum(e),
        TypeDef::Struct(s) => can_emit_struct(s),
    }
}

fn can_emit_element(e: &ModuleElement) -> (b: bool)
    ensures
        b == element_renderable(e@),
    decreases e,
{
    match e {
        ModuleElement::UseDecl(_) => true,
        ModuleElement::TypeDef(d) => can_emit_type_def(d),
        ModuleElement::TraitDef(_) => true,
        ModuleElement::Module(m) => can_emit_module(m),
        ModuleElement::Impl(i) => can_emit_impl(i),
    }
}

fn can_emit_module(m: &Module) -> (b: bool)
    ensures
        b == module_renderable(m@),
    decreases m,
{
    let mut i: usize = 0;
    while i < m.elements.len()
        invariant
            i <= m.elements.len(),
            forall|j: int| 0 <= j < i ==> element_renderable(#[trigger] m@.elements[j]),
        decreases m.elements.len() - i,
    {
        assert(m@.elements[i as int] == m.elements[i as int]@);
        if !can_emit_element(&m.elements[i]) {
            return false;
        }
        i += 1;
    }
    true
}

fn can_emit_ast(a: &RustAst) -> (b: bool)
    ensures
        b == ast_renderable(a@),
{
    let mut i: usize = 0;
    while i < a.defs.len()
        invariant
            i <= a.defs.len(),
            forall|j: int| 0 <= j < i ==> module_renderable(#[trigger] a@.defs[j]),
        decreases a.defs.len() - i,
    {
        assert(a@.defs[i as int] == a.defs[i as int]@);
        if !can_emit_module(&a.defs[i]) {
            return false;
        }
        i += 1;
    }
    true
}

/// Writes a path from the crate's root.
pub fn emit_path(p: &FullyQualifiedName) -> (r: String)
    requires
        p@.len() > 0,
    ensures
        r@ == path_code(p@),
{
    let len = p.names.len();
    let mut segments: Vec<String> = Vec::new();
    let mut i: usize = 0;
    while i < len
        invariant
            i <= len,
            len == p.names.len(),
            segments.len() == i,
            forall|j: int| 0 <= j < i ==> segments[j]@ == path_segments(p@)[j],
        decreases len - i,
    {
        let segment = if i == len - 1 {
            camel_text(&p.names[i])
        } else {
            snake_text(&p.names[i])
        };
        segments.push(segment);
        i += 1;
    }
    proof {
        assert(texts(segments@) =~= path_segments(p@));
    }
    let joined = join_strings(&segments, "::");
    let mut r = String::from_str("crate::");
    r.append(joined.as_str());
    r
}

/// Writes a type.
pub fn emit_type(t: &Type) -> (r: String)
    requires
        type_renderable(t@),
    ensures
        r@ == type_code(t@),
    decreases t,
{
    match t {
        Type::Unit => String::from_str("()"),
        Type::Bool => String::from_str("bool"),
        Type::Int8 => String::from_str("i8"),
        Type::Int16 => String::from_str("i16"),
        Type::Int32 => String::from_str("i32"),
        Type::Int64 => String::from_str("i64"),
        Type::Uint8 => String::from_str("u8"),
        Type::Uint16 => String::from_str("u16"),
        Type::Uint32 => String::from_str("u32"),
        Type::Uint64 => String::from_str("u64"),
        Type::Float32 => String::from_str("f32"),
        Type::Float64 => String::from_str("f64"),
        Type::String => String::from_str("String"),
        Type::List(inner) => {
            let element = emit_type(inner);
            let mut r = String::from_str("Vec<");
            r.append(element.as_str());
            r.append(">");
            r
        },
        Type::RefId(_) => String::new(),
        Type::RefName(name, _) => emit_path(name),
    }
}

fn emit_enumerant(e: &Enumerant) -> (r: String)
    requires
        type_renderable(e@.rust_type),
    ensures
        r@ == enumerant_code(e@),
{
    let mut r = camel_text(&e.name);
    if !e.rust_type.is_unit() {
        let payload = emit_type(&e.rust_type);
        r.append("(");
        r.append(payload.as_str());
        r.append(")");
    }
    r
}

fn emit_enum(e: &Enum) -> (r: String)
    requires
        enum_renderable(e@),
    ensures
        r@ == enum_code(e@),
{
    let mut variants: Vec<String> = Vec::new();
    let mut i: usize = 0;
    while i < e.enumerants.len()
        invariant
            i <= e.enumerants.len(),
            enum_renderable(e@),
            variants.len() == i,
            forall|j: int| 0 <= j < i ==> variants[j]@ == enumerant_code(e@.enumerants[j]),
        decreases e.enumerants.len() - i,
    {
        assert(e@.enumerants[i as int] == e.enumerants[i as int]@);
        variants.push(emit_enumerant(&e.enumerants[i]));
        i += 1;
    }
    proof {
        assert(texts(variants@) =~= e@.enumerants.map_values(|x: EnumerantView| enumerant_code(x)));
    }
    let name = camel_text(&e.name);
    let body = join_strings(&variants, ",\n\t");
    let mut r = String::from_str("#[derive(Clone, Debug, PartialEq)]\npub enum ");
    r.append(name.as_str());
    r.append(" {\n\t");
    r.append(body.as_str());
    r.append("\n}");
    r
}

fn emit_field(f: &Field) -> (r: String)
    requires
        type_renderable(f@.rust_type),
    ensures
        r@ == field_code(f@),
{
    let primitive = f.rust_type.is_primitive();
    let name = snake_text(&f.name);
    let field_type = emit_type(&f.rust_type);
    let mut r = String::from_str("#[getset(");
    r.append(if primitive { "get_copy" } else { "get" });
    r.append(" = \"pub\", set = \"pub\"");
    r.append(if primitive { "" } else { ", get_mut = \"pub\"" });
    r.append(")]\n");
    r.append(name.as_str());
    r.append(": ");
    r.append(field_type.as_str());
    r
}

fn emit_struct(s: &Struct) -> (r: String)
    requires
        struct_renderable(s@),
    ensures
        r@ == struct_code(s@),
{
    let mut fields: Vec<String> = Vec::new();
    let mut i: usize = 0;
    while i < s.fields.len()
        invariant
            i <= s.fields.len(),
            struct_renderable(s@),
            fields.len() == i,
            forall|j: int| 0 <= j < i ==> fields[j]@ == field_code(s@.fields[j]),
        decreases s.fields.len() - i,
    {
        assert(s@.fields[i as int] == s.fields[i as int]@);
        fields.push(emit_field(&s.fields[i]));
        i += 1;
    }
    proof {
        assert(texts(fields@) =~= s@.fields.map_values(|x: FieldView| field_code(x)));
    }
    let name = camel_text(&s.name);
    let joined = join_strings(&fields, ",\n\n");
    let body = replace_char_in(joined.as_str(), '\n', "\n\t");
    let mut r = String::from_str(
        "#[derive(Clone, Constructor, Getters, CopyGetters, MutGetters, Setters, Debug, PartialEq)]\npub struct ",
    );
    r.append(name.as_str());
    r.append(" {\n\t");
    r.append(body.as_str());
    r.append("\n}");
    r
}

fn emit_type_def(d: &TypeDef) -> (r: String)
    requires
        type_def_renderable(d@),
    ensures
        r@ == type_def_code(d@),
{
    match d {
        TypeDef::Enum(e) => emit_enum(e),
        TypeDef::Struct(s) => emit_struct(s),
    }
}

fn emit_trait(t: SerdeTrait) -> (r: String)
    ensures
        r@ == trait_code(t),
{
    match t {
        SerdeTrait::ReadFrom => String::from_str(
            "pub trait ReadFrom<T>: Sized {\n    fn read_from(src : &T) -> Result<Self, Error>;\n}",
        ),
        SerdeTrait::WriteTo => String::from_str(
            "pub trait WriteTo<T> {\n    fn write_to(&self, dst : &mut T);\n}\n\npub trait ConvertTo<T> {\n    fn convert(&self) -> T;\n}\n",
        ),
    }
}

/// Keeps the texts that are not empty.
fn keep_non_empty(parts: Vec<String>) -> (r: Vec<String>)
    ensures
        texts(r@) == non_empty(texts(parts@)),
{
    let mut kept: Vec<String> = Vec::new();
    let mut i: usize = 0;
    while i < parts.len()
        invariant
            i <= parts.len(),
            texts(kept@) == non_empty(texts(parts@).take(i as int)),
        decreases parts.len() - i,
    {
        proof {
            assert(texts(parts@).take(i + 1).drop_last() =~= texts(parts@).take(i as int));
            assert(texts(parts@).take(i + 1).last() == parts[i as int]@);
        }
        if !parts[i].as_str().is_empty() {
            let ghost before = texts(kept@);
            kept.push(parts[i].clone());
            proof {
                assert(texts(kept@) =~= before.push(parts[i as int]@));
            }
        }
        i += 1;
    }
    proof {
        assert(texts(parts@).take(parts.len() as int) =~= texts(parts@));
    }
    kept
}

/// Whether a module declares nothing, so that it is left out of the text.
pub fn is_trivial_module(m: &Module) -> (b: bool)
    ensures
        b == trivial(m@),
    decreases m,
{
    let mut i: usize = 0;
    while i < m.elements.len()
        invariant
            i <= m.elements.len(),
            forall|j: int|
                0 <= j < i ==> match #[trigger] m@.elements[j] {
                    ModuleElementView::UseDecl(_) => true,
                    ModuleElementView::Module(sub) => trivial(sub),
                    _ => false,
                },
        decreases m.elements.len() - i,
    {
        assert(m@.elements[i as int] == m.elements[i as int]@);
        match &m.elements[i] {
            ModuleElement::UseDecl(_) => {},
            ModuleElement::Module(sub) => {
                if !is_trivial_module(sub) {
                    return false;
                }
            },
            _ => {
                return false;
            },
        }
        i += 1;
    }
    true
}

fn emit_element(e: &ModuleElement) -> (r: String)
    requires
        element_renderable(e@),
    ensures
        r@ == element_code(e@),
    decreases e,
{
    match e {
        ModuleElement::UseDecl(s) => {
            let mut r = String::from_str("use ");
            r.append(s.as_str());
            r.append(";");
            r
        },
        ModuleElement::TypeDef(d) => emit_type_def(d),
        ModuleElement::TraitDef(t) => emit_trait(*t),
        ModuleElement::Module(m) => emit_module(m),
        ModuleElement::Impl(i) => emit_impl(i),
    }
}

fn emit_module(m: &Module) -> (r: String)
    requires
        module_renderable(m@),
    ensures
        r@ == module_code(m@),
    decreases m,
{
    if is_trivial_module(m) {
        return String::new();
    }
    let mut codes: Vec<String> = Vec::new();
    let mut i: usize = 0;
    while i < m.elements.len()
        invariant
            i <= m.elements.len(),
            module_renderable(m@),
            codes.len() == i,
            forall|j: int| 0 <= j < i ==> codes[j]@ == element_code(m@.elements[j]),
        decreases m.elements.len() - i,
    {
        assert(m@.elements[i as int] == m.elements[i as int]@);
        codes.push(emit_element(&m.elements[i]));
        i += 1;
    }
    proof {
        assert(texts(codes@) =~= element_codes(m@));
    }
    let kept = keep_non_empty(codes);
    let name = snake_text(&m.name);
    let joined = join_strings(&kept, "\n\n");
    let body = replace_char_in(joined.as_str(), '\n', "\n\t");
    let mut r = String::from_str("pub mod ");
    r.append(name.as_str());
    r.append(" {\n\t");
    r.append(body.as_str());
    r.append("\n}");
    r
}

fn emit_ast(a: &RustAst) -> (r: String)
    requires
        ast_renderable(a@),
    ensures
        r@ == ast_code(a@),
{
    let crates = join_strings(&a.external_crate_decls, "\n");
    let mut decls: Vec<String> = Vec::new();
    let mut i: usize = 0;
    while i < a.external_mod_decls.len()
        invariant
            i <= a.external_mod_decls.len(),
            decls.len() == i,
            forall|j: int|
                0 <= j < i ==> decls[j]@ == "pub mod "@ + a.external_mod_decls[j]@ + ";"@,
        decreases a.external_mod_decls.len() - i,
    {
        let mut d = String::from_str("pub mod ");
        d.append(a.external_mod_decls[i].as_str());
        d.append(";");
        decls.push(d);
        i += 1;
    }
    proof {
        assert(texts(decls@) =~= a@.external_mod_decls.map_values(
            |m: Seq<char>| "pub mod "@ + m + ";"@,
        ));
    }
    let mods = join_strings(&decls, "\n");
    let mut codes: Vec<String> = Vec::new();
    let mut k: usize = 0;
    while k < a.defs.len()
        invariant
            k <= a.defs.len(),
            ast_renderable(a@),
            codes.len() == k,
            forall|j: int| 0 <= j < k ==> codes[j]@ == module_code(a.defs[j]@),
        decreases a.defs.len() - k,
    {
        assert(a@.defs[k as int] == a.defs[k as int]@);
        codes.push(emit_module(&a.defs[k]));
        k += 1;
    }
    proof {
        assert(texts(codes@) =~= a@.defs.map_values(|m: ModuleView| module_code(m)));
    }
    let kept = keep_non_empty(codes);
    let modules = join_strings(&kept, "\n\n");
    let mut r = String::from_str("#![allow(unused_imports)]\n\n");
    r.append(crates.as_str());
    r.append("\n\n");
    r.append(mods.as_str());
    r.append("\n\n");
    r.append(modules.as_str());
    r
}

impl ToCode for FullyQualifiedName {
    open spec fn renderable(&self) -> bool {
        self@.len() > 0
    }

    open spec fn code(&self) -> Seq<char> {
        path_code(self@)
    }

    fn is_renderable(&self) -> (b: bool) {
        self.names.len() > 0
    }

    fn to_code(&self) -> (r: String) {
        emit_path(self)
    }
}

impl ToCode for Type {
    open spec fn renderable(&self) -> bool {
        type_renderable(self@)
    }

    open spec fn code(&self) -> Seq<char> {
        type_code(self@)
    }

    fn is_renderable(&self) -> (b: bool) {
        can_emit_type(self)
    }

    fn to_code(&self) -> (r: String) {
        emit_type(self)
    }
}

impl ToCode for Enumerant {
    open spec fn renderable(&self) -> bool {
        type_renderable(self@.rust_type)
    }

    open spec fn code(&self) -> Seq<char> {
        enumerant_code(self@)
    }

    fn is_renderable(&self) -> (b: bool) {
        can_emit_type(&self.rust_type)
    }

    fn to_code(&self) -> (r: String) {
        emit_enumerant(self)
    }
}

impl ToCode for Enum {
    open spec fn renderable(&self) -> bool {
        enum_renderable(self@)
    }

    open spec fn code(&self) -> Seq<char> {
        enum_code(self@)
    }

    fn is_renderable(&self) -> (b: bool) {
        can_emit_enum(self)
    }

    fn to_code(&self) -> (r: String) {
        emit_enum(self)
    }
}

impl ToCode for Field {
    open spec fn renderable(&self) -> bool {
        type_renderable(self@.rust_type)
    }

    open spec fn code(&self) -> Seq<char> {
        field_code(self@)
    }

    fn is_renderable(&self) -> (b: bool) {
        can_emit_type(&self.rust_type)
    }

    fn to_code(&self) -> (r: String) {
        emit_field(self)
    }
}

impl ToCode for Struct {
    open spec fn renderable(&self) -> bool {
        struct_renderable(self@)
    }

    open spec fn code(&self) -> Seq<char> {
        struct_code(self@)
    }

    fn is_renderable(&self) -> (b: bool) {
        can_emit_struct(self)
    }

    fn to_code(&self) -> (r: String) {
        emit_struct(self)
    }
}

impl ToCode for TypeDef {
    open spec fn renderable(&self) -> bool {
        type_def_renderable(self@)
    }

    open spec fn code(&self) -> Seq<char> {
        type_def_code(self@)
    }

    fn is_renderable(&self) -> (b: bool) {
        can_emit_type_def(self)
    }

    fn to_code(&self) -> (r: String) {
        emit_type_def(self)
    }
}

impl ToCode for crate::rust::ast::Impl {
    open spec fn renderable(&self) -> bool {
        impl_renderable(self@)
    }

    open spec fn code(&self) -> Seq<char> {
        impl_code(self@)
    }

    fn is_renderable(&self) -> (b: bool) {
        can_emit_impl(self)
    }

    fn to_code(&self) -> (r: String) {
        emit_impl(self)
    }
}

impl ToCode for SerdeTrait {
    open spec fn renderable(&self) -> bool {
        true
    }

    open spec fn code(&self) -> Seq<char> {
        trait_code(*self)
    }

    fn is_renderable(&self) -> (b: bool) {
        true
    }

    fn to_code(&self) -> (r: String) {
        emit_trait(*self)
    }
}

impl ToCode for ModuleElement {
    open spec fn renderable(&self) -> bool {
        element_renderable(self@)
    }

    open spec fn code(&self) -> Seq<char> {
        element_code(self@)
    }

    fn is_renderable(&self) -> (b: bool) {
        can_emit_element(self)
    }

    fn to_code(&self) -> (r: String) {
        emit_element(self)
    }
}

impl ToCode for Module {
    open spec fn renderable(&self) -> bool {
        module_renderable(self@)
    }

    open spec fn code(&self) -> Seq<char> {
        module_code(self@)
    }

    fn is_renderable(&self) -> (b: bool) {
        can_emit_module(self)
    }

    fn to_code(&self) -> (r: String) {
        emit_module(self)
    }
}

impl ToCode for RustAst {
    open spec fn renderable(&self) -> bool {
        ast_renderable(self@)
    }

    open spec fn code(&self) -> Seq<char> {
        ast_code(self@)
    }

    fn is_renderable(&self) -> (b: bool) {
        can_emit_ast(self)
    }

    fn to_code(&self) -> (r: String) {
        emit_ast(self)
    }
}

} // verus!
