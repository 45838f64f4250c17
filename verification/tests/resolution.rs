use capnpc_idiomatic_rust::error::Error;
use capnpc_idiomatic_rust::rust::ast::Enum;
use capnpc_idiomatic_rust::rust::ast::EnumOrigin;
use capnpc_idiomatic_rust::rust::ast::Enumerant;
use capnpc_idiomatic_rust::rust::ast::Field;
use capnpc_idiomatic_rust::rust::ast::FullyQualifiedName;
use capnpc_idiomatic_rust::rust::ast::Impl;
use capnpc_idiomatic_rust::rust::ast::Module;
use capnpc_idiomatic_rust::rust::ast::ModuleElement;
use capnpc_idiomatic_rust::rust::ast::Name;
use capnpc_idiomatic_rust::rust::ast::RustAst;
use capnpc_idiomatic_rust::rust::ast::SerdeTrait;
use capnpc_idiomatic_rust::rust::ast::Struct;
use capnpc_idiomatic_rust::rust::ast::Type;
use capnpc_idiomatic_rust::rust::ast::TypeDef;
use capnpc_idiomatic_rust::rust::resolution::ResolutionContext;
use capnpc_idiomatic_rust::rust::resolution::Resolver;

fn name(raw: &str) -> Name {
    Name::from(&raw.to_string())
}

fn names(raw: &[&str]) -> Vec<Name> {
    raw.iter().map(|n| name(n)).collect()
}

fn path(raw: &[&str]) -> FullyQualifiedName {
    FullyQualifiedName::new(names(raw))
}

fn list(t: Type) -> Type {
    Type::List(Box::new(t))
}

fn a_struct(id: u64, struct_name: &str, fields: Vec<(&str, Type)>) -> TypeDef {
    TypeDef::Struct(Struct::new(
        id,
        name(struct_name),
        path(&["unused", struct_name]),
        path(&["unused_capnp", struct_name]),
        fields.into_iter().map(|(n, t)| Field::new(name(n), t)).collect(),
    ))
}

fn an_enum(id: u64, enum_name: &str, enumerants: Vec<(&str, Type)>) -> TypeDef {
    TypeDef::Enum(Enum::new(
        id,
        name(enum_name),
        path(&["unused", enum_name]),
        path(&["unused_capnp", enum_name]),
        EnumOrigin::Struct,
        enumerants.into_iter().map(|(n, t)| Enumerant::new(name(n), t)).collect(),
    ))
}

fn module(module_name: &str, elements: Vec<ModuleElement>) -> Module {
    Module::new(name(module_name), elements)
}

fn def(d: TypeDef) -> ModuleElement {
    ModuleElement::TypeDef(d)
}

fn sub(m: Module) -> ModuleElement {
    ModuleElement::Module(m)
}

fn file(defs: Vec<Module>) -> RustAst {
    RustAst::new(vec!["extern crate x;".to_string()], vec!["y".to_string()], defs)
}

fn table_of(ast: &RustAst) -> ResolutionContext {
    let mut table = ResolutionContext::new();
    RustAst::build_context(&mut table, ast);
    table
}

/// A module with two structs that refer to each other and to an enum two
/// modules further in.
fn sample() -> RustAst {
    let a = a_struct(1, "A", vec![("b", Type::RefId(2)), ("kinds", list(Type::RefId(3)))]);
    let b = a_struct(2, "B", vec![("a", Type::RefId(1)), ("n", Type::Int8)]);
    let kind = an_enum(3, "Kind", vec![("one", Type::Unit), ("again", Type::RefId(3))]);
    file(vec![module(
        "top",
        vec![
            ModuleElement::UseDecl("x::y".to_string()),
            def(a),
            sub(module("a", vec![sub(module("deep", vec![def(kind)]))])),
            def(b),
        ],
    )])
}

#[test]
fn new_table_holds_nothing() {
    let table = ResolutionContext::new();
    assert!(table.type_names().is_empty());
    assert!(table.types().is_empty());
}

#[test]
fn table_records_every_declaration_with_its_path() {
    let ast = sample();
    let table = table_of(&ast);
    assert_eq!(table.type_names().len(), 3);
    assert_eq!(table.types().len(), 3);
    assert_eq!(table.type_names().get(&1), Some(&names(&["top", "A"])));
    assert_eq!(table.type_names().get(&2), Some(&names(&["top", "B"])));
    assert_eq!(table.type_names().get(&3), Some(&names(&["top", "a", "deep", "Kind"])));
    assert!(matches!(table.types().get(&1), Some(TypeDef::Struct(s)) if s.name == name("A")));
    assert!(matches!(table.types().get(&3), Some(TypeDef::Enum(e)) if e.name == name("Kind")));
}

#[test]
fn each_part_adds_what_it_declares() {
    let kind = an_enum(3, "Kind", vec![]);
    let mut table = ResolutionContext::new();
    TypeDef::build_context(&mut table, &kind);
    assert_eq!(table.type_names().get(&3), Some(&names(&["Kind"])));
    assert_eq!(table.types().get(&3), Some(&kind));

    let s = Struct::new(4, name("S"), path(&["S"]), path(&["S"]), vec![]);
    Struct::build_context(&mut table, &s);
    assert_eq!(table.type_names().get(&4), Some(&names(&["S"])));
    assert_eq!(table.types().get(&4), Some(&TypeDef::Struct(s)));

    let e = Enum::new(5, name("E"), path(&["E"]), path(&["E"]), EnumOrigin::Enum, vec![]);
    Enum::build_context(&mut table, &e);
    assert_eq!(table.type_names().get(&5), Some(&names(&["E"])));

    let mut other = ResolutionContext::new();
    ModuleElement::build_context(&mut other, &def(kind.clone()));
    assert_eq!(other.type_names().get(&3), Some(&names(&["Kind"])));
    ModuleElement::build_context(&mut other, &sub(module("m", vec![def(a_struct(6, "T", vec![]))])));
    assert_eq!(other.type_names().get(&6), Some(&names(&["m", "T"])));
    ModuleElement::build_context(&mut other, &ModuleElement::UseDecl("u".to_string()));
    ModuleElement::build_context(&mut other, &ModuleElement::TraitDef(SerdeTrait::ReadFrom));
    ModuleElement::build_context(&mut other, &ModuleElement::Impl(Impl::new(SerdeTrait::ReadFrom, kind)));
    assert_eq!(other.type_names().len(), 2);

    let before = other.type_names().clone();
    Type::build_context(&mut other, &Type::RefId(9));
    Field::build_context(&mut other, &Field::new(name("f"), Type::RefId(9)));
    Enumerant::build_context(&mut other, &Enumerant::new(name("e"), Type::RefId(9)));
    assert_eq!(other.type_names(), &before);
}

#[test]
fn later_declaration_with_the_same_id_replaces_the_earlier() {
    let ast = file(vec![
        module("first", vec![def(a_struct(1, "Old", vec![])), sub(module("in", vec![def(a_struct(1, "Mid", vec![]))]))]),
        module("second", vec![def(a_struct(1, "New", vec![]))]),
    ]);
    let table = table_of(&ast);
    assert_eq!(table.type_names().len(), 1);
    assert_eq!(table.type_names().get(&1), Some(&names(&["second", "New"])));
    assert!(matches!(table.types().get(&1), Some(TypeDef::Struct(s)) if s.name == name("New")));

    let within = table_of(&file(vec![module(
        "m",
        vec![def(a_struct(1, "Old", vec![])), sub(module("in", vec![def(a_struct(1, "Mid", vec![]))]))],
    )]));
    assert_eq!(within.type_names().get(&1), Some(&names(&["m", "in", "Mid"])));
}

#[test]
fn references_are_replaced_by_path_and_declaration() {
    let ast = sample();
    let table = table_of(&ast);
    let resolved = RustAst::try_resolve(&table, &ast).unwrap();

    let a = a_struct(1, "A", vec![("b", Type::RefId(2)), ("kinds", list(Type::RefId(3)))]);
    let b = a_struct(2, "B", vec![("a", Type::RefId(1)), ("n", Type::Int8)]);
    let kind = an_enum(3, "Kind", vec![("one", Type::Unit), ("again", Type::RefId(3))]);
    let to_a = Type::RefName(path(&["top", "A"]), a);
    let to_b = Type::RefName(path(&["top", "B"]), b);
    let to_kind = Type::RefName(path(&["top", "a", "deep", "Kind"]), kind);
    let expected = file(vec![module(
        "top",
        vec![
            ModuleElement::UseDecl("x::y".to_string()),
            def(a_struct(1, "A", vec![("b", to_b), ("kinds", list(to_kind.clone()))])),
            sub(module(
                "a",
                vec![sub(module(
                    "deep",
                    vec![def(an_enum(3, "Kind", vec![("one", Type::Unit), ("again", to_kind)]))],
                ))],
            )),
            def(a_struct(2, "B", vec![("a", to_a), ("n", Type::Int8)])),
        ],
    )]);
    assert_eq!(resolved, expected);
}

#[test]
fn resolving_again_changes_nothing() {
    let ast = sample();
    let table = table_of(&ast);
    let once = RustAst::try_resolve(&table, &ast).unwrap();
    let twice = RustAst::try_resolve(&table, &once).unwrap();
    assert_eq!(twice, once);
    let in_empty_table = RustAst::try_resolve(&ResolutionContext::new(), &once).unwrap();
    assert_eq!(in_empty_table, once);
    let in_own_table = RustAst::try_resolve(&table_of(&once), &once).unwrap();
    assert_eq!(in_own_table, once);
}

#[test]
fn reference_to_an_undeclared_id_is_broken() {
    let table = table_of(&sample());
    assert_eq!(Type::try_resolve(&table, &Type::RefId(9)), Err(Error::BrokenInternalReference(9)));
    assert_eq!(
        Type::try_resolve(&table, &list(list(Type::RefId(8)))),
        Err(Error::BrokenInternalReference(8))
    );
    let ast = file(vec![module(
        "m",
        vec![
            def(a_struct(1, "A", vec![("ok", Type::RefId(1)), ("x", Type::RefId(7)), ("y", Type::RefId(6))])),
            def(a_struct(2, "B", vec![("z", Type::RefId(5))])),
        ],
    )]);
    assert_eq!(RustAst::try_resolve(&table_of(&ast), &ast), Err(Error::BrokenInternalReference(7)));
    assert_eq!(
        RustAst::try_resolve(&ResolutionContext::new(), &sample()),
        Err(Error::BrokenInternalReference(2))
    );
}

#[test]
fn id_known_in_one_map_only_is_broken() {
    let mut table = table_of(&sample());
    table.types.remove(&2);
    assert_eq!(Type::try_resolve(&table, &Type::RefId(2)), Err(Error::BrokenInternalReference(2)));
    let mut table = table_of(&sample());
    table.type_names.remove(&2);
    assert_eq!(Type::try_resolve(&table, &Type::RefId(2)), Err(Error::BrokenInternalReference(2)));
}

#[test]
fn types_without_references_resolve_to_themselves() {
    let table = ResolutionContext::new();
    for t in [Type::Unit, Type::Bool, Type::String, Type::Float64, list(Type::Uint16)] {
        assert_eq!(Type::try_resolve(&table, &t), Ok(t));
    }
    let f = Field::new(name("f"), Type::Int8);
    assert_eq!(Field::try_resolve(&table, &f), Ok(f));
    let e = Enumerant::new(name("e"), Type::Unit);
    assert_eq!(Enumerant::try_resolve(&table, &e), Ok(e));
}

#[test]
fn what_a_resolved_reference_carries_is_left_alone() {
    let table = table_of(&sample());
    let inner = a_struct(1, "A", vec![("b", Type::RefId(77))]);
    let resolved = Type::RefName(path(&["top", "A"]), inner);
    assert_eq!(Type::try_resolve(&table, &resolved), Ok(resolved));
}

#[test]
fn imports_traits_and_conversions_pass_through() {
    let table = ResolutionContext::new();
    let unresolved = a_struct(1, "A", vec![("b", Type::RefId(77))]);
    let elements = vec![
        ModuleElement::UseDecl("u".to_string()),
        ModuleElement::TraitDef(SerdeTrait::WriteTo),
        ModuleElement::Impl(Impl::new(SerdeTrait::WriteTo, unresolved)),
    ];
    for e in elements {
        assert_eq!(ModuleElement::try_resolve(&table, &e), Ok(e));
    }
}

#[test]
fn resolution_keeps_the_rest_of_the_file() {
    let ast = sample();
    let resolved = RustAst::try_resolve(&table_of(&ast), &ast).unwrap();
    assert_eq!(resolved.external_crate_decls, ast.external_crate_decls);
    assert_eq!(resolved.external_mod_decls, ast.external_mod_decls);
    assert_eq!(resolved.defs.len(), 1);
    assert_eq!(resolved.defs[0].name, name("top"));
}

#[test]
fn known_references_resolve_without_a_result_to_unwrap() {
    let ast = sample();
    let table = table_of(&ast);
    assert_eq!(Ok(RustAst::resolve(&table, &ast)), RustAst::try_resolve(&table, &ast));
    assert_eq!(
        Type::resolve(&table, &list(Type::RefId(2))),
        list(Type::RefName(
            path(&["top", "B"]),
            a_struct(2, "B", vec![("a", Type::RefId(1)), ("n", Type::Int8)])
        ))
    );
    assert_eq!(Type::resolve(&table, &Type::Bool), Type::Bool);
}
