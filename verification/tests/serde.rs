use capnpc_idiomatic_rust::error::Error;
use capnpc_idiomatic_rust::error::Unsupported;
use capnpc_idiomatic_rust::parser::ast::code_generator_request::RequestedFile;
use capnpc_idiomatic_rust::parser::ast::field;
use capnpc_idiomatic_rust::parser::ast::field::NO_DISCRIMINANT;
use capnpc_idiomatic_rust::parser::ast::node;
use capnpc_idiomatic_rust::parser::ast::node::NestedNode;
use capnpc_idiomatic_rust::parser::ast::CodeGeneratorRequest;
use capnpc_idiomatic_rust::parser::ast::Field as SchemaField;
use capnpc_idiomatic_rust::parser::ast::Node;
use capnpc_idiomatic_rust::parser::ast::Type as SchemaType;
use capnpc_idiomatic_rust::rust::ast::Enum;
use capnpc_idiomatic_rust::rust::ast::EnumOrigin;
use capnpc_idiomatic_rust::rust::ast::FullyQualifiedName;
use capnpc_idiomatic_rust::rust::ast::Impl;
use capnpc_idiomatic_rust::rust::ast::Module;
use capnpc_idiomatic_rust::rust::ast::ModuleElement;
use capnpc_idiomatic_rust::rust::ast::Name;
use capnpc_idiomatic_rust::rust::ast::RustAst;
use capnpc_idiomatic_rust::rust::ast::SerdeTrait;
use capnpc_idiomatic_rust::rust::ast::Type;
use capnpc_idiomatic_rust::rust::ast::TypeDef;
use capnpc_idiomatic_rust::rust::code_gen;
use capnpc_idiomatic_rust::rust::code_gen_with;
use capnpc_idiomatic_rust::rust::serde::SerdeGenerationContext;
use capnpc_idiomatic_rust::rust::serde::SerdeGenerator;
use capnpc_idiomatic_rust::rust::translate;
use capnpc_idiomatic_rust::rust::translate_with;

fn name(raw: &str) -> Name {
    Name::from(&raw.to_string())
}

fn an_enum(id: u64, enum_name: &str) -> TypeDef {
    TypeDef::Enum(Enum::new(
        id,
        name(enum_name),
        FullyQualifiedName::new(vec![name(enum_name)]),
        FullyQualifiedName::new(vec![name(enum_name)]),
        EnumOrigin::Enum,
        vec![],
    ))
}

fn conversions(d: &TypeDef) -> Vec<ModuleElement> {
    vec![
        ModuleElement::Impl(Impl::new(SerdeTrait::ReadFrom, d.clone())),
        ModuleElement::Impl(Impl::new(SerdeTrait::WriteTo, d.clone())),
    ]
}

fn sample() -> RustAst {
    RustAst::new(
        vec!["extern crate x;".to_string()],
        vec!["sibling".to_string()],
        vec![
            Module::new(
                name("first"),
                vec![
                    ModuleElement::UseDecl("u".to_string()),
                    ModuleElement::TypeDef(an_enum(1, "A")),
                    ModuleElement::Module(Module::new(
                        name("inner"),
                        vec![
                            ModuleElement::TypeDef(an_enum(2, "B")),
                            ModuleElement::Impl(Impl::new(SerdeTrait::ReadFrom, an_enum(9, "Z"))),
                        ],
                    )),
                    ModuleElement::TraitDef(SerdeTrait::ReadFrom),
                    ModuleElement::TypeDef(an_enum(3, "C")),
                ],
            ),
            Module::new(name("second"), vec![ModuleElement::TypeDef(an_enum(4, "D"))]),
        ],
    )
}

#[test]
fn every_declaration_gets_a_reading_and_a_writing_conversion() {
    let ast = sample();
    let with = RustAst::generate_serde(&SerdeGenerationContext::new(), &ast);
    assert_eq!(with.external_crate_decls, ast.external_crate_decls);
    assert_eq!(with.external_mod_decls, ast.external_mod_decls);
    assert_eq!(with.defs.len(), 3);
    assert_eq!(with.defs[0], ast.defs[0]);
    assert_eq!(with.defs[1], ast.defs[1]);

    let mut expected = vec![
        ModuleElement::UseDecl("capnp::Error".to_string()),
        ModuleElement::TraitDef(SerdeTrait::ReadFrom),
        ModuleElement::TraitDef(SerdeTrait::WriteTo),
    ];
    for (id, n) in [(1, "A"), (2, "B"), (3, "C"), (4, "D")] {
        expected.extend(conversions(&an_enum(id, n)));
    }
    assert_eq!(with.defs[2], Module::new(name("serde"), expected));
}

#[test]
fn file_without_declarations_gets_the_traits_alone() {
    let with = RustAst::generate_serde(
        &SerdeGenerationContext::new(),
        &RustAst::new(vec![], vec![], vec![]),
    );
    assert_eq!(with.defs.len(), 1);
    assert_eq!(with.defs[0].elements.len(), 3);
}

#[test]
fn conversions_of_a_module_are_appended() {
    let mut target = Module::new(name("t"), vec![ModuleElement::UseDecl("kept".to_string())]);
    let source = sample();
    Module::generate_serde(&SerdeGenerationContext::new(), &mut target, &source.defs[0]);
    let mut expected = vec![ModuleElement::UseDecl("kept".to_string())];
    for (id, n) in [(1, "A"), (2, "B"), (3, "C")] {
        expected.extend(conversions(&an_enum(id, n)));
    }
    assert_eq!(target, Module::new(name("t"), expected));
}

#[test]
fn new_synthesis_context_holds_nothing() {
    let ctx = SerdeGenerationContext::new();
    assert!(ctx.type_to_path.is_empty());
    assert!(ctx.children.is_empty());
    assert!(ctx.nodes.is_empty());
}

fn file_node(id: u64, display_name: &str, prefix: usize, inside: &[(u64, &str)]) -> Node {
    Node::new(
        id,
        display_name.to_string(),
        prefix,
        0,
        inside.iter().map(|(i, n)| NestedNode::new(*i, n.to_string())).collect(),
        vec![],
        node::Which::File,
    )
}

fn struct_node(id: u64, discriminant_count: u16, fields: Vec<(&str, u16, SchemaType)>) -> Node {
    Node::new(
        id,
        "s".to_string(),
        0,
        1,
        vec![],
        vec![],
        node::Which::Struct {
            is_group: false,
            discriminant_count,
            discriminant_offset: 0,
            fields: fields
                .into_iter()
                .map(|(n, d, t)| SchemaField::new(n.to_string(), d, field::Which::Slot(t)))
                .collect(),
        },
    )
}

fn request(nodes: Vec<Node>) -> CodeGeneratorRequest {
    CodeGeneratorRequest::new(nodes, vec![RequestedFile::new(1, "dir/a.capnp".to_string(), vec![])])
}

#[test]
fn translation_resolves_its_own_references() {
    let cgr = request(vec![
        file_node(1, "dir/a.capnp", 4, &[(2, "Holder"), (4, "Held")]),
        struct_node(
            2,
            1,
            vec![
                ("held", NO_DISCRIMINANT, SchemaType::Struct { type_id: 4 }),
                ("one", 0, SchemaType::Void),
            ],
        ),
        struct_node(4, 0, vec![("back", NO_DISCRIMINANT, SchemaType::Struct { type_id: 2 })]),
    ]);
    let ast = translate(&cgr).unwrap();
    let holder = match &ast.defs[0].elements[1] {
        ModuleElement::TypeDef(TypeDef::Struct(s)) => s,
        other => panic!("not a struct: {:?}", other),
    };
    assert_eq!(holder.fields.len(), 2);
    let paths: Vec<Vec<Name>> = holder
        .fields
        .iter()
        .map(|f| match &f.rust_type {
            Type::RefName(p, _) => p.names.clone(),
            other => panic!("not resolved: {:?}", other),
        })
        .collect();
    assert_eq!(paths[0], vec![name("dir"), name("Held")]);
    assert_eq!(paths[1], vec![name("dir"), name("Which")]);
    assert!(matches!(&holder.fields[1].rust_type,
        Type::RefName(_, TypeDef::Enum(e)) if e.id == 3 && e.enum_origin == EnumOrigin::WhichForPartialUnion));
}

#[test]
fn dangling_reference_is_reported() {
    let cgr = request(vec![
        file_node(1, "dir/a.capnp", 4, &[(2, "Holder")]),
        struct_node(2, 0, vec![("held", NO_DISCRIMINANT, SchemaType::Struct { type_id: 40 })]),
    ]);
    assert_eq!(translate(&cgr), Err(Error::BrokenInternalReference(40)));
    assert_eq!(code_gen(&cgr), Err(Error::BrokenInternalReference(40)));
}

#[test]
fn failures_of_translation_reach_the_caller() {
    let cgr = request(vec![
        file_node(1, "dir/a.capnp", 4, &[(2, "Blob")]),
        struct_node(2, 0, vec![("raw", NO_DISCRIMINANT, SchemaType::Data)]),
    ]);
    assert_eq!(code_gen(&cgr), Err(Error::UnsupportedConstruct(Unsupported::Data)));
    let cgr = request(vec![file_node(1, "a.capnp", 0, &[])]);
    assert_eq!(code_gen(&cgr), Err(Error::MalformedDisplayName(1)));
}

#[test]
fn types_without_a_conversion_are_reported() {
    let union_of_numbers = request(vec![
        file_node(1, "dir/a.capnp", 4, &[(2, "U")]),
        struct_node(2, 2, vec![("a", 0, SchemaType::Int32), ("b", 1, SchemaType::Text)]),
    ]);
    assert!(translate(&union_of_numbers).is_ok());
    assert_eq!(
        code_gen(&union_of_numbers),
        Err(Error::UnsupportedConstruct(Unsupported::Conversion))
    );
    let void_field = request(vec![
        file_node(1, "dir/a.capnp", 4, &[(2, "S")]),
        struct_node(2, 0, vec![("nothing", NO_DISCRIMINANT, SchemaType::Void)]),
    ]);
    assert_eq!(code_gen(&void_field), Err(Error::UnsupportedConstruct(Unsupported::Conversion)));
    let list_of_lists = request(vec![
        file_node(1, "dir/a.capnp", 4, &[(2, "S")]),
        struct_node(
            2,
            0,
            vec![(
                "grid",
                NO_DISCRIMINANT,
                SchemaType::List(Box::new(SchemaType::List(Box::new(SchemaType::Int8)))),
            )],
        ),
    ]);
    assert_eq!(code_gen(&list_of_lists), Err(Error::UnsupportedConstruct(Unsupported::Conversion)));
}

#[test]
fn existing_sibling_modules_are_declared_in_the_text() {
    let cgr = request(vec![file_node(1, "dir/a.capnp", 4, &[])]);
    let existing = vec!["dir_a_capnp".to_string()];
    let ast = translate_with(&cgr, existing.clone()).unwrap();
    assert_eq!(ast.external_mod_decls, existing);
    let text = code_gen_with(&cgr, existing).unwrap();
    assert!(text.starts_with(
        "#![allow(unused_imports)]\n\n#[macro_use] extern crate derive_more;\nextern crate getset;\n\npub mod dir_a_capnp;\n\npub mod serde {"
    ));
    let without = code_gen(&cgr).unwrap();
    assert!(without.starts_with(
        "#![allow(unused_imports)]\n\n#[macro_use] extern crate derive_more;\nextern crate getset;\n\n\n\npub mod serde {"
    ));
}
