use capnpc_idiomatic_rust::rust::ast::Enum;
use capnpc_idiomatic_rust::rust::ast::EnumOrigin;
use capnpc_idiomatic_rust::rust::ast::Enumerant;
use capnpc_idiomatic_rust::rust::ast::Field;
use capnpc_idiomatic_rust::rust::ast::FullyQualifiedName;
use capnpc_idiomatic_rust::rust::ast::Impl;
use capnpc_idiomatic_rust::rust::ast::Module;
use capnpc_idiomatic_rust::rust::ast::ModuleElement;
use capnpc_idiomatic_rust::rust::ast::Name;
use capnpc_idiomatic_rust::rust::ast::RustAst;
use capnpc_idiomatic_rust::rust::ast::SerdeTrait;
use capnpc_idiomatic_rust::rust::ast::Struct;
use capnpc_idiomatic_rust::rust::ast::Type;
use capnpc_idiomatic_rust::rust::ast::TypeDef;
use capnpc_idiomatic_rust::rust::bridge::get_capnp_type;
use capnpc_idiomatic_rust::rust::code::is_trivial_module;
use capnpc_idiomatic_rust::rust::code::ToCode;
use capnpc_idiomatic_rust::rust::to_code;

fn name(raw: &str) -> Name {
    Name::from(&raw.to_string())
}

fn path(names: &[&str]) -> FullyQualifiedName {
    FullyQualifiedName::new(names.iter().map(|n| name(n)).collect())
}

fn list(t: Type) -> Type {
    Type::List(Box::new(t))
}

fn an_enum(
    id: u64,
    names: &[&str],
    schema: &[&str],
    origin: EnumOrigin,
    enumerants: Vec<(&str, Type)>,
) -> TypeDef {
    TypeDef::Enum(Enum::new(
        id,
        name(names[names.len() - 1]),
        path(names),
        path(schema),
        origin,
        enumerants.into_iter().map(|(n, t)| Enumerant::new(name(n), t)).collect(),
    ))
}

fn a_struct(id: u64, names: &[&str], fields: Vec<(&str, Type)>) -> TypeDef {
    let last = names[names.len() - 1];
    let mut schema: Vec<&str> = vec!["m_capnp"];
    schema.extend(&names[1..]);
    TypeDef::Struct(Struct::new(
        id,
        name(last),
        path(names),
        path(&schema),
        fields.into_iter().map(|(n, t)| Field::new(name(n), t)).collect(),
    ))
}

fn level() -> TypeDef {
    an_enum(1, &["m", "Level"], &["m_capnp", "Level"], EnumOrigin::Enum, vec![("low", Type::Unit), ("high", Type::Unit)])
}

fn part() -> TypeDef {
    a_struct(2, &["m", "Part"], vec![("size", Type::Uint32)])
}

fn to(def: TypeDef) -> Type {
    let names = match &def {
        TypeDef::Enum(e) => e.fully_qualified_type_name.clone(),
        TypeDef::Struct(s) => s.fully_qualified_type_name.clone(),
    };
    Type::RefName(names, def)
}

fn union_of_every_kind() -> TypeDef {
    let choice = an_enum(
        3,
        &["m", "Choice"],
        &["m_capnp", "Choice"],
        EnumOrigin::WhichForPartialUnion,
        vec![
            ("levels", list(to(level()))),
            ("texts", list(Type::String)),
            ("one", to(level())),
            ("part", to(part())),
            ("none", Type::Unit),
        ],
    );
    choice
}

fn union_with_numbers() -> TypeDef {
    an_enum(3,
        &["m", "Choice"], &["m_capnp", "Choice"], EnumOrigin::Struct,
        vec![
            ("count", Type::Int32),
            ("levels", list(to(level()))),
            ("numbers", list(Type::Uint8)),
            ("flag", Type::Bool),
        ],
    )
}

fn holder() -> TypeDef {
    let which = an_enum(4,
        &["m", "holder", "Which"], &["m_capnp", "Holder"], EnumOrigin::WhichForPartialUnion,
        vec![("none", Type::Unit)],
    );
    let shape = an_enum(5, &["m", "Shape"], &["m_capnp", "Shape"], EnumOrigin::Struct, vec![("none", Type::Unit)]);
    a_struct(
        6,
        &["m", "Holder"],
        vec![
            ("which", to(which)),
            ("shape", to(shape.clone())),
            ("shapes", list(to(shape))),
            ("level", to(level())),
            ("part", to(part())),
            ("type", Type::Int64),
            ("title", Type::String),
        ],
    )
}

fn read(def: TypeDef) -> Impl {
    Impl::new(SerdeTrait::ReadFrom, def)
}

fn write(def: TypeDef) -> Impl {
    Impl::new(SerdeTrait::WriteTo, def)
}

#[test]
fn types_are_written_as_the_generated_program_names_them() {
    let pairs = vec![
        (Type::Unit, "()"),
        (Type::Bool, "bool"),
        (Type::Int8, "i8"),
        (Type::Int16, "i16"),
        (Type::Int32, "i32"),
        (Type::Int64, "i64"),
        (Type::Uint8, "u8"),
        (Type::Uint16, "u16"),
        (Type::Uint32, "u32"),
        (Type::Uint64, "u64"),
        (Type::Float32, "f32"),
        (Type::Float64, "f64"),
        (Type::String, "String"),
        (list(Type::Int8), "Vec<i8>"),
        (list(list(Type::String)), "Vec<Vec<String>>"),
        (to(part()), "crate::m::Part"),
        (list(to(level())), "Vec<crate::m::Level>"),
    ];
    for (t, text) in pairs {
        assert!(t.is_renderable());
        assert_eq!(t.to_code(), text);
    }
}

#[test]
fn unresolved_reference_cannot_be_written() {
    assert!(!Type::RefId(1).is_renderable());
    assert!(!list(list(Type::RefId(1))).is_renderable());
    assert!(!Type::RefName(FullyQualifiedName::new(vec![]), part()).is_renderable());
    assert!(!a_struct(1, &["m", "S"], vec![("f", Type::RefId(2))]).is_renderable());
    assert!(!read(a_struct(1, &["m", "S"], vec![("f", Type::RefId(2))])).is_renderable());
    assert!(!write(a_struct(1, &["m", "S"], vec![("f", list(Type::RefId(2)))])).is_renderable());
}

#[test]
fn numbers_and_booleans_are_primitive() {
    assert!(Type::Unit.is_primitive());
    assert!(Type::Bool.is_primitive());
    assert!(Type::Uint64.is_primitive());
    assert!(Type::Float32.is_primitive());
    assert!(!Type::String.is_primitive());
    assert!(!list(Type::Bool).is_primitive());
    assert!(!Type::RefId(1).is_primitive());
    assert!(!to(level()).is_primitive());
}

#[test]
fn simple_enum_has_only_plain_tags() {
    assert!(level().is_simple_enum());
    assert!(an_enum(1, &["m", "E"], &["m_capnp", "E"], EnumOrigin::Struct, vec![("a", Type::Unit)]).is_simple_enum());
    assert!(an_enum(1, &["m", "E"], &["m_capnp", "E"], EnumOrigin::Enum, vec![]).is_simple_enum());
    assert!(!union_of_every_kind().is_simple_enum());
    assert!(!part().is_simple_enum());
}

#[test]
fn enumerant_is_written_with_its_payload() {
    assert_eq!(Enumerant::new(name("seaOtter"), Type::Unit).to_code(), "SeaOtter");
    assert_eq!(Enumerant::new(name("count"), Type::Uint8).to_code(), "Count(u8)");
    assert_eq!(Enumerant::new(name("type"), list(Type::String)).to_code(), "Type(Vec<String>)");
}

#[test]
fn field_is_written_under_its_accessor_attribute() {
    assert_eq!(
        Field::new(name("itemCount"), Type::Uint8).to_code(),
        "#[getset(get_copy = \"pub\", set = \"pub\")]\nitem_count: u8"
    );
    assert_eq!(
        Field::new(name("move"), Type::String).to_code(),
        "#[getset(get = \"pub\", set = \"pub\", get_mut = \"pub\")]\nmove_: String"
    );
}

#[test]
fn struct_declaration() {
    assert_eq!(
        holder().to_code(),
        [
            "#[derive(Clone, Constructor, Getters, CopyGetters, MutGetters, Setters, Debug, PartialEq)]\n",
            "pub struct Holder {\n",
            "\t#[getset(get = \"pub\", set = \"pub\", get_mut = \"pub\")]\n",
            "\twhich: crate::m::holder::Which,\n",
            "\t\n",
            "\t#[getset(get = \"pub\", set = \"pub\", get_mut = \"pub\")]\n",
            "\tshape: crate::m::Shape,\n",
            "\t\n",
            "\t#[getset(get = \"pub\", set = \"pub\", get_mut = \"pub\")]\n",
            "\tshapes: Vec<crate::m::Shape>,\n",
            "\t\n",
            "\t#[getset(get = \"pub\", set = \"pub\", get_mut = \"pub\")]\n",
            "\tlevel: crate::m::Level,\n",
            "\t\n",
            "\t#[getset(get = \"pub\", set = \"pub\", get_mut = \"pub\")]\n",
            "\tpart: crate::m::Part,\n",
            "\t\n",
            "\t#[getset(get_copy = \"pub\", set = \"pub\")]\n",
            "\ttype_: i64,\n",
            "\t\n",
            "\t#[getset(get = \"pub\", set = \"pub\", get_mut = \"pub\")]\n",
            "\ttitle: String\n",
            "}",
        ]
        .concat()
    );
    assert_eq!(
        a_struct(7, &["m", "Nothing"], vec![]).to_code(),
        "#[derive(Clone, Constructor, Getters, CopyGetters, MutGetters, Setters, Debug, PartialEq)]\npub struct Nothing {\n\t\n}"
    );
}

#[test]
fn enum_declaration() {
    assert_eq!(
        union_of_every_kind().to_code(),
        "#[derive(Clone, Debug, PartialEq)]\npub enum Choice {\n\tLevels(Vec<crate::m::Level>),\n\tTexts(Vec<String>),\n\tOne(crate::m::Level),\n\tPart(crate::m::Part),\n\tNone\n}"
    );
    assert_eq!(
        an_enum(8, &["m", "Never"], &["m_capnp", "Never"], EnumOrigin::Enum, vec![]).to_code(),
        "#[derive(Clone, Debug, PartialEq)]\npub enum Never {\n\t\n}"
    );
}

#[test]
fn conversion_traits() {
    assert_eq!(
        SerdeTrait::ReadFrom.to_code(),
        "pub trait ReadFrom<T>: Sized {\n    fn read_from(src : &T) -> Result<Self, Error>;\n}"
    );
    assert_eq!(
        SerdeTrait::WriteTo.to_code(),
        "pub trait WriteTo<T> {\n    fn write_to(&self, dst : &mut T);\n}\n\npub trait ConvertTo<T> {\n    fn convert(&self) -> T;\n}\n"
    );
}

#[test]
fn schema_type_of_a_conversion() {
    assert_eq!(get_capnp_type(&level(), SerdeTrait::ReadFrom), path(&["m_capnp", "Level"]));
    assert_eq!(get_capnp_type(&level(), SerdeTrait::WriteTo), path(&["m_capnp", "Level"]));
    assert_eq!(
        get_capnp_type(&part(), SerdeTrait::ReadFrom),
        path(&["m_capnp", "Part", "Reader<'_>"])
    );
    assert_eq!(
        get_capnp_type(&part(), SerdeTrait::WriteTo),
        path(&["m_capnp", "Part", "Builder<'_>"])
    );
    assert_eq!(
        get_capnp_type(&union_with_numbers(), SerdeTrait::WriteTo).to_code(),
        "crate::m_capnp::choice::Builder<'_>"
    );
}

#[test]
fn schema_enum_is_read_by_a_match_and_written_by_value() {
    assert!(read(level()).is_renderable());
    assert_eq!(
        read(level()).to_code(),
        [
            "impl crate::serde::ReadFrom<crate::m_capnp::Level> for crate::m::Level {\n",
            "\tfn read_from(src: &crate::m_capnp::Level) -> Result<crate::m::Level, Error> {\n",
            "\t\tmatch src {\n",
            "\t\t\tcrate::m_capnp::Level::Low => Ok(crate::m::Level::Low),\n",
            "\t\t\tcrate::m_capnp::Level::High => Ok(crate::m::Level::High)\n",
            "\t\t}\n",
            "\t}\n",
            "}",
        ]
        .concat()
    );
    assert_eq!(
        write(level()).to_code(),
        [
            "impl crate::serde::ConvertTo<crate::m_capnp::Level> for crate::m::Level {\n",
            "\tfn convert(&self) -> crate::m_capnp::Level {\n",
            "\t\tmatch &self {\n",
            "\t\t\tcrate::m::Level::Low => crate::m_capnp::Level::Low,\n",
            "\t\t\tcrate::m::Level::High => crate::m_capnp::Level::High\n",
            "\t\t}\n",
            "\t}\n",
            "}",
        ]
        .concat()
    );
    assert_eq!(
        read(an_enum(8, &["m", "Never"], &["m_capnp", "Never"], EnumOrigin::Enum, vec![])).to_code(),
        "impl crate::serde::ReadFrom<crate::m_capnp::Never> for crate::m::Never {\n\tfn read_from(src: &crate::m_capnp::Never) -> Result<crate::m::Never, Error> {\n\t\tmatch src {\n\t\t\t\n\t\t}\n\t}\n}"
    );
}

#[test]
fn schema_enum_with_a_payload_has_no_conversion() {
    let odd = an_enum(1, &["m", "Odd"], &["m_capnp", "Odd"], EnumOrigin::Enum, vec![("a", Type::String)]);
    assert!(!read(odd.clone()).is_renderable());
    assert!(!write(odd).is_renderable());
}

#[test]
fn union_is_read_member_by_member() {
    assert!(read(union_of_every_kind()).is_renderable());
    assert_eq!(
        read(union_of_every_kind()).to_code(),
        [
            "impl crate::serde::ReadFrom<crate::m_capnp::choice::Reader<'_>> for crate::m::Choice {\n",
            "\tfn read_from(src: &crate::m_capnp::choice::Reader<'_>) -> Result<crate::m::Choice, Error> {\n",
            "\t\tmatch src.which() {\n",
            "\t\t\tOk(crate::m_capnp::choice::Which::Levels(data)) => {\n",
            "\t\t\t\tlet mut parsed_data : Vec<crate::m::Level> = vec!();\n",
            "\t\t\t\tfor item in data?.iter() {\n",
            "\t\t\t\t\tlet translated = crate::m::Level::read_from(&item?)?;\n",
            "\t\t\t\t\tparsed_data.push(translated);\n",
            "\t\t\t\t}\n",
            "\t\t\t\tOk(crate::m::Choice::Levels(parsed_data))\n",
            "\t\t\t},\n",
            "\t\t\tOk(crate::m_capnp::choice::Which::Texts(data)) => {\n",
            "\t\t\t\tlet mut parsed_data : Vec<String> = vec!();\n",
            "\t\t\t\tfor item in data?.iter() {\n",
            "\t\t\t\t\tlet translated = String::read_from(&item?)?;\n",
            "\t\t\t\t\tparsed_data.push(translated);\n",
            "\t\t\t\t}\n",
            "\t\t\t\tOk(crate::m::Choice::Texts(parsed_data))\n",
            "\t\t\t},\n",
            "\t\t\tOk(crate::m_capnp::choice::Which::One(data)) => {\n",
            "\t\t\t\tlet data = data?;\n",
            "\t\t\t\tOk(crate::m::Choice::One(crate::m::Level::read_from(&data)?))\n",
            "\t\t\t},\n",
            "\t\t\tOk(crate::m_capnp::choice::Which::Part(data)) => {\n",
            "\t\t\t\tlet data = data?;\n",
            "\t\t\t\tOk(crate::m::Choice::Part(crate::m::Part::read_from(&data)?))\n",
            "\t\t\t},\n",
            "\t\t\tOk(crate::m_capnp::choice::Which::None(())) => Ok(crate::m::Choice::None),\n",
            "\t\t\tErr(::capnp::NotInSchema(i)) => {\n",
            "\t\t\t\tErr(::capnp::NotInSchema(i))?\n",
            "\t\t\t}\n",
            "\t\t}\n",
            "\t}\n",
            "}",
        ]
        .concat()
    );
}

#[test]
fn union_is_written_member_by_member() {
    assert!(write(union_of_every_kind()).is_renderable());
    assert_eq!(
        write(union_of_every_kind()).to_code(),
        [
            "impl crate::serde::WriteTo<crate::m_capnp::choice::Builder<'_>> for crate::m::Choice {\n",
            "\tfn write_to(&self, dst: &mut crate::m_capnp::choice::Builder<'_>) {\n",
            "\t\tmatch &self {\n",
            "\t\t\tcrate::m::Choice::Levels(data) =>\n",
            "\t\t\t{\n",
            "\t\t\t\tlet mut dst_items = dst.reborrow().init_levels(data.len() as u32);\n",
            "\t\t\t\tlet mut i = 0;\n",
            "\t\t\t\tfor datum in data {\n",
            "\t\t\t\t\tlet converted_datum = crate::m::Level::convert(&datum);\n",
            "\t\t\t\t\tdst_items.set(i, converted_datum);\n",
            "\t\t\t\t\ti = i + 1;\n",
            "\t\t\t\t}\n",
            "\t\t\t}\n",
            "\t\t\t,\n",
            "\t\t\tcrate::m::Choice::Texts(data) =>\n",
            "\t\t\t{\n",
            "\t\t\t\tlet mut dst_items = dst.reborrow().init_texts(data.len() as u32);\n",
            "\t\t\t\tlet mut i = 0;\n",
            "\t\t\t\tfor datum in data {\n",
            "\t\t\t\t\tdst_items.set(i, datum);\n",
            "\t\t\t\t\ti = i + 1;\n",
            "\t\t\t\t}\n",
            "\t\t\t}\n",
            "\t\t\t,\n",
            "\t\t\tcrate::m::Choice::One(data) => {\n",
            "\t\t\t\tdst.reborrow().set_one(data.convert())\n",
            "\t\t\t},\n",
            "\t\t\tcrate::m::Choice::Part(data) => {\n",
            "\t\t\t\tdata.write_to(&mut dst.reborrow().init_part());\n",
            "\t\t\t},\n",
            "\t\t\tcrate::m::Choice::None => dst.reborrow().set_none(())\n",
            "\t\t}\n",
            "\t}\n",
            "}",
        ]
        .concat()
    );
}

#[test]
fn union_member_holding_a_number_can_be_neither_read_nor_written() {
    assert!(!read(union_with_numbers()).is_renderable());
    assert!(!write(union_with_numbers()).is_renderable());
    let flag = an_enum(3, &["m", "C"], &["m_capnp", "C"], EnumOrigin::Struct, vec![("on", Type::Bool)]);
    assert!(!write(flag).is_renderable());
    let lists = an_enum(
        3,
        &["m", "C"],
        &["m_capnp", "C"],
        EnumOrigin::Struct,
        vec![("numbers", list(Type::Uint8)), ("levels", list(to(level())))],
    );
    assert!(write(lists.clone()).is_renderable());
    let text = write(lists).to_code();
    assert!(!text.contains('#'));
    assert!(text.contains("let mut dst_items = dst.reborrow().init_numbers(data.len() as u32);"));
    assert!(text.contains("let converted_datum = crate::m::Level::convert(&datum);"));
}

#[test]
fn struct_is_read_field_by_field() {
    assert!(read(holder()).is_renderable());
    assert_eq!(
        read(holder()).to_code(),
        [
            "impl crate::serde::ReadFrom<crate::m_capnp::holder::Reader<'_>> for crate::m::Holder {\n",
            "\tfn read_from(src: &crate::m_capnp::holder::Reader<'_>) -> Result<crate::m::Holder, Error> {\n",
            "\t\treturn Ok(crate::m::Holder::new(\n",
            "\t\t\tcrate::m::holder::Which::read_from(&src)?,\n",
            "\t\t\tcrate::m::Shape::read_from(&src.get_shape()?)?,\n",
            "\t\t\t{\n",
            "\t\t\t\tlet mut items : Vec<crate::m::Shape> = vec!();\n",
            "\t\t\t\tfor i in src.get_shapes()?.iter() {\n",
            "\t\t\t\t\titems.push(crate::m::Shape::read_from(&i?)?);\n",
            "\t\t\t\t};\n",
            "\t\t\t\titems\n",
            "\t\t\t},\n",
            "\t\t\tcrate::m::Level::read_from(&src.get_level()?)?,\n",
            "\t\t\tcrate::m::Part::read_from(&src.get_part()?)?,\n",
            "\t\t\tsrc.get_type_(),\n",
            "\t\t\tsrc.get_title()?.to_string()\n",
            "\t\t))\n",
            "\t}\n",
            "}",
        ]
        .concat()
    );
    assert_eq!(
        read(a_struct(7, &["m", "Nothing"], vec![])).to_code(),
        [
            "impl crate::serde::ReadFrom<crate::m_capnp::nothing::Reader<'_>> for crate::m::Nothing {\n",
            "\tfn read_from(src: &crate::m_capnp::nothing::Reader<'_>) -> Result<crate::m::Nothing, Error> {\n",
            "\t\treturn Ok(crate::m::Nothing::new(\n",
            "\t\t\t\n",
            "\t\t))\n",
            "\t}\n",
            "}",
        ]
        .concat()
    );
}

#[test]
fn struct_is_written_field_by_field() {
    assert!(write(holder()).is_renderable());
    assert_eq!(
        write(holder()).to_code(),
        [
            "impl crate::serde::WriteTo<crate::m_capnp::holder::Builder<'_>> for crate::m::Holder {\n",
            "\tfn write_to(&self, dst: &mut crate::m_capnp::holder::Builder<'_>) {\n",
            "\t\tself.which().write_to(&mut dst.reborrow());\n",
            "\t\tself.shape().write_to(&mut dst.reborrow().init_shape());\n",
            "\t\t{\n",
            "\t\t\tlet mut dst_items = dst.reborrow().init_shapes(self.shapes().len() as u32);\n",
            "\t\t\tlet mut i = 0;\n",
            "\t\t\tfor datum in self.shapes() {\n",
            "\t\t\t\tlet converted_datum = crate::m::Shape::convert(&datum);\n",
            "\t\t\t\tdst_items.set(i, converted_datum);\n",
            "\t\t\t\ti = i + 1;\n",
            "\t\t\t}\n",
            "\t\t}\n",
            "\t\tdst.reborrow().set_level(self.level().convert());\n",
            "\t\tself.part().write_to(&mut dst.reborrow().init_part());\n",
            "\t\tdst.set_type_(self.type_());\n",
            "\t\tdst.set_title(self.title());\n",
            "\t}\n",
            "}",
        ]
        .concat()
    );
    assert_eq!(
        write(a_struct(7, &["m", "Nothing"], vec![])).to_code(),
        [
            "impl crate::serde::WriteTo<crate::m_capnp::nothing::Builder<'_>> for crate::m::Nothing {\n",
            "\tfn write_to(&self, dst: &mut crate::m_capnp::nothing::Builder<'_>) {\n",
            "\t\t\n",
            "\t}\n",
            "}",
        ]
        .concat()
    );
}

#[test]
fn list_of_plain_tag_enums_is_read_with_unwrapped_items_and_written_by_value() {
    let shape = an_enum(5, &["m", "Shape"], &["m_capnp", "Shape"], EnumOrigin::Struct, vec![("none", Type::Unit)]);
    let s = a_struct(6, &["m", "Holder"], vec![("shapes", list(to(shape)))]);
    let reading = read(s.clone()).to_code();
    assert!(reading.contains("for i in src.get_shapes()?.iter() {"));
    assert!(reading.contains("items.push(crate::m::Shape::read_from(&i?)?);"));
    let writing = write(s).to_code();
    assert!(writing.contains("let converted_datum = crate::m::Shape::convert(&datum);"));
    assert!(!writing.contains("write_to(&mut items"));
}

#[test]
fn list_of_structs_is_read_and_written_element_by_element() {
    let s = a_struct(6, &["m", "Holder"], vec![("parts", list(to(part())))]);
    let reading = read(s.clone()).to_code();
    assert!(reading.contains("items.push(crate::m::Part::read_from(&i)?);"));
    let writing = write(s).to_code();
    assert!(writing.contains("src.write_to(&mut items.reborrow().get(i));"));
    assert!(!writing.contains("convert"));
}

#[test]
fn field_without_a_value_and_list_of_lists_have_no_conversion() {
    let unit = a_struct(1, &["m", "S"], vec![("nothing", Type::Unit)]);
    assert!(unit.is_renderable());
    assert!(!read(unit.clone()).is_renderable());
    assert!(!write(unit).is_renderable());
    let nested = a_struct(1, &["m", "S"], vec![("grid", list(list(Type::Int8)))]);
    assert!(read(nested.clone()).is_renderable());
    assert!(!write(nested).is_renderable());
    let member = an_enum(1, &["m", "U"], &["m_capnp", "U"], EnumOrigin::Struct, vec![("grid", list(list(Type::Int8)))]);
    assert!(read(member.clone()).is_renderable());
    assert!(!write(member).is_renderable());
}

#[test]
fn conversion_needs_both_paths() {
    let mut nameless = part();
    if let TypeDef::Struct(s) = &mut nameless {
        s.capnp_type_name = FullyQualifiedName::new(vec![]);
    }
    assert!(!read(nameless.clone()).is_renderable());
    assert!(!write(nameless).is_renderable());
}

fn import() -> ModuleElement {
    ModuleElement::UseDecl("a::b".to_string())
}

#[test]
fn module_that_declares_nothing_is_trivial() {
    let empty = Module::new(name("empty"), vec![]);
    assert!(is_trivial_module(&empty));
    let imports = Module::new(name("imports"), vec![import(), ModuleElement::Module(empty.clone())]);
    assert!(is_trivial_module(&imports));
    let declares = Module::new(name("declares"), vec![import(), ModuleElement::TypeDef(part())]);
    assert!(!is_trivial_module(&declares));
    let around = Module::new(name("around"), vec![ModuleElement::Module(declares)]);
    assert!(!is_trivial_module(&around));
    assert!(!is_trivial_module(&Module::new(
        name("traits"),
        vec![ModuleElement::TraitDef(SerdeTrait::ReadFrom)]
    )));
    assert!(!is_trivial_module(&Module::new(
        name("impls"),
        vec![ModuleElement::Impl(read(part()))]
    )));
}

#[test]
fn trivial_module_has_no_text() {
    let empty = Module::new(name("empty"), vec![import()]);
    assert_eq!(empty.to_code(), "");
    let around = Module::new(
        name("outerModule"),
        vec![
            import(),
            ModuleElement::Module(empty),
            ModuleElement::TypeDef(a_struct(7, &["m", "Nothing"], vec![])),
        ],
    );
    assert_eq!(
        around.to_code(),
        [
            "pub mod outer_module {\n",
            "\tuse a::b;\n",
            "\t\n",
            "\t#[derive(Clone, Constructor, Getters, CopyGetters, MutGetters, Setters, Debug, PartialEq)]\n",
            "\tpub struct Nothing {\n",
            "\t\t\n",
            "\t}\n",
            "}",
        ]
        .concat()
    );
    assert_eq!(import().to_code(), "use a::b;");
}

#[test]
fn file_lists_crates_sibling_modules_and_modules_with_text() {
    let ast = RustAst::new(
        vec!["extern crate one;".to_string(), "extern crate two;".to_string()],
        vec!["left".to_string(), "right".to_string()],
        vec![
            Module::new(name("hollow"), vec![import()]),
            Module::new(name("first"), vec![ModuleElement::TraitDef(SerdeTrait::ReadFrom)]),
            Module::new(name("second"), vec![ModuleElement::TypeDef(level())]),
        ],
    );
    assert!(ast.is_renderable());
    let expected = [
        "#![allow(unused_imports)]\n\n",
        "extern crate one;\nextern crate two;\n\n",
        "pub mod left;\npub mod right;\n\n",
        "pub mod first {\n\tpub trait ReadFrom<T>: Sized {\n\t    fn read_from(src : &T) -> Result<Self, Error>;\n\t}\n}\n\n",
        "pub mod second {\n\t#[derive(Clone, Debug, PartialEq)]\n\tpub enum Level {\n\t\tLow,\n\t\tHigh\n\t}\n}",
    ]
    .concat();
    assert_eq!(ast.to_code(), expected);
    assert_eq!(to_code(&ast), expected);
}

#[test]
fn file_without_anything() {
    let ast = RustAst::new(vec![], vec![], vec![]);
    assert_eq!(ast.to_code(), "#![allow(unused_imports)]\n\n\n\n\n\n");
}
