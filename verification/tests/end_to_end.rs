use capnpc_idiomatic_rust::parser::ast::code_generator_request::RequestedFile;
use capnpc_idiomatic_rust::parser::ast::field;
use capnpc_idiomatic_rust::parser::ast::field::NO_DISCRIMINANT;
use capnpc_idiomatic_rust::parser::ast::node;
use capnpc_idiomatic_rust::parser::ast::node::NestedNode;
use capnpc_idiomatic_rust::parser::ast::CodeGeneratorRequest;
use capnpc_idiomatic_rust::parser::ast::Enumerant;
use capnpc_idiomatic_rust::parser::ast::Field;
use capnpc_idiomatic_rust::parser::ast::Node;
use capnpc_idiomatic_rust::parser::ast::Type;
use capnpc_idiomatic_rust::rust::code_gen;

/// What every generated file starts with: the crates it declares, and no
/// module beside it.
fn header() -> String {
    "#![allow(unused_imports)]\n\n#[macro_use] extern crate derive_more;\nextern crate getset;\n\n\n\n".to_string()
}

/// The start of the module of conversions: the import of the error type and
/// the declarations of the conversion traits, one tab in.
fn conversions_start() -> String {
    let traits = [
        "pub trait ReadFrom<T>: Sized {\n    fn read_from(src : &T) -> Result<Self, Error>;\n}",
        "pub trait WriteTo<T> {\n    fn write_to(&self, dst : &mut T);\n}\n\npub trait ConvertTo<T> {\n    fn convert(&self) -> T;\n}\n",
    ];
    format!(
        "pub mod serde {{\n\tuse capnp::Error;\n\t\n\t{}\n\t\n\t{}\n\t\n\t",
        traits[0].replace("\n", "\n\t"),
        traits[1].replace("\n", "\n\t")
    )
}

/// A plain struct becomes a struct whose fields have accessors, and each of its
/// conversions copies each field.
#[test]
fn plain_struct_renders_struct_and_both_conversions() {
    let cgr = CodeGeneratorRequest::new(
        vec![
            Node::new(
                1,
                "schema/point.capnp".to_string(),
                7,
                0,
                vec![NestedNode::new(10, "Point".to_string())],
                vec![],
                node::Which::File,
            ),
            Node::new(
                10,
                "schema/point.capnp:Point".to_string(),
                19,
                1,
                vec![],
                vec![],
                node::Which::Struct {
                    is_group: false,
                    discriminant_count: 0,
                    discriminant_offset: 0,
                    fields: vec![
                        Field::new("x".to_string(), NO_DISCRIMINANT, field::Which::Slot(Type::Int32)),
                        Field::new("y".to_string(), NO_DISCRIMINANT, field::Which::Slot(Type::Int32)),
                    ],
                },
            ),
        ],
        vec![
            RequestedFile::new(1, "schema/point.capnp".to_string(), vec![]),
        ],
    );
    let modules = [
        "pub mod schema {\n\tuse crate::getset::{Getters, CopyGetters, MutGetters, Setters};\n\t\n",
        "\t#[derive(Clone, Constructor, Getters, CopyGetters, MutGetters, Setters, Debug, PartialEq)]\n\tpub struct Point {\n\t\t#[getset(get_copy = \"pub\", set = \"pub\")]\n\t\tx: i32,\n\t\t\n\t\t#[getset(get_copy = \"pub\", set = \"pub\")]\n\t\ty: i32\n\t}\n}\n\n",
    ]
    .concat();
    let conversions = [
        "impl crate::serde::ReadFrom<crate::schema_point_capnp::point::Reader<'_>> for crate::schema::Point {\n\t\tfn read_from(src: &crate::schema_point_capnp::point::Reader<'_>) -> Result<crate::schema::Point, Error> {\n\t\t\treturn Ok(crate::schema::Point::new(\n\t\t\t\tsrc.get_x(),\n\t\t\t\tsrc.get_y()\n\t\t\t))\n\t\t}\n\t}\n\t\n",
        "\timpl crate::serde::WriteTo<crate::schema_point_capnp::point::Builder<'_>> for crate::schema::Point {\n\t\tfn write_to(&self, dst: &mut crate::schema_point_capnp::point::Builder<'_>) {\n\t\t\tdst.set_x(self.x());\n\t\t\tdst.set_y(self.y());\n\t\t}\n\t}\n}",
    ]
    .concat();
    let expected = format!("{}{}{}{}", header(), modules, conversions_start(), conversions);
    assert_eq!(code_gen(&cgr), Ok(expected));
}

/// A struct all of whose fields form a union becomes one enum, and no struct.
#[test]
fn fully_discriminated_struct_renders_single_enum() {
    let cgr = CodeGeneratorRequest::new(
        vec![
            Node::new(
                1,
                "schema/shape.capnp".to_string(),
                7,
                0,
                vec![NestedNode::new(20, "Shape".to_string())],
                vec![],
                node::Which::File,
            ),
            Node::new(
                20,
                "schema/shape.capnp:Shape".to_string(),
                19,
                1,
                vec![],
                vec![],
                node::Which::Struct {
                    is_group: false,
                    discriminant_count: 2,
                    discriminant_offset: 0,
                    fields: vec![
                        Field::new("none".to_string(), 0, field::Which::Slot(Type::Void)),
                        Field::new("label".to_string(), 1, field::Which::Slot(Type::Text)),
                    ],
                },
            ),
        ],
        vec![
            RequestedFile::new(1, "schema/shape.capnp".to_string(), vec![]),
        ],
    );
    let modules = [
        "pub mod schema {\n\tuse crate::getset::{Getters, CopyGetters, MutGetters, Setters};\n\t\n",
        "\t#[derive(Clone, Debug, PartialEq)]\n\tpub enum Shape {\n\t\tNone,\n\t\tLabel(String)\n\t}\n}\n\n",
    ]
    .concat();
    let conversions = [
        "impl crate::serde::ReadFrom<crate::schema_shape_capnp::shape::Reader<'_>> for crate::schema::Shape {\n\t\tfn read_from(src: &crate::schema_shape_capnp::shape::Reader<'_>) -> Result<crate::schema::Shape, Error> {\n\t\t\tmatch src.which() {\n\t\t\t\tOk(crate::schema_shape_capnp::shape::Which::None(())) => Ok(crate::schema::Shape::None),\n\t\t\t\tOk(crate::schema_shape_capnp::shape::Which::Label(data)) => Ok(crate::schema::Shape::Label(data?.to_string())),\n\t\t\t\tErr(::capnp::NotInSchema(i)) => {\n\t\t\t\t\tErr(::capnp::NotInSchema(i))?\n\t\t\t\t}\n\t\t\t}\n\t\t}\n\t}\n\t\n",
        "\timpl crate::serde::WriteTo<crate::schema_shape_capnp::shape::Builder<'_>> for crate::schema::Shape {\n\t\tfn write_to(&self, dst: &mut crate::schema_shape_capnp::shape::Builder<'_>) {\n\t\t\tmatch &self {\n\t\t\t\tcrate::schema::Shape::None => dst.reborrow().set_none(()),\n\t\t\t\tcrate::schema::Shape::Label(data) => dst.reborrow().set_label(data.as_str())\n\t\t\t}\n\t\t}\n\t}\n}",
    ]
    .concat();
    let expected = format!("{}{}{}{}", header(), modules, conversions_start(), conversions);
    assert_eq!(code_gen(&cgr), Ok(expected));
}

/// A struct with a union and other fields becomes a struct with a `which` field
/// and an enum for the union.
#[test]
fn partly_discriminated_struct_renders_struct_and_union_enum() {
    let cgr = CodeGeneratorRequest::new(
        vec![
            Node::new(
                1,
                "schema/event.capnp".to_string(),
                7,
                0,
                vec![NestedNode::new(30, "Event".to_string())],
                vec![],
                node::Which::File,
            ),
            Node::new(
                30,
                "schema/event.capnp:Event".to_string(),
                19,
                1,
                vec![],
                vec![],
                node::Which::Struct {
                    is_group: false,
                    discriminant_count: 2,
                    discriminant_offset: 0,
                    fields: vec![
                        Field::new("id".to_string(), NO_DISCRIMINANT, field::Which::Slot(Type::Uint64)),
                        Field::new("started".to_string(), 0, field::Which::Slot(Type::Void)),
                        Field::new("message".to_string(), 1, field::Which::Slot(Type::Text)),
                    ],
                },
            ),
        ],
        vec![
            RequestedFile::new(1, "schema/event.capnp".to_string(), vec![]),
        ],
    );
    let modules = [
        "pub mod schema {\n\tuse crate::getset::{Getters, CopyGetters, MutGetters, Setters};\n\t\n",
        "\t#[derive(Clone, Constructor, Getters, CopyGetters, MutGetters, Setters, Debug, PartialEq)]\n\tpub struct Event {\n\t\t#[getset(get_copy = \"pub\", set = \"pub\")]\n\t\tid: u64,\n\t\t\n\t\t#[getset(get = \"pub\", set = \"pub\", get_mut = \"pub\")]\n\t\twhich: crate::schema::Which\n\t}\n\t\n",
        "\t#[derive(Clone, Debug, PartialEq)]\n\tpub enum Which {\n\t\tStarted,\n\t\tMessage(String)\n\t}\n}\n\n",
    ]
    .concat();
    let conversions = [
        "impl crate::serde::ReadFrom<crate::schema_event_capnp::event::Reader<'_>> for crate::schema::Event {\n\t\tfn read_from(src: &crate::schema_event_capnp::event::Reader<'_>) -> Result<crate::schema::Event, Error> {\n\t\t\treturn Ok(crate::schema::Event::new(\n\t\t\t\tsrc.get_id(),\n\t\t\t\tcrate::schema::Which::read_from(&src)?\n\t\t\t))\n\t\t}\n\t}\n\t\n",
        "\timpl crate::serde::WriteTo<crate::schema_event_capnp::event::Builder<'_>> for crate::schema::Event {\n\t\tfn write_to(&self, dst: &mut crate::schema_event_capnp::event::Builder<'_>) {\n\t\t\tdst.set_id(self.id());\n\t\t\tself.which().write_to(&mut dst.reborrow());\n\t\t}\n\t}\n\t\n",
        "\timpl crate::serde::ReadFrom<crate::schema_event_capnp::event::Reader<'_>> for crate::schema::Which {\n\t\tfn read_from(src: &crate::schema_event_capnp::event::Reader<'_>) -> Result<crate::schema::Which, Error> {\n\t\t\tmatch src.which() {\n\t\t\t\tOk(crate::schema_event_capnp::event::Which::Started(())) => Ok(crate::schema::Which::Started),\n\t\t\t\tOk(crate::schema_event_capnp::event::Which::Message(data)) => Ok(crate::schema::Which::Message(data?.to_string())),\n\t\t\t\tErr(::capnp::NotInSchema(i)) => {\n\t\t\t\t\tErr(::capnp::NotInSchema(i))?\n\t\t\t\t}\n\t\t\t}\n\t\t}\n\t}\n\t\n",
        "\timpl crate::serde::WriteTo<crate::schema_event_capnp::event::Builder<'_>> for crate::schema::Which {\n\t\tfn write_to(&self, dst: &mut crate::schema_event_capnp::event::Builder<'_>) {\n\t\t\tmatch &self {\n\t\t\t\tcrate::schema::Which::Started => dst.reborrow().set_started(()),\n\t\t\t\tcrate::schema::Which::Message(data) => dst.reborrow().set_message(data.as_str())\n\t\t\t}\n\t\t}\n\t}\n}",
    ]
    .concat();
    let expected = format!("{}{}{}{}", header(), modules, conversions_start(), conversions);
    assert_eq!(code_gen(&cgr), Ok(expected));
}

/// A field that holds a list of structs is read by reading each element of the
/// schema's list in turn.
#[test]
fn list_of_structs_is_read_element_by_element() {
    let cgr = CodeGeneratorRequest::new(
        vec![
            Node::new(
                1,
                "schema/book.capnp".to_string(),
                7,
                0,
                vec![NestedNode::new(40, "Shelf".to_string()), NestedNode::new(41, "Entry".to_string()), NestedNode::new(42, "Kind".to_string())],
                vec![],
                node::Which::File,
            ),
            Node::new(
                40,
                "schema/book.capnp:Shelf".to_string(),
                18,
                1,
                vec![],
                vec![],
                node::Which::Struct {
                    is_group: false,
                    discriminant_count: 0,
                    discriminant_offset: 0,
                    fields: vec![
                        Field::new("entries".to_string(), NO_DISCRIMINANT, field::Which::Slot(Type::List(Box::new(Type::Struct { type_id: 41 })))),
                    ],
                },
            ),
            Node::new(
                41,
                "schema/book.capnp:Entry".to_string(),
                18,
                1,
                vec![],
                vec![],
                node::Which::Struct {
                    is_group: false,
                    discriminant_count: 0,
                    discriminant_offset: 0,
                    fields: vec![
                        Field::new("id".to_string(), NO_DISCRIMINANT, field::Which::Slot(Type::Struct { type_id: 42 })),
                    ],
                },
            ),
            Node::new(
                42,
                "schema/book.capnp:Kind".to_string(),
                18,
                1,
                vec![],
                vec![],
                node::Which::Struct {
                    is_group: false,
                    discriminant_count: 2,
                    discriminant_offset: 0,
                    fields: vec![
                        Field::new("paper".to_string(), 0, field::Which::Slot(Type::Void)),
                        Field::new("audio".to_string(), 1, field::Which::Slot(Type::Void)),
                    ],
                },
            ),
        ],
        vec![
            RequestedFile::new(1, "schema/book.capnp".to_string(), vec![]),
        ],
    );
    let modules = [
        "pub mod schema {\n\tuse crate::getset::{Getters, CopyGetters, MutGetters, Setters};\n\t\n",
        "\t#[derive(Clone, Constructor, Getters, CopyGetters, MutGetters, Setters, Debug, PartialEq)]\n\tpub struct Shelf {\n\t\t#[getset(get = \"pub\", set = \"pub\", get_mut = \"pub\")]\n\t\tentries: Vec<crate::schema::Entry>\n\t}\n\t\n",
        "\t#[derive(Clone, Constructor, Getters, CopyGetters, MutGetters, Setters, Debug, PartialEq)]\n\tpub struct Entry {\n\t\t#[getset(get = \"pub\", set = \"pub\", get_mut = \"pub\")]\n\t\tid: crate::schema::Kind\n\t}\n\t\n",
        "\t#[derive(Clone, Debug, PartialEq)]\n\tpub enum Kind {\n\t\tPaper,\n\t\tAudio\n\t}\n}\n\n",
    ]
    .concat();
    let conversions = [
        "impl crate::serde::ReadFrom<crate::schema_book_capnp::shelf::Reader<'_>> for crate::schema::Shelf {\n\t\tfn read_from(src: &crate::schema_book_capnp::shelf::Reader<'_>) -> Result<crate::schema::Shelf, Error> {\n\t\t\treturn Ok(crate::schema::Shelf::new(\n\t\t\t\t{\n\t\t\t\t\tlet mut items : Vec<crate::schema::Entry> = vec!();\n\t\t\t\t\tfor i in src.get_entries()?.iter() {\n\t\t\t\t\t\titems.push(crate::schema::Entry::read_from(&i)?);\n\t\t\t\t\t};\n\t\t\t\t\titems\n\t\t\t\t}\n\t\t\t))\n\t\t}\n\t}\n\t\n",
        "\timpl crate::serde::WriteTo<crate::schema_book_capnp::shelf::Builder<'_>> for crate::schema::Shelf {\n\t\tfn write_to(&self, dst: &mut crate::schema_book_capnp::shelf::Builder<'_>) {\n\t\t\t{\n\t\t\t\tlet mut items = dst.reborrow().init_entries(self.entries().len() as u32);\n\t\t\t\tlet mut i = 0;\n\t\t\t\tfor src in self.entries() {\n\t\t\t\t\tsrc.write_to(&mut items.reborrow().get(i));\n\t\t\t\t\ti = i + 1;\n\t\t\t\t};\n\t\t\t}\n\t\t}\n\t}\n\t\n",
        "\timpl crate::serde::ReadFrom<crate::schema_book_capnp::entry::Reader<'_>> for crate::schema::Entry {\n\t\tfn read_from(src: &crate::schema_book_capnp::entry::Reader<'_>) -> Result<crate::schema::Entry, Error> {\n\t\t\treturn Ok(crate::schema::Entry::new(\n\t\t\t\tcrate::schema::Kind::read_from(&src.get_id()?)?\n\t\t\t))\n\t\t}\n\t}\n\t\n",
        "\timpl crate::serde::WriteTo<crate::schema_book_capnp::entry::Builder<'_>> for crate::schema::Entry {\n\t\tfn write_to(&self, dst: &mut crate::schema_book_capnp::entry::Builder<'_>) {\n\t\t\tself.id().write_to(&mut dst.reborrow().init_id());\n\t\t}\n\t}\n\t\n",
        "\timpl crate::serde::ReadFrom<crate::schema_book_capnp::kind::Reader<'_>> for crate::schema::Kind {\n\t\tfn read_from(src: &crate::schema_book_capnp::kind::Reader<'_>) -> Result<crate::schema::Kind, Error> {\n\t\t\tmatch src.which() {\n\t\t\t\tOk(crate::schema_book_capnp::kind::Which::Paper(())) => Ok(crate::schema::Kind::Paper),\n\t\t\t\tOk(crate::schema_book_capnp::kind::Which::Audio(())) => Ok(crate::schema::Kind::Audio),\n\t\t\t\tErr(::capnp::NotInSchema(i)) => {\n\t\t\t\t\tErr(::capnp::NotInSchema(i))?\n\t\t\t\t}\n\t\t\t}\n\t\t}\n\t}\n\t\n",
        "\timpl crate::serde::WriteTo<crate::schema_book_capnp::kind::Builder<'_>> for crate::schema::Kind {\n\t\tfn write_to(&self, dst: &mut crate::schema_book_capnp::kind::Builder<'_>) {\n\t\t\tmatch &self {\n\t\t\t\tcrate::schema::Kind::Paper => dst.reborrow().set_paper(()),\n\t\t\t\tcrate::schema::Kind::Audio => dst.reborrow().set_audio(())\n\t\t\t}\n\t\t}\n\t}\n}",
    ]
    .concat();
    let expected = format!("{}{}{}{}", header(), modules, conversions_start(), conversions);
    assert_eq!(code_gen(&cgr), Ok(expected));
}

/// A schema enum is converted by value; a nested struct lies in the module of
/// the struct around it; a field named like a reserved word is escaped.
#[test]
fn schema_enum_nested_struct_and_reserved_word() {
    let cgr = CodeGeneratorRequest::new(
        vec![
            Node::new(
                1,
                "schema/zoo.capnp".to_string(),
                7,
                0,
                vec![NestedNode::new(50, "Animal".to_string()), NestedNode::new(51, "Cage".to_string())],
                vec![],
                node::Which::File,
            ),
            Node::new(
                50,
                "schema/zoo.capnp:Animal".to_string(),
                17,
                1,
                vec![],
                vec![],
                node::Which::Enum(vec![Enumerant::new("lion".to_string()), Enumerant::new("seaOtter".to_string())]),
            ),
            Node::new(
                51,
                "schema/zoo.capnp:Cage".to_string(),
                17,
                1,
                vec![NestedNode::new(52, "Lock".to_string())],
                vec![],
                node::Which::Struct {
                    is_group: false,
                    discriminant_count: 0,
                    discriminant_offset: 0,
                    fields: vec![
                        Field::new("type".to_string(), NO_DISCRIMINANT, field::Which::Slot(Type::Enum { type_id: 50 })),
                        Field::new("animals".to_string(), NO_DISCRIMINANT, field::Which::Slot(Type::List(Box::new(Type::Enum { type_id: 50 })))),
                        Field::new("names".to_string(), NO_DISCRIMINANT, field::Which::Slot(Type::List(Box::new(Type::Text)))),
                        Field::new("label".to_string(), NO_DISCRIMINANT, field::Which::Slot(Type::Text)),
                        Field::new("open".to_string(), NO_DISCRIMINANT, field::Which::Slot(Type::Bool)),
                        Field::new("lock".to_string(), NO_DISCRIMINANT, field::Which::Slot(Type::Struct { type_id: 52 })),
                        Field::new("weights".to_string(), NO_DISCRIMINANT, field::Which::Slot(Type::List(Box::new(Type::Float64)))),
                    ],
                },
            ),
            Node::new(
                52,
                "schema/zoo.capnp:Cage.Lock".to_string(),
                22,
                51,
                vec![],
                vec![],
                node::Which::Struct {
                    is_group: false,
                    discriminant_count: 0,
                    discriminant_offset: 0,
                    fields: vec![
                        Field::new("code".to_string(), NO_DISCRIMINANT, field::Which::Slot(Type::Uint16)),
                    ],
                },
            ),
        ],
        vec![
            RequestedFile::new(1, "schema/zoo.capnp".to_string(), vec![]),
        ],
    );
    let modules = [
        "pub mod schema {\n\tuse crate::getset::{Getters, CopyGetters, MutGetters, Setters};\n\t\n",
        "\t#[derive(Clone, Debug, PartialEq)]\n\tpub enum Animal {\n\t\tLion,\n\t\tSeaOtter\n\t}\n\t\n",
        "\t#[derive(Clone, Constructor, Getters, CopyGetters, MutGetters, Setters, Debug, PartialEq)]\n\tpub struct Cage {\n\t\t#[getset(get = \"pub\", set = \"pub\", get_mut = \"pub\")]\n\t\ttype_: crate::schema::Animal,\n\t\t\n\t\t#[getset(get = \"pub\", set = \"pub\", get_mut = \"pub\")]\n\t\tanimals: Vec<crate::schema::Animal>,\n\t\t\n\t\t#[getset(get = \"pub\", set = \"pub\", get_mut = \"pub\")]\n\t\tnames: Vec<String>,\n\t\t\n\t\t#[getset(get = \"pub\", set = \"pub\", get_mut = \"pub\")]\n\t\tlabel: String,\n\t\t\n\t\t#[getset(get_copy = \"pub\", set = \"pub\")]\n\t\topen: bool,\n\t\t\n\t\t#[getset(get = \"pub\", set = \"pub\", get_mut = \"pub\")]\n\t\tlock: crate::schema::cage::Lock,\n\t\t\n\t\t#[getset(get = \"pub\", set = \"pub\", get_mut = \"pub\")]\n\t\tweights: Vec<f64>\n\t}\n\t\n",
        "\tpub mod cage {\n\t\tuse crate::getset::{Getters, CopyGetters, MutGetters, Setters};\n\t\t\n\t\t#[derive(Clone, Constructor, Getters, CopyGetters, MutGetters, Setters, Debug, PartialEq)]\n\t\tpub struct Lock {\n\t\t\t#[getset(get_copy = \"pub\", set = \"pub\")]\n\t\t\tcode: u16\n\t\t}\n\t}\n}\n\n",
    ]
    .concat();
    let conversions = [
        "impl crate::serde::ReadFrom<crate::schema_zoo_capnp::Animal> for crate::schema::Animal {\n\t\tfn read_from(src: &crate::schema_zoo_capnp::Animal) -> Result<crate::schema::Animal, Error> {\n\t\t\tmatch src {\n\t\t\t\tcrate::schema_zoo_capnp::Animal::Lion => Ok(crate::schema::Animal::Lion),\n\t\t\t\tcrate::schema_zoo_capnp::Animal::SeaOtter => Ok(crate::schema::Animal::SeaOtter)\n\t\t\t}\n\t\t}\n\t}\n\t\n",
        "\timpl crate::serde::ConvertTo<crate::schema_zoo_capnp::Animal> for crate::schema::Animal {\n\t\tfn convert(&self) -> crate::schema_zoo_capnp::Animal {\n\t\t\tmatch &self {\n\t\t\t\tcrate::schema::Animal::Lion => crate::schema_zoo_capnp::Animal::Lion,\n\t\t\t\tcrate::schema::Animal::SeaOtter => crate::schema_zoo_capnp::Animal::SeaOtter\n\t\t\t}\n\t\t}\n\t}\n\t\n",
        "\timpl crate::serde::ReadFrom<crate::schema_zoo_capnp::cage::Reader<'_>> for crate::schema::Cage {\n\t\tfn read_from(src: &crate::schema_zoo_capnp::cage::Reader<'_>) -> Result<crate::schema::Cage, Error> {\n\t\t\treturn Ok(crate::schema::Cage::new(\n\t\t\t\tcrate::schema::Animal::read_from(&src.get_type()?)?,\n\t\t\t\t{\n\t\t\t\t\tlet mut items : Vec<crate::schema::Animal> = vec!();\n\t\t\t\t\tfor i in src.get_animals()?.iter() {\n\t\t\t\t\t\titems.push(crate::schema::Animal::read_from(&i?)?);\n\t\t\t\t\t};\n\t\t\t\t\titems\n\t\t\t\t},\n\t\t\t\t{\n\t\t\t\t\tlet mut items : Vec<String> = vec!();\n\t\t\t\t\tfor i in src.get_names()?.iter() {\n\t\t\t\t\t\titems.push(String::read_from(&i)?);\n\t\t\t\t\t};\n\t\t\t\t\titems\n\t\t\t\t},\n\t\t\t\tsrc.get_label()?.to_string(),\n\t\t\t\tsrc.get_open(),\n\t\t\t\tcrate::schema::cage::Lock::read_from(&src.get_lock()?)?,\n\t\t\t\t{\n\t\t\t\t\tlet mut items : Vec<f64> = vec!();\n\t\t\t\t\tfor i in src.get_weights()?.iter() {\n\t\t\t\t\t\titems.push(f64::read_from(&i)?);\n\t\t\t\t\t};\n\t\t\t\t\titems\n\t\t\t\t}\n\t\t\t))\n\t\t}\n\t}\n\t\n",
        "\timpl crate::serde::WriteTo<crate::schema_zoo_capnp::cage::Builder<'_>> for crate::schema::Cage {\n\t\tfn write_to(&self, dst: &mut crate::schema_zoo_capnp::cage::Builder<'_>) {\n\t\t\tdst.reborrow().set_type(self.type_().convert());\n\t\t\t{\n\t\t\t\tlet mut dst_items = dst.reborrow().init_animals(self.animals().len() as u32);\n\t\t\t\tlet mut i = 0;\n\t\t\t\tfor datum in self.animals() {\n\t\t\t\t\tlet converted_datum = crate::schema::Animal::convert(&datum);\n\t\t\t\t\tdst_items.set(i, converted_datum);\n\t\t\t\t\ti = i + 1;\n\t\t\t\t}\n\t\t\t}\n\t\t\t{\n\t\t\t\tlet mut dst_items = dst.reborrow().init_names(self.names().len() as u32);\n\t\t\t\tlet mut i = 0;\n\t\t\t\tfor datum in self.names() {\n\t\t\t\t\tdst_items.set(i, datum);\n\t\t\t\t\ti = i + 1;\n\t\t\t\t}\n\t\t\t}\n\t\t\tdst.set_label(self.label());\n\t\t\tdst.set_open(self.open());\n\t\t\tself.lock().write_to(&mut dst.reborrow().init_lock());\n\t\t\t{\n\t\t\t\tlet mut dst_items = dst.reborrow().init_weights(self.weights().len() as u32);\n\t\t\t\tlet mut i = 0;\n\t\t\t\tfor datum in self.weights() {\n\t\t\t\t\tdst_items.set(i, datum);\n\t\t\t\t\ti = i + 1;\n\t\t\t\t}\n\t\t\t}\n\t\t}\n\t}\n\t\n",
        "\timpl crate::serde::ReadFrom<crate::schema_zoo_capnp::cage::lock::Reader<'_>> for crate::schema::cage::Lock {\n\t\tfn read_from(src: &crate::schema_zoo_capnp::cage::lock::Reader<'_>) -> Result<crate::schema::cage::Lock, Error> {\n\t\t\treturn Ok(crate::schema::cage::Lock::new(\n\t\t\t\tsrc.get_code()\n\t\t\t))\n\t\t}\n\t}\n\t\n",
        "\timpl crate::serde::WriteTo<crate::schema_zoo_capnp::cage::lock::Builder<'_>> for crate::schema::cage::Lock {\n\t\tfn write_to(&self, dst: &mut crate::schema_zoo_capnp::cage::lock::Builder<'_>) {\n\t\t\tdst.set_code(self.code());\n\t\t}\n\t}\n}",
    ]
    .concat();
    let expected = format!("{}{}{}{}", header(), modules, conversions_start(), conversions);
    assert_eq!(code_gen(&cgr), Ok(expected));
}

/// The members of a union may hold a list, a struct, a schema enum or text; a
/// file that declares nothing leaves no module.
#[test]
fn union_members_of_every_kind() {
    let cgr = CodeGeneratorRequest::new(
        vec![
            Node::new(
                1,
                "schema/mail.capnp".to_string(),
                7,
                0,
                vec![NestedNode::new(60, "Body".to_string()), NestedNode::new(61, "Part".to_string()), NestedNode::new(62, "Level".to_string())],
                vec![],
                node::Which::File,
            ),
            Node::new(
                60,
                "schema/mail.capnp:Body".to_string(),
                18,
                1,
                vec![],
                vec![],
                node::Which::Struct {
                    is_group: false,
                    discriminant_count: 4,
                    discriminant_offset: 0,
                    fields: vec![
                        Field::new("parts".to_string(), 0, field::Which::Slot(Type::List(Box::new(Type::Struct { type_id: 61 })))),
                        Field::new("single".to_string(), 1, field::Which::Slot(Type::Struct { type_id: 61 })),
                        Field::new("level".to_string(), 2, field::Which::Slot(Type::Enum { type_id: 62 })),
                        Field::new("plainText".to_string(), 3, field::Which::Slot(Type::Text)),
                    ],
                },
            ),
            Node::new(
                61,
                "schema/mail.capnp:Part".to_string(),
                18,
                1,
                vec![],
                vec![],
                node::Which::Struct {
                    is_group: false,
                    discriminant_count: 0,
                    discriminant_offset: 0,
                    fields: vec![
                        Field::new("size".to_string(), NO_DISCRIMINANT, field::Which::Slot(Type::Uint32)),
                    ],
                },
            ),
            Node::new(
                62,
                "schema/mail.capnp:Level".to_string(),
                18,
                1,
                vec![],
                vec![],
                node::Which::Enum(vec![Enumerant::new("low".to_string()), Enumerant::new("high".to_string())]),
            ),
            Node::new(
                2,
                "schema/empty.capnp".to_string(),
                7,
                0,
                vec![],
                vec![],
                node::Which::File,
            ),
        ],
        vec![
            RequestedFile::new(1, "schema/mail.capnp".to_string(), vec![]),
            RequestedFile::new(2, "schema/empty.capnp".to_string(), vec![]),
        ],
    );
    let modules = [
        "pub mod schema {\n\tuse crate::getset::{Getters, CopyGetters, MutGetters, Setters};\n\t\n",
        "\t#[derive(Clone, Debug, PartialEq)]\n\tpub enum Body {\n\t\tParts(Vec<crate::schema::Part>),\n\t\tSingle(crate::schema::Part),\n\t\tLevel(crate::schema::Level),\n\t\tPlainText(String)\n\t}\n\t\n",
        "\t#[derive(Clone, Constructor, Getters, CopyGetters, MutGetters, Setters, Debug, PartialEq)]\n\tpub struct Part {\n\t\t#[getset(get_copy = \"pub\", set = \"pub\")]\n\t\tsize: u32\n\t}\n\t\n",
        "\t#[derive(Clone, Debug, PartialEq)]\n\tpub enum Level {\n\t\tLow,\n\t\tHigh\n\t}\n}\n\n",
    ]
    .concat();
    let conversions = [
        "impl crate::serde::ReadFrom<crate::schema_mail_capnp::body::Reader<'_>> for crate::schema::Body {\n\t\tfn read_from(src: &crate::schema_mail_capnp::body::Reader<'_>) -> Result<crate::schema::Body, Error> {\n\t\t\tmatch src.which() {\n\t\t\t\tOk(crate::schema_mail_capnp::body::Which::Parts(data)) => {\n\t\t\t\t\tlet mut parsed_data : Vec<crate::schema::Part> = vec!();\n\t\t\t\t\tfor item in data?.iter() {\n\t\t\t\t\t\tlet translated = crate::schema::Part::read_from(&item?)?;\n\t\t\t\t\t\tparsed_data.push(translated);\n\t\t\t\t\t}\n\t\t\t\t\tOk(crate::schema::Body::Parts(parsed_data))\n\t\t\t\t},\n\t\t\t\tOk(crate::schema_mail_capnp::body::Which::Single(data)) => {\n\t\t\t\t\tlet data = data?;\n\t\t\t\t\tOk(crate::schema::Body::Single(crate::schema::Part::read_from(&data)?))\n\t\t\t\t},\n\t\t\t\tOk(crate::schema_mail_capnp::body::Which::Level(data)) => {\n\t\t\t\t\tlet data = data?;\n\t\t\t\t\tOk(crate::schema::Body::Level(crate::schema::Level::read_from(&data)?))\n\t\t\t\t},\n\t\t\t\tOk(crate::schema_mail_capnp::body::Which::PlainText(data)) => Ok(crate::schema::Body::PlainText(data?.to_string())),\n\t\t\t\tErr(::capnp::NotInSchema(i)) => {\n\t\t\t\t\tErr(::capnp::NotInSchema(i))?\n\t\t\t\t}\n\t\t\t}\n\t\t}\n\t}\n\t\n",
        "\timpl crate::serde::WriteTo<crate::schema_mail_capnp::body::Builder<'_>> for crate::schema::Body {\n\t\tfn write_to(&self, dst: &mut crate::schema_mail_capnp::body::Builder<'_>) {\n\t\t\tmatch &self {\n\t\t\t\tcrate::schema::Body::Parts(data) =>\n\t\t\t\t{\n\t\t\t\t\tlet mut items = dst.reborrow().init_parts(data.len() as u32);\n\t\t\t\t\tlet mut i = 0;\n\t\t\t\t\tfor src in data {\n\t\t\t\t\t\tsrc.write_to(&mut items.reborrow().get(i));\n\t\t\t\t\t\ti = i + 1;\n\t\t\t\t\t};\n\t\t\t\t}\n\t\t\t\t,\n\t\t\t\tcrate::schema::Body::Single(data) => {\n\t\t\t\t\tdata.write_to(&mut dst.reborrow().init_single());\n\t\t\t\t},\n\t\t\t\tcrate::schema::Body::Level(data) => {\n\t\t\t\t\tdst.reborrow().set_level(data.convert())\n\t\t\t\t},\n\t\t\t\tcrate::schema::Body::PlainText(data) => dst.reborrow().set_plain_text(data.as_str())\n\t\t\t}\n\t\t}\n\t}\n\t\n",
        "\timpl crate::serde::ReadFrom<crate::schema_mail_capnp::part::Reader<'_>> for crate::schema::Part {\n\t\tfn read_from(src: &crate::schema_mail_capnp::part::Reader<'_>) -> Result<crate::schema::Part, Error> {\n\t\t\treturn Ok(crate::schema::Part::new(\n\t\t\t\tsrc.get_size()\n\t\t\t))\n\t\t}\n\t}\n\t\n",
        "\timpl crate::serde::WriteTo<crate::schema_mail_capnp::part::Builder<'_>> for crate::schema::Part {\n\t\tfn write_to(&self, dst: &mut crate::schema_mail_capnp::part::Builder<'_>) {\n\t\t\tdst.set_size(self.size());\n\t\t}\n\t}\n\t\n",
        "\timpl crate::serde::ReadFrom<crate::schema_mail_capnp::Level> for crate::schema::Level {\n\t\tfn read_from(src: &crate::schema_mail_capnp::Level) -> Result<crate::schema::Level, Error> {\n\t\t\tmatch src {\n\t\t\t\tcrate::schema_mail_capnp::Level::Low => Ok(crate::schema::Level::Low),\n\t\t\t\tcrate::schema_mail_capnp::Level::High => Ok(crate::schema::Level::High)\n\t\t\t}\n\t\t}\n\t}\n\t\n",
        "\timpl crate::serde::ConvertTo<crate::schema_mail_capnp::Level> for crate::schema::Level {\n\t\tfn convert(&self) -> crate::schema_mail_capnp::Level {\n\t\t\tmatch &self {\n\t\t\t\tcrate::schema::Level::Low => crate::schema_mail_capnp::Level::Low,\n\t\t\t\tcrate::schema::Level::High => crate::schema_mail_capnp::Level::High\n\t\t\t}\n\t\t}\n\t}\n}",
    ]
    .concat();
    let expected = format!("{}{}{}{}", header(), modules, conversions_start(), conversions);
    assert_eq!(code_gen(&cgr), Ok(expected));
}
