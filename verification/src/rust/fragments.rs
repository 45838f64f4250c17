//! The pieces of text that the conversions are made of. Each piece is a fixed
//! text with named gaps; the function that writes a piece fills the gaps with
//! its arguments.

use vstd::prelude::*;
use vstd::string::*;

verus! {

/// The arm that reads one value of a schema enum.
pub open spec fn plain_read_case(
    schema: Seq<char>,
    name: Seq<char>,
    idiomatic: Seq<char>,
) -> Seq<char> {
    schema
        + "::"@
        + name
        + " => Ok("@
        + idiomatic
        + "::"@
        + name
        + ")"@
}

/// Writes [`plain_read_case`].
pub fn write_plain_read_case(schema: &str, name: &str, idiomatic: &str) -> (r: String)
    ensures
        r@ == plain_read_case(schema@, name@, idiomatic@),
{
    let mut r = String::from_str(schema);
    r.append("::");
    r.append(name);
    r.append(" => Ok(");
    r.append(idiomatic);
    r.append("::");
    r.append(name);
    r.append(")");
    r
}

/// The arm that reads a union member without a value.
pub open spec fn unit_read_case(
    which: Seq<char>,
    name: Seq<char>,
    idiomatic: Seq<char>,
) -> Seq<char> {
    "Ok("@
        + which
        + "::"@
        + name
        + "(())) => Ok("@
        + idiomatic
        + "::"@
        + name
        + ")"@
}

/// Writes [`unit_read_case`].
pub fn write_unit_read_case(which: &str, name: &str, idiomatic: &str) -> (r: String)
    ensures
        r@ == unit_read_case(which@, name@, idiomatic@),
{
    let mut r = String::from_str("Ok(");
    r.append(which);
    r.append("::");
    r.append(name);
    r.append("(())) => Ok(");
    r.append(idiomatic);
    r.append("::");
    r.append(name);
    r.append(")");
    r
}

/// The arm that reads a union member holding a list: every element is read in turn
/// and pushed onto an owned vector.
pub open spec fn list_read_case(
    which: Seq<char>,
    name: Seq<char>,
    idiomatic: Seq<char>,
    element: Seq<char>,
) -> Seq<char> {
    "Ok("@
        + which
        + "::"@
        + name
        + "(data)) => {\n\tlet mut parsed_data : Vec<"@
        + element
        + "> = vec!();\n\tfor item in data?.iter() {\n\t\tlet translated = "@
        + element
        + "::read_from(&item?)?;\n\t\tparsed_data.push(translated);\n\t}\n\tOk("@
        + idiomatic
        + "::"@
        + name
        + "(parsed_data))\n}"@
}

/// Writes [`list_read_case`].
pub fn write_list_read_case(which: &str, name: &str, idiomatic: &str, element: &str) -> (r: String)
    ensures
        r@ == list_read_case(which@, name@, idiomatic@, element@),
{
    let mut r = String::from_str("Ok(");
    r.append(which);
    r.append("::");
    r.append(name);
    r.append("(data)) => {\n\tlet mut parsed_data : Vec<");
    r.append(element);
    r.append("> = vec!();\n\tfor item in data?.iter() {\n\t\tlet translated = ");
    r.append(element);
    r.append("::read_from(&item?)?;\n\t\tparsed_data.push(translated);\n\t}\n\tOk(");
    r.append(idiomatic);
    r.append("::");
    r.append(name);
    r.append("(parsed_data))\n}");
    r
}

/// The arm that reads a union member holding text, which is copied.
pub open spec fn text_read_case(
    which: Seq<char>,
    name: Seq<char>,
    idiomatic: Seq<char>,
) -> Seq<char> {
    "Ok("@
        + which
        + "::"@
        + name
        + "(data)) => Ok("@
        + idiomatic
        + "::"@
        + name
        + "(data?.to_string()))"@
}

/// Writes [`text_read_case`].
pub fn write_text_read_case(which: &str, name: &str, idiomatic: &str) -> (r: String)
    ensures
        r@ == text_read_case(which@, name@, idiomatic@),
{
    let mut r = String::from_str("Ok(");
    r.append(which);
    r.append("::");
    r.append(name);
    r.append("(data)) => Ok(");
    r.append(idiomatic);
    r.append("::");
    r.append(name);
    r.append("(data?.to_string()))");
    r
}

/// The arm that reads a union member holding a declared type, through that
/// type's own conversion.
pub open spec fn ref_read_case(
    which: Seq<char>,
    name: Seq<char>,
    idiomatic: Seq<char>,
    payload: Seq<char>,
) -> Seq<char> {
    "Ok("@
        + which
        + "::"@
        + name
        + "(data)) => {\n\tlet data = data?;\n\tOk("@
        + idiomatic
        + "::"@
        + name
        + "("@
        + payload
        + "::read_from(&data)?))\n}"@
}

/// Writes [`ref_read_case`].
pub fn write_ref_read_case(which: &str, name: &str, idiomatic: &str, payload: &str) -> (r: String)
    ensures
        r@ == ref_read_case(which@, name@, idiomatic@, payload@),
{
    let mut r = String::from_str("Ok(");
    r.append(which);
    r.append("::");
    r.append(name);
    r.append("(data)) => {\n\tlet data = data?;\n\tOk(");
    r.append(idiomatic);
    r.append("::");
    r.append(name);
    r.append("(");
    r.append(payload);
    r.append("::read_from(&data)?))\n}");
    r
}

/// The function that reads a schema enum: a match on its value. `cases` holds the
/// arms, three tabs in.
pub open spec fn enum_reader(source: Seq<char>, target: Seq<char>, cases: Seq<char>) -> Seq<char> {
    "\tfn read_from(src: &"@
        + source
        + ") -> Result<"@
        + target
        + ", Error> {\n\t\tmatch src {\n\t\t\t"@
        + cases
        + "\n\t\t}\n\t}"@
}

/// Writes [`enum_reader`].
pub fn write_enum_reader(source: &str, target: &str, cases: &str) -> (r: String)
    ensures
        r@ == enum_reader(source@, target@, cases@),
{
    let mut r = String::from_str("\tfn read_from(src: &");
    r.append(source);
    r.append(") -> Result<");
    r.append(target);
    r.append(", Error> {\n\t\tmatch src {\n\t\t\t");
    r.append(cases);
    r.append("\n\t\t}\n\t}");
    r
}

/// The function that reads a union: a match on its discriminant, which hands a
/// discriminant that the schema does not know back as an error. `cases` holds
/// the arms, three tabs in.
pub open spec fn union_reader(source: Seq<char>, target: Seq<char>, cases: Seq<char>) -> Seq<char> {
    "\tfn read_from(src: &"@
        + source
        + ") -> Result<"@
        + target
        + ", Error> {\n\t\tmatch src.which() {\n\t\t\t"@
        + cases
        + ",\n\t\t\tErr(::capnp::NotInSchema(i)) => {\n\t\t\t\tErr(::capnp::NotInSchema(i))?\n\t\t\t}\n\t\t}\n\t}"@
}

/// Writes [`union_reader`].
pub fn write_union_reader(source: &str, target: &str, cases: &str) -> (r: String)
    ensures
        r@ == union_reader(source@, target@, cases@),
{
    let mut r = String::from_str("\tfn read_from(src: &");
    r.append(source);
    r.append(") -> Result<");
    r.append(target);
    r.append(", Error> {\n\t\tmatch src.which() {\n\t\t\t");
    r.append(cases);
    r.append(",\n\t\t\tErr(::capnp::NotInSchema(i)) => {\n\t\t\t\tErr(::capnp::NotInSchema(i))?\n\t\t\t}\n\t\t}\n\t}");
    r
}

/// The function that reads a struct: one expression for each field, handed to the
/// constructor. `fields` holds the expressions, three tabs in.
pub open spec fn struct_reader(
    source: Seq<char>,
    target: Seq<char>,
    fields: Seq<char>,
) -> Seq<char> {
    "\tfn read_from(src: &"@
        + source
        + ") -> Result<"@
        + target
        + ", Error> {\n\t\treturn Ok("@
        + target
        + "::new(\n\t\t\t"@
        + fields
        + "\n\t\t))\n\t}"@
}

/// Writes [`struct_reader`].
pub fn write_struct_reader(source: &str, target: &str, fields: &str) -> (r: String)
    ensures
        r@ == struct_reader(source@, target@, fields@),
{
    let mut r = String::from_str("\tfn read_from(src: &");
    r.append(source);
    r.append(") -> Result<");
    r.append(target);
    r.append(", Error> {\n\t\treturn Ok(");
    r.append(target);
    r.append("::new(\n\t\t\t");
    r.append(fields);
    r.append("\n\t\t))\n\t}");
    r
}

/// The expression that reads a field holding a list. `item` is how an element of
/// the schema's list is handed to the element's conversion.
pub open spec fn list_field_reader(
    element: Seq<char>,
    field: Seq<char>,
    item: Seq<char>,
) -> Seq<char> {
    "{\n\tlet mut items : Vec<"@
        + element
        + "> = vec!();\n\tfor i in src.get_"@
        + field
        + "()?.iter() {\n\t\titems.push("@
        + element
        + "::read_from("@
        + item
        + ")?);\n\t};\n\titems\n}"@
}

/// Writes [`list_field_reader`].
pub fn write_list_field_reader(element: &str, field: &str, item: &str) -> (r: String)
    ensures
        r@ == list_field_reader(element@, field@, item@),
{
    let mut r = String::from_str("{\n\tlet mut items : Vec<");
    r.append(element);
    r.append("> = vec!();\n\tfor i in src.get_");
    r.append(field);
    r.append("()?.iter() {\n\t\titems.push(");
    r.append(element);
    r.append("::read_from(");
    r.append(item);
    r.append(")?);\n\t};\n\titems\n}");
    r
}

/// The expression that reads a field holding text.
pub open spec fn text_field_reader(field: Seq<char>) -> Seq<char> {
    "src.get_"@
        + field
        + "()?.to_string()"@
}

/// Writes [`text_field_reader`].
pub fn write_text_field_reader(field: &str) -> (r: String)
    ensures
        r@ == text_field_reader(field@),
{
    let mut r = String::from_str("src.get_");
    r.append(field);
    r.append("()?.to_string()");
    r
}

/// The expression that reads the union of a struct, from the struct's own reader.
pub open spec fn union_field_reader(payload: Seq<char>) -> Seq<char> {
    payload
        + "::read_from(&src)?"@
}

/// Writes [`union_field_reader`].
pub fn write_union_field_reader(payload: &str) -> (r: String)
    ensures
        r@ == union_field_reader(payload@),
{
    let mut r = String::from_str(payload);
    r.append("::read_from(&src)?");
    r
}

/// The expression that reads a field holding a declared type.
pub open spec fn ref_field_reader(payload: Seq<char>, getter: Seq<char>) -> Seq<char> {
    payload
        + "::read_from(&src."@
        + getter
        + "()?)?"@
}

/// Writes [`ref_field_reader`].
pub fn write_ref_field_reader(payload: &str, getter: &str) -> (r: String)
    ensures
        r@ == ref_field_reader(payload@, getter@),
{
    let mut r = String::from_str(payload);
    r.append("::read_from(&src.");
    r.append(getter);
    r.append("()?)?");
    r
}

/// The expression that reads a field whose value is copied.
pub open spec fn plain_field_reader(field: Seq<char>) -> Seq<char> {
    "src.get_"@
        + field
        + "()"@
}

/// Writes [`plain_field_reader`].
pub fn write_plain_field_reader(field: &str) -> (r: String)
    ensures
        r@ == plain_field_reader(field@),
{
    let mut r = String::from_str("src.get_");
    r.append(field);
    r.append("()");
    r
}

/// The block that writes a list of schema enums: each element is converted by
/// value.
pub open spec fn enum_list_writer(
    init: Seq<char>,
    list: Seq<char>,
    element: Seq<char>,
) -> Seq<char> {
    "{\n\tlet mut dst_items = dst.reborrow()."@
        + init
        + "("@
        + list
        + ".len() as u32);\n\tlet mut i = 0;\n\tfor datum in "@
        + list
        + " {\n\t\tlet converted_datum = "@
        + element
        + "::convert(&datum);\n\t\tdst_items.set(i, converted_datum);\n\t\ti = i + 1;\n\t}\n}"@
}

/// Writes [`enum_list_writer`].
pub fn write_enum_list_writer(init: &str, list: &str, element: &str) -> (r: String)
    ensures
        r@ == enum_list_writer(init@, list@, element@),
{
    let mut r = String::from_str("{\n\tlet mut dst_items = dst.reborrow().");
    r.append(init);
    r.append("(");
    r.append(list);
    r.append(".len() as u32);\n\tlet mut i = 0;\n\tfor datum in ");
    r.append(list);
    r.append(" {\n\t\tlet converted_datum = ");
    r.append(element);
    r.append("::convert(&datum);\n\t\tdst_items.set(i, converted_datum);\n\t\ti = i + 1;\n\t}\n}");
    r
}

/// The block that writes a list of declared types: each element writes itself.
pub open spec fn ref_list_writer(init: Seq<char>, list: Seq<char>) -> Seq<char> {
    "{\n\tlet mut items = dst.reborrow()."@
        + init
        + "("@
        + list
        + ".len() as u32);\n\tlet mut i = 0;\n\tfor src in "@
        + list
        + " {\n\t\tsrc.write_to(&mut items.reborrow().get(i));\n\t\ti = i + 1;\n\t};\n}"@
}

/// Writes [`ref_list_writer`].
pub fn write_ref_list_writer(init: &str, list: &str) -> (r: String)
    ensures
        r@ == ref_list_writer(init@, list@),
{
    let mut r = String::from_str("{\n\tlet mut items = dst.reborrow().");
    r.append(init);
    r.append("(");
    r.append(list);
    r.append(".len() as u32);\n\tlet mut i = 0;\n\tfor src in ");
    r.append(list);
    r.append(" {\n\t\tsrc.write_to(&mut items.reborrow().get(i));\n\t\ti = i + 1;\n\t};\n}");
    r
}

/// The block that writes a list whose elements are set as they are.
pub open spec fn plain_list_writer(init: Seq<char>, list: Seq<char>) -> Seq<char> {
    "{\n\tlet mut dst_items = dst.reborrow()."@
        + init
        + "("@
        + list
        + ".len() as u32);\n\tlet mut i = 0;\n\tfor datum in "@
        + list
        + " {\n\t\tdst_items.set(i, datum);\n\t\ti = i + 1;\n\t}\n}"@
}

/// Writes [`plain_list_writer`].
pub fn write_plain_list_writer(init: &str, list: &str) -> (r: String)
    ensures
        r@ == plain_list_writer(init@, list@),
{
    let mut r = String::from_str("{\n\tlet mut dst_items = dst.reborrow().");
    r.append(init);
    r.append("(");
    r.append(list);
    r.append(".len() as u32);\n\tlet mut i = 0;\n\tfor datum in ");
    r.append(list);
    r.append(" {\n\t\tdst_items.set(i, datum);\n\t\ti = i + 1;\n\t}\n}");
    r
}

/// The arm that converts one value of a schema enum.
pub open spec fn convert_case(
    idiomatic: Seq<char>,
    name: Seq<char>,
    schema: Seq<char>,
) -> Seq<char> {
    idiomatic
        + "::"@
        + name
        + " => "@
        + schema
        + "::"@
        + name
}

/// Writes [`convert_case`].
pub fn write_convert_case(idiomatic: &str, name: &str, schema: &str) -> (r: String)
    ensures
        r@ == convert_case(idiomatic@, name@, schema@),
{
    let mut r = String::from_str(idiomatic);
    r.append("::");
    r.append(name);
    r.append(" => ");
    r.append(schema);
    r.append("::");
    r.append(name);
    r
}

/// The arm that writes a union member without a value.
pub open spec fn unit_write_case(
    idiomatic: Seq<char>,
    name: Seq<char>,
    setter: Seq<char>,
) -> Seq<char> {
    idiomatic
        + "::"@
        + name
        + " => dst.reborrow()."@
        + setter
        + "(())"@
}

/// Writes [`unit_write_case`].
pub fn write_unit_write_case(idiomatic: &str, name: &str, setter: &str) -> (r: String)
    ensures
        r@ == unit_write_case(idiomatic@, name@, setter@),
{
    let mut r = String::from_str(idiomatic);
    r.append("::");
    r.append(name);
    r.append(" => dst.reborrow().");
    r.append(setter);
    r.append("(())");
    r
}

/// The arm that writes a union member holding a list. `block` writes the list.
pub open spec fn list_write_case(
    idiomatic: Seq<char>,
    name: Seq<char>,
    block: Seq<char>,
) -> Seq<char> {
    idiomatic
        + "::"@
        + name
        + "(data) =>\n"@
        + block
        + "\n"@
}

/// Writes [`list_write_case`].
pub fn write_list_write_case(idiomatic: &str, name: &str, block: &str) -> (r: String)
    ensures
        r@ == list_write_case(idiomatic@, name@, block@),
{
    let mut r = String::from_str(idiomatic);
    r.append("::");
    r.append(name);
    r.append("(data) =>\n");
    r.append(block);
    r.append("\n");
    r
}

/// The arm that writes a union member holding text.
pub open spec fn text_write_case(
    idiomatic: Seq<char>,
    name: Seq<char>,
    setter: Seq<char>,
) -> Seq<char> {
    idiomatic
        + "::"@
        + name
        + "(data) => dst.reborrow()."@
        + setter
        + "(data.as_str())"@
}

/// Writes [`text_write_case`].
pub fn write_text_write_case(idiomatic: &str, name: &str, setter: &str) -> (r: String)
    ensures
        r@ == text_write_case(idiomatic@, name@, setter@),
{
    let mut r = String::from_str(idiomatic);
    r.append("::");
    r.append(name);
    r.append("(data) => dst.reborrow().");
    r.append(setter);
    r.append("(data.as_str())");
    r
}

/// The arm that writes a union member holding a schema enum, converted by value.
pub open spec fn enum_write_case(
    idiomatic: Seq<char>,
    name: Seq<char>,
    setter: Seq<char>,
) -> Seq<char> {
    idiomatic
        + "::"@
        + name
        + "(data) => {\n\tdst.reborrow()."@
        + setter
        + "(data.convert())\n}"@
}

/// Writes [`enum_write_case`].
pub fn write_enum_write_case(idiomatic: &str, name: &str, setter: &str) -> (r: String)
    ensures
        r@ == enum_write_case(idiomatic@, name@, setter@),
{
    let mut r = String::from_str(idiomatic);
    r.append("::");
    r.append(name);
    r.append("(data) => {\n\tdst.reborrow().");
    r.append(setter);
    r.append("(data.convert())\n}");
    r
}

/// The arm that writes a union member holding a declared type, which writes
/// itself into the member's builder.
pub open spec fn ref_write_case(
    idiomatic: Seq<char>,
    name: Seq<char>,
    init: Seq<char>,
) -> Seq<char> {
    idiomatic
        + "::"@
        + name
        + "(data) => {\n\tdata.write_to(&mut dst.reborrow()."@
        + init
        + "());\n}"@
}

/// Writes [`ref_write_case`].
pub fn write_ref_write_case(idiomatic: &str, name: &str, init: &str) -> (r: String)
    ensures
        r@ == ref_write_case(idiomatic@, name@, init@),
{
    let mut r = String::from_str(idiomatic);
    r.append("::");
    r.append(name);
    r.append("(data) => {\n\tdata.write_to(&mut dst.reborrow().");
    r.append(init);
    r.append("());\n}");
    r
}

/// The function that converts a schema enum by value. `cases` holds the arms,
/// three tabs in.
pub open spec fn enum_converter(target: Seq<char>, cases: Seq<char>) -> Seq<char> {
    "\tfn convert(&self) -> "@
        + target
        + " {\n\t\tmatch &self {\n\t\t\t"@
        + cases
        + "\n\t\t}\n\t}"@
}

/// Writes [`enum_converter`].
pub fn write_enum_converter(target: &str, cases: &str) -> (r: String)
    ensures
        r@ == enum_converter(target@, cases@),
{
    let mut r = String::from_str("\tfn convert(&self) -> ");
    r.append(target);
    r.append(" {\n\t\tmatch &self {\n\t\t\t");
    r.append(cases);
    r.append("\n\t\t}\n\t}");
    r
}

/// The function that writes a union: a match on the value. `cases` holds the
/// arms, three tabs in.
pub open spec fn union_writer(target: Seq<char>, cases: Seq<char>) -> Seq<char> {
    "\tfn write_to(&self, dst: &mut "@
        + target
        + ") {\n\t\tmatch &self {\n\t\t\t"@
        + cases
        + "\n\t\t}\n\t}"@
}

/// Writes [`union_writer`].
pub fn write_union_writer(target: &str, cases: &str) -> (r: String)
    ensures
        r@ == union_writer(target@, cases@),
{
    let mut r = String::from_str("\tfn write_to(&self, dst: &mut ");
    r.append(target);
    r.append(") {\n\t\tmatch &self {\n\t\t\t");
    r.append(cases);
    r.append("\n\t\t}\n\t}");
    r
}

/// The function that writes a struct: one statement for each field. `fields`
/// holds the statements, two tabs in.
pub open spec fn struct_writer(target: Seq<char>, fields: Seq<char>) -> Seq<char> {
    "\tfn write_to(&self, dst: &mut "@
        + target
        + ") {\n\t\t"@
        + fields
        + "\n\t}"@
}

/// Writes [`struct_writer`].
pub fn write_struct_writer(target: &str, fields: &str) -> (r: String)
    ensures
        r@ == struct_writer(target@, fields@),
{
    let mut r = String::from_str("\tfn write_to(&self, dst: &mut ");
    r.append(target);
    r.append(") {\n\t\t");
    r.append(fields);
    r.append("\n\t}");
    r
}

/// The statement that writes the union of a struct, into the struct's own builder.
pub open spec fn union_field_writer(field: Seq<char>) -> Seq<char> {
    "self."@
        + field
        + "().write_to(&mut dst.reborrow());"@
}

/// Writes [`union_field_writer`].
pub fn write_union_field_writer(field: &str) -> (r: String)
    ensures
        r@ == union_field_writer(field@),
{
    let mut r = String::from_str("self.");
    r.append(field);
    r.append("().write_to(&mut dst.reborrow());");
    r
}

/// The statement that writes a field holding a schema enum, converted by value.
pub open spec fn enum_field_writer(setter: Seq<char>, field: Seq<char>) -> Seq<char> {
    "dst.reborrow()."@
        + setter
        + "(self."@
        + field
        + "().convert());"@
}

/// Writes [`enum_field_writer`].
pub fn write_enum_field_writer(setter: &str, field: &str) -> (r: String)
    ensures
        r@ == enum_field_writer(setter@, field@),
{
    let mut r = String::from_str("dst.reborrow().");
    r.append(setter);
    r.append("(self.");
    r.append(field);
    r.append("().convert());");
    r
}

/// The statement that writes a field holding a declared type, which writes itself
/// into the field's builder.
pub open spec fn ref_field_writer(field: Seq<char>, init: Seq<char>) -> Seq<char> {
    "self."@
        + field
        + "().write_to(&mut dst.reborrow()."@
        + init
        + "());"@
}

/// Writes [`ref_field_writer`].
pub fn write_ref_field_writer(field: &str, init: &str) -> (r: String)
    ensures
        r@ == ref_field_writer(field@, init@),
{
    let mut r = String::from_str("self.");
    r.append(field);
    r.append("().write_to(&mut dst.reborrow().");
    r.append(init);
    r.append("());");
    r
}

/// The statement that writes a field whose value is set as it is.
pub open spec fn plain_field_writer(field: Seq<char>) -> Seq<char> {
    "dst.set_"@
        + field
        + "(self."@
        + field
        + "());"@
}

/// Writes [`plain_field_writer`].
pub fn write_plain_field_writer(field: &str) -> (r: String)
    ensures
        r@ == plain_field_writer(field@),
{
    let mut r = String::from_str("dst.set_");
    r.append(field);
    r.append("(self.");
    r.append(field);
    r.append("());");
    r
}

/// The list that a field's accessor hands out.
pub open spec fn field_list(field: Seq<char>) -> Seq<char> {
    "self."@
        + field
        + "()"@
}

/// Writes [`field_list`].
pub fn write_field_list(field: &str) -> (r: String)
    ensures
        r@ == field_list(field@),
{
    let mut r = String::from_str("self.");
    r.append(field);
    r.append("()");
    r
}

/// The name of the method that starts a field's list in the builder.
pub open spec fn field_list_init(field: Seq<char>) -> Seq<char> {
    "init_"@
        + field
}

/// Writes [`field_list_init`].
pub fn write_field_list_init(field: &str) -> (r: String)
    ensures
        r@ == field_list_init(field@),
{
    let mut r = String::from_str("init_");
    r.append(field);
    r
}

/// The implementation of the reading conversion around the function `body`.
pub open spec fn read_impl(schema: Seq<char>, idiomatic: Seq<char>, body: Seq<char>) -> Seq<char> {
    "impl crate::serde::ReadFrom<"@
        + schema
        + "> for "@
        + idiomatic
        + " {\n"@
        + body
        + "\n}"@
}

/// Writes [`read_impl`].
pub fn write_read_impl(schema: &str, idiomatic: &str, body: &str) -> (r: String)
    ensures
        r@ == read_impl(schema@, idiomatic@, body@),
{
    let mut r = String::from_str("impl crate::serde::ReadFrom<");
    r.append(schema);
    r.append("> for ");
    r.append(idiomatic);
    r.append(" {\n");
    r.append(body);
    r.append("\n}");
    r
}

/// The implementation of the conversion by value around the function `body`.
pub open spec fn convert_impl(
    schema: Seq<char>,
    idiomatic: Seq<char>,
    body: Seq<char>,
) -> Seq<char> {
    "impl crate::serde::ConvertTo<"@
        + schema
        + "> for "@
        + idiomatic
        + " {\n"@
        + body
        + "\n}"@
}

/// Writes [`convert_impl`].
pub fn write_convert_impl(schema: &str, idiomatic: &str, body: &str) -> (r: String)
    ensures
        r@ == convert_impl(schema@, idiomatic@, body@),
{
    let mut r = String::from_str("impl crate::serde::ConvertTo<");
    r.append(schema);
    r.append("> for ");
    r.append(idiomatic);
    r.append(" {\n");
    r.append(body);
    r.append("\n}");
    r
}

/// The implementation of the writing conversion around the function `body`.
pub open spec fn write_impl(schema: Seq<char>, idiomatic: Seq<char>, body: Seq<char>) -> Seq<char> {
    "impl crate::serde::WriteTo<"@
        + schema
        + "> for "@
        + idiomatic
        + " {\n"@
        + body
        + "\n}"@
}

/// Writes [`write_impl`].
pub fn write_write_impl(schema: &str, idiomatic: &str, body: &str) -> (r: String)
    ensures
        r@ == write_impl(schema@, idiomatic@, body@),
{
    let mut r = String::from_str("impl crate::serde::WriteTo<");
    r.append(schema);
    r.append("> for ");
    r.append(idiomatic);
    r.append(" {\n");
    r.append(body);
    r.append("\n}");
    r
}

} // verus!
