use capnpc_idiomatic_rust::rust::ast::FullyQualifiedName;
use capnpc_idiomatic_rust::rust::ast::Name;
use capnpc_idiomatic_rust::rust::code::ToCode;
use capnpc_idiomatic_rust::rust::name::camel_text;
use capnpc_idiomatic_rust::rust::name::cut_at;
use capnpc_idiomatic_rust::rust::name::mark_word_starts;
use capnpc_idiomatic_rust::rust::name::snake_text;

const RESERVED: &[&str] = &["box", "move", "type"];

fn name(raw: &str) -> Name {
    Name::from(&raw.to_string())
}

fn tokens(raw: &str) -> Vec<String> {
    name(raw).tokens
}

#[test]
fn splits_at_lower_to_upper_boundaries() {
    assert_eq!(tokens("fooBarBaz"), vec!["foo", "Bar", "Baz"]);
    assert_eq!(tokens("foo"), vec!["foo"]);
    assert_eq!(tokens("FOO"), vec!["FOO"]);
    assert_eq!(tokens("HTTPServer"), vec!["HTTPServer"]);
    assert_eq!(tokens("aB"), vec!["a", "B"]);
    assert_eq!(tokens("x1Y"), vec!["x1Y"]);
}

#[test]
fn empty_input_has_no_tokens() {
    assert_eq!(tokens(""), Vec::<String>::new());
    assert_eq!(name("").to_snake_case(RESERVED), "");
    assert_eq!(name("").to_camel_case(RESERVED), "");
}

#[test]
fn disallowed_characters_are_replaced_before_splitting() {
    assert_eq!(tokens("a/b"), vec!["a_b"]);
    assert_eq!(tokens("c++"), vec!["c_plus_plus"]);
    assert_eq!(tokens("dir/fileName+x"), vec!["dir_file", "Name_plusx"]);
}

#[test]
fn renders_snake_case_and_camel_case() {
    let n = name("seaOtterCount");
    assert_eq!(n.to_snake_case(RESERVED), "sea_otter_count");
    assert_eq!(n.to_camel_case(RESERVED), "SeaOtterCount");
    assert_eq!(name("URL").to_snake_case(RESERVED), "url");
    assert_eq!(name("URL").to_camel_case(RESERVED), "Url");
}

#[test]
fn rendering_is_stable_across_repeated_calls() {
    let raw = "someFieldName";
    let first = (name(raw).to_snake_case(RESERVED), name(raw).to_camel_case(RESERVED));
    for _ in 0..3 {
        assert_eq!(name(raw).to_snake_case(RESERVED), first.0);
        assert_eq!(name(raw).to_camel_case(RESERVED), first.1);
    }
    assert_eq!(first.0, "some_field_name");
    assert_eq!(first.1, "SomeFieldName");
}

#[test]
fn reserved_word_gets_trailing_underscore() {
    let n = name("type");
    assert_eq!(n.to_snake_case(RESERVED), "type_");
    assert_eq!(n.to_camel_case(RESERVED), "Type");
    assert_eq!(name("box").to_snake_case(RESERVED), "box_");
    assert_eq!(name("move").to_snake_case(RESERVED), "move_");
    assert_eq!(name("mover").to_snake_case(RESERVED), "mover");
    assert_eq!(snake_text(&name("Type")), "type_");
    assert_eq!(camel_text(&name("type")), "Type");
}

#[test]
fn check_reserved_looks_at_the_whole_text() {
    assert_eq!(Name::check_reserved("move".to_string(), RESERVED), "move_");
    assert_eq!(Name::check_reserved("moved".to_string(), RESERVED), "moved");
    assert_eq!(Name::check_reserved("type".to_string(), &[]), "type");
    assert_eq!(Name::check_reserved("".to_string(), &[""]), "_");
}

#[test]
fn with_prepended_puts_the_token_in_front() {
    let n = name("fooBar").with_prepended("get");
    assert_eq!(n.tokens, vec!["get", "foo", "Bar"]);
    assert_eq!(n.to_snake_case(RESERVED), "get_foo_bar");
    assert_eq!(name("").with_prepended("set").tokens, vec!["set"]);
}

#[test]
fn camel_case_handles_tokens_that_do_not_start_with_an_ascii_letter() {
    assert_eq!(Name::new(vec!["".to_string(), "ab".to_string()]).to_camel_case(RESERVED), "Ab");
    assert_eq!(Name::new(vec!["\u{e9}cole".to_string()]).to_camel_case(RESERVED), "\u{c9}cole");
    assert_eq!(Name::new(vec!["1st".to_string()]).to_camel_case(RESERVED), "1st");
}

#[test]
fn path_is_extended_at_its_end() {
    let path = FullyQualifiedName::new(vec![name("outer")]);
    let longer = path.with(&name("innerType"));
    assert_eq!(longer.names, vec![name("outer"), name("innerType")]);
    assert_eq!(path.names.len(), 1);
}

#[test]
fn path_is_written_from_the_crate_root() {
    let path = FullyQualifiedName::new(vec![name("someModule"), name("type"), name("myType")]);
    assert!(path.is_renderable());
    assert_eq!(path.to_code(), "crate::some_module::type_::MyType");
    let single = FullyQualifiedName::new(vec![name("type")]);
    assert_eq!(single.to_code(), "crate::Type");
    assert!(!FullyQualifiedName::new(vec![]).is_renderable());
}

#[test]
fn words_start_at_upper_case_behind_lower_case() {
    assert_eq!(mark_word_starts(""), Vec::<bool>::new());
    assert_eq!(mark_word_starts("a"), vec![false]);
    assert_eq!(mark_word_starts("A"), vec![false]);
    assert_eq!(mark_word_starts("aBcDE"), vec![false, true, false, true, false]);
    assert_eq!(mark_word_starts("a_B"), vec![false, false, false]);
}

#[test]
fn text_is_cut_before_every_marked_position() {
    assert_eq!(cut_at("", &vec![]), Vec::<String>::new());
    assert_eq!(cut_at("abcd", &vec![false, true, false, true]), vec!["a", "bc", "d"]);
    assert_eq!(cut_at("abcd", &vec![true, false, false, false]), vec!["abcd"]);
    assert_eq!(cut_at("abc", &vec![true, true, true]), vec!["a", "b", "c"]);
    assert_eq!(cut_at("\u{e9}t\u{e9}", &vec![false, false, true]), vec!["\u{e9}t", "\u{e9}"]);
}

#[test]
fn tokens_make_up_the_identifier() {
    for raw in ["fooBarBaz", "a/bC+d", "", "X", "already_snake", "mixedUP_Case9"] {
        let tokens = tokens(raw);
        assert_eq!(tokens.concat(), raw.replace("/", "_").replace("+", "_plus"));
        assert!(tokens.iter().all(|t| !t.is_empty()));
    }
}
