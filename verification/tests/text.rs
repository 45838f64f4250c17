use capnpc_idiomatic_rust::text::join_strings;
use capnpc_idiomatic_rust::text::replace_char_in;
use capnpc_idiomatic_rust::text::take_bytes;

fn strings(v: &[&str]) -> Vec<String> {
    v.iter().map(|s| s.to_string()).collect()
}

#[test]
fn join_puts_the_separator_between_neighbours() {
    assert_eq!(join_strings(&strings(&[]), ", "), "");
    assert_eq!(join_strings(&strings(&["a"]), ", "), "a");
    assert_eq!(join_strings(&strings(&["a", "b", "c"]), ", "), "a, b, c");
    assert_eq!(join_strings(&strings(&["", ""]), "-"), "-");
    assert_eq!(join_strings(&strings(&["a", "b"]), ""), "ab");
}

#[test]
fn join_agrees_with_the_standard_library() {
    let parts = strings(&["x", "", "yz", "\n"]);
    assert_eq!(join_strings(&parts, ",\n"), parts.join(",\n"));
}

#[test]
fn replace_char_replaces_every_occurrence() {
    assert_eq!(replace_char_in("a/b/c", '/', "_"), "a_b_c");
    assert_eq!(replace_char_in("c++", '+', "_plus"), "c_plus_plus");
    assert_eq!(replace_char_in("abc", 'x', "y"), "abc");
    assert_eq!(replace_char_in("", 'x', "y"), "");
    assert_eq!(replace_char_in("a\nb\n", '\n', "\n\t"), "a\n\tb\n\t");
    assert_eq!(replace_char_in("aaa", 'a', ""), "");
    assert_eq!(replace_char_in("aXa", 'X', "XX"), "aXXa");
}

#[test]
fn take_bytes_cuts_only_between_characters() {
    assert_eq!(take_bytes("schema/x", 6), Some("schema".to_string()));
    assert_eq!(take_bytes("abc", 0), Some("".to_string()));
    assert_eq!(take_bytes("abc", 3), Some("abc".to_string()));
    assert_eq!(take_bytes("abc", 4), None);
    assert_eq!(take_bytes("\u{e9}a", 1), None);
    assert_eq!(take_bytes("\u{e9}a", 2), Some("\u{e9}".to_string()));
}
