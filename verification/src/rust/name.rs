//! Names: how a raw identifier becomes word tokens, and how tokens are written
//! in snake case and in camel case.

use vstd::prelude::*;
use vstd::string::*;
use crate::rust::ast::FullyQualifiedName;
use crate::rust::ast::Name;
use crate::rust::ast::NameView;
use crate::rust::ast::path_view;
use crate::sequences::concatenated;
use crate::text::char_is_lower;
use crate::text::char_is_upper;
use crate::text::join;
use crate::text::join_strings;
use crate::text::lowercase;
use crate::text::replace_char;
use crate::text::replace_char_in;
use crate::text::texts;
use crate::text::uppercase;

verus! {

/// A raw identifier with the characters that no identifier may hold replaced.
pub open spec fn sanitized(raw: Seq<char>) -> Seq<char> {
    replace_char(replace_char(raw, '/', "_"@), '+', "_plus"@)
}

/// Whether a word starts at position `i` of `s`: there stands an upper-case
/// character behind a lower-case one.
pub open spec fn starts_word(s: Seq<char>, i: int) -> bool {
    0 < i < s.len() && char_is_lower(s[i - 1]) && char_is_upper(s[i])
}

/// For every position of `s`, whether a word starts there.
pub open spec fn word_starts(s: Seq<char>) -> Seq<bool> {
    Seq::new(s.len(), |i: int| starts_word(s, i))
}

/// `s` cut into pieces before every position that `starts` marks. The first
/// piece starts at the first character, marked or not; the empty text has no
/// pieces.
pub open spec fn cut(s: Seq<char>, starts: Seq<bool>) -> NameView
    recommends
        starts.len() == s.len(),
    decreases s.len(),
{
    if s.len() == 0 {
        Seq::empty()
    } else if s.len() == 1 {
        seq![s]
    } else {
        let before = cut(s.drop_last(), starts.drop_last());
        if starts.last() {
            before.push(seq![s.last()])
        } else {
            before.drop_last().push(before.last().push(s.last()))
        }
    }
}

/// The word tokens of `s`: a new token starts at every upper-case character
/// that follows a lower-case one. The empty text has no tokens.
pub open spec fn words(s: Seq<char>) -> NameView {
    cut(s, word_starts(s))
}

/// The name that a raw identifier stands for.
pub open spec fn normalized(raw: Seq<char>) -> NameView {
    words(sanitized(raw))
}

/// The texts of a list of reserved words.
pub open spec fn reserved_views(reserved: Seq<&str>) -> Seq<Seq<char>> {
    reserved.map_values(|k: &str| k@)
}

/// `s`, with an underscore at its end if it is one of the reserved words.
pub open spec fn escaped(s: Seq<char>, reserved: Seq<Seq<char>>) -> Seq<char> {
    if reserved.contains(s) {
        s + "_"@
    } else {
        s
    }
}

/// The tokens in lower case, with underscores between them.
pub open spec fn snake_case(name: NameView) -> Seq<char> {
    join(name.map_values(|t: Seq<char>| lowercase(t)), "_"@)
}

/// A token with its first character in upper case and the others in lower case.
pub open spec fn capitalized(t: Seq<char>) -> Seq<char> {
    if t.len() == 0 {
        t
    } else {
        uppercase(t.take(1)) + lowercase(t.skip(1))
    }
}

/// The capitalized tokens, one after another.
pub open spec fn camel_case(name: NameView) -> Seq<char> {
    join(name.map_values(|t: Seq<char>| capitalized(t)), Seq::empty())
}

/// The words that the generated program may not use as identifiers.
pub open spec fn reserved_words() -> Seq<Seq<char>> {
    seq!["box"@, "move"@, "type"@]
}

/// A name in snake case, as the generated program writes it.
pub open spec fn snake(name: NameView) -> Seq<char> {
    escaped(snake_case(name), reserved_words())
}

/// A name in camel case, as the generated program writes it.
pub open spec fn camel(name: NameView) -> Seq<char> {
    escaped(camel_case(name), reserved_words())
}

/// Cutting loses nothing and makes no empty piece: the pieces, one after
/// another, are the text, and a text that is not empty has a first piece.
pub proof fn law_pieces_make_up_the_text(s: Seq<char>, starts: Seq<bool>)
    requires
        starts.len() == s.len(),
    ensures
        concatenated(cut(s, starts)) == s,
        forall|i: int| 0 <= i < cut(s, starts).len() ==> (#[trigger] cut(s, starts)[i]).len() > 0,
        s.len() > 0 ==> cut(s, starts).len() > 0,
    decreases s.len(),
{
    reveal_with_fuel(concatenated, 2);
    if s.len() == 0 {
    } else if s.len() == 1 {
        assert(seq![s].drop_last() =~= Seq::<Seq<char>>::empty());
        assert(concatenated(seq![s]) =~= s);
    } else {
        let before = cut(s.drop_last(), starts.drop_last());
        law_pieces_make_up_the_text(s.drop_last(), starts.drop_last());
        let pieces = cut(s, starts);
        if starts.last() {
            assert(pieces.drop_last() =~= before);
            assert(concatenated(pieces) =~= s.drop_last() + seq![s.last()]);
            assert(s.drop_last() + seq![s.last()] =~= s);
        } else {
            let front = before.drop_last();
            assert(pieces.drop_last() =~= front);
            assert(pieces.last() == before.last().push(s.last()));
            assert(concatenated(before) == concatenated(front) + before.last());
            assert(concatenated(pieces) == concatenated(front) + before.last().push(s.last()));
            assert(concatenated(front) + before.last().push(s.last()) =~= (concatenated(front)
                + before.last()).push(s.last()));
            assert(s.drop_last().push(s.last()) =~= s);
            assert forall|i: int| 0 <= i < pieces.len() implies (#[trigger] pieces[i]).len()
                > 0 by {
                if i < pieces.len() - 1 {
                    assert(pieces[i] == before[i]);
                }
            }
        }
    }
}

/// The tokens of a name, one after another, are the identifier it stands for,
/// with the characters that no identifier may hold replaced.
pub proof fn law_tokens_make_up_the_identifier(raw: Seq<char>)
    ensures
        concatenated(normalized(raw)) == sanitized(raw),
        forall|i: int| 0 <= i < normalized(raw).len() ==> (#[trigger] normalized(raw)[i]).len() > 0,
{
    law_pieces_make_up_the_text(sanitized(raw), word_starts(sanitized(raw)));
}

/// Marks the positions of `s` at which a word starts.
pub fn mark_word_starts(s: &str) -> (r: Vec<bool>)
    ensures
        r@ == word_starts(s@),
{
    let mut marks: Vec<bool> = Vec::new();
    let mut last_char_was_lowercase = false;
    for ch in it: s.chars()
        invariant
            it.seq() == s@,
            marks.len() == it.index(),
            forall|j: int| 0 <= j < marks.len() ==> marks[j] == starts_word(s@, j),
            last_char_was_lowercase == (it.index() > 0 && char_is_lower(s@[it.index() - 1])),
    {
        marks.push(last_char_was_lowercase && ch.is_uppercase());
        last_char_was_lowercase = ch.is_lowercase();
    }
    proof {
        assert(marks@ =~= word_starts(s@));
    }
    marks
}

/// Cuts `s` into pieces before every position that `starts` marks.
pub fn cut_at(s: &str, starts: &Vec<bool>) -> (r: Vec<String>)
    requires
        starts.len() == s@.len(),
    ensures
        texts(r@) == cut(s@, starts@),
{
    let mut pieces: Vec<String> = Vec::new();
    let mut current = String::new();
    let mut i: usize = 0;
    for ch in it: s.chars()
        invariant
            it.seq() == s@,
            starts.len() == s@.len(),
            i == it.index(),
            i == 0 ==> pieces@.len() == 0 && current@.len() == 0,
            i > 0 ==> {
                &&& cut(s@.take(i as int), starts@.take(i as int)) == texts(pieces@).push(
                    current@,
                )
                &&& current@.len() > 0
            },
    {
        let ghost k = i as int;
        proof {
            assert(s@.take(k + 1).drop_last() =~= s@.take(k));
            assert(starts@.take(k + 1).drop_last() =~= starts@.take(k));
            assert(s@.take(k + 1).last() == ch);
            assert(starts@.take(k + 1).last() == starts[k]);
            if k == 0 {
                assert(s@.take(1) =~= seq![ch]);
            }
        }
        if i > 0 && starts[i] {
            pieces.push(current);
            current = String::new();
            proof {
                assert(texts(pieces@) =~= cut(s@.take(k), starts@.take(k)));
            }
        }
        let ghost before = current@;
        current.push(ch);
        proof {
            if k == 0 {
                assert(current@ =~= seq![ch]);
                assert(texts(pieces@).push(current@) =~= seq![seq![ch]]);
            } else {
                let head = cut(s@.take(k), starts@.take(k));
                if starts[k] {
                    assert(current@ =~= seq![ch]);
                } else {
                    assert(head.drop_last() =~= texts(pieces@));
                    assert(head.last() == before);
                }
            }
        }
        i += 1;
    }
    proof {
        assert(s@.take(s@.len() as int) =~= s@);
        assert(starts@.take(s@.len() as int) =~= starts@);
    }
    if i > 0 {
        pieces.push(current);
        proof {
            assert(texts(pieces@) =~= cut(s@, starts@));
        }
    } else {
        proof {
            assert(texts(pieces@) =~= cut(s@, starts@));
        }
    }
    pieces
}

/// Whether two string slices hold the same text.
fn same_text(a: &str, b: &str) -> (r: bool)
    ensures
        r == (a@ == b@),
{
    a.eq(b)
}

/// Writes a token with its first character in upper case and the others in
/// lower case.
fn capitalize(t: &str) -> (r: String)
    ensures
        r@ == capitalized(t@),
{
    let n = t.unicode_len();
    if n == 0 {
        return String::new();
    }
    let head = t.substring_char(0, 1);
    let tail = t.substring_char(1, n);
    let mut r = head.to_uppercase();
    let rest = tail.to_lowercase();
    r.append(rest.as_str());
    proof {
        assert(r@ =~= capitalized(t@));
    }
    r
}

impl Name {
    pub fn new(tokens: Vec<String>) -> (r: Self)
        ensures
            r.tokens == tokens,
    {
        Name { tokens }
    }

    /// Splits a raw identifier into word tokens.
    pub fn from(name: &String) -> (r: Name)
        ensures
            r@ == normalized(name@),
    {
        let without_slash = replace_char_in(name.as_str(), '/', "_");
        let clean = replace_char_in(without_slash.as_str(), '+', "_plus");
        let starts = mark_word_starts(clean.as_str());
        Name { tokens: cut_at(clean.as_str(), &starts) }
    }

    /// The name with one more token in front.
    pub fn with_prepended(&self, prepended_token: &str) -> (r: Name)
        ensures
            r@ == seq![prepended_token@] + self@,
    {
        let mut tokens: Vec<String> = Vec::new();
        tokens.push(String::from_str(prepended_token));
        let mut i: usize = 0;
        while i < self.tokens.len()
            invariant
                i <= self.tokens.len(),
                tokens.len() == i + 1,
                tokens[0]@ == prepended_token@,
                forall|j: int| 0 <= j < i ==> tokens[j + 1]@ == self.tokens[j]@,
            decreases self.tokens.len() - i,
        {
            tokens.push(self.tokens[i].clone());
            i += 1;
        }
        proof {
            assert(texts(tokens@) =~= seq![prepended_token@] + self@);
        }
        Name { tokens }
    }

    /// Appends an underscore to `s` if it is one of the words in `reserved`.
    pub fn check_reserved(s: String, reserved: &[&str]) -> (r: String)
        ensures
            r@ == escaped(s@, reserved_views(reserved@)),
    {
        let mut i: usize = 0;
        while i < reserved.len()
            invariant
                i <= reserved.len(),
                forall|j: int| 0 <= j < i ==> reserved[j]@ != s@,
            decreases reserved.len() - i,
        {
            if same_text(s.as_str(), reserved[i]) {
                let mut r = s;
                r.append("_");
                proof {
                    assert(reserved_views(reserved@)[i as int] == reserved[i as int]@);
                }
                return r;
            }
            i += 1;
        }
        proof {
            assert forall|j: int| 0 <= j < reserved@.len() implies reserved_views(reserved@)[j]
                != s@ by {}
        }
        s
    }

    /// The name in snake case: lower-case tokens with underscores between.
    pub fn to_snake_case(&self, reserved: &[&str]) -> (r: String)
        ensures
            r@ == escaped(snake_case(self@), reserved_views(reserved@)),
    {
        let mut parts: Vec<String> = Vec::new();
        let mut i: usize = 0;
        while i < self.tokens.len()
            invariant
                i <= self.tokens.len(),
                parts.len() == i,
                forall|j: int| 0 <= j < i ==> parts[j]@ == lowercase(self.tokens[j]@),
            decreases self.tokens.len() - i,
        {
            parts.push(self.tokens[i].as_str().to_lowercase());
            i += 1;
        }
        proof {
            assert(texts(parts@) =~= self@.map_values(|t: Seq<char>| lowercase(t)));
        }
        let s = join_strings(&parts, "_");
        Name::check_reserved(s, reserved)
    }

    /// The name in camel case: capitalized tokens, one after another.
    pub fn to_camel_case(&self, reserved: &[&str]) -> (r: String)
        ensures
            r@ == escaped(camel_case(self@), reserved_views(reserved@)),
    {
        let mut parts: Vec<String> = Vec::new();
        let mut i: usize = 0;
        while i < self.tokens.len()
            invariant
                i <= self.tokens.len(),
                parts.len() == i,
                forall|j: int| 0 <= j < i ==> parts[j]@ == capitalized(self.tokens[j]@),
            decreases self.tokens.len() - i,
        {
            parts.push(capitalize(self.tokens[i].as_str()));
            i += 1;
        }
        proof {
            assert(texts(parts@) =~= self@.map_values(|t: Seq<char>| capitalized(t)));
            reveal_strlit("");
            assert(""@ =~= Seq::<char>::empty());
        }
        let s = join_strings(&parts, "");
        Name::check_reserved(s, reserved)
    }
}

impl FullyQualifiedName {
    pub fn new(names: Vec<Name>) -> (r: Self)
        ensures
            r.names == names,
    {
        FullyQualifiedName { names }
    }

    pub fn names(&self) -> (r: &Vec<Name>)
        ensures
            *r == self.names,
    {
        &self.names
    }

    /// The path with one more name at its end.
    pub fn with(&self, subname: &Name) -> (r: FullyQualifiedName)
        ensures
            r@ == self@.push(subname@),
    {
        let mut new_names = self.names.clone();
        proof {
            assert(path_view(new_names@) =~= path_view(self.names@));
        }
        new_names.push(subname.clone());
        proof {
            assert(path_view(new_names@) =~= self@.push(subname@));
        }
        FullyQualifiedName { names: new_names }
    }
}

/// Writes a name in snake case, escaping the generated program's reserved words.
pub fn snake_text(name: &Name) -> (r: String)
    ensures
        r@ == snake(name@),
{
    let reserved = ["box", "move", "type"];
    proof {
        assert(reserved_views(reserved@) =~= reserved_words());
    }
    name.to_snake_case(&reserved)
}

/// Writes a name in camel case, escaping the generated program's reserved words.
pub fn camel_text(name: &Name) -> (r: String)
    ensures
        r@ == camel(name@),
{
    let reserved = ["box", "move", "type"];
    proof {
        assert(reserved_views(reserved@) =~= reserved_words());
    }
    name.to_camel_case(&reserved)
}

} // verus!
