//! Text as sequences of characters: joining, character substitution and the
//! case conversions that names are rendered with.

use vstd::prelude::*;
use vstd::string::*;
use vstd::utf8::decode_utf8;
use vstd::utf8::encode_utf8;
use vstd::utf8::encode_utf8_decode_utf8;
use vstd::utf8::is_char_boundary;

verus! {

/// The lower-case form of a text, as the standard library computes it.
pub uninterp spec fn lowercase(s: Seq<char>) -> Seq<char>;

/// The upper-case form of a text, as the standard library computes it.
pub uninterp spec fn uppercase(s: Seq<char>) -> Seq<char>;

/// Whether the standard library classes a character as lower case.
pub uninterp spec fn char_is_lower(c: char) -> bool;

/// Whether the standard library classes a character as upper case.
pub uninterp spec fn char_is_upper(c: char) -> bool;

/// `str::to_lowercase`: the result depends on the text alone, so it is named
/// rather than described.
pub assume_specification[ str::to_lowercase ](s: &str) -> (r: std::string::String)
    ensures
        r@ == lowercase(s@),
;

/// `str::to_uppercase`: the result depends on the text alone, so it is named
/// rather than described.
pub assume_specification[ str::to_uppercase ](s: &str) -> (r: std::string::String)
    ensures
        r@ == uppercase(s@),
;

/// `char::is_lowercase`: a fixed property of the character.
pub assume_specification[ char::is_lowercase ](c: char) -> (b: bool)
    ensures
        b == char_is_lower(c),
;

/// `char::is_uppercase`: a fixed property of the character.
pub assume_specification[ char::is_uppercase ](c: char) -> (b: bool)
    ensures
        b == char_is_upper(c),
;

/// `String::push`: the character is appended at the end.
pub assume_specification[ std::string::String::push ](s: &mut std::string::String, c: char)
    ensures
        final(s)@ == old(s)@.push(c),
;

/// Equality of string slices is equality of their characters.
pub assume_specification[ <str as PartialEq>::eq ](a: &str, b: &str) -> (r: bool)
    ensures
        r == (a@ == b@),
;

/// The views of a sequence of strings.
pub open spec fn texts(v: Seq<String>) -> Seq<Seq<char>> {
    v.map_values(|s: String| s@)
}

/// `parts` written one after another with `sep` between neighbours.
pub open spec fn join(parts: Seq<Seq<char>>, sep: Seq<char>) -> Seq<char>
    decreases parts.len(),
{
    if parts.len() == 0 {
        Seq::empty()
    } else if parts.len() == 1 {
        parts[0]
    } else {
        join(parts.drop_last(), sep) + sep + parts.last()
    }
}

/// `s` with every occurrence of the character `c` replaced by the text `with`.
pub open spec fn replace_char(s: Seq<char>, c: char, with: Seq<char>) -> Seq<char>
    decreases s.len(),
{
    if s.len() == 0 {
        s
    } else {
        replace_char(s.drop_last(), c, with) + (if s.last() == c {
            with
        } else {
            seq![s.last()]
        })
    }
}

/// Joins `parts` with `sep` between neighbours.
pub fn join_strings(parts: &Vec<String>, sep: &str) -> (r: String)
    ensures
        r@ == join(texts(parts@), sep@),
{
    let mut out = String::new();
    let mut i: usize = 0;
    while i < parts.len()
        invariant
            i <= parts.len(),
            out@ == join(texts(parts@).take(i as int), sep@),
        decreases parts.len() - i,
    {
        proof {
            let all = texts(parts@);
            assert(all.take(i + 1).drop_last() =~= all.take(i as int));
            assert(all.take(i + 1).last() == parts[i as int]@);
            if i == 1 {
                assert(all.take(1).drop_last() =~= Seq::<Seq<char>>::empty());
            }
        }
        if i > 0 {
            out.append(sep);
        }
        out.append(parts[i].as_str());
        proof {
            if i == 0 {
                assert(out@ =~= parts[0]@);
            }
        }
        i += 1;
    }
    proof {
        assert(texts(parts@).take(parts.len() as int) =~= texts(parts@));
    }
    out
}

/// Replaces every occurrence of the character `c` in `s` by `with`.
pub fn replace_char_in(s: &str, c: char, with: &str) -> (r: String)
    ensures
        r@ == replace_char(s@, c, with@),
{
    let mut out = String::new();
    for ch in it: s.chars()
        invariant
            it.seq() == s@,
            out@ == replace_char(s@.take(it.index() as int), c, with@),
    {
        proof {
            let k = it.index() as int;
            assert(s@.take(k + 1).drop_last() =~= s@.take(k));
        }
        if ch == c {
            out.append(with);
        } else {
            out.push(ch);
        }
    }
    proof {
        assert(s@.take(s@.len() as int) =~= s@);
    }
    out
}

/// Whether `s`, written in UTF-8, can be cut after `n` bytes without cutting a
/// character.
pub open spec fn cuts_at(s: Seq<char>, n: int) -> bool {
    is_char_boundary(encode_utf8(s), n)
}

/// The text that the first `n` bytes of `s` in UTF-8 hold.
pub open spec fn byte_prefix(s: Seq<char>, n: int) -> Seq<char> {
    decode_utf8(encode_utf8(s).subrange(0, n))
}

/// The text in the first `n` bytes of `s`, if `s` can be cut there.
pub fn take_bytes(s: &str, n: usize) -> (r: Option<String>)
    ensures
        match r {
            Some(head) => cuts_at(s@, n as int) && head@ == byte_prefix(s@, n as int),
            None => !cuts_at(s@, n as int),
        },
{
    if s.is_char_boundary(n) {
        let (head, _) = s.split_at(n);
        proof {
            encode_utf8_decode_utf8(head@);
        }
        Some(String::from_str(head))
    } else {
        None
    }
}

} // verus!
