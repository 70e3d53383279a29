//! The JSON string literal of a text, as `serde_json` writes and reads it.
use vstd::prelude::*;

verus! {

/// A lower-case hexadecimal digit, for `n < 16`.
pub open spec fn hex_digit(n: int) -> char {
    seq!['0', '1', '2', '3', '4', '5', '6', '7', '8', '9', 'a', 'b', 'c', 'd', 'e', 'f'][n]
}

/// How one character stands inside a JSON string literal: `"` and `\` behind a
/// backslash, the control characters with a short escape where JSON has one and
/// as `\u00XX` otherwise, every other character as itself.
pub open spec fn escaped_char(c: char) -> Seq<char> {
    if c == '"' {
        seq!['\\', '"']
    } else if c == '\\' {
        seq!['\\', '\\']
    } else if c == '\x08' {
        seq!['\\', 'b']
    } else if c == '\t' {
        seq!['\\', 't']
    } else if c == '\n' {
        seq!['\\', 'n']
    } else if c == '\x0c' {
        seq!['\\', 'f']
    } else if c == '\r' {
        seq!['\\', 'r']
    } else if (c as int) < 0x20 {
        seq!['\\', 'u', '0', '0', hex_digit((c as int) / 16), hex_digit((c as int) % 16)]
    } else {
        seq![c]
    }
}

/// The escaped characters of `s`, one after the other.
pub open spec fn escaped(s: Seq<char>) -> Seq<char>
    decreases s.len(),
{
    if s.len() == 0 {
        Seq::empty()
    } else {
        escaped_char(s[0]) + escaped(s.drop_first())
    }
}

/// The JSON string literal that denotes the text `s`.
pub open spec fn json_string_of(s: Seq<char>) -> Seq<char> {
    seq!['"'] + escaped(s) + seq!['"']
}

/// Whether a character needs an escape inside a JSON string literal.
pub open spec fn needs_escape(c: char) -> bool {
    c == '"' || c == '\\' || (c as int) < 0x20
}

/// Text with nothing to escape stands as itself.
proof fn lemma_plain_escaped(s: Seq<char>)
    requires
        forall|i: int| 0 <= i < s.len() ==> !needs_escape(#[trigger] s[i]),
    ensures
        escaped(s) == s,
    decreases s.len(),
{
    if s.len() > 0 {
        assert(!needs_escape(s[0]));
        assert forall|i: int| 0 <= i < s.drop_first().len() implies !needs_escape(
            #[trigger] s.drop_first()[i],
        ) by {
            assert(s.drop_first()[i] == s[i + 1]);
        }
        lemma_plain_escaped(s.drop_first());
        assert(s =~= seq![s[0]] + s.drop_first());
    }
}

/// A text in which no character needs an escape has for its JSON form the
/// bare text between two quotes.
pub proof fn lemma_plain_text_literal(s: Seq<char>)
    requires
        forall|i: int| 0 <= i < s.len() ==> !needs_escape(#[trigger] s[i]),
    ensures
        json_string_of(s) == seq!['"'] + s + seq!['"'],
{
    lemma_plain_escaped(s);
}

/// No escaped character is a proper prefix of another: where two escaped
/// characters start two equal texts, they are the same character.
proof fn lemma_escaped_char_unique(c1: char, c2: char, x: Seq<char>, y: Seq<char>)
    requires
        escaped_char(c1) + x == escaped_char(c2) + y,
    ensures
        c1 == c2,
        x == y,
{
    let e1 = escaped_char(c1);
    let e2 = escaped_char(c2);
    let t = e1 + x;
    assert(t[0] == e1[0]);
    assert(t[0] == e2[0]);
    if e1.len() > 1 && e2.len() > 1 {
        assert(t[1] == e1[1] && t[1] == e2[1]);
        if e1[1] == 'u' {
            assert(t[4] == e1[4] && t[4] == e2[4]);
            assert(t[5] == e1[5] && t[5] == e2[5]);
            let n1 = c1 as int;
            let n2 = c2 as int;
            assert(n1 / 16 == n2 / 16);
            assert(n1 % 16 == n2 % 16);
            assert(n1 == n2);
        }
    }
    assert(c1 == c2);
    assert(x =~= t.subrange(e1.len() as int, t.len() as int));
    assert(y =~= t.subrange(e2.len() as int, t.len() as int));
}

/// Different texts never escape to the same characters.
proof fn lemma_escaped_injective(s1: Seq<char>, s2: Seq<char>)
    requires
        escaped(s1) == escaped(s2),
    ensures
        s1 == s2,
    decreases s1.len(),
{
    if s1.len() == 0 {
        if s2.len() != 0 {
            assert(escaped(s2).len() > 0);
        }
        assert(s1 =~= s2);
    } else {
        if s2.len() == 0 {
            assert(escaped(s1).len() > 0);
        }
        lemma_escaped_char_unique(s1[0], s2[0], escaped(s1.drop_first()), escaped(s2.drop_first()));
        lemma_escaped_injective(s1.drop_first(), s2.drop_first());
        assert(s1 =~= seq![s1[0]] + s1.drop_first());
        assert(s2 =~= seq![s2[0]] + s2.drop_first());
    }
}

/// Reading a JSON string literal back is well defined: two texts with the same
/// literal are the same text, so decoding the literal of a value gives back
/// exactly that value.
pub proof fn lemma_json_string_injective(s1: Seq<char>, s2: Seq<char>)
    requires
        json_string_of(s1) == json_string_of(s2),
    ensures
        s1 == s2,
{
    let t = json_string_of(s1);
    assert(escaped(s1) =~= t.subrange(1, t.len() - 1));
    assert(escaped(s2) =~= t.subrange(1, t.len() - 1));
    lemma_escaped_injective(s1, s2);
}

#[verifier::external_type_specification]
#[verifier::external_body]
pub struct ExJsonError(serde_json::Error);

/// Relies on `serde_json::to_string` on a `String`: it writes the text between
/// quotes and escapes `"`, `\` and the characters below U+0020 by its escape
/// table; writing into its own buffer cannot fail.
#[verifier::external_body]
fn serialize_text(s: &String) -> (r: Result<String, serde_json::Error>)
    ensures
        r is Ok,
        r->Ok_0@ == json_string_of(s@),
{
    serde_json::to_string(s)
}

/// Relies on `serde_json::from_str` for a `String`: its parser undoes every
/// escape that the serializer writes, so the literal of a text reads back as
/// that text.
#[verifier::external_body]
fn deserialize_text(t: &str) -> (r: Result<String, serde_json::Error>)
    ensures
        forall|s: Seq<char>| #[trigger] json_string_of(s) == t@ ==> (r is Ok && r->Ok_0@ == s),
{
    serde_json::from_str::<String>(t)
}

/// What `decode` reports for text that is not a JSON string literal.
#[derive(Debug, Clone, Copy, PartialEq, Eq)]
pub struct NotAJsonString;

/// The JSON string literal of `s`.
pub fn encode(s: &String) -> (r: String)
    ensures
        r@ == json_string_of(s@),
{
    match serialize_text(s) {
        Ok(t) => t,
        // Never taken: writing a string into a buffer does not fail.
        Err(_) => String::new(),
    }
}

/// The text that the JSON string literal `t` denotes.
pub fn decode(t: &str) -> (r: Result<String, NotAJsonString>)
    ensures
        forall|s: Seq<char>| #[trigger] json_string_of(s) == t@ ==> (r matches Ok(v) && v@ == s),
{
    match deserialize_text(t) {
        Ok(v) => Ok(v),
        Err(_) => Err(NotAJsonString),
    }
}

} // verus!
