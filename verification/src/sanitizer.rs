//! The identifier guard that stands between contract names and SQL text.

use vstd::prelude::*;
use vstd::string::StringSliceAdditionalSpecFns;

verus! {

/// A lower-case ASCII letter.
pub open spec fn is_lower_letter(c: char) -> bool {
    'a' <= c && c <= 'z'
}

/// A character allowed after the first one: lower-case letter, digit or `_`.
pub open spec fn is_tail_char(c: char) -> bool {
    is_lower_letter(c) || ('0' <= c && c <= '9') || c == '_'
}

/// A safe SQL identifier: 1 to 63 characters, a lower-case letter first, then
/// only lower-case letters, digits and underscores.
pub open spec fn safe_identifier(s: Seq<char>) -> bool {
    &&& 0 < s.len() <= 63
    &&& is_lower_letter(s[0])
    &&& forall|i: int| 1 <= i < s.len() ==> is_tail_char(#[trigger] s[i])
}

fn lower_letter(c: char) -> (b: bool)
    ensures
        b == is_lower_letter(c),
{
    'a' <= c && c <= 'z'
}

fn tail_char(c: char) -> (b: bool)
    ensures
        b == is_tail_char(c),
{
    ('a' <= c && c <= 'z') || ('0' <= c && c <= '9') || c == '_'
}

/// Whether `name` may be written into SQL text as a schema, table or column
/// name.
pub fn is_safe_identifier(name: &str) -> (ok: bool)
    ensures
        ok == safe_identifier(name@),
{
    broadcast use vstd::string::is_ascii_spec_bytes;
    if name.is_empty() || name.len() > 63 {
        proof {
            if safe_identifier(name@) {
                assert(vstd::string::is_ascii(name));
                assert(name.spec_bytes().len() == name@.len());
            }
        }
        return false;
    }
    let n = name.unicode_len();
    let first = name.get_char(0);
    if !lower_letter(first) {
        return false;
    }
    let mut i: usize = 1;
    while i < n
        invariant
            n == name@.len(),
            1 <= i <= n,
            is_lower_letter(name@[0]),
            forall|j: int| 1 <= j < i ==> is_tail_char(#[trigger] name@[j]),
        decreases n - i,
    {
        if !tail_char(name.get_char(i)) {
            return false;
        }
        i = i + 1;
    }
    proof {
        assert(vstd::string::is_ascii(name)) by {
            assert forall|j: int| 0 <= j < name@.len() implies '\0' <= #[trigger] name@[j] <= '\u{7f}' by {
                if j > 0 {
                    assert(is_tail_char(name@[j]));
                }
            }
        }
        assert(name.spec_bytes().len() == name@.len());
    }
    true
}


/// A safe identifier holds none of the characters that could end an SQL
/// identifier or start another token: no space, quote, dot, semicolon, comma,
/// parenthesis, hyphen or slash, and no upper-case letter.
pub proof fn law_safe_identifier_has_no_sql_metacharacters(s: Seq<char>)
    requires
        safe_identifier(s),
    ensures
        forall|i: int| 0 <= i < s.len() ==> {
            let c = #[trigger] s[i];
            &&& c != ' ' && c != '\'' && c != '"' && c != '`'
            &&& c != '.' && c != ';' && c != ',' && c != '(' && c != ')'
            &&& c != '-' && c != '/' && c != '*'
            &&& !('A' <= c && c <= 'Z')
        },
{
    assert forall|i: int| 0 <= i < s.len() implies is_tail_char(#[trigger] s[i]) by {
        if i == 0 {
            assert(is_lower_letter(s[0]));
        }
    }
}


/// A single character is a safe identifier exactly when it is a lower-case
/// ASCII letter.
pub proof fn law_safe_identifier_start(c: char)
    ensures
        safe_identifier(seq![c]) <==> ('a' <= c && c <= 'z'),
{
}

/// A safe identifier shorter than 63 characters stays safe when extended by
/// any lower-case letter, any digit `0` to `9` or `_`, and by nothing else.
pub proof fn law_safe_identifier_extension(s: Seq<char>, c: char)
    requires
        safe_identifier(s),
        s.len() < 63,
    ensures
        safe_identifier(s.push(c)) <==> (('a' <= c && c <= 'z') || ('0' <= c && c <= '9') || c == '_'),
{
    let t = s.push(c);
    assert(t[0] == s[0]);
    assert(t[t.len() - 1] == c);
    if ('a' <= c && c <= 'z') || ('0' <= c && c <= '9') || c == '_' {
        assert forall|i: int| 1 <= i < t.len() implies is_tail_char(#[trigger] t[i]) by {
            if i < s.len() {
                assert(t[i] == s[i]);
            }
        }
    }
}

/// A lower-case letter followed by any digit `0` to `9` is a safe
/// identifier: no digit is refused after the first character.
pub proof fn law_digits_follow_a_letter(c: char, d: char)
    requires
        'a' <= c <= 'z',
        '0' <= d <= '9',
    ensures
        safe_identifier(seq![c, d]),
{
    let s = seq![c, d];
    assert(s[0] == c);
    assert forall|i: int| 1 <= i < s.len() implies is_tail_char(#[trigger] s[i]) by {
        assert(s[i] == d);
    }
}

/// No identifier longer than 63 characters is safe.
pub proof fn law_safe_identifier_length(s: Seq<char>)
    requires
        s.len() > 63 || s.len() == 0,
    ensures
        !safe_identifier(s),
{
}

} // verus!
