//! Identifier allow-listing: a table or column name may only be embedded in
//! statement text after every character is confirmed to lie in the
//! letters/digits/underscore class.

use vstd::prelude::*;
use vstd::string::StrSliceExecFns;

verus! {

/// A character accepted inside a table or column identifier:
/// an ASCII letter, an ASCII digit, or an underscore.
pub open spec fn is_ident_char(c: char) -> bool {
    let u = c as u32;
    (('a' as u32) <= u && u <= ('z' as u32)) || (('A' as u32) <= u && u <= ('Z' as u32)) || ((
    '0' as u32) <= u && u <= ('9' as u32)) || u == ('_' as u32)
}

/// An identifier that is safe to embed in statement text: non-empty and made
/// only of letters, digits and underscores.
pub open spec fn is_safe_ident(s: Seq<char>) -> bool {
    s.len() > 0 && (forall|i: int| 0 <= i < s.len() ==> is_ident_char(s[i]))
}

/// Checks the identifier character class on an executable string.
pub fn check_ident(s: &str) -> (r: bool)
    ensures
        r == is_safe_ident(s@),
{
    let len = s.unicode_len();
    if len == 0 {
        return false;
    }
    let mut i: usize = 0;
    while i < len
        invariant
            0 <= i <= len,
            len == s@.len(),
            forall|j: int| 0 <= j < i ==> is_ident_char(s@[j]),
        decreases len - i,
    {
        let c = s.get_char(i);
        let u = c as u32;
        if !((97 <= u && u <= 122) || (65 <= u && u <= 90) || (48 <= u && u <= 57) || u == 95) {
            proof {
                assert(!is_ident_char(s@[i as int]));
            }
            return false;
        }
        i += 1;
    }
    true
}

/// A safe identifier can never smuggle SQL delimiters into statement text:
/// it contains no backtick, no quote, no space and no comma.
pub proof fn lemma_safe_ident_excludes_delimiters(s: Seq<char>)
    requires
        is_safe_ident(s),
    ensures
        forall|i: int|
            0 <= i < s.len() ==> s[i] != '`' && s[i] != '\'' && s[i] != '"' && s[i] != ' ' && s[i]
                != ',' && s[i] != ';',
{
    assert forall|i: int| 0 <= i < s.len() implies s[i] != '`' && s[i] != '\'' && s[i] != '"'
        && s[i] != ' ' && s[i] != ',' && s[i] != ';' by {
        assert(is_ident_char(s[i]));
    }
}

} // verus!
