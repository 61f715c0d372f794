//! Parsing the caller's comma-separated column list: splitting on commas and
//! trimming surrounding whitespace from each piece.

use vstd::prelude::*;
use vstd::string::StrSliceExecFns;
use vstd::string::StringExecFns;

verus! {

/// Prepends a character to the first piece of a non-empty piece list.
pub open spec fn prepend_first(c: char, parts: Seq<Seq<char>>) -> Seq<Seq<char>>
    recommends
        parts.len() > 0,
{
    seq![seq![c] + parts[0]] + parts.skip(1)
}

/// The pieces of a character sequence split on commas. An empty input is one
/// empty piece, and every comma separates two (possibly empty) pieces.
pub open spec fn split_commas(s: Seq<char>) -> Seq<Seq<char>>
    decreases s.len(),
{
    if s.len() == 0 {
        seq![Seq::<char>::empty()]
    } else if s[0] == ',' {
        seq![Seq::<char>::empty()] + split_commas(s.skip(1))
    } else {
        prepend_first(s[0], split_commas(s.skip(1)))
    }
}

pub proof fn lemma_split_commas_len(s: Seq<char>)
    ensures
        split_commas(s).len() >= 1,
    decreases s.len(),
{
    if s.len() == 0 {
    } else {
        lemma_split_commas_len(s.skip(1));
    }
}

/// Splitting reads up to the first comma: when the first `k` characters hold
/// no comma, they are the first piece, and the rest splits on its own.
proof fn lemma_split_to_comma(s: Seq<char>, k: int)
    requires
        0 <= k <= s.len(),
        forall|j: int| 0 <= j < k ==> s[j] != ',',
        k == s.len() || s[k] == ',',
    ensures
        k == s.len() ==> split_commas(s) == seq![s],
        k < s.len() ==> split_commas(s) == seq![s.take(k)] + split_commas(s.skip(k + 1)),
    decreases s.len(),
{
    lemma_split_commas_len(s.skip(1));
    if k == 0 {
        if s.len() == 0 {
            assert(s =~= Seq::<char>::empty());
            assert(seq![s] =~= seq![Seq::<char>::empty()]);
        } else {
            assert(s[0] == ',');
            assert(s.take(0) =~= Seq::<char>::empty());
            assert(seq![s.take(0)] + split_commas(s.skip(1)) =~= seq![Seq::<char>::empty()]
                + split_commas(s.skip(1)));
        }
    } else {
        let t = s.skip(1);
        assert(forall|j: int| 0 <= j < k - 1 ==> t[j] != ',');
        lemma_split_to_comma(t, k - 1);
        if k == s.len() {
            assert(split_commas(t) == seq![t]);
            assert(split_commas(s) == prepend_first(s[0], seq![t]));
            assert(seq![s[0]] + t =~= s);
            assert(prepend_first(s[0], seq![t]) =~= seq![s]);
        } else {
            assert(t[k - 1] == s[k]);
            assert(split_commas(t) == seq![t.take(k - 1)] + split_commas(t.skip(k)));
            let parts = seq![t.take(k - 1)] + split_commas(t.skip(k));
            assert(parts[0] == t.take(k - 1));
            assert(seq![s[0]] + t.take(k - 1) =~= s.take(k));
            assert(parts.skip(1) =~= split_commas(t.skip(k)));
            assert(t.skip(k) =~= s.skip(k + 1));
            assert(prepend_first(s[0], parts) =~= seq![s.take(k)] + split_commas(s.skip(k + 1)));
        }
    }
}

/// First index at or after `from` holding a comma, or the length.
fn next_comma(s: &str, from: usize) -> (r: usize)
    requires
        from <= s@.len(),
    ensures
        from <= r <= s@.len(),
        forall|j: int| from <= j < r ==> s@[j] != ',',
        r < s@.len() ==> s@[r as int] == ',',
{
    let len = s.unicode_len();
    let mut i = from;
    while i < len
        invariant
            from <= i <= len,
            len == s@.len(),
            forall|j: int| from <= j < i ==> s@[j] != ',',
        decreases len - i,
    {
        if s.get_char(i) == ',' {
            return i;
        }
        i += 1;
    }
    i
}

fn split_from(s: &str, from: usize) -> (r: Vec<String>)
    requires
        from <= s@.len(),
    ensures
        r.deep_view() == split_commas(s@.skip(from as int)),
    decreases s@.len() - from,
{
    let len = s.unicode_len();
    let end = next_comma(s, from);
    let piece = String::from_str(s.substring_char(from, end));
    let ghost tail = s@.skip(from as int);
    proof {
        assert(forall|j: int| 0 <= j < end - from ==> tail[j] != ',');
        if end < len {
            assert(tail[end - from] == ',');
        }
        lemma_split_to_comma(tail, end - from);
        assert(piece@ =~= tail.take(end - from));
    }
    if end == len {
        let mut v: Vec<String> = Vec::new();
        v.push(piece);
        proof {
            assert(tail.take(end - from) =~= tail);
            assert(v.deep_view() =~= seq![tail]);
        }
        v
    } else {
        let mut rest = split_from(s, end + 1);
        rest.insert(0, piece);
        proof {
            assert(tail.skip(end - from + 1) =~= s@.skip(end + 1));
            assert(rest.deep_view() =~= seq![tail.take(end - from)] + split_commas(
                s@.skip(end + 1)));
        }
        rest
    }
}

/// Splits a string on commas; the result always holds at least one piece.
pub fn split_columns(s: &str) -> (r: Vec<String>)
    ensures
        r.deep_view() == split_commas(s@),
        r@.len() >= 1,
{
    let r = split_from(s, 0);
    proof {
        assert(s@.skip(0) =~= s@);
        lemma_split_commas_len(s@);
        assert(r@.len() == r.deep_view().len());
    }
    r
}

/// Whitespace stripped from around a requested column name: the Unicode
/// White_Space set, as the standard library's trim removes.
pub open spec fn is_space_char(c: char) -> bool {
    let u = c as u32;
    (9 <= u && u <= 13) || u == 32 || u == 0x85 || u == 0xa0 || u == 0x1680 || (0x2000 <= u && u
        <= 0x200a) || u == 0x2028 || u == 0x2029 || u == 0x202f || u == 0x205f || u == 0x3000
}

/// The sequence with leading whitespace removed.
pub open spec fn trim_front(s: Seq<char>) -> Seq<char>
    decreases s.len(),
{
    if s.len() > 0 && is_space_char(s[0]) {
        trim_front(s.skip(1))
    } else {
        s
    }
}

/// The sequence with trailing whitespace removed.
pub open spec fn trim_back(s: Seq<char>) -> Seq<char>
    decreases s.len(),
{
    if s.len() > 0 && is_space_char(s.last()) {
        trim_back(s.drop_last())
    } else {
        s
    }
}

/// The sequence with surrounding whitespace removed.
pub open spec fn trim_spec(s: Seq<char>) -> Seq<char> {
    trim_back(trim_front(s))
}

fn is_space(c: char) -> (r: bool)
    ensures
        r == is_space_char(c),
{
    let u = c as u32;
    (9 <= u && u <= 13) || u == 32 || u == 0x85 || u == 0xa0 || u == 0x1680 || (0x2000 <= u && u
        <= 0x200a) || u == 0x2028 || u == 0x2029 || u == 0x202f || u == 0x205f || u == 0x3000
}

/// Removes surrounding whitespace from a string.
pub fn trim_str(s: &str) -> (r: String)
    ensures
        r@ == trim_spec(s@),
{
    let len = s.unicode_len();
    let mut a: usize = 0;
    proof {
        assert(s@.skip(0) =~= s@);
    }
    while a < len && is_space(s.get_char(a))
        invariant
            0 <= a <= len,
            len == s@.len(),
            trim_front(s@) == trim_front(s@.skip(a as int)),
        decreases len - a,
    {
        proof {
            assert(s@.skip(a as int).skip(1) =~= s@.skip(a + 1));
        }
        a += 1;
    }
    proof {
        assert(s@.skip(0) =~= s@);
        if a == len {
            assert(s@.skip(a as int) =~= Seq::<char>::empty());
            assert(trim_front(s@) =~= Seq::<char>::empty());
        } else {
            assert(trim_front(s@) == s@.skip(a as int));
        }
    }
    let mut b: usize = len;
    while b > a && is_space(s.get_char(b - 1))
        invariant
            a <= b <= len,
            len == s@.len(),
            trim_back(s@.skip(a as int)) == trim_back(s@.subrange(a as int, b as int)),
        decreases b,
    {
        proof {
            assert(s@.subrange(a as int, b as int).drop_last() =~= s@.subrange(
                a as int,
                b - 1,
            ));
            assert(s@.subrange(a as int, b as int).last() == s@[b - 1]);
        }
        b -= 1;
    }
    proof {
        assert(s@.subrange(a as int, len as int) =~= s@.skip(a as int));
        if b == a {
            assert(s@.subrange(a as int, b as int) =~= Seq::<char>::empty());
        }
        assert(trim_spec(s@) == s@.subrange(a as int, b as int));
    }
    String::from_str(s.substring_char(a, b))
}

/// The requested column names of a raw comma-separated list: split on
/// commas, each piece trimmed.
pub open spec fn requested_columns(s: Seq<char>) -> Seq<Seq<char>> {
    split_commas(s).map_values(|p: Seq<char>| trim_spec(p))
}

/// Parses the caller's comma-separated column list.
pub fn parse_columns(s: &str) -> (r: Vec<String>)
    ensures
        r.deep_view() == requested_columns(s@),
        r@.len() >= 1,
{
    let pieces = split_columns(s);
    let mut out: Vec<String> = Vec::new();
    let mut i: usize = 0;
    while i < pieces.len()
        invariant
            0 <= i <= pieces@.len(),
            pieces.deep_view() == split_commas(s@),
            pieces.deep_view().len() == pieces@.len(),
            out.deep_view() =~= requested_columns(s@).take(i as int),
        decreases pieces@.len() - i,
    {
        let t = trim_str(pieces[i].as_str());
        let ghost prev = out.deep_view();
        out.push(t);
        proof {
            let rc = requested_columns(s@);
            assert(pieces.deep_view()[i as int] == pieces@[i as int]@);
            assert(rc[i as int] == trim_spec(split_commas(s@)[i as int]));
            assert(prev.len() == i);
            assert(out@.len() == i + 1);
            assert(out.deep_view().len() == i + 1);
            assert forall|j: int| 0 <= j < i + 1 implies out.deep_view()[j] == rc.take(i + 1)[j]
                by {
                assert(out.deep_view()[j] == out@[j]@);
                if j < i {
                    assert(prev[j] == rc.take(i as int)[j]);
                    assert(prev[j] == out@[j]@);
                } else {
                    assert(out@[j] == t);
                }
            }
            assert(out.deep_view() =~= rc.take(i + 1));
        }
        i += 1;
    }
    proof {
        assert(requested_columns(s@).take(pieces@.len() as int) =~= requested_columns(s@));
        assert(out@.len() == out.deep_view().len());
        lemma_split_commas_len(s@);
    }
    out
}

} // verus!
