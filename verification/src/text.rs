//! Character-sequence vocabulary shared by the resolver and the
//! orchestrator: first-occurrence search, prefix and suffix tests, and the
//! verified string helpers the parsers are built from.

use vstd::prelude::*;

verus! {

/// The single host supported for HTTP and shorthand references.
pub open spec fn default_host_seq() -> Seq<char> {
    seq!['g', 'i', 't', 'h', 'u', 'b', '.', 'c', 'o', 'm']
}

/// `s` holds the character `c` somewhere.
pub open spec fn contains_char(s: Seq<char>, c: char) -> bool {
    exists|i: int| 0 <= i < s.len() && s[i] == c
}

/// `i` is the first position of `c` in `s`.
pub open spec fn is_first_index(s: Seq<char>, c: char, i: int) -> bool {
    &&& 0 <= i < s.len()
    &&& s[i] == c
    &&& forall|j: int| 0 <= j < i ==> s[j] != c
}

/// The first position of `c` in `s`; meaningful only when `contains_char`
/// holds (see `lemma_find_char_works`).
pub open spec fn find_char(s: Seq<char>, c: char) -> int {
    choose|i: int| is_first_index(s, c, i)
}

/// A first index exists wherever the character occurs at all, and
/// `find_char` returns it.
pub proof fn lemma_find_char_works(s: Seq<char>, c: char)
    requires
        contains_char(s, c),
    ensures
        is_first_index(s, c, find_char(s, c)),
    decreases s.len(),
{
    if s[0] == c {
        assert(is_first_index(s, c, 0));
    } else {
        let rest = s.subrange(1, s.len() as int);
        let w = choose|i: int| 0 <= i < s.len() && s[i] == c;
        assert(rest[w - 1] == c);
        lemma_find_char_works(rest, c);
        let i = find_char(rest, c);
        assert(forall|j: int| 1 <= j < i + 1 ==> s[j] == rest[j - 1]);
        assert(is_first_index(s, c, i + 1));
    }
}

/// There is only one first index.
pub proof fn lemma_first_index_unique(s: Seq<char>, c: char, i: int, j: int)
    requires
        is_first_index(s, c, i),
        is_first_index(s, c, j),
    ensures
        i == j,
{
}

/// Knowing some first index pins down `find_char`.
pub proof fn lemma_find_char_is(s: Seq<char>, c: char, i: int)
    requires
        is_first_index(s, c, i),
    ensures
        find_char(s, c) == i,
        contains_char(s, c),
{
    assert(contains_char(s, c));
    lemma_find_char_works(s, c);
    lemma_first_index_unique(s, c, i, find_char(s, c));
}

/// A character occurs in a concatenation exactly when it occurs in one of
/// the parts.
pub proof fn lemma_contains_concat(a: Seq<char>, b: Seq<char>, c: char)
    ensures
        contains_char(a + b, c) <==> (contains_char(a, c) || contains_char(b, c)),
{
    if contains_char(a, c) {
        let i = choose|i: int| 0 <= i < a.len() && a[i] == c;
        assert((a + b)[i] == c);
    }
    if contains_char(b, c) {
        let i = choose|i: int| 0 <= i < b.len() && b[i] == c;
        assert((a + b)[a.len() + i] == c);
    }
    if contains_char(a + b, c) {
        let i = choose|i: int| 0 <= i < (a + b).len() && (a + b)[i] == c;
        if i < a.len() {
            assert(a[i] == c);
        } else {
            assert(b[i - a.len()] == c);
        }
    }
}

/// In `a + b` with no `c` inside `a` and `c` heading `b`, the first
/// occurrence of `c` sits exactly at the end of `a`.
pub proof fn lemma_first_index_concat(a: Seq<char>, b: Seq<char>, c: char)
    requires
        !contains_char(a, c),
        b.len() > 0,
        b[0] == c,
    ensures
        is_first_index(a + b, c, a.len() as int),
        find_char(a + b, c) == a.len() as int,
        contains_char(a + b, c),
{
    let s = a + b;
    assert(s[a.len() as int] == c);
    assert forall|j: int| 0 <= j < a.len() implies s[j] != c by {
        assert(s[j] == a[j]);
    }
    lemma_find_char_is(s, c, a.len() as int);
}

/// `s` begins with `p`.
pub open spec fn has_prefix(s: Seq<char>, p: Seq<char>) -> bool {
    s.len() >= p.len() && s.subrange(0, p.len() as int) == p
}

/// `s` ends with `p`.
pub open spec fn has_suffix(s: Seq<char>, p: Seq<char>) -> bool {
    s.len() >= p.len() && s.subrange(s.len() - p.len(), s.len() as int) == p
}

/// Concatenates a message prefix and its detail.
pub fn concat_parts(prefix: &str, detail: &str) -> (r: String)
    ensures
        r@ == prefix@ + detail@,
{
    let mut r = prefix.to_owned();
    r.append(detail);
    r
}

/// Searches `s` for the first occurrence of `c`.
pub fn find_char_str(s: &str, c: char) -> (r: Option<usize>)
    ensures
        match r {
            Some(i) => is_first_index(s@, c, i as int),
            None => !contains_char(s@, c),
        },
{
    let n = s.unicode_len();
    let mut i: usize = 0;
    while i < n
        invariant
            i <= n,
            n == s@.len(),
            forall|j: int| 0 <= j < i ==> s@[j] != c,
        decreases n - i,
    {
        if s.get_char(i) == c {
            return Some(i);
        }
        i = i + 1;
    }
    None
}

/// Character-by-character string equality.
pub fn str_eq(a: &str, b: &str) -> (r: bool)
    ensures
        r == (a@ == b@),
{
    let na = a.unicode_len();
    let nb = b.unicode_len();
    if na != nb {
        return false;
    }
    let mut i: usize = 0;
    while i < na
        invariant
            i <= na,
            na == a@.len(),
            na == b@.len(),
            forall|j: int| 0 <= j < i ==> a@[j] == b@[j],
        decreases na - i,
    {
        if a.get_char(i) != b.get_char(i) {
            return false;
        }
        i = i + 1;
    }
    proof {
        assert(a@ =~= b@);
    }
    true
}

/// Does `s` begin with `p`?
pub fn starts_with(s: &str, p: &str) -> (r: bool)
    ensures
        r == has_prefix(s@, p@),
{
    let ns = s.unicode_len();
    let np = p.unicode_len();
    if ns < np {
        return false;
    }
    let mut i: usize = 0;
    while i < np
        invariant
            i <= np,
            np == p@.len(),
            ns == s@.len(),
            np <= ns,
            forall|j: int| 0 <= j < i ==> s@[j] == p@[j],
        decreases np - i,
    {
        if s.get_char(i) != p.get_char(i) {
            proof {
                assert(s@.subrange(0, p@.len() as int)[i as int] != p@[i as int]);
            }
            return false;
        }
        i = i + 1;
    }
    proof {
        assert(s@.subrange(0, p@.len() as int) =~= p@);
    }
    true
}

} // verus!
