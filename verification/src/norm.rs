//! Link normalization: turn a raw, possibly relative, possibly decorated
//! reference into a canonical absolute URL string, or reject it (the
//! empty string signals rejection).

use vstd::prelude::*;

verus! {

/// Characters that start the decoration (fragment or query) of a reference.
pub open spec fn is_decoration(c: char) -> bool {
    c == '#' || c == '?'
}

/// Index of the first `#` or `?` in `s`, or `s.len()` when there is none.
pub open spec fn decoration_start(s: Seq<char>) -> int
    decreases s.len(),
{
    if s.len() == 0 {
        0
    } else if is_decoration(s[0]) {
        0
    } else {
        1 + decoration_start(s.drop_first())
    }
}

/// `s` up to (and excluding) its first `#` or `?`.
pub open spec fn strip_decoration(s: Seq<char>) -> Seq<char> {
    s.take(decoration_start(s))
}

/// The normal form of a raw reference under a scope: the stripped string
/// itself when it already lies in scope, the scope with the stripped
/// root-relative path appended, or the empty sequence when rejected.
pub open spec fn norm_spec(raw: Seq<char>, scope: Seq<char>) -> Seq<char> {
    let s = strip_decoration(raw);
    if scope.is_prefix_of(s) {
        s
    } else if s.len() > 0 && s[0] == '/' {
        scope + s
    } else {
        Seq::empty()
    }
}

/// `decoration_start` points at the first decoration character:
/// everything before it is undecorated, and the index it names (when
/// inside the string) holds a decoration character.
pub proof fn lemma_decoration_start(s: Seq<char>)
    ensures
        0 <= decoration_start(s) <= s.len(),
        forall|j: int| 0 <= j < decoration_start(s) ==> !is_decoration(s[j]),
        decoration_start(s) < s.len() ==> is_decoration(s[decoration_start(s)]),
    decreases s.len(),
{
    if s.len() == 0 {
    } else if is_decoration(s[0]) {
    } else {
        lemma_decoration_start(s.drop_first());
        assert forall|j: int| 0 <= j < decoration_start(s) implies !is_decoration(s[j]) by {
            if j > 0 {
                assert(s[j] == s.drop_first()[j - 1]);
            }
        }
    }
}

/// Conversely, an index with those two properties is `decoration_start`.
proof fn lemma_decoration_start_unique(s: Seq<char>, d: int)
    requires
        0 <= d <= s.len(),
        forall|j: int| 0 <= j < d ==> !is_decoration(s[j]),
        d < s.len() ==> is_decoration(s[d]),
    ensures
        decoration_start(s) == d,
    decreases s.len(),
{
    if s.len() == 0 {
    } else if is_decoration(s[0]) {
        assert(d == 0);
    } else {
        assert(d > 0);
        assert forall|j: int| 0 <= j < d - 1 implies !is_decoration(s.drop_first()[j]) by {
            assert(s.drop_first()[j] == s[j + 1]);
        }
        assert(d - 1 < s.drop_first().len() ==> is_decoration(s.drop_first()[d - 1]));
        lemma_decoration_start_unique(s.drop_first(), d - 1);
    }
}

/// A non-empty normal form always carries the scope as a prefix.
pub proof fn lemma_norm_scoped(raw: Seq<char>, scope: Seq<char>)
    ensures
        norm_spec(raw, scope).len() > 0 ==> scope.is_prefix_of(norm_spec(raw, scope)),
{
    let s = strip_decoration(raw);
    if scope.is_prefix_of(s) {
    } else if s.len() > 0 && s[0] == '/' {
        assert((scope + s).subrange(0, scope.len() as int) =~= scope);
    }
}

/// Index of the first `#` or `?` character of `s`, or its length.
fn find_decoration(s: &str) -> (i: usize)
    ensures
        i == decoration_start(s@),
{
    let n = s.unicode_len();
    let mut i: usize = 0;
    while i < n
        invariant
            0 <= i <= n,
            n == s@.len(),
            forall|j: int| 0 <= j < i ==> !is_decoration(s@[j]),
        decreases n - i,
    {
        let c = s.get_char(i);
        if c == '#' || c == '?' {
            proof {
                lemma_decoration_start_unique(s@, i as int);
            }
            return i;
        }
        i += 1;
    }
    proof {
        lemma_decoration_start_unique(s@, n as int);
    }
    i
}

/// Whether `p` is a prefix of `s`, compared character by character.
pub fn str_is_prefix(p: &str, s: &str) -> (r: bool)
    ensures
        r == p@.is_prefix_of(s@),
{
    let np = p.unicode_len();
    let ns = s.unicode_len();
    if np > ns {
        return false;
    }
    let mut i: usize = 0;
    while i < np
        invariant
            0 <= i <= np,
            np == p@.len(),
            ns == s@.len(),
            np <= ns,
            forall|j: int| 0 <= j < i ==> p@[j] == s@[j],
        decreases np - i,
    {
        if p.get_char(i) != s.get_char(i) {
            assert(!p@.is_prefix_of(s@)) by {
                assert(p@[i as int] != s@.subrange(0, np as int)[i as int]);
            }
            return false;
        }
        i += 1;
    }
    assert(p@ =~= s@.subrange(0, np as int));
    true
}

/// Whether two strings hold the same characters.
pub fn str_eq(a: &str, b: &str) -> (r: bool)
    ensures
        r == (a@ == b@),
{
    let na = a.unicode_len();
    let nb = b.unicode_len();
    if na != nb {
        return false;
    }
    let r = str_is_prefix(a, b);
    proof {
        if r {
            assert(a@ =~= b@.subrange(0, b@.len() as int));
            assert(b@ =~= b@.subrange(0, b@.len() as int));
        }
    }
    r
}

/// Normalize a raw reference against a scope.
///
/// The decoration (everything from the first `#` or `?` on) is dropped;
/// a result already carrying the scope prefix is kept as it stands; a
/// root-relative path is appended to the scope; anything else — a
/// document-relative reference, an out-of-scope absolute URL, or an
/// empty string — is rejected, signalled by the empty string.
pub fn normalize(raw: &str, scope: &str) -> (r: String)
    ensures
        r@ == norm_spec(raw@, scope@),
{
    proof {
        lemma_decoration_start(raw@);
    }
    let d = find_decoration(raw);
    let stripped = raw.substring_char(0, d);
    assert(stripped@ =~= strip_decoration(raw@));
    if str_is_prefix(scope, stripped) {
        stripped.to_owned()
    } else if stripped.unicode_len() > 0 && stripped.get_char(0) == '/' {
        let mut out = scope.to_owned();
        out.append(stripped);
        out
    } else {
        let r = String::new();
        assert(r@ =~= norm_spec(raw@, scope@));
        r
    }
}

} // verus!
