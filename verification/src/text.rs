//! Text comparison and sequence search, shared by the rest of the library.
use vstd::prelude::*;

verus! {

/// Compares two strings by their characters.
pub fn str_eq(a: &str, b: &str) -> (r: bool)
    ensures
        r == (a@ == b@),
{
    let x = a.as_bytes();
    let y = b.as_bytes();
    proof {
        vstd::utf8::encode_utf8_decode_utf8(a@);
        vstd::utf8::encode_utf8_decode_utf8(b@);
    }
    if x.len() != y.len() {
        return false;
    }
    let n = x.len();
    let mut i: usize = 0;
    while i < n
        invariant
            n == x@.len(),
            n == y@.len(),
            x@ == vstd::utf8::encode_utf8(a@),
            y@ == vstd::utf8::encode_utf8(b@),
            i <= n,
            forall|j: int| 0 <= j < i ==> x@[j] == y@[j],
        decreases n - i,
    {
        if x[i] != y[i] {
            assert(x@ != y@);
            return false;
        }
        i = i + 1;
    }
    assert(x@ =~= y@);
    true
}

/// `i` is the first position of `s` whose element satisfies `p`.
pub open spec fn is_first<A>(s: Seq<A>, p: spec_fn(A) -> bool, i: int) -> bool {
    &&& 0 <= i < s.len()
    &&& p(s[i])
    &&& forall|j: int| 0 <= j < i ==> !p(#[trigger] s[j])
}

/// The first position of `s` whose element satisfies `p`, if any.
pub open spec fn first_index<A>(s: Seq<A>, p: spec_fn(A) -> bool) -> Option<int> {
    if exists|i: int| is_first(s, p, i) {
        Some(choose|i: int| is_first(s, p, i))
    } else {
        None
    }
}

/// Pins down `first_index` from a position found by a search.
pub proof fn lemma_first_index<A>(s: Seq<A>, p: spec_fn(A) -> bool, i: int)
    requires
        is_first(s, p, i),
    ensures
        first_index(s, p) == Some(i),
{
    let k = choose|k: int| is_first(s, p, k);
    assert(is_first(s, p, k));
    if k < i {
        assert(!p(s[k]));
    } else if i < k {
        assert(!p(s[i]));
    }
}

/// `first_index` finds nothing where no element satisfies `p`.
pub proof fn lemma_first_index_none<A>(s: Seq<A>, p: spec_fn(A) -> bool)
    requires
        forall|j: int| 0 <= j < s.len() ==> !p(#[trigger] s[j]),
    ensures
        first_index(s, p) is None,
{
    if exists|i: int| is_first(s, p, i) {
        let k = choose|k: int| is_first(s, p, k);
        assert(!p(s[k]));
    }
}

/// What `first_index` gives back satisfies `is_first`.
pub proof fn lemma_first_index_some<A>(s: Seq<A>, p: spec_fn(A) -> bool)
    requires
        first_index(s, p) is Some,
    ensures
        is_first(s, p, first_index(s, p)->0),
{
}

/// Where `first_index` finds nothing, no element satisfies `p`.
pub proof fn lemma_first_index_none_all<A>(s: Seq<A>, p: spec_fn(A) -> bool)
    requires
        first_index(s, p) is None,
    ensures
        forall|j: int| 0 <= j < s.len() ==> !p(#[trigger] s[j]),
{
    assert forall|j: int| 0 <= j < s.len() implies !p(#[trigger] s[j]) by {
        if p(s[j]) {
            let m = least_satisfying(s, p, j);
            assert(is_first(s, p, m));
        }
    }
}

/// The least position up to `j` that satisfies `p`, where `j` does.
proof fn least_satisfying<A>(s: Seq<A>, p: spec_fn(A) -> bool, j: int) -> (m: int)
    requires
        0 <= j < s.len(),
        p(s[j]),
    ensures
        is_first(s, p, m),
    decreases j,
{
    if exists|k: int| 0 <= k < j && p(#[trigger] s[k]) {
        let k = choose|k: int| 0 <= k < j && p(#[trigger] s[k]);
        least_satisfying(s, p, k)
    } else {
        j
    }
}

/// Two sequences whose elements satisfy `p` at the same positions have the
/// same first position that satisfies it.
pub proof fn lemma_first_index_same<A, B>(a: Seq<A>, b: Seq<B>, p: spec_fn(A) -> bool, q: spec_fn(B) -> bool)
    requires
        a.len() == b.len(),
        forall|i: int| 0 <= i < a.len() ==> p(#[trigger] a[i]) == q(b[i]),
    ensures
        first_index(a, p) == first_index(b, q),
{
    match first_index(a, p) {
        Some(i) => {
            lemma_first_index_some(a, p);
            assert(is_first(b, q, i)) by {
                assert forall|j: int| 0 <= j < i implies !q(#[trigger] b[j]) by {
                    assert(!p(a[j]));
                }
            }
            lemma_first_index(b, q, i);
        },
        None => {
            lemma_first_index_none_all(a, p);
            assert forall|j: int| 0 <= j < b.len() implies !q(#[trigger] b[j]) by {
                assert(!p(a[j]));
            }
            lemma_first_index_none(b, q);
        },
    }
}

} // verus!
