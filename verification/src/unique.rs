//! Order-preserving deduplication of sequences, as a mathematical function.
use vstd::prelude::*;

verus! {

/// `s` with `x` appended unless `s` already holds it.
pub open spec fn push_unique<T>(s: Seq<T>, x: T) -> Seq<T> {
    if s.contains(x) {
        s
    } else {
        s.push(x)
    }
}

/// `s` followed by each element of `xs` that was not seen before, in order of first occurrence.
pub open spec fn extend_unique<T>(s: Seq<T>, xs: Seq<T>) -> Seq<T>
    decreases xs.len(),
{
    if xs.len() == 0 {
        s
    } else {
        push_unique(extend_unique(s, xs.drop_last()), xs.last())
    }
}

/// Appending keeps what was there and adds exactly the new element.
pub proof fn lemma_push_contains<T>(s: Seq<T>, x: T, y: T)
    ensures
        s.push(x).contains(y) <==> (s.contains(y) || y == x),
{
    if s.push(x).contains(y) {
        let i = choose|i: int| 0 <= i < s.push(x).len() && s.push(x)[i] == y;
        if i < s.len() {
            assert(s[i] == y);
        }
    }
    if s.contains(y) {
        let i = choose|i: int| 0 <= i < s.len() && s[i] == y;
        assert(s.push(x)[i] == y);
    }
    if y == x {
        assert(s.push(x)[s.len() as int] == y);
    }
}

/// `push_unique` keeps a duplicate-free sequence duplicate-free, keeps `s` as a prefix, and
/// holds exactly the elements of `s` and `x`.
pub proof fn lemma_push_unique<T>(s: Seq<T>, x: T)
    requires
        s.no_duplicates(),
    ensures
        push_unique(s, x).no_duplicates(),
        s.len() <= push_unique(s, x).len(),
        push_unique(s, x).take(s.len() as int) == s,
        forall|y: T| #[trigger] push_unique(s, x).contains(y) <==> (s.contains(y) || y == x),
{
    assert forall|y: T| #[trigger] push_unique(s, x).contains(y) <==> (s.contains(y) || y
        == x) by {
        lemma_push_contains(s, x, y);
    }
    assert(push_unique(s, x).take(s.len() as int) =~= s);
    if !s.contains(x) {
        assert forall|i: int, j: int|
            0 <= i < s.push(x).len() && 0 <= j < s.push(x).len() && i != j implies s.push(x)[i]
            != s.push(x)[j] by {
            if i == s.len() {
                assert(s[j] != x);
            } else if j == s.len() {
                assert(s[i] != x);
            }
        }
    }
}

/// `extend_unique` keeps a duplicate-free sequence duplicate-free, keeps `s` as a prefix, and
/// holds exactly the elements of `s` and of `xs`.
pub proof fn lemma_extend_unique<T>(s: Seq<T>, xs: Seq<T>)
    requires
        s.no_duplicates(),
    ensures
        extend_unique(s, xs).no_duplicates(),
        s.len() <= extend_unique(s, xs).len(),
        extend_unique(s, xs).take(s.len() as int) == s,
        forall|y: T| #[trigger]
            extend_unique(s, xs).contains(y) <==> (s.contains(y) || xs.contains(y)),
    decreases xs.len(),
{
    if xs.len() == 0 {
        assert(extend_unique(s, xs).take(s.len() as int) =~= s);
    } else {
        let before = extend_unique(s, xs.drop_last());
        lemma_extend_unique(s, xs.drop_last());
        lemma_push_unique(before, xs.last());
        assert(extend_unique(s, xs).take(s.len() as int) =~= before.take(s.len() as int)) by {
            assert(push_unique(before, xs.last()).take(before.len() as int) == before);
        }
        assert forall|y: T| #[trigger]
            extend_unique(s, xs).contains(y) <==> (s.contains(y) || xs.contains(y)) by {
            assert(xs.drop_last().push(xs.last()) =~= xs);
            lemma_push_contains(xs.drop_last(), xs.last(), y);
        }
    }
}

/// Extending by one more element is `push_unique` of that element.
pub proof fn lemma_extend_unique_step<T>(s: Seq<T>, xs: Seq<T>, n: int)
    requires
        0 <= n < xs.len(),
    ensures
        extend_unique(s, xs.take(n + 1)) == push_unique(extend_unique(s, xs.take(n)), xs[n]),
{
    assert(xs.take(n + 1).drop_last() =~= xs.take(n));
}

} // verus!
