//! Ordering of texts the way `String`'s `Ord` orders them, and a stable
//! sort by a text key.
use vstd::prelude::*;

verus! {


/// `a` sorts strictly before `b`: lexicographic order by code point, the
/// order of `String`'s `Ord` (its UTF-8 bytes compare the same way).
pub open spec fn lex_lt(a: Seq<char>, b: Seq<char>) -> bool
    decreases a.len(),
{
    if b.len() == 0 {
        false
    } else if a.len() == 0 {
        true
    } else if (a[0] as int) < (b[0] as int) {
        true
    } else if a[0] == b[0] {
        lex_lt(a.drop_first(), b.drop_first())
    } else {
        false
    }
}

/// No text sorts before itself.
pub proof fn lemma_lex_irreflexive(a: Seq<char>)
    ensures
        !lex_lt(a, a),
    decreases a.len(),
{
    if a.len() > 0 {
        lemma_lex_irreflexive(a.drop_first());
    }
}

/// The order is transitive.
pub proof fn lemma_lex_transitive(a: Seq<char>, b: Seq<char>, c: Seq<char>)
    requires
        lex_lt(a, b),
        lex_lt(b, c),
    ensures
        lex_lt(a, c),
    decreases a.len(),
{
    if a.len() > 0 && b.len() > 0 && c.len() > 0 && a[0] == b[0] && b[0] == c[0] {
        lemma_lex_transitive(a.drop_first(), b.drop_first(), c.drop_first());
    }
}

/// Of two different texts, one sorts before the other.
pub proof fn lemma_lex_total(a: Seq<char>, b: Seq<char>)
    ensures
        a == b || lex_lt(a, b) || lex_lt(b, a),
    decreases a.len(),
{
    if a.len() > 0 && b.len() > 0 {
        if a[0] == b[0] {
            lemma_lex_total(a.drop_first(), b.drop_first());
            if a.drop_first() == b.drop_first() {
                assert(a =~= seq![a[0]] + a.drop_first());
                assert(b =~= seq![b[0]] + b.drop_first());
            }
        } else {
            assert((a[0] as int) != (b[0] as int));
        }
    } else if a.len() == 0 && b.len() == 0 {
        assert(a =~= b);
    }
}

/// Whether `a` sorts strictly before `b`.
pub fn lex_less(a: &Vec<char>, b: &Vec<char>) -> (r: bool)
    ensures
        r == lex_lt(a@, b@),
{
    let mut i: usize = 0;
    assert(a@.skip(0) =~= a@);
    assert(b@.skip(0) =~= b@);
    loop
        invariant
            i <= a@.len(),
            i <= b@.len(),
            lex_lt(a@, b@) == lex_lt(a@.skip(i as int), b@.skip(i as int)),
        decreases a@.len() - i,
    {
        if i == b.len() {
            return false;
        }
        if i == a.len() {
            return true;
        }
        let x = a[i];
        let y = b[i];
        if x < y {
            return true;
        }
        if x != y {
            return false;
        }
        assert(a@.skip(i as int).drop_first() =~= a@.skip(i + 1));
        assert(b@.skip(i as int).drop_first() =~= b@.skip(i + 1));
        i = i + 1;
    }
}

/// `s` with `x` inserted after every element whose key does not sort
/// after `x`'s key.
pub open spec fn insert_by_key<A>(s: Seq<A>, x: A, key: spec_fn(A) -> Seq<char>) -> Seq<A>
    decreases s.len(),
{
    if s.len() == 0 {
        seq![x]
    } else if lex_lt(key(x), key(s[0])) {
        seq![x] + s
    } else {
        seq![s[0]] + insert_by_key(s.drop_first(), x, key)
    }
}

/// `s` sorted by `key`, stably: elements with equal keys keep their order.
pub open spec fn sort_by_key<A>(s: Seq<A>, key: spec_fn(A) -> Seq<char>) -> Seq<A>
    decreases s.len(),
{
    if s.len() == 0 {
        s
    } else {
        insert_by_key(sort_by_key(s.drop_last(), key), s.last(), key)
    }
}

/// Keys never decrease along `s`.
pub open spec fn sorted_by_key<A>(s: Seq<A>, key: spec_fn(A) -> Seq<char>) -> bool {
    forall|i: int, j: int| 0 <= i < j < s.len() ==> !lex_lt(key(s[j]), key(s[i]))
}

/// Inserting keeps the elements, adding `x` once.
pub proof fn lemma_insert_by_key_multiset<A>(s: Seq<A>, x: A, key: spec_fn(A) -> Seq<char>)
    ensures
        insert_by_key(s, x, key).to_multiset() == s.to_multiset().insert(x),
    decreases s.len(),
{
    broadcast use vstd::seq_lib::group_to_multiset_ensures;

    if s.len() == 0 {
        assert(seq![x] =~= Seq::<A>::empty().push(x));
    } else if lex_lt(key(x), key(s[0])) {
        vstd::seq_lib::lemma_multiset_commutative(seq![x], s);
        assert(seq![x] =~= Seq::<A>::empty().push(x));
    } else {
        lemma_insert_by_key_multiset(s.drop_first(), x, key);
        vstd::seq_lib::lemma_multiset_commutative(
            seq![s[0]],
            insert_by_key(s.drop_first(), x, key),
        );
        vstd::seq_lib::lemma_multiset_commutative(seq![s[0]], s.drop_first());
        assert(seq![s[0]] + s.drop_first() =~= s);
    }
}

/// Inserting into a sorted sequence keeps it sorted.
pub proof fn lemma_insert_by_key_sorted<A>(s: Seq<A>, x: A, key: spec_fn(A) -> Seq<char>)
    requires
        sorted_by_key(s, key),
    ensures
        sorted_by_key(insert_by_key(s, x, key), key),
        insert_by_key(s, x, key).len() == s.len() + 1,
        forall|y: A|
            #![trigger insert_by_key(s, x, key).contains(y)]
            insert_by_key(s, x, key).contains(y) ==> y == x || s.contains(y),
    decreases s.len(),
{
    let r = insert_by_key(s, x, key);
    if s.len() == 0 {
    } else if lex_lt(key(x), key(s[0])) {
        assert forall|i: int, j: int| 0 <= i < j < r.len() implies !lex_lt(
            key(r[j]),
            key(r[i]),
        ) by {
            if i == 0 {
                let kj = key(s[j - 1]);
                if j - 1 > 0 {
                    assert(!lex_lt(kj, key(s[0])));
                    lemma_lex_total(kj, key(s[0]));
                    if lex_lt(kj, key(x)) {
                        if kj == key(s[0]) {
                            lemma_lex_transitive(kj, key(x), key(s[0]));
                            lemma_lex_irreflexive(kj);
                        } else {
                            lemma_lex_transitive(key(s[0]), kj, key(x));
                            lemma_lex_transitive(key(s[0]), key(x), key(s[0]));
                            lemma_lex_irreflexive(key(s[0]));
                        }
                    }
                } else {
                    if lex_lt(kj, key(x)) {
                        lemma_lex_transitive(kj, key(x), kj);
                        lemma_lex_irreflexive(kj);
                    }
                }
            } else {
                assert(r[i] == s[i - 1] && r[j] == s[j - 1]);
            }
        }
    } else {
        let t = insert_by_key(s.drop_first(), x, key);
        lemma_insert_by_key_sorted(s.drop_first(), x, key);
        assert forall|i: int, j: int| 0 <= i < j < r.len() implies !lex_lt(
            key(r[j]),
            key(r[i]),
        ) by {
            if i == 0 {
                assert(r[j] == t[j - 1]);
                assert(t.contains(t[j - 1]));
                if t[j - 1] == x {
                } else {
                    assert(s.drop_first().contains(t[j - 1]));
                    let k = choose|k: int| 0 <= k < s.drop_first().len() && s.drop_first()[k] == t[
                        j - 1];
                    assert(s[k + 1] == t[j - 1]);
                }
            } else {
                assert(r[i] == t[i - 1] && r[j] == t[j - 1]);
            }
        }
        assert forall|y: A| #![trigger r.contains(y)] r.contains(y) implies y == x || s.contains(
            y,
        ) by {
            let k = choose|k: int| 0 <= k < r.len() && r[k] == y;
            if k == 0 {
                assert(s[0] == y);
            } else {
                assert(t[k - 1] == y);
                assert(t.contains(y));
                if y != x {
                    let m = choose|m: int| 0 <= m < s.drop_first().len() && s.drop_first()[m] == y;
                    assert(s[m + 1] == y);
                }
            }
        }
    }
}

/// Law: the stable sort is sorted and holds the same elements.
pub proof fn law_sort_by_key<A>(s: Seq<A>, key: spec_fn(A) -> Seq<char>)
    ensures
        sorted_by_key(sort_by_key(s, key), key),
        sort_by_key(s, key).to_multiset() == s.to_multiset(),
        sort_by_key(s, key).len() == s.len(),
    decreases s.len(),
{
    broadcast use vstd::seq_lib::group_to_multiset_ensures;

    if s.len() > 0 {
        law_sort_by_key(s.drop_last(), key);
        lemma_insert_by_key_sorted(sort_by_key(s.drop_last(), key), s.last(), key);
        lemma_insert_by_key_multiset(sort_by_key(s.drop_last(), key), s.last(), key);
        assert(s.drop_last().push(s.last()) =~= s);
    }
}

/// Position at which `insert_by_key` puts `x`, for an exec caller:
/// `s` splits into the part kept before `x` and the rest.
pub proof fn lemma_insert_split<A>(s: Seq<A>, x: A, key: spec_fn(A) -> Seq<char>, p: int)
    requires
        0 <= p <= s.len(),
        forall|i: int| 0 <= i < p ==> !lex_lt(key(x), #[trigger] key(s[i])),
        p == s.len() || lex_lt(key(x), key(s[p])),
    ensures
        insert_by_key(s, x, key) == s.take(p) + seq![x] + s.skip(p),
    decreases p,
{
    if p == 0 {
        if s.len() == 0 {
            assert(s.take(0) + seq![x] + s.skip(0) =~= seq![x]);
        } else {
            assert(s.take(0) + seq![x] + s.skip(0) =~= seq![x] + s);
        }
    } else {
        let t = s.drop_first();
        assert(!lex_lt(key(x), key(s[0])));
        assert forall|i: int| 0 <= i < p - 1 implies !lex_lt(key(x), #[trigger] key(t[i])) by {
            assert(t[i] == s[i + 1]);
            assert(!lex_lt(key(x), key(s[i + 1])));
        }
        if p - 1 < t.len() {
            assert(t[p - 1] == s[p]);
        }
        lemma_insert_split(t, x, key, p - 1);
        assert(insert_by_key(s, x, key) == seq![s[0]] + insert_by_key(t, x, key));
        assert(seq![s[0]] + (t.take(p - 1) + seq![x] + t.skip(p - 1)) =~= s.take(p) + seq![x]
            + s.skip(p));
    }
}

} // verus!
