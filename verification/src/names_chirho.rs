//! Name-keyed tables. Entries keep their insertion order; a name's first entry
//! is the one that counts.
use vstd::prelude::*;

verus! {

/// Position of the first occurrence of `x` in `s`, or -1.
pub open spec fn first_pos<A>(s: Seq<A>, x: A) -> int
    decreases s.len(),
{
    if s.len() == 0 {
        -1
    } else if s[0] == x {
        0
    } else {
        let k = first_pos(s.drop_first(), x);
        if k < 0 { -1 } else { k + 1 }
    }
}

pub proof fn lemma_first_pos<A>(s: Seq<A>, x: A)
    ensures
        -1 <= first_pos(s, x) < s.len(),
        (first_pos(s, x) >= 0) == s.contains(x),
        first_pos(s, x) >= 0 ==> s[first_pos(s, x)] == x,
        forall|j: int| 0 <= j < first_pos(s, x) ==> s[j] != x,
    decreases s.len(),
{
    if s.len() > 0 {
        lemma_first_pos(s.drop_first(), x);
        if s[0] != x {
            if s.contains(x) {
                let k = choose|k: int| 0 <= k < s.len() && s[k] == x;
                assert(s.drop_first()[k - 1] == x);
            }
            if s.drop_first().contains(x) {
                let k = choose|k: int| 0 <= k < s.drop_first().len() && s.drop_first()[k] == x;
                assert(s[k + 1] == x);
            }
            assert forall|j: int| 0 <= j < first_pos(s, x) implies s[j] != x by {
                if j > 0 {
                    assert(s[j] == s.drop_first()[j - 1]);
                }
            }
        }
    }
}

pub proof fn lemma_first_pos_push<A>(s: Seq<A>, y: A, x: A)
    ensures
        first_pos(s.push(y), x) == (if s.contains(x) { first_pos(s, x) } else if x == y { s.len() as int } else { -1 }),
{
    lemma_first_pos(s, x);
    lemma_first_pos(s.push(y), x);
    let k = first_pos(s.push(y), x);
    if s.contains(x) {
        let k0 = first_pos(s, x);
        assert(s.push(y)[k0] == x);
        if k < k0 {
            assert(s[k] == x);
        }
    } else if x == y {
        assert(s.push(y)[s.len() as int] == x);
        if k < s.len() && k >= 0 {
            assert(s[k] == x);
        }
    } else {
        if k >= 0 {
            if k < s.len() {
                assert(s[k] == x);
            }
        }
    }
}

/// When `s` and `t` agree on which positions hold `x`, the first one agrees.
pub proof fn lemma_first_pos_update<A>(s: Seq<A>, i: int, y: A, x: A)
    requires
        0 <= i < s.len(),
        (s[i] == x) == (y == x),
    ensures
        first_pos(s.update(i, y), x) == first_pos(s, x),
    decreases s.len(),
{
    if i > 0 {
        assert(s.update(i, y).drop_first() =~= s.drop_first().update(i - 1, y));
        assert(s.update(i, y)[0] == s[0]);
        lemma_first_pos_update(s.drop_first(), i - 1, y, x);
    } else {
        assert(s.update(i, y).drop_first() =~= s.drop_first());
        assert(s.update(i, y)[0] == y);
    }
}

/// The names of the entries of a table.
pub open spec fn names_of<V>(es: Seq<(String, V)>) -> Seq<Seq<char>> {
    es.map_values(|e: (String, V)| e.0@)
}

/// Where `name` sits in `es`, if anywhere.
pub fn find_name_chirho<V>(es: &Vec<(String, V)>, name_chirho: &str) -> (r: Option<usize>)
    ensures
        match r {
            Some(k) => k == first_pos(names_of(es@), name_chirho@),
            None => first_pos(names_of(es@), name_chirho@) == -1,
        },
{
    let ghost ns = names_of(es@);
    proof { assert(ns.skip(0) =~= ns); }
    let mut i: usize = 0;
    while i < es.len()
        invariant
            i <= es.len(),
            ns == names_of(es@),
            first_pos(ns, name_chirho@) == (if first_pos(ns.skip(i as int), name_chirho@) < 0 { -1 } else { first_pos(ns.skip(i as int), name_chirho@) + i }),
        decreases es.len() - i,
    {
        proof {
            assert(ns.skip(i as int)[0] == es@[i as int].0@);
            assert(ns.skip(i as int).drop_first() =~= ns.skip(i + 1));
        }
        if crate::ty_chirho::str_eq_chirho(es[i].0.as_str(), name_chirho) {
            return Some(i);
        }
        i = i + 1;
    }
    proof { assert(ns.skip(i as int).len() == 0); }
    None
}

}
