//! Unification: the most general substitution that makes two types equal,
//! or the finding that none exists. Types with quantifiers are unified only
//! with themselves.
use vstd::prelude::*;
use crate::subst_chirho::{subst_apply, subst_under, subst_under_seq, SubstChirho};
use crate::ty_chirho::{copy_tys_chirho, lemma_tys_view, lemma_tys_view_push, tys_view, MultChirho, TyChirho, TyV, TyVarChirho};

verus! {

/// Whether a type has no quantifier anywhere.
pub open spec fn qf(t: TyV) -> bool
    decreases t,
{
    match t {
        TyV::Forall(..) => false,
        TyV::RequiredForall(..) => false,
        TyV::App(f, a) => qf(*f) && qf(*a),
        TyV::KindApp(f, a) => qf(*f) && qf(*a),
        TyV::Fun(a, b, _) => qf(*a) && qf(*b),
        TyV::List(e) => qf(*e),
        TyV::Tuple(es) => qf_seq(es),
        _ => true,
    }
}

pub open spec fn qf_seq(es: Seq<TyV>) -> bool
    decreases es,
{
    es.len() == 0 || (qf_seq(es.drop_last()) && qf(es.last()))
}

/// The variables of a quantifier-free type.
pub open spec fn tvs(t: TyV) -> Set<u32>
    decreases t,
{
    match t {
        TyV::Var(v) => set![v],
        TyV::App(f, a) => tvs(*f).union(tvs(*a)),
        TyV::KindApp(f, a) => tvs(*f).union(tvs(*a)),
        TyV::Fun(a, b, _) => tvs(*a).union(tvs(*b)),
        TyV::List(e) => tvs(*e),
        TyV::Tuple(es) => tvs_seq(es),
        _ => Set::empty(),
    }
}

pub open spec fn tvs_seq(es: Seq<TyV>) -> Set<u32>
    decreases es,
{
    if es.len() == 0 { Set::empty() } else { tvs_seq(es.drop_last()).union(tvs(es.last())) }
}

/// The number of nodes of a type.
pub open spec fn tsize(t: TyV) -> nat
    decreases t,
{
    match t {
        TyV::App(f, a) => 1 + tsize(*f) + tsize(*a),
        TyV::KindApp(f, a) => 1 + tsize(*f) + tsize(*a),
        TyV::Fun(a, b, _) => 1 + tsize(*a) + tsize(*b),
        TyV::List(e) => 1 + tsize(*e),
        TyV::Tuple(es) => 1 + tsize_seq(es),
        _ => 1,
    }
}

pub open spec fn tsize_seq(es: Seq<TyV>) -> nat
    decreases es,
{
    if es.len() == 0 { 0 } else { tsize_seq(es.drop_last()) + tsize(es.last()) }
}

/// What `m` makes of variable `v`.
pub open spec fn image(m: Map<u32, TyV>, v: u32) -> TyV {
    if m.dom().contains(v) { m[v] } else { TyV::Var(v) }
}

/// `m` makes the two lists equal, place by place.
pub open spec fn unifies_all(l1: Seq<TyV>, l2: Seq<TyV>, m: Map<u32, TyV>) -> bool {
    forall|i: int| 0 <= i < l1.len() ==> #[trigger] subst_apply(l1[i], m) == subst_apply(l2[i], m)
}

/// Whether some substitution makes `t1` and `t2` equal.
pub open spec fn unifiable(t1: TyV, t2: TyV) -> bool {
    exists|m: Map<u32, TyV>| #[trigger] subst_apply(t1, m) == subst_apply(t2, m)
}

/// `m` is an instance of `s`: following `s` and then `m` is following `m`.
pub open spec fn absorbs(m: Map<u32, TyV>, s: Map<u32, TyV>) -> bool {
    forall|v: u32| #[trigger] s.dom().contains(v) ==> subst_apply(s[v], m) == image(m, v)
}

/// The single binding of `a` to `u`.
pub open spec fn single(a: u32, u: TyV) -> Map<u32, TyV> {
    Map::empty().insert(a, u)
}

/// The variables of a pair of lists of types.
pub open spec fn pair_vars(l1: Seq<TyV>, l2: Seq<TyV>) -> Set<u32> {
    tvs_seq(l1).union(tvs_seq(l2))
}

pub open spec fn pair_size(l1: Seq<TyV>, l2: Seq<TyV>) -> nat {
    tsize_seq(l1) + tsize_seq(l2)
}

pub proof fn lemma_tvs_finite(t: TyV)
    ensures
        tvs(t).finite(),
    decreases t,
{
    match t {
        TyV::App(f, a) => { lemma_tvs_finite(*f); lemma_tvs_finite(*a); },
        TyV::KindApp(f, a) => { lemma_tvs_finite(*f); lemma_tvs_finite(*a); },
        TyV::Fun(a, b, _) => { lemma_tvs_finite(*a); lemma_tvs_finite(*b); },
        TyV::List(e) => lemma_tvs_finite(*e),
        TyV::Tuple(es) => lemma_tvs_seq_finite(es),
        _ => {},
    }
}

pub proof fn lemma_tvs_seq_finite(es: Seq<TyV>)
    ensures
        tvs_seq(es).finite(),
    decreases es,
{
    if es.len() > 0 {
        lemma_tvs_seq_finite(es.drop_last());
        lemma_tvs_finite(es.last());
    }
}

/// Variables, size and quantifier-freedom of a concatenation.
pub proof fn lemma_seq_concat(a: Seq<TyV>, b: Seq<TyV>)
    ensures
        tvs_seq(a + b) == tvs_seq(a).union(tvs_seq(b)),
        tsize_seq(a + b) == tsize_seq(a) + tsize_seq(b),
        qf_seq(a + b) == (qf_seq(a) && qf_seq(b)),
    decreases b.len(),
{
    if b.len() == 0 {
        assert(a + b =~= a);
        assert(tvs_seq(a).union(Set::empty()) =~= tvs_seq(a));
    } else {
        lemma_seq_concat(a, b.drop_last());
        assert((a + b).drop_last() =~= a + b.drop_last());
        assert((a + b).last() == b.last());
        assert(tvs_seq(a).union(tvs_seq(b.drop_last())).union(tvs(b.last()))
            =~= tvs_seq(a).union(tvs_seq(b.drop_last()).union(tvs(b.last()))));
    }
}

/// A list with its first element split off.
pub proof fn lemma_seq_first(l: Seq<TyV>)
    requires
        l.len() > 0,
    ensures
        l =~= seq![l[0]] + l.skip(1),
        tvs_seq(l) == tvs(l[0]).union(tvs_seq(l.skip(1))),
        tsize_seq(l) == tsize(l[0]) + tsize_seq(l.skip(1)),
        qf_seq(l) == (qf(l[0]) && qf_seq(l.skip(1))),
{
    let s1 = seq![l[0]];
    assert(l == s1 + l.skip(1));
    lemma_seq_concat(s1, l.skip(1));
    assert(s1.drop_last() =~= Seq::<TyV>::empty());
    assert(s1.last() == l[0]);
    assert(s1.drop_last().len() == 0);
    assert(tvs_seq(s1.drop_last()) == Set::<u32>::empty());
    assert(tsize_seq(s1.drop_last()) == 0);
    assert(qf_seq(s1.drop_last()));
    assert(Set::<u32>::empty().union(tvs(l[0])) =~= tvs(l[0]));
    assert(tvs_seq(s1) == tvs(l[0]));
    assert(tsize_seq(s1) == tsize(l[0]));
}

/// The list of two types.
pub proof fn lemma_seq_two(x: TyV, y: TyV)
    ensures
        tvs_seq(seq![x, y]) == tvs(x).union(tvs(y)),
        tsize_seq(seq![x, y]) == tsize(x) + tsize(y),
        qf_seq(seq![x, y]) == (qf(x) && qf(y)),
{
    let s = seq![x, y];
    assert(s.drop_last() =~= seq![x]);
    assert(s.last() == y);
    assert(seq![x].drop_last() =~= Seq::<TyV>::empty());
    assert(seq![x].last() == x);
    assert(seq![x].drop_last().len() == 0);
    assert(tvs_seq(seq![x].drop_last()) == Set::<u32>::empty());
    assert(tsize_seq(seq![x].drop_last()) == 0);
    assert(qf_seq(seq![x].drop_last()));
    assert(qf_seq(seq![x]) == qf(x));
    assert(qf_seq(s) == (qf_seq(seq![x]) && qf(y)));
    assert(Set::<u32>::empty().union(tvs(x)) =~= tvs(x));
    assert(tvs_seq(seq![x]) == tvs(x));
    assert(tsize_seq(seq![x]) == tsize(x));
}

/// Every node of a type counts.
pub proof fn lemma_tsize_pos(t: TyV)
    ensures
        tsize(t) >= 1,
{
}

/// Applying a single binding: the variables are the others and those of
/// the bound type; quantifier-freedom is kept; without the variable nothing
/// changes.
pub proof fn lemma_single(t: TyV, a: u32, u: TyV)
    requires
        qf(t),
    ensures
        tvs(subst_apply(t, single(a, u))).subset_of(tvs(t).remove(a).union(tvs(u))),
        qf(u) ==> qf(subst_apply(t, single(a, u))),
        !tvs(t).contains(a) ==> subst_apply(t, single(a, u)) == t,
    decreases t,
{
    let m = single(a, u);
    match t {
        TyV::Var(v) => {
            if v == a {
                assert(tvs(t).remove(a).union(tvs(u)) =~= Set::<u32>::empty().union(tvs(u)));
            }
        },
        TyV::App(f, x) => {
            lemma_single(*f, a, u);
            lemma_single(*x, a, u);
        },
        TyV::KindApp(f, x) => {
            lemma_single(*f, a, u);
            lemma_single(*x, a, u);
        },
        TyV::Fun(x, y, mu) => {
            lemma_single(*x, a, u);
            lemma_single(*y, a, u);
        },
        TyV::List(e) => lemma_single(*e, a, u),
        TyV::Tuple(es) => lemma_single_seq(es, a, u),
        _ => {},
    }
}

pub proof fn lemma_single_seq(es: Seq<TyV>, a: u32, u: TyV)
    requires
        qf_seq(es),
    ensures
        tvs_seq(subst_under_seq(es, single(a, u), Seq::empty())).subset_of(tvs_seq(es).remove(a).union(tvs(u))),
        qf(u) ==> qf_seq(subst_under_seq(es, single(a, u), Seq::empty())),
        !tvs_seq(es).contains(a) ==> subst_under_seq(es, single(a, u), Seq::empty()) == es,
    decreases es,
{
    if es.len() > 0 {
        lemma_single_seq(es.drop_last(), a, u);
        lemma_single(es.last(), a, u);
        let r = subst_under_seq(es, single(a, u), Seq::empty());
        assert(r.drop_last() =~= subst_under_seq(es.drop_last(), single(a, u), Seq::empty()));
        assert(r.last() == subst_apply(es.last(), single(a, u)));
        if !tvs_seq(es).contains(a) {
            assert(es.drop_last().push(es.last()) =~= es);
        }
    }
}

/// Applying a substitution extended by `a ↦ s'(u)` is applying `a ↦ u`
/// and then `s'`, where `s'` leaves `a` alone.
pub proof fn lemma_compose_single(t: TyV, a: u32, u: TyV, s: Map<u32, TyV>)
    requires
        qf(t),
        !s.dom().contains(a),
    ensures
        subst_apply(t, s.insert(a, subst_apply(u, s))) == subst_apply(subst_apply(t, single(a, u)), s),
    decreases t,
{
    match t {
        TyV::App(f, x) => { lemma_compose_single(*f, a, u, s); lemma_compose_single(*x, a, u, s); },
        TyV::KindApp(f, x) => { lemma_compose_single(*f, a, u, s); lemma_compose_single(*x, a, u, s); },
        TyV::Fun(x, y, mu) => { lemma_compose_single(*x, a, u, s); lemma_compose_single(*y, a, u, s); },
        TyV::List(e) => lemma_compose_single(*e, a, u, s),
        TyV::Tuple(es) => lemma_compose_single_seq(es, a, u, s),
        _ => {},
    }
}

pub proof fn lemma_compose_single_seq(es: Seq<TyV>, a: u32, u: TyV, s: Map<u32, TyV>)
    requires
        qf_seq(es),
        !s.dom().contains(a),
    ensures
        subst_under_seq(es, s.insert(a, subst_apply(u, s)), Seq::empty())
            == subst_under_seq(subst_under_seq(es, single(a, u), Seq::empty()), s, Seq::empty()),
    decreases es,
{
    if es.len() > 0 {
        lemma_compose_single_seq(es.drop_last(), a, u, s);
        lemma_compose_single(es.last(), a, u, s);
        let mid = subst_under_seq(es, single(a, u), Seq::empty());
        assert(mid.drop_last() =~= subst_under_seq(es.drop_last(), single(a, u), Seq::empty()));
        assert(mid.last() == subst_apply(es.last(), single(a, u)));
    }
}

/// An instance `m` of `s` sees through `s`.
pub proof fn lemma_absorb(t: TyV, s: Map<u32, TyV>, m: Map<u32, TyV>)
    requires
        qf(t),
        absorbs(m, s),
    ensures
        subst_apply(subst_apply(t, s), m) == subst_apply(t, m),
    decreases t,
{
    match t {
        TyV::Var(v) => {
            if s.dom().contains(v) {
                assert(subst_apply(s[v], m) == image(m, v));
            }
        },
        TyV::App(f, x) => { lemma_absorb(*f, s, m); lemma_absorb(*x, s, m); },
        TyV::KindApp(f, x) => { lemma_absorb(*f, s, m); lemma_absorb(*x, s, m); },
        TyV::Fun(x, y, mu) => { lemma_absorb(*x, s, m); lemma_absorb(*y, s, m); },
        TyV::List(e) => lemma_absorb(*e, s, m),
        TyV::Tuple(es) => lemma_absorb_seq(es, s, m),
        _ => {},
    }
}

pub proof fn lemma_absorb_seq(es: Seq<TyV>, s: Map<u32, TyV>, m: Map<u32, TyV>)
    requires
        qf_seq(es),
        absorbs(m, s),
    ensures
        subst_under_seq(subst_under_seq(es, s, Seq::empty()), m, Seq::empty()) == subst_under_seq(es, m, Seq::empty()),
    decreases es,
{
    if es.len() > 0 {
        lemma_absorb_seq(es.drop_last(), s, m);
        lemma_absorb(es.last(), s, m);
        let mid = subst_under_seq(es, s, Seq::empty());
        assert(mid.drop_last() =~= subst_under_seq(es.drop_last(), s, Seq::empty()));
        assert(mid.last() == subst_apply(es.last(), s));
    }
}

/// A type holding variable `a` is at least as large, after any
/// substitution, as what `a` becomes; strictly larger unless it is `a`.
pub proof fn lemma_occurs(t: TyV, a: u32, m: Map<u32, TyV>)
    requires
        qf(t),
        tvs(t).contains(a),
    ensures
        tsize(subst_apply(t, m)) >= tsize(image(m, a)),
        t != TyV::Var(a) ==> tsize(subst_apply(t, m)) > tsize(image(m, a)),
    decreases t,
{
    match t {
        TyV::App(f, x) => {
            if tvs(*f).contains(a) { lemma_occurs(*f, a, m); } else { lemma_occurs(*x, a, m); }
        },
        TyV::KindApp(f, x) => {
            if tvs(*f).contains(a) { lemma_occurs(*f, a, m); } else { lemma_occurs(*x, a, m); }
        },
        TyV::Fun(x, y, mu) => {
            if tvs(*x).contains(a) { lemma_occurs(*x, a, m); } else { lemma_occurs(*y, a, m); }
        },
        TyV::List(e) => lemma_occurs(*e, a, m),
        TyV::Tuple(es) => lemma_occurs_seq(es, a, m),
        _ => {},
    }
}

pub proof fn lemma_occurs_seq(es: Seq<TyV>, a: u32, m: Map<u32, TyV>)
    requires
        qf_seq(es),
        tvs_seq(es).contains(a),
    ensures
        tsize_seq(subst_under_seq(es, m, Seq::empty())) >= tsize(image(m, a)),
    decreases es,
{
    let r = subst_under_seq(es, m, Seq::empty());
    assert(r.drop_last() =~= subst_under_seq(es.drop_last(), m, Seq::empty()));
    if tvs(es.last()).contains(a) {
        lemma_occurs(es.last(), a, m);
    } else {
        lemma_occurs_seq(es.drop_last(), a, m);
    }
}


/// A substitution applied to a list keeps its length and works place by
/// place.
pub proof fn lemma_apply_seq_index(es: Seq<TyV>, m: Map<u32, TyV>)
    ensures
        subst_under_seq(es, m, Seq::empty()).len() == es.len(),
        forall|j: int| 0 <= j < es.len() ==> #[trigger] subst_under_seq(es, m, Seq::empty())[j] == subst_apply(es[j], m),
    decreases es.len(),
{
    if es.len() > 0 {
        lemma_apply_seq_index(es.drop_last(), m);
        assert forall|j: int| 0 <= j < es.len() implies #[trigger] subst_under_seq(es, m, Seq::empty())[j] == subst_apply(es[j], m) by {
            if j < es.len() - 1 {
                assert(es.drop_last()[j] == es[j]);
            }
        }
    }
}

/// Whether a type has no quantifier anywhere.
pub fn is_quantifier_free_chirho(t: &TyChirho) -> (r: bool)
    ensures
        r == qf(t@),
    decreases t, 1nat,
{
    match t {
        TyChirho::ForallChirho { .. } => false,
        TyChirho::RequiredForallChirho { .. } => false,
        TyChirho::AppChirho(f, a) => is_quantifier_free_chirho(f) && is_quantifier_free_chirho(a),
        TyChirho::KindAppChirho(f, a) => is_quantifier_free_chirho(f) && is_quantifier_free_chirho(a),
        TyChirho::FunChirho(a, b, _) => is_quantifier_free_chirho(a) && is_quantifier_free_chirho(b),
        TyChirho::ListChirho(e) => is_quantifier_free_chirho(e),
        TyChirho::TupleChirho(es) => all_quantifier_free_chirho(es),
        _ => true,
    }
}

fn all_quantifier_free_chirho(es: &Vec<TyChirho>) -> (r: bool)
    ensures
        r == qf_seq(tys_view(es@)),
    decreases es@, 0nat,
{
    let ghost v = tys_view(es@);
    proof { lemma_tys_view(es@); assert(v.take(0) =~= Seq::<TyV>::empty()); }
    let mut i: usize = 0;
    while i < es.len()
        invariant
            i <= es.len(),
            v == tys_view(es@),
            v.len() == es@.len(),
            forall|j: int| 0 <= j < es@.len() ==> #[trigger] v[j] == es@[j]@,
            qf_seq(v.take(i as int)),
        decreases es.len() - i,
    {
        proof {
            assert(decreases_to!(es@ => es@[i as int]));
            assert(v.take(i + 1).drop_last() =~= v.take(i as int));
        }
        if !is_quantifier_free_chirho(&es[i]) {
            proof {
                lemma_qf_seq_prefix(v, i + 1);
            }
            return false;
        }
        i = i + 1;
    }
    proof { assert(v.take(i as int) =~= v); }
    true
}

/// A list whose prefix has a quantifier has one.
proof fn lemma_qf_seq_prefix(v: Seq<TyV>, k: int)
    requires
        0 <= k <= v.len(),
        !qf_seq(v.take(k)),
    ensures
        !qf_seq(v),
    decreases v.len() - k,
{
    if k < v.len() {
        assert(v.take(k + 1).drop_last() =~= v.take(k));
        lemma_qf_seq_prefix(v, k + 1);
    } else {
        assert(v.take(k) =~= v);
    }
}

/// Whether variable `a` occurs in a quantifier-free type.
pub fn occurs_chirho(a: u32, t: &TyChirho) -> (r: bool)
    ensures
        r == tvs(t@).contains(a),
    decreases t, 1nat,
{
    match t {
        TyChirho::VarChirho(v) => v.0 == a,
        TyChirho::AppChirho(f, x) => occurs_chirho(a, f) || occurs_chirho(a, x),
        TyChirho::KindAppChirho(f, x) => occurs_chirho(a, f) || occurs_chirho(a, x),
        TyChirho::FunChirho(x, y, _) => occurs_chirho(a, x) || occurs_chirho(a, y),
        TyChirho::ListChirho(e) => occurs_chirho(a, e),
        TyChirho::TupleChirho(es) => occurs_seq_chirho(a, es),
        _ => false,
    }
}

fn occurs_seq_chirho(a: u32, es: &Vec<TyChirho>) -> (r: bool)
    ensures
        r == tvs_seq(tys_view(es@)).contains(a),
    decreases es@, 0nat,
{
    let ghost v = tys_view(es@);
    proof { lemma_tys_view(es@); assert(v.take(0) =~= Seq::<TyV>::empty()); }
    let mut i: usize = 0;
    while i < es.len()
        invariant
            i <= es.len(),
            v == tys_view(es@),
            v.len() == es@.len(),
            forall|j: int| 0 <= j < es@.len() ==> #[trigger] v[j] == es@[j]@,
            !tvs_seq(v.take(i as int)).contains(a),
        decreases es.len() - i,
    {
        proof {
            assert(decreases_to!(es@ => es@[i as int]));
            assert(v.take(i + 1).drop_last() =~= v.take(i as int));
        }
        if occurs_chirho(a, &es[i]) {
            proof {
                lemma_seq_concat(v.take(i + 1), v.skip(i + 1));
                assert(v.take(i + 1) + v.skip(i + 1) =~= v);
            }
            return true;
        }
        i = i + 1;
    }
    proof { assert(v.take(i as int) =~= v); }
    false
}

/// The list without its first element.
fn tail_chirho(l: &Vec<TyChirho>) -> (r: Vec<TyChirho>)
    requires
        l@.len() > 0,
    ensures
        tys_view(r@) == tys_view(l@).skip(1),
{
    let mut out: Vec<TyChirho> = Vec::new();
    let mut i: usize = 1;
    proof { lemma_tys_view(l@); assert(tys_view(out@) =~= Seq::<TyV>::empty()); }
    while i < l.len()
        invariant
            1 <= i <= l.len(),
            tys_view(l@).len() == l@.len(),
            forall|j: int| 0 <= j < l@.len() ==> #[trigger] tys_view(l@)[j] == l@[j]@,
            tys_view(out@) == tys_view(l@).subrange(1, i as int),
        decreases l.len() - i,
    {
        let c = l[i].copy_chirho();
        proof {
            lemma_tys_view_push(out@, c);
            assert(tys_view(l@).subrange(1, i + 1) =~= tys_view(l@).subrange(1, i as int).push(l@[i as int]@));
        }
        out.push(c);
        i = i + 1;
    }
    proof { assert(tys_view(l@).subrange(1, i as int) =~= tys_view(l@).skip(1)); }
    out
}

/// `front` followed by a copy of `rest`.
fn prepend_chirho(front: Vec<TyChirho>, rest: &Vec<TyChirho>) -> (r: Vec<TyChirho>)
    ensures
        tys_view(r@) == tys_view(front@) + tys_view(rest@),
{
    let mut out = front;
    let ghost f = tys_view(out@);
    let copied = copy_tys_chirho(rest);
    let mut i: usize = 0;
    proof {
        lemma_tys_view(copied@);
        assert(f + tys_view(copied@).take(0) =~= f);
    }
    while i < copied.len()
        invariant
            i <= copied.len(),
            tys_view(copied@) == tys_view(rest@),
            tys_view(copied@).len() == copied@.len(),
            forall|j: int| 0 <= j < copied@.len() ==> #[trigger] tys_view(copied@)[j] == copied@[j]@,
            tys_view(out@) == f + tys_view(copied@).take(i as int),
        decreases copied.len() - i,
    {
        let c = copied[i].copy_chirho();
        proof {
            lemma_tys_view_push(out@, c);
            assert(tys_view(copied@).take(i + 1) =~= tys_view(copied@).take(i as int).push(copied@[i as int]@));
            assert(f + tys_view(copied@).take(i + 1) =~= (f + tys_view(copied@).take(i as int)).push(copied@[i as int]@));
        }
        out.push(c);
        i = i + 1;
    }
    proof { assert(tys_view(copied@).take(i as int) =~= tys_view(copied@)); }
    out
}

/// A substitution applied to each type of a list.
fn apply_all_chirho(s: &SubstChirho, l: &Vec<TyChirho>) -> (r: Vec<TyChirho>)
    ensures
        tys_view(r@) == subst_under_seq(tys_view(l@), s.map(), Seq::empty()),
{
    let ghost v = tys_view(l@);
    let mut out: Vec<TyChirho> = Vec::new();
    let mut i: usize = 0;
    proof {
        lemma_tys_view(l@);
        lemma_apply_seq_index(v, s.map());
        assert(tys_view(out@) =~= Seq::<TyV>::empty());
    }
    while i < l.len()
        invariant
            i <= l.len(),
            v == tys_view(l@),
            v.len() == l@.len(),
            forall|j: int| 0 <= j < l@.len() ==> #[trigger] v[j] == l@[j]@,
            subst_under_seq(v, s.map(), Seq::empty()).len() == v.len(),
            forall|j: int| 0 <= j < v.len() ==> #[trigger] subst_under_seq(v, s.map(), Seq::empty())[j] == subst_apply(v[j], s.map()),
            tys_view(out@) == subst_under_seq(v, s.map(), Seq::empty()).take(i as int),
        decreases l.len() - i,
    {
        let c = s.apply_ty_chirho(&l[i]);
        proof {
            lemma_tys_view_push(out@, c);
            let w = subst_under_seq(v, s.map(), Seq::empty());
            assert(w.take(i + 1) =~= w.take(i as int).push(w[i as int]));
        }
        out.push(c);
        i = i + 1;
    }
    proof { assert(subst_under_seq(v, s.map(), Seq::empty()).take(i as int) =~= subst_under_seq(v, s.map(), Seq::empty())); }
    out
}

/// What the most general unifier of two lists promises: it makes them
/// equal place by place, binds only their variables, and every other
/// substitution that makes them equal is an instance of it; or, where it is
/// missing, that no substitution makes them equal.
pub open spec fn mgu_outcome(l1: Seq<TyV>, l2: Seq<TyV>, r: Option<Map<u32, TyV>>) -> bool {
    match r {
        Some(s) => unifies_all(l1, l2, s)
            && s.dom().subset_of(pair_vars(l1, l2))
            && forall|m: Map<u32, TyV>| #[trigger] unifies_all(l1, l2, m) ==> absorbs(m, s),
        None => forall|m: Map<u32, TyV>| !#[trigger] unifies_all(l1, l2, m),
    }
}

/// The map of an optional substitution.
pub open spec fn opt_map(r: Option<SubstChirho>) -> Option<Map<u32, TyV>> {
    match r {
        Some(s) => Some(s.map()),
        None => None,
    }
}

pub proof fn lemma_pair_vars_finite(l1: Seq<TyV>, l2: Seq<TyV>)
    ensures
        pair_vars(l1, l2).finite(),
{
    lemma_tvs_seq_finite(l1);
    lemma_tvs_seq_finite(l2);
}


/// The immediate parts of a type.
pub open spec fn children(t: TyV) -> Seq<TyV> {
    match t {
        TyV::App(f, a) => seq![*f, *a],
        TyV::KindApp(f, a) => seq![*f, *a],
        TyV::Fun(a, b, _) => seq![*a, *b],
        TyV::List(e) => seq![*e],
        TyV::Tuple(es) => es,
        _ => Seq::empty(),
    }
}

/// Two types built by the same constructor (arrows of one multiplicity,
/// tuples of one length).
pub open spec fn same_shape(t1: TyV, t2: TyV) -> bool {
    match (t1, t2) {
        (TyV::App(..), TyV::App(..)) => true,
        (TyV::KindApp(..), TyV::KindApp(..)) => true,
        (TyV::Fun(_, _, m1), TyV::Fun(_, _, m2)) => m1 == m2,
        (TyV::List(_), TyV::List(_)) => true,
        (TyV::Tuple(es1), TyV::Tuple(es2)) => es1.len() == es2.len(),
        _ => false,
    }
}

pub proof fn lemma_qf_seq_index(es: Seq<TyV>)
    requires
        qf_seq(es),
    ensures
        forall|j: int| 0 <= j < es.len() ==> #[trigger] qf(es[j]),
    decreases es.len(),
{
    if es.len() > 0 {
        lemma_qf_seq_index(es.drop_last());
        assert forall|j: int| 0 <= j < es.len() implies #[trigger] qf(es[j]) by {
            if j < es.len() - 1 { assert(es.drop_last()[j] == es[j]); }
        }
    }
}

/// Lists are unified by their two parts.
pub proof fn lemma_unifies_concat(a1: Seq<TyV>, b1: Seq<TyV>, a2: Seq<TyV>, b2: Seq<TyV>, m: Map<u32, TyV>)
    requires
        a1.len() == a2.len(),
        b1.len() == b2.len(),
    ensures
        unifies_all(a1 + b1, a2 + b2, m) == (unifies_all(a1, a2, m) && unifies_all(b1, b2, m)),
{
    if unifies_all(a1 + b1, a2 + b2, m) {
        assert forall|i: int| 0 <= i < a1.len() implies #[trigger] subst_apply(a1[i], m) == subst_apply(a2[i], m) by {
            assert(subst_apply((a1 + b1)[i], m) == subst_apply((a2 + b2)[i], m));
        }
        assert forall|i: int| 0 <= i < b1.len() implies #[trigger] subst_apply(b1[i], m) == subst_apply(b2[i], m) by {
            assert(subst_apply((a1 + b1)[a1.len() + i], m) == subst_apply((a2 + b2)[a1.len() + i], m));
        }
    }
    if unifies_all(a1, a2, m) && unifies_all(b1, b2, m) {
        assert forall|i: int| 0 <= i < (a1 + b1).len() implies #[trigger] subst_apply((a1 + b1)[i], m) == subst_apply((a2 + b2)[i], m) by {
            if i < a1.len() {
                assert(subst_apply(a1[i], m) == subst_apply(a2[i], m));
            } else {
                assert(subst_apply(b1[i - a1.len()], m) == subst_apply(b2[i - a1.len()], m));
            }
        }
    }
}

/// Two types of one shape are made equal exactly when their parts are.
pub proof fn lemma_shape(h1: TyV, h2: TyV)
    requires
        same_shape(h1, h2),
        qf(h1),
        qf(h2),
    ensures
        tvs(h1) == tvs_seq(children(h1)),
        tvs(h2) == tvs_seq(children(h2)),
        tsize(h1) == 1 + tsize_seq(children(h1)),
        tsize(h2) == 1 + tsize_seq(children(h2)),
        qf_seq(children(h1)),
        qf_seq(children(h2)),
        children(h1).len() == children(h2).len(),
        forall|m: Map<u32, TyV>| (#[trigger] subst_apply(h1, m) == subst_apply(h2, m)) == unifies_all(children(h1), children(h2), m),
{
    match (h1, h2) {
        (TyV::Tuple(es1), TyV::Tuple(es2)) => {
            assert forall|m: Map<u32, TyV>| (#[trigger] subst_apply(h1, m) == subst_apply(h2, m)) == unifies_all(es1, es2, m) by {
                lemma_apply_seq_index(es1, m);
                lemma_apply_seq_index(es2, m);
                if unifies_all(es1, es2, m) {
                    assert(subst_under_seq(es1, m, Seq::empty()) =~= subst_under_seq(es2, m, Seq::empty()));
                }
                if subst_apply(h1, m) == subst_apply(h2, m) {
                    assert forall|i: int| 0 <= i < es1.len() implies #[trigger] subst_apply(es1[i], m) == subst_apply(es2[i], m) by {
                        assert(subst_under_seq(es1, m, Seq::empty())[i] == subst_under_seq(es2, m, Seq::empty())[i]);
                    }
                }
            }
        },
        (TyV::List(e1), TyV::List(e2)) => {
            let c1 = seq![*e1];
            let c2 = seq![*e2];
            assert(c1.drop_last() =~= Seq::<TyV>::empty());
            assert(c2.drop_last() =~= Seq::<TyV>::empty());
            assert(tvs_seq(c1.drop_last()) == Set::<u32>::empty());
            assert(tvs_seq(c2.drop_last()) == Set::<u32>::empty());
            assert(tsize_seq(c1.drop_last()) == 0);
            assert(tsize_seq(c2.drop_last()) == 0);
            assert(qf_seq(c1.drop_last()));
            assert(qf_seq(c2.drop_last()));
            assert(Set::<u32>::empty().union(tvs(*e1)) =~= tvs(*e1));
            assert(Set::<u32>::empty().union(tvs(*e2)) =~= tvs(*e2));
            assert forall|m: Map<u32, TyV>| (#[trigger] subst_apply(h1, m) == subst_apply(h2, m)) == unifies_all(c1, c2, m) by {
                if subst_apply(h1, m) == subst_apply(h2, m) {
                    assert forall|i: int| 0 <= i < c1.len() implies #[trigger] subst_apply(c1[i], m) == subst_apply(c2[i], m) by {}
                }
                if unifies_all(c1, c2, m) {
                    assert(subst_apply(c1[0], m) == subst_apply(c2[0], m));
                }
            }
        },
        _ => {
            let c1 = children(h1);
            let c2 = children(h2);
            lemma_seq_two(c1[0], c1[1]);
            lemma_seq_two(c2[0], c2[1]);
            assert(c1 =~= seq![c1[0], c1[1]]);
            assert(c2 =~= seq![c2[0], c2[1]]);
            assert forall|m: Map<u32, TyV>| (#[trigger] subst_apply(h1, m) == subst_apply(h2, m)) == unifies_all(c1, c2, m) by {
                if subst_apply(h1, m) == subst_apply(h2, m) {
                    assert forall|i: int| 0 <= i < c1.len() implies #[trigger] subst_apply(c1[i], m) == subst_apply(c2[i], m) by {}
                }
                if unifies_all(c1, c2, m) {
                    assert(subst_apply(c1[0], m) == subst_apply(c2[0], m));
                    assert(subst_apply(c1[1], m) == subst_apply(c2[1], m));
                }
            }
        },
    }
}

/// Replacing two heads of one shape by their parts keeps the variables and
/// the unifiers, and shrinks the lists.
pub proof fn lemma_decompose(v1: Seq<TyV>, v2: Seq<TyV>, w1: Seq<TyV>, w2: Seq<TyV>, n1: Seq<TyV>, n2: Seq<TyV>)
    requires
        v1.len() > 0,
        v1.len() == v2.len(),
        w1 == v1.skip(1),
        w2 == v2.skip(1),
        qf_seq(v1),
        qf_seq(v2),
        same_shape(v1[0], v2[0]),
        n1 == children(v1[0]) + w1,
        n2 == children(v2[0]) + w2,
    ensures
        n1.len() == n2.len(),
        qf_seq(n1),
        qf_seq(n2),
        pair_vars(n1, n2) == pair_vars(v1, v2),
        pair_size(n1, n2) < pair_size(v1, v2),
        forall|m: Map<u32, TyV>| #[trigger] unifies_all(n1, n2, m) == unifies_all(v1, v2, m),
{
    lemma_seq_first(v1);
    lemma_seq_first(v2);
    lemma_shape(v1[0], v2[0]);
    lemma_seq_concat(children(v1[0]), w1);
    lemma_seq_concat(children(v2[0]), w2);
    assert(pair_vars(n1, n2) =~= pair_vars(v1, v2));
    assert forall|m: Map<u32, TyV>| #[trigger] unifies_all(n1, n2, m) == unifies_all(v1, v2, m) by {
        lemma_unifies_concat(children(v1[0]), w1, children(v2[0]), w2, m);
        lemma_unifies_concat(seq![v1[0]], w1, seq![v2[0]], w2, m);
        assert(v1 =~= seq![v1[0]] + w1);
        assert(v2 =~= seq![v2[0]] + w2);
        if unifies_all(seq![v1[0]], seq![v2[0]], m) {
            assert(subst_apply(seq![v1[0]][0], m) == subst_apply(seq![v2[0]][0], m));
        }
        if subst_apply(v1[0], m) == subst_apply(v2[0], m) {
            assert forall|i: int| 0 <= i < 1 implies #[trigger] subst_apply(seq![v1[0]][i], m) == subst_apply(seq![v2[0]][i], m) by {}
        }
    }
}

/// Lists with the same variables and the same unifiers have the same most
/// general unifier.
pub proof fn lemma_outcome_transfer(v1: Seq<TyV>, v2: Seq<TyV>, n1: Seq<TyV>, n2: Seq<TyV>, r: Option<Map<u32, TyV>>)
    requires
        pair_vars(n1, n2) == pair_vars(v1, v2),
        forall|m: Map<u32, TyV>| #[trigger] unifies_all(n1, n2, m) == unifies_all(v1, v2, m),
        mgu_outcome(n1, n2, r),
    ensures
        mgu_outcome(v1, v2, r),
{
    if r is Some {
        let s = r->0;
        assert(unifies_all(n1, n2, s));
        assert forall|m: Map<u32, TyV>| #[trigger] unifies_all(v1, v2, m) implies absorbs(m, s) by {
            assert(unifies_all(n1, n2, m));
        }
    } else {
        assert forall|m: Map<u32, TyV>| !#[trigger] unifies_all(v1, v2, m) by {
            assert(!unifies_all(n1, n2, m));
        }
    }
}

/// A variable and a type at the head of either list: the equation reads
/// the same either way round.
pub proof fn lemma_bind_side(v1: Seq<TyV>, v2: Seq<TyV>, w1: Seq<TyV>, w2: Seq<TyV>, a: u32, t: TyV, left: bool)
    requires
        v1.len() > 0,
        v1.len() == v2.len(),
        w1 == v1.skip(1),
        w2 == v2.skip(1),
        left ==> v1[0] == TyV::Var(a) && v2[0] == t,
        !left ==> v1[0] == t && v2[0] == TyV::Var(a),
    ensures
        pair_vars(seq![TyV::Var(a)] + w1, seq![t] + w2) == pair_vars(v1, v2),
        pair_size(seq![TyV::Var(a)] + w1, seq![t] + w2) == pair_size(v1, v2),
        forall|m: Map<u32, TyV>| #[trigger] unifies_all(seq![TyV::Var(a)] + w1, seq![t] + w2, m) == unifies_all(v1, v2, m),
{
    let e1 = seq![TyV::Var(a)] + w1;
    let e2 = seq![t] + w2;
    lemma_seq_first(v1);
    lemma_seq_first(v2);
    lemma_seq_first(e1);
    lemma_seq_first(e2);
    assert(e1.skip(1) =~= w1);
    assert(e2.skip(1) =~= w2);
    assert(pair_vars(e1, e2) =~= pair_vars(v1, v2));
    assert forall|m: Map<u32, TyV>| #[trigger] unifies_all(e1, e2, m) == unifies_all(v1, v2, m) by {
        if unifies_all(e1, e2, m) {
            assert forall|i: int| 0 <= i < v1.len() implies #[trigger] subst_apply(v1[i], m) == subst_apply(v2[i], m) by {
                assert(subst_apply(e1[i], m) == subst_apply(e2[i], m));
                if i > 0 { assert(e1[i] == v1[i] && e2[i] == v2[i]); }
            }
        }
        if unifies_all(v1, v2, m) {
            assert forall|i: int| 0 <= i < e1.len() implies #[trigger] subst_apply(e1[i], m) == subst_apply(e2[i], m) by {
                assert(subst_apply(v1[i], m) == subst_apply(v2[i], m));
                if i > 0 { assert(e1[i] == v1[i] && e2[i] == v2[i]); }
            }
        }
    }
}


/// The unifier computed for two lists of quantifier-free types: equal
/// heads are dropped; a variable is bound to the other head (unless it
/// occurs there), the binding applied to the rest; heads of one shape are
/// replaced by their parts; other heads do not unify.
pub open spec fn unify_spec(l1: Seq<TyV>, l2: Seq<TyV>) -> Option<Map<u32, TyV>>
    decreases pair_vars(l1, l2).len(), pair_size(l1, l2), 1nat
    when l1.len() == l2.len() && qf_seq(l1) && qf_seq(l2)
{
    if l1.len() == 0 {
        Some(Map::empty())
    } else if l1[0] == l2[0] {
        proof {
            lemma_seq_first(l1);
            lemma_seq_first(l2);
            lemma_pair_vars_finite(l1, l2);
            vstd::set_lib::lemma_len_subset(pair_vars(l1.skip(1), l2.skip(1)), pair_vars(l1, l2));
            lemma_tsize_pos(l1[0]);
        }
        unify_spec(l1.skip(1), l2.skip(1))
    } else if l1[0] is Var {
        proof {
            lemma_bind_side(l1, l2, l1.skip(1), l2.skip(1), l1[0]->Var_0, l2[0], true);
            lemma_seq_first(l2);
            lemma_seq_first(l1);
        }
        bind_spec(l1[0]->Var_0, l2[0], l1.skip(1), l2.skip(1))
    } else if l2[0] is Var {
        proof {
            lemma_bind_side(l1, l2, l1.skip(1), l2.skip(1), l2[0]->Var_0, l1[0], false);
            lemma_seq_first(l2);
            lemma_seq_first(l1);
        }
        bind_spec(l2[0]->Var_0, l1[0], l1.skip(1), l2.skip(1))
    } else if same_shape(l1[0], l2[0]) {
        proof {
            lemma_decompose(l1, l2, l1.skip(1), l2.skip(1), children(l1[0]) + l1.skip(1), children(l2[0]) + l2.skip(1));
        }
        unify_spec(children(l1[0]) + l1.skip(1), children(l2[0]) + l2.skip(1))
    } else {
        None
    }
}

/// The unifier after binding variable `a` to `t` in front of `w1` and `w2`.
pub open spec fn bind_spec(a: u32, t: TyV, w1: Seq<TyV>, w2: Seq<TyV>) -> Option<Map<u32, TyV>>
    decreases pair_vars(seq![TyV::Var(a)] + w1, seq![t] + w2).len(), pair_size(seq![TyV::Var(a)] + w1, seq![t] + w2), 0nat
    when t != TyV::Var(a) && qf(t) && qf_seq(w1) && qf_seq(w2) && w1.len() == w2.len()
{
    if tvs(t).contains(a) {
        None
    } else {
        let n1 = subst_under_seq(w1, single(a, t), Seq::empty());
        let n2 = subst_under_seq(w2, single(a, t), Seq::empty());
        proof {
            let e1 = seq![TyV::Var(a)] + w1;
            let e2 = seq![t] + w2;
            lemma_seq_first(e1);
            lemma_seq_first(e2);
            assert(e1.skip(1) =~= w1);
            assert(e2.skip(1) =~= w2);
            lemma_pair_vars_finite(e1, e2);
            lemma_single_seq(w1, a, t);
            lemma_single_seq(w2, a, t);
            lemma_apply_seq_index(w1, single(a, t));
            lemma_apply_seq_index(w2, single(a, t));
            lemma_pair_vars_finite(n1, n2);
            let big = pair_vars(e1, e2);
            assert(big.contains(a));
            assert(pair_vars(n1, n2).subset_of(big.remove(a)));
            vstd::set_lib::lemma_len_subset(pair_vars(n1, n2), big.remove(a));
        }
        match unify_spec(n1, n2) {
            Some(s) => Some(s.insert(a, subst_apply(t, s))),
            None => None,
        }
    }
}

/// The unifier computed for two types: quantifier-free types as
/// [`unify_spec`] says; a type with a quantifier only with itself.
pub open spec fn unify_ty_spec(t1: TyV, t2: TyV) -> Option<Map<u32, TyV>> {
    if qf(t1) && qf(t2) {
        unify_spec(seq![t1], seq![t2])
    } else if t1 == t2 {
        Some(Map::empty())
    } else {
        None
    }
}

/// Binds variable `a` to `t` (checking that `a` does not occur in it),
/// applies the binding to the rest of the lists and unifies those.
fn bind_var_chirho(a: u32, t: &TyChirho, r1: &Vec<TyChirho>, r2: &Vec<TyChirho>) -> (r: Option<SubstChirho>)
    requires
        t@ != TyV::Var(a),
        qf(t@),
        qf_seq(tys_view(r1@)),
        qf_seq(tys_view(r2@)),
        r1@.len() == r2@.len(),
    ensures
        mgu_outcome(seq![TyV::Var(a)] + tys_view(r1@), seq![t@] + tys_view(r2@), opt_map(r)),
        opt_map(r) == bind_spec(a, t@, tys_view(r1@), tys_view(r2@)),
    decreases pair_vars(seq![TyV::Var(a)] + tys_view(r1@), seq![t@] + tys_view(r2@)).len(),
        pair_size(seq![TyV::Var(a)] + tys_view(r1@), seq![t@] + tys_view(r2@)), 0nat,
{
    let ghost rv1 = tys_view(r1@);
    let ghost rv2 = tys_view(r2@);
    let ghost e1 = seq![TyV::Var(a)] + rv1;
    let ghost e2 = seq![t@] + rv2;
    proof {
        lemma_tys_view(r1@);
        lemma_tys_view(r2@);
        lemma_seq_first(e1);
        lemma_seq_first(e2);
        assert(e1.skip(1) =~= rv1);
        assert(e2.skip(1) =~= rv2);
        lemma_pair_vars_finite(e1, e2);
        assert forall|m: Map<u32, TyV>| #[trigger] unifies_all(e1, e2, m)
            == (image(m, a) == subst_apply(t@, m) && unifies_all(rv1, rv2, m)) by {
            lemma_unifies_concat(seq![TyV::Var(a)], rv1, seq![t@], rv2, m);
            assert(e1 == seq![TyV::Var(a)] + rv1);
            if unifies_all(seq![TyV::Var(a)], seq![t@], m) {
                assert(subst_apply(seq![TyV::Var(a)][0], m) == subst_apply(seq![t@][0], m));
            }
            if image(m, a) == subst_apply(t@, m) {
                assert forall|i: int| 0 <= i < 1 implies #[trigger] subst_apply(seq![TyV::Var(a)][i], m) == subst_apply(seq![t@][i], m) by {}
            }
        }
    }
    if occurs_chirho(a, t) {
        proof {
            assert forall|m: Map<u32, TyV>| !#[trigger] unifies_all(e1, e2, m) by {
                lemma_occurs(t@, a, m);
            }
        }
        return None;
    }
    let mut single_chirho = SubstChirho::empty_chirho();
    single_chirho.insert_chirho(TyVarChirho(a), t.copy_chirho());
    let n1 = apply_all_chirho(&single_chirho, r1);
    let n2 = apply_all_chirho(&single_chirho, r2);
    let ghost u = single(a, t@);
    let ghost nv1 = tys_view(n1@);
    let ghost nv2 = tys_view(n2@);
    proof {
        lemma_tys_view(n1@);
        lemma_tys_view(n2@);
        assert(single_chirho.map() =~= u);
        lemma_single_seq(rv1, a, t@);
        lemma_single_seq(rv2, a, t@);
        lemma_apply_seq_index(rv1, u);
        lemma_apply_seq_index(rv2, u);
        lemma_qf_seq_index(rv1);
        lemma_qf_seq_index(rv2);
        lemma_pair_vars_finite(nv1, nv2);
        let big = pair_vars(e1, e2);
        assert(big.contains(a));
        assert(pair_vars(nv1, nv2).subset_of(big.remove(a)));
        vstd::set_lib::lemma_len_subset(pair_vars(nv1, nv2), big.remove(a));
    }
    let rec = unify_list_chirho(&n1, &n2);
    match rec {
        None => {
            proof {
                assert forall|m: Map<u32, TyV>| !#[trigger] unifies_all(e1, e2, m) by {
                    if unifies_all(e1, e2, m) {
                        assert(absorbs(m, u));
                        assert forall|j: int| 0 <= j < nv1.len() implies #[trigger] subst_apply(nv1[j], m) == subst_apply(nv2[j], m) by {
                            lemma_absorb(rv1[j], u, m);
                            lemma_absorb(rv2[j], u, m);
                            assert(subst_apply(rv1[j], m) == subst_apply(rv2[j], m));
                        }
                        assert(unifies_all(nv1, nv2, m));
                    }
                }
            }
            None
        },
        Some(s) => {
            let mut s = s;
            let ghost sp = s.map();
            let tt = s.apply_ty_chirho(t);
            s.insert_chirho(TyVarChirho(a), tt);
            proof {
                let big = pair_vars(e1, e2);
                assert(!sp.dom().contains(a));
                let ss = s.map();
                assert(ss == sp.insert(a, subst_apply(t@, sp)));
                lemma_single(t@, a, t@);
                lemma_compose_single(t@, a, t@, sp);
                assert(subst_apply(t@, ss) == subst_apply(t@, sp));
                assert(image(ss, a) == subst_apply(t@, ss));
                assert forall|j: int| 0 <= j < rv1.len() implies #[trigger] subst_apply(rv1[j], ss) == subst_apply(rv2[j], ss) by {
                    lemma_compose_single(rv1[j], a, t@, sp);
                    lemma_compose_single(rv2[j], a, t@, sp);
                    assert(subst_apply(nv1[j], sp) == subst_apply(nv2[j], sp));
                }
                assert(unifies_all(e1, e2, ss));
                assert(ss.dom().subset_of(big));
                assert forall|m: Map<u32, TyV>| #[trigger] unifies_all(e1, e2, m) implies absorbs(m, ss) by {
                    assert(absorbs(m, u));
                    assert forall|j: int| 0 <= j < nv1.len() implies #[trigger] subst_apply(nv1[j], m) == subst_apply(nv2[j], m) by {
                        lemma_absorb(rv1[j], u, m);
                        lemma_absorb(rv2[j], u, m);
                        assert(subst_apply(rv1[j], m) == subst_apply(rv2[j], m));
                    }
                    assert(unifies_all(nv1, nv2, m));
                    assert(absorbs(m, sp));
                    lemma_absorb(t@, sp, m);
                    assert forall|v: u32| #[trigger] ss.dom().contains(v) implies subst_apply(ss[v], m) == image(m, v) by {
                        if v != a {
                            assert(sp.dom().contains(v));
                        }
                    }
                }
            }
            Some(s)
        },
    }
}

/// Unifies two lists of quantifier-free types place by place.
fn unify_list_chirho(l1: &Vec<TyChirho>, l2: &Vec<TyChirho>) -> (r: Option<SubstChirho>)
    requires
        l1@.len() == l2@.len(),
        qf_seq(tys_view(l1@)),
        qf_seq(tys_view(l2@)),
    ensures
        mgu_outcome(tys_view(l1@), tys_view(l2@), opt_map(r)),
        opt_map(r) == unify_spec(tys_view(l1@), tys_view(l2@)),
    decreases pair_vars(tys_view(l1@), tys_view(l2@)).len(), pair_size(tys_view(l1@), tys_view(l2@)), 1nat,
{
    let ghost v1 = tys_view(l1@);
    let ghost v2 = tys_view(l2@);
    proof {
        lemma_tys_view(l1@);
        lemma_tys_view(l2@);
    }
    if l1.len() == 0 {
        let s = SubstChirho::empty_chirho();
        proof {
            assert forall|m: Map<u32, TyV>| #[trigger] unifies_all(v1, v2, m) implies absorbs(m, s.map()) by {}
        }
        return Some(s);
    }
    let h1 = &l1[0];
    let h2 = &l2[0];
    let r1 = tail_chirho(l1);
    let r2 = tail_chirho(l2);
    proof { lemma_tys_view(r1@); lemma_tys_view(r2@); }
    let ghost w1 = tys_view(r1@);
    let ghost w2 = tys_view(r2@);
    proof {
        lemma_seq_first(v1);
        lemma_seq_first(v2);
        lemma_pair_vars_finite(v1, v2);
        lemma_pair_vars_finite(w1, w2);
        assert(v1[0] == h1@);
        assert(v2[0] == h2@);
        assert forall|m: Map<u32, TyV>| #[trigger] unifies_all(v1, v2, m)
            == (subst_apply(h1@, m) == subst_apply(h2@, m) && unifies_all(w1, w2, m)) by {
            if unifies_all(v1, v2, m) {
                assert(subst_apply(v1[0], m) == subst_apply(v2[0], m));
                assert forall|i: int| 0 <= i < w1.len() implies #[trigger] subst_apply(w1[i], m) == subst_apply(w2[i], m) by {
                    assert(subst_apply(v1[i + 1], m) == subst_apply(v2[i + 1], m));
                }
            }
            if subst_apply(h1@, m) == subst_apply(h2@, m) && unifies_all(w1, w2, m) {
                assert forall|i: int| 0 <= i < v1.len() implies #[trigger] subst_apply(v1[i], m) == subst_apply(v2[i], m) by {
                    if i > 0 {
                        assert(subst_apply(w1[i - 1], m) == subst_apply(w2[i - 1], m));
                    }
                }
            }
        }
    }
    if h1.eq_chirho(h2) {
        proof {
            assert(pair_vars(w1, w2).subset_of(pair_vars(v1, v2)));
            vstd::set_lib::lemma_len_subset(pair_vars(w1, w2), pair_vars(v1, v2));
            lemma_tsize_pos(h1@);
        }
        let r = unify_list_chirho(&r1, &r2);
        proof {
            if r is Some {
                let s = r->0.map();
                assert forall|m: Map<u32, TyV>| #[trigger] unifies_all(v1, v2, m) implies absorbs(m, s) by {
                    assert(unifies_all(w1, w2, m));
                }
                assert(unifies_all(w1, w2, s));
                assert(unifies_all(v1, v2, s));
            } else {
                assert forall|m: Map<u32, TyV>| !#[trigger] unifies_all(v1, v2, m) by {
                    if unifies_all(v1, v2, m) { assert(unifies_all(w1, w2, m)); }
                }
            }
        }
        return r;
    }
    match (h1, h2) {
        (TyChirho::VarChirho(a), _) => {
            proof {
                lemma_bind_side(v1, v2, w1, w2, a.0, h2@, true);
                lemma_qf_seq_index(v2);
            }
            let r = bind_var_chirho(a.0, h2, &r1, &r2);
            proof { lemma_outcome_transfer(v1, v2, seq![TyV::Var(a.0)] + w1, seq![h2@] + w2, opt_map(r)); }
            r
        },
        (_, TyChirho::VarChirho(a)) => {
            proof {
                lemma_bind_side(v1, v2, w1, w2, a.0, h1@, false);
                lemma_qf_seq_index(v1);
            }
            let r = bind_var_chirho(a.0, h1, &r1, &r2);
            proof { lemma_outcome_transfer(v1, v2, seq![TyV::Var(a.0)] + w1, seq![h1@] + w2, opt_map(r)); }
            r
        },
        (TyChirho::AppChirho(f1, x1), TyChirho::AppChirho(f2, x2)) => {
            let front1 = vec![f1.copy_chirho(), x1.copy_chirho()];
            let front2 = vec![f2.copy_chirho(), x2.copy_chirho()];
            proof {
                lemma_tys_view(front1@);
                lemma_tys_view(front2@);
                assert(tys_view(front1@) =~= children(h1@));
                assert(tys_view(front2@) =~= children(h2@));
            }
            let n1 = prepend_chirho(front1, &r1);
            let n2 = prepend_chirho(front2, &r2);
            proof { lemma_tys_view(n1@); lemma_tys_view(n2@); }
            proof { lemma_decompose(v1, v2, w1, w2, tys_view(n1@), tys_view(n2@)); }
            let r = unify_list_chirho(&n1, &n2);
            proof { lemma_outcome_transfer(v1, v2, tys_view(n1@), tys_view(n2@), opt_map(r)); }
            r
        },
        (TyChirho::KindAppChirho(f1, x1), TyChirho::KindAppChirho(f2, x2)) => {
            let front1 = vec![f1.copy_chirho(), x1.copy_chirho()];
            let front2 = vec![f2.copy_chirho(), x2.copy_chirho()];
            proof {
                lemma_tys_view(front1@);
                lemma_tys_view(front2@);
                assert(tys_view(front1@) =~= children(h1@));
                assert(tys_view(front2@) =~= children(h2@));
            }
            let n1 = prepend_chirho(front1, &r1);
            let n2 = prepend_chirho(front2, &r2);
            proof { lemma_tys_view(n1@); lemma_tys_view(n2@); }
            proof { lemma_decompose(v1, v2, w1, w2, tys_view(n1@), tys_view(n2@)); }
            let r = unify_list_chirho(&n1, &n2);
            proof { lemma_outcome_transfer(v1, v2, tys_view(n1@), tys_view(n2@), opt_map(r)); }
            r
        },
        (TyChirho::FunChirho(a1, b1, m1), TyChirho::FunChirho(a2, b2, m2)) => {
            if *m1 != *m2 {
                proof {
                    assert forall|m: Map<u32, TyV>| !#[trigger] unifies_all(v1, v2, m) by {
                        if unifies_all(v1, v2, m) { assert(subst_apply(h1@, m) == subst_apply(h2@, m)); }
                    }
                }
                return None;
            }
            let front1 = vec![a1.copy_chirho(), b1.copy_chirho()];
            let front2 = vec![a2.copy_chirho(), b2.copy_chirho()];
            proof {
                lemma_tys_view(front1@);
                lemma_tys_view(front2@);
                assert(tys_view(front1@) =~= children(h1@));
                assert(tys_view(front2@) =~= children(h2@));
            }
            let n1 = prepend_chirho(front1, &r1);
            let n2 = prepend_chirho(front2, &r2);
            proof { lemma_tys_view(n1@); lemma_tys_view(n2@); }
            proof { lemma_decompose(v1, v2, w1, w2, tys_view(n1@), tys_view(n2@)); }
            let r = unify_list_chirho(&n1, &n2);
            proof { lemma_outcome_transfer(v1, v2, tys_view(n1@), tys_view(n2@), opt_map(r)); }
            r
        },
        (TyChirho::ListChirho(e1), TyChirho::ListChirho(e2)) => {
            let front1 = vec![e1.copy_chirho()];
            let front2 = vec![e2.copy_chirho()];
            proof {
                lemma_tys_view(front1@);
                lemma_tys_view(front2@);
                assert(tys_view(front1@) =~= children(h1@));
                assert(tys_view(front2@) =~= children(h2@));
            }
            let n1 = prepend_chirho(front1, &r1);
            let n2 = prepend_chirho(front2, &r2);
            proof { lemma_tys_view(n1@); lemma_tys_view(n2@); }
            proof { lemma_decompose(v1, v2, w1, w2, tys_view(n1@), tys_view(n2@)); }
            let r = unify_list_chirho(&n1, &n2);
            proof { lemma_outcome_transfer(v1, v2, tys_view(n1@), tys_view(n2@), opt_map(r)); }
            r
        },
        (TyChirho::TupleChirho(es1), TyChirho::TupleChirho(es2)) => {
            if es1.len() != es2.len() {
                proof {
                    lemma_tys_view(es1@);
                    lemma_tys_view(es2@);
                    assert forall|m: Map<u32, TyV>| !#[trigger] unifies_all(v1, v2, m) by {
                        if unifies_all(v1, v2, m) {
                            assert(subst_apply(h1@, m) == subst_apply(h2@, m));
                            lemma_apply_seq_index(tys_view(es1@), m);
                            lemma_apply_seq_index(tys_view(es2@), m);
                        }
                    }
                }
                return None;
            }
            let front1 = copy_tys_chirho(es1);
            let front2 = copy_tys_chirho(es2);
            proof {
                lemma_tys_view(front1@);
                lemma_tys_view(front2@);
                assert(tys_view(front1@) =~= children(h1@));
                assert(tys_view(front2@) =~= children(h2@));
            }
            let n1 = prepend_chirho(front1, &r1);
            let n2 = prepend_chirho(front2, &r2);
            proof { lemma_tys_view(n1@); lemma_tys_view(n2@); }
            proof {
                lemma_tys_view(es1@);
                lemma_tys_view(es2@);
                lemma_decompose(v1, v2, w1, w2, tys_view(n1@), tys_view(n2@));
            }
            let r = unify_list_chirho(&n1, &n2);
            proof { lemma_outcome_transfer(v1, v2, tys_view(n1@), tys_view(n2@), opt_map(r)); }
            r
        },
        _ => {
            proof {
                assert forall|m: Map<u32, TyV>| !#[trigger] unifies_all(v1, v2, m) by {
                    if unifies_all(v1, v2, m) { assert(subst_apply(h1@, m) == subst_apply(h2@, m)); }
                }
            }
            None
        },
    }
}


/// Why two types could not be unified: the two types.
#[derive(Debug)]
pub struct UnifyErrorChirho {
    pub left_chirho: TyChirho,
    pub right_chirho: TyChirho,
}

/// Unifies two types. Types without quantifiers get their most general
/// unifier, which exists exactly when some substitution makes them equal
/// (an arrow only meets an arrow of its multiplicity, a variable never a
/// type it occurs in); a type with a quantifier unifies only with itself.
/// The error carries the two types.
pub fn unify_chirho(t1: &TyChirho, t2: &TyChirho) -> (r: Result<SubstChirho, UnifyErrorChirho>)
    ensures
        match r {
            Ok(s) => subst_apply(t1@, s.map()) == subst_apply(t2@, s.map())
                && (qf(t1@) && qf(t2@) ==> s.map().dom().subset_of(tvs(t1@).union(tvs(t2@)))
                    && forall|m: Map<u32, TyV>| #[trigger] subst_apply(t1@, m) == subst_apply(t2@, m) ==> absorbs(m, s.map())),
            Err(e) => e.left_chirho@ == t1@ && e.right_chirho@ == t2@,
        },
        match r {
            Ok(s) => unify_ty_spec(t1@, t2@) == Some(s.map()),
            Err(_) => unify_ty_spec(t1@, t2@) is None,
        },
        r is Ok <==> (if qf(t1@) && qf(t2@) { unifiable(t1@, t2@) } else { t1@ == t2@ }),
{
    if is_quantifier_free_chirho(t1) && is_quantifier_free_chirho(t2) {
        let l1 = vec![t1.copy_chirho()];
        let l2 = vec![t2.copy_chirho()];
        let ghost v1 = tys_view(l1@);
        let ghost v2 = tys_view(l2@);
        proof {
            lemma_tys_view(l1@);
            lemma_tys_view(l2@);
            assert(v1 =~= seq![t1@]);
            assert(v2 =~= seq![t2@]);
            lemma_seq_first(v1);
            lemma_seq_first(v2);
            assert(v1.skip(1) =~= Seq::<TyV>::empty());
            assert(v2.skip(1) =~= Seq::<TyV>::empty());
            assert(Set::<u32>::empty().union(Set::<u32>::empty()) =~= Set::<u32>::empty());
            assert(tvs(t1@).union(Set::<u32>::empty()) =~= tvs(t1@));
            assert(tvs(t2@).union(Set::<u32>::empty()) =~= tvs(t2@));
            assert forall|m: Map<u32, TyV>| #[trigger] unifies_all(v1, v2, m) == (subst_apply(t1@, m) == subst_apply(t2@, m)) by {
                if subst_apply(t1@, m) == subst_apply(t2@, m) {
                    assert forall|i: int| 0 <= i < v1.len() implies #[trigger] subst_apply(v1[i], m) == subst_apply(v2[i], m) by {}
                }
                if unifies_all(v1, v2, m) {
                    assert(subst_apply(v1[0], m) == subst_apply(v2[0], m));
                }
            }
        }
        match unify_list_chirho(&l1, &l2) {
            Some(s) => {
                proof {
                    assert(unifies_all(v1, v2, s.map()));
                    assert(subst_apply(v1[0], s.map()) == subst_apply(v2[0], s.map()));
                    assert(pair_vars(v1, v2) =~= tvs(t1@).union(tvs(t2@)));
                    assert forall|m: Map<u32, TyV>| #[trigger] subst_apply(t1@, m) == subst_apply(t2@, m) implies absorbs(m, s.map()) by {
                        assert(unifies_all(v1, v2, m));
                    }
                }
                Ok(s)
            },
            None => {
                proof {
                    if unifiable(t1@, t2@) {
                        let m = choose|m: Map<u32, TyV>| #[trigger] subst_apply(t1@, m) == subst_apply(t2@, m);
                        assert(unifies_all(v1, v2, m));
                    }
                }
                Err(UnifyErrorChirho { left_chirho: t1.copy_chirho(), right_chirho: t2.copy_chirho() })
            },
        }
    } else if t1.eq_chirho(t2) {
        let e = SubstChirho::empty_chirho();
        proof { assert(e.map() =~= Map::<u32, TyV>::empty()); }
        Ok(e)
    } else {
        Err(UnifyErrorChirho { left_chirho: t1.copy_chirho(), right_chirho: t2.copy_chirho() })
    }
}

}
