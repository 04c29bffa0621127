//! Alpha-equivalence of types and type schemes: equality up to a consistent
//! renaming of quantified variables.
use vstd::prelude::*;
use crate::ty_chirho::{preds_view, SchemeChirho, lemma_tys_view, tys_view, vars_concat_chirho, vars_view, PredV, SchemeV, TyChirho, TyV, TyVarChirho};

verus! {

/// Position of the first occurrence of `x` in `s`, or -1.
pub open spec fn first_index(s: Seq<u32>, x: u32) -> int
    decreases s.len(),
{
    if s.len() == 0 {
        -1
    } else if s[0] == x {
        0
    } else {
        let k = first_index(s.drop_first(), x);
        if k < 0 { -1 } else { k + 1 }
    }
}

pub proof fn lemma_first_index(s: Seq<u32>, x: u32)
    ensures
        -1 <= first_index(s, x) < s.len(),
        (first_index(s, x) >= 0) == s.contains(x),
        first_index(s, x) >= 0 ==> s[first_index(s, x)] == x,
        forall|j: int| 0 <= j < first_index(s, x) ==> s[j] != x,
    decreases s.len(),
{
    if s.len() > 0 {
        lemma_first_index(s.drop_first(), x);
        if s[0] != x {
            if s.contains(x) {
                let k = choose|k: int| 0 <= k < s.len() && s[k] == x;
                assert(s.drop_first()[k - 1] == x);
            }
            if s.drop_first().contains(x) {
                let k = choose|k: int| 0 <= k < s.drop_first().len() && s.drop_first()[k] == x;
                assert(s[k + 1] == x);
            }
            assert forall|j: int| 0 <= j < first_index(s, x) implies s[j] != x by {
                if j > 0 {
                    assert(s[j] == s.drop_first()[j - 1]);
                }
            }
        }
    }
}

pub proof fn lemma_first_index_no_dup(s: Seq<u32>, i: int)
    requires
        s.no_duplicates(),
        0 <= i < s.len(),
    ensures
        first_index(s, s[i]) == i,
{
    lemma_first_index(s, s[i]);
    let k = first_index(s, s[i]);
    if k != i {
        assert(s[k] == s[i]);
    }
}

pub proof fn lemma_first_index_push(s: Seq<u32>, y: u32, x: u32)
    ensures
        first_index(s.push(y), x) == (if s.contains(x) { first_index(s, x) } else if x == y { s.len() as int } else { -1 }),
{
    lemma_first_index(s, x);
    lemma_first_index(s.push(y), x);
    let k = first_index(s.push(y), x);
    if s.contains(x) {
        let k0 = first_index(s, x);
        assert(s.push(y)[k0] == x);
        if k < k0 {
            assert(s[k] == x);
        }
    } else if x == y {
        assert(s.push(y)[s.len() as int] == x);
        if k < s.len() && k >= 0 {
            assert(s[k] == x);
        }
    } else {
        if k >= 0 {
            if k < s.len() {
                assert(s[k] == x);
            }
        }
    }
}

/// Two variables correspond when they are bound at the same binder position,
/// or are both free and identical.
pub open spec fn var_alpha(x: u32, y: u32, b1: Seq<u32>, b2: Seq<u32>) -> bool {
    first_index(b1, x) == first_index(b2, y) && (first_index(b1, x) >= 0 || x == y)
}

/// `t1` and `t2` are equal up to renaming the binders `b1` to `b2` (innermost
/// binders first).
pub open spec fn alpha_ty(t1: TyV, t2: TyV, b1: Seq<u32>, b2: Seq<u32>) -> bool
    decreases t1,
{
    match (t1, t2) {
        (TyV::Var(x), TyV::Var(y)) => var_alpha(x, y, b1, b2),
        (TyV::Con(a), TyV::Con(b)) => a == b,
        (TyV::ForallVar(a), TyV::ForallVar(b)) => a == b,
        (TyV::App(f1, a1), TyV::App(f2, a2)) => alpha_ty(*f1, *f2, b1, b2) && alpha_ty(*a1, *a2, b1, b2),
        (TyV::KindApp(f1, a1), TyV::KindApp(f2, a2)) => alpha_ty(*f1, *f2, b1, b2) && alpha_ty(*a1, *a2, b1, b2),
        (TyV::Fun(a1, r1, m1), TyV::Fun(a2, r2, m2)) => m1 == m2 && alpha_ty(*a1, *a2, b1, b2) && alpha_ty(*r1, *r2, b1, b2),
        (TyV::List(e1), TyV::List(e2)) => alpha_ty(*e1, *e2, b1, b2),
        (TyV::Tuple(e1), TyV::Tuple(e2)) => alpha_seq(e1, e2, b1, b2),
        (TyV::Forall(v1, d1), TyV::Forall(v2, d2)) => v1.len() == v2.len() && alpha_ty(*d1, *d2, v1 + b1, v2 + b2),
        (TyV::RequiredForall(v1, d1), TyV::RequiredForall(v2, d2)) => v1.len() == v2.len() && alpha_ty(*d1, *d2, v1 + b1, v2 + b2),
        _ => false,
    }
}

pub open spec fn alpha_seq(e1: Seq<TyV>, e2: Seq<TyV>, b1: Seq<u32>, b2: Seq<u32>) -> bool
    decreases e1,
{
    e1.len() == e2.len() && (e1.len() == 0 || (alpha_seq(e1.drop_last(), e2.drop_last(), b1, b2)
        && alpha_ty(e1.last(), e2.last(), b1, b2)))
}

pub open spec fn alpha_pred(p1: PredV, p2: PredV, b1: Seq<u32>, b2: Seq<u32>) -> bool {
    p1.class == p2.class && alpha_ty(p1.ty, p2.ty, b1, b2) && alpha_seq(p1.extra, p2.extra, b1, b2)
}

/// Schemes agree up to renaming their quantified variables position by position.
pub open spec fn alpha_scheme(s1: SchemeV, s2: SchemeV) -> bool {
    &&& s1.vars.len() == s2.vars.len()
    &&& s1.preds.len() == s2.preds.len()
    &&& forall|i: int| 0 <= i < s1.preds.len() ==> #[trigger] alpha_pred(s1.preds[i], s2.preds[i], s1.vars, s2.vars)
    &&& alpha_ty(s1.ty, s2.ty, s1.vars, s2.vars)
}

/// First position of `x` in `v`, or -1.
pub fn first_index_chirho(v: &Vec<TyVarChirho>, x: u32) -> (r: Option<usize>)
    ensures
        match r {
            Some(k) => k == first_index(vars_view(v@), x),
            None => first_index(vars_view(v@), x) == -1,
        },
{
    let ghost s = vars_view(v@);
    proof { assert(s.skip(0) =~= s); }
    let mut i: usize = 0;
    while i < v.len()
        invariant
            i <= v.len(),
            s == vars_view(v@),
            forall|j: int| 0 <= j < i ==> v@[j].0 != x,
            first_index(s, x) == (if first_index(s.skip(i as int), x) < 0 { -1 } else { first_index(s.skip(i as int), x) + i }),
        decreases v.len() - i,
    {
        proof {
            assert(s.skip(i as int)[0] == v@[i as int].0);
            assert(s.skip(i as int).drop_first() =~= s.skip(i + 1));
        }
        if v[i].0 == x {
            return Some(i);
        }
        i = i + 1;
    }
    proof { assert(s.skip(i as int).len() == 0); }
    None
}

/// Whether two variables correspond under the binder lists.
pub fn var_alpha_chirho(x: u32, y: u32, b1: &Vec<TyVarChirho>, b2: &Vec<TyVarChirho>) -> (r: bool)
    ensures
        r == var_alpha(x, y, vars_view(b1@), vars_view(b2@)),
{
    let i1 = first_index_chirho(b1, x);
    let i2 = first_index_chirho(b2, y);
    match (i1, i2) {
        (Some(k1), Some(k2)) => k1 == k2,
        (None, None) => x == y,
        _ => false,
    }
}

/// Pairwise alpha-equivalence of two type lists.
pub fn alpha_seq_chirho(e1: &Vec<TyChirho>, e2: &Vec<TyChirho>, b1: &Vec<TyVarChirho>, b2: &Vec<TyVarChirho>) -> (r: bool)
    ensures
        r == alpha_seq(tys_view(e1@), tys_view(e2@), vars_view(b1@), vars_view(b2@)),
    decreases e1@, 0nat,
{
    let ghost bv1 = vars_view(b1@);
    let ghost bv2 = vars_view(b2@);
    proof {
        lemma_tys_view(e1@);
        lemma_tys_view(e2@);
    }
    if e1.len() != e2.len() {
        return false;
    }
    proof { lemma_alpha_seq_index(tys_view(e1@), tys_view(e2@), bv1, bv2); }
    let mut i: usize = 0;
    while i < e1.len()
        invariant
            i <= e1.len(),
            e1.len() == e2.len(),
            bv1 == vars_view(b1@),
            bv2 == vars_view(b2@),
            tys_view(e1@).len() == e1@.len(),
            tys_view(e2@).len() == e2@.len(),
            forall|j: int| 0 <= j < e1@.len() ==> #[trigger] tys_view(e1@)[j] == e1@[j]@,
            forall|j: int| 0 <= j < e2@.len() ==> #[trigger] tys_view(e2@)[j] == e2@[j]@,
            forall|j: int| 0 <= j < i ==> #[trigger] alpha_ty(tys_view(e1@)[j], tys_view(e2@)[j], bv1, bv2),
            alpha_seq(tys_view(e1@), tys_view(e2@), bv1, bv2) <==> (forall|j: int| 0 <= j < e1@.len() ==>
                #[trigger] alpha_ty(tys_view(e1@)[j], tys_view(e2@)[j], bv1, bv2)),
        decreases e1.len() - i,
    {
        proof { assert(decreases_to!(e1@ => e1@[i as int])); }
        if !alpha_ty_chirho(&e1[i], &e2[i], b1, b2) {
            proof {
                assert(tys_view(e1@)[i as int] == e1@[i as int]@);
                assert(tys_view(e2@)[i as int] == e2@[i as int]@);
                assert(!alpha_ty(tys_view(e1@)[i as int], tys_view(e2@)[i as int], bv1, bv2));
            }
            return false;
        }
        i = i + 1;
    }
    true
}

pub proof fn lemma_alpha_seq_index(e1: Seq<TyV>, e2: Seq<TyV>, b1: Seq<u32>, b2: Seq<u32>)
    requires
        e1.len() == e2.len(),
    ensures
        alpha_seq(e1, e2, b1, b2) <==> (forall|j: int| 0 <= j < e1.len() ==> #[trigger] alpha_ty(e1[j], e2[j], b1, b2)),
    decreases e1.len(),
{
    if e1.len() > 0 {
        lemma_alpha_seq_index(e1.drop_last(), e2.drop_last(), b1, b2);
        let n = e1.len() - 1;
        assert(e1.last() == e1[n] && e2.last() == e2[n]);
        if forall|j: int| 0 <= j < e1.len() ==> #[trigger] alpha_ty(e1[j], e2[j], b1, b2) {
            assert forall|j: int| 0 <= j < e1.drop_last().len() implies #[trigger] alpha_ty(e1.drop_last()[j], e2.drop_last()[j], b1, b2) by {
                assert(alpha_ty(e1[j], e2[j], b1, b2));
            }
            assert(alpha_ty(e1[n], e2[n], b1, b2));
        }
        if alpha_seq(e1, e2, b1, b2) {
            assert forall|j: int| 0 <= j < e1.len() implies #[trigger] alpha_ty(e1[j], e2[j], b1, b2) by {
                if j < e1.len() - 1 {
                    assert(alpha_ty(e1.drop_last()[j], e2.drop_last()[j], b1, b2));
                }
            }
        }
    }
}

/// Whether `t1` and `t2` agree up to renaming the binders `b1` to `b2`.
pub fn alpha_ty_chirho(t1: &TyChirho, t2: &TyChirho, b1: &Vec<TyVarChirho>, b2: &Vec<TyVarChirho>) -> (r: bool)
    ensures
        r == alpha_ty(t1@, t2@, vars_view(b1@), vars_view(b2@)),
    decreases t1, 1nat,
{
    match (t1, t2) {
        (TyChirho::VarChirho(x), TyChirho::VarChirho(y)) => var_alpha_chirho(x.0, y.0, b1, b2),
        (TyChirho::ConChirho(a), TyChirho::ConChirho(b)) => *a == *b,
        (TyChirho::ForallVarChirho(a), TyChirho::ForallVarChirho(b)) => *a == *b,
        (TyChirho::AppChirho(f1, a1), TyChirho::AppChirho(f2, a2)) =>
            alpha_ty_chirho(f1, f2, b1, b2) && alpha_ty_chirho(a1, a2, b1, b2),
        (TyChirho::KindAppChirho(f1, a1), TyChirho::KindAppChirho(f2, a2)) =>
            alpha_ty_chirho(f1, f2, b1, b2) && alpha_ty_chirho(a1, a2, b1, b2),
        (TyChirho::FunChirho(a1, r1, m1), TyChirho::FunChirho(a2, r2, m2)) =>
            *m1 == *m2 && alpha_ty_chirho(a1, a2, b1, b2) && alpha_ty_chirho(r1, r2, b1, b2),
        (TyChirho::ListChirho(e1), TyChirho::ListChirho(e2)) => alpha_ty_chirho(e1, e2, b1, b2),
        (TyChirho::TupleChirho(e1), TyChirho::TupleChirho(e2)) => alpha_seq_chirho(e1, e2, b1, b2),
        (TyChirho::ForallChirho { vars_chirho: v1, body_chirho: d1 }, TyChirho::ForallChirho { vars_chirho: v2, body_chirho: d2 })
        | (TyChirho::RequiredForallChirho { vars_chirho: v1, body_chirho: d1 }, TyChirho::RequiredForallChirho { vars_chirho: v2, body_chirho: d2 }) => {
            if v1.len() != v2.len() {
                return false;
            }
            let n1 = vars_concat_chirho(v1, b1);
            let n2 = vars_concat_chirho(v2, b2);
            proof { assert(vars_view(v1@).len() == vars_view(v2@).len()); }
            alpha_ty_chirho(d1, d2, &n1, &n2)
        }
        _ => false,
    }
}


impl SchemeChirho {
    /// Whether the two schemes agree up to renaming their quantified variables
    /// position by position (the first quantified variable of one to the first
    /// of the other, and so on); free variables must be identical.
    pub fn alpha_equivalent_chirho(&self, other: &SchemeChirho) -> (r: bool)
        ensures
            r == alpha_scheme(self@, other@),
    {
        if self.vars_chirho.len() != other.vars_chirho.len() || self.preds_chirho.len() != other.preds_chirho.len() {
            return false;
        }
        let mut i: usize = 0;
        while i < self.preds_chirho.len()
            invariant
                i <= self.preds_chirho.len(),
                self.preds_chirho.len() == other.preds_chirho.len(),
                forall|j: int| 0 <= j < i ==> #[trigger] alpha_pred(
                    preds_view(self.preds_chirho@)[j], preds_view(other.preds_chirho@)[j], self@.vars, other@.vars),
            decreases self.preds_chirho.len() - i,
        {
            let p1 = &self.preds_chirho[i];
            let p2 = &other.preds_chirho[i];
            let ok = p1.class_name_chirho == p2.class_name_chirho
                && alpha_ty_chirho(&p1.ty_chirho, &p2.ty_chirho, &self.vars_chirho, &other.vars_chirho);
            proof {
                assert(alpha_seq(p1@.extra, p2@.extra, self@.vars, other@.vars));
                assert(preds_view(self.preds_chirho@)[i as int] == p1@);
                assert(preds_view(other.preds_chirho@)[i as int] == p2@);
            }
            if !ok {
                proof {
                    assert(!alpha_pred(self@.preds[i as int], other@.preds[i as int], self@.vars, other@.vars));
                }
                return false;
            }
            i = i + 1;
        }
        alpha_ty_chirho(&self.ty_chirho, &other.ty_chirho, &self.vars_chirho, &other.vars_chirho)
    }
}


/// Every type agrees with itself under the same binders.
pub proof fn lemma_alpha_ty_refl(t: TyV, b: Seq<u32>)
    ensures
        alpha_ty(t, t, b, b),
    decreases t,
{
    match t {
        TyV::App(f, a) => { lemma_alpha_ty_refl(*f, b); lemma_alpha_ty_refl(*a, b); },
        TyV::KindApp(f, a) => { lemma_alpha_ty_refl(*f, b); lemma_alpha_ty_refl(*a, b); },
        TyV::Fun(a, r, _) => { lemma_alpha_ty_refl(*a, b); lemma_alpha_ty_refl(*r, b); },
        TyV::List(e) => lemma_alpha_ty_refl(*e, b),
        TyV::Tuple(es) => lemma_alpha_seq_refl(es, b),
        TyV::Forall(vs, d) => lemma_alpha_ty_refl(*d, vs + b),
        TyV::RequiredForall(vs, d) => lemma_alpha_ty_refl(*d, vs + b),
        _ => {},
    }
}

pub proof fn lemma_alpha_seq_refl(es: Seq<TyV>, b: Seq<u32>)
    ensures
        alpha_seq(es, es, b, b),
    decreases es,
{
    if es.len() > 0 {
        lemma_alpha_seq_refl(es.drop_last(), b);
        lemma_alpha_ty_refl(es.last(), b);
    }
}

/// Agreement holds both ways.
pub proof fn lemma_alpha_ty_symm(t1: TyV, t2: TyV, b1: Seq<u32>, b2: Seq<u32>)
    requires
        alpha_ty(t1, t2, b1, b2),
    ensures
        alpha_ty(t2, t1, b2, b1),
    decreases t1,
{
    match (t1, t2) {
        (TyV::App(f1, a1), TyV::App(f2, a2)) => { lemma_alpha_ty_symm(*f1, *f2, b1, b2); lemma_alpha_ty_symm(*a1, *a2, b1, b2); },
        (TyV::KindApp(f1, a1), TyV::KindApp(f2, a2)) => { lemma_alpha_ty_symm(*f1, *f2, b1, b2); lemma_alpha_ty_symm(*a1, *a2, b1, b2); },
        (TyV::Fun(a1, r1, _), TyV::Fun(a2, r2, _)) => { lemma_alpha_ty_symm(*a1, *a2, b1, b2); lemma_alpha_ty_symm(*r1, *r2, b1, b2); },
        (TyV::List(e1), TyV::List(e2)) => lemma_alpha_ty_symm(*e1, *e2, b1, b2),
        (TyV::Tuple(e1), TyV::Tuple(e2)) => lemma_alpha_seq_symm(e1, e2, b1, b2),
        (TyV::Forall(v1, d1), TyV::Forall(v2, d2)) => lemma_alpha_ty_symm(*d1, *d2, v1 + b1, v2 + b2),
        (TyV::RequiredForall(v1, d1), TyV::RequiredForall(v2, d2)) => lemma_alpha_ty_symm(*d1, *d2, v1 + b1, v2 + b2),
        _ => {},
    }
}

pub proof fn lemma_alpha_seq_symm(e1: Seq<TyV>, e2: Seq<TyV>, b1: Seq<u32>, b2: Seq<u32>)
    requires
        alpha_seq(e1, e2, b1, b2),
    ensures
        alpha_seq(e2, e1, b2, b1),
    decreases e1,
{
    if e1.len() > 0 {
        lemma_alpha_seq_symm(e1.drop_last(), e2.drop_last(), b1, b2);
        lemma_alpha_ty_symm(e1.last(), e2.last(), b1, b2);
    }
}

/// Agreement chains.
pub proof fn lemma_alpha_ty_trans(t1: TyV, t2: TyV, t3: TyV, b1: Seq<u32>, b2: Seq<u32>, b3: Seq<u32>)
    requires
        alpha_ty(t1, t2, b1, b2),
        alpha_ty(t2, t3, b2, b3),
    ensures
        alpha_ty(t1, t3, b1, b3),
    decreases t1,
{
    match (t1, t2, t3) {
        (TyV::App(f1, a1), TyV::App(f2, a2), TyV::App(f3, a3)) => {
            lemma_alpha_ty_trans(*f1, *f2, *f3, b1, b2, b3);
            lemma_alpha_ty_trans(*a1, *a2, *a3, b1, b2, b3);
        },
        (TyV::KindApp(f1, a1), TyV::KindApp(f2, a2), TyV::KindApp(f3, a3)) => {
            lemma_alpha_ty_trans(*f1, *f2, *f3, b1, b2, b3);
            lemma_alpha_ty_trans(*a1, *a2, *a3, b1, b2, b3);
        },
        (TyV::Fun(a1, r1, _), TyV::Fun(a2, r2, _), TyV::Fun(a3, r3, _)) => {
            lemma_alpha_ty_trans(*a1, *a2, *a3, b1, b2, b3);
            lemma_alpha_ty_trans(*r1, *r2, *r3, b1, b2, b3);
        },
        (TyV::List(e1), TyV::List(e2), TyV::List(e3)) => lemma_alpha_ty_trans(*e1, *e2, *e3, b1, b2, b3),
        (TyV::Tuple(e1), TyV::Tuple(e2), TyV::Tuple(e3)) => lemma_alpha_seq_trans(e1, e2, e3, b1, b2, b3),
        (TyV::Forall(v1, d1), TyV::Forall(v2, d2), TyV::Forall(v3, d3)) =>
            lemma_alpha_ty_trans(*d1, *d2, *d3, v1 + b1, v2 + b2, v3 + b3),
        (TyV::RequiredForall(v1, d1), TyV::RequiredForall(v2, d2), TyV::RequiredForall(v3, d3)) =>
            lemma_alpha_ty_trans(*d1, *d2, *d3, v1 + b1, v2 + b2, v3 + b3),
        _ => {},
    }
}

pub proof fn lemma_alpha_seq_trans(e1: Seq<TyV>, e2: Seq<TyV>, e3: Seq<TyV>, b1: Seq<u32>, b2: Seq<u32>, b3: Seq<u32>)
    requires
        alpha_seq(e1, e2, b1, b2),
        alpha_seq(e2, e3, b2, b3),
    ensures
        alpha_seq(e1, e3, b1, b3),
    decreases e1,
{
    if e1.len() > 0 {
        lemma_alpha_seq_trans(e1.drop_last(), e2.drop_last(), e3.drop_last(), b1, b2, b3);
        lemma_alpha_ty_trans(e1.last(), e2.last(), e3.last(), b1, b2, b3);
    }
}

/// Agreement of schemes up to renaming is an equivalence: every scheme
/// agrees with itself, agreement holds both ways, and it chains.
pub proof fn lemma_alpha_scheme_equivalence(s1: SchemeV, s2: SchemeV, s3: SchemeV)
    ensures
        alpha_scheme(s1, s1),
        alpha_scheme(s1, s2) ==> alpha_scheme(s2, s1),
        alpha_scheme(s1, s2) && alpha_scheme(s2, s3) ==> alpha_scheme(s1, s3),
{
    lemma_alpha_ty_refl(s1.ty, s1.vars);
    assert forall|i: int| 0 <= i < s1.preds.len() implies #[trigger] alpha_pred(s1.preds[i], s1.preds[i], s1.vars, s1.vars) by {
        lemma_alpha_ty_refl(s1.preds[i].ty, s1.vars);
        lemma_alpha_seq_refl(s1.preds[i].extra, s1.vars);
    }
    if alpha_scheme(s1, s2) {
        lemma_alpha_ty_symm(s1.ty, s2.ty, s1.vars, s2.vars);
        assert forall|i: int| 0 <= i < s2.preds.len() implies #[trigger] alpha_pred(s2.preds[i], s1.preds[i], s2.vars, s1.vars) by {
            assert(alpha_pred(s1.preds[i], s2.preds[i], s1.vars, s2.vars));
            lemma_alpha_ty_symm(s1.preds[i].ty, s2.preds[i].ty, s1.vars, s2.vars);
            lemma_alpha_seq_symm(s1.preds[i].extra, s2.preds[i].extra, s1.vars, s2.vars);
        }
    }
    if alpha_scheme(s1, s2) && alpha_scheme(s2, s3) {
        lemma_alpha_ty_trans(s1.ty, s2.ty, s3.ty, s1.vars, s2.vars, s3.vars);
        assert forall|i: int| 0 <= i < s1.preds.len() implies #[trigger] alpha_pred(s1.preds[i], s3.preds[i], s1.vars, s3.vars) by {
            assert(alpha_pred(s1.preds[i], s2.preds[i], s1.vars, s2.vars));
            assert(alpha_pred(s2.preds[i], s3.preds[i], s2.vars, s3.vars));
            lemma_alpha_ty_trans(s1.preds[i].ty, s2.preds[i].ty, s3.preds[i].ty, s1.vars, s2.vars, s3.vars);
            lemma_alpha_seq_trans(s1.preds[i].extra, s2.preds[i].extra, s3.preds[i].extra, s1.vars, s2.vars, s3.vars);
        }
    }
}

}
