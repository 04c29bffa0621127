//! Substitutions of unification variables by types.
use vstd::prelude::*;
use crate::alpha_chirho::{first_index, lemma_first_index, lemma_first_index_push};
use crate::ty_chirho::{copy_tys_chirho, lemma_tys_view, lemma_tys_view_push, preds_view, tys_view, vars_concat_chirho, vars_contains_chirho, vars_view,
    PredV, SchemeChirho, SchemePredChirho, SchemeV, TyChirho, TyV, TyVarChirho};
use crate::type_level_chirho::binding_keys;

verus! {

/// Applies the substitution `m` to `t`, leaving alone the variables in
/// `bound` and those that a quantifier inside `t` binds. Arrows keep their
/// multiplicity.
pub open spec fn subst_under(t: TyV, m: Map<u32, TyV>, bound: Seq<u32>) -> TyV
    decreases t,
{
    match t {
        TyV::Var(v) => if !bound.contains(v) && m.dom().contains(v) { m[v] } else { t },
        TyV::App(f, a) => TyV::App(Box::new(subst_under(*f, m, bound)), Box::new(subst_under(*a, m, bound))),
        TyV::KindApp(f, a) => TyV::KindApp(Box::new(subst_under(*f, m, bound)), Box::new(subst_under(*a, m, bound))),
        TyV::Fun(a, b, mu) => TyV::Fun(Box::new(subst_under(*a, m, bound)), Box::new(subst_under(*b, m, bound)), mu),
        TyV::List(e) => TyV::List(Box::new(subst_under(*e, m, bound))),
        TyV::Tuple(es) => TyV::Tuple(subst_under_seq(es, m, bound)),
        TyV::Forall(vs, b) => TyV::Forall(vs, Box::new(subst_under(*b, m, bound + vs))),
        TyV::RequiredForall(vs, b) => TyV::RequiredForall(vs, Box::new(subst_under(*b, m, bound + vs))),
        _ => t,
    }
}

pub open spec fn subst_under_seq(es: Seq<TyV>, m: Map<u32, TyV>, bound: Seq<u32>) -> Seq<TyV>
    decreases es,
{
    if es.len() == 0 {
        Seq::empty()
    } else {
        subst_under_seq(es.drop_last(), m, bound).push(subst_under(es.last(), m, bound))
    }
}

/// The substitution `m` applied to `t`.
pub open spec fn subst_apply(t: TyV, m: Map<u32, TyV>) -> TyV {
    subst_under(t, m, Seq::empty())
}

/// The substitution `m` applied to a predicate, leaving `bound` alone.
pub open spec fn pred_apply_under(p: PredV, m: Map<u32, TyV>, bound: Seq<u32>) -> PredV {
    PredV { class: p.class, ty: subst_under(p.ty, m, bound), extra: subst_under_seq(p.extra, m, bound) }
}

/// The substitution `m` applied to a scheme: its quantified variables are
/// left alone.
pub open spec fn scheme_apply(s: SchemeV, m: Map<u32, TyV>) -> SchemeV {
    SchemeV {
        vars: s.vars,
        preds: s.preds.map_values(|p: PredV| pred_apply_under(p, m, s.vars)),
        ty: subst_under(s.ty, m, s.vars),
    }
}

/// A substitution: variable → type.
pub struct SubstChirho {
    entries_chirho: Vec<(TyVarChirho, TyChirho)>,
}

impl SubstChirho {
    pub closed spec fn map(&self) -> Map<u32, TyV> {
        Map::new(
            |k: u32| first_index(binding_keys(self.entries_chirho@), k) >= 0,
            |k: u32| self.entries_chirho@[first_index(binding_keys(self.entries_chirho@), k)].1@,
        )
    }

    /// The empty substitution.
    pub fn empty_chirho() -> (r: SubstChirho)
        ensures
            r.map() == Map::<u32, TyV>::empty(),
    {
        let r = SubstChirho { entries_chirho: Vec::new() };
        proof {
            assert(binding_keys(r.entries_chirho@) =~= Seq::<u32>::empty());
            assert(r.map() =~= Map::<u32, TyV>::empty());
        }
        r
    }

    /// What `var_chirho` maps to, if anything.
    pub fn get_chirho(&self, var_chirho: u32) -> (r: Option<&TyChirho>)
        ensures
            match r {
                Some(t) => self.map().dom().contains(var_chirho) && self.map()[var_chirho] == t@,
                None => !self.map().dom().contains(var_chirho),
            },
    {
        proof { lemma_first_index(binding_keys(self.entries_chirho@), var_chirho); }
        match self.find_chirho(var_chirho) {
            Some(k) => Some(&self.entries_chirho[k].1),
            None => None,
        }
    }

    fn find_chirho(&self, var_chirho: u32) -> (r: Option<usize>)
        ensures
            match r {
                Some(k) => k == first_index(binding_keys(self.entries_chirho@), var_chirho),
                None => first_index(binding_keys(self.entries_chirho@), var_chirho) == -1,
            },
    {
        let ghost ks = binding_keys(self.entries_chirho@);
        proof { assert(ks.skip(0) =~= ks); }
        let mut i: usize = 0;
        while i < self.entries_chirho.len()
            invariant
                i <= self.entries_chirho.len(),
                ks == binding_keys(self.entries_chirho@),
                first_index(ks, var_chirho) == (if first_index(ks.skip(i as int), var_chirho) < 0 { -1 } else { first_index(ks.skip(i as int), var_chirho) + i }),
            decreases self.entries_chirho.len() - i,
        {
            proof {
                assert(ks.skip(i as int)[0] == self.entries_chirho@[i as int].0.0);
                assert(ks.skip(i as int).drop_first() =~= ks.skip(i + 1));
            }
            if self.entries_chirho[i].0.0 == var_chirho {
                return Some(i);
            }
            i = i + 1;
        }
        proof { assert(ks.skip(i as int).len() == 0); }
        None
    }

    /// Maps `var_chirho` to `ty_chirho`, replacing what it mapped to.
    pub fn insert_chirho(&mut self, var_chirho: TyVarChirho, ty_chirho: TyChirho)
        ensures
            final(self).map() == old(self).map().insert(var_chirho.0, ty_chirho@),
    {
        let ghost ks = binding_keys(self.entries_chirho@);
        let ghost old_map = self.map();
        let ghost old_entries = self.entries_chirho@;
        let ghost tv = ty_chirho@;
        proof { lemma_first_index(ks, var_chirho.0); }
        match self.find_chirho(var_chirho.0) {
            Some(k) => {
                let mut put = (var_chirho, ty_chirho);
                std::mem::swap(&mut put, &mut self.entries_chirho[k]);
                proof {
                    assert(binding_keys(self.entries_chirho@) =~= ks);
                    assert forall|x: u32| #[trigger] self.map().dom().contains(x) implies self.map()[x] == old_map.insert(var_chirho.0, tv)[x] by {
                        lemma_first_index(ks, x);
                        if x != var_chirho.0 {
                            assert(self.entries_chirho@[first_index(ks, x)] == old_entries[first_index(ks, x)]);
                        }
                    }
                    assert(self.map() =~= old_map.insert(var_chirho.0, tv));
                }
            },
            None => {
                self.entries_chirho.push((var_chirho, ty_chirho));
                proof {
                    assert(binding_keys(self.entries_chirho@) =~= ks.push(var_chirho.0));
                    assert forall|x: u32| #[trigger] self.map().dom().contains(x) == old_map.insert(var_chirho.0, tv).dom().contains(x) by {
                        lemma_first_index_push(ks, var_chirho.0, x);
                        lemma_first_index(ks, x);
                    }
                    assert forall|x: u32| #[trigger] self.map().dom().contains(x) implies self.map()[x] == old_map.insert(var_chirho.0, tv)[x] by {
                        lemma_first_index_push(ks, var_chirho.0, x);
                        lemma_first_index(ks, x);
                        if x != var_chirho.0 {
                            assert(self.entries_chirho@[first_index(ks, x)] == old_entries[first_index(ks, x)]);
                        }
                    }
                    assert(self.map() =~= old_map.insert(var_chirho.0, tv));
                }
            },
        }
    }

    fn apply_seq_under_chirho(&self, es: &Vec<TyChirho>, bound: &Vec<TyVarChirho>) -> (r: Vec<TyChirho>)
        ensures
            tys_view(r@) == subst_under_seq(tys_view(es@), self.map(), vars_view(bound@)),
        decreases es@, 0nat,
    {
        let mut out: Vec<TyChirho> = Vec::new();
        let mut i: usize = 0;
        proof {
            lemma_tys_view(es@);
            assert(tys_view(es@).take(0) =~= Seq::<TyV>::empty());
            assert(tys_view(out@) =~= Seq::<TyV>::empty());
        }
        while i < es.len()
            invariant
                i <= es.len(),
                tys_view(es@).len() == es@.len(),
                forall|j: int| 0 <= j < es@.len() ==> #[trigger] tys_view(es@)[j] == es@[j]@,
                tys_view(out@) == subst_under_seq(tys_view(es@).take(i as int), self.map(), vars_view(bound@)),
            decreases es.len() - i,
        {
            proof { assert(decreases_to!(es@ => es@[i as int])); }
            let e = self.apply_under_chirho(&es[i], bound);
            proof {
                lemma_tys_view_push(out@, e);
                let tv = tys_view(es@);
                assert(tv.take(i + 1).drop_last() =~= tv.take(i as int));
                assert(tv.take(i + 1).last() == es@[i as int]@);
            }
            out.push(e);
            i = i + 1;
        }
        proof { assert(tys_view(es@).take(es@.len() as int) =~= tys_view(es@)); }
        out
    }

    fn apply_under_chirho(&self, ty_chirho: &TyChirho, bound: &Vec<TyVarChirho>) -> (r: TyChirho)
        ensures
            r@ == subst_under(ty_chirho@, self.map(), vars_view(bound@)),
        decreases ty_chirho, 1nat,
    {
        match ty_chirho {
            TyChirho::VarChirho(v) => {
                if vars_contains_chirho(bound, v.0) {
                    ty_chirho.copy_chirho()
                } else {
                    match self.get_chirho(v.0) {
                        Some(t) => t.copy_chirho(),
                        None => ty_chirho.copy_chirho(),
                    }
                }
            },
            TyChirho::AppChirho(f, a) => TyChirho::AppChirho(
                Box::new(self.apply_under_chirho(f, bound)),
                Box::new(self.apply_under_chirho(a, bound)),
            ),
            TyChirho::KindAppChirho(f, a) => TyChirho::KindAppChirho(
                Box::new(self.apply_under_chirho(f, bound)),
                Box::new(self.apply_under_chirho(a, bound)),
            ),
            TyChirho::FunChirho(a, b, m) => TyChirho::FunChirho(
                Box::new(self.apply_under_chirho(a, bound)),
                Box::new(self.apply_under_chirho(b, bound)),
                *m,
            ),
            TyChirho::ListChirho(e) => TyChirho::ListChirho(Box::new(self.apply_under_chirho(e, bound))),
            TyChirho::TupleChirho(es) => TyChirho::TupleChirho(self.apply_seq_under_chirho(es, bound)),
            TyChirho::ForallChirho { vars_chirho, body_chirho } => {
                let inner = vars_concat_chirho(bound, vars_chirho);
                TyChirho::ForallChirho {
                    vars_chirho: vars_chirho.clone(),
                    body_chirho: Box::new(self.apply_under_chirho(body_chirho, &inner)),
                }
            },
            TyChirho::RequiredForallChirho { vars_chirho, body_chirho } => {
                let inner = vars_concat_chirho(bound, vars_chirho);
                TyChirho::RequiredForallChirho {
                    vars_chirho: vars_chirho.clone(),
                    body_chirho: Box::new(self.apply_under_chirho(body_chirho, &inner)),
                }
            },
            _ => ty_chirho.copy_chirho(),
        }
    }

    /// Applies the substitution to a type (variables bound by a quantifier
    /// inside the type are left alone).
    pub fn apply_ty_chirho(&self, ty_chirho: &TyChirho) -> (r: TyChirho)
        ensures
            r@ == subst_apply(ty_chirho@, self.map()),
    {
        let none: Vec<TyVarChirho> = Vec::new();
        proof { assert(vars_view(none@) =~= Seq::<u32>::empty()); }
        self.apply_under_chirho(ty_chirho, &none)
    }

    /// Applies the substitution to a scheme, leaving its quantified
    /// variables alone.
    pub fn apply_scheme_chirho(&self, scheme_chirho: &SchemeChirho) -> (r: SchemeChirho)
        ensures
            r@ == scheme_apply(scheme_chirho@, self.map()),
    {
        let bound = &scheme_chirho.vars_chirho;
        let ghost bv = vars_view(bound@);
        let ghost ps = preds_view(scheme_chirho.preds_chirho@);
        let mut preds_chirho: Vec<SchemePredChirho> = Vec::new();
        let mut i: usize = 0;
        while i < scheme_chirho.preds_chirho.len()
            invariant
                i <= scheme_chirho.preds_chirho.len(),
                ps == preds_view(scheme_chirho.preds_chirho@),
                bv == vars_view(bound@),
                *bound == scheme_chirho.vars_chirho,
                preds_chirho@.len() == i,
                forall|j: int| 0 <= j < i ==> (#[trigger] preds_chirho@[j])@ == pred_apply_under(ps[j], self.map(), bv),
            decreases scheme_chirho.preds_chirho.len() - i,
        {
            let p = &scheme_chirho.preds_chirho[i];
            let q = SchemePredChirho {
                class_name_chirho: p.class_name_chirho.clone(),
                ty_chirho: self.apply_under_chirho(&p.ty_chirho, bound),
            };
            proof {
                assert(ps[i as int] == p@);
                assert(subst_under_seq(p@.extra, self.map(), bv) =~= Seq::<TyV>::empty());
            }
            preds_chirho.push(q);
            i = i + 1;
        }
        let r = SchemeChirho {
            vars_chirho: scheme_chirho.vars_chirho.clone(),
            preds_chirho,
            ty_chirho: self.apply_under_chirho(&scheme_chirho.ty_chirho, bound),
        };
        proof {
            assert(preds_view(r.preds_chirho@) =~= ps.map_values(|p: PredV| pred_apply_under(p, self.map(), bv)));
        }
        r
    }
}


/// Following `m1` and then `m2`: the variables of `m1` go to their types
/// under `m2`; the others as `m2` says.
pub open spec fn compose_spec(m2: Map<u32, TyV>, m1: Map<u32, TyV>) -> Map<u32, TyV> {
    Map::new(
        |v: u32| m1.dom().contains(v) || m2.dom().contains(v),
        |v: u32| if m1.dom().contains(v) { subst_apply(m1[v], m2) } else { m2[v] },
    )
}

/// The first position of `x` in a concatenation.
pub proof fn lemma_first_index_concat(a: Seq<u32>, b: Seq<u32>, x: u32)
    ensures
        first_index(a + b, x) == (if a.contains(x) { first_index(a, x) } else if b.contains(x) { a.len() + first_index(b, x) } else { -1 }),
{
    lemma_first_index(a, x);
    lemma_first_index(b, x);
    lemma_first_index(a + b, x);
    let k = first_index(a + b, x);
    if a.contains(x) {
        let ka = first_index(a, x);
        assert((a + b)[ka] == x);
        if k < ka {
            assert(a[k] == x);
        }
    } else if b.contains(x) {
        let kb = first_index(b, x);
        assert((a + b)[a.len() + kb] == x);
        if k >= 0 && k < a.len() {
            assert(a[k] == x);
        }
        if k >= a.len() && k < a.len() + kb {
            assert(b[k - a.len()] == x);
        }
    } else {
        if k >= 0 {
            if k < a.len() { assert(a[k] == x); } else { assert(b[k - a.len()] == x); }
        }
    }
}

impl SubstChirho {
    /// The substitution that applies `other` and then `self`.
    pub fn compose_chirho(&self, other: &SubstChirho) -> (r: SubstChirho)
        ensures
            r.map() == compose_spec(self.map(), other.map()),
    {
        let ghost k1 = binding_keys(other.entries_chirho@);
        let ghost k2 = binding_keys(self.entries_chirho@);
        let mut out: Vec<(TyVarChirho, TyChirho)> = Vec::new();
        let mut i: usize = 0;
        proof { assert(binding_keys(out@) =~= k1.take(0)); }
        while i < other.entries_chirho.len()
            invariant
                i <= other.entries_chirho.len(),
                k1 == binding_keys(other.entries_chirho@),
                out@.len() == i,
                binding_keys(out@) == k1.take(i as int),
                forall|j: int| 0 <= j < i ==> (#[trigger] out@[j]).1@ == subst_apply(other.entries_chirho@[j].1@, self.map()),
            decreases other.entries_chirho.len() - i,
        {
            let t = self.apply_ty_chirho(&other.entries_chirho[i].1);
            let ghost before = out@;
            out.push((other.entries_chirho[i].0, t));
            proof {
                assert(binding_keys(out@) =~= binding_keys(before).push(other.entries_chirho@[i as int].0.0));
                assert(k1.take(i + 1) =~= k1.take(i as int).push(k1[i as int]));
            }
            i = i + 1;
        }
        proof { assert(k1.take(i as int) =~= k1); }
        let n1 = out.len();
        let mut j: usize = 0;
        proof { assert(k1 + k2.take(0) =~= k1); }
        while j < self.entries_chirho.len()
            invariant
                j <= self.entries_chirho.len(),
                k1 == binding_keys(other.entries_chirho@),
                k2 == binding_keys(self.entries_chirho@),
                n1 == k1.len(),
                out@.len() == n1 + j,
                binding_keys(out@) == k1 + k2.take(j as int),
                forall|q: int| 0 <= q < n1 ==> (#[trigger] out@[q]).1@ == subst_apply(other.entries_chirho@[q].1@, self.map()),
                forall|q: int| 0 <= q < j ==> (#[trigger] out@[n1 + q]).1@ == self.entries_chirho@[q].1@,
            decreases self.entries_chirho.len() - j,
        {
            let e = (self.entries_chirho[j].0, self.entries_chirho[j].1.copy_chirho());
            let ghost before = out@;
            out.push(e);
            proof {
                assert(binding_keys(out@) =~= binding_keys(before).push(self.entries_chirho@[j as int].0.0));
                assert(k2.take(j + 1) =~= k2.take(j as int).push(k2[j as int]));
                assert(k1 + k2.take(j + 1) =~= (k1 + k2.take(j as int)).push(k2[j as int]));
                assert forall|q: int| 0 <= q < j + 1 implies (#[trigger] out@[n1 + q]).1@ == self.entries_chirho@[q].1@ by {
                    if q < j { assert(out@[n1 + q] == before[n1 + q]); }
                }
            }
            j = j + 1;
        }
        proof { assert(k2.take(j as int) =~= k2); }
        let r = SubstChirho { entries_chirho: out };
        proof {
            let ko = binding_keys(out@);
            assert(ko == k1 + k2);
            assert forall|v: u32| #[trigger] r.map().dom().contains(v) == compose_spec(self.map(), other.map()).dom().contains(v) by {
                lemma_first_index_concat(k1, k2, v);
                lemma_first_index(k1, v);
                lemma_first_index(k2, v);
            }
            assert forall|v: u32| #[trigger] r.map().dom().contains(v) implies r.map()[v] == compose_spec(self.map(), other.map())[v] by {
                lemma_first_index_concat(k1, k2, v);
                lemma_first_index(k1, v);
                lemma_first_index(k2, v);
                if k1.contains(v) {
                    let q = first_index(k1, v);
                    assert(out@[q].1@ == subst_apply(other.entries_chirho@[q].1@, self.map()));
                } else {
                    let q = first_index(k2, v);
                    assert(out@[n1 + q].1@ == self.entries_chirho@[q].1@);
                }
            }
            assert(r.map() =~= compose_spec(self.map(), other.map()));
        }
        r
    }
}

}
