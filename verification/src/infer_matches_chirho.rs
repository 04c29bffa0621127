//! Inference of a function's equations: fresh variables for its parameters
//! and result, each equation's patterns bound at the parameters in a scope
//! of its own, its right-hand side inferred and unified with the result.
use vstd::prelude::*;
use crate::expr_refs_chirho::{MatchArmChirho, RhsChirho};
use crate::infer_chirho::{InferCtxChirho, SpanChirho};
use crate::infer_expr_chirho::{
    ctx_state, infer_spec, lemma_infer_grows, st_apply, st_diag, st_fresh, st_unify, unsupported_v, wrap_params, same_fixed,
    DiagnosticChirho, DiagnosticKindChirho, InferStateV,
};
use crate::patterns_chirho::{bind_pat, lemma_bind_pat_grows, PatChirho};
use crate::subst_chirho::{compose_spec, subst_apply, SubstChirho};
use crate::ty_chirho::{lemma_tys_view, lemma_tys_view_push, tys_view, TyChirho, TyV};

verus! {

/// An equation's right-hand side: a plain one's expression, a guarded one's
/// first body, or a fresh variable where there is no guard.
pub open spec fn arm_rhs_spec(cf: Seq<(String, Vec<String>)>, st: InferStateV, rhs: RhsChirho) -> (Map<u32, TyV>, TyV, InferStateV) {
    match rhs {
        RhsChirho::UnguardedChirho(e) => infer_spec(cf, st, e),
        RhsChirho::GuardedChirho(gs) => {
            if gs@.len() > 0 {
                infer_spec(cf, st, gs@[0].body_chirho)
            } else {
                let (t, st1) = st_fresh(st);
                (Map::empty(), t, st1)
            }
        },
    }
}

pub proof fn lemma_arm_rhs_grows(cf: Seq<(String, Vec<String>)>, st: InferStateV, rhs: RhsChirho)
    ensures
        arm_rhs_spec(cf, st, rhs).2.next >= st.next,
        arm_rhs_spec(cf, st, rhs).2.stack.len() == st.stack.len(),
{
    match rhs {
        RhsChirho::UnguardedChirho(e) => lemma_infer_grows(cf, st, e),
        RhsChirho::GuardedChirho(gs) => {
            if gs@.len() > 0 {
                lemma_infer_grows(cf, st, gs@[0].body_chirho);
            }
        },
    }
}

/// The patterns of an equation bound, left to right, each at its
/// parameter's type under `s`; patterns beyond the parameters bind nothing.
pub open spec fn bind_arm_pats(cf: Seq<(String, Vec<String>)>, st: InferStateV, ps: Seq<PatChirho>, params: Seq<TyV>, s: Map<u32, TyV>)
    -> InferStateV
    decreases ps.len(),
{
    if ps.len() == 0 {
        st
    } else {
        let st1 = bind_arm_pats(cf, st, ps.drop_last(), params, s);
        let i = ps.len() - 1;
        if i < params.len() {
            let (env, next) = bind_pat(cf, st1.env, st1.next, ps.last(), subst_apply(params[i], s));
            InferStateV { env, next, ..st1 }
        } else {
            st1
        }
    }
}

/// The equations inferred in order: each in a scope of its own, its
/// patterns bound, its right-hand side inferred and unified with the result
/// type `res`; the substitution composed so far and the state after.
pub open spec fn arms_spec(cf: Seq<(String, Vec<String>)>, st: InferStateV, arms: Seq<MatchArmChirho>, params: Seq<TyV>, res: TyV)
    -> (Map<u32, TyV>, InferStateV)
    decreases arms.len(),
{
    if arms.len() == 0 {
        (Map::empty(), st)
    } else {
        let (s, st1) = arms_spec(cf, st, arms.drop_last(), params, res);
        let arm = arms.last();
        let st2 = InferStateV { stack: st1.stack.push(st1.env), ..st1 };
        let st3 = bind_arm_pats(cf, st2, arm.pats_chirho@, params, s);
        let st4 = if arm.where_binds_chirho@.len() > 0 { st_diag(st3, unsupported_v()) } else { st3 };
        let (sr, rt, st5) = arm_rhs_spec(cf, st4, arm.rhs_chirho);
        let s1 = compose_spec(sr, s);
        let st6 = st_apply(st5, sr);
        let (u, st7) = st_unify(st6, subst_apply(res, s1), rt);
        let (s2, st8) = match u {
            Some(su) => (compose_spec(su, s1), st_apply(st7, su)),
            None => (s1, st7),
        };
        (s2, InferStateV { env: st8.stack.last(), stack: st8.stack.drop_last(), ..st8 })
    }
}

/// `n` fresh variables.
pub open spec fn fresh_params(st: InferStateV, n: nat) -> Seq<TyV> {
    Seq::new(n, |i: int| TyV::Var((st.next + i) as u32))
}

/// A function's equations inferred: no equation gives a fresh variable;
/// otherwise the parameters (as many as the first equation has patterns)
/// and the result get fresh variables, the equations are inferred in order,
/// and the type is the arrows from the parameters to the result, all under
/// the substitution found.
pub open spec fn infer_matches_spec(cf: Seq<(String, Vec<String>)>, st: InferStateV, arms: Seq<MatchArmChirho>)
    -> (Map<u32, TyV>, TyV, InferStateV)
{
    if arms.len() == 0 {
        let (t, st1) = st_fresh(st);
        (Map::empty(), t, st1)
    } else {
        let n = arms[0].pats_chirho@.len();
        let params = fresh_params(st, n);
        let st1 = InferStateV { next: st.next + n, ..st };
        let (res, st2) = st_fresh(st1);
        let (s, st3) = arms_spec(cf, st2, arms, params, res);
        (s, wrap_params(params, s, subst_apply(res, s)), st3)
    }
}

pub proof fn lemma_bind_arm_pats_grows(cf: Seq<(String, Vec<String>)>, st: InferStateV, ps: Seq<PatChirho>, params: Seq<TyV>, s: Map<u32, TyV>, k: int)
    requires
        0 <= k <= ps.len(),
    ensures
        bind_arm_pats(cf, st, ps, params, s).next >= bind_arm_pats(cf, st, ps.take(k), params, s).next,
        bind_arm_pats(cf, st, ps.take(k), params, s).next >= st.next,
        bind_arm_pats(cf, st, ps, params, s).stack == st.stack,
        bind_arm_pats(cf, st, ps, params, s).diags == st.diags,
    decreases ps.len(),
{
    if ps.len() > 0 {
        if k == ps.len() {
            assert(ps.take(k) =~= ps);
            lemma_bind_arm_pats_grows(cf, st, ps.drop_last(), params, s, k - 1);
        } else {
            assert(ps.drop_last().take(k) =~= ps.take(k));
            lemma_bind_arm_pats_grows(cf, st, ps.drop_last(), params, s, k);
        }
        let st1 = bind_arm_pats(cf, st, ps.drop_last(), params, s);
        let i = ps.len() - 1;
        if i < params.len() {
            lemma_bind_pat_grows(cf, st1.env, st1.next, ps.last(), subst_apply(params[i], s));
        }
    } else {
        assert(ps.take(k) =~= ps);
    }
}

pub proof fn lemma_arms_grows(cf: Seq<(String, Vec<String>)>, st: InferStateV, arms: Seq<MatchArmChirho>, params: Seq<TyV>, res: TyV, k: int)
    requires
        0 <= k <= arms.len(),
    ensures
        arms_spec(cf, st, arms, params, res).1.next >= arms_spec(cf, st, arms.take(k), params, res).1.next,
        arms_spec(cf, st, arms.take(k), params, res).1.next >= st.next,
        arms_spec(cf, st, arms, params, res).1.stack.len() == st.stack.len(),
    decreases arms.len(),
{
    if arms.len() > 0 {
        if k == arms.len() {
            assert(arms.take(k) =~= arms);
            lemma_arms_grows(cf, st, arms.drop_last(), params, res, k - 1);
        } else {
            assert(arms.drop_last().take(k) =~= arms.take(k));
            lemma_arms_grows(cf, st, arms.drop_last(), params, res, k);
        }
        lemma_arm_step(cf, arms_spec(cf, st, arms.drop_last(), params, res), arms.last(), params, res);
    } else {
        assert(arms.take(k) =~= arms);
    }
}

/// One equation's step only moves the next fresh variable forward and keeps
/// the enclosing scopes.
pub proof fn lemma_arm_step(cf: Seq<(String, Vec<String>)>, prev: (Map<u32, TyV>, InferStateV), arm: MatchArmChirho, params: Seq<TyV>, res: TyV)
    ensures
        ({
            let (s, st1) = prev;
            let st2 = InferStateV { stack: st1.stack.push(st1.env), ..st1 };
            let st3 = bind_arm_pats(cf, st2, arm.pats_chirho@, params, s);
            let st4 = if arm.where_binds_chirho@.len() > 0 { st_diag(st3, unsupported_v()) } else { st3 };
            &&& st3.next >= st1.next
            &&& st3.stack == st2.stack
            &&& arm_rhs_spec(cf, st4, arm.rhs_chirho).2.next >= st4.next
            &&& arm_rhs_spec(cf, st4, arm.rhs_chirho).2.stack.len() == st4.stack.len()
        }),
        arms_spec(cf, prev.1, seq![arm], params, res).1.next >= 0,
{
    let (s, st1) = prev;
    let st2 = InferStateV { stack: st1.stack.push(st1.env), ..st1 };
    lemma_bind_arm_pats_grows(cf, st2, arm.pats_chirho@, params, s, 0);
    assert(arm.pats_chirho@.take(0) =~= Seq::<PatChirho>::empty());
    let st3 = bind_arm_pats(cf, st2, arm.pats_chirho@, params, s);
    let st4 = if arm.where_binds_chirho@.len() > 0 { st_diag(st3, unsupported_v()) } else { st3 };
    lemma_arm_rhs_grows(cf, st4, arm.rhs_chirho);
}

impl InferCtxChirho {
    /// An equation's right-hand side, as `arm_rhs_spec` takes it.
    fn arm_rhs_chirho(&mut self, rhs_chirho: &RhsChirho) -> (r: (SubstChirho, TyChirho))
        requires
            arm_rhs_spec(old(self).con_field_names_chirho@, ctx_state(*old(self)), *rhs_chirho).2.next <= u32::MAX,
        ensures
            (r.0.map(), r.1@, ctx_state(*final(self))) == arm_rhs_spec(old(self).con_field_names_chirho@, ctx_state(*old(self)), *rhs_chirho),
            same_fixed(*old(self), *final(self)),
    {
        match rhs_chirho {
            RhsChirho::UnguardedChirho(e) => self.infer_expr_chirho(e),
            RhsChirho::GuardedChirho(gs) => {
                if gs.len() > 0 {
                    self.infer_expr_chirho(&gs[0].body_chirho)
                } else {
                    let t = self.fresh_st_chirho();
                    (SubstChirho::empty_chirho(), t)
                }
            },
        }
    }

    /// Infers the type of a function's equations: its parameters' and
    /// result's types are fresh variables (as many parameters as the first
    /// equation has patterns); each equation binds its patterns at the
    /// parameters in a scope of its own, and its right-hand side is unified
    /// with the result. The type is the arrows from the parameters to the
    /// result under the substitution found. `where` bindings are reported
    /// as not covered.
    pub fn infer_matches_chirho(&mut self, matches_chirho: &[MatchArmChirho], span_chirho: SpanChirho) -> (r: (SubstChirho, TyChirho))
        requires
            infer_matches_spec(old(self).con_field_names_chirho@, ctx_state(*old(self)), matches_chirho@).2.next <= u32::MAX,
        ensures
            (r.0.map(), r.1@, ctx_state(*final(self))) == infer_matches_spec(old(self).con_field_names_chirho@, ctx_state(*old(self)), matches_chirho@),
            same_fixed(*old(self), *final(self)),
    {
        let ghost cf = self.con_field_names_chirho@;
        let ghost st = ctx_state(*self);
        let ghost c0 = *self;
        let ghost arms = matches_chirho@;
        if matches_chirho.len() == 0 {
            let t = self.fresh_st_chirho();
            return (SubstChirho::empty_chirho(), t);
        }
        let arity = matches_chirho[0].pats_chirho.len();
        let ghost gparams = fresh_params(st, arity as nat);
        let ghost st1 = InferStateV { next: st.next + arity as nat, ..st };
        let ghost (gres, st2) = st_fresh(st1);
        proof {
            lemma_arms_grows(cf, st2, arms, gparams, gres, 0);
            assert(arms.take(0) =~= Seq::<MatchArmChirho>::empty());
        }
        let mut params: Vec<TyChirho> = Vec::new();
        let mut i: usize = 0;
        proof { assert(tys_view(params@) =~= gparams.take(0)); }
        while i < arity
            invariant
                i <= arity,
                st.next + arity < u32::MAX,
                ctx_state(*self) == (InferStateV { next: st.next + i as nat, ..st }),
                tys_view(params@) == gparams.take(i as int),
                gparams == fresh_params(st, arity as nat),
                same_fixed(c0, *self),
            decreases arity - i,
        {
            let t = self.fresh_st_chirho();
            proof {
                lemma_tys_view_push(params@, t);
                assert(gparams.take(i + 1) =~= gparams.take(i as int).push(t@));
            }
            params.push(t);
            i = i + 1;
        }
        proof { assert(gparams.take(arity as int) =~= gparams); }
        let res = self.fresh_st_chirho();
        let mut s = SubstChirho::empty_chirho();
        let mut k: usize = 0;
        while k < matches_chirho.len()
            invariant
                k <= matches_chirho.len(),
                arms == matches_chirho@,
                cf == c0.con_field_names_chirho@,
                tys_view(params@) == gparams,
                res@ == gres,
                arms_spec(cf, st2, arms, gparams, gres).1.next <= u32::MAX,
                same_fixed(c0, *self),
                (s.map(), ctx_state(*self)) == arms_spec(cf, st2, arms.take(k as int), gparams, gres),
            decreases matches_chirho.len() - k,
        {
            let ghost prev = arms_spec(cf, st2, arms.take(k as int), gparams, gres);
            proof {
                lemma_arms_grows(cf, st2, arms, gparams, gres, k + 1);
                assert(arms.take(k + 1).drop_last() =~= arms.take(k as int));
                assert(arms.take(k + 1).last() == arms[k as int]);
                lemma_arm_step(cf, prev, arms[k as int], gparams, gres);
            }
            let arm = &matches_chirho[k];
            self.arm_chirho(arm, &params, &res, &mut s, Ghost(prev), Ghost(arms_spec(cf, st2, arms.take(k + 1), gparams, gres)));
            k = k + 1;
        }
        proof { assert(arms.take(arms.len() as int) =~= arms); }
        let mut acc = s.apply_ty_chirho(&res);
        let mut j: usize = params.len();
        proof {
            lemma_tys_view(params@);
            assert(gparams.take(gparams.len() as int) =~= gparams);
        }
        while j > 0
            invariant
                j <= params.len(),
                gparams == tys_view(params@),
                gparams.len() == params@.len(),
                wrap_params(gparams.take(j as int), s.map(), acc@) == wrap_params(gparams, s.map(), subst_apply(gres, s.map())),
            decreases j,
        {
            j = j - 1;
            let pt = s.apply_ty_chirho(&params[j]);
            proof {
                lemma_tys_view(params@);
                assert(gparams.take(j + 1).drop_last() =~= gparams.take(j as int));
                assert(gparams.take(j + 1).last() == gparams[j as int]);
            }
            acc = TyChirho::fun_chirho(pt, acc);
        }
        proof { assert(gparams.take(0) =~= Seq::<TyV>::empty()); }
        (s, acc)
    }

    /// One equation, as `arms_spec` takes it after the equations before it.
    fn arm_chirho(&mut self, arm: &MatchArmChirho, params: &Vec<TyChirho>, res: &TyChirho, s: &mut SubstChirho,
        Ghost(prev): Ghost<(Map<u32, TyV>, InferStateV)>, Ghost(after): Ghost<(Map<u32, TyV>, InferStateV)>)
        requires
            (old(s).map(), ctx_state(*old(self))) == prev,
            after == ({
                let (s0, st1) = prev;
                let st2 = InferStateV { stack: st1.stack.push(st1.env), ..st1 };
                let st3 = bind_arm_pats(old(self).con_field_names_chirho@, st2, arm.pats_chirho@, tys_view(params@), s0);
                let st4 = if arm.where_binds_chirho@.len() > 0 { st_diag(st3, unsupported_v()) } else { st3 };
                let (sr, rt, st5) = arm_rhs_spec(old(self).con_field_names_chirho@, st4, arm.rhs_chirho);
                let s1 = compose_spec(sr, s0);
                let st6 = st_apply(st5, sr);
                let (u, st7) = st_unify(st6, subst_apply(res@, s1), rt);
                let (s2, st8) = match u {
                    Some(su) => (compose_spec(su, s1), st_apply(st7, su)),
                    None => (s1, st7),
                };
                (s2, InferStateV { env: st8.stack.last(), stack: st8.stack.drop_last(), ..st8 })
            }),
            after.1.next <= u32::MAX,
        ensures
            (final(s).map(), ctx_state(*final(self))) == after,
            same_fixed(*old(self), *final(self)),
    {
        let ghost cf = self.con_field_names_chirho@;
        let ghost c0 = *self;
        let ghost (s0, st1) = prev;
        let ghost ps = arm.pats_chirho@;
        let ghost pv = tys_view(params@);
        let ghost st2 = InferStateV { stack: st1.stack.push(st1.env), ..st1 };
        proof { lemma_arm_step(cf, prev, *arm, pv, res@); }
        let saved = self.env_chirho.copy_chirho();
        self.scope_stack_chirho.push(saved);
        proof {
            assert(ctx_state(*self).stack =~= st2.stack);
            assert(ctx_state(*self).diags =~= st2.diags);
            assert(ctx_state(*self) == st2);
            lemma_tys_view(params@);
            assert(ps.take(0) =~= Seq::<PatChirho>::empty());
        }
        let mut i: usize = 0;
        while i < arm.pats_chirho.len()
            invariant
                i <= arm.pats_chirho.len(),
                ps == arm.pats_chirho@,
                pv == tys_view(params@),
                pv.len() == params@.len(),
                cf == c0.con_field_names_chirho@,
                s0 == s.map(),
                bind_arm_pats(cf, st2, ps, pv, s0).next <= u32::MAX,
                ctx_state(*self) == bind_arm_pats(cf, st2, ps.take(i as int), pv, s0),
                same_fixed(c0, *self),
            decreases arm.pats_chirho.len() - i,
        {
            proof {
                lemma_bind_arm_pats_grows(cf, st2, ps, pv, s0, i + 1);
                assert(ps.take(i + 1).drop_last() =~= ps.take(i as int));
                assert(ps.take(i + 1).last() == ps[i as int]);
            }
            let ghost stp = bind_arm_pats(cf, st2, ps.take(i as int), pv, s0);
            if i < params.len() {
                let pt = s.apply_ty_chirho(&params[i]);
                proof {
                    lemma_tys_view(params@);
                    assert(pt@ == subst_apply(pv[i as int], s0));
                    let (genv, gnext) = bind_pat(cf, stp.env, stp.next, ps[i as int], pt@);
                    assert(bind_arm_pats(cf, st2, ps.take(i + 1), pv, s0) == (InferStateV { env: genv, next: gnext, ..stp }));
                }
                let ghost c1 = *self;
                self.bind_pat_chirho(&arm.pats_chirho[i], &pt);
                proof {
                    assert(ctx_state(*self).stack =~= ctx_state(c1).stack);
                    assert(ctx_state(*self).diags =~= ctx_state(c1).diags);
                }
            } else {
                proof { assert(bind_arm_pats(cf, st2, ps.take(i + 1), pv, s0) == stp); }
            }
            i = i + 1;
        }
        proof { assert(ps.take(ps.len() as int) =~= ps); }
        if arm.where_binds_chirho.len() > 0 {
            let d = DiagnosticChirho {
                kind_chirho: DiagnosticKindChirho::UnsupportedExpressionChirho,
                name_chirho: String::new(),
                types_chirho: Vec::new(),
            };
            proof { assert(tys_view(d.types_chirho@) =~= Seq::<TyV>::empty()); }
            self.report_chirho(d);
        }
        let (sr, rt) = self.arm_rhs_chirho(&arm.rhs_chirho);
        let s1 = sr.compose_chirho(s);
        self.apply_all_st_chirho(&sr);
        let rs = s1.apply_ty_chirho(res);
        match self.unify_st_chirho(&rs, &rt) {
            Some(su) => {
                *s = su.compose_chirho(&s1);
                self.apply_all_st_chirho(&su);
            },
            None => {
                *s = s1;
            },
        }
        let ghost c8 = *self;
        let env = self.scope_stack_chirho.pop().unwrap();
        self.env_chirho = env;
        proof {
            assert(ctx_state(*self).stack =~= ctx_state(c8).stack.drop_last());
            assert(ctx_state(*self).diags =~= ctx_state(c8).diags);
        }
    }
}

}
