//! Expression inference (Algorithm W): each expression gets a type and a
//! substitution, the substitutions found on the way applied to the
//! environment, the enclosing scopes and the deferred predicates.
use vstd::prelude::*;
use crate::env_chirho::TyEnvChirho;
use crate::expr_refs_chirho::{ExprChirho, MatchArmChirho, RhsChirho};
use crate::infer_chirho::{deferred_apply, deferred_view, inst_map, instantiated_preds, infer_lit_chirho, InferCtxChirho, LitChirho,
    SpanChirho};
use crate::patterns_chirho::{bind_pat, lemma_bind_pat_grows, PatChirho};
use crate::subst_chirho::{compose_spec, scheme_apply, subst_apply, SubstChirho};
use crate::ty_chirho::{con_v, fun_v, lemma_tys_view, lemma_tys_view_push, list_v, tys_view, PredChirho, PredV, SchemeV, TyChirho, TyV,
    TyVarChirho};
use crate::unify_chirho::{unify_chirho, unify_ty_spec};

verus! {

/// What a diagnostic reports.
#[derive(Debug, Clone, Copy, PartialEq, Eq, Structural)]
pub enum DiagnosticKindChirho {
    /// A variable that nothing binds.
    UnboundVariableChirho,
    /// A hole (`_` or `_name`) in expression position: a warning.
    HoleChirho,
    /// Two types that do not unify.
    TypeMismatchChirho,
    /// An expression form this inference does not cover.
    UnsupportedExpressionChirho,
}

/// A diagnostic: its kind, the name it concerns (empty where none) and the
/// types it concerns.
#[derive(Debug)]
pub struct DiagnosticChirho {
    pub kind_chirho: DiagnosticKindChirho,
    pub name_chirho: String,
    pub types_chirho: Vec<TyChirho>,
}

/// The content of a diagnostic.
pub ghost struct DiagV {
    pub kind: DiagnosticKindChirho,
    pub name: Seq<char>,
    pub types: Seq<TyV>,
}

impl View for DiagnosticChirho {
    type V = DiagV;

    open spec fn view(&self) -> DiagV {
        DiagV { kind: self.kind_chirho, name: self.name_chirho@, types: tys_view(self.types_chirho@) }
    }
}

/// What inference reads and changes: the environment, the environments of
/// the enclosing scopes, the deferred predicates, the next fresh variable
/// and the diagnostics.
pub ghost struct InferStateV {
    pub env: Map<Seq<char>, SchemeV>,
    pub stack: Seq<Map<Seq<char>, SchemeV>>,
    pub deferred: Seq<(PredV, SpanChirho)>,
    pub next: nat,
    pub diags: Seq<DiagV>,
}

/// The state of an inference context.
pub open spec fn ctx_state(c: InferCtxChirho) -> InferStateV {
    InferStateV {
        env: c.env_chirho.map(),
        stack: c.scope_stack_chirho@.map_values(|e: TyEnvChirho| e.map()),
        deferred: deferred_view(c.deferred_preds_chirho@),
        next: c.next_var_chirho as nat,
        diags: c.diagnostics_chirho@.map_values(|d: DiagnosticChirho| d@),
    }
}

/// A substitution applied to every scheme of an environment.
pub open spec fn env_apply(env: Map<Seq<char>, SchemeV>, m: Map<u32, TyV>) -> Map<Seq<char>, SchemeV> {
    Map::new(|n: Seq<char>| env.dom().contains(n), |n: Seq<char>| scheme_apply(env[n], m))
}

/// A substitution applied to the environment, the enclosing scopes and the
/// deferred predicates.
pub open spec fn st_apply(st: InferStateV, m: Map<u32, TyV>) -> InferStateV {
    InferStateV {
        env: env_apply(st.env, m),
        stack: st.stack.map_values(|e: Map<Seq<char>, SchemeV>| env_apply(e, m)),
        deferred: deferred_apply(st.deferred, m),
        ..st
    }
}

/// A fresh variable.
pub open spec fn st_fresh(st: InferStateV) -> (TyV, InferStateV) {
    (TyV::Var(st.next as u32), InferStateV { next: st.next + 1, ..st })
}

/// A diagnostic added.
pub open spec fn st_diag(st: InferStateV, d: DiagV) -> InferStateV {
    InferStateV { diags: st.diags.push(d), ..st }
}

/// A scheme instantiated with fresh variables, its predicates deferred at
/// `span`; a monomorphic scheme without predicates is its type.
pub open spec fn st_inst(st: InferStateV, s: SchemeV, span: SpanChirho) -> (TyV, InferStateV) {
    if s.vars.len() == 0 && s.preds.len() == 0 {
        (s.ty, st)
    } else {
        let m = inst_map(s.vars, st.next);
        (subst_apply(s.ty, m), InferStateV { next: st.next + s.vars.len(), deferred: st.deferred + instantiated_preds(s.preds, m, span), ..st })
    }
}

/// The mismatch diagnostic of two types.
pub open spec fn mismatch_v(t1: TyV, t2: TyV) -> DiagV {
    DiagV { kind: DiagnosticKindChirho::TypeMismatchChirho, name: Seq::empty(), types: seq![t1, t2] }
}

/// Unifies two types; where they do not unify, the mismatch is reported.
pub open spec fn st_unify(st: InferStateV, t1: TyV, t2: TyV) -> (Option<Map<u32, TyV>>, InferStateV) {
    match unify_ty_spec(t1, t2) {
        Some(s) => (Some(s), st),
        None => (None, st_diag(st, mismatch_v(t1, t2))),
    }
}

/// The span that expressions without a source position report.
pub open spec fn no_span() -> SpanChirho {
    SpanChirho { start_chirho: 0, end_chirho: 0 }
}

/// The type of a literal.
pub open spec fn lit_ty(l: LitChirho) -> TyV {
    match l {
        LitChirho::IntChirho => con_v("Int"@),
        LitChirho::FloatChirho => con_v("Double"@),
        LitChirho::CharChirho => con_v("Char"@),
        LitChirho::StringChirho => list_v(con_v("Char"@)),
    }
}

/// Whether a name is a hole: its text begins with `_`.
pub open spec fn is_hole(n: Seq<char>) -> bool {
    vstd::utf8::encode_utf8(n).len() > 0 && vstd::utf8::encode_utf8(n)[0] == 95u8
}

/// Algorithm W on expression `e`, with `cf` the record constructors' field
/// names: the substitution found, the type (under that substitution) and the
/// state after. A variable or constructor is instantiated from its scheme;
/// an unbound variable is reported (a hole is warned about) and gets a fresh
/// variable, as does an unbound constructor. An application unifies the
/// function's type with an arrow from the argument's type to a fresh result;
/// a condition is unified with `Bool` and the branches with each other; a
/// negation defers `Num`; a tuple's and a list's elements are inferred left
/// to right, a list's elements unified with one fresh element type; a lambda
/// binds its patterns at fresh variables in a scope of its own. Each
/// substitution found is applied to the state at once.
pub open spec fn infer_spec(cf: Seq<(String, Vec<String>)>, st: InferStateV, e: ExprChirho) -> (Map<u32, TyV>, TyV, InferStateV)
    decreases e, 0nat,
{
    match e {
        ExprChirho::LitChirho(l) => (Map::empty(), lit_ty(l), st),
        ExprChirho::VarChirho(n) => {
            if st.env.dom().contains(n@) {
                let (t, st1) = st_inst(st, st.env[n@], no_span());
                (Map::empty(), t, st1)
            } else {
                let kind = if is_hole(n@) { DiagnosticKindChirho::HoleChirho } else { DiagnosticKindChirho::UnboundVariableChirho };
                let (t, st1) = st_fresh(st_diag(st, DiagV { kind, name: n@, types: Seq::empty() }));
                (Map::empty(), t, st1)
            }
        },
        ExprChirho::ConChirho(n) => {
            if st.env.dom().contains(n@) {
                let (t, st1) = st_inst(st, st.env[n@], no_span());
                (Map::empty(), t, st1)
            } else {
                let (t, st1) = st_fresh(st);
                (Map::empty(), t, st1)
            }
        },
        ExprChirho::AppChirho { fun_chirho, arg_chirho } => {
            let (s1, ft, st1) = infer_spec(cf, st, *fun_chirho);
            let (s2, at, st3) = infer_spec(cf, st_apply(st1, s1), *arg_chirho);
            let (r, st4) = st_fresh(st3);
            let (u, st5) = st_unify(st4, subst_apply(ft, s2), fun_v(at, r));
            match u {
                Some(s3) => {
                    let comb = compose_spec(s3, compose_spec(s2, s1));
                    (comb, subst_apply(r, comb), st_apply(st5, s3))
                },
                None => {
                    let (r2, st6) = st_fresh(st5);
                    (compose_spec(s2, s1), r2, st6)
                },
            }
        },
        ExprChirho::IfChirho { cond_chirho, then_chirho, else_chirho } => {
            let (s1, ct, st1) = infer_spec(cf, st, *cond_chirho);
            let (uc, st3) = st_unify(st_apply(st1, s1), ct, con_v("Bool"@));
            let st4 = match uc { Some(sc) => st_apply(st3, sc), None => st3 };
            let (s2, tt, st5) = infer_spec(cf, st4, *then_chirho);
            let (s3, et, st7) = infer_spec(cf, st_apply(st5, s2), *else_chirho);
            let (u, st8) = st_unify(st7, subst_apply(tt, s3), et);
            match u {
                Some(s4) => {
                    let comb = compose_spec(s4, compose_spec(s3, compose_spec(s2, s1)));
                    (comb, subst_apply(et, comb), st_apply(st8, s4))
                },
                None => (compose_spec(s3, compose_spec(s2, s1)), et, st8),
            }
        },
        ExprChirho::ParenChirho { inner_chirho } => infer_spec(cf, st, *inner_chirho),
        ExprChirho::NegChirho { expr_chirho } => {
            let (s, t, st1) = infer_spec(cf, st, *expr_chirho);
            (s, t, InferStateV { deferred: st1.deferred.push((PredV { class: "Num"@, ty: t, extra: Seq::empty() }, no_span())), ..st1 })
        },
        ExprChirho::TupleChirho { elements_chirho } => {
            let (s, ts, st1) = infer_tuple_spec(cf, st, elements_chirho@);
            (s, TyV::Tuple(ts.map_values(|t: TyV| subst_apply(t, s))), st1)
        },
        ExprChirho::ListChirho { elements_chirho } => {
            let (elem, st1) = st_fresh(st);
            let (s, st2) = infer_list_spec(cf, st1, elements_chirho@, elem);
            (s, list_v(subst_apply(elem, s)), st2)
        },
        ExprChirho::LamChirho { pats_chirho, body_chirho } => {
            let st1 = InferStateV { stack: st.stack.push(st.env), ..st };
            let (params, st2) = bind_params_spec(cf, st1, pats_chirho@);
            let (bs, bt, st3) = infer_spec(cf, st2, *body_chirho);
            let st4 = InferStateV { env: st3.stack.last(), stack: st3.stack.drop_last(), ..st3 };
            (bs, wrap_params(params, bs, bt), st4)
        },
        ExprChirho::CaseChirho { scrutinee_chirho, alts_chirho } => {
            let (s1, sty, st1) = infer_spec(cf, st, *scrutinee_chirho);
            let (res, st2) = st_fresh(st_apply(st1, s1));
            let (s, st3) = case_alts_spec(cf, st2, alts_chirho@, sty, res, s1);
            (s, subst_apply(res, s), st3)
        },
        ExprChirho::InfixChirho { left_chirho, op_chirho, right_chirho } => {
            let (opt, st0) = op_inst(st, op_chirho@);
            let (s1, lt, st1) = infer_spec(cf, st0, *left_chirho);
            let st2 = st_apply(st1, s1);
            let (mid, st3) = st_fresh(st2);
            let (u1, st4) = st_unify(st3, subst_apply(opt, s1), fun_v(lt, mid));
            let (s2, st5) = match u1 { Some(s) => (s, st_apply(st4, s)), None => (Map::empty(), st4) };
            let (s3, rt, st6) = infer_spec(cf, st5, *right_chirho);
            let st7 = st_apply(st6, s3);
            let (res, st8) = st_fresh(st7);
            let (u2, st9) = st_unify(st8, subst_apply(subst_apply(mid, s2), s3), fun_v(rt, res));
            let (s4, st10) = match u2 { Some(s) => (s, st_apply(st9, s)), None => (Map::empty(), st9) };
            let comb = compose_spec(s4, compose_spec(s3, compose_spec(s2, compose_spec(s1, Map::empty()))));
            (comb, subst_apply(res, comb), st10)
        },
        _ => {
            let (t, st1) = st_fresh(st_diag(st, unsupported_v()));
            (Map::empty(), t, st1)
        },
    }
}

/// An operator's type: its scheme instantiated where it is bound, else a
/// fresh variable.
pub open spec fn op_inst(st: InferStateV, op: Seq<char>) -> (TyV, InferStateV) {
    if st.env.dom().contains(op) { st_inst(st, st.env[op], no_span()) } else { st_fresh(st) }
}

/// The diagnostic for a form this inference does not cover.
pub open spec fn unsupported_v() -> DiagV {
    DiagV { kind: DiagnosticKindChirho::UnsupportedExpressionChirho, name: Seq::empty(), types: Seq::empty() }
}

/// A right-hand side's type: a plain one's expression, a guarded one's first
/// body, or a fresh variable where there is no guard.
pub open spec fn infer_rhs_spec(cf: Seq<(String, Vec<String>)>, st: InferStateV, rhs: RhsChirho) -> (Map<u32, TyV>, TyV, InferStateV)
    decreases rhs, 0nat,
{
    match rhs {
        RhsChirho::UnguardedChirho(e) => infer_spec(cf, st, e),
        RhsChirho::GuardedChirho(gs) => {
            if gs@.len() > 0 {
                infer_spec(cf, st, gs@[0].body_chirho)
            } else {
                let (t, st1) = st_fresh(st);
                (Map::empty(), t, st1)
            }
        },
    }
}

/// A `case`'s alternatives inferred in order, the substitution starting at
/// `s0` (the scrutinee's).
pub open spec fn case_alts_spec(cf: Seq<(String, Vec<String>)>, st: InferStateV, alts: Seq<MatchArmChirho>, sty: TyV, res: TyV,
    s0: Map<u32, TyV>) -> (Map<u32, TyV>, InferStateV)
    decreases alts, 0nat,
{
    if alts.len() == 0 {
        (s0, st)
    } else {
        case_alt_step(cf, case_alts_spec(cf, st, alts.drop_last(), sty, res, s0), alts.last(), sty, res)
    }
}

/// One alternative, in a scope of its own: its pattern bound at a fresh
/// variable, which is unified with the scrutinee's type `sty`; its
/// right-hand side inferred and unified with the result type `res`.
pub open spec fn case_alt_step(cf: Seq<(String, Vec<String>)>, prev: (Map<u32, TyV>, InferStateV), alt: MatchArmChirho, sty: TyV,
    res: TyV) -> (Map<u32, TyV>, InferStateV)
    decreases alt, 0nat,
{
    let (s, st1) = prev;
    let st2 = InferStateV { stack: st1.stack.push(st1.env), ..st1 };
    let (pt, st3) = st_fresh(st2);
    let st4 = if alt.pats_chirho@.len() > 0 {
        let (env, next) = bind_pat(cf, st3.env, st3.next, alt.pats_chirho@[0], pt);
        InferStateV { env, next, ..st3 }
    } else {
        st3
    };
    let (u1, st5) = st_unify(st4, pt, subst_apply(sty, s));
    let (sa, st6) = match u1 {
        Some(sp) => (compose_spec(sp, s), st_apply(st5, sp)),
        None => (s, st5),
    };
    let st7 = if alt.where_binds_chirho@.len() > 0 { st_diag(st6, unsupported_v()) } else { st6 };
    let (sr, at, st8) = infer_rhs_spec(cf, st7, alt.rhs_chirho);
    let sb = compose_spec(sr, sa);
    let st9 = st_apply(st8, sr);
    let (u2, st10) = st_unify(st9, subst_apply(res, sb), at);
    let (sc, st11) = match u2 {
        Some(su) => (compose_spec(su, sb), st_apply(st10, su)),
        None => (sb, st10),
    };
    (sc, InferStateV { env: st11.stack.last(), stack: st11.stack.drop_last(), ..st11 })
}

/// A tuple's elements inferred left to right: the composed substitution,
/// the elements' types as found, and the state after.
pub open spec fn infer_tuple_spec(cf: Seq<(String, Vec<String>)>, st: InferStateV, es: Seq<ExprChirho>)
    -> (Map<u32, TyV>, Seq<TyV>, InferStateV)
    decreases es, 0nat,
{
    if es.len() == 0 {
        (Map::empty(), Seq::empty(), st)
    } else {
        let (s, ts, st1) = infer_tuple_spec(cf, st, es.drop_last());
        let (si, ti, st2) = infer_spec(cf, st1, es.last());
        (compose_spec(si, s), ts.push(ti), st_apply(st2, si))
    }
}

/// A list's elements inferred left to right, each unified with the element
/// type `elem` under the substitution so far.
pub open spec fn infer_list_spec(cf: Seq<(String, Vec<String>)>, st: InferStateV, es: Seq<ExprChirho>, elem: TyV)
    -> (Map<u32, TyV>, InferStateV)
    decreases es, 0nat,
{
    if es.len() == 0 {
        (Map::empty(), st)
    } else {
        let (s, st1) = infer_list_spec(cf, st, es.drop_last(), elem);
        let (si, ti, st2) = infer_spec(cf, st1, es.last());
        let s1 = compose_spec(si, s);
        let st3 = st_apply(st2, si);
        let (u, st4) = st_unify(st3, subst_apply(elem, s1), ti);
        match u {
            Some(su) => (compose_spec(su, s1), st_apply(st4, su)),
            None => (s1, st4),
        }
    }
}

/// A lambda's patterns bound at fresh variables, left to right: the
/// variables and the state after.
pub open spec fn bind_params_spec(cf: Seq<(String, Vec<String>)>, st: InferStateV, ps: Seq<PatChirho>) -> (Seq<TyV>, InferStateV)
    decreases ps.len(),
{
    if ps.len() == 0 {
        (Seq::empty(), st)
    } else {
        let (ts, st1) = bind_params_spec(cf, st, ps.drop_last());
        let (t, st2) = st_fresh(st1);
        let (env, next) = bind_pat(cf, st2.env, st2.next, ps.last(), t);
        (ts.push(t), InferStateV { env, next, ..st2 })
    }
}

/// The type of a lambda: arrows from its parameters (under the body's
/// substitution) to the body's type.
pub open spec fn wrap_params(params: Seq<TyV>, bs: Map<u32, TyV>, acc: TyV) -> TyV
    decreases params.len(),
{
    if params.len() == 0 {
        acc
    } else {
        wrap_params(params.drop_last(), bs, fun_v(subst_apply(params.last(), bs), acc))
    }
}


/// The parts of a context that inference leaves alone.
pub open spec fn same_fixed(a: InferCtxChirho, b: InferCtxChirho) -> bool {
    &&& a.class_env_chirho == b.class_env_chirho
    &&& a.type_synonyms_chirho == b.type_synonyms_chirho
    &&& a.type_families_chirho == b.type_families_chirho
    &&& a.given_rewrites_chirho == b.given_rewrites_chirho
    &&& a.scoped_tyvars_chirho == b.scoped_tyvars_chirho
    &&& a.con_field_names_chirho == b.con_field_names_chirho
}

/// Inference only moves the next fresh variable forward and leaves as many
/// enclosing scopes as it found.
#[verifier::spinoff_prover]
pub proof fn lemma_infer_grows(cf: Seq<(String, Vec<String>)>, st: InferStateV, e: ExprChirho)
    ensures
        infer_spec(cf, st, e).2.next >= st.next,
        infer_spec(cf, st, e).2.stack.len() == st.stack.len(),
    decreases e, 0nat,
{
    match e {
        ExprChirho::AppChirho { fun_chirho, arg_chirho } => {
            let (s1, ft, st1) = infer_spec(cf, st, *fun_chirho);
            lemma_infer_grows(cf, st, *fun_chirho);
            lemma_infer_grows(cf, st_apply(st1, s1), *arg_chirho);
        },
        ExprChirho::IfChirho { cond_chirho, then_chirho, else_chirho } => {
            let (s1, ct, st1) = infer_spec(cf, st, *cond_chirho);
            lemma_infer_grows(cf, st, *cond_chirho);
            let (uc, st3) = st_unify(st_apply(st1, s1), ct, con_v("Bool"@));
            let st4 = match uc { Some(sc) => st_apply(st3, sc), None => st3 };
            lemma_infer_grows(cf, st4, *then_chirho);
            let (s2, tt, st5) = infer_spec(cf, st4, *then_chirho);
            lemma_infer_grows(cf, st_apply(st5, s2), *else_chirho);
        },
        ExprChirho::ParenChirho { inner_chirho } => lemma_infer_grows(cf, st, *inner_chirho),
        ExprChirho::NegChirho { expr_chirho } => lemma_infer_grows(cf, st, *expr_chirho),
        ExprChirho::TupleChirho { elements_chirho } => lemma_tuple_grows(cf, st, elements_chirho@),
        ExprChirho::ListChirho { elements_chirho } => {
            let (elem, st1) = st_fresh(st);
            lemma_list_grows(cf, st1, elements_chirho@, elem);
        },
        ExprChirho::LamChirho { pats_chirho, body_chirho } => {
            let st1 = InferStateV { stack: st.stack.push(st.env), ..st };
            lemma_bind_params_grows(cf, st1, pats_chirho@);
            let (params, st2) = bind_params_spec(cf, st1, pats_chirho@);
            lemma_infer_grows(cf, st2, *body_chirho);
        },
        ExprChirho::CaseChirho { scrutinee_chirho, alts_chirho } => {
            let (s1, sty, st1) = infer_spec(cf, st, *scrutinee_chirho);
            lemma_infer_grows(cf, st, *scrutinee_chirho);
            let (res, st2) = st_fresh(st_apply(st1, s1));
            lemma_case_grows(cf, st2, alts_chirho@, sty, res, s1);
        },
        ExprChirho::InfixChirho { left_chirho, op_chirho, right_chirho } => {
            let (opt, st0) = op_inst(st, op_chirho@);
            lemma_infer_grows(cf, st0, *left_chirho);
            let (s1, lt, st1) = infer_spec(cf, st0, *left_chirho);
            let st2 = st_apply(st1, s1);
            let (mid, st3) = st_fresh(st2);
            let (u1, st4) = st_unify(st3, subst_apply(opt, s1), fun_v(lt, mid));
            let (s2, st5) = match u1 { Some(s) => (s, st_apply(st4, s)), None => (Map::empty(), st4) };
            lemma_infer_grows(cf, st5, *right_chirho);
        },
        _ => {},
    }
}

#[verifier::rlimit(80)]
#[verifier::spinoff_prover]
pub proof fn lemma_rhs_grows(cf: Seq<(String, Vec<String>)>, st: InferStateV, rhs: RhsChirho)
    ensures
        infer_rhs_spec(cf, st, rhs).2.next >= st.next,
        infer_rhs_spec(cf, st, rhs).2.stack.len() == st.stack.len(),
    decreases rhs, 0nat,
{
    match rhs {
        RhsChirho::UnguardedChirho(e) => lemma_infer_grows(cf, st, e),
        RhsChirho::GuardedChirho(gs) => {
            if gs@.len() > 0 {
                lemma_infer_grows(cf, st, gs@[0].body_chirho);
            }
        },
    }
}

/// The bounds one alternative's step needs: the pattern's binding and the
/// right-hand side stay below the step's next fresh variable.
#[verifier::spinoff_prover]
pub proof fn lemma_alt_step_grows(cf: Seq<(String, Vec<String>)>, prev: (Map<u32, TyV>, InferStateV), alt: MatchArmChirho, sty: TyV,
    res: TyV)
    ensures
        ({
            let (s, st1) = prev;
            let st2 = InferStateV { stack: st1.stack.push(st1.env), ..st1 };
            let (pt, st3) = st_fresh(st2);
            let st4 = if alt.pats_chirho@.len() > 0 {
                let (env, next) = bind_pat(cf, st3.env, st3.next, alt.pats_chirho@[0], pt);
                InferStateV { env, next, ..st3 }
            } else {
                st3
            };
            let (u1, st5) = st_unify(st4, pt, subst_apply(sty, s));
            let (sa, st6) = match u1 {
                Some(sp) => (compose_spec(sp, s), st_apply(st5, sp)),
                None => (s, st5),
            };
            let st7 = if alt.where_binds_chirho@.len() > 0 { st_diag(st6, unsupported_v()) } else { st6 };
            &&& st4.next >= st3.next
            &&& st4.stack == st3.stack
            &&& infer_rhs_spec(cf, st7, alt.rhs_chirho).2.next >= st7.next
            &&& infer_rhs_spec(cf, st7, alt.rhs_chirho).2.stack.len() == st7.stack.len()
            &&& case_alt_step(cf, prev, alt, sty, res).1.next == infer_rhs_spec(cf, st7, alt.rhs_chirho).2.next
        }),
        case_alt_step(cf, prev, alt, sty, res).1.next >= prev.1.next + 1,
        case_alt_step(cf, prev, alt, sty, res).1.stack.len() == prev.1.stack.len(),
    decreases alt, 1nat,
{
    let (s, st1) = prev;
    let st2 = InferStateV { stack: st1.stack.push(st1.env), ..st1 };
    let (pt, st3) = st_fresh(st2);
    if alt.pats_chirho@.len() > 0 {
        lemma_bind_pat_grows(cf, st3.env, st3.next, alt.pats_chirho@[0], pt);
    }
    let st4 = if alt.pats_chirho@.len() > 0 {
        let (env, next) = bind_pat(cf, st3.env, st3.next, alt.pats_chirho@[0], pt);
        InferStateV { env, next, ..st3 }
    } else {
        st3
    };
    let (u1, st5) = st_unify(st4, pt, subst_apply(sty, s));
    let (sa, st6) = match u1 {
        Some(sp) => (compose_spec(sp, s), st_apply(st5, sp)),
        None => (s, st5),
    };
    let st7 = if alt.where_binds_chirho@.len() > 0 { st_diag(st6, unsupported_v()) } else { st6 };
    lemma_rhs_grows(cf, st7, alt.rhs_chirho);
}

#[verifier::spinoff_prover]
pub proof fn lemma_case_grows(cf: Seq<(String, Vec<String>)>, st: InferStateV, alts: Seq<MatchArmChirho>, sty: TyV, res: TyV,
    s0: Map<u32, TyV>)
    ensures
        case_alts_spec(cf, st, alts, sty, res, s0).1.next >= st.next,
        case_alts_spec(cf, st, alts, sty, res, s0).1.stack.len() == st.stack.len(),
    decreases alts, 0nat,
{
    if alts.len() > 0 {
        lemma_case_grows(cf, st, alts.drop_last(), sty, res, s0);
        lemma_alt_step_grows(cf, case_alts_spec(cf, st, alts.drop_last(), sty, res, s0), alts.last(), sty, res);
    }
}

#[verifier::spinoff_prover]
pub proof fn lemma_case_prefix(cf: Seq<(String, Vec<String>)>, st: InferStateV, alts: Seq<MatchArmChirho>, sty: TyV, res: TyV,
    s0: Map<u32, TyV>, k: int)
    requires
        0 <= k <= alts.len(),
    ensures
        case_alts_spec(cf, st, alts.take(k), sty, res, s0).1.next <= case_alts_spec(cf, st, alts, sty, res, s0).1.next,
    decreases alts.len() - k,
{
    if k == alts.len() {
        assert(alts.take(k) =~= alts);
    } else {
        lemma_case_prefix(cf, st, alts, sty, res, s0, k + 1);
        let t = alts.take(k + 1);
        assert(t.drop_last() =~= alts.take(k));
        lemma_alt_step_grows(cf, case_alts_spec(cf, st, alts.take(k), sty, res, s0), t.last(), sty, res);
    }
}

#[verifier::spinoff_prover]
pub proof fn lemma_tuple_grows(cf: Seq<(String, Vec<String>)>, st: InferStateV, es: Seq<ExprChirho>)
    ensures
        infer_tuple_spec(cf, st, es).2.next >= st.next,
        infer_tuple_spec(cf, st, es).2.stack.len() == st.stack.len(),
    decreases es, 0nat,
{
    if es.len() > 0 {
        lemma_tuple_grows(cf, st, es.drop_last());
        let (s, ts, st1) = infer_tuple_spec(cf, st, es.drop_last());
        lemma_infer_grows(cf, st1, es.last());
    }
}

#[verifier::spinoff_prover]
pub proof fn lemma_list_grows(cf: Seq<(String, Vec<String>)>, st: InferStateV, es: Seq<ExprChirho>, elem: TyV)
    ensures
        infer_list_spec(cf, st, es, elem).1.next >= st.next,
        infer_list_spec(cf, st, es, elem).1.stack.len() == st.stack.len(),
    decreases es, 0nat,
{
    if es.len() > 0 {
        lemma_list_grows(cf, st, es.drop_last(), elem);
        let (s, st1) = infer_list_spec(cf, st, es.drop_last(), elem);
        lemma_infer_grows(cf, st1, es.last());
    }
}

#[verifier::spinoff_prover]
pub proof fn lemma_bind_params_grows(cf: Seq<(String, Vec<String>)>, st: InferStateV, ps: Seq<PatChirho>)
    ensures
        bind_params_spec(cf, st, ps).1.next >= st.next,
        bind_params_spec(cf, st, ps).1.stack == st.stack,
        bind_params_spec(cf, st, ps).0.len() == ps.len(),
    decreases ps.len(),
{
    if ps.len() > 0 {
        lemma_bind_params_grows(cf, st, ps.drop_last());
        let (ts, st1) = bind_params_spec(cf, st, ps.drop_last());
        let (t, st2) = st_fresh(st1);
        lemma_bind_pat_grows(cf, st2.env, st2.next, ps.last(), t);
    }
}

#[verifier::spinoff_prover]
pub proof fn lemma_tuple_prefix(cf: Seq<(String, Vec<String>)>, st: InferStateV, es: Seq<ExprChirho>, k: int)
    requires
        0 <= k <= es.len(),
    ensures
        infer_tuple_spec(cf, st, es.take(k)).2.next <= infer_tuple_spec(cf, st, es).2.next,
    decreases es.len() - k,
{
    if k == es.len() {
        assert(es.take(k) =~= es);
    } else {
        lemma_tuple_prefix(cf, st, es, k + 1);
        let t = es.take(k + 1);
        assert(t.drop_last() =~= es.take(k));
        let (s, ts, st1) = infer_tuple_spec(cf, st, es.take(k));
        lemma_infer_grows(cf, st1, t.last());
    }
}

#[verifier::spinoff_prover]
pub proof fn lemma_list_prefix(cf: Seq<(String, Vec<String>)>, st: InferStateV, es: Seq<ExprChirho>, elem: TyV, k: int)
    requires
        0 <= k <= es.len(),
    ensures
        infer_list_spec(cf, st, es.take(k), elem).1.next <= infer_list_spec(cf, st, es, elem).1.next,
    decreases es.len() - k,
{
    if k == es.len() {
        assert(es.take(k) =~= es);
    } else {
        lemma_list_prefix(cf, st, es, elem, k + 1);
        let t = es.take(k + 1);
        assert(t.drop_last() =~= es.take(k));
        let (s, st1) = infer_list_spec(cf, st, es.take(k), elem);
        lemma_infer_grows(cf, st1, t.last());
    }
}

#[verifier::spinoff_prover]
pub proof fn lemma_bind_params_prefix(cf: Seq<(String, Vec<String>)>, st: InferStateV, ps: Seq<PatChirho>, k: int)
    requires
        0 <= k <= ps.len(),
    ensures
        bind_params_spec(cf, st, ps.take(k)).1.next <= bind_params_spec(cf, st, ps).1.next,
    decreases ps.len() - k,
{
    if k == ps.len() {
        assert(ps.take(k) =~= ps);
    } else {
        lemma_bind_params_prefix(cf, st, ps, k + 1);
        let t = ps.take(k + 1);
        assert(t.drop_last() =~= ps.take(k));
        let (ts, st1) = bind_params_spec(cf, st, ps.take(k));
        let (tv, st2) = st_fresh(st1);
        lemma_bind_pat_grows(cf, st2.env, st2.next, t.last(), tv);
    }
}

/// A substitution leaves the names of an environment bound.
#[verifier::spinoff_prover]
pub proof fn lemma_env_apply_dom(env: Map<Seq<char>, SchemeV>, m: Map<u32, TyV>)
    ensures
        env_apply(env, m).dom() == env.dom(),
{
    assert(env_apply(env, m).dom() =~= env.dom());
}

/// Whether two states bind the same names, in the environment and in each
/// enclosing scope.
pub open spec fn same_names(a: InferStateV, b: InferStateV) -> bool {
    &&& a.env.dom() == b.env.dom()
    &&& a.stack.len() == b.stack.len()
    &&& forall|k: int| 0 <= k < a.stack.len() ==> #[trigger] a.stack[k].dom() == b.stack[k].dom()
}

#[verifier::spinoff_prover]
pub proof fn lemma_st_apply_names(st: InferStateV, m: Map<u32, TyV>)
    ensures
        same_names(st, st_apply(st, m)),
{
    lemma_env_apply_dom(st.env, m);
    assert forall|k: int| 0 <= k < st.stack.len() implies #[trigger] st.stack[k].dom() == st_apply(st, m).stack[k].dom() by {
        lemma_env_apply_dom(st.stack[k], m);
    }
}

/// Expression inference leaves the names of the environment and of the
/// enclosing scopes as it found them: what a lambda binds does not escape
/// it, and no name is lost.
#[verifier::rlimit(60)]
#[verifier::spinoff_prover]
pub proof fn lemma_infer_names(cf: Seq<(String, Vec<String>)>, st: InferStateV, e: ExprChirho)
    ensures
        same_names(st, infer_spec(cf, st, e).2),
    decreases e, 1nat,
{
    match e {
        ExprChirho::AppChirho { fun_chirho, arg_chirho } => {
            let (s1, ft, st1) = infer_spec(cf, st, *fun_chirho);
            lemma_infer_names(cf, st, *fun_chirho);
            lemma_st_apply_names(st1, s1);
            let (s2, at, st3) = infer_spec(cf, st_apply(st1, s1), *arg_chirho);
            lemma_infer_names(cf, st_apply(st1, s1), *arg_chirho);
            let (r, st4) = st_fresh(st3);
            let (u, st5) = st_unify(st4, crate::subst_chirho::subst_apply(ft, s2), crate::ty_chirho::fun_v(at, r));
            match u {
                Some(s3) => lemma_st_apply_names(st5, s3),
                None => {},
            }
        },
        ExprChirho::IfChirho { cond_chirho, then_chirho, else_chirho } => {
            let (s1, ct, st1) = infer_spec(cf, st, *cond_chirho);
            lemma_infer_names(cf, st, *cond_chirho);
            lemma_st_apply_names(st1, s1);
            let (uc, st3) = st_unify(st_apply(st1, s1), ct, crate::ty_chirho::con_v("Bool"@));
            let st4 = match uc { Some(sc) => st_apply(st3, sc), None => st3 };
            match uc { Some(sc) => lemma_st_apply_names(st3, sc), None => {} }
            let (s2, tt, st5) = infer_spec(cf, st4, *then_chirho);
            lemma_infer_names(cf, st4, *then_chirho);
            lemma_st_apply_names(st5, s2);
            let (s3, et, st7) = infer_spec(cf, st_apply(st5, s2), *else_chirho);
            lemma_infer_names(cf, st_apply(st5, s2), *else_chirho);
            let (u, st8) = st_unify(st7, crate::subst_chirho::subst_apply(tt, s3), et);
            match u {
                Some(s4) => lemma_st_apply_names(st8, s4),
                None => {},
            }
        },
        ExprChirho::ParenChirho { inner_chirho } => lemma_infer_names(cf, st, *inner_chirho),
        ExprChirho::NegChirho { expr_chirho } => lemma_infer_names(cf, st, *expr_chirho),
        ExprChirho::TupleChirho { elements_chirho } => lemma_tuple_names(cf, st, elements_chirho@),
        ExprChirho::ListChirho { elements_chirho } => {
            let (elem, st1) = st_fresh(st);
            lemma_list_names(cf, st1, elements_chirho@, elem);
        },
        ExprChirho::LamChirho { pats_chirho, body_chirho } => {
            let st1 = InferStateV { stack: st.stack.push(st.env), ..st };
            lemma_bind_params_grows(cf, st1, pats_chirho@);
            let (params, st2) = bind_params_spec(cf, st1, pats_chirho@);
            lemma_infer_names(cf, st2, *body_chirho);
            let (bs, bt, st3) = infer_spec(cf, st2, *body_chirho);
            assert(st2.stack == st1.stack);
            assert(st1.stack[st.stack.len() as int] == st.env);
            assert(st3.stack.len() == st.stack.len() + 1);
            assert(st3.stack[st.stack.len() as int].dom() == st2.stack[st.stack.len() as int].dom());
            assert(st3.stack[st.stack.len() as int].dom() == st.env.dom());
            assert forall|k: int| 0 <= k < st.stack.len() implies #[trigger] st3.stack.drop_last()[k].dom() == st.stack[k].dom() by {
                assert(st3.stack[k].dom() == st2.stack[k].dom());
            }
        },
        ExprChirho::CaseChirho { scrutinee_chirho, alts_chirho } => {
            let (s1, sty, st1) = infer_spec(cf, st, *scrutinee_chirho);
            lemma_infer_names(cf, st, *scrutinee_chirho);
            lemma_st_apply_names(st1, s1);
            let (res, st2) = st_fresh(st_apply(st1, s1));
            lemma_case_names(cf, st2, alts_chirho@, sty, res, s1);
        },
        ExprChirho::InfixChirho { .. } => lemma_infix_names(cf, st, e),
        _ => {},
    }
}

#[verifier::spinoff_prover]
pub proof fn lemma_same_names_trans(a: InferStateV, b: InferStateV, c: InferStateV)
    requires
        same_names(a, b),
        same_names(b, c),
    ensures
        same_names(a, c),
{
    assert forall|k: int| 0 <= k < a.stack.len() implies #[trigger] a.stack[k].dom() == c.stack[k].dom() by {
        assert(a.stack[k].dom() == b.stack[k].dom());
    }
}

/// An infix application leaves the names as it found them.
#[verifier::spinoff_prover]
pub proof fn lemma_infix_names(cf: Seq<(String, Vec<String>)>, st: InferStateV, e: ExprChirho)
    requires
        e is InfixChirho,
    ensures
        same_names(st, infer_spec(cf, st, e).2),
    decreases e, 0nat,
{
    match e {
        ExprChirho::InfixChirho { left_chirho, op_chirho, right_chirho } => {
            let (opt, st0) = op_inst(st, op_chirho@);
            assert(same_names(st, st0));
            lemma_infer_names(cf, st0, *left_chirho);
            let (s1, lt, st1) = infer_spec(cf, st0, *left_chirho);
            lemma_same_names_trans(st, st0, st1);
            lemma_st_apply_names(st1, s1);
            let st2 = st_apply(st1, s1);
            lemma_same_names_trans(st, st1, st2);
            let (mid, st3) = st_fresh(st2);
            let (u1, st4) = st_unify(st3, subst_apply(opt, s1), fun_v(lt, mid));
            assert(same_names(st2, st4));
            lemma_same_names_trans(st, st2, st4);
            let (s2, st5) = match u1 { Some(s) => (s, st_apply(st4, s)), None => (Map::empty(), st4) };
            match u1 { Some(s) => lemma_st_apply_names(st4, s), None => {} }
            lemma_same_names_trans(st, st4, st5);
            lemma_infer_names(cf, st5, *right_chirho);
            let (s3, rt, st6) = infer_spec(cf, st5, *right_chirho);
            lemma_same_names_trans(st, st5, st6);
            lemma_st_apply_names(st6, s3);
            let st7 = st_apply(st6, s3);
            lemma_same_names_trans(st, st6, st7);
            let (res, st8) = st_fresh(st7);
            let (u2, st9) = st_unify(st8, subst_apply(subst_apply(mid, s2), s3), fun_v(rt, res));
            assert(same_names(st7, st9));
            lemma_same_names_trans(st, st7, st9);
            match u2 { Some(s) => lemma_st_apply_names(st9, s), None => {} }
            let (s4, st10) = match u2 { Some(s) => (s, st_apply(st9, s)), None => (Map::empty(), st9) };
            lemma_same_names_trans(st, st9, st10);
        },
        _ => {},
    }
}

#[verifier::rlimit(80)]
#[verifier::spinoff_prover]
pub proof fn lemma_rhs_names(cf: Seq<(String, Vec<String>)>, st: InferStateV, rhs: RhsChirho)
    ensures
        same_names(st, infer_rhs_spec(cf, st, rhs).2),
    decreases rhs, 0nat,
{
    match rhs {
        RhsChirho::UnguardedChirho(e) => lemma_infer_names(cf, st, e),
        RhsChirho::GuardedChirho(gs) => {
            if gs@.len() > 0 {
                lemma_infer_names(cf, st, gs@[0].body_chirho);
            }
        },
    }
}

/// Whether two states' enclosing scopes bind the same names.
pub open spec fn same_scope_names(a: InferStateV, b: InferStateV) -> bool {
    &&& a.stack.len() == b.stack.len()
    &&& forall|k: int| 0 <= k < a.stack.len() ==> #[trigger] a.stack[k].dom() == b.stack[k].dom()
}

#[verifier::spinoff_prover]
pub proof fn lemma_scope_names_trans(a: InferStateV, b: InferStateV, c: InferStateV)
    requires
        same_scope_names(a, b),
        same_scope_names(b, c),
    ensures
        same_scope_names(a, c),
{
    assert forall|k: int| 0 <= k < a.stack.len() implies #[trigger] a.stack[k].dom() == c.stack[k].dom() by {
        assert(a.stack[k].dom() == b.stack[k].dom());
    }
}

/// One alternative leaves the names of the environment and of the enclosing
/// scopes as it found them.
#[verifier::rlimit(80)]
#[verifier::spinoff_prover]
pub proof fn lemma_alt_step_names(cf: Seq<(String, Vec<String>)>, prev: (Map<u32, TyV>, InferStateV), alt: MatchArmChirho, sty: TyV,
    res: TyV)
    ensures
        same_names(prev.1, case_alt_step(cf, prev, alt, sty, res).1),
    decreases alt, 1nat,
{
    let (s, st1) = prev;
    let st2 = InferStateV { stack: st1.stack.push(st1.env), ..st1 };
    let (pt, st3) = st_fresh(st2);
    let st4 = if alt.pats_chirho@.len() > 0 {
        let (env, next) = bind_pat(cf, st3.env, st3.next, alt.pats_chirho@[0], pt);
        InferStateV { env, next, ..st3 }
    } else {
        st3
    };
    assert(st4.stack == st2.stack);
    let (u1, st5) = st_unify(st4, pt, subst_apply(sty, s));
    assert(st5.stack == st2.stack);
    let (sa, st6) = match u1 {
        Some(sp) => (compose_spec(sp, s), st_apply(st5, sp)),
        None => (s, st5),
    };
    match u1 { Some(sp) => lemma_st_apply_names(st5, sp), None => {} }
    assert(same_scope_names(st2, st6));
    let st7 = if alt.where_binds_chirho@.len() > 0 { st_diag(st6, unsupported_v()) } else { st6 };
    assert(st7.stack == st6.stack);
    let (sr, at, st8) = infer_rhs_spec(cf, st7, alt.rhs_chirho);
    lemma_rhs_names(cf, st7, alt.rhs_chirho);
    assert(same_scope_names(st7, st8));
    lemma_scope_names_trans(st2, st7, st8);
    let sb = compose_spec(sr, sa);
    lemma_st_apply_names(st8, sr);
    let st9 = st_apply(st8, sr);
    lemma_scope_names_trans(st2, st8, st9);
    let (u2, st10) = st_unify(st9, subst_apply(res, sb), at);
    assert(st10.stack == st9.stack);
    let (sc, st11) = match u2 {
        Some(su) => (compose_spec(su, sb), st_apply(st10, su)),
        None => (sb, st10),
    };
    match u2 { Some(su) => lemma_st_apply_names(st10, su), None => {} }
    lemma_scope_names_trans(st2, st10, st11);
    assert(case_alt_step(cf, prev, alt, sty, res).1 == (InferStateV { env: st11.stack.last(), stack: st11.stack.drop_last(), ..st11 }));
    assert(st11.stack.len() == st1.stack.len() + 1);
    assert(st11.stack[st1.stack.len() as int].dom() == st2.stack[st1.stack.len() as int].dom());
    assert forall|k: int| 0 <= k < st1.stack.len() implies #[trigger] st11.stack.drop_last()[k].dom() == st1.stack[k].dom() by {
        assert(st11.stack[k].dom() == st2.stack[k].dom());
    }
}

#[verifier::spinoff_prover]
pub proof fn lemma_case_names(cf: Seq<(String, Vec<String>)>, st: InferStateV, alts: Seq<MatchArmChirho>, sty: TyV, res: TyV,
    s0: Map<u32, TyV>)
    ensures
        same_names(st, case_alts_spec(cf, st, alts, sty, res, s0).1),
    decreases alts, 0nat,
{
    if alts.len() > 0 {
        lemma_case_names(cf, st, alts.drop_last(), sty, res, s0);
        let prev = case_alts_spec(cf, st, alts.drop_last(), sty, res, s0);
        lemma_alt_step_names(cf, prev, alts.last(), sty, res);
        let fin = case_alt_step(cf, prev, alts.last(), sty, res).1;
        assert forall|k: int| 0 <= k < st.stack.len() implies #[trigger] st.stack[k].dom() == fin.stack[k].dom() by {
            assert(st.stack[k].dom() == prev.1.stack[k].dom());
        }
    }
}

#[verifier::spinoff_prover]
pub proof fn lemma_tuple_names(cf: Seq<(String, Vec<String>)>, st: InferStateV, es: Seq<ExprChirho>)
    ensures
        same_names(st, infer_tuple_spec(cf, st, es).2),
    decreases es, 0nat,
{
    if es.len() > 0 {
        lemma_tuple_names(cf, st, es.drop_last());
        let (s, ts, st1) = infer_tuple_spec(cf, st, es.drop_last());
        lemma_infer_names(cf, st1, es.last());
        let (si, ti, st2) = infer_spec(cf, st1, es.last());
        lemma_st_apply_names(st2, si);
    }
}

#[verifier::spinoff_prover]
pub proof fn lemma_list_names(cf: Seq<(String, Vec<String>)>, st: InferStateV, es: Seq<ExprChirho>, elem: TyV)
    ensures
        same_names(st, infer_list_spec(cf, st, es, elem).1),
    decreases es, 0nat,
{
    if es.len() > 0 {
        lemma_list_names(cf, st, es.drop_last(), elem);
        let (s, st1) = infer_list_spec(cf, st, es.drop_last(), elem);
        lemma_infer_names(cf, st1, es.last());
        let (si, ti, st2) = infer_spec(cf, st1, es.last());
        let s1 = crate::subst_chirho::compose_spec(si, s);
        lemma_st_apply_names(st2, si);
        let st3 = st_apply(st2, si);
        let (u, st4) = st_unify(st3, crate::subst_chirho::subst_apply(elem, s1), ti);
        match u {
            Some(su) => lemma_st_apply_names(st4, su),
            None => {},
        }
    }
}

/// Whether a name is a hole: its text begins with `_`.
fn is_hole_chirho(n: &str) -> (r: bool)
    ensures
        r == is_hole(n@),
{
    let b = n.as_bytes();
    b.len() > 0 && b[0] == 95u8
}

impl InferCtxChirho {
    /// Applies a substitution to the environment, the enclosing scopes and
    /// the deferred predicates.
    pub(crate) fn apply_all_st_chirho(&mut self, s: &SubstChirho)
        ensures
            ctx_state(*final(self)) == st_apply(ctx_state(*old(self)), s.map()),
            same_fixed(*old(self), *final(self)),
    {
        self.apply_subst_all_chirho(s);
        proof {
            let a = ctx_state(*old(self));
            let b = ctx_state(*self);
            assert(b.env =~= env_apply(a.env, s.map()));
            assert(b.stack =~= a.stack.map_values(|e: Map<Seq<char>, SchemeV>| env_apply(e, s.map())));
            assert(b.diags =~= a.diags);
        }
    }

    /// A fresh variable, as a state step.
    pub(crate) fn fresh_st_chirho(&mut self) -> (r: TyChirho)
        requires
            old(self).next_var_chirho < u32::MAX,
        ensures
            (r@, ctx_state(*final(self))) == st_fresh(ctx_state(*old(self))),
            same_fixed(*old(self), *final(self)),
    {
        let r = self.fresh_var_chirho();
        proof {
            let a = ctx_state(*old(self));
            let b = ctx_state(*self);
            assert(b.stack =~= a.stack);
            assert(b.diags =~= a.diags);
        }
        r
    }

    /// Adds a diagnostic.
    pub(crate) fn report_chirho(&mut self, d: DiagnosticChirho)
        ensures
            ctx_state(*final(self)) == st_diag(ctx_state(*old(self)), d@),
            same_fixed(*old(self), *final(self)),
    {
        let ghost dv = d@;
        self.diagnostics_chirho.push(d);
        proof {
            let a = ctx_state(*old(self));
            let b = ctx_state(*self);
            assert(b.diags =~= a.diags.push(dv));
            assert(b.stack =~= a.stack);
        }
    }

    /// Unifies two types, reporting a mismatch.
    pub(crate) fn unify_st_chirho(&mut self, t1: &TyChirho, t2: &TyChirho) -> (r: Option<SubstChirho>)
        ensures
            ((match r { Some(s) => Some(s.map()), None => None }), ctx_state(*final(self))) == st_unify(ctx_state(*old(self)), t1@, t2@),
            same_fixed(*old(self), *final(self)),
    {
        match unify_chirho(t1, t2) {
            Ok(s) => Some(s),
            Err(e) => {
                let types = vec![e.left_chirho, e.right_chirho];
                proof {
                    lemma_tys_view(types@);
                    assert(tys_view(types@) =~= seq![t1@, t2@]);
                }
                self.report_chirho(DiagnosticChirho {
                    kind_chirho: DiagnosticKindChirho::TypeMismatchChirho,
                    name_chirho: String::new(),
                    types_chirho: types,
                });
                None
            },
        }
    }

    /// Instantiates the scheme bound to `n`, as a state step.
    fn inst_st_chirho(&mut self, n: &str) -> (r: TyChirho)
        requires
            old(self).env_chirho.map().dom().contains(n@),
            st_inst(ctx_state(*old(self)), old(self).env_chirho.map()[n@], no_span()).1.next <= u32::MAX,
        ensures
            (r@, ctx_state(*final(self))) == st_inst(ctx_state(*old(self)), old(self).env_chirho.map()[n@], no_span()),
            same_fixed(*old(self), *final(self)),
    {
        let scheme_chirho = self.env_chirho.lookup_chirho(n).unwrap().copy_chirho();
        let span = SpanChirho::dummy_chirho();
        let r = self.instantiate_chirho(&scheme_chirho, span);
        proof {
            let a = ctx_state(*old(self));
            let b = ctx_state(*self);
            assert(span == no_span());
            assert(b.stack =~= a.stack);
            assert(b.diags =~= a.diags);
        }
        r
    }
}


impl InferCtxChirho {
    /// Infers the type of an expression (Algorithm W): the substitution
    /// found and the type under it. The environment, the enclosing scopes
    /// and the deferred predicates take every substitution found; unbound
    /// names, holes, mismatches and uncovered forms are reported.
    #[verifier::spinoff_prover]
    pub fn infer_expr_chirho(&mut self, e: &ExprChirho) -> (r: (SubstChirho, TyChirho))
        requires
            infer_spec(old(self).con_field_names_chirho@, ctx_state(*old(self)), *e).2.next <= u32::MAX,
        ensures
            (r.0.map(), r.1@, ctx_state(*final(self))) == infer_spec(old(self).con_field_names_chirho@, ctx_state(*old(self)), *e),
            same_fixed(*old(self), *final(self)),
            final(self).env_chirho.map().dom() == old(self).env_chirho.map().dom(),
        decreases e, 1nat,
    {
        let ghost cf = self.con_field_names_chirho@;
        let ghost st = ctx_state(*self);
        proof {
            lemma_infer_grows(cf, st, *e);
            lemma_infer_names(cf, st, *e);
        }
        match e {
            ExprChirho::LitChirho(l) => (SubstChirho::empty_chirho(), infer_lit_chirho(l)),
            ExprChirho::VarChirho(n) => {
                if self.env_chirho.lookup_chirho(n.as_str()).is_some() {
                    let t = self.inst_st_chirho(n.as_str());
                    (SubstChirho::empty_chirho(), t)
                } else {
                    let kind = if is_hole_chirho(n.as_str()) {
                        DiagnosticKindChirho::HoleChirho
                    } else {
                        DiagnosticKindChirho::UnboundVariableChirho
                    };
                    let d = DiagnosticChirho { kind_chirho: kind, name_chirho: n.clone(), types_chirho: Vec::new() };
                    proof { assert(tys_view(d.types_chirho@) =~= Seq::<TyV>::empty()); }
                    self.report_chirho(d);
                    let t = self.fresh_st_chirho();
                    (SubstChirho::empty_chirho(), t)
                }
            },
            ExprChirho::ConChirho(n) => {
                if self.env_chirho.lookup_chirho(n.as_str()).is_some() {
                    let t = self.inst_st_chirho(n.as_str());
                    (SubstChirho::empty_chirho(), t)
                } else {
                    let t = self.fresh_st_chirho();
                    (SubstChirho::empty_chirho(), t)
                }
            },
            ExprChirho::AppChirho { fun_chirho, arg_chirho } => {
                let ghost st1 = infer_spec(cf, st, **fun_chirho).2;
                proof { lemma_infer_grows(cf, st_apply(st1, infer_spec(cf, st, **fun_chirho).0), **arg_chirho); }
                let (s1, ft) = self.infer_expr_chirho(fun_chirho);
                self.apply_all_st_chirho(&s1);
                let (s2, at) = self.infer_expr_chirho(arg_chirho);
                let r = self.fresh_st_chirho();
                let ft2 = s2.apply_ty_chirho(&ft);
                let fnt = TyChirho::fun_chirho(at, r.copy_chirho());
                match self.unify_st_chirho(&ft2, &fnt) {
                    Some(s3) => {
                        let comb = s3.compose_chirho(&s2.compose_chirho(&s1));
                        let rt = comb.apply_ty_chirho(&r);
                        self.apply_all_st_chirho(&s3);
                        (comb, rt)
                    },
                    None => {
                        let r2 = self.fresh_st_chirho();
                        (s2.compose_chirho(&s1), r2)
                    },
                }
            },
            ExprChirho::IfChirho { cond_chirho, then_chirho, else_chirho } => {
                let ghost (gs1, gct, gst1) = infer_spec(cf, st, **cond_chirho);
                let ghost (guc, gst3) = st_unify(st_apply(gst1, gs1), gct, con_v("Bool"@));
                let ghost gst4 = match guc { Some(sc) => st_apply(gst3, sc), None => gst3 };
                let ghost (gs2, gtt, gst5) = infer_spec(cf, gst4, **then_chirho);
                proof {
                    lemma_infer_grows(cf, gst4, **then_chirho);
                    lemma_infer_grows(cf, st_apply(gst5, gs2), **else_chirho);
                }
                let (s1, ct) = self.infer_expr_chirho(cond_chirho);
                self.apply_all_st_chirho(&s1);
                let boolt = TyChirho::bool_chirho();
                match self.unify_st_chirho(&ct, &boolt) {
                    Some(sc) => self.apply_all_st_chirho(&sc),
                    None => {},
                }
                let (s2, tt) = self.infer_expr_chirho(then_chirho);
                self.apply_all_st_chirho(&s2);
                let (s3, et) = self.infer_expr_chirho(else_chirho);
                let tt2 = s3.apply_ty_chirho(&tt);
                match self.unify_st_chirho(&tt2, &et) {
                    Some(s4) => {
                        let comb = s4.compose_chirho(&s3.compose_chirho(&s2.compose_chirho(&s1)));
                        let rt = comb.apply_ty_chirho(&et);
                        self.apply_all_st_chirho(&s4);
                        (comb, rt)
                    },
                    None => (s3.compose_chirho(&s2.compose_chirho(&s1)), et),
                }
            },
            ExprChirho::ParenChirho { inner_chirho } => self.infer_expr_chirho(inner_chirho),
            ExprChirho::NegChirho { expr_chirho } => {
                let (s, t) = self.infer_expr_chirho(expr_chirho);
                let ghost d0 = self.deferred_preds_chirho@;
                let ghost c1 = *self;
                let p = PredChirho::new_chirho("Num", t.copy_chirho());
                let span = SpanChirho::dummy_chirho();
                self.deferred_preds_chirho.push((p, span));
                proof {
                    reveal_strlit("Num");
                    assert(deferred_view(self.deferred_preds_chirho@) =~= deferred_view(d0).push((p@, span)));
                    assert(ctx_state(*self).stack =~= ctx_state(c1).stack);
                    assert(ctx_state(*self).diags =~= ctx_state(c1).diags);
                }
                (s, t)
            },
            ExprChirho::TupleChirho { elements_chirho } => {
                let (s, ts) = self.infer_tuple_chirho(elements_chirho);
                let mut out: Vec<TyChirho> = Vec::new();
                let mut i: usize = 0;
                proof { lemma_tys_view(ts@); }
                while i < ts.len()
                    invariant
                        i <= ts.len(),
                        tys_view(ts@).len() == ts@.len(),
                        tys_view(out@) == tys_view(ts@).take(i as int).map_values(|t: TyV| subst_apply(t, s.map())),
                    decreases ts.len() - i,
                {
                    let t = s.apply_ty_chirho(&ts[i]);
                    proof {
                        lemma_tys_view_push(out@, t);
                        lemma_tys_view(ts@);
                        assert(tys_view(ts@).take(i + 1) =~= tys_view(ts@).take(i as int).push(tys_view(ts@)[i as int]));
                        assert(tys_view(ts@).take(i + 1).map_values(|t: TyV| subst_apply(t, s.map()))
                            =~= tys_view(ts@).take(i as int).map_values(|t: TyV| subst_apply(t, s.map())).push(t@));
                    }
                    out.push(t);
                    i = i + 1;
                }
                proof { assert(tys_view(ts@).take(ts@.len() as int) =~= tys_view(ts@)); }
                (s, TyChirho::TupleChirho(out))
            },
            ExprChirho::ListChirho { elements_chirho } => {
                proof {
                    let (gelem, gst1) = st_fresh(st);
                    lemma_list_grows(cf, gst1, elements_chirho@, gelem);
                }
                let elem = self.fresh_st_chirho();
                let s = self.infer_list_chirho(elements_chirho, &elem);
                let t = s.apply_ty_chirho(&elem);
                (s, TyChirho::list_chirho(t))
            },
            ExprChirho::LamChirho { pats_chirho, body_chirho } => {
                let ghost st1 = InferStateV { stack: st.stack.push(st.env), ..st };
                let ghost (gps, gst2) = bind_params_spec(cf, st1, pats_chirho@);
                proof {
                    lemma_bind_params_grows(cf, st1, pats_chirho@);
                    lemma_infer_grows(cf, gst2, **body_chirho);
                }
                let ghost c0 = *self;
                let saved = self.env_chirho.copy_chirho();
                self.scope_stack_chirho.push(saved);
                proof {
                    assert(ctx_state(*self).stack =~= st.stack.push(st.env));
                    assert(ctx_state(*self).diags =~= st.diags);
                    assert(ctx_state(*self) == st1);
                }
                let params = self.bind_params_chirho(pats_chirho);
                let (bs, bt) = self.infer_expr_chirho(body_chirho);
                let ghost c3 = *self;
                let ghost st3 = ctx_state(c3);
                let env = self.scope_stack_chirho.pop().unwrap();
                self.env_chirho = env;
                proof {
                    assert(ctx_state(*self).stack =~= st3.stack.drop_last());
                    assert(ctx_state(*self).diags =~= st3.diags);
                    assert(ctx_state(*self).env == st3.stack.last());
                }
                let mut acc = bt;
                let mut k: usize = params.len();
                let ghost ps = tys_view(params@);
                proof {
                    lemma_tys_view(params@);
                    assert(ps.take(ps.len() as int) =~= ps);
                }
                while k > 0
                    invariant
                        k <= params.len(),
                        ps == tys_view(params@),
                        ps.len() == params@.len(),
                        wrap_params(ps.take(k as int), bs.map(), acc@) == wrap_params(ps, bs.map(), bt@),
                    decreases k,
                {
                    k = k - 1;
                    let pt = bs.apply_ty_chirho(&params[k]);
                    proof {
                        lemma_tys_view(params@);
                        assert(ps.take(k + 1).drop_last() =~= ps.take(k as int));
                        assert(ps.take(k + 1).last() == ps[k as int]);
                    }
                    acc = TyChirho::fun_chirho(pt, acc);
                }
                proof { assert(ps.take(0) =~= Seq::<TyV>::empty()); }
                (bs, acc)
            },
            ExprChirho::InfixChirho { left_chirho, op_chirho, right_chirho } => {
                let ghost (gopt, gst0) = op_inst(st, op_chirho@);
                let ghost (gs1, glt, gst1) = infer_spec(cf, gst0, **left_chirho);
                let ghost gst2 = st_apply(gst1, gs1);
                let ghost (gmid, gst3) = st_fresh(gst2);
                let ghost (gu1, gst4) = st_unify(gst3, subst_apply(gopt, gs1), fun_v(glt, gmid));
                let ghost (gs2, gst5) = match gu1 { Some(s) => (s, st_apply(gst4, s)), None => (Map::empty(), gst4) };
                proof {
                    lemma_infer_grows(cf, gst0, **left_chirho);
                    lemma_infer_grows(cf, gst5, **right_chirho);
                }
                let opt = if self.env_chirho.lookup_chirho(op_chirho.as_str()).is_some() {
                    self.inst_st_chirho(op_chirho.as_str())
                } else {
                    self.fresh_st_chirho()
                };
                let (s1, lt) = self.infer_expr_chirho(left_chirho);
                let opt1 = s1.apply_ty_chirho(&opt);
                self.apply_all_st_chirho(&s1);
                let mid = self.fresh_st_chirho();
                let expected = TyChirho::fun_chirho(lt, mid.copy_chirho());
                let s2 = match self.unify_st_chirho(&opt1, &expected) {
                    Some(s) => {
                        self.apply_all_st_chirho(&s);
                        s
                    },
                    None => SubstChirho::empty_chirho(),
                };
                let mid1 = s2.apply_ty_chirho(&mid);
                let (s3, rt) = self.infer_expr_chirho(right_chirho);
                let mid2 = s3.apply_ty_chirho(&mid1);
                self.apply_all_st_chirho(&s3);
                let res = self.fresh_st_chirho();
                let expected2 = TyChirho::fun_chirho(rt, res.copy_chirho());
                let s4 = match self.unify_st_chirho(&mid2, &expected2) {
                    Some(s) => {
                        self.apply_all_st_chirho(&s);
                        s
                    },
                    None => SubstChirho::empty_chirho(),
                };
                let comb = s4.compose_chirho(&s3.compose_chirho(&s2.compose_chirho(&s1.compose_chirho(&SubstChirho::empty_chirho()))));
                let t = comb.apply_ty_chirho(&res);
                (comb, t)
            },
            ExprChirho::CaseChirho { scrutinee_chirho, alts_chirho } => {
                let ghost (gs1, gsty, gst1) = infer_spec(cf, st, **scrutinee_chirho);
                let ghost (gres, gst2) = st_fresh(st_apply(gst1, gs1));
                proof { lemma_case_grows(cf, gst2, alts_chirho@, gsty, gres, gs1); }
                let (s1, sty) = self.infer_expr_chirho(scrutinee_chirho);
                self.apply_all_st_chirho(&s1);
                let res = self.fresh_st_chirho();
                let s = self.infer_case_alts_chirho(alts_chirho, &sty, &res, s1);
                let t = s.apply_ty_chirho(&res);
                (s, t)
            },
            _ => {
                let d = DiagnosticChirho {
                    kind_chirho: DiagnosticKindChirho::UnsupportedExpressionChirho,
                    name_chirho: String::new(),
                    types_chirho: Vec::new(),
                };
                proof { assert(tys_view(d.types_chirho@) =~= Seq::<TyV>::empty()); }
                self.report_chirho(d);
                let t = self.fresh_st_chirho();
                (SubstChirho::empty_chirho(), t)
            },
        }
    }

    /// Infers a right-hand side: a plain one's expression, a guarded one's
    /// first body, or a fresh variable where there is no guard.
    #[verifier::rlimit(80)]
    #[verifier::spinoff_prover]
    pub fn infer_rhs_chirho(&mut self, rhs_chirho: &RhsChirho) -> (r: (SubstChirho, TyChirho))
        requires
            infer_rhs_spec(old(self).con_field_names_chirho@, ctx_state(*old(self)), *rhs_chirho).2.next <= u32::MAX,
        ensures
            (r.0.map(), r.1@, ctx_state(*final(self))) == infer_rhs_spec(old(self).con_field_names_chirho@, ctx_state(*old(self)), *rhs_chirho),
            same_fixed(*old(self), *final(self)),
        decreases rhs_chirho, 0nat,
    {
        match rhs_chirho {
            RhsChirho::UnguardedChirho(e) => self.infer_expr_chirho(e),
            RhsChirho::GuardedChirho(gs) => {
                if gs.len() > 0 {
                    self.infer_expr_chirho(&gs[0].body_chirho)
                } else {
                    let t = self.fresh_st_chirho();
                    (SubstChirho::empty_chirho(), t)
                }
            },
        }
    }

    /// A `case`'s alternatives inferred in order.
    #[verifier::spinoff_prover]
    fn infer_case_alts_chirho(&mut self, alts: &Vec<MatchArmChirho>, sty: &TyChirho, res: &TyChirho, s0: SubstChirho) -> (r: SubstChirho)
        requires
            case_alts_spec(old(self).con_field_names_chirho@, ctx_state(*old(self)), alts@, sty@, res@, s0.map()).1.next <= u32::MAX,
        ensures
            (r.map(), ctx_state(*final(self))) == case_alts_spec(old(self).con_field_names_chirho@, ctx_state(*old(self)), alts@, sty@, res@, s0.map()),
            same_fixed(*old(self), *final(self)),
        decreases alts@, 0nat,
    {
        let ghost cf = self.con_field_names_chirho@;
        let ghost st0 = ctx_state(*self);
        let ghost c0 = *self;
        let ghost m0 = s0.map();
        let mut s = s0;
        let mut k: usize = 0;
        proof { assert(alts@.take(0) =~= Seq::<MatchArmChirho>::empty()); }
        while k < alts.len()
            invariant
                k <= alts.len(),
                cf == c0.con_field_names_chirho@,
                st0 == ctx_state(c0),
                case_alts_spec(cf, st0, alts@, sty@, res@, m0).1.next <= u32::MAX,
                same_fixed(c0, *self),
                (s.map(), ctx_state(*self)) == case_alts_spec(cf, st0, alts@.take(k as int), sty@, res@, m0),
            decreases alts.len() - k,
        {
            proof {
                lemma_case_prefix(cf, st0, alts@, sty@, res@, m0, k + 1);
                assert(alts@.take(k + 1).drop_last() =~= alts@.take(k as int));
                assert(alts@.take(k + 1).last() == alts@[k as int]);
            }
            s = self.case_alt_chirho(&alts[k], sty, res, s);
            k = k + 1;
        }
        proof { assert(alts@.take(alts@.len() as int) =~= alts@); }
        s
    }

    /// One alternative of a `case`, as `case_alt_step` takes it.
    #[verifier::spinoff_prover]
    fn case_alt_chirho(&mut self, alt: &MatchArmChirho, sty: &TyChirho, res: &TyChirho, s: SubstChirho) -> (r: SubstChirho)
        requires
            case_alt_step(old(self).con_field_names_chirho@, (s.map(), ctx_state(*old(self))), *alt, sty@, res@).1.next <= u32::MAX,
        ensures
            (r.map(), ctx_state(*final(self))) == case_alt_step(old(self).con_field_names_chirho@, (s.map(), ctx_state(*old(self))), *alt, sty@, res@),
            same_fixed(*old(self), *final(self)),
        decreases alt, 0nat,
    {
        let ghost cf = self.con_field_names_chirho@;
        let ghost st1 = ctx_state(*self);
        proof { lemma_alt_step_grows(cf, (s.map(), st1), *alt, sty@, res@); }
        let saved = self.env_chirho.copy_chirho();
        self.scope_stack_chirho.push(saved);
        proof {
            assert(ctx_state(*self).stack =~= st1.stack.push(st1.env));
            assert(ctx_state(*self).diags =~= st1.diags);
        }
        let pt = self.fresh_st_chirho();
        if alt.pats_chirho.len() > 0 {
            let ghost c1 = *self;
            self.bind_pat_chirho(&alt.pats_chirho[0], &pt);
            proof {
                assert(ctx_state(*self).stack =~= ctx_state(c1).stack);
                assert(ctx_state(*self).diags =~= ctx_state(c1).diags);
            }
        }
        let scrut = s.apply_ty_chirho(sty);
        let sa = match self.unify_st_chirho(&pt, &scrut) {
            Some(sp) => {
                let c = sp.compose_chirho(&s);
                self.apply_all_st_chirho(&sp);
                c
            },
            None => s,
        };
        if alt.where_binds_chirho.len() > 0 {
            let d = DiagnosticChirho {
                kind_chirho: DiagnosticKindChirho::UnsupportedExpressionChirho,
                name_chirho: String::new(),
                types_chirho: Vec::new(),
            };
            proof { assert(tys_view(d.types_chirho@) =~= Seq::<TyV>::empty()); }
            self.report_chirho(d);
        }
        let (sr, at) = self.infer_rhs_chirho(&alt.rhs_chirho);
        let sb = sr.compose_chirho(&sa);
        self.apply_all_st_chirho(&sr);
        let rs = sb.apply_ty_chirho(res);
        let sc = match self.unify_st_chirho(&rs, &at) {
            Some(su) => {
                let c = su.compose_chirho(&sb);
                self.apply_all_st_chirho(&su);
                c
            },
            None => sb,
        };
        let ghost c8 = *self;
        let env = self.scope_stack_chirho.pop().unwrap();
        self.env_chirho = env;
        proof {
            assert(ctx_state(*self).stack =~= ctx_state(c8).stack.drop_last());
            assert(ctx_state(*self).diags =~= ctx_state(c8).diags);
        }
        sc
    }

    /// A tuple's elements inferred left to right.
    #[verifier::spinoff_prover]
    fn infer_tuple_chirho(&mut self, es: &Vec<ExprChirho>) -> (r: (SubstChirho, Vec<TyChirho>))
        requires
            infer_tuple_spec(old(self).con_field_names_chirho@, ctx_state(*old(self)), es@).2.next <= u32::MAX,
        ensures
            (r.0.map(), tys_view(r.1@), ctx_state(*final(self))) == infer_tuple_spec(old(self).con_field_names_chirho@, ctx_state(*old(self)), es@),
            same_fixed(*old(self), *final(self)),
        decreases es@, 0nat,
    {
        let ghost cf = self.con_field_names_chirho@;
        let ghost st0 = ctx_state(*self);
        let ghost c0 = *self;
        let mut s = SubstChirho::empty_chirho();
        let mut ts: Vec<TyChirho> = Vec::new();
        let mut i: usize = 0;
        proof {
            assert(es@.take(0) =~= Seq::<ExprChirho>::empty());
            assert(tys_view(ts@) =~= Seq::<TyV>::empty());
        }
        while i < es.len()
            invariant
                i <= es.len(),
                cf == c0.con_field_names_chirho@,
                st0 == ctx_state(c0),
                infer_tuple_spec(cf, st0, es@).2.next <= u32::MAX,
                same_fixed(c0, *self),
                (s.map(), tys_view(ts@), ctx_state(*self)) == infer_tuple_spec(cf, st0, es@.take(i as int)),
            decreases es.len() - i,
        {
            proof {
                lemma_tuple_prefix(cf, st0, es@, i + 1);
                assert(es@.take(i + 1).drop_last() =~= es@.take(i as int));
                assert(es@.take(i + 1).last() == es@[i as int]);
            }
            let (si, ti) = self.infer_expr_chirho(&es[i]);
            let s1 = si.compose_chirho(&s);
            self.apply_all_st_chirho(&si);
            proof { lemma_tys_view_push(ts@, ti); }
            ts.push(ti);
            s = s1;
            i = i + 1;
        }
        proof { assert(es@.take(es@.len() as int) =~= es@); }
        (s, ts)
    }

    /// A list's elements inferred left to right, each unified with `elem`.
    #[verifier::spinoff_prover]
    fn infer_list_chirho(&mut self, es: &Vec<ExprChirho>, elem: &TyChirho) -> (r: SubstChirho)
        requires
            infer_list_spec(old(self).con_field_names_chirho@, ctx_state(*old(self)), es@, elem@).1.next <= u32::MAX,
        ensures
            (r.map(), ctx_state(*final(self))) == infer_list_spec(old(self).con_field_names_chirho@, ctx_state(*old(self)), es@, elem@),
            same_fixed(*old(self), *final(self)),
        decreases es@, 0nat,
    {
        let ghost cf = self.con_field_names_chirho@;
        let ghost st0 = ctx_state(*self);
        let ghost c0 = *self;
        let mut s = SubstChirho::empty_chirho();
        let mut i: usize = 0;
        proof { assert(es@.take(0) =~= Seq::<ExprChirho>::empty()); }
        while i < es.len()
            invariant
                i <= es.len(),
                cf == c0.con_field_names_chirho@,
                st0 == ctx_state(c0),
                infer_list_spec(cf, st0, es@, elem@).1.next <= u32::MAX,
                same_fixed(c0, *self),
                (s.map(), ctx_state(*self)) == infer_list_spec(cf, st0, es@.take(i as int), elem@),
            decreases es.len() - i,
        {
            proof {
                lemma_list_prefix(cf, st0, es@, elem@, i + 1);
                assert(es@.take(i + 1).drop_last() =~= es@.take(i as int));
                assert(es@.take(i + 1).last() == es@[i as int]);
            }
            let (si, ti) = self.infer_expr_chirho(&es[i]);
            let s1 = si.compose_chirho(&s);
            self.apply_all_st_chirho(&si);
            let e1 = s1.apply_ty_chirho(elem);
            match self.unify_st_chirho(&e1, &ti) {
                Some(su) => {
                    s = su.compose_chirho(&s1);
                    self.apply_all_st_chirho(&su);
                },
                None => {
                    s = s1;
                },
            }
            i = i + 1;
        }
        proof { assert(es@.take(es@.len() as int) =~= es@); }
        s
    }

    /// A lambda's patterns bound at fresh variables, left to right.
    #[verifier::spinoff_prover]
    fn bind_params_chirho(&mut self, ps: &Vec<PatChirho>) -> (r: Vec<TyChirho>)
        requires
            bind_params_spec(old(self).con_field_names_chirho@, ctx_state(*old(self)), ps@).1.next <= u32::MAX,
        ensures
            (tys_view(r@), ctx_state(*final(self))) == bind_params_spec(old(self).con_field_names_chirho@, ctx_state(*old(self)), ps@),
            same_fixed(*old(self), *final(self)),
    {
        let ghost cf = self.con_field_names_chirho@;
        let ghost st0 = ctx_state(*self);
        let ghost c0 = *self;
        let mut ts: Vec<TyChirho> = Vec::new();
        let mut i: usize = 0;
        proof {
            assert(ps@.take(0) =~= Seq::<PatChirho>::empty());
            assert(tys_view(ts@) =~= Seq::<TyV>::empty());
        }
        while i < ps.len()
            invariant
                i <= ps.len(),
                cf == c0.con_field_names_chirho@,
                st0 == ctx_state(c0),
                bind_params_spec(cf, st0, ps@).1.next <= u32::MAX,
                same_fixed(c0, *self),
                (tys_view(ts@), ctx_state(*self)) == bind_params_spec(cf, st0, ps@.take(i as int)),
            decreases ps.len() - i,
        {
            proof {
                lemma_bind_params_prefix(cf, st0, ps@, i + 1);
                assert(ps@.take(i + 1).drop_last() =~= ps@.take(i as int));
                assert(ps@.take(i + 1).last() == ps@[i as int]);
                let (gts, gst1) = bind_params_spec(cf, st0, ps@.take(i as int));
                let (gt, gst2) = st_fresh(gst1);
                lemma_bind_pat_grows(cf, gst2.env, gst2.next, ps@[i as int], gt);
            }
            let t = self.fresh_st_chirho();
            let ghost c1 = *self;
            self.bind_pat_chirho(&ps[i], &t);
            proof {
                assert(ctx_state(*self).stack =~= ctx_state(c1).stack);
                assert(ctx_state(*self).diags =~= ctx_state(c1).diags);
                lemma_tys_view_push(ts@, t);
            }
            ts.push(t);
            i = i + 1;
        }
        proof { assert(ps@.take(ps@.len() as int) =~= ps@); }
        ts
    }
}

}
