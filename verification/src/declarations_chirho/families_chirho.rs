//! Checked type family equations, reduced to schemes that can be compared by
//! alpha-renaming.
use vstd::prelude::*;
use crate::ty_chirho::{add_new, lemma_tys_view, tys_view, vars_contains_chirho, vars_view, preds_view,
    SchemeChirho, SchemeV, TyChirho, TyV, TyVarChirho, copy_tys_chirho};

verus! {

/// One equation of a type family: the kind inputs (hidden), the visible type
/// inputs, and the right-hand side.
#[derive(Debug, Clone, PartialEq, Eq)]
pub struct TypeFamilyClauseChirho {
    pub kind_inputs_chirho: Vec<TyChirho>,
    pub type_inputs_chirho: Vec<TyChirho>,
    pub result_chirho: TyChirho,
}

impl TypeFamilyClauseChirho {
    /// An equation without kind inputs.
    pub fn ordinary_chirho(type_inputs_chirho: Vec<TyChirho>, result_chirho: TyChirho) -> (r: TypeFamilyClauseChirho)
        ensures
            r.kind_inputs_chirho@.len() == 0,
            tys_view(r.type_inputs_chirho@) == tys_view(type_inputs_chirho@),
            r.result_chirho@ == result_chirho@,
    {
        TypeFamilyClauseChirho { kind_inputs_chirho: Vec::new(), type_inputs_chirho, result_chirho }
    }

    /// The equation's terms in reading order: kind inputs, type inputs, result.
    pub open spec fn roots(&self) -> Seq<TyV> {
        tys_view(self.kind_inputs_chirho@) + tys_view(self.type_inputs_chirho@) + seq![self.result_chirho@]
    }
}

/// Deepest nesting an equation term may have.
pub const EQUATION_DEPTH_LIMIT_CHIRHO: usize = 256;

/// The nodes of `t` in pre-order (a node before its children, children left to
/// right), each with its depth. The children of a quantifier are not listed:
/// reaching the quantifier already ends the walk.
pub open spec fn preorder(t: TyV, d: nat) -> Seq<(TyV, nat)>
    decreases t,
{
    seq![(t, d)] + match t {
        TyV::App(f, a) => preorder(*f, d + 1) + preorder(*a, d + 1),
        TyV::KindApp(f, a) => preorder(*f, d + 1) + preorder(*a, d + 1),
        TyV::Fun(f, a, _) => preorder(*f, d + 1) + preorder(*a, d + 1),
        TyV::List(e) => preorder(*e, d + 1),
        TyV::Tuple(es) => preorder_seq(es, d + 1),
        _ => Seq::empty(),
    }
}

pub open spec fn preorder_seq(es: Seq<TyV>, d: nat) -> Seq<(TyV, nat)>
    decreases es,
{
    if es.len() == 0 {
        Seq::empty()
    } else {
        preorder_seq(es.drop_last(), d) + preorder(es.last(), d)
    }
}

/// A node that makes an equation unusable as an agreement proof: too deep, or
/// rank-n (quantified).
pub open spec fn bad_node(n: (TyV, nat)) -> bool {
    n.1 > EQUATION_DEPTH_LIMIT_CHIRHO || n.0 is ForallVar || n.0 is Forall || n.0 is RequiredForall
}

/// Index of the first bad node, or the length when there is none.
pub open spec fn first_bad(s: Seq<(TyV, nat)>) -> nat
    decreases s.len(),
{
    if s.len() == 0 {
        0
    } else if bad_node(s[0]) {
        0
    } else {
        1 + first_bad(s.drop_first())
    }
}

/// The variables of the variable nodes, in order.
pub open spec fn node_vars(s: Seq<(TyV, nat)>) -> Seq<u32>
    decreases s.len(),
{
    if s.len() == 0 {
        Seq::empty()
    } else {
        let rest = node_vars(s.drop_last());
        match s.last().0 {
            TyV::Var(v) => rest.push(v),
            _ => rest,
        }
    }
}

/// The walk over all terms of an equation.
pub open spec fn equation_nodes(eq: &TypeFamilyClauseChirho) -> Seq<(TyV, nat)> {
    preorder_seq(eq.roots(), 0)
}

pub open spec fn min_nat(a: nat, b: nat) -> nat {
    if a <= b { a } else { b }
}

/// Work left after walking `s` with `b` units: a walk that meets a bad node
/// or runs out of work has spent everything up to and including that step.
pub open spec fn budget_after(s: Seq<(TyV, nat)>, b: nat) -> nat {
    if first_bad(s) == s.len() && s.len() <= b {
        (b - s.len()) as nat
    } else {
        (b - min_nat(first_bad(s) + 1, b)) as nat
    }
}

pub open spec fn walk_succeeds(s: Seq<(TyV, nat)>, b: nat) -> bool {
    first_bad(s) == s.len() && s.len() <= b
}

pub proof fn lemma_first_bad_concat(s1: Seq<(TyV, nat)>, s2: Seq<(TyV, nat)>)
    ensures
        first_bad(s1 + s2) == (if first_bad(s1) < s1.len() { first_bad(s1) } else { s1.len() + first_bad(s2) }),
        first_bad(s1) <= s1.len(),
    decreases s1.len(),
{
    if s1.len() == 0 {
        assert(s1 + s2 =~= s2);
    } else {
        assert((s1 + s2)[0] == s1[0]);
        assert((s1 + s2).drop_first() =~= s1.drop_first() + s2);
        lemma_first_bad_concat(s1.drop_first(), s2);
    }
}

pub proof fn lemma_node_vars_concat(s1: Seq<(TyV, nat)>, s2: Seq<(TyV, nat)>)
    ensures
        node_vars(s1 + s2) == node_vars(s1) + node_vars(s2),
    decreases s2.len(),
{
    if s2.len() == 0 {
        assert(s1 + s2 =~= s1);
        assert(node_vars(s1) + node_vars(s2) =~= node_vars(s1));
    } else {
        assert((s1 + s2).drop_last() =~= s1 + s2.drop_last());
        assert((s1 + s2).last() == s2.last());
        lemma_node_vars_concat(s1, s2.drop_last());
        match s2.last().0 {
            TyV::Var(v) => {
                assert(node_vars(s1) + node_vars(s2) =~= (node_vars(s1) + node_vars(s2.drop_last())).push(v));
            }
            _ => {}
        }
    }
}

/// Walking `s1` then `s2` is walking `s1 + s2`.
pub proof fn lemma_walk_concat(s1: Seq<(TyV, nat)>, s2: Seq<(TyV, nat)>, b: nat)
    ensures
        walk_succeeds(s1 + s2, b) == (walk_succeeds(s1, b) && walk_succeeds(s2, budget_after(s1, b))),
        walk_succeeds(s1, b) ==> budget_after(s1 + s2, b) == budget_after(s2, budget_after(s1, b)),
        !walk_succeeds(s1, b) ==> budget_after(s1 + s2, b) == budget_after(s1, b),
{
    lemma_first_bad_concat(s1, s2);
    lemma_first_bad_concat(s2, Seq::empty());
}


/// A good first step hands the rest of the walk one unit less.
pub proof fn lemma_root_step(n: (TyV, nat), rest: Seq<(TyV, nat)>, b: nat)
    requires
        b >= 1,
        !bad_node(n),
    ensures
        walk_succeeds(seq![n] + rest, b) == walk_succeeds(rest, (b - 1) as nat),
        budget_after(seq![n] + rest, b) == budget_after(rest, (b - 1) as nat),
        node_vars(seq![n] + rest) == node_vars(seq![n]) + node_vars(rest),
{
    lemma_walk_concat(seq![n], rest, b);
    assert(seq![n].drop_first() =~= Seq::<(TyV, nat)>::empty());
    assert(seq![n][0] == n);
    assert(first_bad(Seq::<(TyV, nat)>::empty()) == 0);
    assert(first_bad(seq![n]) == 1);
    lemma_node_vars_concat(seq![n], rest);
}

/// Walks the terms `ts` (each at depth `depth`), recording new variables.
fn walk_terms_chirho(ts: &Vec<TyChirho>, depth: usize, budget: &mut usize, vars: &mut Vec<TyVarChirho>) -> (r: bool)
    requires
        depth <= EQUATION_DEPTH_LIMIT_CHIRHO + 1,
    ensures
        r == walk_succeeds(preorder_seq(tys_view(ts@), depth as nat), *old(budget) as nat),
        *final(budget) as nat == budget_after(preorder_seq(tys_view(ts@), depth as nat), *old(budget) as nat),
        r ==> vars_view(final(vars)@) == add_new(vars_view(old(vars)@), node_vars(preorder_seq(tys_view(ts@), depth as nat))),
    decreases ts@, 0nat,
{
    let ghost tv = tys_view(ts@);
    let ghost b0 = *budget as nat;
    let ghost v0 = vars_view(vars@);
    proof { lemma_tys_view(ts@); }
    let mut i: usize = 0;
    proof {
        assert(tv.take(0) =~= Seq::<TyV>::empty());
        assert(preorder_seq(tv.take(0), depth as nat) =~= Seq::<(TyV, nat)>::empty());
        assert(first_bad(Seq::<(TyV, nat)>::empty()) == 0);
        assert(node_vars(Seq::<(TyV, nat)>::empty()) =~= Seq::<u32>::empty());
    }
    while i < ts.len()
        invariant
            i <= ts.len(),
            depth <= EQUATION_DEPTH_LIMIT_CHIRHO + 1,
            tv == tys_view(ts@),
            b0 == *old(budget) as nat,
            v0 == vars_view(old(vars)@),
            tv.len() == ts@.len(),
            forall|j: int| 0 <= j < ts@.len() ==> #[trigger] tv[j] == ts@[j]@,
            walk_succeeds(preorder_seq(tv.take(i as int), depth as nat), b0),
            *budget as nat == budget_after(preorder_seq(tv.take(i as int), depth as nat), b0),
            vars_view(vars@) == add_new(v0, node_vars(preorder_seq(tv.take(i as int), depth as nat))),
        decreases ts.len() - i,
    {
        proof { assert(decreases_to!(ts@ => ts@[i as int])); }
        let ghost pre = preorder_seq(tv.take(i as int), depth as nat);
        let ghost cur = preorder(ts@[i as int]@, depth as nat);
        let ghost bi = *budget as nat;
        let ghost vi = vars_view(vars@);
        proof {
            assert(tv.take(i + 1).drop_last() =~= tv.take(i as int));
            assert(tv.take(i + 1).last() == ts@[i as int]@);
            assert(preorder_seq(tv.take(i + 1), depth as nat) == pre + cur);
            lemma_walk_concat(pre, cur, b0);
            lemma_node_vars_concat(pre, cur);
        }
        let ok = walk_term_chirho(&ts[i], depth, budget, vars);
        if !ok {
            proof {
                let rest = preorder_seq(tv.skip(i + 1), depth as nat);
                assert(tv =~= tv.take(i + 1) + tv.skip(i + 1));
                lemma_preorder_seq_concat(tv.take(i + 1), tv.skip(i + 1), depth as nat);
                lemma_walk_concat(pre + cur, rest, b0);
                assert(preorder_seq(tv, depth as nat) == (pre + cur) + rest);
                assert(!walk_succeeds(cur, bi));
                assert(bi == budget_after(pre, b0));
                assert(!walk_succeeds(pre + cur, b0));
                assert(*budget as nat == budget_after(cur, bi));
                assert(budget_after(pre + cur, b0) == budget_after(cur, bi));
                assert(budget_after((pre + cur) + rest, b0) == budget_after(pre + cur, b0));
                assert(!walk_succeeds((pre + cur) + rest, b0));
            }
            return false;
        }
        proof {
            lemma_add_new_concat_nv(v0, node_vars(pre), node_vars(cur));
        }
        i = i + 1;
    }
    proof { assert(tv.take(ts@.len() as int) =~= tv); }
    true
}

pub proof fn lemma_add_new_concat_nv(acc: Seq<u32>, s1: Seq<u32>, s2: Seq<u32>)
    ensures
        add_new(acc, s1 + s2) == add_new(add_new(acc, s1), s2),
{
    crate::ty_chirho::lemma_add_new_concat(acc, s1, s2);
}

pub proof fn lemma_preorder_seq_concat(a: Seq<TyV>, b: Seq<TyV>, d: nat)
    ensures
        preorder_seq(a + b, d) == preorder_seq(a, d) + preorder_seq(b, d),
    decreases b.len(),
{
    if b.len() == 0 {
        assert(a + b =~= a);
        assert(preorder_seq(a, d) + preorder_seq(b, d) =~= preorder_seq(a, d));
    } else {
        assert((a + b).drop_last() =~= a + b.drop_last());
        assert((a + b).last() == b.last());
        lemma_preorder_seq_concat(a, b.drop_last(), d);
        assert(preorder_seq(a + b, d) =~= preorder_seq(a, d) + preorder_seq(b, d));
    }
}

/// Walks one term at depth `depth`, recording new variables.
fn walk_term_chirho(t: &TyChirho, depth: usize, budget: &mut usize, vars: &mut Vec<TyVarChirho>) -> (r: bool)
    requires
        depth <= EQUATION_DEPTH_LIMIT_CHIRHO + 1,
    ensures
        r == walk_succeeds(preorder(t@, depth as nat), *old(budget) as nat),
        *final(budget) as nat == budget_after(preorder(t@, depth as nat), *old(budget) as nat),
        r ==> vars_view(final(vars)@) == add_new(vars_view(old(vars)@), node_vars(preorder(t@, depth as nat))),
    decreases t, 1nat,
{
    let ghost s = preorder(t@, depth as nat);
    let ghost n = (t@, depth as nat);
    let ghost b0 = *budget as nat;
    let ghost v0 = vars_view(vars@);
    if *budget == 0 {
        proof {
            assert(s[0] == n);
            lemma_first_bad_concat(s, Seq::empty());
        }
        return false;
    }
    *budget = *budget - 1;
    if depth > EQUATION_DEPTH_LIMIT_CHIRHO {
        proof { assert(s[0] == n); }
        return false;
    }
    match t {
        TyChirho::VarChirho(v) => {
            proof {
                assert(s =~= seq![n] + Seq::<(TyV, nat)>::empty());
                lemma_root_step(n, Seq::empty(), b0);
                assert(first_bad(Seq::<(TyV, nat)>::empty()) == 0);
                assert(seq![n].drop_last() =~= Seq::<(TyV, nat)>::empty());
                assert(node_vars(seq![n]) =~= seq![v.0]);
                assert(seq![v.0].drop_last() =~= Seq::<u32>::empty());
            }
            proof {
                assert(add_new(v0, seq![v.0]) == (if v0.contains(v.0) { v0 } else { v0.push(v.0) })) by {
                    assert(add_new(v0, Seq::<u32>::empty()) == v0);
                    assert(seq![v.0].last() == v.0);
                }
            }
            if !vars_contains_chirho(vars, v.0) {
                vars.push(*v);
                proof { assert(vars_view(vars@) =~= v0.push(v.0)); }
            }
            true
        }
        TyChirho::ConChirho(_) => {
            proof {
                assert(s =~= seq![n] + Seq::<(TyV, nat)>::empty());
                lemma_root_step(n, Seq::empty(), b0);
                assert(first_bad(Seq::<(TyV, nat)>::empty()) == 0);
                assert(seq![n].drop_last() =~= Seq::<(TyV, nat)>::empty());
                assert(node_vars(seq![n]) =~= Seq::<u32>::empty());
            }
            true
        }
        TyChirho::ForallVarChirho(_) | TyChirho::ForallChirho { .. } | TyChirho::RequiredForallChirho { .. } => {
            proof { assert(s[0] == n); }
            false
        }
        TyChirho::AppChirho(f, a) | TyChirho::KindAppChirho(f, a) | TyChirho::FunChirho(f, a, _) => {
            let ghost pf = preorder(f@, depth as nat + 1);
            let ghost pa = preorder(a@, depth as nat + 1);
            proof {
                assert(s =~= seq![n] + (pf + pa));
                lemma_root_step(n, pf + pa, b0);
                lemma_walk_concat(pf, pa, (b0 - 1) as nat);
                lemma_node_vars_concat(pf, pa);
                assert(node_vars(seq![n]) =~= Seq::<u32>::empty()) by {
                    assert(seq![n].drop_last() =~= Seq::<(TyV, nat)>::empty());
                    assert(seq![n].last() == n);
                    assert(!(n.0 is Var));
                    assert(node_vars(Seq::<(TyV, nat)>::empty()) =~= Seq::<u32>::empty());
                }
                assert(node_vars(seq![n]) + (node_vars(pf) + node_vars(pa)) =~= node_vars(pf) + node_vars(pa));
            }
            if !walk_term_chirho(f, depth + 1, budget, vars) {
                return false;
            }
            let ok = walk_term_chirho(a, depth + 1, budget, vars);
            proof {
                if ok {
                    lemma_add_new_concat_nv(v0, node_vars(pf), node_vars(pa));
                }
            }
            ok
        }
        TyChirho::ListChirho(e) => {
            let ghost pe = preorder(e@, depth as nat + 1);
            proof {
                assert(s =~= seq![n] + pe);
                lemma_root_step(n, pe, b0);
                assert(node_vars(seq![n]) =~= Seq::<u32>::empty()) by {
                    assert(seq![n].drop_last() =~= Seq::<(TyV, nat)>::empty());
                    assert(seq![n].last() == n);
                    assert(!(n.0 is Var));
                    assert(node_vars(Seq::<(TyV, nat)>::empty()) =~= Seq::<u32>::empty());
                }
                assert(node_vars(seq![n]) + node_vars(pe) =~= node_vars(pe));
            }
            walk_term_chirho(e, depth + 1, budget, vars)
        }
        TyChirho::TupleChirho(es) => {
            let ghost pe = preorder_seq(tys_view(es@), depth as nat + 1);
            proof {
                assert(s =~= seq![n] + pe);
                lemma_root_step(n, pe, b0);
                assert(node_vars(seq![n]) =~= Seq::<u32>::empty()) by {
                    assert(seq![n].drop_last() =~= Seq::<(TyV, nat)>::empty());
                    assert(seq![n].last() == n);
                    assert(!(n.0 is Var));
                    assert(node_vars(Seq::<(TyV, nat)>::empty()) =~= Seq::<u32>::empty());
                }
                assert(node_vars(seq![n]) + node_vars(pe) =~= node_vars(pe));
            }
            walk_terms_chirho(es, depth + 1, budget, vars)
        }
    }
}


/// The scheme an equation denotes: its variables quantified in order of first
/// occurrence (kind inputs, then type inputs, then the result), over the
/// triple (kind inputs, type inputs, result).
pub open spec fn equation_scheme_v(eq: &TypeFamilyClauseChirho) -> SchemeV {
    SchemeV {
        vars: add_new(Seq::empty(), node_vars(equation_nodes(eq))),
        preds: Seq::empty(),
        ty: TyV::Tuple(seq![
            TyV::Tuple(tys_view(eq.kind_inputs_chirho@)),
            TyV::Tuple(tys_view(eq.type_inputs_chirho@)),
            eq.result_chirho@,
        ]),
    }
}

/// Equation variables are implicitly quantified in occurrence order, not by
/// allocation identity or source spelling. Kind and visible inputs share one
/// scope. Each visited node costs one unit of `budget`; the equation is
/// refused (`None`) when the budget runs out, when a term nests deeper than
/// the limit, or when it is rank-n (quantified), and the work spent is kept.
pub fn equation_scheme_chirho(equation_chirho: &TypeFamilyClauseChirho, budget_chirho: &mut usize) -> (r: Option<SchemeChirho>)
    ensures
        r is Some == walk_succeeds(equation_nodes(equation_chirho), *old(budget_chirho) as nat),
        *final(budget_chirho) as nat == budget_after(equation_nodes(equation_chirho), *old(budget_chirho) as nat),
        r matches Some(sc) ==> sc@ == equation_scheme_v(equation_chirho),
{
    let ghost kinds = preorder_seq(tys_view(equation_chirho.kind_inputs_chirho@), 0);
    let ghost types = preorder_seq(tys_view(equation_chirho.type_inputs_chirho@), 0);
    let ghost res = preorder(equation_chirho.result_chirho@, 0);
    let ghost b0 = *budget_chirho as nat;
    proof {
        let rs = equation_chirho.roots();
        let k = tys_view(equation_chirho.kind_inputs_chirho@);
        let t = tys_view(equation_chirho.type_inputs_chirho@);
        lemma_preorder_seq_concat(k + t, seq![equation_chirho.result_chirho@], 0);
        lemma_preorder_seq_concat(k, t, 0);
        let one = seq![equation_chirho.result_chirho@];
        assert(one.drop_last() =~= Seq::<TyV>::empty());
        assert(one.last() == equation_chirho.result_chirho@);
        assert(preorder_seq(Seq::<TyV>::empty(), 0) =~= Seq::<(TyV, nat)>::empty());
        assert(preorder_seq(one, 0) =~= Seq::<(TyV, nat)>::empty() + res);
        assert(preorder_seq(one, 0) =~= res);
        assert(equation_nodes(equation_chirho) == (kinds + types) + res);
        lemma_walk_concat(kinds + types, res, b0);
        lemma_walk_concat(kinds, types, b0);
        lemma_node_vars_concat(kinds + types, res);
        lemma_node_vars_concat(kinds, types);
    }
    let mut vars_chirho: Vec<TyVarChirho> = Vec::new();
    proof { assert(vars_view(vars_chirho@) =~= Seq::<u32>::empty()); }
    if !walk_terms_chirho(&equation_chirho.kind_inputs_chirho, 0, budget_chirho, &mut vars_chirho) {
        return None;
    }
    if !walk_terms_chirho(&equation_chirho.type_inputs_chirho, 0, budget_chirho, &mut vars_chirho) {
        return None;
    }
    if !walk_term_chirho(&equation_chirho.result_chirho, 0, budget_chirho, &mut vars_chirho) {
        return None;
    }
    proof {
        lemma_add_new_concat_nv(Seq::empty(), node_vars(kinds), node_vars(types));
        lemma_add_new_concat_nv(Seq::empty(), node_vars(kinds) + node_vars(types), node_vars(res));
    }
    let mut parts: Vec<TyChirho> = Vec::new();
    parts.push(TyChirho::TupleChirho(copy_tys_chirho(&equation_chirho.kind_inputs_chirho)));
    parts.push(TyChirho::TupleChirho(copy_tys_chirho(&equation_chirho.type_inputs_chirho)));
    parts.push(equation_chirho.result_chirho.copy_chirho());
    let sc = SchemeChirho { vars_chirho, preds_chirho: Vec::new(), ty_chirho: TyChirho::TupleChirho(parts) };
    proof {
        lemma_tys_view(parts@);
        assert(tys_view(parts@) =~= seq![
            TyV::Tuple(tys_view(equation_chirho.kind_inputs_chirho@)),
            TyV::Tuple(tys_view(equation_chirho.type_inputs_chirho@)),
            equation_chirho.result_chirho@,
        ]);
        assert(preds_view(sc.preds_chirho@) =~= Seq::empty());
    }
    Some(sc)
}

}
