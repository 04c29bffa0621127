//! Given equalities used as rewrite rules: the occurrence test that keeps a
//! cyclic given from becoming a rule, and one rewriting pass.
use vstd::prelude::*;
use crate::ty_chirho::{lemma_tys_view, lemma_tys_view_push, tys_view, TyChirho, TyV};

verus! {

/// Whether `n` occurs anywhere inside `h` (including `h` itself).
pub open spec fn contains_sub(h: TyV, n: TyV) -> bool
    decreases h,
{
    h == n || match h {
        TyV::App(f, a) => contains_sub(*f, n) || contains_sub(*a, n),
        TyV::KindApp(f, a) => contains_sub(*f, n) || contains_sub(*a, n),
        TyV::Fun(a, r, _) => contains_sub(*a, n) || contains_sub(*r, n),
        TyV::List(e) => contains_sub(*e, n),
        TyV::Tuple(es) => contains_sub_seq(es, n),
        TyV::Forall(_, b) => contains_sub(*b, n),
        TyV::RequiredForall(_, b) => contains_sub(*b, n),
        _ => false,
    }
}

pub open spec fn contains_sub_seq(es: Seq<TyV>, n: TyV) -> bool
    decreases es,
{
    es.len() > 0 && (contains_sub_seq(es.drop_last(), n) || contains_sub(es.last(), n))
}

/// Whether `needle_chirho` occurs anywhere inside `haystack_chirho`.
pub fn ty_contains_subterm_chirho(haystack_chirho: &TyChirho, needle_chirho: &TyChirho) -> (r: bool)
    ensures
        r == contains_sub(haystack_chirho@, needle_chirho@),
    decreases haystack_chirho, 1nat,
{
    if haystack_chirho.eq_chirho(needle_chirho) {
        return true;
    }
    match haystack_chirho {
        TyChirho::VarChirho(_) | TyChirho::ConChirho(_) | TyChirho::ForallVarChirho(_) => false,
        TyChirho::AppChirho(fun_chirho, arg_chirho) | TyChirho::KindAppChirho(fun_chirho, arg_chirho) => {
            ty_contains_subterm_chirho(fun_chirho, needle_chirho)
                || ty_contains_subterm_chirho(arg_chirho, needle_chirho)
        }
        TyChirho::FunChirho(arg_chirho, result_chirho, _) => {
            ty_contains_subterm_chirho(arg_chirho, needle_chirho)
                || ty_contains_subterm_chirho(result_chirho, needle_chirho)
        }
        TyChirho::TupleChirho(elems_chirho) => contains_subterm_seq_chirho(elems_chirho, needle_chirho),
        TyChirho::ListChirho(inner_chirho) => ty_contains_subterm_chirho(inner_chirho, needle_chirho),
        TyChirho::ForallChirho { body_chirho, .. } | TyChirho::RequiredForallChirho { body_chirho, .. } => {
            ty_contains_subterm_chirho(body_chirho, needle_chirho)
        }
    }
}

pub proof fn lemma_contains_sub_seq_index(es: Seq<TyV>, n: TyV)
    ensures
        contains_sub_seq(es, n) <==> exists|j: int| 0 <= j < es.len() && #[trigger] contains_sub(es[j], n),
    decreases es.len(),
{
    if es.len() > 0 {
        lemma_contains_sub_seq_index(es.drop_last(), n);
        let k = es.len() - 1;
        assert(es.last() == es[k]);
        if contains_sub(es.last(), n) {
            assert(contains_sub(es[k], n));
        }
        if contains_sub_seq(es.drop_last(), n) {
            let j = choose|j: int| 0 <= j < es.drop_last().len() && #[trigger] contains_sub(es.drop_last()[j], n);
            assert(contains_sub(es[j], n));
        }
        if exists|j: int| 0 <= j < es.len() && #[trigger] contains_sub(es[j], n) {
            let j = choose|j: int| 0 <= j < es.len() && #[trigger] contains_sub(es[j], n);
            if j < es.len() - 1 {
                assert(contains_sub(es.drop_last()[j], n));
            }
        }
    }
}

fn contains_subterm_seq_chirho(es: &Vec<TyChirho>, needle_chirho: &TyChirho) -> (r: bool)
    ensures
        r == contains_sub_seq(tys_view(es@), needle_chirho@),
    decreases es@, 0nat,
{
    proof {
        lemma_tys_view(es@);
        lemma_contains_sub_seq_index(tys_view(es@), needle_chirho@);
    }
    let mut i: usize = 0;
    while i < es.len()
        invariant
            i <= es.len(),
            tys_view(es@).len() == es@.len(),
            forall|j: int| 0 <= j < es@.len() ==> #[trigger] tys_view(es@)[j] == es@[j]@,
            forall|j: int| 0 <= j < i ==> !contains_sub(#[trigger] tys_view(es@)[j], needle_chirho@),
            contains_sub_seq(tys_view(es@), needle_chirho@) <==> exists|j: int| 0 <= j < es@.len() && #[trigger] contains_sub(tys_view(es@)[j], needle_chirho@),
        decreases es.len() - i,
    {
        proof { assert(decreases_to!(es@ => es@[i as int])); }
        if ty_contains_subterm_chirho(&es[i], needle_chirho) {
            proof { assert(contains_sub(tys_view(es@)[i as int], needle_chirho@)); }
            return true;
        }
        i = i + 1;
    }
    false
}

/// Occurrence is transitive: what occurs inside a subterm occurs in the whole.
pub proof fn lemma_contains_sub_transitive(a: TyV, b: TyV, c: TyV)
    requires
        contains_sub(a, b),
        contains_sub(b, c),
    ensures
        contains_sub(a, c),
    decreases a,
{
    if a != b {
        match a {
            TyV::App(f, x) => {
                if contains_sub(*f, b) { lemma_contains_sub_transitive(*f, b, c); } else { lemma_contains_sub_transitive(*x, b, c); }
            }
            TyV::KindApp(f, x) => {
                if contains_sub(*f, b) { lemma_contains_sub_transitive(*f, b, c); } else { lemma_contains_sub_transitive(*x, b, c); }
            }
            TyV::Fun(f, x, _) => {
                if contains_sub(*f, b) { lemma_contains_sub_transitive(*f, b, c); } else { lemma_contains_sub_transitive(*x, b, c); }
            }
            TyV::List(e) => { lemma_contains_sub_transitive(*e, b, c); }
            TyV::Tuple(es) => {
                lemma_contains_sub_seq_index(es, b);
                lemma_contains_sub_seq_index(es, c);
                let j = choose|j: int| 0 <= j < es.len() && #[trigger] contains_sub(es[j], b);
                lemma_contains_sub_transitive(es[j], b, c);
            }
            TyV::Forall(_, d) => { lemma_contains_sub_transitive(*d, b, c); }
            TyV::RequiredForall(_, d) => { lemma_contains_sub_transitive(*d, b, c); }
            _ => {}
        }
    }
}

}
