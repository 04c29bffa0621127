//! Laws of expression inference that relate the type of a compound
//! expression to what its parts were inferred at.
use vstd::prelude::*;
use crate::expr_refs_chirho::{ExprChirho, MatchArmChirho};
use crate::infer_expr_chirho::{infer_spec, infer_tuple_spec, InferStateV};
use crate::subst_chirho::subst_apply;
use crate::ty_chirho::TyV;

verus! {

/// The types a tuple's elements are found at, in order: each is inferred in
/// the state the elements before it left.
pub proof fn lemma_tuple_element_types(cf: Seq<(String, Vec<String>)>, st: InferStateV, es: Seq<ExprChirho>)
    ensures
        infer_tuple_spec(cf, st, es).1.len() == es.len(),
        forall|i: int| 0 <= i < es.len() ==> #[trigger] infer_tuple_spec(cf, st, es).1[i]
            == infer_spec(cf, infer_tuple_spec(cf, st, es.take(i)).2, es[i]).1,
    decreases es.len(),
{
    if es.len() > 0 {
        let init = es.drop_last();
        lemma_tuple_element_types(cf, st, init);
        assert forall|i: int| 0 <= i < es.len() implies #[trigger] infer_tuple_spec(cf, st, es).1[i]
            == infer_spec(cf, infer_tuple_spec(cf, st, es.take(i)).2, es[i]).1 by {
            if i < es.len() - 1 {
                assert(init.take(i) =~= es.take(i));
                assert(init[i] == es[i]);
                assert(infer_tuple_spec(cf, st, init).1[i] == infer_spec(cf, infer_tuple_spec(cf, st, init.take(i)).2, init[i]).1);
            } else {
                assert(es.take(i) =~= init);
            }
        }
    }
}

/// A tuple's type is the tuple of its elements' types, each taken under the
/// substitution found for the whole tuple: what a later element teaches
/// about a variable applies to the earlier elements too.
pub proof fn lemma_tuple_type_takes_final_substitution(cf: Seq<(String, Vec<String>)>, st: InferStateV, elements: Vec<ExprChirho>)
    ensures
        ({
            let r = infer_spec(cf, st, ExprChirho::TupleChirho { elements_chirho: elements });
            r.1 == TyV::Tuple(Seq::new(elements@.len(), |i: int|
                subst_apply(infer_spec(cf, infer_tuple_spec(cf, st, elements@.take(i)).2, elements@[i]).1, r.0)))
        }),
{
    let es = elements@;
    lemma_tuple_element_types(cf, st, es);
    let (s, ts, st1) = infer_tuple_spec(cf, st, es);
    let r = infer_spec(cf, st, ExprChirho::TupleChirho { elements_chirho: elements });
    assert(r.0 == s);
    assert(ts.map_values(|t: TyV| subst_apply(t, s)) =~= Seq::new(es.len(), |i: int|
        subst_apply(infer_spec(cf, infer_tuple_spec(cf, st, es.take(i)).2, es[i]).1, s)));
}


/// A list's type is the list of one element type: the variable made fresh
/// for it before any element is inferred, under the substitution found for
/// the whole list, so every element's unifications reach it.
pub proof fn lemma_list_type_takes_final_substitution(cf: Seq<(String, Vec<String>)>, st: InferStateV, elements: Vec<ExprChirho>)
    ensures
        ({
            let r = infer_spec(cf, st, ExprChirho::ListChirho { elements_chirho: elements });
            r.1 == TyV::List(Box::new(subst_apply(TyV::Var(st.next as u32), r.0)))
        }),
{
}


/// A `case`'s type is one result variable, made fresh just after the
/// scrutinee is inferred, under the substitution found for the whole `case`:
/// every alternative's unification reaches it.
pub proof fn lemma_case_type_takes_final_substitution(cf: Seq<(String, Vec<String>)>, st: InferStateV, scrutinee: Box<ExprChirho>,
    alts: Vec<MatchArmChirho>)
    ensures
        ({
            let r = infer_spec(cf, st, ExprChirho::CaseChirho { scrutinee_chirho: scrutinee, alts_chirho: alts });
            r.1 == subst_apply(TyV::Var(infer_spec(cf, st, *scrutinee).2.next as u32), r.0)
        }),
{
}

}
