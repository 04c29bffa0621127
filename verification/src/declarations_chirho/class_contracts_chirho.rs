//! Checked source-local class promises.
use vstd::prelude::*;
use crate::ty_chirho::{add_new, lemma_add_new_concat, lemma_add_new_props, vars_contains_chirho, vars_view, SchemeChirho, SchemeV, TyVarChirho};

verus! {

/// Class variables occupy fixed slots in every member contract; otherwise
/// independently alpha-normalising a method could exchange the class
/// parameters. The parameters come first, then the scheme's own variables
/// not among them, in order, each once.
pub fn close_class_scheme_chirho(scheme_chirho: SchemeChirho, parameters_chirho: &[TyVarChirho]) -> (r: SchemeChirho)
    ensures
        r@ == (SchemeV { vars: add_new(vars_view(parameters_chirho@), scheme_chirho@.vars), ..scheme_chirho@ }),
{
    let mut variables_chirho: Vec<TyVarChirho> = Vec::new();
    let mut i: usize = 0;
    while i < parameters_chirho.len()
        invariant
            i <= parameters_chirho@.len(),
            vars_view(variables_chirho@) == vars_view(parameters_chirho@.take(i as int)),
        decreases parameters_chirho@.len() - i,
    {
        let ghost before = vars_view(variables_chirho@);
        variables_chirho.push(parameters_chirho[i]);
        i = i + 1;
        proof {
            assert(vars_view(variables_chirho@) =~= before.push(parameters_chirho@[i - 1].0));
            assert(parameters_chirho@.take(i as int) =~= parameters_chirho@.take(i - 1).push(parameters_chirho@[i - 1]));
            assert(vars_view(variables_chirho@) =~= vars_view(parameters_chirho@.take(i as int)));
        }
    }
    proof { assert(parameters_chirho@.take(i as int) =~= parameters_chirho@); }
    let ghost start = vars_view(variables_chirho@);
    let ghost sv = vars_view(scheme_chirho.vars_chirho@);
    let mut j: usize = 0;
    proof { assert(sv.take(0) =~= Seq::<u32>::empty()); }
    while j < scheme_chirho.vars_chirho.len()
        invariant
            j <= scheme_chirho.vars_chirho@.len(),
            sv == vars_view(scheme_chirho.vars_chirho@),
            vars_view(variables_chirho@) == add_new(start, sv.take(j as int)),
        decreases scheme_chirho.vars_chirho@.len() - j,
    {
        let v = scheme_chirho.vars_chirho[j];
        proof {
            assert(sv.take(j + 1).drop_last() =~= sv.take(j as int));
            assert(sv.take(j + 1).last() == v.0);
        }
        if !vars_contains_chirho(&variables_chirho, v.0) {
            let ghost before = vars_view(variables_chirho@);
            variables_chirho.push(v);
            proof { assert(vars_view(variables_chirho@) =~= before.push(v.0)); }
        }
        j = j + 1;
    }
    proof { assert(sv.take(j as int) =~= sv); }
    SchemeChirho { vars_chirho: variables_chirho, ..scheme_chirho }
}


/// `add_new(acc, s)` is `acc` followed by elements not in `acc`, each once.
proof fn lemma_add_new_shape(acc: Seq<u32>, s: Seq<u32>)
    ensures
        add_new(acc, s).len() >= acc.len(),
        add_new(acc, s) == acc + add_new(acc, s).skip(acc.len() as int),
        add_new(acc, s).skip(acc.len() as int).no_duplicates(),
        forall|x: u32| #[trigger] add_new(acc, s).skip(acc.len() as int).contains(x) ==> !acc.contains(x),
    decreases s.len(),
{
    if s.len() > 0 {
        lemma_add_new_shape(acc, s.drop_last());
        let prev = add_new(acc, s.drop_last());
        let t = prev.skip(acc.len() as int);
        if !prev.contains(s.last()) {
            let x = s.last();
            assert(prev.push(x).skip(acc.len() as int) =~= t.push(x));
            assert(acc + t.push(x) =~= (acc + t).push(x));
            assert forall|y: u32| #[trigger] t.push(x).contains(y) implies !acc.contains(y) by {
                if y != x {
                    let i = choose|i: int| 0 <= i < t.len() + 1 && t.push(x)[i] == y;
                    assert(t[i] == y);
                    assert(t.contains(y));
                } else if acc.contains(x) {
                    let i = choose|i: int| 0 <= i < acc.len() && acc[i] == x;
                    assert(prev[i] == x);
                    assert(prev.contains(x));
                }
            }
            assert forall|i: int, j: int| 0 <= i < j < t.len() + 1 implies t.push(x)[i] != t.push(x)[j] by {
                if j == t.len() {
                    assert(prev[acc.len() + i] == t[i]);
                }
            }
        }
    }
}

/// Adding elements that are all present already changes nothing.
proof fn lemma_add_new_present(acc: Seq<u32>, s: Seq<u32>)
    requires
        forall|x: u32| #[trigger] s.contains(x) ==> acc.contains(x),
    ensures
        add_new(acc, s) == acc,
    decreases s.len(),
{
    if s.len() > 0 {
        assert forall|x: u32| #[trigger] s.drop_last().contains(x) implies acc.contains(x) by {
            let i = choose|i: int| 0 <= i < s.drop_last().len() && s.drop_last()[i] == x;
            assert(s[i] == x);
            assert(s.contains(x));
        }
        lemma_add_new_present(acc, s.drop_last());
        assert(s.contains(s[s.len() - 1]));
    }
}

/// Adding new elements, none of them repeated, appends them.
proof fn lemma_add_new_fresh(acc: Seq<u32>, t: Seq<u32>)
    requires
        t.no_duplicates(),
        forall|x: u32| #[trigger] t.contains(x) ==> !acc.contains(x),
    ensures
        add_new(acc, t) == acc + t,
    decreases t.len(),
{
    if t.len() > 0 {
        let init = t.drop_last();
        assert forall|x: u32| #[trigger] init.contains(x) implies !acc.contains(x) by {
            let i = choose|i: int| 0 <= i < init.len() && init[i] == x;
            assert(t[i] == x);
            assert(t.contains(x));
        }
        lemma_add_new_fresh(acc, init);
        assert(t.contains(t[t.len() - 1]));
        if (acc + init).contains(t.last()) {
            let i = choose|i: int| 0 <= i < (acc + init).len() && (acc + init)[i] == t.last();
            if i >= acc.len() {
                assert(t[i - acc.len()] == t[t.len() - 1]);
            } else {
                assert(acc.contains(t.last()));
            }
        }
        assert((acc + init).push(t.last()) =~= acc + t);
    }
}

/// Closing a class member scheme twice is closing it once: the parameters
/// already stand first and each other variable already occurs once.
pub proof fn lemma_close_class_scheme_idempotent(s: SchemeV, parameters: Seq<u32>)
    ensures
        ({
            let once = SchemeV { vars: add_new(parameters, s.vars), ..s };
            SchemeV { vars: add_new(parameters, once.vars), ..once } == once
        }),
{
    let x = add_new(parameters, s.vars);
    let t = x.skip(parameters.len() as int);
    lemma_add_new_shape(parameters, s.vars);
    lemma_add_new_concat(parameters, parameters, t);
    lemma_add_new_present(parameters, parameters);
    lemma_add_new_fresh(parameters, t);
    assert(add_new(parameters, x) == x);
}

}
