//! Converting written types into the types inference works on. Named type
//! variables map to variables through a scoped name table, so that `a -> a`
//! uses one variable for both occurrences; a `forall` binds fresh variables
//! for the extent of its body only.
use vstd::prelude::*;
use crate::binding_groups_chirho::strs;
use crate::family_table_chirho::EquationV;
use crate::infer_chirho::{peel, peel_forall_chirho, reduce_fam, InferCtxChirho};
use crate::surface_types_chirho::{promoted_constructor_type_chirho, ConstraintChirho, TypeChirho};
use crate::synonyms_chirho::{expand, SynonymV};
use crate::ty_chirho::{free_vars, lemma_tys_view, preds_view, tys_view, vars_contains_chirho, vars_view, MultChirho, PredV, SchemeChirho,
    SchemePredChirho, SchemeV, TyChirho, TyV, TyVarChirho};

verus! {

/// The entries of a name table: each name with the number of its variable.
pub open spec fn entries_view(es: Seq<(String, TyVarChirho)>) -> Seq<(Seq<char>, u32)> {
    es.map_values(|e: (String, TyVarChirho)| (e.0@, e.1.0))
}

/// The position of the last entry named `n`, or -1: a later entry shadows an
/// earlier one.
pub open spec fn last_named(vm: Seq<(Seq<char>, u32)>, n: Seq<char>) -> int
    decreases vm.len(),
{
    if vm.len() == 0 {
        -1
    } else if vm.last().0 == n {
        vm.len() - 1
    } else {
        last_named(vm.drop_last(), n)
    }
}

/// How a written type is converted: as a signature, or as a family
/// equation, whose own families are not reduced while it is built.
#[derive(Clone, Copy, PartialEq, Eq, Debug, Structural)]
pub enum TypeConversionChirho {
    SignatureChirho,
    FamilyEquationChirho,
}

/// Entries binding the `i`-th name to variable `next + i`.
pub open spec fn binder_entries(names: Seq<Seq<char>>, next: nat) -> Seq<(Seq<char>, u32)> {
    Seq::new(names.len(), |i: int| (names[i], (next + i) as u32))
}

/// The variables `next`, `next + 1`, ..., `next + k - 1`.
pub open spec fn fresh_run(next: nat, k: nat) -> Seq<u32> {
    Seq::new(k, |i: int| (next + i) as u32)
}

/// The conversion of a written type, given the synonyms `syn`, the families
/// `fams`, the name table `vm` and the next fresh variable `next`: the type,
/// the name table after it and the next fresh variable after it. A named
/// variable takes its entry, or a fresh variable that it is then entered
/// with; constructors and applications have their synonyms expanded, and
/// applications their families reduced; an arrow is linear where it is
/// written so (families are reduced only when converting a signature); a
/// `forall` binds fresh variables, in order, for its body and
/// then drops those entries; contexts and parentheses vanish; a wildcard is
/// a fresh variable; a promoted list is built from its last element.
pub open spec fn ast_ty(syn: Map<Seq<char>, SynonymV>, fams: Map<Seq<char>, Seq<EquationV>>, pol: TypeConversionChirho, vm: Seq<(Seq<char>, u32)>, next: nat,
    t: TypeChirho) -> (TyV, Seq<(Seq<char>, u32)>, nat)
    decreases t, 0nat,
{
    match t {
        TypeChirho::VarChirho(n) => {
            let k = last_named(vm, n.text_chirho@);
            if k >= 0 {
                (TyV::Var(vm[k].1), vm, next)
            } else {
                (TyV::Var(next as u32), vm.push((n.text_chirho@, next as u32)), next + 1)
            }
        },
        TypeChirho::ConChirho(n) => (expand(syn, TyV::Con(n.full_name_chirho@), 0), vm, next),
        TypeChirho::ListChirho { element_chirho } => {
            let (v, vm1, n1) = ast_ty(syn, fams, pol, vm, next, *element_chirho);
            (TyV::List(Box::new(v)), vm1, n1)
        },
        TypeChirho::FunChirho { arg_chirho, explicit_one_chirho, result_chirho } => {
            let (a, vm1, n1) = ast_ty(syn, fams, pol, vm, next, *arg_chirho);
            let (r, vm2, n2) = ast_ty(syn, fams, pol, vm1, n1, *result_chirho);
            (TyV::Fun(Box::new(a), Box::new(r), if explicit_one_chirho { MultChirho::OneChirho } else { MultChirho::ManyChirho }), vm2, n2)
        },
        TypeChirho::TupleChirho { elements_chirho } => {
            let (vs, vm1, n1) = ast_tys(syn, fams, pol, vm, next, elements_chirho@);
            (TyV::Tuple(vs), vm1, n1)
        },
        TypeChirho::AppChirho { fun_chirho, arg_chirho } => {
            let (f, vm1, n1) = ast_ty(syn, fams, pol, vm, next, *fun_chirho);
            let (a, vm2, n2) = ast_ty(syn, fams, pol, vm1, n1, *arg_chirho);
            let expanded = expand(syn, TyV::App(Box::new(f), Box::new(a)), 0);
            (if pol == TypeConversionChirho::SignatureChirho { reduce_fam(fams, expanded, 0) } else { expanded }, vm2, n2)
        },
        TypeChirho::KindAppChirho { fun_chirho, arg_chirho } => {
            let (f, vm1, n1) = ast_ty(syn, fams, pol, vm, next, *fun_chirho);
            let (a, vm2, n2) = ast_ty(syn, fams, pol, vm1, n1, *arg_chirho);
            (TyV::KindApp(Box::new(f), Box::new(a)), vm2, n2)
        },
        TypeChirho::ParenChirho { inner_chirho } => ast_ty(syn, fams, pol, vm, next, *inner_chirho),
        TypeChirho::QualChirho { body_chirho, .. } => ast_ty(syn, fams, pol, vm, next, *body_chirho),
        TypeChirho::ForallChirho { vars_chirho, body_chirho } => {
            let names = strs(vars_chirho@);
            let vm1 = vm + binder_entries(names, next);
            let (b, vmb, nb) = ast_ty(syn, fams, pol, vm1, next + names.len(), *body_chirho);
            (TyV::Forall(fresh_run(next, names.len()), Box::new(b)), vmb.take(vm.len() as int) + vmb.skip(vm1.len() as int), nb)
        },
        TypeChirho::RequiredForallChirho { vars_chirho, body_chirho } => {
            let names = strs(vars_chirho@);
            let vm1 = vm + binder_entries(names, next);
            let (b, vmb, nb) = ast_ty(syn, fams, pol, vm1, next + names.len(), *body_chirho);
            (TyV::RequiredForall(fresh_run(next, names.len()), Box::new(b)), vmb.take(vm.len() as int) + vmb.skip(vm1.len() as int), nb)
        },
        TypeChirho::PromotedConChirho { name_chirho } => (TyV::Con("'"@ + name_chirho.full_name_chirho@), vm, next),
        TypeChirho::PromotedListChirho { elements_chirho } => ast_promoted(syn, fams, pol, vm, next, elements_chirho@, TyV::Con("'[]"@)),
        TypeChirho::WildcardChirho => (TyV::Var(next as u32), vm, next + 1),
        TypeChirho::LitChirho { value_chirho } => (TyV::Con(value_chirho@), vm, next),
    }
}

/// The conversions of a list of written types, left to right.
pub open spec fn ast_tys(syn: Map<Seq<char>, SynonymV>, fams: Map<Seq<char>, Seq<EquationV>>, pol: TypeConversionChirho, vm: Seq<(Seq<char>, u32)>, next: nat,
    es: Seq<TypeChirho>) -> (Seq<TyV>, Seq<(Seq<char>, u32)>, nat)
    decreases es, 0nat,
{
    if es.len() == 0 {
        (Seq::empty(), vm, next)
    } else {
        let (vs, vm1, n1) = ast_tys(syn, fams, pol, vm, next, es.drop_last());
        let (v, vm2, n2) = ast_ty(syn, fams, pol, vm1, n1, es.last());
        (vs.push(v), vm2, n2)
    }
}

/// A promoted list `'[e1, ..., en]` as `e1 ': (... ': (en ': acc))`, the
/// elements converted from the last.
pub open spec fn ast_promoted(syn: Map<Seq<char>, SynonymV>, fams: Map<Seq<char>, Seq<EquationV>>, pol: TypeConversionChirho, vm: Seq<(Seq<char>, u32)>, next: nat,
    es: Seq<TypeChirho>, acc: TyV) -> (TyV, Seq<(Seq<char>, u32)>, nat)
    decreases es, 0nat,
{
    if es.len() == 0 {
        (acc, vm, next)
    } else {
        let (v, vm1, n1) = ast_ty(syn, fams, pol, vm, next, es.last());
        ast_promoted(syn, fams, pol, vm1, n1, es.drop_last(), TyV::App(Box::new(TyV::App(Box::new(TyV::Con("':"@)), Box::new(v))), Box::new(acc)))
    }
}

/// Conversion only adds entries after the table it starts from and only
/// moves the next fresh variable forward.
pub proof fn lemma_ast_ty_grows(syn: Map<Seq<char>, SynonymV>, fams: Map<Seq<char>, Seq<EquationV>>, pol: TypeConversionChirho, vm: Seq<(Seq<char>, u32)>, next: nat,
    t: TypeChirho)
    ensures
        ast_ty(syn, fams, pol, vm, next, t).2 >= next,
        ast_ty(syn, fams, pol, vm, next, t).1.len() >= vm.len(),
        ast_ty(syn, fams, pol, vm, next, t).1.take(vm.len() as int) == vm,
    decreases t, 0nat,
{
    match t {
        TypeChirho::VarChirho(n) => {
            assert(vm.push((n.text_chirho@, next as u32)).take(vm.len() as int) =~= vm);
            assert(vm.take(vm.len() as int) =~= vm);
        },
        TypeChirho::ListChirho { element_chirho } => lemma_ast_ty_grows(syn, fams, pol, vm, next, *element_chirho),
        TypeChirho::FunChirho { arg_chirho, explicit_one_chirho, result_chirho } => {
            let (a, vm1, n1) = ast_ty(syn, fams, pol, vm, next, *arg_chirho);
            lemma_ast_ty_grows(syn, fams, pol, vm, next, *arg_chirho);
            lemma_ast_ty_grows(syn, fams, pol, vm1, n1, *result_chirho);
            lemma_take_take(ast_ty(syn, fams, pol, vm1, n1, *result_chirho).1, vm1, vm);
        },
        TypeChirho::TupleChirho { elements_chirho } => lemma_ast_tys_grows(syn, fams, pol, vm, next, elements_chirho@),
        TypeChirho::AppChirho { fun_chirho, arg_chirho } => {
            let (f, vm1, n1) = ast_ty(syn, fams, pol, vm, next, *fun_chirho);
            lemma_ast_ty_grows(syn, fams, pol, vm, next, *fun_chirho);
            lemma_ast_ty_grows(syn, fams, pol, vm1, n1, *arg_chirho);
            lemma_take_take(ast_ty(syn, fams, pol, vm1, n1, *arg_chirho).1, vm1, vm);
        },
        TypeChirho::KindAppChirho { fun_chirho, arg_chirho } => {
            let (f, vm1, n1) = ast_ty(syn, fams, pol, vm, next, *fun_chirho);
            lemma_ast_ty_grows(syn, fams, pol, vm, next, *fun_chirho);
            lemma_ast_ty_grows(syn, fams, pol, vm1, n1, *arg_chirho);
            lemma_take_take(ast_ty(syn, fams, pol, vm1, n1, *arg_chirho).1, vm1, vm);
        },
        TypeChirho::ParenChirho { inner_chirho } => lemma_ast_ty_grows(syn, fams, pol, vm, next, *inner_chirho),
        TypeChirho::QualChirho { body_chirho, .. } => lemma_ast_ty_grows(syn, fams, pol, vm, next, *body_chirho),
        TypeChirho::ForallChirho { vars_chirho, body_chirho } => {
            let names = strs(vars_chirho@);
            let vm1 = vm + binder_entries(names, next);
            lemma_ast_ty_grows(syn, fams, pol, vm1, next + names.len(), *body_chirho);
            assert(vm1.take(vm.len() as int) =~= vm);
            lemma_restore(ast_ty(syn, fams, pol, vm1, next + names.len(), *body_chirho).1, vm, vm1);
        },
        TypeChirho::RequiredForallChirho { vars_chirho, body_chirho } => {
            let names = strs(vars_chirho@);
            let vm1 = vm + binder_entries(names, next);
            lemma_ast_ty_grows(syn, fams, pol, vm1, next + names.len(), *body_chirho);
            assert(vm1.take(vm.len() as int) =~= vm);
            lemma_restore(ast_ty(syn, fams, pol, vm1, next + names.len(), *body_chirho).1, vm, vm1);
        },
        TypeChirho::PromotedListChirho { elements_chirho } =>
            lemma_ast_promoted_grows(syn, fams, pol, vm, next, elements_chirho@, TyV::Con("'[]"@)),
        _ => {
            assert(vm.take(vm.len() as int) =~= vm);
        },
    }
}

pub proof fn lemma_ast_tys_grows(syn: Map<Seq<char>, SynonymV>, fams: Map<Seq<char>, Seq<EquationV>>, pol: TypeConversionChirho, vm: Seq<(Seq<char>, u32)>, next: nat,
    es: Seq<TypeChirho>)
    ensures
        ast_tys(syn, fams, pol, vm, next, es).2 >= next,
        ast_tys(syn, fams, pol, vm, next, es).1.len() >= vm.len(),
        ast_tys(syn, fams, pol, vm, next, es).1.take(vm.len() as int) == vm,
    decreases es, 0nat,
{
    if es.len() == 0 {
        assert(vm.take(vm.len() as int) =~= vm);
    } else {
        let (vs, vm1, n1) = ast_tys(syn, fams, pol, vm, next, es.drop_last());
        lemma_ast_tys_grows(syn, fams, pol, vm, next, es.drop_last());
        lemma_ast_ty_grows(syn, fams, pol, vm1, n1, es.last());
        lemma_take_take(ast_ty(syn, fams, pol, vm1, n1, es.last()).1, vm1, vm);
    }
}

pub proof fn lemma_ast_promoted_grows(syn: Map<Seq<char>, SynonymV>, fams: Map<Seq<char>, Seq<EquationV>>, pol: TypeConversionChirho, vm: Seq<(Seq<char>, u32)>,
    next: nat, es: Seq<TypeChirho>, acc: TyV)
    ensures
        ast_promoted(syn, fams, pol, vm, next, es, acc).2 >= next,
        ast_promoted(syn, fams, pol, vm, next, es, acc).1.len() >= vm.len(),
        ast_promoted(syn, fams, pol, vm, next, es, acc).1.take(vm.len() as int) == vm,
    decreases es, 0nat,
{
    if es.len() == 0 {
        assert(vm.take(vm.len() as int) =~= vm);
    } else {
        let (v, vm1, n1) = ast_ty(syn, fams, pol, vm, next, es.last());
        let acc1 = TyV::App(Box::new(TyV::App(Box::new(TyV::Con("':"@)), Box::new(v))), Box::new(acc));
        lemma_ast_ty_grows(syn, fams, pol, vm, next, es.last());
        lemma_ast_promoted_grows(syn, fams, pol, vm1, n1, es.drop_last(), acc1);
        lemma_take_take(ast_promoted(syn, fams, pol, vm1, n1, es.drop_last(), acc1).1, vm1, vm);
    }
}

proof fn lemma_take_take(c: Seq<(Seq<char>, u32)>, b: Seq<(Seq<char>, u32)>, a: Seq<(Seq<char>, u32)>)
    requires
        b.len() >= a.len(),
        b.take(a.len() as int) == a,
        c.len() >= b.len(),
        c.take(b.len() as int) == b,
    ensures
        c.take(a.len() as int) == a,
{
    assert(c.take(a.len() as int) =~= a) by {
        assert forall|i: int| 0 <= i < a.len() implies c[i] == a[i] by {
            assert(c.take(b.len() as int)[i] == c[i]);
            assert(b.take(a.len() as int)[i] == b[i]);
        }
    }
}

proof fn lemma_restore(vmb: Seq<(Seq<char>, u32)>, vm: Seq<(Seq<char>, u32)>, vm1: Seq<(Seq<char>, u32)>)
    requires
        vm1.len() >= vm.len(),
        vm1.take(vm.len() as int) == vm,
        vmb.len() >= vm1.len(),
        vmb.take(vm1.len() as int) == vm1,
    ensures
        (vmb.take(vm.len() as int) + vmb.skip(vm1.len() as int)).len() >= vm.len(),
        (vmb.take(vm.len() as int) + vmb.skip(vm1.len() as int)).take(vm.len() as int) == vm,
{
    lemma_take_take(vmb, vm1, vm);
    assert((vmb.take(vm.len() as int) + vmb.skip(vm1.len() as int)).take(vm.len() as int) =~= vmb.take(vm.len() as int));
}

/// The position of the last entry named `name_chirho`, if any.
fn find_last_named_chirho(es: &Vec<(String, TyVarChirho)>, name_chirho: &str) -> (r: Option<usize>)
    ensures
        match r {
            Some(k) => k == last_named(entries_view(es@), name_chirho@) && k < es@.len(),
            None => last_named(entries_view(es@), name_chirho@) == -1,
        },
{
    let ghost ev = entries_view(es@);
    let mut i: usize = es.len();
    proof { assert(ev.take(i as int) =~= ev); }
    while i > 0
        invariant
            i <= es.len(),
            ev == entries_view(es@),
            ev.len() == es@.len(),
            last_named(ev.take(i as int), name_chirho@) == last_named(ev, name_chirho@),
        decreases i,
    {
        let ghost t = ev.take(i as int);
        proof {
            assert(t.last() == (es@[i - 1].0@, es@[i - 1].1.0));
            assert(t.drop_last() =~= ev.take(i - 1));
        }
        if crate::ty_chirho::str_eq_chirho(es[i - 1].0.as_str(), name_chirho) {
            return Some(i - 1);
        }
        i = i - 1;
    }
    None
}

impl InferCtxChirho {
    /// Converts a written type into a type under `policy_chirho`, as
    /// [`ast_ty`] says, with `var_map_chirho` the table of named variables in
    /// scope: a named variable seen before keeps its variable, so `a -> a`
    /// uses one variable for both occurrences.
    pub fn ast_type_with_policy_chirho(&mut self, ast_ty_chirho: &TypeChirho, var_map_chirho: &mut Vec<(String, TyVarChirho)>,
        policy_chirho: TypeConversionChirho) -> (r: TyChirho)
        requires
            ast_ty(old(self).type_synonyms_chirho.map(), old(self).type_families_chirho.map(), policy_chirho, entries_view(old(var_map_chirho)@),
                old(self).next_var_chirho as nat, *ast_ty_chirho).2 <= u32::MAX,
        ensures
            (r@, entries_view(final(var_map_chirho)@), final(self).next_var_chirho as nat)
                == ast_ty(old(self).type_synonyms_chirho.map(), old(self).type_families_chirho.map(), policy_chirho, entries_view(old(var_map_chirho)@),
                    old(self).next_var_chirho as nat, *ast_ty_chirho),
            final(self).env_chirho == old(self).env_chirho,
            final(self).class_env_chirho == old(self).class_env_chirho,
            final(self).deferred_preds_chirho == old(self).deferred_preds_chirho,
            final(self).type_synonyms_chirho == old(self).type_synonyms_chirho,
            final(self).type_families_chirho == old(self).type_families_chirho,
            final(self).given_rewrites_chirho == old(self).given_rewrites_chirho,
        decreases ast_ty_chirho, 1nat,
    {
        let ghost syn = self.type_synonyms_chirho.map();
        let ghost fams = self.type_families_chirho.map();
        let ghost pol = policy_chirho;
        let ghost vm = entries_view(var_map_chirho@);
        let ghost n0 = self.next_var_chirho as nat;
        proof { lemma_ast_ty_grows(syn, fams, pol, vm, n0, *ast_ty_chirho); }
        match ast_ty_chirho {
            TypeChirho::VarChirho(name_chirho) => {
                match find_last_named_chirho(var_map_chirho, name_chirho.text_chirho.as_str()) {
                    Some(k) => TyChirho::VarChirho(var_map_chirho[k].1),
                    None => {
                        let v = TyVarChirho(self.next_var_chirho);
                        self.next_var_chirho = self.next_var_chirho + 1;
                        let ghost before = var_map_chirho@;
                        var_map_chirho.push((name_chirho.text_chirho.clone(), v));
                        proof {
                            assert(entries_view(var_map_chirho@) =~= entries_view(before).push((name_chirho.text_chirho@, v.0)));
                        }
                        TyChirho::VarChirho(v)
                    },
                }
            },
            TypeChirho::ConChirho(name_chirho) => {
                let raw_chirho = TyChirho::ConChirho(name_chirho.full_name_chirho.clone());
                self.expand_type_synonyms_chirho(&raw_chirho)
            },
            TypeChirho::ListChirho { element_chirho } => {
                let e = self.ast_type_with_policy_chirho(element_chirho, var_map_chirho, policy_chirho);
                TyChirho::ListChirho(Box::new(e))
            },
            TypeChirho::FunChirho { arg_chirho, explicit_one_chirho, result_chirho } => {
                proof {
                    let (a, vm1, n1) = ast_ty(syn, fams, pol, vm, n0, **arg_chirho);
                    lemma_ast_ty_grows(syn, fams, pol, vm1, n1, **result_chirho);
                }
                let a_chirho = self.ast_type_with_policy_chirho(arg_chirho, var_map_chirho, policy_chirho);
                let r_chirho = self.ast_type_with_policy_chirho(result_chirho, var_map_chirho, policy_chirho);
                let m_chirho = if *explicit_one_chirho { MultChirho::OneChirho } else { MultChirho::ManyChirho };
                TyChirho::FunChirho(Box::new(a_chirho), Box::new(r_chirho), m_chirho)
            },
            TypeChirho::TupleChirho { elements_chirho } => {
                let es_chirho = self.ast_types_to_tys_chirho(elements_chirho, var_map_chirho, policy_chirho);
                TyChirho::TupleChirho(es_chirho)
            },
            TypeChirho::AppChirho { fun_chirho, arg_chirho } => {
                proof {
                    let (f, vm1, n1) = ast_ty(syn, fams, pol, vm, n0, **fun_chirho);
                    lemma_ast_ty_grows(syn, fams, pol, vm1, n1, **arg_chirho);
                }
                let f_chirho = self.ast_type_with_policy_chirho(fun_chirho, var_map_chirho, policy_chirho);
                let a_chirho = self.ast_type_with_policy_chirho(arg_chirho, var_map_chirho, policy_chirho);
                let raw_chirho = TyChirho::AppChirho(Box::new(f_chirho), Box::new(a_chirho));
                let expanded_chirho = self.expand_type_synonyms_chirho(&raw_chirho);
                match policy_chirho {
                    TypeConversionChirho::SignatureChirho => self.reduce_type_families_in_ty_chirho(&expanded_chirho),
                    TypeConversionChirho::FamilyEquationChirho => expanded_chirho,
                }
            },
            TypeChirho::KindAppChirho { fun_chirho, arg_chirho } => {
                proof {
                    let (f, vm1, n1) = ast_ty(syn, fams, pol, vm, n0, **fun_chirho);
                    lemma_ast_ty_grows(syn, fams, pol, vm1, n1, **arg_chirho);
                }
                let f_chirho = self.ast_type_with_policy_chirho(fun_chirho, var_map_chirho, policy_chirho);
                let a_chirho = self.ast_type_with_policy_chirho(arg_chirho, var_map_chirho, policy_chirho);
                TyChirho::KindAppChirho(Box::new(f_chirho), Box::new(a_chirho))
            },
            TypeChirho::ParenChirho { inner_chirho } => self.ast_type_with_policy_chirho(inner_chirho, var_map_chirho, policy_chirho),
            TypeChirho::QualChirho { body_chirho, .. } => self.ast_type_with_policy_chirho(body_chirho, var_map_chirho, policy_chirho),
            TypeChirho::ForallChirho { vars_chirho, body_chirho } => {
                let (bound_chirho, body_ty_chirho) = self.ast_forall_body_chirho(vars_chirho, body_chirho, var_map_chirho, policy_chirho);
                TyChirho::ForallChirho { vars_chirho: bound_chirho, body_chirho: Box::new(body_ty_chirho) }
            },
            TypeChirho::RequiredForallChirho { vars_chirho, body_chirho } => {
                let (bound_chirho, body_ty_chirho) = self.ast_forall_body_chirho(vars_chirho, body_chirho, var_map_chirho, policy_chirho);
                TyChirho::RequiredForallChirho { vars_chirho: bound_chirho, body_chirho: Box::new(body_ty_chirho) }
            },
            TypeChirho::PromotedConChirho { name_chirho } => promoted_constructor_type_chirho(name_chirho),
            TypeChirho::PromotedListChirho { elements_chirho } => self.ast_promoted_list_chirho(elements_chirho, var_map_chirho, policy_chirho),
            TypeChirho::WildcardChirho => {
                let v = TyVarChirho(self.next_var_chirho);
                self.next_var_chirho = self.next_var_chirho + 1;
                TyChirho::VarChirho(v)
            },
            TypeChirho::LitChirho { value_chirho } => TyChirho::ConChirho(value_chirho.clone()),
        }
    }

    /// Converts a written type as a signature: [`ast_type_with_policy_chirho`]
    /// under [`TypeConversionChirho::SignatureChirho`].
    pub fn ast_type_to_ty_chirho(&mut self, ast_ty_chirho: &TypeChirho, var_map_chirho: &mut Vec<(String, TyVarChirho)>) -> (r: TyChirho)
        requires
            ast_ty(old(self).type_synonyms_chirho.map(), old(self).type_families_chirho.map(), TypeConversionChirho::SignatureChirho,
                entries_view(old(var_map_chirho)@), old(self).next_var_chirho as nat, *ast_ty_chirho).2 <= u32::MAX,
        ensures
            (r@, entries_view(final(var_map_chirho)@), final(self).next_var_chirho as nat)
                == ast_ty(old(self).type_synonyms_chirho.map(), old(self).type_families_chirho.map(), TypeConversionChirho::SignatureChirho,
                    entries_view(old(var_map_chirho)@), old(self).next_var_chirho as nat, *ast_ty_chirho),
            final(self).env_chirho == old(self).env_chirho,
            final(self).class_env_chirho == old(self).class_env_chirho,
            final(self).deferred_preds_chirho == old(self).deferred_preds_chirho,
            final(self).type_synonyms_chirho == old(self).type_synonyms_chirho,
            final(self).type_families_chirho == old(self).type_families_chirho,
            final(self).given_rewrites_chirho == old(self).given_rewrites_chirho,
    {
        self.ast_type_with_policy_chirho(ast_ty_chirho, var_map_chirho, TypeConversionChirho::SignatureChirho)
    }

    /// Converts the body of a `forall`: its binders get fresh variables, in
    /// order, that are in scope for the body only. Returns the binders'
    /// variables and the body.
    fn ast_forall_body_chirho(&mut self, vars_chirho: &Vec<String>, body_chirho: &TypeChirho, var_map_chirho: &mut Vec<(String, TyVarChirho)>,
        policy_chirho: TypeConversionChirho)
        -> (r: (Vec<TyVarChirho>, TyChirho))
        requires
            ({
                let names = strs(vars_chirho@);
                let vm = entries_view(old(var_map_chirho)@);
                let next = old(self).next_var_chirho as nat;
                ast_ty(old(self).type_synonyms_chirho.map(), old(self).type_families_chirho.map(), policy_chirho, vm + binder_entries(names, next),
                    next + names.len(), *body_chirho).2 <= u32::MAX
            }),
        ensures
            ({
                let names = strs(vars_chirho@);
                let vm = entries_view(old(var_map_chirho)@);
                let next = old(self).next_var_chirho as nat;
                let vm1 = vm + binder_entries(names, next);
                let (b, vmb, nb) = ast_ty(old(self).type_synonyms_chirho.map(), old(self).type_families_chirho.map(), policy_chirho, vm1,
                    next + names.len(), *body_chirho);
                &&& vars_view(r.0@) == fresh_run(next, names.len())
                &&& r.1@ == b
                &&& entries_view(final(var_map_chirho)@) == vmb.take(vm.len() as int) + vmb.skip(vm1.len() as int)
                &&& final(self).next_var_chirho as nat == nb
            }),
            final(self).env_chirho == old(self).env_chirho,
            final(self).class_env_chirho == old(self).class_env_chirho,
            final(self).deferred_preds_chirho == old(self).deferred_preds_chirho,
            final(self).type_synonyms_chirho == old(self).type_synonyms_chirho,
            final(self).type_families_chirho == old(self).type_families_chirho,
            final(self).given_rewrites_chirho == old(self).given_rewrites_chirho,
        decreases body_chirho, 2nat,
    {
        let ghost syn = self.type_synonyms_chirho.map();
        let ghost fams = self.type_families_chirho.map();
        let ghost pol = policy_chirho;
        let ghost names = strs(vars_chirho@);
        let ghost vm = entries_view(var_map_chirho@);
        let ghost n0 = self.next_var_chirho as nat;
        let ghost vm1 = vm + binder_entries(names, n0);
        let old_len = var_map_chirho.len();
        proof {
            lemma_ast_ty_grows(syn, fams, pol, vm1, n0 + names.len(), *body_chirho);
            assert(names.take(0) =~= Seq::<Seq<char>>::empty());
            assert(vm + binder_entries(names.take(0), n0) =~= vm);
        }
        let mut bound_chirho: Vec<TyVarChirho> = Vec::new();
        let mut i: usize = 0;
        proof { assert(vars_view(bound_chirho@) =~= fresh_run(n0, 0)); }
        while i < vars_chirho.len()
            invariant
                i <= vars_chirho.len(),
                names == strs(vars_chirho@),
                names.len() == vars_chirho@.len(),
                vm == entries_view(old(var_map_chirho)@),
                old_len == vm.len(),
                n0 + names.len() <= u32::MAX,
                self.next_var_chirho as nat == n0 + i,
                entries_view(var_map_chirho@) == vm + binder_entries(names.take(i as int), n0),
                vars_view(bound_chirho@) == fresh_run(n0, i as nat),
                syn == self.type_synonyms_chirho.map(),
                fams == self.type_families_chirho.map(),
                pol == policy_chirho,
                vm1 == vm + binder_entries(names, n0),
                ast_ty(syn, fams, pol, vm1, n0 + names.len(), *body_chirho).2 <= u32::MAX,
                self.env_chirho == old(self).env_chirho,
                self.class_env_chirho == old(self).class_env_chirho,
                self.deferred_preds_chirho == old(self).deferred_preds_chirho,
                self.type_synonyms_chirho == old(self).type_synonyms_chirho,
                self.type_families_chirho == old(self).type_families_chirho,
                self.given_rewrites_chirho == old(self).given_rewrites_chirho,
            decreases vars_chirho.len() - i,
        {
            let v = TyVarChirho(self.next_var_chirho);
            self.next_var_chirho = self.next_var_chirho + 1;
            let ghost before = var_map_chirho@;
            let ghost bbefore = bound_chirho@;
            var_map_chirho.push((vars_chirho[i].clone(), v));
            bound_chirho.push(v);
            proof {
                assert(names[i as int] == vars_chirho@[i as int]@);
                assert(entries_view(var_map_chirho@) =~= entries_view(before).push((vars_chirho@[i as int]@, v.0)));
                assert(binder_entries(names.take(i + 1), n0) =~= binder_entries(names.take(i as int), n0).push((names[i as int], (n0 + i) as u32)));
                assert(vm + binder_entries(names.take(i + 1), n0) =~= (vm + binder_entries(names.take(i as int), n0)).push((names[i as int], (n0 + i) as u32)));
                assert(vars_view(bound_chirho@) =~= vars_view(bbefore).push(v.0));
                assert(fresh_run(n0, (i + 1) as nat) =~= fresh_run(n0, i as nat).push((n0 + i) as u32));
            }
            i = i + 1;
        }
        proof { assert(names.take(i as int) =~= names); }
        let body_ty_chirho = self.ast_type_with_policy_chirho(body_chirho, var_map_chirho, policy_chirho);
        let ghost res = ast_ty(syn, fams, pol, vm1, n0 + names.len(), *body_chirho);
        let ghost vmb = entries_view(var_map_chirho@);
        let ghost k = names.len() as int;
        let mut j: usize = 0;
        proof {
            assert(vmb == res.1);
            assert(vmb.len() >= vm1.len());
            assert(vmb.take(old_len as int) + vmb.skip(old_len as int) =~= vmb);
        }
        while j < vars_chirho.len()
            invariant
                j <= vars_chirho.len(),
                k == vars_chirho@.len(),
                old_len == vm.len(),
                vm1.len() == old_len + k,
                vmb.len() >= vm1.len(),
                entries_view(var_map_chirho@) == vmb.take(old_len as int) + vmb.skip(old_len + j),
                body_ty_chirho@ == res.0,
                vmb == res.1,
                self.next_var_chirho as nat == res.2,
                vars_view(bound_chirho@) == fresh_run(n0, names.len()),
                self.env_chirho == old(self).env_chirho,
                self.class_env_chirho == old(self).class_env_chirho,
                self.deferred_preds_chirho == old(self).deferred_preds_chirho,
                self.type_synonyms_chirho == old(self).type_synonyms_chirho,
                self.type_families_chirho == old(self).type_families_chirho,
                self.given_rewrites_chirho == old(self).given_rewrites_chirho,
            decreases vars_chirho.len() - j,
        {
            let ghost before = var_map_chirho@;
            proof {
                assert(entries_view(before).len() == before.len());
                assert(before.len() == old_len + (vmb.len() - old_len - j));
            }
            var_map_chirho.remove(old_len);
            proof {
                assert(entries_view(var_map_chirho@) =~= entries_view(before).remove(old_len as int));
                assert(entries_view(before).remove(old_len as int) =~= vmb.take(old_len as int) + vmb.skip(old_len + j + 1));
            }
            j = j + 1;
        }
        (bound_chirho, body_ty_chirho)
    }

    /// Converts a list of written types, left to right.
    fn ast_types_to_tys_chirho(&mut self, es: &Vec<TypeChirho>, var_map_chirho: &mut Vec<(String, TyVarChirho)>,
        policy_chirho: TypeConversionChirho) -> (r: Vec<TyChirho>)
        requires
            ast_tys(old(self).type_synonyms_chirho.map(), old(self).type_families_chirho.map(), policy_chirho, entries_view(old(var_map_chirho)@),
                old(self).next_var_chirho as nat, es@).2 <= u32::MAX,
        ensures
            (tys_view(r@), entries_view(final(var_map_chirho)@), final(self).next_var_chirho as nat)
                == ast_tys(old(self).type_synonyms_chirho.map(), old(self).type_families_chirho.map(), policy_chirho, entries_view(old(var_map_chirho)@),
                    old(self).next_var_chirho as nat, es@),
            final(self).env_chirho == old(self).env_chirho,
            final(self).class_env_chirho == old(self).class_env_chirho,
            final(self).deferred_preds_chirho == old(self).deferred_preds_chirho,
            final(self).type_synonyms_chirho == old(self).type_synonyms_chirho,
            final(self).type_families_chirho == old(self).type_families_chirho,
            final(self).given_rewrites_chirho == old(self).given_rewrites_chirho,
        decreases es@, 0nat,
    {
        let ghost syn = self.type_synonyms_chirho.map();
        let ghost fams = self.type_families_chirho.map();
        let ghost pol = policy_chirho;
        let ghost vm = entries_view(var_map_chirho@);
        let ghost n0 = self.next_var_chirho as nat;
        let mut out: Vec<TyChirho> = Vec::new();
        let mut i: usize = 0;
        proof {
            assert(es@.take(0) =~= Seq::<TypeChirho>::empty());
            assert(tys_view(out@) =~= Seq::<TyV>::empty());
        }
        while i < es.len()
            invariant
                i <= es.len(),
                syn == self.type_synonyms_chirho.map(),
                fams == self.type_families_chirho.map(),
                pol == policy_chirho,
                ast_tys(syn, fams, pol, vm, n0, es@).2 <= u32::MAX,
                (tys_view(out@), entries_view(var_map_chirho@), self.next_var_chirho as nat) == ast_tys(syn, fams, pol, vm, n0, es@.take(i as int)),
                self.env_chirho == old(self).env_chirho,
                self.class_env_chirho == old(self).class_env_chirho,
                self.deferred_preds_chirho == old(self).deferred_preds_chirho,
                self.type_synonyms_chirho == old(self).type_synonyms_chirho,
                self.type_families_chirho == old(self).type_families_chirho,
                self.given_rewrites_chirho == old(self).given_rewrites_chirho,
            decreases es.len() - i,
        {
            proof {
                assert(decreases_to!(es@ => es@[i as int]));
                let t = es@.take(i + 1);
                assert(t.drop_last() =~= es@.take(i as int));
                assert(t.last() == es@[i as int]);
                lemma_ast_tys_prefix(syn, fams, pol, vm, n0, es@, i + 1);
            }
            let ghost before = out@;
            let v = self.ast_type_with_policy_chirho(&es[i], var_map_chirho, policy_chirho);
            out.push(v);
            proof {
                assert(out@.drop_last() =~= before);
            }
            i = i + 1;
        }
        proof {
            assert(es@.take(i as int) =~= es@);
        }
        out
    }

    /// Converts a promoted list, its elements from the last.
    fn ast_promoted_list_chirho(&mut self, es: &Vec<TypeChirho>, var_map_chirho: &mut Vec<(String, TyVarChirho)>,
        policy_chirho: TypeConversionChirho) -> (r: TyChirho)
        requires
            ast_promoted(old(self).type_synonyms_chirho.map(), old(self).type_families_chirho.map(), policy_chirho, entries_view(old(var_map_chirho)@),
                old(self).next_var_chirho as nat, es@, TyV::Con("'[]"@)).2 <= u32::MAX,
        ensures
            (r@, entries_view(final(var_map_chirho)@), final(self).next_var_chirho as nat)
                == ast_promoted(old(self).type_synonyms_chirho.map(), old(self).type_families_chirho.map(), policy_chirho, entries_view(old(var_map_chirho)@),
                    old(self).next_var_chirho as nat, es@, TyV::Con("'[]"@)),
            final(self).env_chirho == old(self).env_chirho,
            final(self).class_env_chirho == old(self).class_env_chirho,
            final(self).deferred_preds_chirho == old(self).deferred_preds_chirho,
            final(self).type_synonyms_chirho == old(self).type_synonyms_chirho,
            final(self).type_families_chirho == old(self).type_families_chirho,
            final(self).given_rewrites_chirho == old(self).given_rewrites_chirho,
        decreases es@, 0nat,
    {
        let ghost syn = self.type_synonyms_chirho.map();
        let ghost fams = self.type_families_chirho.map();
        let ghost pol = policy_chirho;
        let ghost goal = ast_promoted(syn, fams, pol, entries_view(var_map_chirho@), self.next_var_chirho as nat, es@, TyV::Con("'[]"@));
        let mut acc = TyChirho::ConChirho("'[]".to_owned());
        let mut i: usize = es.len();
        proof {
            assert(es@.take(i as int) =~= es@);
        }
        while i > 0
            invariant
                i <= es.len(),
                syn == self.type_synonyms_chirho.map(),
                fams == self.type_families_chirho.map(),
                pol == policy_chirho,
                goal.2 <= u32::MAX,
                goal == ast_promoted(syn, fams, pol, entries_view(var_map_chirho@), self.next_var_chirho as nat, es@.take(i as int), acc@),
                self.env_chirho == old(self).env_chirho,
                self.class_env_chirho == old(self).class_env_chirho,
                self.deferred_preds_chirho == old(self).deferred_preds_chirho,
                self.type_synonyms_chirho == old(self).type_synonyms_chirho,
                self.type_families_chirho == old(self).type_families_chirho,
                self.given_rewrites_chirho == old(self).given_rewrites_chirho,
            decreases i,
        {
            proof {
                assert(decreases_to!(es@ => es@[i - 1]));
                let t = es@.take(i as int);
                assert(t.drop_last() =~= es@.take(i - 1));
                assert(t.last() == es@[i - 1]);
                let (v, vm1, n1) = ast_ty(syn, fams, pol, entries_view(var_map_chirho@), self.next_var_chirho as nat, t.last());
                lemma_ast_promoted_grows(syn, fams, pol, vm1, n1, t.drop_last(),
                    TyV::App(Box::new(TyV::App(Box::new(TyV::Con("':"@)), Box::new(v))), Box::new(acc@)));
            }
            let ghost vm_before = entries_view(var_map_chirho@);
            let ghost n_before = self.next_var_chirho as nat;
            let ghost acc_before = acc@;
            let e = self.ast_type_with_policy_chirho(&es[i - 1], var_map_chirho, policy_chirho);
            let cons_chirho = TyChirho::con_chirho("':".to_owned());
            acc = TyChirho::app_chirho(TyChirho::app_chirho(cons_chirho, e), acc);
            proof {
                let t = es@.take(i as int);
                let (v, vm1, n1) = ast_ty(syn, fams, pol, vm_before, n_before, t.last());
                assert(e@ == v);
                assert(entries_view(var_map_chirho@) == vm1);
                assert(self.next_var_chirho as nat == n1);
                assert(acc@ == TyV::App(Box::new(TyV::App(Box::new(TyV::Con("':"@)), Box::new(v))), Box::new(acc_before)));
                assert(ast_promoted(syn, fams, pol, vm_before, n_before, t, acc_before)
                    == ast_promoted(syn, fams, pol, vm1, n1, t.drop_last(), acc@));
            }
            i = i - 1;
        }
        proof {
            assert(es@.take(0) =~= Seq::<TypeChirho>::empty());
        }
        acc
    }
}

/// Converting a prefix of a list ends no later than converting the list.
pub proof fn lemma_ast_tys_prefix(syn: Map<Seq<char>, SynonymV>, fams: Map<Seq<char>, Seq<EquationV>>, pol: TypeConversionChirho, vm: Seq<(Seq<char>, u32)>,
    next: nat, es: Seq<TypeChirho>, k: int)
    requires
        0 <= k <= es.len(),
    ensures
        ast_tys(syn, fams, pol, vm, next, es.take(k)).2 <= ast_tys(syn, fams, pol, vm, next, es).2,
    decreases es.len() - k,
{
    if k == es.len() {
        assert(es.take(k) =~= es);
    } else {
        lemma_ast_tys_prefix(syn, fams, pol, vm, next, es, k + 1);
        let t = es.take(k + 1);
        assert(t.drop_last() =~= es.take(k));
        let (vs, vm1, n1) = ast_tys(syn, fams, pol, vm, next, es.take(k));
        lemma_ast_ty_grows(syn, fams, pol, vm1, n1, t.last());
    }
}


/// The constraints of a written signature: those of its contexts, outermost
/// first, looking through `forall`s.
pub open spec fn context_of(t: TypeChirho) -> Seq<ConstraintChirho>
    decreases t,
{
    match t {
        TypeChirho::QualChirho { context_chirho, body_chirho } => context_chirho@ + context_of(*body_chirho),
        TypeChirho::ForallChirho { body_chirho, .. } => context_of(*body_chirho),
        _ => Seq::empty(),
    }
}

/// What a written signature says under its contexts and `forall`s.
pub open spec fn body_of(t: TypeChirho) -> TypeChirho
    decreases t,
{
    match t {
        TypeChirho::QualChirho { body_chirho, .. } => body_of(*body_chirho),
        TypeChirho::ForallChirho { body_chirho, .. } => body_of(*body_chirho),
        _ => t,
    }
}

/// The predicates of constraints, left to right: each constraint's class
/// with its first argument converted as a signature, or a fresh variable
/// where it has none.
pub open spec fn constraint_preds(syn: Map<Seq<char>, SynonymV>, fams: Map<Seq<char>, Seq<EquationV>>, vm: Seq<(Seq<char>, u32)>,
    next: nat, cs: Seq<ConstraintChirho>) -> (Seq<PredV>, Seq<(Seq<char>, u32)>, nat)
    decreases cs.len(),
{
    if cs.len() == 0 {
        (Seq::empty(), vm, next)
    } else {
        let (ps, vm1, n1) = constraint_preds(syn, fams, vm, next, cs.drop_last());
        let c = cs.last();
        let (t, vm2, n2) = if c.args_chirho@.len() > 0 {
            ast_ty(syn, fams, TypeConversionChirho::SignatureChirho, vm1, n1, c.args_chirho@[0])
        } else {
            (TyV::Var(n1 as u32), vm1, n1 + 1)
        };
        (ps.push(PredV { class: c.class_chirho.text_chirho@, ty: t, extra: Seq::empty() }), vm2, n2)
    }
}

/// The variable of each entry of a name table, in order.
pub open spec fn entry_vars(vm: Seq<(Seq<char>, u32)>) -> Seq<u32> {
    vm.map_values(|e: (Seq<char>, u32)| e.1)
}

/// Keeps the variables free in `t`.
pub open spec fn free_in(t: TyV) -> spec_fn(u32) -> bool {
    |v: u32| free_vars(t).contains(v)
}

/// The scheme of a written signature, with `vm` the scoped variables, and
/// the next fresh variable after it. The type under the contexts is
/// converted first, then the constraints; its outermost `forall`s (those
/// left under parentheses) give the quantified variables; without them the
/// scheme quantifies the table's variables that are free in the type, in
/// table order.
pub open spec fn written_scheme(syn: Map<Seq<char>, SynonymV>, fams: Map<Seq<char>, Seq<EquationV>>, vm: Seq<(Seq<char>, u32)>,
    next: nat, t: TypeChirho) -> (SchemeV, nat)
{
    let (ty, vm1, n1) = ast_ty(syn, fams, TypeConversionChirho::SignatureChirho, vm, next, body_of(t));
    let (ps, vm2, n2) = constraint_preds(syn, fams, vm1, n1, context_of(t));
    let (outer, inner) = peel(ty);
    let vars = if outer.len() > 0 { outer } else { entry_vars(vm2).filter(free_in(inner)) };
    (SchemeV { vars, preds: ps, ty: inner }, n2)
}

pub proof fn lemma_constraint_preds_grows(syn: Map<Seq<char>, SynonymV>, fams: Map<Seq<char>, Seq<EquationV>>,
    vm: Seq<(Seq<char>, u32)>, next: nat, cs: Seq<ConstraintChirho>)
    ensures
        constraint_preds(syn, fams, vm, next, cs).2 >= next,
    decreases cs.len(),
{
    if cs.len() > 0 {
        lemma_constraint_preds_grows(syn, fams, vm, next, cs.drop_last());
        let (ps, vm1, n1) = constraint_preds(syn, fams, vm, next, cs.drop_last());
        if cs.last().args_chirho@.len() > 0 {
            lemma_ast_ty_grows(syn, fams, TypeConversionChirho::SignatureChirho, vm1, n1, cs.last().args_chirho@[0]);
        }
    }
}

pub proof fn lemma_constraint_preds_prefix(syn: Map<Seq<char>, SynonymV>, fams: Map<Seq<char>, Seq<EquationV>>,
    vm: Seq<(Seq<char>, u32)>, next: nat, cs: Seq<ConstraintChirho>, k: int)
    requires
        0 <= k <= cs.len(),
    ensures
        constraint_preds(syn, fams, vm, next, cs.take(k)).2 <= constraint_preds(syn, fams, vm, next, cs).2,
    decreases cs.len() - k,
{
    if k == cs.len() {
        assert(cs.take(k) =~= cs);
    } else {
        lemma_constraint_preds_prefix(syn, fams, vm, next, cs, k + 1);
        let t = cs.take(k + 1);
        assert(t.drop_last() =~= cs.take(k));
        lemma_constraint_preds_grows(syn, fams, vm, next, t);
        let (ps, vm1, n1) = constraint_preds(syn, fams, vm, next, cs.take(k));
        if t.last().args_chirho@.len() > 0 {
            lemma_ast_ty_grows(syn, fams, TypeConversionChirho::SignatureChirho, vm1, n1, t.last().args_chirho@[0]);
        }
    }
}

/// The constraints as values.
pub open spec fn deref_constraints(cs: Seq<&ConstraintChirho>) -> Seq<ConstraintChirho> {
    cs.map_values(|c: &ConstraintChirho| *c)
}

/// Collects the constraints of a written signature into `out_chirho` and
/// returns what it says under its contexts and `forall`s.
fn extract_constraints_chirho<'a>(ast_ty_chirho: &'a TypeChirho, out_chirho: &mut Vec<&'a ConstraintChirho>) -> (r: &'a TypeChirho)
    ensures
        *r == body_of(*ast_ty_chirho),
        deref_constraints(final(out_chirho)@) == deref_constraints(old(out_chirho)@) + context_of(*ast_ty_chirho),
    decreases ast_ty_chirho,
{
    match ast_ty_chirho {
        TypeChirho::QualChirho { context_chirho, body_chirho } => {
            let ghost start = deref_constraints(out_chirho@);
            let mut i: usize = 0;
            proof { assert(start + context_chirho@.take(0) =~= start); }
            while i < context_chirho.len()
                invariant
                    i <= context_chirho.len(),
                    deref_constraints(out_chirho@) == start + context_chirho@.take(i as int),
                decreases context_chirho.len() - i,
            {
                let ghost before = out_chirho@;
                out_chirho.push(&context_chirho[i]);
                proof {
                    assert(deref_constraints(out_chirho@) =~= deref_constraints(before).push(context_chirho@[i as int]));
                    assert(context_chirho@.take(i + 1) =~= context_chirho@.take(i as int).push(context_chirho@[i as int]));
                    assert(start + context_chirho@.take(i + 1) =~= (start + context_chirho@.take(i as int)).push(context_chirho@[i as int]));
                }
                i = i + 1;
            }
            proof { assert(context_chirho@.take(i as int) =~= context_chirho@); }
            let r = extract_constraints_chirho(body_chirho, out_chirho);
            proof {
                assert(start + context_chirho@ + context_of(**body_chirho) =~= start + (context_chirho@ + context_of(**body_chirho)));
            }
            r
        },
        TypeChirho::ForallChirho { body_chirho, .. } => extract_constraints_chirho(body_chirho, out_chirho),
        _ => {
            proof { assert(deref_constraints(out_chirho@) + Seq::<ConstraintChirho>::empty() =~= deref_constraints(out_chirho@)); }
            ast_ty_chirho
        },
    }
}

impl InferCtxChirho {
    /// Converts a written signature into a scheme, as [`written_scheme`]
    /// says, starting from the scoped type variables: the constraints of its
    /// contexts become its predicates.
    pub fn ast_type_to_scheme_chirho(&mut self, ast_ty_chirho: &TypeChirho) -> (r: SchemeChirho)
        requires
            written_scheme(old(self).type_synonyms_chirho.map(), old(self).type_families_chirho.map(), entries_view(old(self).scoped_tyvars_chirho@),
                old(self).next_var_chirho as nat, *ast_ty_chirho).1 <= u32::MAX,
        ensures
            (r@, final(self).next_var_chirho as nat) == written_scheme(old(self).type_synonyms_chirho.map(), old(self).type_families_chirho.map(),
                entries_view(old(self).scoped_tyvars_chirho@), old(self).next_var_chirho as nat, *ast_ty_chirho),
            final(self).env_chirho == old(self).env_chirho,
            final(self).class_env_chirho == old(self).class_env_chirho,
            final(self).deferred_preds_chirho == old(self).deferred_preds_chirho,
            final(self).type_synonyms_chirho == old(self).type_synonyms_chirho,
            final(self).type_families_chirho == old(self).type_families_chirho,
            final(self).given_rewrites_chirho == old(self).given_rewrites_chirho,
    {
        let ghost syn = self.type_synonyms_chirho.map();
        let ghost fams = self.type_families_chirho.map();
        let ghost sig = TypeConversionChirho::SignatureChirho;
        let ghost vm0 = entries_view(self.scoped_tyvars_chirho@);
        let ghost n0 = self.next_var_chirho as nat;
        let mut var_map_chirho: Vec<(String, TyVarChirho)> = Vec::new();
        let mut i: usize = 0;
        proof { assert(entries_view(var_map_chirho@) =~= vm0.take(0)); }
        while i < self.scoped_tyvars_chirho.len()
            invariant
                i <= self.scoped_tyvars_chirho.len(),
                vm0 == entries_view(self.scoped_tyvars_chirho@),
                entries_view(var_map_chirho@) == vm0.take(i as int),
            decreases self.scoped_tyvars_chirho.len() - i,
        {
            let ghost before = var_map_chirho@;
            let entry = (self.scoped_tyvars_chirho[i].0.clone(), self.scoped_tyvars_chirho[i].1);
            var_map_chirho.push(entry);
            proof {
                assert(entries_view(var_map_chirho@) =~= entries_view(before).push(vm0[i as int]));
                assert(vm0.take(i + 1) =~= vm0.take(i as int).push(vm0[i as int]));
            }
            i = i + 1;
        }
        proof { assert(vm0.take(i as int) =~= vm0); }
        let mut constraints_chirho: Vec<&ConstraintChirho> = Vec::new();
        proof { assert(deref_constraints(constraints_chirho@) =~= Seq::<ConstraintChirho>::empty()); }
        let body_chirho = extract_constraints_chirho(ast_ty_chirho, &mut constraints_chirho);
        let ghost cs = deref_constraints(constraints_chirho@);
        proof {
            assert(cs =~= context_of(*ast_ty_chirho));
            let (ty, vm1, n1) = ast_ty(syn, fams, sig, vm0, n0, body_of(*ast_ty_chirho));
            lemma_constraint_preds_grows(syn, fams, vm1, n1, cs);
        }
        let ty_chirho = self.ast_type_with_policy_chirho(body_chirho, &mut var_map_chirho, TypeConversionChirho::SignatureChirho);
        let ghost vm1 = entries_view(var_map_chirho@);
        let ghost n1 = self.next_var_chirho as nat;
        let ghost goal = constraint_preds(syn, fams, vm1, n1, cs);
        let mut preds_chirho: Vec<SchemePredChirho> = Vec::new();
        let mut j: usize = 0;
        proof {
            assert(cs.take(0) =~= Seq::<ConstraintChirho>::empty());
            assert(preds_view(preds_chirho@) =~= Seq::<PredV>::empty());
        }
        while j < constraints_chirho.len()
            invariant
                j <= constraints_chirho.len(),
                cs == deref_constraints(constraints_chirho@),
                cs.len() == constraints_chirho@.len(),
                syn == self.type_synonyms_chirho.map(),
                fams == self.type_families_chirho.map(),
                sig == TypeConversionChirho::SignatureChirho,
                goal == constraint_preds(syn, fams, vm1, n1, cs),
                goal.2 <= u32::MAX,
                (preds_view(preds_chirho@), entries_view(var_map_chirho@), self.next_var_chirho as nat)
                    == constraint_preds(syn, fams, vm1, n1, cs.take(j as int)),
                self.env_chirho == old(self).env_chirho,
                self.class_env_chirho == old(self).class_env_chirho,
                self.deferred_preds_chirho == old(self).deferred_preds_chirho,
                self.type_synonyms_chirho == old(self).type_synonyms_chirho,
                self.type_families_chirho == old(self).type_families_chirho,
                self.given_rewrites_chirho == old(self).given_rewrites_chirho,
            decreases constraints_chirho.len() - j,
        {
            let c = constraints_chirho[j];
            proof {
                assert(cs[j as int] == *c);
                let t = cs.take(j + 1);
                assert(t.drop_last() =~= cs.take(j as int));
                assert(t.last() == *c);
                lemma_constraint_preds_prefix(syn, fams, vm1, n1, cs, j + 1);
            }
            let t = if c.args_chirho.len() > 0 {
                self.ast_type_with_policy_chirho(&c.args_chirho[0], &mut var_map_chirho, TypeConversionChirho::SignatureChirho)
            } else {
                let v = TyVarChirho(self.next_var_chirho);
                self.next_var_chirho = self.next_var_chirho + 1;
                TyChirho::VarChirho(v)
            };
            let ghost before = preds_chirho@;
            preds_chirho.push(SchemePredChirho { class_name_chirho: c.class_chirho.text_chirho.clone(), ty_chirho: t });
            proof {
                assert(preds_view(preds_chirho@) =~= preds_view(before).push(
                    PredV { class: c.class_chirho.text_chirho@, ty: t@, extra: Seq::empty() }));
            }
            j = j + 1;
        }
        proof { assert(cs.take(j as int) =~= cs); }
        let (outer_chirho, inner_chirho) = peel_forall_chirho(ty_chirho);
        let vars_chirho = if outer_chirho.len() > 0 {
            outer_chirho
        } else {
            let free_chirho = inner_chirho.free_vars_chirho();
            let ghost ev = entry_vars(entries_view(var_map_chirho@));
            let ghost keep = free_in(inner_chirho@);
            let mut kept_chirho: Vec<TyVarChirho> = Vec::new();
            let mut k: usize = 0;
            proof {
                assert(ev.take(0) =~= Seq::<u32>::empty());
                assert(vars_view(kept_chirho@) =~= Seq::<u32>::empty());
            }
            while k < var_map_chirho.len()
                invariant
                    k <= var_map_chirho.len(),
                    ev == entry_vars(entries_view(var_map_chirho@)),
                    ev.len() == var_map_chirho@.len(),
                    keep == free_in(inner_chirho@),
                    vars_view(free_chirho@) == free_vars(inner_chirho@),
                    vars_view(kept_chirho@) == ev.take(k as int).filter(keep),
                decreases var_map_chirho.len() - k,
            {
                let v = var_map_chirho[k].1;
                proof {
                    assert(ev[k as int] == v.0);
                    let t1 = ev.take(k + 1);
                    assert(t1.drop_last() =~= ev.take(k as int));
                    assert(t1.last() == v.0);
                    reveal(Seq::filter);
                    assert(t1.filter(keep) == (if keep(t1.last()) {
                        t1.drop_last().filter(keep).push(t1.last())
                    } else {
                        t1.drop_last().filter(keep)
                    }));
                }
                if vars_contains_chirho(&free_chirho, v.0) {
                    let ghost before = kept_chirho@;
                    kept_chirho.push(v);
                    proof { assert(vars_view(kept_chirho@) =~= vars_view(before).push(v.0)); }
                }
                k = k + 1;
            }
            proof { assert(ev.take(k as int) =~= ev); }
            kept_chirho
        };
        SchemeChirho { vars_chirho, preds_chirho, ty_chirho: inner_chirho }
    }
}

}
