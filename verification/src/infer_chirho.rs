//! The inference context: fresh variables, the type and class environments,
//! deferred class predicates, type synonyms, type families and the rewrite
//! rules of given equalities; and the operations of Algorithm W that work on
//! it alone (instantiation, generalization, synonym expansion, family
//! reduction).
use vstd::prelude::*;
use crate::builtins_chirho::{builtin_schemes, seed_builtins_chirho};
use crate::env_chirho::{standard_classes, super_reach, ClassEnvChirho, TyEnvChirho};
use crate::family_table_chirho::{eqs_view, reduce_eqs, EquationV, FamilyTableChirho};
use crate::synonyms_chirho::{expand, strings_view, SynonymTableChirho, SynonymV};
use crate::subst_chirho::{scheme_apply, subst_apply, SubstChirho};
use crate::ty_chirho::{con_v, copy_tys_chirho, free_vars, fun_v, list_v, lemma_tys_view, lemma_tys_view_push, preds_view, tys_view, vars_contains_chirho, vars_view,
    PredChirho, PredV, SchemeChirho, SchemePredChirho, TyChirho, TyV, TyVarChirho};
use crate::surface_types_chirho::{explicit_forall, TypeChirho};
use crate::type_level_chirho::{apply_all, collect_app_spine_chirho, spine_args, spine_head};

verus! {

/// A source position range.
#[derive(Clone, Copy, PartialEq, Eq, Debug, Structural)]
pub struct SpanChirho {
    pub start_chirho: u32,
    pub end_chirho: u32,
}

impl SpanChirho {
    /// The span of generated code, which has no source position.
    pub fn dummy_chirho() -> (r: SpanChirho)
        ensures
            r.start_chirho == 0 && r.end_chirho == 0,
    {
        SpanChirho { start_chirho: 0, end_chirho: 0 }
    }
}

/// The result of inference on a module: the final substitution, and the type
/// and class environments after it.
pub struct InferResultChirho {
    pub subst_chirho: SubstChirho,
    pub env_chirho: TyEnvChirho,
    pub class_env_chirho: ClassEnvChirho,
    pub diagnostics_chirho: Vec<crate::infer_expr_chirho::DiagnosticChirho>,
}

/// The inference context: the mutable state of inference.
pub struct InferCtxChirho {
    /// The next fresh type variable.
    pub next_var_chirho: u32,
    /// Name → type scheme.
    pub env_chirho: TyEnvChirho,
    /// Class → superclasses.
    pub class_env_chirho: ClassEnvChirho,
    /// Wanted class predicates not yet solved, with where they arose.
    pub deferred_preds_chirho: Vec<(PredChirho, SpanChirho)>,
    /// Synonym → parameters and right-hand side.
    pub type_synonyms_chirho: SynonymTableChirho,
    /// Family → equations, in registration order.
    pub type_families_chirho: FamilyTableChirho,
    /// Rewrite rules from given equalities: left side → right side.
    pub given_rewrites_chirho: Vec<(TyChirho, TyChirho)>,
    /// The lexically scoped type variables of the enclosing signature, by
    /// name, that annotations inside it refer to.
    pub scoped_tyvars_chirho: Vec<(String, TyVarChirho)>,
    /// Each record constructor with the names of its fields, in order.
    pub con_field_names_chirho: Vec<(String, Vec<String>)>,
    /// The diagnostics found so far, in order.
    pub diagnostics_chirho: Vec<crate::infer_expr_chirho::DiagnosticChirho>,
    /// The environments of the enclosing scopes, innermost last; leaving a
    /// scope goes back to its environment.
    pub scope_stack_chirho: Vec<TyEnvChirho>,
}

/// How many nested family reductions are followed before giving up.
pub const FAMILY_DEPTH_LIMIT_CHIRHO: usize = 100;

/// The equations of family `n` (none if it is not registered).
pub open spec fn fam_eqs(fams: Map<Seq<char>, Seq<EquationV>>, n: Seq<char>) -> Seq<EquationV> {
    if fams.dom().contains(n) { fams[n] } else { Seq::empty() }
}

/// Family reduction at nesting `depth`: a constructor that is a nullary
/// family application with a matching equation is replaced by its reduct,
/// itself reduced; an application headed by a constructor has its arguments
/// reduced, and is replaced by the reduct of the family application if one
/// equation matches, else rebuilt from the reduced arguments; other types are
/// reduced part by part. Beyond the depth limit, or when no family is
/// registered, a type is left as it is.
pub open spec fn reduce_fam(fams: Map<Seq<char>, Seq<EquationV>>, t: TyV, depth: nat) -> TyV
    decreases (FAMILY_DEPTH_LIMIT_CHIRHO + 1 - depth) as nat, t, 1nat,
{
    if depth > FAMILY_DEPTH_LIMIT_CHIRHO || fams.dom() == Set::<Seq<char>>::empty() {
        t
    } else {
        match t {
            TyV::Con(n) => match reduce_eqs(fam_eqs(fams, n), Seq::empty()) {
                Some(r) => reduce_fam(fams, r, depth + 1),
                None => t,
            },
            TyV::App(f, a) => {
                let h = spine_head(t);
                if h is Con {
                    let ra = reduce_fam_seq(fams, spine_args(t), depth + 1);
                    match reduce_eqs(fam_eqs(fams, h->Con_0), ra) {
                        Some(r) => reduce_fam(fams, r, depth + 1),
                        None => apply_all(h, ra),
                    }
                } else {
                    TyV::App(Box::new(reduce_fam(fams, *f, depth)), Box::new(reduce_fam(fams, *a, depth)))
                }
            },
            TyV::Fun(a, b, m) => TyV::Fun(Box::new(reduce_fam(fams, *a, depth)), Box::new(reduce_fam(fams, *b, depth)), m),
            TyV::List(e) => TyV::List(Box::new(reduce_fam(fams, *e, depth))),
            TyV::Tuple(es) => TyV::Tuple(reduce_fam_seq(fams, es, depth)),
            TyV::Forall(vs, b) => TyV::Forall(vs, Box::new(reduce_fam(fams, *b, depth))),
            _ => t,
        }
    }
}

pub open spec fn reduce_fam_seq(fams: Map<Seq<char>, Seq<EquationV>>, es: Seq<TyV>, depth: nat) -> Seq<TyV>
    decreases (FAMILY_DEPTH_LIMIT_CHIRHO + 1 - depth) as nat, es, 0nat,
{
    if es.len() == 0 {
        Seq::empty()
    } else {
        reduce_fam_seq(fams, es.drop_last(), depth).push(reduce_fam(fams, es.last(), depth))
    }
}

/// One pass of the given rewrites: a type equal to the left side of a rule
/// becomes the right side of the first such rule; any other type is
/// rewritten part by part.
pub open spec fn rewrite(rules: Seq<(TyV, TyV)>, t: TyV) -> TyV
    decreases t,
{
    if exists|i: int| 0 <= i < rules.len() && (#[trigger] rules[i]).0 == t {
        rules[first_rule(rules, t)].1
    } else {
        match t {
            TyV::App(f, a) => TyV::App(Box::new(rewrite(rules, *f)), Box::new(rewrite(rules, *a))),
            TyV::KindApp(f, a) => TyV::KindApp(Box::new(rewrite(rules, *f)), Box::new(rewrite(rules, *a))),
            TyV::Fun(a, b, m) => TyV::Fun(Box::new(rewrite(rules, *a)), Box::new(rewrite(rules, *b)), m),
            TyV::Tuple(es) => TyV::Tuple(rewrite_seq(rules, es)),
            TyV::List(e) => TyV::List(Box::new(rewrite(rules, *e))),
            TyV::Forall(vs, b) => TyV::Forall(vs, Box::new(rewrite(rules, *b))),
            TyV::RequiredForall(vs, b) => TyV::RequiredForall(vs, Box::new(rewrite(rules, *b))),
            _ => t,
        }
    }
}

pub open spec fn rewrite_seq(rules: Seq<(TyV, TyV)>, es: Seq<TyV>) -> Seq<TyV>
    decreases es,
{
    if es.len() == 0 {
        Seq::empty()
    } else {
        rewrite_seq(rules, es.drop_last()).push(rewrite(rules, es.last()))
    }
}

/// The index of the first rule whose left side is `t`.
pub open spec fn first_rule(rules: Seq<(TyV, TyV)>, t: TyV) -> int
    decreases rules.len(),
{
    if rules.len() == 0 {
        -1
    } else if rules[0].0 == t {
        0
    } else {
        let k = first_rule(rules.drop_first(), t);
        if k < 0 { -1 } else { k + 1 }
    }
}

pub proof fn lemma_first_rule(rules: Seq<(TyV, TyV)>, t: TyV)
    ensures
        -1 <= first_rule(rules, t) < rules.len(),
        first_rule(rules, t) >= 0 ==> rules[first_rule(rules, t)].0 == t,
        forall|j: int| 0 <= j < first_rule(rules, t) ==> rules[j].0 != t,
        first_rule(rules, t) < 0 ==> forall|j: int| 0 <= j < rules.len() ==> rules[j].0 != t,
    decreases rules.len(),
{
    if rules.len() > 0 {
        lemma_first_rule(rules.drop_first(), t);
        assert forall|j: int| 0 <= j < rules.len() && j > 0 implies rules[j] == rules.drop_first()[j - 1] by {}
    }
}

/// The rules of a list of rewrite pairs.
pub open spec fn rules_view(rs: Seq<(TyChirho, TyChirho)>) -> Seq<(TyV, TyV)> {
    rs.map_values(|r: (TyChirho, TyChirho)| (r.0@, r.1@))
}

/// Copies a slice of types.
fn tys_of_slice_chirho(ts: &[TyChirho]) -> (r: Vec<TyChirho>)
    ensures
        tys_view(r@) == tys_view(ts@),
{
    let mut out: Vec<TyChirho> = Vec::new();
    let mut i: usize = 0;
    while i < ts.len()
        invariant
            i <= ts.len(),
            out@.len() == i,
            forall|j: int| 0 <= j < i ==> #[trigger] out@[j]@ == ts@[j]@,
        decreases ts.len() - i,
    {
        out.push(ts[i].copy_chirho());
        i = i + 1;
    }
    proof {
        lemma_tys_view(out@);
        lemma_tys_view(ts@);
        assert(out@.len() == ts@.len());
        assert forall|j: int| 0 <= j < ts@.len() implies tys_view(out@)[j] == tys_view(ts@)[j] by {
            assert(out@[j]@ == ts@[j]@);
        }
        assert(tys_view(out@) =~= tys_view(ts@));
    }
    out
}

impl InferCtxChirho {
    /// Ends inference: the environments reached, with the empty
    /// substitution (every substitution has been applied on the way).
    pub fn finish_chirho(self) -> (r: InferResultChirho)
        ensures
            r.subst_chirho.map() == Map::<u32, TyV>::empty(),
            r.env_chirho == self.env_chirho,
            r.class_env_chirho == self.class_env_chirho,
            r.diagnostics_chirho == self.diagnostics_chirho,
    {
        InferResultChirho {
            subst_chirho: SubstChirho::empty_chirho(),
            env_chirho: self.env_chirho,
            class_env_chirho: self.class_env_chirho,
            diagnostics_chirho: self.diagnostics_chirho,
        }
    }

    /// Whether a written type starts with an explicit `forall`, under
    /// contexts and parentheses.
    pub fn has_explicit_forall_chirho(ast_ty_chirho: &TypeChirho) -> (r: bool)
        ensures
            r == explicit_forall(*ast_ty_chirho),
        decreases ast_ty_chirho,
    {
        match ast_ty_chirho {
            TypeChirho::ForallChirho { .. } => true,
            TypeChirho::QualChirho { body_chirho, .. } => Self::has_explicit_forall_chirho(body_chirho),
            TypeChirho::ParenChirho { inner_chirho } => Self::has_explicit_forall_chirho(inner_chirho),
            _ => false,
        }
    }

    /// Registers a type family (open or closed): its equations are appended
    /// to those it already has.
    pub fn register_type_family_chirho(&mut self, name_chirho: String, equations_chirho: Vec<(Vec<TyChirho>, TyChirho)>)
        ensures
            final(self).type_families_chirho.map() == old(self).type_families_chirho.map().insert(
                name_chirho@, old(self).type_families_chirho.equations(name_chirho@) + eqs_view(equations_chirho@)),
            final(self).next_var_chirho == old(self).next_var_chirho,
            final(self).env_chirho == old(self).env_chirho,
            final(self).class_env_chirho == old(self).class_env_chirho,
            final(self).deferred_preds_chirho == old(self).deferred_preds_chirho,
            final(self).type_synonyms_chirho == old(self).type_synonyms_chirho,
            final(self).given_rewrites_chirho == old(self).given_rewrites_chirho,
    {
        self.type_families_chirho.extend_chirho(name_chirho, equations_chirho);
    }

    /// Adds an equation to an open type family (a `type instance`).
    pub fn register_type_family_instance_chirho(&mut self, family_name_chirho: String, lhs_types_chirho: Vec<TyChirho>, rhs_chirho: TyChirho)
        ensures
            final(self).type_families_chirho.map() == old(self).type_families_chirho.map().insert(
                family_name_chirho@, old(self).type_families_chirho.equations(family_name_chirho@).push((tys_view(lhs_types_chirho@), rhs_chirho@))),
            final(self).next_var_chirho == old(self).next_var_chirho,
            final(self).env_chirho == old(self).env_chirho,
            final(self).class_env_chirho == old(self).class_env_chirho,
            final(self).deferred_preds_chirho == old(self).deferred_preds_chirho,
            final(self).type_synonyms_chirho == old(self).type_synonyms_chirho,
            final(self).given_rewrites_chirho == old(self).given_rewrites_chirho,
    {
        let ghost eq = (tys_view(lhs_types_chirho@), rhs_chirho@);
        let mut one: Vec<(Vec<TyChirho>, TyChirho)> = Vec::new();
        one.push((lhs_types_chirho, rhs_chirho));
        proof {
            assert(eqs_view(one@) =~= seq![eq]);
            assert(old(self).type_families_chirho.equations(family_name_chirho@) + seq![eq]
                =~= old(self).type_families_chirho.equations(family_name_chirho@).push(eq));
        }
        self.type_families_chirho.extend_chirho(family_name_chirho, one);
    }

    /// Reduces the family application `family args` by the first of its
    /// equations whose patterns match; `None` when none does (a stuck
    /// application) or the family is unknown.
    pub fn reduce_type_family_chirho(&self, family_name_chirho: &str, args_chirho: &[TyChirho]) -> (r: Option<TyChirho>)
        ensures
            match r {
                Some(t) => reduce_eqs(self.type_families_chirho.equations(family_name_chirho@), tys_view(args_chirho@)) == Some(t@),
                None => reduce_eqs(self.type_families_chirho.equations(family_name_chirho@), tys_view(args_chirho@)) is None,
            },
    {
        let args = tys_of_slice_chirho(args_chirho);
        self.type_families_chirho.reduce_chirho(family_name_chirho, &args)
    }

    /// Registers (or redeclares) a type synonym.
    pub fn register_type_synonym_chirho(&mut self, name_chirho: String, params_chirho: Vec<String>, rhs_chirho: TyChirho)
        ensures
            final(self).type_synonyms_chirho.map() == old(self).type_synonyms_chirho.map().insert(
                name_chirho@, (crate::synonyms_chirho::strings_view(params_chirho@), rhs_chirho@)),
            final(self).next_var_chirho == old(self).next_var_chirho,
            final(self).env_chirho == old(self).env_chirho,
            final(self).class_env_chirho == old(self).class_env_chirho,
            final(self).deferred_preds_chirho == old(self).deferred_preds_chirho,
            final(self).type_families_chirho == old(self).type_families_chirho,
            final(self).given_rewrites_chirho == old(self).given_rewrites_chirho,
    {
        self.type_synonyms_chirho.insert_chirho(name_chirho, params_chirho, rhs_chirho);
    }

    /// Expands the type synonyms of a type, nullary and parameterised ones.
    pub fn expand_type_synonyms_chirho(&self, ty_chirho: &TyChirho) -> (r: TyChirho)
        ensures
            r@ == expand(self.type_synonyms_chirho.map(), ty_chirho@, 0),
    {
        self.type_synonyms_chirho.expand_syn_chirho(ty_chirho, 0)
    }

    /// Replaces the saturated type family applications of a type by their
    /// reducts.
    pub fn reduce_type_families_in_ty_chirho(&self, ty_chirho: &TyChirho) -> (r: TyChirho)
        ensures
            r@ == reduce_fam(self.type_families_chirho.map(), ty_chirho@, 0),
    {
        self.reduce_families_chirho(ty_chirho, 0)
    }

    fn reduce_families_seq_chirho(&self, es: &Vec<TyChirho>, depth_chirho: usize) -> (r: Vec<TyChirho>)
        requires
            depth_chirho <= FAMILY_DEPTH_LIMIT_CHIRHO + 1,
        ensures
            tys_view(r@) == reduce_fam_seq(self.type_families_chirho.map(), tys_view(es@), depth_chirho as nat),
        decreases (FAMILY_DEPTH_LIMIT_CHIRHO + 1 - depth_chirho) as nat, es@, 0nat,
    {
        let mut out: Vec<TyChirho> = Vec::new();
        let mut i: usize = 0;
        proof {
            lemma_tys_view(es@);
            assert(tys_view(es@).take(0) =~= Seq::<TyV>::empty());
            assert(tys_view(out@) =~= Seq::<TyV>::empty());
        }
        while i < es.len()
            invariant
                i <= es.len(),
                depth_chirho <= FAMILY_DEPTH_LIMIT_CHIRHO + 1,
                tys_view(es@).len() == es@.len(),
                forall|j: int| 0 <= j < es@.len() ==> #[trigger] tys_view(es@)[j] == es@[j]@,
                tys_view(out@) == reduce_fam_seq(self.type_families_chirho.map(), tys_view(es@).take(i as int), depth_chirho as nat),
            decreases es.len() - i,
        {
            proof { assert(decreases_to!(es@ => es@[i as int])); }
            let e = self.reduce_families_chirho(&es[i], depth_chirho);
            proof {
                lemma_tys_view_push(out@, e);
                let tv = tys_view(es@);
                assert(tv.take(i + 1).drop_last() =~= tv.take(i as int));
                assert(tv.take(i + 1).last() == es@[i as int]@);
            }
            out.push(e);
            i = i + 1;
        }
        proof { assert(tys_view(es@).take(es@.len() as int) =~= tys_view(es@)); }
        out
    }

    fn reduce_families_chirho(&self, ty_chirho: &TyChirho, depth_chirho: usize) -> (r: TyChirho)
        requires
            depth_chirho <= FAMILY_DEPTH_LIMIT_CHIRHO + 1,
        ensures
            r@ == reduce_fam(self.type_families_chirho.map(), ty_chirho@, depth_chirho as nat),
        decreases (FAMILY_DEPTH_LIMIT_CHIRHO + 1 - depth_chirho) as nat, ty_chirho, 1nat,
    {
        let ghost fams = self.type_families_chirho.map();
        if depth_chirho > FAMILY_DEPTH_LIMIT_CHIRHO || self.type_families_chirho.is_empty_chirho() {
            return ty_chirho.copy_chirho();
        }
        proof {
            assert(fams.dom() != Set::<Seq<char>>::empty());
        }
        match ty_chirho {
            TyChirho::ConChirho(name_chirho) => {
                let none: Vec<TyChirho> = Vec::new();
                proof { assert(tys_view(none@) =~= Seq::<TyV>::empty()); }
                match self.type_families_chirho.reduce_chirho(name_chirho.as_str(), &none) {
                    Some(reduced_chirho) => self.reduce_families_chirho(&reduced_chirho, depth_chirho + 1),
                    None => ty_chirho.copy_chirho(),
                }
            },
            TyChirho::AppChirho(f_chirho, a_chirho) => {
                let (head_chirho, args_chirho) = collect_app_spine_chirho(ty_chirho);
                if let TyChirho::ConChirho(name_chirho) = &head_chirho {
                    let reduced_args_chirho = self.reduce_families_seq_chirho(&args_chirho, depth_chirho + 1);
                    match self.type_families_chirho.reduce_chirho(name_chirho.as_str(), &reduced_args_chirho) {
                        Some(result_chirho) => {
                            return self.reduce_families_chirho(&result_chirho, depth_chirho + 1);
                        },
                        None => {},
                    }
                    let ghost ra = tys_view(reduced_args_chirho@);
                    let mut result_chirho = head_chirho.copy_chirho();
                    let mut j: usize = 0;
                    proof {
                        lemma_tys_view(reduced_args_chirho@);
                        assert(ra.take(0) =~= Seq::<TyV>::empty());
                    }
                    while j < reduced_args_chirho.len()
                        invariant
                            j <= reduced_args_chirho.len(),
                            ra == tys_view(reduced_args_chirho@),
                            ra.len() == reduced_args_chirho@.len(),
                            forall|k: int| 0 <= k < ra.len() ==> #[trigger] ra[k] == reduced_args_chirho@[k]@,
                            result_chirho@ == apply_all(head_chirho@, ra.take(j as int)),
                        decreases reduced_args_chirho.len() - j,
                    {
                        let a = reduced_args_chirho[j].copy_chirho();
                        result_chirho = TyChirho::AppChirho(Box::new(result_chirho), Box::new(a));
                        proof {
                            assert(ra.take(j + 1).drop_last() =~= ra.take(j as int));
                        }
                        j = j + 1;
                    }
                    proof { assert(ra.take(ra.len() as int) =~= ra); }
                    return result_chirho;
                }
                let ef_chirho = self.reduce_families_chirho(f_chirho, depth_chirho);
                let ea_chirho = self.reduce_families_chirho(a_chirho, depth_chirho);
                TyChirho::AppChirho(Box::new(ef_chirho), Box::new(ea_chirho))
            },
            TyChirho::FunChirho(a_chirho, b_chirho, m_chirho) => TyChirho::FunChirho(
                Box::new(self.reduce_families_chirho(a_chirho, depth_chirho)),
                Box::new(self.reduce_families_chirho(b_chirho, depth_chirho)),
                *m_chirho,
            ),
            TyChirho::ListChirho(el_chirho) => TyChirho::ListChirho(
                Box::new(self.reduce_families_chirho(el_chirho, depth_chirho)),
            ),
            TyChirho::TupleChirho(elems_chirho) => TyChirho::TupleChirho(
                self.reduce_families_seq_chirho(elems_chirho, depth_chirho),
            ),
            TyChirho::ForallChirho { vars_chirho, body_chirho } => TyChirho::ForallChirho {
                vars_chirho: vars_chirho.clone(),
                body_chirho: Box::new(self.reduce_families_chirho(body_chirho, depth_chirho)),
            },
            _ => ty_chirho.copy_chirho(),
        }
    }

    /// A fresh unification variable.
    pub fn fresh_var_chirho(&mut self) -> (r: TyChirho)
        requires
            old(self).next_var_chirho < u32::MAX,
        ensures
            r@ == TyV::Var(old(self).next_var_chirho as u32),
            final(self).next_var_chirho == old(self).next_var_chirho + 1,
            final(self).env_chirho == old(self).env_chirho,
            final(self).class_env_chirho == old(self).class_env_chirho,
            final(self).deferred_preds_chirho == old(self).deferred_preds_chirho,
            final(self).type_synonyms_chirho == old(self).type_synonyms_chirho,
            final(self).type_families_chirho == old(self).type_families_chirho,
            final(self).given_rewrites_chirho == old(self).given_rewrites_chirho,
            final(self).scoped_tyvars_chirho == old(self).scoped_tyvars_chirho,
            final(self).con_field_names_chirho == old(self).con_field_names_chirho,
            final(self).diagnostics_chirho == old(self).diagnostics_chirho,
            final(self).scope_stack_chirho == old(self).scope_stack_chirho,
    {
        let var_chirho = TyVarChirho(self.next_var_chirho);
        self.next_var_chirho = self.next_var_chirho + 1;
        TyChirho::VarChirho(var_chirho)
    }

    fn apply_given_rewrites_seq_chirho(&self, es: &Vec<TyChirho>) -> (r: Vec<TyChirho>)
        ensures
            tys_view(r@) == rewrite_seq(rules_view(self.given_rewrites_chirho@), tys_view(es@)),
        decreases es@, 0nat,
    {
        let ghost rules = rules_view(self.given_rewrites_chirho@);
        let mut out: Vec<TyChirho> = Vec::new();
        let mut i: usize = 0;
        proof {
            lemma_tys_view(es@);
            assert(tys_view(es@).take(0) =~= Seq::<TyV>::empty());
            assert(tys_view(out@) =~= Seq::<TyV>::empty());
        }
        while i < es.len()
            invariant
                i <= es.len(),
                rules == rules_view(self.given_rewrites_chirho@),
                tys_view(es@).len() == es@.len(),
                forall|j: int| 0 <= j < es@.len() ==> #[trigger] tys_view(es@)[j] == es@[j]@,
                tys_view(out@) == rewrite_seq(rules, tys_view(es@).take(i as int)),
            decreases es.len() - i,
        {
            proof { assert(decreases_to!(es@ => es@[i as int])); }
            let e = self.apply_given_rewrites_chirho(&es[i]);
            proof {
                lemma_tys_view_push(out@, e);
                let tv = tys_view(es@);
                assert(tv.take(i + 1).drop_last() =~= tv.take(i as int));
                assert(tv.take(i + 1).last() == es@[i as int]@);
            }
            out.push(e);
            i = i + 1;
        }
        proof { assert(tys_view(es@).take(es@.len() as int) =~= tys_view(es@)); }
        out
    }

    /// Rewrites every part of a type that equals the left side of a given
    /// equality's rule to that rule's right side (one pass).
    pub fn apply_given_rewrites_chirho(&self, ty_chirho: &TyChirho) -> (r: TyChirho)
        ensures
            r@ == rewrite(rules_view(self.given_rewrites_chirho@), ty_chirho@),
        decreases ty_chirho, 1nat,
    {
        let ghost rules = rules_view(self.given_rewrites_chirho@);
        let mut i: usize = 0;
        while i < self.given_rewrites_chirho.len()
            invariant
                i <= self.given_rewrites_chirho.len(),
                rules == rules_view(self.given_rewrites_chirho@),
                rules.len() == self.given_rewrites_chirho@.len(),
                forall|j: int| 0 <= j < i ==> (#[trigger] rules[j]).0 != ty_chirho@,
            decreases self.given_rewrites_chirho.len() - i,
        {
            if self.given_rewrites_chirho[i].0.eq_chirho(ty_chirho) {
                proof {
                    lemma_first_rule(rules, ty_chirho@);
                    assert(rules[i as int].0 == ty_chirho@);
                    assert(first_rule(rules, ty_chirho@) == i);
                }
                return self.given_rewrites_chirho[i].1.copy_chirho();
            }
            i = i + 1;
        }
        proof {
            assert(!exists|j: int| 0 <= j < rules.len() && (#[trigger] rules[j]).0 == ty_chirho@);
        }
        match ty_chirho {
            TyChirho::AppChirho(f, a) => TyChirho::AppChirho(
                Box::new(self.apply_given_rewrites_chirho(f)),
                Box::new(self.apply_given_rewrites_chirho(a)),
            ),
            TyChirho::KindAppChirho(f, a) => TyChirho::KindAppChirho(
                Box::new(self.apply_given_rewrites_chirho(f)),
                Box::new(self.apply_given_rewrites_chirho(a)),
            ),
            TyChirho::FunChirho(a, b, m) => TyChirho::FunChirho(
                Box::new(self.apply_given_rewrites_chirho(a)),
                Box::new(self.apply_given_rewrites_chirho(b)),
                *m,
            ),
            TyChirho::TupleChirho(es) => TyChirho::TupleChirho(self.apply_given_rewrites_seq_chirho(es)),
            TyChirho::ListChirho(e) => TyChirho::ListChirho(Box::new(self.apply_given_rewrites_chirho(e))),
            TyChirho::ForallChirho { vars_chirho, body_chirho } => TyChirho::ForallChirho {
                vars_chirho: vars_chirho.clone(),
                body_chirho: Box::new(self.apply_given_rewrites_chirho(body_chirho)),
            },
            TyChirho::RequiredForallChirho { vars_chirho, body_chirho } => TyChirho::RequiredForallChirho {
                vars_chirho: vars_chirho.clone(),
                body_chirho: Box::new(self.apply_given_rewrites_chirho(body_chirho)),
            },
            _ => ty_chirho.copy_chirho(),
        }
    }
}


/// The instantiation of the quantified variables `vars` by fresh variables
/// numbered from `base`: the i-th variable gets `base + i` (a repeated
/// variable keeps its last).
pub open spec fn inst_map(vars: Seq<u32>, base: nat) -> Map<u32, TyV>
    decreases vars.len(),
{
    if vars.len() == 0 {
        Map::empty()
    } else {
        inst_map(vars.drop_last(), base).insert(vars.last(), TyV::Var((base + vars.len() - 1) as u32))
    }
}

/// The deferred predicates, with where they arose.
pub open spec fn deferred_view(d: Seq<(PredChirho, SpanChirho)>) -> Seq<(PredV, SpanChirho)> {
    d.map_values(|e: (PredChirho, SpanChirho)| (e.0@, e.1))
}

/// The wanted predicates of an instantiated scheme: each predicate's class at
/// its instantiated type, at `span`.
pub open spec fn instantiated_preds(ps: Seq<PredV>, m: Map<u32, TyV>, span: SpanChirho) -> Seq<(PredV, SpanChirho)> {
    ps.map_values(|p: PredV| (PredV { class: p.class, ty: subst_apply(p.ty, m), extra: Seq::empty() }, span))
}

impl InferCtxChirho {
    /// Instantiates a type scheme with fresh unification variables; the
    /// scheme's predicates, instantiated, are deferred as wanted at `span`.
    pub fn instantiate_chirho(&mut self, scheme_chirho: &SchemeChirho, span_chirho: SpanChirho) -> (r: TyChirho)
        requires
            old(self).next_var_chirho + scheme_chirho.vars_chirho@.len() <= u32::MAX,
        ensures
            scheme_chirho.vars_chirho@.len() == 0 && scheme_chirho.preds_chirho@.len() == 0 ==> r@ == scheme_chirho.ty_chirho@
                && *final(self) == *old(self),
            !(scheme_chirho.vars_chirho@.len() == 0 && scheme_chirho.preds_chirho@.len() == 0) ==> {
                let m = inst_map(scheme_chirho@.vars, old(self).next_var_chirho as nat);
                &&& r@ == subst_apply(scheme_chirho.ty_chirho@, m)
                &&& final(self).next_var_chirho == old(self).next_var_chirho + scheme_chirho.vars_chirho@.len()
                &&& deferred_view(final(self).deferred_preds_chirho@)
                    == deferred_view(old(self).deferred_preds_chirho@) + instantiated_preds(scheme_chirho@.preds, m, span_chirho)
            },
            final(self).env_chirho == old(self).env_chirho,
            final(self).class_env_chirho == old(self).class_env_chirho,
            final(self).type_synonyms_chirho == old(self).type_synonyms_chirho,
            final(self).type_families_chirho == old(self).type_families_chirho,
            final(self).scoped_tyvars_chirho == old(self).scoped_tyvars_chirho,
            final(self).con_field_names_chirho == old(self).con_field_names_chirho,
            final(self).diagnostics_chirho == old(self).diagnostics_chirho,
            final(self).scope_stack_chirho == old(self).scope_stack_chirho,
            final(self).given_rewrites_chirho == old(self).given_rewrites_chirho,
    {
        if scheme_chirho.vars_chirho.len() == 0 && scheme_chirho.preds_chirho.len() == 0 {
            return scheme_chirho.ty_chirho.copy_chirho();
        }
        let ghost base = self.next_var_chirho as nat;
        let ghost vs = vars_view(scheme_chirho.vars_chirho@);
        let ghost d0 = deferred_view(self.deferred_preds_chirho@);
        let mut subst_chirho = SubstChirho::empty_chirho();
        let mut i: usize = 0;
        proof { assert(vs.take(0) =~= Seq::<u32>::empty()); }
        while i < scheme_chirho.vars_chirho.len()
            invariant
                i <= scheme_chirho.vars_chirho.len(),
                vs == vars_view(scheme_chirho.vars_chirho@),
                vs.len() == scheme_chirho.vars_chirho@.len(),
                base + vs.len() <= u32::MAX,
                self.next_var_chirho == base + i,
                subst_chirho.map() == inst_map(vs.take(i as int), base),
                self.env_chirho == old(self).env_chirho,
                self.class_env_chirho == old(self).class_env_chirho,
                self.deferred_preds_chirho == old(self).deferred_preds_chirho,
                self.type_synonyms_chirho == old(self).type_synonyms_chirho,
                self.type_families_chirho == old(self).type_families_chirho,
                self.given_rewrites_chirho == old(self).given_rewrites_chirho,
                self.scoped_tyvars_chirho == old(self).scoped_tyvars_chirho,
                self.con_field_names_chirho == old(self).con_field_names_chirho,
                self.diagnostics_chirho == old(self).diagnostics_chirho,
                self.scope_stack_chirho == old(self).scope_stack_chirho,
            decreases scheme_chirho.vars_chirho.len() - i,
        {
            let v = scheme_chirho.vars_chirho[i];
            let fresh_chirho = self.fresh_var_chirho();
            subst_chirho.insert_chirho(v, fresh_chirho);
            proof {
                assert(vs.take(i + 1).drop_last() =~= vs.take(i as int));
                assert(vs.take(i + 1).last() == v.0);
            }
            i = i + 1;
        }
        let ghost m = subst_chirho.map();
        let ghost ps = scheme_chirho@.preds;
        proof {
            assert(vs.take(vs.len() as int) =~= vs);
            assert(instantiated_preds(ps, m, span_chirho).take(0) =~= Seq::<(PredV, SpanChirho)>::empty());
            assert(d0 + Seq::<(PredV, SpanChirho)>::empty() =~= d0);
        }
        let mut j: usize = 0;
        while j < scheme_chirho.preds_chirho.len()
            invariant
                j <= scheme_chirho.preds_chirho.len(),
                ps == scheme_chirho@.preds,
                ps.len() == scheme_chirho.preds_chirho@.len(),
                m == subst_chirho.map(),
                deferred_view(self.deferred_preds_chirho@) == d0 + instantiated_preds(ps, m, span_chirho).take(j as int),
                self.next_var_chirho == old(self).next_var_chirho + vs.len(),
                self.env_chirho == old(self).env_chirho,
                self.class_env_chirho == old(self).class_env_chirho,
                self.type_synonyms_chirho == old(self).type_synonyms_chirho,
                self.type_families_chirho == old(self).type_families_chirho,
                self.given_rewrites_chirho == old(self).given_rewrites_chirho,
                self.scoped_tyvars_chirho == old(self).scoped_tyvars_chirho,
                self.con_field_names_chirho == old(self).con_field_names_chirho,
                self.diagnostics_chirho == old(self).diagnostics_chirho,
                self.scope_stack_chirho == old(self).scope_stack_chirho,
            decreases scheme_chirho.preds_chirho.len() - j,
        {
            let pred_chirho = &scheme_chirho.preds_chirho[j];
            let t = subst_chirho.apply_ty_chirho(&pred_chirho.ty_chirho);
            let p = PredChirho::new_chirho(pred_chirho.class_name_chirho.as_str(), t);
            let ghost before = self.deferred_preds_chirho@;
            self.deferred_preds_chirho.push((p, span_chirho));
            proof {
                assert(ps[j as int] == pred_chirho@);
                let ip = instantiated_preds(ps, m, span_chirho);
                assert(ip.take(j + 1) =~= ip.take(j as int).push(ip[j as int]));
                assert(deferred_view(self.deferred_preds_chirho@) =~= deferred_view(before).push((p@, span_chirho)));
            }
            j = j + 1;
        }
        proof {
            assert(instantiated_preds(ps, m, span_chirho).take(ps.len() as int) =~= instantiated_preds(ps, m, span_chirho));
        }
        subst_chirho.apply_ty_chirho(&scheme_chirho.ty_chirho)
    }
}


/// Keeps the variables not free in the environment.
pub open spec fn not_in(env_free: Set<u32>) -> spec_fn(u32) -> bool {
    |v: u32| !env_free.contains(v)
}

/// The variables generalized in `t`: its free variables, in order of first
/// occurrence, that are not free in the environment.
pub open spec fn gen_vars(t: TyV, env_free: Set<u32>) -> Seq<u32> {
    free_vars(t).filter(not_in(env_free))
}

/// A predicate moves into the scheme when every free variable of its type is
/// generalized.
pub open spec fn generalizes(p: PredV, vars: Seq<u32>) -> bool {
    forall|v: u32| #[trigger] free_vars(p.ty).contains(v) ==> vars.contains(v)
}

pub open spec fn generalizes_fn(vars: Seq<u32>) -> spec_fn((PredV, SpanChirho)) -> bool {
    |e: (PredV, SpanChirho)| generalizes(e.0, vars)
}

/// The scheme predicate of a deferred entry: its class and its type.
pub open spec fn pred_part() -> spec_fn((PredV, SpanChirho)) -> PredV {
    |e: (PredV, SpanChirho)| PredV { class: e.0.class, ty: e.0.ty, extra: Seq::empty() }
}

pub open spec fn stays_fn(vars: Seq<u32>) -> spec_fn((PredV, SpanChirho)) -> bool {
    |e: (PredV, SpanChirho)| !generalizes(e.0, vars)
}

/// `s` with each element kept at its first occurrence only.
pub open spec fn dedup_first(s: Seq<PredV>) -> Seq<PredV>
    decreases s.len(),
{
    if s.len() == 0 {
        s
    } else if s.drop_last().contains(s.last()) {
        dedup_first(s.drop_last())
    } else {
        dedup_first(s.drop_last()).push(s.last())
    }
}

/// Keeping first occurrences leaves each element once, and the same elements.
pub proof fn lemma_dedup_first(s: Seq<PredV>)
    ensures
        dedup_first(s).no_duplicates(),
        forall|x: PredV| #[trigger] dedup_first(s).contains(x) <==> s.contains(x),
    decreases s.len(),
{
    if s.len() > 0 {
        let init = s.drop_last();
        lemma_dedup_first(init);
        assert(s =~= init.push(s.last()));
        assert forall|x: PredV| #[trigger] dedup_first(s).contains(x) <==> s.contains(x) by {
            if init.contains(x) {
                let k = choose|k: int| 0 <= k < init.len() && init[k] == x;
                assert(s[k] == x);
            }
            if s.contains(x) && x != s.last() {
                let k = choose|k: int| 0 <= k < s.len() && s[k] == x;
                assert(init[k] == x);
            }
            if !init.contains(s.last()) {
                let d = dedup_first(init);
                assert(d.push(s.last())[d.len() as int] == s.last());
                if d.push(s.last()).contains(x) && x != s.last() {
                    let k = choose|k: int| 0 <= k < d.len() + 1 && d.push(s.last())[k] == x;
                    assert(d[k] == x);
                }
                if d.contains(x) {
                    let k = choose|k: int| 0 <= k < d.len() && d[k] == x;
                    assert(d.push(s.last())[k] == x);
                }
            }
        }
        if !init.contains(s.last()) {
            let d = dedup_first(init);
            assert forall|a: int, b: int| 0 <= a < b < d.len() + 1 implies d.push(s.last())[a] != d.push(s.last())[b] by {
                if b == d.len() {
                    assert(d.contains(d[a]));
                }
            }
        }
    }
}

/// Whether predicate `p` is entailed by another predicate of `ps` on the same
/// type whose class has `p`'s class among its (transitive) superclasses.
pub open spec fn entailed_by_other(ps: Seq<PredV>, p: PredV, cl: Map<Seq<char>, Seq<Seq<char>>>, n: nat) -> bool {
    exists|j: int| 0 <= j < ps.len() && (#[trigger] ps[j]).class != p.class && ps[j].ty == p.ty && super_reach(cl, ps[j].class, p.class, n)
}

pub open spec fn kept_fn(ps: Seq<PredV>, cl: Map<Seq<char>, Seq<Seq<char>>>, n: nat) -> spec_fn(PredV) -> bool {
    |p: PredV| !entailed_by_other(ps, p, cl, n)
}

/// Context reduction: the predicates not entailed by another one.
pub open spec fn context_reduce(ps: Seq<PredV>, cl: Map<Seq<char>, Seq<Seq<char>>>, n: nat) -> Seq<PredV> {
    ps.filter(kept_fn(ps, cl, n))
}

impl InferCtxChirho {
    /// Generalizes a type into a scheme: it quantifies the type's free
    /// variables that are not free in the environment, and takes along, as
    /// class and type, the deferred predicates all of whose variables it
    /// quantifies (each predicate once, at its first occurrence, and those
    /// implied through a superclass by another predicate on the same type
    /// removed); the other deferred predicates stay deferred, in order.
    pub fn generalize_chirho(&mut self, ty_chirho: &TyChirho) -> (r: SchemeChirho)
        ensures
            r@.vars == gen_vars(ty_chirho@, old(self).env_chirho.free_var_set()),
            r@.ty == ty_chirho@,
            deferred_view(final(self).deferred_preds_chirho@) == deferred_view(old(self).deferred_preds_chirho@).filter(stays_fn(r@.vars)),
            r@.preds == context_reduce(
                dedup_first(deferred_view(old(self).deferred_preds_chirho@).filter(generalizes_fn(r@.vars)).map_values(pred_part())),
                old(self).class_env_chirho.map(), old(self).class_env_chirho.size()),
            final(self).next_var_chirho == old(self).next_var_chirho,
            final(self).env_chirho == old(self).env_chirho,
            final(self).class_env_chirho == old(self).class_env_chirho,
            final(self).type_synonyms_chirho == old(self).type_synonyms_chirho,
            final(self).type_families_chirho == old(self).type_families_chirho,
            final(self).given_rewrites_chirho == old(self).given_rewrites_chirho,
    {
        let ghost env_free = self.env_chirho.free_var_set();
        let ty_fvs_chirho = ty_chirho.free_vars_chirho();
        let ghost fv = vars_view(ty_fvs_chirho@);
        let mut vars_chirho: Vec<TyVarChirho> = Vec::new();
        let mut i: usize = 0;
        proof {
            assert(fv.take(0) =~= Seq::<u32>::empty());
            assert(vars_view(vars_chirho@) =~= Seq::<u32>::empty());
        }
        while i < ty_fvs_chirho.len()
            invariant
                i <= ty_fvs_chirho.len(),
                fv == vars_view(ty_fvs_chirho@),
                fv.len() == ty_fvs_chirho@.len(),
                env_free == self.env_chirho.free_var_set(),
                vars_view(vars_chirho@) == fv.take(i as int).filter(not_in(env_free)),
            decreases ty_fvs_chirho.len() - i,
        {
            let v = ty_fvs_chirho[i];
            proof {
                assert(fv.take(i + 1).drop_last() =~= fv.take(i as int));
                assert(fv.take(i + 1).last() == v.0);
            }
            let free_in_env = self.env_chirho.has_free_var_chirho(v.0);
            proof {
                assert(not_in(env_free)(v.0) == !free_in_env);
                let t1 = fv.take(i + 1);
                reveal(Seq::filter);
                assert(t1.filter(not_in(env_free)) == (if not_in(env_free)(t1.last()) {
                    t1.drop_last().filter(not_in(env_free)).push(t1.last())
                } else {
                    t1.drop_last().filter(not_in(env_free))
                }));
            }
            if !free_in_env {
                vars_chirho.push(v);
                proof { assert(vars_view(vars_chirho@) =~= fv.take(i as int).filter(not_in(env_free)).push(v.0)); }
            }
            i = i + 1;
        }
        proof { assert(fv.take(fv.len() as int) =~= fv); }
        let ghost vs = vars_view(vars_chirho@);
        let ghost d0 = deferred_view(self.deferred_preds_chirho@);
        let mut pending_chirho: Vec<(PredChirho, SpanChirho)> = Vec::new();
        std::mem::swap(&mut pending_chirho, &mut self.deferred_preds_chirho);
        let mut scheme_preds_chirho: Vec<SchemePredChirho> = Vec::new();
        let mut remaining_chirho: Vec<(PredChirho, SpanChirho)> = Vec::new();
        let mut k: usize = 0;
        proof {
            assert(d0.take(0) =~= Seq::<(PredV, SpanChirho)>::empty());
            assert(preds_view(scheme_preds_chirho@) =~= Seq::<PredV>::empty());
            assert(deferred_view(remaining_chirho@) =~= Seq::<(PredV, SpanChirho)>::empty());
        }
        while k < pending_chirho.len()
            invariant
                k <= pending_chirho.len(),
                d0 == deferred_view(pending_chirho@),
                d0.len() == pending_chirho@.len(),
                vs == vars_view(vars_chirho@),
                preds_view(scheme_preds_chirho@) == d0.take(k as int).filter(generalizes_fn(vs)).map_values(pred_part()),
                deferred_view(remaining_chirho@) == d0.take(k as int).filter(stays_fn(vs)),
            decreases pending_chirho.len() - k,
        {
            let pred_chirho = &pending_chirho[k].0;
            let span_chirho = pending_chirho[k].1;
            let pred_fvs_chirho = pred_chirho.ty_chirho.free_vars_chirho();
            let ghost pf = vars_view(pred_fvs_chirho@);
            let mut all_chirho = true;
            let mut m: usize = 0;
            while m < pred_fvs_chirho.len()
                invariant
                    m <= pred_fvs_chirho.len(),
                    pf == vars_view(pred_fvs_chirho@),
                    pf.len() == pred_fvs_chirho@.len(),
                    vs == vars_view(vars_chirho@),
                    all_chirho == (forall|q: int| 0 <= q < m ==> vs.contains(#[trigger] pf[q])),
                decreases pred_fvs_chirho.len() - m,
            {
                proof { assert(pf[m as int] == pred_fvs_chirho@[m as int].0); }
                if !vars_contains_chirho(&vars_chirho, pred_fvs_chirho[m].0) {
                    all_chirho = false;
                }
                m = m + 1;
            }
            let ghost e = d0[k as int];
            proof {
                assert(e == (pred_chirho@, span_chirho));
                assert(pf == free_vars(pred_chirho@.ty));
                assert(all_chirho == generalizes(pred_chirho@, vs)) by {
                    if all_chirho {
                        assert forall|v: u32| #[trigger] free_vars(pred_chirho@.ty).contains(v) implies vs.contains(v) by {
                            let q = choose|q: int| 0 <= q < pf.len() && pf[q] == v;
                        }
                    } else {
                        let q = choose|q: int| 0 <= q < pf.len() && !vs.contains(#[trigger] pf[q]);
                        assert(free_vars(pred_chirho@.ty).contains(pf[q]));
                    }
                }
                assert(d0.take(k + 1).drop_last() =~= d0.take(k as int));
                assert(d0.take(k + 1).last() == e);
                assert(generalizes_fn(vs)(e) == all_chirho);
                assert(stays_fn(vs)(e) == !all_chirho);
                let t1 = d0.take(k + 1);
                reveal(Seq::filter);
                assert(t1.filter(generalizes_fn(vs)) == (if generalizes_fn(vs)(t1.last()) {
                    t1.drop_last().filter(generalizes_fn(vs)).push(t1.last())
                } else {
                    t1.drop_last().filter(generalizes_fn(vs))
                }));
                assert(t1.filter(stays_fn(vs)) == (if stays_fn(vs)(t1.last()) {
                    t1.drop_last().filter(stays_fn(vs)).push(t1.last())
                } else {
                    t1.drop_last().filter(stays_fn(vs))
                }));
            }
            if all_chirho {
                let sp = SchemePredChirho {
                    class_name_chirho: pred_chirho.class_name_chirho.clone(),
                    ty_chirho: pred_chirho.ty_chirho.copy_chirho(),
                };
                let ghost before = scheme_preds_chirho@;
                scheme_preds_chirho.push(sp);
                proof {
                    assert(sp@ == pred_part()(e));
                    assert(preds_view(scheme_preds_chirho@) =~= preds_view(before).push(sp@));
                    let f = d0.take(k as int).filter(generalizes_fn(vs));
                    assert(d0.take(k + 1).filter(generalizes_fn(vs)) == f.push(e));
                    assert forall|z: int| 0 <= z < f.len() + 1 implies #[trigger] f.push(e).map_values(pred_part())[z] == f.map_values(pred_part()).push(sp@)[z] by {
                        if z < f.len() {
                            assert(f.push(e)[z] == f[z]);
                        }
                    }
                    assert(f.push(e).map_values(pred_part()) =~= f.map_values(pred_part()).push(sp@));
                }
            } else {
                let ghost before = remaining_chirho@;
                remaining_chirho.push((pred_chirho.copy_chirho(), span_chirho));
                proof {
                    assert(deferred_view(remaining_chirho@) =~= deferred_view(before).push(e));
                }
            }
            k = k + 1;
        }
        proof { assert(d0.take(d0.len() as int) =~= d0); }
        self.deferred_preds_chirho = remaining_chirho;
        let ghost taken = preds_view(scheme_preds_chirho@);
        // Keep each predicate at its first occurrence.
        let mut deduped_chirho: Vec<SchemePredChirho> = Vec::new();
        let mut q: usize = 0;
        proof {
            assert(taken.take(0) =~= Seq::<PredV>::empty());
            assert(preds_view(deduped_chirho@) =~= Seq::<PredV>::empty());
        }
        while q < scheme_preds_chirho.len()
            invariant
                q <= scheme_preds_chirho.len(),
                taken == preds_view(scheme_preds_chirho@),
                taken.len() == scheme_preds_chirho@.len(),
                preds_view(deduped_chirho@) == dedup_first(taken.take(q as int)),
            decreases scheme_preds_chirho.len() - q,
        {
            let p = &scheme_preds_chirho[q];
            let mut seen_chirho = false;
            let mut y: usize = 0;
            while y < q
                invariant
                    y <= q,
                    q < scheme_preds_chirho.len(),
                    taken == preds_view(scheme_preds_chirho@),
                    taken.len() == scheme_preds_chirho@.len(),
                    *p == scheme_preds_chirho@[q as int],
                    seen_chirho == (exists|z: int| 0 <= z < y && #[trigger] taken[z] == taken[q as int]),
                decreases q - y,
            {
                proof {
                    assert(taken[y as int] == scheme_preds_chirho@[y as int]@);
                    assert(taken[q as int] == p@);
                }
                if scheme_preds_chirho[y].eq_chirho(p) {
                    seen_chirho = true;
                }
                y = y + 1;
            }
            proof {
                let t1 = taken.take(q + 1);
                assert(t1.drop_last() =~= taken.take(q as int));
                assert(t1.last() == p@);
                assert(taken[q as int] == p@);
                if seen_chirho {
                    let z = choose|z: int| 0 <= z < q && #[trigger] taken[z] == taken[q as int];
                    assert(taken.take(q as int)[z] == p@);
                } else {
                    assert forall|z: int| 0 <= z < q implies #[trigger] taken.take(q as int)[z] != p@ by {
                        assert(taken.take(q as int)[z] == taken[z]);
                    }
                }
            }
            if !seen_chirho {
                let ghost before = deduped_chirho@;
                deduped_chirho.push(p.copy_chirho());
                proof {
                    assert(preds_view(deduped_chirho@) =~= preds_view(before).push(p@));
                }
            }
            q = q + 1;
        }
        proof { assert(taken.take(taken.len() as int) =~= taken); }
        // Context reduction.
        let ghost dd = preds_view(deduped_chirho@);
        let ghost cl = self.class_env_chirho.map();
        let ghost n = self.class_env_chirho.size();
        let mut kept_chirho: Vec<SchemePredChirho> = Vec::new();
        let mut x: usize = 0;
        proof {
            assert(dd.take(0) =~= Seq::<PredV>::empty());
            assert(preds_view(kept_chirho@) =~= Seq::<PredV>::empty());
        }
        while x < deduped_chirho.len()
            invariant
                x <= deduped_chirho.len(),
                dd == preds_view(deduped_chirho@),
                dd.len() == deduped_chirho@.len(),
                cl == self.class_env_chirho.map(),
                n == self.class_env_chirho.size(),
                preds_view(kept_chirho@) == dd.take(x as int).filter(kept_fn(dd, cl, n)),
            decreases deduped_chirho.len() - x,
        {
            let p = &deduped_chirho[x];
            let mut entailed_chirho = false;
            let mut y: usize = 0;
            while y < deduped_chirho.len()
                invariant
                    y <= deduped_chirho.len(),
                    x < deduped_chirho.len(),
                    dd == preds_view(deduped_chirho@),
                    dd.len() == deduped_chirho@.len(),
                    cl == self.class_env_chirho.map(),
                    n == self.class_env_chirho.size(),
                    entailed_chirho == (exists|j: int| 0 <= j < y && (#[trigger] dd[j]).class != dd[x as int].class && dd[j].ty == dd[x as int].ty
                        && super_reach(cl, dd[j].class, dd[x as int].class, n)),
                decreases deduped_chirho.len() - y,
            {
                let other = &deduped_chirho[y];
                proof {
                    assert(dd[y as int] == other@);
                    assert(dd[x as int] == deduped_chirho@[x as int]@);
                }
                if other.class_name_chirho != deduped_chirho[x].class_name_chirho
                    && other.ty_chirho.eq_chirho(&deduped_chirho[x].ty_chirho)
                    && self.class_env_chirho.is_transitive_superclass_chirho(deduped_chirho[x].class_name_chirho.as_str(), other.class_name_chirho.as_str()) {
                    entailed_chirho = true;
                }
                proof {
                    if !entailed_chirho {
                        assert forall|j: int| 0 <= j < y + 1 implies !((#[trigger] dd[j]).class != dd[x as int].class && dd[j].ty == dd[x as int].ty
                            && super_reach(cl, dd[j].class, dd[x as int].class, n)) by {}
                    }
                }
                y = y + 1;
            }
            proof {
                assert(p@ == dd[x as int]);
                assert(entailed_chirho == entailed_by_other(dd, p@, cl, n));
                assert(dd.take(x + 1).drop_last() =~= dd.take(x as int));
                assert(dd.take(x + 1).last() == p@);
                assert(kept_fn(dd, cl, n)(p@) == !entailed_chirho);
                let t1 = dd.take(x + 1);
                reveal(Seq::filter);
                assert(t1.filter(kept_fn(dd, cl, n)) == (if kept_fn(dd, cl, n)(t1.last()) {
                    t1.drop_last().filter(kept_fn(dd, cl, n)).push(t1.last())
                } else {
                    t1.drop_last().filter(kept_fn(dd, cl, n))
                }));
            }
            if !entailed_chirho {
                let ghost before = kept_chirho@;
                kept_chirho.push(p.copy_chirho());
                proof {
                    assert(preds_view(kept_chirho@) =~= preds_view(before).push(p@));
                }
            }
            x = x + 1;
        }
        proof { assert(dd.take(dd.len() as int) =~= dd); }
        SchemeChirho {
            vars_chirho,
            preds_chirho: kept_chirho,
            ty_chirho: ty_chirho.copy_chirho(),
        }
    }
}


/// What a filter keeps: the elements that satisfy the predicate, each as
/// often as before.
pub proof fn lemma_filter_facts<A>(s: Seq<A>, p: spec_fn(A) -> bool)
    ensures
        forall|x: A| #[trigger] s.filter(p).contains(x) <==> (s.contains(x) && p(x)),
        s.no_duplicates() ==> s.filter(p).no_duplicates(),
    decreases s.len(),
{
    reveal(Seq::filter);
    if s.len() > 0 {
        let init = s.drop_last();
        lemma_filter_facts(init, p);
        assert(s =~= init.push(s.last()));
        assert forall|x: A| #[trigger] s.filter(p).contains(x) <==> (s.contains(x) && p(x)) by {
            if s.contains(x) && x != s.last() {
                let k = choose|k: int| 0 <= k < s.len() && s[k] == x;
                assert(init[k] == x);
            }
            if init.contains(x) {
                let k = choose|k: int| 0 <= k < init.len() && init[k] == x;
                assert(s[k] == x);
            }
            if p(s.last()) {
                let f = init.filter(p);
                if f.push(s.last()).contains(x) && x != s.last() {
                    let k = choose|k: int| 0 <= k < f.len() + 1 && f.push(s.last())[k] == x;
                    assert(f[k] == x);
                }
                if f.contains(x) {
                    let k = choose|k: int| 0 <= k < f.len() && f[k] == x;
                    assert(f.push(s.last())[k] == x);
                }
                assert(f.push(s.last())[f.len() as int] == s.last());
            }
        }
        if s.no_duplicates() {
            assert(init.no_duplicates()) by {
                assert forall|i: int, j: int| 0 <= i < init.len() && 0 <= j < init.len() && i != j implies init[i] != init[j] by {
                    assert(init[i] == s[i] && init[j] == s[j]);
                }
            }
            if p(s.last()) {
                let f = init.filter(p);
                assert(!init.contains(s.last())) by {
                    if init.contains(s.last()) {
                        let k = choose|k: int| 0 <= k < init.len() && init[k] == s.last();
                        assert(s[k] == s[s.len() - 1]);
                    }
                }
                assert(!f.contains(s.last()));
                assert forall|i: int, j: int| 0 <= i < f.len() + 1 && 0 <= j < f.len() + 1 && i != j implies f.push(s.last())[i] != f.push(s.last())[j] by {
                    if i < f.len() && j < f.len() {
                    } else if i < f.len() {
                        assert(f.contains(f[i]));
                    } else if j < f.len() {
                        assert(f.contains(f[j]));
                    }
                }
            }
        }
    }
}

/// Generalization quantifies each variable once: exactly the variables free
/// in the type and not free in the environment.
pub proof fn lemma_gen_vars(t: TyV, env_free: Set<u32>)
    ensures
        gen_vars(t, env_free).no_duplicates(),
        forall|v: u32| #[trigger] gen_vars(t, env_free).contains(v) <==> (free_vars(t).contains(v) && !env_free.contains(v)),
{
    crate::ty_chirho::lemma_add_new_props(Seq::empty(), crate::ty_chirho::occ(t, Seq::empty()));
    lemma_filter_facts(free_vars(t), not_in(env_free));
}

/// The predicates that generalization puts into the scheme mention only
/// quantified variables; each predicate it leaves deferred mentions some
/// variable it does not quantify; every deferred predicate goes one way or
/// the other; and the scheme holds each predicate once.
pub proof fn lemma_generalize_partition(d: Seq<(PredV, SpanChirho)>, vars: Seq<u32>, cl: Map<Seq<char>, Seq<Seq<char>>>, n: nat)
    ensures
        forall|p: PredV| #[trigger] context_reduce(dedup_first(d.filter(generalizes_fn(vars)).map_values(pred_part())), cl, n).contains(p)
            ==> generalizes(p, vars),
        context_reduce(dedup_first(d.filter(generalizes_fn(vars)).map_values(pred_part())), cl, n).no_duplicates(),
        forall|e: (PredV, SpanChirho)| #[trigger] d.filter(stays_fn(vars)).contains(e) <==> (d.contains(e) && !generalizes(e.0, vars)),
        forall|e: (PredV, SpanChirho)| #[trigger] d.filter(generalizes_fn(vars)).contains(e) <==> (d.contains(e) && generalizes(e.0, vars)),
{
    let g = d.filter(generalizes_fn(vars));
    lemma_filter_facts(d, generalizes_fn(vars));
    lemma_filter_facts(d, stays_fn(vars));
    let ps = g.map_values(pred_part());
    let dd = dedup_first(ps);
    lemma_dedup_first(ps);
    lemma_filter_facts(dd, kept_fn(dd, cl, n));
    assert forall|p: PredV| #[trigger] context_reduce(dd, cl, n).contains(p) implies generalizes(p, vars) by {
        assert(dd.contains(p));
        assert(ps.contains(p));
        let k = choose|k: int| 0 <= k < ps.len() && ps[k] == p;
        assert(g.contains(g[k]));
        assert(generalizes_fn(vars)(g[k]));
        assert(p.ty == g[k].0.ty);
    }
}


/// The built-in synonyms: `String = [Char]` and `ShowS = String -> String`.
pub open spec fn builtin_synonyms() -> Map<Seq<char>, SynonymV> {
    map![
        "String"@ => (Seq::<Seq<char>>::empty(), list_v(con_v("Char"@))),
        "ShowS"@ => (Seq::<Seq<char>>::empty(), fun_v(list_v(con_v("Char"@)), list_v(con_v("Char"@)))),
    ]
}

impl InferCtxChirho {
    /// A fresh context: the built-in type environment, the standard classes,
    /// the built-in synonyms, no family, nothing deferred, no rewrite rule,
    /// and fresh variables from 0.
    pub fn new_chirho() -> (r: InferCtxChirho)
        ensures
            r.next_var_chirho == 0,
            r.env_chirho.map() == builtin_schemes(),
            r.class_env_chirho.map() == standard_classes(),
            r.deferred_preds_chirho@.len() == 0,
            r.type_synonyms_chirho.map() == builtin_synonyms(),
            r.type_families_chirho.map() == Map::<Seq<char>, Seq<EquationV>>::empty(),
            r.given_rewrites_chirho@.len() == 0,
            r.scoped_tyvars_chirho@.len() == 0,
            r.con_field_names_chirho@.len() == 0,
            r.diagnostics_chirho@.len() == 0,
            r.scope_stack_chirho@.len() == 0,
    {
        let mut env_chirho = TyEnvChirho::new_chirho();
        let mut class_env_chirho = ClassEnvChirho::new_chirho();
        class_env_chirho.seed_standard_chirho();
        seed_builtins_chirho(&mut env_chirho);
        let mut type_synonyms_chirho = SynonymTableChirho::new_chirho();
        let no_params_chirho: Vec<String> = Vec::new();
        proof { assert(strings_view(no_params_chirho@) =~= Seq::<Seq<char>>::empty()); }
        type_synonyms_chirho.insert_chirho("String".to_owned(), no_params_chirho, TyChirho::string_chirho());
        let no_params_chirho: Vec<String> = Vec::new();
        proof { assert(strings_view(no_params_chirho@) =~= Seq::<Seq<char>>::empty()); }
        type_synonyms_chirho.insert_chirho(
            "ShowS".to_owned(),
            no_params_chirho,
            TyChirho::fun_chirho(TyChirho::string_chirho(), TyChirho::string_chirho()),
        );
        proof {
            assert(env_chirho.map() =~= builtin_schemes());
            assert(class_env_chirho.map() =~= standard_classes());
            assert(type_synonyms_chirho.map() =~= builtin_synonyms());
        }
        InferCtxChirho {
            next_var_chirho: 0,
            env_chirho,
            class_env_chirho,
            deferred_preds_chirho: Vec::new(),
            type_synonyms_chirho,
            type_families_chirho: FamilyTableChirho::new_chirho(),
            given_rewrites_chirho: Vec::new(),
            scoped_tyvars_chirho: Vec::new(),
            con_field_names_chirho: Vec::new(),
            diagnostics_chirho: Vec::new(),
            scope_stack_chirho: Vec::new(),
        }
    }
}


/// The deferred predicates after a substitution: each predicate's type
/// substituted (its extra types as they were).
pub open spec fn deferred_apply(d: Seq<(PredV, SpanChirho)>, m: Map<u32, TyV>) -> Seq<(PredV, SpanChirho)> {
    d.map_values(|e: (PredV, SpanChirho)| (PredV { class: e.0.class, ty: subst_apply(e.0.ty, m), extra: e.0.extra }, e.1))
}

impl InferCtxChirho {
    /// Applies a substitution to the type environment and to the deferred
    /// predicates.
    pub fn apply_subst_all_chirho(&mut self, subst_chirho: &SubstChirho)
        ensures
            final(self).env_chirho.map() == Map::new(
                |n: Seq<char>| old(self).env_chirho.map().dom().contains(n),
                |n: Seq<char>| scheme_apply(old(self).env_chirho.map()[n], subst_chirho.map()),
            ),
            deferred_view(final(self).deferred_preds_chirho@) == deferred_apply(deferred_view(old(self).deferred_preds_chirho@), subst_chirho.map()),
            final(self).next_var_chirho == old(self).next_var_chirho,
            final(self).class_env_chirho == old(self).class_env_chirho,
            final(self).type_synonyms_chirho == old(self).type_synonyms_chirho,
            final(self).type_families_chirho == old(self).type_families_chirho,
            final(self).given_rewrites_chirho == old(self).given_rewrites_chirho,
            final(self).scoped_tyvars_chirho == old(self).scoped_tyvars_chirho,
            final(self).con_field_names_chirho == old(self).con_field_names_chirho,
            final(self).diagnostics_chirho == old(self).diagnostics_chirho,
            final(self).scope_stack_chirho@.len() == old(self).scope_stack_chirho@.len(),
            forall|k: int| 0 <= k < old(self).scope_stack_chirho@.len() ==> (#[trigger] final(self).scope_stack_chirho@[k]).map() == Map::new(
                |n: Seq<char>| old(self).scope_stack_chirho@[k].map().dom().contains(n),
                |n: Seq<char>| scheme_apply(old(self).scope_stack_chirho@[k].map()[n], subst_chirho.map()),
            ),
    {
        self.env_chirho.apply_subst_chirho(subst_chirho);
        let ghost d0 = deferred_view(self.deferred_preds_chirho@);
        let mut updated_chirho: Vec<(PredChirho, SpanChirho)> = Vec::new();
        let mut i: usize = 0;
        while i < self.deferred_preds_chirho.len()
            invariant
                i <= self.deferred_preds_chirho.len(),
                d0 == deferred_view(self.deferred_preds_chirho@),
                updated_chirho@.len() == i,
                forall|j: int| 0 <= j < i ==> deferred_view(updated_chirho@)[j] == deferred_apply(d0, subst_chirho.map())[j],
            decreases self.deferred_preds_chirho.len() - i,
        {
            let pred_chirho = &self.deferred_preds_chirho[i].0;
            let p = PredChirho {
                class_name_chirho: pred_chirho.class_name_chirho.clone(),
                ty_chirho: subst_chirho.apply_ty_chirho(&pred_chirho.ty_chirho),
                extra_tys_chirho: copy_tys_chirho(&pred_chirho.extra_tys_chirho),
            };
            let ghost before = updated_chirho@;
            updated_chirho.push((p, self.deferred_preds_chirho[i].1));
            proof {
                assert(d0[i as int] == (pred_chirho@, self.deferred_preds_chirho@[i as int].1));
                let m = subst_chirho.map();
                assert(deferred_apply(d0, m)[i as int] == (PredV { class: d0[i as int].0.class, ty: subst_apply(d0[i as int].0.ty, m), extra: d0[i as int].0.extra }, d0[i as int].1));
                assert(p@ == PredV { class: pred_chirho@.class, ty: subst_apply(pred_chirho@.ty, m), extra: pred_chirho@.extra });
                assert(deferred_view(updated_chirho@)[i as int] == (p@, self.deferred_preds_chirho@[i as int].1));
                assert forall|j: int| 0 <= j < i + 1 implies deferred_view(updated_chirho@)[j] == deferred_apply(d0, m)[j] by {
                    if j < i {
                        assert(updated_chirho@[j] == before[j]);
                        assert(deferred_view(updated_chirho@)[j] == deferred_view(before)[j]);
                    }
                }
            }
            i = i + 1;
        }
        proof {
            assert(deferred_view(updated_chirho@) =~= deferred_apply(d0, subst_chirho.map()));
        }
        self.deferred_preds_chirho = updated_chirho;
        let ghost st0 = self.scope_stack_chirho@;
        let mut stack_chirho: Vec<TyEnvChirho> = Vec::new();
        let mut k: usize = 0;
        while k < self.scope_stack_chirho.len()
            invariant
                k <= self.scope_stack_chirho.len(),
                st0 == self.scope_stack_chirho@,
                stack_chirho@.len() == k,
                forall|q: int| 0 <= q < k ==> (#[trigger] stack_chirho@[q]).map() == Map::new(
                    |n: Seq<char>| st0[q].map().dom().contains(n),
                    |n: Seq<char>| scheme_apply(st0[q].map()[n], subst_chirho.map()),
                ),
            decreases self.scope_stack_chirho.len() - k,
        {
            let mut e = self.scope_stack_chirho[k].copy_chirho();
            e.apply_subst_chirho(subst_chirho);
            stack_chirho.push(e);
            k = k + 1;
        }
        self.scope_stack_chirho = stack_chirho;
    }
}

/// The quantified variables of the outermost `forall`s of a type, in order,
/// and the type under them.
pub open spec fn peel(t: TyV) -> (Seq<u32>, TyV)
    decreases t,
{
    match t {
        TyV::Forall(vs, b) => (vs + peel(*b).0, peel(*b).1),
        _ => (Seq::empty(), t),
    }
}

/// Peels the outermost `forall`s off a type, collecting their variables.
pub fn peel_forall_chirho(ty_chirho: TyChirho) -> (r: (Vec<TyVarChirho>, TyChirho))
    ensures
        vars_view(r.0@) == peel(ty_chirho@).0,
        r.1@ == peel(ty_chirho@).1,
    decreases ty_chirho,
{
    match ty_chirho {
        TyChirho::ForallChirho { vars_chirho, body_chirho } => {
            let (mut inner_vars_chirho, inner_body_chirho) = peel_forall_chirho(*body_chirho);
            let mut all_vars_chirho = vars_chirho;
            let ghost outer = vars_view(all_vars_chirho@);
            let ghost inner = vars_view(inner_vars_chirho@);
            all_vars_chirho.append(&mut inner_vars_chirho);
            proof { assert(vars_view(all_vars_chirho@) =~= outer + inner); }
            (all_vars_chirho, inner_body_chirho)
        },
        other_chirho => {
            let r = (Vec::new(), other_chirho);
            proof { assert(vars_view(r.0@) =~= Seq::<u32>::empty()); }
            r
        },
    }
}

/// The kind of a literal.
#[derive(Debug, Clone, Copy, PartialEq, Eq, Structural)]
pub enum LitChirho {
    IntChirho,
    FloatChirho,
    CharChirho,
    StringChirho,
}

/// The type of a literal: `Int`, `Double`, `Char` or `String` (`[Char]`).
pub fn infer_lit_chirho(lit_chirho: &LitChirho) -> (r: TyChirho)
    ensures
        r@ == match lit_chirho {
            LitChirho::IntChirho => con_v("Int"@),
            LitChirho::FloatChirho => con_v("Double"@),
            LitChirho::CharChirho => con_v("Char"@),
            LitChirho::StringChirho => list_v(con_v("Char"@)),
        },
{
    match lit_chirho {
        LitChirho::IntChirho => TyChirho::int_chirho(),
        LitChirho::FloatChirho => TyChirho::double_chirho(),
        LitChirho::CharChirho => TyChirho::char_chirho(),
        LitChirho::StringChirho => TyChirho::string_chirho(),
    }
}


/// Instantiation renames exactly the quantified variables, each to a fresh
/// variable numbered from `base` upward, distinct variables to distinct
/// fresh ones.
pub proof fn lemma_inst_map_fresh(vars: Seq<u32>, base: nat)
    requires
        base + vars.len() <= u32::MAX,
    ensures
        inst_map(vars, base).dom() == vars.to_set(),
        forall|v: u32| #[trigger] inst_map(vars, base).dom().contains(v) ==> (inst_map(vars, base)[v] matches TyV::Var(k)
            && base <= k < base + vars.len()),
        forall|v: u32, w: u32| #[trigger] inst_map(vars, base).dom().contains(v) && #[trigger] inst_map(vars, base).dom().contains(w) && v != w
            ==> inst_map(vars, base)[v] != inst_map(vars, base)[w],
    decreases vars.len(),
{
    if vars.len() == 0 {
        assert(vars.to_set() =~= Set::<u32>::empty());
    } else {
        let init = vars.drop_last();
        lemma_inst_map_fresh(init, base);
        assert(vars =~= init.push(vars.last()));
        assert(vars.to_set() =~= init.to_set().insert(vars.last())) by {
            assert forall|x: u32| vars.to_set().contains(x) <==> init.to_set().insert(vars.last()).contains(x) by {
                if vars.contains(x) && x != vars.last() {
                    let k = choose|k: int| 0 <= k < vars.len() && vars[k] == x;
                    assert(init[k] == x);
                }
                if init.contains(x) {
                    let k = choose|k: int| 0 <= k < init.len() && init[k] == x;
                    assert(vars[k] == x);
                }
                assert(vars[vars.len() - 1] == vars.last());
            }
        }
        let m = inst_map(vars, base);
        let m0 = inst_map(init, base);
        let fresh = TyV::Var((base + vars.len() - 1) as u32);
        assert forall|v: u32, w: u32| #[trigger] m.dom().contains(v) && #[trigger] m.dom().contains(w) && v != w implies m[v] != m[w] by {
            if v != vars.last() && w != vars.last() {
                assert(m0.dom().contains(v) && m0.dom().contains(w));
            } else if v == vars.last() {
                assert(m0.dom().contains(w));
            } else {
                assert(m0.dom().contains(v));
            }
        }
    }
}


/// Whether the top of a type is a family application that an equation still
/// rewrites.
pub open spec fn top_reducible(fams: Map<Seq<char>, Seq<EquationV>>, t: TyV) -> bool {
    spine_head(t) is Con && reduce_eqs(fam_eqs(fams, spine_head(t)->Con_0), spine_args(t)) is Some
}

/// Whether every chain of top-level rewrites that reduction follows from `t`
/// at nesting `depth` ends within the depth limit: a reduct is followed on,
/// and what stands at the limit rewrites no further.
pub open spec fn settles(fams: Map<Seq<char>, Seq<EquationV>>, t: TyV, depth: nat) -> bool
    decreases (FAMILY_DEPTH_LIMIT_CHIRHO + 1 - depth) as nat,
{
    if fams.dom() == Set::<Seq<char>>::empty() {
        true
    } else if depth > FAMILY_DEPTH_LIMIT_CHIRHO {
        !top_reducible(fams, t)
    } else {
        let h = spine_head(t);
        if h is Con {
            let ra = if t is App { reduce_fam_seq(fams, spine_args(t), depth + 1) } else { Seq::empty() };
            match reduce_eqs(fam_eqs(fams, h->Con_0), ra) {
                Some(r) => settles(fams, r, depth + 1),
                None => true,
            }
        } else {
            true
        }
    }
}

/// A type built from a constructor head and arguments takes them apart
/// again.
pub proof fn lemma_spine_of_apply_all(h: TyV, args: Seq<TyV>)
    requires
        h is Con,
    ensures
        spine_head(apply_all(h, args)) == h,
        spine_args(apply_all(h, args)) == args,
    decreases args.len(),
{
    if args.len() > 0 {
        lemma_spine_of_apply_all(h, args.drop_last());
        assert(args.drop_last().push(args.last()) =~= args);
    }
}

/// Reduction keeps a head that is not a constructor: it never produces a
/// family application at the top from something that was not one.
pub proof fn lemma_reduce_keeps_non_con_head(fams: Map<Seq<char>, Seq<EquationV>>, t: TyV, depth: nat)
    requires
        !(spine_head(t) is Con),
    ensures
        !(spine_head(reduce_fam(fams, t, depth)) is Con),
    decreases t,
{
    if depth > FAMILY_DEPTH_LIMIT_CHIRHO || fams.dom() == Set::<Seq<char>>::empty() {
    } else {
        match t {
            TyV::App(f, a) => {
                lemma_reduce_keeps_non_con_head(fams, *f, depth);
            },
            _ => {},
        }
    }
}

/// Reduction leaves no rewritable family application at the top of its
/// result, wherever the chains of rewrites it follows end within the depth
/// limit: a reduct is itself reduced until no equation applies.
pub proof fn lemma_reduced_top_is_normal(fams: Map<Seq<char>, Seq<EquationV>>, t: TyV, depth: nat)
    requires
        settles(fams, t, depth),
    ensures
        !top_reducible(fams, reduce_fam(fams, t, depth)),
    decreases (FAMILY_DEPTH_LIMIT_CHIRHO + 1 - depth) as nat,
{
    if fams.dom() == Set::<Seq<char>>::empty() {
        assert(fam_eqs(fams, spine_head(t)->Con_0) =~= Seq::<EquationV>::empty());
    } else if depth > FAMILY_DEPTH_LIMIT_CHIRHO {
    } else {
        let h = spine_head(t);
        match t {
            TyV::Con(n) => {
                match reduce_eqs(fam_eqs(fams, n), Seq::empty()) {
                    Some(r) => lemma_reduced_top_is_normal(fams, r, depth + 1),
                    None => {},
                }
            },
            TyV::App(f, a) => {
                if h is Con {
                    let ra = reduce_fam_seq(fams, spine_args(t), depth + 1);
                    match reduce_eqs(fam_eqs(fams, h->Con_0), ra) {
                        Some(r) => lemma_reduced_top_is_normal(fams, r, depth + 1),
                        None => lemma_spine_of_apply_all(h, ra),
                    }
                } else {
                    lemma_reduce_keeps_non_con_head(fams, t, depth);
                }
            },
            _ => {
                lemma_reduce_keeps_non_con_head(fams, t, depth);
            },
        }
    }
}


/// Reduction goes inside arrows, lists, tuples and quantified types: where
/// families are registered and within the depth limit, each of these reduces
/// to the same shape over its reduced parts.
pub proof fn lemma_reduce_goes_inside(fams: Map<Seq<char>, Seq<EquationV>>, t: TyV, d: nat)
    requires
        d <= FAMILY_DEPTH_LIMIT_CHIRHO,
        fams.dom() != Set::<Seq<char>>::empty(),
    ensures
        match t {
            TyV::Fun(a, b, m) => reduce_fam(fams, t, d) == TyV::Fun(Box::new(reduce_fam(fams, *a, d)), Box::new(reduce_fam(fams, *b, d)), m),
            TyV::List(e) => reduce_fam(fams, t, d) == TyV::List(Box::new(reduce_fam(fams, *e, d))),
            TyV::Tuple(es) => reduce_fam(fams, t, d) == TyV::Tuple(Seq::new(es.len(), |i: int| reduce_fam(fams, es[i], d))),
            TyV::Forall(vs, b) => reduce_fam(fams, t, d) == TyV::Forall(vs, Box::new(reduce_fam(fams, *b, d))),
            _ => true,
        },
{
    match t {
        TyV::Tuple(es) => {
            lemma_reduce_fam_seq_each(fams, es, d);
            assert(reduce_fam_seq(fams, es, d) =~= Seq::new(es.len(), |i: int| reduce_fam(fams, es[i], d)));
        },
        _ => {},
    }
}

/// Each element of a list of types reduces on its own.
pub proof fn lemma_reduce_fam_seq_each(fams: Map<Seq<char>, Seq<EquationV>>, es: Seq<TyV>, d: nat)
    ensures
        reduce_fam_seq(fams, es, d).len() == es.len(),
        forall|i: int| 0 <= i < es.len() ==> #[trigger] reduce_fam_seq(fams, es, d)[i] == reduce_fam(fams, es[i], d),
    decreases es.len(),
{
    if es.len() > 0 {
        lemma_reduce_fam_seq_each(fams, es.drop_last(), d);
        assert forall|i: int| 0 <= i < es.len() implies #[trigger] reduce_fam_seq(fams, es, d)[i] == reduce_fam(fams, es[i], d) by {
            if i < es.len() - 1 {
                assert(es.drop_last()[i] == es[i]);
            }
        }
    }
}

}
