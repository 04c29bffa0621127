//! Patterns, and the bindings a pattern brings into the type environment:
//! each variable it binds gets a type, a fresh variable where the pattern's
//! shape does not say more.
use vstd::prelude::*;
use crate::binding_groups_chirho::strs;
use crate::infer_chirho::InferCtxChirho;
use crate::names_chirho::{find_name_chirho, first_pos, lemma_first_pos, names_of};
use crate::surface_types_chirho::NameChirho;
use crate::ty_chirho::{vars_view, PredV, SchemeChirho, SchemeV, TyChirho, TyV, TyVarChirho};

verus! {

/// A pattern.
#[derive(Debug)]
pub enum PatChirho {
    VarChirho(NameChirho),
    WildcardChirho,
    LitChirho,
    AsChirho { name_chirho: NameChirho, pattern_chirho: Box<PatChirho> },
    TupleChirho { elements_chirho: Vec<PatChirho> },
    ConChirho { con_chirho: NameChirho, args_chirho: Vec<PatChirho> },
    RecordChirho { con_chirho: NameChirho, fields_chirho: Vec<FieldPatChirho>, has_wildcard_chirho: bool },
    InfixConChirho { left_chirho: Box<PatChirho>, right_chirho: Box<PatChirho> },
    ListChirho { elements_chirho: Vec<PatChirho> },
    NegChirho,
    ParenChirho { inner_chirho: Box<PatChirho> },
    LazyChirho { inner_chirho: Box<PatChirho> },
    BangChirho { inner_chirho: Box<PatChirho> },
    ViewChirho { pat_chirho: Box<PatChirho> },
    TypeAnnotChirho { pat_chirho: Box<PatChirho> },
}

/// A field of a record pattern: the field's name and its pattern.
#[derive(Debug)]
pub struct FieldPatChirho {
    pub name_chirho: NameChirho,
    pub pattern_chirho: PatChirho,
}

/// The monomorphic scheme of a type.
pub open spec fn mono_v(t: TyV) -> SchemeV {
    SchemeV { vars: Seq::empty(), preds: Seq::empty(), ty: t }
}

/// The scheme a variable pattern binds at type `t`: a `forall` type binds a
/// polymorphic scheme, so that each use instantiates it afresh.
pub open spec fn var_pat_scheme(t: TyV) -> SchemeV {
    match t {
        TyV::Forall(vs, b) => SchemeV { vars: vs, preds: Seq::empty(), ty: *b },
        _ => mono_v(t),
    }
}

/// The field names of constructor `con` in the table `cf`, if it is there.
pub open spec fn con_fields(cf: Seq<(String, Vec<String>)>, con: Seq<char>) -> Option<Seq<Seq<char>>> {
    if first_pos(names_of(cf), con) >= 0 { Some(strs(cf[first_pos(names_of(cf), con)].1@)) } else { None }
}

/// The names of the fields a record pattern spells out.
pub open spec fn field_names(fs: Seq<FieldPatChirho>) -> Seq<Seq<char>> {
    fs.map_values(|f: FieldPatChirho| f.name_chirho.text_chirho@)
}

/// The environment after binding pattern `p` at type `t`, and the next fresh
/// variable after it, with `cf` the constructors' field names. A variable
/// binds its name (an as-pattern its name too, at `t`); a tuple's elements
/// get fresh variables, all made first; a constructor's arguments and a
/// record's fields each get a fresh variable; a record wildcard binds each
/// field of the constructor not spelled out to a fresh variable; an infix
/// constructor's two sides get two fresh variables; a list's elements share
/// one fresh variable; a view pattern's result gets a fresh variable;
/// parentheses, laziness, strictness and annotations pass `t` through;
/// wildcards, literals and negated literals bind nothing.
pub open spec fn bind_pat(cf: Seq<(String, Vec<String>)>, env: Map<Seq<char>, SchemeV>, next: nat, p: PatChirho, t: TyV)
    -> (Map<Seq<char>, SchemeV>, nat)
    decreases p, 0nat,
{
    match p {
        PatChirho::VarChirho(n) => (env.insert(n.text_chirho@, var_pat_scheme(t)), next),
        PatChirho::AsChirho { name_chirho, pattern_chirho } =>
            bind_pat(cf, env.insert(name_chirho.text_chirho@, mono_v(t)), next, *pattern_chirho, t),
        PatChirho::TupleChirho { elements_chirho } =>
            bind_indexed(cf, env, next + elements_chirho@.len(), elements_chirho@, next),
        PatChirho::ConChirho { args_chirho, .. } => bind_fresh_each(cf, env, next, args_chirho@),
        PatChirho::RecordChirho { con_chirho, fields_chirho, has_wildcard_chirho } => {
            let (e1, n1) = bind_fields(cf, env, next, fields_chirho@);
            if has_wildcard_chirho && con_fields(cf, con_chirho.text_chirho@) is Some {
                bind_rest(e1, n1, con_fields(cf, con_chirho.text_chirho@)->0, field_names(fields_chirho@))
            } else {
                (e1, n1)
            }
        },
        PatChirho::InfixConChirho { left_chirho, right_chirho } => {
            let (e1, n1) = bind_pat(cf, env, next + 2, *left_chirho, TyV::Var(next as u32));
            bind_pat(cf, e1, n1, *right_chirho, TyV::Var((next + 1) as u32))
        },
        PatChirho::ListChirho { elements_chirho } => bind_same_each(cf, env, next + 1, elements_chirho@, TyV::Var(next as u32)),
        PatChirho::ParenChirho { inner_chirho } => bind_pat(cf, env, next, *inner_chirho, t),
        PatChirho::LazyChirho { inner_chirho } => bind_pat(cf, env, next, *inner_chirho, t),
        PatChirho::BangChirho { inner_chirho } => bind_pat(cf, env, next, *inner_chirho, t),
        PatChirho::ViewChirho { pat_chirho } => bind_pat(cf, env, next + 1, *pat_chirho, TyV::Var(next as u32)),
        PatChirho::TypeAnnotChirho { pat_chirho } => bind_pat(cf, env, next, *pat_chirho, t),
        _ => (env, next),
    }
}

/// Binds the `i`-th pattern at variable `base + i`, left to right.
pub open spec fn bind_indexed(cf: Seq<(String, Vec<String>)>, env: Map<Seq<char>, SchemeV>, next: nat, ps: Seq<PatChirho>, base: nat)
    -> (Map<Seq<char>, SchemeV>, nat)
    decreases ps, 0nat,
{
    if ps.len() == 0 {
        (env, next)
    } else {
        let (e1, n1) = bind_indexed(cf, env, next, ps.drop_last(), base);
        bind_pat(cf, e1, n1, ps.last(), TyV::Var((base + ps.len() - 1) as u32))
    }
}

/// Binds each pattern at a fresh variable made just before it, left to
/// right.
pub open spec fn bind_fresh_each(cf: Seq<(String, Vec<String>)>, env: Map<Seq<char>, SchemeV>, next: nat, ps: Seq<PatChirho>)
    -> (Map<Seq<char>, SchemeV>, nat)
    decreases ps, 0nat,
{
    if ps.len() == 0 {
        (env, next)
    } else {
        let (e1, n1) = bind_fresh_each(cf, env, next, ps.drop_last());
        bind_pat(cf, e1, n1 + 1, ps.last(), TyV::Var(n1 as u32))
    }
}

/// Binds each field's pattern at a fresh variable made just before it, left
/// to right.
pub open spec fn bind_fields(cf: Seq<(String, Vec<String>)>, env: Map<Seq<char>, SchemeV>, next: nat, fs: Seq<FieldPatChirho>)
    -> (Map<Seq<char>, SchemeV>, nat)
    decreases fs, 0nat,
{
    if fs.len() == 0 {
        (env, next)
    } else {
        let (e1, n1) = bind_fields(cf, env, next, fs.drop_last());
        bind_pat(cf, e1, n1 + 1, fs.last().pattern_chirho, TyV::Var(n1 as u32))
    }
}

/// Binds each pattern at the one type `t`, left to right.
pub open spec fn bind_same_each(cf: Seq<(String, Vec<String>)>, env: Map<Seq<char>, SchemeV>, next: nat, ps: Seq<PatChirho>, t: TyV)
    -> (Map<Seq<char>, SchemeV>, nat)
    decreases ps, 0nat,
{
    if ps.len() == 0 {
        (env, next)
    } else {
        let (e1, n1) = bind_same_each(cf, env, next, ps.drop_last(), t);
        bind_pat(cf, e1, n1, ps.last(), t)
    }
}

/// Binds each of `names` not among `explicit` to a fresh variable, in order.
pub open spec fn bind_rest(env: Map<Seq<char>, SchemeV>, next: nat, names: Seq<Seq<char>>, explicit: Seq<Seq<char>>)
    -> (Map<Seq<char>, SchemeV>, nat)
    decreases names.len(),
{
    if names.len() == 0 {
        (env, next)
    } else {
        let (e1, n1) = bind_rest(env, next, names.drop_last(), explicit);
        if explicit.contains(names.last()) {
            (e1, n1)
        } else {
            (e1.insert(names.last(), mono_v(TyV::Var(n1 as u32))), n1 + 1)
        }
    }
}

/// Binding only moves the next fresh variable forward.
pub proof fn lemma_bind_pat_grows(cf: Seq<(String, Vec<String>)>, env: Map<Seq<char>, SchemeV>, next: nat, p: PatChirho, t: TyV)
    ensures
        bind_pat(cf, env, next, p, t).1 >= next,
    decreases p, 0nat,
{
    match p {
        PatChirho::AsChirho { name_chirho, pattern_chirho } =>
            lemma_bind_pat_grows(cf, env.insert(name_chirho.text_chirho@, mono_v(t)), next, *pattern_chirho, t),
        PatChirho::TupleChirho { elements_chirho } =>
            lemma_bind_indexed_grows(cf, env, next + elements_chirho@.len(), elements_chirho@, next),
        PatChirho::ConChirho { args_chirho, .. } => lemma_bind_fresh_each_grows(cf, env, next, args_chirho@),
        PatChirho::RecordChirho { con_chirho, fields_chirho, has_wildcard_chirho } => {
            lemma_bind_fields_grows(cf, env, next, fields_chirho@);
            let (e1, n1) = bind_fields(cf, env, next, fields_chirho@);
            if has_wildcard_chirho && con_fields(cf, con_chirho.text_chirho@) is Some {
                lemma_bind_rest_grows(e1, n1, con_fields(cf, con_chirho.text_chirho@)->0, field_names(fields_chirho@));
            }
        },
        PatChirho::InfixConChirho { left_chirho, right_chirho } => {
            lemma_bind_pat_grows(cf, env, next + 2, *left_chirho, TyV::Var(next as u32));
            let (e1, n1) = bind_pat(cf, env, next + 2, *left_chirho, TyV::Var(next as u32));
            lemma_bind_pat_grows(cf, e1, n1, *right_chirho, TyV::Var((next + 1) as u32));
        },
        PatChirho::ListChirho { elements_chirho } =>
            lemma_bind_same_each_grows(cf, env, next + 1, elements_chirho@, TyV::Var(next as u32)),
        PatChirho::ParenChirho { inner_chirho } => lemma_bind_pat_grows(cf, env, next, *inner_chirho, t),
        PatChirho::LazyChirho { inner_chirho } => lemma_bind_pat_grows(cf, env, next, *inner_chirho, t),
        PatChirho::BangChirho { inner_chirho } => lemma_bind_pat_grows(cf, env, next, *inner_chirho, t),
        PatChirho::ViewChirho { pat_chirho } => lemma_bind_pat_grows(cf, env, next + 1, *pat_chirho, TyV::Var(next as u32)),
        PatChirho::TypeAnnotChirho { pat_chirho } => lemma_bind_pat_grows(cf, env, next, *pat_chirho, t),
        _ => {},
    }
}

pub proof fn lemma_bind_indexed_grows(cf: Seq<(String, Vec<String>)>, env: Map<Seq<char>, SchemeV>, next: nat, ps: Seq<PatChirho>, base: nat)
    ensures
        bind_indexed(cf, env, next, ps, base).1 >= next,
    decreases ps, 0nat,
{
    if ps.len() > 0 {
        lemma_bind_indexed_grows(cf, env, next, ps.drop_last(), base);
        let (e1, n1) = bind_indexed(cf, env, next, ps.drop_last(), base);
        lemma_bind_pat_grows(cf, e1, n1, ps.last(), TyV::Var((base + ps.len() - 1) as u32));
    }
}

pub proof fn lemma_bind_fresh_each_grows(cf: Seq<(String, Vec<String>)>, env: Map<Seq<char>, SchemeV>, next: nat, ps: Seq<PatChirho>)
    ensures
        bind_fresh_each(cf, env, next, ps).1 >= next,
    decreases ps, 0nat,
{
    if ps.len() > 0 {
        lemma_bind_fresh_each_grows(cf, env, next, ps.drop_last());
        let (e1, n1) = bind_fresh_each(cf, env, next, ps.drop_last());
        lemma_bind_pat_grows(cf, e1, n1 + 1, ps.last(), TyV::Var(n1 as u32));
    }
}

pub proof fn lemma_bind_fields_grows(cf: Seq<(String, Vec<String>)>, env: Map<Seq<char>, SchemeV>, next: nat, fs: Seq<FieldPatChirho>)
    ensures
        bind_fields(cf, env, next, fs).1 >= next,
    decreases fs, 0nat,
{
    if fs.len() > 0 {
        lemma_bind_fields_grows(cf, env, next, fs.drop_last());
        let (e1, n1) = bind_fields(cf, env, next, fs.drop_last());
        lemma_bind_pat_grows(cf, e1, n1 + 1, fs.last().pattern_chirho, TyV::Var(n1 as u32));
    }
}

pub proof fn lemma_bind_same_each_grows(cf: Seq<(String, Vec<String>)>, env: Map<Seq<char>, SchemeV>, next: nat, ps: Seq<PatChirho>, t: TyV)
    ensures
        bind_same_each(cf, env, next, ps, t).1 >= next,
    decreases ps, 0nat,
{
    if ps.len() > 0 {
        lemma_bind_same_each_grows(cf, env, next, ps.drop_last(), t);
        let (e1, n1) = bind_same_each(cf, env, next, ps.drop_last(), t);
        lemma_bind_pat_grows(cf, e1, n1, ps.last(), t);
    }
}

pub proof fn lemma_bind_rest_grows(env: Map<Seq<char>, SchemeV>, next: nat, names: Seq<Seq<char>>, explicit: Seq<Seq<char>>)
    ensures
        bind_rest(env, next, names, explicit).1 >= next,
    decreases names.len(),
{
    if names.len() > 0 {
        lemma_bind_rest_grows(env, next, names.drop_last(), explicit);
    }
}


pub proof fn lemma_bind_indexed_prefix(cf: Seq<(String, Vec<String>)>, env: Map<Seq<char>, SchemeV>, next: nat, ps: Seq<PatChirho>, base: nat, k: int)
    requires
        0 <= k <= ps.len(),
    ensures
        bind_indexed(cf, env, next, ps.take(k), base).1 <= bind_indexed(cf, env, next, ps, base).1,
    decreases ps.len() - k,
{
    if k == ps.len() {
        assert(ps.take(k) =~= ps);
    } else {
        lemma_bind_indexed_prefix(cf, env, next, ps, base, k + 1);
        let t = ps.take(k + 1);
        assert(t.drop_last() =~= ps.take(k));
        let (e1, n1) = bind_indexed(cf, env, next, ps.take(k), base);
        lemma_bind_pat_grows(cf, e1, n1, t.last(), TyV::Var((base + t.len() - 1) as u32));
    }
}

pub proof fn lemma_bind_fresh_each_prefix(cf: Seq<(String, Vec<String>)>, env: Map<Seq<char>, SchemeV>, next: nat, ps: Seq<PatChirho>, k: int)
    requires
        0 <= k <= ps.len(),
    ensures
        bind_fresh_each(cf, env, next, ps.take(k)).1 <= bind_fresh_each(cf, env, next, ps).1,
    decreases ps.len() - k,
{
    if k == ps.len() {
        assert(ps.take(k) =~= ps);
    } else {
        lemma_bind_fresh_each_prefix(cf, env, next, ps, k + 1);
        let t = ps.take(k + 1);
        assert(t.drop_last() =~= ps.take(k));
        let (e1, n1) = bind_fresh_each(cf, env, next, ps.take(k));
        lemma_bind_pat_grows(cf, e1, n1 + 1, t.last(), TyV::Var(n1 as u32));
    }
}

pub proof fn lemma_bind_fields_prefix(cf: Seq<(String, Vec<String>)>, env: Map<Seq<char>, SchemeV>, next: nat, ps: Seq<FieldPatChirho>, k: int)
    requires
        0 <= k <= ps.len(),
    ensures
        bind_fields(cf, env, next, ps.take(k)).1 <= bind_fields(cf, env, next, ps).1,
    decreases ps.len() - k,
{
    if k == ps.len() {
        assert(ps.take(k) =~= ps);
    } else {
        lemma_bind_fields_prefix(cf, env, next, ps, k + 1);
        let t = ps.take(k + 1);
        assert(t.drop_last() =~= ps.take(k));
        let (e1, n1) = bind_fields(cf, env, next, ps.take(k));
        lemma_bind_pat_grows(cf, e1, n1 + 1, t.last().pattern_chirho, TyV::Var(n1 as u32));
    }
}

pub proof fn lemma_bind_same_each_prefix(cf: Seq<(String, Vec<String>)>, env: Map<Seq<char>, SchemeV>, next: nat, ps: Seq<PatChirho>, t0: TyV, k: int)
    requires
        0 <= k <= ps.len(),
    ensures
        bind_same_each(cf, env, next, ps.take(k), t0).1 <= bind_same_each(cf, env, next, ps, t0).1,
    decreases ps.len() - k,
{
    if k == ps.len() {
        assert(ps.take(k) =~= ps);
    } else {
        lemma_bind_same_each_prefix(cf, env, next, ps, t0, k + 1);
        let t = ps.take(k + 1);
        assert(t.drop_last() =~= ps.take(k));
        let (e1, n1) = bind_same_each(cf, env, next, ps.take(k), t0);
        lemma_bind_pat_grows(cf, e1, n1, t.last(), t0);
    }
}

pub proof fn lemma_bind_rest_prefix(env: Map<Seq<char>, SchemeV>, next: nat, names: Seq<Seq<char>>, explicit: Seq<Seq<char>>, k: int)
    requires
        0 <= k <= names.len(),
    ensures
        bind_rest(env, next, names.take(k), explicit).1 <= bind_rest(env, next, names, explicit).1,
    decreases names.len() - k,
{
    if k == names.len() {
        assert(names.take(k) =~= names);
    } else {
        lemma_bind_rest_prefix(env, next, names, explicit, k + 1);
        let t = names.take(k + 1);
        assert(t.drop_last() =~= names.take(k));
    }
}

/// Whether a record pattern spells out the field `name_chirho`.
fn field_spelled_chirho(fields_chirho: &Vec<FieldPatChirho>, name_chirho: &str) -> (r: bool)
    ensures
        r == field_names(fields_chirho@).contains(name_chirho@),
{
    let ghost fnames = field_names(fields_chirho@);
    let mut i: usize = 0;
    while i < fields_chirho.len()
        invariant
            i <= fields_chirho.len(),
            fnames == field_names(fields_chirho@),
            forall|j: int| 0 <= j < i ==> fnames[j] != name_chirho@,
        decreases fields_chirho.len() - i,
    {
        if crate::ty_chirho::str_eq_chirho(fields_chirho[i].name_chirho.text_chirho.as_str(), name_chirho) {
            proof { assert(fnames[i as int] == name_chirho@); }
            return true;
        }
        i = i + 1;
    }
    false
}

impl InferCtxChirho {
    /// Brings the variables of pattern `pat_chirho`, matched against a value
    /// of type `ty_chirho`, into the type environment, as [`bind_pat`] says.
    #[verifier::loop_isolation(false)]
    pub fn bind_pat_chirho(&mut self, pat_chirho: &PatChirho, ty_chirho: &TyChirho)
        requires
            bind_pat(old(self).con_field_names_chirho@, old(self).env_chirho.map(), old(self).next_var_chirho as nat, *pat_chirho, ty_chirho@).1
                <= u32::MAX,
        ensures
            (final(self).env_chirho.map(), final(self).next_var_chirho as nat)
                == bind_pat(old(self).con_field_names_chirho@, old(self).env_chirho.map(), old(self).next_var_chirho as nat, *pat_chirho, ty_chirho@),
            final(self).class_env_chirho == old(self).class_env_chirho,
            final(self).deferred_preds_chirho == old(self).deferred_preds_chirho,
            final(self).type_synonyms_chirho == old(self).type_synonyms_chirho,
            final(self).type_families_chirho == old(self).type_families_chirho,
            final(self).given_rewrites_chirho == old(self).given_rewrites_chirho,
            final(self).scoped_tyvars_chirho == old(self).scoped_tyvars_chirho,
            final(self).con_field_names_chirho == old(self).con_field_names_chirho,
            final(self).diagnostics_chirho == old(self).diagnostics_chirho,
            final(self).scope_stack_chirho == old(self).scope_stack_chirho,
        decreases pat_chirho, 1nat,
    {
        let ghost cf = self.con_field_names_chirho@;
        let ghost env0 = self.env_chirho.map();
        let ghost n0 = self.next_var_chirho as nat;
        proof { lemma_bind_pat_grows(cf, env0, n0, *pat_chirho, ty_chirho@); }
        match pat_chirho {
            PatChirho::VarChirho(name_chirho) => {
                let scheme_chirho = match ty_chirho {
                    TyChirho::ForallChirho { vars_chirho, body_chirho } => {
                        let s = SchemeChirho { vars_chirho: vars_chirho.clone(), preds_chirho: Vec::new(), ty_chirho: body_chirho.copy_chirho() };
                        proof { assert(crate::ty_chirho::preds_view(s.preds_chirho@) =~= Seq::<PredV>::empty()); }
                        s
                    },
                    _ => SchemeChirho::mono_chirho(ty_chirho.copy_chirho()),
                };
                self.env_chirho.bind_chirho(name_chirho.text_chirho.clone(), scheme_chirho);
            },
            PatChirho::AsChirho { name_chirho, pattern_chirho } => {
                self.env_chirho.bind_chirho(name_chirho.text_chirho.clone(), SchemeChirho::mono_chirho(ty_chirho.copy_chirho()));
                self.bind_pat_chirho(pattern_chirho, ty_chirho);
            },
            PatChirho::TupleChirho { elements_chirho } => {
                let mut elem_tys_chirho: Vec<TyChirho> = Vec::new();
                let mut k: usize = 0;
                proof { lemma_bind_indexed_grows(cf, env0, n0 + elements_chirho@.len(), elements_chirho@, n0); }
                while k < elements_chirho.len()
                    invariant
                        k <= elements_chirho.len(),
                        n0 + elements_chirho@.len() <= u32::MAX,
                        self.next_var_chirho as nat == n0 + k,
                        elem_tys_chirho@.len() == k,
                        forall|j: int| 0 <= j < k ==> (#[trigger] elem_tys_chirho@[j])@ == TyV::Var((n0 + j) as u32),
                        self.env_chirho.map() == env0,
                cf == self.con_field_names_chirho@,
                self.class_env_chirho == old(self).class_env_chirho,
                self.deferred_preds_chirho == old(self).deferred_preds_chirho,
                self.type_synonyms_chirho == old(self).type_synonyms_chirho,
                self.type_families_chirho == old(self).type_families_chirho,
                self.given_rewrites_chirho == old(self).given_rewrites_chirho,
                self.scoped_tyvars_chirho == old(self).scoped_tyvars_chirho,
                self.con_field_names_chirho == old(self).con_field_names_chirho,
                self.diagnostics_chirho == old(self).diagnostics_chirho,
                self.scope_stack_chirho == old(self).scope_stack_chirho,
                    decreases elements_chirho.len() - k,
                {
                    elem_tys_chirho.push(TyChirho::VarChirho(TyVarChirho(self.next_var_chirho)));
                    self.next_var_chirho = self.next_var_chirho + 1;
                    k = k + 1;
                }
                let ghost goal = bind_indexed(cf, env0, n0 + elements_chirho@.len(), elements_chirho@, n0);
                let mut i: usize = 0;
                proof { assert(elements_chirho@.take(0) =~= Seq::<PatChirho>::empty()); }
                while i < elements_chirho.len()
                    invariant
                        i <= elements_chirho.len(),
                        elem_tys_chirho@.len() == elements_chirho@.len(),
                        forall|j: int| 0 <= j < elements_chirho@.len() ==> (#[trigger] elem_tys_chirho@[j])@ == TyV::Var((n0 + j) as u32),
                        goal == bind_indexed(cf, env0, n0 + elements_chirho@.len(), elements_chirho@, n0),
                        goal.1 <= u32::MAX,
                        (self.env_chirho.map(), self.next_var_chirho as nat)
                            == bind_indexed(cf, env0, n0 + elements_chirho@.len(), elements_chirho@.take(i as int), n0),
                cf == self.con_field_names_chirho@,
                self.class_env_chirho == old(self).class_env_chirho,
                self.deferred_preds_chirho == old(self).deferred_preds_chirho,
                self.type_synonyms_chirho == old(self).type_synonyms_chirho,
                self.type_families_chirho == old(self).type_families_chirho,
                self.given_rewrites_chirho == old(self).given_rewrites_chirho,
                self.scoped_tyvars_chirho == old(self).scoped_tyvars_chirho,
                self.con_field_names_chirho == old(self).con_field_names_chirho,
                self.diagnostics_chirho == old(self).diagnostics_chirho,
                self.scope_stack_chirho == old(self).scope_stack_chirho,
                    decreases elements_chirho.len() - i,
                {
                    proof {
                        assert(decreases_to!(*pat_chirho => elements_chirho@[i as int]));
                        let t = elements_chirho@.take(i + 1);
                        assert(t.drop_last() =~= elements_chirho@.take(i as int));
                        assert(t.last() == elements_chirho@[i as int]);
                        lemma_bind_indexed_prefix(cf, env0, n0 + elements_chirho@.len(), elements_chirho@, n0, i + 1);
                    }
                    self.bind_pat_chirho(&elements_chirho[i], &elem_tys_chirho[i]);
                    i = i + 1;
                }
                proof { assert(elements_chirho@.take(i as int) =~= elements_chirho@); }
            },
            PatChirho::ConChirho { args_chirho, .. } => {
                let mut i: usize = 0;
                proof { assert(args_chirho@.take(0) =~= Seq::<PatChirho>::empty()); }
                while i < args_chirho.len()
                    invariant
                        i <= args_chirho.len(),
                        bind_fresh_each(cf, env0, n0, args_chirho@).1 <= u32::MAX,
                        (self.env_chirho.map(), self.next_var_chirho as nat) == bind_fresh_each(cf, env0, n0, args_chirho@.take(i as int)),
                cf == self.con_field_names_chirho@,
                self.class_env_chirho == old(self).class_env_chirho,
                self.deferred_preds_chirho == old(self).deferred_preds_chirho,
                self.type_synonyms_chirho == old(self).type_synonyms_chirho,
                self.type_families_chirho == old(self).type_families_chirho,
                self.given_rewrites_chirho == old(self).given_rewrites_chirho,
                self.scoped_tyvars_chirho == old(self).scoped_tyvars_chirho,
                self.con_field_names_chirho == old(self).con_field_names_chirho,
                self.diagnostics_chirho == old(self).diagnostics_chirho,
                self.scope_stack_chirho == old(self).scope_stack_chirho,
                    decreases args_chirho.len() - i,
                {
                    proof {
                        assert(decreases_to!(*pat_chirho => args_chirho@[i as int]));
                        let t = args_chirho@.take(i + 1);
                        assert(t.drop_last() =~= args_chirho@.take(i as int));
                        assert(t.last() == args_chirho@[i as int]);
                        lemma_bind_fresh_each_prefix(cf, env0, n0, args_chirho@, i + 1);
                        lemma_bind_pat_grows(cf, self.env_chirho.map(), (self.next_var_chirho + 1) as nat, t.last(), TyV::Var(self.next_var_chirho));
                    }
                    let fresh_chirho = TyChirho::VarChirho(TyVarChirho(self.next_var_chirho));
                    self.next_var_chirho = self.next_var_chirho + 1;
                    self.bind_pat_chirho(&args_chirho[i], &fresh_chirho);
                    i = i + 1;
                }
                proof { assert(args_chirho@.take(i as int) =~= args_chirho@); }
            },
            PatChirho::RecordChirho { con_chirho, fields_chirho, has_wildcard_chirho } => {
                let ghost fs = fields_chirho@;
                let mut i: usize = 0;
                proof {
                    assert(fs.take(0) =~= Seq::<FieldPatChirho>::empty());
                    lemma_bind_fields_grows(cf, env0, n0, fs);
                    let (e1, n1) = bind_fields(cf, env0, n0, fs);
                    if *has_wildcard_chirho && con_fields(cf, con_chirho.text_chirho@) is Some {
                        lemma_bind_rest_grows(e1, n1, con_fields(cf, con_chirho.text_chirho@)->0, field_names(fs));
                    }
                }
                while i < fields_chirho.len()
                    invariant
                        i <= fields_chirho.len(),
                        fs == fields_chirho@,
                        bind_fields(cf, env0, n0, fs).1 <= bind_pat(cf, env0, n0, *pat_chirho, ty_chirho@).1,
                        bind_pat(cf, env0, n0, *pat_chirho, ty_chirho@).1 <= u32::MAX,
                        (self.env_chirho.map(), self.next_var_chirho as nat) == bind_fields(cf, env0, n0, fs.take(i as int)),
                cf == self.con_field_names_chirho@,
                self.class_env_chirho == old(self).class_env_chirho,
                self.deferred_preds_chirho == old(self).deferred_preds_chirho,
                self.type_synonyms_chirho == old(self).type_synonyms_chirho,
                self.type_families_chirho == old(self).type_families_chirho,
                self.given_rewrites_chirho == old(self).given_rewrites_chirho,
                self.scoped_tyvars_chirho == old(self).scoped_tyvars_chirho,
                self.con_field_names_chirho == old(self).con_field_names_chirho,
                self.diagnostics_chirho == old(self).diagnostics_chirho,
                self.scope_stack_chirho == old(self).scope_stack_chirho,
                    decreases fields_chirho.len() - i,
                {
                    proof {
                        assert(decreases_to!(*pat_chirho => fields_chirho@[i as int].pattern_chirho));
                        let t = fs.take(i + 1);
                        assert(t.drop_last() =~= fs.take(i as int));
                        assert(t.last() == fs[i as int]);
                        lemma_bind_fields_prefix(cf, env0, n0, fs, i + 1);
                        lemma_bind_pat_grows(cf, self.env_chirho.map(), (self.next_var_chirho + 1) as nat, t.last().pattern_chirho,
                            TyV::Var(self.next_var_chirho));
                    }
                    let fresh_chirho = TyChirho::VarChirho(TyVarChirho(self.next_var_chirho));
                    self.next_var_chirho = self.next_var_chirho + 1;
                    self.bind_pat_chirho(&fields_chirho[i].pattern_chirho, &fresh_chirho);
                    i = i + 1;
                }
                proof { assert(fs.take(i as int) =~= fs); }
                if *has_wildcard_chirho {
                    proof { lemma_first_pos(names_of(cf), con_chirho.text_chirho@); }
                    match find_name_chirho(&self.con_field_names_chirho, con_chirho.text_chirho.as_str()) {
                        Some(k) => {
                            let all_chirho = copy_strings_chirho(&self.con_field_names_chirho[k].1);
                            let ghost names = strs(all_chirho@);
                            let ghost explicit = field_names(fs);
                            let ghost e1 = self.env_chirho.map();
                            let ghost n1 = self.next_var_chirho as nat;
                            let mut j: usize = 0;
                            proof {
                                assert(names.take(0) =~= Seq::<Seq<char>>::empty());
                                assert(con_fields(cf, con_chirho.text_chirho@) == Some(names));
                                lemma_bind_rest_grows(e1, n1, names, explicit);
                            }
                            while j < all_chirho.len()
                                invariant
                                    j <= all_chirho.len(),
                                    names == strs(all_chirho@),
                                    bind_rest(e1, n1, names, explicit).1 <= u32::MAX,
                                    (self.env_chirho.map(), self.next_var_chirho as nat) == bind_rest(e1, n1, names.take(j as int), explicit),
                                    explicit == field_names(fields_chirho@),
                cf == self.con_field_names_chirho@,
                self.class_env_chirho == old(self).class_env_chirho,
                self.deferred_preds_chirho == old(self).deferred_preds_chirho,
                self.type_synonyms_chirho == old(self).type_synonyms_chirho,
                self.type_families_chirho == old(self).type_families_chirho,
                self.given_rewrites_chirho == old(self).given_rewrites_chirho,
                self.scoped_tyvars_chirho == old(self).scoped_tyvars_chirho,
                self.con_field_names_chirho == old(self).con_field_names_chirho,
                self.diagnostics_chirho == old(self).diagnostics_chirho,
                self.scope_stack_chirho == old(self).scope_stack_chirho,
                                decreases all_chirho.len() - j,
                            {
                                proof {
                                    let t = names.take(j + 1);
                                    assert(t.drop_last() =~= names.take(j as int));
                                    assert(t.last() == all_chirho@[j as int]@);
                                    lemma_bind_rest_prefix(e1, n1, names, explicit, j + 1);
                                }
                                if !field_spelled_chirho(fields_chirho, all_chirho[j].as_str()) {
                                    let fresh_chirho = TyChirho::VarChirho(TyVarChirho(self.next_var_chirho));
                                    self.next_var_chirho = self.next_var_chirho + 1;
                                    self.env_chirho.bind_chirho(all_chirho[j].clone(), SchemeChirho::mono_chirho(fresh_chirho));
                                }
                                j = j + 1;
                            }
                            proof { assert(names.take(j as int) =~= names); }
                        },
                        None => {},
                    }
                }
            },
            PatChirho::InfixConChirho { left_chirho, right_chirho } => {
                proof {
                    lemma_bind_pat_grows(cf, env0, n0 + 2, **left_chirho, TyV::Var(n0 as u32));
                    let (e1, n1) = bind_pat(cf, env0, n0 + 2, **left_chirho, TyV::Var(n0 as u32));
                    lemma_bind_pat_grows(cf, e1, n1, **right_chirho, TyV::Var((n0 + 1) as u32));
                }
                let left_ty_chirho = TyChirho::VarChirho(TyVarChirho(self.next_var_chirho));
                let right_ty_chirho = TyChirho::VarChirho(TyVarChirho(self.next_var_chirho + 1));
                self.next_var_chirho = self.next_var_chirho + 2;
                self.bind_pat_chirho(left_chirho, &left_ty_chirho);
                self.bind_pat_chirho(right_chirho, &right_ty_chirho);
            },
            PatChirho::ListChirho { elements_chirho } => {
                let elem_ty_chirho = TyChirho::VarChirho(TyVarChirho(self.next_var_chirho));
                proof { lemma_bind_same_each_grows(cf, env0, n0 + 1, elements_chirho@, TyV::Var(n0 as u32)); }
                self.next_var_chirho = self.next_var_chirho + 1;
                let ghost t0 = elem_ty_chirho@;
                let mut i: usize = 0;
                proof { assert(elements_chirho@.take(0) =~= Seq::<PatChirho>::empty()); }
                while i < elements_chirho.len()
                    invariant
                        i <= elements_chirho.len(),
                        t0 == elem_ty_chirho@,
                        t0 == TyV::Var(n0 as u32),
                        bind_same_each(cf, env0, n0 + 1, elements_chirho@, t0).1 <= u32::MAX,
                        (self.env_chirho.map(), self.next_var_chirho as nat) == bind_same_each(cf, env0, n0 + 1, elements_chirho@.take(i as int), t0),
                cf == self.con_field_names_chirho@,
                self.class_env_chirho == old(self).class_env_chirho,
                self.deferred_preds_chirho == old(self).deferred_preds_chirho,
                self.type_synonyms_chirho == old(self).type_synonyms_chirho,
                self.type_families_chirho == old(self).type_families_chirho,
                self.given_rewrites_chirho == old(self).given_rewrites_chirho,
                self.scoped_tyvars_chirho == old(self).scoped_tyvars_chirho,
                self.con_field_names_chirho == old(self).con_field_names_chirho,
                self.diagnostics_chirho == old(self).diagnostics_chirho,
                self.scope_stack_chirho == old(self).scope_stack_chirho,
                    decreases elements_chirho.len() - i,
                {
                    proof {
                        assert(decreases_to!(*pat_chirho => elements_chirho@[i as int]));
                        let t = elements_chirho@.take(i + 1);
                        assert(t.drop_last() =~= elements_chirho@.take(i as int));
                        assert(t.last() == elements_chirho@[i as int]);
                        lemma_bind_same_each_prefix(cf, env0, n0 + 1, elements_chirho@, t0, i + 1);
                    }
                    self.bind_pat_chirho(&elements_chirho[i], &elem_ty_chirho);
                    i = i + 1;
                }
                proof { assert(elements_chirho@.take(i as int) =~= elements_chirho@); }
            },
            PatChirho::ParenChirho { inner_chirho } => self.bind_pat_chirho(inner_chirho, ty_chirho),
            PatChirho::LazyChirho { inner_chirho } => self.bind_pat_chirho(inner_chirho, ty_chirho),
            PatChirho::BangChirho { inner_chirho } => self.bind_pat_chirho(inner_chirho, ty_chirho),
            PatChirho::ViewChirho { pat_chirho: inner_pat_chirho } => {
                let result_ty_chirho = TyChirho::VarChirho(TyVarChirho(self.next_var_chirho));
                proof { lemma_bind_pat_grows(cf, env0, n0 + 1, **inner_pat_chirho, TyV::Var(n0 as u32)); }
                self.next_var_chirho = self.next_var_chirho + 1;
                self.bind_pat_chirho(inner_pat_chirho, &result_ty_chirho);
            },
            PatChirho::TypeAnnotChirho { pat_chirho: inner_pat_chirho } => self.bind_pat_chirho(inner_pat_chirho, ty_chirho),
            _ => {},
        }
    }
}

/// A copy of a list of strings.
fn copy_strings_chirho(ss: &Vec<String>) -> (r: Vec<String>)
    ensures
        strs(r@) == strs(ss@),
{
    let mut out: Vec<String> = Vec::new();
    let mut i: usize = 0;
    while i < ss.len()
        invariant
            i <= ss.len(),
            out@.len() == i,
            forall|j: int| 0 <= j < i ==> (#[trigger] out@[j])@ == ss@[j]@,
        decreases ss.len() - i,
    {
        out.push(ss[i].clone());
        i = i + 1;
    }
    proof { assert(strs(out@) =~= strs(ss@)); }
    out
}


/// The variables a pattern names: plain variables, `as` names, and those of
/// its parts (elements, arguments, field patterns, both sides of an infix
/// constructor, and the pattern under parentheses, `~`, `!`, a view or an
/// annotation).
pub open spec fn pat_vars(p: PatChirho) -> Set<Seq<char>>
    decreases p, 0nat,
{
    match p {
        PatChirho::VarChirho(n) => set![n.text_chirho@],
        PatChirho::AsChirho { name_chirho, pattern_chirho } => pat_vars(*pattern_chirho).insert(name_chirho.text_chirho@),
        PatChirho::TupleChirho { elements_chirho } => pats_vars(elements_chirho@),
        PatChirho::ConChirho { args_chirho, .. } => pats_vars(args_chirho@),
        PatChirho::RecordChirho { fields_chirho, .. } => field_pats_vars(fields_chirho@),
        PatChirho::InfixConChirho { left_chirho, right_chirho } => pat_vars(*left_chirho).union(pat_vars(*right_chirho)),
        PatChirho::ListChirho { elements_chirho } => pats_vars(elements_chirho@),
        PatChirho::ParenChirho { inner_chirho } => pat_vars(*inner_chirho),
        PatChirho::LazyChirho { inner_chirho } => pat_vars(*inner_chirho),
        PatChirho::BangChirho { inner_chirho } => pat_vars(*inner_chirho),
        PatChirho::ViewChirho { pat_chirho } => pat_vars(*pat_chirho),
        PatChirho::TypeAnnotChirho { pat_chirho } => pat_vars(*pat_chirho),
        _ => Set::empty(),
    }
}

pub open spec fn pats_vars(ps: Seq<PatChirho>) -> Set<Seq<char>>
    decreases ps, 0nat,
{
    if ps.len() == 0 {
        Set::empty()
    } else {
        pats_vars(ps.drop_last()).union(pat_vars(ps.last()))
    }
}

pub open spec fn field_pats_vars(fs: Seq<FieldPatChirho>) -> Set<Seq<char>>
    decreases fs, 0nat,
{
    if fs.len() == 0 {
        Set::empty()
    } else {
        field_pats_vars(fs.drop_last()).union(pat_vars(fs.last().pattern_chirho))
    }
}

/// Binding a pattern forgets no name and binds every variable of the
/// pattern, whatever its nesting: afterwards the environment binds what it
/// bound before and each name of [`pat_vars`].
pub proof fn lemma_bind_pat_binds_its_variables(cf: Seq<(String, Vec<String>)>, env: Map<Seq<char>, SchemeV>, next: nat, p: PatChirho, t: TyV)
    ensures
        forall|n: Seq<char>| env.dom().contains(n) || pat_vars(p).contains(n) ==> #[trigger] bind_pat(cf, env, next, p, t).0.dom().contains(n),
    decreases p, 0nat,
{
    let r = bind_pat(cf, env, next, p, t).0;
    match p {
        PatChirho::VarChirho(v) => {},
        PatChirho::AsChirho { name_chirho, pattern_chirho } => {
            let e0 = env.insert(name_chirho.text_chirho@, mono_v(t));
            lemma_bind_pat_binds_its_variables(cf, e0, next, *pattern_chirho, t);
            assert forall|n: Seq<char>| env.dom().contains(n) || pat_vars(p).contains(n) implies #[trigger] r.dom().contains(n) by {
                assert(e0.dom().contains(n) || pat_vars(*pattern_chirho).contains(n));
                assert(bind_pat(cf, e0, next, *pattern_chirho, t).0.dom().contains(n));
            }
        },
        PatChirho::TupleChirho { elements_chirho } => {
            lemma_bind_indexed_binds(cf, env, next + elements_chirho@.len(), elements_chirho@, next);
            assert forall|n: Seq<char>| env.dom().contains(n) || pat_vars(p).contains(n) implies #[trigger] r.dom().contains(n) by {
                assert(bind_indexed(cf, env, next + elements_chirho@.len(), elements_chirho@, next).0.dom().contains(n));
            }
        },
        PatChirho::ConChirho { args_chirho, .. } => {
            lemma_bind_fresh_each_binds(cf, env, next, args_chirho@);
            assert forall|n: Seq<char>| env.dom().contains(n) || pat_vars(p).contains(n) implies #[trigger] r.dom().contains(n) by {
                assert(bind_fresh_each(cf, env, next, args_chirho@).0.dom().contains(n));
            }
        },
        PatChirho::RecordChirho { con_chirho, fields_chirho, has_wildcard_chirho } => {
            lemma_bind_fields_binds(cf, env, next, fields_chirho@);
            let (e1, n1) = bind_fields(cf, env, next, fields_chirho@);
            if has_wildcard_chirho && con_fields(cf, con_chirho.text_chirho@) is Some {
                let names = con_fields(cf, con_chirho.text_chirho@)->0;
                lemma_bind_rest_keeps(e1, n1, names, field_names(fields_chirho@));
                assert forall|n: Seq<char>| env.dom().contains(n) || pat_vars(p).contains(n) implies #[trigger] r.dom().contains(n) by {
                    assert(bind_fields(cf, env, next, fields_chirho@).0.dom().contains(n));
                    assert(bind_rest(e1, n1, names, field_names(fields_chirho@)).0.dom().contains(n));
                }
            } else {
                assert forall|n: Seq<char>| env.dom().contains(n) || pat_vars(p).contains(n) implies #[trigger] r.dom().contains(n) by {
                    assert(bind_fields(cf, env, next, fields_chirho@).0.dom().contains(n));
                }
            }
        },
        PatChirho::InfixConChirho { left_chirho, right_chirho } => {
            let tl = TyV::Var(next as u32);
            let tr = TyV::Var((next + 1) as u32);
            lemma_bind_pat_binds_its_variables(cf, env, next + 2, *left_chirho, tl);
            let (e1, n1) = bind_pat(cf, env, next + 2, *left_chirho, tl);
            lemma_bind_pat_binds_its_variables(cf, e1, n1, *right_chirho, tr);
            assert forall|n: Seq<char>| env.dom().contains(n) || pat_vars(p).contains(n) implies #[trigger] r.dom().contains(n) by {
                if env.dom().contains(n) || pat_vars(*left_chirho).contains(n) {
                    assert(bind_pat(cf, env, next + 2, *left_chirho, tl).0.dom().contains(n));
                }
                assert(bind_pat(cf, e1, n1, *right_chirho, tr).0.dom().contains(n));
            }
        },
        PatChirho::ListChirho { elements_chirho } => {
            let te = TyV::Var(next as u32);
            lemma_bind_same_each_binds(cf, env, next + 1, elements_chirho@, te);
            assert forall|n: Seq<char>| env.dom().contains(n) || pat_vars(p).contains(n) implies #[trigger] r.dom().contains(n) by {
                assert(bind_same_each(cf, env, next + 1, elements_chirho@, te).0.dom().contains(n));
            }
        },
        PatChirho::ParenChirho { inner_chirho } => {
            lemma_bind_pat_binds_its_variables(cf, env, next, *inner_chirho, t);
            assert forall|n: Seq<char>| env.dom().contains(n) || pat_vars(p).contains(n) implies #[trigger] r.dom().contains(n) by {
                assert(bind_pat(cf, env, next, *inner_chirho, t).0.dom().contains(n));
            }
        },
        PatChirho::LazyChirho { inner_chirho } => {
            lemma_bind_pat_binds_its_variables(cf, env, next, *inner_chirho, t);
            assert forall|n: Seq<char>| env.dom().contains(n) || pat_vars(p).contains(n) implies #[trigger] r.dom().contains(n) by {
                assert(bind_pat(cf, env, next, *inner_chirho, t).0.dom().contains(n));
            }
        },
        PatChirho::BangChirho { inner_chirho } => {
            lemma_bind_pat_binds_its_variables(cf, env, next, *inner_chirho, t);
            assert forall|n: Seq<char>| env.dom().contains(n) || pat_vars(p).contains(n) implies #[trigger] r.dom().contains(n) by {
                assert(bind_pat(cf, env, next, *inner_chirho, t).0.dom().contains(n));
            }
        },
        PatChirho::ViewChirho { pat_chirho } => {
            let tv = TyV::Var(next as u32);
            lemma_bind_pat_binds_its_variables(cf, env, next + 1, *pat_chirho, tv);
            assert forall|n: Seq<char>| env.dom().contains(n) || pat_vars(p).contains(n) implies #[trigger] r.dom().contains(n) by {
                assert(bind_pat(cf, env, next + 1, *pat_chirho, tv).0.dom().contains(n));
            }
        },
        PatChirho::TypeAnnotChirho { pat_chirho } => {
            lemma_bind_pat_binds_its_variables(cf, env, next, *pat_chirho, t);
            assert forall|n: Seq<char>| env.dom().contains(n) || pat_vars(p).contains(n) implies #[trigger] r.dom().contains(n) by {
                assert(bind_pat(cf, env, next, *pat_chirho, t).0.dom().contains(n));
            }
        },
        _ => {},
    }
}

pub proof fn lemma_bind_indexed_binds(cf: Seq<(String, Vec<String>)>, env: Map<Seq<char>, SchemeV>, next: nat, ps: Seq<PatChirho>, base: nat)
    ensures
        forall|n: Seq<char>| env.dom().contains(n) || pats_vars(ps).contains(n) ==> #[trigger] bind_indexed(cf, env, next, ps, base).0.dom().contains(n),
    decreases ps, 0nat,
{
    if ps.len() > 0 {
        lemma_bind_indexed_binds(cf, env, next, ps.drop_last(), base);
        let (e1, n1) = bind_indexed(cf, env, next, ps.drop_last(), base);
        let tv = TyV::Var((base + ps.len() - 1) as u32);
        lemma_bind_pat_binds_its_variables(cf, e1, n1, ps.last(), tv);
        assert forall|n: Seq<char>| env.dom().contains(n) || pats_vars(ps).contains(n) implies #[trigger] bind_indexed(cf, env, next, ps, base).0.dom().contains(n) by {
            if env.dom().contains(n) || pats_vars(ps.drop_last()).contains(n) {
                assert(bind_indexed(cf, env, next, ps.drop_last(), base).0.dom().contains(n));
            }
            assert(bind_pat(cf, e1, n1, ps.last(), tv).0.dom().contains(n));
        }
    }
}

pub proof fn lemma_bind_fresh_each_binds(cf: Seq<(String, Vec<String>)>, env: Map<Seq<char>, SchemeV>, next: nat, ps: Seq<PatChirho>)
    ensures
        forall|n: Seq<char>| env.dom().contains(n) || pats_vars(ps).contains(n) ==> #[trigger] bind_fresh_each(cf, env, next, ps).0.dom().contains(n),
    decreases ps, 0nat,
{
    if ps.len() > 0 {
        lemma_bind_fresh_each_binds(cf, env, next, ps.drop_last());
        let (e1, n1) = bind_fresh_each(cf, env, next, ps.drop_last());
        let tv = TyV::Var(n1 as u32);
        lemma_bind_pat_binds_its_variables(cf, e1, n1 + 1, ps.last(), tv);
        assert forall|n: Seq<char>| env.dom().contains(n) || pats_vars(ps).contains(n) implies #[trigger] bind_fresh_each(cf, env, next, ps).0.dom().contains(n) by {
            if env.dom().contains(n) || pats_vars(ps.drop_last()).contains(n) {
                assert(bind_fresh_each(cf, env, next, ps.drop_last()).0.dom().contains(n));
            }
            assert(bind_pat(cf, e1, n1 + 1, ps.last(), tv).0.dom().contains(n));
        }
    }
}

pub proof fn lemma_bind_fields_binds(cf: Seq<(String, Vec<String>)>, env: Map<Seq<char>, SchemeV>, next: nat, fs: Seq<FieldPatChirho>)
    ensures
        forall|n: Seq<char>| env.dom().contains(n) || field_pats_vars(fs).contains(n) ==> #[trigger] bind_fields(cf, env, next, fs).0.dom().contains(n),
    decreases fs, 0nat,
{
    if fs.len() > 0 {
        lemma_bind_fields_binds(cf, env, next, fs.drop_last());
        let (e1, n1) = bind_fields(cf, env, next, fs.drop_last());
        let tv = TyV::Var(n1 as u32);
        lemma_bind_pat_binds_its_variables(cf, e1, n1 + 1, fs.last().pattern_chirho, tv);
        assert forall|n: Seq<char>| env.dom().contains(n) || field_pats_vars(fs).contains(n) implies #[trigger] bind_fields(cf, env, next, fs).0.dom().contains(n) by {
            if env.dom().contains(n) || field_pats_vars(fs.drop_last()).contains(n) {
                assert(bind_fields(cf, env, next, fs.drop_last()).0.dom().contains(n));
            }
            assert(bind_pat(cf, e1, n1 + 1, fs.last().pattern_chirho, tv).0.dom().contains(n));
        }
    }
}

pub proof fn lemma_bind_same_each_binds(cf: Seq<(String, Vec<String>)>, env: Map<Seq<char>, SchemeV>, next: nat, ps: Seq<PatChirho>, t: TyV)
    ensures
        forall|n: Seq<char>| env.dom().contains(n) || pats_vars(ps).contains(n) ==> #[trigger] bind_same_each(cf, env, next, ps, t).0.dom().contains(n),
    decreases ps, 0nat,
{
    if ps.len() > 0 {
        lemma_bind_same_each_binds(cf, env, next, ps.drop_last(), t);
        let (e1, n1) = bind_same_each(cf, env, next, ps.drop_last(), t);
        lemma_bind_pat_binds_its_variables(cf, e1, n1, ps.last(), t);
        assert forall|n: Seq<char>| env.dom().contains(n) || pats_vars(ps).contains(n) implies #[trigger] bind_same_each(cf, env, next, ps, t).0.dom().contains(n) by {
            if env.dom().contains(n) || pats_vars(ps.drop_last()).contains(n) {
                assert(bind_same_each(cf, env, next, ps.drop_last(), t).0.dom().contains(n));
            }
            assert(bind_pat(cf, e1, n1, ps.last(), t).0.dom().contains(n));
        }
    }
}

pub proof fn lemma_bind_rest_keeps(env: Map<Seq<char>, SchemeV>, next: nat, names: Seq<Seq<char>>, explicit: Seq<Seq<char>>)
    ensures
        forall|n: Seq<char>| env.dom().contains(n) ==> #[trigger] bind_rest(env, next, names, explicit).0.dom().contains(n),
    decreases names.len(),
{
    if names.len() > 0 {
        lemma_bind_rest_keeps(env, next, names.drop_last(), explicit);
        assert forall|n: Seq<char>| env.dom().contains(n) implies #[trigger] bind_rest(env, next, names, explicit).0.dom().contains(n) by {
            assert(bind_rest(env, next, names.drop_last(), explicit).0.dom().contains(n));
        }
    }
}

}
