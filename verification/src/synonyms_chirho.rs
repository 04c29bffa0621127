//! Type synonyms: the table of declared synonyms and their expansion.
use vstd::prelude::*;
use crate::names_chirho::{find_name_chirho, first_pos, lemma_first_pos, lemma_first_pos_push, lemma_first_pos_update, names_of};
use crate::ty_chirho::{lemma_tys_view, lemma_tys_view_push, str_eq_chirho, tys_view, TyChirho, TyV};
use crate::type_level_chirho::{apply_all, collect_app_spine_chirho, spine_args, spine_head};

verus! {

pub open spec fn strings_view(ss: Seq<String>) -> Seq<Seq<char>> {
    ss.map_values(|s: String| s@)
}

/// A synonym: its parameter names and right-hand side.
pub type SynonymV = (Seq<Seq<char>>, TyV);

/// Synonym name → (parameters, right-hand side).
pub struct SynonymTableChirho {
    entries_chirho: Vec<(String, (Vec<String>, TyChirho))>,
}

impl SynonymTableChirho {
    pub closed spec fn map(&self) -> Map<Seq<char>, SynonymV> {
        Map::new(
            |n: Seq<char>| first_pos(names_of(self.entries_chirho@), n) >= 0,
            |n: Seq<char>| {
                let e = self.entries_chirho@[first_pos(names_of(self.entries_chirho@), n)].1;
                (strings_view(e.0@), e.1@)
            },
        )
    }

    /// An empty table.
    pub fn new_chirho() -> (r: SynonymTableChirho)
        ensures
            r.map() == Map::<Seq<char>, SynonymV>::empty(),
    {
        let r = SynonymTableChirho { entries_chirho: Vec::new() };
        proof {
            assert(names_of(r.entries_chirho@) =~= Seq::<Seq<char>>::empty());
            assert(r.map() =~= Map::<Seq<char>, SynonymV>::empty());
        }
        r
    }

    /// Declares (or redeclares) a synonym.
    pub fn insert_chirho(&mut self, name_chirho: String, params_chirho: Vec<String>, rhs_chirho: TyChirho)
        ensures
            final(self).map() == old(self).map().insert(name_chirho@, (strings_view(params_chirho@), rhs_chirho@)),
    {
        let ghost old_map = self.map();
        let ghost ns = names_of(self.entries_chirho@);
        let ghost n = name_chirho@;
        let ghost v = (strings_view(params_chirho@), rhs_chirho@);
        let ghost old_entries = self.entries_chirho@;
        proof { lemma_first_pos(ns, n); }
        match find_name_chirho(&self.entries_chirho, name_chirho.as_str()) {
            Some(k) => {
                let mut put = (name_chirho, (params_chirho, rhs_chirho));
                std::mem::swap(&mut put, &mut self.entries_chirho[k]);
                proof {
                    assert(names_of(self.entries_chirho@) =~= ns.update(k as int, n));
                    assert forall|m: Seq<char>| #[trigger] first_pos(names_of(self.entries_chirho@), m) == first_pos(ns, m) by {
                        lemma_first_pos_update(ns, k as int, n, m);
                    }
                    assert forall|m: Seq<char>| #[trigger] self.map().dom().contains(m) implies self.map()[m] == old_map.insert(n, v)[m] by {
                        lemma_first_pos(ns, m);
                        if m != n {
                            assert(first_pos(ns, m) != k);
                            assert(self.entries_chirho@[first_pos(ns, m)] == old_entries[first_pos(ns, m)]);
                        }
                    }
                    assert(self.map() =~= old_map.insert(n, v));
                }
            }
            None => {
                self.entries_chirho.push((name_chirho, (params_chirho, rhs_chirho)));
                proof {
                    assert(names_of(self.entries_chirho@) =~= ns.push(n));
                    assert forall|m: Seq<char>| #[trigger] self.map().dom().contains(m) == old_map.insert(n, v).dom().contains(m) by {
                        lemma_first_pos_push(ns, n, m);
                        lemma_first_pos(ns, m);
                    }
                    assert forall|m: Seq<char>| #[trigger] self.map().dom().contains(m) implies self.map()[m] == old_map.insert(n, v)[m] by {
                        lemma_first_pos_push(ns, n, m);
                        lemma_first_pos(ns, m);
                        if m != n {
                            assert(self.entries_chirho@[first_pos(ns, m)] == old_entries[first_pos(ns, m)]);
                        }
                    }
                    assert(self.map() =~= old_map.insert(n, v));
                }
            }
        }
    }

    /// The synonym called `name`, if declared.
    pub fn get_chirho(&self, name_chirho: &str) -> (r: Option<(&Vec<String>, &TyChirho)>)
        ensures
            match r {
                Some(e) => self.map().dom().contains(name_chirho@) && self.map()[name_chirho@] == (strings_view(e.0@), e.1@),
                None => !self.map().dom().contains(name_chirho@),
            },
    {
        proof { lemma_first_pos(names_of(self.entries_chirho@), name_chirho@); }
        match find_name_chirho(&self.entries_chirho, name_chirho) {
            Some(k) => Some((&self.entries_chirho[k].1.0, &self.entries_chirho[k].1.1)),
            None => None,
        }
    }
}


/// Simultaneous substitution of synonym parameters: a constructor or
/// parameter spelled `ps[i]` (its first spelling) becomes `args[i]`.
/// Arrows keep their multiplicity.
pub open spec fn subst_params(t: TyV, ps: Seq<Seq<char>>, args: Seq<TyV>) -> TyV
    decreases t,
{
    match t {
        TyV::Con(n) => if 0 <= first_pos(ps, n) < args.len() { args[first_pos(ps, n)] } else { t },
        TyV::ForallVar(n) => if 0 <= first_pos(ps, n) < args.len() { args[first_pos(ps, n)] } else { t },
        TyV::App(f, a) => TyV::App(Box::new(subst_params(*f, ps, args)), Box::new(subst_params(*a, ps, args))),
        TyV::Fun(a, b, m) => TyV::Fun(Box::new(subst_params(*a, ps, args)), Box::new(subst_params(*b, ps, args)), m),
        TyV::List(e) => TyV::List(Box::new(subst_params(*e, ps, args))),
        TyV::Tuple(es) => TyV::Tuple(subst_params_seq(es, ps, args)),
        _ => t,
    }
}

pub open spec fn subst_params_seq(es: Seq<TyV>, ps: Seq<Seq<char>>, args: Seq<TyV>) -> Seq<TyV>
    decreases es,
{
    if es.len() == 0 {
        Seq::empty()
    } else {
        subst_params_seq(es.drop_last(), ps, args).push(subst_params(es.last(), ps, args))
    }
}

/// How many nested synonym expansions are followed before giving up (a guard
/// against cyclic synonyms).
pub const SYNONYM_DEPTH_LIMIT_CHIRHO: usize = 100;

/// Synonym expansion at nesting `depth`: a nullary synonym is replaced by its
/// expanded right-hand side; a saturated (or over-saturated) application of a
/// synonym has its arguments expanded, substituted simultaneously for the
/// parameters, the result expanded, and the surplus arguments applied to it;
/// any other type is expanded part by part. Beyond the depth limit a type is
/// left as it is.
pub open spec fn expand(syn: Map<Seq<char>, SynonymV>, t: TyV, depth: nat) -> TyV
    decreases (SYNONYM_DEPTH_LIMIT_CHIRHO + 1 - depth) as nat, t, 1nat,
{
    if depth > SYNONYM_DEPTH_LIMIT_CHIRHO {
        t
    } else {
        match t {
            TyV::Con(n) => if syn.dom().contains(n) && syn[n].0.len() == 0 {
                expand(syn, syn[n].1, depth + 1)
            } else {
                t
            },
            TyV::App(f, a) => {
                let h = spine_head(t);
                let args = spine_args(t);
                if h is Con && syn.dom().contains(h->Con_0) && args.len() >= syn[h->Con_0].0.len() {
                    let ps = syn[h->Con_0].0;
                    let eargs = expand_seq(syn, args, depth + 1);
                    apply_all(expand(syn, subst_params(syn[h->Con_0].1, ps, eargs), depth + 1), eargs.skip(ps.len() as int))
                } else {
                    TyV::App(Box::new(expand(syn, *f, depth)), Box::new(expand(syn, *a, depth)))
                }
            },
            TyV::Fun(a, b, m) => TyV::Fun(Box::new(expand(syn, *a, depth)), Box::new(expand(syn, *b, depth)), m),
            TyV::List(e) => TyV::List(Box::new(expand(syn, *e, depth))),
            TyV::Tuple(es) => TyV::Tuple(expand_seq(syn, es, depth)),
            _ => t,
        }
    }
}

pub open spec fn expand_seq(syn: Map<Seq<char>, SynonymV>, es: Seq<TyV>, depth: nat) -> Seq<TyV>
    decreases (SYNONYM_DEPTH_LIMIT_CHIRHO + 1 - depth) as nat, es, 0nat,
{
    if es.len() == 0 {
        Seq::empty()
    } else {
        expand_seq(syn, es.drop_last(), depth).push(expand(syn, es.last(), depth))
    }
}


pub proof fn lemma_expand_seq_len(syn: Map<Seq<char>, SynonymV>, es: Seq<TyV>, d: nat)
    ensures
        expand_seq(syn, es, d).len() == es.len(),
        forall|i: int| 0 <= i < es.len() ==> #[trigger] expand_seq(syn, es, d)[i] == expand(syn, es[i], d),
    decreases es.len(),
{
    if es.len() > 0 {
        lemma_expand_seq_len(syn, es.drop_last(), d);
        assert forall|i: int| 0 <= i < es.len() implies #[trigger] expand_seq(syn, es, d)[i] == expand(syn, es[i], d) by {
            if i < es.len() - 1 {
                assert(es.drop_last()[i] == es[i]);
            }
        }
    }
}

/// Position of the first string spelled `name` in `ss`.
pub fn find_string_chirho(ss: &Vec<String>, name_chirho: &str) -> (r: Option<usize>)
    ensures
        match r {
            Some(k) => k == first_pos(strings_view(ss@), name_chirho@),
            None => first_pos(strings_view(ss@), name_chirho@) == -1,
        },
{
    let ghost ns = strings_view(ss@);
    proof { assert(ns.skip(0) =~= ns); }
    let mut i: usize = 0;
    while i < ss.len()
        invariant
            i <= ss.len(),
            ns == strings_view(ss@),
            first_pos(ns, name_chirho@) == (if first_pos(ns.skip(i as int), name_chirho@) < 0 { -1 } else { first_pos(ns.skip(i as int), name_chirho@) + i }),
        decreases ss.len() - i,
    {
        proof {
            assert(ns.skip(i as int)[0] == ss@[i as int]@);
            assert(ns.skip(i as int).drop_first() =~= ns.skip(i + 1));
        }
        if str_eq_chirho(ss[i].as_str(), name_chirho) {
            return Some(i);
        }
        i = i + 1;
    }
    proof { assert(ns.skip(i as int).len() == 0); }
    None
}

fn subst_params_seq_chirho(es: &Vec<TyChirho>, ps: &Vec<String>, args: &Vec<TyChirho>) -> (r: Vec<TyChirho>)
    ensures
        tys_view(r@) == subst_params_seq(tys_view(es@), strings_view(ps@), tys_view(args@)),
    decreases es@, 0nat,
{
    let mut out: Vec<TyChirho> = Vec::new();
    let mut i: usize = 0;
    proof {
        lemma_tys_view(es@);
        assert(tys_view(es@).take(0) =~= Seq::<TyV>::empty());
        assert(tys_view(out@) =~= Seq::<TyV>::empty());
    }
    while i < es.len()
        invariant
            i <= es.len(),
            tys_view(es@).len() == es@.len(),
            forall|j: int| 0 <= j < es@.len() ==> #[trigger] tys_view(es@)[j] == es@[j]@,
            tys_view(out@) == subst_params_seq(tys_view(es@).take(i as int), strings_view(ps@), tys_view(args@)),
        decreases es.len() - i,
    {
        proof { assert(decreases_to!(es@ => es@[i as int])); }
        let e = subst_params_chirho(&es[i], ps, args);
        proof {
            lemma_tys_view_push(out@, e);
            let tv = tys_view(es@);
            assert(tv.take(i + 1).drop_last() =~= tv.take(i as int));
            assert(tv.take(i + 1).last() == es@[i as int]@);
        }
        out.push(e);
        i = i + 1;
    }
    proof { assert(tys_view(es@).take(es@.len() as int) =~= tys_view(es@)); }
    out
}

/// Simultaneously replaces each parameter `ps[i]` by `args[i]`.
pub fn subst_params_chirho(ty_chirho: &TyChirho, ps: &Vec<String>, args: &Vec<TyChirho>) -> (r: TyChirho)
    ensures
        r@ == subst_params(ty_chirho@, strings_view(ps@), tys_view(args@)),
    decreases ty_chirho, 1nat,
{
    proof { lemma_tys_view(args@); }
    match ty_chirho {
        TyChirho::ConChirho(n) | TyChirho::ForallVarChirho(n) => {
            match find_string_chirho(ps, n.as_str()) {
                Some(k) => if k < args.len() { args[k].copy_chirho() } else { ty_chirho.copy_chirho() },
                None => ty_chirho.copy_chirho(),
            }
        }
        TyChirho::AppChirho(f, a) => TyChirho::AppChirho(
            Box::new(subst_params_chirho(f, ps, args)),
            Box::new(subst_params_chirho(a, ps, args)),
        ),
        TyChirho::FunChirho(a, b, m) => TyChirho::FunChirho(
            Box::new(subst_params_chirho(a, ps, args)),
            Box::new(subst_params_chirho(b, ps, args)),
            *m,
        ),
        TyChirho::ListChirho(e) => TyChirho::ListChirho(Box::new(subst_params_chirho(e, ps, args))),
        TyChirho::TupleChirho(es) => TyChirho::TupleChirho(subst_params_seq_chirho(es, ps, args)),
        _ => ty_chirho.copy_chirho(),
    }
}

impl SynonymTableChirho {
    fn expand_seq_chirho(&self, es: &Vec<TyChirho>, depth_chirho: usize) -> (r: Vec<TyChirho>)
        requires
            depth_chirho <= SYNONYM_DEPTH_LIMIT_CHIRHO + 1,
        ensures
            tys_view(r@) == expand_seq(self.map(), tys_view(es@), depth_chirho as nat),
        decreases (SYNONYM_DEPTH_LIMIT_CHIRHO + 1 - depth_chirho) as nat, es@, 0nat,
    {
        let mut out: Vec<TyChirho> = Vec::new();
        let mut i: usize = 0;
        proof {
            lemma_tys_view(es@);
            assert(tys_view(es@).take(0) =~= Seq::<TyV>::empty());
            assert(tys_view(out@) =~= Seq::<TyV>::empty());
        }
        while i < es.len()
            invariant
                i <= es.len(),
                depth_chirho <= SYNONYM_DEPTH_LIMIT_CHIRHO + 1,
                tys_view(es@).len() == es@.len(),
                forall|j: int| 0 <= j < es@.len() ==> #[trigger] tys_view(es@)[j] == es@[j]@,
                tys_view(out@) == expand_seq(self.map(), tys_view(es@).take(i as int), depth_chirho as nat),
            decreases es.len() - i,
        {
            proof { assert(decreases_to!(es@ => es@[i as int])); }
            let e = self.expand_syn_chirho(&es[i], depth_chirho);
            proof {
                lemma_tys_view_push(out@, e);
                let tv = tys_view(es@);
                assert(tv.take(i + 1).drop_last() =~= tv.take(i as int));
                assert(tv.take(i + 1).last() == es@[i as int]@);
            }
            out.push(e);
            i = i + 1;
        }
        proof { assert(tys_view(es@).take(es@.len() as int) =~= tys_view(es@)); }
        out
    }

    /// Expands the synonyms of `ty_chirho` at nesting `depth_chirho`.
    pub fn expand_syn_chirho(&self, ty_chirho: &TyChirho, depth_chirho: usize) -> (r: TyChirho)
        ensures
            r@ == expand(self.map(), ty_chirho@, depth_chirho as nat),
        decreases (SYNONYM_DEPTH_LIMIT_CHIRHO + 1 - depth_chirho) as nat, ty_chirho, 1nat,
    {
        if depth_chirho > SYNONYM_DEPTH_LIMIT_CHIRHO {
            return ty_chirho.copy_chirho();
        }
        match ty_chirho {
            TyChirho::ConChirho(name_chirho) => {
                match self.get_chirho(name_chirho.as_str()) {
                    Some((params_chirho, rhs_chirho)) => {
                        if params_chirho.len() == 0 {
                            self.expand_syn_chirho(rhs_chirho, depth_chirho + 1)
                        } else {
                            ty_chirho.copy_chirho()
                        }
                    }
                    None => ty_chirho.copy_chirho(),
                }
            }
            TyChirho::AppChirho(fun_chirho, arg_chirho) => {
                let (head_chirho, args_chirho) = collect_app_spine_chirho(ty_chirho);
                proof { lemma_tys_view(args_chirho@); }
                if let TyChirho::ConChirho(name_chirho) = &head_chirho {
                    if let Some((params_chirho, rhs_chirho)) = self.get_chirho(name_chirho.as_str()) {
                        if args_chirho.len() >= params_chirho.len() {
                            let expanded_args_chirho = self.expand_seq_chirho(&args_chirho, depth_chirho + 1);
                            let body_chirho = subst_params_chirho(rhs_chirho, params_chirho, &expanded_args_chirho);
                            let mut result_chirho = self.expand_syn_chirho(&body_chirho, depth_chirho + 1);
                            let ghost ev = tys_view(expanded_args_chirho@);
                            let ghost base = result_chirho@;
                            let p = params_chirho.len();
                            proof {
                                lemma_tys_view(expanded_args_chirho@);
                                lemma_expand_seq_len(self.map(), tys_view(args_chirho@), (depth_chirho + 1) as nat);
                                assert(ev.subrange(p as int, p as int) =~= Seq::<TyV>::empty());
                            }
                            let mut j: usize = p;
                            while j < expanded_args_chirho.len()
                                invariant
                                    p <= j <= expanded_args_chirho.len(),
                                    ev == tys_view(expanded_args_chirho@),
                                    ev.len() == expanded_args_chirho@.len(),
                                    forall|k: int| 0 <= k < ev.len() ==> #[trigger] ev[k] == expanded_args_chirho@[k]@,
                                    result_chirho@ == apply_all(base, ev.subrange(p as int, j as int)),
                                decreases expanded_args_chirho.len() - j,
                            {
                                let a = expanded_args_chirho[j].copy_chirho();
                                result_chirho = TyChirho::AppChirho(Box::new(result_chirho), Box::new(a));
                                proof {
                                    assert(ev.subrange(p as int, j + 1).drop_last() =~= ev.subrange(p as int, j as int));
                                }
                                j = j + 1;
                            }
                            proof {
                                assert(ev.subrange(p as int, ev.len() as int) =~= ev.skip(p as int));
                            }
                            return result_chirho;
                        }
                    }
                }
                let ef_chirho = self.expand_syn_chirho(fun_chirho, depth_chirho);
                let ea_chirho = self.expand_syn_chirho(arg_chirho, depth_chirho);
                TyChirho::AppChirho(Box::new(ef_chirho), Box::new(ea_chirho))
            }
            TyChirho::FunChirho(a_chirho, b_chirho, m_chirho) => TyChirho::FunChirho(
                Box::new(self.expand_syn_chirho(a_chirho, depth_chirho)),
                Box::new(self.expand_syn_chirho(b_chirho, depth_chirho)),
                *m_chirho,
            ),
            TyChirho::ListChirho(el_chirho) => TyChirho::ListChirho(
                Box::new(self.expand_syn_chirho(el_chirho, depth_chirho)),
            ),
            TyChirho::TupleChirho(elems_chirho) => TyChirho::TupleChirho(
                self.expand_seq_chirho(elems_chirho, depth_chirho),
            ),
            _ => ty_chirho.copy_chirho(),
        }
    }
}


/// Expansion goes inside tuples, lists, arrows and applications: within the
/// depth limit a tuple expands to the tuple of its expanded elements, a list
/// to the list of its expanded element type, an arrow to the arrow (of the
/// same multiplicity) between its expanded sides, and an application not
/// headed by a saturated synonym to the application of its expanded parts,
/// so no synonym inside them is left behind.
pub proof fn lemma_expand_goes_inside(syn: Map<Seq<char>, SynonymV>, t: TyV, d: nat)
    requires
        d <= SYNONYM_DEPTH_LIMIT_CHIRHO,
    ensures
        match t {
            TyV::Tuple(es) => expand(syn, t, d) == TyV::Tuple(Seq::new(es.len(), |i: int| expand(syn, es[i], d))),
            TyV::List(e) => expand(syn, t, d) == TyV::List(Box::new(expand(syn, *e, d))),
            TyV::Fun(a, b, m) => expand(syn, t, d) == TyV::Fun(Box::new(expand(syn, *a, d)), Box::new(expand(syn, *b, d)), m),
            TyV::App(f, a) => !(spine_head(t) is Con && syn.dom().contains(spine_head(t)->Con_0)
                && spine_args(t).len() >= syn[spine_head(t)->Con_0].0.len())
                ==> expand(syn, t, d) == TyV::App(Box::new(expand(syn, *f, d)), Box::new(expand(syn, *a, d))),
            _ => true,
        },
{
    match t {
        TyV::Tuple(es) => {
            lemma_expand_seq_len(syn, es, d);
            assert(expand_seq(syn, es, d) =~= Seq::new(es.len(), |i: int| expand(syn, es[i], d)));
        },
        _ => {},
    }
}


/// Whether `t` is a nullary synonym's name.
pub open spec fn nullary_synonym(syn: Map<Seq<char>, SynonymV>, t: TyV) -> bool {
    t is Con && syn.dom().contains(t->Con_0) && syn[t->Con_0].0.len() == 0
}

/// Whether the chain of expansions that expansion follows at the top of `t`,
/// from nesting `depth`, ends within the depth limit at something that is
/// not a nullary synonym.
pub open spec fn syn_settles(syn: Map<Seq<char>, SynonymV>, t: TyV, depth: nat) -> bool
    decreases (SYNONYM_DEPTH_LIMIT_CHIRHO + 1 - depth) as nat,
{
    if depth > SYNONYM_DEPTH_LIMIT_CHIRHO {
        !nullary_synonym(syn, t)
    } else {
        match t {
            TyV::Con(n) => if nullary_synonym(syn, t) { syn_settles(syn, syn[n].1, depth + 1) } else { true },
            TyV::App(f, a) => {
                let h = spine_head(t);
                let args = spine_args(t);
                if h is Con && syn.dom().contains(h->Con_0) && args.len() == syn[h->Con_0].0.len() {
                    let ps = syn[h->Con_0].0;
                    syn_settles(syn, subst_params(syn[h->Con_0].1, ps, expand_seq(syn, args, depth + 1)), depth + 1)
                } else {
                    true
                }
            },
            _ => true,
        }
    }
}

/// Expansion leaves no nullary synonym at the top of its result, wherever the
/// chain of expansions it follows ends within the depth limit: a synonym's
/// right-hand side is itself expanded.
pub proof fn lemma_expanded_top_is_no_synonym(syn: Map<Seq<char>, SynonymV>, t: TyV, depth: nat)
    requires
        syn_settles(syn, t, depth),
    ensures
        !nullary_synonym(syn, expand(syn, t, depth)),
    decreases (SYNONYM_DEPTH_LIMIT_CHIRHO + 1 - depth) as nat,
{
    if depth <= SYNONYM_DEPTH_LIMIT_CHIRHO {
        match t {
            TyV::Con(n) => {
                if nullary_synonym(syn, t) {
                    lemma_expanded_top_is_no_synonym(syn, syn[n].1, depth + 1);
                }
            },
            TyV::App(f, a) => {
                let h = spine_head(t);
                let args = spine_args(t);
                if h is Con && syn.dom().contains(h->Con_0) && args.len() >= syn[h->Con_0].0.len() {
                    let ps = syn[h->Con_0].0;
                    let eargs = expand_seq(syn, args, depth + 1);
                    lemma_expand_seq_len(syn, args, depth + 1);
                    let x = expand(syn, subst_params(syn[h->Con_0].1, ps, eargs), depth + 1);
                    if args.len() == ps.len() {
                        lemma_expanded_top_is_no_synonym(syn, subst_params(syn[h->Con_0].1, ps, eargs), depth + 1);
                        assert(eargs.skip(ps.len() as int).len() == 0);
                    } else {
                        assert(eargs.skip(ps.len() as int).len() > 0);
                    }
                }
            },
            _ => {},
        }
    }
}

}
