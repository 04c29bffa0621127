//! The type family environment: each family's equations in the order they
//! were registered, and reduction of a family application by the first
//! equation whose patterns match.
use vstd::prelude::*;
use crate::names_chirho::{find_name_chirho, first_pos, lemma_first_pos, lemma_first_pos_push, lemma_first_pos_update, names_of};
use crate::ty_chirho::{copy_tys_chirho, lemma_tys_view, tys_view, TyChirho, TyV};
use crate::type_level_chirho::{match_type_pattern_chirho, pmatch_seq, subst_vars, substitute_type_vars_chirho, TypeBindingsChirho};

verus! {

/// An equation: argument patterns and right-hand side.
pub type EquationV = (Seq<TyV>, TyV);

pub open spec fn eqs_view(es: Seq<(Vec<TyChirho>, TyChirho)>) -> Seq<EquationV> {
    es.map_values(|e: (Vec<TyChirho>, TyChirho)| (tys_view(e.0@), e.1@))
}

/// The bindings with which an equation's patterns match the arguments, if
/// they match (same arity, every pattern matching left to right).
pub open spec fn equation_match(eq: EquationV, args: Seq<TyV>) -> Option<Map<u32, TyV>> {
    if eq.0.len() != args.len() {
        None
    } else {
        pmatch_seq(eq.0, args, Map::empty())
    }
}

/// The reduct of `F args` under the equations `eqs`: the right-hand side of
/// the first matching equation, instantiated with its bindings.
pub open spec fn reduce_eqs(eqs: Seq<EquationV>, args: Seq<TyV>) -> Option<TyV>
    decreases eqs.len(),
{
    if eqs.len() == 0 {
        None
    } else {
        match equation_match(eqs[0], args) {
            Some(b) => Some(subst_vars(eqs[0].1, b)),
            None => reduce_eqs(eqs.drop_first(), args),
        }
    }
}

/// Type family name → equations, in registration order.
pub struct FamilyTableChirho {
    entries_chirho: Vec<(String, Vec<(Vec<TyChirho>, TyChirho)>)>,
}

impl FamilyTableChirho {
    pub closed spec fn map(&self) -> Map<Seq<char>, Seq<EquationV>> {
        Map::new(
            |n: Seq<char>| first_pos(names_of(self.entries_chirho@), n) >= 0,
            |n: Seq<char>| eqs_view(self.entries_chirho@[first_pos(names_of(self.entries_chirho@), n)].1@),
        )
    }

    /// The equations of `name`, none if it is not registered.
    pub open spec fn equations(&self, name: Seq<char>) -> Seq<EquationV> {
        if self.map().dom().contains(name) { self.map()[name] } else { Seq::empty() }
    }

    /// An empty table.
    pub fn new_chirho() -> (r: FamilyTableChirho)
        ensures
            r.map() == Map::<Seq<char>, Seq<EquationV>>::empty(),
    {
        let r = FamilyTableChirho { entries_chirho: Vec::new() };
        proof {
            assert(names_of(r.entries_chirho@) =~= Seq::<Seq<char>>::empty());
            assert(r.map() =~= Map::<Seq<char>, Seq<EquationV>>::empty());
        }
        r
    }

    /// Whether no family is registered.
    pub fn is_empty_chirho(&self) -> (r: bool)
        ensures
            r == (self.map().dom() =~= Set::<Seq<char>>::empty()),
    {
        proof {
            if self.entries_chirho@.len() > 0 {
                let n = self.entries_chirho@[0].0@;
                lemma_first_pos(names_of(self.entries_chirho@), n);
                assert(names_of(self.entries_chirho@)[0] == n);
                assert(self.map().dom().contains(n));
            } else {
                assert forall|n: Seq<char>| !self.map().dom().contains(n) by {
                    lemma_first_pos(names_of(self.entries_chirho@), n);
                }
            }
        }
        self.entries_chirho.len() == 0
    }

    /// Whether `name` is registered.
    pub fn contains_chirho(&self, name_chirho: &str) -> (r: bool)
        ensures
            r == self.map().dom().contains(name_chirho@),
    {
        find_name_chirho(&self.entries_chirho, name_chirho).is_some()
    }

    /// Appends equations to `name` (registering it when new).
    pub fn extend_chirho(&mut self, name_chirho: String, equations_chirho: Vec<(Vec<TyChirho>, TyChirho)>)
        ensures
            final(self).map() == old(self).map().insert(name_chirho@, old(self).equations(name_chirho@) + eqs_view(equations_chirho@)),
    {
        let ghost old_map = self.map();
        let ghost ns = names_of(self.entries_chirho@);
        let ghost n = name_chirho@;
        let ghost added = eqs_view(equations_chirho@);
        proof { lemma_first_pos(ns, n); }
        match find_name_chirho(&self.entries_chirho, name_chirho.as_str()) {
            Some(k) => {
                let ghost old_entries = self.entries_chirho@;
                let mut entry: (String, Vec<(Vec<TyChirho>, TyChirho)>) = (String::new(), Vec::new());
                std::mem::swap(&mut entry, &mut self.entries_chirho[k]);
                let mut eqs = entry.1;
                let mut more = equations_chirho;
                let ghost before = eqs_view(eqs@);
                let ghost more_v = eqs_view(more@);
                eqs.append(&mut more);
                proof { assert(eqs_view(eqs@) =~= before + more_v); }
                let mut put: (String, Vec<(Vec<TyChirho>, TyChirho)>) = (entry.0, eqs);
                std::mem::swap(&mut put, &mut self.entries_chirho[k]);
                proof {
                    assert(self.entries_chirho@ == old_entries.update(k as int, self.entries_chirho@[k as int]));
                    assert(names_of(self.entries_chirho@) =~= ns.update(k as int, n));
                    assert forall|m: Seq<char>| #[trigger] first_pos(names_of(self.entries_chirho@), m) == first_pos(ns, m) by {
                        lemma_first_pos_update(ns, k as int, n, m);
                    }
                    assert forall|m: Seq<char>| #[trigger] self.map().dom().contains(m) implies
                        self.map()[m] == old_map.insert(n, before + more_v)[m] by {
                        lemma_first_pos(ns, m);
                        if m != n {
                            assert(first_pos(ns, m) != k);
                        }
                    }
                    assert(self.map() =~= old_map.insert(n, old_map[n] + added));
                }
            }
            None => {
                let ghost old_entries = self.entries_chirho@;
                self.entries_chirho.push((name_chirho, equations_chirho));
                proof {
                    assert(names_of(self.entries_chirho@) =~= ns.push(n));
                    assert forall|m: Seq<char>| #[trigger] self.map().dom().contains(m) == old_map.insert(n, added).dom().contains(m) by {
                        lemma_first_pos_push(ns, n, m);
                        lemma_first_pos(ns, m);
                    }
                    assert forall|m: Seq<char>| #[trigger] self.map().dom().contains(m) implies self.map()[m] == old_map.insert(n, added)[m] by {
                        lemma_first_pos_push(ns, n, m);
                        lemma_first_pos(ns, m);
                        if m != n {
                            assert(self.entries_chirho@[first_pos(ns, m)] == old_entries[first_pos(ns, m)]);
                        }
                    }
                    assert(Seq::<EquationV>::empty() + added =~= added);
                    assert(self.map() =~= old_map.insert(n, Seq::<EquationV>::empty() + added));
                }
            }
        }
    }

    /// Reduces `name args` by the first of its equations that matches.
    pub fn reduce_chirho(&self, name_chirho: &str, args_chirho: &Vec<TyChirho>) -> (r: Option<TyChirho>)
        ensures
            match r {
                Some(t) => reduce_eqs(self.equations(name_chirho@), tys_view(args_chirho@)) == Some(t@),
                None => reduce_eqs(self.equations(name_chirho@), tys_view(args_chirho@)) is None,
            },
    {
        let k = match find_name_chirho(&self.entries_chirho, name_chirho) {
            Some(k) => k,
            None => {
                proof { lemma_first_pos(names_of(self.entries_chirho@), name_chirho@); }
                return None;
            }
        };
        proof { lemma_first_pos(names_of(self.entries_chirho@), name_chirho@); }
        let equations_chirho = &self.entries_chirho[k].1;
        let ghost ev = eqs_view(equations_chirho@);
        let ghost av = tys_view(args_chirho@);
        proof {
            assert(self.equations(name_chirho@) == ev);
            assert(ev.skip(0) =~= ev);
            lemma_tys_view(args_chirho@);
        }
        let mut i: usize = 0;
        while i < equations_chirho.len()
            invariant
                i <= equations_chirho.len(),
                ev == eqs_view(equations_chirho@),
                ev == self.equations(name_chirho@),
                av == tys_view(args_chirho@),
                av.len() == args_chirho@.len(),
                reduce_eqs(ev, av) == reduce_eqs(ev.skip(i as int), av),
            decreases equations_chirho.len() - i,
        {
            let (lhs_chirho, rhs_chirho) = (&equations_chirho[i].0, &equations_chirho[i].1);
            let ghost e = ev[i as int];
            proof {
                assert(e == (tys_view(lhs_chirho@), rhs_chirho@));
                assert(ev.skip(i as int)[0] == e);
                assert(ev.skip(i as int).drop_first() =~= ev.skip(i + 1));
                lemma_tys_view(lhs_chirho@);
            }
            if lhs_chirho.len() == args_chirho.len() {
                let mut bindings_chirho = TypeBindingsChirho::new_chirho();
                let matched = match_type_patterns_prefix_chirho(lhs_chirho, args_chirho, &mut bindings_chirho);
                if matched {
                    let out = substitute_type_vars_chirho(rhs_chirho, &bindings_chirho);
                    proof {
                        assert(e.0.len() == av.len());
                        assert(equation_match(e, av) == Some(bindings_chirho.map()));
                        assert(ev.skip(i as int).len() > 0);
                        assert(reduce_eqs(ev.skip(i as int), av) == Some(subst_vars(e.1, bindings_chirho.map())));
                    }
                    return Some(out);
                }
            }
            i = i + 1;
        }
        None
    }
}

/// Matches patterns against arguments of the same number, left to right.
fn match_type_patterns_prefix_chirho(ps: &Vec<TyChirho>, args: &Vec<TyChirho>, bindings_chirho: &mut TypeBindingsChirho) -> (r: bool)
    requires
        ps@.len() == args@.len(),
    ensures
        r == pmatch_seq(tys_view(ps@), tys_view(args@), old(bindings_chirho).map()) is Some,
        r ==> final(bindings_chirho).map() == pmatch_seq(tys_view(ps@), tys_view(args@), old(bindings_chirho).map())->0,
{
    crate::type_level_chirho::match_type_patterns_seq_chirho(ps, args, bindings_chirho)
}


/// Equations registered later only apply when no earlier one matches: the
/// reduct under `e1 + e2` is the reduct under `e1` if there is one, else
/// the reduct under `e2`.
pub proof fn lemma_reduce_eqs_append(e1: Seq<EquationV>, e2: Seq<EquationV>, args: Seq<TyV>)
    ensures
        reduce_eqs(e1 + e2, args) == (match reduce_eqs(e1, args) {
            Some(r) => Some(r),
            None => reduce_eqs(e2, args),
        }),
    decreases e1.len(),
{
    if e1.len() == 0 {
        assert(e1 + e2 =~= e2);
    } else {
        assert((e1 + e2)[0] == e1[0]);
        assert((e1 + e2).drop_first() =~= e1.drop_first() + e2);
        lemma_reduce_eqs_append(e1.drop_first(), e2, args);
    }
}


/// Registering equations for family `n` (as `extend_chirho` does): `n`
/// reduces as before where it reduced before, else by the new equations;
/// every other family reduces as before.
pub proof fn lemma_extend_reduce(t1: FamilyTableChirho, t2: FamilyTableChirho, n: Seq<char>, es: Seq<EquationV>, m: Seq<char>, args: Seq<TyV>)
    requires
        t2.map() == t1.map().insert(n, t1.equations(n) + es),
    ensures
        m == n ==> reduce_eqs(t2.equations(m), args) == (match reduce_eqs(t1.equations(n), args) {
            Some(r) => Some(r),
            None => reduce_eqs(es, args),
        }),
        m != n ==> reduce_eqs(t2.equations(m), args) == reduce_eqs(t1.equations(m), args),
{
    lemma_reduce_eqs_append(t1.equations(n), es, args);
}

}
