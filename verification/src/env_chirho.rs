//! Type environments (names → type schemes) and class environments
//! (class names → superclasses).
use vstd::prelude::*;
use crate::subst_chirho::{scheme_apply, SubstChirho};
use crate::synonyms_chirho::strings_view;
use crate::names_chirho::{find_name_chirho, first_pos, lemma_first_pos, lemma_first_pos_push, lemma_first_pos_update, names_of};
use crate::ty_chirho::{add_new, lemma_add_new_concat, lemma_add_new_props, lemma_tys_view, occ, occ_seq, preds_view,
    tys_view, vars_contains_chirho, vars_view, PredV, SchemeChirho, SchemeV, TyChirho, TyV, TyVarChirho};

verus! {

/// Variable occurrences of a predicate (its type, then its extra types).
pub open spec fn pred_occ(p: PredV) -> Seq<u32> {
    occ(p.ty, Seq::empty()) + occ_seq(p.extra, Seq::empty())
}

pub open spec fn preds_occ(ps: Seq<PredV>) -> Seq<u32>
    decreases ps.len(),
{
    if ps.len() == 0 {
        Seq::empty()
    } else {
        preds_occ(ps.drop_last()) + pred_occ(ps.last())
    }
}

/// The free variables of a scheme: those of its type and predicates that it
/// does not quantify.
pub open spec fn scheme_free(s: SchemeV) -> Set<u32> {
    (occ(s.ty, Seq::empty()) + preds_occ(s.preds)).to_set().difference(s.vars.to_set())
}

/// Name → type scheme, in binding order.
pub struct TyEnvChirho {
    entries_chirho: Vec<(String, SchemeChirho)>,
}

impl TyEnvChirho {
    pub closed spec fn map(&self) -> Map<Seq<char>, SchemeV> {
        Map::new(
            |n: Seq<char>| first_pos(names_of(self.entries_chirho@), n) >= 0,
            |n: Seq<char>| self.entries_chirho@[first_pos(names_of(self.entries_chirho@), n)].1@,
        )
    }

    /// The variables free in some bound scheme.
    pub open spec fn free_var_set(&self) -> Set<u32> {
        Set::new(|v: u32| exists|n: Seq<char>| #[trigger] self.map().dom().contains(n) && scheme_free(self.map()[n]).contains(v))
    }

    /// A copy binding the same names to the same schemes.
    pub fn copy_chirho(&self) -> (r: TyEnvChirho)
        ensures
            r.map() == self.map(),
    {
        let ghost es = self.entries_chirho@;
        let mut out: Vec<(String, SchemeChirho)> = Vec::new();
        let mut i: usize = 0;
        proof { assert(names_of(out@) =~= names_of(es.take(0))); }
        while i < self.entries_chirho.len()
            invariant
                i <= self.entries_chirho.len(),
                es == self.entries_chirho@,
                out@.len() == i,
                names_of(out@) == names_of(es.take(i as int)),
                forall|j: int| 0 <= j < i ==> (#[trigger] out@[j]).1@ == es[j].1@,
            decreases self.entries_chirho.len() - i,
        {
            let e = (self.entries_chirho[i].0.clone(), self.entries_chirho[i].1.copy_chirho());
            let ghost before = out@;
            out.push(e);
            proof {
                assert(names_of(out@) =~= names_of(before).push(es[i as int].0@));
                assert(names_of(es.take(i + 1)) =~= names_of(es.take(i as int)).push(es[i as int].0@));
            }
            i = i + 1;
        }
        proof { assert(es.take(i as int) =~= es); }
        let r = TyEnvChirho { entries_chirho: out };
        proof {
            assert forall|n: Seq<char>| #[trigger] r.map().dom().contains(n) implies r.map()[n] == self.map()[n] by {
                lemma_first_pos(names_of(es), n);
            }
            assert(r.map() =~= self.map());
        }
        r
    }

    /// An empty environment.
    pub fn new_chirho() -> (r: TyEnvChirho)
        ensures
            r.map() == Map::<Seq<char>, SchemeV>::empty(),
    {
        let r = TyEnvChirho { entries_chirho: Vec::new() };
        proof {
            assert(names_of(r.entries_chirho@) =~= Seq::<Seq<char>>::empty());
            assert(r.map() =~= Map::<Seq<char>, SchemeV>::empty());
        }
        r
    }

    /// Binds (or rebinds) `name` to `scheme`.
    pub fn bind_chirho(&mut self, name_chirho: String, scheme_chirho: SchemeChirho)
        ensures
            final(self).map() == old(self).map().insert(name_chirho@, scheme_chirho@),
    {
        let ghost old_map = self.map();
        let ghost ns = names_of(self.entries_chirho@);
        let ghost n = name_chirho@;
        let ghost v = scheme_chirho@;
        let ghost old_entries = self.entries_chirho@;
        proof { lemma_first_pos(ns, n); }
        match find_name_chirho(&self.entries_chirho, name_chirho.as_str()) {
            Some(k) => {
                let mut put = (name_chirho, scheme_chirho);
                std::mem::swap(&mut put, &mut self.entries_chirho[k]);
                proof {
                    assert(names_of(self.entries_chirho@) =~= ns.update(k as int, n));
                    assert forall|m: Seq<char>| #[trigger] first_pos(names_of(self.entries_chirho@), m) == first_pos(ns, m) by {
                        lemma_first_pos_update(ns, k as int, n, m);
                    }
                    assert forall|m: Seq<char>| #[trigger] self.map().dom().contains(m) implies self.map()[m] == old_map.insert(n, v)[m] by {
                        lemma_first_pos(ns, m);
                        if m != n {
                            assert(first_pos(ns, m) != k);
                            assert(self.entries_chirho@[first_pos(ns, m)] == old_entries[first_pos(ns, m)]);
                        }
                    }
                    assert(self.map() =~= old_map.insert(n, v));
                }
            }
            None => {
                self.entries_chirho.push((name_chirho, scheme_chirho));
                proof {
                    assert(names_of(self.entries_chirho@) =~= ns.push(n));
                    assert forall|m: Seq<char>| #[trigger] self.map().dom().contains(m) == old_map.insert(n, v).dom().contains(m) by {
                        lemma_first_pos_push(ns, n, m);
                        lemma_first_pos(ns, m);
                    }
                    assert forall|m: Seq<char>| #[trigger] self.map().dom().contains(m) implies self.map()[m] == old_map.insert(n, v)[m] by {
                        lemma_first_pos_push(ns, n, m);
                        lemma_first_pos(ns, m);
                        if m != n {
                            assert(self.entries_chirho@[first_pos(ns, m)] == old_entries[first_pos(ns, m)]);
                        }
                    }
                    assert(self.map() =~= old_map.insert(n, v));
                }
            }
        }
    }

    /// Applies a substitution to every bound scheme (each scheme's own
    /// quantified variables are left alone).
    pub fn apply_subst_chirho(&mut self, subst_chirho: &SubstChirho)
        ensures
            final(self).map() == Map::new(
                |n: Seq<char>| old(self).map().dom().contains(n),
                |n: Seq<char>| scheme_apply(old(self).map()[n], subst_chirho.map()),
            ),
    {
        let ghost old_entries = self.entries_chirho@;
        let ghost ns = names_of(self.entries_chirho@);
        let ghost old_map = self.map();
        let mut i: usize = 0;
        while i < self.entries_chirho.len()
            invariant
                i <= self.entries_chirho.len(),
                self.entries_chirho@.len() == old_entries.len(),
                ns == names_of(old_entries),
                forall|j: int| 0 <= j < old_entries.len() ==> (#[trigger] self.entries_chirho@[j]).0@ == old_entries[j].0@,
                forall|j: int| 0 <= j < i ==> (#[trigger] self.entries_chirho@[j]).1@ == scheme_apply(old_entries[j].1@, subst_chirho.map()),
                forall|j: int| i <= j < old_entries.len() ==> (#[trigger] self.entries_chirho@[j]).1@ == old_entries[j].1@,
            decreases self.entries_chirho.len() - i,
        {
            let applied_chirho = subst_chirho.apply_scheme_chirho(&self.entries_chirho[i].1);
            let name_chirho = self.entries_chirho[i].0.clone();
            self.entries_chirho.set(i, (name_chirho, applied_chirho));
            i = i + 1;
        }
        proof {
            assert(names_of(self.entries_chirho@) =~= ns);
            assert forall|n: Seq<char>| #[trigger] self.map().dom().contains(n) implies self.map()[n] == scheme_apply(old_map[n], subst_chirho.map()) by {
                lemma_first_pos(ns, n);
                let k = first_pos(ns, n);
                assert(self.entries_chirho@[k].1@ == scheme_apply(old_entries[k].1@, subst_chirho.map()));
            }
            assert(self.map() =~= Map::new(
                |n: Seq<char>| old_map.dom().contains(n),
                |n: Seq<char>| scheme_apply(old_map[n], subst_chirho.map()),
            ));
        }
    }

    /// The scheme bound to `name`, if any.
    pub fn lookup_chirho(&self, name_chirho: &str) -> (r: Option<&SchemeChirho>)
        ensures
            match r {
                Some(s) => self.map().dom().contains(name_chirho@) && self.map()[name_chirho@] == s@,
                None => !self.map().dom().contains(name_chirho@),
            },
    {
        proof { lemma_first_pos(names_of(self.entries_chirho@), name_chirho@); }
        match find_name_chirho(&self.entries_chirho, name_chirho) {
            Some(k) => Some(&self.entries_chirho[k].1),
            None => None,
        }
    }
}


/// Adds to `acc` the variables of the predicates `ps`, in order.
fn collect_pred_vars_chirho(ps: &Vec<crate::ty_chirho::SchemePredChirho>, acc: &mut Vec<TyVarChirho>)
    ensures
        vars_view(final(acc)@) == add_new(vars_view(old(acc)@), preds_occ(preds_view(ps@))),
{
    let ghost a0 = vars_view(acc@);
    let ghost pv = preds_view(ps@);
    let empty: Vec<TyVarChirho> = Vec::new();
    proof {
        assert(vars_view(empty@) =~= Seq::<u32>::empty());
        assert(pv.take(0) =~= Seq::<PredV>::empty());
    }
    let mut i: usize = 0;
    while i < ps.len()
        invariant
            i <= ps.len(),
            pv == preds_view(ps@),
            a0 == vars_view(old(acc)@),
            vars_view(empty@) == Seq::<u32>::empty(),
            vars_view(acc@) == add_new(a0, preds_occ(pv.take(i as int))),
        decreases ps.len() - i,
    {
        let ghost before = vars_view(acc@);
        ps[i].ty_chirho.collect_free_vars_chirho(&empty, acc);
        proof {
            let p = pv[i as int];
            assert(p == ps@[i as int]@);
            assert(occ_seq(p.extra, Seq::empty()) =~= Seq::<u32>::empty());
            assert(add_new(vars_view(acc@), Seq::<u32>::empty()) =~= vars_view(acc@));
            assert(pv.take(i + 1).drop_last() =~= pv.take(i as int));
            assert(pv.take(i + 1).last() == p);
            lemma_add_new_concat(before, occ(p.ty, Seq::empty()), occ_seq(p.extra, Seq::empty()));
            lemma_add_new_concat(a0, preds_occ(pv.take(i as int)), pred_occ(p));
        }
        i = i + 1;
    }
    proof { assert(pv.take(i as int) =~= pv); }
}

/// Whether `v` is free in the scheme.
pub fn scheme_has_free_var_chirho(s: &SchemeChirho, v: u32) -> (r: bool)
    ensures
        r == scheme_free(s@).contains(v),
{
    let mut acc: Vec<TyVarChirho> = Vec::new();
    let empty: Vec<TyVarChirho> = Vec::new();
    proof {
        assert(vars_view(acc@) =~= Seq::<u32>::empty());
        assert(vars_view(empty@) =~= Seq::<u32>::empty());
    }
    s.ty_chirho.collect_free_vars_chirho(&empty, &mut acc);
    collect_pred_vars_chirho(&s.preds_chirho, &mut acc);
    let occurs = vars_contains_chirho(&acc, v);
    let bound = vars_contains_chirho(&s.vars_chirho, v);
    proof {
        let o = occ(s@.ty, Seq::empty());
        let po = preds_occ(s@.preds);
        lemma_add_new_concat(Seq::empty(), o, po);
        lemma_add_new_props(Seq::empty(), o + po);
        assert((o + po).to_set().contains(v) == (o + po).contains(v));
        assert(s@.vars.to_set().contains(v) == s@.vars.contains(v));
    }
    occurs && !bound
}

impl TyEnvChirho {
    /// Whether `v` is free in some scheme of the environment.
    pub fn has_free_var_chirho(&self, v: u32) -> (r: bool)
        ensures
            r == self.free_var_set().contains(v),
    {
        let ghost ns = names_of(self.entries_chirho@);
        let mut i: usize = 0;
        while i < self.entries_chirho.len()
            invariant
                i <= self.entries_chirho.len(),
                ns == names_of(self.entries_chirho@),
                forall|j: int| 0 <= j < i && first_pos(ns, ns[j]) == j ==> !scheme_free(#[trigger] self.entries_chirho@[j].1@).contains(v),
            decreases self.entries_chirho.len() - i,
        {
            let first = find_name_chirho(&self.entries_chirho, self.entries_chirho[i].0.as_str());
            proof { assert(ns[i as int] == self.entries_chirho@[i as int].0@); }
            if first == Some(i) {
                if scheme_has_free_var_chirho(&self.entries_chirho[i].1, v) {
                    proof {
                        let n = ns[i as int];
                        assert(self.map().dom().contains(n));
                        assert(self.map()[n] == self.entries_chirho@[i as int].1@);
                    }
                    return true;
                }
            } else {
                proof {
                    lemma_first_pos(ns, ns[i as int]);
                    assert(ns.contains(ns[i as int]));
                }
            }
            i = i + 1;
        }
        proof {
            if self.free_var_set().contains(v) {
                let n = choose|n: Seq<char>| #[trigger] self.map().dom().contains(n) && scheme_free(self.map()[n]).contains(v);
                lemma_first_pos(ns, n);
                let k = first_pos(ns, n);
                assert(ns[k] == n);
                assert(first_pos(ns, ns[k]) == k);
                assert(!scheme_free(self.entries_chirho@[k].1@).contains(v));
            }
        }
        false
    }
}


/// Class name → names of its direct superclasses.
pub struct ClassEnvChirho {
    classes_chirho: Vec<(String, Vec<String>)>,
}

/// Whether `sup` is reachable from `sub` by following between 1 and `k`
/// superclass edges.
pub open spec fn super_reach(cl: Map<Seq<char>, Seq<Seq<char>>>, sub: Seq<char>, sup: Seq<char>, k: nat) -> bool
    decreases k,
{
    k > 0 && cl.dom().contains(sub) && exists|i: int| 0 <= i < cl[sub].len()
        && (#[trigger] cl[sub][i] == sup || super_reach(cl, cl[sub][i], sup, (k - 1) as nat))
}

impl ClassEnvChirho {
    pub closed spec fn map(&self) -> Map<Seq<char>, Seq<Seq<char>>> {
        Map::new(
            |n: Seq<char>| first_pos(names_of(self.classes_chirho@), n) >= 0,
            |n: Seq<char>| strings_view(self.classes_chirho@[first_pos(names_of(self.classes_chirho@), n)].1@),
        )
    }

    /// The number of class entries (an upper bound on the length of a
    /// superclass chain without repetition).
    pub closed spec fn size(&self) -> nat {
        self.classes_chirho@.len()
    }

    /// An empty class environment.
    pub fn new_chirho() -> (r: ClassEnvChirho)
        ensures
            r.map() == Map::<Seq<char>, Seq<Seq<char>>>::empty(),
    {
        let r = ClassEnvChirho { classes_chirho: Vec::new() };
        proof {
            assert(names_of(r.classes_chirho@) =~= Seq::<Seq<char>>::empty());
            assert(r.map() =~= Map::<Seq<char>, Seq<Seq<char>>>::empty());
        }
        r
    }

    /// Declares (or redeclares) a class with its direct superclasses.
    pub fn add_class_chirho(&mut self, name_chirho: String, supers_chirho: Vec<String>)
        ensures
            final(self).map() == old(self).map().insert(name_chirho@, strings_view(supers_chirho@)),
    {
        let ghost old_map = self.map();
        let ghost ns = names_of(self.classes_chirho@);
        let ghost n = name_chirho@;
        let ghost v = strings_view(supers_chirho@);
        let ghost old_entries = self.classes_chirho@;
        proof { lemma_first_pos(ns, n); }
        match find_name_chirho(&self.classes_chirho, name_chirho.as_str()) {
            Some(k) => {
                let mut put = (name_chirho, supers_chirho);
                std::mem::swap(&mut put, &mut self.classes_chirho[k]);
                proof {
                    assert(names_of(self.classes_chirho@) =~= ns.update(k as int, n));
                    assert forall|m: Seq<char>| #[trigger] first_pos(names_of(self.classes_chirho@), m) == first_pos(ns, m) by {
                        lemma_first_pos_update(ns, k as int, n, m);
                    }
                    assert forall|m: Seq<char>| #[trigger] self.map().dom().contains(m) implies self.map()[m] == old_map.insert(n, v)[m] by {
                        lemma_first_pos(ns, m);
                        if m != n {
                            assert(first_pos(ns, m) != k);
                            assert(self.classes_chirho@[first_pos(ns, m)] == old_entries[first_pos(ns, m)]);
                        }
                    }
                    assert(self.map() =~= old_map.insert(n, v));
                }
            }
            None => {
                self.classes_chirho.push((name_chirho, supers_chirho));
                proof {
                    assert(names_of(self.classes_chirho@) =~= ns.push(n));
                    assert forall|m: Seq<char>| #[trigger] self.map().dom().contains(m) == old_map.insert(n, v).dom().contains(m) by {
                        lemma_first_pos_push(ns, n, m);
                        lemma_first_pos(ns, m);
                    }
                    assert forall|m: Seq<char>| #[trigger] self.map().dom().contains(m) implies self.map()[m] == old_map.insert(n, v)[m] by {
                        lemma_first_pos_push(ns, n, m);
                        lemma_first_pos(ns, m);
                        if m != n {
                            assert(self.classes_chirho@[first_pos(ns, m)] == old_entries[first_pos(ns, m)]);
                        }
                    }
                    assert(self.map() =~= old_map.insert(n, v));
                }
            }
        }
    }

    /// The direct superclasses of `name` (none for an unknown class).
    pub fn superclasses_chirho(&self, name_chirho: &str) -> (r: &Vec<String>)
        requires
            self.map().dom().contains(name_chirho@),
        ensures
            strings_view(r@) == self.map()[name_chirho@],
    {
        proof { lemma_first_pos(names_of(self.classes_chirho@), name_chirho@); }
        let k = find_name_chirho(&self.classes_chirho, name_chirho).unwrap();
        &self.classes_chirho[k].1
    }

    /// Whether `name` is a declared class.
    pub fn contains_class_chirho(&self, name_chirho: &str) -> (r: bool)
        ensures
            r == self.map().dom().contains(name_chirho@),
    {
        proof { lemma_first_pos(names_of(self.classes_chirho@), name_chirho@); }
        find_name_chirho(&self.classes_chirho, name_chirho).is_some()
    }

    /// Whether `potential_super_chirho` is reachable from `sub_chirho` in at
    /// most `fuel_chirho` superclass steps.
    pub fn reaches_superclass_chirho(&self, potential_super_chirho: &str, sub_chirho: &str, fuel_chirho: usize) -> (r: bool)
        ensures
            r == super_reach(self.map(), sub_chirho@, potential_super_chirho@, fuel_chirho as nat),
        decreases fuel_chirho,
    {
        if fuel_chirho == 0 || !self.contains_class_chirho(sub_chirho) {
            return false;
        }
        let supers_chirho = self.superclasses_chirho(sub_chirho);
        let ghost sv = strings_view(supers_chirho@);
        let mut i: usize = 0;
        while i < supers_chirho.len()
            invariant
                i <= supers_chirho.len(),
                fuel_chirho > 0,
                self.map().dom().contains(sub_chirho@),
                sv == strings_view(supers_chirho@),
                sv == self.map()[sub_chirho@],
                forall|j: int| 0 <= j < i ==> !(#[trigger] sv[j] == potential_super_chirho@
                    || super_reach(self.map(), sv[j], potential_super_chirho@, (fuel_chirho - 1) as nat)),
            decreases supers_chirho.len() - i,
        {
            let s_chirho = &supers_chirho[i];
            proof { assert(sv[i as int] == s_chirho@); }
            if crate::ty_chirho::str_eq_chirho(s_chirho.as_str(), potential_super_chirho)
                || self.reaches_superclass_chirho(potential_super_chirho, s_chirho.as_str(), fuel_chirho - 1) {
                return true;
            }
            i = i + 1;
        }
        false
    }

    /// Whether `potential_super_chirho` is a (transitive) superclass of
    /// `sub_chirho`: reachable by one or more superclass steps, chains being
    /// followed at most as far as there are classes.
    pub fn is_transitive_superclass_chirho(&self, potential_super_chirho: &str, sub_chirho: &str) -> (r: bool)
        ensures
            r == super_reach(self.map(), sub_chirho@, potential_super_chirho@, self.size()),
    {
        self.reaches_superclass_chirho(potential_super_chirho, sub_chirho, self.classes_chirho.len())
    }
}


/// The standard classes of the Prelude and their direct superclasses.
pub open spec fn standard_classes() -> Map<Seq<char>, Seq<Seq<char>>> {
    Map::<Seq<char>, Seq<Seq<char>>>::empty()
        .insert("Eq"@, seq![])
        .insert("Ord"@, seq!["Eq"@])
        .insert("Show"@, seq![])
        .insert("Read"@, seq![])
        .insert("Enum"@, seq![])
        .insert("Bounded"@, seq![])
        .insert("Num"@, seq!["Eq"@])
        .insert("Real"@, seq!["Num"@, "Ord"@])
        .insert("Integral"@, seq!["Real"@, "Enum"@])
        .insert("Fractional"@, seq!["Num"@])
        .insert("Floating"@, seq!["Fractional"@])
        .insert("RealFrac"@, seq!["Real"@, "Fractional"@])
        .insert("RealFloat"@, seq!["RealFrac"@, "Floating"@])
        .insert("Semigroup"@, seq![])
        .insert("Monoid"@, seq!["Semigroup"@])
        .insert("Functor"@, seq![])
        .insert("Applicative"@, seq!["Functor"@])
        .insert("Monad"@, seq!["Applicative"@])
        .insert("MonadFail"@, seq!["Monad"@])
        .insert("Foldable"@, seq![])
        .insert("Traversable"@, seq!["Functor"@, "Foldable"@])
        .insert("Alternative"@, seq!["Applicative"@])
        .insert("MonadPlus"@, seq!["Alternative"@, "Monad"@])
}

impl ClassEnvChirho {
    /// Declares the standard classes of the Prelude with their superclasses.
    pub fn seed_standard_chirho(&mut self)
        ensures
            final(self).map() == old(self).map().union_prefer_right(standard_classes()),
    {
        let ghost m0 = self.map();
        let supers_chirho: Vec<String> = vec![];
        proof { assert(strings_view(supers_chirho@) =~= seq![]); }
        self.add_class_chirho("Eq".to_owned(), supers_chirho);
        let supers_chirho: Vec<String> = vec!["Eq".to_owned()];
        proof { assert(strings_view(supers_chirho@) =~= seq!["Eq"@]); }
        self.add_class_chirho("Ord".to_owned(), supers_chirho);
        let supers_chirho: Vec<String> = vec![];
        proof { assert(strings_view(supers_chirho@) =~= seq![]); }
        self.add_class_chirho("Show".to_owned(), supers_chirho);
        let supers_chirho: Vec<String> = vec![];
        proof { assert(strings_view(supers_chirho@) =~= seq![]); }
        self.add_class_chirho("Read".to_owned(), supers_chirho);
        let supers_chirho: Vec<String> = vec![];
        proof { assert(strings_view(supers_chirho@) =~= seq![]); }
        self.add_class_chirho("Enum".to_owned(), supers_chirho);
        let supers_chirho: Vec<String> = vec![];
        proof { assert(strings_view(supers_chirho@) =~= seq![]); }
        self.add_class_chirho("Bounded".to_owned(), supers_chirho);
        let supers_chirho: Vec<String> = vec!["Eq".to_owned()];
        proof { assert(strings_view(supers_chirho@) =~= seq!["Eq"@]); }
        self.add_class_chirho("Num".to_owned(), supers_chirho);
        let supers_chirho: Vec<String> = vec!["Num".to_owned(), "Ord".to_owned()];
        proof { assert(strings_view(supers_chirho@) =~= seq!["Num"@, "Ord"@]); }
        self.add_class_chirho("Real".to_owned(), supers_chirho);
        let supers_chirho: Vec<String> = vec!["Real".to_owned(), "Enum".to_owned()];
        proof { assert(strings_view(supers_chirho@) =~= seq!["Real"@, "Enum"@]); }
        self.add_class_chirho("Integral".to_owned(), supers_chirho);
        let supers_chirho: Vec<String> = vec!["Num".to_owned()];
        proof { assert(strings_view(supers_chirho@) =~= seq!["Num"@]); }
        self.add_class_chirho("Fractional".to_owned(), supers_chirho);
        let supers_chirho: Vec<String> = vec!["Fractional".to_owned()];
        proof { assert(strings_view(supers_chirho@) =~= seq!["Fractional"@]); }
        self.add_class_chirho("Floating".to_owned(), supers_chirho);
        let supers_chirho: Vec<String> = vec!["Real".to_owned(), "Fractional".to_owned()];
        proof { assert(strings_view(supers_chirho@) =~= seq!["Real"@, "Fractional"@]); }
        self.add_class_chirho("RealFrac".to_owned(), supers_chirho);
        let supers_chirho: Vec<String> = vec!["RealFrac".to_owned(), "Floating".to_owned()];
        proof { assert(strings_view(supers_chirho@) =~= seq!["RealFrac"@, "Floating"@]); }
        self.add_class_chirho("RealFloat".to_owned(), supers_chirho);
        let supers_chirho: Vec<String> = vec![];
        proof { assert(strings_view(supers_chirho@) =~= seq![]); }
        self.add_class_chirho("Semigroup".to_owned(), supers_chirho);
        let supers_chirho: Vec<String> = vec!["Semigroup".to_owned()];
        proof { assert(strings_view(supers_chirho@) =~= seq!["Semigroup"@]); }
        self.add_class_chirho("Monoid".to_owned(), supers_chirho);
        let supers_chirho: Vec<String> = vec![];
        proof { assert(strings_view(supers_chirho@) =~= seq![]); }
        self.add_class_chirho("Functor".to_owned(), supers_chirho);
        let supers_chirho: Vec<String> = vec!["Functor".to_owned()];
        proof { assert(strings_view(supers_chirho@) =~= seq!["Functor"@]); }
        self.add_class_chirho("Applicative".to_owned(), supers_chirho);
        let supers_chirho: Vec<String> = vec!["Applicative".to_owned()];
        proof { assert(strings_view(supers_chirho@) =~= seq!["Applicative"@]); }
        self.add_class_chirho("Monad".to_owned(), supers_chirho);
        let supers_chirho: Vec<String> = vec!["Monad".to_owned()];
        proof { assert(strings_view(supers_chirho@) =~= seq!["Monad"@]); }
        self.add_class_chirho("MonadFail".to_owned(), supers_chirho);
        let supers_chirho: Vec<String> = vec![];
        proof { assert(strings_view(supers_chirho@) =~= seq![]); }
        self.add_class_chirho("Foldable".to_owned(), supers_chirho);
        let supers_chirho: Vec<String> = vec!["Functor".to_owned(), "Foldable".to_owned()];
        proof { assert(strings_view(supers_chirho@) =~= seq!["Functor"@, "Foldable"@]); }
        self.add_class_chirho("Traversable".to_owned(), supers_chirho);
        let supers_chirho: Vec<String> = vec!["Applicative".to_owned()];
        proof { assert(strings_view(supers_chirho@) =~= seq!["Applicative"@]); }
        self.add_class_chirho("Alternative".to_owned(), supers_chirho);
        let supers_chirho: Vec<String> = vec!["Alternative".to_owned(), "Monad".to_owned()];
        proof { assert(strings_view(supers_chirho@) =~= seq!["Alternative"@, "Monad"@]); }
        self.add_class_chirho("MonadPlus".to_owned(), supers_chirho);
        proof {
            assert(self.map() =~= m0.union_prefer_right(standard_classes()));
        }
    }
}

}
