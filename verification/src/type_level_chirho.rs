//! Structural operations on types: application spines, substitution of named
//! (synonym-parameter) variables, and matching of type family patterns.
use vstd::prelude::*;
use crate::alpha_chirho::{first_index, lemma_first_index, lemma_first_index_push};
use crate::ty_chirho::{occ, occ_seq, vars_view, str_eq_chirho, lemma_tys_view, lemma_tys_view_push, tys_view, MultChirho, TyChirho, TyV, TyVarChirho};

verus! {

/// The head of a left-nested application `h a1 ... an`.
pub open spec fn spine_head(t: TyV) -> TyV
    decreases t,
{
    match t {
        TyV::App(f, _) => spine_head(*f),
        _ => t,
    }
}

/// The arguments of a left-nested application `h a1 ... an`, in order.
pub open spec fn spine_args(t: TyV) -> Seq<TyV>
    decreases t,
{
    match t {
        TyV::App(f, a) => spine_args(*f).push(*a),
        _ => Seq::empty(),
    }
}

/// Rebuilds `h a1 ... an` from a head and its arguments.
pub open spec fn apply_all(h: TyV, args: Seq<TyV>) -> TyV
    decreases args.len(),
{
    if args.len() == 0 {
        h
    } else {
        TyV::App(Box::new(apply_all(h, args.drop_last())), Box::new(args.last()))
    }
}

/// A spine taken apart and put back together is the type it came from.
pub proof fn lemma_spine_roundtrip(t: TyV)
    ensures
        apply_all(spine_head(t), spine_args(t)) == t,
        !(spine_head(t) is App),
    decreases t,
{
    match t {
        TyV::App(f, a) => {
            lemma_spine_roundtrip(*f);
            assert(spine_args(t).drop_last() =~= spine_args(*f));
        }
        _ => {}
    }
}

/// Collect the spine of a left-nested `AppChirho` into (head, [args]).
pub fn collect_app_spine_chirho(ty_chirho: &TyChirho) -> (r: (TyChirho, Vec<TyChirho>))
    ensures
        r.0@ == spine_head(ty_chirho@),
        tys_view(r.1@) == spine_args(ty_chirho@),
    decreases ty_chirho,
{
    match ty_chirho {
        TyChirho::AppChirho(f_chirho, a_chirho) => {
            let (head_chirho, mut args_chirho) = collect_app_spine_chirho(f_chirho);
            let a = a_chirho.copy_chirho();
            proof { lemma_tys_view_push(args_chirho@, a); }
            args_chirho.push(a);
            (head_chirho, args_chirho)
        }
        _ => {
            let r = (ty_chirho.copy_chirho(), Vec::new());
            proof { assert(tys_view(Seq::<TyChirho>::empty()) =~= Seq::<TyV>::empty()); }
            r
        }
    }
}

/// Replaces the named variable `name` (spelled as a constructor or as a
/// synonym parameter) by `rep`. Arrows keep their multiplicity.
pub open spec fn subst_named(t: TyV, name: Seq<char>, rep: TyV) -> TyV
    decreases t,
{
    match t {
        TyV::Con(n) => if n == name { rep } else { t },
        TyV::ForallVar(n) => if n == name { rep } else { t },
        TyV::App(f, a) => TyV::App(Box::new(subst_named(*f, name, rep)), Box::new(subst_named(*a, name, rep))),
        TyV::Fun(a, b, m) => TyV::Fun(Box::new(subst_named(*a, name, rep)), Box::new(subst_named(*b, name, rep)), m),
        TyV::List(e) => TyV::List(Box::new(subst_named(*e, name, rep))),
        TyV::Tuple(es) => TyV::Tuple(subst_named_seq(es, name, rep)),
        _ => t,
    }
}

pub open spec fn subst_named_seq(es: Seq<TyV>, name: Seq<char>, rep: TyV) -> Seq<TyV>
    decreases es,
{
    if es.len() == 0 {
        Seq::empty()
    } else {
        subst_named_seq(es.drop_last(), name, rep).push(subst_named(es.last(), name, rep))
    }
}

/// Whether `name` is spelled, as a constructor or a synonym parameter,
/// somewhere that substitution of names reaches.
pub open spec fn names_named(t: TyV, name: Seq<char>) -> bool
    decreases t,
{
    match t {
        TyV::Con(n) => n == name,
        TyV::ForallVar(n) => n == name,
        TyV::App(f, a) => names_named(*f, name) || names_named(*a, name),
        TyV::Fun(a, b, _) => names_named(*a, name) || names_named(*b, name),
        TyV::List(e) => names_named(*e, name),
        TyV::Tuple(es) => names_named_seq(es, name),
        _ => false,
    }
}

pub open spec fn names_named_seq(es: Seq<TyV>, name: Seq<char>) -> bool
    decreases es,
{
    es.len() > 0 && (names_named_seq(es.drop_last(), name) || names_named(es.last(), name))
}

/// Substituting a name that does not occur changes nothing, linear arrows
/// included.
pub proof fn lemma_subst_named_absent(t: TyV, name: Seq<char>, rep: TyV)
    requires
        !names_named(t, name),
    ensures
        subst_named(t, name, rep) == t,
    decreases t,
{
    match t {
        TyV::App(f, a) => {
            lemma_subst_named_absent(*f, name, rep);
            lemma_subst_named_absent(*a, name, rep);
        },
        TyV::Fun(a, b, m) => {
            lemma_subst_named_absent(*a, name, rep);
            lemma_subst_named_absent(*b, name, rep);
        },
        TyV::List(e) => lemma_subst_named_absent(*e, name, rep),
        TyV::Tuple(es) => lemma_subst_named_seq_absent(es, name, rep),
        _ => {},
    }
}

/// The same law on a list of types.
pub proof fn lemma_subst_named_seq_absent(es: Seq<TyV>, name: Seq<char>, rep: TyV)
    requires
        !names_named_seq(es, name),
    ensures
        subst_named_seq(es, name, rep) == es,
    decreases es,
{
    if es.len() > 0 {
        assert(decreases_to!(es => es.last()));
        lemma_subst_named_seq_absent(es.drop_last(), name, rep);
        lemma_subst_named_absent(es.last(), name, rep);
        assert(es.drop_last().push(es.last()) =~= es);
    }
}

fn subst_named_vars_seq_chirho(es: &Vec<TyChirho>, name_chirho: &str, replacement_chirho: &TyChirho) -> (r: Vec<TyChirho>)
    ensures
        tys_view(r@) == subst_named_seq(tys_view(es@), name_chirho@, replacement_chirho@),
    decreases es@, 0nat,
{
    let mut out: Vec<TyChirho> = Vec::new();
    let mut i: usize = 0;
    proof {
        lemma_tys_view(es@);
        assert(tys_view(es@).take(0) =~= Seq::<TyV>::empty());
        assert(tys_view(out@) =~= Seq::<TyV>::empty());
    }
    while i < es.len()
        invariant
            i <= es.len(),
            tys_view(es@).len() == es@.len(),
            forall|j: int| 0 <= j < es@.len() ==> #[trigger] tys_view(es@)[j] == es@[j]@,
            tys_view(out@) == subst_named_seq(tys_view(es@).take(i as int), name_chirho@, replacement_chirho@),
        decreases es.len() - i,
    {
        proof { assert(decreases_to!(es@ => es@[i as int])); }
        let e = subst_named_var_chirho(&es[i], name_chirho, replacement_chirho);
        proof {
            lemma_tys_view_push(out@, e);
            let tv = tys_view(es@);
            assert(tv.take(i + 1).drop_last() =~= tv.take(i as int));
            assert(tv.take(i + 1).last() == es@[i as int]@);
        }
        out.push(e);
        i = i + 1;
    }
    proof { assert(tys_view(es@).take(es@.len() as int) =~= tys_view(es@)); }
    out
}

/// Substitute a named type variable. Used for expanding parameterised type
/// synonyms whose right-hand sides name their parameters (e.g. `type Pair a
/// = (a, a)`): every constructor or parameter spelled `name` becomes
/// `replacement`; arrows keep their multiplicity.
pub fn subst_named_var_chirho(ty_chirho: &TyChirho, name_chirho: &str, replacement_chirho: &TyChirho) -> (r: TyChirho)
    ensures
        r@ == subst_named(ty_chirho@, name_chirho@, replacement_chirho@),
    decreases ty_chirho, 1nat,
{
    match ty_chirho {
        TyChirho::ConChirho(n_chirho) => {
            if str_eq_chirho(n_chirho.as_str(), name_chirho) {
                replacement_chirho.copy_chirho()
            } else {
                ty_chirho.copy_chirho()
            }
        }
        TyChirho::ForallVarChirho(n_chirho) => {
            if str_eq_chirho(n_chirho.as_str(), name_chirho) {
                replacement_chirho.copy_chirho()
            } else {
                ty_chirho.copy_chirho()
            }
        }
        TyChirho::AppChirho(f_chirho, a_chirho) => TyChirho::AppChirho(
            Box::new(subst_named_var_chirho(f_chirho, name_chirho, replacement_chirho)),
            Box::new(subst_named_var_chirho(a_chirho, name_chirho, replacement_chirho)),
        ),
        TyChirho::FunChirho(a_chirho, b_chirho, m_chirho) => TyChirho::FunChirho(
            Box::new(subst_named_var_chirho(a_chirho, name_chirho, replacement_chirho)),
            Box::new(subst_named_var_chirho(b_chirho, name_chirho, replacement_chirho)),
            *m_chirho,
        ),
        TyChirho::ListChirho(el_chirho) => TyChirho::ListChirho(
            Box::new(subst_named_var_chirho(el_chirho, name_chirho, replacement_chirho)),
        ),
        TyChirho::TupleChirho(elems_chirho) => TyChirho::TupleChirho(
            subst_named_vars_seq_chirho(elems_chirho, name_chirho, replacement_chirho),
        ),
        _ => ty_chirho.copy_chirho(),
    }
}


/// Variable bindings produced by matching a type family pattern, in the order
/// they were made; a variable's first binding is its binding.
pub struct TypeBindingsChirho {
    entries_chirho: Vec<(TyVarChirho, TyChirho)>,
}

pub open spec fn binding_keys(es: Seq<(TyVarChirho, TyChirho)>) -> Seq<u32> {
    es.map_values(|e: (TyVarChirho, TyChirho)| e.0.0)
}

impl TypeBindingsChirho {
    /// The bound variables and what they are bound to.
    pub closed spec fn map(&self) -> Map<u32, TyV> {
        Map::new(
            |k: u32| first_index(binding_keys(self.entries_chirho@), k) >= 0,
            |k: u32| self.entries_chirho@[first_index(binding_keys(self.entries_chirho@), k)].1@,
        )
    }

    /// No bindings.
    pub fn new_chirho() -> (r: TypeBindingsChirho)
        ensures
            r.map() == Map::<u32, TyV>::empty(),
    {
        let r = TypeBindingsChirho { entries_chirho: Vec::new() };
        proof {
            assert(binding_keys(r.entries_chirho@) =~= Seq::<u32>::empty());
            assert(r.map() =~= Map::<u32, TyV>::empty());
        }
        r
    }

    /// What `var_chirho` is bound to, if anything.
    pub fn get_chirho(&self, var_chirho: TyVarChirho) -> (r: Option<&TyChirho>)
        ensures
            match r {
                Some(t) => self.map().dom().contains(var_chirho.0) && self.map()[var_chirho.0] == t@,
                None => !self.map().dom().contains(var_chirho.0),
            },
    {
        let ghost ks = binding_keys(self.entries_chirho@);
        proof { assert(ks.skip(0) =~= ks); }
        let mut i: usize = 0;
        while i < self.entries_chirho.len()
            invariant
                i <= self.entries_chirho.len(),
                ks == binding_keys(self.entries_chirho@),
                first_index(ks, var_chirho.0) == (if first_index(ks.skip(i as int), var_chirho.0) < 0 { -1 } else { first_index(ks.skip(i as int), var_chirho.0) + i }),
            decreases self.entries_chirho.len() - i,
        {
            proof {
                assert(ks.skip(i as int)[0] == self.entries_chirho@[i as int].0.0);
                assert(ks.skip(i as int).drop_first() =~= ks.skip(i + 1));
            }
            if self.entries_chirho[i].0.0 == var_chirho.0 {
                return Some(&self.entries_chirho[i].1);
            }
            i = i + 1;
        }
        proof { assert(ks.skip(i as int).len() == 0); }
        None
    }

    /// Binds an unbound variable.
    pub fn insert_chirho(&mut self, var_chirho: TyVarChirho, ty_chirho: TyChirho)
        requires
            !old(self).map().dom().contains(var_chirho.0),
        ensures
            final(self).map() == old(self).map().insert(var_chirho.0, ty_chirho@),
    {
        let ghost ks = binding_keys(self.entries_chirho@);
        let ghost old_map = self.map();
        let ghost old_entries = self.entries_chirho@;
        let ghost tv = ty_chirho@;
        self.entries_chirho.push((var_chirho, ty_chirho));
        proof {
            assert(binding_keys(self.entries_chirho@) =~= ks.push(var_chirho.0));
            assert forall|k: u32| #[trigger] self.map().dom().contains(k) == old_map.insert(var_chirho.0, tv).dom().contains(k) by {
                lemma_first_index_push(ks, var_chirho.0, k);
                lemma_first_index(ks, k);
            }
            assert forall|k: u32| #[trigger] self.map().dom().contains(k) implies self.map()[k] == old_map.insert(var_chirho.0, tv)[k] by {
                lemma_first_index_push(ks, var_chirho.0, k);
                lemma_first_index(ks, k);
                if k != var_chirho.0 {
                    let j = first_index(ks, k);
                    assert(self.entries_chirho@[j] == old_entries[j]);
                }
            }
            assert(self.map() =~= old_map.insert(var_chirho.0, tv));
        }
    }
}

/// Matching a type family pattern against an argument, extending `b`.
/// Pattern variables bind on first sight and must agree afterwards;
/// constructors, applications, lists, tuples and arrows (of any multiplicity)
/// match structurally; any other pattern matches only an equal argument.
pub open spec fn pmatch(pat: TyV, arg: TyV, b: Map<u32, TyV>) -> Option<Map<u32, TyV>>
    decreases pat,
{
    match pat {
        TyV::Var(v) => if b.dom().contains(v) {
            if b[v] == arg { Some(b) } else { None }
        } else {
            Some(b.insert(v, arg))
        },
        TyV::Con(n) => if arg == TyV::Con(n) { Some(b) } else { None },
        TyV::App(f, a) => match arg {
            TyV::App(af, aa) => match pmatch(*f, *af, b) {
                Some(b1) => pmatch(*a, *aa, b1),
                None => None,
            },
            _ => None,
        },
        TyV::List(e) => match arg {
            TyV::List(ae) => pmatch(*e, *ae, b),
            _ => None,
        },
        TyV::Tuple(es) => match arg {
            TyV::Tuple(aes) => if es.len() != aes.len() { None } else { pmatch_seq(es, aes, b) },
            _ => None,
        },
        TyV::Fun(a, r, _) => match arg {
            TyV::Fun(aa, ar, _) => match pmatch(*a, *aa, b) {
                Some(b1) => pmatch(*r, *ar, b1),
                None => None,
            },
            _ => None,
        },
        _ => if pat == arg { Some(b) } else { None },
    }
}

/// Matching patterns against arguments left to right.
pub open spec fn pmatch_seq(ps: Seq<TyV>, args: Seq<TyV>, b: Map<u32, TyV>) -> Option<Map<u32, TyV>>
    decreases ps,
{
    if ps.len() == 0 {
        Some(b)
    } else {
        match pmatch_seq(ps.drop_last(), args.drop_last(), b) {
            Some(b1) => pmatch(ps.last(), args[ps.len() - 1], b1),
            None => None,
        }
    }
}

pub fn match_type_patterns_seq_chirho(ps: &Vec<TyChirho>, args: &Vec<TyChirho>, bindings_chirho: &mut TypeBindingsChirho) -> (r: bool)
    requires
        ps@.len() == args@.len(),
    ensures
        r == pmatch_seq(tys_view(ps@), tys_view(args@), old(bindings_chirho).map()) is Some,
        r ==> final(bindings_chirho).map() == pmatch_seq(tys_view(ps@), tys_view(args@), old(bindings_chirho).map())->0,
        grows_within(old(bindings_chirho).map(), final(bindings_chirho).map(), occ_seq(tys_view(ps@), Seq::empty())),
    decreases ps@, 0nat,
{
    let ghost b0 = bindings_chirho.map();
    let ghost pv = tys_view(ps@);
    let ghost av = tys_view(args@);
    proof {
        lemma_tys_view(ps@);
        lemma_tys_view(args@);
        assert(pv.take(0) =~= Seq::<TyV>::empty());
    }
    let mut i: usize = 0;
    while i < ps.len()
        invariant
            i <= ps.len(),
            ps@.len() == args@.len(),
            b0 == old(bindings_chirho).map(),
            pv == tys_view(ps@),
            av == tys_view(args@),
            pv.len() == ps@.len(),
            av.len() == args@.len(),
            forall|j: int| 0 <= j < ps@.len() ==> #[trigger] pv[j] == ps@[j]@,
            forall|j: int| 0 <= j < args@.len() ==> #[trigger] av[j] == args@[j]@,
            pmatch_seq(pv.take(i as int), av.take(i as int), b0) == Some(bindings_chirho.map()),
            grows_within(b0, bindings_chirho.map(), occ_seq(pv.take(i as int), Seq::empty())),
        decreases ps.len() - i,
    {
        proof { assert(decreases_to!(ps@ => ps@[i as int])); }
        let ghost bi = bindings_chirho.map();
        let ok = match_type_pattern_chirho(&ps[i], &args[i], bindings_chirho);
        proof {
            assert(pv.take(i + 1).drop_last() =~= pv.take(i as int));
            lemma_grows_within_trans(b0, bi, bindings_chirho.map(), occ_seq(pv.take(i as int), Seq::empty()), occ(pv[i as int], Seq::empty()));
            assert(occ_seq(pv.take(i + 1), Seq::empty()) == occ_seq(pv.take(i as int), Seq::empty()) + occ(pv[i as int], Seq::empty()));
            assert(av.take(i + 1).drop_last() =~= av.take(i as int));
            assert(pv.take(i + 1).last() == ps@[i as int]@);
            assert(av.take(i + 1)[i as int] == args@[i as int]@);
        }
        if !ok {
            proof {
                lemma_pmatch_seq_prefix_fails(pv, av, b0, (i + 1) as int);
                lemma_occ_seq_prefix(pv, (i + 1) as int);
                lemma_grows_within_widen(b0, bindings_chirho.map(), occ_seq(pv.take(i + 1), Seq::empty()), occ_seq(pv.skip(i + 1), Seq::empty()), true);
            }
            return false;
        }
        i = i + 1;
    }
    proof {
        assert(pv.take(ps@.len() as int) =~= pv);
        assert(av.take(ps@.len() as int) =~= av);
    }
    true
}

/// `b1` keeps every binding of `b0` and binds nothing new but variables
/// listed in `vs`.
pub open spec fn grows_within(b0: Map<u32, TyV>, b1: Map<u32, TyV>, vs: Seq<u32>) -> bool {
    &&& forall|k: u32| #[trigger] b0.dom().contains(k) ==> b1.dom().contains(k) && b1[k] == b0[k]
    &&& forall|k: u32| #[trigger] b1.dom().contains(k) ==> b0.dom().contains(k) || vs.contains(k)
}

pub proof fn lemma_grows_within_refl(b: Map<u32, TyV>, vs: Seq<u32>)
    ensures
        grows_within(b, b, vs),
{
}

/// The occurrences in a list are those of its two parts.
pub proof fn lemma_occ_seq_prefix(es: Seq<TyV>, k: int)
    requires
        0 <= k <= es.len(),
    ensures
        occ_seq(es, Seq::empty()) == occ_seq(es.take(k), Seq::empty()) + occ_seq(es.skip(k), Seq::empty()),
    decreases es.len() - k,
{
    if k == es.len() {
        assert(es.take(k) =~= es);
        assert(es.skip(k) =~= Seq::<TyV>::empty());
        assert(occ_seq(es, Seq::empty()) + Seq::<u32>::empty() =~= occ_seq(es, Seq::empty()));
    } else {
        lemma_occ_seq_prefix(es, k + 1);
        lemma_occ_seq_skip(es.skip(k));
        assert(es.take(k + 1).drop_last() =~= es.take(k));
        assert(es.skip(k).skip(1) =~= es.skip(k + 1));
        assert(es.take(k + 1).last() == es.skip(k)[0]);
        assert(occ_seq(es.take(k), Seq::empty()) + occ(es[k], Seq::empty()) + occ_seq(es.skip(k + 1), Seq::empty())
            =~= occ_seq(es.take(k), Seq::empty()) + (occ(es[k], Seq::empty()) + occ_seq(es.skip(k + 1), Seq::empty())));
    }
}

/// The occurrences in a non-empty list: its head's, then its tail's.
pub proof fn lemma_occ_seq_skip(es: Seq<TyV>)
    requires
        es.len() > 0,
    ensures
        occ_seq(es, Seq::empty()) == occ(es[0], Seq::empty()) + occ_seq(es.skip(1), Seq::empty()),
    decreases es.len(),
{
    if es.len() == 1 {
        assert(es.drop_last() =~= Seq::<TyV>::empty());
        assert(es.skip(1) =~= Seq::<TyV>::empty());
        assert(occ_seq(Seq::<TyV>::empty(), Seq::empty()) + occ(es[0], Seq::empty()) =~= occ(es[0], Seq::empty()));
        assert(occ(es[0], Seq::empty()) + Seq::<u32>::empty() =~= occ(es[0], Seq::empty()));
    } else {
        lemma_occ_seq_skip(es.drop_last());
        assert(es.drop_last().skip(1) =~= es.skip(1).drop_last());
        assert(es.skip(1).last() == es.last());
        assert(es.drop_last()[0] == es[0]);
        assert(occ(es[0], Seq::empty()) + occ_seq(es.skip(1).drop_last(), Seq::empty()) + occ(es.last(), Seq::empty())
            =~= occ(es[0], Seq::empty()) + (occ_seq(es.skip(1).drop_last(), Seq::empty()) + occ(es.last(), Seq::empty())));
    }
}

pub proof fn lemma_grows_within_trans(b0: Map<u32, TyV>, b1: Map<u32, TyV>, b2: Map<u32, TyV>, vs1: Seq<u32>, vs2: Seq<u32>)
    requires
        grows_within(b0, b1, vs1),
        grows_within(b1, b2, vs2),
    ensures
        grows_within(b0, b2, vs1 + vs2),
{
    assert forall|k: u32| #[trigger] b2.dom().contains(k) implies b0.dom().contains(k) || (vs1 + vs2).contains(k) by {
        if !b0.dom().contains(k) {
            if b1.dom().contains(k) {
                let i = choose|i: int| 0 <= i < vs1.len() && vs1[i] == k;
                assert((vs1 + vs2)[i] == k);
            } else {
                let i = choose|i: int| 0 <= i < vs2.len() && vs2[i] == k;
                assert((vs1 + vs2)[vs1.len() + i] == k);
            }
        }
    }
}

pub proof fn lemma_grows_within_widen(b0: Map<u32, TyV>, b1: Map<u32, TyV>, vs1: Seq<u32>, vs2: Seq<u32>, left: bool)
    requires
        grows_within(b0, b1, if left { vs1 } else { vs2 }),
    ensures
        grows_within(b0, b1, vs1 + vs2),
{
    assert forall|k: u32| #[trigger] b1.dom().contains(k) implies b0.dom().contains(k) || (vs1 + vs2).contains(k) by {
        if !b0.dom().contains(k) {
            if left {
                let i = choose|i: int| 0 <= i < vs1.len() && vs1[i] == k;
                assert((vs1 + vs2)[i] == k);
            } else {
                let i = choose|i: int| 0 <= i < vs2.len() && vs2[i] == k;
                assert((vs1 + vs2)[vs1.len() + i] == k);
            }
        }
    }
}

/// Once a prefix fails to match, the whole list fails.
pub proof fn lemma_pmatch_seq_prefix_fails(ps: Seq<TyV>, args: Seq<TyV>, b: Map<u32, TyV>, k: int)
    requires
        0 <= k <= ps.len(),
        ps.len() == args.len(),
        pmatch_seq(ps.take(k), args.take(k), b) is None,
    ensures
        pmatch_seq(ps, args, b) is None,
    decreases ps.len() - k,
{
    if k < ps.len() {
        assert(ps.take(k + 1).drop_last() =~= ps.take(k));
        assert(args.take(k + 1).drop_last() =~= args.take(k));
        lemma_pmatch_seq_prefix_fails(ps, args, b, k + 1);
    } else {
        assert(ps.take(k) =~= ps);
        assert(args.take(k) =~= args);
    }
}

/// Match a type family pattern against a concrete type argument, extending
/// `bindings_chirho`. Type variables in the pattern bind to the corresponding
/// argument types (consistently, when they occur more than once); type
/// constructors must match exactly. On success the bindings are those of
/// [`pmatch`]; on failure they may hold part of the attempt and are to be
/// discarded. Either way no binding is overwritten and only variables of the
/// pattern are bound.
pub fn match_type_pattern_chirho(pat_chirho: &TyChirho, arg_chirho: &TyChirho, bindings_chirho: &mut TypeBindingsChirho) -> (r: bool)
    ensures
        r == pmatch(pat_chirho@, arg_chirho@, old(bindings_chirho).map()) is Some,
        r ==> final(bindings_chirho).map() == pmatch(pat_chirho@, arg_chirho@, old(bindings_chirho).map())->0,
        grows_within(old(bindings_chirho).map(), final(bindings_chirho).map(), occ(pat_chirho@, Seq::empty())),
    decreases pat_chirho, 1nat,
{
    let ghost b0 = bindings_chirho.map();
    proof { lemma_grows_within_refl(b0, occ(pat_chirho@, Seq::empty())); }
    match pat_chirho {
        TyChirho::VarChirho(tv_chirho) => {
            match bindings_chirho.get_chirho(*tv_chirho) {
                Some(existing_chirho) => existing_chirho.eq_chirho(arg_chirho),
                None => {
                    bindings_chirho.insert_chirho(*tv_chirho, arg_chirho.copy_chirho());
                    proof {
                        assert(occ(pat_chirho@, Seq::empty()) == seq![tv_chirho.0]);
                        assert(seq![tv_chirho.0][0] == tv_chirho.0);
                    }
                    true
                }
            }
        }
        TyChirho::ConChirho(name_chirho) => {
            match arg_chirho {
                TyChirho::ConChirho(arg_name_chirho) => *arg_name_chirho == *name_chirho,
                _ => false,
            }
        }
        TyChirho::AppChirho(f_chirho, a_chirho) => {
            match arg_chirho {
                TyChirho::AppChirho(af_chirho, aa_chirho) => {
                    let ok = match_type_pattern_chirho(f_chirho, af_chirho, bindings_chirho);
                    let ghost b1 = bindings_chirho.map();
                    if !ok {
                        proof { lemma_grows_within_widen(b0, b1, occ(f_chirho@, Seq::empty()), occ(a_chirho@, Seq::empty()), true); }
                        return false;
                    }
                    let ok2 = match_type_pattern_chirho(a_chirho, aa_chirho, bindings_chirho);
                    proof { lemma_grows_within_trans(b0, b1, bindings_chirho.map(), occ(f_chirho@, Seq::empty()), occ(a_chirho@, Seq::empty())); }
                    ok2
                }
                _ => false,
            }
        }
        TyChirho::ListChirho(inner_chirho) => {
            match arg_chirho {
                TyChirho::ListChirho(arg_inner_chirho) => match_type_pattern_chirho(inner_chirho, arg_inner_chirho, bindings_chirho),
                _ => false,
            }
        }
        TyChirho::TupleChirho(elems_chirho) => {
            match arg_chirho {
                TyChirho::TupleChirho(arg_elems_chirho) => {
                    proof {
                        lemma_tys_view(elems_chirho@);
                        lemma_tys_view(arg_elems_chirho@);
                    }
                    if elems_chirho.len() != arg_elems_chirho.len() {
                        return false;
                    }
                    match_type_patterns_seq_chirho(elems_chirho, arg_elems_chirho, bindings_chirho)
                }
                _ => false,
            }
        }
        TyChirho::FunChirho(a_chirho, r_chirho, _) => {
            match arg_chirho {
                TyChirho::FunChirho(aa_chirho, ar_chirho, _) => {
                    let ok = match_type_pattern_chirho(a_chirho, aa_chirho, bindings_chirho);
                    let ghost b1 = bindings_chirho.map();
                    if !ok {
                        proof { lemma_grows_within_widen(b0, b1, occ(a_chirho@, Seq::empty()), occ(r_chirho@, Seq::empty()), true); }
                        return false;
                    }
                    let ok2 = match_type_pattern_chirho(r_chirho, ar_chirho, bindings_chirho);
                    proof { lemma_grows_within_trans(b0, b1, bindings_chirho.map(), occ(a_chirho@, Seq::empty()), occ(r_chirho@, Seq::empty())); }
                    ok2
                }
                _ => false,
            }
        }
        _ => pat_chirho.eq_chirho(arg_chirho),
    }
}

/// Replaces bound variables by their bindings; rebuilt arrows are
/// unrestricted; kind applications and quantified types are left as they are.
pub open spec fn subst_vars(t: TyV, b: Map<u32, TyV>) -> TyV
    decreases t,
{
    match t {
        TyV::Var(v) => if b.dom().contains(v) { b[v] } else { t },
        TyV::App(f, a) => TyV::App(Box::new(subst_vars(*f, b)), Box::new(subst_vars(*a, b))),
        TyV::Fun(a, r, _) => TyV::Fun(Box::new(subst_vars(*a, b)), Box::new(subst_vars(*r, b)), MultChirho::ManyChirho),
        TyV::List(e) => TyV::List(Box::new(subst_vars(*e, b))),
        TyV::Tuple(es) => TyV::Tuple(subst_vars_seq(es, b)),
        _ => t,
    }
}

pub open spec fn subst_vars_seq(es: Seq<TyV>, b: Map<u32, TyV>) -> Seq<TyV>
    decreases es,
{
    if es.len() == 0 {
        Seq::empty()
    } else {
        subst_vars_seq(es.drop_last(), b).push(subst_vars(es.last(), b))
    }
}

fn substitute_type_vars_seq_chirho(es: &Vec<TyChirho>, bindings_chirho: &TypeBindingsChirho) -> (r: Vec<TyChirho>)
    ensures
        tys_view(r@) == subst_vars_seq(tys_view(es@), bindings_chirho.map()),
    decreases es@, 0nat,
{
    let mut out: Vec<TyChirho> = Vec::new();
    let mut i: usize = 0;
    proof {
        lemma_tys_view(es@);
        assert(tys_view(es@).take(0) =~= Seq::<TyV>::empty());
        assert(tys_view(out@) =~= Seq::<TyV>::empty());
    }
    while i < es.len()
        invariant
            i <= es.len(),
            tys_view(es@).len() == es@.len(),
            forall|j: int| 0 <= j < es@.len() ==> #[trigger] tys_view(es@)[j] == es@[j]@,
            tys_view(out@) == subst_vars_seq(tys_view(es@).take(i as int), bindings_chirho.map()),
        decreases es.len() - i,
    {
        proof { assert(decreases_to!(es@ => es@[i as int])); }
        let e = substitute_type_vars_chirho(&es[i], bindings_chirho);
        proof {
            lemma_tys_view_push(out@, e);
            let tv = tys_view(es@);
            assert(tv.take(i + 1).drop_last() =~= tv.take(i as int));
            assert(tv.take(i + 1).last() == es@[i as int]@);
        }
        out.push(e);
        i = i + 1;
    }
    proof { assert(tys_view(es@).take(es@.len() as int) =~= tys_view(es@)); }
    out
}

/// Every arrow reached through applications, arrows, lists and tuples is
/// unrestricted.
pub open spec fn arrows_unrestricted(t: TyV) -> bool
    decreases t,
{
    match t {
        TyV::App(f, a) => arrows_unrestricted(*f) && arrows_unrestricted(*a),
        TyV::Fun(a, r, m) => m == MultChirho::ManyChirho && arrows_unrestricted(*a) && arrows_unrestricted(*r),
        TyV::List(e) => arrows_unrestricted(*e),
        TyV::Tuple(es) => arrows_unrestricted_seq(es),
        _ => true,
    }
}

pub open spec fn arrows_unrestricted_seq(es: Seq<TyV>) -> bool
    decreases es,
{
    es.len() == 0 || (arrows_unrestricted_seq(es.drop_last()) && arrows_unrestricted(es.last()))
}

/// No variable occurring in `vs` is bound in `b`.
pub open spec fn none_bound(vs: Seq<u32>, b: Map<u32, TyV>) -> bool {
    forall|k: u32| #[trigger] vs.contains(k) ==> !b.dom().contains(k)
}

proof fn lemma_none_bound_split(v1: Seq<u32>, v2: Seq<u32>, b: Map<u32, TyV>)
    requires
        none_bound(v1 + v2, b),
    ensures
        none_bound(v1, b),
        none_bound(v2, b),
{
    assert forall|k: u32| #[trigger] v1.contains(k) implies !b.dom().contains(k) by {
        let i = choose|i: int| 0 <= i < v1.len() && v1[i] == k;
        assert((v1 + v2)[i] == k);
        assert((v1 + v2).contains(k));
    }
    assert forall|k: u32| #[trigger] v2.contains(k) implies !b.dom().contains(k) by {
        let i = choose|i: int| 0 <= i < v2.len() && v2[i] == k;
        assert((v1 + v2)[v1.len() + i] == k);
        assert((v1 + v2).contains(k));
    }
}

/// Substituting bindings for none of a type's variables leaves a type whose
/// arrows are unrestricted as it is.
pub proof fn lemma_subst_vars_unbound(t: TyV, b: Map<u32, TyV>)
    requires
        none_bound(occ(t, Seq::empty()), b),
        arrows_unrestricted(t),
    ensures
        subst_vars(t, b) == t,
    decreases t,
{
    match t {
        TyV::Var(v) => {
            assert(occ(t, Seq::empty()) == seq![v]);
            assert(seq![v][0] == v);
            assert(occ(t, Seq::empty()).contains(v));
        },
        TyV::App(f, a) => {
            lemma_none_bound_split(occ(*f, Seq::empty()), occ(*a, Seq::empty()), b);
            lemma_subst_vars_unbound(*f, b);
            lemma_subst_vars_unbound(*a, b);
        },
        TyV::Fun(a, r, m) => {
            lemma_none_bound_split(occ(*a, Seq::empty()), occ(*r, Seq::empty()), b);
            lemma_subst_vars_unbound(*a, b);
            lemma_subst_vars_unbound(*r, b);
        },
        TyV::List(e) => {
            lemma_subst_vars_unbound(*e, b);
        },
        TyV::Tuple(es) => {
            lemma_subst_vars_seq_unbound(es, b);
        },
        _ => {},
    }
}

/// The same law on a list of types.
pub proof fn lemma_subst_vars_seq_unbound(es: Seq<TyV>, b: Map<u32, TyV>)
    requires
        none_bound(occ_seq(es, Seq::empty()), b),
        arrows_unrestricted_seq(es),
    ensures
        subst_vars_seq(es, b) == es,
    decreases es,
{
    if es.len() > 0 {
        lemma_none_bound_split(occ_seq(es.drop_last(), Seq::empty()), occ(es.last(), Seq::empty()), b);
        assert(decreases_to!(es => es.last()));
        lemma_subst_vars_seq_unbound(es.drop_last(), b);
        lemma_subst_vars_unbound(es.last(), b);
        assert(es.drop_last().push(es.last()) =~= es);
    }
}

/// Substitute type variables in a type family equation right-hand side using
/// the bindings collected during pattern matching.
pub fn substitute_type_vars_chirho(ty_chirho: &TyChirho, bindings_chirho: &TypeBindingsChirho) -> (r: TyChirho)
    ensures
        r@ == subst_vars(ty_chirho@, bindings_chirho.map()),
    decreases ty_chirho, 1nat,
{
    match ty_chirho {
        TyChirho::VarChirho(tv_chirho) => match bindings_chirho.get_chirho(*tv_chirho) {
            Some(bound_chirho) => bound_chirho.copy_chirho(),
            None => ty_chirho.copy_chirho(),
        },
        TyChirho::AppChirho(f_chirho, a_chirho) => TyChirho::AppChirho(
            Box::new(substitute_type_vars_chirho(f_chirho, bindings_chirho)),
            Box::new(substitute_type_vars_chirho(a_chirho, bindings_chirho)),
        ),
        TyChirho::FunChirho(a_chirho, r_chirho, _) => TyChirho::FunChirho(
            Box::new(substitute_type_vars_chirho(a_chirho, bindings_chirho)),
            Box::new(substitute_type_vars_chirho(r_chirho, bindings_chirho)),
            MultChirho::ManyChirho,
        ),
        TyChirho::ListChirho(inner_chirho) => TyChirho::ListChirho(Box::new(
            substitute_type_vars_chirho(inner_chirho, bindings_chirho),
        )),
        TyChirho::TupleChirho(elems_chirho) => TyChirho::TupleChirho(
            substitute_type_vars_seq_chirho(elems_chirho, bindings_chirho),
        ),
        _ => ty_chirho.copy_chirho(),
    }
}


/// No arrow in `t` is linear.
pub open spec fn no_linear(t: TyV) -> bool
    decreases t,
{
    match t {
        TyV::App(f, a) => no_linear(*f) && no_linear(*a),
        TyV::KindApp(f, a) => no_linear(*f) && no_linear(*a),
        TyV::Fun(a, r, m) => m == MultChirho::ManyChirho && no_linear(*a) && no_linear(*r),
        TyV::List(e) => no_linear(*e),
        TyV::Tuple(es) => no_linear_seq(es),
        TyV::Forall(_, b) => no_linear(*b),
        TyV::RequiredForall(_, b) => no_linear(*b),
        _ => true,
    }
}

pub open spec fn no_linear_seq(es: Seq<TyV>) -> bool
    decreases es,
{
    es.len() == 0 || (no_linear_seq(es.drop_last()) && no_linear(es.last()))
}

pub proof fn lemma_submap_trans(a: Map<u32, TyV>, b: Map<u32, TyV>, c: Map<u32, TyV>)
    requires
        a.submap_of(b),
        b.submap_of(c),
    ensures
        a.submap_of(c),
{
    assert forall|k: u32| a.dom().contains(k) implies #[trigger] c.dom().contains(k) && a[k] == c[k] by {
        assert(a.dom().contains(k) && b.dom().contains(k) ==> a[k] == b[k]);
        assert(b.dom().contains(k));
        assert(b.dom().contains(k) && c.dom().contains(k) ==> b[k] == c[k]);
        assert(c.dom().contains(k));
    }
}

/// A successful match only adds bindings.
pub proof fn lemma_pmatch_extends(p: TyV, a: TyV, b: Map<u32, TyV>)
    requires
        pmatch(p, a, b) is Some,
    ensures
        b.submap_of(pmatch(p, a, b)->0),
    decreases p,
{
    match p {
        TyV::App(f, x) => {
            if let TyV::App(af, ax) = a {
                lemma_pmatch_extends(*f, *af, b);
                lemma_pmatch_extends(*x, *ax, pmatch(*f, *af, b)->0);
                lemma_submap_trans(b, pmatch(*f, *af, b)->0, pmatch(p, a, b)->0);
            }
        }
        TyV::Fun(f, x, _) => {
            if let TyV::Fun(af, ax, _) = a {
                lemma_pmatch_extends(*f, *af, b);
                lemma_pmatch_extends(*x, *ax, pmatch(*f, *af, b)->0);
                lemma_submap_trans(b, pmatch(*f, *af, b)->0, pmatch(p, a, b)->0);
            }
        }
        TyV::List(e) => {
            if let TyV::List(ae) = a {
                lemma_pmatch_extends(*e, *ae, b);
            }
        }
        TyV::Tuple(es) => {
            if let TyV::Tuple(aes) = a {
                lemma_pmatch_seq_extends(es, aes, b);
            }
        }
        _ => {}
    }
}

pub proof fn lemma_pmatch_seq_extends(ps: Seq<TyV>, args: Seq<TyV>, b: Map<u32, TyV>)
    requires
        pmatch_seq(ps, args, b) is Some,
    ensures
        b.submap_of(pmatch_seq(ps, args, b)->0),
    decreases ps,
{
    if ps.len() > 0 {
        let b1 = pmatch_seq(ps.drop_last(), args.drop_last(), b)->0;
        lemma_pmatch_seq_extends(ps.drop_last(), args.drop_last(), b);
        lemma_pmatch_extends(ps.last(), args[ps.len() - 1], b1);
        lemma_submap_trans(b, b1, pmatch_seq(ps, args, b)->0);
    }
}

/// Matching is sound: substituting any extension of the bindings a match
/// produced into the pattern gives back the argument (arrows of the argument
/// being unrestricted, as substitution rebuilds them).
pub proof fn lemma_pmatch_sound(p: TyV, a: TyV, b: Map<u32, TyV>, bf: Map<u32, TyV>)
    requires
        pmatch(p, a, b) is Some,
        (pmatch(p, a, b)->0).submap_of(bf),
        no_linear(a),
    ensures
        subst_vars(p, bf) == a,
    decreases p,
{
    match p {
        TyV::Var(v) => {
            let b1 = pmatch(p, a, b)->0;
            assert(b1.dom().contains(v) && b1[v] == a);
            assert(b1.dom().contains(v) ==> bf.dom().contains(v) && b1[v] == bf[v]);
        }
        TyV::App(f, x) => {
            if let TyV::App(af, ax) = a {
                let b1 = pmatch(*f, *af, b)->0;
                lemma_pmatch_extends(*x, *ax, b1);
                lemma_submap_trans(b1, pmatch(p, a, b)->0, bf);
                lemma_pmatch_sound(*f, *af, b, bf);
                lemma_pmatch_sound(*x, *ax, b1, bf);
            }
        }
        TyV::Fun(f, x, _) => {
            if let TyV::Fun(af, ax, _) = a {
                let b1 = pmatch(*f, *af, b)->0;
                lemma_pmatch_extends(*x, *ax, b1);
                lemma_submap_trans(b1, pmatch(p, a, b)->0, bf);
                lemma_pmatch_sound(*f, *af, b, bf);
                lemma_pmatch_sound(*x, *ax, b1, bf);
            }
        }
        TyV::List(e) => {
            if let TyV::List(ae) = a {
                lemma_pmatch_sound(*e, *ae, b, bf);
            }
        }
        TyV::Tuple(es) => {
            if let TyV::Tuple(aes) = a {
                lemma_pmatch_seq_sound(es, aes, b, bf);
                assert(subst_vars_seq(es, bf) =~= aes);
            }
        }
        _ => {}
    }
}

pub proof fn lemma_pmatch_seq_sound(ps: Seq<TyV>, args: Seq<TyV>, b: Map<u32, TyV>, bf: Map<u32, TyV>)
    requires
        ps.len() == args.len(),
        pmatch_seq(ps, args, b) is Some,
        (pmatch_seq(ps, args, b)->0).submap_of(bf),
        no_linear_seq(args),
    ensures
        subst_vars_seq(ps, bf).len() == ps.len(),
        forall|j: int| 0 <= j < ps.len() ==> #[trigger] subst_vars_seq(ps, bf)[j] == args[j],
    decreases ps,
{
    if ps.len() > 0 {
        let b1 = pmatch_seq(ps.drop_last(), args.drop_last(), b)->0;
        lemma_pmatch_extends(ps.last(), args[ps.len() - 1], b1);
        lemma_submap_trans(b1, pmatch_seq(ps, args, b)->0, bf);
        assert(args.last() == args[ps.len() - 1]);
        lemma_pmatch_seq_sound(ps.drop_last(), args.drop_last(), b, bf);
        lemma_pmatch_sound(ps.last(), args[ps.len() - 1], b1, bf);
        assert forall|j: int| 0 <= j < ps.len() implies #[trigger] subst_vars_seq(ps, bf)[j] == args[j] by {
            if j < ps.len() - 1 {
                assert(subst_vars_seq(ps.drop_last(), bf)[j] == args.drop_last()[j]);
            }
        }
    }
}

}
