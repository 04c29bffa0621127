//! Source-local declaration contracts: the kind, class, instance and family
//! promises of a boot interface, and the check that an implementation keeps
//! them.
use vstd::prelude::*;
use crate::alpha_chirho::alpha_scheme;
use crate::declarations_chirho::families_chirho::{budget_after, equation_nodes, equation_scheme_chirho, equation_scheme_v, walk_succeeds,
    TypeFamilyClauseChirho};
use crate::infer_chirho::SpanChirho;
use crate::names_chirho::{find_name_chirho, first_pos, lemma_first_pos, lemma_first_pos_push, lemma_first_pos_update, names_of};
use crate::text_order_chirho::{lemma_text_lt_irreflexive, lemma_text_lt_total, lemma_text_lt_transitive, text_lt, text_lt_chirho};
use crate::ty_chirho::{SchemeChirho, SchemeV};

verus! {

broadcast use vstd::seq_lib::to_multiset_contains;

/// The names of a list of named entries.
pub open spec fn entry_names<T>(es: Seq<(String, T)>) -> Seq<Seq<char>> {
    es.map_values(|e: (String, T)| e.0@)
}

/// The entries that a list of references points at.
pub open spec fn deref_entries<T>(es: Seq<(&String, &T)>) -> Seq<(String, T)> {
    es.map_values(|e: (&String, &T)| (*e.0, *e.1))
}

/// The entries of a table (each name once) in the order of their names.
pub fn ordered_entries_chirho<T>(entries_chirho: &Vec<(String, T)>) -> (r: Vec<(&String, &T)>)
    requires
        entry_names(entries_chirho@).no_duplicates(),
    ensures
        deref_entries(r@).to_multiset() == entries_chirho@.to_multiset(),
        forall|i: int, j: int| 0 <= i < j < r@.len() ==> text_lt(r@[i].0@, r@[j].0@),
{
    broadcast use vstd::seq_lib::to_multiset_build, vstd::seq_lib::to_multiset_insert, vstd::seq_lib::to_multiset_contains;
    let ghost names = entry_names(entries_chirho@);
    let mut ordered_chirho: Vec<(&String, &T)> = Vec::new();
    let mut i: usize = 0;
    proof {
        assert(deref_entries(ordered_chirho@) =~= Seq::<(String, T)>::empty());
        assert(entries_chirho@.take(0) =~= Seq::<(String, T)>::empty());
    }
    while i < entries_chirho.len()
        invariant
            i <= entries_chirho.len(),
            names == entry_names(entries_chirho@),
            names.no_duplicates(),
            deref_entries(ordered_chirho@).to_multiset() == entries_chirho@.take(i as int).to_multiset(),
            forall|a: int, b: int| 0 <= a < b < ordered_chirho@.len() ==> text_lt(ordered_chirho@[a].0@, ordered_chirho@[b].0@),
        decreases entries_chirho.len() - i,
    {
        let name_chirho = &entries_chirho[i].0;
        let value_chirho = &entries_chirho[i].1;
        let mut k: usize = 0;
        let mut stop = false;
        while !stop && k < ordered_chirho.len()
            invariant
                k <= ordered_chirho.len(),
                forall|a: int| 0 <= a < k ==> text_lt((#[trigger] ordered_chirho@[a]).0@, name_chirho@),
                stop ==> k < ordered_chirho.len() && !text_lt(ordered_chirho@[k as int].0@, name_chirho@),
            decreases ordered_chirho.len() - k + (if stop { 0int } else { 1int }),
        {
            if text_lt_chirho(ordered_chirho[k].0.as_str(), name_chirho.as_str()) {
                k = k + 1;
            } else {
                stop = true;
            }
        }
        let ghost before = ordered_chirho@;
        proof {
            if stop {
                // The name is new, so it differs from the one it stops at.
                let a = k as int;
                let d = deref_entries(before);
                assert(d[a] == (*before[a].0, *before[a].1));
                assert(d.contains(d[a]));
                vstd::seq_lib::to_multiset_contains(d, d[a]);
                vstd::seq_lib::to_multiset_contains(entries_chirho@.take(i as int), d[a]);
                assert(entries_chirho@.take(i as int).contains(d[a]));
                let kk = choose|kk: int| 0 <= kk < i && entries_chirho@.take(i as int)[kk] == d[a];
                assert(entries_chirho@[kk] == d[a]);
                assert(names[kk] == before[a].0@);
                assert(names[i as int] == name_chirho@);
                lemma_text_lt_total(before[a].0@, name_chirho@);
            }
        }
        ordered_chirho.insert(k, (name_chirho, value_chirho));
        proof {
            let now = ordered_chirho@;
            assert(now == before.insert(k as int, (name_chirho, value_chirho)));
            assert(deref_entries(now) =~= deref_entries(before).insert(k as int, entries_chirho@[i as int]));
            assert(entries_chirho@.take(i + 1) =~= entries_chirho@.take(i as int).push(entries_chirho@[i as int]));
            vstd::seq_lib::to_multiset_insert(deref_entries(before), k as int, entries_chirho@[i as int]);
            vstd::seq_lib::to_multiset_build(entries_chirho@.take(i as int), entries_chirho@[i as int]);
            assert forall|a: int, b: int| 0 <= a < b < now.len() implies text_lt(now[a].0@, now[b].0@) by {
                if b < k {
                } else if b == k {
                } else if a < k {
                    if b > k + 1 {
                        lemma_text_lt_transitive(name_chirho@, before[k as int].0@, now[b].0@);
                    }
                    lemma_text_lt_transitive(now[a].0@, name_chirho@, now[b].0@);
                } else if a == k {
                    if b > k + 1 {
                        lemma_text_lt_transitive(name_chirho@, before[k as int].0@, now[b].0@);
                    }
                } else {
                    assert(now[a] == before[a - 1] && now[b] == before[b - 1]);
                }
            }
        }
        i = i + 1;
    }
    proof { assert(entries_chirho@.take(entries_chirho@.len() as int) =~= entries_chirho@); }
    ordered_chirho
}


/// The most instance comparisons one boot check may make.
pub const INSTANCE_COMPARISON_LIMIT_CHIRHO: usize = 16384;

/// A class's promise: whether the boot interface declares it abstractly, and
/// its functional dependencies (`None` when they are not known).
#[derive(Debug)]
pub struct ClassContractChirho {
    pub abstract_chirho: bool,
    pub fundeps_chirho: Option<Vec<(Vec<usize>, Vec<usize>)>>,
}

/// The functional dependencies as index lists.
pub open spec fn fundeps_view(f: Option<Vec<(Vec<usize>, Vec<usize>)>>) -> Option<Seq<(Seq<usize>, Seq<usize>)>> {
    match f {
        Some(v) => Some(v@.map_values(|p: (Vec<usize>, Vec<usize>)| (p.0@, p.1@))),
        None => None,
    }
}

fn usizes_eq_chirho(a: &Vec<usize>, b: &Vec<usize>) -> (r: bool)
    ensures
        r == (a@ == b@),
{
    if a.len() != b.len() {
        return false;
    }
    let mut i: usize = 0;
    while i < a.len()
        invariant
            i <= a.len(),
            a.len() == b.len(),
            forall|j: int| 0 <= j < i ==> a@[j] == b@[j],
        decreases a.len() - i,
    {
        if a[i] != b[i] {
            return false;
        }
        i = i + 1;
    }
    proof { assert(a@ =~= b@); }
    true
}

/// Whether two lists of functional dependencies are the same.
fn fundeps_eq_chirho(a: &Option<Vec<(Vec<usize>, Vec<usize>)>>, b: &Option<Vec<(Vec<usize>, Vec<usize>)>>) -> (r: bool)
    ensures
        r == (fundeps_view(*a) == fundeps_view(*b)),
{
    match (a, b) {
        (Some(x), Some(y)) => {
            let ghost xv = fundeps_view(*a)->0;
            let ghost yv = fundeps_view(*b)->0;
            proof { assert(xv.len() == x@.len() && yv.len() == y@.len()); }
            if x.len() != y.len() {
                return false;
            }
            let mut i: usize = 0;
            while i < x.len()
                invariant
                    i <= x.len(),
                    x.len() == y.len(),
                    xv == x@.map_values(|p: (Vec<usize>, Vec<usize>)| (p.0@, p.1@)),
                    yv == y@.map_values(|p: (Vec<usize>, Vec<usize>)| (p.0@, p.1@)),
                    fundeps_view(*a) == Some(xv),
                    fundeps_view(*b) == Some(yv),
                    forall|j: int| 0 <= j < i ==> xv[j] == yv[j],
                decreases x.len() - i,
            {
                if !usizes_eq_chirho(&x[i].0, &y[i].0) || !usizes_eq_chirho(&x[i].1, &y[i].1) {
                    proof { assert(xv[i as int] != yv[i as int]); }
                    return false;
                }
                i = i + 1;
            }
            proof { assert(xv =~= yv); }
            true
        },
        (None, None) => true,
        _ => false,
    }
}

/// The kind of a type constructor: `*`, or an arrow between kinds.
#[derive(Debug)]
pub enum KindChirho {
    StarChirho,
    ArrowChirho(Box<KindChirho>, Box<KindChirho>),
}

/// Structural equality of kinds.
pub fn kinds_eq_chirho(a: &KindChirho, b: &KindChirho) -> (r: bool)
    ensures
        r == (*a == *b),
    decreases a,
{
    match (a, b) {
        (KindChirho::StarChirho, KindChirho::StarChirho) => true,
        (KindChirho::ArrowChirho(a1, a2), KindChirho::ArrowChirho(b1, b2)) => kinds_eq_chirho(a1, b1) && kinds_eq_chirho(a2, b2),
        _ => false,
    }
}

/// A type's kind promise: the kind of a monomorphic, nominal type head.
#[derive(Debug)]
pub struct KindContractChirho {
    pub kind_chirho: KindChirho,
}

impl KindContractChirho {
    /// The promise that a nominal type head has kind `kind`.
    pub fn monomorphic_nominal_chirho(kind_chirho: KindChirho) -> (r: KindContractChirho)
        ensures
            r.kind_chirho == kind_chirho,
    {
        KindContractChirho { kind_chirho }
    }

    /// Whether an implementation's promise agrees with this one: the kinds
    /// are the same.
    pub fn agrees_with_chirho(&self, actual_chirho: &KindContractChirho) -> (r: bool)
        ensures
            r == (self.kind_chirho == actual_chirho.kind_chirho),
    {
        kinds_eq_chirho(&self.kind_chirho, &actual_chirho.kind_chirho)
    }
}

/// What kind of promise a boot check found broken.
#[derive(Debug, Clone, Copy, PartialEq, Eq, Structural)]
pub enum BootContractErrorKindChirho {
    NoLocalTypeChirho,
    KindMismatchChirho,
    FullClassNotRepresentedChirho,
    NoLocalClassChirho,
    DifferentFundepsChirho,
    InstanceNotRepresentedChirho,
    BudgetExhaustedChirho,
    NoMatchingInstanceChirho,
    FamilyBodyMismatchChirho,
}

/// A broken boot promise, with the name it concerns (empty where none).
#[derive(Debug, Clone, PartialEq, Eq)]
pub struct BootContractErrorChirho {
    pub kind_chirho: BootContractErrorKindChirho,
    pub name_chirho: String,
}

/// The text around the name in the message of an error of kind `k`.
pub open spec fn message_frame(k: BootContractErrorKindChirho) -> (Seq<char>, Seq<char>) {
    match k {
        BootContractErrorKindChirho::NoLocalTypeChirho => ("boot contract type "@, " has no local implementation"@),
        BootContractErrorKindChirho::KindMismatchChirho => ("boot contract mismatch for "@, ": the kinds differ"@),
        BootContractErrorKindChirho::FullClassNotRepresentedChirho => ("boot contract full class agreement is not represented: "@, ""@),
        BootContractErrorKindChirho::NoLocalClassChirho => ("boot contract class "@, " has no local implementation"@),
        BootContractErrorKindChirho::DifferentFundepsChirho => ("boot contract class "@, " has different functional dependencies"@),
        BootContractErrorKindChirho::InstanceNotRepresentedChirho => ("boot contract instance agreement is not represented: "@, ""@),
        BootContractErrorKindChirho::BudgetExhaustedChirho => ("boot contract instance comparison budget exhausted"@, ""@),
        BootContractErrorKindChirho::NoMatchingInstanceChirho => ("boot contract instance "@, " has no matching local implementation"@),
        BootContractErrorKindChirho::FamilyBodyMismatchChirho => ("boot contract family body mismatch for "@, ""@),
    }
}

impl BootContractErrorChirho {
    /// The error's message.
    pub fn message_chirho(&self) -> (r: String)
        ensures
            r@ == message_frame(self.kind_chirho).0 + self.name_chirho@ + message_frame(self.kind_chirho).1,
    {
        let (before, after) = match self.kind_chirho {
            BootContractErrorKindChirho::NoLocalTypeChirho => ("boot contract type ", " has no local implementation"),
            BootContractErrorKindChirho::KindMismatchChirho => ("boot contract mismatch for ", ": the kinds differ"),
            BootContractErrorKindChirho::FullClassNotRepresentedChirho => ("boot contract full class agreement is not represented: ", ""),
            BootContractErrorKindChirho::NoLocalClassChirho => ("boot contract class ", " has no local implementation"),
            BootContractErrorKindChirho::DifferentFundepsChirho => ("boot contract class ", " has different functional dependencies"),
            BootContractErrorKindChirho::InstanceNotRepresentedChirho => ("boot contract instance agreement is not represented: ", ""),
            BootContractErrorKindChirho::BudgetExhaustedChirho => ("boot contract instance comparison budget exhausted", ""),
            BootContractErrorKindChirho::NoMatchingInstanceChirho => ("boot contract instance ", " has no matching local implementation"),
            BootContractErrorKindChirho::FamilyBodyMismatchChirho => ("boot contract family body mismatch for ", ""),
        };
        let mut message = before.to_owned();
        message.append(self.name_chirho.as_str());
        message.append(after);
        message
    }
}

/// A family's promise: open, closed with its body kept abstract, or closed
/// with its checked equations.
#[derive(Debug)]
pub enum FamilyContractChirho {
    OpenChirho,
    AbstractClosedChirho,
    ClosedChirho(Vec<FamilyEquationContractChirho>),
}

/// A checked equation of a closed family: where it was written and its
/// scheme.
#[derive(Debug)]
pub struct FamilyEquationContractChirho {
    pub source_chirho: SpanChirho,
    pub scheme_chirho: SchemeChirho,
}

/// The source-local promises of a module: the kinds of its type heads, its
/// classes, the instances it declares (by class), the classes of instances
/// whose agreement cannot be represented, and its families. Each table names
/// a type, class or family once.
#[derive(Debug)]
pub struct DeclarationContractsChirho {
    pub kinds_chirho: Vec<(String, KindContractChirho)>,
    pub classes_chirho: Vec<(String, ClassContractChirho)>,
    pub instances_chirho: Vec<(String, Vec<SchemeChirho>)>,
    pub unproved_instances_chirho: Vec<String>,
    pub families_chirho: Vec<(String, FamilyContractChirho)>,
}

impl DeclarationContractsChirho {
    /// No promises.
    pub fn new_chirho() -> (r: DeclarationContractsChirho)
        ensures
            r.kinds_chirho@.len() == 0,
            r.classes_chirho@.len() == 0,
            r.instances_chirho@.len() == 0,
            r.unproved_instances_chirho@.len() == 0,
            r.families_chirho@.len() == 0,
    {
        DeclarationContractsChirho {
            kinds_chirho: Vec::new(),
            classes_chirho: Vec::new(),
            instances_chirho: Vec::new(),
            unproved_instances_chirho: Vec::new(),
            families_chirho: Vec::new(),
        }
    }

    /// Each type, class, instance class and family is named once.
    pub open spec fn well_formed(&self) -> bool {
        &&& names_of(self.kinds_chirho@).no_duplicates()
        &&& names_of(self.classes_chirho@).no_duplicates()
        &&& names_of(self.instances_chirho@).no_duplicates()
        &&& names_of(self.families_chirho@).no_duplicates()
    }

    /// Attaches the kind promises of the module's own type heads, replacing
    /// those it had.
    pub fn set_local_kind_contracts_chirho(&mut self, kinds_chirho: Vec<(String, KindContractChirho)>)
        ensures
            final(self).kinds_chirho@ == kinds_chirho@,
            final(self).classes_chirho@ == old(self).classes_chirho@,
            final(self).instances_chirho@ == old(self).instances_chirho@,
            final(self).unproved_instances_chirho@ == old(self).unproved_instances_chirho@,
            final(self).families_chirho@ == old(self).families_chirho@,
    {
        self.kinds_chirho = kinds_chirho;
    }

    /// Whether the class `name` is declared abstractly with known functional
    /// dependencies, so that a boot interface may promise it.
    pub fn supports_abstract_boot_class_chirho(&self, name_chirho: &str) -> (r: bool)
        ensures
            r == (first_pos(names_of(self.classes_chirho@), name_chirho@) >= 0 && {
                let c = self.classes_chirho@[first_pos(names_of(self.classes_chirho@), name_chirho@)].1;
                c.abstract_chirho && c.fundeps_chirho is Some
            }),
    {
        proof { lemma_first_pos(names_of(self.classes_chirho@), name_chirho@); }
        match find_name_chirho(&self.classes_chirho, name_chirho) {
            Some(k) => self.classes_chirho[k].1.abstract_chirho && self.classes_chirho[k].1.fundeps_chirho.is_some(),
            None => false,
        }
    }
}

impl Default for DeclarationContractsChirho {
    fn default() -> (r: DeclarationContractsChirho)
        ensures
            r.kinds_chirho@.len() == 0,
            r.classes_chirho@.len() == 0,
            r.instances_chirho@.len() == 0,
            r.unproved_instances_chirho@.len() == 0,
            r.families_chirho@.len() == 0,
    {
        DeclarationContractsChirho::new_chirho()
    }
}

/// The kind of error a check returned, if it failed.
pub open spec fn err_kind(r: Result<(), BootContractErrorChirho>) -> Option<BootContractErrorKindChirho> {
    match r {
        Ok(()) => None,
        Err(e) => Some(e.kind_chirho),
    }
}

/// The name an error concerns (empty when the check passed).
pub open spec fn err_name(r: Result<(), BootContractErrorChirho>) -> Seq<char> {
    match r {
        Ok(()) => Seq::empty(),
        Err(e) => e.name_chirho@,
    }
}

/// What breaks the kind promise of entry `e` against the implementation's
/// kinds `imp`, if anything: a type the implementation lacks, or a different
/// kind.
pub open spec fn kind_failure(e: (String, KindContractChirho), imp: Seq<(String, KindContractChirho)>) -> Option<BootContractErrorKindChirho> {
    if first_pos(names_of(imp), e.0@) < 0 {
        Some(BootContractErrorKindChirho::NoLocalTypeChirho)
    } else if imp[first_pos(names_of(imp), e.0@)].1.kind_chirho != e.1.kind_chirho {
        Some(BootContractErrorKindChirho::KindMismatchChirho)
    } else {
        None
    }
}

/// Every kind promise of `es` is kept by the implementation's kinds `imp`.
pub open spec fn kinds_kept(es: Seq<(String, KindContractChirho)>, imp: Seq<(String, KindContractChirho)>) -> bool {
    forall|k: int| 0 <= k < es.len() ==> (#[trigger] kind_failure(es[k], imp)) is None
}

/// Whether an error kind is one of the kind errors.
pub open spec fn is_kind_error(k: Option<BootContractErrorKindChirho>) -> bool {
    k == Some(BootContractErrorKindChirho::NoLocalTypeChirho)
        || k == Some(BootContractErrorKindChirho::KindMismatchChirho)
}

/// Whether a kind is one of the class errors.
pub open spec fn is_class_kind(k: Option<BootContractErrorKindChirho>) -> bool {
    k == Some(BootContractErrorKindChirho::FullClassNotRepresentedChirho)
        || k == Some(BootContractErrorKindChirho::NoLocalClassChirho)
        || k == Some(BootContractErrorKindChirho::DifferentFundepsChirho)
}

/// What breaks the promise of class entry `e` against the implementation's
/// classes `imp`, if anything: a class not declared abstractly, a class the
/// implementation lacks, or unknown or different functional dependencies.
pub open spec fn class_failure(e: (String, ClassContractChirho), imp: Seq<(String, ClassContractChirho)>) -> Option<BootContractErrorKindChirho> {
    if !e.1.abstract_chirho {
        Some(BootContractErrorKindChirho::FullClassNotRepresentedChirho)
    } else if first_pos(names_of(imp), e.0@) < 0 {
        Some(BootContractErrorKindChirho::NoLocalClassChirho)
    } else if fundeps_view(e.1.fundeps_chirho) is None
        || fundeps_view(e.1.fundeps_chirho) != fundeps_view(imp[first_pos(names_of(imp), e.0@)].1.fundeps_chirho) {
        Some(BootContractErrorKindChirho::DifferentFundepsChirho)
    } else {
        None
    }
}

/// The implementation's instances of class `name`.
pub open spec fn instances_of(imp: Seq<(String, Vec<SchemeChirho>)>, name: Seq<char>) -> Seq<SchemeChirho> {
    if first_pos(names_of(imp), name) >= 0 { imp[first_pos(names_of(imp), name)].1@ } else { Seq::empty() }
}

/// Whether the promised instance `p` has an alpha-equivalent instance among `acts`.
pub open spec fn promise_met(p: SchemeChirho, acts: Seq<SchemeChirho>) -> bool {
    exists|a: int| 0 <= a < acts.len() && alpha_scheme(p@, (#[trigger] acts[a])@)
}

/// How many of the candidates `acts` are compared with the promise `p`: up to
/// and including the first alpha-equivalent one, or all of them.
pub open spec fn match_cost(p: SchemeV, acts: Seq<SchemeChirho>) -> nat
    decreases acts.len(),
{
    if acts.len() == 0 {
        0
    } else if alpha_scheme(p, acts[0]@) {
        1
    } else {
        1 + match_cost(p, acts.drop_first())
    }
}

/// How many comparisons the promises `ps` take against `acts`: each promise
/// in turn, stopping after the first that no candidate meets.
pub open spec fn entry_cost(ps: Seq<SchemeChirho>, acts: Seq<SchemeChirho>) -> nat
    decreases ps.len(),
{
    if ps.len() == 0 {
        0
    } else if !promise_met(ps[0], acts) {
        match_cost(ps[0]@, acts)
    } else {
        match_cost(ps[0]@, acts) + entry_cost(ps.drop_first(), acts)
    }
}

/// Every promise of the instance entry `e` is met by the implementation.
pub open spec fn entry_met(e: (String, Vec<SchemeChirho>), imp: Seq<(String, Vec<SchemeChirho>)>) -> bool {
    forall|q: int| 0 <= q < e.1@.len() ==> promise_met(#[trigger] e.1@[q], instances_of(imp, e.0@))
}

/// The comparisons that the instance entry `e` takes.
pub open spec fn inst_cost(e: (String, Vec<SchemeChirho>), imp: Seq<(String, Vec<SchemeChirho>)>) -> int {
    entry_cost(e.1@, instances_of(imp, e.0@)) as int
}

/// Adds the cost of an entry whose name comes before `x` (any entry, for `None`).
pub open spec fn cost_step(imp: Seq<(String, Vec<SchemeChirho>)>, x: Option<Seq<char>>)
    -> spec_fn(int, (String, Vec<SchemeChirho>)) -> int {
    |acc: int, e: (String, Vec<SchemeChirho>)| acc + (if x is None || text_lt(e.0@, x->0) { inst_cost(e, imp) } else { 0 })
}

/// The comparisons of the entries of `ins` whose names come before `x` (of
/// all of them, for `None`).
pub open spec fn cost_before(ins: Seq<(String, Vec<SchemeChirho>)>, imp: Seq<(String, Vec<SchemeChirho>)>, x: Option<Seq<char>>) -> int {
    ins.fold_left(0int, cost_step(imp, x))
}

/// Entry `k` has an unmet promise, and no entry with an unmet promise has a
/// smaller name.
pub open spec fn least_unmet(ins: Seq<(String, Vec<SchemeChirho>)>, imp: Seq<(String, Vec<SchemeChirho>)>, k: int) -> bool {
    &&& 0 <= k < ins.len()
    &&& !entry_met(ins[k], imp)
    &&& forall|k2: int| 0 <= k2 < ins.len() && !entry_met(#[trigger] ins[k2], imp) ==> !text_lt(ins[k2].0@, ins[k].0@)
}

/// How many comparisons the instance promises need, the entries taken in
/// name order: up to and including the first entry with an unmet promise, or
/// all of them.
pub open spec fn instance_comparisons(ins: Seq<(String, Vec<SchemeChirho>)>, imp: Seq<(String, Vec<SchemeChirho>)>) -> int {
    if exists|k: int| least_unmet(ins, imp, k) {
        let k = choose|k: int| least_unmet(ins, imp, k);
        cost_before(ins, imp, Some(ins[k].0@)) + inst_cost(ins[k], imp)
    } else {
        cost_before(ins, imp, None)
    }
}

/// The comparisons of the first `j` entries of `s`.
pub open spec fn prefix_cost(s: Seq<(String, Vec<SchemeChirho>)>, imp: Seq<(String, Vec<SchemeChirho>)>, j: int) -> int
    decreases j,
{
    if j <= 0 {
        0
    } else {
        prefix_cost(s, imp, j - 1) + inst_cost(s[j - 1], imp)
    }
}

proof fn lemma_prefix_cost_mono(s: Seq<(String, Vec<SchemeChirho>)>, imp: Seq<(String, Vec<SchemeChirho>)>, i: int, j: int)
    requires
        0 <= i <= j,
    ensures
        prefix_cost(s, imp, i) <= prefix_cost(s, imp, j),
    decreases j,
{
    if i < j {
        lemma_prefix_cost_mono(s, imp, i, j - 1);
    }
}

/// Candidates before `a` do not match `p`: the cost is `a + 1` if `a`
/// matches, at least `a + 1` while candidates remain, and all of them if none
/// does.
proof fn lemma_match_cost(p: SchemeV, acts: Seq<SchemeChirho>, a: int)
    requires
        0 <= a <= acts.len(),
        forall|b: int| 0 <= b < a ==> !alpha_scheme(p, (#[trigger] acts[b])@),
    ensures
        a < acts.len() ==> match_cost(p, acts) >= a + 1,
        a < acts.len() && alpha_scheme(p, acts[a]@) ==> match_cost(p, acts) == a + 1,
        a == acts.len() ==> match_cost(p, acts) == acts.len(),
    decreases a,
{
    if a > 0 {
        let t = acts.drop_first();
        assert forall|b: int| 0 <= b < a - 1 implies !alpha_scheme(p, (#[trigger] t[b])@) by {
            assert(t[b] == acts[b + 1]);
        }
        lemma_match_cost(p, t, a - 1);
        assert(!alpha_scheme(p, acts[0]@));
        if a < acts.len() {
            assert(t[a - 1] == acts[a]);
        }
    }
}

/// With the promises before `p` met, the entry's cost splits at `p`.
proof fn lemma_entry_cost_prefix(ps: Seq<SchemeChirho>, acts: Seq<SchemeChirho>, p: int)
    requires
        0 <= p < ps.len(),
        forall|q: int| 0 <= q < p ==> promise_met(#[trigger] ps[q], acts),
    ensures
        entry_cost(ps, acts) >= entry_cost(ps.take(p), acts) + match_cost(ps[p]@, acts),
        !promise_met(ps[p], acts) ==> entry_cost(ps, acts) == entry_cost(ps.take(p), acts) + match_cost(ps[p]@, acts),
        promise_met(ps[p], acts) ==> entry_cost(ps.take(p + 1), acts) == entry_cost(ps.take(p), acts) + match_cost(ps[p]@, acts),
    decreases p,
{
    if p == 0 {
        assert(ps.take(0).len() == 0);
        let t1 = ps.take(1);
        assert(t1[0] == ps[0]);
        assert(t1.drop_first().len() == 0);
        assert(entry_cost(t1.drop_first(), acts) == 0);
        assert(entry_cost(ps.take(0), acts) == 0);
        if promise_met(ps[0], acts) {
            assert(entry_cost(t1, acts) == match_cost(ps[0]@, acts) + entry_cost(t1.drop_first(), acts));
        }
    } else {
        let t = ps.drop_first();
        assert forall|q: int| 0 <= q < p - 1 implies promise_met(#[trigger] t[q], acts) by {
            assert(t[q] == ps[q + 1]);
        }
        assert(promise_met(ps[0], acts));
        lemma_entry_cost_prefix(t, acts, p - 1);
        assert(t[p - 1] == ps[p]);
        assert(ps.take(p).drop_first() =~= t.take(p - 1));
        assert(ps.take(p)[0] == ps[0]);
        assert(ps.take(p + 1).drop_first() =~= t.take(p));
        assert(ps.take(p + 1)[0] == ps[0]);
        assert(entry_cost(ps.take(p), acts) == match_cost(ps[0]@, acts) + entry_cost(t.take(p - 1), acts));
        assert(entry_cost(ps.take(p + 1), acts) == match_cost(ps[0]@, acts) + entry_cost(t.take(p), acts));
    }
}

/// The cost of entries before a name is the same in any order.
proof fn lemma_cost_permutation(a: Seq<(String, Vec<SchemeChirho>)>, b: Seq<(String, Vec<SchemeChirho>)>,
    imp: Seq<(String, Vec<SchemeChirho>)>, x: Option<Seq<char>>)
    requires
        a.to_multiset() == b.to_multiset(),
    ensures
        cost_before(a, imp, x) == cost_before(b, imp, x),
{
    let f = cost_step(imp, x);
    assert(vstd::seq_lib::commutative_foldl(f));
    vstd::seq_lib::lemma_fold_left_permutation(a, b, f, 0int);
}

/// In a list sorted by name, the entries before the name at position `x`
/// are the first `x`.
proof fn lemma_cost_sorted(s: Seq<(String, Vec<SchemeChirho>)>, imp: Seq<(String, Vec<SchemeChirho>)>, x: int, j: int)
    requires
        forall|a: int, b: int| 0 <= a < b < s.len() ==> text_lt(s[a].0@, s[b].0@),
        0 <= x < s.len(),
        0 <= j <= s.len(),
    ensures
        s.take(j).fold_left(0int, cost_step(imp, Some(s[x].0@))) == prefix_cost(s, imp, if j < x { j } else { x }),
        s.take(j).fold_left(0int, cost_step(imp, None)) == prefix_cost(s, imp, j),
    decreases j,
{
    if j > 0 {
        lemma_cost_sorted(s, imp, x, j - 1);
        assert(s.take(j).drop_last() =~= s.take(j - 1));
        assert(s.take(j).last() == s[j - 1]);
        if j - 1 < x {
            assert(text_lt(s[j - 1].0@, s[x].0@));
        } else if j - 1 == x {
            lemma_text_lt_irreflexive(s[x].0@);
        } else {
            assert(text_lt(s[x].0@, s[j - 1].0@));
            if text_lt(s[j - 1].0@, s[x].0@) {
                lemma_text_lt_transitive(s[x].0@, s[j - 1].0@, s[x].0@);
                lemma_text_lt_irreflexive(s[x].0@);
            }
        }
    } else {
        assert(s.take(0).len() == 0);
    }
}

/// Where an entry of `ins` sits in a permutation `oi`.
proof fn lemma_position_in(ins: Seq<(String, Vec<SchemeChirho>)>, oi: Seq<(String, Vec<SchemeChirho>)>, k: int) -> (y: int)
    requires
        oi.to_multiset() == ins.to_multiset(),
        0 <= k < ins.len(),
    ensures
        0 <= y < oi.len(),
        oi[y] == ins[k],
{
    broadcast use vstd::seq_lib::to_multiset_contains;
    assert(ins.contains(ins[k]));
    assert(ins.to_multiset().count(ins[k]) > 0);
    assert(oi.contains(ins[k]));
    choose|y: int| 0 <= y < oi.len() && oi[y] == ins[k]
}

/// The name order of a sorted list is the order of positions.
proof fn lemma_sorted_order(oi: Seq<(String, Vec<SchemeChirho>)>, a: int, b: int)
    requires
        forall|i: int, j: int| 0 <= i < j < oi.len() ==> text_lt(oi[i].0@, oi[j].0@),
        0 <= a < oi.len(),
        0 <= b < oi.len(),
    ensures
        text_lt(oi[a].0@, oi[b].0@) <==> a < b,
{
    if a == b {
        lemma_text_lt_irreflexive(oi[a].0@);
    } else if b < a {
        if text_lt(oi[a].0@, oi[b].0@) {
            lemma_text_lt_transitive(oi[a].0@, oi[b].0@, oi[a].0@);
            lemma_text_lt_irreflexive(oi[a].0@);
        }
    }
}

/// Two least unmet entries are one entry.
proof fn lemma_least_unique(ins: Seq<(String, Vec<SchemeChirho>)>, imp: Seq<(String, Vec<SchemeChirho>)>, k1: int, k2: int)
    requires
        names_of(ins).no_duplicates(),
        least_unmet(ins, imp, k1),
        least_unmet(ins, imp, k2),
    ensures
        k1 == k2,
{
    assert(!text_lt(ins[k1].0@, ins[k2].0@));
    assert(!text_lt(ins[k2].0@, ins[k1].0@));
    lemma_text_lt_total(ins[k1].0@, ins[k2].0@);
    assert(names_of(ins)[k1] == names_of(ins)[k2]);
}

/// With the entries of `oi` before `x` met and entry `x` unmet, the entry
/// of `ins` equal to it is the least unmet one.
proof fn lemma_first_unmet(ins: Seq<(String, Vec<SchemeChirho>)>, oi: Seq<(String, Vec<SchemeChirho>)>,
    imp: Seq<(String, Vec<SchemeChirho>)>, x: int, kx: int)
    requires
        oi.to_multiset() == ins.to_multiset(),
        forall|a: int, b: int| 0 <= a < b < oi.len() ==> text_lt(oi[a].0@, oi[b].0@),
        0 <= x < oi.len(),
        forall|a: int| 0 <= a < x ==> entry_met(#[trigger] oi[a], imp),
        !entry_met(oi[x], imp),
        0 <= kx < ins.len(),
        ins[kx] == oi[x],
    ensures
        least_unmet(ins, imp, kx),
{
    assert forall|k2: int| 0 <= k2 < ins.len() && !entry_met(#[trigger] ins[k2], imp)
        implies !text_lt(ins[k2].0@, ins[kx].0@) by {
        let y2 = lemma_position_in(ins, oi, k2);
        if y2 < x {
            assert(entry_met(oi[y2], imp));
        }
        lemma_sorted_order(oi, y2, x);
    }
}

/// The comparisons needed, given the least unmet entry's place in `oi`.
proof fn lemma_needed_at(ins: Seq<(String, Vec<SchemeChirho>)>, oi: Seq<(String, Vec<SchemeChirho>)>,
    imp: Seq<(String, Vec<SchemeChirho>)>, k: int, y: int)
    requires
        oi.to_multiset() == ins.to_multiset(),
        forall|a: int, b: int| 0 <= a < b < oi.len() ==> text_lt(oi[a].0@, oi[b].0@),
        names_of(ins).no_duplicates(),
        least_unmet(ins, imp, k),
        0 <= y < oi.len(),
        oi[y] == ins[k],
    ensures
        instance_comparisons(ins, imp) == prefix_cost(oi, imp, y) + inst_cost(oi[y], imp),
{
    let k0 = choose|k0: int| least_unmet(ins, imp, k0);
    lemma_least_unique(ins, imp, k0, k);
    let n = oi.len() as int;
    assert(oi.take(n) =~= oi);
    lemma_cost_sorted(oi, imp, y, n);
    lemma_cost_permutation(ins, oi, imp, Some(oi[y].0@));
}

/// The comparisons needed when every entry is met.
proof fn lemma_needed_all(ins: Seq<(String, Vec<SchemeChirho>)>, oi: Seq<(String, Vec<SchemeChirho>)>,
    imp: Seq<(String, Vec<SchemeChirho>)>)
    requires
        oi.to_multiset() == ins.to_multiset(),
        forall|a: int, b: int| 0 <= a < b < oi.len() ==> text_lt(oi[a].0@, oi[b].0@),
        !exists|k: int| least_unmet(ins, imp, k),
    ensures
        instance_comparisons(ins, imp) == prefix_cost(oi, imp, oi.len() as int),
{
    let n = oi.len() as int;
    assert(oi.take(n) =~= oi);
    if n > 0 {
        lemma_cost_sorted(oi, imp, 0, n);
    } else {
        assert(oi.take(0).len() == 0);
    }
    lemma_cost_permutation(ins, oi, imp, None);
}

/// With the first `x` entries of the sorted `oi` met, the comparisons needed
/// reach at least through entry `x`, exactly through it when it has an unmet
/// promise, and are those of all entries when every entry is met.
proof fn lemma_needed(ins: Seq<(String, Vec<SchemeChirho>)>, oi: Seq<(String, Vec<SchemeChirho>)>,
    imp: Seq<(String, Vec<SchemeChirho>)>, x: int)
    requires
        oi.to_multiset() == ins.to_multiset(),
        forall|a: int, b: int| 0 <= a < b < oi.len() ==> text_lt(oi[a].0@, oi[b].0@),
        names_of(ins).no_duplicates(),
        0 <= x <= oi.len(),
        forall|a: int| 0 <= a < x ==> entry_met(#[trigger] oi[a], imp),
    ensures
        x < oi.len() ==> instance_comparisons(ins, imp) >= prefix_cost(oi, imp, x) + inst_cost(oi[x], imp),
        x < oi.len() && !entry_met(oi[x], imp) ==> instance_comparisons(ins, imp) == prefix_cost(oi, imp, x) + inst_cost(oi[x], imp)
            && forall|k: int| least_unmet(ins, imp, k) ==> ins[k] == oi[x],
        x == oi.len() ==> instance_comparisons(ins, imp) == prefix_cost(oi, imp, x)
            && forall|k: int| 0 <= k < ins.len() ==> entry_met(#[trigger] ins[k], imp),
{
    let n = oi.len() as int;
    if exists|k: int| least_unmet(ins, imp, k) {
        let k = choose|k: int| least_unmet(ins, imp, k);
        let y = lemma_position_in(ins, oi, k);
        lemma_needed_at(ins, oi, imp, k, y);
        if y < x {
            assert(entry_met(oi[y], imp));
        }
        if x < n {
            if y > x {
                lemma_prefix_cost_mono(oi, imp, x + 1, y);
            }
            if !entry_met(oi[x], imp) {
                let kx = lemma_position_in(oi, ins, x);
                lemma_first_unmet(ins, oi, imp, x, kx);
                lemma_least_unique(ins, imp, k, kx);
                assert forall|k3: int| least_unmet(ins, imp, k3) implies ins[k3] == oi[x] by {
                    lemma_least_unique(ins, imp, k3, kx);
                }
            }
        }
    } else {
        lemma_needed_all(ins, oi, imp);
        if x < n {
            lemma_prefix_cost_mono(oi, imp, x + 1, n);
            if !entry_met(oi[x], imp) {
                let kx = lemma_position_in(oi, ins, x);
                lemma_first_unmet(ins, oi, imp, x, kx);
            }
        }
        if x == n {
            assert forall|k: int| 0 <= k < ins.len() implies entry_met(#[trigger] ins[k], imp) by {
                let y = lemma_position_in(ins, oi, k);
                if !entry_met(ins[k], imp) {
                    assert(entry_met(oi[y], imp));
                }
            }
        }
    }
}

impl DeclarationContractsChirho {
    /// Checks the kind, class and instance promises of a boot interface
    /// against a module's own declarations. Kinds are checked first, in name
    /// order, and the first broken one is reported; then classes, in name
    /// order, the first broken one reported; then an instance whose agreement cannot
    /// be represented (the least name); then every promised instance must
    /// have an alpha-equivalent instance of the same class, the classes taken
    /// in name order and the first class with an unmet promise reported, all
    /// within a shared budget of comparisons (`instance_comparisons` counts
    /// those needed).
    pub fn check_boot_promises_chirho(&self, implementation_chirho: &DeclarationContractsChirho) -> (r: Result<(), BootContractErrorChirho>)
        requires
            self.well_formed(),
        ensures
            (exists|k: int| 0 <= k < self.kinds_chirho@.len() && (#[trigger] kind_failure(self.kinds_chirho@[k], implementation_chirho.kinds_chirho@)) is Some)
                ==> is_kind_error(err_kind(r)),
            is_kind_error(err_kind(r)) ==> exists|k: int| 0 <= k < self.kinds_chirho@.len()
                    && self.kinds_chirho@[k].0@ == err_name(r)
                    && kind_failure(self.kinds_chirho@[k], implementation_chirho.kinds_chirho@) == err_kind(r)
                    && forall|k2: int| 0 <= k2 < self.kinds_chirho@.len() && text_lt(self.kinds_chirho@[k2].0@, self.kinds_chirho@[k].0@)
                        ==> (#[trigger] kind_failure(self.kinds_chirho@[k2], implementation_chirho.kinds_chirho@)) is None,
            kinds_kept(self.kinds_chirho@, implementation_chirho.kinds_chirho@) && (exists|k: int| 0 <= k < self.classes_chirho@.len() && (#[trigger] class_failure(self.classes_chirho@[k], implementation_chirho.classes_chirho@)) is Some)
                ==> is_class_kind(err_kind(r)),
            is_class_kind(err_kind(r)) ==> kinds_kept(self.kinds_chirho@, implementation_chirho.kinds_chirho@) && exists|k: int| 0 <= k < self.classes_chirho@.len()
                    && self.classes_chirho@[k].0@ == err_name(r)
                    && class_failure(self.classes_chirho@[k], implementation_chirho.classes_chirho@) == err_kind(r)
                    && forall|k2: int| 0 <= k2 < self.classes_chirho@.len() && text_lt(self.classes_chirho@[k2].0@, self.classes_chirho@[k].0@)
                        ==> (#[trigger] class_failure(self.classes_chirho@[k2], implementation_chirho.classes_chirho@)) is None,
            err_kind(r) == Some(BootContractErrorKindChirho::InstanceNotRepresentedChirho) ==> kinds_kept(self.kinds_chirho@, implementation_chirho.kinds_chirho@)
                && (forall|k: int| 0 <= k < self.classes_chirho@.len() ==> (#[trigger] class_failure(self.classes_chirho@[k], implementation_chirho.classes_chirho@)) is None)
                && (exists|u: int| 0 <= u < self.unproved_instances_chirho@.len() && #[trigger] self.unproved_instances_chirho@[u]@ == err_name(r))
                && forall|u: int| 0 <= u < self.unproved_instances_chirho@.len() ==> !text_lt((#[trigger] self.unproved_instances_chirho@[u])@, err_name(r)),
            kinds_kept(self.kinds_chirho@, implementation_chirho.kinds_chirho@) && (forall|k: int| 0 <= k < self.classes_chirho@.len() ==> (#[trigger] class_failure(self.classes_chirho@[k], implementation_chirho.classes_chirho@)) is None)
                && self.unproved_instances_chirho@.len() > 0 ==> err_kind(r) == Some(BootContractErrorKindChirho::InstanceNotRepresentedChirho),
            err_kind(r) == Some(BootContractErrorKindChirho::NoMatchingInstanceChirho) ==> exists|k: int, p: int| 0 <= k < self.instances_chirho@.len()
                && 0 <= p < self.instances_chirho@[k].1@.len() && self.instances_chirho@[k].0@ == err_name(r)
                && !promise_met(#[trigger] self.instances_chirho@[k].1@[p], instances_of(implementation_chirho.instances_chirho@, err_name(r))),
            err_kind(r) != Some(BootContractErrorKindChirho::FamilyBodyMismatchChirho),
            err_kind(r) == Some(BootContractErrorKindChirho::BudgetExhaustedChirho) ==> kinds_kept(self.kinds_chirho@, implementation_chirho.kinds_chirho@)
                && (forall|k: int| 0 <= k < self.classes_chirho@.len() ==> (#[trigger] class_failure(self.classes_chirho@[k], implementation_chirho.classes_chirho@)) is None)
                && self.unproved_instances_chirho@.len() == 0
                && instance_comparisons(self.instances_chirho@, implementation_chirho.instances_chirho@) > INSTANCE_COMPARISON_LIMIT_CHIRHO,
            kinds_kept(self.kinds_chirho@, implementation_chirho.kinds_chirho@) && (forall|k: int| 0 <= k < self.classes_chirho@.len() ==> (#[trigger] class_failure(self.classes_chirho@[k], implementation_chirho.classes_chirho@)) is None)
                && self.unproved_instances_chirho@.len() == 0 ==> {
                    let needed = instance_comparisons(self.instances_chirho@, implementation_chirho.instances_chirho@);
                    &&& needed > INSTANCE_COMPARISON_LIMIT_CHIRHO ==> err_kind(r) == Some(BootContractErrorKindChirho::BudgetExhaustedChirho)
                    &&& needed <= INSTANCE_COMPARISON_LIMIT_CHIRHO ==> forall|k: int| #[trigger] least_unmet(self.instances_chirho@, implementation_chirho.instances_chirho@, k)
                        ==> err_kind(r) == Some(BootContractErrorKindChirho::NoMatchingInstanceChirho) && err_name(r) == self.instances_chirho@[k].0@
                    &&& needed <= INSTANCE_COMPARISON_LIMIT_CHIRHO && (forall|k: int| 0 <= k < self.instances_chirho@.len()
                        ==> entry_met(#[trigger] self.instances_chirho@[k], implementation_chirho.instances_chirho@)) ==> r is Ok
                },
            r is Ok ==> kinds_kept(self.kinds_chirho@, implementation_chirho.kinds_chirho@) && (forall|k: int| 0 <= k < self.classes_chirho@.len() ==> (#[trigger] class_failure(self.classes_chirho@[k], implementation_chirho.classes_chirho@)) is None)
                && self.unproved_instances_chirho@.len() == 0
                && forall|k: int, p: int| 0 <= k < self.instances_chirho@.len() && 0 <= p < self.instances_chirho@[k].1@.len()
                    ==> promise_met(#[trigger] self.instances_chirho@[k].1@[p], instances_of(implementation_chirho.instances_chirho@, self.instances_chirho@[k].0@)),
    {
        let ghost imp_kinds = implementation_chirho.kinds_chirho@;
        let ghost kds = self.kinds_chirho@;
        let ordered_kinds_chirho = ordered_entries_chirho(&self.kinds_chirho);
        let ghost ok = deref_entries(ordered_kinds_chirho@);
        let mut t: usize = 0;
        while t < ordered_kinds_chirho.len()
            invariant
                t <= ordered_kinds_chirho.len(),
                ok == deref_entries(ordered_kinds_chirho@),
                ok.len() == ordered_kinds_chirho@.len(),
                ok.to_multiset() == kds.to_multiset(),
                kds == self.kinds_chirho@,
                imp_kinds == implementation_chirho.kinds_chirho@,
                forall|a: int, b: int| 0 <= a < b < ordered_kinds_chirho@.len() ==> text_lt(ordered_kinds_chirho@[a].0@, ordered_kinds_chirho@[b].0@),
                forall|a: int| 0 <= a < t ==> (#[trigger] kind_failure(ok[a], imp_kinds)) is None,
            decreases ordered_kinds_chirho.len() - t,
        {
            let (name_chirho, expected_chirho) = ordered_kinds_chirho[t];
            let ghost et = ok[t as int];
            proof {
                assert(et == (*name_chirho, *expected_chirho));
                lemma_first_pos(names_of(imp_kinds), name_chirho@);
            }
            let failure: Option<BootContractErrorKindChirho> =
                match find_name_chirho(&implementation_chirho.kinds_chirho, name_chirho.as_str()) {
                    None => Some(BootContractErrorKindChirho::NoLocalTypeChirho),
                    Some(k) => {
                        if expected_chirho.agrees_with_chirho(&implementation_chirho.kinds_chirho[k].1) {
                            None
                        } else {
                            Some(BootContractErrorKindChirho::KindMismatchChirho)
                        }
                    },
                };
            proof { assert(failure == kind_failure(et, imp_kinds)); }
            match failure {
                Some(kind_chirho) => {
                    proof {
                        lemma_sorted_first_kind_failure(ok, kds, imp_kinds, t as int);
                    }
                    return Err(BootContractErrorChirho { kind_chirho, name_chirho: name_chirho.clone() });
                },
                None => {},
            }
            t = t + 1;
        }
        proof {
            assert forall|k: int| 0 <= k < kds.len() implies (#[trigger] kind_failure(kds[k], imp_kinds)) is None by {
                assert(kds.contains(kds[k]));
                assert(kds.to_multiset().count(kds[k]) > 0);
                assert(ok.contains(kds[k]));
                let a = choose|a: int| 0 <= a < ok.len() && ok[a] == kds[k];
            }
            assert(kinds_kept(self.kinds_chirho@, implementation_chirho.kinds_chirho@));
        }
        let ghost imp_classes = implementation_chirho.classes_chirho@;
        let ghost cls = self.classes_chirho@;
        let ordered_classes_chirho = ordered_entries_chirho(&self.classes_chirho);
        let ghost oc = deref_entries(ordered_classes_chirho@);
        let mut j: usize = 0;
        while j < ordered_classes_chirho.len()
            invariant
                j <= ordered_classes_chirho.len(),
                oc == deref_entries(ordered_classes_chirho@),
                oc.len() == ordered_classes_chirho@.len(),
                oc.to_multiset() == cls.to_multiset(),
                cls == self.classes_chirho@,
                imp_classes == implementation_chirho.classes_chirho@,
                forall|a: int, b: int| 0 <= a < b < ordered_classes_chirho@.len() ==> text_lt(ordered_classes_chirho@[a].0@, ordered_classes_chirho@[b].0@),
                forall|a: int| 0 <= a < j ==> (#[trigger] class_failure(oc[a], imp_classes)) is None,
                kinds_kept(self.kinds_chirho@, implementation_chirho.kinds_chirho@),
            decreases ordered_classes_chirho.len() - j,
        {
            let (name_chirho, expected_chirho) = ordered_classes_chirho[j];
            let ghost ej = oc[j as int];
            proof {
                assert(ej == (*name_chirho, *expected_chirho));
                lemma_first_pos(names_of(imp_classes), name_chirho@);
            }
            let failure: Option<BootContractErrorKindChirho> = if !expected_chirho.abstract_chirho {
                Some(BootContractErrorKindChirho::FullClassNotRepresentedChirho)
            } else {
                match find_name_chirho(&implementation_chirho.classes_chirho, name_chirho.as_str()) {
                    None => Some(BootContractErrorKindChirho::NoLocalClassChirho),
                    Some(k) => {
                        if expected_chirho.fundeps_chirho.is_none()
                            || !fundeps_eq_chirho(&expected_chirho.fundeps_chirho, &implementation_chirho.classes_chirho[k].1.fundeps_chirho) {
                            Some(BootContractErrorKindChirho::DifferentFundepsChirho)
                        } else {
                            None
                        }
                    },
                }
            };
            proof { assert(failure == class_failure(ej, imp_classes)); }
            match failure {
                Some(kind_chirho) => {
                    proof {
                        lemma_sorted_first_failure(oc, cls, imp_classes, j as int);
                    }
                    return Err(BootContractErrorChirho { kind_chirho, name_chirho: name_chirho.clone() });
                },
                None => {},
            }
            j = j + 1;
        }
        proof {
            assert forall|k: int| 0 <= k < cls.len() implies (#[trigger] class_failure(cls[k], imp_classes)) is None by {
                assert(cls.contains(cls[k]));
                assert(cls.to_multiset().count(cls[k]) > 0);
                assert(oc.contains(cls[k]));
                let a = choose|a: int| 0 <= a < oc.len() && oc[a] == cls[k];
            }
        }
        if self.unproved_instances_chirho.len() > 0 {
            let mut least: usize = 0;
            let mut u: usize = 1;
            proof { lemma_text_lt_irreflexive(self.unproved_instances_chirho@[0]@); }
            while u < self.unproved_instances_chirho.len()
                invariant
                    1 <= u <= self.unproved_instances_chirho.len(),
                    least < u,
                    forall|v: int| 0 <= v < u ==> !text_lt((#[trigger] self.unproved_instances_chirho@[v])@, self.unproved_instances_chirho@[least as int]@),
                    kinds_kept(self.kinds_chirho@, implementation_chirho.kinds_chirho@),
                decreases self.unproved_instances_chirho.len() - u,
            {
                if text_lt_chirho(self.unproved_instances_chirho[u].as_str(), self.unproved_instances_chirho[least].as_str()) {
                    proof {
                        let nu = self.unproved_instances_chirho@[u as int]@;
                        let nl = self.unproved_instances_chirho@[least as int]@;
                        assert forall|v: int| 0 <= v < u + 1 implies !text_lt((#[trigger] self.unproved_instances_chirho@[v])@, nu) by {
                            let nv = self.unproved_instances_chirho@[v]@;
                            if v < u && text_lt(nv, nu) {
                                lemma_text_lt_transitive(nv, nu, nl);
                            }
                            if v == u {
                                lemma_text_lt_irreflexive(nu);
                            }
                        }
                    }
                    least = u;
                } else {
                    proof {
                        lemma_text_lt_total(self.unproved_instances_chirho@[u as int]@, self.unproved_instances_chirho@[least as int]@);
                    }
                }
                u = u + 1;
            }
            return Err(BootContractErrorChirho {
                kind_chirho: BootContractErrorKindChirho::InstanceNotRepresentedChirho,
                name_chirho: self.unproved_instances_chirho[least].clone(),
            });
        }
        let mut budget_chirho: usize = INSTANCE_COMPARISON_LIMIT_CHIRHO;
        let ghost ins = self.instances_chirho@;
        let ghost imp_ins = implementation_chirho.instances_chirho@;
        let ghost limit = INSTANCE_COMPARISON_LIMIT_CHIRHO as int;
        let ordered_instances_chirho = ordered_entries_chirho(&self.instances_chirho);
        let ghost oi = deref_entries(ordered_instances_chirho@);
        proof {
            assert forall|a: int, b: int| 0 <= a < b < oi.len() implies text_lt(oi[a].0@, oi[b].0@) by {
                assert(oi[a].0 == *ordered_instances_chirho@[a].0);
                assert(oi[b].0 == *ordered_instances_chirho@[b].0);
            }
        }
        let mut x: usize = 0;
        while x < ordered_instances_chirho.len()
            invariant
                x <= ordered_instances_chirho.len(),
                oi == deref_entries(ordered_instances_chirho@),
                oi.len() == ordered_instances_chirho@.len(),
                oi.to_multiset() == ins.to_multiset(),
                forall|a: int, b: int| 0 <= a < b < oi.len() ==> text_lt(oi[a].0@, oi[b].0@),
                names_of(ins).no_duplicates(),
                ins == self.instances_chirho@,
                imp_ins == implementation_chirho.instances_chirho@,
                cls == self.classes_chirho@,
                imp_classes == implementation_chirho.classes_chirho@,
                limit == INSTANCE_COMPARISON_LIMIT_CHIRHO as int,
                forall|k: int| 0 <= k < cls.len() ==> (#[trigger] class_failure(cls[k], imp_classes)) is None,
                kinds_kept(self.kinds_chirho@, implementation_chirho.kinds_chirho@),
                self.unproved_instances_chirho@.len() == 0,
                forall|a: int| 0 <= a < x ==> entry_met(#[trigger] oi[a], imp_ins),
                budget_chirho as int == limit - prefix_cost(oi, imp_ins, x as int),
            decreases ordered_instances_chirho.len() - x,
        {
            let (name_chirho, promises_chirho) = ordered_instances_chirho[x];
            let ghost ex = oi[x as int];
            let ghost acts = instances_of(imp_ins, name_chirho@);
            let ghost base = prefix_cost(oi, imp_ins, x as int);
            proof {
                assert(ex == (*name_chirho, *promises_chirho));
                lemma_first_pos(names_of(imp_ins), name_chirho@);
                lemma_needed(ins, oi, imp_ins, x as int);
                assert(promises_chirho@.take(0).len() == 0);
                assert(entry_cost(promises_chirho@.take(0), acts) == 0);
            }
            let actual_at = find_name_chirho(&implementation_chirho.instances_chirho, name_chirho.as_str());
            let mut p: usize = 0;
            while p < promises_chirho.len()
                invariant
                    p <= promises_chirho.len(),
                    x < oi.len(),
                    ex == oi[x as int],
                    ex == (*name_chirho, *promises_chirho),
                    acts == instances_of(imp_ins, name_chirho@),
                    base == prefix_cost(oi, imp_ins, x as int),
                    imp_ins == implementation_chirho.instances_chirho@,
                    oi.to_multiset() == ins.to_multiset(),
                    forall|a: int, b: int| 0 <= a < b < oi.len() ==> text_lt(oi[a].0@, oi[b].0@),
                    names_of(ins).no_duplicates(),
                    ins == self.instances_chirho@,
                    cls == self.classes_chirho@,
                    imp_classes == implementation_chirho.classes_chirho@,
                    limit == INSTANCE_COMPARISON_LIMIT_CHIRHO as int,
                    forall|k: int| 0 <= k < cls.len() ==> (#[trigger] class_failure(cls[k], imp_classes)) is None,
                    kinds_kept(self.kinds_chirho@, implementation_chirho.kinds_chirho@),
                kinds_kept(self.kinds_chirho@, implementation_chirho.kinds_chirho@),
                    self.unproved_instances_chirho@.len() == 0,
                    forall|a: int| 0 <= a < x ==> entry_met(#[trigger] oi[a], imp_ins),
                    instance_comparisons(ins, imp_ins) >= base + inst_cost(oi[x as int], imp_ins),
                    match actual_at {
                        Some(k) => k == first_pos(names_of(imp_ins), name_chirho@) && 0 <= k < imp_ins.len(),
                        None => first_pos(names_of(imp_ins), name_chirho@) == -1,
                    },
                    forall|q: int| 0 <= q < p ==> promise_met(#[trigger] promises_chirho@[q], acts),
                    budget_chirho as int == limit - base - entry_cost(promises_chirho@.take(p as int), acts),
                decreases promises_chirho.len() - p,
            {
                let promise_chirho = &promises_chirho[p];
                let mut found_chirho = false;
                let ghost before_budget = budget_chirho as int;
                proof {
                    lemma_entry_cost_prefix(promises_chirho@, acts, p as int);
                }
                match actual_at {
                    Some(k) => {
                        let actuals_chirho = &implementation_chirho.instances_chirho[k].1;
                        let mut a: usize = 0;
                        proof { assert(actuals_chirho@ == acts); }
                        while a < actuals_chirho.len() && !found_chirho
                            invariant
                                a <= actuals_chirho.len(),
                                actuals_chirho@ == acts,
                                found_chirho ==> promise_met(*promise_chirho, actuals_chirho@),
                                found_chirho ==> budget_chirho as int == before_budget - match_cost(promise_chirho@, acts),
                                !found_chirho ==> forall|b: int| 0 <= b < a ==> !alpha_scheme(promise_chirho@, (#[trigger] actuals_chirho@[b])@),
                                !found_chirho ==> budget_chirho as int == before_budget - a,
                                before_budget == limit - base - entry_cost(promises_chirho@.take(p as int), acts),
                                instance_comparisons(ins, imp_ins) >= base + entry_cost(promises_chirho@.take(p as int), acts)
                                    + match_cost(promise_chirho@, acts),
                                *promise_chirho == promises_chirho@[p as int],
                                limit == INSTANCE_COMPARISON_LIMIT_CHIRHO as int,
                                ins == self.instances_chirho@,
                                imp_ins == implementation_chirho.instances_chirho@,
                                cls == self.classes_chirho@,
                                imp_classes == implementation_chirho.classes_chirho@,
                                forall|k: int| 0 <= k < cls.len() ==> (#[trigger] class_failure(cls[k], imp_classes)) is None,
                                kinds_kept(self.kinds_chirho@, implementation_chirho.kinds_chirho@),
                    kinds_kept(self.kinds_chirho@, implementation_chirho.kinds_chirho@),
                kinds_kept(self.kinds_chirho@, implementation_chirho.kinds_chirho@),
                                self.unproved_instances_chirho@.len() == 0,
                            decreases actuals_chirho.len() - a,
                        {
                            if budget_chirho == 0 {
                                proof {
                                    lemma_match_cost(promise_chirho@, acts, a as int);
                                }
                                return Err(BootContractErrorChirho {
                                    kind_chirho: BootContractErrorKindChirho::BudgetExhaustedChirho,
                                    name_chirho: String::new(),
                                });
                            }
                            budget_chirho = budget_chirho - 1;
                            if promise_chirho.alpha_equivalent_chirho(&actuals_chirho[a]) {
                                found_chirho = true;
                                proof {
                                    lemma_match_cost(promise_chirho@, acts, a as int);
                                }
                            }
                            a = a + 1;
                        }
                        proof {
                            if !found_chirho {
                                lemma_match_cost(promise_chirho@, acts, a as int);
                            }
                        }
                    },
                    None => {
                        proof {
                            assert(acts.len() == 0);
                            assert(match_cost(promise_chirho@, acts) == 0);
                        }
                    },
                }
                if !found_chirho {
                    proof {
                        assert(!promise_met(*promise_chirho, acts));
                        assert(!entry_met(ex, imp_ins));
                        lemma_needed(ins, oi, imp_ins, x as int);
                        assert(oi.contains(ex));
                        assert(oi.to_multiset().count(ex) > 0);
                        assert(ins.contains(ex));
                        let k = choose|k: int| 0 <= k < ins.len() && ins[k] == ex;
                        assert(ins[k].1@[p as int] == *promise_chirho);
                    }
                    return Err(BootContractErrorChirho {
                        kind_chirho: BootContractErrorKindChirho::NoMatchingInstanceChirho,
                        name_chirho: name_chirho.clone(),
                    });
                }
                p = p + 1;
            }
            proof {
                assert(promises_chirho@.take(p as int) =~= promises_chirho@);
                assert(entry_met(ex, imp_ins));
                assert(prefix_cost(oi, imp_ins, x + 1) == base + inst_cost(oi[x as int], imp_ins));
            }
            x = x + 1;
        }
        proof {
            lemma_needed(ins, oi, imp_ins, x as int);
            assert forall|k: int, p: int| 0 <= k < ins.len() && 0 <= p < ins[k].1@.len()
                implies promise_met(#[trigger] ins[k].1@[p], instances_of(imp_ins, ins[k].0@)) by {
                assert(entry_met(ins[k], imp_ins));
            }
        }
        Ok(())
    }
}

/// In a list sorted by name that holds the same entries as `cls`, the first
/// failing entry is the failing entry of `cls` with the least name.
proof fn lemma_sorted_first_failure(oc: Seq<(String, ClassContractChirho)>, cls: Seq<(String, ClassContractChirho)>,
    imp: Seq<(String, ClassContractChirho)>, j: int)
    requires
        0 <= j < oc.len(),
        oc.to_multiset() == cls.to_multiset(),
        forall|a: int, b: int| 0 <= a < b < oc.len() ==> text_lt(oc[a].0@, oc[b].0@),
        forall|a: int| 0 <= a < j ==> (#[trigger] class_failure(oc[a], imp)) is None,
        class_failure(oc[j], imp) is Some,
    ensures
        exists|k: int| 0 <= k < cls.len() && cls[k] == oc[j]
            && forall|k2: int| 0 <= k2 < cls.len() && text_lt(cls[k2].0@, cls[k].0@)
                ==> (#[trigger] class_failure(cls[k2], imp)) is None,
{
    broadcast use vstd::seq_lib::to_multiset_contains;
    assert(oc.contains(oc[j]));
    assert(oc.to_multiset().count(oc[j]) > 0);
    assert(cls.contains(oc[j]));
    let k = choose|k: int| 0 <= k < cls.len() && cls[k] == oc[j];
    assert forall|k2: int| 0 <= k2 < cls.len() && text_lt(cls[k2].0@, cls[k].0@)
        implies (#[trigger] class_failure(cls[k2], imp)) is None by {
        assert(cls.contains(cls[k2]));
        assert(cls.to_multiset().count(cls[k2]) > 0);
        assert(oc.contains(cls[k2]));
        let a = choose|a: int| 0 <= a < oc.len() && oc[a] == cls[k2];
        if a >= j {
            if a > j {
                lemma_text_lt_transitive(oc[j].0@, oc[a].0@, oc[j].0@);
            }
            lemma_text_lt_irreflexive(oc[j].0@);
        }
    }
}


/// The same for kind promises: in a list sorted by name that holds the same
/// entries as `cls`, the first failing entry is the failing entry of `cls`
/// with the least name.
proof fn lemma_sorted_first_kind_failure(oc: Seq<(String, KindContractChirho)>, cls: Seq<(String, KindContractChirho)>,
    imp: Seq<(String, KindContractChirho)>, j: int)
    requires
        0 <= j < oc.len(),
        oc.to_multiset() == cls.to_multiset(),
        forall|a: int, b: int| 0 <= a < b < oc.len() ==> text_lt(oc[a].0@, oc[b].0@),
        forall|a: int| 0 <= a < j ==> (#[trigger] kind_failure(oc[a], imp)) is None,
        kind_failure(oc[j], imp) is Some,
    ensures
        exists|k: int| 0 <= k < cls.len() && cls[k] == oc[j]
            && forall|k2: int| 0 <= k2 < cls.len() && text_lt(cls[k2].0@, cls[k].0@)
                ==> (#[trigger] kind_failure(cls[k2], imp)) is None,
{
    broadcast use vstd::seq_lib::to_multiset_contains;
    assert(oc.contains(oc[j]));
    assert(oc.to_multiset().count(oc[j]) > 0);
    assert(cls.contains(oc[j]));
    let k = choose|k: int| 0 <= k < cls.len() && cls[k] == oc[j];
    assert forall|k2: int| 0 <= k2 < cls.len() && text_lt(cls[k2].0@, cls[k].0@)
        implies (#[trigger] kind_failure(cls[k2], imp)) is None by {
        assert(cls.contains(cls[k2]));
        assert(cls.to_multiset().count(cls[k2]) > 0);
        assert(oc.contains(cls[k2]));
        let a = choose|a: int| 0 <= a < oc.len() && oc[a] == cls[k2];
        if a >= j {
            if a > j {
                lemma_text_lt_transitive(oc[j].0@, oc[a].0@, oc[j].0@);
            }
            lemma_text_lt_irreflexive(oc[j].0@);
        }
    }
}


/// The entry named `n` of a table, if any (its first one).
pub open spec fn lookup<T>(es: Seq<(String, T)>, n: Seq<char>) -> Option<T> {
    if first_pos(names_of(es), n) >= 0 { Some(es[first_pos(names_of(es), n)].1) } else { None }
}

/// Sets the entry `name` of a table, replacing the one there.
fn table_set_chirho<T>(es: &mut Vec<(String, T)>, name_chirho: String, value_chirho: T)
    ensures
        forall|m: Seq<char>| #[trigger] lookup(final(es)@, m) == (if m == name_chirho@ { Some(value_chirho) } else { lookup(old(es)@, m) }),
        names_of(old(es)@).no_duplicates() ==> names_of(final(es)@).no_duplicates(),
{
    let ghost ns = names_of(es@);
    let ghost n = name_chirho@;
    let ghost old_es = es@;
    proof { lemma_first_pos(ns, n); }
    match find_name_chirho(es, name_chirho.as_str()) {
        Some(k) => {
            let mut put = (name_chirho, value_chirho);
            std::mem::swap(&mut put, &mut es[k]);
            proof {
                assert(names_of(es@) =~= ns.update(k as int, n));
                assert(ns.update(k as int, n) =~= ns);
                assert forall|m: Seq<char>| #[trigger] lookup(es@, m) == (if m == n { Some(value_chirho) } else { lookup(old_es, m) }) by {
                    lemma_first_pos(ns, m);
                    if m != n && first_pos(ns, m) >= 0 {
                        assert(es@[first_pos(ns, m)] == old_es[first_pos(ns, m)]);
                    }
                }
            }
        },
        None => {
            es.push((name_chirho, value_chirho));
            proof {
                assert(names_of(es@) =~= ns.push(n));
                assert forall|m: Seq<char>| #[trigger] lookup(es@, m) == (if m == n { Some(value_chirho) } else { lookup(old_es, m) }) by {
                    lemma_first_pos_push(ns, n, m);
                    lemma_first_pos(ns, m);
                    if m != n && first_pos(ns, m) >= 0 {
                        assert(es@[first_pos(ns, m)] == old_es[first_pos(ns, m)]);
                    }
                }
                if ns.no_duplicates() {
                    assert forall|i: int, j: int| 0 <= i < ns.len() + 1 && 0 <= j < ns.len() + 1 && i != j implies names_of(es@)[i] != names_of(es@)[j] by {
                        if i == ns.len() && j < ns.len() {
                            assert(ns.contains(ns[j]));
                        }
                        if j == ns.len() && i < ns.len() {
                            assert(ns.contains(ns[i]));
                        }
                    }
                }
            }
        },
    }
}

/// The body of a type family declaration as the contracts read it: open,
/// closed with an abstract body, malformed, or closed with the source
/// positions of its equations.
#[derive(Debug)]
pub enum TypeFamilyBodyChirho {
    OpenChirho,
    AbstractClosedChirho,
    InvalidChirho,
    ClosedChirho { equation_spans_chirho: Vec<SpanChirho> },
}

/// Why a family body could not be recorded.
#[derive(Debug, Clone, Copy, PartialEq, Eq, Structural)]
pub enum FamilyRecordErrorChirho {
    MalformedBodyChirho,
    UncheckedEquationsChirho,
    UnprovedEquationChirho,
}

impl FamilyRecordErrorChirho {
    /// The error's message.
    pub fn message_chirho(&self) -> (r: &'static str)
        ensures
            r@ == match *self {
                FamilyRecordErrorChirho::MalformedBodyChirho => "malformed type family body"@,
                FamilyRecordErrorChirho::UncheckedEquationsChirho => "family contract contains unchecked equations"@,
                FamilyRecordErrorChirho::UnprovedEquationChirho => "family equation contract is unproved or exceeds its work bound"@,
            },
    {
        match self {
            FamilyRecordErrorChirho::MalformedBodyChirho => "malformed type family body",
            FamilyRecordErrorChirho::UncheckedEquationsChirho => "family contract contains unchecked equations",
            FamilyRecordErrorChirho::UnprovedEquationChirho => "family equation contract is unproved or exceeds its work bound",
        }
    }
}

/// The budget that recording a closed family starts with.
pub const FAMILY_RECORD_BUDGET_CHIRHO: usize = 16384;

/// Whether every equation, walked one after another from budget `b`, gets
/// its scheme.
pub open spec fn all_equations_walk(eqs: Seq<TypeFamilyClauseChirho>, b: nat) -> bool
    decreases eqs.len(),
{
    eqs.len() == 0 || (walk_succeeds(equation_nodes(&eqs[0]), b)
        && all_equations_walk(eqs.drop_first(), budget_after(equation_nodes(&eqs[0]), b)))
}

/// The contract recorded for a closed family: each equation's source
/// position and scheme.
pub open spec fn closed_rows_match(rows: Seq<FamilyEquationContractChirho>, spans: Seq<SpanChirho>, eqs: Seq<TypeFamilyClauseChirho>) -> bool {
    &&& rows.len() == spans.len()
    &&& rows.len() == eqs.len()
    &&& forall|i: int| 0 <= i < rows.len() ==> (#[trigger] rows[i]).source_chirho == spans[i] && rows[i].scheme_chirho@ == equation_scheme_v(&eqs[i])
}

/// Whether the promised family body `expected` is kept by `actual`: open by
/// open, an abstract closed body by any closed body, a closed body by one
/// with as many alpha-equivalent equations in the same order.
pub open spec fn family_agrees(expected: Option<FamilyContractChirho>, actual: Option<FamilyContractChirho>) -> bool {
    match (expected, actual) {
        (Some(FamilyContractChirho::OpenChirho), Some(FamilyContractChirho::OpenChirho)) => true,
        (Some(FamilyContractChirho::AbstractClosedChirho), Some(FamilyContractChirho::ClosedChirho(_))) => true,
        (Some(FamilyContractChirho::ClosedChirho(e)), Some(FamilyContractChirho::ClosedChirho(a))) =>
            e@.len() == a@.len() && forall|i: int| 0 <= i < e@.len() ==> alpha_scheme((#[trigger] e@[i]).scheme_chirho@, a@[i].scheme_chirho@),
        _ => false,
    }
}

impl DeclarationContractsChirho {
    /// Records the checked body of family `name`: open, abstract closed, or
    /// closed with the schemes of its equations (which must be exactly the
    /// checked ones, each within the shared work budget).
    pub fn record_family_chirho(&mut self, name_chirho: &str, body_chirho: &TypeFamilyBodyChirho, equations_chirho: &[TypeFamilyClauseChirho])
        -> (r: Result<(), FamilyRecordErrorChirho>)
        ensures
            r == Err::<(), FamilyRecordErrorChirho>(FamilyRecordErrorChirho::MalformedBodyChirho) <==> body_chirho is InvalidChirho,
            r == Err::<(), FamilyRecordErrorChirho>(FamilyRecordErrorChirho::UncheckedEquationsChirho) <==>
                (body_chirho matches TypeFamilyBodyChirho::ClosedChirho { equation_spans_chirho } && equation_spans_chirho@.len() != equations_chirho@.len()),
            r == Err::<(), FamilyRecordErrorChirho>(FamilyRecordErrorChirho::UnprovedEquationChirho) <==>
                (body_chirho matches TypeFamilyBodyChirho::ClosedChirho { equation_spans_chirho } && equation_spans_chirho@.len() == equations_chirho@.len()
                    && !all_equations_walk(equations_chirho@, FAMILY_RECORD_BUDGET_CHIRHO as nat)),
            r is Err ==> final(self).families_chirho@ == old(self).families_chirho@,
            r is Ok ==> forall|m: Seq<char>| m != name_chirho@ ==> #[trigger] lookup(final(self).families_chirho@, m) == lookup(old(self).families_chirho@, m),
            r is Ok ==> match lookup(final(self).families_chirho@, name_chirho@) {
                Some(FamilyContractChirho::OpenChirho) => body_chirho is OpenChirho,
                Some(FamilyContractChirho::AbstractClosedChirho) => body_chirho is AbstractClosedChirho,
                Some(FamilyContractChirho::ClosedChirho(rows)) => body_chirho matches TypeFamilyBodyChirho::ClosedChirho { equation_spans_chirho }
                    && closed_rows_match(rows@, equation_spans_chirho@, equations_chirho@),
                None => false,
            },
            names_of(old(self).families_chirho@).no_duplicates() ==> names_of(final(self).families_chirho@).no_duplicates(),
            final(self).classes_chirho == old(self).classes_chirho,
            final(self).instances_chirho == old(self).instances_chirho,
            final(self).unproved_instances_chirho == old(self).unproved_instances_chirho,
    {
        let contract_chirho = match body_chirho {
            TypeFamilyBodyChirho::OpenChirho => FamilyContractChirho::OpenChirho,
            TypeFamilyBodyChirho::AbstractClosedChirho => FamilyContractChirho::AbstractClosedChirho,
            TypeFamilyBodyChirho::InvalidChirho => {
                return Err(FamilyRecordErrorChirho::MalformedBodyChirho);
            },
            TypeFamilyBodyChirho::ClosedChirho { equation_spans_chirho } => {
                if equation_spans_chirho.len() != equations_chirho.len() {
                    return Err(FamilyRecordErrorChirho::UncheckedEquationsChirho);
                }
                let mut budget_chirho: usize = FAMILY_RECORD_BUDGET_CHIRHO;
                let mut rows_chirho: Vec<FamilyEquationContractChirho> = Vec::new();
                let mut i: usize = 0;
                let ghost eqs = equations_chirho@;
                proof { assert(eqs.skip(0) =~= eqs); }
                while i < equations_chirho.len()
                    invariant
                        i <= equations_chirho.len(),
                        eqs == equations_chirho@,
                        equation_spans_chirho@.len() == eqs.len(),
                        body_chirho is ClosedChirho,
                        body_chirho->equation_spans_chirho@.len() == equations_chirho@.len(),
                        rows_chirho@.len() == i,
                        forall|j: int| 0 <= j < i ==> (#[trigger] rows_chirho@[j]).source_chirho == equation_spans_chirho@[j]
                            && rows_chirho@[j].scheme_chirho@ == equation_scheme_v(&eqs[j]),
                        all_equations_walk(eqs, FAMILY_RECORD_BUDGET_CHIRHO as nat) == all_equations_walk(eqs.skip(i as int), budget_chirho as nat),
                    decreases equations_chirho.len() - i,
                {
                    let ghost rest = eqs.skip(i as int);
                    proof {
                        assert(rest[0] == eqs[i as int]);
                        assert(rest.drop_first() =~= eqs.skip(i + 1));
                    }
                    match equation_scheme_chirho(&equations_chirho[i], &mut budget_chirho) {
                        Some(scheme_chirho) => {
                            rows_chirho.push(FamilyEquationContractChirho { source_chirho: equation_spans_chirho[i], scheme_chirho });
                        },
                        None => {
                            return Err(FamilyRecordErrorChirho::UnprovedEquationChirho);
                        },
                    }
                    i = i + 1;
                }
                proof { assert(eqs.skip(i as int).len() == 0); }
                FamilyContractChirho::ClosedChirho(rows_chirho)
            },
        };
        let ghost c = contract_chirho;
        table_set_chirho(&mut self.families_chirho, name_chirho.to_owned(), contract_chirho);
        proof { assert(lookup(self.families_chirho@, name_chirho@) == Some(c)); }
        Ok(())
    }

    /// Checks that the implementation keeps the boot interface's promise
    /// about the body of family `name`.
    pub fn check_boot_family_chirho(&self, name_chirho: &str, implementation_chirho: &DeclarationContractsChirho) -> (r: Result<(), BootContractErrorChirho>)
        ensures
            r is Ok <==> family_agrees(lookup(self.families_chirho@, name_chirho@), lookup(implementation_chirho.families_chirho@, name_chirho@)),
            r matches Err(e) ==> e.kind_chirho == BootContractErrorKindChirho::FamilyBodyMismatchChirho && e.name_chirho@ == name_chirho@,
    {
        proof {
            lemma_first_pos(names_of(self.families_chirho@), name_chirho@);
            lemma_first_pos(names_of(implementation_chirho.families_chirho@), name_chirho@);
        }
        let expected_at = find_name_chirho(&self.families_chirho, name_chirho);
        let actual_at = find_name_chirho(&implementation_chirho.families_chirho, name_chirho);
        let agrees_chirho = match (expected_at, actual_at) {
            (Some(e), Some(a)) => {
                match (&self.families_chirho[e].1, &implementation_chirho.families_chirho[a].1) {
                    (FamilyContractChirho::OpenChirho, FamilyContractChirho::OpenChirho) => true,
                    (FamilyContractChirho::AbstractClosedChirho, FamilyContractChirho::ClosedChirho(_)) => true,
                    (FamilyContractChirho::ClosedChirho(expected_rows), FamilyContractChirho::ClosedChirho(actual_rows)) => {
                        if expected_rows.len() != actual_rows.len() {
                            false
                        } else {
                            let mut all_chirho = true;
                            let mut i: usize = 0;
                            while i < expected_rows.len()
                                invariant
                                    i <= expected_rows.len(),
                                    expected_rows@.len() == actual_rows@.len(),
                                    all_chirho == forall|j: int| 0 <= j < i ==> alpha_scheme((#[trigger] expected_rows@[j]).scheme_chirho@, actual_rows@[j].scheme_chirho@),
                                decreases expected_rows.len() - i,
                            {
                                if !expected_rows[i].scheme_chirho.alpha_equivalent_chirho(&actual_rows[i].scheme_chirho) {
                                    all_chirho = false;
                                }
                                i = i + 1;
                            }
                            all_chirho
                        }
                    },
                    _ => false,
                }
            },
            _ => false,
        };
        if agrees_chirho {
            Ok(())
        } else {
            Err(BootContractErrorChirho {
                kind_chirho: BootContractErrorKindChirho::FamilyBodyMismatchChirho,
                name_chirho: name_chirho.to_owned(),
            })
        }
    }
}

}
