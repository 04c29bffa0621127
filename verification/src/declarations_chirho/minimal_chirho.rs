//! MINIMAL pragmas: formulas over method names, and the bounded semantic
//! check that one formula implies another.
//!
//! A formula is read over an assignment that says, for some method names,
//! whether the method is defined. `All` needs every part, `Any` needs one
//! part; a method that the assignment does not decide leaves the value open
//! (three-valued, in Kleene's sense). One formula implies another when every
//! total assignment of their method names that satisfies the first also
//! satisfies the second. All work is bounded by a node budget, nesting by a
//! depth limit and the decision search by a limit on its depth.
use vstd::prelude::*;
use crate::names_chirho::{first_pos, lemma_first_pos};
use crate::synonyms_chirho::{find_string_chirho, strings_view};
use crate::text_order_chirho::{lemma_text_lt_irreflexive, lemma_text_lt_total, lemma_text_lt_transitive, text_lt,
    text_lt_chirho};

verus! {

/// The node budget of one comparison.
pub const LIMIT_CHIRHO: usize = 16384;

/// The deepest nesting level a formula may reach (the root is at level 0).
pub const NESTING_LIMIT_CHIRHO: usize = 128;

/// How many method names the decision search may fix before it gives up.
pub const DECISION_LIMIT_CHIRHO: usize = 128;

/// A MINIMAL formula.
#[derive(Debug, PartialEq, Eq)]
pub enum MinimalFormulaChirho {
    MethodChirho(String),
    AllChirho(Vec<MinimalFormulaChirho>),
    AnyChirho(Vec<MinimalFormulaChirho>),
    InvalidChirho,
}

/// Why a MINIMAL formula could not be checked or compared.
#[derive(Debug, Clone, Copy, PartialEq, Eq, Structural)]
pub enum MinimalErrorChirho {
    BudgetExhaustedChirho,
    NestingLimitChirho,
    InvalidFormulaChirho,
    UndeclaredMethodChirho,
    DecisionDepthChirho,
    UnresolvedDecisionChirho,
}

impl MinimalErrorChirho {
    /// The error's message.
    pub fn message_chirho(&self) -> (r: &'static str)
        ensures
            r@ == match *self {
                MinimalErrorChirho::BudgetExhaustedChirho => "MINIMAL comparison budget exhausted"@,
                MinimalErrorChirho::NestingLimitChirho => "MINIMAL nesting limit exceeded"@,
                MinimalErrorChirho::InvalidFormulaChirho => "invalid MINIMAL formula"@,
                MinimalErrorChirho::UndeclaredMethodChirho => "MINIMAL formula names an undeclared method"@,
                MinimalErrorChirho::DecisionDepthChirho => "MINIMAL decision depth exceeded"@,
                MinimalErrorChirho::UnresolvedDecisionChirho => "unresolved MINIMAL decision"@,
            },
    {
        match self {
            MinimalErrorChirho::BudgetExhaustedChirho => "MINIMAL comparison budget exhausted",
            MinimalErrorChirho::NestingLimitChirho => "MINIMAL nesting limit exceeded",
            MinimalErrorChirho::InvalidFormulaChirho => "invalid MINIMAL formula",
            MinimalErrorChirho::UndeclaredMethodChirho => "MINIMAL formula names an undeclared method",
            MinimalErrorChirho::DecisionDepthChirho => "MINIMAL decision depth exceeded",
            MinimalErrorChirho::UnresolvedDecisionChirho => "unresolved MINIMAL decision",
        }
    }
}

/// The mathematical content of a formula.
pub ghost enum FormulaV {
    Method(Seq<char>),
    All(Seq<FormulaV>),
    Any(Seq<FormulaV>),
    Invalid,
}

pub open spec fn formulas_view(fs: Seq<MinimalFormulaChirho>) -> Seq<FormulaV>
    decreases fs,
{
    if fs.len() == 0 {
        Seq::empty()
    } else {
        formulas_view(fs.drop_last()).push(fs.last().view_f())
    }
}

impl MinimalFormulaChirho {
    pub open spec fn view_f(&self) -> FormulaV
        decreases self,
    {
        match self {
            MinimalFormulaChirho::MethodChirho(n) => FormulaV::Method(n@),
            MinimalFormulaChirho::AllChirho(cs) => FormulaV::All(formulas_view(cs@)),
            MinimalFormulaChirho::AnyChirho(cs) => FormulaV::Any(formulas_view(cs@)),
            MinimalFormulaChirho::InvalidChirho => FormulaV::Invalid,
        }
    }
}

impl View for MinimalFormulaChirho {
    type V = FormulaV;

    open spec fn view(&self) -> FormulaV {
        self.view_f()
    }
}

pub proof fn lemma_formulas_view(fs: Seq<MinimalFormulaChirho>)
    ensures
        formulas_view(fs).len() == fs.len(),
        forall|i: int| 0 <= i < fs.len() ==> #[trigger] formulas_view(fs)[i] == fs[i].view_f(),
    decreases fs.len(),
{
    if fs.len() > 0 {
        lemma_formulas_view(fs.drop_last());
    }
}

/// Deep copy of a list of formulas.
pub fn copy_formulas_chirho(fs: &Vec<MinimalFormulaChirho>) -> (r: Vec<MinimalFormulaChirho>)
    ensures
        formulas_view(r@) == formulas_view(fs@),
    decreases fs@, 0nat,
{
    let mut out: Vec<MinimalFormulaChirho> = Vec::new();
    let mut i: usize = 0;
    while i < fs.len()
        invariant
            i <= fs.len(),
            out@.len() == i,
            forall|j: int| 0 <= j < i ==> #[trigger] out@[j].view_f() == fs@[j].view_f(),
        decreases fs.len() - i,
    {
        proof { assert(decreases_to!(fs@ => fs@[i as int])); }
        let c = fs[i].copy_chirho();
        out.push(c);
        i = i + 1;
    }
    proof {
        lemma_formulas_view(out@);
        lemma_formulas_view(fs@);
        assert(formulas_view(out@) =~= formulas_view(fs@));
    }
    out
}

impl MinimalFormulaChirho {
    /// A structurally equal copy.
    pub fn copy_chirho(&self) -> (r: MinimalFormulaChirho)
        ensures
            r@ == self@,
        decreases self, 1nat,
    {
        match self {
            MinimalFormulaChirho::MethodChirho(n) => MinimalFormulaChirho::MethodChirho(n.clone()),
            MinimalFormulaChirho::AllChirho(cs) => MinimalFormulaChirho::AllChirho(copy_formulas_chirho(cs)),
            MinimalFormulaChirho::AnyChirho(cs) => MinimalFormulaChirho::AnyChirho(copy_formulas_chirho(cs)),
            MinimalFormulaChirho::InvalidChirho => MinimalFormulaChirho::InvalidChirho,
        }
    }
}

impl Clone for MinimalFormulaChirho {
    fn clone(&self) -> (r: MinimalFormulaChirho)
        ensures
            r@ == self@,
    {
        self.copy_chirho()
    }
}

/// A formula for the single method `name`.
pub fn method_chirho(name_chirho: &str) -> (r: MinimalFormulaChirho)
    ensures
        r@ == FormulaV::Method(name_chirho@),
{
    MinimalFormulaChirho::MethodChirho(name_chirho.to_owned())
}

/// The number of nodes of a formula.
pub open spec fn fsize(f: FormulaV) -> nat
    decreases f,
{
    match f {
        FormulaV::All(cs) => 1 + fsize_seq(cs),
        FormulaV::Any(cs) => 1 + fsize_seq(cs),
        _ => 1,
    }
}

pub open spec fn fsize_seq(cs: Seq<FormulaV>) -> nat
    decreases cs,
{
    if cs.len() == 0 {
        0
    } else {
        fsize_seq(cs.drop_last()) + fsize(cs.last())
    }
}

/// Whether no part of the formula is invalid.
pub open spec fn fvalid(f: FormulaV) -> bool
    decreases f,
{
    match f {
        FormulaV::All(cs) => fvalid_seq(cs),
        FormulaV::Any(cs) => fvalid_seq(cs),
        FormulaV::Invalid => false,
        _ => true,
    }
}

pub open spec fn fvalid_seq(cs: Seq<FormulaV>) -> bool
    decreases cs,
{
    cs.len() == 0 || (fvalid_seq(cs.drop_last()) && fvalid(cs.last()))
}

/// Whether every node of the formula, placed at level `d`, stays within the
/// nesting limit.
pub open spec fn fdepth_ok(f: FormulaV, d: nat) -> bool
    decreases f,
{
    d <= NESTING_LIMIT_CHIRHO && match f {
        FormulaV::All(cs) => fdepth_ok_seq(cs, d + 1),
        FormulaV::Any(cs) => fdepth_ok_seq(cs, d + 1),
        _ => true,
    }
}

pub open spec fn fdepth_ok_seq(cs: Seq<FormulaV>, d: nat) -> bool
    decreases cs,
{
    cs.len() == 0 || (fdepth_ok_seq(cs.drop_last(), d) && fdepth_ok(cs.last(), d))
}

/// The method names of a formula.
pub open spec fn fnames(f: FormulaV) -> Set<Seq<char>>
    decreases f,
{
    match f {
        FormulaV::Method(n) => set![n],
        FormulaV::All(cs) => fnames_seq(cs),
        FormulaV::Any(cs) => fnames_seq(cs),
        FormulaV::Invalid => Set::empty(),
    }
}

pub open spec fn fnames_seq(cs: Seq<FormulaV>) -> Set<Seq<char>>
    decreases cs,
{
    if cs.len() == 0 {
        Set::empty()
    } else {
        fnames_seq(cs.drop_last()).union(fnames(cs.last()))
    }
}

/// Whether the formula can be walked within `budget` nodes from level `d`:
/// no invalid part, no node beyond the nesting limit, enough budget.
pub open spec fn walkable(f: FormulaV, d: nat, budget: nat) -> bool {
    fvalid(f) && fdepth_ok(f, d) && fsize(f) <= budget
}

/// Whether `e` names a condition of `walkable` that fails.
pub open spec fn walk_failure(e: MinimalErrorChirho, f: FormulaV, d: nat, budget: nat) -> bool {
    match e {
        MinimalErrorChirho::BudgetExhaustedChirho => fsize(f) > budget,
        MinimalErrorChirho::NestingLimitChirho => !fdepth_ok(f, d),
        MinimalErrorChirho::InvalidFormulaChirho => !fvalid(f),
        _ => false,
    }
}

/// `All` of three-valued results: false if a part is false, else open if a
/// part is open, else true.
pub open spec fn all_of(rs: Seq<Option<bool>>) -> Option<bool> {
    if rs.contains(Some(false)) {
        Some(false)
    } else if rs.contains(None) {
        None
    } else {
        Some(true)
    }
}

/// `Any` of three-valued results: true if a part is true, else open if a
/// part is open, else false.
pub open spec fn any_of(rs: Seq<Option<bool>>) -> Option<bool> {
    if rs.contains(Some(true)) {
        Some(true)
    } else if rs.contains(None) {
        None
    } else {
        Some(false)
    }
}

/// The three-valued value of a formula under an assignment of method names.
/// An invalid formula has no value.
pub open spec fn kleene(f: FormulaV, a: Map<Seq<char>, bool>) -> Option<bool>
    decreases f,
{
    match f {
        FormulaV::Method(n) => if a.dom().contains(n) { Some(a[n]) } else { None },
        FormulaV::All(cs) => all_of(kleene_seq(cs, a)),
        FormulaV::Any(cs) => any_of(kleene_seq(cs, a)),
        FormulaV::Invalid => None,
    }
}

pub open spec fn kleene_seq(cs: Seq<FormulaV>, a: Map<Seq<char>, bool>) -> Seq<Option<bool>>
    decreases cs,
{
    if cs.len() == 0 {
        Seq::empty()
    } else {
        kleene_seq(cs.drop_last(), a).push(kleene(cs.last(), a))
    }
}

pub proof fn lemma_kleene_seq(cs: Seq<FormulaV>, a: Map<Seq<char>, bool>)
    ensures
        kleene_seq(cs, a).len() == cs.len(),
        forall|i: int| 0 <= i < cs.len() ==> #[trigger] kleene_seq(cs, a)[i] == kleene(cs[i], a),
    decreases cs.len(),
{
    if cs.len() > 0 {
        lemma_kleene_seq(cs.drop_last(), a);
    }
}

pub proof fn lemma_fsize_seq(cs: Seq<FormulaV>)
    ensures
        fsize_seq(cs) >= cs.len(),
        forall|i: int| 0 <= i < cs.len() ==> fsize_seq(cs) >= fsize(#[trigger] cs[i]),
    decreases cs.len(),
{
    if cs.len() > 0 {
        lemma_fsize_seq(cs.drop_last());
        assert forall|i: int| 0 <= i < cs.len() implies fsize_seq(cs) >= fsize(#[trigger] cs[i]) by {
            if i < cs.len() - 1 {
                assert(cs.drop_last()[i] == cs[i]);
            }
        }
    }
}

/// `a2` decides everything `a1` decides, the same way.
pub open spec fn extends(a1: Map<Seq<char>, bool>, a2: Map<Seq<char>, bool>) -> bool {
    forall|n: Seq<char>| #[trigger] a1.dom().contains(n) ==> a2.dom().contains(n) && a2[n] == a1[n]
}

/// Deciding more methods never changes a value that was already decided.
pub proof fn lemma_kleene_monotone(f: FormulaV, a1: Map<Seq<char>, bool>, a2: Map<Seq<char>, bool>)
    requires
        extends(a1, a2),
        kleene(f, a1) is Some,
    ensures
        kleene(f, a2) == kleene(f, a1),
    decreases f,
{
    match f {
        FormulaV::All(cs) => {
            lemma_kleene_seq_monotone(cs, a1, a2);
            let r1 = kleene_seq(cs, a1);
            let r2 = kleene_seq(cs, a2);
            lemma_kleene_seq(cs, a1);
            lemma_kleene_seq(cs, a2);
            if r1.contains(Some(false)) {
                let i = choose|i: int| 0 <= i < r1.len() && r1[i] == Some(false);
                assert(r2[i] == Some(false));
            } else {
                assert forall|i: int| 0 <= i < r2.len() implies r2[i] == Some(true) by {
                    assert(r1[i] != Some(false));
                    assert(r1[i] != None::<bool>);
                }
            }
        },
        FormulaV::Any(cs) => {
            lemma_kleene_seq_monotone(cs, a1, a2);
            let r1 = kleene_seq(cs, a1);
            let r2 = kleene_seq(cs, a2);
            lemma_kleene_seq(cs, a1);
            lemma_kleene_seq(cs, a2);
            if r1.contains(Some(true)) {
                let i = choose|i: int| 0 <= i < r1.len() && r1[i] == Some(true);
                assert(r2[i] == Some(true));
            } else {
                assert forall|i: int| 0 <= i < r2.len() implies r2[i] == Some(false) by {
                    assert(r1[i] != Some(true));
                    assert(r1[i] != None::<bool>);
                }
            }
        },
        _ => {},
    }
}

pub proof fn lemma_kleene_seq_monotone(cs: Seq<FormulaV>, a1: Map<Seq<char>, bool>, a2: Map<Seq<char>, bool>)
    requires
        extends(a1, a2),
    ensures
        forall|i: int| 0 <= i < cs.len() && #[trigger] kleene_seq(cs, a1)[i] is Some ==> kleene_seq(cs, a2)[i] == kleene_seq(cs, a1)[i],
    decreases cs,
{
    lemma_kleene_seq(cs, a1);
    lemma_kleene_seq(cs, a2);
    if cs.len() > 0 {
        lemma_kleene_seq_monotone(cs.drop_last(), a1, a2);
        lemma_kleene_seq(cs.drop_last(), a1);
        lemma_kleene_seq(cs.drop_last(), a2);
        if kleene(cs.last(), a1) is Some {
            lemma_kleene_monotone(cs.last(), a1, a2);
        }
        assert forall|i: int| 0 <= i < cs.len() && #[trigger] kleene_seq(cs, a1)[i] is Some implies kleene_seq(cs, a2)[i] == kleene_seq(cs, a1)[i] by {
            if i < cs.len() - 1 {
                assert(cs.drop_last()[i] == cs[i]);
                assert(kleene_seq(cs.drop_last(), a1)[i] == kleene_seq(cs, a1)[i]);
            }
        }
    }
}

/// Budgeted evaluation, part by part from the first, stopping at the first
/// part that decides the whole: the result, or why it failed, and the
/// budget left. Each node visited costs one unit.
pub open spec fn eval_b(f: FormulaV, a: Map<Seq<char>, bool>, b: nat) -> Result<(Option<bool>, nat), MinimalErrorChirho>
    decreases f,
{
    if b == 0 {
        Err(MinimalErrorChirho::BudgetExhaustedChirho)
    } else {
        match f {
            FormulaV::Method(n) => Ok((if a.dom().contains(n) { Some(a[n]) } else { None }, (b - 1) as nat)),
            FormulaV::All(cs) => eval_parts(cs, true, a, (b - 1) as nat),
            FormulaV::Any(cs) => eval_parts(cs, false, a, (b - 1) as nat),
            FormulaV::Invalid => Err(MinimalErrorChirho::InvalidFormulaChirho),
        }
    }
}

/// Budgeted evaluation of the parts of an `All` (`conj`) or `Any`.
pub open spec fn eval_parts(cs: Seq<FormulaV>, conj: bool, a: Map<Seq<char>, bool>, b: nat) -> Result<(Option<bool>, nat), MinimalErrorChirho>
    decreases cs,
{
    if cs.len() == 0 {
        Ok((Some(conj), b))
    } else {
        match eval_b(cs[0], a, b) {
            Err(e) => Err(e),
            Ok((v, b1)) => if v == Some(!conj) {
                Ok((v, b1))
            } else {
                finish_parts(v is None, conj, eval_parts(cs.drop_first(), conj, a, b1))
            },
        }
    }
}

/// Combines an undecisive earlier part (open when `open`) with the rest.
pub open spec fn finish_parts(open: bool, conj: bool, rest: Result<(Option<bool>, nat), MinimalErrorChirho>) -> Result<(Option<bool>, nat), MinimalErrorChirho> {
    match rest {
        Err(e) => Err(e),
        Ok((w, b2)) => Ok((if w == Some(!conj) { w } else if open { None } else { w }, b2)),
    }
}

/// The budgeted evaluation, when it succeeds, gives the three-valued value.
pub proof fn lemma_eval_b_kleene(f: FormulaV, a: Map<Seq<char>, bool>, b: nat)
    ensures
        eval_b(f, a, b) matches Ok((v, b1)) ==> v == kleene(f, a) && b1 < b,
    decreases f,
{
    if b > 0 {
        match f {
            FormulaV::All(cs) => {
                lemma_eval_parts_kleene(cs, true, a, (b - 1) as nat);
            },
            FormulaV::Any(cs) => {
                lemma_eval_parts_kleene(cs, false, a, (b - 1) as nat);
            },
            _ => {},
        }
    }
}

pub proof fn lemma_eval_parts_kleene(cs: Seq<FormulaV>, conj: bool, a: Map<Seq<char>, bool>, b: nat)
    ensures
        eval_parts(cs, conj, a, b) matches Ok((v, b1)) ==> b1 <= b && v == (if conj { all_of(kleene_seq(cs, a)) } else { any_of(kleene_seq(cs, a)) }),
    decreases cs,
{
    let rs = kleene_seq(cs, a);
    lemma_kleene_seq(cs, a);
    if cs.len() == 0 {
        assert(!rs.contains(Some(false)) && !rs.contains(None) && !rs.contains(Some(true)));
    } else {
        lemma_eval_b_kleene(cs[0], a, b);
        assert(decreases_to!(cs => cs[0]));
        match eval_b(cs[0], a, b) {
            Err(e) => {},
            Ok((v, b1)) => {
                assert(rs[0] == v);
                if v != Some(!conj) {
                    let tail = cs.drop_first();
                    lemma_eval_parts_kleene(tail, conj, a, b1);
                    let ts = kleene_seq(tail, a);
                    lemma_kleene_seq(tail, a);
                    assert(rs =~= seq![v] + ts) by {
                        assert forall|i: int| 0 <= i < rs.len() implies rs[i] == (seq![v] + ts)[i] by {
                            if i > 0 {
                                assert(tail[i - 1] == cs[i]);
                            }
                        }
                    }
                    assert forall|x: Option<bool>| rs.contains(x) <==> (x == v || ts.contains(x)) by {
                        if rs.contains(x) {
                            let i = choose|i: int| 0 <= i < rs.len() && rs[i] == x;
                            if i > 0 {
                                assert(ts[i - 1] == x);
                            }
                        }
                        if ts.contains(x) {
                            let i = choose|i: int| 0 <= i < ts.len() && ts[i] == x;
                            assert(rs[i + 1] == x);
                        }
                    }
                } else {
                    assert(rs.contains(v));
                }
            },
        }
    }
}

/// The assignment that gives the first `vals.len()` of `names` the values
/// `vals` (a name counts at its first position).
pub open spec fn assignment_of(names: Seq<Seq<char>>, vals: Seq<bool>) -> Map<Seq<char>, bool> {
    Map::new(
        |n: Seq<char>| 0 <= first_pos(names, n) < vals.len(),
        |n: Seq<char>| vals[first_pos(names, n)],
    )
}

/// Evaluates a formula under the assignment of `assignment_chirho` to the
/// first names of `names_chirho`, with budget.
pub fn evaluate_chirho(
    formula_chirho: &MinimalFormulaChirho,
    names_chirho: &Vec<String>,
    assignment_chirho: &Vec<bool>,
    budget_chirho: &mut usize,
) -> (r: Result<Option<bool>, MinimalErrorChirho>)
    ensures
        *final(budget_chirho) <= *old(budget_chirho),
        match r {
            Ok(v) => eval_b(formula_chirho@, assignment_of(strings_view(names_chirho@), assignment_chirho@), *old(budget_chirho) as nat)
                == Ok::<(Option<bool>, nat), MinimalErrorChirho>((v, *final(budget_chirho) as nat)),
            Err(e) => eval_b(formula_chirho@, assignment_of(strings_view(names_chirho@), assignment_chirho@), *old(budget_chirho) as nat)
                == Err::<(Option<bool>, nat), MinimalErrorChirho>(e),
        },
    decreases formula_chirho,
{
    let ghost a = assignment_of(strings_view(names_chirho@), assignment_chirho@);
    if *budget_chirho == 0 {
        return Err(MinimalErrorChirho::BudgetExhaustedChirho);
    }
    *budget_chirho = *budget_chirho - 1;
    match formula_chirho {
        MinimalFormulaChirho::MethodChirho(name_chirho) => {
            proof { lemma_first_pos(strings_view(names_chirho@), name_chirho@); }
            match find_string_chirho(names_chirho, name_chirho.as_str()) {
                Some(k) => {
                    if k < assignment_chirho.len() {
                        Ok(Some(assignment_chirho[k]))
                    } else {
                        Ok(None)
                    }
                },
                None => Ok(None),
            }
        },
        MinimalFormulaChirho::AllChirho(children_chirho) => {
            evaluate_parts_chirho(children_chirho, true, names_chirho, assignment_chirho, budget_chirho)
        },
        MinimalFormulaChirho::AnyChirho(children_chirho) => {
            evaluate_parts_chirho(children_chirho, false, names_chirho, assignment_chirho, budget_chirho)
        },
        MinimalFormulaChirho::InvalidChirho => Err(MinimalErrorChirho::InvalidFormulaChirho),
    }
}

/// Evaluates the parts of an `All` (`conjunction_chirho`) or an `Any`.
fn evaluate_parts_chirho(
    children_chirho: &Vec<MinimalFormulaChirho>,
    conjunction_chirho: bool,
    names_chirho: &Vec<String>,
    assignment_chirho: &Vec<bool>,
    budget_chirho: &mut usize,
) -> (r: Result<Option<bool>, MinimalErrorChirho>)
    ensures
        *final(budget_chirho) <= *old(budget_chirho),
        match r {
            Ok(v) => eval_parts(formulas_view(children_chirho@), conjunction_chirho, assignment_of(strings_view(names_chirho@), assignment_chirho@), *old(budget_chirho) as nat)
                == Ok::<(Option<bool>, nat), MinimalErrorChirho>((v, *final(budget_chirho) as nat)),
            Err(e) => eval_parts(formulas_view(children_chirho@), conjunction_chirho, assignment_of(strings_view(names_chirho@), assignment_chirho@), *old(budget_chirho) as nat)
                == Err::<(Option<bool>, nat), MinimalErrorChirho>(e),
        },
    decreases children_chirho@,
{
    let ghost a = assignment_of(strings_view(names_chirho@), assignment_chirho@);
    let ghost cs = formulas_view(children_chirho@);
    let ghost b0 = *budget_chirho as nat;
    let mut unresolved_chirho = false;
    let mut i: usize = 0;
    proof {
        lemma_formulas_view(children_chirho@);
        assert(cs.skip(0) =~= cs);
    }
    while i < children_chirho.len()
        invariant
            i <= children_chirho.len(),
            cs == formulas_view(children_chirho@),
            cs.len() == children_chirho@.len(),
            forall|j: int| 0 <= j < cs.len() ==> #[trigger] cs[j] == children_chirho@[j].view_f(),
            a == assignment_of(strings_view(names_chirho@), assignment_chirho@),
            b0 == *old(budget_chirho) as nat,
            *budget_chirho <= b0,
            eval_parts(cs, conjunction_chirho, a, b0)
                == finish_parts(unresolved_chirho, conjunction_chirho, eval_parts(cs.skip(i as int), conjunction_chirho, a, *budget_chirho as nat)),
        decreases children_chirho.len() - i,
    {
        let ghost rest = cs.skip(i as int);
        proof {
            assert(rest[0] == cs[i as int]);
            assert(rest.drop_first() =~= cs.skip(i + 1));
            assert(decreases_to!(children_chirho@ => children_chirho@[i as int]));
        }
        let ghost bb = *budget_chirho as nat;
        let value_chirho = evaluate_chirho(&children_chirho[i], names_chirho, assignment_chirho, budget_chirho);
        match value_chirho {
            Err(e) => {
                proof {
                    assert(eval_b(rest[0], a, bb) == Err::<(Option<bool>, nat), MinimalErrorChirho>(e));
                    assert(eval_parts(rest, conjunction_chirho, a, bb) == Err::<(Option<bool>, nat), MinimalErrorChirho>(e));
                }
                return Err(e);
            },
            Ok(v) => {
                if v == Some(!conjunction_chirho) {
                    proof {
                        assert(eval_parts(rest, conjunction_chirho, a, bb) == Ok::<(Option<bool>, nat), MinimalErrorChirho>((v, *budget_chirho as nat)));
                    }
                    return Ok(v);
                }
                if v.is_none() {
                    unresolved_chirho = true;
                }
            },
        }
        i = i + 1;
    }
    if unresolved_chirho {
        Ok(None)
    } else {
        Ok(Some(conjunction_chirho))
    }
}


pub proof fn lemma_fvalid_seq(cs: Seq<FormulaV>)
    ensures
        fvalid_seq(cs) <==> forall|i: int| 0 <= i < cs.len() ==> fvalid(#[trigger] cs[i]),
    decreases cs.len(),
{
    if cs.len() > 0 {
        lemma_fvalid_seq(cs.drop_last());
        if !fvalid_seq(cs) {
            if !fvalid(cs.last()) {
                assert(!fvalid(cs[cs.len() - 1]));
            } else {
                let i = choose|i: int| 0 <= i < cs.len() - 1 && !fvalid(#[trigger] cs.drop_last()[i]);
                assert(cs[i] == cs.drop_last()[i]);
            }
        } else {
            assert forall|i: int| 0 <= i < cs.len() implies fvalid(#[trigger] cs[i]) by {
                if i < cs.len() - 1 {
                    assert(cs[i] == cs.drop_last()[i]);
                }
            }
        }
    }
}

pub proof fn lemma_fdepth_ok_seq(cs: Seq<FormulaV>, d: nat)
    ensures
        fdepth_ok_seq(cs, d) <==> forall|i: int| 0 <= i < cs.len() ==> fdepth_ok(#[trigger] cs[i], d),
    decreases cs.len(),
{
    if cs.len() > 0 {
        lemma_fdepth_ok_seq(cs.drop_last(), d);
        if !fdepth_ok_seq(cs, d) {
            if !fdepth_ok(cs.last(), d) {
                assert(!fdepth_ok(cs[cs.len() - 1], d));
            } else {
                let i = choose|i: int| 0 <= i < cs.len() - 1 && !fdepth_ok(#[trigger] cs.drop_last()[i], d);
                assert(cs[i] == cs.drop_last()[i]);
            }
        } else {
            assert forall|i: int| 0 <= i < cs.len() implies fdepth_ok(#[trigger] cs[i], d) by {
                if i < cs.len() - 1 {
                    assert(cs[i] == cs.drop_last()[i]);
                }
            }
        }
    }
}

pub proof fn lemma_fnames_seq(cs: Seq<FormulaV>)
    ensures
        forall|n: Seq<char>| #[trigger] fnames_seq(cs).contains(n) <==> exists|i: int| 0 <= i < cs.len() && fnames(#[trigger] cs[i]).contains(n),
    decreases cs.len(),
{
    if cs.len() > 0 {
        lemma_fnames_seq(cs.drop_last());
        assert forall|n: Seq<char>| #[trigger] fnames_seq(cs).contains(n) <==> exists|i: int| 0 <= i < cs.len() && fnames(#[trigger] cs[i]).contains(n) by {
            let inner = fnames_seq(cs.drop_last()).contains(n);
            if fnames_seq(cs).contains(n) {
                if fnames(cs.last()).contains(n) {
                    assert(fnames(cs[cs.len() - 1]).contains(n));
                } else {
                    assert(inner);
                    let i = choose|i: int| 0 <= i < cs.len() - 1 && fnames(#[trigger] cs.drop_last()[i]).contains(n);
                    assert(cs[i] == cs.drop_last()[i]);
                }
            }
            if exists|i: int| 0 <= i < cs.len() && fnames(#[trigger] cs[i]).contains(n) {
                let i = choose|i: int| 0 <= i < cs.len() && fnames(#[trigger] cs[i]).contains(n);
                if i < cs.len() - 1 {
                    assert(cs[i] == cs.drop_last()[i]);
                    assert(fnames(cs.drop_last()[i]).contains(n));
                    assert(inner);
                }
            }
        }
    }
}

pub proof fn lemma_fsize_seq_concat(s1: Seq<FormulaV>, s2: Seq<FormulaV>)
    ensures
        fsize_seq(s1 + s2) == fsize_seq(s1) + fsize_seq(s2),
    decreases s2.len(),
{
    if s2.len() == 0 {
        assert(s1 + s2 =~= s1);
    } else {
        lemma_fsize_seq_concat(s1, s2.drop_last());
        assert((s1 + s2).drop_last() =~= s1 + s2.drop_last());
    }
}

/// Whether `e` names a condition that fails for the parts `cs` at level `d`
/// with `budget`.
pub open spec fn parts_failure(e: MinimalErrorChirho, cs: Seq<FormulaV>, d: nat, budget: nat) -> bool {
    match e {
        MinimalErrorChirho::BudgetExhaustedChirho => fsize_seq(cs) > budget,
        MinimalErrorChirho::NestingLimitChirho => !fdepth_ok_seq(cs, d),
        MinimalErrorChirho::InvalidFormulaChirho => !fvalid_seq(cs),
        _ => false,
    }
}

/// Names in strictly increasing order (so each once).
pub open spec fn sorted_names(s: Seq<Seq<char>>) -> bool {
    forall|i: int, j: int| 0 <= i < j < s.len() ==> text_lt(s[i], s[j])
}

/// Adds `name` to a sorted list of names, unless it is there.
fn insert_name_chirho(names_chirho: &mut Vec<String>, name_chirho: &str)
    requires
        sorted_names(strings_view(old(names_chirho)@)),
    ensures
        sorted_names(strings_view(final(names_chirho)@)),
        strings_view(final(names_chirho)@).to_set() == strings_view(old(names_chirho)@).to_set().insert(name_chirho@),
{
    let ghost nv = strings_view(names_chirho@);
    let mut k: usize = 0;
    let mut stop = false;
    while !stop && k < names_chirho.len()
        invariant
            k <= names_chirho.len(),
            nv == strings_view(names_chirho@),
            nv.len() == names_chirho@.len(),
            forall|j: int| 0 <= j < k ==> text_lt(#[trigger] nv[j], name_chirho@),
            stop ==> k < names_chirho.len() && !text_lt(nv[k as int], name_chirho@),
        decreases names_chirho.len() - k + (if stop { 0int } else { 1int }),
    {
        proof { assert(nv[k as int] == names_chirho@[k as int]@); }
        if text_lt_chirho(names_chirho[k].as_str(), name_chirho) {
            k = k + 1;
        } else {
            stop = true;
        }
    }
    let same = stop && crate::ty_chirho::str_eq_chirho(names_chirho[k].as_str(), name_chirho);
    proof {
        if stop {
            assert(nv[k as int] == names_chirho@[k as int]@);
            assert(same == (nv[k as int] == name_chirho@));
        }
    }
    if same {
        proof {
            assert(nv.to_set().insert(name_chirho@) =~= nv.to_set());
        }
        return;
    }
    let ghost old_s = names_chirho@;
    names_chirho.insert(k, name_chirho.to_owned());
    proof {
        let nw = strings_view(names_chirho@);
        assert(nw =~= nv.insert(k as int, name_chirho@));
        if stop {
            assert(nv[k as int] == names_chirho@[k as int + 1]@);
            lemma_text_lt_total(nv[k as int], name_chirho@);
        }
        assert forall|i: int, j: int| 0 <= i < j < nw.len() implies text_lt(nw[i], nw[j]) by {
            if j < k {
            } else if j == k {
            } else if i < k {
                if j > k + 1 {
                    lemma_text_lt_transitive(name_chirho@, nv[k as int], nw[j]);
                }
                lemma_text_lt_transitive(nw[i], name_chirho@, nw[j]);
            } else if i == k {
                if j > k + 1 {
                    lemma_text_lt_transitive(name_chirho@, nv[k as int], nw[j]);
                }
            } else {
            }
        }
        assert forall|x: Seq<char>| #[trigger] nw.to_set().contains(x) <==> nv.to_set().insert(name_chirho@).contains(x) by {
            if nw.to_set().contains(x) {
                let i = choose|i: int| 0 <= i < nw.len() && nw[i] == x;
                if i < k {
                    assert(nv[i] == x);
                } else if i > k {
                    assert(nv[i - 1] == x);
                }
            }
            if nv.to_set().contains(x) {
                let i = choose|i: int| 0 <= i < nv.len() && nv[i] == x;
                if i < k {
                    assert(nw[i] == x);
                } else {
                    assert(nw[i + 1] == x);
                }
            }
            if x == name_chirho@ {
                assert(nw[k as int] == x);
            }
        }
        assert(nw.to_set() =~= nv.to_set().insert(name_chirho@));
    }
}

/// The walk of a formula at level `d` with budget `b`: one unit per node,
/// checked before the node; the level checked next; an invalid node refused;
/// the parts of a node, after a check that the budget covers their number,
/// walked from the last. The budget left, or the first failure met.
pub open spec fn walk_v(f: FormulaV, d: nat, b: nat) -> Result<nat, MinimalErrorChirho>
    decreases f, 1nat,
{
    if b == 0 {
        Err(MinimalErrorChirho::BudgetExhaustedChirho)
    } else if d > NESTING_LIMIT_CHIRHO {
        Err(MinimalErrorChirho::NestingLimitChirho)
    } else {
        match f {
            FormulaV::Method(_) => Ok((b - 1) as nat),
            FormulaV::All(cs) => if cs.len() > b - 1 { Err(MinimalErrorChirho::BudgetExhaustedChirho) } else { walk_rev(cs, d, (b - 1) as nat) },
            FormulaV::Any(cs) => if cs.len() > b - 1 { Err(MinimalErrorChirho::BudgetExhaustedChirho) } else { walk_rev(cs, d, (b - 1) as nat) },
            FormulaV::Invalid => Err(MinimalErrorChirho::InvalidFormulaChirho),
        }
    }
}

/// The walk of the parts `cs` of a node at level `d`, from the last.
pub open spec fn walk_rev(cs: Seq<FormulaV>, d: nat, b: nat) -> Result<nat, MinimalErrorChirho>
    decreases cs, 0nat,
{
    if cs.len() == 0 {
        Ok(b)
    } else {
        match walk_v(cs.last(), d + 1, b) {
            Err(e) => Err(e),
            Ok(b2) => walk_rev(cs.drop_last(), d, b2),
        }
    }
}

/// Walks a formula placed at level `depth_chirho`, spending one unit of
/// budget per node and adding its method names to the sorted `names_chirho`.
/// The parts of a node are walked from the last.
fn collect_names_chirho(
    formula_chirho: &MinimalFormulaChirho,
    depth_chirho: usize,
    budget_chirho: &mut usize,
    names_chirho: &mut Vec<String>,
) -> (r: Result<(), MinimalErrorChirho>)
    requires
        depth_chirho <= NESTING_LIMIT_CHIRHO + 1,
        sorted_names(strings_view(old(names_chirho)@)),
    ensures
        sorted_names(strings_view(final(names_chirho)@)),
        *final(budget_chirho) <= *old(budget_chirho),
        r is Ok <==> walkable(formula_chirho@, depth_chirho as nat, *old(budget_chirho) as nat),
        r is Ok ==> *final(budget_chirho) == *old(budget_chirho) - fsize(formula_chirho@)
            && strings_view(final(names_chirho)@).to_set() == strings_view(old(names_chirho)@).to_set().union(fnames(formula_chirho@)),
        r matches Err(e) ==> walk_failure(e, formula_chirho@, depth_chirho as nat, *old(budget_chirho) as nat),
        r is Ok ==> walk_v(formula_chirho@, depth_chirho as nat, *old(budget_chirho) as nat) == Ok::<nat, MinimalErrorChirho>(*final(budget_chirho) as nat),
        r matches Err(e) ==> walk_v(formula_chirho@, depth_chirho as nat, *old(budget_chirho) as nat) == Err::<nat, MinimalErrorChirho>(e),
    decreases formula_chirho, 1nat,
{
    if *budget_chirho == 0 {
        return Err(MinimalErrorChirho::BudgetExhaustedChirho);
    }
    *budget_chirho = *budget_chirho - 1;
    if depth_chirho > NESTING_LIMIT_CHIRHO {
        return Err(MinimalErrorChirho::NestingLimitChirho);
    }
    match formula_chirho {
        MinimalFormulaChirho::MethodChirho(name_chirho) => {
            insert_name_chirho(names_chirho, name_chirho.as_str());
            proof {
                assert(strings_view(old(names_chirho)@).to_set().insert(name_chirho@) =~= strings_view(old(names_chirho)@).to_set().union(set![name_chirho@]));
                assert(formula_chirho@ == FormulaV::Method(name_chirho@));
                assert(walk_v(formula_chirho@, depth_chirho as nat, *old(budget_chirho) as nat)
                    == Ok::<nat, MinimalErrorChirho>(*budget_chirho as nat));
            }
            Ok(())
        },
        MinimalFormulaChirho::AllChirho(children_chirho) => {
            collect_parts_chirho(children_chirho, depth_chirho, budget_chirho, names_chirho)
        },
        MinimalFormulaChirho::AnyChirho(children_chirho) => {
            collect_parts_chirho(children_chirho, depth_chirho, budget_chirho, names_chirho)
        },
        MinimalFormulaChirho::InvalidChirho => Err(MinimalErrorChirho::InvalidFormulaChirho),
    }
}

/// Walks the parts of a node at level `depth_chirho`, from the last.
fn collect_parts_chirho(
    children_chirho: &Vec<MinimalFormulaChirho>,
    depth_chirho: usize,
    budget_chirho: &mut usize,
    names_chirho: &mut Vec<String>,
) -> (r: Result<(), MinimalErrorChirho>)
    requires
        depth_chirho <= NESTING_LIMIT_CHIRHO,
        sorted_names(strings_view(old(names_chirho)@)),
    ensures
        sorted_names(strings_view(final(names_chirho)@)),
        *final(budget_chirho) <= *old(budget_chirho),
        r is Ok <==> fvalid_seq(formulas_view(children_chirho@)) && fdepth_ok_seq(formulas_view(children_chirho@), (depth_chirho + 1) as nat)
            && fsize_seq(formulas_view(children_chirho@)) <= *old(budget_chirho),
        r is Ok ==> *final(budget_chirho) == *old(budget_chirho) - fsize_seq(formulas_view(children_chirho@))
            && strings_view(final(names_chirho)@).to_set() == strings_view(old(names_chirho)@).to_set().union(fnames_seq(formulas_view(children_chirho@))),
        r matches Err(e) ==> parts_failure(e, formulas_view(children_chirho@), (depth_chirho + 1) as nat, *old(budget_chirho) as nat),
        r is Ok ==> walk_rev(formulas_view(children_chirho@), depth_chirho as nat, *old(budget_chirho) as nat) == Ok::<nat, MinimalErrorChirho>(*final(budget_chirho) as nat),
        r is Ok ==> formulas_view(children_chirho@).len() <= *old(budget_chirho),
        r matches Err(e) ==> (if formulas_view(children_chirho@).len() > *old(budget_chirho) { Err::<nat, MinimalErrorChirho>(MinimalErrorChirho::BudgetExhaustedChirho) }
            else { walk_rev(formulas_view(children_chirho@), depth_chirho as nat, *old(budget_chirho) as nat) }) == Err::<nat, MinimalErrorChirho>(e),
    decreases children_chirho@, 0nat,
{
    let ghost cv = formulas_view(children_chirho@);
    let ghost b0 = *budget_chirho as nat;
    let ghost names0 = strings_view(names_chirho@).to_set();
    proof {
        lemma_formulas_view(children_chirho@);
        lemma_fsize_seq(cv);
        lemma_fvalid_seq(cv);
        lemma_fdepth_ok_seq(cv, (depth_chirho + 1) as nat);
        lemma_fnames_seq(cv);
    }
    if children_chirho.len() > *budget_chirho {
        return Err(MinimalErrorChirho::BudgetExhaustedChirho);
    }
    let mut i: usize = children_chirho.len();
    proof {
        assert(cv.take(cv.len() as int) =~= cv);
        assert(cv.skip(cv.len() as int) =~= Seq::<FormulaV>::empty());
        lemma_fnames_seq(Seq::<FormulaV>::empty());
        assert(names0.union(fnames_seq(Seq::<FormulaV>::empty())) =~= names0);
    }
    while i > 0
        invariant
            i <= children_chirho.len(),
            depth_chirho <= NESTING_LIMIT_CHIRHO,
            cv == formulas_view(children_chirho@),
            cv.len() == children_chirho@.len(),
            forall|j: int| 0 <= j < cv.len() ==> #[trigger] cv[j] == children_chirho@[j].view_f(),
            b0 == *old(budget_chirho) as nat,
            names0 == strings_view(old(names_chirho)@).to_set(),
            sorted_names(strings_view(names_chirho@)),
            fsize_seq(cv.skip(i as int)) <= b0,
            *budget_chirho == b0 - fsize_seq(cv.skip(i as int)),
            forall|j: int| i <= j < cv.len() ==> fvalid(#[trigger] cv[j]) && fdepth_ok(cv[j], (depth_chirho + 1) as nat),
            strings_view(names_chirho@).to_set() == names0.union(fnames_seq(cv.skip(i as int))),
            fvalid_seq(cv) <==> forall|j: int| 0 <= j < cv.len() ==> fvalid(#[trigger] cv[j]),
            fdepth_ok_seq(cv, (depth_chirho + 1) as nat) <==> forall|j: int| 0 <= j < cv.len() ==> fdepth_ok(#[trigger] cv[j], (depth_chirho + 1) as nat),
            walk_rev(cv, depth_chirho as nat, b0) == walk_rev(cv.take(i as int), depth_chirho as nat, *budget_chirho as nat),
            cv.len() <= b0,
        decreases i,
    {
        i = i - 1;
        let ghost bnow = *budget_chirho as nat;
        proof {
            let t = cv.take(i + 1);
            assert(t.drop_last() =~= cv.take(i as int));
            assert(t.last() == cv[i as int]);
            assert(decreases_to!(children_chirho@ => children_chirho@[i as int]));
            assert(cv.skip(i as int) =~= seq![cv[i as int]] + cv.skip(i + 1));
            lemma_fsize_seq_concat(seq![cv[i as int]], cv.skip(i + 1));
            assert(seq![cv[i as int]].drop_last() =~= Seq::<FormulaV>::empty());
            assert(fsize_seq(Seq::<FormulaV>::empty()) == 0);
            assert(fsize_seq(seq![cv[i as int]]) == fsize(cv[i as int]));
            assert(cv =~= cv.take(i as int) + cv.skip(i as int));
            lemma_fsize_seq_concat(cv.take(i as int), cv.skip(i as int));
        }
        let res = collect_names_chirho(&children_chirho[i], depth_chirho + 1, budget_chirho, names_chirho);
        match res {
            Err(e) => {
                proof {
                    if e is NestingLimitChirho {
                        assert(!fdepth_ok(cv[i as int], (depth_chirho + 1) as nat));
                    }
                    if e is InvalidFormulaChirho {
                        assert(!fvalid(cv[i as int]));
                    }
                    let t = cv.take(i + 1);
                    assert(walk_v(t.last(), (depth_chirho + 1) as nat, bnow) == Err::<nat, MinimalErrorChirho>(e));
                    assert(walk_rev(t, depth_chirho as nat, bnow) == Err::<nat, MinimalErrorChirho>(e));
                }
                return Err(e);
            },
            Ok(()) => {},
        }
        proof {
            let s = cv.skip(i as int);
            lemma_fnames_seq(s);
            lemma_fnames_seq(cv.skip(i + 1));
            assert forall|n: Seq<char>| #[trigger] fnames_seq(s).contains(n) <==> (fnames(cv[i as int]).contains(n) || fnames_seq(cv.skip(i + 1)).contains(n)) by {
                if fnames_seq(s).contains(n) {
                    let j = choose|j: int| 0 <= j < s.len() && fnames(#[trigger] s[j]).contains(n);
                    if j > 0 {
                        assert(cv.skip(i + 1)[j - 1] == s[j]);
                    }
                }
                if fnames_seq(cv.skip(i + 1)).contains(n) {
                    let j = choose|j: int| 0 <= j < cv.skip(i + 1).len() && fnames(#[trigger] cv.skip(i + 1)[j]).contains(n);
                    assert(s[j + 1] == cv.skip(i + 1)[j]);
                }
                if fnames(cv[i as int]).contains(n) {
                    assert(s[0] == cv[i as int]);
                }
            }
            assert(strings_view(names_chirho@).to_set() =~= names0.union(fnames_seq(s)));
        }
    }
    proof {
        assert(cv.skip(0) =~= cv);
    }
    Ok(())
}

/// The method names of a formula, sorted, if the formula can be walked
/// within the budget.
pub fn names_chirho(formula_chirho: &MinimalFormulaChirho, budget_chirho: &mut usize) -> (r: Result<Vec<String>, MinimalErrorChirho>)
    ensures
        *final(budget_chirho) <= *old(budget_chirho),
        r is Ok <==> walkable(formula_chirho@, 0, *old(budget_chirho) as nat),
        r matches Ok(ns) ==> *final(budget_chirho) == *old(budget_chirho) - fsize(formula_chirho@)
            && sorted_names(strings_view(ns@))
            && strings_view(ns@).to_set() == fnames(formula_chirho@),
        r matches Err(e) ==> walk_failure(e, formula_chirho@, 0, *old(budget_chirho) as nat),
        r matches Err(e) ==> walk_v(formula_chirho@, 0, *old(budget_chirho) as nat) == Err::<nat, MinimalErrorChirho>(e),
        r is Ok ==> walk_v(formula_chirho@, 0, *old(budget_chirho) as nat) == Ok::<nat, MinimalErrorChirho>(*final(budget_chirho) as nat),
{
    let mut names: Vec<String> = Vec::new();
    proof {
        assert(strings_view(names@) =~= Seq::<Seq<char>>::empty());
    }
    match collect_names_chirho(formula_chirho, 0, budget_chirho, &mut names) {
        Ok(()) => {
            proof {
                assert(strings_view(names@).to_set() =~= fnames(formula_chirho@));
            }
            Ok(names)
        },
        Err(e) => Err(e),
    }
}

/// Checks that a formula can be walked within the limits and names only
/// the given methods.
pub fn validate_chirho(formula_chirho: &MinimalFormulaChirho, methods_chirho: &Vec<String>) -> (r: Result<(), MinimalErrorChirho>)
    ensures
        r is Ok <==> walkable(formula_chirho@, 0, LIMIT_CHIRHO as nat) && fnames(formula_chirho@).subset_of(strings_view(methods_chirho@).to_set()),
        r == Err::<(), MinimalErrorChirho>(MinimalErrorChirho::UndeclaredMethodChirho) <==> walkable(formula_chirho@, 0, LIMIT_CHIRHO as nat)
            && !fnames(formula_chirho@).subset_of(strings_view(methods_chirho@).to_set()),
        r matches Err(e) ==> (e == MinimalErrorChirho::UndeclaredMethodChirho || walk_failure(e, formula_chirho@, 0, LIMIT_CHIRHO as nat)),
        walk_v(formula_chirho@, 0, LIMIT_CHIRHO as nat) matches Err(e) ==> r == Err::<(), MinimalErrorChirho>(e),
{
    let mut budget_chirho: usize = LIMIT_CHIRHO;
    let names = match names_chirho(formula_chirho, &mut budget_chirho) {
        Ok(ns) => ns,
        Err(e) => {
            return Err(e);
        },
    };
    let ghost nv = strings_view(names@);
    let ghost mv = strings_view(methods_chirho@);
    let mut i: usize = 0;
    while i < names.len()
        invariant
            i <= names.len(),
            nv == strings_view(names@),
            mv == strings_view(methods_chirho@),
            nv.len() == names@.len(),
            nv.to_set() == fnames(formula_chirho@),
            walkable(formula_chirho@, 0, LIMIT_CHIRHO as nat),
            walk_v(formula_chirho@, 0, LIMIT_CHIRHO as nat) is Ok,
            forall|j: int| 0 <= j < i ==> mv.contains(#[trigger] nv[j]),
        decreases names.len() - i,
    {
        proof { lemma_first_pos(mv, names@[i as int]@); }
        if find_string_chirho(methods_chirho, names[i].as_str()).is_none() {
            proof {
                assert(nv[i as int] == names@[i as int]@);
                assert(nv.to_set().contains(nv[i as int]));
                assert(!mv.contains(nv[i as int]));
                assert(!mv.to_set().contains(nv[i as int]));
                assert(fnames(formula_chirho@).contains(nv[i as int]));
            }
            return Err(MinimalErrorChirho::UndeclaredMethodChirho);
        }
        proof { assert(nv[i as int] == names@[i as int]@); }
        i = i + 1;
    }
    proof {
        assert forall|n: Seq<char>| nv.to_set().contains(n) implies mv.to_set().contains(n) by {
            let j = choose|j: int| 0 <= j < nv.len() && nv[j] == n;
            assert(mv.contains(nv[j]));
        }
    }
    Ok(())
}


/// Structural equality of formula lists.
fn formulas_eq_chirho(a: &Vec<MinimalFormulaChirho>, b: &Vec<MinimalFormulaChirho>) -> (r: bool)
    ensures
        r == (formulas_view(a@) == formulas_view(b@)),
    decreases a@, 0nat,
{
    proof {
        lemma_formulas_view(a@);
        lemma_formulas_view(b@);
    }
    if a.len() != b.len() {
        return false;
    }
    let mut i: usize = 0;
    while i < a.len()
        invariant
            i <= a.len(),
            a.len() == b.len(),
            formulas_view(a@).len() == a.len(),
            formulas_view(b@).len() == b.len(),
            forall|j: int| 0 <= j < a.len() ==> #[trigger] formulas_view(a@)[j] == a@[j].view_f(),
            forall|j: int| 0 <= j < b.len() ==> #[trigger] formulas_view(b@)[j] == b@[j].view_f(),
            forall|j: int| 0 <= j < i ==> #[trigger] formulas_view(a@)[j] == formulas_view(b@)[j],
        decreases a.len() - i,
    {
        proof { assert(decreases_to!(a@ => a@[i as int])); }
        if !a[i].eq_chirho(&b[i]) {
            proof { assert(formulas_view(a@)[i as int] != formulas_view(b@)[i as int]); }
            return false;
        }
        i = i + 1;
    }
    proof { assert(formulas_view(a@) =~= formulas_view(b@)); }
    true
}

impl MinimalFormulaChirho {
    /// Structural equality.
    pub fn eq_chirho(&self, other: &MinimalFormulaChirho) -> (r: bool)
        ensures
            r == (self@ == other@),
        decreases self, 1nat,
    {
        match (self, other) {
            (MinimalFormulaChirho::MethodChirho(a), MinimalFormulaChirho::MethodChirho(b)) => *a == *b,
            (MinimalFormulaChirho::AllChirho(a), MinimalFormulaChirho::AllChirho(b)) => formulas_eq_chirho(a, b),
            (MinimalFormulaChirho::AnyChirho(a), MinimalFormulaChirho::AnyChirho(b)) => formulas_eq_chirho(a, b),
            (MinimalFormulaChirho::InvalidChirho, MinimalFormulaChirho::InvalidChirho) => true,
            _ => false,
        }
    }
}

/// Evaluation fails only for want of budget, or on an invalid part.
pub proof fn lemma_eval_b_errors(f: FormulaV, a: Map<Seq<char>, bool>, b: nat)
    ensures
        eval_b(f, a, b) matches Err(e) ==> e == MinimalErrorChirho::BudgetExhaustedChirho
            || (e == MinimalErrorChirho::InvalidFormulaChirho && !fvalid(f)),
    decreases f,
{
    if b > 0 {
        match f {
            FormulaV::All(cs) => {
                lemma_fvalid_seq(cs);
                lemma_eval_parts_errors(cs, true, a, (b - 1) as nat);
            },
            FormulaV::Any(cs) => {
                lemma_fvalid_seq(cs);
                lemma_eval_parts_errors(cs, false, a, (b - 1) as nat);
            },
            _ => {},
        }
    }
}

pub proof fn lemma_eval_parts_errors(cs: Seq<FormulaV>, conj: bool, a: Map<Seq<char>, bool>, b: nat)
    ensures
        eval_parts(cs, conj, a, b) matches Err(e) ==> e == MinimalErrorChirho::BudgetExhaustedChirho
            || (e == MinimalErrorChirho::InvalidFormulaChirho && exists|i: int| 0 <= i < cs.len() && !fvalid(#[trigger] cs[i])),
    decreases cs,
{
    if cs.len() > 0 {
        assert(decreases_to!(cs => cs[0]));
        lemma_eval_b_errors(cs[0], a, b);
        match eval_b(cs[0], a, b) {
            Err(e) => {},
            Ok((v, b1)) => {
                if v != Some(!conj) {
                    let tail = cs.drop_first();
                    lemma_eval_parts_errors(tail, conj, a, b1);
                    if eval_parts(tail, conj, a, b1) == Err::<(Option<bool>, nat), MinimalErrorChirho>(MinimalErrorChirho::InvalidFormulaChirho)
                        && exists|i: int| 0 <= i < tail.len() && !fvalid(#[trigger] tail[i]) {
                        let i = choose|i: int| 0 <= i < tail.len() && !fvalid(#[trigger] tail[i]);
                        assert(cs[i + 1] == tail[i]);
                    }
                }
            },
        }
    }
}

/// A valid formula whose method names are all decided has a value.
pub proof fn lemma_kleene_total(f: FormulaV, a: Map<Seq<char>, bool>)
    requires
        fvalid(f),
        fnames(f).subset_of(a.dom()),
    ensures
        kleene(f, a) is Some,
    decreases f,
{
    match f {
        FormulaV::All(cs) => {
            lemma_kleene_seq_total(cs, a);
        },
        FormulaV::Any(cs) => {
            lemma_kleene_seq_total(cs, a);
        },
        FormulaV::Method(n) => {
            assert(fnames(f).contains(n));
        },
        _ => {},
    }
}

pub proof fn lemma_kleene_seq_total(cs: Seq<FormulaV>, a: Map<Seq<char>, bool>)
    requires
        fvalid_seq(cs),
        fnames_seq(cs).subset_of(a.dom()),
    ensures
        !kleene_seq(cs, a).contains(None),
    decreases cs,
{
    lemma_kleene_seq(cs, a);
    lemma_fvalid_seq(cs);
    lemma_fnames_seq(cs);
    assert forall|i: int| 0 <= i < cs.len() implies #[trigger] kleene_seq(cs, a)[i] is Some by {
        assert(decreases_to!(cs => cs[i]));
        assert forall|n: Seq<char>| fnames(cs[i]).contains(n) implies a.dom().contains(n) by {
            assert(fnames_seq(cs).contains(n));
        }
        lemma_kleene_total(cs[i], a);
    }
}

/// Whether every total assignment of `names` that extends `vals` and
/// satisfies `boot` also satisfies `imp`.
pub open spec fn implied_over(boot: FormulaV, imp: FormulaV, names: Seq<Seq<char>>, vals: Seq<bool>) -> bool {
    forall|w: Seq<bool>| w.len() == names.len() && vals.is_prefix_of(w) ==>
        (kleene(boot, #[trigger] assignment_of(names, w)) == Some(true) ==> kleene(imp, assignment_of(names, w)) == Some(true))
}

pub proof fn lemma_assignment_extends(names: Seq<Seq<char>>, vals: Seq<bool>, w: Seq<bool>)
    requires
        vals.is_prefix_of(w),
    ensures
        extends(assignment_of(names, vals), assignment_of(names, w)),
{
    assert forall|n: Seq<char>| #[trigger] assignment_of(names, vals).dom().contains(n) implies
        assignment_of(names, w).dom().contains(n) && assignment_of(names, w)[n] == assignment_of(names, vals)[n] by {
        let k = first_pos(names, n);
        assert(w.subrange(0, vals.len() as int)[k] == w[k]);
    }
}

pub proof fn lemma_implied_over_split(boot: FormulaV, imp: FormulaV, names: Seq<Seq<char>>, vals: Seq<bool>)
    requires
        vals.len() < names.len(),
    ensures
        implied_over(boot, imp, names, vals) == (implied_over(boot, imp, names, vals.push(false)) && implied_over(boot, imp, names, vals.push(true))),
{
    assert forall|x: bool, w: Seq<bool>| #[trigger] vals.push(x).is_prefix_of(w) implies vals.is_prefix_of(w) by {
        assert(vals =~= w.subrange(0, vals.len() as int)) by {
            assert forall|k: int| 0 <= k < vals.len() implies vals[k] == w.subrange(0, vals.len() as int)[k] by {
                assert(vals.push(x)[k] == w.subrange(0, vals.len() as int + 1)[k]);
            }
        }
    }
    if implied_over(boot, imp, names, vals.push(false)) && implied_over(boot, imp, names, vals.push(true)) {
        assert forall|w: Seq<bool>| w.len() == names.len() && vals.is_prefix_of(w) implies
            (kleene(boot, #[trigger] assignment_of(names, w)) == Some(true) ==> kleene(imp, assignment_of(names, w)) == Some(true)) by {
            let x = w[vals.len() as int];
            assert(vals.push(x) =~= w.subrange(0, vals.len() as int + 1)) by {
                assert forall|k: int| 0 <= k < vals.len() + 1 implies vals.push(x)[k] == w.subrange(0, vals.len() as int + 1)[k] by {
                    if k < vals.len() {
                        assert(w.subrange(0, vals.len() as int)[k] == w[k]);
                    }
                }
            }
            assert(vals.push(x).is_prefix_of(w));
        }
    }
}

/// A valid pair of formulas all of whose names `names` lists, decided for
/// every name, is decided.
proof fn lemma_total_decides(boot: FormulaV, imp: FormulaV, names: Seq<Seq<char>>, vals: Seq<bool>)
    requires
        vals.len() == names.len(),
        fvalid(boot),
        fvalid(imp),
        fnames(boot).union(fnames(imp)).subset_of(names.to_set()),
    ensures
        kleene(boot, assignment_of(names, vals)) is Some,
        kleene(imp, assignment_of(names, vals)) is Some,
{
    let a = assignment_of(names, vals);
    assert forall|n: Seq<char>| names.to_set().contains(n) implies a.dom().contains(n) by {
        lemma_first_pos(names, n);
    }
    lemma_kleene_total(boot, a);
    lemma_kleene_total(imp, a);
}

/// The outcome of the search from the partial assignment `vals` of `names`
/// with `b` evaluation steps left: both formulas are evaluated under it; a
/// settled answer is given at once; an open one is split on the next name,
/// `false` first, stopping at the first counterexample; with the step count
/// left after the search.
pub open spec fn search_outcome(boot: FormulaV, imp: FormulaV, names: Seq<Seq<char>>, vals: Seq<bool>, b: nat)
    -> Result<(bool, nat), MinimalErrorChirho>
    decreases names.len() - vals.len(),
{
    let a = assignment_of(names, vals);
    match eval_b(boot, a, b) {
        Err(e) => Err(e),
        Ok((p, b1)) => match eval_b(imp, a, b1) {
            Err(e) => Err(e),
            Ok((q, b2)) => {
                if p == Some(false) || q == Some(true) {
                    Ok((true, b2))
                } else if p == Some(true) && q == Some(false) {
                    Ok((false, b2))
                } else if vals.len() >= DECISION_LIMIT_CHIRHO {
                    Err(MinimalErrorChirho::DecisionDepthChirho)
                } else if vals.len() >= names.len() {
                    Err(MinimalErrorChirho::UnresolvedDecisionChirho)
                } else {
                    match search_outcome(boot, imp, names, vals.push(false), b2) {
                        Err(e) => Err(e),
                        Ok((false, b3)) => Ok((false, b3)),
                        Ok((true, b3)) => search_outcome(boot, imp, names, vals.push(true), b3),
                    }
                }
            },
        },
    }
}

/// The result of a search outcome, without the step count.
pub open spec fn search_result(o: Result<(bool, nat), MinimalErrorChirho>) -> Result<bool, MinimalErrorChirho> {
    match o {
        Ok((v, _)) => Ok(v),
        Err(e) => Err(e),
    }
}

/// Decides by search whether `boot_chirho` implies `implementation_chirho`
/// on every total assignment of `names_chirho` that extends the first
/// `index_chirho` values fixed in `assignment_chirho`: names are fixed in
/// order, false before true, and a branch ends as soon as the partial
/// assignment decides the question.
pub fn search_chirho(
    boot_chirho: &MinimalFormulaChirho,
    implementation_chirho: &MinimalFormulaChirho,
    names_chirho: &Vec<String>,
    assignment_chirho: &mut Vec<bool>,
    index_chirho: usize,
    budget_chirho: &mut usize,
) -> (r: Result<bool, MinimalErrorChirho>)
    requires
        old(assignment_chirho)@.len() == index_chirho,
        index_chirho <= names_chirho@.len(),
    ensures
        r == search_result(search_outcome(boot_chirho@, implementation_chirho@, strings_view(names_chirho@), old(assignment_chirho)@, *old(budget_chirho) as nat)),
        r is Ok ==> *final(budget_chirho) as nat
            == search_outcome(boot_chirho@, implementation_chirho@, strings_view(names_chirho@), old(assignment_chirho)@, *old(budget_chirho) as nat)->Ok_0.1,
        r matches Ok(b) ==> b == implied_over(boot_chirho@, implementation_chirho@, strings_view(names_chirho@), old(assignment_chirho)@),
        r matches Ok(true) ==> final(assignment_chirho)@ == old(assignment_chirho)@,
        old(assignment_chirho)@.is_prefix_of(final(assignment_chirho)@),
        *final(budget_chirho) <= *old(budget_chirho),
        r matches Err(e) ==> e == MinimalErrorChirho::BudgetExhaustedChirho || e == MinimalErrorChirho::InvalidFormulaChirho
            || e == MinimalErrorChirho::UnresolvedDecisionChirho || e == MinimalErrorChirho::DecisionDepthChirho,
        fvalid(boot_chirho@) && fvalid(implementation_chirho@)
            && fnames(boot_chirho@).union(fnames(implementation_chirho@)).subset_of(strings_view(names_chirho@).to_set())
            ==> (r matches Err(e) ==> e == MinimalErrorChirho::BudgetExhaustedChirho
                || (e == MinimalErrorChirho::DecisionDepthChirho && names_chirho@.len() > DECISION_LIMIT_CHIRHO)),
    decreases names_chirho@.len() - index_chirho,
{
    let ghost ns = strings_view(names_chirho@);
    let ghost vals = assignment_chirho@;
    let ghost a = assignment_of(ns, vals);
    let ghost covered = fvalid(boot_chirho@) && fvalid(implementation_chirho@)
        && fnames(boot_chirho@).union(fnames(implementation_chirho@)).subset_of(ns.to_set());
    proof {
        assert(vals.is_prefix_of(vals)) by {
            assert(vals =~= vals.subrange(0, vals.len() as int));
        }
    }
    let ghost b0 = *budget_chirho as nat;
    let promised_chirho = match evaluate_chirho(boot_chirho, names_chirho, assignment_chirho, budget_chirho) {
        Ok(v) => v,
        Err(e) => {
            proof { lemma_eval_b_errors(boot_chirho@, a, b0); }
            return Err(e);
        },
    };
    proof { lemma_eval_b_kleene(boot_chirho@, a, b0); }
    let ghost b1 = *budget_chirho as nat;
    let required_chirho = match evaluate_chirho(implementation_chirho, names_chirho, assignment_chirho, budget_chirho) {
        Ok(v) => v,
        Err(e) => {
            proof { lemma_eval_b_errors(implementation_chirho@, a, b1); }
            return Err(e);
        },
    };
    proof { lemma_eval_b_kleene(implementation_chirho@, a, b1); }
    if promised_chirho == Some(false) || required_chirho == Some(true) {
        proof {
            assert forall|w: Seq<bool>| w.len() == ns.len() && vals.is_prefix_of(w) implies
                (kleene(boot_chirho@, #[trigger] assignment_of(ns, w)) == Some(true) ==> kleene(implementation_chirho@, assignment_of(ns, w)) == Some(true)) by {
                lemma_assignment_extends(ns, vals, w);
                if promised_chirho == Some(false) {
                    lemma_kleene_monotone(boot_chirho@, a, assignment_of(ns, w));
                } else {
                    lemma_kleene_monotone(implementation_chirho@, a, assignment_of(ns, w));
                }
            }
        }
        return Ok(true);
    }
    if promised_chirho == Some(true) && required_chirho == Some(false) {
        proof {
            let w = vals + Seq::new((ns.len() - vals.len()) as nat, |k: int| false);
            assert(vals.is_prefix_of(w)) by {
                assert(vals =~= w.subrange(0, vals.len() as int));
            }
            lemma_assignment_extends(ns, vals, w);
            lemma_kleene_monotone(boot_chirho@, a, assignment_of(ns, w));
            lemma_kleene_monotone(implementation_chirho@, a, assignment_of(ns, w));
            assert(w.len() == ns.len());
        }
        return Ok(false);
    }
    proof {
        if covered && index_chirho == names_chirho@.len() {
            lemma_total_decides(boot_chirho@, implementation_chirho@, ns, vals);
        }
    }
    if index_chirho >= DECISION_LIMIT_CHIRHO {
        return Err(MinimalErrorChirho::DecisionDepthChirho);
    }
    if index_chirho >= names_chirho.len() {
        return Err(MinimalErrorChirho::UnresolvedDecisionChirho);
    }
    proof { lemma_implied_over_split(boot_chirho@, implementation_chirho@, ns, vals); }
    assignment_chirho.push(false);
    let ghost with_false = assignment_chirho@;
    proof { assert(with_false == vals.push(false)); }
    match search_chirho(boot_chirho, implementation_chirho, names_chirho, assignment_chirho, index_chirho + 1, budget_chirho) {
        Err(e) => {
            proof {
                assert(vals =~= assignment_chirho@.subrange(0, vals.len() as int)) by {
                    assert forall|k: int| 0 <= k < vals.len() implies vals[k] == assignment_chirho@.subrange(0, vals.len() as int)[k] by {
                        assert(with_false[k] == assignment_chirho@.subrange(0, vals.len() as int + 1)[k]);
                    }
                }
            }
            return Err(e);
        },
        Ok(false) => {
            proof {
                assert(vals =~= assignment_chirho@.subrange(0, vals.len() as int)) by {
                    assert forall|k: int| 0 <= k < vals.len() implies vals[k] == assignment_chirho@.subrange(0, vals.len() as int)[k] by {
                        assert(with_false[k] == assignment_chirho@.subrange(0, vals.len() as int + 1)[k]);
                    }
                }
            }
            return Ok(false);
        },
        Ok(true) => {},
    }
    assignment_chirho.set(index_chirho, true);
    let ghost with_true = assignment_chirho@;
    proof { assert(with_true =~= vals.push(true)); }
    match search_chirho(boot_chirho, implementation_chirho, names_chirho, assignment_chirho, index_chirho + 1, budget_chirho) {
        Err(e) => {
            proof {
                assert(vals =~= assignment_chirho@.subrange(0, vals.len() as int)) by {
                    assert forall|k: int| 0 <= k < vals.len() implies vals[k] == assignment_chirho@.subrange(0, vals.len() as int)[k] by {
                        assert(with_true[k] == assignment_chirho@.subrange(0, vals.len() as int + 1)[k]);
                    }
                }
            }
            return Err(e);
        },
        Ok(false) => {
            proof {
                assert(vals =~= assignment_chirho@.subrange(0, vals.len() as int)) by {
                    assert forall|k: int| 0 <= k < vals.len() implies vals[k] == assignment_chirho@.subrange(0, vals.len() as int)[k] by {
                        assert(with_true[k] == assignment_chirho@.subrange(0, vals.len() as int + 1)[k]);
                    }
                }
            }
            return Ok(false);
        },
        Ok(true) => {},
    }
    assignment_chirho.pop();
    proof { assert(assignment_chirho@ =~= vals); }
    Ok(true)
}

/// The checks that must pass before two formulas are compared: both valid,
/// within the nesting limit, and together within the node budget.
pub open spec fn structurally_ok(boot: FormulaV, imp: FormulaV) -> bool {
    fvalid(boot) && fdepth_ok(boot, 0) && fvalid(imp) && fdepth_ok(imp, 0) && fsize(boot) + fsize(imp) <= LIMIT_CHIRHO
}

/// Whether every assignment of the two formulas' method names that
/// satisfies `boot` satisfies `imp`.
pub open spec fn semantically_implies(boot: FormulaV, imp: FormulaV) -> bool {
    forall|a: Map<Seq<char>, bool>| a.dom() == fnames(boot).union(fnames(imp)) ==>
        (#[trigger] kleene(boot, a) == Some(true) ==> kleene(imp, a) == Some(true))
}

/// Searching the total assignments of a list of the names, each once, is
/// deciding the semantic implication.
pub proof fn lemma_implied_over_semantic(boot: FormulaV, imp: FormulaV, names: Seq<Seq<char>>)
    requires
        names.to_set() == fnames(boot).union(fnames(imp)),
    ensures
        implied_over(boot, imp, names, Seq::empty()) == semantically_implies(boot, imp),
{
    let e = Seq::<bool>::empty();
    assert forall|w: Seq<bool>| #![trigger assignment_of(names, w)] w.len() == names.len() implies assignment_of(names, w).dom() == names.to_set() by {
        assert forall|n: Seq<char>| assignment_of(names, w).dom().contains(n) <==> names.to_set().contains(n) by {
            lemma_first_pos(names, n);
        }
        assert(assignment_of(names, w).dom() =~= names.to_set());
    }
    if implied_over(boot, imp, names, e) {
        assert forall|a: Map<Seq<char>, bool>| a.dom() == fnames(boot).union(fnames(imp)) implies
            (#[trigger] kleene(boot, a) == Some(true) ==> kleene(imp, a) == Some(true)) by {
            let w = Seq::new(names.len(), |k: int| a[names[k]]);
            assert(e.is_prefix_of(w)) by {
                assert(e =~= w.subrange(0, 0));
            }
            assert forall|n: Seq<char>| assignment_of(names, w).dom().contains(n) implies assignment_of(names, w)[n] == a[n] by {
                lemma_first_pos(names, n);
            }
            assert(assignment_of(names, w) =~= a);
        }
    }
    if semantically_implies(boot, imp) {
        assert forall|w: Seq<bool>| w.len() == names.len() && e.is_prefix_of(w) implies
            (kleene(boot, #[trigger] assignment_of(names, w)) == Some(true) ==> kleene(imp, assignment_of(names, w)) == Some(true)) by {
            let a = assignment_of(names, w);
            assert(a.dom() == fnames(boot).union(fnames(imp)));
        }
    }
}

/// The method names of two formulas, sorted.
pub open spec fn method_names(boot: FormulaV, imp: FormulaV) -> Seq<Seq<char>> {
    choose|ns: Seq<Seq<char>>| sorted_names(ns) && ns.to_set() == fnames(boot).union(fnames(imp))
}

/// A set of names has one sorted listing.
pub proof fn lemma_sorted_unique(s1: Seq<Seq<char>>, s2: Seq<Seq<char>>)
    requires
        sorted_names(s1),
        sorted_names(s2),
        s1.to_set() == s2.to_set(),
    ensures
        s1 == s2,
    decreases s1.len(),
{
    if s1.len() == 0 {
        if s2.len() > 0 {
            assert(s2.to_set().contains(s2[0]));
        }
        assert(s1 =~= s2);
    } else {
        assert(s1.to_set().contains(s1[0]));
        assert(s2.len() > 0);
        assert(s2.to_set().contains(s2[0]));
        let j = choose|j: int| 0 <= j < s2.len() && s2[j] == s1[0];
        let k = choose|k: int| 0 <= k < s1.len() && s1[k] == s2[0];
        if j > 0 && k > 0 {
            assert(text_lt(s2[0], s2[j]));
            assert(text_lt(s1[0], s1[k]));
            lemma_text_lt_transitive(s1[0], s2[0], s1[0]);
            lemma_text_lt_irreflexive(s1[0]);
        }
        assert(s1[0] == s2[0]) by {
            if j > 0 {
                assert(k == 0);
            }
        }
        let t1 = s1.drop_first();
        let t2 = s2.drop_first();
        assert forall|x: Seq<char>| t1.to_set().contains(x) <==> t2.to_set().contains(x) by {
            if t1.to_set().contains(x) {
                let a = choose|a: int| 0 <= a < t1.len() && t1[a] == x;
                assert(s1[a + 1] == x);
                assert(text_lt(s1[0], x));
                assert(s2.to_set().contains(x));
                let b = choose|b: int| 0 <= b < s2.len() && s2[b] == x;
                if b == 0 {
                    lemma_text_lt_irreflexive(x);
                }
                assert(t2[b - 1] == x);
            }
            if t2.to_set().contains(x) {
                let a = choose|a: int| 0 <= a < t2.len() && t2[a] == x;
                assert(s2[a + 1] == x);
                assert(text_lt(s2[0], x));
                assert(s1.to_set().contains(x));
                let b = choose|b: int| 0 <= b < s1.len() && s1[b] == x;
                if b == 0 {
                    lemma_text_lt_irreflexive(x);
                }
                assert(t1[b - 1] == x);
            }
        }
        assert(t1.to_set() =~= t2.to_set());
        lemma_sorted_unique(t1, t2);
        assert(s1 =~= s2) by {
            assert forall|i: int| 0 <= i < s1.len() implies s1[i] == s2[i] by {
                if i > 0 {
                    assert(t1[i - 1] == t2[i - 1]);
                }
            }
        }
    }
}

/// Whether the `boot_chirho` formula implies `implementation_chirho`:
/// whether every way of defining the methods that meets the first meets the
/// second. Both formulas are first walked (one node budget for the whole
/// comparison); equal formulas imply each other without a search.
pub fn implies_chirho(boot_chirho: &MinimalFormulaChirho, implementation_chirho: &MinimalFormulaChirho) -> (r: Result<bool, MinimalErrorChirho>)
    ensures
        !structurally_ok(boot_chirho@, implementation_chirho@) ==> r is Err,
        r matches Ok(b) ==> b == semantically_implies(boot_chirho@, implementation_chirho@),
        structurally_ok(boot_chirho@, implementation_chirho@) && boot_chirho@ == implementation_chirho@ ==> r == Ok::<bool, MinimalErrorChirho>(true),
        walk_v(boot_chirho@, 0, LIMIT_CHIRHO as nat) matches Err(e) ==> r == Err::<bool, MinimalErrorChirho>(e),
        walk_v(boot_chirho@, 0, LIMIT_CHIRHO as nat) is Ok
            && walk_v(implementation_chirho@, 0, walk_v(boot_chirho@, 0, LIMIT_CHIRHO as nat)->Ok_0) is Err
            ==> r == Err::<bool, MinimalErrorChirho>(walk_v(implementation_chirho@, 0, walk_v(boot_chirho@, 0, LIMIT_CHIRHO as nat)->Ok_0)->Err_0),
        structurally_ok(boot_chirho@, implementation_chirho@) && boot_chirho@ != implementation_chirho@ ==> r == search_result(search_outcome(
            boot_chirho@, implementation_chirho@, method_names(boot_chirho@, implementation_chirho@), Seq::empty(),
            (LIMIT_CHIRHO - fsize(boot_chirho@) - fsize(implementation_chirho@)) as nat)),
        r matches Err(e) ==> !structurally_ok(boot_chirho@, implementation_chirho@) || e == MinimalErrorChirho::BudgetExhaustedChirho
            || (e == MinimalErrorChirho::DecisionDepthChirho && fnames(boot_chirho@).union(fnames(implementation_chirho@)).len() > DECISION_LIMIT_CHIRHO),
{
    let mut budget_chirho: usize = LIMIT_CHIRHO;
    let mut names: Vec<String> = Vec::new();
    proof {
        assert(strings_view(names@) =~= Seq::<Seq<char>>::empty());
    }
    match collect_names_chirho(boot_chirho, 0, &mut budget_chirho, &mut names) {
        Ok(()) => {},
        Err(e) => {
            return Err(e);
        },
    }
    match collect_names_chirho(implementation_chirho, 0, &mut budget_chirho, &mut names) {
        Ok(()) => {},
        Err(e) => {
            return Err(e);
        },
    }
    let ghost ns = strings_view(names@);
    proof {
        assert(ns.to_set() =~= fnames(boot_chirho@).union(fnames(implementation_chirho@)));
        lemma_implied_over_semantic(boot_chirho@, implementation_chirho@, ns);
        assert forall|i: int, j: int| 0 <= i < ns.len() && 0 <= j < ns.len() && i != j implies ns[i] != ns[j] by {
            if i < j {
                lemma_text_lt_irreflexive(ns[i]);
            } else {
                lemma_text_lt_irreflexive(ns[j]);
            }
        }
        ns.unique_seq_to_set();
    }
    if boot_chirho.eq_chirho(implementation_chirho) {
        return Ok(true);
    }
    proof {
        let chosen = method_names(boot_chirho@, implementation_chirho@);
        assert(sorted_names(ns) && ns.to_set() == fnames(boot_chirho@).union(fnames(implementation_chirho@)));
        lemma_sorted_unique(ns, chosen);
    }
    let mut assignment_chirho: Vec<bool> = Vec::new();
    proof {
        assert(assignment_chirho@ =~= Seq::<bool>::empty());
    }
    search_chirho(boot_chirho, implementation_chirho, &names, &mut assignment_chirho, 0, &mut budget_chirho)
}

}
