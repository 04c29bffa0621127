//! Surface (written) types, and their conversion into stored synonym and
//! family-equation right-hand sides. The surface types hold what the
//! conversion reads: names (as written and fully qualified), binders,
//! subtypes, whether an arrow is explicitly linear, and literal text.
use vstd::prelude::*;
use crate::binding_groups_chirho::strs;
use crate::type_level_chirho::{subst_named, subst_named_var_chirho};
use crate::ty_chirho::{str_eq_chirho, tys_view, vars_view, MultChirho, TyChirho, TyV, TyVarChirho};

verus! {

/// A written name: its text, and its full (qualified) spelling.
#[derive(Debug)]
pub struct NameChirho {
    pub text_chirho: String,
    pub full_name_chirho: String,
}

/// A written type.
#[derive(Debug)]
pub enum TypeChirho {
    VarChirho(NameChirho),
    ConChirho(NameChirho),
    ListChirho { element_chirho: Box<TypeChirho> },
    FunChirho { arg_chirho: Box<TypeChirho>, explicit_one_chirho: bool, result_chirho: Box<TypeChirho> },
    TupleChirho { elements_chirho: Vec<TypeChirho> },
    AppChirho { fun_chirho: Box<TypeChirho>, arg_chirho: Box<TypeChirho> },
    KindAppChirho { fun_chirho: Box<TypeChirho>, arg_chirho: Box<TypeChirho> },
    ParenChirho { inner_chirho: Box<TypeChirho> },
    QualChirho { context_chirho: Vec<ConstraintChirho>, body_chirho: Box<TypeChirho> },
    ForallChirho { vars_chirho: Vec<String>, body_chirho: Box<TypeChirho> },
    RequiredForallChirho { vars_chirho: Vec<String>, body_chirho: Box<TypeChirho> },
    PromotedConChirho { name_chirho: NameChirho },
    PromotedListChirho { elements_chirho: Vec<TypeChirho> },
    WildcardChirho,
    LitChirho { value_chirho: String },
}

/// A class constraint of a context: the class and its arguments.
#[derive(Debug)]
pub struct ConstraintChirho {
    pub class_chirho: NameChirho,
    pub args_chirho: Vec<TypeChirho>,
}

/// Whether a written type starts with an explicit `forall`, under contexts
/// and parentheses.
pub open spec fn explicit_forall(t: TypeChirho) -> bool
    decreases t,
{
    match t {
        TypeChirho::ForallChirho { .. } => true,
        TypeChirho::QualChirho { body_chirho, .. } => explicit_forall(*body_chirho),
        TypeChirho::ParenChirho { inner_chirho } => explicit_forall(*inner_chirho),
        _ => false,
    }
}

/// The text of a decimal digit.
pub open spec fn digit_text(d: nat) -> Seq<char> {
    if d == 0 { "0"@ } else if d == 1 { "1"@ } else if d == 2 { "2"@ } else if d == 3 { "3"@ } else if d == 4 { "4"@ }
    else if d == 5 { "5"@ } else if d == 6 { "6"@ } else if d == 7 { "7"@ } else if d == 8 { "8"@ } else { "9"@ }
}

/// The decimal spelling of `n`.
pub open spec fn decimal(n: nat) -> Seq<char>
    decreases n,
{
    if n < 10 {
        digit_text(n)
    } else {
        decimal(n / 10) + digit_text(n % 10)
    }
}

/// The name given to the `w`-th anonymous pattern of a converted type; no
/// written type variable can be spelled so.
pub open spec fn wildcard_name(w: nat) -> Seq<char> {
    "$wildcard_"@ + decimal(w) + "_chirho"@
}

/// The bound variables of a converted `forall`: `base`, `base + 1`, ...
pub open spec fn bound_vars(base: nat, k: nat) -> Seq<u32> {
    Seq::new(k, |i: int| (base + i) as u32)
}

/// Replaces the written binder `names[i]` by the variable `base + i`, the
/// binders taken in order.
pub open spec fn rename_binders(t: TyV, names: Seq<Seq<char>>, base: nat) -> TyV
    decreases names.len(),
{
    if names.len() == 0 {
        t
    } else {
        subst_named(rename_binders(t, names.drop_last(), base), names.last(), TyV::Var((base + names.len() - 1) as u32))
    }
}

/// The conversion of a written type, with `ps` the names that stand for
/// parameters and `w` the number of anonymous patterns met so far: the
/// stored type, and the count after it. Parameters become named variables,
/// other variables constructors; a `forall` keeps its binders as numbered
/// variables; contexts and parentheses vanish; each anonymous pattern gets a
/// fresh name.
pub open spec fn conv(t: TypeChirho, ps: Seq<Seq<char>>, w: nat) -> (TyV, nat)
    decreases t, 0nat,
{
    match t {
        TypeChirho::VarChirho(n) => (if ps.contains(n.text_chirho@) { TyV::ForallVar(n.text_chirho@) } else { TyV::Con(n.text_chirho@) }, w),
        TypeChirho::ConChirho(n) => (TyV::Con(n.full_name_chirho@), w),
        TypeChirho::ListChirho { element_chirho } => {
            let (v, w1) = conv(*element_chirho, ps, w);
            (TyV::List(Box::new(v)), w1)
        },
        TypeChirho::FunChirho { arg_chirho, explicit_one_chirho, result_chirho } => {
            let (a, w1) = conv(*arg_chirho, ps, w);
            let (r, w2) = conv(*result_chirho, ps, w1);
            (TyV::Fun(Box::new(a), Box::new(r), if explicit_one_chirho { MultChirho::OneChirho } else { MultChirho::ManyChirho }), w2)
        },
        TypeChirho::TupleChirho { elements_chirho } => {
            let (vs, w1) = convs(elements_chirho@, ps, w);
            (TyV::Tuple(vs), w1)
        },
        TypeChirho::AppChirho { fun_chirho, arg_chirho } => {
            let (f, w1) = conv(*fun_chirho, ps, w);
            let (a, w2) = conv(*arg_chirho, ps, w1);
            (TyV::App(Box::new(f), Box::new(a)), w2)
        },
        TypeChirho::KindAppChirho { fun_chirho, arg_chirho } => {
            let (f, w1) = conv(*fun_chirho, ps, w);
            let (a, w2) = conv(*arg_chirho, ps, w1);
            (TyV::KindApp(Box::new(f), Box::new(a)), w2)
        },
        TypeChirho::ParenChirho { inner_chirho } => conv(*inner_chirho, ps, w),
        TypeChirho::QualChirho { body_chirho, .. } => conv(*body_chirho, ps, w),
        TypeChirho::ForallChirho { vars_chirho, body_chirho } => {
            let names = strs(vars_chirho@);
            let (b, w1) = conv(*body_chirho, ps + names, w);
            (TyV::Forall(bound_vars(8000, names.len()), Box::new(rename_binders(b, names, 8000))), w1)
        },
        TypeChirho::RequiredForallChirho { vars_chirho, body_chirho } => {
            let names = strs(vars_chirho@);
            let (b, w1) = conv(*body_chirho, ps + names, w);
            (TyV::RequiredForall(bound_vars(8500, names.len()), Box::new(rename_binders(b, names, 8500))), w1)
        },
        TypeChirho::PromotedConChirho { name_chirho } => (TyV::Con("'"@ + name_chirho.full_name_chirho@), w),
        TypeChirho::PromotedListChirho { elements_chirho } => promoted_list(elements_chirho@, TyV::Con("'[]"@), ps, w),
        TypeChirho::WildcardChirho => (TyV::ForallVar(wildcard_name(w)), w + 1),
        TypeChirho::LitChirho { value_chirho } => (TyV::Con(value_chirho@), w),
    }
}

/// The conversions of a list of written types, left to right.
pub open spec fn convs(es: Seq<TypeChirho>, ps: Seq<Seq<char>>, w: nat) -> (Seq<TyV>, nat)
    decreases es, 0nat,
{
    if es.len() == 0 {
        (Seq::empty(), w)
    } else {
        let (vs, w1) = convs(es.drop_last(), ps, w);
        let (v, w2) = conv(es.last(), ps, w1);
        (vs.push(v), w2)
    }
}

/// A promoted list `'[e1, ..., en]` as `e1 ': (... ': (en ': acc))`, the
/// elements converted from the last.
pub open spec fn promoted_list(es: Seq<TypeChirho>, acc: TyV, ps: Seq<Seq<char>>, w: nat) -> (TyV, nat)
    decreases es, 0nat,
{
    if es.len() == 0 {
        (acc, w)
    } else {
        let (v, w1) = conv(es.last(), ps, w);
        promoted_list(es.drop_last(), TyV::App(Box::new(TyV::App(Box::new(TyV::Con("':"@)), Box::new(v))), Box::new(acc)), ps, w1)
    }
}

/// Every `forall` of a written type binds few enough variables to number
/// them.
pub open spec fn binders_fit(t: TypeChirho) -> bool
    decreases t, 0nat,
{
    match t {
        TypeChirho::ListChirho { element_chirho } => binders_fit(*element_chirho),
        TypeChirho::FunChirho { arg_chirho, result_chirho, .. } => binders_fit(*arg_chirho) && binders_fit(*result_chirho),
        TypeChirho::TupleChirho { elements_chirho } => all_binders_fit(elements_chirho@),
        TypeChirho::AppChirho { fun_chirho, arg_chirho } => binders_fit(*fun_chirho) && binders_fit(*arg_chirho),
        TypeChirho::KindAppChirho { fun_chirho, arg_chirho } => binders_fit(*fun_chirho) && binders_fit(*arg_chirho),
        TypeChirho::ParenChirho { inner_chirho } => binders_fit(*inner_chirho),
        TypeChirho::QualChirho { body_chirho, .. } => binders_fit(*body_chirho),
        TypeChirho::ForallChirho { vars_chirho, body_chirho } => vars_chirho@.len() + 8500 <= u32::MAX && binders_fit(*body_chirho),
        TypeChirho::RequiredForallChirho { vars_chirho, body_chirho } => vars_chirho@.len() + 8500 <= u32::MAX && binders_fit(*body_chirho),
        TypeChirho::PromotedListChirho { elements_chirho } => all_binders_fit(elements_chirho@),
        _ => true,
    }
}

/// `binders_fit` of each written type.
pub open spec fn all_binders_fit(es: Seq<TypeChirho>) -> bool
    decreases es, 0nat,
{
    if es.len() == 0 {
        true
    } else {
        all_binders_fit(es.drop_last()) && binders_fit(es.last())
    }
}

pub proof fn lemma_conv_mono(t: TypeChirho, ps: Seq<Seq<char>>, w: nat)
    ensures
        conv(t, ps, w).1 >= w,
    decreases t, 0nat,
{
    match t {
        TypeChirho::ListChirho { element_chirho } => lemma_conv_mono(*element_chirho, ps, w),
        TypeChirho::FunChirho { arg_chirho, explicit_one_chirho, result_chirho } => {
            lemma_conv_mono(*arg_chirho, ps, w);
            lemma_conv_mono(*result_chirho, ps, conv(*arg_chirho, ps, w).1);
        },
        TypeChirho::TupleChirho { elements_chirho } => lemma_convs_mono(elements_chirho@, ps, w),
        TypeChirho::AppChirho { fun_chirho, arg_chirho } => {
            lemma_conv_mono(*fun_chirho, ps, w);
            lemma_conv_mono(*arg_chirho, ps, conv(*fun_chirho, ps, w).1);
        },
        TypeChirho::KindAppChirho { fun_chirho, arg_chirho } => {
            lemma_conv_mono(*fun_chirho, ps, w);
            lemma_conv_mono(*arg_chirho, ps, conv(*fun_chirho, ps, w).1);
        },
        TypeChirho::ParenChirho { inner_chirho } => lemma_conv_mono(*inner_chirho, ps, w),
        TypeChirho::QualChirho { body_chirho, .. } => lemma_conv_mono(*body_chirho, ps, w),
        TypeChirho::ForallChirho { vars_chirho, body_chirho } => lemma_conv_mono(*body_chirho, ps + strs(vars_chirho@), w),
        TypeChirho::RequiredForallChirho { vars_chirho, body_chirho } => lemma_conv_mono(*body_chirho, ps + strs(vars_chirho@), w),
        TypeChirho::PromotedListChirho { elements_chirho } => lemma_promoted_list_mono(elements_chirho@, TyV::Con("'[]"@), ps, w),
        _ => {},
    }
}

pub proof fn lemma_convs_mono(es: Seq<TypeChirho>, ps: Seq<Seq<char>>, w: nat)
    ensures
        convs(es, ps, w).1 >= w,
        convs(es, ps, w).0.len() == es.len(),
    decreases es, 0nat,
{
    if es.len() > 0 {
        lemma_convs_mono(es.drop_last(), ps, w);
        lemma_conv_mono(es.last(), ps, convs(es.drop_last(), ps, w).1);
    }
}

pub proof fn lemma_promoted_list_mono(es: Seq<TypeChirho>, acc: TyV, ps: Seq<Seq<char>>, w: nat)
    ensures
        promoted_list(es, acc, ps, w).1 >= w,
        es.len() > 0 ==> promoted_list(es, acc, ps, w).1 >= conv(es.last(), ps, w).1,
    decreases es, 0nat,
{
    if es.len() > 0 {
        let (v, w1) = conv(es.last(), ps, w);
        lemma_conv_mono(es.last(), ps, w);
        lemma_promoted_list_mono(es.drop_last(), TyV::App(Box::new(TyV::App(Box::new(TyV::Con("':"@)), Box::new(v))), Box::new(acc)), ps, w1);
    }
}

/// A prefix of a list converts to no larger a count.
pub proof fn lemma_convs_prefix(es: Seq<TypeChirho>, ps: Seq<Seq<char>>, w: nat, i: int)
    requires
        0 <= i <= es.len(),
    ensures
        convs(es.take(i), ps, w).1 <= convs(es, ps, w).1,
    decreases es.len(),
{
    if i == es.len() {
        assert(es.take(i) =~= es);
    } else {
        lemma_convs_prefix(es.drop_last(), ps, w, i);
        assert(es.drop_last().take(i) =~= es.take(i));
        lemma_conv_mono(es.last(), ps, convs(es.drop_last(), ps, w).1);
    }
}

pub proof fn lemma_all_binders_fit(es: Seq<TypeChirho>, i: int)
    requires
        all_binders_fit(es),
        0 <= i < es.len(),
    ensures
        binders_fit(es[i]),
    decreases es.len(),
{
    if i < es.len() - 1 {
        lemma_all_binders_fit(es.drop_last(), i);
    }
}

/// The text of the digit `d`.
fn digit_chirho(d: usize) -> (r: &'static str)
    requires
        d < 10,
    ensures
        r@ == digit_text(d as nat),
{
    if d == 0 { "0" } else if d == 1 { "1" } else if d == 2 { "2" } else if d == 3 { "3" } else if d == 4 { "4" }
    else if d == 5 { "5" } else if d == 6 { "6" } else if d == 7 { "7" } else if d == 8 { "8" } else { "9" }
}

/// The decimal spelling of `n`.
pub fn decimal_chirho(n: usize) -> (r: String)
    ensures
        r@ == decimal(n as nat),
    decreases n,
{
    if n < 10 {
        digit_chirho(n).to_owned()
    } else {
        let mut s = decimal_chirho(n / 10);
        s.append(digit_chirho(n % 10));
        s
    }
}

/// Whether `x` is one of `ps`.
fn names_contain_chirho(ps: &Vec<String>, x: &str) -> (r: bool)
    ensures
        r == strs(ps@).contains(x@),
{
    let mut i: usize = 0;
    while i < ps.len()
        invariant
            i <= ps.len(),
            forall|j: int| 0 <= j < i ==> strs(ps@)[j] != x@,
        decreases ps.len() - i,
    {
        if str_eq_chirho(ps[i].as_str(), x) {
            proof { assert(strs(ps@)[i as int] == x@); }
            return true;
        }
        i = i + 1;
    }
    false
}

/// `ps` followed by `more`.
fn extend_names_chirho(ps: &Vec<String>, more: &Vec<String>) -> (r: Vec<String>)
    ensures
        strs(r@) == strs(ps@) + strs(more@),
{
    let mut out: Vec<String> = Vec::new();
    let mut i: usize = 0;
    while i < ps.len()
        invariant
            i <= ps.len(),
            strs(out@) == strs(ps@).take(i as int),
        decreases ps.len() - i,
    {
        let ghost before = out@;
        out.push(ps[i].clone());
        proof {
            assert(strs(out@) =~= strs(before).push(ps@[i as int]@));
            assert(strs(ps@).take(i + 1) =~= strs(ps@).take(i as int).push(ps@[i as int]@));
        }
        i = i + 1;
    }
    let mut k: usize = 0;
    while k < more.len()
        invariant
            k <= more.len(),
            i == ps.len(),
            strs(out@) == strs(ps@).take(i as int) + strs(more@).take(k as int),
        decreases more.len() - k,
    {
        let ghost before = out@;
        out.push(more[k].clone());
        proof {
            assert(strs(out@) =~= strs(before).push(more@[k as int]@));
            assert(strs(more@).take(k + 1) =~= strs(more@).take(k as int).push(more@[k as int]@));
            assert(strs(out@) =~= strs(ps@).take(i as int) + strs(more@).take(k + 1));
        }
        k = k + 1;
    }
    proof {
        assert(strs(ps@).take(i as int) =~= strs(ps@));
        assert(strs(more@).take(k as int) =~= strs(more@));
    }
    out
}

/// The variables `base, base + 1, ..., base + k - 1`.
fn bound_vars_chirho(base: u32, k: usize) -> (r: Vec<TyVarChirho>)
    requires
        base + k <= u32::MAX,
    ensures
        vars_view(r@) == bound_vars(base as nat, k as nat),
{
    let mut out: Vec<TyVarChirho> = Vec::new();
    let mut i: usize = 0;
    while i < k
        invariant
            i <= k,
            base + k <= u32::MAX,
            vars_view(out@) == bound_vars(base as nat, i as nat),
        decreases k - i,
    {
        let ghost before = out@;
        out.push(TyVarChirho(base + i as u32));
        proof {
            assert(vars_view(out@) =~= vars_view(before).push((base + i) as u32));
            assert(vars_view(out@) =~= bound_vars(base as nat, (i + 1) as nat));
        }
        i = i + 1;
    }
    out
}

/// Replaces each binder `names[i]` of `t` by the variable `base + i`.
fn rename_binders_chirho(t: TyChirho, names: &Vec<String>, base: u32) -> (r: TyChirho)
    requires
        base + names.len() <= u32::MAX,
    ensures
        r@ == rename_binders(t@, strs(names@), base as nat),
{
    let ghost t0 = t@;
    let mut cur = t;
    let mut i: usize = 0;
    proof { assert(strs(names@).take(0).len() == 0); }
    while i < names.len()
        invariant
            i <= names.len(),
            base + names.len() <= u32::MAX,
            cur@ == rename_binders(t0, strs(names@).take(i as int), base as nat),
        decreases names.len() - i,
    {
        let v = TyChirho::VarChirho(TyVarChirho(base + i as u32));
        cur = subst_named_var_chirho(&cur, names[i].as_str(), &v);
        proof {
            let s = strs(names@).take(i + 1);
            assert(s.drop_last() =~= strs(names@).take(i as int));
            assert(s.last() == names@[i as int]@);
        }
        i = i + 1;
    }
    proof { assert(strs(names@).take(i as int) =~= strs(names@)); }
    cur
}

/// A promoted constructor, in its own namespace: its full name behind a
/// quote.
pub fn promoted_constructor_type_chirho(name_chirho: &NameChirho) -> (r: TyChirho)
    ensures
        r@ == TyV::Con("'"@ + name_chirho.full_name_chirho@),
{
    let mut text_chirho = "'".to_owned();
    text_chirho.append(name_chirho.full_name_chirho.as_str());
    TyChirho::ConChirho(text_chirho)
}

/// Converts written types into stored synonym and family-equation
/// right-hand sides; one converter owns a whole equation, so that its
/// anonymous patterns get distinct names.
pub struct SynonymTypeConverterChirho {
    pub next_wildcard_chirho: usize,
}

impl Default for SynonymTypeConverterChirho {
    fn default() -> (r: Self)
        ensures
            r.next_wildcard_chirho == 0,
    {
        SynonymTypeConverterChirho { next_wildcard_chirho: 0 }
    }
}

/// The name of the anonymous pattern numbered `w`.
fn wildcard_name_chirho(w: usize) -> (r: String)
    ensures
        r@ == wildcard_name(w as nat),
{
    let mut s = "$wildcard_".to_owned();
    let digits = decimal_chirho(w);
    s.append(digits.as_str());
    s.append("_chirho");
    s
}

impl SynonymTypeConverterChirho {
    /// Converts a written type, with `params_chirho` the names that stand
    /// for parameters, as `conv` says.
    pub fn convert_chirho(&mut self, ty_chirho: &TypeChirho, params_chirho: &Vec<String>) -> (r: TyChirho)
        requires
            binders_fit(*ty_chirho),
            conv(*ty_chirho, strs(params_chirho@), old(self).next_wildcard_chirho as nat).1 <= usize::MAX,
        ensures
            (r@, final(self).next_wildcard_chirho as nat) == conv(*ty_chirho, strs(params_chirho@), old(self).next_wildcard_chirho as nat),
        decreases ty_chirho, 1nat,
    {
        let ghost ps = strs(params_chirho@);
        let ghost w0 = self.next_wildcard_chirho as nat;
        match ty_chirho {
            TypeChirho::VarChirho(name_chirho) => {
                if names_contain_chirho(params_chirho, name_chirho.text_chirho.as_str()) {
                    TyChirho::ForallVarChirho(name_chirho.text_chirho.clone())
                } else {
                    TyChirho::ConChirho(name_chirho.text_chirho.clone())
                }
            },
            TypeChirho::ConChirho(name_chirho) => TyChirho::ConChirho(name_chirho.full_name_chirho.clone()),
            TypeChirho::ListChirho { element_chirho } => {
                TyChirho::ListChirho(Box::new(self.convert_chirho(element_chirho, params_chirho)))
            },
            TypeChirho::FunChirho { arg_chirho, explicit_one_chirho, result_chirho } => {
                let m_chirho = if *explicit_one_chirho { MultChirho::OneChirho } else { MultChirho::ManyChirho };
                proof {
                    lemma_conv_mono(**result_chirho, ps, conv(**arg_chirho, ps, w0).1);
                }
                let a_chirho = self.convert_chirho(arg_chirho, params_chirho);
                let r_chirho = self.convert_chirho(result_chirho, params_chirho);
                TyChirho::FunChirho(Box::new(a_chirho), Box::new(r_chirho), m_chirho)
            },
            TypeChirho::TupleChirho { elements_chirho } => {
                let es_chirho = self.convert_all_chirho(elements_chirho, params_chirho);
                TyChirho::TupleChirho(es_chirho)
            },
            TypeChirho::AppChirho { fun_chirho, arg_chirho } => {
                proof {
                    lemma_conv_mono(**arg_chirho, ps, conv(**fun_chirho, ps, w0).1);
                }
                let f_chirho = self.convert_chirho(fun_chirho, params_chirho);
                let a_chirho = self.convert_chirho(arg_chirho, params_chirho);
                TyChirho::AppChirho(Box::new(f_chirho), Box::new(a_chirho))
            },
            TypeChirho::KindAppChirho { fun_chirho, arg_chirho } => {
                proof {
                    lemma_conv_mono(**arg_chirho, ps, conv(**fun_chirho, ps, w0).1);
                }
                let f_chirho = self.convert_chirho(fun_chirho, params_chirho);
                let a_chirho = self.convert_chirho(arg_chirho, params_chirho);
                TyChirho::KindAppChirho(Box::new(f_chirho), Box::new(a_chirho))
            },
            TypeChirho::ParenChirho { inner_chirho } => self.convert_chirho(inner_chirho, params_chirho),
            TypeChirho::QualChirho { body_chirho, .. } => self.convert_chirho(body_chirho, params_chirho),
            TypeChirho::ForallChirho { vars_chirho, body_chirho } => {
                let extended_chirho = extend_names_chirho(params_chirho, vars_chirho);
                let body_ty_chirho = self.convert_chirho(body_chirho, &extended_chirho);
                let bound_chirho = bound_vars_chirho(8000, vars_chirho.len());
                let renamed_chirho = rename_binders_chirho(body_ty_chirho, vars_chirho, 8000);
                TyChirho::ForallChirho { vars_chirho: bound_chirho, body_chirho: Box::new(renamed_chirho) }
            },
            TypeChirho::RequiredForallChirho { vars_chirho, body_chirho } => {
                let extended_chirho = extend_names_chirho(params_chirho, vars_chirho);
                let body_ty_chirho = self.convert_chirho(body_chirho, &extended_chirho);
                let bound_chirho = bound_vars_chirho(8500, vars_chirho.len());
                let renamed_chirho = rename_binders_chirho(body_ty_chirho, vars_chirho, 8500);
                TyChirho::RequiredForallChirho { vars_chirho: bound_chirho, body_chirho: Box::new(renamed_chirho) }
            },
            TypeChirho::PromotedConChirho { name_chirho } => promoted_constructor_type_chirho(name_chirho),
            TypeChirho::PromotedListChirho { elements_chirho } => {
                self.convert_promoted_list_chirho(elements_chirho, params_chirho)
            },
            TypeChirho::WildcardChirho => {
                let identity_chirho = self.next_wildcard_chirho;
                self.next_wildcard_chirho = self.next_wildcard_chirho + 1;
                TyChirho::ForallVarChirho(wildcard_name_chirho(identity_chirho))
            },
            TypeChirho::LitChirho { value_chirho } => TyChirho::ConChirho(value_chirho.clone()),
        }
    }

    /// Converts each written type, left to right.
    fn convert_all_chirho(&mut self, es: &Vec<TypeChirho>, params_chirho: &Vec<String>) -> (r: Vec<TyChirho>)
        requires
            all_binders_fit(es@),
            convs(es@, strs(params_chirho@), old(self).next_wildcard_chirho as nat).1 <= usize::MAX,
        ensures
            (tys_view(r@), final(self).next_wildcard_chirho as nat) == convs(es@, strs(params_chirho@), old(self).next_wildcard_chirho as nat),
        decreases es@, 0nat,
    {
        let ghost ps = strs(params_chirho@);
        let ghost w0 = self.next_wildcard_chirho as nat;
        let mut out: Vec<TyChirho> = Vec::new();
        let mut i: usize = 0;
        proof {
            assert(es@.take(0) =~= Seq::<TypeChirho>::empty());
            assert(tys_view(out@) =~= Seq::<TyV>::empty());
        }
        while i < es.len()
            invariant
                i <= es.len(),
                ps == strs(params_chirho@),
                all_binders_fit(es@),
                convs(es@, ps, w0).1 <= usize::MAX,
                (tys_view(out@), self.next_wildcard_chirho as nat) == convs(es@.take(i as int), ps, w0),
            decreases es.len() - i,
        {
            proof {
                assert(decreases_to!(es@ => es@[i as int]));
                let t = es@.take(i + 1);
                assert(t.drop_last() =~= es@.take(i as int));
                assert(t.last() == es@[i as int]);
                lemma_convs_prefix(es@, ps, w0, i + 1);
                lemma_all_binders_fit(es@, i as int);
            }
            let ghost before = out@;
            let v = self.convert_chirho(&es[i], params_chirho);
            out.push(v);
            proof {
                assert(out@.drop_last() =~= before);
            }
            i = i + 1;
        }
        proof {
            assert(es@.take(i as int) =~= es@);
        }
        out
    }

    /// Converts a promoted list, its elements from the last.
    fn convert_promoted_list_chirho(&mut self, es: &Vec<TypeChirho>, params_chirho: &Vec<String>) -> (r: TyChirho)
        requires
            all_binders_fit(es@),
            promoted_list(es@, TyV::Con("'[]"@), strs(params_chirho@), old(self).next_wildcard_chirho as nat).1 <= usize::MAX,
        ensures
            (r@, final(self).next_wildcard_chirho as nat)
                == promoted_list(es@, TyV::Con("'[]"@), strs(params_chirho@), old(self).next_wildcard_chirho as nat),
        decreases es@, 0nat,
    {
        let ghost ps = strs(params_chirho@);
        let ghost goal = promoted_list(es@, TyV::Con("'[]"@), ps, self.next_wildcard_chirho as nat);
        let mut acc = TyChirho::ConChirho("'[]".to_owned());
        let mut i: usize = es.len();
        proof {
            assert(es@.take(i as int) =~= es@);
        }
        while i > 0
            invariant
                i <= es.len(),
                ps == strs(params_chirho@),
                all_binders_fit(es@),
                goal.1 <= usize::MAX,
                goal == promoted_list(es@.take(i as int), acc@, ps, self.next_wildcard_chirho as nat),
            decreases i,
        {
            proof {
                assert(decreases_to!(es@ => es@[i - 1]));
                let t = es@.take(i as int);
                assert(t.drop_last() =~= es@.take(i - 1));
                assert(t.last() == es@[i - 1]);
                lemma_promoted_list_mono(t, acc@, ps, self.next_wildcard_chirho as nat);
                lemma_all_binders_fit(es@, i - 1);
            }
            let ghost w_before = self.next_wildcard_chirho as nat;
            let ghost acc_before = acc@;
            let elem_ty_chirho = self.convert_chirho(&es[i - 1], params_chirho);
            let cons_chirho = TyChirho::con_chirho("':".to_owned());
            acc = TyChirho::app_chirho(TyChirho::app_chirho(cons_chirho, elem_ty_chirho), acc);
            proof {
                let t = es@.take(i as int);
                assert(promoted_list(t, acc_before, ps, w_before) == promoted_list(t.drop_last(), acc@, ps, self.next_wildcard_chirho as nat));
            }
            i = i - 1;
        }
        proof {
            assert(es@.take(0).len() == 0);
        }
        acc
    }
}

/// Converts a written synonym right-hand side with a fresh converter.
pub fn ast_type_to_syn_rhs_chirho(ty_chirho: &TypeChirho, params_chirho: &Vec<String>) -> (r: TyChirho)
    requires
        binders_fit(*ty_chirho),
        conv(*ty_chirho, strs(params_chirho@), 0).1 <= usize::MAX,
    ensures
        r@ == conv(*ty_chirho, strs(params_chirho@), 0).0,
{
    let mut converter_chirho = SynonymTypeConverterChirho::default();
    converter_chirho.convert_chirho(ty_chirho, params_chirho)
}

}
