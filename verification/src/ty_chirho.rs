use vstd::prelude::*;

verus! {

#[derive(Clone, Copy, PartialEq, Eq, Debug, Structural)]
pub struct TyVarChirho(pub u32);

#[derive(Clone, Copy, PartialEq, Eq, Debug, Structural)]
pub enum MultChirho {
    OneChirho,
    ManyChirho,
}

#[derive(Debug, PartialEq, Eq)]
pub enum TyChirho {
    VarChirho(TyVarChirho),
    ConChirho(String),
    AppChirho(Box<TyChirho>, Box<TyChirho>),
    KindAppChirho(Box<TyChirho>, Box<TyChirho>),
    FunChirho(Box<TyChirho>, Box<TyChirho>, MultChirho),
    ListChirho(Box<TyChirho>),
    TupleChirho(Vec<TyChirho>),
    ForallVarChirho(String),
    ForallChirho { vars_chirho: Vec<TyVarChirho>, body_chirho: Box<TyChirho> },
    RequiredForallChirho { vars_chirho: Vec<TyVarChirho>, body_chirho: Box<TyChirho> },
}

#[verifier::ext_equal]
pub ghost enum TyV {
    Var(u32),
    Con(Seq<char>),
    App(Box<TyV>, Box<TyV>),
    KindApp(Box<TyV>, Box<TyV>),
    Fun(Box<TyV>, Box<TyV>, MultChirho),
    List(Box<TyV>),
    Tuple(Seq<TyV>),
    ForallVar(Seq<char>),
    Forall(Seq<u32>, Box<TyV>),
    RequiredForall(Seq<u32>, Box<TyV>),
}

pub open spec fn vars_view(vs: Seq<TyVarChirho>) -> Seq<u32> {
    vs.map_values(|v: TyVarChirho| v.0)
}

pub open spec fn tys_view(ts: Seq<TyChirho>) -> Seq<TyV>
    decreases ts,
{
    if ts.len() == 0 {
        Seq::empty()
    } else {
        tys_view(ts.drop_last()).push(ts.last().view_ty())
    }
}

pub proof fn lemma_tys_view(ts: Seq<TyChirho>)
    ensures
        tys_view(ts).len() == ts.len(),
        forall|i: int| 0 <= i < ts.len() ==> #[trigger] tys_view(ts)[i] == ts[i].view_ty(),
    decreases ts.len(),
{
    if ts.len() > 0 {
        lemma_tys_view(ts.drop_last());
    }
}

/// Whether two strings spell the same characters.
pub fn str_eq_chirho(a: &str, b: &str) -> (r: bool)
    ensures
        r == (a@ == b@),
{
    let a_owned: String = a.to_owned();
    let b_owned: String = b.to_owned();
    a_owned == b_owned
}

pub proof fn lemma_tys_view_push(ts: Seq<TyChirho>, t: TyChirho)
    ensures
        tys_view(ts.push(t)) == tys_view(ts).push(t@),
{
    assert(ts.push(t).drop_last() =~= ts);
}

impl View for TyChirho {
    type V = TyV;

    open spec fn view(&self) -> TyV {
        self.view_ty()
    }
}

impl TyChirho {
    pub open spec fn view_ty(&self) -> TyV
        decreases self,
    {
        match self {
            TyChirho::VarChirho(v) => TyV::Var(v.0),
            TyChirho::ConChirho(s) => TyV::Con(s@),
            TyChirho::AppChirho(f, a) => TyV::App(Box::new(f.view_ty()), Box::new(a.view_ty())),
            TyChirho::KindAppChirho(f, a) => TyV::KindApp(Box::new(f.view_ty()), Box::new(a.view_ty())),
            TyChirho::FunChirho(a, r, m) => TyV::Fun(Box::new(a.view_ty()), Box::new(r.view_ty()), *m),
            TyChirho::ListChirho(e) => TyV::List(Box::new(e.view_ty())),
            TyChirho::TupleChirho(es) => TyV::Tuple(tys_view(es@)),
            TyChirho::ForallVarChirho(s) => TyV::ForallVar(s@),
            TyChirho::ForallChirho { vars_chirho, body_chirho } => TyV::Forall(vars_view(vars_chirho@), Box::new(body_chirho.view_ty())),
            TyChirho::RequiredForallChirho { vars_chirho, body_chirho } => TyV::RequiredForall(vars_view(vars_chirho@), Box::new(body_chirho.view_ty())),
        }
    }
}


/// Deep copy of a list of types.
pub fn copy_tys_chirho(ts: &Vec<TyChirho>) -> (r: Vec<TyChirho>)
    ensures
        tys_view(r@) == tys_view(ts@),
    decreases ts@, 0nat,
{
    let mut out: Vec<TyChirho> = Vec::new();
    let mut i: usize = 0;
    proof { lemma_tys_view(ts@); }
    while i < ts.len()
        invariant
            i <= ts.len(),
            out@.len() == i,
            forall|j: int| 0 <= j < i ==> #[trigger] out@[j].view_ty() == ts@[j].view_ty(),
        decreases ts.len() - i,
    {
        proof { assert(decreases_to!(ts@ => ts@[i as int])); }
        let c = ts[i].copy_chirho();
        out.push(c);
        i = i + 1;
    }
    proof {
        lemma_tys_view(out@);
        lemma_tys_view(ts@);
        assert(tys_view(out@) =~= tys_view(ts@));
    }
    out
}

impl TyChirho {
    /// A structurally equal copy.
    pub fn copy_chirho(&self) -> (r: TyChirho)
        ensures
            r@ == self@,
        decreases self, 1nat,
    {
        match self {
            TyChirho::VarChirho(v) => TyChirho::VarChirho(*v),
            TyChirho::ConChirho(s) => TyChirho::ConChirho(s.clone()),
            TyChirho::AppChirho(f, a) => TyChirho::AppChirho(Box::new(f.copy_chirho()), Box::new(a.copy_chirho())),
            TyChirho::KindAppChirho(f, a) => TyChirho::KindAppChirho(Box::new(f.copy_chirho()), Box::new(a.copy_chirho())),
            TyChirho::FunChirho(a, r, m) => TyChirho::FunChirho(Box::new(a.copy_chirho()), Box::new(r.copy_chirho()), *m),
            TyChirho::ListChirho(e) => TyChirho::ListChirho(Box::new(e.copy_chirho())),
            TyChirho::TupleChirho(es) => TyChirho::TupleChirho(copy_tys_chirho(es)),
            TyChirho::ForallVarChirho(s) => TyChirho::ForallVarChirho(s.clone()),
            TyChirho::ForallChirho { vars_chirho, body_chirho } => TyChirho::ForallChirho {
                vars_chirho: vars_chirho.clone(),
                body_chirho: Box::new(body_chirho.copy_chirho()),
            },
            TyChirho::RequiredForallChirho { vars_chirho, body_chirho } => TyChirho::RequiredForallChirho {
                vars_chirho: vars_chirho.clone(),
                body_chirho: Box::new(body_chirho.copy_chirho()),
            },
        }
    }
}


/// Whether two variable lists are the same.
pub fn vars_eq_chirho(a: &Vec<TyVarChirho>, b: &Vec<TyVarChirho>) -> (r: bool)
    ensures
        r == (vars_view(a@) == vars_view(b@)),
{
    if a.len() != b.len() {
        proof { assert(vars_view(a@).len() != vars_view(b@).len()); }
        return false;
    }
    let mut i: usize = 0;
    while i < a.len()
        invariant
            i <= a.len(),
            a.len() == b.len(),
            forall|j: int| 0 <= j < i ==> #[trigger] a@[j].0 == b@[j].0,
        decreases a.len() - i,
    {
        if a[i].0 != b[i].0 {
            proof { assert(vars_view(a@)[i as int] != vars_view(b@)[i as int]); }
            return false;
        }
        i = i + 1;
    }
    proof { assert(vars_view(a@) =~= vars_view(b@)); }
    true
}

/// Whether two type lists are structurally equal.
pub fn tys_eq_chirho(a: &Vec<TyChirho>, b: &Vec<TyChirho>) -> (r: bool)
    ensures
        r == (tys_view(a@) == tys_view(b@)),
    decreases a@, 0nat,
{
    proof {
        lemma_tys_view(a@);
        lemma_tys_view(b@);
    }
    if a.len() != b.len() {
        return false;
    }
    let mut i: usize = 0;
    while i < a.len()
        invariant
            i <= a.len(),
            a.len() == b.len(),
            tys_view(a@).len() == a.len(),
            tys_view(b@).len() == b.len(),
            forall|j: int| 0 <= j < a.len() ==> #[trigger] tys_view(a@)[j] == a@[j].view_ty(),
            forall|j: int| 0 <= j < b.len() ==> #[trigger] tys_view(b@)[j] == b@[j].view_ty(),
            forall|j: int| 0 <= j < i ==> #[trigger] tys_view(a@)[j] == tys_view(b@)[j],
        decreases a.len() - i,
    {
        proof { assert(decreases_to!(a@ => a@[i as int])); }
        if !a[i].eq_chirho(&b[i]) {
            proof { assert(tys_view(a@)[i as int] != tys_view(b@)[i as int]); }
            return false;
        }
        i = i + 1;
    }
    proof { assert(tys_view(a@) =~= tys_view(b@)); }
    true
}

impl TyChirho {
    /// Structural equality.
    pub fn eq_chirho(&self, other: &TyChirho) -> (r: bool)
        ensures
            r == (self@ == other@),
        decreases self, 1nat,
    {
        match (self, other) {
            (TyChirho::VarChirho(a), TyChirho::VarChirho(b)) => a.0 == b.0,
            (TyChirho::ConChirho(a), TyChirho::ConChirho(b)) => *a == *b,
            (TyChirho::AppChirho(f1, a1), TyChirho::AppChirho(f2, a2)) => f1.eq_chirho(f2) && a1.eq_chirho(a2),
            (TyChirho::KindAppChirho(f1, a1), TyChirho::KindAppChirho(f2, a2)) => f1.eq_chirho(f2) && a1.eq_chirho(a2),
            (TyChirho::FunChirho(a1, r1, m1), TyChirho::FunChirho(a2, r2, m2)) => *m1 == *m2 && a1.eq_chirho(a2) && r1.eq_chirho(r2),
            (TyChirho::ListChirho(e1), TyChirho::ListChirho(e2)) => e1.eq_chirho(e2),
            (TyChirho::TupleChirho(e1), TyChirho::TupleChirho(e2)) => tys_eq_chirho(e1, e2),
            (TyChirho::ForallVarChirho(a), TyChirho::ForallVarChirho(b)) => *a == *b,
            (TyChirho::ForallChirho { vars_chirho: v1, body_chirho: b1 }, TyChirho::ForallChirho { vars_chirho: v2, body_chirho: b2 }) => vars_eq_chirho(v1, v2) && b1.eq_chirho(b2),
            (TyChirho::RequiredForallChirho { vars_chirho: v1, body_chirho: b1 }, TyChirho::RequiredForallChirho { vars_chirho: v2, body_chirho: b2 }) => vars_eq_chirho(v1, v2) && b1.eq_chirho(b2),
            _ => false,
        }
    }
}


pub open spec fn con_v(name: Seq<char>) -> TyV {
    TyV::Con(name)
}

pub open spec fn fun_v(a: TyV, b: TyV) -> TyV {
    TyV::Fun(Box::new(a), Box::new(b), MultChirho::ManyChirho)
}

/// `a1 -> a2 -> ... -> r`, arrows of unrestricted multiplicity.
pub open spec fn fun_n_v(args: Seq<TyV>, r: TyV) -> TyV
    decreases args.len(),
{
    if args.len() == 0 {
        r
    } else {
        fun_v(args[0], fun_n_v(args.drop_first(), r))
    }
}

pub open spec fn list_v(t: TyV) -> TyV {
    TyV::List(Box::new(t))
}

pub open spec fn app_v(f: TyV, a: TyV) -> TyV {
    TyV::App(Box::new(f), Box::new(a))
}

impl TyChirho {
    /// `Int`.
    pub fn int_chirho() -> (r: TyChirho)
        ensures
            r@ == con_v("Int"@),
    {
        TyChirho::ConChirho("Int".to_owned())
    }

    /// `Bool`.
    pub fn bool_chirho() -> (r: TyChirho)
        ensures
            r@ == con_v("Bool"@),
    {
        TyChirho::ConChirho("Bool".to_owned())
    }

    /// `Char`.
    pub fn char_chirho() -> (r: TyChirho)
        ensures
            r@ == con_v("Char"@),
    {
        TyChirho::ConChirho("Char".to_owned())
    }

    /// `Double`.
    pub fn double_chirho() -> (r: TyChirho)
        ensures
            r@ == con_v("Double"@),
    {
        TyChirho::ConChirho("Double".to_owned())
    }

    /// `String`, represented as `[Char]`.
    pub fn string_chirho() -> (r: TyChirho)
        ensures
            r@ == list_v(con_v("Char"@)),
    {
        TyChirho::ListChirho(Box::new(TyChirho::char_chirho()))
    }

    /// The unit type `()`, the empty tuple.
    pub fn unit_chirho() -> (r: TyChirho)
        ensures
            r@ == TyV::Tuple(Seq::empty()),
    {
        let r = TyChirho::TupleChirho(Vec::new());
        proof { assert(tys_view(Seq::<TyChirho>::empty()) =~= Seq::<TyV>::empty()); }
        r
    }

    /// `IO t`.
    pub fn io_chirho(t: TyChirho) -> (r: TyChirho)
        ensures
            r@ == app_v(con_v("IO"@), t@),
    {
        let io = TyChirho::ConChirho("IO".to_owned());
        assert(io@ == con_v("IO"@));
        TyChirho::AppChirho(Box::new(io), Box::new(t))
    }

    /// The unrestricted arrow `a -> b`.
    pub fn fun_chirho(a: TyChirho, b: TyChirho) -> (r: TyChirho)
        ensures
            r@ == fun_v(a@, b@),
    {
        TyChirho::FunChirho(Box::new(a), Box::new(b), MultChirho::ManyChirho)
    }

    /// The type variable `v`.
    pub fn var_chirho(v: TyVarChirho) -> (r: TyChirho)
        ensures
            r@ == TyV::Var(v.0),
    {
        TyChirho::VarChirho(v)
    }

    /// The type constructor named `name`.
    pub fn con_chirho(name: String) -> (r: TyChirho)
        ensures
            r@ == con_v(name@),
    {
        TyChirho::ConChirho(name)
    }

    /// The application `f a`.
    pub fn app_chirho(f: TyChirho, a: TyChirho) -> (r: TyChirho)
        ensures
            r@ == app_v(f@, a@),
    {
        TyChirho::AppChirho(Box::new(f), Box::new(a))
    }

    /// The list type `[t]`.
    pub fn list_chirho(t: TyChirho) -> (r: TyChirho)
        ensures
            r@ == list_v(t@),
    {
        TyChirho::ListChirho(Box::new(t))
    }

    /// The arrow `a -> b` of multiplicity `m`.
    pub fn arrow_chirho(a: TyChirho, b: TyChirho, m: MultChirho) -> (r: TyChirho)
        ensures
            r@ == TyV::Fun(Box::new(a@), Box::new(b@), m),
    {
        TyChirho::FunChirho(Box::new(a), Box::new(b), m)
    }

    /// The pair type `(a, b)`.
    pub fn pair_chirho(a: TyChirho, b: TyChirho) -> (r: TyChirho)
        ensures
            r@ == TyV::Tuple(seq![a@, b@]),
    {
        let r = TyChirho::TupleChirho(vec![a, b]);
        proof {
            reveal_with_fuel(tys_view, 3);
            assert(tys_view(seq![a, b]) =~= seq![a@, b@]);
        }
        r
    }

    /// The triple type `(a, b, c)`.
    pub fn triple_chirho(a: TyChirho, b: TyChirho, c: TyChirho) -> (r: TyChirho)
        ensures
            r@ == TyV::Tuple(seq![a@, b@, c@]),
    {
        let r = TyChirho::TupleChirho(vec![a, b, c]);
        proof {
            reveal_with_fuel(tys_view, 4);
            assert(tys_view(seq![a, b, c]) =~= seq![a@, b@, c@]);
        }
        r
    }

    /// `a1 -> ... -> an -> r`.
    pub fn fun_n_chirho(args: Vec<TyChirho>, r: TyChirho) -> (out: TyChirho)
        ensures
            out@ == fun_n_v(tys_view(args@), r@),
    {
        proof { lemma_tys_view(args@); }
        let ghost full = tys_view(args@);
        let mut args = args;
        let mut out = r;
        while args.len() > 0
            invariant
                forall|j: int| 0 <= j < args@.len() ==> #[trigger] args@[j]@ == full[j],
                args@.len() <= full.len(),
                out@ == fun_n_v(full.skip(args@.len() as int), r@),
            decreases args.len(),
        {
            let a = args.pop().unwrap();
            proof {
                let k = args@.len() as int;
                assert(full.skip(k).drop_first() =~= full.skip(k + 1));
                assert(full.skip(k)[0] == full[k]);
            }
            out = TyChirho::fun_chirho(a, out);
        }
        proof { assert(full.skip(0) =~= full); }
        out
    }
}

impl Clone for TyChirho {
    fn clone(&self) -> (r: TyChirho)
        ensures
            r@ == self@,
    {
        self.copy_chirho()
    }
}


/// A type class predicate `C t` inside a scheme: a class and the one type it
/// constrains.
#[derive(Debug, Clone, PartialEq, Eq)]
pub struct SchemePredChirho {
    pub class_name_chirho: String,
    pub ty_chirho: TyChirho,
}

/// A wanted or given predicate `C t extra...`.
#[derive(Debug, Clone, PartialEq, Eq)]
pub struct PredChirho {
    pub class_name_chirho: String,
    pub ty_chirho: TyChirho,
    pub extra_tys_chirho: Vec<TyChirho>,
}

/// The mathematical content of a predicate.
#[verifier::ext_equal]
pub ghost struct PredV {
    pub class: Seq<char>,
    pub ty: TyV,
    pub extra: Seq<TyV>,
}

impl View for SchemePredChirho {
    type V = PredV;

    open spec fn view(&self) -> PredV {
        PredV { class: self.class_name_chirho@, ty: self.ty_chirho@, extra: Seq::empty() }
    }
}

impl View for PredChirho {
    type V = PredV;

    open spec fn view(&self) -> PredV {
        PredV { class: self.class_name_chirho@, ty: self.ty_chirho@, extra: tys_view(self.extra_tys_chirho@) }
    }
}

impl PredChirho {
    /// A single-parameter predicate `C t`.
    pub fn new_chirho(class_chirho: &str, ty_chirho: TyChirho) -> (r: PredChirho)
        ensures
            r@ == (PredV { class: class_chirho@, ty: ty_chirho@, extra: Seq::empty() }),
    {
        let r = PredChirho { class_name_chirho: class_chirho.to_owned(), ty_chirho, extra_tys_chirho: Vec::new() };
        proof { assert(tys_view(Seq::<TyChirho>::empty()) =~= Seq::<TyV>::empty()); }
        r
    }

    /// A structurally equal copy.
    pub fn copy_chirho(&self) -> (r: PredChirho)
        ensures
            r@ == self@,
    {
        PredChirho {
            class_name_chirho: self.class_name_chirho.clone(),
            ty_chirho: self.ty_chirho.copy_chirho(),
            extra_tys_chirho: copy_tys_chirho(&self.extra_tys_chirho),
        }
    }
}

impl SchemePredChirho {
    /// A structurally equal copy.
    pub fn copy_chirho(&self) -> (r: SchemePredChirho)
        ensures
            r@ == self@,
    {
        SchemePredChirho {
            class_name_chirho: self.class_name_chirho.clone(),
            ty_chirho: self.ty_chirho.copy_chirho(),
        }
    }

    /// Structural equality.
    pub fn eq_chirho(&self, other: &SchemePredChirho) -> (r: bool)
        ensures
            r == (self@ == other@),
    {
        self.class_name_chirho == other.class_name_chirho
            && self.ty_chirho.eq_chirho(&other.ty_chirho)
    }
}

pub open spec fn preds_view(ps: Seq<SchemePredChirho>) -> Seq<PredV> {
    ps.map_values(|p: SchemePredChirho| p@)
}

/// A type scheme `forall vars. preds => ty`.
#[derive(Debug, Clone, PartialEq, Eq)]
pub struct SchemeChirho {
    pub vars_chirho: Vec<TyVarChirho>,
    pub preds_chirho: Vec<SchemePredChirho>,
    pub ty_chirho: TyChirho,
}

#[verifier::ext_equal]
pub ghost struct SchemeV {
    pub vars: Seq<u32>,
    pub preds: Seq<PredV>,
    pub ty: TyV,
}

impl View for SchemeChirho {
    type V = SchemeV;

    open spec fn view(&self) -> SchemeV {
        SchemeV { vars: vars_view(self.vars_chirho@), preds: preds_view(self.preds_chirho@), ty: self.ty_chirho@ }
    }
}

/// A deep copy of a predicate list.
pub fn copy_preds_chirho(ps: &Vec<SchemePredChirho>) -> (r: Vec<SchemePredChirho>)
    ensures
        preds_view(r@) == preds_view(ps@),
{
    let mut out: Vec<SchemePredChirho> = Vec::new();
    let mut i: usize = 0;
    while i < ps.len()
        invariant
            i <= ps.len(),
            out@.len() == i,
            forall|j: int| 0 <= j < i ==> #[trigger] out@[j]@ == ps@[j]@,
        decreases ps.len() - i,
    {
        out.push(ps[i].copy_chirho());
        i = i + 1;
    }
    proof { assert(preds_view(out@) =~= preds_view(ps@)); }
    out
}

impl SchemeChirho {
    /// A monomorphic scheme: no quantified variables, no predicates.
    pub fn mono_chirho(ty_chirho: TyChirho) -> (r: SchemeChirho)
        ensures
            r@ == (SchemeV { vars: Seq::empty(), preds: Seq::empty(), ty: ty_chirho@ }),
    {
        let r = SchemeChirho { vars_chirho: Vec::new(), preds_chirho: Vec::new(), ty_chirho };
        proof {
            assert(vars_view(r.vars_chirho@) =~= Seq::<u32>::empty());
            assert(preds_view(r.preds_chirho@) =~= Seq::<PredV>::empty());
        }
        r
    }

    /// A structurally equal copy.
    pub fn copy_chirho(&self) -> (r: SchemeChirho)
        ensures
            r@ == self@,
    {
        SchemeChirho {
            vars_chirho: self.vars_chirho.clone(),
            preds_chirho: copy_preds_chirho(&self.preds_chirho),
            ty_chirho: self.ty_chirho.copy_chirho(),
        }
    }
}


/// Occurrences of variables not bound by `bound` or by an enclosing
/// quantifier of `t`, in left-to-right order, repetitions included.
pub open spec fn occ(t: TyV, bound: Seq<u32>) -> Seq<u32>
    decreases t,
{
    match t {
        TyV::Var(v) => if bound.contains(v) { Seq::empty() } else { seq![v] },
        TyV::Con(_) => Seq::empty(),
        TyV::ForallVar(_) => Seq::empty(),
        TyV::App(f, a) => occ(*f, bound) + occ(*a, bound),
        TyV::KindApp(f, a) => occ(*f, bound) + occ(*a, bound),
        TyV::Fun(a, r, _) => occ(*a, bound) + occ(*r, bound),
        TyV::List(e) => occ(*e, bound),
        TyV::Tuple(es) => occ_seq(es, bound),
        TyV::Forall(vs, b) => occ(*b, bound + vs),
        TyV::RequiredForall(vs, b) => occ(*b, bound + vs),
    }
}

pub open spec fn occ_seq(es: Seq<TyV>, bound: Seq<u32>) -> Seq<u32>
    decreases es,
{
    if es.len() == 0 {
        Seq::empty()
    } else {
        occ_seq(es.drop_last(), bound) + occ(es.last(), bound)
    }
}

/// `acc` followed by the elements of `s` not seen before, in order.
pub open spec fn add_new(acc: Seq<u32>, s: Seq<u32>) -> Seq<u32>
    decreases s.len(),
{
    if s.len() == 0 {
        acc
    } else {
        let prev = add_new(acc, s.drop_last());
        if prev.contains(s.last()) {
            prev
        } else {
            prev.push(s.last())
        }
    }
}

/// The free variables of a type, each once, in order of first occurrence.
pub open spec fn free_vars(t: TyV) -> Seq<u32> {
    add_new(Seq::empty(), occ(t, Seq::empty()))
}

pub proof fn lemma_add_new_concat(acc: Seq<u32>, s1: Seq<u32>, s2: Seq<u32>)
    ensures
        add_new(acc, s1 + s2) == add_new(add_new(acc, s1), s2),
    decreases s2.len(),
{
    if s2.len() == 0 {
        assert(s1 + s2 =~= s1);
    } else {
        assert((s1 + s2).drop_last() =~= s1 + s2.drop_last());
        assert((s1 + s2).last() == s2.last());
        lemma_add_new_concat(acc, s1, s2.drop_last());
    }
}

pub proof fn lemma_add_new_props(acc: Seq<u32>, s: Seq<u32>)
    ensures
        forall|x: u32| #[trigger] add_new(acc, s).contains(x) <==> (acc.contains(x) || s.contains(x)),
        acc.no_duplicates() ==> add_new(acc, s).no_duplicates(),
    decreases s.len(),
{
    if s.len() > 0 {
        lemma_add_new_props(acc, s.drop_last());
        let prev = add_new(acc, s.drop_last());
        assert forall|x: u32| #[trigger] add_new(acc, s).contains(x) <==> (acc.contains(x) || s.contains(x)) by {
            if s.contains(x) && !s.drop_last().contains(x) {
                let k = choose|k: int| 0 <= k < s.len() && s[k] == x;
                if k < s.len() - 1 {
                    assert(s.drop_last()[k] == x);
                }
            }
            if s.drop_last().contains(x) {
                let k = choose|k: int| 0 <= k < s.drop_last().len() && s.drop_last()[k] == x;
                assert(s[k] == x);
            }
            if !prev.contains(s.last()) {
                if prev.push(s.last()).contains(x) && x != s.last() {
                    let k = choose|k: int| 0 <= k < prev.push(s.last()).len() && prev.push(s.last())[k] == x;
                    assert(prev[k] == x);
                }
                if prev.contains(x) {
                    let k = choose|k: int| 0 <= k < prev.len() && prev[k] == x;
                    assert(prev.push(s.last())[k] == x);
                }
                assert(prev.push(s.last())[prev.len() as int] == s.last());
            }
        }
    }
}

/// Whether `x` is among the variables of `v`.
pub fn vars_contains_chirho(v: &Vec<TyVarChirho>, x: u32) -> (r: bool)
    ensures
        r == vars_view(v@).contains(x),
{
    let mut i: usize = 0;
    while i < v.len()
        invariant
            i <= v.len(),
            forall|j: int| 0 <= j < i ==> v@[j].0 != x,
        decreases v.len() - i,
    {
        if v[i].0 == x {
            proof { assert(vars_view(v@)[i as int] == x); }
            return true;
        }
        i = i + 1;
    }
    proof {
        if vars_view(v@).contains(x) {
            let k = choose|k: int| 0 <= k < vars_view(v@).len() && vars_view(v@)[k] == x;
            assert(v@[k].0 == x);
        }
    }
    false
}

/// `a` followed by `b`.
pub fn vars_concat_chirho(a: &Vec<TyVarChirho>, b: &Vec<TyVarChirho>) -> (r: Vec<TyVarChirho>)
    ensures
        vars_view(r@) == vars_view(a@) + vars_view(b@),
{
    let mut r = a.clone();
    let mut i: usize = 0;
    while i < b.len()
        invariant
            i <= b.len(),
            vars_view(r@) == vars_view(a@) + vars_view(b@.take(i as int)),
        decreases b.len() - i,
    {
        let ghost prev = vars_view(r@);
        r.push(b[i]);
        i = i + 1;
        proof {
            assert(vars_view(r@) =~= prev.push(b@[i - 1].0));
            assert(vars_view(b@.take(i as int)) =~= vars_view(b@.take(i - 1)).push(b@[i - 1].0));
            assert(vars_view(r@) =~= vars_view(a@) + vars_view(b@.take(i as int)));
        }
    }
    proof { assert(b@.take(b@.len() as int) =~= b@); }
    r
}

/// Adds to `acc` the free variables of the list `ts` not already there.
pub fn collect_free_vars_seq_chirho(ts: &Vec<TyChirho>, bound: &Vec<TyVarChirho>, acc: &mut Vec<TyVarChirho>)
    ensures
        vars_view(final(acc)@) == add_new(vars_view(old(acc)@), occ_seq(tys_view(ts@), vars_view(bound@))),
    decreases ts@, 0nat,
{
    let ghost a0 = vars_view(acc@);
    let ghost bv = vars_view(bound@);
    proof { lemma_tys_view(ts@); }
    let mut i: usize = 0;
    while i < ts.len()
        invariant
            i <= ts.len(),
            bv == vars_view(bound@),
            tys_view(ts@).len() == ts@.len(),
            forall|j: int| 0 <= j < ts@.len() ==> #[trigger] tys_view(ts@)[j] == ts@[j]@,
            vars_view(acc@) == add_new(a0, occ_seq(tys_view(ts@).take(i as int), bv)),
        decreases ts.len() - i,
    {
        proof { assert(decreases_to!(ts@ => ts@[i as int])); }
        let ghost before = vars_view(acc@);
        ts[i].collect_free_vars_chirho(bound, acc);
        proof {
            let tv = tys_view(ts@);
            assert(tv.take(i + 1).drop_last() =~= tv.take(i as int));
            assert(tv.take(i + 1).last() == ts@[i as int]@);
            lemma_add_new_concat(a0, occ_seq(tv.take(i as int), bv), occ(ts@[i as int]@, bv));
        }
        i = i + 1;
    }
    proof { assert(tys_view(ts@).take(ts@.len() as int) =~= tys_view(ts@)); }
}

impl TyChirho {
    /// Adds to `acc` the variables of `self` that are neither in `bound` nor
    /// already in `acc`, in order of first occurrence.
    pub fn collect_free_vars_chirho(&self, bound: &Vec<TyVarChirho>, acc: &mut Vec<TyVarChirho>)
        ensures
            vars_view(final(acc)@) == add_new(vars_view(old(acc)@), occ(self@, vars_view(bound@))),
        decreases self, 1nat,
    {
        let ghost bv = vars_view(bound@);
        match self {
            TyChirho::VarChirho(v) => {
                proof {
                    assert(seq![v.0].drop_last() =~= Seq::<u32>::empty());
                    assert(add_new(vars_view(acc@), Seq::<u32>::empty()) == vars_view(acc@));
                    assert(seq![v.0].last() == v.0);
                }
                if vars_contains_chirho(bound, v.0) {
                    proof { assert(occ(self@, bv) =~= Seq::<u32>::empty()); }
                } else if vars_contains_chirho(acc, v.0) {
                } else {
                    acc.push(*v);
                    proof {
                        assert(vars_view(acc@) =~= vars_view(old(acc)@).push(v.0));
                    }
                }
            }
            TyChirho::ConChirho(_) => {}
            TyChirho::ForallVarChirho(_) => {}
            TyChirho::AppChirho(f, a) | TyChirho::KindAppChirho(f, a) | TyChirho::FunChirho(f, a, _) => {
                f.collect_free_vars_chirho(bound, acc);
                a.collect_free_vars_chirho(bound, acc);
                proof { lemma_add_new_concat(vars_view(old(acc)@), occ(f@, bv), occ(a@, bv)); }
            }
            TyChirho::ListChirho(e) => e.collect_free_vars_chirho(bound, acc),
            TyChirho::TupleChirho(es) => collect_free_vars_seq_chirho(es, bound, acc),
            TyChirho::ForallChirho { vars_chirho, body_chirho }
            | TyChirho::RequiredForallChirho { vars_chirho, body_chirho } => {
                let inner = vars_concat_chirho(bound, vars_chirho);
                body_chirho.collect_free_vars_chirho(&inner, acc);
            }
        }
    }

    /// The free variables of the type, each once, in order of first occurrence.
    pub fn free_vars_chirho(&self) -> (r: Vec<TyVarChirho>)
        ensures
            vars_view(r@) == free_vars(self@),
    {
        let mut acc: Vec<TyVarChirho> = Vec::new();
        let bound: Vec<TyVarChirho> = Vec::new();
        proof {
            assert(vars_view(acc@) =~= Seq::<u32>::empty());
            assert(vars_view(bound@) =~= Seq::<u32>::empty());
        }
        self.collect_free_vars_chirho(&bound, &mut acc);
        acc
    }
}


/// The body of a quantified type of the given visibility: `forall a. body`
/// when `required_chirho` is false, `forall a -> body` when it is true.
/// `None` when the type is not a quantifier of that visibility.
pub fn quantified_body_chirho(ty_chirho: &TyChirho, required_chirho: bool) -> (r: Option<&TyChirho>)
    ensures
        match r {
            Some(b) => (!required_chirho && ty_chirho@ is Forall && ty_chirho@->Forall_1 == b@)
                || (required_chirho && ty_chirho@ is RequiredForall && ty_chirho@->RequiredForall_1 == b@),
            None => !((!required_chirho && ty_chirho@ is Forall) || (required_chirho && ty_chirho@ is RequiredForall)),
        },
{
    match ty_chirho {
        TyChirho::ForallChirho { body_chirho, .. } if !required_chirho => Some(body_chirho),
        TyChirho::RequiredForallChirho { body_chirho, .. } if required_chirho => Some(body_chirho),
        _ => None,
    }
}

}
