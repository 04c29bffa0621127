//! The names that the right-hand sides of a binding refer to: a shallow walk
//! of the surface expressions, as binding-group analysis needs it. The
//! expression types hold what the walk reads: names, operators and
//! subexpressions.
use vstd::prelude::*;
use crate::binding_groups_chirho::strs;
use crate::infer_chirho::LitChirho;
use crate::patterns_chirho::PatChirho;

verus! {

/// A surface expression.
#[derive(Debug)]
pub enum ExprChirho {
    VarChirho(String),
    ConChirho(String),
    LitChirho(LitChirho),
    AppChirho { fun_chirho: Box<ExprChirho>, arg_chirho: Box<ExprChirho> },
    LamChirho { pats_chirho: Vec<PatChirho>, body_chirho: Box<ExprChirho> },
    LetChirho { binds_chirho: Vec<LocalBindChirho>, body_chirho: Box<ExprChirho> },
    IfChirho { cond_chirho: Box<ExprChirho>, then_chirho: Box<ExprChirho>, else_chirho: Box<ExprChirho> },
    CaseChirho { scrutinee_chirho: Box<ExprChirho>, alts_chirho: Vec<MatchArmChirho> },
    DoChirho { stmts_chirho: Vec<StmtChirho> },
    InfixChirho { left_chirho: Box<ExprChirho>, op_chirho: String, right_chirho: Box<ExprChirho> },
    NegChirho { expr_chirho: Box<ExprChirho> },
    TupleChirho { elements_chirho: Vec<ExprChirho> },
    ListChirho { elements_chirho: Vec<ExprChirho> },
    TypeAppChirho { expr_chirho: Box<ExprChirho> },
    ArithSeqChirho { from_chirho: Box<ExprChirho>, then_chirho: Option<Box<ExprChirho>>, to_chirho: Option<Box<ExprChirho>> },
    ListCompChirho { body_chirho: Box<ExprChirho>, quals_chirho: Vec<StmtChirho> },
    LeftSectionChirho { op_chirho: String, arg_chirho: Box<ExprChirho> },
    RightSectionChirho { arg_chirho: Box<ExprChirho>, op_chirho: String },
    AnnChirho { expr_chirho: Box<ExprChirho> },
    ParenChirho { inner_chirho: Box<ExprChirho> },
    SpliceChirho { expr_chirho: Box<ExprChirho> },
    TypedSpliceChirho { expr_chirho: Box<ExprChirho> },
    QuoteExprChirho { expr_chirho: Box<ExprChirho> },
    QuoteOtherChirho,
    RecordConChirho { fields_chirho: Vec<FieldChirho> },
    RecordUpdateChirho { expr_chirho: Box<ExprChirho>, fields_chirho: Vec<FieldChirho> },
}

/// A statement of a `do` block or a qualifier of a list comprehension.
#[derive(Debug)]
pub enum StmtChirho {
    ExprChirho(ExprChirho),
    BindChirho { expr_chirho: ExprChirho },
    LetChirho { binds_chirho: Vec<LocalBindChirho> },
}

/// A local binding (of `let` or `where`).
#[derive(Debug)]
pub enum LocalBindChirho {
    FunBindChirho { matches_chirho: Vec<MatchArmChirho> },
    PatBindChirho { rhs_chirho: RhsChirho },
    SignatureChirho,
}

/// One equation of a function, or one alternative of a `case`: its
/// argument patterns, its right-hand side and its `where` bindings.
#[derive(Debug)]
pub struct MatchArmChirho {
    pub pats_chirho: Vec<PatChirho>,
    pub rhs_chirho: RhsChirho,
    pub where_binds_chirho: Vec<LocalBindChirho>,
}

/// A right-hand side, plain or guarded.
#[derive(Debug)]
pub enum RhsChirho {
    UnguardedChirho(ExprChirho),
    GuardedChirho(Vec<GuardedExprChirho>),
}

/// `| guard = body`.
#[derive(Debug)]
pub struct GuardedExprChirho {
    pub guard_chirho: ExprChirho,
    pub body_chirho: ExprChirho,
}

/// A record field's value.
#[derive(Debug)]
pub struct FieldChirho {
    pub value_chirho: ExprChirho,
}

/// The names an expression refers to, in walk order: variables, and the
/// operators of infix applications and sections; `let` bindings contribute
/// what their right-hand sides refer to, `case` alternatives their
/// right-hand sides and `where` bindings.
pub open spec fn expr_ref_list(e: ExprChirho) -> Seq<Seq<char>>
    decreases e, 0nat,
{
    match e {
        ExprChirho::VarChirho(n) => seq![n@],
        ExprChirho::AppChirho { fun_chirho, arg_chirho } => expr_ref_list(*fun_chirho) + expr_ref_list(*arg_chirho),
        ExprChirho::LamChirho { body_chirho, .. } => expr_ref_list(*body_chirho),
        ExprChirho::LetChirho { binds_chirho, body_chirho } => binds_ref_list(binds_chirho@) + expr_ref_list(*body_chirho),
        ExprChirho::IfChirho { cond_chirho, then_chirho, else_chirho } =>
            expr_ref_list(*cond_chirho) + expr_ref_list(*then_chirho) + expr_ref_list(*else_chirho),
        ExprChirho::CaseChirho { scrutinee_chirho, alts_chirho } => expr_ref_list(*scrutinee_chirho) + alts_ref_list(alts_chirho@),
        ExprChirho::DoChirho { stmts_chirho } => stmts_ref_list(stmts_chirho@),
        ExprChirho::InfixChirho { left_chirho, op_chirho, right_chirho } =>
            expr_ref_list(*left_chirho) + seq![op_chirho@] + expr_ref_list(*right_chirho),
        ExprChirho::NegChirho { expr_chirho } => expr_ref_list(*expr_chirho),
        ExprChirho::TupleChirho { elements_chirho } => exprs_ref_list(elements_chirho@),
        ExprChirho::ListChirho { elements_chirho } => exprs_ref_list(elements_chirho@),
        ExprChirho::TypeAppChirho { expr_chirho } => expr_ref_list(*expr_chirho),
        ExprChirho::ArithSeqChirho { from_chirho, then_chirho, to_chirho } =>
            expr_ref_list(*from_chirho)
                + (match then_chirho { Some(t) => expr_ref_list(*t), None => Seq::empty() })
                + (match to_chirho { Some(t) => expr_ref_list(*t), None => Seq::empty() }),
        ExprChirho::ListCompChirho { body_chirho, quals_chirho } => expr_ref_list(*body_chirho) + stmts_ref_list(quals_chirho@),
        ExprChirho::LeftSectionChirho { op_chirho, arg_chirho } => seq![op_chirho@] + expr_ref_list(*arg_chirho),
        ExprChirho::RightSectionChirho { arg_chirho, op_chirho } => expr_ref_list(*arg_chirho) + seq![op_chirho@],
        ExprChirho::AnnChirho { expr_chirho } => expr_ref_list(*expr_chirho),
        ExprChirho::ParenChirho { inner_chirho } => expr_ref_list(*inner_chirho),
        ExprChirho::SpliceChirho { expr_chirho } => expr_ref_list(*expr_chirho),
        ExprChirho::TypedSpliceChirho { expr_chirho } => expr_ref_list(*expr_chirho),
        ExprChirho::QuoteExprChirho { expr_chirho } => expr_ref_list(*expr_chirho),
        ExprChirho::RecordConChirho { fields_chirho } => fields_ref_list(fields_chirho@),
        ExprChirho::RecordUpdateChirho { expr_chirho, fields_chirho } => expr_ref_list(*expr_chirho) + fields_ref_list(fields_chirho@),
        _ => Seq::empty(),
    }
}

/// The references of a list of expressions, left to right.
pub open spec fn exprs_ref_list(es: Seq<ExprChirho>) -> Seq<Seq<char>>
    decreases es, 0nat,
{
    if es.len() == 0 {
        Seq::empty()
    } else {
        exprs_ref_list(es.drop_last()) + expr_ref_list(es.last())
    }
}

/// The references of a statement.
pub open spec fn stmt_ref_list(s: StmtChirho) -> Seq<Seq<char>>
    decreases s, 0nat,
{
    match s {
        StmtChirho::ExprChirho(e) => expr_ref_list(e),
        StmtChirho::BindChirho { expr_chirho } => expr_ref_list(expr_chirho),
        StmtChirho::LetChirho { binds_chirho } => binds_ref_list(binds_chirho@),
    }
}

/// The references of a list of statements, in order.
pub open spec fn stmts_ref_list(ss: Seq<StmtChirho>) -> Seq<Seq<char>>
    decreases ss, 0nat,
{
    if ss.len() == 0 {
        Seq::empty()
    } else {
        stmts_ref_list(ss.drop_last()) + stmt_ref_list(ss.last())
    }
}

/// The references of a local binding: the right-hand sides of a function's
/// equations, or of a pattern binding.
pub open spec fn bind_ref_list(b: LocalBindChirho) -> Seq<Seq<char>>
    decreases b, 0nat,
{
    match b {
        LocalBindChirho::FunBindChirho { matches_chirho } => arms_rhs_ref_list(matches_chirho@),
        LocalBindChirho::PatBindChirho { rhs_chirho } => rhs_ref_list(rhs_chirho),
        LocalBindChirho::SignatureChirho => Seq::empty(),
    }
}

/// The references of a list of local bindings, in order.
pub open spec fn binds_ref_list(bs: Seq<LocalBindChirho>) -> Seq<Seq<char>>
    decreases bs, 0nat,
{
    if bs.len() == 0 {
        Seq::empty()
    } else {
        binds_ref_list(bs.drop_last()) + bind_ref_list(bs.last())
    }
}

/// The references of the right-hand sides of equations (not their `where`
/// bindings).
pub open spec fn arms_rhs_ref_list(ms: Seq<MatchArmChirho>) -> Seq<Seq<char>>
    decreases ms, 0nat,
{
    if ms.len() == 0 {
        Seq::empty()
    } else {
        arms_rhs_ref_list(ms.drop_last()) + rhs_ref_list(ms.last().rhs_chirho)
    }
}

/// The references of one equation or alternative: its right-hand side, then
/// its `where` bindings.
pub open spec fn arm_ref_list(m: MatchArmChirho) -> Seq<Seq<char>>
    decreases m, 0nat,
{
    rhs_ref_list(m.rhs_chirho) + binds_ref_list(m.where_binds_chirho@)
}

/// The references of a list of alternatives, in order.
pub open spec fn alts_ref_list(ms: Seq<MatchArmChirho>) -> Seq<Seq<char>>
    decreases ms, 0nat,
{
    if ms.len() == 0 {
        Seq::empty()
    } else {
        alts_ref_list(ms.drop_last()) + arm_ref_list(ms.last())
    }
}

/// The references of a right-hand side: each guard, then its body.
pub open spec fn rhs_ref_list(r: RhsChirho) -> Seq<Seq<char>>
    decreases r, 0nat,
{
    match r {
        RhsChirho::UnguardedChirho(e) => expr_ref_list(e),
        RhsChirho::GuardedChirho(arms) => guards_ref_list(arms@),
    }
}

/// The references of guarded bodies, in order.
pub open spec fn guards_ref_list(gs: Seq<GuardedExprChirho>) -> Seq<Seq<char>>
    decreases gs, 0nat,
{
    if gs.len() == 0 {
        Seq::empty()
    } else {
        guards_ref_list(gs.drop_last()) + expr_ref_list(gs.last().guard_chirho) + expr_ref_list(gs.last().body_chirho)
    }
}

/// The references of record fields, in order.
pub open spec fn fields_ref_list(fs: Seq<FieldChirho>) -> Seq<Seq<char>>
    decreases fs, 0nat,
{
    if fs.len() == 0 {
        Seq::empty()
    } else {
        fields_ref_list(fs.drop_last()) + expr_ref_list(fs.last().value_chirho)
    }
}

/// Appends the references of each of `es`, in order.
fn collect_exprs_refs_chirho(es: &Vec<ExprChirho>, refs_chirho: &mut Vec<String>)
    ensures
        strs(final(refs_chirho)@) == strs(old(refs_chirho)@) + exprs_ref_list(es@),
    decreases es@, 1nat,
{
    let ghost start = strs(refs_chirho@);
    let mut i: usize = 0;
    proof {
        assert(es@.take(0) =~= Seq::<ExprChirho>::empty());
        assert(strs(refs_chirho@) =~= start + exprs_ref_list(es@.take(0)));
    }
    while i < es.len()
        invariant
            i <= es.len(),
            strs(refs_chirho@) == start + exprs_ref_list(es@.take(i as int)),
        decreases es.len() - i,
    {
        proof {
            assert(decreases_to!(es@ => es@[i as int]));
            assert(es@.take(i + 1).drop_last() =~= es@.take(i as int));
            assert(es@.take(i + 1).last() == es@[i as int]);
        }
        collect_expr_refs_chirho(&es[i], refs_chirho);
        proof {
            assert(strs(refs_chirho@) =~= start + exprs_ref_list(es@.take(i + 1)));
        }
        i = i + 1;
    }
    proof {
        assert(es@.take(i as int) =~= es@);
    }
}

/// Appends the references of each statement, in order.
fn collect_stmts_refs_chirho(ss: &Vec<StmtChirho>, refs_chirho: &mut Vec<String>)
    ensures
        strs(final(refs_chirho)@) == strs(old(refs_chirho)@) + stmts_ref_list(ss@),
    decreases ss@, 1nat,
{
    let ghost start = strs(refs_chirho@);
    let mut i: usize = 0;
    proof {
        assert(ss@.take(0) =~= Seq::<StmtChirho>::empty());
        assert(strs(refs_chirho@) =~= start + stmts_ref_list(ss@.take(0)));
    }
    while i < ss.len()
        invariant
            i <= ss.len(),
            strs(refs_chirho@) == start + stmts_ref_list(ss@.take(i as int)),
        decreases ss.len() - i,
    {
        proof {
            assert(decreases_to!(ss@ => ss@[i as int]));
            assert(ss@.take(i + 1).drop_last() =~= ss@.take(i as int));
            assert(ss@.take(i + 1).last() == ss@[i as int]);
        }
        let ghost before = strs(refs_chirho@);
        match &ss[i] {
            StmtChirho::ExprChirho(e) => collect_expr_refs_chirho(e, refs_chirho),
            StmtChirho::BindChirho { expr_chirho } => collect_expr_refs_chirho(expr_chirho, refs_chirho),
            StmtChirho::LetChirho { binds_chirho } => collect_binds_refs_chirho(binds_chirho, refs_chirho),
        }
        proof {
            assert(strs(refs_chirho@) == before + stmt_ref_list(ss@[i as int]));
            assert(strs(refs_chirho@) =~= start + stmts_ref_list(ss@.take(i + 1)));
        }
        i = i + 1;
    }
    proof {
        assert(ss@.take(i as int) =~= ss@);
    }
}

/// Appends the references of each local binding, in order.
fn collect_binds_refs_chirho(bs: &Vec<LocalBindChirho>, refs_chirho: &mut Vec<String>)
    ensures
        strs(final(refs_chirho)@) == strs(old(refs_chirho)@) + binds_ref_list(bs@),
    decreases bs@, 1nat,
{
    let ghost start = strs(refs_chirho@);
    let mut i: usize = 0;
    proof {
        assert(bs@.take(0) =~= Seq::<LocalBindChirho>::empty());
        assert(strs(refs_chirho@) =~= start + binds_ref_list(bs@.take(0)));
    }
    while i < bs.len()
        invariant
            i <= bs.len(),
            strs(refs_chirho@) == start + binds_ref_list(bs@.take(i as int)),
        decreases bs.len() - i,
    {
        proof {
            assert(decreases_to!(bs@ => bs@[i as int]));
            assert(bs@.take(i + 1).drop_last() =~= bs@.take(i as int));
            assert(bs@.take(i + 1).last() == bs@[i as int]);
        }
        collect_local_bind_refs_chirho(&bs[i], refs_chirho);
        proof {
            assert(strs(refs_chirho@) =~= start + binds_ref_list(bs@.take(i + 1)));
        }
        i = i + 1;
    }
    proof {
        assert(bs@.take(i as int) =~= bs@);
    }
}

/// Appends the references of each alternative (its right-hand side, then
/// its `where` bindings), in order.
fn collect_alts_refs_chirho(ms: &Vec<MatchArmChirho>, refs_chirho: &mut Vec<String>)
    ensures
        strs(final(refs_chirho)@) == strs(old(refs_chirho)@) + alts_ref_list(ms@),
    decreases ms@, 1nat,
{
    let ghost start = strs(refs_chirho@);
    let mut i: usize = 0;
    proof {
        assert(ms@.take(0) =~= Seq::<MatchArmChirho>::empty());
        assert(strs(refs_chirho@) =~= start + alts_ref_list(ms@.take(0)));
    }
    while i < ms.len()
        invariant
            i <= ms.len(),
            strs(refs_chirho@) == start + alts_ref_list(ms@.take(i as int)),
        decreases ms.len() - i,
    {
        proof {
            assert(decreases_to!(ms@ => ms@[i as int]));
            assert(ms@.take(i + 1).drop_last() =~= ms@.take(i as int));
            assert(ms@.take(i + 1).last() == ms@[i as int]);
        }
        let ghost before = strs(refs_chirho@);
        collect_rhs_refs_chirho(&ms[i].rhs_chirho, refs_chirho);
        collect_binds_refs_chirho(&ms[i].where_binds_chirho, refs_chirho);
        proof {
            assert(strs(refs_chirho@) =~= before + arm_ref_list(ms@[i as int]));
            assert(strs(refs_chirho@) =~= start + alts_ref_list(ms@.take(i + 1)));
        }
        i = i + 1;
    }
    proof {
        assert(ms@.take(i as int) =~= ms@);
    }
}

/// Appends the references of each field value, in order.
fn collect_fields_refs_chirho(fs: &Vec<FieldChirho>, refs_chirho: &mut Vec<String>)
    ensures
        strs(final(refs_chirho)@) == strs(old(refs_chirho)@) + fields_ref_list(fs@),
    decreases fs@, 1nat,
{
    let ghost start = strs(refs_chirho@);
    let mut i: usize = 0;
    proof {
        assert(fs@.take(0) =~= Seq::<FieldChirho>::empty());
        assert(strs(refs_chirho@) =~= start + fields_ref_list(fs@.take(0)));
    }
    while i < fs.len()
        invariant
            i <= fs.len(),
            strs(refs_chirho@) == start + fields_ref_list(fs@.take(i as int)),
        decreases fs.len() - i,
    {
        proof {
            assert(decreases_to!(fs@ => fs@[i as int]));
            assert(fs@.take(i + 1).drop_last() =~= fs@.take(i as int));
            assert(fs@.take(i + 1).last() == fs@[i as int]);
        }
        collect_expr_refs_chirho(&fs[i].value_chirho, refs_chirho);
        proof {
            assert(strs(refs_chirho@) =~= start + fields_ref_list(fs@.take(i + 1)));
        }
        i = i + 1;
    }
    proof {
        assert(fs@.take(i as int) =~= fs@);
    }
}

/// Appends a name.
fn push_ref_chirho(name_chirho: &String, refs_chirho: &mut Vec<String>)
    ensures
        strs(final(refs_chirho)@) == strs(old(refs_chirho)@).push(name_chirho@),
{
    refs_chirho.push(name_chirho.clone());
    proof {
        assert(strs(refs_chirho@) =~= strs(old(refs_chirho)@).push(name_chirho@));
    }
}

/// Appends the names that an expression refers to, in walk order.
pub fn collect_expr_refs_chirho(expr_chirho: &ExprChirho, refs_chirho: &mut Vec<String>)
    ensures
        strs(final(refs_chirho)@) == strs(old(refs_chirho)@) + expr_ref_list(*expr_chirho),
    decreases expr_chirho, 2nat,
{
    let ghost start = strs(refs_chirho@);
    match expr_chirho {
        ExprChirho::VarChirho(name_chirho) => {
            push_ref_chirho(name_chirho, refs_chirho);
            proof { assert(strs(refs_chirho@) =~= start + seq![name_chirho@]); }
        },
        ExprChirho::AppChirho { fun_chirho, arg_chirho } => {
            collect_expr_refs_chirho(fun_chirho, refs_chirho);
            collect_expr_refs_chirho(arg_chirho, refs_chirho);
            proof { assert(strs(refs_chirho@) =~= start + expr_ref_list(*expr_chirho)); }
        },
        ExprChirho::LamChirho { body_chirho, .. } => {
            collect_expr_refs_chirho(body_chirho, refs_chirho);
        },
        ExprChirho::LetChirho { binds_chirho, body_chirho } => {
            collect_binds_refs_chirho(binds_chirho, refs_chirho);
            collect_expr_refs_chirho(body_chirho, refs_chirho);
            proof { assert(strs(refs_chirho@) =~= start + expr_ref_list(*expr_chirho)); }
        },
        ExprChirho::IfChirho { cond_chirho, then_chirho, else_chirho } => {
            collect_expr_refs_chirho(cond_chirho, refs_chirho);
            collect_expr_refs_chirho(then_chirho, refs_chirho);
            collect_expr_refs_chirho(else_chirho, refs_chirho);
            proof { assert(strs(refs_chirho@) =~= start + expr_ref_list(*expr_chirho)); }
        },
        ExprChirho::CaseChirho { scrutinee_chirho, alts_chirho } => {
            collect_expr_refs_chirho(scrutinee_chirho, refs_chirho);
            collect_alts_refs_chirho(alts_chirho, refs_chirho);
            proof { assert(strs(refs_chirho@) =~= start + expr_ref_list(*expr_chirho)); }
        },
        ExprChirho::DoChirho { stmts_chirho } => {
            collect_stmts_refs_chirho(stmts_chirho, refs_chirho);
        },
        ExprChirho::InfixChirho { left_chirho, op_chirho, right_chirho } => {
            collect_expr_refs_chirho(left_chirho, refs_chirho);
            push_ref_chirho(op_chirho, refs_chirho);
            collect_expr_refs_chirho(right_chirho, refs_chirho);
            proof { assert(strs(refs_chirho@) =~= start + expr_ref_list(*expr_chirho)); }
        },
        ExprChirho::NegChirho { expr_chirho } => collect_expr_refs_chirho(expr_chirho, refs_chirho),
        ExprChirho::TupleChirho { elements_chirho } => collect_exprs_refs_chirho(elements_chirho, refs_chirho),
        ExprChirho::ListChirho { elements_chirho } => collect_exprs_refs_chirho(elements_chirho, refs_chirho),
        ExprChirho::TypeAppChirho { expr_chirho } => collect_expr_refs_chirho(expr_chirho, refs_chirho),
        ExprChirho::ArithSeqChirho { from_chirho, then_chirho, to_chirho } => {
            collect_expr_refs_chirho(from_chirho, refs_chirho);
            let ghost mid = strs(refs_chirho@);
            match then_chirho {
                Some(t_chirho) => collect_expr_refs_chirho(t_chirho, refs_chirho),
                None => {},
            }
            let ghost mid2 = strs(refs_chirho@);
            match to_chirho {
                Some(t_chirho) => collect_expr_refs_chirho(t_chirho, refs_chirho),
                None => {},
            }
            proof {
                assert(mid2 =~= mid + (match then_chirho { Some(t) => expr_ref_list(**t), None => Seq::empty() }));
                assert(strs(refs_chirho@) =~= mid2 + (match to_chirho { Some(t) => expr_ref_list(**t), None => Seq::empty() }));
                assert(strs(refs_chirho@) =~= start + expr_ref_list(*expr_chirho));
            }
        },
        ExprChirho::ListCompChirho { body_chirho, quals_chirho } => {
            collect_expr_refs_chirho(body_chirho, refs_chirho);
            collect_stmts_refs_chirho(quals_chirho, refs_chirho);
            proof { assert(strs(refs_chirho@) =~= start + expr_ref_list(*expr_chirho)); }
        },
        ExprChirho::LeftSectionChirho { op_chirho, arg_chirho } => {
            push_ref_chirho(op_chirho, refs_chirho);
            collect_expr_refs_chirho(arg_chirho, refs_chirho);
            proof { assert(strs(refs_chirho@) =~= start + expr_ref_list(*expr_chirho)); }
        },
        ExprChirho::RightSectionChirho { arg_chirho, op_chirho } => {
            collect_expr_refs_chirho(arg_chirho, refs_chirho);
            push_ref_chirho(op_chirho, refs_chirho);
            proof { assert(strs(refs_chirho@) =~= start + expr_ref_list(*expr_chirho)); }
        },
        ExprChirho::AnnChirho { expr_chirho } => collect_expr_refs_chirho(expr_chirho, refs_chirho),
        ExprChirho::ParenChirho { inner_chirho } => collect_expr_refs_chirho(inner_chirho, refs_chirho),
        ExprChirho::SpliceChirho { expr_chirho } => collect_expr_refs_chirho(expr_chirho, refs_chirho),
        ExprChirho::TypedSpliceChirho { expr_chirho } => collect_expr_refs_chirho(expr_chirho, refs_chirho),
        ExprChirho::QuoteExprChirho { expr_chirho } => collect_expr_refs_chirho(expr_chirho, refs_chirho),
        ExprChirho::RecordConChirho { fields_chirho } => collect_fields_refs_chirho(fields_chirho, refs_chirho),
        ExprChirho::RecordUpdateChirho { expr_chirho: record_chirho, fields_chirho } => {
            collect_expr_refs_chirho(record_chirho, refs_chirho);
            collect_fields_refs_chirho(fields_chirho, refs_chirho);
            proof { assert(strs(refs_chirho@) =~= start + expr_ref_list(*expr_chirho)); }
        },
        _ => {
            proof { assert(strs(refs_chirho@) =~= start + expr_ref_list(*expr_chirho)); }
        },
    }
}

/// Appends the names that a local binding's right-hand sides refer to.
pub fn collect_local_bind_refs_chirho(bind_chirho: &LocalBindChirho, refs_chirho: &mut Vec<String>)
    ensures
        strs(final(refs_chirho)@) == strs(old(refs_chirho)@) + bind_ref_list(*bind_chirho),
    decreases bind_chirho, 2nat,
{
    let ghost start = strs(refs_chirho@);
    match bind_chirho {
        LocalBindChirho::FunBindChirho { matches_chirho } => collect_arms_rhs_refs_chirho(matches_chirho, refs_chirho),
        LocalBindChirho::PatBindChirho { rhs_chirho } => collect_rhs_refs_chirho(rhs_chirho, refs_chirho),
        LocalBindChirho::SignatureChirho => {
            proof { assert(strs(refs_chirho@) =~= start + bind_ref_list(*bind_chirho)); }
        },
    }
}

/// Appends the names that a right-hand side refers to: each guard, then its
/// body.
pub fn collect_rhs_refs_chirho(rhs_chirho: &RhsChirho, refs_chirho: &mut Vec<String>)
    ensures
        strs(final(refs_chirho)@) == strs(old(refs_chirho)@) + rhs_ref_list(*rhs_chirho),
    decreases rhs_chirho, 2nat,
{
    let ghost start = strs(refs_chirho@);
    match rhs_chirho {
        RhsChirho::UnguardedChirho(expr_chirho) => collect_expr_refs_chirho(expr_chirho, refs_chirho),
        RhsChirho::GuardedChirho(arms_chirho) => collect_guards_refs_chirho(arms_chirho, refs_chirho),
    }
}

/// Appends the references of the right-hand sides of equations, in order.
fn collect_arms_rhs_refs_chirho(ms: &Vec<MatchArmChirho>, refs_chirho: &mut Vec<String>)
    ensures
        strs(final(refs_chirho)@) == strs(old(refs_chirho)@) + arms_rhs_ref_list(ms@),
    decreases ms@, 1nat,
{
    let ghost start = strs(refs_chirho@);
    let mut i: usize = 0;
    proof {
        assert(ms@.take(0) =~= Seq::<MatchArmChirho>::empty());
        assert(strs(refs_chirho@) =~= start + arms_rhs_ref_list(ms@.take(0)));
    }
    while i < ms.len()
        invariant
            i <= ms.len(),
            strs(refs_chirho@) == start + arms_rhs_ref_list(ms@.take(i as int)),
        decreases ms.len() - i,
    {
        proof {
            assert(decreases_to!(ms@ => ms@[i as int]));
            assert(ms@.take(i + 1).drop_last() =~= ms@.take(i as int));
            assert(ms@.take(i + 1).last() == ms@[i as int]);
        }
        collect_rhs_refs_chirho(&ms[i].rhs_chirho, refs_chirho);
        proof {
            assert(strs(refs_chirho@) =~= start + arms_rhs_ref_list(ms@.take(i + 1)));
        }
        i = i + 1;
    }
    proof {
        assert(ms@.take(i as int) =~= ms@);
    }
}

/// Appends the references of guarded bodies: each guard, then its body.
fn collect_guards_refs_chirho(gs: &Vec<GuardedExprChirho>, refs_chirho: &mut Vec<String>)
    ensures
        strs(final(refs_chirho)@) == strs(old(refs_chirho)@) + guards_ref_list(gs@),
    decreases gs@, 1nat,
{
    let ghost start = strs(refs_chirho@);
    let mut i: usize = 0;
    proof {
        assert(gs@.take(0) =~= Seq::<GuardedExprChirho>::empty());
        assert(strs(refs_chirho@) =~= start + guards_ref_list(gs@.take(0)));
    }
    while i < gs.len()
        invariant
            i <= gs.len(),
            strs(refs_chirho@) == start + guards_ref_list(gs@.take(i as int)),
        decreases gs.len() - i,
    {
        proof {
            assert(decreases_to!(gs@ => gs@[i as int]));
            assert(gs@.take(i + 1).drop_last() =~= gs@.take(i as int));
            assert(gs@.take(i + 1).last() == gs@[i as int]);
        }
        collect_expr_refs_chirho(&gs[i].guard_chirho, refs_chirho);
        collect_expr_refs_chirho(&gs[i].body_chirho, refs_chirho);
        proof {
            assert(strs(refs_chirho@) =~= start + guards_ref_list(gs@.take(i + 1)));
        }
        i = i + 1;
    }
    proof {
        assert(gs@.take(i as int) =~= gs@);
    }
}

/// The names that the equations of a function refer to: each equation's
/// right-hand side, then its `where` bindings.
pub fn function_refs_chirho(arms_chirho: &Vec<MatchArmChirho>) -> (r: Vec<String>)
    ensures
        strs(r@) == alts_ref_list(arms_chirho@),
{
    let mut refs_chirho: Vec<String> = Vec::new();
    proof {
        assert(strs(refs_chirho@) =~= Seq::<Seq<char>>::empty());
    }
    collect_alts_refs_chirho(arms_chirho, &mut refs_chirho);
    proof {
        assert(Seq::<Seq<char>>::empty() + alts_ref_list(arms_chirho@) =~= alts_ref_list(arms_chirho@));
    }
    refs_chirho
}


/// Whether expression `e` names `n` as a variable or operator, itself or in
/// one of its expression parts: a function or its argument, a lambda's, a
/// `let`'s or a comprehension's body, a condition or either branch, a
/// scrutinee, an operand, an element, or the expression under a negation,
/// annotation, parentheses, splice, quotation or record update.
pub open spec fn mentions(e: ExprChirho, n: Seq<char>) -> bool
    decreases e,
{
    match e {
        ExprChirho::VarChirho(v) => v@ == n,
        ExprChirho::AppChirho { fun_chirho, arg_chirho } => mentions(*fun_chirho, n) || mentions(*arg_chirho, n),
        ExprChirho::LamChirho { body_chirho, .. } => mentions(*body_chirho, n),
        ExprChirho::LetChirho { body_chirho, .. } => mentions(*body_chirho, n),
        ExprChirho::IfChirho { cond_chirho, then_chirho, else_chirho } =>
            mentions(*cond_chirho, n) || mentions(*then_chirho, n) || mentions(*else_chirho, n),
        ExprChirho::CaseChirho { scrutinee_chirho, .. } => mentions(*scrutinee_chirho, n),
        ExprChirho::InfixChirho { left_chirho, op_chirho, right_chirho } =>
            op_chirho@ == n || mentions(*left_chirho, n) || mentions(*right_chirho, n),
        ExprChirho::NegChirho { expr_chirho } => mentions(*expr_chirho, n),
        ExprChirho::TupleChirho { elements_chirho } =>
            exists|i: int| 0 <= i < elements_chirho@.len() && mentions(#[trigger] elements_chirho@[i], n),
        ExprChirho::ListChirho { elements_chirho } =>
            exists|i: int| 0 <= i < elements_chirho@.len() && mentions(#[trigger] elements_chirho@[i], n),
        ExprChirho::TypeAppChirho { expr_chirho } => mentions(*expr_chirho, n),
        ExprChirho::ListCompChirho { body_chirho, .. } => mentions(*body_chirho, n),
        ExprChirho::LeftSectionChirho { op_chirho, arg_chirho } => op_chirho@ == n || mentions(*arg_chirho, n),
        ExprChirho::RightSectionChirho { arg_chirho, op_chirho } => op_chirho@ == n || mentions(*arg_chirho, n),
        ExprChirho::AnnChirho { expr_chirho } => mentions(*expr_chirho, n),
        ExprChirho::ParenChirho { inner_chirho } => mentions(*inner_chirho, n),
        ExprChirho::SpliceChirho { expr_chirho } => mentions(*expr_chirho, n),
        ExprChirho::TypedSpliceChirho { expr_chirho } => mentions(*expr_chirho, n),
        ExprChirho::QuoteExprChirho { expr_chirho } => mentions(*expr_chirho, n),
        ExprChirho::RecordUpdateChirho { expr_chirho, .. } => mentions(*expr_chirho, n),
        _ => false,
    }
}

/// Each element's references are among those of the list.
pub proof fn lemma_exprs_refs_include(es: Seq<ExprChirho>, i: int, n: Seq<char>)
    requires
        0 <= i < es.len(),
        expr_ref_list(es[i]).contains(n),
    ensures
        exprs_ref_list(es).contains(n),
    decreases es.len(),
{
    let k = choose|k: int| 0 <= k < expr_ref_list(es[i]).len() && expr_ref_list(es[i])[k] == n;
    if i == es.len() - 1 {
        let a = exprs_ref_list(es.drop_last());
        assert((a + expr_ref_list(es.last()))[a.len() + k] == n);
    } else {
        assert(es.drop_last()[i] == es[i]);
        lemma_exprs_refs_include(es.drop_last(), i, n);
        let a = exprs_ref_list(es.drop_last());
        let j = choose|j: int| 0 <= j < a.len() && a[j] == n;
        assert((a + expr_ref_list(es.last()))[j] == n);
    }
}

/// Every name an expression mentions is among its references: a variable
/// in any branch, operand, element or body is collected, so a function
/// that mentions another depends on it.
pub proof fn lemma_mentioned_names_are_referenced(e: ExprChirho, n: Seq<char>)
    requires
        mentions(e, n),
    ensures
        expr_ref_list(e).contains(n),
    decreases e,
{
    match e {
        ExprChirho::VarChirho(v) => {
            assert(expr_ref_list(e)[0] == n);
        },
        ExprChirho::AppChirho { fun_chirho, arg_chirho } => {
            if mentions(*fun_chirho, n) {
                lemma_mentioned_names_are_referenced(*fun_chirho, n);
            } else {
                lemma_mentioned_names_are_referenced(*arg_chirho, n);
            }
            lemma_concat_contains(expr_ref_list(*fun_chirho), expr_ref_list(*arg_chirho), n);
        },
        ExprChirho::LamChirho { body_chirho, .. } => lemma_mentioned_names_are_referenced(*body_chirho, n),
        ExprChirho::LetChirho { binds_chirho, body_chirho } => {
            lemma_mentioned_names_are_referenced(*body_chirho, n);
            lemma_concat_contains(binds_ref_list(binds_chirho@), expr_ref_list(*body_chirho), n);
        },
        ExprChirho::IfChirho { cond_chirho, then_chirho, else_chirho } => {
            let c = expr_ref_list(*cond_chirho);
            let t = expr_ref_list(*then_chirho);
            let f = expr_ref_list(*else_chirho);
            if mentions(*cond_chirho, n) {
                lemma_mentioned_names_are_referenced(*cond_chirho, n);
            } else if mentions(*then_chirho, n) {
                lemma_mentioned_names_are_referenced(*then_chirho, n);
            } else {
                lemma_mentioned_names_are_referenced(*else_chirho, n);
            }
            lemma_concat_contains(c, t, n);
            lemma_concat_contains(c + t, f, n);
        },
        ExprChirho::CaseChirho { scrutinee_chirho, alts_chirho } => {
            lemma_mentioned_names_are_referenced(*scrutinee_chirho, n);
            lemma_concat_contains(expr_ref_list(*scrutinee_chirho), alts_ref_list(alts_chirho@), n);
        },
        ExprChirho::InfixChirho { left_chirho, op_chirho, right_chirho } => {
            let l = expr_ref_list(*left_chirho);
            let o = seq![op_chirho@];
            let r = expr_ref_list(*right_chirho);
            if op_chirho@ == n {
                assert(o[0] == n);
            } else if mentions(*left_chirho, n) {
                lemma_mentioned_names_are_referenced(*left_chirho, n);
            } else {
                lemma_mentioned_names_are_referenced(*right_chirho, n);
            }
            lemma_concat_contains(l, o, n);
            lemma_concat_contains(l + o, r, n);
        },
        ExprChirho::NegChirho { expr_chirho } => lemma_mentioned_names_are_referenced(*expr_chirho, n),
        ExprChirho::TupleChirho { elements_chirho } => {
            let i = choose|i: int| 0 <= i < elements_chirho@.len() && mentions(#[trigger] elements_chirho@[i], n);
            lemma_mentioned_names_are_referenced(elements_chirho@[i], n);
            lemma_exprs_refs_include(elements_chirho@, i, n);
        },
        ExprChirho::ListChirho { elements_chirho } => {
            let i = choose|i: int| 0 <= i < elements_chirho@.len() && mentions(#[trigger] elements_chirho@[i], n);
            lemma_mentioned_names_are_referenced(elements_chirho@[i], n);
            lemma_exprs_refs_include(elements_chirho@, i, n);
        },
        ExprChirho::TypeAppChirho { expr_chirho } => lemma_mentioned_names_are_referenced(*expr_chirho, n),
        ExprChirho::ListCompChirho { body_chirho, quals_chirho } => {
            lemma_mentioned_names_are_referenced(*body_chirho, n);
            lemma_concat_contains(expr_ref_list(*body_chirho), stmts_ref_list(quals_chirho@), n);
        },
        ExprChirho::LeftSectionChirho { op_chirho, arg_chirho } => {
            let o = seq![op_chirho@];
            if op_chirho@ == n {
                assert(o[0] == n);
            } else {
                lemma_mentioned_names_are_referenced(*arg_chirho, n);
            }
            lemma_concat_contains(o, expr_ref_list(*arg_chirho), n);
        },
        ExprChirho::RightSectionChirho { arg_chirho, op_chirho } => {
            let o = seq![op_chirho@];
            if op_chirho@ == n {
                assert(o[0] == n);
            } else {
                lemma_mentioned_names_are_referenced(*arg_chirho, n);
            }
            lemma_concat_contains(expr_ref_list(*arg_chirho), o, n);
        },
        ExprChirho::AnnChirho { expr_chirho } => lemma_mentioned_names_are_referenced(*expr_chirho, n),
        ExprChirho::ParenChirho { inner_chirho } => lemma_mentioned_names_are_referenced(*inner_chirho, n),
        ExprChirho::SpliceChirho { expr_chirho } => lemma_mentioned_names_are_referenced(*expr_chirho, n),
        ExprChirho::TypedSpliceChirho { expr_chirho } => lemma_mentioned_names_are_referenced(*expr_chirho, n),
        ExprChirho::QuoteExprChirho { expr_chirho } => lemma_mentioned_names_are_referenced(*expr_chirho, n),
        ExprChirho::RecordUpdateChirho { expr_chirho, fields_chirho } => {
            lemma_mentioned_names_are_referenced(*expr_chirho, n);
            lemma_concat_contains(expr_ref_list(*expr_chirho), fields_ref_list(fields_chirho@), n);
        },
        _ => {},
    }
}

/// A name in either part of a concatenation is in the whole.
pub proof fn lemma_concat_contains(a: Seq<Seq<char>>, b: Seq<Seq<char>>, n: Seq<char>)
    ensures
        a.contains(n) || b.contains(n) ==> (a + b).contains(n),
{
    if a.contains(n) {
        let j = choose|j: int| 0 <= j < a.len() && a[j] == n;
        assert((a + b)[j] == n);
    } else if b.contains(n) {
        let j = choose|j: int| 0 <= j < b.len() && b[j] == n;
        assert((a + b)[a.len() + j] == n);
    }
}

}
