use haskelujah_typing_chirho::expr_refs_chirho::{ExprChirho, GuardedExprChirho, LocalBindChirho, MatchArmChirho, RhsChirho};
use haskelujah_typing_chirho::infer_chirho::{InferCtxChirho, LitChirho, SpanChirho};
use haskelujah_typing_chirho::infer_expr_chirho::DiagnosticKindChirho;
use haskelujah_typing_chirho::patterns_chirho::PatChirho;
use haskelujah_typing_chirho::surface_types_chirho::NameChirho;
use haskelujah_typing_chirho::ty_chirho::{TyChirho, TyVarChirho};

fn var_pat_chirho(text_chirho: &str) -> PatChirho {
    PatChirho::VarChirho(NameChirho { text_chirho: text_chirho.to_string(), full_name_chirho: text_chirho.to_string() })
}

fn arm_chirho(pats_chirho: Vec<PatChirho>, body_chirho: ExprChirho) -> MatchArmChirho {
    MatchArmChirho { pats_chirho, rhs_chirho: RhsChirho::UnguardedChirho(body_chirho), where_binds_chirho: Vec::new() }
}

fn span_chirho() -> SpanChirho {
    SpanChirho::dummy_chirho()
}

#[test]
fn equation_identity_has_a_to_a_chirho() {
    let mut ctx_chirho = InferCtxChirho::new_chirho();
    // f x = x
    let arms_chirho = vec![arm_chirho(vec![var_pat_chirho("x")], ExprChirho::VarChirho("x".to_string()))];
    let (s_chirho, t_chirho) = ctx_chirho.infer_matches_chirho(&arms_chirho, span_chirho());
    match s_chirho.apply_ty_chirho(&t_chirho) {
        TyChirho::FunChirho(a_chirho, r_chirho, _) => assert_eq!(a_chirho, r_chirho),
        other_chirho => panic!("expected a function type, got {other_chirho:?}"),
    }
    assert!(ctx_chirho.env_chirho.lookup_chirho("x").is_none());
    assert!(ctx_chirho.scope_stack_chirho.is_empty());
}

#[test]
fn equations_share_parameter_and_result_types_chirho() {
    let mut ctx_chirho = InferCtxChirho::new_chirho();
    let first_chirho = ctx_chirho.next_var_chirho;
    // f x = 1; f y = 2
    let arms_chirho = vec![
        arm_chirho(vec![var_pat_chirho("x")], ExprChirho::LitChirho(LitChirho::IntChirho)),
        arm_chirho(vec![var_pat_chirho("y")], ExprChirho::LitChirho(LitChirho::IntChirho)),
    ];
    let (s_chirho, t_chirho) = ctx_chirho.infer_matches_chirho(&arms_chirho, span_chirho());
    assert_eq!(
        s_chirho.apply_ty_chirho(&t_chirho),
        TyChirho::fun_chirho(TyChirho::VarChirho(TyVarChirho(first_chirho)), TyChirho::int_chirho())
    );
    assert!(ctx_chirho.finish_chirho().diagnostics_chirho.is_empty());
}

#[test]
fn equations_with_different_result_types_report_a_mismatch_chirho() {
    let mut ctx_chirho = InferCtxChirho::new_chirho();
    // f x = 1; f y = True
    let arms_chirho = vec![
        arm_chirho(vec![var_pat_chirho("x")], ExprChirho::LitChirho(LitChirho::IntChirho)),
        arm_chirho(vec![var_pat_chirho("y")], ExprChirho::ConChirho("True".to_string())),
    ];
    let _ = ctx_chirho.infer_matches_chirho(&arms_chirho, span_chirho());
    let result_chirho = ctx_chirho.finish_chirho();
    assert_eq!(result_chirho.diagnostics_chirho.len(), 1);
    assert_eq!(result_chirho.diagnostics_chirho[0].kind_chirho, DiagnosticKindChirho::TypeMismatchChirho);
}

#[test]
fn no_equations_give_a_fresh_variable_chirho() {
    let mut ctx_chirho = InferCtxChirho::new_chirho();
    let first_chirho = ctx_chirho.next_var_chirho;
    let (_s_chirho, t_chirho) = ctx_chirho.infer_matches_chirho(&[], span_chirho());
    assert_eq!(t_chirho, TyChirho::VarChirho(TyVarChirho(first_chirho)));
    assert_eq!(ctx_chirho.next_var_chirho, first_chirho + 1);
}

#[test]
fn guarded_right_hand_side_takes_its_first_body_chirho() {
    let mut ctx_chirho = InferCtxChirho::new_chirho();
    let rhs_chirho = RhsChirho::GuardedChirho(vec![
        GuardedExprChirho { guard_chirho: ExprChirho::ConChirho("True".to_string()), body_chirho: ExprChirho::LitChirho(LitChirho::CharChirho) },
        GuardedExprChirho { guard_chirho: ExprChirho::ConChirho("True".to_string()), body_chirho: ExprChirho::LitChirho(LitChirho::IntChirho) },
    ]);
    let (_s_chirho, t_chirho) = ctx_chirho.infer_rhs_chirho(&rhs_chirho);
    assert_eq!(t_chirho, TyChirho::char_chirho());
}

#[test]
fn where_bindings_are_reported_as_not_covered_chirho() {
    let mut ctx_chirho = InferCtxChirho::new_chirho();
    let arms_chirho = vec![MatchArmChirho {
        pats_chirho: Vec::new(),
        rhs_chirho: RhsChirho::UnguardedChirho(ExprChirho::LitChirho(LitChirho::IntChirho)),
        where_binds_chirho: vec![LocalBindChirho::SignatureChirho],
    }];
    let (s_chirho, t_chirho) = ctx_chirho.infer_matches_chirho(&arms_chirho, span_chirho());
    assert_eq!(s_chirho.apply_ty_chirho(&t_chirho), TyChirho::int_chirho());
    let result_chirho = ctx_chirho.finish_chirho();
    assert_eq!(result_chirho.diagnostics_chirho.len(), 1);
    assert_eq!(result_chirho.diagnostics_chirho[0].kind_chirho, DiagnosticKindChirho::UnsupportedExpressionChirho);
}

fn case_chirho(scrutinee_chirho: ExprChirho, alts_chirho: Vec<(PatChirho, ExprChirho)>) -> ExprChirho {
    ExprChirho::CaseChirho {
        scrutinee_chirho: Box::new(scrutinee_chirho),
        alts_chirho: alts_chirho.into_iter().map(|(p_chirho, e_chirho)| arm_chirho(vec![p_chirho], e_chirho)).collect(),
    }
}

#[test]
fn case_binds_its_pattern_at_the_scrutinee_type_chirho() {
    let mut ctx_chirho = InferCtxChirho::new_chirho();
    // case 1 of x -> x
    let expr_chirho = case_chirho(
        ExprChirho::LitChirho(LitChirho::IntChirho),
        vec![(var_pat_chirho("x"), ExprChirho::VarChirho("x".to_string()))],
    );
    let (s_chirho, t_chirho) = ctx_chirho.infer_expr_chirho(&expr_chirho);
    assert_eq!(s_chirho.apply_ty_chirho(&t_chirho), TyChirho::int_chirho());
    assert!(ctx_chirho.env_chirho.lookup_chirho("x").is_none());
    assert!(ctx_chirho.scope_stack_chirho.is_empty());
    assert!(ctx_chirho.finish_chirho().diagnostics_chirho.is_empty());
}

#[test]
fn case_alternatives_share_the_result_type_chirho() {
    let mut ctx_chirho = InferCtxChirho::new_chirho();
    // case True of { x -> 'c'; y -> 'd' }
    let expr_chirho = case_chirho(
        ExprChirho::ConChirho("True".to_string()),
        vec![
            (var_pat_chirho("x"), ExprChirho::LitChirho(LitChirho::CharChirho)),
            (var_pat_chirho("y"), ExprChirho::LitChirho(LitChirho::CharChirho)),
        ],
    );
    let (s_chirho, t_chirho) = ctx_chirho.infer_expr_chirho(&expr_chirho);
    assert_eq!(s_chirho.apply_ty_chirho(&t_chirho), TyChirho::char_chirho());
    assert!(ctx_chirho.finish_chirho().diagnostics_chirho.is_empty());
}

#[test]
fn case_alternatives_of_different_types_report_a_mismatch_chirho() {
    let mut ctx_chirho = InferCtxChirho::new_chirho();
    // case True of { x -> 'c'; y -> 1 }
    let expr_chirho = case_chirho(
        ExprChirho::ConChirho("True".to_string()),
        vec![
            (var_pat_chirho("x"), ExprChirho::LitChirho(LitChirho::CharChirho)),
            (var_pat_chirho("y"), ExprChirho::LitChirho(LitChirho::IntChirho)),
        ],
    );
    let _ = ctx_chirho.infer_expr_chirho(&expr_chirho);
    let result_chirho = ctx_chirho.finish_chirho();
    assert_eq!(result_chirho.diagnostics_chirho.len(), 1);
    assert_eq!(result_chirho.diagnostics_chirho[0].kind_chirho, DiagnosticKindChirho::TypeMismatchChirho);
}
