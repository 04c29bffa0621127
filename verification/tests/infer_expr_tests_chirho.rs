use haskelujah_typing_chirho::expr_refs_chirho::ExprChirho;
use haskelujah_typing_chirho::infer_chirho::{InferCtxChirho, LitChirho};
use haskelujah_typing_chirho::infer_expr_chirho::DiagnosticKindChirho;
use haskelujah_typing_chirho::patterns_chirho::PatChirho;
use haskelujah_typing_chirho::surface_types_chirho::NameChirho;
use haskelujah_typing_chirho::ty_chirho::{TyChirho, TyVarChirho};

fn name_chirho(text_chirho: &str) -> NameChirho {
    NameChirho { text_chirho: text_chirho.to_string(), full_name_chirho: text_chirho.to_string() }
}

fn int_lit_chirho() -> ExprChirho {
    ExprChirho::LitChirho(LitChirho::IntChirho)
}

#[test]
fn infer_literal_int_chirho() {
    let mut ctx_chirho = InferCtxChirho::new_chirho();
    let expr_chirho = int_lit_chirho();
    let (_s_chirho, ty_chirho) = ctx_chirho.infer_expr_chirho(&expr_chirho);
    assert_eq!(ty_chirho, TyChirho::int_chirho());
}

#[test]
fn infer_literal_string_chirho() {
    let mut ctx_chirho = InferCtxChirho::new_chirho();
    let expr_chirho = ExprChirho::LitChirho(LitChirho::StringChirho);
    let (_s_chirho, ty_chirho) = ctx_chirho.infer_expr_chirho(&expr_chirho);
    assert_eq!(ty_chirho, TyChirho::string_chirho());
}

#[test]
fn infer_identity_function_chirho() {
    let mut ctx_chirho = InferCtxChirho::new_chirho();
    // \x -> x
    let expr_chirho = ExprChirho::LamChirho {
        pats_chirho: vec![PatChirho::VarChirho(name_chirho("x"))],
        body_chirho: Box::new(ExprChirho::VarChirho("x".to_string())),
    };
    let (subst_chirho, ty_chirho) = ctx_chirho.infer_expr_chirho(&expr_chirho);
    let final_ty_chirho = subst_chirho.apply_ty_chirho(&ty_chirho);
    match &final_ty_chirho {
        TyChirho::FunChirho(arg_chirho, result_chirho, _) => {
            assert_eq!(arg_chirho, result_chirho, "identity should have a -> a");
        }
        other_chirho => panic!("expected function type, got {other_chirho:?}"),
    }
}

#[test]
fn infer_application_chirho() {
    let mut ctx_chirho = InferCtxChirho::new_chirho();
    // not True
    let expr_chirho = ExprChirho::AppChirho {
        fun_chirho: Box::new(ExprChirho::VarChirho("not".to_string())),
        arg_chirho: Box::new(ExprChirho::ConChirho("True".to_string())),
    };
    let (subst_chirho, ty_chirho) = ctx_chirho.infer_expr_chirho(&expr_chirho);
    let final_ty_chirho = subst_chirho.apply_ty_chirho(&ty_chirho);
    assert_eq!(final_ty_chirho, TyChirho::bool_chirho());
}

#[test]
fn infer_if_expression_chirho() {
    let mut ctx_chirho = InferCtxChirho::new_chirho();
    // if True then 1 else 2
    let expr_chirho = ExprChirho::IfChirho {
        cond_chirho: Box::new(ExprChirho::ConChirho("True".to_string())),
        then_chirho: Box::new(int_lit_chirho()),
        else_chirho: Box::new(int_lit_chirho()),
    };
    let (subst_chirho, ty_chirho) = ctx_chirho.infer_expr_chirho(&expr_chirho);
    let final_ty_chirho = subst_chirho.apply_ty_chirho(&ty_chirho);
    assert_eq!(final_ty_chirho, TyChirho::int_chirho());
}

#[test]
fn infer_type_mismatch_chirho() {
    let mut ctx_chirho = InferCtxChirho::new_chirho();
    // if 42 then 1 else 2  (condition is Int, not Bool)
    let expr_chirho = ExprChirho::IfChirho {
        cond_chirho: Box::new(int_lit_chirho()),
        then_chirho: Box::new(int_lit_chirho()),
        else_chirho: Box::new(int_lit_chirho()),
    };
    let _ = ctx_chirho.infer_expr_chirho(&expr_chirho);
    let result_chirho = ctx_chirho.finish_chirho();
    assert!(
        result_chirho.diagnostics_chirho.iter().any(|d_chirho| d_chirho.kind_chirho == DiagnosticKindChirho::TypeMismatchChirho),
        "should report type mismatch for Int condition"
    );
}

#[test]
fn infer_tuple_chirho() {
    let mut ctx_chirho = InferCtxChirho::new_chirho();
    // (1, True)
    let expr_chirho = ExprChirho::TupleChirho {
        elements_chirho: vec![int_lit_chirho(), ExprChirho::ConChirho("True".to_string())],
    };
    let (subst_chirho, ty_chirho) = ctx_chirho.infer_expr_chirho(&expr_chirho);
    let final_ty_chirho = subst_chirho.apply_ty_chirho(&ty_chirho);
    assert_eq!(final_ty_chirho, TyChirho::TupleChirho(vec![TyChirho::int_chirho(), TyChirho::bool_chirho()]));
}

#[test]
fn infer_list_chirho() {
    let mut ctx_chirho = InferCtxChirho::new_chirho();
    // [1, 2, 3]
    let expr_chirho = ExprChirho::ListChirho { elements_chirho: vec![int_lit_chirho(), int_lit_chirho(), int_lit_chirho()] };
    let (subst_chirho, ty_chirho) = ctx_chirho.infer_expr_chirho(&expr_chirho);
    let final_ty_chirho = subst_chirho.apply_ty_chirho(&ty_chirho);
    assert_eq!(final_ty_chirho, TyChirho::ListChirho(Box::new(TyChirho::int_chirho())));
}

#[test]
fn mixed_list_reports_one_mismatch_and_keeps_the_first_element_type_chirho() {
    let mut ctx_chirho = InferCtxChirho::new_chirho();
    // [1, True]
    let expr_chirho = ExprChirho::ListChirho {
        elements_chirho: vec![int_lit_chirho(), ExprChirho::ConChirho("True".to_string())],
    };
    let (subst_chirho, ty_chirho) = ctx_chirho.infer_expr_chirho(&expr_chirho);
    assert_eq!(subst_chirho.apply_ty_chirho(&ty_chirho), TyChirho::ListChirho(Box::new(TyChirho::int_chirho())));
    let result_chirho = ctx_chirho.finish_chirho();
    assert_eq!(result_chirho.diagnostics_chirho.len(), 1);
    assert_eq!(result_chirho.diagnostics_chirho[0].kind_chirho, DiagnosticKindChirho::TypeMismatchChirho);
    assert_eq!(result_chirho.diagnostics_chirho[0].types_chirho.len(), 2);
}

#[test]
fn unbound_variable_is_reported_and_gets_a_fresh_variable_chirho() {
    let mut ctx_chirho = InferCtxChirho::new_chirho();
    let before_chirho = ctx_chirho.next_var_chirho;
    let (_s_chirho, ty_chirho) = ctx_chirho.infer_expr_chirho(&ExprChirho::VarChirho("nowhere".to_string()));
    assert_eq!(ty_chirho, TyChirho::VarChirho(TyVarChirho(before_chirho)));
    assert_eq!(ctx_chirho.next_var_chirho, before_chirho + 1);
    let result_chirho = ctx_chirho.finish_chirho();
    assert_eq!(result_chirho.diagnostics_chirho.len(), 1);
    assert_eq!(result_chirho.diagnostics_chirho[0].kind_chirho, DiagnosticKindChirho::UnboundVariableChirho);
    assert_eq!(result_chirho.diagnostics_chirho[0].name_chirho, "nowhere");
}

#[test]
fn hole_is_warned_about_not_reported_unbound_chirho() {
    let mut ctx_chirho = InferCtxChirho::new_chirho();
    let _ = ctx_chirho.infer_expr_chirho(&ExprChirho::VarChirho("_gap".to_string()));
    let result_chirho = ctx_chirho.finish_chirho();
    assert_eq!(result_chirho.diagnostics_chirho.len(), 1);
    assert_eq!(result_chirho.diagnostics_chirho[0].kind_chirho, DiagnosticKindChirho::HoleChirho);
}

#[test]
fn negation_defers_num_on_its_operand_chirho() {
    let mut ctx_chirho = InferCtxChirho::new_chirho();
    let before_chirho = ctx_chirho.deferred_preds_chirho.len();
    let expr_chirho = ExprChirho::NegChirho { expr_chirho: Box::new(int_lit_chirho()) };
    let (_s_chirho, ty_chirho) = ctx_chirho.infer_expr_chirho(&expr_chirho);
    assert_eq!(ty_chirho, TyChirho::int_chirho());
    assert_eq!(ctx_chirho.deferred_preds_chirho.len(), before_chirho + 1);
    let last_chirho = &ctx_chirho.deferred_preds_chirho[before_chirho].0;
    assert_eq!(last_chirho.class_name_chirho, "Num");
    assert_eq!(last_chirho.ty_chirho, TyChirho::int_chirho());
}

#[test]
fn lambda_parameters_do_not_escape_their_scope_chirho() {
    let mut ctx_chirho = InferCtxChirho::new_chirho();
    let expr_chirho = ExprChirho::LamChirho {
        pats_chirho: vec![PatChirho::VarChirho(name_chirho("zz_param"))],
        body_chirho: Box::new(ExprChirho::VarChirho("zz_param".to_string())),
    };
    let _ = ctx_chirho.infer_expr_chirho(&expr_chirho);
    assert!(ctx_chirho.env_chirho.lookup_chirho("zz_param").is_none());
    assert!(ctx_chirho.scope_stack_chirho.is_empty());
    let result_chirho = ctx_chirho.finish_chirho();
    assert!(result_chirho.diagnostics_chirho.is_empty());
}

#[test]
fn constant_function_takes_two_independent_parameters_chirho() {
    let mut ctx_chirho = InferCtxChirho::new_chirho();
    // \x y -> x
    let expr_chirho = ExprChirho::LamChirho {
        pats_chirho: vec![PatChirho::VarChirho(name_chirho("x")), PatChirho::VarChirho(name_chirho("y"))],
        body_chirho: Box::new(ExprChirho::VarChirho("x".to_string())),
    };
    let (subst_chirho, ty_chirho) = ctx_chirho.infer_expr_chirho(&expr_chirho);
    match subst_chirho.apply_ty_chirho(&ty_chirho) {
        TyChirho::FunChirho(a_chirho, rest_chirho, _) => match *rest_chirho {
            TyChirho::FunChirho(b_chirho, r_chirho, _) => {
                assert_eq!(a_chirho, r_chirho);
                assert_ne!(a_chirho, b_chirho);
            }
            other_chirho => panic!("expected a second arrow, got {other_chirho:?}"),
        },
        other_chirho => panic!("expected a function type, got {other_chirho:?}"),
    }
}

#[test]
fn infix_operator_is_applied_to_both_operands_chirho() {
    let mut ctx_chirho = InferCtxChirho::new_chirho();
    // 1 + 2
    let expr_chirho = ExprChirho::InfixChirho {
        left_chirho: Box::new(int_lit_chirho()),
        op_chirho: "+".to_string(),
        right_chirho: Box::new(int_lit_chirho()),
    };
    let (subst_chirho, ty_chirho) = ctx_chirho.infer_expr_chirho(&expr_chirho);
    assert_eq!(subst_chirho.apply_ty_chirho(&ty_chirho), TyChirho::int_chirho());
    assert!(ctx_chirho.finish_chirho().diagnostics_chirho.is_empty());
}

#[test]
fn unknown_infix_operator_degrades_to_a_fresh_type_chirho() {
    let mut ctx_chirho = InferCtxChirho::new_chirho();
    let expr_chirho = ExprChirho::InfixChirho {
        left_chirho: Box::new(int_lit_chirho()),
        op_chirho: "<+++>".to_string(),
        right_chirho: Box::new(int_lit_chirho()),
    };
    let (subst_chirho, ty_chirho) = ctx_chirho.infer_expr_chirho(&expr_chirho);
    assert!(matches!(subst_chirho.apply_ty_chirho(&ty_chirho), TyChirho::VarChirho(_)));
    assert!(ctx_chirho.finish_chirho().diagnostics_chirho.is_empty());
}
