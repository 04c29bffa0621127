use haskelujah_typing_chirho::declarations_chirho::class_contracts_chirho::close_class_scheme_chirho;
use haskelujah_typing_chirho::infer_chirho::InferCtxChirho;
use haskelujah_typing_chirho::type_level_chirho::{
    match_type_pattern_chirho, subst_named_var_chirho, substitute_type_vars_chirho, TypeBindingsChirho,
};
use haskelujah_typing_chirho::ty_chirho::{MultChirho, SchemeChirho, TyChirho, TyVarChirho};

fn var_chirho(n_chirho: u32) -> TyChirho {
    TyChirho::VarChirho(TyVarChirho(n_chirho))
}

#[test]
fn substituting_an_absent_name_keeps_linear_arrows_chirho() {
    let ty_chirho = TyChirho::FunChirho(
        Box::new(TyChirho::int_chirho()),
        Box::new(TyChirho::int_chirho()),
        MultChirho::OneChirho,
    );
    assert_eq!(subst_named_var_chirho(&ty_chirho, "a", &TyChirho::bool_chirho()), ty_chirho);
    let with_name_chirho = TyChirho::FunChirho(
        Box::new(TyChirho::ForallVarChirho("a".to_string())),
        Box::new(TyChirho::int_chirho()),
        MultChirho::OneChirho,
    );
    assert_eq!(
        subst_named_var_chirho(&with_name_chirho, "a", &TyChirho::bool_chirho()),
        TyChirho::FunChirho(Box::new(TyChirho::bool_chirho()), Box::new(TyChirho::int_chirho()), MultChirho::OneChirho)
    );
}

#[test]
fn a_failed_match_keeps_earlier_bindings_and_binds_only_pattern_variables_chirho() {
    let mut bindings_chirho = TypeBindingsChirho::new_chirho();
    bindings_chirho.insert_chirho(TyVarChirho(9), TyChirho::bool_chirho());
    // `(a, Int)` against `(Char, Bool)`: `a` is bound, then `Int` fails.
    let pat_chirho = TyChirho::TupleChirho(vec![var_chirho(1), TyChirho::int_chirho()]);
    let arg_chirho = TyChirho::TupleChirho(vec![TyChirho::char_chirho(), TyChirho::bool_chirho()]);
    assert!(!match_type_pattern_chirho(&pat_chirho, &arg_chirho, &mut bindings_chirho));
    assert_eq!(bindings_chirho.get_chirho(TyVarChirho(9)), Some(&TyChirho::bool_chirho()));
    assert_eq!(bindings_chirho.get_chirho(TyVarChirho(1)), Some(&TyChirho::char_chirho()));
    assert_eq!(bindings_chirho.get_chirho(TyVarChirho(2)), None);
}

#[test]
fn substituting_unbound_variables_changes_nothing_chirho() {
    let bindings_chirho = TypeBindingsChirho::new_chirho();
    let ty_chirho = TyChirho::fun_chirho(
        TyChirho::ListChirho(Box::new(var_chirho(3))),
        TyChirho::TupleChirho(vec![var_chirho(4), TyChirho::int_chirho()]),
    );
    assert_eq!(substitute_type_vars_chirho(&ty_chirho, &bindings_chirho), ty_chirho);
}

#[test]
fn closing_a_class_scheme_twice_is_closing_it_once_chirho() {
    let scheme_chirho = SchemeChirho {
        vars_chirho: vec![TyVarChirho(5), TyVarChirho(1), TyVarChirho(5), TyVarChirho(7)],
        preds_chirho: vec![],
        ty_chirho: TyChirho::fun_chirho(var_chirho(1), var_chirho(7)),
    };
    let parameters_chirho = [TyVarChirho(1), TyVarChirho(2)];
    let once_chirho = close_class_scheme_chirho(scheme_chirho, &parameters_chirho);
    assert_eq!(
        once_chirho.vars_chirho,
        vec![TyVarChirho(1), TyVarChirho(2), TyVarChirho(5), TyVarChirho(7)]
    );
    let twice_chirho = close_class_scheme_chirho(once_chirho.clone(), &parameters_chirho);
    assert_eq!(twice_chirho, once_chirho);
}

#[test]
fn every_builtin_scheme_is_closed_chirho() {
    let ctx_chirho = InferCtxChirho::new_chirho();
    for name_chirho in ["map", "foldr", "+", "==", "show", "mapM_", "return", ">>=", "fromIntegral", "zip"] {
        if let Some(scheme_chirho) = ctx_chirho.env_chirho.lookup_chirho(name_chirho) {
            let mut vars_chirho = scheme_chirho.ty_chirho.free_vars_chirho();
            for pred_chirho in &scheme_chirho.preds_chirho {
                vars_chirho.extend(pred_chirho.ty_chirho.free_vars_chirho());
            }
            for v_chirho in vars_chirho {
                assert!(scheme_chirho.vars_chirho.contains(&v_chirho), "{name_chirho}");
            }
        }
    }
}
