use haskelujah_typing_chirho::infer_chirho::{InferCtxChirho, SpanChirho};
use haskelujah_typing_chirho::ty_chirho::{MultChirho, PredChirho, SchemeChirho, SchemePredChirho, TyChirho, TyVarChirho};

fn var_chirho(n_chirho: u32) -> TyChirho {
    TyChirho::VarChirho(TyVarChirho(n_chirho))
}

#[test]
fn type_family_registration_and_reduction_chirho() {
    let mut ctx_chirho = InferCtxChirho::new_chirho();
    // Register a closed type family: F Int = Bool, F Char = Int
    ctx_chirho.register_type_family_chirho(
        "F".to_string(),
        vec![
            (vec![TyChirho::int_chirho()], TyChirho::bool_chirho()),
            (vec![TyChirho::char_chirho()], TyChirho::int_chirho()),
        ],
    );
    // Reduce F Int → Bool
    let result_chirho = ctx_chirho.reduce_type_family_chirho("F", &[TyChirho::int_chirho()]);
    assert_eq!(result_chirho, Some(TyChirho::bool_chirho()), "F Int should reduce to Bool");
    // Reduce F Char → Int
    let result2_chirho = ctx_chirho.reduce_type_family_chirho("F", &[TyChirho::char_chirho()]);
    assert_eq!(result2_chirho, Some(TyChirho::int_chirho()), "F Char should reduce to Int");
    // F String should not reduce (stuck)
    let result3_chirho = ctx_chirho.reduce_type_family_chirho("F", &[TyChirho::string_chirho()]);
    assert_eq!(result3_chirho, None, "F String should be stuck (no matching equation)");
}

#[test]
fn type_family_instance_registration_chirho() {
    let mut ctx_chirho = InferCtxChirho::new_chirho();
    // Register open type family F
    ctx_chirho.register_type_family_chirho("F".to_string(), vec![]);
    // Add instance: F Int = Bool
    ctx_chirho.register_type_family_instance_chirho(
        "F".to_string(),
        vec![TyChirho::int_chirho()],
        TyChirho::bool_chirho(),
    );
    let result_chirho = ctx_chirho.reduce_type_family_chirho("F", &[TyChirho::int_chirho()]);
    assert_eq!(result_chirho, Some(TyChirho::bool_chirho()), "open F Int should reduce to Bool");
}

#[test]
fn type_family_nonexistent_chirho() {
    let ctx_chirho = InferCtxChirho::new_chirho();
    let result_chirho = ctx_chirho.reduce_type_family_chirho("NoSuchFamily", &[TyChirho::int_chirho()]);
    assert_eq!(result_chirho, None, "unregistered family should return None");
}

#[test]
fn synonym_substitution_is_simultaneous_and_preserves_linear_arrows_chirho() {
    let mut context_chirho = InferCtxChirho::new_chirho();
    context_chirho.register_type_synonym_chirho(
        "LinearPairChirho".into(),
        vec!["leftChirho".into(), "rightChirho".into()],
        TyChirho::FunChirho(
            Box::new(TyChirho::ForallVarChirho("leftChirho".into())),
            Box::new(TyChirho::ForallVarChirho("rightChirho".into())),
            MultChirho::OneChirho,
        ),
    );
    let caller_chirho = TyChirho::ForallVarChirho("rightChirho".into());
    let application_chirho = TyChirho::AppChirho(
        Box::new(TyChirho::AppChirho(
            Box::new(TyChirho::ConChirho("LinearPairChirho".into())),
            Box::new(caller_chirho.clone()),
        )),
        Box::new(TyChirho::int_chirho()),
    );
    assert_eq!(
        context_chirho.expand_type_synonyms_chirho(&application_chirho),
        TyChirho::FunChirho(
            Box::new(caller_chirho),
            Box::new(TyChirho::int_chirho()),
            MultChirho::OneChirho,
        ),
    );
}

#[test]
fn later_family_equations_apply_only_where_earlier_ones_do_not_chirho() {
    let mut ctx_chirho = InferCtxChirho::new_chirho();
    ctx_chirho.register_type_family_chirho(
        "G".to_string(),
        vec![(vec![TyChirho::int_chirho()], TyChirho::bool_chirho())],
    );
    // A catch-all instance registered later does not override `G Int`.
    ctx_chirho.register_type_family_instance_chirho("G".to_string(), vec![var_chirho(7)], TyChirho::ListChirho(Box::new(var_chirho(7))));
    assert_eq!(
        ctx_chirho.reduce_type_family_chirho("G", &[TyChirho::int_chirho()]),
        Some(TyChirho::bool_chirho())
    );
    assert_eq!(
        ctx_chirho.reduce_type_family_chirho("G", &[TyChirho::char_chirho()]),
        Some(TyChirho::ListChirho(Box::new(TyChirho::char_chirho())))
    );
    // Arity must agree.
    assert_eq!(
        ctx_chirho.reduce_type_family_chirho("G", &[TyChirho::char_chirho(), TyChirho::int_chirho()]),
        None
    );
}

#[test]
fn family_reduction_inside_types_chirho() {
    let mut ctx_chirho = InferCtxChirho::new_chirho();
    let untouched_chirho = TyChirho::AppChirho(Box::new(TyChirho::ConChirho("F".into())), Box::new(TyChirho::int_chirho()));
    // With no family registered, nothing changes.
    assert_eq!(ctx_chirho.reduce_type_families_in_ty_chirho(&untouched_chirho), untouched_chirho);
    ctx_chirho.register_type_family_chirho(
        "F".to_string(),
        vec![(vec![TyChirho::int_chirho()], TyChirho::bool_chirho())],
    );
    ctx_chirho.register_type_family_chirho("Unit".to_string(), vec![(vec![], TyChirho::unit_chirho())]);
    let ty_chirho = TyChirho::fun_chirho(
        TyChirho::ListChirho(Box::new(untouched_chirho.clone())),
        TyChirho::ConChirho("Unit".into()),
    );
    assert_eq!(
        ctx_chirho.reduce_type_families_in_ty_chirho(&ty_chirho),
        TyChirho::fun_chirho(TyChirho::ListChirho(Box::new(TyChirho::bool_chirho())), TyChirho::unit_chirho())
    );
    // A stuck application is rebuilt with its arguments reduced.
    let stuck_chirho = TyChirho::AppChirho(
        Box::new(TyChirho::ConChirho("F".into())),
        Box::new(TyChirho::AppChirho(Box::new(TyChirho::ConChirho("F".into())), Box::new(TyChirho::int_chirho()))),
    );
    assert_eq!(
        ctx_chirho.reduce_type_families_in_ty_chirho(&stuck_chirho),
        TyChirho::AppChirho(Box::new(TyChirho::ConChirho("F".into())), Box::new(TyChirho::bool_chirho()))
    );
}

#[test]
fn builtin_synonyms_expand_chirho() {
    let ctx_chirho = InferCtxChirho::new_chirho();
    assert_eq!(
        ctx_chirho.expand_type_synonyms_chirho(&TyChirho::ConChirho("ShowS".into())),
        TyChirho::fun_chirho(TyChirho::string_chirho(), TyChirho::string_chirho())
    );
    assert_eq!(
        ctx_chirho.expand_type_synonyms_chirho(&TyChirho::ListChirho(Box::new(TyChirho::ConChirho("String".into())))),
        TyChirho::ListChirho(Box::new(TyChirho::string_chirho()))
    );
}

#[test]
fn class_env_is_seeded_with_the_standard_hierarchy_chirho() {
    let ctx_chirho = InferCtxChirho::new_chirho();
    for class_chirho in ["Eq", "Ord", "Show", "Num", "Functor", "Monad", "Traversable"] {
        assert!(ctx_chirho.class_env_chirho.contains_class_chirho(class_chirho));
    }
    assert!(ctx_chirho.class_env_chirho.is_transitive_superclass_chirho("Eq", "Ord"));
    assert!(ctx_chirho.class_env_chirho.is_transitive_superclass_chirho("Eq", "Integral"));
    assert!(ctx_chirho.class_env_chirho.is_transitive_superclass_chirho("Functor", "Monad"));
    assert!(!ctx_chirho.class_env_chirho.is_transitive_superclass_chirho("Ord", "Eq"));
    assert!(!ctx_chirho.class_env_chirho.is_transitive_superclass_chirho("Eq", "Eq"));
}

#[test]
fn builtin_environment_has_prelude_schemes_chirho() {
    let ctx_chirho = InferCtxChirho::new_chirho();
    assert_eq!(
        ctx_chirho.env_chirho.lookup_chirho("not").unwrap().ty_chirho,
        TyChirho::fun_chirho(TyChirho::bool_chirho(), TyChirho::bool_chirho())
    );
    let plus_chirho = ctx_chirho.env_chirho.lookup_chirho("+").unwrap();
    assert_eq!(plus_chirho.vars_chirho, vec![TyVarChirho(1100)]);
    assert_eq!(plus_chirho.preds_chirho[0].class_name_chirho, "Num");
    assert_eq!(
        plus_chirho.ty_chirho,
        TyChirho::fun_chirho(var_chirho(1100), TyChirho::fun_chirho(var_chirho(1100), var_chirho(1100)))
    );
    assert!(ctx_chirho.env_chirho.lookup_chirho("mapAccumR").is_some());
    assert!(ctx_chirho.env_chirho.lookup_chirho("stderr").is_some());
    assert!(ctx_chirho.env_chirho.lookup_chirho("noSuchBuiltinChirho").is_none());
}

#[test]
fn fresh_variables_count_up_chirho() {
    let mut ctx_chirho = InferCtxChirho::new_chirho();
    assert_eq!(ctx_chirho.fresh_var_chirho(), var_chirho(0));
    assert_eq!(ctx_chirho.fresh_var_chirho(), var_chirho(1));
    assert_eq!(ctx_chirho.next_var_chirho, 2);
}

#[test]
fn instantiation_renames_quantified_variables_and_defers_predicates_chirho() {
    let mut ctx_chirho = InferCtxChirho::new_chirho();
    ctx_chirho.next_var_chirho = 10;
    let scheme_chirho = SchemeChirho {
        vars_chirho: vec![TyVarChirho(1), TyVarChirho(2)],
        preds_chirho: vec![SchemePredChirho {
            class_name_chirho: "Eq".into(),
            ty_chirho: var_chirho(1),
        }],
        ty_chirho: TyChirho::fun_chirho(var_chirho(1), TyChirho::fun_chirho(var_chirho(2), var_chirho(3))),
    };
    let span_chirho = SpanChirho { start_chirho: 4, end_chirho: 9 };
    let ty_chirho = ctx_chirho.instantiate_chirho(&scheme_chirho, span_chirho);
    assert_eq!(ty_chirho, TyChirho::fun_chirho(var_chirho(10), TyChirho::fun_chirho(var_chirho(11), var_chirho(3))));
    assert_eq!(ctx_chirho.next_var_chirho, 12);
    assert_eq!(ctx_chirho.deferred_preds_chirho.len(), 1);
    assert_eq!(ctx_chirho.deferred_preds_chirho[0].0, PredChirho::new_chirho("Eq", var_chirho(10)));
    assert_eq!(ctx_chirho.deferred_preds_chirho[0].1, span_chirho);
    // A monomorphic scheme is its type, and uses no fresh variable.
    let mono_chirho = ctx_chirho.instantiate_chirho(&SchemeChirho::mono_chirho(var_chirho(3)), span_chirho);
    assert_eq!(mono_chirho, var_chirho(3));
    assert_eq!(ctx_chirho.next_var_chirho, 12);
}

#[test]
fn generalization_quantifies_only_variables_not_free_in_the_environment_chirho() {
    let mut ctx_chirho = InferCtxChirho::new_chirho();
    ctx_chirho.env_chirho.bind_chirho("fixed".into(), SchemeChirho::mono_chirho(var_chirho(5)));
    let span_chirho = SpanChirho::dummy_chirho();
    ctx_chirho.deferred_preds_chirho.push((PredChirho::new_chirho("Eq", var_chirho(1)), span_chirho));
    ctx_chirho.deferred_preds_chirho.push((PredChirho::new_chirho("Num", var_chirho(1)), span_chirho));
    ctx_chirho.deferred_preds_chirho.push((PredChirho::new_chirho("Num", var_chirho(1)), span_chirho));
    ctx_chirho.deferred_preds_chirho.push((PredChirho::new_chirho("Show", var_chirho(5)), span_chirho));
    let ty_chirho = TyChirho::fun_chirho(var_chirho(1), TyChirho::fun_chirho(var_chirho(5), var_chirho(2)));
    let scheme_chirho = ctx_chirho.generalize_chirho(&ty_chirho);
    assert_eq!(scheme_chirho.vars_chirho, vec![TyVarChirho(1), TyVarChirho(2)]);
    assert_eq!(scheme_chirho.ty_chirho, ty_chirho);
    // `Eq a` is implied by `Num a`; the repeated `Num a` appears once.
    assert_eq!(scheme_chirho.preds_chirho.len(), 1);
    assert_eq!(scheme_chirho.preds_chirho[0].class_name_chirho, "Num");
    // `Show` of the environment's variable stays deferred.
    assert_eq!(ctx_chirho.deferred_preds_chirho.len(), 1);
    assert_eq!(ctx_chirho.deferred_preds_chirho[0].0.class_name_chirho, "Show");
}

#[test]
fn given_rewrites_replace_matching_parts_chirho() {
    let mut ctx_chirho = InferCtxChirho::new_chirho();
    let b_chirho = TyChirho::ForallVarChirho("b%1".to_string());
    let untouched_chirho = TyChirho::ListChirho(Box::new(b_chirho.clone()));
    assert_eq!(ctx_chirho.apply_given_rewrites_chirho(&untouched_chirho), untouched_chirho);
    ctx_chirho.given_rewrites_chirho.push((b_chirho.clone(), TyChirho::int_chirho()));
    ctx_chirho.given_rewrites_chirho.push((b_chirho.clone(), TyChirho::bool_chirho()));
    assert_eq!(
        ctx_chirho.apply_given_rewrites_chirho(&TyChirho::TupleChirho(vec![b_chirho.clone(), untouched_chirho])),
        TyChirho::TupleChirho(vec![TyChirho::int_chirho(), TyChirho::ListChirho(Box::new(TyChirho::int_chirho()))])
    );
}

#[test]
fn builtin_environment_keeps_the_last_binding_of_a_name_chirho() {
    // `max` is bound twice; the later, monomorphic binding stays.
    let ctx_chirho = InferCtxChirho::new_chirho();
    let max_chirho = ctx_chirho.env_chirho.lookup_chirho("max").unwrap();
    assert!(max_chirho.vars_chirho.is_empty());
    assert!(max_chirho.preds_chirho.is_empty());
    assert_eq!(
        max_chirho.ty_chirho,
        TyChirho::fun_chirho(
            TyChirho::int_chirho(),
            TyChirho::fun_chirho(TyChirho::int_chirho(), TyChirho::int_chirho())
        )
    );
    let on_chirho = ctx_chirho.env_chirho.lookup_chirho("on").unwrap();
    assert_eq!(on_chirho.vars_chirho, vec![TyVarChirho(7200), TyVarChirho(7201), TyVarChirho(7202)]);
}

#[test]
fn finishing_keeps_the_environments_and_an_empty_substitution_chirho() {
    let mut ctx_chirho = InferCtxChirho::new_chirho();
    ctx_chirho
        .env_chirho
        .bind_chirho("mineChirho".to_string(), SchemeChirho::mono_chirho(TyChirho::int_chirho()));
    let result_chirho = ctx_chirho.finish_chirho();
    assert!(result_chirho.subst_chirho.get_chirho(0).is_none());
    assert_eq!(
        result_chirho.env_chirho.lookup_chirho("mineChirho").unwrap().ty_chirho,
        TyChirho::int_chirho()
    );
    assert!(result_chirho.env_chirho.lookup_chirho("not").is_some());
    assert!(result_chirho.class_env_chirho.contains_class_chirho("Monad"));
}

#[test]
fn class_env_is_seeded_chirho() {
    // Inferring an empty module starts from, and ends with, the seeded classes.
    let result_chirho = InferCtxChirho::new_chirho().finish_chirho();
    assert!(result_chirho.class_env_chirho.contains_class_chirho("Eq"));
    assert!(result_chirho.class_env_chirho.contains_class_chirho("Ord"));
    assert!(result_chirho.class_env_chirho.contains_class_chirho("Show"));
    assert!(result_chirho.class_env_chirho.contains_class_chirho("Num"));
    assert!(result_chirho.class_env_chirho.contains_class_chirho("Functor"));
}

#[test]
fn generalization_keeps_each_predicate_once_even_when_repeats_are_apart_chirho() {
    let mut ctx_chirho = InferCtxChirho::new_chirho();
    let a_chirho = ctx_chirho.fresh_var_chirho();
    let span_chirho = SpanChirho::dummy_chirho();
    for class_chirho in ["Eq", "Num", "Ord", "Num"] {
        ctx_chirho
            .deferred_preds_chirho
            .push((PredChirho::new_chirho(class_chirho, a_chirho.clone()), span_chirho));
    }
    let scheme_chirho = ctx_chirho.generalize_chirho(&a_chirho);
    assert_eq!(scheme_chirho.vars_chirho, vec![TyVarChirho(0)]);
    let classes_chirho: Vec<&str> =
        scheme_chirho.preds_chirho.iter().map(|p_chirho| p_chirho.class_name_chirho.as_str()).collect();
    assert_eq!(classes_chirho, vec!["Num", "Ord"]);
    assert!(ctx_chirho.deferred_preds_chirho.is_empty());
}

#[test]
fn generalization_keeps_class_and_type_of_a_predicate_chirho() {
    let mut ctx_chirho = InferCtxChirho::new_chirho();
    let a_chirho = ctx_chirho.fresh_var_chirho();
    let mut pred_chirho = PredChirho::new_chirho("Convert", a_chirho.clone());
    pred_chirho.extra_tys_chirho.push(TyChirho::int_chirho());
    ctx_chirho.deferred_preds_chirho.push((pred_chirho, SpanChirho::dummy_chirho()));
    let scheme_chirho = ctx_chirho.generalize_chirho(&a_chirho);
    assert_eq!(
        scheme_chirho.preds_chirho,
        vec![SchemePredChirho { class_name_chirho: "Convert".to_string(), ty_chirho: a_chirho }]
    );
}
