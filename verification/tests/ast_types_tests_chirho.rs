use haskelujah_typing_chirho::ast_types_chirho::TypeConversionChirho;
use haskelujah_typing_chirho::infer_chirho::InferCtxChirho;
use haskelujah_typing_chirho::surface_types_chirho::{ConstraintChirho, NameChirho, TypeChirho};
use haskelujah_typing_chirho::ty_chirho::{MultChirho, TyChirho, TyVarChirho};

fn dummy_name_chirho(text_chirho: &str) -> NameChirho {
    NameChirho { text_chirho: text_chirho.to_string(), full_name_chirho: text_chirho.to_string() }
}

fn var_ast_chirho(text_chirho: &str) -> TypeChirho {
    TypeChirho::VarChirho(dummy_name_chirho(text_chirho))
}

#[test]
fn ast_type_conversion_chirho() {
    let mut ctx_chirho = InferCtxChirho::new_chirho();
    let mut var_map_chirho: Vec<(String, TyVarChirho)> = Vec::new();

    // Convert `a -> Int`
    let ast_ty_chirho = TypeChirho::FunChirho {
        arg_chirho: Box::new(var_ast_chirho("a")),
        explicit_one_chirho: false,
        result_chirho: Box::new(TypeChirho::ConChirho(dummy_name_chirho("Int"))),
    };

    let ty_chirho = ctx_chirho.ast_type_to_ty_chirho(&ast_ty_chirho, &mut var_map_chirho);

    // Should be FunChirho(VarChirho(_), ConChirho("Int"))
    if let TyChirho::FunChirho(ref arg_chirho, ref ret_chirho, _) = ty_chirho {
        assert!(matches!(**arg_chirho, TyChirho::VarChirho(_)));
        assert_eq!(**ret_chirho, TyChirho::int_chirho());
    } else {
        panic!("expected function type, got: {ty_chirho:?}");
    }

    // Same `a` should reuse the same variable
    let a2_chirho = ctx_chirho.ast_type_to_ty_chirho(&var_ast_chirho("a"), &mut var_map_chirho);
    if let (TyChirho::FunChirho(arg_chirho, _, _), TyChirho::VarChirho(v2_chirho)) = (&ty_chirho, &a2_chirho) {
        if let TyChirho::VarChirho(v1_chirho) = &**arg_chirho {
            assert_eq!(*v1_chirho, *v2_chirho, "same `a` should yield same var");
        }
    }
}

#[test]
fn forall_binders_are_fresh_and_scoped_to_the_body_chirho() {
    let mut ctx_chirho = InferCtxChirho::new_chirho();
    let mut var_map_chirho: Vec<(String, TyVarChirho)> = Vec::new();
    // `a` first, then `forall a. a -> b`, then `a` and `b` again.
    let outer_chirho = ctx_chirho.ast_type_to_ty_chirho(&var_ast_chirho("a"), &mut var_map_chirho);
    assert_eq!(outer_chirho, TyChirho::VarChirho(TyVarChirho(0)));
    let forall_chirho = TypeChirho::ForallChirho {
        vars_chirho: vec!["a".to_string()],
        body_chirho: Box::new(TypeChirho::FunChirho {
            arg_chirho: Box::new(var_ast_chirho("a")),
            explicit_one_chirho: true,
            result_chirho: Box::new(var_ast_chirho("b")),
        }),
    };
    let ty_chirho = ctx_chirho.ast_type_to_ty_chirho(&forall_chirho, &mut var_map_chirho);
    assert_eq!(
        ty_chirho,
        TyChirho::ForallChirho {
            vars_chirho: vec![TyVarChirho(1)],
            body_chirho: Box::new(TyChirho::FunChirho(
                Box::new(TyChirho::VarChirho(TyVarChirho(1))),
                Box::new(TyChirho::VarChirho(TyVarChirho(2))),
                MultChirho::OneChirho,
            )),
        }
    );
    // The binder is gone; the body's free `b` stays known.
    assert_eq!(ctx_chirho.ast_type_to_ty_chirho(&var_ast_chirho("a"), &mut var_map_chirho), TyChirho::VarChirho(TyVarChirho(0)));
    assert_eq!(ctx_chirho.ast_type_to_ty_chirho(&var_ast_chirho("b"), &mut var_map_chirho), TyChirho::VarChirho(TyVarChirho(2)));
    assert_eq!(ctx_chirho.next_var_chirho, 3);
    assert_eq!(var_map_chirho.len(), 2);
}

#[test]
fn written_synonyms_expand_and_wildcards_are_fresh_chirho() {
    let mut ctx_chirho = InferCtxChirho::new_chirho();
    let mut var_map_chirho: Vec<(String, TyVarChirho)> = Vec::new();
    let string_chirho = ctx_chirho.ast_type_to_ty_chirho(&TypeChirho::ConChirho(dummy_name_chirho("String")), &mut var_map_chirho);
    assert_eq!(string_chirho, TyChirho::ListChirho(Box::new(TyChirho::char_chirho())));
    let pair_chirho = TypeChirho::TupleChirho { elements_chirho: vec![TypeChirho::WildcardChirho, TypeChirho::WildcardChirho] };
    assert_eq!(
        ctx_chirho.ast_type_to_ty_chirho(&pair_chirho, &mut var_map_chirho),
        TyChirho::TupleChirho(vec![TyChirho::VarChirho(TyVarChirho(0)), TyChirho::VarChirho(TyVarChirho(1))])
    );
    assert!(var_map_chirho.is_empty());
}

#[test]
fn promoted_lists_convert_from_the_last_element_chirho() {
    let mut ctx_chirho = InferCtxChirho::new_chirho();
    let mut var_map_chirho: Vec<(String, TyVarChirho)> = Vec::new();
    let list_chirho = TypeChirho::PromotedListChirho { elements_chirho: vec![var_ast_chirho("x"), var_ast_chirho("y")] };
    let cons_chirho = |h_chirho: TyChirho, t_chirho: TyChirho| {
        TyChirho::AppChirho(
            Box::new(TyChirho::AppChirho(Box::new(TyChirho::ConChirho("':".to_string())), Box::new(h_chirho))),
            Box::new(t_chirho),
        )
    };
    assert_eq!(
        ctx_chirho.ast_type_to_ty_chirho(&list_chirho, &mut var_map_chirho),
        cons_chirho(
            TyChirho::VarChirho(TyVarChirho(1)),
            cons_chirho(TyChirho::VarChirho(TyVarChirho(0)), TyChirho::ConChirho("'[]".to_string()))
        )
    );
}

#[test]
fn families_reduce_in_signatures_but_not_in_family_equations_chirho() {
    let mut ctx_chirho = InferCtxChirho::new_chirho();
    ctx_chirho.register_type_family_chirho(
        "FChirho".to_string(),
        vec![(vec![TyChirho::int_chirho()], TyChirho::bool_chirho())],
    );
    let written_chirho = TypeChirho::AppChirho {
        fun_chirho: Box::new(TypeChirho::ConChirho(dummy_name_chirho("FChirho"))),
        arg_chirho: Box::new(TypeChirho::ConChirho(dummy_name_chirho("Int"))),
    };
    let mut var_map_chirho: Vec<(String, TyVarChirho)> = Vec::new();
    assert_eq!(ctx_chirho.ast_type_to_ty_chirho(&written_chirho, &mut var_map_chirho), TyChirho::bool_chirho());
    assert_eq!(
        ctx_chirho.ast_type_with_policy_chirho(&written_chirho, &mut var_map_chirho, TypeConversionChirho::FamilyEquationChirho),
        TyChirho::AppChirho(Box::new(TyChirho::ConChirho("FChirho".to_string())), Box::new(TyChirho::int_chirho()))
    );
}

#[test]
fn signatures_become_schemes_with_their_contexts_chirho() {
    let mut ctx_chirho = InferCtxChirho::new_chirho();
    // forall a b. (Eq a, Show) => a -> b -> Bool
    let written_chirho = TypeChirho::ForallChirho {
        vars_chirho: vec!["a".to_string(), "b".to_string()],
        body_chirho: Box::new(TypeChirho::QualChirho {
            context_chirho: vec![
                ConstraintChirho { class_chirho: dummy_name_chirho("Eq"), args_chirho: vec![var_ast_chirho("a")] },
                ConstraintChirho { class_chirho: dummy_name_chirho("Show"), args_chirho: vec![] },
            ],
            body_chirho: Box::new(TypeChirho::FunChirho {
                arg_chirho: Box::new(var_ast_chirho("a")),
                explicit_one_chirho: false,
                result_chirho: Box::new(TypeChirho::FunChirho {
                    arg_chirho: Box::new(var_ast_chirho("b")),
                    explicit_one_chirho: false,
                    result_chirho: Box::new(TypeChirho::ConChirho(dummy_name_chirho("Bool"))),
                }),
            }),
        }),
    };
    let scheme_chirho = ctx_chirho.ast_type_to_scheme_chirho(&written_chirho);
    assert_eq!(
        scheme_chirho.ty_chirho,
        TyChirho::fun_chirho(
            TyChirho::VarChirho(TyVarChirho(0)),
            TyChirho::fun_chirho(TyChirho::VarChirho(TyVarChirho(1)), TyChirho::bool_chirho())
        )
    );
    assert_eq!(scheme_chirho.vars_chirho, vec![TyVarChirho(0), TyVarChirho(1)]);
    assert_eq!(scheme_chirho.preds_chirho.len(), 2);
    assert_eq!(scheme_chirho.preds_chirho[0].class_name_chirho, "Eq");
    assert_eq!(scheme_chirho.preds_chirho[0].ty_chirho, TyChirho::VarChirho(TyVarChirho(0)));
    // A constraint without arguments gets a fresh variable.
    assert_eq!(scheme_chirho.preds_chirho[1].ty_chirho, TyChirho::VarChirho(TyVarChirho(2)));
    assert_eq!(ctx_chirho.next_var_chirho, 3);
}

#[test]
fn a_parenthesised_forall_gives_the_quantified_variables_chirho() {
    let mut ctx_chirho = InferCtxChirho::new_chirho();
    let written_chirho = TypeChirho::ParenChirho {
        inner_chirho: Box::new(TypeChirho::ForallChirho {
            vars_chirho: vec!["a".to_string()],
            body_chirho: Box::new(TypeChirho::ListChirho { element_chirho: Box::new(var_ast_chirho("a")) }),
        }),
    };
    let scheme_chirho = ctx_chirho.ast_type_to_scheme_chirho(&written_chirho);
    assert_eq!(scheme_chirho.vars_chirho, vec![TyVarChirho(0)]);
    assert_eq!(scheme_chirho.ty_chirho, TyChirho::ListChirho(Box::new(TyChirho::VarChirho(TyVarChirho(0)))));
    assert!(scheme_chirho.preds_chirho.is_empty());
}

fn lookup_chirho(map_chirho: &[(String, TyVarChirho)], name_chirho: &str) -> Option<TyVarChirho> {
    map_chirho.iter().rev().find(|entry_chirho| entry_chirho.0 == name_chirho).map(|entry_chirho| entry_chirho.1)
}

fn tuple_ast_chirho(elements_chirho: Vec<TypeChirho>) -> TypeChirho {
    TypeChirho::TupleChirho { elements_chirho }
}

fn forall_ast_chirho(required_chirho: bool, body_chirho: TypeChirho) -> TypeChirho {
    let vars_chirho = vec!["aChirho".to_string()];
    if required_chirho {
        TypeChirho::RequiredForallChirho { vars_chirho, body_chirho: Box::new(body_chirho) }
    } else {
        TypeChirho::ForallChirho { vars_chirho, body_chirho: Box::new(body_chirho) }
    }
}

fn quantified_body_chirho(ty_chirho: &TyChirho, required_chirho: bool) -> &TyChirho {
    match ty_chirho {
        TyChirho::ForallChirho { body_chirho, .. } if !required_chirho => body_chirho,
        TyChirho::RequiredForallChirho { body_chirho, .. } if required_chirho => body_chirho,
        _ => panic!("quantifier visibility changed: {ty_chirho:?}"),
    }
}

#[test]
fn forall_shadow_restores_the_enclosing_type_identity_chirho() {
    for required_chirho in [false, true] {
        let mut context_chirho = InferCtxChirho::new_chirho();
        let mut map_chirho: Vec<(String, TyVarChirho)> = Vec::new();
        let outer_chirho = context_chirho.ast_type_to_ty_chirho(&var_ast_chirho("aChirho"), &mut map_chirho);
        let signature_chirho = tuple_ast_chirho(vec![
            var_ast_chirho("aChirho"),
            forall_ast_chirho(required_chirho, var_ast_chirho("aChirho")),
            var_ast_chirho("aChirho"),
        ]);
        let TyChirho::TupleChirho(elements_chirho) = context_chirho.ast_type_to_ty_chirho(&signature_chirho, &mut map_chirho) else {
            panic!("expected the three type positions");
        };
        assert_eq!(elements_chirho[0], outer_chirho);
        assert_eq!(elements_chirho[2], outer_chirho);
        assert_ne!(quantified_body_chirho(&elements_chirho[1], required_chirho), &outer_chirho);
        assert_eq!(TyChirho::VarChirho(lookup_chirho(&map_chirho, "aChirho").unwrap()), outer_chirho);
    }
}

#[test]
fn forall_local_names_do_not_escape_but_new_free_names_survive_chirho() {
    for required_chirho in [false, true] {
        let mut context_chirho = InferCtxChirho::new_chirho();
        let mut map_chirho: Vec<(String, TyVarChirho)> = Vec::new();
        let signature_chirho = forall_ast_chirho(
            required_chirho,
            tuple_ast_chirho(vec![var_ast_chirho("aChirho"), var_ast_chirho("freeChirho")]),
        );
        let converted_chirho = context_chirho.ast_type_to_ty_chirho(&signature_chirho, &mut map_chirho);
        assert!(lookup_chirho(&map_chirho, "aChirho").is_none(), "local binder escaped its scope");
        let free_chirho = TyChirho::VarChirho(lookup_chirho(&map_chirho, "freeChirho").unwrap());
        let TyChirho::TupleChirho(elements_chirho) = quantified_body_chirho(&converted_chirho, required_chirho) else {
            panic!("expected the bound and free type positions");
        };
        assert_eq!(elements_chirho[1], free_chirho);
        assert_eq!(context_chirho.ast_type_to_ty_chirho(&var_ast_chirho("freeChirho"), &mut map_chirho), free_chirho);
        assert_ne!(context_chirho.ast_type_to_ty_chirho(&var_ast_chirho("aChirho"), &mut map_chirho), elements_chirho[0]);
    }
}

#[test]
fn nested_forall_shadows_restore_each_lexical_scope_chirho() {
    for required_chirho in [false, true] {
        let mut context_chirho = InferCtxChirho::new_chirho();
        let mut map_chirho: Vec<(String, TyVarChirho)> = Vec::new();
        let signature_chirho = forall_ast_chirho(
            required_chirho,
            tuple_ast_chirho(vec![
                var_ast_chirho("aChirho"),
                forall_ast_chirho(!required_chirho, var_ast_chirho("aChirho")),
                var_ast_chirho("aChirho"),
            ]),
        );
        let converted_chirho = context_chirho.ast_type_to_ty_chirho(&signature_chirho, &mut map_chirho);
        let TyChirho::TupleChirho(elements_chirho) = quantified_body_chirho(&converted_chirho, required_chirho) else {
            panic!("expected nested type scopes");
        };
        assert_eq!(elements_chirho[0], elements_chirho[2]);
        assert_ne!(&elements_chirho[0], quantified_body_chirho(&elements_chirho[1], !required_chirho));
        assert!(map_chirho.is_empty(), "only locally quantified variables occur");
    }
}
