use haskelujah_typing_chirho::surface_types_chirho::{
    ast_type_to_syn_rhs_chirho, decimal_chirho, NameChirho, SynonymTypeConverterChirho,
    TypeChirho,
};
use haskelujah_typing_chirho::infer_chirho::InferCtxChirho;
use haskelujah_typing_chirho::ty_chirho::{MultChirho, TyChirho, TyVarChirho};

fn name_chirho(text_chirho: &str) -> NameChirho {
    NameChirho { text_chirho: text_chirho.to_string(), full_name_chirho: text_chirho.to_string() }
}

fn qualified_chirho(module_chirho: &str, text_chirho: &str) -> NameChirho {
    NameChirho { text_chirho: text_chirho.to_string(), full_name_chirho: format!("{module_chirho}.{text_chirho}") }
}

fn var_chirho(text_chirho: &str) -> TypeChirho {
    TypeChirho::VarChirho(name_chirho(text_chirho))
}

fn fun_chirho(arg_chirho: TypeChirho, result_chirho: TypeChirho, explicit_one_chirho: bool) -> TypeChirho {
    TypeChirho::FunChirho { arg_chirho: Box::new(arg_chirho), explicit_one_chirho, result_chirho: Box::new(result_chirho) }
}

fn params_chirho(ps_chirho: &[&str]) -> Vec<String> {
    ps_chirho.iter().map(|p_chirho| p_chirho.to_string()).collect()
}

#[test]
fn synonym_parameters_become_named_variables_chirho() {
    let ty_chirho = TypeChirho::AppChirho {
        fun_chirho: Box::new(TypeChirho::ConChirho(qualified_chirho("Data.Map", "Map"))),
        arg_chirho: Box::new(fun_chirho(var_chirho("k"), var_chirho("stray"), true)),
    };
    assert_eq!(
        ast_type_to_syn_rhs_chirho(&ty_chirho, &params_chirho(&["k"])),
        TyChirho::AppChirho(
            Box::new(TyChirho::ConChirho("Data.Map.Map".to_string())),
            Box::new(TyChirho::FunChirho(
                Box::new(TyChirho::ForallVarChirho("k".to_string())),
                Box::new(TyChirho::ConChirho("stray".to_string())),
                MultChirho::OneChirho,
            )),
        )
    );
}

#[test]
fn synonym_forall_keeps_numbered_binders_chirho() {
    let forall_chirho = TypeChirho::ForallChirho {
        vars_chirho: vec!["a".to_string()],
        body_chirho: Box::new(TypeChirho::ParenChirho {
            inner_chirho: Box::new(fun_chirho(var_chirho("a"), var_chirho("b"), false)),
        }),
    };
    assert_eq!(
        ast_type_to_syn_rhs_chirho(&forall_chirho, &params_chirho(&["b"])),
        TyChirho::ForallChirho {
            vars_chirho: vec![TyVarChirho(8000)],
            body_chirho: Box::new(TyChirho::FunChirho(
                Box::new(TyChirho::VarChirho(TyVarChirho(8000))),
                Box::new(TyChirho::ForallVarChirho("b".to_string())),
                MultChirho::ManyChirho,
            )),
        }
    );
    let required_chirho = TypeChirho::RequiredForallChirho {
        vars_chirho: vec!["x".to_string(), "y".to_string()],
        body_chirho: Box::new(TypeChirho::TupleChirho { elements_chirho: vec![var_chirho("y"), var_chirho("x")] }),
    };
    assert_eq!(
        ast_type_to_syn_rhs_chirho(&required_chirho, &Vec::new()),
        TyChirho::RequiredForallChirho {
            vars_chirho: vec![TyVarChirho(8500), TyVarChirho(8501)],
            body_chirho: Box::new(TyChirho::TupleChirho(vec![
                TyChirho::VarChirho(TyVarChirho(8501)),
                TyChirho::VarChirho(TyVarChirho(8500)),
            ])),
        }
    );
}

#[test]
fn one_converter_names_each_wildcard_apart_chirho() {
    let mut converter_chirho = SynonymTypeConverterChirho::default();
    let pair_chirho = TypeChirho::TupleChirho {
        elements_chirho: vec![TypeChirho::WildcardChirho, TypeChirho::WildcardChirho],
    };
    assert_eq!(
        converter_chirho.convert_chirho(&pair_chirho, &Vec::new()),
        TyChirho::TupleChirho(vec![
            TyChirho::ForallVarChirho("$wildcard_0_chirho".to_string()),
            TyChirho::ForallVarChirho("$wildcard_1_chirho".to_string()),
        ])
    );
    assert_eq!(converter_chirho.next_wildcard_chirho, 2);
    assert_eq!(
        converter_chirho.convert_chirho(&TypeChirho::WildcardChirho, &Vec::new()),
        TyChirho::ForallVarChirho("$wildcard_2_chirho".to_string())
    );
}

#[test]
fn promoted_types_and_literals_convert_to_constructors_chirho() {
    let list_chirho = TypeChirho::PromotedListChirho {
        elements_chirho: vec![
            TypeChirho::PromotedConChirho { name_chirho: qualified_chirho("M", "A") },
            TypeChirho::LitChirho { value_chirho: "\"sym\"".to_string() },
        ],
    };
    let cons_chirho = |head_chirho: TyChirho, tail_chirho: TyChirho| {
        TyChirho::AppChirho(
            Box::new(TyChirho::AppChirho(Box::new(TyChirho::ConChirho("':".to_string())), Box::new(head_chirho))),
            Box::new(tail_chirho),
        )
    };
    assert_eq!(
        ast_type_to_syn_rhs_chirho(&list_chirho, &Vec::new()),
        cons_chirho(
            TyChirho::ConChirho("'M.A".to_string()),
            cons_chirho(TyChirho::ConChirho("\"sym\"".to_string()), TyChirho::ConChirho("'[]".to_string())),
        )
    );
    assert_eq!(
        ast_type_to_syn_rhs_chirho(&TypeChirho::ListChirho { element_chirho: Box::new(var_chirho("a")) }, &params_chirho(&["a"])),
        TyChirho::ListChirho(Box::new(TyChirho::ForallVarChirho("a".to_string())))
    );
}

#[test]
fn explicit_forall_is_found_under_contexts_and_parentheses_chirho() {
    let forall_chirho = TypeChirho::ForallChirho { vars_chirho: vec!["a".to_string()], body_chirho: Box::new(var_chirho("a")) };
    let wrapped_chirho = TypeChirho::QualChirho {
        context_chirho: vec![],
        body_chirho: Box::new(TypeChirho::ParenChirho { inner_chirho: Box::new(forall_chirho) }),
    };
    assert!(InferCtxChirho::has_explicit_forall_chirho(&wrapped_chirho));
    assert!(!InferCtxChirho::has_explicit_forall_chirho(&fun_chirho(var_chirho("a"), var_chirho("a"), false)));
    let required_chirho =
        TypeChirho::RequiredForallChirho { vars_chirho: vec!["a".to_string()], body_chirho: Box::new(var_chirho("a")) };
    assert!(!InferCtxChirho::has_explicit_forall_chirho(&required_chirho));
}

#[test]
fn decimal_spelling_chirho() {
    assert_eq!(decimal_chirho(0), "0");
    assert_eq!(decimal_chirho(7), "7");
    assert_eq!(decimal_chirho(10), "10");
    assert_eq!(decimal_chirho(12345), "12345");
}
