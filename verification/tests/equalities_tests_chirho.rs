use haskelujah_typing_chirho::equalities_chirho::ty_contains_subterm_chirho;
use haskelujah_typing_chirho::ty_chirho::{TyChirho, TyVarChirho};

#[test]
fn subterm_test_finds_a_cyclic_rewrite_chirho() {
    // `b ~ Maybe (Foo b)` must not become a rewrite rule.
    let b_chirho = TyChirho::ForallVarChirho("b%1".to_string());
    let rhs_chirho = TyChirho::AppChirho(
        Box::new(TyChirho::ConChirho("Maybe".to_string())),
        Box::new(TyChirho::AppChirho(
            Box::new(TyChirho::ConChirho("Foo".to_string())),
            Box::new(b_chirho.clone()),
        )),
    );
    assert!(ty_contains_subterm_chirho(&rhs_chirho, &b_chirho));
    assert!(!ty_contains_subterm_chirho(
        &TyChirho::int_chirho(),
        &b_chirho
    ));
}

#[test]
fn subterm_test_looks_inside_every_part_chirho() {
    let needle_chirho = TyChirho::VarChirho(TyVarChirho(4));
    let haystack_chirho = TyChirho::ForallChirho {
        vars_chirho: vec![TyVarChirho(9)],
        body_chirho: Box::new(TyChirho::TupleChirho(vec![
            TyChirho::int_chirho(),
            TyChirho::fun_chirho(TyChirho::bool_chirho(), TyChirho::ListChirho(Box::new(needle_chirho.clone()))),
        ])),
    };
    assert!(ty_contains_subterm_chirho(&haystack_chirho, &needle_chirho));
    assert!(ty_contains_subterm_chirho(&haystack_chirho, &haystack_chirho));
    assert!(!ty_contains_subterm_chirho(&haystack_chirho, &TyChirho::VarChirho(TyVarChirho(9))));
}
