use haskelujah_typing_chirho::infer_chirho::InferCtxChirho;
use haskelujah_typing_chirho::patterns_chirho::{FieldPatChirho, PatChirho};
use haskelujah_typing_chirho::surface_types_chirho::NameChirho;
use haskelujah_typing_chirho::ty_chirho::{TyChirho, TyVarChirho};

fn name_chirho(text_chirho: &str) -> NameChirho {
    NameChirho { text_chirho: text_chirho.to_string(), full_name_chirho: text_chirho.to_string() }
}

fn pvar_chirho(text_chirho: &str) -> PatChirho {
    PatChirho::VarChirho(name_chirho(text_chirho))
}

fn var_chirho(n_chirho: u32) -> TyChirho {
    TyChirho::VarChirho(TyVarChirho(n_chirho))
}

fn fresh_ctx_chirho() -> InferCtxChirho {
    let mut ctx_chirho = InferCtxChirho::new_chirho();
    ctx_chirho.next_var_chirho = 100;
    ctx_chirho
}

#[test]
fn a_variable_pattern_binds_its_type_chirho() {
    let mut ctx_chirho = fresh_ctx_chirho();
    ctx_chirho.bind_pat_chirho(&pvar_chirho("xChirho"), &TyChirho::int_chirho());
    let scheme_chirho = ctx_chirho.env_chirho.lookup_chirho("xChirho").unwrap();
    assert!(scheme_chirho.vars_chirho.is_empty());
    assert_eq!(scheme_chirho.ty_chirho, TyChirho::int_chirho());
    // A higher-rank argument binds a polymorphic scheme.
    let poly_chirho = TyChirho::ForallChirho { vars_chirho: vec![TyVarChirho(7)], body_chirho: Box::new(var_chirho(7)) };
    ctx_chirho.bind_pat_chirho(&pvar_chirho("fChirho"), &poly_chirho);
    let scheme_chirho = ctx_chirho.env_chirho.lookup_chirho("fChirho").unwrap();
    assert_eq!(scheme_chirho.vars_chirho, vec![TyVarChirho(7)]);
    assert_eq!(scheme_chirho.ty_chirho, var_chirho(7));
    assert_eq!(ctx_chirho.next_var_chirho, 100);
}

#[test]
fn tuple_elements_get_fresh_variables_made_first_chirho() {
    let mut ctx_chirho = fresh_ctx_chirho();
    let pat_chirho = PatChirho::TupleChirho {
        elements_chirho: vec![pvar_chirho("aChirho"), PatChirho::ListChirho { elements_chirho: vec![pvar_chirho("bChirho")] }],
    };
    ctx_chirho.bind_pat_chirho(&pat_chirho, &var_chirho(1));
    assert_eq!(ctx_chirho.env_chirho.lookup_chirho("aChirho").unwrap().ty_chirho, var_chirho(100));
    // The list's elements share the variable made after the tuple's.
    assert_eq!(ctx_chirho.env_chirho.lookup_chirho("bChirho").unwrap().ty_chirho, var_chirho(102));
    assert_eq!(ctx_chirho.next_var_chirho, 103);
}

#[test]
fn infix_and_as_patterns_bind_each_side_chirho() {
    let mut ctx_chirho = fresh_ctx_chirho();
    let pat_chirho = PatChirho::AsChirho {
        name_chirho: name_chirho("allChirho"),
        pattern_chirho: Box::new(PatChirho::InfixConChirho {
            left_chirho: Box::new(pvar_chirho("hChirho")),
            right_chirho: Box::new(pvar_chirho("tChirho")),
        }),
    };
    ctx_chirho.bind_pat_chirho(&pat_chirho, &TyChirho::ListChirho(Box::new(TyChirho::int_chirho())));
    assert_eq!(
        ctx_chirho.env_chirho.lookup_chirho("allChirho").unwrap().ty_chirho,
        TyChirho::ListChirho(Box::new(TyChirho::int_chirho()))
    );
    assert_eq!(ctx_chirho.env_chirho.lookup_chirho("hChirho").unwrap().ty_chirho, var_chirho(100));
    assert_eq!(ctx_chirho.env_chirho.lookup_chirho("tChirho").unwrap().ty_chirho, var_chirho(101));
}

#[test]
fn a_record_wildcard_binds_the_fields_not_spelled_out_chirho() {
    let mut ctx_chirho = fresh_ctx_chirho();
    ctx_chirho
        .con_field_names_chirho
        .push(("PointChirho".to_string(), vec!["xChirho".to_string(), "yChirho".to_string()]));
    let pat_chirho = PatChirho::RecordChirho {
        con_chirho: name_chirho("PointChirho"),
        fields_chirho: vec![FieldPatChirho { name_chirho: name_chirho("xChirho"), pattern_chirho: pvar_chirho("pxChirho") }],
        has_wildcard_chirho: true,
    };
    ctx_chirho.bind_pat_chirho(&pat_chirho, &var_chirho(1));
    assert_eq!(ctx_chirho.env_chirho.lookup_chirho("pxChirho").unwrap().ty_chirho, var_chirho(100));
    assert_eq!(ctx_chirho.env_chirho.lookup_chirho("yChirho").unwrap().ty_chirho, var_chirho(101));
    assert!(ctx_chirho.env_chirho.lookup_chirho("xChirho").is_none());
    assert_eq!(ctx_chirho.next_var_chirho, 102);
}

#[test]
fn wildcards_and_literals_bind_nothing_chirho() {
    let mut ctx_chirho = fresh_ctx_chirho();
    ctx_chirho.bind_pat_chirho(&PatChirho::WildcardChirho, &var_chirho(1));
    ctx_chirho.bind_pat_chirho(&PatChirho::LitChirho, &var_chirho(1));
    ctx_chirho.bind_pat_chirho(
        &PatChirho::ConChirho { con_chirho: name_chirho("JustChirho"), args_chirho: vec![PatChirho::NegChirho] },
        &var_chirho(1),
    );
    assert_eq!(ctx_chirho.next_var_chirho, 101);
}
