use std::collections::BTreeSet;

use haskelujah_typing_chirho::declarations_chirho::minimal_chirho::{
    implies_chirho, method_chirho, names_chirho, search_chirho, validate_chirho, MinimalErrorChirho,
    MinimalFormulaChirho, LIMIT_CHIRHO,
};

#[test]
fn boot_minimal_implication_is_semantic_and_directional_chirho() {
    let first_chirho = method_chirho("firstChirho");
    let second_chirho = method_chirho("secondChirho");
    let all_chirho =
        MinimalFormulaChirho::AllChirho(vec![first_chirho.clone(), second_chirho.clone()]);
    let any_chirho =
        MinimalFormulaChirho::AnyChirho(vec![first_chirho.clone(), second_chirho.clone()]);
    assert_eq!(implies_chirho(&all_chirho, &first_chirho), Ok(true));
    assert_eq!(implies_chirho(&any_chirho, &first_chirho), Ok(false));
    assert_eq!(implies_chirho(&first_chirho, &any_chirho), Ok(true));
    assert_eq!(
        implies_chirho(
            &any_chirho,
            &MinimalFormulaChirho::AnyChirho(vec![second_chirho, first_chirho])
        ),
        Ok(true)
    );
    assert_eq!(
        implies_chirho(&MinimalFormulaChirho::AllChirho(vec![]), &all_chirho),
        Ok(false)
    );
}

#[test]
fn boot_minimal_invalid_and_exhausted_are_not_proofs_chirho() {
    let valid_chirho = method_chirho("validChirho");
    assert!(implies_chirho(&MinimalFormulaChirho::InvalidChirho, &valid_chirho).is_err());
    assert!(validate_chirho(&valid_chirho, &Vec::new()).is_err());
    let excessive_chirho =
        MinimalFormulaChirho::AllChirho(vec![valid_chirho.clone(); LIMIT_CHIRHO + 1]);
    assert!(implies_chirho(&excessive_chirho, &excessive_chirho).is_err());
    assert!(
        search_chirho(
            &valid_chirho,
            &valid_chirho,
            &vec!["validChirho".to_owned()],
            &mut Vec::new(),
            0,
            &mut 0
        )
        .is_err()
    );
}

#[test]
fn boot_minimal_empty_requirement_short_circuits_large_method_sets_chirho() {
    let methods_chirho: BTreeSet<String> = (0..16)
        .map(|index_chirho| format!("method{index_chirho}Chirho"))
        .collect();
    let methods_chirho: Vec<String> = methods_chirho.into_iter().collect();
    let promised_chirho = MinimalFormulaChirho::AnyChirho(
        methods_chirho
            .iter()
            .map(|name_chirho| method_chirho(name_chirho))
            .collect(),
    );
    assert_eq!(validate_chirho(&promised_chirho, &methods_chirho), Ok(()));
    let required_chirho = MinimalFormulaChirho::AllChirho(vec![]);
    assert_eq!(implies_chirho(&promised_chirho, &required_chirho), Ok(true));
    // A false implication must still be found when one implementation method
    // has no default. This cannot be satisfied by the true short-circuit.
    assert_eq!(
        implies_chirho(&promised_chirho, &method_chirho("method0Chirho")),
        Ok(false)
    );
}

#[test]
fn minimal_names_are_sorted_once_and_cost_one_unit_per_node_chirho() {
    let formula_chirho = MinimalFormulaChirho::AllChirho(vec![
        method_chirho("zeta"),
        MinimalFormulaChirho::AnyChirho(vec![method_chirho("alpha"), method_chirho("zeta")]),
        method_chirho("beta"),
    ]);
    let mut budget_chirho = 10;
    let names_found_chirho = names_chirho(&formula_chirho, &mut budget_chirho).unwrap();
    assert_eq!(names_found_chirho, vec!["alpha".to_owned(), "beta".to_owned(), "zeta".to_owned()]);
    assert_eq!(budget_chirho, 4);
    let mut short_chirho = 5;
    assert_eq!(
        names_chirho(&formula_chirho, &mut short_chirho),
        Err(MinimalErrorChirho::BudgetExhaustedChirho)
    );
}

#[test]
fn minimal_errors_name_the_failed_condition_chirho() {
    let valid_chirho = method_chirho("validChirho");
    assert_eq!(
        validate_chirho(&valid_chirho, &vec!["otherChirho".to_owned()]),
        Err(MinimalErrorChirho::UndeclaredMethodChirho)
    );
    assert_eq!(
        validate_chirho(&valid_chirho, &vec!["otherChirho".to_owned(), "validChirho".to_owned()]),
        Ok(())
    );
    assert_eq!(
        validate_chirho(&MinimalFormulaChirho::AnyChirho(vec![MinimalFormulaChirho::InvalidChirho]), &Vec::new()),
        Err(MinimalErrorChirho::InvalidFormulaChirho)
    );
    let mut deep_chirho = valid_chirho.clone();
    for _level_chirho in 0..129 {
        deep_chirho = MinimalFormulaChirho::AllChirho(vec![deep_chirho]);
    }
    assert_eq!(
        validate_chirho(&deep_chirho, &vec!["validChirho".to_owned()]),
        Err(MinimalErrorChirho::NestingLimitChirho)
    );
    let mut deepest_allowed_chirho = valid_chirho;
    for _level_chirho in 0..128 {
        deepest_allowed_chirho = MinimalFormulaChirho::AllChirho(vec![deepest_allowed_chirho]);
    }
    assert_eq!(validate_chirho(&deepest_allowed_chirho, &vec!["validChirho".to_owned()]), Ok(()));
    assert_eq!(
        MinimalErrorChirho::UndeclaredMethodChirho.message_chirho(),
        "MINIMAL formula names an undeclared method"
    );
}

#[test]
fn minimal_implication_with_open_choices_chirho() {
    let a_chirho = method_chirho("a");
    let b_chirho = method_chirho("b");
    let c_chirho = method_chirho("c");
    // (a and b) or c  implies  (a or c)
    let promised_chirho = MinimalFormulaChirho::AnyChirho(vec![
        MinimalFormulaChirho::AllChirho(vec![a_chirho.clone(), b_chirho.clone()]),
        c_chirho.clone(),
    ]);
    let required_chirho = MinimalFormulaChirho::AnyChirho(vec![a_chirho.clone(), c_chirho.clone()]);
    assert_eq!(implies_chirho(&promised_chirho, &required_chirho), Ok(true));
    // but not  (a and c)
    let stronger_chirho = MinimalFormulaChirho::AllChirho(vec![a_chirho, c_chirho]);
    assert_eq!(implies_chirho(&promised_chirho, &stronger_chirho), Ok(false));
    assert_eq!(implies_chirho(&promised_chirho, &promised_chirho.clone()), Ok(true));
}

#[test]
fn minimal_walk_reports_the_first_failure_from_the_last_part_chirho() {
    // The last part nests too deeply; it is walked before the invalid first part.
    let mut deep_chirho = method_chirho("deepChirho");
    for _ in 0..140 {
        deep_chirho = MinimalFormulaChirho::AllChirho(vec![deep_chirho]);
    }
    let formula_chirho = MinimalFormulaChirho::AllChirho(vec![MinimalFormulaChirho::InvalidChirho, deep_chirho]);
    let methods_chirho = vec!["deepChirho".to_string()];
    assert_eq!(validate_chirho(&formula_chirho, &methods_chirho), Err(MinimalErrorChirho::NestingLimitChirho));
    // With the parts swapped the invalid part comes first.
    let MinimalFormulaChirho::AllChirho(mut parts_chirho) = formula_chirho else { unreachable!() };
    parts_chirho.reverse();
    let swapped_chirho = MinimalFormulaChirho::AllChirho(parts_chirho);
    assert_eq!(validate_chirho(&swapped_chirho, &methods_chirho), Err(MinimalErrorChirho::InvalidFormulaChirho));
}
