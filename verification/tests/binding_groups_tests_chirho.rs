use haskelujah_typing_chirho::binding_groups_chirho::{binding_groups_by_refs_chirho, binding_groups_chirho};
use haskelujah_typing_chirho::expr_refs_chirho::{
    collect_expr_refs_chirho, function_refs_chirho, ExprChirho, GuardedExprChirho, LocalBindChirho, MatchArmChirho, RhsChirho,
    StmtChirho,
};

fn names_chirho(ns_chirho: &[&str]) -> Vec<String> {
    ns_chirho.iter().map(|s_chirho| s_chirho.to_string()).collect()
}

fn refs_chirho(rs_chirho: &[&[&str]]) -> Vec<Vec<String>> {
    rs_chirho.iter().map(|r_chirho| names_chirho(r_chirho)).collect()
}

#[test]
fn binding_groups_put_dependencies_first_chirho() {
    // f uses g, g uses h: h must be inferred first.
    let groups_chirho = binding_groups_by_refs_chirho(
        &names_chirho(&["f", "g", "h"]),
        &refs_chirho(&[&["g"], &["h"], &[]]),
    );
    assert_eq!(groups_chirho, vec![vec![2], vec![1], vec![0]]);
}

#[test]
fn binding_groups_keep_mutual_recursion_together_chirho() {
    // f and g call each other; h uses f.
    let groups_chirho = binding_groups_by_refs_chirho(
        &names_chirho(&["f", "g", "h"]),
        &refs_chirho(&[&["g"], &["f"], &["f"]]),
    );
    assert_eq!(groups_chirho, vec![vec![1, 0], vec![2]]);
}

#[test]
fn binding_groups_ignore_self_and_unknown_references_chirho() {
    let groups_chirho = binding_groups_by_refs_chirho(
        &names_chirho(&["f", "g"]),
        &refs_chirho(&[&["f", "map", "show"], &["g", "foldr"]]),
    );
    assert_eq!(groups_chirho, vec![vec![0], vec![1]]);
}

#[test]
fn binding_groups_of_nothing_is_empty_chirho() {
    let groups_chirho = binding_groups_by_refs_chirho(&Vec::new(), &Vec::new());
    assert!(groups_chirho.is_empty());
}

#[test]
fn binding_groups_point_a_repeated_name_at_its_last_declaration_chirho() {
    // Two functions are named `f`; `g` refers to the later one.
    let groups_chirho = binding_groups_by_refs_chirho(
        &names_chirho(&["g", "f", "f"]),
        &refs_chirho(&[&["f"], &[], &[]]),
    );
    assert_eq!(groups_chirho, vec![vec![2], vec![0], vec![1]]);
}

#[test]
fn binding_groups_cover_a_longer_cycle_chirho() {
    // a -> b -> c -> a, and d -> c.
    let groups_chirho = binding_groups_by_refs_chirho(
        &names_chirho(&["a", "b", "c", "d"]),
        &refs_chirho(&[&["b"], &["c"], &["a"], &["c"]]),
    );
    assert_eq!(groups_chirho, vec![vec![2, 1, 0], vec![3]]);
}

#[test]
fn binding_groups_allow_fewer_reference_lists_than_functions_chirho() {
    let groups_chirho = binding_groups_by_refs_chirho(
        &names_chirho(&["f", "g"]),
        &refs_chirho(&[&["g"]]),
    );
    assert_eq!(groups_chirho, vec![vec![1], vec![0]]);
}

fn var_expr_chirho(name_chirho: &str) -> ExprChirho {
    ExprChirho::VarChirho(name_chirho.to_string())
}

fn arm_chirho(body_chirho: ExprChirho) -> MatchArmChirho {
    MatchArmChirho { pats_chirho: Vec::new(), rhs_chirho: RhsChirho::UnguardedChirho(body_chirho), where_binds_chirho: Vec::new() }
}

#[test]
fn expression_references_follow_the_walk_chirho() {
    // f x + g (let h = k in h) , with an operator section and a do block.
    let expr_chirho = ExprChirho::InfixChirho {
        left_chirho: Box::new(ExprChirho::AppChirho {
            fun_chirho: Box::new(var_expr_chirho("f")),
            arg_chirho: Box::new(var_expr_chirho("x")),
        }),
        op_chirho: "+".to_string(),
        right_chirho: Box::new(ExprChirho::LetChirho {
            binds_chirho: vec![LocalBindChirho::PatBindChirho {
                rhs_chirho: RhsChirho::UnguardedChirho(var_expr_chirho("k")),
            }],
            body_chirho: Box::new(ExprChirho::DoChirho {
                stmts_chirho: vec![
                    StmtChirho::BindChirho { expr_chirho: var_expr_chirho("getLine") },
                    StmtChirho::ExprChirho(ExprChirho::LeftSectionChirho {
                        op_chirho: "<>".to_string(),
                        arg_chirho: Box::new(ExprChirho::ConChirho("Just".to_string())),
                    }),
                ],
            }),
        }),
    };
    let mut refs_chirho = vec!["seed".to_string()];
    collect_expr_refs_chirho(&expr_chirho, &mut refs_chirho);
    assert_eq!(refs_chirho, vec!["seed", "f", "x", "+", "k", "getLine", "<>"]);
}

#[test]
fn function_references_take_guards_and_where_bindings_chirho() {
    let arms_chirho = vec![MatchArmChirho {
        pats_chirho: Vec::new(),
        rhs_chirho: RhsChirho::GuardedChirho(vec![GuardedExprChirho {
            guard_chirho: var_expr_chirho("p"),
            body_chirho: var_expr_chirho("q"),
        }]),
        where_binds_chirho: vec![
            LocalBindChirho::FunBindChirho {
                matches_chirho: vec![MatchArmChirho {
                    pats_chirho: Vec::new(),
                    rhs_chirho: RhsChirho::UnguardedChirho(var_expr_chirho("r")),
                    // `where` bindings of a local function's equations are not walked.
                    where_binds_chirho: vec![LocalBindChirho::PatBindChirho {
                        rhs_chirho: RhsChirho::UnguardedChirho(var_expr_chirho("hidden")),
                    }],
                }],
            },
            LocalBindChirho::SignatureChirho,
        ],
    }];
    assert_eq!(function_refs_chirho(&arms_chirho), vec!["p", "q", "r"]);
}

#[test]
fn binding_groups_of_declarations_chirho() {
    // isEven and isOdd call each other; main uses isEven.
    let names_chirho = names_chirho(&["isEven", "isOdd", "main"]);
    let decls_chirho = vec![
        (0usize, vec![arm_chirho(ExprChirho::AppChirho {
            fun_chirho: Box::new(var_expr_chirho("isOdd")),
            arg_chirho: Box::new(var_expr_chirho("n")),
        })]),
        (1usize, vec![arm_chirho(ExprChirho::AppChirho {
            fun_chirho: Box::new(var_expr_chirho("isEven")),
            arg_chirho: Box::new(var_expr_chirho("n")),
        })]),
        (2usize, vec![arm_chirho(ExprChirho::AppChirho {
            fun_chirho: Box::new(var_expr_chirho("print")),
            arg_chirho: Box::new(var_expr_chirho("isEven")),
        })]),
    ];
    assert_eq!(binding_groups_chirho(&names_chirho, &decls_chirho), vec![vec![1, 0], vec![2]]);
}
