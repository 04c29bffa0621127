use vstd::prelude::*;

pub mod ty_chirho;
pub mod alpha_chirho;
pub mod declarations_chirho;
pub mod type_level_chirho;
pub mod names_chirho;
pub mod family_table_chirho;
pub mod synonyms_chirho;
pub mod equalities_chirho;
pub mod env_chirho;
pub mod text_order_chirho;
pub mod subst_chirho;
pub mod builtins_chirho;
pub mod builtins_closed_chirho;
pub mod infer_chirho;
pub mod binding_groups_chirho;
pub mod expr_refs_chirho;
pub mod surface_types_chirho;
pub mod ast_types_chirho;
pub mod patterns_chirho;
pub mod unify_chirho;
pub mod infer_expr_chirho;
pub mod infer_matches_chirho;
pub mod infer_laws_chirho;
