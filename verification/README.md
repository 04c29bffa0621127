# haskelujah_typing_chirho

The type-level core of a Hindley–Milner style type checker for a Haskell
dialect, written in Verus: every function carries a contract over a
mathematical model of types, schemes, substitutions and environments, and
Verus proves it.

Layout of `src/`:

- `ty_chirho`: types, type variables, predicates and schemes, with their views.
- `subst_chirho`, `env_chirho`: substitutions (with shadowing under binders),
  the type environment and the class environment.
- `alpha_chirho`: alpha-equivalence of schemes (an equivalence relation).
- `type_level_chirho`, `family_table_chirho`, `synonyms_chirho`: type-family
  pattern matching and reduction, type synonym expansion.
- `equalities_chirho`: the subterm test used before turning a given equality
  into a rewrite.
- `infer_chirho`: the inference context: fresh variables, instantiation,
  generalisation, family and synonym registration, given rewrites.
- `binding_groups_chirho`: binding groups of top-level functions (Tarjan's
  strongly connected components, dependencies first).
- `expr_refs_chirho`: surface expressions and the names a binding's
  right-hand sides refer to.
- `surface_types_chirho`: written types and their conversion into stored
  synonym and family-equation right-hand sides.
- `ast_types_chirho`: written types and signatures converted into the types
  and schemes inference works on, named variables through a scoped name table.
- `patterns_chirho`: patterns, and the bindings a pattern brings into the
  type environment.
- `unify_chirho`: first-order unification with the occurs check, proved to
  give a most general unifier exactly when one exists.
- `infer_expr_chirho`: Algorithm W on expressions (literals, variables,
  constructors, application, infix operators, `if`, `case`, lambdas, tuples,
  lists, negation), against a recursive specification of each step, with the
  diagnostics it reports.
- `infer_matches_chirho`: a function's equations inferred together.
- `builtins_chirho`: the built-in environment; `builtins_closed_chirho`: the
  proof that each of its schemes is closed.
- `declarations_chirho`: declaration contracts (boot promises of kinds,
  classes and instances, type family
  records and checks, MINIMAL formulas of classes).
- `text_order_chirho`, `names_chirho`: text order and name lookup helpers.

`tests/` holds ordinary Rust tests of the compiled library.
