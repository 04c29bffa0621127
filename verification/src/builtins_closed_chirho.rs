//! The built-in schemes are closed: none of them leaves a type variable
//! free in the environment that every module starts with.
use vstd::prelude::*;
use crate::builtins_chirho::{builtin_schemes, builtin_schemes_1, builtin_schemes_2, builtin_schemes_3, builtin_schemes_4, builtin_schemes_5, builtin_schemes_6, builtin_schemes_7, builtin_schemes_8, builtin_schemes_9, builtin_schemes_10, builtin_schemes_11, builtin_schemes_12, builtin_schemes_13, builtin_schemes_14, builtin_schemes_15, builtin_schemes_16, builtin_schemes_17, builtin_schemes_18, builtin_schemes_19, builtin_schemes_20};
use crate::env_chirho::{preds_occ, scheme_free};
use crate::ty_chirho::{occ, MultChirho, PredV, SchemeV, TyV, app_v, con_v, fun_v, list_v};

verus! {

/// Whether `x` is one of `vs`, decided by walking the list.
pub open spec fn listed(vs: Seq<u32>, x: u32) -> bool
    decreases vs.len(),
{
    vs.len() > 0 && (vs.last() == x || listed(vs.drop_last(), x))
}

/// Whether every element of `xs` is one of `vs`, decided by walking the lists.
pub open spec fn all_listed(xs: Seq<u32>, vs: Seq<u32>) -> bool
    decreases xs.len(),
{
    xs.len() == 0 || (listed(vs, xs.last()) && all_listed(xs.drop_last(), vs))
}

/// Every variable of the scheme's type and predicates is quantified.
pub open spec fn closed_check(s: SchemeV) -> bool {
    all_listed(occ(s.ty, Seq::empty()) + preds_occ(s.preds), s.vars)
}

/// Every scheme of `m` is closed.
pub open spec fn all_closed(m: Map<Seq<char>, SchemeV>) -> bool {
    forall|n: Seq<char>| #[trigger] m.dom().contains(n) ==> closed_check(m[n])
}

proof fn lemma_listed(vs: Seq<u32>, x: u32)
    ensures
        listed(vs, x) <==> vs.contains(x),
    decreases vs.len(),
{
    if vs.len() > 0 {
        lemma_listed(vs.drop_last(), x);
        if vs.drop_last().contains(x) {
            let i = choose|i: int| 0 <= i < vs.drop_last().len() && vs.drop_last()[i] == x;
            assert(vs[i] == x);
        }
        if vs.contains(x) && vs.last() != x {
            let i = choose|i: int| 0 <= i < vs.len() && vs[i] == x;
            assert(vs.drop_last()[i] == x);
        }
        if vs.last() == x {
            assert(vs[vs.len() - 1] == x);
        }
    }
}

proof fn lemma_all_listed(xs: Seq<u32>, vs: Seq<u32>)
    requires
        all_listed(xs, vs),
    ensures
        forall|x: u32| #[trigger] xs.contains(x) ==> vs.contains(x),
    decreases xs.len(),
{
    if xs.len() > 0 {
        lemma_all_listed(xs.drop_last(), vs);
        lemma_listed(vs, xs.last());
        assert forall|x: u32| #[trigger] xs.contains(x) implies vs.contains(x) by {
            let i = choose|i: int| 0 <= i < xs.len() && xs[i] == x;
            if i < xs.len() - 1 {
                assert(xs.drop_last()[i] == x);
                assert(xs.drop_last().contains(x));
            }
        }
    }
}

/// A checked scheme has no free variable.
pub proof fn lemma_closed_check(s: SchemeV)
    requires
        closed_check(s),
    ensures
        scheme_free(s) =~= Set::<u32>::empty(),
{
    let xs = occ(s.ty, Seq::empty()) + preds_occ(s.preds);
    lemma_all_listed(xs, s.vars);
    assert forall|x: u32| !#[trigger] scheme_free(s).contains(x) by {
        if xs.to_set().contains(x) {
            assert(xs.contains(x));
            assert(s.vars.contains(x));
            assert(s.vars.to_set().contains(x));
        }
    }
}

proof fn lemma_all_closed_union(m1: Map<Seq<char>, SchemeV>, m2: Map<Seq<char>, SchemeV>)
    requires
        all_closed(m1),
        all_closed(m2),
    ensures
        all_closed(m1.union_prefer_right(m2)),
{
    assert forall|n: Seq<char>| #[trigger] m1.union_prefer_right(m2).dom().contains(n) implies closed_check(m1.union_prefer_right(m2)[n]) by {
        if m2.dom().contains(n) {
            assert(closed_check(m2[n]));
        } else {
            assert(closed_check(m1[n]));
        }
    }
}


/// The schemes of part 1 are closed.
proof fn lemma_builtin_schemes_1_closed()
    ensures
        all_closed(builtin_schemes_1()),
{
    reveal_with_fuel(occ, 10);
    reveal_with_fuel(crate::ty_chirho::occ_seq, 5);
    reveal_with_fuel(preds_occ, 4);
    reveal_with_fuel(all_listed, 16);
    reveal_with_fuel(listed, 6);
    assert(closed_check(SchemeV { vars: Seq::empty(), preds: Seq::empty(), ty: con_v("Bool"@) }));
    assert(closed_check(SchemeV { vars: Seq::empty(), preds: Seq::empty(), ty: con_v("Bool"@) }));
    assert(closed_check(SchemeV { vars: Seq::empty(), preds: Seq::empty(), ty: fun_v(con_v("Bool"@), con_v("Bool"@)) }));
    assert(closed_check(SchemeV { vars: Seq::empty(), preds: Seq::empty(), ty: fun_v(con_v("Bool"@), fun_v(con_v("Bool"@), con_v("Bool"@))) }));
    assert(closed_check(SchemeV { vars: Seq::empty(), preds: Seq::empty(), ty: fun_v(con_v("Bool"@), fun_v(con_v("Bool"@), con_v("Bool"@))) }));
    assert(closed_check(SchemeV { vars: Seq::empty(), preds: Seq::empty(), ty: fun_v(list_v(con_v("Char"@)), fun_v(list_v(con_v("Char"@)), list_v(con_v("Char"@)))) }));
    assert(closed_check(SchemeV { vars: seq![1100], preds: seq![PredV { class: "Num"@, ty: TyV::Var(1100), extra: Seq::empty() }], ty: fun_v(TyV::Var(1100), fun_v(TyV::Var(1100), TyV::Var(1100))) }));
    assert(closed_check(SchemeV { vars: seq![1100], preds: seq![PredV { class: "Num"@, ty: TyV::Var(1100), extra: Seq::empty() }], ty: fun_v(TyV::Var(1100), fun_v(TyV::Var(1100), TyV::Var(1100))) }));
    assert(closed_check(SchemeV { vars: seq![1100], preds: seq![PredV { class: "Num"@, ty: TyV::Var(1100), extra: Seq::empty() }], ty: fun_v(TyV::Var(1100), fun_v(TyV::Var(1100), TyV::Var(1100))) }));
    assert(closed_check(SchemeV { vars: seq![1200], preds: seq![PredV { class: "Eq"@, ty: TyV::Var(1200), extra: Seq::empty() }], ty: fun_v(TyV::Var(1200), fun_v(TyV::Var(1200), con_v("Bool"@))) }));
    assert(closed_check(SchemeV { vars: seq![1200], preds: seq![PredV { class: "Eq"@, ty: TyV::Var(1200), extra: Seq::empty() }], ty: fun_v(TyV::Var(1200), fun_v(TyV::Var(1200), con_v("Bool"@))) }));
    assert(closed_check(SchemeV { vars: seq![1300], preds: seq![PredV { class: "Ord"@, ty: TyV::Var(1300), extra: Seq::empty() }], ty: fun_v(TyV::Var(1300), fun_v(TyV::Var(1300), con_v("Bool"@))) }));
    assert(closed_check(SchemeV { vars: seq![1300], preds: seq![PredV { class: "Ord"@, ty: TyV::Var(1300), extra: Seq::empty() }], ty: fun_v(TyV::Var(1300), fun_v(TyV::Var(1300), con_v("Bool"@))) }));
    assert(closed_check(SchemeV { vars: seq![1300], preds: seq![PredV { class: "Ord"@, ty: TyV::Var(1300), extra: Seq::empty() }], ty: fun_v(TyV::Var(1300), fun_v(TyV::Var(1300), con_v("Bool"@))) }));
    assert(closed_check(SchemeV { vars: seq![1300], preds: seq![PredV { class: "Ord"@, ty: TyV::Var(1300), extra: Seq::empty() }], ty: fun_v(TyV::Var(1300), fun_v(TyV::Var(1300), con_v("Bool"@))) }));
    assert(closed_check(SchemeV { vars: seq![1350], preds: seq![PredV { class: "Ord"@, ty: TyV::Var(1350), extra: Seq::empty() }], ty: fun_v(TyV::Var(1350), fun_v(TyV::Var(1350), con_v("Ordering"@))) }));
    assert(closed_check(SchemeV { vars: seq![1360], preds: seq![PredV { class: "Ord"@, ty: TyV::Var(1360), extra: Seq::empty() }], ty: fun_v(TyV::Var(1360), fun_v(TyV::Var(1360), TyV::Var(1360))) }));
    assert(closed_check(SchemeV { vars: seq![1360], preds: seq![PredV { class: "Ord"@, ty: TyV::Var(1360), extra: Seq::empty() }], ty: fun_v(TyV::Var(1360), fun_v(TyV::Var(1360), TyV::Var(1360))) }));
    assert(closed_check(SchemeV { vars: seq![1400], preds: seq![PredV { class: "Show"@, ty: TyV::Var(1400), extra: Seq::empty() }], ty: fun_v(TyV::Var(1400), list_v(con_v("Char"@))) }));
    assert(closed_check(SchemeV { vars: seq![1150], preds: seq![PredV { class: "Num"@, ty: TyV::Var(1150), extra: Seq::empty() }], ty: fun_v(TyV::Var(1150), TyV::Var(1150)) }));
}

/// The schemes of part 2 are closed.
proof fn lemma_builtin_schemes_2_closed()
    ensures
        all_closed(builtin_schemes_2()),
{
    reveal_with_fuel(occ, 10);
    reveal_with_fuel(crate::ty_chirho::occ_seq, 5);
    reveal_with_fuel(preds_occ, 4);
    reveal_with_fuel(all_listed, 16);
    reveal_with_fuel(listed, 6);
    assert(closed_check(SchemeV { vars: seq![1160], preds: seq![PredV { class: "Num"@, ty: TyV::Var(1160), extra: Seq::empty() }], ty: fun_v(con_v("Int"@), TyV::Var(1160)) }));
    assert(closed_check(SchemeV { vars: seq![1170], preds: seq![PredV { class: "Fractional"@, ty: TyV::Var(1170), extra: Seq::empty() }], ty: fun_v(TyV::Var(1170), fun_v(TyV::Var(1170), TyV::Var(1170))) }));
    assert(closed_check(SchemeV { vars: seq![1180], preds: seq![PredV { class: "Fractional"@, ty: TyV::Var(1180), extra: Seq::empty() }], ty: fun_v(TyV::Var(1180), TyV::Var(1180)) }));
    assert(closed_check(SchemeV { vars: seq![1190], preds: seq![PredV { class: "Fractional"@, ty: TyV::Var(1190), extra: Seq::empty() }], ty: fun_v(con_v("Rational"@), TyV::Var(1190)) }));
    assert(closed_check(SchemeV { vars: seq![1195], preds: seq![PredV { class: "Read"@, ty: TyV::Var(1195), extra: Seq::empty() }], ty: fun_v(list_v(con_v("Char"@)), TyV::Var(1195)) }));
    assert(closed_check(SchemeV { vars: seq![1197], preds: seq![PredV { class: "IsString"@, ty: TyV::Var(1197), extra: Seq::empty() }], ty: fun_v(list_v(con_v("Char"@)), TyV::Var(1197)) }));
    assert(closed_check(SchemeV { vars: seq![1198, 1199], preds: seq![PredV { class: "IsList"@, ty: TyV::Var(1198), extra: Seq::empty() }], ty: fun_v(list_v(TyV::Var(1199)), TyV::Var(1198)) }));
    assert(closed_check(SchemeV { vars: seq![1198, 1199], preds: seq![PredV { class: "IsList"@, ty: TyV::Var(1198), extra: Seq::empty() }], ty: fun_v(TyV::Var(1198), list_v(TyV::Var(1199))) }));
    assert(closed_check(SchemeV { vars: Seq::empty(), preds: Seq::empty(), ty: fun_v(con_v("Int"@), fun_v(con_v("Int"@), con_v("Int"@))) }));
    assert(closed_check(SchemeV { vars: Seq::empty(), preds: Seq::empty(), ty: fun_v(con_v("Int"@), fun_v(con_v("Int"@), con_v("Int"@))) }));
    assert(closed_check(SchemeV { vars: Seq::empty(), preds: Seq::empty(), ty: fun_v(con_v("Int"@), fun_v(con_v("Int"@), con_v("Int"@))) }));
    assert(closed_check(SchemeV { vars: Seq::empty(), preds: Seq::empty(), ty: fun_v(con_v("Int"@), fun_v(con_v("Int"@), con_v("Int"@))) }));
    assert(closed_check(SchemeV { vars: seq![1500], preds: Seq::empty(), ty: fun_v(TyV::Var(1500), TyV::Var(1500)) }));
    assert(closed_check(SchemeV { vars: seq![1000], preds: Seq::empty(), ty: fun_v(TyV::Var(1000), TyV::Var(1000)) }));
    assert(closed_check(SchemeV { vars: seq![1001, 1002], preds: Seq::empty(), ty: fun_v(TyV::Var(1001), fun_v(TyV::Var(1002), TyV::Var(1001))) }));
    assert(closed_check(SchemeV { vars: seq![1003, 1004, 1005], preds: Seq::empty(), ty: fun_v(fun_v(TyV::Var(1003), fun_v(TyV::Var(1004), TyV::Var(1005))), fun_v(TyV::Var(1004), fun_v(TyV::Var(1003), TyV::Var(1005)))) }));
    assert(closed_check(SchemeV { vars: Seq::empty(), preds: Seq::empty(), ty: fun_v(con_v("Int"@), con_v("Bool"@)) }));
    assert(closed_check(SchemeV { vars: Seq::empty(), preds: Seq::empty(), ty: fun_v(con_v("Int"@), con_v("Bool"@)) }));
    assert(closed_check(SchemeV { vars: Seq::empty(), preds: Seq::empty(), ty: fun_v(con_v("Int"@), fun_v(con_v("Int"@), con_v("Int"@))) }));
    assert(closed_check(SchemeV { vars: Seq::empty(), preds: Seq::empty(), ty: fun_v(con_v("Int"@), fun_v(con_v("Int"@), con_v("Int"@))) }));
}

/// The schemes of part 3 are closed.
proof fn lemma_builtin_schemes_3_closed()
    ensures
        all_closed(builtin_schemes_3()),
{
    reveal_with_fuel(occ, 10);
    reveal_with_fuel(crate::ty_chirho::occ_seq, 5);
    reveal_with_fuel(preds_occ, 4);
    reveal_with_fuel(all_listed, 16);
    reveal_with_fuel(listed, 6);
    assert(closed_check(SchemeV { vars: seq![1003, 1004], preds: Seq::empty(), ty: fun_v(TyV::Tuple(seq![TyV::Var(1003), TyV::Var(1004)]), TyV::Var(1003)) }));
    assert(closed_check(SchemeV { vars: seq![1005, 1006], preds: Seq::empty(), ty: fun_v(TyV::Tuple(seq![TyV::Var(1005), TyV::Var(1006)]), TyV::Var(1006)) }));
    assert(closed_check(SchemeV { vars: seq![1007, 1008, 1009], preds: Seq::empty(), ty: fun_v(fun_v(TyV::Tuple(seq![TyV::Var(1007), TyV::Var(1008)]), TyV::Var(1009)), fun_v(TyV::Var(1007), fun_v(TyV::Var(1008), TyV::Var(1009)))) }));
    assert(closed_check(SchemeV { vars: seq![1010, 1011, 1012], preds: Seq::empty(), ty: fun_v(fun_v(TyV::Var(1010), fun_v(TyV::Var(1011), TyV::Var(1012))), fun_v(TyV::Tuple(seq![TyV::Var(1010), TyV::Var(1011)]), TyV::Var(1012))) }));
    assert(closed_check(SchemeV { vars: seq![3200], preds: Seq::empty(), ty: fun_v(con_v("Int"@), fun_v(list_v(TyV::Var(3200)), list_v(TyV::Var(3200)))) }));
    assert(closed_check(SchemeV { vars: seq![3210], preds: Seq::empty(), ty: fun_v(con_v("Int"@), fun_v(list_v(TyV::Var(3210)), list_v(TyV::Var(3210)))) }));
    assert(closed_check(SchemeV { vars: Seq::empty(), preds: Seq::empty(), ty: fun_v(list_v(con_v("Char"@)), list_v(list_v(con_v("Char"@)))) }));
    assert(closed_check(SchemeV { vars: Seq::empty(), preds: Seq::empty(), ty: fun_v(list_v(list_v(con_v("Char"@))), list_v(con_v("Char"@))) }));
    assert(closed_check(SchemeV { vars: Seq::empty(), preds: Seq::empty(), ty: fun_v(list_v(list_v(con_v("Char"@))), list_v(con_v("Char"@))) }));
    assert(closed_check(SchemeV { vars: Seq::empty(), preds: Seq::empty(), ty: fun_v(list_v(con_v("Char"@)), fun_v(list_v(list_v(con_v("Char"@))), list_v(con_v("Char"@)))) }));
    assert(closed_check(SchemeV { vars: Seq::empty(), preds: Seq::empty(), ty: fun_v(con_v("Int"@), con_v("Int"@)) }));
    assert(closed_check(SchemeV { vars: Seq::empty(), preds: Seq::empty(), ty: fun_v(con_v("Int"@), con_v("Double"@)) }));
    assert(closed_check(SchemeV { vars: Seq::empty(), preds: Seq::empty(), ty: fun_v(con_v("Double"@), con_v("Int"@)) }));
    assert(closed_check(SchemeV { vars: Seq::empty(), preds: Seq::empty(), ty: fun_v(con_v("Double"@), con_v("Int"@)) }));
    assert(closed_check(SchemeV { vars: Seq::empty(), preds: Seq::empty(), ty: fun_v(con_v("Double"@), con_v("Int"@)) }));
    assert(closed_check(SchemeV { vars: Seq::empty(), preds: Seq::empty(), ty: fun_v(con_v("Double"@), con_v("Int"@)) }));
    assert(closed_check(SchemeV { vars: seq![1020], preds: Seq::empty(), ty: fun_v(app_v(con_v("Maybe"@), TyV::Var(1020)), con_v("Bool"@)) }));
    assert(closed_check(SchemeV { vars: seq![1021], preds: Seq::empty(), ty: fun_v(app_v(con_v("Maybe"@), TyV::Var(1021)), con_v("Bool"@)) }));
    assert(closed_check(SchemeV { vars: seq![1022], preds: Seq::empty(), ty: fun_v(TyV::Var(1022), fun_v(app_v(con_v("Maybe"@), TyV::Var(1022)), TyV::Var(1022))) }));
    assert(closed_check(SchemeV { vars: seq![1023, 1024], preds: Seq::empty(), ty: fun_v(TyV::Var(1024), fun_v(fun_v(TyV::Var(1023), TyV::Var(1024)), fun_v(app_v(con_v("Maybe"@), TyV::Var(1023)), TyV::Var(1024)))) }));
}

/// The schemes of part 4 are closed.
proof fn lemma_builtin_schemes_4_closed()
    ensures
        all_closed(builtin_schemes_4()),
{
    reveal_with_fuel(occ, 10);
    reveal_with_fuel(crate::ty_chirho::occ_seq, 5);
    reveal_with_fuel(preds_occ, 4);
    reveal_with_fuel(all_listed, 16);
    reveal_with_fuel(listed, 6);
    assert(closed_check(SchemeV { vars: seq![1030], preds: Seq::empty(), ty: fun_v(app_v(con_v("Maybe"@), TyV::Var(1030)), list_v(TyV::Var(1030))) }));
    assert(closed_check(SchemeV { vars: seq![1031], preds: Seq::empty(), ty: fun_v(list_v(TyV::Var(1031)), app_v(con_v("Maybe"@), TyV::Var(1031))) }));
    assert(closed_check(SchemeV { vars: seq![1032], preds: Seq::empty(), ty: fun_v(list_v(app_v(con_v("Maybe"@), TyV::Var(1032))), list_v(TyV::Var(1032))) }));
    assert(closed_check(SchemeV { vars: seq![1033, 1034], preds: Seq::empty(), ty: fun_v(fun_v(TyV::Var(1033), app_v(con_v("Maybe"@), TyV::Var(1034))), fun_v(list_v(TyV::Var(1033)), list_v(TyV::Var(1034)))) }));
    assert(closed_check(SchemeV { vars: seq![1035], preds: Seq::empty(), ty: fun_v(app_v(con_v("Maybe"@), TyV::Var(1035)), TyV::Var(1035)) }));
    assert(closed_check(SchemeV { vars: seq![1036, 1037], preds: Seq::empty(), ty: fun_v(TyV::Tuple(seq![TyV::Var(1036), TyV::Var(1037)]), TyV::Tuple(seq![TyV::Var(1037), TyV::Var(1036)])) }));
    assert(closed_check(SchemeV { vars: seq![1025, 1026, 1027], preds: Seq::empty(), ty: fun_v(fun_v(TyV::Var(1025), TyV::Var(1027)), fun_v(fun_v(TyV::Var(1026), TyV::Var(1027)), fun_v(app_v(app_v(con_v("Either"@), TyV::Var(1025)), TyV::Var(1026)), TyV::Var(1027)))) }));
    assert(closed_check(SchemeV { vars: Seq::empty(), preds: Seq::empty(), ty: con_v("Bool"@) }));
    assert(closed_check(SchemeV { vars: seq![2000, 2001], preds: Seq::empty(), ty: fun_v(fun_v(TyV::Var(2000), TyV::Var(2001)), fun_v(TyV::Var(2000), TyV::Var(2001))) }));
    assert(closed_check(SchemeV { vars: seq![2010, 2011], preds: Seq::empty(), ty: fun_v(fun_v(TyV::Var(2010), TyV::Var(2011)), fun_v(TyV::Var(2010), TyV::Var(2011))) }));
    assert(closed_check(SchemeV { vars: seq![2090, 2091], preds: Seq::empty(), ty: fun_v(fun_v(TyV::Var(2090), TyV::Var(2091)), fun_v(TyV::Var(2090), TyV::Var(2091))) }));
    assert(closed_check(SchemeV { vars: seq![2100, 2101, 2102], preds: Seq::empty(), ty: fun_v(fun_v(TyV::Var(2101), TyV::Var(2102)), fun_v(fun_v(TyV::Var(2100), TyV::Var(2101)), fun_v(TyV::Var(2100), TyV::Var(2102)))) }));
    assert(closed_check(SchemeV { vars: seq![2200], preds: seq![PredV { class: "Num"@, ty: TyV::Var(2200), extra: Seq::empty() }], ty: fun_v(TyV::Var(2200), TyV::Var(2200)) }));
    assert(closed_check(SchemeV { vars: Seq::empty(), preds: Seq::empty(), ty: fun_v(list_v(con_v("Char"@)), app_v(con_v("IO"@), TyV::Tuple(Seq::empty()))) }));
    assert(closed_check(SchemeV { vars: Seq::empty(), preds: Seq::empty(), ty: fun_v(list_v(con_v("Char"@)), app_v(con_v("IO"@), TyV::Tuple(Seq::empty()))) }));
    assert(closed_check(SchemeV { vars: seq![1600], preds: seq![PredV { class: "Show"@, ty: TyV::Var(1600), extra: Seq::empty() }], ty: fun_v(TyV::Var(1600), app_v(con_v("IO"@), TyV::Tuple(Seq::empty()))) }));
    assert(closed_check(SchemeV { vars: seq![1700], preds: Seq::empty(), ty: fun_v(TyV::Var(1700), app_v(con_v("IO"@), TyV::Var(1700))) }));
    assert(closed_check(SchemeV { vars: seq![1800, 1801], preds: Seq::empty(), ty: fun_v(app_v(con_v("IO"@), TyV::Var(1800)), fun_v(fun_v(TyV::Var(1800), app_v(con_v("IO"@), TyV::Var(1801))), app_v(con_v("IO"@), TyV::Var(1801)))) }));
    assert(closed_check(SchemeV { vars: seq![1900, 1901], preds: Seq::empty(), ty: fun_v(app_v(con_v("IO"@), TyV::Var(1900)), fun_v(app_v(con_v("IO"@), TyV::Var(1901)), app_v(con_v("IO"@), TyV::Var(1901)))) }));
    assert(closed_check(SchemeV { vars: Seq::empty(), preds: Seq::empty(), ty: app_v(con_v("IO"@), list_v(con_v("Char"@))) }));
}

/// The schemes of part 5 are closed.
proof fn lemma_builtin_schemes_5_closed()
    ensures
        all_closed(builtin_schemes_5()),
{
    reveal_with_fuel(occ, 10);
    reveal_with_fuel(crate::ty_chirho::occ_seq, 5);
    reveal_with_fuel(preds_occ, 4);
    reveal_with_fuel(all_listed, 16);
    reveal_with_fuel(listed, 6);
    assert(closed_check(SchemeV { vars: Seq::empty(), preds: Seq::empty(), ty: app_v(con_v("IO"@), con_v("Char"@)) }));
    assert(closed_check(SchemeV { vars: Seq::empty(), preds: Seq::empty(), ty: app_v(con_v("IO"@), list_v(con_v("Char"@))) }));
    assert(closed_check(SchemeV { vars: Seq::empty(), preds: Seq::empty(), ty: fun_v(list_v(con_v("Char"@)), app_v(con_v("IO"@), list_v(con_v("Char"@)))) }));
    assert(closed_check(SchemeV { vars: Seq::empty(), preds: Seq::empty(), ty: fun_v(list_v(con_v("Char"@)), fun_v(list_v(con_v("Char"@)), app_v(con_v("IO"@), TyV::Tuple(Seq::empty())))) }));
    assert(closed_check(SchemeV { vars: Seq::empty(), preds: Seq::empty(), ty: fun_v(list_v(con_v("Char"@)), fun_v(list_v(con_v("Char"@)), app_v(con_v("IO"@), TyV::Tuple(Seq::empty())))) }));
    assert(closed_check(SchemeV { vars: Seq::empty(), preds: Seq::empty(), ty: fun_v(fun_v(list_v(con_v("Char"@)), list_v(con_v("Char"@))), app_v(con_v("IO"@), TyV::Tuple(Seq::empty()))) }));
    assert(closed_check(SchemeV { vars: seq![3200], preds: Seq::empty(), ty: fun_v(TyV::Var(3200), app_v(con_v("IO"@), con_v("Int"@))) }));
    assert(closed_check(SchemeV { vars: seq![3201], preds: Seq::empty(), ty: fun_v(con_v("Int"@), app_v(con_v("IO"@), TyV::Var(3201))) }));
    assert(closed_check(SchemeV { vars: seq![3202], preds: Seq::empty(), ty: fun_v(con_v("Int"@), fun_v(TyV::Var(3202), app_v(con_v("IO"@), TyV::Tuple(Seq::empty())))) }));
    assert(closed_check(SchemeV { vars: seq![3203], preds: Seq::empty(), ty: fun_v(con_v("Int"@), fun_v(fun_v(TyV::Var(3203), TyV::Var(3203)), app_v(con_v("IO"@), TyV::Tuple(Seq::empty())))) }));
    assert(closed_check(SchemeV { vars: seq![3280], preds: Seq::empty(), ty: fun_v(TyV::Var(3280), con_v("Int"@)) }));
    assert(closed_check(SchemeV { vars: seq![3281], preds: Seq::empty(), ty: fun_v(con_v("Int"@), TyV::Var(3281)) }));
    assert(closed_check(SchemeV { vars: seq![3282], preds: Seq::empty(), ty: fun_v(con_v("Int"@), fun_v(TyV::Var(3282), TyV::Tuple(Seq::empty()))) }));
    assert(closed_check(SchemeV { vars: seq![3284], preds: Seq::empty(), ty: fun_v(con_v("Int"@), fun_v(fun_v(TyV::Var(3284), TyV::Var(3284)), TyV::Tuple(Seq::empty()))) }));
    assert(closed_check(SchemeV { vars: seq![3283], preds: Seq::empty(), ty: fun_v(TyV::Var(3283), TyV::Var(3283)) }));
    assert(closed_check(SchemeV { vars: seq![3290], preds: Seq::empty(), ty: fun_v(TyV::Var(3290), app_v(con_v("IO"@), con_v("Int"@))) }));
    assert(closed_check(SchemeV { vars: seq![3291], preds: Seq::empty(), ty: fun_v(TyV::Var(3291), app_v(con_v("IO"@), con_v("Int"@))) }));
    assert(closed_check(SchemeV { vars: seq![3292], preds: Seq::empty(), ty: fun_v(con_v("Int"@), app_v(con_v("IO"@), TyV::Var(3292))) }));
    assert(closed_check(SchemeV { vars: seq![3293], preds: Seq::empty(), ty: fun_v(con_v("Int"@), app_v(con_v("IO"@), TyV::Var(3293))) }));
    assert(closed_check(SchemeV { vars: seq![3294], preds: Seq::empty(), ty: fun_v(con_v("Int"@), fun_v(TyV::Var(3294), app_v(con_v("IO"@), TyV::Tuple(Seq::empty())))) }));
}

/// The schemes of part 6 are closed.
proof fn lemma_builtin_schemes_6_closed()
    ensures
        all_closed(builtin_schemes_6()),
{
    reveal_with_fuel(occ, 10);
    reveal_with_fuel(crate::ty_chirho::occ_seq, 5);
    reveal_with_fuel(preds_occ, 4);
    reveal_with_fuel(all_listed, 16);
    reveal_with_fuel(listed, 6);
    assert(closed_check(SchemeV { vars: seq![3295], preds: Seq::empty(), ty: fun_v(app_v(con_v("IO"@), TyV::Var(3295)), app_v(con_v("IO"@), TyV::Var(3295))) }));
    assert(closed_check(SchemeV { vars: seq![3296], preds: Seq::empty(), ty: app_v(con_v("IO"@), TyV::Var(3296)) }));
    assert(closed_check(SchemeV { vars: seq![3297], preds: Seq::empty(), ty: fun_v(app_v(con_v("IO"@), TyV::Var(3297)), fun_v(app_v(con_v("IO"@), TyV::Var(3297)), app_v(con_v("IO"@), TyV::Var(3297)))) }));
    assert(closed_check(SchemeV { vars: seq![3400, 3401], preds: Seq::empty(), ty: fun_v(app_v(con_v("IO"@), TyV::Var(3400)), fun_v(TyV::Var(3401), app_v(con_v("IO"@), TyV::Var(3400)))) }));
    assert(closed_check(SchemeV { vars: seq![3402, 3403], preds: Seq::empty(), ty: fun_v(app_v(con_v("IO"@), TyV::Var(3402)), fun_v(TyV::Var(3403), app_v(con_v("IO"@), TyV::Var(3402)))) }));
    assert(closed_check(SchemeV { vars: seq![3402, 3403], preds: Seq::empty(), ty: fun_v(app_v(con_v("IO"@), TyV::Var(3402)), fun_v(TyV::Var(3403), app_v(con_v("IO"@), TyV::Var(3402)))) }));
    assert(closed_check(SchemeV { vars: seq![3404, 3405], preds: Seq::empty(), ty: fun_v(app_v(con_v("IO"@), TyV::Var(3404)), fun_v(TyV::Var(3405), app_v(con_v("IO"@), TyV::Var(3405)))) }));
    assert(closed_check(SchemeV { vars: seq![3404, 3405], preds: Seq::empty(), ty: fun_v(app_v(con_v("IO"@), TyV::Var(3404)), fun_v(TyV::Var(3405), app_v(con_v("IO"@), TyV::Var(3405)))) }));
    assert(closed_check(SchemeV { vars: seq![3406], preds: Seq::empty(), ty: app_v(con_v("IO"@), TyV::Var(3406)) }));
    assert(closed_check(SchemeV { vars: seq![3407], preds: Seq::empty(), ty: fun_v(TyV::Var(3407), app_v(con_v("IO"@), TyV::Tuple(Seq::empty()))) }));
    assert(closed_check(SchemeV { vars: seq![3408], preds: Seq::empty(), ty: fun_v(fun_v(TyV::Var(3408), TyV::Var(3408)), app_v(con_v("IO"@), TyV::Tuple(Seq::empty()))) }));
    assert(closed_check(SchemeV { vars: seq![3410, 3411], preds: Seq::empty(), ty: fun_v(app_v(con_v("IO"@), TyV::Var(3410)), fun_v(TyV::Var(3411), app_v(con_v("IO"@), TyV::Var(3410)))) }));
    assert(closed_check(SchemeV { vars: seq![3412], preds: Seq::empty(), ty: app_v(con_v("IO"@), TyV::Var(3412)) }));
    assert(closed_check(SchemeV { vars: seq![3413, 3414], preds: Seq::empty(), ty: fun_v(fun_v(TyV::Var(3413), TyV::Var(3413)), fun_v(app_v(con_v("IO"@), TyV::Var(3414)), app_v(con_v("IO"@), TyV::Var(3414)))) }));
    assert(closed_check(SchemeV { vars: seq![3420], preds: Seq::empty(), ty: fun_v(app_v(con_v("IO"@), TyV::Var(3420)), app_v(con_v("IO"@), TyV::Var(3420))) }));
    assert(closed_check(SchemeV { vars: seq![3421, 3422], preds: Seq::empty(), ty: fun_v(TyV::Var(3422), app_v(con_v("IO"@), TyV::Var(3421))) }));
    assert(closed_check(SchemeV { vars: seq![3423, 3424], preds: Seq::empty(), ty: fun_v(app_v(con_v("IO"@), TyV::Var(3423)), fun_v(fun_v(TyV::Var(3424), app_v(con_v("IO"@), TyV::Var(3423))), app_v(con_v("IO"@), TyV::Var(3423)))) }));
    assert(closed_check(SchemeV { vars: seq![3430], preds: Seq::empty(), ty: fun_v(app_v(con_v("IO"@), TyV::Var(3430)), app_v(con_v("IO"@), TyV::Var(3430))) }));
    assert(closed_check(SchemeV { vars: seq![3431], preds: Seq::empty(), ty: fun_v(TyV::Var(3431), app_v(con_v("IO"@), TyV::Tuple(Seq::empty()))) }));
    assert(closed_check(SchemeV { vars: seq![3440], preds: Seq::empty(), ty: fun_v(app_v(con_v("IO"@), TyV::Var(3440)), app_v(con_v("IO"@), TyV::Var(3440))) }));
}

/// The schemes of part 7 are closed.
proof fn lemma_builtin_schemes_7_closed()
    ensures
        all_closed(builtin_schemes_7()),
{
    reveal_with_fuel(occ, 10);
    reveal_with_fuel(crate::ty_chirho::occ_seq, 5);
    reveal_with_fuel(preds_occ, 4);
    reveal_with_fuel(all_listed, 16);
    reveal_with_fuel(listed, 6);
    assert(closed_check(SchemeV { vars: Seq::empty(), preds: Seq::empty(), ty: con_v("Int"@) }));
    assert(closed_check(SchemeV { vars: seq![3210, 3211], preds: Seq::empty(), ty: fun_v(TyV::Var(3210), fun_v(TyV::Var(3211), con_v("Int"@))) }));
    assert(closed_check(SchemeV { vars: seq![3212, 3800], preds: seq![PredV { class: "Ord"@, ty: TyV::Var(3212), extra: Seq::empty() }], ty: fun_v(TyV::Var(3212), fun_v(TyV::Var(3800), fun_v(con_v("Int"@), con_v("Int"@)))) }));
    assert(closed_check(SchemeV { vars: seq![3801, 3213], preds: seq![PredV { class: "Ord"@, ty: TyV::Var(3801), extra: Seq::empty() }], ty: fun_v(TyV::Var(3801), fun_v(con_v("Int"@), TyV::Var(3213))) }));
    assert(closed_check(SchemeV { vars: Seq::empty(), preds: Seq::empty(), ty: fun_v(con_v("Int"@), con_v("Int"@)) }));
    assert(closed_check(SchemeV { vars: seq![3802], preds: seq![PredV { class: "Ord"@, ty: TyV::Var(3802), extra: Seq::empty() }], ty: fun_v(TyV::Var(3802), fun_v(con_v("Int"@), con_v("Bool"@))) }));
    assert(closed_check(SchemeV { vars: seq![3803, 3214], preds: seq![PredV { class: "Ord"@, ty: TyV::Var(3803), extra: Seq::empty() }], ty: fun_v(list_v(TyV::Tuple(seq![TyV::Var(3803), TyV::Var(3214)])), con_v("Int"@)) }));
    assert(closed_check(SchemeV { vars: seq![3804], preds: seq![PredV { class: "Ord"@, ty: TyV::Var(3804), extra: Seq::empty() }], ty: fun_v(TyV::Var(3804), fun_v(con_v("Int"@), con_v("Int"@))) }));
    assert(closed_check(SchemeV { vars: seq![3220], preds: Seq::empty(), ty: fun_v(con_v("Int"@), list_v(TyV::Tuple(seq![con_v("Int"@), TyV::Var(3220)]))) }));
    assert(closed_check(SchemeV { vars: Seq::empty(), preds: Seq::empty(), ty: fun_v(con_v("Int"@), list_v(con_v("Int"@))) }));
    assert(closed_check(SchemeV { vars: seq![3222], preds: Seq::empty(), ty: fun_v(con_v("Int"@), list_v(TyV::Var(3222))) }));
    assert(closed_check(SchemeV { vars: Seq::empty(), preds: Seq::empty(), ty: fun_v(con_v("Int"@), con_v("Bool"@)) }));
    assert(closed_check(SchemeV { vars: seq![3224, 3225], preds: Seq::empty(), ty: fun_v(fun_v(TyV::Var(3224), TyV::Var(3225)), fun_v(con_v("Int"@), con_v("Int"@))) }));
    assert(closed_check(SchemeV { vars: seq![3226, 3227], preds: Seq::empty(), ty: fun_v(fun_v(TyV::Var(3226), fun_v(con_v("Int"@), fun_v(TyV::Var(3227), TyV::Var(3226)))), fun_v(TyV::Var(3226), fun_v(con_v("Int"@), TyV::Var(3226)))) }));
    assert(closed_check(SchemeV { vars: seq![3840, 3841], preds: Seq::empty(), ty: fun_v(fun_v(con_v("Int"@), fun_v(TyV::Var(3841), fun_v(TyV::Var(3840), TyV::Var(3840)))), fun_v(TyV::Var(3840), fun_v(con_v("Int"@), TyV::Var(3840)))) }));
    assert(closed_check(SchemeV { vars: seq![3845, 3846], preds: Seq::empty(), ty: fun_v(fun_v(TyV::Var(3845), fun_v(con_v("Int"@), fun_v(TyV::Var(3846), TyV::Var(3845)))), fun_v(TyV::Var(3845), fun_v(con_v("Int"@), TyV::Var(3845)))) }));
    assert(closed_check(SchemeV { vars: seq![3805, 3230], preds: seq![PredV { class: "Ord"@, ty: TyV::Var(3805), extra: Seq::empty() }], ty: fun_v(fun_v(TyV::Var(3230), fun_v(TyV::Var(3230), TyV::Var(3230))), fun_v(TyV::Var(3805), fun_v(TyV::Var(3230), fun_v(con_v("Int"@), con_v("Int"@))))) }));
    assert(closed_check(SchemeV { vars: seq![3806, 3231], preds: seq![PredV { class: "Ord"@, ty: TyV::Var(3806), extra: Seq::empty() }], ty: fun_v(TyV::Var(3231), fun_v(TyV::Var(3806), fun_v(con_v("Int"@), TyV::Var(3231)))) }));
    assert(closed_check(SchemeV { vars: seq![3807, 3232], preds: seq![PredV { class: "Ord"@, ty: TyV::Var(3807), extra: Seq::empty() }], ty: fun_v(fun_v(TyV::Var(3232), TyV::Var(3232)), fun_v(TyV::Var(3807), fun_v(con_v("Int"@), con_v("Int"@)))) }));
    assert(closed_check(SchemeV { vars: seq![3233], preds: Seq::empty(), ty: fun_v(fun_v(TyV::Var(3233), fun_v(TyV::Var(3233), TyV::Var(3233))), fun_v(con_v("Int"@), fun_v(con_v("Int"@), con_v("Int"@)))) }));
}

/// The schemes of part 8 are closed.
proof fn lemma_builtin_schemes_8_closed()
    ensures
        all_closed(builtin_schemes_8()),
{
    reveal_with_fuel(occ, 10);
    reveal_with_fuel(crate::ty_chirho::occ_seq, 5);
    reveal_with_fuel(preds_occ, 4);
    reveal_with_fuel(all_listed, 16);
    reveal_with_fuel(listed, 6);
    assert(closed_check(SchemeV { vars: Seq::empty(), preds: Seq::empty(), ty: fun_v(con_v("Int"@), fun_v(con_v("Int"@), con_v("Int"@))) }));
    assert(closed_check(SchemeV { vars: Seq::empty(), preds: Seq::empty(), ty: fun_v(con_v("Int"@), fun_v(con_v("Int"@), con_v("Int"@))) }));
    assert(closed_check(SchemeV { vars: seq![3234], preds: Seq::empty(), ty: fun_v(fun_v(TyV::Var(3234), fun_v(TyV::Var(3234), TyV::Var(3234))), fun_v(con_v("Int"@), fun_v(con_v("Int"@), con_v("Int"@)))) }));
    assert(closed_check(SchemeV { vars: seq![3235], preds: Seq::empty(), ty: fun_v(fun_v(TyV::Var(3235), con_v("Bool"@)), fun_v(con_v("Int"@), con_v("Int"@))) }));
    assert(closed_check(SchemeV { vars: Seq::empty(), preds: Seq::empty(), ty: con_v("Int"@) }));
    assert(closed_check(SchemeV { vars: Seq::empty(), preds: Seq::empty(), ty: fun_v(con_v("Int"@), con_v("Int"@)) }));
    assert(closed_check(SchemeV { vars: Seq::empty(), preds: Seq::empty(), ty: fun_v(con_v("Int"@), fun_v(con_v("Int"@), con_v("Int"@))) }));
    assert(closed_check(SchemeV { vars: Seq::empty(), preds: Seq::empty(), ty: fun_v(con_v("Int"@), fun_v(con_v("Int"@), con_v("Bool"@))) }));
    assert(closed_check(SchemeV { vars: Seq::empty(), preds: Seq::empty(), ty: fun_v(con_v("Int"@), con_v("Int"@)) }));
    assert(closed_check(SchemeV { vars: Seq::empty(), preds: Seq::empty(), ty: fun_v(con_v("Int"@), list_v(con_v("Int"@))) }));
    assert(closed_check(SchemeV { vars: Seq::empty(), preds: Seq::empty(), ty: fun_v(list_v(con_v("Int"@)), con_v("Int"@)) }));
    assert(closed_check(SchemeV { vars: Seq::empty(), preds: Seq::empty(), ty: fun_v(con_v("Int"@), fun_v(con_v("Int"@), con_v("Int"@))) }));
    assert(closed_check(SchemeV { vars: Seq::empty(), preds: Seq::empty(), ty: fun_v(con_v("Int"@), fun_v(con_v("Int"@), con_v("Int"@))) }));
    assert(closed_check(SchemeV { vars: Seq::empty(), preds: Seq::empty(), ty: fun_v(con_v("Int"@), fun_v(con_v("Int"@), con_v("Int"@))) }));
    assert(closed_check(SchemeV { vars: Seq::empty(), preds: Seq::empty(), ty: fun_v(con_v("Int"@), fun_v(con_v("Int"@), con_v("Int"@))) }));
    assert(closed_check(SchemeV { vars: Seq::empty(), preds: Seq::empty(), ty: fun_v(fun_v(con_v("Int"@), con_v("Bool"@)), fun_v(con_v("Int"@), con_v("Int"@))) }));
    assert(closed_check(SchemeV { vars: Seq::empty(), preds: Seq::empty(), ty: fun_v(fun_v(con_v("Int"@), con_v("Int"@)), fun_v(con_v("Int"@), con_v("Int"@))) }));
    assert(closed_check(SchemeV { vars: seq![3230], preds: Seq::empty(), ty: fun_v(fun_v(con_v("Int"@), fun_v(TyV::Var(3230), TyV::Var(3230))), fun_v(TyV::Var(3230), fun_v(con_v("Int"@), TyV::Var(3230)))) }));
    assert(closed_check(SchemeV { vars: seq![3231], preds: Seq::empty(), ty: fun_v(fun_v(con_v("Int"@), fun_v(TyV::Var(3231), TyV::Var(3231))), fun_v(TyV::Var(3231), fun_v(con_v("Int"@), TyV::Var(3231)))) }));
    assert(closed_check(SchemeV { vars: Seq::empty(), preds: Seq::empty(), ty: fun_v(con_v("Bool"@), fun_v(app_v(con_v("IO"@), TyV::Tuple(Seq::empty())), app_v(con_v("IO"@), TyV::Tuple(Seq::empty())))) }));
}

/// The schemes of part 9 are closed.
proof fn lemma_builtin_schemes_9_closed()
    ensures
        all_closed(builtin_schemes_9()),
{
    reveal_with_fuel(occ, 10);
    reveal_with_fuel(crate::ty_chirho::occ_seq, 5);
    reveal_with_fuel(preds_occ, 4);
    reveal_with_fuel(all_listed, 16);
    reveal_with_fuel(listed, 6);
    assert(closed_check(SchemeV { vars: Seq::empty(), preds: Seq::empty(), ty: fun_v(con_v("Bool"@), fun_v(app_v(con_v("IO"@), TyV::Tuple(Seq::empty())), app_v(con_v("IO"@), TyV::Tuple(Seq::empty())))) }));
    assert(closed_check(SchemeV { vars: seq![3500], preds: Seq::empty(), ty: fun_v(fun_v(TyV::Var(3500), app_v(con_v("IO"@), TyV::Tuple(Seq::empty()))), fun_v(list_v(TyV::Var(3500)), app_v(con_v("IO"@), TyV::Tuple(Seq::empty())))) }));
    assert(closed_check(SchemeV { vars: seq![3501], preds: Seq::empty(), ty: fun_v(list_v(TyV::Var(3501)), fun_v(fun_v(TyV::Var(3501), app_v(con_v("IO"@), TyV::Tuple(Seq::empty()))), app_v(con_v("IO"@), TyV::Tuple(Seq::empty())))) }));
    assert(closed_check(SchemeV { vars: Seq::empty(), preds: Seq::empty(), ty: fun_v(con_v("Char"@), app_v(con_v("IO"@), TyV::Tuple(Seq::empty()))) }));
    assert(closed_check(SchemeV { vars: Seq::empty(), preds: Seq::empty(), ty: fun_v(list_v(app_v(con_v("IO"@), TyV::Tuple(Seq::empty()))), app_v(con_v("IO"@), TyV::Tuple(Seq::empty()))) }));
    assert(closed_check(SchemeV { vars: seq![3510], preds: Seq::empty(), ty: fun_v(app_v(con_v("IO"@), TyV::Var(3510)), app_v(con_v("IO"@), TyV::Tuple(Seq::empty()))) }));
    assert(closed_check(SchemeV { vars: Seq::empty(), preds: Seq::empty(), ty: fun_v(con_v("Bool"@), app_v(con_v("IO"@), TyV::Tuple(Seq::empty()))) }));
    assert(closed_check(SchemeV { vars: Seq::empty(), preds: Seq::empty(), ty: fun_v(fun_v(list_v(con_v("Char"@)), list_v(con_v("Char"@))), app_v(con_v("IO"@), TyV::Tuple(Seq::empty()))) }));
    assert(closed_check(SchemeV { vars: Seq::empty(), preds: Seq::empty(), ty: fun_v(list_v(con_v("Char"@)), list_v(list_v(con_v("Char"@)))) }));
    assert(closed_check(SchemeV { vars: Seq::empty(), preds: Seq::empty(), ty: fun_v(list_v(list_v(con_v("Char"@))), list_v(con_v("Char"@))) }));
    assert(closed_check(SchemeV { vars: seq![3400], preds: Seq::empty(), ty: fun_v(list_v(con_v("Char"@)), TyV::Var(3400)) }));
    assert(closed_check(SchemeV { vars: seq![3401], preds: Seq::empty(), ty: TyV::Var(3401) }));
    assert(closed_check(SchemeV { vars: seq![3402, 3403], preds: Seq::empty(), ty: fun_v(TyV::Var(3402), fun_v(TyV::Var(3403), TyV::Var(3403))) }));
    assert(closed_check(SchemeV { vars: seq![3410, 3411], preds: seq![PredV { class: "NFData"@, ty: TyV::Var(3410), extra: Seq::empty() }], ty: fun_v(TyV::Var(3410), fun_v(TyV::Var(3411), TyV::Var(3411))) }));
    assert(closed_check(SchemeV { vars: seq![3412], preds: seq![PredV { class: "NFData"@, ty: TyV::Var(3412), extra: Seq::empty() }], ty: fun_v(TyV::Var(3412), TyV::Var(3412)) }));
    assert(closed_check(SchemeV { vars: seq![3413], preds: Seq::empty(), ty: fun_v(TyV::Var(3413), app_v(con_v("IO"@), TyV::Var(3413))) }));
    assert(closed_check(SchemeV { vars: seq![3414], preds: seq![PredV { class: "NFData"@, ty: TyV::Var(3414), extra: Seq::empty() }], ty: fun_v(TyV::Var(3414), TyV::Tuple(Seq::empty())) }));
    assert(closed_check(SchemeV { vars: seq![3600], preds: seq![PredV { class: "Semigroup"@, ty: TyV::Var(3600), extra: Seq::empty() }], ty: fun_v(TyV::Var(3600), fun_v(TyV::Var(3600), TyV::Var(3600))) }));
    assert(closed_check(SchemeV { vars: seq![3601], preds: seq![PredV { class: "Monoid"@, ty: TyV::Var(3601), extra: Seq::empty() }], ty: TyV::Var(3601) }));
    assert(closed_check(SchemeV { vars: seq![3602], preds: seq![PredV { class: "Monoid"@, ty: TyV::Var(3602), extra: Seq::empty() }], ty: fun_v(list_v(TyV::Var(3602)), TyV::Var(3602)) }));
}

/// The schemes of part 10 are closed.
proof fn lemma_builtin_schemes_10_closed()
    ensures
        all_closed(builtin_schemes_10()),
{
    reveal_with_fuel(occ, 10);
    reveal_with_fuel(crate::ty_chirho::occ_seq, 5);
    reveal_with_fuel(preds_occ, 4);
    reveal_with_fuel(all_listed, 16);
    reveal_with_fuel(listed, 6);
    assert(closed_check(SchemeV { vars: seq![3700], preds: Seq::empty(), ty: fun_v(fun_v(TyV::Var(3700), fun_v(TyV::Var(3700), con_v("Ordering"@))), fun_v(list_v(TyV::Var(3700)), list_v(TyV::Var(3700)))) }));
    assert(closed_check(SchemeV { vars: seq![3701], preds: Seq::empty(), ty: fun_v(fun_v(TyV::Var(3701), fun_v(TyV::Var(3701), con_v("Ordering"@))), fun_v(TyV::Var(3701), fun_v(list_v(TyV::Var(3701)), list_v(TyV::Var(3701))))) }));
    assert(closed_check(SchemeV { vars: seq![3702], preds: Seq::empty(), ty: fun_v(fun_v(TyV::Var(3702), fun_v(TyV::Var(3702), con_v("Bool"@))), fun_v(list_v(TyV::Var(3702)), list_v(TyV::Var(3702)))) }));
    assert(closed_check(SchemeV { vars: seq![3703], preds: Seq::empty(), ty: fun_v(fun_v(TyV::Var(3703), fun_v(TyV::Var(3703), con_v("Ordering"@))), fun_v(list_v(TyV::Var(3703)), TyV::Var(3703))) }));
    assert(closed_check(SchemeV { vars: seq![3704], preds: Seq::empty(), ty: fun_v(fun_v(TyV::Var(3704), fun_v(TyV::Var(3704), con_v("Ordering"@))), fun_v(list_v(TyV::Var(3704)), TyV::Var(3704))) }));
    assert(closed_check(SchemeV { vars: seq![3705, 3706, 3707], preds: Seq::empty(), ty: fun_v(fun_v(TyV::Var(3706), fun_v(TyV::Var(3706), TyV::Var(3707))), fun_v(fun_v(TyV::Var(3705), TyV::Var(3706)), fun_v(TyV::Var(3705), fun_v(TyV::Var(3705), TyV::Var(3707))))) }));
    assert(closed_check(SchemeV { vars: seq![3710], preds: Seq::empty(), ty: fun_v(fun_v(TyV::Var(3710), con_v("Bool"@)), fun_v(list_v(TyV::Var(3710)), app_v(con_v("Maybe"@), TyV::Var(3710)))) }));
    assert(closed_check(SchemeV { vars: seq![3711], preds: Seq::empty(), ty: fun_v(fun_v(TyV::Var(3711), fun_v(TyV::Var(3711), con_v("Bool"@))), fun_v(list_v(TyV::Var(3711)), list_v(list_v(TyV::Var(3711))))) }));
    assert(closed_check(SchemeV { vars: seq![3000, 3001], preds: Seq::empty(), ty: fun_v(fun_v(TyV::Var(3000), TyV::Var(3001)), fun_v(list_v(TyV::Var(3000)), list_v(TyV::Var(3001)))) }));
    assert(closed_check(SchemeV { vars: seq![3010], preds: Seq::empty(), ty: fun_v(fun_v(TyV::Var(3010), con_v("Bool"@)), fun_v(list_v(TyV::Var(3010)), list_v(TyV::Var(3010)))) }));
    assert(closed_check(SchemeV { vars: seq![3020, 3021], preds: Seq::empty(), ty: fun_v(fun_v(TyV::Var(3020), fun_v(TyV::Var(3021), TyV::Var(3021))), fun_v(TyV::Var(3021), fun_v(list_v(TyV::Var(3020)), TyV::Var(3021)))) }));
    assert(closed_check(SchemeV { vars: seq![3030, 3031], preds: Seq::empty(), ty: fun_v(fun_v(TyV::Var(3031), fun_v(TyV::Var(3030), TyV::Var(3031))), fun_v(TyV::Var(3031), fun_v(list_v(TyV::Var(3030)), TyV::Var(3031)))) }));
    assert(closed_check(SchemeV { vars: seq![3040], preds: Seq::empty(), ty: fun_v(list_v(TyV::Var(3040)), TyV::Var(3040)) }));
    assert(closed_check(SchemeV { vars: seq![3050], preds: Seq::empty(), ty: fun_v(list_v(TyV::Var(3050)), list_v(TyV::Var(3050))) }));
    assert(closed_check(SchemeV { vars: seq![3060], preds: Seq::empty(), ty: fun_v(list_v(TyV::Var(3060)), con_v("Bool"@)) }));
    assert(closed_check(SchemeV { vars: seq![3070], preds: Seq::empty(), ty: fun_v(list_v(TyV::Var(3070)), con_v("Int"@)) }));
    assert(closed_check(SchemeV { vars: seq![3080], preds: Seq::empty(), ty: fun_v(list_v(TyV::Var(3080)), list_v(TyV::Var(3080))) }));
    assert(closed_check(SchemeV { vars: seq![3090, 3091], preds: Seq::empty(), ty: fun_v(list_v(TyV::Var(3090)), fun_v(list_v(TyV::Var(3091)), list_v(TyV::Tuple(seq![TyV::Var(3090), TyV::Var(3091)])))) }));
    assert(closed_check(SchemeV { vars: seq![3100, 3101, 3102], preds: Seq::empty(), ty: fun_v(fun_v(TyV::Var(3100), fun_v(TyV::Var(3101), TyV::Var(3102))), fun_v(list_v(TyV::Var(3100)), fun_v(list_v(TyV::Var(3101)), list_v(TyV::Var(3102))))) }));
    assert(closed_check(SchemeV { vars: seq![3105], preds: Seq::empty(), ty: fun_v(list_v(TyV::Var(3105)), fun_v(list_v(TyV::Var(3105)), list_v(TyV::Var(3105)))) }));
}

/// The schemes of part 11 are closed.
proof fn lemma_builtin_schemes_11_closed()
    ensures
        all_closed(builtin_schemes_11()),
{
    reveal_with_fuel(occ, 10);
    reveal_with_fuel(crate::ty_chirho::occ_seq, 5);
    reveal_with_fuel(preds_occ, 4);
    reveal_with_fuel(all_listed, 16);
    reveal_with_fuel(listed, 6);
    assert(closed_check(SchemeV { vars: seq![3110], preds: Seq::empty(), ty: fun_v(list_v(TyV::Var(3110)), fun_v(list_v(TyV::Var(3110)), list_v(TyV::Var(3110)))) }));
    assert(closed_check(SchemeV { vars: seq![3120], preds: Seq::empty(), ty: fun_v(fun_v(TyV::Var(3120), con_v("Bool"@)), fun_v(list_v(TyV::Var(3120)), con_v("Bool"@))) }));
    assert(closed_check(SchemeV { vars: seq![3130], preds: Seq::empty(), ty: fun_v(fun_v(TyV::Var(3130), con_v("Bool"@)), fun_v(list_v(TyV::Var(3130)), con_v("Bool"@))) }));
    assert(closed_check(SchemeV { vars: Seq::empty(), preds: Seq::empty(), ty: fun_v(list_v(con_v("Int"@)), con_v("Int"@)) }));
    assert(closed_check(SchemeV { vars: Seq::empty(), preds: Seq::empty(), ty: fun_v(list_v(con_v("Int"@)), con_v("Int"@)) }));
    assert(closed_check(SchemeV { vars: seq![3140, 3141], preds: Seq::empty(), ty: fun_v(fun_v(TyV::Var(3140), list_v(TyV::Var(3141))), fun_v(list_v(TyV::Var(3140)), list_v(TyV::Var(3141)))) }));
    assert(closed_check(SchemeV { vars: seq![3150], preds: Seq::empty(), ty: fun_v(list_v(TyV::Var(3150)), TyV::Var(3150)) }));
    assert(closed_check(SchemeV { vars: seq![3160], preds: Seq::empty(), ty: fun_v(list_v(TyV::Var(3160)), list_v(TyV::Var(3160))) }));
    assert(closed_check(SchemeV { vars: seq![3500], preds: Seq::empty(), ty: fun_v(TyV::Var(3500), fun_v(list_v(TyV::Var(3500)), con_v("Bool"@))) }));
    assert(closed_check(SchemeV { vars: seq![3501], preds: Seq::empty(), ty: fun_v(TyV::Var(3501), fun_v(list_v(TyV::Var(3501)), con_v("Bool"@))) }));
    assert(closed_check(SchemeV { vars: Seq::empty(), preds: Seq::empty(), ty: fun_v(list_v(con_v("Int"@)), con_v("Int"@)) }));
    assert(closed_check(SchemeV { vars: Seq::empty(), preds: Seq::empty(), ty: fun_v(list_v(con_v("Int"@)), con_v("Int"@)) }));
    assert(closed_check(SchemeV { vars: Seq::empty(), preds: Seq::empty(), ty: fun_v(list_v(con_v("Int"@)), list_v(con_v("Int"@))) }));
    assert(closed_check(SchemeV { vars: Seq::empty(), preds: Seq::empty(), ty: fun_v(con_v("Int"@), fun_v(list_v(con_v("Int"@)), list_v(con_v("Int"@)))) }));
    assert(closed_check(SchemeV { vars: seq![2210], preds: seq![PredV { class: "Num"@, ty: TyV::Var(2210), extra: Seq::empty() }], ty: fun_v(TyV::Var(2210), TyV::Var(2210)) }));
    assert(closed_check(SchemeV { vars: seq![2211], preds: seq![PredV { class: "Num"@, ty: TyV::Var(2211), extra: Seq::empty() }], ty: fun_v(TyV::Var(2211), TyV::Var(2211)) }));
    assert(closed_check(SchemeV { vars: Seq::empty(), preds: Seq::empty(), ty: fun_v(con_v("Int"@), con_v("Bool"@)) }));
    assert(closed_check(SchemeV { vars: Seq::empty(), preds: Seq::empty(), ty: fun_v(con_v("Int"@), con_v("Bool"@)) }));
    assert(closed_check(SchemeV { vars: seq![3250], preds: Seq::empty(), ty: fun_v(con_v("Int"@), fun_v(TyV::Var(3250), list_v(TyV::Var(3250)))) }));
    assert(closed_check(SchemeV { vars: seq![3300], preds: Seq::empty(), ty: fun_v(fun_v(TyV::Var(3300), con_v("Bool"@)), fun_v(list_v(TyV::Var(3300)), list_v(TyV::Var(3300)))) }));
}

/// The schemes of part 12 are closed.
proof fn lemma_builtin_schemes_12_closed()
    ensures
        all_closed(builtin_schemes_12()),
{
    reveal_with_fuel(occ, 10);
    reveal_with_fuel(crate::ty_chirho::occ_seq, 5);
    reveal_with_fuel(preds_occ, 4);
    reveal_with_fuel(all_listed, 16);
    reveal_with_fuel(listed, 6);
    assert(closed_check(SchemeV { vars: seq![3301], preds: Seq::empty(), ty: fun_v(fun_v(TyV::Var(3301), con_v("Bool"@)), fun_v(list_v(TyV::Var(3301)), list_v(TyV::Var(3301)))) }));
    assert(closed_check(SchemeV { vars: seq![3302], preds: Seq::empty(), ty: fun_v(fun_v(TyV::Var(3302), TyV::Var(3302)), fun_v(TyV::Var(3302), list_v(TyV::Var(3302)))) }));
    assert(closed_check(SchemeV { vars: seq![3303, 3304], preds: Seq::empty(), ty: fun_v(TyV::Var(3303), fun_v(list_v(TyV::Tuple(seq![TyV::Var(3303), TyV::Var(3304)])), app_v(con_v("Maybe"@), TyV::Var(3304)))) }));
    assert(closed_check(SchemeV { vars: seq![3305, 3306], preds: Seq::empty(), ty: fun_v(list_v(TyV::Tuple(seq![TyV::Var(3305), TyV::Var(3306)])), TyV::Tuple(seq![list_v(TyV::Var(3305)), list_v(TyV::Var(3306))])) }));
    assert(closed_check(SchemeV { vars: seq![3307, 3308], preds: Seq::empty(), ty: fun_v(fun_v(TyV::Var(3308), fun_v(TyV::Var(3307), TyV::Var(3308))), fun_v(TyV::Var(3308), fun_v(list_v(TyV::Var(3307)), list_v(TyV::Var(3308))))) }));
    assert(closed_check(SchemeV { vars: seq![3309], preds: Seq::empty(), ty: fun_v(fun_v(TyV::Var(3309), con_v("Bool"@)), fun_v(list_v(TyV::Var(3309)), TyV::Tuple(seq![list_v(TyV::Var(3309)), list_v(TyV::Var(3309))]))) }));
    assert(closed_check(SchemeV { vars: seq![3310], preds: Seq::empty(), ty: fun_v(fun_v(TyV::Var(3310), con_v("Bool"@)), fun_v(list_v(TyV::Var(3310)), TyV::Tuple(seq![list_v(TyV::Var(3310)), list_v(TyV::Var(3310))]))) }));
    assert(closed_check(SchemeV { vars: seq![3311], preds: Seq::empty(), ty: fun_v(fun_v(TyV::Var(3311), con_v("Bool"@)), fun_v(list_v(TyV::Var(3311)), TyV::Tuple(seq![list_v(TyV::Var(3311)), list_v(TyV::Var(3311))]))) }));
    assert(closed_check(SchemeV { vars: seq![3240], preds: Seq::empty(), ty: fun_v(list_v(con_v("Char"@)), fun_v(TyV::Var(3240), fun_v(con_v("Int"@), con_v("Int"@)))) }));
    assert(closed_check(SchemeV { vars: seq![3241], preds: Seq::empty(), ty: fun_v(list_v(con_v("Char"@)), fun_v(con_v("Int"@), TyV::Var(3241))) }));
    assert(closed_check(SchemeV { vars: Seq::empty(), preds: Seq::empty(), ty: fun_v(list_v(con_v("Char"@)), fun_v(con_v("Int"@), con_v("Bool"@))) }));
    assert(closed_check(SchemeV { vars: seq![3242], preds: Seq::empty(), ty: fun_v(TyV::Var(3242), fun_v(list_v(con_v("Char"@)), fun_v(con_v("Int"@), TyV::Var(3242)))) }));
    assert(closed_check(SchemeV { vars: seq![3400], preds: Seq::empty(), ty: fun_v(list_v(TyV::Var(3400)), list_v(TyV::Var(3400))) }));
    assert(closed_check(SchemeV { vars: seq![3401, 3402, 3403], preds: Seq::empty(), ty: fun_v(list_v(TyV::Var(3401)), fun_v(list_v(TyV::Var(3402)), fun_v(list_v(TyV::Var(3403)), list_v(TyV::Tuple(seq![TyV::Var(3401), TyV::Var(3402), TyV::Var(3403)]))))) }));
    assert(closed_check(SchemeV { vars: seq![3404], preds: Seq::empty(), ty: fun_v(TyV::Var(3404), fun_v(list_v(TyV::Var(3404)), list_v(TyV::Var(3404)))) }));
    assert(closed_check(SchemeV { vars: seq![3405], preds: Seq::empty(), ty: fun_v(list_v(TyV::Var(3405)), fun_v(list_v(TyV::Var(3405)), con_v("Bool"@))) }));
    assert(closed_check(SchemeV { vars: seq![3406], preds: Seq::empty(), ty: fun_v(list_v(TyV::Var(3406)), fun_v(list_v(TyV::Var(3406)), con_v("Bool"@))) }));
    assert(closed_check(SchemeV { vars: seq![3407, 3408, 3409], preds: Seq::empty(), ty: fun_v(list_v(TyV::Tuple(seq![TyV::Var(3407), TyV::Var(3408), TyV::Var(3409)])), TyV::Tuple(seq![list_v(TyV::Var(3407)), list_v(TyV::Var(3408)), list_v(TyV::Var(3409))])) }));
    assert(closed_check(SchemeV { vars: seq![3260], preds: seq![PredV { class: "Enum"@, ty: TyV::Var(3260), extra: Seq::empty() }], ty: fun_v(con_v("Int"@), TyV::Var(3260)) }));
    assert(closed_check(SchemeV { vars: seq![3261], preds: seq![PredV { class: "Enum"@, ty: TyV::Var(3261), extra: Seq::empty() }], ty: fun_v(TyV::Var(3261), con_v("Int"@)) }));
}

/// The schemes of part 13 are closed.
proof fn lemma_builtin_schemes_13_closed()
    ensures
        all_closed(builtin_schemes_13()),
{
    reveal_with_fuel(occ, 10);
    reveal_with_fuel(crate::ty_chirho::occ_seq, 5);
    reveal_with_fuel(preds_occ, 4);
    reveal_with_fuel(all_listed, 16);
    reveal_with_fuel(listed, 6);
    assert(closed_check(SchemeV { vars: seq![3262], preds: seq![PredV { class: "Enum"@, ty: TyV::Var(3262), extra: Seq::empty() }], ty: fun_v(TyV::Var(3262), TyV::Var(3262)) }));
    assert(closed_check(SchemeV { vars: seq![3263], preds: seq![PredV { class: "Enum"@, ty: TyV::Var(3263), extra: Seq::empty() }], ty: fun_v(TyV::Var(3263), TyV::Var(3263)) }));
    assert(closed_check(SchemeV { vars: Seq::empty(), preds: Seq::empty(), ty: fun_v(con_v("Int"@), list_v(con_v("Int"@))) }));
    assert(closed_check(SchemeV { vars: Seq::empty(), preds: Seq::empty(), ty: fun_v(con_v("Int"@), fun_v(con_v("Int"@), list_v(con_v("Int"@)))) }));
    assert(closed_check(SchemeV { vars: Seq::empty(), preds: Seq::empty(), ty: fun_v(con_v("Int"@), fun_v(con_v("Int"@), list_v(con_v("Int"@)))) }));
    assert(closed_check(SchemeV { vars: Seq::empty(), preds: Seq::empty(), ty: fun_v(con_v("Int"@), fun_v(con_v("Int"@), fun_v(con_v("Int"@), list_v(con_v("Int"@))))) }));
    assert(closed_check(SchemeV { vars: seq![3264], preds: seq![PredV { class: "Bounded"@, ty: TyV::Var(3264), extra: Seq::empty() }], ty: TyV::Var(3264) }));
    assert(closed_check(SchemeV { vars: seq![3265], preds: seq![PredV { class: "Bounded"@, ty: TyV::Var(3265), extra: Seq::empty() }], ty: TyV::Var(3265) }));
    assert(closed_check(SchemeV { vars: Seq::empty(), preds: Seq::empty(), ty: fun_v(con_v("Int"@), con_v("Char"@)) }));
    assert(closed_check(SchemeV { vars: Seq::empty(), preds: Seq::empty(), ty: fun_v(con_v("Char"@), con_v("Int"@)) }));
    assert(closed_check(SchemeV { vars: Seq::empty(), preds: Seq::empty(), ty: fun_v(con_v("Char"@), con_v("Bool"@)) }));
    assert(closed_check(SchemeV { vars: Seq::empty(), preds: Seq::empty(), ty: fun_v(con_v("Char"@), con_v("Bool"@)) }));
    assert(closed_check(SchemeV { vars: Seq::empty(), preds: Seq::empty(), ty: fun_v(con_v("Char"@), con_v("Bool"@)) }));
    assert(closed_check(SchemeV { vars: Seq::empty(), preds: Seq::empty(), ty: fun_v(con_v("Char"@), con_v("Bool"@)) }));
    assert(closed_check(SchemeV { vars: Seq::empty(), preds: Seq::empty(), ty: fun_v(con_v("Char"@), con_v("Bool"@)) }));
    assert(closed_check(SchemeV { vars: Seq::empty(), preds: Seq::empty(), ty: fun_v(con_v("Char"@), con_v("Bool"@)) }));
    assert(closed_check(SchemeV { vars: Seq::empty(), preds: Seq::empty(), ty: fun_v(con_v("Char"@), con_v("Char"@)) }));
    assert(closed_check(SchemeV { vars: Seq::empty(), preds: Seq::empty(), ty: fun_v(con_v("Char"@), con_v("Char"@)) }));
    assert(closed_check(SchemeV { vars: Seq::empty(), preds: Seq::empty(), ty: fun_v(con_v("Char"@), con_v("Int"@)) }));
    assert(closed_check(SchemeV { vars: Seq::empty(), preds: Seq::empty(), ty: fun_v(con_v("Int"@), con_v("Char"@)) }));
}

/// The schemes of part 14 are closed.
proof fn lemma_builtin_schemes_14_closed()
    ensures
        all_closed(builtin_schemes_14()),
{
    reveal_with_fuel(occ, 10);
    reveal_with_fuel(crate::ty_chirho::occ_seq, 5);
    reveal_with_fuel(preds_occ, 4);
    reveal_with_fuel(all_listed, 16);
    reveal_with_fuel(listed, 6);
    assert(closed_check(SchemeV { vars: Seq::empty(), preds: Seq::empty(), ty: fun_v(con_v("Double"@), con_v("Double"@)) }));
    assert(closed_check(SchemeV { vars: Seq::empty(), preds: Seq::empty(), ty: fun_v(con_v("Double"@), con_v("Double"@)) }));
    assert(closed_check(SchemeV { vars: Seq::empty(), preds: Seq::empty(), ty: fun_v(con_v("Double"@), con_v("Double"@)) }));
    assert(closed_check(SchemeV { vars: Seq::empty(), preds: Seq::empty(), ty: fun_v(con_v("Double"@), con_v("Double"@)) }));
    assert(closed_check(SchemeV { vars: Seq::empty(), preds: Seq::empty(), ty: fun_v(con_v("Double"@), con_v("Double"@)) }));
    assert(closed_check(SchemeV { vars: Seq::empty(), preds: Seq::empty(), ty: fun_v(con_v("Double"@), con_v("Double"@)) }));
    assert(closed_check(SchemeV { vars: Seq::empty(), preds: Seq::empty(), ty: fun_v(con_v("Double"@), con_v("Double"@)) }));
    assert(closed_check(SchemeV { vars: Seq::empty(), preds: Seq::empty(), ty: fun_v(con_v("Double"@), con_v("Double"@)) }));
    assert(closed_check(SchemeV { vars: Seq::empty(), preds: Seq::empty(), ty: fun_v(con_v("Double"@), con_v("Double"@)) }));
    assert(closed_check(SchemeV { vars: seq![9004, 9040, 9041], preds: Seq::empty(), ty: TyV::Fun(Box::new(TyV::Fun(Box::new(TyV::Var(9040)), Box::new(TyV::Var(9041)), MultChirho::ManyChirho)), Box::new(TyV::Fun(Box::new(app_v(TyV::Var(9004), TyV::Var(9040))), Box::new(app_v(TyV::Var(9004), TyV::Var(9041))), MultChirho::ManyChirho)), MultChirho::ManyChirho) }));
    assert(closed_check(SchemeV { vars: seq![9080, 9081, 9082], preds: Seq::empty(), ty: TyV::Fun(Box::new(TyV::Fun(Box::new(TyV::Var(9081)), Box::new(TyV::Var(9082)), MultChirho::ManyChirho)), Box::new(TyV::Fun(Box::new(app_v(TyV::Var(9080), TyV::Var(9081))), Box::new(TyV::Var(9082)), MultChirho::ManyChirho)), MultChirho::ManyChirho) }));
    assert(closed_check(SchemeV { vars: seq![9083, 9084, 9085, 9086], preds: Seq::empty(), ty: TyV::Fun(Box::new(TyV::Fun(Box::new(TyV::Var(9084)), Box::new(app_v(TyV::Var(9086), TyV::Var(9085))), MultChirho::ManyChirho)), Box::new(TyV::Fun(Box::new(app_v(TyV::Var(9083), TyV::Var(9084))), Box::new(app_v(TyV::Var(9086), app_v(TyV::Var(9083), TyV::Var(9085)))), MultChirho::ManyChirho)), MultChirho::ManyChirho) }));
    assert(closed_check(SchemeV { vars: seq![3500], preds: Seq::empty(), ty: fun_v(app_v(con_v("Maybe"@), TyV::Var(3500)), app_v(con_v("MaybeT"@), TyV::Var(3500))) }));
    assert(closed_check(SchemeV { vars: seq![3500], preds: Seq::empty(), ty: fun_v(app_v(con_v("MaybeT"@), TyV::Var(3500)), app_v(con_v("Maybe"@), TyV::Var(3500))) }));
    assert(closed_check(SchemeV { vars: seq![3501, 3502], preds: Seq::empty(), ty: fun_v(fun_v(TyV::Var(3501), TyV::Tuple(seq![TyV::Var(3502), TyV::Var(3501)])), app_v(app_v(con_v("StateT"@), TyV::Var(3501)), TyV::Var(3502))) }));
    assert(closed_check(SchemeV { vars: seq![3501, 3502], preds: Seq::empty(), ty: fun_v(app_v(app_v(con_v("StateT"@), TyV::Var(3501)), TyV::Var(3502)), fun_v(TyV::Var(3501), TyV::Tuple(seq![TyV::Var(3502), TyV::Var(3501)]))) }));
    assert(closed_check(SchemeV { vars: seq![3503, 3504, 3505], preds: Seq::empty(), ty: fun_v(app_v(TyV::Var(3503), TyV::Var(3505)), app_v(app_v(TyV::Var(3504), TyV::Var(3503)), TyV::Var(3505))) }));
    assert(closed_check(SchemeV { vars: seq![3510], preds: Seq::empty(), ty: app_v(app_v(con_v("StateT"@), TyV::Var(3510)), TyV::Var(3510)) }));
    assert(closed_check(SchemeV { vars: seq![3511], preds: Seq::empty(), ty: fun_v(TyV::Var(3511), app_v(app_v(con_v("StateT"@), TyV::Var(3511)), TyV::Tuple(Seq::empty()))) }));
    assert(closed_check(SchemeV { vars: seq![3512], preds: Seq::empty(), ty: fun_v(fun_v(TyV::Var(3512), TyV::Var(3512)), app_v(app_v(con_v("StateT"@), TyV::Var(3512)), TyV::Tuple(Seq::empty()))) }));
}

/// The schemes of part 15 are closed.
proof fn lemma_builtin_schemes_15_closed()
    ensures
        all_closed(builtin_schemes_15()),
{
    reveal_with_fuel(occ, 10);
    reveal_with_fuel(crate::ty_chirho::occ_seq, 5);
    reveal_with_fuel(preds_occ, 4);
    reveal_with_fuel(all_listed, 16);
    reveal_with_fuel(listed, 6);
    assert(closed_check(SchemeV { vars: seq![3513, 3514], preds: Seq::empty(), ty: fun_v(app_v(app_v(con_v("StateT"@), TyV::Var(3513)), TyV::Var(3514)), fun_v(TyV::Var(3513), TyV::Var(3514))) }));
    assert(closed_check(SchemeV { vars: seq![3515, 3516], preds: Seq::empty(), ty: fun_v(app_v(app_v(con_v("StateT"@), TyV::Var(3515)), TyV::Var(3516)), fun_v(TyV::Var(3515), TyV::Var(3515))) }));
    assert(closed_check(SchemeV { vars: seq![3517, 3518, 3519], preds: Seq::empty(), ty: fun_v(app_v(app_v(con_v("StateT"@), TyV::Var(3517)), TyV::Var(3518)), fun_v(fun_v(TyV::Var(3518), app_v(app_v(con_v("StateT"@), TyV::Var(3517)), TyV::Var(3519))), app_v(app_v(con_v("StateT"@), TyV::Var(3517)), TyV::Var(3519)))) }));
    assert(closed_check(SchemeV { vars: seq![3520, 3521], preds: Seq::empty(), ty: fun_v(TyV::Var(3521), app_v(app_v(con_v("StateT"@), TyV::Var(3520)), TyV::Var(3521))) }));
    assert(closed_check(SchemeV { vars: seq![3522, 3523], preds: Seq::empty(), ty: fun_v(app_v(app_v(con_v("StateT"@), TyV::Var(3522)), TyV::Var(3523)), fun_v(TyV::Var(3522), TyV::Tuple(seq![TyV::Var(3523), TyV::Var(3522)]))) }));
    assert(closed_check(SchemeV { vars: seq![3530, 3531], preds: Seq::empty(), ty: fun_v(fun_v(TyV::Var(3530), TyV::Var(3531)), app_v(app_v(con_v("ReaderT"@), TyV::Var(3530)), TyV::Var(3531))) }));
    assert(closed_check(SchemeV { vars: seq![3530, 3531], preds: Seq::empty(), ty: fun_v(app_v(app_v(con_v("ReaderT"@), TyV::Var(3530)), TyV::Var(3531)), fun_v(TyV::Var(3530), TyV::Var(3531))) }));
    assert(closed_check(SchemeV { vars: seq![3532], preds: Seq::empty(), ty: app_v(app_v(con_v("ReaderT"@), TyV::Var(3532)), TyV::Var(3532)) }));
    assert(closed_check(SchemeV { vars: seq![3533, 3534], preds: Seq::empty(), ty: fun_v(fun_v(TyV::Var(3533), TyV::Var(3533)), fun_v(app_v(app_v(con_v("ReaderT"@), TyV::Var(3533)), TyV::Var(3534)), app_v(app_v(con_v("ReaderT"@), TyV::Var(3533)), TyV::Var(3534)))) }));
    assert(closed_check(SchemeV { vars: seq![3535, 3536, 3537], preds: Seq::empty(), ty: fun_v(app_v(app_v(con_v("ReaderT"@), TyV::Var(3535)), TyV::Var(3536)), fun_v(fun_v(TyV::Var(3536), app_v(app_v(con_v("ReaderT"@), TyV::Var(3535)), TyV::Var(3537))), app_v(app_v(con_v("ReaderT"@), TyV::Var(3535)), TyV::Var(3537)))) }));
    assert(closed_check(SchemeV { vars: seq![3538, 3539], preds: Seq::empty(), ty: fun_v(TyV::Var(3539), app_v(app_v(con_v("ReaderT"@), TyV::Var(3538)), TyV::Var(3539))) }));
    assert(closed_check(SchemeV { vars: seq![3540, 3541], preds: Seq::empty(), ty: fun_v(app_v(app_v(con_v("ReaderT"@), TyV::Var(3540)), TyV::Var(3541)), fun_v(TyV::Var(3540), TyV::Var(3541))) }));
    assert(closed_check(SchemeV { vars: seq![3550, 3551], preds: Seq::empty(), ty: fun_v(app_v(app_v(con_v("Either"@), TyV::Var(3550)), TyV::Var(3551)), app_v(app_v(con_v("ExceptT"@), TyV::Var(3550)), TyV::Var(3551))) }));
    assert(closed_check(SchemeV { vars: seq![3550, 3551], preds: Seq::empty(), ty: fun_v(app_v(app_v(con_v("ExceptT"@), TyV::Var(3550)), TyV::Var(3551)), app_v(app_v(con_v("Either"@), TyV::Var(3550)), TyV::Var(3551))) }));
    assert(closed_check(SchemeV { vars: seq![3552, 3553], preds: Seq::empty(), ty: fun_v(TyV::Var(3552), app_v(app_v(con_v("ExceptT"@), TyV::Var(3552)), TyV::Var(3553))) }));
    assert(closed_check(SchemeV { vars: seq![3554, 3555], preds: Seq::empty(), ty: fun_v(TyV::Var(3555), app_v(app_v(con_v("ExceptT"@), TyV::Var(3554)), TyV::Var(3555))) }));
    assert(closed_check(SchemeV { vars: seq![3556, 3557, 3558], preds: Seq::empty(), ty: fun_v(app_v(app_v(con_v("ExceptT"@), TyV::Var(3556)), TyV::Var(3557)), fun_v(fun_v(TyV::Var(3557), app_v(app_v(con_v("ExceptT"@), TyV::Var(3556)), TyV::Var(3558))), app_v(app_v(con_v("ExceptT"@), TyV::Var(3556)), TyV::Var(3558)))) }));
    assert(closed_check(SchemeV { vars: seq![3559, 3560], preds: Seq::empty(), ty: fun_v(app_v(app_v(con_v("ExceptT"@), TyV::Var(3559)), TyV::Var(3560)), fun_v(fun_v(TyV::Var(3559), app_v(app_v(con_v("ExceptT"@), TyV::Var(3559)), TyV::Var(3560))), app_v(app_v(con_v("ExceptT"@), TyV::Var(3559)), TyV::Var(3560)))) }));
    assert(closed_check(SchemeV { vars: seq![3570], preds: Seq::empty(), ty: fun_v(TyV::Var(3570), app_v(con_v("MaybeT"@), TyV::Var(3570))) }));
    assert(closed_check(SchemeV { vars: seq![3571, 3572], preds: Seq::empty(), ty: fun_v(app_v(con_v("MaybeT"@), TyV::Var(3571)), fun_v(fun_v(TyV::Var(3571), app_v(con_v("MaybeT"@), TyV::Var(3572))), app_v(con_v("MaybeT"@), TyV::Var(3572)))) }));
}

/// The schemes of part 16 are closed.
#[verifier::spinoff_prover]
#[verifier::rlimit(80)]
proof fn lemma_builtin_schemes_16_closed()
    ensures
        all_closed(builtin_schemes_16()),
{
    reveal_with_fuel(occ, 10);
    reveal_with_fuel(crate::ty_chirho::occ_seq, 5);
    reveal_with_fuel(preds_occ, 4);
    reveal_with_fuel(all_listed, 16);
    reveal_with_fuel(listed, 6);
    assert(closed_check(SchemeV { vars: seq![3580, 3581], preds: Seq::empty(), ty: fun_v(TyV::Tuple(seq![TyV::Var(3581), TyV::Var(3580)]), app_v(app_v(con_v("WriterT"@), TyV::Var(3580)), TyV::Var(3581))) }));
    assert(closed_check(SchemeV { vars: seq![3582, 3583], preds: Seq::empty(), ty: fun_v(app_v(app_v(con_v("WriterT"@), TyV::Var(3582)), TyV::Var(3583)), TyV::Tuple(seq![TyV::Var(3583), TyV::Var(3582)])) }));
    assert(closed_check(SchemeV { vars: seq![3584, 3585], preds: Seq::empty(), ty: fun_v(app_v(app_v(con_v("WriterT"@), TyV::Var(3584)), TyV::Var(3585)), TyV::Tuple(seq![TyV::Var(3585), TyV::Var(3584)])) }));
    assert(closed_check(SchemeV { vars: seq![3586], preds: Seq::empty(), ty: fun_v(TyV::Var(3586), app_v(app_v(con_v("WriterT"@), TyV::Var(3586)), TyV::Tuple(Seq::empty()))) }));
    assert(closed_check(SchemeV { vars: seq![3587, 3588], preds: Seq::empty(), ty: fun_v(TyV::Var(3588), app_v(app_v(con_v("WriterT"@), TyV::Var(3587)), TyV::Var(3588))) }));
    assert(closed_check(SchemeV { vars: seq![3589, 3590, 3591], preds: Seq::empty(), ty: fun_v(app_v(app_v(con_v("WriterT"@), TyV::Var(3589)), TyV::Var(3590)), fun_v(fun_v(TyV::Var(3590), app_v(app_v(con_v("WriterT"@), TyV::Var(3589)), TyV::Var(3591))), app_v(app_v(con_v("WriterT"@), TyV::Var(3589)), TyV::Var(3591)))) }));
    assert(closed_check(SchemeV { vars: seq![3592, 3593], preds: Seq::empty(), ty: fun_v(app_v(app_v(con_v("WriterT"@), TyV::Var(3592)), TyV::Var(3593)), TyV::Var(3592)) }));
    assert(closed_check(SchemeV { vars: seq![3594, 3595], preds: Seq::empty(), ty: fun_v(app_v(app_v(con_v("WriterT"@), TyV::Var(3594)), TyV::Var(3595)), TyV::Var(3594)) }));
    assert(closed_check(SchemeV { vars: seq![4100], preds: Seq::empty(), ty: fun_v(TyV::Var(4100), list_v(TyV::Var(4100))) }));
    assert(closed_check(SchemeV { vars: seq![4101], preds: Seq::empty(), ty: fun_v(list_v(TyV::Var(4101)), list_v(TyV::Var(4101))) }));
    assert(closed_check(SchemeV { vars: seq![4102], preds: Seq::empty(), ty: fun_v(fun_v(TyV::Var(4102), TyV::Var(4102)), TyV::Var(4102)) }));
    assert(closed_check(SchemeV { vars: Seq::empty(), preds: Seq::empty(), ty: fun_v(list_v(con_v("Int"@)), list_v(list_v(con_v("Int"@)))) }));
    assert(closed_check(SchemeV { vars: seq![4110, 4111, 4112, 4113], preds: Seq::empty(), ty: fun_v(fun_v(TyV::Var(4110), fun_v(TyV::Var(4111), fun_v(TyV::Var(4112), TyV::Var(4113)))), fun_v(list_v(TyV::Var(4110)), fun_v(list_v(TyV::Var(4111)), fun_v(list_v(TyV::Var(4112)), list_v(TyV::Var(4113)))))) }));
    assert(closed_check(SchemeV { vars: seq![4120, 4121, 4122], preds: Seq::empty(), ty: fun_v(fun_v(TyV::Var(4120), TyV::Var(4121)), fun_v(TyV::Tuple(seq![TyV::Var(4120), TyV::Var(4122)]), TyV::Tuple(seq![TyV::Var(4121), TyV::Var(4122)]))) }));
    assert(closed_check(SchemeV { vars: seq![4123, 4124, 4125], preds: Seq::empty(), ty: fun_v(fun_v(TyV::Var(4124), TyV::Var(4125)), fun_v(TyV::Tuple(seq![TyV::Var(4123), TyV::Var(4124)]), TyV::Tuple(seq![TyV::Var(4123), TyV::Var(4125)]))) }));
    assert(closed_check(SchemeV { vars: seq![4130], preds: Seq::empty(), ty: fun_v(app_v(con_v("IO"@), TyV::Var(4130)), fun_v(fun_v(list_v(con_v("Char"@)), app_v(con_v("IO"@), TyV::Var(4130))), app_v(con_v("IO"@), TyV::Var(4130)))) }));
    assert(closed_check(SchemeV { vars: seq![4131], preds: Seq::empty(), ty: fun_v(list_v(con_v("Char"@)), TyV::Var(4131)) }));
    assert(closed_check(SchemeV { vars: seq![4132], preds: Seq::empty(), ty: fun_v(app_v(con_v("IO"@), TyV::Var(4132)), app_v(con_v("IO"@), app_v(app_v(con_v("Either"@), list_v(con_v("Char"@))), TyV::Var(4132)))) }));
    assert(closed_check(SchemeV { vars: seq![4160], preds: Seq::empty(), ty: fun_v(list_v(con_v("Char"@)), app_v(con_v("IO"@), TyV::Var(4160))) }));
    assert(closed_check(SchemeV { vars: seq![4161, 4162, 4163], preds: Seq::empty(), ty: fun_v(app_v(con_v("IO"@), TyV::Var(4161)), fun_v(fun_v(TyV::Var(4161), app_v(con_v("IO"@), TyV::Var(4162))), fun_v(fun_v(TyV::Var(4161), app_v(con_v("IO"@), TyV::Var(4163))), app_v(con_v("IO"@), TyV::Var(4163))))) }));
}

/// The schemes of part 17 are closed.
proof fn lemma_builtin_schemes_17_closed()
    ensures
        all_closed(builtin_schemes_17()),
{
    reveal_with_fuel(occ, 10);
    reveal_with_fuel(crate::ty_chirho::occ_seq, 5);
    reveal_with_fuel(preds_occ, 4);
    reveal_with_fuel(all_listed, 16);
    reveal_with_fuel(listed, 6);
    assert(closed_check(SchemeV { vars: seq![4164, 4165], preds: Seq::empty(), ty: fun_v(app_v(con_v("IO"@), TyV::Var(4164)), fun_v(app_v(con_v("IO"@), TyV::Var(4165)), app_v(con_v("IO"@), TyV::Var(4164)))) }));
    assert(closed_check(SchemeV { vars: seq![4126, 4127], preds: Seq::empty(), ty: fun_v(fun_v(TyV::Var(4126), TyV::Var(4127)), fun_v(TyV::Tuple(seq![TyV::Var(4126), TyV::Var(4126)]), TyV::Tuple(seq![TyV::Var(4127), TyV::Var(4127)]))) }));
    assert(closed_check(SchemeV { vars: seq![4130], preds: Seq::empty(), ty: fun_v(list_v(TyV::Var(4130)), list_v(list_v(TyV::Var(4130)))) }));
    assert(closed_check(SchemeV { vars: seq![4131], preds: Seq::empty(), ty: fun_v(list_v(TyV::Var(4131)), list_v(list_v(TyV::Var(4131)))) }));
    assert(closed_check(SchemeV { vars: seq![7100, 7101], preds: Seq::empty(), ty: fun_v(TyV::Var(7100), TyV::Var(7101)) }));
    assert(closed_check(SchemeV { vars: seq![7110, 7111], preds: Seq::empty(), ty: fun_v(TyV::Var(7110), TyV::Var(7111)) }));
    assert(closed_check(SchemeV { vars: seq![7110, 7111], preds: Seq::empty(), ty: fun_v(TyV::Var(7110), TyV::Var(7111)) }));
    assert(closed_check(SchemeV { vars: seq![7120, 7121], preds: Seq::empty(), ty: fun_v(TyV::Var(7120), app_v(con_v("Maybe"@), TyV::Var(7121))) }));
    assert(closed_check(SchemeV { vars: seq![7130], preds: Seq::empty(), ty: app_v(con_v("Maybe"@), TyV::Var(7130)) }));
    assert(closed_check(SchemeV { vars: seq![7140], preds: Seq::empty(), ty: fun_v(TyV::Var(7140), con_v("TypeRep"@)) }));
    assert(closed_check(SchemeV { vars: seq![7150], preds: Seq::empty(), ty: fun_v(app_v(con_v("Proxy"@), TyV::Var(7150)), con_v("TypeRep"@)) }));
    assert(closed_check(SchemeV { vars: seq![7160], preds: Seq::empty(), ty: app_v(con_v("Proxy"@), TyV::Var(7160)) }));
    assert(closed_check(SchemeV { vars: seq![7170, 7171], preds: Seq::empty(), ty: fun_v(fun_v(TyV::Var(7170), TyV::Var(7171)), fun_v(TyV::Var(7170), TyV::Var(7171))) }));
    assert(closed_check(SchemeV { vars: seq![7180, 7181], preds: seq![PredV { class: "Ord"@, ty: TyV::Var(7181), extra: Seq::empty() }], ty: fun_v(fun_v(TyV::Var(7180), TyV::Var(7181)), fun_v(TyV::Var(7180), fun_v(TyV::Var(7180), con_v("Ordering"@)))) }));
    assert(closed_check(SchemeV { vars: seq![7190, 7191], preds: Seq::empty(), ty: fun_v(app_v(con_v("IO"@), TyV::Var(7191)), app_v(TyV::Var(7190), TyV::Var(7191))) }));
    assert(closed_check(SchemeV { vars: seq![7200, 7201, 7202], preds: Seq::empty(), ty: fun_v(fun_v(TyV::Var(7201), fun_v(TyV::Var(7201), TyV::Var(7202))), fun_v(fun_v(TyV::Var(7200), TyV::Var(7201)), fun_v(TyV::Var(7200), fun_v(TyV::Var(7200), TyV::Var(7202))))) }));
    assert(closed_check(SchemeV { vars: seq![7210], preds: Seq::empty(), ty: fun_v(fun_v(TyV::Var(7210), TyV::Var(7210)), TyV::Var(7210)) }));
    assert(closed_check(SchemeV { vars: seq![7220, 7221], preds: seq![PredV { class: "Functor"@, ty: TyV::Var(7220), extra: Seq::empty() }], ty: fun_v(app_v(TyV::Var(7220), TyV::Var(7221)), app_v(TyV::Var(7220), TyV::Tuple(Seq::empty()))) }));
    assert(closed_check(SchemeV { vars: seq![7230], preds: Seq::empty(), ty: fun_v(con_v("Bool"@), fun_v(app_v(TyV::Var(7230), TyV::Tuple(Seq::empty())), app_v(TyV::Var(7230), TyV::Tuple(Seq::empty())))) }));
    assert(closed_check(SchemeV { vars: seq![7240], preds: Seq::empty(), ty: fun_v(con_v("Bool"@), fun_v(app_v(TyV::Var(7240), TyV::Tuple(Seq::empty())), app_v(TyV::Var(7240), TyV::Tuple(Seq::empty())))) }));
}

/// The schemes of part 18 are closed.
proof fn lemma_builtin_schemes_18_closed()
    ensures
        all_closed(builtin_schemes_18()),
{
    reveal_with_fuel(occ, 10);
    reveal_with_fuel(crate::ty_chirho::occ_seq, 5);
    reveal_with_fuel(preds_occ, 4);
    reveal_with_fuel(all_listed, 16);
    reveal_with_fuel(listed, 6);
    assert(closed_check(SchemeV { vars: seq![7250, 7251], preds: seq![PredV { class: "Monad"@, ty: TyV::Var(7250), extra: Seq::empty() }], ty: fun_v(app_v(TyV::Var(7250), app_v(TyV::Var(7250), TyV::Var(7251))), app_v(TyV::Var(7250), TyV::Var(7251))) }));
    assert(closed_check(SchemeV { vars: seq![7260], preds: Seq::empty(), ty: fun_v(con_v("Bool"@), app_v(TyV::Var(7260), TyV::Tuple(Seq::empty()))) }));
    assert(closed_check(SchemeV { vars: seq![7270, 7271, 7272], preds: Seq::empty(), ty: fun_v(app_v(TyV::Var(7270), TyV::Var(7271)), app_v(TyV::Var(7270), TyV::Var(7272))) }));
    assert(closed_check(SchemeV { vars: seq![7280, 7281], preds: Seq::empty(), ty: fun_v(TyV::Var(7280), fun_v(fun_v(TyV::Var(7280), TyV::Var(7281)), TyV::Var(7281))) }));
    assert(closed_check(SchemeV { vars: seq![7290], preds: seq![PredV { class: "Semigroup"@, ty: TyV::Var(7290), extra: Seq::empty() }], ty: fun_v(TyV::Var(7290), fun_v(TyV::Var(7290), TyV::Var(7290))) }));
    assert(closed_check(SchemeV { vars: seq![7300], preds: seq![PredV { class: "Monoid"@, ty: TyV::Var(7300), extra: Seq::empty() }], ty: fun_v(TyV::Var(7300), fun_v(TyV::Var(7300), TyV::Var(7300))) }));
    assert(closed_check(SchemeV { vars: seq![7310], preds: seq![PredV { class: "Monoid"@, ty: TyV::Var(7310), extra: Seq::empty() }], ty: TyV::Var(7310) }));
    assert(closed_check(SchemeV { vars: seq![7320], preds: seq![PredV { class: "Monoid"@, ty: TyV::Var(7320), extra: Seq::empty() }], ty: fun_v(list_v(TyV::Var(7320)), TyV::Var(7320)) }));
    assert(closed_check(SchemeV { vars: seq![7330], preds: Seq::empty(), ty: fun_v(TyV::Var(7330), app_v(con_v("Dual"@), TyV::Var(7330))) }));
    assert(closed_check(SchemeV { vars: seq![7330], preds: Seq::empty(), ty: fun_v(app_v(con_v("Dual"@), TyV::Var(7330)), TyV::Var(7330)) }));
    assert(closed_check(SchemeV { vars: seq![7340], preds: seq![PredV { class: "Eq"@, ty: TyV::Var(7340), extra: Seq::empty() }], ty: fun_v(list_v(TyV::Var(7340)), list_v(TyV::Var(7340))) }));
    assert(closed_check(SchemeV { vars: seq![7350], preds: seq![PredV { class: "Eq"@, ty: TyV::Var(7350), extra: Seq::empty() }], ty: fun_v(list_v(TyV::Var(7350)), list_v(list_v(TyV::Var(7350)))) }));
    assert(closed_check(SchemeV { vars: seq![7360, 7361, 7362], preds: seq![PredV { class: "Monad"@, ty: TyV::Var(7360), extra: Seq::empty() }], ty: fun_v(list_v(TyV::Var(7361)), fun_v(fun_v(TyV::Var(7361), app_v(TyV::Var(7360), TyV::Var(7362))), app_v(TyV::Var(7360), list_v(TyV::Var(7362))))) }));
    assert(closed_check(SchemeV { vars: seq![7370, 7371, 7372], preds: seq![PredV { class: "Monad"@, ty: TyV::Var(7370), extra: Seq::empty() }], ty: fun_v(list_v(TyV::Var(7371)), fun_v(fun_v(TyV::Var(7371), app_v(TyV::Var(7370), TyV::Var(7372))), app_v(TyV::Var(7370), TyV::Tuple(Seq::empty())))) }));
    assert(closed_check(SchemeV { vars: seq![7380], preds: Seq::empty(), ty: app_v(app_v(con_v(":~:"@), TyV::Var(7380)), TyV::Var(7380)) }));
    assert(closed_check(SchemeV { vars: seq![7390, 7391], preds: seq![PredV { class: "Real"@, ty: TyV::Var(7390), extra: Seq::empty() }, PredV { class: "Fractional"@, ty: TyV::Var(7391), extra: Seq::empty() }], ty: TyV::Fun(Box::new(TyV::Var(7390)), Box::new(TyV::Var(7391)), MultChirho::ManyChirho) }));
    assert(closed_check(SchemeV { vars: seq![7392, 7393], preds: seq![PredV { class: "Integral"@, ty: TyV::Var(7392), extra: Seq::empty() }, PredV { class: "Num"@, ty: TyV::Var(7393), extra: Seq::empty() }], ty: TyV::Fun(Box::new(TyV::Var(7392)), Box::new(TyV::Var(7393)), MultChirho::ManyChirho) }));
    assert(closed_check(SchemeV { vars: seq![7394], preds: seq![PredV { class: "Integral"@, ty: TyV::Var(7394), extra: Seq::empty() }], ty: TyV::Fun(Box::new(TyV::Var(7394)), Box::new(con_v("Integer"@)), MultChirho::ManyChirho) }));
    assert(closed_check(SchemeV { vars: seq![7395], preds: seq![PredV { class: "Real"@, ty: TyV::Var(7395), extra: Seq::empty() }], ty: TyV::Fun(Box::new(TyV::Var(7395)), Box::new(con_v("Rational"@)), MultChirho::ManyChirho) }));
    assert(closed_check(SchemeV { vars: seq![7410], preds: Seq::empty(), ty: TyV::Fun(Box::new(list_v(con_v("Char"@))), Box::new(TyV::Var(7410)), MultChirho::ManyChirho) }));
}

/// The schemes of part 19 are closed.
proof fn lemma_builtin_schemes_19_closed()
    ensures
        all_closed(builtin_schemes_19()),
{
    reveal_with_fuel(occ, 10);
    reveal_with_fuel(crate::ty_chirho::occ_seq, 5);
    reveal_with_fuel(preds_occ, 4);
    reveal_with_fuel(all_listed, 16);
    reveal_with_fuel(listed, 6);
    assert(closed_check(SchemeV { vars: seq![7411], preds: seq![PredV { class: "Integral"@, ty: TyV::Var(7411), extra: Seq::empty() }], ty: TyV::Fun(Box::new(TyV::Var(7411)), Box::new(TyV::Fun(Box::new(TyV::Var(7411)), Box::new(TyV::Var(7411)), MultChirho::ManyChirho)), MultChirho::ManyChirho) }));
    assert(closed_check(SchemeV { vars: seq![7411], preds: seq![PredV { class: "Integral"@, ty: TyV::Var(7411), extra: Seq::empty() }], ty: TyV::Fun(Box::new(TyV::Var(7411)), Box::new(TyV::Fun(Box::new(TyV::Var(7411)), Box::new(TyV::Var(7411)), MultChirho::ManyChirho)), MultChirho::ManyChirho) }));
    assert(closed_check(SchemeV { vars: seq![7411], preds: seq![PredV { class: "Integral"@, ty: TyV::Var(7411), extra: Seq::empty() }], ty: TyV::Fun(Box::new(TyV::Var(7411)), Box::new(TyV::Fun(Box::new(TyV::Var(7411)), Box::new(TyV::Var(7411)), MultChirho::ManyChirho)), MultChirho::ManyChirho) }));
    assert(closed_check(SchemeV { vars: seq![7411], preds: seq![PredV { class: "Integral"@, ty: TyV::Var(7411), extra: Seq::empty() }], ty: TyV::Fun(Box::new(TyV::Var(7411)), Box::new(TyV::Fun(Box::new(TyV::Var(7411)), Box::new(TyV::Var(7411)), MultChirho::ManyChirho)), MultChirho::ManyChirho) }));
    assert(closed_check(SchemeV { vars: seq![7412], preds: seq![PredV { class: "Integral"@, ty: TyV::Var(7412), extra: Seq::empty() }], ty: TyV::Fun(Box::new(TyV::Var(7412)), Box::new(TyV::Fun(Box::new(TyV::Var(7412)), Box::new(TyV::Tuple(seq![TyV::Var(7412), TyV::Var(7412)])), MultChirho::ManyChirho)), MultChirho::ManyChirho) }));
    assert(closed_check(SchemeV { vars: seq![7412], preds: seq![PredV { class: "Integral"@, ty: TyV::Var(7412), extra: Seq::empty() }], ty: TyV::Fun(Box::new(TyV::Var(7412)), Box::new(TyV::Fun(Box::new(TyV::Var(7412)), Box::new(TyV::Tuple(seq![TyV::Var(7412), TyV::Var(7412)])), MultChirho::ManyChirho)), MultChirho::ManyChirho) }));
    assert(closed_check(SchemeV { vars: seq![7413], preds: Seq::empty(), ty: app_v(con_v("IORef"@), TyV::Var(7413)) }));
    assert(closed_check(SchemeV { vars: seq![7414, 7415], preds: Seq::empty(), ty: app_v(app_v(con_v("STRef"@), TyV::Var(7414)), TyV::Var(7415)) }));
    assert(closed_check(SchemeV { vars: seq![7500], preds: Seq::empty(), ty: fun_v(con_v("Int"@), fun_v(list_v(TyV::Var(7500)), TyV::Tuple(seq![list_v(TyV::Var(7500)), list_v(TyV::Var(7500))]))) }));
    assert(closed_check(SchemeV { vars: Seq::empty(), preds: Seq::empty(), ty: fun_v(list_v(con_v("Bool"@)), con_v("Bool"@)) }));
    assert(closed_check(SchemeV { vars: Seq::empty(), preds: Seq::empty(), ty: fun_v(list_v(con_v("Bool"@)), con_v("Bool"@)) }));
    assert(closed_check(SchemeV { vars: seq![7501, 7502], preds: seq![PredV { class: "Ord"@, ty: TyV::Var(7502), extra: Seq::empty() }], ty: fun_v(fun_v(TyV::Var(7501), TyV::Var(7502)), fun_v(list_v(TyV::Var(7501)), list_v(TyV::Var(7501)))) }));
    assert(closed_check(SchemeV { vars: seq![7503], preds: seq![PredV { class: "Eq"@, ty: TyV::Var(7503), extra: Seq::empty() }], ty: fun_v(list_v(TyV::Var(7503)), fun_v(list_v(TyV::Var(7503)), con_v("Bool"@))) }));
    assert(closed_check(SchemeV { vars: seq![7504], preds: seq![PredV { class: "Eq"@, ty: TyV::Var(7504), extra: Seq::empty() }], ty: fun_v(list_v(TyV::Var(7504)), fun_v(list_v(TyV::Var(7504)), app_v(con_v("Maybe"@), list_v(TyV::Var(7504))))) }));
    assert(closed_check(SchemeV { vars: seq![7505], preds: Seq::empty(), ty: fun_v(fun_v(TyV::Var(7505), con_v("Bool"@)), fun_v(list_v(TyV::Var(7505)), app_v(con_v("Maybe"@), con_v("Int"@)))) }));
    assert(closed_check(SchemeV { vars: seq![7506], preds: seq![PredV { class: "Eq"@, ty: TyV::Var(7506), extra: Seq::empty() }], ty: fun_v(TyV::Var(7506), fun_v(list_v(TyV::Var(7506)), app_v(con_v("Maybe"@), con_v("Int"@)))) }));
    assert(closed_check(SchemeV { vars: seq![7507], preds: Seq::empty(), ty: fun_v(fun_v(TyV::Var(7507), fun_v(TyV::Var(7507), TyV::Var(7507))), fun_v(list_v(TyV::Var(7507)), list_v(TyV::Var(7507)))) }));
    assert(closed_check(SchemeV { vars: seq![7508, 7509], preds: Seq::empty(), ty: fun_v(fun_v(TyV::Var(7508), fun_v(TyV::Var(7509), TyV::Var(7509))), fun_v(TyV::Var(7509), fun_v(list_v(TyV::Var(7508)), list_v(TyV::Var(7509))))) }));
    assert(closed_check(SchemeV { vars: seq![7510], preds: Seq::empty(), ty: fun_v(fun_v(TyV::Var(7510), fun_v(TyV::Var(7510), TyV::Var(7510))), fun_v(list_v(TyV::Var(7510)), list_v(TyV::Var(7510)))) }));
    assert(closed_check(SchemeV { vars: seq![7511, 7512], preds: Seq::empty(), ty: fun_v(fun_v(TyV::Var(7512), app_v(con_v("Maybe"@), TyV::Tuple(seq![TyV::Var(7511), TyV::Var(7512)]))), fun_v(TyV::Var(7512), list_v(TyV::Var(7511)))) }));
}

/// The schemes of part 20 are closed.
proof fn lemma_builtin_schemes_20_closed()
    ensures
        all_closed(builtin_schemes_20()),
{
    reveal_with_fuel(occ, 10);
    reveal_with_fuel(crate::ty_chirho::occ_seq, 5);
    reveal_with_fuel(preds_occ, 4);
    reveal_with_fuel(all_listed, 16);
    reveal_with_fuel(listed, 6);
    assert(closed_check(SchemeV { vars: seq![7513], preds: Seq::empty(), ty: fun_v(list_v(list_v(TyV::Var(7513))), list_v(list_v(TyV::Var(7513)))) }));
    assert(closed_check(SchemeV { vars: Seq::empty(), preds: Seq::empty(), ty: con_v("Handle"@) }));
    assert(closed_check(SchemeV { vars: Seq::empty(), preds: Seq::empty(), ty: con_v("Handle"@) }));
    assert(closed_check(SchemeV { vars: Seq::empty(), preds: Seq::empty(), ty: con_v("Handle"@) }));
    assert(closed_check(SchemeV { vars: Seq::empty(), preds: Seq::empty(), ty: fun_v(con_v("Handle"@), app_v(con_v("IO"@), TyV::Tuple(Seq::empty()))) }));
    assert(closed_check(SchemeV { vars: Seq::empty(), preds: Seq::empty(), ty: fun_v(con_v("Handle"@), fun_v(con_v("BufferMode"@), app_v(con_v("IO"@), TyV::Tuple(Seq::empty())))) }));
    assert(closed_check(SchemeV { vars: Seq::empty(), preds: Seq::empty(), ty: fun_v(con_v("Handle"@), fun_v(con_v("TextEncoding"@), app_v(con_v("IO"@), TyV::Tuple(Seq::empty())))) }));
    assert(closed_check(SchemeV { vars: Seq::empty(), preds: Seq::empty(), ty: fun_v(con_v("Handle"@), fun_v(list_v(con_v("Char"@)), app_v(con_v("IO"@), TyV::Tuple(Seq::empty())))) }));
    assert(closed_check(SchemeV { vars: Seq::empty(), preds: Seq::empty(), ty: fun_v(con_v("Handle"@), fun_v(list_v(con_v("Char"@)), app_v(con_v("IO"@), TyV::Tuple(Seq::empty())))) }));
    assert(closed_check(SchemeV { vars: Seq::empty(), preds: Seq::empty(), ty: fun_v(con_v("Handle"@), app_v(con_v("IO"@), TyV::Tuple(Seq::empty()))) }));
    assert(closed_check(SchemeV { vars: Seq::empty(), preds: Seq::empty(), ty: fun_v(con_v("Handle"@), app_v(con_v("IO"@), list_v(con_v("Char"@)))) }));
    assert(closed_check(SchemeV { vars: Seq::empty(), preds: Seq::empty(), ty: fun_v(list_v(con_v("Char"@)), fun_v(con_v("IOMode"@), app_v(con_v("IO"@), con_v("Handle"@)))) }));
    assert(closed_check(SchemeV { vars: seq![7520], preds: Seq::empty(), ty: fun_v(app_v(con_v("IORef"@), TyV::Var(7520)), app_v(con_v("IO"@), TyV::Var(7520))) }));
    assert(closed_check(SchemeV { vars: seq![7521], preds: Seq::empty(), ty: fun_v(app_v(con_v("IORef"@), TyV::Var(7521)), fun_v(TyV::Var(7521), app_v(con_v("IO"@), TyV::Tuple(Seq::empty())))) }));
    assert(closed_check(SchemeV { vars: seq![7522], preds: Seq::empty(), ty: fun_v(app_v(con_v("IORef"@), TyV::Var(7522)), fun_v(fun_v(TyV::Var(7522), TyV::Var(7522)), app_v(con_v("IO"@), TyV::Tuple(Seq::empty())))) }));
    assert(closed_check(SchemeV { vars: seq![7523], preds: Seq::empty(), ty: fun_v(TyV::Var(7523), app_v(con_v("IO"@), app_v(con_v("IORef"@), TyV::Var(7523)))) }));
    assert(closed_check(SchemeV { vars: seq![7530, 7531, 7532], preds: Seq::empty(), ty: fun_v(fun_v(TyV::Var(7530), fun_v(TyV::Var(7531), TyV::Tuple(seq![TyV::Var(7530), TyV::Var(7532)]))), fun_v(TyV::Var(7530), fun_v(list_v(TyV::Var(7531)), TyV::Tuple(seq![TyV::Var(7530), list_v(TyV::Var(7532))])))) }));
    assert(closed_check(SchemeV { vars: seq![7533, 7534, 7535], preds: Seq::empty(), ty: fun_v(fun_v(TyV::Var(7533), fun_v(TyV::Var(7534), TyV::Tuple(seq![TyV::Var(7533), TyV::Var(7535)]))), fun_v(TyV::Var(7533), fun_v(list_v(TyV::Var(7534)), TyV::Tuple(seq![TyV::Var(7533), list_v(TyV::Var(7535))])))) }));
}

/// Every built-in scheme is closed: each type variable of its type and of its
/// predicates is one that it quantifies, so seeding the environment leaves no
/// variable free in it.
pub proof fn lemma_builtin_schemes_closed()
    ensures
        forall|n: Seq<char>| #[trigger] builtin_schemes().dom().contains(n) ==> scheme_free(builtin_schemes()[n]) =~= Set::<u32>::empty(),
{
    lemma_builtin_schemes_1_closed();
    lemma_builtin_schemes_2_closed();
    lemma_builtin_schemes_3_closed();
    lemma_builtin_schemes_4_closed();
    lemma_builtin_schemes_5_closed();
    lemma_builtin_schemes_6_closed();
    lemma_builtin_schemes_7_closed();
    lemma_builtin_schemes_8_closed();
    lemma_builtin_schemes_9_closed();
    lemma_builtin_schemes_10_closed();
    lemma_builtin_schemes_11_closed();
    lemma_builtin_schemes_12_closed();
    lemma_builtin_schemes_13_closed();
    lemma_builtin_schemes_14_closed();
    lemma_builtin_schemes_15_closed();
    lemma_builtin_schemes_16_closed();
    lemma_builtin_schemes_17_closed();
    lemma_builtin_schemes_18_closed();
    lemma_builtin_schemes_19_closed();
    lemma_builtin_schemes_20_closed();
    lemma_all_closed_union(builtin_schemes_1(), builtin_schemes_2());
    lemma_all_closed_union(builtin_schemes_1().union_prefer_right(builtin_schemes_2()), builtin_schemes_3());
    lemma_all_closed_union(builtin_schemes_1().union_prefer_right(builtin_schemes_2()).union_prefer_right(builtin_schemes_3()), builtin_schemes_4());
    lemma_all_closed_union(builtin_schemes_1().union_prefer_right(builtin_schemes_2()).union_prefer_right(builtin_schemes_3()).union_prefer_right(builtin_schemes_4()), builtin_schemes_5());
    lemma_all_closed_union(builtin_schemes_1().union_prefer_right(builtin_schemes_2()).union_prefer_right(builtin_schemes_3()).union_prefer_right(builtin_schemes_4()).union_prefer_right(builtin_schemes_5()), builtin_schemes_6());
    lemma_all_closed_union(builtin_schemes_1().union_prefer_right(builtin_schemes_2()).union_prefer_right(builtin_schemes_3()).union_prefer_right(builtin_schemes_4()).union_prefer_right(builtin_schemes_5()).union_prefer_right(builtin_schemes_6()), builtin_schemes_7());
    lemma_all_closed_union(builtin_schemes_1().union_prefer_right(builtin_schemes_2()).union_prefer_right(builtin_schemes_3()).union_prefer_right(builtin_schemes_4()).union_prefer_right(builtin_schemes_5()).union_prefer_right(builtin_schemes_6()).union_prefer_right(builtin_schemes_7()), builtin_schemes_8());
    lemma_all_closed_union(builtin_schemes_1().union_prefer_right(builtin_schemes_2()).union_prefer_right(builtin_schemes_3()).union_prefer_right(builtin_schemes_4()).union_prefer_right(builtin_schemes_5()).union_prefer_right(builtin_schemes_6()).union_prefer_right(builtin_schemes_7()).union_prefer_right(builtin_schemes_8()), builtin_schemes_9());
    lemma_all_closed_union(builtin_schemes_1().union_prefer_right(builtin_schemes_2()).union_prefer_right(builtin_schemes_3()).union_prefer_right(builtin_schemes_4()).union_prefer_right(builtin_schemes_5()).union_prefer_right(builtin_schemes_6()).union_prefer_right(builtin_schemes_7()).union_prefer_right(builtin_schemes_8()).union_prefer_right(builtin_schemes_9()), builtin_schemes_10());
    lemma_all_closed_union(builtin_schemes_1().union_prefer_right(builtin_schemes_2()).union_prefer_right(builtin_schemes_3()).union_prefer_right(builtin_schemes_4()).union_prefer_right(builtin_schemes_5()).union_prefer_right(builtin_schemes_6()).union_prefer_right(builtin_schemes_7()).union_prefer_right(builtin_schemes_8()).union_prefer_right(builtin_schemes_9()).union_prefer_right(builtin_schemes_10()), builtin_schemes_11());
    lemma_all_closed_union(builtin_schemes_1().union_prefer_right(builtin_schemes_2()).union_prefer_right(builtin_schemes_3()).union_prefer_right(builtin_schemes_4()).union_prefer_right(builtin_schemes_5()).union_prefer_right(builtin_schemes_6()).union_prefer_right(builtin_schemes_7()).union_prefer_right(builtin_schemes_8()).union_prefer_right(builtin_schemes_9()).union_prefer_right(builtin_schemes_10()).union_prefer_right(builtin_schemes_11()), builtin_schemes_12());
    lemma_all_closed_union(builtin_schemes_1().union_prefer_right(builtin_schemes_2()).union_prefer_right(builtin_schemes_3()).union_prefer_right(builtin_schemes_4()).union_prefer_right(builtin_schemes_5()).union_prefer_right(builtin_schemes_6()).union_prefer_right(builtin_schemes_7()).union_prefer_right(builtin_schemes_8()).union_prefer_right(builtin_schemes_9()).union_prefer_right(builtin_schemes_10()).union_prefer_right(builtin_schemes_11()).union_prefer_right(builtin_schemes_12()), builtin_schemes_13());
    lemma_all_closed_union(builtin_schemes_1().union_prefer_right(builtin_schemes_2()).union_prefer_right(builtin_schemes_3()).union_prefer_right(builtin_schemes_4()).union_prefer_right(builtin_schemes_5()).union_prefer_right(builtin_schemes_6()).union_prefer_right(builtin_schemes_7()).union_prefer_right(builtin_schemes_8()).union_prefer_right(builtin_schemes_9()).union_prefer_right(builtin_schemes_10()).union_prefer_right(builtin_schemes_11()).union_prefer_right(builtin_schemes_12()).union_prefer_right(builtin_schemes_13()), builtin_schemes_14());
    lemma_all_closed_union(builtin_schemes_1().union_prefer_right(builtin_schemes_2()).union_prefer_right(builtin_schemes_3()).union_prefer_right(builtin_schemes_4()).union_prefer_right(builtin_schemes_5()).union_prefer_right(builtin_schemes_6()).union_prefer_right(builtin_schemes_7()).union_prefer_right(builtin_schemes_8()).union_prefer_right(builtin_schemes_9()).union_prefer_right(builtin_schemes_10()).union_prefer_right(builtin_schemes_11()).union_prefer_right(builtin_schemes_12()).union_prefer_right(builtin_schemes_13()).union_prefer_right(builtin_schemes_14()), builtin_schemes_15());
    lemma_all_closed_union(builtin_schemes_1().union_prefer_right(builtin_schemes_2()).union_prefer_right(builtin_schemes_3()).union_prefer_right(builtin_schemes_4()).union_prefer_right(builtin_schemes_5()).union_prefer_right(builtin_schemes_6()).union_prefer_right(builtin_schemes_7()).union_prefer_right(builtin_schemes_8()).union_prefer_right(builtin_schemes_9()).union_prefer_right(builtin_schemes_10()).union_prefer_right(builtin_schemes_11()).union_prefer_right(builtin_schemes_12()).union_prefer_right(builtin_schemes_13()).union_prefer_right(builtin_schemes_14()).union_prefer_right(builtin_schemes_15()), builtin_schemes_16());
    lemma_all_closed_union(builtin_schemes_1().union_prefer_right(builtin_schemes_2()).union_prefer_right(builtin_schemes_3()).union_prefer_right(builtin_schemes_4()).union_prefer_right(builtin_schemes_5()).union_prefer_right(builtin_schemes_6()).union_prefer_right(builtin_schemes_7()).union_prefer_right(builtin_schemes_8()).union_prefer_right(builtin_schemes_9()).union_prefer_right(builtin_schemes_10()).union_prefer_right(builtin_schemes_11()).union_prefer_right(builtin_schemes_12()).union_prefer_right(builtin_schemes_13()).union_prefer_right(builtin_schemes_14()).union_prefer_right(builtin_schemes_15()).union_prefer_right(builtin_schemes_16()), builtin_schemes_17());
    lemma_all_closed_union(builtin_schemes_1().union_prefer_right(builtin_schemes_2()).union_prefer_right(builtin_schemes_3()).union_prefer_right(builtin_schemes_4()).union_prefer_right(builtin_schemes_5()).union_prefer_right(builtin_schemes_6()).union_prefer_right(builtin_schemes_7()).union_prefer_right(builtin_schemes_8()).union_prefer_right(builtin_schemes_9()).union_prefer_right(builtin_schemes_10()).union_prefer_right(builtin_schemes_11()).union_prefer_right(builtin_schemes_12()).union_prefer_right(builtin_schemes_13()).union_prefer_right(builtin_schemes_14()).union_prefer_right(builtin_schemes_15()).union_prefer_right(builtin_schemes_16()).union_prefer_right(builtin_schemes_17()), builtin_schemes_18());
    lemma_all_closed_union(builtin_schemes_1().union_prefer_right(builtin_schemes_2()).union_prefer_right(builtin_schemes_3()).union_prefer_right(builtin_schemes_4()).union_prefer_right(builtin_schemes_5()).union_prefer_right(builtin_schemes_6()).union_prefer_right(builtin_schemes_7()).union_prefer_right(builtin_schemes_8()).union_prefer_right(builtin_schemes_9()).union_prefer_right(builtin_schemes_10()).union_prefer_right(builtin_schemes_11()).union_prefer_right(builtin_schemes_12()).union_prefer_right(builtin_schemes_13()).union_prefer_right(builtin_schemes_14()).union_prefer_right(builtin_schemes_15()).union_prefer_right(builtin_schemes_16()).union_prefer_right(builtin_schemes_17()).union_prefer_right(builtin_schemes_18()), builtin_schemes_19());
    lemma_all_closed_union(builtin_schemes_1().union_prefer_right(builtin_schemes_2()).union_prefer_right(builtin_schemes_3()).union_prefer_right(builtin_schemes_4()).union_prefer_right(builtin_schemes_5()).union_prefer_right(builtin_schemes_6()).union_prefer_right(builtin_schemes_7()).union_prefer_right(builtin_schemes_8()).union_prefer_right(builtin_schemes_9()).union_prefer_right(builtin_schemes_10()).union_prefer_right(builtin_schemes_11()).union_prefer_right(builtin_schemes_12()).union_prefer_right(builtin_schemes_13()).union_prefer_right(builtin_schemes_14()).union_prefer_right(builtin_schemes_15()).union_prefer_right(builtin_schemes_16()).union_prefer_right(builtin_schemes_17()).union_prefer_right(builtin_schemes_18()).union_prefer_right(builtin_schemes_19()), builtin_schemes_20());
    assert forall|n: Seq<char>| #[trigger] builtin_schemes().dom().contains(n) implies scheme_free(builtin_schemes()[n]) =~= Set::<u32>::empty() by {
        lemma_closed_check(builtin_schemes()[n]);
    }
}

}
