//! The built-in type environment: the type schemes of the Prelude's
//! constructors, operators and functions (and of the runtime's primitives)
//! that every module starts with.
use vstd::prelude::*;
use crate::env_chirho::TyEnvChirho;
use crate::ty_chirho::{MultChirho, PredV, SchemeChirho, SchemePredChirho, SchemeV, TyChirho, TyV, TyVarChirho, app_v, con_v, fun_v, list_v};

verus! {

/// The schemes bound by part 1 of the built-in environment, later
/// bindings of a name replacing earlier ones.
pub open spec fn builtin_schemes_1() -> Map<Seq<char>, SchemeV> {
    Map::empty()
        .insert("True"@, SchemeV { vars: Seq::empty(), preds: Seq::empty(), ty: con_v("Bool"@) })
        .insert("False"@, SchemeV { vars: Seq::empty(), preds: Seq::empty(), ty: con_v("Bool"@) })
        .insert("not"@, SchemeV { vars: Seq::empty(), preds: Seq::empty(), ty: fun_v(con_v("Bool"@), con_v("Bool"@)) })
        .insert("&&"@, SchemeV { vars: Seq::empty(), preds: Seq::empty(), ty: fun_v(con_v("Bool"@), fun_v(con_v("Bool"@), con_v("Bool"@))) })
        .insert("||"@, SchemeV { vars: Seq::empty(), preds: Seq::empty(), ty: fun_v(con_v("Bool"@), fun_v(con_v("Bool"@), con_v("Bool"@))) })
        .insert("++"@, SchemeV { vars: Seq::empty(), preds: Seq::empty(), ty: fun_v(list_v(con_v("Char"@)), fun_v(list_v(con_v("Char"@)), list_v(con_v("Char"@)))) })
        .insert("+"@, SchemeV { vars: seq![1100], preds: seq![PredV { class: "Num"@, ty: TyV::Var(1100), extra: Seq::empty() }], ty: fun_v(TyV::Var(1100), fun_v(TyV::Var(1100), TyV::Var(1100))) })
        .insert("-"@, SchemeV { vars: seq![1100], preds: seq![PredV { class: "Num"@, ty: TyV::Var(1100), extra: Seq::empty() }], ty: fun_v(TyV::Var(1100), fun_v(TyV::Var(1100), TyV::Var(1100))) })
        .insert("*"@, SchemeV { vars: seq![1100], preds: seq![PredV { class: "Num"@, ty: TyV::Var(1100), extra: Seq::empty() }], ty: fun_v(TyV::Var(1100), fun_v(TyV::Var(1100), TyV::Var(1100))) })
        .insert("=="@, SchemeV { vars: seq![1200], preds: seq![PredV { class: "Eq"@, ty: TyV::Var(1200), extra: Seq::empty() }], ty: fun_v(TyV::Var(1200), fun_v(TyV::Var(1200), con_v("Bool"@))) })
        .insert("/="@, SchemeV { vars: seq![1200], preds: seq![PredV { class: "Eq"@, ty: TyV::Var(1200), extra: Seq::empty() }], ty: fun_v(TyV::Var(1200), fun_v(TyV::Var(1200), con_v("Bool"@))) })
        .insert(">"@, SchemeV { vars: seq![1300], preds: seq![PredV { class: "Ord"@, ty: TyV::Var(1300), extra: Seq::empty() }], ty: fun_v(TyV::Var(1300), fun_v(TyV::Var(1300), con_v("Bool"@))) })
        .insert("<"@, SchemeV { vars: seq![1300], preds: seq![PredV { class: "Ord"@, ty: TyV::Var(1300), extra: Seq::empty() }], ty: fun_v(TyV::Var(1300), fun_v(TyV::Var(1300), con_v("Bool"@))) })
        .insert(">="@, SchemeV { vars: seq![1300], preds: seq![PredV { class: "Ord"@, ty: TyV::Var(1300), extra: Seq::empty() }], ty: fun_v(TyV::Var(1300), fun_v(TyV::Var(1300), con_v("Bool"@))) })
        .insert("<="@, SchemeV { vars: seq![1300], preds: seq![PredV { class: "Ord"@, ty: TyV::Var(1300), extra: Seq::empty() }], ty: fun_v(TyV::Var(1300), fun_v(TyV::Var(1300), con_v("Bool"@))) })
        .insert("compare"@, SchemeV { vars: seq![1350], preds: seq![PredV { class: "Ord"@, ty: TyV::Var(1350), extra: Seq::empty() }], ty: fun_v(TyV::Var(1350), fun_v(TyV::Var(1350), con_v("Ordering"@))) })
        .insert("min"@, SchemeV { vars: seq![1360], preds: seq![PredV { class: "Ord"@, ty: TyV::Var(1360), extra: Seq::empty() }], ty: fun_v(TyV::Var(1360), fun_v(TyV::Var(1360), TyV::Var(1360))) })
        .insert("max"@, SchemeV { vars: seq![1360], preds: seq![PredV { class: "Ord"@, ty: TyV::Var(1360), extra: Seq::empty() }], ty: fun_v(TyV::Var(1360), fun_v(TyV::Var(1360), TyV::Var(1360))) })
        .insert("show"@, SchemeV { vars: seq![1400], preds: seq![PredV { class: "Show"@, ty: TyV::Var(1400), extra: Seq::empty() }], ty: fun_v(TyV::Var(1400), list_v(con_v("Char"@))) })
        .insert("negate"@, SchemeV { vars: seq![1150], preds: seq![PredV { class: "Num"@, ty: TyV::Var(1150), extra: Seq::empty() }], ty: fun_v(TyV::Var(1150), TyV::Var(1150)) })
}

/// The schemes bound by part 2 of the built-in environment, later
/// bindings of a name replacing earlier ones.
pub open spec fn builtin_schemes_2() -> Map<Seq<char>, SchemeV> {
    Map::empty()
        .insert("fromInteger"@, SchemeV { vars: seq![1160], preds: seq![PredV { class: "Num"@, ty: TyV::Var(1160), extra: Seq::empty() }], ty: fun_v(con_v("Int"@), TyV::Var(1160)) })
        .insert("/"@, SchemeV { vars: seq![1170], preds: seq![PredV { class: "Fractional"@, ty: TyV::Var(1170), extra: Seq::empty() }], ty: fun_v(TyV::Var(1170), fun_v(TyV::Var(1170), TyV::Var(1170))) })
        .insert("recip"@, SchemeV { vars: seq![1180], preds: seq![PredV { class: "Fractional"@, ty: TyV::Var(1180), extra: Seq::empty() }], ty: fun_v(TyV::Var(1180), TyV::Var(1180)) })
        .insert("fromRational"@, SchemeV { vars: seq![1190], preds: seq![PredV { class: "Fractional"@, ty: TyV::Var(1190), extra: Seq::empty() }], ty: fun_v(con_v("Rational"@), TyV::Var(1190)) })
        .insert("read"@, SchemeV { vars: seq![1195], preds: seq![PredV { class: "Read"@, ty: TyV::Var(1195), extra: Seq::empty() }], ty: fun_v(list_v(con_v("Char"@)), TyV::Var(1195)) })
        .insert("fromString"@, SchemeV { vars: seq![1197], preds: seq![PredV { class: "IsString"@, ty: TyV::Var(1197), extra: Seq::empty() }], ty: fun_v(list_v(con_v("Char"@)), TyV::Var(1197)) })
        .insert("fromList"@, SchemeV { vars: seq![1198, 1199], preds: seq![PredV { class: "IsList"@, ty: TyV::Var(1198), extra: Seq::empty() }], ty: fun_v(list_v(TyV::Var(1199)), TyV::Var(1198)) })
        .insert("toList"@, SchemeV { vars: seq![1198, 1199], preds: seq![PredV { class: "IsList"@, ty: TyV::Var(1198), extra: Seq::empty() }], ty: fun_v(TyV::Var(1198), list_v(TyV::Var(1199))) })
        .insert("div"@, SchemeV { vars: Seq::empty(), preds: Seq::empty(), ty: fun_v(con_v("Int"@), fun_v(con_v("Int"@), con_v("Int"@))) })
        .insert("mod"@, SchemeV { vars: Seq::empty(), preds: Seq::empty(), ty: fun_v(con_v("Int"@), fun_v(con_v("Int"@), con_v("Int"@))) })
        .insert("quot"@, SchemeV { vars: Seq::empty(), preds: Seq::empty(), ty: fun_v(con_v("Int"@), fun_v(con_v("Int"@), con_v("Int"@))) })
        .insert("rem"@, SchemeV { vars: Seq::empty(), preds: Seq::empty(), ty: fun_v(con_v("Int"@), fun_v(con_v("Int"@), con_v("Int"@))) })
        .insert("pure"@, SchemeV { vars: seq![1500], preds: Seq::empty(), ty: fun_v(TyV::Var(1500), TyV::Var(1500)) })
        .insert("id"@, SchemeV { vars: seq![1000], preds: Seq::empty(), ty: fun_v(TyV::Var(1000), TyV::Var(1000)) })
        .insert("const"@, SchemeV { vars: seq![1001, 1002], preds: Seq::empty(), ty: fun_v(TyV::Var(1001), fun_v(TyV::Var(1002), TyV::Var(1001))) })
        .insert("flip"@, SchemeV { vars: seq![1003, 1004, 1005], preds: Seq::empty(), ty: fun_v(fun_v(TyV::Var(1003), fun_v(TyV::Var(1004), TyV::Var(1005))), fun_v(TyV::Var(1004), fun_v(TyV::Var(1003), TyV::Var(1005)))) })
        .insert("even"@, SchemeV { vars: Seq::empty(), preds: Seq::empty(), ty: fun_v(con_v("Int"@), con_v("Bool"@)) })
        .insert("odd"@, SchemeV { vars: Seq::empty(), preds: Seq::empty(), ty: fun_v(con_v("Int"@), con_v("Bool"@)) })
        .insert("max"@, SchemeV { vars: Seq::empty(), preds: Seq::empty(), ty: fun_v(con_v("Int"@), fun_v(con_v("Int"@), con_v("Int"@))) })
        .insert("min"@, SchemeV { vars: Seq::empty(), preds: Seq::empty(), ty: fun_v(con_v("Int"@), fun_v(con_v("Int"@), con_v("Int"@))) })
}

/// The schemes bound by part 3 of the built-in environment, later
/// bindings of a name replacing earlier ones.
pub open spec fn builtin_schemes_3() -> Map<Seq<char>, SchemeV> {
    Map::empty()
        .insert("fst"@, SchemeV { vars: seq![1003, 1004], preds: Seq::empty(), ty: fun_v(TyV::Tuple(seq![TyV::Var(1003), TyV::Var(1004)]), TyV::Var(1003)) })
        .insert("snd"@, SchemeV { vars: seq![1005, 1006], preds: Seq::empty(), ty: fun_v(TyV::Tuple(seq![TyV::Var(1005), TyV::Var(1006)]), TyV::Var(1006)) })
        .insert("curry"@, SchemeV { vars: seq![1007, 1008, 1009], preds: Seq::empty(), ty: fun_v(fun_v(TyV::Tuple(seq![TyV::Var(1007), TyV::Var(1008)]), TyV::Var(1009)), fun_v(TyV::Var(1007), fun_v(TyV::Var(1008), TyV::Var(1009)))) })
        .insert("uncurry"@, SchemeV { vars: seq![1010, 1011, 1012], preds: Seq::empty(), ty: fun_v(fun_v(TyV::Var(1010), fun_v(TyV::Var(1011), TyV::Var(1012))), fun_v(TyV::Tuple(seq![TyV::Var(1010), TyV::Var(1011)]), TyV::Var(1012))) })
        .insert("take"@, SchemeV { vars: seq![3200], preds: Seq::empty(), ty: fun_v(con_v("Int"@), fun_v(list_v(TyV::Var(3200)), list_v(TyV::Var(3200)))) })
        .insert("drop"@, SchemeV { vars: seq![3210], preds: Seq::empty(), ty: fun_v(con_v("Int"@), fun_v(list_v(TyV::Var(3210)), list_v(TyV::Var(3210)))) })
        .insert("words"@, SchemeV { vars: Seq::empty(), preds: Seq::empty(), ty: fun_v(list_v(con_v("Char"@)), list_v(list_v(con_v("Char"@)))) })
        .insert("unwords"@, SchemeV { vars: Seq::empty(), preds: Seq::empty(), ty: fun_v(list_v(list_v(con_v("Char"@))), list_v(con_v("Char"@))) })
        .insert("concat"@, SchemeV { vars: Seq::empty(), preds: Seq::empty(), ty: fun_v(list_v(list_v(con_v("Char"@))), list_v(con_v("Char"@))) })
        .insert("intercalate"@, SchemeV { vars: Seq::empty(), preds: Seq::empty(), ty: fun_v(list_v(con_v("Char"@)), fun_v(list_v(list_v(con_v("Char"@))), list_v(con_v("Char"@)))) })
        .insert("toInteger"@, SchemeV { vars: Seq::empty(), preds: Seq::empty(), ty: fun_v(con_v("Int"@), con_v("Int"@)) })
        .insert("fromIntegral"@, SchemeV { vars: Seq::empty(), preds: Seq::empty(), ty: fun_v(con_v("Int"@), con_v("Double"@)) })
        .insert("ceiling"@, SchemeV { vars: Seq::empty(), preds: Seq::empty(), ty: fun_v(con_v("Double"@), con_v("Int"@)) })
        .insert("floor"@, SchemeV { vars: Seq::empty(), preds: Seq::empty(), ty: fun_v(con_v("Double"@), con_v("Int"@)) })
        .insert("round"@, SchemeV { vars: Seq::empty(), preds: Seq::empty(), ty: fun_v(con_v("Double"@), con_v("Int"@)) })
        .insert("truncate"@, SchemeV { vars: Seq::empty(), preds: Seq::empty(), ty: fun_v(con_v("Double"@), con_v("Int"@)) })
        .insert("isJust"@, SchemeV { vars: seq![1020], preds: Seq::empty(), ty: fun_v(app_v(con_v("Maybe"@), TyV::Var(1020)), con_v("Bool"@)) })
        .insert("isNothing"@, SchemeV { vars: seq![1021], preds: Seq::empty(), ty: fun_v(app_v(con_v("Maybe"@), TyV::Var(1021)), con_v("Bool"@)) })
        .insert("fromMaybe"@, SchemeV { vars: seq![1022], preds: Seq::empty(), ty: fun_v(TyV::Var(1022), fun_v(app_v(con_v("Maybe"@), TyV::Var(1022)), TyV::Var(1022))) })
        .insert("maybe"@, SchemeV { vars: seq![1023, 1024], preds: Seq::empty(), ty: fun_v(TyV::Var(1024), fun_v(fun_v(TyV::Var(1023), TyV::Var(1024)), fun_v(app_v(con_v("Maybe"@), TyV::Var(1023)), TyV::Var(1024)))) })
}

/// The schemes bound by part 4 of the built-in environment, later
/// bindings of a name replacing earlier ones.
pub open spec fn builtin_schemes_4() -> Map<Seq<char>, SchemeV> {
    Map::empty()
        .insert("maybeToList"@, SchemeV { vars: seq![1030], preds: Seq::empty(), ty: fun_v(app_v(con_v("Maybe"@), TyV::Var(1030)), list_v(TyV::Var(1030))) })
        .insert("listToMaybe"@, SchemeV { vars: seq![1031], preds: Seq::empty(), ty: fun_v(list_v(TyV::Var(1031)), app_v(con_v("Maybe"@), TyV::Var(1031))) })
        .insert("catMaybes"@, SchemeV { vars: seq![1032], preds: Seq::empty(), ty: fun_v(list_v(app_v(con_v("Maybe"@), TyV::Var(1032))), list_v(TyV::Var(1032))) })
        .insert("mapMaybe"@, SchemeV { vars: seq![1033, 1034], preds: Seq::empty(), ty: fun_v(fun_v(TyV::Var(1033), app_v(con_v("Maybe"@), TyV::Var(1034))), fun_v(list_v(TyV::Var(1033)), list_v(TyV::Var(1034)))) })
        .insert("fromJust"@, SchemeV { vars: seq![1035], preds: Seq::empty(), ty: fun_v(app_v(con_v("Maybe"@), TyV::Var(1035)), TyV::Var(1035)) })
        .insert("swap"@, SchemeV { vars: seq![1036, 1037], preds: Seq::empty(), ty: fun_v(TyV::Tuple(seq![TyV::Var(1036), TyV::Var(1037)]), TyV::Tuple(seq![TyV::Var(1037), TyV::Var(1036)])) })
        .insert("either"@, SchemeV { vars: seq![1025, 1026, 1027], preds: Seq::empty(), ty: fun_v(fun_v(TyV::Var(1025), TyV::Var(1027)), fun_v(fun_v(TyV::Var(1026), TyV::Var(1027)), fun_v(app_v(app_v(con_v("Either"@), TyV::Var(1025)), TyV::Var(1026)), TyV::Var(1027)))) })
        .insert("otherwise"@, SchemeV { vars: Seq::empty(), preds: Seq::empty(), ty: con_v("Bool"@) })
        .insert("$"@, SchemeV { vars: seq![2000, 2001], preds: Seq::empty(), ty: fun_v(fun_v(TyV::Var(2000), TyV::Var(2001)), fun_v(TyV::Var(2000), TyV::Var(2001))) })
        .insert("$!"@, SchemeV { vars: seq![2010, 2011], preds: Seq::empty(), ty: fun_v(fun_v(TyV::Var(2010), TyV::Var(2011)), fun_v(TyV::Var(2010), TyV::Var(2011))) })
        .insert("$!!"@, SchemeV { vars: seq![2090, 2091], preds: Seq::empty(), ty: fun_v(fun_v(TyV::Var(2090), TyV::Var(2091)), fun_v(TyV::Var(2090), TyV::Var(2091))) })
        .insert("."@, SchemeV { vars: seq![2100, 2101, 2102], preds: Seq::empty(), ty: fun_v(fun_v(TyV::Var(2101), TyV::Var(2102)), fun_v(fun_v(TyV::Var(2100), TyV::Var(2101)), fun_v(TyV::Var(2100), TyV::Var(2102)))) })
        .insert("negate"@, SchemeV { vars: seq![2200], preds: seq![PredV { class: "Num"@, ty: TyV::Var(2200), extra: Seq::empty() }], ty: fun_v(TyV::Var(2200), TyV::Var(2200)) })
        .insert("putStrLn"@, SchemeV { vars: Seq::empty(), preds: Seq::empty(), ty: fun_v(list_v(con_v("Char"@)), app_v(con_v("IO"@), TyV::Tuple(Seq::empty()))) })
        .insert("putStr"@, SchemeV { vars: Seq::empty(), preds: Seq::empty(), ty: fun_v(list_v(con_v("Char"@)), app_v(con_v("IO"@), TyV::Tuple(Seq::empty()))) })
        .insert("print"@, SchemeV { vars: seq![1600], preds: seq![PredV { class: "Show"@, ty: TyV::Var(1600), extra: Seq::empty() }], ty: fun_v(TyV::Var(1600), app_v(con_v("IO"@), TyV::Tuple(Seq::empty()))) })
        .insert("return"@, SchemeV { vars: seq![1700], preds: Seq::empty(), ty: fun_v(TyV::Var(1700), app_v(con_v("IO"@), TyV::Var(1700))) })
        .insert(">>="@, SchemeV { vars: seq![1800, 1801], preds: Seq::empty(), ty: fun_v(app_v(con_v("IO"@), TyV::Var(1800)), fun_v(fun_v(TyV::Var(1800), app_v(con_v("IO"@), TyV::Var(1801))), app_v(con_v("IO"@), TyV::Var(1801)))) })
        .insert(">>"@, SchemeV { vars: seq![1900, 1901], preds: Seq::empty(), ty: fun_v(app_v(con_v("IO"@), TyV::Var(1900)), fun_v(app_v(con_v("IO"@), TyV::Var(1901)), app_v(con_v("IO"@), TyV::Var(1901)))) })
        .insert("getLine"@, SchemeV { vars: Seq::empty(), preds: Seq::empty(), ty: app_v(con_v("IO"@), list_v(con_v("Char"@))) })
}

/// The schemes bound by part 5 of the built-in environment, later
/// bindings of a name replacing earlier ones.
pub open spec fn builtin_schemes_5() -> Map<Seq<char>, SchemeV> {
    Map::empty()
        .insert("getChar"@, SchemeV { vars: Seq::empty(), preds: Seq::empty(), ty: app_v(con_v("IO"@), con_v("Char"@)) })
        .insert("getContents"@, SchemeV { vars: Seq::empty(), preds: Seq::empty(), ty: app_v(con_v("IO"@), list_v(con_v("Char"@))) })
        .insert("readFile"@, SchemeV { vars: Seq::empty(), preds: Seq::empty(), ty: fun_v(list_v(con_v("Char"@)), app_v(con_v("IO"@), list_v(con_v("Char"@)))) })
        .insert("writeFile"@, SchemeV { vars: Seq::empty(), preds: Seq::empty(), ty: fun_v(list_v(con_v("Char"@)), fun_v(list_v(con_v("Char"@)), app_v(con_v("IO"@), TyV::Tuple(Seq::empty())))) })
        .insert("appendFile"@, SchemeV { vars: Seq::empty(), preds: Seq::empty(), ty: fun_v(list_v(con_v("Char"@)), fun_v(list_v(con_v("Char"@)), app_v(con_v("IO"@), TyV::Tuple(Seq::empty())))) })
        .insert("interact"@, SchemeV { vars: Seq::empty(), preds: Seq::empty(), ty: fun_v(fun_v(list_v(con_v("Char"@)), list_v(con_v("Char"@))), app_v(con_v("IO"@), TyV::Tuple(Seq::empty()))) })
        .insert("newIORef"@, SchemeV { vars: seq![3200], preds: Seq::empty(), ty: fun_v(TyV::Var(3200), app_v(con_v("IO"@), con_v("Int"@))) })
        .insert("readIORef"@, SchemeV { vars: seq![3201], preds: Seq::empty(), ty: fun_v(con_v("Int"@), app_v(con_v("IO"@), TyV::Var(3201))) })
        .insert("writeIORef"@, SchemeV { vars: seq![3202], preds: Seq::empty(), ty: fun_v(con_v("Int"@), fun_v(TyV::Var(3202), app_v(con_v("IO"@), TyV::Tuple(Seq::empty())))) })
        .insert("modifyIORef"@, SchemeV { vars: seq![3203], preds: Seq::empty(), ty: fun_v(con_v("Int"@), fun_v(fun_v(TyV::Var(3203), TyV::Var(3203)), app_v(con_v("IO"@), TyV::Tuple(Seq::empty())))) })
        .insert("newSTRef"@, SchemeV { vars: seq![3280], preds: Seq::empty(), ty: fun_v(TyV::Var(3280), con_v("Int"@)) })
        .insert("readSTRef"@, SchemeV { vars: seq![3281], preds: Seq::empty(), ty: fun_v(con_v("Int"@), TyV::Var(3281)) })
        .insert("writeSTRef"@, SchemeV { vars: seq![3282], preds: Seq::empty(), ty: fun_v(con_v("Int"@), fun_v(TyV::Var(3282), TyV::Tuple(Seq::empty()))) })
        .insert("modifySTRef"@, SchemeV { vars: seq![3284], preds: Seq::empty(), ty: fun_v(con_v("Int"@), fun_v(fun_v(TyV::Var(3284), TyV::Var(3284)), TyV::Tuple(Seq::empty()))) })
        .insert("runST"@, SchemeV { vars: seq![3283], preds: Seq::empty(), ty: fun_v(TyV::Var(3283), TyV::Var(3283)) })
        .insert("newTVar"@, SchemeV { vars: seq![3290], preds: Seq::empty(), ty: fun_v(TyV::Var(3290), app_v(con_v("IO"@), con_v("Int"@))) })
        .insert("newTVarIO"@, SchemeV { vars: seq![3291], preds: Seq::empty(), ty: fun_v(TyV::Var(3291), app_v(con_v("IO"@), con_v("Int"@))) })
        .insert("readTVar"@, SchemeV { vars: seq![3292], preds: Seq::empty(), ty: fun_v(con_v("Int"@), app_v(con_v("IO"@), TyV::Var(3292))) })
        .insert("readTVarIO"@, SchemeV { vars: seq![3293], preds: Seq::empty(), ty: fun_v(con_v("Int"@), app_v(con_v("IO"@), TyV::Var(3293))) })
        .insert("writeTVar"@, SchemeV { vars: seq![3294], preds: Seq::empty(), ty: fun_v(con_v("Int"@), fun_v(TyV::Var(3294), app_v(con_v("IO"@), TyV::Tuple(Seq::empty())))) })
}

/// The schemes bound by part 6 of the built-in environment, later
/// bindings of a name replacing earlier ones.
pub open spec fn builtin_schemes_6() -> Map<Seq<char>, SchemeV> {
    Map::empty()
        .insert("atomically"@, SchemeV { vars: seq![3295], preds: Seq::empty(), ty: fun_v(app_v(con_v("IO"@), TyV::Var(3295)), app_v(con_v("IO"@), TyV::Var(3295))) })
        .insert("retry"@, SchemeV { vars: seq![3296], preds: Seq::empty(), ty: app_v(con_v("IO"@), TyV::Var(3296)) })
        .insert("orElse"@, SchemeV { vars: seq![3297], preds: Seq::empty(), ty: fun_v(app_v(con_v("IO"@), TyV::Var(3297)), fun_v(app_v(con_v("IO"@), TyV::Var(3297)), app_v(con_v("IO"@), TyV::Var(3297)))) })
        .insert("runStateT"@, SchemeV { vars: seq![3400, 3401], preds: Seq::empty(), ty: fun_v(app_v(con_v("IO"@), TyV::Var(3400)), fun_v(TyV::Var(3401), app_v(con_v("IO"@), TyV::Var(3400)))) })
        .insert("evalStateT"@, SchemeV { vars: seq![3402, 3403], preds: Seq::empty(), ty: fun_v(app_v(con_v("IO"@), TyV::Var(3402)), fun_v(TyV::Var(3403), app_v(con_v("IO"@), TyV::Var(3402)))) })
        .insert("evalState"@, SchemeV { vars: seq![3402, 3403], preds: Seq::empty(), ty: fun_v(app_v(con_v("IO"@), TyV::Var(3402)), fun_v(TyV::Var(3403), app_v(con_v("IO"@), TyV::Var(3402)))) })
        .insert("execStateT"@, SchemeV { vars: seq![3404, 3405], preds: Seq::empty(), ty: fun_v(app_v(con_v("IO"@), TyV::Var(3404)), fun_v(TyV::Var(3405), app_v(con_v("IO"@), TyV::Var(3405)))) })
        .insert("execState"@, SchemeV { vars: seq![3404, 3405], preds: Seq::empty(), ty: fun_v(app_v(con_v("IO"@), TyV::Var(3404)), fun_v(TyV::Var(3405), app_v(con_v("IO"@), TyV::Var(3405)))) })
        .insert("get"@, SchemeV { vars: seq![3406], preds: Seq::empty(), ty: app_v(con_v("IO"@), TyV::Var(3406)) })
        .insert("put"@, SchemeV { vars: seq![3407], preds: Seq::empty(), ty: fun_v(TyV::Var(3407), app_v(con_v("IO"@), TyV::Tuple(Seq::empty()))) })
        .insert("modify"@, SchemeV { vars: seq![3408], preds: Seq::empty(), ty: fun_v(fun_v(TyV::Var(3408), TyV::Var(3408)), app_v(con_v("IO"@), TyV::Tuple(Seq::empty()))) })
        .insert("runReaderT"@, SchemeV { vars: seq![3410, 3411], preds: Seq::empty(), ty: fun_v(app_v(con_v("IO"@), TyV::Var(3410)), fun_v(TyV::Var(3411), app_v(con_v("IO"@), TyV::Var(3410)))) })
        .insert("ask"@, SchemeV { vars: seq![3412], preds: Seq::empty(), ty: app_v(con_v("IO"@), TyV::Var(3412)) })
        .insert("local"@, SchemeV { vars: seq![3413, 3414], preds: Seq::empty(), ty: fun_v(fun_v(TyV::Var(3413), TyV::Var(3413)), fun_v(app_v(con_v("IO"@), TyV::Var(3414)), app_v(con_v("IO"@), TyV::Var(3414)))) })
        .insert("runExceptT"@, SchemeV { vars: seq![3420], preds: Seq::empty(), ty: fun_v(app_v(con_v("IO"@), TyV::Var(3420)), app_v(con_v("IO"@), TyV::Var(3420))) })
        .insert("throwE"@, SchemeV { vars: seq![3421, 3422], preds: Seq::empty(), ty: fun_v(TyV::Var(3422), app_v(con_v("IO"@), TyV::Var(3421))) })
        .insert("catchE"@, SchemeV { vars: seq![3423, 3424], preds: Seq::empty(), ty: fun_v(app_v(con_v("IO"@), TyV::Var(3423)), fun_v(fun_v(TyV::Var(3424), app_v(con_v("IO"@), TyV::Var(3423))), app_v(con_v("IO"@), TyV::Var(3423)))) })
        .insert("runWriterT"@, SchemeV { vars: seq![3430], preds: Seq::empty(), ty: fun_v(app_v(con_v("IO"@), TyV::Var(3430)), app_v(con_v("IO"@), TyV::Var(3430))) })
        .insert("tell"@, SchemeV { vars: seq![3431], preds: Seq::empty(), ty: fun_v(TyV::Var(3431), app_v(con_v("IO"@), TyV::Tuple(Seq::empty()))) })
        .insert("runMaybeT"@, SchemeV { vars: seq![3440], preds: Seq::empty(), ty: fun_v(app_v(con_v("IO"@), TyV::Var(3440)), app_v(con_v("IO"@), TyV::Var(3440))) })
}

/// The schemes bound by part 7 of the built-in environment, later
/// bindings of a name replacing earlier ones.
pub open spec fn builtin_schemes_7() -> Map<Seq<char>, SchemeV> {
    Map::empty()
        .insert("mapEmpty"@, SchemeV { vars: Seq::empty(), preds: Seq::empty(), ty: con_v("Int"@) })
        .insert("mapSingleton"@, SchemeV { vars: seq![3210, 3211], preds: Seq::empty(), ty: fun_v(TyV::Var(3210), fun_v(TyV::Var(3211), con_v("Int"@))) })
        .insert("mapInsert"@, SchemeV { vars: seq![3212, 3800], preds: seq![PredV { class: "Ord"@, ty: TyV::Var(3212), extra: Seq::empty() }], ty: fun_v(TyV::Var(3212), fun_v(TyV::Var(3800), fun_v(con_v("Int"@), con_v("Int"@)))) })
        .insert("mapLookup"@, SchemeV { vars: seq![3801, 3213], preds: seq![PredV { class: "Ord"@, ty: TyV::Var(3801), extra: Seq::empty() }], ty: fun_v(TyV::Var(3801), fun_v(con_v("Int"@), TyV::Var(3213))) })
        .insert("mapSize"@, SchemeV { vars: Seq::empty(), preds: Seq::empty(), ty: fun_v(con_v("Int"@), con_v("Int"@)) })
        .insert("mapMember"@, SchemeV { vars: seq![3802], preds: seq![PredV { class: "Ord"@, ty: TyV::Var(3802), extra: Seq::empty() }], ty: fun_v(TyV::Var(3802), fun_v(con_v("Int"@), con_v("Bool"@))) })
        .insert("mapFromList"@, SchemeV { vars: seq![3803, 3214], preds: seq![PredV { class: "Ord"@, ty: TyV::Var(3803), extra: Seq::empty() }], ty: fun_v(list_v(TyV::Tuple(seq![TyV::Var(3803), TyV::Var(3214)])), con_v("Int"@)) })
        .insert("mapDelete"@, SchemeV { vars: seq![3804], preds: seq![PredV { class: "Ord"@, ty: TyV::Var(3804), extra: Seq::empty() }], ty: fun_v(TyV::Var(3804), fun_v(con_v("Int"@), con_v("Int"@))) })
        .insert("mapToList"@, SchemeV { vars: seq![3220], preds: Seq::empty(), ty: fun_v(con_v("Int"@), list_v(TyV::Tuple(seq![con_v("Int"@), TyV::Var(3220)]))) })
        .insert("mapKeys"@, SchemeV { vars: Seq::empty(), preds: Seq::empty(), ty: fun_v(con_v("Int"@), list_v(con_v("Int"@))) })
        .insert("mapElems"@, SchemeV { vars: seq![3222], preds: Seq::empty(), ty: fun_v(con_v("Int"@), list_v(TyV::Var(3222))) })
        .insert("mapNull"@, SchemeV { vars: Seq::empty(), preds: Seq::empty(), ty: fun_v(con_v("Int"@), con_v("Bool"@)) })
        .insert("mapMap"@, SchemeV { vars: seq![3224, 3225], preds: Seq::empty(), ty: fun_v(fun_v(TyV::Var(3224), TyV::Var(3225)), fun_v(con_v("Int"@), con_v("Int"@))) })
        .insert("mapFoldlWithKey"@, SchemeV { vars: seq![3226, 3227], preds: Seq::empty(), ty: fun_v(fun_v(TyV::Var(3226), fun_v(con_v("Int"@), fun_v(TyV::Var(3227), TyV::Var(3226)))), fun_v(TyV::Var(3226), fun_v(con_v("Int"@), TyV::Var(3226)))) })
        .insert("mapFoldrWithKey"@, SchemeV { vars: seq![3840, 3841], preds: Seq::empty(), ty: fun_v(fun_v(con_v("Int"@), fun_v(TyV::Var(3841), fun_v(TyV::Var(3840), TyV::Var(3840)))), fun_v(TyV::Var(3840), fun_v(con_v("Int"@), TyV::Var(3840)))) })
        .insert("mapFoldlWithKey'"@, SchemeV { vars: seq![3845, 3846], preds: Seq::empty(), ty: fun_v(fun_v(TyV::Var(3845), fun_v(con_v("Int"@), fun_v(TyV::Var(3846), TyV::Var(3845)))), fun_v(TyV::Var(3845), fun_v(con_v("Int"@), TyV::Var(3845)))) })
        .insert("mapInsertWith"@, SchemeV { vars: seq![3805, 3230], preds: seq![PredV { class: "Ord"@, ty: TyV::Var(3805), extra: Seq::empty() }], ty: fun_v(fun_v(TyV::Var(3230), fun_v(TyV::Var(3230), TyV::Var(3230))), fun_v(TyV::Var(3805), fun_v(TyV::Var(3230), fun_v(con_v("Int"@), con_v("Int"@))))) })
        .insert("mapFindWithDefault"@, SchemeV { vars: seq![3806, 3231], preds: seq![PredV { class: "Ord"@, ty: TyV::Var(3806), extra: Seq::empty() }], ty: fun_v(TyV::Var(3231), fun_v(TyV::Var(3806), fun_v(con_v("Int"@), TyV::Var(3231)))) })
        .insert("mapAdjust"@, SchemeV { vars: seq![3807, 3232], preds: seq![PredV { class: "Ord"@, ty: TyV::Var(3807), extra: Seq::empty() }], ty: fun_v(fun_v(TyV::Var(3232), TyV::Var(3232)), fun_v(TyV::Var(3807), fun_v(con_v("Int"@), con_v("Int"@)))) })
        .insert("mapUnionWith"@, SchemeV { vars: seq![3233], preds: Seq::empty(), ty: fun_v(fun_v(TyV::Var(3233), fun_v(TyV::Var(3233), TyV::Var(3233))), fun_v(con_v("Int"@), fun_v(con_v("Int"@), con_v("Int"@)))) })
}

/// The schemes bound by part 8 of the built-in environment, later
/// bindings of a name replacing earlier ones.
pub open spec fn builtin_schemes_8() -> Map<Seq<char>, SchemeV> {
    Map::empty()
        .insert("mapUnion"@, SchemeV { vars: Seq::empty(), preds: Seq::empty(), ty: fun_v(con_v("Int"@), fun_v(con_v("Int"@), con_v("Int"@))) })
        .insert("mapDifference"@, SchemeV { vars: Seq::empty(), preds: Seq::empty(), ty: fun_v(con_v("Int"@), fun_v(con_v("Int"@), con_v("Int"@))) })
        .insert("mapIntersectionWith"@, SchemeV { vars: seq![3234], preds: Seq::empty(), ty: fun_v(fun_v(TyV::Var(3234), fun_v(TyV::Var(3234), TyV::Var(3234))), fun_v(con_v("Int"@), fun_v(con_v("Int"@), con_v("Int"@)))) })
        .insert("mapFilter"@, SchemeV { vars: seq![3235], preds: Seq::empty(), ty: fun_v(fun_v(TyV::Var(3235), con_v("Bool"@)), fun_v(con_v("Int"@), con_v("Int"@))) })
        .insert("setEmpty"@, SchemeV { vars: Seq::empty(), preds: Seq::empty(), ty: con_v("Int"@) })
        .insert("setSingleton"@, SchemeV { vars: Seq::empty(), preds: Seq::empty(), ty: fun_v(con_v("Int"@), con_v("Int"@)) })
        .insert("setInsert"@, SchemeV { vars: Seq::empty(), preds: Seq::empty(), ty: fun_v(con_v("Int"@), fun_v(con_v("Int"@), con_v("Int"@))) })
        .insert("setMember"@, SchemeV { vars: Seq::empty(), preds: Seq::empty(), ty: fun_v(con_v("Int"@), fun_v(con_v("Int"@), con_v("Bool"@))) })
        .insert("setSize"@, SchemeV { vars: Seq::empty(), preds: Seq::empty(), ty: fun_v(con_v("Int"@), con_v("Int"@)) })
        .insert("setToList"@, SchemeV { vars: Seq::empty(), preds: Seq::empty(), ty: fun_v(con_v("Int"@), list_v(con_v("Int"@))) })
        .insert("setFromList"@, SchemeV { vars: Seq::empty(), preds: Seq::empty(), ty: fun_v(list_v(con_v("Int"@)), con_v("Int"@)) })
        .insert("setDelete"@, SchemeV { vars: Seq::empty(), preds: Seq::empty(), ty: fun_v(con_v("Int"@), fun_v(con_v("Int"@), con_v("Int"@))) })
        .insert("setUnion"@, SchemeV { vars: Seq::empty(), preds: Seq::empty(), ty: fun_v(con_v("Int"@), fun_v(con_v("Int"@), con_v("Int"@))) })
        .insert("setIntersection"@, SchemeV { vars: Seq::empty(), preds: Seq::empty(), ty: fun_v(con_v("Int"@), fun_v(con_v("Int"@), con_v("Int"@))) })
        .insert("setDifference"@, SchemeV { vars: Seq::empty(), preds: Seq::empty(), ty: fun_v(con_v("Int"@), fun_v(con_v("Int"@), con_v("Int"@))) })
        .insert("setFilter"@, SchemeV { vars: Seq::empty(), preds: Seq::empty(), ty: fun_v(fun_v(con_v("Int"@), con_v("Bool"@)), fun_v(con_v("Int"@), con_v("Int"@))) })
        .insert("setMap"@, SchemeV { vars: Seq::empty(), preds: Seq::empty(), ty: fun_v(fun_v(con_v("Int"@), con_v("Int"@)), fun_v(con_v("Int"@), con_v("Int"@))) })
        .insert("setFold"@, SchemeV { vars: seq![3230], preds: Seq::empty(), ty: fun_v(fun_v(con_v("Int"@), fun_v(TyV::Var(3230), TyV::Var(3230))), fun_v(TyV::Var(3230), fun_v(con_v("Int"@), TyV::Var(3230)))) })
        .insert("setFoldr"@, SchemeV { vars: seq![3231], preds: Seq::empty(), ty: fun_v(fun_v(con_v("Int"@), fun_v(TyV::Var(3231), TyV::Var(3231))), fun_v(TyV::Var(3231), fun_v(con_v("Int"@), TyV::Var(3231)))) })
        .insert("when"@, SchemeV { vars: Seq::empty(), preds: Seq::empty(), ty: fun_v(con_v("Bool"@), fun_v(app_v(con_v("IO"@), TyV::Tuple(Seq::empty())), app_v(con_v("IO"@), TyV::Tuple(Seq::empty())))) })
}

/// The schemes bound by part 9 of the built-in environment, later
/// bindings of a name replacing earlier ones.
pub open spec fn builtin_schemes_9() -> Map<Seq<char>, SchemeV> {
    Map::empty()
        .insert("unless"@, SchemeV { vars: Seq::empty(), preds: Seq::empty(), ty: fun_v(con_v("Bool"@), fun_v(app_v(con_v("IO"@), TyV::Tuple(Seq::empty())), app_v(con_v("IO"@), TyV::Tuple(Seq::empty())))) })
        .insert("mapM_"@, SchemeV { vars: seq![3500], preds: Seq::empty(), ty: fun_v(fun_v(TyV::Var(3500), app_v(con_v("IO"@), TyV::Tuple(Seq::empty()))), fun_v(list_v(TyV::Var(3500)), app_v(con_v("IO"@), TyV::Tuple(Seq::empty())))) })
        .insert("forM_"@, SchemeV { vars: seq![3501], preds: Seq::empty(), ty: fun_v(list_v(TyV::Var(3501)), fun_v(fun_v(TyV::Var(3501), app_v(con_v("IO"@), TyV::Tuple(Seq::empty()))), app_v(con_v("IO"@), TyV::Tuple(Seq::empty())))) })
        .insert("putChar"@, SchemeV { vars: Seq::empty(), preds: Seq::empty(), ty: fun_v(con_v("Char"@), app_v(con_v("IO"@), TyV::Tuple(Seq::empty()))) })
        .insert("sequence_"@, SchemeV { vars: Seq::empty(), preds: Seq::empty(), ty: fun_v(list_v(app_v(con_v("IO"@), TyV::Tuple(Seq::empty()))), app_v(con_v("IO"@), TyV::Tuple(Seq::empty()))) })
        .insert("void"@, SchemeV { vars: seq![3510], preds: Seq::empty(), ty: fun_v(app_v(con_v("IO"@), TyV::Var(3510)), app_v(con_v("IO"@), TyV::Tuple(Seq::empty()))) })
        .insert("guard"@, SchemeV { vars: Seq::empty(), preds: Seq::empty(), ty: fun_v(con_v("Bool"@), app_v(con_v("IO"@), TyV::Tuple(Seq::empty()))) })
        .insert("interact"@, SchemeV { vars: Seq::empty(), preds: Seq::empty(), ty: fun_v(fun_v(list_v(con_v("Char"@)), list_v(con_v("Char"@))), app_v(con_v("IO"@), TyV::Tuple(Seq::empty()))) })
        .insert("lines"@, SchemeV { vars: Seq::empty(), preds: Seq::empty(), ty: fun_v(list_v(con_v("Char"@)), list_v(list_v(con_v("Char"@)))) })
        .insert("unlines"@, SchemeV { vars: Seq::empty(), preds: Seq::empty(), ty: fun_v(list_v(list_v(con_v("Char"@))), list_v(con_v("Char"@))) })
        .insert("error"@, SchemeV { vars: seq![3400], preds: Seq::empty(), ty: fun_v(list_v(con_v("Char"@)), TyV::Var(3400)) })
        .insert("undefined"@, SchemeV { vars: seq![3401], preds: Seq::empty(), ty: TyV::Var(3401) })
        .insert("seq"@, SchemeV { vars: seq![3402, 3403], preds: Seq::empty(), ty: fun_v(TyV::Var(3402), fun_v(TyV::Var(3403), TyV::Var(3403))) })
        .insert("deepseq"@, SchemeV { vars: seq![3410, 3411], preds: seq![PredV { class: "NFData"@, ty: TyV::Var(3410), extra: Seq::empty() }], ty: fun_v(TyV::Var(3410), fun_v(TyV::Var(3411), TyV::Var(3411))) })
        .insert("force"@, SchemeV { vars: seq![3412], preds: seq![PredV { class: "NFData"@, ty: TyV::Var(3412), extra: Seq::empty() }], ty: fun_v(TyV::Var(3412), TyV::Var(3412)) })
        .insert("evaluate"@, SchemeV { vars: seq![3413], preds: Seq::empty(), ty: fun_v(TyV::Var(3413), app_v(con_v("IO"@), TyV::Var(3413))) })
        .insert("rnf"@, SchemeV { vars: seq![3414], preds: seq![PredV { class: "NFData"@, ty: TyV::Var(3414), extra: Seq::empty() }], ty: fun_v(TyV::Var(3414), TyV::Tuple(Seq::empty())) })
        .insert("<>"@, SchemeV { vars: seq![3600], preds: seq![PredV { class: "Semigroup"@, ty: TyV::Var(3600), extra: Seq::empty() }], ty: fun_v(TyV::Var(3600), fun_v(TyV::Var(3600), TyV::Var(3600))) })
        .insert("mempty"@, SchemeV { vars: seq![3601], preds: seq![PredV { class: "Monoid"@, ty: TyV::Var(3601), extra: Seq::empty() }], ty: TyV::Var(3601) })
        .insert("mconcat"@, SchemeV { vars: seq![3602], preds: seq![PredV { class: "Monoid"@, ty: TyV::Var(3602), extra: Seq::empty() }], ty: fun_v(list_v(TyV::Var(3602)), TyV::Var(3602)) })
}

/// The schemes bound by part 10 of the built-in environment, later
/// bindings of a name replacing earlier ones.
pub open spec fn builtin_schemes_10() -> Map<Seq<char>, SchemeV> {
    Map::empty()
        .insert("sortBy"@, SchemeV { vars: seq![3700], preds: Seq::empty(), ty: fun_v(fun_v(TyV::Var(3700), fun_v(TyV::Var(3700), con_v("Ordering"@))), fun_v(list_v(TyV::Var(3700)), list_v(TyV::Var(3700)))) })
        .insert("insertBy"@, SchemeV { vars: seq![3701], preds: Seq::empty(), ty: fun_v(fun_v(TyV::Var(3701), fun_v(TyV::Var(3701), con_v("Ordering"@))), fun_v(TyV::Var(3701), fun_v(list_v(TyV::Var(3701)), list_v(TyV::Var(3701))))) })
        .insert("nubBy"@, SchemeV { vars: seq![3702], preds: Seq::empty(), ty: fun_v(fun_v(TyV::Var(3702), fun_v(TyV::Var(3702), con_v("Bool"@))), fun_v(list_v(TyV::Var(3702)), list_v(TyV::Var(3702)))) })
        .insert("maximumBy"@, SchemeV { vars: seq![3703], preds: Seq::empty(), ty: fun_v(fun_v(TyV::Var(3703), fun_v(TyV::Var(3703), con_v("Ordering"@))), fun_v(list_v(TyV::Var(3703)), TyV::Var(3703))) })
        .insert("minimumBy"@, SchemeV { vars: seq![3704], preds: Seq::empty(), ty: fun_v(fun_v(TyV::Var(3704), fun_v(TyV::Var(3704), con_v("Ordering"@))), fun_v(list_v(TyV::Var(3704)), TyV::Var(3704))) })
        .insert("on"@, SchemeV { vars: seq![3705, 3706, 3707], preds: Seq::empty(), ty: fun_v(fun_v(TyV::Var(3706), fun_v(TyV::Var(3706), TyV::Var(3707))), fun_v(fun_v(TyV::Var(3705), TyV::Var(3706)), fun_v(TyV::Var(3705), fun_v(TyV::Var(3705), TyV::Var(3707))))) })
        .insert("find"@, SchemeV { vars: seq![3710], preds: Seq::empty(), ty: fun_v(fun_v(TyV::Var(3710), con_v("Bool"@)), fun_v(list_v(TyV::Var(3710)), app_v(con_v("Maybe"@), TyV::Var(3710)))) })
        .insert("groupBy"@, SchemeV { vars: seq![3711], preds: Seq::empty(), ty: fun_v(fun_v(TyV::Var(3711), fun_v(TyV::Var(3711), con_v("Bool"@))), fun_v(list_v(TyV::Var(3711)), list_v(list_v(TyV::Var(3711))))) })
        .insert("map"@, SchemeV { vars: seq![3000, 3001], preds: Seq::empty(), ty: fun_v(fun_v(TyV::Var(3000), TyV::Var(3001)), fun_v(list_v(TyV::Var(3000)), list_v(TyV::Var(3001)))) })
        .insert("filter"@, SchemeV { vars: seq![3010], preds: Seq::empty(), ty: fun_v(fun_v(TyV::Var(3010), con_v("Bool"@)), fun_v(list_v(TyV::Var(3010)), list_v(TyV::Var(3010)))) })
        .insert("foldr"@, SchemeV { vars: seq![3020, 3021], preds: Seq::empty(), ty: fun_v(fun_v(TyV::Var(3020), fun_v(TyV::Var(3021), TyV::Var(3021))), fun_v(TyV::Var(3021), fun_v(list_v(TyV::Var(3020)), TyV::Var(3021)))) })
        .insert("foldl"@, SchemeV { vars: seq![3030, 3031], preds: Seq::empty(), ty: fun_v(fun_v(TyV::Var(3031), fun_v(TyV::Var(3030), TyV::Var(3031))), fun_v(TyV::Var(3031), fun_v(list_v(TyV::Var(3030)), TyV::Var(3031)))) })
        .insert("head"@, SchemeV { vars: seq![3040], preds: Seq::empty(), ty: fun_v(list_v(TyV::Var(3040)), TyV::Var(3040)) })
        .insert("tail"@, SchemeV { vars: seq![3050], preds: Seq::empty(), ty: fun_v(list_v(TyV::Var(3050)), list_v(TyV::Var(3050))) })
        .insert("null"@, SchemeV { vars: seq![3060], preds: Seq::empty(), ty: fun_v(list_v(TyV::Var(3060)), con_v("Bool"@)) })
        .insert("length"@, SchemeV { vars: seq![3070], preds: Seq::empty(), ty: fun_v(list_v(TyV::Var(3070)), con_v("Int"@)) })
        .insert("reverse"@, SchemeV { vars: seq![3080], preds: Seq::empty(), ty: fun_v(list_v(TyV::Var(3080)), list_v(TyV::Var(3080))) })
        .insert("zip"@, SchemeV { vars: seq![3090, 3091], preds: Seq::empty(), ty: fun_v(list_v(TyV::Var(3090)), fun_v(list_v(TyV::Var(3091)), list_v(TyV::Tuple(seq![TyV::Var(3090), TyV::Var(3091)])))) })
        .insert("zipWith"@, SchemeV { vars: seq![3100, 3101, 3102], preds: Seq::empty(), ty: fun_v(fun_v(TyV::Var(3100), fun_v(TyV::Var(3101), TyV::Var(3102))), fun_v(list_v(TyV::Var(3100)), fun_v(list_v(TyV::Var(3101)), list_v(TyV::Var(3102))))) })
        .insert("++"@, SchemeV { vars: seq![3105], preds: Seq::empty(), ty: fun_v(list_v(TyV::Var(3105)), fun_v(list_v(TyV::Var(3105)), list_v(TyV::Var(3105)))) })
}

/// The schemes bound by part 11 of the built-in environment, later
/// bindings of a name replacing earlier ones.
pub open spec fn builtin_schemes_11() -> Map<Seq<char>, SchemeV> {
    Map::empty()
        .insert("append"@, SchemeV { vars: seq![3110], preds: Seq::empty(), ty: fun_v(list_v(TyV::Var(3110)), fun_v(list_v(TyV::Var(3110)), list_v(TyV::Var(3110)))) })
        .insert("any"@, SchemeV { vars: seq![3120], preds: Seq::empty(), ty: fun_v(fun_v(TyV::Var(3120), con_v("Bool"@)), fun_v(list_v(TyV::Var(3120)), con_v("Bool"@))) })
        .insert("all"@, SchemeV { vars: seq![3130], preds: Seq::empty(), ty: fun_v(fun_v(TyV::Var(3130), con_v("Bool"@)), fun_v(list_v(TyV::Var(3130)), con_v("Bool"@))) })
        .insert("sum"@, SchemeV { vars: Seq::empty(), preds: Seq::empty(), ty: fun_v(list_v(con_v("Int"@)), con_v("Int"@)) })
        .insert("product"@, SchemeV { vars: Seq::empty(), preds: Seq::empty(), ty: fun_v(list_v(con_v("Int"@)), con_v("Int"@)) })
        .insert("concatMap"@, SchemeV { vars: seq![3140, 3141], preds: Seq::empty(), ty: fun_v(fun_v(TyV::Var(3140), list_v(TyV::Var(3141))), fun_v(list_v(TyV::Var(3140)), list_v(TyV::Var(3141)))) })
        .insert("last"@, SchemeV { vars: seq![3150], preds: Seq::empty(), ty: fun_v(list_v(TyV::Var(3150)), TyV::Var(3150)) })
        .insert("init"@, SchemeV { vars: seq![3160], preds: Seq::empty(), ty: fun_v(list_v(TyV::Var(3160)), list_v(TyV::Var(3160))) })
        .insert("elem"@, SchemeV { vars: seq![3500], preds: Seq::empty(), ty: fun_v(TyV::Var(3500), fun_v(list_v(TyV::Var(3500)), con_v("Bool"@))) })
        .insert("notElem"@, SchemeV { vars: seq![3501], preds: Seq::empty(), ty: fun_v(TyV::Var(3501), fun_v(list_v(TyV::Var(3501)), con_v("Bool"@))) })
        .insert("minimum"@, SchemeV { vars: Seq::empty(), preds: Seq::empty(), ty: fun_v(list_v(con_v("Int"@)), con_v("Int"@)) })
        .insert("maximum"@, SchemeV { vars: Seq::empty(), preds: Seq::empty(), ty: fun_v(list_v(con_v("Int"@)), con_v("Int"@)) })
        .insert("sort"@, SchemeV { vars: Seq::empty(), preds: Seq::empty(), ty: fun_v(list_v(con_v("Int"@)), list_v(con_v("Int"@))) })
        .insert("insert"@, SchemeV { vars: Seq::empty(), preds: Seq::empty(), ty: fun_v(con_v("Int"@), fun_v(list_v(con_v("Int"@)), list_v(con_v("Int"@)))) })
        .insert("abs"@, SchemeV { vars: seq![2210], preds: seq![PredV { class: "Num"@, ty: TyV::Var(2210), extra: Seq::empty() }], ty: fun_v(TyV::Var(2210), TyV::Var(2210)) })
        .insert("signum"@, SchemeV { vars: seq![2211], preds: seq![PredV { class: "Num"@, ty: TyV::Var(2211), extra: Seq::empty() }], ty: fun_v(TyV::Var(2211), TyV::Var(2211)) })
        .insert("even"@, SchemeV { vars: Seq::empty(), preds: Seq::empty(), ty: fun_v(con_v("Int"@), con_v("Bool"@)) })
        .insert("odd"@, SchemeV { vars: Seq::empty(), preds: Seq::empty(), ty: fun_v(con_v("Int"@), con_v("Bool"@)) })
        .insert("replicate"@, SchemeV { vars: seq![3250], preds: Seq::empty(), ty: fun_v(con_v("Int"@), fun_v(TyV::Var(3250), list_v(TyV::Var(3250)))) })
        .insert("takeWhile"@, SchemeV { vars: seq![3300], preds: Seq::empty(), ty: fun_v(fun_v(TyV::Var(3300), con_v("Bool"@)), fun_v(list_v(TyV::Var(3300)), list_v(TyV::Var(3300)))) })
}

/// The schemes bound by part 12 of the built-in environment, later
/// bindings of a name replacing earlier ones.
pub open spec fn builtin_schemes_12() -> Map<Seq<char>, SchemeV> {
    Map::empty()
        .insert("dropWhile"@, SchemeV { vars: seq![3301], preds: Seq::empty(), ty: fun_v(fun_v(TyV::Var(3301), con_v("Bool"@)), fun_v(list_v(TyV::Var(3301)), list_v(TyV::Var(3301)))) })
        .insert("iterate"@, SchemeV { vars: seq![3302], preds: Seq::empty(), ty: fun_v(fun_v(TyV::Var(3302), TyV::Var(3302)), fun_v(TyV::Var(3302), list_v(TyV::Var(3302)))) })
        .insert("lookup"@, SchemeV { vars: seq![3303, 3304], preds: Seq::empty(), ty: fun_v(TyV::Var(3303), fun_v(list_v(TyV::Tuple(seq![TyV::Var(3303), TyV::Var(3304)])), app_v(con_v("Maybe"@), TyV::Var(3304)))) })
        .insert("unzip"@, SchemeV { vars: seq![3305, 3306], preds: Seq::empty(), ty: fun_v(list_v(TyV::Tuple(seq![TyV::Var(3305), TyV::Var(3306)])), TyV::Tuple(seq![list_v(TyV::Var(3305)), list_v(TyV::Var(3306))])) })
        .insert("scanl"@, SchemeV { vars: seq![3307, 3308], preds: Seq::empty(), ty: fun_v(fun_v(TyV::Var(3308), fun_v(TyV::Var(3307), TyV::Var(3308))), fun_v(TyV::Var(3308), fun_v(list_v(TyV::Var(3307)), list_v(TyV::Var(3308))))) })
        .insert("span"@, SchemeV { vars: seq![3309], preds: Seq::empty(), ty: fun_v(fun_v(TyV::Var(3309), con_v("Bool"@)), fun_v(list_v(TyV::Var(3309)), TyV::Tuple(seq![list_v(TyV::Var(3309)), list_v(TyV::Var(3309))]))) })
        .insert("break"@, SchemeV { vars: seq![3310], preds: Seq::empty(), ty: fun_v(fun_v(TyV::Var(3310), con_v("Bool"@)), fun_v(list_v(TyV::Var(3310)), TyV::Tuple(seq![list_v(TyV::Var(3310)), list_v(TyV::Var(3310))]))) })
        .insert("partition"@, SchemeV { vars: seq![3311], preds: Seq::empty(), ty: fun_v(fun_v(TyV::Var(3311), con_v("Bool"@)), fun_v(list_v(TyV::Var(3311)), TyV::Tuple(seq![list_v(TyV::Var(3311)), list_v(TyV::Var(3311))]))) })
        .insert("mapInsertStr"@, SchemeV { vars: seq![3240], preds: Seq::empty(), ty: fun_v(list_v(con_v("Char"@)), fun_v(TyV::Var(3240), fun_v(con_v("Int"@), con_v("Int"@)))) })
        .insert("mapLookupStr"@, SchemeV { vars: seq![3241], preds: Seq::empty(), ty: fun_v(list_v(con_v("Char"@)), fun_v(con_v("Int"@), TyV::Var(3241))) })
        .insert("mapMemberStr"@, SchemeV { vars: Seq::empty(), preds: Seq::empty(), ty: fun_v(list_v(con_v("Char"@)), fun_v(con_v("Int"@), con_v("Bool"@))) })
        .insert("mapFindWithDefaultStr"@, SchemeV { vars: seq![3242], preds: Seq::empty(), ty: fun_v(TyV::Var(3242), fun_v(list_v(con_v("Char"@)), fun_v(con_v("Int"@), TyV::Var(3242)))) })
        .insert("nub"@, SchemeV { vars: seq![3400], preds: Seq::empty(), ty: fun_v(list_v(TyV::Var(3400)), list_v(TyV::Var(3400))) })
        .insert("zip3"@, SchemeV { vars: seq![3401, 3402, 3403], preds: Seq::empty(), ty: fun_v(list_v(TyV::Var(3401)), fun_v(list_v(TyV::Var(3402)), fun_v(list_v(TyV::Var(3403)), list_v(TyV::Tuple(seq![TyV::Var(3401), TyV::Var(3402), TyV::Var(3403)]))))) })
        .insert("intersperse"@, SchemeV { vars: seq![3404], preds: Seq::empty(), ty: fun_v(TyV::Var(3404), fun_v(list_v(TyV::Var(3404)), list_v(TyV::Var(3404)))) })
        .insert("isPrefixOf"@, SchemeV { vars: seq![3405], preds: Seq::empty(), ty: fun_v(list_v(TyV::Var(3405)), fun_v(list_v(TyV::Var(3405)), con_v("Bool"@))) })
        .insert("isSuffixOf"@, SchemeV { vars: seq![3406], preds: Seq::empty(), ty: fun_v(list_v(TyV::Var(3406)), fun_v(list_v(TyV::Var(3406)), con_v("Bool"@))) })
        .insert("unzip3"@, SchemeV { vars: seq![3407, 3408, 3409], preds: Seq::empty(), ty: fun_v(list_v(TyV::Tuple(seq![TyV::Var(3407), TyV::Var(3408), TyV::Var(3409)])), TyV::Tuple(seq![list_v(TyV::Var(3407)), list_v(TyV::Var(3408)), list_v(TyV::Var(3409))])) })
        .insert("toEnum"@, SchemeV { vars: seq![3260], preds: seq![PredV { class: "Enum"@, ty: TyV::Var(3260), extra: Seq::empty() }], ty: fun_v(con_v("Int"@), TyV::Var(3260)) })
        .insert("fromEnum"@, SchemeV { vars: seq![3261], preds: seq![PredV { class: "Enum"@, ty: TyV::Var(3261), extra: Seq::empty() }], ty: fun_v(TyV::Var(3261), con_v("Int"@)) })
}

/// The schemes bound by part 13 of the built-in environment, later
/// bindings of a name replacing earlier ones.
pub open spec fn builtin_schemes_13() -> Map<Seq<char>, SchemeV> {
    Map::empty()
        .insert("succ"@, SchemeV { vars: seq![3262], preds: seq![PredV { class: "Enum"@, ty: TyV::Var(3262), extra: Seq::empty() }], ty: fun_v(TyV::Var(3262), TyV::Var(3262)) })
        .insert("pred"@, SchemeV { vars: seq![3263], preds: seq![PredV { class: "Enum"@, ty: TyV::Var(3263), extra: Seq::empty() }], ty: fun_v(TyV::Var(3263), TyV::Var(3263)) })
        .insert("enumFrom"@, SchemeV { vars: Seq::empty(), preds: Seq::empty(), ty: fun_v(con_v("Int"@), list_v(con_v("Int"@))) })
        .insert("enumFromThen"@, SchemeV { vars: Seq::empty(), preds: Seq::empty(), ty: fun_v(con_v("Int"@), fun_v(con_v("Int"@), list_v(con_v("Int"@)))) })
        .insert("enumFromTo"@, SchemeV { vars: Seq::empty(), preds: Seq::empty(), ty: fun_v(con_v("Int"@), fun_v(con_v("Int"@), list_v(con_v("Int"@)))) })
        .insert("enumFromThenTo"@, SchemeV { vars: Seq::empty(), preds: Seq::empty(), ty: fun_v(con_v("Int"@), fun_v(con_v("Int"@), fun_v(con_v("Int"@), list_v(con_v("Int"@))))) })
        .insert("minBound"@, SchemeV { vars: seq![3264], preds: seq![PredV { class: "Bounded"@, ty: TyV::Var(3264), extra: Seq::empty() }], ty: TyV::Var(3264) })
        .insert("maxBound"@, SchemeV { vars: seq![3265], preds: seq![PredV { class: "Bounded"@, ty: TyV::Var(3265), extra: Seq::empty() }], ty: TyV::Var(3265) })
        .insert("chr"@, SchemeV { vars: Seq::empty(), preds: Seq::empty(), ty: fun_v(con_v("Int"@), con_v("Char"@)) })
        .insert("ord"@, SchemeV { vars: Seq::empty(), preds: Seq::empty(), ty: fun_v(con_v("Char"@), con_v("Int"@)) })
        .insert("isDigit"@, SchemeV { vars: Seq::empty(), preds: Seq::empty(), ty: fun_v(con_v("Char"@), con_v("Bool"@)) })
        .insert("isAlpha"@, SchemeV { vars: Seq::empty(), preds: Seq::empty(), ty: fun_v(con_v("Char"@), con_v("Bool"@)) })
        .insert("isAlphaNum"@, SchemeV { vars: Seq::empty(), preds: Seq::empty(), ty: fun_v(con_v("Char"@), con_v("Bool"@)) })
        .insert("isUpper"@, SchemeV { vars: Seq::empty(), preds: Seq::empty(), ty: fun_v(con_v("Char"@), con_v("Bool"@)) })
        .insert("isLower"@, SchemeV { vars: Seq::empty(), preds: Seq::empty(), ty: fun_v(con_v("Char"@), con_v("Bool"@)) })
        .insert("isSpace"@, SchemeV { vars: Seq::empty(), preds: Seq::empty(), ty: fun_v(con_v("Char"@), con_v("Bool"@)) })
        .insert("toLower"@, SchemeV { vars: Seq::empty(), preds: Seq::empty(), ty: fun_v(con_v("Char"@), con_v("Char"@)) })
        .insert("toUpper"@, SchemeV { vars: Seq::empty(), preds: Seq::empty(), ty: fun_v(con_v("Char"@), con_v("Char"@)) })
        .insert("digitToInt"@, SchemeV { vars: Seq::empty(), preds: Seq::empty(), ty: fun_v(con_v("Char"@), con_v("Int"@)) })
        .insert("intToDigit"@, SchemeV { vars: Seq::empty(), preds: Seq::empty(), ty: fun_v(con_v("Int"@), con_v("Char"@)) })
}

/// The schemes bound by part 14 of the built-in environment, later
/// bindings of a name replacing earlier ones.
pub open spec fn builtin_schemes_14() -> Map<Seq<char>, SchemeV> {
    Map::empty()
        .insert("sin"@, SchemeV { vars: Seq::empty(), preds: Seq::empty(), ty: fun_v(con_v("Double"@), con_v("Double"@)) })
        .insert("cos"@, SchemeV { vars: Seq::empty(), preds: Seq::empty(), ty: fun_v(con_v("Double"@), con_v("Double"@)) })
        .insert("tan"@, SchemeV { vars: Seq::empty(), preds: Seq::empty(), ty: fun_v(con_v("Double"@), con_v("Double"@)) })
        .insert("asin"@, SchemeV { vars: Seq::empty(), preds: Seq::empty(), ty: fun_v(con_v("Double"@), con_v("Double"@)) })
        .insert("acos"@, SchemeV { vars: Seq::empty(), preds: Seq::empty(), ty: fun_v(con_v("Double"@), con_v("Double"@)) })
        .insert("atan"@, SchemeV { vars: Seq::empty(), preds: Seq::empty(), ty: fun_v(con_v("Double"@), con_v("Double"@)) })
        .insert("exp"@, SchemeV { vars: Seq::empty(), preds: Seq::empty(), ty: fun_v(con_v("Double"@), con_v("Double"@)) })
        .insert("log"@, SchemeV { vars: Seq::empty(), preds: Seq::empty(), ty: fun_v(con_v("Double"@), con_v("Double"@)) })
        .insert("sqrt"@, SchemeV { vars: Seq::empty(), preds: Seq::empty(), ty: fun_v(con_v("Double"@), con_v("Double"@)) })
        .insert("fmap"@, SchemeV { vars: seq![9004, 9040, 9041], preds: Seq::empty(), ty: TyV::Fun(Box::new(TyV::Fun(Box::new(TyV::Var(9040)), Box::new(TyV::Var(9041)), MultChirho::ManyChirho)), Box::new(TyV::Fun(Box::new(app_v(TyV::Var(9004), TyV::Var(9040))), Box::new(app_v(TyV::Var(9004), TyV::Var(9041))), MultChirho::ManyChirho)), MultChirho::ManyChirho) })
        .insert("foldMap"@, SchemeV { vars: seq![9080, 9081, 9082], preds: Seq::empty(), ty: TyV::Fun(Box::new(TyV::Fun(Box::new(TyV::Var(9081)), Box::new(TyV::Var(9082)), MultChirho::ManyChirho)), Box::new(TyV::Fun(Box::new(app_v(TyV::Var(9080), TyV::Var(9081))), Box::new(TyV::Var(9082)), MultChirho::ManyChirho)), MultChirho::ManyChirho) })
        .insert("traverse"@, SchemeV { vars: seq![9083, 9084, 9085, 9086], preds: Seq::empty(), ty: TyV::Fun(Box::new(TyV::Fun(Box::new(TyV::Var(9084)), Box::new(app_v(TyV::Var(9086), TyV::Var(9085))), MultChirho::ManyChirho)), Box::new(TyV::Fun(Box::new(app_v(TyV::Var(9083), TyV::Var(9084))), Box::new(app_v(TyV::Var(9086), app_v(TyV::Var(9083), TyV::Var(9085)))), MultChirho::ManyChirho)), MultChirho::ManyChirho) })
        .insert("MaybeT"@, SchemeV { vars: seq![3500], preds: Seq::empty(), ty: fun_v(app_v(con_v("Maybe"@), TyV::Var(3500)), app_v(con_v("MaybeT"@), TyV::Var(3500))) })
        .insert("runMaybeT"@, SchemeV { vars: seq![3500], preds: Seq::empty(), ty: fun_v(app_v(con_v("MaybeT"@), TyV::Var(3500)), app_v(con_v("Maybe"@), TyV::Var(3500))) })
        .insert("StateT"@, SchemeV { vars: seq![3501, 3502], preds: Seq::empty(), ty: fun_v(fun_v(TyV::Var(3501), TyV::Tuple(seq![TyV::Var(3502), TyV::Var(3501)])), app_v(app_v(con_v("StateT"@), TyV::Var(3501)), TyV::Var(3502))) })
        .insert("runStateT"@, SchemeV { vars: seq![3501, 3502], preds: Seq::empty(), ty: fun_v(app_v(app_v(con_v("StateT"@), TyV::Var(3501)), TyV::Var(3502)), fun_v(TyV::Var(3501), TyV::Tuple(seq![TyV::Var(3502), TyV::Var(3501)]))) })
        .insert("lift"@, SchemeV { vars: seq![3503, 3504, 3505], preds: Seq::empty(), ty: fun_v(app_v(TyV::Var(3503), TyV::Var(3505)), app_v(app_v(TyV::Var(3504), TyV::Var(3503)), TyV::Var(3505))) })
        .insert("get"@, SchemeV { vars: seq![3510], preds: Seq::empty(), ty: app_v(app_v(con_v("StateT"@), TyV::Var(3510)), TyV::Var(3510)) })
        .insert("put"@, SchemeV { vars: seq![3511], preds: Seq::empty(), ty: fun_v(TyV::Var(3511), app_v(app_v(con_v("StateT"@), TyV::Var(3511)), TyV::Tuple(Seq::empty()))) })
        .insert("modify"@, SchemeV { vars: seq![3512], preds: Seq::empty(), ty: fun_v(fun_v(TyV::Var(3512), TyV::Var(3512)), app_v(app_v(con_v("StateT"@), TyV::Var(3512)), TyV::Tuple(Seq::empty()))) })
}

/// The schemes bound by part 15 of the built-in environment, later
/// bindings of a name replacing earlier ones.
pub open spec fn builtin_schemes_15() -> Map<Seq<char>, SchemeV> {
    Map::empty()
        .insert("evalState"@, SchemeV { vars: seq![3513, 3514], preds: Seq::empty(), ty: fun_v(app_v(app_v(con_v("StateT"@), TyV::Var(3513)), TyV::Var(3514)), fun_v(TyV::Var(3513), TyV::Var(3514))) })
        .insert("execState"@, SchemeV { vars: seq![3515, 3516], preds: Seq::empty(), ty: fun_v(app_v(app_v(con_v("StateT"@), TyV::Var(3515)), TyV::Var(3516)), fun_v(TyV::Var(3515), TyV::Var(3515))) })
        .insert("bindStateT"@, SchemeV { vars: seq![3517, 3518, 3519], preds: Seq::empty(), ty: fun_v(app_v(app_v(con_v("StateT"@), TyV::Var(3517)), TyV::Var(3518)), fun_v(fun_v(TyV::Var(3518), app_v(app_v(con_v("StateT"@), TyV::Var(3517)), TyV::Var(3519))), app_v(app_v(con_v("StateT"@), TyV::Var(3517)), TyV::Var(3519)))) })
        .insert("returnStateT"@, SchemeV { vars: seq![3520, 3521], preds: Seq::empty(), ty: fun_v(TyV::Var(3521), app_v(app_v(con_v("StateT"@), TyV::Var(3520)), TyV::Var(3521))) })
        .insert("runState"@, SchemeV { vars: seq![3522, 3523], preds: Seq::empty(), ty: fun_v(app_v(app_v(con_v("StateT"@), TyV::Var(3522)), TyV::Var(3523)), fun_v(TyV::Var(3522), TyV::Tuple(seq![TyV::Var(3523), TyV::Var(3522)]))) })
        .insert("ReaderT"@, SchemeV { vars: seq![3530, 3531], preds: Seq::empty(), ty: fun_v(fun_v(TyV::Var(3530), TyV::Var(3531)), app_v(app_v(con_v("ReaderT"@), TyV::Var(3530)), TyV::Var(3531))) })
        .insert("runReaderT"@, SchemeV { vars: seq![3530, 3531], preds: Seq::empty(), ty: fun_v(app_v(app_v(con_v("ReaderT"@), TyV::Var(3530)), TyV::Var(3531)), fun_v(TyV::Var(3530), TyV::Var(3531))) })
        .insert("ask"@, SchemeV { vars: seq![3532], preds: Seq::empty(), ty: app_v(app_v(con_v("ReaderT"@), TyV::Var(3532)), TyV::Var(3532)) })
        .insert("local"@, SchemeV { vars: seq![3533, 3534], preds: Seq::empty(), ty: fun_v(fun_v(TyV::Var(3533), TyV::Var(3533)), fun_v(app_v(app_v(con_v("ReaderT"@), TyV::Var(3533)), TyV::Var(3534)), app_v(app_v(con_v("ReaderT"@), TyV::Var(3533)), TyV::Var(3534)))) })
        .insert("bindReaderT"@, SchemeV { vars: seq![3535, 3536, 3537], preds: Seq::empty(), ty: fun_v(app_v(app_v(con_v("ReaderT"@), TyV::Var(3535)), TyV::Var(3536)), fun_v(fun_v(TyV::Var(3536), app_v(app_v(con_v("ReaderT"@), TyV::Var(3535)), TyV::Var(3537))), app_v(app_v(con_v("ReaderT"@), TyV::Var(3535)), TyV::Var(3537)))) })
        .insert("returnReaderT"@, SchemeV { vars: seq![3538, 3539], preds: Seq::empty(), ty: fun_v(TyV::Var(3539), app_v(app_v(con_v("ReaderT"@), TyV::Var(3538)), TyV::Var(3539))) })
        .insert("runReader"@, SchemeV { vars: seq![3540, 3541], preds: Seq::empty(), ty: fun_v(app_v(app_v(con_v("ReaderT"@), TyV::Var(3540)), TyV::Var(3541)), fun_v(TyV::Var(3540), TyV::Var(3541))) })
        .insert("ExceptT"@, SchemeV { vars: seq![3550, 3551], preds: Seq::empty(), ty: fun_v(app_v(app_v(con_v("Either"@), TyV::Var(3550)), TyV::Var(3551)), app_v(app_v(con_v("ExceptT"@), TyV::Var(3550)), TyV::Var(3551))) })
        .insert("runExceptT"@, SchemeV { vars: seq![3550, 3551], preds: Seq::empty(), ty: fun_v(app_v(app_v(con_v("ExceptT"@), TyV::Var(3550)), TyV::Var(3551)), app_v(app_v(con_v("Either"@), TyV::Var(3550)), TyV::Var(3551))) })
        .insert("throwE"@, SchemeV { vars: seq![3552, 3553], preds: Seq::empty(), ty: fun_v(TyV::Var(3552), app_v(app_v(con_v("ExceptT"@), TyV::Var(3552)), TyV::Var(3553))) })
        .insert("returnExceptT"@, SchemeV { vars: seq![3554, 3555], preds: Seq::empty(), ty: fun_v(TyV::Var(3555), app_v(app_v(con_v("ExceptT"@), TyV::Var(3554)), TyV::Var(3555))) })
        .insert("bindExceptT"@, SchemeV { vars: seq![3556, 3557, 3558], preds: Seq::empty(), ty: fun_v(app_v(app_v(con_v("ExceptT"@), TyV::Var(3556)), TyV::Var(3557)), fun_v(fun_v(TyV::Var(3557), app_v(app_v(con_v("ExceptT"@), TyV::Var(3556)), TyV::Var(3558))), app_v(app_v(con_v("ExceptT"@), TyV::Var(3556)), TyV::Var(3558)))) })
        .insert("catchE"@, SchemeV { vars: seq![3559, 3560], preds: Seq::empty(), ty: fun_v(app_v(app_v(con_v("ExceptT"@), TyV::Var(3559)), TyV::Var(3560)), fun_v(fun_v(TyV::Var(3559), app_v(app_v(con_v("ExceptT"@), TyV::Var(3559)), TyV::Var(3560))), app_v(app_v(con_v("ExceptT"@), TyV::Var(3559)), TyV::Var(3560)))) })
        .insert("returnMaybeT"@, SchemeV { vars: seq![3570], preds: Seq::empty(), ty: fun_v(TyV::Var(3570), app_v(con_v("MaybeT"@), TyV::Var(3570))) })
        .insert("bindMaybeT"@, SchemeV { vars: seq![3571, 3572], preds: Seq::empty(), ty: fun_v(app_v(con_v("MaybeT"@), TyV::Var(3571)), fun_v(fun_v(TyV::Var(3571), app_v(con_v("MaybeT"@), TyV::Var(3572))), app_v(con_v("MaybeT"@), TyV::Var(3572)))) })
}

/// The schemes bound by part 16 of the built-in environment, later
/// bindings of a name replacing earlier ones.
pub open spec fn builtin_schemes_16() -> Map<Seq<char>, SchemeV> {
    Map::empty()
        .insert("WriterT"@, SchemeV { vars: seq![3580, 3581], preds: Seq::empty(), ty: fun_v(TyV::Tuple(seq![TyV::Var(3581), TyV::Var(3580)]), app_v(app_v(con_v("WriterT"@), TyV::Var(3580)), TyV::Var(3581))) })
        .insert("runWriterT"@, SchemeV { vars: seq![3582, 3583], preds: Seq::empty(), ty: fun_v(app_v(app_v(con_v("WriterT"@), TyV::Var(3582)), TyV::Var(3583)), TyV::Tuple(seq![TyV::Var(3583), TyV::Var(3582)])) })
        .insert("runWriter"@, SchemeV { vars: seq![3584, 3585], preds: Seq::empty(), ty: fun_v(app_v(app_v(con_v("WriterT"@), TyV::Var(3584)), TyV::Var(3585)), TyV::Tuple(seq![TyV::Var(3585), TyV::Var(3584)])) })
        .insert("tell"@, SchemeV { vars: seq![3586], preds: Seq::empty(), ty: fun_v(TyV::Var(3586), app_v(app_v(con_v("WriterT"@), TyV::Var(3586)), TyV::Tuple(Seq::empty()))) })
        .insert("returnWriterT"@, SchemeV { vars: seq![3587, 3588], preds: Seq::empty(), ty: fun_v(TyV::Var(3588), app_v(app_v(con_v("WriterT"@), TyV::Var(3587)), TyV::Var(3588))) })
        .insert("bindWriterT"@, SchemeV { vars: seq![3589, 3590, 3591], preds: Seq::empty(), ty: fun_v(app_v(app_v(con_v("WriterT"@), TyV::Var(3589)), TyV::Var(3590)), fun_v(fun_v(TyV::Var(3590), app_v(app_v(con_v("WriterT"@), TyV::Var(3589)), TyV::Var(3591))), app_v(app_v(con_v("WriterT"@), TyV::Var(3589)), TyV::Var(3591)))) })
        .insert("execWriterT"@, SchemeV { vars: seq![3592, 3593], preds: Seq::empty(), ty: fun_v(app_v(app_v(con_v("WriterT"@), TyV::Var(3592)), TyV::Var(3593)), TyV::Var(3592)) })
        .insert("execWriter"@, SchemeV { vars: seq![3594, 3595], preds: Seq::empty(), ty: fun_v(app_v(app_v(con_v("WriterT"@), TyV::Var(3594)), TyV::Var(3595)), TyV::Var(3594)) })
        .insert("repeat"@, SchemeV { vars: seq![4100], preds: Seq::empty(), ty: fun_v(TyV::Var(4100), list_v(TyV::Var(4100))) })
        .insert("cycle"@, SchemeV { vars: seq![4101], preds: Seq::empty(), ty: fun_v(list_v(TyV::Var(4101)), list_v(TyV::Var(4101))) })
        .insert("fix"@, SchemeV { vars: seq![4102], preds: Seq::empty(), ty: fun_v(fun_v(TyV::Var(4102), TyV::Var(4102)), TyV::Var(4102)) })
        .insert("group"@, SchemeV { vars: Seq::empty(), preds: Seq::empty(), ty: fun_v(list_v(con_v("Int"@)), list_v(list_v(con_v("Int"@)))) })
        .insert("zipWith3"@, SchemeV { vars: seq![4110, 4111, 4112, 4113], preds: Seq::empty(), ty: fun_v(fun_v(TyV::Var(4110), fun_v(TyV::Var(4111), fun_v(TyV::Var(4112), TyV::Var(4113)))), fun_v(list_v(TyV::Var(4110)), fun_v(list_v(TyV::Var(4111)), fun_v(list_v(TyV::Var(4112)), list_v(TyV::Var(4113)))))) })
        .insert("first"@, SchemeV { vars: seq![4120, 4121, 4122], preds: Seq::empty(), ty: fun_v(fun_v(TyV::Var(4120), TyV::Var(4121)), fun_v(TyV::Tuple(seq![TyV::Var(4120), TyV::Var(4122)]), TyV::Tuple(seq![TyV::Var(4121), TyV::Var(4122)]))) })
        .insert("second"@, SchemeV { vars: seq![4123, 4124, 4125], preds: Seq::empty(), ty: fun_v(fun_v(TyV::Var(4124), TyV::Var(4125)), fun_v(TyV::Tuple(seq![TyV::Var(4123), TyV::Var(4124)]), TyV::Tuple(seq![TyV::Var(4123), TyV::Var(4125)]))) })
        .insert("catch"@, SchemeV { vars: seq![4130], preds: Seq::empty(), ty: fun_v(app_v(con_v("IO"@), TyV::Var(4130)), fun_v(fun_v(list_v(con_v("Char"@)), app_v(con_v("IO"@), TyV::Var(4130))), app_v(con_v("IO"@), TyV::Var(4130)))) })
        .insert("throw"@, SchemeV { vars: seq![4131], preds: Seq::empty(), ty: fun_v(list_v(con_v("Char"@)), TyV::Var(4131)) })
        .insert("try"@, SchemeV { vars: seq![4132], preds: Seq::empty(), ty: fun_v(app_v(con_v("IO"@), TyV::Var(4132)), app_v(con_v("IO"@), app_v(app_v(con_v("Either"@), list_v(con_v("Char"@))), TyV::Var(4132)))) })
        .insert("throwIO"@, SchemeV { vars: seq![4160], preds: Seq::empty(), ty: fun_v(list_v(con_v("Char"@)), app_v(con_v("IO"@), TyV::Var(4160))) })
        .insert("bracket"@, SchemeV { vars: seq![4161, 4162, 4163], preds: Seq::empty(), ty: fun_v(app_v(con_v("IO"@), TyV::Var(4161)), fun_v(fun_v(TyV::Var(4161), app_v(con_v("IO"@), TyV::Var(4162))), fun_v(fun_v(TyV::Var(4161), app_v(con_v("IO"@), TyV::Var(4163))), app_v(con_v("IO"@), TyV::Var(4163))))) })
}

/// The schemes bound by part 17 of the built-in environment, later
/// bindings of a name replacing earlier ones.
pub open spec fn builtin_schemes_17() -> Map<Seq<char>, SchemeV> {
    Map::empty()
        .insert("finally"@, SchemeV { vars: seq![4164, 4165], preds: Seq::empty(), ty: fun_v(app_v(con_v("IO"@), TyV::Var(4164)), fun_v(app_v(con_v("IO"@), TyV::Var(4165)), app_v(con_v("IO"@), TyV::Var(4164)))) })
        .insert("both"@, SchemeV { vars: seq![4126, 4127], preds: Seq::empty(), ty: fun_v(fun_v(TyV::Var(4126), TyV::Var(4127)), fun_v(TyV::Tuple(seq![TyV::Var(4126), TyV::Var(4126)]), TyV::Tuple(seq![TyV::Var(4127), TyV::Var(4127)]))) })
        .insert("tails"@, SchemeV { vars: seq![4130], preds: Seq::empty(), ty: fun_v(list_v(TyV::Var(4130)), list_v(list_v(TyV::Var(4130)))) })
        .insert("inits"@, SchemeV { vars: seq![4131], preds: Seq::empty(), ty: fun_v(list_v(TyV::Var(4131)), list_v(list_v(TyV::Var(4131)))) })
        .insert("coerce"@, SchemeV { vars: seq![7100, 7101], preds: Seq::empty(), ty: fun_v(TyV::Var(7100), TyV::Var(7101)) })
        .insert("unsafeCoerce"@, SchemeV { vars: seq![7110, 7111], preds: Seq::empty(), ty: fun_v(TyV::Var(7110), TyV::Var(7111)) })
        .insert("unsafeCoerce#"@, SchemeV { vars: seq![7110, 7111], preds: Seq::empty(), ty: fun_v(TyV::Var(7110), TyV::Var(7111)) })
        .insert("cast"@, SchemeV { vars: seq![7120, 7121], preds: Seq::empty(), ty: fun_v(TyV::Var(7120), app_v(con_v("Maybe"@), TyV::Var(7121))) })
        .insert("eqT"@, SchemeV { vars: seq![7130], preds: Seq::empty(), ty: app_v(con_v("Maybe"@), TyV::Var(7130)) })
        .insert("typeOf"@, SchemeV { vars: seq![7140], preds: Seq::empty(), ty: fun_v(TyV::Var(7140), con_v("TypeRep"@)) })
        .insert("typeRep"@, SchemeV { vars: seq![7150], preds: Seq::empty(), ty: fun_v(app_v(con_v("Proxy"@), TyV::Var(7150)), con_v("TypeRep"@)) })
        .insert("Proxy"@, SchemeV { vars: seq![7160], preds: Seq::empty(), ty: app_v(con_v("Proxy"@), TyV::Var(7160)) })
        .insert("oneShot"@, SchemeV { vars: seq![7170, 7171], preds: Seq::empty(), ty: fun_v(fun_v(TyV::Var(7170), TyV::Var(7171)), fun_v(TyV::Var(7170), TyV::Var(7171))) })
        .insert("comparing"@, SchemeV { vars: seq![7180, 7181], preds: seq![PredV { class: "Ord"@, ty: TyV::Var(7181), extra: Seq::empty() }], ty: fun_v(fun_v(TyV::Var(7180), TyV::Var(7181)), fun_v(TyV::Var(7180), fun_v(TyV::Var(7180), con_v("Ordering"@)))) })
        .insert("liftIO"@, SchemeV { vars: seq![7190, 7191], preds: Seq::empty(), ty: fun_v(app_v(con_v("IO"@), TyV::Var(7191)), app_v(TyV::Var(7190), TyV::Var(7191))) })
        .insert("on"@, SchemeV { vars: seq![7200, 7201, 7202], preds: Seq::empty(), ty: fun_v(fun_v(TyV::Var(7201), fun_v(TyV::Var(7201), TyV::Var(7202))), fun_v(fun_v(TyV::Var(7200), TyV::Var(7201)), fun_v(TyV::Var(7200), fun_v(TyV::Var(7200), TyV::Var(7202))))) })
        .insert("fix"@, SchemeV { vars: seq![7210], preds: Seq::empty(), ty: fun_v(fun_v(TyV::Var(7210), TyV::Var(7210)), TyV::Var(7210)) })
        .insert("void"@, SchemeV { vars: seq![7220, 7221], preds: seq![PredV { class: "Functor"@, ty: TyV::Var(7220), extra: Seq::empty() }], ty: fun_v(app_v(TyV::Var(7220), TyV::Var(7221)), app_v(TyV::Var(7220), TyV::Tuple(Seq::empty()))) })
        .insert("when"@, SchemeV { vars: seq![7230], preds: Seq::empty(), ty: fun_v(con_v("Bool"@), fun_v(app_v(TyV::Var(7230), TyV::Tuple(Seq::empty())), app_v(TyV::Var(7230), TyV::Tuple(Seq::empty())))) })
        .insert("unless"@, SchemeV { vars: seq![7240], preds: Seq::empty(), ty: fun_v(con_v("Bool"@), fun_v(app_v(TyV::Var(7240), TyV::Tuple(Seq::empty())), app_v(TyV::Var(7240), TyV::Tuple(Seq::empty())))) })
}

/// The schemes bound by part 18 of the built-in environment, later
/// bindings of a name replacing earlier ones.
pub open spec fn builtin_schemes_18() -> Map<Seq<char>, SchemeV> {
    Map::empty()
        .insert("join"@, SchemeV { vars: seq![7250, 7251], preds: seq![PredV { class: "Monad"@, ty: TyV::Var(7250), extra: Seq::empty() }], ty: fun_v(app_v(TyV::Var(7250), app_v(TyV::Var(7250), TyV::Var(7251))), app_v(TyV::Var(7250), TyV::Var(7251))) })
        .insert("guard"@, SchemeV { vars: seq![7260], preds: Seq::empty(), ty: fun_v(con_v("Bool"@), app_v(TyV::Var(7260), TyV::Tuple(Seq::empty()))) })
        .insert("forever"@, SchemeV { vars: seq![7270, 7271, 7272], preds: Seq::empty(), ty: fun_v(app_v(TyV::Var(7270), TyV::Var(7271)), app_v(TyV::Var(7270), TyV::Var(7272))) })
        .insert("&"@, SchemeV { vars: seq![7280, 7281], preds: Seq::empty(), ty: fun_v(TyV::Var(7280), fun_v(fun_v(TyV::Var(7280), TyV::Var(7281)), TyV::Var(7281))) })
        .insert("<>"@, SchemeV { vars: seq![7290], preds: seq![PredV { class: "Semigroup"@, ty: TyV::Var(7290), extra: Seq::empty() }], ty: fun_v(TyV::Var(7290), fun_v(TyV::Var(7290), TyV::Var(7290))) })
        .insert("mappend"@, SchemeV { vars: seq![7300], preds: seq![PredV { class: "Monoid"@, ty: TyV::Var(7300), extra: Seq::empty() }], ty: fun_v(TyV::Var(7300), fun_v(TyV::Var(7300), TyV::Var(7300))) })
        .insert("mempty"@, SchemeV { vars: seq![7310], preds: seq![PredV { class: "Monoid"@, ty: TyV::Var(7310), extra: Seq::empty() }], ty: TyV::Var(7310) })
        .insert("mconcat"@, SchemeV { vars: seq![7320], preds: seq![PredV { class: "Monoid"@, ty: TyV::Var(7320), extra: Seq::empty() }], ty: fun_v(list_v(TyV::Var(7320)), TyV::Var(7320)) })
        .insert("Dual"@, SchemeV { vars: seq![7330], preds: Seq::empty(), ty: fun_v(TyV::Var(7330), app_v(con_v("Dual"@), TyV::Var(7330))) })
        .insert("getDual"@, SchemeV { vars: seq![7330], preds: Seq::empty(), ty: fun_v(app_v(con_v("Dual"@), TyV::Var(7330)), TyV::Var(7330)) })
        .insert("nub"@, SchemeV { vars: seq![7340], preds: seq![PredV { class: "Eq"@, ty: TyV::Var(7340), extra: Seq::empty() }], ty: fun_v(list_v(TyV::Var(7340)), list_v(TyV::Var(7340))) })
        .insert("group"@, SchemeV { vars: seq![7350], preds: seq![PredV { class: "Eq"@, ty: TyV::Var(7350), extra: Seq::empty() }], ty: fun_v(list_v(TyV::Var(7350)), list_v(list_v(TyV::Var(7350)))) })
        .insert("forM"@, SchemeV { vars: seq![7360, 7361, 7362], preds: seq![PredV { class: "Monad"@, ty: TyV::Var(7360), extra: Seq::empty() }], ty: fun_v(list_v(TyV::Var(7361)), fun_v(fun_v(TyV::Var(7361), app_v(TyV::Var(7360), TyV::Var(7362))), app_v(TyV::Var(7360), list_v(TyV::Var(7362))))) })
        .insert("forM_"@, SchemeV { vars: seq![7370, 7371, 7372], preds: seq![PredV { class: "Monad"@, ty: TyV::Var(7370), extra: Seq::empty() }], ty: fun_v(list_v(TyV::Var(7371)), fun_v(fun_v(TyV::Var(7371), app_v(TyV::Var(7370), TyV::Var(7372))), app_v(TyV::Var(7370), TyV::Tuple(Seq::empty())))) })
        .insert("Refl"@, SchemeV { vars: seq![7380], preds: Seq::empty(), ty: app_v(app_v(con_v(":~:"@), TyV::Var(7380)), TyV::Var(7380)) })
        .insert("realToFrac"@, SchemeV { vars: seq![7390, 7391], preds: seq![PredV { class: "Real"@, ty: TyV::Var(7390), extra: Seq::empty() }, PredV { class: "Fractional"@, ty: TyV::Var(7391), extra: Seq::empty() }], ty: TyV::Fun(Box::new(TyV::Var(7390)), Box::new(TyV::Var(7391)), MultChirho::ManyChirho) })
        .insert("fromIntegral"@, SchemeV { vars: seq![7392, 7393], preds: seq![PredV { class: "Integral"@, ty: TyV::Var(7392), extra: Seq::empty() }, PredV { class: "Num"@, ty: TyV::Var(7393), extra: Seq::empty() }], ty: TyV::Fun(Box::new(TyV::Var(7392)), Box::new(TyV::Var(7393)), MultChirho::ManyChirho) })
        .insert("toInteger"@, SchemeV { vars: seq![7394], preds: seq![PredV { class: "Integral"@, ty: TyV::Var(7394), extra: Seq::empty() }], ty: TyV::Fun(Box::new(TyV::Var(7394)), Box::new(con_v("Integer"@)), MultChirho::ManyChirho) })
        .insert("toRational"@, SchemeV { vars: seq![7395], preds: seq![PredV { class: "Real"@, ty: TyV::Var(7395), extra: Seq::empty() }], ty: TyV::Fun(Box::new(TyV::Var(7395)), Box::new(con_v("Rational"@)), MultChirho::ManyChirho) })
        .insert("errorWithoutStackTrace"@, SchemeV { vars: seq![7410], preds: Seq::empty(), ty: TyV::Fun(Box::new(list_v(con_v("Char"@))), Box::new(TyV::Var(7410)), MultChirho::ManyChirho) })
}

/// The schemes bound by part 19 of the built-in environment, later
/// bindings of a name replacing earlier ones.
pub open spec fn builtin_schemes_19() -> Map<Seq<char>, SchemeV> {
    Map::empty()
        .insert("div"@, SchemeV { vars: seq![7411], preds: seq![PredV { class: "Integral"@, ty: TyV::Var(7411), extra: Seq::empty() }], ty: TyV::Fun(Box::new(TyV::Var(7411)), Box::new(TyV::Fun(Box::new(TyV::Var(7411)), Box::new(TyV::Var(7411)), MultChirho::ManyChirho)), MultChirho::ManyChirho) })
        .insert("mod"@, SchemeV { vars: seq![7411], preds: seq![PredV { class: "Integral"@, ty: TyV::Var(7411), extra: Seq::empty() }], ty: TyV::Fun(Box::new(TyV::Var(7411)), Box::new(TyV::Fun(Box::new(TyV::Var(7411)), Box::new(TyV::Var(7411)), MultChirho::ManyChirho)), MultChirho::ManyChirho) })
        .insert("quot"@, SchemeV { vars: seq![7411], preds: seq![PredV { class: "Integral"@, ty: TyV::Var(7411), extra: Seq::empty() }], ty: TyV::Fun(Box::new(TyV::Var(7411)), Box::new(TyV::Fun(Box::new(TyV::Var(7411)), Box::new(TyV::Var(7411)), MultChirho::ManyChirho)), MultChirho::ManyChirho) })
        .insert("rem"@, SchemeV { vars: seq![7411], preds: seq![PredV { class: "Integral"@, ty: TyV::Var(7411), extra: Seq::empty() }], ty: TyV::Fun(Box::new(TyV::Var(7411)), Box::new(TyV::Fun(Box::new(TyV::Var(7411)), Box::new(TyV::Var(7411)), MultChirho::ManyChirho)), MultChirho::ManyChirho) })
        .insert("divMod"@, SchemeV { vars: seq![7412], preds: seq![PredV { class: "Integral"@, ty: TyV::Var(7412), extra: Seq::empty() }], ty: TyV::Fun(Box::new(TyV::Var(7412)), Box::new(TyV::Fun(Box::new(TyV::Var(7412)), Box::new(TyV::Tuple(seq![TyV::Var(7412), TyV::Var(7412)])), MultChirho::ManyChirho)), MultChirho::ManyChirho) })
        .insert("quotRem"@, SchemeV { vars: seq![7412], preds: seq![PredV { class: "Integral"@, ty: TyV::Var(7412), extra: Seq::empty() }], ty: TyV::Fun(Box::new(TyV::Var(7412)), Box::new(TyV::Fun(Box::new(TyV::Var(7412)), Box::new(TyV::Tuple(seq![TyV::Var(7412), TyV::Var(7412)])), MultChirho::ManyChirho)), MultChirho::ManyChirho) })
        .insert("IORef"@, SchemeV { vars: seq![7413], preds: Seq::empty(), ty: app_v(con_v("IORef"@), TyV::Var(7413)) })
        .insert("STRef"@, SchemeV { vars: seq![7414, 7415], preds: Seq::empty(), ty: app_v(app_v(con_v("STRef"@), TyV::Var(7414)), TyV::Var(7415)) })
        .insert("splitAt"@, SchemeV { vars: seq![7500], preds: Seq::empty(), ty: fun_v(con_v("Int"@), fun_v(list_v(TyV::Var(7500)), TyV::Tuple(seq![list_v(TyV::Var(7500)), list_v(TyV::Var(7500))]))) })
        .insert("and"@, SchemeV { vars: Seq::empty(), preds: Seq::empty(), ty: fun_v(list_v(con_v("Bool"@)), con_v("Bool"@)) })
        .insert("or"@, SchemeV { vars: Seq::empty(), preds: Seq::empty(), ty: fun_v(list_v(con_v("Bool"@)), con_v("Bool"@)) })
        .insert("sortOn"@, SchemeV { vars: seq![7501, 7502], preds: seq![PredV { class: "Ord"@, ty: TyV::Var(7502), extra: Seq::empty() }], ty: fun_v(fun_v(TyV::Var(7501), TyV::Var(7502)), fun_v(list_v(TyV::Var(7501)), list_v(TyV::Var(7501)))) })
        .insert("isInfixOf"@, SchemeV { vars: seq![7503], preds: seq![PredV { class: "Eq"@, ty: TyV::Var(7503), extra: Seq::empty() }], ty: fun_v(list_v(TyV::Var(7503)), fun_v(list_v(TyV::Var(7503)), con_v("Bool"@))) })
        .insert("stripPrefix"@, SchemeV { vars: seq![7504], preds: seq![PredV { class: "Eq"@, ty: TyV::Var(7504), extra: Seq::empty() }], ty: fun_v(list_v(TyV::Var(7504)), fun_v(list_v(TyV::Var(7504)), app_v(con_v("Maybe"@), list_v(TyV::Var(7504))))) })
        .insert("findIndex"@, SchemeV { vars: seq![7505], preds: Seq::empty(), ty: fun_v(fun_v(TyV::Var(7505), con_v("Bool"@)), fun_v(list_v(TyV::Var(7505)), app_v(con_v("Maybe"@), con_v("Int"@)))) })
        .insert("elemIndex"@, SchemeV { vars: seq![7506], preds: seq![PredV { class: "Eq"@, ty: TyV::Var(7506), extra: Seq::empty() }], ty: fun_v(TyV::Var(7506), fun_v(list_v(TyV::Var(7506)), app_v(con_v("Maybe"@), con_v("Int"@)))) })
        .insert("scanl1"@, SchemeV { vars: seq![7507], preds: Seq::empty(), ty: fun_v(fun_v(TyV::Var(7507), fun_v(TyV::Var(7507), TyV::Var(7507))), fun_v(list_v(TyV::Var(7507)), list_v(TyV::Var(7507)))) })
        .insert("scanr"@, SchemeV { vars: seq![7508, 7509], preds: Seq::empty(), ty: fun_v(fun_v(TyV::Var(7508), fun_v(TyV::Var(7509), TyV::Var(7509))), fun_v(TyV::Var(7509), fun_v(list_v(TyV::Var(7508)), list_v(TyV::Var(7509))))) })
        .insert("scanr1"@, SchemeV { vars: seq![7510], preds: Seq::empty(), ty: fun_v(fun_v(TyV::Var(7510), fun_v(TyV::Var(7510), TyV::Var(7510))), fun_v(list_v(TyV::Var(7510)), list_v(TyV::Var(7510)))) })
        .insert("unfoldr"@, SchemeV { vars: seq![7511, 7512], preds: Seq::empty(), ty: fun_v(fun_v(TyV::Var(7512), app_v(con_v("Maybe"@), TyV::Tuple(seq![TyV::Var(7511), TyV::Var(7512)]))), fun_v(TyV::Var(7512), list_v(TyV::Var(7511)))) })
}

/// The schemes bound by part 20 of the built-in environment, later
/// bindings of a name replacing earlier ones.
pub open spec fn builtin_schemes_20() -> Map<Seq<char>, SchemeV> {
    Map::empty()
        .insert("transpose"@, SchemeV { vars: seq![7513], preds: Seq::empty(), ty: fun_v(list_v(list_v(TyV::Var(7513))), list_v(list_v(TyV::Var(7513)))) })
        .insert("stdin"@, SchemeV { vars: Seq::empty(), preds: Seq::empty(), ty: con_v("Handle"@) })
        .insert("stdout"@, SchemeV { vars: Seq::empty(), preds: Seq::empty(), ty: con_v("Handle"@) })
        .insert("stderr"@, SchemeV { vars: Seq::empty(), preds: Seq::empty(), ty: con_v("Handle"@) })
        .insert("hFlush"@, SchemeV { vars: Seq::empty(), preds: Seq::empty(), ty: fun_v(con_v("Handle"@), app_v(con_v("IO"@), TyV::Tuple(Seq::empty()))) })
        .insert("hSetBuffering"@, SchemeV { vars: Seq::empty(), preds: Seq::empty(), ty: fun_v(con_v("Handle"@), fun_v(con_v("BufferMode"@), app_v(con_v("IO"@), TyV::Tuple(Seq::empty())))) })
        .insert("hSetEncoding"@, SchemeV { vars: Seq::empty(), preds: Seq::empty(), ty: fun_v(con_v("Handle"@), fun_v(con_v("TextEncoding"@), app_v(con_v("IO"@), TyV::Tuple(Seq::empty())))) })
        .insert("hPutStr"@, SchemeV { vars: Seq::empty(), preds: Seq::empty(), ty: fun_v(con_v("Handle"@), fun_v(list_v(con_v("Char"@)), app_v(con_v("IO"@), TyV::Tuple(Seq::empty())))) })
        .insert("hPutStrLn"@, SchemeV { vars: Seq::empty(), preds: Seq::empty(), ty: fun_v(con_v("Handle"@), fun_v(list_v(con_v("Char"@)), app_v(con_v("IO"@), TyV::Tuple(Seq::empty())))) })
        .insert("hClose"@, SchemeV { vars: Seq::empty(), preds: Seq::empty(), ty: fun_v(con_v("Handle"@), app_v(con_v("IO"@), TyV::Tuple(Seq::empty()))) })
        .insert("hGetContents"@, SchemeV { vars: Seq::empty(), preds: Seq::empty(), ty: fun_v(con_v("Handle"@), app_v(con_v("IO"@), list_v(con_v("Char"@)))) })
        .insert("openFile"@, SchemeV { vars: Seq::empty(), preds: Seq::empty(), ty: fun_v(list_v(con_v("Char"@)), fun_v(con_v("IOMode"@), app_v(con_v("IO"@), con_v("Handle"@)))) })
        .insert("readIORef"@, SchemeV { vars: seq![7520], preds: Seq::empty(), ty: fun_v(app_v(con_v("IORef"@), TyV::Var(7520)), app_v(con_v("IO"@), TyV::Var(7520))) })
        .insert("writeIORef"@, SchemeV { vars: seq![7521], preds: Seq::empty(), ty: fun_v(app_v(con_v("IORef"@), TyV::Var(7521)), fun_v(TyV::Var(7521), app_v(con_v("IO"@), TyV::Tuple(Seq::empty())))) })
        .insert("modifyIORef"@, SchemeV { vars: seq![7522], preds: Seq::empty(), ty: fun_v(app_v(con_v("IORef"@), TyV::Var(7522)), fun_v(fun_v(TyV::Var(7522), TyV::Var(7522)), app_v(con_v("IO"@), TyV::Tuple(Seq::empty())))) })
        .insert("newIORef"@, SchemeV { vars: seq![7523], preds: Seq::empty(), ty: fun_v(TyV::Var(7523), app_v(con_v("IO"@), app_v(con_v("IORef"@), TyV::Var(7523)))) })
        .insert("mapAccumL"@, SchemeV { vars: seq![7530, 7531, 7532], preds: Seq::empty(), ty: fun_v(fun_v(TyV::Var(7530), fun_v(TyV::Var(7531), TyV::Tuple(seq![TyV::Var(7530), TyV::Var(7532)]))), fun_v(TyV::Var(7530), fun_v(list_v(TyV::Var(7531)), TyV::Tuple(seq![TyV::Var(7530), list_v(TyV::Var(7532))])))) })
        .insert("mapAccumR"@, SchemeV { vars: seq![7533, 7534, 7535], preds: Seq::empty(), ty: fun_v(fun_v(TyV::Var(7533), fun_v(TyV::Var(7534), TyV::Tuple(seq![TyV::Var(7533), TyV::Var(7535)]))), fun_v(TyV::Var(7533), fun_v(list_v(TyV::Var(7534)), TyV::Tuple(seq![TyV::Var(7533), list_v(TyV::Var(7535))])))) })
}

/// The built-in environment: each name with its scheme.
pub open spec fn builtin_schemes() -> Map<Seq<char>, SchemeV> {
    builtin_schemes_1().union_prefer_right(builtin_schemes_2()).union_prefer_right(builtin_schemes_3()).union_prefer_right(builtin_schemes_4()).union_prefer_right(builtin_schemes_5()).union_prefer_right(builtin_schemes_6()).union_prefer_right(builtin_schemes_7()).union_prefer_right(builtin_schemes_8()).union_prefer_right(builtin_schemes_9()).union_prefer_right(builtin_schemes_10()).union_prefer_right(builtin_schemes_11()).union_prefer_right(builtin_schemes_12()).union_prefer_right(builtin_schemes_13()).union_prefer_right(builtin_schemes_14()).union_prefer_right(builtin_schemes_15()).union_prefer_right(builtin_schemes_16()).union_prefer_right(builtin_schemes_17()).union_prefer_right(builtin_schemes_18()).union_prefer_right(builtin_schemes_19()).union_prefer_right(builtin_schemes_20())
}

fn seed_builtins_part_1_chirho(env_chirho: &mut TyEnvChirho)
    ensures
        final(env_chirho).map() == old(env_chirho).map().union_prefer_right(builtin_schemes_1()),
{
    let ghost before = old(env_chirho).map();
    // True :: Bool, False :: Bool
    env_chirho.bind_chirho("True".to_string(), SchemeChirho::mono_chirho(TyChirho::bool_chirho()));
    env_chirho.bind_chirho("False".to_string(), SchemeChirho::mono_chirho(TyChirho::bool_chirho()));
    // not :: Bool -> Bool
    env_chirho.bind_chirho(
        "not".to_string(),
        SchemeChirho::mono_chirho(
            TyChirho::fun_chirho(TyChirho::bool_chirho(), TyChirho::bool_chirho()),
        ),
    );
    // (&&) :: Bool -> Bool -> Bool
    env_chirho.bind_chirho(
        "&&".to_string(),
        SchemeChirho::mono_chirho(
            TyChirho::fun_chirho(
                TyChirho::bool_chirho(),
                TyChirho::fun_chirho(TyChirho::bool_chirho(), TyChirho::bool_chirho()),
            ),
        ),
    );
    // (||) :: Bool -> Bool -> Bool
    env_chirho.bind_chirho(
        "||".to_string(),
        SchemeChirho::mono_chirho(
            TyChirho::fun_chirho(
                TyChirho::bool_chirho(),
                TyChirho::fun_chirho(TyChirho::bool_chirho(), TyChirho::bool_chirho()),
            ),
        ),
    );
    // (++) :: String -> String -> String  (simplified; full Haskell: [a] -> [a] -> [a])
    env_chirho.bind_chirho(
        "++".to_string(),
        SchemeChirho::mono_chirho(
            TyChirho::fun_chirho(
                TyChirho::string_chirho(),
                TyChirho::fun_chirho(TyChirho::string_chirho(), TyChirho::string_chirho()),
            ),
        ),
    );
    // Numeric operators: forall a. Num a => a -> a -> a
    let num_v_chirho = TyVarChirho(1100);
    let num_binop_chirho = SchemeChirho {
        vars_chirho: vec![num_v_chirho],
        preds_chirho: vec![
            SchemePredChirho {
                class_name_chirho: "Num".to_string(),
                ty_chirho: TyChirho::var_chirho(num_v_chirho),
            },
        ],
        ty_chirho: TyChirho::fun_chirho(
            TyChirho::var_chirho(num_v_chirho),
            TyChirho::fun_chirho(
                TyChirho::var_chirho(num_v_chirho),
                TyChirho::var_chirho(num_v_chirho),
            ),
        ),
    };
    env_chirho.bind_chirho("+".to_string(), num_binop_chirho.copy_chirho());
    env_chirho.bind_chirho("-".to_string(), num_binop_chirho.copy_chirho());
    env_chirho.bind_chirho("*".to_string(), num_binop_chirho);
    // Equality operators: forall a. Eq a => a -> a -> Bool
    let eq_v_chirho = TyVarChirho(1200);
    let eq_cmp_chirho = SchemeChirho {
        vars_chirho: vec![eq_v_chirho],
        preds_chirho: vec![
            SchemePredChirho {
                class_name_chirho: "Eq".to_string(),
                ty_chirho: TyChirho::var_chirho(eq_v_chirho),
            },
        ],
        ty_chirho: TyChirho::fun_chirho(
            TyChirho::var_chirho(eq_v_chirho),
            TyChirho::fun_chirho(TyChirho::var_chirho(eq_v_chirho), TyChirho::bool_chirho()),
        ),
    };
    env_chirho.bind_chirho("==".to_string(), eq_cmp_chirho.copy_chirho());
    env_chirho.bind_chirho("/=".to_string(), eq_cmp_chirho);
    // Ordering operators: forall a. Ord a => a -> a -> Bool
    let ord_v_chirho = TyVarChirho(1300);
    let ord_cmp_chirho = SchemeChirho {
        vars_chirho: vec![ord_v_chirho],
        preds_chirho: vec![
            SchemePredChirho {
                class_name_chirho: "Ord".to_string(),
                ty_chirho: TyChirho::var_chirho(ord_v_chirho),
            },
        ],
        ty_chirho: TyChirho::fun_chirho(
            TyChirho::var_chirho(ord_v_chirho),
            TyChirho::fun_chirho(TyChirho::var_chirho(ord_v_chirho), TyChirho::bool_chirho()),
        ),
    };
    env_chirho.bind_chirho(">".to_string(), ord_cmp_chirho.copy_chirho());
    env_chirho.bind_chirho("<".to_string(), ord_cmp_chirho.copy_chirho());
    env_chirho.bind_chirho(">=".to_string(), ord_cmp_chirho.copy_chirho());
    env_chirho.bind_chirho("<=".to_string(), ord_cmp_chirho);
    // compare :: forall a. Ord a => a -> a -> Ordering
    let cmp_v_chirho = TyVarChirho(1350);
    env_chirho.bind_chirho(
        "compare".to_string(),
        SchemeChirho {
            vars_chirho: vec![cmp_v_chirho],
            preds_chirho: vec![
                SchemePredChirho {
                    class_name_chirho: "Ord".to_string(),
                    ty_chirho: TyChirho::var_chirho(cmp_v_chirho),
                },
            ],
            ty_chirho: TyChirho::fun_chirho(
                TyChirho::var_chirho(cmp_v_chirho),
                TyChirho::fun_chirho(
                    TyChirho::var_chirho(cmp_v_chirho),
                    TyChirho::con_chirho("Ordering".to_string()),
                ),
            ),
        },
    );
    // min, max :: forall a. Ord a => a -> a -> a
    let minmax_v_chirho = TyVarChirho(1360);
    let minmax_scheme_chirho = SchemeChirho {
        vars_chirho: vec![minmax_v_chirho],
        preds_chirho: vec![
            SchemePredChirho {
                class_name_chirho: "Ord".to_string(),
                ty_chirho: TyChirho::var_chirho(minmax_v_chirho),
            },
        ],
        ty_chirho: TyChirho::fun_chirho(
            TyChirho::var_chirho(minmax_v_chirho),
            TyChirho::fun_chirho(
                TyChirho::var_chirho(minmax_v_chirho),
                TyChirho::var_chirho(minmax_v_chirho),
            ),
        ),
    };
    env_chirho.bind_chirho("min".to_string(), minmax_scheme_chirho.copy_chirho());
    env_chirho.bind_chirho("max".to_string(), minmax_scheme_chirho);
    // show :: forall a. Show a => a -> String
    let show_v_chirho = TyVarChirho(1400);
    env_chirho.bind_chirho(
        "show".to_string(),
        SchemeChirho {
            vars_chirho: vec![show_v_chirho],
            preds_chirho: vec![
                SchemePredChirho {
                    class_name_chirho: "Show".to_string(),
                    ty_chirho: TyChirho::var_chirho(show_v_chirho),
                },
            ],
            ty_chirho: TyChirho::fun_chirho(TyChirho::var_chirho(show_v_chirho), TyChirho::string_chirho()),
        },
    );
    // negate :: forall a. Num a => a -> a
    let negate_v_chirho = TyVarChirho(1150);
    env_chirho.bind_chirho(
        "negate".to_string(),
        SchemeChirho {
            vars_chirho: vec![negate_v_chirho],
            preds_chirho: vec![
                SchemePredChirho {
                    class_name_chirho: "Num".to_string(),
                    ty_chirho: TyChirho::var_chirho(negate_v_chirho),
                },
            ],
            ty_chirho: TyChirho::fun_chirho(
                TyChirho::var_chirho(negate_v_chirho),
                TyChirho::var_chirho(negate_v_chirho),
            ),
        },
    );
    proof {
        assert(env_chirho.map() =~~= before.union_prefer_right(builtin_schemes_1()));
    }
}

fn seed_builtins_part_2_chirho(env_chirho: &mut TyEnvChirho)
    ensures
        final(env_chirho).map() == old(env_chirho).map().union_prefer_right(builtin_schemes_2()),
{
    let ghost before = old(env_chirho).map();
    // fromInteger :: forall a. Num a => Int -> a
    let fi_v_chirho = TyVarChirho(1160);
    env_chirho.bind_chirho(
        "fromInteger".to_string(),
        SchemeChirho {
            vars_chirho: vec![fi_v_chirho],
            preds_chirho: vec![
                SchemePredChirho {
                    class_name_chirho: "Num".to_string(),
                    ty_chirho: TyChirho::var_chirho(fi_v_chirho),
                },
            ],
            ty_chirho: TyChirho::fun_chirho(TyChirho::int_chirho(), TyChirho::var_chirho(fi_v_chirho)),
        },
    );
    // (/) :: forall a. Fractional a => a -> a -> a
    let div_v_chirho = TyVarChirho(1170);
    env_chirho.bind_chirho(
        "/".to_string(),
        SchemeChirho {
            vars_chirho: vec![div_v_chirho],
            preds_chirho: vec![
                SchemePredChirho {
                    class_name_chirho: "Fractional".to_string(),
                    ty_chirho: TyChirho::var_chirho(div_v_chirho),
                },
            ],
            ty_chirho: TyChirho::fun_chirho(
                TyChirho::var_chirho(div_v_chirho),
                TyChirho::fun_chirho(
                    TyChirho::var_chirho(div_v_chirho),
                    TyChirho::var_chirho(div_v_chirho),
                ),
            ),
        },
    );
    // recip :: forall a. Fractional a => a -> a
    let recip_v_chirho = TyVarChirho(1180);
    env_chirho.bind_chirho(
        "recip".to_string(),
        SchemeChirho {
            vars_chirho: vec![recip_v_chirho],
            preds_chirho: vec![
                SchemePredChirho {
                    class_name_chirho: "Fractional".to_string(),
                    ty_chirho: TyChirho::var_chirho(recip_v_chirho),
                },
            ],
            ty_chirho: TyChirho::fun_chirho(
                TyChirho::var_chirho(recip_v_chirho),
                TyChirho::var_chirho(recip_v_chirho),
            ),
        },
    );
    // fromRational :: forall a. Fractional a => Rational -> a
    let fr_v_chirho = TyVarChirho(1190);
    env_chirho.bind_chirho(
        "fromRational".to_string(),
        SchemeChirho {
            vars_chirho: vec![fr_v_chirho],
            preds_chirho: vec![
                SchemePredChirho {
                    class_name_chirho: "Fractional".to_string(),
                    ty_chirho: TyChirho::var_chirho(fr_v_chirho),
                },
            ],
            ty_chirho: TyChirho::fun_chirho(
                TyChirho::con_chirho("Rational".to_string()),
                TyChirho::var_chirho(fr_v_chirho),
            ),
        },
    );
    // read :: forall a. Read a => String -> a
    let read_v_chirho = TyVarChirho(1195);
    env_chirho.bind_chirho(
        "read".to_string(),
        SchemeChirho {
            vars_chirho: vec![read_v_chirho],
            preds_chirho: vec![
                SchemePredChirho {
                    class_name_chirho: "Read".to_string(),
                    ty_chirho: TyChirho::var_chirho(read_v_chirho),
                },
            ],
            ty_chirho: TyChirho::fun_chirho(TyChirho::string_chirho(), TyChirho::var_chirho(read_v_chirho)),
        },
    );
    // fromString :: forall a. IsString a => String -> a
    let fs_v_chirho = TyVarChirho(1197);
    env_chirho.bind_chirho(
        "fromString".to_string(),
        SchemeChirho {
            vars_chirho: vec![fs_v_chirho],
            preds_chirho: vec![
                SchemePredChirho {
                    class_name_chirho: "IsString".to_string(),
                    ty_chirho: TyChirho::var_chirho(fs_v_chirho),
                },
            ],
            ty_chirho: TyChirho::fun_chirho(TyChirho::string_chirho(), TyChirho::var_chirho(fs_v_chirho)),
        },
    );
    // fromList :: forall a l. IsList l => [a] -> l
    let fl_v_chirho = TyVarChirho(1198);
    let fl_a_chirho = TyVarChirho(1199);
    env_chirho.bind_chirho(
        "fromList".to_string(),
        SchemeChirho {
            vars_chirho: vec![fl_v_chirho, fl_a_chirho],
            preds_chirho: vec![
                SchemePredChirho {
                    class_name_chirho: "IsList".to_string(),
                    ty_chirho: TyChirho::var_chirho(fl_v_chirho),
                },
            ],
            ty_chirho: TyChirho::fun_chirho(
                TyChirho::list_chirho(TyChirho::var_chirho(fl_a_chirho)),
                TyChirho::var_chirho(fl_v_chirho),
            ),
        },
    );
    // toList :: forall a l. IsList l => l -> [a]
    env_chirho.bind_chirho(
        "toList".to_string(),
        SchemeChirho {
            vars_chirho: vec![fl_v_chirho, fl_a_chirho],
            preds_chirho: vec![
                SchemePredChirho {
                    class_name_chirho: "IsList".to_string(),
                    ty_chirho: TyChirho::var_chirho(fl_v_chirho),
                },
            ],
            ty_chirho: TyChirho::fun_chirho(
                TyChirho::var_chirho(fl_v_chirho),
                TyChirho::list_chirho(TyChirho::var_chirho(fl_a_chirho)),
            ),
        },
    );
    // div :: Int -> Int -> Int  (Integral-specialized to Int)
    env_chirho.bind_chirho(
        "div".to_string(),
        SchemeChirho::mono_chirho(
            TyChirho::fun_chirho(
                TyChirho::int_chirho(),
                TyChirho::fun_chirho(TyChirho::int_chirho(), TyChirho::int_chirho()),
            ),
        ),
    );
    // mod :: Int -> Int -> Int  (Integral-specialized to Int)
    env_chirho.bind_chirho(
        "mod".to_string(),
        SchemeChirho::mono_chirho(
            TyChirho::fun_chirho(
                TyChirho::int_chirho(),
                TyChirho::fun_chirho(TyChirho::int_chirho(), TyChirho::int_chirho()),
            ),
        ),
    );
    // quot :: Int -> Int -> Int  (truncating division toward zero)
    env_chirho.bind_chirho(
        "quot".to_string(),
        SchemeChirho::mono_chirho(
            TyChirho::fun_chirho(
                TyChirho::int_chirho(),
                TyChirho::fun_chirho(TyChirho::int_chirho(), TyChirho::int_chirho()),
            ),
        ),
    );
    // rem :: Int -> Int -> Int  (remainder of truncating division)
    env_chirho.bind_chirho(
        "rem".to_string(),
        SchemeChirho::mono_chirho(
            TyChirho::fun_chirho(
                TyChirho::int_chirho(),
                TyChirho::fun_chirho(TyChirho::int_chirho(), TyChirho::int_chirho()),
            ),
        ),
    );
    // pure :: forall a. a -> a (simplified — no Applicative class yet)
    let pure_v_chirho = TyVarChirho(1500);
    env_chirho.bind_chirho(
        "pure".to_string(),
        SchemeChirho {
            vars_chirho: vec![pure_v_chirho],
            preds_chirho: vec![],
            ty_chirho: TyChirho::fun_chirho(
                TyChirho::var_chirho(pure_v_chirho),
                TyChirho::var_chirho(pure_v_chirho),
            ),
        },
    );
    // id :: forall a. a -> a
    let id_var_chirho = TyVarChirho(1000);
    env_chirho.bind_chirho(
        "id".to_string(),
        SchemeChirho {
            vars_chirho: vec![id_var_chirho],
            preds_chirho: vec![],
            ty_chirho: TyChirho::fun_chirho(
                TyChirho::var_chirho(id_var_chirho),
                TyChirho::var_chirho(id_var_chirho),
            ),
        },
    );
    // const :: forall a b. a -> b -> a
    let const_a_chirho = TyVarChirho(1001);
    let const_b_chirho = TyVarChirho(1002);
    env_chirho.bind_chirho(
        "const".to_string(),
        SchemeChirho {
            vars_chirho: vec![const_a_chirho, const_b_chirho],
            preds_chirho: vec![],
            ty_chirho: TyChirho::fun_chirho(
                TyChirho::var_chirho(const_a_chirho),
                TyChirho::fun_chirho(
                    TyChirho::var_chirho(const_b_chirho),
                    TyChirho::var_chirho(const_a_chirho),
                ),
            ),
        },
    );
    // flip :: forall a b c. (a -> b -> c) -> b -> a -> c
    let flip_a_chirho = TyVarChirho(1003);
    let flip_b_chirho = TyVarChirho(1004);
    let flip_c_chirho = TyVarChirho(1005);
    env_chirho.bind_chirho(
        "flip".to_string(),
        SchemeChirho {
            vars_chirho: vec![flip_a_chirho, flip_b_chirho, flip_c_chirho],
            preds_chirho: vec![],
            ty_chirho: TyChirho::fun_chirho(
                TyChirho::fun_chirho(
                    TyChirho::var_chirho(flip_a_chirho),
                    TyChirho::fun_chirho(
                        TyChirho::var_chirho(flip_b_chirho),
                        TyChirho::var_chirho(flip_c_chirho),
                    ),
                ),
                TyChirho::fun_chirho(
                    TyChirho::var_chirho(flip_b_chirho),
                    TyChirho::fun_chirho(
                        TyChirho::var_chirho(flip_a_chirho),
                        TyChirho::var_chirho(flip_c_chirho),
                    ),
                ),
            ),
        },
    );
    // even :: Int -> Bool
    env_chirho.bind_chirho(
        "even".to_string(),
        SchemeChirho::mono_chirho(
            TyChirho::fun_chirho(TyChirho::int_chirho(), TyChirho::bool_chirho()),
        ),
    );
    // odd :: Int -> Bool
    env_chirho.bind_chirho(
        "odd".to_string(),
        SchemeChirho::mono_chirho(
            TyChirho::fun_chirho(TyChirho::int_chirho(), TyChirho::bool_chirho()),
        ),
    );
    // max :: Int -> Int -> Int
    env_chirho.bind_chirho(
        "max".to_string(),
        SchemeChirho::mono_chirho(
            TyChirho::fun_chirho(
                TyChirho::int_chirho(),
                TyChirho::fun_chirho(TyChirho::int_chirho(), TyChirho::int_chirho()),
            ),
        ),
    );
    // min :: Int -> Int -> Int
    env_chirho.bind_chirho(
        "min".to_string(),
        SchemeChirho::mono_chirho(
            TyChirho::fun_chirho(
                TyChirho::int_chirho(),
                TyChirho::fun_chirho(TyChirho::int_chirho(), TyChirho::int_chirho()),
            ),
        ),
    );
    proof {
        assert(env_chirho.map() =~~= before.union_prefer_right(builtin_schemes_2()));
    }
}

fn seed_builtins_part_3_chirho(env_chirho: &mut TyEnvChirho)
    ensures
        final(env_chirho).map() == old(env_chirho).map().union_prefer_right(builtin_schemes_3()),
{
    let ghost before = old(env_chirho).map();
    // fst :: forall a b. (a, b) -> a
    let fst_a_chirho = TyVarChirho(1003);
    let fst_b_chirho = TyVarChirho(1004);
    env_chirho.bind_chirho(
        "fst".to_string(),
        SchemeChirho {
            vars_chirho: vec![fst_a_chirho, fst_b_chirho],
            preds_chirho: vec![],
            ty_chirho: TyChirho::fun_chirho(
                TyChirho::pair_chirho(
                    TyChirho::var_chirho(fst_a_chirho),
                    TyChirho::var_chirho(fst_b_chirho),
                ),
                TyChirho::var_chirho(fst_a_chirho),
            ),
        },
    );
    // snd :: forall a b. (a, b) -> b
    let snd_a_chirho = TyVarChirho(1005);
    let snd_b_chirho = TyVarChirho(1006);
    env_chirho.bind_chirho(
        "snd".to_string(),
        SchemeChirho {
            vars_chirho: vec![snd_a_chirho, snd_b_chirho],
            preds_chirho: vec![],
            ty_chirho: TyChirho::fun_chirho(
                TyChirho::pair_chirho(
                    TyChirho::var_chirho(snd_a_chirho),
                    TyChirho::var_chirho(snd_b_chirho),
                ),
                TyChirho::var_chirho(snd_b_chirho),
            ),
        },
    );
    // curry :: forall a b c. ((a, b) -> c) -> a -> b -> c
    let curry_a_chirho = TyVarChirho(1007);
    let curry_b_chirho = TyVarChirho(1008);
    let curry_c_chirho = TyVarChirho(1009);
    env_chirho.bind_chirho(
        "curry".to_string(),
        SchemeChirho {
            vars_chirho: vec![curry_a_chirho, curry_b_chirho, curry_c_chirho],
            preds_chirho: vec![],
            ty_chirho: TyChirho::fun_chirho(
                TyChirho::fun_chirho(
                    TyChirho::pair_chirho(
                        TyChirho::var_chirho(curry_a_chirho),
                        TyChirho::var_chirho(curry_b_chirho),
                    ),
                    TyChirho::var_chirho(curry_c_chirho),
                ),
                TyChirho::fun_chirho(
                    TyChirho::var_chirho(curry_a_chirho),
                    TyChirho::fun_chirho(
                        TyChirho::var_chirho(curry_b_chirho),
                        TyChirho::var_chirho(curry_c_chirho),
                    ),
                ),
            ),
        },
    );
    // uncurry :: forall a b c. (a -> b -> c) -> (a, b) -> c
    let uncurry_a_chirho = TyVarChirho(1010);
    let uncurry_b_chirho = TyVarChirho(1011);
    let uncurry_c_chirho = TyVarChirho(1012);
    env_chirho.bind_chirho(
        "uncurry".to_string(),
        SchemeChirho {
            vars_chirho: vec![uncurry_a_chirho, uncurry_b_chirho, uncurry_c_chirho],
            preds_chirho: vec![],
            ty_chirho: TyChirho::fun_chirho(
                TyChirho::fun_chirho(
                    TyChirho::var_chirho(uncurry_a_chirho),
                    TyChirho::fun_chirho(
                        TyChirho::var_chirho(uncurry_b_chirho),
                        TyChirho::var_chirho(uncurry_c_chirho),
                    ),
                ),
                TyChirho::fun_chirho(
                    TyChirho::pair_chirho(
                        TyChirho::var_chirho(uncurry_a_chirho),
                        TyChirho::var_chirho(uncurry_b_chirho),
                    ),
                    TyChirho::var_chirho(uncurry_c_chirho),
                ),
            ),
        },
    );
    // take :: forall a. Int -> [a] -> [a]
    {
        let take_a_chirho = TyVarChirho(3200);
        let list_a_chirho = TyChirho::list_chirho(TyChirho::var_chirho(take_a_chirho));
        env_chirho.bind_chirho(
            "take".to_string(),
            SchemeChirho {
                vars_chirho: vec![take_a_chirho],
                preds_chirho: vec![],
                ty_chirho: TyChirho::fun_chirho(
                    TyChirho::int_chirho(),
                    TyChirho::fun_chirho(list_a_chirho.copy_chirho(), list_a_chirho),
                ),
            },
        );
    }
    // drop :: forall a. Int -> [a] -> [a]
    {
        let drop_a_chirho = TyVarChirho(3210);
        let list_a_chirho = TyChirho::list_chirho(TyChirho::var_chirho(drop_a_chirho));
        env_chirho.bind_chirho(
            "drop".to_string(),
            SchemeChirho {
                vars_chirho: vec![drop_a_chirho],
                preds_chirho: vec![],
                ty_chirho: TyChirho::fun_chirho(
                    TyChirho::int_chirho(),
                    TyChirho::fun_chirho(list_a_chirho.copy_chirho(), list_a_chirho),
                ),
            },
        );
    }
    // words :: String -> [String]
    env_chirho.bind_chirho(
        "words".to_string(),
        SchemeChirho::mono_chirho(
            TyChirho::fun_chirho(
                TyChirho::string_chirho(),
                TyChirho::list_chirho(TyChirho::string_chirho()),
            ),
        ),
    );
    // unwords :: [String] -> String
    env_chirho.bind_chirho(
        "unwords".to_string(),
        SchemeChirho::mono_chirho(
            TyChirho::fun_chirho(
                TyChirho::list_chirho(TyChirho::string_chirho()),
                TyChirho::string_chirho(),
            ),
        ),
    );
    // concat :: [String] -> String
    env_chirho.bind_chirho(
        "concat".to_string(),
        SchemeChirho::mono_chirho(
            TyChirho::fun_chirho(
                TyChirho::list_chirho(TyChirho::string_chirho()),
                TyChirho::string_chirho(),
            ),
        ),
    );
    // intercalate :: String -> [String] -> String
    env_chirho.bind_chirho(
        "intercalate".to_string(),
        SchemeChirho::mono_chirho(
            TyChirho::fun_chirho(
                TyChirho::string_chirho(),
                TyChirho::fun_chirho(
                    TyChirho::list_chirho(TyChirho::string_chirho()),
                    TyChirho::string_chirho(),
                ),
            ),
        ),
    );
    // toInteger :: Int -> Int
    env_chirho.bind_chirho(
        "toInteger".to_string(),
        SchemeChirho::mono_chirho(
            TyChirho::fun_chirho(TyChirho::int_chirho(), TyChirho::int_chirho()),
        ),
    );
    // fromIntegral :: Int -> Double
    env_chirho.bind_chirho(
        "fromIntegral".to_string(),
        SchemeChirho::mono_chirho(
            TyChirho::fun_chirho(TyChirho::int_chirho(), TyChirho::double_chirho()),
        ),
    );
    // ceiling :: Double -> Int
    env_chirho.bind_chirho(
        "ceiling".to_string(),
        SchemeChirho::mono_chirho(
            TyChirho::fun_chirho(TyChirho::double_chirho(), TyChirho::int_chirho()),
        ),
    );
    // floor :: Double -> Int
    env_chirho.bind_chirho(
        "floor".to_string(),
        SchemeChirho::mono_chirho(
            TyChirho::fun_chirho(TyChirho::double_chirho(), TyChirho::int_chirho()),
        ),
    );
    // round :: Double -> Int
    env_chirho.bind_chirho(
        "round".to_string(),
        SchemeChirho::mono_chirho(
            TyChirho::fun_chirho(TyChirho::double_chirho(), TyChirho::int_chirho()),
        ),
    );
    // truncate :: Double -> Int
    env_chirho.bind_chirho(
        "truncate".to_string(),
        SchemeChirho::mono_chirho(
            TyChirho::fun_chirho(TyChirho::double_chirho(), TyChirho::int_chirho()),
        ),
    );
    // isJust :: forall a. Maybe a -> Bool
    let is_just_a_chirho = TyVarChirho(1020);
    env_chirho.bind_chirho(
        "isJust".to_string(),
        SchemeChirho {
            vars_chirho: vec![is_just_a_chirho],
            preds_chirho: vec![],
            ty_chirho: TyChirho::fun_chirho(
                TyChirho::app_chirho(
                    TyChirho::con_chirho("Maybe".to_string()),
                    TyChirho::var_chirho(is_just_a_chirho),
                ),
                TyChirho::bool_chirho(),
            ),
        },
    );
    // isNothing :: forall a. Maybe a -> Bool
    let is_nothing_a_chirho = TyVarChirho(1021);
    env_chirho.bind_chirho(
        "isNothing".to_string(),
        SchemeChirho {
            vars_chirho: vec![is_nothing_a_chirho],
            preds_chirho: vec![],
            ty_chirho: TyChirho::fun_chirho(
                TyChirho::app_chirho(
                    TyChirho::con_chirho("Maybe".to_string()),
                    TyChirho::var_chirho(is_nothing_a_chirho),
                ),
                TyChirho::bool_chirho(),
            ),
        },
    );
    // fromMaybe :: forall a. a -> Maybe a -> a
    let from_maybe_a_chirho = TyVarChirho(1022);
    env_chirho.bind_chirho(
        "fromMaybe".to_string(),
        SchemeChirho {
            vars_chirho: vec![from_maybe_a_chirho],
            preds_chirho: vec![],
            ty_chirho: TyChirho::fun_chirho(
                TyChirho::var_chirho(from_maybe_a_chirho),
                TyChirho::fun_chirho(
                    TyChirho::app_chirho(
                        TyChirho::con_chirho("Maybe".to_string()),
                        TyChirho::var_chirho(from_maybe_a_chirho),
                    ),
                    TyChirho::var_chirho(from_maybe_a_chirho),
                ),
            ),
        },
    );
    // maybe :: forall a b. b -> (a -> b) -> Maybe a -> b
    let maybe_a_chirho = TyVarChirho(1023);
    let maybe_b_chirho = TyVarChirho(1024);
    env_chirho.bind_chirho(
        "maybe".to_string(),
        SchemeChirho {
            vars_chirho: vec![maybe_a_chirho, maybe_b_chirho],
            preds_chirho: vec![],
            ty_chirho: TyChirho::fun_chirho(
                TyChirho::var_chirho(maybe_b_chirho),
                TyChirho::fun_chirho(
                    TyChirho::fun_chirho(
                        TyChirho::var_chirho(maybe_a_chirho),
                        TyChirho::var_chirho(maybe_b_chirho),
                    ),
                    TyChirho::fun_chirho(
                        TyChirho::app_chirho(
                            TyChirho::con_chirho("Maybe".to_string()),
                            TyChirho::var_chirho(maybe_a_chirho),
                        ),
                        TyChirho::var_chirho(maybe_b_chirho),
                    ),
                ),
            ),
        },
    );
    proof {
        assert(env_chirho.map() =~~= before.union_prefer_right(builtin_schemes_3()));
    }
}

fn seed_builtins_part_4_chirho(env_chirho: &mut TyEnvChirho)
    ensures
        final(env_chirho).map() == old(env_chirho).map().union_prefer_right(builtin_schemes_4()),
{
    let ghost before = old(env_chirho).map();
    // maybeToList :: forall a. Maybe a -> [a]
    let mtl_a_chirho = TyVarChirho(1030);
    env_chirho.bind_chirho(
        "maybeToList".to_string(),
        SchemeChirho {
            vars_chirho: vec![mtl_a_chirho],
            preds_chirho: vec![],
            ty_chirho: TyChirho::fun_chirho(
                TyChirho::app_chirho(
                    TyChirho::con_chirho("Maybe".to_string()),
                    TyChirho::var_chirho(mtl_a_chirho),
                ),
                TyChirho::list_chirho(TyChirho::var_chirho(mtl_a_chirho)),
            ),
        },
    );
    // listToMaybe :: forall a. [a] -> Maybe a
    let ltm_a_chirho = TyVarChirho(1031);
    env_chirho.bind_chirho(
        "listToMaybe".to_string(),
        SchemeChirho {
            vars_chirho: vec![ltm_a_chirho],
            preds_chirho: vec![],
            ty_chirho: TyChirho::fun_chirho(
                TyChirho::list_chirho(TyChirho::var_chirho(ltm_a_chirho)),
                TyChirho::app_chirho(
                    TyChirho::con_chirho("Maybe".to_string()),
                    TyChirho::var_chirho(ltm_a_chirho),
                ),
            ),
        },
    );
    // catMaybes :: forall a. [Maybe a] -> [a]
    let cm_a_chirho = TyVarChirho(1032);
    env_chirho.bind_chirho(
        "catMaybes".to_string(),
        SchemeChirho {
            vars_chirho: vec![cm_a_chirho],
            preds_chirho: vec![],
            ty_chirho: TyChirho::fun_chirho(
                TyChirho::list_chirho(
                    TyChirho::app_chirho(
                        TyChirho::con_chirho("Maybe".to_string()),
                        TyChirho::var_chirho(cm_a_chirho),
                    ),
                ),
                TyChirho::list_chirho(TyChirho::var_chirho(cm_a_chirho)),
            ),
        },
    );
    // mapMaybe :: forall a b. (a -> Maybe b) -> [a] -> [b]
    let mm_a_chirho = TyVarChirho(1033);
    let mm_b_chirho = TyVarChirho(1034);
    env_chirho.bind_chirho(
        "mapMaybe".to_string(),
        SchemeChirho {
            vars_chirho: vec![mm_a_chirho, mm_b_chirho],
            preds_chirho: vec![],
            ty_chirho: TyChirho::fun_chirho(
                TyChirho::fun_chirho(
                    TyChirho::var_chirho(mm_a_chirho),
                    TyChirho::app_chirho(
                        TyChirho::con_chirho("Maybe".to_string()),
                        TyChirho::var_chirho(mm_b_chirho),
                    ),
                ),
                TyChirho::fun_chirho(
                    TyChirho::list_chirho(TyChirho::var_chirho(mm_a_chirho)),
                    TyChirho::list_chirho(TyChirho::var_chirho(mm_b_chirho)),
                ),
            ),
        },
    );
    // fromJust :: forall a. Maybe a -> a
    let fj_a_chirho = TyVarChirho(1035);
    env_chirho.bind_chirho(
        "fromJust".to_string(),
        SchemeChirho {
            vars_chirho: vec![fj_a_chirho],
            preds_chirho: vec![],
            ty_chirho: TyChirho::fun_chirho(
                TyChirho::app_chirho(
                    TyChirho::con_chirho("Maybe".to_string()),
                    TyChirho::var_chirho(fj_a_chirho),
                ),
                TyChirho::var_chirho(fj_a_chirho),
            ),
        },
    );
    // swap :: forall a b. (a, b) -> (b, a)
    let sw_a_chirho = TyVarChirho(1036);
    let sw_b_chirho = TyVarChirho(1037);
    env_chirho.bind_chirho(
        "swap".to_string(),
        SchemeChirho {
            vars_chirho: vec![sw_a_chirho, sw_b_chirho],
            preds_chirho: vec![],
            ty_chirho: TyChirho::fun_chirho(
                TyChirho::pair_chirho(
                    TyChirho::var_chirho(sw_a_chirho),
                    TyChirho::var_chirho(sw_b_chirho),
                ),
                TyChirho::pair_chirho(
                    TyChirho::var_chirho(sw_b_chirho),
                    TyChirho::var_chirho(sw_a_chirho),
                ),
            ),
        },
    );
    // either :: forall a b c. (a -> c) -> (b -> c) -> Either a b -> c
    let either_a_chirho = TyVarChirho(1025);
    let either_b_chirho = TyVarChirho(1026);
    let either_c_chirho = TyVarChirho(1027);
    env_chirho.bind_chirho(
        "either".to_string(),
        SchemeChirho {
            vars_chirho: vec![either_a_chirho, either_b_chirho, either_c_chirho],
            preds_chirho: vec![],
            ty_chirho: TyChirho::fun_chirho(
                TyChirho::fun_chirho(
                    TyChirho::var_chirho(either_a_chirho),
                    TyChirho::var_chirho(either_c_chirho),
                ),
                TyChirho::fun_chirho(
                    TyChirho::fun_chirho(
                        TyChirho::var_chirho(either_b_chirho),
                        TyChirho::var_chirho(either_c_chirho),
                    ),
                    TyChirho::fun_chirho(
                        TyChirho::app_chirho(
                            TyChirho::app_chirho(
                                TyChirho::con_chirho("Either".to_string()),
                                TyChirho::var_chirho(either_a_chirho),
                            ),
                            TyChirho::var_chirho(either_b_chirho),
                        ),
                        TyChirho::var_chirho(either_c_chirho),
                    ),
                ),
            ),
        },
    );
    // otherwise :: Bool  (otherwise = True)
    env_chirho.bind_chirho(
        "otherwise".to_string(),
        SchemeChirho::mono_chirho(TyChirho::bool_chirho()),
    );
    // ($) :: forall a b. (a -> b) -> a -> b
    let dollar_a_chirho = TyVarChirho(2000);
    let dollar_b_chirho = TyVarChirho(2001);
    env_chirho.bind_chirho(
        "$".to_string(),
        SchemeChirho {
            vars_chirho: vec![dollar_a_chirho, dollar_b_chirho],
            preds_chirho: vec![],
            ty_chirho: TyChirho::fun_chirho(
                TyChirho::fun_chirho(
                    TyChirho::var_chirho(dollar_a_chirho),
                    TyChirho::var_chirho(dollar_b_chirho),
                ),
                TyChirho::fun_chirho(
                    TyChirho::var_chirho(dollar_a_chirho),
                    TyChirho::var_chirho(dollar_b_chirho),
                ),
            ),
        },
    );
    // ($!) :: forall a b. (a -> b) -> a -> b  (strict application)
    let bang_dollar_a_chirho = TyVarChirho(2010);
    let bang_dollar_b_chirho = TyVarChirho(2011);
    env_chirho.bind_chirho(
        "$!".to_string(),
        SchemeChirho {
            vars_chirho: vec![bang_dollar_a_chirho, bang_dollar_b_chirho],
            preds_chirho: vec![],
            ty_chirho: TyChirho::fun_chirho(
                TyChirho::fun_chirho(
                    TyChirho::var_chirho(bang_dollar_a_chirho),
                    TyChirho::var_chirho(bang_dollar_b_chirho),
                ),
                TyChirho::fun_chirho(
                    TyChirho::var_chirho(bang_dollar_a_chirho),
                    TyChirho::var_chirho(bang_dollar_b_chirho),
                ),
            ),
        },
    );
    // ($!!) :: forall a b. NFData a => (a -> b) -> a -> b
    // Deep strict application: f $!! x = deepseq x (f x)
    let dblbang_a_chirho = TyVarChirho(2090);
    let dblbang_b_chirho = TyVarChirho(2091);
    env_chirho.bind_chirho(
        "$!!".to_string(),
        SchemeChirho {
            vars_chirho: vec![dblbang_a_chirho, dblbang_b_chirho],
            preds_chirho: vec![],
            ty_chirho: TyChirho::fun_chirho(
                TyChirho::fun_chirho(
                    TyChirho::var_chirho(dblbang_a_chirho),
                    TyChirho::var_chirho(dblbang_b_chirho),
                ),
                TyChirho::fun_chirho(
                    TyChirho::var_chirho(dblbang_a_chirho),
                    TyChirho::var_chirho(dblbang_b_chirho),
                ),
            ),
        },
    );
    // (.) :: forall a b c. (b -> c) -> (a -> b) -> a -> c
    let dot_a_chirho = TyVarChirho(2100);
    let dot_b_chirho = TyVarChirho(2101);
    let dot_c_chirho = TyVarChirho(2102);
    env_chirho.bind_chirho(
        ".".to_string(),
        SchemeChirho {
            vars_chirho: vec![dot_a_chirho, dot_b_chirho, dot_c_chirho],
            preds_chirho: vec![],
            ty_chirho: TyChirho::fun_chirho(
                TyChirho::fun_chirho(
                    TyChirho::var_chirho(dot_b_chirho),
                    TyChirho::var_chirho(dot_c_chirho),
                ),
                TyChirho::fun_chirho(
                    TyChirho::fun_chirho(
                        TyChirho::var_chirho(dot_a_chirho),
                        TyChirho::var_chirho(dot_b_chirho),
                    ),
                    TyChirho::fun_chirho(
                        TyChirho::var_chirho(dot_a_chirho),
                        TyChirho::var_chirho(dot_c_chirho),
                    ),
                ),
            ),
        },
    );
    // negate :: forall a. Num a => a -> a
    let neg_v_chirho = TyVarChirho(2200);
    env_chirho.bind_chirho(
        "negate".to_string(),
        SchemeChirho {
            vars_chirho: vec![neg_v_chirho],
            preds_chirho: vec![
                SchemePredChirho {
                    class_name_chirho: "Num".to_string(),
                    ty_chirho: TyChirho::var_chirho(neg_v_chirho),
                },
            ],
            ty_chirho: TyChirho::fun_chirho(
                TyChirho::var_chirho(neg_v_chirho),
                TyChirho::var_chirho(neg_v_chirho),
            ),
        },
    );
    // -- I/O functions (IO a is a proper type constructor) --
    // putStrLn :: String -> IO ()
    env_chirho.bind_chirho(
        "putStrLn".to_string(),
        SchemeChirho::mono_chirho(
            TyChirho::fun_chirho(
                TyChirho::string_chirho(),
                TyChirho::io_chirho(TyChirho::unit_chirho()),
            ),
        ),
    );
    // putStr :: String -> IO ()
    env_chirho.bind_chirho(
        "putStr".to_string(),
        SchemeChirho::mono_chirho(
            TyChirho::fun_chirho(
                TyChirho::string_chirho(),
                TyChirho::io_chirho(TyChirho::unit_chirho()),
            ),
        ),
    );
    // print :: forall a. Show a => a -> IO ()
    let print_v_chirho = TyVarChirho(1600);
    env_chirho.bind_chirho(
        "print".to_string(),
        SchemeChirho {
            vars_chirho: vec![print_v_chirho],
            preds_chirho: vec![
                SchemePredChirho {
                    class_name_chirho: "Show".to_string(),
                    ty_chirho: TyChirho::var_chirho(print_v_chirho),
                },
            ],
            ty_chirho: TyChirho::fun_chirho(
                TyChirho::var_chirho(print_v_chirho),
                TyChirho::io_chirho(TyChirho::unit_chirho()),
            ),
        },
    );
    // return :: forall a. a -> IO a
    let return_v_chirho = TyVarChirho(1700);
    env_chirho.bind_chirho(
        "return".to_string(),
        SchemeChirho {
            vars_chirho: vec![return_v_chirho],
            preds_chirho: vec![],
            ty_chirho: TyChirho::fun_chirho(
                TyChirho::var_chirho(return_v_chirho),
                TyChirho::io_chirho(TyChirho::var_chirho(return_v_chirho)),
            ),
        },
    );
    // (>>=) :: forall a b. IO a -> (a -> IO b) -> IO b
    let bind_a_chirho = TyVarChirho(1800);
    let bind_b_chirho = TyVarChirho(1801);
    env_chirho.bind_chirho(
        ">>=".to_string(),
        SchemeChirho {
            vars_chirho: vec![bind_a_chirho, bind_b_chirho],
            preds_chirho: vec![],
            ty_chirho: TyChirho::fun_chirho(
                TyChirho::io_chirho(TyChirho::var_chirho(bind_a_chirho)),
                TyChirho::fun_chirho(
                    TyChirho::fun_chirho(
                        TyChirho::var_chirho(bind_a_chirho),
                        TyChirho::io_chirho(TyChirho::var_chirho(bind_b_chirho)),
                    ),
                    TyChirho::io_chirho(TyChirho::var_chirho(bind_b_chirho)),
                ),
            ),
        },
    );
    // (>>) :: forall a b. IO a -> IO b -> IO b
    let then_a_chirho = TyVarChirho(1900);
    let then_b_chirho = TyVarChirho(1901);
    env_chirho.bind_chirho(
        ">>".to_string(),
        SchemeChirho {
            vars_chirho: vec![then_a_chirho, then_b_chirho],
            preds_chirho: vec![],
            ty_chirho: TyChirho::fun_chirho(
                TyChirho::io_chirho(TyChirho::var_chirho(then_a_chirho)),
                TyChirho::fun_chirho(
                    TyChirho::io_chirho(TyChirho::var_chirho(then_b_chirho)),
                    TyChirho::io_chirho(TyChirho::var_chirho(then_b_chirho)),
                ),
            ),
        },
    );
    // getLine :: IO String
    env_chirho.bind_chirho(
        "getLine".to_string(),
        SchemeChirho::mono_chirho(TyChirho::io_chirho(TyChirho::string_chirho())),
    );
    proof {
        assert(env_chirho.map() =~~= before.union_prefer_right(builtin_schemes_4()));
    }
}

fn seed_builtins_part_5_chirho(env_chirho: &mut TyEnvChirho)
    ensures
        final(env_chirho).map() == old(env_chirho).map().union_prefer_right(builtin_schemes_5()),
{
    let ghost before = old(env_chirho).map();
    // getChar :: IO Char
    env_chirho.bind_chirho(
        "getChar".to_string(),
        SchemeChirho::mono_chirho(TyChirho::io_chirho(TyChirho::char_chirho())),
    );
    // getContents :: IO String — read all stdin as a single lazy String
    env_chirho.bind_chirho(
        "getContents".to_string(),
        SchemeChirho::mono_chirho(TyChirho::io_chirho(TyChirho::string_chirho())),
    );
    // readFile :: String -> IO String
    env_chirho.bind_chirho(
        "readFile".to_string(),
        SchemeChirho::mono_chirho(
            TyChirho::fun_chirho(
                TyChirho::string_chirho(),
                TyChirho::io_chirho(TyChirho::string_chirho()),
            ),
        ),
    );
    // writeFile :: String -> String -> IO ()
    env_chirho.bind_chirho(
        "writeFile".to_string(),
        SchemeChirho::mono_chirho(
            TyChirho::fun_chirho(
                TyChirho::string_chirho(),
                TyChirho::fun_chirho(
                    TyChirho::string_chirho(),
                    TyChirho::io_chirho(TyChirho::unit_chirho()),
                ),
            ),
        ),
    );
    // appendFile :: String -> String -> IO ()
    env_chirho.bind_chirho(
        "appendFile".to_string(),
        SchemeChirho::mono_chirho(
            TyChirho::fun_chirho(
                TyChirho::string_chirho(),
                TyChirho::fun_chirho(
                    TyChirho::string_chirho(),
                    TyChirho::io_chirho(TyChirho::unit_chirho()),
                ),
            ),
        ),
    );
    // interact :: (String -> String) -> IO ()
    env_chirho.bind_chirho(
        "interact".to_string(),
        SchemeChirho::mono_chirho(
            TyChirho::fun_chirho(
                TyChirho::fun_chirho(TyChirho::string_chirho(), TyChirho::string_chirho()),
                TyChirho::io_chirho(TyChirho::unit_chirho()),
            ),
        ),
    );
    // newIORef :: a -> IO (IORef a)  (IORef a ≈ Int at runtime)
    {
        let a_chirho = TyChirho::var_chirho(TyVarChirho(3200));
        env_chirho.bind_chirho(
            "newIORef".to_string(),
            SchemeChirho {
                vars_chirho: vec![TyVarChirho(3200)],
                preds_chirho: vec![],
                ty_chirho: TyChirho::fun_chirho(a_chirho, TyChirho::io_chirho(TyChirho::int_chirho())),
            },
        );
    }
    // readIORef :: IORef a -> IO a  (IORef a ≈ Int at runtime)
    {
        let a_chirho = TyChirho::var_chirho(TyVarChirho(3201));
        env_chirho.bind_chirho(
            "readIORef".to_string(),
            SchemeChirho {
                vars_chirho: vec![TyVarChirho(3201)],
                preds_chirho: vec![],
                ty_chirho: TyChirho::fun_chirho(TyChirho::int_chirho(), TyChirho::io_chirho(a_chirho)),
            },
        );
    }
    // writeIORef :: IORef a -> a -> IO ()
    {
        let a_chirho = TyChirho::var_chirho(TyVarChirho(3202));
        env_chirho.bind_chirho(
            "writeIORef".to_string(),
            SchemeChirho {
                vars_chirho: vec![TyVarChirho(3202)],
                preds_chirho: vec![],
                ty_chirho: TyChirho::fun_chirho(
                    TyChirho::int_chirho(),
                    TyChirho::fun_chirho(a_chirho, TyChirho::io_chirho(TyChirho::unit_chirho())),
                ),
            },
        );
    }
    // modifyIORef :: IORef a -> (a -> a) -> IO ()
    {
        let a_chirho = TyChirho::var_chirho(TyVarChirho(3203));
        env_chirho.bind_chirho(
            "modifyIORef".to_string(),
            SchemeChirho {
                vars_chirho: vec![TyVarChirho(3203)],
                preds_chirho: vec![],
                ty_chirho: TyChirho::fun_chirho(
                    TyChirho::int_chirho(),
                    TyChirho::fun_chirho(
                        TyChirho::fun_chirho(a_chirho.copy_chirho(), a_chirho),
                        TyChirho::io_chirho(TyChirho::unit_chirho()),
                    ),
                ),
            },
        );
    }
    // ── Control.Monad.ST operations ──
    // newSTRef :: a -> ST s (STRef s a)  (simplified: STRef s a ≈ Int, ST s ≈ identity)
    {
        let a_chirho = TyChirho::var_chirho(TyVarChirho(3280));
        env_chirho.bind_chirho(
            "newSTRef".to_string(),
            SchemeChirho {
                vars_chirho: vec![TyVarChirho(3280)],
                preds_chirho: vec![],
                ty_chirho: TyChirho::fun_chirho(a_chirho, TyChirho::int_chirho()),
            },
        );
    }
    // readSTRef :: STRef s a -> ST s a  (simplified: STRef s a ≈ Int)
    {
        let a_chirho = TyChirho::var_chirho(TyVarChirho(3281));
        env_chirho.bind_chirho(
            "readSTRef".to_string(),
            SchemeChirho {
                vars_chirho: vec![TyVarChirho(3281)],
                preds_chirho: vec![],
                ty_chirho: TyChirho::fun_chirho(TyChirho::int_chirho(), a_chirho),
            },
        );
    }
    // writeSTRef :: STRef s a -> a -> ST s ()  (simplified)
    {
        let a_chirho = TyChirho::var_chirho(TyVarChirho(3282));
        env_chirho.bind_chirho(
            "writeSTRef".to_string(),
            SchemeChirho {
                vars_chirho: vec![TyVarChirho(3282)],
                preds_chirho: vec![],
                ty_chirho: TyChirho::fun_chirho(
                    TyChirho::int_chirho(),
                    TyChirho::fun_chirho(a_chirho, TyChirho::unit_chirho()),
                ),
            },
        );
    }
    // modifySTRef :: STRef s a -> (a -> a) -> ST s ()  (simplified: STRef s a ≈ Int)
    {
        let a_chirho = TyChirho::var_chirho(TyVarChirho(3284));
        env_chirho.bind_chirho(
            "modifySTRef".to_string(),
            SchemeChirho {
                vars_chirho: vec![TyVarChirho(3284)],
                preds_chirho: vec![],
                ty_chirho: TyChirho::fun_chirho(
                    TyChirho::int_chirho(),
                    TyChirho::fun_chirho(
                        TyChirho::fun_chirho(a_chirho.copy_chirho(), a_chirho),
                        TyChirho::unit_chirho(),
                    ),
                ),
            },
        );
    }
    // runST :: (forall s. ST s a) -> a  (simplified: runST f = f)
    {
        let a_chirho = TyChirho::var_chirho(TyVarChirho(3283));
        env_chirho.bind_chirho(
            "runST".to_string(),
            SchemeChirho {
                vars_chirho: vec![TyVarChirho(3283)],
                preds_chirho: vec![],
                ty_chirho: TyChirho::fun_chirho(a_chirho.copy_chirho(), a_chirho),
            },
        );
    }
    // ── STM (Software Transactional Memory) operations ──
    // newTVar :: a -> IO (TVar a)  (TVar a ≈ Int at runtime)
    {
        let a_chirho = TyChirho::var_chirho(TyVarChirho(3290));
        env_chirho.bind_chirho(
            "newTVar".to_string(),
            SchemeChirho {
                vars_chirho: vec![TyVarChirho(3290)],
                preds_chirho: vec![],
                ty_chirho: TyChirho::fun_chirho(a_chirho, TyChirho::io_chirho(TyChirho::int_chirho())),
            },
        );
    }
    // newTVarIO :: a -> IO (TVar a)
    {
        let a_chirho = TyChirho::var_chirho(TyVarChirho(3291));
        env_chirho.bind_chirho(
            "newTVarIO".to_string(),
            SchemeChirho {
                vars_chirho: vec![TyVarChirho(3291)],
                preds_chirho: vec![],
                ty_chirho: TyChirho::fun_chirho(a_chirho, TyChirho::io_chirho(TyChirho::int_chirho())),
            },
        );
    }
    // readTVar :: TVar a -> IO a
    {
        let a_chirho = TyChirho::var_chirho(TyVarChirho(3292));
        env_chirho.bind_chirho(
            "readTVar".to_string(),
            SchemeChirho {
                vars_chirho: vec![TyVarChirho(3292)],
                preds_chirho: vec![],
                ty_chirho: TyChirho::fun_chirho(TyChirho::int_chirho(), TyChirho::io_chirho(a_chirho)),
            },
        );
    }
    // readTVarIO :: TVar a -> IO a
    {
        let a_chirho = TyChirho::var_chirho(TyVarChirho(3293));
        env_chirho.bind_chirho(
            "readTVarIO".to_string(),
            SchemeChirho {
                vars_chirho: vec![TyVarChirho(3293)],
                preds_chirho: vec![],
                ty_chirho: TyChirho::fun_chirho(TyChirho::int_chirho(), TyChirho::io_chirho(a_chirho)),
            },
        );
    }
    // writeTVar :: TVar a -> a -> IO ()
    {
        let a_chirho = TyChirho::var_chirho(TyVarChirho(3294));
        env_chirho.bind_chirho(
            "writeTVar".to_string(),
            SchemeChirho {
                vars_chirho: vec![TyVarChirho(3294)],
                preds_chirho: vec![],
                ty_chirho: TyChirho::fun_chirho(
                    TyChirho::int_chirho(),
                    TyChirho::fun_chirho(a_chirho, TyChirho::io_chirho(TyChirho::unit_chirho())),
                ),
            },
        );
    }
    proof {
        assert(env_chirho.map() =~~= before.union_prefer_right(builtin_schemes_5()));
    }
}

fn seed_builtins_part_6_chirho(env_chirho: &mut TyEnvChirho)
    ensures
        final(env_chirho).map() == old(env_chirho).map().union_prefer_right(builtin_schemes_6()),
{
    let ghost before = old(env_chirho).map();
    // atomically :: STM a -> IO a  (single-threaded: identity)
    {
        let a_chirho = TyChirho::var_chirho(TyVarChirho(3295));
        env_chirho.bind_chirho(
            "atomically".to_string(),
            SchemeChirho {
                vars_chirho: vec![TyVarChirho(3295)],
                preds_chirho: vec![],
                ty_chirho: TyChirho::fun_chirho(
                    TyChirho::io_chirho(a_chirho.copy_chirho()),
                    TyChirho::io_chirho(a_chirho),
                ),
            },
        );
    }
    // retry :: STM a  (returns IO a in our single-threaded model)
    {
        let a_chirho = TyChirho::var_chirho(TyVarChirho(3296));
        env_chirho.bind_chirho(
            "retry".to_string(),
            SchemeChirho {
                vars_chirho: vec![TyVarChirho(3296)],
                preds_chirho: vec![],
                ty_chirho: TyChirho::io_chirho(a_chirho),
            },
        );
    }
    // orElse :: STM a -> STM a -> STM a  (simplified: IO a -> IO a -> IO a)
    {
        let a_chirho = TyChirho::var_chirho(TyVarChirho(3297));
        env_chirho.bind_chirho(
            "orElse".to_string(),
            SchemeChirho {
                vars_chirho: vec![TyVarChirho(3297)],
                preds_chirho: vec![],
                ty_chirho: TyChirho::fun_chirho(
                    TyChirho::io_chirho(a_chirho.copy_chirho()),
                    TyChirho::fun_chirho(
                        TyChirho::io_chirho(a_chirho.copy_chirho()),
                        TyChirho::io_chirho(a_chirho),
                    ),
                ),
            },
        );
    }
    // ── Monad Transformer operations ──
    // runStateT :: (IO a) -> s -> IO a  (returns pair at runtime, simplified type)
    {
        let a_chirho = TyChirho::var_chirho(TyVarChirho(3400));
        let s_chirho = TyChirho::var_chirho(TyVarChirho(3401));
        env_chirho.bind_chirho(
            "runStateT".to_string(),
            SchemeChirho {
                vars_chirho: vec![TyVarChirho(3400), TyVarChirho(3401)],
                preds_chirho: vec![],
                ty_chirho: TyChirho::fun_chirho(
                    TyChirho::io_chirho(a_chirho.copy_chirho()),
                    TyChirho::fun_chirho(s_chirho, TyChirho::io_chirho(a_chirho)),
                ),
            },
        );
    }
    // evalStateT :: (IO a) -> s -> IO a
    {
        let a_chirho = TyChirho::var_chirho(TyVarChirho(3402));
        let s_chirho = TyChirho::var_chirho(TyVarChirho(3403));
        env_chirho.bind_chirho(
            "evalStateT".to_string(),
            SchemeChirho {
                vars_chirho: vec![TyVarChirho(3402), TyVarChirho(3403)],
                preds_chirho: vec![],
                ty_chirho: TyChirho::fun_chirho(
                    TyChirho::io_chirho(a_chirho.copy_chirho()),
                    TyChirho::fun_chirho(s_chirho, TyChirho::io_chirho(a_chirho)),
                ),
            },
        );
    }
    {
        let a_chirho = TyChirho::var_chirho(TyVarChirho(3402));
        let s_chirho = TyChirho::var_chirho(TyVarChirho(3403));
        env_chirho.bind_chirho(
            "evalState".to_string(),
            SchemeChirho {
                vars_chirho: vec![TyVarChirho(3402), TyVarChirho(3403)],
                preds_chirho: vec![],
                ty_chirho: TyChirho::fun_chirho(
                    TyChirho::io_chirho(a_chirho.copy_chirho()),
                    TyChirho::fun_chirho(s_chirho, TyChirho::io_chirho(a_chirho)),
                ),
            },
        );
    }
    // execStateT :: (IO a) -> s -> IO s
    {
        let a_chirho = TyChirho::var_chirho(TyVarChirho(3404));
        let s_chirho = TyChirho::var_chirho(TyVarChirho(3405));
        env_chirho.bind_chirho(
            "execStateT".to_string(),
            SchemeChirho {
                vars_chirho: vec![TyVarChirho(3404), TyVarChirho(3405)],
                preds_chirho: vec![],
                ty_chirho: TyChirho::fun_chirho(
                    TyChirho::io_chirho(a_chirho),
                    TyChirho::fun_chirho(s_chirho.copy_chirho(), TyChirho::io_chirho(s_chirho)),
                ),
            },
        );
    }
    {
        let a_chirho = TyChirho::var_chirho(TyVarChirho(3404));
        let s_chirho = TyChirho::var_chirho(TyVarChirho(3405));
        env_chirho.bind_chirho(
            "execState".to_string(),
            SchemeChirho {
                vars_chirho: vec![TyVarChirho(3404), TyVarChirho(3405)],
                preds_chirho: vec![],
                ty_chirho: TyChirho::fun_chirho(
                    TyChirho::io_chirho(a_chirho),
                    TyChirho::fun_chirho(s_chirho.copy_chirho(), TyChirho::io_chirho(s_chirho)),
                ),
            },
        );
    }
    // get :: IO s
    {
        let s_chirho = TyChirho::var_chirho(TyVarChirho(3406));
        env_chirho.bind_chirho(
            "get".to_string(),
            SchemeChirho {
                vars_chirho: vec![TyVarChirho(3406)],
                preds_chirho: vec![],
                ty_chirho: TyChirho::io_chirho(s_chirho),
            },
        );
    }
    // put :: s -> IO ()
    {
        let s_chirho = TyChirho::var_chirho(TyVarChirho(3407));
        env_chirho.bind_chirho(
            "put".to_string(),
            SchemeChirho {
                vars_chirho: vec![TyVarChirho(3407)],
                preds_chirho: vec![],
                ty_chirho: TyChirho::fun_chirho(s_chirho, TyChirho::io_chirho(TyChirho::unit_chirho())),
            },
        );
    }
    // modify :: (s -> s) -> IO ()
    {
        let s_chirho = TyChirho::var_chirho(TyVarChirho(3408));
        env_chirho.bind_chirho(
            "modify".to_string(),
            SchemeChirho {
                vars_chirho: vec![TyVarChirho(3408)],
                preds_chirho: vec![],
                ty_chirho: TyChirho::fun_chirho(
                    TyChirho::fun_chirho(s_chirho.copy_chirho(), s_chirho),
                    TyChirho::io_chirho(TyChirho::unit_chirho()),
                ),
            },
        );
    }
    // runReaderT :: (IO a) -> r -> IO a
    {
        let a_chirho = TyChirho::var_chirho(TyVarChirho(3410));
        let r_chirho = TyChirho::var_chirho(TyVarChirho(3411));
        env_chirho.bind_chirho(
            "runReaderT".to_string(),
            SchemeChirho {
                vars_chirho: vec![TyVarChirho(3410), TyVarChirho(3411)],
                preds_chirho: vec![],
                ty_chirho: TyChirho::fun_chirho(
                    TyChirho::io_chirho(a_chirho.copy_chirho()),
                    TyChirho::fun_chirho(r_chirho, TyChirho::io_chirho(a_chirho)),
                ),
            },
        );
    }
    // ask :: IO r
    {
        let r_chirho = TyChirho::var_chirho(TyVarChirho(3412));
        env_chirho.bind_chirho(
            "ask".to_string(),
            SchemeChirho {
                vars_chirho: vec![TyVarChirho(3412)],
                preds_chirho: vec![],
                ty_chirho: TyChirho::io_chirho(r_chirho),
            },
        );
    }
    // local :: (r -> r) -> IO a -> IO a
    {
        let r_chirho = TyChirho::var_chirho(TyVarChirho(3413));
        let a_chirho = TyChirho::var_chirho(TyVarChirho(3414));
        env_chirho.bind_chirho(
            "local".to_string(),
            SchemeChirho {
                vars_chirho: vec![TyVarChirho(3413), TyVarChirho(3414)],
                preds_chirho: vec![],
                ty_chirho: TyChirho::fun_chirho(
                    TyChirho::fun_chirho(r_chirho.copy_chirho(), r_chirho),
                    TyChirho::fun_chirho(
                        TyChirho::io_chirho(a_chirho.copy_chirho()),
                        TyChirho::io_chirho(a_chirho),
                    ),
                ),
            },
        );
    }
    // runExceptT :: IO a -> IO (Either e a)  (simplified)
    {
        let a_chirho = TyChirho::var_chirho(TyVarChirho(3420));
        env_chirho.bind_chirho(
            "runExceptT".to_string(),
            SchemeChirho {
                vars_chirho: vec![TyVarChirho(3420)],
                preds_chirho: vec![],
                ty_chirho: TyChirho::fun_chirho(
                    TyChirho::io_chirho(a_chirho.copy_chirho()),
                    TyChirho::io_chirho(a_chirho),
                ),
            },
        );
    }
    // throwE :: e -> IO a
    {
        let a_chirho = TyChirho::var_chirho(TyVarChirho(3421));
        let e_chirho = TyChirho::var_chirho(TyVarChirho(3422));
        env_chirho.bind_chirho(
            "throwE".to_string(),
            SchemeChirho {
                vars_chirho: vec![TyVarChirho(3421), TyVarChirho(3422)],
                preds_chirho: vec![],
                ty_chirho: TyChirho::fun_chirho(e_chirho, TyChirho::io_chirho(a_chirho)),
            },
        );
    }
    // catchE :: IO a -> (e -> IO a) -> IO a
    {
        let a_chirho = TyChirho::var_chirho(TyVarChirho(3423));
        let e_chirho = TyChirho::var_chirho(TyVarChirho(3424));
        env_chirho.bind_chirho(
            "catchE".to_string(),
            SchemeChirho {
                vars_chirho: vec![TyVarChirho(3423), TyVarChirho(3424)],
                preds_chirho: vec![],
                ty_chirho: TyChirho::fun_chirho(
                    TyChirho::io_chirho(a_chirho.copy_chirho()),
                    TyChirho::fun_chirho(
                        TyChirho::fun_chirho(e_chirho, TyChirho::io_chirho(a_chirho.copy_chirho())),
                        TyChirho::io_chirho(a_chirho),
                    ),
                ),
            },
        );
    }
    // runWriterT :: IO a -> IO (a, [w])
    {
        let a_chirho = TyChirho::var_chirho(TyVarChirho(3430));
        env_chirho.bind_chirho(
            "runWriterT".to_string(),
            SchemeChirho {
                vars_chirho: vec![TyVarChirho(3430)],
                preds_chirho: vec![],
                ty_chirho: TyChirho::fun_chirho(
                    TyChirho::io_chirho(a_chirho.copy_chirho()),
                    TyChirho::io_chirho(a_chirho),
                ),
            },
        );
    }
    // tell :: w -> IO ()
    {
        let w_chirho = TyChirho::var_chirho(TyVarChirho(3431));
        env_chirho.bind_chirho(
            "tell".to_string(),
            SchemeChirho {
                vars_chirho: vec![TyVarChirho(3431)],
                preds_chirho: vec![],
                ty_chirho: TyChirho::fun_chirho(w_chirho, TyChirho::io_chirho(TyChirho::unit_chirho())),
            },
        );
    }
    // runMaybeT :: IO a -> IO a  (simplified; wraps in Maybe at runtime)
    {
        let a_chirho = TyChirho::var_chirho(TyVarChirho(3440));
        env_chirho.bind_chirho(
            "runMaybeT".to_string(),
            SchemeChirho {
                vars_chirho: vec![TyVarChirho(3440)],
                preds_chirho: vec![],
                ty_chirho: TyChirho::fun_chirho(
                    TyChirho::io_chirho(a_chirho.copy_chirho()),
                    TyChirho::io_chirho(a_chirho),
                ),
            },
        );
    }
    proof {
        assert(env_chirho.map() =~~= before.union_prefer_right(builtin_schemes_6()));
    }
}

fn seed_builtins_part_7_chirho(env_chirho: &mut TyEnvChirho)
    ensures
        final(env_chirho).map() == old(env_chirho).map().union_prefer_right(builtin_schemes_7()),
{
    let ghost before = old(env_chirho).map();
    // ── Data.Map operations ──
    // mapEmpty :: Map k v  (simplified as Int)
    env_chirho.bind_chirho(
        "mapEmpty".to_string(),
        SchemeChirho::mono_chirho(TyChirho::int_chirho()),
    );
    // mapSingleton :: k -> v -> Map k v
    {
        let k_chirho = TyChirho::var_chirho(TyVarChirho(3210));
        let v_chirho = TyChirho::var_chirho(TyVarChirho(3211));
        env_chirho.bind_chirho(
            "mapSingleton".to_string(),
            SchemeChirho {
                vars_chirho: vec![TyVarChirho(3210), TyVarChirho(3211)],
                preds_chirho: vec![],
                ty_chirho: TyChirho::fun_chirho(
                    k_chirho,
                    TyChirho::fun_chirho(v_chirho, TyChirho::int_chirho()),
                ),
            },
        );
    }
    // mapInsert :: Ord k => k -> v -> Map k v -> Map k v
    {
        let k_chirho = TyVarChirho(3212);
        let v_chirho = TyVarChirho(3800);
        env_chirho.bind_chirho(
            "mapInsert".to_string(),
            SchemeChirho {
                vars_chirho: vec![k_chirho, v_chirho],
                preds_chirho: vec![
                    SchemePredChirho {
                        class_name_chirho: "Ord".to_string(),
                        ty_chirho: TyChirho::var_chirho(k_chirho),
                    },
                ],
                ty_chirho: TyChirho::fun_chirho(
                    TyChirho::var_chirho(k_chirho),
                    TyChirho::fun_chirho(
                        TyChirho::var_chirho(v_chirho),
                        TyChirho::fun_chirho(TyChirho::int_chirho(), TyChirho::int_chirho()),
                    ),
                ),
            },
        );
    }
    // mapLookup :: Ord k => k -> Map k v -> Maybe v
    {
        let k_chirho = TyVarChirho(3801);
        let v_chirho = TyVarChirho(3213);
        env_chirho.bind_chirho(
            "mapLookup".to_string(),
            SchemeChirho {
                vars_chirho: vec![k_chirho, v_chirho],
                preds_chirho: vec![
                    SchemePredChirho {
                        class_name_chirho: "Ord".to_string(),
                        ty_chirho: TyChirho::var_chirho(k_chirho),
                    },
                ],
                ty_chirho: TyChirho::fun_chirho(
                    TyChirho::var_chirho(k_chirho),
                    TyChirho::fun_chirho(TyChirho::int_chirho(), TyChirho::var_chirho(v_chirho)),
                ),
            },
        );
    }
    // mapSize :: Map k v -> Int
    env_chirho.bind_chirho(
        "mapSize".to_string(),
        SchemeChirho::mono_chirho(
            TyChirho::fun_chirho(TyChirho::int_chirho(), TyChirho::int_chirho()),
        ),
    );
    // mapMember :: Ord k => k -> Map k v -> Bool
    {
        let k_chirho = TyVarChirho(3802);
        env_chirho.bind_chirho(
            "mapMember".to_string(),
            SchemeChirho {
                vars_chirho: vec![k_chirho],
                preds_chirho: vec![
                    SchemePredChirho {
                        class_name_chirho: "Ord".to_string(),
                        ty_chirho: TyChirho::var_chirho(k_chirho),
                    },
                ],
                ty_chirho: TyChirho::fun_chirho(
                    TyChirho::var_chirho(k_chirho),
                    TyChirho::fun_chirho(TyChirho::int_chirho(), TyChirho::bool_chirho()),
                ),
            },
        );
    }
    // mapFromList :: Ord k => [(k, v)] -> Map k v
    {
        let k_chirho = TyVarChirho(3803);
        let v_chirho = TyVarChirho(3214);
        env_chirho.bind_chirho(
            "mapFromList".to_string(),
            SchemeChirho {
                vars_chirho: vec![k_chirho, v_chirho],
                preds_chirho: vec![
                    SchemePredChirho {
                        class_name_chirho: "Ord".to_string(),
                        ty_chirho: TyChirho::var_chirho(k_chirho),
                    },
                ],
                ty_chirho: TyChirho::fun_chirho(
                    TyChirho::list_chirho(
                        TyChirho::pair_chirho(
                            TyChirho::var_chirho(k_chirho),
                            TyChirho::var_chirho(v_chirho),
                        ),
                    ),
                    TyChirho::int_chirho(),
                ),
            },
        );
    }
    // mapDelete :: Ord k => k -> Map k v -> Map k v
    {
        let k_chirho = TyVarChirho(3804);
        env_chirho.bind_chirho(
            "mapDelete".to_string(),
            SchemeChirho {
                vars_chirho: vec![k_chirho],
                preds_chirho: vec![
                    SchemePredChirho {
                        class_name_chirho: "Ord".to_string(),
                        ty_chirho: TyChirho::var_chirho(k_chirho),
                    },
                ],
                ty_chirho: TyChirho::fun_chirho(
                    TyChirho::var_chirho(k_chirho),
                    TyChirho::fun_chirho(TyChirho::int_chirho(), TyChirho::int_chirho()),
                ),
            },
        );
    }
    // mapToList :: Map -> [(Int, v)]
    {
        let v_chirho = TyChirho::var_chirho(TyVarChirho(3220));
        env_chirho.bind_chirho(
            "mapToList".to_string(),
            SchemeChirho {
                vars_chirho: vec![TyVarChirho(3220)],
                preds_chirho: vec![],
                ty_chirho: TyChirho::fun_chirho(
                    TyChirho::int_chirho(),
                    TyChirho::list_chirho(TyChirho::pair_chirho(TyChirho::int_chirho(), v_chirho)),
                ),
            },
        );
    }
    // mapKeys :: Map -> [Int]
    env_chirho.bind_chirho(
        "mapKeys".to_string(),
        SchemeChirho::mono_chirho(
            TyChirho::fun_chirho(
                TyChirho::int_chirho(),
                TyChirho::list_chirho(TyChirho::int_chirho()),
            ),
        ),
    );
    // mapElems :: Map -> [v]
    {
        let v_chirho = TyChirho::var_chirho(TyVarChirho(3222));
        env_chirho.bind_chirho(
            "mapElems".to_string(),
            SchemeChirho {
                vars_chirho: vec![TyVarChirho(3222)],
                preds_chirho: vec![],
                ty_chirho: TyChirho::fun_chirho(TyChirho::int_chirho(), TyChirho::list_chirho(v_chirho)),
            },
        );
    }
    // mapNull :: Map -> Bool
    env_chirho.bind_chirho(
        "mapNull".to_string(),
        SchemeChirho::mono_chirho(
            TyChirho::fun_chirho(TyChirho::int_chirho(), TyChirho::bool_chirho()),
        ),
    );
    // mapMap :: (v -> w) -> Map -> Map
    {
        let v_chirho = TyChirho::var_chirho(TyVarChirho(3224));
        let w_chirho = TyChirho::var_chirho(TyVarChirho(3225));
        env_chirho.bind_chirho(
            "mapMap".to_string(),
            SchemeChirho {
                vars_chirho: vec![TyVarChirho(3224), TyVarChirho(3225)],
                preds_chirho: vec![],
                ty_chirho: TyChirho::fun_chirho(
                    TyChirho::fun_chirho(v_chirho, w_chirho),
                    TyChirho::fun_chirho(TyChirho::int_chirho(), TyChirho::int_chirho()),
                ),
            },
        );
    }
    // mapFoldlWithKey :: (b -> Int -> v -> b) -> b -> Map -> b
    {
        let b_chirho = TyChirho::var_chirho(TyVarChirho(3226));
        let v_chirho = TyChirho::var_chirho(TyVarChirho(3227));
        env_chirho.bind_chirho(
            "mapFoldlWithKey".to_string(),
            SchemeChirho {
                vars_chirho: vec![TyVarChirho(3226), TyVarChirho(3227)],
                preds_chirho: vec![],
                ty_chirho: TyChirho::fun_chirho(
                    TyChirho::fun_chirho(
                        b_chirho.copy_chirho(),
                        TyChirho::fun_chirho(
                            TyChirho::int_chirho(),
                            TyChirho::fun_chirho(v_chirho, b_chirho.copy_chirho()),
                        ),
                    ),
                    TyChirho::fun_chirho(
                        b_chirho.copy_chirho(),
                        TyChirho::fun_chirho(TyChirho::int_chirho(), b_chirho),
                    ),
                ),
            },
        );
    }
    // mapFoldrWithKey :: (k -> v -> b -> b) -> b -> Map k v -> b
    {
        let b_chirho = TyChirho::var_chirho(TyVarChirho(3840));
        let v_chirho = TyChirho::var_chirho(TyVarChirho(3841));
        env_chirho.bind_chirho(
            "mapFoldrWithKey".to_string(),
            SchemeChirho {
                vars_chirho: vec![TyVarChirho(3840), TyVarChirho(3841)],
                preds_chirho: vec![],
                ty_chirho: TyChirho::fun_chirho(
                    TyChirho::fun_chirho(
                        TyChirho::int_chirho(),
                        TyChirho::fun_chirho(
                            v_chirho,
                            TyChirho::fun_chirho(b_chirho.copy_chirho(), b_chirho.copy_chirho()),
                        ),
                    ),
                    TyChirho::fun_chirho(
                        b_chirho.copy_chirho(),
                        TyChirho::fun_chirho(TyChirho::int_chirho(), b_chirho),
                    ),
                ),
            },
        );
    }
    // mapFoldlWithKey' :: (b -> k -> v -> b) -> b -> Map k v -> b
    // Strict variant — same signature as mapFoldlWithKey in our strict runtime.
    {
        let b_chirho = TyChirho::var_chirho(TyVarChirho(3845));
        let v_chirho = TyChirho::var_chirho(TyVarChirho(3846));
        env_chirho.bind_chirho(
            "mapFoldlWithKey'".to_string(),
            SchemeChirho {
                vars_chirho: vec![TyVarChirho(3845), TyVarChirho(3846)],
                preds_chirho: vec![],
                ty_chirho: TyChirho::fun_chirho(
                    TyChirho::fun_chirho(
                        b_chirho.copy_chirho(),
                        TyChirho::fun_chirho(
                            TyChirho::int_chirho(),
                            TyChirho::fun_chirho(v_chirho, b_chirho.copy_chirho()),
                        ),
                    ),
                    TyChirho::fun_chirho(
                        b_chirho.copy_chirho(),
                        TyChirho::fun_chirho(TyChirho::int_chirho(), b_chirho),
                    ),
                ),
            },
        );
    }
    // mapInsertWith :: Ord k => (v -> v -> v) -> k -> v -> Map k v -> Map k v
    {
        let k_chirho = TyVarChirho(3805);
        let v_chirho = TyChirho::var_chirho(TyVarChirho(3230));
        env_chirho.bind_chirho(
            "mapInsertWith".to_string(),
            SchemeChirho {
                vars_chirho: vec![k_chirho, TyVarChirho(3230)],
                preds_chirho: vec![
                    SchemePredChirho {
                        class_name_chirho: "Ord".to_string(),
                        ty_chirho: TyChirho::var_chirho(k_chirho),
                    },
                ],
                ty_chirho: TyChirho::fun_chirho(
                    TyChirho::fun_chirho(
                        v_chirho.copy_chirho(),
                        TyChirho::fun_chirho(v_chirho.copy_chirho(), v_chirho.copy_chirho()),
                    ),
                    TyChirho::fun_chirho(
                        TyChirho::var_chirho(k_chirho),
                        TyChirho::fun_chirho(
                            v_chirho,
                            TyChirho::fun_chirho(TyChirho::int_chirho(), TyChirho::int_chirho()),
                        ),
                    ),
                ),
            },
        );
    }
    // mapFindWithDefault :: Ord k => v -> k -> Map k v -> v
    {
        let k_chirho = TyVarChirho(3806);
        let v_chirho = TyChirho::var_chirho(TyVarChirho(3231));
        env_chirho.bind_chirho(
            "mapFindWithDefault".to_string(),
            SchemeChirho {
                vars_chirho: vec![k_chirho, TyVarChirho(3231)],
                preds_chirho: vec![
                    SchemePredChirho {
                        class_name_chirho: "Ord".to_string(),
                        ty_chirho: TyChirho::var_chirho(k_chirho),
                    },
                ],
                ty_chirho: TyChirho::fun_chirho(
                    v_chirho.copy_chirho(),
                    TyChirho::fun_chirho(
                        TyChirho::var_chirho(k_chirho),
                        TyChirho::fun_chirho(TyChirho::int_chirho(), v_chirho),
                    ),
                ),
            },
        );
    }
    // mapAdjust :: Ord k => (v -> v) -> k -> Map k v -> Map k v
    {
        let k_chirho = TyVarChirho(3807);
        let v_chirho = TyChirho::var_chirho(TyVarChirho(3232));
        env_chirho.bind_chirho(
            "mapAdjust".to_string(),
            SchemeChirho {
                vars_chirho: vec![k_chirho, TyVarChirho(3232)],
                preds_chirho: vec![
                    SchemePredChirho {
                        class_name_chirho: "Ord".to_string(),
                        ty_chirho: TyChirho::var_chirho(k_chirho),
                    },
                ],
                ty_chirho: TyChirho::fun_chirho(
                    TyChirho::fun_chirho(v_chirho.copy_chirho(), v_chirho),
                    TyChirho::fun_chirho(
                        TyChirho::var_chirho(k_chirho),
                        TyChirho::fun_chirho(TyChirho::int_chirho(), TyChirho::int_chirho()),
                    ),
                ),
            },
        );
    }
    // mapUnionWith :: (v -> v -> v) -> Map -> Map -> Map
    {
        let v_chirho = TyChirho::var_chirho(TyVarChirho(3233));
        env_chirho.bind_chirho(
            "mapUnionWith".to_string(),
            SchemeChirho {
                vars_chirho: vec![TyVarChirho(3233)],
                preds_chirho: vec![],
                ty_chirho: TyChirho::fun_chirho(
                    TyChirho::fun_chirho(
                        v_chirho.copy_chirho(),
                        TyChirho::fun_chirho(v_chirho.copy_chirho(), v_chirho),
                    ),
                    TyChirho::fun_chirho(
                        TyChirho::int_chirho(),
                        TyChirho::fun_chirho(TyChirho::int_chirho(), TyChirho::int_chirho()),
                    ),
                ),
            },
        );
    }
    proof {
        assert(env_chirho.map() =~~= before.union_prefer_right(builtin_schemes_7()));
    }
}

fn seed_builtins_part_8_chirho(env_chirho: &mut TyEnvChirho)
    ensures
        final(env_chirho).map() == old(env_chirho).map().union_prefer_right(builtin_schemes_8()),
{
    let ghost before = old(env_chirho).map();
    // mapUnion :: Map -> Map -> Map
    env_chirho.bind_chirho(
        "mapUnion".to_string(),
        SchemeChirho::mono_chirho(
            TyChirho::fun_chirho(
                TyChirho::int_chirho(),
                TyChirho::fun_chirho(TyChirho::int_chirho(), TyChirho::int_chirho()),
            ),
        ),
    );
    // mapDifference :: Map -> Map -> Map
    env_chirho.bind_chirho(
        "mapDifference".to_string(),
        SchemeChirho::mono_chirho(
            TyChirho::fun_chirho(
                TyChirho::int_chirho(),
                TyChirho::fun_chirho(TyChirho::int_chirho(), TyChirho::int_chirho()),
            ),
        ),
    );
    // mapIntersectionWith :: (v -> v -> v) -> Map -> Map -> Map
    {
        let v_chirho = TyChirho::var_chirho(TyVarChirho(3234));
        env_chirho.bind_chirho(
            "mapIntersectionWith".to_string(),
            SchemeChirho {
                vars_chirho: vec![TyVarChirho(3234)],
                preds_chirho: vec![],
                ty_chirho: TyChirho::fun_chirho(
                    TyChirho::fun_chirho(
                        v_chirho.copy_chirho(),
                        TyChirho::fun_chirho(v_chirho.copy_chirho(), v_chirho),
                    ),
                    TyChirho::fun_chirho(
                        TyChirho::int_chirho(),
                        TyChirho::fun_chirho(TyChirho::int_chirho(), TyChirho::int_chirho()),
                    ),
                ),
            },
        );
    }
    // mapFilter :: (v -> Bool) -> Map -> Map
    {
        let v_chirho = TyChirho::var_chirho(TyVarChirho(3235));
        env_chirho.bind_chirho(
            "mapFilter".to_string(),
            SchemeChirho {
                vars_chirho: vec![TyVarChirho(3235)],
                preds_chirho: vec![],
                ty_chirho: TyChirho::fun_chirho(
                    TyChirho::fun_chirho(v_chirho, TyChirho::bool_chirho()),
                    TyChirho::fun_chirho(TyChirho::int_chirho(), TyChirho::int_chirho()),
                ),
            },
        );
    }
    // setEmpty :: Set Int  (represented as Int placeholder)
    env_chirho.bind_chirho(
        "setEmpty".to_string(),
        SchemeChirho::mono_chirho(TyChirho::int_chirho()),
    );
    // setSingleton :: Int -> Set Int
    env_chirho.bind_chirho(
        "setSingleton".to_string(),
        SchemeChirho::mono_chirho(
            TyChirho::fun_chirho(TyChirho::int_chirho(), TyChirho::int_chirho()),
        ),
    );
    // setInsert :: Int -> Set Int -> Set Int
    env_chirho.bind_chirho(
        "setInsert".to_string(),
        SchemeChirho::mono_chirho(
            TyChirho::fun_chirho(
                TyChirho::int_chirho(),
                TyChirho::fun_chirho(TyChirho::int_chirho(), TyChirho::int_chirho()),
            ),
        ),
    );
    // setMember :: Int -> Set Int -> Bool
    env_chirho.bind_chirho(
        "setMember".to_string(),
        SchemeChirho::mono_chirho(
            TyChirho::fun_chirho(
                TyChirho::int_chirho(),
                TyChirho::fun_chirho(TyChirho::int_chirho(), TyChirho::bool_chirho()),
            ),
        ),
    );
    // setSize :: Set Int -> Int
    env_chirho.bind_chirho(
        "setSize".to_string(),
        SchemeChirho::mono_chirho(
            TyChirho::fun_chirho(TyChirho::int_chirho(), TyChirho::int_chirho()),
        ),
    );
    // setToList :: Set Int -> [Int]
    env_chirho.bind_chirho(
        "setToList".to_string(),
        SchemeChirho::mono_chirho(
            TyChirho::fun_chirho(
                TyChirho::int_chirho(),
                TyChirho::list_chirho(TyChirho::int_chirho()),
            ),
        ),
    );
    // setFromList :: [Int] -> Set Int
    env_chirho.bind_chirho(
        "setFromList".to_string(),
        SchemeChirho::mono_chirho(
            TyChirho::fun_chirho(
                TyChirho::list_chirho(TyChirho::int_chirho()),
                TyChirho::int_chirho(),
            ),
        ),
    );
    // setDelete :: Int -> Set Int -> Set Int
    env_chirho.bind_chirho(
        "setDelete".to_string(),
        SchemeChirho::mono_chirho(
            TyChirho::fun_chirho(
                TyChirho::int_chirho(),
                TyChirho::fun_chirho(TyChirho::int_chirho(), TyChirho::int_chirho()),
            ),
        ),
    );
    // setUnion :: Set Int -> Set Int -> Set Int
    env_chirho.bind_chirho(
        "setUnion".to_string(),
        SchemeChirho::mono_chirho(
            TyChirho::fun_chirho(
                TyChirho::int_chirho(),
                TyChirho::fun_chirho(TyChirho::int_chirho(), TyChirho::int_chirho()),
            ),
        ),
    );
    // setIntersection :: Set Int -> Set Int -> Set Int
    env_chirho.bind_chirho(
        "setIntersection".to_string(),
        SchemeChirho::mono_chirho(
            TyChirho::fun_chirho(
                TyChirho::int_chirho(),
                TyChirho::fun_chirho(TyChirho::int_chirho(), TyChirho::int_chirho()),
            ),
        ),
    );
    // setDifference :: Set Int -> Set Int -> Set Int
    env_chirho.bind_chirho(
        "setDifference".to_string(),
        SchemeChirho::mono_chirho(
            TyChirho::fun_chirho(
                TyChirho::int_chirho(),
                TyChirho::fun_chirho(TyChirho::int_chirho(), TyChirho::int_chirho()),
            ),
        ),
    );
    // setFilter :: (Int -> Bool) -> Set Int -> Set Int
    env_chirho.bind_chirho(
        "setFilter".to_string(),
        SchemeChirho::mono_chirho(
            TyChirho::fun_chirho(
                TyChirho::fun_chirho(TyChirho::int_chirho(), TyChirho::bool_chirho()),
                TyChirho::fun_chirho(TyChirho::int_chirho(), TyChirho::int_chirho()),
            ),
        ),
    );
    // setMap :: (Int -> Int) -> Set Int -> Set Int
    env_chirho.bind_chirho(
        "setMap".to_string(),
        SchemeChirho::mono_chirho(
            TyChirho::fun_chirho(
                TyChirho::fun_chirho(TyChirho::int_chirho(), TyChirho::int_chirho()),
                TyChirho::fun_chirho(TyChirho::int_chirho(), TyChirho::int_chirho()),
            ),
        ),
    );
    // setFold :: (Int -> b -> b) -> b -> Set Int -> b
    {
        let b_chirho = TyChirho::var_chirho(TyVarChirho(3230));
        env_chirho.bind_chirho(
            "setFold".to_string(),
            SchemeChirho {
                vars_chirho: vec![TyVarChirho(3230)],
                preds_chirho: vec![],
                ty_chirho: TyChirho::fun_chirho(
                    TyChirho::fun_chirho(
                        TyChirho::int_chirho(),
                        TyChirho::fun_chirho(b_chirho.copy_chirho(), b_chirho.copy_chirho()),
                    ),
                    TyChirho::fun_chirho(
                        b_chirho.copy_chirho(),
                        TyChirho::fun_chirho(TyChirho::int_chirho(), b_chirho),
                    ),
                ),
            },
        );
    }
    // setFoldr :: (Int -> b -> b) -> b -> Set Int -> b (alias for setFold)
    {
        let b_chirho = TyChirho::var_chirho(TyVarChirho(3231));
        env_chirho.bind_chirho(
            "setFoldr".to_string(),
            SchemeChirho {
                vars_chirho: vec![TyVarChirho(3231)],
                preds_chirho: vec![],
                ty_chirho: TyChirho::fun_chirho(
                    TyChirho::fun_chirho(
                        TyChirho::int_chirho(),
                        TyChirho::fun_chirho(b_chirho.copy_chirho(), b_chirho.copy_chirho()),
                    ),
                    TyChirho::fun_chirho(
                        b_chirho.copy_chirho(),
                        TyChirho::fun_chirho(TyChirho::int_chirho(), b_chirho),
                    ),
                ),
            },
        );
    }
    // when :: Bool -> IO () -> IO ()
    env_chirho.bind_chirho(
        "when".to_string(),
        SchemeChirho::mono_chirho(
            TyChirho::fun_chirho(
                TyChirho::bool_chirho(),
                TyChirho::fun_chirho(
                    TyChirho::io_chirho(TyChirho::unit_chirho()),
                    TyChirho::io_chirho(TyChirho::unit_chirho()),
                ),
            ),
        ),
    );
    proof {
        assert(env_chirho.map() =~~= before.union_prefer_right(builtin_schemes_8()));
    }
}

fn seed_builtins_part_9_chirho(env_chirho: &mut TyEnvChirho)
    ensures
        final(env_chirho).map() == old(env_chirho).map().union_prefer_right(builtin_schemes_9()),
{
    let ghost before = old(env_chirho).map();
    // unless :: Bool -> IO () -> IO ()
    env_chirho.bind_chirho(
        "unless".to_string(),
        SchemeChirho::mono_chirho(
            TyChirho::fun_chirho(
                TyChirho::bool_chirho(),
                TyChirho::fun_chirho(
                    TyChirho::io_chirho(TyChirho::unit_chirho()),
                    TyChirho::io_chirho(TyChirho::unit_chirho()),
                ),
            ),
        ),
    );
    // mapM_ :: forall a. (a -> IO ()) -> [a] -> IO ()
    let mapm_a_chirho = TyVarChirho(3500);
    env_chirho.bind_chirho(
        "mapM_".to_string(),
        SchemeChirho {
            vars_chirho: vec![mapm_a_chirho],
            preds_chirho: vec![],
            ty_chirho: TyChirho::fun_chirho(
                TyChirho::fun_chirho(
                    TyChirho::var_chirho(mapm_a_chirho),
                    TyChirho::io_chirho(TyChirho::unit_chirho()),
                ),
                TyChirho::fun_chirho(
                    TyChirho::list_chirho(TyChirho::var_chirho(mapm_a_chirho)),
                    TyChirho::io_chirho(TyChirho::unit_chirho()),
                ),
            ),
        },
    );
    // forM_ :: forall a. [a] -> (a -> IO ()) -> IO ()
    let form_a_chirho = TyVarChirho(3501);
    env_chirho.bind_chirho(
        "forM_".to_string(),
        SchemeChirho {
            vars_chirho: vec![form_a_chirho],
            preds_chirho: vec![],
            ty_chirho: TyChirho::fun_chirho(
                TyChirho::list_chirho(TyChirho::var_chirho(form_a_chirho)),
                TyChirho::fun_chirho(
                    TyChirho::fun_chirho(
                        TyChirho::var_chirho(form_a_chirho),
                        TyChirho::io_chirho(TyChirho::unit_chirho()),
                    ),
                    TyChirho::io_chirho(TyChirho::unit_chirho()),
                ),
            ),
        },
    );
    // putChar :: Char -> IO ()
    env_chirho.bind_chirho(
        "putChar".to_string(),
        SchemeChirho::mono_chirho(
            TyChirho::fun_chirho(
                TyChirho::char_chirho(),
                TyChirho::io_chirho(TyChirho::unit_chirho()),
            ),
        ),
    );
    // sequence_ :: [IO ()] -> IO ()
    env_chirho.bind_chirho(
        "sequence_".to_string(),
        SchemeChirho::mono_chirho(
            TyChirho::fun_chirho(
                TyChirho::list_chirho(TyChirho::io_chirho(TyChirho::unit_chirho())),
                TyChirho::io_chirho(TyChirho::unit_chirho()),
            ),
        ),
    );
    // void :: forall a. IO a -> IO ()
    let void_a_chirho = TyVarChirho(3510);
    env_chirho.bind_chirho(
        "void".to_string(),
        SchemeChirho {
            vars_chirho: vec![void_a_chirho],
            preds_chirho: vec![],
            ty_chirho: TyChirho::fun_chirho(
                TyChirho::io_chirho(TyChirho::var_chirho(void_a_chirho)),
                TyChirho::io_chirho(TyChirho::unit_chirho()),
            ),
        },
    );
    // guard :: Bool -> IO ()
    env_chirho.bind_chirho(
        "guard".to_string(),
        SchemeChirho::mono_chirho(
            TyChirho::fun_chirho(
                TyChirho::bool_chirho(),
                TyChirho::io_chirho(TyChirho::unit_chirho()),
            ),
        ),
    );
    // interact :: (String -> String) -> IO ()
    env_chirho.bind_chirho(
        "interact".to_string(),
        SchemeChirho::mono_chirho(
            TyChirho::fun_chirho(
                TyChirho::fun_chirho(TyChirho::string_chirho(), TyChirho::string_chirho()),
                TyChirho::io_chirho(TyChirho::unit_chirho()),
            ),
        ),
    );
    // lines :: String -> [String]
    env_chirho.bind_chirho(
        "lines".to_string(),
        SchemeChirho::mono_chirho(
            TyChirho::fun_chirho(
                TyChirho::string_chirho(),
                TyChirho::list_chirho(TyChirho::string_chirho()),
            ),
        ),
    );
    // unlines :: [String] -> String
    env_chirho.bind_chirho(
        "unlines".to_string(),
        SchemeChirho::mono_chirho(
            TyChirho::fun_chirho(
                TyChirho::list_chirho(TyChirho::string_chirho()),
                TyChirho::string_chirho(),
            ),
        ),
    );
    // error :: forall a. String -> a
    let error_v_chirho = TyVarChirho(3400);
    env_chirho.bind_chirho(
        "error".to_string(),
        SchemeChirho {
            vars_chirho: vec![error_v_chirho],
            preds_chirho: vec![],
            ty_chirho: TyChirho::fun_chirho(TyChirho::string_chirho(), TyChirho::var_chirho(error_v_chirho)),
        },
    );
    // undefined :: forall a. a
    let undef_v_chirho = TyVarChirho(3401);
    env_chirho.bind_chirho(
        "undefined".to_string(),
        SchemeChirho {
            vars_chirho: vec![undef_v_chirho],
            preds_chirho: vec![],
            ty_chirho: TyChirho::var_chirho(undef_v_chirho),
        },
    );
    // seq :: forall a b. a -> b -> b
    let seq_a_chirho = TyVarChirho(3402);
    let seq_b_chirho = TyVarChirho(3403);
    env_chirho.bind_chirho(
        "seq".to_string(),
        SchemeChirho {
            vars_chirho: vec![seq_a_chirho, seq_b_chirho],
            preds_chirho: vec![],
            ty_chirho: TyChirho::fun_chirho(
                TyChirho::var_chirho(seq_a_chirho),
                TyChirho::fun_chirho(
                    TyChirho::var_chirho(seq_b_chirho),
                    TyChirho::var_chirho(seq_b_chirho),
                ),
            ),
        },
    );
    // -----------------------------------------------------------------------
    // NFData / deepseq / force / evaluate
    // -----------------------------------------------------------------------
    // deepseq :: forall a b. NFData a => a -> b -> b
    let ds_a_chirho = TyVarChirho(3410);
    let ds_b_chirho = TyVarChirho(3411);
    env_chirho.bind_chirho(
        "deepseq".to_string(),
        SchemeChirho {
            vars_chirho: vec![ds_a_chirho, ds_b_chirho],
            preds_chirho: vec![
                SchemePredChirho {
                    class_name_chirho: "NFData".to_string(),
                    ty_chirho: TyChirho::var_chirho(ds_a_chirho),
                },
            ],
            ty_chirho: TyChirho::fun_chirho(
                TyChirho::var_chirho(ds_a_chirho),
                TyChirho::fun_chirho(
                    TyChirho::var_chirho(ds_b_chirho),
                    TyChirho::var_chirho(ds_b_chirho),
                ),
            ),
        },
    );
    // force :: forall a. NFData a => a -> a
    let force_a_chirho = TyVarChirho(3412);
    env_chirho.bind_chirho(
        "force".to_string(),
        SchemeChirho {
            vars_chirho: vec![force_a_chirho],
            preds_chirho: vec![
                SchemePredChirho {
                    class_name_chirho: "NFData".to_string(),
                    ty_chirho: TyChirho::var_chirho(force_a_chirho),
                },
            ],
            ty_chirho: TyChirho::fun_chirho(
                TyChirho::var_chirho(force_a_chirho),
                TyChirho::var_chirho(force_a_chirho),
            ),
        },
    );
    // evaluate :: forall a. a -> IO a
    let eval_a_chirho = TyVarChirho(3413);
    env_chirho.bind_chirho(
        "evaluate".to_string(),
        SchemeChirho {
            vars_chirho: vec![eval_a_chirho],
            preds_chirho: vec![],
            ty_chirho: TyChirho::fun_chirho(
                TyChirho::var_chirho(eval_a_chirho),
                TyChirho::app_chirho(
                    TyChirho::con_chirho("IO".to_string()),
                    TyChirho::var_chirho(eval_a_chirho),
                ),
            ),
        },
    );
    // rnf :: forall a. NFData a => a -> ()
    let rnf_a_chirho = TyVarChirho(3414);
    env_chirho.bind_chirho(
        "rnf".to_string(),
        SchemeChirho {
            vars_chirho: vec![rnf_a_chirho],
            preds_chirho: vec![
                SchemePredChirho {
                    class_name_chirho: "NFData".to_string(),
                    ty_chirho: TyChirho::var_chirho(rnf_a_chirho),
                },
            ],
            ty_chirho: TyChirho::fun_chirho(TyChirho::var_chirho(rnf_a_chirho), TyChirho::unit_chirho()),
        },
    );
    // -----------------------------------------------------------------------
    // Semigroup / Monoid
    // -----------------------------------------------------------------------
    // (<>) :: forall a. Semigroup a => a -> a -> a
    let sg_v_chirho = TyVarChirho(3600);
    env_chirho.bind_chirho(
        "<>".to_string(),
        SchemeChirho {
            vars_chirho: vec![sg_v_chirho],
            preds_chirho: vec![
                SchemePredChirho {
                    class_name_chirho: "Semigroup".to_string(),
                    ty_chirho: TyChirho::var_chirho(sg_v_chirho),
                },
            ],
            ty_chirho: TyChirho::fun_chirho(
                TyChirho::var_chirho(sg_v_chirho),
                TyChirho::fun_chirho(
                    TyChirho::var_chirho(sg_v_chirho),
                    TyChirho::var_chirho(sg_v_chirho),
                ),
            ),
        },
    );
    // mempty :: forall a. Monoid a => a
    let mon_v_chirho = TyVarChirho(3601);
    env_chirho.bind_chirho(
        "mempty".to_string(),
        SchemeChirho {
            vars_chirho: vec![mon_v_chirho],
            preds_chirho: vec![
                SchemePredChirho {
                    class_name_chirho: "Monoid".to_string(),
                    ty_chirho: TyChirho::var_chirho(mon_v_chirho),
                },
            ],
            ty_chirho: TyChirho::var_chirho(mon_v_chirho),
        },
    );
    // mconcat :: forall a. Monoid a => [a] -> a
    let mc_v_chirho = TyVarChirho(3602);
    env_chirho.bind_chirho(
        "mconcat".to_string(),
        SchemeChirho {
            vars_chirho: vec![mc_v_chirho],
            preds_chirho: vec![
                SchemePredChirho {
                    class_name_chirho: "Monoid".to_string(),
                    ty_chirho: TyChirho::var_chirho(mc_v_chirho),
                },
            ],
            ty_chirho: TyChirho::fun_chirho(
                TyChirho::list_chirho(TyChirho::var_chirho(mc_v_chirho)),
                TyChirho::var_chirho(mc_v_chirho),
            ),
        },
    );
    proof {
        assert(env_chirho.map() =~~= before.union_prefer_right(builtin_schemes_9()));
    }
}

fn seed_builtins_part_10_chirho(env_chirho: &mut TyEnvChirho)
    ensures
        final(env_chirho).map() == old(env_chirho).map().union_prefer_right(builtin_schemes_10()),
{
    let ghost before = old(env_chirho).map();
    // -----------------------------------------------------------------------
    // Higher-order *By list Prelude functions
    // -----------------------------------------------------------------------
    // sortBy :: forall a. (a -> a -> Ordering) -> [a] -> [a]
    {
        let sb_a_chirho = TyVarChirho(3700);
        let ordering_chirho = TyChirho::con_chirho("Ordering".to_string());
        env_chirho.bind_chirho(
            "sortBy".to_string(),
            SchemeChirho {
                vars_chirho: vec![sb_a_chirho],
                preds_chirho: vec![],
                ty_chirho: TyChirho::fun_chirho(
                    TyChirho::fun_chirho(
                        TyChirho::var_chirho(sb_a_chirho),
                        TyChirho::fun_chirho(
                            TyChirho::var_chirho(sb_a_chirho),
                            ordering_chirho.copy_chirho(),
                        ),
                    ),
                    TyChirho::fun_chirho(
                        TyChirho::list_chirho(TyChirho::var_chirho(sb_a_chirho)),
                        TyChirho::list_chirho(TyChirho::var_chirho(sb_a_chirho)),
                    ),
                ),
            },
        );
    }
    // insertBy :: forall a. (a -> a -> Ordering) -> a -> [a] -> [a]
    {
        let ib_a_chirho = TyVarChirho(3701);
        let ordering_chirho = TyChirho::con_chirho("Ordering".to_string());
        env_chirho.bind_chirho(
            "insertBy".to_string(),
            SchemeChirho {
                vars_chirho: vec![ib_a_chirho],
                preds_chirho: vec![],
                ty_chirho: TyChirho::fun_chirho(
                    TyChirho::fun_chirho(
                        TyChirho::var_chirho(ib_a_chirho),
                        TyChirho::fun_chirho(TyChirho::var_chirho(ib_a_chirho), ordering_chirho),
                    ),
                    TyChirho::fun_chirho(
                        TyChirho::var_chirho(ib_a_chirho),
                        TyChirho::fun_chirho(
                            TyChirho::list_chirho(TyChirho::var_chirho(ib_a_chirho)),
                            TyChirho::list_chirho(TyChirho::var_chirho(ib_a_chirho)),
                        ),
                    ),
                ),
            },
        );
    }
    // nubBy :: forall a. (a -> a -> Bool) -> [a] -> [a]
    {
        let nb_a_chirho = TyVarChirho(3702);
        env_chirho.bind_chirho(
            "nubBy".to_string(),
            SchemeChirho {
                vars_chirho: vec![nb_a_chirho],
                preds_chirho: vec![],
                ty_chirho: TyChirho::fun_chirho(
                    TyChirho::fun_chirho(
                        TyChirho::var_chirho(nb_a_chirho),
                        TyChirho::fun_chirho(
                            TyChirho::var_chirho(nb_a_chirho),
                            TyChirho::bool_chirho(),
                        ),
                    ),
                    TyChirho::fun_chirho(
                        TyChirho::list_chirho(TyChirho::var_chirho(nb_a_chirho)),
                        TyChirho::list_chirho(TyChirho::var_chirho(nb_a_chirho)),
                    ),
                ),
            },
        );
    }
    // maximumBy :: forall a. (a -> a -> Ordering) -> [a] -> a
    {
        let mx_a_chirho = TyVarChirho(3703);
        let ordering_chirho = TyChirho::con_chirho("Ordering".to_string());
        env_chirho.bind_chirho(
            "maximumBy".to_string(),
            SchemeChirho {
                vars_chirho: vec![mx_a_chirho],
                preds_chirho: vec![],
                ty_chirho: TyChirho::fun_chirho(
                    TyChirho::fun_chirho(
                        TyChirho::var_chirho(mx_a_chirho),
                        TyChirho::fun_chirho(TyChirho::var_chirho(mx_a_chirho), ordering_chirho),
                    ),
                    TyChirho::fun_chirho(
                        TyChirho::list_chirho(TyChirho::var_chirho(mx_a_chirho)),
                        TyChirho::var_chirho(mx_a_chirho),
                    ),
                ),
            },
        );
    }
    // minimumBy :: forall a. (a -> a -> Ordering) -> [a] -> a
    {
        let mn_a_chirho = TyVarChirho(3704);
        let ordering_chirho = TyChirho::con_chirho("Ordering".to_string());
        env_chirho.bind_chirho(
            "minimumBy".to_string(),
            SchemeChirho {
                vars_chirho: vec![mn_a_chirho],
                preds_chirho: vec![],
                ty_chirho: TyChirho::fun_chirho(
                    TyChirho::fun_chirho(
                        TyChirho::var_chirho(mn_a_chirho),
                        TyChirho::fun_chirho(TyChirho::var_chirho(mn_a_chirho), ordering_chirho),
                    ),
                    TyChirho::fun_chirho(
                        TyChirho::list_chirho(TyChirho::var_chirho(mn_a_chirho)),
                        TyChirho::var_chirho(mn_a_chirho),
                    ),
                ),
            },
        );
    }
    // on :: forall a b c. (b -> b -> c) -> (a -> b) -> a -> a -> c
    {
        let on_a_chirho = TyVarChirho(3705);
        let on_b_chirho = TyVarChirho(3706);
        let on_c_chirho = TyVarChirho(3707);
        env_chirho.bind_chirho(
            "on".to_string(),
            SchemeChirho {
                vars_chirho: vec![on_a_chirho, on_b_chirho, on_c_chirho],
                preds_chirho: vec![],
                ty_chirho: TyChirho::fun_chirho(
                    TyChirho::fun_chirho(
                        TyChirho::var_chirho(on_b_chirho),
                        TyChirho::fun_chirho(
                            TyChirho::var_chirho(on_b_chirho),
                            TyChirho::var_chirho(on_c_chirho),
                        ),
                    ),
                    TyChirho::fun_chirho(
                        TyChirho::fun_chirho(
                            TyChirho::var_chirho(on_a_chirho),
                            TyChirho::var_chirho(on_b_chirho),
                        ),
                        TyChirho::fun_chirho(
                            TyChirho::var_chirho(on_a_chirho),
                            TyChirho::fun_chirho(
                                TyChirho::var_chirho(on_a_chirho),
                                TyChirho::var_chirho(on_c_chirho),
                            ),
                        ),
                    ),
                ),
            },
        );
    }
    // find :: forall a. (a -> Bool) -> [a] -> Maybe a
    {
        let find_a_chirho = TyVarChirho(3710);
        env_chirho.bind_chirho(
            "find".to_string(),
            SchemeChirho {
                vars_chirho: vec![find_a_chirho],
                preds_chirho: vec![],
                ty_chirho: TyChirho::fun_chirho(
                    TyChirho::fun_chirho(
                        TyChirho::var_chirho(find_a_chirho),
                        TyChirho::bool_chirho(),
                    ),
                    TyChirho::fun_chirho(
                        TyChirho::list_chirho(TyChirho::var_chirho(find_a_chirho)),
                        TyChirho::app_chirho(
                            TyChirho::con_chirho("Maybe".to_string()),
                            TyChirho::var_chirho(find_a_chirho),
                        ),
                    ),
                ),
            },
        );
    }
    // groupBy :: forall a. (a -> a -> Bool) -> [a] -> [[a]]
    {
        let gb_a_chirho = TyVarChirho(3711);
        env_chirho.bind_chirho(
            "groupBy".to_string(),
            SchemeChirho {
                vars_chirho: vec![gb_a_chirho],
                preds_chirho: vec![],
                ty_chirho: TyChirho::fun_chirho(
                    TyChirho::fun_chirho(
                        TyChirho::var_chirho(gb_a_chirho),
                        TyChirho::fun_chirho(
                            TyChirho::var_chirho(gb_a_chirho),
                            TyChirho::bool_chirho(),
                        ),
                    ),
                    TyChirho::fun_chirho(
                        TyChirho::list_chirho(TyChirho::var_chirho(gb_a_chirho)),
                        TyChirho::list_chirho(
                            TyChirho::list_chirho(TyChirho::var_chirho(gb_a_chirho)),
                        ),
                    ),
                ),
            },
        );
    }
    // -----------------------------------------------------------------------
    // Higher-order list Prelude functions
    // -----------------------------------------------------------------------
    // map :: forall a b. (a -> b) -> [a] -> [b]
    let map_a_chirho = TyVarChirho(3000);
    let map_b_chirho = TyVarChirho(3001);
    env_chirho.bind_chirho(
        "map".to_string(),
        SchemeChirho {
            vars_chirho: vec![map_a_chirho, map_b_chirho],
            preds_chirho: vec![],
            ty_chirho: TyChirho::fun_chirho(
                TyChirho::fun_chirho(
                    TyChirho::var_chirho(map_a_chirho),
                    TyChirho::var_chirho(map_b_chirho),
                ),
                TyChirho::fun_chirho(
                    TyChirho::list_chirho(TyChirho::var_chirho(map_a_chirho)),
                    TyChirho::list_chirho(TyChirho::var_chirho(map_b_chirho)),
                ),
            ),
        },
    );
    // filter :: forall a. (a -> Bool) -> [a] -> [a]
    let filter_a_chirho = TyVarChirho(3010);
    env_chirho.bind_chirho(
        "filter".to_string(),
        SchemeChirho {
            vars_chirho: vec![filter_a_chirho],
            preds_chirho: vec![],
            ty_chirho: TyChirho::fun_chirho(
                TyChirho::fun_chirho(TyChirho::var_chirho(filter_a_chirho), TyChirho::bool_chirho()),
                TyChirho::fun_chirho(
                    TyChirho::list_chirho(TyChirho::var_chirho(filter_a_chirho)),
                    TyChirho::list_chirho(TyChirho::var_chirho(filter_a_chirho)),
                ),
            ),
        },
    );
    // foldr :: forall a b. (a -> b -> b) -> b -> [a] -> b
    let foldr_a_chirho = TyVarChirho(3020);
    let foldr_b_chirho = TyVarChirho(3021);
    env_chirho.bind_chirho(
        "foldr".to_string(),
        SchemeChirho {
            vars_chirho: vec![foldr_a_chirho, foldr_b_chirho],
            preds_chirho: vec![],
            ty_chirho: TyChirho::fun_chirho(
                TyChirho::fun_chirho(
                    TyChirho::var_chirho(foldr_a_chirho),
                    TyChirho::fun_chirho(
                        TyChirho::var_chirho(foldr_b_chirho),
                        TyChirho::var_chirho(foldr_b_chirho),
                    ),
                ),
                TyChirho::fun_chirho(
                    TyChirho::var_chirho(foldr_b_chirho),
                    TyChirho::fun_chirho(
                        TyChirho::list_chirho(TyChirho::var_chirho(foldr_a_chirho)),
                        TyChirho::var_chirho(foldr_b_chirho),
                    ),
                ),
            ),
        },
    );
    // foldl :: forall a b. (b -> a -> b) -> b -> [a] -> b
    let foldl_a_chirho = TyVarChirho(3030);
    let foldl_b_chirho = TyVarChirho(3031);
    env_chirho.bind_chirho(
        "foldl".to_string(),
        SchemeChirho {
            vars_chirho: vec![foldl_a_chirho, foldl_b_chirho],
            preds_chirho: vec![],
            ty_chirho: TyChirho::fun_chirho(
                TyChirho::fun_chirho(
                    TyChirho::var_chirho(foldl_b_chirho),
                    TyChirho::fun_chirho(
                        TyChirho::var_chirho(foldl_a_chirho),
                        TyChirho::var_chirho(foldl_b_chirho),
                    ),
                ),
                TyChirho::fun_chirho(
                    TyChirho::var_chirho(foldl_b_chirho),
                    TyChirho::fun_chirho(
                        TyChirho::list_chirho(TyChirho::var_chirho(foldl_a_chirho)),
                        TyChirho::var_chirho(foldl_b_chirho),
                    ),
                ),
            ),
        },
    );
    // head :: forall a. [a] -> a
    let head_a_chirho = TyVarChirho(3040);
    env_chirho.bind_chirho(
        "head".to_string(),
        SchemeChirho {
            vars_chirho: vec![head_a_chirho],
            preds_chirho: vec![],
            ty_chirho: TyChirho::fun_chirho(
                TyChirho::list_chirho(TyChirho::var_chirho(head_a_chirho)),
                TyChirho::var_chirho(head_a_chirho),
            ),
        },
    );
    // tail :: forall a. [a] -> [a]
    let tail_a_chirho = TyVarChirho(3050);
    env_chirho.bind_chirho(
        "tail".to_string(),
        SchemeChirho {
            vars_chirho: vec![tail_a_chirho],
            preds_chirho: vec![],
            ty_chirho: TyChirho::fun_chirho(
                TyChirho::list_chirho(TyChirho::var_chirho(tail_a_chirho)),
                TyChirho::list_chirho(TyChirho::var_chirho(tail_a_chirho)),
            ),
        },
    );
    // null :: forall a. [a] -> Bool
    let null_a_chirho = TyVarChirho(3060);
    env_chirho.bind_chirho(
        "null".to_string(),
        SchemeChirho {
            vars_chirho: vec![null_a_chirho],
            preds_chirho: vec![],
            ty_chirho: TyChirho::fun_chirho(
                TyChirho::list_chirho(TyChirho::var_chirho(null_a_chirho)),
                TyChirho::bool_chirho(),
            ),
        },
    );
    // length :: forall a. [a] -> Int
    let length_a_chirho = TyVarChirho(3070);
    env_chirho.bind_chirho(
        "length".to_string(),
        SchemeChirho {
            vars_chirho: vec![length_a_chirho],
            preds_chirho: vec![],
            ty_chirho: TyChirho::fun_chirho(
                TyChirho::list_chirho(TyChirho::var_chirho(length_a_chirho)),
                TyChirho::int_chirho(),
            ),
        },
    );
    // reverse :: forall a. [a] -> [a]
    let reverse_a_chirho = TyVarChirho(3080);
    env_chirho.bind_chirho(
        "reverse".to_string(),
        SchemeChirho {
            vars_chirho: vec![reverse_a_chirho],
            preds_chirho: vec![],
            ty_chirho: TyChirho::fun_chirho(
                TyChirho::list_chirho(TyChirho::var_chirho(reverse_a_chirho)),
                TyChirho::list_chirho(TyChirho::var_chirho(reverse_a_chirho)),
            ),
        },
    );
    // zip :: forall a b. [a] -> [b] -> [(a, b)]
    let zip_a_chirho = TyVarChirho(3090);
    let zip_b_chirho = TyVarChirho(3091);
    env_chirho.bind_chirho(
        "zip".to_string(),
        SchemeChirho {
            vars_chirho: vec![zip_a_chirho, zip_b_chirho],
            preds_chirho: vec![],
            ty_chirho: TyChirho::fun_chirho(
                TyChirho::list_chirho(TyChirho::var_chirho(zip_a_chirho)),
                TyChirho::fun_chirho(
                    TyChirho::list_chirho(TyChirho::var_chirho(zip_b_chirho)),
                    TyChirho::list_chirho(
                        TyChirho::pair_chirho(
                            TyChirho::var_chirho(zip_a_chirho),
                            TyChirho::var_chirho(zip_b_chirho),
                        ),
                    ),
                ),
            ),
        },
    );
    // zipWith :: forall a b c. (a -> b -> c) -> [a] -> [b] -> [c]
    let zipw_a_chirho = TyVarChirho(3100);
    let zipw_b_chirho = TyVarChirho(3101);
    let zipw_c_chirho = TyVarChirho(3102);
    env_chirho.bind_chirho(
        "zipWith".to_string(),
        SchemeChirho {
            vars_chirho: vec![zipw_a_chirho, zipw_b_chirho, zipw_c_chirho],
            preds_chirho: vec![],
            ty_chirho: TyChirho::fun_chirho(
                TyChirho::fun_chirho(
                    TyChirho::var_chirho(zipw_a_chirho),
                    TyChirho::fun_chirho(
                        TyChirho::var_chirho(zipw_b_chirho),
                        TyChirho::var_chirho(zipw_c_chirho),
                    ),
                ),
                TyChirho::fun_chirho(
                    TyChirho::list_chirho(TyChirho::var_chirho(zipw_a_chirho)),
                    TyChirho::fun_chirho(
                        TyChirho::list_chirho(TyChirho::var_chirho(zipw_b_chirho)),
                        TyChirho::list_chirho(TyChirho::var_chirho(zipw_c_chirho)),
                    ),
                ),
            ),
        },
    );
    // -----------------------------------------------------------------------
    // Additional Prelude list functions
    // -----------------------------------------------------------------------
    // (++) :: forall a. [a] -> [a] -> [a]
    let pp_a_chirho = TyVarChirho(3105);
    env_chirho.bind_chirho(
        "++".to_string(),
        SchemeChirho {
            vars_chirho: vec![pp_a_chirho],
            preds_chirho: vec![],
            ty_chirho: TyChirho::fun_chirho(
                TyChirho::list_chirho(TyChirho::var_chirho(pp_a_chirho)),
                TyChirho::fun_chirho(
                    TyChirho::list_chirho(TyChirho::var_chirho(pp_a_chirho)),
                    TyChirho::list_chirho(TyChirho::var_chirho(pp_a_chirho)),
                ),
            ),
        },
    );
    proof {
        assert(env_chirho.map() =~~= before.union_prefer_right(builtin_schemes_10()));
    }
}

fn seed_builtins_part_11_chirho(env_chirho: &mut TyEnvChirho)
    ensures
        final(env_chirho).map() == old(env_chirho).map().union_prefer_right(builtin_schemes_11()),
{
    let ghost before = old(env_chirho).map();
    // append :: forall a. [a] -> [a] -> [a]
    let append_a_chirho = TyVarChirho(3110);
    env_chirho.bind_chirho(
        "append".to_string(),
        SchemeChirho {
            vars_chirho: vec![append_a_chirho],
            preds_chirho: vec![],
            ty_chirho: TyChirho::fun_chirho(
                TyChirho::list_chirho(TyChirho::var_chirho(append_a_chirho)),
                TyChirho::fun_chirho(
                    TyChirho::list_chirho(TyChirho::var_chirho(append_a_chirho)),
                    TyChirho::list_chirho(TyChirho::var_chirho(append_a_chirho)),
                ),
            ),
        },
    );
    // any :: forall a. (a -> Bool) -> [a] -> Bool
    let any_a_chirho = TyVarChirho(3120);
    env_chirho.bind_chirho(
        "any".to_string(),
        SchemeChirho {
            vars_chirho: vec![any_a_chirho],
            preds_chirho: vec![],
            ty_chirho: TyChirho::fun_chirho(
                TyChirho::fun_chirho(TyChirho::var_chirho(any_a_chirho), TyChirho::bool_chirho()),
                TyChirho::fun_chirho(
                    TyChirho::list_chirho(TyChirho::var_chirho(any_a_chirho)),
                    TyChirho::bool_chirho(),
                ),
            ),
        },
    );
    // all :: forall a. (a -> Bool) -> [a] -> Bool
    let all_a_chirho = TyVarChirho(3130);
    env_chirho.bind_chirho(
        "all".to_string(),
        SchemeChirho {
            vars_chirho: vec![all_a_chirho],
            preds_chirho: vec![],
            ty_chirho: TyChirho::fun_chirho(
                TyChirho::fun_chirho(TyChirho::var_chirho(all_a_chirho), TyChirho::bool_chirho()),
                TyChirho::fun_chirho(
                    TyChirho::list_chirho(TyChirho::var_chirho(all_a_chirho)),
                    TyChirho::bool_chirho(),
                ),
            ),
        },
    );
    // sum :: [Int] -> Int  (Int-specialized)
    env_chirho.bind_chirho(
        "sum".to_string(),
        SchemeChirho {
            vars_chirho: vec![],
            preds_chirho: vec![],
            ty_chirho: TyChirho::fun_chirho(
                TyChirho::list_chirho(TyChirho::int_chirho()),
                TyChirho::int_chirho(),
            ),
        },
    );
    // product :: [Int] -> Int  (Int-specialized)
    env_chirho.bind_chirho(
        "product".to_string(),
        SchemeChirho {
            vars_chirho: vec![],
            preds_chirho: vec![],
            ty_chirho: TyChirho::fun_chirho(
                TyChirho::list_chirho(TyChirho::int_chirho()),
                TyChirho::int_chirho(),
            ),
        },
    );
    // concatMap :: forall a b. (a -> [b]) -> [a] -> [b]
    let cm_a_chirho = TyVarChirho(3140);
    let cm_b_chirho = TyVarChirho(3141);
    env_chirho.bind_chirho(
        "concatMap".to_string(),
        SchemeChirho {
            vars_chirho: vec![cm_a_chirho, cm_b_chirho],
            preds_chirho: vec![],
            ty_chirho: TyChirho::fun_chirho(
                TyChirho::fun_chirho(
                    TyChirho::var_chirho(cm_a_chirho),
                    TyChirho::list_chirho(TyChirho::var_chirho(cm_b_chirho)),
                ),
                TyChirho::fun_chirho(
                    TyChirho::list_chirho(TyChirho::var_chirho(cm_a_chirho)),
                    TyChirho::list_chirho(TyChirho::var_chirho(cm_b_chirho)),
                ),
            ),
        },
    );
    // last :: forall a. [a] -> a
    let last_a_chirho = TyVarChirho(3150);
    env_chirho.bind_chirho(
        "last".to_string(),
        SchemeChirho {
            vars_chirho: vec![last_a_chirho],
            preds_chirho: vec![],
            ty_chirho: TyChirho::fun_chirho(
                TyChirho::list_chirho(TyChirho::var_chirho(last_a_chirho)),
                TyChirho::var_chirho(last_a_chirho),
            ),
        },
    );
    // init :: forall a. [a] -> [a]
    let init_a_chirho = TyVarChirho(3160);
    env_chirho.bind_chirho(
        "init".to_string(),
        SchemeChirho {
            vars_chirho: vec![init_a_chirho],
            preds_chirho: vec![],
            ty_chirho: TyChirho::fun_chirho(
                TyChirho::list_chirho(TyChirho::var_chirho(init_a_chirho)),
                TyChirho::list_chirho(TyChirho::var_chirho(init_a_chirho)),
            ),
        },
    );
    // elem :: forall a. a -> [a] -> Bool
    let elem_a_chirho = TyVarChirho(3500);
    env_chirho.bind_chirho(
        "elem".to_string(),
        SchemeChirho {
            vars_chirho: vec![elem_a_chirho],
            preds_chirho: vec![],
            ty_chirho: TyChirho::fun_chirho(
                TyChirho::var_chirho(elem_a_chirho),
                TyChirho::fun_chirho(
                    TyChirho::list_chirho(TyChirho::var_chirho(elem_a_chirho)),
                    TyChirho::bool_chirho(),
                ),
            ),
        },
    );
    // notElem :: forall a. a -> [a] -> Bool
    let notelem_a_chirho = TyVarChirho(3501);
    env_chirho.bind_chirho(
        "notElem".to_string(),
        SchemeChirho {
            vars_chirho: vec![notelem_a_chirho],
            preds_chirho: vec![],
            ty_chirho: TyChirho::fun_chirho(
                TyChirho::var_chirho(notelem_a_chirho),
                TyChirho::fun_chirho(
                    TyChirho::list_chirho(TyChirho::var_chirho(notelem_a_chirho)),
                    TyChirho::bool_chirho(),
                ),
            ),
        },
    );
    // minimum :: [Int] -> Int  (Int-specialized)
    env_chirho.bind_chirho(
        "minimum".to_string(),
        SchemeChirho {
            vars_chirho: vec![],
            preds_chirho: vec![],
            ty_chirho: TyChirho::fun_chirho(
                TyChirho::list_chirho(TyChirho::int_chirho()),
                TyChirho::int_chirho(),
            ),
        },
    );
    // maximum :: [Int] -> Int  (Int-specialized)
    env_chirho.bind_chirho(
        "maximum".to_string(),
        SchemeChirho {
            vars_chirho: vec![],
            preds_chirho: vec![],
            ty_chirho: TyChirho::fun_chirho(
                TyChirho::list_chirho(TyChirho::int_chirho()),
                TyChirho::int_chirho(),
            ),
        },
    );
    // sort :: [Int] -> [Int]  (Int-specialized insertion sort)
    env_chirho.bind_chirho(
        "sort".to_string(),
        SchemeChirho {
            vars_chirho: vec![],
            preds_chirho: vec![],
            ty_chirho: TyChirho::fun_chirho(
                TyChirho::list_chirho(TyChirho::int_chirho()),
                TyChirho::list_chirho(TyChirho::int_chirho()),
            ),
        },
    );
    // insert :: Int -> [Int] -> [Int]  (insertion for sort)
    env_chirho.bind_chirho(
        "insert".to_string(),
        SchemeChirho {
            vars_chirho: vec![],
            preds_chirho: vec![],
            ty_chirho: TyChirho::fun_chirho(
                TyChirho::int_chirho(),
                TyChirho::fun_chirho(
                    TyChirho::list_chirho(TyChirho::int_chirho()),
                    TyChirho::list_chirho(TyChirho::int_chirho()),
                ),
            ),
        },
    );
    // abs :: forall a. Num a => a -> a
    {
        let abs_v_chirho = TyVarChirho(2210);
        env_chirho.bind_chirho(
            "abs".to_string(),
            SchemeChirho {
                vars_chirho: vec![abs_v_chirho],
                preds_chirho: vec![
                    SchemePredChirho {
                        class_name_chirho: "Num".to_string(),
                        ty_chirho: TyChirho::var_chirho(abs_v_chirho),
                    },
                ],
                ty_chirho: TyChirho::fun_chirho(
                    TyChirho::var_chirho(abs_v_chirho),
                    TyChirho::var_chirho(abs_v_chirho),
                ),
            },
        );
    }
    // signum :: forall a. Num a => a -> a
    {
        let sig_v_chirho = TyVarChirho(2211);
        env_chirho.bind_chirho(
            "signum".to_string(),
            SchemeChirho {
                vars_chirho: vec![sig_v_chirho],
                preds_chirho: vec![
                    SchemePredChirho {
                        class_name_chirho: "Num".to_string(),
                        ty_chirho: TyChirho::var_chirho(sig_v_chirho),
                    },
                ],
                ty_chirho: TyChirho::fun_chirho(
                    TyChirho::var_chirho(sig_v_chirho),
                    TyChirho::var_chirho(sig_v_chirho),
                ),
            },
        );
    }
    // even :: Int -> Bool
    env_chirho.bind_chirho(
        "even".to_string(),
        SchemeChirho::mono_chirho(
            TyChirho::fun_chirho(TyChirho::int_chirho(), TyChirho::bool_chirho()),
        ),
    );
    // odd :: Int -> Bool
    env_chirho.bind_chirho(
        "odd".to_string(),
        SchemeChirho::mono_chirho(
            TyChirho::fun_chirho(TyChirho::int_chirho(), TyChirho::bool_chirho()),
        ),
    );
    // replicate :: forall a. Int -> a -> [a]
    let rep_a_chirho = TyVarChirho(3250);
    env_chirho.bind_chirho(
        "replicate".to_string(),
        SchemeChirho {
            vars_chirho: vec![rep_a_chirho],
            preds_chirho: vec![],
            ty_chirho: TyChirho::fun_chirho(
                TyChirho::int_chirho(),
                TyChirho::fun_chirho(
                    TyChirho::var_chirho(rep_a_chirho),
                    TyChirho::list_chirho(TyChirho::var_chirho(rep_a_chirho)),
                ),
            ),
        },
    );
    // takeWhile :: forall a. (a -> Bool) -> [a] -> [a]
    let tw_a_chirho = TyVarChirho(3300);
    env_chirho.bind_chirho(
        "takeWhile".to_string(),
        SchemeChirho {
            vars_chirho: vec![tw_a_chirho],
            preds_chirho: vec![],
            ty_chirho: TyChirho::fun_chirho(
                TyChirho::fun_chirho(TyChirho::var_chirho(tw_a_chirho), TyChirho::bool_chirho()),
                TyChirho::fun_chirho(
                    TyChirho::list_chirho(TyChirho::var_chirho(tw_a_chirho)),
                    TyChirho::list_chirho(TyChirho::var_chirho(tw_a_chirho)),
                ),
            ),
        },
    );
    proof {
        assert(env_chirho.map() =~~= before.union_prefer_right(builtin_schemes_11()));
    }
}

fn seed_builtins_part_12_chirho(env_chirho: &mut TyEnvChirho)
    ensures
        final(env_chirho).map() == old(env_chirho).map().union_prefer_right(builtin_schemes_12()),
{
    let ghost before = old(env_chirho).map();
    // dropWhile :: forall a. (a -> Bool) -> [a] -> [a]
    let dw_a_chirho = TyVarChirho(3301);
    env_chirho.bind_chirho(
        "dropWhile".to_string(),
        SchemeChirho {
            vars_chirho: vec![dw_a_chirho],
            preds_chirho: vec![],
            ty_chirho: TyChirho::fun_chirho(
                TyChirho::fun_chirho(TyChirho::var_chirho(dw_a_chirho), TyChirho::bool_chirho()),
                TyChirho::fun_chirho(
                    TyChirho::list_chirho(TyChirho::var_chirho(dw_a_chirho)),
                    TyChirho::list_chirho(TyChirho::var_chirho(dw_a_chirho)),
                ),
            ),
        },
    );
    // iterate :: forall a. (a -> a) -> a -> [a]
    let iter_a_chirho = TyVarChirho(3302);
    env_chirho.bind_chirho(
        "iterate".to_string(),
        SchemeChirho {
            vars_chirho: vec![iter_a_chirho],
            preds_chirho: vec![],
            ty_chirho: TyChirho::fun_chirho(
                TyChirho::fun_chirho(
                    TyChirho::var_chirho(iter_a_chirho),
                    TyChirho::var_chirho(iter_a_chirho),
                ),
                TyChirho::fun_chirho(
                    TyChirho::var_chirho(iter_a_chirho),
                    TyChirho::list_chirho(TyChirho::var_chirho(iter_a_chirho)),
                ),
            ),
        },
    );
    // lookup :: forall a b. a -> [(a,b)] -> Maybe b
    let lu_a_chirho = TyVarChirho(3303);
    let lu_b_chirho = TyVarChirho(3304);
    env_chirho.bind_chirho(
        "lookup".to_string(),
        SchemeChirho {
            vars_chirho: vec![lu_a_chirho, lu_b_chirho],
            preds_chirho: vec![],
            ty_chirho: TyChirho::fun_chirho(
                TyChirho::var_chirho(lu_a_chirho),
                TyChirho::fun_chirho(
                    TyChirho::list_chirho(
                        TyChirho::pair_chirho(
                            TyChirho::var_chirho(lu_a_chirho),
                            TyChirho::var_chirho(lu_b_chirho),
                        ),
                    ),
                    TyChirho::app_chirho(
                        TyChirho::con_chirho("Maybe".to_string()),
                        TyChirho::var_chirho(lu_b_chirho),
                    ),
                ),
            ),
        },
    );
    // unzip :: forall a b. [(a,b)] -> ([a],[b])
    let uz_a_chirho = TyVarChirho(3305);
    let uz_b_chirho = TyVarChirho(3306);
    env_chirho.bind_chirho(
        "unzip".to_string(),
        SchemeChirho {
            vars_chirho: vec![uz_a_chirho, uz_b_chirho],
            preds_chirho: vec![],
            ty_chirho: TyChirho::fun_chirho(
                TyChirho::list_chirho(
                    TyChirho::pair_chirho(
                        TyChirho::var_chirho(uz_a_chirho),
                        TyChirho::var_chirho(uz_b_chirho),
                    ),
                ),
                TyChirho::pair_chirho(
                    TyChirho::list_chirho(TyChirho::var_chirho(uz_a_chirho)),
                    TyChirho::list_chirho(TyChirho::var_chirho(uz_b_chirho)),
                ),
            ),
        },
    );
    // scanl :: forall a b. (b -> a -> b) -> b -> [a] -> [b]
    let sl_a_chirho = TyVarChirho(3307);
    let sl_b_chirho = TyVarChirho(3308);
    env_chirho.bind_chirho(
        "scanl".to_string(),
        SchemeChirho {
            vars_chirho: vec![sl_a_chirho, sl_b_chirho],
            preds_chirho: vec![],
            ty_chirho: TyChirho::fun_chirho(
                TyChirho::fun_chirho(
                    TyChirho::var_chirho(sl_b_chirho),
                    TyChirho::fun_chirho(
                        TyChirho::var_chirho(sl_a_chirho),
                        TyChirho::var_chirho(sl_b_chirho),
                    ),
                ),
                TyChirho::fun_chirho(
                    TyChirho::var_chirho(sl_b_chirho),
                    TyChirho::fun_chirho(
                        TyChirho::list_chirho(TyChirho::var_chirho(sl_a_chirho)),
                        TyChirho::list_chirho(TyChirho::var_chirho(sl_b_chirho)),
                    ),
                ),
            ),
        },
    );
    // span :: forall a. (a -> Bool) -> [a] -> ([a],[a])
    let span_a_chirho = TyVarChirho(3309);
    env_chirho.bind_chirho(
        "span".to_string(),
        SchemeChirho {
            vars_chirho: vec![span_a_chirho],
            preds_chirho: vec![],
            ty_chirho: TyChirho::fun_chirho(
                TyChirho::fun_chirho(TyChirho::var_chirho(span_a_chirho), TyChirho::bool_chirho()),
                TyChirho::fun_chirho(
                    TyChirho::list_chirho(TyChirho::var_chirho(span_a_chirho)),
                    TyChirho::pair_chirho(
                        TyChirho::list_chirho(TyChirho::var_chirho(span_a_chirho)),
                        TyChirho::list_chirho(TyChirho::var_chirho(span_a_chirho)),
                    ),
                ),
            ),
        },
    );
    // break :: forall a. (a -> Bool) -> [a] -> ([a],[a])
    let break_a_chirho = TyVarChirho(3310);
    env_chirho.bind_chirho(
        "break".to_string(),
        SchemeChirho {
            vars_chirho: vec![break_a_chirho],
            preds_chirho: vec![],
            ty_chirho: TyChirho::fun_chirho(
                TyChirho::fun_chirho(TyChirho::var_chirho(break_a_chirho), TyChirho::bool_chirho()),
                TyChirho::fun_chirho(
                    TyChirho::list_chirho(TyChirho::var_chirho(break_a_chirho)),
                    TyChirho::pair_chirho(
                        TyChirho::list_chirho(TyChirho::var_chirho(break_a_chirho)),
                        TyChirho::list_chirho(TyChirho::var_chirho(break_a_chirho)),
                    ),
                ),
            ),
        },
    );
    // partition :: forall a. (a -> Bool) -> [a] -> ([a],[a])
    let part_a_chirho = TyVarChirho(3311);
    env_chirho.bind_chirho(
        "partition".to_string(),
        SchemeChirho {
            vars_chirho: vec![part_a_chirho],
            preds_chirho: vec![],
            ty_chirho: TyChirho::fun_chirho(
                TyChirho::fun_chirho(TyChirho::var_chirho(part_a_chirho), TyChirho::bool_chirho()),
                TyChirho::fun_chirho(
                    TyChirho::list_chirho(TyChirho::var_chirho(part_a_chirho)),
                    TyChirho::pair_chirho(
                        TyChirho::list_chirho(TyChirho::var_chirho(part_a_chirho)),
                        TyChirho::list_chirho(TyChirho::var_chirho(part_a_chirho)),
                    ),
                ),
            ),
        },
    );
    // mapInsertStr :: String -> v -> Map -> Map
    {
        let v_chirho = TyChirho::var_chirho(TyVarChirho(3240));
        env_chirho.bind_chirho(
            "mapInsertStr".to_string(),
            SchemeChirho {
                vars_chirho: vec![TyVarChirho(3240)],
                preds_chirho: vec![],
                ty_chirho: TyChirho::fun_chirho(
                    TyChirho::string_chirho(),
                    TyChirho::fun_chirho(
                        v_chirho,
                        TyChirho::fun_chirho(TyChirho::int_chirho(), TyChirho::int_chirho()),
                    ),
                ),
            },
        );
    }
    // mapLookupStr :: String -> Map -> Maybe v
    {
        let v_chirho = TyChirho::var_chirho(TyVarChirho(3241));
        env_chirho.bind_chirho(
            "mapLookupStr".to_string(),
            SchemeChirho {
                vars_chirho: vec![TyVarChirho(3241)],
                preds_chirho: vec![],
                ty_chirho: TyChirho::fun_chirho(
                    TyChirho::string_chirho(),
                    TyChirho::fun_chirho(TyChirho::int_chirho(), v_chirho),
                ),
            },
        );
    }
    // mapMemberStr :: String -> Map -> Bool
    env_chirho.bind_chirho(
        "mapMemberStr".to_string(),
        SchemeChirho::mono_chirho(
            TyChirho::fun_chirho(
                TyChirho::string_chirho(),
                TyChirho::fun_chirho(TyChirho::int_chirho(), TyChirho::bool_chirho()),
            ),
        ),
    );
    // mapFindWithDefaultStr :: v -> String -> Map -> v
    {
        let v_chirho = TyChirho::var_chirho(TyVarChirho(3242));
        env_chirho.bind_chirho(
            "mapFindWithDefaultStr".to_string(),
            SchemeChirho {
                vars_chirho: vec![TyVarChirho(3242)],
                preds_chirho: vec![],
                ty_chirho: TyChirho::fun_chirho(
                    v_chirho.copy_chirho(),
                    TyChirho::fun_chirho(
                        TyChirho::string_chirho(),
                        TyChirho::fun_chirho(TyChirho::int_chirho(), v_chirho),
                    ),
                ),
            },
        );
    }
    // nub :: [a] -> [a]
    {
        let nub_a_chirho = TyVarChirho(3400);
        env_chirho.bind_chirho(
            "nub".to_string(),
            SchemeChirho {
                vars_chirho: vec![nub_a_chirho],
                preds_chirho: vec![],
                ty_chirho: TyChirho::fun_chirho(
                    TyChirho::list_chirho(TyChirho::var_chirho(nub_a_chirho)),
                    TyChirho::list_chirho(TyChirho::var_chirho(nub_a_chirho)),
                ),
            },
        );
    }
    // zip3 :: [a] -> [b] -> [c] -> [(a,b,c)]
    {
        let z3a_chirho = TyVarChirho(3401);
        let z3b_chirho = TyVarChirho(3402);
        let z3c_chirho = TyVarChirho(3403);
        env_chirho.bind_chirho(
            "zip3".to_string(),
            SchemeChirho {
                vars_chirho: vec![z3a_chirho, z3b_chirho, z3c_chirho],
                preds_chirho: vec![],
                ty_chirho: TyChirho::fun_chirho(
                    TyChirho::list_chirho(TyChirho::var_chirho(z3a_chirho)),
                    TyChirho::fun_chirho(
                        TyChirho::list_chirho(TyChirho::var_chirho(z3b_chirho)),
                        TyChirho::fun_chirho(
                            TyChirho::list_chirho(TyChirho::var_chirho(z3c_chirho)),
                            TyChirho::list_chirho(
                                TyChirho::triple_chirho(
                                    TyChirho::var_chirho(z3a_chirho),
                                    TyChirho::var_chirho(z3b_chirho),
                                    TyChirho::var_chirho(z3c_chirho),
                                ),
                            ),
                        ),
                    ),
                ),
            },
        );
    }
    // intersperse :: a -> [a] -> [a]
    {
        let isp_a_chirho = TyVarChirho(3404);
        env_chirho.bind_chirho(
            "intersperse".to_string(),
            SchemeChirho {
                vars_chirho: vec![isp_a_chirho],
                preds_chirho: vec![],
                ty_chirho: TyChirho::fun_chirho(
                    TyChirho::var_chirho(isp_a_chirho),
                    TyChirho::fun_chirho(
                        TyChirho::list_chirho(TyChirho::var_chirho(isp_a_chirho)),
                        TyChirho::list_chirho(TyChirho::var_chirho(isp_a_chirho)),
                    ),
                ),
            },
        );
    }
    // isPrefixOf :: [a] -> [a] -> Bool
    {
        let ipf_a_chirho = TyVarChirho(3405);
        env_chirho.bind_chirho(
            "isPrefixOf".to_string(),
            SchemeChirho {
                vars_chirho: vec![ipf_a_chirho],
                preds_chirho: vec![],
                ty_chirho: TyChirho::fun_chirho(
                    TyChirho::list_chirho(TyChirho::var_chirho(ipf_a_chirho)),
                    TyChirho::fun_chirho(
                        TyChirho::list_chirho(TyChirho::var_chirho(ipf_a_chirho)),
                        TyChirho::bool_chirho(),
                    ),
                ),
            },
        );
    }
    // isSuffixOf :: [a] -> [a] -> Bool
    {
        let isf_a_chirho = TyVarChirho(3406);
        env_chirho.bind_chirho(
            "isSuffixOf".to_string(),
            SchemeChirho {
                vars_chirho: vec![isf_a_chirho],
                preds_chirho: vec![],
                ty_chirho: TyChirho::fun_chirho(
                    TyChirho::list_chirho(TyChirho::var_chirho(isf_a_chirho)),
                    TyChirho::fun_chirho(
                        TyChirho::list_chirho(TyChirho::var_chirho(isf_a_chirho)),
                        TyChirho::bool_chirho(),
                    ),
                ),
            },
        );
    }
    // unzip3 :: [(a,b,c)] -> ([a],[b],[c])
    {
        let uz3a_chirho = TyVarChirho(3407);
        let uz3b_chirho = TyVarChirho(3408);
        let uz3c_chirho = TyVarChirho(3409);
        env_chirho.bind_chirho(
            "unzip3".to_string(),
            SchemeChirho {
                vars_chirho: vec![uz3a_chirho, uz3b_chirho, uz3c_chirho],
                preds_chirho: vec![],
                ty_chirho: TyChirho::fun_chirho(
                    TyChirho::list_chirho(
                        TyChirho::triple_chirho(
                            TyChirho::var_chirho(uz3a_chirho),
                            TyChirho::var_chirho(uz3b_chirho),
                            TyChirho::var_chirho(uz3c_chirho),
                        ),
                    ),
                    TyChirho::triple_chirho(
                        TyChirho::list_chirho(TyChirho::var_chirho(uz3a_chirho)),
                        TyChirho::list_chirho(TyChirho::var_chirho(uz3b_chirho)),
                        TyChirho::list_chirho(TyChirho::var_chirho(uz3c_chirho)),
                    ),
                ),
            },
        );
    }
    // toEnum :: forall a. Enum a => Int -> a
    let enum_a_chirho = TyVarChirho(3260);
    env_chirho.bind_chirho(
        "toEnum".to_string(),
        SchemeChirho {
            vars_chirho: vec![enum_a_chirho],
            preds_chirho: vec![
                SchemePredChirho {
                    class_name_chirho: "Enum".to_string(),
                    ty_chirho: TyChirho::var_chirho(enum_a_chirho),
                },
            ],
            ty_chirho: TyChirho::fun_chirho(TyChirho::int_chirho(), TyChirho::var_chirho(enum_a_chirho)),
        },
    );
    // fromEnum :: forall a. Enum a => a -> Int
    let from_enum_a_chirho = TyVarChirho(3261);
    env_chirho.bind_chirho(
        "fromEnum".to_string(),
        SchemeChirho {
            vars_chirho: vec![from_enum_a_chirho],
            preds_chirho: vec![
                SchemePredChirho {
                    class_name_chirho: "Enum".to_string(),
                    ty_chirho: TyChirho::var_chirho(from_enum_a_chirho),
                },
            ],
            ty_chirho: TyChirho::fun_chirho(TyChirho::var_chirho(from_enum_a_chirho), TyChirho::int_chirho()),
        },
    );
    proof {
        assert(env_chirho.map() =~~= before.union_prefer_right(builtin_schemes_12()));
    }
}

fn seed_builtins_part_13_chirho(env_chirho: &mut TyEnvChirho)
    ensures
        final(env_chirho).map() == old(env_chirho).map().union_prefer_right(builtin_schemes_13()),
{
    let ghost before = old(env_chirho).map();
    // succ :: forall a. Enum a => a -> a
    let succ_a_chirho = TyVarChirho(3262);
    env_chirho.bind_chirho(
        "succ".to_string(),
        SchemeChirho {
            vars_chirho: vec![succ_a_chirho],
            preds_chirho: vec![
                SchemePredChirho {
                    class_name_chirho: "Enum".to_string(),
                    ty_chirho: TyChirho::var_chirho(succ_a_chirho),
                },
            ],
            ty_chirho: TyChirho::fun_chirho(
                TyChirho::var_chirho(succ_a_chirho),
                TyChirho::var_chirho(succ_a_chirho),
            ),
        },
    );
    // pred :: forall a. Enum a => a -> a
    let pred_a_chirho = TyVarChirho(3263);
    env_chirho.bind_chirho(
        "pred".to_string(),
        SchemeChirho {
            vars_chirho: vec![pred_a_chirho],
            preds_chirho: vec![
                SchemePredChirho {
                    class_name_chirho: "Enum".to_string(),
                    ty_chirho: TyChirho::var_chirho(pred_a_chirho),
                },
            ],
            ty_chirho: TyChirho::fun_chirho(
                TyChirho::var_chirho(pred_a_chirho),
                TyChirho::var_chirho(pred_a_chirho),
            ),
        },
    );
    // enumFrom :: Int -> [Int]
    env_chirho.bind_chirho(
        "enumFrom".to_string(),
        SchemeChirho::mono_chirho(
            TyChirho::fun_chirho(
                TyChirho::int_chirho(),
                TyChirho::list_chirho(TyChirho::int_chirho()),
            ),
        ),
    );
    // enumFromThen :: Int -> Int -> [Int]
    env_chirho.bind_chirho(
        "enumFromThen".to_string(),
        SchemeChirho::mono_chirho(
            TyChirho::fun_chirho(
                TyChirho::int_chirho(),
                TyChirho::fun_chirho(
                    TyChirho::int_chirho(),
                    TyChirho::list_chirho(TyChirho::int_chirho()),
                ),
            ),
        ),
    );
    // enumFromTo :: Int -> Int -> [Int]
    env_chirho.bind_chirho(
        "enumFromTo".to_string(),
        SchemeChirho::mono_chirho(
            TyChirho::fun_chirho(
                TyChirho::int_chirho(),
                TyChirho::fun_chirho(
                    TyChirho::int_chirho(),
                    TyChirho::list_chirho(TyChirho::int_chirho()),
                ),
            ),
        ),
    );
    // enumFromThenTo :: Int -> Int -> Int -> [Int]
    env_chirho.bind_chirho(
        "enumFromThenTo".to_string(),
        SchemeChirho::mono_chirho(
            TyChirho::fun_chirho(
                TyChirho::int_chirho(),
                TyChirho::fun_chirho(
                    TyChirho::int_chirho(),
                    TyChirho::fun_chirho(
                        TyChirho::int_chirho(),
                        TyChirho::list_chirho(TyChirho::int_chirho()),
                    ),
                ),
            ),
        ),
    );
    // minBound :: forall a. Bounded a => a
    let min_bound_a_chirho = TyVarChirho(3264);
    env_chirho.bind_chirho(
        "minBound".to_string(),
        SchemeChirho {
            vars_chirho: vec![min_bound_a_chirho],
            preds_chirho: vec![
                SchemePredChirho {
                    class_name_chirho: "Bounded".to_string(),
                    ty_chirho: TyChirho::var_chirho(min_bound_a_chirho),
                },
            ],
            ty_chirho: TyChirho::var_chirho(min_bound_a_chirho),
        },
    );
    // maxBound :: forall a. Bounded a => a
    let max_bound_a_chirho = TyVarChirho(3265);
    env_chirho.bind_chirho(
        "maxBound".to_string(),
        SchemeChirho {
            vars_chirho: vec![max_bound_a_chirho],
            preds_chirho: vec![
                SchemePredChirho {
                    class_name_chirho: "Bounded".to_string(),
                    ty_chirho: TyChirho::var_chirho(max_bound_a_chirho),
                },
            ],
            ty_chirho: TyChirho::var_chirho(max_bound_a_chirho),
        },
    );
    // Data.Char functions
    let char_ty_chirho = TyChirho::con_chirho("Char".to_string());
    // chr :: Int -> Char
    env_chirho.bind_chirho(
        "chr".to_string(),
        SchemeChirho::mono_chirho(
            TyChirho::fun_chirho(TyChirho::int_chirho(), char_ty_chirho.copy_chirho()),
        ),
    );
    // ord :: Char -> Int
    env_chirho.bind_chirho(
        "ord".to_string(),
        SchemeChirho::mono_chirho(
            TyChirho::fun_chirho(char_ty_chirho.copy_chirho(), TyChirho::int_chirho()),
        ),
    );
    // Char -> Bool functions
    {
        env_chirho.bind_chirho(
            "isDigit".to_string(),
            SchemeChirho::mono_chirho(
                TyChirho::fun_chirho(char_ty_chirho.copy_chirho(), TyChirho::bool_chirho()),
            ),
        );
    }
    {
        env_chirho.bind_chirho(
            "isAlpha".to_string(),
            SchemeChirho::mono_chirho(
                TyChirho::fun_chirho(char_ty_chirho.copy_chirho(), TyChirho::bool_chirho()),
            ),
        );
    }
    {
        env_chirho.bind_chirho(
            "isAlphaNum".to_string(),
            SchemeChirho::mono_chirho(
                TyChirho::fun_chirho(char_ty_chirho.copy_chirho(), TyChirho::bool_chirho()),
            ),
        );
    }
    {
        env_chirho.bind_chirho(
            "isUpper".to_string(),
            SchemeChirho::mono_chirho(
                TyChirho::fun_chirho(char_ty_chirho.copy_chirho(), TyChirho::bool_chirho()),
            ),
        );
    }
    {
        env_chirho.bind_chirho(
            "isLower".to_string(),
            SchemeChirho::mono_chirho(
                TyChirho::fun_chirho(char_ty_chirho.copy_chirho(), TyChirho::bool_chirho()),
            ),
        );
    }
    {
        env_chirho.bind_chirho(
            "isSpace".to_string(),
            SchemeChirho::mono_chirho(
                TyChirho::fun_chirho(char_ty_chirho.copy_chirho(), TyChirho::bool_chirho()),
            ),
        );
    }
    // Char -> Char functions
    {
        env_chirho.bind_chirho(
            "toLower".to_string(),
            SchemeChirho::mono_chirho(
                TyChirho::fun_chirho(char_ty_chirho.copy_chirho(), char_ty_chirho.copy_chirho()),
            ),
        );
    }
    {
        env_chirho.bind_chirho(
            "toUpper".to_string(),
            SchemeChirho::mono_chirho(
                TyChirho::fun_chirho(char_ty_chirho.copy_chirho(), char_ty_chirho.copy_chirho()),
            ),
        );
    }
    // digitToInt :: Char -> Int
    env_chirho.bind_chirho(
        "digitToInt".to_string(),
        SchemeChirho::mono_chirho(TyChirho::fun_chirho(char_ty_chirho, TyChirho::int_chirho())),
    );
    // intToDigit :: Int -> Char
    env_chirho.bind_chirho(
        "intToDigit".to_string(),
        SchemeChirho::mono_chirho(
            TyChirho::fun_chirho(TyChirho::int_chirho(), TyChirho::con_chirho("Char".to_string())),
        ),
    );
    proof {
        assert(env_chirho.map() =~~= before.union_prefer_right(builtin_schemes_13()));
    }
}

fn seed_builtins_part_14_chirho(env_chirho: &mut TyEnvChirho)
    ensures
        final(env_chirho).map() == old(env_chirho).map().union_prefer_right(builtin_schemes_14()),
{
    let ghost before = old(env_chirho).map();
    // ── Floating functions (monomorphic at Double for now) ──
    let double_ty_chirho = TyChirho::double_chirho();
    // Unary: sin, cos, tan, asin, acos, atan, exp, log, sqrt :: Double -> Double
    {
        env_chirho.bind_chirho(
            "sin".to_string(),
            SchemeChirho::mono_chirho(
                TyChirho::fun_chirho(double_ty_chirho.copy_chirho(), double_ty_chirho.copy_chirho()),
            ),
        );
    }
    {
        env_chirho.bind_chirho(
            "cos".to_string(),
            SchemeChirho::mono_chirho(
                TyChirho::fun_chirho(double_ty_chirho.copy_chirho(), double_ty_chirho.copy_chirho()),
            ),
        );
    }
    {
        env_chirho.bind_chirho(
            "tan".to_string(),
            SchemeChirho::mono_chirho(
                TyChirho::fun_chirho(double_ty_chirho.copy_chirho(), double_ty_chirho.copy_chirho()),
            ),
        );
    }
    {
        env_chirho.bind_chirho(
            "asin".to_string(),
            SchemeChirho::mono_chirho(
                TyChirho::fun_chirho(double_ty_chirho.copy_chirho(), double_ty_chirho.copy_chirho()),
            ),
        );
    }
    {
        env_chirho.bind_chirho(
            "acos".to_string(),
            SchemeChirho::mono_chirho(
                TyChirho::fun_chirho(double_ty_chirho.copy_chirho(), double_ty_chirho.copy_chirho()),
            ),
        );
    }
    {
        env_chirho.bind_chirho(
            "atan".to_string(),
            SchemeChirho::mono_chirho(
                TyChirho::fun_chirho(double_ty_chirho.copy_chirho(), double_ty_chirho.copy_chirho()),
            ),
        );
    }
    {
        env_chirho.bind_chirho(
            "exp".to_string(),
            SchemeChirho::mono_chirho(
                TyChirho::fun_chirho(double_ty_chirho.copy_chirho(), double_ty_chirho.copy_chirho()),
            ),
        );
    }
    {
        env_chirho.bind_chirho(
            "log".to_string(),
            SchemeChirho::mono_chirho(
                TyChirho::fun_chirho(double_ty_chirho.copy_chirho(), double_ty_chirho.copy_chirho()),
            ),
        );
    }
    {
        env_chirho.bind_chirho(
            "sqrt".to_string(),
            SchemeChirho::mono_chirho(
                TyChirho::fun_chirho(double_ty_chirho.copy_chirho(), double_ty_chirho.copy_chirho()),
            ),
        );
    }
    // NOTE: pi is not bound at the top level to avoid shadowing user-defined
    // local "pi" bindings. It is available via $prim_Floating_pi_Double.
    // ── Functor / Applicative / Monad ──
    // fmap :: Functor f => (a -> b) -> f a -> f b  (polymorphic)
    {
        let fmap_f_chirho = TyVarChirho(9004);
        let fmap_a_chirho = TyVarChirho(9040);
        let fmap_b_chirho = TyVarChirho(9041);
        env_chirho.bind_chirho(
            "fmap".to_string(),
            SchemeChirho {
                vars_chirho: vec![fmap_f_chirho, fmap_a_chirho, fmap_b_chirho],
                preds_chirho: vec![],
                ty_chirho: TyChirho::arrow_chirho(
                    TyChirho::arrow_chirho(
                        TyChirho::var_chirho(fmap_a_chirho),
                        TyChirho::var_chirho(fmap_b_chirho),
                        MultChirho::ManyChirho,
                    ),
                    TyChirho::arrow_chirho(
                        TyChirho::app_chirho(
                            TyChirho::var_chirho(fmap_f_chirho),
                            TyChirho::var_chirho(fmap_a_chirho),
                        ),
                        TyChirho::app_chirho(
                            TyChirho::var_chirho(fmap_f_chirho),
                            TyChirho::var_chirho(fmap_b_chirho),
                        ),
                        MultChirho::ManyChirho,
                    ),
                    MultChirho::ManyChirho,
                ),
            },
        );
    }
    // foldMap :: (a -> m) -> t a -> m  (simplified, Monoid m not enforced)
    {
        let fold_a_chirho = TyVarChirho(9081);
        let fold_m_chirho = TyVarChirho(9082);
        let fold_t_chirho = TyVarChirho(9080);
        env_chirho.bind_chirho(
            "foldMap".to_string(),
            SchemeChirho {
                vars_chirho: vec![fold_t_chirho, fold_a_chirho, fold_m_chirho],
                preds_chirho: vec![],
                ty_chirho: TyChirho::arrow_chirho(
                    TyChirho::arrow_chirho(
                        TyChirho::var_chirho(fold_a_chirho),
                        TyChirho::var_chirho(fold_m_chirho),
                        MultChirho::ManyChirho,
                    ),
                    TyChirho::arrow_chirho(
                        TyChirho::app_chirho(
                            TyChirho::var_chirho(fold_t_chirho),
                            TyChirho::var_chirho(fold_a_chirho),
                        ),
                        TyChirho::var_chirho(fold_m_chirho),
                        MultChirho::ManyChirho,
                    ),
                    MultChirho::ManyChirho,
                ),
            },
        );
    }
    // traverse :: (a -> f b) -> t a -> f (t b)  (simplified, Applicative f not enforced)
    {
        let trav_t_chirho = TyVarChirho(9083);
        let trav_a_chirho = TyVarChirho(9084);
        let trav_b_chirho = TyVarChirho(9085);
        let trav_f_chirho = TyVarChirho(9086);
        env_chirho.bind_chirho(
            "traverse".to_string(),
            SchemeChirho {
                vars_chirho: vec![trav_t_chirho, trav_a_chirho, trav_b_chirho, trav_f_chirho],
                preds_chirho: vec![],
                ty_chirho: TyChirho::arrow_chirho(
                    TyChirho::arrow_chirho(
                        TyChirho::var_chirho(trav_a_chirho),
                        TyChirho::app_chirho(
                            TyChirho::var_chirho(trav_f_chirho),
                            TyChirho::var_chirho(trav_b_chirho),
                        ),
                        MultChirho::ManyChirho,
                    ),
                    TyChirho::arrow_chirho(
                        TyChirho::app_chirho(
                            TyChirho::var_chirho(trav_t_chirho),
                            TyChirho::var_chirho(trav_a_chirho),
                        ),
                        TyChirho::app_chirho(
                            TyChirho::var_chirho(trav_f_chirho),
                            TyChirho::app_chirho(
                                TyChirho::var_chirho(trav_t_chirho),
                                TyChirho::var_chirho(trav_b_chirho),
                            ),
                        ),
                        MultChirho::ManyChirho,
                    ),
                    MultChirho::ManyChirho,
                ),
            },
        );
    }
    // ── Monad transformer infrastructure ──
    //
    // MaybeT is a newtype: newtype MaybeT m a = MaybeT { runMaybeT :: m (Maybe a) }
    // StateT is a newtype: newtype StateT s m a = StateT { runStateT :: s -> m (a, s) }
    //
    // We seed simplified type signatures for the constructor and accessor
    // functions so the type checker can resolve references in user programs.
    // These simplified versions treat the inner monad as the identity and are
    // sufficient for basic end-to-end evaluation tests.
    // MaybeT :: Maybe a -> MaybeT a  (simplified; no inner-monad parameter)
    // runMaybeT :: MaybeT a -> Maybe a  (simplified)
    {
        let mt_a_chirho = TyVarChirho(3500);
        let maybe_a_ty_chirho = TyChirho::app_chirho(
            TyChirho::con_chirho("Maybe".to_string()),
            TyChirho::var_chirho(mt_a_chirho),
        );
        let mayet_ty_chirho = TyChirho::app_chirho(
            TyChirho::con_chirho("MaybeT".to_string()),
            TyChirho::var_chirho(mt_a_chirho),
        );
        env_chirho.bind_chirho(
            "MaybeT".to_string(),
            SchemeChirho {
                vars_chirho: vec![mt_a_chirho],
                preds_chirho: vec![],
                ty_chirho: TyChirho::fun_chirho(maybe_a_ty_chirho.copy_chirho(), mayet_ty_chirho.copy_chirho()),
            },
        );
        env_chirho.bind_chirho(
            "runMaybeT".to_string(),
            SchemeChirho {
                vars_chirho: vec![mt_a_chirho],
                preds_chirho: vec![],
                ty_chirho: TyChirho::fun_chirho(mayet_ty_chirho, maybe_a_ty_chirho),
            },
        );
    }
    // StateT :: (s -> (a, s)) -> StateT s a  (simplified; no inner-monad parameter)
    // runStateT :: StateT s a -> s -> (a, s)  (simplified)
    {
        let st_s_chirho = TyVarChirho(3501);
        let st_a_chirho = TyVarChirho(3502);
        let st_fn_ty_chirho = TyChirho::fun_chirho(
            TyChirho::var_chirho(st_s_chirho),
            TyChirho::pair_chirho(
                TyChirho::var_chirho(st_a_chirho),
                TyChirho::var_chirho(st_s_chirho),
            ),
        );
        let statet_ty_chirho = TyChirho::app_chirho(
            TyChirho::app_chirho(
                TyChirho::con_chirho("StateT".to_string()),
                TyChirho::var_chirho(st_s_chirho),
            ),
            TyChirho::var_chirho(st_a_chirho),
        );
        env_chirho.bind_chirho(
            "StateT".to_string(),
            SchemeChirho {
                vars_chirho: vec![st_s_chirho, st_a_chirho],
                preds_chirho: vec![],
                ty_chirho: TyChirho::fun_chirho(st_fn_ty_chirho.copy_chirho(), statet_ty_chirho.copy_chirho()),
            },
        );
        env_chirho.bind_chirho(
            "runStateT".to_string(),
            SchemeChirho {
                vars_chirho: vec![st_s_chirho, st_a_chirho],
                preds_chirho: vec![],
                ty_chirho: TyChirho::fun_chirho(statet_ty_chirho, st_fn_ty_chirho),
            },
        );
    }
    // lift :: forall t m a. m a -> t m a
    // Simplified: polymorphic binding for MonadTrans-like usage
    {
        let lt_m_chirho = TyVarChirho(3503);
        let lt_t_chirho = TyVarChirho(3504);
        let lt_a_chirho = TyVarChirho(3505);
        let lt_ma_chirho = TyChirho::app_chirho(TyChirho::var_chirho(lt_m_chirho), TyChirho::var_chirho(lt_a_chirho));
        let lt_tma_chirho = TyChirho::app_chirho(
            TyChirho::app_chirho(
                TyChirho::var_chirho(lt_t_chirho),
                TyChirho::var_chirho(lt_m_chirho),
            ),
            TyChirho::var_chirho(lt_a_chirho),
        );
        env_chirho.bind_chirho(
            "lift".to_string(),
            SchemeChirho {
                vars_chirho: vec![lt_m_chirho, lt_t_chirho, lt_a_chirho],
                preds_chirho: vec![],
                ty_chirho: TyChirho::fun_chirho(lt_ma_chirho, lt_tma_chirho),
            },
        );
    }
    // -----------------------------------------------------------------------
    // StateT monad operations
    // -----------------------------------------------------------------------
    // get :: StateT s s
    {
        let gs_chirho = TyVarChirho(3510);
        let state_t_s_chirho = TyChirho::app_chirho(
            TyChirho::app_chirho(
                TyChirho::con_chirho("StateT".to_string()),
                TyChirho::var_chirho(gs_chirho),
            ),
            TyChirho::var_chirho(gs_chirho),
        );
        env_chirho.bind_chirho(
            "get".to_string(),
            SchemeChirho {
                vars_chirho: vec![gs_chirho],
                preds_chirho: vec![],
                ty_chirho: state_t_s_chirho,
            },
        );
    }
    // put :: s -> StateT s ()
    {
        let ps_chirho = TyVarChirho(3511);
        let state_t_unit_chirho = TyChirho::app_chirho(
            TyChirho::app_chirho(
                TyChirho::con_chirho("StateT".to_string()),
                TyChirho::var_chirho(ps_chirho),
            ),
            TyChirho::unit_chirho(),
        );
        env_chirho.bind_chirho(
            "put".to_string(),
            SchemeChirho {
                vars_chirho: vec![ps_chirho],
                preds_chirho: vec![],
                ty_chirho: TyChirho::fun_chirho(TyChirho::var_chirho(ps_chirho), state_t_unit_chirho),
            },
        );
    }
    // modify :: (s -> s) -> StateT s ()
    {
        let ms_chirho = TyVarChirho(3512);
        let state_t_unit_chirho = TyChirho::app_chirho(
            TyChirho::app_chirho(
                TyChirho::con_chirho("StateT".to_string()),
                TyChirho::var_chirho(ms_chirho),
            ),
            TyChirho::unit_chirho(),
        );
        env_chirho.bind_chirho(
            "modify".to_string(),
            SchemeChirho {
                vars_chirho: vec![ms_chirho],
                preds_chirho: vec![],
                ty_chirho: TyChirho::fun_chirho(
                    TyChirho::fun_chirho(
                        TyChirho::var_chirho(ms_chirho),
                        TyChirho::var_chirho(ms_chirho),
                    ),
                    state_t_unit_chirho,
                ),
            },
        );
    }
    proof {
        assert(env_chirho.map() =~~= before.union_prefer_right(builtin_schemes_14()));
    }
}

fn seed_builtins_part_15_chirho(env_chirho: &mut TyEnvChirho)
    ensures
        final(env_chirho).map() == old(env_chirho).map().union_prefer_right(builtin_schemes_15()),
{
    let ghost before = old(env_chirho).map();
    // evalState :: StateT s a -> s -> a
    {
        let es_s_chirho = TyVarChirho(3513);
        let es_a_chirho = TyVarChirho(3514);
        let state_t_chirho = TyChirho::app_chirho(
            TyChirho::app_chirho(
                TyChirho::con_chirho("StateT".to_string()),
                TyChirho::var_chirho(es_s_chirho),
            ),
            TyChirho::var_chirho(es_a_chirho),
        );
        env_chirho.bind_chirho(
            "evalState".to_string(),
            SchemeChirho {
                vars_chirho: vec![es_s_chirho, es_a_chirho],
                preds_chirho: vec![],
                ty_chirho: TyChirho::fun_chirho(
                    state_t_chirho,
                    TyChirho::fun_chirho(
                        TyChirho::var_chirho(es_s_chirho),
                        TyChirho::var_chirho(es_a_chirho),
                    ),
                ),
            },
        );
    }
    // execState :: StateT s a -> s -> s
    {
        let xs_s_chirho = TyVarChirho(3515);
        let xs_a_chirho = TyVarChirho(3516);
        let state_t_chirho = TyChirho::app_chirho(
            TyChirho::app_chirho(
                TyChirho::con_chirho("StateT".to_string()),
                TyChirho::var_chirho(xs_s_chirho),
            ),
            TyChirho::var_chirho(xs_a_chirho),
        );
        env_chirho.bind_chirho(
            "execState".to_string(),
            SchemeChirho {
                vars_chirho: vec![xs_s_chirho, xs_a_chirho],
                preds_chirho: vec![],
                ty_chirho: TyChirho::fun_chirho(
                    state_t_chirho,
                    TyChirho::fun_chirho(
                        TyChirho::var_chirho(xs_s_chirho),
                        TyChirho::var_chirho(xs_s_chirho),
                    ),
                ),
            },
        );
    }
    // bindStateT :: StateT s a -> (a -> StateT s b) -> StateT s b
    {
        let bs_s_chirho = TyVarChirho(3517);
        let bs_a_chirho = TyVarChirho(3518);
        let bs_b_chirho = TyVarChirho(3519);
        let state_t_a_chirho = TyChirho::app_chirho(
            TyChirho::app_chirho(
                TyChirho::con_chirho("StateT".to_string()),
                TyChirho::var_chirho(bs_s_chirho),
            ),
            TyChirho::var_chirho(bs_a_chirho),
        );
        let state_t_b_chirho = TyChirho::app_chirho(
            TyChirho::app_chirho(
                TyChirho::con_chirho("StateT".to_string()),
                TyChirho::var_chirho(bs_s_chirho),
            ),
            TyChirho::var_chirho(bs_b_chirho),
        );
        env_chirho.bind_chirho(
            "bindStateT".to_string(),
            SchemeChirho {
                vars_chirho: vec![bs_s_chirho, bs_a_chirho, bs_b_chirho],
                preds_chirho: vec![],
                ty_chirho: TyChirho::fun_chirho(
                    state_t_a_chirho,
                    TyChirho::fun_chirho(
                        TyChirho::fun_chirho(
                            TyChirho::var_chirho(bs_a_chirho),
                            state_t_b_chirho.copy_chirho(),
                        ),
                        state_t_b_chirho,
                    ),
                ),
            },
        );
    }
    // returnStateT :: a -> StateT s a
    {
        let rs_s_chirho = TyVarChirho(3520);
        let rs_a_chirho = TyVarChirho(3521);
        let state_t_chirho = TyChirho::app_chirho(
            TyChirho::app_chirho(
                TyChirho::con_chirho("StateT".to_string()),
                TyChirho::var_chirho(rs_s_chirho),
            ),
            TyChirho::var_chirho(rs_a_chirho),
        );
        env_chirho.bind_chirho(
            "returnStateT".to_string(),
            SchemeChirho {
                vars_chirho: vec![rs_s_chirho, rs_a_chirho],
                preds_chirho: vec![],
                ty_chirho: TyChirho::fun_chirho(TyChirho::var_chirho(rs_a_chirho), state_t_chirho),
            },
        );
    }
    // runState :: StateT s a -> s -> (a, s)  (alias for runStateT)
    {
        let rns_s_chirho = TyVarChirho(3522);
        let rns_a_chirho = TyVarChirho(3523);
        let state_t_chirho = TyChirho::app_chirho(
            TyChirho::app_chirho(
                TyChirho::con_chirho("StateT".to_string()),
                TyChirho::var_chirho(rns_s_chirho),
            ),
            TyChirho::var_chirho(rns_a_chirho),
        );
        env_chirho.bind_chirho(
            "runState".to_string(),
            SchemeChirho {
                vars_chirho: vec![rns_s_chirho, rns_a_chirho],
                preds_chirho: vec![],
                ty_chirho: TyChirho::fun_chirho(
                    state_t_chirho,
                    TyChirho::fun_chirho(
                        TyChirho::var_chirho(rns_s_chirho),
                        TyChirho::pair_chirho(
                            TyChirho::var_chirho(rns_a_chirho),
                            TyChirho::var_chirho(rns_s_chirho),
                        ),
                    ),
                ),
            },
        );
    }
    // -----------------------------------------------------------------------
    // ReaderT monad transformer
    // -----------------------------------------------------------------------
    // ReaderT :: (r -> a) -> ReaderT r a
    // runReaderT :: ReaderT r a -> r -> a
    {
        let rt_r_chirho = TyVarChirho(3530);
        let rt_a_chirho = TyVarChirho(3531);
        let rt_fn_ty_chirho = TyChirho::fun_chirho(TyChirho::var_chirho(rt_r_chirho), TyChirho::var_chirho(rt_a_chirho));
        let readert_ty_chirho = TyChirho::app_chirho(
            TyChirho::app_chirho(
                TyChirho::con_chirho("ReaderT".to_string()),
                TyChirho::var_chirho(rt_r_chirho),
            ),
            TyChirho::var_chirho(rt_a_chirho),
        );
        env_chirho.bind_chirho(
            "ReaderT".to_string(),
            SchemeChirho {
                vars_chirho: vec![rt_r_chirho, rt_a_chirho],
                preds_chirho: vec![],
                ty_chirho: TyChirho::fun_chirho(rt_fn_ty_chirho.copy_chirho(), readert_ty_chirho.copy_chirho()),
            },
        );
        env_chirho.bind_chirho(
            "runReaderT".to_string(),
            SchemeChirho {
                vars_chirho: vec![rt_r_chirho, rt_a_chirho],
                preds_chirho: vec![],
                ty_chirho: TyChirho::fun_chirho(readert_ty_chirho.copy_chirho(), rt_fn_ty_chirho.copy_chirho()),
            },
        );
    }
    // ask :: ReaderT r r
    {
        let ar_chirho = TyVarChirho(3532);
        let ask_ty_chirho = TyChirho::app_chirho(
            TyChirho::app_chirho(
                TyChirho::con_chirho("ReaderT".to_string()),
                TyChirho::var_chirho(ar_chirho),
            ),
            TyChirho::var_chirho(ar_chirho),
        );
        env_chirho.bind_chirho(
            "ask".to_string(),
            SchemeChirho {
                vars_chirho: vec![ar_chirho],
                preds_chirho: vec![],
                ty_chirho: ask_ty_chirho,
            },
        );
    }
    // local :: (r -> r) -> ReaderT r a -> ReaderT r a
    {
        let lr_chirho = TyVarChirho(3533);
        let la_chirho = TyVarChirho(3534);
        let readert_ra_chirho = TyChirho::app_chirho(
            TyChirho::app_chirho(
                TyChirho::con_chirho("ReaderT".to_string()),
                TyChirho::var_chirho(lr_chirho),
            ),
            TyChirho::var_chirho(la_chirho),
        );
        env_chirho.bind_chirho(
            "local".to_string(),
            SchemeChirho {
                vars_chirho: vec![lr_chirho, la_chirho],
                preds_chirho: vec![],
                ty_chirho: TyChirho::fun_chirho(
                    TyChirho::fun_chirho(
                        TyChirho::var_chirho(lr_chirho),
                        TyChirho::var_chirho(lr_chirho),
                    ),
                    TyChirho::fun_chirho(readert_ra_chirho.copy_chirho(), readert_ra_chirho),
                ),
            },
        );
    }
    // bindReaderT :: ReaderT r a -> (a -> ReaderT r b) -> ReaderT r b
    {
        let br_chirho = TyVarChirho(3535);
        let ba_chirho = TyVarChirho(3536);
        let bb_chirho = TyVarChirho(3537);
        let readert_ra_chirho = TyChirho::app_chirho(
            TyChirho::app_chirho(
                TyChirho::con_chirho("ReaderT".to_string()),
                TyChirho::var_chirho(br_chirho),
            ),
            TyChirho::var_chirho(ba_chirho),
        );
        let readert_rb_chirho = TyChirho::app_chirho(
            TyChirho::app_chirho(
                TyChirho::con_chirho("ReaderT".to_string()),
                TyChirho::var_chirho(br_chirho),
            ),
            TyChirho::var_chirho(bb_chirho),
        );
        env_chirho.bind_chirho(
            "bindReaderT".to_string(),
            SchemeChirho {
                vars_chirho: vec![br_chirho, ba_chirho, bb_chirho],
                preds_chirho: vec![],
                ty_chirho: TyChirho::fun_chirho(
                    readert_ra_chirho,
                    TyChirho::fun_chirho(
                        TyChirho::fun_chirho(
                            TyChirho::var_chirho(ba_chirho),
                            readert_rb_chirho.copy_chirho(),
                        ),
                        readert_rb_chirho,
                    ),
                ),
            },
        );
    }
    // returnReaderT :: a -> ReaderT r a
    {
        let rr_chirho = TyVarChirho(3538);
        let ra_chirho = TyVarChirho(3539);
        let readert_ty_chirho = TyChirho::app_chirho(
            TyChirho::app_chirho(
                TyChirho::con_chirho("ReaderT".to_string()),
                TyChirho::var_chirho(rr_chirho),
            ),
            TyChirho::var_chirho(ra_chirho),
        );
        env_chirho.bind_chirho(
            "returnReaderT".to_string(),
            SchemeChirho {
                vars_chirho: vec![rr_chirho, ra_chirho],
                preds_chirho: vec![],
                ty_chirho: TyChirho::fun_chirho(TyChirho::var_chirho(ra_chirho), readert_ty_chirho),
            },
        );
    }
    // runReader :: ReaderT r a -> r -> a  (alias)
    {
        let rnr_r_chirho = TyVarChirho(3540);
        let rnr_a_chirho = TyVarChirho(3541);
        let readert_ty_chirho = TyChirho::app_chirho(
            TyChirho::app_chirho(
                TyChirho::con_chirho("ReaderT".to_string()),
                TyChirho::var_chirho(rnr_r_chirho),
            ),
            TyChirho::var_chirho(rnr_a_chirho),
        );
        env_chirho.bind_chirho(
            "runReader".to_string(),
            SchemeChirho {
                vars_chirho: vec![rnr_r_chirho, rnr_a_chirho],
                preds_chirho: vec![],
                ty_chirho: TyChirho::fun_chirho(
                    readert_ty_chirho,
                    TyChirho::fun_chirho(
                        TyChirho::var_chirho(rnr_r_chirho),
                        TyChirho::var_chirho(rnr_a_chirho),
                    ),
                ),
            },
        );
    }
    // -----------------------------------------------------------------------
    // ExceptT monad transformer
    // -----------------------------------------------------------------------
    // ExceptT :: Either e a -> ExceptT e a
    // runExceptT :: ExceptT e a -> Either e a
    {
        let et_e_chirho = TyVarChirho(3550);
        let et_a_chirho = TyVarChirho(3551);
        let either_ea_chirho = TyChirho::app_chirho(
            TyChirho::app_chirho(
                TyChirho::con_chirho("Either".to_string()),
                TyChirho::var_chirho(et_e_chirho),
            ),
            TyChirho::var_chirho(et_a_chirho),
        );
        let exceptt_ty_chirho = TyChirho::app_chirho(
            TyChirho::app_chirho(
                TyChirho::con_chirho("ExceptT".to_string()),
                TyChirho::var_chirho(et_e_chirho),
            ),
            TyChirho::var_chirho(et_a_chirho),
        );
        env_chirho.bind_chirho(
            "ExceptT".to_string(),
            SchemeChirho {
                vars_chirho: vec![et_e_chirho, et_a_chirho],
                preds_chirho: vec![],
                ty_chirho: TyChirho::fun_chirho(
                    either_ea_chirho.copy_chirho(),
                    exceptt_ty_chirho.copy_chirho(),
                ),
            },
        );
        env_chirho.bind_chirho(
            "runExceptT".to_string(),
            SchemeChirho {
                vars_chirho: vec![et_e_chirho, et_a_chirho],
                preds_chirho: vec![],
                ty_chirho: TyChirho::fun_chirho(exceptt_ty_chirho, either_ea_chirho),
            },
        );
    }
    // throwE :: e -> ExceptT e a
    {
        let te_e_chirho = TyVarChirho(3552);
        let te_a_chirho = TyVarChirho(3553);
        let exceptt_ty_chirho = TyChirho::app_chirho(
            TyChirho::app_chirho(
                TyChirho::con_chirho("ExceptT".to_string()),
                TyChirho::var_chirho(te_e_chirho),
            ),
            TyChirho::var_chirho(te_a_chirho),
        );
        env_chirho.bind_chirho(
            "throwE".to_string(),
            SchemeChirho {
                vars_chirho: vec![te_e_chirho, te_a_chirho],
                preds_chirho: vec![],
                ty_chirho: TyChirho::fun_chirho(TyChirho::var_chirho(te_e_chirho), exceptt_ty_chirho),
            },
        );
    }
    // returnExceptT :: a -> ExceptT e a
    {
        let re_e_chirho = TyVarChirho(3554);
        let re_a_chirho = TyVarChirho(3555);
        let exceptt_ty_chirho = TyChirho::app_chirho(
            TyChirho::app_chirho(
                TyChirho::con_chirho("ExceptT".to_string()),
                TyChirho::var_chirho(re_e_chirho),
            ),
            TyChirho::var_chirho(re_a_chirho),
        );
        env_chirho.bind_chirho(
            "returnExceptT".to_string(),
            SchemeChirho {
                vars_chirho: vec![re_e_chirho, re_a_chirho],
                preds_chirho: vec![],
                ty_chirho: TyChirho::fun_chirho(TyChirho::var_chirho(re_a_chirho), exceptt_ty_chirho),
            },
        );
    }
    // bindExceptT :: ExceptT e a -> (a -> ExceptT e b) -> ExceptT e b
    {
        let be_e_chirho = TyVarChirho(3556);
        let be_a_chirho = TyVarChirho(3557);
        let be_b_chirho = TyVarChirho(3558);
        let exceptt_ea_chirho = TyChirho::app_chirho(
            TyChirho::app_chirho(
                TyChirho::con_chirho("ExceptT".to_string()),
                TyChirho::var_chirho(be_e_chirho),
            ),
            TyChirho::var_chirho(be_a_chirho),
        );
        let exceptt_eb_chirho = TyChirho::app_chirho(
            TyChirho::app_chirho(
                TyChirho::con_chirho("ExceptT".to_string()),
                TyChirho::var_chirho(be_e_chirho),
            ),
            TyChirho::var_chirho(be_b_chirho),
        );
        env_chirho.bind_chirho(
            "bindExceptT".to_string(),
            SchemeChirho {
                vars_chirho: vec![be_e_chirho, be_a_chirho, be_b_chirho],
                preds_chirho: vec![],
                ty_chirho: TyChirho::fun_chirho(
                    exceptt_ea_chirho,
                    TyChirho::fun_chirho(
                        TyChirho::fun_chirho(
                            TyChirho::var_chirho(be_a_chirho),
                            exceptt_eb_chirho.copy_chirho(),
                        ),
                        exceptt_eb_chirho,
                    ),
                ),
            },
        );
    }
    // catchE :: ExceptT e a -> (e -> ExceptT e a) -> ExceptT e a
    {
        let ce_e_chirho = TyVarChirho(3559);
        let ce_a_chirho = TyVarChirho(3560);
        let exceptt_ea_chirho = TyChirho::app_chirho(
            TyChirho::app_chirho(
                TyChirho::con_chirho("ExceptT".to_string()),
                TyChirho::var_chirho(ce_e_chirho),
            ),
            TyChirho::var_chirho(ce_a_chirho),
        );
        env_chirho.bind_chirho(
            "catchE".to_string(),
            SchemeChirho {
                vars_chirho: vec![ce_e_chirho, ce_a_chirho],
                preds_chirho: vec![],
                ty_chirho: TyChirho::fun_chirho(
                    exceptt_ea_chirho.copy_chirho(),
                    TyChirho::fun_chirho(
                        TyChirho::fun_chirho(
                            TyChirho::var_chirho(ce_e_chirho),
                            exceptt_ea_chirho.copy_chirho(),
                        ),
                        exceptt_ea_chirho,
                    ),
                ),
            },
        );
    }
    // -----------------------------------------------------------------------
    // MaybeT operations (returnMaybeT, bindMaybeT)
    // -----------------------------------------------------------------------
    // returnMaybeT :: forall a. a -> MaybeT a
    {
        let rmt_a_chirho = TyVarChirho(3570);
        let maybet_a_chirho = TyChirho::app_chirho(
            TyChirho::con_chirho("MaybeT".to_string()),
            TyChirho::var_chirho(rmt_a_chirho),
        );
        env_chirho.bind_chirho(
            "returnMaybeT".to_string(),
            SchemeChirho {
                vars_chirho: vec![rmt_a_chirho],
                preds_chirho: vec![],
                ty_chirho: TyChirho::fun_chirho(TyChirho::var_chirho(rmt_a_chirho), maybet_a_chirho),
            },
        );
    }
    // bindMaybeT :: forall a b. MaybeT a -> (a -> MaybeT b) -> MaybeT b
    {
        let bmt_a_chirho = TyVarChirho(3571);
        let bmt_b_chirho = TyVarChirho(3572);
        let maybet_a_chirho = TyChirho::app_chirho(
            TyChirho::con_chirho("MaybeT".to_string()),
            TyChirho::var_chirho(bmt_a_chirho),
        );
        let maybet_b_chirho = TyChirho::app_chirho(
            TyChirho::con_chirho("MaybeT".to_string()),
            TyChirho::var_chirho(bmt_b_chirho),
        );
        env_chirho.bind_chirho(
            "bindMaybeT".to_string(),
            SchemeChirho {
                vars_chirho: vec![bmt_a_chirho, bmt_b_chirho],
                preds_chirho: vec![],
                ty_chirho: TyChirho::fun_chirho(
                    maybet_a_chirho,
                    TyChirho::fun_chirho(
                        TyChirho::fun_chirho(
                            TyChirho::var_chirho(bmt_a_chirho),
                            maybet_b_chirho.copy_chirho(),
                        ),
                        maybet_b_chirho,
                    ),
                ),
            },
        );
    }
    proof {
        assert(env_chirho.map() =~~= before.union_prefer_right(builtin_schemes_15()));
    }
}

fn seed_builtins_part_16_chirho(env_chirho: &mut TyEnvChirho)
    ensures
        final(env_chirho).map() == old(env_chirho).map().union_prefer_right(builtin_schemes_16()),
{
    let ghost before = old(env_chirho).map();
    let rep_a_chirho = TyVarChirho(3250);
    // -----------------------------------------------------------------------
    // WriterT operations (WriterT, runWriterT, runWriter, tell, returnWriterT,
    //   bindWriterT, execWriterT, execWriter)
    // -----------------------------------------------------------------------
    // WriterT :: forall w a. (a, w) -> WriterT w a
    {
        let wt_w_chirho = TyVarChirho(3580);
        let wt_a_chirho = TyVarChirho(3581);
        let writert_wa_chirho = TyChirho::app_chirho(
            TyChirho::app_chirho(
                TyChirho::con_chirho("WriterT".to_string()),
                TyChirho::var_chirho(wt_w_chirho),
            ),
            TyChirho::var_chirho(wt_a_chirho),
        );
        let tuple_aw_chirho = TyChirho::pair_chirho(TyChirho::var_chirho(wt_a_chirho), TyChirho::var_chirho(wt_w_chirho));
        env_chirho.bind_chirho(
            "WriterT".to_string(),
            SchemeChirho {
                vars_chirho: vec![wt_w_chirho, wt_a_chirho],
                preds_chirho: vec![],
                ty_chirho: TyChirho::fun_chirho(tuple_aw_chirho, writert_wa_chirho),
            },
        );
    }
    // runWriterT :: forall w a. WriterT w a -> (a, w)
    {
        let rwt_w_chirho = TyVarChirho(3582);
        let rwt_a_chirho = TyVarChirho(3583);
        let writert_wa_chirho = TyChirho::app_chirho(
            TyChirho::app_chirho(
                TyChirho::con_chirho("WriterT".to_string()),
                TyChirho::var_chirho(rwt_w_chirho),
            ),
            TyChirho::var_chirho(rwt_a_chirho),
        );
        let tuple_aw_chirho = TyChirho::pair_chirho(
            TyChirho::var_chirho(rwt_a_chirho),
            TyChirho::var_chirho(rwt_w_chirho),
        );
        env_chirho.bind_chirho(
            "runWriterT".to_string(),
            SchemeChirho {
                vars_chirho: vec![rwt_w_chirho, rwt_a_chirho],
                preds_chirho: vec![],
                ty_chirho: TyChirho::fun_chirho(writert_wa_chirho, tuple_aw_chirho),
            },
        );
    }
    // runWriter :: forall w a. WriterT w a -> (a, w)  (alias)
    {
        let rw_w_chirho = TyVarChirho(3584);
        let rw_a_chirho = TyVarChirho(3585);
        let writert_wa_chirho = TyChirho::app_chirho(
            TyChirho::app_chirho(
                TyChirho::con_chirho("WriterT".to_string()),
                TyChirho::var_chirho(rw_w_chirho),
            ),
            TyChirho::var_chirho(rw_a_chirho),
        );
        let tuple_aw_chirho = TyChirho::pair_chirho(TyChirho::var_chirho(rw_a_chirho), TyChirho::var_chirho(rw_w_chirho));
        env_chirho.bind_chirho(
            "runWriter".to_string(),
            SchemeChirho {
                vars_chirho: vec![rw_w_chirho, rw_a_chirho],
                preds_chirho: vec![],
                ty_chirho: TyChirho::fun_chirho(writert_wa_chirho, tuple_aw_chirho),
            },
        );
    }
    // tell :: forall w. w -> WriterT w ()
    {
        let t_w_chirho = TyVarChirho(3586);
        let writert_w_unit_chirho = TyChirho::app_chirho(
            TyChirho::app_chirho(
                TyChirho::con_chirho("WriterT".to_string()),
                TyChirho::var_chirho(t_w_chirho),
            ),
            TyChirho::unit_chirho(),
        );
        env_chirho.bind_chirho(
            "tell".to_string(),
            SchemeChirho {
                vars_chirho: vec![t_w_chirho],
                preds_chirho: vec![],
                ty_chirho: TyChirho::fun_chirho(TyChirho::var_chirho(t_w_chirho), writert_w_unit_chirho),
            },
        );
    }
    // returnWriterT :: forall w a. a -> WriterT w a
    {
        let rwt_w_chirho = TyVarChirho(3587);
        let rwt_a_chirho = TyVarChirho(3588);
        let writert_wa_chirho = TyChirho::app_chirho(
            TyChirho::app_chirho(
                TyChirho::con_chirho("WriterT".to_string()),
                TyChirho::var_chirho(rwt_w_chirho),
            ),
            TyChirho::var_chirho(rwt_a_chirho),
        );
        env_chirho.bind_chirho(
            "returnWriterT".to_string(),
            SchemeChirho {
                vars_chirho: vec![rwt_w_chirho, rwt_a_chirho],
                preds_chirho: vec![],
                ty_chirho: TyChirho::fun_chirho(TyChirho::var_chirho(rwt_a_chirho), writert_wa_chirho),
            },
        );
    }
    // bindWriterT :: forall w a b. WriterT w a -> (a -> WriterT w b) -> WriterT w b
    {
        let bwt_w_chirho = TyVarChirho(3589);
        let bwt_a_chirho = TyVarChirho(3590);
        let bwt_b_chirho = TyVarChirho(3591);
        let writert_wa_chirho = TyChirho::app_chirho(
            TyChirho::app_chirho(
                TyChirho::con_chirho("WriterT".to_string()),
                TyChirho::var_chirho(bwt_w_chirho),
            ),
            TyChirho::var_chirho(bwt_a_chirho),
        );
        let writert_wb_chirho = TyChirho::app_chirho(
            TyChirho::app_chirho(
                TyChirho::con_chirho("WriterT".to_string()),
                TyChirho::var_chirho(bwt_w_chirho),
            ),
            TyChirho::var_chirho(bwt_b_chirho),
        );
        env_chirho.bind_chirho(
            "bindWriterT".to_string(),
            SchemeChirho {
                vars_chirho: vec![bwt_w_chirho, bwt_a_chirho, bwt_b_chirho],
                preds_chirho: vec![],
                ty_chirho: TyChirho::fun_chirho(
                    writert_wa_chirho,
                    TyChirho::fun_chirho(
                        TyChirho::fun_chirho(
                            TyChirho::var_chirho(bwt_a_chirho),
                            writert_wb_chirho.copy_chirho(),
                        ),
                        writert_wb_chirho,
                    ),
                ),
            },
        );
    }
    // execWriterT :: forall w a. WriterT w a -> w
    {
        let ewt_w_chirho = TyVarChirho(3592);
        let ewt_a_chirho = TyVarChirho(3593);
        let writert_wa_chirho = TyChirho::app_chirho(
            TyChirho::app_chirho(
                TyChirho::con_chirho("WriterT".to_string()),
                TyChirho::var_chirho(ewt_w_chirho),
            ),
            TyChirho::var_chirho(ewt_a_chirho),
        );
        env_chirho.bind_chirho(
            "execWriterT".to_string(),
            SchemeChirho {
                vars_chirho: vec![ewt_w_chirho, ewt_a_chirho],
                preds_chirho: vec![],
                ty_chirho: TyChirho::fun_chirho(writert_wa_chirho, TyChirho::var_chirho(ewt_w_chirho)),
            },
        );
    }
    // execWriter :: forall w a. WriterT w a -> w  (alias)
    {
        let ew_w_chirho = TyVarChirho(3594);
        let ew_a_chirho = TyVarChirho(3595);
        let writert_wa_chirho = TyChirho::app_chirho(
            TyChirho::app_chirho(
                TyChirho::con_chirho("WriterT".to_string()),
                TyChirho::var_chirho(ew_w_chirho),
            ),
            TyChirho::var_chirho(ew_a_chirho),
        );
        env_chirho.bind_chirho(
            "execWriter".to_string(),
            SchemeChirho {
                vars_chirho: vec![ew_w_chirho, ew_a_chirho],
                preds_chirho: vec![],
                ty_chirho: TyChirho::fun_chirho(writert_wa_chirho, TyChirho::var_chirho(ew_w_chirho)),
            },
        );
    }
    // -----------------------------------------------------------------------
    // Additional utility functions (repeat, cycle, fix, group, etc.)
    // -----------------------------------------------------------------------
    // repeat :: forall a. a -> [a]
    {
        let rep_a_chirho = TyVarChirho(4100);
        env_chirho.bind_chirho(
            "repeat".to_string(),
            SchemeChirho {
                vars_chirho: vec![rep_a_chirho],
                preds_chirho: vec![],
                ty_chirho: TyChirho::fun_chirho(
                    TyChirho::var_chirho(rep_a_chirho),
                    TyChirho::list_chirho(TyChirho::var_chirho(rep_a_chirho)),
                ),
            },
        );
    }
    // cycle :: forall a. [a] -> [a]
    {
        let cyc_a_chirho = TyVarChirho(4101);
        env_chirho.bind_chirho(
            "cycle".to_string(),
            SchemeChirho {
                vars_chirho: vec![cyc_a_chirho],
                preds_chirho: vec![],
                ty_chirho: TyChirho::fun_chirho(
                    TyChirho::list_chirho(TyChirho::var_chirho(cyc_a_chirho)),
                    TyChirho::list_chirho(TyChirho::var_chirho(cyc_a_chirho)),
                ),
            },
        );
    }
    // fix :: forall a. (a -> a) -> a
    {
        let fix_a_chirho = TyVarChirho(4102);
        env_chirho.bind_chirho(
            "fix".to_string(),
            SchemeChirho {
                vars_chirho: vec![fix_a_chirho],
                preds_chirho: vec![],
                ty_chirho: TyChirho::fun_chirho(
                    TyChirho::fun_chirho(
                        TyChirho::var_chirho(fix_a_chirho),
                        TyChirho::var_chirho(fix_a_chirho),
                    ),
                    TyChirho::var_chirho(fix_a_chirho),
                ),
            },
        );
    }
    // group :: [Int] -> [[Int]]
    env_chirho.bind_chirho(
        "group".to_string(),
        SchemeChirho {
            vars_chirho: vec![],
            preds_chirho: vec![],
            ty_chirho: TyChirho::fun_chirho(
                TyChirho::list_chirho(TyChirho::int_chirho()),
                TyChirho::list_chirho(TyChirho::list_chirho(TyChirho::int_chirho())),
            ),
        },
    );
    // zipWith3 :: forall a b c d. (a -> b -> c -> d) -> [a] -> [b] -> [c] -> [d]
    {
        let zw3_a_chirho = TyVarChirho(4110);
        let zw3_b_chirho = TyVarChirho(4111);
        let zw3_c_chirho = TyVarChirho(4112);
        let zw3_d_chirho = TyVarChirho(4113);
        env_chirho.bind_chirho(
            "zipWith3".to_string(),
            SchemeChirho {
                vars_chirho: vec![zw3_a_chirho, zw3_b_chirho, zw3_c_chirho, zw3_d_chirho],
                preds_chirho: vec![],
                ty_chirho: TyChirho::fun_chirho(
                    TyChirho::fun_chirho(
                        TyChirho::var_chirho(zw3_a_chirho),
                        TyChirho::fun_chirho(
                            TyChirho::var_chirho(zw3_b_chirho),
                            TyChirho::fun_chirho(
                                TyChirho::var_chirho(zw3_c_chirho),
                                TyChirho::var_chirho(zw3_d_chirho),
                            ),
                        ),
                    ),
                    TyChirho::fun_chirho(
                        TyChirho::list_chirho(TyChirho::var_chirho(zw3_a_chirho)),
                        TyChirho::fun_chirho(
                            TyChirho::list_chirho(TyChirho::var_chirho(zw3_b_chirho)),
                            TyChirho::fun_chirho(
                                TyChirho::list_chirho(TyChirho::var_chirho(zw3_c_chirho)),
                                TyChirho::list_chirho(TyChirho::var_chirho(zw3_d_chirho)),
                            ),
                        ),
                    ),
                ),
            },
        );
    }
    // first :: forall a b c. (a -> b) -> (a, c) -> (b, c)
    {
        let fi_a_chirho = TyVarChirho(4120);
        let fi_b_chirho = TyVarChirho(4121);
        let fi_c_chirho = TyVarChirho(4122);
        env_chirho.bind_chirho(
            "first".to_string(),
            SchemeChirho {
                vars_chirho: vec![fi_a_chirho, fi_b_chirho, fi_c_chirho],
                preds_chirho: vec![],
                ty_chirho: TyChirho::fun_chirho(
                    TyChirho::fun_chirho(
                        TyChirho::var_chirho(fi_a_chirho),
                        TyChirho::var_chirho(fi_b_chirho),
                    ),
                    TyChirho::fun_chirho(
                        TyChirho::pair_chirho(
                            TyChirho::var_chirho(fi_a_chirho),
                            TyChirho::var_chirho(fi_c_chirho),
                        ),
                        TyChirho::pair_chirho(
                            TyChirho::var_chirho(fi_b_chirho),
                            TyChirho::var_chirho(fi_c_chirho),
                        ),
                    ),
                ),
            },
        );
    }
    // second :: forall a b c. (b -> c) -> (a, b) -> (a, c)
    {
        let se_a_chirho = TyVarChirho(4123);
        let se_b_chirho = TyVarChirho(4124);
        let se_c_chirho = TyVarChirho(4125);
        env_chirho.bind_chirho(
            "second".to_string(),
            SchemeChirho {
                vars_chirho: vec![se_a_chirho, se_b_chirho, se_c_chirho],
                preds_chirho: vec![],
                ty_chirho: TyChirho::fun_chirho(
                    TyChirho::fun_chirho(
                        TyChirho::var_chirho(se_b_chirho),
                        TyChirho::var_chirho(se_c_chirho),
                    ),
                    TyChirho::fun_chirho(
                        TyChirho::pair_chirho(
                            TyChirho::var_chirho(se_a_chirho),
                            TyChirho::var_chirho(se_b_chirho),
                        ),
                        TyChirho::pair_chirho(
                            TyChirho::var_chirho(se_a_chirho),
                            TyChirho::var_chirho(se_c_chirho),
                        ),
                    ),
                ),
            },
        );
    }
    // -----------------------------------------------------------------------
    // Exception handling
    // -----------------------------------------------------------------------
    // catch :: forall a. IO a -> (String -> IO a) -> IO a
    {
        let catch_a_chirho = TyVarChirho(4130);
        env_chirho.bind_chirho(
            "catch".to_string(),
            SchemeChirho {
                vars_chirho: vec![catch_a_chirho],
                preds_chirho: vec![],
                ty_chirho: TyChirho::fun_chirho(
                    TyChirho::io_chirho(TyChirho::var_chirho(catch_a_chirho)),
                    TyChirho::fun_chirho(
                        TyChirho::fun_chirho(
                            TyChirho::string_chirho(),
                            TyChirho::io_chirho(TyChirho::var_chirho(catch_a_chirho)),
                        ),
                        TyChirho::io_chirho(TyChirho::var_chirho(catch_a_chirho)),
                    ),
                ),
            },
        );
    }
    // throw :: forall a. String -> a
    {
        let throw_a_chirho = TyVarChirho(4131);
        env_chirho.bind_chirho(
            "throw".to_string(),
            SchemeChirho {
                vars_chirho: vec![throw_a_chirho],
                preds_chirho: vec![],
                ty_chirho: TyChirho::fun_chirho(
                    TyChirho::string_chirho(),
                    TyChirho::var_chirho(throw_a_chirho),
                ),
            },
        );
    }
    // try :: forall a. IO a -> IO (Either String a)
    {
        let try_a_chirho = TyVarChirho(4132);
        let either_string_a_chirho = TyChirho::app_chirho(
            TyChirho::app_chirho(
                TyChirho::con_chirho("Either".to_string()),
                TyChirho::string_chirho(),
            ),
            TyChirho::var_chirho(try_a_chirho),
        );
        env_chirho.bind_chirho(
            "try".to_string(),
            SchemeChirho {
                vars_chirho: vec![try_a_chirho],
                preds_chirho: vec![],
                ty_chirho: TyChirho::fun_chirho(
                    TyChirho::io_chirho(TyChirho::var_chirho(try_a_chirho)),
                    TyChirho::io_chirho(either_string_a_chirho),
                ),
            },
        );
    }
    // throwIO :: forall a. String -> IO a
    {
        let throwio_a_chirho = TyVarChirho(4160);
        env_chirho.bind_chirho(
            "throwIO".to_string(),
            SchemeChirho {
                vars_chirho: vec![throwio_a_chirho],
                preds_chirho: vec![],
                ty_chirho: TyChirho::fun_chirho(
                    TyChirho::string_chirho(),
                    TyChirho::io_chirho(TyChirho::var_chirho(throwio_a_chirho)),
                ),
            },
        );
    }
    // bracket :: forall a b c. IO a -> (a -> IO b) -> (a -> IO c) -> IO c
    {
        let br_a_chirho = TyVarChirho(4161);
        let br_b_chirho = TyVarChirho(4162);
        let br_c_chirho = TyVarChirho(4163);
        env_chirho.bind_chirho(
            "bracket".to_string(),
            SchemeChirho {
                vars_chirho: vec![br_a_chirho, br_b_chirho, br_c_chirho],
                preds_chirho: vec![],
                ty_chirho: TyChirho::fun_chirho(
                    TyChirho::io_chirho(TyChirho::var_chirho(br_a_chirho)),
                    TyChirho::fun_chirho(
                        TyChirho::fun_chirho(
                            TyChirho::var_chirho(br_a_chirho),
                            TyChirho::io_chirho(TyChirho::var_chirho(br_b_chirho)),
                        ),
                        TyChirho::fun_chirho(
                            TyChirho::fun_chirho(
                                TyChirho::var_chirho(br_a_chirho),
                                TyChirho::io_chirho(TyChirho::var_chirho(br_c_chirho)),
                            ),
                            TyChirho::io_chirho(TyChirho::var_chirho(br_c_chirho)),
                        ),
                    ),
                ),
            },
        );
    }
    proof {
        assert(env_chirho.map() =~~= before.union_prefer_right(builtin_schemes_16()));
    }
}

fn seed_builtins_part_17_chirho(env_chirho: &mut TyEnvChirho)
    ensures
        final(env_chirho).map() == old(env_chirho).map().union_prefer_right(builtin_schemes_17()),
{
    let ghost before = old(env_chirho).map();
    // finally :: forall a b. IO a -> IO b -> IO a
    {
        let fin_a_chirho = TyVarChirho(4164);
        let fin_b_chirho = TyVarChirho(4165);
        env_chirho.bind_chirho(
            "finally".to_string(),
            SchemeChirho {
                vars_chirho: vec![fin_a_chirho, fin_b_chirho],
                preds_chirho: vec![],
                ty_chirho: TyChirho::fun_chirho(
                    TyChirho::io_chirho(TyChirho::var_chirho(fin_a_chirho)),
                    TyChirho::fun_chirho(
                        TyChirho::io_chirho(TyChirho::var_chirho(fin_b_chirho)),
                        TyChirho::io_chirho(TyChirho::var_chirho(fin_a_chirho)),
                    ),
                ),
            },
        );
    }
    // both :: forall a b. (a -> b) -> (a, a) -> (b, b)
    {
        let bo_a_chirho = TyVarChirho(4126);
        let bo_b_chirho = TyVarChirho(4127);
        env_chirho.bind_chirho(
            "both".to_string(),
            SchemeChirho {
                vars_chirho: vec![bo_a_chirho, bo_b_chirho],
                preds_chirho: vec![],
                ty_chirho: TyChirho::fun_chirho(
                    TyChirho::fun_chirho(
                        TyChirho::var_chirho(bo_a_chirho),
                        TyChirho::var_chirho(bo_b_chirho),
                    ),
                    TyChirho::fun_chirho(
                        TyChirho::pair_chirho(
                            TyChirho::var_chirho(bo_a_chirho),
                            TyChirho::var_chirho(bo_a_chirho),
                        ),
                        TyChirho::pair_chirho(
                            TyChirho::var_chirho(bo_b_chirho),
                            TyChirho::var_chirho(bo_b_chirho),
                        ),
                    ),
                ),
            },
        );
    }
    // tails :: forall a. [a] -> [[a]]
    {
        let tl_a_chirho = TyVarChirho(4130);
        env_chirho.bind_chirho(
            "tails".to_string(),
            SchemeChirho {
                vars_chirho: vec![tl_a_chirho],
                preds_chirho: vec![],
                ty_chirho: TyChirho::fun_chirho(
                    TyChirho::list_chirho(TyChirho::var_chirho(tl_a_chirho)),
                    TyChirho::list_chirho(TyChirho::list_chirho(TyChirho::var_chirho(tl_a_chirho))),
                ),
            },
        );
    }
    // inits :: forall a. [a] -> [[a]]
    {
        let in_a_chirho = TyVarChirho(4131);
        env_chirho.bind_chirho(
            "inits".to_string(),
            SchemeChirho {
                vars_chirho: vec![in_a_chirho],
                preds_chirho: vec![],
                ty_chirho: TyChirho::fun_chirho(
                    TyChirho::list_chirho(TyChirho::var_chirho(in_a_chirho)),
                    TyChirho::list_chirho(TyChirho::list_chirho(TyChirho::var_chirho(in_a_chirho))),
                ),
            },
        );
    }
    // ── Library function type schemes (imported modules) ────────────────
    // coerce :: Coercible a b => a -> b
    {
        let a_chirho = TyVarChirho(7100);
        let b_chirho = TyVarChirho(7101);
        env_chirho.bind_chirho(
            "coerce".to_string(),
            SchemeChirho {
                vars_chirho: vec![a_chirho, b_chirho],
                preds_chirho: vec![],
                ty_chirho: TyChirho::fun_chirho(TyChirho::var_chirho(a_chirho), TyChirho::var_chirho(b_chirho)),
            },
        );
    }
    // unsafeCoerce :: a -> b
    {
        let a_chirho = TyVarChirho(7110);
        let b_chirho = TyVarChirho(7111);
        let scheme_chirho = SchemeChirho {
            vars_chirho: vec![a_chirho, b_chirho],
            preds_chirho: vec![],
            ty_chirho: TyChirho::fun_chirho(TyChirho::var_chirho(a_chirho), TyChirho::var_chirho(b_chirho)),
        };
        env_chirho.bind_chirho("unsafeCoerce".to_string(), scheme_chirho.copy_chirho());
        env_chirho.bind_chirho("unsafeCoerce#".to_string(), scheme_chirho);
    }
    // cast :: (Typeable a, Typeable b) => a -> Maybe b
    {
        let a_chirho = TyVarChirho(7120);
        let b_chirho = TyVarChirho(7121);
        env_chirho.bind_chirho(
            "cast".to_string(),
            SchemeChirho {
                vars_chirho: vec![a_chirho, b_chirho],
                preds_chirho: vec![],
                ty_chirho: TyChirho::fun_chirho(
                    TyChirho::var_chirho(a_chirho),
                    TyChirho::app_chirho(
                        TyChirho::con_chirho("Maybe".to_string()),
                        TyChirho::var_chirho(b_chirho),
                    ),
                ),
            },
        );
    }
    // eqT :: (Typeable a, Typeable b) => Maybe (a :~: b)
    // Simplified: eqT :: Maybe a (since :~: is complex)
    {
        let a_chirho = TyVarChirho(7130);
        env_chirho.bind_chirho(
            "eqT".to_string(),
            SchemeChirho {
                vars_chirho: vec![a_chirho],
                preds_chirho: vec![],
                ty_chirho: TyChirho::app_chirho(
                    TyChirho::con_chirho("Maybe".to_string()),
                    TyChirho::var_chirho(a_chirho),
                ),
            },
        );
    }
    // typeOf :: Typeable a => a -> TypeRep
    {
        let a_chirho = TyVarChirho(7140);
        env_chirho.bind_chirho(
            "typeOf".to_string(),
            SchemeChirho {
                vars_chirho: vec![a_chirho],
                preds_chirho: vec![],
                ty_chirho: TyChirho::fun_chirho(
                    TyChirho::var_chirho(a_chirho),
                    TyChirho::con_chirho("TypeRep".to_string()),
                ),
            },
        );
    }
    // typeRep :: Typeable a => Proxy a -> TypeRep
    {
        let a_chirho = TyVarChirho(7150);
        env_chirho.bind_chirho(
            "typeRep".to_string(),
            SchemeChirho {
                vars_chirho: vec![a_chirho],
                preds_chirho: vec![],
                ty_chirho: TyChirho::fun_chirho(
                    TyChirho::app_chirho(
                        TyChirho::con_chirho("Proxy".to_string()),
                        TyChirho::var_chirho(a_chirho),
                    ),
                    TyChirho::con_chirho("TypeRep".to_string()),
                ),
            },
        );
    }
    // Proxy :: Proxy a (constructor)
    {
        let a_chirho = TyVarChirho(7160);
        env_chirho.bind_chirho(
            "Proxy".to_string(),
            SchemeChirho {
                vars_chirho: vec![a_chirho],
                preds_chirho: vec![],
                ty_chirho: TyChirho::app_chirho(
                    TyChirho::con_chirho("Proxy".to_string()),
                    TyChirho::var_chirho(a_chirho),
                ),
            },
        );
    }
    // oneShot :: (a -> b) -> a -> b
    {
        let a_chirho = TyVarChirho(7170);
        let b_chirho = TyVarChirho(7171);
        env_chirho.bind_chirho(
            "oneShot".to_string(),
            SchemeChirho {
                vars_chirho: vec![a_chirho, b_chirho],
                preds_chirho: vec![],
                ty_chirho: TyChirho::fun_chirho(
                    TyChirho::fun_chirho(
                        TyChirho::var_chirho(a_chirho),
                        TyChirho::var_chirho(b_chirho),
                    ),
                    TyChirho::fun_chirho(
                        TyChirho::var_chirho(a_chirho),
                        TyChirho::var_chirho(b_chirho),
                    ),
                ),
            },
        );
    }
    // comparing :: Ord b => (a -> b) -> a -> a -> Ordering
    {
        let a_chirho = TyVarChirho(7180);
        let b_chirho = TyVarChirho(7181);
        env_chirho.bind_chirho(
            "comparing".to_string(),
            SchemeChirho {
                vars_chirho: vec![a_chirho, b_chirho],
                preds_chirho: vec![
                    SchemePredChirho {
                        class_name_chirho: "Ord".to_string(),
                        ty_chirho: TyChirho::var_chirho(b_chirho),
                    },
                ],
                ty_chirho: TyChirho::fun_chirho(
                    TyChirho::fun_chirho(
                        TyChirho::var_chirho(a_chirho),
                        TyChirho::var_chirho(b_chirho),
                    ),
                    TyChirho::fun_chirho(
                        TyChirho::var_chirho(a_chirho),
                        TyChirho::fun_chirho(
                            TyChirho::var_chirho(a_chirho),
                            TyChirho::con_chirho("Ordering".to_string()),
                        ),
                    ),
                ),
            },
        );
    }
    // liftIO :: MonadIO m => IO a -> m a
    {
        let m_chirho = TyVarChirho(7190);
        let a_chirho = TyVarChirho(7191);
        env_chirho.bind_chirho(
            "liftIO".to_string(),
            SchemeChirho {
                vars_chirho: vec![m_chirho, a_chirho],
                preds_chirho: vec![],
                ty_chirho: TyChirho::fun_chirho(
                    TyChirho::app_chirho(
                        TyChirho::con_chirho("IO".to_string()),
                        TyChirho::var_chirho(a_chirho),
                    ),
                    TyChirho::app_chirho(
                        TyChirho::var_chirho(m_chirho),
                        TyChirho::var_chirho(a_chirho),
                    ),
                ),
            },
        );
    }
    // on :: (b -> b -> c) -> (a -> b) -> a -> a -> c
    {
        let a_chirho = TyVarChirho(7200);
        let b_chirho = TyVarChirho(7201);
        let c_chirho = TyVarChirho(7202);
        env_chirho.bind_chirho(
            "on".to_string(),
            SchemeChirho {
                vars_chirho: vec![a_chirho, b_chirho, c_chirho],
                preds_chirho: vec![],
                ty_chirho: TyChirho::fun_chirho(
                    TyChirho::fun_chirho(
                        TyChirho::var_chirho(b_chirho),
                        TyChirho::fun_chirho(
                            TyChirho::var_chirho(b_chirho),
                            TyChirho::var_chirho(c_chirho),
                        ),
                    ),
                    TyChirho::fun_chirho(
                        TyChirho::fun_chirho(
                            TyChirho::var_chirho(a_chirho),
                            TyChirho::var_chirho(b_chirho),
                        ),
                        TyChirho::fun_chirho(
                            TyChirho::var_chirho(a_chirho),
                            TyChirho::fun_chirho(
                                TyChirho::var_chirho(a_chirho),
                                TyChirho::var_chirho(c_chirho),
                            ),
                        ),
                    ),
                ),
            },
        );
    }
    // fix :: (a -> a) -> a
    {
        let a_chirho = TyVarChirho(7210);
        env_chirho.bind_chirho(
            "fix".to_string(),
            SchemeChirho {
                vars_chirho: vec![a_chirho],
                preds_chirho: vec![],
                ty_chirho: TyChirho::fun_chirho(
                    TyChirho::fun_chirho(
                        TyChirho::var_chirho(a_chirho),
                        TyChirho::var_chirho(a_chirho),
                    ),
                    TyChirho::var_chirho(a_chirho),
                ),
            },
        );
    }
    // void :: Functor f => f a -> f ()
    {
        let f_chirho = TyVarChirho(7220);
        let a_chirho = TyVarChirho(7221);
        env_chirho.bind_chirho(
            "void".to_string(),
            SchemeChirho {
                vars_chirho: vec![f_chirho, a_chirho],
                preds_chirho: vec![
                    SchemePredChirho {
                        class_name_chirho: "Functor".to_string(),
                        ty_chirho: TyChirho::var_chirho(f_chirho),
                    },
                ],
                ty_chirho: TyChirho::fun_chirho(
                    TyChirho::app_chirho(
                        TyChirho::var_chirho(f_chirho),
                        TyChirho::var_chirho(a_chirho),
                    ),
                    TyChirho::app_chirho(TyChirho::var_chirho(f_chirho), TyChirho::unit_chirho()),
                ),
            },
        );
    }
    // when :: Applicative f => Bool -> f () -> f ()
    {
        let f_chirho = TyVarChirho(7230);
        env_chirho.bind_chirho(
            "when".to_string(),
            SchemeChirho {
                vars_chirho: vec![f_chirho],
                preds_chirho: vec![],
                ty_chirho: TyChirho::fun_chirho(
                    TyChirho::bool_chirho(),
                    TyChirho::fun_chirho(
                        TyChirho::app_chirho(
                            TyChirho::var_chirho(f_chirho),
                            TyChirho::unit_chirho(),
                        ),
                        TyChirho::app_chirho(
                            TyChirho::var_chirho(f_chirho),
                            TyChirho::unit_chirho(),
                        ),
                    ),
                ),
            },
        );
    }
    // unless :: Applicative f => Bool -> f () -> f ()
    {
        let f_chirho = TyVarChirho(7240);
        env_chirho.bind_chirho(
            "unless".to_string(),
            SchemeChirho {
                vars_chirho: vec![f_chirho],
                preds_chirho: vec![],
                ty_chirho: TyChirho::fun_chirho(
                    TyChirho::bool_chirho(),
                    TyChirho::fun_chirho(
                        TyChirho::app_chirho(
                            TyChirho::var_chirho(f_chirho),
                            TyChirho::unit_chirho(),
                        ),
                        TyChirho::app_chirho(
                            TyChirho::var_chirho(f_chirho),
                            TyChirho::unit_chirho(),
                        ),
                    ),
                ),
            },
        );
    }
    proof {
        assert(env_chirho.map() =~~= before.union_prefer_right(builtin_schemes_17()));
    }
}

fn seed_builtins_part_18_chirho(env_chirho: &mut TyEnvChirho)
    ensures
        final(env_chirho).map() == old(env_chirho).map().union_prefer_right(builtin_schemes_18()),
{
    let ghost before = old(env_chirho).map();
    // join :: Monad m => m (m a) -> m a
    {
        let m_chirho = TyVarChirho(7250);
        let a_chirho = TyVarChirho(7251);
        env_chirho.bind_chirho(
            "join".to_string(),
            SchemeChirho {
                vars_chirho: vec![m_chirho, a_chirho],
                preds_chirho: vec![
                    SchemePredChirho {
                        class_name_chirho: "Monad".to_string(),
                        ty_chirho: TyChirho::var_chirho(m_chirho),
                    },
                ],
                ty_chirho: TyChirho::fun_chirho(
                    TyChirho::app_chirho(
                        TyChirho::var_chirho(m_chirho),
                        TyChirho::app_chirho(
                            TyChirho::var_chirho(m_chirho),
                            TyChirho::var_chirho(a_chirho),
                        ),
                    ),
                    TyChirho::app_chirho(
                        TyChirho::var_chirho(m_chirho),
                        TyChirho::var_chirho(a_chirho),
                    ),
                ),
            },
        );
    }
    // guard :: Alternative f => Bool -> f ()
    {
        let f_chirho = TyVarChirho(7260);
        env_chirho.bind_chirho(
            "guard".to_string(),
            SchemeChirho {
                vars_chirho: vec![f_chirho],
                preds_chirho: vec![],
                ty_chirho: TyChirho::fun_chirho(
                    TyChirho::bool_chirho(),
                    TyChirho::app_chirho(TyChirho::var_chirho(f_chirho), TyChirho::unit_chirho()),
                ),
            },
        );
    }
    // forever :: Applicative f => f a -> f b
    {
        let f_chirho = TyVarChirho(7270);
        let a_chirho = TyVarChirho(7271);
        let b_chirho = TyVarChirho(7272);
        env_chirho.bind_chirho(
            "forever".to_string(),
            SchemeChirho {
                vars_chirho: vec![f_chirho, a_chirho, b_chirho],
                preds_chirho: vec![],
                ty_chirho: TyChirho::fun_chirho(
                    TyChirho::app_chirho(
                        TyChirho::var_chirho(f_chirho),
                        TyChirho::var_chirho(a_chirho),
                    ),
                    TyChirho::app_chirho(
                        TyChirho::var_chirho(f_chirho),
                        TyChirho::var_chirho(b_chirho),
                    ),
                ),
            },
        );
    }
    // Data.Function: (&) :: a -> (a -> b) -> b
    {
        let a_chirho = TyVarChirho(7280);
        let b_chirho = TyVarChirho(7281);
        env_chirho.bind_chirho(
            "&".to_string(),
            SchemeChirho {
                vars_chirho: vec![a_chirho, b_chirho],
                preds_chirho: vec![],
                ty_chirho: TyChirho::fun_chirho(
                    TyChirho::var_chirho(a_chirho),
                    TyChirho::fun_chirho(
                        TyChirho::fun_chirho(
                            TyChirho::var_chirho(a_chirho),
                            TyChirho::var_chirho(b_chirho),
                        ),
                        TyChirho::var_chirho(b_chirho),
                    ),
                ),
            },
        );
    }
    // Semigroup: (<>) :: Semigroup a => a -> a -> a
    {
        let a_chirho = TyVarChirho(7290);
        env_chirho.bind_chirho(
            "<>".to_string(),
            SchemeChirho {
                vars_chirho: vec![a_chirho],
                preds_chirho: vec![
                    SchemePredChirho {
                        class_name_chirho: "Semigroup".to_string(),
                        ty_chirho: TyChirho::var_chirho(a_chirho),
                    },
                ],
                ty_chirho: TyChirho::fun_chirho(
                    TyChirho::var_chirho(a_chirho),
                    TyChirho::fun_chirho(
                        TyChirho::var_chirho(a_chirho),
                        TyChirho::var_chirho(a_chirho),
                    ),
                ),
            },
        );
    }
    // mappend :: Monoid a => a -> a -> a (same as <>)
    {
        let a_chirho = TyVarChirho(7300);
        env_chirho.bind_chirho(
            "mappend".to_string(),
            SchemeChirho {
                vars_chirho: vec![a_chirho],
                preds_chirho: vec![
                    SchemePredChirho {
                        class_name_chirho: "Monoid".to_string(),
                        ty_chirho: TyChirho::var_chirho(a_chirho),
                    },
                ],
                ty_chirho: TyChirho::fun_chirho(
                    TyChirho::var_chirho(a_chirho),
                    TyChirho::fun_chirho(
                        TyChirho::var_chirho(a_chirho),
                        TyChirho::var_chirho(a_chirho),
                    ),
                ),
            },
        );
    }
    // mempty :: Monoid a => a
    {
        let a_chirho = TyVarChirho(7310);
        env_chirho.bind_chirho(
            "mempty".to_string(),
            SchemeChirho {
                vars_chirho: vec![a_chirho],
                preds_chirho: vec![
                    SchemePredChirho {
                        class_name_chirho: "Monoid".to_string(),
                        ty_chirho: TyChirho::var_chirho(a_chirho),
                    },
                ],
                ty_chirho: TyChirho::var_chirho(a_chirho),
            },
        );
    }
    // mconcat :: Monoid a => [a] -> a
    {
        let a_chirho = TyVarChirho(7320);
        env_chirho.bind_chirho(
            "mconcat".to_string(),
            SchemeChirho {
                vars_chirho: vec![a_chirho],
                preds_chirho: vec![
                    SchemePredChirho {
                        class_name_chirho: "Monoid".to_string(),
                        ty_chirho: TyChirho::var_chirho(a_chirho),
                    },
                ],
                ty_chirho: TyChirho::fun_chirho(
                    TyChirho::list_chirho(TyChirho::var_chirho(a_chirho)),
                    TyChirho::var_chirho(a_chirho),
                ),
            },
        );
    }
    // getDual :: Dual a -> a, Dual :: a -> Dual a
    {
        let a_chirho = TyVarChirho(7330);
        env_chirho.bind_chirho(
            "Dual".to_string(),
            SchemeChirho {
                vars_chirho: vec![a_chirho],
                preds_chirho: vec![],
                ty_chirho: TyChirho::fun_chirho(
                    TyChirho::var_chirho(a_chirho),
                    TyChirho::app_chirho(
                        TyChirho::con_chirho("Dual".to_string()),
                        TyChirho::var_chirho(a_chirho),
                    ),
                ),
            },
        );
        env_chirho.bind_chirho(
            "getDual".to_string(),
            SchemeChirho {
                vars_chirho: vec![a_chirho],
                preds_chirho: vec![],
                ty_chirho: TyChirho::fun_chirho(
                    TyChirho::app_chirho(
                        TyChirho::con_chirho("Dual".to_string()),
                        TyChirho::var_chirho(a_chirho),
                    ),
                    TyChirho::var_chirho(a_chirho),
                ),
            },
        );
    }
    // nub :: Eq a => [a] -> [a]
    {
        let a_chirho = TyVarChirho(7340);
        env_chirho.bind_chirho(
            "nub".to_string(),
            SchemeChirho {
                vars_chirho: vec![a_chirho],
                preds_chirho: vec![
                    SchemePredChirho {
                        class_name_chirho: "Eq".to_string(),
                        ty_chirho: TyChirho::var_chirho(a_chirho),
                    },
                ],
                ty_chirho: TyChirho::fun_chirho(
                    TyChirho::list_chirho(TyChirho::var_chirho(a_chirho)),
                    TyChirho::list_chirho(TyChirho::var_chirho(a_chirho)),
                ),
            },
        );
    }
    // group :: Eq a => [a] -> [[a]]
    {
        let a_chirho = TyVarChirho(7350);
        env_chirho.bind_chirho(
            "group".to_string(),
            SchemeChirho {
                vars_chirho: vec![a_chirho],
                preds_chirho: vec![
                    SchemePredChirho {
                        class_name_chirho: "Eq".to_string(),
                        ty_chirho: TyChirho::var_chirho(a_chirho),
                    },
                ],
                ty_chirho: TyChirho::fun_chirho(
                    TyChirho::list_chirho(TyChirho::var_chirho(a_chirho)),
                    TyChirho::list_chirho(TyChirho::list_chirho(TyChirho::var_chirho(a_chirho))),
                ),
            },
        );
    }
    // forM :: Monad m => [a] -> (a -> m b) -> m [b]  (simplified as mapM with args swapped)
    {
        let m_chirho = TyVarChirho(7360);
        let a_chirho = TyVarChirho(7361);
        let b_chirho = TyVarChirho(7362);
        env_chirho.bind_chirho(
            "forM".to_string(),
            SchemeChirho {
                vars_chirho: vec![m_chirho, a_chirho, b_chirho],
                preds_chirho: vec![
                    SchemePredChirho {
                        class_name_chirho: "Monad".to_string(),
                        ty_chirho: TyChirho::var_chirho(m_chirho),
                    },
                ],
                ty_chirho: TyChirho::fun_chirho(
                    TyChirho::list_chirho(TyChirho::var_chirho(a_chirho)),
                    TyChirho::fun_chirho(
                        TyChirho::fun_chirho(
                            TyChirho::var_chirho(a_chirho),
                            TyChirho::app_chirho(
                                TyChirho::var_chirho(m_chirho),
                                TyChirho::var_chirho(b_chirho),
                            ),
                        ),
                        TyChirho::app_chirho(
                            TyChirho::var_chirho(m_chirho),
                            TyChirho::list_chirho(TyChirho::var_chirho(b_chirho)),
                        ),
                    ),
                ),
            },
        );
    }
    // forM_ :: Monad m => [a] -> (a -> m b) -> m ()
    {
        let m_chirho = TyVarChirho(7370);
        let a_chirho = TyVarChirho(7371);
        let b_chirho = TyVarChirho(7372);
        env_chirho.bind_chirho(
            "forM_".to_string(),
            SchemeChirho {
                vars_chirho: vec![m_chirho, a_chirho, b_chirho],
                preds_chirho: vec![
                    SchemePredChirho {
                        class_name_chirho: "Monad".to_string(),
                        ty_chirho: TyChirho::var_chirho(m_chirho),
                    },
                ],
                ty_chirho: TyChirho::fun_chirho(
                    TyChirho::list_chirho(TyChirho::var_chirho(a_chirho)),
                    TyChirho::fun_chirho(
                        TyChirho::fun_chirho(
                            TyChirho::var_chirho(a_chirho),
                            TyChirho::app_chirho(
                                TyChirho::var_chirho(m_chirho),
                                TyChirho::var_chirho(b_chirho),
                            ),
                        ),
                        TyChirho::app_chirho(
                            TyChirho::var_chirho(m_chirho),
                            TyChirho::unit_chirho(),
                        ),
                    ),
                ),
            },
        );
    }
    // Data.Coerce: Coercible (type class — accept as constraint)
    // withDict :: (Class => r) -> Dict Class -> r (simplified)
    // Data.Type.Equality: (:~:) constructor — Refl :: a :~: a
    {
        let a_chirho = TyVarChirho(7380);
        env_chirho.bind_chirho(
            "Refl".to_string(),
            SchemeChirho {
                vars_chirho: vec![a_chirho],
                preds_chirho: vec![],
                ty_chirho: TyChirho::app_chirho(
                    TyChirho::app_chirho(
                        TyChirho::con_chirho(":~:".to_string()),
                        TyChirho::var_chirho(a_chirho),
                    ),
                    TyChirho::var_chirho(a_chirho),
                ),
            },
        );
    }
    // realToFrac :: (Real a, Fractional b) => a -> b
    {
        let a_chirho = TyVarChirho(7390);
        let b_chirho = TyVarChirho(7391);
        env_chirho.bind_chirho(
            "realToFrac".to_string(),
            SchemeChirho {
                vars_chirho: vec![a_chirho, b_chirho],
                preds_chirho: vec![
                    SchemePredChirho {
                        class_name_chirho: "Real".to_string(),
                        ty_chirho: TyChirho::var_chirho(a_chirho),
                    },
                    SchemePredChirho {
                        class_name_chirho: "Fractional".to_string(),
                        ty_chirho: TyChirho::var_chirho(b_chirho),
                    },
                ],
                ty_chirho: TyChirho::arrow_chirho(
                    TyChirho::var_chirho(a_chirho),
                    TyChirho::var_chirho(b_chirho),
                    MultChirho::ManyChirho,
                ),
            },
        );
    }
    // fromIntegral :: (Integral a, Num b) => a -> b
    {
        let a_chirho = TyVarChirho(7392);
        let b_chirho = TyVarChirho(7393);
        env_chirho.bind_chirho(
            "fromIntegral".to_string(),
            SchemeChirho {
                vars_chirho: vec![a_chirho, b_chirho],
                preds_chirho: vec![
                    SchemePredChirho {
                        class_name_chirho: "Integral".to_string(),
                        ty_chirho: TyChirho::var_chirho(a_chirho),
                    },
                    SchemePredChirho {
                        class_name_chirho: "Num".to_string(),
                        ty_chirho: TyChirho::var_chirho(b_chirho),
                    },
                ],
                ty_chirho: TyChirho::arrow_chirho(
                    TyChirho::var_chirho(a_chirho),
                    TyChirho::var_chirho(b_chirho),
                    MultChirho::ManyChirho,
                ),
            },
        );
    }
    // toInteger :: Integral a => a -> Integer
    {
        let a_chirho = TyVarChirho(7394);
        env_chirho.bind_chirho(
            "toInteger".to_string(),
            SchemeChirho {
                vars_chirho: vec![a_chirho],
                preds_chirho: vec![
                    SchemePredChirho {
                        class_name_chirho: "Integral".to_string(),
                        ty_chirho: TyChirho::var_chirho(a_chirho),
                    },
                ],
                ty_chirho: TyChirho::arrow_chirho(
                    TyChirho::var_chirho(a_chirho),
                    TyChirho::con_chirho("Integer".to_string()),
                    MultChirho::ManyChirho,
                ),
            },
        );
    }
    // toRational :: Real a => a -> Rational
    {
        let a_chirho = TyVarChirho(7395);
        env_chirho.bind_chirho(
            "toRational".to_string(),
            SchemeChirho {
                vars_chirho: vec![a_chirho],
                preds_chirho: vec![
                    SchemePredChirho {
                        class_name_chirho: "Real".to_string(),
                        ty_chirho: TyChirho::var_chirho(a_chirho),
                    },
                ],
                ty_chirho: TyChirho::arrow_chirho(
                    TyChirho::var_chirho(a_chirho),
                    TyChirho::con_chirho("Rational".to_string()),
                    MultChirho::ManyChirho,
                ),
            },
        );
    }
    // sequence/sequence_/mapM/mapM_ — already defined with list-specific types earlier in seed_builtins
    // error :: forall a. [Char] -> a (already exists, but ensure errorWithoutStackTrace too)
    {
        let a_chirho = TyVarChirho(7410);
        env_chirho.bind_chirho(
            "errorWithoutStackTrace".to_string(),
            SchemeChirho {
                vars_chirho: vec![a_chirho],
                preds_chirho: vec![],
                ty_chirho: TyChirho::arrow_chirho(
                    TyChirho::list_chirho(TyChirho::char_chirho()),
                    TyChirho::var_chirho(a_chirho),
                    MultChirho::ManyChirho,
                ),
            },
        );
    }
    proof {
        assert(env_chirho.map() =~~= before.union_prefer_right(builtin_schemes_18()));
    }
}

fn seed_builtins_part_19_chirho(env_chirho: &mut TyEnvChirho)
    ensures
        final(env_chirho).map() == old(env_chirho).map().union_prefer_right(builtin_schemes_19()),
{
    let ghost before = old(env_chirho).map();
    // Data.Coerce: coerce :: Coercible a b => a -> b
    // (already have coerce :: a -> b, add with Coercible constraint)
    // Integral class methods: div, mod, divMod, quot, rem, quotRem
    {
        let a_chirho = TyVarChirho(7411);
        env_chirho.bind_chirho(
            "div".to_string(),
            SchemeChirho {
                vars_chirho: vec![a_chirho],
                preds_chirho: vec![
                    SchemePredChirho {
                        class_name_chirho: "Integral".to_string(),
                        ty_chirho: TyChirho::var_chirho(a_chirho),
                    },
                ],
                ty_chirho: TyChirho::arrow_chirho(
                    TyChirho::var_chirho(a_chirho),
                    TyChirho::arrow_chirho(
                        TyChirho::var_chirho(a_chirho),
                        TyChirho::var_chirho(a_chirho),
                        MultChirho::ManyChirho,
                    ),
                    MultChirho::ManyChirho,
                ),
            },
        );
    }
    {
        let a_chirho = TyVarChirho(7411);
        env_chirho.bind_chirho(
            "mod".to_string(),
            SchemeChirho {
                vars_chirho: vec![a_chirho],
                preds_chirho: vec![
                    SchemePredChirho {
                        class_name_chirho: "Integral".to_string(),
                        ty_chirho: TyChirho::var_chirho(a_chirho),
                    },
                ],
                ty_chirho: TyChirho::arrow_chirho(
                    TyChirho::var_chirho(a_chirho),
                    TyChirho::arrow_chirho(
                        TyChirho::var_chirho(a_chirho),
                        TyChirho::var_chirho(a_chirho),
                        MultChirho::ManyChirho,
                    ),
                    MultChirho::ManyChirho,
                ),
            },
        );
    }
    {
        let a_chirho = TyVarChirho(7411);
        env_chirho.bind_chirho(
            "quot".to_string(),
            SchemeChirho {
                vars_chirho: vec![a_chirho],
                preds_chirho: vec![
                    SchemePredChirho {
                        class_name_chirho: "Integral".to_string(),
                        ty_chirho: TyChirho::var_chirho(a_chirho),
                    },
                ],
                ty_chirho: TyChirho::arrow_chirho(
                    TyChirho::var_chirho(a_chirho),
                    TyChirho::arrow_chirho(
                        TyChirho::var_chirho(a_chirho),
                        TyChirho::var_chirho(a_chirho),
                        MultChirho::ManyChirho,
                    ),
                    MultChirho::ManyChirho,
                ),
            },
        );
    }
    {
        let a_chirho = TyVarChirho(7411);
        env_chirho.bind_chirho(
            "rem".to_string(),
            SchemeChirho {
                vars_chirho: vec![a_chirho],
                preds_chirho: vec![
                    SchemePredChirho {
                        class_name_chirho: "Integral".to_string(),
                        ty_chirho: TyChirho::var_chirho(a_chirho),
                    },
                ],
                ty_chirho: TyChirho::arrow_chirho(
                    TyChirho::var_chirho(a_chirho),
                    TyChirho::arrow_chirho(
                        TyChirho::var_chirho(a_chirho),
                        TyChirho::var_chirho(a_chirho),
                        MultChirho::ManyChirho,
                    ),
                    MultChirho::ManyChirho,
                ),
            },
        );
    }
    // divMod, quotRem :: Integral a => a -> a -> (a, a)
    {
        let a_chirho = TyVarChirho(7412);
        env_chirho.bind_chirho(
            "divMod".to_string(),
            SchemeChirho {
                vars_chirho: vec![a_chirho],
                preds_chirho: vec![
                    SchemePredChirho {
                        class_name_chirho: "Integral".to_string(),
                        ty_chirho: TyChirho::var_chirho(a_chirho),
                    },
                ],
                ty_chirho: TyChirho::arrow_chirho(
                    TyChirho::var_chirho(a_chirho),
                    TyChirho::arrow_chirho(
                        TyChirho::var_chirho(a_chirho),
                        TyChirho::pair_chirho(
                            TyChirho::var_chirho(a_chirho),
                            TyChirho::var_chirho(a_chirho),
                        ),
                        MultChirho::ManyChirho,
                    ),
                    MultChirho::ManyChirho,
                ),
            },
        );
    }
    {
        let a_chirho = TyVarChirho(7412);
        env_chirho.bind_chirho(
            "quotRem".to_string(),
            SchemeChirho {
                vars_chirho: vec![a_chirho],
                preds_chirho: vec![
                    SchemePredChirho {
                        class_name_chirho: "Integral".to_string(),
                        ty_chirho: TyChirho::var_chirho(a_chirho),
                    },
                ],
                ty_chirho: TyChirho::arrow_chirho(
                    TyChirho::var_chirho(a_chirho),
                    TyChirho::arrow_chirho(
                        TyChirho::var_chirho(a_chirho),
                        TyChirho::pair_chirho(
                            TyChirho::var_chirho(a_chirho),
                            TyChirho::var_chirho(a_chirho),
                        ),
                        MultChirho::ManyChirho,
                    ),
                    MultChirho::ManyChirho,
                ),
            },
        );
    }
    // Data.IORef (already covered in runtime, ensure newIORef/readIORef/writeIORef/modifyIORef types)
    // IORef a constructor
    {
        let a_chirho = TyVarChirho(7413);
        env_chirho.bind_chirho(
            "IORef".to_string(),
            SchemeChirho {
                vars_chirho: vec![a_chirho],
                preds_chirho: vec![],
                ty_chirho: TyChirho::app_chirho(
                    TyChirho::con_chirho("IORef".to_string()),
                    TyChirho::var_chirho(a_chirho),
                ),
            },
        );
    }
    // Data.STRef: STRef s a
    {
        let s_chirho = TyVarChirho(7414);
        let a_chirho = TyVarChirho(7415);
        env_chirho.bind_chirho(
            "STRef".to_string(),
            SchemeChirho {
                vars_chirho: vec![s_chirho, a_chirho],
                preds_chirho: vec![],
                ty_chirho: TyChirho::app_chirho(
                    TyChirho::app_chirho(
                        TyChirho::con_chirho("STRef".to_string()),
                        TyChirho::var_chirho(s_chirho),
                    ),
                    TyChirho::var_chirho(a_chirho),
                ),
            },
        );
    }
    // ── Additional missing Prelude / Data.List type schemes ──
    // splitAt :: forall a. Int -> [a] -> ([a], [a])
    {
        let a_chirho = TyVarChirho(7500);
        let list_a_chirho = TyChirho::list_chirho(TyChirho::var_chirho(a_chirho));
        env_chirho.bind_chirho(
            "splitAt".to_string(),
            SchemeChirho {
                vars_chirho: vec![a_chirho],
                preds_chirho: vec![],
                ty_chirho: TyChirho::fun_chirho(
                    TyChirho::int_chirho(),
                    TyChirho::fun_chirho(
                        list_a_chirho.copy_chirho(),
                        TyChirho::pair_chirho(list_a_chirho.copy_chirho(), list_a_chirho),
                    ),
                ),
            },
        );
    }
    // and :: [Bool] -> Bool
    env_chirho.bind_chirho(
        "and".to_string(),
        SchemeChirho {
            vars_chirho: vec![],
            preds_chirho: vec![],
            ty_chirho: TyChirho::fun_chirho(
                TyChirho::list_chirho(TyChirho::bool_chirho()),
                TyChirho::bool_chirho(),
            ),
        },
    );
    // or :: [Bool] -> Bool
    env_chirho.bind_chirho(
        "or".to_string(),
        SchemeChirho {
            vars_chirho: vec![],
            preds_chirho: vec![],
            ty_chirho: TyChirho::fun_chirho(
                TyChirho::list_chirho(TyChirho::bool_chirho()),
                TyChirho::bool_chirho(),
            ),
        },
    );
    // sortOn :: forall a b. Ord b => (a -> b) -> [a] -> [a]
    {
        let a_chirho = TyVarChirho(7501);
        let b_chirho = TyVarChirho(7502);
        let list_a_chirho = TyChirho::list_chirho(TyChirho::var_chirho(a_chirho));
        env_chirho.bind_chirho(
            "sortOn".to_string(),
            SchemeChirho {
                vars_chirho: vec![a_chirho, b_chirho],
                preds_chirho: vec![
                    SchemePredChirho {
                        class_name_chirho: "Ord".to_string(),
                        ty_chirho: TyChirho::var_chirho(b_chirho),
                    },
                ],
                ty_chirho: TyChirho::fun_chirho(
                    TyChirho::fun_chirho(
                        TyChirho::var_chirho(a_chirho),
                        TyChirho::var_chirho(b_chirho),
                    ),
                    TyChirho::fun_chirho(list_a_chirho.copy_chirho(), list_a_chirho),
                ),
            },
        );
    }
    // isInfixOf :: forall a. Eq a => [a] -> [a] -> Bool
    {
        let a_chirho = TyVarChirho(7503);
        let list_a_chirho = TyChirho::list_chirho(TyChirho::var_chirho(a_chirho));
        env_chirho.bind_chirho(
            "isInfixOf".to_string(),
            SchemeChirho {
                vars_chirho: vec![a_chirho],
                preds_chirho: vec![
                    SchemePredChirho {
                        class_name_chirho: "Eq".to_string(),
                        ty_chirho: TyChirho::var_chirho(a_chirho),
                    },
                ],
                ty_chirho: TyChirho::fun_chirho(
                    list_a_chirho.copy_chirho(),
                    TyChirho::fun_chirho(list_a_chirho, TyChirho::bool_chirho()),
                ),
            },
        );
    }
    // stripPrefix :: forall a. Eq a => [a] -> [a] -> Maybe [a]
    {
        let a_chirho = TyVarChirho(7504);
        let list_a_chirho = TyChirho::list_chirho(TyChirho::var_chirho(a_chirho));
        env_chirho.bind_chirho(
            "stripPrefix".to_string(),
            SchemeChirho {
                vars_chirho: vec![a_chirho],
                preds_chirho: vec![
                    SchemePredChirho {
                        class_name_chirho: "Eq".to_string(),
                        ty_chirho: TyChirho::var_chirho(a_chirho),
                    },
                ],
                ty_chirho: TyChirho::fun_chirho(
                    list_a_chirho.copy_chirho(),
                    TyChirho::fun_chirho(
                        list_a_chirho.copy_chirho(),
                        TyChirho::app_chirho(
                            TyChirho::con_chirho("Maybe".to_string()),
                            list_a_chirho,
                        ),
                    ),
                ),
            },
        );
    }
    // findIndex :: forall a. (a -> Bool) -> [a] -> Maybe Int
    {
        let a_chirho = TyVarChirho(7505);
        env_chirho.bind_chirho(
            "findIndex".to_string(),
            SchemeChirho {
                vars_chirho: vec![a_chirho],
                preds_chirho: vec![],
                ty_chirho: TyChirho::fun_chirho(
                    TyChirho::fun_chirho(TyChirho::var_chirho(a_chirho), TyChirho::bool_chirho()),
                    TyChirho::fun_chirho(
                        TyChirho::list_chirho(TyChirho::var_chirho(a_chirho)),
                        TyChirho::app_chirho(
                            TyChirho::con_chirho("Maybe".to_string()),
                            TyChirho::int_chirho(),
                        ),
                    ),
                ),
            },
        );
    }
    // elemIndex :: forall a. Eq a => a -> [a] -> Maybe Int
    {
        let a_chirho = TyVarChirho(7506);
        env_chirho.bind_chirho(
            "elemIndex".to_string(),
            SchemeChirho {
                vars_chirho: vec![a_chirho],
                preds_chirho: vec![
                    SchemePredChirho {
                        class_name_chirho: "Eq".to_string(),
                        ty_chirho: TyChirho::var_chirho(a_chirho),
                    },
                ],
                ty_chirho: TyChirho::fun_chirho(
                    TyChirho::var_chirho(a_chirho),
                    TyChirho::fun_chirho(
                        TyChirho::list_chirho(TyChirho::var_chirho(a_chirho)),
                        TyChirho::app_chirho(
                            TyChirho::con_chirho("Maybe".to_string()),
                            TyChirho::int_chirho(),
                        ),
                    ),
                ),
            },
        );
    }
    // scanl1 :: forall a. (a -> a -> a) -> [a] -> [a]
    {
        let a_chirho = TyVarChirho(7507);
        let list_a_chirho = TyChirho::list_chirho(TyChirho::var_chirho(a_chirho));
        env_chirho.bind_chirho(
            "scanl1".to_string(),
            SchemeChirho {
                vars_chirho: vec![a_chirho],
                preds_chirho: vec![],
                ty_chirho: TyChirho::fun_chirho(
                    TyChirho::fun_chirho(
                        TyChirho::var_chirho(a_chirho),
                        TyChirho::fun_chirho(
                            TyChirho::var_chirho(a_chirho),
                            TyChirho::var_chirho(a_chirho),
                        ),
                    ),
                    TyChirho::fun_chirho(list_a_chirho.copy_chirho(), list_a_chirho),
                ),
            },
        );
    }
    // scanr :: forall a b. (a -> b -> b) -> b -> [a] -> [b]
    {
        let a_chirho = TyVarChirho(7508);
        let b_chirho = TyVarChirho(7509);
        env_chirho.bind_chirho(
            "scanr".to_string(),
            SchemeChirho {
                vars_chirho: vec![a_chirho, b_chirho],
                preds_chirho: vec![],
                ty_chirho: TyChirho::fun_chirho(
                    TyChirho::fun_chirho(
                        TyChirho::var_chirho(a_chirho),
                        TyChirho::fun_chirho(
                            TyChirho::var_chirho(b_chirho),
                            TyChirho::var_chirho(b_chirho),
                        ),
                    ),
                    TyChirho::fun_chirho(
                        TyChirho::var_chirho(b_chirho),
                        TyChirho::fun_chirho(
                            TyChirho::list_chirho(TyChirho::var_chirho(a_chirho)),
                            TyChirho::list_chirho(TyChirho::var_chirho(b_chirho)),
                        ),
                    ),
                ),
            },
        );
    }
    // scanr1 :: forall a. (a -> a -> a) -> [a] -> [a]
    {
        let a_chirho = TyVarChirho(7510);
        let list_a_chirho = TyChirho::list_chirho(TyChirho::var_chirho(a_chirho));
        env_chirho.bind_chirho(
            "scanr1".to_string(),
            SchemeChirho {
                vars_chirho: vec![a_chirho],
                preds_chirho: vec![],
                ty_chirho: TyChirho::fun_chirho(
                    TyChirho::fun_chirho(
                        TyChirho::var_chirho(a_chirho),
                        TyChirho::fun_chirho(
                            TyChirho::var_chirho(a_chirho),
                            TyChirho::var_chirho(a_chirho),
                        ),
                    ),
                    TyChirho::fun_chirho(list_a_chirho.copy_chirho(), list_a_chirho),
                ),
            },
        );
    }
    // unfoldr :: forall a b. (b -> Maybe (a, b)) -> b -> [a]
    {
        let a_chirho = TyVarChirho(7511);
        let b_chirho = TyVarChirho(7512);
        env_chirho.bind_chirho(
            "unfoldr".to_string(),
            SchemeChirho {
                vars_chirho: vec![a_chirho, b_chirho],
                preds_chirho: vec![],
                ty_chirho: TyChirho::fun_chirho(
                    TyChirho::fun_chirho(
                        TyChirho::var_chirho(b_chirho),
                        TyChirho::app_chirho(
                            TyChirho::con_chirho("Maybe".to_string()),
                            TyChirho::pair_chirho(
                                TyChirho::var_chirho(a_chirho),
                                TyChirho::var_chirho(b_chirho),
                            ),
                        ),
                    ),
                    TyChirho::fun_chirho(
                        TyChirho::var_chirho(b_chirho),
                        TyChirho::list_chirho(TyChirho::var_chirho(a_chirho)),
                    ),
                ),
            },
        );
    }
    proof {
        assert(env_chirho.map() =~~= before.union_prefer_right(builtin_schemes_19()));
    }
}

fn seed_builtins_part_20_chirho(env_chirho: &mut TyEnvChirho)
    ensures
        final(env_chirho).map() == old(env_chirho).map().union_prefer_right(builtin_schemes_20()),
{
    let ghost before = old(env_chirho).map();
    // transpose :: forall a. [[a]] -> [[a]]
    {
        let a_chirho = TyVarChirho(7513);
        let list_list_a_chirho = TyChirho::list_chirho(TyChirho::list_chirho(TyChirho::var_chirho(a_chirho)));
        env_chirho.bind_chirho(
            "transpose".to_string(),
            SchemeChirho {
                vars_chirho: vec![a_chirho],
                preds_chirho: vec![],
                ty_chirho: TyChirho::fun_chirho(list_list_a_chirho.copy_chirho(), list_list_a_chirho),
            },
        );
    }
    // stdin, stdout, stderr :: Handle
    {
        env_chirho.bind_chirho(
            "stdin".to_string(),
            SchemeChirho::mono_chirho(TyChirho::con_chirho("Handle".to_string())),
        );
    }
    {
        env_chirho.bind_chirho(
            "stdout".to_string(),
            SchemeChirho::mono_chirho(TyChirho::con_chirho("Handle".to_string())),
        );
    }
    {
        env_chirho.bind_chirho(
            "stderr".to_string(),
            SchemeChirho::mono_chirho(TyChirho::con_chirho("Handle".to_string())),
        );
    }
    // hFlush :: Handle -> IO ()
    env_chirho.bind_chirho(
        "hFlush".to_string(),
        SchemeChirho::mono_chirho(
            TyChirho::fun_chirho(
                TyChirho::con_chirho("Handle".to_string()),
                TyChirho::io_chirho(TyChirho::unit_chirho()),
            ),
        ),
    );
    // hSetBuffering :: Handle -> BufferMode -> IO ()
    env_chirho.bind_chirho(
        "hSetBuffering".to_string(),
        SchemeChirho::mono_chirho(
            TyChirho::fun_chirho(
                TyChirho::con_chirho("Handle".to_string()),
                TyChirho::fun_chirho(
                    TyChirho::con_chirho("BufferMode".to_string()),
                    TyChirho::io_chirho(TyChirho::unit_chirho()),
                ),
            ),
        ),
    );
    // hSetEncoding :: Handle -> TextEncoding -> IO ()
    env_chirho.bind_chirho(
        "hSetEncoding".to_string(),
        SchemeChirho::mono_chirho(
            TyChirho::fun_chirho(
                TyChirho::con_chirho("Handle".to_string()),
                TyChirho::fun_chirho(
                    TyChirho::con_chirho("TextEncoding".to_string()),
                    TyChirho::io_chirho(TyChirho::unit_chirho()),
                ),
            ),
        ),
    );
    // hPutStr :: Handle -> String -> IO ()
    env_chirho.bind_chirho(
        "hPutStr".to_string(),
        SchemeChirho::mono_chirho(
            TyChirho::fun_chirho(
                TyChirho::con_chirho("Handle".to_string()),
                TyChirho::fun_chirho(
                    TyChirho::string_chirho(),
                    TyChirho::io_chirho(TyChirho::unit_chirho()),
                ),
            ),
        ),
    );
    // hPutStrLn :: Handle -> String -> IO ()
    env_chirho.bind_chirho(
        "hPutStrLn".to_string(),
        SchemeChirho::mono_chirho(
            TyChirho::fun_chirho(
                TyChirho::con_chirho("Handle".to_string()),
                TyChirho::fun_chirho(
                    TyChirho::string_chirho(),
                    TyChirho::io_chirho(TyChirho::unit_chirho()),
                ),
            ),
        ),
    );
    // hClose :: Handle -> IO ()
    env_chirho.bind_chirho(
        "hClose".to_string(),
        SchemeChirho::mono_chirho(
            TyChirho::fun_chirho(
                TyChirho::con_chirho("Handle".to_string()),
                TyChirho::io_chirho(TyChirho::unit_chirho()),
            ),
        ),
    );
    // hGetContents :: Handle -> IO String
    env_chirho.bind_chirho(
        "hGetContents".to_string(),
        SchemeChirho::mono_chirho(
            TyChirho::fun_chirho(
                TyChirho::con_chirho("Handle".to_string()),
                TyChirho::io_chirho(TyChirho::string_chirho()),
            ),
        ),
    );
    // openFile :: FilePath -> IOMode -> IO Handle
    env_chirho.bind_chirho(
        "openFile".to_string(),
        SchemeChirho::mono_chirho(
            TyChirho::fun_chirho(
                TyChirho::string_chirho(),
                TyChirho::fun_chirho(
                    TyChirho::con_chirho("IOMode".to_string()),
                    TyChirho::io_chirho(TyChirho::con_chirho("Handle".to_string())),
                ),
            ),
        ),
    );
    // Data.IORef functions with type schemes
    // readIORef :: forall a. IORef a -> IO a
    {
        let a_chirho = TyVarChirho(7520);
        let ioref_a_chirho = TyChirho::app_chirho(
            TyChirho::con_chirho("IORef".to_string()),
            TyChirho::var_chirho(a_chirho),
        );
        env_chirho.bind_chirho(
            "readIORef".to_string(),
            SchemeChirho {
                vars_chirho: vec![a_chirho],
                preds_chirho: vec![],
                ty_chirho: TyChirho::fun_chirho(
                    ioref_a_chirho,
                    TyChirho::io_chirho(TyChirho::var_chirho(a_chirho)),
                ),
            },
        );
    }
    // writeIORef :: forall a. IORef a -> a -> IO ()
    {
        let a_chirho = TyVarChirho(7521);
        let ioref_a_chirho = TyChirho::app_chirho(
            TyChirho::con_chirho("IORef".to_string()),
            TyChirho::var_chirho(a_chirho),
        );
        env_chirho.bind_chirho(
            "writeIORef".to_string(),
            SchemeChirho {
                vars_chirho: vec![a_chirho],
                preds_chirho: vec![],
                ty_chirho: TyChirho::fun_chirho(
                    ioref_a_chirho,
                    TyChirho::fun_chirho(
                        TyChirho::var_chirho(a_chirho),
                        TyChirho::io_chirho(TyChirho::unit_chirho()),
                    ),
                ),
            },
        );
    }
    // modifyIORef :: forall a. IORef a -> (a -> a) -> IO ()
    {
        let a_chirho = TyVarChirho(7522);
        let ioref_a_chirho = TyChirho::app_chirho(
            TyChirho::con_chirho("IORef".to_string()),
            TyChirho::var_chirho(a_chirho),
        );
        env_chirho.bind_chirho(
            "modifyIORef".to_string(),
            SchemeChirho {
                vars_chirho: vec![a_chirho],
                preds_chirho: vec![],
                ty_chirho: TyChirho::fun_chirho(
                    ioref_a_chirho,
                    TyChirho::fun_chirho(
                        TyChirho::fun_chirho(
                            TyChirho::var_chirho(a_chirho),
                            TyChirho::var_chirho(a_chirho),
                        ),
                        TyChirho::io_chirho(TyChirho::unit_chirho()),
                    ),
                ),
            },
        );
    }
    // newIORef :: forall a. a -> IO (IORef a)
    {
        let a_chirho = TyVarChirho(7523);
        let ioref_a_chirho = TyChirho::app_chirho(
            TyChirho::con_chirho("IORef".to_string()),
            TyChirho::var_chirho(a_chirho),
        );
        env_chirho.bind_chirho(
            "newIORef".to_string(),
            SchemeChirho {
                vars_chirho: vec![a_chirho],
                preds_chirho: vec![],
                ty_chirho: TyChirho::fun_chirho(
                    TyChirho::var_chirho(a_chirho),
                    TyChirho::io_chirho(ioref_a_chirho),
                ),
            },
        );
    }
    // mapAccumL :: forall a b c. (a -> b -> (a, c)) -> a -> [b] -> (a, [c])
    {
        let a_chirho = TyVarChirho(7530);
        let b_chirho = TyVarChirho(7531);
        let c_chirho = TyVarChirho(7532);
        env_chirho.bind_chirho(
            "mapAccumL".to_string(),
            SchemeChirho {
                vars_chirho: vec![a_chirho, b_chirho, c_chirho],
                preds_chirho: vec![],
                ty_chirho: TyChirho::fun_chirho(
                    TyChirho::fun_chirho(
                        TyChirho::var_chirho(a_chirho),
                        TyChirho::fun_chirho(
                            TyChirho::var_chirho(b_chirho),
                            TyChirho::pair_chirho(
                                TyChirho::var_chirho(a_chirho),
                                TyChirho::var_chirho(c_chirho),
                            ),
                        ),
                    ),
                    TyChirho::fun_chirho(
                        TyChirho::var_chirho(a_chirho),
                        TyChirho::fun_chirho(
                            TyChirho::list_chirho(TyChirho::var_chirho(b_chirho)),
                            TyChirho::pair_chirho(
                                TyChirho::var_chirho(a_chirho),
                                TyChirho::list_chirho(TyChirho::var_chirho(c_chirho)),
                            ),
                        ),
                    ),
                ),
            },
        );
    }
    // mapAccumR :: forall a b c. (a -> b -> (a, c)) -> a -> [b] -> (a, [c])
    {
        let a_chirho = TyVarChirho(7533);
        let b_chirho = TyVarChirho(7534);
        let c_chirho = TyVarChirho(7535);
        env_chirho.bind_chirho(
            "mapAccumR".to_string(),
            SchemeChirho {
                vars_chirho: vec![a_chirho, b_chirho, c_chirho],
                preds_chirho: vec![],
                ty_chirho: TyChirho::fun_chirho(
                    TyChirho::fun_chirho(
                        TyChirho::var_chirho(a_chirho),
                        TyChirho::fun_chirho(
                            TyChirho::var_chirho(b_chirho),
                            TyChirho::pair_chirho(
                                TyChirho::var_chirho(a_chirho),
                                TyChirho::var_chirho(c_chirho),
                            ),
                        ),
                    ),
                    TyChirho::fun_chirho(
                        TyChirho::var_chirho(a_chirho),
                        TyChirho::fun_chirho(
                            TyChirho::list_chirho(TyChirho::var_chirho(b_chirho)),
                            TyChirho::pair_chirho(
                                TyChirho::var_chirho(a_chirho),
                                TyChirho::list_chirho(TyChirho::var_chirho(c_chirho)),
                            ),
                        ),
                    ),
                ),
            },
        );
    }
    proof {
        assert(env_chirho.map() =~~= before.union_prefer_right(builtin_schemes_20()));
    }
}

/// Seeds the type environment with the built-in schemes: every name of
/// `builtin_schemes()` gets its scheme, and every other binding stays.
pub fn seed_builtins_chirho(env_chirho: &mut TyEnvChirho)
    ensures
        final(env_chirho).map() == old(env_chirho).map().union_prefer_right(builtin_schemes()),
{
    let ghost m0 = old(env_chirho).map();
    seed_builtins_part_1_chirho(env_chirho);
    seed_builtins_part_2_chirho(env_chirho);
    seed_builtins_part_3_chirho(env_chirho);
    seed_builtins_part_4_chirho(env_chirho);
    seed_builtins_part_5_chirho(env_chirho);
    seed_builtins_part_6_chirho(env_chirho);
    seed_builtins_part_7_chirho(env_chirho);
    seed_builtins_part_8_chirho(env_chirho);
    seed_builtins_part_9_chirho(env_chirho);
    seed_builtins_part_10_chirho(env_chirho);
    seed_builtins_part_11_chirho(env_chirho);
    seed_builtins_part_12_chirho(env_chirho);
    seed_builtins_part_13_chirho(env_chirho);
    seed_builtins_part_14_chirho(env_chirho);
    seed_builtins_part_15_chirho(env_chirho);
    seed_builtins_part_16_chirho(env_chirho);
    seed_builtins_part_17_chirho(env_chirho);
    seed_builtins_part_18_chirho(env_chirho);
    seed_builtins_part_19_chirho(env_chirho);
    seed_builtins_part_20_chirho(env_chirho);
    proof {
        assert(env_chirho.map() =~= m0.union_prefer_right(builtin_schemes()));
    }
}

}
