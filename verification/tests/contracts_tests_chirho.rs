use haskelujah_typing_chirho::declarations_chirho::contracts_chirho::{
    ordered_entries_chirho, BootContractErrorKindChirho, ClassContractChirho, DeclarationContractsChirho,
    FamilyRecordErrorChirho, KindChirho, KindContractChirho, TypeFamilyBodyChirho, INSTANCE_COMPARISON_LIMIT_CHIRHO,
};
use haskelujah_typing_chirho::declarations_chirho::families_chirho::TypeFamilyClauseChirho;
use haskelujah_typing_chirho::infer_chirho::SpanChirho;
use haskelujah_typing_chirho::ty_chirho::{SchemeChirho, TyChirho, TyVarChirho};

#[test]
fn boot_first_mismatch_uses_stable_source_names_chirho() {
    for _round_chirho in 0..32 {
        let mut boot_chirho = DeclarationContractsChirho::default();
        for name_chirho in ["ZChirho", "AChirho"] {
            boot_chirho.kinds_chirho.push((
                name_chirho.to_owned(),
                KindContractChirho::monomorphic_nominal_chirho(KindChirho::StarChirho),
            ));
        }
        let error_chirho = boot_chirho
            .check_boot_promises_chirho(&DeclarationContractsChirho::default())
            .expect_err("neither type has a local implementation");
        let message_chirho = error_chirho.message_chirho();
        assert!(
            message_chirho.contains("AChirho") && !message_chirho.contains("ZChirho"),
            "{message_chirho}"
        );
    }
}

#[test]
fn boot_kind_promises_agree_or_name_the_mismatch_chirho() {
    let mut boot_chirho = DeclarationContractsChirho::default();
    boot_chirho.set_local_kind_contracts_chirho(vec![(
        "MaybeChirho".to_owned(),
        KindContractChirho::monomorphic_nominal_chirho(KindChirho::ArrowChirho(
            Box::new(KindChirho::StarChirho),
            Box::new(KindChirho::StarChirho),
        )),
    )]);
    let mut implementation_chirho = DeclarationContractsChirho::default();
    implementation_chirho.set_local_kind_contracts_chirho(vec![(
        "MaybeChirho".to_owned(),
        KindContractChirho::monomorphic_nominal_chirho(KindChirho::StarChirho),
    )]);
    let error_chirho = boot_chirho.check_boot_promises_chirho(&implementation_chirho).unwrap_err();
    assert_eq!(error_chirho.kind_chirho, BootContractErrorKindChirho::KindMismatchChirho);
    assert_eq!(error_chirho.message_chirho(), "boot contract mismatch for MaybeChirho: the kinds differ");
    implementation_chirho.set_local_kind_contracts_chirho(vec![(
        "MaybeChirho".to_owned(),
        KindContractChirho::monomorphic_nominal_chirho(KindChirho::ArrowChirho(
            Box::new(KindChirho::StarChirho),
            Box::new(KindChirho::StarChirho),
        )),
    )]);
    assert!(boot_chirho.check_boot_promises_chirho(&implementation_chirho).is_ok());
    let missing_chirho = boot_chirho.check_boot_promises_chirho(&DeclarationContractsChirho::default()).unwrap_err();
    assert_eq!(missing_chirho.kind_chirho, BootContractErrorKindChirho::NoLocalTypeChirho);
    assert_eq!(missing_chirho.message_chirho(), "boot contract type MaybeChirho has no local implementation");
}

#[test]
fn boot_instance_search_exhaustion_never_counts_as_agreement_chirho() {
    let promise_chirho =
        SchemeChirho::mono_chirho(TyChirho::TupleChirho(vec![TyChirho::ConChirho(
            "ExpectedChirho".to_owned(),
        )]));
    let wrong_chirho = SchemeChirho::mono_chirho(TyChirho::TupleChirho(vec![TyChirho::ConChirho(
        "OtherChirho".to_owned(),
    )]));
    let mut boot_chirho = DeclarationContractsChirho::default();
    boot_chirho
        .instances_chirho
        .push(("ClassChirho".to_owned(), vec![promise_chirho.clone()]));
    let mut implementation_chirho = DeclarationContractsChirho::default();
    let mut candidates_chirho = vec![wrong_chirho.clone(); INSTANCE_COMPARISON_LIMIT_CHIRHO - 1];
    candidates_chirho.push(promise_chirho);
    implementation_chirho
        .instances_chirho
        .push(("ClassChirho".to_owned(), candidates_chirho));
    boot_chirho
        .check_boot_promises_chirho(&implementation_chirho)
        .unwrap();
    implementation_chirho.instances_chirho[0].1.insert(0, wrong_chirho);
    let error_chirho = boot_chirho
        .check_boot_promises_chirho(&implementation_chirho)
        .expect_err("an unseen final match cannot satisfy the promise");
    assert!(
        error_chirho.message_chirho().contains("comparison budget exhausted"),
        "{}",
        error_chirho.message_chirho()
    );
}

#[test]
fn ordered_entries_follow_name_order_chirho() {
    let entries_chirho = vec![
        ("ZChirho".to_owned(), 1u32),
        ("AChirho".to_owned(), 2u32),
        ("MChirho".to_owned(), 3u32),
    ];
    let ordered_chirho = ordered_entries_chirho(&entries_chirho);
    let names_chirho: Vec<&str> = ordered_chirho.iter().map(|(name_chirho, _)| name_chirho.as_str()).collect();
    assert_eq!(names_chirho, vec!["AChirho", "MChirho", "ZChirho"]);
    let values_chirho: Vec<u32> = ordered_chirho.iter().map(|(_, value_chirho)| **value_chirho).collect();
    assert_eq!(values_chirho, vec![2, 3, 1]);
}

fn abstract_class_chirho(fundeps_chirho: Option<Vec<(Vec<usize>, Vec<usize>)>>) -> ClassContractChirho {
    ClassContractChirho { abstract_chirho: true, fundeps_chirho }
}

#[test]
fn boot_class_promises_report_the_first_broken_class_by_name_chirho() {
    let mut boot_chirho = DeclarationContractsChirho::default();
    boot_chirho.classes_chirho.push(("ZChirho".to_owned(), abstract_class_chirho(Some(vec![]))));
    boot_chirho.classes_chirho.push(("AChirho".to_owned(), abstract_class_chirho(Some(vec![(vec![0], vec![1])]))));
    let mut implementation_chirho = DeclarationContractsChirho::default();
    let error_chirho = boot_chirho.check_boot_promises_chirho(&implementation_chirho).unwrap_err();
    assert_eq!(error_chirho.kind_chirho, BootContractErrorKindChirho::NoLocalClassChirho);
    assert_eq!(error_chirho.name_chirho, "AChirho");
    assert_eq!(error_chirho.message_chirho(), "boot contract class AChirho has no local implementation");
    implementation_chirho.classes_chirho.push(("AChirho".to_owned(), abstract_class_chirho(Some(vec![(vec![1], vec![0])]))));
    implementation_chirho.classes_chirho.push(("ZChirho".to_owned(), abstract_class_chirho(Some(vec![]))));
    let error_chirho = boot_chirho.check_boot_promises_chirho(&implementation_chirho).unwrap_err();
    assert_eq!(error_chirho.kind_chirho, BootContractErrorKindChirho::DifferentFundepsChirho);
    assert_eq!(error_chirho.name_chirho, "AChirho");
    implementation_chirho.classes_chirho[0].1 = abstract_class_chirho(Some(vec![(vec![0], vec![1])]));
    assert!(boot_chirho.check_boot_promises_chirho(&implementation_chirho).is_ok());
    // Unknown functional dependencies never agree.
    boot_chirho.classes_chirho[0].1 = abstract_class_chirho(None);
    implementation_chirho.classes_chirho[1].1 = abstract_class_chirho(None);
    let error_chirho = boot_chirho.check_boot_promises_chirho(&implementation_chirho).unwrap_err();
    assert_eq!(error_chirho.kind_chirho, BootContractErrorKindChirho::DifferentFundepsChirho);
    assert_eq!(error_chirho.name_chirho, "ZChirho");
    boot_chirho.classes_chirho[0].1 = ClassContractChirho { abstract_chirho: false, fundeps_chirho: Some(vec![]) };
    let error_chirho = boot_chirho.check_boot_promises_chirho(&implementation_chirho).unwrap_err();
    assert_eq!(error_chirho.kind_chirho, BootContractErrorKindChirho::FullClassNotRepresentedChirho);
    assert!(boot_chirho.supports_abstract_boot_class_chirho("AChirho"));
    assert!(!boot_chirho.supports_abstract_boot_class_chirho("ZChirho"));
    assert!(!boot_chirho.supports_abstract_boot_class_chirho("NoSuchChirho"));
}

#[test]
fn boot_unproved_instances_report_the_least_name_chirho() {
    let mut boot_chirho = DeclarationContractsChirho::default();
    boot_chirho.unproved_instances_chirho.push("ShowChirho".to_owned());
    boot_chirho.unproved_instances_chirho.push("EqChirho".to_owned());
    let error_chirho = boot_chirho.check_boot_promises_chirho(&DeclarationContractsChirho::default()).unwrap_err();
    assert_eq!(error_chirho.kind_chirho, BootContractErrorKindChirho::InstanceNotRepresentedChirho);
    assert_eq!(error_chirho.name_chirho, "EqChirho");
}

#[test]
fn instance_promises_match_up_to_renaming_chirho() {
    let promised_chirho = SchemeChirho {
        vars_chirho: vec![TyVarChirho(1)],
        preds_chirho: vec![],
        ty_chirho: TyChirho::TupleChirho(vec![TyChirho::ListChirho(Box::new(TyChirho::VarChirho(TyVarChirho(1))))]),
    };
    let renamed_chirho = SchemeChirho {
        vars_chirho: vec![TyVarChirho(7)],
        preds_chirho: vec![],
        ty_chirho: TyChirho::TupleChirho(vec![TyChirho::ListChirho(Box::new(TyChirho::VarChirho(TyVarChirho(7))))]),
    };
    let mut boot_chirho = DeclarationContractsChirho::default();
    boot_chirho.instances_chirho.push(("ShowChirho".to_owned(), vec![promised_chirho]));
    let mut implementation_chirho = DeclarationContractsChirho::default();
    let error_chirho = boot_chirho.check_boot_promises_chirho(&implementation_chirho).unwrap_err();
    assert_eq!(error_chirho.kind_chirho, BootContractErrorKindChirho::NoMatchingInstanceChirho);
    assert_eq!(error_chirho.name_chirho, "ShowChirho");
    implementation_chirho.instances_chirho.push(("ShowChirho".to_owned(), vec![renamed_chirho]));
    assert!(boot_chirho.check_boot_promises_chirho(&implementation_chirho).is_ok());
}

#[test]
fn family_bodies_are_recorded_and_compared_chirho() {
    let identity_chirho = TypeFamilyClauseChirho::ordinary_chirho(
        vec![TyChirho::VarChirho(TyVarChirho(3))],
        TyChirho::VarChirho(TyVarChirho(3)),
    );
    let renamed_chirho = TypeFamilyClauseChirho::ordinary_chirho(
        vec![TyChirho::VarChirho(TyVarChirho(9))],
        TyChirho::VarChirho(TyVarChirho(9)),
    );
    let span_chirho = SpanChirho { start_chirho: 1, end_chirho: 2 };
    let closed_chirho = TypeFamilyBodyChirho::ClosedChirho { equation_spans_chirho: vec![span_chirho] };
    let mut boot_chirho = DeclarationContractsChirho::default();
    assert_eq!(
        boot_chirho.record_family_chirho("FChirho", &TypeFamilyBodyChirho::InvalidChirho, &[]),
        Err(FamilyRecordErrorChirho::MalformedBodyChirho)
    );
    assert_eq!(
        boot_chirho.record_family_chirho("FChirho", &closed_chirho, &[]),
        Err(FamilyRecordErrorChirho::UncheckedEquationsChirho)
    );
    assert_eq!(
        FamilyRecordErrorChirho::UncheckedEquationsChirho.message_chirho(),
        "family contract contains unchecked equations"
    );
    assert!(boot_chirho.families_chirho.is_empty());
    boot_chirho.record_family_chirho("FChirho", &closed_chirho, &[identity_chirho]).unwrap();
    boot_chirho.record_family_chirho("OChirho", &TypeFamilyBodyChirho::OpenChirho, &[]).unwrap();
    boot_chirho.record_family_chirho("AChirho", &TypeFamilyBodyChirho::AbstractClosedChirho, &[]).unwrap();
    let mut implementation_chirho = DeclarationContractsChirho::default();
    implementation_chirho.record_family_chirho("FChirho", &closed_chirho, &[renamed_chirho.clone()]).unwrap();
    implementation_chirho.record_family_chirho("OChirho", &TypeFamilyBodyChirho::OpenChirho, &[]).unwrap();
    implementation_chirho.record_family_chirho("AChirho", &closed_chirho, &[renamed_chirho]).unwrap();
    assert!(boot_chirho.check_boot_family_chirho("FChirho", &implementation_chirho).is_ok());
    assert!(boot_chirho.check_boot_family_chirho("OChirho", &implementation_chirho).is_ok());
    assert!(boot_chirho.check_boot_family_chirho("AChirho", &implementation_chirho).is_ok());
    let error_chirho = implementation_chirho.check_boot_family_chirho("AChirho", &boot_chirho).unwrap_err();
    assert_eq!(error_chirho.kind_chirho, BootContractErrorKindChirho::FamilyBodyMismatchChirho);
    assert_eq!(error_chirho.message_chirho(), "boot contract family body mismatch for AChirho");
    assert!(boot_chirho.check_boot_family_chirho("MissingChirho", &implementation_chirho).is_err());
    // Re-recording a family replaces its body.
    boot_chirho.record_family_chirho("OChirho", &TypeFamilyBodyChirho::AbstractClosedChirho, &[]).unwrap();
    assert_eq!(boot_chirho.families_chirho.len(), 3);
    assert!(boot_chirho.check_boot_family_chirho("OChirho", &implementation_chirho).is_err());
}

#[test]
fn boot_instance_budget_is_shared_by_the_classes_in_name_order_chirho() {
    let con_scheme_chirho =
        |name_chirho: &str| SchemeChirho::mono_chirho(TyChirho::ConChirho(name_chirho.to_owned()));
    let promise_chirho = con_scheme_chirho("ExpectedChirho");
    let wrong_chirho = con_scheme_chirho("OtherChirho");
    let mut boot_chirho = DeclarationContractsChirho::default();
    boot_chirho.instances_chirho.push(("BChirho".to_owned(), vec![promise_chirho.clone()]));
    boot_chirho.instances_chirho.push(("AChirho".to_owned(), vec![promise_chirho.clone()]));
    let mut implementation_chirho = DeclarationContractsChirho::default();
    // AChirho takes all but one comparison, BChirho exactly one: within budget.
    let mut a_candidates_chirho = vec![wrong_chirho.clone(); INSTANCE_COMPARISON_LIMIT_CHIRHO - 2];
    a_candidates_chirho.push(promise_chirho.clone());
    implementation_chirho.instances_chirho.push(("AChirho".to_owned(), a_candidates_chirho));
    implementation_chirho
        .instances_chirho
        .push(("BChirho".to_owned(), vec![promise_chirho.clone(), wrong_chirho.clone()]));
    assert!(boot_chirho.check_boot_promises_chirho(&implementation_chirho).is_ok());
    // One more comparison for BChirho runs out of budget.
    implementation_chirho.instances_chirho[1].1.insert(0, wrong_chirho.clone());
    let error_chirho = boot_chirho.check_boot_promises_chirho(&implementation_chirho).unwrap_err();
    assert_eq!(error_chirho.kind_chirho, BootContractErrorKindChirho::BudgetExhaustedChirho);
    // An unmet promise of AChirho is reported before BChirho is looked at.
    implementation_chirho.instances_chirho[0].1 = vec![wrong_chirho];
    let error_chirho = boot_chirho.check_boot_promises_chirho(&implementation_chirho).unwrap_err();
    assert_eq!(error_chirho.kind_chirho, BootContractErrorKindChirho::NoMatchingInstanceChirho);
    assert_eq!(error_chirho.name_chirho, "AChirho");
}
