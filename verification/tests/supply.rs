use vcore::supply::{
    Cr3, SupplyConfiguration, SupplyFault, SupplyField, SupplyPattern, SUPPLY_MISMATCH,
};

const WRITING: [SupplyConfiguration; 5] = [
    SupplyConfiguration::LDOSupply,
    SupplyConfiguration::DirectSMPS,
    SupplyConfiguration::SMPSFeedsIntoLDO1V8,
    SupplyConfiguration::SMPSFeedsIntoLDO2V5,
    SupplyConfiguration::Bypass,
];

fn every_register() -> Vec<Cr3> {
    let mut all = Vec::new();
    for bypass in [false, true] {
        for ldoen in [false, true] {
            for sden in [false, true] {
                for sdlevel in 0u8..4 {
                    all.push(Cr3 { bypass, ldoen, sden, sdlevel });
                }
            }
        }
    }
    all
}

fn reset_value() -> Cr3 {
    Cr3 { bypass: false, ldoen: true, sden: true, sdlevel: 0 }
}

#[test]
fn default_pins_nothing() {
    let p = SupplyConfiguration::Default.pattern();
    assert_eq!(p, SupplyPattern { sden: None, ldoen: None, sdlevel: None, bypass: None });
}

#[test]
fn ldo_pins_converter_off_and_regulator_on() {
    let p = SupplyConfiguration::LDOSupply.pattern();
    assert_eq!(
        p,
        SupplyPattern { sden: Some(false), ldoen: Some(true), sdlevel: None, bypass: None }
    );
}

#[test]
fn smps_pins_converter_on_and_regulator_off() {
    let p = SupplyConfiguration::DirectSMPS.pattern();
    assert_eq!(
        p,
        SupplyPattern { sden: Some(true), ldoen: Some(false), sdlevel: None, bypass: None }
    );
}

#[test]
fn feeding_the_regulator_pins_both_on_and_the_level() {
    assert_eq!(
        SupplyConfiguration::SMPSFeedsIntoLDO1V8.pattern(),
        SupplyPattern { sden: Some(true), ldoen: Some(true), sdlevel: Some(1), bypass: None }
    );
    assert_eq!(
        SupplyConfiguration::SMPSFeedsIntoLDO2V5.pattern(),
        SupplyPattern { sden: Some(true), ldoen: Some(true), sdlevel: Some(2), bypass: None }
    );
}

#[test]
fn bypass_pins_both_off_and_bypass_on() {
    let p = SupplyConfiguration::Bypass.pattern();
    assert_eq!(
        p,
        SupplyPattern { sden: Some(false), ldoen: Some(false), sdlevel: None, bypass: Some(true) }
    );
}

#[test]
fn apply_changes_pinned_fields_only() {
    let before = Cr3 { bypass: true, ldoen: false, sden: true, sdlevel: 3 };
    let after = SupplyConfiguration::LDOSupply.pattern().apply(before);
    assert_eq!(after, Cr3 { bypass: true, ldoen: true, sden: false, sdlevel: 3 });
    let after = SupplyConfiguration::SMPSFeedsIntoLDO2V5.pattern().apply(before);
    assert_eq!(after, Cr3 { bypass: true, ldoen: true, sden: true, sdlevel: 2 });
    let after = SupplyConfiguration::Bypass.pattern().apply(reset_value());
    assert_eq!(after, Cr3 { bypass: true, ldoen: false, sden: false, sdlevel: 0 });
}

#[test]
fn apply_of_default_is_identity() {
    for cr3 in every_register() {
        assert_eq!(SupplyConfiguration::Default.pattern().apply(cr3), cr3);
    }
}

#[test]
fn written_pattern_reads_back_on_every_register() {
    for supply in WRITING {
        for before in every_register() {
            let after = supply.pattern().apply(before);
            assert_eq!(supply.pattern().mismatch(after), None);
            assert_eq!(supply.verify(after), Ok(()));
            assert_eq!(supply.pattern().apply(after), after);
        }
    }
}

#[test]
fn no_register_passes_for_two_strategies() {
    for cr3 in every_register() {
        let passing = WRITING.iter().filter(|s| s.verify(cr3).is_ok()).count();
        assert!(passing <= 1);
    }
}

#[test]
fn default_accepts_every_register() {
    for cr3 in every_register() {
        assert_eq!(SupplyConfiguration::Default.verify(cr3), Ok(()));
    }
}

#[test]
fn mismatch_names_the_first_field_that_differs() {
    let ldo = SupplyConfiguration::LDOSupply.pattern();
    let both = Cr3 { bypass: false, ldoen: false, sden: true, sdlevel: 0 };
    assert_eq!(ldo.mismatch(both), Some(SupplyField::Sden));
    let regulator = Cr3 { bypass: false, ldoen: false, sden: false, sdlevel: 0 };
    assert_eq!(ldo.mismatch(regulator), Some(SupplyField::Ldoen));

    let feed = SupplyConfiguration::SMPSFeedsIntoLDO1V8.pattern();
    let level = Cr3 { bypass: false, ldoen: true, sden: true, sdlevel: 2 };
    assert_eq!(feed.mismatch(level), Some(SupplyField::Sdlevel));
    let regulator_and_level = Cr3 { bypass: false, ldoen: false, sden: true, sdlevel: 2 };
    assert_eq!(feed.mismatch(regulator_and_level), Some(SupplyField::Ldoen));

    let bypass = SupplyConfiguration::Bypass.pattern();
    let not_bypassed = Cr3 { bypass: false, ldoen: false, sden: false, sdlevel: 0 };
    assert_eq!(bypass.mismatch(not_bypassed), Some(SupplyField::Bypass));
}

#[test]
fn unpinned_fields_are_not_compared() {
    let ldo = SupplyConfiguration::LDOSupply;
    for bypass in [false, true] {
        for sdlevel in 0u8..4 {
            let cr3 = Cr3 { bypass, ldoen: true, sden: false, sdlevel };
            assert_eq!(ldo.verify(cr3), Ok(()));
        }
    }
}

#[test]
fn verify_reports_strategy_register_and_field() {
    let observed = reset_value();
    assert_eq!(
        SupplyConfiguration::DirectSMPS.verify(observed),
        Err(SupplyFault {
            requested: SupplyConfiguration::DirectSMPS,
            observed,
            field: SupplyField::Ldoen,
        })
    );
    assert_eq!(
        SupplyConfiguration::Bypass.verify(observed),
        Err(SupplyFault {
            requested: SupplyConfiguration::Bypass,
            observed,
            field: SupplyField::Sden,
        })
    );
    assert_eq!(
        SupplyConfiguration::SMPSFeedsIntoLDO2V5.verify(observed),
        Err(SupplyFault {
            requested: SupplyConfiguration::SMPSFeedsIntoLDO2V5,
            observed,
            field: SupplyField::Sdlevel,
        })
    );
}

#[test]
fn feeding_levels_are_told_apart() {
    let at_1v8 = SupplyConfiguration::SMPSFeedsIntoLDO1V8.pattern().apply(reset_value());
    assert_eq!(at_1v8.sdlevel, 1);
    assert_eq!(SupplyConfiguration::SMPSFeedsIntoLDO1V8.verify(at_1v8), Ok(()));
    let fault = SupplyConfiguration::SMPSFeedsIntoLDO2V5.verify(at_1v8).unwrap_err();
    assert_eq!(fault.field, SupplyField::Sdlevel);
    assert_eq!(fault.observed, at_1v8);
}

#[test]
fn field_names_are_those_of_the_manual() {
    assert_eq!(SupplyField::Sden.name(), "SDEN");
    assert_eq!(SupplyField::Ldoen.name(), "LDOEN");
    assert_eq!(SupplyField::Sdlevel.name(), "SDLEVEL");
    assert_eq!(SupplyField::Bypass.name(), "BYPASS");
}

#[test]
fn mismatch_text_names_the_register_and_the_remedy() {
    assert!(SUPPLY_MISMATCH.contains("PWR.CR3"));
    assert!(SUPPLY_MISMATCH.contains("Power-on-Reset"));
    assert!(!SUPPLY_MISMATCH.contains("  "));
}
