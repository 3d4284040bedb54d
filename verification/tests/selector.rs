use vcore::pwr::{Pwr, PwrExt, VoltageScale};
use vcore::sequencer::{Command, Stage};
use vcore::supply::{Cr3, SupplyConfiguration, SupplyFault, SupplyField};

#[derive(Debug, PartialEq)]
struct Handle(u32);

fn fresh() -> Pwr<Handle> {
    Handle(7).constrain()
}

#[test]
fn constrain_selects_default_without_overdrive() {
    let pwr = fresh();
    assert_eq!(pwr.supply_configuration(), SupplyConfiguration::Default);
    assert!(!pwr.overdrive_requested());
}

#[test]
fn each_setter_selects_its_strategy() {
    assert_eq!(fresh().ldo().supply_configuration(), SupplyConfiguration::LDOSupply);
    assert_eq!(fresh().smps().supply_configuration(), SupplyConfiguration::DirectSMPS);
    assert_eq!(fresh().bypass().supply_configuration(), SupplyConfiguration::Bypass);
    assert_eq!(
        fresh().smps_1v8_feeds_ldo().supply_configuration(),
        SupplyConfiguration::SMPSFeedsIntoLDO1V8
    );
    assert_eq!(
        fresh().smps_2v5_feeds_ldo().supply_configuration(),
        SupplyConfiguration::SMPSFeedsIntoLDO2V5
    );
}

#[test]
fn the_last_setter_wins() {
    let pwr = fresh().ldo().smps().bypass().smps_1v8_feeds_ldo();
    assert_eq!(pwr.supply_configuration(), SupplyConfiguration::SMPSFeedsIntoLDO1V8);
    assert!(!pwr.overdrive_requested());
}

#[test]
fn vos0_sets_the_flag_and_keeps_the_strategy() {
    let pwr = fresh().smps().vos0();
    assert!(pwr.overdrive_requested());
    assert_eq!(pwr.supply_configuration(), SupplyConfiguration::DirectSMPS);
}

#[test]
fn setters_keep_the_overdrive_request() {
    let pwr = fresh().vos0().ldo();
    assert!(pwr.overdrive_requested());
    assert_eq!(pwr.supply_configuration(), SupplyConfiguration::LDOSupply);
    let pwr = pwr.vos0();
    assert!(pwr.overdrive_requested());
}

#[test]
fn freeze_hands_the_handle_back() {
    let (handle, _seq) = Handle(41).constrain().ldo().freeze();
    assert_eq!(handle, Handle(41));
}

#[test]
fn freeze_carries_the_selection_over() {
    let (_, seq) = fresh().bypass().vos0().freeze();
    assert_eq!(seq.supply_configuration(), SupplyConfiguration::Bypass);
    assert!(seq.overdrive());
    let (_, seq) = fresh().freeze();
    assert_eq!(seq.supply_configuration(), SupplyConfiguration::Default);
    assert!(!seq.overdrive());
}

#[test]
fn freeze_of_a_writing_strategy_starts_with_the_write() {
    let (_, seq) = fresh().smps().freeze();
    assert_eq!(seq.stage(), Stage::SupplyPending);
    assert_eq!(
        seq.command(),
        Command::WriteSupply(SupplyConfiguration::DirectSMPS.pattern())
    );
}

#[test]
fn freeze_of_default_starts_with_the_first_poll() {
    let (_, seq) = fresh().freeze();
    assert_eq!(seq.stage(), Stage::PostReset);
    assert_eq!(seq.command(), Command::PollDomainReady);
}

#[test]
fn verify_supply_configuration_accepts_what_the_strategy_pins() {
    let pwr = fresh().ldo();
    let cr3 = Cr3 { bypass: false, ldoen: true, sden: false, sdlevel: 0 };
    assert_eq!(pwr.verify_supply_configuration(cr3), Ok(()));
}

#[test]
fn verify_supply_configuration_names_the_field() {
    let pwr = fresh().ldo();
    let observed = Cr3 { bypass: false, ldoen: true, sden: true, sdlevel: 0 };
    assert_eq!(
        pwr.verify_supply_configuration(observed),
        Err(SupplyFault {
            requested: SupplyConfiguration::LDOSupply,
            observed,
            field: SupplyField::Sden,
        })
    );
}

#[test]
fn verify_supply_configuration_does_not_verify_default() {
    let pwr = fresh();
    for sden in [false, true] {
        for ldoen in [false, true] {
            let cr3 = Cr3 { bypass: true, ldoen, sden, sdlevel: 3 };
            assert_eq!(pwr.verify_supply_configuration(cr3), Ok(()));
        }
    }
}

#[test]
fn scale_levels_are_distinct() {
    assert_eq!(VoltageScale::Scale1, VoltageScale::Scale1);
    assert_ne!(VoltageScale::Scale0, VoltageScale::Scale1);
    assert_ne!(VoltageScale::Scale2, VoltageScale::Scale3);
}
