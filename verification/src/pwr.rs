//! The supply selector.
//!
//! A [`Pwr`] is made by constraining the handle of a power control unit. It
//! holds the handle and records how VCORE is to be supplied and whether
//! overdrive is wanted. Selecting touches no register. Freezing consumes the
//! selector, so one selection is committed at most once, and yields the
//! [`Sequencer`] that commits it.

use vstd::prelude::*;
use crate::sequencer::{Sequencer, SequencerState};
use crate::supply::{Cr3, SupplyConfiguration, SupplyFault};

verus! {

/// Voltage scale
///
/// Named by the sequencer when the commit has run to its end.
#[derive(Clone, Copy, Debug, PartialEq, Eq, Structural)]
pub enum VoltageScale {
    /// Overdrive.
    Scale0,
    /// High performance.
    Scale1,
    Scale2,
    /// The scale after reset.
    Scale3,
}

/// Constrained power control unit: the handle of the unit together with the
/// supply selection made so far.
#[derive(Debug)]
pub struct Pwr<R> {
    rb: R,
    supply_configuration: SupplyConfiguration,
    enable_vos0: bool,
}

/// Extension trait that constrains the handle of a power control unit.
pub trait PwrExt: Sized {
    /// Takes the handle and starts a selection with the strategy `Default`
    /// and without overdrive.
    fn constrain(self) -> (pwr: Pwr<Self>)
        ensures
            pwr.rb() == self,
            pwr.supply() == SupplyConfiguration::Default,
            !pwr.overdrive(),
    ;
}

impl<R> PwrExt for R {
    fn constrain(self) -> (pwr: Pwr<R>) {
        Pwr { rb: self, supply_configuration: SupplyConfiguration::Default, enable_vos0: false }
    }
}

impl<R> Pwr<R> {
    /// The handle that was constrained.
    pub closed spec fn rb(&self) -> R {
        self.rb
    }

    /// The strategy selected.
    pub closed spec fn supply(&self) -> SupplyConfiguration {
        self.supply_configuration
    }

    /// Whether overdrive is wanted.
    pub closed spec fn overdrive(&self) -> bool {
        self.enable_vos0
    }

    /// The selector with another strategy and all else as it is.
    fn with_supply(self, supply: SupplyConfiguration) -> (pwr: Self)
        ensures
            pwr.rb() == self.rb(),
            pwr.supply() == supply,
            pwr.overdrive() == self.overdrive(),
    {
        Pwr { rb: self.rb, supply_configuration: supply, enable_vos0: self.enable_vos0 }
    }

    /// VCORE power domains supplied from the LDO. LDO voltage adjusted by
    /// VOS. LDO power mode will follow the system low-power mode.
    pub fn ldo(self) -> (pwr: Self)
        ensures
            pwr.rb() == self.rb(),
            pwr.supply() == SupplyConfiguration::LDOSupply,
            pwr.overdrive() == self.overdrive(),
    {
        self.with_supply(SupplyConfiguration::LDOSupply)
    }

    /// VCORE power domains are supplied from the SMPS step-down converter.
    /// SMPS output voltage adjusted by VOS. SMPS power mode will follow the
    /// system low-power mode.
    pub fn smps(self) -> (pwr: Self)
        ensures
            pwr.rb() == self.rb(),
            pwr.supply() == SupplyConfiguration::DirectSMPS,
            pwr.overdrive() == self.overdrive(),
    {
        self.with_supply(SupplyConfiguration::DirectSMPS)
    }

    /// VCORE is supplied from an external source.
    pub fn bypass(self) -> (pwr: Self)
        ensures
            pwr.rb() == self.rb(),
            pwr.supply() == SupplyConfiguration::Bypass,
            pwr.overdrive() == self.overdrive(),
    {
        self.with_supply(SupplyConfiguration::Bypass)
    }

    /// VCORE power domains supplied from the LDO. LDO voltage adjusted by
    /// VOS. LDO power mode will follow the system low-power mode. SMPS
    /// output voltage set to 1.8V. SMPS power mode will follow the system
    /// low-power mode.
    pub fn smps_1v8_feeds_ldo(self) -> (pwr: Self)
        ensures
            pwr.rb() == self.rb(),
            pwr.supply() == SupplyConfiguration::SMPSFeedsIntoLDO1V8,
            pwr.overdrive() == self.overdrive(),
    {
        self.with_supply(SupplyConfiguration::SMPSFeedsIntoLDO1V8)
    }

    /// VCORE power domains supplied from the LDO. LDO voltage adjusted by
    /// VOS. LDO power mode will follow the system low-power mode. SMPS
    /// output voltage set to 2.5V. SMPS power mode will follow the system
    /// low-power mode.
    pub fn smps_2v5_feeds_ldo(self) -> (pwr: Self)
        ensures
            pwr.rb() == self.rb(),
            pwr.supply() == SupplyConfiguration::SMPSFeedsIntoLDO2V5,
            pwr.overdrive() == self.overdrive(),
    {
        self.with_supply(SupplyConfiguration::SMPSFeedsIntoLDO2V5)
    }

    /// Asks for overdrive, the scale above high performance.
    pub fn vos0(self) -> (pwr: Self)
        ensures
            pwr.rb() == self.rb(),
            pwr.supply() == self.supply(),
            pwr.overdrive(),
    {
        Pwr { rb: self.rb, supply_configuration: self.supply_configuration, enable_vos0: true }
    }

    /// The strategy selected.
    pub fn supply_configuration(&self) -> (supply: SupplyConfiguration)
        ensures
            supply == self.supply(),
    {
        self.supply_configuration
    }

    /// Whether overdrive is wanted.
    pub fn overdrive_requested(&self) -> (overdrive: bool)
        ensures
            overdrive == self.overdrive(),
    {
        self.enable_vos0
    }

    /// Verify that the lower byte of CR3 reads as written
    ///
    /// `observed` is what the register holds after the write. The read-back
    /// passes exactly when every field that the selected strategy pins has
    /// its pinned value; else the error names the strategy, the read-back
    /// and the first field that differs. The strategy `Default` pins no
    /// field and is not verified: every read-back passes.
    pub fn verify_supply_configuration(&self, observed: Cr3) -> (r: Result<(), SupplyFault>)
        ensures
            r is Ok <==> self.supply().spec_pattern().holds_in(observed),
            r == match self.supply().fault_on(observed) {
                Some(fault) => Err::<(), SupplyFault>(fault),
                None => Ok::<(), SupplyFault>(()),
            },
    {
        self.supply_configuration.verify(observed)
    }

    /// Ends the selection. The selector is consumed: what comes back is the
    /// handle, to reach the registers with, and the sequencer that says what
    /// to do with them.
    pub fn freeze(self) -> (r: (R, Sequencer))
        ensures
            r.0 == self.rb(),
            r.1@ == SequencerState::start(self.supply(), self.overdrive()),
    {
        let seq = Sequencer::begin(self.supply_configuration, self.enable_vos0);
        (self.rb, seq)
    }
}

} // verus!
