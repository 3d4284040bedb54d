//! Supply strategies, the register fields each of them pins, and the check
//! of a read-back against them.
//!
//! The lower byte of control register 3 routes the VCORE supply. The unit
//! takes one write to it after each power-on reset and ignores every later
//! one, so what was asked for has to be compared with what the register
//! holds afterwards.

use vstd::prelude::*;

verus! {

/// How the core voltage VCORE is sourced.
#[derive(Clone, Copy, Debug, PartialEq, Eq, Structural)]
pub enum SupplyConfiguration {
    /// Leave the unit as it came out of reset. Nothing is written and
    /// nothing is checked.
    Default,
    /// Linear regulator only.
    LDOSupply,
    /// Switched-mode converter only.
    DirectSMPS,
    /// Converter output at 1.8 V feeds the regulator.
    SMPSFeedsIntoLDO1V8,
    /// Converter output at 2.5 V feeds the regulator.
    SMPSFeedsIntoLDO2V5,
    /// VCORE comes from an external source; regulator and converter are off.
    Bypass,
}

/// The supply fields of control register 3, as plain values.
#[derive(Clone, Copy, Debug, PartialEq, Eq, Structural)]
pub struct Cr3 {
    /// Power management unit bypass.
    pub bypass: bool,
    /// Linear regulator enable.
    pub ldoen: bool,
    /// Switched-mode converter enable.
    pub sden: bool,
    /// Converter output level: 1 stands for 1.8 V, 2 for 2.5 V.
    pub sdlevel: u8,
}

/// One supply field of control register 3.
#[derive(Clone, Copy, Debug, PartialEq, Eq, Structural)]
pub enum SupplyField {
    Sden,
    Ldoen,
    Sdlevel,
    Bypass,
}

/// The values a strategy pins in control register 3. A field that is `None`
/// is left as the register holds it, and is not looked at afterwards.
#[derive(Clone, Copy, Debug, PartialEq, Eq)]
pub struct SupplyPattern {
    pub sden: Option<bool>,
    pub ldoen: Option<bool>,
    pub sdlevel: Option<u8>,
    pub bypass: Option<bool>,
}

/// A read-back that contradicts the requested strategy.
#[derive(Clone, Copy, Debug, PartialEq, Eq, Structural)]
pub struct SupplyFault {
    /// The strategy that was asked for.
    pub requested: SupplyConfiguration,
    /// What the register held after the write.
    pub observed: Cr3,
    /// The first field, in the order SDEN, LDOEN, SDLEVEL, BYPASS, that
    /// differs from the value the strategy pins.
    pub field: SupplyField,
}

/// What to tell the user when a read-back contradicts the request.
pub const SUPPLY_MISMATCH: &'static str =
    "Values in lower byte of PWR.CR3 do not match the configured power mode. \
     These values can only be set once for each POR (Power-on-Reset). \
     Try removing power to your board.";

impl SupplyField {
    /// The field's name in the reference manual.
    pub open spec fn spec_name(self) -> Seq<char> {
        match self {
            SupplyField::Sden => "SDEN"@,
            SupplyField::Ldoen => "LDOEN"@,
            SupplyField::Sdlevel => "SDLEVEL"@,
            SupplyField::Bypass => "BYPASS"@,
        }
    }

    /// The field's name in the reference manual.
    pub fn name(self) -> (s: &'static str)
        ensures
            s@ == self.spec_name(),
    {
        match self {
            SupplyField::Sden => "SDEN",
            SupplyField::Ldoen => "LDOEN",
            SupplyField::Sdlevel => "SDLEVEL",
            SupplyField::Bypass => "BYPASS",
        }
    }
}

impl SupplyPattern {
    /// What a register that held `before` holds once the pattern has been
    /// written to it and the unit has taken the write: every pinned field
    /// has its pinned value, every other field is as it was.
    pub open spec fn written_over(self, before: Cr3) -> Cr3 {
        Cr3 {
            sden: if let Some(v) = self.sden { v } else { before.sden },
            ldoen: if let Some(v) = self.ldoen { v } else { before.ldoen },
            sdlevel: if let Some(v) = self.sdlevel { v } else { before.sdlevel },
            bypass: if let Some(v) = self.bypass { v } else { before.bypass },
        }
    }

    /// Whether `cr3` has every pinned field at its pinned value.
    pub open spec fn holds_in(self, cr3: Cr3) -> bool {
        &&& self.sden matches Some(v) ==> cr3.sden == v
        &&& self.ldoen matches Some(v) ==> cr3.ldoen == v
        &&& self.sdlevel matches Some(v) ==> cr3.sdlevel == v
        &&& self.bypass matches Some(v) ==> cr3.bypass == v
    }

    /// The first field, in the order SDEN, LDOEN, SDLEVEL, BYPASS, that is
    /// pinned and differs in `cr3`; `None` where there is no such field.
    pub open spec fn first_mismatch(self, cr3: Cr3) -> Option<SupplyField> {
        if self.sden is Some && self.sden->0 != cr3.sden {
            Some(SupplyField::Sden)
        } else if self.ldoen is Some && self.ldoen->0 != cr3.ldoen {
            Some(SupplyField::Ldoen)
        } else if self.sdlevel is Some && self.sdlevel->0 != cr3.sdlevel {
            Some(SupplyField::Sdlevel)
        } else if self.bypass is Some && self.bypass->0 != cr3.bypass {
            Some(SupplyField::Bypass)
        } else {
            None
        }
    }

    /// Writes the pattern over `before`. A driver of real registers hands in
    /// what it read and stores the result; a model of the unit does the same
    /// on its own state.
    pub fn apply(&self, before: Cr3) -> (after: Cr3)
        ensures
            after == self.written_over(before),
    {
        Cr3 {
            sden: match self.sden {
                Some(v) => v,
                None => before.sden,
            },
            ldoen: match self.ldoen {
                Some(v) => v,
                None => before.ldoen,
            },
            sdlevel: match self.sdlevel {
                Some(v) => v,
                None => before.sdlevel,
            },
            bypass: match self.bypass {
                Some(v) => v,
                None => before.bypass,
            },
        }
    }

    /// Compares a read-back with the pattern and names the first field that
    /// differs.
    pub fn mismatch(&self, observed: Cr3) -> (field: Option<SupplyField>)
        ensures
            field == self.first_mismatch(observed),
            field is None <==> self.holds_in(observed),
    {
        if let Some(v) = self.sden {
            if v != observed.sden {
                return Some(SupplyField::Sden);
            }
        }
        if let Some(v) = self.ldoen {
            if v != observed.ldoen {
                return Some(SupplyField::Ldoen);
            }
        }
        if let Some(v) = self.sdlevel {
            if v != observed.sdlevel {
                return Some(SupplyField::Sdlevel);
            }
        }
        if let Some(v) = self.bypass {
            if v != observed.bypass {
                return Some(SupplyField::Bypass);
            }
        }
        None
    }
}

impl SupplyConfiguration {
    /// The fields the strategy pins, and their values. `Default` pins none.
    pub open spec fn spec_pattern(self) -> SupplyPattern {
        match self {
            SupplyConfiguration::Default => SupplyPattern {
                sden: None,
                ldoen: None,
                sdlevel: None,
                bypass: None,
            },
            SupplyConfiguration::LDOSupply => SupplyPattern {
                sden: Some(false),
                ldoen: Some(true),
                sdlevel: None,
                bypass: None,
            },
            SupplyConfiguration::DirectSMPS => SupplyPattern {
                sden: Some(true),
                ldoen: Some(false),
                sdlevel: None,
                bypass: None,
            },
            SupplyConfiguration::SMPSFeedsIntoLDO1V8 => SupplyPattern {
                sden: Some(true),
                ldoen: Some(true),
                sdlevel: Some(1u8),
                bypass: None,
            },
            SupplyConfiguration::SMPSFeedsIntoLDO2V5 => SupplyPattern {
                sden: Some(true),
                ldoen: Some(true),
                sdlevel: Some(2u8),
                bypass: None,
            },
            SupplyConfiguration::Bypass => SupplyPattern {
                sden: Some(false),
                ldoen: Some(false),
                sdlevel: None,
                bypass: Some(true),
            },
        }
    }

    /// The fault that a read-back of `observed` raises for this strategy,
    /// if it raises one.
    pub open spec fn fault_on(self, observed: Cr3) -> Option<SupplyFault> {
        match self.spec_pattern().first_mismatch(observed) {
            Some(field) => Some(SupplyFault { requested: self, observed, field }),
            None => None,
        }
    }

    /// The fields the strategy pins, and their values.
    pub fn pattern(self) -> (p: SupplyPattern)
        ensures
            p == self.spec_pattern(),
    {
        match self {
            SupplyConfiguration::Default => SupplyPattern {
                sden: None,
                ldoen: None,
                sdlevel: None,
                bypass: None,
            },
            SupplyConfiguration::LDOSupply => SupplyPattern {
                sden: Some(false),
                ldoen: Some(true),
                sdlevel: None,
                bypass: None,
            },
            SupplyConfiguration::DirectSMPS => SupplyPattern {
                sden: Some(true),
                ldoen: Some(false),
                sdlevel: None,
                bypass: None,
            },
            SupplyConfiguration::SMPSFeedsIntoLDO1V8 => SupplyPattern {
                sden: Some(true),
                ldoen: Some(true),
                sdlevel: Some(1u8),
                bypass: None,
            },
            SupplyConfiguration::SMPSFeedsIntoLDO2V5 => SupplyPattern {
                sden: Some(true),
                ldoen: Some(true),
                sdlevel: Some(2u8),
                bypass: None,
            },
            SupplyConfiguration::Bypass => SupplyPattern {
                sden: Some(false),
                ldoen: Some(false),
                sdlevel: None,
                bypass: Some(true),
            },
        }
    }

    /// Checks a read-back against the strategy. The read-back passes exactly
    /// when every field the strategy pins has its pinned value, so `Default`
    /// accepts whatever the register holds.
    pub fn verify(self, observed: Cr3) -> (r: Result<(), SupplyFault>)
        ensures
            r is Ok <==> self.spec_pattern().holds_in(observed),
            r == match self.fault_on(observed) {
                Some(fault) => Err::<(), SupplyFault>(fault),
                None => Ok::<(), SupplyFault>(()),
            },
    {
        match self.pattern().mismatch(observed) {
            Some(field) => Err(SupplyFault { requested: self, observed, field }),
            None => Ok(()),
        }
    }
}

/// A register that takes the write reads back as asked: whatever it held
/// before, once the pattern of a strategy has been written over it, the
/// pinned fields hold the pinned values and the read-back raises no fault.
pub proof fn written_pattern_reads_back(supply: SupplyConfiguration, before: Cr3)
    ensures
        supply.spec_pattern().holds_in(supply.spec_pattern().written_over(before)),
        supply.spec_pattern().first_mismatch(supply.spec_pattern().written_over(before)) is None,
        supply.fault_on(supply.spec_pattern().written_over(before)) is None,
{
}

/// Writing a pattern twice is writing it once.
pub proof fn writing_is_idempotent(pattern: SupplyPattern, before: Cr3)
    ensures
        pattern.written_over(pattern.written_over(before)) == pattern.written_over(before),
{
}

/// A read-back raises no fault exactly when the pattern holds in it.
pub proof fn fault_iff_pattern_broken(supply: SupplyConfiguration, observed: Cr3)
    ensures
        supply.fault_on(observed) is None <==> supply.spec_pattern().holds_in(observed),
        supply.fault_on(observed) matches Some(fault) ==> {
            &&& fault.requested == supply
            &&& fault.observed == observed
            &&& supply.spec_pattern().first_mismatch(observed) == Some(fault.field)
        },
{
}

/// No register value passes for two strategies that write: a register that
/// holds the pattern of one of them raises a fault for every other.
pub proof fn patterns_exclude_each_other(
    held: SupplyConfiguration,
    requested: SupplyConfiguration,
    cr3: Cr3,
)
    requires
        held != SupplyConfiguration::Default,
        requested != SupplyConfiguration::Default,
        held != requested,
        held.spec_pattern().holds_in(cr3),
    ensures
        !requested.spec_pattern().holds_in(cr3),
        requested.fault_on(cr3) is Some,
{
}

} // verus!
