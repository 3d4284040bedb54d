//! The commit of a supply selection, as a machine that is stepped from
//! outside.
//!
//! The sequencer never touches a register. It names the next operation on
//! the unit as a [`Command`]; whoever owns the registers carries the
//! operation out and hands back what came of it as an [`Event`]:
//!
//! 1. write the supply fields, once, unless the strategy is `Default`;
//! 2. read them back and compare, unless the strategy is `Default`;
//! 3. poll until the active voltage scale is ready;
//! 4. request voltage scale 1 and poll until it is ready;
//! 5. where overdrive was asked for, enable the clock of the system
//!    configuration block, enable overdrive and poll once more.
//!
//! A poll that finds its bit clear leaves the sequencer where it is, so the
//! same poll is commanded again, for as long as it takes.

use vstd::prelude::*;
use crate::pwr::VoltageScale;
use crate::supply::{Cr3, SupplyConfiguration, SupplyFault, SupplyPattern};

verus! {

/// The value of the voltage scaling field that selects scale 1.
pub const VOS_SCALE1: u8 = 0b11;

/// How far a commit has come.
#[derive(Clone, Copy, Debug, PartialEq, Eq, Structural)]
pub enum Stage {
    /// The supply fields are still to be written.
    SupplyPending,
    /// The supply fields were written and are still to be read back.
    SupplyWritten,
    /// The supply is settled; the active voltage scale is not yet known to
    /// be ready.
    PostReset,
    /// The active voltage scale is ready; scale 1 is still to be requested.
    DomainReady,
    /// Scale 1 was requested and is not yet known to be ready.
    ScaleRequested,
    /// Scale 1 is ready. Without overdrive this is the end.
    ScaleReady,
    /// The clock of the system configuration block is on; overdrive is
    /// still to be enabled.
    SyscfgEnabled,
    /// Overdrive was enabled and is not yet known to be ready.
    OverdriveRequested,
    /// Overdrive is ready.
    OverdriveReady,
    /// The read-back contradicted the request. There is no way on.
    Halted(SupplyFault),
}

/// The next operation on the unit.
#[derive(Clone, Copy, Debug, PartialEq, Eq)]
pub enum Command {
    /// Write the pinned fields of the pattern to control register 3.
    WriteSupply(SupplyPattern),
    /// Read the supply fields of control register 3.
    ReadSupply,
    /// Read the flag that says the active voltage scale is ready.
    PollDomainReady,
    /// Write this value to the voltage scaling field.
    RequestScale(u8),
    /// Read the flag that says the requested voltage scale is ready.
    PollScaleReady,
    /// Enable the clock of the system configuration block.
    EnableSyscfgClock,
    /// Set the overdrive enable bit.
    EnableOverdrive,
    /// Nothing is left to do: the unit runs at this scale.
    Finish(VoltageScale),
    /// Stop. The unit is not configured as requested, and only a power-on
    /// reset will change that.
    Halt(SupplyFault),
}

/// What came of the operation last commanded.
#[derive(Clone, Copy, Debug, PartialEq, Eq, Structural)]
pub enum Event {
    /// A write was carried out.
    Done,
    /// The supply fields as read.
    Supply(Cr3),
    /// A ready flag as read.
    Ready(bool),
}

/// The mathematical content of a [`Sequencer`].
pub struct SequencerState {
    pub supply: SupplyConfiguration,
    pub overdrive: bool,
    pub stage: Stage,
}

impl Stage {
    /// The position of a stage on the way from reset to overdrive. A halt
    /// stands where the read-back that caused it stands.
    pub open spec fn rank(self) -> nat {
        match self {
            Stage::SupplyPending => 0,
            Stage::SupplyWritten => 1,
            Stage::Halted(_) => 1,
            Stage::PostReset => 2,
            Stage::DomainReady => 3,
            Stage::ScaleRequested => 4,
            Stage::ScaleReady => 5,
            Stage::SyscfgEnabled => 6,
            Stage::OverdriveRequested => 7,
            Stage::OverdriveReady => 8,
        }
    }

    /// The stages at which a ready flag is polled.
    pub open spec fn polls(self) -> bool {
        self is PostReset || self is ScaleRequested || self is OverdriveRequested
    }
}

impl SequencerState {
    /// The state in which a commit begins. `Default` has nothing to write
    /// and nothing to read back.
    pub open spec fn start(supply: SupplyConfiguration, overdrive: bool) -> SequencerState {
        SequencerState {
            supply,
            overdrive,
            stage: if supply == SupplyConfiguration::Default {
                Stage::PostReset
            } else {
                Stage::SupplyPending
            },
        }
    }

    /// The state with another stage.
    pub open spec fn at(self, stage: Stage) -> SequencerState {
        SequencerState { supply: self.supply, overdrive: self.overdrive, stage }
    }

    /// The scale level a commit ends with.
    pub open spec fn outcome(self) -> VoltageScale {
        if self.overdrive {
            VoltageScale::Scale0
        } else {
            VoltageScale::Scale1
        }
    }

    /// Whether nothing is left to do, for good or for bad.
    pub open spec fn finished(self) -> bool {
        ||| self.stage is Halted
        ||| self.stage is OverdriveReady
        ||| self.stage is ScaleReady && !self.overdrive
    }

    /// Whether the pending command changes the unit.
    pub open spec fn writes(self) -> bool {
        ||| self.stage is SupplyPending
        ||| self.stage is DomainReady
        ||| self.stage is SyscfgEnabled
        ||| self.stage is ScaleReady && self.overdrive
    }

    /// The operation that is due in this state.
    pub open spec fn command(self) -> Command {
        match self.stage {
            Stage::SupplyPending => Command::WriteSupply(self.supply.spec_pattern()),
            Stage::SupplyWritten => Command::ReadSupply,
            Stage::PostReset => Command::PollDomainReady,
            Stage::DomainReady => Command::RequestScale(VOS_SCALE1),
            Stage::ScaleRequested => Command::PollScaleReady,
            Stage::ScaleReady => if self.overdrive {
                Command::EnableSyscfgClock
            } else {
                Command::Finish(VoltageScale::Scale1)
            },
            Stage::SyscfgEnabled => Command::EnableOverdrive,
            Stage::OverdriveRequested => Command::PollScaleReady,
            Stage::OverdriveReady => Command::Finish(VoltageScale::Scale0),
            Stage::Halted(fault) => Command::Halt(fault),
        }
    }

    /// The state after `event` has answered the pending command.
    ///
    /// A write has no answer to wait for: whatever event follows it, the
    /// write counts as done and is not commanded again. A read-back moves on
    /// or halts. A poll moves on when it reads `true`. Any other event, and
    /// any event after the end, changes nothing.
    pub open spec fn advance(self, event: Event) -> SequencerState {
        match self.stage {
            Stage::SupplyPending => self.at(Stage::SupplyWritten),
            Stage::SupplyWritten => match event {
                Event::Supply(observed) => match self.supply.fault_on(observed) {
                    Some(fault) => self.at(Stage::Halted(fault)),
                    None => self.at(Stage::PostReset),
                },
                _ => self,
            },
            Stage::PostReset => if event == Event::Ready(true) {
                self.at(Stage::DomainReady)
            } else {
                self
            },
            Stage::DomainReady => self.at(Stage::ScaleRequested),
            Stage::ScaleRequested => if event == Event::Ready(true) {
                self.at(Stage::ScaleReady)
            } else {
                self
            },
            Stage::ScaleReady => if self.overdrive {
                self.at(Stage::SyscfgEnabled)
            } else {
                self
            },
            Stage::SyscfgEnabled => self.at(Stage::OverdriveRequested),
            Stage::OverdriveRequested => if event == Event::Ready(true) {
                self.at(Stage::OverdriveReady)
            } else {
                self
            },
            Stage::OverdriveReady => self,
            Stage::Halted(_) => self,
        }
    }

    /// The state after each of `events`, in turn, has answered the command
    /// that was pending when it came.
    pub open spec fn run(self, events: Seq<Event>) -> SequencerState
        decreases events.len(),
    {
        if events.len() == 0 {
            self
        } else {
            self.run(events.drop_last()).advance(events.last())
        }
    }

    /// What holds of every state that a commit passes through: the supply
    /// is written and read back only for a strategy that writes, overdrive
    /// is entered only where it was asked for, and a halt carries the fault
    /// that its strategy raises on what was read.
    pub open spec fn wf(self) -> bool {
        &&& self.stage is SupplyPending || self.stage is SupplyWritten ==> self.supply
            != SupplyConfiguration::Default
        &&& self.stage is SyscfgEnabled || self.stage is OverdriveRequested
            || self.stage is OverdriveReady ==> self.overdrive
        &&& self.stage matches Stage::Halted(fault) ==> self.supply.fault_on(fault.observed)
            == Some(fault)
    }
}

/// A commit in progress. It is made by freezing a selector and by nothing
/// else, and each step consumes it.
#[derive(Debug)]
pub struct Sequencer {
    supply: SupplyConfiguration,
    overdrive: bool,
    stage: Stage,
}

impl View for Sequencer {
    type V = SequencerState;

    closed spec fn view(&self) -> SequencerState {
        SequencerState { supply: self.supply, overdrive: self.overdrive, stage: self.stage }
    }
}

impl Sequencer {
    /// Every sequencer is in a state that a commit passes through.
    #[verifier::type_invariant]
    closed spec fn inv(&self) -> bool {
        self@.wf()
    }

    /// Begins the commit of `supply`, with or without overdrive.
    pub(crate) fn begin(supply: SupplyConfiguration, overdrive: bool) -> (seq: Sequencer)
        ensures
            seq@ == SequencerState::start(supply, overdrive),
    {
        let stage = match supply {
            SupplyConfiguration::Default => Stage::PostReset,
            _ => Stage::SupplyPending,
        };
        Sequencer { supply, overdrive, stage }
    }

    /// The strategy being committed.
    pub fn supply_configuration(&self) -> (supply: SupplyConfiguration)
        ensures
            supply == self@.supply,
    {
        self.supply
    }

    /// Whether overdrive was asked for.
    pub fn overdrive(&self) -> (overdrive: bool)
        ensures
            overdrive == self@.overdrive,
    {
        self.overdrive
    }

    /// How far the commit has come.
    pub fn stage(&self) -> (stage: Stage)
        ensures
            stage == self@.stage,
            self@.wf(),
    {
        proof {
            use_type_invariant(self);
        }
        self.stage
    }

    /// The operation that is due: carry it out, then call `advance` with
    /// what came of it. Where nothing is left to do, the command names the
    /// scale that was asked for: scale 0 with overdrive, scale 1 without.
    pub fn command(&self) -> (command: Command)
        ensures
            command == self@.command(),
            self@.wf(),
            command matches Command::Finish(scale) ==> scale == self@.outcome(),
            command is Halt <==> self@.stage is Halted,
    {
        proof {
            use_type_invariant(self);
        }
        match self.stage {
            Stage::SupplyPending => Command::WriteSupply(self.supply.pattern()),
            Stage::SupplyWritten => Command::ReadSupply,
            Stage::PostReset => Command::PollDomainReady,
            Stage::DomainReady => Command::RequestScale(VOS_SCALE1),
            Stage::ScaleRequested => Command::PollScaleReady,
            Stage::ScaleReady => {
                if self.overdrive {
                    Command::EnableSyscfgClock
                } else {
                    Command::Finish(VoltageScale::Scale1)
                }
            },
            Stage::SyscfgEnabled => Command::EnableOverdrive,
            Stage::OverdriveRequested => Command::PollScaleReady,
            Stage::OverdriveReady => Command::Finish(VoltageScale::Scale0),
            Stage::Halted(fault) => Command::Halt(fault),
        }
    }

    /// Takes the answer to the pending command and moves on, or stays.
    pub fn advance(self, event: Event) -> (next: Sequencer)
        ensures
            next@ == self@.advance(event),
    {
        proof {
            use_type_invariant(&self);
        }
        let stage = match self.stage {
            Stage::SupplyPending => Stage::SupplyWritten,
            Stage::SupplyWritten => match event {
                Event::Supply(observed) => match self.supply.verify(observed) {
                    Err(fault) => Stage::Halted(fault),
                    Ok(_) => Stage::PostReset,
                },
                _ => Stage::SupplyWritten,
            },
            Stage::PostReset => match event {
                Event::Ready(true) => Stage::DomainReady,
                _ => Stage::PostReset,
            },
            Stage::DomainReady => Stage::ScaleRequested,
            Stage::ScaleRequested => match event {
                Event::Ready(true) => Stage::ScaleReady,
                _ => Stage::ScaleRequested,
            },
            Stage::ScaleReady => {
                if self.overdrive {
                    Stage::SyscfgEnabled
                } else {
                    Stage::ScaleReady
                }
            },
            Stage::SyscfgEnabled => Stage::OverdriveRequested,
            Stage::OverdriveRequested => match event {
                Event::Ready(true) => Stage::OverdriveReady,
                _ => Stage::OverdriveRequested,
            },
            Stage::OverdriveReady => Stage::OverdriveReady,
            Stage::Halted(fault) => Stage::Halted(fault),
        };
        Sequencer { supply: self.supply, overdrive: self.overdrive, stage }
    }

    /// Feeds a recorded sequence of events to the sequencer, each as the
    /// answer to the command that is pending when its turn comes.
    pub fn run(self, events: &Vec<Event>) -> (end: Sequencer)
        ensures
            end@ == self@.run(events@),
    {
        let ghost start = self@;
        let mut seq = self;
        let mut i: usize = 0;
        while i < events.len()
            invariant
                i <= events.len(),
                seq@ == start.run(events@.take(i as int)),
            decreases events.len() - i,
        {
            proof {
                assert(events@.take(i + 1).drop_last() =~= events@.take(i as int));
            }
            seq = seq.advance(events[i]);
            i += 1;
        }
        proof {
            assert(events@.take(events.len() as int) =~= events@);
        }
        seq
    }
}

} // verus!
