//! What holds of a commit whatever the unit answers.
//!
//! The unit is not in this crate, so nothing here assumes how it behaves.
//! Every statement is about a state of the sequencer and a sequence of
//! events, and holds for all of them, unless it says which answers it is
//! about.

use vstd::prelude::*;
use crate::pwr::VoltageScale;
use crate::sequencer::{Command, Event, SequencerState, Stage};
use crate::supply::{Cr3, SupplyConfiguration};

verus! {

/// The answers of a unit that takes every write and has every flag set by
/// the time it is polled, to a commit of `supply`, where control register 3
/// held `before`.
pub open spec fn willing_answers(
    supply: SupplyConfiguration,
    overdrive: bool,
    before: Cr3,
) -> Seq<Event> {
    let settle = if supply == SupplyConfiguration::Default {
        Seq::<Event>::empty()
    } else {
        seq![Event::Done, Event::Supply(supply.spec_pattern().written_over(before))]
    };
    let scale = seq![Event::Ready(true), Event::Done, Event::Ready(true)];
    let boost = if overdrive {
        seq![Event::Done, Event::Done, Event::Ready(true)]
    } else {
        Seq::<Event>::empty()
    };
    settle + scale + boost
}

/// A commit begins in a well-formed state.
pub proof fn start_is_well_formed(supply: SupplyConfiguration, overdrive: bool)
    ensures
        SequencerState::start(supply, overdrive).wf(),
        SequencerState::start(supply, overdrive).supply == supply,
        SequencerState::start(supply, overdrive).overdrive == overdrive,
        !SequencerState::start(supply, overdrive).finished(),
{
}

/// A step keeps a well-formed state well-formed.
pub proof fn advance_keeps_well_formed(s: SequencerState, event: Event)
    requires
        s.wf(),
    ensures
        s.advance(event).wf(),
{
}

/// A step goes forward by one stage or stays. It never goes back, it skips
/// nothing, and it leaves the selection alone. The one step that leaves the
/// line is the halt on a read-back.
pub proof fn advance_is_one_step_forward(s: SequencerState, event: Event)
    ensures
        s.advance(event).supply == s.supply,
        s.advance(event).overdrive == s.overdrive,
        s.stage.rank() <= s.advance(event).stage.rank() <= s.stage.rank() + 1,
        s.advance(event).stage.rank() == s.stage.rank() ==> s.advance(event) == s || (s.stage
            is SupplyWritten && s.advance(event).stage is Halted),
        s.advance(event).stage is Halted ==> s.stage is Halted || s.stage is SupplyWritten,
{
}

/// One more event at the end of a sequence is one more step at the end of
/// the run.
pub proof fn run_push(s: SequencerState, events: Seq<Event>, event: Event)
    ensures
        s.run(events.push(event)) == s.run(events).advance(event),
{
    assert(events.push(event).drop_last() =~= events);
}

/// A run over two sequences, one after the other, is a run over the first
/// followed by a run over the second.
pub proof fn run_splits(s: SequencerState, first: Seq<Event>, second: Seq<Event>)
    ensures
        s.run(first + second) == s.run(first).run(second),
    decreases second.len(),
{
    if second.len() == 0 {
        assert(first + second =~= first);
    } else {
        run_splits(s, first, second.drop_last());
        assert((first + second).drop_last() =~= first + second.drop_last());
    }
}

/// A run keeps a well-formed state well-formed.
pub proof fn run_keeps_well_formed(s: SequencerState, events: Seq<Event>)
    requires
        s.wf(),
    ensures
        s.run(events).wf(),
    decreases events.len(),
{
    if events.len() > 0 {
        run_keeps_well_formed(s, events.drop_last());
        advance_keeps_well_formed(s.run(events.drop_last()), events.last());
    }
}

/// A run never goes back and leaves the selection alone.
pub proof fn run_never_goes_back(s: SequencerState, events: Seq<Event>)
    ensures
        s.run(events).supply == s.supply,
        s.run(events).overdrive == s.overdrive,
        s.stage.rank() <= s.run(events).stage.rank(),
        s.run(events).stage is Halted ==> s.stage.rank() <= 1,
    decreases events.len(),
{
    if events.len() > 0 {
        run_never_goes_back(s, events.drop_last());
        advance_is_one_step_forward(s.run(events.drop_last()), events.last());
    }
}

/// The end is the end: once a commit has finished or halted, no event
/// changes its state.
pub proof fn finished_is_final(s: SequencerState, events: Seq<Event>)
    requires
        s.finished(),
    ensures
        s.run(events) == s,
    decreases events.len(),
{
    if events.len() > 0 {
        finished_is_final(s, events.drop_last());
    }
}

/// A poll waits: while no event says that the flag is set, the sequencer
/// stays at the poll and commands it again.
pub proof fn poll_waits_for_ready(s: SequencerState, events: Seq<Event>)
    requires
        s.stage.polls(),
        forall|i: int| 0 <= i < events.len() ==> events[i] != Event::Ready(true),
    ensures
        s.run(events) == s,
    decreases events.len(),
{
    if events.len() > 0 {
        poll_waits_for_ready(s, events.drop_last());
    }
}

/// No flag is taken for granted: a run that gets past a poll holds an event
/// that said the flag was set, and that event came while the sequencer was
/// at that poll. So scale 1 is not requested before the active scale was
/// seen ready, overdrive is not entered before scale 1 was seen ready, and
/// the commit does not end in overdrive before overdrive was seen ready.
pub proof fn ready_seen_before_moving_on(s: SequencerState, events: Seq<Event>, poll: Stage)
    requires
        poll.polls(),
        s.stage.rank() <= poll.rank(),
        s.run(events).stage.rank() > poll.rank(),
    ensures
        exists|i: int|
            0 <= i < events.len() && (#[trigger] s.run(events.take(i))).stage == poll && events[i]
                == Event::Ready(true),
    decreases events.len(),
{
    if events.len() > 0 {
        let before = events.drop_last();
        let prev = s.run(before);
        if prev.stage.rank() > poll.rank() {
            ready_seen_before_moving_on(s, before, poll);
            let i = choose|i: int|
                0 <= i < before.len() && (#[trigger] s.run(before.take(i))).stage == poll
                    && before[i] == Event::Ready(true);
            assert(events.take(i) =~= before.take(i));
        } else {
            advance_is_one_step_forward(prev, events.last());
            let i = events.len() - 1;
            assert(events.take(i) =~= before);
            assert(s.run(events.take(i)).stage == poll);
        }
    }
}

/// Each write is commanded once: when an event has answered a command that
/// changes the unit, no later event of the run meets that command again.
pub proof fn each_write_is_commanded_once(
    s: SequencerState,
    events: Seq<Event>,
    i: int,
    j: int,
)
    requires
        0 <= i < j <= events.len(),
        s.run(events.take(i)).writes(),
    ensures
        s.run(events.take(i)).stage.rank() < s.run(events.take(j)).stage.rank(),
        s.run(events.take(i)).stage != s.run(events.take(j)).stage,
{
    let at_i = s.run(events.take(i));
    let after_i = s.run(events.take(i + 1));
    assert(after_i == at_i.advance(events[i])) by {
        assert(events.take(i + 1) =~= events.take(i).push(events[i]));
        run_push(s, events.take(i), events[i]);
    }
    let rest = events.subrange(i + 1, j);
    assert(s.run(events.take(j)) == after_i.run(rest)) by {
        assert(events.take(j) =~= events.take(i + 1) + rest);
        run_splits(s, events.take(i + 1), rest);
    }
    run_never_goes_back(after_i, rest);
}

/// A commit ends at the scale that was asked for: with overdrive at scale
/// 0, without it at scale 1, and at no other.
pub proof fn finish_names_the_requested_scale(
    supply: SupplyConfiguration,
    overdrive: bool,
    events: Seq<Event>,
)
    ensures
        SequencerState::start(supply, overdrive).run(events).command() matches Command::Finish(
            scale,
        ) ==> scale == if overdrive {
            VoltageScale::Scale0
        } else {
            VoltageScale::Scale1
        },
{
    let start = SequencerState::start(supply, overdrive);
    run_keeps_well_formed(start, events);
    run_never_goes_back(start, events);
}

/// The strategy `Default` is neither written nor verified: wherever its
/// commit stands, the pending command is no write of the supply fields, no
/// read-back of them and no halt.
pub proof fn default_is_neither_written_nor_verified(overdrive: bool, events: Seq<Event>)
    ensures
        ({
            let end = SequencerState::start(SupplyConfiguration::Default, overdrive).run(events);
            &&& !(end.stage is SupplyPending)
            &&& !(end.stage is SupplyWritten)
            &&& !(end.stage is Halted)
            &&& !(end.command() is WriteSupply)
            &&& !(end.command() is ReadSupply)
            &&& !(end.command() is Halt)
        }),
{
    let start = SequencerState::start(SupplyConfiguration::Default, overdrive);
    run_keeps_well_formed(start, events);
    run_never_goes_back(start, events);
}

/// A read-back that contradicts the request halts the commit for good: the
/// pending command is the halt, with the strategy, the read-back and the
/// first field that differs, and no later event moves the sequencer on.
pub proof fn contradicting_read_back_halts(
    s: SequencerState,
    observed: Cr3,
    later: Seq<Event>,
)
    requires
        s.stage is SupplyWritten,
        !s.supply.spec_pattern().holds_in(observed),
    ensures
        s.supply.fault_on(observed) is Some,
        s.advance(Event::Supply(observed)).stage == Stage::Halted(s.supply.fault_on(observed)->0),
        s.advance(Event::Supply(observed)).run(later).command() == Command::Halt(
            s.supply.fault_on(observed)->0,
        ),
{
    finished_is_final(s.advance(Event::Supply(observed)), later);
}

/// A read-back that agrees with the request lets the commit go on to the
/// first poll.
pub proof fn agreeing_read_back_settles(s: SequencerState, observed: Cr3)
    requires
        s.stage is SupplyWritten,
        s.supply.spec_pattern().holds_in(observed),
    ensures
        s.advance(Event::Supply(observed)) == s.at(Stage::PostReset),
{
}

/// A second commit in one power cycle is caught: where the register is
/// locked at the pattern of one strategy and another one is requested, the
/// write changes nothing, the read-back shows the locked value, and the
/// commit halts.
pub proof fn locked_register_halts_another_request(
    held: SupplyConfiguration,
    requested: SupplyConfiguration,
    overdrive: bool,
    locked: Cr3,
    later: Seq<Event>,
)
    requires
        held != SupplyConfiguration::Default,
        requested != SupplyConfiguration::Default,
        held != requested,
        held.spec_pattern().holds_in(locked),
    ensures
        SequencerState::start(requested, overdrive).advance(Event::Done).advance(
            Event::Supply(locked),
        ).run(later).command() is Halt,
{
    let read_back = SequencerState::start(requested, overdrive).advance(Event::Done);
    contradicting_read_back_halts(read_back, locked, later);
}

/// With a willing unit every commit runs to its end: it finishes, at the
/// scale that was asked for, and the register reads as the strategy pins it.
pub proof fn willing_unit_completes(supply: SupplyConfiguration, overdrive: bool, before: Cr3)
    ensures
        SequencerState::start(supply, overdrive).run(willing_answers(supply, overdrive, before))
            == SequencerState::start(supply, overdrive).at(
            if overdrive {
                Stage::OverdriveReady
            } else {
                Stage::ScaleReady
            },
        ),
        SequencerState::start(supply, overdrive).run(
            willing_answers(supply, overdrive, before),
        ).command() == Command::Finish(
            if overdrive {
                VoltageScale::Scale0
            } else {
                VoltageScale::Scale1
            },
        ),
        supply.spec_pattern().holds_in(supply.spec_pattern().written_over(before)),
{
    let start = SequencerState::start(supply, overdrive);
    let read = Event::Supply(supply.spec_pattern().written_over(before));
    let settle = if supply == SupplyConfiguration::Default {
        Seq::<Event>::empty()
    } else {
        seq![Event::Done, read]
    };
    let scale = seq![Event::Ready(true), Event::Done, Event::Ready(true)];
    let boost = if overdrive {
        seq![Event::Done, Event::Done, Event::Ready(true)]
    } else {
        Seq::<Event>::empty()
    };
    let settled = start.run(settle);
    assert(settled == start.at(Stage::PostReset)) by {
        if supply != SupplyConfiguration::Default {
            assert(settle =~= Seq::<Event>::empty().push(Event::Done).push(read));
            run_push(start, Seq::<Event>::empty(), Event::Done);
            run_push(start, Seq::<Event>::empty().push(Event::Done), read);
        }
    }
    let scaled = settled.run(scale);
    assert(scaled == start.at(Stage::ScaleReady)) by {
        let e = Seq::<Event>::empty();
        assert(scale =~= e.push(Event::Ready(true)).push(Event::Done).push(Event::Ready(true)));
        run_push(settled, e, Event::Ready(true));
        run_push(settled, e.push(Event::Ready(true)), Event::Done);
        run_push(settled, e.push(Event::Ready(true)).push(Event::Done), Event::Ready(true));
    }
    let boosted = scaled.run(boost);
    assert(boosted == start.at(
        if overdrive {
            Stage::OverdriveReady
        } else {
            Stage::ScaleReady
        },
    )) by {
        if overdrive {
            let e = Seq::<Event>::empty();
            assert(boost =~= e.push(Event::Done).push(Event::Done).push(Event::Ready(true)));
            run_push(scaled, e, Event::Done);
            run_push(scaled, e.push(Event::Done), Event::Done);
            run_push(scaled, e.push(Event::Done).push(Event::Done), Event::Ready(true));
        }
    }
    run_splits(start, settle, scale);
    run_splits(start, settle + scale, boost);
}

} // verus!
