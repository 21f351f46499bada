//! The worker: it owns the universe, takes commands, advances the universe
//! when the flow allows it and publishes a copy after every advance.

use std::sync::mpsc::{Receiver, Sender};
use vstd::prelude::*;
use crate::body::{Advance, Object};
use crate::channel::{offer, poll, Polled};
use crate::clock::{elapsed, precise_time_ns, NANOS_PER_MILLI};
use crate::coloruniverse::{ColorUniverse, UniverseState};
use crate::flow::{
    acknowledgements_add_up, acknowledgements_buy_advances, least, lookahead_is_bounded,
    ticks_from_second, Flow, MAX_CREDITS,
};

verus! {

/// How many snapshots the worker may be ahead of its consumer, unless it is
/// made with another limit.
pub const UNIVERSE_CACHE_LIMIT: usize = 10;

/// The time of one step of the integrator that a new worker uses: 3000, as
/// a double's bit pattern.
pub const DEFAULT_STEP_TIME: u64 = 0x40A7_7000_0000_0000;

/// The steps per advance that a new worker uses.
pub const DEFAULT_ITERATIONS: usize = 100;

/// The length of one tick of a new worker, in nanoseconds: a sixtieth of a
/// second.
pub const DEFAULT_FPS_UPDATE_TIME: u64 = 16_666_666;

/// How many commands one tick takes at most.  The bound is there so that a
/// tick ends even if commands arrive faster than they are handled.
pub const COMMANDS_PER_TICK: usize = usize::MAX;

/// How one round of work ended.
#[derive(Debug, PartialEq, Eq)]
pub enum IterationResult {
    /// Go on with the next round.
    Continue,
    /// The other side is gone; stop, nothing is wrong.
    Finished,
    /// Something failed; stop and report the text.
    Error(String),
}

/// How far and how finely the integrator moves the bodies in one advance.
#[derive(Debug, Clone, Copy, PartialEq, Eq, Structural)]
pub struct UpdateSettings {
    /// The time of one step, a double's bit pattern.
    pub time: u64,
    /// The number of steps in one advance.
    pub iterations: usize,
}

impl UpdateSettings {
    pub fn new(time: u64, iterations: usize) -> (settings: UpdateSettings)
        ensures
            settings == (UpdateSettings { time, iterations }),
    {
        UpdateSettings { time, iterations }
    }

    /// The time of one step, a double's bit pattern.
    pub fn time(&self) -> (time: u64)
        ensures
            time == self.time,
    {
        self.time
    }

    /// The number of steps in one advance.
    pub fn iterations(&self) -> (iterations: usize)
        ensures
            iterations == self.iterations,
    {
        self.iterations
    }
}

impl Default for UpdateSettings {
    fn default() -> (settings: UpdateSettings)
        ensures
            settings == (UpdateSettings { time: DEFAULT_STEP_TIME, iterations: DEFAULT_ITERATIONS }),
    {
        UpdateSettings { time: DEFAULT_STEP_TIME, iterations: DEFAULT_ITERATIONS }
    }
}

/// What the consumer can tell the worker.
#[derive(Debug)]
pub enum UpdaterCommand {
    /// Use these settings from the next advance on.
    UpdateSettings(UpdateSettings),
    /// Stop advancing.
    Pause,
    /// Advance again, with an empty window and no credit.
    Unpause,
    /// Let a tick last this many nanoseconds.
    SetFpsUpdateTime(u64),
    /// Go on from this universe.  Window and credit stay as they are.
    SetUniverse(ColorUniverse),
    /// One snapshot has been taken out of the queue.
    UniverseConsumed,
}

/// Everything the worker's decisions depend on, as plain mathematics.
pub struct UpdaterState {
    pub flow: Flow,
    /// The lookahead limit.
    pub limit: nat,
    pub settings: UpdateSettings,
    /// The length of a tick, in nanoseconds.
    pub fps_update_time: u64,
    pub universe: UniverseState,
}

impl UpdaterState {
    /// The state of a worker that has just been made for `universe`.
    pub open spec fn initial(universe: UniverseState, limit: nat) -> UpdaterState {
        UpdaterState {
            flow: Flow::start(),
            limit,
            settings: UpdateSettings { time: DEFAULT_STEP_TIME, iterations: DEFAULT_ITERATIONS },
            fps_update_time: DEFAULT_FPS_UPDATE_TIME,
            universe,
        }
    }

    /// The state after `command` has been handled.
    pub open spec fn handle(self, command: UpdaterCommand) -> UpdaterState {
        match command {
            UpdaterCommand::UpdateSettings(settings) => UpdaterState { settings, ..self },
            UpdaterCommand::Pause => UpdaterState { flow: self.flow.halted(), ..self },
            UpdaterCommand::Unpause => UpdaterState { flow: self.flow.resumed(), ..self },
            UpdaterCommand::SetFpsUpdateTime(fps_update_time) => UpdaterState {
                fps_update_time,
                ..self
            },
            UpdaterCommand::SetUniverse(universe) => UpdaterState { universe: universe@, ..self },
            UpdaterCommand::UniverseConsumed => UpdaterState {
                flow: self.flow.acknowledged(),
                ..self
            },
        }
    }

    /// The state after `commands` have been handled, the first first.
    pub open spec fn handle_all(self, commands: Seq<UpdaterCommand>) -> UpdaterState
        decreases commands.len(),
    {
        if commands.len() == 0 {
            self
        } else {
            self.handle_all(commands.drop_last()).handle(commands.last())
        }
    }

    /// What the integrator is asked for if it is asked now: the time of a
    /// step and the number of steps.
    pub open spec fn request(self) -> (u64, usize) {
        (self.settings.time, self.settings.iterations)
    }

    /// Whether the worker advances in this tick.
    pub open spec fn may_advance(self) -> bool {
        self.flow.may_advance(self.limit)
    }

    /// The state after the integrator's report has been taken over.
    pub open spec fn advanced(self, advance: Advance) -> UpdaterState {
        UpdaterState {
            universe: self.universe.advanced(advance.removed@, advance.objects@),
            ..self
        }
    }

    /// The state after a snapshot has been published.
    pub open spec fn published(self) -> UpdaterState {
        UpdaterState { flow: self.flow.published(self.limit), ..self }
    }

    /// Whether a tick that began in `self`, in which `commands` arrived and
    /// the integrator, if it was asked, reported `report`, can have ended
    /// with `result` in the state `after`.
    ///
    /// All commands are handled before anything else happens.  Then, if
    /// the flow allows it, the integrator is asked once and its report
    /// taken over, a snapshot is published and the flow is charged for it.
    /// `Finished` says that the snapshot was not taken, `Error` that the
    /// command queue broke or that the report did not fit the universe.
    pub open spec fn tick_ends(
        self,
        commands: Seq<UpdaterCommand>,
        report: Option<Advance>,
        result: IterationResult,
        after: UpdaterState,
    ) -> bool {
        let drained = self.handle_all(commands);
        match result {
            IterationResult::Error(_) => {
                &&& after == drained
                &&& report matches Some(advance) ==> drained.may_advance() && !drained.universe.fits(
                    advance.removed@,
                    advance.objects@,
                )
            },
            IterationResult::Finished => {
                &&& drained.may_advance()
                &&& report matches Some(advance)
                &&& drained.universe.fits(advance.removed@, advance.objects@)
                &&& after == drained.advanced(advance)
            },
            IterationResult::Continue => if drained.may_advance() {
                &&& report matches Some(advance)
                &&& drained.universe.fits(advance.removed@, advance.objects@)
                &&& after == drained.advanced(advance).published()
            } else {
                &&& report is None
                &&& after == drained
            },
        }
    }
}

/// The command `count` times over that a snapshot was taken.
pub open spec fn acknowledgements(count: nat) -> Seq<UpdaterCommand> {
    Seq::new(count, |i: int| UpdaterCommand::UniverseConsumed)
}

/// Acknowledgements change the credit and nothing else.
pub proof fn acknowledgements_are_counted(state: UpdaterState, count: nat)
    ensures
        state.handle_all(acknowledgements(count)) == (UpdaterState {
            flow: state.flow.acknowledged_times(count),
            ..state
        }),
    decreases count,
{
    if count > 0 {
        acknowledgements_are_counted(state, (count - 1) as nat);
        assert(acknowledgements(count).drop_last() =~= acknowledgements((count - 1) as nat));
    }
}

/// New settings count from the very next advance on and touch nothing
/// else.
///
/// Once the command is handled the integrator is asked with the new time
/// and number of steps.  Window, credit and universe are as they were, so
/// no snapshot is published again and none is lost.
pub proof fn settings_take_effect(state: UpdaterState, settings: UpdateSettings)
    ensures
        state.handle(UpdaterCommand::UpdateSettings(settings)).request() == (
            settings.time,
            settings.iterations,
        ),
        state.handle(UpdaterCommand::UpdateSettings(settings)) == (UpdaterState {
            settings,
            ..state
        }),
        state.handle(UpdaterCommand::UpdateSettings(settings)).may_advance()
            == state.may_advance(),
{
}

/// Pause and then unpause leaves a running worker with an empty window
/// and no credit, whatever the counters were.
pub proof fn pause_then_unpause_resets(state: UpdaterState)
    ensures
        !state.handle(UpdaterCommand::Pause).may_advance(),
        state.handle(UpdaterCommand::Pause).handle(UpdaterCommand::Unpause).flow == Flow::start(),
        state.handle(UpdaterCommand::Pause).handle(UpdaterCommand::Unpause) == (UpdaterState {
            flow: Flow::start(),
            ..state
        }),
{
}

/// A tick that ends well follows the flow.
///
/// If `Continue` comes back, the commands that arrived were handled, the
/// integrator was asked exactly if the flow then allowed an advance, and
/// the flow afterwards is the flow after one tick.
pub proof fn tick_follows_flow(
    before: UpdaterState,
    commands: Seq<UpdaterCommand>,
    report: Option<Advance>,
    after: UpdaterState,
)
    requires
        before.tick_ends(commands, report, IterationResult::Continue, after),
    ensures
        report is Some <==> before.handle_all(commands).may_advance(),
        after.flow == before.handle_all(commands).flow.tick(before.handle_all(commands).limit),
        after.settings == before.handle_all(commands).settings,
        after.limit == before.handle_all(commands).limit,
{
}

/// Whether `states`, `batches` and `reports` describe ticks that followed
/// one another and all ended with `Continue`: tick `i` began in
/// `states[i]`, handled the commands `batches[i]`, got the report
/// `reports[i]` if it asked the integrator, and ended in `states[i + 1]`.
pub open spec fn run_of_ticks(
    states: Seq<UpdaterState>,
    batches: Seq<Seq<UpdaterCommand>>,
    reports: Seq<Option<Advance>>,
) -> bool {
    &&& states.len() == reports.len() + 1
    &&& batches.len() == reports.len()
    &&& forall|i: int|
        0 <= i < reports.len() ==> states[i].tick_ends(
            batches[i],
            #[trigger] reports[i],
            IterationResult::Continue,
            states[i + 1],
        )
}

/// In how many of the ticks the integrator was asked, which is the number
/// of snapshots published.
pub open spec fn advances(reports: Seq<Option<Advance>>) -> nat
    decreases reports.len(),
{
    if reports.len() == 0 {
        0
    } else if reports.last() is Some {
        advances(reports.drop_last()) + 1
    } else {
        advances(reports.drop_last())
    }
}

/// The advances of a run are those of its first tick and those of the
/// rest.
pub proof fn advances_from_second(reports: Seq<Option<Advance>>)
    requires
        reports.len() > 0,
    ensures
        advances(reports) == advances(reports.skip(1)) + (if reports[0] is Some {
            1nat
        } else {
            0nat
        }),
    decreases reports.len(),
{
    if reports.len() == 1 {
        assert(reports.drop_last() =~= Seq::<Option<Advance>>::empty());
        assert(reports.skip(1) =~= Seq::<Option<Advance>>::empty());
    } else {
        advances_from_second(reports.drop_last());
        assert(reports.drop_last().skip(1) =~= reports.skip(1).drop_last());
    }
}

/// Ticks in which no command arrives follow the flow.
///
/// After such a run the flow is the flow after as many ticks, the limit is
/// the same, and as many snapshots were published as the flow says.
pub proof fn quiet_run_follows_flow(
    states: Seq<UpdaterState>,
    batches: Seq<Seq<UpdaterCommand>>,
    reports: Seq<Option<Advance>>,
)
    requires
        run_of_ticks(states, batches, reports),
        forall|i: int| 0 <= i < batches.len() ==> (#[trigger] batches[i]).len() == 0,
    ensures
        states.last().limit == states[0].limit,
        states.last().flow == states[0].flow.ticks(states[0].limit, reports.len()),
        advances(reports) == states[0].flow.snapshots(states[0].limit, reports.len()),
    decreases reports.len(),
{
    if reports.len() > 0 {
        let count = reports.len() as int;
        let earlier = states.drop_last();
        assert forall|i: int| 0 <= i < count - 1 implies earlier[i].tick_ends(
            batches.drop_last()[i],
            #[trigger] reports.drop_last()[i],
            IterationResult::Continue,
            earlier[i + 1],
        ) by {
            assert(states[i].tick_ends(
                batches[i],
                reports[i],
                IterationResult::Continue,
                states[i + 1],
            ));
        }
        quiet_run_follows_flow(earlier, batches.drop_last(), reports.drop_last());
        assert(states[count - 1].tick_ends(
            batches[count - 1],
            reports[count - 1],
            IterationResult::Continue,
            states[count],
        ));
        assert(batches[count - 1].len() == 0);
    }
}

/// Left alone, a fresh worker publishes up to its limit and then stops.
///
/// In a run of ticks that starts with an empty window and no credit, in
/// which no command arrives, exactly `min(ticks, limit)` snapshots are
/// published, and the window holds as many.
pub proof fn fresh_worker_publishes_up_to_limit(
    states: Seq<UpdaterState>,
    batches: Seq<Seq<UpdaterCommand>>,
    reports: Seq<Option<Advance>>,
)
    requires
        run_of_ticks(states, batches, reports),
        forall|i: int| 0 <= i < batches.len() ==> (#[trigger] batches[i]).len() == 0,
        states[0].flow == Flow::start(),
    ensures
        advances(reports) == least(reports.len() as int, states[0].limit as int),
        states.last().flow.cache_fill == least(reports.len() as int, states[0].limit as int),
        reports.len() >= states[0].limit ==> !states.last().may_advance(),
{
    quiet_run_follows_flow(states, batches, reports);
    lookahead_is_bounded(states[0].limit, reports.len());
}

/// After the window has filled, `acks` acknowledgements allow exactly
/// `acks` more snapshots.
///
/// In a run of ticks that starts with a full window and no credit, whose
/// first tick receives `acks` acknowledgements and in which no other
/// command arrives, exactly `min(ticks, acks)` snapshots are published.
pub proof fn acknowledged_worker_publishes_as_paid(
    states: Seq<UpdaterState>,
    batches: Seq<Seq<UpdaterCommand>>,
    reports: Seq<Option<Advance>>,
    acks: nat,
)
    requires
        run_of_ticks(states, batches, reports),
        reports.len() > 0,
        acks <= MAX_CREDITS,
        states[0].flow == (Flow {
            paused: false,
            cache_fill: states[0].limit,
            consumption_count: 0,
        }),
        batches[0] == acknowledgements(acks),
        forall|i: int| 1 <= i < batches.len() ==> (#[trigger] batches[i]).len() == 0,
    ensures
        advances(reports) == least(reports.len() as int, acks as int),
        states.last().flow.cache_fill == states[0].limit,
        reports.len() >= acks ==> !states.last().may_advance(),
{
    let limit = states[0].limit;
    let count = reports.len();
    let paid = states[0].flow.acknowledged_times(acks);
    acknowledgements_are_counted(states[0], acks);
    assert(states[0].tick_ends(batches[0], reports[0], IterationResult::Continue, states[1]));
    let later = states.skip(1);
    assert forall|i: int| 0 <= i < count - 1 implies later[i].tick_ends(
        batches.skip(1)[i],
        #[trigger] reports.skip(1)[i],
        IterationResult::Continue,
        later[i + 1],
    ) by {
        assert(states[i + 1].tick_ends(
            batches[i + 1],
            reports[i + 1],
            IterationResult::Continue,
            states[i + 2],
        ));
    }
    assert forall|i: int| 0 <= i < batches.skip(1).len() implies (#[trigger] batches.skip(
        1,
    )[i]).len() == 0 by {
        assert(batches[i + 1].len() == 0);
    }
    quiet_run_follows_flow(later, batches.skip(1), reports.skip(1));
    advances_from_second(reports);
    ticks_from_second(paid, limit, count);
    acknowledgements_buy_advances(limit, acks, count);
    assert(later.last() == states.last());
}

/// What draining the command queue makes of one look into it.
#[derive(Debug, PartialEq, Eq)]
pub enum Drained {
    /// A command was handled; look again.
    Again,
    /// Nothing waits any more.
    Emptied,
    /// The queue is closed; the text says why.
    Broken(String),
}

/// What draining the command queue makes of the look that found `polled`.
pub open spec fn spec_drained(polled: Polled<UpdaterCommand>) -> Drained {
    match polled {
        Polled::Item(_) => Drained::Again,
        Polled::Empty => Drained::Emptied,
        Polled::Closed(reason) => Drained::Broken(reason),
    }
}

/// Whether `looks` can be the looks into the command queue of one tick,
/// one after the other: every look but the last found a command, and the
/// last found the queue empty or closed, or was look number
/// `COMMANDS_PER_TICK`.
pub open spec fn drained_by(looks: Seq<Polled<UpdaterCommand>>) -> bool {
    &&& 0 < looks.len() <= COMMANDS_PER_TICK
    &&& forall|i: int| 0 <= i < looks.len() - 1 ==> spec_drained(#[trigger] looks[i]) is Again
    &&& spec_drained(looks.last()) is Again ==> looks.len() == COMMANDS_PER_TICK
}

/// The commands that `looks` found, in their order.
pub open spec fn commands_of(looks: Seq<Polled<UpdaterCommand>>) -> Seq<UpdaterCommand>
    decreases looks.len(),
{
    if looks.len() == 0 {
        Seq::empty()
    } else {
        match looks.last() {
            Polled::Item(command) => commands_of(looks.drop_last()).push(command),
            _ => commands_of(looks.drop_last()),
        }
    }
}

/// What is reported when the integrator's report cannot belong to the
/// universe it was asked about.
pub open spec fn misfit() -> Seq<char> {
    "the integrator's report does not fit the universe"@
}

/// Whether `result` reports that the integrator's report did not fit.
pub open spec fn reports_misfit(result: IterationResult) -> bool {
    result matches IterationResult::Error(text) && text@ == misfit()
}

impl UpdaterState {
    /// The state after a look into the command queue that found `polled`:
    /// a command is handled, anything else changes nothing.
    pub open spec fn taking(self, polled: Polled<UpdaterCommand>) -> UpdaterState {
        match polled {
            Polled::Item(command) => self.handle(command),
            _ => self,
        }
    }

    /// Whether a tick that began in `self` ends with `result` in the state
    /// `after`, given everything that came from outside during it: the
    /// looks `looks` into the command queue, the report `report` of the
    /// integrator if it was asked, and whether the snapshot queue took the
    /// snapshot, `taken`.
    ///
    /// The commands found are handled in their order.  A closed command
    /// queue ends the tick with the queue's own text as the error; nothing
    /// is advanced then.  Else, if the flow does not allow an advance, the
    /// tick ends well and nothing more has changed.  Else the integrator
    /// is asked once.  A report that does not fit is an error and leaves
    /// the universe alone.  A report that fits is taken over and a
    /// snapshot is offered: if it is taken the flow is charged and the
    /// tick ends well; if not, the flow is not charged and the worker has
    /// finished.
    pub open spec fn tick_outcome(
        self,
        looks: Seq<Polled<UpdaterCommand>>,
        report: Option<Advance>,
        taken: bool,
        result: IterationResult,
        after: UpdaterState,
    ) -> bool {
        let drained = self.handle_all(commands_of(looks));
        &&& drained_by(looks)
        &&& self.tick_ends(commands_of(looks), report, result, after)
        &&& match spec_drained(looks.last()) {
            Drained::Broken(reason) => report is None && result == IterationResult::Error(reason),
            _ => if drained.may_advance() {
                &&& report matches Some(advance)
                &&& if !drained.universe.fits(advance.removed@, advance.objects@) {
                    reports_misfit(result)
                } else if taken {
                    result == IterationResult::Continue
                } else {
                    result == IterationResult::Finished
                }
            } else {
                result == IterationResult::Continue
            },
        }
    }
}

/// A tick ends well unless something outside fails.
///
/// If the command queue is not closed, the integrator's report, if one
/// was asked for, fits, and the snapshot queue takes what it is offered,
/// the tick ends with `Continue`.
pub proof fn sound_tick_continues(
    before: UpdaterState,
    looks: Seq<Polled<UpdaterCommand>>,
    report: Option<Advance>,
    taken: bool,
    result: IterationResult,
    after: UpdaterState,
)
    requires
        before.tick_outcome(looks, report, taken, result, after),
        !(spec_drained(looks.last()) is Broken),
        report matches Some(advance) ==> before.handle_all(commands_of(looks)).universe.fits(
            advance.removed@,
            advance.objects@,
        ),
        taken,
    ensures
        result == IterationResult::Continue,
        before.tick_ends(commands_of(looks), report, IterationResult::Continue, after),
{
}

/// A closed command queue is fatal.
///
/// If the last look finds the command queue closed, the tick ends with
/// the queue's text as the error: the integrator is not asked, nothing is
/// published, and the state is what handling the commands found before
/// made of it.
pub proof fn closed_queue_ends_tick(
    before: UpdaterState,
    looks: Seq<Polled<UpdaterCommand>>,
    report: Option<Advance>,
    taken: bool,
    result: IterationResult,
    after: UpdaterState,
)
    requires
        before.tick_outcome(looks, report, taken, result, after),
        looks.last() matches Polled::Closed(_),
    ensures
        looks.last() matches Polled::Closed(reason) && result == IterationResult::Error(reason),
        report is None,
        after == before.handle_all(commands_of(looks)),
        looks.len() == 1 ==> after == before,
{
    if looks.len() == 1 {
        assert(looks.drop_last() =~= Seq::<Polled<UpdaterCommand>>::empty());
        assert(commands_of(looks.drop_last()) =~= Seq::<UpdaterCommand>::empty());
    }
}

/// A snapshot that is not taken ends the worker and costs nothing.
///
/// If the command queue is not closed, the flow allows an advance, the
/// report fits and the snapshot queue does not take the snapshot, the tick
/// ends with `Finished`; the report is taken over, and the window and the
/// credit are as the commands left them.
pub proof fn refused_snapshot_finishes(
    before: UpdaterState,
    looks: Seq<Polled<UpdaterCommand>>,
    report: Option<Advance>,
    taken: bool,
    result: IterationResult,
    after: UpdaterState,
)
    requires
        before.tick_outcome(looks, report, taken, result, after),
        !(spec_drained(looks.last()) is Broken),
        before.handle_all(commands_of(looks)).may_advance(),
        report matches Some(advance) ==> before.handle_all(commands_of(looks)).universe.fits(
            advance.removed@,
            advance.objects@,
        ),
        !taken,
    ensures
        result == IterationResult::Finished,
        after.flow == before.handle_all(commands_of(looks)).flow,
        report matches Some(advance) && after == before.handle_all(commands_of(looks)).advanced(
            advance,
        ),
{
}

/// The sum of `counts`.
pub open spec fn total(counts: Seq<nat>) -> nat
    decreases counts.len(),
{
    if counts.len() == 0 {
        0
    } else {
        total(counts.drop_last()) + counts.last()
    }
}

/// Credit is neither lost nor made, however the acknowledgements are
/// spread over the ticks.
///
/// In a run that starts running with a full window, in which tick `i`
/// receives `counts[i]` acknowledgements and nothing else, the window
/// stays full, and the snapshots published and the credit left add up to
/// the credit at the start and all acknowledgements received.  So when the
/// worker comes to rest, it has published exactly one snapshot for every
/// acknowledgement.
pub proof fn acknowledgements_are_conserved(
    states: Seq<UpdaterState>,
    batches: Seq<Seq<UpdaterCommand>>,
    reports: Seq<Option<Advance>>,
    counts: Seq<nat>,
)
    requires
        run_of_ticks(states, batches, reports),
        counts.len() == batches.len(),
        forall|i: int|
            0 <= i < batches.len() ==> (#[trigger] batches[i]) == acknowledgements(counts[i]),
        !states[0].flow.paused,
        states[0].flow.cache_fill == states[0].limit,
        states[0].flow.consumption_count + total(counts) <= MAX_CREDITS,
    ensures
        !states.last().flow.paused,
        states.last().limit == states[0].limit,
        states.last().flow.cache_fill == states[0].limit,
        advances(reports) + states.last().flow.consumption_count
            == states[0].flow.consumption_count + total(counts),
        !states.last().may_advance() <==> advances(reports) == states[0].flow.consumption_count
            + total(counts),
    decreases reports.len(),
{
    if reports.len() > 0 {
        let count = reports.len() as int;
        let earlier = states.drop_last();
        assert forall|i: int| 0 <= i < count - 1 implies earlier[i].tick_ends(
            batches.drop_last()[i],
            #[trigger] reports.drop_last()[i],
            IterationResult::Continue,
            earlier[i + 1],
        ) by {
            assert(states[i].tick_ends(
                batches[i],
                reports[i],
                IterationResult::Continue,
                states[i + 1],
            ));
        }
        assert forall|i: int| 0 <= i < batches.drop_last().len() implies (
        #[trigger] batches.drop_last()[i]) == acknowledgements(counts.drop_last()[i]) by {
            assert(batches[i] == acknowledgements(counts[i]));
        }
        acknowledgements_are_conserved(
            earlier,
            batches.drop_last(),
            reports.drop_last(),
            counts.drop_last(),
        );
        let before = states[count - 1];
        assert(before == earlier.last());
        assert(before.tick_ends(
            batches[count - 1],
            reports[count - 1],
            IterationResult::Continue,
            states[count],
        ));
        assert(batches[count - 1] == acknowledgements(counts[count - 1]));
        acknowledgements_are_counted(before, counts[count - 1]);
        acknowledgements_add_up(before.flow, counts[count - 1]);
    }
}

/// Whether `states`, `looks`, `reports` and `results` describe ticks that
/// followed one another and in which nothing outside failed: in tick `i`
/// the command queue was looked into as `looks[i]` says and was not
/// closed, the integrator's report `reports[i]`, if one was asked for,
/// fitted, and the snapshot queue took what it was offered.
pub open spec fn sound_run(
    states: Seq<UpdaterState>,
    looks: Seq<Seq<Polled<UpdaterCommand>>>,
    reports: Seq<Option<Advance>>,
    results: Seq<IterationResult>,
) -> bool {
    &&& states.len() == reports.len() + 1
    &&& looks.len() == reports.len()
    &&& results.len() == reports.len()
    &&& forall|i: int|
        0 <= i < reports.len() ==> {
            &&& states[i].tick_outcome(
                looks[i],
                #[trigger] reports[i],
                true,
                results[i],
                states[i + 1],
            )
            &&& !(spec_drained(looks[i].last()) is Broken)
            &&& reports[i] matches Some(advance) ==> states[i].handle_all(
                commands_of(looks[i]),
            ).universe.fits(advance.removed@, advance.objects@)
        }
}

/// The commands found in each tick of a run.
pub open spec fn batches_of(looks: Seq<Seq<Polled<UpdaterCommand>>>) -> Seq<Seq<UpdaterCommand>> {
    Seq::new(looks.len(), |i: int| commands_of(looks[i]))
}

/// As long as nothing outside fails, the worker goes on: every tick of
/// such a run ends with `Continue`.
pub proof fn sound_run_goes_on(
    states: Seq<UpdaterState>,
    looks: Seq<Seq<Polled<UpdaterCommand>>>,
    reports: Seq<Option<Advance>>,
    results: Seq<IterationResult>,
)
    requires
        sound_run(states, looks, reports, results),
    ensures
        forall|i: int| 0 <= i < results.len() ==> (#[trigger] results[i]) == IterationResult::Continue,
        run_of_ticks(states, batches_of(looks), reports),
{
    assert forall|i: int| 0 <= i < results.len() implies (#[trigger] results[i])
        == IterationResult::Continue by {
        assert(states[i].tick_outcome(looks[i], reports[i], true, results[i], states[i + 1]));
    }
    assert forall|i: int| 0 <= i < reports.len() implies states[i].tick_ends(
        batches_of(looks)[i],
        #[trigger] reports[i],
        IterationResult::Continue,
        states[i + 1],
    ) by {
        assert(states[i].tick_outcome(looks[i], reports[i], true, results[i], states[i + 1]));
    }
}

/// The one look of a tick that finds the command queue empty at once.
pub open spec fn nothing_waiting() -> Seq<Polled<UpdaterCommand>> {
    seq![Polled::Empty]
}

/// The two looks of a tick that finds `command` and then nothing more.
pub open spec fn only_waiting(command: UpdaterCommand) -> Seq<Polled<UpdaterCommand>> {
    seq![Polled::Item(command), Polled::Empty]
}

/// The looks of a tick say which commands it handles.
pub proof fn looks_give_commands(command: UpdaterCommand)
    ensures
        commands_of(nothing_waiting()) == Seq::<UpdaterCommand>::empty(),
        commands_of(only_waiting(command)) == seq![command],
        drained_by(nothing_waiting()),
        drained_by(only_waiting(command)),
        forall|state: UpdaterState| #[trigger]
            state.handle_all(commands_of(nothing_waiting())) == state,
        forall|state: UpdaterState| #[trigger]
            state.handle_all(commands_of(only_waiting(command))) == state.handle(command),
{
    let none = nothing_waiting();
    let one = only_waiting(command);
    assert(none.drop_last() =~= Seq::<Polled<UpdaterCommand>>::empty());
    assert(commands_of(none.drop_last()) =~= Seq::<UpdaterCommand>::empty());
    assert(one.drop_last() =~= seq![Polled::Item(command)]);
    assert(one.drop_last().drop_last() =~= Seq::<Polled<UpdaterCommand>>::empty());
    assert(commands_of(one.drop_last().drop_last()) =~= Seq::<UpdaterCommand>::empty());
    assert(commands_of(one.drop_last()) =~= seq![command]);
    assert(commands_of(one) =~= seq![command]);
    assert(commands_of(none) =~= Seq::<UpdaterCommand>::empty());
    assert(seq![command].drop_last() =~= Seq::<UpdaterCommand>::empty());
    assert forall|state: UpdaterState| #[trigger]
        state.handle_all(commands_of(only_waiting(command))) == state.handle(command) by {
        assert(state.handle_all(seq![command]) == state.handle_all(
            seq![command].drop_last(),
        ).handle(command));
    }
}

/// Left alone, with nothing outside failing, a fresh worker publishes up
/// to its limit and then rests.
///
/// If in every one of the ticks the command queue is found empty at once,
/// every tick ends with `Continue`, exactly `min(ticks, limit)` snapshots
/// are published and the window holds as many; from then on the worker
/// does not advance.
pub proof fn left_alone_worker_fills_window(
    states: Seq<UpdaterState>,
    looks: Seq<Seq<Polled<UpdaterCommand>>>,
    reports: Seq<Option<Advance>>,
    results: Seq<IterationResult>,
)
    requires
        sound_run(states, looks, reports, results),
        forall|i: int| 0 <= i < looks.len() ==> (#[trigger] looks[i]) == nothing_waiting(),
        states[0].flow == Flow::start(),
    ensures
        forall|i: int| 0 <= i < results.len() ==> (#[trigger] results[i]) == IterationResult::Continue,
        advances(reports) == least(reports.len() as int, states[0].limit as int),
        states.last().flow.cache_fill == least(reports.len() as int, states[0].limit as int),
        states.last().flow.consumption_count == 0,
        reports.len() >= states[0].limit ==> !states.last().may_advance(),
{
    sound_run_goes_on(states, looks, reports, results);
    let batches = batches_of(looks);
    looks_give_commands(UpdaterCommand::Pause);
    assert forall|i: int| 0 <= i < batches.len() implies (#[trigger] batches[i]).len() == 0 by {
        assert(looks[i] == nothing_waiting());
    }
    fresh_worker_publishes_up_to_limit(states, batches, reports);
    quiet_run_follows_flow(states, batches, reports);
    lookahead_is_bounded(states[0].limit, reports.len());
}

/// A tick that finds no command and may not advance changes nothing and
/// ends well.
pub proof fn resting_tick_changes_nothing(
    before: UpdaterState,
    report: Option<Advance>,
    taken: bool,
    result: IterationResult,
    after: UpdaterState,
)
    requires
        before.tick_outcome(nothing_waiting(), report, taken, result, after),
        !before.may_advance(),
    ensures
        result == IterationResult::Continue,
        report is None,
        after == before,
{
    looks_give_commands(UpdaterCommand::Pause);
}

/// A tick that finds just `Unpause` starts the window afresh, whatever the
/// counters were.
///
/// Both counters are emptied before the worker decides, so with a limit
/// above zero it asks the integrator once; if nothing outside fails, the
/// tick ends with `Continue`, running, with one snapshot in the window
/// and no credit.
pub proof fn unpause_tick_restarts_window(
    before: UpdaterState,
    report: Option<Advance>,
    result: IterationResult,
    after: UpdaterState,
)
    requires
        before.tick_outcome(only_waiting(UpdaterCommand::Unpause), report, true, result, after),
        before.limit > 0,
        report matches Some(advance) ==> before.universe.fits(advance.removed@, advance.objects@),
    ensures
        result == IterationResult::Continue,
        report is Some,
        after.flow == (Flow { paused: false, cache_fill: 1, consumption_count: 0 }),
{
    looks_give_commands(UpdaterCommand::Unpause);
}

/// A tick that finds just new settings asks the integrator with them.
///
/// The settings are in force before the worker decides: what the
/// integrator is asked for in this very tick is the new time and the new
/// number of steps, and the flow is charged as it would have been without
/// the command.
pub proof fn settings_tick_uses_new_settings(
    before: UpdaterState,
    settings: UpdateSettings,
    report: Option<Advance>,
    taken: bool,
    result: IterationResult,
    after: UpdaterState,
)
    requires
        before.tick_outcome(
            only_waiting(UpdaterCommand::UpdateSettings(settings)),
            report,
            taken,
            result,
            after,
        ),
    ensures
        before.handle_all(
            commands_of(only_waiting(UpdaterCommand::UpdateSettings(settings))),
        ).request() == (settings.time, settings.iterations),
        before.handle_all(
            commands_of(only_waiting(UpdaterCommand::UpdateSettings(settings))),
        ).universe == before.universe,
        report is Some <==> before.may_advance(),
        after.settings == settings,
        result is Continue ==> after.flow == before.flow.tick(before.limit),
{
    looks_give_commands(UpdaterCommand::UpdateSettings(settings));
}

/// The whole milliseconds that are left of a tick of `fps_update_time`
/// nanoseconds when `time_taken` nanoseconds of it have been used; zero if
/// the tick is used up.
pub open spec fn spec_remaining_sleep(fps_update_time: u64, time_taken: u64) -> u64 {
    if time_taken < fps_update_time {
        ((fps_update_time - time_taken) / NANOS_PER_MILLI as int) as u64
    } else {
        0
    }
}

#[verifier::when_used_as_spec(spec_remaining_sleep)]
pub fn remaining_sleep(fps_update_time: u64, time_taken: u64) -> (millis: u64)
    ensures
        millis == spec_remaining_sleep(fps_update_time, time_taken),
{
    if time_taken < fps_update_time {
        (fps_update_time - time_taken) / NANOS_PER_MILLI
    } else {
        0
    }
}

/// The worker.
pub struct Updater {
    update_send: Sender<ColorUniverse>,
    update_command_recv: Receiver<UpdaterCommand>,
    update_settings: UpdateSettings,
    universe: ColorUniverse,
    paused: bool,
    fps_update_time: u64,
    consumption_count: u64,
    cache_fill: usize,
    cache_limit: usize,
}

impl View for Updater {
    type V = UpdaterState;

    closed spec fn view(&self) -> UpdaterState {
        UpdaterState {
            flow: Flow {
                paused: self.paused,
                cache_fill: self.cache_fill as nat,
                consumption_count: self.consumption_count as nat,
            },
            limit: self.cache_limit as nat,
            settings: self.update_settings,
            fps_update_time: self.fps_update_time,
            universe: self.universe@,
        }
    }
}

impl Updater {
    #[verifier::type_invariant]
    spec fn window_bounded(&self) -> bool {
        self.cache_fill <= self.cache_limit
    }

    /// The end of the snapshot queue that the worker publishes to.
    pub closed spec fn snapshot_sender(&self) -> Sender<ColorUniverse> {
        self.update_send
    }

    /// The end of the command queue that the worker takes commands from.
    pub closed spec fn command_receiver(&self) -> Receiver<UpdaterCommand> {
        self.update_command_recv
    }

    /// A running worker for `universe` with the usual lookahead limit,
    /// with the end of the snapshot queue to read from and the end of the
    /// command queue to write to.
    pub fn new(universe: ColorUniverse) -> (made: (
        Updater,
        Receiver<ColorUniverse>,
        Sender<UpdaterCommand>,
    ))
        ensures
            made.0@ == UpdaterState::initial(universe@, UNIVERSE_CACHE_LIMIT as nat),
    {
        Updater::with_cache_limit(universe, UNIVERSE_CACHE_LIMIT)
    }

    /// A running worker for `universe` that may be `cache_limit` snapshots
    /// ahead of its consumer.
    pub fn with_cache_limit(universe: ColorUniverse, cache_limit: usize) -> (made: (
        Updater,
        Receiver<ColorUniverse>,
        Sender<UpdaterCommand>,
    ))
        ensures
            made.0@ == UpdaterState::initial(universe@, cache_limit as nat),
    {
        let (update_send, update_recv) = std::sync::mpsc::channel::<ColorUniverse>();
        let (update_command_send, update_command_recv) = std::sync::mpsc::channel::<
            UpdaterCommand,
        >();
        (
            Updater {
                update_send,
                update_command_recv,
                update_settings: UpdateSettings::default(),
                universe,
                paused: false,
                fps_update_time: DEFAULT_FPS_UPDATE_TIME,
                consumption_count: 0,
                cache_fill: 0,
                cache_limit,
            },
            update_recv,
            update_command_send,
        )
    }

    /// Whether the worker has been told to pause.
    pub fn is_paused(&self) -> (paused: bool)
        ensures
            paused == self@.flow.paused,
    {
        self.paused
    }

    /// Snapshots published since the window was last emptied, counted up
    /// to the limit.
    pub fn cache_fill(&self) -> (fill: usize)
        ensures
            fill == self@.flow.cache_fill,
            fill <= self@.limit,
    {
        proof {
            use_type_invariant(self);
        }
        self.cache_fill
    }

    /// Acknowledgements received and not yet spent.
    pub fn consumption_count(&self) -> (count: u64)
        ensures
            count == self@.flow.consumption_count,
    {
        self.consumption_count
    }

    /// The lookahead limit.
    pub fn cache_limit(&self) -> (limit: usize)
        ensures
            limit == self@.limit,
    {
        self.cache_limit
    }

    /// The settings in force.
    pub fn settings(&self) -> (settings: UpdateSettings)
        ensures
            settings == self@.settings,
    {
        self.update_settings
    }

    /// The length of a tick, in nanoseconds.
    pub fn fps_update_time(&self) -> (nanos: u64)
        ensures
            nanos == self@.fps_update_time,
    {
        self.fps_update_time
    }

    /// The universe as it stands.
    pub fn universe(&self) -> (universe: &ColorUniverse)
        ensures
            universe@ == self@.universe,
    {
        &self.universe
    }

    /// Handles one command.
    pub fn handle_command(&mut self, command: UpdaterCommand)
        ensures
            final(self)@ == old(self)@.handle(command),
            final(self).snapshot_sender() == old(self).snapshot_sender(),
            final(self).command_receiver() == old(self).command_receiver(),
    {
        proof {
            use_type_invariant(&*self);
        }
        match command {
            UpdaterCommand::UpdateSettings(new_settings) => {
                self.update_settings = new_settings;
            },
            UpdaterCommand::Pause => {
                self.paused = true;
            },
            UpdaterCommand::Unpause => {
                self.paused = false;
                self.consumption_count = 0;
                self.cache_fill = 0;
            },
            UpdaterCommand::SetFpsUpdateTime(update_time) => {
                self.fps_update_time = update_time;
            },
            UpdaterCommand::SetUniverse(universe) => {
                self.universe = universe;
            },
            UpdaterCommand::UniverseConsumed => {
                if self.consumption_count < MAX_CREDITS {
                    self.consumption_count += 1;
                }
            },
        }
    }

    /// Whether the flow allows an advance now.
    pub fn should_update(&self) -> (allowed: bool)
        ensures
            allowed == self@.may_advance(),
    {
        !self.paused && (self.cache_fill < self.cache_limit || self.consumption_count > 0)
    }

    /// Takes what a look into the command queue found.
    ///
    /// A command is handled, and the queue is to be looked into again.  An
    /// empty queue ends the draining.  A closed queue ends it with the
    /// queue's text, which is fatal for the worker.
    pub fn take_polled(&mut self, polled: Polled<UpdaterCommand>) -> (step: Drained)
        ensures
            step == spec_drained(polled),
            final(self)@ == old(self)@.taking(polled),
            final(self).snapshot_sender() == old(self).snapshot_sender(),
            final(self).command_receiver() == old(self).command_receiver(),
    {
        match polled {
            Polled::Item(command) => {
                self.handle_command(command);
                Drained::Again
            },
            Polled::Empty => Drained::Emptied,
            Polled::Closed(reason) => Drained::Broken(reason),
        }
    }

    /// Takes the commands that wait in the queue, in the order in which
    /// they were sent, until none waits.  The result is the text of the
    /// failure if the queue is closed.
    fn drain_commands(&mut self) -> (drained: (
        Option<String>,
        Ghost<Seq<Polled<UpdaterCommand>>>,
    ))
        ensures
            drained_by(drained.1@),
            final(self)@ == old(self)@.handle_all(commands_of(drained.1@)),
            match spec_drained(drained.1@.last()) {
                Drained::Broken(reason) => drained.0 == Some(reason),
                _ => drained.0 is None,
            },
            final(self).snapshot_sender() == old(self).snapshot_sender(),
            final(self).command_receiver() == old(self).command_receiver(),
    {
        let ghost mut looks: Seq<Polled<UpdaterCommand>> = Seq::empty();
        let mut left: usize = COMMANDS_PER_TICK;
        while left > 0
            invariant
                looks.len() + left == COMMANDS_PER_TICK,
                forall|i: int| 0 <= i < looks.len() ==> spec_drained(#[trigger] looks[i]) is Again,
                self@ == old(self)@.handle_all(commands_of(looks)),
                self.snapshot_sender() == old(self).snapshot_sender(),
                self.command_receiver() == old(self).command_receiver(),
            decreases left,
        {
            let polled = poll(&self.update_command_recv);
            proof {
                let before = looks;
                looks = looks.push(polled);
                assert(looks.drop_last() =~= before);
                assert(commands_of(looks).len() > commands_of(before).len() ==> commands_of(
                    looks,
                ).drop_last() =~= commands_of(before));
            }
            match self.take_polled(polled) {
                Drained::Again => {},
                Drained::Emptied => {
                    return (None, Ghost(looks));
                },
                Drained::Broken(reason) => {
                    return (Some(reason), Ghost(looks));
                },
            }
            left -= 1;
        }
        (None, Ghost(looks))
    }

    /// Takes the answer of the snapshot queue to the snapshot it was
    /// offered.
    ///
    /// If the snapshot was taken the flow is charged for it: the window
    /// takes it if it has room, else one credit is spent; the worker goes
    /// on.  If it was not taken the consumer is gone: nothing is charged
    /// and the worker has finished.
    pub fn settle_publish(&mut self, taken: bool) -> (result: IterationResult)
        requires
            old(self)@.may_advance(),
        ensures
            taken ==> final(self)@ == old(self)@.published() && result
                == IterationResult::Continue,
            !taken ==> final(self)@ == old(self)@ && result == IterationResult::Finished,
            final(self).snapshot_sender() == old(self).snapshot_sender(),
            final(self).command_receiver() == old(self).command_receiver(),
    {
        proof {
            use_type_invariant(&*self);
        }
        if !taken {
            return IterationResult::Finished;
        }
        if self.cache_fill < self.cache_limit {
            self.cache_fill += 1;
        } else {
            self.consumption_count -= 1;
        }
        IterationResult::Continue
    }

    /// One tick of the worker.
    ///
    /// Handles the commands that wait; then, if the flow allows it, has
    /// `engine` advance the bodies with the settings now in force, takes
    /// over its report, publishes a copy of the universe and charges the
    /// flow for it.  The second part of the result is the number of whole
    /// milliseconds for which the caller should now sleep to fill the tick;
    /// it is zero unless the first part is `Continue`.
    pub fn iterate<E>(&mut self, engine: E) -> (outcome: (IterationResult, u64)) where
        E: FnOnce(&[Object], u64, usize) -> Advance,

        requires
            forall|objects: &[Object], time: u64, iterations: usize|
                call_requires(engine, (objects, time, iterations)),
        ensures
            final(self).snapshot_sender() == old(self).snapshot_sender(),
            final(self).command_receiver() == old(self).command_receiver(),
            exists|looks: Seq<Polled<UpdaterCommand>>, report: Option<Advance>, taken: bool|
                {
                    &&& #[trigger] old(self)@.tick_outcome(
                        looks,
                        report,
                        taken,
                        outcome.0,
                        final(self)@,
                    )
                    &&& report matches Some(advance) ==> exists|objects: &[Object]|
                        {
                            &&& objects@ == old(self)@.handle_all(
                                commands_of(looks),
                            ).universe.objects
                            &&& call_ensures(
                                engine,
                                (
                                    objects,
                                    old(self)@.handle_all(commands_of(looks)).request().0,
                                    old(self)@.handle_all(commands_of(looks)).request().1,
                                ),
                                advance,
                            )
                        }
                },
            outcome.0 is Continue ==> exists|time_taken: u64|
                outcome.1 == spec_remaining_sleep(final(self)@.fps_update_time, time_taken),
            !(outcome.0 is Continue) ==> outcome.1 == 0,
    {
        let start_time = precise_time_ns();
        let (failure, Ghost(looks)) = self.drain_commands();
        let ghost drained = self@;
        proof {
            use_type_invariant(&*self);
        }
        if let Some(reason) = failure {
            let result = IterationResult::Error(reason);
            proof {
                assert(old(self)@.tick_outcome(looks, None::<Advance>, false, result, self@));
            }
            return (result, 0);
        }
        let ghost mut report: Option<Advance> = None;
        let ghost mut taken_at_all: bool = true;
        if self.should_update() {
            let time = self.update_settings.time;
            let iterations = self.update_settings.iterations;
            let mut universe = ColorUniverse::default();
            std::mem::swap(&mut self.universe, &mut universe);
            let objects = universe.objects();
            let advance = engine(objects, time, iterations);
            proof {
                report = Some(advance);
                assert(objects@ == drained.universe.objects);
                assert(call_ensures(
                    engine,
                    (objects, drained.request().0, drained.request().1),
                    advance,
                ));
            }
            if !universe.accepts(&advance) {
                self.universe = universe;
                let result = IterationResult::Error(
                    "the integrator's report does not fit the universe".to_string(),
                );
                proof {
                    assert(old(self)@.tick_outcome(looks, report, false, result, self@));
                }
                return (result, 0);
            }
            universe.apply_advance(advance);
            let snapshot = universe.clone();
            self.universe = universe;
            let taken = offer(&self.update_send, snapshot);
            let result = self.settle_publish(taken);
            if !taken {
                proof {
                    assert(old(self)@.tick_outcome(looks, report, taken, result, self@));
                }
                return (result, 0);
            }
        }
        let time_taken = elapsed(start_time, precise_time_ns());
        let millis = remaining_sleep(self.fps_update_time, time_taken);
        proof {
            assert(old(self)@.tick_outcome(
                looks,
                report,
                taken_at_all,
                IterationResult::Continue,
                self@,
            ));
            assert(millis == spec_remaining_sleep(self@.fps_update_time, time_taken));
        }
        (IterationResult::Continue, millis)
    }
}

} // verus!
