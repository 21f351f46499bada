//! The consumer's side: the mode the user is in, the keys that are held,
//! the last snapshot, and what goes back to the worker.

use std::sync::mpsc::{Receiver, Sender};
use vstd::prelude::*;
use crate::body::{Object, Point};
use crate::channel::{offer, poll, Polled};
use crate::color::ObjectColor;
use crate::coloruniverse::{ColorUniverse, UniverseState};
use crate::fpsinfo::FpsInfo;
use crate::keys::BackSpaceState;
use crate::updater::{
    IterationResult, UpdateSettings, UpdaterCommand, DEFAULT_ITERATIONS, DEFAULT_STEP_TIME,
};

verus! {

/// Where the pointer starts out, on both axes: 100, as a double's bit
/// pattern.
pub const INITIAL_MOUSE: u64 = 0x4059_0000_0000_0000;

/// How many snapshots are thrown away at most when the queue is emptied.
/// The bound is there so that emptying ends even if snapshots arrive faster
/// than they are thrown away.
pub const SNAPSHOTS_PER_CLEAR: usize = usize::MAX;

/// The steps of placing a new body with the pointer.
#[derive(Debug, Clone, Copy, PartialEq, Eq, Structural)]
pub enum MouseEditState {
    /// Next click: where the body is.
    SetPoint,
    /// Next click: how heavy the body at this point is.
    SetMass(Point),
    /// Next click: how fast the body of this mass (a double's bit pattern)
    /// at this point moves.
    SetVelocity(u64, Point),
}

impl MouseEditState {
    /// The step after a click at `mouse`.  `mass` is the mass that the
    /// click stands for; it counts only in `SetMass`.
    pub open spec fn spec_clicked(self, mouse: Point, mass: u64) -> MouseEditState {
        match self {
            MouseEditState::SetPoint => MouseEditState::SetMass(mouse),
            MouseEditState::SetMass(point) => MouseEditState::SetVelocity(mass, point),
            MouseEditState::SetVelocity(_, _) => MouseEditState::SetPoint,
        }
    }

    #[verifier::when_used_as_spec(spec_clicked)]
    pub fn clicked(self, mouse: Point, mass: u64) -> (next: MouseEditState)
        ensures
            next == self.spec_clicked(mouse, mass),
    {
        match self {
            MouseEditState::SetPoint => MouseEditState::SetMass(mouse),
            MouseEditState::SetMass(point) => MouseEditState::SetVelocity(mass, point),
            MouseEditState::SetVelocity(_, _) => MouseEditState::SetPoint,
        }
    }
}

impl Default for MouseEditState {
    fn default() -> (state: MouseEditState)
        ensures
            state == MouseEditState::SetPoint,
    {
        MouseEditState::SetPoint
    }
}

/// How the universe is being edited.
#[derive(Debug, Clone, Copy, PartialEq, Eq, Structural)]
pub enum EditState {
    Mouse(MouseEditState),
    Input,
}

impl Default for EditState {
    fn default() -> (state: EditState)
        ensures
            state == EditState::Mouse(MouseEditState::SetPoint),
    {
        EditState::Mouse(MouseEditState::SetPoint)
    }
}

/// The mode the user is in.
#[derive(Debug, Clone, Copy, PartialEq, Eq, Structural)]
pub enum UiState {
    /// The simulation runs and is shown.
    Normal,
    /// The simulation stands still and bodies can be added.
    Edit(EditState),
    /// The simulation stands still.
    Paused,
}

impl Default for UiState {
    fn default() -> (state: UiState)
        ensures
            state == UiState::Normal,
    {
        UiState::Normal
    }
}

impl UiState {
    /// Whether the worker has been told to stand still in this mode.
    pub open spec fn stands_still(self) -> bool {
        self != UiState::Normal
    }

    /// The mode after the pause key.
    pub open spec fn pause_toggled(self) -> UiState {
        if self == UiState::Paused {
            UiState::Normal
        } else {
            UiState::Paused
        }
    }

    /// The mode after the edit key.
    pub open spec fn edit_toggled(self) -> UiState {
        if self is Edit {
            UiState::Normal
        } else {
            UiState::Edit(EditState::Mouse(MouseEditState::SetPoint))
        }
    }

    /// What the pause key does in this mode: the mode that follows, and
    /// what the worker is told.  From `Paused` the worker goes on, from any
    /// other mode it pauses.
    pub fn pause_key(self) -> (change: (UiState, UpdaterCommand))
        ensures
            change.0 == self.pause_toggled(),
            self == UiState::Paused ==> change.1 == UpdaterCommand::Unpause,
            self != UiState::Paused ==> change.1 == UpdaterCommand::Pause,
    {
        match self {
            UiState::Paused => (UiState::Normal, UpdaterCommand::Unpause),
            _ => (UiState::Paused, UpdaterCommand::Pause),
        }
    }

    /// What the edit key does in this mode: the mode that follows, and what
    /// the worker is told.  From `Edit` the worker goes on, from any other
    /// mode it pauses.
    pub fn edit_key(self) -> (change: (UiState, UpdaterCommand))
        ensures
            change.0 == self.edit_toggled(),
            self is Edit ==> change.1 == UpdaterCommand::Unpause,
            !(self is Edit) ==> change.1 == UpdaterCommand::Pause,
    {
        match self {
            UiState::Edit(_) => (UiState::Normal, UpdaterCommand::Unpause),
            _ => (UiState::Edit(EditState::default()), UpdaterCommand::Pause),
        }
    }
}

/// The keys that mean something here.
#[derive(Debug, Clone, Copy, PartialEq, Eq, Structural)]
pub enum Key {
    Shift,
    Control,
    Up,
    Down,
    Left,
    Right,
    BackSpace,
    /// Pause or go on.
    P,
    /// Edit or go on.
    E,
    /// Start again with an empty universe.
    R,
    /// Let the pointer move the view, or not.
    M,
    Other,
}

/// Which keys are held and where the pointer is (doubles' bit patterns).
#[derive(Debug, Clone, Copy, PartialEq, Eq, Structural)]
pub struct InputInfo {
    pub shift: bool,
    pub ctrl: bool,
    pub backspace: BackSpaceState,
    pub up: bool,
    pub down: bool,
    pub left: bool,
    pub right: bool,
    pub mouse_x: u64,
    pub mouse_y: u64,
}

impl InputInfo {
    /// No key held, the pointer at its start.
    pub open spec fn initial() -> InputInfo {
        InputInfo {
            shift: false,
            ctrl: false,
            backspace: BackSpaceState::NotPressed,
            up: false,
            down: false,
            left: false,
            right: false,
            mouse_x: INITIAL_MOUSE,
            mouse_y: INITIAL_MOUSE,
        }
    }

    /// The keys held once `key` is, or is no longer, held.  Keys that are
    /// not tracked change nothing.
    pub open spec fn spec_with_key(self, key: Key, held: bool) -> InputInfo {
        match key {
            Key::Shift => InputInfo { shift: held, ..self },
            Key::Control => InputInfo { ctrl: held, ..self },
            Key::Up => InputInfo { up: held, ..self },
            Key::Down => InputInfo { down: held, ..self },
            Key::Left => InputInfo { left: held, ..self },
            Key::Right => InputInfo { right: held, ..self },
            _ => self,
        }
    }

    #[verifier::when_used_as_spec(spec_with_key)]
    pub fn with_key(self, key: Key, held: bool) -> (info: InputInfo)
        ensures
            info == self.spec_with_key(key, held),
    {
        let mut info = self;
        match key {
            Key::Shift => {
                info.shift = held;
            },
            Key::Control => {
                info.ctrl = held;
            },
            Key::Up => {
                info.up = held;
            },
            Key::Down => {
                info.down = held;
            },
            Key::Left => {
                info.left = held;
            },
            Key::Right => {
                info.right = held;
            },
            _ => {},
        }
        info
    }

    /// Which axes a turn of the wheel scales, first the horizontal one:
    /// only the horizontal one while control alone is held, only the
    /// vertical one while shift alone is held, else both.
    pub open spec fn spec_scroll_axes(&self) -> (bool, bool) {
        if self.ctrl == self.shift {
            (true, true)
        } else {
            (self.ctrl, self.shift)
        }
    }

    #[verifier::when_used_as_spec(spec_scroll_axes)]
    pub fn scroll_axes(&self) -> (axes: (bool, bool))
        ensures
            axes == self.spec_scroll_axes(),
    {
        if !(self.ctrl ^ self.shift) {
            (true, true)
        } else if self.ctrl {
            (true, false)
        } else {
            (false, true)
        }
    }

    /// The way the arrow keys shift the view, as steps along each axis,
    /// first the horizontal one: left and up count +1, right and down -1,
    /// and of two opposite keys that are both held left and up win.
    pub open spec fn spec_arrow_shift(&self) -> (i8, i8) {
        (
            if self.left {
                1i8
            } else if self.right {
                -1i8
            } else {
                0i8
            },
            if self.up {
                1i8
            } else if self.down {
                -1i8
            } else {
                0i8
            },
        )
    }

    #[verifier::when_used_as_spec(spec_arrow_shift)]
    pub fn arrow_shift(&self) -> (shift: (i8, i8))
        ensures
            shift == self.spec_arrow_shift(),
    {
        let mut x: i8 = 0;
        let mut y: i8 = 0;
        if self.up {
            y = 1;
        } else if self.down {
            y = -1;
        }
        if self.left {
            x = 1;
        } else if self.right {
            x = -1;
        }
        (x, y)
    }

    /// The state after backspace has been released: the count moves on,
    /// and where that makes two in a row it starts over.
    pub open spec fn backspace_released(self) -> InputInfo {
        if self.backspace.successor() == BackSpaceState::PressedTwice {
            InputInfo { backspace: BackSpaceState::NotPressed, ..self }
        } else {
            InputInfo { backspace: self.backspace.successor(), ..self }
        }
    }

    /// Whether releasing backspace now asks for the view to be reset: it
    /// is the second release in a row.
    pub open spec fn backspace_resets(self) -> bool {
        self.backspace.successor() == BackSpaceState::PressedTwice
    }
}

impl Default for InputInfo {
    fn default() -> (info: InputInfo)
        ensures
            info == InputInfo::initial(),
    {
        InputInfo {
            shift: false,
            ctrl: false,
            backspace: BackSpaceState::NotPressed,
            up: false,
            down: false,
            left: false,
            right: false,
            mouse_x: INITIAL_MOUSE,
            mouse_y: INITIAL_MOUSE,
        }
    }
}

/// What the caller has to do after a key has been released.
#[derive(Debug, PartialEq, Eq)]
pub enum KeyOutcome {
    /// Nothing.
    Handled,
    /// Put the view back to where it started.
    ResetView,
    /// Give up: a queue to or from the worker is broken.
    Failed(String),
}

/// Everything the consumer keeps between two events.
pub struct UiData {
    pub state: UiState,
    pub universe: ColorUniverse,
    pub fps_info: FpsInfo,
    pub input_info: InputInfo,
    pub universe_recv: Receiver<ColorUniverse>,
    pub update_settings: UpdateSettings,
    pub update_command_send: Sender<UpdaterCommand>,
    pub allow_mouse_movement: bool,
}

/// What `UiData` holds apart from the queues, as plain mathematics.
pub struct UiView {
    pub state: UiState,
    pub universe: UniverseState,
    pub fps_info: FpsInfo,
    pub input_info: InputInfo,
    pub update_settings: UpdateSettings,
    pub allow_mouse_movement: bool,
}

impl UiView {
    /// The data after `key` has gone down.
    pub open spec fn pressed(self, key: Key) -> UiView {
        UiView { input_info: self.input_info.with_key(key, true), ..self }
    }

    /// The data after `key` has come up, if no queue is broken.
    pub open spec fn released(self, key: Key) -> UiView {
        match key {
            Key::P => UiView { state: self.state.pause_toggled(), ..self },
            Key::E => UiView { state: self.state.edit_toggled(), ..self },
            Key::R => UiView { universe: UniverseState::empty(), ..self },
            Key::BackSpace => UiView { input_info: self.input_info.backspace_released(), ..self },
            Key::M => UiView { allow_mouse_movement: !self.allow_mouse_movement, ..self },
            _ => UiView { input_info: self.input_info.with_key(key, false), ..self },
        }
    }
}

impl UiView {
    /// The data after a look into the snapshot queue that found `found`: a
    /// snapshot becomes the universe held, anything else changes nothing.
    pub open spec fn accepted(self, found: Polled<ColorUniverse>) -> UiView {
        match found {
            Polled::Item(universe) => UiView { universe: universe@, ..self },
            _ => self,
        }
    }
}

/// What is reported when the worker's command queue does not take what it
/// is sent.
pub open spec fn worker_gone() -> Seq<char> {
    "the worker takes no commands"@
}

/// Whether `result` reports that the worker's command queue did not take
/// what it was sent.
pub open spec fn reports_worker_gone(result: IterationResult) -> bool {
    result matches IterationResult::Error(text) && text@ == worker_gone()
}

/// What emptying the snapshot queue makes of one look into it.
#[derive(Debug, PartialEq, Eq)]
pub enum Discarded {
    /// A snapshot was thrown away; look again.
    Again,
    /// Nothing waits any more; the queue is empty.
    Emptied,
    /// The queue is closed; the text says why.
    Broken(String),
}

/// What emptying the snapshot queue makes of the look that found `found`.
pub open spec fn spec_discarded(found: Polled<ColorUniverse>) -> Discarded {
    match found {
        Polled::Item(_) => Discarded::Again,
        Polled::Empty => Discarded::Emptied,
        Polled::Closed(reason) => Discarded::Broken(reason),
    }
}

/// Whether emptying the snapshot queue, with the looks `looks` into it one
/// after the other, ends with `failure`.
///
/// Every look but the last threw a snapshot away.  The last one found the
/// queue empty, which is no failure, or closed, which is the failure with
/// the queue's own text; or it was look number `SNAPSHOTS_PER_CLEAR` and
/// threw a snapshot away as well, which is no failure either.
pub open spec fn emptied(looks: Seq<Polled<ColorUniverse>>, failure: Option<String>) -> bool {
    &&& 0 < looks.len() <= SNAPSHOTS_PER_CLEAR
    &&& forall|i: int| 0 <= i < looks.len() - 1 ==> spec_discarded(#[trigger] looks[i]) is Again
    &&& match spec_discarded(looks.last()) {
        Discarded::Again => looks.len() == SNAPSHOTS_PER_CLEAR && failure is None,
        Discarded::Emptied => failure is None,
        Discarded::Broken(reason) => failure == Some(reason),
    }
}

/// Whether `result` is what a round comes to while the simulation stands
/// still, when `taken` says whether the worker's queue took the universe
/// and `failure` is what emptying the snapshot queue then came to.
pub open spec fn standing_outcome(
    taken: bool,
    failure: Option<String>,
    result: IterationResult,
) -> bool {
    if !taken {
        reports_worker_gone(result)
    } else {
        match failure {
            Some(reason) => result == IterationResult::Error(reason),
            None => result == IterationResult::Continue,
        }
    }
}

/// Whether `result` is how a round ends while the simulation stands still.
///
/// The worker is sent the universe held; `taken` says whether its queue
/// took it.  If it did not, that is the error.  If it did, the snapshot
/// queue is emptied with the looks `looks`, and the round ends with what
/// that came to, `failure`.
pub open spec fn standing_round(
    taken: bool,
    failure: Option<String>,
    looks: Seq<Polled<ColorUniverse>>,
    result: IterationResult,
) -> bool {
    &&& standing_outcome(taken, failure, result)
    &&& taken ==> emptied(looks, failure)
}

/// Whether `result` is how a round ends while the simulation runs, when
/// the look into the snapshot queue found `found` and `taken` says whether
/// the worker's queue took the acknowledgement, if one was owed.
pub open spec fn running_round(
    found: Polled<ColorUniverse>,
    taken: bool,
    result: IterationResult,
) -> bool {
    match found {
        Polled::Item(_) => if taken {
            result == IterationResult::Continue
        } else {
            reports_worker_gone(result)
        },
        Polled::Empty => result == IterationResult::Continue,
        Polled::Closed(reason) => result == IterationResult::Error(reason),
    }
}

impl View for UiData {
    type V = UiView;

    open spec fn view(&self) -> UiView {
        UiView {
            state: self.state,
            universe: self.universe@,
            fps_info: self.fps_info,
            input_info: self.input_info,
            update_settings: self.update_settings,
            allow_mouse_movement: self.allow_mouse_movement,
        }
    }
}

impl UiData {
    /// The data of a consumer that has just started: normal mode, an
    /// empty universe, no key held.
    pub fn new(
        universe_recv: Receiver<ColorUniverse>,
        update_command_send: Sender<UpdaterCommand>,
    ) -> (data: UiData)
        ensures
            data.state == UiState::Normal,
            data.universe@ == UniverseState::empty(),
            data.input_info == InputInfo::initial(),
            data.update_settings == (UpdateSettings {
                time: DEFAULT_STEP_TIME,
                iterations: DEFAULT_ITERATIONS,
            }),
            !data.allow_mouse_movement,
            data.universe_recv == universe_recv,
            data.update_command_send == update_command_send,
    {
        UiData {
            state: UiState::default(),
            universe: ColorUniverse::default(),
            fps_info: FpsInfo::default(),
            universe_recv,
            update_settings: UpdateSettings::default(),
            update_command_send,
            input_info: InputInfo::default(),
            allow_mouse_movement: false,
        }
    }

    /// Throws away the snapshots that wait in the queue.  The result is
    /// the text of the failure if the queue is broken.
    fn clear_receiver(&self) -> (failure: Option<String>)
        ensures
            exists|looks: Seq<Polled<ColorUniverse>>| emptied(looks, failure),
    {
        let ghost mut looks: Seq<Polled<ColorUniverse>> = Seq::empty();
        let mut left: usize = SNAPSHOTS_PER_CLEAR;
        while left > 0
            invariant
                looks.len() + left == SNAPSHOTS_PER_CLEAR,
                forall|i: int| 0 <= i < looks.len() ==> spec_discarded(#[trigger] looks[i]) is Again,
            decreases left,
        {
            let found = poll(&self.universe_recv);
            proof {
                looks = looks.push(found);
            }
            match UiData::discarded(found) {
                Discarded::Again => {},
                Discarded::Emptied => {
                    assert(emptied(looks, None));
                    return None;
                },
                Discarded::Broken(reason) => {
                    assert(emptied(looks, Some(reason)));
                    return Some(reason);
                },
            }
            left -= 1;
        }
        assert(emptied(looks, None));
        None
    }

    /// Sends the worker a copy of the universe held, to go on from.  The
    /// result says whether the worker's queue took it.
    fn send_universe(&self) -> (taken: bool) {
        offer(&self.update_command_send, self.universe_command())
    }

    /// What emptying the snapshot queue makes of the look that found
    /// `found`: a snapshot is thrown away and the queue is looked into
    /// again, an empty queue ends it, a closed queue ends it with the
    /// queue's text.
    pub fn discarded(found: Polled<ColorUniverse>) -> (verdict: Discarded)
        ensures
            verdict == spec_discarded(found),
    {
        match found {
            Polled::Item(_) => Discarded::Again,
            Polled::Empty => Discarded::Emptied,
            Polled::Closed(reason) => Discarded::Broken(reason),
        }
    }

    /// The command that hands the worker a copy of the universe held.
    pub fn universe_command(&self) -> (command: UpdaterCommand)
        ensures
            command matches UpdaterCommand::SetUniverse(universe) && universe@ == self@.universe,
    {
        UpdaterCommand::SetUniverse(self.universe.clone())
    }

    /// How a round ends while the simulation stands still: with an error
    /// if the worker's queue did not take the universe or if the snapshot
    /// queue is broken, else well.
    pub fn standing_result(taken: bool, failure: Option<String>) -> (result: IterationResult)
        ensures
            standing_outcome(taken, failure, result),
    {
        if !taken {
            IterationResult::Error("the worker takes no commands".to_string())
        } else {
            match failure {
                Some(reason) => IterationResult::Error(reason),
                None => IterationResult::Continue,
            }
        }
    }

    /// How a round ends while the simulation runs: as the look into the
    /// snapshot queue says, `answer`, unless the worker's queue did not
    /// take the acknowledgement.
    pub fn running_result(answer: IterationResult, taken: bool) -> (result: IterationResult)
        ensures
            taken ==> result == answer,
            !taken ==> reports_worker_gone(result),
    {
        if taken {
            answer
        } else {
            IterationResult::Error("the worker takes no commands".to_string())
        }
    }

    /// Adds `object`, coloured by its mass, to the universe held and sends
    /// the worker the universe to go on from.  The result says whether the
    /// worker's queue took it; the body is added in either case.
    pub fn add_object(&mut self, object: Object) -> (taken: bool)
        ensures
            final(self)@ == (UiView {
                universe: old(self)@.universe.with_object(object, ObjectColor::FromMass),
                ..old(self)@
            }),
            final(self).universe_recv == old(self).universe_recv,
            final(self).update_command_send == old(self).update_command_send,
    {
        self.universe.add_object(object, ObjectColor::FromMass);
        self.send_universe()
    }

    /// Takes what a look into the snapshot queue found.
    ///
    /// A snapshot becomes the universe held, and the answer carries the
    /// one acknowledgement that is owed for it.  An empty queue changes
    /// nothing and owes nothing.  A closed queue is an error.
    pub fn accept_snapshot(&mut self, found: Polled<ColorUniverse>) -> (answer: (
        IterationResult,
        Option<UpdaterCommand>,
    ))
        ensures
            match found {
                Polled::Item(universe) => {
                    &&& final(self)@ == (UiView { universe: universe@, ..old(self)@ })
                    &&& answer.0 == IterationResult::Continue
                    &&& answer.1 == Some(UpdaterCommand::UniverseConsumed)
                },
                Polled::Empty => {
                    &&& final(self)@ == old(self)@
                    &&& answer.0 == IterationResult::Continue
                    &&& answer.1.is_none()
                },
                Polled::Closed(reason) => {
                    &&& final(self)@ == old(self)@
                    &&& answer.0 == IterationResult::Error(reason)
                    &&& answer.1.is_none()
                },
            },
            final(self).universe_recv == old(self).universe_recv,
            final(self).update_command_send == old(self).update_command_send,
    {
        match found {
            Polled::Item(new_universe) => {
                self.universe = new_universe;
                (IterationResult::Continue, Some(UpdaterCommand::UniverseConsumed))
            },
            Polled::Empty => (IterationResult::Continue, None),
            Polled::Closed(reason) => (IterationResult::Error(reason), None),
        }
    }

    /// One round of the consumer's exchange with the worker.
    ///
    /// While the simulation stands still, the worker is sent the universe
    /// held and what it has published is thrown away.  While it runs, at
    /// most one snapshot is taken out of the queue; it becomes the
    /// universe held, and the worker is told that it was taken.
    pub fn iterate(&mut self) -> (result: IterationResult)
        ensures
            !(result is Finished),
            final(self).universe_recv == old(self).universe_recv,
            final(self).update_command_send == old(self).update_command_send,
            old(self).state.stands_still() ==> exists|
                taken: bool,
                failure: Option<String>,
                looks: Seq<Polled<ColorUniverse>>,
            |
                {
                    &&& final(self)@ == old(self)@
                    &&& #[trigger] standing_round(taken, failure, looks, result)
                },
            !old(self).state.stands_still() ==> exists|found: Polled<ColorUniverse>, taken: bool|
                {
                    &&& final(self)@ == old(self)@.accepted(found)
                    &&& #[trigger] running_round(found, taken, result)
                },
    {
        match self.state {
            UiState::Paused | UiState::Edit(_) => {
                let taken = self.send_universe();
                let ghost mut looks: Seq<Polled<ColorUniverse>> = Seq::empty();
                let failure = if taken {
                    let failure = self.clear_receiver();
                    proof {
                        looks = choose|looks: Seq<Polled<ColorUniverse>>| emptied(looks, failure);
                    }
                    failure
                } else {
                    None
                };
                let result = UiData::standing_result(taken, failure);
                assert(self@ == old(self)@ && standing_round(taken, failure, looks, result));
                result
            },
            UiState::Normal => {
                let found = poll(&self.universe_recv);
                let (answer, owed) = self.accept_snapshot(found);
                let taken = match owed {
                    Some(acknowledgement) => offer(&self.update_command_send, acknowledgement),
                    None => true,
                };
                let result = UiData::running_result(answer, taken);
                assert(self@ == old(self)@.accepted(found) && running_round(found, taken, result));
                result
            },
        }
    }
}

/// Notes that `key` has gone down.
pub fn key_press_handler(data: &mut UiData, key: Key)
    ensures
        final(data)@ == old(data)@.pressed(key),
        final(data).universe_recv == old(data).universe_recv,
        final(data).update_command_send == old(data).update_command_send,
{
    data.input_info = data.input_info.with_key(key, true);
}

/// Acts on `key` having come up.
///
/// The pause and edit keys change the mode and tell the worker to stand
/// still or to go on; the reset key empties the universe, tells the worker
/// and throws away what it had published; the second backspace in a row
/// asks for the view to be reset.  If a queue turns out to be broken the
/// result is `Failed`, and the data are as before or as after the key.
pub fn key_release_handler(data: &mut UiData, key: Key) -> (outcome: KeyOutcome)
    ensures
        !(outcome is Failed) ==> final(data)@ == old(data)@.released(key),
        outcome is Failed ==> final(data)@ == old(data)@ || final(data)@ == old(data)@.released(
            key,
        ),
        outcome is Failed ==> key == Key::P || key == Key::E || key == Key::R,
        outcome is ResetView <==> key == Key::BackSpace && old(data).input_info.backspace_resets(),
        final(data).universe_recv == old(data).universe_recv,
        final(data).update_command_send == old(data).update_command_send,
{
    match key {
        Key::P => {
            let (new_state, command) = data.state.pause_key();
            if !offer(&data.update_command_send, command) {
                return KeyOutcome::Failed("the worker takes no commands".to_string());
            }
            data.state = new_state;
            KeyOutcome::Handled
        },
        Key::E => {
            let (new_state, command) = data.state.edit_key();
            if !offer(&data.update_command_send, command) {
                return KeyOutcome::Failed("the worker takes no commands".to_string());
            }
            data.state = new_state;
            KeyOutcome::Handled
        },
        Key::R => {
            data.universe = ColorUniverse::default();
            if !data.send_universe() {
                return KeyOutcome::Failed("the worker takes no commands".to_string());
            }
            match data.clear_receiver() {
                Some(reason) => KeyOutcome::Failed(reason),
                None => KeyOutcome::Handled,
            }
        },
        Key::BackSpace => {
            let mut backspace = data.input_info.backspace;
            backspace.next_state();
            if backspace.should_reset() {
                backspace.next_state();
                data.input_info.backspace = backspace;
                KeyOutcome::ResetView
            } else {
                data.input_info.backspace = backspace;
                KeyOutcome::Handled
            }
        },
        Key::M => {
            data.allow_mouse_movement = !data.allow_mouse_movement;
            KeyOutcome::Handled
        },
        _ => {
            data.input_info = data.input_info.with_key(key, false);
            KeyOutcome::Handled
        },
    }
}

} // verus!
