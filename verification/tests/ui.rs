use gravity_sim::body::{Object, Point, Vector};
use gravity_sim::channel::Polled;
use gravity_sim::color::ObjectColor;
use gravity_sim::coloruniverse::ColorUniverse;
use gravity_sim::keys::BackSpaceState;
use gravity_sim::ui::{
    key_press_handler, key_release_handler, Discarded, EditState, InputInfo, Key, KeyOutcome,
    MouseEditState, UiData, UiState, INITIAL_MOUSE,
};
use gravity_sim::updater::{IterationResult, UpdateSettings, UpdaterCommand};
use std::sync::mpsc::{channel, Receiver, Sender};

fn body(n: u64) -> Object {
    Object::new(n, Vector::new(0, 0), Point::new(n, n), 1)
}

fn universe_of(count: u64) -> ColorUniverse {
    let mut universe = ColorUniverse::default();
    for n in 0..count {
        universe.add_object(body(n), ObjectColor::FromMass);
    }
    universe
}

fn consumer() -> (UiData, Sender<ColorUniverse>, Receiver<UpdaterCommand>) {
    let (snapshot_send, snapshot_recv) = channel();
    let (command_send, command_recv) = channel();
    (UiData::new(snapshot_recv, command_send), snapshot_send, command_recv)
}

fn kinds(commands: &Receiver<UpdaterCommand>) -> Vec<String> {
    commands
        .try_iter()
        .map(|command| match command {
            UpdaterCommand::UpdateSettings(_) => String::from("settings"),
            UpdaterCommand::Pause => String::from("pause"),
            UpdaterCommand::Unpause => String::from("unpause"),
            UpdaterCommand::SetFpsUpdateTime(_) => String::from("cadence"),
            UpdaterCommand::SetUniverse(universe) => format!("universe {}", universe.objects().len()),
            UpdaterCommand::UniverseConsumed => String::from("consumed"),
        })
        .collect()
}

#[test]
fn pointer_starts_at_one_hundred() {
    assert_eq!(f64::from_bits(INITIAL_MOUSE), 100.0);
    let info = InputInfo::default();
    assert_eq!(info.mouse_x, 100f64.to_bits());
    assert_eq!(info.mouse_y, 100f64.to_bits());
    assert_eq!(info.backspace, BackSpaceState::NotPressed);
    assert!(!info.shift && !info.ctrl && !info.up && !info.down && !info.left && !info.right);
}

#[test]
fn modes_start_at_their_first_step() {
    assert_eq!(UiState::default(), UiState::Normal);
    assert_eq!(EditState::default(), EditState::Mouse(MouseEditState::SetPoint));
    assert_eq!(MouseEditState::default(), MouseEditState::SetPoint);
}

#[test]
fn new_consumer_has_an_empty_universe() {
    let (data, _snapshots, _commands) = consumer();
    assert_eq!(data.state, UiState::Normal);
    assert_eq!(data.universe.objects().len(), 0);
    assert_eq!(data.update_settings, UpdateSettings::default());
    assert_eq!(data.input_info, InputInfo::default());
    assert!(!data.allow_mouse_movement);
}

#[test]
fn placing_a_body_takes_three_clicks() {
    let here = Point::new(1, 2);
    let there = Point::new(3, 4);
    let first = MouseEditState::SetPoint.clicked(here, 99);
    assert_eq!(first, MouseEditState::SetMass(here));
    let second = first.clicked(there, 55);
    assert_eq!(second, MouseEditState::SetVelocity(55, here));
    let third = second.clicked(there, 77);
    assert_eq!(third, MouseEditState::SetPoint);
}

#[test]
fn held_keys_are_tracked() {
    let (mut data, _snapshots, _commands) = consumer();
    for key in [Key::Shift, Key::Control, Key::Up, Key::Down, Key::Left, Key::Right] {
        key_press_handler(&mut data, key);
    }
    let info = data.input_info;
    assert!(info.shift && info.ctrl && info.up && info.down && info.left && info.right);
    assert_eq!(key_release_handler(&mut data, Key::Up), KeyOutcome::Handled);
    assert_eq!(key_release_handler(&mut data, Key::Shift), KeyOutcome::Handled);
    let info = data.input_info;
    assert!(!info.shift && info.ctrl && !info.up && info.down && info.left && info.right);
}

#[test]
fn other_keys_change_nothing() {
    let (mut data, _snapshots, commands) = consumer();
    key_press_handler(&mut data, Key::Other);
    key_press_handler(&mut data, Key::P);
    assert_eq!(data.input_info, InputInfo::default());
    assert_eq!(data.state, UiState::Normal);
    assert_eq!(key_release_handler(&mut data, Key::Other), KeyOutcome::Handled);
    assert_eq!(data.input_info, InputInfo::default());
    assert_eq!(kinds(&commands), Vec::<String>::new());
}

#[test]
fn with_key_sets_one_flag() {
    let info = InputInfo::default().with_key(Key::Left, true);
    assert!(info.left);
    assert_eq!(info.with_key(Key::Left, false), InputInfo::default());
    assert_eq!(InputInfo::default().with_key(Key::M, true), InputInfo::default());
}

#[test]
fn pause_key_toggles_and_tells_the_worker() {
    let (mut data, _snapshots, commands) = consumer();
    assert_eq!(key_release_handler(&mut data, Key::P), KeyOutcome::Handled);
    assert_eq!(data.state, UiState::Paused);
    assert_eq!(kinds(&commands), vec!["pause"]);
    assert_eq!(key_release_handler(&mut data, Key::P), KeyOutcome::Handled);
    assert_eq!(data.state, UiState::Normal);
    assert_eq!(kinds(&commands), vec!["unpause"]);
}

#[test]
fn edit_key_toggles_and_tells_the_worker() {
    let (mut data, _snapshots, commands) = consumer();
    assert_eq!(key_release_handler(&mut data, Key::E), KeyOutcome::Handled);
    assert_eq!(data.state, UiState::Edit(EditState::Mouse(MouseEditState::SetPoint)));
    assert_eq!(kinds(&commands), vec!["pause"]);
    assert_eq!(key_release_handler(&mut data, Key::E), KeyOutcome::Handled);
    assert_eq!(data.state, UiState::Normal);
    assert_eq!(kinds(&commands), vec!["unpause"]);
}

#[test]
fn pause_key_in_edit_mode_pauses() {
    let (mut data, _snapshots, commands) = consumer();
    key_release_handler(&mut data, Key::E);
    assert_eq!(key_release_handler(&mut data, Key::P), KeyOutcome::Handled);
    assert_eq!(data.state, UiState::Paused);
    assert_eq!(key_release_handler(&mut data, Key::E), KeyOutcome::Handled);
    assert_eq!(data.state, UiState::Edit(EditState::default()));
    assert_eq!(kinds(&commands), vec!["pause", "pause", "pause"]);
}

#[test]
fn reset_key_empties_the_universe_and_the_queue() {
    let (mut data, snapshots, commands) = consumer();
    data.universe = universe_of(3);
    snapshots.send(universe_of(1)).unwrap();
    snapshots.send(universe_of(2)).unwrap();
    assert_eq!(key_release_handler(&mut data, Key::R), KeyOutcome::Handled);
    assert_eq!(data.universe.objects().len(), 0);
    assert_eq!(kinds(&commands), vec!["universe 0"]);
    assert!(data.universe_recv.try_recv().is_err());
}

#[test]
fn second_backspace_in_a_row_resets_the_view() {
    let (mut data, _snapshots, _commands) = consumer();
    assert_eq!(key_release_handler(&mut data, Key::BackSpace), KeyOutcome::Handled);
    assert_eq!(data.input_info.backspace, BackSpaceState::PressedOnce);
    assert_eq!(key_release_handler(&mut data, Key::BackSpace), KeyOutcome::ResetView);
    assert_eq!(data.input_info.backspace, BackSpaceState::NotPressed);
    assert_eq!(key_release_handler(&mut data, Key::BackSpace), KeyOutcome::Handled);
}

#[test]
fn m_key_toggles_pointer_movement() {
    let (mut data, _snapshots, _commands) = consumer();
    assert_eq!(key_release_handler(&mut data, Key::M), KeyOutcome::Handled);
    assert!(data.allow_mouse_movement);
    assert_eq!(key_release_handler(&mut data, Key::M), KeyOutcome::Handled);
    assert!(!data.allow_mouse_movement);
}

#[test]
fn keys_fail_when_the_worker_is_gone() {
    for key in [Key::P, Key::E, Key::R] {
        let (mut data, _snapshots, commands) = consumer();
        drop(commands);
        assert!(matches!(key_release_handler(&mut data, key), KeyOutcome::Failed(_)));
        assert_eq!(data.state, UiState::Normal);
    }
}

#[test]
fn reset_fails_when_the_snapshot_queue_is_closed() {
    let (mut data, snapshots, _commands) = consumer();
    drop(snapshots);
    assert!(matches!(key_release_handler(&mut data, Key::R), KeyOutcome::Failed(_)));
}

#[test]
fn wheel_scales_both_axes_unless_one_modifier_is_held() {
    let plain = InputInfo::default();
    assert_eq!(plain.scroll_axes(), (true, true));
    assert_eq!(plain.with_key(Key::Control, true).scroll_axes(), (true, false));
    assert_eq!(plain.with_key(Key::Shift, true).scroll_axes(), (false, true));
    let both = plain.with_key(Key::Shift, true).with_key(Key::Control, true);
    assert_eq!(both.scroll_axes(), (true, true));
}

#[test]
fn arrows_shift_the_view() {
    let plain = InputInfo::default();
    assert_eq!(plain.arrow_shift(), (0, 0));
    assert_eq!(plain.with_key(Key::Up, true).arrow_shift(), (0, 1));
    assert_eq!(plain.with_key(Key::Down, true).arrow_shift(), (0, -1));
    assert_eq!(plain.with_key(Key::Left, true).arrow_shift(), (1, 0));
    assert_eq!(plain.with_key(Key::Right, true).arrow_shift(), (-1, 0));
    let all = plain
        .with_key(Key::Up, true)
        .with_key(Key::Down, true)
        .with_key(Key::Left, true)
        .with_key(Key::Right, true);
    assert_eq!(all.arrow_shift(), (1, 1));
    assert_eq!(plain.with_key(Key::Down, true).with_key(Key::Right, true).arrow_shift(), (-1, -1));
}

#[test]
fn running_consumer_takes_one_snapshot_and_acknowledges_it() {
    let (mut data, snapshots, commands) = consumer();
    snapshots.send(universe_of(1)).unwrap();
    snapshots.send(universe_of(2)).unwrap();
    assert_eq!(data.iterate(), IterationResult::Continue);
    assert_eq!(data.universe.objects().len(), 1);
    assert_eq!(kinds(&commands), vec!["consumed"]);
    assert_eq!(data.iterate(), IterationResult::Continue);
    assert_eq!(data.universe.objects().len(), 2);
    assert_eq!(kinds(&commands), vec!["consumed"]);
    assert_eq!(data.iterate(), IterationResult::Continue);
    assert_eq!(data.universe.objects().len(), 2);
    assert_eq!(kinds(&commands), Vec::<String>::new());
}

#[test]
fn standing_consumer_sends_its_universe_and_discards_snapshots() {
    let (mut data, snapshots, commands) = consumer();
    data.universe = universe_of(2);
    key_release_handler(&mut data, Key::P);
    snapshots.send(universe_of(5)).unwrap();
    snapshots.send(universe_of(6)).unwrap();
    assert_eq!(data.iterate(), IterationResult::Continue);
    assert_eq!(data.universe.objects().len(), 2);
    assert_eq!(data.state, UiState::Paused);
    assert_eq!(kinds(&commands), vec!["pause", "universe 2"]);
    assert!(data.universe_recv.try_recv().is_err());
}

#[test]
fn consumer_reports_broken_queues() {
    let (mut data, snapshots, commands) = consumer();
    drop(snapshots);
    assert!(matches!(data.iterate(), IterationResult::Error(_)));
    drop(commands);
    data.state = UiState::Paused;
    assert!(matches!(data.iterate(), IterationResult::Error(_)));
    let (mut data, snapshots, commands) = consumer();
    snapshots.send(universe_of(1)).unwrap();
    drop(commands);
    assert!(matches!(data.iterate(), IterationResult::Error(_)));
}

#[test]
fn added_body_goes_to_the_worker_with_the_universe() {
    let (mut data, _snapshots, commands) = consumer();
    assert!(data.add_object(body(4)));
    assert!(data.add_object(body(5)));
    assert_eq!(data.universe.objects(), &[body(4), body(5)]);
    assert_eq!(*data.universe.object_mapped()[1].1, ObjectColor::FromMass);
    assert_eq!(kinds(&commands), vec!["universe 1", "universe 2"]);
    drop(commands);
    assert!(!data.add_object(body(6)));
    assert_eq!(data.universe.objects().len(), 3);
}

#[test]
fn pause_key_decides_mode_and_command() {
    assert!(matches!(UiState::Normal.pause_key(), (UiState::Paused, UpdaterCommand::Pause)));
    assert!(matches!(UiState::Paused.pause_key(), (UiState::Normal, UpdaterCommand::Unpause)));
    let editing = UiState::Edit(EditState::Input);
    assert!(matches!(editing.pause_key(), (UiState::Paused, UpdaterCommand::Pause)));
}

#[test]
fn edit_key_decides_mode_and_command() {
    let start = UiState::Edit(EditState::Mouse(MouseEditState::SetPoint));
    let (mode, command) = UiState::Normal.edit_key();
    assert_eq!(mode, start);
    assert!(matches!(command, UpdaterCommand::Pause));
    let (mode, command) = UiState::Paused.edit_key();
    assert_eq!(mode, start);
    assert!(matches!(command, UpdaterCommand::Pause));
    let busy = UiState::Edit(EditState::Mouse(MouseEditState::SetMass(Point::new(1, 1))));
    assert!(matches!(busy.edit_key(), (UiState::Normal, UpdaterCommand::Unpause)));
}

#[test]
fn a_snapshot_is_taken_and_owes_one_acknowledgement() {
    let (mut data, _snapshots, _commands) = consumer();
    let (result, owed) = data.accept_snapshot(Polled::Item(universe_of(3)));
    assert_eq!(result, IterationResult::Continue);
    assert!(matches!(owed, Some(UpdaterCommand::UniverseConsumed)));
    assert_eq!(data.universe.objects().len(), 3);
}

#[test]
fn an_empty_queue_owes_nothing() {
    let (mut data, _snapshots, _commands) = consumer();
    data.universe = universe_of(2);
    let (result, owed) = data.accept_snapshot(Polled::Empty);
    assert_eq!(result, IterationResult::Continue);
    assert!(owed.is_none());
    assert_eq!(data.universe.objects().len(), 2);
}

#[test]
fn a_closed_queue_is_reported_with_its_reason() {
    let (mut data, _snapshots, _commands) = consumer();
    let (result, owed) = data.accept_snapshot(Polled::Closed(String::from("gone")));
    assert_eq!(result, IterationResult::Error(String::from("gone")));
    assert!(owed.is_none());
}

#[test]
fn emptying_throws_snapshots_away_and_stops_at_the_end() {
    assert_eq!(UiData::discarded(Polled::Item(universe_of(2))), Discarded::Again);
    assert_eq!(UiData::discarded(Polled::Empty), Discarded::Emptied);
    assert_eq!(
        UiData::discarded(Polled::Closed(String::from("closed"))),
        Discarded::Broken(String::from("closed"))
    );
}

#[test]
fn the_command_for_the_worker_carries_the_universe_held() {
    let (mut data, _snapshots, _commands) = consumer();
    data.universe = universe_of(3);
    match data.universe_command() {
        UpdaterCommand::SetUniverse(universe) => {
            assert_eq!(universe.objects(), &[body(0), body(1), body(2)]);
        }
        other => panic!("not a universe: {:?}", other),
    }
    assert_eq!(data.universe.objects().len(), 3);
}

#[test]
fn a_standing_round_fails_when_a_queue_is_broken() {
    assert_eq!(UiData::standing_result(true, None), IterationResult::Continue);
    assert_eq!(
        UiData::standing_result(true, Some(String::from("closed"))),
        IterationResult::Error(String::from("closed"))
    );
    let gone = IterationResult::Error(String::from("the worker takes no commands"));
    assert_eq!(UiData::standing_result(false, None), gone);
    assert_eq!(UiData::standing_result(false, Some(String::from("closed"))), gone);
}

#[test]
fn a_running_round_fails_when_the_acknowledgement_is_not_taken() {
    assert_eq!(UiData::running_result(IterationResult::Continue, true), IterationResult::Continue);
    let closed = IterationResult::Error(String::from("closed"));
    assert_eq!(
        UiData::running_result(IterationResult::Error(String::from("closed")), true),
        closed
    );
    assert_eq!(
        UiData::running_result(IterationResult::Continue, false),
        IterationResult::Error(String::from("the worker takes no commands"))
    );
}

#[test]
fn standing_consumer_leaves_snapshots_alone_when_the_worker_is_gone() {
    let (mut data, snapshots, commands) = consumer();
    data.state = UiState::Paused;
    snapshots.send(universe_of(1)).unwrap();
    drop(commands);
    assert_eq!(
        data.iterate(),
        IterationResult::Error(String::from("the worker takes no commands"))
    );
    assert!(data.universe_recv.try_recv().is_ok());
}

#[test]
fn running_consumer_keeps_the_snapshot_when_the_worker_is_gone() {
    let (mut data, snapshots, commands) = consumer();
    snapshots.send(universe_of(4)).unwrap();
    drop(commands);
    assert_eq!(
        data.iterate(),
        IterationResult::Error(String::from("the worker takes no commands"))
    );
    assert_eq!(data.universe.objects().len(), 4);
}
