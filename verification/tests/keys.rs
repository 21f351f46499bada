use gravity_sim::keys::BackSpaceState;
use gravity_sim::sharedstate::SharedState;

#[test]
fn backspace_cycles_through_three_states() {
    let mut state = BackSpaceState::NotPressed;
    state.next_state();
    assert_eq!(state, BackSpaceState::PressedOnce);
    state.next_state();
    assert_eq!(state, BackSpaceState::PressedTwice);
    state.next_state();
    assert_eq!(state, BackSpaceState::NotPressed);
}

#[test]
fn only_the_second_press_resets() {
    assert!(!BackSpaceState::NotPressed.should_reset());
    assert!(!BackSpaceState::PressedOnce.should_reset());
    assert!(BackSpaceState::PressedTwice.should_reset());
}

#[test]
fn holder_hands_out_what_it_was_given() {
    let state = SharedState::new(41u32);
    assert_eq!(*state.get_state(), 41);
}

#[test]
fn holder_takes_a_new_state() {
    let mut state = SharedState::new(String::from("old"));
    state.set_state(String::from("new"));
    assert_eq!(state.get_state().as_str(), "new");
}

#[test]
fn holder_lets_the_state_be_changed_in_place() {
    let mut state = SharedState::new(vec![1, 2]);
    state.get_state_mut().push(3);
    *state.get_state_mut().first_mut().unwrap() = 7;
    assert_eq!(*state.get_state(), vec![7, 2, 3]);
}
