//! A holder for the state that the handlers of one owner work on.

use vstd::prelude::*;

verus! {

/// Holds one value of state and hands it out for reading and for changing.
///
/// The holder has a single owner and cannot be copied.  Whoever changes the
/// state needs the holder itself for changing, so a reader never sees a
/// change half done.
pub struct SharedState<T> {
    inner: T,
}

impl<T> View for SharedState<T> {
    type V = T;

    closed spec fn view(&self) -> T {
        self.inner
    }
}

impl<T> SharedState<T> {
    /// A holder of `var`.
    pub fn new(var: T) -> (state: SharedState<T>)
        ensures
            state@ == var,
    {
        SharedState { inner: var }
    }

    /// The state, for reading.
    pub fn get_state(&self) -> (state: &T)
        ensures
            *state == self@,
    {
        &self.inner
    }

    /// The state, for changing in place: what the holder holds afterwards is
    /// what the caller has made of it.
    pub fn get_state_mut(&mut self) -> (state: &mut T)
        ensures
            *state == old(self)@,
            final(self)@ == *final(state),
    {
        &mut self.inner
    }

    /// Puts `new_state` in the place of the state held.
    pub fn set_state(&mut self, new_state: T)
        ensures
            final(self)@ == new_state,
    {
        self.inner = new_state;
    }
}

} // verus!
