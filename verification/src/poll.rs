//! The three-way outcome every computation step produces.

use vstd::prelude::*;

verus! {

/// Outcome of one attempt to make progress without blocking.
///
/// `Pending` is a progress signal, not an error: the step could not finish
/// yet and the caller should try again after the awaited source wakes it.
/// `Ready` and `Failed` are terminal: a task that produced one of them must
/// not be advanced again.
pub enum PollResult<V, E> {
    Pending,
    Ready(V),
    Failed(E),
}

impl<V, E> PollResult<V, E> {
    /// True for the progress signal, false for both terminal outcomes.
    pub fn is_pending(&self) -> (r: bool)
        ensures
            r == (*self is Pending),
    {
        match self {
            PollResult::Pending => true,
            _ => false,
        }
    }

    /// True exactly for the terminal outcomes.
    pub fn is_terminal(&self) -> (r: bool)
        ensures
            r == !(*self is Pending),
    {
        match self {
            PollResult::Pending => false,
            _ => true,
        }
    }
}

} // verus!
