//! The slot through which a native completion callback hands over its answer.

use vstd::prelude::*;

verus! {

/// A request that waits for the completion callback of the native store.
/// The slot takes one answer. A callback that fires again is turned away and
/// the first answer stays; a callback that never fires leaves the slot empty,
/// which the caller sees when it stops waiting.
pub struct Completion<T> {
    answer: Option<T>,
}

/// What a slot holds after an answer was offered to it: the answer, if the
/// slot was empty, else what it held before.
pub open spec fn offered<T>(before: Option<T>, answer: T) -> Option<T> {
    match before {
        None => Some(answer),
        Some(_) => before,
    }
}

impl<T> Completion<T> {
    /// The answer that the slot holds, if the callback has fired.
    pub closed spec fn answer(&self) -> Option<T> {
        self.answer
    }

    /// A slot that waits for its answer.
    pub fn new() -> (completion: Completion<T>)
        ensures
            completion.answer() is None,
    {
        Completion { answer: None }
    }

    /// Offers an answer to the slot. The first answer is accepted; every later
    /// one is rejected and dropped.
    pub fn resolve(&mut self, answer: T) -> (accepted: bool)
        ensures
            accepted == old(self).answer() is None,
            final(self).answer() == offered(old(self).answer(), answer),
    {
        if self.answer.is_none() {
            self.answer = Some(answer);
            true
        } else {
            false
        }
    }

    /// Whether the callback has fired.
    pub fn is_resolved(&self) -> (resolved: bool)
        ensures
            resolved == self.answer() is Some,
    {
        self.answer.is_some()
    }

    /// Stops waiting: hands out the answer, or `None` where the callback never
    /// fired.
    pub fn finish(self) -> (answer: Option<T>)
        ensures
            answer == self.answer(),
    {
        self.answer
    }
}

/// A request is resolved once: of any two answers offered to a waiting slot
/// in a row, the first is the one it holds.
pub proof fn lemma_resolved_once<T>(first: T, second: T)
    ensures
        offered(offered(None, first), second) == Some(first),
{
}

/// An answer, once accepted, stays whatever is offered later.
pub proof fn lemma_answer_stays<T>(held: T, later: T)
    ensures
        offered(Some(held), later) == Some(held),
{
}

} // verus!
