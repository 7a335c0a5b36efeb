//! The cycle index: which card of a word list is current, and the step that
//! moves to the next card, round the list.
//!
//! The list itself is not held here. It is only ever read, so it can be
//! shared freely, while the index is the one value that requests change and
//! that a caller has to guard.

use vstd::prelude::*;
use vstd::arithmetic::div_mod::{
    lemma_add_mod_noop_right,
    lemma_mod_bound,
    lemma_mod_multiples_vanish,
    lemma_small_mod,
};
use crate::error::{RuntimeStateError, StartupError};
use crate::word::{WordEntry, WordEntryView, WordList};

verus! {

/// What a cycle index is: the length of the list that it runs through and
/// the position of the current card.
pub struct CycleView {
    pub len: nat,
    pub index: nat,
}

impl CycleView {
    /// The position lies inside the list, so the list is not empty.
    pub open spec fn valid(self) -> bool {
        self.index < self.len
    }

    /// The index at the first card of a list of `len` cards.
    pub open spec fn start(len: nat) -> CycleView {
        CycleView { len, index: 0 }
    }

    /// The card of `words` at the position, if the position lies inside
    /// `words`.
    pub open spec fn current(self, words: Seq<WordEntryView>) -> Option<WordEntryView> {
        if self.index < words.len() {
            Some(words[self.index as int])
        } else {
            None
        }
    }

    /// The index after one step: one further, and back at the first card
    /// after the last.
    pub open spec fn advance(self) -> CycleView {
        CycleView { len: self.len, index: (self.index + 1) % self.len }
    }

    /// The position after one step, told by cases: the first card after the
    /// last, the following card otherwise.
    pub open spec fn next_position(self) -> nat {
        if self.index + 1 == self.len {
            0
        } else {
            self.index + 1
        }
    }

    /// The index after `steps` steps.
    pub open spec fn advance_times(self, steps: nat) -> CycleView
        decreases steps,
    {
        if steps == 0 {
            self
        } else {
            self.advance_times((steps - 1) as nat).advance()
        }
    }
}

/// Right after the start the current card is the first card of the list.
pub proof fn lemma_start_shows_first(words: Seq<WordEntryView>)
    requires
        words.len() > 0,
    ensures
        CycleView::start(words.len()).valid(),
        CycleView::start(words.len()).current(words) == Some(words[0]),
{
}

/// A valid index always finds a card in the list that it was started on.
pub proof fn lemma_valid_index_finds_entry(state: CycleView, words: Seq<WordEntryView>)
    requires
        state.valid(),
        state.len == words.len(),
    ensures
        state.current(words) == Some(words[state.index as int]),
{
}

/// A step keeps the length and leaves the position inside the list: it is
/// one further, or at the first card where it was at the last.
pub proof fn lemma_advance_stays_valid(state: CycleView)
    requires
        state.valid(),
    ensures
        state.advance().valid(),
        state.advance().len == state.len,
        state.advance().index == state.next_position(),
{
    let count = state.len as int;
    lemma_mod_bound((state.index + 1) as int, count);
    if state.index + 1 < count {
        lemma_small_mod((state.index + 1) as nat, count as nat);
    } else {
        lemma_mod_multiples_vanish(1, 0, count);
        lemma_small_mod(0, count as nat);
    }
}

/// After any number of steps the length is the same and the position is the
/// starting position plus the number of steps, modulo the length.
pub proof fn lemma_advance_times(state: CycleView, steps: nat)
    requires
        state.valid(),
    ensures
        state.advance_times(steps).valid(),
        state.advance_times(steps).len == state.len,
        state.advance_times(steps).index == (state.index + steps) % state.len,
    decreases steps,
{
    let count = state.len as int;
    if steps == 0 {
        lemma_small_mod(state.index, count as nat);
    } else {
        let before = state.advance_times((steps - 1) as nat);
        lemma_advance_times(state, (steps - 1) as nat);
        lemma_advance_stays_valid(before);
        lemma_add_mod_noop_right(1, (state.index + steps - 1) as int, count);
    }
}

/// After `steps` steps from the start the current card is the one at the
/// number of steps modulo the length of the list.
pub proof fn lemma_current_after_steps(words: Seq<WordEntryView>, steps: nat)
    requires
        words.len() > 0,
    ensures
        CycleView::start(words.len()).advance_times(steps).current(words) == Some(
            words[(steps % words.len()) as int],
        ),
{
    lemma_advance_times(CycleView::start(words.len()), steps);
}

/// Round-robin closure: as many steps as the list has cards lead back to the
/// index from which they started.
pub proof fn lemma_full_round_returns(state: CycleView)
    requires
        state.valid(),
    ensures
        state.advance_times(state.len) == state,
{
    lemma_whole_rounds_return(state, 1);
}

/// Any number of whole rounds leads back to the starting index. So where the
/// steps of several callers are taken one at a time, in whatever order, and
/// their number is a multiple of the length of the list, the index ends
/// where it began: every step has counted.
pub proof fn lemma_whole_rounds_return(state: CycleView, rounds: nat)
    requires
        state.valid(),
    ensures
        state.advance_times(rounds * state.len) == state,
{
    let count = state.len as int;
    let steps = rounds * state.len;
    lemma_advance_times(state, steps);
    assert(state.index + steps == count * rounds + state.index) by (nonlinear_arith)
        requires
            steps == rounds * state.len,
            count == state.len,
    ;
    lemma_mod_multiples_vanish(rounds as int, state.index as int, count);
    lemma_small_mod(state.index, count as nat);
}

/// The pointer to the current card of a word list. It is made for a list
/// that is not empty, and its position always lies inside that list.
#[derive(Debug)]
pub struct CycleIndex {
    index: usize,
    len: usize,
}

impl View for CycleIndex {
    type V = CycleView;

    closed spec fn view(&self) -> CycleView {
        CycleView { len: self.len as nat, index: self.index as nat }
    }
}

impl CycleIndex {
    #[verifier::type_invariant]
    spec fn position_in_list(self) -> bool {
        self.index < self.len
    }

    /// Starts at the first card of `words`. An empty list is refused with
    /// `StartupError::Empty`: it has no current card.
    pub fn new(words: &WordList) -> (started: Result<CycleIndex, StartupError>)
        ensures
            match started {
                Ok(cycle) => words@.len() > 0 && cycle@ == CycleView::start(words@.len()),
                Err(err) => words@.len() == 0 && err == StartupError::Empty,
            },
    {
        let len: usize = words.len();
        if len == 0 {
            Err(StartupError::Empty)
        } else {
            Ok(CycleIndex { index: 0, len })
        }
    }

    /// The position of the current card.
    pub fn position(&self) -> (position: usize)
        ensures
            self@.valid(),
            position == self@.index,
    {
        proof {
            use_type_invariant(self);
        }
        self.index
    }

    /// The length of the list that the index was started on.
    pub fn len(&self) -> (len: usize)
        ensures
            self@.valid(),
            len == self@.len,
    {
        proof {
            use_type_invariant(self);
        }
        self.len
    }

    /// A copy of the card of `words` at the position. With the list that the
    /// index was started on this always succeeds; with a shorter list that
    /// the position lies outside of, the result is
    /// `RuntimeStateError::Index`.
    pub fn current(&self, words: &WordList) -> (found: Result<WordEntry, RuntimeStateError>)
        ensures
            self@.valid(),
            match found {
                Ok(entry) => self@.current(words@) == Some(entry@),
                Err(err) => self@.current(words@) is None && err == RuntimeStateError::Index,
            },
            self@.len == words@.len() ==> found is Ok,
    {
        proof {
            use_type_invariant(self);
        }
        words.entry_at(self.index)
    }

    /// Moves to the next card, and from the last card to the first.
    pub fn advance(&mut self)
        ensures
            old(self)@.valid(),
            final(self)@.valid(),
            final(self)@ == old(self)@.advance(),
            final(self)@.index == old(self)@.next_position(),
    {
        proof {
            use_type_invariant(&*self);
            lemma_advance_stays_valid(self@);
        }
        self.index = (self.index + 1) % self.len;
    }
}

} // verus!
