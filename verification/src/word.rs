//! Flashcards and the ordered list that holds them.

use vstd::prelude::*;
use crate::error::RuntimeStateError;

verus! {

/// What a flashcard is: its word and its meaning, each a sequence of
/// characters.
pub struct WordEntryView {
    pub word: Seq<char>,
    pub meaning: Seq<char>,
}

/// One vocabulary flashcard: a word paired with its meaning. Nothing changes
/// it once it is made, and two cards may carry the same word.
#[derive(Debug)]
pub struct WordEntry {
    word: String,
    meaning: String,
}

impl View for WordEntry {
    type V = WordEntryView;

    closed spec fn view(&self) -> WordEntryView {
        WordEntryView { word: self.word@, meaning: self.meaning@ }
    }
}

impl DeepView for WordEntry {
    type V = WordEntryView;

    open spec fn deep_view(&self) -> WordEntryView {
        self@
    }
}

impl WordEntry {
    /// Makes the card for `word` with `meaning`.
    pub fn new(word: String, meaning: String) -> (entry: WordEntry)
        ensures
            entry@ == (WordEntryView { word: word@, meaning: meaning@ }),
    {
        WordEntry { word, meaning }
    }

    /// The word on the card.
    pub fn word(&self) -> (text: &str)
        ensures
            text@ == self@.word,
    {
        self.word.as_str()
    }

    /// The meaning on the card.
    pub fn meaning(&self) -> (text: &str)
        ensures
            text@ == self@.meaning,
    {
        self.meaning.as_str()
    }
}

impl Clone for WordEntry {
    /// A second card with the same word and meaning.
    fn clone(&self) -> (copy: WordEntry)
        ensures
            copy == *self,
    {
        WordEntry { word: self.word.clone(), meaning: self.meaning.clone() }
    }
}

impl PartialEq for WordEntry {
    /// Two cards are equal when they carry the same word and the same
    /// meaning.
    fn eq(&self, other: &WordEntry) -> (same: bool) {
        self.word == other.word && self.meaning == other.meaning
    }
}

impl vstd::std_specs::cmp::PartialEqSpecImpl for WordEntry {
    open spec fn obeys_eq_spec() -> bool {
        true
    }

    open spec fn eq_spec(&self, other: &WordEntry) -> bool {
        self@ == other@
    }
}

impl Eq for WordEntry {}

/// The word store: flashcards in the order in which they were given. It is
/// built once and only read afterwards. It may be empty.
#[derive(Debug)]
pub struct WordList {
    entries: Vec<WordEntry>,
}

impl View for WordList {
    type V = Seq<WordEntryView>;

    closed spec fn view(&self) -> Seq<WordEntryView> {
        self.entries.deep_view()
    }
}

impl WordList {
    /// The list that holds `entries`, in their order.
    pub fn new(entries: Vec<WordEntry>) -> (list: WordList)
        ensures
            list@ == entries.deep_view(),
    {
        WordList { entries }
    }

    /// How many cards the list holds.
    pub fn len(&self) -> (count: usize)
        ensures
            count == self@.len(),
    {
        self.entries.len()
    }

    /// Whether the list holds no card.
    pub fn is_empty(&self) -> (empty: bool)
        ensures
            empty == (self@.len() == 0),
    {
        self.entries.len() == 0
    }

    /// A copy of the card at `index`, or `RuntimeStateError::Index` where
    /// `index` does not point into the list.
    pub fn entry_at(&self, index: usize) -> (found: Result<WordEntry, RuntimeStateError>)
        ensures
            match found {
                Ok(entry) => index < self@.len() && entry@ == self@[index as int],
                Err(err) => index >= self@.len() && err == RuntimeStateError::Index,
            },
    {
        if index < self.entries.len() {
            Ok(self.entries[index].clone())
        } else {
            Err(RuntimeStateError::Index)
        }
    }

    /// Copies of all cards, in the order of the list.
    pub fn to_vec(&self) -> (copies: Vec<WordEntry>)
        ensures
            copies.deep_view() == self@,
    {
        let copies = self.entries.clone();
        assert(copies.deep_view() =~= self.entries.deep_view());
        copies
    }
}

} // verus!
