//! A deck of vocabulary flashcards that is shown one card at a time.
//!
//! The deck is an ordered list of word/meaning pairs that never changes once
//! it has been built. A cycle index points at the card that is current and
//! moves round the deck, one card per step, back to the first card after the
//! last. The answers that a web service gives for the current card, for a
//! step and for the whole deck are computed here: their status, their body,
//! and the JSON text of the body.

pub mod error;
pub mod word;
pub mod cycle;
pub mod api;
pub mod json;
