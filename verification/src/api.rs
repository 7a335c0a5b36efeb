//! What the service answers: the status and the body for each request. The
//! text that is sent for a body is written in `json`.

use vstd::prelude::*;
use crate::cycle::{CycleIndex, CycleView};
use crate::error::RuntimeStateError;
use crate::word::{WordEntry, WordEntryView, WordList};

verus! {

/// The status of an answer that carries what was asked for.
pub const STATUS_OK: u16 = 200;

/// The status of an answer to a request that failed inside the service.
pub const STATUS_INTERNAL_SERVER_ERROR: u16 = 500;

/// The body of an answer.
#[derive(Debug, PartialEq, Eq)]
pub enum ResponseBody {
    /// Nothing.
    Empty,
    /// One card, sent as an object with the fields `word` and `meaning`.
    Word(WordEntry),
    /// Cards in order, sent as an array of such objects.
    Words(Vec<WordEntry>),
    /// An error message, sent as a string.
    Error(String),
}

/// What a body is, over the models of its parts.
pub enum ResponseBodyView {
    Empty,
    Word(WordEntryView),
    Words(Seq<WordEntryView>),
    Error(Seq<char>),
}

impl View for ResponseBody {
    type V = ResponseBodyView;

    open spec fn view(&self) -> ResponseBodyView {
        match self {
            ResponseBody::Empty => ResponseBodyView::Empty,
            ResponseBody::Word(entry) => ResponseBodyView::Word(entry@),
            ResponseBody::Words(entries) => ResponseBodyView::Words(entries.deep_view()),
            ResponseBody::Error(message) => ResponseBodyView::Error(message@),
        }
    }
}

/// An answer: its status and its body.
#[derive(Debug, PartialEq, Eq)]
pub struct ApiResponse {
    pub status: u16,
    pub body: ResponseBody,
}

/// What an answer is.
pub struct ApiResponseView {
    pub status: int,
    pub body: ResponseBodyView,
}

impl View for ApiResponse {
    type V = ApiResponseView;

    open spec fn view(&self) -> ApiResponseView {
        ApiResponseView { status: self.status as int, body: self.body@ }
    }
}

/// The answer that carries one card.
pub open spec fn word_found(entry: WordEntryView) -> ApiResponseView {
    ApiResponseView { status: 200, body: ResponseBodyView::Word(entry) }
}

/// The answer to a step that was taken: success, and nothing to show.
pub open spec fn step_taken() -> ApiResponseView {
    ApiResponseView { status: 200, body: ResponseBodyView::Empty }
}

/// The answer that carries a whole list.
pub open spec fn words_listed(words: Seq<WordEntryView>) -> ApiResponseView {
    ApiResponseView { status: 200, body: ResponseBodyView::Words(words) }
}

/// The answer to a request that failed with `err`.
pub open spec fn request_failed(err: RuntimeStateError) -> ApiResponseView {
    ApiResponseView { status: 500, body: ResponseBodyView::Error(err.message_text()) }
}

/// The answer to the request for the current card, given the card that was
/// found, if any.
pub open spec fn word_answer(found: Option<WordEntryView>) -> ApiResponseView {
    match found {
        Some(entry) => word_found(entry),
        None => request_failed(RuntimeStateError::Index),
    }
}

/// With an index that is valid for the list, the answer to the request for
/// the current card is status 200 with the card at the position.
pub proof fn lemma_valid_index_is_answered(words: Seq<WordEntryView>, cycle: CycleView)
    requires
        cycle.valid(),
        cycle.len == words.len(),
    ensures
        word_answer(cycle.current(words)) == word_found(words[cycle.index as int]),
{
}

/// The listing of a list has as many cards as the list, each at its place
/// and with the word and the meaning that it has in the list.
pub proof fn lemma_listing_keeps_order(words: Seq<WordEntryView>)
    ensures
        words_listed(words).status == 200,
        words_listed(words).body matches ResponseBodyView::Words(listed) && {
            &&& listed.len() == words.len()
            &&& forall|i: int| 0 <= i < words.len() ==> listed[i] == words[i]
        },
{
}

/// Answers a request that failed inside the service: status 500 and the
/// message of `err`. The service itself goes on.
pub fn error_response(err: RuntimeStateError) -> (response: ApiResponse)
    ensures
        response@ == request_failed(err),
{
    ApiResponse { status: STATUS_INTERNAL_SERVER_ERROR, body: ResponseBody::Error(err.message()) }
}

/// Answers the request for the current card: status 200 and a copy of the
/// card of `words` at which `cycle` stands. Where `cycle` points outside
/// `words`, which an index started on `words` never does, the answer is that
/// of `RuntimeStateError::Index`.
pub fn get_word(words: &WordList, cycle: &CycleIndex) -> (response: ApiResponse)
    ensures
        response@ == word_answer(cycle@.current(words@)),
{
    match cycle.current(words) {
        Ok(entry) => ApiResponse { status: STATUS_OK, body: ResponseBody::Word(entry) },
        Err(err) => error_response(err),
    }
}

/// Answers the request for the next card: moves `cycle` one step and
/// answers with status 200 and an empty body.
pub fn next_word(cycle: &mut CycleIndex) -> (response: ApiResponse)
    ensures
        final(cycle)@ == old(cycle)@.advance(),
        final(cycle)@.index == old(cycle)@.next_position(),
        final(cycle)@.valid(),
        response@ == step_taken(),
{
    cycle.advance();
    ApiResponse { status: STATUS_OK, body: ResponseBody::Empty }
}

/// Answers the request for the whole list: status 200 and copies of all
/// cards of `words`, in the order of the list.
pub fn get_words(words: &WordList) -> (response: ApiResponse)
    ensures
        response@ == words_listed(words@),
{
    ApiResponse { status: STATUS_OK, body: ResponseBody::Words(words.to_vec()) }
}

} // verus!
