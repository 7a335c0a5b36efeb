//! The JSON text of the answers. A card is written as an object with the
//! fields `word` and `meaning`, in that order, a list of cards as an array of
//! such objects, and an error message as a string; nothing is written
//! between the parts. How a string is quoted and escaped is left to
//! `serde_json`.

use vstd::prelude::*;
use crate::api::{ResponseBody, ResponseBodyView};
use crate::word::{WordEntry, WordEntryView};

verus! {

/// The JSON string that `serde_json` writes for the characters `text`.
pub uninterp spec fn json_string_text(text: Seq<char>) -> Seq<char>;

/// Calls `serde_json::to_string` on a string slice. What is taken on trust:
/// the call returns the same text whenever it is given the same characters.
/// For a string slice it writes the quoted and escaped characters into a
/// buffer in memory and has no way to fail.
#[verifier::external_body]
fn encode_string(text: &str) -> (encoded: String)
    ensures
        encoded@ == json_string_text(text@),
{
    serde_json::to_string(text).unwrap_or_default()
}

/// The object for a card, from the JSON strings of its word and its meaning.
pub open spec fn word_object_text(word_json: Seq<char>, meaning_json: Seq<char>) -> Seq<char> {
    "{\"word\":"@ + word_json + ",\"meaning\":"@ + meaning_json + "}"@
}

/// The items one after another, with a comma between each two.
pub open spec fn comma_separated(items: Seq<Seq<char>>) -> Seq<char>
    decreases items.len(),
{
    if items.len() == 0 {
        Seq::empty()
    } else if items.len() == 1 {
        items[0]
    } else {
        comma_separated(items.drop_last()) + ","@ + items.last()
    }
}

/// The array that holds the items in their order.
pub open spec fn array_text(items: Seq<Seq<char>>) -> Seq<char> {
    "["@ + comma_separated(items) + "]"@
}

/// The JSON text of a card.
pub open spec fn entry_json(entry: WordEntryView) -> Seq<char> {
    word_object_text(json_string_text(entry.word), json_string_text(entry.meaning))
}

/// The JSON text of a list of cards.
pub open spec fn entries_json(entries: Seq<WordEntryView>) -> Seq<char> {
    array_text(entries.map_values(|entry: WordEntryView| entry_json(entry)))
}

/// The JSON text of a body. An empty body has no text.
pub open spec fn body_json(body: ResponseBodyView) -> Seq<char> {
    match body {
        ResponseBodyView::Empty => Seq::empty(),
        ResponseBodyView::Word(entry) => entry_json(entry),
        ResponseBodyView::Words(entries) => entries_json(entries),
        ResponseBodyView::Error(message) => json_string_text(message),
    }
}

/// The array for a list has one object for each card of the list, at the
/// card's place, and that object is the JSON text of the card.
pub proof fn lemma_listing_has_every_entry(entries: Seq<WordEntryView>)
    ensures
        entries_json(entries) == array_text(
            Seq::new(entries.len(), |i: int| entry_json(entries[i])),
        ),
{
    assert(entries.map_values(|entry: WordEntryView| entry_json(entry)) =~= Seq::new(
        entries.len(),
        |i: int| entry_json(entries[i]),
    ));
}

/// Writes the object for a card from the JSON strings of its word and its
/// meaning.
pub fn word_object(word_json: &str, meaning_json: &str) -> (text: String)
    ensures
        text@ == word_object_text(word_json@, meaning_json@),
{
    let mut text = String::from_str("{\"word\":");
    text.append(word_json);
    text.append(",\"meaning\":");
    text.append(meaning_json);
    text.append("}");
    text
}

/// Writes the array that holds `items` in their order.
pub fn array_of(items: &Vec<String>) -> (text: String)
    ensures
        text@ == array_text(items.deep_view()),
{
    let mut text = String::from_str("[");
    let mut i: usize = 0;
    while i < items.len()
        invariant
            i <= items.len(),
            text@ == "["@ + comma_separated(items.deep_view().take(i as int)),
        decreases items.len() - i,
    {
        if i > 0 {
            text.append(",");
        }
        text.append(items[i].as_str());
        proof {
            let all = items.deep_view();
            assert(all.take(i + 1).drop_last() =~= all.take(i as int));
            assert(all.take(i + 1).last() == items[i as int]@);
        }
        i += 1;
    }
    proof {
        assert(items.deep_view().take(items.len() as int) =~= items.deep_view());
    }
    text.append("]");
    text
}

/// Writes a card as JSON.
pub fn entry_to_json(entry: &WordEntry) -> (text: String)
    ensures
        text@ == entry_json(entry@),
{
    let word_json = encode_string(entry.word());
    let meaning_json = encode_string(entry.meaning());
    word_object(word_json.as_str(), meaning_json.as_str())
}

/// Writes a list of cards as JSON, in the order of the list.
pub fn entries_to_json(entries: &Vec<WordEntry>) -> (text: String)
    ensures
        text@ == entries_json(entries.deep_view()),
{
    let mut objects: Vec<String> = Vec::new();
    let mut i: usize = 0;
    while i < entries.len()
        invariant
            i <= entries.len(),
            objects.len() == i,
            forall|j: int| 0 <= j < i ==> objects[j]@ == entry_json(entries[j]@),
        decreases entries.len() - i,
    {
        objects.push(entry_to_json(&entries[i]));
        i += 1;
    }
    proof {
        assert(objects.deep_view() =~= entries.deep_view().map_values(
            |entry: WordEntryView| entry_json(entry),
        ));
    }
    array_of(&objects)
}

/// The media type of a body that has text.
pub const JSON_MEDIA_TYPE: &'static str = "application/json";

impl ResponseBody {
    /// The media type to announce for this body: JSON for every body but
    /// the empty one, which has none.
    pub fn media_type(&self) -> (media_type: Option<&'static str>)
        ensures
            match media_type {
                Some(name) => !(self@ is Empty) && name@ == "application/json"@,
                None => self@ is Empty,
            },
    {
        match self {
            ResponseBody::Empty => None,
            _ => Some(JSON_MEDIA_TYPE),
        }
    }

    /// The text to send for this body.
    pub fn to_json(&self) -> (text: String)
        ensures
            text@ == body_json(self@),
    {
        match self {
            ResponseBody::Empty => String::new(),
            ResponseBody::Word(entry) => entry_to_json(entry),
            ResponseBody::Words(entries) => entries_to_json(entries),
            ResponseBody::Error(message) => encode_string(message.as_str()),
        }
    }
}

} // verus!
