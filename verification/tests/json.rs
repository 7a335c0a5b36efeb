use flashcards::api::{error_response, get_word, get_words, next_word, ResponseBody};
use flashcards::cycle::CycleIndex;
use flashcards::error::RuntimeStateError;
use flashcards::json::{array_of, entries_to_json, entry_to_json, word_object, JSON_MEDIA_TYPE};
use flashcards::word::{WordEntry, WordList};

fn card(word: &str, meaning: &str) -> WordEntry {
    WordEntry::new(word.to_string(), meaning.to_string())
}

fn two_cards() -> Vec<WordEntry> {
    vec![card("test", "测试"), card("example", "例子")]
}

fn start_on(words: &WordList) -> CycleIndex {
    match CycleIndex::new(words) {
        Ok(cycle) => cycle,
        Err(err) => panic!("the list was refused: {:?}", err),
    }
}

fn texts(items: &[&str]) -> Vec<String> {
    items.iter().map(|item| item.to_string()).collect()
}

#[test]
fn word_object_puts_word_before_meaning() {
    assert_eq!(word_object("\"a\"", "\"b\""), "{\"word\":\"a\",\"meaning\":\"b\"}");
    assert_eq!(word_object("1", "2"), "{\"word\":1,\"meaning\":2}");
    assert_eq!(word_object("", ""), "{\"word\":,\"meaning\":}");
}

#[test]
fn array_of_nothing_is_a_pair_of_brackets() {
    assert_eq!(array_of(&Vec::new()), "[]");
}

#[test]
fn array_of_one_item_has_no_comma() {
    assert_eq!(array_of(&texts(&["x"])), "[x]");
}

#[test]
fn array_of_several_items_separates_them_by_commas() {
    assert_eq!(array_of(&texts(&["a", "b"])), "[a,b]");
    assert_eq!(array_of(&texts(&["1", "22", "333", "4444"])), "[1,22,333,4444]");
}

#[test]
fn array_of_keeps_empty_items() {
    assert_eq!(array_of(&texts(&["", "", ""])), "[,,]");
}

#[test]
fn entry_is_written_as_an_object() {
    assert_eq!(entry_to_json(&card("test", "测试")), "{\"word\":\"test\",\"meaning\":\"测试\"}");
    assert_eq!(
        entry_to_json(&card("example", "例子")),
        "{\"word\":\"example\",\"meaning\":\"例子\"}"
    );
}

#[test]
fn entry_with_empty_strings_is_written_with_empty_strings() {
    assert_eq!(entry_to_json(&card("", "")), "{\"word\":\"\",\"meaning\":\"\"}");
}

#[test]
fn quotes_backslashes_and_control_characters_are_escaped() {
    assert_eq!(
        entry_to_json(&card("say \"hi\"", "back\\slash")),
        "{\"word\":\"say \\\"hi\\\"\",\"meaning\":\"back\\\\slash\"}"
    );
    assert_eq!(
        entry_to_json(&card("line\nbreak\ttab", "\u{1}\u{1f}")),
        "{\"word\":\"line\\nbreak\\ttab\",\"meaning\":\"\\u0001\\u001f\"}"
    );
}

#[test]
fn list_is_written_as_an_array_in_order() {
    assert_eq!(
        entries_to_json(&two_cards()),
        "[{\"word\":\"test\",\"meaning\":\"测试\"},{\"word\":\"example\",\"meaning\":\"例子\"}]"
    );
}

#[test]
fn empty_list_is_written_as_an_empty_array() {
    assert_eq!(entries_to_json(&Vec::new()), "[]");
}

#[test]
fn message_is_written_as_a_string() {
    assert_eq!(
        ResponseBody::Error("Word index out of bounds".to_string()).to_json(),
        "\"Word index out of bounds\""
    );
    assert_eq!(ResponseBody::Error(String::new()).to_json(), "\"\"");
    assert_eq!(
        ResponseBody::Error("a \"b\" \\ c\n".to_string()).to_json(),
        "\"a \\\"b\\\" \\\\ c\\n\""
    );
}

#[test]
fn empty_body_has_no_text() {
    assert_eq!(ResponseBody::Empty.to_json(), "");
}

#[test]
fn empty_body_has_no_media_type() {
    assert_eq!(ResponseBody::Empty.media_type(), None);
}

#[test]
fn every_other_body_is_json() {
    assert_eq!(JSON_MEDIA_TYPE, "application/json");
    assert_eq!(ResponseBody::Word(card("a", "b")).media_type(), Some("application/json"));
    assert_eq!(ResponseBody::Words(Vec::new()).media_type(), Some("application/json"));
    assert_eq!(ResponseBody::Error(String::new()).media_type(), Some("application/json"));
}

#[test]
fn body_text_follows_the_kind_of_body() {
    assert_eq!(
        ResponseBody::Word(card("test", "测试")).to_json(),
        "{\"word\":\"test\",\"meaning\":\"测试\"}"
    );
    assert_eq!(
        ResponseBody::Words(vec![card("a", "b")]).to_json(),
        "[{\"word\":\"a\",\"meaning\":\"b\"}]"
    );
    assert_eq!(ResponseBody::Error("broken".to_string()).to_json(), "\"broken\"");
}

#[test]
fn two_entry_list_cycles_through_both_words_as_json() {
    let words = WordList::new(two_cards());
    let mut cycle = start_on(&words);

    let first = get_word(&words, &cycle);
    assert_eq!(first.status, 200);
    assert_eq!(first.body.to_json(), "{\"word\":\"test\",\"meaning\":\"测试\"}");

    let step = next_word(&mut cycle);
    assert_eq!(step.status, 200);
    assert_eq!(step.body.to_json(), "");

    let second = get_word(&words, &cycle);
    assert_eq!(second.status, 200);
    assert_eq!(second.body.to_json(), "{\"word\":\"example\",\"meaning\":\"例子\"}");

    let wrap = next_word(&mut cycle);
    assert_eq!(wrap.status, 200);

    let again = get_word(&words, &cycle);
    assert_eq!(again.status, 200);
    assert_eq!(again.body.to_json(), "{\"word\":\"test\",\"meaning\":\"测试\"}");
}

#[test]
fn whole_list_is_answered_as_a_json_array() {
    let list = WordList::new(two_cards());
    let response = get_words(&list);
    assert_eq!(response.status, 200);
    assert_eq!(
        response.body.to_json(),
        "[{\"word\":\"test\",\"meaning\":\"测试\"},{\"word\":\"example\",\"meaning\":\"例子\"}]"
    );
}

#[test]
fn failure_is_answered_with_a_json_string() {
    let response = error_response(RuntimeStateError::Lock);
    assert_eq!(response.status, 500);
    assert_eq!(response.body.to_json(), "\"Failed to access the word state\"");
}

#[test]
fn listing_reads_back_as_the_entries_of_the_list() {
    let entries = vec![
        card("plain", "simple"),
        card("quote\"d", "back\\slash"),
        card("tab\there", "new\nline"),
        card("测试", "例子 \u{1F600}"),
        card("", "\u{0}\u{7f}"),
    ];
    let text = get_words(&WordList::new(entries.clone())).body.to_json();
    let parsed: serde_json::Value = match serde_json::from_str(&text) {
        Ok(value) => value,
        Err(err) => panic!("the listing is not JSON: {}", err),
    };
    let items = match parsed.as_array() {
        Some(items) => items,
        None => panic!("the listing is not an array"),
    };
    assert_eq!(items.len(), entries.len());
    let mut i: usize = 0;
    while i < entries.len() {
        let object = match items[i].as_object() {
            Some(object) => object,
            None => panic!("item {} is not an object", i),
        };
        assert_eq!(object.len(), 2);
        assert_eq!(object.get("word").and_then(|v| v.as_str()), Some(entries[i].word()));
        assert_eq!(object.get("meaning").and_then(|v| v.as_str()), Some(entries[i].meaning()));
        i += 1;
    }
}
