use anki_connect::client::{
    after_deck, deck_outcome, note_outcome, settle_reply, status_error, NoteId, Reply, Violation,
    ENDPOINT,
};
use anki_connect::request::{
    add_note_request, create_deck_request, encode_request, Action, DuplicateScope, Request,
    CLOZE_MODEL, DECK, VERSION,
};

fn parse(r: &Request) -> serde_json::Value {
    serde_json::from_str(&encode_request(r)).expect("the request is valid JSON")
}

fn reply_with_result(n: u64) -> Reply {
    Reply { result: Some(n), error: None }
}

fn reply_with_error(e: &str) -> Reply {
    Reply { result: None, error: Some(e.to_string()) }
}

#[test]
fn create_deck_request_names_the_deck() {
    let r = create_deck_request();
    assert_eq!(r.action(), Action::CreateDeck);
    assert_eq!(
        encode_request(&r),
        "{\"action\":\"createDeck\",\"version\":6,\"params\":{\"deck\":\"Obsidian\"}}"
    );
    let v = parse(&r);
    assert_eq!(v["params"]["deck"], DECK);
    assert_eq!(v["version"], VERSION as u64);
}

#[test]
fn add_note_request_exact_text() {
    let r = add_note_request("a".to_string(), vec!["t".to_string()]);
    assert_eq!(
        encode_request(&r),
        "{\"action\":\"addNote\",\"version\":6,\"params\":{\"note\":{\"deckName\":\"Obsidian\",\
         \"modelName\":\"Cloze\",\"fields\":{\"Text\":\"a\",\"Back Extra\":\"\"},\
         \"options\":{\"allowDuplicate\":false,\"duplicateScope\":\"deck\"},\"tags\":[\"t\"]}}}"
    );
}

#[test]
fn add_note_request_round_trips_field_names() {
    let r = add_note_request("What is {{c1::Rust}}?".to_string(), vec!["auto".to_string()]);
    assert_eq!(r.action(), Action::AddNote);
    let v = parse(&r);
    assert_eq!(v["action"], "addNote");
    assert_eq!(v["version"], 6);
    let note = &v["params"]["note"];
    assert_eq!(note["deckName"], "Obsidian");
    assert_eq!(note["modelName"], CLOZE_MODEL);
    assert_eq!(note["fields"]["Text"], "What is {{c1::Rust}}?");
    assert_eq!(note["fields"]["Back Extra"], "");
    assert_eq!(note["options"]["allowDuplicate"], false);
    assert_eq!(note["options"]["duplicateScope"], "deck");
    assert_eq!(note["tags"], serde_json::Value::Array(vec!["auto".into()]));
    let keys: Vec<&String> = note.as_object().unwrap().keys().collect();
    assert_eq!(keys.len(), 5);
}

#[test]
fn empty_tags_are_an_empty_array() {
    let r = add_note_request("x".to_string(), Vec::new());
    let text = encode_request(&r);
    assert!(text.contains("\"tags\":[]"));
    let v = parse(&r);
    assert_eq!(v["params"]["note"]["tags"], serde_json::Value::Array(Vec::new()));
}

#[test]
fn several_tags_keep_their_order() {
    let tags = vec!["b".to_string(), "a".to_string(), "c".to_string()];
    let v = parse(&add_note_request("x".to_string(), tags));
    let got: Vec<&str> = v["params"]["note"]["tags"]
        .as_array()
        .unwrap()
        .iter()
        .map(|t| t.as_str().unwrap())
        .collect();
    assert_eq!(got, vec!["b", "a", "c"]);
}

#[test]
fn text_with_special_characters_round_trips() {
    let text = "quote \" backslash \\ newline \n tab \t bell \u{7} ü 🦀 {{c1::x}}";
    let r = add_note_request(text.to_string(), vec!["a \"b\"".to_string()]);
    let v = parse(&r);
    assert_eq!(v["params"]["note"]["fields"]["Text"], text);
    assert_eq!(v["params"]["note"]["tags"][0], "a \"b\"");
    assert!(encode_request(&r).contains("bell \\u0007 "));
    assert!(encode_request(&r).contains("\\\" backslash \\\\ newline \\n tab \\t"));
}

#[test]
fn note_options_forbid_duplicates_in_deck() {
    match add_note_request("x".to_string(), Vec::new()) {
        Request::AddNote(a) => {
            assert!(!a.note.options.allow_duplicate);
            assert_eq!(a.note.options.duplicate_scope, DuplicateScope::Deck);
            assert_eq!(a.note.deck_name, "Obsidian");
            assert_eq!(a.note.fields.len(), 2);
            assert_eq!(a.note.fields[0], ("Text".to_string(), "x".to_string()));
            assert_eq!(a.note.fields[1], ("Back Extra".to_string(), String::new()));
        }
        Request::CreateDeck(_) => panic!("expected an addNote request"),
    }
}

#[test]
fn settle_reply_reads_result_and_error() {
    assert_eq!(settle_reply(reply_with_result(7)), Ok(Ok(7)));
    assert_eq!(settle_reply(reply_with_error("bad")), Ok(Err("bad".to_string())));
}

#[test]
fn settle_reply_reports_violations() {
    let both = Reply { result: Some(1), error: Some("e".to_string()) };
    assert_eq!(settle_reply(both), Err(Violation::BothResultAndError));
    let neither = Reply { result: None, error: None };
    assert_eq!(settle_reply(neither), Err(Violation::NeitherResultNorError));
}

#[test]
fn status_error_embeds_the_status() {
    assert_eq!(status_error("404 Not Found"), "Error: Status: 404 Not Found");
}

#[test]
fn deck_created_is_success() {
    let r = settle_reply(reply_with_result(1651445861967)).unwrap();
    assert_eq!(deck_outcome(r), Ok(()));
}

#[test]
fn deck_failure_stops_before_the_note() {
    let deck = deck_outcome(settle_reply(reply_with_error("collection is not available")).unwrap());
    assert_eq!(deck, Err("collection is not available".to_string()));
    let next = after_deck(deck, "What is {{c1::Rust}}?".to_string(), vec!["auto".to_string()]);
    assert!(matches!(next, Err(ref e) if e == "collection is not available"));
}

#[test]
fn add_cloze_note_scenario_succeeds() {
    let create = create_deck_request();
    assert_eq!(parse(&create)["action"], "createDeck");
    let deck = deck_outcome(settle_reply(reply_with_result(1)).unwrap());
    let next = after_deck(deck, "What is {{c1::Rust}}?".to_string(), vec!["auto".to_string()]);
    let add = match next {
        Ok(r) => r,
        Err(e) => panic!("unexpected error {e}"),
    };
    assert_eq!(parse(&add)["action"], "addNote");
    let result = note_outcome(settle_reply(reply_with_result(1496198395707)).unwrap());
    assert_eq!(result, Ok(NoteId(1496198395707)));
}

#[test]
fn add_cloze_note_scenario_duplicate() {
    let deck = deck_outcome(settle_reply(reply_with_result(1)).unwrap());
    assert!(after_deck(deck, "What is {{c1::Rust}}?".to_string(), vec!["auto".to_string()]).is_ok());
    let msg = "cannot create note because it is a duplicate";
    let result = note_outcome(settle_reply(reply_with_error(msg)).unwrap());
    assert_eq!(result, Err(msg.to_string()));
}

#[test]
fn endpoint_is_local() {
    assert_eq!(ENDPOINT, "http://localhost:8765");
}
