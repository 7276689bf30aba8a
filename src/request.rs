//! The request envelopes: what they hold, how they are built, and their JSON
//! text on the wire.

use vstd::prelude::*;

use crate::json::{
    array, json_bool, json_string, joined, lemma_joined_push, lemma_member_step, lemma_object_close,
    member, object, push_bool,
    push_char, push_json_string, push_key, push_separator,
};

verus! {

/// The deck that every note goes to.
pub const DECK: &'static str = "Obsidian";

/// The note type of a cloze note.
pub const CLOZE_MODEL: &'static str = "Cloze";

/// The version of the automation interface that the requests are written for.
pub const VERSION: u8 = 6;

/// The action a request asks for.
#[derive(Clone, Copy, Debug, PartialEq, Eq, Structural)]
pub enum Action {
    AddNote,
    CreateDeck,
}

/// Where the remote side looks for a duplicate of a new note.
#[derive(Clone, Copy, Debug, PartialEq, Eq, Structural)]
pub enum DuplicateScope {
    Deck,
}

/// How the remote side treats a note that duplicates an existing one.
#[derive(Clone, Copy, Debug, PartialEq, Eq, Structural)]
pub struct Options {
    pub allow_duplicate: bool,
    pub duplicate_scope: DuplicateScope,
}

/// A note to add: its deck, its note type, its fields (by name, each name
/// once), its options and its tags.
#[derive(Debug)]
pub struct Note {
    pub deck_name: String,
    pub model_name: String,
    pub fields: Vec<(String, String)>,
    pub options: Options,
    pub tags: Vec<String>,
}

/// The parameters of an `addNote` request.
#[derive(Debug)]
pub struct AddNote {
    pub note: Note,
}

/// The parameters of a `createDeck` request.
#[derive(Debug)]
pub struct CreateDeck {
    pub deck: String,
}

/// A request: each action with the parameters of its own shape.
#[derive(Debug)]
pub enum Request {
    AddNote(AddNote),
    CreateDeck(CreateDeck),
}

impl Note {
    /// No field name occurs twice.
    pub open spec fn wf(&self) -> bool {
        forall|i: int, j: int|
            0 <= i < j < self.fields@.len() ==> self.fields@[i].0@ != self.fields@[j].0@
    }
}

impl Request {
    pub open spec fn spec_action(&self) -> Action {
        match self {
            Request::AddNote(_) => Action::AddNote,
            Request::CreateDeck(_) => Action::CreateDeck,
        }
    }

    /// The action that the parameters belong to.
    #[verifier::when_used_as_spec(spec_action)]
    pub fn action(&self) -> (r: Action)
        ensures
            r == self.spec_action(),
    {
        match self {
            Request::AddNote(_) => Action::AddNote,
            Request::CreateDeck(_) => Action::CreateDeck,
        }
    }
}

/// The name of an action on the wire.
pub open spec fn action_name(a: Action) -> Seq<char> {
    match a {
        Action::AddNote => "addNote"@,
        Action::CreateDeck => "createDeck"@,
    }
}

/// The JSON text of the options.
pub open spec fn options_json(o: Options) -> Seq<char> {
    object(
        seq![
            member("allowDuplicate"@, json_bool(o.allow_duplicate)),
            member("duplicateScope"@, json_string("deck"@)),
        ],
    )
}

/// The members of the fields object, one for each field, in order.
pub open spec fn field_members(fields: Seq<(String, String)>) -> Seq<Seq<char>> {
    fields.map_values(|f: (String, String)| member(f.0@, json_string(f.1@)))
}

/// The string literals of the tags, in order.
pub open spec fn tag_items(tags: Seq<String>) -> Seq<Seq<char>> {
    tags.map_values(|t: String| json_string(t@))
}

/// The JSON text of a note.
pub open spec fn note_json(n: Note) -> Seq<char> {
    object(
        seq![
            member("deckName"@, json_string(n.deck_name@)),
            member("modelName"@, json_string(n.model_name@)),
            member("fields"@, object(field_members(n.fields@))),
            member("options"@, options_json(n.options)),
            member("tags"@, array(tag_items(n.tags@))),
        ],
    )
}

/// The JSON text of the parameters of a request.
pub open spec fn params_json(r: Request) -> Seq<char> {
    match r {
        Request::AddNote(p) => object(seq![member("note"@, note_json(p.note))]),
        Request::CreateDeck(p) => object(seq![member("deck"@, json_string(p.deck@))]),
    }
}

/// The JSON text of a whole request envelope.
pub open spec fn request_json(r: Request) -> Seq<char> {
    object(
        seq![
            member("action"@, json_string(action_name(r.spec_action()))),
            member("version"@, seq!['6']),
            member("params"@, params_json(r)),
        ],
    )
}


/// The JSON text of a request that adds a cloze note: the envelope's keys
/// `action`, `version` and `params`, and the note's keys `deckName`,
/// `modelName`, `fields`, `options` (with `allowDuplicate` and
/// `duplicateScope`) and `tags`, each spelt so, in lower camel case.
pub proof fn lemma_add_note_wire_names(r: Request, text: Seq<char>, tags: Seq<String>)
    requires
        is_add_cloze_request(r, text, tags),
    ensures
        request_json(r) == object(
            seq![
                member("action"@, json_string("addNote"@)),
                member("version"@, seq!['6']),
                member("params"@, object(seq![member("note"@, object(
                    seq![
                        member("deckName"@, json_string("Obsidian"@)),
                        member("modelName"@, json_string("Cloze"@)),
                        member("fields"@, object(seq![
                            member("Text"@, json_string(text)),
                            member("Back Extra"@, json_string(Seq::empty())),
                        ])),
                        member("options"@, object(seq![
                            member("allowDuplicate"@, json_bool(false)),
                            member("duplicateScope"@, json_string("deck"@)),
                        ])),
                        member("tags"@, array(tag_items(tags))),
                    ],
                ))])),
            ],
        ),
{
    let n = r->AddNote_0.note;
    assert(field_members(n.fields@) =~= seq![
        member("Text"@, json_string(text)),
        member("Back Extra"@, json_string(Seq::empty())),
    ]);
}

/// An empty list of tags is written as an empty array, `[]`: the key stays.
pub proof fn lemma_empty_tags(tags: Seq<String>)
    requires
        tags.len() == 0,
    ensures
        array(tag_items(tags)) == seq!['[', ']'],
{
    assert(tag_items(tags) =~= Seq::<Seq<char>>::empty());
    assert(array(tag_items(tags)) =~= seq!['[', ']']);
}

/// The options of every note added here: no duplicate within the deck.
pub open spec fn no_duplicates_in_deck() -> Options {
    Options { allow_duplicate: false, duplicate_scope: DuplicateScope::Deck }
}

/// `n` is the cloze note with text `text` and tags `tags` in the deck:
/// its "Text" field holds the text and its "Back Extra" field is empty.
pub open spec fn is_cloze_note(n: Note, text: Seq<char>, tags: Seq<String>) -> bool {
    &&& n.deck_name@ == "Obsidian"@
    &&& n.model_name@ == "Cloze"@
    &&& n.fields@.len() == 2
    &&& n.fields@[0].0@ == "Text"@
    &&& n.fields@[0].1@ == text
    &&& n.fields@[1].0@ == "Back Extra"@
    &&& n.fields@[1].1@ == Seq::<char>::empty()
    &&& n.options == no_duplicates_in_deck()
    &&& n.tags@ == tags
}

/// `r` asks to add the cloze note with text `text` and tags `tags`.
pub open spec fn is_add_cloze_request(r: Request, text: Seq<char>, tags: Seq<String>) -> bool {
    &&& r is AddNote
    &&& is_cloze_note(r->AddNote_0.note, text, tags)
}

/// `r` asks to create the deck.
pub open spec fn is_create_deck_request(r: Request) -> bool {
    &&& r is CreateDeck
    &&& r->CreateDeck_0.deck@ == "Obsidian"@
}

/// The request that creates the deck; the remote side leaves a deck that
/// already exists as it is.
pub fn create_deck_request() -> (r: Request)
    ensures
        is_create_deck_request(r),
{
    Request::CreateDeck(CreateDeck { deck: DECK.to_string() })
}

/// The request that adds a cloze note with the given text and tags to the deck.
pub fn add_note_request(text: String, tags: Vec<String>) -> (r: Request)
    ensures
        is_add_cloze_request(r, text@, tags@),
        r->AddNote_0.note.wf(),
{
    let mut fields: Vec<(String, String)> = Vec::new();
    fields.push(("Text".to_string(), text));
    fields.push(("Back Extra".to_string(), String::new()));
    let note = Note {
        deck_name: DECK.to_string(),
        model_name: CLOZE_MODEL.to_string(),
        fields,
        options: Options { allow_duplicate: false, duplicate_scope: DuplicateScope::Deck },
        tags,
    };
    proof {
        reveal_strlit("Text");
        reveal_strlit("Back Extra");
        assert("Text"@.len() != "Back Extra"@.len());
        assert(note.fields@[0].0@ != note.fields@[1].0@);
    }
    Request::AddNote(AddNote { note })
}


fn push_options(out: &mut String, o: Options)
    ensures
        final(out)@ == old(out)@ + options_json(o),
{
    let ghost start = out@;
    push_char(out, '{');
    let ghost p = out@;
    push_key(out, "allowDuplicate");
    push_bool(out, o.allow_duplicate);
    proof {
        lemma_member_step(p, Seq::empty(), "allowDuplicate"@, json_bool(o.allow_duplicate));
    }
    let ghost ms = seq![member("allowDuplicate"@, json_bool(o.allow_duplicate))];
    push_separator(out, false);
    push_key(out, "duplicateScope");
    match o.duplicate_scope {
        DuplicateScope::Deck => push_json_string(out, "deck"),
    }
    proof {
        assert(Seq::<Seq<char>>::empty().push(member("allowDuplicate"@, json_bool(o.allow_duplicate))) =~= ms);
        lemma_member_step(p, ms, "duplicateScope"@, json_string("deck"@));
        let all = ms.push(member("duplicateScope"@, json_string("deck"@)));
        assert(all =~= seq![
            member("allowDuplicate"@, json_bool(o.allow_duplicate)),
            member("duplicateScope"@, json_string("deck"@)),
        ]);
        lemma_object_close(start, all);
    }
    push_char(out, '}');
}

fn push_fields(out: &mut String, fields: &Vec<(String, String)>)
    ensures
        final(out)@ == old(out)@ + object(field_members(fields@)),
{
    let ghost start = out@;
    push_char(out, '{');
    let mut i: usize = 0;
    while i < fields.len()
        invariant
            i <= fields@.len(),
            out@ == start + seq!['{'] + joined(field_members(fields@).take(i as int)),
        decreases fields@.len() - i,
    {
        let ghost ms = field_members(fields@).take(i as int);
        push_separator(out, i == 0);
        push_key(out, fields[i].0.as_str());
        push_json_string(out, fields[i].1.as_str());
        proof {
            let m = member(fields@[i as int].0@, json_string(fields@[i as int].1@));
            lemma_joined_push(ms, m);
            assert(field_members(fields@).take(i + 1) =~= ms.push(m));
        }
        i = i + 1;
    }
    push_char(out, '}');
    assert(field_members(fields@).take(i as int) =~= field_members(fields@));
}

fn push_tags(out: &mut String, tags: &Vec<String>)
    ensures
        final(out)@ == old(out)@ + array(tag_items(tags@)),
{
    let ghost start = out@;
    push_char(out, '[');
    let mut i: usize = 0;
    while i < tags.len()
        invariant
            i <= tags@.len(),
            out@ == start + seq!['['] + joined(tag_items(tags@).take(i as int)),
        decreases tags@.len() - i,
    {
        let ghost ms = tag_items(tags@).take(i as int);
        push_separator(out, i == 0);
        push_json_string(out, tags[i].as_str());
        proof {
            let m = json_string(tags@[i as int]@);
            lemma_joined_push(ms, m);
            assert(tag_items(tags@).take(i + 1) =~= ms.push(m));
        }
        i = i + 1;
    }
    push_char(out, ']');
    assert(tag_items(tags@).take(i as int) =~= tag_items(tags@));
}

fn push_note(out: &mut String, n: &Note)
    ensures
        final(out)@ == old(out)@ + note_json(*n),
{
    let ghost start = out@;
    push_char(out, '{');
    let ghost p = out@;
    let ghost mut ms: Seq<Seq<char>> = Seq::empty();
    push_key(out, "deckName");
    push_json_string(out, n.deck_name.as_str());
    proof {
        lemma_member_step(p, ms, "deckName"@, json_string(n.deck_name@));
        ms = ms.push(member("deckName"@, json_string(n.deck_name@)));
    }
    push_separator(out, false);
    push_key(out, "modelName");
    push_json_string(out, n.model_name.as_str());
    proof {
        lemma_member_step(p, ms, "modelName"@, json_string(n.model_name@));
        ms = ms.push(member("modelName"@, json_string(n.model_name@)));
    }
    push_separator(out, false);
    push_key(out, "fields");
    push_fields(out, &n.fields);
    proof {
        lemma_member_step(p, ms, "fields"@, object(field_members(n.fields@)));
        ms = ms.push(member("fields"@, object(field_members(n.fields@))));
    }
    push_separator(out, false);
    push_key(out, "options");
    push_options(out, n.options);
    proof {
        lemma_member_step(p, ms, "options"@, options_json(n.options));
        ms = ms.push(member("options"@, options_json(n.options)));
    }
    push_separator(out, false);
    push_key(out, "tags");
    push_tags(out, &n.tags);
    proof {
        lemma_member_step(p, ms, "tags"@, array(tag_items(n.tags@)));
        ms = ms.push(member("tags"@, array(tag_items(n.tags@))));
        assert(ms =~= seq![
            member("deckName"@, json_string(n.deck_name@)),
            member("modelName"@, json_string(n.model_name@)),
            member("fields"@, object(field_members(n.fields@))),
            member("options"@, options_json(n.options)),
            member("tags"@, array(tag_items(n.tags@))),
        ]);
        lemma_object_close(start, ms);
    }
    push_char(out, '}');
}

fn push_params(out: &mut String, r: &Request)
    ensures
        final(out)@ == old(out)@ + params_json(*r),
{
    let ghost start = out@;
    push_char(out, '{');
    let ghost p = out@;
    let ghost empty: Seq<Seq<char>> = Seq::empty();
    match r {
        Request::AddNote(a) => {
            push_key(out, "note");
            push_note(out, &a.note);
            proof {
                let m = member("note"@, note_json(a.note));
                lemma_member_step(p, empty, "note"@, note_json(a.note));
                assert(empty.push(m) =~= seq![m]);
                lemma_object_close(start, seq![m]);
            }
        },
        Request::CreateDeck(c) => {
            push_key(out, "deck");
            push_json_string(out, c.deck.as_str());
            proof {
                let m = member("deck"@, json_string(c.deck@));
                lemma_member_step(p, empty, "deck"@, json_string(c.deck@));
                assert(empty.push(m) =~= seq![m]);
                lemma_object_close(start, seq![m]);
            }
        },
    }
    push_char(out, '}');
}

/// The JSON text of a request envelope, as it is sent.
pub fn encode_request(r: &Request) -> (s: String)
    ensures
        s@ == request_json(*r),
{
    let mut out = String::new();
    let ghost start = out@;
    push_char(&mut out, '{');
    let ghost p = out@;
    let ghost mut ms: Seq<Seq<char>> = Seq::empty();
    let ghost name = action_name(r.spec_action());
    push_key(&mut out, "action");
    match r.action() {
        Action::AddNote => push_json_string(&mut out, "addNote"),
        Action::CreateDeck => push_json_string(&mut out, "createDeck"),
    }
    proof {
        lemma_member_step(p, ms, "action"@, json_string(name));
        ms = ms.push(member("action"@, json_string(name)));
    }
    push_separator(&mut out, false);
    push_key(&mut out, "version");
    push_char(&mut out, '6');
    proof {
        assert(out@ =~= p + joined(ms) + seq![','] + json_string("version"@) + seq![':'] + seq!['6']);
        lemma_member_step(p, ms, "version"@, seq!['6']);
        ms = ms.push(member("version"@, seq!['6']));
    }
    push_separator(&mut out, false);
    push_key(&mut out, "params");
    push_params(&mut out, r);
    proof {
        lemma_member_step(p, ms, "params"@, params_json(*r));
        ms = ms.push(member("params"@, params_json(*r)));
        assert(ms =~= seq![
            member("action"@, json_string(name)),
            member("version"@, seq!['6']),
            member("params"@, params_json(*r)),
        ]);
        lemma_object_close(start, ms);
        assert(start + object(ms) =~= object(ms));
    }
    push_char(&mut out, '}');
    out
}

} // verus!
