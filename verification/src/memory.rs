//! Memory notes of a project, as they are kept in its notes document.
//!
//! The document is a JSON object whose member `notes` is an array of
//! entries. An entry without an identifier or without content is passed
//! over; the other members of an entry have defaults.

use vstd::prelude::*;
use vstd::string::{StringExecFns, StringSliceAdditionalSpecFns};
use crate::json::{
    error_text, items, json_document, json_of, json_of_each, member, parse_document, text, Json,
};
use crate::storage::{Document, StoreError};

verus! {

/// A note that the user or the agent left for a project.
#[derive(Debug, Clone, PartialEq, Eq)]
pub struct MemoryNote {
    pub id: String,
    pub content: String,
    pub category: String,
    pub tags: Vec<String>,
    pub created_at: String,
}

/// A note, as characters.
pub struct NoteModel {
    pub id: Seq<char>,
    pub content: Seq<char>,
    pub category: Seq<char>,
    pub tags: Seq<Seq<char>>,
    pub created_at: Seq<char>,
}

impl View for MemoryNote {
    type V = NoteModel;

    open spec fn view(&self) -> NoteModel {
        NoteModel {
            id: self.id@,
            content: self.content@,
            category: self.category@,
            tags: self.tags.deep_view(),
            created_at: self.created_at@,
        }
    }
}

/// The notes of `notes`, each as characters.
pub open spec fn note_models(notes: Seq<MemoryNote>) -> Seq<NoteModel> {
    notes.map_values(|note: MemoryNote| note@)
}

/// The category of an entry that names none.
pub open spec fn default_category() -> Seq<char> {
    "note"@
}

/// The string member `key` of `entry`, where there is one.
pub open spec fn string_member(entry: Json, key: Seq<char>) -> Option<Seq<char>> {
    match entry.member(key) {
        Some(found) => found.text(),
        None => None,
    }
}

/// The string member `key` of `entry`, or `default` where there is none.
pub open spec fn string_member_or(entry: Json, key: Seq<char>, default: Seq<char>) -> Seq<char> {
    match string_member(entry, key) {
        Some(found) => found,
        None => default,
    }
}

/// The strings among `items`, in order; items of other kinds are passed
/// over.
pub open spec fn strings_among(items: Seq<Json>) -> Seq<Seq<char>>
    decreases items.len(),
{
    if items.len() == 0 {
        Seq::empty()
    } else {
        let before = strings_among(items.drop_last());
        match items.last().text() {
            Some(found) => before.push(found),
            None => before,
        }
    }
}

/// The tags of `entry`: the strings in its member `tags` where that is an
/// array, none otherwise.
pub open spec fn tags_of(entry: Json) -> Seq<Seq<char>> {
    match entry.member("tags"@) {
        Some(found) => match found.items() {
            Some(listed) => strings_among(listed),
            None => Seq::empty(),
        },
        None => Seq::empty(),
    }
}

/// The note that `entry` holds: one needs a string member `entry_id` and a
/// string member `content`.
pub open spec fn note_in(entry: Json) -> Option<NoteModel> {
    match (string_member(entry, "entry_id"@), string_member(entry, "content"@)) {
        (Some(id), Some(content)) => Some(
            NoteModel {
                id,
                content,
                category: string_member_or(entry, "category"@, default_category()),
                tags: tags_of(entry),
                created_at: string_member_or(entry, "created_at"@, Seq::empty()),
            },
        ),
        _ => None,
    }
}

/// The notes that `entries` hold, in order; entries that hold none are
/// passed over.
pub open spec fn notes_among(entries: Seq<Json>) -> Seq<NoteModel>
    decreases entries.len(),
{
    if entries.len() == 0 {
        Seq::empty()
    } else {
        let before = notes_among(entries.drop_last());
        match note_in(entries.last()) {
            Some(found) => before.push(found),
            None => before,
        }
    }
}

/// The notes of a document: those among the entries of its member `notes`
/// where that is an array, none otherwise.
pub open spec fn notes_in(document: Json) -> Seq<NoteModel> {
    match document.member("notes"@) {
        Some(found) => match found.items() {
            Some(entries) => notes_among(entries),
            None => Seq::empty(),
        },
        None => Seq::empty(),
    }
}

/// The notes of a stored document: none where there is no document.
pub open spec fn stored_notes(content: Option<Seq<u8>>) -> Option<Seq<NoteModel>> {
    match content {
        None => Some(Seq::empty()),
        Some(bytes) => match json_document(bytes) {
            Some(document) => Some(notes_in(document)),
            None => None,
        },
    }
}

fn read_string_member(entry: &serde_json::Value, key: &str) -> (r: Option<String>)
    ensures
        match string_member(json_of(*entry), key@) {
            Some(expected) => r matches Some(found) && found@ == expected,
            None => r is None,
        },
{
    match member(entry, key) {
        Some(found) => match text(found) {
            Some(characters) => Some(String::from_str(characters)),
            None => None,
        },
        None => None,
    }
}

fn read_strings(listed: &Vec<serde_json::Value>) -> (r: Vec<String>)
    ensures
        r.deep_view() == strings_among(json_of_each(listed@)),
{
    let ghost all = json_of_each(listed@);
    let mut found: Vec<String> = Vec::new();
    let mut i: usize = 0;
    assert(all.take(0) =~= Seq::<Json>::empty());
    assert(found.deep_view() =~= Seq::<Seq<char>>::empty());
    while i < listed.len()
        invariant
            i <= listed.len(),
            all == json_of_each(listed@),
            found.deep_view() == strings_among(all.take(i as int)),
        decreases listed.len() - i,
    {
        let ghost before = found.deep_view();
        assert(all.take(i + 1).drop_last() =~= all.take(i as int));
        assert(all.take(i + 1).last() == json_of(listed@[i as int]));
        match text(&listed[i]) {
            Some(characters) => {
                found.push(String::from_str(characters));
                assert(found.deep_view() =~= before.push(characters@));
            },
            None => {},
        }
        i += 1;
    }
    assert(all.take(listed.len() as int) =~= all);
    found
}

fn read_tags(entry: &serde_json::Value) -> (r: Vec<String>)
    ensures
        r.deep_view() == tags_of(json_of(*entry)),
{
    let listed = match member(entry, "tags") {
        Some(found) => items(found),
        None => None,
    };
    match listed {
        Some(listed) => read_strings(listed),
        None => {
            let none: Vec<String> = Vec::new();
            assert(none.deep_view() =~= Seq::<Seq<char>>::empty());
            none
        },
    }
}

/// Reads the note that an entry holds. There is one if and only if the entry
/// is an object with a string `entry_id` and a string `content`; the category
/// defaults to `note`, the tags to none, the creation time to the empty
/// string.
pub fn read_note(entry: &serde_json::Value) -> (r: Option<MemoryNote>)
    ensures
        match note_in(json_of(*entry)) {
            Some(expected) => r matches Some(found) && found@ == expected,
            None => r is None,
        },
{
    let id = match read_string_member(entry, "entry_id") {
        Some(id) => id,
        None => {
            return None;
        },
    };
    let content = match read_string_member(entry, "content") {
        Some(content) => content,
        None => {
            return None;
        },
    };
    let category = match read_string_member(entry, "category") {
        Some(category) => category,
        None => String::from_str("note"),
    };
    let tags = read_tags(entry);
    let created_at = match read_string_member(entry, "created_at") {
        Some(created_at) => created_at,
        None => {
            proof {
                reveal_strlit("");
            }
            let empty = String::from_str("");
            assert(empty@ =~= Seq::<char>::empty());
            empty
        },
    };
    Some(MemoryNote { id, content, category, tags, created_at })
}

/// Reads the notes of a parsed document, in the order of its entries.
pub fn read_notes(document: &serde_json::Value) -> (r: Vec<MemoryNote>)
    ensures
        note_models(r@) == notes_in(json_of(*document)),
{
    let entries = match member(document, "notes") {
        Some(found) => items(found),
        None => None,
    };
    let mut notes: Vec<MemoryNote> = Vec::new();
    match entries {
        None => {
            assert(note_models(notes@) =~= Seq::<NoteModel>::empty());
        },
        Some(entries) => {
            let ghost all = json_of_each(entries@);
            let mut i: usize = 0;
            assert(all.take(0) =~= Seq::<Json>::empty());
            assert(note_models(notes@) =~= Seq::<NoteModel>::empty());
            while i < entries.len()
                invariant
                    i <= entries.len(),
                    all == json_of_each(entries@),
                    note_models(notes@) == notes_among(all.take(i as int)),
                decreases entries.len() - i,
            {
                let ghost before = note_models(notes@);
                assert(all.take(i + 1).drop_last() =~= all.take(i as int));
                assert(all.take(i + 1).last() == json_of(entries@[i as int]));
                match read_note(&entries[i]) {
                    Some(note) => {
                        let ghost model = note@;
                        notes.push(note);
                        assert(note_models(notes@) =~= before.push(model));
                    },
                    None => {},
                }
                i += 1;
            }
            assert(all.take(entries.len() as int) =~= all);
        },
    }
    notes
}

/// The notes of a project. `content` is the text of its notes document,
/// none where the project has no such document yet. A missing document holds
/// no notes; a document that is no JSON text is an error; in any other
/// document the notes are those that `notes_in` names.
pub fn get_memory(content: Option<&str>) -> (r: Result<Vec<MemoryNote>, StoreError>)
    ensures
        match stored_notes(
            match content {
                Some(text) => Some(text.spec_bytes()),
                None => None,
            },
        ) {
            Some(expected) => r matches Ok(notes) && note_models(notes@) == expected,
            None => r matches Err(StoreError::Parse { document, .. }) && document
                == Document::Memory,
        },
{
    match content {
        None => {
            let notes: Vec<MemoryNote> = Vec::new();
            assert(note_models(notes@) =~= Seq::<NoteModel>::empty());
            Ok(notes)
        },
        Some(text) => match parse_document(text.as_bytes()) {
            Ok(document) => Ok(read_notes(&document)),
            Err(error) => Err(
                StoreError::Parse { document: Document::Memory, cause: error_text(&error) },
            ),
        },
    }
}

} // verus!
