//! The note store bound to one location: where it lives, how its text
//! becomes a collection, and the answers that confirm a deletion.
use crate::codec::{decode, decoded, document_of, encode, yaml_text, CodecError};
use crate::note::{opt_view, Note, NoteView, Notes};
use crate::text::{trim, trimmed};
use vstd::prelude::*;
use vstd::string::*;

verus! {

/// The store location: the override when given, else `rem_notes.txt` in
/// the home directory; none when neither is known.
pub open spec fn resolved_path(env_path: Option<Seq<char>>, home: Option<Seq<char>>) -> Option<Seq<char>> {
    match env_path {
        Some(p) => Some(p),
        None => match home {
            Some(h) => Some(h + "/rem_notes.txt"@),
            None => None,
        },
    }
}

/// The collection a store holds: a missing store holds none.
pub open spec fn loaded(contents: Option<&str>) -> Option<Seq<NoteView>> {
    match contents {
        Some(s) => decoded(s@),
        None => Some(Seq::empty()),
    }
}

/// What an answer to the confirmation prompt means, once trimmed and
/// lower-cased: yes, no, or not an answer.
pub open spec fn answer_meaning(a: Seq<char>) -> Option<bool> {
    if a == "y"@ || a == "yes"@ {
        Some(true)
    } else if a == "n"@ || a == "no"@ {
        Some(false)
    } else {
        None
    }
}

/// The lower-case form of a text, as `str::to_lowercase` gives it.
pub uninterp spec fn lower_of(s: Seq<char>) -> Seq<char>;

/// Relies on `str::to_lowercase`: the result depends on the text alone.
#[verifier::external_body]
fn lowercase(s: &str) -> (r: String)
    ensures
        r@ == lower_of(s@),
{
    s.to_lowercase()
}

/// What a trimmed, lower-cased answer means.
pub fn answer_of(a: &str) -> (r: Option<bool>)
    ensures
        r == answer_meaning(a@),
{
    let s = String::from_str(a);
    if s == String::from_str("y") || s == String::from_str("yes") {
        Some(true)
    } else if s == String::from_str("n") || s == String::from_str("no") {
        Some(false)
    } else {
        None
    }
}

/// What a line typed at the confirmation prompt means; the case and the
/// surrounding whitespace do not matter.
pub fn parse_answer(input: &str) -> (r: Option<bool>)
    ensures
        r == answer_meaning(lower_of(trimmed(input@))),
{
    let t = trim(input);
    let l = lowercase(t.as_str());
    answer_of(l.as_str())
}

/// A note store bound to one location.
#[derive(Debug)]
pub struct Rem {
    pub path: String,
}

impl Rem {
    /// The store location: the override when given, else `rem_notes.txt` in
    /// the home directory.
    pub fn notes_path(env_path: Option<String>, home: Option<String>) -> (r: String)
        requires
            env_path is Some || home is Some,
        ensures
            resolved_path(opt_view(env_path), opt_view(home)) == Some(r@),
    {
        match env_path {
            Some(p) => p,
            None => {
                let mut p = home.unwrap();
                p.append("/rem_notes.txt");
                p
            },
        }
    }

    /// A store at the resolved location.
    pub fn new(env_path: Option<String>, home: Option<String>) -> (r: Rem)
        requires
            env_path is Some || home is Some,
        ensures
            resolved_path(opt_view(env_path), opt_view(home)) == Some(r.path@),
    {
        Rem { path: Rem::notes_path(env_path, home) }
    }

    /// A store at the given location.
    pub fn new_with_path(path: String) -> (r: Rem)
        ensures
            r.path == path,
    {
        Rem { path }
    }

    /// The collection that the store's contents hold; `None` stands for a
    /// store that does not exist yet, which holds no notes.
    pub fn load(contents: Option<&str>) -> (r: Result<Notes, CodecError>)
        ensures
            match r {
                Ok(ns) => loaded(contents) == Some(ns@),
                Err(e) => e == CodecError::Decode && loaded(contents) is None,
            },
    {
        match contents {
            Some(s) => decode(s),
            None => Ok(Notes::new()),
        }
    }
}

/// The message shown when a note to add is blank.
pub fn empty_note_message() -> (r: String)
    ensures
        r@ == "Your note is empty, try adding some content."@,
{
    String::from_str("Your note is empty, try adding some content.")
}

/// The message shown when an edit is committed.
pub fn committed_message(text: &str) -> (r: String)
    ensures
        r@ == "Note committed! "@ + text@,
{
    let mut r = String::from_str("Note committed! ");
    r.append(text);
    r
}

/// The store text to write after adding note `n` to what the store holds;
/// an error exactly when the store holds no collection.
pub fn stored_with_note(contents: Option<&str>, n: Note) -> (r: Result<String, CodecError>)
    ensures
        match loaded(contents) {
            None => r == Err::<String, CodecError>(CodecError::Decode),
            Some(ns) => r is Ok && r->Ok_0@ == yaml_text(document_of(ns.push(n@))),
        },
{
    let mut notes = match Rem::load(contents) {
        Ok(notes) => notes,
        Err(e) => return Err(e),
    };
    notes.push(n);
    encode(&notes)
}

} // verus!
