//! The store's text form. A document is a YAML mapping from keys to lists
//! of records, a record a mapping from keys to strings; the collection is
//! the document `notes: [ { text: .., name: .. }, .. ]`. YAML itself is
//! written and read by serde_yaml.
use crate::note::{opt_view, Note, NoteView, Notes};
use serde_yaml::{Mapping, Value};
use std::collections::BTreeMap;
use vstd::prelude::*;
use vstd::string::*;

verus! {

/// A mapping from keys to strings, in order.
pub type Record = Vec<(String, String)>;

/// A mapping from keys to lists of records, in order.
pub type Document = Vec<(String, Vec<Record>)>;

pub type RecordView = Seq<(Seq<char>, Seq<char>)>;

pub type DocumentView = Seq<(Seq<char>, Seq<RecordView>)>;

pub open spec fn record_view(r: Record) -> RecordView {
    r@.map_values(|p: (String, String)| (p.0@, p.1@))
}

pub open spec fn document_view(d: Document) -> DocumentView {
    d@.map_values(|e: (String, Vec<Record>)| (e.0@, e.1@.map_values(|r: Record| record_view(r))))
}

/// The YAML text that serde_yaml writes for a document.
pub uninterp spec fn yaml_text(d: DocumentView) -> Seq<char>;

/// The document that serde_yaml reads from a text, if the text is one.
pub uninterp spec fn yaml_document(s: Seq<char>) -> Option<DocumentView>;

#[verifier::external_type_specification]
#[verifier::external_body]
pub struct ExYamlError(serde_yaml::Error);

/// Relies on `serde_yaml::to_string`, applied to the document as a
/// `serde_yaml::Mapping` of sequences of mappings of strings, entries kept
/// in order. Strings, sequences and mappings always serialize, into a
/// buffer that cannot fail, and the text depends on the document alone.
#[verifier::external_body]
fn yaml_to_string(d: &Document) -> (r: Result<String, serde_yaml::Error>)
    ensures
        r is Ok,
        r is Ok ==> r->Ok_0@ == yaml_text(document_view(*d)),
{
    let m: Mapping = d
        .iter()
        .map(|(k, rs)| (Value::String(k.clone()), Value::Sequence(rs.iter().map(|r| Value::Mapping(r.iter().map(|(a, b)| (Value::String(a.clone()), Value::String(b.clone()))).collect())).collect())))
        .collect();
    serde_yaml::to_string(&m)
}

/// Relies on `serde_yaml::from_str`, reading a map of lists of maps of
/// strings; whether it succeeds, and what it reads, depend on the text alone.
#[verifier::external_body]
fn yaml_from_str(s: &str) -> (r: Result<Document, serde_yaml::Error>)
    ensures
        match r {
            Ok(d) => yaml_document(s@) == Some(document_view(d)),
            Err(_) => yaml_document(s@) is None,
        },
{
    let m: BTreeMap<String, Vec<BTreeMap<String, String>>> = serde_yaml::from_str(s)?;
    Ok(m.into_iter().map(|(k, rs)| (k, rs.into_iter().map(|r| r.into_iter().collect()).collect())).collect())
}

/// Why the store's text could not be written or read.
#[derive(Debug, Clone, Copy, PartialEq, Eq, Structural)]
pub enum CodecError {
    /// The YAML writer failed.
    Encode,
    /// The text is not a YAML document of the store's shape.
    Decode,
}

/// The value under the first entry with key `k`.
pub open spec fn lookup<V>(s: Seq<(Seq<char>, V)>, k: Seq<char>) -> Option<V>
    decreases s.len(),
{
    if s.len() == 0 {
        None
    } else if s[0].0 == k {
        Some(s[0].1)
    } else {
        lookup(s.drop_first(), k)
    }
}

/// A note as a record: its name, if any, then its text.
pub open spec fn record_of(n: NoteView) -> RecordView {
    match n.name {
        Some(nm) => seq![("name"@, nm), ("text"@, n.text)],
        None => seq![("text"@, n.text)],
    }
}

/// The document that holds a collection.
pub open spec fn document_of(ns: Seq<NoteView>) -> DocumentView {
    seq![("notes"@, ns.map_values(|n: NoteView| record_of(n)))]
}

/// The note a record describes: it needs a `text`, and takes a `name` if
/// there is one. Other keys with string values are ignored; a record whose
/// values are not all strings is not read as a record at all.
pub open spec fn note_of_record(r: RecordView) -> Option<NoteView> {
    match lookup(r, "text"@) {
        Some(t) => Some(NoteView { text: t, name: lookup(r, "name"@) }),
        None => None,
    }
}

/// The notes that a list of records describes, if every record describes one.
pub open spec fn notes_of_records(rs: Seq<RecordView>) -> Option<Seq<NoteView>> {
    if forall|i: int| 0 <= i < rs.len() ==> (#[trigger] note_of_record(rs[i])) is Some {
        Some(rs.map_values(|r: RecordView| note_of_record(r)->Some_0))
    } else {
        None
    }
}

/// The collection a document describes: the records under its `notes` key.
pub open spec fn notes_of_document(d: DocumentView) -> Option<Seq<NoteView>> {
    match lookup(d, "notes"@) {
        Some(rs) => notes_of_records(rs),
        None => None,
    }
}

/// A store text that stands for the empty collection: empty, or one newline.
pub open spec fn is_empty_store(s: Seq<char>) -> bool {
    s.len() == 0 || s == "\n"@
}

/// The collection that a store text holds, if it holds one.
pub open spec fn decoded(s: Seq<char>) -> Option<Seq<NoteView>> {
    if is_empty_store(s) {
        Some(Seq::empty())
    } else {
        match yaml_document(s) {
            Some(d) => notes_of_document(d),
            None => None,
        }
    }
}

proof fn lemma_lookup_first<V>(s: Seq<(Seq<char>, V)>, k: Seq<char>, i: int)
    requires
        0 <= i <= s.len(),
        forall|j: int| 0 <= j < i ==> (#[trigger] s[j]).0 != k,
        i < s.len() ==> s[i].0 == k,
    ensures
        lookup(s, k) == if i < s.len() {
            Some(s[i].1)
        } else {
            None::<V>
        },
    decreases i,
{
    if i > 0 {
        assert(s[0].0 != k);
        assert forall|j: int| 0 <= j < i - 1 implies (#[trigger] s.drop_first()[j]).0 != k by {
            assert(s.drop_first()[j] == s[j + 1]);
        }
        lemma_lookup_first(s.drop_first(), k, i - 1);
    }
}

/// The position of the first entry with key `key`.
fn position_of<T>(entries: &Vec<(String, T)>, key: &String) -> (r: Option<usize>)
    ensures
        match r {
            Some(i) => i < entries@.len() && entries@[i as int].0@ == key@ && forall|j: int|
                0 <= j < i ==> (#[trigger] entries@[j]).0@ != key@,
            None => forall|j: int| 0 <= j < entries@.len() ==> (#[trigger] entries@[j]).0@ != key@,
        },
{
    let mut i: usize = 0;
    while i < entries.len()
        invariant
            i <= entries@.len(),
            forall|j: int| 0 <= j < i ==> (#[trigger] entries@[j]).0@ != key@,
        decreases entries@.len() - i,
    {
        if entries[i].0 == *key {
            return Some(i);
        }
        i = i + 1;
    }
    None
}

/// The value of the first field with key `key` in a record.
fn field(r: &Record, key: &String) -> (v: Option<String>)
    ensures
        opt_view(v) == lookup(record_view(*r), key@),
{
    let ghost rv = record_view(*r);
    match position_of(r, key) {
        Some(i) => {
            proof {
                assert forall|j: int| 0 <= j < i implies (#[trigger] rv[j]).0 != key@ by {
                    assert(rv[j].0 == r@[j].0@);
                }
                lemma_lookup_first(rv, key@, i as int);
            }
            Some(r[i].1.clone())
        },
        None => {
            proof {
                assert forall|j: int| 0 <= j < rv.len() implies (#[trigger] rv[j]).0 != key@ by {
                    assert(rv[j].0 == r@[j].0@);
                }
                lemma_lookup_first(rv, key@, rv.len() as int);
            }
            None
        },
    }
}

/// The note a record describes, if it has a text.
pub fn note_from_record(r: &Record) -> (n: Option<Note>)
    ensures
        match n {
            Some(n) => note_of_record(record_view(*r)) == Some(n@),
            None => note_of_record(record_view(*r)) is None,
        },
{
    let text_key = String::from_str("text");
    let name_key = String::from_str("name");
    match field(r, &text_key) {
        Some(text) => {
            let name = field(r, &name_key);
            Some(Note { text, name })
        },
        None => None,
    }
}

/// The record that describes a note.
pub fn record_from_note(n: &Note) -> (r: Record)
    ensures
        record_view(r) == record_of(n@),
{
    let mut r: Record = Vec::new();
    if let Some(nm) = &n.name {
        r.push((String::from_str("name"), nm.clone()));
    }
    r.push((String::from_str("text"), n.text.clone()));
    assert(record_view(r) =~= record_of(n@));
    r
}

/// The notes a list of records describes; fails if one has no text.
fn notes_from_records(rs: &Vec<Record>) -> (r: Result<Notes, CodecError>)
    ensures
        match r {
            Ok(ns) => notes_of_records(rs@.map_values(|r: Record| record_view(r))) == Some(ns@),
            Err(e) => e == CodecError::Decode && notes_of_records(
                rs@.map_values(|r: Record| record_view(r)),
            ) is None,
        },
{
    let ghost rv = rs@.map_values(|r: Record| record_view(r));
    let mut notes: Vec<Note> = Vec::new();
    let mut i: usize = 0;
    while i < rs.len()
        invariant
            i <= rs@.len(),
            rv == rs@.map_values(|r: Record| record_view(r)),
            notes@.len() == i,
            forall|j: int|
                0 <= j < i ==> (#[trigger] note_of_record(rv[j])) == Some(notes@[j]@),
        decreases rs@.len() - i,
    {
        match note_from_record(&rs[i]) {
            Some(n) => {
                notes.push(n);
            },
            None => {
                assert(note_of_record(rv[i as int]) is None);
                return Err(CodecError::Decode);
            },
        }
        i = i + 1;
    }
    let ns = Notes { notes };
    assert(ns@ =~= rv.map_values(|r: RecordView| note_of_record(r)->Some_0));
    Ok(ns)
}

/// The document that holds a collection.
pub fn to_document(notes: &Notes) -> (d: Document)
    ensures
        document_view(d) == document_of(notes@),
{
    let mut rs: Vec<Record> = Vec::new();
    let mut i: usize = 0;
    while i < notes.notes.len()
        invariant
            i <= notes@.len(),
            rs@.len() == i,
            forall|j: int| 0 <= j < i ==> record_view(#[trigger] rs@[j]) == record_of(notes@[j]),
        decreases notes@.len() - i,
    {
        let r = record_from_note(&notes.notes[i]);
        rs.push(r);
        i = i + 1;
    }
    let mut d: Document = Vec::new();
    d.push((String::from_str("notes"), rs));
    assert(document_view(d)[0].1 =~= notes@.map_values(|n: NoteView| record_of(n)));
    assert(document_view(d) =~= document_of(notes@));
    d
}

/// The collection a document describes; fails unless it has a `notes`
/// list whose records all have a text.
pub fn from_document(d: &Document) -> (r: Result<Notes, CodecError>)
    ensures
        match r {
            Ok(ns) => notes_of_document(document_view(*d)) == Some(ns@),
            Err(e) => e == CodecError::Decode && notes_of_document(document_view(*d)) is None,
        },
{
    let ghost dv = document_view(*d);
    let key = String::from_str("notes");
    match position_of(d, &key) {
        Some(i) => {
            proof {
                assert forall|j: int| 0 <= j < i implies (#[trigger] dv[j]).0 != key@ by {
                    assert(dv[j].0 == d@[j].0@);
                }
                lemma_lookup_first(dv, key@, i as int);
            }
            notes_from_records(&d[i].1)
        },
        None => {
            proof {
                assert forall|j: int| 0 <= j < dv.len() implies (#[trigger] dv[j]).0 != key@ by {
                    assert(dv[j].0 == d@[j].0@);
                }
                lemma_lookup_first(dv, key@, dv.len() as int);
            }
            Err(CodecError::Decode)
        },
    }
}

/// The YAML text of a collection. Writing it always succeeds.
pub fn encode(notes: &Notes) -> (r: Result<String, CodecError>)
    ensures
        r is Ok,
        match r {
            Ok(s) => s@ == yaml_text(document_of(notes@)),
            Err(e) => e == CodecError::Encode,
        },
{
    let d = to_document(notes);
    match yaml_to_string(&d) {
        Ok(s) => Ok(s),
        Err(_) => Err(CodecError::Encode),
    }
}

/// The collection a store text holds. An empty text, or a single newline,
/// holds no notes.
pub fn decode(s: &str) -> (r: Result<Notes, CodecError>)
    ensures
        match r {
            Ok(ns) => decoded(s@) == Some(ns@),
            Err(e) => e == CodecError::Decode && decoded(s@) is None,
        },
{
    if s.is_empty() || String::from_str(s) == String::from_str("\n") {
        return Ok(Notes::new());
    }
    match yaml_from_str(s) {
        Ok(d) => from_document(&d),
        Err(_) => Err(CodecError::Decode),
    }
}

proof fn lemma_keys_differ()
    ensures
        "name"@ != "text"@,
        "name"@ != "notes"@,
{
    reveal_strlit("name");
    reveal_strlit("text");
    reveal_strlit("notes");
    assert("name"@[0] != "text"@[0]);
    assert("name"@[1] != "notes"@[1]);
}

/// Reading back the document of a collection gives the same collection.
pub proof fn lemma_document_round_trip(ns: Seq<NoteView>)
    ensures
        notes_of_document(document_of(ns)) == Some(ns),
{
    lemma_keys_differ();
    let rs = ns.map_values(|n: NoteView| record_of(n));
    assert(lookup(document_of(ns), "notes"@) == Some(rs));
    assert forall|i: int| 0 <= i < rs.len() implies (#[trigger] note_of_record(rs[i])) == Some(
        ns[i],
    ) by {
        let r = rs[i];
        assert(r == record_of(ns[i]));
        match ns[i].name {
            Some(nm) => {
                assert(r[0].0 == "name"@);
                assert(r.drop_first()[0] == ("text"@, ns[i].text));
                assert(lookup(r.drop_first(), "text"@) == Some(ns[i].text));
                assert(lookup(r, "text"@) == Some(ns[i].text));
                assert(lookup(r, "name"@) == Some(nm));
            },
            None => {
                assert(r.drop_first().len() == 0);
                assert(r[0] == ("text"@, ns[i].text));
                assert(lookup(r, "text"@) == Some(ns[i].text));
                assert(lookup(r.drop_first(), "name"@) == None::<Seq<char>>);
                assert(lookup(r, "name"@) == None::<Seq<char>>);
            },
        }
    }
    assert(rs.map_values(|r: RecordView| note_of_record(r)->Some_0) =~= ns);
}

/// An empty store text and a single newline both hold the empty collection.
pub proof fn lemma_empty_store_texts()
    ensures
        decoded(Seq::empty()) == Some(Seq::<NoteView>::empty()),
        decoded("\n"@) == Some(Seq::<NoteView>::empty()),
{
}

} // verus!
