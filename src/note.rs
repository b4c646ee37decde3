//! Notes and the ordered collection of them, with the operations that
//! add, list, delete and replace notes by position.
use crate::text::{
    decimal, decimal_string, is_blank, join_words, joined, lemma_trimmed_empty_iff_blank, trim,
    trimmed, words_view,
};
use vstd::prelude::*;
use vstd::string::*;

verus! {

/// What a note holds: its text and an optional name.
pub ghost struct NoteView {
    pub text: Seq<char>,
    pub name: Option<Seq<char>>,
}

/// A single stored note, optionally labelled with a name.
#[derive(Debug, Clone)]
pub struct Note {
    pub text: String,
    pub name: Option<String>,
}

pub open spec fn opt_view(o: Option<String>) -> Option<Seq<char>> {
    match o {
        Some(s) => Some(s@),
        None => None,
    }
}

impl View for Note {
    type V = NoteView;

    open spec fn view(&self) -> NoteView {
        NoteView { text: self.text@, name: opt_view(self.name) }
    }
}

impl Note {
    /// A note with the given text and no name.
    pub fn new(text: String) -> (n: Note)
        ensures
            n@ == (NoteView { text: text@, name: None }),
    {
        Note { text, name: None }
    }

    /// A note with the given text labelled with `name`.
    pub fn named(name: String, text: String) -> (n: Note)
        ensures
            n@ == (NoteView { text: text@, name: Some(name@) }),
    {
        Note { text, name: Some(name) }
    }
}

/// The ordered collection of notes; a note's position is its only address.
#[derive(Debug, Clone)]
pub struct Notes {
    pub notes: Vec<Note>,
}

impl View for Notes {
    type V = Seq<NoteView>;

    open spec fn view(&self) -> Seq<NoteView> {
        self.notes@.map_values(|n: Note| n@)
    }
}

/// Why a position does not name a note.
#[derive(Debug, Clone, Copy, PartialEq, Eq, Structural)]
pub enum LineError {
    /// The collection is empty.
    NoNotes,
    /// The position is past the last note.
    NotInNotes,
}

/// The result of asking to delete a note.
#[derive(Debug, Clone, Copy, PartialEq, Eq, Structural)]
pub enum DeleteOutcome {
    NoNotes,
    NotInNotes,
    /// Confirmation was declined: nothing was removed.
    Stopped,
    /// The note at this position was removed.
    Removed(u32),
}

/// The message shown when there are no notes.
pub open spec fn no_notes_message() -> Seq<char> {
    "No notes found! Try adding a note!"@
}

pub open spec fn not_in_notes_message() -> Seq<char> {
    "Line specified not in notes!"@
}

pub open spec fn stopped_message() -> Seq<char> {
    "Deletion stopped."@
}

pub open spec fn removed_message(line: u32) -> Seq<char> {
    "Removed: "@ + decimal(line as nat)
}

/// A note as one listed line: `name ~ text` when it has a name and names
/// are shown, else the text; the plain mode trims the text.
pub open spec fn label(n: NoteView, numbered: bool, with_names: bool) -> Seq<char> {
    let t = if numbered { n.text } else { trimmed(n.text) };
    match n.name {
        Some(nm) if with_names => nm + " ~ "@ + t,
        _ => t,
    }
}

/// The listed line of the note at position `i`.
pub open spec fn line_of(i: nat, n: NoteView, numbered: bool, with_names: bool) -> Seq<char> {
    if numbered {
        decimal(i) + ": "@ + label(n, true, with_names)
    } else {
        label(n, false, with_names)
    }
}

/// The listed lines of the first `k` notes, each ended by a newline.
pub open spec fn listing_upto(ns: Seq<NoteView>, k: nat, numbered: bool, with_names: bool) -> Seq<char>
    decreases k,
{
    if k == 0 {
        Seq::empty()
    } else {
        listing_upto(ns, (k - 1) as nat, numbered, with_names) + line_of(
            (k - 1) as nat,
            ns[k - 1],
            numbered,
            with_names,
        ) + "\n"@
    }
}

/// Everything a listing prints.
pub open spec fn listing_text(ns: Seq<NoteView>, numbered: bool, with_names: bool) -> Seq<char> {
    if ns.len() == 0 {
        no_notes_message() + "\n"@
    } else {
        listing_upto(ns, ns.len(), numbered, with_names)
    }
}

/// Which note a line number names, if any.
pub open spec fn line_check(len: nat, line: u32) -> Result<usize, LineError> {
    if len == 0 {
        Err(LineError::NoNotes)
    } else if line >= len {
        Err(LineError::NotInNotes)
    } else {
        Ok(line as usize)
    }
}

/// The collection after adding a note with text `text`: unchanged when the
/// text is blank.
pub open spec fn after_add(ns: Seq<NoteView>, text: Seq<char>, name: Option<Seq<char>>) -> Seq<NoteView> {
    if is_blank(text) {
        ns
    } else {
        ns.push(NoteView { text, name })
    }
}

/// What asking to delete `line` reports.
pub open spec fn delete_outcome(len: nat, line: u32, force: bool, confirmed: bool) -> DeleteOutcome {
    if len == 0 {
        DeleteOutcome::NoNotes
    } else if line >= len {
        DeleteOutcome::NotInNotes
    } else if !force && !confirmed {
        DeleteOutcome::Stopped
    } else {
        DeleteOutcome::Removed(line)
    }
}

/// The collection after asking to delete `line`.
pub open spec fn after_delete(ns: Seq<NoteView>, line: u32, force: bool, confirmed: bool) -> Seq<NoteView> {
    if delete_outcome(ns.len(), line, force, confirmed) == DeleteOutcome::Removed(line) {
        ns.remove(line as int)
    } else {
        ns
    }
}

impl DeleteOutcome {
    /// The message reported for this outcome.
    pub fn message(&self) -> (r: String)
        ensures
            r@ == match *self {
                DeleteOutcome::NoNotes => no_notes_message(),
                DeleteOutcome::NotInNotes => not_in_notes_message(),
                DeleteOutcome::Stopped => stopped_message(),
                DeleteOutcome::Removed(line) => removed_message(line),
            },
    {
        match *self {
            DeleteOutcome::NoNotes => String::from_str("No notes found! Try adding a note!"),
            DeleteOutcome::NotInNotes => String::from_str("Line specified not in notes!"),
            DeleteOutcome::Stopped => String::from_str("Deletion stopped."),
            DeleteOutcome::Removed(line) => {
                let mut r = String::from_str("Removed: ");
                let d = decimal_string(line as usize);
                r.append(d.as_str());
                r
            },
        }
    }
}

impl LineError {
    /// The message reported when a line number names no note.
    pub fn message(&self) -> (r: String)
        ensures
            r@ == match *self {
                LineError::NoNotes => no_notes_message(),
                LineError::NotInNotes => not_in_notes_message(),
            },
    {
        match *self {
            LineError::NoNotes => String::from_str("No notes found! Try adding a note!"),
            LineError::NotInNotes => String::from_str("Line specified not in notes!"),
        }
    }
}

/// The note that the words make, joined by spaces and labelled with `name`
/// if given; none when the text is blank.
pub fn compose_note(words: &Vec<String>, name: Option<String>) -> (r: Option<Note>)
    ensures
        r is Some <==> !is_blank(joined(words_view(words@))),
        r matches Some(n) ==> n@ == (NoteView {
            text: joined(words_view(words@)),
            name: opt_view(name),
        }),
{
    let text = join_words(words);
    let t = trim(text.as_str());
    proof {
        lemma_trimmed_empty_iff_blank(text@);
    }
    if t.as_str().is_empty() {
        None
    } else {
        Some(Note { text, name })
    }
}

impl Notes {
    /// The empty collection.
    pub fn new() -> (r: Notes)
        ensures
            r@ == Seq::<NoteView>::empty(),
    {
        Notes { notes: Vec::new() }
    }

    /// The number of notes.
    pub fn len(&self) -> (r: usize)
        ensures
            r == self@.len(),
    {
        self.notes.len()
    }

    /// The position that `line` names, or why it names no note.
    pub fn check_line(&self, line: u32) -> (r: Result<usize, LineError>)
        ensures
            r == line_check(self@.len(), line),
    {
        if self.notes.len() == 0 {
            Err(LineError::NoNotes)
        } else if line as usize >= self.notes.len() {
            Err(LineError::NotInNotes)
        } else {
            Ok(line as usize)
        }
    }

    /// Appends a note at the end.
    pub fn push(&mut self, n: Note)
        ensures
            final(self)@ == old(self)@.push(n@),
    {
        self.notes.push(n);
        assert(self@ =~= old(self)@.push(n@));
    }

    /// Appends a note made of the words joined by spaces, labelled with
    /// `name` if given. A blank text adds nothing; the result tells whether
    /// a note was added.
    pub fn add(&mut self, words: &Vec<String>, name: Option<String>) -> (added: bool)
        ensures
            added == !is_blank(joined(words_view(words@))),
            final(self)@ == after_add(old(self)@, joined(words_view(words@)), opt_view(name)),
    {
        match compose_note(words, name) {
            Some(n) => {
                self.push(n);
                true
            },
            None => false,
        }
    }

    /// Removes the note at position `i`; later notes move down by one.
    pub fn remove_at(&mut self, i: usize) -> (removed: Note)
        requires
            i < old(self)@.len(),
        ensures
            removed@ == old(self)@[i as int],
            final(self)@ == old(self)@.remove(i as int),
    {
        let removed = self.notes.remove(i);
        assert(self@ =~= old(self)@.remove(i as int));
        removed
    }

    /// Whether deleting `line` waits for a confirmation: only when the line
    /// names a note and the deletion is not forced.
    pub fn needs_confirmation(&self, line: u32, force: bool) -> (r: bool)
        ensures
            r == (!force && line_check(self@.len(), line) is Ok),
    {
        !force && self.check_line(line).is_ok()
    }

    /// Deletes the note that `line` names, when forced or confirmed.
    /// An empty collection, a line past the end, or a declined confirmation
    /// leaves the collection as it was.
    pub fn delete_line(&mut self, line: u32, force: bool, confirmed: bool) -> (r: DeleteOutcome)
        ensures
            r == delete_outcome(old(self)@.len(), line, force, confirmed),
            final(self)@ == after_delete(old(self)@, line, force, confirmed),
    {
        match self.check_line(line) {
            Err(LineError::NoNotes) => DeleteOutcome::NoNotes,
            Err(LineError::NotInNotes) => DeleteOutcome::NotInNotes,
            Ok(i) => {
                if !force && !confirmed {
                    DeleteOutcome::Stopped
                } else {
                    self.remove_at(i);
                    DeleteOutcome::Removed(line)
                }
            },
        }
    }

    /// Replaces the text of the note at position `i` with the edited text,
    /// trimmed; the note keeps its name. Returns the text committed.
    pub fn commit_edit(&mut self, i: usize, edited: &str) -> (committed: String)
        requires
            i < old(self)@.len(),
        ensures
            committed@ == trimmed(edited@),
            final(self)@ == old(self)@.update(
                i as int,
                NoteView { text: trimmed(edited@), name: old(self)@[i as int].name },
            ),
    {
        let committed = trim(edited);
        let name = match &self.notes[i].name {
            Some(nm) => Some(nm.clone()),
            None => None,
        };
        let n = Note { text: committed.clone(), name };
        self.notes.set(i, n);
        assert(self@ =~= old(self)@.update(i as int, n@));
        committed
    }
}

/// The listed line of note `n` at position `i`.
fn render_line(i: usize, n: &Note, numbered: bool, with_names: bool) -> (r: String)
    ensures
        r@ == line_of(i as nat, n@, numbered, with_names),
{
    let mut r = String::new();
    if numbered {
        let d = decimal_string(i);
        r.append(d.as_str());
        r.append(": ");
    }
    if with_names {
        if let Some(nm) = &n.name {
            r.append(nm.as_str());
            r.append(" ~ ");
        }
    }
    if numbered {
        r.append(n.text.as_str());
    } else {
        let t = trim(n.text.as_str());
        r.append(t.as_str());
    }
    proof {
        reveal_strlit(": ");
        reveal_strlit(" ~ ");
    }
    assert(r@ =~= line_of(i as nat, n@, numbered, with_names));
    r
}

impl Notes {
    /// One rendered line per note, in order: numbered mode prefixes the
    /// position and `": "`, plain mode trims the text.
    pub fn lines(&self, numbered: bool, with_names: bool) -> (r: Vec<String>)
        ensures
            r@.len() == self@.len(),
            forall|i: int|
                0 <= i < r@.len() ==> (#[trigger] r@[i])@ == line_of(
                    i as nat,
                    self@[i],
                    numbered,
                    with_names,
                ),
    {
        let mut r: Vec<String> = Vec::new();
        let mut i: usize = 0;
        while i < self.notes.len()
            invariant
                i <= self@.len(),
                r@.len() == i,
                forall|j: int|
                    0 <= j < i ==> (#[trigger] r@[j])@ == line_of(j as nat, self@[j], numbered, with_names),
            decreases self@.len() - i,
        {
            let line = render_line(i, &self.notes[i], numbered, with_names);
            r.push(line);
            i = i + 1;
        }
        r
    }

    /// Everything a listing prints: each note's line and a newline, or the
    /// no-notes message when the collection is empty.
    pub fn listing(&self, numbered: bool, with_names: bool) -> (r: String)
        ensures
            r@ == listing_text(self@, numbered, with_names),
    {
        proof {
            reveal_strlit("\n");
        }
        if self.notes.len() == 0 {
            let mut r = String::from_str("No notes found! Try adding a note!");
            r.append("\n");
            return r;
        }
        let mut r = String::new();
        let mut i: usize = 0;
        while i < self.notes.len()
            invariant
                i <= self@.len(),
                r@ == listing_upto(self@, i as nat, numbered, with_names),
            decreases self@.len() - i,
        {
            let line = render_line(i, &self.notes[i], numbered, with_names);
            r.append(line.as_str());
            r.append("\n");
            i = i + 1;
        }
        r
    }
}

/// Adding a text that is not blank to an empty collection and listing it
/// gives one line: the trimmed text in plain mode, `0: ` and the text in
/// numbered mode. A single word is added as it is.
pub proof fn lemma_add_then_list(t: Seq<char>, with_names: bool)
    requires
        !is_blank(t),
    ensures
        joined(seq![t]) == t,
        after_add(Seq::empty(), t, None).len() == 1,
        listing_text(after_add(Seq::empty(), t, None), false, with_names) == trimmed(t) + "\n"@,
        listing_text(after_add(Seq::empty(), t, None), true, with_names) == "0: "@ + t + "\n"@,
{
    let ns = after_add(Seq::empty(), t, None);
    assert(ns[0] == NoteView { text: t, name: None });
    assert(decimal(0) =~= seq!['0']);
    reveal_strlit("0: ");
    reveal_strlit(": ");
    assert("0: "@ =~= decimal(0) + ": "@);
    assert(listing_upto(ns, 0, false, with_names) == Seq::<char>::empty());
    assert(listing_upto(ns, 0, true, with_names) == Seq::<char>::empty());
    assert(listing_upto(ns, 1, false, with_names) =~= trimmed(t) + "\n"@);
    assert(listing_upto(ns, 1, true, with_names) =~= "0: "@ + t + "\n"@);
}

/// Adding a blank text (empty, or only whitespace) leaves the collection as it was.
pub proof fn lemma_blank_add_unchanged(ns: Seq<NoteView>, t: Seq<char>, name: Option<Seq<char>>)
    requires
        is_blank(t),
    ensures
        after_add(ns, t, name) == ns,
        after_add(ns, t, name).len() == ns.len(),
{
}

/// A forced delete at a position inside the collection removes that note:
/// the notes before it stay, the notes after it move down by one.
pub proof fn lemma_forced_delete_removes(ns: Seq<NoteView>, i: u32, confirmed: bool)
    requires
        i < ns.len(),
    ensures
        delete_outcome(ns.len(), i, true, confirmed) == DeleteOutcome::Removed(i),
        after_delete(ns, i, true, confirmed).len() == ns.len() - 1,
        forall|j: int| 0 <= j < i ==> #[trigger] after_delete(ns, i, true, confirmed)[j] == ns[j],
        forall|j: int|
            i <= j < ns.len() - 1 ==> #[trigger] after_delete(ns, i, true, confirmed)[j] == ns[j + 1],
{
}

/// A delete at a position past the end (any position, on an empty
/// collection) changes nothing and reports that the line names no note.
pub proof fn lemma_delete_out_of_range(ns: Seq<NoteView>, i: u32, force: bool, confirmed: bool)
    requires
        i >= ns.len(),
    ensures
        after_delete(ns, i, force, confirmed) == ns,
        delete_outcome(ns.len(), i, force, confirmed) == if ns.len() == 0 {
            DeleteOutcome::NoNotes
        } else {
            DeleteOutcome::NotInNotes
        },
{
}

/// A delete that is neither forced nor confirmed changes nothing; inside
/// the collection it reports that the deletion was stopped.
pub proof fn lemma_declined_delete_unchanged(ns: Seq<NoteView>, i: u32)
    ensures
        after_delete(ns, i, false, false) == ns,
        i < ns.len() ==> delete_outcome(ns.len(), i, false, false) == DeleteOutcome::Stopped,
{
}

} // verus!
