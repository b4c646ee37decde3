//! The commands the tool takes.
use vstd::prelude::*;

verus! {

/// One command: add a note, list the notes, delete or edit one by position.
#[derive(Debug)]
pub enum Opt {
    /// Add a note made of the words, optionally named.
    Add { note: Vec<String>, name: Option<String> },
    /// List the notes, numbered or plain, with or without their names.
    Cat { numbered: bool, without_names: bool },
    /// Delete the note at a position, asking first unless forced.
    Del { line: u32, force: bool },
    /// Edit the note at a position in an external editor.
    Edit { line: u32 },
}

} // verus!
