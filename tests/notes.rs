use rem::config::Opt;
use rem::engine::{answer_of, committed_message, empty_note_message, parse_answer};
use rem::note::{compose_note, DeleteOutcome, LineError, Note, Notes};
use rem::text::{decimal_string, is_whitespace_char, join_words, trim};

fn words(ws: &[&str]) -> Vec<String> {
    ws.iter().map(|w| w.to_string()).collect()
}

fn notes_of(texts: &[&str]) -> Notes {
    let mut n = Notes::new();
    for t in texts {
        n.push(Note::new(t.to_string()));
    }
    n
}

fn texts(n: &Notes) -> Vec<String> {
    n.notes.iter().map(|x| x.text.clone()).collect()
}

#[test]
fn words_join_with_single_spaces() {
    assert_eq!("a b  c", join_words(&words(&["a", "b ", "c"])));
    assert_eq!("", join_words(&words(&[])));
    assert_eq!("one", join_words(&words(&["one"])));
}

#[test]
fn add_joins_words_and_keeps_text_untrimmed() {
    let mut n = Notes::new();
    assert!(n.add(&words(&["  hello", "world "]), None));
    assert_eq!(vec![String::from("  hello world ")], texts(&n));
}

#[test]
fn blank_notes_are_not_added() {
    let mut n = notes_of(&["kept"]);
    assert!(!n.add(&words(&[" ", "\t"]), None));
    assert!(!n.add(&words(&[]), Some(String::from("name"))));
    assert!(!n.add(&words(&["\u{3000}\u{a0}"]), None));
    assert_eq!(1, n.len());
    assert!(compose_note(&words(&["", ""]), None).is_none());
}

#[test]
fn composed_note_carries_its_name() {
    let n = compose_note(&words(&["frodo"]), Some(String::from("hobbits"))).unwrap();
    assert_eq!("frodo", n.text);
    assert_eq!(Some(String::from("hobbits")), n.name);
    let plain = Note::new(String::from("t"));
    assert_eq!(None, plain.name);
    let named = Note::named(String::from("n"), String::from("t"));
    assert_eq!(Some(String::from("n")), named.name);
}

#[test]
fn plain_listing_trims_each_line() {
    let n = notes_of(&["  first ", "second\t"]);
    assert_eq!("first\nsecond\n", n.listing(false, true));
}

#[test]
fn numbered_listing_keeps_text_and_counts_from_zero() {
    let mut n = notes_of(&[" a", "b", "c", "d", "e", "f", "g", "h", "i", "j"]);
    n.push(Note::new(String::from("k")));
    let out = n.listing(true, true);
    assert!(out.starts_with("0:  a\n1: b\n"));
    assert!(out.ends_with("9: j\n10: k\n"));
}

#[test]
fn names_can_be_left_out_of_listing() {
    let mut n = Notes::new();
    n.push(Note::named(String::from("hobbits"), String::from("frodo")));
    assert_eq!("hobbits ~ frodo\n", n.listing(false, true));
    assert_eq!("0: frodo\n", n.listing(true, false));
    assert_eq!(vec![String::from("0: hobbits ~ frodo")], n.lines(true, true));
}

#[test]
fn empty_listing_says_no_notes() {
    assert_eq!("No notes found! Try adding a note!\n", Notes::new().listing(false, true));
    assert!(Notes::new().lines(false, true).is_empty());
}

#[test]
fn lines_has_one_entry_per_note() {
    let n = notes_of(&["x ", "y"]);
    assert_eq!(vec![String::from("x"), String::from("y")], n.lines(false, true));
    assert_eq!(vec![String::from("0: x "), String::from("1: y")], n.lines(true, true));
}

#[test]
fn forced_delete_shifts_later_notes_down() {
    let mut n = notes_of(&["a", "b", "c", "d"]);
    assert_eq!(DeleteOutcome::Removed(1), n.delete_line(1, true, false));
    assert_eq!(vec!["a", "c", "d"], texts(&n));
    assert_eq!(DeleteOutcome::Removed(2), n.delete_line(2, true, false));
    assert_eq!(vec!["a", "c"], texts(&n));
}

#[test]
fn confirmed_delete_removes() {
    let mut n = notes_of(&["a", "b"]);
    assert!(n.needs_confirmation(0, false));
    assert_eq!(DeleteOutcome::Removed(0), n.delete_line(0, false, true));
    assert_eq!(vec!["b"], texts(&n));
}

#[test]
fn declined_delete_changes_nothing() {
    let mut n = notes_of(&["a", "b"]);
    assert_eq!(DeleteOutcome::Stopped, n.delete_line(1, false, false));
    assert_eq!(vec!["a", "b"], texts(&n));
    assert_eq!("Deletion stopped.", DeleteOutcome::Stopped.message());
}

#[test]
fn delete_past_the_end_changes_nothing() {
    let mut n = notes_of(&["a"]);
    assert!(!n.needs_confirmation(1, false));
    assert_eq!(DeleteOutcome::NotInNotes, n.delete_line(1, true, true));
    assert_eq!(vec!["a"], texts(&n));
    let mut e = Notes::new();
    assert_eq!(DeleteOutcome::NoNotes, e.delete_line(0, true, true));
    assert_eq!(0, e.len());
    assert!(!e.needs_confirmation(0, false));
}

#[test]
fn delete_messages() {
    assert_eq!("Removed: 12", DeleteOutcome::Removed(12).message());
    assert_eq!("No notes found! Try adding a note!", DeleteOutcome::NoNotes.message());
    assert_eq!("Line specified not in notes!", DeleteOutcome::NotInNotes.message());
    assert_eq!("No notes found! Try adding a note!", LineError::NoNotes.message());
    assert_eq!("Line specified not in notes!", LineError::NotInNotes.message());
}

#[test]
fn line_check_bounds() {
    let n = notes_of(&["a", "b"]);
    assert_eq!(Ok(1), n.check_line(1));
    assert_eq!(Err(LineError::NotInNotes), n.check_line(2));
    assert_eq!(Err(LineError::NoNotes), Notes::new().check_line(0));
}

#[test]
fn edit_replaces_text_trimmed_and_keeps_name() {
    let mut n = Notes::new();
    n.push(Note::new(String::from("a")));
    n.push(Note::named(String::from("k"), String::from("b")));
    let committed = n.commit_edit(1, "  new text\n");
    assert_eq!("new text", committed);
    assert_eq!(vec!["a", "new text"], texts(&n));
    assert_eq!(Some(String::from("k")), n.notes[1].name);
    assert_eq!("Note committed! new text", committed_message(&committed));
}

#[test]
fn removed_note_is_returned() {
    let mut n = notes_of(&["a", "b"]);
    assert_eq!("a", n.remove_at(0).text);
    assert_eq!(vec!["b"], texts(&n));
}

#[test]
fn confirmation_answers() {
    assert_eq!(Some(true), parse_answer(" Y\n"));
    assert_eq!(Some(true), parse_answer("YES"));
    assert_eq!(Some(false), parse_answer("n\n"));
    assert_eq!(Some(false), parse_answer("\tNo "));
    assert_eq!(None, parse_answer("maybe\n"));
    assert_eq!(None, parse_answer(""));
    assert_eq!(Some(true), answer_of("yes"));
    assert_eq!(None, answer_of("Yes"));
}

#[test]
fn empty_note_message_text() {
    assert_eq!("Your note is empty, try adding some content.", empty_note_message());
}

#[test]
fn commands_hold_their_arguments() {
    let o = Opt::Del { line: 3, force: true };
    assert!(matches!(o, Opt::Del { line: 3, force: true }));
    let a = Opt::Add { note: words(&["x"]), name: None };
    assert!(matches!(a, Opt::Add { .. }));
    assert!(matches!(Opt::Cat { numbered: true, without_names: false }, Opt::Cat { .. }));
    assert!(matches!(Opt::Edit { line: 0 }, Opt::Edit { line: 0 }));
}

#[test]
fn decimal_strings() {
    assert_eq!("0", decimal_string(0));
    assert_eq!("7", decimal_string(7));
    assert_eq!("10", decimal_string(10));
    assert_eq!("12345", decimal_string(12345));
    assert_eq!(usize::MAX.to_string(), decimal_string(usize::MAX));
}

#[test]
fn trimming_removes_only_outer_whitespace() {
    assert_eq!("a  b", trim("  a  b\t\n"));
    assert_eq!("", trim(" \u{3000}\u{2028}\r"));
    assert_eq!("", trim(""));
    assert_eq!("é x", trim("\u{a0}é x\u{85}"));
    assert!(is_whitespace_char('\u{200a}'));
    assert!(!is_whitespace_char('\u{200b}'));
    assert!(!is_whitespace_char('x'));
}
