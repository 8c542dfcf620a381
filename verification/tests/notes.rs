use bar_minimal_tools::notes::{
    create_note, delete_note, generate_note_id, is_whitespace, list_notes, note_id,
    notes_file_is_blank, update_note, Note, NoteError,
};
use bar_minimal_tools::text::is_text_less;

fn note(id: &str, title: &str) -> Note {
    Note {
        id: id.to_string(),
        title: title.to_string(),
        content: format!("about {title}"),
        updated_at: "2025-01-01T00:00:00+00:00".to_string(),
    }
}

fn titles(notes: &[Note]) -> Vec<String> {
    notes.iter().map(|n| n.title.clone()).collect()
}

#[test]
fn note_identifier_is_made_of_time_and_round() {
    assert_eq!(note_id(1714543920000, 0), "note_1714543920000");
    assert_eq!(note_id(1714543920000, 1), "note_1714543920000_1");
    assert_eq!(note_id(1714543920000, 42), "note_1714543920000_42");
    assert_eq!(note_id(0, 0), "note_0");
    assert_eq!(note_id(-5, 3), "note_-5_3");
    assert_eq!(note_id(i64::MIN, u32::MAX), "note_-9223372036854775808_4294967295");
}

#[test]
fn new_identifier_is_the_first_that_is_free() {
    assert_eq!(generate_note_id(&vec![], 1000), Some("note_1000".to_string()));
    let notes = vec![note("note_1000", "a"), note("other", "b")];
    assert_eq!(generate_note_id(&notes, 1000), Some("note_1000_1".to_string()));
    let notes = vec![note("note_1000_1", "a"), note("note_1000", "b"), note("note_1000_3", "c")];
    assert_eq!(generate_note_id(&notes, 1000), Some("note_1000_2".to_string()));
    assert_eq!(generate_note_id(&notes, 2000), Some("note_2000".to_string()));
}

#[test]
fn note_is_created_at_the_end() {
    let mut notes = vec![note("n1", "First")];
    let made = create_note(&mut notes, "n2".to_string(), Some("Second".to_string()), "now".to_string());
    assert_eq!(
        made,
        Note {
            id: "n2".to_string(),
            title: "Second".to_string(),
            content: String::new(),
            updated_at: "now".to_string(),
        }
    );
    assert_eq!(notes.len(), 2);
    assert_eq!(notes[1], made);
    let untitled = create_note(&mut notes, "n3".to_string(), None, "later".to_string());
    assert_eq!(untitled.title, "Nova nota");
    assert_eq!(titles(&notes), vec!["First", "Second", "Nova nota"]);
}

#[test]
fn note_is_updated_in_place() {
    let mut notes = vec![note("n1", "First"), note("n2", "Second"), note("n3", "Third")];
    let updated = update_note(
        &mut notes,
        &"n2".to_string(),
        "Changed".to_string(),
        "new text".to_string(),
        "2025-06-01T12:00:00+00:00".to_string(),
    )
    .unwrap();
    assert_eq!(
        updated,
        Note {
            id: "n2".to_string(),
            title: "Changed".to_string(),
            content: "new text".to_string(),
            updated_at: "2025-06-01T12:00:00+00:00".to_string(),
        }
    );
    assert_eq!(notes[1], updated);
    assert_eq!(titles(&notes), vec!["First", "Changed", "Third"]);
    assert_eq!(notes[0], note("n1", "First"));
}

#[test]
fn updating_an_unknown_note_fails() {
    let mut notes = vec![note("n1", "First")];
    let r = update_note(&mut notes, &"zz".to_string(), "t".to_string(), "c".to_string(), "now".to_string());
    assert_eq!(r, Err(NoteError::NotFound));
    assert_eq!(notes, vec![note("n1", "First")]);
    assert_eq!(NoteError::NotFound.message(), "Note not found");
}

#[test]
fn note_is_deleted_by_identifier() {
    let mut notes = vec![note("n1", "First"), note("n2", "Second"), note("n1", "Twin")];
    delete_note(&mut notes, &"n1".to_string());
    assert_eq!(titles(&notes), vec!["Second"]);
    delete_note(&mut notes, &"n1".to_string());
    assert_eq!(titles(&notes), vec!["Second"]);
    delete_note(&mut notes, &"n2".to_string());
    assert!(notes.is_empty());
}

#[test]
fn blank_notes_file_holds_no_notes() {
    assert!(notes_file_is_blank(""));
    assert!(notes_file_is_blank(" \t\r\n"));
    assert!(notes_file_is_blank("\u{a0}\u{2003}"));
    assert!(!notes_file_is_blank("[]"));
    assert!(!notes_file_is_blank("  x  "));
    assert!(!notes_file_is_blank("\u{200b}"));
}

fn changed(id: &str, at: &str) -> Note {
    Note { id: id.to_string(), title: id.to_uppercase(), content: String::new(), updated_at: at.to_string() }
}

fn ids(notes: &[Note]) -> Vec<String> {
    notes.iter().map(|n| n.id.clone()).collect()
}

#[test]
fn notes_are_listed_newest_first() {
    let notes = vec![
        changed("a", "2025-01-02T10:00:00+00:00"),
        changed("b", "2025-03-01T09:00:00+00:00"),
        changed("c", "2024-12-31T23:59:59+00:00"),
        changed("d", "2025-03-01T09:00:01+00:00"),
    ];
    let listed = list_notes(&notes);
    assert_eq!(ids(&listed), vec!["d", "b", "a", "c"]);
    assert_eq!(listed[0], notes[3]);
    assert_eq!(notes.len(), 4);
}

#[test]
fn notes_changed_at_the_same_time_keep_their_order() {
    let notes = vec![
        changed("a", "t2"),
        changed("b", "t1"),
        changed("c", "t2"),
        changed("d", "t3"),
        changed("e", "t1"),
        changed("f", "t2"),
    ];
    assert_eq!(ids(&list_notes(&notes)), vec!["d", "a", "c", "f", "b", "e"]);
    assert!(list_notes(&vec![]).is_empty());
    assert_eq!(ids(&list_notes(&vec![changed("x", "")])), vec!["x"]);
}

#[test]
fn listing_agrees_with_the_standard_order_of_text() {
    let times = ["", "a", "ab", "b", "B", "é", "e\u{301}", "z", "😀", "10", "9", "ab", "\u{7f}", "\u{80}"];
    let notes: Vec<Note> =
        times.iter().enumerate().map(|(i, t)| changed(&format!("n{i}"), t)).collect();
    let mut expected = notes.clone();
    expected.sort_by(|a, b| b.updated_at.cmp(&a.updated_at));
    assert_eq!(list_notes(&notes), expected);
    for a in times {
        for b in times {
            let x: Vec<char> = a.chars().collect();
            let y: Vec<char> = b.chars().collect();
            assert_eq!(is_text_less(&x, &y), a < b, "{a:?} {b:?}");
        }
    }
}

#[test]
fn white_space_is_what_the_standard_library_trims() {
    let mut count = 0;
    for n in 0..=0x10FFFFu32 {
        if let Some(c) = char::from_u32(n) {
            assert_eq!(is_whitespace(c), c.is_whitespace(), "U+{n:04X}");
            if is_whitespace(c) {
                count += 1;
            }
        }
    }
    assert_eq!(count, 25);
    for content in ["", " ", "\u{85}\u{1680}\u{2028}\u{3000}", " a ", "\u{feff}", "\u{180e}"] {
        assert_eq!(notes_file_is_blank(content), content.trim().is_empty(), "{content:?}");
    }
}
