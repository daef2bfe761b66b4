use note_app::decimal::numbered;
use note_app::model::{Folder, Note};
use note_app::state::{Gesture, NoteApp};

fn s(t: &str) -> String {
    t.to_string()
}

fn after(gestures: Vec<Gesture>) -> NoteApp {
    let mut app = NoteApp::new();
    app.update(gestures);
    app
}

#[test]
fn new_state_is_empty() {
    let app = NoteApp::new();
    assert!(app.folders.is_empty());
    assert_eq!(app.selected_folder, None);
    assert_eq!(app.selected_note, None);
    assert_eq!(app.search_query, "");
    assert_eq!(app.new_tag, "");
}

#[test]
fn scenario_tag_on_second_folder() {
    let app = after(vec![
        Gesture::AddFolder,
        Gesture::AddFolder,
        Gesture::ClickFolder(1),
        Gesture::AddNote,
        Gesture::ClickNote(0),
        Gesture::EditContent(s("hello")),
        Gesture::SetNewTag(s("todo")),
        Gesture::AddTag,
    ]);
    assert_eq!(app.folders.len(), 2);
    assert_eq!(app.folders[0].id, 0);
    assert_eq!(app.folders[0].name, "Folder 1");
    assert!(app.folders[0].notes.is_empty());
    assert_eq!(app.folders[1].id, 1);
    assert_eq!(app.folders[1].name, "Folder 2");
    assert_eq!(app.folders[1].notes.len(), 1);
    let note = &app.folders[1].notes[0];
    assert_eq!(note.id, 0);
    assert_eq!(note.title, "Note 1");
    assert_eq!(note.content, "hello");
    assert_eq!(note.tags, vec![s("todo")]);
    assert_eq!(app.selected_folder, Some(1));
    assert_eq!(app.selected_note, Some(0));
    assert_eq!(app.new_tag, "");
}

#[test]
fn scenario_empty_tag_not_added() {
    let app = after(vec![
        Gesture::AddFolder,
        Gesture::ClickFolder(0),
        Gesture::AddNote,
        Gesture::ClickNote(0),
        Gesture::SetNewTag(s("")),
        Gesture::AddTag,
    ]);
    assert_eq!(app.folders[0].notes.len(), 1);
    assert!(app.folders[0].notes[0].tags.is_empty());
    assert_eq!(app.new_tag, "");
}

#[test]
fn scenario_folder_switch_clears_note() {
    let app = after(vec![
        Gesture::AddFolder,
        Gesture::AddFolder,
        Gesture::ClickFolder(0),
        Gesture::AddNote,
        Gesture::ClickNote(0),
        Gesture::ClickFolder(1),
    ]);
    assert_eq!(app.selected_folder, Some(1));
    assert_eq!(app.selected_note, None);
    assert_eq!(app.folders[0].notes.len(), 1);
}

#[test]
fn scenario_search_only_records_text() {
    let app = after(vec![Gesture::EditSearch(s("xyz"))]);
    assert_eq!(app.search_query, "xyz");
    assert!(app.folders.is_empty());
    assert_eq!(app.selected_folder, None);
    assert_eq!(app.selected_note, None);
}

#[test]
fn search_does_not_filter() {
    let app = after(vec![
        Gesture::AddFolder,
        Gesture::AddFolder,
        Gesture::EditSearch(s("nothing matches")),
    ]);
    assert_eq!(app.folders.len(), 2);
    assert_eq!(app.search_query, "nothing matches");
}

#[test]
fn selection_stays_valid_after_every_gesture() {
    let gestures = vec![
        Gesture::ClickFolder(0),
        Gesture::ClickNote(3),
        Gesture::AddNote,
        Gesture::AddFolder,
        Gesture::ClickNote(0),
        Gesture::ClickFolder(4),
        Gesture::ClickFolder(0),
        Gesture::ClickNote(0),
        Gesture::AddNote,
        Gesture::ClickNote(2),
        Gesture::ClickNote(0),
        Gesture::AddFolder,
        Gesture::ClickFolder(1),
    ];
    let mut app = NoteApp::new();
    for g in gestures {
        app.apply(g);
        if let Some(i) = app.selected_folder {
            assert!(i < app.folders.len());
            if let Some(k) = app.selected_note {
                assert!(k < app.folders[i].notes.len());
            }
        } else {
            assert_eq!(app.selected_note, None);
        }
    }
    assert_eq!(app.selected_folder, Some(1));
    assert_eq!(app.selected_note, None);
}

#[test]
fn clicking_same_folder_clears_note() {
    let app = after(vec![
        Gesture::AddFolder,
        Gesture::ClickFolder(0),
        Gesture::AddNote,
        Gesture::ClickNote(0),
        Gesture::ClickFolder(0),
    ]);
    assert_eq!(app.selected_folder, Some(0));
    assert_eq!(app.selected_note, None);
}

#[test]
fn add_folder_numbers_twelve_folders() {
    let app = after((0..12).map(|_| Gesture::AddFolder).collect());
    assert_eq!(app.folders.len(), 12);
    for (i, f) in app.folders.iter().enumerate() {
        assert_eq!(f.id as usize, i);
        assert_eq!(f.name, format!("Folder {}", i + 1));
        assert!(f.notes.is_empty());
    }
    assert_eq!(app.folders[11].name, "Folder 12");
    assert_eq!(app.selected_folder, None);
}

#[test]
fn add_note_numbers_eleven_notes() {
    let mut gestures = vec![Gesture::AddFolder, Gesture::AddFolder, Gesture::ClickFolder(1)];
    for _ in 0..11 {
        gestures.push(Gesture::AddNote);
    }
    let app = after(gestures);
    assert!(app.folders[0].notes.is_empty());
    let notes = &app.folders[1].notes;
    assert_eq!(notes.len(), 11);
    for (k, n) in notes.iter().enumerate() {
        assert_eq!(n.id as usize, k);
        assert_eq!(n.title, format!("Note {}", k + 1));
        assert_eq!(n.content, "");
        assert!(n.tags.is_empty());
    }
    assert_eq!(notes[10].title, "Note 11");
    assert_eq!(app.selected_note, None);
}

#[test]
fn add_note_keeps_note_selection() {
    let app = after(vec![
        Gesture::AddFolder,
        Gesture::ClickFolder(0),
        Gesture::AddNote,
        Gesture::ClickNote(0),
        Gesture::AddNote,
    ]);
    assert_eq!(app.selected_folder, Some(0));
    assert_eq!(app.selected_note, Some(0));
    assert_eq!(app.folders[0].notes.len(), 2);
}

#[test]
fn add_tag_with_empty_buffer_changes_nothing() {
    let mut app = after(vec![
        Gesture::AddFolder,
        Gesture::ClickFolder(0),
        Gesture::AddNote,
        Gesture::ClickNote(0),
        Gesture::SetNewTag(s("a")),
        Gesture::AddTag,
    ]);
    app.apply(Gesture::AddTag);
    assert_eq!(app.folders[0].notes[0].tags, vec![s("a")]);
    assert_eq!(app.new_tag, "");
}

#[test]
fn tags_are_appended_in_order_with_duplicates() {
    let app = after(vec![
        Gesture::AddFolder,
        Gesture::ClickFolder(0),
        Gesture::AddNote,
        Gesture::ClickNote(0),
        Gesture::SetNewTag(s("work")),
        Gesture::AddTag,
        Gesture::SetNewTag(s("urgent")),
        Gesture::AddTag,
        Gesture::SetNewTag(s("work")),
        Gesture::AddTag,
    ]);
    assert_eq!(app.folders[0].notes[0].tags, vec![s("work"), s("urgent"), s("work")]);
    assert_eq!(app.new_tag, "");
}

#[test]
fn tag_buffer_is_shared_between_notes() {
    let app = after(vec![
        Gesture::AddFolder,
        Gesture::ClickFolder(0),
        Gesture::AddNote,
        Gesture::AddNote,
        Gesture::ClickNote(0),
        Gesture::SetNewTag(s("draft")),
        Gesture::ClickNote(1),
        Gesture::AddTag,
    ]);
    assert!(app.folders[0].notes[0].tags.is_empty());
    assert_eq!(app.folders[0].notes[1].tags, vec![s("draft")]);
}

#[test]
fn content_keeps_newlines() {
    let app = after(vec![
        Gesture::AddFolder,
        Gesture::ClickFolder(0),
        Gesture::AddNote,
        Gesture::ClickNote(0),
        Gesture::EditContent(s("line one\nline two")),
    ]);
    assert_eq!(app.folders[0].notes[0].content, "line one\nline two");
    assert_eq!(app.folders[0].notes[0].title, "Note 1");
}

#[test]
fn gestures_without_their_widget_are_ignored() {
    let app = after(vec![
        Gesture::ClickFolder(0),
        Gesture::AddNote,
        Gesture::ClickNote(0),
        Gesture::EditContent(s("lost")),
        Gesture::SetNewTag(s("lost")),
        Gesture::AddTag,
        Gesture::AddFolder,
        Gesture::ClickFolder(0),
        Gesture::ClickNote(0),
        Gesture::EditContent(s("lost")),
        Gesture::SetNewTag(s("lost")),
    ]);
    assert_eq!(app.folders.len(), 1);
    assert!(app.folders[0].notes.is_empty());
    assert_eq!(app.selected_folder, Some(0));
    assert_eq!(app.selected_note, None);
    assert_eq!(app.new_tag, "");
}

#[test]
fn stale_selection_is_reset() {
    let mut app = NoteApp::new();
    app.selected_folder = Some(3);
    app.selected_note = Some(0);
    app.update(Vec::new());
    assert_eq!(app.selected_folder, None);
    assert_eq!(app.selected_note, None);
}

#[test]
fn stale_note_selection_is_reset() {
    let mut app = after(vec![Gesture::AddFolder, Gesture::ClickFolder(0)]);
    app.selected_note = Some(2);
    app.repair();
    assert_eq!(app.selected_folder, Some(0));
    assert_eq!(app.selected_note, None);
}

#[test]
fn empty_frame_leaves_state_alone() {
    let mut app = after(vec![
        Gesture::AddFolder,
        Gesture::ClickFolder(0),
        Gesture::AddNote,
        Gesture::ClickNote(0),
    ]);
    app.update(Vec::new());
    assert_eq!(app.folders.len(), 1);
    assert_eq!(app.folders[0].notes.len(), 1);
    assert_eq!(app.selected_folder, Some(0));
    assert_eq!(app.selected_note, Some(0));
}

#[test]
fn numbered_renders_decimal() {
    assert_eq!(numbered("Folder ", 0), "Folder 0");
    assert_eq!(numbered("Note ", 7), "Note 7");
    assert_eq!(numbered("Note ", 10), "Note 10");
    assert_eq!(numbered("", 1234567890), "1234567890");
    assert_eq!(numbered("n", u128::MAX), format!("n{}", u128::MAX));
}

#[test]
fn fresh_items_are_numbered_from_one() {
    let f = Folder::numbered(41);
    assert_eq!(f.id, 41);
    assert_eq!(f.name, "Folder 42");
    assert!(f.notes.is_empty());
    let n = Note::numbered(99);
    assert_eq!(n.id, 99);
    assert_eq!(n.title, "Note 100");
    assert_eq!(n.content, "");
    assert!(n.tags.is_empty());
}
