//! Notes and folders, and their mathematical views.
use vstd::prelude::*;

use crate::decimal::{numbered, numbered_label};

verus! {

/// A note: a title, free-form text and an ordered list of tags.
pub struct Note {
    pub id: u32,
    pub title: String,
    pub content: String,
    pub tags: Vec<String>,
}

/// A named, ordered collection of notes.
pub struct Folder {
    pub id: u32,
    pub name: String,
    pub notes: Vec<Note>,
}

/// What a note holds, with every string seen as its characters.
pub struct NoteView {
    pub id: u32,
    pub title: Seq<char>,
    pub content: Seq<char>,
    pub tags: Seq<Seq<char>>,
}

/// What a folder holds, with its notes seen through their views.
pub struct FolderView {
    pub id: u32,
    pub name: Seq<char>,
    pub notes: Seq<NoteView>,
}

/// The characters of a list of strings.
pub open spec fn strings_view(v: Seq<String>) -> Seq<Seq<char>> {
    v.map_values(|t: String| t@)
}

impl View for Note {
    type V = NoteView;

    open spec fn view(&self) -> NoteView {
        NoteView {
            id: self.id,
            title: self.title@,
            content: self.content@,
            tags: strings_view(self.tags@),
        }
    }
}

/// The views of a list of notes.
pub open spec fn notes_view(v: Seq<Note>) -> Seq<NoteView> {
    v.map_values(|n: Note| n@)
}

impl View for Folder {
    type V = FolderView;

    open spec fn view(&self) -> FolderView {
        FolderView { id: self.id, name: self.name@, notes: notes_view(self.notes@) }
    }
}

/// The views of a list of folders.
pub open spec fn folders_view(v: Seq<Folder>) -> Seq<FolderView> {
    v.map_values(|f: Folder| f@)
}

/// The title given to the note created when a folder already holds `count` notes.
pub open spec fn note_title(count: nat) -> Seq<char> {
    numbered_label("Note "@, count + 1)
}

/// The name given to the folder created when `count` folders already exist.
pub open spec fn folder_name(count: nat) -> Seq<char> {
    numbered_label("Folder "@, count + 1)
}

/// The note created when a folder already holds `count` notes: its id is the
/// count, its title numbers it from one, and it has no content and no tags.
pub open spec fn fresh_note(count: nat) -> NoteView {
    NoteView {
        id: count as u32,
        title: note_title(count),
        content: Seq::empty(),
        tags: Seq::empty(),
    }
}

/// The folder created when `count` folders already exist: its id is the count,
/// its name numbers it from one, and it holds no notes.
pub open spec fn fresh_folder(count: nat) -> FolderView {
    FolderView { id: count as u32, name: folder_name(count), notes: Seq::empty() }
}

impl Note {
    /// The note to append to a folder that holds `count` notes.
    pub fn numbered(count: usize) -> (r: Note)
        ensures
            r@ == fresh_note(count as nat),
    {
        let r = Note {
            id: count as u32,
            title: numbered("Note ", count as u128 + 1),
            content: String::new(),
            tags: Vec::new(),
        };
        assert(r@.tags =~= Seq::<Seq<char>>::empty());
        r
    }
}

impl Folder {
    /// The folder to append when `count` folders exist.
    pub fn numbered(count: usize) -> (r: Folder)
        ensures
            r@ == fresh_folder(count as nat),
    {
        let r = Folder { id: count as u32, name: numbered("Folder ", count as u128 + 1), notes: Vec::new() };
        assert(r@.notes =~= Seq::<NoteView>::empty());
        r
    }
}

} // verus!
