//! The application state and the gestures that change it.
use vstd::prelude::*;

use crate::model::{
    folders_view, fresh_folder, fresh_note, strings_view, Folder, FolderView, Note, NoteView,
};

verus! {

/// The whole document — an ordered list of folders — with the selection the
/// editor shows, the search text and the buffer of the tag being typed.
pub struct NoteApp {
    pub folders: Vec<Folder>,
    pub selected_folder: Option<usize>,
    pub selected_note: Option<usize>,
    pub search_query: String,
    pub new_tag: String,
}

/// The state with every string seen as its characters.
pub struct AppView {
    pub folders: Seq<FolderView>,
    pub selected_folder: Option<usize>,
    pub selected_note: Option<usize>,
    pub search_query: Seq<char>,
    pub new_tag: Seq<char>,
}

impl View for NoteApp {
    type V = AppView;

    open spec fn view(&self) -> AppView {
        AppView {
            folders: folders_view(self.folders@),
            selected_folder: self.selected_folder,
            selected_note: self.selected_note,
            search_query: self.search_query@,
            new_tag: self.new_tag@,
        }
    }
}

/// One user interaction with the editor.
pub enum Gesture {
    /// An edit of the search field: it now holds the text.
    EditSearch(String),
    /// A click on the button of the folder at this position.
    ClickFolder(usize),
    /// A click on "Add Folder".
    AddFolder,
    /// A click on the button of the note at this position in the selected folder.
    ClickNote(usize),
    /// A click on "Add Note".
    AddNote,
    /// An edit of the selected note's content: it now holds the text.
    EditContent(String),
    /// An edit of the tag field: it now holds the text.
    SetNewTag(String),
    /// A click on "Add Tag".
    AddTag,
}

/// The selection points at existing items: a selected folder exists, and a
/// selected note exists in the selected folder.
pub open spec fn wf(s: AppView) -> bool {
    &&& s.selected_folder matches Some(i) ==> i < s.folders.len()
    &&& s.selected_note matches Some(k) ==> {
        &&& s.selected_folder is Some
        &&& k < s.folders[s.selected_folder->0 as int].notes.len()
    }
}

/// The state with each selection that points nowhere reset to none.
pub open spec fn repaired(s: AppView) -> AppView {
    match s.selected_folder {
        Some(i) if i < s.folders.len() => match s.selected_note {
            Some(k) if k < s.folders[i as int].notes.len() => s,
            _ => AppView { selected_note: None, ..s },
        },
        _ => AppView { selected_folder: None, selected_note: None, ..s },
    }
}

/// The state with the folder at `i` replaced by `f`.
pub open spec fn with_folder(s: AppView, i: int, f: FolderView) -> AppView {
    AppView { folders: s.folders.update(i, f), ..s }
}

/// The state with note `k` of folder `i` replaced by `n`.
pub open spec fn with_note(s: AppView, i: int, k: int, n: NoteView) -> AppView {
    with_folder(s, i, FolderView { notes: s.folders[i].notes.update(k, n), ..s.folders[i] })
}

/// The effect of one gesture on a state whose selection points at existing
/// items. A gesture on a widget that is not shown in that state (a note
/// button, note or tag editing without the selection that shows them) leaves
/// the state unchanged.
pub open spec fn step(s: AppView, g: Gesture) -> AppView {
    match g {
        Gesture::EditSearch(q) => AppView { search_query: q@, ..s },
        Gesture::ClickFolder(i) => if i < s.folders.len() {
            AppView { selected_folder: Some(i), selected_note: None, ..s }
        } else {
            s
        },
        Gesture::AddFolder => AppView {
            folders: s.folders.push(fresh_folder(s.folders.len())),
            ..s
        },
        Gesture::ClickNote(k) => match s.selected_folder {
            Some(i) if k < s.folders[i as int].notes.len() => AppView {
                selected_note: Some(k),
                ..s
            },
            _ => s,
        },
        Gesture::AddNote => match s.selected_folder {
            Some(i) => {
                let f = s.folders[i as int];
                with_folder(
                    s,
                    i as int,
                    FolderView { notes: f.notes.push(fresh_note(f.notes.len())), ..f },
                )
            },
            None => s,
        },
        Gesture::EditContent(c) => match (s.selected_folder, s.selected_note) {
            (Some(i), Some(k)) => {
                let n = s.folders[i as int].notes[k as int];
                with_note(s, i as int, k as int, NoteView { content: c@, ..n })
            },
            _ => s,
        },
        Gesture::SetNewTag(t) => match s.selected_note {
            Some(_) => AppView { new_tag: t@, ..s },
            None => s,
        },
        Gesture::AddTag => match (s.selected_folder, s.selected_note) {
            (Some(i), Some(k)) => if s.new_tag.len() > 0 {
                let n = s.folders[i as int].notes[k as int];
                AppView {
                    new_tag: Seq::empty(),
                    ..with_note(s, i as int, k as int, NoteView { tags: n.tags.push(s.new_tag), ..n })
                }
            } else {
                s
            },
            _ => s,
        },
    }
}

/// The effect of one gesture on any state: the selection is repaired first.
pub open spec fn next(s: AppView, g: Gesture) -> AppView {
    step(repaired(s), g)
}

/// The state reached from `s` by the gestures `gs`, in order.
pub open spec fn run(s: AppView, gs: Seq<Gesture>) -> AppView
    decreases gs.len(),
{
    if gs.len() == 0 {
        s
    } else {
        next(run(s, gs.drop_last()), gs.last())
    }
}

/// The state at start: no folders, no selection, empty search and tag texts.
pub open spec fn initial() -> AppView {
    AppView {
        folders: Seq::empty(),
        selected_folder: None,
        selected_note: None,
        search_query: Seq::empty(),
        new_tag: Seq::empty(),
    }
}

impl NoteApp {
    /// An empty document with nothing selected.
    pub fn new() -> (r: NoteApp)
        ensures
            r@ == initial(),
    {
        let r = NoteApp {
            folders: Vec::new(),
            selected_folder: None,
            selected_note: None,
            search_query: String::new(),
            new_tag: String::new(),
        };
        assert(r@.folders =~= Seq::<FolderView>::empty());
        r
    }

    /// Resets each selection that points nowhere to none.
    pub fn repair(&mut self)
        ensures
            final(self)@ == repaired(old(self)@),
            wf(final(self)@),
    {
        match self.selected_folder {
            Some(i) => {
                if i >= self.folders.len() {
                    self.selected_folder = None;
                    self.selected_note = None;
                } else {
                    match self.selected_note {
                        Some(k) => {
                            if k >= self.folders[i].notes.len() {
                                self.selected_note = None;
                            }
                        },
                        None => {},
                    }
                }
            },
            None => {
                self.selected_note = None;
            },
        }
    }
    /// Applies one gesture: the selection is repaired, then the gesture takes
    /// effect as `step` describes.
    pub fn apply(&mut self, g: Gesture)
        ensures
            final(self)@ == next(old(self)@, g),
            wf(final(self)@),
    {
        self.repair();
        let ghost s = self@;
        match g {
            Gesture::EditSearch(q) => {
                self.search_query = q;
            },
            Gesture::ClickFolder(i) => {
                if i < self.folders.len() {
                    self.selected_folder = Some(i);
                    self.selected_note = None;
                }
            },
            Gesture::AddFolder => {
                let count = self.folders.len();
                self.folders.push(Folder::numbered(count));
                assert(self@.folders =~= s.folders.push(fresh_folder(count as nat)));
            },
            Gesture::ClickNote(k) => {
                match self.selected_folder {
                    Some(i) => {
                        if k < self.folders[i].notes.len() {
                            self.selected_note = Some(k);
                        }
                    },
                    None => {},
                }
            },
            Gesture::AddNote => {
                match self.selected_folder {
                    Some(i) => {
                        let folder = &mut self.folders[i];
                        let count = folder.notes.len();
                        folder.notes.push(Note::numbered(count));
                        let ghost f = s.folders[i as int];
                        assert(self@.folders[i as int].notes =~= f.notes.push(fresh_note(count as nat)));
                        assert(self@.folders =~= with_folder(
                            s,
                            i as int,
                            FolderView { notes: f.notes.push(fresh_note(f.notes.len())), ..f },
                        ).folders);
                    },
                    None => {},
                }
            },
            Gesture::EditContent(c) => {
                match (self.selected_folder, self.selected_note) {
                    (Some(i), Some(k)) => {
                        let note = &mut self.folders[i].notes[k];
                        note.content = c;
                        let ghost n = s.folders[i as int].notes[k as int];
                        assert(self@.folders[i as int].notes =~= s.folders[i as int].notes.update(
                            k as int,
                            NoteView { content: c@, ..n },
                        ));
                        assert(self@.folders =~= with_note(
                            s,
                            i as int,
                            k as int,
                            NoteView { content: c@, ..n },
                        ).folders);
                    },
                    _ => {},
                }
            },
            Gesture::SetNewTag(t) => {
                if self.selected_note.is_some() {
                    self.new_tag = t;
                }
            },
            Gesture::AddTag => {
                match (self.selected_folder, self.selected_note) {
                    (Some(i), Some(k)) => {
                        if !self.new_tag.as_str().is_empty() {
                            let tag = self.new_tag.clone();
                            let note = &mut self.folders[i].notes[k];
                            note.tags.push(tag);
                            self.new_tag = String::new();
                            let ghost n = s.folders[i as int].notes[k as int];
                            let ghost m = NoteView { tags: n.tags.push(s.new_tag), ..n };
                            assert(self@.folders[i as int].notes[k as int].tags =~= m.tags);
                            assert(self@.folders[i as int].notes =~= s.folders[i as int].notes.update(
                                k as int,
                                m,
                            ));
                            assert(self@.folders =~= with_note(s, i as int, k as int, m).folders);
                        }
                    },
                    _ => {},
                }
            },
        }
    }
    /// Applies the gestures of one frame, in the order in which their widgets
    /// are drawn. With no gestures the document is left as it is, up to the
    /// repair of a selection that points nowhere.
    pub fn update(&mut self, gestures: Vec<Gesture>)
        ensures
            final(self)@ == run(repaired(old(self)@), gestures@),
            wf(final(self)@),
    {
        self.repair();
        let ghost start = self@;
        let ghost all = gestures@;
        for g in it: gestures
            invariant
                all == it.seq(),
                self@ == run(start, all.take(it.index() as int)),
                wf(self@),
        {
            proof {
                let done = all.take(it.index() as int + 1);
                assert(done.drop_last() =~= all.take(it.index() as int));
            }
            self.apply(g);
        }
        assert(all.take(all.len() as int) =~= all);
    }
}

} // verus!
