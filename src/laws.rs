//! Properties of the gesture semantics that hold over every state or every
//! sequence of gestures.
use vstd::prelude::*;

use crate::model::{folder_name, note_title};
use crate::state::{initial, next, repaired, run, wf, AppView, Gesture};

verus! {

/// A state whose selection points at existing items needs no repair.
pub proof fn well_formed_needs_no_repair(s: AppView)
    requires
        wf(s),
    ensures
        repaired(s) == s,
{
}

/// Whatever the state and the gesture, the selection afterwards points at
/// existing items.
pub proof fn next_well_formed(s: AppView, g: Gesture)
    ensures
        wf(next(s, g)),
{
}

/// In every state reachable from the start, a selected folder exists and a
/// selected note exists in the selected folder.
pub proof fn reachable_states_well_formed(gs: Seq<Gesture>)
    ensures
        wf(run(initial(), gs)),
    decreases gs.len(),
{
    if gs.len() > 0 {
        next_well_formed(run(initial(), gs.drop_last()), gs.last());
    }
}

/// A click on another folder while a note is selected selects that folder
/// and clears the note selection.
pub proof fn folder_switch_clears_note(s: AppView, j: usize)
    requires
        wf(s),
        s.selected_folder is Some,
        s.selected_folder->0 != j,
        s.selected_note is Some,
        j < s.folders.len(),
    ensures
        next(s, Gesture::ClickFolder(j)).selected_folder == Some(j),
        next(s, Gesture::ClickFolder(j)).selected_note is None,
{
}

/// `n` clicks of the same gesture.
pub open spec fn repeated(g: Gesture, n: nat) -> Seq<Gesture> {
    Seq::new(n, |_i: int| g)
}

/// After `n` clicks on "Add Folder" from the start there are `n` folders, and
/// folder `i` has id `i` and the name "Folder i+1". (The ids are 32-bit, so
/// this is stated for at most 2^32 clicks.)
pub proof fn add_folder_numbering(n: nat)
    requires
        n <= u32::MAX + 1,
    ensures
        run(initial(), repeated(Gesture::AddFolder, n)).folders.len() == n,
        forall|i: int|
            0 <= i < n ==> {
                let f = #[trigger] run(initial(), repeated(Gesture::AddFolder, n)).folders[i];
                &&& f.id == i
                &&& f.name == folder_name(i as nat)
            },
    decreases n,
{
    if n > 0 {
        let gs = repeated(Gesture::AddFolder, n);
        assert(gs.drop_last() =~= repeated(Gesture::AddFolder, (n - 1) as nat));
        add_folder_numbering((n - 1) as nat);
        reachable_states_well_formed(gs.drop_last());
        well_formed_needs_no_repair(run(initial(), gs.drop_last()));
    }
}

/// Within a selected folder that holds no notes, after `m` clicks on
/// "Add Note" the folder holds `m` notes, note `k` with id `k` and the title
/// "Note k+1", and the selection is unchanged. (The ids are 32-bit, so this
/// is stated for at most 2^32 clicks.)
pub proof fn add_note_numbering(s: AppView, m: nat)
    requires
        wf(s),
        s.selected_folder is Some,
        s.folders[s.selected_folder->0 as int].notes.len() == 0,
        m <= u32::MAX + 1,
    ensures
        ({
            let r = run(s, repeated(Gesture::AddNote, m));
            let i = s.selected_folder->0 as int;
            &&& wf(r)
            &&& r.selected_folder == s.selected_folder
            &&& r.selected_note == s.selected_note
            &&& r.folders.len() == s.folders.len()
            &&& r.folders[i].notes.len() == m
            &&& forall|k: int|
                0 <= k < m ==> {
                    let n = #[trigger] r.folders[i].notes[k];
                    &&& n.id == k
                    &&& n.title == note_title(k as nat)
                }
        }),
    decreases m,
{
    if m > 0 {
        let gs = repeated(Gesture::AddNote, m);
        assert(gs.drop_last() =~= repeated(Gesture::AddNote, (m - 1) as nat));
        add_note_numbering(s, (m - 1) as nat);
        well_formed_needs_no_repair(run(s, gs.drop_last()));
    }
}

/// A click on "Add Tag" while the tag field is empty changes nothing.
pub proof fn empty_tag_is_ignored(s: AppView)
    requires
        wf(s),
        s.new_tag.len() == 0,
    ensures
        next(s, Gesture::AddTag) == s,
{
}

/// With a note selected, typing a non-empty tag and clicking "Add Tag"
/// appends the tag to the note's tags and empties the tag field.
pub proof fn tag_push_and_clear(s: AppView, t: String)
    requires
        wf(s),
        s.selected_note is Some,
        t@.len() > 0,
    ensures
        ({
            let r = run(s, seq![Gesture::SetNewTag(t), Gesture::AddTag]);
            let i = s.selected_folder->0 as int;
            let k = s.selected_note->0 as int;
            &&& r.new_tag.len() == 0
            &&& r.folders[i].notes[k].tags == s.folders[i].notes[k].tags.push(t@)
        }),
{
    let gs = seq![Gesture::SetNewTag(t), Gesture::AddTag];
    assert(gs.drop_last() =~= seq![Gesture::SetNewTag(t)]);
    assert(gs.drop_last().drop_last() =~= Seq::<Gesture>::empty());
    let typed = next(s, Gesture::SetNewTag(t));
    assert(run(s, gs.drop_last()) == typed) by {
        assert(run(s, gs.drop_last().drop_last()) == s);
        well_formed_needs_no_repair(s);
    }
    assert(typed.new_tag == t@);
    next_well_formed(s, Gesture::SetNewTag(t));
    well_formed_needs_no_repair(typed);
    assert(run(s, gs) == next(typed, Gesture::AddTag));
}

} // verus!
