//! An in-memory note model — folders of notes, each note with text and tags —
//! together with the selection state of the three-pane editor that shows it,
//! and the verified transition function that applies one user gesture to it.
pub mod decimal;
pub mod laws;
pub mod model;
pub mod state;
