//! Editing model for animation sheets: the sheet content, per-document view
//! state, gestures in progress, a linear undo history, and the set of open
//! documents.

pub mod app;
pub mod command;
pub mod document;
pub mod editing;
pub mod geometry;
pub mod gestures;
pub mod hitbox_gestures;
pub mod laws;
pub mod lifecycle;
pub mod names;
pub mod playback;
pub mod process;
pub mod queries;
pub mod selection;
pub mod selection_edits;
pub mod sheet;
pub mod timeline;
pub mod timeline_edits;
pub mod transient;
pub mod view_state;
