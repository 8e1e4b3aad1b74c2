use vstd::prelude::*;

use crate::command::{copies, DocumentCommand, StateError};
use crate::sheet::{clone_export, export_model, ExportSettings, ExportSettingsModel, Sheet, SheetModel};
use crate::transient::{clone_transient, transient_model, Transient, TransientModel};
use crate::view_state::{ViewModel, ViewState};

verus! {

/// The most entries the undo history keeps.
pub const HISTORY_LIMIT: usize = 100;

/// Where a request to close a document stands.
#[derive(Clone, Copy, Debug, PartialEq, Eq, Structural)]
pub enum CloseState {
    Requested,
    Saving,
    Allowed,
}

/// Per-document state that history does not record.
#[derive(Debug)]
pub struct Persistent {
    pub export_settings_edit: Option<ExportSettings>,
    pub close_state: Option<CloseState>,
    pub timeline_is_playing: bool,
    pub disk_version: u64,
}

pub struct PersistentModel {
    pub export_settings_edit: Option<ExportSettingsModel>,
    pub close_state: Option<CloseState>,
    pub timeline_is_playing: bool,
    pub disk_version: u64,
}

impl View for Persistent {
    type V = PersistentModel;

    open spec fn view(&self) -> PersistentModel {
        PersistentModel {
            export_settings_edit: export_model(self.export_settings_edit),
            close_state: self.close_state,
            timeline_is_playing: self.timeline_is_playing,
            disk_version: self.disk_version,
        }
    }
}

impl Clone for Persistent {
    fn clone(&self) -> (r: Persistent)
        ensures
            r@ == self@,
    {
        Persistent {
            export_settings_edit: clone_export(&self.export_settings_edit),
            close_state: self.close_state,
            timeline_is_playing: self.timeline_is_playing,
            disk_version: self.disk_version,
        }
    }
}

impl Persistent {
    pub fn new() -> (r: Persistent)
        ensures
            r@ == (PersistentModel {
                export_settings_edit: None,
                close_state: None,
                timeline_is_playing: false,
                disk_version: 0,
            }),
    {
        Persistent {
            export_settings_edit: None,
            close_state: None,
            timeline_is_playing: false,
            disk_version: 0,
        }
    }
}

/// One undo step: the content and view after a command, and the content's version.
#[derive(Debug)]
pub struct HistoryEntry {
    pub last_command: Option<DocumentCommand>,
    pub sheet: Sheet,
    pub view: ViewState,
    pub version: u64,
}

pub struct HistoryEntryModel {
    pub sheet: SheetModel,
    pub view: ViewModel,
    pub version: u64,
}

impl View for HistoryEntry {
    type V = HistoryEntryModel;

    open spec fn view(&self) -> HistoryEntryModel {
        HistoryEntryModel { sheet: self.sheet@, view: self.view@, version: self.version }
    }
}

impl Clone for HistoryEntry {
    fn clone(&self) -> (r: HistoryEntry)
        ensures
            r@ == self@,
    {
        HistoryEntry {
            last_command: self.last_command.clone(),
            sheet: self.sheet.clone(),
            view: self.view.clone(),
            version: self.version,
        }
    }
}

/// The undo history: its entries, the entry the document is at, and the last version given.
pub struct HistoryModel {
    pub entries: Seq<HistoryEntryModel>,
    pub cursor: int,
    pub next_version: u64,
}

impl HistoryModel {
    pub open spec fn wf(self) -> bool {
        &&& 1 <= self.entries.len() <= HISTORY_LIMIT
        &&& 0 <= self.cursor < self.entries.len()
        &&& forall|i: int|
            0 <= i < self.entries.len() ==> (#[trigger] self.entries[i]).version <= self.next_version
    }

    pub open spec fn current(self) -> HistoryEntryModel {
        self.entries[self.cursor]
    }
}

/// The version after `v` (the counter stops at the largest `u64`).
/// What `record` does with a content change outside a gesture.
pub proof fn lemma_record_content_change(h: HistoryModel, s: DocState)
    requires
        s.transient is None,
        h.current().sheet != s.sheet,
    ensures
        record(h, s) == push_entry(
            HistoryModel { next_version: bump(h.next_version), ..h },
            HistoryEntryModel { sheet: s.sheet, view: s.view, version: bump(h.next_version) },
        ),
{
    reveal(record);
}

/// `record` leaves history alone during a gesture.
pub proof fn lemma_record_in_gesture(h: HistoryModel, s: DocState)
    requires
        s.transient is Some,
    ensures
        record(h, s) == h,
{
    reveal(record);
}

pub open spec fn bump(v: u64) -> u64 {
    if v == u64::MAX {
        v
    } else {
        (v + 1) as u64
    }
}

/// Drops the entries after the cursor, appends `e` and moves to it; the oldest entry goes
/// when there would be more than the limit.
pub open spec fn push_entry(h: HistoryModel, e: HistoryEntryModel) -> HistoryModel {
    let kept = h.entries.take(h.cursor + 1).push(e);
    if kept.len() > HISTORY_LIMIT {
        HistoryModel { entries: kept.skip(kept.len() - HISTORY_LIMIT), cursor: HISTORY_LIMIT - 1, ..h }
    } else {
        HistoryModel { entries: kept, cursor: kept.len() - 1, ..h }
    }
}

/// The history after a command left the document in state `s`.
/// A content change gets a new entry with a new version; a change of the view alone
/// replaces the view of the current entry when that entry itself changed no content, and
/// gets a new entry otherwise; during a gesture history is left alone.
#[verifier::opaque]
pub open spec fn record(h: HistoryModel, s: DocState) -> HistoryModel {
    if s.transient is Some {
        h
    } else if h.current().sheet != s.sheet {
        let v = bump(h.next_version);
        push_entry(
            HistoryModel { next_version: v, ..h },
            HistoryEntryModel { sheet: s.sheet, view: s.view, version: v },
        )
    } else if h.current().view != s.view {
        if h.cursor > 0 && h.entries[h.cursor - 1].sheet == h.current().sheet {
            HistoryModel {
                entries: h.entries.update(h.cursor, HistoryEntryModel { view: s.view, ..h.current() }),
                ..h
            }
        } else {
            push_entry(h, HistoryEntryModel { sheet: s.sheet, view: s.view, version: h.next_version })
        }
    } else {
        h
    }
}

/// Whether `record` adds an entry for `s`: a content change, or a change of the view alone
/// that is not merged into the current entry; never during a gesture.
pub open spec fn record_pushes(h: HistoryModel, s: DocState) -> bool {
    &&& s.transient is None
    &&& (h.current().sheet != s.sheet || (h.current().view != s.view && !(h.cursor > 0
        && h.entries[h.cursor - 1].sheet == h.current().sheet)))
}

/// The editable part of a document: what a command acts on.
pub struct DocState {
    pub sheet: SheetModel,
    pub view: ViewModel,
    pub transient: Option<TransientModel>,
    pub persistent: PersistentModel,
}

/// An open document: its content, view, gesture in progress, and undo history.
#[derive(Debug)]
pub struct Document {
    pub source: String,
    pub sheet: Sheet,
    pub view: ViewState,
    pub transient: Option<Transient>,
    pub persistent: Persistent,
    /// The last version given to a content change.
    pub next_version: u64,
    /// Undo history; `wf` holds it non-empty, within the limit, with the index inside it.
    pub history: Vec<HistoryEntry>,
    pub history_index: usize,
}

impl Document {
    pub open spec fn state(self) -> DocState {
        DocState {
            sheet: self.sheet@,
            view: self.view@,
            transient: transient_model(self.transient),
            persistent: self.persistent@,
        }
    }

    pub open spec fn history_model(self) -> HistoryModel {
        HistoryModel {
            entries: self.history@.map_values(|e: HistoryEntry| e@),
            cursor: self.history_index as int,
            next_version: self.next_version,
        }
    }

    pub open spec fn wf(self) -> bool {
        self.history_model().wf()
    }

    /// `self` is `old` with its editable part replaced by `s`.
    pub open spec fn edited_from(self, old: Document, s: DocState) -> bool {
        &&& self.state() == s
        &&& self.source@ == old.source@
        &&& self.history_model() == old.history_model()
    }

    /// What an edit that yields `expected` leaves behind: on success its state, and on
    /// failure its error and the document unchanged.
    pub open spec fn outcome(
        self,
        old: Document,
        r: Result<(), StateError>,
        expected: Result<DocState, StateError>,
    ) -> bool {
        match expected {
            Ok(s) => r is Ok && self.edited_from(old, s),
            Err(e) => r == Err::<(), StateError>(e) && self.edited_from(old, old.state()),
        }
    }

    /// A new, empty document for the file at `path`.
    pub fn new(path: String) -> (r: Document)
        ensures
            r.wf(),
            r.source@ == path@,
            r.sheet@ == Sheet::new_model(),
            r.view@ == ViewState::initial_model(),
            r.transient is None,
            r.persistent@.disk_version == 0,
            r.persistent@.close_state is None,
            !r.persistent@.timeline_is_playing,
            r.history_model().entries == seq![
                HistoryEntryModel {
                    sheet: Sheet::new_model(),
                    view: ViewState::initial_model(),
                    version: 0,
                },
            ],
            r.history_model().cursor == 0,
            r.history_model().next_version == 0,
            r.is_saved_spec(),
    {
        let entry = HistoryEntry {
            last_command: None,
            sheet: Sheet::new(),
            view: ViewState::new(),
            version: 0,
        };
        let sheet = entry.sheet.clone();
        let view = entry.view.clone();
        let mut history = Vec::new();
        history.push(entry);
        let r = Document {
            source: path,
            sheet,
            view,
            transient: None,
            persistent: Persistent::new(),
            next_version: 0,
            history,
            history_index: 0,
        };
        assert(r.history_model().entries =~= seq![
            HistoryEntryModel {
                sheet: Sheet::new_model(),
                view: ViewState::initial_model(),
                version: 0,
            },
        ]);
        r
    }

    /// A document for the file at `path` whose content, read from disk, is `sheet`: its
    /// history starts there, and it counts as saved.
    pub fn open(path: String, sheet: Sheet) -> (r: Document)
        ensures
            r.wf(),
            r.source@ == path@,
            r.sheet@ == sheet@,
            r.view@ == ViewState::initial_model(),
            r.transient is None,
            r.history_model().entries.len() == 1,
            r.history_model().current().sheet == sheet@,
            r.is_saved_spec(),
    {
        let mut document = Document::new(path);
        let copy = sheet.clone();
        document.history[0].sheet = copy;
        document.sheet = sheet;
        document.persistent.disk_version = document.next_version;
        document
    }

    pub open spec fn version_spec(self) -> u64 {
        self.history_model().current().version
    }

    pub open spec fn is_saved_spec(self) -> bool {
        self.persistent.disk_version == self.version_spec()
    }

    /// The version of the content at the current history entry.
    pub fn get_version(&self) -> (r: u64)
        requires
            self.wf(),
        ensures
            r == self.version_spec(),
            r == self.history_model().current().version,
    {
        self.history[self.history_index].version
    }

    /// Whether the content on disk is the content at the current history entry.
    pub fn is_saved(&self) -> (r: bool)
        requires
            self.wf(),
        ensures
            r == self.is_saved_spec(),
    {
        self.persistent.disk_version == self.get_version()
    }

    /// A copy of the whole document, history included.
    pub fn duplicate(&self) -> (r: Document)
        ensures
            r.state() == self.state(),
            r.source@ == self.source@,
            r.history_model() == self.history_model(),
    {
        let history = self.history.clone();
        let r = Document {
            source: self.source.clone(),
            sheet: self.sheet.clone(),
            view: self.view.clone(),
            transient: clone_transient(&self.transient),
            persistent: self.persistent.clone(),
            next_version: self.next_version,
            history,
            history_index: self.history_index,
        };
        assert(r.history_model().entries =~= self.history_model().entries);
        r
    }

    fn push_undo_state(&mut self, entry: HistoryEntry)
        requires
            old(self).wf(),
            entry.version <= old(self).next_version,
        ensures
            final(self).wf(),
            final(self).history_model() == push_entry(old(self).history_model(), entry@),
            final(self).history@[final(self).history_index as int] == entry,
            final(self).state() == old(self).state(),
            final(self).source@ == old(self).source@,
    {
        let ghost h = old(self).history_model();
        let ghost e = entry@;
        self.history.truncate(self.history_index + 1);
        self.history.push(entry);
        self.history_index = self.history.len() - 1;
        assert(self.history@.map_values(|e: HistoryEntry| e@) =~= h.entries.take(h.cursor + 1).push(
            e,
        ));
        if self.history.len() > HISTORY_LIMIT {
            self.history.remove(0);
            self.history_index = self.history_index - 1;
            assert(self.history@.map_values(|e: HistoryEntry| e@) =~= h.entries.take(
                h.cursor + 1,
            ).push(e).skip(1));
        }
    }

    pub open spec fn can_use_undo_system_spec(self) -> bool {
        self.transient is None
    }

    /// Whether undo and redo are allowed: not while a gesture is in progress.
    pub fn can_use_undo_system(&self) -> (r: bool)
        ensures
            r == self.can_use_undo_system_spec(),
    {
        self.transient.is_none()
    }

    /// Takes the editable part of `new_document` and records it in history.
    pub(crate) fn record_command(&mut self, command: &DocumentCommand, new_document: Document)
        requires
            old(self).wf(),
        ensures
            final(self).wf(),
            final(self).state() == new_document.state(),
            final(self).source@ == old(self).source@,
            final(self).history_model() == record(old(self).history_model(), new_document.state()),
            record_pushes(old(self).history_model(), new_document.state()) ==> (final(self).history@[final(self).history_index as int].last_command matches Some(c) && copies(
                *command,
                c,
            )),
            !record_pushes(old(self).history_model(), new_document.state()) ==> final(self).history@.len() == old(self).history@.len() && forall|j: int|
                0 <= j < old(self).history@.len() ==> (#[trigger] final(self).history@[j]).last_command
                    == old(self).history@[j].last_command,
    {
        let ghost h = old(self).history_model();
        let ghost s = new_document.state();
        reveal(record);
        self.sheet = new_document.sheet.clone();
        self.view = new_document.view.clone();
        self.transient = clone_transient(&new_document.transient);
        self.persistent = new_document.persistent.clone();
        if self.can_use_undo_system() {
            let has_sheet_changes = self.history[self.history_index].sheet != new_document.sheet;
            if has_sheet_changes {
                self.next_version = if self.next_version == u64::MAX {
                    u64::MAX
                } else {
                    self.next_version + 1
                };
                let entry = HistoryEntry {
                    sheet: new_document.sheet,
                    view: new_document.view,
                    last_command: Some(command.clone()),
                    version: self.next_version,
                };
                self.push_undo_state(entry);
            } else if !self.history[self.history_index].view.same_as(&new_document.view) {
                let i = self.history_index;
                let merge = i > 0 && self.history[i - 1].sheet == self.history[i].sheet;
                if merge {
                    self.history[i].view = new_document.view;
                    assert(self.history_model().entries =~= h.entries.update(
                        h.cursor,
                        HistoryEntryModel { view: s.view, ..h.current() },
                    ));
                } else {
                    let entry = HistoryEntry {
                        sheet: new_document.sheet,
                        view: new_document.view,
                        last_command: Some(command.clone()),
                        version: self.next_version,
                    };
                    self.push_undo_state(entry);
                }
            }
        }
    }

    /// Moves one entry back in history, restoring its content and view, and stops
    /// playback. Refused while a gesture is in progress.
    pub fn undo(&mut self) -> (r: Result<(), StateError>)
        requires
            old(self).wf(),
        ensures
            final(self).wf(),
            final(self).source@ == old(self).source@,
            r is Err <==> old(self).transient is Some,
            r is Err ==> r == Err::<(), StateError>(StateError::UndoNotAllowed) && *final(self)
                == *old(self),
            r is Ok ==> final(self).history_model() == undo_step(old(self).history_model())
                && final(self).state() == restored(
                old(self).state(),
                old(self).history_model(),
                undo_step(old(self).history_model()),
            ),
    {
        if !self.can_use_undo_system() {
            return Err(StateError::UndoNotAllowed);
        }
        if self.history_index > 0 {
            self.history_index = self.history_index - 1;
            self.sheet = self.history[self.history_index].sheet.clone();
            self.view = self.history[self.history_index].view.clone();
        }
        self.persistent.timeline_is_playing = false;
        Ok(())
    }

    /// Moves one entry forward in history, restoring its content and view, and stops
    /// playback. Refused while a gesture is in progress.
    pub fn redo(&mut self) -> (r: Result<(), StateError>)
        requires
            old(self).wf(),
        ensures
            final(self).wf(),
            final(self).source@ == old(self).source@,
            r is Err <==> old(self).transient is Some,
            r is Err ==> r == Err::<(), StateError>(StateError::UndoNotAllowed) && *final(self)
                == *old(self),
            r is Ok ==> final(self).history_model() == redo_step(old(self).history_model())
                && final(self).state() == restored(
                old(self).state(),
                old(self).history_model(),
                redo_step(old(self).history_model()),
            ),
    {
        if !self.can_use_undo_system() {
            return Err(StateError::UndoNotAllowed);
        }
        if self.history_index < self.history.len() - 1 {
            self.history_index = self.history_index + 1;
            self.sheet = self.history[self.history_index].sheet.clone();
            self.view = self.history[self.history_index].view.clone();
        }
        self.persistent.timeline_is_playing = false;
        Ok(())
    }

    /// The command that led to the current entry, which undo would revert.
    pub fn get_undo_command(&self) -> (r: Option<&DocumentCommand>)
        requires
            self.wf(),
        ensures
            match r {
                Some(c) => self.history@[self.history_index as int].last_command == Some(*c),
                None => self.history@[self.history_index as int].last_command is None,
            },
    {
        self.history[self.history_index].last_command.as_ref()
    }

    /// The command that led to the next entry, which redo would apply again.
    pub fn get_redo_command(&self) -> (r: Option<&DocumentCommand>)
        requires
            self.wf(),
        ensures
            self.history_index + 1 < self.history@.len() ==> match r {
                Some(c) => self.history@[self.history_index + 1].last_command == Some(*c),
                None => self.history@[self.history_index + 1].last_command is None,
            },
            self.history_index + 1 >= self.history@.len() ==> r is None,
    {
        if self.history_index < self.history.len() - 1 {
            self.history[self.history_index + 1].last_command.as_ref()
        } else {
            None
        }
    }
}

/// One step back in history, when there is one.
pub open spec fn undo_step(h: HistoryModel) -> HistoryModel {
    if h.cursor > 0 {
        HistoryModel { cursor: h.cursor - 1, ..h }
    } else {
        h
    }
}

/// One step forward in history, when there is one.
pub open spec fn redo_step(h: HistoryModel) -> HistoryModel {
    if h.cursor + 1 < h.entries.len() {
        HistoryModel { cursor: h.cursor + 1, ..h }
    } else {
        h
    }
}

/// The state after moving in history from `h0` to `h`: content and view come from the entry
/// at the new cursor when the cursor moved, and playback stops.
pub open spec fn restored(s: DocState, h0: HistoryModel, h: HistoryModel) -> DocState {
    let stopped = PersistentModel { timeline_is_playing: false, ..s.persistent };
    if h.cursor != h0.cursor {
        DocState { sheet: h.current().sheet, view: h.current().view, persistent: stopped, ..s }
    } else {
        DocState { persistent: stopped, ..s }
    }
}

} // verus!
