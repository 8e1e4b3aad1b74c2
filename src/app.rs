use vstd::prelude::*;

use crate::command::{DocumentCommand, StateError};
use crate::document::{DocState, Document, HistoryModel};
use crate::playback::{advance_effect, try_close_effect};
use crate::process::command_result;
use crate::sheet::{position_of, Sheet};

verus! {

/// Whether `focus` names the path `p`.
pub open spec fn focus_is(focus: Option<String>, p: Seq<char>) -> bool {
    match focus {
        Some(q) => q@ == p,
        None => false,
    }
}

/// A command addressed to the application rather than to one document.
#[derive(Debug)]
pub enum AppCommand {
    /// A new document was created at the path.
    EndNewDocument(String),
    /// The sheet at the path was read from disk.
    EndOpenDocument(String, Sheet),
    /// The document at the first path now lives at the second.
    RelocateDocument(String, String),
    FocusDocument(String),
    CloseCurrentDocument,
    CloseAllDocuments,
    /// Every open document is to be written to its path; the host writes them (see
    /// `AppState::save_all_documents`), and nothing here changes.
    SaveAllDocuments,
    Undo,
    Redo,
}

/// A command, synchronous or waiting on the host.
#[derive(Debug)]
pub enum Command {
    Sync(SyncCommand),
    Async(AsyncCommand),
}

/// A command for the application, or for one of its documents.
#[derive(Debug)]
pub enum SyncCommand {
    App(AppCommand),
    Tab(DocumentCommand),
}

/// The open documents ("tabs"), which one has focus, and the application clock.
#[derive(Debug)]
pub struct AppState {
    pub tabs: Vec<Document>,
    pub current_tab: Option<String>,
    /// Milliseconds since start.
    pub clock: u64,
}

proof fn lemma_push_distinct(s: Seq<Seq<char>>, x: Seq<char>)
    requires
        s.no_duplicates(),
        !s.contains(x),
    ensures
        s.push(x).no_duplicates(),
        s.push(x).contains(x),
        forall|y: Seq<char>| s.contains(y) ==> s.push(x).contains(y),
{
    assert(s.push(x)[s.len() as int] == x);
    assert forall|y: Seq<char>| s.contains(y) implies s.push(x).contains(y) by {
        let k = choose|k: int| 0 <= k < s.len() && s[k] == y;
        assert(s.push(x)[k] == y);
    }
    assert forall|a: int, b: int|
        0 <= a < s.push(x).len() && 0 <= b < s.push(x).len() && a != b implies s.push(x)[a] != s.push(x)[b] by {
        if a == s.len() as int {
            assert(s[b] != x);
        } else if b == s.len() as int {
            assert(s[a] != x);
        }
    }
}

proof fn lemma_remove_distinct(s: Seq<Seq<char>>, i: int)
    requires
        s.no_duplicates(),
        0 <= i < s.len(),
    ensures
        s.remove(i).no_duplicates(),
{
    let t = s.remove(i);
    assert forall|a: int, b: int| 0 <= a < t.len() && 0 <= b < t.len() && a != b implies t[a] != t[b] by {
        let a0 = if a < i { a } else { a + 1 };
        let b0 = if b < i { b } else { b + 1 };
        assert(t[a] == s[a0] && t[b] == s[b0]);
    }
}

impl AppState {
    pub open spec fn sources(self) -> Seq<Seq<char>> {
        self.tabs@.map_values(|d: Document| d.source@)
    }

    pub open spec fn is_opened_spec(self, path: Seq<char>) -> bool {
        self.sources().contains(path)
    }

    pub open spec fn tab_pos(self, path: Seq<char>) -> int {
        position_of(self.sources(), path)
    }

    /// Position of the focused tab, or -1.
    pub open spec fn current_pos(self) -> int {
        match self.current_tab {
            Some(p) => self.tab_pos(p@),
            None => -1,
        }
    }

    /// Each tab is well formed, no two tabs share a path, and focus, when set, names an open
    /// tab.
    pub open spec fn wf(self) -> bool {
        &&& forall|i: int| 0 <= i < self.tabs@.len() ==> (#[trigger] self.tabs@[i]).wf()
        &&& self.sources().no_duplicates()
        &&& match self.current_tab {
            Some(p) => self.is_opened_spec(p@),
            None => true,
        }
    }

    pub fn new() -> (r: AppState)
        ensures
            r.wf(),
            r.tabs@.len() == 0,
            r.current_tab is None,
            r.clock == 0,
    {
        AppState { tabs: Vec::new(), current_tab: None, clock: 0 }
    }

    pub fn get_clock(&self) -> (r: u64)
        ensures
            r == self.clock,
    {
        self.clock
    }

    fn find_tab(&self, path: &String) -> (r: Option<usize>)
        ensures
            match r {
                Some(i) => i == self.tab_pos(path@) && i < self.tabs@.len(),
                None => self.tab_pos(path@) == -1 && !self.is_opened_spec(path@),
            },
    {
        let ghost keys = self.sources();
        let mut i: usize = 0;
        while i < self.tabs.len()
            invariant
                0 <= i <= self.tabs@.len(),
                keys == self.sources(),
                forall|j: int| 0 <= j < i ==> keys[j] != path@,
            decreases self.tabs@.len() - i,
        {
            if self.tabs[i].source == *path {
                proof {
                    crate::sheet::lemma_position_of_found(keys, path@, i as int);
                }
                return Some(i);
            }
            i += 1;
        }
        proof {
            crate::sheet::lemma_position_of_missing(keys, path@);
        }
        None
    }

    fn current_index(&self) -> (r: Option<usize>)
        ensures
            match r {
                Some(i) => i == self.current_pos() && i < self.tabs@.len(),
                None => self.current_pos() == -1,
            },
    {
        match &self.current_tab {
            Some(p) => self.find_tab(p),
            None => None,
        }
    }

    pub fn is_opened(&self, path: &String) -> (r: bool)
        ensures
            r == self.is_opened_spec(path@),
    {
        self.find_tab(path).is_some()
    }

    /// The focused document, if focus names an open one.
    pub fn get_current_tab(&self) -> (r: Option<&Document>)
        ensures
            match r {
                Some(d) => 0 <= self.current_pos() && *d == self.tabs@[self.current_pos()],
                None => self.current_pos() == -1,
            },
    {
        match self.current_index() {
            Some(i) => Some(&self.tabs[i]),
            None => None,
        }
    }

    /// The open document at `path`.
    pub fn get_tab(&self, path: &String) -> (r: Option<&Document>)
        ensures
            match r {
                Some(d) => 0 <= self.tab_pos(path@) && *d == self.tabs@[self.tab_pos(path@)],
                None => !self.is_opened_spec(path@),
            },
    {
        match self.find_tab(path) {
            Some(i) => Some(&self.tabs[i]),
            None => None,
        }
    }

    /// The open documents, in the order they were opened.
    pub fn tabs_iter(&self) -> (r: &Vec<Document>)
        ensures
            r@ == self.tabs@,
    {
        &self.tabs
    }

    /// Advances the clock and the focused document's playback by `delta` milliseconds.
    pub fn tick(&mut self, delta: u64)
        requires
            old(self).wf(),
            old(self).clock + delta <= u64::MAX,
            0 <= old(self).current_pos() ==> old(self).tabs@[old(self).current_pos()].view.timeline_clock
                + delta <= u128::MAX,
        ensures
            final(self).wf(),
            final(self).clock == old(self).clock + delta,
            final(self).current_tab == old(self).current_tab,
            final(self).tabs@.len() == old(self).tabs@.len(),
            forall|i: int|
                0 <= i < old(self).tabs@.len() && i != old(self).current_pos() ==> (
                #[trigger] final(self).tabs@[i]) == old(self).tabs@[i],
            0 <= old(self).current_pos() ==> ({
                let d = old(self).tabs@[old(self).current_pos()];
                final(self).tabs@[old(self).current_pos()].edited_from(
                    d,
                    try_close_effect(advance_effect(d.state(), delta), d.is_saved_spec()),
                )
            }),
    {
        self.clock = self.clock + delta;
        if let Some(i) = self.current_index() {
            assert(self.tabs@[i as int].wf());
            self.tabs[i].tick(delta);
            assert(self.sources() =~= old(self).sources()) by {
                assert forall|j: int| 0 <= j < self.tabs@.len() implies self.sources()[j] == old(self).sources()[j] by {}
            }
        }
    }

    /// Adds a tab; no open tab may have its path.
    pub fn add_tab(&mut self, added_tab: Document)
        requires
            old(self).wf(),
            added_tab.wf(),
            !old(self).is_opened_spec(added_tab.source@),
        ensures
            final(self).wf(),
            final(self).tabs@ == old(self).tabs@.push(added_tab),
            final(self).current_tab == old(self).current_tab,
            final(self).clock == old(self).clock,
    {
        self.tabs.push(added_tab);
        proof {
            assert(self.sources() =~= old(self).sources().push(added_tab.source@));
            lemma_push_distinct(old(self).sources(), added_tab.source@);
        }
    }

    /// Makes a new, empty document at `path` (replacing one open there) and focuses it.
    pub fn end_new_document(&mut self, path: &String)
        requires
            old(self).wf(),
        ensures
            final(self).wf(),
            focus_is(final(self).current_tab, path@),
            final(self).is_opened_spec(path@),
            old(self).is_opened_spec(path@) ==> final(self).tabs@.len() == old(self).tabs@.len(),
            !old(self).is_opened_spec(path@) ==> final(self).tabs@.len() == old(self).tabs@.len() + 1,
    {
        let doc = Document::new(path.clone());
        match self.find_tab(path) {
            Some(i) => {
                proof {
                    crate::sheet::lemma_position_of_bounds(self.sources(), path@);
                }
                self.tabs.set(i, doc);
                assert(self.sources() =~= old(self).sources());
                assert(self.sources()[i as int] == path@);
            },
            None => {
                self.add_tab(doc);
                assert(self.sources()[self.tabs@.len() - 1] == path@);
            },
        }
        self.current_tab = Some(path.clone());
    }

    /// Opens the document at `path`, whose sheet was read as `sheet`, unless it is open
    /// already, and focuses it.
    pub fn end_open_document(&mut self, path: &String, sheet: Sheet)
        requires
            old(self).wf(),
        ensures
            final(self).wf(),
            focus_is(final(self).current_tab, path@),
            final(self).is_opened_spec(path@),
            old(self).is_opened_spec(path@) ==> final(self).tabs@ == old(self).tabs@,
            !old(self).is_opened_spec(path@) ==> final(self).tabs@.len() == old(self).tabs@.len() + 1
                && final(self).tabs@.last().sheet@ == sheet@ && final(self).tabs@.last().is_saved_spec(),
    {
        if !self.is_opened(path) {
            let doc = Document::open(path.clone(), sheet);
            self.add_tab(doc);
            assert(self.sources()[self.tabs@.len() - 1] == path@);
        }
        self.current_tab = Some(path.clone());
    }

    /// Moves the tab at `from` to `to`, and focus with it. Fails with `DocumentNotFound` when
    /// no tab is at `from`, and with `DocumentAlreadyOpen` when another tab is at `to`.
    pub fn relocate_document(&mut self, from: &String, to: &String) -> (r: Result<(), StateError>)
        requires
            old(self).wf(),
        ensures
            final(self).wf(),
            !old(self).is_opened_spec(from@) ==> r == Err::<(), StateError>(StateError::DocumentNotFound),
            old(self).is_opened_spec(from@) && from@ != to@ && old(self).is_opened_spec(to@) ==> r
                == Err::<(), StateError>(StateError::DocumentAlreadyOpen),
            r is Err ==> *final(self) == *old(self),
            old(self).is_opened_spec(from@) && (from@ == to@ || !old(self).is_opened_spec(to@)) ==> r is Ok,
            r is Ok ==> ({
                let i = old(self).tab_pos(from@);
                &&& final(self).tabs@.len() == old(self).tabs@.len()
                &&& final(self).tabs@[i].source@ == to@
                &&& final(self).tabs@[i] == (Document { source: final(self).tabs@[i].source, ..old(self).tabs@[i] })
                &&& forall|j: int| 0 <= j < old(self).tabs@.len() && j != i ==> (#[trigger] final(self).tabs@[j])
                    == old(self).tabs@[j]
            }),
            r is Ok && focus_is(old(self).current_tab, from@) ==> focus_is(final(self).current_tab, to@),
            r is Ok && !focus_is(old(self).current_tab, from@) ==> final(self).current_tab == old(self).current_tab,
            final(self).clock == old(self).clock,
    {
        let i = match self.find_tab(from) {
            None => return Err(StateError::DocumentNotFound),
            Some(i) => i,
        };
        if *from != *to && self.is_opened(to) {
            return Err(StateError::DocumentAlreadyOpen);
        }
        let ghost before = self.sources();
        proof {
            crate::sheet::lemma_position_of_bounds(before, from@);
        }
        self.tabs[i].source = to.clone();
        assert(self.sources() =~= before.update(i as int, to@));
        let focused = match &self.current_tab {
            Some(p) => *p == *from,
            None => false,
        };
        if focused {
            self.current_tab = Some(to.clone());
        }
        proof {
            assert(self.sources().no_duplicates()) by {
                assert forall|a: int, b: int|
                    0 <= a < self.sources().len() && 0 <= b < self.sources().len() && a != b implies self.sources()[a]
                    != self.sources()[b] by {
                    if a == i as int && from@ != to@ {
                        assert(before[b] != to@);
                    } else if b == i as int && from@ != to@ {
                        assert(before[a] != to@);
                    }
                }
            }
            if self.current_tab is Some {
                let p = self.current_tab->Some_0;
                if focused {
                    assert(self.sources()[i as int] == to@);
                } else {
                    let k = choose|k: int| 0 <= k < before.len() && before[k] == p@;
                    assert(k != i as int);
                    assert(self.sources()[k] == p@);
                }
            }
        }
        Ok(())
    }

    /// Closes the focused tab and focuses the one that takes its place, or the last one.
    pub fn close_current_document(&mut self) -> (r: Result<(), StateError>)
        requires
            old(self).wf(),
        ensures
            final(self).wf(),
            r is Err <==> old(self).current_pos() == -1,
            r is Err ==> r == Err::<(), StateError>(StateError::NoDocumentOpen) && *final(self) == *old(self),
            r is Ok ==> final(self).tabs@ == old(self).tabs@.remove(old(self).current_pos()),
            r is Ok && final(self).tabs@.len() == 0 ==> final(self).current_tab is None,
            r is Ok && final(self).tabs@.len() > 0 ==> focus_is(
                final(self).current_tab,
                final(self).sources()[if old(self).current_pos() < final(self).tabs@.len() {
                    old(self).current_pos()
                } else {
                    final(self).tabs@.len() - 1
                }],
            ),
    {
        let i = match self.current_index() {
            Some(i) => i,
            None => return Err(StateError::NoDocumentOpen),
        };
        self.tabs.remove(i);
        proof {
            assert(self.sources() =~= old(self).sources().remove(i as int));
            lemma_remove_distinct(old(self).sources(), i as int);
        }
        if self.tabs.len() == 0 {
            self.current_tab = None;
        } else {
            let j = if i < self.tabs.len() { i } else { self.tabs.len() - 1 };
            self.current_tab = Some(self.tabs[j].source.clone());
            assert(self.sources()[j as int] == self.tabs@[j as int].source@);
        }
        Ok(())
    }

    pub fn close_all_documents(&mut self)
        ensures
            final(self).wf(),
            final(self).tabs@.len() == 0,
            final(self).current_tab is None,
            final(self).clock == old(self).clock,
    {
        self.tabs.clear();
        self.current_tab = None;
    }

    /// Carries out an application command.
    pub fn process_app_command(&mut self, command: &AppCommand) -> (r: Result<(), StateError>)
        requires
            old(self).wf(),
        ensures
            final(self).wf(),
            command matches AppCommand::EndNewDocument(p) ==> r is Ok && focus_is(
                final(self).current_tab,
                p@,
            ) && final(self).is_opened_spec(p@),
            command matches AppCommand::EndOpenDocument(p, _) ==> r is Ok && focus_is(
                final(self).current_tab,
                p@,
            ) && final(self).is_opened_spec(p@),
            command matches AppCommand::RelocateDocument(from, to) ==> (r is Err
                <==> (!old(self).is_opened_spec(from@) || (from@ != to@ && old(self).is_opened_spec(
                to@)))),
            command matches AppCommand::SaveAllDocuments ==> r is Ok && *final(self) == *old(self),
            r is Err ==> final(self).tabs@ == old(self).tabs@ && final(self).current_tab == old(
                self).current_tab && final(self).clock == old(self).clock,
            command matches AppCommand::FocusDocument(p) ==> r is Ok && final(self).tabs@ == old(self).tabs@ && (old(self).is_opened_spec(p@) ==> focus_is(final(self).current_tab, p@)) && (
            !old(self).is_opened_spec(p@) ==> final(self).current_tab == old(self).current_tab),
            command matches AppCommand::CloseCurrentDocument ==> (r is Err <==> old(self).current_pos()
                == -1),
            command matches AppCommand::CloseAllDocuments ==> r is Ok && final(self).tabs@.len() == 0
                && final(self).current_tab is None,
            (command matches AppCommand::Undo || command matches AppCommand::Redo)
                && old(self).current_pos() == -1 ==> r == Err::<(), StateError>(
                StateError::NoDocumentOpen,
            ),
            (command matches AppCommand::Undo || command matches AppCommand::Redo) && 0 <= old(self).current_pos() ==> (r is Err <==> old(self).tabs@[old(self).current_pos()].transient is Some),
            command matches AppCommand::Undo && 0 <= old(self).current_pos() && r is Ok ==> final(self).tabs@[old(self).current_pos()].history_model() == crate::document::undo_step(
                old(self).tabs@[old(self).current_pos()].history_model(),
            ),
            command matches AppCommand::Redo && 0 <= old(self).current_pos() && r is Ok ==> final(self).tabs@[old(self).current_pos()].history_model() == crate::document::redo_step(
                old(self).tabs@[old(self).current_pos()].history_model(),
            ),
    {
        match command {
            AppCommand::EndNewDocument(p) => {
                self.end_new_document(p);
                Ok(())
            },
            AppCommand::EndOpenDocument(p, sheet) => {
                self.end_open_document(p, sheet.clone());
                Ok(())
            },
            AppCommand::RelocateDocument(from, to) => self.relocate_document(from, to),
            AppCommand::FocusDocument(p) => {
                if self.is_opened(p) {
                    self.current_tab = Some(p.clone());
                }
                Ok(())
            },
            AppCommand::CloseCurrentDocument => self.close_current_document(),
            AppCommand::CloseAllDocuments => {
                self.close_all_documents();
                Ok(())
            },
            AppCommand::SaveAllDocuments => Ok(()),
            AppCommand::Undo => match self.current_index() {
                None => Err(StateError::NoDocumentOpen),
                Some(i) => {
                    assert(self.tabs@[i as int].wf());
                    let r = self.tabs[i].undo();
                    proof {
                        assert(self.sources() =~= old(self).sources());
                        assert forall|j: int| 0 <= j < self.tabs@.len() implies (#[trigger] self.tabs@[j]).wf() by {
                            if j != i as int {
                                assert(self.tabs@[j] == old(self).tabs@[j]);
                            }
                        }
                        if r is Err {
                            assert(self.tabs@ =~= old(self).tabs@);
                        }
                    }
                    r
                },
            },
            AppCommand::Redo => match self.current_index() {
                None => Err(StateError::NoDocumentOpen),
                Some(i) => {
                    assert(self.tabs@[i as int].wf());
                    let r = self.tabs[i].redo();
                    proof {
                        assert(self.sources() =~= old(self).sources());
                        assert forall|j: int| 0 <= j < self.tabs@.len() implies (#[trigger] self.tabs@[j]).wf() by {
                            if j != i as int {
                                assert(self.tabs@[j] == old(self).tabs@[j]);
                            }
                        }
                        if r is Err {
                            assert(self.tabs@ =~= old(self).tabs@);
                        }
                    }
                    r
                },
            },
        }
    }

    /// The tab a document command goes to: the one named by commands that come back from a
    /// dialog, and the focused one for the others.
    pub open spec fn command_target(self, c: DocumentCommand) -> Result<int, StateError> {
        match c {
            DocumentCommand::MarkAsSaved(p, _) | DocumentCommand::EndImport(p, _)
            | DocumentCommand::EndSetExportTextureDestination(p, _)
            | DocumentCommand::EndSetExportMetadataDestination(p, _)
            | DocumentCommand::EndSetExportMetadataPathsRoot(p, _)
            | DocumentCommand::EndSetExportFormat(p, _) => if self.is_opened_spec(p@) {
                Ok(self.tab_pos(p@))
            } else {
                Err(StateError::DocumentNotFound)
            },
            _ => if self.current_pos() >= 0 {
                Ok(self.current_pos())
            } else {
                Err(StateError::NoDocumentOpen)
            },
        }
    }

    fn target_index(&self, command: &DocumentCommand) -> (r: Result<usize, StateError>)
        ensures
            match self.command_target(*command) {
                Ok(i) => r is Ok && r->Ok_0 == i && i < self.tabs@.len(),
                Err(e) => r == Err::<usize, StateError>(e),
            },
    {
        match command {
            DocumentCommand::MarkAsSaved(p, _) | DocumentCommand::EndImport(p, _)
            | DocumentCommand::EndSetExportTextureDestination(p, _)
            | DocumentCommand::EndSetExportMetadataDestination(p, _)
            | DocumentCommand::EndSetExportMetadataPathsRoot(p, _)
            | DocumentCommand::EndSetExportFormat(p, _) => match self.find_tab(p) {
                Some(i) => Ok(i),
                None => Err(StateError::DocumentNotFound),
            },
            _ => match self.current_index() {
                Some(i) => Ok(i),
                None => Err(StateError::NoDocumentOpen),
            },
        }
    }

    /// Routes a document command to its tab (see `command_target`) and processes it there.
    pub fn process_tab_command(&mut self, command: &DocumentCommand) -> (r: Result<(), StateError>)
        requires
            old(self).wf(),
        ensures
            final(self).wf(),
            final(self).clock == old(self).clock,
            match old(self).command_target(*command) {
                Err(e) => r == Err::<(), StateError>(e) && *final(self) == *old(self),
                Ok(i) => {
                    let d = old(self).tabs@[i];
                    &&& final(self).tabs@.len() == old(self).tabs@.len()
                    &&& forall|j: int|
                        0 <= j < old(self).tabs@.len() && j != i ==> (#[trigger] final(self).tabs@[j])
                            == old(self).tabs@[j]
                    &&& final(self).current_tab == old(self).current_tab
                    &&& match command_result(d.state(), d.is_saved_spec(), *command) {
                        Ok(s) => r is Ok && final(self).tabs@[i].state() == s
                            && final(self).tabs@[i].source@ == d.source@
                            && final(self).tabs@[i].history_model() == crate::document::record(
                            d.history_model(),
                            s,
                        ),
                        Err(e) => r == Err::<(), StateError>(e) && final(self).tabs@[i] == d,
                    }
                },
            },
    {
        let i = match self.target_index(command) {
            Ok(i) => i,
            Err(e) => return Err(e),
        };
        assert(self.tabs@[i as int].wf());
        let r = self.tabs[i].process_command(command);
        proof {
            assert(self.sources() =~= old(self).sources());
            assert forall|j: int| 0 <= j < self.tabs@.len() implies (#[trigger] self.tabs@[j]).wf() by {
                if j != i as int {
                    assert(self.tabs@[j] == old(self).tabs@[j]);
                }
            }
            if r is Err {
                assert(self.tabs@ =~= old(self).tabs@);
            }
        }
        r
    }

    /// Carries out a command for the application or for one of its documents.
    pub fn process_sync_command(&mut self, command: &SyncCommand) -> (r: Result<(), StateError>)
        requires
            old(self).wf(),
        ensures
            final(self).wf(),
            r is Err ==> final(self).tabs@ == old(self).tabs@ && final(self).current_tab == old(
                self).current_tab && final(self).clock == old(self).clock,
            command matches SyncCommand::Tab(c) ==> match old(self).command_target(*c) {
                Err(e) => r == Err::<(), StateError>(e) && *final(self) == *old(self),
                Ok(i) => match command_result(
                    old(self).tabs@[i].state(),
                    old(self).tabs@[i].is_saved_spec(),
                    *c,
                ) {
                    Ok(s) => r is Ok && final(self).tabs@[i].state() == s,
                    Err(e) => r == Err::<(), StateError>(e) && final(self).tabs@ == old(self).tabs@,
                },
            },
    {
        match command {
            SyncCommand::App(c) => self.process_app_command(c),
            SyncCommand::Tab(c) => {
                let r = self.process_tab_command(c);
                proof {
                    if r is Err && old(self).command_target(*c) is Ok {
                        assert(self.tabs@ =~= old(self).tabs@);
                    }
                }
                r
            },
        }
    }
}

/// The extension of sheet documents.
pub open spec fn sheet_extension() -> Seq<char> {
    seq!['t', 'i', 'g', 'e', 'r']
}

/// Work that waits on a dialog or on the disk. The host performs it and hands back the
/// paths the user picked.
#[derive(Debug)]
pub enum AsyncCommand {
    BeginNewDocument,
    BeginOpenDocument,
    /// Save the document at the path.
    Save(String),
    /// Save the document at the path under a new name.
    SaveAs(String),
    BeginSetExportTextureDestination(String),
    BeginSetExportMetadataDestination(String),
    BeginSetExportMetadataPathsRoot(String),
    BeginSetExportFormat(String),
    BeginImport(String),
    /// Export the document at the path.
    Export(String),
}

impl AsyncCommand {
    /// The path of the document a command is about; empty for the others.
    pub open spec fn document(self) -> Seq<char> {
        match self {
            AsyncCommand::Save(p) | AsyncCommand::SaveAs(p)
            | AsyncCommand::BeginSetExportTextureDestination(p)
            | AsyncCommand::BeginSetExportMetadataDestination(p)
            | AsyncCommand::BeginSetExportMetadataPathsRoot(p)
            | AsyncCommand::BeginSetExportFormat(p) | AsyncCommand::BeginImport(p)
            | AsyncCommand::Export(p) => p@,
            _ => seq![],
        }
    }
}

/// What `std::path::PathBuf::set_extension` makes of a path and an extension.
pub uninterp spec fn path_with_extension(path: Seq<char>, ext: Seq<char>) -> Seq<char>;

/// Whether `ext` holds no path separator, which `set_extension` refuses with a panic.
pub open spec fn plain_extension(ext: Seq<char>) -> bool {
    forall|i: int| 0 <= i < ext.len() ==> ext[i] != '/' && ext[i] != '\\'
}

/// Relies on `std::path::PathBuf::set_extension`, whose result depends on the path and the
/// extension alone.
#[verifier::external_body]
fn with_extension(path: &String, ext: &str) -> (r: String)
    requires
        plain_extension(ext@),
    ensures
        r@ == path_with_extension(path@, ext@),
{
    let mut p = std::path::PathBuf::from(path);
    p.set_extension(ext);
    p.to_string_lossy().into_owned()
}

fn sheet_path(path: &String) -> (r: String)
    ensures
        r@ == path_with_extension(path@, sheet_extension()),
{
    proof {
        reveal_strlit("tiger");
    }
    let ext = "tiger";
    assert(ext@ =~= sheet_extension());
    assert(plain_extension(ext@));
    with_extension(path, ext)
}

/// The commands that follow `command` once its dialog closed with `picked` chosen (nothing
/// when cancelled), in the order they are to be carried out. Saving under a new name moves
/// the tab, then saves it there. Opening, saving and exporting read or write files, which
/// the host does; they bring no command here.
pub fn process_async_command(command: &AsyncCommand, picked: &Vec<String>) -> (r: Vec<Command>)
    ensures
        picked@.len() == 0 ==> r@.len() == 0,
        (command matches AsyncCommand::BeginNewDocument && picked@.len() > 0) ==> (r@.len() == 1
            && (r@[0] matches Command::Sync(SyncCommand::App(AppCommand::EndNewDocument(p))) && p@
            == path_with_extension(picked@[0]@, sheet_extension()))),
        (command matches AsyncCommand::SaveAs(_) && picked@.len() > 0) ==> (r@.len() == 2
            && (r@[1] matches Command::Async(AsyncCommand::Save(p)) && p@ == path_with_extension(
            picked@[0]@,
            sheet_extension(),
        ))
            && (r@[0] matches Command::Sync(SyncCommand::App(AppCommand::RelocateDocument(a, b))) && a@ == command.document()
            && b@ == path_with_extension(picked@[0]@, sheet_extension()))),
        (command matches AsyncCommand::BeginImport(_)) ==> (r@.len() == picked@.len() && forall|i: int|
            0 <= i < picked@.len() ==> ((#[trigger] r@[i]) matches Command::Sync(SyncCommand::Tab(DocumentCommand::EndImport(d, f))) && d@ == command.document() && f@ == picked@[i]@)),
        (command matches AsyncCommand::BeginSetExportTextureDestination(_) && picked@.len() > 0)
            ==> (r@.len() == 1 && (r@[0] matches Command::Sync(SyncCommand::Tab(DocumentCommand::EndSetExportTextureDestination(d, f))) && d@ == command.document() && f@ == picked@[0]@)),
        (command matches AsyncCommand::BeginSetExportMetadataDestination(_) && picked@.len() > 0)
            ==> (r@.len() == 1 && (r@[0] matches Command::Sync(SyncCommand::Tab(DocumentCommand::EndSetExportMetadataDestination(d, f))) && d@ == command.document() && f@ == picked@[0]@)),
        (command matches AsyncCommand::BeginSetExportMetadataPathsRoot(_) && picked@.len() > 0)
            ==> (r@.len() == 1 && (r@[0] matches Command::Sync(SyncCommand::Tab(DocumentCommand::EndSetExportMetadataPathsRoot(d, f))) && d@ == command.document() && f@ == picked@[0]@)),
        (command matches AsyncCommand::BeginSetExportFormat(_) && picked@.len() > 0) ==> (r@.len()
            == 1 && (r@[0] matches Command::Sync(SyncCommand::Tab(DocumentCommand::EndSetExportFormat(d, f))) && d@
            == command.document() && f@ == picked@[0]@)),
        (command matches AsyncCommand::BeginOpenDocument || command matches AsyncCommand::Save(_)
            || command matches AsyncCommand::Export(_)) ==> r@.len() == 0,
{
    let mut buffer: Vec<Command> = Vec::new();
    if picked.len() == 0 {
        return buffer;
    }
    match command {
        AsyncCommand::BeginNewDocument => {
            let path = sheet_path(&picked[0]);
            buffer.push(Command::Sync(SyncCommand::App(AppCommand::EndNewDocument(path))));
        },
        AsyncCommand::SaveAs(from) => {
            let path = sheet_path(&picked[0]);
            let saved = path.clone();
            buffer.push(Command::Sync(SyncCommand::App(AppCommand::RelocateDocument(from.clone(), path))));
            buffer.push(Command::Async(AsyncCommand::Save(saved)));
        },
        AsyncCommand::BeginImport(doc) => {
            let mut i: usize = 0;
            while i < picked.len()
                invariant
                    0 <= i <= picked@.len(),
                    buffer@.len() == i,
                    command.document() == doc@,
                    forall|j: int|
                        0 <= j < i ==> ((#[trigger] buffer@[j]) matches Command::Sync(SyncCommand::Tab(DocumentCommand::EndImport(d, f))) && d@ == command.document() && f@ == picked@[j]@),
                decreases picked@.len() - i,
            {
                buffer.push(Command::Sync(SyncCommand::Tab(DocumentCommand::EndImport(doc.clone(), picked[i].clone()))));
                i += 1;
            }
        },
        AsyncCommand::BeginSetExportTextureDestination(doc) => {
            buffer.push(
                Command::Sync(SyncCommand::Tab(
                    DocumentCommand::EndSetExportTextureDestination(doc.clone(), picked[0].clone()),
                )),
            );
        },
        AsyncCommand::BeginSetExportMetadataDestination(doc) => {
            buffer.push(
                Command::Sync(SyncCommand::Tab(
                    DocumentCommand::EndSetExportMetadataDestination(doc.clone(), picked[0].clone()),
                )),
            );
        },
        AsyncCommand::BeginSetExportMetadataPathsRoot(doc) => {
            buffer.push(
                Command::Sync(SyncCommand::Tab(
                    DocumentCommand::EndSetExportMetadataPathsRoot(doc.clone(), picked[0].clone()),
                )),
            );
        },
        AsyncCommand::BeginSetExportFormat(doc) => {
            buffer.push(
                Command::Sync(SyncCommand::Tab(DocumentCommand::EndSetExportFormat(doc.clone(), picked[0].clone()))),
            );
        },
        AsyncCommand::BeginOpenDocument | AsyncCommand::Save(_) | AsyncCommand::Export(_) => {},
    }
    buffer
}

impl AppState {
    /// The saves that writing every open document asks of the host, one per tab in order.
    pub fn save_all_documents(&self) -> (r: Vec<AsyncCommand>)
        ensures
            r@.len() == self.tabs@.len(),
            forall|i: int|
                0 <= i < self.tabs@.len() ==> ((#[trigger] r@[i]) matches AsyncCommand::Save(p) && p@
                    == self.tabs@[i].source@),
    {
        let mut out: Vec<AsyncCommand> = Vec::new();
        let mut i: usize = 0;
        while i < self.tabs.len()
            invariant
                0 <= i <= self.tabs@.len(),
                out@.len() == i,
                forall|j: int|
                    0 <= j < i ==> ((#[trigger] out@[j]) matches AsyncCommand::Save(p) && p@
                        == self.tabs@[j].source@),
            decreases self.tabs@.len() - i,
        {
            out.push(AsyncCommand::Save(self.tabs[i].source.clone()));
            i += 1;
        }
        out
    }
}

} // verus!
