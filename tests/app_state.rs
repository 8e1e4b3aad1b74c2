use tiger::app::{process_async_command, AppCommand, AppState, AsyncCommand, Command, SyncCommand};
use tiger::command::{DocumentCommand, StateError};
use tiger::sheet::Sheet;

fn s(x: &str) -> String {
    x.to_string()
}

fn open(app: &mut AppState, path: &str) {
    app.process_sync_command(&SyncCommand::App(AppCommand::EndNewDocument(s(path)))).unwrap();
}

fn focused(app: &AppState) -> Option<String> {
    app.get_current_tab().map(|d| d.source.clone())
}

#[test]
fn new_app_state_is_empty() {
    let app = AppState::new();
    assert_eq!(app.tabs_iter().len(), 0);
    assert!(app.get_current_tab().is_none());
    assert_eq!(app.get_clock(), 0);
}

#[test]
fn tick_advances_the_clock() {
    let mut app = AppState::new();
    app.tick(16);
    app.tick(17);
    assert_eq!(app.get_clock(), 33);
}

#[test]
fn closing_focuses_the_neighbour() {
    let mut app = AppState::new();
    open(&mut app, "a.tiger");
    open(&mut app, "b.tiger");
    open(&mut app, "c.tiger");
    app.process_sync_command(&SyncCommand::App(AppCommand::FocusDocument(s("b.tiger")))).unwrap();
    app.process_sync_command(&SyncCommand::App(AppCommand::CloseCurrentDocument)).unwrap();
    assert_eq!(focused(&app), Some(s("c.tiger")));
    app.process_sync_command(&SyncCommand::App(AppCommand::CloseCurrentDocument)).unwrap();
    assert_eq!(focused(&app), Some(s("a.tiger")));
    app.process_sync_command(&SyncCommand::App(AppCommand::CloseCurrentDocument)).unwrap();
    assert_eq!(focused(&app), None);
    assert_eq!(
        app.process_sync_command(&SyncCommand::App(AppCommand::CloseCurrentDocument)),
        Err(StateError::NoDocumentOpen)
    );
}

#[test]
fn tab_commands_are_routed() {
    let mut app = AppState::new();
    assert_eq!(
        app.process_sync_command(&SyncCommand::Tab(DocumentCommand::WorkbenchZoomIn)),
        Err(StateError::NoDocumentOpen)
    );
    open(&mut app, "a.tiger");
    open(&mut app, "b.tiger");
    app.process_sync_command(&SyncCommand::Tab(DocumentCommand::EndImport(s("a.tiger"), s("x.png"))))
        .unwrap();
    app.process_sync_command(&SyncCommand::Tab(DocumentCommand::WorkbenchZoomIn)).unwrap();
    let a = app.get_tab(&s("a.tiger")).unwrap();
    let b = app.get_tab(&s("b.tiger")).unwrap();
    assert_eq!(a.sheet.frames.len(), 1);
    assert_eq!(b.sheet.frames.len(), 0);
    assert_eq!(a.view.workbench_zoom_level, 1);
    assert_eq!(b.view.workbench_zoom_level, 2);
    assert_eq!(
        app.process_sync_command(&SyncCommand::Tab(DocumentCommand::EndImport(s("gone.tiger"), s("x.png")))),
        Err(StateError::DocumentNotFound)
    );
    app.process_sync_command(&SyncCommand::App(AppCommand::FocusDocument(s("a.tiger")))).unwrap();
    app.process_sync_command(&SyncCommand::App(AppCommand::Undo)).unwrap();
    assert_eq!(app.get_tab(&s("a.tiger")).unwrap().sheet.frames.len(), 0);
}

#[test]
fn relocating_moves_focus() {
    let mut app = AppState::new();
    open(&mut app, "a.tiger");
    app.process_sync_command(&SyncCommand::App(AppCommand::RelocateDocument(s("a.tiger"), s("b.tiger"))))
        .unwrap();
    assert_eq!(focused(&app), Some(s("b.tiger")));
    assert_eq!(
        app.process_sync_command(&SyncCommand::App(AppCommand::RelocateDocument(s("a.tiger"), s("c.tiger")))),
        Err(StateError::DocumentNotFound)
    );
}

#[test]
fn opened_documents_start_saved() {
    let mut app = AppState::new();
    app.process_sync_command(&SyncCommand::App(AppCommand::EndOpenDocument(s("a.tiger"), Sheet::new())))
        .unwrap();
    assert!(app.get_current_tab().unwrap().is_saved());
}

#[test]
fn new_document_path_gets_the_sheet_extension() {
    let out = process_async_command(&AsyncCommand::BeginNewDocument, &vec![s("dir/walk")]);
    assert_eq!(out.len(), 1);
    match &out[0] {
        Command::Sync(SyncCommand::App(AppCommand::EndNewDocument(p))) => assert_eq!(p, "dir/walk.tiger"),
        _ => panic!("unexpected follow-up"),
    }
    let out = process_async_command(&AsyncCommand::SaveAs(s("a.tiger")), &vec![s("b.png")]);
    assert_eq!(out.len(), 2);
    match &out[0] {
        Command::Sync(SyncCommand::App(AppCommand::RelocateDocument(from, to))) => {
            assert_eq!(from, "a.tiger");
            assert_eq!(to, "b.tiger");
        }
        _ => panic!("unexpected follow-up"),
    }
    match &out[1] {
        Command::Async(AsyncCommand::Save(p)) => assert_eq!(p, "b.tiger"),
        _ => panic!("unexpected follow-up"),
    }
}

#[test]
fn import_follow_ups_name_each_image() {
    let out = process_async_command(&AsyncCommand::BeginImport(s("a.tiger")), &vec![s("x.png"), s("y.png")]);
    assert_eq!(out.len(), 2);
    match &out[1] {
        Command::Sync(SyncCommand::Tab(DocumentCommand::EndImport(d, f))) => {
            assert_eq!(d, "a.tiger");
            assert_eq!(f, "y.png");
        }
        _ => panic!("unexpected follow-up"),
    }
    assert!(process_async_command(&AsyncCommand::BeginImport(s("a.tiger")), &vec![]).is_empty());
}

#[test]
fn relocating_onto_an_open_document_is_refused() {
    let mut app = AppState::new();
    open(&mut app, "a.tiger");
    open(&mut app, "b.tiger");
    assert_eq!(
        app.process_sync_command(&SyncCommand::App(AppCommand::RelocateDocument(s("a.tiger"), s("b.tiger")))),
        Err(StateError::DocumentAlreadyOpen)
    );
    let sources: Vec<String> = app.tabs_iter().iter().map(|d| d.source.clone()).collect();
    assert_eq!(sources, vec![s("a.tiger"), s("b.tiger")]);
    assert_eq!(focused(&app), Some(s("b.tiger")));
}

#[test]
fn saving_all_asks_one_save_per_tab() {
    let mut app = AppState::new();
    open(&mut app, "a.tiger");
    open(&mut app, "b.tiger");
    app.process_sync_command(&SyncCommand::App(AppCommand::SaveAllDocuments)).unwrap();
    let saves = app.save_all_documents();
    assert_eq!(saves.len(), 2);
    match &saves[1] {
        AsyncCommand::Save(p) => assert_eq!(p, "b.tiger"),
        _ => panic!("unexpected command"),
    }
}

#[test]
fn failed_undo_changes_nothing() {
    let mut app = AppState::new();
    open(&mut app, "a.tiger");
    app.process_sync_command(&SyncCommand::Tab(DocumentCommand::BeginScrub)).unwrap();
    assert_eq!(
        app.process_sync_command(&SyncCommand::App(AppCommand::Undo)),
        Err(StateError::UndoNotAllowed)
    );
    assert!(app.get_current_tab().unwrap().is_scrubbing_timeline());
}
