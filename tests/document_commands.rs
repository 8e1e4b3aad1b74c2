use tiger::command::{DocumentCommand, StateError};
use tiger::document::Document;
use tiger::geometry::Vec2;
use tiger::selection::{IndexSelection, MultiSelection, Selection};
use tiger::view_state::WorkbenchItem;

fn s(x: &str) -> String {
    x.to_string()
}

fn run(d: &mut Document, c: DocumentCommand) {
    d.process_command(&c).unwrap();
}

fn doc_with_frames(paths: &[&str]) -> Document {
    let mut d = Document::new(s("sheet.tiger"));
    for p in paths {
        run(&mut d, DocumentCommand::EndImport(s("sheet.tiger"), s(p)));
    }
    d
}

fn add_animation(d: &mut Document, name: &str) {
    run(d, DocumentCommand::CreateAnimation);
    run(d, DocumentCommand::BeginRenameSelection);
    run(d, DocumentCommand::UpdateRenameSelection(s(name)));
    run(d, DocumentCommand::EndRenameSelection);
}

fn animation_names(d: &Document) -> Vec<String> {
    d.sheet.animations.iter().map(|a| a.name.clone()).collect()
}

fn durations(d: &Document, animation: usize) -> Vec<u32> {
    d.sheet.animations[animation].keyframes.iter().map(|k| k.duration).collect()
}

#[test]
fn undo_redo_round_trip() {
    let mut d = Document::new(s("sheet.tiger"));
    for p in ["a.png", "b.png", "c.png"] {
        run(&mut d, DocumentCommand::EndImport(s("sheet.tiger"), s(p)));
    }
    assert_eq!(d.sheet.frames.len(), 3);
    for _ in 0..3 {
        d.undo().unwrap();
    }
    assert_eq!(d.sheet.frames.len(), 0);
    for _ in 0..3 {
        d.redo().unwrap();
    }
    let sources: Vec<String> = d.sheet.frames.iter().map(|f| f.source.clone()).collect();
    assert_eq!(sources, vec![s("a.png"), s("b.png"), s("c.png")]);
}

#[test]
fn history_cap_keeps_one_hundred_entries() {
    let mut d = Document::new(s("sheet.tiger"));
    for i in 0..150 {
        run(&mut d, DocumentCommand::EndImport(s("sheet.tiger"), format!("frame{}.png", i)));
    }
    assert_eq!(d.history.len(), 100);
    for _ in 0..99 {
        d.undo().unwrap();
    }
    assert_eq!(d.history_index, 0);
    assert_eq!(d.sheet.frames.len(), 51);
    d.undo().unwrap();
    assert_eq!(d.sheet.frames.len(), 51);
}

#[test]
fn consecutive_zoom_changes_merge() {
    let mut d = Document::new(s("sheet.tiger"));
    assert_eq!(d.history.len(), 1);
    run(&mut d, DocumentCommand::WorkbenchZoomIn);
    run(&mut d, DocumentCommand::WorkbenchZoomIn);
    assert_eq!(d.history.len(), 2);
    assert_eq!(d.view.workbench_zoom_level, 4);
}

#[test]
fn hitbox_drag_records_one_entry() {
    let mut d = doc_with_frames(&["a.png"]);
    run(&mut d, DocumentCommand::EditFrame(s("a.png")));
    run(&mut d, DocumentCommand::CreateHitbox(Vec2::new(0, 0)));
    let before = d.history.len();
    run(&mut d, DocumentCommand::BeginHitboxDrag);
    for i in 1..=5 {
        run(&mut d, DocumentCommand::UpdateHitboxDrag(Vec2::new(3 * i, 2 * i), true));
    }
    assert_eq!(d.history.len(), before);
    run(&mut d, DocumentCommand::EndHitboxDrag);
    assert_eq!(d.history.len(), before + 1);
    let top = &d.history[d.history_index];
    assert_eq!(top.sheet.frames[0].hitboxes[0].position, Vec2::new(15, 10));
    assert_eq!(d.sheet.frames[0].hitboxes[0].position, Vec2::new(15, 10));
}

#[test]
fn rename_collision_is_refused() {
    let mut d = Document::new(s("sheet.tiger"));
    add_animation(&mut d, "walk");
    add_animation(&mut d, "run");
    assert_eq!(animation_names(&d), vec![s("walk"), s("run")]);
    run(&mut d, DocumentCommand::SelectAnimations(MultiSelection::single(s("walk"))));
    run(&mut d, DocumentCommand::BeginRenameSelection);
    run(&mut d, DocumentCommand::UpdateRenameSelection(s("run")));
    let r = d.process_command(&DocumentCommand::EndRenameSelection);
    assert_eq!(r, Err(StateError::AnimationAlreadyExists));
    assert_eq!(animation_names(&d), vec![s("walk"), s("run")]);
}

#[test]
fn selection_with_missing_frame_fails_entirely() {
    let mut d = doc_with_frames(&["a.png", "b.png"]);
    run(&mut d, DocumentCommand::SelectFrames(MultiSelection::single(s("b.png"))));
    let r = d.process_command(&DocumentCommand::SelectFrames(MultiSelection::new(vec![
        s("a.png"),
        s("missing.png"),
    ])));
    assert_eq!(r, Err(StateError::FrameNotInDocument));
    match &d.view.selection {
        Some(Selection::Frame(sel)) => assert_eq!(sel.items, vec![s("b.png")]),
        _ => panic!("selection changed"),
    }
}

fn animated_document() -> Document {
    let mut d = doc_with_frames(&["a.png", "b.png", "c.png"]);
    add_animation(&mut d, "walk");
    run(&mut d, DocumentCommand::EditAnimation(s("walk")));
    run(&mut d, DocumentCommand::InsertKeyframesBefore(vec![s("a.png"), s("b.png"), s("c.png")], 0));
    d
}

#[test]
fn looping_playback_wraps_the_clock() {
    let mut d = animated_document();
    run(&mut d, DocumentCommand::SelectKeyframes(IndexSelection::single(2)));
    run(&mut d, DocumentCommand::DeleteSelection);
    d.sheet.animations[0].keyframes[1].duration = 50;
    assert_eq!(durations(&d, 0), vec![100, 50]);
    assert!(d.sheet.animations[0].looping);
    run(&mut d, DocumentCommand::EditAnimation(s("walk")));
    run(&mut d, DocumentCommand::TogglePlayback);
    d.tick(120);
    d.tick(80);
    assert_eq!(d.view.timeline_clock, 50);
    assert!(d.persistent.timeline_is_playing);
}

#[test]
fn non_looping_playback_stops_at_the_end() {
    let mut d = animated_document();
    run(&mut d, DocumentCommand::ToggleLooping);
    run(&mut d, DocumentCommand::TogglePlayback);
    d.tick(1000);
    assert_eq!(d.view.timeline_clock, 300);
    assert!(!d.persistent.timeline_is_playing);
    run(&mut d, DocumentCommand::TogglePlayback);
    assert_eq!(d.view.timeline_clock, 0);
}

#[test]
fn duration_drag_splits_the_change() {
    let mut d = animated_document();
    run(&mut d, DocumentCommand::SelectKeyframes(IndexSelection::new(vec![0, 1, 2])));
    run(&mut d, DocumentCommand::BeginKeyframeDurationDrag(200, 1));
    run(&mut d, DocumentCommand::UpdateKeyframeDurationDrag(230, 10));
    assert_eq!(durations(&d, 0), vec![115, 115, 100]);
    run(&mut d, DocumentCommand::UpdateKeyframeDurationDrag(0, 10));
    assert_eq!(durations(&d, 0), vec![10, 10, 100]);
    assert_eq!(d.view.timeline_clock, 20);
}

#[test]
fn snapping_moves_between_keyframes() {
    let mut d = animated_document();
    run(&mut d, DocumentCommand::UpdateScrub(150));
    run(&mut d, DocumentCommand::SnapToNextFrame);
    assert_eq!(d.view.timeline_clock, 200);
    run(&mut d, DocumentCommand::SnapToPreviousFrame);
    assert_eq!(d.view.timeline_clock, 100);
    match &d.view.selection {
        Some(Selection::Keyframe(sel)) => assert_eq!(sel.items, vec![1]),
        _ => panic!("no keyframe selected"),
    }
}

#[test]
fn reorder_moves_selected_keyframes() {
    let mut d = animated_document();
    run(&mut d, DocumentCommand::SelectKeyframes(IndexSelection::single(0)));
    run(&mut d, DocumentCommand::ReorderKeyframes(3));
    let frames: Vec<String> = d.sheet.animations[0].keyframes.iter().map(|k| k.frame.clone()).collect();
    assert_eq!(frames, vec![s("b.png"), s("c.png"), s("a.png")]);
    assert_eq!(d.view.timeline_clock, 200);
}

#[test]
fn created_names_do_not_collide() {
    let mut d = Document::new(s("sheet.tiger"));
    run(&mut d, DocumentCommand::CreateAnimation);
    run(&mut d, DocumentCommand::CreateAnimation);
    run(&mut d, DocumentCommand::CreateAnimation);
    assert_eq!(
        animation_names(&d),
        vec![s("New Animation"), s("New Animation 2"), s("New Animation 3")]
    );
    match &d.view.workbench_item {
        Some(WorkbenchItem::Animation(n)) => assert_eq!(n, "New Animation 3"),
        _ => panic!("workbench does not show the new animation"),
    }
}

#[test]
fn errors_leave_the_document_alone() {
    let mut d = doc_with_frames(&["a.png"]);
    assert_eq!(
        d.process_command(&DocumentCommand::CreateHitbox(Vec2::new(1, 1))),
        Err(StateError::NotEditingAnyFrame)
    );
    assert_eq!(
        d.process_command(&DocumentCommand::UpdateHitboxDrag(Vec2::new(1, 1), true)),
        Err(StateError::NotEditingAnyFrame)
    );
    run(&mut d, DocumentCommand::EditFrame(s("a.png")));
    assert_eq!(
        d.process_command(&DocumentCommand::BeginHitboxDrag),
        Err(StateError::NoHitboxSelected)
    );
    run(&mut d, DocumentCommand::CreateHitbox(Vec2::new(1, 1)));
    assert_eq!(
        d.process_command(&DocumentCommand::UpdateHitboxDrag(Vec2::new(1, 1), true)),
        Err(StateError::NotAdjustingHitboxPosition)
    );
    assert_eq!(
        d.process_command(&DocumentCommand::EndRenameSelection),
        Err(StateError::NotRenaming)
    );
    assert_eq!(
        d.process_command(&DocumentCommand::EditAnimation(s("none"))),
        Err(StateError::AnimationNotInDocument)
    );
    assert_eq!(
        d.process_command(&DocumentCommand::TogglePlayback),
        Err(StateError::NotEditingAnyAnimation)
    );
    assert_eq!(d.process_command(&DocumentCommand::EndExportAs), Err(StateError::NotExporting));
    assert_eq!(d.sheet.frames[0].hitboxes.len(), 1);
}

#[test]
fn hitbox_rename_collision_and_resize() {
    let mut d = doc_with_frames(&["a.png"]);
    run(&mut d, DocumentCommand::EditFrame(s("a.png")));
    run(&mut d, DocumentCommand::CreateHitbox(Vec2::new(0, 0)));
    run(&mut d, DocumentCommand::CreateHitbox(Vec2::new(10, 10)));
    let names: Vec<String> = d.sheet.frames[0].hitboxes.iter().map(|h| h.name.clone()).collect();
    assert_eq!(names, vec![s("New Hitbox"), s("New Hitbox 2")]);
    run(&mut d, DocumentCommand::BeginRenameSelection);
    run(&mut d, DocumentCommand::UpdateRenameSelection(s("New Hitbox")));
    assert_eq!(
        d.process_command(&DocumentCommand::EndRenameSelection),
        Err(StateError::HitboxAlreadyExists)
    );
    run(&mut d, DocumentCommand::BeginHitboxScale(tiger::transient::ResizeAxis::SE));
    run(&mut d, DocumentCommand::UpdateHitboxScale(Vec2::new(20, 8), false));
    run(&mut d, DocumentCommand::EndHitboxScale);
    let h = &d.sheet.frames[0].hitboxes[1];
    assert_eq!(h.position, Vec2::new(10, 10));
    assert_eq!((h.size.width, h.size.height), (20, 8));
    run(&mut d, DocumentCommand::BeginHitboxScale(tiger::transient::ResizeAxis::NW));
    run(&mut d, DocumentCommand::UpdateHitboxScale(Vec2::new(30, 0), false));
    let h = &d.sheet.frames[0].hitboxes[1];
    assert_eq!(h.position, Vec2::new(30, 10));
    assert_eq!((h.size.width, h.size.height), (10, 8));
}

#[test]
fn undo_is_refused_during_a_gesture() {
    let mut d = doc_with_frames(&["a.png"]);
    run(&mut d, DocumentCommand::BeginScrub);
    assert_eq!(d.undo(), Err(StateError::UndoNotAllowed));
    assert_eq!(d.redo(), Err(StateError::UndoNotAllowed));
    run(&mut d, DocumentCommand::EndScrub);
    assert!(d.undo().is_ok());
}

#[test]
fn nudging_moves_selected_keyframes() {
    let mut d = animated_document();
    run(&mut d, DocumentCommand::SelectKeyframes(IndexSelection::new(vec![0, 2])));
    run(&mut d, DocumentCommand::NudgeSelection(Vec2::new(1, -1), true));
    let offsets: Vec<Vec2> = d.sheet.animations[0].keyframes.iter().map(|k| k.offset).collect();
    assert_eq!(offsets, vec![Vec2::new(10, -10), Vec2::new(0, 0), Vec2::new(10, -10)]);
    run(&mut d, DocumentCommand::BeginKeyframeOffsetDrag);
    run(&mut d, DocumentCommand::WorkbenchZoomIn);
    run(&mut d, DocumentCommand::BeginKeyframeOffsetDrag);
    run(&mut d, DocumentCommand::UpdateKeyframeOffsetDrag(Vec2::new(5, 1), false));
    let offsets: Vec<Vec2> = d.sheet.animations[0].keyframes.iter().map(|k| k.offset).collect();
    assert_eq!(offsets, vec![Vec2::new(12, -10), Vec2::new(0, 0), Vec2::new(12, -10)]);
}

#[test]
fn saving_and_closing() {
    let mut d = doc_with_frames(&["a.png"]);
    assert!(!d.is_saved());
    run(&mut d, DocumentCommand::Close);
    assert_eq!(d.persistent.close_state, Some(tiger::document::CloseState::Requested));
    run(&mut d, DocumentCommand::CloseAfterSaving);
    let v = d.get_version();
    run(&mut d, DocumentCommand::MarkAsSaved(s("sheet.tiger"), v));
    assert!(d.is_saved());
    d.tick(0);
    assert_eq!(d.persistent.close_state, Some(tiger::document::CloseState::Allowed));
}

#[test]
fn export_settings_are_edited_then_kept() {
    let mut d = Document::new(s("sheet.tiger"));
    run(&mut d, DocumentCommand::BeginExportAs);
    run(&mut d, DocumentCommand::EndSetExportTextureDestination(s("sheet.tiger"), s("out.png")));
    run(&mut d, DocumentCommand::EndSetExportFormat(s("sheet.tiger"), s("t.liquid")));
    run(&mut d, DocumentCommand::EndExportAs);
    let e = d.sheet.export_settings.as_ref().unwrap();
    assert_eq!(e.texture_destination, "out.png");
    assert_eq!(e.format, "t.liquid");
    assert!(d.persistent.export_settings_edit.is_none());
}

#[test]
fn new_entries_remember_their_command() {
    let mut d = Document::new(s("sheet.tiger"));
    assert!(d.get_undo_command().is_none());
    run(&mut d, DocumentCommand::EndImport(s("sheet.tiger"), s("a.png")));
    match d.get_undo_command() {
        Some(DocumentCommand::EndImport(_, f)) => assert_eq!(f, "a.png"),
        _ => panic!("no command recorded"),
    }
    d.undo().unwrap();
    match d.get_redo_command() {
        Some(DocumentCommand::EndImport(_, f)) => assert_eq!(f, "a.png"),
        _ => panic!("no command to redo"),
    }
}

#[test]
fn content_change_makes_a_saved_document_unsaved() {
    let mut d = Document::new(s("sheet.tiger"));
    assert!(d.is_saved());
    run(&mut d, DocumentCommand::EndImport(s("sheet.tiger"), s("a.png")));
    assert!(!d.is_saved());
    d.undo().unwrap();
    assert!(d.is_saved());
}

#[test]
fn export_needs_settings() {
    let mut d = Document::new(s("sheet.tiger"));
    assert_eq!(d.export_settings().unwrap_err(), StateError::NoExistingExportSettings);
    run(&mut d, DocumentCommand::BeginExportAs);
    run(&mut d, DocumentCommand::EndSetExportTextureDestination(s("sheet.tiger"), s("out.png")));
    run(&mut d, DocumentCommand::EndExportAs);
    assert_eq!(d.export_settings().unwrap().texture_destination, "out.png");
}

#[test]
fn display_name_is_the_file_name() {
    let d = Document::new(s("dir/walk.tiger"));
    assert_eq!(d.get_display_name(), "walk.tiger");
    let d = Document::new(s(""));
    assert_eq!(d.get_display_name(), "???");
}
