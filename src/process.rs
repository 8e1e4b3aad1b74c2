use vstd::prelude::*;

use crate::command::{DocumentCommand, StateError};
use crate::command::copies;
use crate::document::{record, record_pushes, DocState, Document, PersistentModel};
use crate::editing::{
    create_animation_effect, create_hitbox_effect, edit_animation_effect, edit_frame_effect,
    select_animations_effect, select_frames_effect, select_hitboxes_effect, select_keyframes_effect,
    with_selection, with_sheet, with_transient, with_view,
};
use crate::gestures::{
    begin_duration_drag_effect, begin_offset_drag_effect, update_duration_drag_effect,
    update_offset_drag_effect,
};
use crate::hitbox_gestures::{
    begin_hitbox_drag_effect, begin_hitbox_scale_effect, update_hitbox_drag_effect,
    update_hitbox_scale_effect,
};
use crate::lifecycle::{
    begin_close_effect, begin_export_as_effect, begin_rename_selection_effect, end_export_as_effect,
    end_rename_effect, set_export_field_effect, with_persistent, ExportField,
};
use crate::playback::{
    scrub_effect, snap_next_effect, snap_previous_effect, toggle_looping_effect,
    toggle_playback_effect,
};
use crate::selection_edits::{delete_effect, nudge_effect};
use crate::sheet::SheetModel;
use crate::timeline_edits::{insert_keyframes_effect, reorder_effect};
use crate::transient::{Transient, TransientModel};
use crate::view_state::{zoom_in_level, zoom_out_level, ViewModel};

verus! {

/// What a command does to the editable part of a document (`saved`: whether the document
/// is saved), before the gesture in progress is settled.
pub open spec fn command_effect(s: DocState, saved: bool, c: DocumentCommand) -> Result<
    DocState,
    StateError,
> {
    match c {
        DocumentCommand::MarkAsSaved(_, v) => Ok(
            with_persistent(s, PersistentModel { disk_version: v, ..s.persistent }),
        ),
        DocumentCommand::EndImport(_, f) => Ok(
            with_sheet(
                s,
                if s.sheet.has_frame(f@) {
                    s.sheet
                } else {
                    SheetModel {
                        frames: s.sheet.frames.push(
                            crate::sheet::FrameModel { source: f@, hitboxes: seq![] },
                        ),
                        ..s.sheet
                    }
                },
            ),
        ),
        DocumentCommand::BeginExportAs => Ok(begin_export_as_effect(s)),
        DocumentCommand::CancelExportAs => Ok(
            with_persistent(s, PersistentModel { export_settings_edit: None, ..s.persistent }),
        ),
        DocumentCommand::EndSetExportTextureDestination(_, d) => set_export_field_effect(
            s,
            ExportField::TextureDestination,
            d@,
        ),
        DocumentCommand::EndSetExportMetadataDestination(_, d) => set_export_field_effect(
            s,
            ExportField::MetadataDestination,
            d@,
        ),
        DocumentCommand::EndSetExportMetadataPathsRoot(_, d) => set_export_field_effect(
            s,
            ExportField::MetadataPathsRoot,
            d@,
        ),
        DocumentCommand::EndSetExportFormat(_, f) => set_export_field_effect(s, ExportField::Format, f@),
        DocumentCommand::EndExportAs => end_export_as_effect(s),
        DocumentCommand::SwitchToContentTab(t) => Ok(with_view(s, ViewModel { content_tab: t, ..s.view })),
        DocumentCommand::ClearSelection => Ok(with_selection(s, None)),
        DocumentCommand::SelectFrames(sel) => select_frames_effect(s, sel@),
        DocumentCommand::SelectAnimations(sel) => select_animations_effect(s, sel@),
        DocumentCommand::SelectHitboxes(sel) => select_hitboxes_effect(s, sel@),
        DocumentCommand::SelectKeyframes(sel) => select_keyframes_effect(s, sel@),
        DocumentCommand::EditFrame(p) => edit_frame_effect(s, p@),
        DocumentCommand::EditAnimation(n) => edit_animation_effect(s, n@),
        DocumentCommand::CreateAnimation => Ok(create_animation_effect(s)),
        DocumentCommand::BeginFramesDrag => Ok(with_transient(s, Some(TransientModel::ContentFramesDrag))),
        DocumentCommand::InsertKeyframesBefore(paths, i) => insert_keyframes_effect(
            s,
            paths@.map_values(|p: String| p@),
            i,
        ),
        DocumentCommand::ReorderKeyframes(i) => reorder_effect(s, i),
        DocumentCommand::BeginKeyframeDurationDrag(clock, i) => begin_duration_drag_effect(s, i, clock),
        DocumentCommand::UpdateKeyframeDurationDrag(clock, minimum) => update_duration_drag_effect(
            s,
            clock,
            minimum,
        ),
        DocumentCommand::BeginKeyframeDrag => Ok(with_transient(s, Some(TransientModel::TimelineFrameDrag))),
        DocumentCommand::BeginKeyframeOffsetDrag => begin_offset_drag_effect(s),
        DocumentCommand::UpdateKeyframeOffsetDrag(d, both) => update_offset_drag_effect(s, d, both),
        DocumentCommand::WorkbenchZoomIn => Ok(
            with_view(
                s,
                ViewModel { workbench_zoom_level: zoom_in_level(s.view.workbench_zoom_level), ..s.view },
            ),
        ),
        DocumentCommand::WorkbenchZoomOut => Ok(
            with_view(
                s,
                ViewModel { workbench_zoom_level: zoom_out_level(s.view.workbench_zoom_level), ..s.view },
            ),
        ),
        DocumentCommand::WorkbenchResetZoom => Ok(with_view(s, ViewModel { workbench_zoom_level: 1, ..s.view })),
        DocumentCommand::WorkbenchCenter => Ok(
            with_view(s, ViewModel { workbench_offset: crate::geometry::Vec2 { x: 0, y: 0 }, ..s.view }),
        ),
        DocumentCommand::Pan(d) => Ok(
            with_view(s, ViewModel { workbench_offset: s.view.workbench_offset.saturating_sum(d), ..s.view }),
        ),
        DocumentCommand::CreateHitbox(p) => create_hitbox_effect(s, p),
        DocumentCommand::BeginHitboxScale(axis) => begin_hitbox_scale_effect(s, axis),
        DocumentCommand::UpdateHitboxScale(d, keep) => update_hitbox_scale_effect(s, d, keep),
        DocumentCommand::BeginHitboxDrag => begin_hitbox_drag_effect(s),
        DocumentCommand::UpdateHitboxDrag(d, both) => update_hitbox_drag_effect(s, d, both),
        DocumentCommand::TogglePlayback => toggle_playback_effect(s),
        DocumentCommand::SnapToPreviousFrame => snap_previous_effect(s),
        DocumentCommand::SnapToNextFrame => snap_next_effect(s),
        DocumentCommand::ToggleLooping => toggle_looping_effect(s),
        DocumentCommand::TimelineZoomIn => Ok(
            with_view(
                s,
                ViewModel { timeline_zoom_level: zoom_in_level(s.view.timeline_zoom_level), ..s.view },
            ),
        ),
        DocumentCommand::TimelineZoomOut => Ok(
            with_view(
                s,
                ViewModel { timeline_zoom_level: zoom_out_level(s.view.timeline_zoom_level), ..s.view },
            ),
        ),
        DocumentCommand::TimelineResetZoom => Ok(with_view(s, ViewModel { timeline_zoom_level: 1, ..s.view })),
        DocumentCommand::BeginScrub => Ok(with_transient(s, Some(TransientModel::TimelineScrub))),
        DocumentCommand::UpdateScrub(t) => scrub_effect(s, t),
        DocumentCommand::NudgeSelection(d, large) => nudge_effect(s, d, large),
        DocumentCommand::DeleteSelection => delete_effect(s),
        DocumentCommand::BeginRenameSelection => Ok(begin_rename_selection_effect(s)),
        DocumentCommand::UpdateRenameSelection(n) => Ok(with_transient(s, Some(TransientModel::Rename(n@)))),
        DocumentCommand::EndRenameSelection => end_rename_effect(s),
        DocumentCommand::Close => Ok(begin_close_effect(s, saved)),
        DocumentCommand::CloseAfterSaving => Ok(
            with_persistent(
                s,
                PersistentModel { close_state: Some(crate::document::CloseState::Saving), ..s.persistent },
            ),
        ),
        DocumentCommand::CloseWithoutSaving => Ok(
            with_persistent(
                s,
                PersistentModel { close_state: Some(crate::document::CloseState::Allowed), ..s.persistent },
            ),
        ),
        DocumentCommand::CancelClose => Ok(
            with_persistent(s, PersistentModel { close_state: None, ..s.persistent }),
        ),
        DocumentCommand::EndFramesDrag | DocumentCommand::EndKeyframeDurationDrag
        | DocumentCommand::EndKeyframeDrag | DocumentCommand::EndKeyframeOffsetDrag
        | DocumentCommand::EndHitboxScale | DocumentCommand::EndHitboxDrag
        | DocumentCommand::EndScrub => Ok(s),
    }
}

/// Any command but one that begins or continues a gesture ends the gesture in progress.
pub open spec fn settle(s: DocState, c: DocumentCommand) -> DocState {
    if c.keeps_gesture() {
        s
    } else {
        with_transient(s, None)
    }
}

/// The document after a successful command, when `process_command` on `c` succeeds.
pub open spec fn command_result(s: DocState, saved: bool, c: DocumentCommand) -> Result<
    DocState,
    StateError,
> {
    match command_effect(s, saved, c) {
        Ok(n) => Ok(settle(n, c)),
        Err(e) => Err(e),
    }
}

impl Document {
    #[verifier::rlimit(100)]
    fn apply_command(&mut self, command: &DocumentCommand) -> (r: Result<(), StateError>)
        requires
            old(self).wf(),
        ensures
            final(self).wf(),
            final(self).outcome(
                *old(self),
                r,
                command_effect(old(self).state(), old(self).is_saved_spec(), *command),
            ),
    {
        match command {
            DocumentCommand::MarkAsSaved(_, v) => {
                self.persistent.disk_version = *v;
                Ok(())
            },
            DocumentCommand::EndImport(_, f) => {
                self.sheet.add_frame(f);
                Ok(())
            },
            DocumentCommand::BeginExportAs => {
                self.begin_export_as();
                Ok(())
            },
            DocumentCommand::CancelExportAs => {
                self.cancel_export_as();
                Ok(())
            },
            DocumentCommand::EndSetExportTextureDestination(_, d) => self.set_export_field(
                ExportField::TextureDestination,
                d,
            ),
            DocumentCommand::EndSetExportMetadataDestination(_, d) => self.set_export_field(
                ExportField::MetadataDestination,
                d,
            ),
            DocumentCommand::EndSetExportMetadataPathsRoot(_, d) => self.set_export_field(
                ExportField::MetadataPathsRoot,
                d,
            ),
            DocumentCommand::EndSetExportFormat(_, f) => self.set_export_field(ExportField::Format, f),
            DocumentCommand::EndExportAs => self.end_export_as(),
            DocumentCommand::SwitchToContentTab(t) => {
                self.view.content_tab = *t;
                Ok(())
            },
            DocumentCommand::ClearSelection => {
                self.clear_selection();
                Ok(())
            },
            DocumentCommand::SelectFrames(sel) => self.select_frames(sel),
            DocumentCommand::SelectAnimations(sel) => self.select_animations(sel),
            DocumentCommand::SelectHitboxes(sel) => self.select_hitboxes(sel),
            DocumentCommand::SelectKeyframes(sel) => self.select_keyframes(sel),
            DocumentCommand::EditFrame(p) => self.edit_frame(p),
            DocumentCommand::EditAnimation(n) => self.edit_animation(n),
            DocumentCommand::CreateAnimation => self.create_animation(),
            DocumentCommand::BeginFramesDrag => {
                self.transient = Some(Transient::ContentFramesDrag);
                Ok(())
            },
            DocumentCommand::InsertKeyframesBefore(paths, i) => self.insert_keyframes_before(paths, *i),
            DocumentCommand::ReorderKeyframes(i) => self.reorder_keyframes(*i),
            DocumentCommand::BeginKeyframeDurationDrag(clock, i) => self.begin_keyframe_duration_drag(
                *i,
                *clock,
            ),
            DocumentCommand::UpdateKeyframeDurationDrag(clock, minimum) => self.update_keyframe_duration_drag(
                *clock,
                *minimum,
            ),
            DocumentCommand::BeginKeyframeDrag => {
                self.begin_keyframe_drag();
                Ok(())
            },
            DocumentCommand::BeginKeyframeOffsetDrag => self.begin_keyframe_offset_drag(),
            DocumentCommand::UpdateKeyframeOffsetDrag(d, both) => self.update_keyframe_offset_drag(*d, *both),
            DocumentCommand::WorkbenchZoomIn => {
                self.view.workbench_zoom_in();
                Ok(())
            },
            DocumentCommand::WorkbenchZoomOut => {
                self.view.workbench_zoom_out();
                Ok(())
            },
            DocumentCommand::WorkbenchResetZoom => {
                self.view.workbench_reset_zoom();
                Ok(())
            },
            DocumentCommand::WorkbenchCenter => {
                self.view.workbench_center();
                Ok(())
            },
            DocumentCommand::Pan(d) => {
                self.view.pan(*d);
                Ok(())
            },
            DocumentCommand::CreateHitbox(p) => self.create_hitbox(*p),
            DocumentCommand::BeginHitboxScale(axis) => self.begin_hitbox_scale(*axis),
            DocumentCommand::UpdateHitboxScale(d, keep) => self.update_hitbox_scale(*d, *keep),
            DocumentCommand::BeginHitboxDrag => self.begin_hitbox_drag(),
            DocumentCommand::UpdateHitboxDrag(d, both) => self.update_hitbox_drag(*d, *both),
            DocumentCommand::TogglePlayback => self.toggle_playback(),
            DocumentCommand::SnapToPreviousFrame => self.snap_to_previous_frame(),
            DocumentCommand::SnapToNextFrame => self.snap_to_next_frame(),
            DocumentCommand::ToggleLooping => self.toggle_looping(),
            DocumentCommand::TimelineZoomIn => {
                self.view.timeline_zoom_in();
                Ok(())
            },
            DocumentCommand::TimelineZoomOut => {
                self.view.timeline_zoom_out();
                Ok(())
            },
            DocumentCommand::TimelineResetZoom => {
                self.view.timeline_reset_zoom();
                Ok(())
            },
            DocumentCommand::BeginScrub => {
                self.transient = Some(Transient::TimelineScrub);
                Ok(())
            },
            DocumentCommand::UpdateScrub(t) => self.update_timeline_scrub(*t),
            DocumentCommand::NudgeSelection(d, large) => self.nudge_selection(*d, *large),
            DocumentCommand::DeleteSelection => self.delete_selection(),
            DocumentCommand::BeginRenameSelection => {
                self.begin_rename_selection();
                Ok(())
            },
            DocumentCommand::UpdateRenameSelection(n) => {
                self.transient = Some(Transient::Rename(n.clone()));
                Ok(())
            },
            DocumentCommand::EndRenameSelection => self.end_rename_selection(),
            DocumentCommand::Close => {
                self.begin_close();
                Ok(())
            },
            DocumentCommand::CloseAfterSaving => {
                self.persistent.close_state = Some(crate::document::CloseState::Saving);
                Ok(())
            },
            DocumentCommand::CloseWithoutSaving => {
                self.persistent.close_state = Some(crate::document::CloseState::Allowed);
                Ok(())
            },
            DocumentCommand::CancelClose => {
                self.persistent.close_state = None;
                Ok(())
            },
            DocumentCommand::EndFramesDrag | DocumentCommand::EndKeyframeDurationDrag
            | DocumentCommand::EndKeyframeDrag | DocumentCommand::EndKeyframeOffsetDrag
            | DocumentCommand::EndHitboxScale | DocumentCommand::EndHitboxDrag
            | DocumentCommand::EndScrub => Ok(()),
        }
    }

    /// Applies `command` to a copy of the document and, when it succeeds, takes the copy's
    /// content, view, gesture and bookkeeping and records them in history. A failing command
    /// changes nothing.
    pub fn process_command(&mut self, command: &DocumentCommand) -> (r: Result<(), StateError>)
        requires
            old(self).wf(),
        ensures
            final(self).wf(),
            match command_result(old(self).state(), old(self).is_saved_spec(), *command) {
                Ok(s) => r is Ok && final(self).state() == s && final(self).source@ == old(self).source@
                    && final(self).history_model() == record(old(self).history_model(), s) && (
                    record_pushes(old(self).history_model(), s) ==> (final(self).history@[final(self).history_index as int].last_command matches Some(c)
                        && copies(*command, c))),
                Err(e) => r == Err::<(), StateError>(e) && *final(self) == *old(self),
            },
    {
        let mut new_document = self.duplicate();
        match new_document.apply_command(command) {
            Err(e) => return Err(e),
            Ok(()) => {},
        }
        if !command.is_transient_command() {
            new_document.transient = None;
        }
        self.record_command(command, new_document);
        Ok(())
    }
}

} // verus!
