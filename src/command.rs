use vstd::prelude::*;

use crate::geometry::Vec2;
use crate::selection::{IndexSelection, MultiSelection};
use crate::transient::ResizeAxis;
use crate::view_state::ContentTab;

verus! {

/// Why a command was refused. A refused command changes nothing.
#[derive(Clone, Copy, Debug, PartialEq, Eq, Structural)]
pub enum StateError {
    NoDocumentOpen,
    DocumentNotFound,
    DocumentAlreadyOpen,
    FrameNotInDocument,
    AnimationNotInDocument,
    NotEditingAnyFrame,
    NotEditingAnyAnimation,
    InvalidHitboxName,
    InvalidKeyframeIndex,
    NoKeyframeSelected,
    NoHitboxSelected,
    NoKeyframeForThisTime,
    NotRenaming,
    NotExporting,
    NoExistingExportSettings,
    AnimationAlreadyExists,
    HitboxAlreadyExists,
    NotAdjustingKeyframeDuration,
    NotAdjustingKeyframePosition,
    NotAdjustingHitboxSize,
    NotAdjustingHitboxPosition,
    MissingKeyframeDurationData,
    MissingKeyframePositionData,
    MissingHitboxSizeData,
    MissingHitboxPositionData,
    UndoNotAllowed,
}

/// An edit addressed to one document. Mouse deltas are in screen pixels, times in
/// milliseconds.
#[derive(Debug)]
pub enum DocumentCommand {
    /// The document at the path was written to disk at the version given.
    MarkAsSaved(String, u64),
    /// The image at the second path was imported into the document at the first.
    EndImport(String, String),
    BeginExportAs,
    CancelExportAs,
    EndSetExportTextureDestination(String, String),
    EndSetExportMetadataDestination(String, String),
    EndSetExportMetadataPathsRoot(String, String),
    EndSetExportFormat(String, String),
    EndExportAs,
    SwitchToContentTab(ContentTab),
    ClearSelection,
    SelectFrames(MultiSelection),
    SelectAnimations(MultiSelection),
    SelectHitboxes(MultiSelection),
    SelectKeyframes(IndexSelection),
    EditFrame(String),
    EditAnimation(String),
    CreateAnimation,
    BeginFramesDrag,
    EndFramesDrag,
    InsertKeyframesBefore(Vec<String>, usize),
    ReorderKeyframes(usize),
    /// Reference clock, keyframe being dragged.
    BeginKeyframeDurationDrag(u32, usize),
    /// Clock at the cursor, minimum duration.
    UpdateKeyframeDurationDrag(u32, u32),
    EndKeyframeDurationDrag,
    BeginKeyframeDrag,
    EndKeyframeDrag,
    BeginKeyframeOffsetDrag,
    UpdateKeyframeOffsetDrag(Vec2, bool),
    EndKeyframeOffsetDrag,
    WorkbenchZoomIn,
    WorkbenchZoomOut,
    WorkbenchResetZoom,
    WorkbenchCenter,
    Pan(Vec2),
    CreateHitbox(Vec2),
    BeginHitboxScale(ResizeAxis),
    UpdateHitboxScale(Vec2, bool),
    EndHitboxScale,
    BeginHitboxDrag,
    UpdateHitboxDrag(Vec2, bool),
    EndHitboxDrag,
    TogglePlayback,
    SnapToPreviousFrame,
    SnapToNextFrame,
    ToggleLooping,
    TimelineZoomIn,
    TimelineZoomOut,
    TimelineResetZoom,
    BeginScrub,
    UpdateScrub(u128),
    EndScrub,
    NudgeSelection(Vec2, bool),
    DeleteSelection,
    BeginRenameSelection,
    UpdateRenameSelection(String),
    EndRenameSelection,
    Close,
    CloseAfterSaving,
    CloseWithoutSaving,
    CancelClose,
}

/// `b` is a copy of `a`: the same command, its names and paths holding the same text.
pub open spec fn copies(a: DocumentCommand, b: DocumentCommand) -> bool {
    match (a, b) {
        (DocumentCommand::SelectFrames(a0), DocumentCommand::SelectFrames(b0)) => a0@ == b0@,
        (DocumentCommand::SelectAnimations(a0), DocumentCommand::SelectAnimations(b0)) => a0@ == b0@,
        (DocumentCommand::SelectHitboxes(a0), DocumentCommand::SelectHitboxes(b0)) => a0@ == b0@,
        (DocumentCommand::SelectKeyframes(a0), DocumentCommand::SelectKeyframes(b0)) => a0@ == b0@,
        (DocumentCommand::InsertKeyframesBefore(a0, a1), DocumentCommand::InsertKeyframesBefore(b0, b1)) => a0@.map_values(|p: String| p@) == b0@.map_values(|p: String| p@) && a1 == b1,
        _ => a == b,
    }
}

fn clone_paths(paths: &Vec<String>) -> (r: Vec<String>)
    ensures
        r@.map_values(|p: String| p@) == paths@.map_values(|p: String| p@),
{
    let r = paths.clone();
    assert(r@.map_values(|p: String| p@) =~= paths@.map_values(|p: String| p@));
    r
}

impl Clone for DocumentCommand {
    fn clone(&self) -> (r: DocumentCommand)
        ensures
            copies(*self, r),
    {
        match self {
            DocumentCommand::MarkAsSaved(a0, a1) => DocumentCommand::MarkAsSaved(a0.clone(), *a1),
            DocumentCommand::EndImport(a0, a1) => DocumentCommand::EndImport(a0.clone(), a1.clone()),
            DocumentCommand::BeginExportAs => DocumentCommand::BeginExportAs,
            DocumentCommand::CancelExportAs => DocumentCommand::CancelExportAs,
            DocumentCommand::EndSetExportTextureDestination(a0, a1) => DocumentCommand::EndSetExportTextureDestination(a0.clone(), a1.clone()),
            DocumentCommand::EndSetExportMetadataDestination(a0, a1) => DocumentCommand::EndSetExportMetadataDestination(a0.clone(), a1.clone()),
            DocumentCommand::EndSetExportMetadataPathsRoot(a0, a1) => DocumentCommand::EndSetExportMetadataPathsRoot(a0.clone(), a1.clone()),
            DocumentCommand::EndSetExportFormat(a0, a1) => DocumentCommand::EndSetExportFormat(a0.clone(), a1.clone()),
            DocumentCommand::EndExportAs => DocumentCommand::EndExportAs,
            DocumentCommand::SwitchToContentTab(a0) => DocumentCommand::SwitchToContentTab(*a0),
            DocumentCommand::ClearSelection => DocumentCommand::ClearSelection,
            DocumentCommand::SelectFrames(a0) => DocumentCommand::SelectFrames(a0.clone()),
            DocumentCommand::SelectAnimations(a0) => DocumentCommand::SelectAnimations(a0.clone()),
            DocumentCommand::SelectHitboxes(a0) => DocumentCommand::SelectHitboxes(a0.clone()),
            DocumentCommand::SelectKeyframes(a0) => DocumentCommand::SelectKeyframes(a0.clone()),
            DocumentCommand::EditFrame(a0) => DocumentCommand::EditFrame(a0.clone()),
            DocumentCommand::EditAnimation(a0) => DocumentCommand::EditAnimation(a0.clone()),
            DocumentCommand::CreateAnimation => DocumentCommand::CreateAnimation,
            DocumentCommand::BeginFramesDrag => DocumentCommand::BeginFramesDrag,
            DocumentCommand::EndFramesDrag => DocumentCommand::EndFramesDrag,
            DocumentCommand::InsertKeyframesBefore(a0, a1) => DocumentCommand::InsertKeyframesBefore(clone_paths(a0), *a1),
            DocumentCommand::ReorderKeyframes(a0) => DocumentCommand::ReorderKeyframes(*a0),
            DocumentCommand::BeginKeyframeDurationDrag(a0, a1) => DocumentCommand::BeginKeyframeDurationDrag(*a0, *a1),
            DocumentCommand::UpdateKeyframeDurationDrag(a0, a1) => DocumentCommand::UpdateKeyframeDurationDrag(*a0, *a1),
            DocumentCommand::EndKeyframeDurationDrag => DocumentCommand::EndKeyframeDurationDrag,
            DocumentCommand::BeginKeyframeDrag => DocumentCommand::BeginKeyframeDrag,
            DocumentCommand::EndKeyframeDrag => DocumentCommand::EndKeyframeDrag,
            DocumentCommand::BeginKeyframeOffsetDrag => DocumentCommand::BeginKeyframeOffsetDrag,
            DocumentCommand::UpdateKeyframeOffsetDrag(a0, a1) => DocumentCommand::UpdateKeyframeOffsetDrag(*a0, *a1),
            DocumentCommand::EndKeyframeOffsetDrag => DocumentCommand::EndKeyframeOffsetDrag,
            DocumentCommand::WorkbenchZoomIn => DocumentCommand::WorkbenchZoomIn,
            DocumentCommand::WorkbenchZoomOut => DocumentCommand::WorkbenchZoomOut,
            DocumentCommand::WorkbenchResetZoom => DocumentCommand::WorkbenchResetZoom,
            DocumentCommand::WorkbenchCenter => DocumentCommand::WorkbenchCenter,
            DocumentCommand::Pan(a0) => DocumentCommand::Pan(*a0),
            DocumentCommand::CreateHitbox(a0) => DocumentCommand::CreateHitbox(*a0),
            DocumentCommand::BeginHitboxScale(a0) => DocumentCommand::BeginHitboxScale(*a0),
            DocumentCommand::UpdateHitboxScale(a0, a1) => DocumentCommand::UpdateHitboxScale(*a0, *a1),
            DocumentCommand::EndHitboxScale => DocumentCommand::EndHitboxScale,
            DocumentCommand::BeginHitboxDrag => DocumentCommand::BeginHitboxDrag,
            DocumentCommand::UpdateHitboxDrag(a0, a1) => DocumentCommand::UpdateHitboxDrag(*a0, *a1),
            DocumentCommand::EndHitboxDrag => DocumentCommand::EndHitboxDrag,
            DocumentCommand::TogglePlayback => DocumentCommand::TogglePlayback,
            DocumentCommand::SnapToPreviousFrame => DocumentCommand::SnapToPreviousFrame,
            DocumentCommand::SnapToNextFrame => DocumentCommand::SnapToNextFrame,
            DocumentCommand::ToggleLooping => DocumentCommand::ToggleLooping,
            DocumentCommand::TimelineZoomIn => DocumentCommand::TimelineZoomIn,
            DocumentCommand::TimelineZoomOut => DocumentCommand::TimelineZoomOut,
            DocumentCommand::TimelineResetZoom => DocumentCommand::TimelineResetZoom,
            DocumentCommand::BeginScrub => DocumentCommand::BeginScrub,
            DocumentCommand::UpdateScrub(a0) => DocumentCommand::UpdateScrub(*a0),
            DocumentCommand::EndScrub => DocumentCommand::EndScrub,
            DocumentCommand::NudgeSelection(a0, a1) => DocumentCommand::NudgeSelection(*a0, *a1),
            DocumentCommand::DeleteSelection => DocumentCommand::DeleteSelection,
            DocumentCommand::BeginRenameSelection => DocumentCommand::BeginRenameSelection,
            DocumentCommand::UpdateRenameSelection(a0) => DocumentCommand::UpdateRenameSelection(a0.clone()),
            DocumentCommand::EndRenameSelection => DocumentCommand::EndRenameSelection,
            DocumentCommand::Close => DocumentCommand::Close,
            DocumentCommand::CloseAfterSaving => DocumentCommand::CloseAfterSaving,
            DocumentCommand::CloseWithoutSaving => DocumentCommand::CloseWithoutSaving,
            DocumentCommand::CancelClose => DocumentCommand::CancelClose,
        }
    }
}

impl DocumentCommand {
    /// Commands that begin or update a gesture, and so leave it in progress.
    pub open spec fn keeps_gesture(self) -> bool {
        matches!(
            self,
            DocumentCommand::BeginFramesDrag | DocumentCommand::BeginKeyframeDurationDrag(..)
                | DocumentCommand::UpdateKeyframeDurationDrag(..) | DocumentCommand::BeginKeyframeDrag
                | DocumentCommand::BeginKeyframeOffsetDrag | DocumentCommand::UpdateKeyframeOffsetDrag(..)
                | DocumentCommand::BeginHitboxScale(..) | DocumentCommand::UpdateHitboxScale(..)
                | DocumentCommand::BeginHitboxDrag | DocumentCommand::UpdateHitboxDrag(..)
                | DocumentCommand::BeginScrub | DocumentCommand::UpdateScrub(..)
                | DocumentCommand::BeginRenameSelection | DocumentCommand::UpdateRenameSelection(..)
        )
    }

    pub fn is_transient_command(&self) -> (r: bool)
        ensures
            r == self.keeps_gesture(),
    {
        match self {
            DocumentCommand::BeginFramesDrag | DocumentCommand::BeginKeyframeDurationDrag(..)
            | DocumentCommand::UpdateKeyframeDurationDrag(..) | DocumentCommand::BeginKeyframeDrag
            | DocumentCommand::BeginKeyframeOffsetDrag | DocumentCommand::UpdateKeyframeOffsetDrag(..)
            | DocumentCommand::BeginHitboxScale(..) | DocumentCommand::UpdateHitboxScale(..)
            | DocumentCommand::BeginHitboxDrag | DocumentCommand::UpdateHitboxDrag(..)
            | DocumentCommand::BeginScrub | DocumentCommand::UpdateScrub(..)
            | DocumentCommand::BeginRenameSelection | DocumentCommand::UpdateRenameSelection(..) => true,
            _ => false,
        }
    }
}

} // verus!
