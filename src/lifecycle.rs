use vstd::prelude::*;

use crate::command::StateError;
use crate::document::{CloseState, DocState, Document, PersistentModel};
use crate::editing::{with_selection, with_sheet, with_transient, with_view, workbench_frame};
use crate::selection::{MultiSelection, NameSelectionModel, Selection, SelectionModel};
use crate::sheet::{
    position_of, ExportSettings, ExportSettingsModel, FrameModel, HitboxModel, SheetModel,
    AnimationModel,
};
use crate::transient::{Transient, TransientModel};
use crate::view_state::{ViewModel, WorkbenchItem, WorkbenchModel};

verus! {

pub open spec fn with_persistent(s: DocState, p: PersistentModel) -> DocState {
    DocState { persistent: p, ..s }
}

/// Opens the export settings for editing, starting from the sheet's own or from empty ones.
pub open spec fn begin_export_as_effect(s: DocState) -> DocState {
    with_persistent(
        s,
        PersistentModel {
            export_settings_edit: Some(
                match s.sheet.export_settings {
                    Some(e) => e,
                    None => ExportSettingsModel {
                        texture_destination: seq![],
                        metadata_destination: seq![],
                        metadata_paths_root: seq![],
                        format: seq![],
                    },
                },
            ),
            ..s.persistent
        },
    )
}

/// The kinds of change to the export settings being edited.
pub enum ExportField {
    TextureDestination,
    MetadataDestination,
    MetadataPathsRoot,
    Format,
}

pub open spec fn with_field(e: ExportSettingsModel, field: ExportField, v: Seq<char>) -> ExportSettingsModel {
    match field {
        ExportField::TextureDestination => ExportSettingsModel { texture_destination: v, ..e },
        ExportField::MetadataDestination => ExportSettingsModel { metadata_destination: v, ..e },
        ExportField::MetadataPathsRoot => ExportSettingsModel { metadata_paths_root: v, ..e },
        ExportField::Format => ExportSettingsModel { format: v, ..e },
    }
}

pub open spec fn set_export_field_effect(s: DocState, field: ExportField, v: Seq<char>) -> Result<
    DocState,
    StateError,
> {
    match s.persistent.export_settings_edit {
        None => Err(StateError::NotExporting),
        Some(e) => Ok(
            with_persistent(
                s,
                PersistentModel { export_settings_edit: Some(with_field(e, field, v)), ..s.persistent },
            ),
        ),
    }
}

/// Gives the sheet the export settings being edited, and ends editing them.
pub open spec fn end_export_as_effect(s: DocState) -> Result<DocState, StateError> {
    match s.persistent.export_settings_edit {
        None => Err(StateError::NotExporting),
        Some(e) => Ok(
            with_persistent(
                with_sheet(s, SheetModel { export_settings: Some(e), ..s.sheet }),
                PersistentModel { export_settings_edit: None, ..s.persistent },
            ),
        ),
    }
}

/// A close request: allowed at once when the content is saved, to be confirmed otherwise.
pub open spec fn begin_close_effect(s: DocState, saved: bool) -> DocState {
    if s.persistent.close_state is None {
        with_persistent(
            s,
            PersistentModel {
                close_state: Some(
                    if saved {
                        CloseState::Allowed
                    } else {
                        CloseState::Requested
                    },
                ),
                ..s.persistent
            },
        )
    } else {
        s
    }
}

/// Starts renaming the animation or hitbox touched last; other selections do not rename.
pub open spec fn begin_rename_selection_effect(s: DocState) -> DocState {
    match s.view.selection {
        Some(SelectionModel::Animation(sel)) => with_transient(
            s,
            Some(TransientModel::Rename(sel.last_touched)),
        ),
        Some(SelectionModel::Hitbox(sel)) => with_transient(
            s,
            Some(TransientModel::Rename(sel.last_touched)),
        ),
        _ => s,
    }
}

pub open spec fn single_name(n: Seq<char>) -> NameSelectionModel {
    NameSelectionModel { items: seq![n], last_touched: n }
}

/// Ends a rename: the animation or hitbox touched last takes the new name, which must not
/// be taken by another of its kind; selection and workbench follow it.
pub open spec fn end_rename_effect(s: DocState) -> Result<DocState, StateError> {
    match s.transient {
        Some(TransientModel::Rename(new_name)) => match s.view.selection {
            Some(SelectionModel::Animation(sel)) => {
                let old_name = sel.last_touched;
                if old_name == new_name {
                    Ok(s)
                } else if s.sheet.has_animation(new_name) {
                    Err(StateError::AnimationAlreadyExists)
                } else if !s.sheet.has_animation(old_name) {
                    Err(StateError::AnimationNotInDocument)
                } else {
                    let a = s.sheet.animation(old_name);
                    let sheet = s.sheet.with_animation(old_name, AnimationModel { name: new_name, ..a });
                    let item = if s.view.workbench_item == Some(WorkbenchModel::Animation(old_name)) {
                        Some(WorkbenchModel::Animation(new_name))
                    } else {
                        s.view.workbench_item
                    };
                    Ok(
                        with_view(
                            with_sheet(s, sheet),
                            ViewModel {
                                selection: Some(SelectionModel::Animation(single_name(new_name))),
                                workbench_item: item,
                                ..s.view
                            },
                        ),
                    )
                }
            },
            Some(SelectionModel::Hitbox(sel)) => {
                let old_name = sel.last_touched;
                if old_name == new_name {
                    Ok(s)
                } else {
                    match workbench_frame(s) {
                        Err(e) => Err(e),
                        Ok(p) => {
                            let f = s.sheet.frame(p);
                            if f.has_hitbox(new_name) {
                                Err(StateError::HitboxAlreadyExists)
                            } else if !f.has_hitbox(old_name) {
                                Err(StateError::InvalidHitboxName)
                            } else {
                                let i = f.hitbox_pos(old_name);
                                let nf = FrameModel {
                                    hitboxes: f.hitboxes.update(i, HitboxModel { name: new_name, ..f.hitboxes[i] }),
                                    ..f
                                };
                                Ok(
                                    with_selection(
                                        with_sheet(s, s.sheet.with_frame(p, nf)),
                                        Some(SelectionModel::Hitbox(single_name(new_name))),
                                    ),
                                )
                            }
                        },
                    }
                }
            },
            _ => Ok(s),
        },
        _ => Err(StateError::NotRenaming),
    }
}

impl Document {
    pub fn begin_export_as(&mut self)
        ensures
            final(self).edited_from(*old(self), begin_export_as_effect(old(self).state())),
    {
        self.persistent.export_settings_edit = match &self.sheet.export_settings {
            Some(e) => Some(e.clone()),
            None => {
                let e = ExportSettings::new();
                assert(e@.texture_destination =~= seq![]);
                assert(e@.metadata_destination =~= seq![]);
                assert(e@.metadata_paths_root =~= seq![]);
                assert(e@.format =~= seq![]);
                Some(e)
            },
        };
    }

    pub fn cancel_export_as(&mut self)
        ensures
            final(self).edited_from(
                *old(self),
                with_persistent(
                    old(self).state(),
                    PersistentModel { export_settings_edit: None, ..old(self).state().persistent },
                ),
            ),
    {
        self.persistent.export_settings_edit = None;
    }

    pub fn set_export_field(&mut self, field: ExportField, value: &String) -> (r: Result<(), StateError>)
        ensures
            final(self).outcome(*old(self), r, set_export_field_effect(old(self).state(), field, value@)),
    {
        match &mut self.persistent.export_settings_edit {
            None => Err(StateError::NotExporting),
            Some(e) => {
                match field {
                    ExportField::TextureDestination => e.texture_destination = value.clone(),
                    ExportField::MetadataDestination => e.metadata_destination = value.clone(),
                    ExportField::MetadataPathsRoot => e.metadata_paths_root = value.clone(),
                    ExportField::Format => e.format = value.clone(),
                }
                Ok(())
            },
        }
    }

    pub fn end_export_as(&mut self) -> (r: Result<(), StateError>)
        ensures
            final(self).outcome(*old(self), r, end_export_as_effect(old(self).state())),
    {
        match &self.persistent.export_settings_edit {
            None => Err(StateError::NotExporting),
            Some(e) => {
                self.sheet.export_settings = Some(e.clone());
                self.persistent.export_settings_edit = None;
                Ok(())
            },
        }
    }

    /// Asks to close the document: allowed at once when saved, to be confirmed otherwise.
    pub fn begin_close(&mut self)
        requires
            old(self).wf(),
        ensures
            final(self).wf(),
            final(self).edited_from(
                *old(self),
                begin_close_effect(old(self).state(), old(self).is_saved_spec()),
            ),
    {
        if self.persistent.close_state.is_none() {
            let saved = self.is_saved();
            self.persistent.close_state = Some(
                if saved {
                    CloseState::Allowed
                } else {
                    CloseState::Requested
                },
            );
        }
    }

    pub fn begin_rename_selection(&mut self)
        ensures
            final(self).edited_from(*old(self), begin_rename_selection_effect(old(self).state())),
    {
        let name = match &self.view.selection {
            Some(Selection::Animation(sel)) => Some(sel.last_touched_in_range.clone()),
            Some(Selection::Hitbox(sel)) => Some(sel.last_touched_in_range.clone()),
            _ => None,
        };
        if let Some(n) = name {
            self.transient = Some(Transient::Rename(n));
        }
    }

    #[verifier::rlimit(50)]
    pub fn end_rename_selection(&mut self) -> (r: Result<(), StateError>)
        ensures
            final(self).outcome(*old(self), r, end_rename_effect(old(self).state())),
    {
        let new_name = match &self.transient {
            Some(Transient::Rename(n)) => n.clone(),
            _ => return Err(StateError::NotRenaming),
        };
        match &self.view.selection {
            Some(Selection::Animation(sel)) => {
                let old_name = sel.last_touched_in_range.clone();
                if old_name == new_name {
                    return Ok(());
                }
                if self.sheet.has_animation(&new_name) {
                    return Err(StateError::AnimationAlreadyExists);
                }
                let a = match self.sheet.animation_position(&old_name) {
                    Some(a) => a,
                    None => return Err(StateError::AnimationNotInDocument),
                };
                let ghost s0 = self.state();
                self.sheet.animations[a].name = new_name.clone();
                proof {
                    assert(self.sheet@.animations =~= s0.sheet.with_animation(
                        old_name@,
                        AnimationModel { name: new_name@, ..s0.sheet.animation(old_name@) },
                    ).animations);
                }
                let follows = match &self.view.workbench_item {
                    Some(WorkbenchItem::Animation(n)) => *n == old_name,
                    _ => false,
                };
                if follows {
                    self.view.workbench_item = Some(WorkbenchItem::Animation(new_name.clone()));
                }
                self.view.selection = Some(Selection::Animation(MultiSelection::single(new_name)));
                Ok(())
            },
            Some(Selection::Hitbox(sel)) => {
                let old_name = sel.last_touched_in_range.clone();
                if old_name == new_name {
                    return Ok(());
                }
                let f = match self.workbench_frame_position() {
                    Ok(f) => f,
                    Err(e) => return Err(e),
                };
                if self.sheet.frames[f].has_hitbox(&new_name) {
                    return Err(StateError::HitboxAlreadyExists);
                }
                let i = match self.sheet.frames[f].hitbox_position(&old_name) {
                    Some(i) => i,
                    None => return Err(StateError::InvalidHitboxName),
                };
                let ghost s0 = self.state();
                self.sheet.frames[f].hitboxes[i].name = new_name.clone();
                proof {
                    let p = workbench_frame(s0)->Ok_0;
                    let fm = s0.sheet.frame(p);
                    assert(self.sheet@.frames[f as int].hitboxes =~= fm.hitboxes.update(
                        i as int,
                        HitboxModel { name: new_name@, ..fm.hitboxes[i as int] },
                    ));
                    assert(self.sheet@.frames =~= s0.sheet.with_frame(
                        p,
                        FrameModel {
                            hitboxes: fm.hitboxes.update(
                                i as int,
                                HitboxModel { name: new_name@, ..fm.hitboxes[i as int] },
                            ),
                            ..fm
                        },
                    ).frames);
                }
                self.view.selection = Some(Selection::Hitbox(MultiSelection::single(new_name)));
                Ok(())
            },
            _ => Ok(()),
        }
    }

    /// The settings an export of the sheet uses; an export needs the sheet to have some.
    pub fn export_settings(&self) -> (r: Result<ExportSettings, StateError>)
        ensures
            match self.sheet@.export_settings {
                Some(e) => r is Ok && r->Ok_0@ == e,
                None => r == Err::<ExportSettings, StateError>(StateError::NoExistingExportSettings),
            },
    {
        match &self.sheet.export_settings {
            Some(e) => Ok(e.clone()),
            None => Err(StateError::NoExistingExportSettings),
        }
    }
}

} // verus!
