use vstd::prelude::*;

use vstd::std_specs::cmp::PartialEqSpec;

use crate::geometry::{Size, Vec2};

verus! {

/// Position of the first occurrence of `x` in `s`, or -1 when `s` lacks it.
pub open spec fn position_of<A>(s: Seq<A>, x: A) -> int {
    if s.contains(x) {
        choose|i: int| 0 <= i < s.len() && s[i] == x && forall|j: int| 0 <= j < i ==> s[j] != x
    } else {
        -1
    }
}

pub proof fn lemma_position_of_found<A>(s: Seq<A>, x: A, i: int)
    requires
        0 <= i < s.len(),
        s[i] == x,
        forall|j: int| 0 <= j < i ==> s[j] != x,
    ensures
        position_of(s, x) == i,
{
    assert(exists|k: int|
        0 <= k < s.len() && s[k] == x && forall|j: int| 0 <= j < k ==> s[j] != x);
}

pub proof fn lemma_position_of_missing<A>(s: Seq<A>, x: A)
    requires
        forall|j: int| 0 <= j < s.len() ==> s[j] != x,
    ensures
        position_of(s, x) == -1,
        !s.contains(x),
{
}

pub proof fn lemma_position_of_bounds<A>(s: Seq<A>, x: A)
    ensures
        -1 <= position_of(s, x) < s.len(),
        position_of(s, x) >= 0 <==> s.contains(x),
        position_of(s, x) >= 0 ==> s[position_of(s, x)] == x,
{
    if s.contains(x) {
        let k = choose|k: int| 0 <= k < s.len() && s[k] == x;
        lemma_first_exists(s, x, k);
    }
}

proof fn lemma_first_exists<A>(s: Seq<A>, x: A, k: int)
    requires
        0 <= k < s.len(),
        s[k] == x,
    ensures
        exists|i: int| 0 <= i < s.len() && s[i] == x && forall|j: int| 0 <= j < i ==> s[j] != x,
    decreases k,
{
    if exists|j: int| 0 <= j < k && s[j] == x {
        let j = choose|j: int| 0 <= j < k && s[j] == x;
        lemma_first_exists(s, x, j);
    } else {
        assert(forall|j: int| 0 <= j < k ==> s[j] != x);
    }
}

/// A named rectangle attached to a frame.
#[derive(Debug)]
pub struct Hitbox {
    pub name: String,
    pub position: Vec2,
    pub size: Size,
}

pub struct HitboxModel {
    pub name: Seq<char>,
    pub position: Vec2,
    pub size: Size,
}

impl View for Hitbox {
    type V = HitboxModel;

    open spec fn view(&self) -> HitboxModel {
        HitboxModel { name: self.name@, position: self.position, size: self.size }
    }
}

impl Clone for Hitbox {
    fn clone(&self) -> (r: Hitbox)
        ensures
            r@ == self@,
    {
        Hitbox { name: self.name.clone(), position: self.position, size: self.size }
    }
}

impl PartialEq for Hitbox {
    fn eq(&self, o: &Hitbox) -> (r: bool) {
        self.name == o.name && self.position == o.position && self.size == o.size
    }
}

impl vstd::std_specs::cmp::PartialEqSpecImpl for Hitbox {
    open spec fn obeys_eq_spec() -> bool {
        true
    }

    open spec fn eq_spec(&self, o: &Hitbox) -> bool {
        self@ == o@
    }
}

/// An image of the sheet, identified by its path, with its hitboxes.
#[derive(Debug)]
pub struct Frame {
    pub source: String,
    pub hitboxes: Vec<Hitbox>,
}

pub struct FrameModel {
    pub source: Seq<char>,
    pub hitboxes: Seq<HitboxModel>,
}

impl FrameModel {
    pub open spec fn hitbox_names(self) -> Seq<Seq<char>> {
        self.hitboxes.map_values(|h: HitboxModel| h.name)
    }

    pub open spec fn has_hitbox(self, name: Seq<char>) -> bool {
        self.hitbox_names().contains(name)
    }

    pub open spec fn hitbox_pos(self, name: Seq<char>) -> int {
        position_of(self.hitbox_names(), name)
    }
}

impl View for Frame {
    type V = FrameModel;

    open spec fn view(&self) -> FrameModel {
        FrameModel { source: self.source@, hitboxes: self.hitboxes@.map_values(|h: Hitbox| h@) }
    }
}

impl Clone for Frame {
    fn clone(&self) -> (r: Frame)
        ensures
            r@ == self@,
    {
        let r = Frame { source: self.source.clone(), hitboxes: self.hitboxes.clone() };
        assert(r@.hitboxes =~= self@.hitboxes);
        r
    }
}

impl PartialEq for Frame {
    fn eq(&self, o: &Frame) -> (r: bool) {
        let same_source = self.source == o.source;
        let same_hitboxes = self.hitboxes == o.hitboxes;
        assert(same_hitboxes == self.hitboxes.eq_spec(&o.hitboxes));
        let r = same_source && same_hitboxes;
        proof {
            if r {
                assert(self@.hitboxes =~= o@.hitboxes);
            } else if self.source@ == o.source@ && self.hitboxes@.len() == o.hitboxes@.len() {
                assert(!same_hitboxes);
                let i = choose|i: int|
                    0 <= i < self.hitboxes@.len() && !self.hitboxes[i].eq_spec(&o.hitboxes[i]);
                assert(self@.hitboxes[i] != o@.hitboxes[i]);
            } else if self.source@ != o.source@ {
                assert(self@.source != o@.source);
            } else {
                assert(self@.hitboxes.len() != o@.hitboxes.len());
            }
            assert(r == (self@ == o@));
        }
        r
    }
}

impl vstd::std_specs::cmp::PartialEqSpecImpl for Frame {
    open spec fn obeys_eq_spec() -> bool {
        true
    }

    open spec fn eq_spec(&self, o: &Frame) -> bool {
        self@ == o@
    }
}

/// One step of an animation: the frame it shows, for how long, and where.
#[derive(Debug)]
pub struct Keyframe {
    pub frame: String,
    pub duration: u32,
    pub offset: Vec2,
}

pub struct KeyframeModel {
    pub frame: Seq<char>,
    pub duration: u32,
    pub offset: Vec2,
}

impl View for Keyframe {
    type V = KeyframeModel;

    open spec fn view(&self) -> KeyframeModel {
        KeyframeModel { frame: self.frame@, duration: self.duration, offset: self.offset }
    }
}

impl Clone for Keyframe {
    fn clone(&self) -> (r: Keyframe)
        ensures
            r@ == self@,
    {
        Keyframe { frame: self.frame.clone(), duration: self.duration, offset: self.offset }
    }
}

impl PartialEq for Keyframe {
    fn eq(&self, o: &Keyframe) -> (r: bool) {
        self.frame == o.frame && self.duration == o.duration && self.offset == o.offset
    }
}

impl vstd::std_specs::cmp::PartialEqSpecImpl for Keyframe {
    open spec fn obeys_eq_spec() -> bool {
        true
    }

    open spec fn eq_spec(&self, o: &Keyframe) -> bool {
        self@ == o@
    }
}

/// A named sequence of keyframes, played once or in a loop.
#[derive(Debug)]
pub struct Animation {
    pub name: String,
    pub keyframes: Vec<Keyframe>,
    pub looping: bool,
}

pub struct AnimationModel {
    pub name: Seq<char>,
    pub keyframes: Seq<KeyframeModel>,
    pub looping: bool,
}

impl View for Animation {
    type V = AnimationModel;

    open spec fn view(&self) -> AnimationModel {
        AnimationModel {
            name: self.name@,
            keyframes: self.keyframes@.map_values(|k: Keyframe| k@),
            looping: self.looping,
        }
    }
}

impl Clone for Animation {
    fn clone(&self) -> (r: Animation)
        ensures
            r@ == self@,
    {
        let r = Animation {
            name: self.name.clone(),
            keyframes: self.keyframes.clone(),
            looping: self.looping,
        };
        assert(r@.keyframes =~= self@.keyframes);
        r
    }
}

impl PartialEq for Animation {
    fn eq(&self, o: &Animation) -> (r: bool) {
        let same_name = self.name == o.name;
        let same_keyframes = self.keyframes == o.keyframes;
        let r = same_name && same_keyframes && self.looping == o.looping;
        proof {
            if same_keyframes {
                assert(self@.keyframes =~= o@.keyframes);
            } else if self.keyframes@.len() == o.keyframes@.len() {
                let i = choose|i: int|
                    0 <= i < self.keyframes@.len() && !self.keyframes[i].eq_spec(&o.keyframes[i]);
                assert(self@.keyframes[i] != o@.keyframes[i]);
            } else {
                assert(self@.keyframes.len() != o@.keyframes.len());
            }
        }
        r
    }
}

impl vstd::std_specs::cmp::PartialEqSpecImpl for Animation {
    open spec fn obeys_eq_spec() -> bool {
        true
    }

    open spec fn eq_spec(&self, o: &Animation) -> bool {
        self@ == o@
    }
}

/// Where and how a sheet is exported.
#[derive(Debug)]
pub struct ExportSettings {
    pub texture_destination: String,
    pub metadata_destination: String,
    pub metadata_paths_root: String,
    /// Path of the template that formats the metadata.
    pub format: String,
}

pub struct ExportSettingsModel {
    pub texture_destination: Seq<char>,
    pub metadata_destination: Seq<char>,
    pub metadata_paths_root: Seq<char>,
    pub format: Seq<char>,
}

impl View for ExportSettings {
    type V = ExportSettingsModel;

    open spec fn view(&self) -> ExportSettingsModel {
        ExportSettingsModel {
            texture_destination: self.texture_destination@,
            metadata_destination: self.metadata_destination@,
            metadata_paths_root: self.metadata_paths_root@,
            format: self.format@,
        }
    }
}

impl Clone for ExportSettings {
    fn clone(&self) -> (r: ExportSettings)
        ensures
            r@ == self@,
    {
        ExportSettings {
            texture_destination: self.texture_destination.clone(),
            metadata_destination: self.metadata_destination.clone(),
            metadata_paths_root: self.metadata_paths_root.clone(),
            format: self.format.clone(),
        }
    }
}

impl PartialEq for ExportSettings {
    fn eq(&self, o: &ExportSettings) -> (r: bool) {
        self.texture_destination == o.texture_destination && self.metadata_destination
            == o.metadata_destination && self.metadata_paths_root == o.metadata_paths_root
            && self.format == o.format
    }
}

impl vstd::std_specs::cmp::PartialEqSpecImpl for ExportSettings {
    open spec fn obeys_eq_spec() -> bool {
        true
    }

    open spec fn eq_spec(&self, o: &ExportSettings) -> bool {
        self@ == o@
    }
}

impl ExportSettings {
    pub fn new() -> (r: ExportSettings)
        ensures
            r@.texture_destination.len() == 0,
            r@.metadata_destination.len() == 0,
            r@.metadata_paths_root.len() == 0,
            r@.format.len() == 0,
    {
        ExportSettings {
            texture_destination: String::new(),
            metadata_destination: String::new(),
            metadata_paths_root: String::new(),
            format: String::new(),
        }
    }
}

pub open spec fn export_model(e: Option<ExportSettings>) -> Option<ExportSettingsModel> {
    match e {
        Some(s) => Some(s@),
        None => None,
    }
}

pub fn clone_export(e: &Option<ExportSettings>) -> (r: Option<ExportSettings>)
    ensures
        export_model(r) == export_model(*e),
{
    match e {
        Some(s) => Some(s.clone()),
        None => None,
    }
}

/// The content of a document: its frames, its animations and how it is exported.
#[derive(Debug)]
pub struct Sheet {
    pub frames: Vec<Frame>,
    pub animations: Vec<Animation>,
    pub export_settings: Option<ExportSettings>,
}

pub struct SheetModel {
    pub frames: Seq<FrameModel>,
    pub animations: Seq<AnimationModel>,
    pub export_settings: Option<ExportSettingsModel>,
}

impl View for Sheet {
    type V = SheetModel;

    open spec fn view(&self) -> SheetModel {
        SheetModel {
            frames: self.frames@.map_values(|f: Frame| f@),
            animations: self.animations@.map_values(|a: Animation| a@),
            export_settings: export_model(self.export_settings),
        }
    }
}

impl Clone for Sheet {
    fn clone(&self) -> (r: Sheet)
        ensures
            r@ == self@,
    {
        let r = Sheet {
            frames: self.frames.clone(),
            animations: self.animations.clone(),
            export_settings: clone_export(&self.export_settings),
        };
        assert(r@.frames =~= self@.frames);
        assert(r@.animations =~= self@.animations);
        r
    }
}

impl PartialEq for Sheet {
    fn eq(&self, o: &Sheet) -> (r: bool) {
        let same_frames = self.frames == o.frames;
        let same_animations = self.animations == o.animations;
        let same_export = match (&self.export_settings, &o.export_settings) {
            (Some(a), Some(b)) => a == b,
            (None, None) => true,
            _ => false,
        };
        proof {
            if same_frames {
                assert(self@.frames =~= o@.frames);
            } else if self.frames@.len() == o.frames@.len() {
                let i = choose|i: int|
                    0 <= i < self.frames@.len() && !self.frames[i].eq_spec(&o.frames[i]);
                assert(self@.frames[i] != o@.frames[i]);
            } else {
                assert(self@.frames.len() != o@.frames.len());
            }
            if same_animations {
                assert(self@.animations =~= o@.animations);
            } else if self.animations@.len() == o.animations@.len() {
                let i = choose|i: int|
                    0 <= i < self.animations@.len() && !self.animations[i].eq_spec(
                        &o.animations[i],
                    );
                assert(self@.animations[i] != o@.animations[i]);
            } else {
                assert(self@.animations.len() != o@.animations.len());
            }
        }
        same_frames && same_animations && same_export
    }
}

impl vstd::std_specs::cmp::PartialEqSpecImpl for Sheet {
    open spec fn obeys_eq_spec() -> bool {
        true
    }

    open spec fn eq_spec(&self, o: &Sheet) -> bool {
        self@ == o@
    }
}

impl SheetModel {
    pub open spec fn frame_sources(self) -> Seq<Seq<char>> {
        self.frames.map_values(|f: FrameModel| f.source)
    }

    pub open spec fn animation_names(self) -> Seq<Seq<char>> {
        self.animations.map_values(|a: AnimationModel| a.name)
    }

    pub open spec fn has_frame(self, path: Seq<char>) -> bool {
        self.frame_sources().contains(path)
    }

    pub open spec fn has_animation(self, name: Seq<char>) -> bool {
        self.animation_names().contains(name)
    }

    pub open spec fn frame_pos(self, path: Seq<char>) -> int {
        position_of(self.frame_sources(), path)
    }

    pub open spec fn animation_pos(self, name: Seq<char>) -> int {
        position_of(self.animation_names(), name)
    }

    /// The frame at `path`; meaningful where `has_frame(path)`.
    pub open spec fn frame(self, path: Seq<char>) -> FrameModel {
        self.frames[self.frame_pos(path)]
    }

    /// The animation named `name`; meaningful where `has_animation(name)`.
    pub open spec fn animation(self, name: Seq<char>) -> AnimationModel {
        self.animations[self.animation_pos(name)]
    }

    pub open spec fn with_frame(self, path: Seq<char>, f: FrameModel) -> SheetModel {
        SheetModel { frames: self.frames.update(self.frame_pos(path), f), ..self }
    }

    pub open spec fn with_animation(self, name: Seq<char>, a: AnimationModel) -> SheetModel {
        SheetModel { animations: self.animations.update(self.animation_pos(name), a), ..self }
    }
}

impl Frame {
    pub fn new(source: String) -> (r: Frame)
        ensures
            r@.source == source@,
            r@.hitboxes.len() == 0,
    {
        Frame { source, hitboxes: Vec::new() }
    }

    pub fn hitbox_position(&self, name: &String) -> (r: Option<usize>)
        ensures
            match r {
                Some(i) => i == self@.hitbox_pos(name@) && self@.has_hitbox(name@) && i < self@.hitboxes.len(),
                None => self@.hitbox_pos(name@) == -1 && !self@.has_hitbox(name@),
            },
    {
        let mut i: usize = 0;
        while i < self.hitboxes.len()
            invariant
                0 <= i <= self.hitboxes@.len(),
                forall|j: int| 0 <= j < i ==> self@.hitbox_names()[j] != name@,
            decreases self.hitboxes@.len() - i,
        {
            if self.hitboxes[i].name == *name {
                proof {
                    lemma_position_of_found(self@.hitbox_names(), name@, i as int);
                }
                return Some(i);
            }
            i += 1;
        }
        proof {
            lemma_position_of_missing(self@.hitbox_names(), name@);
        }
        None
    }

    pub fn has_hitbox(&self, name: &String) -> (r: bool)
        ensures
            r == self@.has_hitbox(name@),
    {
        self.hitbox_position(name).is_some()
    }
}

impl Sheet {
    pub open spec fn new_model() -> SheetModel {
        SheetModel { frames: seq![], animations: seq![], export_settings: None }
    }

    pub fn new() -> (r: Sheet)
        ensures
            r@ == Sheet::new_model(),
    {
        let r = Sheet { frames: Vec::new(), animations: Vec::new(), export_settings: None };
        assert(r@.frames =~= seq![]);
        assert(r@.animations =~= seq![]);
        r
    }

    pub fn frame_position(&self, path: &String) -> (r: Option<usize>)
        ensures
            match r {
                Some(i) => i == self@.frame_pos(path@) && self@.has_frame(path@) && i < self@.frames.len(),
                None => self@.frame_pos(path@) == -1 && !self@.has_frame(path@),
            },
    {
        let mut i: usize = 0;
        while i < self.frames.len()
            invariant
                0 <= i <= self.frames@.len(),
                forall|j: int| 0 <= j < i ==> self@.frame_sources()[j] != path@,
            decreases self.frames@.len() - i,
        {
            if self.frames[i].source == *path {
                proof {
                    lemma_position_of_found(self@.frame_sources(), path@, i as int);
                }
                return Some(i);
            }
            i += 1;
        }
        proof {
            lemma_position_of_missing(self@.frame_sources(), path@);
        }
        None
    }

    pub fn animation_position(&self, name: &String) -> (r: Option<usize>)
        ensures
            match r {
                Some(i) => i == self@.animation_pos(name@) && self@.has_animation(name@) && i
                    < self@.animations.len(),
                None => self@.animation_pos(name@) == -1 && !self@.has_animation(name@),
            },
    {
        let mut i: usize = 0;
        while i < self.animations.len()
            invariant
                0 <= i <= self.animations@.len(),
                forall|j: int| 0 <= j < i ==> self@.animation_names()[j] != name@,
            decreases self.animations@.len() - i,
        {
            if self.animations[i].name == *name {
                proof {
                    lemma_position_of_found(self@.animation_names(), name@, i as int);
                }
                return Some(i);
            }
            i += 1;
        }
        proof {
            lemma_position_of_missing(self@.animation_names(), name@);
        }
        None
    }

    pub fn has_frame(&self, path: &String) -> (r: bool)
        ensures
            r == self@.has_frame(path@),
    {
        self.frame_position(path).is_some()
    }

    pub fn has_animation(&self, name: &String) -> (r: bool)
        ensures
            r == self@.has_animation(name@),
    {
        self.animation_position(name).is_some()
    }

    /// Adds a frame showing the image at `path`, unless the sheet has one.
    pub fn add_frame(&mut self, path: &String)
        ensures
            old(self)@.has_frame(path@) ==> final(self)@ == old(self)@,
            !old(self)@.has_frame(path@) ==> final(self)@ == (SheetModel {
                frames: old(self)@.frames.push(FrameModel { source: path@, hitboxes: seq![] }),
                ..old(self)@
            }),
    {
        if !self.has_frame(path) {
            let f = Frame::new(path.clone());
            assert(f@.hitboxes =~= seq![]);
            self.frames.push(f);
            assert(self@.frames =~= old(self)@.frames.push(
                FrameModel { source: path@, hitboxes: seq![] },
            ));
        }
    }

    /// Removes the frame at `path`, if there is one.
    pub fn delete_frame(&mut self, path: &String)
        ensures
            old(self)@.has_frame(path@) ==> final(self)@ == (SheetModel {
                frames: old(self)@.frames.remove(old(self)@.frame_pos(path@)),
                ..old(self)@
            }),
            !old(self)@.has_frame(path@) ==> final(self)@ == old(self)@,
    {
        if let Some(i) = self.frame_position(path) {
            self.frames.remove(i);
            assert(self@.frames =~= old(self)@.frames.remove(i as int));
        }
    }

    /// Removes the animation named `name`, if there is one.
    pub fn delete_animation(&mut self, name: &String)
        ensures
            old(self)@.has_animation(name@) ==> final(self)@ == (SheetModel {
                animations: old(self)@.animations.remove(old(self)@.animation_pos(name@)),
                ..old(self)@
            }),
            !old(self)@.has_animation(name@) ==> final(self)@ == old(self)@,
    {
        if let Some(i) = self.animation_position(name) {
            self.animations.remove(i);
            assert(self@.animations =~= old(self)@.animations.remove(i as int));
        }
    }
}

impl Frame {
    /// Removes the hitbox named `name`, if there is one.
    pub fn delete_hitbox(&mut self, name: &String)
        ensures
            old(self)@.has_hitbox(name@) ==> final(self)@ == (FrameModel {
                hitboxes: old(self)@.hitboxes.remove(old(self)@.hitbox_pos(name@)),
                ..old(self)@
            }),
            !old(self)@.has_hitbox(name@) ==> final(self)@ == old(self)@,
    {
        if let Some(i) = self.hitbox_position(name) {
            self.hitboxes.remove(i);
            assert(self@.hitboxes =~= old(self)@.hitboxes.remove(i as int));
        }
    }
}

impl Frame {
    pub fn hitbox_name_list(&self) -> (r: Vec<String>)
        ensures
            r@.map_values(|n: String| n@) == self@.hitbox_names(),
    {
        let mut names: Vec<String> = Vec::new();
        let mut i: usize = 0;
        while i < self.hitboxes.len()
            invariant
                0 <= i <= self.hitboxes@.len(),
                names@.len() == i,
                forall|j: int| 0 <= j < i ==> (#[trigger] names@[j])@ == self@.hitbox_names()[j],
            decreases self.hitboxes@.len() - i,
        {
            names.push(self.hitboxes[i].name.clone());
            i += 1;
        }
        assert(names@.map_values(|n: String| n@) =~= self@.hitbox_names());
        names
    }
}

impl Sheet {
    pub fn animation_name_list(&self) -> (r: Vec<String>)
        ensures
            r@.map_values(|n: String| n@) == self@.animation_names(),
    {
        let mut names: Vec<String> = Vec::new();
        let mut i: usize = 0;
        while i < self.animations.len()
            invariant
                0 <= i <= self.animations@.len(),
                names@.len() == i,
                forall|j: int| 0 <= j < i ==> (#[trigger] names@[j])@ == self@.animation_names()[j],
            decreases self.animations@.len() - i,
        {
            names.push(self.animations[i].name.clone());
            i += 1;
        }
        assert(names@.map_values(|n: String| n@) =~= self@.animation_names());
        names
    }
}

} // verus!
