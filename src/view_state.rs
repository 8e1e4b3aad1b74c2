use vstd::prelude::*;

use crate::geometry::{clamp_i32, clamp_to_i32, Vec2};
use crate::selection::{selection_model, Selection, SelectionModel};

verus! {

/// Which list of content the side panel shows.
#[derive(Clone, Copy, Debug, PartialEq, Eq, Structural)]
pub enum ContentTab {
    Frames,
    Animations,
}

/// What the workbench shows.
#[derive(Debug)]
pub enum WorkbenchItem {
    Frame(String),
    Animation(String),
}

pub enum WorkbenchModel {
    Frame(Seq<char>),
    Animation(Seq<char>),
}

impl View for WorkbenchItem {
    type V = WorkbenchModel;

    open spec fn view(&self) -> WorkbenchModel {
        match self {
            WorkbenchItem::Frame(p) => WorkbenchModel::Frame(p@),
            WorkbenchItem::Animation(n) => WorkbenchModel::Animation(n@),
        }
    }
}

impl Clone for WorkbenchItem {
    fn clone(&self) -> (r: WorkbenchItem)
        ensures
            r@ == self@,
    {
        match self {
            WorkbenchItem::Frame(p) => WorkbenchItem::Frame(p.clone()),
            WorkbenchItem::Animation(n) => WorkbenchItem::Animation(n.clone()),
        }
    }
}

pub open spec fn workbench_model(w: Option<WorkbenchItem>) -> Option<WorkbenchModel> {
    match w {
        Some(w) => Some(w@),
        None => None,
    }
}

/// Zoom levels: a level of 1 or more magnifies by that factor, a level of -2 or less
/// reduces by its magnitude.
pub open spec fn zoom_in_level(l: i32) -> i32 {
    if l >= 16 {
        32
    } else if l >= 1 {
        (2 * l) as i32
    } else if l >= -2 {
        1
    } else {
        (-((-l) / 2)) as i32
    }
}

pub open spec fn zoom_out_level(l: i32) -> i32 {
    if l > 1 {
        (l / 2) as i32
    } else if l >= -1 {
        -2i32
    } else if l <= -4 {
        -8i32
    } else {
        (2 * l) as i32
    }
}

/// The truncating division of Rust: the quotient rounded toward zero.
pub open spec fn trunc_div(a: int, b: int) -> int {
    if a >= 0 {
        a / b
    } else {
        -((-a) / b)
    }
}

/// A distance of `d` screen pixels, in sheet pixels at zoom level `l`, rounded down.
pub open spec fn screen_to_sheet(l: i32, d: i32) -> i32 {
    if l >= 1 {
        (d as int / l as int) as i32
    } else if l <= -2 {
        clamp_i32(d * (-l))
    } else {
        d
    }
}

fn zoom_in(l: i32) -> (r: i32)
    ensures
        r == zoom_in_level(l),
{
    if l >= 16 {
        32
    } else if l >= 1 {
        2 * l
    } else if l >= -2 {
        1
    } else {
        -((-(l as i64)) / 2) as i32
    }
}

fn zoom_out(l: i32) -> (r: i32)
    ensures
        r == zoom_out_level(l),
{
    if l > 1 {
        l / 2
    } else if l >= -1 {
        -2
    } else if l <= -4 {
        -8
    } else {
        2 * l
    }
}

/// Converts `d` screen pixels to sheet pixels at zoom level `l`, rounding down.
pub fn to_sheet_units(l: i32, d: i32) -> (r: i32)
    ensures
        r == screen_to_sheet(l, d),
{
    if l >= 1 {
        if d >= 0 {
            d / l
        } else {
            let a: i64 = -(d as i64);
            let b: i64 = l as i64;
            let c = (a + b - 1) / b;
            proof {
                let ai = a as int;
                let bi = b as int;
                let q = (-ai) / bi;
                vstd::arithmetic::div_mod::lemma_fundamental_div_mod(ai + bi - 1, bi);
                vstd::arithmetic::div_mod::lemma_fundamental_div_mod(-ai, bi);
                let r1 = (ai + bi - 1) % bi;
                let r2 = (-ai) % bi;
                assert(q == -c) by (nonlinear_arith)
                    requires
                        ai + bi - 1 == bi * c + r1,
                        -ai == bi * q + r2,
                        0 <= r1 < bi,
                        0 <= r2 < bi,
                        bi >= 1,
                ;
            }
            (-c) as i32
        }
    } else if l <= -2 {
        let f: i64 = -(l as i64);
        assert(-0x8000_0000 * 0x8000_0000 <= d as int * f as int <= 0x8000_0000 * 0x8000_0000)
            by (nonlinear_arith)
            requires
                -0x8000_0000 <= d <= 0x8000_0000,
                0 <= f <= 0x8000_0000,
        ;
        clamp_to_i32(d as i64 * f)
    } else {
        d
    }
}

/// Per-document state that is kept in history but is not content.
#[derive(Debug)]
pub struct ViewState {
    pub content_tab: ContentTab,
    pub selection: Option<Selection>,
    pub workbench_item: Option<WorkbenchItem>,
    pub workbench_zoom_level: i32,
    pub workbench_offset: Vec2,
    pub timeline_zoom_level: i32,
    /// Playhead position, in milliseconds.
    pub timeline_clock: u128,
}

pub struct ViewModel {
    pub content_tab: ContentTab,
    pub selection: Option<SelectionModel>,
    pub workbench_item: Option<WorkbenchModel>,
    pub workbench_zoom_level: i32,
    pub workbench_offset: Vec2,
    pub timeline_zoom_level: i32,
    pub timeline_clock: u128,
}

impl View for ViewState {
    type V = ViewModel;

    open spec fn view(&self) -> ViewModel {
        ViewModel {
            content_tab: self.content_tab,
            selection: selection_model(self.selection),
            workbench_item: workbench_model(self.workbench_item),
            workbench_zoom_level: self.workbench_zoom_level,
            workbench_offset: self.workbench_offset,
            timeline_zoom_level: self.timeline_zoom_level,
            timeline_clock: self.timeline_clock,
        }
    }
}

impl Clone for ViewState {
    fn clone(&self) -> (r: ViewState)
        ensures
            r@ == self@,
    {
        ViewState {
            content_tab: self.content_tab,
            selection: match &self.selection {
                Some(s) => Some(s.clone()),
                None => None,
            },
            workbench_item: match &self.workbench_item {
                Some(w) => Some(w.clone()),
                None => None,
            },
            workbench_zoom_level: self.workbench_zoom_level,
            workbench_offset: self.workbench_offset,
            timeline_zoom_level: self.timeline_zoom_level,
            timeline_clock: self.timeline_clock,
        }
    }
}

impl ViewState {
    pub open spec fn initial_model() -> ViewModel {
        ViewModel {
            content_tab: ContentTab::Frames,
            selection: None,
            workbench_item: None,
            workbench_zoom_level: 1,
            workbench_offset: Vec2 { x: 0, y: 0 },
            timeline_zoom_level: 1,
            timeline_clock: 0,
        }
    }

    pub fn new() -> (r: ViewState)
        ensures
            r@ == ViewState::initial_model(),
    {
        ViewState {
            content_tab: ContentTab::Frames,
            selection: None,
            workbench_item: None,
            workbench_zoom_level: 1,
            workbench_offset: Vec2::zero(),
            timeline_zoom_level: 1,
            timeline_clock: 0,
        }
    }

    pub fn workbench_zoom_in(&mut self)
        ensures
            final(self)@ == (ViewModel {
                workbench_zoom_level: zoom_in_level(old(self).workbench_zoom_level),
                ..old(self)@
            }),
    {
        self.workbench_zoom_level = zoom_in(self.workbench_zoom_level);
    }

    pub fn workbench_zoom_out(&mut self)
        ensures
            final(self)@ == (ViewModel {
                workbench_zoom_level: zoom_out_level(old(self).workbench_zoom_level),
                ..old(self)@
            }),
    {
        self.workbench_zoom_level = zoom_out(self.workbench_zoom_level);
    }

    pub fn workbench_reset_zoom(&mut self)
        ensures
            final(self)@ == (ViewModel { workbench_zoom_level: 1, ..old(self)@ }),
    {
        self.workbench_zoom_level = 1;
    }

    pub fn workbench_center(&mut self)
        ensures
            final(self)@ == (ViewModel { workbench_offset: Vec2 { x: 0, y: 0 }, ..old(self)@ }),
    {
        self.workbench_offset = Vec2::zero();
    }

    /// Moves the workbench by `delta`, each coordinate held to the range of `i32`.
    pub fn pan(&mut self, delta: Vec2)
        ensures
            final(self)@ == (ViewModel {
                workbench_offset: old(self).workbench_offset.saturating_sum(delta),
                ..old(self)@
            }),
    {
        self.workbench_offset = self.workbench_offset.saturating_add(delta);
    }

    pub fn timeline_zoom_in(&mut self)
        ensures
            final(self)@ == (ViewModel {
                timeline_zoom_level: zoom_in_level(old(self).timeline_zoom_level),
                ..old(self)@
            }),
    {
        self.timeline_zoom_level = zoom_in(self.timeline_zoom_level);
    }

    pub fn timeline_zoom_out(&mut self)
        ensures
            final(self)@ == (ViewModel {
                timeline_zoom_level: zoom_out_level(old(self).timeline_zoom_level),
                ..old(self)@
            }),
    {
        self.timeline_zoom_level = zoom_out(self.timeline_zoom_level);
    }

    pub fn timeline_reset_zoom(&mut self)
        ensures
            final(self)@ == (ViewModel { timeline_zoom_level: 1, ..old(self)@ }),
    {
        self.timeline_zoom_level = 1;
    }
}

impl WorkbenchItem {
    pub fn same_as(&self, o: &WorkbenchItem) -> (r: bool)
        ensures
            r == (self@ == o@),
    {
        match (self, o) {
            (WorkbenchItem::Frame(a), WorkbenchItem::Frame(b)) => *a == *b,
            (WorkbenchItem::Animation(a), WorkbenchItem::Animation(b)) => *a == *b,
            _ => false,
        }
    }
}

impl ViewState {
    pub fn same_as(&self, o: &ViewState) -> (r: bool)
        ensures
            r == (self@ == o@),
    {
        let same_selection = match (&self.selection, &o.selection) {
            (Some(a), Some(b)) => a.same_as(b),
            (None, None) => true,
            _ => false,
        };
        let same_item = match (&self.workbench_item, &o.workbench_item) {
            (Some(a), Some(b)) => a.same_as(b),
            (None, None) => true,
            _ => false,
        };
        same_selection && same_item && self.content_tab == o.content_tab
            && self.workbench_zoom_level == o.workbench_zoom_level && self.workbench_offset
            == o.workbench_offset && self.timeline_zoom_level == o.timeline_zoom_level
            && self.timeline_clock == o.timeline_clock
    }
}

} // verus!
