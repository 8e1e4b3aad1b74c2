use vstd::prelude::*;

use crate::command::StateError;
use crate::document::{DocState, Document};
use crate::editing::{with_sheet, with_transient, workbench_frame};
use crate::geometry::{clamp_i32, clamp_to_i32, Size, Vec2};
use crate::gestures::selected_hitboxes;
use crate::sheet::{position_of, FrameModel, Hitbox, HitboxModel, SheetModel};
use crate::transient::{find_hitbox_snapshot, hitbox_snapshot_pos, ResizeAxis, Transient, TransientModel};
use crate::view_state::{screen_to_sheet, to_sheet_units, trunc_div};

verus! {

/// A mouse movement restricted, unless `both_axis`, to its larger component.
pub open spec fn locked(d: Vec2, both_axis: bool) -> Vec2 {
    if both_axis {
        d
    } else if (if d.x < 0 { -d.x } else { d.x as int }) > (if d.y < 0 { -d.y } else { d.y as int }) {
        Vec2 { x: d.x, y: 0 }
    } else {
        Vec2 { x: 0, y: d.y }
    }
}

pub fn lock_axis(d: Vec2, both_axis: bool) -> (r: Vec2)
    ensures
        r == locked(d, both_axis),
{
    if both_axis {
        return d;
    }
    let ax: i64 = if d.x < 0 { -(d.x as i64) } else { d.x as i64 };
    let ay: i64 = if d.y < 0 { -(d.y as i64) } else { d.y as i64 };
    if ax > ay {
        Vec2 { x: d.x, y: 0 }
    } else {
        Vec2 { x: 0, y: d.y }
    }
}

/// `p / q` rounded to the nearest integer, halves away from zero.
pub open spec fn round_div(p: int, q: int) -> int {
    if p >= 0 {
        (2 * p + q) / (2 * q)
    } else {
        -((2 * (-p) + q) / (2 * q))
    }
}

/// A distance of `d` screen pixels, in sheet pixels at zoom level `l`, rounded to nearest.
pub open spec fn screen_to_sheet_rounded(l: i32, d: int) -> int {
    if l >= 1 {
        round_div(d, l as int)
    } else if l <= -2 {
        d * (-l)
    } else {
        d
    }
}

/// How a gesture changes one hitbox, from what it was when the gesture began.
pub enum HitboxEdit {
    /// Moved by a distance in sheet pixels.
    Move(Vec2),
    /// Resized by dragging a handle: handle, mouse distance in screen pixels, whether a
    /// corner keeps the aspect ratio, zoom level.
    Resize(ResizeAxis, Vec2, bool, i32),
}

/// The corner-drag distance that keeps the aspect ratio of a `w` by `h` rectangle.
pub open spec fn ratio_kept(axis: ResizeAxis, d: Vec2, w: int, h: int) -> (int, int) {
    let flip = axis == ResizeAxis::NE || axis == ResizeAxis::SW;
    let ax: int = if d.x < 0 { -d.x } else { d.x as int };
    let ay: int = if d.y < 0 { -d.y } else { d.y as int };
    if ax > ay {
        let q = round_div(d.x * h, w);
        (d.x as int, if flip { -q } else { q })
    } else {
        let q = round_div(d.y * w, h);
        (if flip { -q } else { q }, d.y as int)
    }
}

/// The rectangle spanned by two corners: `(x, y, width, height)`.
pub open spec fn span(x1: int, y1: int, x2: int, y2: int) -> (int, int, int, int) {
    let x = if x1 < x2 { x1 } else { x2 };
    let y = if y1 < y2 { y1 } else { y2 };
    (x, y, if x1 < x2 { x2 - x1 } else { x1 - x2 }, if y1 < y2 { y2 - y1 } else { y1 - y2 })
}

/// The rectangle after dragging handle `axis` of the rectangle `(x, y, w, h)` by
/// `(dx, dy)`: the opposite corner or edge stays.
pub open spec fn resized(axis: ResizeAxis, x: int, y: int, w: int, h: int, dx: int, dy: int) -> (
    int,
    int,
    int,
    int,
) {
    let r = x + w;
    let b = y + h;
    match axis {
        ResizeAxis::NW => span(r, b, x + dx, y + dy),
        ResizeAxis::NE => span(x, b, r + dx, y + dy),
        ResizeAxis::SW => span(r, y, x + dx, b + dy),
        ResizeAxis::SE => span(x, y, r + dx, b + dy),
        ResizeAxis::N => span(x, b, r, y + dy),
        ResizeAxis::W => span(r, y, x + dx, b),
        ResizeAxis::S => span(x, y, r, b + dy),
        ResizeAxis::E => span(x, y, r + dx, b),
    }
}

pub open spec fn clamp_u32(x: int) -> u32 {
    if x > u32::MAX {
        u32::MAX
    } else if x < 0 {
        0
    } else {
        x as u32
    }
}

/// Hitbox `h` after `edit`, where `snap` is what it was when the gesture began.
pub open spec fn edited_hitbox(h: HitboxModel, snap: HitboxModel, edit: HitboxEdit) -> HitboxModel {
    match edit {
        HitboxEdit::Move(d) => HitboxModel { position: snap.position.saturating_sum(d), ..h },
        HitboxEdit::Resize(axis, d, keep_ratio, zoom) => {
            let w = if snap.size.width >= 1 { snap.size.width as int } else { 1 };
            let hh = if snap.size.height >= 1 { snap.size.height as int } else { 1 };
            let (mx, my) = if keep_ratio && axis.is_diagonal() {
                ratio_kept(axis, d, w, hh)
            } else {
                (d.x as int, d.y as int)
            };
            let (x, y, nw, nh) = resized(
                axis,
                snap.position.x as int,
                snap.position.y as int,
                snap.size.width as int,
                snap.size.height as int,
                screen_to_sheet_rounded(zoom, mx),
                screen_to_sheet_rounded(zoom, my),
            );
            HitboxModel {
                position: Vec2 { x: clamp_i32(x), y: clamp_i32(y) },
                size: Size { width: clamp_u32(nw), height: clamp_u32(nh) },
                ..h
            }
        },
    }
}

fn round_div_exec(p: i128, q: i128) -> (r: i128)
    requires
        1 <= q <= 0x1_0000_0000,
        -0x1_0000_0000_0000_0000 <= p <= 0x1_0000_0000_0000_0000,
    ensures
        r == round_div(p as int, q as int),
        -0x1_0000_0000_0000_0001 <= r <= 0x1_0000_0000_0000_0001,
{
    if p >= 0 {
        let r = (2 * p + q) / (2 * q);
        assert(0 <= r <= p + 1) by (nonlinear_arith)
            requires
                p >= 0,
                q >= 1,
                r == (2 * p + q) / (2 * q),
        ;
        r
    } else {
        let r = (2 * (-p) + q) / (2 * q);
        assert(0 <= r <= -p + 1) by (nonlinear_arith)
            requires
                p < 0,
                q >= 1,
                r == (2 * (-p) + q) / (2 * q),
        ;
        -r
    }
}

fn to_sheet_rounded(l: i32, d: i128) -> (r: i128)
    requires
        -0x1_0000_0000_0000_0001 <= d <= 0x1_0000_0000_0000_0001,
    ensures
        r == screen_to_sheet_rounded(l, d as int),
        -0x1_0000_0000_0000_0000_0000_0000 <= r <= 0x1_0000_0000_0000_0000_0000_0000,
{
    if l >= 1 {
        if d >= -0x1_0000_0000_0000_0000 && d <= 0x1_0000_0000_0000_0000 {
            round_div_exec(d, l as i128)
        } else {
            let r = if d >= 0 {
                (2 * d + l as i128) / (2 * l as i128)
            } else {
                -((2 * (-d) + l as i128) / (2 * l as i128))
            };
            assert(-0x1_0000_0000_0000_0002 <= r <= 0x1_0000_0000_0000_0002) by (nonlinear_arith)
                requires
                    -0x1_0000_0000_0000_0001 <= d <= 0x1_0000_0000_0000_0001,
                    l >= 1,
                    r == round_div(d as int, l as int),
            ;
            r
        }
    } else if l <= -2 {
        let f: i128 = -(l as i128);
        assert(-0x1_0000_0000_0000_0001 * 0x8000_0000 <= d * f <= 0x1_0000_0000_0000_0001
            * 0x8000_0000) by (nonlinear_arith)
            requires
                -0x1_0000_0000_0000_0001 <= d <= 0x1_0000_0000_0000_0001,
                2 <= f <= 0x8000_0000,
        ;
        d * f
    } else {
        d
    }
}

fn span_exec(x1: i128, y1: i128, x2: i128, y2: i128) -> (r: (i128, i128, i128, i128))
    requires
        -0x1_0000_0000_0000_0000_0000_0000_0000 <= x1 <= 0x1_0000_0000_0000_0000_0000_0000_0000,
        -0x1_0000_0000_0000_0000_0000_0000_0000 <= y1 <= 0x1_0000_0000_0000_0000_0000_0000_0000,
        -0x1_0000_0000_0000_0000_0000_0000_0000 <= x2 <= 0x1_0000_0000_0000_0000_0000_0000_0000,
        -0x1_0000_0000_0000_0000_0000_0000_0000 <= y2 <= 0x1_0000_0000_0000_0000_0000_0000_0000,
    ensures
        (r.0 as int, r.1 as int, r.2 as int, r.3 as int) == span(x1 as int, y1 as int, x2 as int, y2 as int),
{
    let x = if x1 < x2 { x1 } else { x2 };
    let y = if y1 < y2 { y1 } else { y2 };
    let w = if x1 < x2 { x2 - x1 } else { x1 - x2 };
    let h = if y1 < y2 { y2 - y1 } else { y1 - y2 };
    (x, y, w, h)
}

fn clamp_to_u32(x: i128) -> (r: u32)
    ensures
        r == clamp_u32(x as int),
{
    if x > u32::MAX as i128 {
        u32::MAX
    } else if x < 0 {
        0
    } else {
        x as u32
    }
}

fn clamp_wide_to_i32(x: i128) -> (r: i32)
    ensures
        r == clamp_i32(x as int),
{
    if x < i32::MIN as i128 {
        i32::MIN
    } else if x > i32::MAX as i128 {
        i32::MAX
    } else {
        x as i32
    }
}

fn abs_wide(v: i32) -> (r: i128)
    ensures
        r == (if v < 0 { -v } else { v as int }),
{
    if v < 0 {
        -(v as i128)
    } else {
        v as i128
    }
}

fn corner_move(axis: ResizeAxis, d: Vec2, keep_ratio: bool, w: i128, hh: i128) -> (r: (i128, i128))
    requires
        1 <= w <= 0x1_0000_0000,
        1 <= hh <= 0x1_0000_0000,
    ensures
        (r.0 as int, r.1 as int) == (if keep_ratio && axis.is_diagonal() {
            ratio_kept(axis, d, w as int, hh as int)
        } else {
            (d.x as int, d.y as int)
        }),
        -0x1_0000_0000_0000_0001 <= r.0 <= 0x1_0000_0000_0000_0001,
        -0x1_0000_0000_0000_0001 <= r.1 <= 0x1_0000_0000_0000_0001,
{
    if keep_ratio && (axis == ResizeAxis::NW || axis == ResizeAxis::NE
        || axis == ResizeAxis::SW || axis == ResizeAxis::SE) {
        let sign: i128 = if axis == ResizeAxis::NE || axis == ResizeAxis::SW { -1 } else { 1 };
        let dx = d.x as i128;
        let dy = d.y as i128;
        proof {
            assert(-0x8000_0000 * 0x1_0000_0000 <= dx * hh <= 0x8000_0000 * 0x1_0000_0000) by (nonlinear_arith)
                requires -0x8000_0000 <= dx <= 0x8000_0000, 1 <= hh <= 0x1_0000_0000;
            assert(-0x8000_0000 * 0x1_0000_0000 <= dy * w <= 0x8000_0000 * 0x1_0000_0000) by (nonlinear_arith)
                requires -0x8000_0000 <= dy <= 0x8000_0000, 1 <= w <= 0x1_0000_0000;
        }
        if abs_wide(d.x) > abs_wide(d.y) {
            let q = round_div_exec(dx * hh, w);
            (dx, if sign < 0 { -q } else { q })
        } else {
            let q = round_div_exec(dy * w, hh);
            (if sign < 0 { -q } else { q }, dy)
        }
    } else {
        (d.x as i128, d.y as i128)
    }
}

#[verifier::rlimit(50)]
fn resize_hitbox(snap: &Hitbox, axis: ResizeAxis, d: Vec2, keep_ratio: bool, zoom: i32) -> (r: (
    Vec2,
    Size,
))
    ensures
        ({
            let e = edited_hitbox(snap@, snap@, HitboxEdit::Resize(axis, d, keep_ratio, zoom));
            r.0 == e.position && r.1 == e.size
        }),
{
    let w: i128 = if snap.size.width >= 1 { snap.size.width as i128 } else { 1 };
    let hh: i128 = if snap.size.height >= 1 { snap.size.height as i128 } else { 1 };
    let (mx, my) = corner_move(axis, d, keep_ratio, w, hh);
    let sx = to_sheet_rounded(zoom, mx);
    let sy = to_sheet_rounded(zoom, my);
    let x = snap.position.x as i128;
    let y = snap.position.y as i128;
    let r = x + snap.size.width as i128;
    let b = y + snap.size.height as i128;
    let (nx, ny, nw, nh) = match axis {
        ResizeAxis::NW => span_exec(r, b, x + sx, y + sy),
        ResizeAxis::NE => span_exec(x, b, r + sx, y + sy),
        ResizeAxis::SW => span_exec(r, y, x + sx, b + sy),
        ResizeAxis::SE => span_exec(x, y, r + sx, b + sy),
        ResizeAxis::N => span_exec(x, b, r, y + sy),
        ResizeAxis::W => span_exec(r, y, x + sx, b),
        ResizeAxis::S => span_exec(x, y, r, b + sy),
        ResizeAxis::E => span_exec(x, y, r + sx, b),
    };
    (
        Vec2 { x: clamp_wide_to_i32(nx), y: clamp_wide_to_i32(ny) },
        Size { width: clamp_to_u32(nw), height: clamp_to_u32(nh) },
    )
}

pub open spec fn hitbox_names_of(hs: Seq<HitboxModel>) -> Seq<Seq<char>> {
    hs.map_values(|h: HitboxModel| h.name)
}

/// `hs` with the first hitbox of each name in `names` edited from its snapshot in `snap`.
pub open spec fn edited_hitboxes(
    hs: Seq<HitboxModel>,
    names: Seq<Seq<char>>,
    snap: Seq<HitboxModel>,
    edit: HitboxEdit,
) -> Seq<HitboxModel> {
    Seq::new(
        hs.len(),
        |h: int|
            if names.contains(hs[h].name) && position_of(hitbox_names_of(hs), hs[h].name) == h {
                edited_hitbox(hs[h], snap[hitbox_snapshot_pos(snap, hs[h].name)], edit)
            } else {
                hs[h]
            },
    )
}

pub open spec fn all_hitboxes_in(f: FrameModel, names: Seq<Seq<char>>) -> bool {
    forall|j: int| 0 <= j < names.len() ==> f.has_hitbox(#[trigger] names[j])
}

pub open spec fn all_hitbox_snapshots(snap: Seq<HitboxModel>, names: Seq<Seq<char>>) -> bool {
    forall|j: int| 0 <= j < names.len() ==> hitbox_snapshot_pos(snap, #[trigger] names[j]) >= 0
}

/// What each selected hitbox of the frame on the workbench is now.
pub open spec fn hitbox_snapshots(s: DocState) -> Result<Seq<HitboxModel>, StateError> {
    match workbench_frame(s) {
        Err(e) => Err(e),
        Ok(p) => match selected_hitboxes(s) {
            Err(e) => Err(e),
            Ok(names) => {
                let f = s.sheet.frame(p);
                if !all_hitboxes_in(f, names) {
                    Err(StateError::InvalidHitboxName)
                } else {
                    Ok(names.map_values(|n: Seq<char>| f.hitboxes[f.hitbox_pos(n)]))
                }
            },
        },
    }
}

pub open spec fn begin_hitbox_drag_effect(s: DocState) -> Result<DocState, StateError> {
    match hitbox_snapshots(s) {
        Err(e) => Err(e),
        Ok(snap) => Ok(with_transient(s, Some(TransientModel::HitboxPosition(snap)))),
    }
}

pub open spec fn begin_hitbox_scale_effect(s: DocState, axis: ResizeAxis) -> Result<DocState, StateError> {
    match hitbox_snapshots(s) {
        Err(e) => Err(e),
        Ok(snap) => Ok(with_transient(s, Some(TransientModel::HitboxSize(axis, snap)))),
    }
}

/// Edits the selected hitboxes of the frame on the workbench from their snapshots.
#[verifier::opaque]
pub open spec fn hitbox_update_effect(
    s: DocState,
    snap: Result<Seq<HitboxModel>, StateError>,
    missing: StateError,
    edit: HitboxEdit,
) -> Result<DocState, StateError> {
    match workbench_frame(s) {
        Err(e) => Err(e),
        Ok(p) => match selected_hitboxes(s) {
            Err(e) => Err(e),
            Ok(names) => match snap {
                Err(e) => Err(e),
                Ok(snap) => {
                    let f = s.sheet.frame(p);
                    if !all_hitbox_snapshots(snap, names) {
                        Err(missing)
                    } else if !all_hitboxes_in(f, names) {
                        Err(StateError::InvalidHitboxName)
                    } else {
                        Ok(
                            with_sheet(
                                s,
                                s.sheet.with_frame(
                                    p,
                                    FrameModel {
                                        hitboxes: edited_hitboxes(f.hitboxes, names, snap, edit),
                                        ..f
                                    },
                                ),
                            ),
                        )
                    }
                },
            },
        },
    }
}

/// Moves each selected hitbox to where it was when the drag began plus the mouse movement
/// (on its larger axis unless `both_axis`), in sheet pixels rounded down.
pub open spec fn update_hitbox_drag_effect(s: DocState, delta: Vec2, both_axis: bool) -> Result<
    DocState,
    StateError,
> {
    let d = locked(delta, both_axis);
    let zoom = s.view.workbench_zoom_level;
    hitbox_update_effect(
        s,
        match s.transient {
            Some(TransientModel::HitboxPosition(snap)) => Ok(snap),
            _ => Err(StateError::NotAdjustingHitboxPosition),
        },
        StateError::MissingHitboxPositionData,
        HitboxEdit::Move(Vec2 { x: screen_to_sheet(zoom, d.x), y: screen_to_sheet(zoom, d.y) }),
    )
}

pub open spec fn size_axis(t: Option<TransientModel>) -> ResizeAxis {
    match t {
        Some(TransientModel::HitboxSize(axis, _)) => axis,
        _ => ResizeAxis::SE,
    }
}

/// Resizes each selected hitbox from what it was when the resize began, by dragging the
/// handle chosen then.
pub open spec fn update_hitbox_scale_effect(s: DocState, delta: Vec2, keep_ratio: bool) -> Result<
    DocState,
    StateError,
> {
    hitbox_update_effect(
        s,
        match s.transient {
            Some(TransientModel::HitboxSize(_, snap)) => Ok(snap),
            _ => Err(StateError::NotAdjustingHitboxSize),
        },
        StateError::MissingHitboxSizeData,
        HitboxEdit::Resize(size_axis(s.transient), delta, keep_ratio, s.view.workbench_zoom_level),
    )
}

fn edit_one(h: &mut Hitbox, snap: &Hitbox, edit: &HitboxEdit)
    ensures
        final(h)@ == edited_hitbox(old(h)@, snap@, *edit),
{
    match edit {
        HitboxEdit::Move(d) => {
            h.position = snap.position.saturating_add(*d);
        },
        HitboxEdit::Resize(axis, d, keep_ratio, zoom) => {
            let (p, sz) = resize_hitbox(snap, *axis, *d, *keep_ratio, *zoom);
            h.position = p;
            h.size = sz;
        },
    }
}

#[verifier::rlimit(100)]
pub(crate) fn apply_hitbox_edit(hs: &mut Vec<Hitbox>, names: &Vec<String>, snap: &Vec<Hitbox>, edit: &HitboxEdit)
    requires
        all_hitboxes_in(
            FrameModel { source: seq![], hitboxes: old(hs)@.map_values(|h: Hitbox| h@) },
            names@.map_values(|n: String| n@),
        ),
        all_hitbox_snapshots(snap@.map_values(|h: Hitbox| h@), names@.map_values(|n: String| n@)),
    ensures
        final(hs)@.map_values(|h: Hitbox| h@) == edited_hitboxes(
            old(hs)@.map_values(|h: Hitbox| h@),
            names@.map_values(|n: String| n@),
            snap@.map_values(|h: Hitbox| h@),
            *edit,
        ),
{
    let ghost hs0 = old(hs)@.map_values(|h: Hitbox| h@);
    let ghost nm = names@.map_values(|n: String| n@);
    let ghost sn = snap@.map_values(|h: Hitbox| h@);
    let ghost target = edited_hitboxes(hs0, nm, sn, *edit);
    let mut j: usize = 0;
    while j < names.len()
        invariant
            0 <= j <= names@.len(),
            hs@.len() == hs0.len(),
            target == edited_hitboxes(hs0, nm, sn, *edit),
            nm == names@.map_values(|n: String| n@),
            sn == snap@.map_values(|h: Hitbox| h@),
            all_hitboxes_in(FrameModel { source: seq![], hitboxes: hs0 }, nm),
            all_hitbox_snapshots(sn, nm),
            hitbox_names_of(hs@.map_values(|h: Hitbox| h@)) == hitbox_names_of(hs0),
            forall|h: int|
                0 <= h < hs0.len() ==> (#[trigger] hs@[h])@ == if nm.take(j as int).contains(
                    hs0[h].name,
                ) && position_of(hitbox_names_of(hs0), hs0[h].name) == h {
                    target[h]
                } else {
                    hs0[h]
                },
        decreases names@.len() - j,
    {
        let ghost n = nm[j as int];
        assert(FrameModel { source: seq![], hitboxes: hs0 }.has_hitbox(n));
        let ghost cur = FrameModel { source: seq![], hitboxes: hs@.map_values(|h: Hitbox| h@) };
        assert(cur.hitbox_names() == hitbox_names_of(hs0));
        let found = find_position(hs, &names[j]);
        let i = found.unwrap();
        let si = find_hitbox_snapshot(snap, &names[j]);
        assert(names@[j as int]@ == n);
        assert(hitbox_snapshot_pos(sn, n) >= 0);
        let si = si.unwrap();
        assert(sn.len() == snap.len());
        let ghost prev = hs@;
        let snap_h = &snap[si];
        edit_one(&mut hs[i], snap_h, edit);
        proof {
            crate::sheet::lemma_position_of_bounds(hitbox_names_of(hs0), n);
            assert(nm.take(j + 1) =~= nm.take(j as int).push(n));
            assert(hs0.len() == hs.len());
            assert(hitbox_names_of(hs@.map_values(|h: Hitbox| h@)) =~= hitbox_names_of(hs0));
            assert forall|h: int| 0 <= h < hs0.len() implies (#[trigger] hs@[h])@ == if nm.take(
                j + 1,
            ).contains(hs0[h].name) && position_of(hitbox_names_of(hs0), hs0[h].name) == h {
                target[h]
            } else {
                hs0[h]
            } by {
                crate::gestures::lemma_push_contains(nm.take(j as int), n, hs0[h].name);
                assert(prev[h]@ == if nm.take(j as int).contains(hs0[h].name) && position_of(
                    hitbox_names_of(hs0),
                    hs0[h].name,
                ) == h {
                    target[h]
                } else {
                    hs0[h]
                });
                if h == i as int {
                    assert(hitbox_names_of(hs0)[h] == n);
                    assert(hs0[h].name == n);
                    assert(prev[h]@.name == hs0[h].name);
                    assert(si as int == hitbox_snapshot_pos(sn, n));
                    assert(nm.take(j + 1).contains(n));
                    assert(hs@[h]@ == edited_hitbox(prev[h]@, sn[si as int], *edit));
                    match *edit {
                        HitboxEdit::Move(_) => {
                            assert(prev[h]@.size == hs0[h].size);
                        },
                        HitboxEdit::Resize(..) => {},
                    }
                    assert(hs@[h]@ == target[h]);
                } else {
                    assert(hs@[h] == prev[h]);
                }
            }
        }
        j += 1;
    }
    proof {
        assert(nm.take(j as int) =~= nm);
        assert(hs@.map_values(|h: Hitbox| h@) =~= target);
    }
}

fn find_position(hs: &Vec<Hitbox>, name: &String) -> (r: Option<usize>)
    ensures
        match r {
            Some(i) => i == position_of(hitbox_names_of(hs@.map_values(|h: Hitbox| h@)), name@)
                && i < hs@.len(),
            None => !hitbox_names_of(hs@.map_values(|h: Hitbox| h@)).contains(name@),
        },
{
    let ghost keys = hitbox_names_of(hs@.map_values(|h: Hitbox| h@));
    let mut i: usize = 0;
    while i < hs.len()
        invariant
            0 <= i <= hs@.len(),
            keys == hitbox_names_of(hs@.map_values(|h: Hitbox| h@)),
            forall|j: int| 0 <= j < i ==> keys[j] != name@,
        decreases hs@.len() - i,
    {
        if hs[i].name == *name {
            proof {
                crate::sheet::lemma_position_of_found(keys, name@, i as int);
            }
            return Some(i);
        }
        i += 1;
    }
    proof {
        crate::sheet::lemma_position_of_missing(keys, name@);
    }
    None
}

pub open spec fn snapshot_model(r: Result<Vec<Hitbox>, StateError>) -> Result<Seq<HitboxModel>, StateError> {
    match r {
        Ok(v) => Ok(v@.map_values(|h: Hitbox| h@)),
        Err(e) => Err(e),
    }
}

pub(crate) fn all_named_in(hs: &Vec<Hitbox>, names: &Vec<String>) -> (r: bool)
    ensures
        r == all_hitboxes_in(
            FrameModel { source: seq![], hitboxes: hs@.map_values(|h: Hitbox| h@) },
            names@.map_values(|n: String| n@),
        ),
{
    let ghost f = FrameModel { source: seq![], hitboxes: hs@.map_values(|h: Hitbox| h@) };
    let ghost nm = names@.map_values(|n: String| n@);
    let mut j: usize = 0;
    while j < names.len()
        invariant
            0 <= j <= names@.len(),
            f == (FrameModel { source: seq![], hitboxes: hs@.map_values(|h: Hitbox| h@) }),
            nm == names@.map_values(|n: String| n@),
            forall|i: int| 0 <= i < j ==> f.has_hitbox(#[trigger] nm[i]),
        decreases names@.len() - j,
    {
        let found = find_position(hs, &names[j]);
        if found.is_none() {
            assert(names@.map_values(|n: String| n@)[j as int] == names@[j as int]@);
            return false;
        }
        proof {
            crate::sheet::lemma_position_of_bounds(hitbox_names_of(hs@.map_values(|h: Hitbox| h@)), names@[j as int]@);
            assert(f.hitbox_names() == hitbox_names_of(hs@.map_values(|h: Hitbox| h@)));
        }
        j += 1;
    }
    true
}

#[verifier::rlimit(50)]
fn all_named_snapshotted(snap: &Vec<Hitbox>, names: &Vec<String>) -> (r: bool)
    ensures
        r == all_hitbox_snapshots(snap@.map_values(|h: Hitbox| h@), names@.map_values(|n: String| n@)),
{
    let ghost nm = names@.map_values(|n: String| n@);
    let ghost sn = snap@.map_values(|h: Hitbox| h@);
    let mut j: usize = 0;
    while j < names.len()
        invariant
            0 <= j <= names@.len(),
            nm == names@.map_values(|n: String| n@),
            sn == snap@.map_values(|h: Hitbox| h@),
            forall|i: int| 0 <= i < j ==> hitbox_snapshot_pos(sn, #[trigger] nm[i]) >= 0,
        decreases names@.len() - j,
    {
        assert(nm[j as int] == names@[j as int]@);
        if find_hitbox_snapshot(snap, &names[j]).is_none() {
            return false;
        }
        proof {
            crate::sheet::lemma_position_of_bounds(sn.map_values(|h: HitboxModel| h.name), nm[j as int]);
        }
        j += 1;
    }
    true
}

impl Document {
    fn selected_hitbox_names(&self) -> (r: Result<Vec<String>, StateError>)
        ensures
            match selected_hitboxes(self.state()) {
                Ok(n) => r is Ok && r->Ok_0@.map_values(|s: String| s@) == n,
                Err(e) => r == Err::<Vec<String>, StateError>(e),
            },
    {
        match &self.view.selection {
            Some(crate::selection::Selection::Hitbox(sel)) => {
                let c = sel.clone();
                Ok(c.items)
            },
            _ => Err(StateError::NoHitboxSelected),
        }
    }

    fn hitbox_snapshots(&self) -> (r: Result<Vec<Hitbox>, StateError>)
        ensures
            snapshot_model(r) == hitbox_snapshots(self.state()),
    {
        let f = match self.workbench_frame_position() {
            Ok(f) => f,
            Err(e) => return Err(e),
        };
        let names = match self.selected_hitbox_names() {
            Ok(n) => n,
            Err(e) => return Err(e),
        };
        let ghost fm = self.sheet@.frames[f as int];
        let ghost nm = names@.map_values(|s: String| s@);
        if !all_named_in(&self.sheet.frames[f].hitboxes, &names) {
            proof {
                assert(fm.hitbox_names() =~= hitbox_names_of(self.sheet.frames@[f as int].hitboxes@.map_values(|h: Hitbox| h@)));
                assert(!all_hitboxes_in(fm, nm));
            }
            return Err(StateError::InvalidHitboxName);
        }
        proof {
            assert(fm.hitbox_names() =~= hitbox_names_of(self.sheet.frames@[f as int].hitboxes@.map_values(|h: Hitbox| h@)));
        }
        let mut snaps: Vec<Hitbox> = Vec::new();
        let mut j: usize = 0;
        while j < names.len()
            invariant
                0 <= j <= names@.len(),
                f < self.sheet@.frames.len(),
                fm == self.sheet@.frames[f as int],
                nm == names@.map_values(|s: String| s@),
                all_hitboxes_in(fm, nm),
                snaps@.len() == j,
                forall|k: int|
                    0 <= k < j ==> (#[trigger] snaps@[k])@ == fm.hitboxes[fm.hitbox_pos(nm[k])],
            decreases names@.len() - j,
        {
            assert(fm.has_hitbox(nm[j as int]));
            assert(self.sheet.frames@[f as int]@ == fm);
            assert(names@[j as int]@ == nm[j as int]);
            let i = self.sheet.frames[f].hitbox_position(&names[j]).unwrap();
            let h = self.sheet.frames[f].hitboxes[i].clone();
            assert(h@ == fm.hitboxes[fm.hitbox_pos(nm[j as int])]);
            snaps.push(h);
            j += 1;
        }
        assert(snaps@.map_values(|h: Hitbox| h@) =~= nm.map_values(
            |n: Seq<char>| fm.hitboxes[fm.hitbox_pos(n)],
        ));
        Ok(snaps)
    }

    pub fn begin_hitbox_drag(&mut self) -> (r: Result<(), StateError>)
        ensures
            final(self).outcome(*old(self), r, begin_hitbox_drag_effect(old(self).state())),
    {
        match self.hitbox_snapshots() {
            Ok(snap) => {
                self.transient = Some(Transient::HitboxPosition(snap));
                Ok(())
            },
            Err(e) => Err(e),
        }
    }

    pub fn begin_hitbox_scale(&mut self, axis: ResizeAxis) -> (r: Result<(), StateError>)
        ensures
            final(self).outcome(*old(self), r, begin_hitbox_scale_effect(old(self).state(), axis)),
    {
        match self.hitbox_snapshots() {
            Ok(snap) => {
                self.transient = Some(Transient::HitboxSize(axis, snap));
                Ok(())
            },
            Err(e) => Err(e),
        }
    }

    #[verifier::rlimit(50)]
    fn update_hitboxes(
        &mut self,
        snap: Result<Vec<Hitbox>, StateError>,
        missing: StateError,
        edit: HitboxEdit,
    ) -> (r: Result<(), StateError>)
        ensures
            final(self).outcome(
                *old(self),
                r,
                hitbox_update_effect(old(self).state(), snapshot_model(snap), missing, edit),
            ),
    {
        reveal(hitbox_update_effect);
        let f = match self.workbench_frame_position() {
            Ok(f) => f,
            Err(e) => return Err(e),
        };
        let names = match self.selected_hitbox_names() {
            Ok(n) => n,
            Err(e) => return Err(e),
        };
        let snap = match snap {
            Ok(s) => s,
            Err(e) => return Err(e),
        };
        if !all_named_snapshotted(&snap, &names) {
            return Err(missing);
        }
        let ghost s0 = self.state();
        let ghost fm = self.sheet@.frames[f as int];
        proof {
            assert(fm.hitbox_names() =~= hitbox_names_of(self.sheet.frames@[f as int].hitboxes@.map_values(|h: Hitbox| h@)));
        }
        if !all_named_in(&self.sheet.frames[f].hitboxes, &names) {
            return Err(StateError::InvalidHitboxName);
        }
        apply_hitbox_edit(&mut self.sheet.frames[f].hitboxes, &names, &snap, &edit);
        proof {
            let p = workbench_frame(s0)->Ok_0;
            assert(self.sheet@.frames =~= s0.sheet.with_frame(
                p,
                FrameModel {
                    hitboxes: edited_hitboxes(
                        fm.hitboxes,
                        names@.map_values(|n: String| n@),
                        snap@.map_values(|h: Hitbox| h@),
                        edit,
                    ),
                    ..fm
                },
            ).frames);
        }
        Ok(())
    }

    /// Continues a hitbox drag; see `update_hitbox_drag_effect`.
    pub fn update_hitbox_drag(&mut self, mouse_delta: Vec2, both_axis: bool) -> (r: Result<
        (),
        StateError,
    >)
        ensures
            final(self).outcome(
                *old(self),
                r,
                update_hitbox_drag_effect(old(self).state(), mouse_delta, both_axis),
            ),
    {
        let d = lock_axis(mouse_delta, both_axis);
        let zoom = self.view.workbench_zoom_level;
        let edit = HitboxEdit::Move(Vec2 { x: to_sheet_units(zoom, d.x), y: to_sheet_units(zoom, d.y) });
        let snap = match &self.transient {
            Some(Transient::HitboxPosition(s)) => {
                let c = s.clone();
                assert(c@.map_values(|h: Hitbox| h@) =~= s@.map_values(|h: Hitbox| h@));
                Ok(c)
            },
            _ => Err(StateError::NotAdjustingHitboxPosition),
        };
        self.update_hitboxes(snap, StateError::MissingHitboxPositionData, edit)
    }

    /// Continues a hitbox resize; see `update_hitbox_scale_effect`.
    pub fn update_hitbox_scale(&mut self, mouse_delta: Vec2, preserve_aspect_ratio: bool) -> (r: Result<
        (),
        StateError,
    >)
        ensures
            final(self).outcome(
                *old(self),
                r,
                update_hitbox_scale_effect(old(self).state(), mouse_delta, preserve_aspect_ratio),
            ),
    {
        let (snap, axis) = match &self.transient {
            Some(Transient::HitboxSize(axis, s)) => {
                let c = s.clone();
                assert(c@.map_values(|h: Hitbox| h@) =~= s@.map_values(|h: Hitbox| h@));
                (Ok(c), *axis)
            },
            _ => (Err(StateError::NotAdjustingHitboxSize), ResizeAxis::SE),
        };
        let edit = HitboxEdit::Resize(axis, mouse_delta, preserve_aspect_ratio, self.view.workbench_zoom_level);
        self.update_hitboxes(snap, StateError::MissingHitboxSizeData, edit)
    }
}

} // verus!
