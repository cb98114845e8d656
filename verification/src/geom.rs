//! Axis-aligned geometry and the three collision predicates the engine
//! resolves contacts with: plain overlap, and the two axis-separated
//! "would overlap after moving by this velocity" tests.

use vstd::prelude::*;

verus! {

/// A stored world coordinate: what constructors and frame results keep.
pub open spec fn in_world(v: i64) -> bool {
    -0x1000_0000_0000 <= v <= 0x1000_0000_0000
}

/// A transient coordinate mid-resolution: a stored coordinate moved to an
/// obstacle's edge still qualifies.
pub open spec fn in_mid(v: i64) -> bool {
    -0x2000_0000_0000 <= v <= 0x2000_0000_0000
}

/// A transient coordinate after one frame's velocity was applied.
pub open spec fn in_wide(v: i64) -> bool {
    -0x1_0000_0000_0000 <= v <= 0x1_0000_0000_0000
}

/// The loosest coordinate the collision predicates accept: wide, plus one
/// more frame of velocity, with room to spare.
pub open spec fn in_calc(v: i64) -> bool {
    -0x4_0000_0000_0000 <= v <= 0x4_0000_0000_0000
}

/// A position or velocity in subunits.
#[derive(PartialEq, Eq, Structural, Clone, Copy, Debug)]
pub struct Vec2 {
    pub x: i64,
    pub y: i64,
}

/// An axis-aligned box; `pos` is its bottom-left corner (y grows upward).
#[derive(PartialEq, Eq, Structural, Clone, Copy, Debug)]
pub struct Rect {
    pub pos: Vec2,
    pub w: i64,
    pub h: i64,
}

/// Velocity components a frame step can take without any sum leaving `i64`.
pub open spec fn wf_vel(v: Vec2) -> bool {
    -1_000_000_000 <= v.x <= 1_000_000_000 && -1_000_000_000 <= v.y <= 1_000_000_000
}

/// A velocity component as it may look mid-resolution, after impulses and
/// gravity were added to a stored one.
pub open spec fn vel_in_wide(v: i64) -> bool {
    -2_000_000_000 <= v <= 2_000_000_000
}

/// A box with positive, bounded extent and stored in-world position.
pub open spec fn wf_rect(r: Rect) -> bool {
    &&& in_world(r.pos.x)
    &&& in_world(r.pos.y)
    &&& 0 < r.w <= 1_000_000
    &&& 0 < r.h <= 1_000_000
}

/// A box mid-resolution, before the velocity is applied.
pub open spec fn mid_rect(r: Rect) -> bool {
    &&& in_mid(r.pos.x)
    &&& in_mid(r.pos.y)
    &&& 0 < r.w <= 1_000_000
    &&& 0 < r.h <= 1_000_000
}

/// A box after one frame's velocity was applied.
pub open spec fn bounded_rect(r: Rect) -> bool {
    &&& in_wide(r.pos.x)
    &&& in_wide(r.pos.y)
    &&& 0 < r.w <= 1_000_000
    &&& 0 < r.h <= 1_000_000
}

/// The loosest box the collision predicates accept.
pub open spec fn calc_rect(r: Rect) -> bool {
    &&& in_calc(r.pos.x)
    &&& in_calc(r.pos.y)
    &&& 0 < r.w <= 1_000_000
    &&& 0 < r.h <= 1_000_000
}

impl Rect {
    /// Right edge of the box.
    pub open spec fn spec_max_x(self) -> int {
        self.pos.x + self.w
    }

    /// Top edge of the box.
    pub open spec fn spec_max_y(self) -> int {
        self.pos.y + self.h
    }

    pub fn new(x: i64, y: i64, w: i64, h: i64) -> (r: Rect)
        ensures
            r == (Rect { pos: Vec2 { x, y }, w, h }),
    {
        Rect { pos: Vec2 { x, y }, w, h }
    }

    pub fn get_x(&self) -> (r: i64)
        ensures
            r == self.pos.x,
    {
        self.pos.x
    }

    pub fn get_y(&self) -> (r: i64)
        ensures
            r == self.pos.y,
    {
        self.pos.y
    }

    pub fn get_width(&self) -> (r: i64)
        ensures
            r == self.w,
    {
        self.w
    }

    pub fn get_height(&self) -> (r: i64)
        ensures
            r == self.h,
    {
        self.h
    }

    pub fn get_max_x(&self) -> (r: i64)
        requires
            calc_rect(*self),
        ensures
            r == self.spec_max_x(),
    {
        self.pos.x + self.w
    }

    pub fn get_max_y(&self) -> (r: i64)
        requires
            calc_rect(*self),
        ensures
            r == self.spec_max_y(),
    {
        self.pos.y + self.h
    }
}

/// The box `a` moved by one frame of velocity `v`.
pub open spec fn spec_translated(a: Rect, v: Vec2) -> Rect {
    Rect { pos: Vec2 { x: (a.pos.x + v.x) as i64, y: (a.pos.y + v.y) as i64 }, ..a }
}

/// Two boxes overlap on both axes; touching edges do not count.
pub open spec fn spec_overlaps(a: Rect, b: Rect) -> bool {
    &&& a.pos.x < b.spec_max_x()
    &&& a.spec_max_x() > b.pos.x
    &&& a.pos.y < b.spec_max_y()
    &&& a.spec_max_y() > b.pos.y
}

/// Moving `a` horizontally by `vx` would overlap `b`: the boxes already share
/// a strict vertical band and the shifted x-extents overlap.
pub open spec fn spec_h_contact(a: Rect, b: Rect, vx: i64) -> bool {
    &&& a.pos.y < b.spec_max_y()
    &&& a.spec_max_y() > b.pos.y
    &&& a.pos.x + vx < b.spec_max_x()
    &&& a.spec_max_x() + vx > b.pos.x
}

/// Moving `a` vertically by `vy` would overlap `b`: the boxes already share
/// a strict horizontal band and the shifted y-extents overlap.
pub open spec fn spec_v_contact(a: Rect, b: Rect, vy: i64) -> bool {
    &&& a.pos.x < b.spec_max_x()
    &&& a.spec_max_x() > b.pos.x
    &&& a.pos.y + vy < b.spec_max_y()
    &&& a.spec_max_y() + vy > b.pos.y
}

pub fn translated(a: &Rect, v: &Vec2) -> (r: Rect)
    requires
        calc_rect(*a),
        vel_in_wide(v.x),
        vel_in_wide(v.y),
    ensures
        r == spec_translated(*a, *v),
{
    Rect { pos: Vec2 { x: a.pos.x + v.x, y: a.pos.y + v.y }, w: a.w, h: a.h }
}

pub fn rect_vs_rect(a: &Rect, b: &Rect) -> (r: bool)
    requires
        calc_rect(*a),
        calc_rect(*b),
    ensures
        r == spec_overlaps(*a, *b),
{
    a.pos.x < b.pos.x + b.w && a.pos.x + a.w > b.pos.x && a.pos.y < b.pos.y + b.h
        && a.pos.y + a.h > b.pos.y
}

pub fn rect_vs_rect_horizontally(a: &Rect, b: &Rect, vx: i64) -> (r: bool)
    requires
        calc_rect(*a),
        calc_rect(*b),
        vel_in_wide(vx),
    ensures
        r == spec_h_contact(*a, *b, vx),
{
    a.pos.y < b.pos.y + b.h && a.pos.y + a.h > b.pos.y && a.pos.x + vx < b.pos.x + b.w
        && a.pos.x + a.w + vx > b.pos.x
}

pub fn rect_vs_rect_vertically(a: &Rect, b: &Rect, vy: i64) -> (r: bool)
    requires
        calc_rect(*a),
        calc_rect(*b),
        vel_in_wide(vy),
    ensures
        r == spec_v_contact(*a, *b, vy),
{
    a.pos.x < b.pos.x + b.w && a.pos.x + a.w > b.pos.x && a.pos.y + vy < b.pos.y + b.h
        && a.pos.y + a.h + vy > b.pos.y
}

} // verus!
