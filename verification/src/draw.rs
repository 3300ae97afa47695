//! Display layout: how the panel is partitioned into member cells, and
//! which stroke widths, fonts and anchors each piece of text gets. These
//! decisions are computed here; an unverified shell executes them against
//! the physical panel or a simulator.

use vstd::prelude::*;

use crate::badge::Select;

verus! {

/// An axis-aligned rectangle on the panel, in pixels from the top-left
/// corner.
#[derive(Eq, PartialEq, Structural, Debug, Clone, Copy)]
pub struct Rect {
    pub x: u32,
    pub y: u32,
    pub w: u32,
    pub h: u32,
}

/// The fonts the badge draws with, from smallest to largest.
#[derive(Eq, PartialEq, Structural, Debug, Clone, Copy)]
pub enum FontChoice {
    Font6x10,
    Font8x13,
    Font9x18,
    Font10x20,
    ProFont24,
}

/// Horizontal anchoring of a piece of text.
#[derive(Eq, PartialEq, Structural, Debug, Clone, Copy)]
pub enum TextAlign {
    Left,
    Right,
}

/// `rect` shrunk to height `nh`, keeping its top edge.
pub open spec fn resized_top(rect: Rect, nh: u32) -> Rect
    recommends
        nh <= rect.h,
{
    Rect { x: rect.x, y: rect.y, w: rect.w, h: nh }
}

/// `rect` shrunk to height `nh`, keeping its vertical center.
pub open spec fn resized_center(rect: Rect, nh: u32) -> Rect
    recommends
        nh <= rect.h,
{
    Rect { x: rect.x, y: (rect.y + (rect.h - nh) / 2) as u32, w: rect.w, h: nh }
}

/// `rect` shrunk to height `nh`, keeping its bottom edge.
pub open spec fn resized_bottom(rect: Rect, nh: u32) -> Rect
    recommends
        nh <= rect.h,
{
    Rect { x: rect.x, y: (rect.y + (rect.h - nh)) as u32, w: rect.w, h: nh }
}

/// The rectangle of cell `i` when `len` cells partition a panel of
/// `width` by `height` pixels, top to bottom: one cell takes the whole
/// area, two take the halves, three take equal thirds, and four take the
/// two halves each split in two again.
pub open spec fn cell_rect_spec(width: u32, height: u32, len: u8, i: u8) -> Rect
    recommends
        1 <= len <= 4,
        i < len,
{
    let whole = Rect { x: 0, y: 0, w: width, h: height };
    if len == 1 {
        whole
    } else if len == 2 {
        if i == 0 {
            resized_top(whole, height / 2)
        } else {
            resized_bottom(whole, height / 2)
        }
    } else if len == 3 {
        if i == 0 {
            resized_top(whole, height / 3)
        } else if i == 1 {
            resized_center(whole, height / 3)
        } else {
            resized_bottom(whole, height / 3)
        }
    } else {
        let half = if i < 2 {
            resized_top(whole, height / 2)
        } else {
            resized_bottom(whole, height / 2)
        };
        if i == 0 || i == 2 {
            resized_top(half, half.h / 2)
        } else {
            resized_bottom(half, half.h / 2)
        }
    }
}

/// Computes `cell_rect_spec` for real panel dimensions.
pub fn cell_rect(width: u32, height: u32, len: u8, i: u8) -> (r: Rect)
    requires
        1 <= len <= 4,
        i < len,
    ensures
        r == cell_rect_spec(width, height, len, i),
{
    let whole = Rect { x: 0, y: 0, w: width, h: height };
    if len == 1 {
        whole
    } else if len == 2 {
        if i == 0 {
            Rect { x: 0, y: 0, w: width, h: height / 2 }
        } else {
            Rect { x: 0, y: height - height / 2, w: width, h: height / 2 }
        }
    } else if len == 3 {
        if i == 0 {
            Rect { x: 0, y: 0, w: width, h: height / 3 }
        } else if i == 1 {
            Rect { x: 0, y: (height - height / 3) / 2, w: width, h: height / 3 }
        } else {
            Rect { x: 0, y: height - height / 3, w: width, h: height / 3 }
        }
    } else {
        let hh = height / 2;
        let y0 = if i < 2 {
            0
        } else {
            height - hh
        };
        if i == 0 || i == 2 {
            Rect { x: 0, y: y0, w: width, h: hh / 2 }
        } else {
            Rect { x: 0, y: y0 + (hh - hh / 2), w: width, h: hh / 2 }
        }
    }
}

/// Where a member's name is drawn inside its cell, and with which font:
/// an offset from the cell's top-left corner, larger fonts in taller
/// cells.
pub fn name_style(cell_h: u32) -> (r: ((u32, u32), FontChoice))
    ensures
        cell_h > 40 ==> r == (((5u32, 25u32), FontChoice::ProFont24)),
        20 < cell_h <= 40 ==> r == (((5u32, 20u32), FontChoice::Font8x13)),
        cell_h <= 20 ==> r == (((5u32, 20u32), FontChoice::Font6x10)),
{
    if cell_h > 40 {
        ((5, 25), FontChoice::ProFont24)
    } else if cell_h > 20 {
        ((5, 20), FontChoice::Font8x13)
    } else {
        ((5, 20), FontChoice::Font6x10)
    }
}

/// Where a member's pronouns are drawn inside its cell: anchored at the
/// bottom left of tall cells and at the top right of short ones, with the
/// font shrinking as the cell does. The horizontal offset saturates at the
/// cell's edge.
pub fn pronoun_style(cell_w: u32, cell_h: u32) -> (r: ((u32, u32), TextAlign, FontChoice))
    ensures
        cell_h > 100 ==> r == (((5u32, (cell_h - 20) as u32), TextAlign::Left,
            FontChoice::Font10x20)),
        50 < cell_h <= 100 ==> r == (((5u32, (cell_h - 15) as u32), TextAlign::Left,
            FontChoice::Font8x13)),
        40 < cell_h <= 50 ==> r == (((if cell_w >= 5 { (cell_w - 5) as u32 } else { 0u32 }, 15u32),
            TextAlign::Right, FontChoice::Font8x13)),
        cell_h <= 40 ==> r == (((if cell_w >= 5 { (cell_w - 5) as u32 } else { 0u32 }, 15u32),
            TextAlign::Right, FontChoice::Font6x10)),
{
    let right_x = if cell_w >= 5 {
        cell_w - 5
    } else {
        0
    };
    if cell_h > 100 {
        ((5, cell_h - 20), TextAlign::Left, FontChoice::Font10x20)
    } else if cell_h > 50 {
        ((5, cell_h - 15), TextAlign::Left, FontChoice::Font8x13)
    } else if cell_h > 40 {
        ((right_x, 15), TextAlign::Right, FontChoice::Font8x13)
    } else {
        ((right_x, 15), TextAlign::Right, FontChoice::Font6x10)
    }
}

/// One member cell to draw: its rectangle, the roster member it shows, and
/// its selection state, which sets the outline's stroke width.
#[derive(Eq, PartialEq, Structural, Debug, Clone, Copy)]
pub struct CellPlan {
    pub rect: Rect,
    pub member_id: u16,
    pub select: Select,
}

/// What one redraw of the panel shows.
#[derive(Eq, PartialEq, Debug, Clone)]
pub enum RenderPlan {
    /// The system name screen.
    Name,
    /// The firmware version screen.
    Version,
    /// The "invalid system" screen shown when no usable roster is loaded.
    Invalid,
    /// The placeholder screen shown while an update is in progress.
    Updating,
    /// The member cells, one per active slot.
    Cells(Vec<CellPlan>),
}

} // verus!
