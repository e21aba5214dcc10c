//! Per-frame partitioning of the terminal area.
//!
//! Every draw cycle splits the frame vertically into a one-row header (the
//! tab strip), a flexible body, and a one-row footer (the status line); the
//! body is then split horizontally into a primary table pane and a secondary
//! detail pane at 70% / 30%.  The split is pure arithmetic so that every
//! renderer receives a region computed the same way on every frame.

use vstd::prelude::*;

verus! {

/// A rectangular region of the terminal, in character cells.
#[derive(Clone, Copy, Debug, PartialEq, Eq, Structural)]
pub struct Rect {
    pub x: u16,
    pub y: u16,
    pub width: u16,
    pub height: u16,
}

/// The four regions a frame is partitioned into.
#[derive(Clone, Copy, Debug, PartialEq, Eq, Structural)]
pub struct FrameLayout {
    pub header: Rect,
    pub table: Rect,
    pub detail: Rect,
    pub footer: Rect,
}

/// Height given to the header band: one row whenever the frame has any row.
pub open spec fn header_height(height: u16) -> u16 {
    if height >= 1 { 1u16 } else { 0u16 }
}

/// Height given to the footer band: one row whenever the frame has at least
/// three rows, so the body is never squeezed out by the footer alone.
pub open spec fn footer_height(height: u16) -> u16 {
    if height >= 3 { 1u16 } else { 0u16 }
}

/// Width of the primary (table) pane: 70% of the frame width, rounded down.
pub open spec fn table_width(width: u16) -> u16 {
    ((width * 70) / 100) as u16
}

/// The complete frame partition for a `width` x `height` frame anchored at
/// `(0, 0)`: header row on top, footer row at the bottom, the body in
/// between split 70/30 into table and detail panes (table width rounded
/// down, detail pane absorbing the remainder).
pub open spec fn frame_layout_spec(width: u16, height: u16) -> FrameLayout {
    let hh = header_height(height);
    let fh = footer_height(height);
    let bh = (height - hh - fh) as u16;
    let tw = table_width(width);
    FrameLayout {
        header: Rect { x: 0u16, y: 0u16, width, height: hh },
        table: Rect { x: 0u16, y: hh, width: tw, height: bh },
        detail: Rect { x: tw, y: hh, width: (width - tw) as u16, height: bh },
        footer: Rect { x: 0u16, y: (hh + bh) as u16, width, height: fh },
    }
}

/// Partition one frame.  For any frame of height at least 3 the header and
/// footer take exactly one row each, the body takes the remaining
/// `height - 2` rows, and the body's width is covered exactly by the table
/// pane (70%, rounded down) followed by the detail pane.
pub fn frame_layout(width: u16, height: u16) -> (r: FrameLayout)
    ensures
        r == frame_layout_spec(width, height),
        height >= 3 ==> r.header.height == 1 && r.footer.height == 1,
        height >= 3 ==> r.table.height == height - 2 && r.detail.height == height - 2,
        r.table.width + r.detail.width == width,
        r.table.x == 0 && r.detail.x == r.table.width,
        r.table.y == r.header.height && r.detail.y == r.header.height,
        r.footer.y == r.header.height + r.table.height,
{
    let hh: u16 = if height >= 1 { 1 } else { 0 };
    let fh: u16 = if height >= 3 { 1 } else { 0 };
    let bh: u16 = height - hh - fh;
    let tw: u16 = (width as u32 * 70 / 100) as u16;
    assert(tw == table_width(width)) by {
        assert(width * 70 == (width as u32 * 70)) by (nonlinear_arith);
    };
    FrameLayout {
        header: Rect { x: 0, y: 0, width, height: hh },
        table: Rect { x: 0, y: hh, width: tw, height: bh },
        detail: Rect { x: tw, y: hh, width: width - tw, height: bh },
        footer: Rect { x: 0, y: hh + bh, width, height: fh },
    }
}

} // verus!
