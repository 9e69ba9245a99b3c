use vstd::prelude::*;

verus! {

/// Identifier of a module placed on a patch surface.
#[derive(Clone, Copy, Debug, PartialEq, Eq, Structural, Hash)]
pub struct ModuleId {
    pub id: u32,
}

impl ModuleId {
    pub fn new(id: u32) -> (r: ModuleId)
        ensures
            r.id == id,
    {
        ModuleId { id }
    }

    pub fn value(self) -> (r: u32)
        ensures
            r == self.id,
    {
        self.id
    }
}

/// A cell of the patch grid.
#[derive(Clone, Copy, Debug, PartialEq, Eq, Structural, Hash)]
pub struct GridPos {
    pub x: u16,
    pub y: u16,
}

impl GridPos {
    pub fn new(x: u16, y: u16) -> (r: GridPos)
        ensures
            r.x == x,
            r.y == y,
    {
        GridPos { x, y }
    }
}

/// The direction a module's signal flows: inputs come from the left and leave
/// to the right, or come from the top and leave at the bottom.
#[derive(Clone, Copy, Debug, PartialEq, Eq, Structural, Hash)]
pub enum Orientation {
    Right,
    Down,
}

/// The size of a patch grid, in cells.
#[derive(Clone, Copy, Debug, PartialEq, Eq, Structural)]
pub struct GridSize {
    pub width: u16,
    pub height: u16,
}

impl GridSize {
    pub fn new(width: u16, height: u16) -> (r: GridSize)
        ensures
            r.width == width,
            r.height == height,
    {
        GridSize { width, height }
    }
}

/// How many grid columns and rows fit in the visible part of the editor.
/// Both are at least one.
#[derive(Clone, Copy, Debug, PartialEq, Eq, Structural)]
pub struct GridViewSize {
    pub columns: u16,
    pub rows: u16,
}

pub open spec fn at_least_one(v: u16) -> u16 {
    if v < 1 { 1 } else { v }
}

impl GridViewSize {
    pub fn new(columns: u16, rows: u16) -> (r: GridViewSize)
        ensures
            r.columns == at_least_one(columns),
            r.rows == at_least_one(rows),
    {
        GridViewSize {
            columns: if columns < 1 { 1 } else { columns },
            rows: if rows < 1 { 1 } else { rows },
        }
    }

    pub fn columns(self) -> (r: u16)
        ensures
            r == self.columns,
    {
        self.columns
    }

    pub fn rows(self) -> (r: u16)
        ensures
            r == self.rows,
    {
        self.rows
    }
}

pub open spec fn min_u16(a: u16, b: u16) -> u16 {
    if a <= b { a } else { b }
}

pub open spec fn max_u16(a: u16, b: u16) -> u16 {
    if a >= b { a } else { b }
}

/// The corners of the rectangle spanned by two cells: the smallest and the
/// largest coordinate on each axis.
pub open spec fn spec_normalized_rect(anchor: GridPos, extent: GridPos) -> (GridPos, GridPos) {
    (
        GridPos { x: min_u16(anchor.x, extent.x), y: min_u16(anchor.y, extent.y) },
        GridPos { x: max_u16(anchor.x, extent.x), y: max_u16(anchor.y, extent.y) },
    )
}

pub fn normalized_rect(anchor: GridPos, extent: GridPos) -> (r: (GridPos, GridPos))
    ensures
        r == spec_normalized_rect(anchor, extent),
{
    let min_x = if anchor.x <= extent.x { anchor.x } else { extent.x };
    let min_y = if anchor.y <= extent.y { anchor.y } else { extent.y };
    let max_x = if anchor.x >= extent.x { anchor.x } else { extent.x };
    let max_y = if anchor.y >= extent.y { anchor.y } else { extent.y };
    (GridPos { x: min_x, y: min_y }, GridPos { x: max_x, y: max_y })
}

/// Cells kept between the focused area and the edge of the visible window.
pub const GRID_VIEW_MARGIN: u16 = 2;

pub open spec fn sat_sub(a: int, b: int) -> int {
    if a >= b { a - b } else { 0 }
}

pub open spec fn min_int(a: int, b: int) -> int {
    if a <= b { a } else { b }
}

/// The scroll margin for a window of `visible` cells.
pub open spec fn view_margin(visible: int) -> int {
    min_int(GRID_VIEW_MARGIN as int, sat_sub(visible, 1) / 2)
}

/// The new scroll offset of one axis of the grid view.
///
/// A grid that fits in the window is not scrolled. Otherwise the offset moves
/// just far enough that the focused span `[min, max]` keeps `view_margin` cells
/// of room to the window edge (the low edge wins when the span is wider than
/// the window), and never past the last offset, `size - visible`.
pub open spec fn spec_updated_axis_view(offset: u16, min: u16, max: u16, size: u16, visible: u16) -> int {
    if size <= visible {
        0
    } else {
        let max_offset = size - visible;
        let margin = view_margin(visible as int);
        let low = min_int(offset + margin, u16::MAX as int);
        if min < low {
            min_int(sat_sub(min as int, margin), max_offset)
        } else if max > offset + visible - 1 - margin {
            min_int(sat_sub(min_int(min_int(max + margin, u16::MAX as int) + 1, u16::MAX as int), visible as int), max_offset)
        } else {
            min_int(offset as int, max_offset)
        }
    }
}

/// The window arithmetic of `updated_axis_view` stays within `u16` whenever
/// it reaches the test of the high edge.
pub open spec fn axis_view_in_range(offset: u16, min: u16, size: u16, visible: u16) -> bool {
    size > visible && min >= min_int(offset + view_margin(visible as int), u16::MAX as int)
        ==> 1 + view_margin(visible as int) <= offset + visible <= u16::MAX
}

pub fn updated_axis_view(offset: u16, min: u16, max: u16, size: u16, visible: u16) -> (r: u16)
    requires
        axis_view_in_range(offset, min, size, visible),
    ensures
        r == spec_updated_axis_view(offset, min, max, size, visible),
        size <= visible ==> r == 0,
        size > visible ==> r <= size - visible,
{
    if size <= visible {
        return 0;
    }
    let max_offset = size - visible;
    let half = visible.saturating_sub(1) / 2;
    let margin = if GRID_VIEW_MARGIN <= half { GRID_VIEW_MARGIN } else { half };
    let low = offset.saturating_add(margin);
    if min < low {
        let v = min.saturating_sub(margin);
        return if v <= max_offset { v } else { max_offset };
    }
    // offset + margin <= min <= u16::MAX here, and margin < visible
    let high = offset + visible - 1 - margin;
    if max > high {
        let v = max.saturating_add(margin).saturating_add(1).saturating_sub(visible);
        return if v <= max_offset { v } else { max_offset };
    }
    if offset <= max_offset { offset } else { max_offset }
}

} // verus!
