//! Where a view stands on the screen.

use vstd::prelude::*;

verus! {

/// Where a view stands from left to right.
#[derive(Clone, Copy, Debug, PartialEq, Eq, Structural)]
pub enum HorizontalAlign {
    Left,
    Center,
    Right,
    /// Over the whole width.
    Full,
}

/// Where a view stands from top to bottom.
#[derive(Clone, Copy, Debug, PartialEq, Eq, Structural)]
pub enum VerticalAlign {
    Top,
    Middle,
    Bottom,
    /// Over the whole height.
    Full,
}

/// The width of a view that does not take the whole width.
pub const VIEW_WIDTH: u16 = 80;

/// The height of a view that does not take the whole height.
pub const VIEW_HEIGHT: u16 = 20;

/// A rectangle of cells on the screen.
#[derive(Clone, Copy, Debug, PartialEq, Eq, Structural)]
pub struct Area {
    pub x: u16,
    pub y: u16,
    pub width: u16,
    pub height: u16,
}

impl Area {
    /// Whether the far edges are coordinates too, as those of a screen are.
    pub open spec fn has_edges(self) -> bool {
        &&& self.x + self.width <= u16::MAX
        &&& self.y + self.height <= u16::MAX
    }

    /// Whether no cell of this rectangle lies outside `outer`.
    pub open spec fn within(self, outer: Area) -> bool {
        &&& outer.x <= self.x
        &&& self.x + self.width <= outer.x + outer.width
        &&& outer.y <= self.y
        &&& self.y + self.height <= outer.y + outer.height
    }
}

/// How far a stretch of `inner` cells starts from the start of `outer`
/// cells: not at all at the start, by the whole slack at the end, by half of
/// it in the middle. There is no slack where `inner` is the longer.
pub open spec fn offset_of(outer: u16, inner: u16, at_start: bool, at_end: bool) -> int {
    let slack = if outer >= inner {
        outer - inner
    } else {
        0
    };
    if at_start {
        0
    } else if at_end {
        slack
    } else {
        slack / 2
    }
}

/// The rectangle of a view that stands in `outer` as the two alignments say.
pub open spec fn viewport_of(outer: Area, h_align: HorizontalAlign, v_align: VerticalAlign) -> Area {
    let width = if h_align is Full {
        outer.width
    } else {
        VIEW_WIDTH
    };
    let height = if v_align is Full {
        outer.height
    } else {
        VIEW_HEIGHT
    };
    Area {
        x: (outer.x + offset_of(
            outer.width,
            width,
            h_align is Left || h_align is Full,
            h_align is Right,
        )) as u16,
        y: (outer.y + offset_of(
            outer.height,
            height,
            v_align is Top || v_align is Full,
            v_align is Bottom,
        )) as u16,
        width,
        height,
    }
}

/// The rectangle of a view that stands in `outer` as the two alignments say:
/// over the whole width or 80 cells wide, over the whole height or 20 cells
/// high, at the edge named or in the middle.
pub fn viewport(outer: Area, h_align: HorizontalAlign, v_align: VerticalAlign) -> (view: Area)
    requires
        outer.has_edges(),
    ensures
        view == viewport_of(outer, h_align, v_align),
        view.width <= outer.width && view.height <= outer.height ==> view.within(outer),
{
    let width: u16 = match h_align {
        HorizontalAlign::Full => outer.width,
        _ => VIEW_WIDTH,
    };
    let height: u16 = match v_align {
        VerticalAlign::Full => outer.height,
        _ => VIEW_HEIGHT,
    };
    let x: u16 = match h_align {
        HorizontalAlign::Left | HorizontalAlign::Full => outer.x,
        HorizontalAlign::Center => outer.x + outer.width.saturating_sub(width) / 2,
        HorizontalAlign::Right => outer.x + outer.width.saturating_sub(width),
    };
    let y: u16 = match v_align {
        VerticalAlign::Top | VerticalAlign::Full => outer.y,
        VerticalAlign::Middle => outer.y + outer.height.saturating_sub(height) / 2,
        VerticalAlign::Bottom => outer.y + outer.height.saturating_sub(height),
    };
    Area { x, y, width, height }
}

/// The rectangle of the list that pops up over a view: five cells in from
/// its corner, 30 cells wide and 10 high.
pub fn popup_area(view: Area) -> (popup: Area)
    requires
        view.x + 5 <= u16::MAX,
        view.y + 5 <= u16::MAX,
    ensures
        popup == (Area { x: (view.x + 5) as u16, y: (view.y + 5) as u16, width: 30, height: 10 }),
{
    Area { x: view.x + 5, y: view.y + 5, width: 30, height: 10 }
}

} // verus!
