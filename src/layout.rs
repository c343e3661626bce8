use vstd::prelude::*;
use tui::layout::{Constraint, Direction, Layout, Rect};
use crate::palette::{Palette, Rgb};

verus! {

/// A rectangle of terminal cells: its top-left corner and its size.
#[derive(Clone, Copy, Debug, PartialEq, Eq, Structural)]
pub struct Area {
    pub x: u16,
    pub y: u16,
    pub width: u16,
    pub height: u16,
}

/// The share of the width that each of the two panels takes, in percent.
pub const PANEL_PERCENT: u16 = 50;

/// The two columns, left and right, that tui's layout solver makes of `area`
/// when each is to take half of its width.
pub uninterp spec fn halves_of(area: Area) -> (Area, Area);

/// Whether two columns sit side by side and cover `area` exactly: the first
/// starts at its left edge, the second starts where the first ends and stops
/// at its right edge, and both have its top and height.
pub open spec fn columns_cover(area: Area, left: Area, right: Area) -> bool {
    &&& left.x == area.x
    &&& right.x as int == left.x as int + left.width as int
    &&& right.x as int + right.width as int == area.x as int + area.width as int
    &&& left.y == area.y && left.height == area.height
    &&& right.y == area.y && right.height == area.height
}

/// The areas that the layout accepts for two half-width panels: the solver
/// takes the percentage of the width in `u16`, and the area must end within
/// the `u16` range, where its right and bottom edges are cut off.
pub open spec fn fits_layout(area: Area) -> bool {
    &&& PANEL_PERCENT as int * area.width as int <= u16::MAX as int
    &&& area.x as int + area.width as int <= u16::MAX as int
    &&& area.y as int + area.height as int <= u16::MAX as int
}

/// Relies on tui's `Layout::split`, horizontal, with two `Percentage`
/// constraints of `percent`, half each. Its required constraints put the
/// columns side by side across the whole area, with the area's top and height;
/// the two equal targets then fix one optimum, and tui widens the last column
/// to the right edge.
#[verifier::external_body]
fn split_halves(area: Area, percent: u16) -> (r: (Area, Area))
    requires
        percent == PANEL_PERCENT,
        fits_layout(area),
    ensures
        r == halves_of(area),
        columns_cover(area, r.0, r.1),
{
    let parts = Layout::default().direction(Direction::Horizontal).constraints(
        [Constraint::Percentage(percent), Constraint::Percentage(percent)].as_ref(),
    ).split(Rect { x: area.x, y: area.y, width: area.width, height: area.height });
    let a = Area { x: parts[0].x, y: parts[0].y, width: parts[0].width, height: parts[0].height };
    let b = Area { x: parts[1].x, y: parts[1].y, width: parts[1].width, height: parts[1].height };
    (a, b)
}

/// Which series a panel shows.
#[derive(Clone, Copy, Debug, PartialEq, Eq, Structural)]
pub enum Series {
    Cpu,
    Memory,
}

impl Series {
    /// The panel's title.
    pub fn title(self) -> (r: &'static str)
        ensures
            self == Series::Cpu ==> r == "Cpu usage",
            self == Series::Memory ==> r == "Memory usage",
    {
        match self {
            Series::Cpu => "Cpu usage",
            Series::Memory => "Memory usage",
        }
    }
}

/// One bordered panel of a frame: the series it charts, where, in what colour.
#[derive(Clone, Copy, Debug, PartialEq, Eq, Structural)]
pub struct Panel {
    pub series: Series,
    pub area: Area,
    pub color: Rgb,
}

/// The panels of one frame: CPU use on the left half of `area`, memory use on
/// the right half, side by side across all of it, each in its colour of the
/// palette.
pub fn frame_panels(area: Area, palette: Palette) -> (r: (Panel, Panel))
    requires
        fits_layout(area),
    ensures
        r.0 == (Panel { series: Series::Cpu, area: halves_of(area).0, color: palette.cpu }),
        r.1 == (Panel { series: Series::Memory, area: halves_of(area).1, color: palette.memory }),
        columns_cover(area, r.0.area, r.1.area),
{
    let (left, right) = split_halves(area, PANEL_PERCENT);
    (
        Panel { series: Series::Cpu, area: left, color: palette.cpu },
        Panel { series: Series::Memory, area: right, color: palette.memory },
    )
}

} // verus!
