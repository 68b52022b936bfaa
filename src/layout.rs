use vstd::prelude::*;
use ratatui::layout::{Constraint, Direction, Layout, Rect};
use crate::area::Area;

verus! {

/// The size asked for one part of a split.
#[derive(Clone, Copy, Debug, PartialEq, Eq, Structural)]
pub enum Extent {
    /// A share of the area, in percent.
    Percent(u16),
    /// A fixed number of terminal cells.
    Length(u16),
}

/// Relies on `ratatui::layout::Layout::split` with no margin: one rectangle
/// per constraint, stacked top to bottom when `vertical`, else left to right.
/// Across the stacking direction each part spans the whole area, after
/// `Rect::new` has shrunk it to fit. Where along the stacking direction the
/// parts fall is up to the solver, and is not promised.
#[verifier::external_body]
pub(crate) fn split(area: Area, vertical: bool, extents: &Vec<Extent>) -> (r: Vec<Area>)
    ensures
        r@.len() == extents@.len(),
        vertical ==> forall|i: int| 0 <= i < r@.len() ==> (#[trigger] r@[i]).x == area.clamped().x
            && r@[i].width == area.clamped().width,
        !vertical ==> forall|i: int| 0 <= i < r@.len() ==> (#[trigger] r@[i]).y == area.clamped().y
            && r@[i].height == area.clamped().height,
{
    let direction = if vertical { Direction::Vertical } else { Direction::Horizontal };
    let constraints = extents.iter().map(|e| match e {
        Extent::Percent(p) => Constraint::Percentage(*p),
        Extent::Length(n) => Constraint::Length(*n),
    });
    let rects = Layout::default().direction(direction).constraints(constraints)
        .split(Rect::new(area.x, area.y, area.width, area.height));
    rects.iter().map(|r| Area { x: r.x, y: r.y, width: r.width, height: r.height }).collect()
}

} // verus!
