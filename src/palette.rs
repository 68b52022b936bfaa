use vstd::prelude::*;
use crate::area::Area;
use crate::canvas::CellColor;
use crate::key::Key;
use crate::layout::{split, Extent};

verus! {

/// Colors per row of the palette grid.
pub const PALETTE_COLUMNS: usize = 4;

/// The colors offered by the palette, in order.
pub open spec fn palette_colors() -> Seq<CellColor> {
    seq![
        CellColor::Black,
        CellColor::Red,
        CellColor::Green,
        CellColor::Yellow,
        CellColor::Blue,
        CellColor::Magenta,
        CellColor::Cyan,
        CellColor::White,
    ]
}

/// The selection after `key`, the colors read as a flat sequence of rows of
/// four: Up and Down move a whole row, Left and Right one place (crossing
/// rows at their ends). A move that would leave the sequence is dropped.
pub open spec fn palette_step(index: int, key: Key) -> int {
    let n = palette_colors().len() as int;
    match key {
        Key::Up => if index >= 4 { index - 4 } else { index },
        Key::Down => if index + 4 < n { index + 4 } else { index },
        Key::Left => if index > 0 { index - 1 } else { index },
        Key::Right => if index + 1 < n { index + 1 } else { index },
        _ => index,
    }
}

/// Going up a row and back down, or one place left and back right, returns
/// to the starting selection whenever the first move is possible.
pub proof fn lemma_palette_moves_invert(i: int)
    requires
        0 <= i < palette_colors().len(),
    ensures
        i >= 4 ==> palette_step(palette_step(i, Key::Up), Key::Down) == i,
        i > 0 ==> palette_step(palette_step(i, Key::Left), Key::Right) == i,
{
}

/// At the first color Up and Left do nothing; at the last, Down and Right do
/// nothing.
pub proof fn lemma_palette_edges()
    ensures
        palette_step(0, Key::Up) == 0,
        palette_step(0, Key::Left) == 0,
        palette_step(palette_colors().len() - 1, Key::Down) == palette_colors().len() - 1,
        palette_step(palette_colors().len() - 1, Key::Right) == palette_colors().len() - 1,
{
}

/// One colored rectangle of the palette overlay.
#[derive(Clone, Copy, Debug, PartialEq, Eq, Structural)]
pub struct Swatch {
    pub area: Area,
    pub color: CellColor,
}

/// The rectangle of palette color `i`, placed in `rows` (one area per row of
/// the grid). Each swatch is a quarter of the first row's width and one cell
/// tall; its left edge stops at the largest `u16`.
pub open spec fn swatch_area(rows: Seq<Area>, i: int) -> Area {
    let row = rows[i / 4];
    let width = rows[0].width as int / 4;
    let x = row.x + (i % 4) * width;
    Area {
        x: if x > u16::MAX { u16::MAX } else { x as u16 },
        y: row.y,
        width: width as u16,
        height: 1,
    }
}

/// Palette color `i` in its place among `rows`.
pub open spec fn swatch(rows: Seq<Area>, i: int) -> Swatch {
    Swatch { area: swatch_area(rows, i), color: palette_colors()[i] }
}

/// The left edge of palette color `i` when the grid spans `area` from side
/// to side: a quarter of the width per column.
pub open spec fn column_x(area: Area, i: int) -> int {
    area.x + (i % 4) * (area.width as int / 4)
}

/// The palette overlay: the colors on offer and the highlighted one.
pub struct ColorPickerOverlay {
    pub colors: Vec<CellColor>,
    pub selected_color: usize,
}

impl ColorPickerOverlay {
    pub open spec fn wf(&self) -> bool {
        self.colors@ == palette_colors() && self.selected_color < palette_colors().len()
    }

    /// The highlighted color.
    pub open spec fn highlighted(&self) -> CellColor {
        self.colors@[self.selected_color as int]
    }

    /// A fresh overlay with the first color highlighted.
    pub fn new() -> (r: ColorPickerOverlay)
        ensures
            r.wf(),
            r.selected_color == 0,
    {
        let colors: Vec<CellColor> = vec![
            CellColor::Black,
            CellColor::Red,
            CellColor::Green,
            CellColor::Yellow,
            CellColor::Blue,
            CellColor::Magenta,
            CellColor::Cyan,
            CellColor::White,
        ];
        assert(colors@ == palette_colors());
        ColorPickerOverlay { colors, selected_color: 0 }
    }

    /// Moves the highlight by `key`. Enter and other keys leave it; closing
    /// the overlay is up to its owner.
    pub fn handle_input(&mut self, key: Key)
        requires
            old(self).wf(),
        ensures
            final(self).wf(),
            final(self).colors@ == old(self).colors@,
            final(self).selected_color == palette_step(old(self).selected_color as int, key),
    {
        match key {
            Key::Up => {
                if self.selected_color >= PALETTE_COLUMNS {
                    self.selected_color -= PALETTE_COLUMNS;
                }
            },
            Key::Down => {
                if self.selected_color + PALETTE_COLUMNS < self.colors.len() {
                    self.selected_color += PALETTE_COLUMNS;
                }
            },
            Key::Left => {
                if self.selected_color > 0 {
                    self.selected_color -= 1;
                }
            },
            Key::Right => {
                if self.selected_color + 1 < self.colors.len() {
                    self.selected_color += 1;
                }
            },
            _ => {},
        }
    }

    /// The highlighted color.
    pub fn selected(&self) -> (r: CellColor)
        requires
            self.wf(),
        ensures
            r == self.highlighted(),
    {
        self.colors[self.selected_color]
    }

    /// The color swatches laid out over `rows`, the areas of the grid's rows:
    /// in palette order, four to a row.
    pub fn swatches(&self, rows: &Vec<Area>) -> (r: Vec<Swatch>)
        requires
            self.wf(),
            rows@.len() == 2,
        ensures
            r@.len() == palette_colors().len(),
            forall|i: int| 0 <= i < r@.len() ==> #[trigger] r@[i] == swatch(rows@, i),
    {
        let cell_width: u16 = rows[0].width / (PALETTE_COLUMNS as u16);
        let mut out: Vec<Swatch> = Vec::new();
        let mut i: usize = 0;
        while i < self.colors.len()
            invariant
                self.wf(),
                rows@.len() == 2,
                cell_width == rows@[0].width as int / 4,
                i <= palette_colors().len(),
                out@.len() == i,
                forall|j: int| 0 <= j < i ==> #[trigger] out@[j] == swatch(rows@, j),
            decreases palette_colors().len() - i,
        {
            let row = i / PALETTE_COLUMNS;
            let col = i % PALETTE_COLUMNS;
            assert(col * cell_width <= 3 * 16383) by (nonlinear_arith)
                requires col < 4, cell_width <= 16383;
            let area = Area {
                x: rows[row].x.saturating_add(col as u16 * cell_width),
                y: rows[row].y,
                width: cell_width,
                height: 1,
            };
            out.push(Swatch { area, color: self.colors[i] });
            i = i + 1;
        }
        out
    }

    /// The overlay laid out over `area` (first shrunk so that it fits): the
    /// swatches in the upper four fifths, one line per row of four, and below
    /// them a preview of the highlighted color filling the lower fifth. Each
    /// swatch is a quarter of the area wide; the preview spans the area from
    /// side to side.
    pub fn render(&self, area: Area) -> (r: (Vec<Swatch>, Swatch))
        requires
            self.wf(),
        ensures
            r.0@.len() == palette_colors().len(),
            forall|i: int| 0 <= i < r.0@.len() ==> {
                &&& #[trigger] r.0@[i].color == palette_colors()[i]
                &&& r.0@[i].area.x == column_x(area.clamped(), i)
                &&& r.0@[i].area.width == area.clamped().width / 4
                &&& r.0@[i].area.height == 1
            },
            r.1.color == self.highlighted(),
            r.1.area.x == area.clamped().x,
            r.1.area.width == area.clamped().width,
    {
        let extents: Vec<Extent> = vec![Extent::Percent(80), Extent::Percent(20)];
        let parts = split(area, true, &extents);
        let num_rows: usize = (self.colors.len() + PALETTE_COLUMNS - 1) / PALETTE_COLUMNS;
        let mut row_extents: Vec<Extent> = Vec::new();
        let mut k: usize = 0;
        while k < num_rows
            invariant
                num_rows == 2,
                k <= num_rows,
                row_extents@.len() == k,
                forall|j: int| 0 <= j < k ==> #[trigger] row_extents@[j] == Extent::Length(1),
            decreases num_rows - k,
        {
            row_extents.push(Extent::Length(1));
            k = k + 1;
        }
        let rows = split(parts[0], true, &row_extents);
        let swatches = self.swatches(&rows);
        let preview = Swatch { area: parts[1], color: self.selected() };
        let ghost a = area.clamped();
        assert forall|i: int| 0 <= i < swatches@.len() implies {
            &&& #[trigger] swatches@[i].color == palette_colors()[i]
            &&& swatches@[i].area.x == column_x(a, i)
            &&& swatches@[i].area.width == a.width / 4
            &&& swatches@[i].area.height == 1
        } by {
            assert(swatches@[i] == swatch(rows@, i));
            assert(parts@[0].x == a.x && parts@[0].width == a.width);
            assert(parts@[0].clamped().x == a.x && parts@[0].clamped().width == a.width);
            assert(0 <= i / 4 < 2);
            assert(rows@[i / 4].x == a.x);
            assert(rows@[0].width == a.width);
            let c = i % 4;
            let w = a.width as int;
            assert(c * (w / 4) <= w) by (nonlinear_arith)
                requires 0 <= c < 4, 0 <= w;
        }
        (swatches, preview)
    }
}

} // verus!
