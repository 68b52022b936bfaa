use vstd::prelude::*;
use vstd::arithmetic::div_mod::{lemma_fundamental_div_mod, lemma_fundamental_div_mod_converse};
use vstd::arithmetic::mul::lemma_mul_inequality;
use crate::area::Area;

verus! {

/// The color of one canvas cell. `Reset` is the unset color of a blank cell
/// and is never offered as a paint color.
#[derive(Clone, Copy, Debug, PartialEq, Eq, Structural)]
pub enum CellColor {
    Reset,
    Black,
    Red,
    Green,
    Yellow,
    Blue,
    Magenta,
    Cyan,
    White,
}

/// What is drawn in one rectangle of the canvas area.
#[derive(Clone, Copy, Debug, PartialEq, Eq, Structural)]
pub enum Mark {
    /// A cell shown in its stored color.
    Paint(CellColor),
    /// The cursor highlight, drawn over whatever the cell holds.
    Cursor,
}

/// One rectangle of the canvas drawing and what goes in it.
#[derive(Clone, Copy, Debug, PartialEq, Eq, Structural)]
pub struct CellPaint {
    pub area: Area,
    pub mark: Mark,
}

/// Same mark, left edge and width: two paints that agree across a row.
pub open spec fn same_columns(p: CellPaint, q: CellPaint) -> bool {
    p.mark == q.mark && p.area.x == q.area.x && p.area.width == q.area.width
}

/// A fixed-size grid of colors stored row by row, with a cursor.
pub struct DrawingWidget {
    pub width: usize,
    pub height: usize,
    pub cells: Vec<CellColor>,
    pub cursor: (usize, usize),
}

/// Position in the row-major storage of the cell at column `x`, row `y`.
pub open spec fn cell_index(width: int, x: int, y: int) -> int {
    y * width + x
}

/// New cursor coordinate after adding `delta`: the move is dropped when it
/// would leave `[0, bound)`.
pub open spec fn shifted(pos: int, delta: int, bound: int) -> int {
    if 0 <= pos + delta < bound {
        pos + delta
    } else {
        pos
    }
}

/// The rectangle of the cell at column `x`, row `y` when a `width` by
/// `height` grid is laid out over `area`.
pub open spec fn cell_area(area: Area, width: int, height: int, x: int, y: int) -> Area {
    Area {
        x: (area.x + x * (area.width as int / width)) as u16,
        y: (area.y + y * (area.height as int / height)) as u16,
        width: (area.width as int / width) as u16,
        height: (area.height as int / height) as u16,
    }
}

proof fn lemma_cell_index_bounds(width: int, height: int, x: int, y: int)
    requires
        0 <= x < width,
        0 <= y < height,
    ensures
        0 <= cell_index(width, x, y) < width * height,
{
    assert(0 <= y * width) by (nonlinear_arith)
        requires 0 <= y, 0 < width;
    assert((y + 1) * width <= height * width) by (nonlinear_arith)
        requires y + 1 <= height, 0 < width;
    assert((y + 1) * width == y * width + width) by (nonlinear_arith);
    assert(height * width == width * height) by (nonlinear_arith);
}

proof fn lemma_cell_index_unique(width: int, x1: int, y1: int, x2: int, y2: int)
    requires
        0 <= x1 < width,
        0 <= x2 < width,
        0 <= y1,
        0 <= y2,
        cell_index(width, x1, y1) == cell_index(width, x2, y2),
    ensures
        x1 == x2,
        y1 == y2,
{
    let k = cell_index(width, x1, y1);
    lemma_fundamental_div_mod_converse(k, width, y1, x1);
    lemma_fundamental_div_mod_converse(k, width, y2, x2);
}

/// A coordinate of cell `x` laid over `extent` terminal cells split among
/// `count` cells stays within the extent.
proof fn lemma_offset_fits(extent: int, count: int, x: int)
    requires
        0 <= x < count,
        0 <= extent,
    ensures
        0 <= x * (extent / count) <= extent,
        0 <= extent / count <= extent,
{
    lemma_fundamental_div_mod(extent, count);
    assert(0 <= extent / count);
    lemma_mul_inequality(x, count, extent / count);
    assert(x * (extent / count) <= count * (extent / count)) by (nonlinear_arith)
        requires 0 <= x < count, 0 <= extent / count;
    assert(0 <= x * (extent / count)) by (nonlinear_arith)
        requires 0 <= x, 0 <= extent / count;
    assert(extent / count <= extent) by (nonlinear_arith)
        requires 1 <= count, 0 <= extent, extent == count * (extent / count) + extent % count,
            0 <= extent % count, 0 <= extent / count;
}

impl DrawingWidget {
    /// The grid keeps its shape and the cursor stays on it.
    pub open spec fn wf(&self) -> bool {
        &&& self.width > 0
        &&& self.height > 0
        &&& self.width * self.height <= usize::MAX
        &&& self.cells@.len() == self.width * self.height
        &&& self.cursor.0 < self.width
        &&& self.cursor.1 < self.height
    }

    /// The color stored at column `x`, row `y`.
    pub open spec fn cell(&self, x: int, y: int) -> CellColor {
        self.cells@[cell_index(self.width as int, x, y)]
    }

    pub open spec fn in_bounds(&self, x: int, y: int) -> bool {
        0 <= x < self.width && 0 <= y < self.height
    }

    /// Same shape, cursor and cells as `before`.
    pub open spec fn same_as(&self, before: &DrawingWidget) -> bool {
        &&& self.width == before.width
        &&& self.height == before.height
        &&& self.cursor == before.cursor
        &&& self.cells@ == before.cells@
    }

    /// `before` with the cell under the cursor set to `color`, and nothing
    /// else changed.
    pub open spec fn painted_from(&self, before: &DrawingWidget, color: CellColor) -> bool {
        &&& self.width == before.width
        &&& self.height == before.height
        &&& self.cursor == before.cursor
        &&& forall|i: int, j: int| self.in_bounds(i, j) ==> #[trigger] self.cell(i, j) == if i
            == before.cursor.0 && j == before.cursor.1 {
            color
        } else {
            before.cell(i, j)
        }
    }

    /// What `render` puts at position `k` of its result, for `k` below the
    /// number of cells: the cells row by row.
    pub open spec fn cell_paint(&self, area: Area, k: int) -> CellPaint {
        let x = k % (self.width as int);
        let y = k / (self.width as int);
        CellPaint {
            area: cell_area(area, self.width as int, self.height as int, x, y),
            mark: Mark::Paint(self.cell(x, y)),
        }
    }

    /// The canvas laid out over `area` (first shrunk so that it fits): each
    /// cell gets an equal rectangle, the cells listed row by row, and last
    /// comes the cursor highlight over the cursor's cell. The stored colors are
    /// not touched.
    pub fn render(&self, area: Area) -> (r: Vec<CellPaint>)
        requires
            self.wf(),
            self.width <= u16::MAX,
            self.height <= u16::MAX,
        ensures
            r@.len() == self.width * self.height + 1,
            forall|k: int| 0 <= k < self.width * self.height ==> #[trigger] r@[k] == self.cell_paint(area.clamped(), k),
            r@[self.width * self.height] == self.cursor_paint(area.clamped()),
    {
        let a = Area::new(area.x, area.y, area.width, area.height);
        let w = self.width;
        let h = self.height;
        let cell_width: u16 = a.width / (w as u16);
        let cell_height: u16 = a.height / (h as u16);
        let mut out: Vec<CellPaint> = Vec::new();
        let mut y: usize = 0;
        while y < h
            invariant
                self.wf(),
                w == self.width,
                h == self.height,
                w <= u16::MAX,
                h <= u16::MAX,
                a == area.clamped(),
                a.fits(),
                cell_width == a.width as int / w as int,
                cell_height == a.height as int / h as int,
                y <= h,
                out@.len() == y * w,
                forall|k: int| 0 <= k < out@.len() ==> #[trigger] out@[k] == self.cell_paint(a, k),
            decreases h - y,
        {
            let mut x: usize = 0;
            while x < w
                invariant
                    self.wf(),
                    w == self.width,
                    h == self.height,
                    w <= u16::MAX,
                    h <= u16::MAX,
                    a == area.clamped(),
                    a.fits(),
                    cell_width == a.width as int / w as int,
                    cell_height == a.height as int / h as int,
                    y < h,
                    x <= w,
                    out@.len() == y * w + x,
                    forall|k: int| 0 <= k < out@.len() ==> #[trigger] out@[k] == self.cell_paint(a, k),
                decreases w - x,
            {
                proof {
                    lemma_cell_index_bounds(w as int, h as int, x as int, y as int);
                    lemma_offset_fits(a.width as int, w as int, x as int);
                    lemma_offset_fits(a.height as int, h as int, y as int);
                    lemma_fundamental_div_mod_converse(y * w + x, w as int, y as int, x as int);
                }
                let rect = Area {
                    x: a.x + (x as u16) * cell_width,
                    y: a.y + (y as u16) * cell_height,
                    width: cell_width,
                    height: cell_height,
                };
                out.push(CellPaint { area: rect, mark: Mark::Paint(self.cells[y * w + x]) });
                x = x + 1;
            }
            assert((y + 1) * w == y * w + w) by (nonlinear_arith);
            y = y + 1;
        }
        assert(out@.len() == w * h) by (nonlinear_arith)
            requires out@.len() == y * w, y == h;
        let (cx, cy) = self.cursor;
        proof {
            lemma_offset_fits(a.width as int, w as int, cx as int);
            lemma_offset_fits(a.height as int, h as int, cy as int);
        }
        let rect = Area {
            x: a.x + (cx as u16) * cell_width,
            y: a.y + (cy as u16) * cell_height,
            width: cell_width,
            height: cell_height,
        };
        out.push(CellPaint { area: rect, mark: Mark::Cursor });
        out
    }

    /// The cursor highlight over `area`, on the cursor's cell.
    pub open spec fn cursor_paint(&self, area: Area) -> CellPaint {
        CellPaint {
            area: cell_area(area, self.width as int, self.height as int, self.cursor.0 as int, self.cursor.1 as int),
            mark: Mark::Cursor,
        }
    }

    /// A blank `width` by `height` grid with the cursor at the top-left cell.
    pub fn new(width: usize, height: usize) -> (r: DrawingWidget)
        requires
            width > 0,
            height > 0,
            width * height <= usize::MAX,
        ensures
            r.wf(),
            r.width == width,
            r.height == height,
            r.cursor == (0usize, 0usize),
            forall|x: int, y: int| r.in_bounds(x, y) ==> #[trigger] r.cell(x, y) == CellColor::Reset,
    {
        let n: usize = width * height;
        let mut cells: Vec<CellColor> = Vec::new();
        while cells.len() < n
            invariant
                cells@.len() <= n,
                forall|i: int| 0 <= i < cells@.len() ==> cells@[i] == CellColor::Reset,
            decreases n - cells@.len(),
        {
            cells.push(CellColor::Reset);
        }
        let r = DrawingWidget { width, height, cells, cursor: (0, 0) };
        assert forall|x: int, y: int| r.in_bounds(x, y) implies #[trigger] r.cell(x, y) == CellColor::Reset by {
            lemma_cell_index_bounds(width as int, height as int, x, y);
        }
        r
    }

    /// Moves the cursor by `dx` columns and `dy` rows. On each axis the move
    /// is dropped if it would leave the grid; the other axis still moves.
    pub fn move_cursor(&mut self, dx: isize, dy: isize)
        requires
            old(self).wf(),
        ensures
            final(self).wf(),
            final(self).cursor.0 == shifted(old(self).cursor.0 as int, dx as int, old(self).width as int),
            final(self).cursor.1 == shifted(old(self).cursor.1 as int, dy as int, old(self).height as int),
            final(self).width == old(self).width,
            final(self).height == old(self).height,
            final(self).cells@ == old(self).cells@,
    {
        let new_x: i128 = self.cursor.0 as i128 + dx as i128;
        let new_y: i128 = self.cursor.1 as i128 + dy as i128;
        if new_x >= 0 && new_x < self.width as i128 {
            self.cursor.0 = new_x as usize;
        }
        if new_y >= 0 && new_y < self.height as i128 {
            self.cursor.1 = new_y as usize;
        }
    }

    /// The color stored at column `x`, row `y`.
    pub fn cell_color(&self, x: usize, y: usize) -> (r: CellColor)
        requires
            self.wf(),
            self.in_bounds(x as int, y as int),
        ensures
            r == self.cell(x as int, y as int),
    {
        proof {
            lemma_cell_index_bounds(self.width as int, self.height as int, x as int, y as int);
        }
        self.cells[y * self.width + x]
    }

    /// Writes `color` at column `x`, row `y`; coordinates off the grid leave
    /// it unchanged.
    pub fn set_cell_color(&mut self, x: usize, y: usize, color: CellColor)
        requires
            old(self).wf(),
        ensures
            final(self).wf(),
            final(self).width == old(self).width,
            final(self).height == old(self).height,
            final(self).cursor == old(self).cursor,
            !old(self).in_bounds(x as int, y as int) ==> final(self).cells@ == old(self).cells@,
            forall|i: int, j: int| final(self).in_bounds(i, j) ==> #[trigger] final(self).cell(i, j) == if i == x && j == y {
                color
            } else {
                old(self).cell(i, j)
            },
    {
        if x < self.width && y < self.height {
            proof {
                lemma_cell_index_bounds(self.width as int, self.height as int, x as int, y as int);
            }
            let k: usize = y * self.width + x;
            self.cells.set(k, color);
            assert forall|i: int, j: int| self.in_bounds(i, j) implies #[trigger] self.cell(i, j) == if i == x && j == y {
                color
            } else {
                old(self).cell(i, j)
            } by {
                lemma_cell_index_bounds(self.width as int, self.height as int, i, j);
                if cell_index(self.width as int, i, j) == k as int {
                    lemma_cell_index_unique(self.width as int, i, j, x as int, y as int);
                }
            }
        }
    }
}

} // verus!
