use vstd::prelude::*;
use crate::area::Area;
use crate::canvas::{same_columns, shifted, CellColor, CellPaint, DrawingWidget};
use crate::key::Key;
use crate::layout::{split, Extent};
use crate::palette::{column_x, palette_colors, palette_step, ColorPickerOverlay, Swatch};
use crate::tools::{tool_order, Tool, ToolButton, ToolsWidget};

verus! {

/// Width and height of the canvas of a new editor.
pub const CANVAS_SIZE: usize = 16;

/// Where key presses go: to the canvas and tools, or to the open palette.
pub enum Mode {
    Normal,
    PaletteOpen(ColorPickerOverlay),
}

/// Everything drawn for one frame.
pub struct Screen {
    /// The canvas cells row by row, then the cursor highlight.
    pub cells: Vec<CellPaint>,
    /// The tool bar buttons.
    pub buttons: Vec<ToolButton>,
    /// With the palette open, its swatches and its preview, drawn over the
    /// whole frame.
    pub overlay: Option<(Vec<Swatch>, Swatch)>,
}

/// The whole editor: canvas, tool bar, paint color and input mode.
pub struct App {
    pub drawing_widget: DrawingWidget,
    pub tools_widget: ToolsWidget,
    pub mode: Mode,
    /// The color the pencil paints with.
    pub selected_color: CellColor,
}

impl App {
    pub open spec fn wf(&self) -> bool {
        &&& self.drawing_widget.wf()
        &&& self.mode matches Mode::PaletteOpen(o) ==> o.wf()
    }

    /// A blank 16 by 16 canvas, the pencil active, white paint, no palette.
    pub fn new() -> (r: App)
        ensures
            r.wf(),
            r.drawing_widget.width == CANVAS_SIZE,
            r.drawing_widget.height == CANVAS_SIZE,
            r.drawing_widget.cursor == (0usize, 0usize),
            forall|x: int, y: int| r.drawing_widget.in_bounds(x, y) ==> #[trigger] r.drawing_widget.cell(x, y) == CellColor::Reset,
            r.tools_widget.selected_tool == Tool::Pencil,
            r.mode is Normal,
            r.selected_color == CellColor::White,
    {
        App {
            drawing_widget: DrawingWidget::new(CANVAS_SIZE, CANVAS_SIZE),
            tools_widget: ToolsWidget::new(),
            mode: Mode::Normal,
            selected_color: CellColor::White,
        }
    }

    /// The frame for a terminal of `area` (first shrunk so that it fits): the
    /// canvas in the upper nine tenths, the tool bar in the lower tenth, and
    /// the palette, if open, over all of it. Canvas cells and palette swatches
    /// are placed across the full width of the area.
    pub fn render(&self, area: Area) -> (r: Screen)
        requires
            self.wf(),
            self.drawing_widget.width <= u16::MAX,
            self.drawing_widget.height <= u16::MAX,
        ensures
            ({
                let a = area.clamped();
                let canvas = self.drawing_widget;
                let n = canvas.width * canvas.height;
                &&& r.cells@.len() == n + 1
                &&& forall|k: int| 0 <= k < n ==> same_columns(#[trigger] r.cells@[k], canvas.cell_paint(a, k))
                &&& same_columns(r.cells@[n], canvas.cursor_paint(a))
                &&& r.buttons@.len() == 3
                &&& forall|i: int| 0 <= i < 3 ==> {
                    &&& #[trigger] r.buttons@[i].tool == tool_order()[i]
                    &&& r.buttons@[i].active == (tool_order()[i] == self.tools_widget.selected_tool)
                }
            }),
            self.mode is Normal ==> r.overlay is None,
            self.mode matches Mode::PaletteOpen(o) ==> (r.overlay matches Some(ov) && {
                let a = area.clamped();
                &&& ov.0@.len() == palette_colors().len()
                &&& forall|i: int| 0 <= i < ov.0@.len() ==> {
                    &&& #[trigger] ov.0@[i].color == palette_colors()[i]
                    &&& ov.0@[i].area.x == column_x(a, i)
                    &&& ov.0@[i].area.width == a.width / 4
                    &&& ov.0@[i].area.height == 1
                }
                &&& ov.1.color == o.highlighted()
                &&& ov.1.area.x == a.x
                &&& ov.1.area.width == a.width
            }),
    {
        let extents: Vec<Extent> = vec![Extent::Percent(90), Extent::Percent(10)];
        let parts = split(area, true, &extents);
        let cells = self.drawing_widget.render(parts[0]);
        let buttons = self.tools_widget.render(parts[1]);
        let ghost a = area.clamped();
        assert(parts@[0].clamped().x == a.x && parts@[0].clamped().width == a.width);
        let overlay = match &self.mode {
            Mode::Normal => None,
            Mode::PaletteOpen(o) => Some(o.render(area)),
        };
        Screen { cells, buttons, overlay }
    }

    /// Handles one key press.
    ///
    /// With the palette open, the key moves its highlight; Enter then closes
    /// it and takes the highlighted color as the paint color. Nothing else
    /// changes.
    ///
    /// Otherwise '1' and '2' pick the pencil and the eraser, '3' opens a fresh
    /// palette, the arrows move the cursor, and space applies the tool at the
    /// cursor: the pencil paints the paint color, the eraser the unset color,
    /// the color picker nothing. Other keys change nothing.
    pub fn handle_input(&mut self, key: Key)
        requires
            old(self).wf(),
        ensures
            final(self).wf(),
            old(self).mode matches Mode::PaletteOpen(o) ==> {
                &&& final(self).drawing_widget.same_as(&old(self).drawing_widget)
                &&& final(self).tools_widget.selected_tool == old(self).tools_widget.selected_tool
                &&& if key == Key::Enter {
                    &&& final(self).mode is Normal
                    &&& final(self).selected_color == o.highlighted()
                } else {
                    &&& final(self).selected_color == old(self).selected_color
                    &&& final(self).mode matches Mode::PaletteOpen(p)
                    &&& p.selected_color == palette_step(o.selected_color as int, key)
                }
            },
            old(self).mode is Normal ==> {
                let before = old(self).drawing_widget;
                let after = final(self).drawing_widget;
                let tool = old(self).tools_widget.selected_tool;
                &&& final(self).selected_color == old(self).selected_color
                &&& key == Key::Char('3') ==> (final(self).mode matches Mode::PaletteOpen(p)
                    && p.selected_color == 0)
                &&& key != Key::Char('3') ==> final(self).mode is Normal
                &&& final(self).tools_widget.selected_tool == match key {
                    Key::Char('1') => Tool::Pencil,
                    Key::Char('2') => Tool::Eraser,
                    _ => tool,
                }
                &&& match key {
                    Key::Up | Key::Down | Key::Left | Key::Right => {
                        &&& after.width == before.width
                        &&& after.height == before.height
                        &&& after.cells@ == before.cells@
                        &&& after.cursor.0 == shifted(before.cursor.0 as int, match key {
                            Key::Left => -1int,
                            Key::Right => 1int,
                            _ => 0int,
                        }, before.width as int)
                        &&& after.cursor.1 == shifted(before.cursor.1 as int, match key {
                            Key::Up => -1int,
                            Key::Down => 1int,
                            _ => 0int,
                        }, before.height as int)
                    },
                    Key::Char(' ') => match tool {
                        Tool::Pencil => after.painted_from(&before, old(self).selected_color),
                        Tool::Eraser => after.painted_from(&before, CellColor::Reset),
                        Tool::ColorPicker => after.same_as(&before),
                    },
                    _ => after.same_as(&before),
                }
            },
    {
        let mut close = false;
        match &mut self.mode {
            Mode::PaletteOpen(overlay) => {
                overlay.handle_input(key);
                if key == Key::Enter {
                    self.selected_color = overlay.selected();
                    close = true;
                }
            },
            Mode::Normal => {
                match key {
                    Key::Char('1') => self.tools_widget.select(Tool::Pencil),
                    Key::Char('2') => self.tools_widget.select(Tool::Eraser),
                    Key::Char('3') => {
                        self.mode = Mode::PaletteOpen(ColorPickerOverlay::new());
                    },
                    Key::Up => self.drawing_widget.move_cursor(0, -1),
                    Key::Down => self.drawing_widget.move_cursor(0, 1),
                    Key::Left => self.drawing_widget.move_cursor(-1, 0),
                    Key::Right => self.drawing_widget.move_cursor(1, 0),
                    Key::Char(' ') => {
                        let (x, y) = self.drawing_widget.cursor;
                        match self.tools_widget.selected_tool {
                            Tool::Pencil => self.drawing_widget.set_cell_color(x, y, self.selected_color),
                            Tool::Eraser => self.drawing_widget.set_cell_color(x, y, CellColor::Reset),
                            Tool::ColorPicker => {},
                        }
                    },
                    _ => {},
                }
            },
        }
        if close {
            self.mode = Mode::Normal;
        }
    }
}

} // verus!
