use pixel_paint::{App, Area, CellColor, ColorPickerOverlay, DrawingWidget, Key, Mark, Mode, Tool, ToolsWidget};

fn blank_except(canvas: &DrawingWidget, x: usize, y: usize, color: CellColor) {
    for j in 0..canvas.height {
        for i in 0..canvas.width {
            let expected = if i == x && j == y { color } else { CellColor::Reset };
            assert_eq!(canvas.cell_color(i, j), expected, "cell ({}, {})", i, j);
        }
    }
}

fn choose_color(app: &mut App, rights: usize) {
    app.handle_input(Key::Char('3'));
    for _ in 0..rights {
        app.handle_input(Key::Right);
    }
    app.handle_input(Key::Enter);
}

#[test]
fn new_app_starts_blank_with_pencil_and_white() {
    let app = App::new();
    assert_eq!(app.drawing_widget.width, 16);
    assert_eq!(app.drawing_widget.height, 16);
    assert_eq!(app.drawing_widget.cursor, (0, 0));
    assert_eq!(app.tools_widget.selected_tool, Tool::Pencil);
    assert_eq!(app.selected_color, CellColor::White);
    assert!(matches!(app.mode, Mode::Normal));
    blank_except(&app.drawing_widget, 99, 99, CellColor::Reset);
}

#[test]
fn pencil_paints_red_after_moves() {
    let mut app = App::new();
    choose_color(&mut app, 1);
    assert_eq!(app.selected_color, CellColor::Red);
    assert_eq!(app.drawing_widget.cursor, (0, 0));
    for key in [Key::Right, Key::Right, Key::Down, Key::Char(' ')] {
        app.handle_input(key);
    }
    assert_eq!(app.drawing_widget.cursor, (2, 1));
    blank_except(&app.drawing_widget, 2, 1, CellColor::Red);
}

#[test]
fn confirming_default_palette_picks_black() {
    let mut app = App::new();
    app.handle_input(Key::Char('3'));
    assert!(matches!(&app.mode, Mode::PaletteOpen(o) if o.selected_color == 0));
    app.handle_input(Key::Enter);
    assert!(matches!(app.mode, Mode::Normal));
    assert_eq!(app.selected_color, CellColor::Black);
}

#[test]
fn eraser_resets_painted_cell() {
    let mut app = App::new();
    choose_color(&mut app, 1);
    app.handle_input(Key::Char(' '));
    assert_eq!(app.drawing_widget.cell_color(0, 0), CellColor::Red);
    app.handle_input(Key::Char('2'));
    assert_eq!(app.tools_widget.selected_tool, Tool::Eraser);
    app.handle_input(Key::Char(' '));
    assert_eq!(app.drawing_widget.cell_color(0, 0), CellColor::Reset);
}

#[test]
fn confirm_takes_color_highlighted_at_that_time() {
    let mut app = App::new();
    app.handle_input(Key::Char('3'));
    app.handle_input(Key::Down);
    app.handle_input(Key::Right);
    app.handle_input(Key::Right);
    app.handle_input(Key::Left);
    app.handle_input(Key::Enter);
    assert!(matches!(app.mode, Mode::Normal));
    assert_eq!(app.selected_color, CellColor::Magenta);
}

#[test]
fn palette_swallows_canvas_keys() {
    let mut app = App::new();
    app.handle_input(Key::Char('3'));
    app.handle_input(Key::Char('2'));
    app.handle_input(Key::Char(' '));
    app.handle_input(Key::Right);
    assert_eq!(app.tools_widget.selected_tool, Tool::Pencil);
    assert_eq!(app.drawing_widget.cursor, (0, 0));
    blank_except(&app.drawing_widget, 99, 99, CellColor::Reset);
    assert!(matches!(&app.mode, Mode::PaletteOpen(o) if o.selected_color == 1));
    assert_eq!(app.selected_color, CellColor::White);
}

#[test]
fn reopening_palette_resets_selection() {
    let mut app = App::new();
    choose_color(&mut app, 3);
    assert_eq!(app.selected_color, CellColor::Yellow);
    app.handle_input(Key::Char('3'));
    assert!(matches!(&app.mode, Mode::PaletteOpen(o) if o.selected_color == 0));
}

#[test]
fn color_picker_tool_does_not_paint() {
    let mut app = App::new();
    app.tools_widget.select(Tool::ColorPicker);
    app.handle_input(Key::Char(' '));
    blank_except(&app.drawing_widget, 99, 99, CellColor::Reset);
}

#[test]
fn other_keys_are_ignored() {
    let mut app = App::new();
    app.handle_input(Key::Other);
    app.handle_input(Key::Char('x'));
    app.handle_input(Key::Enter);
    assert!(matches!(app.mode, Mode::Normal));
    assert_eq!(app.drawing_widget.cursor, (0, 0));
    assert_eq!(app.selected_color, CellColor::White);
    blank_except(&app.drawing_widget, 99, 99, CellColor::Reset);
}

#[test]
fn tool_keys_switch_tools() {
    let mut app = App::new();
    app.handle_input(Key::Char('2'));
    assert_eq!(app.tools_widget.selected_tool, Tool::Eraser);
    app.handle_input(Key::Char('1'));
    assert_eq!(app.tools_widget.selected_tool, Tool::Pencil);
    assert_eq!(ToolsWidget::new().selected_tool, Tool::Pencil);
}

#[test]
fn cursor_clamps_each_axis_separately() {
    let mut canvas = DrawingWidget::new(4, 3);
    canvas.move_cursor(-1, 1);
    assert_eq!(canvas.cursor, (0, 1));
    canvas.move_cursor(3, 5);
    assert_eq!(canvas.cursor, (3, 1));
    canvas.move_cursor(1, 1);
    assert_eq!(canvas.cursor, (3, 2));
    canvas.move_cursor(isize::MIN, isize::MAX);
    assert_eq!(canvas.cursor, (3, 2));
    canvas.move_cursor(-3, -2);
    assert_eq!(canvas.cursor, (0, 0));
}

#[test]
fn cursor_stays_in_grid_for_many_moves() {
    let mut canvas = DrawingWidget::new(5, 2);
    let deltas: [isize; 7] = [-7, -1, 0, 1, 2, 4, 9];
    for &dx in deltas.iter() {
        for &dy in deltas.iter() {
            let (x, y) = canvas.cursor;
            canvas.move_cursor(dx, dy);
            assert!(canvas.cursor.0 < 5 && canvas.cursor.1 < 2);
            let nx = x as isize + dx;
            let ny = y as isize + dy;
            let ex = if (0..5).contains(&nx) { nx as usize } else { x };
            let ey = if (0..2).contains(&ny) { ny as usize } else { y };
            assert_eq!(canvas.cursor, (ex, ey));
        }
    }
}

#[test]
fn set_cell_out_of_bounds_is_ignored() {
    let mut canvas = DrawingWidget::new(3, 2);
    canvas.set_cell_color(1, 1, CellColor::Blue);
    canvas.set_cell_color(3, 0, CellColor::Red);
    canvas.set_cell_color(0, 2, CellColor::Red);
    canvas.set_cell_color(usize::MAX, usize::MAX, CellColor::Red);
    blank_except(&canvas, 1, 1, CellColor::Blue);
}

#[test]
fn set_cell_overwrites() {
    let mut canvas = DrawingWidget::new(3, 2);
    canvas.set_cell_color(2, 1, CellColor::Cyan);
    canvas.set_cell_color(2, 1, CellColor::Green);
    blank_except(&canvas, 2, 1, CellColor::Green);
}

#[test]
fn fresh_palette_selects_first_color() {
    let overlay = ColorPickerOverlay::new();
    assert_eq!(overlay.selected_color, 0);
    assert_eq!(overlay.colors.len(), 8);
    assert_eq!(overlay.selected(), CellColor::Black);
}

fn moved(start: usize, key: Key) -> usize {
    let mut overlay = ColorPickerOverlay::new();
    overlay.selected_color = start;
    overlay.handle_input(key);
    overlay.selected_color
}

#[test]
fn palette_edges_are_no_ops() {
    assert_eq!(moved(0, Key::Up), 0);
    assert_eq!(moved(7, Key::Down), 7);
    assert_eq!(moved(0, Key::Left), 0);
    assert_eq!(moved(7, Key::Right), 7);
    assert_eq!(moved(3, Key::Down), 7);
    assert_eq!(moved(4, Key::Down), 4);
    assert_eq!(moved(3, Key::Up), 3);
    assert_eq!(moved(5, Key::Enter), 5);
}

#[test]
fn palette_left_right_cross_rows() {
    assert_eq!(moved(3, Key::Right), 4);
    assert_eq!(moved(4, Key::Left), 3);
}

#[test]
fn palette_moves_undo_each_other() {
    for i in 4..8 {
        assert_eq!(moved(moved(i, Key::Up), Key::Down), i);
    }
    for i in 1..8 {
        assert_eq!(moved(moved(i, Key::Left), Key::Right), i);
    }
}

#[test]
fn tool_labels() {
    assert_eq!(Tool::Pencil.label(), "1 Pencil");
    assert_eq!(Tool::Eraser.label(), "2 Eraser");
    assert_eq!(Tool::ColorPicker.label(), "3 Color Picker");
}

#[test]
fn area_new_shrinks_to_fit() {
    assert_eq!(Area::new(65530, 65000, 100, 10), Area { x: 65530, y: 65000, width: 5, height: 10 });
    assert_eq!(Area::new(1, 2, 3, 4), Area { x: 1, y: 2, width: 3, height: 4 });
}

#[test]
fn canvas_render_lays_out_cells_and_cursor() {
    let mut canvas = DrawingWidget::new(4, 2);
    canvas.set_cell_color(1, 1, CellColor::Red);
    canvas.move_cursor(2, 1);
    let paints = canvas.render(Area { x: 10, y: 5, width: 9, height: 7 });
    assert_eq!(paints.len(), 9);
    assert_eq!(paints[0].area, Area { x: 10, y: 5, width: 2, height: 3 });
    assert_eq!(paints[0].mark, Mark::Paint(CellColor::Reset));
    assert_eq!(paints[5].area, Area { x: 12, y: 8, width: 2, height: 3 });
    assert_eq!(paints[5].mark, Mark::Paint(CellColor::Red));
    assert_eq!(paints[8].area, Area { x: 14, y: 8, width: 2, height: 3 });
    assert_eq!(paints[8].mark, Mark::Cursor);
    assert_eq!(canvas.cell_color(2, 1), CellColor::Reset);
}

#[test]
fn canvas_render_in_narrow_area() {
    let canvas = DrawingWidget::new(3, 3);
    let paints = canvas.render(Area { x: 65534, y: 0, width: 9, height: 2 });
    assert_eq!(paints.len(), 10);
    assert!(paints.iter().all(|p| p.area.width == 0 && p.area.height == 0 && p.area.x == 65534));
}

#[test]
fn tool_bar_has_three_parts_in_order() {
    let mut tools = ToolsWidget::new();
    tools.select(Tool::Eraser);
    let area = Area { x: 0, y: 20, width: 90, height: 2 };
    let buttons = tools.render(area);
    assert_eq!(buttons.len(), 3);
    assert_eq!(buttons[0].tool, Tool::Pencil);
    assert_eq!(buttons[1].tool, Tool::Eraser);
    assert_eq!(buttons[2].tool, Tool::ColorPicker);
    assert_eq!(buttons.iter().map(|b| b.active).collect::<Vec<_>>(), vec![false, true, false]);
    assert_eq!(buttons[0].area.x, 0);
    assert!(buttons[0].area.x < buttons[1].area.x && buttons[1].area.x < buttons[2].area.x);
    assert!(buttons.iter().all(|b| b.area.y == 20 && b.area.height == 2 && b.area.width < 90));
}

#[test]
fn screen_without_palette() {
    let app = App::new();
    let screen = app.render(Area { x: 0, y: 0, width: 32, height: 20 });
    assert_eq!(screen.cells.len(), 257);
    assert_eq!(screen.buttons.len(), 3);
    assert!(screen.overlay.is_none());
    assert_eq!(screen.cells[256].mark, Mark::Cursor);
    assert_eq!(screen.cells[0].area.x, 0);
    assert_eq!(screen.cells[0].area.width, 2);
    assert!(screen.buttons.iter().all(|b| b.area.y >= 16));
    assert!(screen.buttons[0].active);
}

#[test]
fn screen_with_palette() {
    let mut app = App::new();
    app.handle_input(Key::Char('3'));
    app.handle_input(Key::Right);
    app.handle_input(Key::Right);
    let screen = app.render(Area { x: 0, y: 0, width: 40, height: 10 });
    let (swatches, preview) = screen.overlay.expect("palette is open");
    assert_eq!(swatches.len(), 8);
    assert_eq!(swatches[0].area, Area { x: 0, y: 0, width: 10, height: 1 });
    assert_eq!(swatches[5].area, Area { x: 10, y: 1, width: 10, height: 1 });
    assert_eq!(swatches[5].color, CellColor::Magenta);
    assert_eq!(preview.color, CellColor::Green);
    assert_eq!(preview.area, Area { x: 0, y: 8, width: 40, height: 2 });
}

#[test]
fn buttons_take_given_parts() {
    let tools = ToolsWidget::new();
    let chunks = vec![
        Area { x: 0, y: 3, width: 5, height: 1 },
        Area { x: 5, y: 3, width: 6, height: 1 },
        Area { x: 11, y: 3, width: 7, height: 1 },
    ];
    let buttons = tools.buttons(&chunks);
    assert_eq!(buttons.len(), 3);
    for i in 0..3 {
        assert_eq!(buttons[i].area, chunks[i]);
    }
    assert_eq!(buttons[0].tool, Tool::Pencil);
    assert_eq!(buttons[2].tool, Tool::ColorPicker);
    assert_eq!(buttons.iter().map(|b| b.active).collect::<Vec<_>>(), vec![true, false, false]);
}
