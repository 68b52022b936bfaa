//! A pixel-art canvas: a fixed grid of colored cells with a cursor, a tool
//! selector, a palette overlay, and the key dispatcher that ties them together.
//! Every screen region is computed here as plain rectangles; drawing them is
//! left to the terminal front end.

pub mod area;
pub mod canvas;
pub mod editor;
pub mod key;
pub mod layout;
pub mod palette;
pub mod tools;

pub use area::Area;
pub use canvas::{CellColor, CellPaint, DrawingWidget, Mark};
pub use editor::{App, Mode, Screen, CANVAS_SIZE};
pub use key::Key;
pub use layout::Extent;
pub use palette::{ColorPickerOverlay, Swatch, PALETTE_COLUMNS};
pub use tools::{Tool, ToolButton, ToolsWidget};
