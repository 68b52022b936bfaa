use vstd::prelude::*;
use crate::area::Area;
use crate::layout::{split, Extent};

verus! {

/// The drawing tools. Exactly one is active at a time.
#[derive(Clone, Copy, Debug, PartialEq, Eq, Structural)]
pub enum Tool {
    Pencil,
    Eraser,
    ColorPicker,
}

impl Tool {
    /// The caption shown on the tool's button.
    pub fn label(&self) -> (r: &'static str)
        ensures
            r@ == match *self {
                Tool::Pencil => "1 Pencil"@,
                Tool::Eraser => "2 Eraser"@,
                Tool::ColorPicker => "3 Color Picker"@,
            },
    {
        match self {
            Tool::Pencil => "1 Pencil",
            Tool::Eraser => "2 Eraser",
            Tool::ColorPicker => "3 Color Picker",
        }
    }
}

/// One button of the tool bar.
#[derive(Clone, Copy, Debug, PartialEq, Eq, Structural)]
pub struct ToolButton {
    pub area: Area,
    pub tool: Tool,
    /// Whether the button is drawn highlighted.
    pub active: bool,
}

/// The tool bar: which tool is active.
pub struct ToolsWidget {
    pub selected_tool: Tool,
}

/// The order of the buttons, left to right.
pub open spec fn tool_order() -> Seq<Tool> {
    seq![Tool::Pencil, Tool::Eraser, Tool::ColorPicker]
}

impl ToolsWidget {
    /// A tool bar with the pencil active.
    pub fn new() -> (r: ToolsWidget)
        ensures
            r.selected_tool == Tool::Pencil,
    {
        ToolsWidget { selected_tool: Tool::Pencil }
    }

    /// Makes `tool` the active one.
    pub fn select(&mut self, tool: Tool)
        ensures
            final(self).selected_tool == tool,
    {
        self.selected_tool = tool;
    }

    /// Button `i` of the bar when `chunks` are its three parts.
    pub open spec fn button(&self, chunks: Seq<Area>, i: int) -> ToolButton {
        ToolButton {
            area: chunks[i],
            tool: tool_order()[i],
            active: tool_order()[i] == self.selected_tool,
        }
    }

    /// The buttons of the bar placed in `chunks`, its parts from left to
    /// right: Pencil, Eraser and Color Picker, the active one highlighted.
    pub fn buttons(&self, chunks: &Vec<Area>) -> (r: Vec<ToolButton>)
        requires
            chunks@.len() == 3,
        ensures
            r@.len() == 3,
            forall|i: int| 0 <= i < 3 ==> #[trigger] r@[i] == self.button(chunks@, i),
    {
        let tools: Vec<Tool> = vec![Tool::Pencil, Tool::Eraser, Tool::ColorPicker];
        assert(tools@ == tool_order());
        let mut buttons: Vec<ToolButton> = Vec::new();
        let mut i: usize = 0;
        while i < 3
            invariant
                i <= 3,
                chunks@.len() == 3,
                tools@ == tool_order(),
                buttons@.len() == i,
                forall|j: int| 0 <= j < i ==> #[trigger] buttons@[j] == self.button(chunks@, j),
            decreases 3 - i,
        {
            let tool = tools[i];
            buttons.push(ToolButton { area: chunks[i], tool, active: tool == self.selected_tool });
            i = i + 1;
        }
        buttons
    }

    /// The buttons of the bar laid out over `area` in three equal parts, side
    /// by side, each as tall as the area.
    pub fn render(&self, area: Area) -> (r: Vec<ToolButton>)
        ensures
            r@.len() == 3,
            forall|i: int| 0 <= i < 3 ==> {
                &&& #[trigger] r@[i].tool == tool_order()[i]
                &&& r@[i].active == (tool_order()[i] == self.selected_tool)
                &&& r@[i].area.y == area.clamped().y
                &&& r@[i].area.height == area.clamped().height
            },
    {
        let extents: Vec<Extent> = vec![Extent::Percent(33), Extent::Percent(33), Extent::Percent(33)];
        let chunks = split(area, false, &extents);
        let r = self.buttons(&chunks);
        assert forall|i: int| 0 <= i < 3 implies #[trigger] r@[i].tool == tool_order()[i]
            && r@[i].active == (tool_order()[i] == self.selected_tool)
            && r@[i].area.y == area.clamped().y
            && r@[i].area.height == area.clamped().height by {
            assert(r@[i] == self.button(chunks@, i));
            assert(chunks@[i].y == area.clamped().y);
        }
        r
    }
}

} // verus!
