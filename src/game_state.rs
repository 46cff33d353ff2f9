use vstd::prelude::*;

verus! {

/// The phase the game is in. The world exists only while playing.
#[derive(Debug, Clone, Copy, PartialEq, Eq, Hash, Structural)]
pub enum GameState {
    MainMenu,
    Playing,
    Paused,
}

impl Default for GameState {
    fn default() -> (r: GameState)
        ensures
            r == GameState::MainMenu,
    {
        GameState::MainMenu
    }
}

/// A construction tool that the player can pick from the toolbar.
#[derive(Debug, Clone, Copy, PartialEq, Eq, Structural)]
pub enum Tool {
    NoTool,
    LivingModule,
    OxygenPlant,
    PowerCable,
    ScienceLab,
    Telescope,
    HeliumMine,
}

/// The single, globally chosen construction tool.
#[derive(Debug, Clone, Copy, PartialEq, Eq, Structural)]
pub struct SelectedTool {
    pub tool: Tool,
}

impl SelectedTool {
    /// Nothing chosen yet.
    pub fn new() -> (r: SelectedTool)
        ensures
            r.tool == Tool::NoTool,
    {
        SelectedTool { tool: Tool::NoTool }
    }

    /// Replaces the current selection with `tool`; no earlier choice is kept.
    pub fn select(&mut self, tool: Tool)
        ensures
            *final(self) == selection_after(*old(self), tool),
            *final(self) == (SelectedTool { tool }),
    {
        self.tool = tool;
    }

    /// The tool to place where the player clicked, if a click came and a
    /// tool is chosen.
    pub fn placement(&self, clicked: bool) -> (r: Option<Tool>)
        ensures
            r == (if clicked && self.tool != Tool::NoTool {
                Some(self.tool)
            } else {
                None
            }),
    {
        if clicked && self.tool != Tool::NoTool {
            Some(self.tool)
        } else {
            None
        }
    }

    /// The current selection, `Tool::NoTool` when nothing is chosen.
    pub fn current(&self) -> (r: Tool)
        ensures
            r == self.tool,
    {
        self.tool
    }
}

/// The selection that results from choosing `tool`, whatever was chosen before.
pub open spec fn selection_after(s: SelectedTool, tool: Tool) -> SelectedTool {
    SelectedTool { tool }
}

/// Choosing `a` and then `b` leaves exactly `b` selected: no history is kept.
pub proof fn last_selection_wins(s: SelectedTool, a: Tool, b: Tool)
    ensures
        selection_after(selection_after(s, a), b) == (SelectedTool { tool: b }),
        selection_after(selection_after(s, a), b) == selection_after(s, b),
{
}

/// The tools offered by the side toolbar, top to bottom.
pub fn toolbar_tools() -> (r: Vec<Tool>)
    ensures
        r@ == seq![
            Tool::LivingModule,
            Tool::OxygenPlant,
            Tool::PowerCable,
            Tool::ScienceLab,
            Tool::Telescope,
            Tool::HeliumMine,
        ],
{
    vec![
        Tool::LivingModule,
        Tool::OxygenPlant,
        Tool::PowerCable,
        Tool::ScienceLab,
        Tool::Telescope,
        Tool::HeliumMine,
    ]
}

} // verus!
