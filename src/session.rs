use vstd::prelude::*;
use crate::camera::{
    net_scroll, panned, within, zoom_after, CameraView, MoveInput, ScreenPoint, ScrollEvent,
    SCREEN_LIMIT,
};
use crate::dialog::NewGameDialog;
use crate::game_state::{GameState, SelectedTool, Tool};
use crate::grid::{handle_tile_hover, MapTile, WorldGrid};
use crate::mission::{is_defined, Mission};

verus! {

/// The size, in tiles, of the map the camera frames before any mission.
pub const DEFAULT_MAP_SIZE: u32 = 64;

/// Why a session operation did nothing.
#[derive(Debug, Clone, Copy, PartialEq, Eq, Structural)]
pub enum SessionError {
    /// The catalog has no mission with this id.
    UnknownMission(usize),
}

/// Everything one game holds: its phase, the loaded mission and its map, the
/// camera, the chosen tool and the new-game dialog.
pub struct Session {
    pub state: GameState,
    pub mission: Option<Mission>,
    pub grid: Option<WorldGrid>,
    pub camera: CameraView,
    pub tool: SelectedTool,
    pub dialog: NewGameDialog,
}

impl Session {
    /// The camera is valid, and a map exists only for a loaded mission and
    /// has that mission's size.
    pub open spec fn wf(&self) -> bool {
        &&& self.camera.wf()
        &&& self.grid.is_some() ==> self.mission.is_some()
        &&& self.grid matches Some(g) ==> g.wf()
        &&& self.grid matches Some(g) ==> (self.mission matches Some(m) ==> g.width
            == m.map_size.0 && g.height == m.map_size.1)
    }

    /// A fresh session at the main menu, with no world yet and the camera on
    /// the centre of a default-sized map.
    pub fn new() -> (r: Session)
        ensures
            r.wf(),
            r.state == GameState::MainMenu,
            r.mission.is_none(),
            r.grid.is_none(),
            r.camera.position.x == DEFAULT_MAP_SIZE * crate::camera::TILE_SIZE / 2,
            r.camera.position.y == DEFAULT_MAP_SIZE * crate::camera::TILE_SIZE / 2,
            r.camera.zoom == crate::camera::DEFAULT_ZOOM,
            r.tool.tool == Tool::NoTool,
            r.dialog == (NewGameDialog { open: false, selected_mission: 1 }),
    {
        Session {
            state: GameState::default(),
            mission: None,
            grid: None,
            camera: CameraView::centered_on(DEFAULT_MAP_SIZE, DEFAULT_MAP_SIZE),
            tool: SelectedTool::new(),
            dialog: NewGameDialog::default(),
        }
    }

    /// Discards every tile of the map; everything else stays as it was.
    pub fn teardown(&mut self)
        requires
            old(self).wf(),
        ensures
            final(self).wf(),
            final(self).grid.is_none(),
            final(self).mission == old(self).mission,
            final(self).state == old(self).state,
            final(self).camera == old(self).camera,
            final(self).tool == old(self).tool,
            final(self).dialog == old(self).dialog,
    {
        self.grid = None;
    }

    /// Starts mission `mission_id` with terrain drawn from `seed`: the old
    /// map is discarded, the new one generated at the mission's size, the
    /// camera framed on its centre at the default zoom, and play begins.
    /// An unknown id changes nothing and creates no tile.
    pub fn start_mission(&mut self, mission_id: usize, seed: u64) -> (r: Result<(), SessionError>)
        requires
            old(self).wf(),
        ensures
            final(self).wf(),
            !is_defined(mission_id as int) ==> r == Err::<(), SessionError>(
                SessionError::UnknownMission(mission_id),
            ) && *final(self) == *old(self),
            is_defined(mission_id as int) ==> {
                &&& r is Ok
                &&& final(self).state == GameState::Playing
                &&& (final(self).mission matches Some(m) && m.is_first_steps())
                &&& (final(self).grid matches Some(g) && g.width == 64 && g.height == 64)
                &&& final(self).camera == CameraView::centered_spec(64, 64)
                &&& final(self).tool == old(self).tool
                &&& final(self).dialog == old(self).dialog
            },
    {
        let mission = match Mission::find(mission_id) {
            Some(m) => m,
            None => {
                return Err(SessionError::UnknownMission(mission_id));
            },
        };
        self.grid = None;
        self.mission = None;
        let (width, height) = mission.map_size;
        self.camera = CameraView::centered_on(width, height);
        self.grid = Some(WorldGrid::generate(width, height, seed));
        self.mission = Some(mission);
        self.state = GameState::Playing;
        Ok(())
    }

    /// Leaves play for the main menu: the map and mission are discarded,
    /// while the camera and the chosen tool are kept.
    pub fn return_to_menu(&mut self)
        requires
            old(self).wf(),
        ensures
            final(self).wf(),
            final(self).state == GameState::MainMenu,
            final(self).grid.is_none(),
            final(self).mission.is_none(),
            final(self).camera == old(self).camera,
            final(self).tool == old(self).tool,
            final(self).dialog == old(self).dialog,
    {
        self.state = GameState::MainMenu;
        self.teardown();
        self.mission = None;
    }

    /// One tick of input while playing: pan with the held flags for `dt`
    /// microseconds, then zoom by the whole batch of scroll events. Outside
    /// play nothing changes.
    pub fn tick(&mut self, input: MoveInput, dt: u64, scroll: &Vec<ScrollEvent>)
        requires
            old(self).wf(),
        ensures
            final(self).wf(),
            old(self).state != GameState::Playing ==> *final(self) == *old(self),
            old(self).state == GameState::Playing ==> {
                &&& final(self).camera.position == panned(
                    old(self).camera,
                    input,
                    dt as int,
                ).position
                &&& final(self).camera.zoom == zoom_after(
                    old(self).camera.zoom as int,
                    net_scroll(scroll@),
                )
                &&& final(self).state == old(self).state
                &&& final(self).mission == old(self).mission
                &&& final(self).grid == old(self).grid
                &&& final(self).tool == old(self).tool
                &&& final(self).dialog == old(self).dialog
            },
    {
        if self.state != GameState::Playing {
            return;
        }
        self.camera.pan(input, dt);
        self.camera.zoom_by(scroll);
    }

    /// The tile under the screen point `cursor` while playing; nothing
    /// outside play, without a map, or off the map.
    pub fn hovered_tile(&self, cursor: ScreenPoint) -> (r: Option<MapTile>)
        requires
            self.wf(),
            within(cursor.x as int, SCREEN_LIMIT as int),
            within(cursor.y as int, SCREEN_LIMIT as int),
        ensures
            self.state != GameState::Playing || self.grid.is_none() ==> r.is_none(),
            self.state == GameState::Playing ==> (self.grid matches Some(g) ==> r == g.hovered(
                self.camera,
                cursor,
            )),
    {
        if self.state != GameState::Playing {
            return None;
        }
        match &self.grid {
            Some(g) => handle_tile_hover(g, &self.camera, cursor),
            None => None,
        }
    }

    /// Makes `tool` the chosen tool, in any phase of the game.
    pub fn select_tool(&mut self, tool: Tool)
        requires
            old(self).wf(),
        ensures
            final(self).wf(),
            final(self).tool == (SelectedTool { tool }),
            final(self).state == old(self).state,
            final(self).mission == old(self).mission,
            final(self).grid == old(self).grid,
            final(self).camera == old(self).camera,
            final(self).dialog == old(self).dialog,
    {
        self.tool.select(tool);
    }
}

} // verus!
